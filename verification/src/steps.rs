//! What each step of a run does with its reply.
use crate::app::AppView;
use crate::app_state::{unfinished, AppStateView};
use crate::closing::{law_open_positions, open_positions};
use crate::event::{
    info_after_all, law_any_request_to_close_counts, law_flags_tell_what_happened,
    no_info, Event, FrameEventInfo, WindowInput,
};
use crate::platform::Platform;
use crate::run_state::{Reply, RunState, Step};
use crate::ui_state::{planned_calls, HitTestItem, UiState, UpdateScreen};
use glium::SwapBuffersError;
use vstd::prelude::*;

verus! {

/// A run starts with the application as it is and with the layout of the first window; nothing was
/// laid out, described, closed or called yet, and nothing failed. Without windows, it is finished.
pub proof fn law_where_a_run_starts<T, P: Platform>(app: AppView<T, P>, only_first_frame: bool)
    ensures
        ({
            let start = RunState::start(app, only_first_frame);
            &&& start.app == app
            &&& start.step == if app.windows.len() == 0 {
                Step::Finished
            } else {
                Step::FirstLayout(0)
            }
            &&& start.ui_states.len() == 0
            &&& start.ui_descriptions.len() == 0
            &&& start.closed_windows.len() == 0
            &&& start.calls.len() == 0
            &&& start.failure is None
            &&& start.only_first_frame == only_first_frame
        }),
{
}

/// Each step takes the reply that answers it, and no other. Where a reply answers the step, it is
/// refused only if it cannot be acted upon: a hit test that leads to a callback that does not exist,
/// the last answer of the callbacks or the user's turn where the user's side of the window is
/// missing, and a list of finished tasks of the wrong length.
pub proof fn law_which_replies_a_step_takes<T, P: Platform>(state: RunState<T, P>, reply: Reply<P>)
    ensures
        state.step is FirstLayout || state.step is Layout ==> state.accepts(reply)
            == reply is UiState,
        state.step is FirstDescribe || state.step is Describe ==> state.accepts(reply)
            == reply is UiDescription,
        state.step is FirstRender || state.step is FirstSwap || state.step is StartFrame
            || state.step is MakeCurrent || state.step is InitShader || state.step is UpdateDisplay
            || state.step is Render || state.step is CloseWindows || state.step is RunDeamons
            || state.step is Sleep ==> state.accepts(reply) == reply is Done,
        state.step is PollEvents ==> state.accepts(reply) == reply is Events,
        state.step is SwapBuffers ==> state.accepts(reply) == (reply is Done
            || reply is SwapFailed),
        state.step is UpdateFromExternal ==> state.accepts(reply) == reply is FrameEventInfo,
        state.step is EndFrame ==> state.accepts(reply) == reply is Elapsed,
        state.step is Finished ==> !state.accepts(reply),
        state.step matches Step::UpdateFromUser(i) ==> state.accepts(reply) == (reply is Done && i
            < state.app.app_state.windows.len()),
        state.step is CleanUpTasks ==> state.accepts(reply) == (
        reply matches Reply::FinishedTasks(finished) && finished@.len()
            == state.app.app_state.tasks.len()),
        state.step matches Step::HitTest(i) ==> state.accepts(reply) == (
        reply matches Reply::HitTestResult(items) && forall|k: int|
            0 <= k < planned_calls(state.ui_states[i as int], i, items@).len()
                ==> state.ui_states[i as int].callback_list@.contains_key(
                (#[trigger] planned_calls(state.ui_states[i as int], i, items@)[k]).callback_id,
            )),
        state.step matches Step::CallCallback(i, _) ==> state.accepts(reply) == (
        reply matches Reply::Update(update) && (state.calls_made + 1 != state.calls.len() || (
        !state.redraw && update is DontRedraw) || i < state.app.app_state.windows.len())),
{
}

/// Before anything is drawn, every window is laid out, from the first to the last, and each keeps
/// the layout that it was given.
pub proof fn law_every_window_is_laid_out_first<T, P: Platform>(
    state: RunState<T, P>,
    i: usize,
    ui_state: UiState<P>,
)
    requires
        state.step == Step::FirstLayout(i),
        i < state.app.windows.len() <= usize::MAX,
    ensures
        ({
            let after = state.advance(Reply::UiState(ui_state));
            &&& after.ui_states.len() == state.ui_states.len() + 1
            &&& after.ui_states.last() == ui_state
            &&& after.ui_states.drop_last() == state.ui_states
            &&& i + 1 < state.app.windows.len() ==> after.step == Step::FirstLayout((i + 1) as usize)
            &&& i + 1 == state.app.windows.len() ==> after.step == Step::FirstDescribe(0)
        }),
{
    assert(state.ui_states.push(ui_state).drop_last() =~= state.ui_states);
}

/// Then every window is described, drawn and shown, from the first to the last, and each keeps the
/// description that it was given. After the last one, the run begins its first frame, unless it was
/// to end there.
pub proof fn law_every_window_is_shown_first<T, P: Platform>(
    state: RunState<T, P>,
    i: usize,
    description: P::UiDescription,
)
    requires
        i < state.app.windows.len() <= usize::MAX,
    ensures
        state.step == Step::FirstDescribe(i) ==> {
            let after = state.advance(Reply::UiDescription(description));
            &&& after.ui_descriptions.len() == state.ui_descriptions.len() + 1
            &&& after.ui_descriptions.last() == description
            &&& after.ui_descriptions.drop_last() == state.ui_descriptions
            &&& after.step == Step::FirstRender(i)
        },
        state.step == Step::FirstRender(i) ==> state.advance(Reply::Done).step == Step::FirstSwap(
            i,
        ),
        state.step == Step::FirstSwap(i) ==> {
            let after = state.advance(Reply::Done);
            &&& i + 1 < state.app.windows.len() ==> after.step == Step::FirstDescribe(
                (i + 1) as usize,
            )
            &&& i + 1 == state.app.windows.len() && state.only_first_frame ==> after.step
                == Step::Finished
            &&& i + 1 == state.app.windows.len() && !state.only_first_frame ==> after.step
                == Step::StartFrame
        },
{
    assert(state.ui_descriptions.push(description).drop_last() =~= state.ui_descriptions);
}

/// A frame begins with the first window and with no window closed. The turn of a window begins with
/// making it current and having its shaders ready, and then its events are polled.
pub proof fn law_how_a_turn_begins<T, P: Platform>(state: RunState<T, P>, i: usize)
    ensures
        state.step is StartFrame ==> state.advance(Reply::Done).step == Step::MakeCurrent(0)
            && state.advance(Reply::Done).closed_windows.len() == 0,
        state.step == Step::MakeCurrent(i) ==> state.advance(Reply::Done).step == Step::InitShader(
            i,
        ),
        state.step == Step::InitShader(i) ==> state.advance(Reply::Done).step == Step::PollEvents(
            i,
        ),
{
}

/// The events of a window alone decide what its turn does: nothing is left of earlier turns. The
/// window is noted for closing exactly if one of its events asks for that, behind the windows that
/// were noted before. If the event loop was woken up, the buffers are swapped next; otherwise, if
/// the cursor moved, a hit test is next; otherwise, the layout.
pub proof fn law_what_polling_leads_to<T, P: Platform>(
    state: RunState<T, P>,
    i: usize,
    events: Vec<Event>,
)
    requires
        state.step == Step::PollEvents(i),
    ensures
        ({
            let after = state.advance(Reply::Events(events));
            let close = exists|k: int|
                0 <= k < events@.len() && (#[trigger] events@[k]) == (Event::WindowEvent {
                    event: WindowInput::CloseRequested,
                });
            let awake = exists|k: int| 0 <= k < events@.len() && (#[trigger] events@[k]) is Awakened;
            let moved = exists|k: int|
                0 <= k < events@.len() && ((#[trigger] events@[k]) matches Event::WindowEvent {
                    event: WindowInput::CursorMoved { .. },
                });
            let refresh = exists|k: int|
                0 <= k < events@.len() && ((#[trigger] events@[k]) matches Event::WindowEvent {
                    event: WindowInput::Refresh,
                });
            &&& after.info == info_after_all(no_info(), events@)
            &&& after.info.should_redraw_window == refresh
            &&& after.info.should_hittest == moved
            &&& close ==> after.closed_windows == state.closed_windows.push(i)
            &&& !close ==> after.closed_windows == state.closed_windows
            &&& awake ==> after.step == Step::SwapBuffers(i)
            &&& !awake && moved ==> after.step == Step::HitTest(i)
            &&& !awake && !moved ==> after.step == Step::Layout(i)
        }),
{
    law_any_request_to_close_counts(events@);
    law_flags_tell_what_happened(events@);
}

/// After the buffers were swapped, a hit test is next if the cursor moved, and otherwise the layout.
/// Where they could not be swapped, the run is over, and it keeps the reason.
pub proof fn law_what_swapping_leads_to<T, P: Platform>(
    state: RunState<T, P>,
    i: usize,
    e: SwapBuffersError,
)
    requires
        state.step == Step::SwapBuffers(i),
    ensures
        state.advance(Reply::Done).step == if state.info.should_hittest {
            Step::HitTest(i)
        } else {
            Step::Layout(i)
        },
        state.advance(Reply::Done).failure == state.failure,
        state.advance(Reply::SwapFailed(e)).step == Step::Finished,
        state.advance(Reply::SwapFailed(e)).failure == Some(e),
{
}

/// A hit test leads to the calls for the nodes that were hit, looked up in the layout that the
/// window has by then, and no answer counts yet. The first call is next, and without calls the
/// layout is.
pub proof fn law_what_a_hit_test_leads_to<T, P: Platform>(
    state: RunState<T, P>,
    i: usize,
    items: Vec<HitTestItem>,
)
    requires
        state.step == Step::HitTest(i),
    ensures
        ({
            let after = state.advance(Reply::HitTestResult(items));
            &&& after.calls == planned_calls(state.ui_states[i as int], i, items@)
            &&& after.calls_made == 0
            &&& !after.redraw
            &&& after.calls.len() > 0 ==> after.step == Step::CallCallback(i, after.calls[0])
            &&& after.calls.len() == 0 ==> after.step == Step::Layout(i)
        }),
{
}

/// The answers of the callbacks add up: one that asks for a redraw is not forgotten, whatever the
/// others answer. As long as calls are left, the next one is made and nothing else happens; then the
/// layout is next. Only then, and only if one of them asked for it, the window needs a redraw, what
/// the user overrode for it comes into force, and the user starts again without overrides. Whatever
/// the frame asked for before stays asked for.
pub proof fn law_what_an_answer_leads_to<T, P: Platform>(
    state: RunState<T, P>,
    i: usize,
    update: UpdateScreen,
    other: int,
)
    requires
        state.step matches Step::CallCallback(w, _) && w == i,
        state.calls_made < state.calls.len(),
        i < state.app.windows.len(),
        state.calls_made + 1 == state.calls.len() && (state.redraw || update is Redraw) ==> i
            < state.app.app_state.windows.len(),
    ensures
        ({
            let after = state.advance(Reply::Update(update));
            let asked = state.redraw || update is Redraw;
            let last = state.calls_made + 1 == state.calls.len();
            &&& after.redraw == asked
            &&& after.calls_made == state.calls_made + 1
            &&& !last ==> after.step == Step::CallCallback(
                i,
                state.calls[state.calls_made as int + 1],
            )
            &&& last ==> after.step == Step::Layout(i)
            &&& !(last && asked) ==> after.app == state.app && after.info == state.info
            &&& last && asked ==> {
                let side = state.app.app_state.windows[i as int];
                let new_side = after.app.app_state.windows[i as int];
                &&& after.info == (FrameEventInfo { should_redraw_window: true, ..state.info })
                &&& after.app.windows.len() == state.app.windows.len()
                &&& after.app.windows[i as int].dynamic_css_overrides == side.css
                &&& after.app.windows[i as int].native == state.app.windows[i as int].native
                &&& after.app.windows[i as int].display == state.app.windows[i as int].display
                &&& after.app.app_state.windows.len() == state.app.app_state.windows.len()
                &&& new_side.css.dom() == Set::<Seq<char>>::empty()
                &&& new_side.state == side.state
                &&& new_side.read_only_window == side.read_only_window
                &&& 0 <= other < state.app.windows.len() && other != i ==> after.app.windows[other]
                    == state.app.windows[other]
                &&& 0 <= other < state.app.app_state.windows.len() && other != i
                    ==> after.app.app_state.windows[other] == state.app.app_state.windows[other]
            }
        }),
{
    assert(Map::<Seq<char>, P::CssProperty>::empty().dom() =~= Set::<Seq<char>>::empty());
}

/// The layout that a window is given in its turn is the layout that it has from then on, whatever the
/// events of the frame asked for. The other windows keep theirs.
pub proof fn law_a_window_keeps_the_layout_it_is_given<T, P: Platform>(
    state: RunState<T, P>,
    i: usize,
    ui_state: UiState<P>,
    other: int,
)
    requires
        state.step == Step::Layout(i),
        i < state.ui_states.len(),
    ensures
        ({
            let after = state.advance(Reply::UiState(ui_state));
            &&& after.ui_states.len() == state.ui_states.len()
            &&& after.ui_states[i as int] == ui_state
            &&& 0 <= other < state.ui_states.len() && other != i ==> after.ui_states[other]
                == state.ui_states[other]
            &&& after.step == Step::UpdateFromExternal(i)
        }),
{
}

/// Whether a window is redrawn is decided by the information that is handed back when the window
/// takes over its size, and by nothing else: all of that information is kept, and after the user's
/// turn the window is described exactly if it says so. Otherwise the turn is over.
pub proof fn law_the_information_handed_back_decides<T, P: Platform>(
    state: RunState<T, P>,
    i: usize,
    info: FrameEventInfo,
    app_state: AppStateView<T, P>,
)
    requires
        state.step == Step::UpdateFromExternal(i),
        i < state.app.windows.len() <= usize::MAX,
    ensures
        ({
            let taken = state.advance(Reply::FrameEventInfo(info));
            let after = taken.with_app_state(app_state).advance(Reply::Done);
            &&& taken.info == info
            &&& taken.step == Step::UpdateFromUser(i)
            &&& info.should_redraw_window ==> after.step == Step::Describe(i)
            &&& !info.should_redraw_window && i + 1 < state.app.windows.len() ==> after.step
                == Step::MakeCurrent((i + 1) as usize)
            &&& !info.should_redraw_window && i + 1 == state.app.windows.len() ==> after.step
                == Step::CloseWindows
        }),
{
}

/// The description that a window is given in its turn is the description that it has from then on,
/// and it is drawn in the same turn, after the compositor was told about its size. The other windows
/// keep their descriptions. Once it is drawn, the turn is over.
pub proof fn law_a_described_window_is_drawn<T, P: Platform>(
    state: RunState<T, P>,
    i: usize,
    description: P::UiDescription,
    other: int,
)
    requires
        i < state.ui_descriptions.len(),
        i < state.app.windows.len() <= usize::MAX,
    ensures
        state.step == Step::Describe(i) ==> {
            let after = state.advance(Reply::UiDescription(description));
            &&& after.ui_descriptions.len() == state.ui_descriptions.len()
            &&& after.ui_descriptions[i as int] == description
            &&& 0 <= other < state.ui_descriptions.len() && other != i
                ==> after.ui_descriptions[other] == state.ui_descriptions[other]
            &&& after.step == Step::UpdateDisplay(i)
        },
        state.step == Step::UpdateDisplay(i) ==> state.advance(Reply::Done).step == Step::Render(i),
        state.step == Step::Render(i) ==> state.advance(Reply::Done).step == if i + 1
            < state.app.windows.len() {
            Step::MakeCurrent((i + 1) as usize)
        } else {
            Step::CloseWindows
        },
{
}

/// Every draw call of a run, the first one of a window and the later ones, removes exactly the fonts
/// that were deleted, and touches nothing else of the resources.
pub proof fn law_every_draw_call_removes_the_deleted_fonts<T, P: Platform>(
    state: RunState<T, P>,
    id: Seq<char>,
)
    requires
        state.step is FirstRender || state.step is Render,
    ensures
        ({
            let before = state.app.app_state.resources;
            let after = state.advance(Reply::Done).app.app_state.resources;
            &&& after.fonts.contains_key(id) == (before.fonts.contains_key(id)
                && !before.deleted_fonts.contains(id))
            &&& after.fonts.contains_key(id) ==> after.fonts[id] == before.fonts[id]
            &&& !after.deleted_fonts.contains(id)
            &&& after.images == before.images
            &&& after.texts == before.texts
            &&& after.texts_issued == before.texts_issued
        }),
{
}

/// When the turns are over, exactly the windows that are noted for closing go, each with its layout,
/// its description and its user's side. There is a list of the windows that stay, from the first to
/// the last, in which a window is found exactly if it is not noted; what is left is theirs.
pub proof fn law_noted_windows_go_and_the_others_stay<T, P: Platform>(state: RunState<T, P>) -> (stay:
    Seq<int>)
    requires
        state.step is CloseWindows,
        state.ui_states.len() == state.app.windows.len(),
        state.ui_descriptions.len() == state.app.windows.len(),
    ensures
        forall|a: int, b: int| 0 <= a < b < stay.len() ==> stay[a] < stay[b],
        forall|k: int| #[trigger]
            stay.contains(k) <==> 0 <= k < state.app.windows.len() && !(exists|j: int|
                0 <= j < state.closed_windows.len() && #[trigger] state.closed_windows[j] == k),
        ({
            let after = state.advance(Reply::Done);
            let sides = state.app.app_state.windows;
            &&& after.step == Step::RunDeamons
            &&& after.app.windows.len() == stay.len()
            &&& after.ui_states.len() == stay.len()
            &&& after.ui_descriptions.len() == stay.len()
            &&& sides.len() == state.app.windows.len() ==> after.app.app_state.windows.len()
                == stay.len()
            &&& forall|a: int|
                #![trigger stay[a]]
                0 <= a < stay.len() ==> {
                    &&& 0 <= stay[a] < state.app.windows.len()
                    &&& after.app.windows[a] == state.app.windows[stay[a]]
                    &&& after.ui_states[a] == state.ui_states[stay[a]]
                    &&& after.ui_descriptions[a] == state.ui_descriptions[stay[a]]
                    &&& sides.len() == state.app.windows.len() ==> after.app.app_state.windows[a]
                        == sides[stay[a]]
                }
        }),
{
    law_open_positions(state.app.windows.len(), state.closed_windows);
    open_positions(state.app.windows.len(), state.closed_windows)
}

/// After the closed windows went, the deamons run, and then the finished tasks go. A frame that took
/// less than 16 milliseconds is followed by a sleep for what is left of them. Then the next frame
/// begins, unless there are no windows left.
pub proof fn law_how_a_frame_ends<T, P: Platform>(
    state: RunState<T, P>,
    finished: Vec<bool>,
    nanos: u128,
)
    ensures
        state.step is RunDeamons ==> state.advance(Reply::Done).step == Step::CleanUpTasks,
        state.step is CleanUpTasks ==> {
            let after = state.advance(Reply::FinishedTasks(finished));
            &&& after.step == Step::EndFrame
            &&& after.app.app_state.tasks == unfinished(state.app.app_state.tasks, finished@)
        },
        state.step is EndFrame && nanos < 16_000_000 ==> (state.advance(
            Reply::Elapsed(nanos),
        ).step matches Step::Sleep(sleep) && nanos + sleep == 16_000_000),
        state.step is EndFrame && nanos >= 16_000_000 ==> state.advance(Reply::Elapsed(nanos)).step
            == if state.app.windows.len() == 0 {
            Step::Finished
        } else {
            Step::StartFrame
        },
        state.step is Sleep ==> state.advance(Reply::Done).step == if state.app.windows.len() == 0 {
            Step::Finished
        } else {
            Step::StartFrame
        },
{
}

/// What a step is not about stays as it is. Layouts change only by laying out and by closing,
/// descriptions by describing and by closing, the windows and their user's sides by the answers of
/// callbacks and by closing, the resources by drawing, and the tasks by cleaning up. The data and the
/// deamons never change.
pub proof fn law_a_step_changes_only_what_it_is_about<T, P: Platform>(
    state: RunState<T, P>,
    reply: Reply<P>,
)
    requires
        state.accepts(reply),
    ensures
        ({
            let after = state.advance(reply);
            let shared = state.app.app_state;
            let new_shared = after.app.app_state;
            &&& !(state.step is FirstLayout || state.step is Layout || state.step is CloseWindows)
                ==> after.ui_states == state.ui_states
            &&& !(state.step is FirstDescribe || state.step is Describe
                || state.step is CloseWindows) ==> after.ui_descriptions == state.ui_descriptions
            &&& !(state.step is PollEvents || state.step is CallCallback
                || state.step is UpdateFromExternal) ==> after.info == state.info
            &&& !(state.step is PollEvents || state.step is StartFrame) ==> after.closed_windows
                == state.closed_windows
            &&& !(state.step is HitTest) ==> after.calls == state.calls
            &&& !(state.step is HitTest || state.step is CallCallback) ==> after.calls_made
                == state.calls_made && after.redraw == state.redraw
            &&& !(state.step is CallCallback || state.step is CloseWindows) ==> after.app.windows
                == state.app.windows && new_shared.windows == shared.windows
            &&& !(state.step is FirstRender || state.step is Render) ==> new_shared.resources
                == shared.resources
            &&& !(state.step is CleanUpTasks) ==> new_shared.tasks == shared.tasks
            &&& !(reply is SwapFailed) ==> after.failure == state.failure
            &&& new_shared.data == shared.data
            &&& new_shared.deamons == shared.deamons
            &&& after.only_first_frame == state.only_first_frame
        }),
{
}

/// From its layout on, a redraw is carried through to the end of the turn: where the information
/// handed back says that the window should be redrawn, the window is described, with the layout that
/// it was given in this very turn, the compositor is told about its size, and it is drawn with the
/// description that was made of it. The application may be changed in between.
pub proof fn law_a_redraw_is_carried_through<T, P: Platform>(
    state: RunState<T, P>,
    i: usize,
    ui_state: UiState<P>,
    info: FrameEventInfo,
    description: P::UiDescription,
    changed: AppStateView<T, P>,
)
    requires
        state.step == Step::Layout(i),
        i < state.app.windows.len() <= usize::MAX,
        state.ui_states.len() == state.app.windows.len(),
        state.ui_descriptions.len() == state.app.windows.len(),
        i < changed.windows.len(),
        info.should_redraw_window,
    ensures
        ({
            let laid_out = state.advance(Reply::UiState(ui_state)).with_app_state(changed);
            let taken = laid_out.advance(Reply::FrameEventInfo(info));
            let set = taken.advance(Reply::Done);
            let described = set.advance(Reply::UiDescription(description));
            let told = described.advance(Reply::Done);
            let drawn = told.advance(Reply::Done);
            &&& state.accepts(Reply::UiState(ui_state))
            &&& laid_out.accepts(Reply::FrameEventInfo(info))
            &&& taken.accepts(Reply::Done)
            &&& set.step == Step::Describe(i)
            &&& set.ui_states[i as int] == ui_state
            &&& set.accepts(Reply::UiDescription(description))
            &&& described.step == Step::UpdateDisplay(i)
            &&& described.accepts(Reply::Done)
            &&& told.step == Step::Render(i)
            &&& told.ui_descriptions[i as int] == description
            &&& told.ui_states[i as int] == ui_state
            &&& told.accepts(Reply::Done)
            &&& i + 1 < state.app.windows.len() ==> drawn.step == Step::MakeCurrent(
                (i + 1) as usize,
            )
            &&& i + 1 == state.app.windows.len() ==> drawn.step is CloseWindows
            &&& drawn.closed_windows == state.closed_windows
        }),
{
}

/// In a turn in which the last callback was called and one of them asked for a redraw, or in which
/// the window was asked to refresh itself, the window comes to its description in that same turn,
/// with the layout of that turn, unless the information that is handed back says otherwise.
pub proof fn law_a_request_for_a_redraw_is_met_in_the_same_turn<T, P: Platform>(
    state: RunState<T, P>,
    i: usize,
    update: UpdateScreen,
    ui_state: UiState<P>,
    changed: AppStateView<T, P>,
)
    requires
        state.step matches Step::CallCallback(w, _) && w == i,
        state.calls_made + 1 == state.calls.len(),
        i < state.app.windows.len() <= usize::MAX,
        i < state.app.app_state.windows.len(),
        i < changed.windows.len(),
        i < state.ui_states.len(),
        update is Redraw || state.redraw || state.info.should_redraw_window,
    ensures
        ({
            let called = state.advance(Reply::Update(update));
            let laid_out = called.with_app_state(changed).advance(Reply::UiState(ui_state));
            let set = laid_out.advance(Reply::FrameEventInfo(called.info)).advance(Reply::Done);
            &&& called.step == Step::Layout(i)
            &&& called.info.should_redraw_window
            &&& laid_out.info == called.info
            &&& set.step == Step::Describe(i)
            &&& set.ui_states[i as int] == ui_state
        }),
{
}

/// A window that is asked to refresh itself is described in that same turn, with the layout of that
/// turn, if nothing else happened to it and the information is handed back as it was.
pub proof fn law_a_refresh_is_met_in_the_same_turn<T, P: Platform>(
    state: RunState<T, P>,
    i: usize,
    events: Vec<Event>,
    k: int,
    ui_state: UiState<P>,
)
    requires
        state.step == Step::PollEvents(i),
        0 <= k < events@.len(),
        events@[k] == (Event::WindowEvent { event: WindowInput::Refresh }),
        forall|j: int|
            0 <= j < events@.len() ==> !((#[trigger] events@[j]) is Awakened) && !(
            events@[j] matches Event::WindowEvent { event: WindowInput::CursorMoved { .. } }),
        i < state.ui_states.len(),
        i < state.app.app_state.windows.len(),
    ensures
        ({
            let polled = state.advance(Reply::Events(events));
            let laid_out = polled.advance(Reply::UiState(ui_state));
            let set = laid_out.advance(Reply::FrameEventInfo(polled.info)).advance(Reply::Done);
            &&& polled.step == Step::Layout(i)
            &&& set.step == Step::Describe(i)
            &&& set.ui_states[i as int] == ui_state
        }),
{
    law_flags_tell_what_happened(events@);
    assert(events@[k] == events@[k]);
}

} // verus!
