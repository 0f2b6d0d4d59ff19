//! What holds of every run of an application.
use crate::app::AppView;
use crate::app_state::AppStateView;
use crate::closing::{
    increasing, is_closed, law_all_or_nothing, law_open_positions, open_positions,
};
use crate::event::{
    asks_to_close, cursor_of, info_after_all, is_refresh, law_flags_tell_what_happened, no_info, Event,
    FrameEventInfo,
};
use crate::platform::Platform;
use crate::resources::{law_drawing_twice, ResourcesView};
use crate::run_state::{window_of, Reply, RunState, Step, FRAME_NANOS};
use crate::ui_state::{calls_known, planned_calls, HitTestItem, UpdateScreen};
use crate::window::{belongs, FakeWindowView, NewWindow};
use vstd::prelude::*;

verus! {

/// What came of the work on the screen for one step: the state of the application, which a callback
/// may have changed at will, and the reply.
#[verifier::reject_recursive_types(T)]
pub struct Outcome<T, P: Platform> {
    pub app_state: AppStateView<T, P>,
    pub reply: Reply<P>,
}

impl<T, P: Platform> RunState<T, P> {
    /// The same run with another state of the application.
    pub open spec fn with_app_state(self, app_state: AppStateView<T, P>) -> Self {
        RunState { app: AppView { app_state, ..self.app }, ..self }
    }

    /// Whether the outcomes answer the steps of the application one after the other.
    pub open spec fn accepts_all(self, outcomes: Seq<Outcome<T, P>>) -> bool
        decreases outcomes.len(),
    {
        outcomes.len() == 0 || (self.accepts_all(outcomes.drop_last()) && self.after(
            outcomes.drop_last(),
        ).with_app_state(outcomes.last().app_state).accepts(outcomes.last().reply))
    }

    /// The state after a series of outcomes.
    pub open spec fn after(self, outcomes: Seq<Outcome<T, P>>) -> Self
        decreases outcomes.len(),
    {
        if outcomes.len() == 0 {
            self
        } else {
            self.after(outcomes.drop_last()).with_app_state(outcomes.last().app_state).advance(
                outcomes.last().reply,
            )
        }
    }

    /// Whether nothing but the run itself changes the images, fonts and texts.
    pub open spec fn keeps_resources(self, outcomes: Seq<Outcome<T, P>>) -> bool
        decreases outcomes.len(),
    {
        outcomes.len() == 0 || (self.keeps_resources(outcomes.drop_last())
            && outcomes.last().app_state.resources == self.after(
            outcomes.drop_last(),
        ).app.app_state.resources)
    }

    /// Whether nothing but the run itself adds, removes or exchanges what the user can see and
    /// change of the windows. Their state and their style may be changed at will.
    pub open spec fn keeps_user_sides(self, outcomes: Seq<Outcome<T, P>>) -> bool
        decreases outcomes.len(),
    {
        outcomes.len() == 0 || (self.keeps_user_sides(outcomes.drop_last()) && same_user_sides(
            self.after(outcomes.drop_last()).app.app_state.windows,
            outcomes.last().app_state.windows,
        ))
    }
}

/// Whether two lists of user's sides are of the same windows.
pub open spec fn same_user_sides<P: Platform>(
    a: Seq<FakeWindowView<P>>,
    b: Seq<FakeWindowView<P>>,
) -> bool {
    &&& a.len() == b.len()
    &&& forall|i: int|
        0 <= i < a.len() ==> (#[trigger] a[i]).read_only_window == b[i].read_only_window
}

/// A step is always about an open window, and every window always has its layout and its
/// description: what holds at the start of a run holds after any outcomes.
pub proof fn law_windows_layouts_and_descriptions_stay_in_step<T, P: Platform>(
    state: RunState<T, P>,
    outcomes: Seq<Outcome<T, P>>,
)
    requires
        state.wf(),
        state.accepts_all(outcomes),
    ensures
        state.after(outcomes).wf(),
    decreases outcomes.len(),
{
    if outcomes.len() > 0 {
        let before = state.after(outcomes.drop_last());
        law_windows_layouts_and_descriptions_stay_in_step(state, outcomes.drop_last());
        lemma_advance_keeps_wf(
            before.with_app_state(outcomes.last().app_state),
            outcomes.last().reply,
        );
    }
}

proof fn lemma_advance_keeps_wf<T, P: Platform>(state: RunState<T, P>, reply: Reply<P>)
    requires
        state.wf(),
        state.accepts(reply),
    ensures
        state.advance(reply).wf(),
{
    if state.step is CloseWindows {
        law_open_positions(state.n(), state.closed_windows);
    }
}

/// A new window gets its user's side, and no step of a run parts the two: there are as many windows
/// as user's sides, and at each position they are of the same window.
pub proof fn law_windows_and_user_sides_stay_together<T, P: Platform>(
    app: AppView<T, P>,
    new: NewWindow<P>,
    display: P::Display,
    state: RunState<T, P>,
    reply: Reply<P>,
)
    requires
        app.wf(),
        cloned::<P::Display>(new.window.display, display),
        state.wf(),
        state.app.wf(),
        state.accepts(reply),
    ensures
        app.open_window(new, display).wf(),
        state.advance(reply).app.wf(),
{
    lemma_step_keeps_sides_together(state, reply);
}

/// Throughout every run, each window is at the same position as its user's side, as long as the
/// callbacks leave the list of user's sides alone.
pub proof fn law_windows_and_user_sides_belong_together<T, P: Platform>(
    app: AppView<T, P>,
    only_first_frame: bool,
    outcomes: Seq<Outcome<T, P>>,
)
    requires
        app.windows.len() <= usize::MAX,
        app.wf(),
        RunState::start(app, only_first_frame).accepts_all(outcomes),
        RunState::start(app, only_first_frame).keeps_user_sides(outcomes),
    ensures
        RunState::start(app, only_first_frame).after(outcomes).app.wf(),
    decreases outcomes.len(),
{
    let start = RunState::start(app, only_first_frame);
    if outcomes.len() > 0 {
        law_windows_and_user_sides_belong_together(app, only_first_frame, outcomes.drop_last());
        law_windows_layouts_and_descriptions_stay_in_step(start, outcomes.drop_last());
        let before = start.after(outcomes.drop_last());
        let changed = before.with_app_state(outcomes.last().app_state);
        assert forall|i: int| 0 <= i < changed.app.windows.len() implies belongs(
            #[trigger] changed.app.app_state.windows[i],
            changed.app.windows[i],
        ) by {
            assert(belongs(before.app.app_state.windows[i], before.app.windows[i]));
        }
        lemma_step_keeps_sides_together(changed, outcomes.last().reply);
    }
}

proof fn lemma_step_keeps_sides_together<T, P: Platform>(state: RunState<T, P>, reply: Reply<P>)
    requires
        state.wf(),
        state.app.wf(),
        state.accepts(reply),
    ensures
        state.advance(reply).app.wf(),
{
    if state.step is CloseWindows {
        let before = state.app;
        let after = state.advance(reply).app;
        let open = open_positions(state.n(), state.closed_windows);
        law_open_positions(state.n(), state.closed_windows);
        assert forall|i: int| 0 <= i < after.windows.len() implies belongs(
            #[trigger] after.app_state.windows[i],
            after.windows[i],
        ) by {
            assert(belongs(before.app_state.windows[open[i]], before.windows[open[i]]));
        }
    }
}

/// As long as the user can see and change every window, the answer of a callback can always be
/// acted upon, and a window can always take over what the user set for it.
pub proof fn law_with_their_user_sides_windows_can_go_on<T, P: Platform>(
    state: RunState<T, P>,
    update: UpdateScreen,
)
    requires
        state.wf(),
        state.app.wf(),
    ensures
        state.step is CallCallback ==> state.accepts(Reply::Update(update)),
        state.step is UpdateFromUser ==> state.accepts(Reply::Done),
{
}

/// An application without windows is finished as soon as it is run, and one with windows is not.
pub proof fn law_without_windows_run_exits_immediately<T, P: Platform>(app: AppView<T, P>)
    ensures
        RunState::start(app, false).step is Finished <==> app.windows.len() == 0,
{
}

/// An application goes on as long as it has windows. It ends when all of them are closed, or when
/// what was drawn could not be shown.
pub proof fn law_a_run_ends_when_all_windows_are_closed<T, P: Platform>(
    app: AppView<T, P>,
    outcomes: Seq<Outcome<T, P>>,
)
    requires
        app.windows.len() <= usize::MAX,
        RunState::start(app, false).accepts_all(outcomes),
        RunState::start(app, false).after(outcomes).step is Finished,
    ensures
        match RunState::start(app, false).after(outcomes).failure {
            Some(e) => outcomes.len() > 0 && outcomes.last().reply == Reply::<P>::SwapFailed(e),
            None => RunState::start(app, false).after(outcomes).n() == 0,
        },
{
    let start = RunState::start(app, false);
    law_windows_layouts_and_descriptions_stay_in_step(start, outcomes);
    lemma_mode_stays(start, outcomes);
    if outcomes.len() > 0 {
        let before = start.after(outcomes.drop_last());
        law_windows_layouts_and_descriptions_stay_in_step(start, outcomes.drop_last());
        assert(before.wf());
    }
}

proof fn lemma_mode_stays<T, P: Platform>(state: RunState<T, P>, outcomes: Seq<Outcome<T, P>>)
    ensures
        state.after(outcomes).only_first_frame == state.only_first_frame,
    decreases outcomes.len(),
{
    if outcomes.len() > 0 {
        lemma_mode_stays(state, outcomes.drop_last());
    }
}

/// At the end of a frame, an application without windows stops, and one with windows begins the
/// next frame.
pub proof fn law_a_frame_is_followed_by_another_as_long_as_there_are_windows<T, P: Platform>(
    state: RunState<T, P>,
    nanos: u128,
)
    requires
        state.step is Sleep || (state.step is EndFrame && nanos >= FRAME_NANOS),
    ensures
        ({
            let reply = if state.step is Sleep {
                Reply::Done
            } else {
                Reply::Elapsed(nanos)
            };
            &&& state.accepts(reply)
            &&& state.advance(reply).step == if state.n() == 0 {
                Step::Finished
            } else {
                Step::StartFrame
            }
        }),
{
}

/// A frame that took less than its time is followed by a sleep, so that both together last as long
/// as a frame should; one that took its time is not followed by a sleep.
pub proof fn law_frame_and_sleep_together_last_long_enough<T, P: Platform>(
    state: RunState<T, P>,
    nanos: u128,
)
    requires
        state.step is EndFrame,
    ensures
        nanos < FRAME_NANOS ==> (state.advance(Reply::Elapsed(nanos)).step matches Step::Sleep(
            sleep,
        ) && nanos + sleep == FRAME_NANOS),
        nanos >= FRAME_NANOS ==> !(state.advance(Reply::Elapsed(nanos)).step is Sleep),
{
}

/// Whether a step belongs to the turn of a window in a frame.
pub open spec fn in_turn(step: Step) -> bool {
    window_of(step) is Some && !(step is FirstLayout) && !(step is FirstDescribe) && !(
    step is FirstRender) && !(step is FirstSwap)
}

/// In a frame, the windows take turns, from the first to the last, and none is skipped: the frame
/// begins with the first window, a turn stays with its window until it passes on to the next one,
/// and only the last window's turn is followed by the end of the frame (or any turn by the end of
/// the run, if what was drawn could not be shown).
pub proof fn law_windows_take_turns<T, P: Platform>(state: RunState<T, P>, reply: Reply<P>)
    requires
        state.wf(),
        state.accepts(reply),
    ensures
        state.step is StartFrame ==> state.advance(reply).step == Step::MakeCurrent(0),
        in_turn(state.step) ==> {
            let i = window_of(state.step)->0;
            let next = state.advance(reply).step;
            ||| in_turn(next) && window_of(next) == Some(i) && !(next is MakeCurrent)
            ||| i + 1 < state.n() && next == Step::MakeCurrent((i + 1) as usize)
            ||| i + 1 == state.n() && next is CloseWindows
            ||| next is Finished && reply is SwapFailed
        },
{
}

/// In its turn, a window is polled for events first, laid out in any case, and described and drawn
/// exactly if that was asked for.
pub proof fn law_the_course_of_a_turn<T, P: Platform>(
    state: RunState<T, P>,
    i: usize,
    reply: Reply<P>,
)
    requires
        state.wf(),
        state.accepts(reply),
        window_of(state.step) == Some(i),
    ensures
        state.step is MakeCurrent ==> state.advance(reply).step == Step::InitShader(i),
        state.step is InitShader ==> state.advance(reply).step == Step::PollEvents(i),
        state.step is HitTest && !(state.advance(reply).step is CallCallback) ==> state.advance(
            reply,
        ).step == Step::Layout(i),
        state.step is CallCallback && !(state.advance(reply).step is CallCallback)
            ==> state.advance(reply).step == Step::Layout(i),
        state.step is UpdateFromUser ==> (state.advance(reply).step == Step::Describe(i)
            <==> state.info.should_redraw_window),
        state.step is Describe ==> state.advance(reply).step == Step::UpdateDisplay(i),
        state.step is UpdateDisplay ==> state.advance(reply).step == Step::Render(i),
{
}

/// How far a run is from the end of its frame. Four numbers, of which the first counts most: the
/// part of the frame, the windows that are left in it, the steps that are left for the window, and
/// the callbacks that are left to be called.
pub open spec fn distance<T, P: Platform>(state: RunState<T, P>) -> (int, int, int, int) {
    let n = state.n() as int;
    match state.step {
        Step::FirstLayout(i) => (3, n - i, 0, 0),
        Step::FirstDescribe(i) => (2, n - i, 2, 0),
        Step::FirstRender(i) => (2, n - i, 1, 0),
        Step::FirstSwap(i) => (2, n - i, 0, 0),
        Step::StartFrame => (1, n + 1, 0, 0),
        Step::MakeCurrent(i) => (1, n - i, 11, 0),
        Step::InitShader(i) => (1, n - i, 10, 0),
        Step::PollEvents(i) => (1, n - i, 9, 0),
        Step::SwapBuffers(i) => (1, n - i, 8, 0),
        Step::HitTest(i) => (1, n - i, 7, 0),
        Step::CallCallback(i, _) => (1, n - i, 6, state.calls.len() - state.calls_made),
        Step::Layout(i) => (1, n - i, 5, 0),
        Step::UpdateFromExternal(i) => (1, n - i, 4, 0),
        Step::UpdateFromUser(i) => (1, n - i, 3, 0),
        Step::Describe(i) => (1, n - i, 2, 0),
        Step::UpdateDisplay(i) => (1, n - i, 1, 0),
        Step::Render(i) => (1, n - i, 0, 0),
        Step::CloseWindows => (0, 0, 5, 0),
        Step::RunDeamons => (0, 0, 4, 0),
        Step::CleanUpTasks => (0, 0, 3, 0),
        Step::EndFrame => (0, 0, 2, 0),
        Step::Sleep(_) => (0, 0, 1, 0),
        Step::Finished => (0, 0, 0, 0),
    }
}

/// Whether one distance is smaller than another, the first number that differs deciding.
pub open spec fn nearer(a: (int, int, int, int), b: (int, int, int, int)) -> bool {
    ||| a.0 < b.0
    ||| a.0 == b.0 && a.1 < b.1
    ||| a.0 == b.0 && a.1 == b.1 && a.2 < b.2
    ||| a.0 == b.0 && a.1 == b.1 && a.2 == b.2 && a.3 < b.3
}

/// Every frame comes to its end: each reply brings the run nearer to it, until the next frame
/// begins. The distance is never negative.
pub proof fn law_every_frame_ends<T, P: Platform>(state: RunState<T, P>, reply: Reply<P>)
    requires
        state.wf(),
        state.accepts(reply),
    ensures
        distance(state).1 >= 0 && distance(state).3 >= 0,
        nearer(distance(state.advance(reply)), distance(state)) || (state.advance(
            reply,
        ).step is StartFrame && (state.step is EndFrame || state.step is Sleep)),
{
}

/// Whether the windows that were closed in a frame are noted from the first to the last: those that
/// had their turn already, and the current one as soon as it was polled.
pub open spec fn noted_in_order<T, P: Platform>(state: RunState<T, P>) -> bool {
    let closed = state.closed_windows;
    in_turn(state.step) || state.step is CloseWindows ==> {
        &&& forall|a: int, b: int| 0 <= a < b < closed.len() ==> closed[a] < closed[b]
        &&& forall|k: int|
            0 <= k < closed.len() ==> (#[trigger] closed[k]) < state.n() && match state.step {
                Step::MakeCurrent(i) => closed[k] < i,
                Step::InitShader(i) => closed[k] < i,
                Step::PollEvents(i) => closed[k] < i,
                _ => window_of(state.step) matches Some(i) ==> closed[k] <= i,
            }
    }
}

/// Throughout every run, only open windows are noted for closing, each at most once, and from the
/// first to the last.
pub proof fn law_only_open_windows_are_noted_for_closing<T, P: Platform>(
    app: AppView<T, P>,
    only_first_frame: bool,
    outcomes: Seq<Outcome<T, P>>,
)
    requires
        app.windows.len() <= usize::MAX,
        RunState::start(app, only_first_frame).accepts_all(outcomes),
    ensures
        noted_in_order(RunState::start(app, only_first_frame).after(outcomes)),
    decreases outcomes.len(),
{
    let start = RunState::start(app, only_first_frame);
    if outcomes.len() > 0 {
        law_windows_layouts_and_descriptions_stay_in_step(start, outcomes.drop_last());
        law_only_open_windows_are_noted_for_closing(app, only_first_frame, outcomes.drop_last());
        let before = start.after(outcomes.drop_last());
        let changed = before.with_app_state(outcomes.last().app_state);
        assert(noted_in_order(changed));
        lemma_step_keeps_notes_in_order(changed, outcomes.last().reply);
    }
}

proof fn lemma_step_keeps_notes_in_order<T, P: Platform>(state: RunState<T, P>, reply: Reply<P>)
    requires
        state.wf(),
        noted_in_order(state),
        state.accepts(reply),
    ensures
        noted_in_order(state.advance(reply)),
{
    let before = state.closed_windows;
    let after = state.advance(reply).closed_windows;
    if state.step is PollEvents {
        assert(forall|k: int| 0 <= k < before.len() ==> #[trigger] after[k] == before[k]);
    } else if !(state.step is StartFrame) {
        assert(after == before);
    }
}

/// Whether a window was asked to close in the frame that is going on after the outcomes.
pub open spec fn asked_in_frame<T, P: Platform>(
    start: RunState<T, P>,
    outcomes: Seq<Outcome<T, P>>,
    i: usize,
) -> bool
    decreases outcomes.len(),
{
    if outcomes.len() == 0 {
        false
    } else {
        let before = start.after(outcomes.drop_last()).step;
        match outcomes.last().reply {
            Reply::Events(events) if before == Step::PollEvents(i) && asks_to_close(
                events@,
            ) => true,
            _ => !(before is StartFrame) && asked_in_frame(start, outcomes.drop_last(), i),
        }
    }
}

/// Throughout every run, the windows that are noted for closing are exactly those that were asked to
/// close in the frame that is going on.
pub proof fn law_exactly_the_windows_that_were_asked_are_noted<T, P: Platform>(
    app: AppView<T, P>,
    only_first_frame: bool,
    outcomes: Seq<Outcome<T, P>>,
    i: usize,
)
    requires
        RunState::start(app, only_first_frame).accepts_all(outcomes),
    ensures
        is_closed(
            RunState::start(app, only_first_frame).after(outcomes).closed_windows,
            i as int,
        ) == asked_in_frame(RunState::start(app, only_first_frame), outcomes, i),
    decreases outcomes.len(),
{
    let start = RunState::start(app, only_first_frame);
    if outcomes.len() > 0 {
        law_exactly_the_windows_that_were_asked_are_noted(
            app,
            only_first_frame,
            outcomes.drop_last(),
            i,
        );
        let old = start.after(outcomes.drop_last()).closed_windows;
        let new = start.after(outcomes).closed_windows;
        if is_closed(old, i as int) && old.len() <= new.len() {
            let j = choose|j: int| 0 <= j < old.len() && #[trigger] old[j] == i;
            assert(new[j] == i || new.len() == 0);
        }
        if old.len() < new.len() {
            assert(new[old.len() as int] == window_of(start.after(outcomes.drop_last()).step)->0);
        }
    }
}

/// However many windows were closed in a frame, exactly these go, each with its layout, its
/// description and its user's side. The others stay and keep their order, and each keeps what is
/// its own.
pub proof fn law_exactly_the_closed_windows_go<T, P: Platform>(state: RunState<T, P>)
    requires
        state.wf(),
        state.step is CloseWindows,
    ensures
        state.accepts(Reply::Done),
        ({
            let after = state.advance(Reply::Done);
            let open = open_positions(state.n(), state.closed_windows);
            &&& increasing(open)
            &&& forall|k: int| #[trigger]
                open.contains(k) <==> 0 <= k < state.n() && !is_closed(state.closed_windows, k)
            &&& after.app.windows == open.map_values(|k: int| state.app.windows[k])
            &&& after.ui_states == open.map_values(|k: int| state.ui_states[k])
            &&& after.ui_descriptions == open.map_values(|k: int| state.ui_descriptions[k])
            &&& state.app.wf() ==> after.app.app_state.windows == open.map_values(
                |k: int| state.app.app_state.windows[k],
            )
        }),
{
    law_open_positions(state.n(), state.closed_windows);
}

/// When no window was closed, all windows stay as they are.
pub proof fn law_without_requests_no_window_is_closed<T, P: Platform>(state: RunState<T, P>)
    requires
        state.wf(),
        state.step is CloseWindows,
        state.closed_windows.len() == 0,
    ensures
        state.advance(Reply::Done) == (RunState { step: Step::RunDeamons, ..state }),
{
    law_all_or_nothing(state.app.windows, state.closed_windows);
    law_all_or_nothing(state.app.app_state.windows, state.closed_windows);
    law_all_or_nothing(state.ui_states, state.closed_windows);
    law_all_or_nothing(state.ui_descriptions, state.closed_windows);
    assert(state.advance(Reply::Done) =~= (RunState { step: Step::RunDeamons, ..state }));
}

/// When all windows were closed in a frame, however many there are, the run ends with that frame.
pub proof fn law_when_all_windows_are_closed_the_run_ends<T, P: Platform>(
    state: RunState<T, P>,
    finished: Vec<bool>,
    nanos: u128,
)
    requires
        state.wf(),
        state.step is CloseWindows,
        forall|k: int| 0 <= k < state.n() ==> is_closed(state.closed_windows, k),
        finished@.len() == state.app.app_state.tasks.len(),
    ensures
        ({
            let closed = state.advance(Reply::Done);
            let cleaned = closed.advance(Reply::Done).advance(Reply::FinishedTasks(finished));
            let ended = cleaned.advance(Reply::Elapsed(nanos));
            &&& state.accepts(Reply::Done)
            &&& closed.n() == 0
            &&& closed.accepts(Reply::Done)
            &&& closed.advance(Reply::Done).accepts(Reply::FinishedTasks(finished))
            &&& cleaned.accepts(Reply::Elapsed(nanos))
            &&& if nanos < FRAME_NANOS {
                ended.accepts(Reply::Done) && ended.advance(Reply::Done).step is Finished
            } else {
                ended.step is Finished
            }
        }),
{
    law_all_or_nothing(state.app.windows, state.closed_windows);
}

/// The outcomes that the callbacks of a hit test lead to: what each made of the state of the
/// application, and what it answered.
pub open spec fn updates<T, P: Platform>(
    answers: Seq<(AppStateView<T, P>, UpdateScreen)>,
) -> Seq<Outcome<T, P>> {
    answers.map_values(
        |answer: (AppStateView<T, P>, UpdateScreen)|
            Outcome { app_state: answer.0, reply: Reply::Update(answer.1) },
    )
}

/// Whether one of the callbacks asked for a redraw.
pub open spec fn asks_for_redraw<T, P: Platform>(
    answers: Seq<(AppStateView<T, P>, UpdateScreen)>,
) -> bool {
    exists|k: int| 0 <= k < answers.len() && (#[trigger] answers[k]).1 == UpdateScreen::Redraw
}

/// The run as the callbacks left it: the last of them had the last word on the state of the
/// application.
pub open spec fn left_by<T, P: Platform>(
    state: RunState<T, P>,
    answers: Seq<(AppStateView<T, P>, UpdateScreen)>,
) -> RunState<T, P> {
    if answers.len() == 0 {
        state
    } else {
        state.with_app_state(answers.last().0)
    }
}

/// After a hit test, all callbacks were called, whatever they answered. If at least one of them
/// asked for a redraw, the window is drawn again in this frame, the style properties that the user
/// set for it by then are in force, and the user starts again without any. Otherwise nothing
/// changed but what the callbacks changed themselves.
pub proof fn law_a_hit_test_redraws_if_a_callback_asks_for_it<T, P: Platform>(
    state: RunState<T, P>,
    i: usize,
    answers: Seq<(AppStateView<T, P>, UpdateScreen)>,
)
    requires
        state.wf(),
        state.step == Step::CallCallback(i, state.calls[0]),
        state.calls_made == 0,
        !state.redraw,
        answers.len() == state.calls.len(),
        asks_for_redraw(answers) ==> i < answers.last().0.windows.len(),
    ensures
        state.accepts_all(updates(answers)),
        ({
            let after = state.after(updates(answers));
            let left = left_by(state, answers);
            &&& after.step == Step::Layout(i)
            &&& after.info == (FrameEventInfo {
                should_redraw_window: state.info.should_redraw_window || asks_for_redraw(answers),
                ..state.info
            })
            &&& after.app == if asks_for_redraw(answers) {
                left.app.hand_over_css(i as int)
            } else {
                left.app
            }
            &&& after.ui_states == state.ui_states
            &&& after.ui_descriptions == state.ui_descriptions
            &&& after.closed_windows == state.closed_windows
        }),
{
    let front = answers.drop_last();
    lemma_answers_before_the_last(state, i, front);
    assert(updates(answers).drop_last() =~= updates(front));
    lemma_redraw_of_drop_last(answers);
}

proof fn lemma_redraw_of_drop_last<T, P: Platform>(
    answers: Seq<(AppStateView<T, P>, UpdateScreen)>,
)
    requires
        answers.len() > 0,
    ensures
        asks_for_redraw(answers) == (asks_for_redraw(answers.drop_last()) || answers.last().1
            == UpdateScreen::Redraw),
{
    let front = answers.drop_last();
    if asks_for_redraw(front) {
        let k = choose|k: int|
            0 <= k < front.len() && (#[trigger] front[k]).1 == UpdateScreen::Redraw;
        assert(answers[k].1 == UpdateScreen::Redraw);
    }
    if asks_for_redraw(answers) {
        let k = choose|k: int|
            0 <= k < answers.len() && (#[trigger] answers[k]).1 == UpdateScreen::Redraw;
        assert(k < front.len() ==> front[k].1 == UpdateScreen::Redraw);
    }
    assert(answers[answers.len() - 1] == answers.last());
}

proof fn lemma_answers_before_the_last<T, P: Platform>(
    state: RunState<T, P>,
    i: usize,
    answers: Seq<(AppStateView<T, P>, UpdateScreen)>,
)
    requires
        state.wf(),
        state.step == Step::CallCallback(i, state.calls[0]),
        state.calls_made == 0,
        !state.redraw,
        answers.len() < state.calls.len(),
    ensures
        state.accepts_all(updates(answers)),
        state.after(updates(answers)) == (RunState {
            step: Step::CallCallback(i, state.calls[answers.len() as int]),
            calls_made: answers.len(),
            redraw: asks_for_redraw(answers),
            ..left_by(state, answers)
        }),
    decreases answers.len(),
{
    if answers.len() > 0 {
        let front = answers.drop_last();
        lemma_answers_before_the_last(state, i, front);
        assert(updates(answers).drop_last() =~= updates(front));
        lemma_redraw_of_drop_last(answers);
    }
}

/// Outcomes can be given in two parts.
proof fn lemma_outcomes_in_two_parts<T, P: Platform>(
    state: RunState<T, P>,
    first: Seq<Outcome<T, P>>,
    second: Seq<Outcome<T, P>>,
)
    ensures
        state.after(first + second) == state.after(first).after(second),
        state.accepts_all(first + second) == (state.accepts_all(first) && state.after(
            first,
        ).accepts_all(second)),
    decreases second.len(),
{
    if second.len() == 0 {
        assert(first + second =~= first);
    } else {
        assert((first + second).drop_last() =~= first + second.drop_last());
        lemma_outcomes_in_two_parts(state, first, second.drop_last());
    }
}

/// The outcome of work that changes nothing of the state of the application.
pub open spec fn plain<T, P: Platform>(state: RunState<T, P>, reply: Reply<P>) -> Outcome<T, P> {
    Outcome { app_state: state.app.app_state, reply }
}

proof fn lemma_plain_outcome<T, P: Platform>(state: RunState<T, P>, reply: Reply<P>)
    ensures
        state.after(seq![plain(state, reply)]) == state.advance(reply),
        state.accepts_all(seq![plain(state, reply)]) == state.accepts(reply),
{
    let outcomes = seq![plain(state, reply)];
    assert(outcomes.drop_last() =~= Seq::<Outcome<T, P>>::empty());
    assert(state.after(outcomes.drop_last()) == state);
    assert(state.accepts_all(outcomes.drop_last()));
}

/// The outcomes for a window from its events up to its layout: the events; that the buffers were
/// swapped, if they had to be; and what is under the cursor with the answers of the callbacks, if
/// the cursor moved.
pub open spec fn outcomes_before_layout<T, P: Platform>(
    state: RunState<T, P>,
    events: Vec<Event>,
    items: Vec<HitTestItem>,
    answers: Seq<(AppStateView<T, P>, UpdateScreen)>,
) -> Seq<Outcome<T, P>> {
    let info = info_after_all(no_info(), events@);
    seq![plain(state, Reply::Events(events))] + (if info.should_swap_window {
        seq![plain(state, Reply::Done)]
    } else {
        Seq::empty()
    }) + (if info.should_hittest {
        seq![plain(state, Reply::HitTestResult(items))] + updates(answers)
    } else {
        Seq::empty()
    })
}

/// Up to its layout, a window comes to need a redraw exactly if it was asked to refresh itself, or
/// if the cursor moved and a callback under it asked for a redraw. Only in the second case the
/// style properties that the user set come into force.
pub proof fn law_a_window_is_redrawn_exactly_if_asked<T, P: Platform>(
    state: RunState<T, P>,
    i: usize,
    events: Vec<Event>,
    items: Vec<HitTestItem>,
    answers: Seq<(AppStateView<T, P>, UpdateScreen)>,
)
    requires
        state.wf(),
        state.step == Step::PollEvents(i),
        calls_known(
            state.ui_states[i as int],
            planned_calls(state.ui_states[i as int], i, items@),
        ),
        answers.len() == planned_calls(state.ui_states[i as int], i, items@).len(),
        asks_for_redraw(answers) ==> i < answers.last().0.windows.len(),
    ensures
        state.accepts_all(outcomes_before_layout(state, events, items, answers)),
        ({
            let after = state.after(outcomes_before_layout(state, events, items, answers));
            let refreshed = exists|k: int|
                0 <= k < events@.len() && is_refresh(#[trigger] events@[k]);
            let moved = exists|k: int|
                0 <= k < events@.len() && cursor_of(#[trigger] events@[k]) is Some;
            &&& after.step == Step::Layout(i)
            &&& after.info.should_redraw_window == (refreshed || moved && asks_for_redraw(answers))
            &&& after.app == if moved && asks_for_redraw(answers) {
                left_by(state, answers).app.hand_over_css(i as int)
            } else if moved {
                left_by(state, answers).app
            } else {
                state.app
            }
        }),
{
    let info = info_after_all(no_info(), events@);
    let poll = seq![plain(state, Reply::Events(events))];
    let swap = if info.should_swap_window {
        seq![plain(state, Reply::Done)]
    } else {
        Seq::empty()
    };
    let hit = seq![plain(state, Reply::HitTestResult(items))];
    law_flags_tell_what_happened(events@);

    let polled = state.advance(Reply::Events(events));
    lemma_plain_outcome(state, Reply::Events(events));
    lemma_advance_keeps_wf(state, Reply::Events(events));

    let swapped = polled.after(swap);
    lemma_outcomes_in_two_parts(state, poll, swap);
    if info.should_swap_window {
        lemma_plain_outcome(polled, Reply::Done);
        lemma_advance_keeps_wf(polled, Reply::Done);
    } else {
        assert(polled.accepts_all(swap));
    }
    assert(swapped.wf() && swapped.app == state.app && swapped.info == info);

    if info.should_hittest {
        assert(swapped.step == Step::HitTest(i));
        lemma_plain_outcome(swapped, Reply::HitTestResult(items));
        lemma_advance_keeps_wf(swapped, Reply::HitTestResult(items));
        let tested = swapped.advance(Reply::HitTestResult(items));
        if answers.len() > 0 {
            law_a_hit_test_redraws_if_a_callback_asks_for_it(tested, i, answers);
        } else {
            assert(updates(answers) =~= Seq::<Outcome<T, P>>::empty());
            assert(tested.accepts_all(updates(answers)));
        }
        lemma_outcomes_in_two_parts(swapped, hit, updates(answers));
        lemma_outcomes_in_two_parts(state, poll + swap, hit + updates(answers));
    } else {
        assert(outcomes_before_layout(state, events, items, answers) =~= poll + swap);
    }
}

/// A mock frame draws: the fonts that were deleted before are gone when it is finished, and the
/// other fonts are still there.
pub proof fn law_a_mock_frame_removes_deleted_fonts<T, P: Platform>(
    app: AppView<T, P>,
    hidden_window: NewWindow<P>,
    display: P::Display,
    outcomes: Seq<Outcome<T, P>>,
)
    requires
        app.windows.len() < usize::MAX,
        RunState::start(app.open_window(hidden_window, display), true).accepts_all(outcomes),
        RunState::start(app.open_window(hidden_window, display), true).keeps_resources(outcomes),
        RunState::start(app.open_window(hidden_window, display), true).after(outcomes).step is Finished,
    ensures
        RunState::start(app.open_window(hidden_window, display), true).after(
            outcomes,
        ).app.app_state.resources == app.app_state.resources.draw(),
{
    let start = RunState::start(app.open_window(hidden_window, display), true);
    assert(start.n() > 0);
    lemma_first_frame(start, app.app_state.resources, outcomes);
}

/// What a run that ends after its first frame does to the resources.
proof fn lemma_first_frame<T, P: Platform>(
    start: RunState<T, P>,
    resources: ResourcesView<P>,
    outcomes: Seq<Outcome<T, P>>,
)
    requires
        start.step == Step::FirstLayout(0),
        start.wf(),
        start.only_first_frame,
        start.app.app_state.resources == resources,
        start.accepts_all(outcomes),
        start.keeps_resources(outcomes),
    ensures
        ({
            let state = start.after(outcomes);
            &&& state.step is FirstLayout || state.step is FirstDescribe || state.step is FirstRender
                || state.step is FirstSwap || state.step is Finished
            &&& state.app.app_state.resources == if state.step is FirstLayout || state.step
                == Step::FirstDescribe(0) || state.step == Step::FirstRender(0) {
                resources
            } else {
                resources.draw()
            }
        }),
    decreases outcomes.len(),
{
    if outcomes.len() > 0 {
        lemma_first_frame(start, resources, outcomes.drop_last());
        lemma_mode_stays(start, outcomes.drop_last());
        law_windows_layouts_and_descriptions_stay_in_step(start, outcomes.drop_last());
        law_drawing_twice(resources);
    }
}

} // verus!
