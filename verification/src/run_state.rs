//! The course of a running application: which work on the screen comes next, and what the outcome
//! of that work changes.
use crate::app::AppView;
use crate::app_state::unfinished;
use crate::closing::kept;
use crate::event::{asks_to_close, info_after_all, no_info, Event, FrameEventInfo};
use crate::platform::Platform;
use crate::ui_state::{
    calls_known, planned_calls, CallbackCall, HitTestItem, UiState, UpdateScreen,
};
use glium::SwapBuffersError;
use vstd::prelude::*;

verus! {

/// How long a frame and the sleep after it last at least, in nanoseconds.
pub const FRAME_NANOS: u128 = 16_000_000;

/// The work that has to be done on the screen next. A number is the position of a window.
#[derive(Clone, Copy, Debug, PartialEq, Eq)]
pub enum Step {
    /// Lay out a window for the first time.
    FirstLayout(usize),
    /// Describe a window for the first time.
    FirstDescribe(usize),
    /// Draw a window for the first time. Otherwise, it would be black on startup.
    FirstRender(usize),
    /// Show what was drawn first.
    FirstSwap(usize),
    /// Look at the clock: a frame begins.
    StartFrame,
    /// Direct all drawing to a window.
    MakeCurrent(usize),
    /// Have the shaders of a window ready.
    InitShader(usize),
    /// Collect what happened to a window.
    PollEvents(usize),
    /// Show what was drawn.
    SwapBuffers(usize),
    /// Find out what is under the cursor of a window.
    HitTest(usize),
    /// Call a callback of a window.
    CallCallback(usize, CallbackCall),
    /// Lay out a window.
    Layout(usize),
    /// Let a window take over its new size and scale.
    UpdateFromExternal(usize),
    /// Let a window take over what the user set for it.
    UpdateFromUser(usize),
    /// Describe a window.
    Describe(usize),
    /// Tell the compositor about the size of a window.
    UpdateDisplay(usize),
    /// Draw a window.
    Render(usize),
    /// Nothing on the screen: the closed windows go.
    CloseWindows,
    /// Call every deamon once.
    RunDeamons,
    /// Find out which tasks are finished.
    CleanUpTasks,
    /// Look at the clock: a frame ends.
    EndFrame,
    /// Sleep for some nanoseconds.
    Sleep(u128),
    /// Nothing: the application is done.
    Finished,
}

/// What came of the work on the screen.
pub enum Reply<P: Platform> {
    /// It is done.
    Done,
    /// A window was laid out.
    UiState(UiState<P>),
    /// A window was described.
    UiDescription(P::UiDescription),
    /// These things happened to a window.
    Events(Vec<Event>),
    /// What was drawn could not be shown.
    SwapFailed(SwapBuffersError),
    /// These nodes are under the cursor, from front to back.
    HitTestResult(Vec<HitTestItem>),
    /// A callback was called.
    Update(UpdateScreen),
    /// A window took over its size and scale, and left this information for the rest of the frame.
    FrameEventInfo(FrameEventInfo),
    /// Which of the tasks are finished.
    FinishedTasks(Vec<bool>),
    /// So many nanoseconds have passed since the frame began.
    Elapsed(u128),
}

/// Where a running application stands.
#[verifier::ext_equal]
#[verifier::reject_recursive_types(T)]
pub struct RunState<T, P: Platform> {
    /// The application itself.
    pub app: AppView<T, P>,
    /// The layout of each window.
    pub ui_states: Seq<UiState<P>>,
    /// The description of each window.
    pub ui_descriptions: Seq<P::UiDescription>,
    /// What comes next.
    pub step: Step,
    /// What the events of the frame ask of the current window.
    pub info: FrameEventInfo,
    /// The windows that were asked to close in this frame.
    pub closed_windows: Seq<usize>,
    /// The calls that the last hit test led to.
    pub calls: Seq<CallbackCall>,
    /// How many of the calls were made.
    pub calls_made: nat,
    /// Whether one of them asked for a redraw.
    pub redraw: bool,
    /// Whether the application ends after the windows were drawn for the first time.
    pub only_first_frame: bool,
    /// Why what was drawn could not be shown, if that ended the run.
    pub failure: Option<SwapBuffersError>,
}

/// The window that a step is about.
pub open spec fn window_of(step: Step) -> Option<usize> {
    match step {
        Step::FirstLayout(i) => Some(i),
        Step::FirstDescribe(i) => Some(i),
        Step::FirstRender(i) => Some(i),
        Step::FirstSwap(i) => Some(i),
        Step::MakeCurrent(i) => Some(i),
        Step::InitShader(i) => Some(i),
        Step::PollEvents(i) => Some(i),
        Step::SwapBuffers(i) => Some(i),
        Step::HitTest(i) => Some(i),
        Step::CallCallback(i, _) => Some(i),
        Step::Layout(i) => Some(i),
        Step::UpdateFromExternal(i) => Some(i),
        Step::UpdateFromUser(i) => Some(i),
        Step::Describe(i) => Some(i),
        Step::UpdateDisplay(i) => Some(i),
        Step::Render(i) => Some(i),
        _ => None,
    }
}

impl<T, P: Platform> RunState<T, P> {
    /// The number of open windows.
    pub open spec fn n(self) -> nat {
        self.app.windows.len()
    }

    /// The state in which an application starts.
    pub open spec fn start(app: AppView<T, P>, only_first_frame: bool) -> Self {
        RunState {
            app,
            ui_states: Seq::empty(),
            ui_descriptions: Seq::empty(),
            step: if app.windows.len() == 0 {
                Step::Finished
            } else {
                Step::FirstLayout(0)
            },
            info: no_info(),
            closed_windows: Seq::empty(),
            calls: Seq::empty(),
            calls_made: 0,
            redraw: false,
            only_first_frame,
            failure: None,
        }
    }

    /// What always holds of a running application: the step is about a window that is open, each
    /// window has its layout and its description as soon as it was laid out and described for the
    /// first time, and a run that was not limited to its first frame goes on until it fails or has
    /// no windows left.
    pub open spec fn wf(self) -> bool {
        &&& self.n() <= usize::MAX
        &&& window_of(self.step) matches Some(i) ==> i < self.n()
        &&& match self.step {
            Step::FirstLayout(i) => self.ui_states.len() == i && self.ui_descriptions.len() == 0,
            Step::FirstDescribe(i) => self.ui_states.len() == self.n()
                && self.ui_descriptions.len() == i,
            Step::FirstRender(i) => self.ui_states.len() == self.n() && self.ui_descriptions.len()
                == i + 1,
            Step::FirstSwap(i) => self.ui_states.len() == self.n() && self.ui_descriptions.len()
                == i + 1,
            _ => self.ui_states.len() == self.n() && self.ui_descriptions.len() == self.n(),
        }
        &&& self.step is StartFrame ==> self.n() > 0
        &&& self.step is Finished ==> self.n() == 0 || self.only_first_frame || self.failure is Some
        &&& self.failure is Some ==> self.step is Finished
        &&& self.step matches Step::CallCallback(_, call) ==> self.calls_made < self.calls.len()
            && call == self.calls[self.calls_made as int]
    }

    /// The step after the first windows were shown, and after each frame: the application goes on
    /// as long as it has windows.
    pub open spec fn next_frame(self) -> Step {
        if self.n() == 0 {
            Step::Finished
        } else {
            Step::StartFrame
        }
    }

    /// The step after a window had its turn in a frame.
    pub open spec fn next_window(self, i: usize) -> Step {
        if i + 1 < self.n() {
            Step::MakeCurrent((i + 1) as usize)
        } else {
            Step::CloseWindows
        }
    }

    /// The step after the buffers of a window were swapped, or did not have to be.
    pub open spec fn after_swap(self, i: usize) -> Step {
        if self.info.should_hittest {
            Step::HitTest(i)
        } else {
            Step::Layout(i)
        }
    }

    /// Whether a reply answers the current step, and can be acted upon.
    pub open spec fn accepts(self, reply: Reply<P>) -> bool {
        match (self.step, reply) {
            (Step::FirstLayout(_), Reply::UiState(_)) => true,
            (Step::FirstDescribe(_), Reply::UiDescription(_)) => true,
            (Step::FirstRender(_), Reply::Done) => true,
            (Step::FirstSwap(_), Reply::Done) => true,
            (Step::StartFrame, Reply::Done) => true,
            (Step::MakeCurrent(_), Reply::Done) => true,
            (Step::InitShader(_), Reply::Done) => true,
            (Step::PollEvents(_), Reply::Events(_)) => true,
            (Step::SwapBuffers(_), Reply::Done) => true,
            (Step::SwapBuffers(_), Reply::SwapFailed(_)) => true,
            // Every callback that is called for a node has to exist.
            (Step::HitTest(i), Reply::HitTestResult(items)) => calls_known(
                self.ui_states[i as int],
                planned_calls(self.ui_states[i as int], i, items@),
            ),
            // The user's side of the window has to be there when its style is handed over.
            (Step::CallCallback(i, _), Reply::Update(update)) => {
                self.calls_made + 1 == self.calls.len() && (self.redraw || update
                    == UpdateScreen::Redraw) ==> i < self.app.app_state.windows.len()
            },
            (Step::Layout(_), Reply::UiState(_)) => true,
            (Step::UpdateFromExternal(_), Reply::FrameEventInfo(_)) => true,
            // The user's side of the window says what the window takes over.
            (Step::UpdateFromUser(i), Reply::Done) => i < self.app.app_state.windows.len(),
            (Step::Describe(_), Reply::UiDescription(_)) => true,
            (Step::UpdateDisplay(_), Reply::Done) => true,
            (Step::Render(_), Reply::Done) => true,
            (Step::CloseWindows, Reply::Done) => true,
            (Step::RunDeamons, Reply::Done) => true,
            (Step::CleanUpTasks, Reply::FinishedTasks(finished)) => finished@.len()
                == self.app.app_state.tasks.len(),
            (Step::EndFrame, Reply::Elapsed(_)) => true,
            (Step::Sleep(_), Reply::Done) => true,
            _ => false,
        }
    }

    /// The state after a draw call: the deleted fonts are gone.
    pub open spec fn drawn(self) -> Self {
        RunState { app: self.app.with_resources(self.app.app_state.resources.draw()), ..self }
    }

    /// The state after a reply to the current step.
    pub open spec fn advance(self, reply: Reply<P>) -> Self {
        match (self.step, reply) {
            (Step::FirstLayout(i), Reply::UiState(ui_state)) => RunState {
                ui_states: self.ui_states.push(ui_state),
                step: if i + 1 < self.n() {
                    Step::FirstLayout((i + 1) as usize)
                } else {
                    Step::FirstDescribe(0)
                },
                ..self
            },
            (Step::FirstDescribe(i), Reply::UiDescription(description)) => RunState {
                ui_descriptions: self.ui_descriptions.push(description),
                step: Step::FirstRender(i),
                ..self
            },
            (Step::FirstRender(i), Reply::Done) => RunState {
                step: Step::FirstSwap(i),
                ..self.drawn()
            },
            (Step::FirstSwap(i), Reply::Done) => RunState {
                step: if i + 1 < self.n() {
                    Step::FirstDescribe((i + 1) as usize)
                } else if self.only_first_frame {
                    Step::Finished
                } else {
                    self.next_frame()
                },
                ..self
            },
            (Step::StartFrame, Reply::Done) => RunState {
                closed_windows: Seq::empty(),
                step: Step::MakeCurrent(0),
                ..self
            },
            (Step::MakeCurrent(i), Reply::Done) => RunState { step: Step::InitShader(i), ..self },
            (Step::InitShader(i), Reply::Done) => RunState { step: Step::PollEvents(i), ..self },
            (Step::PollEvents(i), Reply::Events(events)) => {
                let polled = RunState {
                    info: info_after_all(no_info(), events@),
                    closed_windows: if asks_to_close(events@) {
                        self.closed_windows.push(i)
                    } else {
                        self.closed_windows
                    },
                    ..self
                };
                RunState {
                    step: if polled.info.should_swap_window {
                        Step::SwapBuffers(i)
                    } else {
                        polled.after_swap(i)
                    },
                    ..polled
                }
            },
            (Step::SwapBuffers(i), Reply::Done) => RunState { step: self.after_swap(i), ..self },
            (Step::SwapBuffers(i), Reply::SwapFailed(e)) => RunState {
                failure: Some(e),
                step: Step::Finished,
                ..self
            },
            (Step::HitTest(i), Reply::HitTestResult(items)) => {
                let calls = planned_calls(self.ui_states[i as int], i, items@);
                RunState {
                    calls,
                    calls_made: 0,
                    redraw: false,
                    step: if calls.len() > 0 {
                        Step::CallCallback(i, calls[0])
                    } else {
                        Step::Layout(i)
                    },
                    ..self
                }
            },
            (Step::CallCallback(i, _), Reply::Update(update)) => {
                let called = RunState {
                    calls_made: self.calls_made + 1,
                    redraw: self.redraw || update == UpdateScreen::Redraw,
                    ..self
                };
                if called.calls_made < called.calls.len() {
                    RunState {
                        step: Step::CallCallback(i, called.calls[called.calls_made as int]),
                        ..called
                    }
                } else if called.redraw {
                    RunState {
                        info: FrameEventInfo { should_redraw_window: true, ..called.info },
                        app: called.app.hand_over_css(i as int),
                        step: Step::Layout(i),
                        ..called
                    }
                } else {
                    RunState { step: Step::Layout(i), ..called }
                }
            },
            (Step::Layout(i), Reply::UiState(ui_state)) => RunState {
                ui_states: self.ui_states.update(i as int, ui_state),
                step: Step::UpdateFromExternal(i),
                ..self
            },
            (Step::UpdateFromExternal(i), Reply::FrameEventInfo(info)) => RunState {
                info,
                step: Step::UpdateFromUser(i),
                ..self
            },
            (Step::UpdateFromUser(i), Reply::Done) => RunState {
                step: if self.info.should_redraw_window {
                    Step::Describe(i)
                } else {
                    self.next_window(i)
                },
                ..self
            },
            (Step::Describe(i), Reply::UiDescription(description)) => RunState {
                ui_descriptions: self.ui_descriptions.update(i as int, description),
                step: Step::UpdateDisplay(i),
                ..self
            },
            (Step::UpdateDisplay(i), Reply::Done) => RunState { step: Step::Render(i), ..self },
            (Step::Render(i), Reply::Done) => RunState {
                step: self.next_window(i),
                ..self.drawn()
            },
            (Step::CloseWindows, Reply::Done) => RunState {
                app: self.app.close_windows(self.closed_windows),
                ui_states: kept(self.ui_states, self.closed_windows),
                ui_descriptions: kept(self.ui_descriptions, self.closed_windows),
                step: Step::RunDeamons,
                ..self
            },
            (Step::RunDeamons, Reply::Done) => RunState { step: Step::CleanUpTasks, ..self },
            (Step::CleanUpTasks, Reply::FinishedTasks(finished)) => RunState {
                app: self.app.with_tasks(unfinished(self.app.app_state.tasks, finished@)),
                step: Step::EndFrame,
                ..self
            },
            (Step::EndFrame, Reply::Elapsed(nanos)) => RunState {
                step: if nanos < FRAME_NANOS {
                    Step::Sleep((FRAME_NANOS - nanos) as u128)
                } else {
                    self.next_frame()
                },
                ..self
            },
            (Step::Sleep(_), Reply::Done) => RunState { step: self.next_frame(), ..self },
            _ => self,
        }
    }
}

} // verus!
