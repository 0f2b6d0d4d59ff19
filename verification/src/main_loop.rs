//! Running an application.
use crate::app::{comes_of, App, AppView, RuntimeError};
use crate::app_state::AppState;
use crate::closing::{law_open_positions, remove_closed};
use crate::event::{process_events, FrameEventInfo};
use crate::platform::Platform;
use crate::run_state::{Reply, RunState, Step, FRAME_NANOS};
use crate::ui_state::{knows_calls, plan_calls, CallbackCall, UiState, UpdateScreen};
use crate::window::{NewWindow, Window};
use glium::SwapBuffersError;
use vstd::prelude::*;

verus! {

/// A running application.
///
/// The library says with [`Runner::next_step`] which work has to be done on the screen. The caller
/// does it and hands what came of it to [`Runner::step`], until the step is [`Step::Finished`].
#[verifier::reject_recursive_types(T)]
pub struct Runner<T, P: Platform> {
    app: App<T, P>,
    ui_states: Vec<UiState<P>>,
    ui_descriptions: Vec<P::UiDescription>,
    step: Step,
    info: FrameEventInfo,
    closed_windows: Vec<usize>,
    calls: Vec<CallbackCall>,
    calls_made: usize,
    redraw: bool,
    only_first_frame: bool,
    failure: Option<SwapBuffersError>,
}

impl<T, P: Platform> View for Runner<T, P> {
    type V = RunState<T, P>;

    closed spec fn view(&self) -> RunState<T, P> {
        RunState {
            app: self.app@,
            ui_states: self.ui_states@,
            ui_descriptions: self.ui_descriptions@,
            step: self.step,
            info: self.info,
            closed_windows: self.closed_windows@,
            calls: self.calls@,
            calls_made: self.calls_made as nat,
            redraw: self.redraw,
            only_first_frame: self.only_first_frame,
            failure: self.failure,
        }
    }
}

impl<T, P: Platform> Runner<T, P> {
    fn start(app: App<T, P>, only_first_frame: bool) -> (runner: Self)
        ensures
            runner@ == RunState::start(app@, only_first_frame),
            runner@.wf(),
    {
        let step = if app.window_count() == 0 {
            Step::Finished
        } else {
            Step::FirstLayout(0)
        };
        let runner = Runner {
            app,
            ui_states: Vec::new(),
            ui_descriptions: Vec::new(),
            step,
            info: FrameEventInfo::default(),
            closed_windows: Vec::new(),
            calls: Vec::new(),
            calls_made: 0,
            redraw: false,
            only_first_frame,
            failure: None,
        };
        assert(runner@ =~= RunState::start(app@, only_first_frame));
        runner
    }

    /// The work that has to be done on the screen next.
    pub fn next_step(&self) -> (step: Step)
        ensures
            step == self@.step,
    {
        self.step
    }

    /// What the events of the frame ask of the current window.
    pub fn frame_event_info(&self) -> (info: FrameEventInfo)
        ensures
            info == self@.info,
    {
        self.info
    }

    /// The step after the first windows were shown, and after each frame.
    fn next_frame(&self) -> (step: Step)
        ensures
            step == self@.next_frame(),
    {
        if self.app.window_count() == 0 {
            Step::Finished
        } else {
            Step::StartFrame
        }
    }

    /// The step after a window had its turn in a frame.
    fn next_window(&self, i: usize) -> (step: Step)
        requires
            i < self@.n(),
        ensures
            step == self@.next_window(i),
    {
        let count = self.app.window_count();
        if i < count - 1 {
            Step::MakeCurrent(i + 1)
        } else {
            Step::CloseWindows
        }
    }

    /// The step after the buffers of a window were swapped, or did not have to be.
    fn after_swap(&self, i: usize) -> (step: Step)
        ensures
            step == self@.after_swap(i),
    {
        if self.info.should_hittest {
            Step::HitTest(i)
        } else {
            Step::Layout(i)
        }
    }

    /// Checks whether a reply answers the current step, and can be acted upon.
    pub fn accepts(&self, reply: &Reply<P>) -> (accepted: bool)
        requires
            self@.wf(),
        ensures
            accepted == self@.accepts(*reply),
    {
        match (self.step, reply) {
            (Step::FirstLayout(_), Reply::UiState(_)) => true,
            (Step::FirstDescribe(_), Reply::UiDescription(_)) => true,
            (Step::FirstRender(_), Reply::Done) => true,
            (Step::FirstSwap(_), Reply::Done) => true,
            (Step::StartFrame, Reply::Done) => true,
            (Step::MakeCurrent(_), Reply::Done) => true,
            (Step::InitShader(_), Reply::Done) => true,
            (Step::PollEvents(_), Reply::Events(_)) => true,
            (Step::SwapBuffers(_), Reply::Done) => true,
            (Step::SwapBuffers(_), Reply::SwapFailed(_)) => true,
            (Step::HitTest(i), Reply::HitTestResult(items)) => {
                let calls = plan_calls(&self.ui_states[i], i, items);
                knows_calls(&self.ui_states[i], &calls)
            },
            (Step::CallCallback(i, _), Reply::Update(update)) => {
                let last = self.calls_made == self.calls.len() - 1;
                !(last && (self.redraw || *update == UpdateScreen::Redraw)) || i
                    < self.app.user_window_count()
            },
            (Step::Layout(_), Reply::UiState(_)) => true,
            (Step::UpdateFromExternal(_), Reply::FrameEventInfo(_)) => true,
            (Step::UpdateFromUser(i), Reply::Done) => i < self.app.user_window_count(),
            (Step::Describe(_), Reply::UiDescription(_)) => true,
            (Step::UpdateDisplay(_), Reply::Done) => true,
            (Step::Render(_), Reply::Done) => true,
            (Step::CloseWindows, Reply::Done) => true,
            (Step::RunDeamons, Reply::Done) => true,
            (Step::CleanUpTasks, Reply::FinishedTasks(finished)) => finished.len()
                == self.app.task_count(),
            (Step::EndFrame, Reply::Elapsed(_)) => true,
            (Step::Sleep(_), Reply::Done) => true,
            _ => false,
        }
    }

    /// Acts upon a reply to a step of the first frame.
    fn step_first_frame(&mut self, reply: Reply<P>)
        requires
            old(self)@.wf(),
            old(self)@.accepts(reply),
            !(reply is SwapFailed),
            ({
                ||| old(self)@.step is FirstLayout
                ||| old(self)@.step is FirstDescribe
                ||| old(self)@.step is FirstRender
                ||| old(self)@.step is FirstSwap
            }),
        ensures
            final(self)@ == old(self)@.advance(reply),
            final(self)@.wf(),
    {
        match (self.step, reply) {
            (Step::FirstLayout(i), Reply::UiState(ui_state)) => {
                self.ui_states.push(ui_state);
                let count = self.app.window_count();
                self.step = if i < count - 1 {
                    Step::FirstLayout(i + 1)
                } else {
                    Step::FirstDescribe(0)
                };
            },
            (Step::FirstDescribe(i), Reply::UiDescription(description)) => {
                self.ui_descriptions.push(description);
                self.step = Step::FirstRender(i);
            },
            (Step::FirstRender(i), Reply::Done) => {
                self.app.app_state_mut().resources.draw();
                self.step = Step::FirstSwap(i);
            },
            (Step::FirstSwap(i), Reply::Done) => {
                let count = self.app.window_count();
                self.step = if i < count - 1 {
                    Step::FirstDescribe(i + 1)
                } else if self.only_first_frame {
                    Step::Finished
                } else {
                    self.next_frame()
                };
            },
            _ => {},
        }
        assert(self@ =~= old(self)@.advance(reply));
    }

    /// Acts upon a reply to a step that collects the events of a window and reacts to them.
    fn step_events(&mut self, reply: Reply<P>)
        requires
            old(self)@.wf(),
            old(self)@.accepts(reply),
            !(reply is SwapFailed),
            ({
                ||| old(self)@.step is MakeCurrent
                ||| old(self)@.step is InitShader
                ||| old(self)@.step is PollEvents
                ||| old(self)@.step is SwapBuffers
                ||| old(self)@.step is HitTest
                ||| old(self)@.step is CallCallback
            }),
        ensures
            final(self)@ == old(self)@.advance(reply),
            final(self)@.wf(),
    {
        match (self.step, reply) {
            (Step::MakeCurrent(i), Reply::Done) => {
                self.step = Step::InitShader(i);
            },
            (Step::InitShader(i), Reply::Done) => {
                self.step = Step::PollEvents(i);
            },
            (Step::PollEvents(i), Reply::Events(events)) => {
                self.info = process_events(&events, i, &mut self.closed_windows);
                self.step = if self.info.should_swap_window {
                    Step::SwapBuffers(i)
                } else {
                    self.after_swap(i)
                };
            },
            (Step::SwapBuffers(i), Reply::Done) => {
                self.step = self.after_swap(i);
            },
            (Step::HitTest(i), Reply::HitTestResult(items)) => {
                self.calls = plan_calls(&self.ui_states[i], i, &items);
                self.calls_made = 0;
                self.redraw = false;
                self.step = if self.calls.len() > 0 {
                    Step::CallCallback(i, self.calls[0])
                } else {
                    Step::Layout(i)
                };
            },
            (Step::CallCallback(i, _), Reply::Update(update)) => {
                let count = self.calls.len();
                if update == UpdateScreen::Redraw {
                    self.redraw = true;
                }
                self.calls_made = self.calls_made + 1;
                if self.calls_made < count {
                    self.step = Step::CallCallback(i, self.calls[self.calls_made]);
                } else {
                    if self.redraw {
                        self.info.should_redraw_window = true;
                        self.app.hand_over_css(i);
                    }
                    self.step = Step::Layout(i);
                }
            },
            _ => {},
        }
        assert(self@ =~= old(self)@.advance(reply));
    }

    /// Acts upon a reply to a step that lays out a window and draws it.
    fn step_redraw(&mut self, reply: Reply<P>)
        requires
            old(self)@.wf(),
            old(self)@.accepts(reply),
            !(reply is SwapFailed),
            ({
                ||| old(self)@.step is Layout
                ||| old(self)@.step is UpdateFromExternal
                ||| old(self)@.step is UpdateFromUser
                ||| old(self)@.step is Describe
                ||| old(self)@.step is UpdateDisplay
                ||| old(self)@.step is Render
            }),
        ensures
            final(self)@ == old(self)@.advance(reply),
            final(self)@.wf(),
    {
        match (self.step, reply) {
            (Step::Layout(i), Reply::UiState(ui_state)) => {
                self.ui_states[i] = ui_state;
                self.step = Step::UpdateFromExternal(i);
            },
            (Step::UpdateFromExternal(i), Reply::FrameEventInfo(info)) => {
                self.info = info;
                self.step = Step::UpdateFromUser(i);
            },
            (Step::UpdateFromUser(i), Reply::Done) => {
                self.step = if self.info.should_redraw_window {
                    Step::Describe(i)
                } else {
                    self.next_window(i)
                };
            },
            (Step::Describe(i), Reply::UiDescription(description)) => {
                self.ui_descriptions[i] = description;
                self.step = Step::UpdateDisplay(i);
            },
            (Step::UpdateDisplay(i), Reply::Done) => {
                self.step = Step::Render(i);
            },
            (Step::Render(i), Reply::Done) => {
                self.app.app_state_mut().resources.draw();
                self.step = self.next_window(i);
            },
            _ => {},
        }
        assert(self@ =~= old(self)@.advance(reply));
    }

    /// Acts upon a reply to a step that is not about a single window.
    fn step_frame(&mut self, reply: Reply<P>)
        requires
            old(self)@.wf(),
            old(self)@.accepts(reply),
            !(reply is SwapFailed),
            ({
                ||| old(self)@.step is StartFrame
                ||| old(self)@.step is CloseWindows
                ||| old(self)@.step is RunDeamons
                ||| old(self)@.step is CleanUpTasks
                ||| old(self)@.step is EndFrame
                ||| old(self)@.step is Sleep
            }),
        ensures
            final(self)@ == old(self)@.advance(reply),
            final(self)@.wf(),
    {
        match (self.step, reply) {
            (Step::StartFrame, Reply::Done) => {
                self.closed_windows = Vec::new();
                self.step = Step::MakeCurrent(0);
            },
            (Step::CloseWindows, Reply::Done) => {
                proof {
                    law_open_positions(self@.n(), self.closed_windows@);
                }
                self.app.close_windows(&self.closed_windows);
                remove_closed(&mut self.ui_states, &self.closed_windows);
                remove_closed(&mut self.ui_descriptions, &self.closed_windows);
                self.step = Step::RunDeamons;
            },
            (Step::RunDeamons, Reply::Done) => {
                self.step = Step::CleanUpTasks;
            },
            (Step::CleanUpTasks, Reply::FinishedTasks(finished)) => {
                self.app.app_state_mut().clean_up_finished_tasks(&finished);
                self.step = Step::EndFrame;
            },
            (Step::EndFrame, Reply::Elapsed(nanos)) => {
                self.step = if nanos < FRAME_NANOS {
                    Step::Sleep(FRAME_NANOS - nanos)
                } else {
                    self.next_frame()
                };
            },
            (Step::Sleep(_), Reply::Done) => {
                self.step = self.next_frame();
            },
            _ => {},
        }
        assert(self@ =~= old(self)@.advance(reply));
    }

    /// Acts upon what came of the current step. Where what was drawn could not be shown, the
    /// application is finished, and [`Runner::finish`] says why.
    pub fn step(&mut self, reply: Reply<P>)
        requires
            old(self)@.wf(),
            old(self)@.accepts(reply),
        ensures
            final(self)@ == old(self)@.advance(reply),
            final(self)@.wf(),
    {
        if let Reply::SwapFailed(e) = reply {
            self.failure = Some(e);
            self.step = Step::Finished;
            return;
        }
        match self.step {
            Step::FirstLayout(_)
            | Step::FirstDescribe(_)
            | Step::FirstRender(_)
            | Step::FirstSwap(_) => self.step_first_frame(reply),
            Step::MakeCurrent(_)
            | Step::InitShader(_)
            | Step::PollEvents(_)
            | Step::SwapBuffers(_)
            | Step::HitTest(_)
            | Step::CallCallback(_, _) => self.step_events(reply),
            Step::Layout(_)
            | Step::UpdateFromExternal(_)
            | Step::UpdateFromUser(_)
            | Step::Describe(_)
            | Step::UpdateDisplay(_)
            | Step::Render(_) => self.step_redraw(reply),
            Step::StartFrame
            | Step::CloseWindows
            | Step::RunDeamons
            | Step::CleanUpTasks
            | Step::EndFrame
            | Step::Sleep(_) => self.step_frame(reply),
            Step::Finished => {},
        }
    }

    /// What a run that is finished returns: why it failed, or else the internal data. The data is
    /// not to be had while something else still uses it; see [`App::into_data`].
    pub fn finish(self) -> (result: Result<T, RuntimeError<T>>)
        requires
            self@.wf(),
            self@.step is Finished,
        ensures
            match self@.failure {
                Some(e) => result == Err::<T, RuntimeError<T>>(RuntimeError::GlSwapError(e)),
                None => comes_of(self@.app.app_state.data, result) && (self@.only_first_frame
                    || self@.n() == 0),
            },
    {
        match self.failure {
            Some(e) => Err(RuntimeError::from(e)),
            None => self.app.into_data(),
        }
    }

    /// A window that is open.
    pub fn window(&self, i: usize) -> (window: &Window<P>)
        requires
            i < self@.n(),
        ensures
            window@ == self@.app.windows[i as int],
    {
        self.app.window(i)
    }

    /// The layout of a window.
    pub fn ui_state(&self, i: usize) -> (ui_state: &UiState<P>)
        requires
            i < self@.ui_states.len(),
        ensures
            *ui_state == self@.ui_states[i as int],
    {
        &self.ui_states[i]
    }

    /// The description of a window.
    pub fn ui_description(&self, i: usize) -> (description: &P::UiDescription)
        requires
            i < self@.ui_descriptions.len(),
        ensures
            *description == self@.ui_descriptions[i as int],
    {
        &self.ui_descriptions[i]
    }

    /// The state of the application.
    pub fn app_state(&self) -> (state: &AppState<T, P>)
        ensures
            state@ == self@.app.app_state,
    {
        self.app.app_state_ref()
    }

    /// The state of the application, to be changed by a callback.
    pub fn app_state_mut(&mut self) -> (state: &mut AppState<T, P>)
        ensures
            state@ == old(self)@.app.app_state,
            final(self)@ == (RunState {
                app: (AppView { app_state: final(state)@, ..old(self)@.app }),
                ..old(self)@
            }),
    {
        self.app.app_state_mut()
    }

    /// The application, to be used further after its first frame was drawn.
    pub fn into_app(self) -> (app: App<T, P>)
        ensures
            app@ == self@.app,
    {
        self.app
    }
}

impl<T, P: Platform> App<T, P> {
    /// Start the rendering loop for the currently open windows.
    ///
    /// The application is finished when the user has closed all windows; one without windows is
    /// finished at once. [`Runner::finish`] then gives the internal data back.
    pub fn run(self) -> (runner: Runner<T, P>)
        ensures
            runner@ == RunState::start(self@, false),
            runner@.wf(),
            runner@.step is Finished <==> self@.windows.len() == 0,
    {
        Runner::start(self, false)
    }

    /// Mock rendering function, for taking in a hidden window and rendering one frame.
    pub fn mock_render_frame(self, hidden_window: NewWindow<P>) -> (runner: Runner<T, P>)
        ensures
            ({
                let display = runner@.app.app_state.windows.last().read_only_window;
                &&& cloned::<P::Display>(hidden_window.window.display, display)
                &&& runner@ == RunState::start(self@.open_window(hidden_window, display), true)
            }),
            runner@.wf(),
            runner@.step is FirstLayout,
    {
        let mut app = self;
        let _ = app.create_window(Ok(hidden_window));
        Runner::start(app, true)
    }
}

} // verus!
