//! Applications that run without a screen.
use azul::app::{App, RuntimeError};
use azul::closing::{has_closed, remove_closed};
use azul::event::{Event, FrameEventInfo, WindowInput};
use azul::main_loop::Runner;
use azul::platform::Platform;
use azul::registry::Registry;
use azul::run_state::{Reply, Step};
use azul::ui_state::{plan_calls, HitTestItem, UiState, UpdateScreen, WindowEvent};
use azul::window::{hidden_window_request, NewWindow, RendererType, Window};
use glium::SwapBuffersError;
use std::collections::BTreeMap;

struct Headless;

impl Platform for Headless {
    type NativeWindow = u32;
    type WindowState = String;
    type Display = u8;
    type WindowCreateError = String;
    type CssProperty = i32;
    type Dom = u32;
    type Callback = &'static str;
    type UiDescription = u32;
    type Font = Vec<u8>;
    type FontError = String;
    type Deamon = u16;
    type Task = u64;
}

fn s(text: &str) -> String {
    String::from(text)
}

fn new_window(native: u32) -> NewWindow<Headless> {
    NewWindow {
        window: Window {
            native,
            display: native as u8,
            dynamic_css_overrides: Registry::new(),
        },
        state: format!("state {}", native),
    }
}

fn app(windows: u32) -> App<u32, Headless> {
    let mut app = App::new(42);
    for native in 0..windows {
        assert_eq!(app.create_window(Ok(new_window(native))), Ok(()));
    }
    app
}

/// The layout of a window: node 1 has the callbacks 5 and 6, node 2 has callback 6.
fn ui_state(dom: u32) -> UiState<Headless> {
    let mut nodes = BTreeMap::new();
    nodes.insert(1, vec![5, 6]);
    nodes.insert(2, vec![6]);
    let mut callbacks = BTreeMap::new();
    callbacks.insert(5, "five");
    callbacks.insert(6, "six");
    UiState { dom, node_ids_to_callbacks_list: nodes, callback_list: callbacks }
}

fn give(runner: &mut Runner<u32, Headless>, reply: Reply<Headless>) {
    assert!(runner.accepts(&reply));
    runner.step(reply);
}

/// Goes through the first layout and the first frame. Layout and description bear the number of
/// their window.
fn first_frame(runner: &mut Runner<u32, Headless>) {
    loop {
        match runner.next_step() {
            Step::FirstLayout(i) => give(runner, Reply::UiState(ui_state(i as u32))),
            Step::FirstDescribe(i) => give(runner, Reply::UiDescription(i as u32)),
            Step::FirstRender(_) | Step::FirstSwap(_) => give(runner, Reply::Done),
            _ => return,
        }
    }
}

/// Goes on to the events of the given window, with nothing happening to the windows before it.
fn until_events(runner: &mut Runner<u32, Headless>, window: usize) {
    loop {
        match runner.next_step() {
            Step::PollEvents(i) if i == window => return,
            Step::PollEvents(_) => give(runner, Reply::Events(vec![])),
            Step::Layout(i) => {
                let dom = runner.ui_state(i).dom;
                give(runner, Reply::UiState(ui_state(dom)));
            },
            Step::UpdateFromExternal(_) => {
                let info = runner.frame_event_info();
                give(runner, Reply::FrameEventInfo(info));
            },
            Step::StartFrame | Step::MakeCurrent(_) | Step::InitShader(_)
            | Step::UpdateFromUser(_) => give(runner, Reply::Done),
            other => panic!("unexpected {:?}", other),
        }
    }
}

/// Goes on to the closing of the windows, with the given events for each of them.
fn until_close(runner: &mut Runner<u32, Headless>, events: Vec<Vec<Event>>) {
    loop {
        match runner.next_step() {
            Step::CloseWindows => return,
            Step::PollEvents(i) => give(runner, Reply::Events(events[i].clone())),
            Step::Layout(i) => {
                let dom = runner.ui_state(i).dom;
                give(runner, Reply::UiState(ui_state(dom)));
            },
            Step::UpdateFromExternal(_) => {
                let info = runner.frame_event_info();
                give(runner, Reply::FrameEventInfo(info));
            },
            Step::StartFrame | Step::MakeCurrent(_) | Step::InitShader(_)
            | Step::UpdateFromUser(_) => give(runner, Reply::Done),
            other => panic!("unexpected {:?}", other),
        }
    }
}

fn end_frame(runner: &mut Runner<u32, Headless>) {
    assert_eq!(runner.next_step(), Step::RunDeamons);
    give(runner, Reply::Done);
    assert_eq!(runner.next_step(), Step::CleanUpTasks);
    let tasks = runner.app_state().tasks.len();
    give(runner, Reply::FinishedTasks(vec![false; tasks]));
    assert_eq!(runner.next_step(), Step::EndFrame);
    give(runner, Reply::Elapsed(20_000_000));
}

fn close() -> Event {
    Event::WindowEvent { event: WindowInput::CloseRequested }
}

fn moved() -> Event {
    Event::WindowEvent { event: WindowInput::CursorMoved { position: (1, 2) } }
}

#[test]
fn without_windows_run_exits_immediately() {
    let runner = app(0).run();
    assert_eq!(runner.next_step(), Step::Finished);
    assert!(matches!(runner.finish(), Ok(42)));
}

#[test]
fn a_window_that_could_not_be_created_changes_nothing() {
    let mut app = app(1);
    assert_eq!(app.create_window(Err(s("no display"))), Err(s("no display")));
    assert_eq!(app.window_count(), 1);
    assert_eq!(app.app_state.windows.len(), 1);
}

#[test]
fn a_new_window_has_its_user_side() {
    let app = app(2);
    assert_eq!(app.window_count(), 2);
    assert_eq!(app.window(1).native, 1);
    assert_eq!(app.app_state.windows[1].state, "state 1");
    assert_eq!(app.window(1).display, 1);
    assert_eq!(app.app_state.windows[1].read_only_window, 1);
    assert!(app.app_state.windows[1].css.dynamic_css_overrides.ids().is_empty());
}

#[test]
fn the_first_frame_lays_out_all_windows_and_then_draws_each() {
    let mut runner = app(2).run();
    let mut steps = vec![];
    while runner.next_step() != Step::StartFrame {
        steps.push(runner.next_step());
        match runner.next_step() {
            Step::FirstLayout(i) => give(&mut runner, Reply::UiState(ui_state(i as u32))),
            Step::FirstDescribe(i) => give(&mut runner, Reply::UiDescription(10 + i as u32)),
            _ => give(&mut runner, Reply::Done),
        }
    }
    assert_eq!(
        steps,
        vec![
            Step::FirstLayout(0),
            Step::FirstLayout(1),
            Step::FirstDescribe(0),
            Step::FirstRender(0),
            Step::FirstSwap(0),
            Step::FirstDescribe(1),
            Step::FirstRender(1),
            Step::FirstSwap(1),
        ]
    );
    assert_eq!(runner.ui_state(1).dom, 1);
    assert_eq!(*runner.ui_description(1), 11);
}

#[test]
fn a_quiet_frame_only_lays_out() {
    let mut runner = app(1).run();
    first_frame(&mut runner);
    let mut steps = vec![];
    while runner.next_step() != Step::CloseWindows {
        steps.push(runner.next_step());
        match runner.next_step() {
            Step::PollEvents(_) => give(&mut runner, Reply::Events(vec![])),
            Step::Layout(_) => give(&mut runner, Reply::UiState(ui_state(77))),
            Step::UpdateFromExternal(_) => {
                let info = runner.frame_event_info();
                give(&mut runner, Reply::FrameEventInfo(info));
            },
            _ => give(&mut runner, Reply::Done),
        }
    }
    assert_eq!(
        steps,
        vec![
            Step::StartFrame,
            Step::MakeCurrent(0),
            Step::InitShader(0),
            Step::PollEvents(0),
            Step::Layout(0),
            Step::UpdateFromExternal(0),
            Step::UpdateFromUser(0),
        ]
    );
    assert_eq!(runner.ui_state(0).dom, 77);
}

#[test]
fn a_refresh_draws_the_window_again() {
    let mut runner = app(1).run();
    first_frame(&mut runner);
    until_events(&mut runner, 0);
    let refresh = Event::WindowEvent { event: WindowInput::Refresh };
    give(&mut runner, Reply::Events(vec![refresh, Event::Awakened]));
    assert_eq!(runner.next_step(), Step::SwapBuffers(0));
    give(&mut runner, Reply::Done);
    assert_eq!(runner.next_step(), Step::Layout(0));
    give(&mut runner, Reply::UiState(ui_state(1)));
    let info = runner.frame_event_info();
    give(&mut runner, Reply::FrameEventInfo(info));
    give(&mut runner, Reply::Done);
    assert_eq!(runner.next_step(), Step::Describe(0));
    give(&mut runner, Reply::UiDescription(99));
    assert_eq!(runner.next_step(), Step::UpdateDisplay(0));
    give(&mut runner, Reply::Done);
    assert_eq!(runner.next_step(), Step::Render(0));
    give(&mut runner, Reply::Done);
    assert_eq!(runner.next_step(), Step::CloseWindows);
    assert_eq!(*runner.ui_description(0), 99);
}

#[test]
fn the_window_may_ask_for_a_redraw_when_it_takes_over_its_size() {
    let mut runner = app(1).run();
    first_frame(&mut runner);
    until_events(&mut runner, 0);
    let resized = Event::WindowEvent { event: WindowInput::Resized(5, 6) };
    give(&mut runner, Reply::Events(vec![resized]));
    give(&mut runner, Reply::UiState(ui_state(1)));
    let info = runner.frame_event_info();
    assert_eq!(info.new_window_size, Some((5, 6)));
    give(
        &mut runner,
        Reply::FrameEventInfo(FrameEventInfo { should_redraw_window: true, ..info }),
    );
    give(&mut runner, Reply::Done);
    assert_eq!(runner.next_step(), Step::Describe(0));
}

#[test]
fn a_failed_swap_ends_the_run() {
    let mut runner = app(1).run();
    first_frame(&mut runner);
    until_events(&mut runner, 0);
    give(&mut runner, Reply::Events(vec![Event::Awakened]));
    let reply = Reply::SwapFailed(SwapBuffersError::AlreadySwapped);
    assert!(runner.accepts(&reply));
    runner.step(reply);
    assert_eq!(runner.next_step(), Step::Finished);
    assert!(matches!(
        runner.finish(),
        Err(RuntimeError::GlSwapError(SwapBuffersError::AlreadySwapped))
    ));
}

#[test]
fn the_callbacks_of_hit_nodes_are_planned_in_order() {
    let items = vec![
        HitTestItem { tag: 2, point_in_viewport: (10, 20) },
        HitTestItem { tag: 9, point_in_viewport: (0, 0) },
        HitTestItem { tag: 1, point_in_viewport: (30, 40) },
    ];
    let calls = plan_calls(&ui_state(0), 3, &items);
    let ids: Vec<u64> = calls.iter().map(|call| call.callback_id).collect();
    assert_eq!(ids, vec![6, 5, 6]);
    assert_eq!(
        calls[1].window_event,
        WindowEvent {
            window: 3,
            number_of_previous_siblings: None,
            cursor_relative_to_item: (30, 40),
            cursor_in_viewport: (30, 40),
        }
    );
}

fn hit(runner: &mut Runner<u32, Headless>, tags: &[u64]) {
    until_events(runner, 0);
    give(runner, Reply::Events(vec![moved()]));
    assert_eq!(runner.next_step(), Step::HitTest(0));
    let items = tags
        .iter()
        .map(|tag| HitTestItem { tag: *tag, point_in_viewport: (0, 0) })
        .collect();
    give(runner, Reply::HitTestResult(items));
}

#[test]
fn a_redraw_brings_the_style_of_the_user_into_force() {
    let mut runner = app(1).run();
    first_frame(&mut runner);
    hit(&mut runner, &[1]);
    match runner.next_step() {
        Step::CallCallback(0, call) => assert_eq!(call.callback_id, 5),
        other => panic!("unexpected {:?}", other),
    }
    runner.app_state_mut().windows[0].css.dynamic_css_overrides.insert(s("width"), 100);
    give(&mut runner, Reply::Update(UpdateScreen::Redraw));
    match runner.next_step() {
        Step::CallCallback(0, call) => assert_eq!(call.callback_id, 6),
        other => panic!("unexpected {:?}", other),
    }
    give(&mut runner, Reply::Update(UpdateScreen::DontRedraw));
    assert_eq!(runner.next_step(), Step::Layout(0));
    assert!(runner.frame_event_info().should_redraw_window);
    assert_eq!(runner.window(0).dynamic_css_overrides.get(&s("width")), Some(&100));
    assert!(runner.app_state().windows[0].css.dynamic_css_overrides.ids().is_empty());
}

#[test]
fn without_a_redraw_the_style_of_the_user_waits() {
    let mut runner = app(1).run();
    first_frame(&mut runner);
    runner.app_state_mut().windows[0].css.dynamic_css_overrides.insert(s("width"), 100);
    hit(&mut runner, &[2]);
    give(&mut runner, Reply::Update(UpdateScreen::DontRedraw));
    assert_eq!(runner.next_step(), Step::Layout(0));
    assert!(!runner.frame_event_info().should_redraw_window);
    assert!(runner.window(0).dynamic_css_overrides.ids().is_empty());
    assert_eq!(runner.app_state().windows[0].css.dynamic_css_overrides.ids(), vec![s("width")]);
}

#[test]
fn nodes_without_callbacks_are_passed_over() {
    let mut runner = app(1).run();
    first_frame(&mut runner);
    hit(&mut runner, &[8, 9]);
    assert_eq!(runner.next_step(), Step::Layout(0));
    assert!(!runner.frame_event_info().should_redraw_window);
}

#[test]
fn a_callback_that_does_not_exist_is_not_accepted() {
    let mut runner = app(1).run();
    let mut broken = ui_state(0);
    broken.node_ids_to_callbacks_list.insert(3, vec![7]);
    give(&mut runner, Reply::UiState(broken));
    first_frame(&mut runner);
    until_events(&mut runner, 0);
    give(&mut runner, Reply::Events(vec![moved()]));
    let items = vec![HitTestItem { tag: 3, point_in_viewport: (0, 0) }];
    assert!(!runner.accepts(&Reply::HitTestResult(items)));
}

#[test]
fn a_lost_user_side_is_noticed() {
    let mut runner = app(1).run();
    first_frame(&mut runner);
    hit(&mut runner, &[2]);
    runner.app_state_mut().windows.clear();
    assert!(!runner.accepts(&Reply::Update(UpdateScreen::Redraw)));
    assert!(runner.accepts(&Reply::Update(UpdateScreen::DontRedraw)));
}

#[test]
fn a_window_takes_nothing_over_from_a_lost_user_side() {
    let mut runner = app(1).run();
    first_frame(&mut runner);
    until_events(&mut runner, 0);
    give(&mut runner, Reply::Events(vec![]));
    give(&mut runner, Reply::UiState(ui_state(0)));
    let info = runner.frame_event_info();
    give(&mut runner, Reply::FrameEventInfo(info));
    assert_eq!(runner.next_step(), Step::UpdateFromUser(0));
    assert!(runner.accepts(&Reply::Done));
    runner.app_state_mut().windows.clear();
    assert!(!runner.accepts(&Reply::Done));
}

#[test]
fn replies_have_to_fit_their_step() {
    let runner = app(1).run();
    assert!(!runner.accepts(&Reply::Done));
    assert!(!runner.accepts(&Reply::Events(vec![])));
    assert!(runner.accepts(&Reply::UiState(ui_state(0))));
    assert!(!app(0).run().accepts(&Reply::Done));
}

#[test]
fn a_closed_window_goes_with_its_layout_and_its_description() {
    let mut runner = app(3).run();
    first_frame(&mut runner);
    until_close(&mut runner, vec![vec![], vec![close()], vec![]]);
    give(&mut runner, Reply::Done);
    assert_eq!(runner.window(0).native, 0);
    assert_eq!(runner.window(1).native, 2);
    assert_eq!(runner.ui_state(1).dom, 2);
    assert_eq!(*runner.ui_description(1), 2);
    assert_eq!(runner.app_state().windows.len(), 2);
    assert_eq!(runner.app_state().windows[1].state, "state 2");
    assert_eq!(runner.app_state().windows[1].read_only_window, runner.window(1).display);
    end_frame(&mut runner);
    assert_eq!(runner.next_step(), Step::StartFrame);
    assert_eq!(runner.into_app().window_count(), 2);
}

#[test]
fn closed_positions_are_taken_out() {
    let mut list = vec![10, 11, 12, 13];
    remove_closed(&mut list, &vec![0, 1]);
    assert_eq!(list, vec![12, 13]);
    remove_closed(&mut list, &vec![]);
    assert_eq!(list, vec![12, 13]);
    remove_closed(&mut list, &vec![1, 7, 1]);
    assert_eq!(list, vec![12]);
    remove_closed(&mut list, &vec![0]);
    assert!(list.is_empty());
    assert!(has_closed(&vec![4, 2], 2));
    assert!(!has_closed(&vec![4, 2], 3));
}

#[test]
fn several_windows_can_be_closed_in_one_frame() {
    let mut runner = app(3).run();
    first_frame(&mut runner);
    until_close(&mut runner, vec![vec![close()], vec![close()], vec![]]);
    give(&mut runner, Reply::Done);
    assert_eq!(runner.window(0).native, 2);
    assert_eq!(runner.ui_state(0).dom, 2);
    assert_eq!(*runner.ui_description(0), 2);
    assert_eq!(runner.app_state().windows.len(), 1);
    assert_eq!(runner.app_state().windows[0].state, "state 2");
    assert_eq!(runner.into_app().window_count(), 1);
}

#[test]
fn all_windows_can_be_closed_in_one_frame() {
    let mut runner = app(2).run();
    first_frame(&mut runner);
    until_close(&mut runner, vec![vec![close()], vec![close()]]);
    give(&mut runner, Reply::Done);
    end_frame(&mut runner);
    assert_eq!(runner.next_step(), Step::Finished);
    assert!(matches!(runner.finish(), Ok(42)));
}

#[test]
fn a_window_that_is_asked_twice_closes_no_other() {
    let mut runner = app(2).run();
    first_frame(&mut runner);
    until_close(&mut runner, vec![vec![close(), close()], vec![]]);
    give(&mut runner, Reply::Done);
    assert_eq!(runner.window(0).native, 1);
    assert_eq!(runner.app_state().windows[0].state, "state 1");
    end_frame(&mut runner);
    assert_eq!(runner.next_step(), Step::StartFrame);
    until_close(&mut runner, vec![vec![close()]]);
    give(&mut runner, Reply::Done);
    end_frame(&mut runner);
    assert_eq!(runner.next_step(), Step::Finished);
}

#[test]
fn the_run_ends_when_the_last_window_is_closed() {
    let mut runner = app(1).run();
    first_frame(&mut runner);
    until_close(&mut runner, vec![vec![close()]]);
    give(&mut runner, Reply::Done);
    assert_eq!(runner.next_step(), Step::RunDeamons);
    end_frame(&mut runner);
    assert_eq!(runner.next_step(), Step::Finished);
    assert!(matches!(runner.finish(), Ok(42)));
}

#[test]
fn data_that_is_still_used_is_not_returned() {
    let runner = app(0).run();
    let used = runner.app_state().data.clone();
    assert!(matches!(runner.finish(), Err(RuntimeError::ArcUnlockError)));
    assert_eq!(*used.lock().unwrap(), 42);
}

fn at_end_of_frame() -> Runner<u32, Headless> {
    let mut app = app(1);
    app.add_task(70);
    app.add_task(71);
    let mut runner = app.run();
    first_frame(&mut runner);
    until_close(&mut runner, vec![vec![]]);
    give(&mut runner, Reply::Done);
    give(&mut runner, Reply::Done);
    assert!(!runner.accepts(&Reply::FinishedTasks(vec![true])));
    give(&mut runner, Reply::FinishedTasks(vec![true, false]));
    assert_eq!(runner.app_state().tasks, vec![71]);
    runner
}

#[test]
fn a_short_frame_is_followed_by_a_sleep() {
    let mut runner = at_end_of_frame();
    give(&mut runner, Reply::Elapsed(1_000_000));
    assert_eq!(runner.next_step(), Step::Sleep(15_000_000));
    give(&mut runner, Reply::Done);
    assert_eq!(runner.next_step(), Step::StartFrame);
}

#[test]
fn a_full_frame_is_followed_by_the_next_one() {
    let mut runner = at_end_of_frame();
    give(&mut runner, Reply::Elapsed(16_000_000));
    assert_eq!(runner.next_step(), Step::StartFrame);
}

#[test]
fn a_mock_frame_removes_deleted_fonts() {
    let mut app = app(0);
    assert_eq!(app.add_font(s("Webly Sleeky UI"), Ok(vec![1, 2])), Ok(None));
    assert_eq!(app.add_font(s("Arial"), Ok(vec![3])), Ok(None));
    assert_eq!(app.delete_font(s("Webly Sleeky UI")), Some(()));
    // NOTE: The font isn't immediately removed, only in the next draw call
    assert!(app.has_font(s("Webly Sleeky UI")));
    let mut runner = app.mock_render_frame(new_window(9));
    assert_eq!(runner.next_step(), Step::FirstLayout(0));
    first_frame(&mut runner);
    assert_eq!(runner.next_step(), Step::Finished);
    let app = runner.into_app();
    assert!(!app.has_font(s("Webly Sleeky UI")));
    assert!(app.has_font(s("Arial")));
    assert_eq!(app.window_count(), 1);
}

#[test]
fn a_redraw_removes_deleted_fonts_too() {
    let mut app = app(1);
    assert_eq!(app.add_font(s("a"), Ok(vec![1])), Ok(None));
    let mut runner = app.run();
    first_frame(&mut runner);
    assert_eq!(runner.app_state_mut().delete_font(s("a")), Some(()));
    until_events(&mut runner, 0);
    give(&mut runner, Reply::Events(vec![Event::WindowEvent { event: WindowInput::Refresh }]));
    give(&mut runner, Reply::UiState(ui_state(1)));
    let info = runner.frame_event_info();
    give(&mut runner, Reply::FrameEventInfo(info));
    give(&mut runner, Reply::Done);
    give(&mut runner, Reply::UiDescription(1));
    give(&mut runner, Reply::Done);
    assert!(runner.app_state().has_font(&s("a")));
    assert_eq!(runner.next_step(), Step::Render(0));
    give(&mut runner, Reply::Done);
    assert!(!runner.app_state().has_font(&s("a")));
}

#[test]
fn a_mock_frame_is_drawn_in_a_hidden_window() {
    let request = hidden_window_request();
    assert!(!request.is_visible);
    assert_eq!(request.renderer_type, RendererType::Software);
}
