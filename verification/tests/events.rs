//! What the events of a frame ask of a window.
use azul::event::{process_event, process_events, Event, FrameEventInfo, WindowInput};

fn window(event: WindowInput) -> Event {
    Event::WindowEvent { event }
}

fn moved(x: f64, y: f64) -> Event {
    window(WindowInput::CursorMoved { position: (x.to_bits(), y.to_bits()) })
}

#[test]
fn a_frame_starts_with_nothing_to_do() {
    let info = FrameEventInfo::default();
    assert!(!info.should_redraw_window);
    assert!(!info.should_swap_window);
    assert!(!info.should_hittest);
    let (x, y) = info.cur_cursor_pos;
    assert_eq!((f64::from_bits(x), f64::from_bits(y)), (0.0, 0.0));
    assert_eq!(info.new_window_size, None);
    assert_eq!(info.new_dpi_factor, None);
}

#[test]
fn each_event_changes_what_it_is_about() {
    let clean = FrameEventInfo::default();

    let mut info = clean;
    assert!(!process_event(moved(3.5, -1.0), &mut info));
    assert_eq!(
        info,
        FrameEventInfo {
            should_hittest: true,
            cur_cursor_pos: (3.5f64.to_bits(), (-1.0f64).to_bits()),
            ..clean
        }
    );

    let mut info = clean;
    assert!(!process_event(window(WindowInput::Resized(800, 600)), &mut info));
    assert_eq!(info, FrameEventInfo { new_window_size: Some((800, 600)), ..clean });

    let mut info = clean;
    assert!(!process_event(window(WindowInput::Refresh), &mut info));
    assert_eq!(info, FrameEventInfo { should_redraw_window: true, ..clean });

    let mut info = clean;
    assert!(!process_event(window(WindowInput::HiDPIFactorChanged(2.0f32.to_bits())), &mut info));
    assert_eq!(info, FrameEventInfo { new_dpi_factor: Some(2.0f32.to_bits()), ..clean });

    let mut info = clean;
    assert!(!process_event(Event::Awakened, &mut info));
    assert_eq!(info, FrameEventInfo { should_swap_window: true, ..clean });

    let mut info = clean;
    assert!(process_event(window(WindowInput::CloseRequested), &mut info));
    assert_eq!(info, clean);

    let mut info = clean;
    assert!(!process_event(window(WindowInput::Other), &mut info));
    assert!(!process_event(Event::Other, &mut info));
    assert_eq!(info, clean);
}

#[test]
fn the_last_of_several_events_counts() {
    let events = vec![
        moved(1.0, 1.0),
        window(WindowInput::Resized(1, 2)),
        Event::Awakened,
        moved(2.0, 4.0),
        window(WindowInput::Resized(3, 4)),
        Event::Other,
    ];
    let mut closed = vec![];
    let info = process_events(&events, 0, &mut closed);
    assert_eq!(info.cur_cursor_pos, (2.0f64.to_bits(), 4.0f64.to_bits()));
    assert_eq!(info.new_window_size, Some((3, 4)));
    assert!(info.should_hittest);
    assert!(info.should_swap_window);
    assert!(!info.should_redraw_window);
    assert!(closed.is_empty());
}

#[test]
fn a_window_that_is_asked_to_close_is_noted_once() {
    let close = window(WindowInput::CloseRequested);
    let mut closed = vec![1];
    let info = process_events(&vec![close, Event::Awakened, close], 4, &mut closed);
    assert_eq!(closed, vec![1, 4]);
    assert!(info.should_swap_window);
    let info = process_events(&vec![Event::Awakened], 5, &mut closed);
    assert_eq!(closed, vec![1, 4]);
    assert!(info.should_swap_window);
}
