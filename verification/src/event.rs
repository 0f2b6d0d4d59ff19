//! What a window reports during one frame, and what the frame does about it.
//!
//! Coordinates and scale factors are floating point numbers on the screen side. Here they are only
//! carried along, as their bit patterns.
use vstd::prelude::*;

verus! {

/// Something that happened to a single window.
#[derive(Clone, Copy, Debug, PartialEq, Eq)]
pub enum WindowInput {
    /// The cursor moved to a position, given by the bits of its two coordinates.
    CursorMoved { position: (u64, u64) },
    /// The window has a new width and height.
    Resized(u32, u32),
    /// The contents of the window have to be drawn again.
    Refresh,
    /// The scale factor of the window changed, given by its bits.
    HiDPIFactorChanged(u32),
    /// The user wants to close the window.
    CloseRequested,
    /// Anything that the frame does not react to.
    Other,
}

/// An event out of the event loop of a window.
#[derive(Clone, Copy, Debug, PartialEq, Eq)]
pub enum Event {
    /// Something happened to a window.
    WindowEvent { event: WindowInput },
    /// The event loop was woken up from outside.
    Awakened,
    /// Anything that the frame does not react to.
    Other,
}

/// What the events of one frame ask of a window.
#[derive(Clone, Copy, Debug, PartialEq, Eq)]
pub struct FrameEventInfo {
    pub should_redraw_window: bool,
    pub should_swap_window: bool,
    pub should_hittest: bool,
    pub cur_cursor_pos: (u64, u64),
    pub new_window_size: Option<(u32, u32)>,
    pub new_dpi_factor: Option<u32>,
}

/// The information at the start of a frame: nothing to do, and the cursor in the corner (the bits
/// of a zero coordinate are all zero).
pub open spec fn no_info() -> FrameEventInfo {
    FrameEventInfo {
        should_redraw_window: false,
        should_swap_window: false,
        should_hittest: false,
        cur_cursor_pos: (0, 0),
        new_window_size: None,
        new_dpi_factor: None,
    }
}

impl Default for FrameEventInfo {
    fn default() -> (info: Self)
        ensures
            info == no_info(),
    {
        FrameEventInfo {
            should_redraw_window: false,
            should_swap_window: false,
            should_hittest: false,
            cur_cursor_pos: (0, 0),
            new_window_size: None,
            new_dpi_factor: None,
        }
    }
}

/// Whether an event asks for its window to be closed.
pub open spec fn is_close(event: Event) -> bool {
    event == (Event::WindowEvent { event: WindowInput::CloseRequested })
}

/// The position that the cursor moved to with an event.
pub open spec fn cursor_of(event: Event) -> Option<(u64, u64)> {
    match event {
        Event::WindowEvent { event: WindowInput::CursorMoved { position } } => Some(position),
        _ => None,
    }
}

/// The size that a window got with an event.
pub open spec fn size_of_resize(event: Event) -> Option<(u32, u32)> {
    match event {
        Event::WindowEvent { event: WindowInput::Resized(w, h) } => Some((w, h)),
        _ => None,
    }
}

/// The scale factor that a window got with an event.
pub open spec fn dpi_of(event: Event) -> Option<u32> {
    match event {
        Event::WindowEvent { event: WindowInput::HiDPIFactorChanged(dpi) } => Some(dpi),
        _ => None,
    }
}

/// Whether an event asks for its window to be drawn again.
pub open spec fn is_refresh(event: Event) -> bool {
    event == (Event::WindowEvent { event: WindowInput::Refresh })
}

/// The information of a frame after one more event: each event touches what it is about and
/// nothing else.
pub open spec fn info_after(info: FrameEventInfo, event: Event) -> FrameEventInfo {
    FrameEventInfo {
        should_redraw_window: info.should_redraw_window || is_refresh(event),
        should_swap_window: info.should_swap_window || event == Event::Awakened,
        should_hittest: info.should_hittest || cursor_of(event) is Some,
        cur_cursor_pos: match cursor_of(event) {
            Some(position) => position,
            None => info.cur_cursor_pos,
        },
        new_window_size: match size_of_resize(event) {
            Some(size) => Some(size),
            None => info.new_window_size,
        },
        new_dpi_factor: match dpi_of(event) {
            Some(dpi) => Some(dpi),
            None => info.new_dpi_factor,
        },
    }
}

/// The information of a frame after a series of events.
pub open spec fn info_after_all(info: FrameEventInfo, events: Seq<Event>) -> FrameEventInfo
    decreases events.len(),
{
    if events.len() == 0 {
        info
    } else {
        info_after(info_after_all(info, events.drop_last()), events.last())
    }
}

/// Whether one of the events asks for the window to be closed.
pub open spec fn asks_to_close(events: Seq<Event>) -> bool {
    exists|k: int| 0 <= k < events.len() && is_close(#[trigger] events[k])
}

/// Takes note of one event. Says whether the window should be closed.
pub fn process_event(event: Event, frame_event_info: &mut FrameEventInfo) -> (should_close: bool)
    ensures
        should_close == is_close(event),
        *final(frame_event_info) == info_after(*old(frame_event_info), event),
{
    match event {
        Event::WindowEvent { event } => {
            match event {
                WindowInput::CursorMoved { position } => {
                    frame_event_info.should_hittest = true;
                    frame_event_info.cur_cursor_pos = position;
                },
                WindowInput::Resized(w, h) => {
                    frame_event_info.new_window_size = Some((w, h));
                },
                WindowInput::Refresh => {
                    frame_event_info.should_redraw_window = true;
                },
                WindowInput::HiDPIFactorChanged(dpi) => {
                    frame_event_info.new_dpi_factor = Some(dpi);
                },
                WindowInput::CloseRequested => {
                    return true;
                },
                WindowInput::Other => {},
            }
        },
        Event::Awakened => {
            frame_event_info.should_swap_window = true;
        },
        Event::Other => {},
    }
    false
}

/// Takes note of all events that a window reported in one frame. If the window was asked to close,
/// however often, it is written into the list of closed windows once.
pub fn process_events(
    events: &Vec<Event>,
    window: usize,
    closed_windows: &mut Vec<usize>,
) -> (frame_event_info: FrameEventInfo)
    ensures
        frame_event_info == info_after_all(no_info(), events@),
        final(closed_windows)@ == if asks_to_close(events@) {
            old(closed_windows)@.push(window)
        } else {
            old(closed_windows)@
        },
{
    let mut info = FrameEventInfo::default();
    let mut should_close = false;
    let mut i: usize = 0;
    assert(events@.take(0) =~= Seq::<Event>::empty());
    while i < events.len()
        invariant
            i <= events@.len(),
            info == info_after_all(no_info(), events@.take(i as int)),
            should_close <==> exists|k: int| 0 <= k < i && is_close(#[trigger] events@[k]),
        decreases events@.len() - i,
    {
        assert(events@.take(i + 1).drop_last() =~= events@.take(i as int));
        if process_event(events[i], &mut info) {
            should_close = true;
        }
        i = i + 1;
    }
    assert(events@.take(i as int) =~= events@);
    if should_close {
        closed_windows.push(window);
    }
    info
}

/// A frame tests what is under the cursor exactly if the cursor moved, swaps the buffers exactly if
/// the event loop was woken up, and redraws exactly if it was asked to, wherever in the frame these
/// events stand.
pub proof fn law_flags_tell_what_happened(events: Seq<Event>)
    ensures
        info_after_all(no_info(), events).should_hittest <==> exists|i: int|
            0 <= i < events.len() && cursor_of(#[trigger] events[i]) is Some,
        info_after_all(no_info(), events).should_swap_window <==> exists|i: int|
            0 <= i < events.len() && #[trigger] events[i] == Event::Awakened,
        info_after_all(no_info(), events).should_redraw_window <==> exists|i: int|
            0 <= i < events.len() && is_refresh(#[trigger] events[i]),
    decreases events.len(),
{
    if events.len() > 0 {
        let front = events.drop_last();
        law_flags_tell_what_happened(front);
        let last = events.len() - 1;
        assert(events[last] == events.last());
        if exists|i: int| 0 <= i < front.len() && cursor_of(#[trigger] front[i]) is Some {
            let i = choose|i: int| 0 <= i < front.len() && cursor_of(#[trigger] front[i]) is Some;
            assert(cursor_of(events[i]) is Some);
        }
        if exists|i: int| 0 <= i < events.len() && cursor_of(#[trigger] events[i]) is Some {
            let i = choose|i: int| 0 <= i < events.len() && cursor_of(#[trigger] events[i]) is Some;
            assert(i < last ==> cursor_of(front[i]) is Some);
        }
        if exists|i: int| 0 <= i < front.len() && #[trigger] front[i] == Event::Awakened {
            let i = choose|i: int| 0 <= i < front.len() && #[trigger] front[i] == Event::Awakened;
            assert(events[i] == Event::Awakened);
        }
        if exists|i: int| 0 <= i < events.len() && #[trigger] events[i] == Event::Awakened {
            let i = choose|i: int| 0 <= i < events.len() && #[trigger] events[i] == Event::Awakened;
            assert(i < last ==> front[i] == Event::Awakened);
        }
        if exists|i: int| 0 <= i < front.len() && is_refresh(#[trigger] front[i]) {
            let i = choose|i: int| 0 <= i < front.len() && is_refresh(#[trigger] front[i]);
            assert(is_refresh(events[i]));
        }
        if exists|i: int| 0 <= i < events.len() && is_refresh(#[trigger] events[i]) {
            let i = choose|i: int| 0 <= i < events.len() && is_refresh(#[trigger] events[i]);
            assert(i < last ==> is_refresh(front[i]));
        }
    }
}

/// Of several moves, resizes or changes of scale in one frame, the last one counts: the event at
/// position `i`, with no event of its kind after it, decides. Without any, nothing changes.
pub proof fn law_last_event_counts(info: FrameEventInfo, events: Seq<Event>, i: int)
    requires
        -1 <= i < events.len(),
    ensures
        (forall|j: int| i < j < events.len() ==> cursor_of(#[trigger] events[j]) is None) ==> (if i
            == -1 {
            info_after_all(info, events).cur_cursor_pos == info.cur_cursor_pos
        } else {
            cursor_of(events[i]) matches Some(position) ==> info_after_all(
                info,
                events,
            ).cur_cursor_pos == position
        }),
        (forall|j: int| i < j < events.len() ==> size_of_resize(#[trigger] events[j]) is None) ==> (
        if i == -1 {
            info_after_all(info, events).new_window_size == info.new_window_size
        } else {
            size_of_resize(events[i]) is Some ==> info_after_all(info, events).new_window_size
                == size_of_resize(events[i])
        }),
        (forall|j: int| i < j < events.len() ==> dpi_of(#[trigger] events[j]) is None) ==> (if i
            == -1 {
            info_after_all(info, events).new_dpi_factor == info.new_dpi_factor
        } else {
            dpi_of(events[i]) is Some ==> info_after_all(info, events).new_dpi_factor == dpi_of(
                events[i],
            )
        }),
    decreases events.len(),
{
    if events.len() > 0 && i < events.len() - 1 {
        let front = events.drop_last();
        let last = events.len() - 1;
        assert(events[last] == events.last());
        law_last_event_counts(info, front, i);
        assert(forall|j: int| i < j < front.len() ==> #[trigger] front[j] == events[j]);
        assert(i >= 0 ==> front[i] == events[i]);
    }
}

/// At the start of a frame nothing is asked for.
pub proof fn law_a_frame_starts_with_nothing_to_do()
    ensures
        !no_info().should_redraw_window,
        !no_info().should_swap_window,
        !no_info().should_hittest,
        no_info().cur_cursor_pos == (0u64, 0u64),
        no_info().new_window_size is None,
        no_info().new_dpi_factor is None,
{
}

/// Each kind of event is about one thing: it changes that and leaves all else as it was. Only a
/// request to close asks for the window to be closed.
pub proof fn law_each_event_is_about_one_thing(
    info: FrameEventInfo,
    position: (u64, u64),
    width: u32,
    height: u32,
    dpi: u32,
)
    ensures
        info_after(info, Event::WindowEvent { event: WindowInput::CursorMoved { position } }) == (
        FrameEventInfo { should_hittest: true, cur_cursor_pos: position, ..info }),
        info_after(info, Event::WindowEvent { event: WindowInput::Resized(width, height) }) == (
        FrameEventInfo { new_window_size: Some((width, height)), ..info }),
        info_after(info, Event::WindowEvent { event: WindowInput::Refresh }) == (FrameEventInfo {
            should_redraw_window: true,
            ..info
        }),
        info_after(info, Event::WindowEvent { event: WindowInput::HiDPIFactorChanged(dpi) }) == (
        FrameEventInfo { new_dpi_factor: Some(dpi), ..info }),
        info_after(info, Event::Awakened) == (FrameEventInfo { should_swap_window: true, ..info }),
        info_after(info, Event::WindowEvent { event: WindowInput::CloseRequested }) == info,
        info_after(info, Event::WindowEvent { event: WindowInput::Other }) == info,
        info_after(info, Event::Other) == info,
        is_close(Event::WindowEvent { event: WindowInput::CloseRequested }),
        !is_close(Event::WindowEvent { event: WindowInput::CursorMoved { position } }),
        !is_close(Event::WindowEvent { event: WindowInput::Resized(width, height) }),
        !is_close(Event::WindowEvent { event: WindowInput::Refresh }),
        !is_close(Event::WindowEvent { event: WindowInput::HiDPIFactorChanged(dpi) }),
        !is_close(Event::WindowEvent { event: WindowInput::Other }),
        !is_close(Event::Awakened),
        !is_close(Event::Other),
{
}

/// Events can be taken note of in two parts, and one by one.
pub proof fn law_events_are_noted_one_after_the_other(
    info: FrameEventInfo,
    first: Seq<Event>,
    second: Seq<Event>,
    event: Event,
)
    ensures
        info_after_all(info, Seq::<Event>::empty()) == info,
        info_after_all(info, seq![event]) == info_after(info, event),
        info_after_all(info, first + second) == info_after_all(info_after_all(info, first), second),
    decreases second.len(),
{
    assert(seq![event].drop_last() =~= Seq::<Event>::empty());
    assert(info_after_all(info, seq![event].drop_last()) == info);
    if second.len() == 0 {
        assert(first + second =~= first);
    } else {
        assert((first + second).drop_last() =~= first + second.drop_last());
        law_events_are_noted_one_after_the_other(info, first, second.drop_last(), event);
    }
}

/// A window is asked to close exactly if one of its events is a request to close, wherever that
/// event stands.
pub proof fn law_any_request_to_close_counts(events: Seq<Event>)
    ensures
        asks_to_close(events) <==> exists|k: int|
            0 <= k < events.len() && (#[trigger] events[k]) == (Event::WindowEvent {
                event: WindowInput::CloseRequested,
            }),
{
    if exists|k: int|
        0 <= k < events.len() && (#[trigger] events[k]) == (Event::WindowEvent {
            event: WindowInput::CloseRequested,
        }) {
        let k = choose|k: int|
            0 <= k < events.len() && (#[trigger] events[k]) == (Event::WindowEvent {
                event: WindowInput::CloseRequested,
            });
        assert(is_close(events[k]));
    }
}

/// A request to close is kept, whatever events come before and after it: two series of events
/// together ask for the window to be closed exactly if one of them does. No events ask for nothing.
pub proof fn law_a_request_to_close_is_kept(first: Seq<Event>, second: Seq<Event>)
    ensures
        asks_to_close(first + second) == (asks_to_close(first) || asks_to_close(second)),
        asks_to_close(
            first.push(Event::WindowEvent { event: WindowInput::CloseRequested }) + second,
        ),
        !asks_to_close(Seq::<Event>::empty()),
{
    let both = first + second;
    if asks_to_close(first) {
        let k = choose|k: int| 0 <= k < first.len() && is_close(#[trigger] first[k]);
        assert(is_close(both[k]));
    }
    if asks_to_close(second) {
        let k = choose|k: int| 0 <= k < second.len() && is_close(#[trigger] second[k]);
        assert(is_close(both[first.len() + k]));
    }
    if asks_to_close(both) {
        let k = choose|k: int| 0 <= k < both.len() && is_close(#[trigger] both[k]);
        assert(k < first.len() ==> is_close(first[k]));
        assert(k >= first.len() ==> is_close(second[k - first.len()]));
    }
    let request = Event::WindowEvent { event: WindowInput::CloseRequested };
    assert(is_close((first.push(request) + second)[first.len() as int]));
}

/// What the events of a frame ask for, by kind and wherever they stand: a move of the cursor asks
/// for a hit test, waking up for a swap, and a refresh for a redraw, and nothing else does.
pub proof fn law_what_the_events_of_a_frame_ask_for(events: Seq<Event>)
    ensures
        info_after_all(no_info(), events).should_hittest <==> exists|k: int|
            0 <= k < events.len() && ((#[trigger] events[k]) matches Event::WindowEvent {
                event: WindowInput::CursorMoved { .. },
            }),
        info_after_all(no_info(), events).should_swap_window <==> exists|k: int|
            0 <= k < events.len() && (#[trigger] events[k]) is Awakened,
        info_after_all(no_info(), events).should_redraw_window <==> exists|k: int|
            0 <= k < events.len() && ((#[trigger] events[k]) matches Event::WindowEvent {
                event: WindowInput::Refresh,
            }),
{
    law_flags_tell_what_happened(events);
}

/// Of several moves of the cursor, resizes or changes of scale in a frame, the last one counts;
/// without any, the cursor is in the corner, and size and scale are not new.
pub proof fn law_the_last_event_of_its_kind_counts(
    events: Seq<Event>,
    k: int,
    position: (u64, u64),
    size: (u32, u32),
    dpi: u32,
)
    requires
        0 <= k < events.len(),
    ensures
        events[k] == (Event::WindowEvent { event: WindowInput::CursorMoved { position } }) && (
        forall|j: int|
            k < j < events.len() ==> !((#[trigger] events[j]) matches Event::WindowEvent {
                event: WindowInput::CursorMoved { .. },
            })) ==> info_after_all(no_info(), events).cur_cursor_pos == position,
        events[k] == (Event::WindowEvent { event: WindowInput::Resized(size.0, size.1) }) && (
        forall|j: int|
            k < j < events.len() ==> !((#[trigger] events[j]) matches Event::WindowEvent {
                event: WindowInput::Resized(_, _),
            })) ==> info_after_all(no_info(), events).new_window_size == Some(size),
        events[k] == (Event::WindowEvent { event: WindowInput::HiDPIFactorChanged(dpi) }) && (
        forall|j: int|
            k < j < events.len() ==> !((#[trigger] events[j]) matches Event::WindowEvent {
                event: WindowInput::HiDPIFactorChanged(_),
            })) ==> info_after_all(no_info(), events).new_dpi_factor == Some(dpi),
        (forall|j: int|
            0 <= j < events.len() ==> !((#[trigger] events[j]) matches Event::WindowEvent {
                event: WindowInput::CursorMoved { .. },
            })) ==> info_after_all(no_info(), events).cur_cursor_pos == (0u64, 0u64),
        (forall|j: int|
            0 <= j < events.len() ==> !((#[trigger] events[j]) matches Event::WindowEvent {
                event: WindowInput::Resized(_, _),
            })) ==> info_after_all(no_info(), events).new_window_size is None,
        (forall|j: int|
            0 <= j < events.len() ==> !((#[trigger] events[j]) matches Event::WindowEvent {
                event: WindowInput::HiDPIFactorChanged(_),
            })) ==> info_after_all(no_info(), events).new_dpi_factor is None,
{
    law_last_event_counts(no_info(), events, k);
    law_last_event_counts(no_info(), events, -1);
}

} // verus!
