use baseview::x11::event_loop::FRAME_INTERVAL_NANOS;
use baseview::x11::{mouse_id, EventLoop, LoopEvent, XcbEvent};
use baseview::{MouseButton, PhyPoint, PhySize};

const DELETE_ATOM: u32 = 321;
const SIZE: PhySize = PhySize { width: 500, height: 300 };

fn new_loop() -> EventLoop {
    EventLoop::new(DELETE_ATOM)
}

#[test]
fn mouse_id_names_the_five_buttons() {
    assert_eq!(mouse_id(1), MouseButton::Left);
    assert_eq!(mouse_id(2), MouseButton::Middle);
    assert_eq!(mouse_id(3), MouseButton::Right);
    assert_eq!(mouse_id(8), MouseButton::Back);
    assert_eq!(mouse_id(9), MouseButton::Forward);
    assert_eq!(mouse_id(4), MouseButton::Other(4));
    assert_eq!(mouse_id(12), MouseButton::Other(12));
}

#[test]
fn new_loop_is_not_running() {
    let el = new_loop();
    assert!(!el.is_running());
}

#[test]
fn close_request_stops_the_loop_once() {
    let mut el = new_loop();
    el.start(0);
    assert!(el.is_running());
    let out = el.handle_xcb_event::<()>(XcbEvent::ClientMessage { format: 32, data0: DELETE_ATOM }, SIZE);
    assert_eq!(out.len(), 1);
    assert!(matches!(out[0], LoopEvent::WillClose));
    assert!(!el.is_running());
}

#[test]
fn other_client_messages_are_ignored() {
    let mut el = new_loop();
    el.start(0);
    let out = el.handle_xcb_event::<()>(XcbEvent::ClientMessage { format: 8, data0: DELETE_ATOM }, SIZE);
    assert!(out.is_empty());
    let out = el.handle_xcb_event::<()>(XcbEvent::ClientMessage { format: 32, data0: 7 }, SIZE);
    assert!(out.is_empty());
    assert!(el.is_running());
}

#[test]
fn configure_with_same_size_reports_nothing() {
    let mut el = new_loop();
    el.begin_drain();
    let out = el.handle_xcb_event::<()>(XcbEvent::ConfigureNotify { width: 500, height: 300 }, SIZE);
    assert!(out.is_empty());
    assert!(el.finish_drain::<()>().is_none());
}

#[test]
fn configure_batch_reports_the_last_size_once() {
    let mut el = new_loop();
    el.begin_drain();
    el.handle_xcb_event::<()>(XcbEvent::ConfigureNotify { width: 500, height: 300 }, SIZE);
    el.handle_xcb_event::<()>(XcbEvent::ConfigureNotify { width: 640, height: 480 }, SIZE);
    el.handle_xcb_event::<()>(XcbEvent::ConfigureNotify { width: 500, height: 300 }, SIZE);
    match el.finish_drain::<()>() {
        Some(LoopEvent::Resized(size)) => assert_eq!(size, PhySize::new(500, 300)),
        _ => panic!("expected a resize"),
    }
    assert!(el.finish_drain::<()>().is_none());
}

#[test]
fn configure_batch_resizes_the_window() {
    let mut el = new_loop();
    el.begin_drain();
    el.handle_xcb_event::<()>(XcbEvent::ConfigureNotify { width: 800, height: 600 }, SIZE);
    match el.finish_drain::<()>() {
        Some(LoopEvent::Resized(size)) => assert_eq!(size, PhySize::new(800, 600)),
        _ => panic!("expected a resize"),
    }
    // The window now has the new size: the same size again is no resize.
    el.begin_drain();
    el.handle_xcb_event::<()>(XcbEvent::ConfigureNotify { width: 800, height: 600 }, PhySize::new(800, 600));
    assert!(el.finish_drain::<()>().is_none());
}

#[test]
fn enter_reports_entered_then_moved() {
    let mut el = new_loop();
    let out = el.handle_xcb_event::<()>(XcbEvent::EnterNotify { event_x: -3, event_y: 9, state: 4 }, SIZE);
    assert_eq!(out.len(), 2);
    assert!(matches!(out[0], LoopEvent::CursorEntered));
    match &out[1] {
        LoopEvent::CursorMoved { position, state } => {
            assert_eq!(*position, PhyPoint::new(-3, 9));
            assert_eq!(*state, 4);
        }
        _ => panic!("expected a cursor move"),
    }
}

#[test]
fn motion_and_leave() {
    let mut el = new_loop();
    let out = el.handle_xcb_event::<()>(XcbEvent::MotionNotify { event_x: 10, event_y: 20, state: 0 }, SIZE);
    assert_eq!(out.len(), 1);
    assert!(matches!(out[0], LoopEvent::CursorMoved { position: PhyPoint { x: 10, y: 20 }, state: 0 }));
    let out = el.handle_xcb_event::<()>(XcbEvent::LeaveNotify, SIZE);
    assert_eq!(out.len(), 1);
    assert!(matches!(out[0], LoopEvent::CursorLeft));
}

fn wheel(el: &mut EventLoop, detail: u8) -> (i8, i8) {
    let out = el.handle_xcb_event::<()>(XcbEvent::ButtonPress { detail, state: 1 }, SIZE);
    assert_eq!(out.len(), 1);
    match out[0] {
        LoopEvent::WheelScrolled { lines_x, lines_y, state } => {
            assert_eq!(state, 1);
            (lines_x, lines_y)
        }
        _ => panic!("expected a wheel step"),
    }
}

#[test]
fn wheel_buttons_scroll_one_line() {
    let mut el = new_loop();
    assert_eq!(wheel(&mut el, 4), (0, 1));
    assert_eq!(wheel(&mut el, 5), (0, -1));
    assert_eq!(wheel(&mut el, 6), (-1, 0));
    assert_eq!(wheel(&mut el, 7), (1, 0));
    for detail in 4..=7 {
        let out = el.handle_xcb_event::<()>(XcbEvent::ButtonRelease { detail, state: 0 }, SIZE);
        assert!(out.is_empty());
    }
}

#[test]
fn buttons_press_and_release() {
    let mut el = new_loop();
    let out = el.handle_xcb_event::<()>(XcbEvent::ButtonPress { detail: 3, state: 0 }, SIZE);
    assert!(matches!(out[0], LoopEvent::ButtonPressed { button: MouseButton::Right, state: 0 }));
    let out = el.handle_xcb_event::<()>(XcbEvent::ButtonRelease { detail: 9, state: 8 }, SIZE);
    assert!(matches!(out[0], LoopEvent::ButtonReleased { button: MouseButton::Forward, state: 8 }));
}

#[test]
fn keys_pass_through() {
    let mut el = new_loop();
    let out = el.handle_xcb_event(XcbEvent::KeyPress(38u8), SIZE);
    assert!(matches!(out[0], LoopEvent::KeyPressed(38)));
    let out = el.handle_xcb_event(XcbEvent::KeyRelease(38u8), SIZE);
    assert!(matches!(out[0], LoopEvent::KeyReleased(38)));
    let out = el.handle_xcb_event::<u8>(XcbEvent::Other, SIZE);
    assert!(out.is_empty());
}

#[test]
fn frame_clock() {
    let mut el = new_loop();
    el.start(1_000);
    let next = el.next_frame();
    assert_eq!(next, 1_000 + FRAME_INTERVAL_NANOS);
    assert!(!EventLoop::frame_due(next, next - 1));
    assert!(EventLoop::frame_due(next, next));
    // Drawn on time: the clock moves to the due time.
    el.advance_frame(next, next + 1);
    assert_eq!(el.next_frame(), next + FRAME_INTERVAL_NANOS);
    // Drawn very late: the clock moves to one interval before now.
    let next = el.next_frame();
    let late = next + 10 * FRAME_INTERVAL_NANOS;
    el.advance_frame(next, late);
    assert_eq!(el.next_frame(), late);
}

#[test]
fn poll_timeout_is_the_millisecond_part() {
    assert_eq!(EventLoop::poll_timeout_ms(15_000_000, 0), 15);
    assert_eq!(EventLoop::poll_timeout_ms(15_000_000, 14_500_000), 0);
    assert_eq!(EventLoop::poll_timeout_ms(1_500_000_000, 0), 500);
    assert_eq!(EventLoop::poll_timeout_ms(10, 20), 0);
}

#[test]
fn after_poll_closes_once() {
    let mut el = new_loop();
    el.start(0);
    assert!(el.after_poll::<()>(false, false).is_none());
    assert!(el.is_running());
    let e = el.after_poll::<()>(true, true);
    assert!(matches!(e, Some(LoopEvent::WillClose)));
    assert!(!el.is_running());
    let mut el = new_loop();
    el.start(0);
    assert!(matches!(el.after_poll::<()>(false, true), Some(LoopEvent::WillClose)));
    assert!(!el.is_running());
}

#[test]
fn must_close_stops() {
    let mut el = new_loop();
    el.start(5);
    assert!(matches!(el.handle_must_close::<()>(), LoopEvent::WillClose));
    assert!(!el.is_running());
    assert!(matches!(el.handle_close_requested::<()>(), LoopEvent::WillClose));
}

#[test]
fn frame_clock_reads_back() {
    let mut el = new_loop();
    el.start(1_000);
    assert_eq!(el.last_frame(), 1_000);
    assert_eq!(el.frame_interval(), FRAME_INTERVAL_NANOS);
    assert_eq!(el.next_frame(), 1_000 + FRAME_INTERVAL_NANOS);
}

#[test]
fn no_frame_is_due_after_the_close_in_a_pass() {
    let mut el = new_loop();
    el.start(0);
    let next = el.next_frame();
    assert!(EventLoop::frame_due(next, next));
    el.advance_frame(next, next);
    let out = el.handle_xcb_event::<u8>(XcbEvent::ClientMessage { format: 32, data0: DELETE_ATOM }, SIZE);
    assert!(matches!(out.as_slice(), [LoopEvent::WillClose]));
    assert!(!el.is_running());
    assert!(el.after_poll::<u8>(false, false).is_none());
    assert!(!el.is_running());
}
