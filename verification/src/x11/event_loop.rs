//! The decisions of the X11 event loop.
//!
//! The loop itself (polling the X connection, calling the window handler)
//! runs outside the verified library; it hands each X event to
//! [`EventLoop::handle_xcb_event`] and delivers the [`LoopEvent`]s that come
//! back, in order. Times are nanoseconds on a monotonic clock.

use vstd::prelude::*;

use crate::event::MouseButton;
use crate::window_info::{PhyPoint, PhySize};

verus! {

/// An X event, reduced to the values the event loop reads. `K` is the type
/// of a raw key event, which is converted outside the library.
pub enum XcbEvent<K> {
    ClientMessage { format: u8, data0: u32 },
    ConfigureNotify { width: u16, height: u16 },
    MotionNotify { event_x: i16, event_y: i16, state: u16 },
    EnterNotify { event_x: i16, event_y: i16, state: u16 },
    LeaveNotify,
    ButtonPress { detail: u8, state: u16 },
    ButtonRelease { detail: u8, state: u16 },
    KeyPress(K),
    KeyRelease(K),
    Other,
}

/// An event for the window handler. Positions are physical; `state` is the
/// X modifier mask of the event. A wheel step is one line in the direction
/// given by `lines_x` and `lines_y`.
pub enum LoopEvent<K> {
    CursorMoved { position: PhyPoint, state: u16 },
    CursorEntered,
    CursorLeft,
    WheelScrolled { lines_x: i8, lines_y: i8, state: u16 },
    ButtonPressed { button: MouseButton, state: u16 },
    ButtonReleased { button: MouseButton, state: u16 },
    KeyPressed(K),
    KeyReleased(K),
    Resized(PhySize),
    WillClose,
}

/// The mouse button that X reports with the given button number.
pub open spec fn button_of(id: u8) -> MouseButton {
    if id == 1 {
        MouseButton::Left
    } else if id == 2 {
        MouseButton::Middle
    } else if id == 3 {
        MouseButton::Right
    } else if id == 8 {
        MouseButton::Back
    } else if id == 9 {
        MouseButton::Forward
    } else {
        MouseButton::Other(id)
    }
}

pub fn mouse_id(id: u8) -> (button: MouseButton)
    ensures
        button == button_of(id),
{
    match id {
        1 => MouseButton::Left,
        2 => MouseButton::Middle,
        3 => MouseButton::Right,
        8 => MouseButton::Back,
        9 => MouseButton::Forward,
        id => MouseButton::Other(id),
    }
}

/// X reports the wheel as the buttons 4 to 7.
pub open spec fn is_wheel_button(detail: u8) -> bool {
    4 <= detail <= 7
}

/// The line step of a wheel button: 4 up, 5 down, 6 left, 7 right.
pub open spec fn wheel_lines(detail: u8) -> (i8, i8) {
    if detail == 4 {
        (0, 1)
    } else if detail == 5 {
        (0, -1i8)
    } else if detail == 6 {
        (-1i8, 0)
    } else {
        (1, 0)
    }
}

/// The size waiting to be reported after a configure event of size `new`,
/// given the window's size and the size already waiting: a configure event
/// is recorded when a size is already waiting or when it differs from the
/// window's size.
pub open spec fn configure_step(size: PhySize, pending: Option<PhySize>, new: PhySize) -> Option<
    PhySize,
> {
    if pending is Some || new != size {
        Some(new)
    } else {
        pending
    }
}

/// The size waiting after a run of configure events.
pub open spec fn configure_fold(size: PhySize, pending: Option<PhySize>, news: Seq<PhySize>) -> Option<
    PhySize,
>
    decreases news.len(),
{
    if news.len() == 0 {
        pending
    } else {
        configure_fold(size, configure_step(size, pending, news[0]), news.drop_first())
    }
}

/// The next frame is due this long after the last one, for a frame
/// interval of 15 ms.
pub const FRAME_INTERVAL_NANOS: u64 = 15_000_000;

/// Where the frame clock stands after a frame that was due at `next`, drawn
/// at `now`: the later of `next` and one interval before `now`.
pub open spec fn advanced_frame(next: int, now: int, interval: int) -> int {
    if now - interval > next {
        now - interval
    } else {
        next
    }
}

/// The poll timeout in milliseconds when the next frame is due at `next`:
/// the millisecond part of the time left (zero when none is left).
pub open spec fn poll_timeout_of(next: int, now: int) -> int {
    if next > now {
        ((next - now) % 1_000_000_000) / 1_000_000
    } else {
        0
    }
}

/// The state the X11 event loop decides on: a size waiting to be reported,
/// the atom of the close request, the frame clock and whether the loop is
/// running.
pub struct EventLoop {
    new_physical_size: Option<PhySize>,
    wm_delete_window: u32,
    frame_interval: u64,
    last_frame: u64,
    event_loop_running: bool,
}

impl EventLoop {
    pub closed spec fn pending_size(&self) -> Option<PhySize> {
        self.new_physical_size
    }

    pub closed spec fn delete_atom(&self) -> u32 {
        self.wm_delete_window
    }

    pub closed spec fn interval(&self) -> u64 {
        self.frame_interval
    }

    pub closed spec fn last_frame_at(&self) -> u64 {
        self.last_frame
    }

    pub closed spec fn running(&self) -> bool {
        self.event_loop_running
    }

    /// The events the loop hands on for `event`, in order.
    pub open spec fn dispatched<K>(&self, event: XcbEvent<K>) -> Seq<LoopEvent<K>> {
        match event {
            XcbEvent::ClientMessage { format, data0 } => {
                if format == 32 && data0 == self.delete_atom() {
                    seq![LoopEvent::WillClose]
                } else {
                    seq![]
                }
            },
            XcbEvent::ConfigureNotify { .. } => seq![],
            XcbEvent::MotionNotify { event_x, event_y, state } => seq![
                LoopEvent::CursorMoved {
                    position: PhyPoint { x: event_x as i32, y: event_y as i32 },
                    state,
                },
            ],
            XcbEvent::EnterNotify { event_x, event_y, state } => seq![
                LoopEvent::CursorEntered,
                LoopEvent::CursorMoved {
                    position: PhyPoint { x: event_x as i32, y: event_y as i32 },
                    state,
                },
            ],
            XcbEvent::LeaveNotify => seq![LoopEvent::CursorLeft],
            XcbEvent::ButtonPress { detail, state } => {
                if is_wheel_button(detail) {
                    seq![
                        LoopEvent::WheelScrolled {
                            lines_x: wheel_lines(detail).0,
                            lines_y: wheel_lines(detail).1,
                            state,
                        },
                    ]
                } else {
                    seq![LoopEvent::ButtonPressed { button: button_of(detail), state }]
                }
            },
            XcbEvent::ButtonRelease { detail, state } => {
                if is_wheel_button(detail) {
                    seq![]
                } else {
                    seq![LoopEvent::ButtonReleased { button: button_of(detail), state }]
                }
            },
            XcbEvent::KeyPress(k) => seq![LoopEvent::KeyPressed(k)],
            XcbEvent::KeyRelease(k) => seq![LoopEvent::KeyReleased(k)],
            XcbEvent::Other => seq![],
        }
    }

    /// Whether `event` is the window manager's request to close the window.
    pub open spec fn is_close_request<K>(&self, event: XcbEvent<K>) -> bool {
        event matches XcbEvent::ClientMessage { format, data0 } && format == 32 && data0
            == self.delete_atom()
    }

    /// A loop for a window whose close requests carry the atom
    /// `wm_delete_window`; it is not running yet.
    pub fn new(wm_delete_window: u32) -> (el: EventLoop)
        ensures
            el.pending_size() is None,
            el.delete_atom() == wm_delete_window,
            el.interval() == FRAME_INTERVAL_NANOS,
            el.last_frame_at() == 0,
            !el.running(),
    {
        EventLoop {
            new_physical_size: None,
            wm_delete_window,
            frame_interval: FRAME_INTERVAL_NANOS,
            last_frame: 0,
            event_loop_running: false,
        }
    }

    pub fn is_running(&self) -> (running: bool)
        ensures
            running == self.running(),
    {
        self.event_loop_running
    }

    /// Starts the loop at time `now`: the first frame is due one interval later.
    pub fn start(&mut self, now: u64)
        ensures
            final(self).running(),
            final(self).last_frame_at() == now,
            final(self).pending_size() == old(self).pending_size(),
            final(self).delete_atom() == old(self).delete_atom(),
            final(self).interval() == old(self).interval(),
    {
        self.last_frame = now;
        self.event_loop_running = true;
    }

    /// When the last frame was drawn, by the frame clock.
    pub fn last_frame(&self) -> (at: u64)
        ensures
            at == self.last_frame_at(),
    {
        self.last_frame
    }

    pub fn frame_interval(&self) -> (interval: u64)
        ensures
            interval == self.interval(),
    {
        self.frame_interval
    }

    /// When the next frame is due.
    pub fn next_frame(&self) -> (next: u64)
        requires
            self.last_frame_at() + self.interval() <= u64::MAX,
        ensures
            next == self.last_frame_at() + self.interval(),
    {
        self.last_frame + self.frame_interval
    }

    /// Whether the frame due at `next` is due at `now`.
    pub fn frame_due(next: u64, now: u64) -> (due: bool)
        ensures
            due == (now >= next),
    {
        now >= next
    }

    /// Moves the frame clock after the frame due at `next` was drawn at `now`.
    pub fn advance_frame(&mut self, next: u64, now: u64)
        ensures
            final(self).last_frame_at() == advanced_frame(
                next as int,
                now as int,
                old(self).interval() as int,
            ),
            next <= now ==> final(self).last_frame_at() <= now,
            next <= now ==> final(self).last_frame_at() + old(self).interval() >= now,
            final(self).running() == old(self).running(),
            final(self).pending_size() == old(self).pending_size(),
            final(self).delete_atom() == old(self).delete_atom(),
            final(self).interval() == old(self).interval(),
    {
        if now >= self.frame_interval && now - self.frame_interval > next {
            self.last_frame = now - self.frame_interval;
        } else {
            self.last_frame = next;
        }
    }

    /// The timeout of the poll that waits for X events until the frame due
    /// at `next`.
    pub fn poll_timeout_ms(next: u64, now: u64) -> (timeout: u16)
        ensures
            timeout == poll_timeout_of(next as int, now as int),
            timeout < 1000,
    {
        if next > now {
            let left = next - now;
            let millis = (left % 1_000_000_000) / 1_000_000;
            assert(millis < 1000) by (nonlinear_arith)
                requires
                    millis == (left % 1_000_000_000) / 1_000_000,
            ;
            millis as u16
        } else {
            0
        }
    }

    /// Forgets a size waiting from an earlier batch of X events.
    pub fn begin_drain(&mut self)
        ensures
            final(self).pending_size() is None,
            final(self).running() == old(self).running(),
            final(self).delete_atom() == old(self).delete_atom(),
            final(self).interval() == old(self).interval(),
            final(self).last_frame_at() == old(self).last_frame_at(),
    {
        self.new_physical_size = None;
    }

    /// Ends a batch of X events: a waiting size is reported (and becomes the
    /// window's size).
    pub fn finish_drain<K>(&mut self) -> (resized: Option<LoopEvent<K>>)
        ensures
            resized == (match old(self).pending_size() {
                Some(s) => Some(LoopEvent::<K>::Resized(s)),
                None => None,
            }),
            final(self).pending_size() is None,
            final(self).running() == old(self).running(),
            final(self).delete_atom() == old(self).delete_atom(),
            final(self).interval() == old(self).interval(),
            final(self).last_frame_at() == old(self).last_frame_at(),
    {
        match self.new_physical_size.take() {
            Some(size) => Some(LoopEvent::Resized(size)),
            None => None,
        }
    }

    /// The window must close: tells the handler and stops the loop.
    pub fn handle_must_close<K>(&mut self) -> (event: LoopEvent<K>)
        ensures
            event == LoopEvent::<K>::WillClose,
            !final(self).running(),
            final(self).pending_size() == old(self).pending_size(),
            final(self).delete_atom() == old(self).delete_atom(),
            final(self).interval() == old(self).interval(),
            final(self).last_frame_at() == old(self).last_frame_at(),
    {
        self.event_loop_running = false;
        LoopEvent::WillClose
    }

    /// The window manager asked to close the window.
    pub fn handle_close_requested<K>(&mut self) -> (event: LoopEvent<K>)
        ensures
            event == LoopEvent::<K>::WillClose,
            !final(self).running(),
            final(self).pending_size() == old(self).pending_size(),
            final(self).delete_atom() == old(self).delete_atom(),
            final(self).interval() == old(self).interval(),
            final(self).last_frame_at() == old(self).last_frame_at(),
    {
        self.handle_must_close()
    }

    /// After a poll: a dropped parent window or a close request closes the
    /// window, once.
    pub fn after_poll<K>(&mut self, parent_did_drop: bool, close_requested: bool) -> (event:
        Option<LoopEvent<K>>)
        ensures
            (parent_did_drop || close_requested) ==> event == Some(LoopEvent::<K>::WillClose)
                && !final(self).running(),
            !(parent_did_drop || close_requested) ==> event is None && final(self).running()
                == old(self).running(),
            final(self).pending_size() == old(self).pending_size(),
            final(self).delete_atom() == old(self).delete_atom(),
            final(self).interval() == old(self).interval(),
            final(self).last_frame_at() == old(self).last_frame_at(),
    {
        if parent_did_drop {
            Some(self.handle_must_close())
        } else if close_requested {
            Some(self.handle_must_close())
        } else {
            None
        }
    }

    /// Handles one X event for a window of physical size `window_size`:
    /// returns the events for the window handler, in order, and records the
    /// size of a configure event.
    pub fn handle_xcb_event<K>(&mut self, event: XcbEvent<K>, window_size: PhySize) -> (out: Vec<
        LoopEvent<K>,
    >)
        ensures
            out@ == old(self).dispatched(event),
            final(self).running() == (old(self).running() && !old(self).is_close_request(event)),
            final(self).pending_size() == (match event {
                XcbEvent::ConfigureNotify { width, height } => configure_step(
                    window_size,
                    old(self).pending_size(),
                    PhySize { width: width as u32, height: height as u32 },
                ),
                _ => old(self).pending_size(),
            }),
            final(self).delete_atom() == old(self).delete_atom(),
            final(self).interval() == old(self).interval(),
            final(self).last_frame_at() == old(self).last_frame_at(),
    {
        let mut out: Vec<LoopEvent<K>> = Vec::new();
        match event {
            XcbEvent::ClientMessage { format, data0 } => {
                if format == 32 && data0 == self.wm_delete_window {
                    let e = self.handle_close_requested();
                    out.push(e);
                }
            },
            XcbEvent::ConfigureNotify { width, height } => {
                let new_physical_size = PhySize::new(width as u32, height as u32);
                if self.new_physical_size.is_some() || new_physical_size != window_size {
                    self.new_physical_size = Some(new_physical_size);
                }
            },
            XcbEvent::MotionNotify { event_x, event_y, state } => {
                let physical_pos = PhyPoint::new(event_x as i32, event_y as i32);
                out.push(LoopEvent::CursorMoved { position: physical_pos, state });
            },
            XcbEvent::EnterNotify { event_x, event_y, state } => {
                out.push(LoopEvent::CursorEntered);
                let physical_pos = PhyPoint::new(event_x as i32, event_y as i32);
                out.push(LoopEvent::CursorMoved { position: physical_pos, state });
            },
            XcbEvent::LeaveNotify => {
                out.push(LoopEvent::CursorLeft);
            },
            XcbEvent::ButtonPress { detail, state } => {
                if 4 <= detail && detail <= 7 {
                    let (lines_x, lines_y): (i8, i8) = match detail {
                        4 => (0, 1),
                        5 => (0, -1),
                        6 => (-1, 0),
                        _ => (1, 0),
                    };
                    out.push(LoopEvent::WheelScrolled { lines_x, lines_y, state });
                } else {
                    let button_id = mouse_id(detail);
                    out.push(LoopEvent::ButtonPressed { button: button_id, state });
                }
            },
            XcbEvent::ButtonRelease { detail, state } => {
                if !(4 <= detail && detail <= 7) {
                    let button_id = mouse_id(detail);
                    out.push(LoopEvent::ButtonReleased { button: button_id, state });
                }
            },
            XcbEvent::KeyPress(k) => {
                out.push(LoopEvent::KeyPressed(k));
            },
            XcbEvent::KeyRelease(k) => {
                out.push(LoopEvent::KeyReleased(k));
            },
            XcbEvent::Other => {},
        }
        proof {
            assert(out@ =~= old(self).dispatched(event));
        }
        out
    }
}


/// A batch of configure events for a window of size `size` that starts with
/// no size waiting leaves the last configured size waiting when one of them
/// differs from the window's size, and nothing waiting otherwise: a resize is
/// reported at most once per batch, with the latest size.
pub proof fn lemma_configure_batch(size: PhySize, news: Seq<PhySize>)
    ensures
        configure_fold(size, None, news) == (if exists|i: int|
            0 <= i < news.len() && #[trigger] news[i] != size {
            Some(news.last())
        } else {
            None::<PhySize>
        }),
    decreases news.len(),
{
    if news.len() == 0 {
    } else if news[0] != size {
        lemma_configure_waiting(size, news[0], news.drop_first());
        if news.len() == 1 {
        } else {
            assert(news.drop_first().last() == news.last());
        }
    } else {
        lemma_configure_batch(size, news.drop_first());
        assert forall|i: int| 0 <= i < news.drop_first().len() implies news.drop_first()[i]
            == news[i + 1] by {}
        if exists|i: int| 0 <= i < news.len() && #[trigger] news[i] != size {
            let i = choose|i: int| 0 <= i < news.len() && #[trigger] news[i] != size;
            assert(news.drop_first()[i - 1] != size);
            assert(news.drop_first().last() == news.last());
        } else {
            assert forall|i: int| 0 <= i < news.drop_first().len() implies #[trigger] news.drop_first()[i]
                == size by {
                assert(news[i + 1] == size);
            }
        }
    }
}

/// Once a size is waiting, each further configure event replaces it.
pub proof fn lemma_configure_waiting(size: PhySize, waiting: PhySize, news: Seq<PhySize>)
    ensures
        configure_fold(size, Some(waiting), news) == (if news.len() == 0 {
            Some(waiting)
        } else {
            Some(news.last())
        }),
    decreases news.len(),
{
    if news.len() > 0 {
        lemma_configure_waiting(size, news[0], news.drop_first());
        if news.len() > 1 {
            assert(news.drop_first().last() == news.last());
        }
    }
}

/// The loop tells the handler that the window will close exactly for the
/// window manager's close request, and the wheel buttons are never reported
/// as button presses or releases.
pub proof fn lemma_dispatch_close_and_wheel<K>(el: EventLoop, event: XcbEvent<K>)
    ensures
        el.dispatched(event).contains(LoopEvent::WillClose) <==> el.is_close_request(event),
        event matches XcbEvent::ButtonPress { detail, .. } && is_wheel_button(detail) ==> el.dispatched(
            event,
        ).len() == 1 && el.dispatched(event)[0] is WheelScrolled,
        event matches XcbEvent::ButtonRelease { detail, .. } && is_wheel_button(detail) ==> el.dispatched(
            event,
        ).len() == 0,
{
    if el.is_close_request(event) {
        assert(el.dispatched(event)[0] == LoopEvent::<K>::WillClose);
    }
    if el.dispatched(event).contains(LoopEvent::WillClose) {
        let i = choose|i: int|
            0 <= i < el.dispatched(event).len() && el.dispatched(event)[i] == LoopEvent::<
                K,
            >::WillClose;
        assert(el.dispatched(event)[i] == LoopEvent::<K>::WillClose);
    }
}

/// What the loop hands on to the window handler: a frame, or an event.
pub enum LoopOutput<K> {
    Frame,
    Event(LoopEvent<K>),
}

/// One pass of the loop as the outside world makes it: whether the frame
/// clock has a frame due at its start, the X events its drains read, and,
/// after the poll, whether the parent window was dropped and whether the
/// window asked to close.
pub type LoopPass<K> = (bool, Seq<XcbEvent<K>>, bool, bool);

/// The events the loop hands on for a run of X events, in order.
pub open spec fn handed_out<K>(el: EventLoop, events: Seq<XcbEvent<K>>) -> Seq<LoopOutput<K>>
    decreases events.len(),
{
    if events.len() == 0 {
        seq![]
    } else {
        el.dispatched(events[0]).map_values(|e: LoopEvent<K>| LoopOutput::Event(e)) + handed_out(
            el,
            events.drop_first(),
        )
    }
}

/// Whether one of the X events is the window manager's close request.
pub open spec fn has_close_request<K>(el: EventLoop, events: Seq<XcbEvent<K>>) -> bool {
    exists|i: int| 0 <= i < events.len() && #[trigger] el.is_close_request(events[i])
}

/// What a pass of a running loop hands on: the frame, if one is due, then
/// the events of the X events, then the close when the parent window was
/// dropped or the window asked to close. (The size reports of the drains
/// neither draw nor close and are left out.)
pub open spec fn pass_outputs<K>(el: EventLoop, pass: LoopPass<K>) -> Seq<LoopOutput<K>> {
    (if pass.0 {
        seq![LoopOutput::Frame]
    } else {
        seq![]
    }) + handed_out(el, pass.1) + (if pass.2 || pass.3 {
        seq![LoopOutput::Event(LoopEvent::WillClose)]
    } else {
        seq![]
    })
}

/// Whether the loop still runs after a pass it started running: a close
/// request among the X events, a dropped parent window or the window's
/// own request stops it.
pub open spec fn runs_after<K>(el: EventLoop, pass: LoopPass<K>) -> bool {
    !(has_close_request(el, pass.1) || pass.2 || pass.3)
}

/// What the loop hands on over a run of passes: it makes passes while it
/// runs, and stops for good once it stopped.
pub open spec fn run_outputs<K>(el: EventLoop, running: bool, passes: Seq<LoopPass<K>>) -> Seq<
    LoopOutput<K>,
>
    decreases passes.len(),
{
    if !running || passes.len() == 0 {
        seq![]
    } else {
        pass_outputs(el, passes[0]) + run_outputs(
            el,
            runs_after(el, passes[0]),
            passes.drop_first(),
        )
    }
}

/// The events of X events hold no frame, and tell that the window will
/// close exactly when one of the X events is the close request.
proof fn lemma_handed_out<K>(el: EventLoop, events: Seq<XcbEvent<K>>)
    ensures
        forall|k: int|
            0 <= k < handed_out(el, events).len() ==> !(#[trigger] handed_out(el, events)[k] is Frame),
        handed_out(el, events).contains(LoopOutput::Event(LoopEvent::WillClose))
            <==> has_close_request(el, events),
    decreases events.len(),
{
    if events.len() > 0 {
        let rest = events.drop_first();
        lemma_handed_out(el, rest);
        lemma_dispatch_close_and_wheel(el, events[0]);
        let first = el.dispatched(events[0]).map_values(|e: LoopEvent<K>| LoopOutput::Event(e));
        let all = handed_out(el, events);
        let close = LoopOutput::<K>::Event(LoopEvent::WillClose);
        assert(all == first + handed_out(el, rest));
        assert forall|k: int| 0 <= k < all.len() implies !(#[trigger] all[k] is Frame) by {
            if k >= first.len() {
                assert(all[k] == handed_out(el, rest)[k - first.len()]);
            }
        }
        if all.contains(close) {
            let k = choose|k: int| 0 <= k < all.len() && all[k] == close;
            if k < first.len() {
                assert(el.dispatched(events[0])[k] == LoopEvent::<K>::WillClose);
                assert(el.dispatched(events[0]).contains(LoopEvent::WillClose));
                assert(el.is_close_request(events[0]));
            } else {
                assert(handed_out(el, rest)[k - first.len()] == close);
                assert(handed_out(el, rest).contains(close));
                let i = choose|i: int| 0 <= i < rest.len() && #[trigger] el.is_close_request(rest[i]);
                assert(events[i + 1] == rest[i]);
            }
        }
        if has_close_request(el, events) {
            let i = choose|i: int| 0 <= i < events.len() && #[trigger] el.is_close_request(events[i]);
            if i == 0 {
                let j = choose|j: int|
                    0 <= j < el.dispatched(events[0]).len() && el.dispatched(events[0])[j]
                        == LoopEvent::<K>::WillClose;
                assert(all[j] == close);
            } else {
                assert(rest[i - 1] == events[i]);
                assert(has_close_request(el, rest));
                let j = choose|j: int|
                    0 <= j < handed_out(el, rest).len() && handed_out(el, rest)[j] == close;
                assert(all[j + first.len()] == close);
            }
        }
    }
}

/// The loop never draws a frame after it told the window handler that the
/// window will close, and it stops only after telling it so: a pass that
/// stops the loop hands out the close, and a pass whose poll finds the
/// parent window dropped or the window asking to close hands it out in
/// that same pass.
pub proof fn lemma_no_frame_after_close<K>(el: EventLoop, passes: Seq<LoopPass<K>>)
    ensures
        forall|i: int, j: int|
            0 <= i < j < run_outputs(el, true, passes).len() && #[trigger] run_outputs(
                el,
                true,
                passes,
            )[i] == LoopOutput::<K>::Event(LoopEvent::WillClose) ==> !(#[trigger] run_outputs(
                el,
                true,
                passes,
            )[j] is Frame),
        forall|p: LoopPass<K>|
            !runs_after(el, p) ==> #[trigger] pass_outputs(el, p).contains(
                LoopOutput::Event(LoopEvent::WillClose),
            ),
        forall|p: LoopPass<K>|
            (p.2 || p.3) ==> #[trigger] pass_outputs(el, p).last() == LoopOutput::<K>::Event(
                LoopEvent::WillClose,
            ) && !runs_after(el, p),
    decreases passes.len(),
{
    let close = LoopOutput::<K>::Event(LoopEvent::WillClose);
    assert forall|p: LoopPass<K>| !runs_after(el, p) implies #[trigger] pass_outputs(el, p).contains(
        close,
    ) by {
        lemma_handed_out(el, p.1);
        let out = pass_outputs(el, p);
        let head = (if p.0 {
            seq![LoopOutput::<K>::Frame]
        } else {
            seq![]
        });
        let mid = handed_out(el, p.1);
        if p.2 || p.3 {
            assert(out[out.len() - 1] == close);
        } else {
            let k = choose|k: int| 0 <= k < mid.len() && mid[k] == close;
            assert(out[head.len() + k] == close);
        }
    }
    if passes.len() > 0 {
        let p = passes[0];
        let rest = passes.drop_first();
        lemma_no_frame_after_close(el, rest);
        lemma_handed_out(el, p.1);
        let out = run_outputs(el, true, passes);
        let first = pass_outputs(el, p);
        let later = run_outputs(el, runs_after(el, p), rest);
        assert(out == first + later);
        let head = (if p.0 {
            seq![LoopOutput::<K>::Frame]
        } else {
            seq![]
        });
        let mid = handed_out(el, p.1);
        assert forall|i: int, j: int|
            0 <= i < j < out.len() && #[trigger] out[i] == close implies !(#[trigger] out[j] is Frame) by {
            if i < first.len() {
                // the close was handed out in the first pass, which stops the loop
                if i < head.len() + mid.len() {
                    assert(i >= head.len());
                    assert(mid[i - head.len()] == close);
                    assert(mid.contains(close));
                } else {
                    assert(p.2 || p.3);
                }
                assert(!runs_after(el, p));
                assert(later.len() == 0);
                if j >= head.len() + mid.len() {
                } else {
                    assert(out[j] == mid[j - head.len()]);
                }
            } else {
                assert(later[i - first.len()] == close);
                assert(out[j] == later[j - first.len()]);
                if runs_after(el, p) {
                } else {
                    assert(later.len() == 0);
                }
            }
        }
    }
}

/// The modifier mask an X event carries, if it carries one.
pub open spec fn x_state<K>(event: XcbEvent<K>) -> Option<u16> {
    match event {
        XcbEvent::MotionNotify { state, .. } => Some(state),
        XcbEvent::EnterNotify { state, .. } => Some(state),
        XcbEvent::ButtonPress { state, .. } => Some(state),
        XcbEvent::ButtonRelease { state, .. } => Some(state),
        _ => None,
    }
}

/// The modifier mask an event for the window handler carries, if it
/// carries one.
pub open spec fn loop_state<K>(event: LoopEvent<K>) -> Option<u16> {
    match event {
        LoopEvent::CursorMoved { state, .. } => Some(state),
        LoopEvent::WheelScrolled { state, .. } => Some(state),
        LoopEvent::ButtonPressed { state, .. } => Some(state),
        LoopEvent::ButtonReleased { state, .. } => Some(state),
        _ => None,
    }
}

/// The modifiers held during an X event reach the window handler
/// unchanged: every handed-out event that carries a modifier mask carries
/// the X event's own, and only X events with a mask hand such events out.
/// A press of a button other than the wheel is handed out as one press of
/// the button with that number, and its release as one release.
pub proof fn lemma_modifiers_carried<K>(el: EventLoop, event: XcbEvent<K>)
    ensures
        forall|i: int|
            0 <= i < el.dispatched(event).len() && (#[trigger] loop_state(el.dispatched(event)[i]))
                is Some ==> x_state(event) is Some && loop_state(el.dispatched(event)[i])
                == x_state(event),
        event matches XcbEvent::ButtonPress { detail, state } ==> (!is_wheel_button(detail)
            ==> el.dispatched(event) == seq![LoopEvent::<K>::ButtonPressed { button: button_of(detail), state }]),
        event matches XcbEvent::ButtonRelease { detail, state } ==> (!is_wheel_button(detail)
            ==> el.dispatched(event) == seq![LoopEvent::<K>::ButtonReleased { button: button_of(detail), state }]),
{
}

/// Frames do not pile up: after a frame that was due, the clock stands no
/// later than the drawing time, no earlier than the time it was due, and
/// the next frame is due no earlier than the drawing time.
pub proof fn lemma_frame_clock(next: int, now: int, interval: int)
    requires
        0 <= interval,
        next <= now,
    ensures
        next <= advanced_frame(next, now, interval) <= now,
        advanced_frame(next, now, interval) + interval >= now,
{
}

/// Each X button number other than the five named ones is reported as
/// itself, and distinct button numbers give distinct buttons.
pub proof fn lemma_button_numbers(a: u8, b: u8)
    ensures
        button_of(a) is Other <==> !(a == 1 || a == 2 || a == 3 || a == 8 || a == 9),
        a != b ==> button_of(a) != button_of(b),
{
}

} // verus!
