//! The window side of the shell: commands the program sends to the window,
//! and when the window handler still passes events on.

pub mod state;

use vstd::prelude::*;

use crate::event::{Event, EventStatus, WindowEvent};
use crate::mouse_cursor::MouseCursor;

verus! {

/// A command for the window, queued by the program and carried out by the
/// window handler after each event and frame. `S` is the type of a new
/// logical size.
pub enum WindowCommand<S> {
    CloseWindow,
    ResizeWindow(S),
    Focus,
    SetCursorIcon(MouseCursor),
}

/// Whether the event announces that the window will close.
pub open spec fn is_exit_request<P, D, I>(event: Event<P, D, I>) -> bool {
    event matches Event::Window(WindowEvent::WillClose)
}

pub fn requests_exit<P, D, I>(event: &Event<P, D, I>) -> (exit: bool)
    ensures
        exit == is_exit_request(*event),
{
    match event {
        Event::Window(WindowEvent::WillClose) => true,
        _ => false,
    }
}

/// What the window handler does with an event.
#[derive(Debug, Copy, Clone, PartialEq, Eq, Structural)]
pub enum EventRoute {
    /// The program has been told to close: the event is ignored.
    Ignore,
    /// The event announces the close: the program is told, the event is
    /// ignored, and from now on every event is.
    Close,
    /// The event goes to the program, whose status is returned; the window
    /// commands are carried out afterwards.
    Forward,
}

/// The route of an event, given whether the close was already passed on and
/// whether the event announces it.
pub open spec fn route_of(closed: bool, exit: bool) -> EventRoute {
    if closed {
        EventRoute::Ignore
    } else if exit {
        EventRoute::Close
    } else {
        EventRoute::Forward
    }
}

/// The routes of a run of events, starting with the given close state.
pub open spec fn routes(closed: bool, exits: Seq<bool>) -> Seq<EventRoute>
    decreases exits.len(),
{
    if exits.len() == 0 {
        seq![]
    } else {
        seq![route_of(closed, exits[0])] + routes(closed || exits[0], exits.drop_first())
    }
}

/// The state the window handler decides on: whether it has passed the
/// close on to the program.
pub struct HandlerState {
    processed_close_signal: bool,
}

impl HandlerState {
    pub closed spec fn closed(&self) -> bool {
        self.processed_close_signal
    }

    pub fn new() -> (s: HandlerState)
        ensures
            !s.closed(),
    {
        HandlerState { processed_close_signal: false }
    }

    pub fn is_closed(&self) -> (closed: bool)
        ensures
            closed == self.closed(),
    {
        self.processed_close_signal
    }

    /// Whether a frame runs: none does once the close was passed on.
    pub fn runs_frame(&self) -> (runs: bool)
        ensures
            runs == !self.closed(),
    {
        !self.processed_close_signal
    }

    /// Routes an event; `exit` tells whether it announces the close.
    pub fn on_event(&mut self, exit: bool) -> (route: EventRoute)
        ensures
            route == route_of(old(self).closed(), exit),
            final(self).closed() == (old(self).closed() || exit),
    {
        if self.processed_close_signal {
            return EventRoute::Ignore;
        }
        if exit {
            self.processed_close_signal = true;
            EventRoute::Close
        } else {
            EventRoute::Forward
        }
    }
}

/// The status the shell records for the window handler once the program
/// has processed the events of a window event: the program never claims an
/// event for itself, so the host may always handle it too.
pub fn processed_status() -> (status: EventStatus)
    ensures
        status == EventStatus::Ignored,
{
    EventStatus::Ignored
}

/// The status the window handler answers an event with, given its route
/// and the status the shell last recorded: only a forwarded event is
/// answered with the recorded status.
pub open spec fn status_for(route: EventRoute, recorded: EventStatus) -> EventStatus {
    match route {
        EventRoute::Forward => recorded,
        _ => EventStatus::Ignored,
    }
}

pub fn event_status(route: EventRoute, recorded: EventStatus) -> (status: EventStatus)
    ensures
        status == status_for(route, recorded),
{
    match route {
        EventRoute::Forward => recorded,
        _ => EventStatus::Ignored,
    }
}

/// The statuses the window handler answers a run of events with, starting
/// with the given close state; `recorded[i]` is the status the shell had
/// recorded when the `i`-th event was answered.
pub open spec fn statuses(closed: bool, exits: Seq<bool>, recorded: Seq<EventStatus>) -> Seq<
    EventStatus,
> {
    Seq::new(exits.len(), |i: int| status_for(routes(closed, exits)[i], recorded[i]))
}

/// The window handler answers every event with `Ignored`, whatever the
/// events are and whether the close was already passed on, as long as the
/// statuses the shell records are the one it records after processing.
pub proof fn lemma_status_always_ignored(closed: bool, exits: Seq<bool>, recorded: Seq<EventStatus>)
    requires
        recorded.len() == exits.len(),
        forall|i: int| 0 <= i < recorded.len() ==> #[trigger] recorded[i] == EventStatus::Ignored,
    ensures
        statuses(closed, exits, recorded).len() == exits.len(),
        forall|i: int|
            0 <= i < exits.len() ==> #[trigger] statuses(closed, exits, recorded)[i]
                == EventStatus::Ignored,
{
    assert forall|i: int| 0 <= i < exits.len() implies #[trigger] statuses(closed, exits, recorded)[i]
        == EventStatus::Ignored by {
        assert(recorded[i] == EventStatus::Ignored);
    }
}

/// The close is passed on to the program at most once, and every event
/// after it is ignored.
pub proof fn lemma_close_once(closed: bool, exits: Seq<bool>)
    ensures
        routes(closed, exits).len() == exits.len(),
        closed ==> forall|i: int|
            0 <= i < exits.len() ==> #[trigger] routes(closed, exits)[i] == EventRoute::Ignore,
        forall|i: int, j: int|
            0 <= i < j < exits.len() && #[trigger] routes(closed, exits)[i] == EventRoute::Close
                ==> #[trigger] routes(closed, exits)[j] == EventRoute::Ignore,
    decreases exits.len(),
{
    if exits.len() > 0 {
        let rest = exits.drop_first();
        let next = closed || exits[0];
        lemma_close_once(next, rest);
        let r = routes(closed, exits);
        assert(r =~= seq![route_of(closed, exits[0])] + routes(next, rest));
        assert forall|i: int| 0 < i < exits.len() implies #[trigger] r[i] == routes(
            next,
            rest,
        )[i - 1] by {}
        assert forall|i: int, j: int|
            0 <= i < j < exits.len() && #[trigger] r[i] == EventRoute::Close implies #[trigger] r[j]
            == EventRoute::Ignore by {
            if i == 0 {
                assert(next);
                assert(r[j] == routes(next, rest)[j - 1]);
            } else {
                assert(r[i] == routes(next, rest)[i - 1]);
                assert(r[j] == routes(next, rest)[j - 1]);
            }
        }
    }
}

} // verus!
