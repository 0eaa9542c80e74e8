//! When the shell updates the user interface and redraws the window.
//!
//! The shell's event loop runs outside the library; at each step it asks the
//! [`RedrawState`] what to do. Times are nanoseconds on a monotonic clock.

use vstd::prelude::*;

use crate::iced::shell::conversion::{convert_mouse_interaction, cursor_of, Interaction};
use crate::mouse_cursor::MouseCursor;

verus! {

/// When the user interface asks to be drawn again.
#[derive(Debug, Copy, Clone, PartialEq, Eq, Structural)]
pub enum RedrawRequest {
    NextFrame,
    At(u64),
    Wait,
}

/// What one update of the user interface during a redraw means for the
/// redraw loop.
#[derive(Debug, Copy, Clone, PartialEq, Eq, Structural)]
pub enum RedrawStep {
    /// Nothing changed: draw.
    Done,
    /// The layout keeps changing: draw anyway, with a warning.
    GiveUp,
    /// Update the program and the user interface and try again.
    Again,
}

/// How presenting a frame went.
#[derive(Debug, Copy, Clone, PartialEq, Eq, Structural)]
pub enum PresentOutcome {
    Presented,
    Timeout,
    Outdated,
    Lost,
    OutOfMemory,
    Other,
}

/// What to do after presenting a frame.
#[derive(Debug, Copy, Clone, PartialEq, Eq, Structural)]
pub enum PresentPlan {
    Done,
    /// Out of memory: this cannot be recovered from.
    Fatal,
    /// The surface changed: configure it again and redraw.
    ReconfigureSurface,
    /// The surface was lost: create it again and redraw.
    RecreateSurface,
    /// Another error: report it and redraw.
    ReportAndRedraw,
}

pub open spec fn redraw_step_of(
    messages_before: int,
    messages_after: int,
    layout_changed: bool,
    redraw_count: int,
) -> RedrawStep {
    if messages_before == messages_after && !layout_changed {
        RedrawStep::Done
    } else if redraw_count >= 2 {
        RedrawStep::GiveUp
    } else {
        RedrawStep::Again
    }
}

pub open spec fn present_plan_of(outcome: PresentOutcome) -> PresentPlan {
    match outcome {
        PresentOutcome::Presented => PresentPlan::Done,
        PresentOutcome::OutOfMemory => PresentPlan::Fatal,
        PresentOutcome::Outdated => PresentPlan::ReconfigureSurface,
        PresentOutcome::Lost => PresentPlan::RecreateSurface,
        _ => PresentPlan::ReportAndRedraw,
    }
}

/// The redraw state of the window: whether a redraw is requested, when one
/// is due, whether a baseview event was processed since the last frame, and
/// whether every frame redraws.
pub struct RedrawState {
    redraw_requested: bool,
    redraw_at: Option<u64>,
    did_process_event: bool,
    always_redraw: bool,
}

impl RedrawState {
    pub closed spec fn requested(&self) -> bool {
        self.redraw_requested
    }

    pub closed spec fn due_at(&self) -> Option<u64> {
        self.redraw_at
    }

    pub closed spec fn processed_event(&self) -> bool {
        self.did_process_event
    }

    pub closed spec fn always(&self) -> bool {
        self.always_redraw
    }

    /// The state when the program starts: the first frame is drawn.
    pub fn new(always_redraw: bool) -> (s: RedrawState)
        ensures
            s.requested(),
            s.due_at() is None,
            !s.processed_event(),
            s.always() == always_redraw,
    {
        RedrawState {
            redraw_requested: true,
            redraw_at: None,
            did_process_event: false,
            always_redraw,
        }
    }

    pub fn is_requested(&self) -> (requested: bool)
        ensures
            requested == self.requested(),
    {
        self.redraw_requested
    }

    /// Something outside the user interface needs a redraw.
    pub fn request_redraw(&mut self)
        ensures
            final(self).requested(),
            final(self).due_at() == old(self).due_at(),
            final(self).processed_event() == old(self).processed_event(),
            final(self).always() == old(self).always(),
    {
        self.redraw_requested = true;
    }

    /// A frame begins, with baseview events or program messages waiting or
    /// not. Returns whether the frame goes ahead: it does not when nothing
    /// asks for it.
    pub fn begin_frame(&mut self, have_events: bool, have_messages: bool) -> (go: bool)
        ensures
            go == (old(self).always() || old(self).requested() || old(self).processed_event()
                || have_events || have_messages),
            final(self).requested() == (old(self).requested() || old(self).always()),
            final(self).processed_event() == (old(self).processed_event() && !go),
            final(self).due_at() == old(self).due_at(),
            final(self).always() == old(self).always(),
    {
        if self.always_redraw {
            self.redraw_requested = true;
        }
        if !self.redraw_requested && !self.did_process_event && !have_events && !have_messages {
            return false;
        }
        self.did_process_event = false;
        true
    }

    /// Whether the user interface is updated, given whether this window has
    /// events and whether program messages wait.
    pub fn updates_ui(&self, have_window_events: bool, have_messages: bool) -> (update: bool)
        ensures
            update == (have_window_events || have_messages || self.requested()),
    {
        !(!have_window_events && !have_messages && !self.redraw_requested)
    }

    /// The user interface was updated and asks for a redraw; unless every
    /// frame redraws anyway, the request is recorded.
    pub fn on_ui_updated(&mut self, request: RedrawRequest)
        ensures
            final(self).requested() == (old(self).requested() || (!old(self).always()
                && request == RedrawRequest::NextFrame)),
            final(self).due_at() == (match request {
                RedrawRequest::At(t) if !old(self).always() => Some(t),
                _ => old(self).due_at(),
            }),
            final(self).processed_event() == old(self).processed_event(),
            final(self).always() == old(self).always(),
    {
        if !self.always_redraw {
            match request {
                RedrawRequest::NextFrame => {
                    self.redraw_requested = true;
                },
                RedrawRequest::At(at) => {
                    self.redraw_at = Some(at);
                },
                RedrawRequest::Wait => {},
            }
        }
    }

    /// A redraw that was due by `now` is requested, and no longer due.
    pub fn check_deadline(&mut self, now: u64)
        ensures
            match old(self).due_at() {
                Some(t) if t <= now => final(self).requested() && final(self).due_at() is None,
                _ => final(self).requested() == old(self).requested() && final(self).due_at()
                    == old(self).due_at(),
            },
            final(self).due_at() matches Some(t) ==> t > now,
            final(self).processed_event() == old(self).processed_event(),
            final(self).always() == old(self).always(),
    {
        if let Some(redraw_at) = self.redraw_at {
            if redraw_at <= now {
                self.redraw_requested = true;
                self.redraw_at = None;
            }
        }
    }

    /// Whether the window is drawn: it is when a redraw is requested or the
    /// surface is behind the window's size.
    pub fn wants_draw(&mut self, surface_version: u64, state_surface_version: u64) -> (draw: bool)
        ensures
            final(self).requested() == (old(self).requested() || surface_version
                != state_surface_version),
            draw == final(self).requested(),
            final(self).due_at() == old(self).due_at(),
            final(self).processed_event() == old(self).processed_event(),
            final(self).always() == old(self).always(),
    {
        if surface_version != state_surface_version {
            self.redraw_requested = true;
        }
        self.redraw_requested
    }

    /// The window was drawn; the user interface's last update asked for the
    /// given redraw, if it asked for any.
    pub fn after_draw(&mut self, request: Option<RedrawRequest>)
        ensures
            final(self).requested() == (request == Some(RedrawRequest::NextFrame)),
            final(self).due_at() == (match request {
                Some(RedrawRequest::At(t)) => Some(t),
                _ => old(self).due_at(),
            }),
            final(self).processed_event() == old(self).processed_event(),
            final(self).always() == old(self).always(),
    {
        self.redraw_requested = false;
        match request {
            Some(RedrawRequest::NextFrame) => {
                self.redraw_requested = true;
            },
            Some(RedrawRequest::At(at)) => {
                self.redraw_at = Some(at);
            },
            _ => {},
        }
    }

    /// After presenting a frame: every failure but running out of memory
    /// asks for another redraw.
    pub fn after_present(&mut self, outcome: PresentOutcome) -> (plan: PresentPlan)
        ensures
            plan == present_plan_of(outcome),
            final(self).requested() == (old(self).requested() || (outcome
                != PresentOutcome::Presented && outcome != PresentOutcome::OutOfMemory)),
            final(self).due_at() == old(self).due_at(),
            final(self).processed_event() == old(self).processed_event(),
            final(self).always() == old(self).always(),
    {
        match outcome {
            PresentOutcome::Presented => PresentPlan::Done,
            PresentOutcome::OutOfMemory => PresentPlan::Fatal,
            PresentOutcome::Outdated => {
                self.redraw_requested = true;
                PresentPlan::ReconfigureSurface
            },
            PresentOutcome::Lost => {
                self.redraw_requested = true;
                PresentPlan::RecreateSurface
            },
            _ => {
                self.redraw_requested = true;
                PresentPlan::ReportAndRedraw
            },
        }
    }

    /// A baseview event arrived: a change of focus needs a redraw.
    pub fn on_baseview_event(&mut self, focus_changed: bool)
        ensures
            final(self).requested() == (old(self).requested() || focus_changed),
            final(self).due_at() == old(self).due_at(),
            final(self).processed_event() == old(self).processed_event(),
            final(self).always() == old(self).always(),
    {
        if focus_changed {
            self.redraw_requested = true;
        }
    }

    /// The baseview event was converted. When toolkit events wait, the next
    /// frame goes ahead; when none wait, the returned flag tells whether the
    /// event's status must be reported as ignored (only for events whose
    /// status the window handler waits for).
    pub fn after_conversion(&mut self, events_waiting: bool, do_send_status: bool) -> (report_ignored:
        bool)
        ensures
            report_ignored == (!events_waiting && do_send_status),
            final(self).processed_event() == (old(self).processed_event() || events_waiting),
            final(self).requested() == old(self).requested(),
            final(self).due_at() == old(self).due_at(),
            final(self).always() == old(self).always(),
    {
        if !events_waiting {
            return do_send_status;
        }
        self.did_process_event = true;
        false
    }
}

/// Whether the window has an area to draw into.
pub fn drawable(width: u32, height: u32) -> (draw: bool)
    ensures
        draw == (width != 0 && height != 0),
{
    !(width == 0 || height == 0)
}

/// One update of the user interface while redrawing: it is done when no
/// message was produced and the layout held, and it gives up after the
/// third update.
pub fn redraw_step(
    messages_before: usize,
    messages_after: usize,
    layout_changed: bool,
    redraw_count: u32,
) -> (step: RedrawStep)
    ensures
        step == redraw_step_of(
            messages_before as int,
            messages_after as int,
            layout_changed,
            redraw_count as int,
        ),
{
    if messages_before == messages_after && !layout_changed {
        RedrawStep::Done
    } else if redraw_count >= 2 {
        RedrawStep::GiveUp
    } else {
        RedrawStep::Again
    }
}

/// The cursor to show when the interaction changes from `current` to `new`.
pub fn cursor_update(current: Interaction, new: Interaction) -> (cursor: Option<MouseCursor>)
    ensures
        cursor == (if current != new {
            Some(cursor_of(new))
        } else {
            None
        }),
{
    if current != new {
        Some(convert_mouse_interaction(new))
    } else {
        None
    }
}

/// What the shell does with the user interface while redrawing a frame.
#[derive(Debug, Copy, Clone, PartialEq, Eq, Structural)]
pub enum RedrawAction {
    /// Update the user interface with the redraw request.
    Update,
    /// Draw the user interface.
    Draw,
}

/// The steps of the redraw loop of a frame from the update with the given
/// count on, given the outcome of each update in turn (the number of
/// messages before and after it, and whether the layout changed): the loop
/// goes on while a step asks for another update, and the count goes up
/// with each.
pub open spec fn redraw_steps(count: int, outcomes: Seq<(int, int, bool)>) -> Seq<RedrawStep>
    decreases outcomes.len(),
{
    if outcomes.len() == 0 {
        seq![]
    } else {
        let step = redraw_step_of(outcomes[0].0, outcomes[0].1, outcomes[0].2, count);
        if step == RedrawStep::Again {
            seq![step] + redraw_steps(count + 1, outcomes.drop_first())
        } else {
            seq![step]
        }
    }
}

/// What the shell does while redrawing a frame: one update per step of the
/// redraw loop, then one draw.
pub open spec fn redraw_actions(outcomes: Seq<(int, int, bool)>) -> Seq<RedrawAction> {
    Seq::new(redraw_steps(0, outcomes).len(), |i: int| RedrawAction::Update).push(
        RedrawAction::Draw,
    )
}

/// The redraw loop takes at most as many steps as it has outcomes and at
/// most `3 - count` from the count `count` on, each but the last asks for
/// another update, and the last does not when the outcomes run that far.
proof fn lemma_redraw_steps(count: int, outcomes: Seq<(int, int, bool)>)
    requires
        0 <= count <= 2,
    ensures
        redraw_steps(count, outcomes).len() <= outcomes.len(),
        redraw_steps(count, outcomes).len() <= 3 - count,
        outcomes.len() > 0 ==> redraw_steps(count, outcomes).len() >= 1,
        forall|i: int|
            0 <= i < redraw_steps(count, outcomes).len() - 1 ==> #[trigger] redraw_steps(
                count,
                outcomes,
            )[i] == RedrawStep::Again,
        outcomes.len() >= 3 - count ==> redraw_steps(count, outcomes).last() != RedrawStep::Again,
    decreases outcomes.len(),
{
    if outcomes.len() > 0 {
        let step = redraw_step_of(outcomes[0].0, outcomes[0].1, outcomes[0].2, count);
        if step == RedrawStep::Again {
            let rest = outcomes.drop_first();
            lemma_redraw_steps(count + 1, rest);
            let steps = redraw_steps(count, outcomes);
            assert(steps == seq![step] + redraw_steps(count + 1, rest));
            assert forall|i: int| 0 <= i < steps.len() - 1 implies #[trigger] steps[i]
                == RedrawStep::Again by {
                if i > 0 {
                    assert(steps[i] == redraw_steps(count + 1, rest)[i - 1]);
                }
            }
            if outcomes.len() >= 3 - count {
                assert(steps.last() == redraw_steps(count + 1, rest).last());
            }
        }
    }
}

/// Each frame the shell redraws, it updates the user interface at least
/// once and at most three times, then draws it exactly once: it updates
/// again only while an update produced messages or changed the layout, and
/// the third update is the last whatever it gives.
pub proof fn lemma_redraw_frame(outcomes: Seq<(int, int, bool)>)
    requires
        outcomes.len() >= 3,
    ensures
        1 <= redraw_steps(0, outcomes).len() <= 3,
        forall|i: int|
            0 <= i < redraw_steps(0, outcomes).len() - 1 ==> #[trigger] redraw_steps(0, outcomes)[i]
                == RedrawStep::Again,
        redraw_steps(0, outcomes).last() != RedrawStep::Again,
        redraw_actions(outcomes).len() <= 4,
        redraw_actions(outcomes).last() == RedrawAction::Draw,
        forall|i: int|
            0 <= i < redraw_actions(outcomes).len() - 1 ==> #[trigger] redraw_actions(outcomes)[i]
                == RedrawAction::Update,
{
    lemma_redraw_steps(0, outcomes);
}

/// The redraw loop ends: counting from zero, the update with count two
/// never asks for another, so the user interface is updated at most three
/// times per redraw.
pub proof fn lemma_redraw_loop_bounded(before: int, after: int, changed: bool, count: int)
    requires
        count >= 2,
    ensures
        redraw_step_of(before, after, changed, count) != RedrawStep::Again,
{
}

} // verus!
