//! The part of a window's state that follows the window's events: the
//! physical size, the surface version, which changes whenever the window is
//! resized, the cursor position and the keyboard modifiers. Scale factors,
//! the viewport and the theme hold floating point values and are kept
//! outside the library, next to this state.

use vstd::prelude::*;

use crate::event::{Event, MouseEvent, WindowEvent};
use crate::iced::shell::action::ThemeMode;
use crate::iced::shell::conversion::IcedModifiers;
use crate::window_info::PhySize;

verus! {

/// The state after one event, as (physical size, surface version, cursor):
/// a resize takes the new size and moves the surface version on, and the
/// cursor follows the mouse until it leaves the window. The window events
/// carry the window's physical size.
pub open spec fn state_after<P, D>(
    size: PhySize,
    version: int,
    cursor: Option<P>,
    event: Event<P, D, PhySize>,
) -> (PhySize, int, Option<P>) {
    match event {
        Event::Window(WindowEvent::Resized(new_size)) => (new_size, version + 1, cursor),
        Event::Mouse(MouseEvent::CursorMoved { position, .. }) => (size, version, Some(position)),
        Event::Mouse(MouseEvent::CursorLeft) => (size, version, None),
        _ => (size, version, cursor),
    }
}

/// The number of resizes among the events.
pub open spec fn resize_count<P, D, I>(events: Seq<Event<P, D, I>>) -> int
    decreases events.len(),
{
    if events.len() == 0 {
        0
    } else {
        (if events[0] matches Event::Window(WindowEvent::Resized(_)) {
            1int
        } else {
            0int
        }) + resize_count(events.drop_first())
    }
}

/// The surface version after a run of events.
pub open spec fn version_after<P, D>(version: int, events: Seq<Event<P, D, PhySize>>) -> int
    decreases events.len(),
{
    if events.len() == 0 {
        version
    } else {
        version_after(
            state_after(PhySize { width: 0, height: 0 }, version, None::<P>, events[0]).1,
            events.drop_first(),
        )
    }
}

/// The state of a window that follows its events; `P` is a logical position.
pub struct State<P> {
    physical_size: PhySize,
    surface_version: u64,
    cursor_position: Option<P>,
    modifiers: IcedModifiers,
}

impl<P: Copy> State<P> {
    pub closed spec fn size(&self) -> PhySize {
        self.physical_size
    }

    pub closed spec fn version(&self) -> u64 {
        self.surface_version
    }

    pub closed spec fn cursor_at(&self) -> Option<P> {
        self.cursor_position
    }

    /// The keyboard modifiers last reported to the program.
    pub closed spec fn held(&self) -> IcedModifiers {
        self.modifiers
    }

    /// A window of the given physical size that was not resized yet, has
    /// no cursor over it and no modifier key held.
    pub fn new(window_physical_size: PhySize) -> (s: Self)
        ensures
            s.size() == window_physical_size,
            s.version() == 0,
            s.cursor_at() is None,
            s.held() == IcedModifiers::none(),
    {
        State {
            physical_size: window_physical_size,
            surface_version: 0,
            cursor_position: None,
            modifiers: IcedModifiers::empty(),
        }
    }

    pub fn physical_size(&self) -> (size: PhySize)
        ensures
            size == self.size(),
    {
        self.physical_size
    }

    pub fn surface_version(&self) -> (version: u64)
        ensures
            version == self.version(),
    {
        self.surface_version
    }

    pub fn modifiers(&self) -> (modifiers: IcedModifiers)
        ensures
            modifiers == self.held(),
    {
        self.modifiers
    }

    /// Records the keyboard modifiers last reported to the program; nothing
    /// else changes.
    pub fn set_modifiers(&mut self, modifiers: IcedModifiers)
        ensures
            final(self).held() == modifiers,
            final(self).size() == old(self).size(),
            final(self).version() == old(self).version(),
            final(self).cursor_at() == old(self).cursor_at(),
    {
        self.modifiers = modifiers;
    }

    /// Where the cursor is, if it is over the window.
    pub fn cursor(&self) -> (cursor: Option<P>)
        ensures
            cursor == self.cursor_at(),
    {
        self.cursor_position
    }

    /// Follows an event. The surface version would overflow after as many
    /// resizes as a `u64` counts; that many are not supported.
    pub fn update<D>(&mut self, event: &Event<P, D, PhySize>)
        requires
            old(self).version() < u64::MAX,
        ensures
            (final(self).size(), final(self).version() as int, final(self).cursor_at())
                == state_after(
                old(self).size(),
                old(self).version() as int,
                old(self).cursor_at(),
                *event,
            ),
            final(self).held() == old(self).held(),
    {
        match event {
            Event::Window(WindowEvent::Resized(size)) => {
                self.physical_size = *size;
                self.surface_version = self.surface_version + 1;
            },
            Event::Mouse(MouseEvent::CursorMoved { position, modifiers: _ }) => {
                self.cursor_position = Some(*position);
            },
            Event::Mouse(MouseEvent::CursorLeft) => {
                self.cursor_position = None;
            },
            _ => {},
        }
    }
}

/// The theme mode after the program's theme was read again: it changes
/// only when the theme's mode differs from the current one, and a theme
/// without a mode falls back to the mode of the default theme.
pub open spec fn synchronized_mode_of(
    current: ThemeMode,
    theme_mode: ThemeMode,
    default_mode: ThemeMode,
) -> ThemeMode {
    if current == theme_mode {
        current
    } else if theme_mode == ThemeMode::NoMode {
        default_mode
    } else {
        theme_mode
    }
}

pub fn synchronized_theme_mode(
    current: ThemeMode,
    theme_mode: ThemeMode,
    default_mode: ThemeMode,
) -> (mode: ThemeMode)
    ensures
        mode == synchronized_mode_of(current, theme_mode, default_mode),
{
    if current != theme_mode {
        if theme_mode == ThemeMode::NoMode {
            default_mode
        } else {
            theme_mode
        }
    } else {
        current
    }
}

/// The surface version moves on by exactly the number of resizes: the
/// surface is out of date exactly when the window was resized since it was
/// last configured.
pub proof fn lemma_version_counts_resizes<P, D>(version: int, events: Seq<Event<P, D, PhySize>>)
    ensures
        version_after(version, events) == version + resize_count(events),
    decreases events.len(),
{
    if events.len() > 0 {
        lemma_version_counts_resizes(
            state_after(PhySize { width: 0, height: 0 }, version, None::<P>, events[0]).1,
            events.drop_first(),
        );
    }
}

} // verus!
