//! The events a window delivers to its handler.
//!
//! Positions, scroll amounts and window scale information are floating point
//! values in a running window; the event types here carry them as type
//! parameters (`P`, `D` and `I`) so that the library can route them without
//! inspecting them.

use vstd::prelude::*;

use crate::keyboard::{Code, KeyState, Location, NamedKey};

verus! {

/// `std::path::PathBuf`, carried through opaquely: nothing is claimed of it.
#[verifier::external_type_specification]
#[verifier::external_body]
pub struct ExPathBuf(std::path::PathBuf);

#[derive(Debug, Copy, Clone, PartialEq, Eq, Structural)]
pub enum MouseButton {
    Left,
    Middle,
    Right,
    Back,
    Forward,
    Other(u8),
}

/// Bit flags for the modifier keys held during an event, with the bit values
/// of the keyboard event model.
#[derive(Debug, Copy, Clone, PartialEq, Eq, Structural)]
pub struct Modifiers {
    pub bits: u32,
}

pub const MOD_ALT: u32 = 0x01;
pub const MOD_ALT_GRAPH: u32 = 0x2;
pub const MOD_CAPS_LOCK: u32 = 0x4;
pub const MOD_CONTROL: u32 = 0x8;
pub const MOD_FN: u32 = 0x10;
pub const MOD_FN_LOCK: u32 = 0x20;
pub const MOD_META: u32 = 0x40;
pub const MOD_NUM_LOCK: u32 = 0x80;
pub const MOD_SCROLL_LOCK: u32 = 0x100;
pub const MOD_SHIFT: u32 = 0x200;
pub const MOD_SYMBOL: u32 = 0x400;
pub const MOD_SYMBOL_LOCK: u32 = 0x800;
pub const MOD_HYPER: u32 = 0x1000;
pub const MOD_SUPER: u32 = 0x2000;

impl Modifiers {
    /// Whether every flag of `flag` is set in these modifiers.
    pub open spec fn has(self, flag: u32) -> bool {
        self.bits & flag == flag
    }

    pub fn empty() -> (m: Modifiers)
        ensures
            m.bits == 0,
    {
        Modifiers { bits: 0 }
    }

    pub fn contains(&self, flag: u32) -> (b: bool)
        ensures
            b == self.has(flag),
    {
        self.bits & flag == flag
    }
}

/// The logical key of a keyboard event.
#[derive(Debug, Clone, PartialEq, Eq)]
pub enum Key {
    Character(String),
    Named(NamedKey),
}

/// A key press or release.
#[derive(Debug, Clone, PartialEq, Eq)]
pub struct KeyboardEvent {
    pub state: KeyState,
    pub key: Key,
    pub code: Code,
    pub location: Location,
    pub modifiers: Modifiers,
    pub repeat: bool,
    pub is_composing: bool,
}

/// A mouse event; `P` is the type of a logical position and `D` that of a
/// scroll amount.
#[derive(Debug, Clone, PartialEq)]
pub enum MouseEvent<P, D> {
    CursorMoved { position: P, modifiers: Modifiers },
    ButtonPressed { button: MouseButton, modifiers: Modifiers },
    ButtonReleased { button: MouseButton, modifiers: Modifiers },
    WheelScrolled { delta: D, modifiers: Modifiers },
    CursorEntered,
    CursorLeft,
    DragEntered { position: P, modifiers: Modifiers, data: DropData },
    DragMoved { position: P, modifiers: Modifiers, data: DropData },
    DragLeft,
    DragDropped { position: P, modifiers: Modifiers, data: DropData },
}

/// A window event; `I` is the type of the window's size and scale information.
#[derive(Debug, Clone)]
pub enum WindowEvent<I> {
    Resized(I),
    Focused,
    Unfocused,
    WillClose,
}

#[derive(Debug, Clone)]
pub enum Event<P, D, I> {
    Mouse(MouseEvent<P, D>),
    Keyboard(KeyboardEvent),
    Window(WindowEvent<I>),
}

#[derive(Debug, Clone, Copy, PartialEq, Eq, Structural)]
pub enum DropEffect {
    Copy,
    Move,
    Link,
    Scroll,
}

#[derive(Debug, Clone, PartialEq)]
pub enum DropData {
    /// No data is attached (named `None` in the event model).
    Empty,
    Files(Vec<std::path::PathBuf>),
}

#[derive(Debug, Clone, Copy, PartialEq, Eq, Structural)]
pub enum EventStatus {
    Captured,
    Ignored,
    AcceptDrop(DropEffect),
}

} // verus!
