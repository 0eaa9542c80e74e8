//! baseview: window events, the decisions of the X11 event loop, and the
//! decisions of the shell that runs an iced program in a baseview window,
//! with their contracts.
//!
//! Floating point geometry (logical positions and sizes, scale factors),
//! the platform window itself and everything that talks to the X server or
//! to the GPU are outside this library; they hand the library plain values
//! and carry out what it decides.

pub mod event;
pub mod iced;
pub mod keyboard;
pub mod mouse_cursor;
pub mod window_info;
pub mod x11;

pub use event::{
    DropData, DropEffect, Event, EventStatus, Key, KeyboardEvent, Modifiers, MouseButton,
    MouseEvent, WindowEvent,
};
pub use keyboard::{code_to_location, Code, KeyState, Location, NamedKey};
pub use mouse_cursor::MouseCursor;
pub use window_info::{PhyPoint, PhySize};
