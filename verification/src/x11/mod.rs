//! The X11 backend: the decisions of its event loop.

pub mod event_loop;

pub use event_loop::{EventLoop, LoopEvent, XcbEvent, mouse_id};
