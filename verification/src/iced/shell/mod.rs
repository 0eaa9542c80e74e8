//! The shell that runs an iced program inside a baseview window.

pub mod action;
pub mod clipboard;
pub mod conversion;
pub mod frame;
pub mod keys;
pub mod window;

use vstd::prelude::*;

use std::sync::atomic::{AtomicBool, Ordering};
use std::sync::Arc;

verus! {

/// An atomic flag used to notify the program when it should poll for new updates
/// and redraw (i.e. as a result of the host updating parameters or the audio thread
/// updating the state of meters). This flag is polled every frame right before
/// drawing. If the flag is set then the poll subscription is called.
///
/// The flag is shared between threads, so no call can tell what another
/// thread will find in it.
#[derive(Debug, Clone)]
pub struct PollSubNotifier {
    notify: Arc<AtomicBool>,
}

impl PollSubNotifier {
    /// A notifier whose flag is set, so that the first frame polls.
    pub fn new() -> Self {
        Self { notify: Arc::new(AtomicBool::new(true)) }
    }

    /// Sets the flag.
    pub fn notify(&self) {
        self.notify.store(true, Ordering::Relaxed);
    }

    /// Clears the flag and tells whether it was set.
    pub fn notify_flag_set(&self) -> bool {
        self.notify.swap(false, Ordering::Relaxed)
    }
}

impl Default for PollSubNotifier {
    fn default() -> Self {
        Self::new()
    }
}

} // verus!
