//! The iced integration: the decisions of the shell that runs an iced
//! program in a baseview window.

pub mod application;
pub mod shell;

pub use application::Application;
pub use shell::PollSubNotifier;
