//! The session with one engine process.

pub mod engine;
pub mod laws;
pub mod listener;
pub mod options;

pub use engine::{Effect, EngineInfo, Outcome, Pending, Progress, UsiEngineHandler};
pub use listener::{ListenEvent, ListenStep, Listener, ListenerState};
pub use options::EngineOptions;
