//! Client side of the USI engine protocol, free of I/O.
//!
//! Every decision of a session — which operation is legal in which phase,
//! what to write, when a read loop ends, which search results reach the
//! caller — is taken here, by state machines that are told what happened
//! and answer with what to do next. Launching the process, moving bytes and
//! running threads is left to the program around this crate.

pub mod decimal;
pub mod error;
pub mod process;
pub mod protocol;
pub mod threaded;

pub use error::Error;
pub use protocol::{
    BestMoveParams, CheckmateParams, Decoded, EngineCommand, EngineOutput, GameOverKind,
    GuiCommand, IdParams, MateParam, OptionKind, OptionParams, ThinkParams,
};
pub use process::{
    Effect, EngineInfo, EngineOptions, ListenEvent, ListenStep, Listener, Outcome, Progress,
    UsiEngineHandler,
};
pub use threaded::{
    EngineConfig, EngineThread, ThreadAction, ThreadCommand, ThreadEvent, ThreadedEngine,
};
