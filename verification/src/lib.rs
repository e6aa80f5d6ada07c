//! Unix-style commands for Windows, as verified decision logic.
//!
//! The heart is `kill` for a platform without signals: the option grammar,
//! the signal vocabulary, name resolution, the safety guard, the fallback
//! ladder and the timeout escalation. The library never touches a process:
//! a session names what the host is to do next and takes what came of it.
//! Beside it stand the parser of terminal output and the descriptions of
//! command pipelines.

pub mod ansi;
pub mod attempt;
pub mod error;
pub mod host;
pub mod kill;
pub mod machine;
pub mod number;
pub mod options;
pub mod pipeline;
pub mod report;
pub mod resolve;
pub mod session;
pub mod signal;
pub mod text;
