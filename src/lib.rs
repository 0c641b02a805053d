//! Drives the FlatBuffers schema compiler `flatc`: turns a compile request into the
//! exact argument vector the compiler expects, checks the compiler's self-reported
//! version, and decides from each process outcome what happens next.
//!
//! The library performs no I/O itself. A [`Session`] says which command to launch next
//! and is fed back the [`Outcome`] of that launch.

pub mod args;
mod bytes;
pub mod error;
mod utf8;
pub mod flatc;
pub mod version;

pub use args::{Args, ArgsModel};
pub use error::{ConfigError, Error, RunFailure, ToolError};
pub use flatc::{run, Command, Flatc, Outcome, Session, Step};
pub use version::Version;
