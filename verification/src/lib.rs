//! Launch resolution for the `tui` language server.
//!
//! An editor that wants to start the server asks where the `tui` executable
//! is and how to invoke it. This crate holds that decision: the name that is
//! looked up on the executable search path, the launch that follows from a
//! successful lookup, and the error that follows from a failed one.

pub mod error;
pub mod launch;
pub mod resolver;

pub use error::{ErrorKind, BINARY_NOT_FOUND_MESSAGE};
pub use launch::{LaunchSpec, LaunchSpecView, SERVER_ARGUMENT};
pub use resolver::{resolve_command, resolve_lookup, WorktreeCapability, BINARY_NAME};
