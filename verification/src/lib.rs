//! Remote file transfer over SSH-family tools, with the supporting rules of
//! an image browser: file classification, processing pipelines and host
//! configuration.
//!
//! The library never starts a process, reads a file or prints. Operations
//! that need the outside world build a [`transfer::command::CommandLine`] for
//! the caller to run, and interpret the
//! [`transfer::command::ProcessOutcome`] that the caller hands back.

pub mod browser;
pub mod config;
pub mod files;
pub mod forms;
pub mod imaging;
pub mod paths;
pub mod text;
pub mod transfer;
pub mod utils;
