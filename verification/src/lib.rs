//! Decision logic of a bootstrapper that prepares an isolated runtime
//! environment for an application, keeps the application's working copy up
//! to date, and hands execution over to a fresh process after an update.
//!
//! The crate performs no input or output. Every component takes what was
//! observed as plain values and answers with what has to be done next.

pub mod bootstrap;
pub mod config;
pub mod messages;
pub mod outcome;
pub mod process;
pub mod prompt;
pub mod protocol;
pub mod relaunch;
pub mod status;
pub mod supervisor;
pub mod text;
