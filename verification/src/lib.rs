//! Decides which executable starts the Cucumber language server for an editor
//! worktree, and provisions the managed npm package when none is on the
//! search path.
//!
//! The library never talks to the editor itself. Every operation is a small
//! state machine: it names the next call to make on the host, takes the
//! host's answer, and either names another call or finishes. What is decided
//! at each step is stated over the views of the values involved.
//!
//! - [`host`]: the calls and answers that cross the boundary, and the fixed
//!   names of binary, package and script.
//! - [`resolver`]: where the managed script comes from, and the one flag the
//!   extension keeps between resolutions.
//! - [`command`]: the process to launch.
//! - [`config`]: the settings handed to the server.
//! - [`error`]: the failures that reach the host.
//! - [`run`]: whole runs against a host, as mathematics.
//! - [`laws`]: what holds of every run.

pub mod command;
pub mod config;
pub mod error;
pub mod host;
pub mod laws;
pub mod resolver;
pub mod run;
