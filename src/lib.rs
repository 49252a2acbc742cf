//! Scaffolding of a new web-framework project, as a verified state machine.
//!
//! The library decides; the caller acts. A [`pipeline::Provisioner`] names the
//! next action to perform (probe a tool, create a directory, copy a bundled
//! file, run a child process), the caller performs it and reports whether it
//! succeeded, and the provisioner moves to its next stage. What holds of
//! every run is proved in [`laws`].
pub mod args;
pub mod config;
pub mod action;
pub mod pipeline;
pub mod commands;
pub mod laws;
