//! Runs a command and reports what happens to the process that executes it.

pub mod command;
pub mod error;
pub mod event;
pub mod executor;
pub mod fake;
pub mod flags;
pub mod generic;
pub mod laws;
pub mod outside;
pub mod unix;
