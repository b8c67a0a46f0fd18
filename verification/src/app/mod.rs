//! What a process does before any application code runs: the once-only entry
//! and the startup sequences of a spawned daemon.

pub mod bootstrap;
pub mod daemon_child;
pub mod run;
