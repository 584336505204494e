//! Supervisor for a long-running backend sidecar process.
//!
//! The library's core is a verified state machine that keeps one child
//! process ("the engine") alive across crashes: it spawns the child,
//! forwards its output lines to a log in order, backs off after a crash
//! or a spawn failure, and shuts down cleanly when the host application
//! quits. The host drives the machine by feeding it events; the machine
//! answers with the action to perform next.

pub mod info;
pub mod laws;
pub mod supervisor;
