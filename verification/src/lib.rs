//! Software watchpoints for a process-level debugger.
//!
//! A watched page is kept write-protected in the debuggee. A write to it raises
//! a protection-violation signal; the stop is recognised, a checkpoint of the
//! execution state is recorded, and the faulting instruction is retired with
//! protection lifted before the watch is restored and the debuggee resumed,
//! without a stop being shown to the user.
//!
//! The debugger engine is not part of this crate. A [`session::DebugSession`]
//! takes what the engine reported as plain values and names the next command
//! for the engine; the caller carries the command out and hands in the
//! engine's reply. Each operation is stated over a model of the session, and
//! [`laws`] and [`cycle`] prove what holds over several operations.

pub mod address;
pub mod checkpoint;
pub mod cycle;
pub mod error;
pub mod fault;
pub mod laws;
pub mod protect;
pub mod session;
pub mod store;
pub mod text;
pub mod watch;
