//! Run an allow-listed command inside a running container, observe its first
//! output and inspection state, and resize the terminal of an exec session.
//!
//! The library holds the decisions: which commands may run, what the exec
//! request carries, the order of the session's steps and what is shown of the
//! first output chunk. The engine calls themselves are made by the caller,
//! which feeds their results back as events.

pub mod chunk;
pub mod cli;
pub mod command;
pub mod resize;
pub mod session;
