//! Waiting on a running process under a time limit, with an optional memory
//! ceiling, safe termination on timeout and deadlock-free capture of its
//! output streams.
//!
//! The library holds the decisions; the system calls that they ask for are
//! made by its caller, which hands back what the operating system answered.
//! A wait is a [`control::Session`]: it names the next thing to do to the
//! process, takes in how that went, and in the end names the result. The
//! same holds of the smaller tasks: draining two pipes at once
//! ([`unix::read`], [`windows::read`]), setting a memory ceiling
//! ([`windows::limit`]) and telling what a wait result means
//! ([`unix::exit_status`]).
//!
//! This is not a security boundary: a process can get around its limits.
//! They are meant to keep harmless processes from using up a machine by
//! accident.

pub mod control;
pub mod debug;
pub mod error;
pub mod exit_status;
pub mod unix;
pub mod windows;

pub use crate::control::pipe::PipeFilter;
pub use crate::control::Buffer;
pub use crate::control::Sealed;
pub use crate::error::Error;
pub use crate::exit_status::ExitStatus;
pub use crate::exit_status::Output;
