//! Supervision core for a command that runs on a pseudo-terminal.
//!
//! The crate holds the decisions of a process supervisor as sequential,
//! verified state machines: how a wait status becomes an exit code, how the
//! write-once result slot is published and read, when the termination
//! scheduler may signal the process group, and which streams a session
//! handle still owns. The threads, descriptors and system calls that carry
//! the decisions out live with the caller, which performs each returned
//! action and reports the event that followed.

pub mod error;
pub mod exit;
pub mod grace;
pub mod laws;
pub mod process;
pub mod result_slot;
pub mod running;
pub mod runny;
pub mod scheduler;
pub mod stream;
pub mod terminal;
