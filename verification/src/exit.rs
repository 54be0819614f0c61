//! From the status of a finished wait to the exit code that a session publishes.

use vstd::prelude::*;

verus! {

/// Code published when the wait for the child itself failed.
pub const WAIT_FAILED: i32 = -1;

/// Code published when the child ended without an exit code of its own,
/// as a child does that a signal killed.
pub const NO_EXIT_CODE: i32 = -2;

/// What the single wait for the child reported.
#[derive(Debug, Clone, Copy, PartialEq, Eq, Structural)]
pub enum WaitStatus {
    /// The operating system could not wait for the child.
    Failed,
    /// The child ended and left no exit code.
    Signaled,
    /// The child ended with this exit code.
    Exited(i32),
}

/// The exit code that stands for a wait status.
pub open spec fn spec_exit_result(status: WaitStatus) -> i32 {
    match status {
        WaitStatus::Failed => WAIT_FAILED,
        WaitStatus::Signaled => NO_EXIT_CODE,
        WaitStatus::Exited(code) => code,
    }
}

/// Maps a wait status to the code to publish: the child's own code where it
/// has one, and a reserved negative value otherwise.
pub fn exit_result(status: WaitStatus) -> (code: i32)
    ensures
        code == spec_exit_result(status),
{
    match status {
        WaitStatus::Failed => WAIT_FAILED,
        WaitStatus::Signaled => NO_EXIT_CODE,
        WaitStatus::Exited(code) => code,
    }
}

/// Builds the wait status from the plain parts of a wait: whether the wait
/// succeeded, and the exit code the child left, if any.
pub fn wait_status(waited: bool, code: Option<i32>) -> (status: WaitStatus)
    ensures
        status == (if !waited {
            WaitStatus::Failed
        } else {
            match code {
                Some(c) => WaitStatus::Exited(c),
                None => WaitStatus::Signaled,
            }
        }),
{
    if !waited {
        WaitStatus::Failed
    } else {
        match code {
            Some(c) => WaitStatus::Exited(c),
            None => WaitStatus::Signaled,
        }
    }
}

} // verus!
