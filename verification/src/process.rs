//! The handle of the supervised child process.

use vstd::prelude::*;

verus! {

/// Names the child of a session by its process id. The id is positive, so
/// its negation always names the child's process group and never the
/// caller's own group or every process.
#[derive(Debug, Clone, Copy, PartialEq, Eq)]
pub struct ProcessHandle {
    pid: i32,
}

impl View for ProcessHandle {
    type V = int;

    closed spec fn view(&self) -> int {
        self.pid as int
    }
}

/// The signal target that reaches the whole process group of the process
/// `pid`: the negated process id.
pub open spec fn group_of(pid: int) -> i32 {
    (-pid) as i32
}

/// Whether the process `owner` is the one that the signal target `group`
/// names. Where a platform has no process groups, the graceful request
/// goes to each window whose owner passes this test.
pub fn leads_group(owner: u32, group: i32) -> (leads: bool)
    ensures
        leads == (0 < owner <= i32::MAX && group == group_of(owner as int)),
{
    0 < owner && owner <= 0x7fff_ffff && group == -(owner as i32)
}

impl ProcessHandle {
    #[verifier::type_invariant]
    spec fn positive(self) -> bool {
        self.pid > 0
    }

    /// The handle for the process with the given id; none for an id that is
    /// zero or does not fit a signed process id.
    pub fn new(id: u32) -> (handle: Option<ProcessHandle>)
        ensures
            handle is Some <==> 0 < id <= i32::MAX,
            handle matches Some(h) ==> h@ == id,
    {
        if 0 < id && id <= 0x7fff_ffff {
            Some(ProcessHandle { pid: id as i32 })
        } else {
            None
        }
    }

    /// The process id.
    pub fn pid(&self) -> (pid: i32)
        ensures
            pid == self@,
            pid > 0,
    {
        proof {
            use_type_invariant(self);
        }
        self.pid
    }

    /// The target that reaches the child's whole process group: the
    /// negated process id.
    pub fn group(&self) -> (target: i32)
        ensures
            target == group_of(self@),
            target == -self@,
            target < 0,
    {
        proof {
            use_type_invariant(self);
        }
        -self.pid
    }
}

} // verus!
