//! The streams of a session: the tokens that own them, and what a read or
//! write on them reports.

use vstd::prelude::*;

verus! {

/// Error number of a read from a terminal whose other end is closed.
pub const EIO: i32 = 5;

/// Error number of an operation on a stream that is not there.
pub const EBADF: i32 = 9;

/// What the operating system answered to a read or write: the number of
/// bytes moved, or the error number of the failure where it has one.
pub type IoOutcome = Result<usize, Option<i32>>;

/// The exclusive owner of the stream on which the child reads its input.
/// The token holds the stream's descriptor; it cannot be copied.
#[derive(Debug, PartialEq, Eq)]
pub struct RunningInput {
    stream: i32,
}

/// The exclusive owner of a stream on which the child writes: its output
/// on the terminal, or its error output.
#[derive(Debug, PartialEq, Eq)]
pub struct RunningOutput {
    stream: i32,
}

impl View for RunningInput {
    type V = i32;

    closed spec fn view(&self) -> i32 {
        self.stream
    }
}

impl View for RunningOutput {
    type V = i32;

    closed spec fn view(&self) -> i32 {
        self.stream
    }
}

/// What a read reports for the answer `raw` of the operating system
/// while the child is not known to have exited. A terminal whose other
/// end is closed answers a read with the error `EIO`; that is the end of
/// the stream, zero bytes, and no failure. Every other answer is passed
/// on.
pub open spec fn spec_read_result(raw: IoOutcome) -> IoOutcome {
    match raw {
        Err(Some(code)) => if code == EIO {
            Ok(0)
        } else {
            raw
        },
        _ => raw,
    }
}

/// Computes [`spec_read_result`].
pub fn read_result(raw: IoOutcome) -> (outcome: IoOutcome)
    ensures
        outcome == spec_read_result(raw),
{
    match raw {
        Err(Some(code)) => if code == EIO {
            Ok(0)
        } else {
            raw
        },
        _ => raw,
    }
}

/// What a read reports for the answer `raw` of the operating system,
/// given whether the exit code of the child is published. Once the child
/// has exited nothing more will come: a read that fails then, with
/// whatever error, has met the end of the stream, and reports zero bytes
/// and no failure. Bytes that were read are reported as they are. Before
/// the exit, the read reports what [`spec_read_result`] says.
pub open spec fn spec_read_after(exited: bool, raw: IoOutcome) -> IoOutcome {
    match raw {
        Err(_) => if exited {
            Ok(0)
        } else {
            spec_read_result(raw)
        },
        Ok(_) => raw,
    }
}

/// Computes [`spec_read_after`].
pub fn read_after(exited: bool, raw: IoOutcome) -> (outcome: IoOutcome)
    ensures
        outcome == spec_read_after(exited, raw),
{
    match raw {
        Err(_) => if exited {
            Ok(0)
        } else {
            read_result(raw)
        },
        Ok(_) => raw,
    }
}

impl RunningInput {
    /// The token for the stream with the given descriptor.
    pub fn new(descriptor: i32) -> (input: RunningInput)
        ensures
            input@ == descriptor,
    {
        RunningInput { stream: descriptor }
    }

    /// The descriptor to write to.
    pub fn descriptor(&self) -> (descriptor: i32)
        ensures
            descriptor == self@,
    {
        self.stream
    }

    /// What a write to this stream reports: the answer of the operating
    /// system, as it is.
    pub fn write(&self, raw: IoOutcome) -> (outcome: IoOutcome)
        ensures
            outcome == raw,
    {
        raw
    }

    /// What a flush of this stream reports: the answer of the operating
    /// system, as it is.
    pub fn flush(&self, raw: Result<(), Option<i32>>) -> (outcome: Result<(), Option<i32>>)
        ensures
            outcome == raw,
    {
        raw
    }
}

impl RunningOutput {
    /// The token for the stream with the given descriptor.
    pub fn new(descriptor: i32) -> (output: RunningOutput)
        ensures
            output@ == descriptor,
    {
        RunningOutput { stream: descriptor }
    }

    /// The descriptor to read from.
    pub fn descriptor(&self) -> (descriptor: i32)
        ensures
            descriptor == self@,
    {
        self.stream
    }

    /// What a read of this stream reports for the answer `raw` of the
    /// operating system. `exited` says whether the exit code of the child
    /// is published; the token cannot know, so its holder asks the
    /// session. After the exit a failed read is the end of the stream,
    /// whatever the error; before it, only a read from a closed terminal
    /// is.
    pub fn read(&self, raw: IoOutcome, exited: bool) -> (outcome: IoOutcome)
        ensures
            outcome == spec_read_after(exited, raw),
    {
        read_after(exited, raw)
    }
}

/// After the child's exit no read fails: a read reports the bytes it
/// got, or the end of the stream, whatever error the operating system
/// gave. A read from a closed terminal is the end of the stream before
/// the exit too. Bytes that were read are always reported unchanged.
pub proof fn lemma_reads_end_after_exit(raw: IoOutcome, exited: bool, count: usize)
    ensures
        spec_read_after(true, raw) is Ok,
        raw is Err ==> spec_read_after(true, raw) == Ok::<usize, Option<i32>>(0),
        spec_read_after(exited, Err(Some(EIO))) == Ok::<usize, Option<i32>>(0),
        spec_read_after(exited, Ok(count)) == Ok::<usize, Option<i32>>(count),
{
}

/// The end of the stream stays the end, and a report is not changed by
/// being read again: what a read reports is its own report.
pub proof fn lemma_read_report_is_stable(raw: IoOutcome, exited: bool)
    ensures
        spec_read_after(exited, spec_read_after(exited, raw)) == spec_read_after(exited, raw),
        spec_read_after(true, spec_read_after(exited, raw)) is Ok,
{
}

} // verus!
