//! The session: the state that the owner of a running command, its
//! observers and its two background tasks share, and every operation on it.
//!
//! A session is one value. Its owner keeps it behind a lock, hands each
//! party a way to reach it, and runs the two background tasks: the exit
//! watcher, which waits for the child once and publishes the exit code, and
//! the termination scheduler. Each operation here is one step under that
//! lock: it changes the session and says what the caller has to do next.

use crate::error::RunningError;
use crate::exit::{exit_result, spec_exit_result, WaitStatus};
use crate::grace::{default_grace, seconds, DEFAULT_GRACE_SECS};
use crate::process::{group_of, ProcessHandle};
use crate::result_slot::{published, ResultSlot};
use crate::scheduler::{
    delivery_failure,
    next_action,
    next_phase,
    signal_failure,
    Action,
    Event,
    Phase,
    Scheduler,
    SignalOutcome,
};
use crate::stream::{spec_read_after, IoOutcome, RunningInput, RunningOutput, EBADF};
use std::time::Duration;
use vstd::prelude::*;

verus! {

/// A session as contracts see it.
pub struct RunningView {
    /// The process id of the child.
    pub pid: int,
    /// The descriptor of the input stream, while the session owns it.
    pub input: Option<i32>,
    /// The descriptor of the output stream, while the session owns it.
    pub output: Option<i32>,
    /// The descriptor of the error stream, while the session owns it.
    pub error: Option<i32>,
    /// The published exit code.
    pub result: Option<i32>,
    /// The delay between the graceful and the forceful signal; none for
    /// no delay at all.
    pub term_delay: Option<Duration>,
    /// The time after which the session is terminated by itself.
    pub timeout: Option<Duration>,
    /// The phase of the termination scheduler.
    pub phase: Phase,
    /// Whether a wake of the termination scheduler is asked for and not
    /// yet answered.
    pub wake: bool,
    /// Whether the one wait for the child has been claimed.
    pub watched: bool,
    /// The first signal that could not be delivered, by its error number.
    pub signal_failure: Option<i32>,
}

/// An operation on a session.
pub enum Op {
    /// The owner takes the input stream.
    TakeInput,
    /// The owner takes the output stream.
    TakeOutput,
    /// The owner takes the error stream.
    TakeError,
    /// The owner asks for termination with this grace delay.
    Terminate(Option<Duration>),
    /// An observer asks for termination with this grace delay.
    Request(Option<Duration>),
    /// The exit watcher claims the wait for the child.
    Watch,
    /// The exit watcher reports the status of its wait.
    Exited(WaitStatus),
    /// The termination scheduler takes a step.
    Schedule(Event),
    /// The termination scheduler reports the outcome of a signal.
    Signalled(SignalOutcome),
}

/// The session after an operation.
pub open spec fn apply(v: RunningView, op: Op) -> RunningView {
    match op {
        Op::TakeInput => RunningView { input: None, ..v },
        Op::TakeOutput => RunningView { output: None, ..v },
        Op::TakeError => RunningView { error: None, ..v },
        Op::Terminate(delay) => if v.result is Some {
            v
        } else {
            RunningView { term_delay: delay, wake: true, ..v }
        },
        Op::Request(delay) => if v.result is Some {
            v
        } else {
            RunningView { term_delay: delay, wake: true, ..v }
        },
        Op::Watch => RunningView { watched: true, ..v },
        Op::Exited(status) => RunningView {
            result: published(v.result, spec_exit_result(status)),
            wake: true,
            ..v
        },
        Op::Schedule(event) => RunningView {
            phase: next_phase(v.phase, event, v.result is Some, v.wake),
            wake: v.wake && event == Event::Start,
            ..v
        },
        Op::Signalled(outcome) => RunningView {
            signal_failure: match v.signal_failure {
                Some(first) => Some(first),
                None => delivery_failure(outcome),
            },
            ..v
        },
    }
}

/// The action that a step of the termination scheduler asks for.
pub open spec fn scheduled(v: RunningView, event: Event) -> Action {
    next_action(
        v.phase,
        event,
        v.result is Some,
        v.wake,
        v.timeout,
        v.term_delay,
        group_of(v.pid),
    )
}

/// The session at its start.
pub open spec fn started(
    pid: int,
    input: i32,
    output: i32,
    error: i32,
    timeout: Option<Duration>,
) -> RunningView {
    RunningView {
        pid,
        input: Some(input),
        output: Some(output),
        error: Some(error),
        result: None,
        term_delay: Some(seconds(DEFAULT_GRACE_SECS)),
        timeout,
        phase: Phase::Idle,
        wake: false,
        watched: false,
        signal_failure: None,
    }
}

/// What a request to terminate found.
#[derive(Debug, Clone, Copy, PartialEq, Eq, Structural)]
pub enum Termination {
    /// The child had exited with this code; nothing was done.
    AlreadyExited(i32),
    /// The grace delay is set and a wake of the termination scheduler is
    /// asked for. The caller ends the scheduler's sleep and waits until
    /// [`Running::terminated`] has an answer.
    Requested,
}

/// What a caller that asked for termination is told, once there is
/// something to tell: an undelivered signal as an error, and the exit code
/// otherwise.
pub open spec fn termination_answer(v: RunningView) -> Option<Result<i32, RunningError>> {
    match v.signal_failure {
        Some(code) => Some(Err(RunningError::RunningNixError(code))),
        None => match v.result {
            Some(code) => Some(Ok(code)),
            None => None,
        },
    }
}

/// What a read of the session's output reports for the answer `raw` of
/// the operating system: the error `EBADF` where the stream is taken, and
/// otherwise what the stream reports, given whether the child has exited.
pub open spec fn read_report(v: RunningView, raw: IoOutcome) -> IoOutcome {
    match v.output {
        Some(_) => spec_read_after(v.result is Some, raw),
        None => Err(Some(EBADF)),
    }
}

/// The descriptor of a stream slot, or the error of a stream that is taken.
pub open spec fn stream_or_error(slot: Option<i32>) -> Result<i32, RunningError> {
    match slot {
        Some(descriptor) => Ok(descriptor),
        None => Err(RunningError::RunningIoError(EBADF)),
    }
}

/// A session of one supervised command.
#[derive(Debug, PartialEq, Eq)]
pub struct Running {
    input: Option<RunningInput>,
    output: Option<RunningOutput>,
    error: Option<RunningOutput>,
    result: ResultSlot,
    term_delay: Option<Duration>,
    scheduler: Scheduler,
    wake: bool,
    watched: bool,
    signal_failure: Option<i32>,
}

/// The handle of an observer of a session. It can learn the exit code and
/// ask for termination, and nothing else. It holds no state of the
/// session: each call is given the session that the observers share.
#[derive(Debug, Clone, Copy, PartialEq, Eq)]
pub struct RunningWaiter {
    child: ProcessHandle,
}

impl View for Running {
    type V = RunningView;

    closed spec fn view(&self) -> RunningView {
        RunningView {
            pid: self.scheduler@.pid,
            input: match self.input {
                Some(stream) => Some(stream@),
                None => None,
            },
            output: match self.output {
                Some(stream) => Some(stream@),
                None => None,
            },
            error: match self.error {
                Some(stream) => Some(stream@),
                None => None,
            },
            result: self.result@,
            term_delay: self.term_delay,
            timeout: self.scheduler@.timeout,
            phase: self.scheduler@.phase,
            wake: self.wake,
            watched: self.watched,
            signal_failure: self.signal_failure,
        }
    }
}

impl View for RunningWaiter {
    type V = int;

    closed spec fn view(&self) -> int {
        self.child@
    }
}

impl Running {
    /// The session of the child `child`, which reads from `input` and
    /// writes to `output` and `error`. No exit code is published, the
    /// grace delay is the default one, and the termination scheduler is
    /// idle, to wake by itself after `timeout` if there is one.
    pub fn new(
        child: ProcessHandle,
        input: RunningInput,
        output: RunningOutput,
        timeout: Option<Duration>,
        error: RunningOutput,
    ) -> (session: Running)
        ensures
            session@ == started(child@, input@, output@, error@, timeout),
    {
        Running {
            input: Some(input),
            output: Some(output),
            error: Some(error),
            result: ResultSlot::new(),
            term_delay: Some(default_grace()),
            scheduler: Scheduler::new(child, timeout),
            wake: false,
            watched: false,
            signal_failure: None,
        }
    }

    /// Moves the output stream out of the session. A second call finds
    /// the stream taken and fails with the error number `EBADF`; the
    /// session is then unchanged.
    pub fn take_output(&mut self) -> (taken: Result<RunningOutput, RunningError>)
        ensures
            final(self)@ == apply(old(self)@, Op::TakeOutput),
            match old(self)@.output {
                Some(descriptor) => taken matches Ok(stream) && stream@ == descriptor,
                None => taken == Err::<RunningOutput, RunningError>(
                    RunningError::RunningIoError(EBADF),
                ),
            },
    {
        match self.output.take() {
            Some(stream) => Ok(stream),
            None => Err(RunningError::RunningIoError(EBADF)),
        }
    }

    /// The output stream, while the session owns it.
    pub fn output(&self) -> (slot: &Option<RunningOutput>)
        ensures
            match *slot {
                Some(stream) => self@.output == Some(stream@),
                None => self@.output is None,
            },
    {
        &self.output
    }

    /// Moves the input stream out of the session. A second call finds
    /// the stream taken and fails with the error number `EBADF`; the
    /// session is then unchanged.
    pub fn take_input(&mut self) -> (taken: Result<RunningInput, RunningError>)
        ensures
            final(self)@ == apply(old(self)@, Op::TakeInput),
            match old(self)@.input {
                Some(descriptor) => taken matches Ok(stream) && stream@ == descriptor,
                None => taken == Err::<RunningInput, RunningError>(
                    RunningError::RunningIoError(EBADF),
                ),
            },
    {
        match self.input.take() {
            Some(stream) => Ok(stream),
            None => Err(RunningError::RunningIoError(EBADF)),
        }
    }

    /// The input stream, while the session owns it.
    pub fn input(&self) -> (slot: &Option<RunningInput>)
        ensures
            match *slot {
                Some(stream) => self@.input == Some(stream@),
                None => self@.input is None,
            },
    {
        &self.input
    }

    /// Moves the error stream out of the session. A second call finds
    /// the stream taken and fails with the error number `EBADF`; the
    /// session is then unchanged.
    pub fn take_error(&mut self) -> (taken: Result<RunningOutput, RunningError>)
        ensures
            final(self)@ == apply(old(self)@, Op::TakeError),
            match old(self)@.error {
                Some(descriptor) => taken matches Ok(stream) && stream@ == descriptor,
                None => taken == Err::<RunningOutput, RunningError>(
                    RunningError::RunningIoError(EBADF),
                ),
            },
    {
        match self.error.take() {
            Some(stream) => Ok(stream),
            None => Err(RunningError::RunningIoError(EBADF)),
        }
    }

    /// The error stream, while the session owns it.
    pub fn error(&self) -> (slot: &Option<RunningOutput>)
        ensures
            match *slot {
                Some(stream) => self@.error == Some(stream@),
                None => self@.error is None,
            },
    {
        &self.error
    }

    /// The exit code, once it is published. While there is none the
    /// caller blocks until the exit watcher has published, and asks again.
    /// The call never waits for the child itself.
    pub fn wait(&self) -> (code: Option<i32>)
        ensures
            code == self@.result,
    {
        self.result.get()
    }

    /// The handle for one more observer of this session.
    pub fn waiter(&self) -> (waiter: RunningWaiter)
        ensures
            waiter@ == self@.pid,
    {
        RunningWaiter { child: self.scheduler.child() }
    }

    /// The exit code, once it is published: what [`Running::wait`] gives.
    pub fn result(&self) -> (code: Option<i32>)
        ensures
            code == self@.result,
    {
        self.wait()
    }

    /// Asks for the termination of the child, with `timeout` as the delay
    /// between the graceful and the forceful signal; without one the
    /// forceful signal follows at once. On a session whose child has
    /// exited this does nothing and gives the exit code.
    pub fn terminate(&mut self, timeout: Option<Duration>) -> (found: Termination)
        ensures
            final(self)@ == apply(old(self)@, Op::Terminate(timeout)),
            found == match old(self)@.result {
                Some(code) => Termination::AlreadyExited(code),
                None => Termination::Requested,
            },
    {
        match self.result.get() {
            Some(code) => Termination::AlreadyExited(code),
            None => {
                self.term_delay = timeout;
                self.wake = true;
                Termination::Requested
            },
        }
    }

    /// The answer for a caller whose request to terminate is under way:
    /// the error of a signal that could not be delivered, else the exit
    /// code once it is published, else nothing yet.
    pub fn terminated(&self) -> (answer: Option<Result<i32, RunningError>>)
        ensures
            answer == termination_answer(self@),
    {
        match self.signal_failure {
            Some(code) => Some(Err(RunningError::RunningNixError(code))),
            None => match self.result.get() {
                Some(code) => Some(Ok(code)),
                None => None,
            },
        }
    }

    /// The process id of the child.
    pub fn pid(&self) -> (pid: i32)
        ensures
            pid == self@.pid,
            pid > 0,
    {
        self.scheduler.child().pid()
    }

    /// Claims the one wait for the child. The first call returns `true`
    /// and its caller waits for the child; every later call returns
    /// `false` and its caller must not.
    pub fn watch(&mut self) -> (claimed: bool)
        ensures
            final(self)@ == apply(old(self)@, Op::Watch),
            claimed == !old(self)@.watched,
    {
        let claimed = !self.watched;
        self.watched = true;
        claimed
    }

    /// Publishes the exit code for the status of the finished wait, asks
    /// for a wake of the termination scheduler, so that its task ends, and
    /// returns the code that the session now holds: this one, or the one
    /// published before it. The caller wakes everyone who waits for the
    /// code, and ends the scheduler's sleep.
    pub fn exited(&mut self, status: WaitStatus) -> (code: i32)
        ensures
            final(self)@ == apply(old(self)@, Op::Exited(status)),
            final(self)@.result == Some(code),
    {
        let offered = exit_result(status);
        self.result.publish(offered);
        self.wake = true;
        match self.result.get() {
            Some(code) => code,
            None => offered,
        }
    }

    /// One step of the termination scheduler on `event`, read against the
    /// exit code, the request for a wake and the grace delay that the
    /// session holds now. The end of a sleep answers the request for a
    /// wake, which is then no longer pending.
    pub fn schedule(&mut self, event: Event) -> (action: Action)
        ensures
            final(self)@ == apply(old(self)@, Op::Schedule(event)),
            action == scheduled(old(self)@, event),
    {
        let resolved = self.result.is_resolved();
        let wake = self.wake;
        match event {
            Event::Start => {},
            Event::Awake { .. } => {
                self.wake = false;
            },
        }
        self.scheduler.step(event, resolved, wake, self.term_delay)
    }

    /// Records the outcome of a signal that the scheduler sent. Returns
    /// `true` where the outcome is the session's first failure, which the
    /// callers that wait for the termination then have to be told.
    pub fn signalled(&mut self, outcome: SignalOutcome) -> (failed: bool)
        ensures
            final(self)@ == apply(old(self)@, Op::Signalled(outcome)),
            failed == (old(self)@.signal_failure is None && delivery_failure(outcome) is Some),
    {
        if self.signal_failure.is_none() {
            self.signal_failure = signal_failure(outcome);
            self.signal_failure.is_some()
        } else {
            false
        }
    }

    /// The descriptor to read the child's output from, or the error
    /// `EBADF` where the output stream is taken.
    pub fn reader(&self) -> (descriptor: Result<i32, RunningError>)
        ensures
            descriptor == stream_or_error(self@.output),
    {
        match &self.output {
            Some(stream) => Ok(stream.descriptor()),
            None => Err(RunningError::RunningIoError(EBADF)),
        }
    }

    /// The descriptor to write the child's input to, or the error `EBADF`
    /// where the input stream is taken.
    pub fn writer(&self) -> (descriptor: Result<i32, RunningError>)
        ensures
            descriptor == stream_or_error(self@.input),
    {
        match &self.input {
            Some(stream) => Ok(stream.descriptor()),
            None => Err(RunningError::RunningIoError(EBADF)),
        }
    }

    /// What a read of the session's output reports for the answer `raw`
    /// of the operating system: the error `EBADF` where the stream is
    /// taken. Otherwise the bytes that were read; and for a failed read
    /// the end of the stream, if the child has exited or the terminal is
    /// closed, and else the failure.
    pub fn read(&self, raw: IoOutcome) -> (outcome: IoOutcome)
        ensures
            outcome == read_report(self@, raw),
    {
        match &self.output {
            Some(stream) => stream.read(raw, self.result.is_resolved()),
            None => Err(Some(EBADF)),
        }
    }

    /// What a write to the session's input reports for the answer `raw`
    /// of the operating system: the error `EBADF` where the stream is
    /// taken, and otherwise the answer itself.
    pub fn write(&self, raw: IoOutcome) -> (outcome: IoOutcome)
        ensures
            outcome == match self@.input {
                Some(_) => raw,
                None => Err(Some(EBADF)),
            },
    {
        match &self.input {
            Some(stream) => stream.write(raw),
            None => Err(Some(EBADF)),
        }
    }

    /// What a flush of the session's input reports for the answer `raw`
    /// of the operating system: the error `EBADF` where the stream is
    /// taken, and otherwise the answer itself.
    pub fn flush(&self, raw: Result<(), Option<i32>>) -> (outcome: Result<(), Option<i32>>)
        ensures
            outcome == match self@.input {
                Some(_) => raw,
                None => Err(Some(EBADF)),
            },
    {
        match &self.input {
            Some(stream) => stream.flush(raw),
            None => Err(Some(EBADF)),
        }
    }
}

impl RunningWaiter {
    /// The process id of the child whose session this handle observes.
    pub fn pid(&self) -> (pid: i32)
        ensures
            pid == self@,
    {
        self.child.pid()
    }

    /// Whether the wait is over: whether the exit code of `session` is
    /// published. While it is not, the caller blocks until the exit
    /// watcher has published, and asks again.
    pub fn wait(&self, session: &Running) -> (over: bool)
        ensures
            over == (session@.result is Some),
    {
        session.wait().is_some()
    }

    /// The exit code of `session`, once it is published: what the owner
    /// and every other observer are given.
    pub fn result(&self, session: &Running) -> (code: Option<i32>)
        ensures
            code == session@.result,
    {
        session.result()
    }

    /// Asks for the termination of `session`, with `timeout` as the delay
    /// between the graceful and the forceful signal, and for a wake of
    /// the termination scheduler; the caller then ends the scheduler's
    /// sleep. On a session whose child has exited this does nothing.
    pub fn terminate(&self, session: &mut Running, timeout: &Option<Duration>)
        ensures
            final(session)@ == apply(old(session)@, Op::Request(*timeout)),
            old(session)@.result is Some ==> final(session)@ == old(session)@,
    {
        if !session.result.is_resolved() {
            session.term_delay = *timeout;
            session.wake = true;
        }
    }
}

} // verus!
