//! What holds of a session whatever is done to it, and in whatever order.

use crate::error::RunningError;
use crate::exit::WaitStatus;
use crate::grace::{seconds, DEFAULT_GRACE_SECS};
use crate::process::group_of;
use crate::running::{
    apply,
    read_report,
    scheduled,
    started,
    termination_answer,
    Op,
    RunningView,
};
use crate::stream::IoOutcome;
use crate::scheduler::{may_send, signal_of, Action, Event, Phase, Signal};
use std::time::Duration;
use vstd::prelude::*;

verus! {

/// The session after a sequence of operations.
pub open spec fn run(v: RunningView, ops: Seq<Op>) -> RunningView
    decreases ops.len(),
{
    if ops.len() == 0 {
        v
    } else {
        run(apply(v, ops[0]), ops.drop_first())
    }
}

/// The signals that the termination scheduler sends, in order, during a
/// sequence of operations.
pub open spec fn signals(v: RunningView, ops: Seq<Op>) -> Seq<Signal>
    decreases ops.len(),
{
    if ops.len() == 0 {
        Seq::empty()
    } else {
        let now = match ops[0] {
            Op::Schedule(event) => signal_of(scheduled(v, event)),
            _ => Seq::empty(),
        };
        now + signals(apply(v, ops[0]), ops.drop_first())
    }
}

/// How often the wait for the child is claimed with success during a
/// sequence of operations.
pub open spec fn claims(v: RunningView, ops: Seq<Op>) -> nat
    decreases ops.len(),
{
    if ops.len() == 0 {
        0
    } else {
        let now: nat = match ops[0] {
            Op::Watch => if v.watched {
                0
            } else {
                1
            },
            _ => 0,
        };
        now + claims(apply(v, ops[0]), ops.drop_first())
    }
}

/// A published exit code is final: after any operations, the session
/// holds the code that was published first, so the owner and every
/// observer read the same code at any time.
pub proof fn lemma_exit_code_is_final(v: RunningView, ops: Seq<Op>)
    requires
        v.result is Some,
    ensures
        run(v, ops).result == v.result,
    decreases ops.len(),
{
    if ops.len() > 0 {
        lemma_exit_code_is_final(apply(v, ops[0]), ops.drop_first());
    }
}

/// A child that exits with a code of its own is reported with that code:
/// once the exit watcher has published it on a session without a code,
/// every later read gives it, whatever happens in between.
pub proof fn lemma_exit_code_is_reported(v: RunningView, code: i32, ops: Seq<Op>)
    requires
        v.result is None,
    ensures
        run(apply(v, Op::Exited(WaitStatus::Exited(code))), ops).result == Some(code),
{
    lemma_exit_code_is_final(apply(v, Op::Exited(WaitStatus::Exited(code))), ops);
}

/// Asking an exited session to terminate changes nothing, whether the
/// owner or an observer asks, and the owner is answered with the exit code.
pub proof fn lemma_terminate_after_exit_is_idle(v: RunningView, delay: Option<Duration>)
    requires
        v.result is Some,
    ensures
        apply(v, Op::Terminate(delay)) == v,
        apply(v, Op::Request(delay)) == v,
        v.signal_failure is None ==> termination_answer(v) == Some(
            Ok::<i32, RunningError>(v.result->0),
        ),
{
}

/// No signal is sent to a child that has exited: on a session whose exit
/// code is published before the scheduler has sent anything, no sequence
/// of operations makes the scheduler send a signal.
pub proof fn lemma_no_signal_after_exit(v: RunningView, ops: Seq<Op>)
    requires
        v.result is Some,
        v.phase != Phase::GracePeriod,
    ensures
        signals(v, ops) == Seq::<Signal>::empty(),
    decreases ops.len(),
{
    if ops.len() > 0 {
        let next = apply(v, ops[0]);
        lemma_no_signal_after_exit(next, ops.drop_first());
        assert(Seq::<Signal>::empty() + Seq::<Signal>::empty() =~= Seq::<Signal>::empty());
    }
}

/// Whatever is done to a session, the signals it sends from a phase on
/// are among those the phase still allows.
pub proof fn lemma_signals_are_allowed(v: RunningView, ops: Seq<Op>)
    ensures
        may_send(v.phase, signals(v, ops)),
    decreases ops.len(),
{
    if ops.len() > 0 {
        let next = apply(v, ops[0]);
        let rest = signals(next, ops.drop_first());
        lemma_signals_are_allowed(next, ops.drop_first());
        assert(Seq::<Signal>::empty() + rest =~= rest);
        assert(seq![Signal::Graceful] + Seq::<Signal>::empty() =~= seq![Signal::Graceful]);
        assert(seq![Signal::Forceful] + Seq::<Signal>::empty() =~= seq![Signal::Forceful]);
        assert(seq![Signal::Graceful] + seq![Signal::Forceful] =~= seq![
            Signal::Graceful,
            Signal::Forceful,
        ]);
    }
}

/// In the whole life of a session each signal is sent at most once, and
/// the forceful one only after the graceful one, however the requests to
/// terminate, the timeout and the child's exit fall together.
pub proof fn lemma_signals_once_and_in_order(
    pid: int,
    input: i32,
    output: i32,
    error: i32,
    timeout: Option<Duration>,
    ops: Seq<Op>,
)
    ensures
        ({
            let sent = signals(started(pid, input, output, error, timeout), ops);
            ||| sent == Seq::<Signal>::empty()
            ||| sent == seq![Signal::Graceful]
            ||| sent == seq![Signal::Graceful, Signal::Forceful]
        }),
{
    lemma_signals_are_allowed(started(pid, input, output, error, timeout), ops);
}

/// Whether an operation neither asks for a wake of the scheduler nor
/// reports a sleep whose time limit has passed.
pub open spec fn is_quiet(op: Op) -> bool {
    match op {
        Op::Terminate(_) => false,
        Op::Request(_) => false,
        Op::Exited(_) => false,
        Op::Schedule(Event::Awake { expired }) => !expired,
        _ => true,
    }
}

/// Whether every operation of a sequence is quiet.
pub open spec fn all_quiet(ops: Seq<Op>) -> bool {
    forall|i: int| 0 <= i < ops.len() ==> is_quiet(#[trigger] ops[i])
}

/// No signal is sent early. While nobody asks for termination, the child
/// runs, and the time limit of the scheduler's sleep has not passed, the
/// session sends no signal, however often that sleep is disturbed: not
/// the graceful signal before the timeout, and not the forceful one
/// before the end of the grace delay.
pub proof fn lemma_nothing_is_sent_early(v: RunningView, ops: Seq<Op>)
    requires
        !v.wake,
        all_quiet(ops),
    ensures
        signals(v, ops) == Seq::<Signal>::empty(),
    decreases ops.len(),
{
    if ops.len() > 0 {
        assert(is_quiet(ops[0]));
        assert(all_quiet(ops.drop_first())) by {
            assert forall|i: int| 0 <= i < ops.drop_first().len() implies is_quiet(
                #[trigger] ops.drop_first()[i],
            ) by {
                assert(ops.drop_first()[i] == ops[i + 1]);
            }
        }
        lemma_nothing_is_sent_early(apply(v, ops[0]), ops.drop_first());
        assert(Seq::<Signal>::empty() + Seq::<Signal>::empty() =~= Seq::<Signal>::empty());
    }
}

/// A session that is left alone escalates step by step. Its scheduler
/// first sleeps for the timeout. When that sleep has expired while the
/// child still runs, it sends the graceful signal to the child's process
/// group and sleeps for the default grace delay. When that sleep has
/// expired it sends the forceful signal, to the same group, and is done.
/// A sleep that ends before its time is resumed, and changes nothing.
pub proof fn lemma_timeout_escalates(
    pid: int,
    input: i32,
    output: i32,
    error: i32,
    timeout: Option<Duration>,
)
    ensures
        ({
            let early = Event::Awake { expired: false };
            let late = Event::Awake { expired: true };
            let idle = started(pid, input, output, error, timeout);
            let armed = apply(idle, Op::Schedule(Event::Start));
            let grace = apply(armed, Op::Schedule(late));
            let done = apply(grace, Op::Schedule(late));
            &&& scheduled(idle, Event::Start) == Action::Park(timeout)
            &&& scheduled(armed, early) == Action::Resume
            &&& apply(armed, Op::Schedule(early)) == armed
            &&& scheduled(armed, late) == (Action::Graceful {
                group: group_of(pid),
                grace: Some(seconds(DEFAULT_GRACE_SECS)),
            })
            &&& scheduled(grace, early) == Action::Resume
            &&& apply(grace, Op::Schedule(early)) == grace
            &&& scheduled(grace, late) == (Action::Forceful { group: group_of(pid) })
            &&& done.phase == Phase::Done
        }),
{
}

/// A request to terminate wakes the scheduler at once and sets the grace
/// delay: the scheduler's next awakening, expired or not, sends the
/// graceful signal and grants exactly the requested delay, whether the
/// owner or an observer asked.
pub proof fn lemma_requested_delay_is_granted(
    v: RunningView,
    delay: Option<Duration>,
    expired: bool,
)
    requires
        v.result is None,
        v.phase == Phase::Armed,
    ensures
        scheduled(apply(v, Op::Terminate(delay)), Event::Awake { expired }) == (Action::Graceful {
            group: group_of(v.pid),
            grace: delay,
        }),
        scheduled(apply(v, Op::Request(delay)), Event::Awake { expired }) == (Action::Graceful {
            group: group_of(v.pid),
            grace: delay,
        }),
{
}

/// The child's exit ends the scheduler's task: the exit asks for a wake,
/// and the awakening that answers it stops an armed scheduler without a
/// signal, and ends a grace period.
pub proof fn lemma_exit_ends_the_scheduler(v: RunningView, status: WaitStatus, expired: bool)
    requires
        v.phase == Phase::Armed || v.phase == Phase::GracePeriod,
    ensures
        ({
            let exited = apply(v, Op::Exited(status));
            let awake = Event::Awake { expired };
            &&& apply(exited, Op::Schedule(awake)).phase == Phase::Done
            &&& v.phase == Phase::Armed ==> scheduled(exited, awake) == Action::Stop
            &&& v.phase == Phase::GracePeriod ==> scheduled(exited, awake) == (Action::Forceful {
                group: group_of(v.pid),
            })
        }),
{
}

/// After the child's exit the session's output only ends: whatever is
/// done to the session afterwards, and whatever error the operating
/// system gives, a read of the output that the session still owns
/// reports bytes or the end of the stream, and never a failure.
pub proof fn lemma_output_ends_after_exit(v: RunningView, ops: Seq<Op>, raw: IoOutcome)
    requires
        v.result is Some,
    ensures
        run(v, ops).output is Some ==> read_report(run(v, ops), raw) is Ok,
        run(v, ops).output is Some && raw is Err ==> read_report(run(v, ops), raw) == Ok::<
            usize,
            Option<i32>,
        >(0),
{
    lemma_exit_code_is_final(v, ops);
}

/// A stream that was taken stays taken: no operation puts it back, so a
/// second take fails and no second owner of the stream can appear.
pub proof fn lemma_taken_stream_stays_taken(v: RunningView, ops: Seq<Op>)
    ensures
        v.input is None ==> run(v, ops).input is None,
        v.output is None ==> run(v, ops).output is None,
        v.error is None ==> run(v, ops).error is None,
        apply(v, Op::TakeInput).input is None,
        apply(v, Op::TakeOutput).output is None,
        apply(v, Op::TakeError).error is None,
    decreases ops.len(),
{
    if ops.len() > 0 {
        lemma_taken_stream_stays_taken(apply(v, ops[0]), ops.drop_first());
    }
}

/// The child is waited for at most once: however often the wait is
/// claimed, at most one claim succeeds, and none after one has.
pub proof fn lemma_child_is_waited_for_once(v: RunningView, ops: Seq<Op>)
    ensures
        claims(v, ops) <= 1,
        v.watched ==> claims(v, ops) == 0,
    decreases ops.len(),
{
    if ops.len() > 0 {
        lemma_child_is_waited_for_once(apply(v, ops[0]), ops.drop_first());
    }
}

} // verus!
