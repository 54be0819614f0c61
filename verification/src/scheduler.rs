//! The termination scheduler: the state machine that decides when the
//! process group of a session is signalled.
//!
//! The scheduler is armed when the session starts and then sleeps until
//! the session's timeout has passed or a wake was asked for, by a request
//! to terminate or by the child's exit. A sleep that ends for no such
//! reason is resumed. Awake, the scheduler sends nothing if the child has
//! already exited. Otherwise it sends the graceful signal, sleeps again
//! for the grace delay, and sends the forceful signal. The caller performs
//! each action and reports the end of each sleep as the next event.

use crate::process::{group_of, ProcessHandle};
use std::time::Duration;
use vstd::prelude::*;

verus! {

/// Where the scheduler stands.
#[derive(Debug, Clone, Copy, PartialEq, Eq, Structural)]
pub enum Phase {
    /// Created, not yet started.
    Idle,
    /// Asleep until the timeout passes or somebody asks for a wake.
    Armed,
    /// The graceful signal is out and the forceful one is pending.
    GracePeriod,
    /// Nothing more will be sent.
    Done,
}

/// What happened since the last action.
#[derive(Debug, Clone, Copy, PartialEq, Eq, Structural)]
pub enum Event {
    /// The session has started.
    Start,
    /// The scheduler's sleep has ended. `expired` says whether the time
    /// limit of the sleep has passed; a sleep without a limit never
    /// expires.
    Awake { expired: bool },
}

/// The two requests that a process group can get.
#[derive(Debug, Clone, Copy, PartialEq, Eq, Structural)]
pub enum Signal {
    /// Asks the processes to exit by themselves.
    Graceful,
    /// Ends the processes; it cannot be ignored.
    Forceful,
}

/// Error number of a signal sent to a process group that no longer exists.
pub const ESRCH: i32 = 3;

/// What sending a signal gave: success, or the error number of the failure.
pub type SignalOutcome = Result<(), i32>;

/// The failure that a signal's outcome stands for, if it is one. A signal
/// that found no process left raced with the child's own exit: that is
/// expected and no failure. Every other error is.
pub open spec fn delivery_failure(outcome: SignalOutcome) -> Option<i32> {
    match outcome {
        Ok(_) => None,
        Err(code) => if code == ESRCH {
            None
        } else {
            Some(code)
        },
    }
}

/// Computes [`delivery_failure`].
pub fn signal_failure(outcome: SignalOutcome) -> (failure: Option<i32>)
    ensures
        failure == delivery_failure(outcome),
{
    match outcome {
        Ok(_) => None,
        Err(code) => if code == ESRCH {
            None
        } else {
            Some(code)
        },
    }
}

/// What the caller has to do next.
#[derive(Debug, Clone, Copy, PartialEq, Eq)]
pub enum Action {
    /// Begin a sleep that a wake ends, and that expires after the given
    /// time if there is one; then report its end.
    Park(Option<Duration>),
    /// Go on with the sleep that has just ended, up to the limit it had;
    /// then report its end.
    Resume,
    /// Send the graceful signal to `group`. Then begin a sleep that a wake
    /// ends and that expires after `grace`, or at once without one; then
    /// report its end.
    Graceful { group: i32, grace: Option<Duration> },
    /// Send the forceful signal to `group`, and end the scheduler's task.
    Forceful { group: i32 },
    /// End the scheduler's task.
    Stop,
}

/// Whether the caller sleeps after `action` and reports the end of the
/// sleep. After any other action the scheduler's task is over.
pub open spec fn sleeps_after(action: Action) -> bool {
    match action {
        Action::Park(_) => true,
        Action::Resume => true,
        Action::Graceful { .. } => true,
        Action::Forceful { .. } => false,
        Action::Stop => false,
    }
}

impl Action {
    /// Whether a sleep follows this action, whose end is to be reported;
    /// if not, the scheduler's task ends with the action.
    pub fn sleeps(&self) -> (sleeps: bool)
        ensures
            sleeps == sleeps_after(*self),
    {
        match self {
            Action::Park(_) => true,
            Action::Resume => true,
            Action::Graceful { .. } => true,
            Action::Forceful { .. } => false,
            Action::Stop => false,
        }
    }
}

/// One step's input: the event, and what the shared state of the session
/// held when the event arrived.
pub struct Input {
    pub event: Event,
    /// Whether the exit code was already published.
    pub resolved: bool,
    /// Whether a wake of the scheduler was asked for.
    pub wake: bool,
    /// The grace delay then in force.
    pub delay: Option<Duration>,
}

/// Whether a sleep that has ended is over: its limit has passed, or the
/// wake was asked for. If neither holds, the sleep ended for no reason
/// and is resumed.
pub open spec fn sleep_is_over(event: Event, wake: bool) -> bool {
    match event {
        Event::Awake { expired } => expired || wake,
        Event::Start => false,
    }
}

/// Whether a scheduler in `phase` expects `event`.
pub open spec fn expects(phase: Phase, event: Event) -> bool {
    match (phase, event) {
        (Phase::Idle, Event::Start) => true,
        (Phase::Armed, Event::Awake { .. }) => true,
        (Phase::GracePeriod, Event::Awake { .. }) => true,
        _ => false,
    }
}

/// The phase after `event`. An event that the phase does not expect ends
/// the scheduler.
pub open spec fn next_phase(phase: Phase, event: Event, resolved: bool, wake: bool) -> Phase {
    match (phase, event) {
        (Phase::Idle, Event::Start) => Phase::Armed,
        (Phase::Armed, Event::Awake { .. }) => if !sleep_is_over(event, wake) {
            Phase::Armed
        } else if resolved {
            Phase::Done
        } else {
            Phase::GracePeriod
        },
        (Phase::GracePeriod, Event::Awake { .. }) => if !sleep_is_over(event, wake) {
            Phase::GracePeriod
        } else {
            Phase::Done
        },
        _ => Phase::Done,
    }
}

/// The action that answers `event`.
pub open spec fn next_action(
    phase: Phase,
    event: Event,
    resolved: bool,
    wake: bool,
    timeout: Option<Duration>,
    delay: Option<Duration>,
    group: i32,
) -> Action {
    match (phase, event) {
        (Phase::Idle, Event::Start) => Action::Park(timeout),
        (Phase::Armed, Event::Awake { .. }) => if !sleep_is_over(event, wake) {
            Action::Resume
        } else if resolved {
            Action::Stop
        } else {
            Action::Graceful { group, grace: delay }
        },
        (Phase::GracePeriod, Event::Awake { .. }) => if !sleep_is_over(event, wake) {
            Action::Resume
        } else {
            Action::Forceful { group }
        },
        _ => Action::Stop,
    }
}

/// The signal that an action sends, as a sequence of length zero or one.
pub open spec fn signal_of(action: Action) -> Seq<Signal> {
    match action {
        Action::Graceful { .. } => seq![Signal::Graceful],
        Action::Forceful { .. } => seq![Signal::Forceful],
        _ => Seq::empty(),
    }
}

/// The signals that a scheduler in `phase` sends, in order, while it is
/// fed `inputs`.
pub open spec fn sent(
    phase: Phase,
    inputs: Seq<Input>,
    timeout: Option<Duration>,
    group: i32,
) -> Seq<Signal>
    decreases inputs.len(),
{
    if inputs.len() == 0 {
        Seq::empty()
    } else {
        let first = inputs[0];
        signal_of(
            next_action(
                phase,
                first.event,
                first.resolved,
                first.wake,
                timeout,
                first.delay,
                group,
            ),
        ) + sent(
            next_phase(phase, first.event, first.resolved, first.wake),
            inputs.drop_first(),
            timeout,
            group,
        )
    }
}

/// The scheduler's state as contracts see it.
pub struct SchedulerView {
    pub phase: Phase,
    /// The time after which an armed scheduler wakes by itself.
    pub timeout: Option<Duration>,
    /// The process id of the child.
    pub pid: int,
}

/// The termination scheduler of one session.
#[derive(Debug, Clone, Copy, PartialEq, Eq)]
pub struct Scheduler {
    phase: Phase,
    timeout: Option<Duration>,
    child: ProcessHandle,
}

impl View for Scheduler {
    type V = SchedulerView;

    closed spec fn view(&self) -> SchedulerView {
        SchedulerView { phase: self.phase, timeout: self.timeout, pid: self.child@ }
    }
}

impl Scheduler {
    /// An idle scheduler for `child`, to wake by itself after `timeout` if
    /// there is one.
    pub fn new(child: ProcessHandle, timeout: Option<Duration>) -> (scheduler: Scheduler)
        ensures
            scheduler@ == (SchedulerView { phase: Phase::Idle, timeout, pid: child@ }),
    {
        Scheduler { phase: Phase::Idle, timeout, child }
    }

    /// The child whose group the scheduler signals.
    pub fn child(&self) -> (child: ProcessHandle)
        ensures
            child@ == self@.pid,
    {
        self.child
    }

    /// The current phase.
    pub fn phase(&self) -> (phase: Phase)
        ensures
            phase == self@.phase,
    {
        self.phase
    }

    /// Takes one step: moves to the phase that follows `event` and returns
    /// the action to perform. `resolved` says whether the exit code is
    /// already published, `wake` whether a wake was asked for, and `delay`
    /// is the grace delay now in force; all three are read from the
    /// session's shared state at the time of the event.
    pub fn step(
        &mut self,
        event: Event,
        resolved: bool,
        wake: bool,
        delay: Option<Duration>,
    ) -> (action: Action)
        ensures
            final(self)@ == (SchedulerView {
                phase: next_phase(old(self)@.phase, event, resolved, wake),
                ..old(self)@
            }),
            action == next_action(
                old(self)@.phase,
                event,
                resolved,
                wake,
                old(self)@.timeout,
                delay,
                group_of(old(self)@.pid),
            ),
    {
        let group: i32 = self.child.group();
        match (self.phase, event) {
            (Phase::Idle, Event::Start) => {
                self.phase = Phase::Armed;
                Action::Park(self.timeout)
            },
            (Phase::Armed, Event::Awake { expired }) => {
                if !(expired || wake) {
                    Action::Resume
                } else if resolved {
                    self.phase = Phase::Done;
                    Action::Stop
                } else {
                    self.phase = Phase::GracePeriod;
                    Action::Graceful { group, grace: delay }
                }
            },
            (Phase::GracePeriod, Event::Awake { expired }) => {
                if !(expired || wake) {
                    Action::Resume
                } else {
                    self.phase = Phase::Done;
                    Action::Forceful { group }
                }
            },
            _ => {
                self.phase = Phase::Done;
                Action::Stop
            },
        }
    }
}

/// How far a phase is along the scheduler's one way from idle to done.
pub open spec fn rank(phase: Phase) -> int {
    match phase {
        Phase::Idle => 0,
        Phase::Armed => 1,
        Phase::GracePeriod => 2,
        Phase::Done => 3,
    }
}

/// The scheduler never moves back. It stays where it is only to resume a
/// sleep that ended for no reason; every other step moves it forward,
/// until it is done, where it stays and asks for nothing but to stop.
pub proof fn lemma_phases_advance(
    phase: Phase,
    event: Event,
    resolved: bool,
    wake: bool,
    timeout: Option<Duration>,
    delay: Option<Duration>,
    group: i32,
)
    ensures
        ({
            let next = next_phase(phase, event, resolved, wake);
            let action = next_action(phase, event, resolved, wake, timeout, delay, group);
            &&& rank(phase) <= rank(next) <= 3
            &&& next == phase <==> action == Action::Resume || phase == Phase::Done
            &&& action == Action::Resume ==> !sleep_is_over(event, wake)
            &&& phase == Phase::Done ==> action == Action::Stop
        }),
{
}

/// A caller that starts the scheduler and then reports the end of each
/// sleep never brings an event that the scheduler does not expect, and the
/// scheduler is done exactly when it asks for no further sleep.
pub proof fn lemma_reports_are_expected(
    phase: Phase,
    event: Event,
    resolved: bool,
    wake: bool,
    timeout: Option<Duration>,
    delay: Option<Duration>,
    group: i32,
    expired: bool,
)
    requires
        expects(phase, event),
    ensures
        ({
            let action = next_action(phase, event, resolved, wake, timeout, delay, group);
            let next = next_phase(phase, event, resolved, wake);
            if sleeps_after(action) {
                expects(next, Event::Awake { expired })
            } else {
                next == Phase::Done
            }
        }),
{
}

/// Each signal has one cause. The graceful signal is sent only by an
/// armed scheduler whose sleep is over, because the timeout has passed or
/// a wake was asked for, while the child still runs. The forceful signal
/// is sent only when the sleep of a grace period is over. Both go to the
/// session's process group.
pub proof fn lemma_signals_have_one_cause(
    phase: Phase,
    event: Event,
    resolved: bool,
    wake: bool,
    timeout: Option<Duration>,
    delay: Option<Duration>,
    group: i32,
)
    ensures
        ({
            let action = next_action(phase, event, resolved, wake, timeout, delay, group);
            let next = next_phase(phase, event, resolved, wake);
            &&& action is Graceful <==> phase == Phase::Armed && sleep_is_over(event, wake)
                && !resolved
            &&& action is Forceful <==> phase == Phase::GracePeriod && sleep_is_over(event, wake)
            &&& action is Graceful ==> action == (Action::Graceful { group, grace: delay })
                && next == Phase::GracePeriod
            &&& action is Forceful ==> action == (Action::Forceful { group })
            &&& next == Phase::GracePeriod && phase != Phase::GracePeriod ==> action is Graceful
        }),
{
}

/// What a scheduler can still send from a phase: both signals in order
/// before the grace period, the forceful one alone within it, nothing
/// when done.
pub open spec fn may_send(phase: Phase, signals: Seq<Signal>) -> bool {
    match phase {
        Phase::Idle | Phase::Armed => signals == Seq::<Signal>::empty() || signals
            == seq![Signal::Graceful] || signals == seq![Signal::Graceful, Signal::Forceful],
        Phase::GracePeriod => signals == Seq::<Signal>::empty() || signals
            == seq![Signal::Forceful],
        Phase::Done => signals == Seq::<Signal>::empty(),
    }
}

/// Whatever a scheduler is fed from a phase on, the signals it sends are
/// among those the phase still allows.
pub proof fn lemma_sent_is_allowed(
    phase: Phase,
    inputs: Seq<Input>,
    timeout: Option<Duration>,
    group: i32,
)
    ensures
        may_send(phase, sent(phase, inputs, timeout, group)),
    decreases inputs.len(),
{
    if inputs.len() > 0 {
        let first = inputs[0];
        let next = next_phase(phase, first.event, first.resolved, first.wake);
        let rest = sent(next, inputs.drop_first(), timeout, group);
        lemma_sent_is_allowed(next, inputs.drop_first(), timeout, group);
        assert(Seq::<Signal>::empty() + rest =~= rest);
        assert(seq![Signal::Graceful] + Seq::<Signal>::empty() =~= seq![Signal::Graceful]);
        assert(seq![Signal::Forceful] + Seq::<Signal>::empty() =~= seq![Signal::Forceful]);
        assert(seq![Signal::Graceful] + seq![Signal::Forceful] =~= seq![
            Signal::Graceful,
            Signal::Forceful,
        ]);
    }
}

/// Each signal is sent at most once in the life of a scheduler, and the
/// forceful signal never without the graceful one before it: from its
/// start, a scheduler sends nothing, or the graceful signal, or the
/// graceful signal and then the forceful one.
pub proof fn lemma_signals_once_and_in_order(
    inputs: Seq<Input>,
    timeout: Option<Duration>,
    group: i32,
)
    ensures
        ({
            let signals = sent(Phase::Idle, inputs, timeout, group);
            ||| signals == Seq::<Signal>::empty()
            ||| signals == seq![Signal::Graceful]
            ||| signals == seq![Signal::Graceful, Signal::Forceful]
        }),
{
    lemma_sent_is_allowed(Phase::Idle, inputs, timeout, group);
}

/// Whether the exit code was published before each of the inputs arrived.
pub open spec fn all_resolved(inputs: Seq<Input>) -> bool {
    forall|i: int| 0 <= i < inputs.len() ==> (#[trigger] inputs[i]).resolved
}

/// Whether none of the inputs ends a sleep: no limit has passed and no
/// wake was asked for.
pub open spec fn all_asleep(inputs: Seq<Input>) -> bool {
    forall|i: int|
        0 <= i < inputs.len() ==> !sleep_is_over(
            (#[trigger] inputs[i]).event,
            inputs[i].wake,
        )
}

/// A session whose child has exited before its scheduler first wakes is
/// never signalled, whatever wakes the scheduler and however often.
pub proof fn lemma_exited_session_is_never_signalled(
    phase: Phase,
    inputs: Seq<Input>,
    timeout: Option<Duration>,
    group: i32,
)
    requires
        phase != Phase::GracePeriod,
        all_resolved(inputs),
    ensures
        sent(phase, inputs, timeout, group) == Seq::<Signal>::empty(),
    decreases inputs.len(),
{
    if inputs.len() > 0 {
        let first = inputs[0];
        let next = next_phase(phase, first.event, first.resolved, first.wake);
        assert(first.resolved);
        assert(all_resolved(inputs.drop_first())) by {
            assert forall|i: int| 0 <= i < inputs.drop_first().len() implies (
            #[trigger] inputs.drop_first()[i]).resolved by {
                assert(inputs.drop_first()[i] == inputs[i + 1]);
            }
        }
        lemma_exited_session_is_never_signalled(next, inputs.drop_first(), timeout, group);
        assert(Seq::<Signal>::empty() + Seq::<Signal>::empty() =~= Seq::<Signal>::empty());
    }
}

/// No signal is sent early: as long as no time limit has passed and no
/// wake was asked for, the scheduler sends nothing, in whatever phase it
/// is and however often its sleep is disturbed.
pub proof fn lemma_nothing_is_sent_early(
    phase: Phase,
    inputs: Seq<Input>,
    timeout: Option<Duration>,
    group: i32,
)
    requires
        all_asleep(inputs),
    ensures
        sent(phase, inputs, timeout, group) == Seq::<Signal>::empty(),
    decreases inputs.len(),
{
    if inputs.len() > 0 {
        let first = inputs[0];
        let next = next_phase(phase, first.event, first.resolved, first.wake);
        assert(!sleep_is_over(first.event, first.wake));
        assert(all_asleep(inputs.drop_first())) by {
            assert forall|i: int| 0 <= i < inputs.drop_first().len() implies !sleep_is_over(
                (#[trigger] inputs.drop_first()[i]).event,
                inputs.drop_first()[i].wake,
            ) by {
                assert(inputs.drop_first()[i] == inputs[i + 1]);
            }
        }
        lemma_nothing_is_sent_early(next, inputs.drop_first(), timeout, group);
        assert(Seq::<Signal>::empty() + Seq::<Signal>::empty() =~= Seq::<Signal>::empty());
    }
}

} // verus!
