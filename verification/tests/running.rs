use runny::error::RunningError;
use runny::exit::WaitStatus;
use runny::process::ProcessHandle;
use runny::running::{Running, Termination};
use runny::scheduler::{Action, Event};
use runny::stream::{RunningInput, RunningOutput};
use std::time::Duration;

const EARLY: Event = Event::Awake { expired: false };
const LATE: Event = Event::Awake { expired: true };

fn session(pid: u32, timeout: Option<Duration>) -> Running {
    Running::new(
        ProcessHandle::new(pid).unwrap(),
        RunningInput::new(10),
        RunningOutput::new(11),
        timeout,
        RunningOutput::new(12),
    )
}

#[test]
fn new_session_owns_its_streams_and_has_no_result() {
    let running = session(321, None);
    assert_eq!(running.pid(), 321);
    assert_eq!(running.input(), &Some(RunningInput::new(10)));
    assert_eq!(running.output(), &Some(RunningOutput::new(11)));
    assert_eq!(running.error(), &Some(RunningOutput::new(12)));
    assert_eq!(running.wait(), None);
    assert_eq!(running.result(), None);
    assert_eq!(running.terminated(), None);
    assert_eq!(running.reader(), Ok(11));
    assert_eq!(running.writer(), Ok(10));
}

#[test]
fn immediate_exit_code_is_the_result() {
    for code in [0, 1, 2, 127, 255] {
        let mut running = session(321, None);
        assert!(running.watch());
        assert_eq!(running.exited(WaitStatus::Exited(code)), code);
        assert_eq!(running.wait(), Some(code));
        assert_eq!(running.result(), Some(code));
    }
}

#[test]
fn killed_child_has_a_negative_result() {
    let mut running = session(321, None);
    assert_eq!(running.exited(WaitStatus::Signaled), -2);
    assert_eq!(running.result(), Some(-2));
    let mut other = session(322, None);
    assert_eq!(other.exited(WaitStatus::Failed), -1);
    assert_eq!(other.result(), Some(-1));
}

#[test]
fn result_is_published_once() {
    let mut running = session(321, None);
    assert_eq!(running.exited(WaitStatus::Exited(3)), 3);
    assert_eq!(running.exited(WaitStatus::Failed), 3);
    assert_eq!(running.exited(WaitStatus::Exited(0)), 3);
    assert_eq!(running.result(), Some(3));
}

#[test]
fn child_is_waited_for_once() {
    let mut running = session(321, None);
    assert!(running.watch());
    assert!(!running.watch());
    assert!(!running.watch());
}

#[test]
fn terminate_after_exit_returns_the_code_and_changes_nothing() {
    let mut running = session(321, Some(Duration::from_secs(3)));
    running.schedule(Event::Start);
    running.exited(WaitStatus::Exited(4));
    let mut expected = session(321, Some(Duration::from_secs(3)));
    expected.schedule(Event::Start);
    expected.exited(WaitStatus::Exited(4));

    assert_eq!(
        running.terminate(Some(Duration::from_secs(9))),
        Termination::AlreadyExited(4)
    );
    assert_eq!(running, expected);
    assert_eq!(running.terminate(None), Termination::AlreadyExited(4));
    assert_eq!(running, expected);
    assert_eq!(running.terminated(), Some(Ok(4)));
    assert_eq!(running.schedule(EARLY), Action::Stop);
}

#[test]
fn untouched_session_grants_five_seconds_of_grace() {
    let timeout = Some(Duration::from_secs(3));
    let mut running = session(500, timeout);
    assert_eq!(running.schedule(Event::Start), Action::Park(timeout));
    assert_eq!(running.schedule(EARLY), Action::Resume);
    assert_eq!(
        running.schedule(LATE),
        Action::Graceful { group: -500, grace: Some(Duration::from_secs(5)) }
    );
    assert_eq!(running.schedule(EARLY), Action::Resume);
    assert_eq!(running.schedule(LATE), Action::Forceful { group: -500 });
    assert_eq!(running.schedule(LATE), Action::Stop);
}

#[test]
fn requested_delay_replaces_the_default() {
    let mut running = session(500, None);
    assert_eq!(running.schedule(Event::Start), Action::Park(None));
    assert_eq!(
        running.terminate(Some(Duration::from_millis(250))),
        Termination::Requested
    );
    assert_eq!(running.terminated(), None);
    assert_eq!(
        running.schedule(EARLY),
        Action::Graceful { group: -500, grace: Some(Duration::from_millis(250)) }
    );
    assert_eq!(running.schedule(EARLY), Action::Resume);
    assert_eq!(running.schedule(LATE), Action::Forceful { group: -500 });
}

#[test]
fn terminate_without_delay_kills_at_once() {
    let mut running = session(500, None);
    running.schedule(Event::Start);
    assert_eq!(running.terminate(None), Termination::Requested);
    assert_eq!(running.schedule(EARLY), Action::Graceful { group: -500, grace: None });
    assert_eq!(running.schedule(LATE), Action::Forceful { group: -500 });
    running.exited(WaitStatus::Signaled);
    assert_eq!(running.terminated(), Some(Ok(-2)));
}

#[test]
fn second_take_of_a_stream_is_an_error() {
    let mut running = session(321, None);
    assert_eq!(running.take_output(), Ok(RunningOutput::new(11)));
    assert_eq!(running.output(), &None);
    assert_eq!(running.take_output(), Err(RunningError::RunningIoError(9)));
    assert_eq!(running.take_output(), Err(RunningError::RunningIoError(9)));

    assert_eq!(running.take_input(), Ok(RunningInput::new(10)));
    assert_eq!(running.input(), &None);
    assert_eq!(running.take_input(), Err(RunningError::RunningIoError(9)));

    assert_eq!(running.take_error(), Ok(RunningOutput::new(12)));
    assert_eq!(running.error(), &None);
    assert_eq!(running.take_error(), Err(RunningError::RunningIoError(9)));
}

#[test]
fn taking_one_stream_leaves_the_others() {
    let mut running = session(321, None);
    running.take_error().unwrap();
    assert_eq!(running.input(), &Some(RunningInput::new(10)));
    assert_eq!(running.output(), &Some(RunningOutput::new(11)));
    assert_eq!(running.pid(), 321);
    assert_eq!(running.result(), None);
}

#[test]
fn reading_a_taken_stream_is_an_error() {
    let mut running = session(321, None);
    assert_eq!(running.read(Ok(5)), Ok(5));
    assert_eq!(running.read(Err(Some(5))), Ok(0));
    assert_eq!(running.read(Err(Some(11))), Err(Some(11)));
    running.take_output().unwrap();
    assert_eq!(running.reader(), Err(RunningError::RunningIoError(9)));
    assert_eq!(running.read(Ok(5)), Err(Some(9)));
    assert_eq!(running.read(Err(Some(5))), Err(Some(9)));
}

#[test]
fn writing_a_taken_stream_is_an_error() {
    let mut running = session(321, None);
    assert_eq!(running.write(Ok(4)), Ok(4));
    assert_eq!(running.write(Err(Some(32))), Err(Some(32)));
    assert_eq!(running.flush(Ok(())), Ok(()));
    running.take_input().unwrap();
    assert_eq!(running.writer(), Err(RunningError::RunningIoError(9)));
    assert_eq!(running.write(Ok(4)), Err(Some(9)));
    assert_eq!(running.flush(Ok(())), Err(Some(9)));
}

#[test]
fn waiters_observe_what_the_owner_observes() {
    let mut running = session(321, None);
    let first = running.waiter();
    let second = running.waiter();
    assert_eq!(first.pid(), 321);
    assert_eq!(first, second);
    assert!(!first.wait(&running));
    assert_eq!(first.result(&running), None);
    running.exited(WaitStatus::Exited(1));
    assert!(first.wait(&running));
    assert!(second.wait(&running));
    assert_eq!(first.result(&running), Some(1));
    assert_eq!(second.result(&running), Some(1));
    assert_eq!(running.result(), Some(1));
    assert_eq!(running.waiter().result(&running), Some(1));
}

#[test]
fn waiter_can_ask_for_termination() {
    let mut running = session(900, None);
    running.schedule(Event::Start);
    let waiter = running.waiter();
    assert_eq!(running.schedule(EARLY), Action::Resume);
    waiter.terminate(&mut running, &Some(Duration::from_secs(2)));
    assert_eq!(
        running.schedule(EARLY),
        Action::Graceful { group: -900, grace: Some(Duration::from_secs(2)) }
    );
}

#[test]
fn waiter_request_after_exit_sends_nothing() {
    let mut running = session(900, None);
    running.schedule(Event::Start);
    running.exited(WaitStatus::Exited(0));
    let waiter = running.waiter();
    waiter.terminate(&mut running, &None);
    assert_eq!(running.schedule(EARLY), Action::Stop);
    assert_eq!(running.result(), Some(0));
}

#[test]
fn missing_process_is_swallowed() {
    let mut running = session(900, None);
    assert!(!running.signalled(Ok(())));
    assert!(!running.signalled(Err(3)));
    assert_eq!(running.terminated(), None);
    running.exited(WaitStatus::Signaled);
    assert_eq!(running.terminated(), Some(Ok(-2)));
}

#[test]
fn undelivered_signal_is_reported_to_terminate() {
    let mut running = session(900, None);
    assert_eq!(running.terminate(None), Termination::Requested);
    assert!(running.signalled(Err(1)));
    assert!(!running.signalled(Err(22)));
    assert_eq!(running.terminated(), Some(Err(RunningError::RunningNixError(1))));
    assert_eq!(running.wait(), None);
}

#[test]
fn timeout_scenario_ends_with_a_signalled_result() {
    let timeout = Some(Duration::from_secs(3));
    let mut running = session(4321, timeout);
    assert!(running.watch());
    assert_eq!(running.schedule(Event::Start), Action::Park(timeout));
    assert_eq!(running.schedule(EARLY), Action::Resume);
    assert_eq!(
        running.schedule(LATE),
        Action::Graceful { group: -4321, grace: Some(Duration::from_secs(5)) }
    );
    assert!(!running.signalled(Ok(())));
    let code = running.exited(WaitStatus::Signaled);
    assert_ne!(code, 0);
    assert_eq!(running.schedule(EARLY), Action::Forceful { group: -4321 });
    assert!(!running.signalled(Err(3)));
    assert_eq!(running.result(), Some(code));
    assert_eq!(running.terminated(), Some(Ok(code)));
}

#[test]
fn echo_scenario_ends_with_code_zero_and_a_clean_end_of_stream() {
    let launch = runny::runny::Runny::new("echo -n hello").prepare().unwrap();
    assert_eq!(launch.program, "echo");
    assert_eq!(launch.args, vec!["-n".to_string(), "hello".to_string()]);

    let mut running = session(77, launch.timeout);
    assert_eq!(running.schedule(Event::Start), Action::Park(None));
    assert_eq!(running.read(Ok(5)), Ok(5));
    assert!(running.watch());
    assert_eq!(running.exited(WaitStatus::Exited(0)), 0);
    assert_eq!(running.read(Err(Some(5))), Ok(0));
    assert_eq!(running.result(), Some(0));
    assert_eq!(running.schedule(EARLY), Action::Stop);
}

#[test]
fn interactive_scenario_passes_input_and_output_through() {
    let mut running = session(78, None);
    let input = running.take_input().unwrap();
    let output = running.take_output().unwrap();
    assert_eq!(input.write(Ok(4)), Ok(4));
    assert_eq!(input.flush(Ok(())), Ok(()));
    assert_eq!(output.read(Ok(30), false), Ok(30));
    assert_eq!(running.result(), None);
    assert_eq!(output.read(Err(Some(5)), false), Ok(0));
    assert_eq!(running.terminate(None), Termination::Requested);
}

#[test]
fn exit_wakes_the_scheduler_and_ends_it() {
    let mut running = session(55, Some(Duration::from_secs(30)));
    assert_eq!(running.schedule(Event::Start), Action::Park(Some(Duration::from_secs(30))));
    assert_eq!(running.schedule(EARLY), Action::Resume);
    running.exited(WaitStatus::Exited(0));
    assert_eq!(running.schedule(EARLY), Action::Stop);
    assert_eq!(running.schedule(EARLY), Action::Stop);
}

#[test]
fn a_request_wakes_the_scheduler_only_once() {
    let mut running = session(55, None);
    running.schedule(Event::Start);
    assert_eq!(running.terminate(Some(Duration::from_secs(2))), Termination::Requested);
    assert_eq!(
        running.schedule(EARLY),
        Action::Graceful { group: -55, grace: Some(Duration::from_secs(2)) }
    );
    assert_eq!(running.schedule(EARLY), Action::Resume);
    assert_eq!(running.schedule(EARLY), Action::Resume);
    assert_eq!(running.schedule(LATE), Action::Forceful { group: -55 });
}

#[test]
fn waiter_request_after_exit_changes_nothing() {
    let mut running = session(901, Some(Duration::from_secs(3)));
    running.schedule(Event::Start);
    running.exited(WaitStatus::Exited(6));
    running.schedule(EARLY);
    let mut expected = session(901, Some(Duration::from_secs(3)));
    expected.schedule(Event::Start);
    expected.exited(WaitStatus::Exited(6));
    expected.schedule(EARLY);

    let waiter = running.waiter();
    waiter.terminate(&mut running, &Some(Duration::from_secs(9)));
    assert_eq!(running, expected);
    waiter.terminate(&mut running, &None);
    assert_eq!(running, expected);
    assert_eq!(waiter.result(&running), Some(6));
    assert_eq!(running.schedule(EARLY), Action::Stop);
}

#[test]
fn failed_read_of_an_exited_session_is_end_of_stream() {
    let mut running = session(321, None);
    assert_eq!(running.read(Err(Some(9))), Err(Some(9)));
    assert_eq!(running.read(Err(None)), Err(None));
    running.exited(WaitStatus::Exited(0));
    for code in [1, 4, 5, 9, 11, 104] {
        assert_eq!(running.read(Err(Some(code))), Ok(0));
        assert_eq!(running.read(Err(Some(code))), Ok(0));
    }
    assert_eq!(running.read(Err(None)), Ok(0));
    assert_eq!(running.read(Ok(7)), Ok(7));
    assert_eq!(running.read(Ok(0)), Ok(0));
}

#[test]
fn taken_stream_of_an_exited_session_reads_as_end_of_stream() {
    let mut running = session(321, None);
    let output = running.take_output().unwrap();
    let error = running.take_error().unwrap();
    assert_eq!(output.read(Err(Some(9)), running.wait().is_some()), Err(Some(9)));
    running.exited(WaitStatus::Signaled);
    assert_eq!(output.read(Err(Some(9)), running.wait().is_some()), Ok(0));
    assert_eq!(output.read(Err(Some(5)), running.wait().is_some()), Ok(0));
    assert_eq!(output.read(Err(None), running.wait().is_some()), Ok(0));
    assert_eq!(error.read(Err(Some(4)), running.wait().is_some()), Ok(0));
    assert_eq!(error.read(Ok(2), running.wait().is_some()), Ok(2));
    assert_eq!(running.read(Err(Some(5))), Err(Some(9)));
}
