use watchdog::cancel::{CancellationToken, Poll};
use watchdog::config::{LaunchRequest, Stream, StreamSetup, SupervisionConfig};
use watchdog::exit::ExitReport;
use watchdog::supervisor::{
    Action, Event, Fault, Phase, Severity, StepError, StopReason, Supervisor, EXIT_FAILURE,
    EXIT_SUCCESS,
};

fn config_with_delay(delay: u64) -> SupervisionConfig {
    SupervisionConfig {
        executable: "worker".to_string(),
        args: vec!["--once".to_string()],
        restart_delay_ms: delay,
        stdin: None,
        stdout: None,
        stderr: None,
    }
}

fn redirected_config() -> SupervisionConfig {
    SupervisionConfig {
        executable: "worker".to_string(),
        args: Vec::new(),
        restart_delay_ms: 10,
        stdin: Some("in.txt".to_string()),
        stdout: Some("out.log".to_string()),
        stderr: Some("err.log".to_string()),
    }
}

fn supervisor(delay: u64) -> Supervisor {
    Supervisor::new(config_with_delay(delay), CancellationToken::new())
}

fn exited(code: i32) -> Event {
    Event::Exited(ExitReport { code: Some(code), signal: None })
}

fn killed(signal: i32) -> Event {
    Event::Exited(ExitReport { code: None, signal: Some(signal) })
}

fn abnormal_cycle(code: i32) -> Vec<Event> {
    vec![
        Event::Polled(Poll::Empty),
        Event::Spawned,
        exited(code),
        Event::Polled(Poll::Empty),
        Event::DelayElapsed,
    ]
}

fn plain_request() -> LaunchRequest {
    LaunchRequest {
        executable: "worker".to_string(),
        args: vec!["--once".to_string()],
        stdin: StreamSetup::Inherit,
        stdout: StreamSetup::Inherit,
        stderr: StreamSetup::Inherit,
    }
}

#[test]
fn supervision_begins_with_a_cancellation_check() {
    let sup = supervisor(1000);
    assert_eq!(sup.phase(), Phase::CheckCancellation);
    assert_eq!(sup.action(), Action::Poll);
    assert!(!sup.is_cancelled());
    assert!(!sup.is_finished());
    assert_eq!(sup.exit_code(), None);
    assert_eq!(sup.config(), &config_with_delay(1000));
}

#[test]
fn one_cycle_asks_for_spawn_wait_poll_delay_poll() {
    let mut sup = supervisor(750);
    assert_eq!(sup.step(Event::Polled(Poll::Empty)), Ok(Action::Spawn(plain_request())));
    assert_eq!(sup.phase(), Phase::Spawning);
    assert_eq!(sup.step(Event::Spawned), Ok(Action::Wait));
    assert_eq!(sup.phase(), Phase::Running);
    assert_eq!(sup.step(exited(7)), Ok(Action::Poll));
    assert_eq!(sup.phase(), Phase::AbnormalExit(7));
    assert_eq!(sup.step(Event::Polled(Poll::Empty)), Ok(Action::Delay(750)));
    assert_eq!(sup.phase(), Phase::DelayingRestart);
    assert_eq!(sup.step(Event::DelayElapsed), Ok(Action::Poll));
    assert_eq!(sup.phase(), Phase::CheckCancellation);
    assert!(!sup.is_finished());
}

#[test]
fn abnormal_exits_spawn_once_more_than_they_restart() {
    for restarts in 0..6usize {
        let mut events: Vec<Event> = Vec::new();
        for k in 0..restarts {
            events.extend(abnormal_cycle(1 + k as i32));
        }
        events.extend(vec![
            Event::Polled(Poll::Empty),
            Event::Spawned,
            exited(42),
            Event::Polled(Poll::Signalled),
        ]);
        let mut sup = supervisor(5);
        assert_eq!(sup.replay(&events), restarts + 1);
        assert_eq!(sup.phase(), Phase::Stopping(StopReason::Cancelled));
    }
}

#[test]
fn every_restart_is_preceded_by_the_configured_delay() {
    let mut sup = supervisor(321);
    let mut spawns = 0;
    let mut delays = 0;
    let mut last_was_delay = true;
    let mut action = sup.action();
    for round in 0..4 {
        assert_eq!(action, Action::Poll);
        action = sup.step(Event::Polled(Poll::Disconnected)).unwrap();
        assert_eq!(action, Action::Spawn(plain_request()));
        assert!(last_was_delay);
        spawns += 1;
        last_was_delay = false;
        action = sup.step(Event::Spawned).unwrap();
        assert_eq!(action, Action::Wait);
        action = sup.step(exited(round + 1)).unwrap();
        assert_eq!(action, Action::Poll);
        action = sup.step(Event::Polled(Poll::Empty)).unwrap();
        assert_eq!(action, Action::Delay(321));
        delays += 1;
        last_was_delay = true;
        action = sup.step(Event::DelayElapsed).unwrap();
    }
    assert_eq!(spawns, 4);
    assert_eq!(delays, 4);
    assert_eq!(sup.step(Event::Polled(Poll::Signalled)), Ok(Action::Stop(StopReason::Cancelled)));
}

#[test]
fn normal_exit_spawns_once_whatever_the_delay() {
    for delay in [0u64, 1, 1000, u64::MAX] {
        let mut sup = supervisor(delay);
        let events = vec![
            Event::Polled(Poll::Empty),
            Event::Spawned,
            exited(0),
            Event::Polled(Poll::Empty),
            Event::DelayElapsed,
            Event::Polled(Poll::Empty),
            Event::Spawned,
        ];
        assert_eq!(sup.replay(&events), 1);
        assert_eq!(sup.phase(), Phase::Stopping(StopReason::NormalExit));
        assert_eq!(sup.action(), Action::Stop(StopReason::NormalExit));
        assert_eq!(sup.exit_code(), Some(0));
        assert!(sup.is_finished());
    }
}

#[test]
fn signal_terminated_child_spawns_once() {
    let mut sup = supervisor(1000);
    let events = vec![
        Event::Polled(Poll::Empty),
        Event::Spawned,
        killed(9),
        Event::Polled(Poll::Empty),
        Event::DelayElapsed,
        Event::Polled(Poll::Empty),
    ];
    assert_eq!(sup.replay(&events), 1);
    assert_eq!(sup.phase(), Phase::Stopping(StopReason::TerminatedBySignal(9)));
    assert_eq!(sup.action(), Action::Stop(StopReason::TerminatedBySignal(9)));
    assert_eq!(sup.exit_code(), Some(EXIT_SUCCESS));
}

#[test]
fn cancellation_before_first_spawn_spawns_nothing() {
    let mut sup = supervisor(1000);
    assert_eq!(sup.step(Event::Polled(Poll::Signalled)), Ok(Action::Stop(StopReason::Cancelled)));
    assert!(sup.is_cancelled());
    assert!(sup.is_finished());
    assert_eq!(sup.exit_code(), Some(0));

    let mut again = supervisor(1000);
    let events = vec![Event::Polled(Poll::Signalled), Event::Spawned, exited(1)];
    assert_eq!(again.replay(&events), 0);
    assert_eq!(again.phase(), Phase::Stopping(StopReason::Cancelled));
}

#[test]
fn token_cancelled_in_advance_spawns_nothing() {
    let mut token = CancellationToken::new();
    token.observe(Poll::Signalled);
    let mut sup = Supervisor::new(config_with_delay(1), token);
    assert!(sup.is_cancelled());
    assert_eq!(sup.action(), Action::Poll);
    let events = vec![Event::Polled(Poll::Empty), Event::Spawned, exited(1)];
    assert_eq!(sup.replay(&events), 0);
    assert_eq!(sup.phase(), Phase::Stopping(StopReason::Cancelled));
}

#[test]
fn cancellation_during_restart_delay_prevents_the_next_spawn() {
    let mut sup = supervisor(1000);
    let events = vec![
        Event::Polled(Poll::Empty),
        Event::Spawned,
        exited(1),
        Event::Polled(Poll::Empty),
    ];
    assert_eq!(sup.replay(&events), 1);
    assert_eq!(sup.phase(), Phase::DelayingRestart);
    assert_eq!(sup.step(Event::DelayElapsed), Ok(Action::Poll));
    assert_eq!(sup.step(Event::Polled(Poll::Signalled)), Ok(Action::Stop(StopReason::Cancelled)));
    assert_eq!(sup.replay(&vec![Event::Polled(Poll::Empty), Event::Spawned]), 0);
    assert_eq!(sup.phase(), Phase::Stopping(StopReason::Cancelled));
}

#[test]
fn cancellation_found_after_abnormal_exit_skips_the_delay() {
    let mut sup = supervisor(1000);
    sup.step(Event::Polled(Poll::Empty)).unwrap();
    sup.step(Event::Spawned).unwrap();
    assert_eq!(sup.step(exited(2)), Ok(Action::Poll));
    assert_eq!(sup.step(Event::Polled(Poll::Signalled)), Ok(Action::Stop(StopReason::Cancelled)));
    assert_eq!(sup.step(Event::DelayElapsed), Err(StepError::Finished));
}

#[test]
fn disconnected_channel_reads_as_not_cancelled() {
    let mut sup = supervisor(1000);
    assert_eq!(sup.step(Event::Polled(Poll::Disconnected)), Ok(Action::Spawn(plain_request())));
    assert!(!sup.is_cancelled());
}

#[test]
fn redirections_are_resolved_again_for_every_spawn() {
    let mut sup = Supervisor::new(redirected_config(), CancellationToken::new());
    let expected = LaunchRequest {
        executable: "worker".to_string(),
        args: Vec::new(),
        stdin: StreamSetup::ReadExisting("in.txt".to_string()),
        stdout: StreamSetup::CreateTruncate("out.log".to_string()),
        stderr: StreamSetup::CreateTruncate("err.log".to_string()),
    };
    for _ in 0..3 {
        let first = sup.step(Event::Polled(Poll::Empty)).unwrap();
        assert_eq!(first, Action::Spawn(expected.clone()));
        assert_eq!(sup.action(), Action::Spawn(expected.clone()));
        sup.step(Event::Spawned).unwrap();
        sup.step(exited(1)).unwrap();
        sup.step(Event::Polled(Poll::Empty)).unwrap();
        sup.step(Event::DelayElapsed).unwrap();
    }
}

#[test]
fn spawn_failure_is_fatal_and_never_retried() {
    let mut sup = supervisor(0);
    sup.step(Event::Polled(Poll::Empty)).unwrap();
    assert_eq!(sup.step(Event::Faulted(Fault::SpawnFailed)), Ok(Action::Abort(Fault::SpawnFailed)));
    assert_eq!(sup.phase(), Phase::Failed(Fault::SpawnFailed));
    assert_eq!(sup.exit_code(), Some(EXIT_FAILURE));
    assert_eq!(sup.exit_code(), Some(1));
    assert!(sup.is_finished());
    let more = vec![Event::DelayElapsed, Event::Polled(Poll::Empty), Event::Spawned];
    assert_eq!(sup.replay(&more), 0);
    assert_eq!(sup.phase(), Phase::Failed(Fault::SpawnFailed));
}

#[test]
fn spawn_failure_after_restarts_stops_the_count() {
    let mut events = abnormal_cycle(1);
    events.extend(abnormal_cycle(2));
    events.push(Event::Polled(Poll::Empty));
    events.push(Event::Faulted(Fault::SpawnFailed));
    events.extend(abnormal_cycle(3));
    let mut sup = supervisor(0);
    assert_eq!(sup.replay(&events), 3);
    assert_eq!(sup.phase(), Phase::Failed(Fault::SpawnFailed));
}

#[test]
fn unopenable_redirection_is_fatal() {
    for stream in [Stream::Stdin, Stream::Stdout, Stream::Stderr] {
        let mut sup = Supervisor::new(redirected_config(), CancellationToken::new());
        sup.step(Event::Polled(Poll::Empty)).unwrap();
        let fault = Fault::RedirectionUnopenable(stream);
        assert_eq!(sup.step(Event::Faulted(fault)), Ok(Action::Abort(fault)));
        assert_eq!(sup.phase(), Phase::Failed(fault));
        assert_eq!(sup.exit_code(), Some(1));
        assert_eq!(sup.replay(&abnormal_cycle(1)), 0);
    }
}

#[test]
fn redirection_fault_needs_a_redirected_stream() {
    let mut sup = supervisor(0);
    sup.step(Event::Polled(Poll::Empty)).unwrap();
    let fault = Fault::RedirectionUnopenable(Stream::Stdout);
    assert_eq!(sup.step(Event::Faulted(fault)), Err(StepError::Unexpected));
    assert_eq!(sup.phase(), Phase::Spawning);
}

#[test]
fn wait_failure_is_fatal() {
    let mut sup = supervisor(0);
    sup.step(Event::Polled(Poll::Empty)).unwrap();
    assert_eq!(sup.step(Event::Faulted(Fault::WaitFailed)), Err(StepError::Unexpected));
    sup.step(Event::Spawned).unwrap();
    assert_eq!(sup.step(Event::Faulted(Fault::SpawnFailed)), Err(StepError::Unexpected));
    assert_eq!(sup.step(Event::Faulted(Fault::WaitFailed)), Ok(Action::Abort(Fault::WaitFailed)));
    assert_eq!(sup.exit_code(), Some(1));
}

#[test]
fn inconclusive_exit_report_is_turned_down() {
    let mut sup = supervisor(0);
    sup.step(Event::Polled(Poll::Empty)).unwrap();
    sup.step(Event::Spawned).unwrap();
    let report = ExitReport { code: None, signal: None };
    assert_eq!(sup.step(Event::Exited(report)), Err(StepError::InconclusiveExit));
    assert_eq!(sup.advance(Event::Exited(report)), Err(StepError::InconclusiveExit));
    assert_eq!(sup.phase(), Phase::Running);
    assert_eq!(sup.step(exited(0)), Ok(Action::Stop(StopReason::NormalExit)));
}

#[test]
fn event_that_answers_nothing_is_unexpected() {
    let mut sup = supervisor(0);
    assert_eq!(sup.step(Event::Spawned), Err(StepError::Unexpected));
    assert_eq!(sup.step(exited(0)), Err(StepError::Unexpected));
    assert_eq!(sup.step(Event::DelayElapsed), Err(StepError::Unexpected));
    assert_eq!(sup.phase(), Phase::CheckCancellation);
    sup.step(Event::Polled(Poll::Empty)).unwrap();
    assert_eq!(sup.step(Event::Polled(Poll::Signalled)), Err(StepError::Unexpected));
    assert!(!sup.is_cancelled());
    sup.step(Event::Spawned).unwrap();
    assert_eq!(sup.step(Event::Polled(Poll::Signalled)), Err(StepError::Unexpected));
    assert_eq!(sup.advance(Event::Spawned), Err(StepError::Unexpected));
    assert_eq!(sup.phase(), Phase::Running);
}

#[test]
fn finished_supervisor_takes_no_event() {
    let mut sup = supervisor(0);
    sup.step(Event::Polled(Poll::Signalled)).unwrap();
    assert_eq!(sup.step(Event::Polled(Poll::Empty)), Err(StepError::Finished));
    assert_eq!(sup.step(Event::Spawned), Err(StepError::Finished));
    assert_eq!(sup.step(exited(1)), Err(StepError::Finished));
    assert_eq!(sup.advance(Event::DelayElapsed), Err(StepError::Finished));
    assert_eq!(sup.phase(), Phase::Stopping(StopReason::Cancelled));
}

#[test]
fn replay_passes_over_events_that_do_not_fit() {
    let mut sup = supervisor(0);
    let events = vec![
        Event::Spawned,
        Event::Polled(Poll::Empty),
        Event::Polled(Poll::Empty),
        Event::DelayElapsed,
        Event::Spawned,
        Event::Spawned,
        exited(5),
    ];
    assert_eq!(sup.replay(&events), 1);
    assert_eq!(sup.phase(), Phase::AbnormalExit(5));
}

#[test]
fn replay_of_nothing_changes_nothing() {
    let mut sup = supervisor(0);
    assert_eq!(sup.replay(&Vec::new()), 0);
    assert_eq!(sup.phase(), Phase::CheckCancellation);
}

#[test]
fn abnormal_exit_is_a_warning_and_a_fault_an_error() {
    assert_eq!(Phase::AbnormalExit(1).severity(), Severity::Warning);
    assert_eq!(Phase::Failed(Fault::SpawnFailed).severity(), Severity::Error);
    assert_eq!(Phase::Failed(Fault::WaitFailed).severity(), Severity::Error);
    assert_eq!(Phase::Failed(Fault::RedirectionUnopenable(Stream::Stdin)).severity(), Severity::Error);
    assert_eq!(Phase::CheckCancellation.severity(), Severity::Info);
    assert_eq!(Phase::Spawning.severity(), Severity::Info);
    assert_eq!(Phase::Running.severity(), Severity::Info);
    assert_eq!(Phase::DelayingRestart.severity(), Severity::Info);
    assert_eq!(Phase::Stopping(StopReason::Cancelled).severity(), Severity::Info);
    assert_eq!(Phase::Stopping(StopReason::NormalExit).severity(), Severity::Info);
    assert_eq!(Phase::Stopping(StopReason::TerminatedBySignal(15)).severity(), Severity::Info);
}
