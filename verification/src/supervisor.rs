//! The supervision loop as a state machine.
//!
//! The machine decides; a driver acts. In every phase the machine names one
//! [`Action`] for the driver to carry out (poll the cancellation channel,
//! spawn the child, wait for it, sleep), and the driver reports what came of
//! it as an [`Event`]. [`Supervisor::step`] takes the event and moves on:
//!
//! ```text
//! CheckCancellation -> Spawning -> Running -> { Stopping
//!                                             | AbnormalExit -> { Stopping
//!                                                               | DelayingRestart -> CheckCancellation } }
//! ```
//!
//! Cancellation is looked for twice in a cycle: before every spawn, and once
//! more after an abnormal exit, before the restart delay begins. A fault while
//! spawning or waiting ends supervision for good.

use vstd::prelude::*;
use crate::cancel::{CancellationToken, Poll};
use crate::config::{ConfigView, LaunchRequest, LaunchRequestView, Stream, SupervisionConfig};
use crate::exit::{ExitOutcome, ExitReport};

verus! {

/// Why supervision ended in good order.
#[derive(Clone, Copy, Debug, PartialEq, Eq, Structural)]
pub enum StopReason {
    /// A stop request was observed.
    Cancelled,
    /// The child exited with status code 0.
    NormalExit,
    /// A signal with this number ended the child.
    TerminatedBySignal(i32),
}

/// What went wrong beyond repair.
#[derive(Clone, Copy, Debug, PartialEq, Eq, Structural)]
pub enum Fault {
    /// The file that this stream is redirected to could not be opened.
    RedirectionUnopenable(Stream),
    /// The program could not be started.
    SpawnFailed,
    /// Waiting for the child failed.
    WaitFailed,
}

/// Where the supervision loop stands.
#[derive(Clone, Copy, Debug, PartialEq, Eq, Structural)]
pub enum Phase {
    /// About to spawn: the cancellation channel is polled first.
    CheckCancellation,
    /// The child is being launched.
    Spawning,
    /// The child runs; the loop blocks until it terminates.
    Running,
    /// The child exited with this non-zero code; the cancellation channel is
    /// polled again before the restart delay.
    AbnormalExit(i32),
    /// The fixed pause before the next cycle.
    DelayingRestart,
    /// Supervision ended in good order. Nothing follows.
    Stopping(StopReason),
    /// Supervision ended on a fault. Nothing follows.
    Failed(Fault),
}

/// What the driver reports back to the machine.
#[derive(Clone, Copy, Debug, PartialEq, Eq, Structural)]
pub enum Event {
    /// The cancellation channel was polled.
    Polled(Poll),
    /// The child was started.
    Spawned,
    /// The child terminated.
    Exited(ExitReport),
    /// The restart delay is over.
    DelayElapsed,
    /// The pending action failed.
    Faulted(Fault),
}

/// What the machine asks the driver to do next.
#[derive(Clone, Debug, PartialEq, Eq)]
pub enum Action {
    /// Poll the cancellation channel, without blocking.
    Poll,
    /// Open the redirection files and start the child as the request says.
    Spawn(LaunchRequest),
    /// Block until the child terminates.
    Wait,
    /// Sleep for this many milliseconds.
    Delay(u64),
    /// Return: supervision is over.
    Stop(StopReason),
    /// Report the fault and give up.
    Abort(Fault),
}

/// The mathematical content of an [`Action`].
pub enum ActionView {
    Poll,
    Spawn(LaunchRequestView),
    Wait,
    Delay(u64),
    Stop(StopReason),
    Abort(Fault),
}

impl View for Action {
    type V = ActionView;

    open spec fn view(&self) -> ActionView {
        match self {
            Action::Poll => ActionView::Poll,
            Action::Spawn(request) => ActionView::Spawn(request@),
            Action::Wait => ActionView::Wait,
            Action::Delay(millis) => ActionView::Delay(*millis),
            Action::Stop(reason) => ActionView::Stop(*reason),
            Action::Abort(fault) => ActionView::Abort(*fault),
        }
    }
}

/// Why [`Supervisor::step`] turned an event down.
#[derive(Clone, Copy, Debug, PartialEq, Eq, Structural)]
pub enum StepError {
    /// Supervision is over; no event is taken any more.
    Finished,
    /// The child is reported to have terminated, but the report holds neither
    /// an exit code nor a signal.
    InconclusiveExit,
    /// The event does not answer the action that is pending.
    Unexpected,
}

/// How grave it is, for the log, that a phase was entered.
#[derive(Clone, Copy, Debug, PartialEq, Eq, Structural)]
pub enum Severity {
    /// The ordinary course of a child's life.
    Info,
    /// The child exited abnormally; a restart is on its way.
    Warning,
    /// A fault ended supervision.
    Error,
}

/// The exit code of the supervisor's own process after a stop in good order.
pub const EXIT_SUCCESS: i32 = 0;

/// The exit code of the supervisor's own process after a fault.
pub const EXIT_FAILURE: i32 = 1;

impl Phase {
    /// In a terminal phase supervision is over.
    pub open spec fn is_terminal(self) -> bool {
        self is Stopping || self is Failed
    }

    /// The exit code that the supervisor's process ends with: success after a
    /// stop in good order, failure after a fault, none while supervision goes
    /// on.
    pub open spec fn exit_code(self) -> Option<i32> {
        match self {
            Phase::Stopping(_) => Some(EXIT_SUCCESS),
            Phase::Failed(_) => Some(EXIT_FAILURE),
            _ => None,
        }
    }

    /// How grave the entry into this phase is: a fault is an error, an
    /// abnormal exit a warning, everything else information.
    pub open spec fn severity_spec(self) -> Severity {
        match self {
            Phase::Failed(_) => Severity::Error,
            Phase::AbnormalExit(_) => Severity::Warning,
            _ => Severity::Info,
        }
    }

    /// How grave the entry into this phase is, for whoever writes the log.
    #[verifier::when_used_as_spec(severity_spec)]
    pub fn severity(self) -> (severity: Severity)
        ensures
            severity == self.severity_spec(),
    {
        match self {
            Phase::Failed(_) => Severity::Error,
            Phase::AbnormalExit(_) => Severity::Warning,
            _ => Severity::Info,
        }
    }

    /// The phase that follows `Running` when the child ends with `outcome`.
    /// Only an abnormal exit leads on towards a restart.
    pub open spec fn after_exit(outcome: ExitOutcome) -> Phase {
        match outcome {
            ExitOutcome::NormalExit => Phase::Stopping(StopReason::NormalExit),
            ExitOutcome::AbnormalExitWithCode(code) => Phase::AbnormalExit(code),
            ExitOutcome::TerminatedBySignal(signal) => Phase::Stopping(
                StopReason::TerminatedBySignal(signal),
            ),
        }
    }
}

/// The mathematical content of a [`Supervisor`].
pub struct SupervisorState {
    /// The configuration. No step changes it.
    pub config: ConfigView,
    /// Whether a stop request was observed.
    pub cancelled: bool,
    pub phase: Phase,
}

impl SupervisorState {
    /// The state in which supervision begins.
    pub open spec fn initial(config: ConfigView, cancelled: bool) -> SupervisorState {
        SupervisorState { config, cancelled, phase: Phase::CheckCancellation }
    }

    /// Whether `fault` can be what the pending action failed with. A
    /// redirection can only fail for a stream that the configuration
    /// redirects.
    pub open spec fn can_fail_with(self, fault: Fault) -> bool {
        match fault {
            Fault::RedirectionUnopenable(stream) => self.phase is Spawning
                && self.config.redirection(stream).is_some(),
            Fault::SpawnFailed => self.phase is Spawning,
            Fault::WaitFailed => self.phase is Running,
        }
    }

    /// Whether `event` answers the action that is pending.
    pub open spec fn accepts(self, event: Event) -> bool {
        match event {
            Event::Polled(_) => self.phase is CheckCancellation || self.phase is AbnormalExit,
            Event::Spawned => self.phase is Spawning,
            Event::Exited(report) => self.phase is Running && report.is_conclusive(),
            Event::DelayElapsed => self.phase is DelayingRestart,
            Event::Faulted(fault) => self.can_fail_with(fault),
        }
    }

    /// Why an event that is not accepted is turned down.
    pub open spec fn rejection(self, event: Event) -> StepError {
        if self.phase.is_terminal() {
            StepError::Finished
        } else if self.phase is Running && event is Exited {
            StepError::InconclusiveExit
        } else {
            StepError::Unexpected
        }
    }

    /// The state after an accepted event.
    pub open spec fn transition(self, event: Event) -> SupervisorState {
        match event {
            Event::Polled(poll) => {
                let cancelled = self.cancelled || poll.requests_stop();
                let phase = if cancelled {
                    Phase::Stopping(StopReason::Cancelled)
                } else if self.phase is CheckCancellation {
                    Phase::Spawning
                } else {
                    Phase::DelayingRestart
                };
                SupervisorState { cancelled, phase, ..self }
            },
            Event::Spawned => SupervisorState { phase: Phase::Running, ..self },
            Event::Exited(report) => SupervisorState {
                phase: Phase::after_exit(report.outcome()),
                ..self
            },
            Event::DelayElapsed => SupervisorState { phase: Phase::CheckCancellation, ..self },
            Event::Faulted(fault) => SupervisorState { phase: Phase::Failed(fault), ..self },
        }
    }

    /// The state after any event: an event that is not accepted changes
    /// nothing.
    pub open spec fn next(self, event: Event) -> SupervisorState {
        if self.accepts(event) {
            self.transition(event)
        } else {
            self
        }
    }

    /// The action that is pending in this state.
    pub open spec fn action(self) -> ActionView {
        match self.phase {
            Phase::CheckCancellation => ActionView::Poll,
            Phase::Spawning => ActionView::Spawn(self.config.launch_request()),
            Phase::Running => ActionView::Wait,
            Phase::AbnormalExit(_) => ActionView::Poll,
            Phase::DelayingRestart => ActionView::Delay(self.config.restart_delay_ms),
            Phase::Stopping(reason) => ActionView::Stop(reason),
            Phase::Failed(fault) => ActionView::Abort(fault),
        }
    }

    /// Whether `event` makes the machine ask for a spawn.
    pub open spec fn launches(self, event: Event) -> bool {
        self.accepts(event) && self.next(event).phase is Spawning
    }
}

/// The supervision loop's state: the configuration, the cancellation token
/// and the current phase.
#[derive(Debug)]
pub struct Supervisor {
    config: SupervisionConfig,
    token: CancellationToken,
    phase: Phase,
}

impl View for Supervisor {
    type V = SupervisorState;

    closed spec fn view(&self) -> SupervisorState {
        SupervisorState { config: self.config@, cancelled: self.token@, phase: self.phase }
    }
}

impl Supervisor {
    /// A supervisor that is about to check for cancellation before its first
    /// spawn.
    pub fn new(config: SupervisionConfig, token: CancellationToken) -> (supervisor: Supervisor)
        ensures
            supervisor@ == SupervisorState::initial(config@, token@),
    {
        Supervisor { config, token, phase: Phase::CheckCancellation }
    }

    /// The configuration that supervision started with.
    pub fn config(&self) -> (config: &SupervisionConfig)
        ensures
            config@ == self@.config,
    {
        &self.config
    }

    /// The current phase.
    pub fn phase(&self) -> (phase: Phase)
        ensures
            phase == self@.phase,
    {
        self.phase
    }

    /// Whether a stop request was observed so far.
    pub fn is_cancelled(&self) -> (result: bool)
        ensures
            result == self@.cancelled,
    {
        self.token.is_cancelled()
    }

    /// Whether supervision is over.
    pub fn is_finished(&self) -> (result: bool)
        ensures
            result == self@.phase.is_terminal(),
    {
        match self.phase {
            Phase::Stopping(_) => true,
            Phase::Failed(_) => true,
            _ => false,
        }
    }

    /// The exit code for the supervisor's own process, once supervision is
    /// over.
    pub fn exit_code(&self) -> (code: Option<i32>)
        ensures
            code == self@.phase.exit_code(),
    {
        match self.phase {
            Phase::Stopping(_) => Some(EXIT_SUCCESS),
            Phase::Failed(_) => Some(EXIT_FAILURE),
            _ => None,
        }
    }

    /// The action that is pending. A spawn request is built from the
    /// configuration each time it is asked for.
    pub fn action(&self) -> (action: Action)
        ensures
            action@ == self@.action(),
    {
        match self.phase {
            Phase::CheckCancellation => Action::Poll,
            Phase::Spawning => Action::Spawn(self.config.launch_request()),
            Phase::Running => Action::Wait,
            Phase::AbnormalExit(_) => Action::Poll,
            Phase::DelayingRestart => Action::Delay(self.config.restart_delay_ms),
            Phase::Stopping(reason) => Action::Stop(reason),
            Phase::Failed(fault) => Action::Abort(fault),
        }
    }

    /// Whether `fault` can be what the pending action failed with.
    fn can_fail_with(&self, fault: Fault) -> (result: bool)
        ensures
            result == self@.can_fail_with(fault),
    {
        match fault {
            Fault::RedirectionUnopenable(stream) => match self.phase {
                Phase::Spawning => self.config.redirects(stream),
                _ => false,
            },
            Fault::SpawnFailed => match self.phase {
                Phase::Spawning => true,
                _ => false,
            },
            Fault::WaitFailed => match self.phase {
                Phase::Running => true,
                _ => false,
            },
        }
    }

    /// Why `event`, which the current state does not accept, is turned down.
    fn rejection(&self, event: Event) -> (error: StepError)
        ensures
            error == self@.rejection(event),
    {
        match self.phase {
            Phase::Stopping(_) => StepError::Finished,
            Phase::Failed(_) => StepError::Finished,
            Phase::Running => match event {
                Event::Exited(_) => StepError::InconclusiveExit,
                _ => StepError::Unexpected,
            },
            _ => StepError::Unexpected,
        }
    }

    /// Takes in one event. An event that answers the pending action moves the
    /// machine on; any other is turned down with the reason and changes
    /// nothing.
    pub fn advance(&mut self, event: Event) -> (result: Result<(), StepError>)
        ensures
            final(self)@ == old(self)@.next(event),
            result.is_ok() == old(self)@.accepts(event),
            result matches Err(error) ==> error == old(self)@.rejection(event),
    {
        let entered: Option<Phase> = match event {
            Event::Polled(poll) => match self.phase {
                Phase::CheckCancellation => {
                    if self.token.observe(poll) {
                        Some(Phase::Stopping(StopReason::Cancelled))
                    } else {
                        Some(Phase::Spawning)
                    }
                },
                Phase::AbnormalExit(_) => {
                    if self.token.observe(poll) {
                        Some(Phase::Stopping(StopReason::Cancelled))
                    } else {
                        Some(Phase::DelayingRestart)
                    }
                },
                _ => None,
            },
            Event::Spawned => match self.phase {
                Phase::Spawning => Some(Phase::Running),
                _ => None,
            },
            Event::Exited(report) => match self.phase {
                Phase::Running => match report.classify() {
                    Some(ExitOutcome::NormalExit) => Some(Phase::Stopping(StopReason::NormalExit)),
                    Some(ExitOutcome::AbnormalExitWithCode(code)) => Some(
                        Phase::AbnormalExit(code),
                    ),
                    Some(ExitOutcome::TerminatedBySignal(signal)) => Some(
                        Phase::Stopping(StopReason::TerminatedBySignal(signal)),
                    ),
                    None => None,
                },
                _ => None,
            },
            Event::DelayElapsed => match self.phase {
                Phase::DelayingRestart => Some(Phase::CheckCancellation),
                _ => None,
            },
            Event::Faulted(fault) => {
                if self.can_fail_with(fault) {
                    Some(Phase::Failed(fault))
                } else {
                    None
                }
            },
        };
        match entered {
            Some(phase) => {
                self.phase = phase;
                Ok(())
            },
            None => Err(self.rejection(event)),
        }
    }

    /// Takes in one event, as [`Supervisor::advance`] does, and names the
    /// action that is pending afterwards.
    pub fn step(&mut self, event: Event) -> (result: Result<Action, StepError>)
        ensures
            final(self)@ == old(self)@.next(event),
            result.is_ok() == old(self)@.accepts(event),
            result matches Ok(action) ==> action@ == final(self)@.action(),
            result matches Err(error) ==> error == old(self)@.rejection(event),
    {
        match self.advance(event) {
            Ok(()) => Ok(self.action()),
            Err(error) => Err(error),
        }
    }
}

} // verus!
