//! What a child's termination means to the supervisor.

use vstd::prelude::*;

verus! {

/// What the operating system reported when a child terminated: the exit code,
/// where the child exited by itself, and the signal number, where a signal
/// ended it.
#[derive(Clone, Copy, Debug, PartialEq, Eq, Structural)]
pub struct ExitReport {
    pub code: Option<i32>,
    pub signal: Option<i32>,
}

/// The meaning of one child's termination.
#[derive(Clone, Copy, Debug, PartialEq, Eq, Structural)]
pub enum ExitOutcome {
    /// The child exited with status code 0.
    NormalExit,
    /// The child exited with the given non-zero status code.
    AbnormalExitWithCode(i32),
    /// A signal with the given number ended the child.
    TerminatedBySignal(i32),
}

impl ExitReport {
    /// A report tells how the child ended if it holds an exit code or a signal.
    pub open spec fn is_conclusive(self) -> bool {
        self.code.is_some() || self.signal.is_some()
    }

    /// The outcome that a conclusive report stands for. An exit code decides
    /// before a signal does.
    pub open spec fn outcome(self) -> ExitOutcome {
        match self.code {
            Some(code) => if code == 0 {
                ExitOutcome::NormalExit
            } else {
                ExitOutcome::AbnormalExitWithCode(code)
            },
            None => ExitOutcome::TerminatedBySignal(self.signal.unwrap()),
        }
    }

    /// Classifies the report. It is `None` exactly for a report that holds
    /// neither an exit code nor a signal.
    pub fn classify(&self) -> (result: Option<ExitOutcome>)
        ensures
            result.is_some() == self.is_conclusive(),
            self.is_conclusive() ==> result == Some(self.outcome()),
    {
        match self.code {
            Some(code) => {
                if code == 0 {
                    Some(ExitOutcome::NormalExit)
                } else {
                    Some(ExitOutcome::AbnormalExitWithCode(code))
                }
            },
            None => match self.signal {
                Some(signal) => Some(ExitOutcome::TerminatedBySignal(signal)),
                None => None,
            },
        }
    }
}

} // verus!
