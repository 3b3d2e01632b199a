//! The read side of the cancellation signal.
//!
//! Whoever owns the write side (a signal handler, a test) delivers the request
//! to stop through some channel. The supervisor never touches that channel:
//! its driver polls it without blocking and hands the answer over as a
//! [`Poll`]. The [`CancellationToken`] remembers whether a request was ever
//! seen.

use vstd::prelude::*;

verus! {

/// The answer of one non-blocking poll of the cancellation channel.
#[derive(Clone, Copy, Debug, PartialEq, Eq, Structural)]
pub enum Poll {
    /// A request to stop was waiting in the channel.
    Signalled,
    /// Nothing was waiting.
    Empty,
    /// The write side is gone, and nothing was waiting.
    Disconnected,
}

impl Poll {
    /// Only a waiting request cancels. An empty channel and a closed one both
    /// read as "go on".
    pub open spec fn requests_stop(self) -> bool {
        self is Signalled
    }

    /// Whether this answer asks the supervisor to stop.
    pub fn is_stop_request(&self) -> (result: bool)
        ensures
            result == self.requests_stop(),
    {
        match self {
            Poll::Signalled => true,
            Poll::Empty => false,
            Poll::Disconnected => false,
        }
    }
}

/// A latch: not cancelled at first, cancelled from the first stop request on.
#[derive(Debug)]
pub struct CancellationToken {
    cancelled: bool,
}

impl View for CancellationToken {
    type V = bool;

    /// `true` once a stop request was observed.
    closed spec fn view(&self) -> bool {
        self.cancelled
    }
}

/// The state of a latch that was `cancelled` before it saw `polls`, in order.
pub open spec fn observe_all(cancelled: bool, polls: Seq<Poll>) -> bool
    decreases polls.len(),
{
    if polls.len() == 0 {
        cancelled
    } else {
        observe_all(cancelled || polls[0].requests_stop(), polls.drop_first())
    }
}

impl CancellationToken {
    /// A token that has seen no stop request.
    pub fn new() -> (token: CancellationToken)
        ensures
            !token@,
    {
        CancellationToken { cancelled: false }
    }

    /// Whether a stop request was observed so far.
    pub fn is_cancelled(&self) -> (result: bool)
        ensures
            result == self@,
    {
        self.cancelled
    }

    /// Takes in the answer of one poll and says whether the token is
    /// cancelled now. A cancelled token stays cancelled whatever the answer.
    pub fn observe(&mut self, poll: Poll) -> (result: bool)
        ensures
            final(self)@ == (old(self)@ || poll.requests_stop()),
            result == final(self)@,
    {
        if poll.is_stop_request() {
            self.cancelled = true;
        }
        self.cancelled
    }
}

/// Cancellation is permanent: a cancelled latch is cancelled after any further
/// polls.
pub proof fn lemma_cancellation_is_permanent(polls: Seq<Poll>)
    ensures
        observe_all(true, polls),
    decreases polls.len(),
{
    if polls.len() > 0 {
        lemma_cancellation_is_permanent(polls.drop_first());
    }
}

/// A latch is cancelled after a run of polls exactly if it was cancelled
/// before or one of the polls carried a stop request.
pub proof fn lemma_cancelled_iff_requested(cancelled: bool, polls: Seq<Poll>)
    ensures
        observe_all(cancelled, polls) == (cancelled || exists|i: int|
            0 <= i < polls.len() && (#[trigger] polls[i]).requests_stop()),
    decreases polls.len(),
{
    if polls.len() > 0 {
        let rest = polls.drop_first();
        lemma_cancelled_iff_requested(cancelled || polls[0].requests_stop(), rest);
        if exists|i: int| 0 <= i < rest.len() && (#[trigger] rest[i]).requests_stop() {
            let i = choose|i: int| 0 <= i < rest.len() && (#[trigger] rest[i]).requests_stop();
            assert(polls[i + 1].requests_stop());
        }
        if exists|i: int| 0 <= i < polls.len() && (#[trigger] polls[i]).requests_stop() {
            let i = choose|i: int| 0 <= i < polls.len() && (#[trigger] polls[i]).requests_stop();
            if i > 0 {
                assert(rest[i - 1].requests_stop());
            }
        }
    }
}

} // verus!
