//! What holds of every run of the supervision loop.
//!
//! Each law is stated over [`run`], [`spawn_count`] and [`issued`], for every
//! configuration and every sequence of events that its `requires` admits.

use vstd::prelude::*;
use crate::cancel::Poll;
use crate::exit::{ExitOutcome, ExitReport};
use crate::supervisor::{
    ActionView, Event, Fault, Phase, StopReason, SupervisorState, EXIT_FAILURE, EXIT_SUCCESS,
};
use crate::trace::{issued, lemma_run_concat, lemma_run_one, run, spawn_count};

verus! {

/// Once supervision is over nothing happens any more: whatever events follow,
/// the state stays as it is, no action is asked for and no child is spawned.
/// In particular the loop never restarts after a normal exit, after a
/// signal-terminated child, after a stop request or after a fault.
pub proof fn lemma_terminal_is_final(state: SupervisorState, events: Seq<Event>)
    requires
        state.phase.is_terminal(),
    ensures
        run(state, events) == state,
        spawn_count(state, events) == 0,
        issued(state, events) == Seq::<ActionView>::empty(),
    decreases events.len(),
{
    if events.len() > 0 {
        lemma_terminal_is_final(state, events.drop_first());
    }
}

/// No run changes the configuration, and no run takes a cancellation back.
pub proof fn lemma_run_keeps_configuration(state: SupervisorState, events: Seq<Event>)
    ensures
        run(state, events).config == state.config,
        state.cancelled ==> run(state, events).cancelled,
    decreases events.len(),
{
    if events.len() > 0 {
        lemma_run_keeps_configuration(state.next(events[0]), events.drop_first());
    }
}

/// Every spawn that a run asks for carries the request that the configuration
/// resolves to, redirections included: the same files are named again for
/// every attempt, the first and each restart. Every delay that a run asks for
/// is the configured restart delay.
pub proof fn lemma_every_spawn_follows_configuration(state: SupervisorState, events: Seq<Event>)
    ensures
        forall|i: int|
            0 <= i < issued(state, events).len() && (#[trigger] issued(state, events)[i]) is Spawn
                ==> issued(state, events)[i] == ActionView::Spawn(state.config.launch_request()),
        forall|i: int|
            0 <= i < issued(state, events).len() && (#[trigger] issued(state, events)[i]) is Delay
                ==> issued(state, events)[i] == ActionView::Delay(state.config.restart_delay_ms),
    decreases events.len(),
{
    if events.len() > 0 {
        let after = state.next(events[0]);
        lemma_every_spawn_follows_configuration(after, events.drop_first());
        let tail = issued(after, events.drop_first());
        let all = issued(state, events);
        assert forall|i: int| 0 <= i < all.len() implies (all[i] is Spawn ==> all[i]
            == ActionView::Spawn(state.config.launch_request())) && (all[i] is Delay ==> all[i]
            == ActionView::Delay(state.config.restart_delay_ms)) by {
            if state.accepts(events[0]) {
                if i > 0 {
                    assert(all[i] == tail[i - 1]);
                }
            } else {
                assert(all[i] == tail[i]);
            }
        }
    }
}

/// How many children have ended, or failed to start, while the machine took
/// in `events` from `state`.
pub open spec fn ended_count(state: SupervisorState, events: Seq<Event>) -> nat
    decreases events.len(),
{
    if events.len() == 0 {
        0
    } else {
        let here: nat = if state.accepts(events[0]) && (events[0] is Exited
            || events[0] is Faulted) {
            1
        } else {
            0
        };
        here + ended_count(state.next(events[0]), events.drop_first())
    }
}

/// The number of children that a phase holds: one while a child is being
/// launched or runs, none otherwise.
pub open spec fn live_children(phase: Phase) -> nat {
    if phase is Spawning || phase is Running {
        1
    } else {
        0
    }
}

/// At most one child is live at any time: over every run, the spawns asked
/// for exceed the children that ended by exactly the number of children that
/// the final phase holds, which is never more than one.
pub proof fn lemma_at_most_one_child_is_live(state: SupervisorState, events: Seq<Event>)
    ensures
        live_children(state.phase) + spawn_count(state, events) == ended_count(state, events)
            + live_children(run(state, events).phase),
        live_children(run(state, events).phase) <= 1,
    decreases events.len(),
{
    if events.len() > 0 {
        lemma_at_most_one_child_is_live(state.next(events[0]), events.drop_first());
    }
}

/// A child that exits with code 0 is spawned once and never again, whatever
/// the restart delay and whatever events follow; supervision stops in good
/// order.
pub proof fn lemma_normal_exit_stops(
    state: SupervisorState,
    poll: Poll,
    report: ExitReport,
    rest: Seq<Event>,
)
    requires
        state.phase is CheckCancellation,
        !state.cancelled,
        !poll.requests_stop(),
        report.code == Some(0i32),
    ensures
        ({
            let events = seq![Event::Polled(poll), Event::Spawned, Event::Exited(report)] + rest;
            &&& spawn_count(state, events) == 1
            &&& run(state, events).phase == Phase::Stopping(StopReason::NormalExit)
            &&& run(state, events).phase.exit_code() == Some(EXIT_SUCCESS)
        }),
{
    let head = seq![Event::Polled(poll), Event::Spawned, Event::Exited(report)];
    let spawning = state.next(Event::Polled(poll));
    let running = spawning.next(Event::Spawned);
    assert(spawning.phase is Spawning && running.phase is Running);
    lemma_three_steps(state, Event::Polled(poll), Event::Spawned, Event::Exited(report));
    lemma_run_concat(state, head, rest);
    lemma_terminal_is_final(run(state, head), rest);
}

/// A child that a signal terminates is spawned once and never again,
/// whatever events follow; supervision stops in good order.
pub proof fn lemma_signal_termination_stops(
    state: SupervisorState,
    poll: Poll,
    report: ExitReport,
    signal: i32,
    rest: Seq<Event>,
)
    requires
        state.phase is CheckCancellation,
        !state.cancelled,
        !poll.requests_stop(),
        report.code is None,
        report.signal == Some(signal),
    ensures
        ({
            let events = seq![Event::Polled(poll), Event::Spawned, Event::Exited(report)] + rest;
            &&& spawn_count(state, events) == 1
            &&& run(state, events).phase == Phase::Stopping(
                StopReason::TerminatedBySignal(signal),
            )
            &&& run(state, events).phase.exit_code() == Some(EXIT_SUCCESS)
        }),
{
    let head = seq![Event::Polled(poll), Event::Spawned, Event::Exited(report)];
    let spawning = state.next(Event::Polled(poll));
    let running = spawning.next(Event::Spawned);
    assert(spawning.phase is Spawning && running.phase is Running);
    lemma_three_steps(state, Event::Polled(poll), Event::Spawned, Event::Exited(report));
    lemma_run_concat(state, head, rest);
    lemma_terminal_is_final(run(state, head), rest);
}

/// A run over three events, step by step.
proof fn lemma_three_steps(state: SupervisorState, first: Event, second: Event, third: Event)
    ensures
        run(state, seq![first, second, third]) == state.next(first).next(second).next(third),
        spawn_count(state, seq![first, second, third]) == one_if(state.launches(first)) + one_if(
            state.next(first).launches(second),
        ) + one_if(state.next(first).next(second).launches(third)),
{
    lemma_run_one(state, first);
    lemma_run_one(state.next(first), second);
    lemma_run_one(state.next(first).next(second), third);
    lemma_run_concat(state, seq![first], seq![second]);
    lemma_run_concat(state, seq![first] + seq![second], seq![third]);
    assert(seq![first, second, third] =~= (seq![first] + seq![second]) + seq![third]);
}

/// One where the condition holds, zero where it does not.
spec fn one_if(condition: bool) -> nat {
    if condition {
        1
    } else {
        0
    }
}

/// If the stop request is there before the first spawn, no process is ever
/// spawned: neither where the token is cancelled from the start, nor where
/// the first poll finds the request.
pub proof fn lemma_cancelled_before_first_spawn(
    state: SupervisorState,
    poll: Poll,
    rest: Seq<Event>,
)
    requires
        state.phase is CheckCancellation,
        state.cancelled || poll.requests_stop(),
    ensures
        spawn_count(state, seq![Event::Polled(poll)] + rest) == 0,
        run(state, seq![Event::Polled(poll)] + rest).phase == Phase::Stopping(
            StopReason::Cancelled,
        ),
{
    let head = seq![Event::Polled(poll)];
    lemma_run_one(state, Event::Polled(poll));
    lemma_run_concat(state, head, rest);
    lemma_terminal_is_final(run(state, head), rest);
}

/// Once a stop request has been observed the machine never asks for a spawn,
/// whatever events it is given. So a supervisor that starts with a cancelled
/// token spawns nothing at all.
pub proof fn lemma_cancelled_never_spawns(state: SupervisorState, events: Seq<Event>)
    requires
        state.cancelled,
    ensures
        spawn_count(state, events) == 0,
    decreases events.len(),
{
    if events.len() > 0 {
        lemma_cancelled_never_spawns(state.next(events[0]), events.drop_first());
    }
}

/// If the stop request arrives during the restart delay that follows an
/// abnormal exit, the poll after the delay finds it and no further spawn
/// occurs.
pub proof fn lemma_cancelled_during_restart_delay(state: SupervisorState, rest: Seq<Event>)
    requires
        state.phase is DelayingRestart,
    ensures
        spawn_count(state, seq![Event::DelayElapsed, Event::Polled(Poll::Signalled)] + rest)
            == 0,
        run(state, seq![Event::DelayElapsed, Event::Polled(Poll::Signalled)] + rest).phase
            == Phase::Stopping(StopReason::Cancelled),
{
    let head = seq![Event::DelayElapsed, Event::Polled(Poll::Signalled)];
    lemma_run_one(state, Event::DelayElapsed);
    lemma_run_one(state.next(Event::DelayElapsed), Event::Polled(Poll::Signalled));
    lemma_run_concat(state, seq![Event::DelayElapsed], seq![Event::Polled(Poll::Signalled)]);
    assert(head =~= seq![Event::DelayElapsed] + seq![Event::Polled(Poll::Signalled)]);
    lemma_run_concat(state, head, rest);
    lemma_terminal_is_final(run(state, head), rest);
}

/// If the stop request is found right after an abnormal exit, supervision
/// stops at once: no delay is asked for and no further spawn occurs.
pub proof fn lemma_cancelled_after_abnormal_exit(state: SupervisorState, rest: Seq<Event>)
    requires
        state.phase is AbnormalExit,
    ensures
        spawn_count(state, seq![Event::Polled(Poll::Signalled)] + rest) == 0,
        issued(state, seq![Event::Polled(Poll::Signalled)] + rest) == seq![
            ActionView::Stop(StopReason::Cancelled),
        ],
        run(state, seq![Event::Polled(Poll::Signalled)] + rest).phase == Phase::Stopping(
            StopReason::Cancelled,
        ),
{
    let head = seq![Event::Polled(Poll::Signalled)];
    lemma_run_one(state, Event::Polled(Poll::Signalled));
    lemma_run_concat(state, head, rest);
    lemma_terminal_is_final(run(state, head), rest);
    assert(issued(state, head) + Seq::<ActionView>::empty() =~= issued(state, head));
}

/// A fault while spawning (the program cannot be started, or a redirection
/// file cannot be opened) is fatal: the supervisor fails with that fault, ends
/// with the failure exit code, and never spawns again, whatever events
/// follow.
pub proof fn lemma_spawn_fault_is_fatal(state: SupervisorState, fault: Fault, rest: Seq<Event>)
    requires
        state.phase is Spawning,
        state.can_fail_with(fault),
    ensures
        spawn_count(state, seq![Event::Faulted(fault)] + rest) == 0,
        run(state, seq![Event::Faulted(fault)] + rest).phase == Phase::Failed(fault),
        run(state, seq![Event::Faulted(fault)] + rest).phase.exit_code() == Some(EXIT_FAILURE),
        EXIT_FAILURE != 0,
{
    let head = seq![Event::Faulted(fault)];
    lemma_run_one(state, Event::Faulted(fault));
    lemma_run_concat(state, head, rest);
    lemma_terminal_is_final(run(state, head), rest);
}

/// One full cycle that ends in a restart: what the driver reports from the
/// poll before the spawn to the end of the restart delay.
pub struct RestartCycle {
    /// The answer of the poll before the spawn.
    pub before: Poll,
    /// How the child ended.
    pub report: ExitReport,
    /// The answer of the poll after the child's exit.
    pub after: Poll,
}

impl RestartCycle {
    /// In a restart cycle neither poll finds a stop request, and the child
    /// exits with a non-zero code.
    pub open spec fn restarts(self) -> bool {
        &&& !self.before.requests_stop()
        &&& !self.after.requests_stop()
        &&& self.report.is_conclusive()
        &&& self.report.outcome() is AbnormalExitWithCode
    }

    /// The events of the cycle, in order.
    pub open spec fn events(self) -> Seq<Event> {
        seq![
            Event::Polled(self.before),
            Event::Spawned,
            Event::Exited(self.report),
            Event::Polled(self.after),
            Event::DelayElapsed,
        ]
    }
}

/// The events of several cycles, one after the other.
pub open spec fn cycles_events(cycles: Seq<RestartCycle>) -> Seq<Event>
    decreases cycles.len(),
{
    if cycles.len() == 0 {
        Seq::empty()
    } else {
        cycles[0].events() + cycles_events(cycles.drop_first())
    }
}

/// What the machine asks for in one restart cycle: spawn, wait, poll again,
/// pause for the restart delay, and poll before the next spawn.
pub open spec fn cycle_actions(state: SupervisorState) -> Seq<ActionView> {
    seq![
        ActionView::Spawn(state.config.launch_request()),
        ActionView::Wait,
        ActionView::Poll,
        ActionView::Delay(state.config.restart_delay_ms),
        ActionView::Poll,
    ]
}

/// What the machine asks for in `count` restart cycles.
pub open spec fn cycles_actions(state: SupervisorState, count: nat) -> Seq<ActionView>
    decreases count,
{
    if count == 0 {
        Seq::empty()
    } else {
        cycle_actions(state) + cycles_actions(state, (count - 1) as nat)
    }
}

/// One restart cycle spawns once, pauses once for the configured delay, and
/// leaves the machine where it began.
pub proof fn lemma_restart_cycle(state: SupervisorState, cycle: RestartCycle)
    requires
        state.phase is CheckCancellation,
        !state.cancelled,
        cycle.restarts(),
    ensures
        run(state, cycle.events()) == state,
        spawn_count(state, cycle.events()) == 1,
        issued(state, cycle.events()) == cycle_actions(state),
{
    let e0 = Event::Polled(cycle.before);
    let e1 = Event::Spawned;
    let e2 = Event::Exited(cycle.report);
    let e3 = Event::Polled(cycle.after);
    let e4 = Event::DelayElapsed;
    let s1 = state.next(e0);
    let s2 = s1.next(e1);
    let s3 = s2.next(e2);
    let s4 = s3.next(e3);
    let s5 = s4.next(e4);
    assert(s5 == state);
    lemma_run_one(state, e0);
    lemma_run_one(s1, e1);
    lemma_run_one(s2, e2);
    lemma_run_one(s3, e3);
    lemma_run_one(s4, e4);
    let polled = seq![e0];
    let spawned = polled + seq![e1];
    let exited = spawned + seq![e2];
    let rechecked = exited + seq![e3];
    let delayed = rechecked + seq![e4];
    lemma_run_concat(state, polled, seq![e1]);
    lemma_run_concat(state, spawned, seq![e2]);
    lemma_run_concat(state, exited, seq![e3]);
    lemma_run_concat(state, rechecked, seq![e4]);
    assert(delayed =~= cycle.events());
    assert(issued(state, delayed) =~= cycle_actions(state));
}

/// As long as every child exits abnormally and no stop request is found, the
/// loop goes round: over any number of such cycles it spawns once per cycle,
/// pauses for the configured delay between each spawn and the next, and is
/// ready for another cycle afterwards.
pub proof fn lemma_abnormal_exits_restart(state: SupervisorState, cycles: Seq<RestartCycle>)
    requires
        state.phase is CheckCancellation,
        !state.cancelled,
        forall|i: int| 0 <= i < cycles.len() ==> (#[trigger] cycles[i]).restarts(),
    ensures
        run(state, cycles_events(cycles)) == state,
        spawn_count(state, cycles_events(cycles)) == cycles.len(),
        issued(state, cycles_events(cycles)) == cycles_actions(state, cycles.len()),
    decreases cycles.len(),
{
    if cycles.len() > 0 {
        let rest = cycles.drop_first();
        assert(cycles[0].restarts());
        assert forall|i: int| 0 <= i < rest.len() implies (#[trigger] rest[i]).restarts() by {
            assert(rest[i] == cycles[i + 1]);
        }
        lemma_restart_cycle(state, cycles[0]);
        lemma_abnormal_exits_restart(state, rest);
        lemma_run_concat(state, cycles[0].events(), cycles_events(rest));
    }
}

/// With `cycles.len()` abnormal exits in a row and the stop request arriving
/// only then, the loop has spawned exactly once per exit (once for the first
/// start and once for each restart), and stops without spawning again.
pub proof fn lemma_spawns_until_cancelled(
    state: SupervisorState,
    cycles: Seq<RestartCycle>,
    rest: Seq<Event>,
)
    requires
        state.phase is CheckCancellation,
        !state.cancelled,
        forall|i: int| 0 <= i < cycles.len() ==> (#[trigger] cycles[i]).restarts(),
    ensures
        ({
            let events = cycles_events(cycles) + (seq![Event::Polled(Poll::Signalled)] + rest);
            &&& spawn_count(state, events) == cycles.len()
            &&& run(state, events).phase == Phase::Stopping(StopReason::Cancelled)
        }),
{
    lemma_abnormal_exits_restart(state, cycles);
    lemma_cancelled_before_first_spawn(state, Poll::Signalled, rest);
    lemma_run_concat(
        state,
        cycles_events(cycles),
        seq![Event::Polled(Poll::Signalled)] + rest,
    );
}

/// How a child's termination is classified decides alone whether the loop
/// goes on: after `Running`, only an abnormal exit leads to a phase that is
/// not terminal.
pub proof fn lemma_only_abnormal_exit_continues(state: SupervisorState, report: ExitReport)
    requires
        state.phase is Running,
        report.is_conclusive(),
    ensures
        !state.next(Event::Exited(report)).phase.is_terminal() <==> report.outcome()
            is AbnormalExitWithCode,
        report.outcome() is AbnormalExitWithCode <==> (report.code matches Some(code) && code
            != 0),
        report.outcome() == ExitOutcome::NormalExit <==> report.code == Some(0i32),
{
}

} // verus!
