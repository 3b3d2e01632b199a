//! Whole runs of the machine: what a sequence of events leads to.

use vstd::prelude::*;
use crate::supervisor::{ActionView, Event, Phase, Supervisor, SupervisorState};

verus! {

/// The state after `events`, taken in from `state` in order.
pub open spec fn run(state: SupervisorState, events: Seq<Event>) -> SupervisorState
    decreases events.len(),
{
    if events.len() == 0 {
        state
    } else {
        run(state.next(events[0]), events.drop_first())
    }
}

/// How many times the machine asks for a spawn while it takes in `events`
/// from `state`.
pub open spec fn spawn_count(state: SupervisorState, events: Seq<Event>) -> nat
    decreases events.len(),
{
    if events.len() == 0 {
        0
    } else {
        let here: nat = if state.launches(events[0]) { 1 } else { 0 };
        here + spawn_count(state.next(events[0]), events.drop_first())
    }
}

/// The actions that the machine asks for while it takes in `events` from
/// `state`: one after every accepted event, in order.
pub open spec fn issued(state: SupervisorState, events: Seq<Event>) -> Seq<ActionView>
    decreases events.len(),
{
    if events.len() == 0 {
        Seq::empty()
    } else {
        let here = if state.accepts(events[0]) {
            seq![state.next(events[0]).action()]
        } else {
            Seq::empty()
        };
        here + issued(state.next(events[0]), events.drop_first())
    }
}

/// A run over `first` followed by `second` is a run over `first` and then,
/// from where that ended, a run over `second`.
pub proof fn lemma_run_concat(state: SupervisorState, first: Seq<Event>, second: Seq<Event>)
    ensures
        run(state, first + second) == run(run(state, first), second),
        spawn_count(state, first + second) == spawn_count(state, first) + spawn_count(
            run(state, first),
            second,
        ),
        issued(state, first + second) == issued(state, first) + issued(
            run(state, first),
            second,
        ),
    decreases first.len(),
{
    if first.len() == 0 {
        assert(first + second =~= second);
        assert(issued(state, first) + issued(state, second) =~= issued(state, second));
    } else {
        let all = first + second;
        assert(all[0] == first[0]);
        assert(all.drop_first() =~= first.drop_first() + second);
        let after = state.next(first[0]);
        lemma_run_concat(after, first.drop_first(), second);
        let here = if state.accepts(first[0]) {
            seq![after.action()]
        } else {
            Seq::empty()
        };
        assert(issued(state, all) == here + issued(after, all.drop_first()));
        assert(issued(state, first) == here + issued(after, first.drop_first()));
        assert(here + (issued(after, first.drop_first()) + issued(
            run(after, first.drop_first()),
            second,
        )) =~= (here + issued(after, first.drop_first())) + issued(
            run(after, first.drop_first()),
            second,
        ));
    }
}

/// A run over a single event is one step.
pub proof fn lemma_run_one(state: SupervisorState, event: Event)
    ensures
        run(state, seq![event]) == state.next(event),
        spawn_count(state, seq![event]) == if state.launches(event) { 1nat } else { 0nat },
        issued(state, seq![event]) == if state.accepts(event) {
            seq![state.next(event).action()]
        } else {
            Seq::<ActionView>::empty()
        },
{
    let events = seq![event];
    assert(events.drop_first() =~= Seq::<Event>::empty());
    assert(run(state, events) == run(state.next(event), events.drop_first()));
    assert(spawn_count(state.next(event), events.drop_first()) == 0);
    assert(issued(state.next(event), events.drop_first()) =~= Seq::<ActionView>::empty());
    assert(issued(state, events) =~= if state.accepts(event) {
        seq![state.next(event).action()]
    } else {
        Seq::<ActionView>::empty()
    });
}

impl Supervisor {
    /// Takes in a whole sequence of events, as a driver would report them one
    /// by one, and counts the spawns that the machine asked for on the way.
    /// Events that do not fit are passed over.
    pub fn replay(&mut self, events: &Vec<Event>) -> (spawns: usize)
        ensures
            final(self)@ == run(old(self)@, events@),
            spawns == spawn_count(old(self)@, events@),
    {
        let mut spawns: usize = 0;
        let mut i: usize = 0;
        proof {
            assert(events@.subrange(0, events@.len() as int) =~= events@);
        }
        while i < events.len()
            invariant
                i <= events.len(),
                spawns <= i,
                run(self@, events@.subrange(i as int, events@.len() as int)) == run(
                    old(self)@,
                    events@,
                ),
                spawns + spawn_count(self@, events@.subrange(i as int, events@.len() as int))
                    == spawn_count(old(self)@, events@),
            decreases events.len() - i,
        {
            let event = events[i];
            let ghost before = self@;
            let ghost rest = events@.subrange(i as int, events@.len() as int);
            proof {
                assert(rest[0] == event);
                assert(rest.drop_first() =~= events@.subrange(i + 1, events@.len() as int));
            }
            let accepted = self.advance(event).is_ok();
            let launched = accepted && match self.phase() {
                Phase::Spawning => true,
                _ => false,
            };
            assert(launched == before.launches(event));
            if launched {
                spawns += 1;
            }
            i += 1;
        }
        proof {
            assert(events@.subrange(i as int, events@.len() as int) =~= Seq::<Event>::empty());
        }
        spawns
    }
}

} // verus!
