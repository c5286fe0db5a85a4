//! Deduplicating tracker of one unit's state.
use vstd::prelude::*;
use crate::state::{State, substate_of};

verus! {

/// The transitions emitted when the states in `seen` are observed in order,
/// starting from the memoized state `last`: a state is emitted exactly when
/// it differs from the one observed just before it.
pub open spec fn transitions(last: State, seen: Seq<State>) -> Seq<State>
    decreases seen.len(),
{
    if seen.len() == 0 {
        seq![]
    } else {
        let next = seen[0];
        let rest = transitions(next, seen.drop_first());
        if next != last {
            seq![next] + rest
        } else {
            rest
        }
    }
}

/// The memoized state after observing `seen` from `last`.
pub open spec fn last_seen(last: State, seen: Seq<State>) -> State {
    if seen.len() == 0 {
        last
    } else {
        seen.last()
    }
}

/// Observing one more state appends it to the transitions exactly when it
/// differs from the state memoized before it.
pub proof fn lemma_transitions_push(last: State, seen: Seq<State>, next: State)
    ensures
        transitions(last, seen.push(next)) == transitions(last, seen) + (if next != last_seen(
            last,
            seen,
        ) {
            seq![next]
        } else {
            seq![]
        }),
    decreases seen.len(),
{
    if seen.len() == 0 {
        assert(seen.push(next).drop_first() =~= seq![]);
        assert(transitions(next, seq![]) == Seq::<State>::empty());
        assert(transitions(last, seen.push(next)) =~= transitions(last, seen) + (if next
            != last_seen(last, seen) {
            seq![next]
        } else {
            seq![]
        }));
    } else {
        let tail = seen.drop_first();
        assert(seen.push(next).drop_first() =~= tail.push(next));
        lemma_transitions_push(seen[0], tail, next);
        if tail.len() > 0 {
            assert(tail.last() == seen.last());
        }
        assert(transitions(last, seen.push(next)) =~= transitions(last, seen) + (if next
            != last_seen(last, seen) {
            seq![next]
        } else {
            seq![]
        }));
    }
}

/// Notifications whose status never differs from the memoized state emit no
/// transition at all.
pub proof fn lemma_unchanged_emits_nothing(last: State, seen: Seq<State>)
    requires
        forall|i: int| 0 <= i < seen.len() ==> seen[i] == last,
    ensures
        transitions(last, seen) == Seq::<State>::empty(),
    decreases seen.len(),
{
    if seen.len() > 0 {
        lemma_unchanged_emits_nothing(last, seen.drop_first());
    }
}

/// A status that goes from `a` to `b` and back to `a`, each step reported by
/// one or more notifications, emits exactly the two transitions `b` then `a`.
pub proof fn lemma_alternation_emits_two(a: State, b: State, to_b: Seq<State>, to_a: Seq<State>)
    requires
        a != b,
        to_b.len() > 0,
        to_a.len() > 0,
        forall|i: int| 0 <= i < to_b.len() ==> to_b[i] == b,
        forall|i: int| 0 <= i < to_a.len() ==> to_a[i] == a,
    ensures
        transitions(a, to_b + to_a) == seq![b, a],
{
    assert((to_b + to_a).drop_first() =~= to_b.drop_first() + to_a);
    lemma_run_then_rest(b, to_b.drop_first(), to_a);
    lemma_unchanged_emits_nothing(a, to_a.drop_first());
    assert(transitions(b, to_a) =~= seq![a] + transitions(a, to_a.drop_first()));
    assert(transitions(a, to_b + to_a) =~= seq![b, a]);
}

/// A run of notifications that repeat the memoized state is skipped.
proof fn lemma_run_then_rest(s: State, run: Seq<State>, rest: Seq<State>)
    requires
        forall|i: int| 0 <= i < run.len() ==> run[i] == s,
    ensures
        transitions(s, run + rest) == transitions(s, rest),
    decreases run.len(),
{
    if run.len() > 0 {
        assert((run + rest).drop_first() =~= run.drop_first() + rest);
        lemma_run_then_rest(s, run.drop_first(), rest);
    } else {
        assert(run + rest =~= rest);
    }
}

/// One monitored unit: its name and the last state observed for it.
pub struct TrackedUnit {
    pub name: String,
    pub last: State,
}

impl TrackedUnit {
    /// A tracker whose memoized state is the one read at startup.
    pub fn new(name: String, initial: State) -> (r: TrackedUnit)
        ensures
            r.name@ == name@,
            r.last == initial,
    {
        TrackedUnit { name, last: initial }
    }

    /// Records a newly classified state; returns it when it is a transition,
    /// that is when it differs from the memoized one.
    pub fn observe(&mut self, new: State) -> (emitted: Option<State>)
        ensures
            final(self).last == new,
            final(self).name == old(self).name,
            emitted == (if new != old(self).last {
                Some(new)
            } else {
                None
            }),
    {
        let changed = new != self.last;
        self.last = new;
        if changed {
            Some(new)
        } else {
            None
        }
    }

    /// Classifies a status token read after a change notification and records
    /// it; returns the new state when it is a transition.
    pub fn observe_token(&mut self, token: &str) -> (emitted: Option<State>)
        requires
            substate_of(token@) is Some,
        ensures
            final(self).last == substate_of(token@)->0,
            final(self).name == old(self).name,
            emitted == (if substate_of(token@)->0 != old(self).last {
                substate_of(token@)
            } else {
                None
            }),
    {
        let new = State::from_substates(token);
        self.observe(new)
    }

    /// Records the states in order; returns the transitions they emit.
    pub fn observe_all(&mut self, seen: &Vec<State>) -> (emitted: Vec<State>)
        ensures
            emitted@ == transitions(old(self).last, seen@),
            final(self).last == last_seen(old(self).last, seen@),
            final(self).name == old(self).name,
    {
        let mut out: Vec<State> = Vec::new();
        let mut i: usize = 0;
        while i < seen.len()
            invariant
                i <= seen@.len(),
                out@ == transitions(old(self).last, seen@.subrange(0, i as int)),
                self.last == last_seen(old(self).last, seen@.subrange(0, i as int)),
                self.name == old(self).name,
            decreases seen@.len() - i,
        {
            let s = seen[i];
            proof {
                lemma_transitions_push(old(self).last, seen@.subrange(0, i as int), s);
                assert(seen@.subrange(0, i as int).push(s) =~= seen@.subrange(0, i + 1));
            }
            match self.observe(s) {
                Some(t) => out.push(t),
                None => {},
            }
            i = i + 1;
        }
        assert(seen@.subrange(0, i as int) =~= seen@);
        out
    }
}

} // verus!
