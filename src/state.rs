//! Lifecycle states of a unit and the classification of status tokens.
use vstd::prelude::*;

verus! {

/// A unit's lifecycle state, derived from its status token.
#[derive(Debug, Clone, Copy, PartialEq, Eq, Structural)]
pub enum State {
    Mounted,
    Mounting,
    Unmounting,
    Dead,
    Waiting,
    Running,
    Failed,
}

/// The state that a status token stands for, or `None` for a token outside
/// the known vocabulary.
pub open spec fn substate_of(token: Seq<char>) -> Option<State> {
    if token == "mounted"@ || token == "mounting-done"@ {
        Some(State::Mounted)
    } else if token == "mounting"@ {
        Some(State::Mounting)
    } else if token == "unmounting"@ {
        Some(State::Unmounting)
    } else if token == "dead"@ {
        Some(State::Dead)
    } else if token == "waiting"@ {
        Some(State::Waiting)
    } else if token == "running"@ {
        Some(State::Running)
    } else if token == "failed"@ {
        Some(State::Failed)
    } else {
        None
    }
}

/// Classification is total over the known vocabulary: "mounted" and
/// "mounting-done" both give `Mounted`, each of the five other known tokens
/// gives its own state, and every other token is rejected.
pub proof fn lemma_classification_table(token: Seq<char>)
    ensures
        substate_of("mounted"@) == Some(State::Mounted),
        substate_of("mounting-done"@) == Some(State::Mounted),
        substate_of("mounting"@) == Some(State::Mounting),
        substate_of("unmounting"@) == Some(State::Unmounting),
        substate_of("dead"@) == Some(State::Dead),
        substate_of("waiting"@) == Some(State::Waiting),
        substate_of("running"@) == Some(State::Running),
        substate_of("failed"@) == Some(State::Failed),
        substate_of(token) is None <==> !(token == "mounted"@ || token == "mounting-done"@
            || token == "mounting"@ || token == "unmounting"@ || token == "dead"@ || token
            == "waiting"@ || token == "running"@ || token == "failed"@),
{
    reveal_strlit("mounted");
    reveal_strlit("mounting-done");
    reveal_strlit("mounting");
    reveal_strlit("unmounting");
    reveal_strlit("dead");
    reveal_strlit("waiting");
    reveal_strlit("running");
    reveal_strlit("failed");
    assert("mounting"@ != "mounted"@ && "mounting"@ != "mounting-done"@) by {
        assert("mounting"@[6] != "mounted"@[6]);
        assert("mounting"@.len() != "mounting-done"@.len());
    }
    assert("unmounting"@ != "mounted"@ && "unmounting"@ != "mounting-done"@
        && "unmounting"@ != "mounting"@) by {
        assert("unmounting"@[0] != "mounted"@[0]);
        assert("unmounting"@[0] != "mounting-done"@[0]);
        assert("unmounting"@[0] != "mounting"@[0]);
    }
    assert("dead"@ != "mounted"@ && "dead"@ != "mounting-done"@ && "dead"@ != "mounting"@
        && "dead"@ != "unmounting"@) by {
        assert("dead"@[0] != "mounted"@[0]);
        assert("dead"@[0] != "mounting-done"@[0]);
        assert("dead"@[0] != "mounting"@[0]);
        assert("dead"@[0] != "unmounting"@[0]);
    }
    assert("waiting"@ != "mounted"@ && "waiting"@ != "mounting-done"@ && "waiting"@
        != "mounting"@ && "waiting"@ != "unmounting"@ && "waiting"@ != "dead"@) by {
        assert("waiting"@[0] != "mounted"@[0]);
        assert("waiting"@[0] != "mounting-done"@[0]);
        assert("waiting"@[0] != "mounting"@[0]);
        assert("waiting"@[0] != "unmounting"@[0]);
        assert("waiting"@[0] != "dead"@[0]);
    }
    assert("running"@ != "mounted"@ && "running"@ != "mounting-done"@ && "running"@
        != "mounting"@ && "running"@ != "unmounting"@ && "running"@ != "dead"@ && "running"@
        != "waiting"@) by {
        assert("running"@[0] != "mounted"@[0]);
        assert("running"@[0] != "mounting-done"@[0]);
        assert("running"@[0] != "mounting"@[0]);
        assert("running"@[0] != "unmounting"@[0]);
        assert("running"@[0] != "dead"@[0]);
        assert("running"@[0] != "waiting"@[0]);
    }
    assert("failed"@ != "mounted"@ && "failed"@ != "mounting-done"@ && "failed"@
        != "mounting"@ && "failed"@ != "unmounting"@ && "failed"@ != "dead"@ && "failed"@
        != "waiting"@ && "failed"@ != "running"@) by {
        assert("failed"@[0] != "mounted"@[0]);
        assert("failed"@[0] != "mounting-done"@[0]);
        assert("failed"@[0] != "mounting"@[0]);
        assert("failed"@[0] != "unmounting"@[0]);
        assert("failed"@[0] != "dead"@[0]);
        assert("failed"@[0] != "waiting"@[0]);
        assert("failed"@[0] != "running"@[0]);
    }
}

/// Character-wise equality of two string slices.
pub fn str_eq(a: &str, b: &str) -> (r: bool)
    ensures
        r == (a@ == b@),
{
    let n = a.unicode_len();
    if n != b.unicode_len() {
        return false;
    }
    let mut i: usize = 0;
    while i < n
        invariant
            n == a@.len(),
            n == b@.len(),
            i <= n,
            forall|k: int| 0 <= k < i ==> a@[k] == b@[k],
        decreases n - i,
    {
        if a.get_char(i) != b.get_char(i) {
            return false;
        }
        i = i + 1;
    }
    assert(a@ =~= b@);
    true
}

impl State {
    /// Classifies a status token; `None` when the token is not one of the
    /// known ones.
    pub fn classify(input: &str) -> (r: Option<State>)
        ensures
            r == substate_of(input@),
    {
        if str_eq(input, "mounted") || str_eq(input, "mounting-done") {
            Some(State::Mounted)
        } else if str_eq(input, "mounting") {
            Some(State::Mounting)
        } else if str_eq(input, "unmounting") {
            Some(State::Unmounting)
        } else if str_eq(input, "dead") {
            Some(State::Dead)
        } else if str_eq(input, "waiting") {
            Some(State::Waiting)
        } else if str_eq(input, "running") {
            Some(State::Running)
        } else if str_eq(input, "failed") {
            Some(State::Failed)
        } else {
            None
        }
    }

    /// The state of a status token that is known to be valid.
    pub fn from_substates(input: &str) -> (r: State)
        requires
            substate_of(input@) is Some,
        ensures
            r == substate_of(input@)->0,
    {
        match State::classify(input) {
            Some(s) => s,
            None => State::Dead,
        }
    }
}

} // verus!
