//! Correlation of issued jobs with the shared stream of finished-job events.
use vstd::prelude::*;

verus! {

/// Every job in `jobs` occurs among the finished-job identifiers `seen`.
pub open spec fn all_matched(jobs: Seq<Seq<char>>, seen: Seq<Seq<char>>) -> bool {
    forall|i: int| 0 <= i < jobs.len() ==> seen.contains(#[trigger] jobs[i])
}

/// Finished-job events that all carry other identifiers never complete the
/// wait for a job, however many of them arrive.
pub proof fn lemma_unrelated_events_are_noise(job: Seq<char>, noise: Seq<Seq<char>>)
    requires
        forall|k: int| 0 <= k < noise.len() ==> noise[k] != job,
    ensures
        !all_matched(seq![job], noise),
{
    assert(seq![job][0] == job);
}

/// The wait for a job completes on the event that carries its identifier,
/// whatever unrelated events came before it, and not earlier.
pub proof fn lemma_match_completes(job: Seq<char>, before: Seq<Seq<char>>)
    requires
        forall|k: int| 0 <= k < before.len() ==> before[k] != job,
    ensures
        all_matched(seq![job], before.push(job)),
        !all_matched(seq![job], before),
{
    assert(before.push(job)[before.len() as int] == job);
    lemma_unrelated_events_are_noise(job, before);
}

/// A joined wait for two jobs is complete exactly when each of the two has
/// been matched by a finished-job event of its own identifier.
pub proof fn lemma_join_needs_both(a: Seq<char>, b: Seq<char>, seen: Seq<Seq<char>>)
    ensures
        all_matched(seq![a, b], seen) <==> (seen.contains(a) && seen.contains(b)),
{
    assert(seq![a, b][0] == a);
    assert(seq![a, b][1] == b);
}

/// Jobs issued together and waited for jointly, with the finished-job events
/// consumed so far.
pub struct PendingJobs {
    jobs: Vec<String>,
    done: Vec<bool>,
    seen: Ghost<Seq<Seq<char>>>,
}

impl PendingJobs {
    /// The identifiers of the jobs waited for.
    pub closed spec fn jobs(&self) -> Seq<Seq<char>> {
        self.jobs@.map_values(|s: String| s@)
    }

    /// The identifiers of the finished-job events consumed so far.
    pub closed spec fn seen(&self) -> Seq<Seq<char>> {
        self.seen@
    }

    pub closed spec fn wf(&self) -> bool {
        &&& self.done@.len() == self.jobs@.len()
        &&& forall|i: int|
            0 <= i < self.jobs@.len() ==> (self.done@[i] <==> self.seen@.contains(
                #[trigger] self.jobs@[i]@,
            ))
    }

    /// Starts waiting for the given jobs; no event is consumed yet.
    pub fn new(jobs: Vec<String>) -> (r: PendingJobs)
        ensures
            r.wf(),
            r.jobs() == jobs@.map_values(|s: String| s@),
            r.seen() == Seq::<Seq<char>>::empty(),
    {
        let mut done: Vec<bool> = Vec::new();
        let mut i: usize = 0;
        while i < jobs.len()
            invariant
                i <= jobs@.len(),
                done@.len() == i,
                forall|k: int| 0 <= k < i ==> !done@[k],
            decreases jobs@.len() - i,
        {
            done.push(false);
            i = i + 1;
        }
        PendingJobs { jobs, done, seen: Ghost(Seq::empty()) }
    }

    /// Consumes one finished-job event; returns whether it belongs to one of
    /// the jobs waited for.
    pub fn on_job_removed(&mut self, finished: &String) -> (matched: bool)
        requires
            old(self).wf(),
        ensures
            final(self).wf(),
            final(self).jobs() == old(self).jobs(),
            final(self).seen() == old(self).seen().push(finished@),
            matched == old(self).jobs().contains(finished@),
    {
        let ghost before = self.seen@;
        self.seen = Ghost(self.seen@.push(finished@));
        let mut matched = false;
        let mut i: usize = 0;
        while i < self.jobs.len()
            invariant
                i <= self.jobs@.len(),
                self.done@.len() == self.jobs@.len(),
                old(self).done@.len() == self.jobs@.len(),
                self.jobs == old(self).jobs,
                self.seen@ == before.push(finished@),
                forall|k: int|
                    0 <= k < self.jobs@.len() ==> (old(self).done@[k] <==> before.contains(
                        #[trigger] self.jobs@[k]@,
                    )),
                forall|k: int|
                    0 <= k < i ==> (self.done@[k] <==> self.seen@.contains(
                        #[trigger] self.jobs@[k]@,
                    )),
                forall|k: int| i <= k < self.jobs@.len() ==> self.done@[k] == old(self).done@[k],
                matched == exists|k: int| 0 <= k < i && #[trigger] self.jobs@[k]@ == finished@,
            decreases self.jobs@.len() - i,
        {
            proof {
                let j = self.jobs@[i as int]@;
                if before.contains(j) {
                    let w = choose|w: int| 0 <= w < before.len() && before[w] == j;
                    assert(self.seen@[w] == j);
                }
                if self.seen@.contains(j) && j != finished@ {
                    let w = choose|w: int| 0 <= w < self.seen@.len() && self.seen@[w] == j;
                    assert(before[w] == j);
                }
                assert(self.seen@[before.len() as int] == finished@);
            }
            if self.jobs[i] == *finished {
                self.done.set(i, true);
                matched = true;
                assert(self.jobs@[i as int]@ == finished@);
            } else {
                assert(self.jobs@[i as int]@ != finished@);
                assert((exists|k: int| 0 <= k < i + 1 && #[trigger] self.jobs@[k]@ == finished@)
                    ==> (exists|k: int| 0 <= k < i && #[trigger] self.jobs@[k]@ == finished@));
            }
            i = i + 1;
        }
        proof {
            let js = old(self).jobs();
            if matched {
                let k = choose|k: int| 0 <= k < i && #[trigger] self.jobs@[k]@ == finished@;
                assert(js[k] == finished@);
            }
            if js.contains(finished@) {
                let k = choose|k: int| 0 <= k < js.len() && js[k] == finished@;
                assert(self.jobs@[k]@ == finished@);
            }
        }
        matched
    }

    /// Whether every job waited for has been matched by a consumed event.
    pub fn is_done(&self) -> (r: bool)
        requires
            self.wf(),
        ensures
            r == all_matched(self.jobs(), self.seen()),
    {
        let mut i: usize = 0;
        while i < self.done.len()
            invariant
                self.wf(),
                i <= self.done@.len(),
                forall|k: int| 0 <= k < i ==> self.done@[k],
            decreases self.done@.len() - i,
        {
            if !self.done[i] {
                assert(!self.seen().contains(self.jobs()[i as int]));
                return false;
            }
            i = i + 1;
        }
        assert forall|k: int| 0 <= k < self.jobs().len() implies self.seen().contains(
            #[trigger] self.jobs()[k],
        ) by {
            assert(self.done@[k]);
        }
        true
    }
}

} // verus!
