//! Running a list of sources one after another: every source is attempted, and
//! each failure is recorded against its source without stopping the others.

use crate::error::SourceError;
use vstd::prelude::*;

verus! {

/// A failure of one source: its position in the list and the error.
#[derive(Clone, Copy, Debug, PartialEq, Eq, Structural)]
pub struct Failure {
    pub index: usize,
    pub error: SourceError,
}

/// The failures that a list of outcomes records, in order.
pub open spec fn failures_of(outcomes: Seq<Result<(), SourceError>>) -> Seq<Failure>
    decreases outcomes.len(),
{
    if outcomes.len() == 0 {
        Seq::empty()
    } else {
        let before = failures_of(outcomes.drop_last());
        match outcomes.last() {
            Ok(()) => before,
            Err(e) => before.push(Failure { index: (outcomes.len() - 1) as usize, error: e }),
        }
    }
}

/// A batch of sources and what processing them has given so far.
pub struct Batch {
    sources: Vec<String>,
    next: usize,
    outcomes: Ghost<Seq<Result<(), SourceError>>>,
    failures: Vec<Failure>,
}

impl Batch {
    pub closed spec fn sources(&self) -> Seq<String> {
        self.sources@
    }

    /// The outcomes recorded so far, one per source attempted, in order.
    pub closed spec fn outcomes(&self) -> Seq<Result<(), SourceError>> {
        self.outcomes@
    }

    pub closed spec fn wf(&self) -> bool {
        &&& self.next == self.outcomes@.len()
        &&& self.next <= self.sources@.len()
        &&& self.failures@ == failures_of(self.outcomes@)
    }

    /// A batch over `sources`, none attempted yet.
    pub fn new(sources: Vec<String>) -> (r: Batch)
        ensures
            r.wf(),
            r.sources() == sources@,
            r.outcomes().len() == 0,
    {
        Batch { sources, next: 0, outcomes: Ghost(Seq::empty()), failures: Vec::new() }
    }

    /// How many sources have been attempted.
    pub fn attempted(&self) -> (r: usize)
        requires
            self.wf(),
        ensures
            r == self.outcomes().len(),
    {
        self.next
    }

    /// The next source to attempt, or `None` when every source has been.
    pub fn next_source(&self) -> (r: Option<String>)
        requires
            self.wf(),
        ensures
            r is None <==> self.outcomes().len() == self.sources().len(),
            r matches Some(s) ==> s@ == self.sources()[self.outcomes().len() as int]@,
    {
        if self.next < self.sources.len() {
            Some(self.sources[self.next].clone())
        } else {
            None
        }
    }

    /// Records the outcome of the next source; a failure is kept with the source's
    /// position, and the batch goes on either way.
    pub fn record(&mut self, outcome: Result<(), SourceError>)
        requires
            old(self).wf(),
            old(self).outcomes().len() < old(self).sources().len(),
        ensures
            final(self).wf(),
            final(self).sources() == old(self).sources(),
            final(self).outcomes() == old(self).outcomes().push(outcome),
    {
        let ghost before = self.outcomes@;
        let total = self.sources.len();
        assert(self.next < total);
        match outcome {
            Ok(()) => {},
            Err(e) => {
                self.failures.push(Failure { index: self.next, error: e });
            },
        }
        self.outcomes = Ghost(before.push(outcome));
        assert(self.outcomes@.drop_last() == before);
        self.next = self.next + 1;
    }

    /// The failures recorded so far, in the order of the sources.
    pub fn failures(&self) -> (r: &Vec<Failure>)
        requires
            self.wf(),
        ensures
            r@ == failures_of(self.outcomes()),
    {
        &self.failures
    }
}

impl Batch {
    /// A well-formed batch has recorded no more outcomes than a `usize` counts.
    pub proof fn lemma_outcomes_fit(&self)
        requires
            self.wf(),
        ensures
            self.outcomes().len() <= usize::MAX,
    {
    }
}

/// Each source's failure is reported exactly once, against that source, and no
/// source that succeeded is reported: one failing source does not affect what is
/// recorded for the others.
pub proof fn lemma_failures_isolated(outcomes: Seq<Result<(), SourceError>>)
    requires
        outcomes.len() <= usize::MAX,
    ensures
        forall|k: int|
            0 <= k < failures_of(outcomes).len() ==> {
                let f = #[trigger] failures_of(outcomes)[k];
                f.index < outcomes.len() && outcomes[f.index as int] == Err::<(), SourceError>(
                    f.error,
                )
            },
        forall|k1: int, k2: int|
            0 <= k1 < k2 < failures_of(outcomes).len() ==> #[trigger] failures_of(outcomes)[k1].index
                < #[trigger] failures_of(outcomes)[k2].index,
        forall|i: int|
            0 <= i < outcomes.len() && (#[trigger] outcomes[i]) is Err ==> exists|k: int|
                0 <= k < failures_of(outcomes).len() && failures_of(outcomes)[k].index == i,
    decreases outcomes.len(),
{
    if outcomes.len() > 0 {
        let init = outcomes.drop_last();
        lemma_failures_isolated(init);
        lemma_indices_below(init);
        let before = failures_of(init);
        let n = (outcomes.len() - 1) as int;
        assert forall|i: int|
            0 <= i < outcomes.len() && (#[trigger] outcomes[i]) is Err implies exists|k: int|
                0 <= k < failures_of(outcomes).len() && failures_of(outcomes)[k].index == i by {
            if i < n {
                assert(init[i] == outcomes[i]);
                let k = choose|k: int| 0 <= k < before.len() && before[k].index == i;
                assert(failures_of(outcomes)[k] == before[k]);
            } else {
                let k = before.len() as int;
                assert(failures_of(outcomes)[k].index == i);
            }
        }
        assert forall|k: int|
            0 <= k < failures_of(outcomes).len() implies {
                let f = #[trigger] failures_of(outcomes)[k];
                f.index < outcomes.len() && outcomes[f.index as int] == Err::<(), SourceError>(
                    f.error,
                )
            } by {
            if k < before.len() {
                assert(failures_of(outcomes)[k] == before[k]);
                assert(init[before[k].index as int] == outcomes[before[k].index as int]);
            }
        }
    }
}

proof fn lemma_indices_below(outcomes: Seq<Result<(), SourceError>>)
    requires
        outcomes.len() <= usize::MAX,
    ensures
        forall|k: int|
            0 <= k < failures_of(outcomes).len() ==> (#[trigger] failures_of(outcomes)[k]).index
                < outcomes.len(),
    decreases outcomes.len(),
{
    if outcomes.len() > 0 {
        lemma_indices_below(outcomes.drop_last());
    }
}

} // verus!
