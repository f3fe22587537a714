//! Batch bookkeeping: the outcome of each file in an ordered batch, recorded
//! one after the other. Recording never fails and never skips ahead, so one
//! file's failure cannot keep a later file from being processed.

use vstd::prelude::*;

use crate::session::Outcome;

verus! {

/// The outcomes of an ordered batch of files, filled in processing order.
/// `outcomes[i]` is the outcome of the `i`-th matched file; the file at
/// position `outcomes.len()` is the next to process.
pub struct Batch {
    pub total: usize,
    pub outcomes: Vec<Outcome>,
}

impl Batch {
    /// Position of the next file to process.
    pub open spec fn next_file(&self) -> int {
        self.outcomes@.len() as int
    }

    /// Starts a batch of `total` matched files.
    pub fn new(total: usize) -> (b: Batch)
        ensures
            b.total == total,
            b.outcomes@ == Seq::<Outcome>::empty(),
    {
        Batch { total, outcomes: Vec::new() }
    }

    /// Records how the next file's processing ended — however it ended — and
    /// moves on to the file after it. Every earlier outcome stays as it was.
    pub fn record(&mut self, outcome: Outcome)
        requires
            old(self).next_file() < old(self).total,
        ensures
            final(self).outcomes@ == old(self).outcomes@.push(outcome),
            final(self).total == old(self).total,
            final(self).next_file() == old(self).next_file() + 1,
    {
        self.outcomes.push(outcome);
    }

    /// Whether every file of the batch has an outcome.
    pub fn is_complete(&self) -> (r: bool)
        ensures
            r == (self.next_file() == self.total),
    {
        self.outcomes.len() == self.total
    }
}

/// Law: one file's outcome does not touch its neighbours. Whatever a file's
/// processing ended with — a fatal error included — the file after it is
/// still the next to be processed, and once that later file's outcome is
/// recorded it reads the same whatever the earlier file's outcome was.
pub proof fn lemma_batch_isolation(
    before: Seq<Outcome>,
    first_way: Outcome,
    other_way: Outcome,
    later: Outcome,
)
    ensures
        before.push(first_way).len() == before.push(other_way).len(),
        before.push(first_way).push(later)[before.len() as int + 1] == later,
        before.push(other_way).push(later)[before.len() as int + 1] == later,
        forall|i: int|
            0 <= i < before.len() ==> before.push(first_way).push(later)[i] == #[trigger] before[i],
{
}

} // verus!
