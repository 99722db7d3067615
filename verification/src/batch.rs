//! A join barrier for a batch of two parallel remote calls.
//!
//! An operation issues two remote calls at once and suspends; the host
//! runtime settles each call separately, in whatever wall-clock order the
//! remote sides reply. The barrier stores every outcome under the index its
//! call was issued with, so the aggregation callback that runs once the
//! batch is complete reads the results in issue order, never in completion
//! order. A batch is never cancelled: a failed call still settles its slot,
//! with [`CallOutcome::Failed`] instead of a payload.

use vstd::prelude::*;

verus! {

/// How one remote call of a batch settled.
pub enum CallOutcome<T> {
    /// The call returned and its payload was decoded.
    Success(T),
    /// The call failed, or its payload could not be decoded.
    Failed,
}

/// The join barrier: one slot per issued call, in issue order, each empty
/// until the runtime settles it through [`ParallelBatch::settle`].
pub struct ParallelBatch<T> {
    pub first: Option<CallOutcome<T>>,
    pub second: Option<CallOutcome<T>>,
}

impl<T> ParallelBatch<T> {
    /// The batch as issued, before any call settled.
    pub open spec fn spec_empty() -> ParallelBatch<T> {
        ParallelBatch { first: None, second: None }
    }

    /// The batch after the call issued at `index` settled with `outcome`.
    pub open spec fn spec_settled(self, index: int, outcome: CallOutcome<T>) -> ParallelBatch<T> {
        if index == 0 {
            ParallelBatch { first: Some(outcome), second: self.second }
        } else {
            ParallelBatch { first: self.first, second: Some(outcome) }
        }
    }

    /// Both calls have settled, so the aggregation callback may run.
    pub open spec fn complete(&self) -> bool {
        self.first is Some && self.second is Some
    }

    /// The outcome of the call issued at `index`, once it has settled.
    pub open spec fn outcome(&self, index: int) -> CallOutcome<T>
        recommends
            0 <= index < 2,
            self.complete(),
    {
        if index == 0 {
            self.first.unwrap()
        } else {
            self.second.unwrap()
        }
    }

    /// A fresh barrier for a batch of two calls just issued.
    pub fn new() -> (batch: ParallelBatch<T>)
        ensures
            batch == Self::spec_empty(),
    {
        ParallelBatch { first: None, second: None }
    }

    /// Records that the call issued at `index` settled with `outcome`.
    /// Each slot settles exactly once; the other slot is untouched, so the
    /// slots may settle in either wall-clock order.
    pub fn settle(&mut self, index: usize, outcome: CallOutcome<T>)
        requires
            index < 2,
            index == 0 ==> old(self).first is None,
            index == 1 ==> old(self).second is None,
        ensures
            *final(self) == old(self).spec_settled(index as int, outcome),
    {
        if index == 0 {
            self.first = Some(outcome);
        } else {
            self.second = Some(outcome);
        }
    }

    /// Whether both calls have settled.
    pub fn is_complete(&self) -> (r: bool)
        ensures
            r == self.complete(),
    {
        self.first.is_some() && self.second.is_some()
    }

    /// Hands the two outcomes to the aggregation callback, indexed by issue
    /// order regardless of the order in which the slots settled.
    pub fn into_results(self) -> (r: (CallOutcome<T>, CallOutcome<T>))
        requires
            self.complete(),
        ensures
            r.0 == self.outcome(0),
            r.1 == self.outcome(1),
    {
        let first = match self.first {
            Some(outcome) => outcome,
            None => vstd::pervasive::unreached(),
        };
        let second = match self.second {
            Some(outcome) => outcome,
            None => vstd::pervasive::unreached(),
        };
        (first, second)
    }
}

/// Delivery order is issue order: settling the second call first and the
/// first call afterwards completes the batch exactly as the opposite order
/// does, and the delivered outcomes sit under the indices the calls were
/// issued with.
pub proof fn lemma_issue_order_delivery<T>(first_result: CallOutcome<T>, second_result: CallOutcome<T>)
    ensures
        ({
            let batch = ParallelBatch::<T>::spec_empty().spec_settled(1, second_result).spec_settled(
                0,
                first_result,
            );
            &&& batch.complete()
            &&& batch == ParallelBatch::<T>::spec_empty().spec_settled(0, first_result).spec_settled(
                1,
                second_result,
            )
            &&& batch.outcome(0) == first_result
            &&& batch.outcome(1) == second_result
        }),
{
}

} // verus!
