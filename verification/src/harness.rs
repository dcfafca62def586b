//! What a completed run has delivered: the queue's laws and the producer's
//! plan, taken together.

use crate::history::{lemma_nothing_lost, History, Step};
use crate::plan::{lemma_plan_covers_every_item, sample_count, PlanState};
use vstd::prelude::*;

verus! {

/// Whether the history is that of a completed run: the producer has pushed
/// every item of its plan, and a consumer has been told to exit.
pub open spec fn run_completed(
    history: History<usize>,
    num_items: nat,
    batch_size: nat,
) -> bool {
    &&& history.pushed == PlanState::new(num_items, batch_size).items()
    &&& history.finished.len() > 0
}

/// However producer and consumers interleave, once the producer has pushed its
/// plan and a consumer has been told to exit, the pops have handed out the
/// items `0, 1, .., num_items - 1`, each once and in this order. So the count of
/// processed items is `num_items`, and with one sample for each item popped and
/// one for each batch pushed the run leaves `num_items` samples and as many
/// more as `num_items / batch_size`, rounded up.
pub proof fn lemma_run_delivers_every_item(
    capacity: nat,
    num_items: nat,
    batch_size: nat,
    steps: Seq<Step<usize>>,
)
    requires
        capacity > 0,
        batch_size > 0,
        num_items <= usize::MAX,
        History::<usize>::start(capacity).admits_all(steps),
        run_completed(History::<usize>::start(capacity).after(steps), num_items, batch_size),
    ensures
        ({
            let end = History::<usize>::start(capacity).after(steps);
            let plan = PlanState::new(num_items, batch_size);
            &&& end.popped == Seq::new(num_items, |i: int| i as usize)
            &&& end.popped.len() == num_items
            &&& end.popped.len() + plan.batches().len() == sample_count(num_items, batch_size)
        }),
{
    lemma_nothing_lost(capacity, steps);
    lemma_plan_covers_every_item(num_items, batch_size);
}

} // verus!
