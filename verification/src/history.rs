//! Histories of a queue: what any interleaving of one producer and any number
//! of consumers can lead to, and the laws that hold of every one of them.
//!
//! Each attempt to push, to pop or to end the stream is one critical section,
//! so a run of the queue is a sequence of such attempts in the order in which
//! they took the lock. An attempt that finds the queue not ready changes
//! nothing: its thread waits and tries again later, which is one more step.

use crate::queue::{PopOutcome, PushOutcome, QueueState};
use vstd::prelude::*;

verus! {

/// One attempt on the queue.
pub enum Step<T> {
    /// The producer tries to push the value.
    Push(T),
    /// The consumer of the given number tries to pop.
    Pop(nat),
    /// The producer ends the stream.
    SetDone,
}

/// A queue together with a record of what has happened to it.
pub struct History<T> {
    /// The queue now.
    pub state: QueueState<T>,
    /// The values that were stored, in the order of their pushes.
    pub pushed: Seq<T>,
    /// The values that were handed out, in the order of their pops.
    pub popped: Seq<T>,
    /// For each value handed out, the consumer that received it.
    pub takers: Seq<nat>,
    /// The consumers that were told to exit, in the order of their pops.
    pub finished: Seq<nat>,
    /// How many attempts found the queue not ready and had to wait.
    pub waits: nat,
}

/// The items among `items` whose taker is `consumer`, in order.
pub open spec fn taken_by<T>(items: Seq<T>, takers: Seq<nat>, consumer: nat) -> Seq<T>
    recommends
        items.len() == takers.len(),
    decreases items.len(),
{
    if items.len() == 0 {
        Seq::empty()
    } else {
        let earlier = taken_by(items.drop_last(), takers.drop_last(), consumer);
        if takers.last() == consumer {
            earlier.push(items.last())
        } else {
            earlier
        }
    }
}

impl<T> History<T> {
    /// A fresh queue of the given capacity, to which nothing has happened.
    pub open spec fn start(capacity: nat) -> Self {
        History {
            state: QueueState::new(capacity),
            pushed: Seq::empty(),
            popped: Seq::empty(),
            takers: Seq::empty(),
            finished: Seq::empty(),
            waits: 0,
        }
    }

    /// The history after one more attempt.
    pub open spec fn step(self, step: Step<T>) -> Self {
        match step {
            Step::Push(value) => match self.state.push_outcome(value) {
                PushOutcome::Stored => History {
                    state: self.state.push(value),
                    pushed: self.pushed.push(value),
                    ..self
                },
                PushOutcome::Blocked(_) => History { waits: self.waits + 1, ..self },
            },
            Step::Pop(consumer) => match self.state.pop_outcome() {
                PopOutcome::Item(value) => History {
                    state: self.state.pop(),
                    popped: self.popped.push(value),
                    takers: self.takers.push(consumer),
                    ..self
                },
                PopOutcome::Finished => History {
                    finished: self.finished.push(consumer),
                    ..self
                },
                PopOutcome::Blocked => History { waits: self.waits + 1, ..self },
            },
            Step::SetDone => History { state: self.state.set_done(), ..self },
        }
    }

    /// The history after the given attempts, first to last.
    pub open spec fn after(self, steps: Seq<Step<T>>) -> Self
        decreases steps.len(),
    {
        if steps.len() == 0 {
            self
        } else {
            self.after(steps.drop_last()).step(steps.last())
        }
    }

    /// Whether the producer may make this attempt now: it pushes nothing once
    /// it has ended the stream.
    pub open spec fn admits(self, step: Step<T>) -> bool {
        step is Push ==> !self.state.done
    }

    /// Whether the producer keeps to that rule throughout the given attempts.
    pub open spec fn admits_all(self, steps: Seq<Step<T>>) -> bool
        decreases steps.len(),
    {
        steps.len() == 0 || (self.admits_all(steps.drop_last()) && self.after(
            steps.drop_last(),
        ).admits(steps.last()))
    }

    /// The values that the given consumer has received, in order.
    pub open spec fn received_by(self, consumer: nat) -> Seq<T> {
        taken_by(self.popped, self.takers, consumer)
    }

    /// What links the record to the queue.
    pub open spec fn consistent(self) -> bool {
        &&& self.state.wf()
        &&& self.pushed == self.popped + self.state.buffer
        &&& self.takers.len() == self.popped.len()
    }

    /// No consumer has been told to exit while an item was still to come.
    pub open spec fn exits_are_final(self) -> bool {
        self.finished.len() > 0 ==> self.state.done && self.state.is_empty()
    }
}

/// Whether every pop among the attempts is made by the one consumer.
pub open spec fn only_consumer<T>(steps: Seq<Step<T>>, consumer: nat) -> bool {
    forall|i: int| 0 <= i < steps.len() ==> (#[trigger] steps[i] matches Step::Pop(c) ==> c == consumer)
}

/// Whether every attempt is a pop.
pub open spec fn only_pops<T>(steps: Seq<Step<T>>) -> bool {
    forall|i: int| 0 <= i < steps.len() ==> #[trigger] steps[i] is Pop
}

/// One attempt keeps the record and the queue in agreement.
pub proof fn lemma_step_consistent<T>(h: History<T>, step: Step<T>)
    requires
        h.consistent(),
    ensures
        h.step(step).consistent(),
        h.step(step).state.capacity == h.state.capacity,
{
    if step is Pop && !h.state.is_empty() {
        let next = h.step(step);
        assert(next.pushed =~= next.popped + next.state.buffer);
    }
}

/// Attempts keep the record and the queue in agreement.
pub proof fn lemma_after_consistent<T>(h: History<T>, steps: Seq<Step<T>>)
    requires
        h.consistent(),
    ensures
        h.after(steps).consistent(),
        h.after(steps).state.capacity == h.state.capacity,
    decreases steps.len(),
{
    if steps.len() > 0 {
        lemma_after_consistent(h, steps.drop_last());
        lemma_step_consistent(h.after(steps.drop_last()), steps.last());
    }
}

/// However the attempts of producer and consumers interleave, the buffer never
/// holds more items than the capacity, and the capacity never changes.
pub proof fn lemma_capacity_bound<T>(capacity: nat, steps: Seq<Step<T>>)
    requires
        capacity > 0,
    ensures
        History::<T>::start(capacity).after(steps).state.buffer.len() <= capacity,
        History::<T>::start(capacity).after(steps).state.capacity == capacity,
{
    lemma_after_consistent(History::<T>::start(capacity), steps);
}

/// The queue is first in, first out: at every moment the values pushed so far
/// are the values popped so far, in the same order, followed by the buffer. So
/// no value is lost, duplicated or overtaken, and once the buffer is empty the
/// sequence of popped values equals the sequence of pushed values.
pub proof fn lemma_fifo<T>(capacity: nat, steps: Seq<Step<T>>)
    requires
        capacity > 0,
    ensures
        ({
            let h = History::<T>::start(capacity).after(steps);
            &&& h.pushed == h.popped + h.state.buffer
            &&& h.state.is_empty() ==> h.popped == h.pushed
        }),
{
    lemma_after_consistent(History::<T>::start(capacity), steps);
}

/// Where every item has the same taker, that taker has all of them.
proof fn lemma_taken_by_all<T>(items: Seq<T>, takers: Seq<nat>, consumer: nat)
    requires
        items.len() == takers.len(),
        forall|i: int| 0 <= i < takers.len() ==> takers[i] == consumer,
    ensures
        taken_by(items, takers, consumer) == items,
    decreases items.len(),
{
    if items.len() > 0 {
        lemma_taken_by_all(items.drop_last(), takers.drop_last(), consumer);
    }
}

/// With a single consumer only that consumer takes items.
proof fn lemma_only_taker<T>(capacity: nat, steps: Seq<Step<T>>, consumer: nat)
    requires
        only_consumer(steps, consumer),
    ensures
        ({
            let h = History::<T>::start(capacity).after(steps);
            &&& h.takers.len() == h.popped.len()
            &&& forall|i: int| 0 <= i < h.takers.len() ==> h.takers[i] == consumer
        }),
    decreases steps.len(),
{
    if steps.len() > 0 {
        lemma_only_taker(capacity, steps.drop_last(), consumer);
    }
}

/// Where one consumer makes all the pops, the values it has received are the
/// values pushed, in the order of their pushes, but for those still in the
/// buffer; once the buffer is empty it has received exactly the sequence that
/// was pushed.
pub proof fn lemma_single_consumer_fifo<T>(capacity: nat, steps: Seq<Step<T>>, consumer: nat)
    requires
        capacity > 0,
        only_consumer(steps, consumer),
    ensures
        ({
            let h = History::<T>::start(capacity).after(steps);
            &&& h.received_by(consumer) == h.popped
            &&& h.pushed == h.received_by(consumer) + h.state.buffer
            &&& h.state.is_empty() ==> h.received_by(consumer) == h.pushed
        }),
{
    let h = History::<T>::start(capacity).after(steps);
    lemma_only_taker(capacity, steps, consumer);
    lemma_taken_by_all(h.popped, h.takers, consumer);
    lemma_fifo(capacity, steps);
}

/// Once the stream has ended it stays ended, whatever is attempted.
pub proof fn lemma_done_is_permanent<T>(h: History<T>, steps: Seq<Step<T>>)
    requires
        h.state.done,
    ensures
        h.after(steps).state.done,
    decreases steps.len(),
{
    if steps.len() > 0 {
        lemma_done_is_permanent(h, steps.drop_last());
    }
}

/// While the producer keeps to its rule, a consumer that was told to exit was
/// told so for good: the stream has ended and the buffer stays empty.
proof fn lemma_exits_are_final<T>(h: History<T>, steps: Seq<Step<T>>)
    requires
        h.exits_are_final(),
        h.admits_all(steps),
    ensures
        h.after(steps).exits_are_final(),
    decreases steps.len(),
{
    if steps.len() > 0 {
        lemma_exits_are_final(h, steps.drop_last());
    }
}

/// Nothing is lost at shutdown: where the producer pushes nothing after it has
/// ended the stream, a consumer is told to exit only when every value that was
/// ever pushed has been handed out. From then on the values popped are the
/// values pushed, as many and in the same order, and the buffer is empty.
pub proof fn lemma_nothing_lost<T>(capacity: nat, steps: Seq<Step<T>>)
    requires
        capacity > 0,
        History::<T>::start(capacity).admits_all(steps),
        History::<T>::start(capacity).after(steps).finished.len() > 0,
    ensures
        ({
            let h = History::<T>::start(capacity).after(steps);
            &&& h.popped == h.pushed
            &&& h.popped.len() == h.pushed.len()
            &&& h.state.is_empty()
            &&& h.state.done
        }),
{
    lemma_exits_are_final(History::<T>::start(capacity), steps);
    lemma_fifo(capacity, steps);
}

/// The smaller of two lengths.
pub open spec fn at_most(wanted: nat, available: nat) -> nat {
    if wanted <= available {
        wanted
    } else {
        available
    }
}

/// Once the stream has ended no pop has to wait. Of any number of pops made
/// then, the first ones hand out what the buffer holds, oldest first, and each
/// of the others tells its consumer to exit. So the consumers are kept for at
/// most as many pops as the buffer holds items, and none is kept forever.
pub proof fn lemma_drain<T>(h: History<T>, pops: Seq<Step<T>>)
    requires
        h.state.done,
        only_pops(pops),
    ensures
        ({
            let end = h.after(pops);
            let served = at_most(pops.len(), h.state.buffer.len());
            &&& end.waits == h.waits
            &&& end.popped == h.popped + h.state.buffer.take(served as int)
            &&& end.state.buffer == h.state.buffer.skip(served as int)
            &&& end.finished.len() == h.finished.len() + pops.len() - served
            &&& end.pushed == h.pushed
            &&& end.state.done
        }),
    decreases pops.len(),
{
    if pops.len() > 0 {
        lemma_drain(h, pops.drop_last());
    }
}

} // verus!
