//! The configuration of a benchmark run and the producer's plan: how the items
//! `0, 1, .., num_items - 1` are cut into batches, and how many latency samples
//! a run leaves behind.

use vstd::arithmetic::div_mod::{
    lemma_basic_div, lemma_div_minus_one, lemma_mod_sub_multiples_vanish, lemma_small_mod,
};
use vstd::prelude::*;

verus! {

/// Why a configuration cannot be run.
#[derive(Debug, Clone, Copy, PartialEq, Eq)]
pub enum ConfigError {
    /// `num_consumers` is zero: nothing would ever drain the queue.
    NoConsumers,
    /// `batch_size` is zero: the queue would have no room at all.
    EmptyBatch,
    /// `num_runs` is zero: there would be nothing to average.
    NoRuns,
}

/// The parameters of a benchmark.
#[derive(Debug, Clone, Copy, PartialEq, Eq)]
pub struct RunConfig {
    /// How many consumer threads pop from the queue.
    pub num_consumers: usize,
    /// How many items the producer pushes in one run.
    pub num_items: usize,
    /// How many items make a batch; also the capacity of the queue.
    pub batch_size: usize,
    /// How many runs are made back to back.
    pub num_runs: usize,
    /// The pause between two runs, in milliseconds.
    pub cooldown_ms: u64,
}

/// The least number of batches of `batch_size` items that hold `num_items`
/// items: the quotient, rounded up.
pub open spec fn batch_count(num_items: nat, batch_size: nat) -> nat {
    if num_items % batch_size == 0 {
        num_items / batch_size
    } else {
        num_items / batch_size + 1
    }
}

/// The number of latency samples of a run: one for each batch pushed and one
/// for each item popped.
pub open spec fn sample_count(num_items: nat, batch_size: nat) -> nat {
    num_items + batch_count(num_items, batch_size)
}

impl RunConfig {
    /// There is at least one consumer, one item to a batch and one run.
    pub open spec fn valid(self) -> bool {
        self.num_consumers >= 1 && self.batch_size >= 1 && self.num_runs >= 1
    }

    /// The first parameter at fault, in the order consumers, batch size, runs.
    pub open spec fn fault(self) -> Option<ConfigError> {
        if self.num_consumers == 0 {
            Some(ConfigError::NoConsumers)
        } else if self.batch_size == 0 {
            Some(ConfigError::EmptyBatch)
        } else if self.num_runs == 0 {
            Some(ConfigError::NoRuns)
        } else {
            None
        }
    }

    /// Accepts the configuration or names the first parameter at fault.
    pub fn validate(&self) -> (checked: Result<(), ConfigError>)
        ensures
            checked == match self.fault() {
                Some(error) => Err::<(), ConfigError>(error),
                None => Ok(()),
            },
            checked is Ok <==> self.valid(),
    {
        if self.num_consumers == 0 {
            Err(ConfigError::NoConsumers)
        } else if self.batch_size == 0 {
            Err(ConfigError::EmptyBatch)
        } else if self.num_runs == 0 {
            Err(ConfigError::NoRuns)
        } else {
            Ok(())
        }
    }

    /// The number of batches that the producer pushes in one run.
    pub fn batch_count(&self) -> (count: usize)
        requires
            self.batch_size > 0,
        ensures
            count == batch_count(self.num_items as nat, self.batch_size as nat),
    {
        let full: usize = self.num_items / self.batch_size;
        if self.num_items % self.batch_size == 0 {
            full
        } else {
            proof {
                lemma_batch_count_bounds(self.num_items as nat, self.batch_size as nat);
            }
            full + 1
        }
    }

    /// The number of latency samples that one run leaves behind, where it fits
    /// the machine's word.
    pub fn sample_count(&self) -> (count: Option<usize>)
        requires
            self.batch_size > 0,
        ensures
            count is Some <==> sample_count(self.num_items as nat, self.batch_size as nat)
                <= usize::MAX,
            count is Some ==> count->Some_0 == sample_count(
                self.num_items as nat,
                self.batch_size as nat,
            ),
    {
        self.num_items.checked_add(self.batch_count())
    }

    /// The producer's plan for one run.
    pub fn plan(&self) -> (plan: BatchPlan)
        requires
            self.batch_size > 0,
        ensures
            plan@ == PlanState::new(self.num_items as nat, self.batch_size as nat),
            plan@.wf(),
    {
        BatchPlan::new(self.num_items, self.batch_size)
    }
}

impl Default for RunConfig {
    /// Four consumers, a million items in batches of a thousand, five runs a
    /// second apart.
    fn default() -> (config: Self)
        ensures
            config == (RunConfig {
                num_consumers: 4,
                num_items: 1_000_000,
                batch_size: 1_000,
                num_runs: 5,
                cooldown_ms: 1_000,
            }),
            config.valid(),
    {
        RunConfig {
            num_consumers: 4,
            num_items: 1_000_000,
            batch_size: 1_000,
            num_runs: 5,
            cooldown_ms: 1_000,
        }
    }
}

/// A contiguous group of items that the producer pushes between two readings
/// of the clock: the items `start, start + 1, .., start + len - 1`.
#[derive(Debug, Clone, Copy, PartialEq, Eq)]
pub struct Batch {
    /// The first item of the batch.
    pub start: usize,
    /// The number of items in the batch.
    pub len: usize,
}

impl Batch {
    /// The items of the batch, in the order in which they are pushed.
    pub open spec fn items(self) -> Seq<usize> {
        Seq::new(self.len as nat, |j: int| (self.start + j) as usize)
    }
}

/// The plan as a mathematical value.
pub struct PlanState {
    /// How many items the run pushes in all.
    pub num_items: nat,
    /// How many items make a full batch.
    pub batch_size: nat,
    /// The first item that no batch handed out so far holds.
    pub next: nat,
}

impl PlanState {
    /// The plan of a run of which no batch has been handed out.
    pub open spec fn new(num_items: nat, batch_size: nat) -> Self {
        PlanState { num_items, batch_size, next: 0 }
    }

    /// Batches are not empty, the plan has not run past its end, and every
    /// item fits the machine's word.
    pub open spec fn wf(self) -> bool {
        0 < self.batch_size && self.next <= self.num_items <= usize::MAX
    }

    /// The length of the next batch: a full batch, or what is left.
    pub open spec fn next_len(self) -> nat {
        if self.num_items - self.next < self.batch_size {
            (self.num_items - self.next) as nat
        } else {
            self.batch_size
        }
    }

    /// The batch that comes next, if any item is left.
    pub open spec fn next_batch(self) -> Option<Batch> {
        if self.next < self.num_items {
            Some(Batch { start: self.next as usize, len: self.next_len() as usize })
        } else {
            None
        }
    }

    /// The plan once the next batch has been handed out.
    pub open spec fn advance(self) -> Self {
        if self.next < self.num_items {
            PlanState { next: self.next + self.next_len(), ..self }
        } else {
            self
        }
    }

    /// The batches still to come, in order.
    pub open spec fn batches(self) -> Seq<Batch>
        decreases self.num_items - self.next,
    {
        if self.wf() && self.next < self.num_items {
            seq![self.next_batch().unwrap()] + self.advance().batches()
        } else {
            Seq::empty()
        }
    }

    /// The items still to come, in the order in which the producer pushes
    /// them.
    pub open spec fn items(self) -> Seq<usize>
        decreases self.num_items - self.next,
    {
        if self.wf() && self.next < self.num_items {
            self.next_batch().unwrap().items() + self.advance().items()
        } else {
            Seq::empty()
        }
    }
}

/// Hands out the batches of one run, first to last.
pub struct BatchPlan {
    num_items: usize,
    batch_size: usize,
    next: usize,
}

impl View for BatchPlan {
    type V = PlanState;

    closed spec fn view(&self) -> PlanState {
        PlanState {
            num_items: self.num_items as nat,
            batch_size: self.batch_size as nat,
            next: self.next as nat,
        }
    }
}

impl BatchPlan {
    #[verifier::type_invariant]
    spec fn inv(&self) -> bool {
        self@.wf()
    }

    /// The plan for `num_items` items in batches of `batch_size`.
    pub fn new(num_items: usize, batch_size: usize) -> (plan: Self)
        requires
            batch_size > 0,
        ensures
            plan@ == PlanState::new(num_items as nat, batch_size as nat),
            plan@.wf(),
    {
        BatchPlan { num_items, batch_size, next: 0 }
    }

    /// Hands out the next batch, or `None` once every item has been handed
    /// out.
    pub fn next_batch(&mut self) -> (batch: Option<Batch>)
        ensures
            batch == old(self)@.next_batch(),
            final(self)@ == old(self)@.advance(),
            final(self)@.wf(),
    {
        proof {
            use_type_invariant(&*self);
        }
        if self.next < self.num_items {
            let left: usize = self.num_items - self.next;
            let len: usize = if left < self.batch_size {
                left
            } else {
                self.batch_size
            };
            let batch = Batch { start: self.next, len };
            self.next = self.next + len;
            Some(batch)
        } else {
            None
        }
    }
}

/// The number of batches is the quotient rounded up: the least count whose
/// batches have room for every item.
pub proof fn lemma_batch_count_bounds(num_items: nat, batch_size: nat)
    requires
        batch_size > 0,
    ensures
        batch_count(num_items, batch_size) * batch_size >= num_items,
        num_items > 0 ==> (batch_count(num_items, batch_size) - 1) * batch_size < num_items,
        num_items == 0 ==> batch_count(num_items, batch_size) == 0,
        batch_count(num_items, batch_size) <= num_items,
{
    let q = num_items / batch_size;
    let r = num_items % batch_size;
    assert(num_items == q * batch_size + r && 0 <= r < batch_size) by (nonlinear_arith)
        requires
            batch_size > 0,
            q == num_items / batch_size,
            r == num_items % batch_size,
    ;
    assert((q + 1) * batch_size == q * batch_size + batch_size) by (nonlinear_arith);
    assert((q - 1) * batch_size == q * batch_size - batch_size) by (nonlinear_arith);
    assert(q <= q * batch_size) by (nonlinear_arith)
        requires
            batch_size > 0,
            q >= 0,
    ;
}

/// One full batch less to push is one batch less.
proof fn lemma_batch_count_step(num_items: nat, batch_size: nat)
    requires
        0 < batch_size <= num_items,
    ensures
        batch_count(num_items, batch_size) == 1 + batch_count(
            (num_items - batch_size) as nat,
            batch_size,
        ),
{
    lemma_div_minus_one(num_items as int, batch_size as int);
    lemma_mod_sub_multiples_vanish(num_items as int, batch_size as int);
}

/// Fewer items than a full batch, but at least one, make one batch.
proof fn lemma_batch_count_short(num_items: nat, batch_size: nat)
    requires
        0 < num_items < batch_size,
    ensures
        batch_count(num_items, batch_size) == 1,
{
    lemma_basic_div(num_items as int, batch_size as int);
    lemma_small_mod(num_items, batch_size);
}

/// The batches still to come: there are as many as the items left require,
/// each starts where the one before it ended, each but the last is full, and
/// none is empty.
pub proof fn lemma_batches(plan: PlanState)
    requires
        plan.wf(),
    ensures
        plan.batches().len() == batch_count((plan.num_items - plan.next) as nat, plan.batch_size),
        forall|k: int|
            0 <= k < plan.batches().len() ==> {
                let batch = #[trigger] plan.batches()[k];
                &&& batch.start == plan.next + k * plan.batch_size
                &&& batch.start + batch.len <= plan.num_items
                &&& 1 <= batch.len <= plan.batch_size
                &&& k + 1 < plan.batches().len() ==> batch.len == plan.batch_size
                &&& k + 1 == plan.batches().len() ==> batch.start + batch.len == plan.num_items
            },
    decreases plan.num_items - plan.next,
{
    let left = (plan.num_items - plan.next) as nat;
    if plan.next < plan.num_items {
        lemma_batches(plan.advance());
        if left < plan.batch_size {
            lemma_batch_count_short(left, plan.batch_size);
        } else {
            lemma_batch_count_step(left, plan.batch_size);
        }
        assert forall|k: int| 0 <= k < plan.batches().len() implies {
            let batch = #[trigger] plan.batches()[k];
            &&& batch.start == plan.next + k * plan.batch_size
            &&& batch.start + batch.len <= plan.num_items
            &&& 1 <= batch.len <= plan.batch_size
            &&& k + 1 < plan.batches().len() ==> batch.len == plan.batch_size
            &&& k + 1 == plan.batches().len() ==> batch.start + batch.len == plan.num_items
        } by {
            if k > 0 {
                assert((k - 1) * plan.batch_size + plan.batch_size == k * plan.batch_size)
                    by (nonlinear_arith);
            } else {
                assert(0 * plan.batch_size == 0) by (nonlinear_arith);
            }
        }
    }
}

/// The items still to come are the numbers from the plan's position up to the
/// last item, each once and in rising order.
pub proof fn lemma_items(plan: PlanState)
    requires
        plan.wf(),
    ensures
        plan.items() == Seq::new(
            (plan.num_items - plan.next) as nat,
            |i: int| (plan.next + i) as usize,
        ),
    decreases plan.num_items - plan.next,
{
    if plan.next < plan.num_items {
        lemma_items(plan.advance());
    }
}

/// A run's plan: the producer pushes the items `0, 1, .., num_items - 1` in this
/// order, in as many batches as the item count divided by the batch size,
/// rounded up.
pub proof fn lemma_plan_covers_every_item(num_items: nat, batch_size: nat)
    requires
        0 < batch_size,
        num_items <= usize::MAX,
    ensures
        PlanState::new(num_items, batch_size).items() == Seq::new(num_items, |i: int| i as usize),
        PlanState::new(num_items, batch_size).batches().len() == batch_count(num_items, batch_size),
{
    let plan = PlanState::new(num_items, batch_size);
    lemma_items(plan);
    lemma_batches(plan);
}

} // verus!
