//! The bounded FIFO buffer with its terminal flag.

use std::collections::VecDeque;
use vstd::prelude::*;

verus! {

/// Whom the caller wakes once a call has returned, of the threads that wait
/// for the queue to change.
#[derive(Debug, Clone, Copy, PartialEq, Eq)]
pub enum Wake {
    /// Nobody: the queue is as it was.
    Nobody,
    /// One waiter: one item has come or gone.
    One,
    /// Every waiter: the stream has ended.
    All,
}

/// What a call of [`SPMCQueue::push`] did.
#[derive(Debug, PartialEq, Eq)]
pub enum PushOutcome<T> {
    /// The value is now the newest item. The caller wakes one waiter.
    Stored,
    /// The buffer was full. The value comes back; the caller waits for a
    /// wake-up and pushes it again.
    Blocked(T),
}

/// What a call of [`SPMCQueue::pop`] did.
#[derive(Debug, PartialEq, Eq)]
pub enum PopOutcome<T> {
    /// The oldest item. The caller wakes one waiter.
    Item(T),
    /// The buffer is empty and the producer is done: the consumer exits.
    Finished,
    /// The buffer is empty and the producer is not done. The caller waits for
    /// a wake-up and pops again.
    Blocked,
}

impl<T> PushOutcome<T> {
    /// Whom to wake after a push: one waiter if the value was stored.
    pub open spec fn wakes(self) -> Wake {
        match self {
            PushOutcome::Stored => Wake::One,
            PushOutcome::Blocked(_) => Wake::Nobody,
        }
    }

    /// Whom the caller wakes after the push that gave this outcome.
    pub fn wake(&self) -> (wake: Wake)
        ensures
            wake == self.wakes(),
    {
        match self {
            PushOutcome::Stored => Wake::One,
            PushOutcome::Blocked(_) => Wake::Nobody,
        }
    }
}

impl<T> PopOutcome<T> {
    /// Whom to wake after a pop: one waiter if an item was handed out.
    pub open spec fn wakes(self) -> Wake {
        match self {
            PopOutcome::Item(_) => Wake::One,
            PopOutcome::Finished => Wake::Nobody,
            PopOutcome::Blocked => Wake::Nobody,
        }
    }

    /// Whom the caller wakes after the pop that gave this outcome.
    pub fn wake(&self) -> (wake: Wake)
        ensures
            wake == self.wakes(),
    {
        match self {
            PopOutcome::Item(_) => Wake::One,
            PopOutcome::Finished => Wake::Nobody,
            PopOutcome::Blocked => Wake::Nobody,
        }
    }
}

/// The queue as a mathematical value.
pub struct QueueState<T> {
    /// The items, oldest first.
    pub buffer: Seq<T>,
    /// The most items the buffer may hold.
    pub capacity: nat,
    /// Whether the producer has declared the end of the stream.
    pub done: bool,
}

impl<T> QueueState<T> {
    /// The empty queue of the given capacity, not yet done.
    pub open spec fn new(capacity: nat) -> Self {
        QueueState { buffer: Seq::empty(), capacity, done: false }
    }

    /// The capacity is positive and the buffer respects it.
    pub open spec fn wf(self) -> bool {
        0 < self.capacity && self.buffer.len() <= self.capacity
    }

    pub open spec fn is_empty(self) -> bool {
        self.buffer.len() == 0
    }

    pub open spec fn is_full(self) -> bool {
        self.buffer.len() >= self.capacity
    }

    /// The state after an attempt to push `value`.
    pub open spec fn push(self, value: T) -> Self {
        if self.is_full() {
            self
        } else {
            QueueState { buffer: self.buffer.push(value), ..self }
        }
    }

    /// What an attempt to push `value` reports.
    pub open spec fn push_outcome(self, value: T) -> PushOutcome<T> {
        if self.is_full() {
            PushOutcome::Blocked(value)
        } else {
            PushOutcome::Stored
        }
    }

    /// The state after an attempt to pop.
    pub open spec fn pop(self) -> Self {
        if self.is_empty() {
            self
        } else {
            QueueState { buffer: self.buffer.drop_first(), ..self }
        }
    }

    /// What an attempt to pop reports.
    pub open spec fn pop_outcome(self) -> PopOutcome<T> {
        if !self.is_empty() {
            PopOutcome::Item(self.buffer.first())
        } else if self.done {
            PopOutcome::Finished
        } else {
            PopOutcome::Blocked
        }
    }

    /// The state after the producer has declared the end of the stream.
    pub open spec fn set_done(self) -> Self {
        QueueState { done: true, ..self }
    }
}

/// A bounded FIFO queue for one producer and any number of consumers.
pub struct SPMCQueue<T> {
    queue: VecDeque<T>,
    done: bool,
    max_size: usize,
}

impl<T> View for SPMCQueue<T> {
    type V = QueueState<T>;

    closed spec fn view(&self) -> QueueState<T> {
        QueueState { buffer: self.queue@, capacity: self.max_size as nat, done: self.done }
    }
}

impl<T> SPMCQueue<T> {
    /// An empty queue that holds at most `max_size` items.
    pub fn new(max_size: usize) -> (q: Self)
        requires
            max_size > 0,
        ensures
            q@ == QueueState::<T>::new(max_size as nat),
            q@.wf(),
    {
        SPMCQueue { queue: VecDeque::new(), done: false, max_size }
    }

    /// Appends `value` as the newest item unless the buffer is full.
    pub fn push(&mut self, value: T) -> (outcome: PushOutcome<T>)
        requires
            !old(self)@.done,
        ensures
            final(self)@ == old(self)@.push(value),
            outcome == old(self)@.push_outcome(value),
            old(self)@.wf() ==> final(self)@.wf(),
    {
        if self.queue.len() >= self.max_size {
            PushOutcome::Blocked(value)
        } else {
            self.queue.push_back(value);
            PushOutcome::Stored
        }
    }

    /// Removes the oldest item, if there is one.
    pub fn pop(&mut self) -> (outcome: PopOutcome<T>)
        ensures
            final(self)@ == old(self)@.pop(),
            outcome == old(self)@.pop_outcome(),
            old(self)@.wf() ==> final(self)@.wf(),
    {
        match self.queue.pop_front() {
            Some(value) => PopOutcome::Item(value),
            None => if self.done {
                PopOutcome::Finished
            } else {
                PopOutcome::Blocked
            },
        }
    }

    /// The number of items in the buffer.
    pub fn len(&self) -> (len: usize)
        ensures
            len == self@.buffer.len(),
    {
        self.queue.len()
    }

    /// Whether the buffer holds no item.
    pub fn is_empty(&self) -> (empty: bool)
        ensures
            empty == self@.is_empty(),
    {
        self.queue.len() == 0
    }

    /// The most items the buffer may hold.
    pub fn capacity(&self) -> (capacity: usize)
        ensures
            capacity == self@.capacity,
    {
        self.max_size
    }

    /// Whether the producer has declared the end of the stream.
    pub fn is_done(&self) -> (done: bool)
        ensures
            done == self@.done,
    {
        self.done
    }

    /// Declares the end of the stream, once or again. The caller wakes every
    /// waiter.
    pub fn set_done(&mut self) -> (wake: Wake)
        ensures
            final(self)@ == old(self)@.set_done(),
            old(self)@.wf() ==> final(self)@.wf(),
            wake == Wake::All,
    {
        self.done = true;
        Wake::All
    }
}

} // verus!
