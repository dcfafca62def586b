//! The life of one benchmark run, from the first reading of the clock to the
//! report.
//!
//! The harness performs the work of a phase (it spawns a thread, pushes the
//! batches, joins a thread, prints) and reports each completed piece as an
//! event. The lifecycle accepts an event only in the phase to which it belongs,
//! so no run is reported while one of its consumers is still at work.

use vstd::prelude::*;

verus! {

/// Where a run stands.
#[derive(Debug, Clone, Copy, PartialEq, Eq)]
pub enum RunPhase {
    /// Nothing has happened yet.
    Init,
    /// The clock is running, queue and latency sink exist, and consumers are
    /// being created.
    Spawning,
    /// Every consumer exists and the producer is pushing its batches.
    Running,
    /// The producer has ended the stream; consumers empty the queue and leave.
    Draining,
    /// Every consumer has left and merged its samples.
    Joined,
    /// The statistics have been computed and handed out.
    Reported,
}

/// What the harness has just completed.
#[derive(Debug, Clone, Copy, PartialEq, Eq)]
pub enum RunEvent {
    /// The start time is taken and queue and latency sink are created.
    Started,
    /// One more consumer thread is created.
    ConsumerSpawned,
    /// The producer has pushed its last batch and ended the stream.
    ProducerFinished,
    /// One more consumer has returned and merged its samples.
    ConsumerJoined,
    /// The statistics are computed and handed out.
    Reported,
}

/// The lifecycle as a mathematical value.
pub struct RunState {
    /// The phase the run is in.
    pub phase: RunPhase,
    /// How many consumers the run has.
    pub num_consumers: nat,
    /// How many of them have been created.
    pub spawned: nat,
    /// How many of them have returned.
    pub joined: nat,
}

impl RunPhase {
    /// The place of the phase in the order in which a run passes through them.
    pub open spec fn rank(self) -> nat {
        match self {
            RunPhase::Init => 0,
            RunPhase::Spawning => 1,
            RunPhase::Running => 2,
            RunPhase::Draining => 3,
            RunPhase::Joined => 4,
            RunPhase::Reported => 5,
        }
    }
}

impl RunState {
    /// A run with the given number of consumers, of which nothing has happened
    /// yet.
    pub open spec fn new(num_consumers: nat) -> Self {
        RunState { phase: RunPhase::Init, num_consumers, spawned: 0, joined: 0 }
    }

    /// There is a consumer, and the counts fit the phase: consumers are joined
    /// only once all are created, and a run is joined or reported only once
    /// all have returned.
    pub open spec fn wf(self) -> bool {
        &&& 1 <= self.num_consumers
        &&& match self.phase {
            RunPhase::Init => self.spawned == 0 && self.joined == 0,
            RunPhase::Spawning => self.spawned < self.num_consumers && self.joined == 0,
            RunPhase::Running => self.spawned == self.num_consumers && self.joined == 0,
            RunPhase::Draining => self.spawned == self.num_consumers && self.joined
                < self.num_consumers,
            RunPhase::Joined => self.spawned == self.num_consumers && self.joined
                == self.num_consumers,
            RunPhase::Reported => self.spawned == self.num_consumers && self.joined
                == self.num_consumers,
        }
    }

    /// Whether the event belongs to the phase the run is in.
    pub open spec fn allows(self, event: RunEvent) -> bool {
        match (self.phase, event) {
            (RunPhase::Init, RunEvent::Started) => true,
            (RunPhase::Spawning, RunEvent::ConsumerSpawned) => true,
            (RunPhase::Running, RunEvent::ProducerFinished) => true,
            (RunPhase::Draining, RunEvent::ConsumerJoined) => true,
            (RunPhase::Joined, RunEvent::Reported) => true,
            _ => false,
        }
    }

    /// The run after the event. An event that does not belong to the phase
    /// changes nothing.
    pub open spec fn next(self, event: RunEvent) -> Self {
        if !self.allows(event) {
            self
        } else {
            match event {
                RunEvent::Started => RunState { phase: RunPhase::Spawning, ..self },
                RunEvent::ConsumerSpawned => RunState {
                    phase: if self.spawned + 1 == self.num_consumers {
                        RunPhase::Running
                    } else {
                        RunPhase::Spawning
                    },
                    spawned: self.spawned + 1,
                    ..self
                },
                RunEvent::ProducerFinished => RunState { phase: RunPhase::Draining, ..self },
                RunEvent::ConsumerJoined => RunState {
                    phase: if self.joined + 1 == self.num_consumers {
                        RunPhase::Joined
                    } else {
                        RunPhase::Draining
                    },
                    joined: self.joined + 1,
                    ..self
                },
                RunEvent::Reported => RunState { phase: RunPhase::Reported, ..self },
            }
        }
    }
}

/// Keeps the harness to the order of a run.
pub struct RunLifecycle {
    phase: RunPhase,
    num_consumers: usize,
    spawned: usize,
    joined: usize,
}

impl View for RunLifecycle {
    type V = RunState;

    closed spec fn view(&self) -> RunState {
        RunState {
            phase: self.phase,
            num_consumers: self.num_consumers as nat,
            spawned: self.spawned as nat,
            joined: self.joined as nat,
        }
    }
}

impl RunLifecycle {
    #[verifier::type_invariant]
    spec fn inv(&self) -> bool {
        self@.wf()
    }

    /// The lifecycle of a run with `num_consumers` consumers, before its
    /// start.
    pub fn new(num_consumers: usize) -> (run: Self)
        requires
            num_consumers >= 1,
        ensures
            run@ == RunState::new(num_consumers as nat),
            run@.wf(),
    {
        RunLifecycle { phase: RunPhase::Init, num_consumers, spawned: 0, joined: 0 }
    }

    /// The phase the run is in.
    pub fn phase(&self) -> (phase: RunPhase)
        ensures
            phase == self@.phase,
            self@.wf(),
    {
        proof {
            use_type_invariant(self);
        }
        self.phase
    }

    /// Takes note of what the harness has completed. Returns whether the event
    /// belongs to the current phase; if it does not, nothing changes.
    pub fn advance(&mut self, event: RunEvent) -> (accepted: bool)
        ensures
            accepted == old(self)@.allows(event),
            final(self)@ == old(self)@.next(event),
            final(self)@.wf(),
    {
        proof {
            use_type_invariant(&*self);
        }
        let num_consumers = self.num_consumers;
        match (self.phase, event) {
            (RunPhase::Init, RunEvent::Started) => {
                self.phase = RunPhase::Spawning;
                true
            },
            (RunPhase::Spawning, RunEvent::ConsumerSpawned) => {
                let spawned: usize = self.spawned + 1;
                let phase = if spawned == num_consumers {
                    RunPhase::Running
                } else {
                    RunPhase::Spawning
                };
                *self = RunLifecycle { phase, num_consumers, spawned, joined: self.joined };
                true
            },
            (RunPhase::Running, RunEvent::ProducerFinished) => {
                self.phase = RunPhase::Draining;
                true
            },
            (RunPhase::Draining, RunEvent::ConsumerJoined) => {
                let joined: usize = self.joined + 1;
                let phase = if joined == num_consumers {
                    RunPhase::Joined
                } else {
                    RunPhase::Draining
                };
                *self = RunLifecycle { phase, num_consumers, spawned: self.spawned, joined };
                true
            },
            (RunPhase::Joined, RunEvent::Reported) => {
                self.phase = RunPhase::Reported;
                true
            },
            _ => false,
        }
    }
}

/// A run passes through its phases in order and skips none: an event leaves
/// the phase as it is or leads to the one that follows it.
pub proof fn lemma_phases_in_order(run: RunState, event: RunEvent)
    requires
        run.wf(),
    ensures
        run.next(event).wf(),
        run.next(event).num_consumers == run.num_consumers,
        run.next(event).phase.rank() == run.phase.rank() || run.next(event).phase.rank()
            == run.phase.rank() + 1,
        run.next(event).spawned >= run.spawned,
        run.next(event).joined >= run.joined,
{
}

} // verus!
