use spmc_bench::lifecycle::{RunEvent, RunLifecycle, RunPhase};

const EVENTS: [RunEvent; 5] = [
    RunEvent::Started,
    RunEvent::ConsumerSpawned,
    RunEvent::ProducerFinished,
    RunEvent::ConsumerJoined,
    RunEvent::Reported,
];

#[test]
fn run_starts_in_init() {
    assert_eq!(RunLifecycle::new(1).phase(), RunPhase::Init);
    assert_eq!(RunLifecycle::new(usize::MAX).phase(), RunPhase::Init);
}

#[test]
fn run_with_one_consumer_passes_every_phase() {
    let mut run = RunLifecycle::new(1);
    assert!(run.advance(RunEvent::Started));
    assert_eq!(run.phase(), RunPhase::Spawning);
    assert!(run.advance(RunEvent::ConsumerSpawned));
    assert_eq!(run.phase(), RunPhase::Running);
    assert!(run.advance(RunEvent::ProducerFinished));
    assert_eq!(run.phase(), RunPhase::Draining);
    assert!(run.advance(RunEvent::ConsumerJoined));
    assert_eq!(run.phase(), RunPhase::Joined);
    assert!(run.advance(RunEvent::Reported));
    assert_eq!(run.phase(), RunPhase::Reported);
}

#[test]
fn run_waits_for_every_consumer() {
    let mut run = RunLifecycle::new(3);
    assert!(run.advance(RunEvent::Started));
    for spawned in 1..=3 {
        assert_eq!(run.phase(), RunPhase::Spawning);
        assert!(!run.advance(RunEvent::ProducerFinished));
        assert!(run.advance(RunEvent::ConsumerSpawned));
        assert_eq!(run.phase() == RunPhase::Running, spawned == 3);
    }
    assert!(!run.advance(RunEvent::ConsumerSpawned));
    assert!(run.advance(RunEvent::ProducerFinished));
    for joined in 1..=3 {
        assert_eq!(run.phase(), RunPhase::Draining);
        assert!(!run.advance(RunEvent::Reported));
        assert!(run.advance(RunEvent::ConsumerJoined));
        assert_eq!(run.phase() == RunPhase::Joined, joined == 3);
    }
    assert!(!run.advance(RunEvent::ConsumerJoined));
    assert!(run.advance(RunEvent::Reported));
    assert_eq!(run.phase(), RunPhase::Reported);
}

fn accepted_in(prefix: &[RunEvent]) -> Vec<RunEvent> {
    let mut accepted = Vec::new();
    for event in EVENTS {
        let mut run = RunLifecycle::new(2);
        for earlier in prefix {
            assert!(run.advance(*earlier));
        }
        let before = run.phase();
        if run.advance(event) {
            accepted.push(event);
        } else {
            assert_eq!(run.phase(), before);
        }
    }
    accepted
}

#[test]
fn each_phase_accepts_one_event() {
    let order = [
        RunEvent::Started,
        RunEvent::ConsumerSpawned,
        RunEvent::ConsumerSpawned,
        RunEvent::ProducerFinished,
        RunEvent::ConsumerJoined,
        RunEvent::ConsumerJoined,
        RunEvent::Reported,
    ];
    for done in 0..order.len() {
        assert_eq!(accepted_in(&order[..done]), vec![order[done]]);
    }
    assert_eq!(accepted_in(&order), Vec::<RunEvent>::new());
}

#[test]
fn rejected_event_changes_nothing() {
    let mut run = RunLifecycle::new(2);
    assert!(run.advance(RunEvent::Started));
    assert!(run.advance(RunEvent::ConsumerSpawned));
    for _ in 0..5 {
        assert!(!run.advance(RunEvent::ConsumerJoined));
        assert!(!run.advance(RunEvent::Started));
    }
    assert_eq!(run.phase(), RunPhase::Spawning);
    assert!(run.advance(RunEvent::ConsumerSpawned));
    assert_eq!(run.phase(), RunPhase::Running);
}

#[test]
fn reported_run_is_over() {
    let mut run = RunLifecycle::new(1);
    for event in [
        RunEvent::Started,
        RunEvent::ConsumerSpawned,
        RunEvent::ProducerFinished,
        RunEvent::ConsumerJoined,
        RunEvent::Reported,
    ] {
        assert!(run.advance(event));
    }
    for event in EVENTS {
        assert!(!run.advance(event));
        assert_eq!(run.phase(), RunPhase::Reported);
    }
}
