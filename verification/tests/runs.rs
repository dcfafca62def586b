use spmc_bench::lifecycle::{RunEvent, RunLifecycle, RunPhase};
use spmc_bench::plan::{Batch, RunConfig};
use spmc_bench::queue::{PopOutcome, PushOutcome, SPMCQueue};

/// What one simulated run has left behind.
struct Report {
    popped: Vec<usize>,
    received: Vec<Vec<usize>>,
    items_processed: usize,
    batch_sizes: Vec<usize>,
    sink_len: usize,
    largest_len: usize,
    producer_waits: usize,
    consumer_waits: usize,
    pops_after_done: usize,
    len_at_done: usize,
    phase: RunPhase,
}

/// Runs producer and consumers on one thread. `pick` names the actor that
/// makes the next attempt: 0 is the producer, 1 and up are the consumers. An
/// actor that has left passes its turn to the next one that has not.
fn simulate(config: RunConfig, pick: &mut dyn FnMut(usize) -> usize) -> Report {
    assert_eq!(config.validate(), Ok(()));
    let actors = config.num_consumers + 1;
    let mut run = RunLifecycle::new(config.num_consumers);
    assert!(run.advance(RunEvent::Started));
    let mut queue: SPMCQueue<usize> = SPMCQueue::new(config.batch_size);
    let mut plan = config.plan();
    for _ in 0..config.num_consumers {
        assert!(run.advance(RunEvent::ConsumerSpawned));
    }
    assert_eq!(run.phase(), RunPhase::Running);

    let mut report = Report {
        popped: Vec::new(),
        received: vec![Vec::new(); config.num_consumers],
        items_processed: 0,
        batch_sizes: Vec::new(),
        sink_len: 0,
        largest_len: 0,
        producer_waits: 0,
        consumer_waits: 0,
        pops_after_done: 0,
        len_at_done: 0,
        phase: run.phase(),
    };
    let mut local_samples = vec![0usize; config.num_consumers];
    let mut gone = vec![false; actors];
    let mut batch: Option<Batch> = None;
    let mut pushed_of_batch = 0;
    let mut steps = 0usize;

    while gone.iter().any(|left| !left) {
        steps += 1;
        assert!(steps < 100_000_000, "the run does not end");
        let mut actor = pick(actors) % actors;
        while gone[actor] {
            actor = (actor + 1) % actors;
        }
        if actor == 0 {
            if batch.is_none() {
                batch = plan.next_batch();
                pushed_of_batch = 0;
            }
            match batch {
                None => {
                    report.len_at_done = queue.len();
                    queue.set_done();
                    gone[0] = true;
                    assert!(run.advance(RunEvent::ProducerFinished));
                }
                Some(current) => {
                    assert!(!queue.is_done());
                    let item = current.start + pushed_of_batch;
                    match queue.push(item) {
                        PushOutcome::Stored => {
                            pushed_of_batch += 1;
                            if pushed_of_batch == current.len {
                                report.batch_sizes.push(current.len);
                                report.sink_len += 1;
                                batch = None;
                            }
                        }
                        PushOutcome::Blocked(back) => {
                            assert_eq!(back, item);
                            assert_eq!(queue.len(), queue.capacity());
                            report.producer_waits += 1;
                        }
                    }
                }
            }
        } else {
            let consumer = actor - 1;
            let after_done = queue.is_done();
            match queue.pop() {
                PopOutcome::Item(item) => {
                    report.popped.push(item);
                    report.received[consumer].push(item);
                    report.items_processed += 1;
                    local_samples[consumer] += 1;
                    if after_done {
                        report.pops_after_done += 1;
                    }
                }
                PopOutcome::Finished => {
                    assert!(after_done);
                    assert!(queue.is_empty());
                    report.sink_len += local_samples[consumer];
                    gone[actor] = true;
                    assert!(run.advance(RunEvent::ConsumerJoined));
                }
                PopOutcome::Blocked => {
                    assert!(!after_done, "a pop had to wait after the end of the stream");
                    assert!(queue.is_empty());
                    report.consumer_waits += 1;
                }
            }
        }
        assert!(queue.len() <= queue.capacity());
        assert_eq!(queue.capacity(), config.batch_size);
        report.largest_len = report.largest_len.max(queue.len());
    }
    assert_eq!(run.phase(), RunPhase::Joined);
    assert!(run.advance(RunEvent::Reported));
    report.phase = run.phase();
    report
}

fn config(num_consumers: usize, num_items: usize, batch_size: usize) -> RunConfig {
    RunConfig { num_consumers, num_items, batch_size, num_runs: 1, cooldown_ms: 0 }
}

/// Every actor in turn.
fn round_robin() -> impl FnMut(usize) -> usize {
    let mut turn = 0usize;
    move |actors| {
        turn = (turn + 1) % actors;
        turn
    }
}

/// The producer makes `burst` attempts, then every consumer makes one.
fn producer_bursts(burst: usize) -> impl FnMut(usize) -> usize {
    let mut turn = 0usize;
    move |actors| {
        turn = (turn + 1) % (burst + actors - 1);
        if turn < burst {
            0
        } else {
            turn - burst + 1
        }
    }
}

/// A fixed pseudo-random order.
fn shuffled(seed: u64) -> impl FnMut(usize) -> usize {
    let mut state = seed;
    move |actors| {
        state = state.wrapping_mul(6364136223846793005).wrapping_add(1442695040888963407);
        ((state >> 33) as usize) % actors
    }
}

fn sorted(mut items: Vec<usize>) -> Vec<usize> {
    items.sort();
    items
}

fn check_run(config: RunConfig, report: &Report) {
    assert_eq!(report.phase, RunPhase::Reported);
    assert_eq!(report.popped, (0..config.num_items).collect::<Vec<usize>>());
    assert_eq!(report.items_processed, config.num_items);
    let mut merged = Vec::new();
    for received in &report.received {
        assert!(received.windows(2).all(|pair| pair[0] < pair[1]));
        merged.extend(received.iter().copied());
    }
    assert_eq!(sorted(merged), (0..config.num_items).collect::<Vec<usize>>());
    assert_eq!(report.batch_sizes.len(), config.batch_count());
    assert_eq!(report.batch_sizes.iter().sum::<usize>(), config.num_items);
    assert_eq!(Some(report.sink_len), config.sample_count());
    assert!(report.largest_len <= config.batch_size);
    assert_eq!(report.pops_after_done, report.len_at_done);
}

#[test]
fn run_without_items() {
    let config = config(1, 0, 1);
    let report = simulate(config, &mut round_robin());
    check_run(config, &report);
    assert_eq!(report.items_processed, 0);
    assert_eq!(report.popped, Vec::<usize>::new());
    assert_eq!(report.batch_sizes, Vec::<usize>::new());
    assert_eq!(report.sink_len, 0);
}

#[test]
fn single_consumer_receives_items_in_order() {
    let config = config(1, 10, 1);
    let report = simulate(config, &mut round_robin());
    check_run(config, &report);
    assert_eq!(report.popped, vec![0, 1, 2, 3, 4, 5, 6, 7, 8, 9]);
    assert_eq!(report.received[0], vec![0, 1, 2, 3, 4, 5, 6, 7, 8, 9]);
    assert_eq!(report.items_processed, 10);
    assert_eq!(report.sink_len, 20);
}

#[test]
fn four_consumers_share_a_thousand_items() {
    let config = config(4, 1000, 10);
    let report = simulate(config, &mut shuffled(1));
    check_run(config, &report);
    let mut all = Vec::new();
    for received in &report.received {
        all.extend(received.iter().copied());
    }
    assert_eq!(sorted(all), (0..1000).collect::<Vec<usize>>());
    assert_eq!(report.items_processed, 1000);
    assert_eq!(report.sink_len, 1000 + 100);
}

#[test]
fn batch_larger_than_item_count_is_one_short_batch() {
    let config = config(2, 100, 1000);
    let report = simulate(config, &mut round_robin());
    check_run(config, &report);
    assert_eq!(report.batch_sizes, vec![100]);
    assert_eq!(report.items_processed, 100);
    assert_eq!(report.sink_len, 101);
}

#[test]
fn default_workload_completes() {
    let config = RunConfig::default();
    let report = simulate(config, &mut producer_bursts(3));
    assert_eq!(report.phase, RunPhase::Reported);
    assert_eq!(report.items_processed, 1_000_000);
    assert_eq!(report.popped.len(), 1_000_000);
    assert!(report.popped.iter().enumerate().all(|(i, item)| *item == i));
    let mut seen = vec![false; 1_000_000];
    for received in &report.received {
        for item in received {
            assert!(!seen[*item]);
            seen[*item] = true;
        }
    }
    assert!(seen.iter().all(|found| *found));
    assert_eq!(report.batch_sizes.len(), 1000);
    assert_eq!(report.sink_len, 1_001_000);
    assert!(report.largest_len <= 1000);
}

#[test]
fn small_capacity_with_many_consumers() {
    let config = config(8, 10_000, 4);
    let report = simulate(config, &mut producer_bursts(40));
    check_run(config, &report);
    assert!(report.producer_waits > 0);
    assert_eq!(report.largest_len, 4);
    assert_eq!(report.items_processed, 10_000);
    assert_eq!(report.sink_len, 12_500);
}

#[test]
fn every_schedule_conserves_the_items() {
    for seed in 0..40u64 {
        let consumers = 1 + (seed as usize) % 5;
        let items = (seed as usize * 37) % 300;
        let batch = 1 + (seed as usize * 7) % 13;
        let config = config(consumers, items, batch);
        check_run(config, &simulate(config, &mut shuffled(seed)));
        check_run(config, &simulate(config, &mut round_robin()));
        check_run(config, &simulate(config, &mut producer_bursts(1 + batch * 2)));
    }
}

#[test]
fn eager_producer_fills_the_queue_to_its_capacity() {
    let config = config(1, 50, 5);
    let report = simulate(config, &mut producer_bursts(20));
    check_run(config, &report);
    assert_eq!(report.largest_len, 5);
    assert!(report.producer_waits > 0);
    assert_eq!(report.received[0], (0..50).collect::<Vec<usize>>());
}

#[test]
fn eager_consumers_wait_but_lose_nothing() {
    let config = config(6, 30, 3);
    let report = simulate(config, &mut round_robin());
    check_run(config, &report);
    assert!(report.consumer_waits > 0);
    assert_eq!(report.producer_waits, 0);
}

#[test]
fn consumers_leave_within_the_buffer_length_after_done() {
    let config = config(3, 12, 12);
    let mut turn = 0usize;
    let report = simulate(config, &mut |actors| {
        turn += 1;
        if turn <= 13 {
            0
        } else {
            1 + turn % (actors - 1)
        }
    });
    check_run(config, &report);
    assert_eq!(report.len_at_done, 12);
    assert_eq!(report.pops_after_done, 12);
    assert_eq!(report.consumer_waits, 0);
}
