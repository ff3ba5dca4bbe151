use beatmap_downloader::batch::{
    CoordinatorStep, DownloadBatch, WorkerState, WorkerStep, QUEUE_CAPACITY,
};
use beatmap_downloader::error::DownloadError;
use beatmap_downloader::progress::Progress;
use std::collections::HashSet;

fn items(count: u32) -> HashSet<u32> {
    (1..=count).collect()
}

/// Runs a batch to its end in one thread. Every worker that is given a job
/// reports half of it, then ends it: with a failure where `fails` says so.
/// Returns the steps taken, or nothing if the batch got stuck.
fn run(batch: &mut DownloadBatch, fails: &dyn Fn(u32) -> bool) -> Option<usize> {
    let mut steps = 0;
    loop {
        let mut moved = false;
        match batch.coordinator_step() {
            CoordinatorStep::Finished => return Some(steps),
            CoordinatorStep::Pushed(_) | CoordinatorStep::Closed => moved = true,
            CoordinatorStep::Blocked | CoordinatorStep::Waiting => {},
        }
        for worker in 0..batch.worker_count() {
            let was = batch.worker_state(worker);
            match batch.worker_step(worker) {
                WorkerStep::Job(id) => {
                    batch.report_progress(worker, 50, 100);
                    let outcome = if fails(id) {
                        Err(DownloadError::Transfer("simulated".to_string()))
                    } else {
                        Ok(())
                    };
                    assert!(batch.complete_job(worker, outcome));
                    moved = true;
                },
                WorkerStep::Exit => {
                    if was != WorkerState::Exited {
                        moved = true;
                    }
                },
                WorkerStep::Wait => {},
            }
        }
        if !moved {
            return None;
        }
        steps += 1;
    }
}

#[test]
fn new_batch_is_idle() {
    let batch = DownloadBatch::new(&items(3), 2);
    assert_eq!(batch.serial_number(), 0);
    assert_eq!(DownloadBatch::numbered(&items(3), 2, 7).serial_number(), 7);
    assert_eq!(QUEUE_CAPACITY, 5);
    assert_eq!(batch.item_count(), 3);
    assert_eq!(batch.worker_count(), 2);
    assert!(!batch.is_finished());
    assert_eq!(batch.worker_state(0), WorkerState::Idle);
    assert_eq!(batch.worker_state(1), WorkerState::Idle);
    assert_eq!(batch.worker_state(2), WorkerState::Exited);
    for id in 1..=3 {
        assert_eq!(batch.progress_of(id), Some(Progress::zero()));
        assert!(!batch.is_done(id));
        assert!(!batch.has_failed(id));
    }
    assert_eq!(batch.progress_of(4), None);
}

#[test]
fn all_items_reach_one() {
    for (count, workers) in [(1u32, 1usize), (3, 2), (5, 5), (6, 1), (20, 3), (12, 12)] {
        let mut batch = DownloadBatch::new(&items(count), workers);
        assert!(run(&mut batch, &|_| false).is_some());
        assert!(batch.is_finished());
        for id in 1..=count {
            assert_eq!(batch.progress_of(id), Some(Progress::complete()), "item {}", id);
            assert!(batch.is_done(id));
            assert!(!batch.has_failed(id));
        }
        for worker in 0..workers {
            assert_eq!(batch.worker_state(worker), WorkerState::Exited);
        }
    }
}

#[test]
fn more_workers_than_items() {
    let mut batch = DownloadBatch::new(&items(2), 7);
    assert!(run(&mut batch, &|_| false).is_some());
    assert!(batch.is_finished());
    assert!(batch.is_done(1));
    assert!(batch.is_done(2));
}

#[test]
fn empty_batch_finishes() {
    let mut batch = DownloadBatch::new(&items(0), 3);
    assert!(run(&mut batch, &|_| false).is_some());
    assert!(batch.is_finished());
}

#[test]
fn failure_leaves_progress_and_goes_on() {
    let mut batch = DownloadBatch::new(&items(4), 1);
    let pushed = match batch.coordinator_step() {
        CoordinatorStep::Pushed(id) => id,
        other => panic!("nothing pushed: {:?}", other),
    };
    let first = match batch.worker_step(0) {
        WorkerStep::Job(id) => id,
        other => panic!("no job: {:?}", other),
    };
    assert_eq!(first, pushed);
    assert!(batch.report_progress(0, 30, 100));
    let before = batch.progress_of(first);
    assert_eq!(before.map(|p| (p.received(), p.total())), Some((30, 100)));
    assert!(batch.complete_job(0, Err(DownloadError::Write("disk full".to_string()))));
    assert_eq!(batch.progress_of(first), before);
    assert!(batch.has_failed(first));
    assert!(!batch.is_done(first));
    assert_eq!(batch.worker_state(0), WorkerState::Idle);

    assert!(run(&mut batch, &|_| false).is_some());
    assert!(batch.is_finished());
    assert_eq!(batch.progress_of(first), before);
    for id in 1..=4 {
        if id != first {
            assert_eq!(batch.progress_of(id), Some(Progress::complete()));
            assert!(batch.is_done(id));
        }
    }
}

#[test]
fn every_failure_still_finishes() {
    let mut batch = DownloadBatch::new(&items(9), 3);
    assert!(run(&mut batch, &|_| true).is_some());
    assert!(batch.is_finished());
    for id in 1..=9 {
        assert!(batch.has_failed(id));
        assert!(!batch.is_done(id));
        assert_eq!(
            batch.progress_of(id).map(|p| (p.received(), p.total())),
            Some((50, 100))
        );
    }
}

#[test]
fn some_failures_do_not_touch_the_rest() {
    let mut batch = DownloadBatch::new(&items(10), 2);
    assert!(run(&mut batch, &|id| id % 2 == 0).is_some());
    assert!(batch.is_finished());
    for id in 1..=10 {
        assert_eq!(batch.has_failed(id), id % 2 == 0);
        assert_eq!(batch.is_done(id), id % 2 == 1);
        assert_eq!(batch.progress_of(id).map(|p| p.finished()), Some(id % 2 == 1));
    }
}

#[test]
fn coordinator_blocks_on_a_full_queue() {
    let mut batch = DownloadBatch::new(&items(7), 1);
    for _ in 0..5 {
        assert!(matches!(batch.coordinator_step(), CoordinatorStep::Pushed(_)));
    }
    assert_eq!(batch.coordinator_step(), CoordinatorStep::Blocked);
    assert_eq!(batch.coordinator_step(), CoordinatorStep::Blocked);
    assert!(matches!(batch.worker_step(0), WorkerStep::Job(_)));
    assert!(matches!(batch.coordinator_step(), CoordinatorStep::Pushed(_)));
    assert_eq!(batch.coordinator_step(), CoordinatorStep::Blocked);
}

#[test]
fn jobs_come_out_in_the_order_they_went_in() {
    let mut batch = DownloadBatch::new(&items(5), 1);
    let mut pushed = Vec::new();
    for _ in 0..5 {
        match batch.coordinator_step() {
            CoordinatorStep::Pushed(id) => pushed.push(id),
            other => panic!("nothing pushed: {:?}", other),
        }
    }
    assert_eq!(batch.coordinator_step(), CoordinatorStep::Closed);
    let mut taken = Vec::new();
    loop {
        match batch.worker_step(0) {
            WorkerStep::Job(id) => {
                taken.push(id);
                assert!(batch.complete_job(0, Ok(())));
            },
            WorkerStep::Exit => break,
            WorkerStep::Wait => panic!("a closed queue lets nobody wait"),
        }
    }
    assert_eq!(taken, pushed);
    let mut sorted = taken.clone();
    sorted.sort();
    assert_eq!(sorted, vec![1, 2, 3, 4, 5]);
}

#[test]
fn finished_only_after_every_worker_exited() {
    let mut batch = DownloadBatch::new(&items(1), 2);
    assert!(matches!(batch.coordinator_step(), CoordinatorStep::Pushed(1)));
    assert_eq!(batch.coordinator_step(), CoordinatorStep::Closed);
    assert_eq!(batch.coordinator_step(), CoordinatorStep::Waiting);
    assert_eq!(batch.worker_step(0), WorkerStep::Job(1));
    assert_eq!(batch.worker_step(1), WorkerStep::Exit);
    assert_eq!(batch.coordinator_step(), CoordinatorStep::Waiting);
    assert!(!batch.is_finished());
    assert!(batch.complete_job(0, Ok(())));
    assert_eq!(batch.coordinator_step(), CoordinatorStep::Waiting);
    assert!(!batch.is_finished());
    assert_eq!(batch.worker_step(0), WorkerStep::Exit);
    assert_eq!(batch.coordinator_step(), CoordinatorStep::Finished);
    assert!(batch.is_finished());
    assert_eq!(batch.coordinator_step(), CoordinatorStep::Finished);
}

#[test]
fn worker_waits_while_the_queue_is_open() {
    let mut batch = DownloadBatch::new(&items(1), 1);
    assert_eq!(batch.worker_step(0), WorkerStep::Wait);
    assert_eq!(batch.worker_state(0), WorkerState::Idle);
    assert!(matches!(batch.coordinator_step(), CoordinatorStep::Pushed(1)));
    assert_eq!(batch.worker_step(0), WorkerStep::Job(1));
    assert_eq!(batch.worker_state(0), WorkerState::Busy(1));
    assert_eq!(batch.worker_step(0), WorkerStep::Job(1));
}

#[test]
fn only_the_busy_worker_writes_progress() {
    let mut batch = DownloadBatch::new(&items(2), 2);
    assert!(!batch.report_progress(0, 10, 100));
    assert!(!batch.complete_job(0, Ok(())));
    assert!(matches!(batch.coordinator_step(), CoordinatorStep::Pushed(_)));
    let id = match batch.worker_step(1) {
        WorkerStep::Job(id) => id,
        other => panic!("no job: {:?}", other),
    };
    assert!(!batch.report_progress(0, 10, 100));
    assert!(!batch.report_progress(5, 10, 100));
    assert_eq!(batch.progress_of(id), Some(Progress::zero()));
    assert!(batch.report_progress(1, 10, 100));
    assert_eq!(batch.progress_of(id), Some(Progress::after_chunk(10, 100)));
    assert!(batch.report_progress(1, 100, 100));
    assert!(!batch.report_progress(1, 20, 100));
    assert_eq!(batch.progress_of(id), Some(Progress::complete()));
    assert!(batch.complete_job(1, Ok(())));
    assert!(!batch.complete_job(1, Ok(())));
    assert!(!batch.complete_job(9, Ok(())));
}

#[test]
fn batch_without_workers_leaves_items_behind() {
    let mut small = DownloadBatch::new(&items(1), 0);
    assert!(run(&mut small, &|_| false).is_some());
    assert!(small.is_finished());
    assert!(!small.is_done(1));
    assert_eq!(small.progress_of(1), Some(Progress::zero()));

    let mut large = DownloadBatch::new(&items(6), 0);
    assert_eq!(run(&mut large, &|_| false), None);
    assert!(!large.is_finished());
}
