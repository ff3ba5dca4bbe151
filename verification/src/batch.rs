//! One download batch: a coordinator that feeds a bounded job queue, a fixed
//! pool of workers that drain it, per-item progress, and the detection of the
//! moment when everything is over.
//!
//! The batch is a state machine. Threads, the network and the disk are the
//! caller's: a coordinator thread keeps calling `coordinator_step`, each
//! worker thread keeps calling `worker_step`, downloads what it is given while
//! reporting with `report_progress`, and ends each job with `complete_job`.
//! Every call returns at once; a step that cannot be taken yet says so and
//! the caller tries again later.

use crate::error::DownloadError;
use crate::fetch::ids_to_vec;
use crate::progress::{Progress, ProgressStore};
use crate::queue::JobQueue;
use std::collections::HashSet;
use vstd::prelude::*;
use vstd::std_specs::hash::*;

verus! {

broadcast use vstd::std_specs::hash::group_hash_axioms;

/// Slots of the job queue of a batch.
pub const QUEUE_CAPACITY: usize = 5;

/// What a worker is doing.
#[derive(Debug, Clone, Copy, PartialEq, Eq, Structural)]
pub enum WorkerState {
    /// Between two jobs.
    Idle,
    /// Downloading this item.
    Busy(u32),
    /// Gone for good: the queue was closed and empty.
    Exited,
}

/// What the coordinator did in one step.
#[derive(Debug, Clone, Copy, PartialEq, Eq, Structural)]
pub enum CoordinatorStep {
    /// Put this item into the queue.
    Pushed(u32),
    /// The queue is full: nothing was done.
    Blocked,
    /// Every item was put into the queue before; the queue was closed now.
    Closed,
    /// The queue is closed and some worker has not exited: nothing was done.
    Waiting,
    /// Every worker has exited: the batch is finished.
    Finished,
}

/// What a worker is to do next.
#[derive(Debug, Clone, Copy, PartialEq, Eq, Structural)]
pub enum WorkerStep {
    /// Download this item, then report how it went.
    Job(u32),
    /// The queue is empty but still open: try again later.
    Wait,
    /// The queue is closed and empty: stop.
    Exit,
}

/// The state of one download batch.
pub struct DownloadBatch {
    items: Vec<u32>,
    pushed: usize,
    queue: JobQueue,
    workers: Vec<WorkerState>,
    progress: ProgressStore,
    done: HashSet<u32>,
    failed: HashSet<u32>,
    finished: bool,
    serial: u64,
}

/// The items that the workers of a pool are busy with.
pub open spec fn busy_items(workers: Seq<WorkerState>) -> Set<u32> {
    Set::new(
        |id: u32|
            exists|w: int| 0 <= w < workers.len() && #[trigger] workers[w] == WorkerState::Busy(id),
    )
}

/// The steps that a worker in this state has before it at the least: a busy
/// worker must end its job and exit, an idle one must exit.
pub open spec fn steps_ahead(state: WorkerState) -> nat {
    match state {
        WorkerState::Busy(_) => 2,
        WorkerState::Idle => 1,
        WorkerState::Exited => 0,
    }
}

/// The steps that the workers of a pool have before them at the least.
pub open spec fn pool_steps(workers: Seq<WorkerState>) -> nat
    decreases workers.len(),
{
    if workers.len() == 0 {
        0
    } else {
        pool_steps(workers.drop_last()) + steps_ahead(workers.last())
    }
}

/// Every worker of the pool has exited.
pub open spec fn all_exited(workers: Seq<WorkerState>) -> bool {
    forall|w: int| 0 <= w < workers.len() ==> #[trigger] workers[w] == WorkerState::Exited
}

impl DownloadBatch {
    /// The items of the batch, in the order in which they are queued.
    pub closed spec fn items(&self) -> Seq<u32> {
        self.items@
    }

    /// How many of the items the coordinator has put into the queue so far.
    pub closed spec fn pushed(&self) -> nat {
        self.pushed as nat
    }

    /// The items that wait in the queue, oldest first.
    pub closed spec fn queued(&self) -> Seq<u32> {
        self.queue.items()
    }

    /// Slots of the queue.
    pub closed spec fn capacity(&self) -> nat {
        self.queue.capacity()
    }

    /// The queue was closed: no more work will come.
    pub closed spec fn closed(&self) -> bool {
        self.queue.closed()
    }

    /// The workers and what each is doing.
    pub closed spec fn workers(&self) -> Seq<WorkerState> {
        self.workers@
    }

    /// The progress of every item.
    pub closed spec fn progress(&self) -> Map<u32, Progress> {
        self.progress@
    }

    /// The items whose download went through.
    pub closed spec fn done(&self) -> Set<u32> {
        self.done@
    }

    /// The items whose download was given up.
    pub closed spec fn failed(&self) -> Set<u32> {
        self.failed@
    }

    /// The batch is over.
    pub closed spec fn finished(&self) -> bool {
        self.finished
    }

    /// The number that the batch was given when it was set up.
    pub closed spec fn serial(&self) -> u64 {
        self.serial
    }

    /// The queue and the progress store are in order.
    pub closed spec fn parts_wf(&self) -> bool {
        &&& self.queue.wf()
        &&& self.progress.wf()
    }

    /// The items that the coordinator has put into the queue so far.
    pub open spec fn dispatched(&self) -> Set<u32> {
        self.items().subrange(0, self.pushed() as int).to_set()
    }

    /// The items that some worker is busy with.
    pub open spec fn busy(&self) -> Set<u32> {
        busy_items(self.workers())
    }

    /// A bound on the steps that are left before the batch is finished:
    /// every step that changes the batch makes it smaller.
    pub open spec fn work_left(&self) -> nat {
        (3 * (self.items().len() - self.pushed()) + 2 * self.queued().len() + pool_steps(
            self.workers(),
        ) + (if self.closed() {
            0nat
        } else {
            1nat
        }) + (if self.finished() {
            0nat
        } else {
            1nat
        })) as nat
    }

    /// The invariant of a batch.
    ///
    /// Every item that was dispatched is in exactly one place: waiting in the
    /// queue, with exactly one worker, done, or failed. Every item of the
    /// batch, and nothing else, has a progress entry, which is complete
    /// once the item is done. A worker exits, and the batch finishes, only
    /// when no work is left that could reach it.
    pub open spec fn wf(&self) -> bool {
        &&& self.parts_wf()
        &&& self.items().no_duplicates()
        &&& self.pushed() <= self.items().len()
        &&& (self.closed() ==> self.pushed() == self.items().len())
        &&& 0 < self.capacity()
        &&& self.queued().len() <= self.capacity()
        &&& self.queued().no_duplicates()
        &&& self.dispatched() == self.queued().to_set() + self.busy() + self.done() + self.failed()
        &&& self.queued().to_set().disjoint(self.busy())
        &&& self.queued().to_set().disjoint(self.done())
        &&& self.queued().to_set().disjoint(self.failed())
        &&& self.busy().disjoint(self.done())
        &&& self.busy().disjoint(self.failed())
        &&& self.done().disjoint(self.failed())
        &&& (forall|v: int, w: int|
            0 <= v < self.workers().len() && 0 <= w < self.workers().len() && v != w
                && #[trigger] self.workers()[v] == #[trigger] self.workers()[w]
                ==> !(self.workers()[v] is Busy))
        &&& self.progress().dom() == self.items().to_set()
        &&& (forall|id: u32| self.progress().contains_key(id) ==> (#[trigger] self.progress()[id]).wf())
        &&& (forall|id: u32| #[trigger] self.done().contains(id) ==> self.progress()[id].is_complete())
        &&& (forall|w: int|
            0 <= w < self.workers().len() && #[trigger] self.workers()[w] == WorkerState::Exited
                ==> self.closed() && self.queued().len() == 0)
        &&& (self.finished() ==> self.closed() && all_exited(self.workers()))
    }

    /// Sets up a batch over `items` with `worker_count` workers and the
    /// number `serial`: nothing is queued yet, every worker is idle, every
    /// item has progress zero.
    pub fn numbered(items: &HashSet<u32>, worker_count: usize, serial: u64) -> (batch:
        DownloadBatch)
        ensures
            batch.wf(),
            batch.serial() == serial,
            batch.items().to_set() == items@,
            batch.pushed() == 0,
            batch.queued() == Seq::<u32>::empty(),
            batch.capacity() == QUEUE_CAPACITY,
            !batch.closed(),
            batch.workers() == Seq::new(worker_count as nat, |w: int| WorkerState::Idle),
            batch.done() == Set::<u32>::empty(),
            batch.failed() == Set::<u32>::empty(),
            !batch.finished(),
            forall|id: u32| items@.contains(id) ==> #[trigger] batch.progress()[id]
                == Progress::spec_zero(),
    {
        let list = ids_to_vec(items);
        let mut workers: Vec<WorkerState> = Vec::new();
        let mut w: usize = 0;
        while w < worker_count
            invariant
                w <= worker_count,
                workers@ == Seq::new(w as nat, |k: int| WorkerState::Idle),
            decreases worker_count - w,
        {
            workers.push(WorkerState::Idle);
            w = w + 1;
            assert(workers@ =~= Seq::new(w as nat, |k: int| WorkerState::Idle));
        }
        let mut progress = ProgressStore::new();
        progress.reset(&list);
        let batch = DownloadBatch {
            items: list,
            pushed: 0,
            queue: JobQueue::new(QUEUE_CAPACITY),
            workers,
            progress,
            done: HashSet::new(),
            failed: HashSet::new(),
            finished: false,
            serial,
        };
        proof {
            assert(batch.items().subrange(0, 0) =~= Seq::<u32>::empty());
            assert(batch.dispatched() =~= Set::<u32>::empty());
            assert(batch.busy() =~= Set::<u32>::empty());
            assert(batch.queued().to_set() =~= Set::<u32>::empty());
            assert(batch.dispatched() =~= batch.queued().to_set() + batch.busy() + batch.done()
                + batch.failed());
        }
        batch
    }

    /// Sets up a batch with the number zero, as `numbered` does.
    pub fn new(items: &HashSet<u32>, worker_count: usize) -> (batch: DownloadBatch)
        ensures
            batch.wf(),
            batch.serial() == 0,
            batch.items().to_set() == items@,
            batch.pushed() == 0,
            batch.queued() == Seq::<u32>::empty(),
            batch.capacity() == QUEUE_CAPACITY,
            !batch.closed(),
            batch.workers() == Seq::new(worker_count as nat, |w: int| WorkerState::Idle),
            batch.done() == Set::<u32>::empty(),
            batch.failed() == Set::<u32>::empty(),
            !batch.finished(),
            forall|id: u32| items@.contains(id) ==> #[trigger] batch.progress()[id]
                == Progress::spec_zero(),
    {
        Self::numbered(items, worker_count, 0)
    }

    /// The number that the batch was given when it was set up.
    pub fn serial_number(&self) -> (serial: u64)
        ensures
            serial == self.serial(),
    {
        self.serial
    }

    /// Tells whether the batch is over.
    pub fn is_finished(&self) -> (finished: bool)
        ensures
            finished == self.finished(),
    {
        self.finished
    }

    /// Number of workers of the batch, exited or not.
    pub fn worker_count(&self) -> (count: usize)
        ensures
            count == self.workers().len(),
    {
        self.workers.len()
    }

    /// Number of items of the batch.
    pub fn item_count(&self) -> (count: usize)
        ensures
            count == self.items().len(),
    {
        self.items.len()
    }

    /// What worker `worker` is doing; a worker that the batch does not have
    /// counts as exited.
    pub fn worker_state(&self, worker: usize) -> (state: WorkerState)
        ensures
            state == (if worker < self.workers().len() {
                self.workers()[worker as int]
            } else {
                WorkerState::Exited
            }),
    {
        if worker < self.workers.len() {
            self.workers[worker]
        } else {
            WorkerState::Exited
        }
    }

    /// The progress of `id`, if it is an item of the batch.
    pub fn progress_of(&self, id: u32) -> (p: Option<Progress>)
        ensures
            p == (if self.progress().contains_key(id) {
                Some(self.progress()[id])
            } else {
                None
            }),
    {
        self.progress.get(id)
    }

    /// Tells whether the download of `id` was given up.
    pub fn has_failed(&self, id: u32) -> (failed: bool)
        ensures
            failed == self.failed().contains(id),
    {
        self.failed.contains(&id)
    }

    /// Tells whether the download of `id` went through.
    pub fn is_done(&self, id: u32) -> (done: bool)
        ensures
            done == self.done().contains(id),
    {
        self.done.contains(&id)
    }

    fn every_worker_exited(&self) -> (all: bool)
        ensures
            all == all_exited(self.workers()),
    {
        let mut w: usize = 0;
        while w < self.workers.len()
            invariant
                w <= self.workers@.len(),
                forall|k: int| 0 <= k < w ==> #[trigger] self.workers@[k] == WorkerState::Exited,
            decreases self.workers@.len() - w,
        {
            match self.workers[w] {
                WorkerState::Exited => {},
                _ => {
                    return false;
                },
            }
            w = w + 1;
        }
        true
    }

    /// One step of the coordinator.
    ///
    /// While items are left, the next one goes into the queue, unless the
    /// queue is full. After the last item the queue is closed. Then the
    /// coordinator waits until every worker has exited, and marks the batch
    /// finished.
    pub fn coordinator_step(&mut self) -> (step: CoordinatorStep)
        requires
            old(self).wf(),
        ensures
            final(self).wf(),
            final(self).items() == old(self).items(),
            final(self).workers() == old(self).workers(),
            final(self).progress() == old(self).progress(),
            final(self).done() == old(self).done(),
            final(self).failed() == old(self).failed(),
            final(self).capacity() == old(self).capacity(),
            final(self).serial() == old(self).serial(),
            step == old(self).coordinator_move(),
            final(self).work_left() == (if step is Blocked || step is Waiting || old(
                self,
            ).finished() {
                old(self).work_left()
            } else {
                (old(self).work_left() - 1) as nat
            }),
            match step {
                CoordinatorStep::Pushed(id) => {
                    &&& id == old(self).items()[old(self).pushed() as int]
                    &&& final(self).pushed() == old(self).pushed() + 1
                    &&& final(self).queued() == old(self).queued().push(id)
                    &&& !final(self).closed()
                    &&& !final(self).finished()
                },
                CoordinatorStep::Closed => {
                    &&& final(self).pushed() == old(self).pushed()
                    &&& final(self).queued() == old(self).queued()
                    &&& final(self).closed()
                    &&& !final(self).finished()
                },
                CoordinatorStep::Finished => {
                    &&& final(self).pushed() == old(self).pushed()
                    &&& final(self).queued() == old(self).queued()
                    &&& final(self).closed()
                    &&& final(self).finished()
                },
                _ => {
                    &&& final(self).pushed() == old(self).pushed()
                    &&& final(self).queued() == old(self).queued()
                    &&& final(self).closed() == old(self).closed()
                    &&& final(self).finished() == old(self).finished()
                },
            },
    {
        if self.finished {
            return CoordinatorStep::Finished;
        }
        if !self.queue.is_closed() {
            if self.pushed < self.items.len() {
                let id = self.items[self.pushed];
                let ghost before = self.items@.subrange(0, self.pushed as int);
                let ghost after = self.items@.subrange(0, self.pushed + 1);
                if self.queue.try_push(id) {
                    self.pushed = self.pushed + 1;
                    proof {
                        assert(after =~= before.push(id));
                        assert(!before.contains(id)) by {
                            if before.contains(id) {
                                let k = choose|k: int| 0 <= k < before.len() && before[k] == id;
                                assert(self.items@[k] == id);
                            }
                        }
                        assert(!old(self).dispatched().contains(id));
                        assert(!old(self).queued().to_set().contains(id));
                        assert(!old(self).queued().contains(id));
                        lemma_push_to_set(before, id);
                        lemma_push_to_set(old(self).queued(), id);
                        assert(self.dispatched() =~= self.queued().to_set() + self.busy()
                            + self.done() + self.failed());
                    }
                    CoordinatorStep::Pushed(id)
                } else {
                    CoordinatorStep::Blocked
                }
            } else {
                self.queue.close();
                CoordinatorStep::Closed
            }
        } else if self.every_worker_exited() {
            self.finished = true;
            CoordinatorStep::Finished
        } else {
            CoordinatorStep::Waiting
        }
    }

    /// What worker `worker` is told in its next step.
    pub open spec fn worker_move(&self, worker: int) -> WorkerStep {
        if worker < 0 || worker >= self.workers().len() {
            WorkerStep::Exit
        } else {
            match self.workers()[worker] {
                WorkerState::Busy(id) => WorkerStep::Job(id),
                WorkerState::Exited => WorkerStep::Exit,
                WorkerState::Idle => if self.queued().len() > 0 {
                    WorkerStep::Job(self.queued()[0])
                } else if self.closed() {
                    WorkerStep::Exit
                } else {
                    WorkerStep::Wait
                },
            }
        }
    }

    /// One step of worker `worker`.
    ///
    /// An idle worker takes the oldest item out of the queue and is busy with
    /// it from then on. With the queue empty it waits while the queue is
    /// open, and exits once the queue is closed. A busy worker is told its
    /// item again; an exited one, or one that the batch does not have, is
    /// told to exit.
    pub fn worker_step(&mut self, worker: usize) -> (step: WorkerStep)
        requires
            old(self).wf(),
        ensures
            final(self).wf(),
            step == old(self).worker_move(worker as int),
            final(self).serial() == old(self).serial(),
            final(self).items() == old(self).items(),
            final(self).pushed() == old(self).pushed(),
            final(self).capacity() == old(self).capacity(),
            final(self).closed() == old(self).closed(),
            final(self).progress() == old(self).progress(),
            final(self).done() == old(self).done(),
            final(self).failed() == old(self).failed(),
            final(self).finished() == old(self).finished(),
            final(self).workers().len() == old(self).workers().len(),
            final(self).work_left() == (if old(self).worker_state_of(worker as int) == WorkerState::Idle
                && !(step is Wait) {
                (old(self).work_left() - 1) as nat
            } else {
                old(self).work_left()
            }),
            worker < old(self).workers().len() && old(self).workers()[worker as int]
                == WorkerState::Idle ==> {
                &&& final(self).queued() == (if old(self).queued().len() > 0 {
                    old(self).queued().drop_first()
                } else {
                    old(self).queued()
                })
                &&& final(self).workers() == old(self).workers().update(
                    worker as int,
                    match step {
                        WorkerStep::Job(id) => WorkerState::Busy(id),
                        WorkerStep::Wait => WorkerState::Idle,
                        WorkerStep::Exit => WorkerState::Exited,
                    },
                )
            },
            !(worker < old(self).workers().len() && old(self).workers()[worker as int]
                == WorkerState::Idle) ==> {
                &&& final(self).queued() == old(self).queued()
                &&& final(self).workers() == old(self).workers()
            },
    {
        if worker >= self.workers.len() {
            return WorkerStep::Exit;
        }
        match self.workers[worker] {
            WorkerState::Busy(id) => WorkerStep::Job(id),
            WorkerState::Exited => WorkerStep::Exit,
            WorkerState::Idle => {
                match self.queue.try_pop() {
                    Some(id) => {
                        self.workers.set(worker, WorkerState::Busy(id));
                        proof {
                            let q = old(self).queued();
                            lemma_drop_first_to_set(q);
                            lemma_pool_steps_update(
                                old(self).workers(),
                                worker as int,
                                WorkerState::Busy(id),
                            );
                            assert(!old(self).busy().contains(id));
                            lemma_busy_after_take(old(self).workers(), worker as int, id);
                            assert(self.dispatched() =~= self.queued().to_set() + self.busy()
                                + self.done() + self.failed());
                            assert forall|v: int, w: int|
                                0 <= v < self.workers().len() && 0 <= w < self.workers().len()
                                    && v != w && #[trigger] self.workers()[v]
                                    == #[trigger] self.workers()[w] implies !(self.workers()[v]
                                is Busy) by {
                                if v == worker as int {
                                    assert(old(self).workers()[w] == WorkerState::Busy(id));
                                    assert(old(self).busy().contains(id));
                                } else if w == worker as int {
                                    assert(old(self).workers()[v] == WorkerState::Busy(id));
                                    assert(old(self).busy().contains(id));
                                } else {
                                    assert(old(self).workers()[v] == old(self).workers()[w]);
                                }
                            }
                            assert forall|w: int|
                                0 <= w < self.workers().len() && #[trigger] self.workers()[w]
                                    == WorkerState::Exited implies self.closed()
                                && self.queued().len() == 0 by {
                                assert(old(self).workers()[w] == WorkerState::Exited);
                            }
                            assert(!all_exited(self.workers())) by {
                                assert(self.workers()[worker as int] == WorkerState::Busy(id));
                            }
                            assert(!old(self).finished()) by {
                                if old(self).finished() {
                                    assert(old(self).workers()[worker as int]
                                        == WorkerState::Exited);
                                }
                            }
                        }
                        WorkerStep::Job(id)
                    },
                    None => {
                        if self.queue.is_closed() {
                            self.workers.set(worker, WorkerState::Exited);
                            proof {
                                lemma_busy_unchanged(
                                    old(self).workers(),
                                    worker as int,
                                    WorkerState::Exited,
                                );
                                lemma_pool_steps_update(
                                    old(self).workers(),
                                    worker as int,
                                    WorkerState::Exited,
                                );
                                assert forall|v: int, w: int|
                                    0 <= v < self.workers().len() && 0 <= w < self.workers().len()
                                        && v != w && #[trigger] self.workers()[v]
                                        == #[trigger] self.workers()[w] implies !(
                                self.workers()[v] is Busy) by {
                                    if v != worker as int && w != worker as int {
                                        assert(old(self).workers()[v] == old(self).workers()[w]);
                                    }
                                }
                                assert forall|w: int|
                                    0 <= w < self.workers().len() && #[trigger] self.workers()[w]
                                        == WorkerState::Exited implies self.closed()
                                    && self.queued().len() == 0 by {
                                    if w != worker as int {
                                        assert(old(self).workers()[w] == WorkerState::Exited);
                                    }
                                }
                                assert(!old(self).finished()) by {
                                    if old(self).finished() {
                                        assert(old(self).workers()[worker as int]
                                            == WorkerState::Exited);
                                    }
                                }
                            }
                            WorkerStep::Exit
                        } else {
                            assert(self.workers() =~= old(self).workers().update(
                                worker as int,
                                WorkerState::Idle,
                            ));
                            WorkerStep::Wait
                        }
                    },
                }
            },
        }
    }

    /// `next` is this batch after worker `worker` reported `downloaded` bytes
    /// of a body announced as `total_size` bytes, and `written` tells whether
    /// that changed an entry: nothing changes but the progress of the item
    /// that the worker is busy with, and that only while it is not complete.
    pub open spec fn reported(
        &self,
        worker: int,
        downloaded: u64,
        total_size: u64,
        next: &DownloadBatch,
        written: bool,
    ) -> bool {
        &&& next.items() == self.items()
        &&& next.pushed() == self.pushed()
        &&& next.queued() == self.queued()
        &&& next.capacity() == self.capacity()
        &&& next.closed() == self.closed()
        &&& next.workers() == self.workers()
        &&& next.done() == self.done()
        &&& next.failed() == self.failed()
        &&& next.finished() == self.finished()
        &&& next.serial() == self.serial()
        &&& next.work_left() == self.work_left()
        &&& match self.worker_state_of(worker) {
            WorkerState::Busy(id) => {
                &&& written == !self.progress()[id].is_complete()
                &&& next.progress() == ProgressStore::recorded(
                    self.progress(),
                    id,
                    Progress::spec_after(downloaded, total_size),
                )
            },
            _ => !written && next.progress() == self.progress(),
        }
    }

    /// `next` is this batch after the job of worker `worker` ended with
    /// `outcome`, and `ended` tells whether the worker had a job: the worker
    /// is idle; after success the item is done and its progress is one;
    /// after a failure the item is failed and its progress is what it was.
    pub open spec fn completed(
        &self,
        worker: int,
        outcome: Result<(), DownloadError>,
        next: &DownloadBatch,
        ended: bool,
    ) -> bool {
        &&& next.items() == self.items()
        &&& next.pushed() == self.pushed()
        &&& next.queued() == self.queued()
        &&& next.capacity() == self.capacity()
        &&& next.closed() == self.closed()
        &&& next.finished() == self.finished()
        &&& next.serial() == self.serial()
        &&& next.work_left() == (if ended {
            (self.work_left() - 1) as nat
        } else {
            self.work_left()
        })
        &&& match self.worker_state_of(worker) {
            WorkerState::Busy(id) => {
                &&& ended
                &&& next.workers() == self.workers().update(worker, WorkerState::Idle)
                &&& match outcome {
                    Ok(_) => {
                        &&& next.done() == self.done().insert(id)
                        &&& next.failed() == self.failed()
                        &&& next.progress() == ProgressStore::recorded(
                            self.progress(),
                            id,
                            Progress::spec_complete(),
                        )
                        &&& next.progress()[id].is_complete()
                    },
                    Err(_) => {
                        &&& next.done() == self.done()
                        &&& next.failed() == self.failed().insert(id)
                        &&& next.progress() == self.progress()
                    },
                }
            },
            _ => {
                &&& !ended
                &&& next.workers() == self.workers()
                &&& next.done() == self.done()
                &&& next.failed() == self.failed()
                &&& next.progress() == self.progress()
            },
        }
    }

    /// Records how far the download of worker `worker` has come:
    /// `downloaded` bytes of a body announced as `total_size` bytes (zero
    /// where no size was announced). Tells whether the entry was written.
    ///
    /// Only the entry of the item that the worker is busy with is written,
    /// and only while it is not complete.
    pub fn report_progress(&mut self, worker: usize, downloaded: u64, total_size: u64) -> (written:
        bool)
        requires
            old(self).wf(),
        ensures
            final(self).wf(),
            old(self).reported(worker as int, downloaded, total_size, final(self), written),
    {
        if worker >= self.workers.len() {
            return false;
        }
        match self.workers[worker] {
            WorkerState::Busy(id) => {
                proof {
                    old(self).lemma_busy_is_item(id);
                }
                let p = Progress::after_chunk(downloaded, total_size);
                let written = self.progress.record(id, p);
                proof {
                    assert forall|x: u32| #[trigger]
                        self.done().contains(x) implies self.progress()[x].is_complete() by {
                        assert(old(self).progress()[x].is_complete());
                        if x == id {
                            assert(old(self).busy().contains(id));
                        }
                    }
                }
                written
            },
            _ => false,
        }
    }

    /// What worker `worker` is doing; a worker that the batch does not have
    /// counts as exited.
    pub open spec fn worker_state_of(&self, worker: int) -> WorkerState {
        if 0 <= worker < self.workers().len() {
            self.workers()[worker]
        } else {
            WorkerState::Exited
        }
    }

    /// Ends the job of worker `worker` and tells whether there was one.
    ///
    /// After a download that went through, the item is done and its progress
    /// is one. After a download that failed, the item counts as failed and
    /// its progress stays what it was. Either way the worker is idle again
    /// and takes the next job with its next step.
    pub fn complete_job(&mut self, worker: usize, outcome: Result<(), DownloadError>) -> (ended:
        bool)
        requires
            old(self).wf(),
        ensures
            final(self).wf(),
            old(self).completed(worker as int, outcome, final(self), ended),
    {
        if worker >= self.workers.len() {
            return false;
        }
        match self.workers[worker] {
            WorkerState::Busy(id) => {
                proof {
                    old(self).lemma_busy_is_item(id);
                    assert(old(self).busy().contains(id));
                }
                match outcome {
                    Ok(_) => {
                        self.progress.record(id, Progress::complete());
                        self.done.insert(id);
                    },
                    Err(_) => {
                        self.failed.insert(id);
                    },
                }
                self.workers.set(worker, WorkerState::Idle);
                proof {
                    lemma_busy_after_release(old(self).workers(), worker as int, id);
                    lemma_pool_steps_update(old(self).workers(), worker as int, WorkerState::Idle);
                    assert(self.dispatched() =~= self.queued().to_set() + self.busy() + self.done()
                        + self.failed());
                    assert forall|v: int, w: int|
                        0 <= v < self.workers().len() && 0 <= w < self.workers().len() && v != w
                            && #[trigger] self.workers()[v] == #[trigger] self.workers()[w]
                        implies !(self.workers()[v] is Busy) by {
                        if v != worker as int && w != worker as int {
                            assert(old(self).workers()[v] == old(self).workers()[w]);
                        }
                    }
                    assert forall|w: int|
                        0 <= w < self.workers().len() && #[trigger] self.workers()[w]
                            == WorkerState::Exited implies self.closed() && self.queued().len()
                        == 0 by {
                        assert(old(self).workers()[w] == WorkerState::Exited);
                    }
                    assert forall|x: u32| #[trigger]
                        self.done().contains(x) implies self.progress()[x].is_complete() by {
                        if x != id {
                            assert(old(self).done().contains(x));
                            assert(old(self).progress()[x].is_complete());
                        }
                    }
                    assert(!old(self).finished()) by {
                        if old(self).finished() {
                            assert(old(self).workers()[worker as int] == WorkerState::Exited);
                        }
                    }
                }
                true
            },
            _ => false,
        }
    }

    /// What a worker is busy with is an item of the batch and has a
    /// progress entry.
    pub proof fn lemma_busy_is_item(&self, id: u32)
        requires
            self.wf(),
            self.busy().contains(id),
        ensures
            self.items().to_set().contains(id),
            self.progress().contains_key(id),
    {
        assert(self.dispatched().contains(id));
        let prefix = self.items().subrange(0, self.pushed() as int);
        let k = choose|k: int| 0 <= k < prefix.len() && prefix[k] == id;
        assert(self.items()[k] == id);
    }

    /// What the coordinator does in its next step.
    pub open spec fn coordinator_move(&self) -> CoordinatorStep {
        if self.finished() {
            CoordinatorStep::Finished
        } else if !self.closed() {
            if self.pushed() < self.items().len() {
                if self.queued().len() < self.capacity() {
                    CoordinatorStep::Pushed(self.items()[self.pushed() as int])
                } else {
                    CoordinatorStep::Blocked
                }
            } else {
                CoordinatorStep::Closed
            }
        } else if all_exited(self.workers()) {
            CoordinatorStep::Finished
        } else {
            CoordinatorStep::Waiting
        }
    }
}

/// The members of a sequence with one more element at its end.
proof fn lemma_push_to_set(s: Seq<u32>, id: u32)
    ensures
        s.push(id).to_set() == s.to_set().insert(id),
        s.no_duplicates() && !s.contains(id) ==> s.push(id).no_duplicates(),
{
    let t = s.push(id);
    assert forall|x: u32| t.to_set().contains(x) <==> s.to_set().insert(id).contains(x) by {
        if t.to_set().contains(x) {
            let k = choose|k: int| 0 <= k < t.len() && t[k] == x;
            if k < s.len() {
                assert(s[k] == x);
            }
        }
        if s.to_set().contains(x) {
            let k = choose|k: int| 0 <= k < s.len() && s[k] == x;
            assert(t[k] == x);
        }
        if x == id {
            assert(t[s.len() as int] == x);
        }
    }
    assert(t.to_set() =~= s.to_set().insert(id));
}

/// The members of a sequence without duplicates that lost its first element.
proof fn lemma_drop_first_to_set(s: Seq<u32>)
    requires
        s.len() > 0,
        s.no_duplicates(),
    ensures
        s.drop_first().to_set() == s.to_set().remove(s[0]),
        s.drop_first().no_duplicates(),
{
    let t = s.drop_first();
    assert forall|x: u32| t.to_set().contains(x) <==> s.to_set().remove(s[0]).contains(x) by {
        if t.to_set().contains(x) {
            let k = choose|k: int| 0 <= k < t.len() && t[k] == x;
            assert(s[k + 1] == x);
        }
        if s.to_set().remove(s[0]).contains(x) {
            let k = choose|k: int| 0 <= k < s.len() && s[k] == x;
            assert(k != 0);
            assert(t[k - 1] == x);
        }
    }
    assert(t.to_set() =~= s.to_set().remove(s[0]));
    assert forall|i: int, j: int| 0 <= i < t.len() && 0 <= j < t.len() && i != j implies t[i]
        != t[j] by {
        assert(s[i + 1] != s[j + 1]);
    }
}

/// A worker that was not busy takes an item: the pool is busy with that
/// item more.
proof fn lemma_busy_after_take(workers: Seq<WorkerState>, at: int, id: u32)
    requires
        0 <= at < workers.len(),
        !(workers[at] is Busy),
    ensures
        busy_items(workers.update(at, WorkerState::Busy(id))) == busy_items(workers).insert(id),
{
    let after = workers.update(at, WorkerState::Busy(id));
    assert forall|x: u32| busy_items(after).contains(x) <==> busy_items(workers).insert(
        id,
    ).contains(x) by {
        if busy_items(after).contains(x) {
            let w = choose|w: int|
                0 <= w < after.len() && #[trigger] after[w] == WorkerState::Busy(x);
            if w != at {
                assert(workers[w] == WorkerState::Busy(x));
            }
        }
        if busy_items(workers).contains(x) {
            let w = choose|w: int|
                0 <= w < workers.len() && #[trigger] workers[w] == WorkerState::Busy(x);
            assert(after[w] == WorkerState::Busy(x));
        }
        if x == id {
            assert(after[at] == WorkerState::Busy(x));
        }
    }
    assert(busy_items(after) =~= busy_items(workers).insert(id));
}

/// A worker that was not busy changes to another state than busy: the pool
/// is busy with what it was busy with.
proof fn lemma_busy_unchanged(workers: Seq<WorkerState>, at: int, state: WorkerState)
    requires
        0 <= at < workers.len(),
        !(workers[at] is Busy),
        !(state is Busy),
    ensures
        busy_items(workers.update(at, state)) == busy_items(workers),
{
    let after = workers.update(at, state);
    assert forall|x: u32| busy_items(after).contains(x) <==> busy_items(workers).contains(x) by {
        if busy_items(after).contains(x) {
            let w = choose|w: int|
                0 <= w < after.len() && #[trigger] after[w] == WorkerState::Busy(x);
            assert(workers[w] == WorkerState::Busy(x));
        }
        if busy_items(workers).contains(x) {
            let w = choose|w: int|
                0 <= w < workers.len() && #[trigger] workers[w] == WorkerState::Busy(x);
            assert(after[w] == WorkerState::Busy(x));
        }
    }
    assert(busy_items(after) =~= busy_items(workers));
}

/// The one worker that is busy with an item lets go of it: the pool is busy
/// with that item less.
proof fn lemma_busy_after_release(workers: Seq<WorkerState>, at: int, id: u32)
    requires
        0 <= at < workers.len(),
        workers[at] == WorkerState::Busy(id),
        forall|v: int, w: int|
            0 <= v < workers.len() && 0 <= w < workers.len() && v != w && #[trigger] workers[v]
                == #[trigger] workers[w] ==> !(workers[v] is Busy),
    ensures
        busy_items(workers.update(at, WorkerState::Idle)) == busy_items(workers).remove(id),
{
    let after = workers.update(at, WorkerState::Idle);
    assert forall|x: u32| busy_items(after).contains(x) <==> busy_items(workers).remove(
        id,
    ).contains(x) by {
        if busy_items(after).contains(x) {
            let w = choose|w: int|
                0 <= w < after.len() && #[trigger] after[w] == WorkerState::Busy(x);
            assert(workers[w] == WorkerState::Busy(x));
            if x == id {
                assert(workers[w] == workers[at]);
            }
        }
        if busy_items(workers).remove(id).contains(x) {
            let w = choose|w: int|
                0 <= w < workers.len() && #[trigger] workers[w] == WorkerState::Busy(x);
            assert(after[w] == WorkerState::Busy(x));
        }
    }
    assert(busy_items(after) =~= busy_items(workers).remove(id));
}

/// A change of one worker's state changes the steps that the pool has
/// before it by the difference between the two states.
proof fn lemma_pool_steps_update(workers: Seq<WorkerState>, at: int, state: WorkerState)
    requires
        0 <= at < workers.len(),
    ensures
        pool_steps(workers.update(at, state)) == pool_steps(workers) - steps_ahead(workers[at])
            + steps_ahead(state),
    decreases workers.len(),
{
    let after = workers.update(at, state);
    if at == workers.len() - 1 {
        assert(after.drop_last() =~= workers.drop_last());
    } else {
        assert(after.drop_last() =~= workers.drop_last().update(at, state));
        lemma_pool_steps_update(workers.drop_last(), at, state);
    }
}

/// A pool whose workers have all exited has no step before it.
proof fn lemma_pool_steps_exited(workers: Seq<WorkerState>)
    requires
        all_exited(workers),
    ensures
        pool_steps(workers) == 0,
    decreases workers.len(),
{
    if workers.len() > 0 {
        assert(workers.last() == workers[workers.len() - 1]);
        assert forall|w: int| 0 <= w < workers.drop_last().len() implies #[trigger]
            workers.drop_last()[w] == WorkerState::Exited by {
            assert(workers[w] == WorkerState::Exited);
        }
        lemma_pool_steps_exited(workers.drop_last());
    }
}

/// A finished batch has nothing left to do: every worker has exited, the
/// queue is closed and empty, and every item is done or failed. Where none
/// has failed, the progress of every item is one.
pub proof fn law_finished_batch_is_settled(batch: DownloadBatch)
    requires
        batch.wf(),
        batch.finished(),
        batch.workers().len() >= 1,
    ensures
        all_exited(batch.workers()),
        batch.closed(),
        batch.queued().len() == 0,
        batch.busy() == Set::<u32>::empty(),
        batch.pushed() == batch.items().len(),
        batch.done() + batch.failed() == batch.items().to_set(),
        batch.failed() == Set::<u32>::empty() ==> forall|id: u32|
            batch.items().contains(id) ==> (#[trigger] batch.progress()[id]).is_complete(),
        batch.work_left() == 0,
{
    let workers = batch.workers();
    assert(workers[0] == WorkerState::Exited);
    assert(batch.busy() =~= Set::<u32>::empty()) by {
        assert forall|id: u32| !batch.busy().contains(id) by {
            if batch.busy().contains(id) {
                let w = choose|w: int|
                    0 <= w < workers.len() && #[trigger] workers[w] == WorkerState::Busy(id);
                assert(workers[w] == WorkerState::Exited);
            }
        }
    }
    assert(batch.items().subrange(0, batch.pushed() as int) =~= batch.items());
    assert(batch.queued().to_set() =~= Set::<u32>::empty());
    assert(batch.done() + batch.failed() =~= batch.items().to_set());
    lemma_pool_steps_exited(workers);
    if batch.failed() == Set::<u32>::empty() {
        assert forall|id: u32| batch.items().contains(id) implies (
        #[trigger] batch.progress()[id]).is_complete() by {
            assert(batch.items().to_set().contains(id));
            assert((batch.done() + batch.failed()).contains(id));
            assert(batch.done().contains(id));
        }
    }
}

/// A batch with at least one worker never gets stuck: while it is not
/// finished, some worker is busy with a download, or the coordinator can
/// take a step that changes the batch, or some idle worker can.
pub proof fn law_some_step_possible(batch: DownloadBatch)
    requires
        batch.wf(),
        !batch.finished(),
        batch.workers().len() >= 1,
    ensures
        ({
            ||| exists|w: int| 0 <= w < batch.workers().len() && #[trigger] batch.workers()[w] is Busy
            ||| !(batch.coordinator_move() is Blocked || batch.coordinator_move() is Waiting)
            ||| exists|w: int|
                0 <= w < batch.workers().len() && batch.workers()[w] == WorkerState::Idle && !(
                #[trigger] batch.worker_move(w) is Wait)
        }),
{
    let workers = batch.workers();
    let no_busy = forall|w: int| 0 <= w < workers.len() ==> !(#[trigger] workers[w] is Busy);
    if no_busy {
        if batch.coordinator_move() is Blocked {
            assert(batch.queued().len() > 0);
            assert(workers[0] == WorkerState::Idle) by {
                assert(!(workers[0] is Busy));
                if workers[0] == WorkerState::Exited {
                    assert(batch.closed());
                }
            }
            assert(!(batch.worker_move(0) is Wait));
        } else if batch.coordinator_move() is Waiting {
            let w = choose|w: int| 0 <= w < workers.len() && !(#[trigger] workers[w]
                == WorkerState::Exited);
            assert(!(workers[w] is Busy));
            assert(workers[w] == WorkerState::Idle);
            assert(!(batch.worker_move(w) is Wait));
        }
    }
}

/// The bound on the steps that are left is zero exactly when the batch is
/// finished, given that the batch has a worker.
pub proof fn law_no_work_left_means_finished(batch: DownloadBatch)
    requires
        batch.wf(),
        batch.workers().len() >= 1,
    ensures
        batch.work_left() == 0 <==> batch.finished(),
{
    if batch.finished() {
        law_finished_batch_is_settled(batch);
    }
}

} // verus!
