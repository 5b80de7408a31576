//! Model of the bounded job worker pool: a fixed set of workers consuming
//! from one shared bounded queue.  The driver outside this crate gives each
//! worker a task that loops: take a job, run it to completion, report the
//! result to the job's caller, take the next.  The state transitions that
//! the driver is allowed to make are the verified operations here: a
//! submission to a full queue is refused and handed back — the submitter
//! suspends and retries rather than dropping the job or growing the queue.

use vstd::prelude::*;
use vstd::pervasive::VecAdditionalExecFns;
use std::collections::VecDeque;

verus! {

/// Number of workers of the download pipeline's pool.
pub const NUM_DOWNLOAD_WORKERS: usize = 5;

/// Number of workers of the search pipeline's pool.
pub const NUM_SEARCH_WORKERS: usize = 10;

/// Shared job-queue bound of either pool.
pub const JOB_QUEUE_CAPACITY: usize = 100;

/// Mathematical state of a pool: the submitted-but-untaken jobs in arrival
/// order, the queue bound, and what each worker currently holds.
pub ghost struct WorkerPoolView<T> {
    pub pending: Seq<T>,
    pub capacity: nat,
    pub slots: Seq<Option<T>>,
}

/// A fixed-size worker pool over one shared bounded job queue.  A job
/// value moves from the queue into exactly one worker's slot and out again
/// when finished, so no two workers ever process the same job.
pub struct WorkerPool<T> {
    pending: VecDeque<T>,
    capacity: usize,
    slots: Vec<Option<T>>,
}

pub open spec fn spec_try_submit<T>(v: WorkerPoolView<T>, job: T) -> (WorkerPoolView<T>, bool) {
    if v.pending.len() < v.capacity {
        (WorkerPoolView { pending: v.pending.push(job), ..v }, true)
    } else {
        (v, false)
    }
}

pub open spec fn spec_take_job<T>(v: WorkerPoolView<T>, worker: int) -> (WorkerPoolView<T>, Option<T>) {
    if v.pending.len() > 0 {
        (
            WorkerPoolView {
                pending: v.pending.drop_first(),
                slots: v.slots.update(worker, Some(v.pending[0])),
                ..v
            },
            Some(v.pending[0]),
        )
    } else {
        (v, None)
    }
}

pub open spec fn spec_finish_job<T>(v: WorkerPoolView<T>, worker: int) -> WorkerPoolView<T> {
    WorkerPoolView { slots: v.slots.update(worker, None), ..v }
}

impl<T> WorkerPool<T> {
    pub closed spec fn view(&self) -> WorkerPoolView<T> {
        WorkerPoolView {
            pending: self.pending@,
            capacity: self.capacity as nat,
            slots: self.slots@,
        }
    }

    /// At least one worker, a positive bound, and a queue within it.
    pub open spec fn wf(self) -> bool {
        &&& self@.capacity >= 1
        &&& self@.slots.len() >= 1
        &&& self@.pending.len() <= self@.capacity
    }

    /// A fresh pool: empty queue, every worker idle.
    pub fn new(num_workers: usize, capacity: usize) -> (pool: WorkerPool<T>)
        requires
            num_workers >= 1,
            capacity >= 1,
        ensures
            pool.wf(),
            pool@.pending == Seq::<T>::empty(),
            pool@.capacity == capacity as nat,
            pool@.slots.len() == num_workers as nat,
            forall|i: int| 0 <= i < num_workers ==> pool@.slots[i] is None,
    {
        let mut slots: Vec<Option<T>> = Vec::new();
        let mut i: usize = 0;
        while i < num_workers
            invariant
                i <= num_workers,
                slots@.len() == i as nat,
                forall|j: int| 0 <= j < i ==> slots@[j] is None,
            decreases num_workers - i,
        {
            slots.push(None);
            i += 1;
        }
        let pool = WorkerPool { pending: VecDeque::new(), capacity, slots };
        proof {
            assert(pool@.pending =~= Seq::<T>::empty());
        }
        pool
    }

    /// Offers a job to the shared queue.  With room it is queued at the
    /// tail; with the queue at its bound it is handed back unchanged, so a
    /// refused submission is never lost — the submitter holds the job and
    /// tries again once a worker has freed capacity.
    pub fn try_submit(&mut self, job: T) -> (r: Result<(), T>)
        requires
            old(self).wf(),
        ensures
            final(self).wf(),
            ({
                let (v2, accepted) = spec_try_submit(old(self)@, job);
                &&& final(self)@ == v2
                &&& accepted <==> r is Ok
            }),
            r matches Err(returned) ==> returned == job && final(self)@ == old(self)@,
            final(self)@.pending.len() <= final(self)@.capacity,
    {
        if self.pending.len() < self.capacity {
            self.pending.push_back(job);
            Ok(())
        } else {
            Err(job)
        }
    }

    /// An idle worker pulls the job at the head of the shared queue, if
    /// any, into its own slot.  The job leaves the queue as it enters the
    /// slot, so first idle worker wins and no other worker can take it.
    pub fn take_job(&mut self, worker: usize) -> (took: bool)
        requires
            old(self).wf(),
            worker < old(self)@.slots.len(),
            old(self)@.slots[worker as int] is None,
        ensures
            final(self).wf(),
            ({
                let (v2, taken) = spec_take_job(old(self)@, worker as int);
                &&& final(self)@ == v2
                &&& took == (taken is Some)
            }),
            took ==> final(self)@.slots[worker as int] == Some(old(self)@.pending[0]),
            !took ==> final(self)@ == old(self)@,
    {
        match self.pending.pop_front() {
            Some(job) => {
                self.slots.set(worker, Some(job));
                true
            },
            None => false,
        }
    }

    /// The worker finishes its current job and becomes idle again; the job
    /// is returned so the driver can deliver the one response owed to the
    /// job's caller.
    pub fn finish_job(&mut self, worker: usize) -> (job: T)
        requires
            old(self).wf(),
            worker < old(self)@.slots.len(),
            old(self)@.slots[worker as int] is Some,
        ensures
            final(self).wf(),
            final(self)@ == spec_finish_job(old(self)@, worker as int),
            job == old(self)@.slots[worker as int].unwrap(),
    {
        let mut taken: Option<T> = None;
        self.slots.set_and_swap(worker, &mut taken);
        taken.unwrap()
    }

    /// Jobs submitted and not yet taken, in arrival order.
    pub fn pending_len(&self) -> (n: usize)
        ensures
            n as nat == self@.pending.len(),
    {
        self.pending.len()
    }

    /// The fixed queue bound.
    pub fn capacity(&self) -> (n: usize)
        ensures
            n as nat == self@.capacity,
    {
        self.capacity
    }

    /// The fixed number of workers.
    pub fn num_workers(&self) -> (n: usize)
        ensures
            n as nat == self@.slots.len(),
    {
        self.slots.len()
    }

    /// Whether the worker currently holds no job.
    pub fn worker_idle(&self, worker: usize) -> (idle: bool)
        requires
            worker < self@.slots.len(),
        ensures
            idle == (self@.slots[worker as int] is None),
    {
        self.slots[worker].is_none()
    }
}

/// The download pipeline's pool: five workers over one bounded queue.
pub fn new_download_pool<T>() -> (pool: WorkerPool<T>)
    ensures
        pool.wf(),
        pool@.pending == Seq::<T>::empty(),
        pool@.capacity == JOB_QUEUE_CAPACITY as nat,
        pool@.slots.len() == NUM_DOWNLOAD_WORKERS as nat,
        forall|i: int| 0 <= i < NUM_DOWNLOAD_WORKERS ==> pool@.slots[i] is None,
{
    WorkerPool::new(NUM_DOWNLOAD_WORKERS, JOB_QUEUE_CAPACITY)
}

/// The search pipeline's pool: ten workers over one bounded queue.
pub fn new_search_pool<T>() -> (pool: WorkerPool<T>)
    ensures
        pool.wf(),
        pool@.pending == Seq::<T>::empty(),
        pool@.capacity == JOB_QUEUE_CAPACITY as nat,
        pool@.slots.len() == NUM_SEARCH_WORKERS as nat,
        forall|i: int| 0 <= i < NUM_SEARCH_WORKERS ==> pool@.slots[i] is None,
{
    WorkerPool::new(NUM_SEARCH_WORKERS, JOB_QUEUE_CAPACITY)
}

/// Submitting beyond the pool's capacity never grows the queue past its
/// bound and never loses the refused job: the queue stays exactly at the
/// bound and the submission is not accepted until capacity frees up.
pub proof fn lemma_submit_backpressure<T>(v: WorkerPoolView<T>, job: T)
    requires
        v.pending.len() <= v.capacity,
    ensures
        spec_try_submit(v, job).0.pending.len() <= v.capacity,
        v.pending.len() == v.capacity ==> !spec_try_submit(v, job).1
            && spec_try_submit(v, job).0 == v,
{
}

/// Once any worker takes a job off a full queue, a previously refused
/// submission is accepted: the suspended submitter resumes as soon as a
/// worker frees capacity.
pub proof fn lemma_take_frees_capacity<T>(v: WorkerPoolView<T>, worker: int, job: T)
    requires
        v.capacity >= 1,
        v.pending.len() == v.capacity,
    ensures
        spec_try_submit(spec_take_job(v, worker).0, job).1,
{
}

/// Two successive takes by different workers hand out the two jobs at the
/// head of the queue, one each: no two workers ever process the same job.
pub proof fn lemma_workers_take_distinct_jobs<T>(v: WorkerPoolView<T>, w1: int, w2: int)
    requires
        v.pending.len() >= 2,
        0 <= w1 < v.slots.len(),
        0 <= w2 < v.slots.len(),
        w1 != w2,
    ensures
        ({
            let (v1, t1) = spec_take_job(v, w1);
            let (v2, t2) = spec_take_job(v1, w2);
            &&& t1 == Some(v.pending[0])
            &&& t2 == Some(v.pending[1])
            &&& v2.slots[w1] == Some(v.pending[0])
            &&& v2.slots[w2] == Some(v.pending[1])
            &&& v2.pending == v.pending.drop_first().drop_first()
        }),
{
    let (v1, t1) = spec_take_job(v, w1);
    assert(v1.pending[0] == v.pending[1]);
}

} // verus!
