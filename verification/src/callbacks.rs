//! How reports reach callers.
//!
//! Callbacks run one after the other on a thread of their own, fed by a bounded
//! queue. Only progress samples may be dropped when the queue is full; whatever
//! tells of a change in a task's life waits for room.

use std::collections::VecDeque;

use vstd::prelude::*;

use crate::ids::{GlobalProgressListenerId, TaskId};
use crate::transfer_status::{FileTransferRecord, TransferStatus};

verus! {

/// How many callbacks may wait at a time.
pub const CALLBACK_QUEUE_CAPACITY: usize = 2048;

/// The callbacks of one task.
#[derive(Debug)]
pub struct TaskCallbacks<P, C> {
    progress_cb: Option<P>,
    complete_cb: Option<C>,
}

impl<P, C> TaskCallbacks<P, C> {
    pub closed spec fn spec_progress_cb(self) -> Option<P> {
        self.progress_cb
    }

    pub closed spec fn spec_complete_cb(self) -> Option<C> {
        self.complete_cb
    }

    pub fn new(progress_cb: Option<P>, complete_cb: Option<C>) -> (callbacks: Self)
        ensures
            callbacks.spec_progress_cb() == progress_cb,
            callbacks.spec_complete_cb() == complete_cb,
    {
        TaskCallbacks { progress_cb, complete_cb }
    }

    /// No callbacks at all.
    pub fn empty() -> (callbacks: Self)
        ensures
            callbacks.spec_progress_cb() is None,
            callbacks.spec_complete_cb() is None,
    {
        TaskCallbacks { progress_cb: None, complete_cb: None }
    }

    pub fn progress_cb(&self) -> (progress_cb: &Option<P>)
        ensures
            *progress_cb == self.spec_progress_cb(),
    {
        &self.progress_cb
    }

    pub fn complete_cb(&self) -> (complete_cb: &Option<C>)
        ensures
            *complete_cb == self.spec_complete_cb(),
    {
        &self.complete_cb
    }
}

/// Whose progress callback is called.
#[derive(Debug, Clone, Copy, PartialEq, Eq, Structural)]
pub enum Recipient {
    Task(TaskId),
    Global(GlobalProgressListenerId),
}

/// One callback to call.
#[derive(Debug)]
pub enum CbJob {
    Progress { recipient: Recipient, record: FileTransferRecord },
    Complete { task_id: TaskId, payload: Option<String> },
}

/// How much depends on a callback.
#[derive(Debug, Clone, Copy, PartialEq, Eq, Structural)]
pub enum JobKind {
    /// A progress sample, which a later one replaces.
    Sample,
    /// Any other report.
    Report,
    Completion,
}

impl CbJob {
    /// Whether the job is only a progress sample, which a later one replaces.
    pub open spec fn is_sample(self) -> bool {
        self matches CbJob::Progress { record, .. } && record.status is Transmission
    }

    pub open spec fn spec_kind(self) -> JobKind {
        if self.is_sample() {
            JobKind::Sample
        } else if self is Complete {
            JobKind::Completion
        } else {
            JobKind::Report
        }
    }

    pub fn kind(&self) -> (kind: JobKind)
        ensures
            kind == self.spec_kind(),
    {
        match self {
            CbJob::Complete { .. } => JobKind::Completion,
            CbJob::Progress { record, .. } => match record.status {
                TransferStatus::Transmission => JobKind::Sample,
                _ => JobKind::Report,
            },
        }
    }
}

/// The calls that one status report leads to: first the task's own callback, if
/// it has one, then every global listener in the order of registration.
pub open spec fn fanned_out(
    own: Option<TaskId>,
    listeners: Seq<GlobalProgressListenerId>,
    record: FileTransferRecord,
) -> Seq<CbJob> {
    (match own {
        Some(task_id) => seq![CbJob::Progress { recipient: Recipient::Task(task_id), record }],
        None => Seq::empty(),
    }) + Seq::new(
        listeners.len(),
        |i: int| CbJob::Progress { recipient: Recipient::Global(listeners[i]), record },
    )
}

pub fn fan_out(
    own: Option<TaskId>,
    listeners: &[GlobalProgressListenerId],
    record: &FileTransferRecord,
) -> (jobs: Vec<CbJob>)
    ensures
        jobs@ == fanned_out(own, listeners@, *record),
{
    let mut jobs: Vec<CbJob> = Vec::new();
    if let Some(task_id) = own {
        jobs.push(CbJob::Progress { recipient: Recipient::Task(task_id), record: record.clone() });
    }
    assert(listeners@.take(0) =~= Seq::empty());
    assert(jobs@ =~= fanned_out(own, listeners@.take(0), *record));
    let mut i: usize = 0;
    while i < listeners.len()
        invariant
            i <= listeners@.len(),
            jobs@ == fanned_out(own, listeners@.take(i as int), *record),
        decreases listeners@.len() - i,
    {
        jobs.push(
            CbJob::Progress {
                recipient: Recipient::Global(listeners[i]),
                record: record.clone(),
            },
        );
        i += 1;
        assert(jobs@ =~= fanned_out(own, listeners@.take(i as int), *record));
    }
    assert(listeners@.take(i as int) =~= listeners@);
    jobs
}

/// What became of a job that was handed in.
#[derive(Debug)]
pub enum Submitted {
    /// It waits to be called.
    Queued,
    /// It was a sample and there was no room.
    Dropped,
    /// There is no room yet; it has to be handed in again.
    Wait(CbJob),
    /// Nobody will call it any more.
    Undelivered,
}

/// The queue of the callback thread.
#[derive(Debug)]
pub struct CallbackQueue {
    jobs: VecDeque<CbJob>,
    capacity: usize,
    closed: bool,
}

impl CallbackQueue {
    /// The jobs that wait, the next one first.
    pub closed spec fn waiting(self) -> Seq<CbJob> {
        self.jobs@
    }

    pub closed spec fn spec_capacity(self) -> usize {
        self.capacity
    }

    pub closed spec fn is_closed(self) -> bool {
        self.closed
    }

    pub open spec fn wf(self) -> bool {
        self.waiting().len() <= self.spec_capacity()
    }

    /// What becomes of a job that is handed in, and what waits then.
    pub open spec fn submit_step(self, job: CbJob) -> (Submitted, Seq<CbJob>) {
        if self.is_closed() {
            (Submitted::Undelivered, self.waiting())
        } else if self.waiting().len() < self.spec_capacity() {
            (Submitted::Queued, self.waiting().push(job))
        } else if job.is_sample() {
            (Submitted::Dropped, self.waiting())
        } else {
            (Submitted::Wait(job), self.waiting())
        }
    }

    /// An empty queue with room for `capacity` jobs.
    pub fn with_capacity(capacity: usize) -> (queue: CallbackQueue)
        ensures
            queue.wf(),
            queue.waiting() == Seq::<CbJob>::empty(),
            queue.spec_capacity() == capacity,
            !queue.is_closed(),
    {
        CallbackQueue { jobs: VecDeque::new(), capacity, closed: false }
    }

    /// An empty queue of the usual size.
    pub fn new() -> (queue: CallbackQueue)
        ensures
            queue.wf(),
            queue.waiting() == Seq::<CbJob>::empty(),
            queue.spec_capacity() == CALLBACK_QUEUE_CAPACITY,
            !queue.is_closed(),
    {
        CallbackQueue::with_capacity(CALLBACK_QUEUE_CAPACITY)
    }

    /// Hands in a job.
    pub fn submit(&mut self, job: CbJob) -> (submitted: Submitted)
        requires
            old(self).wf(),
        ensures
            final(self).wf(),
            final(self).spec_capacity() == old(self).spec_capacity(),
            final(self).is_closed() == old(self).is_closed(),
            (submitted, final(self).waiting()) == old(self).submit_step(job),
    {
        if self.closed {
            return Submitted::Undelivered;
        }
        if self.jobs.len() < self.capacity {
            self.jobs.push_back(job);
            return Submitted::Queued;
        }
        if job.kind() == JobKind::Sample {
            Submitted::Dropped
        } else {
            Submitted::Wait(job)
        }
    }

    /// The next job to call.
    pub fn take(&mut self) -> (job: Option<CbJob>)
        requires
            old(self).wf(),
        ensures
            final(self).wf(),
            final(self).spec_capacity() == old(self).spec_capacity(),
            final(self).is_closed() == old(self).is_closed(),
            old(self).waiting().len() == 0 ==> job is None && final(self).waiting()
                == old(self).waiting(),
            old(self).waiting().len() > 0 ==> job == Some(old(self).waiting()[0])
                && final(self).waiting() == old(self).waiting().skip(1),
    {
        let ghost before = self.jobs@;
        let job = self.jobs.pop_front();
        assert(before.len() > 0 ==> self.jobs@ =~= before.skip(1));
        job
    }

    /// Nothing more will be handed in. What waits is still called.
    pub fn close(&mut self)
        requires
            old(self).wf(),
        ensures
            final(self).wf(),
            final(self).is_closed(),
            final(self).spec_capacity() == old(self).spec_capacity(),
            final(self).waiting() == old(self).waiting(),
    {
        self.closed = true;
    }

    /// Whether the callback thread can end: nothing waits and nothing will come.
    pub fn is_finished(&self) -> (finished: bool)
        requires
            self.wf(),
        ensures
            finished == (self.is_closed() && self.waiting().len() == 0),
    {
        self.closed && self.jobs.len() == 0
    }
}

/// Whether the current thread is the callback thread of a given client. A
/// callback may close another client, but not its own: that would wait for the
/// very thread it runs on.
pub fn is_callback_dispatcher_thread_for(current: Option<u64>, owner: u64) -> (own: bool)
    ensures
        own == (current == Some(owner)),
{
    match current {
        Some(current) => current == owner,
        None => false,
    }
}

/// As long as the queue is open, only progress samples are ever dropped: every
/// other report, and every completion, is queued or handed back to wait.
pub proof fn law_only_samples_are_dropped(queue: CallbackQueue, job: CbJob)
    requires
        !queue.is_closed(),
        !job.is_sample(),
    ensures
        queue.submit_step(job).0 is Queued || queue.submit_step(job).0 == Submitted::Wait(job),
{
}

/// Callbacks come in the order in which they were queued: what was called and
/// what waits, one after the other, is always what was queued.
pub proof fn law_callbacks_keep_their_order(
    queue: CallbackQueue,
    job: CbJob,
    queued: Seq<CbJob>,
    called: Seq<CbJob>,
)
    requires
        queued == called + queue.waiting(),
    ensures
        queue.submit_step(job).0 is Queued ==> queued.push(job) == called + queue.submit_step(job).1,
        !(queue.submit_step(job).0 is Queued) ==> queued == called + queue.submit_step(job).1,
        queue.waiting().len() > 0 ==> queued == called.push(queue.waiting()[0])
            + queue.waiting().skip(1),
{
    assert(queued.push(job) =~= called + queue.waiting().push(job));
    if queue.waiting().len() > 0 {
        assert(queued =~= called.push(queue.waiting()[0]) + queue.waiting().skip(1));
    }
}

} // verus!
