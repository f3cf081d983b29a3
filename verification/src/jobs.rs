//! Background jobs: the messages exchanged with the job agent, its
//! metrics, and what the admin handlers report.

use vstd::prelude::*;

verus! {

/// Identifier of a job (a 128-bit unique id).
#[derive(Debug, Clone, Copy, PartialEq, Eq, Hash, Structural)]
pub struct JobId(pub u128);

/// Where a job stands.
#[derive(Debug, Clone, Copy, PartialEq, Eq, Structural)]
pub enum JobStatus {
    /// Waiting in the queue.
    Pending,
    /// Being executed.
    Running,
    /// Finished successfully.
    Completed,
    /// Finished with an error.
    Failed,
}

/// Enqueue a new job for processing.
#[derive(Debug, Clone)]
pub struct EnqueueJob {
    /// Unique job identifier.
    pub id: JobId,
    /// Job type name.
    pub job_type: String,
    /// Serialized job payload.
    pub payload: Vec<u8>,
    /// Job priority (higher = more important).
    pub priority: i32,
    /// Maximum number of retry attempts.
    pub max_retries: u32,
    /// Job execution timeout in milliseconds.
    pub timeout_ms: u64,
}

/// Response to a job enqueue request.
#[derive(Debug, Clone, Copy)]
pub struct JobEnqueued {
    /// The enqueued job id.
    pub id: JobId,
}

/// Get the status of a job.
#[derive(Debug, Clone, Copy)]
pub struct GetJobStatus {
    /// Job id to query.
    pub id: JobId,
}

/// Response containing a job's status.
#[derive(Debug, Clone, Copy)]
pub struct JobStatusResponse {
    /// Job id.
    pub id: JobId,
    /// Current status (`None` if the job is not known).
    pub status: Option<JobStatus>,
}

/// Request the job metrics.
#[derive(Debug, Clone, Copy)]
pub struct GetMetrics;

/// Job processing metrics.
#[derive(Debug, Clone, Copy, PartialEq, Eq, Structural)]
pub struct JobMetrics {
    /// Total jobs enqueued.
    pub jobs_enqueued: u64,
    /// Total jobs dequeued.
    pub jobs_dequeued: u64,
    /// Total jobs completed successfully.
    pub jobs_completed: u64,
    /// Total jobs failed.
    pub jobs_failed: u64,
    /// Total jobs rejected (queue full).
    pub jobs_rejected: u64,
    /// Total jobs in the dead letter queue.
    pub jobs_in_dlq: u64,
    /// Current queue size.
    pub current_queue_size: usize,
    /// Current number of running jobs.
    pub current_running: usize,
}

/// Metrics with every counter at zero.
pub open spec fn zero_metrics() -> JobMetrics {
    JobMetrics {
        jobs_enqueued: 0,
        jobs_dequeued: 0,
        jobs_completed: 0,
        jobs_failed: 0,
        jobs_rejected: 0,
        jobs_in_dlq: 0,
        current_queue_size: 0,
        current_running: 0,
    }
}

impl JobMetrics {
    /// All counters at zero.
    pub fn default() -> (m: JobMetrics)
        ensures
            m == zero_metrics(),
    {
        JobMetrics {
            jobs_enqueued: 0,
            jobs_dequeued: 0,
            jobs_completed: 0,
            jobs_failed: 0,
            jobs_rejected: 0,
            jobs_in_dlq: 0,
            current_queue_size: 0,
            current_running: 0,
        }
    }

    /// Count the outcome of an enqueue request: an accepted job adds to the
    /// enqueued jobs, a refused one to the rejected jobs.
    pub fn record_enqueue(&mut self, accepted: bool)
        requires
            accepted ==> old(self).jobs_enqueued < u64::MAX,
            !accepted ==> old(self).jobs_rejected < u64::MAX,
        ensures
            accepted ==> *final(self) == (JobMetrics { jobs_enqueued: (old(self).jobs_enqueued + 1) as u64, ..*old(self) }),
            !accepted ==> *final(self) == (JobMetrics { jobs_rejected: (old(self).jobs_rejected + 1) as u64, ..*old(self) }),
    {
        if accepted {
            self.jobs_enqueued = self.jobs_enqueued + 1;
        } else {
            self.jobs_rejected = self.jobs_rejected + 1;
        }
    }
}

/// The status of a job as the agent reports it: the status of a running
/// job, `Pending` for one still in the queue, and none for an unknown one.
pub fn job_status(running: Option<JobStatus>, queued: bool) -> (s: Option<JobStatus>)
    ensures
        s == (match running {
            Some(r) => Some(r),
            None => if queued { Some(JobStatus::Pending) } else { None },
        }),
{
    match running {
        Some(r) => Some(r),
        None => if queued { Some(JobStatus::Pending) } else { None },
    }
}

/// Information about a single job.
#[derive(Debug, Clone)]
pub struct JobInfo {
    /// Job id.
    pub id: String,
    /// Job type.
    pub job_type: String,
    /// Current status.
    pub status: String,
    /// When the job was created.
    pub created_at: String,
    /// Job priority.
    pub priority: i32,
}

/// Response of the job list endpoint.
#[derive(Debug, Clone)]
pub struct JobListResponse {
    /// List of jobs.
    pub jobs: Vec<JobInfo>,
    /// Total number of jobs matching filters.
    pub total: usize,
    /// Message.
    pub message: String,
}

impl JobListResponse {
    /// The job list answered while jobs cannot be listed: none, with a notice.
    pub fn empty_listing() -> (r: JobListResponse)
        ensures
            r.jobs@.len() == 0,
            r.total == 0,
            r.message@ == "Job listing functionality will be enhanced in Phase 3"@,
    {
        JobListResponse {
            jobs: Vec::new(),
            total: 0,
            message: String::from_str("Job listing functionality will be enhanced in Phase 3"),
        }
    }
}

/// Whether a user with these roles may use the job admin endpoints: only
/// holders of the `admin` role may.
pub fn is_admin(roles: &Vec<String>) -> (r: bool)
    ensures
        r == exists|i: int| 0 <= i < roles@.len() && roles@[i]@ == "admin"@,
{
    let n = roles.len();
    let mut i: usize = 0;
    while i < n
        invariant
            n == roles@.len(),
            i <= n,
            forall|k: int| 0 <= k < i ==> roles@[k]@ != "admin"@,
        decreases n - i,
    {
        if crate::text::str_eq(roles[i].as_str(), "admin") {
            return true;
        }
        i = i + 1;
    }
    false
}

// ---------------------------------------------------------------------------
// The job agent's bookkeeping
// ---------------------------------------------------------------------------

/// Capacity of the job queue.
pub const QUEUE_CAPACITY: usize = 10_000;

/// A job waiting in the queue or the dead letter queue.
#[derive(Debug, Clone)]
pub struct QueuedJob {
    /// Unique job identifier.
    pub id: JobId,
    /// Job type name.
    pub job_type: String,
    /// Serialized job payload.
    pub payload: Vec<u8>,
    /// Job priority.
    pub priority: i32,
    /// Maximum number of retry attempts.
    pub max_retries: u32,
    /// Job execution timeout in milliseconds.
    pub timeout_ms: u64,
    /// When the job was enqueued (Unix ms).
    pub enqueued_at_ms: i64,
    /// Number of attempts made.
    pub attempt: u32,
}

/// The ids of a list of queued jobs.
pub open spec fn job_ids(q: Seq<QueuedJob>) -> Seq<JobId> {
    q.map_values(|j: QueuedJob| j.id)
}

/// The ids of a list of (id, status) pairs.
pub open spec fn status_ids(r: Seq<(JobId, JobStatus)>) -> Seq<JobId> {
    r.map_values(|p: (JobId, JobStatus)| p.0)
}

/// Whether no id occurs twice.
pub open spec fn distinct_ids(ids: Seq<JobId>) -> bool {
    forall|i: int, j: int| 0 <= i < j < ids.len() ==> ids[i] != ids[j]
}

/// Whether the running job at `i` has id `id`.
pub open spec fn runs_at(r: Seq<(JobId, JobStatus)>, id: JobId, i: int) -> bool {
    0 <= i < r.len() && r[i].0 == id
}

/// The status recorded for a running job, if any.
pub open spec fn running_status(r: Seq<(JobId, JobStatus)>, id: JobId) -> Option<JobStatus> {
    if exists|i: int| runs_at(r, id, i) {
        Some(r[choose|i: int| runs_at(r, id, i)].1)
    } else {
        None
    }
}

proof fn lemma_running_status_at(r: Seq<(JobId, JobStatus)>, id: JobId, i: int)
    requires
        runs_at(r, id, i),
        distinct_ids(status_ids(r)),
    ensures
        running_status(r, id) == Some(r[i].1),
{
    let c = choose|c: int| runs_at(r, id, c);
    assert(runs_at(r, id, c));
    if c != i {
        assert(status_ids(r)[c] == id);
        assert(status_ids(r)[i] == id);
    }
}

proof fn lemma_running_status_none(r: Seq<(JobId, JobStatus)>, id: JobId)
    requires
        forall|k: int| 0 <= k < r.len() ==> r[k].0 != id,
    ensures
        running_status(r, id).is_none(),
{
    assert(!exists|i: int| runs_at(r, id, i));
}

/// Whether `i` is the first position of `id` in `ids`.
pub open spec fn is_first(ids: Seq<JobId>, id: JobId, i: int) -> bool {
    0 <= i < ids.len() && ids[i] == id && forall|j: int| 0 <= j < i ==> ids[j] != id
}

/// The first position of `id` in `ids` (meaningful when it occurs).
pub open spec fn first_at(ids: Seq<JobId>, id: JobId) -> int {
    choose|i: int| is_first(ids, id, i)
}

proof fn lemma_first_at(ids: Seq<JobId>, id: JobId, i: int)
    requires
        is_first(ids, id, i),
    ensures
        first_at(ids, id) == i,
        ids.contains(id),
{
    let c = choose|c: int| is_first(ids, id, c);
    assert(is_first(ids, id, c));
    if c < i {
        assert(ids[c] != id);
    } else if c > i {
        assert(ids[i] != id);
    }
}

/// The first position of `id` among queued jobs, if any.
fn find_job(q: &Vec<QueuedJob>, id: JobId) -> (r: Option<usize>)
    ensures
        match r {
            Some(i) => is_first(job_ids(q@), id, i as int),
            None => !job_ids(q@).contains(id),
        },
{
    let mut i: usize = 0;
    while i < q.len()
        invariant
            i <= q@.len(),
            forall|k: int| 0 <= k < i ==> q@[k].id != id,
        decreases q@.len() - i,
    {
        if q[i].id == id {
            proof {
                assert forall|j: int| 0 <= j < i implies job_ids(q@)[j] != id by {
                    assert(job_ids(q@)[j] == q@[j].id);
                }
            }
            return Some(i);
        }
        i = i + 1;
    }
    proof {
        assert(!job_ids(q@).contains(id)) by {
            if job_ids(q@).contains(id) {
                let k = choose|k: int| 0 <= k < job_ids(q@).len() && job_ids(q@)[k] == id;
                assert(q@[k].id == id);
            }
        }
    }
    None
}

/// `q` without its element at `i`.
pub open spec fn without(q: Seq<QueuedJob>, i: int) -> Seq<QueuedJob> {
    q.take(i) + q.skip(i + 1)
}

/// The queue without any job of the given id, in order.
pub open spec fn without_job(q: Seq<QueuedJob>, id: JobId) -> Seq<QueuedJob>
    decreases q.len(),
{
    if q.len() == 0 {
        Seq::empty()
    } else if q.last().id == id {
        without_job(q.drop_last(), id)
    } else {
        without_job(q.drop_last(), id).push(q.last())
    }
}

/// Whether a queued job has an id other than `id`.
pub open spec fn other_job(id: JobId) -> spec_fn(QueuedJob) -> bool {
    |j: QueuedJob| j.id != id
}

/// Law: cancelling a queued id keeps every job with another id, in the
/// order they were queued, and drops exactly the jobs with that id.
pub proof fn law_cancel_keeps_others(q: Seq<QueuedJob>, id: JobId)
    ensures
        without_job(q, id) == q.filter(other_job(id)),
        without_job(q, id).len() + job_ids(q).filter(|x: JobId| x == id).len() == q.len(),
        !job_ids(without_job(q, id)).contains(id),
    decreases q.len(),
{
    reveal(Seq::filter);
    lemma_without_job(q, id);
    if q.len() > 0 {
        law_cancel_keeps_others(q.drop_last(), id);
        assert(job_ids(q).drop_last() =~= job_ids(q.drop_last()));
        assert(job_ids(q).last() == q.last().id);
    }
}

proof fn lemma_without_job(q: Seq<QueuedJob>, id: JobId)
    ensures
        without_job(q, id).len() <= q.len(),
        !job_ids(without_job(q, id)).contains(id),
    decreases q.len(),
{
    if q.len() > 0 {
        lemma_without_job(q.drop_last(), id);
        let r = without_job(q.drop_last(), id);
        if q.last().id != id {
            let t = r.push(q.last());
            if job_ids(t).contains(id) {
                let k = choose|k: int| 0 <= k < job_ids(t).len() && job_ids(t)[k] == id;
                assert(k < r.len() ==> job_ids(r)[k] == job_ids(t)[k]);
            }
        }
    }
}

/// Remove every queued job with the given id, keeping the others in order.
fn remove_queued(queue: &mut Vec<QueuedJob>, id: JobId)
    ensures
        final(queue)@ == without_job(old(queue)@, id),
{
    let ghost q0 = queue@;
    let n = queue.len();
    let mut i: usize = 0;
    let mut j: usize = 0;
    assert(q0.take(0) =~= Seq::<QueuedJob>::empty());
    assert(q0.skip(0) =~= q0);
    while j < n
        invariant
            n == q0.len(),
            j <= n,
            i <= j,
            queue@ == without_job(q0.take(j as int), id) + q0.skip(j as int),
            i == without_job(q0.take(j as int), id).len(),
        decreases n - j,
    {
        assert(q0.take(j as int + 1).drop_last() == q0.take(j as int));
        assert(queue@[i as int] == q0[j as int]);
        if queue[i].id == id {
            queue.remove(i);
        } else {
            i = i + 1;
        }
        assert(queue@ =~= without_job(q0.take(j as int + 1), id) + q0.skip(j as int + 1));
        j = j + 1;
    }
    assert(q0.take(n as int) == q0);
    assert(queue@ =~= without_job(q0, id));
}

/// The bookkeeping of the background job agent: the queue (bounded by its
/// capacity), the running jobs, the dead letter queue and the metrics.
#[derive(Debug, Clone)]
pub struct JobAgent {
    /// Jobs waiting to run, in the order they were queued.
    pub queue: Vec<QueuedJob>,
    /// Most jobs the queue holds.
    pub capacity: usize,
    /// Running jobs and their status, each id at most once.
    pub running: Vec<(JobId, JobStatus)>,
    /// Jobs that failed for good, each id at most once.
    pub dead_letter: Vec<QueuedJob>,
    /// Job processing metrics.
    pub metrics: JobMetrics,
}

impl JobAgent {
    /// Whether the queue is within its capacity and no running or dead job
    /// is listed twice.
    pub open spec fn wf(&self) -> bool {
        &&& self.queue@.len() <= self.capacity
        &&& distinct_ids(status_ids(self.running@))
        &&& distinct_ids(job_ids(self.dead_letter@))
    }

    /// An agent with empty queues, a queue of `QUEUE_CAPACITY` jobs, and zero metrics.
    pub fn new() -> (a: JobAgent)
        ensures
            a.wf(),
            a.queue@.len() == 0,
            a.capacity == QUEUE_CAPACITY,
            a.running@.len() == 0,
            a.dead_letter@.len() == 0,
            a.metrics == zero_metrics(),
    {
        JobAgent {
            queue: Vec::new(),
            capacity: QUEUE_CAPACITY,
            running: Vec::new(),
            dead_letter: Vec::new(),
            metrics: JobMetrics::default(),
        }
    }

    /// Enqueue a job at `now_ms`: accepted (as a first attempt) while the
    /// queue has room, and counted as enqueued; refused when it is full,
    /// and counted as rejected.
    pub fn enqueue(&mut self, msg: EnqueueJob, now_ms: i64) -> (r: Option<JobEnqueued>)
        requires
            old(self).wf(),
            old(self).metrics.jobs_enqueued < u64::MAX,
            old(self).metrics.jobs_rejected < u64::MAX,
        ensures
            final(self).wf(),
            final(self).capacity == old(self).capacity,
            final(self).running == old(self).running,
            final(self).dead_letter == old(self).dead_letter,
            old(self).queue@.len() < old(self).capacity ==> {
                &&& r == Some(JobEnqueued { id: msg.id })
                &&& final(self).queue@ == old(self).queue@.push(QueuedJob {
                    id: msg.id, job_type: msg.job_type, payload: msg.payload, priority: msg.priority,
                    max_retries: msg.max_retries, timeout_ms: msg.timeout_ms, enqueued_at_ms: now_ms, attempt: 0 })
                &&& final(self).metrics == (JobMetrics { jobs_enqueued: (old(self).metrics.jobs_enqueued + 1) as u64, ..old(self).metrics })
            },
            old(self).queue@.len() >= old(self).capacity ==> {
                &&& r.is_none()
                &&& final(self).queue@ == old(self).queue@
                &&& final(self).metrics == (JobMetrics { jobs_rejected: (old(self).metrics.jobs_rejected + 1) as u64, ..old(self).metrics })
            },
    {
        let id = msg.id;
        if self.queue.len() < self.capacity {
            self.queue.push(QueuedJob {
                id: msg.id,
                job_type: msg.job_type,
                payload: msg.payload,
                priority: msg.priority,
                max_retries: msg.max_retries,
                timeout_ms: msg.timeout_ms,
                enqueued_at_ms: now_ms,
                attempt: 0,
            });
            self.metrics.record_enqueue(true);
            Some(JobEnqueued { id })
        } else {
            self.metrics.record_enqueue(false);
            None
        }
    }

    /// The position of a running job.
    fn running_index(&self, id: JobId) -> (r: Option<usize>)
        ensures
            match r {
                Some(i) => i < self.running@.len() && self.running@[i as int].0 == id,
                None => forall|k: int| 0 <= k < self.running@.len() ==> self.running@[k].0 != id,
            },
    {
        let mut i: usize = 0;
        while i < self.running.len()
            invariant
                i <= self.running@.len(),
                forall|k: int| 0 <= k < i ==> self.running@[k].0 != id,
            decreases self.running@.len() - i,
        {
            if self.running[i].0 == id {
                return Some(i);
            }
            i = i + 1;
        }
        None
    }

    /// The status of a job: that of a running job, `Pending` for a queued
    /// one, none for an unknown one.
    pub fn status(&self, id: JobId) -> (s: Option<JobStatus>)
        requires
            self.wf(),
        ensures
            s == (match running_status(self.running@, id) {
                Some(r) => Some(r),
                None => if job_ids(self.queue@).contains(id) { Some(JobStatus::Pending) } else { None },
            }),
    {
        let running = match self.running_index(id) {
            Some(i) => {
                proof {
                    lemma_running_status_at(self.running@, id, i as int);
                }
                Some(self.running[i].1)
            },
            None => {
                proof {
                    lemma_running_status_none(self.running@, id);
                }
                None
            },
        };
        assert(running == running_status(self.running@, id));
        let q = find_job(&self.queue, id);
        job_status(running, q.is_some())
    }

    /// Retry a job of the dead letter queue: it leaves the dead letter
    /// queue and goes back to the queue as a first attempt when the queue
    /// has room (a job for which there is no room is dropped). Whether it
    /// was queued again is returned.
    pub fn retry_job(&mut self, id: JobId) -> (r: bool)
        requires
            old(self).wf(),
        ensures
            final(self).wf(),
            final(self).capacity == old(self).capacity,
            final(self).running == old(self).running,
            final(self).metrics == old(self).metrics,
            !job_ids(old(self).dead_letter@).contains(id) ==> !r && *final(self) == *old(self),
            job_ids(old(self).dead_letter@).contains(id) ==> {
                let i = first_at(job_ids(old(self).dead_letter@), id);
                let job = old(self).dead_letter@[i];
                &&& final(self).dead_letter@ == without(old(self).dead_letter@, i)
                &&& r == (old(self).queue@.len() < old(self).capacity)
                &&& r ==> final(self).queue@ == old(self).queue@.push(QueuedJob { attempt: 0, ..job })
                &&& !r ==> final(self).queue@ == old(self).queue@
            },
    {
        match find_job(&self.dead_letter, id) {
            None => false,
            Some(i) => {
                let ghost old_dl = self.dead_letter@;
                proof {
                    lemma_first_at(job_ids(old_dl), id, i as int);
                }
                let mut job = self.dead_letter.remove(i);
                proof {
                    assert(self.dead_letter@ =~= without(old_dl, i as int));
                    let ids = job_ids(self.dead_letter@);
                    let old_ids = job_ids(old_dl);
                    assert forall|a: int, b: int| 0 <= a < b < ids.len() implies ids[a] != ids[b] by {
                        let a0 = if a < i { a } else { a + 1 };
                        let b0 = if b < i { b } else { b + 1 };
                        assert(ids[a] == old_ids[a0]);
                        assert(ids[b] == old_ids[b0]);
                    }
                }
                job.attempt = 0;
                if self.queue.len() < self.capacity {
                    self.queue.push(job);
                    true
                } else {
                    false
                }
            },
        }
    }

    /// Retry every job of the dead letter queue: all leave it, and as many
    /// as the queue has room for go back to the queue, in order, as first
    /// attempts. The number queued again is returned.
    pub fn retry_all_failed(&mut self) -> (n: usize)
        requires
            old(self).wf(),
        ensures
            final(self).wf(),
            final(self).capacity == old(self).capacity,
            final(self).running == old(self).running,
            final(self).metrics == old(self).metrics,
            final(self).dead_letter@.len() == 0,
            n == (if old(self).dead_letter@.len() <= old(self).capacity - old(self).queue@.len() {
                old(self).dead_letter@.len() as int
            } else {
                old(self).capacity - old(self).queue@.len()
            }),
            final(self).queue@.len() == old(self).queue@.len() + n,
            final(self).queue@.take(old(self).queue@.len() as int) == old(self).queue@,
            forall|k: int| 0 <= k < n ==> #[trigger] final(self).queue@[old(self).queue@.len() + k]
                == (QueuedJob { attempt: 0, ..old(self).dead_letter@[k] }),
    {
        let mut jobs: Vec<QueuedJob> = Vec::new();
        std::mem::swap(&mut jobs, &mut self.dead_letter);
        let ghost q0 = self.queue@;
        let ghost dl = jobs@;
        let total = jobs.len();
        let mut retried: usize = 0;
        let mut k: usize = 0;
        while k < total
            invariant
                k <= total,
                total == dl.len(),
                self.capacity == old(self).capacity,
                q0 == old(self).queue@,
                dl == old(self).dead_letter@,
                jobs@ == dl.skip(k as int),
                q0.len() <= self.capacity,
                self.queue@.len() <= self.capacity,
                retried <= k,
                self.queue@.len() == q0.len() + retried,
                retried == (if k <= self.capacity - q0.len() { k as int } else { self.capacity - q0.len() }),
                self.queue@.take(q0.len() as int) == q0,
                forall|j: int| 0 <= j < retried ==> #[trigger] self.queue@[q0.len() + j] == (QueuedJob { attempt: 0, ..dl[j] }),
                self.running == old(self).running,
                self.metrics == old(self).metrics,
                self.dead_letter@.len() == 0,
            decreases total - k,
        {
            let mut job = jobs.remove(0);
            assert(job == dl[k as int]);
            assert(jobs@ =~= dl.skip(k as int + 1));
            job.attempt = 0;
            if self.queue.len() < self.capacity {
                let ghost before = self.queue@;
                self.queue.push(job);
                proof {
                    assert(self.queue@.take(q0.len() as int) =~= before.take(q0.len() as int));
                }
                retried = retried + 1;
            }
            k = k + 1;
        }
        retried
    }

    /// Cancel a job: when it is queued, every queued entry with its id
    /// leaves the queue; else a running one leaves the running jobs.
    /// Whether a job was found is returned; afterwards the id is not queued.
    pub fn cancel(&mut self, id: JobId) -> (r: bool)
        requires
            old(self).wf(),
        ensures
            final(self).wf(),
            final(self).capacity == old(self).capacity,
            final(self).dead_letter == old(self).dead_letter,
            final(self).metrics == old(self).metrics,
            !job_ids(final(self).queue@).contains(id),
            job_ids(old(self).queue@).contains(id) ==> r
                && final(self).queue@ == without_job(old(self).queue@, id)
                && final(self).queue@ == old(self).queue@.filter(other_job(id))
                && final(self).running == old(self).running,
            !job_ids(old(self).queue@).contains(id) ==> final(self).queue@ == old(self).queue@
                && r == status_ids(old(self).running@).contains(id)
                && !status_ids(final(self).running@).contains(id)
                && (forall|x: JobId| x != id ==> running_status(final(self).running@, x) == running_status(old(self).running@, x)),
    {
        match find_job(&self.queue, id) {
            Some(_) => {
                proof {
                    lemma_without_job(self.queue@, id);
                    law_cancel_keeps_others(self.queue@, id);
                }
                remove_queued(&mut self.queue, id);
                true
            },
            None => {
                match self.running_index(id) {
                    Some(i) => {
                        let ghost r0 = self.running@;
                        self.running.remove(i);
                        proof {
                            let ids = status_ids(self.running@);
                            let old_ids = status_ids(r0);
                            assert(old_ids[i as int] == id);
                            assert(old_ids.contains(id));
                            assert(self.running@ =~= r0.take(i as int) + r0.skip(i as int + 1));
                            assert forall|a: int, b: int| 0 <= a < b < ids.len() implies ids[a] != ids[b] by {
                                let a0 = if a < i { a } else { a + 1 };
                                let b0 = if b < i { b } else { b + 1 };
                                assert(ids[a] == old_ids[a0]);
                                assert(ids[b] == old_ids[b0]);
                            }
                            assert(!ids.contains(id)) by {
                                if ids.contains(id) {
                                    let k = choose|k: int| 0 <= k < ids.len() && ids[k] == id;
                                    let k0 = if k < i { k } else { k + 1 };
                                    assert(ids[k] == old_ids[k0]);
                                }
                            }
                            assert forall|x: JobId| x != id implies running_status(self.running@, x) == running_status(r0, x) by {
                                lemma_running_status_after_remove(r0, i as int, x);
                            }
                        }
                        true
                    },
                    None => {
                        proof {
                            assert(!status_ids(self.running@).contains(id)) by {
                                if status_ids(self.running@).contains(id) {
                                    let k = choose|k: int| 0 <= k < status_ids(self.running@).len() && status_ids(self.running@)[k] == id;
                                    assert(self.running@[k].0 == id);
                                }
                            }
                        }
                        false
                    },
                }
            },
        }
    }

    /// Empty the dead letter queue, returning how many jobs it held; the
    /// dead letter count of the metrics goes back to zero.
    pub fn clear_dead_letter(&mut self) -> (n: usize)
        requires
            old(self).wf(),
        ensures
            final(self).wf(),
            n == old(self).dead_letter@.len(),
            final(self).dead_letter@.len() == 0,
            final(self).queue == old(self).queue,
            final(self).running == old(self).running,
            final(self).capacity == old(self).capacity,
            final(self).metrics == (JobMetrics { jobs_in_dlq: 0, ..old(self).metrics }),
    {
        let n = self.dead_letter.len();
        self.dead_letter.clear();
        self.metrics.jobs_in_dlq = 0;
        n
    }

    /// The current metrics.
    pub fn metrics(&self) -> (m: JobMetrics)
        ensures
            m == self.metrics,
    {
        self.metrics
    }
}

proof fn lemma_running_status_after_remove(r: Seq<(JobId, JobStatus)>, i: int, x: JobId)
    requires
        0 <= i < r.len(),
        r[i].0 != x,
        distinct_ids(status_ids(r)),
    ensures
        running_status(r.take(i) + r.skip(i + 1), x) == running_status(r, x),
{
    let s = r.take(i) + r.skip(i + 1);
    assert(s.len() == r.len() - 1);
    assert forall|a: int| 0 <= a < s.len() implies #[trigger] s[a] == r[if a < i { a } else { a + 1 }] by {
        if a < i {
            assert(s[a] == r.take(i)[a]);
        } else {
            assert(s[a] == r.skip(i + 1)[a - i]);
        }
    }
    let sid = status_ids(s);
    let rid = status_ids(r);
    assert forall|a: int, b: int| 0 <= a < b < sid.len() implies sid[a] != sid[b] by {
        let a0 = if a < i { a } else { a + 1 };
        let b0 = if b < i { b } else { b + 1 };
        assert(sid[a] == rid[a0]);
        assert(sid[b] == rid[b0]);
    }
    if exists|k: int| runs_at(r, x, k) {
        let k = choose|k: int| runs_at(r, x, k);
        assert(k != i);
        let k1 = if k < i { k } else { k - 1 };
        assert(s[k1] == r[k]);
        lemma_running_status_at(r, x, k);
        lemma_running_status_at(s, x, k1);
    } else {
        assert forall|c: int| 0 <= c < s.len() implies s[c].0 != x by {
            let c0 = if c < i { c } else { c + 1 };
            assert(s[c] == r[c0]);
            assert(!runs_at(r, x, c0));
        }
        lemma_running_status_none(s, x);
    }
}

/// Law: a job accepted into the queue is reported `Pending` until it runs
/// (unless the agent already tracks a running job with its id).
pub proof fn law_enqueued_is_pending(queue: Seq<QueuedJob>, running: Seq<(JobId, JobStatus)>, job: QueuedJob)
    requires
        running_status(running, job.id).is_none(),
    ensures
        (match running_status(running, job.id) {
            Some(r) => Some(r),
            None => if job_ids(queue.push(job)).contains(job.id) { Some(JobStatus::Pending) } else { None },
        }) == Some(JobStatus::Pending),
{
    assert(job_ids(queue.push(job))[queue.len() as int] == job.id);
}

} // verus!
