//! Registry of transfer jobs and the per-job lifecycle.
use vstd::prelude::*;

verus! {

/// Direction of a transfer, seen from the server.
#[derive(Clone, Copy, Debug, PartialEq, Eq, Structural)]
pub enum Direction {
    Upload,
    Download,
}

/// Lifecycle state of a transfer job.
#[derive(Clone, Copy, Debug, PartialEq, Eq, Structural)]
pub enum JobState {
    Pending,
    InProgress,
    Completed,
    Aborted,
    Failed,
}

/// Errors reported by the registry.
#[derive(Clone, Copy, Debug, PartialEq, Eq, Structural)]
pub enum TransferError {
    /// The handle names no registered job.
    UnknownJob,
    /// The requested state is not reachable from the job's current state,
    /// or the job is already in a terminal state.
    InvalidTransition,
    /// The byte counter would exceed its range.
    CounterOverflow,
}

/// `Completed`, `Aborted` and `Failed` are final.
pub open spec fn is_terminal(s: JobState) -> bool {
    s is Completed || s is Aborted || s is Failed
}

/// The edges of the job state machine:
/// `Pending -> InProgress -> {Completed, Aborted, Failed}`; a pending job may
/// also be cancelled or fail before its data channel opens.
pub open spec fn can_transition(from: JobState, to: JobState) -> bool {
    match from {
        JobState::Pending => to is InProgress || to is Aborted || to is Failed,
        JobState::InProgress => is_terminal(to),
        _ => false,
    }
}

/// Executable form of `is_terminal`.
pub fn state_is_terminal(s: JobState) -> (r: bool)
    ensures
        r == is_terminal(s),
{
    match s {
        JobState::Completed | JobState::Aborted | JobState::Failed => true,
        _ => false,
    }
}

/// Executable form of `can_transition`.
pub fn transition_allowed(from: JobState, to: JobState) -> (r: bool)
    ensures
        r == can_transition(from, to),
{
    match from {
        JobState::Pending => match to {
            JobState::InProgress | JobState::Aborted | JobState::Failed => true,
            _ => false,
        },
        JobState::InProgress => state_is_terminal(to),
        _ => false,
    }
}

/// One tracked upload or download.
#[derive(Clone, Debug)]
pub struct TransferJob {
    pub id: u64,
    pub direction: Direction,
    pub path: String,
    pub state: JobState,
    pub bytes_transferred: u64,
    /// Size of the transfer, when known in advance; the job completes only
    /// once exactly this many bytes went through.
    pub declared_bytes: Option<u64>,
    /// Start time, in seconds since the Unix epoch, as supplied by the caller.
    pub started_at: u64,
}

impl TransferJob {
    /// A job that has not been registered yet (id 0, `Pending`, no bytes).
    pub fn new(direction: Direction, path: String, declared_bytes: Option<u64>, started_at: u64) -> (r: TransferJob)
        ensures
            r.id == 0,
            r.direction == direction,
            r.path == path,
            r.state == JobState::Pending,
            r.bytes_transferred == 0,
            r.declared_bytes == declared_bytes,
            r.started_at == started_at,
    {
        TransferJob { id: 0, direction, path, state: JobState::Pending, bytes_transferred: 0, declared_bytes, started_at }
    }

    /// A field-by-field copy.
    pub fn duplicate(&self) -> (r: TransferJob)
        ensures
            r == *self,
    {
        TransferJob {
            id: self.id,
            direction: self.direction,
            path: self.path.clone(),
            state: self.state,
            bytes_transferred: self.bytes_transferred,
            declared_bytes: self.declared_bytes,
            started_at: self.started_at,
        }
    }
}

/// Identifies a registered job; it is the job's position in registration order.
pub type JobHandle = u64;

/// The job that `register` appends for the given request and handle.
pub open spec fn fresh_job(id: u64, direction: Direction, path: String, declared_bytes: Option<u64>, started_at: u64) -> TransferJob {
    TransferJob { id, direction, path, state: JobState::Pending, bytes_transferred: 0, declared_bytes, started_at }
}

/// Ordered collection of transfer jobs. A job's id is its position, so ids
/// are unique and the registration order is the listing order.
pub struct TransferManager {
    jobs: Vec<TransferJob>,
}

impl TransferManager {
    pub closed spec fn view(&self) -> Seq<TransferJob> {
        self.jobs@
    }

    /// Every job's id equals its position.
    pub open spec fn wf(&self) -> bool {
        forall|i: int| 0 <= i < self@.len() ==> #[trigger] self@[i].id == i
    }

    /// An empty registry.
    pub fn new() -> (r: TransferManager)
        ensures
            r.wf(),
            r@ == Seq::<TransferJob>::empty(),
    {
        TransferManager { jobs: Vec::new() }
    }

    /// Number of registered jobs.
    pub fn len(&self) -> (r: usize)
        ensures
            r == self@.len(),
    {
        self.jobs.len()
    }

    /// Registers a new `Pending` job with no bytes transferred, appended at
    /// the end; its handle is the previous number of jobs.
    pub fn register(&mut self, direction: Direction, path: String, declared_bytes: Option<u64>, started_at: u64) -> (r: JobHandle)
        requires
            old(self).wf(),
            old(self)@.len() < u64::MAX,
        ensures
            final(self).wf(),
            r == old(self)@.len(),
            final(self)@ == old(self)@.push(fresh_job(r, direction, path, declared_bytes, started_at)),
    {
        let id = self.jobs.len() as u64;
        let job = TransferJob {
            id,
            direction,
            path,
            state: JobState::Pending,
            bytes_transferred: 0,
            declared_bytes,
            started_at,
        };
        self.jobs.push(job);
        proof {
            assert forall|i: int| 0 <= i < self@.len() implies #[trigger] self@[i].id == i by {
                if i < old(self)@.len() {
                    assert(self@[i] == old(self)@[i]);
                }
            }
        }
        id
    }

    /// Registers `job` as a new transfer. The registry assigns its id and
    /// starts it as `Pending` with no bytes transferred; its direction, path
    /// declared size and start time are kept.
    pub fn add(&mut self, job: TransferJob) -> (r: JobHandle)
        requires
            old(self).wf(),
            old(self)@.len() < u64::MAX,
        ensures
            final(self).wf(),
            r == old(self)@.len(),
            final(self)@ == old(self)@.push(fresh_job(r, job.direction, job.path, job.declared_bytes, job.started_at)),
    {
        self.register(job.direction, job.path, job.declared_bytes, job.started_at)
    }

    /// Advances a job's byte counter by `bytes_delta` and, if `new_state` is
    /// given, moves it to that state. Nothing changes on error.
    pub fn update(&mut self, handle: JobHandle, bytes_delta: u64, new_state: Option<JobState>) -> (r: Result<(), TransferError>)
        requires
            old(self).wf(),
        ensures
            final(self).wf(),
            update_outcome(old(self)@, handle, bytes_delta, new_state, r, final(self)@),
    {
        if handle as usize >= self.jobs.len() || handle >= usize::MAX as u64 {
            return Err(TransferError::UnknownJob);
        }
        let i = handle as usize;
        let cur = self.jobs[i].state;
        if state_is_terminal(cur) {
            return Err(TransferError::InvalidTransition);
        }
        let next = match new_state {
            Some(s) => {
                if !transition_allowed(cur, s) {
                    return Err(TransferError::InvalidTransition);
                }
                s
            },
            None => cur,
        };
        let bytes = self.jobs[i].bytes_transferred;
        if bytes_delta > u64::MAX - bytes {
            return Err(TransferError::CounterOverflow);
        }
        if let JobState::Completed = next {
            if let Some(n) = self.jobs[i].declared_bytes {
                if bytes + bytes_delta != n {
                    return Err(TransferError::InvalidTransition);
                }
            }
        }
        let mut job = self.jobs[i].duplicate();
        job.bytes_transferred = bytes + bytes_delta;
        job.state = next;
        self.jobs.set(i, job);
        proof {
            assert forall|k: int| 0 <= k < self@.len() implies #[trigger] self@[k].id == k by {
                if k != i {
                    assert(self@[k] == old(self)@[k]);
                }
            }
        }
        Ok(())
    }

    /// A point-in-time copy of all jobs, in registration order.
    pub fn snapshot(&self) -> (r: Vec<TransferJob>)
        ensures
            r@ == self@,
    {
        let mut out: Vec<TransferJob> = Vec::new();
        let mut i: usize = 0;
        while i < self.jobs.len()
            invariant
                i <= self.jobs@.len(),
                out@ == self.jobs@.subrange(0, i as int),
            decreases self.jobs@.len() - i,
        {
            out.push(self.jobs[i].duplicate());
            i += 1;
            assert(out@ =~= self.jobs@.subrange(0, i as int));
        }
        assert(self.jobs@.subrange(0, self.jobs@.len() as int) =~= self.jobs@);
        out
    }

    /// The job with handle `handle`, if registered.
    pub fn get(&self, handle: JobHandle) -> (r: Option<TransferJob>)
        requires
            self.wf(),
        ensures
            handle < self@.len() ==> r == Some(self@[handle as int]),
            handle >= self@.len() ==> r is None,
    {
        if handle as usize >= self.jobs.len() || handle >= usize::MAX as u64 {
            None
        } else {
            Some(self.jobs[handle as usize].duplicate())
        }
    }
}

/// The state a job moves to under an update with `new_state`.
pub open spec fn target_of(job: TransferJob, new_state: Option<JobState>) -> JobState {
    match new_state {
        Some(s) => s,
        None => job.state,
    }
}

/// Why an update of `job` by `delta` bytes to `new_state` is refused, in the
/// order in which the checks are made: a terminal job or an unreachable
/// state, then a counter overflow, then completion short of (or past) the
/// declared size.
pub open spec fn update_error(job: TransferJob, delta: u64, new_state: Option<JobState>) -> Option<TransferError> {
    let target = target_of(job, new_state);
    if is_terminal(job.state) || (new_state is Some && !can_transition(job.state, target)) {
        Some(TransferError::InvalidTransition)
    } else if job.bytes_transferred + delta > u64::MAX {
        Some(TransferError::CounterOverflow)
    } else if target is Completed && job.declared_bytes is Some
        && job.bytes_transferred + delta != job.declared_bytes->0 {
        Some(TransferError::InvalidTransition)
    } else {
        None
    }
}

/// `job` after an accepted update.
pub open spec fn updated(job: TransferJob, delta: u64, new_state: Option<JobState>) -> TransferJob {
    TransferJob {
        state: target_of(job, new_state),
        bytes_transferred: (job.bytes_transferred + delta) as u64,
        ..job
    }
}

/// What `update` does, for every outcome: an unknown handle, the refusals
/// of `update_error`, and on success the one job that changes.
pub open spec fn update_outcome(
    before: Seq<TransferJob>,
    handle: u64,
    delta: u64,
    new_state: Option<JobState>,
    r: Result<(), TransferError>,
    after: Seq<TransferJob>,
) -> bool {
    if handle >= before.len() {
        r == Err::<(), TransferError>(TransferError::UnknownJob) && after == before
    } else {
        match update_error(before[handle as int], delta, new_state) {
            Some(e) => r == Err::<(), TransferError>(e) && after == before,
            None => r == Ok::<(), TransferError>(()) && after == before.update(
                handle as int,
                updated(before[handle as int], delta, new_state),
            ),
        }
    }
}

/// Once a job is in a terminal state, no state is reachable from it.
pub proof fn lemma_terminal_states_are_final(from: JobState, to: JobState)
    requires
        is_terminal(from),
    ensures
        !can_transition(from, to),
{
}

/// A job that has reached `Completed` never accepts an update that moves it
/// back to `InProgress` or `Pending`: the update fails with
/// `InvalidTransition` and the registry is left as it was.
pub proof fn lemma_completed_job_rejects_reopening(
    before: Seq<TransferJob>,
    handle: u64,
    delta: u64,
    target: JobState,
    r: Result<(), TransferError>,
    after: Seq<TransferJob>,
)
    requires
        handle < before.len(),
        before[handle as int].state == JobState::Completed,
        target is InProgress || target is Pending,
        update_outcome(before, handle, delta, Some(target), r, after),
    ensures
        r == Err::<(), TransferError>(TransferError::InvalidTransition),
        after == before,
{
}

/// In a well-formed registry no two jobs share an id, and each job's id is
/// its position in the listing.
pub proof fn lemma_job_ids_unique(m: TransferManager)
    requires
        m.wf(),
    ensures
        forall|i: int, j: int|
            0 <= i < m@.len() && 0 <= j < m@.len() && i != j ==> #[trigger] m@[i].id != #[trigger] m@[j].id,
        forall|i: int| 0 <= i < m@.len() ==> #[trigger] m@[i].id == i,
{
}

/// Each registration adds exactly one job, under an id that no earlier job
/// holds; so registering N jobs yields N entries with N distinct ids.
pub proof fn lemma_registration_adds_one_fresh_id(
    before: TransferManager,
    after: TransferManager,
    r: JobHandle,
    direction: Direction,
    path: String,
    declared_bytes: Option<u64>,
    started_at: u64,
)
    requires
        before.wf(),
        after.wf(),
        r == before@.len(),
        after@ == before@.push(fresh_job(r, direction, path, declared_bytes, started_at)),
    ensures
        after@.len() == before@.len() + 1,
        after@.last().id == r,
        forall|i: int| 0 <= i < before@.len() ==> #[trigger] before@[i].id != r,
        forall|i: int| 0 <= i < before@.len() ==> #[trigger] after@[i] == before@[i],
{
}

/// Position of a state along the lifecycle; terminal states share the last.
pub open spec fn stage(s: JobState) -> int {
    match s {
        JobState::Pending => 0,
        JobState::InProgress => 1,
        _ => 2,
    }
}

/// An update never moves any job to an earlier stage of its lifecycle, nor
/// lowers its byte count, so successive snapshots see each job progress
/// monotonically.
pub proof fn lemma_update_is_monotonic(
    before: Seq<TransferJob>,
    handle: u64,
    delta: u64,
    new_state: Option<JobState>,
    r: Result<(), TransferError>,
    after: Seq<TransferJob>,
)
    requires
        update_outcome(before, handle, delta, new_state, r, after),
    ensures
        after.len() == before.len(),
        forall|i: int| 0 <= i < before.len() ==> stage(#[trigger] after[i].state) >= stage(before[i].state),
        forall|i: int| 0 <= i < before.len() ==> #[trigger] after[i].bytes_transferred >= before[i].bytes_transferred,
        forall|i: int| 0 <= i < before.len() && is_terminal(before[i].state) ==> #[trigger] after[i] == before[i],
{
}

/// A job registered, moved to `InProgress` and then to `Completed` never
/// accepts an update back to `InProgress` or `Pending`, whatever its byte
/// count: that update fails with `InvalidTransition` and changes nothing.
pub proof fn lemma_completed_lifecycle_is_final(
    m0: Seq<TransferJob>,
    job: TransferJob,
    m1: Seq<TransferJob>,
    d1: u64,
    m2: Seq<TransferJob>,
    d2: u64,
    m3: Seq<TransferJob>,
    d: u64,
    target: JobState,
    r: Result<(), TransferError>,
    m4: Seq<TransferJob>,
)
    requires
        m0.len() < u64::MAX,
        m1 == m0.push(fresh_job(m0.len() as u64, job.direction, job.path, job.declared_bytes, job.started_at)),
        update_outcome(m1, m0.len() as u64, d1, Some(JobState::InProgress), Ok(()), m2),
        update_outcome(m2, m0.len() as u64, d2, Some(JobState::Completed), Ok(()), m3),
        target is InProgress || target is Pending,
        update_outcome(m3, m0.len() as u64, d, Some(target), r, m4),
    ensures
        r == Err::<(), TransferError>(TransferError::InvalidTransition),
        m4 == m3,
{
    let h = m0.len() as u64;
    assert(m1[h as int].state == JobState::Pending);
    assert(m2[h as int].state == JobState::InProgress);
    assert(m3[h as int].state == JobState::Completed);
}

/// A job with a declared size reaches `Completed` only with exactly that
/// many bytes transferred.
pub proof fn lemma_completed_means_fully_transferred(
    before: Seq<TransferJob>,
    handle: u64,
    delta: u64,
    after: Seq<TransferJob>,
)
    requires
        update_outcome(before, handle, delta, Some(JobState::Completed), Ok(()), after),
    ensures
        handle < before.len(),
        after[handle as int].state == JobState::Completed,
        after[handle as int].declared_bytes matches Some(n) ==> after[handle as int].bytes_transferred == n,
{
}

/// `states[k + 1]` is `states[k]` after registering `jobs[k]`, starting from
/// an empty registry.
pub open spec fn registered_in_turn(states: Seq<Seq<TransferJob>>, jobs: Seq<TransferJob>) -> bool {
    &&& states.len() == jobs.len() + 1
    &&& states[0] == Seq::<TransferJob>::empty()
    &&& forall|k: int| 0 <= k < jobs.len() ==> #[trigger] states[k + 1] == states[k].push(
        fresh_job(states[k].len() as u64, jobs[k].direction, jobs[k].path, jobs[k].declared_bytes, jobs[k].started_at),
    )
}

proof fn lemma_registered_prefix(states: Seq<Seq<TransferJob>>, jobs: Seq<TransferJob>, n: int)
    requires
        registered_in_turn(states, jobs),
        jobs.len() < u64::MAX,
        0 <= n <= jobs.len(),
    ensures
        states[n].len() == n,
        forall|i: int| 0 <= i < n ==> (#[trigger] states[n][i]).id == i && states[n][i].path == jobs[i].path,
    decreases n,
{
    if n > 0 {
        lemma_registered_prefix(states, jobs, n - 1);
        assert(states[n] == states[n - 1].push(fresh_job(
            states[n - 1].len() as u64, jobs[n - 1].direction, jobs[n - 1].path, jobs[n - 1].declared_bytes,
            jobs[n - 1].started_at)));
        assert forall|i: int| 0 <= i < n implies (#[trigger] states[n][i]).id == i && states[n][i].path == jobs[i].path by {
            if i < n - 1 {
                assert(states[n][i] == states[n - 1][i]);
            }
        }
    }
}

/// Registering N jobs one at a time into an empty registry yields exactly N
/// entries, whose ids are pairwise distinct: the k-th registration holds id
/// k, exactly once, with the k-th job's path.
pub proof fn lemma_n_registrations(states: Seq<Seq<TransferJob>>, jobs: Seq<TransferJob>)
    requires
        registered_in_turn(states, jobs),
        jobs.len() < u64::MAX,
    ensures
        states.last().len() == jobs.len(),
        forall|i: int, j: int|
            0 <= i < jobs.len() && 0 <= j < jobs.len() && i != j ==> #[trigger] states.last()[i].id != #[trigger] states.last()[j].id,
        forall|k: int| 0 <= k < jobs.len() ==> (#[trigger] states.last()[k]).id == k && states.last()[k].path == jobs[k].path,
{
    lemma_registered_prefix(states, jobs, jobs.len() as int);
}

} // verus!
