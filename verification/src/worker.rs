//! Worker-side runtime state: the authentication handshake and the
//! in-child job table.

use vstd::prelude::*;
use vstd::string::StringExecFns;
use crate::errors::{ErrorCode, PlanterError};
use crate::exec_proto::{spec_exec_error_code_from, ExecErrorCode, ExecResponse,
    EXECD_PROTOCOL_VERSION};
use crate::ids::JobId;
use crate::protocol::{ExitStatus, TerminationReason};
use crate::textutil::str_eq;

verus! {

/// Startup configuration handed to a worker.
#[derive(Debug, PartialEq, Eq)]
pub struct WorkerConfig {
    /// Cell this worker serves.
    pub cell_id: String,
    /// Shared authentication token expected in the handshake.
    pub auth_token: String,
    /// Root state directory for worker data.
    pub state_root: String,
}

/// Maps an operation outcome onto the wire, turning errors into error
/// responses with the corresponding worker error code.
pub fn map_result(result: Result<ExecResponse, PlanterError>) -> (r: ExecResponse)
    ensures
        result matches Ok(resp) ==> r == resp,
        result matches Err(e) ==> (r matches ExecResponse::ExecError { code, message, detail }
            && code == spec_exec_error_code_from(e.code) && message@ == e.message@
            && detail.deep_view() == e.detail.deep_view()),
{
    match result {
        Ok(response) => response,
        Err(err) => ExecResponse::ExecError {
            code: ExecErrorCode::from(err.code),
            message: err.message,
            detail: err.detail,
        },
    }
}

/// Builds the error payload for a failed I/O action.
pub fn io_to_planter_error(action: &str, detail: String) -> (r: PlanterError)
    ensures
        r.code == ErrorCode::Internal,
        r.message@ == action@,
        r.detail matches Some(d) && d@ == detail@,
{
    PlanterError { code: ErrorCode::Internal, message: action.to_owned(), detail: Some(detail) }
}

/// Answers the mandatory first message of the control protocol.
///
/// The handshake succeeds exactly when the protocol version, the
/// authentication token and the cell identifier all match what the
/// worker was started with; the flag reports whether the channel is now
/// authenticated.
pub fn hello_response(
    config: &WorkerConfig,
    protocol: u32,
    auth_token: &String,
    cell_id: &String,
    worker_pid: u32,
) -> (r: (bool, ExecResponse))
    ensures
        r.0 <==> (protocol == EXECD_PROTOCOL_VERSION && auth_token@ == config.auth_token@
            && cell_id@ == config.cell_id@),
        r.0 ==> r.1 == (ExecResponse::HelloAck { protocol: EXECD_PROTOCOL_VERSION, worker_pid }),
        protocol != EXECD_PROTOCOL_VERSION ==> r.1 matches ExecResponse::ExecError {
            code: ExecErrorCode::InvalidRequest,
            ..
        },
        protocol == EXECD_PROTOCOL_VERSION && auth_token@ != config.auth_token@ ==> r.1 matches
            ExecResponse::ExecError { code: ExecErrorCode::Unauthorized, .. },
        protocol == EXECD_PROTOCOL_VERSION && auth_token@ == config.auth_token@ && cell_id@
            != config.cell_id@ ==> r.1 matches ExecResponse::ExecError {
            code: ExecErrorCode::InvalidRequest,
            ..
        },
{
    if protocol != EXECD_PROTOCOL_VERSION {
        (
            false,
            ExecResponse::ExecError {
                code: ExecErrorCode::InvalidRequest,
                message: String::from_str("unsupported exec protocol version"),
                detail: None,
            },
        )
    } else if !str_eq(auth_token.as_str(), config.auth_token.as_str()) {
        (
            false,
            ExecResponse::ExecError {
                code: ExecErrorCode::Unauthorized,
                message: String::from_str("invalid worker auth token"),
                detail: None,
            },
        )
    } else if !str_eq(cell_id.as_str(), config.cell_id.as_str()) {
        (
            false,
            ExecResponse::ExecError {
                code: ExecErrorCode::InvalidRequest,
                message: String::from_str("worker cell mismatch"),
                detail: None,
            },
        )
    } else {
        (true, ExecResponse::HelloAck { protocol: EXECD_PROTOCOL_VERSION, worker_pid })
    }
}

/// Answer to any other request arriving before authentication.
pub fn unauthenticated_response() -> (r: ExecResponse)
    ensures
        r matches ExecResponse::ExecError { code: ExecErrorCode::Unauthorized, .. },
{
    ExecResponse::ExecError {
        code: ExecErrorCode::Unauthorized,
        message: String::from_str("hello required before other requests"),
        detail: None,
    }
}

/// Answer to a second handshake on an authenticated channel.
pub fn hello_again_response() -> (r: ExecResponse)
    ensures
        r matches ExecResponse::ExecError { code: ExecErrorCode::InvalidRequest, .. },
{
    ExecResponse::ExecError {
        code: ExecErrorCode::InvalidRequest,
        message: String::from_str("hello can only be sent once"),
        detail: None,
    }
}

/// Bookkeeping for one job owned by a worker.
#[derive(Debug, Clone, Copy, PartialEq, Eq)]
pub struct WorkerJob {
    /// Current exit status.
    pub status: ExitStatus,
    /// Finish timestamp, once terminal.
    pub finished_at_ms: Option<u64>,
    /// Termination cause, once known.
    pub termination_reason: Option<TerminationReason>,
    /// Child process id, when known.
    pub pid: Option<u32>,
}

/// A job is running exactly while it has no finish timestamp.
pub open spec fn job_wf(j: WorkerJob) -> bool {
    (j.status is Running) <==> (j.finished_at_ms is None)
}

/// The terminal state a running job enters when it is signaled at `now`.
pub open spec fn spec_signaled(j: WorkerJob, force: bool, now: u64) -> WorkerJob {
    WorkerJob {
        status: ExitStatus::Exited { code: None },
        finished_at_ms: Some(now),
        termination_reason: Some(
            if force {
                TerminationReason::ForcedKill
            } else {
                TerminationReason::TerminatedByUser
            },
        ),
        pid: j.pid,
    }
}

/// First job bound to `id`, scanning entries in order.
pub open spec fn spec_jobs_get(m: Seq<(Seq<char>, WorkerJob)>, id: Seq<char>) -> Option<WorkerJob>
    decreases m.len(),
{
    if m.len() == 0 {
        None
    } else if m[0].0 == id {
        Some(m[0].1)
    } else {
        spec_jobs_get(m.drop_first(), id)
    }
}

/// The job table of one worker runtime.
#[derive(Debug, PartialEq, Eq)]
pub struct WorkerJobs {
    /// Jobs keyed by identifier, in insertion order.
    pub jobs: Vec<(String, WorkerJob)>,
}

impl View for WorkerJobs {
    type V = Seq<(Seq<char>, WorkerJob)>;

    open spec fn view(&self) -> Seq<(Seq<char>, WorkerJob)> {
        self.jobs@.map_values(|p: (String, WorkerJob)| (p.0@, p.1))
    }
}

impl WorkerJobs {
    /// Identifiers are pairwise distinct and every job is well formed.
    pub open spec fn wf(&self) -> bool {
        (forall|i: int, j: int| 0 <= i < j < self@.len() ==> self@[i].0 != self@[j].0) && (forall|
            i: int,
        | 0 <= i < self@.len() ==> job_wf(#[trigger] self@[i].1))
    }

    /// Creates an empty job table.
    pub fn new() -> (r: WorkerJobs)
        ensures
            r@ == Seq::<(Seq<char>, WorkerJob)>::empty(),
            r.wf(),
    {
        WorkerJobs { jobs: Vec::new() }
    }

    /// Index of the job bound to `id`, when present.
    fn find(&self, id: &str) -> (r: Option<usize>)
        ensures
            match r {
                Some(i) => i < self@.len() && self@[i as int].0 == id@ && spec_jobs_get(
                    self@,
                    id@,
                ) == Some(self@[i as int].1),
                None => spec_jobs_get(self@, id@) is None,
            },
    {
        let n: usize = self.jobs.len();
        let mut i: usize = 0;
        proof {
            assert(self@.skip(0) =~= self@);
        }
        while i < n
            invariant
                n == self@.len(),
                i <= n,
                spec_jobs_get(self@, id@) == spec_jobs_get(self@.skip(i as int), id@),
            decreases n - i,
        {
            proof {
                assert(self@.skip(i as int)[0] == self@[i as int]);
                assert(self@.skip(i as int).drop_first() =~= self@.skip(i as int + 1));
            }
            if str_eq(self.jobs[i].0.as_str(), id) {
                return Some(i);
            }
            i = i + 1;
        }
        proof {
            assert(self@.skip(n as int).len() == 0);
        }
        None
    }

    /// Admission control for a job launch: the argument vector must be
    /// non-empty and the identifier unused.
    pub fn admit_run_job(&self, job_id: &JobId, argv_is_empty: bool) -> (r: Result<
        (),
        PlanterError,
    >)
        ensures
            argv_is_empty ==> (r matches Err(e) && e.code == ErrorCode::InvalidRequest),
            !argv_is_empty && spec_jobs_get(self@, job_id@) is Some ==> (r matches Err(e)
                && e.code == ErrorCode::InvalidRequest),
            !argv_is_empty && spec_jobs_get(self@, job_id@) is None ==> r is Ok,
    {
        if argv_is_empty {
            return Err(
                PlanterError {
                    code: ErrorCode::InvalidRequest,
                    message: String::from_str("command argv cannot be empty"),
                    detail: None,
                },
            );
        }
        if self.find(job_id.0.as_str()).is_some() {
            return Err(
                PlanterError {
                    code: ErrorCode::InvalidRequest,
                    message: String::from_str("job already exists"),
                    detail: Some(job_id.0.clone()),
                },
            );
        }
        Ok(())
    }

    /// Records a freshly spawned job as running.
    pub fn record_started(&mut self, job_id: String, pid: Option<u32>)
        requires
            spec_jobs_get(old(self)@, job_id@) is None,
            old(self).wf(),
        ensures
            final(self)@ == old(self)@ + seq![
                (
                    job_id@,
                    WorkerJob {
                        status: ExitStatus::Running,
                        finished_at_ms: None,
                        termination_reason: None,
                        pid,
                    },
                ),
            ],
            final(self).wf(),
            spec_jobs_get(final(self)@, job_id@) matches Some(j) && j.status is Running,
    {
        let ghost old_view = self@;
        let job = WorkerJob {
            status: ExitStatus::Running,
            finished_at_ms: None,
            termination_reason: None,
            pid,
        };
        self.jobs.push((job_id, job));
        proof {
            let jid = self.jobs@[old_view.len() as int].0@;
            assert(self@ =~= old_view + seq![(jid, job)]);
            lemma_jobs_get_absent_all(old_view, jid);
            lemma_jobs_get_append(old_view, jid, job);
            assert forall|a: int, b: int|
                0 <= a < b < self@.len() implies self@[a].0 != self@[b].0 by {
                if b == old_view.len() {
                    lemma_jobs_get_present(old_view, a);
                }
            }
        }
    }

    /// Looks up a job, reporting the missing-job error when absent.
    pub fn get(&self, job_id: &JobId) -> (r: Result<WorkerJob, PlanterError>)
        ensures
            match r {
                Ok(j) => spec_jobs_get(self@, job_id@) == Some(j),
                Err(e) => spec_jobs_get(self@, job_id@) is None && e.code == ErrorCode::NotFound,
            },
    {
        match self.find(job_id.0.as_str()) {
            Some(i) => Ok(self.jobs[i].1),
            None => Err(
                PlanterError {
                    code: ErrorCode::NotFound,
                    message: String::from_str("job does not exist"),
                    detail: Some(job_id.0.clone()),
                },
            ),
        }
    }

    /// Applies the outcome of a non-blocking completion probe: a running
    /// job that has exited becomes terminal at `now`, defaulting the
    /// termination reason; anything else is untouched.
    pub fn apply_wait(&mut self, job_id: &JobId, exited: Option<Option<i32>>, now: u64) -> (r:
        Result<WorkerJob, PlanterError>)
        requires
            old(self).wf(),
        ensures
            final(self).wf(),
            match r {
                Ok(j) => {
                    &&& spec_jobs_get(final(self)@, job_id@) == Some(j)
                    &&& match spec_jobs_get(old(self)@, job_id@) {
                        Some(o) => match exited {
                            Some(code) => if o.status is Running {
                                j == (WorkerJob {
                                    status: ExitStatus::Exited { code },
                                    finished_at_ms: Some(now),
                                    termination_reason: Some(
                                        match o.termination_reason {
                                            Some(reason) => reason,
                                            None => TerminationReason::Exited,
                                        },
                                    ),
                                    pid: o.pid,
                                })
                            } else {
                                j == o
                            },
                            None => j == o,
                        },
                        None => false,
                    }
                },
                Err(e) => spec_jobs_get(old(self)@, job_id@) is None && e.code
                    == ErrorCode::NotFound && final(self)@ == old(self)@,
            },
    {
        let ghost old_view = self@;
        let found = self.find(job_id.0.as_str());
        match found {
            Some(i) => {
                let current = self.jobs[i].1;
                let updated = match current.status {
                    ExitStatus::Running => match exited {
                        Some(code) => WorkerJob {
                            status: ExitStatus::Exited { code },
                            finished_at_ms: Some(now),
                            termination_reason: match current.termination_reason {
                                Some(reason) => Some(reason),
                                None => Some(TerminationReason::Exited),
                            },
                            pid: current.pid,
                        },
                        None => current,
                    },
                    _ => current,
                };
                let key = self.jobs[i].0.clone();
                self.jobs[i] = (key, updated);
                proof {
                    assert(self@ =~= old_view.update(i as int, (old_view[i as int].0, updated)));
                    lemma_jobs_get_update(old_view, i as int, updated);
                    assert forall|a: int, b: int|
                        0 <= a < b < self@.len() implies self@[a].0 != self@[b].0 by {
                        assert(old_view[a].0 != old_view[b].0);
                    }
                    assert forall|a: int| 0 <= a < self@.len() implies job_wf(
                        #[trigger] self@[a].1,
                    ) by {
                        assert(job_wf(old_view[a].1));
                    }
                }
                Ok(updated)
            },
            None => Err(
                PlanterError {
                    code: ErrorCode::NotFound,
                    message: String::from_str("job does not exist"),
                    detail: Some(job_id.0.clone()),
                },
            ),
        }
    }

    /// Applies a signal decision: a running job becomes terminal at
    /// `now` with no exit code, marked force-killed or user-terminated
    /// according to `force`; a finished job is untouched.
    pub fn apply_signal(&mut self, job_id: &JobId, force: bool, now: u64) -> (r: Result<
        WorkerJob,
        PlanterError,
    >)
        requires
            old(self).wf(),
        ensures
            final(self).wf(),
            match r {
                Ok(j) => {
                    &&& spec_jobs_get(final(self)@, job_id@) == Some(j)
                    &&& match spec_jobs_get(old(self)@, job_id@) {
                        Some(o) => if o.status is Running {
                            j == spec_signaled(o, force, now)
                        } else {
                            j == o
                        },
                        None => false,
                    }
                },
                Err(e) => spec_jobs_get(old(self)@, job_id@) is None && e.code
                    == ErrorCode::NotFound && final(self)@ == old(self)@,
            },
    {
        let ghost old_view = self@;
        let found = self.find(job_id.0.as_str());
        match found {
            Some(i) => {
                let current = self.jobs[i].1;
                let updated = match current.status {
                    ExitStatus::Running => WorkerJob {
                        status: ExitStatus::Exited { code: None },
                        finished_at_ms: Some(now),
                        termination_reason: Some(
                            if force {
                                TerminationReason::ForcedKill
                            } else {
                                TerminationReason::TerminatedByUser
                            },
                        ),
                        pid: current.pid,
                    },
                    _ => current,
                };
                let key = self.jobs[i].0.clone();
                self.jobs[i] = (key, updated);
                proof {
                    assert(self@ =~= old_view.update(i as int, (old_view[i as int].0, updated)));
                    lemma_jobs_get_update(old_view, i as int, updated);
                    assert forall|a: int, b: int|
                        0 <= a < b < self@.len() implies self@[a].0 != self@[b].0 by {
                        assert(old_view[a].0 != old_view[b].0);
                    }
                    assert forall|a: int| 0 <= a < self@.len() implies job_wf(
                        #[trigger] self@[a].1,
                    ) by {
                        assert(job_wf(old_view[a].1));
                    }
                }
                Ok(updated)
            },
            None => Err(
                PlanterError {
                    code: ErrorCode::NotFound,
                    message: String::from_str("job does not exist"),
                    detail: Some(job_id.0.clone()),
                },
            ),
        }
    }

    /// Marks every running job terminal at `now`, as the shutdown path
    /// does after signaling the children.
    pub fn shutdown_mark_all(&mut self, force: bool, now: u64)
        requires
            old(self).wf(),
        ensures
            final(self).wf(),
            final(self)@.len() == old(self)@.len(),
            forall|i: int|
                0 <= i < old(self)@.len() ==> #[trigger] final(self)@[i] == (
                old(self)@[i].0,
                if old(self)@[i].1.status is Running {
                    spec_signaled(old(self)@[i].1, force, now)
                } else {
                    old(self)@[i].1
                },
            ),
            forall|i: int|
                0 <= i < final(self)@.len() ==> !(#[trigger] final(self)@[i].1.status is Running),
    {
        let ghost old_view = self@;
        let n: usize = self.jobs.len();
        let mut i: usize = 0;
        while i < n
            invariant
                n == self@.len(),
                n == old_view.len(),
                i <= n,
                old(self)@ == old_view,
                old(self).wf(),
                forall|k: int| i <= k < n ==> #[trigger] self@[k] == old_view[k],
                forall|k: int|
                    0 <= k < i ==> #[trigger] self@[k] == (
                    old_view[k].0,
                    if old_view[k].1.status is Running {
                        spec_signaled(old_view[k].1, force, now)
                    } else {
                        old_view[k].1
                    },
                ),
            decreases n - i,
        {
            let current = self.jobs[i].1;
            let updated = match current.status {
                ExitStatus::Running => WorkerJob {
                    status: ExitStatus::Exited { code: None },
                    finished_at_ms: Some(now),
                    termination_reason: Some(
                        if force {
                            TerminationReason::ForcedKill
                        } else {
                            TerminationReason::TerminatedByUser
                        },
                    ),
                    pid: current.pid,
                },
                _ => current,
            };
            let ghost prev = self@;
            let key = self.jobs[i].0.clone();
            self.jobs[i] = (key, updated);
            proof {
                assert(self@ =~= prev.update(i as int, (prev[i as int].0, updated)));
            }
            i = i + 1;
        }
        proof {
            assert forall|a: int, b: int|
                0 <= a < b < self@.len() implies self@[a].0 != self@[b].0 by {
                assert(old_view[a].0 != old_view[b].0);
            }
        }
    }
}

/// An identifier that no entry holds is not found.
proof fn lemma_jobs_get_absent_all(m: Seq<(Seq<char>, WorkerJob)>, id: Seq<char>)
    ensures
        spec_jobs_get(m, id) is None ==> forall|i: int|
            0 <= i < m.len() ==> #[trigger] m[i].0 != id,
    decreases m.len(),
{
    if m.len() > 0 {
        lemma_jobs_get_absent_all(m.drop_first(), id);
        if spec_jobs_get(m, id) is None {
            assert forall|i: int| 0 <= i < m.len() implies #[trigger] m[i].0 != id by {
                if i > 0 {
                    assert(m.drop_first()[i - 1] == m[i]);
                }
            }
        }
    }
}

/// Every held identifier is found.
proof fn lemma_jobs_get_present(m: Seq<(Seq<char>, WorkerJob)>, i: int)
    requires
        0 <= i < m.len(),
    ensures
        spec_jobs_get(m, m[i].0) is Some,
    decreases i,
{
    if m[0].0 != m[i].0 {
        assert(m.drop_first()[i - 1] == m[i]);
        lemma_jobs_get_present(m.drop_first(), i - 1);
    }
}

/// Appending an unseen identifier makes it found with its job.
proof fn lemma_jobs_get_append(m: Seq<(Seq<char>, WorkerJob)>, id: Seq<char>, job: WorkerJob)
    requires
        spec_jobs_get(m, id) is None,
    ensures
        spec_jobs_get(m + seq![(id, job)], id) == Some(job),
    decreases m.len(),
{
    if m.len() == 0 {
        assert(m + seq![(id, job)] =~= seq![(id, job)]);
    } else {
        assert((m + seq![(id, job)]).drop_first() =~= m.drop_first() + seq![(id, job)]);
        lemma_jobs_get_append(m.drop_first(), id, job);
    }
}

/// Updating the first entry bound to an identifier updates its lookup.
proof fn lemma_jobs_get_update(m: Seq<(Seq<char>, WorkerJob)>, i: int, job: WorkerJob)
    requires
        0 <= i < m.len(),
        forall|k: int| 0 <= k < i ==> #[trigger] m[k].0 != m[i].0,
    ensures
        spec_jobs_get(m.update(i, (m[i].0, job)), m[i].0) == Some(job),
        forall|id: Seq<char>|
            id != m[i].0 ==> spec_jobs_get(m.update(i, (m[i].0, job)), id) == spec_jobs_get(m, id),
    decreases i,
{
    let u = m.update(i, (m[i].0, job));
    if i == 0 {
        assert forall|id: Seq<char>| id != m[0].0 implies spec_jobs_get(u, id) == spec_jobs_get(
            m,
            id,
        ) by {
            assert(u.drop_first() =~= m.drop_first());
        }
    } else {
        assert(u[0] == m[0]);
        assert(u.drop_first() =~= m.drop_first().update(i - 1, (m[i].0, job)));
        assert(m.drop_first()[i - 1] == m[i]);
        assert forall|k: int| 0 <= k < i - 1 implies #[trigger] m.drop_first()[k].0 != m[i].0 by {
            assert(m.drop_first()[k] == m[k + 1]);
        }
        lemma_jobs_get_update(m.drop_first(), i - 1, job);
        assert forall|id: Seq<char>| id != m[i].0 implies spec_jobs_get(u, id) == spec_jobs_get(
            m,
            id,
        ) by {
            if id != m[0].0 {
                assert(spec_jobs_get(u, id) == spec_jobs_get(u.drop_first(), id));
                assert(spec_jobs_get(m, id) == spec_jobs_get(m.drop_first(), id));
            }
        }
    }
}

} // verus!
