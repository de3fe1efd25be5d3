//! Daemon-side state bookkeeping: identifier generation, persisted job
//! records, and the pure decision logic of cell removal, job kill and
//! log reads.  The surrounding disk and worker I/O hands these
//! functions plain values and carries their results out.

use vstd::prelude::*;
use vstd::string::StringExecFns;
use crate::env_map::EnvMap;
use crate::errors::{ErrorCode, PlanterError};
use crate::exec_proto::ExecResponse;
use crate::ids::{CellId, JobId};
use crate::protocol::{CommandSpec, ExitStatus, JobInfo, TerminationReason};

verus! {

/// Decimal digit character for `d`.
pub open spec fn spec_digit(d: int) -> char {
    if d == 0 {
        '0'
    } else if d == 1 {
        '1'
    } else if d == 2 {
        '2'
    } else if d == 3 {
        '3'
    } else if d == 4 {
        '4'
    } else if d == 5 {
        '5'
    } else if d == 6 {
        '6'
    } else if d == 7 {
        '7'
    } else if d == 8 {
        '8'
    } else {
        '9'
    }
}

/// Decimal digits of `v`, most significant first.
pub open spec fn spec_u64_digits(v: u64) -> Seq<char>
    decreases v,
{
    if v < 10 {
        seq![spec_digit(v as int)]
    } else {
        spec_u64_digits((v / 10) as u64) + seq![spec_digit((v % 10) as int)]
    }
}

/// One decimal digit as a string slice.
fn digit_str(d: u64) -> (r: &'static str)
    requires
        d < 10,
    ensures
        r@ == seq![spec_digit(d as int)],
{
    proof {
        reveal_strlit("0");
        reveal_strlit("1");
        reveal_strlit("2");
        reveal_strlit("3");
        reveal_strlit("4");
        reveal_strlit("5");
        reveal_strlit("6");
        reveal_strlit("7");
        reveal_strlit("8");
        reveal_strlit("9");
        assert("0"@ =~= seq!['0']);
        assert("1"@ =~= seq!['1']);
        assert("2"@ =~= seq!['2']);
        assert("3"@ =~= seq!['3']);
        assert("4"@ =~= seq!['4']);
        assert("5"@ =~= seq!['5']);
        assert("6"@ =~= seq!['6']);
        assert("7"@ =~= seq!['7']);
        assert("8"@ =~= seq!['8']);
        assert("9"@ =~= seq!['9']);
    }
    if d == 0 {
        "0"
    } else if d == 1 {
        "1"
    } else if d == 2 {
        "2"
    } else if d == 3 {
        "3"
    } else if d == 4 {
        "4"
    } else if d == 5 {
        "5"
    } else if d == 6 {
        "6"
    } else if d == 7 {
        "7"
    } else if d == 8 {
        "8"
    } else {
        "9"
    }
}

/// Renders `v` in decimal.
pub fn u64_to_string(v: u64) -> (r: String)
    ensures
        r@ == spec_u64_digits(v),
    decreases v,
{
    if v < 10 {
        digit_str(v).to_owned()
    } else {
        let mut s = u64_to_string(v / 10);
        s.append(digit_str(v % 10));
        s
    }
}

/// Cell identifier generated for counter value `n`.
pub fn cell_id_for(n: u64) -> (r: CellId)
    ensures
        r@ == "cell-"@ + spec_u64_digits(n),
{
    let mut s = String::from_str("cell-");
    s.append(u64_to_string(n).as_str());
    CellId(s)
}

/// Job identifier generated for counter value `n`.
pub fn job_id_for(n: u64) -> (r: JobId)
    ensures
        r@ == "job-"@ + spec_u64_digits(n),
{
    let mut s = String::from_str("job-");
    s.append(u64_to_string(n).as_str());
    JobId(s)
}

/// The dedicated logical cell that owns all PTY sessions.
pub fn default_pty_cell_id() -> (r: CellId)
    ensures
        r@ == "cell-pty-default"@,
{
    CellId(String::from_str("cell-pty-default"))
}

/// Stdout log path for a job under the logs directory.
pub fn stdout_path_for(logs_dir: &str, job_id: &JobId) -> (r: String)
    ensures
        r@ == logs_dir@ + "/"@ + job_id@ + ".stdout.log"@,
{
    let mut s = logs_dir.to_owned();
    s.append("/");
    s.append(job_id.0.as_str());
    s.append(".stdout.log");
    s
}

/// Stderr log path for a job under the logs directory.
pub fn stderr_path_for(logs_dir: &str, job_id: &JobId) -> (r: String)
    ensures
        r@ == logs_dir@ + "/"@ + job_id@ + ".stderr.log"@,
{
    let mut s = logs_dir.to_owned();
    s.append("/");
    s.append(job_id.0.as_str());
    s.append(".stderr.log");
    s
}

/// Builds the error payload for a failed I/O action.
pub fn io_to_error(action: &str, detail: String) -> (r: PlanterError)
    ensures
        r.code == ErrorCode::Internal,
        r.message@ == action@,
        r.detail matches Some(d) && d@ == detail@,
{
    PlanterError { code: ErrorCode::Internal, message: action.to_owned(), detail: Some(detail) }
}

/// Maps a platform backend error onto the daemon error taxonomy: I/O
/// faults are internal, invalid inputs are invalid requests, and
/// unsupported operations are internal with the reason as detail.
pub fn platform_to_planter_error(err: crate::platform::PlatformError) -> (r: PlanterError)
    ensures
        err matches crate::platform::PlatformError::Io(d) ==> ({
            &&& r.code == ErrorCode::Internal
            &&& r.detail matches Some(x) && x@ == d@
        }),
        err matches crate::platform::PlatformError::InvalidInput(m) ==> ({
            &&& r.code == ErrorCode::InvalidRequest
            &&& r.message@ == m@
            &&& r.detail is None
        }),
        err matches crate::platform::PlatformError::Unsupported(m) ==> ({
            &&& r.code == ErrorCode::Internal
            &&& r.detail matches Some(x) && x@ == m@
        }),
{
    match err {
        crate::platform::PlatformError::Io(detail) => PlanterError {
            code: ErrorCode::Internal,
            message: String::from_str("platform io"),
            detail: Some(detail),
        },
        crate::platform::PlatformError::InvalidInput(message) => PlanterError {
            code: ErrorCode::InvalidRequest,
            message,
            detail: None,
        },
        crate::platform::PlatformError::Unsupported(message) => PlanterError {
            code: ErrorCode::Internal,
            message: String::from_str("platform unsupported"),
            detail: Some(message),
        },
    }
}

/// Tag naming an `ExecResponse` form.
pub open spec fn spec_exec_response_kind(r: ExecResponse) -> Seq<char> {
    match r {
        ExecResponse::HelloAck { .. } => "hello_ack"@,
        ExecResponse::Pong { .. } => "pong"@,
        ExecResponse::JobStarted { .. } => "job_started"@,
        ExecResponse::JobStatus { .. } => "job_status"@,
        ExecResponse::PtyOpened { .. } => "pty_opened"@,
        ExecResponse::PtyChunk { .. } => "pty_chunk"@,
        ExecResponse::PtyAck { .. } => "pty_ack"@,
        ExecResponse::UsageSample { .. } => "usage_sample"@,
        ExecResponse::ExecError { .. } => "exec_error"@,
    }
}

/// Names the form of a worker response.
pub fn exec_response_kind(r: &ExecResponse) -> (k: String)
    ensures
        k@ == spec_exec_response_kind(*r),
{
    match r {
        ExecResponse::HelloAck { .. } => String::from_str("hello_ack"),
        ExecResponse::Pong { .. } => String::from_str("pong"),
        ExecResponse::JobStarted { .. } => String::from_str("job_started"),
        ExecResponse::JobStatus { .. } => String::from_str("job_status"),
        ExecResponse::PtyOpened { .. } => String::from_str("pty_opened"),
        ExecResponse::PtyChunk { .. } => String::from_str("pty_chunk"),
        ExecResponse::PtyAck { .. } => String::from_str("pty_ack"),
        ExecResponse::UsageSample { .. } => String::from_str("usage_sample"),
        ExecResponse::ExecError { .. } => String::from_str("exec_error"),
    }
}

/// Builds the error payload for a worker response of an unexpected form.
pub fn unexpected_worker_response(action: &str, response: &ExecResponse) -> (r: PlanterError)
    ensures
        r.code == ErrorCode::Internal,
        r.message@ == "unexpected worker response for "@ + action@,
        r.detail matches Some(d) && d@ == spec_exec_response_kind(*response),
{
    let mut message = String::from_str("unexpected worker response for ");
    message.append(action);
    PlanterError {
        code: ErrorCode::Internal,
        message,
        detail: Some(exec_response_kind(response)),
    }
}

/// Internal persisted job metadata representation on disk.
#[derive(Debug, PartialEq, Eq)]
pub struct StoredJobInfo {
    /// Job identifier.
    pub id: JobId,
    /// Owning cell identifier.
    pub cell_id: CellId,
    /// Command specification.
    pub command: CommandSpec,
    /// Stdout log file path.
    pub stdout_path: String,
    /// Stderr log file path.
    pub stderr_path: String,
    /// Job start timestamp.
    pub started_at_ms: u64,
    /// Job finish timestamp if complete.
    pub finished_at_ms: Option<u64>,
    /// Child process id if known.
    pub pid: Option<u32>,
    /// Current exit status.
    pub status: ExitStatus,
    /// Optional termination cause.
    pub termination_reason: Option<TerminationReason>,
}

/// A stored job is running exactly while it has no finish timestamp.
pub open spec fn stored_job_wf(j: StoredJobInfo) -> bool {
    (j.status is Running) <==> (j.finished_at_ms is None)
}

/// A public job record is running exactly while it has no finish
/// timestamp.
pub open spec fn job_info_wf(j: JobInfo) -> bool {
    (j.status is Running) <==> (j.finished_at_ms is None)
}

impl Clone for CommandSpec {
    fn clone(&self) -> (r: Self)
        ensures
            r@ == self@,
    {
        let n: usize = self.argv.len();
        let mut argv: Vec<String> = Vec::new();
        let mut i: usize = 0;
        while i < n
            invariant
                n == self.argv@.len(),
                i <= n,
                argv@.len() == i,
                forall|k: int| 0 <= k < i ==> argv@[k]@ == #[trigger] self.argv@[k]@,
            decreases n - i,
        {
            argv.push(self.argv[i].clone());
            i = i + 1;
        }
        let cwd = match &self.cwd {
            Some(c) => Some(c.clone()),
            None => None,
        };
        let r = CommandSpec { argv, cwd, env: self.env.clone(), limits: self.limits };
        proof {
            assert(r.argv.deep_view() =~= self.argv.deep_view());
            assert(r.cwd.deep_view() =~= self.cwd.deep_view());
        }
        r
    }
}

impl StoredJobInfo {
    /// Converts the stored representation to the wire job record.
    ///
    /// Every shared field carries over unchanged; only the log paths
    /// stay behind.
    pub fn to_public(&self) -> (r: JobInfo)
        ensures
            r.id@ == self.id@,
            r.cell_id@ == self.cell_id@,
            r.command@ == self.command@,
            r.started_at_ms == self.started_at_ms,
            r.finished_at_ms == self.finished_at_ms,
            r.pid == self.pid,
            r.status == self.status,
            r.termination_reason == self.termination_reason,
            stored_job_wf(*self) ==> job_info_wf(r),
    {
        JobInfo {
            id: self.id.clone(),
            cell_id: self.cell_id.clone(),
            command: self.command.clone(),
            started_at_ms: self.started_at_ms,
            finished_at_ms: self.finished_at_ms,
            pid: self.pid,
            status: self.status,
            termination_reason: self.termination_reason,
        }
    }
}

/// Rejection of an empty cell name, the one validation `CellCreate`
/// performs.
pub fn check_cell_spec_name(name_is_blank: bool) -> (r: Result<(), PlanterError>)
    ensures
        name_is_blank <==> (r matches Err(e) && e.code == ErrorCode::InvalidRequest),
        !name_is_blank <==> r is Ok,
{
    if name_is_blank {
        Err(
            PlanterError {
                code: ErrorCode::InvalidRequest,
                message: String::from_str("cell name cannot be empty"),
                detail: None,
            },
        )
    } else {
        Ok(())
    }
}

/// The signal name a kill request uses: KILL when forced, TERM otherwise.
pub fn kill_signal(force: bool) -> (r: String)
    ensures
        force ==> r@ == "KILL"@,
        !force ==> r@ == "TERM"@,
{
    if force {
        String::from_str("KILL")
    } else {
        String::from_str("TERM")
    }
}

/// Folds a worker's signal reply into a stored job record: the reported
/// status is taken as is, a missing finish timestamp defaults to `now`,
/// and a missing termination reason defaults according to `force`.
pub fn apply_kill_reply(
    job: &mut StoredJobInfo,
    status: ExitStatus,
    finished_at_ms: Option<u64>,
    termination_reason: Option<TerminationReason>,
    force: bool,
    now: u64,
)
    ensures
        final(job).status == status,
        final(job).finished_at_ms == (match finished_at_ms {
            Some(t) => Some(t),
            None => Some(now),
        }),
        final(job).termination_reason == (match termination_reason {
            Some(tr) => Some(tr),
            None => Some(
                if force {
                    TerminationReason::ForcedKill
                } else {
                    TerminationReason::TerminatedByUser
                },
            ),
        }),
        final(job).id == old(job).id,
        final(job).cell_id == old(job).cell_id,
        final(job).command == old(job).command,
        final(job).stdout_path == old(job).stdout_path,
        final(job).stderr_path == old(job).stderr_path,
        final(job).started_at_ms == old(job).started_at_ms,
        final(job).pid == old(job).pid,
{
    job.status = status;
    job.finished_at_ms = match finished_at_ms {
        Some(t) => Some(t),
        None => Some(now),
    };
    job.termination_reason = match termination_reason {
        Some(tr) => Some(tr),
        None => Some(
            if force {
                TerminationReason::ForcedKill
            } else {
                TerminationReason::TerminatedByUser
            },
        ),
    };
}

/// There is a running job among the given records.
pub open spec fn spec_any_running(jobs: Seq<ExitStatus>) -> bool {
    exists|i: int| 0 <= i < jobs.len() && (#[trigger] jobs[i]) is Running
}

/// Decides a cell removal and produces the terminal states to persist.
///
/// A missing cell is not found.  A cell with at least one running job is
/// refused as an invalid request unless `force` is set.  On success
/// every running job's status becomes exited without a code, force
/// killed at `now`; the caller then rewrites those records and removes
/// the cell directory, so no running record for the cell survives.
pub fn remove_cell_plan(cell_exists: bool, statuses: &Vec<ExitStatus>, force: bool, now: u64) -> (r:
    Result<Vec<(ExitStatus, Option<u64>, Option<TerminationReason>)>, PlanterError>)
    ensures
        !cell_exists ==> (r matches Err(e) && e.code == ErrorCode::NotFound),
        cell_exists && spec_any_running(statuses@) && !force ==> (r matches Err(e) && e.code
            == ErrorCode::InvalidRequest),
        cell_exists && (force || !spec_any_running(statuses@)) ==> (r matches Ok(updated)
            && updated@.len() == statuses@.len() && (forall|i: int|
            0 <= i < statuses@.len() ==> #[trigger] updated@[i] == (
            if statuses@[i] is Running {
                (
                    ExitStatus::Exited { code: None },
                    Some(now),
                    Some(TerminationReason::ForcedKill),
                )
            } else {
                (statuses@[i], None, None)
            })) && (forall|i: int|
            0 <= i < updated@.len() ==> !((#[trigger] updated@[i]).0 is Running))),
{
    if !cell_exists {
        return Err(
            PlanterError {
                code: ErrorCode::NotFound,
                message: String::from_str("cell does not exist"),
                detail: None,
            },
        );
    }
    let n: usize = statuses.len();
    let mut any_running = false;
    let mut i: usize = 0;
    while i < n
        invariant
            n == statuses@.len(),
            i <= n,
            any_running == spec_any_running(statuses@.take(i as int)),
        decreases n - i,
    {
        proof {
            assert(statuses@.take(i as int + 1) =~= statuses@.take(i as int) + seq![
                statuses@[i as int],
            ]);
            assert(statuses@.take(i as int + 1)[i as int] == statuses@[i as int]);
            assert forall|k: int|
                0 <= k < i implies statuses@.take(i as int + 1)[k] == statuses@.take(i as int)[k]
                by {}
        }
        if matches!(statuses[i], ExitStatus::Running) {
            any_running = true;
        }
        i = i + 1;
    }
    proof {
        assert(statuses@.take(n as int) =~= statuses@);
    }
    if any_running && !force {
        return Err(
            PlanterError {
                code: ErrorCode::InvalidRequest,
                message: String::from_str("cell has running jobs; pass force to remove"),
                detail: None,
            },
        );
    }
    let mut updated: Vec<(ExitStatus, Option<u64>, Option<TerminationReason>)> = Vec::new();
    let mut i: usize = 0;
    while i < n
        invariant
            n == statuses@.len(),
            i <= n,
            updated@.len() == i,
            forall|k: int|
                0 <= k < i ==> #[trigger] updated@[k] == (
                if statuses@[k] is Running {
                    (
                        ExitStatus::Exited { code: None },
                        Some(now),
                        Some(TerminationReason::ForcedKill),
                    )
                } else {
                    (statuses@[k], None, None)
                }),
        decreases n - i,
    {
        let entry = match statuses[i] {
            ExitStatus::Running => (
                ExitStatus::Exited { code: None },
                Some(now),
                Some(TerminationReason::ForcedKill),
            ),
            other => (other, None, None),
        };
        updated.push(entry);
        i = i + 1;
    }
    Ok(updated)
}

/// One step of the log follow loop.
#[derive(Debug, Clone, Copy, PartialEq, Eq)]
pub enum LogsStep {
    /// Return the chunk with the given flags.
    Finish {
        /// No more bytes are currently available.
        eof: bool,
        /// The stream is complete and closed.
        complete: bool,
    },
    /// Sleep and read again.
    Retry,
}

/// Result payload for log read operations.
#[derive(Debug, PartialEq, Eq)]
pub struct LogsReadResult {
    /// Requested offset.
    pub offset: u64,
    /// Returned log bytes.
    pub data: Vec<u8>,
    /// True when no more bytes are currently available.
    pub eof: bool,
    /// True when stream is complete and closed.
    pub complete: bool,
}

/// Result payload for job kill operations.
#[derive(Debug, PartialEq, Eq)]
pub struct JobKillResult {
    /// Updated job metadata.
    pub job: JobInfo,
    /// Signal name applied to the process.
    pub signal: String,
}

/// Slice of the log file selected by an offset-bounded read: the byte
/// range `[min(offset, len), min(offset + clamp(max_bytes), len))`.
pub fn read_log_chunk(bytes: &[u8], offset: u64, max_bytes: u32) -> (r: (Vec<u8>, u64))
    ensures
        r.1 == bytes@.len(),
        ({
            let cap = if max_bytes == 0 {
                1int
            } else {
                max_bytes as int
            };
            let start = if offset <= bytes@.len() {
                offset as int
            } else {
                bytes@.len() as int
            };
            let end = if start + cap <= bytes@.len() {
                start + cap
            } else {
                bytes@.len() as int
            };
            r.0@ == bytes@.subrange(start, end)
        }),
{
    let len: usize = bytes.len();
    let cap: usize = if max_bytes == 0 {
        1
    } else {
        max_bytes as usize
    };
    let start: usize = if offset <= len as u64 {
        offset as usize
    } else {
        len
    };
    let end: usize = if cap <= len - start {
        start + cap
    } else {
        len
    };
    (crate::textutil::copy_range(bytes, start, end), len as u64)
}

/// Decides one iteration of the log follow loop, mirroring the read
/// semantics: data returns immediately; an empty read on a finished job
/// is a complete end of stream; without follow an empty read reports
/// the current end; an expired wait gives up; otherwise the caller
/// sleeps and retries.
pub fn logs_read_step(
    data_len: u64,
    file_len: u64,
    offset: u64,
    running: bool,
    follow: bool,
    expired: bool,
) -> (r: LogsStep)
    requires
        offset + data_len <= u64::MAX,
    ensures
        ({
            let at_end = offset + data_len >= file_len;
            &&& data_len > 0 ==> r == (LogsStep::Finish { eof: at_end, complete: at_end
                && !running })
            &&& data_len == 0 && !running ==> r == (LogsStep::Finish {
                eof: true,
                complete: true,
            })
            &&& data_len == 0 && running && !follow ==> r == (LogsStep::Finish {
                eof: at_end,
                complete: false,
            })
            &&& data_len == 0 && running && follow && expired ==> r == (LogsStep::Finish {
                eof: true,
                complete: false,
            })
            &&& data_len == 0 && running && follow && !expired ==> r == LogsStep::Retry
        }),
{
    let eof = offset + data_len >= file_len;
    if data_len > 0 {
        LogsStep::Finish { eof, complete: eof && !running }
    } else if !running {
        LogsStep::Finish { eof: true, complete: true }
    } else if !follow {
        LogsStep::Finish { eof, complete: false }
    } else if expired {
        LogsStep::Finish { eof: true, complete: false }
    } else {
        LogsStep::Retry
    }
}

/// Merged environment a job runs with: the cell environment with the
/// command's overrides applied on top.
pub fn merged_job_env(cell_env: &EnvMap, cmd_env: &EnvMap) -> (r: EnvMap)
    ensures
        r@ == crate::env_map::spec_env_merge(cell_env@, cmd_env@),
        cell_env.wf() ==> r.wf(),
{
    cell_env.merged(cmd_env)
}

} // verus!
