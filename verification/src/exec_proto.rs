//! Request and response types of the daemon-to-worker control protocol,
//! together with their ghost models.

use vstd::prelude::*;
use crate::env_map::EnvMap;
use crate::errors::ErrorCode;
use crate::ids::{JobId, SessionId};
use crate::protocol::{CommandSpec, CommandSpecV, ExitStatus, TerminationReason};

verus! {

/// Control protocol version expected by current workers.
pub const EXECD_PROTOCOL_VERSION: u32 = 1;

/// Request envelope on the worker control socket.
#[derive(Debug, PartialEq, Eq)]
pub struct ExecRequestEnvelope {
    /// Correlation identifier.
    pub req_id: u64,
    /// Typed request payload.
    pub body: ExecRequest,
}

/// Response envelope on the worker control socket.
#[derive(Debug, PartialEq, Eq)]
pub struct ExecResponseEnvelope {
    /// Correlation identifier echoed from the request.
    pub req_id: u64,
    /// Typed response payload.
    pub body: ExecResponse,
}

/// PTY operation acknowledged by the worker.
#[derive(Debug, Clone, Copy, PartialEq, Eq, Structural)]
pub enum ExecPtyAction {
    /// Session was created.
    Opened,
    /// Input bytes were accepted.
    Input,
    /// Terminal dimensions were updated.
    Resize,
    /// Session was closed.
    Closed,
}

/// Error classes reported by a worker.
#[derive(Debug, Clone, Copy, PartialEq, Eq, Structural)]
pub enum ExecErrorCode {
    /// The request was malformed or semantically invalid.
    InvalidRequest,
    /// The referenced resource does not exist.
    NotFound,
    /// The handshake failed authentication.
    Unauthorized,
    /// The worker is unavailable for this request.
    Unavailable,
    /// The operation is not supported by this runtime.
    Unsupported,
    /// An unexpected internal failure occurred.
    Internal,
}

/// Control requests accepted by a worker.
#[derive(Debug, PartialEq, Eq)]
pub enum ExecRequest {
    /// Mandatory first message authenticating the channel.
    Hello {
        /// Wire protocol version the daemon speaks.
        protocol: u32,
        /// Shared authentication token.
        auth_token: String,
        /// Cell this worker is expected to serve.
        cell_id: String,
    },
    /// Liveness probe.
    Ping {},
    /// Launches a job with redirected output files.
    RunJob {
        /// New job identifier.
        job_id: JobId,
        /// Command to execute.
        cmd: CommandSpec,
        /// Merged environment for the child process.
        env: EnvMap,
        /// Stdout log file path.
        stdout_path: String,
        /// Stderr log file path.
        stderr_path: String,
    },
    /// Queries the current status of a job.
    JobStatus {
        /// Target job identifier.
        job_id: JobId,
    },
    /// Signals a running job.
    JobSignal {
        /// Target job identifier.
        job_id: JobId,
        /// When true, kill immediately.
        force: bool,
    },
    /// Opens a PTY session.
    PtyOpen {
        /// Shell binary path.
        shell: String,
        /// Shell argument vector.
        args: Vec<String>,
        /// Optional working directory.
        cwd: Option<String>,
        /// Environment overrides.
        env: EnvMap,
        /// Initial terminal columns.
        cols: u16,
        /// Initial terminal rows.
        rows: u16,
    },
    /// Sends input bytes to a PTY session.
    PtyInput {
        /// Target PTY session identifier.
        session_id: SessionId,
        /// Raw input bytes.
        data: Vec<u8>,
    },
    /// Reads PTY output from an offset.
    PtyRead {
        /// Target PTY session identifier.
        session_id: SessionId,
        /// Byte offset to start reading from.
        offset: u64,
        /// Maximum bytes to return.
        max_bytes: u32,
        /// Whether to wait for additional bytes when at EOF.
        follow: bool,
        /// Follow wait timeout in milliseconds.
        wait_ms: u64,
    },
    /// Resizes a PTY session.
    PtyResize {
        /// Target PTY session identifier.
        session_id: SessionId,
        /// Terminal columns.
        cols: u16,
        /// Terminal rows.
        rows: u16,
    },
    /// Closes a PTY session.
    PtyClose {
        /// Target PTY session identifier.
        session_id: SessionId,
        /// When true, force-close the session.
        force: bool,
    },
    /// Samples resource usage of a job.
    UsageProbe {
        /// Target job identifier.
        job_id: JobId,
    },
    /// Terminates the worker after signaling its jobs.
    Shutdown {
        /// When true, kill jobs immediately.
        force: bool,
    },
}

/// Control responses returned by a worker.
#[derive(Debug, PartialEq, Eq)]
pub enum ExecResponse {
    /// Handshake acknowledgment.
    HelloAck {
        /// Wire protocol version the worker speaks.
        protocol: u32,
        /// Worker process identifier.
        worker_pid: u32,
    },
    /// Liveness acknowledgment.
    Pong {},
    /// Job launch acknowledgment.
    JobStarted {
        /// Started job identifier.
        job_id: JobId,
        /// Child process id when known.
        pid: Option<u32>,
    },
    /// Job status payload.
    JobStatus {
        /// Job identifier.
        job_id: JobId,
        /// Current exit status.
        status: ExitStatus,
        /// Finish timestamp when terminal.
        finished_at_ms: Option<u64>,
        /// Termination cause when known.
        termination_reason: Option<TerminationReason>,
    },
    /// PTY open acknowledgment.
    PtyOpened {
        /// Opened PTY session identifier.
        session_id: SessionId,
        /// Shell process id when known.
        pid: Option<u32>,
    },
    /// Chunk of PTY output data.
    PtyChunk {
        /// PTY session identifier.
        session_id: SessionId,
        /// Offset immediately after this chunk.
        offset: u64,
        /// Raw PTY bytes.
        data: Vec<u8>,
        /// True when no more bytes are currently buffered.
        eof: bool,
        /// True when the PTY process has exited.
        complete: bool,
        /// Exit code when complete.
        exit_code: Option<i32>,
    },
    /// PTY control acknowledgment.
    PtyAck {
        /// PTY session identifier.
        session_id: SessionId,
        /// Operation that was acknowledged.
        action: ExecPtyAction,
    },
    /// Point-in-time resource usage sample.
    UsageSample {
        /// Job identifier.
        job_id: JobId,
        /// Resident set size in bytes.
        rss_bytes: Option<u64>,
        /// CPU usage in nanoseconds.
        cpu_nanos: Option<u64>,
        /// Sample timestamp in UNIX milliseconds.
        timestamp_ms: u64,
    },
    /// Structured error response.
    ExecError {
        /// High-level error category.
        code: ExecErrorCode,
        /// Human-readable summary.
        message: String,
        /// Optional extended context.
        detail: Option<String>,
    },
}

/// Model of a worker request body.
pub ghost enum ExecRequestV {
    /// Handshake.
    Hello { protocol: u32, auth_token: Seq<char>, cell_id: Seq<char> },
    /// Liveness probe.
    Ping,
    /// Job launch.
    RunJob {
        job_id: Seq<char>,
        cmd: CommandSpecV,
        env: Seq<(Seq<char>, Seq<char>)>,
        stdout_path: Seq<char>,
        stderr_path: Seq<char>,
    },
    /// Job status query.
    JobStatus { job_id: Seq<char> },
    /// Job signal.
    JobSignal { job_id: Seq<char>, force: bool },
    /// PTY open.
    PtyOpen {
        shell: Seq<char>,
        args: Seq<Seq<char>>,
        cwd: Option<Seq<char>>,
        env: Seq<(Seq<char>, Seq<char>)>,
        cols: u16,
        rows: u16,
    },
    /// PTY input.
    PtyInput { session_id: u64, data: Seq<u8> },
    /// PTY read.
    PtyRead { session_id: u64, offset: u64, max_bytes: u32, follow: bool, wait_ms: u64 },
    /// PTY resize.
    PtyResize { session_id: u64, cols: u16, rows: u16 },
    /// PTY close.
    PtyClose { session_id: u64, force: bool },
    /// Usage probe.
    UsageProbe { job_id: Seq<char> },
    /// Shutdown.
    Shutdown { force: bool },
}

/// Model of a worker response body.
pub ghost enum ExecResponseV {
    /// Handshake acknowledgment.
    HelloAck { protocol: u32, worker_pid: u32 },
    /// Liveness acknowledgment.
    Pong,
    /// Job launched.
    JobStarted { job_id: Seq<char>, pid: Option<u32> },
    /// Job status.
    JobStatus {
        job_id: Seq<char>,
        status: ExitStatus,
        finished_at_ms: Option<u64>,
        termination_reason: Option<TerminationReason>,
    },
    /// PTY opened.
    PtyOpened { session_id: u64, pid: Option<u32> },
    /// PTY chunk.
    PtyChunk {
        session_id: u64,
        offset: u64,
        data: Seq<u8>,
        eof: bool,
        complete: bool,
        exit_code: Option<i32>,
    },
    /// PTY acknowledgment.
    PtyAck { session_id: u64, action: ExecPtyAction },
    /// Usage sample.
    UsageSample {
        job_id: Seq<char>,
        rss_bytes: Option<u64>,
        cpu_nanos: Option<u64>,
        timestamp_ms: u64,
    },
    /// Error outcome.
    ExecError { code: ExecErrorCode, message: Seq<char>, detail: Option<Seq<char>> },
}

/// Model of a worker envelope.
pub ghost struct ExecEnvelopeV<B> {
    /// Correlation identifier.
    pub req_id: u64,
    /// Body model.
    pub body: B,
}

impl View for ExecRequest {
    type V = ExecRequestV;

    open spec fn view(&self) -> ExecRequestV {
        match self {
            ExecRequest::Hello { protocol, auth_token, cell_id } => ExecRequestV::Hello {
                protocol: *protocol,
                auth_token: auth_token@,
                cell_id: cell_id@,
            },
            ExecRequest::Ping {  } => ExecRequestV::Ping,
            ExecRequest::RunJob { job_id, cmd, env, stdout_path, stderr_path } => {
                ExecRequestV::RunJob {
                    job_id: job_id@,
                    cmd: cmd@,
                    env: env@,
                    stdout_path: stdout_path@,
                    stderr_path: stderr_path@,
                }
            },
            ExecRequest::JobStatus { job_id } => ExecRequestV::JobStatus { job_id: job_id@ },
            ExecRequest::JobSignal { job_id, force } => ExecRequestV::JobSignal {
                job_id: job_id@,
                force: *force,
            },
            ExecRequest::PtyOpen { shell, args, cwd, env, cols, rows } => ExecRequestV::PtyOpen {
                shell: shell@,
                args: args.deep_view(),
                cwd: cwd.deep_view(),
                env: env@,
                cols: *cols,
                rows: *rows,
            },
            ExecRequest::PtyInput { session_id, data } => ExecRequestV::PtyInput {
                session_id: session_id.0,
                data: data@,
            },
            ExecRequest::PtyRead { session_id, offset, max_bytes, follow, wait_ms } => {
                ExecRequestV::PtyRead {
                    session_id: session_id.0,
                    offset: *offset,
                    max_bytes: *max_bytes,
                    follow: *follow,
                    wait_ms: *wait_ms,
                }
            },
            ExecRequest::PtyResize { session_id, cols, rows } => ExecRequestV::PtyResize {
                session_id: session_id.0,
                cols: *cols,
                rows: *rows,
            },
            ExecRequest::PtyClose { session_id, force } => ExecRequestV::PtyClose {
                session_id: session_id.0,
                force: *force,
            },
            ExecRequest::UsageProbe { job_id } => ExecRequestV::UsageProbe { job_id: job_id@ },
            ExecRequest::Shutdown { force } => ExecRequestV::Shutdown { force: *force },
        }
    }
}

impl View for ExecResponse {
    type V = ExecResponseV;

    open spec fn view(&self) -> ExecResponseV {
        match self {
            ExecResponse::HelloAck { protocol, worker_pid } => ExecResponseV::HelloAck {
                protocol: *protocol,
                worker_pid: *worker_pid,
            },
            ExecResponse::Pong {  } => ExecResponseV::Pong,
            ExecResponse::JobStarted { job_id, pid } => ExecResponseV::JobStarted {
                job_id: job_id@,
                pid: *pid,
            },
            ExecResponse::JobStatus { job_id, status, finished_at_ms, termination_reason } => {
                ExecResponseV::JobStatus {
                    job_id: job_id@,
                    status: *status,
                    finished_at_ms: *finished_at_ms,
                    termination_reason: *termination_reason,
                }
            },
            ExecResponse::PtyOpened { session_id, pid } => ExecResponseV::PtyOpened {
                session_id: session_id.0,
                pid: *pid,
            },
            ExecResponse::PtyChunk { session_id, offset, data, eof, complete, exit_code } => {
                ExecResponseV::PtyChunk {
                    session_id: session_id.0,
                    offset: *offset,
                    data: data@,
                    eof: *eof,
                    complete: *complete,
                    exit_code: *exit_code,
                }
            },
            ExecResponse::PtyAck { session_id, action } => ExecResponseV::PtyAck {
                session_id: session_id.0,
                action: *action,
            },
            ExecResponse::UsageSample { job_id, rss_bytes, cpu_nanos, timestamp_ms } => {
                ExecResponseV::UsageSample {
                    job_id: job_id@,
                    rss_bytes: *rss_bytes,
                    cpu_nanos: *cpu_nanos,
                    timestamp_ms: *timestamp_ms,
                }
            },
            ExecResponse::ExecError { code, message, detail } => ExecResponseV::ExecError {
                code: *code,
                message: message@,
                detail: detail.deep_view(),
            },
        }
    }
}

impl View for ExecRequestEnvelope {
    type V = ExecEnvelopeV<ExecRequestV>;

    open spec fn view(&self) -> ExecEnvelopeV<ExecRequestV> {
        ExecEnvelopeV { req_id: self.req_id, body: self.body@ }
    }
}

impl View for ExecResponseEnvelope {
    type V = ExecEnvelopeV<ExecResponseV>;

    open spec fn view(&self) -> ExecEnvelopeV<ExecResponseV> {
        ExecEnvelopeV { req_id: self.req_id, body: self.body@ }
    }
}

/// Maps a client-facing error code onto the worker error code set.
impl From<ErrorCode> for ExecErrorCode {
    fn from(value: ErrorCode) -> (r: Self)
        ensures
            r == spec_exec_error_code_from(value),
    {
        match value {
            ErrorCode::InvalidRequest => ExecErrorCode::InvalidRequest,
            ErrorCode::NotFound => ExecErrorCode::NotFound,
            ErrorCode::Timeout => ExecErrorCode::Unavailable,
            ErrorCode::ProtocolMismatch => ExecErrorCode::InvalidRequest,
            ErrorCode::Unavailable => ExecErrorCode::Unavailable,
            ErrorCode::Internal => ExecErrorCode::Internal,
        }
    }
}

/// Worker error code that stands for each client error code.
pub open spec fn spec_exec_error_code_from(value: ErrorCode) -> ExecErrorCode {
    match value {
        ErrorCode::InvalidRequest => ExecErrorCode::InvalidRequest,
        ErrorCode::NotFound => ExecErrorCode::NotFound,
        ErrorCode::Timeout => ExecErrorCode::Unavailable,
        ErrorCode::ProtocolMismatch => ExecErrorCode::InvalidRequest,
        ErrorCode::Unavailable => ExecErrorCode::Unavailable,
        ErrorCode::Internal => ExecErrorCode::Internal,
    }
}

impl vstd::std_specs::convert::FromSpecImpl<ErrorCode> for ExecErrorCode {
    open spec fn obeys_from_spec() -> bool {
        true
    }

    open spec fn from_spec(t: ErrorCode) -> ExecErrorCode {
        spec_exec_error_code_from(t)
    }
}

} // verus!
