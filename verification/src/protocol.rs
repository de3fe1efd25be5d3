//! Request and response types of the client-facing protocol, together
//! with the ghost models the codec proofs speak about.

use vstd::prelude::*;
use crate::env_map::EnvMap;
use crate::errors::ErrorCode;
use crate::ids::{CellId, JobId, ReqId, SessionId};

verus! {

/// Request envelope carrying metadata plus a typed request body.
#[derive(Debug, PartialEq, Eq)]
pub struct RequestEnvelope<T> {
    /// Client-generated request identifier.
    pub req_id: ReqId,
    /// Typed request payload.
    pub body: T,
}

/// Response envelope carrying metadata plus a typed response body.
#[derive(Debug, PartialEq, Eq)]
pub struct ResponseEnvelope<T> {
    /// Request identifier echoed from the request envelope.
    pub req_id: ReqId,
    /// Typed response payload.
    pub body: T,
}

/// Defines a new cell's metadata and base environment.
#[derive(Debug, PartialEq, Eq)]
pub struct CellSpec {
    /// Friendly cell name.
    pub name: String,
    /// Environment variables applied to all cell jobs.
    pub env: EnvMap,
}

/// Optional limits that apply to a launched job.
#[derive(Debug, Clone, Copy, PartialEq, Eq)]
pub struct ResourceLimits {
    /// Maximum runtime in milliseconds before timeout.
    pub timeout_ms: Option<u64>,
    /// Maximum resident set size in bytes.
    pub max_rss_bytes: Option<u64>,
    /// Maximum accumulated log bytes across streams.
    pub max_log_bytes: Option<u64>,
}

/// Command launch specification for job execution.
#[derive(Debug, PartialEq, Eq)]
pub struct CommandSpec {
    /// Executable and argument vector.
    pub argv: Vec<String>,
    /// Optional working directory.
    pub cwd: Option<String>,
    /// Per-command environment overrides.
    pub env: EnvMap,
    /// Optional resource limits.
    pub limits: Option<ResourceLimits>,
}

/// Materialized metadata for a created cell.
#[derive(Debug, PartialEq, Eq)]
pub struct CellInfo {
    /// Stable cell identifier.
    pub id: CellId,
    /// Source specification used to create the cell.
    pub spec: CellSpec,
    /// Creation timestamp in UNIX milliseconds.
    pub created_at_ms: u64,
    /// Absolute path to the cell directory.
    pub dir: String,
}

/// Why a job transitioned out of running state.
#[derive(Debug, Clone, Copy, PartialEq, Eq, Structural)]
pub enum TerminationReason {
    /// Process exited on its own.
    Exited,
    /// User requested a graceful termination.
    TerminatedByUser,
    /// User requested force kill.
    ForcedKill,
    /// Runtime timeout limit was reached.
    Timeout,
    /// Memory limit was exceeded.
    MemoryLimit,
    /// Log quota was exceeded.
    LogQuota,
    /// Cause was not determined.
    Unknown,
}

/// Current process completion state.
#[derive(Debug, Clone, Copy, PartialEq, Eq)]
pub enum ExitStatus {
    /// Process is still running.
    Running,
    /// Process has exited with an optional code.
    Exited {
        /// Exit code reported by the OS, when one exists.
        code: Option<i32>,
    },
}

/// Log stream selector for read operations.
#[derive(Debug, Clone, Copy, PartialEq, Eq, Structural)]
pub enum LogStream {
    /// Standard output stream.
    Stdout,
    /// Standard error stream.
    Stderr,
}

/// PTY operation acknowledged by the daemon.
#[derive(Debug, Clone, Copy, PartialEq, Eq, Structural)]
pub enum PtyAction {
    /// Session was created.
    Opened,
    /// Input bytes were accepted.
    Input,
    /// Terminal dimensions were updated.
    Resize,
    /// Session was closed.
    Closed,
}

/// Materialized metadata for a launched job.
#[derive(Debug, PartialEq, Eq)]
pub struct JobInfo {
    /// Stable job identifier.
    pub id: JobId,
    /// Parent cell identifier.
    pub cell_id: CellId,
    /// Command specification used for launch.
    pub command: CommandSpec,
    /// Start timestamp in UNIX milliseconds.
    pub started_at_ms: u64,
    /// Optional finish timestamp in UNIX milliseconds.
    pub finished_at_ms: Option<u64>,
    /// Child process id when known.
    pub pid: Option<u32>,
    /// Current job exit status.
    pub status: ExitStatus,
    /// Optional reason for termination.
    pub termination_reason: Option<TerminationReason>,
}

/// RPC request variants supported by the daemon.
#[derive(Debug, PartialEq, Eq)]
pub enum Request {
    /// Returns daemon and protocol version metadata.
    Version {},
    /// Returns liveness status.
    Health {},
    /// Creates a new cell.
    CellCreate {
        /// Cell creation specification.
        spec: CellSpec,
    },
    /// Starts a new job within a cell.
    JobRun {
        /// Target cell identifier.
        cell_id: CellId,
        /// Command to execute.
        cmd: CommandSpec,
    },
    /// Fetches current job status.
    JobStatus {
        /// Target job identifier.
        job_id: JobId,
    },
    /// Requests job termination.
    JobKill {
        /// Target job identifier.
        job_id: JobId,
        /// When true, perform forceful termination.
        force: bool,
    },
    /// Removes a cell and optionally its active jobs.
    CellRemove {
        /// Target cell identifier.
        cell_id: CellId,
        /// When true, remove even if jobs are active.
        force: bool,
    },
    /// Reads job logs from a stream with offset-based pagination.
    LogsRead {
        /// Target job identifier.
        job_id: JobId,
        /// Selected stream.
        stream: LogStream,
        /// Byte offset to start reading from.
        offset: u64,
        /// Maximum bytes to return.
        max_bytes: u32,
        /// Whether to wait for additional bytes when at EOF.
        follow: bool,
        /// Follow wait timeout in milliseconds.
        wait_ms: u64,
    },
    /// Opens an interactive PTY session.
    PtyOpen {
        /// Shell binary path.
        shell: String,
        /// Shell argument vector.
        args: Vec<String>,
        /// Optional working directory.
        cwd: Option<String>,
        /// Environment overrides.
        env: EnvMap,
        /// Initial terminal columns.
        cols: u16,
        /// Initial terminal rows.
        rows: u16,
    },
    /// Sends input bytes to a PTY session.
    PtyInput {
        /// Target PTY session identifier.
        session_id: SessionId,
        /// Raw input bytes.
        data: Vec<u8>,
    },
    /// Reads PTY output from an offset.
    PtyRead {
        /// Target PTY session identifier.
        session_id: SessionId,
        /// Byte offset to start reading from.
        offset: u64,
        /// Maximum bytes to return.
        max_bytes: u32,
        /// Whether to wait for additional bytes when at EOF.
        follow: bool,
        /// Follow wait timeout in milliseconds.
        wait_ms: u64,
    },
    /// Resizes an existing PTY session.
    PtyResize {
        /// Target PTY session identifier.
        session_id: SessionId,
        /// Terminal columns.
        cols: u16,
        /// Terminal rows.
        rows: u16,
    },
    /// Closes a PTY session.
    PtyClose {
        /// Target PTY session identifier.
        session_id: SessionId,
        /// When true, force-close the session.
        force: bool,
    },
}

/// RPC response variants returned by the daemon.
#[derive(Debug, PartialEq, Eq)]
pub enum Response {
    /// Protocol version details.
    Version {
        /// Daemon version string.
        daemon: String,
        /// Protocol version number.
        protocol: u32,
    },
    /// Service health result.
    Health {
        /// Health status string.
        status: String,
    },
    /// Cell creation acknowledgment.
    CellCreated {
        /// Created cell metadata.
        cell: CellInfo,
    },
    /// Job start acknowledgment.
    JobStarted {
        /// Started job metadata.
        job: JobInfo,
    },
    /// Job status payload.
    JobStatus {
        /// Current job metadata.
        job: JobInfo,
    },
    /// Job termination acknowledgment.
    JobKilled {
        /// Terminated job identifier.
        job_id: JobId,
        /// Signal description used for termination.
        signal: String,
        /// Latest job status after signal delivery.
        status: ExitStatus,
    },
    /// Cell removal acknowledgment.
    CellRemoved {
        /// Removed cell identifier.
        cell_id: CellId,
    },
    /// Chunk of job log output.
    LogsChunk {
        /// Job identifier.
        job_id: JobId,
        /// Stream from which bytes were read.
        stream: LogStream,
        /// Offset immediately after this chunk.
        offset: u64,
        /// Raw log bytes.
        data: Vec<u8>,
        /// True when no more bytes are currently available.
        eof: bool,
        /// True when the source stream is complete and closed.
        complete: bool,
    },
    /// PTY open acknowledgment.
    PtyOpened {
        /// Opened PTY session identifier.
        session_id: SessionId,
        /// Shell process id when known.
        pid: Option<u32>,
    },
    /// Chunk of PTY output data.
    PtyChunk {
        /// PTY session identifier.
        session_id: SessionId,
        /// Offset immediately after this chunk.
        offset: u64,
        /// Raw PTY bytes.
        data: Vec<u8>,
        /// True when no more bytes are currently available.
        eof: bool,
        /// True when the PTY process has exited.
        complete: bool,
        /// Exit code when complete.
        exit_code: Option<i32>,
    },
    /// PTY control acknowledgment.
    PtyAck {
        /// PTY session identifier.
        session_id: SessionId,
        /// Operation that was acknowledged.
        action: PtyAction,
    },
    /// Point-in-time resource usage sample.
    UsageSample {
        /// Job identifier.
        job_id: JobId,
        /// Resident set size in bytes.
        rss_bytes: Option<u64>,
        /// CPU usage in nanoseconds.
        cpu_nanos: Option<u64>,
        /// Sample timestamp in UNIX milliseconds.
        timestamp_ms: u64,
    },
    /// Structured error response.
    Error {
        /// High-level error category.
        code: ErrorCode,
        /// Human-readable summary.
        message: String,
        /// Optional extended context.
        detail: Option<String>,
    },
}

/// Model of a cell specification.
pub ghost struct CellSpecV {
    /// Cell name characters.
    pub name: Seq<char>,
    /// Environment entries.
    pub env: Seq<(Seq<char>, Seq<char>)>,
}

/// Model of a command specification.
pub ghost struct CommandSpecV {
    /// Argument vector character sequences.
    pub argv: Seq<Seq<char>>,
    /// Optional working directory characters.
    pub cwd: Option<Seq<char>>,
    /// Environment entries.
    pub env: Seq<(Seq<char>, Seq<char>)>,
    /// Optional resource limits.
    pub limits: Option<ResourceLimits>,
}

/// Model of cell metadata.
pub ghost struct CellInfoV {
    /// Cell identifier characters.
    pub id: Seq<char>,
    /// Cell specification model.
    pub spec: CellSpecV,
    /// Creation timestamp.
    pub created_at_ms: u64,
    /// Cell directory characters.
    pub dir: Seq<char>,
}

/// Model of job metadata.
pub ghost struct JobInfoV {
    /// Job identifier characters.
    pub id: Seq<char>,
    /// Owning cell identifier characters.
    pub cell_id: Seq<char>,
    /// Command specification model.
    pub command: CommandSpecV,
    /// Start timestamp.
    pub started_at_ms: u64,
    /// Finish timestamp, when terminal.
    pub finished_at_ms: Option<u64>,
    /// Process id, when known.
    pub pid: Option<u32>,
    /// Exit status.
    pub status: ExitStatus,
    /// Termination cause, when known.
    pub termination_reason: Option<TerminationReason>,
}

/// Model of a request body.
pub ghost enum RequestV {
    /// Version query.
    Version,
    /// Health query.
    Health,
    /// Cell creation.
    CellCreate { spec: CellSpecV },
    /// Job launch.
    JobRun { cell_id: Seq<char>, cmd: CommandSpecV },
    /// Job status query.
    JobStatus { job_id: Seq<char> },
    /// Job termination.
    JobKill { job_id: Seq<char>, force: bool },
    /// Cell removal.
    CellRemove { cell_id: Seq<char>, force: bool },
    /// Log read.
    LogsRead {
        job_id: Seq<char>,
        stream: LogStream,
        offset: u64,
        max_bytes: u32,
        follow: bool,
        wait_ms: u64,
    },
    /// PTY open.
    PtyOpen {
        shell: Seq<char>,
        args: Seq<Seq<char>>,
        cwd: Option<Seq<char>>,
        env: Seq<(Seq<char>, Seq<char>)>,
        cols: u16,
        rows: u16,
    },
    /// PTY input.
    PtyInput { session_id: u64, data: Seq<u8> },
    /// PTY read.
    PtyRead { session_id: u64, offset: u64, max_bytes: u32, follow: bool, wait_ms: u64 },
    /// PTY resize.
    PtyResize { session_id: u64, cols: u16, rows: u16 },
    /// PTY close.
    PtyClose { session_id: u64, force: bool },
}

/// Model of a response body.
pub ghost enum ResponseV {
    /// Version details.
    Version { daemon: Seq<char>, protocol: u32 },
    /// Health result.
    Health { status: Seq<char> },
    /// Cell created.
    CellCreated { cell: CellInfoV },
    /// Job started.
    JobStarted { job: JobInfoV },
    /// Job status.
    JobStatus { job: JobInfoV },
    /// Job killed.
    JobKilled { job_id: Seq<char>, signal: Seq<char>, status: ExitStatus },
    /// Cell removed.
    CellRemoved { cell_id: Seq<char> },
    /// Log chunk.
    LogsChunk {
        job_id: Seq<char>,
        stream: LogStream,
        offset: u64,
        data: Seq<u8>,
        eof: bool,
        complete: bool,
    },
    /// PTY opened.
    PtyOpened { session_id: u64, pid: Option<u32> },
    /// PTY chunk.
    PtyChunk {
        session_id: u64,
        offset: u64,
        data: Seq<u8>,
        eof: bool,
        complete: bool,
        exit_code: Option<i32>,
    },
    /// PTY acknowledgment.
    PtyAck { session_id: u64, action: PtyAction },
    /// Usage sample.
    UsageSample {
        job_id: Seq<char>,
        rss_bytes: Option<u64>,
        cpu_nanos: Option<u64>,
        timestamp_ms: u64,
    },
    /// Error outcome.
    Error { code: ErrorCode, message: Seq<char>, detail: Option<Seq<char>> },
}

/// Model of an envelope around a body model.
pub ghost struct EnvelopeV<B> {
    /// Correlation identifier.
    pub req_id: u64,
    /// Body model.
    pub body: B,
}

impl View for CellSpec {
    type V = CellSpecV;

    open spec fn view(&self) -> CellSpecV {
        CellSpecV { name: self.name@, env: self.env@ }
    }
}

impl View for CommandSpec {
    type V = CommandSpecV;

    open spec fn view(&self) -> CommandSpecV {
        CommandSpecV {
            argv: self.argv.deep_view(),
            cwd: self.cwd.deep_view(),
            env: self.env@,
            limits: self.limits,
        }
    }
}

impl View for CellInfo {
    type V = CellInfoV;

    open spec fn view(&self) -> CellInfoV {
        CellInfoV {
            id: self.id@,
            spec: self.spec@,
            created_at_ms: self.created_at_ms,
            dir: self.dir@,
        }
    }
}

impl View for JobInfo {
    type V = JobInfoV;

    open spec fn view(&self) -> JobInfoV {
        JobInfoV {
            id: self.id@,
            cell_id: self.cell_id@,
            command: self.command@,
            started_at_ms: self.started_at_ms,
            finished_at_ms: self.finished_at_ms,
            pid: self.pid,
            status: self.status,
            termination_reason: self.termination_reason,
        }
    }
}

impl View for Request {
    type V = RequestV;

    open spec fn view(&self) -> RequestV {
        match self {
            Request::Version {  } => RequestV::Version,
            Request::Health {  } => RequestV::Health,
            Request::CellCreate { spec } => RequestV::CellCreate { spec: spec@ },
            Request::JobRun { cell_id, cmd } => RequestV::JobRun {
                cell_id: cell_id@,
                cmd: cmd@,
            },
            Request::JobStatus { job_id } => RequestV::JobStatus { job_id: job_id@ },
            Request::JobKill { job_id, force } => RequestV::JobKill {
                job_id: job_id@,
                force: *force,
            },
            Request::CellRemove { cell_id, force } => RequestV::CellRemove {
                cell_id: cell_id@,
                force: *force,
            },
            Request::LogsRead { job_id, stream, offset, max_bytes, follow, wait_ms } => {
                RequestV::LogsRead {
                    job_id: job_id@,
                    stream: *stream,
                    offset: *offset,
                    max_bytes: *max_bytes,
                    follow: *follow,
                    wait_ms: *wait_ms,
                }
            },
            Request::PtyOpen { shell, args, cwd, env, cols, rows } => RequestV::PtyOpen {
                shell: shell@,
                args: args.deep_view(),
                cwd: cwd.deep_view(),
                env: env@,
                cols: *cols,
                rows: *rows,
            },
            Request::PtyInput { session_id, data } => RequestV::PtyInput {
                session_id: session_id.0,
                data: data@,
            },
            Request::PtyRead { session_id, offset, max_bytes, follow, wait_ms } => {
                RequestV::PtyRead {
                    session_id: session_id.0,
                    offset: *offset,
                    max_bytes: *max_bytes,
                    follow: *follow,
                    wait_ms: *wait_ms,
                }
            },
            Request::PtyResize { session_id, cols, rows } => RequestV::PtyResize {
                session_id: session_id.0,
                cols: *cols,
                rows: *rows,
            },
            Request::PtyClose { session_id, force } => RequestV::PtyClose {
                session_id: session_id.0,
                force: *force,
            },
        }
    }
}

impl View for Response {
    type V = ResponseV;

    open spec fn view(&self) -> ResponseV {
        match self {
            Response::Version { daemon, protocol } => ResponseV::Version {
                daemon: daemon@,
                protocol: *protocol,
            },
            Response::Health { status } => ResponseV::Health { status: status@ },
            Response::CellCreated { cell } => ResponseV::CellCreated { cell: cell@ },
            Response::JobStarted { job } => ResponseV::JobStarted { job: job@ },
            Response::JobStatus { job } => ResponseV::JobStatus { job: job@ },
            Response::JobKilled { job_id, signal, status } => ResponseV::JobKilled {
                job_id: job_id@,
                signal: signal@,
                status: *status,
            },
            Response::CellRemoved { cell_id } => ResponseV::CellRemoved { cell_id: cell_id@ },
            Response::LogsChunk { job_id, stream, offset, data, eof, complete } => {
                ResponseV::LogsChunk {
                    job_id: job_id@,
                    stream: *stream,
                    offset: *offset,
                    data: data@,
                    eof: *eof,
                    complete: *complete,
                }
            },
            Response::PtyOpened { session_id, pid } => ResponseV::PtyOpened {
                session_id: session_id.0,
                pid: *pid,
            },
            Response::PtyChunk { session_id, offset, data, eof, complete, exit_code } => {
                ResponseV::PtyChunk {
                    session_id: session_id.0,
                    offset: *offset,
                    data: data@,
                    eof: *eof,
                    complete: *complete,
                    exit_code: *exit_code,
                }
            },
            Response::PtyAck { session_id, action } => ResponseV::PtyAck {
                session_id: session_id.0,
                action: *action,
            },
            Response::UsageSample { job_id, rss_bytes, cpu_nanos, timestamp_ms } => {
                ResponseV::UsageSample {
                    job_id: job_id@,
                    rss_bytes: *rss_bytes,
                    cpu_nanos: *cpu_nanos,
                    timestamp_ms: *timestamp_ms,
                }
            },
            Response::Error { code, message, detail } => ResponseV::Error {
                code: *code,
                message: message@,
                detail: detail.deep_view(),
            },
        }
    }
}

impl<T: View> View for RequestEnvelope<T> {
    type V = EnvelopeV<T::V>;

    open spec fn view(&self) -> EnvelopeV<T::V> {
        EnvelopeV { req_id: self.req_id.0, body: self.body@ }
    }
}

impl<T: View> View for ResponseEnvelope<T> {
    type V = EnvelopeV<T::V>;

    open spec fn view(&self) -> EnvelopeV<T::V> {
        EnvelopeV { req_id: self.req_id.0, body: self.body@ }
    }
}

} // verus!
