//! Wire codec of client response bodies and their envelopes.

use vstd::prelude::*;
use vstd::utf8::encode_utf8;
use crate::cbor::{
    dec_bool, dec_key, dec_map_head, dec_segment, dec_text, dec_u32, dec_u64, enc_bool, enc_text,
    enc_u64, enc_uint, lemma_dec_bool_enc, lemma_dec_bytes_enc, lemma_dec_head_enc,
    lemma_dec_key_enc, lemma_dec_segment_enc_text, lemma_dec_text_enc, lemma_dec_u32_enc,
    lemma_dec_u64_enc, seg_is, spec_dec_bool, spec_dec_bytes, spec_dec_head, spec_dec_key,
    spec_dec_segment, spec_dec_text, spec_dec_u32, spec_dec_u64, spec_enc_bool, spec_enc_bytes,
    spec_enc_text, spec_enc_u64, spec_enc_uint, MAJOR_MAP, MAJOR_TEXT,
};
use crate::codec_basic::{
    dec_error_code, dec_exit_status, dec_log_stream, dec_opt_i32, dec_opt_text, dec_opt_u32,
    dec_opt_u64, dec_pty_action, enc_error_code, enc_exit_status, enc_log_stream, enc_opt_i32,
    enc_opt_text, enc_opt_u32, enc_opt_u64, enc_pty_action, lemma_dec_error_code_enc,
    lemma_dec_exit_status_enc, lemma_dec_log_stream_enc, lemma_dec_opt_i32_enc,
    lemma_dec_opt_text_enc, lemma_dec_opt_u32_enc, lemma_dec_opt_u64_enc,
    lemma_dec_pty_action_enc, lemma_short_text_fits, spec_dec_error_code, spec_dec_exit_status,
    spec_dec_log_stream, spec_dec_opt_i32, spec_dec_opt_text, spec_dec_opt_u32, spec_dec_opt_u64,
    spec_dec_pty_action, spec_enc_error_code, spec_enc_exit_status, spec_enc_log_stream,
    spec_enc_opt_i32, spec_enc_opt_text, spec_enc_opt_u32, spec_enc_opt_u64, spec_enc_pty_action,
    text_fits,
};
use crate::codec_seq::{dec_data, enc_data};
use crate::codec_structs::{
    cell_info_fits, cmd_fits, dec_cell_info, dec_job_info, enc_cell_info, enc_job_info,
    job_info_fits, lemma_dec_cell_info_enc, lemma_dec_job_info_enc, spec_dec_cell_info,
    spec_dec_job_info, spec_enc_cell_info, spec_enc_job_info,
};
use crate::ids::{CellId, JobId, ReqId, SessionId};
use crate::protocol::{Response, ResponseEnvelope, ResponseV, EnvelopeV};
use crate::textutil::{lemma_concat_assoc, lemma_utf8_ne};

verus! {

/// Character-level facts about the response tags.
proof fn lemma_response_tags()
    ensures
        "version"@.len() == 7,
        "health"@.len() == 6,
        "cell_created"@.len() == 12,
        "job_started"@.len() == 11,
        "job_status"@.len() == 10,
        "job_killed"@.len() == 10,
        "cell_removed"@.len() == 12,
        "logs_chunk"@.len() == 10,
        "pty_opened"@.len() == 10,
        "pty_chunk"@.len() == 9,
        "pty_ack"@.len() == 7,
        "usage_sample"@.len() == 12,
        "error"@.len() == 5,
        text_fits("version"@),
        text_fits("health"@),
        text_fits("cell_created"@),
        text_fits("job_started"@),
        text_fits("job_status"@),
        text_fits("job_killed"@),
        text_fits("cell_removed"@),
        text_fits("logs_chunk"@),
        text_fits("pty_opened"@),
        text_fits("pty_chunk"@),
        text_fits("pty_ack"@),
        text_fits("usage_sample"@),
        text_fits("error"@),
        "version"@ != "health"@,
        "version"@ != "cell_created"@,
        "version"@ != "job_started"@,
        "version"@ != "job_status"@,
        "version"@ != "job_killed"@,
        "version"@ != "cell_removed"@,
        "version"@ != "logs_chunk"@,
        "version"@ != "pty_opened"@,
        "version"@ != "pty_chunk"@,
        "version"@ != "pty_ack"@,
        "version"@ != "usage_sample"@,
        "version"@ != "error"@,
        "health"@ != "cell_created"@,
        "health"@ != "job_started"@,
        "health"@ != "job_status"@,
        "health"@ != "job_killed"@,
        "health"@ != "cell_removed"@,
        "health"@ != "logs_chunk"@,
        "health"@ != "pty_opened"@,
        "health"@ != "pty_chunk"@,
        "health"@ != "pty_ack"@,
        "health"@ != "usage_sample"@,
        "health"@ != "error"@,
        "cell_created"@ != "job_started"@,
        "cell_created"@ != "job_status"@,
        "cell_created"@ != "job_killed"@,
        "cell_created"@ != "cell_removed"@,
        "cell_created"@ != "logs_chunk"@,
        "cell_created"@ != "pty_opened"@,
        "cell_created"@ != "pty_chunk"@,
        "cell_created"@ != "pty_ack"@,
        "cell_created"@ != "usage_sample"@,
        "cell_created"@ != "error"@,
        "job_started"@ != "job_status"@,
        "job_started"@ != "job_killed"@,
        "job_started"@ != "cell_removed"@,
        "job_started"@ != "logs_chunk"@,
        "job_started"@ != "pty_opened"@,
        "job_started"@ != "pty_chunk"@,
        "job_started"@ != "pty_ack"@,
        "job_started"@ != "usage_sample"@,
        "job_started"@ != "error"@,
        "job_status"@ != "job_killed"@,
        "job_status"@ != "cell_removed"@,
        "job_status"@ != "logs_chunk"@,
        "job_status"@ != "pty_opened"@,
        "job_status"@ != "pty_chunk"@,
        "job_status"@ != "pty_ack"@,
        "job_status"@ != "usage_sample"@,
        "job_status"@ != "error"@,
        "job_killed"@ != "cell_removed"@,
        "job_killed"@ != "logs_chunk"@,
        "job_killed"@ != "pty_opened"@,
        "job_killed"@ != "pty_chunk"@,
        "job_killed"@ != "pty_ack"@,
        "job_killed"@ != "usage_sample"@,
        "job_killed"@ != "error"@,
        "cell_removed"@ != "logs_chunk"@,
        "cell_removed"@ != "pty_opened"@,
        "cell_removed"@ != "pty_chunk"@,
        "cell_removed"@ != "pty_ack"@,
        "cell_removed"@ != "usage_sample"@,
        "cell_removed"@ != "error"@,
        "logs_chunk"@ != "pty_opened"@,
        "logs_chunk"@ != "pty_chunk"@,
        "logs_chunk"@ != "pty_ack"@,
        "logs_chunk"@ != "usage_sample"@,
        "logs_chunk"@ != "error"@,
        "pty_opened"@ != "pty_chunk"@,
        "pty_opened"@ != "pty_ack"@,
        "pty_opened"@ != "usage_sample"@,
        "pty_opened"@ != "error"@,
        "pty_chunk"@ != "pty_ack"@,
        "pty_chunk"@ != "usage_sample"@,
        "pty_chunk"@ != "error"@,
        "pty_ack"@ != "usage_sample"@,
        "pty_ack"@ != "error"@,
        "usage_sample"@ != "error"@,
{
    reveal_strlit("version");
    reveal_strlit("health");
    reveal_strlit("cell_created");
    reveal_strlit("job_started");
    reveal_strlit("job_status");
    reveal_strlit("job_killed");
    reveal_strlit("cell_removed");
    reveal_strlit("logs_chunk");
    reveal_strlit("pty_opened");
    reveal_strlit("pty_chunk");
    reveal_strlit("pty_ack");
    reveal_strlit("usage_sample");
    reveal_strlit("error");
    assert("version"@.len() == 7);
    assert("health"@.len() == 6);
    assert("cell_created"@.len() == 12);
    assert("job_started"@.len() == 11);
    assert("job_status"@.len() == 10);
    assert("job_killed"@.len() == 10);
    assert("cell_removed"@.len() == 12);
    assert("logs_chunk"@.len() == 10);
    assert("pty_opened"@.len() == 10);
    assert("pty_chunk"@.len() == 9);
    assert("pty_ack"@.len() == 7);
    assert("usage_sample"@.len() == 12);
    assert("error"@.len() == 5);
    assert("version"@[0] == 'v');
    assert("pty_ack"@[0] == 'p');
    assert("cell_created"@[5] == 'c');
    assert("cell_removed"@[5] == 'r');
    assert("cell_created"@[0] == 'c');
    assert("usage_sample"@[0] == 'u');
    assert("job_status"@[4] == 's');
    assert("job_killed"@[4] == 'k');
    assert("job_status"@[0] == 'j');
    assert("logs_chunk"@[0] == 'l');
    assert("pty_opened"@[0] == 'p');
    assert("job_killed"@[0] == 'j');
    assert("cell_removed"@[0] == 'c');
    lemma_short_text_fits("version"@);
    lemma_short_text_fits("health"@);
    lemma_short_text_fits("cell_created"@);
    lemma_short_text_fits("job_started"@);
    lemma_short_text_fits("job_status"@);
    lemma_short_text_fits("job_killed"@);
    lemma_short_text_fits("cell_removed"@);
    lemma_short_text_fits("logs_chunk"@);
    lemma_short_text_fits("pty_opened"@);
    lemma_short_text_fits("pty_chunk"@);
    lemma_short_text_fits("pty_ack"@);
    lemma_short_text_fits("usage_sample"@);
    lemma_short_text_fits("error"@);
}

/// The response field keys fit wire lengths.
proof fn lemma_response_keys()
    ensures
        text_fits("type"@),
        text_fits("daemon"@),
        text_fits("protocol"@),
        text_fits("status"@),
        text_fits("cell"@),
        text_fits("job"@),
        text_fits("job_id"@),
        text_fits("signal"@),
        text_fits("cell_id"@),
        text_fits("stream"@),
        text_fits("offset"@),
        text_fits("data"@),
        text_fits("eof"@),
        text_fits("complete"@),
        text_fits("session_id"@),
        text_fits("pid"@),
        text_fits("exit_code"@),
        text_fits("action"@),
        text_fits("rss_bytes"@),
        text_fits("cpu_nanos"@),
        text_fits("timestamp_ms"@),
        text_fits("code"@),
        text_fits("message"@),
        text_fits("detail"@),
{
    reveal_strlit("type");
    reveal_strlit("daemon");
    reveal_strlit("protocol");
    reveal_strlit("status");
    reveal_strlit("cell");
    reveal_strlit("job");
    reveal_strlit("job_id");
    reveal_strlit("signal");
    reveal_strlit("cell_id");
    reveal_strlit("stream");
    reveal_strlit("offset");
    reveal_strlit("data");
    reveal_strlit("eof");
    reveal_strlit("complete");
    reveal_strlit("session_id");
    reveal_strlit("pid");
    reveal_strlit("exit_code");
    reveal_strlit("action");
    reveal_strlit("rss_bytes");
    reveal_strlit("cpu_nanos");
    reveal_strlit("timestamp_ms");
    reveal_strlit("code");
    reveal_strlit("message");
    reveal_strlit("detail");
    assert("type"@.len() == 4);
    assert("daemon"@.len() == 6);
    assert("protocol"@.len() == 8);
    assert("status"@.len() == 6);
    assert("cell"@.len() == 4);
    assert("job"@.len() == 3);
    assert("job_id"@.len() == 6);
    assert("signal"@.len() == 6);
    assert("cell_id"@.len() == 7);
    assert("stream"@.len() == 6);
    assert("offset"@.len() == 6);
    assert("data"@.len() == 4);
    assert("eof"@.len() == 3);
    assert("complete"@.len() == 8);
    assert("session_id"@.len() == 10);
    assert("pid"@.len() == 3);
    assert("exit_code"@.len() == 9);
    assert("action"@.len() == 6);
    assert("rss_bytes"@.len() == 9);
    assert("cpu_nanos"@.len() == 9);
    assert("timestamp_ms"@.len() == 12);
    assert("code"@.len() == 4);
    assert("message"@.len() == 7);
    assert("detail"@.len() == 6);
    lemma_short_text_fits("type"@);
    lemma_short_text_fits("daemon"@);
    lemma_short_text_fits("protocol"@);
    lemma_short_text_fits("status"@);
    lemma_short_text_fits("cell"@);
    lemma_short_text_fits("job"@);
    lemma_short_text_fits("job_id"@);
    lemma_short_text_fits("signal"@);
    lemma_short_text_fits("cell_id"@);
    lemma_short_text_fits("stream"@);
    lemma_short_text_fits("offset"@);
    lemma_short_text_fits("data"@);
    lemma_short_text_fits("eof"@);
    lemma_short_text_fits("complete"@);
    lemma_short_text_fits("session_id"@);
    lemma_short_text_fits("pid"@);
    lemma_short_text_fits("exit_code"@);
    lemma_short_text_fits("action"@);
    lemma_short_text_fits("rss_bytes"@);
    lemma_short_text_fits("cpu_nanos"@);
    lemma_short_text_fits("timestamp_ms"@);
    lemma_short_text_fits("code"@);
    lemma_short_text_fits("message"@);
    lemma_short_text_fits("detail"@);
}

/// A response model whose parts fit wire lengths.
pub open spec fn response_fits(m: ResponseV) -> bool {
    match m {
        ResponseV::Version { daemon, protocol } => text_fits(daemon),
        ResponseV::Health { status } => text_fits(status),
        ResponseV::CellCreated { cell } => cell_info_fits(cell),
        ResponseV::JobStarted { job } => job_info_fits(job),
        ResponseV::JobStatus { job } => job_info_fits(job),
        ResponseV::JobKilled { job_id, signal, status } => text_fits(job_id) && text_fits(signal),
        ResponseV::CellRemoved { cell_id } => text_fits(cell_id),
        ResponseV::LogsChunk { job_id, stream, offset, data, eof, complete } => text_fits(job_id) && data.len() <= u64::MAX,
        ResponseV::PtyOpened { session_id, pid } => true,
        ResponseV::PtyChunk { session_id, offset, data, eof, complete, exit_code } => data.len() <= u64::MAX,
        ResponseV::PtyAck { session_id, action } => true,
        ResponseV::UsageSample { job_id, rss_bytes, cpu_nanos, timestamp_ms } => text_fits(job_id),
        ResponseV::Error { code, message, detail } => text_fits(message) && (detail matches Some(c) ==> text_fits(c)),
    }
}

/// Encoded fields of the version form.
#[verifier::opaque]
pub open spec fn spec_enc_response_fields_version(m: ResponseV) -> Seq<u8> {
    match m {
        ResponseV::Version { daemon, protocol } => spec_enc_text("daemon"@) + spec_enc_text(daemon) + spec_enc_text("protocol"@) + spec_enc_u64(protocol as u64),
        _ => Seq::empty(),
    }
}

/// Encoded fields of the health form.
#[verifier::opaque]
pub open spec fn spec_enc_response_fields_health(m: ResponseV) -> Seq<u8> {
    match m {
        ResponseV::Health { status } => spec_enc_text("status"@) + spec_enc_text(status),
        _ => Seq::empty(),
    }
}

/// Encoded fields of the cell_created form.
#[verifier::opaque]
pub open spec fn spec_enc_response_fields_cell_created(m: ResponseV) -> Seq<u8> {
    match m {
        ResponseV::CellCreated { cell } => spec_enc_text("cell"@) + spec_enc_cell_info(cell),
        _ => Seq::empty(),
    }
}

/// Encoded fields of the job_started form.
#[verifier::opaque]
pub open spec fn spec_enc_response_fields_job_started(m: ResponseV) -> Seq<u8> {
    match m {
        ResponseV::JobStarted { job } => spec_enc_text("job"@) + spec_enc_job_info(job),
        _ => Seq::empty(),
    }
}

/// Encoded fields of the job_status form.
#[verifier::opaque]
pub open spec fn spec_enc_response_fields_job_status(m: ResponseV) -> Seq<u8> {
    match m {
        ResponseV::JobStatus { job } => spec_enc_text("job"@) + spec_enc_job_info(job),
        _ => Seq::empty(),
    }
}

/// Encoded fields of the job_killed form.
#[verifier::opaque]
pub open spec fn spec_enc_response_fields_job_killed(m: ResponseV) -> Seq<u8> {
    match m {
        ResponseV::JobKilled { job_id, signal, status } => spec_enc_text("job_id"@) + spec_enc_text(job_id) + spec_enc_text("signal"@) + spec_enc_text(signal) + spec_enc_text("status"@) + spec_enc_exit_status(status),
        _ => Seq::empty(),
    }
}

/// Encoded fields of the cell_removed form.
#[verifier::opaque]
pub open spec fn spec_enc_response_fields_cell_removed(m: ResponseV) -> Seq<u8> {
    match m {
        ResponseV::CellRemoved { cell_id } => spec_enc_text("cell_id"@) + spec_enc_text(cell_id),
        _ => Seq::empty(),
    }
}

/// Encoded fields of the logs_chunk form.
#[verifier::opaque]
pub open spec fn spec_enc_response_fields_logs_chunk(m: ResponseV) -> Seq<u8> {
    match m {
        ResponseV::LogsChunk { job_id, stream, offset, data, eof, complete } => spec_enc_text("job_id"@) + spec_enc_text(job_id) + spec_enc_text("stream"@) + spec_enc_log_stream(stream) + spec_enc_text("offset"@) + spec_enc_u64(offset) + spec_enc_text("data"@) + spec_enc_bytes(data) + spec_enc_text("eof"@) + spec_enc_bool(eof) + spec_enc_text("complete"@) + spec_enc_bool(complete),
        _ => Seq::empty(),
    }
}

/// Encoded fields of the pty_opened form.
#[verifier::opaque]
pub open spec fn spec_enc_response_fields_pty_opened(m: ResponseV) -> Seq<u8> {
    match m {
        ResponseV::PtyOpened { session_id, pid } => spec_enc_text("session_id"@) + spec_enc_u64(session_id) + spec_enc_text("pid"@) + spec_enc_opt_u32(pid),
        _ => Seq::empty(),
    }
}

/// Encoded fields of the pty_chunk form.
#[verifier::opaque]
pub open spec fn spec_enc_response_fields_pty_chunk(m: ResponseV) -> Seq<u8> {
    match m {
        ResponseV::PtyChunk { session_id, offset, data, eof, complete, exit_code } => spec_enc_text("session_id"@) + spec_enc_u64(session_id) + spec_enc_text("offset"@) + spec_enc_u64(offset) + spec_enc_text("data"@) + spec_enc_bytes(data) + spec_enc_text("eof"@) + spec_enc_bool(eof) + spec_enc_text("complete"@) + spec_enc_bool(complete) + spec_enc_text("exit_code"@) + spec_enc_opt_i32(exit_code),
        _ => Seq::empty(),
    }
}

/// Encoded fields of the pty_ack form.
#[verifier::opaque]
pub open spec fn spec_enc_response_fields_pty_ack(m: ResponseV) -> Seq<u8> {
    match m {
        ResponseV::PtyAck { session_id, action } => spec_enc_text("session_id"@) + spec_enc_u64(session_id) + spec_enc_text("action"@) + spec_enc_pty_action(action),
        _ => Seq::empty(),
    }
}

/// Encoded fields of the usage_sample form.
#[verifier::opaque]
pub open spec fn spec_enc_response_fields_usage_sample(m: ResponseV) -> Seq<u8> {
    match m {
        ResponseV::UsageSample { job_id, rss_bytes, cpu_nanos, timestamp_ms } => spec_enc_text("job_id"@) + spec_enc_text(job_id) + spec_enc_text("rss_bytes"@) + spec_enc_opt_u64(rss_bytes) + spec_enc_text("cpu_nanos"@) + spec_enc_opt_u64(cpu_nanos) + spec_enc_text("timestamp_ms"@) + spec_enc_u64(timestamp_ms),
        _ => Seq::empty(),
    }
}

/// Encoded fields of the error form.
#[verifier::opaque]
pub open spec fn spec_enc_response_fields_error(m: ResponseV) -> Seq<u8> {
    match m {
        ResponseV::Error { code, message, detail } => spec_enc_text("code"@) + spec_enc_error_code(code) + spec_enc_text("message"@) + spec_enc_text(message) + spec_enc_text("detail"@) + spec_enc_opt_text(detail),
        _ => Seq::empty(),
    }
}

/// Encoded response body.
pub open spec fn spec_enc_response(m: ResponseV) -> Seq<u8> {
    match m {
        ResponseV::Version { .. } => spec_enc_uint(MAJOR_MAP, 3) + spec_enc_text("type"@) + spec_enc_text(
            "version"@,
        ) + spec_enc_response_fields_version(m),
        ResponseV::Health { .. } => spec_enc_uint(MAJOR_MAP, 2) + spec_enc_text("type"@) + spec_enc_text(
            "health"@,
        ) + spec_enc_response_fields_health(m),
        ResponseV::CellCreated { .. } => spec_enc_uint(MAJOR_MAP, 2) + spec_enc_text("type"@) + spec_enc_text(
            "cell_created"@,
        ) + spec_enc_response_fields_cell_created(m),
        ResponseV::JobStarted { .. } => spec_enc_uint(MAJOR_MAP, 2) + spec_enc_text("type"@) + spec_enc_text(
            "job_started"@,
        ) + spec_enc_response_fields_job_started(m),
        ResponseV::JobStatus { .. } => spec_enc_uint(MAJOR_MAP, 2) + spec_enc_text("type"@) + spec_enc_text(
            "job_status"@,
        ) + spec_enc_response_fields_job_status(m),
        ResponseV::JobKilled { .. } => spec_enc_uint(MAJOR_MAP, 4) + spec_enc_text("type"@) + spec_enc_text(
            "job_killed"@,
        ) + spec_enc_response_fields_job_killed(m),
        ResponseV::CellRemoved { .. } => spec_enc_uint(MAJOR_MAP, 2) + spec_enc_text("type"@) + spec_enc_text(
            "cell_removed"@,
        ) + spec_enc_response_fields_cell_removed(m),
        ResponseV::LogsChunk { .. } => spec_enc_uint(MAJOR_MAP, 7) + spec_enc_text("type"@) + spec_enc_text(
            "logs_chunk"@,
        ) + spec_enc_response_fields_logs_chunk(m),
        ResponseV::PtyOpened { .. } => spec_enc_uint(MAJOR_MAP, 3) + spec_enc_text("type"@) + spec_enc_text(
            "pty_opened"@,
        ) + spec_enc_response_fields_pty_opened(m),
        ResponseV::PtyChunk { .. } => spec_enc_uint(MAJOR_MAP, 7) + spec_enc_text("type"@) + spec_enc_text(
            "pty_chunk"@,
        ) + spec_enc_response_fields_pty_chunk(m),
        ResponseV::PtyAck { .. } => spec_enc_uint(MAJOR_MAP, 3) + spec_enc_text("type"@) + spec_enc_text(
            "pty_ack"@,
        ) + spec_enc_response_fields_pty_ack(m),
        ResponseV::UsageSample { .. } => spec_enc_uint(MAJOR_MAP, 5) + spec_enc_text("type"@) + spec_enc_text(
            "usage_sample"@,
        ) + spec_enc_response_fields_usage_sample(m),
        ResponseV::Error { .. } => spec_enc_uint(MAJOR_MAP, 4) + spec_enc_text("type"@) + spec_enc_text(
            "error"@,
        ) + spec_enc_response_fields_error(m),
    }
}

/// Parses a response body.
pub open spec fn spec_dec_response(b: Seq<u8>) -> Option<(ResponseV, Seq<u8>)> {
    match spec_dec_head(b) {
        Some((m, cnt, r0)) => {
            if m != MAJOR_MAP {
                None
            } else {
                match spec_dec_key(r0, "type"@) {
                    Some(r1) => {
                        match spec_dec_segment(r1, MAJOR_TEXT) {
                            Some((tag, r2)) => spec_dec_response_body(tag, cnt, r2),
                            None => None,
                        }
                    },
                    None => None,
                }
            }
        },
        None => None,
    }
}

/// Parses the fields of the version form.
#[verifier::opaque]
pub open spec fn spec_dec_response_form_version(cnt: u64, r: Seq<u8>) -> Option<(ResponseV, Seq<u8>)> {
    if cnt != 3 {
        None
    } else {
        match spec_dec_key(r, "daemon"@) {
            Some(k_daemon) => {
                match spec_dec_text(k_daemon) {
                    Some((daemon, r_daemon)) => {
                        match spec_dec_key(r_daemon, "protocol"@) {
                            Some(k_protocol) => {
                                match spec_dec_u32(k_protocol) {
                                    Some((protocol, r_protocol)) => {
                                        Some((ResponseV::Version { daemon, protocol }, r_protocol))
                                    },
                                    None => None,
                                }
                            },
                            None => None,
                        }
                    },
                    None => None,
                }
            },
            None => None,
        }
    }
}

/// Parses the fields of the health form.
#[verifier::opaque]
pub open spec fn spec_dec_response_form_health(cnt: u64, r: Seq<u8>) -> Option<(ResponseV, Seq<u8>)> {
    if cnt != 2 {
        None
    } else {
        match spec_dec_key(r, "status"@) {
            Some(k_status) => {
                match spec_dec_text(k_status) {
                    Some((status, r_status)) => {
                        Some((ResponseV::Health { status }, r_status))
                    },
                    None => None,
                }
            },
            None => None,
        }
    }
}

/// Parses the fields of the cell_created form.
#[verifier::opaque]
pub open spec fn spec_dec_response_form_cell_created(cnt: u64, r: Seq<u8>) -> Option<(ResponseV, Seq<u8>)> {
    if cnt != 2 {
        None
    } else {
        match spec_dec_key(r, "cell"@) {
            Some(k_cell) => {
                match spec_dec_cell_info(k_cell) {
                    Some((cell, r_cell)) => {
                        Some((ResponseV::CellCreated { cell }, r_cell))
                    },
                    None => None,
                }
            },
            None => None,
        }
    }
}

/// Parses the fields of the job_started form.
#[verifier::opaque]
pub open spec fn spec_dec_response_form_job_started(cnt: u64, r: Seq<u8>) -> Option<(ResponseV, Seq<u8>)> {
    if cnt != 2 {
        None
    } else {
        match spec_dec_key(r, "job"@) {
            Some(k_job) => {
                match spec_dec_job_info(k_job) {
                    Some((job, r_job)) => {
                        Some((ResponseV::JobStarted { job }, r_job))
                    },
                    None => None,
                }
            },
            None => None,
        }
    }
}

/// Parses the fields of the job_status form.
#[verifier::opaque]
pub open spec fn spec_dec_response_form_job_status(cnt: u64, r: Seq<u8>) -> Option<(ResponseV, Seq<u8>)> {
    if cnt != 2 {
        None
    } else {
        match spec_dec_key(r, "job"@) {
            Some(k_job) => {
                match spec_dec_job_info(k_job) {
                    Some((job, r_job)) => {
                        Some((ResponseV::JobStatus { job }, r_job))
                    },
                    None => None,
                }
            },
            None => None,
        }
    }
}

/// Parses the fields of the job_killed form.
#[verifier::opaque]
pub open spec fn spec_dec_response_form_job_killed(cnt: u64, r: Seq<u8>) -> Option<(ResponseV, Seq<u8>)> {
    if cnt != 4 {
        None
    } else {
        match spec_dec_key(r, "job_id"@) {
            Some(k_job_id) => {
                match spec_dec_text(k_job_id) {
                    Some((job_id, r_job_id)) => {
                        match spec_dec_key(r_job_id, "signal"@) {
                            Some(k_signal) => {
                                match spec_dec_text(k_signal) {
                                    Some((signal, r_signal)) => {
                                        match spec_dec_key(r_signal, "status"@) {
                                            Some(k_status) => {
                                                match spec_dec_exit_status(k_status) {
                                                    Some((status, r_status)) => {
                                                        Some((ResponseV::JobKilled { job_id, signal, status }, r_status))
                                                    },
                                                    None => None,
                                                }
                                            },
                                            None => None,
                                        }
                                    },
                                    None => None,
                                }
                            },
                            None => None,
                        }
                    },
                    None => None,
                }
            },
            None => None,
        }
    }
}

/// Parses the fields of the cell_removed form.
#[verifier::opaque]
pub open spec fn spec_dec_response_form_cell_removed(cnt: u64, r: Seq<u8>) -> Option<(ResponseV, Seq<u8>)> {
    if cnt != 2 {
        None
    } else {
        match spec_dec_key(r, "cell_id"@) {
            Some(k_cell_id) => {
                match spec_dec_text(k_cell_id) {
                    Some((cell_id, r_cell_id)) => {
                        Some((ResponseV::CellRemoved { cell_id }, r_cell_id))
                    },
                    None => None,
                }
            },
            None => None,
        }
    }
}

/// Parses the fields of the logs_chunk form.
#[verifier::opaque]
pub open spec fn spec_dec_response_form_logs_chunk(cnt: u64, r: Seq<u8>) -> Option<(ResponseV, Seq<u8>)> {
    if cnt != 7 {
        None
    } else {
        match spec_dec_key(r, "job_id"@) {
            Some(k_job_id) => {
                match spec_dec_text(k_job_id) {
                    Some((job_id, r_job_id)) => {
                        match spec_dec_key(r_job_id, "stream"@) {
                            Some(k_stream) => {
                                match spec_dec_log_stream(k_stream) {
                                    Some((stream, r_stream)) => {
                                        match spec_dec_key(r_stream, "offset"@) {
                                            Some(k_offset) => {
                                                match spec_dec_u64(k_offset) {
                                                    Some((offset, r_offset)) => {
                                                        match spec_dec_key(r_offset, "data"@) {
                                                            Some(k_data) => {
                                                                match spec_dec_bytes(k_data) {
                                                                    Some((data, r_data)) => {
                                                                        match spec_dec_key(r_data, "eof"@) {
                                                                            Some(k_eof) => {
                                                                                match spec_dec_bool(k_eof) {
                                                                                    Some((eof, r_eof)) => {
                                                                                        match spec_dec_key(r_eof, "complete"@) {
                                                                                            Some(k_complete) => {
                                                                                                match spec_dec_bool(k_complete) {
                                                                                                    Some((complete, r_complete)) => {
                                                                                                        Some((ResponseV::LogsChunk { job_id, stream, offset, data, eof, complete }, r_complete))
                                                                                                    },
                                                                                                    None => None,
                                                                                                }
                                                                                            },
                                                                                            None => None,
                                                                                        }
                                                                                    },
                                                                                    None => None,
                                                                                }
                                                                            },
                                                                            None => None,
                                                                        }
                                                                    },
                                                                    None => None,
                                                                }
                                                            },
                                                            None => None,
                                                        }
                                                    },
                                                    None => None,
                                                }
                                            },
                                            None => None,
                                        }
                                    },
                                    None => None,
                                }
                            },
                            None => None,
                        }
                    },
                    None => None,
                }
            },
            None => None,
        }
    }
}

/// Parses the fields of the pty_opened form.
#[verifier::opaque]
pub open spec fn spec_dec_response_form_pty_opened(cnt: u64, r: Seq<u8>) -> Option<(ResponseV, Seq<u8>)> {
    if cnt != 3 {
        None
    } else {
        match spec_dec_key(r, "session_id"@) {
            Some(k_session_id) => {
                match spec_dec_u64(k_session_id) {
                    Some((session_id, r_session_id)) => {
                        match spec_dec_key(r_session_id, "pid"@) {
                            Some(k_pid) => {
                                match spec_dec_opt_u32(k_pid) {
                                    Some((pid, r_pid)) => {
                                        Some((ResponseV::PtyOpened { session_id, pid }, r_pid))
                                    },
                                    None => None,
                                }
                            },
                            None => None,
                        }
                    },
                    None => None,
                }
            },
            None => None,
        }
    }
}

/// Parses the fields of the pty_chunk form.
#[verifier::opaque]
pub open spec fn spec_dec_response_form_pty_chunk(cnt: u64, r: Seq<u8>) -> Option<(ResponseV, Seq<u8>)> {
    if cnt != 7 {
        None
    } else {
        match spec_dec_key(r, "session_id"@) {
            Some(k_session_id) => {
                match spec_dec_u64(k_session_id) {
                    Some((session_id, r_session_id)) => {
                        match spec_dec_key(r_session_id, "offset"@) {
                            Some(k_offset) => {
                                match spec_dec_u64(k_offset) {
                                    Some((offset, r_offset)) => {
                                        match spec_dec_key(r_offset, "data"@) {
                                            Some(k_data) => {
                                                match spec_dec_bytes(k_data) {
                                                    Some((data, r_data)) => {
                                                        match spec_dec_key(r_data, "eof"@) {
                                                            Some(k_eof) => {
                                                                match spec_dec_bool(k_eof) {
                                                                    Some((eof, r_eof)) => {
                                                                        match spec_dec_key(r_eof, "complete"@) {
                                                                            Some(k_complete) => {
                                                                                match spec_dec_bool(k_complete) {
                                                                                    Some((complete, r_complete)) => {
                                                                                        match spec_dec_key(r_complete, "exit_code"@) {
                                                                                            Some(k_exit_code) => {
                                                                                                match spec_dec_opt_i32(k_exit_code) {
                                                                                                    Some((exit_code, r_exit_code)) => {
                                                                                                        Some((ResponseV::PtyChunk { session_id, offset, data, eof, complete, exit_code }, r_exit_code))
                                                                                                    },
                                                                                                    None => None,
                                                                                                }
                                                                                            },
                                                                                            None => None,
                                                                                        }
                                                                                    },
                                                                                    None => None,
                                                                                }
                                                                            },
                                                                            None => None,
                                                                        }
                                                                    },
                                                                    None => None,
                                                                }
                                                            },
                                                            None => None,
                                                        }
                                                    },
                                                    None => None,
                                                }
                                            },
                                            None => None,
                                        }
                                    },
                                    None => None,
                                }
                            },
                            None => None,
                        }
                    },
                    None => None,
                }
            },
            None => None,
        }
    }
}

/// Parses the fields of the pty_ack form.
#[verifier::opaque]
pub open spec fn spec_dec_response_form_pty_ack(cnt: u64, r: Seq<u8>) -> Option<(ResponseV, Seq<u8>)> {
    if cnt != 3 {
        None
    } else {
        match spec_dec_key(r, "session_id"@) {
            Some(k_session_id) => {
                match spec_dec_u64(k_session_id) {
                    Some((session_id, r_session_id)) => {
                        match spec_dec_key(r_session_id, "action"@) {
                            Some(k_action) => {
                                match spec_dec_pty_action(k_action) {
                                    Some((action, r_action)) => {
                                        Some((ResponseV::PtyAck { session_id, action }, r_action))
                                    },
                                    None => None,
                                }
                            },
                            None => None,
                        }
                    },
                    None => None,
                }
            },
            None => None,
        }
    }
}

/// Parses the fields of the usage_sample form.
#[verifier::opaque]
pub open spec fn spec_dec_response_form_usage_sample(cnt: u64, r: Seq<u8>) -> Option<(ResponseV, Seq<u8>)> {
    if cnt != 5 {
        None
    } else {
        match spec_dec_key(r, "job_id"@) {
            Some(k_job_id) => {
                match spec_dec_text(k_job_id) {
                    Some((job_id, r_job_id)) => {
                        match spec_dec_key(r_job_id, "rss_bytes"@) {
                            Some(k_rss_bytes) => {
                                match spec_dec_opt_u64(k_rss_bytes) {
                                    Some((rss_bytes, r_rss_bytes)) => {
                                        match spec_dec_key(r_rss_bytes, "cpu_nanos"@) {
                                            Some(k_cpu_nanos) => {
                                                match spec_dec_opt_u64(k_cpu_nanos) {
                                                    Some((cpu_nanos, r_cpu_nanos)) => {
                                                        match spec_dec_key(r_cpu_nanos, "timestamp_ms"@) {
                                                            Some(k_timestamp_ms) => {
                                                                match spec_dec_u64(k_timestamp_ms) {
                                                                    Some((timestamp_ms, r_timestamp_ms)) => {
                                                                        Some((ResponseV::UsageSample { job_id, rss_bytes, cpu_nanos, timestamp_ms }, r_timestamp_ms))
                                                                    },
                                                                    None => None,
                                                                }
                                                            },
                                                            None => None,
                                                        }
                                                    },
                                                    None => None,
                                                }
                                            },
                                            None => None,
                                        }
                                    },
                                    None => None,
                                }
                            },
                            None => None,
                        }
                    },
                    None => None,
                }
            },
            None => None,
        }
    }
}

/// Parses the fields of the error form.
#[verifier::opaque]
pub open spec fn spec_dec_response_form_error(cnt: u64, r: Seq<u8>) -> Option<(ResponseV, Seq<u8>)> {
    if cnt != 4 {
        None
    } else {
        match spec_dec_key(r, "code"@) {
            Some(k_code) => {
                match spec_dec_error_code(k_code) {
                    Some((code, r_code)) => {
                        match spec_dec_key(r_code, "message"@) {
                            Some(k_message) => {
                                match spec_dec_text(k_message) {
                                    Some((message, r_message)) => {
                                        match spec_dec_key(r_message, "detail"@) {
                                            Some(k_detail) => {
                                                match spec_dec_opt_text(k_detail) {
                                                    Some((detail, r_detail)) => {
                                                        Some((ResponseV::Error { code, message, detail }, r_detail))
                                                    },
                                                    None => None,
                                                }
                                            },
                                            None => None,
                                        }
                                    },
                                    None => None,
                                }
                            },
                            None => None,
                        }
                    },
                    None => None,
                }
            },
            None => None,
        }
    }
}

/// Parses the fields of a response body once its tag is known.
pub open spec fn spec_dec_response_body(tag: Seq<u8>, cnt: u64, r: Seq<u8>) -> Option<(ResponseV, Seq<u8>)> {
    if tag == encode_utf8("version"@) {
        spec_dec_response_form_version(cnt, r)
    } else if tag == encode_utf8("health"@) {
        spec_dec_response_form_health(cnt, r)
    } else if tag == encode_utf8("cell_created"@) {
        spec_dec_response_form_cell_created(cnt, r)
    } else if tag == encode_utf8("job_started"@) {
        spec_dec_response_form_job_started(cnt, r)
    } else if tag == encode_utf8("job_status"@) {
        spec_dec_response_form_job_status(cnt, r)
    } else if tag == encode_utf8("job_killed"@) {
        spec_dec_response_form_job_killed(cnt, r)
    } else if tag == encode_utf8("cell_removed"@) {
        spec_dec_response_form_cell_removed(cnt, r)
    } else if tag == encode_utf8("logs_chunk"@) {
        spec_dec_response_form_logs_chunk(cnt, r)
    } else if tag == encode_utf8("pty_opened"@) {
        spec_dec_response_form_pty_opened(cnt, r)
    } else if tag == encode_utf8("pty_chunk"@) {
        spec_dec_response_form_pty_chunk(cnt, r)
    } else if tag == encode_utf8("pty_ack"@) {
        spec_dec_response_form_pty_ack(cnt, r)
    } else if tag == encode_utf8("usage_sample"@) {
        spec_dec_response_form_usage_sample(cnt, r)
    } else if tag == encode_utf8("error"@) {
        spec_dec_response_form_error(cnt, r)
    } else {
        None
    }
}

/// Parsing an encoded tagged body reaches the tag dispatch.
proof fn lemma_dec_response_dispatch(tagseq: Seq<char>, cnt: u64, fields: Seq<u8>, rest: Seq<u8>)
    requires
        text_fits(tagseq),
    ensures
        spec_dec_response(
            spec_enc_uint(MAJOR_MAP, cnt) + spec_enc_text("type"@) + spec_enc_text(tagseq)
                + fields + rest,
        ) == spec_dec_response_body(encode_utf8(tagseq), cnt, fields + rest),
{
    reveal_strlit("type");
    assert("type"@.len() == 4);
    lemma_short_text_fits("type"@);
    let h = spec_enc_uint(MAJOR_MAP, cnt);
    let tk = spec_enc_text("type"@);
    let tv = spec_enc_text(tagseq);
    lemma_concat_assoc(h + tk + tv, fields, rest);
    lemma_concat_assoc(h + tk, tv, fields + rest);
    lemma_concat_assoc(h, tk, tv + (fields + rest));
    lemma_dec_head_enc(MAJOR_MAP, cnt, tk + (tv + (fields + rest)));
    lemma_dec_key_enc("type"@, tv + (fields + rest));
    lemma_dec_segment_enc_text(tagseq, fields + rest);
}

/// Decoding inverts encoding for the fields of the version form.
#[verifier::rlimit(100)]
proof fn lemma_dec_response_form_version(m: ResponseV, rest: Seq<u8>)
    requires
        m is Version,
        response_fits(m),
    ensures
        spec_dec_response_form_version(3, spec_enc_response_fields_version(m) + rest) == Some((m, rest)),
{
    reveal(spec_dec_response_form_version);
    reveal(spec_enc_response_fields_version);
    lemma_response_keys();
    match m {
        ResponseV::Version { daemon, protocol } => {
            let k_daemon = spec_enc_text("daemon"@);
            let v_daemon = spec_enc_text(daemon);
            let k_protocol = spec_enc_text("protocol"@);
            let v_protocol = spec_enc_u64(protocol as u64);
            lemma_concat_assoc(k_daemon + v_daemon + k_protocol, v_protocol, rest);
            lemma_concat_assoc(k_daemon + v_daemon, k_protocol, (v_protocol + rest));
            lemma_concat_assoc(k_daemon, v_daemon, (k_protocol + (v_protocol + rest)));
            lemma_dec_key_enc("daemon"@, (v_daemon + (k_protocol + (v_protocol + rest))));
            lemma_dec_text_enc(daemon, (k_protocol + (v_protocol + rest)));
            lemma_dec_key_enc("protocol"@, (v_protocol + rest));
            lemma_dec_u32_enc(protocol, rest);
        },
        _ => {},
    }
}

/// Decoding inverts encoding for the version form.
#[verifier::rlimit(100)]
proof fn lemma_dec_response_enc_version(m: ResponseV, rest: Seq<u8>)
    requires
        m is Version,
        response_fits(m),
    ensures
        spec_dec_response(spec_enc_response(m) + rest) == Some((m, rest)),
{
    lemma_response_tags();
    let fields = spec_enc_response_fields_version(m);
    lemma_dec_response_dispatch("version"@, 3, fields, rest);
    lemma_dec_response_form_version(m, rest);
}

/// Decoding inverts encoding for the fields of the health form.
#[verifier::rlimit(100)]
proof fn lemma_dec_response_form_health(m: ResponseV, rest: Seq<u8>)
    requires
        m is Health,
        response_fits(m),
    ensures
        spec_dec_response_form_health(2, spec_enc_response_fields_health(m) + rest) == Some((m, rest)),
{
    reveal(spec_dec_response_form_health);
    reveal(spec_enc_response_fields_health);
    lemma_response_keys();
    match m {
        ResponseV::Health { status } => {
            let k_status = spec_enc_text("status"@);
            let v_status = spec_enc_text(status);
            lemma_concat_assoc(k_status, v_status, rest);
            lemma_dec_key_enc("status"@, (v_status + rest));
            lemma_dec_text_enc(status, rest);
        },
        _ => {},
    }
}

/// Decoding inverts encoding for the health form.
#[verifier::rlimit(100)]
proof fn lemma_dec_response_enc_health(m: ResponseV, rest: Seq<u8>)
    requires
        m is Health,
        response_fits(m),
    ensures
        spec_dec_response(spec_enc_response(m) + rest) == Some((m, rest)),
{
    lemma_response_tags();
    let fields = spec_enc_response_fields_health(m);
    lemma_dec_response_dispatch("health"@, 2, fields, rest);
    lemma_utf8_ne("version"@, "health"@);
    lemma_dec_response_form_health(m, rest);
}

/// Decoding inverts encoding for the fields of the cell_created form.
#[verifier::rlimit(100)]
proof fn lemma_dec_response_form_cell_created(m: ResponseV, rest: Seq<u8>)
    requires
        m is CellCreated,
        response_fits(m),
    ensures
        spec_dec_response_form_cell_created(2, spec_enc_response_fields_cell_created(m) + rest) == Some((m, rest)),
{
    reveal(spec_dec_response_form_cell_created);
    reveal(spec_enc_response_fields_cell_created);
    lemma_response_keys();
    match m {
        ResponseV::CellCreated { cell } => {
            let k_cell = spec_enc_text("cell"@);
            let v_cell = spec_enc_cell_info(cell);
            lemma_concat_assoc(k_cell, v_cell, rest);
            lemma_dec_key_enc("cell"@, (v_cell + rest));
            lemma_dec_cell_info_enc(cell, rest);
        },
        _ => {},
    }
}

/// Decoding inverts encoding for the cell_created form.
#[verifier::rlimit(100)]
proof fn lemma_dec_response_enc_cell_created(m: ResponseV, rest: Seq<u8>)
    requires
        m is CellCreated,
        response_fits(m),
    ensures
        spec_dec_response(spec_enc_response(m) + rest) == Some((m, rest)),
{
    lemma_response_tags();
    let fields = spec_enc_response_fields_cell_created(m);
    lemma_dec_response_dispatch("cell_created"@, 2, fields, rest);
    lemma_utf8_ne("version"@, "cell_created"@);
    lemma_utf8_ne("health"@, "cell_created"@);
    lemma_dec_response_form_cell_created(m, rest);
}

/// Decoding inverts encoding for the fields of the job_started form.
#[verifier::rlimit(100)]
proof fn lemma_dec_response_form_job_started(m: ResponseV, rest: Seq<u8>)
    requires
        m is JobStarted,
        response_fits(m),
    ensures
        spec_dec_response_form_job_started(2, spec_enc_response_fields_job_started(m) + rest) == Some((m, rest)),
{
    reveal(spec_dec_response_form_job_started);
    reveal(spec_enc_response_fields_job_started);
    lemma_response_keys();
    match m {
        ResponseV::JobStarted { job } => {
            let k_job = spec_enc_text("job"@);
            let v_job = spec_enc_job_info(job);
            lemma_concat_assoc(k_job, v_job, rest);
            lemma_dec_key_enc("job"@, (v_job + rest));
            lemma_dec_job_info_enc(job, rest);
        },
        _ => {},
    }
}

/// Decoding inverts encoding for the job_started form.
#[verifier::rlimit(100)]
proof fn lemma_dec_response_enc_job_started(m: ResponseV, rest: Seq<u8>)
    requires
        m is JobStarted,
        response_fits(m),
    ensures
        spec_dec_response(spec_enc_response(m) + rest) == Some((m, rest)),
{
    lemma_response_tags();
    let fields = spec_enc_response_fields_job_started(m);
    lemma_dec_response_dispatch("job_started"@, 2, fields, rest);
    lemma_utf8_ne("version"@, "job_started"@);
    lemma_utf8_ne("health"@, "job_started"@);
    lemma_utf8_ne("cell_created"@, "job_started"@);
    lemma_dec_response_form_job_started(m, rest);
}

/// Decoding inverts encoding for the fields of the job_status form.
#[verifier::rlimit(100)]
proof fn lemma_dec_response_form_job_status(m: ResponseV, rest: Seq<u8>)
    requires
        m is JobStatus,
        response_fits(m),
    ensures
        spec_dec_response_form_job_status(2, spec_enc_response_fields_job_status(m) + rest) == Some((m, rest)),
{
    reveal(spec_dec_response_form_job_status);
    reveal(spec_enc_response_fields_job_status);
    lemma_response_keys();
    match m {
        ResponseV::JobStatus { job } => {
            let k_job = spec_enc_text("job"@);
            let v_job = spec_enc_job_info(job);
            lemma_concat_assoc(k_job, v_job, rest);
            lemma_dec_key_enc("job"@, (v_job + rest));
            lemma_dec_job_info_enc(job, rest);
        },
        _ => {},
    }
}

/// Decoding inverts encoding for the job_status form.
#[verifier::rlimit(100)]
proof fn lemma_dec_response_enc_job_status(m: ResponseV, rest: Seq<u8>)
    requires
        m is JobStatus,
        response_fits(m),
    ensures
        spec_dec_response(spec_enc_response(m) + rest) == Some((m, rest)),
{
    lemma_response_tags();
    let fields = spec_enc_response_fields_job_status(m);
    lemma_dec_response_dispatch("job_status"@, 2, fields, rest);
    lemma_utf8_ne("version"@, "job_status"@);
    lemma_utf8_ne("health"@, "job_status"@);
    lemma_utf8_ne("cell_created"@, "job_status"@);
    lemma_utf8_ne("job_started"@, "job_status"@);
    lemma_dec_response_form_job_status(m, rest);
}

/// Decoding inverts encoding for the fields of the job_killed form.
#[verifier::rlimit(100)]
proof fn lemma_dec_response_form_job_killed(m: ResponseV, rest: Seq<u8>)
    requires
        m is JobKilled,
        response_fits(m),
    ensures
        spec_dec_response_form_job_killed(4, spec_enc_response_fields_job_killed(m) + rest) == Some((m, rest)),
{
    reveal(spec_dec_response_form_job_killed);
    reveal(spec_enc_response_fields_job_killed);
    lemma_response_keys();
    match m {
        ResponseV::JobKilled { job_id, signal, status } => {
            let k_job_id = spec_enc_text("job_id"@);
            let v_job_id = spec_enc_text(job_id);
            let k_signal = spec_enc_text("signal"@);
            let v_signal = spec_enc_text(signal);
            let k_status = spec_enc_text("status"@);
            let v_status = spec_enc_exit_status(status);
            lemma_concat_assoc(k_job_id + v_job_id + k_signal + v_signal + k_status, v_status, rest);
            lemma_concat_assoc(k_job_id + v_job_id + k_signal + v_signal, k_status, (v_status + rest));
            lemma_concat_assoc(k_job_id + v_job_id + k_signal, v_signal, (k_status + (v_status + rest)));
            lemma_concat_assoc(k_job_id + v_job_id, k_signal, (v_signal + (k_status + (v_status + rest))));
            lemma_concat_assoc(k_job_id, v_job_id, (k_signal + (v_signal + (k_status + (v_status + rest)))));
            lemma_dec_key_enc("job_id"@, (v_job_id + (k_signal + (v_signal + (k_status + (v_status + rest))))));
            lemma_dec_text_enc(job_id, (k_signal + (v_signal + (k_status + (v_status + rest)))));
            lemma_dec_key_enc("signal"@, (v_signal + (k_status + (v_status + rest))));
            lemma_dec_text_enc(signal, (k_status + (v_status + rest)));
            lemma_dec_key_enc("status"@, (v_status + rest));
            lemma_dec_exit_status_enc(status, rest);
        },
        _ => {},
    }
}

/// Decoding inverts encoding for the job_killed form.
#[verifier::rlimit(100)]
proof fn lemma_dec_response_enc_job_killed(m: ResponseV, rest: Seq<u8>)
    requires
        m is JobKilled,
        response_fits(m),
    ensures
        spec_dec_response(spec_enc_response(m) + rest) == Some((m, rest)),
{
    lemma_response_tags();
    let fields = spec_enc_response_fields_job_killed(m);
    lemma_dec_response_dispatch("job_killed"@, 4, fields, rest);
    lemma_utf8_ne("version"@, "job_killed"@);
    lemma_utf8_ne("health"@, "job_killed"@);
    lemma_utf8_ne("cell_created"@, "job_killed"@);
    lemma_utf8_ne("job_started"@, "job_killed"@);
    lemma_utf8_ne("job_status"@, "job_killed"@);
    lemma_dec_response_form_job_killed(m, rest);
}

/// Decoding inverts encoding for the fields of the cell_removed form.
#[verifier::rlimit(100)]
proof fn lemma_dec_response_form_cell_removed(m: ResponseV, rest: Seq<u8>)
    requires
        m is CellRemoved,
        response_fits(m),
    ensures
        spec_dec_response_form_cell_removed(2, spec_enc_response_fields_cell_removed(m) + rest) == Some((m, rest)),
{
    reveal(spec_dec_response_form_cell_removed);
    reveal(spec_enc_response_fields_cell_removed);
    lemma_response_keys();
    match m {
        ResponseV::CellRemoved { cell_id } => {
            let k_cell_id = spec_enc_text("cell_id"@);
            let v_cell_id = spec_enc_text(cell_id);
            lemma_concat_assoc(k_cell_id, v_cell_id, rest);
            lemma_dec_key_enc("cell_id"@, (v_cell_id + rest));
            lemma_dec_text_enc(cell_id, rest);
        },
        _ => {},
    }
}

/// Decoding inverts encoding for the cell_removed form.
#[verifier::rlimit(100)]
proof fn lemma_dec_response_enc_cell_removed(m: ResponseV, rest: Seq<u8>)
    requires
        m is CellRemoved,
        response_fits(m),
    ensures
        spec_dec_response(spec_enc_response(m) + rest) == Some((m, rest)),
{
    lemma_response_tags();
    let fields = spec_enc_response_fields_cell_removed(m);
    lemma_dec_response_dispatch("cell_removed"@, 2, fields, rest);
    lemma_utf8_ne("version"@, "cell_removed"@);
    lemma_utf8_ne("health"@, "cell_removed"@);
    lemma_utf8_ne("cell_created"@, "cell_removed"@);
    lemma_utf8_ne("job_started"@, "cell_removed"@);
    lemma_utf8_ne("job_status"@, "cell_removed"@);
    lemma_utf8_ne("job_killed"@, "cell_removed"@);
    lemma_dec_response_form_cell_removed(m, rest);
}

/// Decoding inverts encoding for the fields of the logs_chunk form.
#[verifier::rlimit(100)]
proof fn lemma_dec_response_form_logs_chunk(m: ResponseV, rest: Seq<u8>)
    requires
        m is LogsChunk,
        response_fits(m),
    ensures
        spec_dec_response_form_logs_chunk(7, spec_enc_response_fields_logs_chunk(m) + rest) == Some((m, rest)),
{
    reveal(spec_dec_response_form_logs_chunk);
    reveal(spec_enc_response_fields_logs_chunk);
    lemma_response_keys();
    match m {
        ResponseV::LogsChunk { job_id, stream, offset, data, eof, complete } => {
            let k_job_id = spec_enc_text("job_id"@);
            let v_job_id = spec_enc_text(job_id);
            let k_stream = spec_enc_text("stream"@);
            let v_stream = spec_enc_log_stream(stream);
            let k_offset = spec_enc_text("offset"@);
            let v_offset = spec_enc_u64(offset);
            let k_data = spec_enc_text("data"@);
            let v_data = spec_enc_bytes(data);
            let k_eof = spec_enc_text("eof"@);
            let v_eof = spec_enc_bool(eof);
            let k_complete = spec_enc_text("complete"@);
            let v_complete = spec_enc_bool(complete);
            lemma_concat_assoc(k_job_id + v_job_id + k_stream + v_stream + k_offset + v_offset + k_data + v_data + k_eof + v_eof + k_complete, v_complete, rest);
            lemma_concat_assoc(k_job_id + v_job_id + k_stream + v_stream + k_offset + v_offset + k_data + v_data + k_eof + v_eof, k_complete, (v_complete + rest));
            lemma_concat_assoc(k_job_id + v_job_id + k_stream + v_stream + k_offset + v_offset + k_data + v_data + k_eof, v_eof, (k_complete + (v_complete + rest)));
            lemma_concat_assoc(k_job_id + v_job_id + k_stream + v_stream + k_offset + v_offset + k_data + v_data, k_eof, (v_eof + (k_complete + (v_complete + rest))));
            lemma_concat_assoc(k_job_id + v_job_id + k_stream + v_stream + k_offset + v_offset + k_data, v_data, (k_eof + (v_eof + (k_complete + (v_complete + rest)))));
            lemma_concat_assoc(k_job_id + v_job_id + k_stream + v_stream + k_offset + v_offset, k_data, (v_data + (k_eof + (v_eof + (k_complete + (v_complete + rest))))));
            lemma_concat_assoc(k_job_id + v_job_id + k_stream + v_stream + k_offset, v_offset, (k_data + (v_data + (k_eof + (v_eof + (k_complete + (v_complete + rest)))))));
            lemma_concat_assoc(k_job_id + v_job_id + k_stream + v_stream, k_offset, (v_offset + (k_data + (v_data + (k_eof + (v_eof + (k_complete + (v_complete + rest))))))));
            lemma_concat_assoc(k_job_id + v_job_id + k_stream, v_stream, (k_offset + (v_offset + (k_data + (v_data + (k_eof + (v_eof + (k_complete + (v_complete + rest)))))))));
            lemma_concat_assoc(k_job_id + v_job_id, k_stream, (v_stream + (k_offset + (v_offset + (k_data + (v_data + (k_eof + (v_eof + (k_complete + (v_complete + rest))))))))));
            lemma_concat_assoc(k_job_id, v_job_id, (k_stream + (v_stream + (k_offset + (v_offset + (k_data + (v_data + (k_eof + (v_eof + (k_complete + (v_complete + rest)))))))))));
            lemma_dec_key_enc("job_id"@, (v_job_id + (k_stream + (v_stream + (k_offset + (v_offset + (k_data + (v_data + (k_eof + (v_eof + (k_complete + (v_complete + rest))))))))))));
            lemma_dec_text_enc(job_id, (k_stream + (v_stream + (k_offset + (v_offset + (k_data + (v_data + (k_eof + (v_eof + (k_complete + (v_complete + rest)))))))))));
            lemma_dec_key_enc("stream"@, (v_stream + (k_offset + (v_offset + (k_data + (v_data + (k_eof + (v_eof + (k_complete + (v_complete + rest))))))))));
            lemma_dec_log_stream_enc(stream, (k_offset + (v_offset + (k_data + (v_data + (k_eof + (v_eof + (k_complete + (v_complete + rest)))))))));
            lemma_dec_key_enc("offset"@, (v_offset + (k_data + (v_data + (k_eof + (v_eof + (k_complete + (v_complete + rest))))))));
            lemma_dec_u64_enc(offset, (k_data + (v_data + (k_eof + (v_eof + (k_complete + (v_complete + rest)))))));
            lemma_dec_key_enc("data"@, (v_data + (k_eof + (v_eof + (k_complete + (v_complete + rest))))));
            lemma_dec_bytes_enc(data, (k_eof + (v_eof + (k_complete + (v_complete + rest)))));
            lemma_dec_key_enc("eof"@, (v_eof + (k_complete + (v_complete + rest))));
            lemma_dec_bool_enc(eof, (k_complete + (v_complete + rest)));
            lemma_dec_key_enc("complete"@, (v_complete + rest));
            lemma_dec_bool_enc(complete, rest);
        },
        _ => {},
    }
}

/// Decoding inverts encoding for the logs_chunk form.
#[verifier::rlimit(100)]
proof fn lemma_dec_response_enc_logs_chunk(m: ResponseV, rest: Seq<u8>)
    requires
        m is LogsChunk,
        response_fits(m),
    ensures
        spec_dec_response(spec_enc_response(m) + rest) == Some((m, rest)),
{
    lemma_response_tags();
    let fields = spec_enc_response_fields_logs_chunk(m);
    lemma_dec_response_dispatch("logs_chunk"@, 7, fields, rest);
    lemma_utf8_ne("version"@, "logs_chunk"@);
    lemma_utf8_ne("health"@, "logs_chunk"@);
    lemma_utf8_ne("cell_created"@, "logs_chunk"@);
    lemma_utf8_ne("job_started"@, "logs_chunk"@);
    lemma_utf8_ne("job_status"@, "logs_chunk"@);
    lemma_utf8_ne("job_killed"@, "logs_chunk"@);
    lemma_utf8_ne("cell_removed"@, "logs_chunk"@);
    lemma_dec_response_form_logs_chunk(m, rest);
}

/// Decoding inverts encoding for the fields of the pty_opened form.
#[verifier::rlimit(100)]
proof fn lemma_dec_response_form_pty_opened(m: ResponseV, rest: Seq<u8>)
    requires
        m is PtyOpened,
        response_fits(m),
    ensures
        spec_dec_response_form_pty_opened(3, spec_enc_response_fields_pty_opened(m) + rest) == Some((m, rest)),
{
    reveal(spec_dec_response_form_pty_opened);
    reveal(spec_enc_response_fields_pty_opened);
    lemma_response_keys();
    match m {
        ResponseV::PtyOpened { session_id, pid } => {
            let k_session_id = spec_enc_text("session_id"@);
            let v_session_id = spec_enc_u64(session_id);
            let k_pid = spec_enc_text("pid"@);
            let v_pid = spec_enc_opt_u32(pid);
            lemma_concat_assoc(k_session_id + v_session_id + k_pid, v_pid, rest);
            lemma_concat_assoc(k_session_id + v_session_id, k_pid, (v_pid + rest));
            lemma_concat_assoc(k_session_id, v_session_id, (k_pid + (v_pid + rest)));
            lemma_dec_key_enc("session_id"@, (v_session_id + (k_pid + (v_pid + rest))));
            lemma_dec_u64_enc(session_id, (k_pid + (v_pid + rest)));
            lemma_dec_key_enc("pid"@, (v_pid + rest));
            lemma_dec_opt_u32_enc(pid, rest);
        },
        _ => {},
    }
}

/// Decoding inverts encoding for the pty_opened form.
#[verifier::rlimit(100)]
proof fn lemma_dec_response_enc_pty_opened(m: ResponseV, rest: Seq<u8>)
    requires
        m is PtyOpened,
        response_fits(m),
    ensures
        spec_dec_response(spec_enc_response(m) + rest) == Some((m, rest)),
{
    lemma_response_tags();
    let fields = spec_enc_response_fields_pty_opened(m);
    lemma_dec_response_dispatch("pty_opened"@, 3, fields, rest);
    lemma_utf8_ne("version"@, "pty_opened"@);
    lemma_utf8_ne("health"@, "pty_opened"@);
    lemma_utf8_ne("cell_created"@, "pty_opened"@);
    lemma_utf8_ne("job_started"@, "pty_opened"@);
    lemma_utf8_ne("job_status"@, "pty_opened"@);
    lemma_utf8_ne("job_killed"@, "pty_opened"@);
    lemma_utf8_ne("cell_removed"@, "pty_opened"@);
    lemma_utf8_ne("logs_chunk"@, "pty_opened"@);
    lemma_dec_response_form_pty_opened(m, rest);
}

/// Decoding inverts encoding for the fields of the pty_chunk form.
#[verifier::rlimit(100)]
proof fn lemma_dec_response_form_pty_chunk(m: ResponseV, rest: Seq<u8>)
    requires
        m is PtyChunk,
        response_fits(m),
    ensures
        spec_dec_response_form_pty_chunk(7, spec_enc_response_fields_pty_chunk(m) + rest) == Some((m, rest)),
{
    reveal(spec_dec_response_form_pty_chunk);
    reveal(spec_enc_response_fields_pty_chunk);
    lemma_response_keys();
    match m {
        ResponseV::PtyChunk { session_id, offset, data, eof, complete, exit_code } => {
            let k_session_id = spec_enc_text("session_id"@);
            let v_session_id = spec_enc_u64(session_id);
            let k_offset = spec_enc_text("offset"@);
            let v_offset = spec_enc_u64(offset);
            let k_data = spec_enc_text("data"@);
            let v_data = spec_enc_bytes(data);
            let k_eof = spec_enc_text("eof"@);
            let v_eof = spec_enc_bool(eof);
            let k_complete = spec_enc_text("complete"@);
            let v_complete = spec_enc_bool(complete);
            let k_exit_code = spec_enc_text("exit_code"@);
            let v_exit_code = spec_enc_opt_i32(exit_code);
            lemma_concat_assoc(k_session_id + v_session_id + k_offset + v_offset + k_data + v_data + k_eof + v_eof + k_complete + v_complete + k_exit_code, v_exit_code, rest);
            lemma_concat_assoc(k_session_id + v_session_id + k_offset + v_offset + k_data + v_data + k_eof + v_eof + k_complete + v_complete, k_exit_code, (v_exit_code + rest));
            lemma_concat_assoc(k_session_id + v_session_id + k_offset + v_offset + k_data + v_data + k_eof + v_eof + k_complete, v_complete, (k_exit_code + (v_exit_code + rest)));
            lemma_concat_assoc(k_session_id + v_session_id + k_offset + v_offset + k_data + v_data + k_eof + v_eof, k_complete, (v_complete + (k_exit_code + (v_exit_code + rest))));
            lemma_concat_assoc(k_session_id + v_session_id + k_offset + v_offset + k_data + v_data + k_eof, v_eof, (k_complete + (v_complete + (k_exit_code + (v_exit_code + rest)))));
            lemma_concat_assoc(k_session_id + v_session_id + k_offset + v_offset + k_data + v_data, k_eof, (v_eof + (k_complete + (v_complete + (k_exit_code + (v_exit_code + rest))))));
            lemma_concat_assoc(k_session_id + v_session_id + k_offset + v_offset + k_data, v_data, (k_eof + (v_eof + (k_complete + (v_complete + (k_exit_code + (v_exit_code + rest)))))));
            lemma_concat_assoc(k_session_id + v_session_id + k_offset + v_offset, k_data, (v_data + (k_eof + (v_eof + (k_complete + (v_complete + (k_exit_code + (v_exit_code + rest))))))));
            lemma_concat_assoc(k_session_id + v_session_id + k_offset, v_offset, (k_data + (v_data + (k_eof + (v_eof + (k_complete + (v_complete + (k_exit_code + (v_exit_code + rest)))))))));
            lemma_concat_assoc(k_session_id + v_session_id, k_offset, (v_offset + (k_data + (v_data + (k_eof + (v_eof + (k_complete + (v_complete + (k_exit_code + (v_exit_code + rest))))))))));
            lemma_concat_assoc(k_session_id, v_session_id, (k_offset + (v_offset + (k_data + (v_data + (k_eof + (v_eof + (k_complete + (v_complete + (k_exit_code + (v_exit_code + rest)))))))))));
            lemma_dec_key_enc("session_id"@, (v_session_id + (k_offset + (v_offset + (k_data + (v_data + (k_eof + (v_eof + (k_complete + (v_complete + (k_exit_code + (v_exit_code + rest))))))))))));
            lemma_dec_u64_enc(session_id, (k_offset + (v_offset + (k_data + (v_data + (k_eof + (v_eof + (k_complete + (v_complete + (k_exit_code + (v_exit_code + rest)))))))))));
            lemma_dec_key_enc("offset"@, (v_offset + (k_data + (v_data + (k_eof + (v_eof + (k_complete + (v_complete + (k_exit_code + (v_exit_code + rest))))))))));
            lemma_dec_u64_enc(offset, (k_data + (v_data + (k_eof + (v_eof + (k_complete + (v_complete + (k_exit_code + (v_exit_code + rest)))))))));
            lemma_dec_key_enc("data"@, (v_data + (k_eof + (v_eof + (k_complete + (v_complete + (k_exit_code + (v_exit_code + rest))))))));
            lemma_dec_bytes_enc(data, (k_eof + (v_eof + (k_complete + (v_complete + (k_exit_code + (v_exit_code + rest)))))));
            lemma_dec_key_enc("eof"@, (v_eof + (k_complete + (v_complete + (k_exit_code + (v_exit_code + rest))))));
            lemma_dec_bool_enc(eof, (k_complete + (v_complete + (k_exit_code + (v_exit_code + rest)))));
            lemma_dec_key_enc("complete"@, (v_complete + (k_exit_code + (v_exit_code + rest))));
            lemma_dec_bool_enc(complete, (k_exit_code + (v_exit_code + rest)));
            lemma_dec_key_enc("exit_code"@, (v_exit_code + rest));
            lemma_dec_opt_i32_enc(exit_code, rest);
        },
        _ => {},
    }
}

/// Decoding inverts encoding for the pty_chunk form.
#[verifier::rlimit(100)]
proof fn lemma_dec_response_enc_pty_chunk(m: ResponseV, rest: Seq<u8>)
    requires
        m is PtyChunk,
        response_fits(m),
    ensures
        spec_dec_response(spec_enc_response(m) + rest) == Some((m, rest)),
{
    lemma_response_tags();
    let fields = spec_enc_response_fields_pty_chunk(m);
    lemma_dec_response_dispatch("pty_chunk"@, 7, fields, rest);
    lemma_utf8_ne("version"@, "pty_chunk"@);
    lemma_utf8_ne("health"@, "pty_chunk"@);
    lemma_utf8_ne("cell_created"@, "pty_chunk"@);
    lemma_utf8_ne("job_started"@, "pty_chunk"@);
    lemma_utf8_ne("job_status"@, "pty_chunk"@);
    lemma_utf8_ne("job_killed"@, "pty_chunk"@);
    lemma_utf8_ne("cell_removed"@, "pty_chunk"@);
    lemma_utf8_ne("logs_chunk"@, "pty_chunk"@);
    lemma_utf8_ne("pty_opened"@, "pty_chunk"@);
    lemma_dec_response_form_pty_chunk(m, rest);
}

/// Decoding inverts encoding for the fields of the pty_ack form.
#[verifier::rlimit(100)]
proof fn lemma_dec_response_form_pty_ack(m: ResponseV, rest: Seq<u8>)
    requires
        m is PtyAck,
        response_fits(m),
    ensures
        spec_dec_response_form_pty_ack(3, spec_enc_response_fields_pty_ack(m) + rest) == Some((m, rest)),
{
    reveal(spec_dec_response_form_pty_ack);
    reveal(spec_enc_response_fields_pty_ack);
    lemma_response_keys();
    match m {
        ResponseV::PtyAck { session_id, action } => {
            let k_session_id = spec_enc_text("session_id"@);
            let v_session_id = spec_enc_u64(session_id);
            let k_action = spec_enc_text("action"@);
            let v_action = spec_enc_pty_action(action);
            lemma_concat_assoc(k_session_id + v_session_id + k_action, v_action, rest);
            lemma_concat_assoc(k_session_id + v_session_id, k_action, (v_action + rest));
            lemma_concat_assoc(k_session_id, v_session_id, (k_action + (v_action + rest)));
            lemma_dec_key_enc("session_id"@, (v_session_id + (k_action + (v_action + rest))));
            lemma_dec_u64_enc(session_id, (k_action + (v_action + rest)));
            lemma_dec_key_enc("action"@, (v_action + rest));
            lemma_dec_pty_action_enc(action, rest);
        },
        _ => {},
    }
}

/// Decoding inverts encoding for the pty_ack form.
#[verifier::rlimit(100)]
proof fn lemma_dec_response_enc_pty_ack(m: ResponseV, rest: Seq<u8>)
    requires
        m is PtyAck,
        response_fits(m),
    ensures
        spec_dec_response(spec_enc_response(m) + rest) == Some((m, rest)),
{
    lemma_response_tags();
    let fields = spec_enc_response_fields_pty_ack(m);
    lemma_dec_response_dispatch("pty_ack"@, 3, fields, rest);
    lemma_utf8_ne("version"@, "pty_ack"@);
    lemma_utf8_ne("health"@, "pty_ack"@);
    lemma_utf8_ne("cell_created"@, "pty_ack"@);
    lemma_utf8_ne("job_started"@, "pty_ack"@);
    lemma_utf8_ne("job_status"@, "pty_ack"@);
    lemma_utf8_ne("job_killed"@, "pty_ack"@);
    lemma_utf8_ne("cell_removed"@, "pty_ack"@);
    lemma_utf8_ne("logs_chunk"@, "pty_ack"@);
    lemma_utf8_ne("pty_opened"@, "pty_ack"@);
    lemma_utf8_ne("pty_chunk"@, "pty_ack"@);
    lemma_dec_response_form_pty_ack(m, rest);
}

/// Decoding inverts encoding for the fields of the usage_sample form.
#[verifier::rlimit(100)]
proof fn lemma_dec_response_form_usage_sample(m: ResponseV, rest: Seq<u8>)
    requires
        m is UsageSample,
        response_fits(m),
    ensures
        spec_dec_response_form_usage_sample(5, spec_enc_response_fields_usage_sample(m) + rest) == Some((m, rest)),
{
    reveal(spec_dec_response_form_usage_sample);
    reveal(spec_enc_response_fields_usage_sample);
    lemma_response_keys();
    match m {
        ResponseV::UsageSample { job_id, rss_bytes, cpu_nanos, timestamp_ms } => {
            let k_job_id = spec_enc_text("job_id"@);
            let v_job_id = spec_enc_text(job_id);
            let k_rss_bytes = spec_enc_text("rss_bytes"@);
            let v_rss_bytes = spec_enc_opt_u64(rss_bytes);
            let k_cpu_nanos = spec_enc_text("cpu_nanos"@);
            let v_cpu_nanos = spec_enc_opt_u64(cpu_nanos);
            let k_timestamp_ms = spec_enc_text("timestamp_ms"@);
            let v_timestamp_ms = spec_enc_u64(timestamp_ms);
            lemma_concat_assoc(k_job_id + v_job_id + k_rss_bytes + v_rss_bytes + k_cpu_nanos + v_cpu_nanos + k_timestamp_ms, v_timestamp_ms, rest);
            lemma_concat_assoc(k_job_id + v_job_id + k_rss_bytes + v_rss_bytes + k_cpu_nanos + v_cpu_nanos, k_timestamp_ms, (v_timestamp_ms + rest));
            lemma_concat_assoc(k_job_id + v_job_id + k_rss_bytes + v_rss_bytes + k_cpu_nanos, v_cpu_nanos, (k_timestamp_ms + (v_timestamp_ms + rest)));
            lemma_concat_assoc(k_job_id + v_job_id + k_rss_bytes + v_rss_bytes, k_cpu_nanos, (v_cpu_nanos + (k_timestamp_ms + (v_timestamp_ms + rest))));
            lemma_concat_assoc(k_job_id + v_job_id + k_rss_bytes, v_rss_bytes, (k_cpu_nanos + (v_cpu_nanos + (k_timestamp_ms + (v_timestamp_ms + rest)))));
            lemma_concat_assoc(k_job_id + v_job_id, k_rss_bytes, (v_rss_bytes + (k_cpu_nanos + (v_cpu_nanos + (k_timestamp_ms + (v_timestamp_ms + rest))))));
            lemma_concat_assoc(k_job_id, v_job_id, (k_rss_bytes + (v_rss_bytes + (k_cpu_nanos + (v_cpu_nanos + (k_timestamp_ms + (v_timestamp_ms + rest)))))));
            lemma_dec_key_enc("job_id"@, (v_job_id + (k_rss_bytes + (v_rss_bytes + (k_cpu_nanos + (v_cpu_nanos + (k_timestamp_ms + (v_timestamp_ms + rest))))))));
            lemma_dec_text_enc(job_id, (k_rss_bytes + (v_rss_bytes + (k_cpu_nanos + (v_cpu_nanos + (k_timestamp_ms + (v_timestamp_ms + rest)))))));
            lemma_dec_key_enc("rss_bytes"@, (v_rss_bytes + (k_cpu_nanos + (v_cpu_nanos + (k_timestamp_ms + (v_timestamp_ms + rest))))));
            lemma_dec_opt_u64_enc(rss_bytes, (k_cpu_nanos + (v_cpu_nanos + (k_timestamp_ms + (v_timestamp_ms + rest)))));
            lemma_dec_key_enc("cpu_nanos"@, (v_cpu_nanos + (k_timestamp_ms + (v_timestamp_ms + rest))));
            lemma_dec_opt_u64_enc(cpu_nanos, (k_timestamp_ms + (v_timestamp_ms + rest)));
            lemma_dec_key_enc("timestamp_ms"@, (v_timestamp_ms + rest));
            lemma_dec_u64_enc(timestamp_ms, rest);
        },
        _ => {},
    }
}

/// Decoding inverts encoding for the usage_sample form.
#[verifier::rlimit(100)]
proof fn lemma_dec_response_enc_usage_sample(m: ResponseV, rest: Seq<u8>)
    requires
        m is UsageSample,
        response_fits(m),
    ensures
        spec_dec_response(spec_enc_response(m) + rest) == Some((m, rest)),
{
    lemma_response_tags();
    let fields = spec_enc_response_fields_usage_sample(m);
    lemma_dec_response_dispatch("usage_sample"@, 5, fields, rest);
    lemma_utf8_ne("version"@, "usage_sample"@);
    lemma_utf8_ne("health"@, "usage_sample"@);
    lemma_utf8_ne("cell_created"@, "usage_sample"@);
    lemma_utf8_ne("job_started"@, "usage_sample"@);
    lemma_utf8_ne("job_status"@, "usage_sample"@);
    lemma_utf8_ne("job_killed"@, "usage_sample"@);
    lemma_utf8_ne("cell_removed"@, "usage_sample"@);
    lemma_utf8_ne("logs_chunk"@, "usage_sample"@);
    lemma_utf8_ne("pty_opened"@, "usage_sample"@);
    lemma_utf8_ne("pty_chunk"@, "usage_sample"@);
    lemma_utf8_ne("pty_ack"@, "usage_sample"@);
    lemma_dec_response_form_usage_sample(m, rest);
}

/// Decoding inverts encoding for the fields of the error form.
#[verifier::rlimit(100)]
proof fn lemma_dec_response_form_error(m: ResponseV, rest: Seq<u8>)
    requires
        m is Error,
        response_fits(m),
    ensures
        spec_dec_response_form_error(4, spec_enc_response_fields_error(m) + rest) == Some((m, rest)),
{
    reveal(spec_dec_response_form_error);
    reveal(spec_enc_response_fields_error);
    lemma_response_keys();
    match m {
        ResponseV::Error { code, message, detail } => {
            let k_code = spec_enc_text("code"@);
            let v_code = spec_enc_error_code(code);
            let k_message = spec_enc_text("message"@);
            let v_message = spec_enc_text(message);
            let k_detail = spec_enc_text("detail"@);
            let v_detail = spec_enc_opt_text(detail);
            lemma_concat_assoc(k_code + v_code + k_message + v_message + k_detail, v_detail, rest);
            lemma_concat_assoc(k_code + v_code + k_message + v_message, k_detail, (v_detail + rest));
            lemma_concat_assoc(k_code + v_code + k_message, v_message, (k_detail + (v_detail + rest)));
            lemma_concat_assoc(k_code + v_code, k_message, (v_message + (k_detail + (v_detail + rest))));
            lemma_concat_assoc(k_code, v_code, (k_message + (v_message + (k_detail + (v_detail + rest)))));
            lemma_dec_key_enc("code"@, (v_code + (k_message + (v_message + (k_detail + (v_detail + rest))))));
            lemma_dec_error_code_enc(code, (k_message + (v_message + (k_detail + (v_detail + rest)))));
            lemma_dec_key_enc("message"@, (v_message + (k_detail + (v_detail + rest))));
            lemma_dec_text_enc(message, (k_detail + (v_detail + rest)));
            lemma_dec_key_enc("detail"@, (v_detail + rest));
            lemma_dec_opt_text_enc(detail, rest);
        },
        _ => {},
    }
}

/// Decoding inverts encoding for the error form.
#[verifier::rlimit(100)]
proof fn lemma_dec_response_enc_error(m: ResponseV, rest: Seq<u8>)
    requires
        m is Error,
        response_fits(m),
    ensures
        spec_dec_response(spec_enc_response(m) + rest) == Some((m, rest)),
{
    lemma_response_tags();
    let fields = spec_enc_response_fields_error(m);
    lemma_dec_response_dispatch("error"@, 4, fields, rest);
    lemma_utf8_ne("version"@, "error"@);
    lemma_utf8_ne("health"@, "error"@);
    lemma_utf8_ne("cell_created"@, "error"@);
    lemma_utf8_ne("job_started"@, "error"@);
    lemma_utf8_ne("job_status"@, "error"@);
    lemma_utf8_ne("job_killed"@, "error"@);
    lemma_utf8_ne("cell_removed"@, "error"@);
    lemma_utf8_ne("logs_chunk"@, "error"@);
    lemma_utf8_ne("pty_opened"@, "error"@);
    lemma_utf8_ne("pty_chunk"@, "error"@);
    lemma_utf8_ne("pty_ack"@, "error"@);
    lemma_utf8_ne("usage_sample"@, "error"@);
    lemma_dec_response_form_error(m, rest);
}

/// Decoding a response body inverts encoding one.
pub proof fn lemma_dec_response_enc(m: ResponseV, rest: Seq<u8>)
    requires
        response_fits(m),
    ensures
        spec_dec_response(spec_enc_response(m) + rest) == Some((m, rest)),
{
    match m {
        ResponseV::Version { .. } => lemma_dec_response_enc_version(m, rest),
        ResponseV::Health { .. } => lemma_dec_response_enc_health(m, rest),
        ResponseV::CellCreated { .. } => lemma_dec_response_enc_cell_created(m, rest),
        ResponseV::JobStarted { .. } => lemma_dec_response_enc_job_started(m, rest),
        ResponseV::JobStatus { .. } => lemma_dec_response_enc_job_status(m, rest),
        ResponseV::JobKilled { .. } => lemma_dec_response_enc_job_killed(m, rest),
        ResponseV::CellRemoved { .. } => lemma_dec_response_enc_cell_removed(m, rest),
        ResponseV::LogsChunk { .. } => lemma_dec_response_enc_logs_chunk(m, rest),
        ResponseV::PtyOpened { .. } => lemma_dec_response_enc_pty_opened(m, rest),
        ResponseV::PtyChunk { .. } => lemma_dec_response_enc_pty_chunk(m, rest),
        ResponseV::PtyAck { .. } => lemma_dec_response_enc_pty_ack(m, rest),
        ResponseV::UsageSample { .. } => lemma_dec_response_enc_usage_sample(m, rest),
        ResponseV::Error { .. } => lemma_dec_response_enc_error(m, rest),
    }
}

/// Appends an encoded response body.
#[verifier::rlimit(100)]
pub fn enc_response(out: &mut Vec<u8>, v: &Response)
    ensures
        final(out)@ == old(out)@ + spec_enc_response(v@),
{
    match v {
        Response::Version { daemon, protocol } => {
            enc_uint(out, MAJOR_MAP, 3);
            enc_text(out, "type");
            enc_text(out, "version");
            enc_text(out, "daemon");
            enc_text(out, daemon.as_str());
            enc_text(out, "protocol");
            enc_u64(out, *protocol as u64);
            proof {
                reveal(spec_enc_response_fields_version);
                let o = old(out)@;
                let h = spec_enc_uint(MAJOR_MAP, 3);
                let tk = spec_enc_text("type"@);
                let tv = spec_enc_text("version"@);
                let k_daemon = spec_enc_text("daemon"@);
                let v_daemon = spec_enc_text(daemon@);
                let k_protocol = spec_enc_text("protocol"@);
                let v_protocol = spec_enc_u64(*protocol as u64);
                lemma_concat_assoc(o, h, tk);
                lemma_concat_assoc(o, h + tk, tv);
                lemma_concat_assoc(o, h + tk + tv, k_daemon);
                lemma_concat_assoc(o, h + tk + tv + k_daemon, v_daemon);
                lemma_concat_assoc(o, h + tk + tv + k_daemon + v_daemon, k_protocol);
                lemma_concat_assoc(o, h + tk + tv + k_daemon + v_daemon + k_protocol, v_protocol);
                lemma_concat_assoc(h + tk + tv, k_daemon, v_daemon);
                lemma_concat_assoc(h + tk + tv, k_daemon + v_daemon, k_protocol);
                lemma_concat_assoc(h + tk + tv, k_daemon + v_daemon + k_protocol, v_protocol);
            }
        },
        Response::Health { status } => {
            enc_uint(out, MAJOR_MAP, 2);
            enc_text(out, "type");
            enc_text(out, "health");
            enc_text(out, "status");
            enc_text(out, status.as_str());
            proof {
                reveal(spec_enc_response_fields_health);
                let o = old(out)@;
                let h = spec_enc_uint(MAJOR_MAP, 2);
                let tk = spec_enc_text("type"@);
                let tv = spec_enc_text("health"@);
                let k_status = spec_enc_text("status"@);
                let v_status = spec_enc_text(status@);
                lemma_concat_assoc(o, h, tk);
                lemma_concat_assoc(o, h + tk, tv);
                lemma_concat_assoc(o, h + tk + tv, k_status);
                lemma_concat_assoc(o, h + tk + tv + k_status, v_status);
                lemma_concat_assoc(h + tk + tv, k_status, v_status);
            }
        },
        Response::CellCreated { cell } => {
            enc_uint(out, MAJOR_MAP, 2);
            enc_text(out, "type");
            enc_text(out, "cell_created");
            enc_text(out, "cell");
            enc_cell_info(out, cell);
            proof {
                reveal(spec_enc_response_fields_cell_created);
                let o = old(out)@;
                let h = spec_enc_uint(MAJOR_MAP, 2);
                let tk = spec_enc_text("type"@);
                let tv = spec_enc_text("cell_created"@);
                let k_cell = spec_enc_text("cell"@);
                let v_cell = spec_enc_cell_info(cell@);
                lemma_concat_assoc(o, h, tk);
                lemma_concat_assoc(o, h + tk, tv);
                lemma_concat_assoc(o, h + tk + tv, k_cell);
                lemma_concat_assoc(o, h + tk + tv + k_cell, v_cell);
                lemma_concat_assoc(h + tk + tv, k_cell, v_cell);
            }
        },
        Response::JobStarted { job } => {
            enc_uint(out, MAJOR_MAP, 2);
            enc_text(out, "type");
            enc_text(out, "job_started");
            enc_text(out, "job");
            enc_job_info(out, job);
            proof {
                reveal(spec_enc_response_fields_job_started);
                let o = old(out)@;
                let h = spec_enc_uint(MAJOR_MAP, 2);
                let tk = spec_enc_text("type"@);
                let tv = spec_enc_text("job_started"@);
                let k_job = spec_enc_text("job"@);
                let v_job = spec_enc_job_info(job@);
                lemma_concat_assoc(o, h, tk);
                lemma_concat_assoc(o, h + tk, tv);
                lemma_concat_assoc(o, h + tk + tv, k_job);
                lemma_concat_assoc(o, h + tk + tv + k_job, v_job);
                lemma_concat_assoc(h + tk + tv, k_job, v_job);
            }
        },
        Response::JobStatus { job } => {
            enc_uint(out, MAJOR_MAP, 2);
            enc_text(out, "type");
            enc_text(out, "job_status");
            enc_text(out, "job");
            enc_job_info(out, job);
            proof {
                reveal(spec_enc_response_fields_job_status);
                let o = old(out)@;
                let h = spec_enc_uint(MAJOR_MAP, 2);
                let tk = spec_enc_text("type"@);
                let tv = spec_enc_text("job_status"@);
                let k_job = spec_enc_text("job"@);
                let v_job = spec_enc_job_info(job@);
                lemma_concat_assoc(o, h, tk);
                lemma_concat_assoc(o, h + tk, tv);
                lemma_concat_assoc(o, h + tk + tv, k_job);
                lemma_concat_assoc(o, h + tk + tv + k_job, v_job);
                lemma_concat_assoc(h + tk + tv, k_job, v_job);
            }
        },
        Response::JobKilled { job_id, signal, status } => {
            enc_uint(out, MAJOR_MAP, 4);
            enc_text(out, "type");
            enc_text(out, "job_killed");
            enc_text(out, "job_id");
            enc_text(out, job_id.0.as_str());
            enc_text(out, "signal");
            enc_text(out, signal.as_str());
            enc_text(out, "status");
            enc_exit_status(out, status);
            proof {
                reveal(spec_enc_response_fields_job_killed);
                let o = old(out)@;
                let h = spec_enc_uint(MAJOR_MAP, 4);
                let tk = spec_enc_text("type"@);
                let tv = spec_enc_text("job_killed"@);
                let k_job_id = spec_enc_text("job_id"@);
                let v_job_id = spec_enc_text(job_id@);
                let k_signal = spec_enc_text("signal"@);
                let v_signal = spec_enc_text(signal@);
                let k_status = spec_enc_text("status"@);
                let v_status = spec_enc_exit_status(*status);
                lemma_concat_assoc(o, h, tk);
                lemma_concat_assoc(o, h + tk, tv);
                lemma_concat_assoc(o, h + tk + tv, k_job_id);
                lemma_concat_assoc(o, h + tk + tv + k_job_id, v_job_id);
                lemma_concat_assoc(o, h + tk + tv + k_job_id + v_job_id, k_signal);
                lemma_concat_assoc(o, h + tk + tv + k_job_id + v_job_id + k_signal, v_signal);
                lemma_concat_assoc(o, h + tk + tv + k_job_id + v_job_id + k_signal + v_signal, k_status);
                lemma_concat_assoc(o, h + tk + tv + k_job_id + v_job_id + k_signal + v_signal + k_status, v_status);
                lemma_concat_assoc(h + tk + tv, k_job_id, v_job_id);
                lemma_concat_assoc(h + tk + tv, k_job_id + v_job_id, k_signal);
                lemma_concat_assoc(h + tk + tv, k_job_id + v_job_id + k_signal, v_signal);
                lemma_concat_assoc(h + tk + tv, k_job_id + v_job_id + k_signal + v_signal, k_status);
                lemma_concat_assoc(h + tk + tv, k_job_id + v_job_id + k_signal + v_signal + k_status, v_status);
            }
        },
        Response::CellRemoved { cell_id } => {
            enc_uint(out, MAJOR_MAP, 2);
            enc_text(out, "type");
            enc_text(out, "cell_removed");
            enc_text(out, "cell_id");
            enc_text(out, cell_id.0.as_str());
            proof {
                reveal(spec_enc_response_fields_cell_removed);
                let o = old(out)@;
                let h = spec_enc_uint(MAJOR_MAP, 2);
                let tk = spec_enc_text("type"@);
                let tv = spec_enc_text("cell_removed"@);
                let k_cell_id = spec_enc_text("cell_id"@);
                let v_cell_id = spec_enc_text(cell_id@);
                lemma_concat_assoc(o, h, tk);
                lemma_concat_assoc(o, h + tk, tv);
                lemma_concat_assoc(o, h + tk + tv, k_cell_id);
                lemma_concat_assoc(o, h + tk + tv + k_cell_id, v_cell_id);
                lemma_concat_assoc(h + tk + tv, k_cell_id, v_cell_id);
            }
        },
        Response::LogsChunk { job_id, stream, offset, data, eof, complete } => {
            enc_uint(out, MAJOR_MAP, 7);
            enc_text(out, "type");
            enc_text(out, "logs_chunk");
            enc_text(out, "job_id");
            enc_text(out, job_id.0.as_str());
            enc_text(out, "stream");
            enc_log_stream(out, stream);
            enc_text(out, "offset");
            enc_u64(out, *offset);
            enc_text(out, "data");
            enc_data(out, data);
            enc_text(out, "eof");
            enc_bool(out, *eof);
            enc_text(out, "complete");
            enc_bool(out, *complete);
            proof {
                reveal(spec_enc_response_fields_logs_chunk);
                let o = old(out)@;
                let h = spec_enc_uint(MAJOR_MAP, 7);
                let tk = spec_enc_text("type"@);
                let tv = spec_enc_text("logs_chunk"@);
                let k_job_id = spec_enc_text("job_id"@);
                let v_job_id = spec_enc_text(job_id@);
                let k_stream = spec_enc_text("stream"@);
                let v_stream = spec_enc_log_stream(*stream);
                let k_offset = spec_enc_text("offset"@);
                let v_offset = spec_enc_u64(*offset);
                let k_data = spec_enc_text("data"@);
                let v_data = spec_enc_bytes(data@);
                let k_eof = spec_enc_text("eof"@);
                let v_eof = spec_enc_bool(*eof);
                let k_complete = spec_enc_text("complete"@);
                let v_complete = spec_enc_bool(*complete);
                lemma_concat_assoc(o, h, tk);
                lemma_concat_assoc(o, h + tk, tv);
                lemma_concat_assoc(o, h + tk + tv, k_job_id);
                lemma_concat_assoc(o, h + tk + tv + k_job_id, v_job_id);
                lemma_concat_assoc(o, h + tk + tv + k_job_id + v_job_id, k_stream);
                lemma_concat_assoc(o, h + tk + tv + k_job_id + v_job_id + k_stream, v_stream);
                lemma_concat_assoc(o, h + tk + tv + k_job_id + v_job_id + k_stream + v_stream, k_offset);
                lemma_concat_assoc(o, h + tk + tv + k_job_id + v_job_id + k_stream + v_stream + k_offset, v_offset);
                lemma_concat_assoc(o, h + tk + tv + k_job_id + v_job_id + k_stream + v_stream + k_offset + v_offset, k_data);
                lemma_concat_assoc(o, h + tk + tv + k_job_id + v_job_id + k_stream + v_stream + k_offset + v_offset + k_data, v_data);
                lemma_concat_assoc(o, h + tk + tv + k_job_id + v_job_id + k_stream + v_stream + k_offset + v_offset + k_data + v_data, k_eof);
                lemma_concat_assoc(o, h + tk + tv + k_job_id + v_job_id + k_stream + v_stream + k_offset + v_offset + k_data + v_data + k_eof, v_eof);
                lemma_concat_assoc(o, h + tk + tv + k_job_id + v_job_id + k_stream + v_stream + k_offset + v_offset + k_data + v_data + k_eof + v_eof, k_complete);
                lemma_concat_assoc(o, h + tk + tv + k_job_id + v_job_id + k_stream + v_stream + k_offset + v_offset + k_data + v_data + k_eof + v_eof + k_complete, v_complete);
                lemma_concat_assoc(h + tk + tv, k_job_id, v_job_id);
                lemma_concat_assoc(h + tk + tv, k_job_id + v_job_id, k_stream);
                lemma_concat_assoc(h + tk + tv, k_job_id + v_job_id + k_stream, v_stream);
                lemma_concat_assoc(h + tk + tv, k_job_id + v_job_id + k_stream + v_stream, k_offset);
                lemma_concat_assoc(h + tk + tv, k_job_id + v_job_id + k_stream + v_stream + k_offset, v_offset);
                lemma_concat_assoc(h + tk + tv, k_job_id + v_job_id + k_stream + v_stream + k_offset + v_offset, k_data);
                lemma_concat_assoc(h + tk + tv, k_job_id + v_job_id + k_stream + v_stream + k_offset + v_offset + k_data, v_data);
                lemma_concat_assoc(h + tk + tv, k_job_id + v_job_id + k_stream + v_stream + k_offset + v_offset + k_data + v_data, k_eof);
                lemma_concat_assoc(h + tk + tv, k_job_id + v_job_id + k_stream + v_stream + k_offset + v_offset + k_data + v_data + k_eof, v_eof);
                lemma_concat_assoc(h + tk + tv, k_job_id + v_job_id + k_stream + v_stream + k_offset + v_offset + k_data + v_data + k_eof + v_eof, k_complete);
                lemma_concat_assoc(h + tk + tv, k_job_id + v_job_id + k_stream + v_stream + k_offset + v_offset + k_data + v_data + k_eof + v_eof + k_complete, v_complete);
            }
        },
        Response::PtyOpened { session_id, pid } => {
            enc_uint(out, MAJOR_MAP, 3);
            enc_text(out, "type");
            enc_text(out, "pty_opened");
            enc_text(out, "session_id");
            enc_u64(out, session_id.0);
            enc_text(out, "pid");
            enc_opt_u32(out, pid);
            proof {
                reveal(spec_enc_response_fields_pty_opened);
                let o = old(out)@;
                let h = spec_enc_uint(MAJOR_MAP, 3);
                let tk = spec_enc_text("type"@);
                let tv = spec_enc_text("pty_opened"@);
                let k_session_id = spec_enc_text("session_id"@);
                let v_session_id = spec_enc_u64(session_id.0);
                let k_pid = spec_enc_text("pid"@);
                let v_pid = spec_enc_opt_u32(*pid);
                lemma_concat_assoc(o, h, tk);
                lemma_concat_assoc(o, h + tk, tv);
                lemma_concat_assoc(o, h + tk + tv, k_session_id);
                lemma_concat_assoc(o, h + tk + tv + k_session_id, v_session_id);
                lemma_concat_assoc(o, h + tk + tv + k_session_id + v_session_id, k_pid);
                lemma_concat_assoc(o, h + tk + tv + k_session_id + v_session_id + k_pid, v_pid);
                lemma_concat_assoc(h + tk + tv, k_session_id, v_session_id);
                lemma_concat_assoc(h + tk + tv, k_session_id + v_session_id, k_pid);
                lemma_concat_assoc(h + tk + tv, k_session_id + v_session_id + k_pid, v_pid);
            }
        },
        Response::PtyChunk { session_id, offset, data, eof, complete, exit_code } => {
            enc_uint(out, MAJOR_MAP, 7);
            enc_text(out, "type");
            enc_text(out, "pty_chunk");
            enc_text(out, "session_id");
            enc_u64(out, session_id.0);
            enc_text(out, "offset");
            enc_u64(out, *offset);
            enc_text(out, "data");
            enc_data(out, data);
            enc_text(out, "eof");
            enc_bool(out, *eof);
            enc_text(out, "complete");
            enc_bool(out, *complete);
            enc_text(out, "exit_code");
            enc_opt_i32(out, exit_code);
            proof {
                reveal(spec_enc_response_fields_pty_chunk);
                let o = old(out)@;
                let h = spec_enc_uint(MAJOR_MAP, 7);
                let tk = spec_enc_text("type"@);
                let tv = spec_enc_text("pty_chunk"@);
                let k_session_id = spec_enc_text("session_id"@);
                let v_session_id = spec_enc_u64(session_id.0);
                let k_offset = spec_enc_text("offset"@);
                let v_offset = spec_enc_u64(*offset);
                let k_data = spec_enc_text("data"@);
                let v_data = spec_enc_bytes(data@);
                let k_eof = spec_enc_text("eof"@);
                let v_eof = spec_enc_bool(*eof);
                let k_complete = spec_enc_text("complete"@);
                let v_complete = spec_enc_bool(*complete);
                let k_exit_code = spec_enc_text("exit_code"@);
                let v_exit_code = spec_enc_opt_i32(*exit_code);
                lemma_concat_assoc(o, h, tk);
                lemma_concat_assoc(o, h + tk, tv);
                lemma_concat_assoc(o, h + tk + tv, k_session_id);
                lemma_concat_assoc(o, h + tk + tv + k_session_id, v_session_id);
                lemma_concat_assoc(o, h + tk + tv + k_session_id + v_session_id, k_offset);
                lemma_concat_assoc(o, h + tk + tv + k_session_id + v_session_id + k_offset, v_offset);
                lemma_concat_assoc(o, h + tk + tv + k_session_id + v_session_id + k_offset + v_offset, k_data);
                lemma_concat_assoc(o, h + tk + tv + k_session_id + v_session_id + k_offset + v_offset + k_data, v_data);
                lemma_concat_assoc(o, h + tk + tv + k_session_id + v_session_id + k_offset + v_offset + k_data + v_data, k_eof);
                lemma_concat_assoc(o, h + tk + tv + k_session_id + v_session_id + k_offset + v_offset + k_data + v_data + k_eof, v_eof);
                lemma_concat_assoc(o, h + tk + tv + k_session_id + v_session_id + k_offset + v_offset + k_data + v_data + k_eof + v_eof, k_complete);
                lemma_concat_assoc(o, h + tk + tv + k_session_id + v_session_id + k_offset + v_offset + k_data + v_data + k_eof + v_eof + k_complete, v_complete);
                lemma_concat_assoc(o, h + tk + tv + k_session_id + v_session_id + k_offset + v_offset + k_data + v_data + k_eof + v_eof + k_complete + v_complete, k_exit_code);
                lemma_concat_assoc(o, h + tk + tv + k_session_id + v_session_id + k_offset + v_offset + k_data + v_data + k_eof + v_eof + k_complete + v_complete + k_exit_code, v_exit_code);
                lemma_concat_assoc(h + tk + tv, k_session_id, v_session_id);
                lemma_concat_assoc(h + tk + tv, k_session_id + v_session_id, k_offset);
                lemma_concat_assoc(h + tk + tv, k_session_id + v_session_id + k_offset, v_offset);
                lemma_concat_assoc(h + tk + tv, k_session_id + v_session_id + k_offset + v_offset, k_data);
                lemma_concat_assoc(h + tk + tv, k_session_id + v_session_id + k_offset + v_offset + k_data, v_data);
                lemma_concat_assoc(h + tk + tv, k_session_id + v_session_id + k_offset + v_offset + k_data + v_data, k_eof);
                lemma_concat_assoc(h + tk + tv, k_session_id + v_session_id + k_offset + v_offset + k_data + v_data + k_eof, v_eof);
                lemma_concat_assoc(h + tk + tv, k_session_id + v_session_id + k_offset + v_offset + k_data + v_data + k_eof + v_eof, k_complete);
                lemma_concat_assoc(h + tk + tv, k_session_id + v_session_id + k_offset + v_offset + k_data + v_data + k_eof + v_eof + k_complete, v_complete);
                lemma_concat_assoc(h + tk + tv, k_session_id + v_session_id + k_offset + v_offset + k_data + v_data + k_eof + v_eof + k_complete + v_complete, k_exit_code);
                lemma_concat_assoc(h + tk + tv, k_session_id + v_session_id + k_offset + v_offset + k_data + v_data + k_eof + v_eof + k_complete + v_complete + k_exit_code, v_exit_code);
            }
        },
        Response::PtyAck { session_id, action } => {
            enc_uint(out, MAJOR_MAP, 3);
            enc_text(out, "type");
            enc_text(out, "pty_ack");
            enc_text(out, "session_id");
            enc_u64(out, session_id.0);
            enc_text(out, "action");
            enc_pty_action(out, action);
            proof {
                reveal(spec_enc_response_fields_pty_ack);
                let o = old(out)@;
                let h = spec_enc_uint(MAJOR_MAP, 3);
                let tk = spec_enc_text("type"@);
                let tv = spec_enc_text("pty_ack"@);
                let k_session_id = spec_enc_text("session_id"@);
                let v_session_id = spec_enc_u64(session_id.0);
                let k_action = spec_enc_text("action"@);
                let v_action = spec_enc_pty_action(*action);
                lemma_concat_assoc(o, h, tk);
                lemma_concat_assoc(o, h + tk, tv);
                lemma_concat_assoc(o, h + tk + tv, k_session_id);
                lemma_concat_assoc(o, h + tk + tv + k_session_id, v_session_id);
                lemma_concat_assoc(o, h + tk + tv + k_session_id + v_session_id, k_action);
                lemma_concat_assoc(o, h + tk + tv + k_session_id + v_session_id + k_action, v_action);
                lemma_concat_assoc(h + tk + tv, k_session_id, v_session_id);
                lemma_concat_assoc(h + tk + tv, k_session_id + v_session_id, k_action);
                lemma_concat_assoc(h + tk + tv, k_session_id + v_session_id + k_action, v_action);
            }
        },
        Response::UsageSample { job_id, rss_bytes, cpu_nanos, timestamp_ms } => {
            enc_uint(out, MAJOR_MAP, 5);
            enc_text(out, "type");
            enc_text(out, "usage_sample");
            enc_text(out, "job_id");
            enc_text(out, job_id.0.as_str());
            enc_text(out, "rss_bytes");
            enc_opt_u64(out, rss_bytes);
            enc_text(out, "cpu_nanos");
            enc_opt_u64(out, cpu_nanos);
            enc_text(out, "timestamp_ms");
            enc_u64(out, *timestamp_ms);
            proof {
                reveal(spec_enc_response_fields_usage_sample);
                let o = old(out)@;
                let h = spec_enc_uint(MAJOR_MAP, 5);
                let tk = spec_enc_text("type"@);
                let tv = spec_enc_text("usage_sample"@);
                let k_job_id = spec_enc_text("job_id"@);
                let v_job_id = spec_enc_text(job_id@);
                let k_rss_bytes = spec_enc_text("rss_bytes"@);
                let v_rss_bytes = spec_enc_opt_u64(*rss_bytes);
                let k_cpu_nanos = spec_enc_text("cpu_nanos"@);
                let v_cpu_nanos = spec_enc_opt_u64(*cpu_nanos);
                let k_timestamp_ms = spec_enc_text("timestamp_ms"@);
                let v_timestamp_ms = spec_enc_u64(*timestamp_ms);
                lemma_concat_assoc(o, h, tk);
                lemma_concat_assoc(o, h + tk, tv);
                lemma_concat_assoc(o, h + tk + tv, k_job_id);
                lemma_concat_assoc(o, h + tk + tv + k_job_id, v_job_id);
                lemma_concat_assoc(o, h + tk + tv + k_job_id + v_job_id, k_rss_bytes);
                lemma_concat_assoc(o, h + tk + tv + k_job_id + v_job_id + k_rss_bytes, v_rss_bytes);
                lemma_concat_assoc(o, h + tk + tv + k_job_id + v_job_id + k_rss_bytes + v_rss_bytes, k_cpu_nanos);
                lemma_concat_assoc(o, h + tk + tv + k_job_id + v_job_id + k_rss_bytes + v_rss_bytes + k_cpu_nanos, v_cpu_nanos);
                lemma_concat_assoc(o, h + tk + tv + k_job_id + v_job_id + k_rss_bytes + v_rss_bytes + k_cpu_nanos + v_cpu_nanos, k_timestamp_ms);
                lemma_concat_assoc(o, h + tk + tv + k_job_id + v_job_id + k_rss_bytes + v_rss_bytes + k_cpu_nanos + v_cpu_nanos + k_timestamp_ms, v_timestamp_ms);
                lemma_concat_assoc(h + tk + tv, k_job_id, v_job_id);
                lemma_concat_assoc(h + tk + tv, k_job_id + v_job_id, k_rss_bytes);
                lemma_concat_assoc(h + tk + tv, k_job_id + v_job_id + k_rss_bytes, v_rss_bytes);
                lemma_concat_assoc(h + tk + tv, k_job_id + v_job_id + k_rss_bytes + v_rss_bytes, k_cpu_nanos);
                lemma_concat_assoc(h + tk + tv, k_job_id + v_job_id + k_rss_bytes + v_rss_bytes + k_cpu_nanos, v_cpu_nanos);
                lemma_concat_assoc(h + tk + tv, k_job_id + v_job_id + k_rss_bytes + v_rss_bytes + k_cpu_nanos + v_cpu_nanos, k_timestamp_ms);
                lemma_concat_assoc(h + tk + tv, k_job_id + v_job_id + k_rss_bytes + v_rss_bytes + k_cpu_nanos + v_cpu_nanos + k_timestamp_ms, v_timestamp_ms);
            }
        },
        Response::Error { code, message, detail } => {
            enc_uint(out, MAJOR_MAP, 4);
            enc_text(out, "type");
            enc_text(out, "error");
            enc_text(out, "code");
            enc_error_code(out, code);
            enc_text(out, "message");
            enc_text(out, message.as_str());
            enc_text(out, "detail");
            enc_opt_text(out, detail);
            proof {
                reveal(spec_enc_response_fields_error);
                let o = old(out)@;
                let h = spec_enc_uint(MAJOR_MAP, 4);
                let tk = spec_enc_text("type"@);
                let tv = spec_enc_text("error"@);
                let k_code = spec_enc_text("code"@);
                let v_code = spec_enc_error_code(*code);
                let k_message = spec_enc_text("message"@);
                let v_message = spec_enc_text(message@);
                let k_detail = spec_enc_text("detail"@);
                let v_detail = spec_enc_opt_text(detail.deep_view());
                lemma_concat_assoc(o, h, tk);
                lemma_concat_assoc(o, h + tk, tv);
                lemma_concat_assoc(o, h + tk + tv, k_code);
                lemma_concat_assoc(o, h + tk + tv + k_code, v_code);
                lemma_concat_assoc(o, h + tk + tv + k_code + v_code, k_message);
                lemma_concat_assoc(o, h + tk + tv + k_code + v_code + k_message, v_message);
                lemma_concat_assoc(o, h + tk + tv + k_code + v_code + k_message + v_message, k_detail);
                lemma_concat_assoc(o, h + tk + tv + k_code + v_code + k_message + v_message + k_detail, v_detail);
                lemma_concat_assoc(h + tk + tv, k_code, v_code);
                lemma_concat_assoc(h + tk + tv, k_code + v_code, k_message);
                lemma_concat_assoc(h + tk + tv, k_code + v_code + k_message, v_message);
                lemma_concat_assoc(h + tk + tv, k_code + v_code + k_message + v_message, k_detail);
                lemma_concat_assoc(h + tk + tv, k_code + v_code + k_message + v_message + k_detail, v_detail);
            }
        },
    }
}

/// Reads the fields of the version form at `pos`.
#[verifier::rlimit(100)]
fn dec_response_form_version(buf: &[u8], cnt: u64, pos: usize) -> (r: Option<(Response, usize)>)
    requires
        pos <= buf@.len(),
    ensures
        ({
            let s = buf@.skip(pos as int);
            match spec_dec_response_form_version(cnt, s) {
                Some((v, rem)) => r matches Some((ov, end)) && ov@ == v && pos <= end
                    <= buf@.len() && buf@.skip(end as int) == rem,
                None => r is None,
            }
        }),
{
    reveal(spec_dec_response_form_version);
    if cnt != 3 {
        return None;
    }
    let Some(q0) = dec_key(buf, pos, "daemon") else { return None };
    let Some((daemon, q1)) = dec_text(buf, q0) else { return None };
    let Some(q2) = dec_key(buf, q1, "protocol") else { return None };
    let Some((protocol, q3)) = dec_u32(buf, q2) else { return None };
    Some((Response::Version { daemon, protocol }, q3))
}

/// Reads the fields of the health form at `pos`.
#[verifier::rlimit(100)]
fn dec_response_form_health(buf: &[u8], cnt: u64, pos: usize) -> (r: Option<(Response, usize)>)
    requires
        pos <= buf@.len(),
    ensures
        ({
            let s = buf@.skip(pos as int);
            match spec_dec_response_form_health(cnt, s) {
                Some((v, rem)) => r matches Some((ov, end)) && ov@ == v && pos <= end
                    <= buf@.len() && buf@.skip(end as int) == rem,
                None => r is None,
            }
        }),
{
    reveal(spec_dec_response_form_health);
    if cnt != 2 {
        return None;
    }
    let Some(q0) = dec_key(buf, pos, "status") else { return None };
    let Some((status, q1)) = dec_text(buf, q0) else { return None };
    Some((Response::Health { status }, q1))
}

/// Reads the fields of the cell_created form at `pos`.
#[verifier::rlimit(100)]
fn dec_response_form_cell_created(buf: &[u8], cnt: u64, pos: usize) -> (r: Option<(Response, usize)>)
    requires
        pos <= buf@.len(),
    ensures
        ({
            let s = buf@.skip(pos as int);
            match spec_dec_response_form_cell_created(cnt, s) {
                Some((v, rem)) => r matches Some((ov, end)) && ov@ == v && pos <= end
                    <= buf@.len() && buf@.skip(end as int) == rem,
                None => r is None,
            }
        }),
{
    reveal(spec_dec_response_form_cell_created);
    if cnt != 2 {
        return None;
    }
    let Some(q0) = dec_key(buf, pos, "cell") else { return None };
    let Some((cell, q1)) = dec_cell_info(buf, q0) else { return None };
    Some((Response::CellCreated { cell }, q1))
}

/// Reads the fields of the job_started form at `pos`.
#[verifier::rlimit(100)]
fn dec_response_form_job_started(buf: &[u8], cnt: u64, pos: usize) -> (r: Option<(Response, usize)>)
    requires
        pos <= buf@.len(),
    ensures
        ({
            let s = buf@.skip(pos as int);
            match spec_dec_response_form_job_started(cnt, s) {
                Some((v, rem)) => r matches Some((ov, end)) && ov@ == v && pos <= end
                    <= buf@.len() && buf@.skip(end as int) == rem,
                None => r is None,
            }
        }),
{
    reveal(spec_dec_response_form_job_started);
    if cnt != 2 {
        return None;
    }
    let Some(q0) = dec_key(buf, pos, "job") else { return None };
    let Some((job, q1)) = dec_job_info(buf, q0) else { return None };
    Some((Response::JobStarted { job }, q1))
}

/// Reads the fields of the job_status form at `pos`.
#[verifier::rlimit(100)]
fn dec_response_form_job_status(buf: &[u8], cnt: u64, pos: usize) -> (r: Option<(Response, usize)>)
    requires
        pos <= buf@.len(),
    ensures
        ({
            let s = buf@.skip(pos as int);
            match spec_dec_response_form_job_status(cnt, s) {
                Some((v, rem)) => r matches Some((ov, end)) && ov@ == v && pos <= end
                    <= buf@.len() && buf@.skip(end as int) == rem,
                None => r is None,
            }
        }),
{
    reveal(spec_dec_response_form_job_status);
    if cnt != 2 {
        return None;
    }
    let Some(q0) = dec_key(buf, pos, "job") else { return None };
    let Some((job, q1)) = dec_job_info(buf, q0) else { return None };
    Some((Response::JobStatus { job }, q1))
}

/// Reads the fields of the job_killed form at `pos`.
#[verifier::rlimit(100)]
fn dec_response_form_job_killed(buf: &[u8], cnt: u64, pos: usize) -> (r: Option<(Response, usize)>)
    requires
        pos <= buf@.len(),
    ensures
        ({
            let s = buf@.skip(pos as int);
            match spec_dec_response_form_job_killed(cnt, s) {
                Some((v, rem)) => r matches Some((ov, end)) && ov@ == v && pos <= end
                    <= buf@.len() && buf@.skip(end as int) == rem,
                None => r is None,
            }
        }),
{
    reveal(spec_dec_response_form_job_killed);
    if cnt != 4 {
        return None;
    }
    let Some(q0) = dec_key(buf, pos, "job_id") else { return None };
    let Some((job_id, q1)) = dec_text(buf, q0) else { return None };
    let Some(q2) = dec_key(buf, q1, "signal") else { return None };
    let Some((signal, q3)) = dec_text(buf, q2) else { return None };
    let Some(q4) = dec_key(buf, q3, "status") else { return None };
    let Some((status, q5)) = dec_exit_status(buf, q4) else { return None };
    Some((Response::JobKilled { job_id: JobId(job_id), signal, status }, q5))
}

/// Reads the fields of the cell_removed form at `pos`.
#[verifier::rlimit(100)]
fn dec_response_form_cell_removed(buf: &[u8], cnt: u64, pos: usize) -> (r: Option<(Response, usize)>)
    requires
        pos <= buf@.len(),
    ensures
        ({
            let s = buf@.skip(pos as int);
            match spec_dec_response_form_cell_removed(cnt, s) {
                Some((v, rem)) => r matches Some((ov, end)) && ov@ == v && pos <= end
                    <= buf@.len() && buf@.skip(end as int) == rem,
                None => r is None,
            }
        }),
{
    reveal(spec_dec_response_form_cell_removed);
    if cnt != 2 {
        return None;
    }
    let Some(q0) = dec_key(buf, pos, "cell_id") else { return None };
    let Some((cell_id, q1)) = dec_text(buf, q0) else { return None };
    Some((Response::CellRemoved { cell_id: CellId(cell_id) }, q1))
}

/// Reads the fields of the logs_chunk form at `pos`.
#[verifier::rlimit(100)]
fn dec_response_form_logs_chunk(buf: &[u8], cnt: u64, pos: usize) -> (r: Option<(Response, usize)>)
    requires
        pos <= buf@.len(),
    ensures
        ({
            let s = buf@.skip(pos as int);
            match spec_dec_response_form_logs_chunk(cnt, s) {
                Some((v, rem)) => r matches Some((ov, end)) && ov@ == v && pos <= end
                    <= buf@.len() && buf@.skip(end as int) == rem,
                None => r is None,
            }
        }),
{
    reveal(spec_dec_response_form_logs_chunk);
    if cnt != 7 {
        return None;
    }
    let Some(q0) = dec_key(buf, pos, "job_id") else { return None };
    let Some((job_id, q1)) = dec_text(buf, q0) else { return None };
    let Some(q2) = dec_key(buf, q1, "stream") else { return None };
    let Some((stream, q3)) = dec_log_stream(buf, q2) else { return None };
    let Some(q4) = dec_key(buf, q3, "offset") else { return None };
    let Some((offset, q5)) = dec_u64(buf, q4) else { return None };
    let Some(q6) = dec_key(buf, q5, "data") else { return None };
    let Some((data, q7)) = dec_data(buf, q6) else { return None };
    let Some(q8) = dec_key(buf, q7, "eof") else { return None };
    let Some((eof, q9)) = dec_bool(buf, q8) else { return None };
    let Some(q10) = dec_key(buf, q9, "complete") else { return None };
    let Some((complete, q11)) = dec_bool(buf, q10) else { return None };
    Some((Response::LogsChunk { job_id: JobId(job_id), stream, offset, data, eof, complete }, q11))
}

/// Reads the fields of the pty_opened form at `pos`.
#[verifier::rlimit(100)]
fn dec_response_form_pty_opened(buf: &[u8], cnt: u64, pos: usize) -> (r: Option<(Response, usize)>)
    requires
        pos <= buf@.len(),
    ensures
        ({
            let s = buf@.skip(pos as int);
            match spec_dec_response_form_pty_opened(cnt, s) {
                Some((v, rem)) => r matches Some((ov, end)) && ov@ == v && pos <= end
                    <= buf@.len() && buf@.skip(end as int) == rem,
                None => r is None,
            }
        }),
{
    reveal(spec_dec_response_form_pty_opened);
    if cnt != 3 {
        return None;
    }
    let Some(q0) = dec_key(buf, pos, "session_id") else { return None };
    let Some((session_id, q1)) = dec_u64(buf, q0) else { return None };
    let Some(q2) = dec_key(buf, q1, "pid") else { return None };
    let Some((pid, q3)) = dec_opt_u32(buf, q2) else { return None };
    Some((Response::PtyOpened { session_id: SessionId(session_id), pid }, q3))
}

/// Reads the fields of the pty_chunk form at `pos`.
#[verifier::rlimit(100)]
fn dec_response_form_pty_chunk(buf: &[u8], cnt: u64, pos: usize) -> (r: Option<(Response, usize)>)
    requires
        pos <= buf@.len(),
    ensures
        ({
            let s = buf@.skip(pos as int);
            match spec_dec_response_form_pty_chunk(cnt, s) {
                Some((v, rem)) => r matches Some((ov, end)) && ov@ == v && pos <= end
                    <= buf@.len() && buf@.skip(end as int) == rem,
                None => r is None,
            }
        }),
{
    reveal(spec_dec_response_form_pty_chunk);
    if cnt != 7 {
        return None;
    }
    let Some(q0) = dec_key(buf, pos, "session_id") else { return None };
    let Some((session_id, q1)) = dec_u64(buf, q0) else { return None };
    let Some(q2) = dec_key(buf, q1, "offset") else { return None };
    let Some((offset, q3)) = dec_u64(buf, q2) else { return None };
    let Some(q4) = dec_key(buf, q3, "data") else { return None };
    let Some((data, q5)) = dec_data(buf, q4) else { return None };
    let Some(q6) = dec_key(buf, q5, "eof") else { return None };
    let Some((eof, q7)) = dec_bool(buf, q6) else { return None };
    let Some(q8) = dec_key(buf, q7, "complete") else { return None };
    let Some((complete, q9)) = dec_bool(buf, q8) else { return None };
    let Some(q10) = dec_key(buf, q9, "exit_code") else { return None };
    let Some((exit_code, q11)) = dec_opt_i32(buf, q10) else { return None };
    Some((Response::PtyChunk { session_id: SessionId(session_id), offset, data, eof, complete, exit_code }, q11))
}

/// Reads the fields of the pty_ack form at `pos`.
#[verifier::rlimit(100)]
fn dec_response_form_pty_ack(buf: &[u8], cnt: u64, pos: usize) -> (r: Option<(Response, usize)>)
    requires
        pos <= buf@.len(),
    ensures
        ({
            let s = buf@.skip(pos as int);
            match spec_dec_response_form_pty_ack(cnt, s) {
                Some((v, rem)) => r matches Some((ov, end)) && ov@ == v && pos <= end
                    <= buf@.len() && buf@.skip(end as int) == rem,
                None => r is None,
            }
        }),
{
    reveal(spec_dec_response_form_pty_ack);
    if cnt != 3 {
        return None;
    }
    let Some(q0) = dec_key(buf, pos, "session_id") else { return None };
    let Some((session_id, q1)) = dec_u64(buf, q0) else { return None };
    let Some(q2) = dec_key(buf, q1, "action") else { return None };
    let Some((action, q3)) = dec_pty_action(buf, q2) else { return None };
    Some((Response::PtyAck { session_id: SessionId(session_id), action }, q3))
}

/// Reads the fields of the usage_sample form at `pos`.
#[verifier::rlimit(100)]
fn dec_response_form_usage_sample(buf: &[u8], cnt: u64, pos: usize) -> (r: Option<(Response, usize)>)
    requires
        pos <= buf@.len(),
    ensures
        ({
            let s = buf@.skip(pos as int);
            match spec_dec_response_form_usage_sample(cnt, s) {
                Some((v, rem)) => r matches Some((ov, end)) && ov@ == v && pos <= end
                    <= buf@.len() && buf@.skip(end as int) == rem,
                None => r is None,
            }
        }),
{
    reveal(spec_dec_response_form_usage_sample);
    if cnt != 5 {
        return None;
    }
    let Some(q0) = dec_key(buf, pos, "job_id") else { return None };
    let Some((job_id, q1)) = dec_text(buf, q0) else { return None };
    let Some(q2) = dec_key(buf, q1, "rss_bytes") else { return None };
    let Some((rss_bytes, q3)) = dec_opt_u64(buf, q2) else { return None };
    let Some(q4) = dec_key(buf, q3, "cpu_nanos") else { return None };
    let Some((cpu_nanos, q5)) = dec_opt_u64(buf, q4) else { return None };
    let Some(q6) = dec_key(buf, q5, "timestamp_ms") else { return None };
    let Some((timestamp_ms, q7)) = dec_u64(buf, q6) else { return None };
    Some((Response::UsageSample { job_id: JobId(job_id), rss_bytes, cpu_nanos, timestamp_ms }, q7))
}

/// Reads the fields of the error form at `pos`.
#[verifier::rlimit(100)]
fn dec_response_form_error(buf: &[u8], cnt: u64, pos: usize) -> (r: Option<(Response, usize)>)
    requires
        pos <= buf@.len(),
    ensures
        ({
            let s = buf@.skip(pos as int);
            match spec_dec_response_form_error(cnt, s) {
                Some((v, rem)) => r matches Some((ov, end)) && ov@ == v && pos <= end
                    <= buf@.len() && buf@.skip(end as int) == rem,
                None => r is None,
            }
        }),
{
    reveal(spec_dec_response_form_error);
    if cnt != 4 {
        return None;
    }
    let Some(q0) = dec_key(buf, pos, "code") else { return None };
    let Some((code, q1)) = dec_error_code(buf, q0) else { return None };
    let Some(q2) = dec_key(buf, q1, "message") else { return None };
    let Some((message, q3)) = dec_text(buf, q2) else { return None };
    let Some(q4) = dec_key(buf, q3, "detail") else { return None };
    let Some((detail, q5)) = dec_opt_text(buf, q4) else { return None };
    Some((Response::Error { code, message, detail }, q5))
}

/// Reads a response body at `pos`.
#[verifier::rlimit(100)]
pub fn dec_response(buf: &[u8], pos: usize) -> (r: Option<(Response, usize)>)
    requires
        pos <= buf@.len(),
    ensures
        ({
            let s = buf@.skip(pos as int);
            match spec_dec_response(s) {
                Some((v, rem)) => r matches Some((ov, end)) && ov@ == v && pos <= end
                    <= buf@.len() && buf@.skip(end as int) == rem,
                None => r is None,
            }
        }),
{
    let Some((cnt, p0)) = dec_map_head(buf, pos) else { return None };
    let Some(p1) = dec_key(buf, p0, "type") else { return None };
    let Some((ts, te)) = dec_segment(buf, p1, MAJOR_TEXT) else { return None };
    if seg_is(buf, ts, te, "version") {
        dec_response_form_version(buf, cnt, te)
    } else if seg_is(buf, ts, te, "health") {
        dec_response_form_health(buf, cnt, te)
    } else if seg_is(buf, ts, te, "cell_created") {
        dec_response_form_cell_created(buf, cnt, te)
    } else if seg_is(buf, ts, te, "job_started") {
        dec_response_form_job_started(buf, cnt, te)
    } else if seg_is(buf, ts, te, "job_status") {
        dec_response_form_job_status(buf, cnt, te)
    } else if seg_is(buf, ts, te, "job_killed") {
        dec_response_form_job_killed(buf, cnt, te)
    } else if seg_is(buf, ts, te, "cell_removed") {
        dec_response_form_cell_removed(buf, cnt, te)
    } else if seg_is(buf, ts, te, "logs_chunk") {
        dec_response_form_logs_chunk(buf, cnt, te)
    } else if seg_is(buf, ts, te, "pty_opened") {
        dec_response_form_pty_opened(buf, cnt, te)
    } else if seg_is(buf, ts, te, "pty_chunk") {
        dec_response_form_pty_chunk(buf, cnt, te)
    } else if seg_is(buf, ts, te, "pty_ack") {
        dec_response_form_pty_ack(buf, cnt, te)
    } else if seg_is(buf, ts, te, "usage_sample") {
        dec_response_form_usage_sample(buf, cnt, te)
    } else if seg_is(buf, ts, te, "error") {
        dec_response_form_error(buf, cnt, te)
    } else {
        None
    }
}

/// A response envelope model whose body fits wire lengths.
pub open spec fn response_envelope_fits(m: EnvelopeV<ResponseV>) -> bool {
    response_fits(m.body)
}

/// Encoded response envelope.
pub open spec fn spec_enc_response_envelope(m: EnvelopeV<ResponseV>) -> Seq<u8> {
    spec_enc_uint(MAJOR_MAP, 2) + spec_enc_text("req_id"@) + spec_enc_u64(m.req_id)
        + spec_enc_text("body"@) + spec_enc_response(m.body)
}

/// Parses a response envelope.
pub open spec fn spec_dec_response_envelope(b: Seq<u8>) -> Option<(EnvelopeV<ResponseV>, Seq<u8>)> {
    match spec_dec_head(b) {
        Some((m, cnt, r0)) => {
            if m != MAJOR_MAP || cnt != 2 {
                None
            } else {
                match spec_dec_key(r0, "req_id"@) {
                    Some(r1) => {
                        match spec_dec_u64(r1) {
                            Some((req_id, r2)) => {
                                match spec_dec_key(r2, "body"@) {
                                    Some(r3) => {
                                        match spec_dec_response(r3) {
                                            Some((body, r4)) => Some(
                                                (EnvelopeV { req_id, body }, r4),
                                            ),
                                            None => None,
                                        }
                                    },
                                    None => None,
                                }
                            },
                            None => None,
                        }
                    },
                    None => None,
                }
            }
        },
        None => None,
    }
}

/// Parses a complete response envelope frame, rejecting trailing bytes.
pub open spec fn spec_decode_response(b: Seq<u8>) -> Option<EnvelopeV<ResponseV>> {
    match spec_dec_response_envelope(b) {
        Some((m, rem)) => {
            if rem.len() == 0 {
                Some(m)
            } else {
                None
            }
        },
        None => None,
    }
}

/// Decoding a response envelope inverts encoding one.
pub proof fn lemma_dec_response_envelope_enc(m: EnvelopeV<ResponseV>, rest: Seq<u8>)
    requires
        response_envelope_fits(m),
    ensures
        spec_dec_response_envelope(spec_enc_response_envelope(m) + rest) == Some((m, rest)),
{
    reveal_strlit("req_id");
    reveal_strlit("body");
    assert("req_id"@.len() == 6);
    assert("body"@.len() == 4);
    lemma_short_text_fits("req_id"@);
    lemma_short_text_fits("body"@);
    let h = spec_enc_uint(MAJOR_MAP, 2);
    let k1 = spec_enc_text("req_id"@);
    let v1 = spec_enc_u64(m.req_id);
    let k2 = spec_enc_text("body"@);
    let v2 = spec_enc_response(m.body);
    lemma_concat_assoc(h + k1 + v1 + k2, v2, rest);
    lemma_concat_assoc(h + k1 + v1, k2, (v2 + rest));
    lemma_concat_assoc(h + k1, v1, (k2 + (v2 + rest)));
    lemma_concat_assoc(h, k1, (v1 + (k2 + (v2 + rest))));
    lemma_dec_head_enc(MAJOR_MAP, 2, (k1 + (v1 + (k2 + (v2 + rest)))));
    lemma_dec_key_enc("req_id"@, (v1 + (k2 + (v2 + rest))));
    lemma_dec_u64_enc(m.req_id, (k2 + (v2 + rest)));
    lemma_dec_key_enc("body"@, (v2 + rest));
    lemma_dec_response_enc(m.body, rest);
}

/// A well-formed response envelope decodes back to itself.
///
/// For every envelope whose strings fit wire lengths, decoding the
/// encoded frame yields the original envelope exactly.
pub proof fn lemma_response_roundtrip(m: EnvelopeV<ResponseV>)
    requires
        response_envelope_fits(m),
    ensures
        spec_decode_response(spec_enc_response_envelope(m)) == Some(m),
{
    lemma_dec_response_envelope_enc(m, Seq::empty());
    assert(spec_enc_response_envelope(m) + Seq::<u8>::empty() =~= spec_enc_response_envelope(m));
}

/// Encodes a response envelope into a fresh frame payload.
pub fn encode_response(v: &ResponseEnvelope<Response>) -> (r: Vec<u8>)
    ensures
        r@ == spec_enc_response_envelope(v@),
{
    let mut out: Vec<u8> = Vec::new();
    enc_uint(&mut out, MAJOR_MAP, 2);
    enc_text(&mut out, "req_id");
    enc_u64(&mut out, v.req_id.0);
    enc_text(&mut out, "body");
    enc_response(&mut out, &v.body);
    proof {
        let o = Seq::<u8>::empty();
        let h = spec_enc_uint(MAJOR_MAP, 2);
        let k1 = spec_enc_text("req_id"@);
        let v1 = spec_enc_u64(v@.req_id);
        let k2 = spec_enc_text("body"@);
        let v2 = spec_enc_response(v@.body);
        lemma_concat_assoc(o, h, k1);
        lemma_concat_assoc(o, h + k1, v1);
        lemma_concat_assoc(o, h + k1 + v1, k2);
        lemma_concat_assoc(o, h + k1 + v1 + k2, v2);
        assert(o + (h + k1 + v1 + k2 + v2) =~= h + k1 + v1 + k2 + v2);
    }
    out
}

/// Decodes a complete response envelope frame.
pub fn decode_response(buf: &[u8]) -> (r: Option<ResponseEnvelope<Response>>)
    ensures
        match spec_decode_response(buf@) {
            Some(m) => r matches Some(v) && v@ == m,
            None => r is None,
        },
{
    let ghost s0 = buf@.skip(0);
    proof {
        assert(buf@.skip(0) =~= buf@);
    }
    let Some((cnt, p0)) = dec_map_head(buf, 0) else { return None };
    if cnt != 2 {
        return None;
    }
    let Some(p1) = dec_key(buf, p0, "req_id") else { return None };
    let Some((req_id, p2)) = dec_u64(buf, p1) else { return None };
    let Some(p3) = dec_key(buf, p2, "body") else { return None };
    let Some((body, p4)) = dec_response(buf, p3) else { return None };
    if p4 != buf.len() {
        proof {
            assert(buf@.skip(p4 as int).len() != 0);
        }
        return None;
    }
    proof {
        assert(buf@.skip(p4 as int).len() == 0);
    }
    Some(ResponseEnvelope { req_id: ReqId(req_id), body })
}

} // verus!
