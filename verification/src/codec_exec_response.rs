//! Wire codec of worker response bodies and their envelopes.

use vstd::prelude::*;
use vstd::utf8::encode_utf8;
use crate::cbor::{
    dec_bool, dec_key, dec_map_head, dec_segment, dec_text, dec_u32, dec_u64, enc_bool, enc_text,
    enc_u64, enc_uint, lemma_dec_bool_enc, lemma_dec_bytes_enc, lemma_dec_head_enc,
    lemma_dec_key_enc, lemma_dec_segment_enc_text, lemma_dec_text_enc, lemma_dec_u32_enc,
    lemma_dec_u64_enc, seg_is, spec_dec_bool, spec_dec_bytes, spec_dec_head, spec_dec_key,
    spec_dec_segment, spec_dec_text, spec_dec_u32, spec_dec_u64, spec_enc_bool, spec_enc_bytes,
    spec_enc_text, spec_enc_u64, spec_enc_uint, MAJOR_MAP, MAJOR_TEXT,
};
use crate::codec_basic::{
    dec_exec_error_code, dec_exec_pty_action, dec_exit_status, dec_opt_i32, dec_opt_term_reason,
    dec_opt_text, dec_opt_u32, dec_opt_u64, enc_exec_error_code, enc_exec_pty_action,
    enc_exit_status, enc_opt_i32, enc_opt_term_reason, enc_opt_text, enc_opt_u32, enc_opt_u64,
    lemma_dec_exec_error_code_enc, lemma_dec_exec_pty_action_enc, lemma_dec_exit_status_enc,
    lemma_dec_opt_i32_enc, lemma_dec_opt_term_reason_enc, lemma_dec_opt_text_enc,
    lemma_dec_opt_u32_enc, lemma_dec_opt_u64_enc, lemma_short_text_fits, spec_dec_exec_error_code,
    spec_dec_exec_pty_action, spec_dec_exit_status, spec_dec_opt_i32, spec_dec_opt_term_reason,
    spec_dec_opt_text, spec_dec_opt_u32, spec_dec_opt_u64, spec_enc_exec_error_code,
    spec_enc_exec_pty_action, spec_enc_exit_status, spec_enc_opt_i32, spec_enc_opt_term_reason,
    spec_enc_opt_text, spec_enc_opt_u32, spec_enc_opt_u64, text_fits,
};
use crate::codec_seq::{dec_data, enc_data};
use crate::exec_proto::{ExecEnvelopeV, ExecResponse, ExecResponseEnvelope, ExecResponseV};
use crate::ids::{JobId, SessionId};
use crate::textutil::{lemma_concat_assoc, lemma_utf8_ne};

verus! {

/// Character-level facts about the exec_response tags.
proof fn lemma_exec_response_tags()
    ensures
        "hello_ack"@.len() == 9,
        "pong"@.len() == 4,
        "job_started"@.len() == 11,
        "job_status"@.len() == 10,
        "pty_opened"@.len() == 10,
        "pty_chunk"@.len() == 9,
        "pty_ack"@.len() == 7,
        "usage_sample"@.len() == 12,
        "exec_error"@.len() == 10,
        text_fits("hello_ack"@),
        text_fits("pong"@),
        text_fits("job_started"@),
        text_fits("job_status"@),
        text_fits("pty_opened"@),
        text_fits("pty_chunk"@),
        text_fits("pty_ack"@),
        text_fits("usage_sample"@),
        text_fits("exec_error"@),
        "hello_ack"@ != "pong"@,
        "hello_ack"@ != "job_started"@,
        "hello_ack"@ != "job_status"@,
        "hello_ack"@ != "pty_opened"@,
        "hello_ack"@ != "pty_chunk"@,
        "hello_ack"@ != "pty_ack"@,
        "hello_ack"@ != "usage_sample"@,
        "hello_ack"@ != "exec_error"@,
        "pong"@ != "job_started"@,
        "pong"@ != "job_status"@,
        "pong"@ != "pty_opened"@,
        "pong"@ != "pty_chunk"@,
        "pong"@ != "pty_ack"@,
        "pong"@ != "usage_sample"@,
        "pong"@ != "exec_error"@,
        "job_started"@ != "job_status"@,
        "job_started"@ != "pty_opened"@,
        "job_started"@ != "pty_chunk"@,
        "job_started"@ != "pty_ack"@,
        "job_started"@ != "usage_sample"@,
        "job_started"@ != "exec_error"@,
        "job_status"@ != "pty_opened"@,
        "job_status"@ != "pty_chunk"@,
        "job_status"@ != "pty_ack"@,
        "job_status"@ != "usage_sample"@,
        "job_status"@ != "exec_error"@,
        "pty_opened"@ != "pty_chunk"@,
        "pty_opened"@ != "pty_ack"@,
        "pty_opened"@ != "usage_sample"@,
        "pty_opened"@ != "exec_error"@,
        "pty_chunk"@ != "pty_ack"@,
        "pty_chunk"@ != "usage_sample"@,
        "pty_chunk"@ != "exec_error"@,
        "pty_ack"@ != "usage_sample"@,
        "pty_ack"@ != "exec_error"@,
        "usage_sample"@ != "exec_error"@,
{
    reveal_strlit("hello_ack");
    reveal_strlit("pong");
    reveal_strlit("job_started");
    reveal_strlit("job_status");
    reveal_strlit("pty_opened");
    reveal_strlit("pty_chunk");
    reveal_strlit("pty_ack");
    reveal_strlit("usage_sample");
    reveal_strlit("exec_error");
    assert("hello_ack"@.len() == 9);
    assert("pong"@.len() == 4);
    assert("job_started"@.len() == 11);
    assert("job_status"@.len() == 10);
    assert("pty_opened"@.len() == 10);
    assert("pty_chunk"@.len() == 9);
    assert("pty_ack"@.len() == 7);
    assert("usage_sample"@.len() == 12);
    assert("exec_error"@.len() == 10);
    assert("hello_ack"@[0] == 'h');
    assert("pty_chunk"@[0] == 'p');
    assert("job_status"@[0] == 'j');
    assert("pty_opened"@[0] == 'p');
    assert("exec_error"@[0] == 'e');
    lemma_short_text_fits("hello_ack"@);
    lemma_short_text_fits("pong"@);
    lemma_short_text_fits("job_started"@);
    lemma_short_text_fits("job_status"@);
    lemma_short_text_fits("pty_opened"@);
    lemma_short_text_fits("pty_chunk"@);
    lemma_short_text_fits("pty_ack"@);
    lemma_short_text_fits("usage_sample"@);
    lemma_short_text_fits("exec_error"@);
}

/// The exec_response field keys fit wire lengths.
proof fn lemma_exec_response_keys()
    ensures
        text_fits("type"@),
        text_fits("protocol"@),
        text_fits("worker_pid"@),
        text_fits("job_id"@),
        text_fits("pid"@),
        text_fits("status"@),
        text_fits("finished_at_ms"@),
        text_fits("termination_reason"@),
        text_fits("session_id"@),
        text_fits("offset"@),
        text_fits("data"@),
        text_fits("eof"@),
        text_fits("complete"@),
        text_fits("exit_code"@),
        text_fits("action"@),
        text_fits("rss_bytes"@),
        text_fits("cpu_nanos"@),
        text_fits("timestamp_ms"@),
        text_fits("code"@),
        text_fits("message"@),
        text_fits("detail"@),
{
    reveal_strlit("type");
    reveal_strlit("protocol");
    reveal_strlit("worker_pid");
    reveal_strlit("job_id");
    reveal_strlit("pid");
    reveal_strlit("status");
    reveal_strlit("finished_at_ms");
    reveal_strlit("termination_reason");
    reveal_strlit("session_id");
    reveal_strlit("offset");
    reveal_strlit("data");
    reveal_strlit("eof");
    reveal_strlit("complete");
    reveal_strlit("exit_code");
    reveal_strlit("action");
    reveal_strlit("rss_bytes");
    reveal_strlit("cpu_nanos");
    reveal_strlit("timestamp_ms");
    reveal_strlit("code");
    reveal_strlit("message");
    reveal_strlit("detail");
    assert("type"@.len() == 4);
    assert("protocol"@.len() == 8);
    assert("worker_pid"@.len() == 10);
    assert("job_id"@.len() == 6);
    assert("pid"@.len() == 3);
    assert("status"@.len() == 6);
    assert("finished_at_ms"@.len() == 14);
    assert("termination_reason"@.len() == 18);
    assert("session_id"@.len() == 10);
    assert("offset"@.len() == 6);
    assert("data"@.len() == 4);
    assert("eof"@.len() == 3);
    assert("complete"@.len() == 8);
    assert("exit_code"@.len() == 9);
    assert("action"@.len() == 6);
    assert("rss_bytes"@.len() == 9);
    assert("cpu_nanos"@.len() == 9);
    assert("timestamp_ms"@.len() == 12);
    assert("code"@.len() == 4);
    assert("message"@.len() == 7);
    assert("detail"@.len() == 6);
    lemma_short_text_fits("type"@);
    lemma_short_text_fits("protocol"@);
    lemma_short_text_fits("worker_pid"@);
    lemma_short_text_fits("job_id"@);
    lemma_short_text_fits("pid"@);
    lemma_short_text_fits("status"@);
    lemma_short_text_fits("finished_at_ms"@);
    lemma_short_text_fits("termination_reason"@);
    lemma_short_text_fits("session_id"@);
    lemma_short_text_fits("offset"@);
    lemma_short_text_fits("data"@);
    lemma_short_text_fits("eof"@);
    lemma_short_text_fits("complete"@);
    lemma_short_text_fits("exit_code"@);
    lemma_short_text_fits("action"@);
    lemma_short_text_fits("rss_bytes"@);
    lemma_short_text_fits("cpu_nanos"@);
    lemma_short_text_fits("timestamp_ms"@);
    lemma_short_text_fits("code"@);
    lemma_short_text_fits("message"@);
    lemma_short_text_fits("detail"@);
}

/// A exec_response model whose parts fit wire lengths.
pub open spec fn exec_response_fits(m: ExecResponseV) -> bool {
    match m {
        ExecResponseV::HelloAck { protocol, worker_pid } => true,
        ExecResponseV::Pong => true,
        ExecResponseV::JobStarted { job_id, pid } => text_fits(job_id),
        ExecResponseV::JobStatus { job_id, status, finished_at_ms, termination_reason } => text_fits(job_id),
        ExecResponseV::PtyOpened { session_id, pid } => true,
        ExecResponseV::PtyChunk { session_id, offset, data, eof, complete, exit_code } => data.len() <= u64::MAX,
        ExecResponseV::PtyAck { session_id, action } => true,
        ExecResponseV::UsageSample { job_id, rss_bytes, cpu_nanos, timestamp_ms } => text_fits(job_id),
        ExecResponseV::ExecError { code, message, detail } => text_fits(message) && (detail matches Some(c) ==> text_fits(c)),
    }
}

/// Encoded fields of the hello_ack form.
#[verifier::opaque]
pub open spec fn spec_enc_exec_response_fields_hello_ack(m: ExecResponseV) -> Seq<u8> {
    match m {
        ExecResponseV::HelloAck { protocol, worker_pid } => spec_enc_text("protocol"@) + spec_enc_u64(protocol as u64) + spec_enc_text("worker_pid"@) + spec_enc_u64(worker_pid as u64),
        _ => Seq::empty(),
    }
}

/// Encoded fields of the pong form.
#[verifier::opaque]
pub open spec fn spec_enc_exec_response_fields_pong(m: ExecResponseV) -> Seq<u8> {
    match m {
        ExecResponseV::Pong => Seq::empty(),
        _ => Seq::empty(),
    }
}

/// Encoded fields of the job_started form.
#[verifier::opaque]
pub open spec fn spec_enc_exec_response_fields_job_started(m: ExecResponseV) -> Seq<u8> {
    match m {
        ExecResponseV::JobStarted { job_id, pid } => spec_enc_text("job_id"@) + spec_enc_text(job_id) + spec_enc_text("pid"@) + spec_enc_opt_u32(pid),
        _ => Seq::empty(),
    }
}

/// Encoded fields of the job_status form.
#[verifier::opaque]
pub open spec fn spec_enc_exec_response_fields_job_status(m: ExecResponseV) -> Seq<u8> {
    match m {
        ExecResponseV::JobStatus { job_id, status, finished_at_ms, termination_reason } => spec_enc_text("job_id"@) + spec_enc_text(job_id) + spec_enc_text("status"@) + spec_enc_exit_status(status) + spec_enc_text("finished_at_ms"@) + spec_enc_opt_u64(finished_at_ms) + spec_enc_text("termination_reason"@) + spec_enc_opt_term_reason(termination_reason),
        _ => Seq::empty(),
    }
}

/// Encoded fields of the pty_opened form.
#[verifier::opaque]
pub open spec fn spec_enc_exec_response_fields_pty_opened(m: ExecResponseV) -> Seq<u8> {
    match m {
        ExecResponseV::PtyOpened { session_id, pid } => spec_enc_text("session_id"@) + spec_enc_u64(session_id) + spec_enc_text("pid"@) + spec_enc_opt_u32(pid),
        _ => Seq::empty(),
    }
}

/// Encoded fields of the pty_chunk form.
#[verifier::opaque]
pub open spec fn spec_enc_exec_response_fields_pty_chunk(m: ExecResponseV) -> Seq<u8> {
    match m {
        ExecResponseV::PtyChunk { session_id, offset, data, eof, complete, exit_code } => spec_enc_text("session_id"@) + spec_enc_u64(session_id) + spec_enc_text("offset"@) + spec_enc_u64(offset) + spec_enc_text("data"@) + spec_enc_bytes(data) + spec_enc_text("eof"@) + spec_enc_bool(eof) + spec_enc_text("complete"@) + spec_enc_bool(complete) + spec_enc_text("exit_code"@) + spec_enc_opt_i32(exit_code),
        _ => Seq::empty(),
    }
}

/// Encoded fields of the pty_ack form.
#[verifier::opaque]
pub open spec fn spec_enc_exec_response_fields_pty_ack(m: ExecResponseV) -> Seq<u8> {
    match m {
        ExecResponseV::PtyAck { session_id, action } => spec_enc_text("session_id"@) + spec_enc_u64(session_id) + spec_enc_text("action"@) + spec_enc_exec_pty_action(action),
        _ => Seq::empty(),
    }
}

/// Encoded fields of the usage_sample form.
#[verifier::opaque]
pub open spec fn spec_enc_exec_response_fields_usage_sample(m: ExecResponseV) -> Seq<u8> {
    match m {
        ExecResponseV::UsageSample { job_id, rss_bytes, cpu_nanos, timestamp_ms } => spec_enc_text("job_id"@) + spec_enc_text(job_id) + spec_enc_text("rss_bytes"@) + spec_enc_opt_u64(rss_bytes) + spec_enc_text("cpu_nanos"@) + spec_enc_opt_u64(cpu_nanos) + spec_enc_text("timestamp_ms"@) + spec_enc_u64(timestamp_ms),
        _ => Seq::empty(),
    }
}

/// Encoded fields of the exec_error form.
#[verifier::opaque]
pub open spec fn spec_enc_exec_response_fields_exec_error(m: ExecResponseV) -> Seq<u8> {
    match m {
        ExecResponseV::ExecError { code, message, detail } => spec_enc_text("code"@) + spec_enc_exec_error_code(code) + spec_enc_text("message"@) + spec_enc_text(message) + spec_enc_text("detail"@) + spec_enc_opt_text(detail),
        _ => Seq::empty(),
    }
}

/// Encoded exec_response body.
pub open spec fn spec_enc_exec_response(m: ExecResponseV) -> Seq<u8> {
    match m {
        ExecResponseV::HelloAck { .. } => spec_enc_uint(MAJOR_MAP, 3) + spec_enc_text("type"@) + spec_enc_text(
            "hello_ack"@,
        ) + spec_enc_exec_response_fields_hello_ack(m),
        ExecResponseV::Pong => spec_enc_uint(MAJOR_MAP, 1) + spec_enc_text("type"@) + spec_enc_text(
            "pong"@,
        ) + spec_enc_exec_response_fields_pong(m),
        ExecResponseV::JobStarted { .. } => spec_enc_uint(MAJOR_MAP, 3) + spec_enc_text("type"@) + spec_enc_text(
            "job_started"@,
        ) + spec_enc_exec_response_fields_job_started(m),
        ExecResponseV::JobStatus { .. } => spec_enc_uint(MAJOR_MAP, 5) + spec_enc_text("type"@) + spec_enc_text(
            "job_status"@,
        ) + spec_enc_exec_response_fields_job_status(m),
        ExecResponseV::PtyOpened { .. } => spec_enc_uint(MAJOR_MAP, 3) + spec_enc_text("type"@) + spec_enc_text(
            "pty_opened"@,
        ) + spec_enc_exec_response_fields_pty_opened(m),
        ExecResponseV::PtyChunk { .. } => spec_enc_uint(MAJOR_MAP, 7) + spec_enc_text("type"@) + spec_enc_text(
            "pty_chunk"@,
        ) + spec_enc_exec_response_fields_pty_chunk(m),
        ExecResponseV::PtyAck { .. } => spec_enc_uint(MAJOR_MAP, 3) + spec_enc_text("type"@) + spec_enc_text(
            "pty_ack"@,
        ) + spec_enc_exec_response_fields_pty_ack(m),
        ExecResponseV::UsageSample { .. } => spec_enc_uint(MAJOR_MAP, 5) + spec_enc_text("type"@) + spec_enc_text(
            "usage_sample"@,
        ) + spec_enc_exec_response_fields_usage_sample(m),
        ExecResponseV::ExecError { .. } => spec_enc_uint(MAJOR_MAP, 4) + spec_enc_text("type"@) + spec_enc_text(
            "exec_error"@,
        ) + spec_enc_exec_response_fields_exec_error(m),
    }
}

/// Parses a exec_response body.
pub open spec fn spec_dec_exec_response(b: Seq<u8>) -> Option<(ExecResponseV, Seq<u8>)> {
    match spec_dec_head(b) {
        Some((m, cnt, r0)) => {
            if m != MAJOR_MAP {
                None
            } else {
                match spec_dec_key(r0, "type"@) {
                    Some(r1) => {
                        match spec_dec_segment(r1, MAJOR_TEXT) {
                            Some((tag, r2)) => spec_dec_exec_response_body(tag, cnt, r2),
                            None => None,
                        }
                    },
                    None => None,
                }
            }
        },
        None => None,
    }
}

/// Parses the fields of the hello_ack form.
#[verifier::opaque]
pub open spec fn spec_dec_exec_response_form_hello_ack(cnt: u64, r: Seq<u8>) -> Option<(ExecResponseV, Seq<u8>)> {
    if cnt != 3 {
        None
    } else {
        match spec_dec_key(r, "protocol"@) {
            Some(k_protocol) => {
                match spec_dec_u32(k_protocol) {
                    Some((protocol, r_protocol)) => {
                        match spec_dec_key(r_protocol, "worker_pid"@) {
                            Some(k_worker_pid) => {
                                match spec_dec_u32(k_worker_pid) {
                                    Some((worker_pid, r_worker_pid)) => {
                                        Some((ExecResponseV::HelloAck { protocol, worker_pid }, r_worker_pid))
                                    },
                                    None => None,
                                }
                            },
                            None => None,
                        }
                    },
                    None => None,
                }
            },
            None => None,
        }
    }
}

/// Parses the fields of the pong form.
#[verifier::opaque]
pub open spec fn spec_dec_exec_response_form_pong(cnt: u64, r: Seq<u8>) -> Option<(ExecResponseV, Seq<u8>)> {
    if cnt != 1 {
        None
    } else {
        Some((ExecResponseV::Pong, r))
    }
}

/// Parses the fields of the job_started form.
#[verifier::opaque]
pub open spec fn spec_dec_exec_response_form_job_started(cnt: u64, r: Seq<u8>) -> Option<(ExecResponseV, Seq<u8>)> {
    if cnt != 3 {
        None
    } else {
        match spec_dec_key(r, "job_id"@) {
            Some(k_job_id) => {
                match spec_dec_text(k_job_id) {
                    Some((job_id, r_job_id)) => {
                        match spec_dec_key(r_job_id, "pid"@) {
                            Some(k_pid) => {
                                match spec_dec_opt_u32(k_pid) {
                                    Some((pid, r_pid)) => {
                                        Some((ExecResponseV::JobStarted { job_id, pid }, r_pid))
                                    },
                                    None => None,
                                }
                            },
                            None => None,
                        }
                    },
                    None => None,
                }
            },
            None => None,
        }
    }
}

/// Parses the fields of the job_status form.
#[verifier::opaque]
pub open spec fn spec_dec_exec_response_form_job_status(cnt: u64, r: Seq<u8>) -> Option<(ExecResponseV, Seq<u8>)> {
    if cnt != 5 {
        None
    } else {
        match spec_dec_key(r, "job_id"@) {
            Some(k_job_id) => {
                match spec_dec_text(k_job_id) {
                    Some((job_id, r_job_id)) => {
                        match spec_dec_key(r_job_id, "status"@) {
                            Some(k_status) => {
                                match spec_dec_exit_status(k_status) {
                                    Some((status, r_status)) => {
                                        match spec_dec_key(r_status, "finished_at_ms"@) {
                                            Some(k_finished_at_ms) => {
                                                match spec_dec_opt_u64(k_finished_at_ms) {
                                                    Some((finished_at_ms, r_finished_at_ms)) => {
                                                        match spec_dec_key(r_finished_at_ms, "termination_reason"@) {
                                                            Some(k_termination_reason) => {
                                                                match spec_dec_opt_term_reason(k_termination_reason) {
                                                                    Some((termination_reason, r_termination_reason)) => {
                                                                        Some((ExecResponseV::JobStatus { job_id, status, finished_at_ms, termination_reason }, r_termination_reason))
                                                                    },
                                                                    None => None,
                                                                }
                                                            },
                                                            None => None,
                                                        }
                                                    },
                                                    None => None,
                                                }
                                            },
                                            None => None,
                                        }
                                    },
                                    None => None,
                                }
                            },
                            None => None,
                        }
                    },
                    None => None,
                }
            },
            None => None,
        }
    }
}

/// Parses the fields of the pty_opened form.
#[verifier::opaque]
pub open spec fn spec_dec_exec_response_form_pty_opened(cnt: u64, r: Seq<u8>) -> Option<(ExecResponseV, Seq<u8>)> {
    if cnt != 3 {
        None
    } else {
        match spec_dec_key(r, "session_id"@) {
            Some(k_session_id) => {
                match spec_dec_u64(k_session_id) {
                    Some((session_id, r_session_id)) => {
                        match spec_dec_key(r_session_id, "pid"@) {
                            Some(k_pid) => {
                                match spec_dec_opt_u32(k_pid) {
                                    Some((pid, r_pid)) => {
                                        Some((ExecResponseV::PtyOpened { session_id, pid }, r_pid))
                                    },
                                    None => None,
                                }
                            },
                            None => None,
                        }
                    },
                    None => None,
                }
            },
            None => None,
        }
    }
}

/// Parses the fields of the pty_chunk form.
#[verifier::opaque]
pub open spec fn spec_dec_exec_response_form_pty_chunk(cnt: u64, r: Seq<u8>) -> Option<(ExecResponseV, Seq<u8>)> {
    if cnt != 7 {
        None
    } else {
        match spec_dec_key(r, "session_id"@) {
            Some(k_session_id) => {
                match spec_dec_u64(k_session_id) {
                    Some((session_id, r_session_id)) => {
                        match spec_dec_key(r_session_id, "offset"@) {
                            Some(k_offset) => {
                                match spec_dec_u64(k_offset) {
                                    Some((offset, r_offset)) => {
                                        match spec_dec_key(r_offset, "data"@) {
                                            Some(k_data) => {
                                                match spec_dec_bytes(k_data) {
                                                    Some((data, r_data)) => {
                                                        match spec_dec_key(r_data, "eof"@) {
                                                            Some(k_eof) => {
                                                                match spec_dec_bool(k_eof) {
                                                                    Some((eof, r_eof)) => {
                                                                        match spec_dec_key(r_eof, "complete"@) {
                                                                            Some(k_complete) => {
                                                                                match spec_dec_bool(k_complete) {
                                                                                    Some((complete, r_complete)) => {
                                                                                        match spec_dec_key(r_complete, "exit_code"@) {
                                                                                            Some(k_exit_code) => {
                                                                                                match spec_dec_opt_i32(k_exit_code) {
                                                                                                    Some((exit_code, r_exit_code)) => {
                                                                                                        Some((ExecResponseV::PtyChunk { session_id, offset, data, eof, complete, exit_code }, r_exit_code))
                                                                                                    },
                                                                                                    None => None,
                                                                                                }
                                                                                            },
                                                                                            None => None,
                                                                                        }
                                                                                    },
                                                                                    None => None,
                                                                                }
                                                                            },
                                                                            None => None,
                                                                        }
                                                                    },
                                                                    None => None,
                                                                }
                                                            },
                                                            None => None,
                                                        }
                                                    },
                                                    None => None,
                                                }
                                            },
                                            None => None,
                                        }
                                    },
                                    None => None,
                                }
                            },
                            None => None,
                        }
                    },
                    None => None,
                }
            },
            None => None,
        }
    }
}

/// Parses the fields of the pty_ack form.
#[verifier::opaque]
pub open spec fn spec_dec_exec_response_form_pty_ack(cnt: u64, r: Seq<u8>) -> Option<(ExecResponseV, Seq<u8>)> {
    if cnt != 3 {
        None
    } else {
        match spec_dec_key(r, "session_id"@) {
            Some(k_session_id) => {
                match spec_dec_u64(k_session_id) {
                    Some((session_id, r_session_id)) => {
                        match spec_dec_key(r_session_id, "action"@) {
                            Some(k_action) => {
                                match spec_dec_exec_pty_action(k_action) {
                                    Some((action, r_action)) => {
                                        Some((ExecResponseV::PtyAck { session_id, action }, r_action))
                                    },
                                    None => None,
                                }
                            },
                            None => None,
                        }
                    },
                    None => None,
                }
            },
            None => None,
        }
    }
}

/// Parses the fields of the usage_sample form.
#[verifier::opaque]
pub open spec fn spec_dec_exec_response_form_usage_sample(cnt: u64, r: Seq<u8>) -> Option<(ExecResponseV, Seq<u8>)> {
    if cnt != 5 {
        None
    } else {
        match spec_dec_key(r, "job_id"@) {
            Some(k_job_id) => {
                match spec_dec_text(k_job_id) {
                    Some((job_id, r_job_id)) => {
                        match spec_dec_key(r_job_id, "rss_bytes"@) {
                            Some(k_rss_bytes) => {
                                match spec_dec_opt_u64(k_rss_bytes) {
                                    Some((rss_bytes, r_rss_bytes)) => {
                                        match spec_dec_key(r_rss_bytes, "cpu_nanos"@) {
                                            Some(k_cpu_nanos) => {
                                                match spec_dec_opt_u64(k_cpu_nanos) {
                                                    Some((cpu_nanos, r_cpu_nanos)) => {
                                                        match spec_dec_key(r_cpu_nanos, "timestamp_ms"@) {
                                                            Some(k_timestamp_ms) => {
                                                                match spec_dec_u64(k_timestamp_ms) {
                                                                    Some((timestamp_ms, r_timestamp_ms)) => {
                                                                        Some((ExecResponseV::UsageSample { job_id, rss_bytes, cpu_nanos, timestamp_ms }, r_timestamp_ms))
                                                                    },
                                                                    None => None,
                                                                }
                                                            },
                                                            None => None,
                                                        }
                                                    },
                                                    None => None,
                                                }
                                            },
                                            None => None,
                                        }
                                    },
                                    None => None,
                                }
                            },
                            None => None,
                        }
                    },
                    None => None,
                }
            },
            None => None,
        }
    }
}

/// Parses the fields of the exec_error form.
#[verifier::opaque]
pub open spec fn spec_dec_exec_response_form_exec_error(cnt: u64, r: Seq<u8>) -> Option<(ExecResponseV, Seq<u8>)> {
    if cnt != 4 {
        None
    } else {
        match spec_dec_key(r, "code"@) {
            Some(k_code) => {
                match spec_dec_exec_error_code(k_code) {
                    Some((code, r_code)) => {
                        match spec_dec_key(r_code, "message"@) {
                            Some(k_message) => {
                                match spec_dec_text(k_message) {
                                    Some((message, r_message)) => {
                                        match spec_dec_key(r_message, "detail"@) {
                                            Some(k_detail) => {
                                                match spec_dec_opt_text(k_detail) {
                                                    Some((detail, r_detail)) => {
                                                        Some((ExecResponseV::ExecError { code, message, detail }, r_detail))
                                                    },
                                                    None => None,
                                                }
                                            },
                                            None => None,
                                        }
                                    },
                                    None => None,
                                }
                            },
                            None => None,
                        }
                    },
                    None => None,
                }
            },
            None => None,
        }
    }
}

/// Parses the fields of a exec_response body once its tag is known.
pub open spec fn spec_dec_exec_response_body(tag: Seq<u8>, cnt: u64, r: Seq<u8>) -> Option<(ExecResponseV, Seq<u8>)> {
    if tag == encode_utf8("hello_ack"@) {
        spec_dec_exec_response_form_hello_ack(cnt, r)
    } else if tag == encode_utf8("pong"@) {
        spec_dec_exec_response_form_pong(cnt, r)
    } else if tag == encode_utf8("job_started"@) {
        spec_dec_exec_response_form_job_started(cnt, r)
    } else if tag == encode_utf8("job_status"@) {
        spec_dec_exec_response_form_job_status(cnt, r)
    } else if tag == encode_utf8("pty_opened"@) {
        spec_dec_exec_response_form_pty_opened(cnt, r)
    } else if tag == encode_utf8("pty_chunk"@) {
        spec_dec_exec_response_form_pty_chunk(cnt, r)
    } else if tag == encode_utf8("pty_ack"@) {
        spec_dec_exec_response_form_pty_ack(cnt, r)
    } else if tag == encode_utf8("usage_sample"@) {
        spec_dec_exec_response_form_usage_sample(cnt, r)
    } else if tag == encode_utf8("exec_error"@) {
        spec_dec_exec_response_form_exec_error(cnt, r)
    } else {
        None
    }
}

/// Parsing an encoded tagged body reaches the tag dispatch.
proof fn lemma_dec_exec_response_dispatch(tagseq: Seq<char>, cnt: u64, fields: Seq<u8>, rest: Seq<u8>)
    requires
        text_fits(tagseq),
    ensures
        spec_dec_exec_response(
            spec_enc_uint(MAJOR_MAP, cnt) + spec_enc_text("type"@) + spec_enc_text(tagseq)
                + fields + rest,
        ) == spec_dec_exec_response_body(encode_utf8(tagseq), cnt, fields + rest),
{
    reveal_strlit("type");
    assert("type"@.len() == 4);
    lemma_short_text_fits("type"@);
    let h = spec_enc_uint(MAJOR_MAP, cnt);
    let tk = spec_enc_text("type"@);
    let tv = spec_enc_text(tagseq);
    lemma_concat_assoc(h + tk + tv, fields, rest);
    lemma_concat_assoc(h + tk, tv, fields + rest);
    lemma_concat_assoc(h, tk, tv + (fields + rest));
    lemma_dec_head_enc(MAJOR_MAP, cnt, tk + (tv + (fields + rest)));
    lemma_dec_key_enc("type"@, tv + (fields + rest));
    lemma_dec_segment_enc_text(tagseq, fields + rest);
}

/// Decoding inverts encoding for the fields of the hello_ack form.
#[verifier::rlimit(100)]
proof fn lemma_dec_exec_response_form_hello_ack(m: ExecResponseV, rest: Seq<u8>)
    requires
        m is HelloAck,
        exec_response_fits(m),
    ensures
        spec_dec_exec_response_form_hello_ack(3, spec_enc_exec_response_fields_hello_ack(m) + rest) == Some((m, rest)),
{
    reveal(spec_dec_exec_response_form_hello_ack);
    reveal(spec_enc_exec_response_fields_hello_ack);
    lemma_exec_response_keys();
    match m {
        ExecResponseV::HelloAck { protocol, worker_pid } => {
            let k_protocol = spec_enc_text("protocol"@);
            let v_protocol = spec_enc_u64(protocol as u64);
            let k_worker_pid = spec_enc_text("worker_pid"@);
            let v_worker_pid = spec_enc_u64(worker_pid as u64);
            lemma_concat_assoc(k_protocol + v_protocol + k_worker_pid, v_worker_pid, rest);
            lemma_concat_assoc(k_protocol + v_protocol, k_worker_pid, (v_worker_pid + rest));
            lemma_concat_assoc(k_protocol, v_protocol, (k_worker_pid + (v_worker_pid + rest)));
            lemma_dec_key_enc("protocol"@, (v_protocol + (k_worker_pid + (v_worker_pid + rest))));
            lemma_dec_u32_enc(protocol, (k_worker_pid + (v_worker_pid + rest)));
            lemma_dec_key_enc("worker_pid"@, (v_worker_pid + rest));
            lemma_dec_u32_enc(worker_pid, rest);
        },
        _ => {},
    }
}

/// Decoding inverts encoding for the hello_ack form.
#[verifier::rlimit(100)]
proof fn lemma_dec_exec_response_enc_hello_ack(m: ExecResponseV, rest: Seq<u8>)
    requires
        m is HelloAck,
        exec_response_fits(m),
    ensures
        spec_dec_exec_response(spec_enc_exec_response(m) + rest) == Some((m, rest)),
{
    lemma_exec_response_tags();
    let fields = spec_enc_exec_response_fields_hello_ack(m);
    lemma_dec_exec_response_dispatch("hello_ack"@, 3, fields, rest);
    lemma_dec_exec_response_form_hello_ack(m, rest);
}

/// Decoding inverts encoding for the fields of the pong form.
#[verifier::rlimit(100)]
proof fn lemma_dec_exec_response_form_pong(m: ExecResponseV, rest: Seq<u8>)
    requires
        m is Pong,
        exec_response_fits(m),
    ensures
        spec_dec_exec_response_form_pong(1, spec_enc_exec_response_fields_pong(m) + rest) == Some((m, rest)),
{
    reveal(spec_dec_exec_response_form_pong);
    reveal(spec_enc_exec_response_fields_pong);
    lemma_exec_response_keys();
    match m {
        ExecResponseV::Pong => {
            assert(spec_enc_exec_response_fields_pong(m) + rest =~= rest);
        },
        _ => {},
    }
}

/// Decoding inverts encoding for the pong form.
#[verifier::rlimit(100)]
proof fn lemma_dec_exec_response_enc_pong(m: ExecResponseV, rest: Seq<u8>)
    requires
        m is Pong,
        exec_response_fits(m),
    ensures
        spec_dec_exec_response(spec_enc_exec_response(m) + rest) == Some((m, rest)),
{
    lemma_exec_response_tags();
    let fields = spec_enc_exec_response_fields_pong(m);
    lemma_dec_exec_response_dispatch("pong"@, 1, fields, rest);
    lemma_utf8_ne("hello_ack"@, "pong"@);
    lemma_dec_exec_response_form_pong(m, rest);
}

/// Decoding inverts encoding for the fields of the job_started form.
#[verifier::rlimit(100)]
proof fn lemma_dec_exec_response_form_job_started(m: ExecResponseV, rest: Seq<u8>)
    requires
        m is JobStarted,
        exec_response_fits(m),
    ensures
        spec_dec_exec_response_form_job_started(3, spec_enc_exec_response_fields_job_started(m) + rest) == Some((m, rest)),
{
    reveal(spec_dec_exec_response_form_job_started);
    reveal(spec_enc_exec_response_fields_job_started);
    lemma_exec_response_keys();
    match m {
        ExecResponseV::JobStarted { job_id, pid } => {
            let k_job_id = spec_enc_text("job_id"@);
            let v_job_id = spec_enc_text(job_id);
            let k_pid = spec_enc_text("pid"@);
            let v_pid = spec_enc_opt_u32(pid);
            lemma_concat_assoc(k_job_id + v_job_id + k_pid, v_pid, rest);
            lemma_concat_assoc(k_job_id + v_job_id, k_pid, (v_pid + rest));
            lemma_concat_assoc(k_job_id, v_job_id, (k_pid + (v_pid + rest)));
            lemma_dec_key_enc("job_id"@, (v_job_id + (k_pid + (v_pid + rest))));
            lemma_dec_text_enc(job_id, (k_pid + (v_pid + rest)));
            lemma_dec_key_enc("pid"@, (v_pid + rest));
            lemma_dec_opt_u32_enc(pid, rest);
        },
        _ => {},
    }
}

/// Decoding inverts encoding for the job_started form.
#[verifier::rlimit(100)]
proof fn lemma_dec_exec_response_enc_job_started(m: ExecResponseV, rest: Seq<u8>)
    requires
        m is JobStarted,
        exec_response_fits(m),
    ensures
        spec_dec_exec_response(spec_enc_exec_response(m) + rest) == Some((m, rest)),
{
    lemma_exec_response_tags();
    let fields = spec_enc_exec_response_fields_job_started(m);
    lemma_dec_exec_response_dispatch("job_started"@, 3, fields, rest);
    lemma_utf8_ne("hello_ack"@, "job_started"@);
    lemma_utf8_ne("pong"@, "job_started"@);
    lemma_dec_exec_response_form_job_started(m, rest);
}

/// Decoding inverts encoding for the fields of the job_status form.
#[verifier::rlimit(100)]
proof fn lemma_dec_exec_response_form_job_status(m: ExecResponseV, rest: Seq<u8>)
    requires
        m is JobStatus,
        exec_response_fits(m),
    ensures
        spec_dec_exec_response_form_job_status(5, spec_enc_exec_response_fields_job_status(m) + rest) == Some((m, rest)),
{
    reveal(spec_dec_exec_response_form_job_status);
    reveal(spec_enc_exec_response_fields_job_status);
    lemma_exec_response_keys();
    match m {
        ExecResponseV::JobStatus { job_id, status, finished_at_ms, termination_reason } => {
            let k_job_id = spec_enc_text("job_id"@);
            let v_job_id = spec_enc_text(job_id);
            let k_status = spec_enc_text("status"@);
            let v_status = spec_enc_exit_status(status);
            let k_finished_at_ms = spec_enc_text("finished_at_ms"@);
            let v_finished_at_ms = spec_enc_opt_u64(finished_at_ms);
            let k_termination_reason = spec_enc_text("termination_reason"@);
            let v_termination_reason = spec_enc_opt_term_reason(termination_reason);
            lemma_concat_assoc(k_job_id + v_job_id + k_status + v_status + k_finished_at_ms + v_finished_at_ms + k_termination_reason, v_termination_reason, rest);
            lemma_concat_assoc(k_job_id + v_job_id + k_status + v_status + k_finished_at_ms + v_finished_at_ms, k_termination_reason, (v_termination_reason + rest));
            lemma_concat_assoc(k_job_id + v_job_id + k_status + v_status + k_finished_at_ms, v_finished_at_ms, (k_termination_reason + (v_termination_reason + rest)));
            lemma_concat_assoc(k_job_id + v_job_id + k_status + v_status, k_finished_at_ms, (v_finished_at_ms + (k_termination_reason + (v_termination_reason + rest))));
            lemma_concat_assoc(k_job_id + v_job_id + k_status, v_status, (k_finished_at_ms + (v_finished_at_ms + (k_termination_reason + (v_termination_reason + rest)))));
            lemma_concat_assoc(k_job_id + v_job_id, k_status, (v_status + (k_finished_at_ms + (v_finished_at_ms + (k_termination_reason + (v_termination_reason + rest))))));
            lemma_concat_assoc(k_job_id, v_job_id, (k_status + (v_status + (k_finished_at_ms + (v_finished_at_ms + (k_termination_reason + (v_termination_reason + rest)))))));
            lemma_dec_key_enc("job_id"@, (v_job_id + (k_status + (v_status + (k_finished_at_ms + (v_finished_at_ms + (k_termination_reason + (v_termination_reason + rest))))))));
            lemma_dec_text_enc(job_id, (k_status + (v_status + (k_finished_at_ms + (v_finished_at_ms + (k_termination_reason + (v_termination_reason + rest)))))));
            lemma_dec_key_enc("status"@, (v_status + (k_finished_at_ms + (v_finished_at_ms + (k_termination_reason + (v_termination_reason + rest))))));
            lemma_dec_exit_status_enc(status, (k_finished_at_ms + (v_finished_at_ms + (k_termination_reason + (v_termination_reason + rest)))));
            lemma_dec_key_enc("finished_at_ms"@, (v_finished_at_ms + (k_termination_reason + (v_termination_reason + rest))));
            lemma_dec_opt_u64_enc(finished_at_ms, (k_termination_reason + (v_termination_reason + rest)));
            lemma_dec_key_enc("termination_reason"@, (v_termination_reason + rest));
            lemma_dec_opt_term_reason_enc(termination_reason, rest);
        },
        _ => {},
    }
}

/// Decoding inverts encoding for the job_status form.
#[verifier::rlimit(100)]
proof fn lemma_dec_exec_response_enc_job_status(m: ExecResponseV, rest: Seq<u8>)
    requires
        m is JobStatus,
        exec_response_fits(m),
    ensures
        spec_dec_exec_response(spec_enc_exec_response(m) + rest) == Some((m, rest)),
{
    lemma_exec_response_tags();
    let fields = spec_enc_exec_response_fields_job_status(m);
    lemma_dec_exec_response_dispatch("job_status"@, 5, fields, rest);
    lemma_utf8_ne("hello_ack"@, "job_status"@);
    lemma_utf8_ne("pong"@, "job_status"@);
    lemma_utf8_ne("job_started"@, "job_status"@);
    lemma_dec_exec_response_form_job_status(m, rest);
}

/// Decoding inverts encoding for the fields of the pty_opened form.
#[verifier::rlimit(100)]
proof fn lemma_dec_exec_response_form_pty_opened(m: ExecResponseV, rest: Seq<u8>)
    requires
        m is PtyOpened,
        exec_response_fits(m),
    ensures
        spec_dec_exec_response_form_pty_opened(3, spec_enc_exec_response_fields_pty_opened(m) + rest) == Some((m, rest)),
{
    reveal(spec_dec_exec_response_form_pty_opened);
    reveal(spec_enc_exec_response_fields_pty_opened);
    lemma_exec_response_keys();
    match m {
        ExecResponseV::PtyOpened { session_id, pid } => {
            let k_session_id = spec_enc_text("session_id"@);
            let v_session_id = spec_enc_u64(session_id);
            let k_pid = spec_enc_text("pid"@);
            let v_pid = spec_enc_opt_u32(pid);
            lemma_concat_assoc(k_session_id + v_session_id + k_pid, v_pid, rest);
            lemma_concat_assoc(k_session_id + v_session_id, k_pid, (v_pid + rest));
            lemma_concat_assoc(k_session_id, v_session_id, (k_pid + (v_pid + rest)));
            lemma_dec_key_enc("session_id"@, (v_session_id + (k_pid + (v_pid + rest))));
            lemma_dec_u64_enc(session_id, (k_pid + (v_pid + rest)));
            lemma_dec_key_enc("pid"@, (v_pid + rest));
            lemma_dec_opt_u32_enc(pid, rest);
        },
        _ => {},
    }
}

/// Decoding inverts encoding for the pty_opened form.
#[verifier::rlimit(100)]
proof fn lemma_dec_exec_response_enc_pty_opened(m: ExecResponseV, rest: Seq<u8>)
    requires
        m is PtyOpened,
        exec_response_fits(m),
    ensures
        spec_dec_exec_response(spec_enc_exec_response(m) + rest) == Some((m, rest)),
{
    lemma_exec_response_tags();
    let fields = spec_enc_exec_response_fields_pty_opened(m);
    lemma_dec_exec_response_dispatch("pty_opened"@, 3, fields, rest);
    lemma_utf8_ne("hello_ack"@, "pty_opened"@);
    lemma_utf8_ne("pong"@, "pty_opened"@);
    lemma_utf8_ne("job_started"@, "pty_opened"@);
    lemma_utf8_ne("job_status"@, "pty_opened"@);
    lemma_dec_exec_response_form_pty_opened(m, rest);
}

/// Decoding inverts encoding for the fields of the pty_chunk form.
#[verifier::rlimit(100)]
proof fn lemma_dec_exec_response_form_pty_chunk(m: ExecResponseV, rest: Seq<u8>)
    requires
        m is PtyChunk,
        exec_response_fits(m),
    ensures
        spec_dec_exec_response_form_pty_chunk(7, spec_enc_exec_response_fields_pty_chunk(m) + rest) == Some((m, rest)),
{
    reveal(spec_dec_exec_response_form_pty_chunk);
    reveal(spec_enc_exec_response_fields_pty_chunk);
    lemma_exec_response_keys();
    match m {
        ExecResponseV::PtyChunk { session_id, offset, data, eof, complete, exit_code } => {
            let k_session_id = spec_enc_text("session_id"@);
            let v_session_id = spec_enc_u64(session_id);
            let k_offset = spec_enc_text("offset"@);
            let v_offset = spec_enc_u64(offset);
            let k_data = spec_enc_text("data"@);
            let v_data = spec_enc_bytes(data);
            let k_eof = spec_enc_text("eof"@);
            let v_eof = spec_enc_bool(eof);
            let k_complete = spec_enc_text("complete"@);
            let v_complete = spec_enc_bool(complete);
            let k_exit_code = spec_enc_text("exit_code"@);
            let v_exit_code = spec_enc_opt_i32(exit_code);
            lemma_concat_assoc(k_session_id + v_session_id + k_offset + v_offset + k_data + v_data + k_eof + v_eof + k_complete + v_complete + k_exit_code, v_exit_code, rest);
            lemma_concat_assoc(k_session_id + v_session_id + k_offset + v_offset + k_data + v_data + k_eof + v_eof + k_complete + v_complete, k_exit_code, (v_exit_code + rest));
            lemma_concat_assoc(k_session_id + v_session_id + k_offset + v_offset + k_data + v_data + k_eof + v_eof + k_complete, v_complete, (k_exit_code + (v_exit_code + rest)));
            lemma_concat_assoc(k_session_id + v_session_id + k_offset + v_offset + k_data + v_data + k_eof + v_eof, k_complete, (v_complete + (k_exit_code + (v_exit_code + rest))));
            lemma_concat_assoc(k_session_id + v_session_id + k_offset + v_offset + k_data + v_data + k_eof, v_eof, (k_complete + (v_complete + (k_exit_code + (v_exit_code + rest)))));
            lemma_concat_assoc(k_session_id + v_session_id + k_offset + v_offset + k_data + v_data, k_eof, (v_eof + (k_complete + (v_complete + (k_exit_code + (v_exit_code + rest))))));
            lemma_concat_assoc(k_session_id + v_session_id + k_offset + v_offset + k_data, v_data, (k_eof + (v_eof + (k_complete + (v_complete + (k_exit_code + (v_exit_code + rest)))))));
            lemma_concat_assoc(k_session_id + v_session_id + k_offset + v_offset, k_data, (v_data + (k_eof + (v_eof + (k_complete + (v_complete + (k_exit_code + (v_exit_code + rest))))))));
            lemma_concat_assoc(k_session_id + v_session_id + k_offset, v_offset, (k_data + (v_data + (k_eof + (v_eof + (k_complete + (v_complete + (k_exit_code + (v_exit_code + rest)))))))));
            lemma_concat_assoc(k_session_id + v_session_id, k_offset, (v_offset + (k_data + (v_data + (k_eof + (v_eof + (k_complete + (v_complete + (k_exit_code + (v_exit_code + rest))))))))));
            lemma_concat_assoc(k_session_id, v_session_id, (k_offset + (v_offset + (k_data + (v_data + (k_eof + (v_eof + (k_complete + (v_complete + (k_exit_code + (v_exit_code + rest)))))))))));
            lemma_dec_key_enc("session_id"@, (v_session_id + (k_offset + (v_offset + (k_data + (v_data + (k_eof + (v_eof + (k_complete + (v_complete + (k_exit_code + (v_exit_code + rest))))))))))));
            lemma_dec_u64_enc(session_id, (k_offset + (v_offset + (k_data + (v_data + (k_eof + (v_eof + (k_complete + (v_complete + (k_exit_code + (v_exit_code + rest)))))))))));
            lemma_dec_key_enc("offset"@, (v_offset + (k_data + (v_data + (k_eof + (v_eof + (k_complete + (v_complete + (k_exit_code + (v_exit_code + rest))))))))));
            lemma_dec_u64_enc(offset, (k_data + (v_data + (k_eof + (v_eof + (k_complete + (v_complete + (k_exit_code + (v_exit_code + rest)))))))));
            lemma_dec_key_enc("data"@, (v_data + (k_eof + (v_eof + (k_complete + (v_complete + (k_exit_code + (v_exit_code + rest))))))));
            lemma_dec_bytes_enc(data, (k_eof + (v_eof + (k_complete + (v_complete + (k_exit_code + (v_exit_code + rest)))))));
            lemma_dec_key_enc("eof"@, (v_eof + (k_complete + (v_complete + (k_exit_code + (v_exit_code + rest))))));
            lemma_dec_bool_enc(eof, (k_complete + (v_complete + (k_exit_code + (v_exit_code + rest)))));
            lemma_dec_key_enc("complete"@, (v_complete + (k_exit_code + (v_exit_code + rest))));
            lemma_dec_bool_enc(complete, (k_exit_code + (v_exit_code + rest)));
            lemma_dec_key_enc("exit_code"@, (v_exit_code + rest));
            lemma_dec_opt_i32_enc(exit_code, rest);
        },
        _ => {},
    }
}

/// Decoding inverts encoding for the pty_chunk form.
#[verifier::rlimit(100)]
proof fn lemma_dec_exec_response_enc_pty_chunk(m: ExecResponseV, rest: Seq<u8>)
    requires
        m is PtyChunk,
        exec_response_fits(m),
    ensures
        spec_dec_exec_response(spec_enc_exec_response(m) + rest) == Some((m, rest)),
{
    lemma_exec_response_tags();
    let fields = spec_enc_exec_response_fields_pty_chunk(m);
    lemma_dec_exec_response_dispatch("pty_chunk"@, 7, fields, rest);
    lemma_utf8_ne("hello_ack"@, "pty_chunk"@);
    lemma_utf8_ne("pong"@, "pty_chunk"@);
    lemma_utf8_ne("job_started"@, "pty_chunk"@);
    lemma_utf8_ne("job_status"@, "pty_chunk"@);
    lemma_utf8_ne("pty_opened"@, "pty_chunk"@);
    lemma_dec_exec_response_form_pty_chunk(m, rest);
}

/// Decoding inverts encoding for the fields of the pty_ack form.
#[verifier::rlimit(100)]
proof fn lemma_dec_exec_response_form_pty_ack(m: ExecResponseV, rest: Seq<u8>)
    requires
        m is PtyAck,
        exec_response_fits(m),
    ensures
        spec_dec_exec_response_form_pty_ack(3, spec_enc_exec_response_fields_pty_ack(m) + rest) == Some((m, rest)),
{
    reveal(spec_dec_exec_response_form_pty_ack);
    reveal(spec_enc_exec_response_fields_pty_ack);
    lemma_exec_response_keys();
    match m {
        ExecResponseV::PtyAck { session_id, action } => {
            let k_session_id = spec_enc_text("session_id"@);
            let v_session_id = spec_enc_u64(session_id);
            let k_action = spec_enc_text("action"@);
            let v_action = spec_enc_exec_pty_action(action);
            lemma_concat_assoc(k_session_id + v_session_id + k_action, v_action, rest);
            lemma_concat_assoc(k_session_id + v_session_id, k_action, (v_action + rest));
            lemma_concat_assoc(k_session_id, v_session_id, (k_action + (v_action + rest)));
            lemma_dec_key_enc("session_id"@, (v_session_id + (k_action + (v_action + rest))));
            lemma_dec_u64_enc(session_id, (k_action + (v_action + rest)));
            lemma_dec_key_enc("action"@, (v_action + rest));
            lemma_dec_exec_pty_action_enc(action, rest);
        },
        _ => {},
    }
}

/// Decoding inverts encoding for the pty_ack form.
#[verifier::rlimit(100)]
proof fn lemma_dec_exec_response_enc_pty_ack(m: ExecResponseV, rest: Seq<u8>)
    requires
        m is PtyAck,
        exec_response_fits(m),
    ensures
        spec_dec_exec_response(spec_enc_exec_response(m) + rest) == Some((m, rest)),
{
    lemma_exec_response_tags();
    let fields = spec_enc_exec_response_fields_pty_ack(m);
    lemma_dec_exec_response_dispatch("pty_ack"@, 3, fields, rest);
    lemma_utf8_ne("hello_ack"@, "pty_ack"@);
    lemma_utf8_ne("pong"@, "pty_ack"@);
    lemma_utf8_ne("job_started"@, "pty_ack"@);
    lemma_utf8_ne("job_status"@, "pty_ack"@);
    lemma_utf8_ne("pty_opened"@, "pty_ack"@);
    lemma_utf8_ne("pty_chunk"@, "pty_ack"@);
    lemma_dec_exec_response_form_pty_ack(m, rest);
}

/// Decoding inverts encoding for the fields of the usage_sample form.
#[verifier::rlimit(100)]
proof fn lemma_dec_exec_response_form_usage_sample(m: ExecResponseV, rest: Seq<u8>)
    requires
        m is UsageSample,
        exec_response_fits(m),
    ensures
        spec_dec_exec_response_form_usage_sample(5, spec_enc_exec_response_fields_usage_sample(m) + rest) == Some((m, rest)),
{
    reveal(spec_dec_exec_response_form_usage_sample);
    reveal(spec_enc_exec_response_fields_usage_sample);
    lemma_exec_response_keys();
    match m {
        ExecResponseV::UsageSample { job_id, rss_bytes, cpu_nanos, timestamp_ms } => {
            let k_job_id = spec_enc_text("job_id"@);
            let v_job_id = spec_enc_text(job_id);
            let k_rss_bytes = spec_enc_text("rss_bytes"@);
            let v_rss_bytes = spec_enc_opt_u64(rss_bytes);
            let k_cpu_nanos = spec_enc_text("cpu_nanos"@);
            let v_cpu_nanos = spec_enc_opt_u64(cpu_nanos);
            let k_timestamp_ms = spec_enc_text("timestamp_ms"@);
            let v_timestamp_ms = spec_enc_u64(timestamp_ms);
            lemma_concat_assoc(k_job_id + v_job_id + k_rss_bytes + v_rss_bytes + k_cpu_nanos + v_cpu_nanos + k_timestamp_ms, v_timestamp_ms, rest);
            lemma_concat_assoc(k_job_id + v_job_id + k_rss_bytes + v_rss_bytes + k_cpu_nanos + v_cpu_nanos, k_timestamp_ms, (v_timestamp_ms + rest));
            lemma_concat_assoc(k_job_id + v_job_id + k_rss_bytes + v_rss_bytes + k_cpu_nanos, v_cpu_nanos, (k_timestamp_ms + (v_timestamp_ms + rest)));
            lemma_concat_assoc(k_job_id + v_job_id + k_rss_bytes + v_rss_bytes, k_cpu_nanos, (v_cpu_nanos + (k_timestamp_ms + (v_timestamp_ms + rest))));
            lemma_concat_assoc(k_job_id + v_job_id + k_rss_bytes, v_rss_bytes, (k_cpu_nanos + (v_cpu_nanos + (k_timestamp_ms + (v_timestamp_ms + rest)))));
            lemma_concat_assoc(k_job_id + v_job_id, k_rss_bytes, (v_rss_bytes + (k_cpu_nanos + (v_cpu_nanos + (k_timestamp_ms + (v_timestamp_ms + rest))))));
            lemma_concat_assoc(k_job_id, v_job_id, (k_rss_bytes + (v_rss_bytes + (k_cpu_nanos + (v_cpu_nanos + (k_timestamp_ms + (v_timestamp_ms + rest)))))));
            lemma_dec_key_enc("job_id"@, (v_job_id + (k_rss_bytes + (v_rss_bytes + (k_cpu_nanos + (v_cpu_nanos + (k_timestamp_ms + (v_timestamp_ms + rest))))))));
            lemma_dec_text_enc(job_id, (k_rss_bytes + (v_rss_bytes + (k_cpu_nanos + (v_cpu_nanos + (k_timestamp_ms + (v_timestamp_ms + rest)))))));
            lemma_dec_key_enc("rss_bytes"@, (v_rss_bytes + (k_cpu_nanos + (v_cpu_nanos + (k_timestamp_ms + (v_timestamp_ms + rest))))));
            lemma_dec_opt_u64_enc(rss_bytes, (k_cpu_nanos + (v_cpu_nanos + (k_timestamp_ms + (v_timestamp_ms + rest)))));
            lemma_dec_key_enc("cpu_nanos"@, (v_cpu_nanos + (k_timestamp_ms + (v_timestamp_ms + rest))));
            lemma_dec_opt_u64_enc(cpu_nanos, (k_timestamp_ms + (v_timestamp_ms + rest)));
            lemma_dec_key_enc("timestamp_ms"@, (v_timestamp_ms + rest));
            lemma_dec_u64_enc(timestamp_ms, rest);
        },
        _ => {},
    }
}

/// Decoding inverts encoding for the usage_sample form.
#[verifier::rlimit(100)]
proof fn lemma_dec_exec_response_enc_usage_sample(m: ExecResponseV, rest: Seq<u8>)
    requires
        m is UsageSample,
        exec_response_fits(m),
    ensures
        spec_dec_exec_response(spec_enc_exec_response(m) + rest) == Some((m, rest)),
{
    lemma_exec_response_tags();
    let fields = spec_enc_exec_response_fields_usage_sample(m);
    lemma_dec_exec_response_dispatch("usage_sample"@, 5, fields, rest);
    lemma_utf8_ne("hello_ack"@, "usage_sample"@);
    lemma_utf8_ne("pong"@, "usage_sample"@);
    lemma_utf8_ne("job_started"@, "usage_sample"@);
    lemma_utf8_ne("job_status"@, "usage_sample"@);
    lemma_utf8_ne("pty_opened"@, "usage_sample"@);
    lemma_utf8_ne("pty_chunk"@, "usage_sample"@);
    lemma_utf8_ne("pty_ack"@, "usage_sample"@);
    lemma_dec_exec_response_form_usage_sample(m, rest);
}

/// Decoding inverts encoding for the fields of the exec_error form.
#[verifier::rlimit(100)]
proof fn lemma_dec_exec_response_form_exec_error(m: ExecResponseV, rest: Seq<u8>)
    requires
        m is ExecError,
        exec_response_fits(m),
    ensures
        spec_dec_exec_response_form_exec_error(4, spec_enc_exec_response_fields_exec_error(m) + rest) == Some((m, rest)),
{
    reveal(spec_dec_exec_response_form_exec_error);
    reveal(spec_enc_exec_response_fields_exec_error);
    lemma_exec_response_keys();
    match m {
        ExecResponseV::ExecError { code, message, detail } => {
            let k_code = spec_enc_text("code"@);
            let v_code = spec_enc_exec_error_code(code);
            let k_message = spec_enc_text("message"@);
            let v_message = spec_enc_text(message);
            let k_detail = spec_enc_text("detail"@);
            let v_detail = spec_enc_opt_text(detail);
            lemma_concat_assoc(k_code + v_code + k_message + v_message + k_detail, v_detail, rest);
            lemma_concat_assoc(k_code + v_code + k_message + v_message, k_detail, (v_detail + rest));
            lemma_concat_assoc(k_code + v_code + k_message, v_message, (k_detail + (v_detail + rest)));
            lemma_concat_assoc(k_code + v_code, k_message, (v_message + (k_detail + (v_detail + rest))));
            lemma_concat_assoc(k_code, v_code, (k_message + (v_message + (k_detail + (v_detail + rest)))));
            lemma_dec_key_enc("code"@, (v_code + (k_message + (v_message + (k_detail + (v_detail + rest))))));
            lemma_dec_exec_error_code_enc(code, (k_message + (v_message + (k_detail + (v_detail + rest)))));
            lemma_dec_key_enc("message"@, (v_message + (k_detail + (v_detail + rest))));
            lemma_dec_text_enc(message, (k_detail + (v_detail + rest)));
            lemma_dec_key_enc("detail"@, (v_detail + rest));
            lemma_dec_opt_text_enc(detail, rest);
        },
        _ => {},
    }
}

/// Decoding inverts encoding for the exec_error form.
#[verifier::rlimit(100)]
proof fn lemma_dec_exec_response_enc_exec_error(m: ExecResponseV, rest: Seq<u8>)
    requires
        m is ExecError,
        exec_response_fits(m),
    ensures
        spec_dec_exec_response(spec_enc_exec_response(m) + rest) == Some((m, rest)),
{
    lemma_exec_response_tags();
    let fields = spec_enc_exec_response_fields_exec_error(m);
    lemma_dec_exec_response_dispatch("exec_error"@, 4, fields, rest);
    lemma_utf8_ne("hello_ack"@, "exec_error"@);
    lemma_utf8_ne("pong"@, "exec_error"@);
    lemma_utf8_ne("job_started"@, "exec_error"@);
    lemma_utf8_ne("job_status"@, "exec_error"@);
    lemma_utf8_ne("pty_opened"@, "exec_error"@);
    lemma_utf8_ne("pty_chunk"@, "exec_error"@);
    lemma_utf8_ne("pty_ack"@, "exec_error"@);
    lemma_utf8_ne("usage_sample"@, "exec_error"@);
    lemma_dec_exec_response_form_exec_error(m, rest);
}

/// Decoding a exec_response body inverts encoding one.
pub proof fn lemma_dec_exec_response_enc(m: ExecResponseV, rest: Seq<u8>)
    requires
        exec_response_fits(m),
    ensures
        spec_dec_exec_response(spec_enc_exec_response(m) + rest) == Some((m, rest)),
{
    match m {
        ExecResponseV::HelloAck { .. } => lemma_dec_exec_response_enc_hello_ack(m, rest),
        ExecResponseV::Pong => lemma_dec_exec_response_enc_pong(m, rest),
        ExecResponseV::JobStarted { .. } => lemma_dec_exec_response_enc_job_started(m, rest),
        ExecResponseV::JobStatus { .. } => lemma_dec_exec_response_enc_job_status(m, rest),
        ExecResponseV::PtyOpened { .. } => lemma_dec_exec_response_enc_pty_opened(m, rest),
        ExecResponseV::PtyChunk { .. } => lemma_dec_exec_response_enc_pty_chunk(m, rest),
        ExecResponseV::PtyAck { .. } => lemma_dec_exec_response_enc_pty_ack(m, rest),
        ExecResponseV::UsageSample { .. } => lemma_dec_exec_response_enc_usage_sample(m, rest),
        ExecResponseV::ExecError { .. } => lemma_dec_exec_response_enc_exec_error(m, rest),
    }
}

/// Appends an encoded exec_response body.
#[verifier::rlimit(100)]
pub fn enc_exec_response(out: &mut Vec<u8>, v: &ExecResponse)
    ensures
        final(out)@ == old(out)@ + spec_enc_exec_response(v@),
{
    match v {
        ExecResponse::HelloAck { protocol, worker_pid } => {
            enc_uint(out, MAJOR_MAP, 3);
            enc_text(out, "type");
            enc_text(out, "hello_ack");
            enc_text(out, "protocol");
            enc_u64(out, *protocol as u64);
            enc_text(out, "worker_pid");
            enc_u64(out, *worker_pid as u64);
            proof {
                reveal(spec_enc_exec_response_fields_hello_ack);
                let o = old(out)@;
                let h = spec_enc_uint(MAJOR_MAP, 3);
                let tk = spec_enc_text("type"@);
                let tv = spec_enc_text("hello_ack"@);
                let k_protocol = spec_enc_text("protocol"@);
                let v_protocol = spec_enc_u64(*protocol as u64);
                let k_worker_pid = spec_enc_text("worker_pid"@);
                let v_worker_pid = spec_enc_u64(*worker_pid as u64);
                lemma_concat_assoc(o, h, tk);
                lemma_concat_assoc(o, h + tk, tv);
                lemma_concat_assoc(o, h + tk + tv, k_protocol);
                lemma_concat_assoc(o, h + tk + tv + k_protocol, v_protocol);
                lemma_concat_assoc(o, h + tk + tv + k_protocol + v_protocol, k_worker_pid);
                lemma_concat_assoc(o, h + tk + tv + k_protocol + v_protocol + k_worker_pid, v_worker_pid);
                lemma_concat_assoc(h + tk + tv, k_protocol, v_protocol);
                lemma_concat_assoc(h + tk + tv, k_protocol + v_protocol, k_worker_pid);
                lemma_concat_assoc(h + tk + tv, k_protocol + v_protocol + k_worker_pid, v_worker_pid);
            }
        },
        ExecResponse::Pong {  } => {
            enc_uint(out, MAJOR_MAP, 1);
            enc_text(out, "type");
            enc_text(out, "pong");
            proof {
                reveal(spec_enc_exec_response_fields_pong);
                let o = old(out)@;
                let h = spec_enc_uint(MAJOR_MAP, 1);
                let tk = spec_enc_text("type"@);
                let tv = spec_enc_text("pong"@);
                lemma_concat_assoc(o, h, tk);
                lemma_concat_assoc(o, h + tk, tv);
                assert(out@ =~= o + spec_enc_exec_response(v@));
            }
        },
        ExecResponse::JobStarted { job_id, pid } => {
            enc_uint(out, MAJOR_MAP, 3);
            enc_text(out, "type");
            enc_text(out, "job_started");
            enc_text(out, "job_id");
            enc_text(out, job_id.0.as_str());
            enc_text(out, "pid");
            enc_opt_u32(out, pid);
            proof {
                reveal(spec_enc_exec_response_fields_job_started);
                let o = old(out)@;
                let h = spec_enc_uint(MAJOR_MAP, 3);
                let tk = spec_enc_text("type"@);
                let tv = spec_enc_text("job_started"@);
                let k_job_id = spec_enc_text("job_id"@);
                let v_job_id = spec_enc_text(job_id@);
                let k_pid = spec_enc_text("pid"@);
                let v_pid = spec_enc_opt_u32(*pid);
                lemma_concat_assoc(o, h, tk);
                lemma_concat_assoc(o, h + tk, tv);
                lemma_concat_assoc(o, h + tk + tv, k_job_id);
                lemma_concat_assoc(o, h + tk + tv + k_job_id, v_job_id);
                lemma_concat_assoc(o, h + tk + tv + k_job_id + v_job_id, k_pid);
                lemma_concat_assoc(o, h + tk + tv + k_job_id + v_job_id + k_pid, v_pid);
                lemma_concat_assoc(h + tk + tv, k_job_id, v_job_id);
                lemma_concat_assoc(h + tk + tv, k_job_id + v_job_id, k_pid);
                lemma_concat_assoc(h + tk + tv, k_job_id + v_job_id + k_pid, v_pid);
            }
        },
        ExecResponse::JobStatus { job_id, status, finished_at_ms, termination_reason } => {
            enc_uint(out, MAJOR_MAP, 5);
            enc_text(out, "type");
            enc_text(out, "job_status");
            enc_text(out, "job_id");
            enc_text(out, job_id.0.as_str());
            enc_text(out, "status");
            enc_exit_status(out, status);
            enc_text(out, "finished_at_ms");
            enc_opt_u64(out, finished_at_ms);
            enc_text(out, "termination_reason");
            enc_opt_term_reason(out, termination_reason);
            proof {
                reveal(spec_enc_exec_response_fields_job_status);
                let o = old(out)@;
                let h = spec_enc_uint(MAJOR_MAP, 5);
                let tk = spec_enc_text("type"@);
                let tv = spec_enc_text("job_status"@);
                let k_job_id = spec_enc_text("job_id"@);
                let v_job_id = spec_enc_text(job_id@);
                let k_status = spec_enc_text("status"@);
                let v_status = spec_enc_exit_status(*status);
                let k_finished_at_ms = spec_enc_text("finished_at_ms"@);
                let v_finished_at_ms = spec_enc_opt_u64(*finished_at_ms);
                let k_termination_reason = spec_enc_text("termination_reason"@);
                let v_termination_reason = spec_enc_opt_term_reason(*termination_reason);
                lemma_concat_assoc(o, h, tk);
                lemma_concat_assoc(o, h + tk, tv);
                lemma_concat_assoc(o, h + tk + tv, k_job_id);
                lemma_concat_assoc(o, h + tk + tv + k_job_id, v_job_id);
                lemma_concat_assoc(o, h + tk + tv + k_job_id + v_job_id, k_status);
                lemma_concat_assoc(o, h + tk + tv + k_job_id + v_job_id + k_status, v_status);
                lemma_concat_assoc(o, h + tk + tv + k_job_id + v_job_id + k_status + v_status, k_finished_at_ms);
                lemma_concat_assoc(o, h + tk + tv + k_job_id + v_job_id + k_status + v_status + k_finished_at_ms, v_finished_at_ms);
                lemma_concat_assoc(o, h + tk + tv + k_job_id + v_job_id + k_status + v_status + k_finished_at_ms + v_finished_at_ms, k_termination_reason);
                lemma_concat_assoc(o, h + tk + tv + k_job_id + v_job_id + k_status + v_status + k_finished_at_ms + v_finished_at_ms + k_termination_reason, v_termination_reason);
                lemma_concat_assoc(h + tk + tv, k_job_id, v_job_id);
                lemma_concat_assoc(h + tk + tv, k_job_id + v_job_id, k_status);
                lemma_concat_assoc(h + tk + tv, k_job_id + v_job_id + k_status, v_status);
                lemma_concat_assoc(h + tk + tv, k_job_id + v_job_id + k_status + v_status, k_finished_at_ms);
                lemma_concat_assoc(h + tk + tv, k_job_id + v_job_id + k_status + v_status + k_finished_at_ms, v_finished_at_ms);
                lemma_concat_assoc(h + tk + tv, k_job_id + v_job_id + k_status + v_status + k_finished_at_ms + v_finished_at_ms, k_termination_reason);
                lemma_concat_assoc(h + tk + tv, k_job_id + v_job_id + k_status + v_status + k_finished_at_ms + v_finished_at_ms + k_termination_reason, v_termination_reason);
            }
        },
        ExecResponse::PtyOpened { session_id, pid } => {
            enc_uint(out, MAJOR_MAP, 3);
            enc_text(out, "type");
            enc_text(out, "pty_opened");
            enc_text(out, "session_id");
            enc_u64(out, session_id.0);
            enc_text(out, "pid");
            enc_opt_u32(out, pid);
            proof {
                reveal(spec_enc_exec_response_fields_pty_opened);
                let o = old(out)@;
                let h = spec_enc_uint(MAJOR_MAP, 3);
                let tk = spec_enc_text("type"@);
                let tv = spec_enc_text("pty_opened"@);
                let k_session_id = spec_enc_text("session_id"@);
                let v_session_id = spec_enc_u64(session_id.0);
                let k_pid = spec_enc_text("pid"@);
                let v_pid = spec_enc_opt_u32(*pid);
                lemma_concat_assoc(o, h, tk);
                lemma_concat_assoc(o, h + tk, tv);
                lemma_concat_assoc(o, h + tk + tv, k_session_id);
                lemma_concat_assoc(o, h + tk + tv + k_session_id, v_session_id);
                lemma_concat_assoc(o, h + tk + tv + k_session_id + v_session_id, k_pid);
                lemma_concat_assoc(o, h + tk + tv + k_session_id + v_session_id + k_pid, v_pid);
                lemma_concat_assoc(h + tk + tv, k_session_id, v_session_id);
                lemma_concat_assoc(h + tk + tv, k_session_id + v_session_id, k_pid);
                lemma_concat_assoc(h + tk + tv, k_session_id + v_session_id + k_pid, v_pid);
            }
        },
        ExecResponse::PtyChunk { session_id, offset, data, eof, complete, exit_code } => {
            enc_uint(out, MAJOR_MAP, 7);
            enc_text(out, "type");
            enc_text(out, "pty_chunk");
            enc_text(out, "session_id");
            enc_u64(out, session_id.0);
            enc_text(out, "offset");
            enc_u64(out, *offset);
            enc_text(out, "data");
            enc_data(out, data);
            enc_text(out, "eof");
            enc_bool(out, *eof);
            enc_text(out, "complete");
            enc_bool(out, *complete);
            enc_text(out, "exit_code");
            enc_opt_i32(out, exit_code);
            proof {
                reveal(spec_enc_exec_response_fields_pty_chunk);
                let o = old(out)@;
                let h = spec_enc_uint(MAJOR_MAP, 7);
                let tk = spec_enc_text("type"@);
                let tv = spec_enc_text("pty_chunk"@);
                let k_session_id = spec_enc_text("session_id"@);
                let v_session_id = spec_enc_u64(session_id.0);
                let k_offset = spec_enc_text("offset"@);
                let v_offset = spec_enc_u64(*offset);
                let k_data = spec_enc_text("data"@);
                let v_data = spec_enc_bytes(data@);
                let k_eof = spec_enc_text("eof"@);
                let v_eof = spec_enc_bool(*eof);
                let k_complete = spec_enc_text("complete"@);
                let v_complete = spec_enc_bool(*complete);
                let k_exit_code = spec_enc_text("exit_code"@);
                let v_exit_code = spec_enc_opt_i32(*exit_code);
                lemma_concat_assoc(o, h, tk);
                lemma_concat_assoc(o, h + tk, tv);
                lemma_concat_assoc(o, h + tk + tv, k_session_id);
                lemma_concat_assoc(o, h + tk + tv + k_session_id, v_session_id);
                lemma_concat_assoc(o, h + tk + tv + k_session_id + v_session_id, k_offset);
                lemma_concat_assoc(o, h + tk + tv + k_session_id + v_session_id + k_offset, v_offset);
                lemma_concat_assoc(o, h + tk + tv + k_session_id + v_session_id + k_offset + v_offset, k_data);
                lemma_concat_assoc(o, h + tk + tv + k_session_id + v_session_id + k_offset + v_offset + k_data, v_data);
                lemma_concat_assoc(o, h + tk + tv + k_session_id + v_session_id + k_offset + v_offset + k_data + v_data, k_eof);
                lemma_concat_assoc(o, h + tk + tv + k_session_id + v_session_id + k_offset + v_offset + k_data + v_data + k_eof, v_eof);
                lemma_concat_assoc(o, h + tk + tv + k_session_id + v_session_id + k_offset + v_offset + k_data + v_data + k_eof + v_eof, k_complete);
                lemma_concat_assoc(o, h + tk + tv + k_session_id + v_session_id + k_offset + v_offset + k_data + v_data + k_eof + v_eof + k_complete, v_complete);
                lemma_concat_assoc(o, h + tk + tv + k_session_id + v_session_id + k_offset + v_offset + k_data + v_data + k_eof + v_eof + k_complete + v_complete, k_exit_code);
                lemma_concat_assoc(o, h + tk + tv + k_session_id + v_session_id + k_offset + v_offset + k_data + v_data + k_eof + v_eof + k_complete + v_complete + k_exit_code, v_exit_code);
                lemma_concat_assoc(h + tk + tv, k_session_id, v_session_id);
                lemma_concat_assoc(h + tk + tv, k_session_id + v_session_id, k_offset);
                lemma_concat_assoc(h + tk + tv, k_session_id + v_session_id + k_offset, v_offset);
                lemma_concat_assoc(h + tk + tv, k_session_id + v_session_id + k_offset + v_offset, k_data);
                lemma_concat_assoc(h + tk + tv, k_session_id + v_session_id + k_offset + v_offset + k_data, v_data);
                lemma_concat_assoc(h + tk + tv, k_session_id + v_session_id + k_offset + v_offset + k_data + v_data, k_eof);
                lemma_concat_assoc(h + tk + tv, k_session_id + v_session_id + k_offset + v_offset + k_data + v_data + k_eof, v_eof);
                lemma_concat_assoc(h + tk + tv, k_session_id + v_session_id + k_offset + v_offset + k_data + v_data + k_eof + v_eof, k_complete);
                lemma_concat_assoc(h + tk + tv, k_session_id + v_session_id + k_offset + v_offset + k_data + v_data + k_eof + v_eof + k_complete, v_complete);
                lemma_concat_assoc(h + tk + tv, k_session_id + v_session_id + k_offset + v_offset + k_data + v_data + k_eof + v_eof + k_complete + v_complete, k_exit_code);
                lemma_concat_assoc(h + tk + tv, k_session_id + v_session_id + k_offset + v_offset + k_data + v_data + k_eof + v_eof + k_complete + v_complete + k_exit_code, v_exit_code);
            }
        },
        ExecResponse::PtyAck { session_id, action } => {
            enc_uint(out, MAJOR_MAP, 3);
            enc_text(out, "type");
            enc_text(out, "pty_ack");
            enc_text(out, "session_id");
            enc_u64(out, session_id.0);
            enc_text(out, "action");
            enc_exec_pty_action(out, action);
            proof {
                reveal(spec_enc_exec_response_fields_pty_ack);
                let o = old(out)@;
                let h = spec_enc_uint(MAJOR_MAP, 3);
                let tk = spec_enc_text("type"@);
                let tv = spec_enc_text("pty_ack"@);
                let k_session_id = spec_enc_text("session_id"@);
                let v_session_id = spec_enc_u64(session_id.0);
                let k_action = spec_enc_text("action"@);
                let v_action = spec_enc_exec_pty_action(*action);
                lemma_concat_assoc(o, h, tk);
                lemma_concat_assoc(o, h + tk, tv);
                lemma_concat_assoc(o, h + tk + tv, k_session_id);
                lemma_concat_assoc(o, h + tk + tv + k_session_id, v_session_id);
                lemma_concat_assoc(o, h + tk + tv + k_session_id + v_session_id, k_action);
                lemma_concat_assoc(o, h + tk + tv + k_session_id + v_session_id + k_action, v_action);
                lemma_concat_assoc(h + tk + tv, k_session_id, v_session_id);
                lemma_concat_assoc(h + tk + tv, k_session_id + v_session_id, k_action);
                lemma_concat_assoc(h + tk + tv, k_session_id + v_session_id + k_action, v_action);
            }
        },
        ExecResponse::UsageSample { job_id, rss_bytes, cpu_nanos, timestamp_ms } => {
            enc_uint(out, MAJOR_MAP, 5);
            enc_text(out, "type");
            enc_text(out, "usage_sample");
            enc_text(out, "job_id");
            enc_text(out, job_id.0.as_str());
            enc_text(out, "rss_bytes");
            enc_opt_u64(out, rss_bytes);
            enc_text(out, "cpu_nanos");
            enc_opt_u64(out, cpu_nanos);
            enc_text(out, "timestamp_ms");
            enc_u64(out, *timestamp_ms);
            proof {
                reveal(spec_enc_exec_response_fields_usage_sample);
                let o = old(out)@;
                let h = spec_enc_uint(MAJOR_MAP, 5);
                let tk = spec_enc_text("type"@);
                let tv = spec_enc_text("usage_sample"@);
                let k_job_id = spec_enc_text("job_id"@);
                let v_job_id = spec_enc_text(job_id@);
                let k_rss_bytes = spec_enc_text("rss_bytes"@);
                let v_rss_bytes = spec_enc_opt_u64(*rss_bytes);
                let k_cpu_nanos = spec_enc_text("cpu_nanos"@);
                let v_cpu_nanos = spec_enc_opt_u64(*cpu_nanos);
                let k_timestamp_ms = spec_enc_text("timestamp_ms"@);
                let v_timestamp_ms = spec_enc_u64(*timestamp_ms);
                lemma_concat_assoc(o, h, tk);
                lemma_concat_assoc(o, h + tk, tv);
                lemma_concat_assoc(o, h + tk + tv, k_job_id);
                lemma_concat_assoc(o, h + tk + tv + k_job_id, v_job_id);
                lemma_concat_assoc(o, h + tk + tv + k_job_id + v_job_id, k_rss_bytes);
                lemma_concat_assoc(o, h + tk + tv + k_job_id + v_job_id + k_rss_bytes, v_rss_bytes);
                lemma_concat_assoc(o, h + tk + tv + k_job_id + v_job_id + k_rss_bytes + v_rss_bytes, k_cpu_nanos);
                lemma_concat_assoc(o, h + tk + tv + k_job_id + v_job_id + k_rss_bytes + v_rss_bytes + k_cpu_nanos, v_cpu_nanos);
                lemma_concat_assoc(o, h + tk + tv + k_job_id + v_job_id + k_rss_bytes + v_rss_bytes + k_cpu_nanos + v_cpu_nanos, k_timestamp_ms);
                lemma_concat_assoc(o, h + tk + tv + k_job_id + v_job_id + k_rss_bytes + v_rss_bytes + k_cpu_nanos + v_cpu_nanos + k_timestamp_ms, v_timestamp_ms);
                lemma_concat_assoc(h + tk + tv, k_job_id, v_job_id);
                lemma_concat_assoc(h + tk + tv, k_job_id + v_job_id, k_rss_bytes);
                lemma_concat_assoc(h + tk + tv, k_job_id + v_job_id + k_rss_bytes, v_rss_bytes);
                lemma_concat_assoc(h + tk + tv, k_job_id + v_job_id + k_rss_bytes + v_rss_bytes, k_cpu_nanos);
                lemma_concat_assoc(h + tk + tv, k_job_id + v_job_id + k_rss_bytes + v_rss_bytes + k_cpu_nanos, v_cpu_nanos);
                lemma_concat_assoc(h + tk + tv, k_job_id + v_job_id + k_rss_bytes + v_rss_bytes + k_cpu_nanos + v_cpu_nanos, k_timestamp_ms);
                lemma_concat_assoc(h + tk + tv, k_job_id + v_job_id + k_rss_bytes + v_rss_bytes + k_cpu_nanos + v_cpu_nanos + k_timestamp_ms, v_timestamp_ms);
            }
        },
        ExecResponse::ExecError { code, message, detail } => {
            enc_uint(out, MAJOR_MAP, 4);
            enc_text(out, "type");
            enc_text(out, "exec_error");
            enc_text(out, "code");
            enc_exec_error_code(out, code);
            enc_text(out, "message");
            enc_text(out, message.as_str());
            enc_text(out, "detail");
            enc_opt_text(out, detail);
            proof {
                reveal(spec_enc_exec_response_fields_exec_error);
                let o = old(out)@;
                let h = spec_enc_uint(MAJOR_MAP, 4);
                let tk = spec_enc_text("type"@);
                let tv = spec_enc_text("exec_error"@);
                let k_code = spec_enc_text("code"@);
                let v_code = spec_enc_exec_error_code(*code);
                let k_message = spec_enc_text("message"@);
                let v_message = spec_enc_text(message@);
                let k_detail = spec_enc_text("detail"@);
                let v_detail = spec_enc_opt_text(detail.deep_view());
                lemma_concat_assoc(o, h, tk);
                lemma_concat_assoc(o, h + tk, tv);
                lemma_concat_assoc(o, h + tk + tv, k_code);
                lemma_concat_assoc(o, h + tk + tv + k_code, v_code);
                lemma_concat_assoc(o, h + tk + tv + k_code + v_code, k_message);
                lemma_concat_assoc(o, h + tk + tv + k_code + v_code + k_message, v_message);
                lemma_concat_assoc(o, h + tk + tv + k_code + v_code + k_message + v_message, k_detail);
                lemma_concat_assoc(o, h + tk + tv + k_code + v_code + k_message + v_message + k_detail, v_detail);
                lemma_concat_assoc(h + tk + tv, k_code, v_code);
                lemma_concat_assoc(h + tk + tv, k_code + v_code, k_message);
                lemma_concat_assoc(h + tk + tv, k_code + v_code + k_message, v_message);
                lemma_concat_assoc(h + tk + tv, k_code + v_code + k_message + v_message, k_detail);
                lemma_concat_assoc(h + tk + tv, k_code + v_code + k_message + v_message + k_detail, v_detail);
            }
        },
    }
}

/// Reads the fields of the hello_ack form at `pos`.
#[verifier::rlimit(100)]
fn dec_exec_response_form_hello_ack(buf: &[u8], cnt: u64, pos: usize) -> (r: Option<(ExecResponse, usize)>)
    requires
        pos <= buf@.len(),
    ensures
        ({
            let s = buf@.skip(pos as int);
            match spec_dec_exec_response_form_hello_ack(cnt, s) {
                Some((v, rem)) => r matches Some((ov, end)) && ov@ == v && pos <= end
                    <= buf@.len() && buf@.skip(end as int) == rem,
                None => r is None,
            }
        }),
{
    reveal(spec_dec_exec_response_form_hello_ack);
    if cnt != 3 {
        return None;
    }
    let Some(q0) = dec_key(buf, pos, "protocol") else { return None };
    let Some((protocol, q1)) = dec_u32(buf, q0) else { return None };
    let Some(q2) = dec_key(buf, q1, "worker_pid") else { return None };
    let Some((worker_pid, q3)) = dec_u32(buf, q2) else { return None };
    Some((ExecResponse::HelloAck { protocol, worker_pid }, q3))
}

/// Reads the fields of the pong form at `pos`.
#[verifier::rlimit(100)]
fn dec_exec_response_form_pong(buf: &[u8], cnt: u64, pos: usize) -> (r: Option<(ExecResponse, usize)>)
    requires
        pos <= buf@.len(),
    ensures
        ({
            let s = buf@.skip(pos as int);
            match spec_dec_exec_response_form_pong(cnt, s) {
                Some((v, rem)) => r matches Some((ov, end)) && ov@ == v && pos <= end
                    <= buf@.len() && buf@.skip(end as int) == rem,
                None => r is None,
            }
        }),
{
    reveal(spec_dec_exec_response_form_pong);
    if cnt != 1 {
        return None;
    }
    Some((ExecResponse::Pong {  }, pos))
}

/// Reads the fields of the job_started form at `pos`.
#[verifier::rlimit(100)]
fn dec_exec_response_form_job_started(buf: &[u8], cnt: u64, pos: usize) -> (r: Option<(ExecResponse, usize)>)
    requires
        pos <= buf@.len(),
    ensures
        ({
            let s = buf@.skip(pos as int);
            match spec_dec_exec_response_form_job_started(cnt, s) {
                Some((v, rem)) => r matches Some((ov, end)) && ov@ == v && pos <= end
                    <= buf@.len() && buf@.skip(end as int) == rem,
                None => r is None,
            }
        }),
{
    reveal(spec_dec_exec_response_form_job_started);
    if cnt != 3 {
        return None;
    }
    let Some(q0) = dec_key(buf, pos, "job_id") else { return None };
    let Some((job_id, q1)) = dec_text(buf, q0) else { return None };
    let Some(q2) = dec_key(buf, q1, "pid") else { return None };
    let Some((pid, q3)) = dec_opt_u32(buf, q2) else { return None };
    Some((ExecResponse::JobStarted { job_id: JobId(job_id), pid }, q3))
}

/// Reads the fields of the job_status form at `pos`.
#[verifier::rlimit(100)]
fn dec_exec_response_form_job_status(buf: &[u8], cnt: u64, pos: usize) -> (r: Option<(ExecResponse, usize)>)
    requires
        pos <= buf@.len(),
    ensures
        ({
            let s = buf@.skip(pos as int);
            match spec_dec_exec_response_form_job_status(cnt, s) {
                Some((v, rem)) => r matches Some((ov, end)) && ov@ == v && pos <= end
                    <= buf@.len() && buf@.skip(end as int) == rem,
                None => r is None,
            }
        }),
{
    reveal(spec_dec_exec_response_form_job_status);
    if cnt != 5 {
        return None;
    }
    let Some(q0) = dec_key(buf, pos, "job_id") else { return None };
    let Some((job_id, q1)) = dec_text(buf, q0) else { return None };
    let Some(q2) = dec_key(buf, q1, "status") else { return None };
    let Some((status, q3)) = dec_exit_status(buf, q2) else { return None };
    let Some(q4) = dec_key(buf, q3, "finished_at_ms") else { return None };
    let Some((finished_at_ms, q5)) = dec_opt_u64(buf, q4) else { return None };
    let Some(q6) = dec_key(buf, q5, "termination_reason") else { return None };
    let Some((termination_reason, q7)) = dec_opt_term_reason(buf, q6) else { return None };
    Some((ExecResponse::JobStatus { job_id: JobId(job_id), status, finished_at_ms, termination_reason }, q7))
}

/// Reads the fields of the pty_opened form at `pos`.
#[verifier::rlimit(100)]
fn dec_exec_response_form_pty_opened(buf: &[u8], cnt: u64, pos: usize) -> (r: Option<(ExecResponse, usize)>)
    requires
        pos <= buf@.len(),
    ensures
        ({
            let s = buf@.skip(pos as int);
            match spec_dec_exec_response_form_pty_opened(cnt, s) {
                Some((v, rem)) => r matches Some((ov, end)) && ov@ == v && pos <= end
                    <= buf@.len() && buf@.skip(end as int) == rem,
                None => r is None,
            }
        }),
{
    reveal(spec_dec_exec_response_form_pty_opened);
    if cnt != 3 {
        return None;
    }
    let Some(q0) = dec_key(buf, pos, "session_id") else { return None };
    let Some((session_id, q1)) = dec_u64(buf, q0) else { return None };
    let Some(q2) = dec_key(buf, q1, "pid") else { return None };
    let Some((pid, q3)) = dec_opt_u32(buf, q2) else { return None };
    Some((ExecResponse::PtyOpened { session_id: SessionId(session_id), pid }, q3))
}

/// Reads the fields of the pty_chunk form at `pos`.
#[verifier::rlimit(100)]
fn dec_exec_response_form_pty_chunk(buf: &[u8], cnt: u64, pos: usize) -> (r: Option<(ExecResponse, usize)>)
    requires
        pos <= buf@.len(),
    ensures
        ({
            let s = buf@.skip(pos as int);
            match spec_dec_exec_response_form_pty_chunk(cnt, s) {
                Some((v, rem)) => r matches Some((ov, end)) && ov@ == v && pos <= end
                    <= buf@.len() && buf@.skip(end as int) == rem,
                None => r is None,
            }
        }),
{
    reveal(spec_dec_exec_response_form_pty_chunk);
    if cnt != 7 {
        return None;
    }
    let Some(q0) = dec_key(buf, pos, "session_id") else { return None };
    let Some((session_id, q1)) = dec_u64(buf, q0) else { return None };
    let Some(q2) = dec_key(buf, q1, "offset") else { return None };
    let Some((offset, q3)) = dec_u64(buf, q2) else { return None };
    let Some(q4) = dec_key(buf, q3, "data") else { return None };
    let Some((data, q5)) = dec_data(buf, q4) else { return None };
    let Some(q6) = dec_key(buf, q5, "eof") else { return None };
    let Some((eof, q7)) = dec_bool(buf, q6) else { return None };
    let Some(q8) = dec_key(buf, q7, "complete") else { return None };
    let Some((complete, q9)) = dec_bool(buf, q8) else { return None };
    let Some(q10) = dec_key(buf, q9, "exit_code") else { return None };
    let Some((exit_code, q11)) = dec_opt_i32(buf, q10) else { return None };
    Some((ExecResponse::PtyChunk { session_id: SessionId(session_id), offset, data, eof, complete, exit_code }, q11))
}

/// Reads the fields of the pty_ack form at `pos`.
#[verifier::rlimit(100)]
fn dec_exec_response_form_pty_ack(buf: &[u8], cnt: u64, pos: usize) -> (r: Option<(ExecResponse, usize)>)
    requires
        pos <= buf@.len(),
    ensures
        ({
            let s = buf@.skip(pos as int);
            match spec_dec_exec_response_form_pty_ack(cnt, s) {
                Some((v, rem)) => r matches Some((ov, end)) && ov@ == v && pos <= end
                    <= buf@.len() && buf@.skip(end as int) == rem,
                None => r is None,
            }
        }),
{
    reveal(spec_dec_exec_response_form_pty_ack);
    if cnt != 3 {
        return None;
    }
    let Some(q0) = dec_key(buf, pos, "session_id") else { return None };
    let Some((session_id, q1)) = dec_u64(buf, q0) else { return None };
    let Some(q2) = dec_key(buf, q1, "action") else { return None };
    let Some((action, q3)) = dec_exec_pty_action(buf, q2) else { return None };
    Some((ExecResponse::PtyAck { session_id: SessionId(session_id), action }, q3))
}

/// Reads the fields of the usage_sample form at `pos`.
#[verifier::rlimit(100)]
fn dec_exec_response_form_usage_sample(buf: &[u8], cnt: u64, pos: usize) -> (r: Option<(ExecResponse, usize)>)
    requires
        pos <= buf@.len(),
    ensures
        ({
            let s = buf@.skip(pos as int);
            match spec_dec_exec_response_form_usage_sample(cnt, s) {
                Some((v, rem)) => r matches Some((ov, end)) && ov@ == v && pos <= end
                    <= buf@.len() && buf@.skip(end as int) == rem,
                None => r is None,
            }
        }),
{
    reveal(spec_dec_exec_response_form_usage_sample);
    if cnt != 5 {
        return None;
    }
    let Some(q0) = dec_key(buf, pos, "job_id") else { return None };
    let Some((job_id, q1)) = dec_text(buf, q0) else { return None };
    let Some(q2) = dec_key(buf, q1, "rss_bytes") else { return None };
    let Some((rss_bytes, q3)) = dec_opt_u64(buf, q2) else { return None };
    let Some(q4) = dec_key(buf, q3, "cpu_nanos") else { return None };
    let Some((cpu_nanos, q5)) = dec_opt_u64(buf, q4) else { return None };
    let Some(q6) = dec_key(buf, q5, "timestamp_ms") else { return None };
    let Some((timestamp_ms, q7)) = dec_u64(buf, q6) else { return None };
    Some((ExecResponse::UsageSample { job_id: JobId(job_id), rss_bytes, cpu_nanos, timestamp_ms }, q7))
}

/// Reads the fields of the exec_error form at `pos`.
#[verifier::rlimit(100)]
fn dec_exec_response_form_exec_error(buf: &[u8], cnt: u64, pos: usize) -> (r: Option<(ExecResponse, usize)>)
    requires
        pos <= buf@.len(),
    ensures
        ({
            let s = buf@.skip(pos as int);
            match spec_dec_exec_response_form_exec_error(cnt, s) {
                Some((v, rem)) => r matches Some((ov, end)) && ov@ == v && pos <= end
                    <= buf@.len() && buf@.skip(end as int) == rem,
                None => r is None,
            }
        }),
{
    reveal(spec_dec_exec_response_form_exec_error);
    if cnt != 4 {
        return None;
    }
    let Some(q0) = dec_key(buf, pos, "code") else { return None };
    let Some((code, q1)) = dec_exec_error_code(buf, q0) else { return None };
    let Some(q2) = dec_key(buf, q1, "message") else { return None };
    let Some((message, q3)) = dec_text(buf, q2) else { return None };
    let Some(q4) = dec_key(buf, q3, "detail") else { return None };
    let Some((detail, q5)) = dec_opt_text(buf, q4) else { return None };
    Some((ExecResponse::ExecError { code, message, detail }, q5))
}

/// Reads a exec_response body at `pos`.
#[verifier::rlimit(100)]
pub fn dec_exec_response(buf: &[u8], pos: usize) -> (r: Option<(ExecResponse, usize)>)
    requires
        pos <= buf@.len(),
    ensures
        ({
            let s = buf@.skip(pos as int);
            match spec_dec_exec_response(s) {
                Some((v, rem)) => r matches Some((ov, end)) && ov@ == v && pos <= end
                    <= buf@.len() && buf@.skip(end as int) == rem,
                None => r is None,
            }
        }),
{
    let Some((cnt, p0)) = dec_map_head(buf, pos) else { return None };
    let Some(p1) = dec_key(buf, p0, "type") else { return None };
    let Some((ts, te)) = dec_segment(buf, p1, MAJOR_TEXT) else { return None };
    if seg_is(buf, ts, te, "hello_ack") {
        dec_exec_response_form_hello_ack(buf, cnt, te)
    } else if seg_is(buf, ts, te, "pong") {
        dec_exec_response_form_pong(buf, cnt, te)
    } else if seg_is(buf, ts, te, "job_started") {
        dec_exec_response_form_job_started(buf, cnt, te)
    } else if seg_is(buf, ts, te, "job_status") {
        dec_exec_response_form_job_status(buf, cnt, te)
    } else if seg_is(buf, ts, te, "pty_opened") {
        dec_exec_response_form_pty_opened(buf, cnt, te)
    } else if seg_is(buf, ts, te, "pty_chunk") {
        dec_exec_response_form_pty_chunk(buf, cnt, te)
    } else if seg_is(buf, ts, te, "pty_ack") {
        dec_exec_response_form_pty_ack(buf, cnt, te)
    } else if seg_is(buf, ts, te, "usage_sample") {
        dec_exec_response_form_usage_sample(buf, cnt, te)
    } else if seg_is(buf, ts, te, "exec_error") {
        dec_exec_response_form_exec_error(buf, cnt, te)
    } else {
        None
    }
}

/// A exec_response envelope model whose body fits wire lengths.
pub open spec fn exec_response_envelope_fits(m: ExecEnvelopeV<ExecResponseV>) -> bool {
    exec_response_fits(m.body)
}

/// Encoded exec_response envelope.
pub open spec fn spec_enc_exec_response_envelope(m: ExecEnvelopeV<ExecResponseV>) -> Seq<u8> {
    spec_enc_uint(MAJOR_MAP, 2) + spec_enc_text("req_id"@) + spec_enc_u64(m.req_id)
        + spec_enc_text("body"@) + spec_enc_exec_response(m.body)
}

/// Parses a exec_response envelope.
pub open spec fn spec_dec_exec_response_envelope(b: Seq<u8>) -> Option<(ExecEnvelopeV<ExecResponseV>, Seq<u8>)> {
    match spec_dec_head(b) {
        Some((m, cnt, r0)) => {
            if m != MAJOR_MAP || cnt != 2 {
                None
            } else {
                match spec_dec_key(r0, "req_id"@) {
                    Some(r1) => {
                        match spec_dec_u64(r1) {
                            Some((req_id, r2)) => {
                                match spec_dec_key(r2, "body"@) {
                                    Some(r3) => {
                                        match spec_dec_exec_response(r3) {
                                            Some((body, r4)) => Some(
                                                (ExecEnvelopeV { req_id, body }, r4),
                                            ),
                                            None => None,
                                        }
                                    },
                                    None => None,
                                }
                            },
                            None => None,
                        }
                    },
                    None => None,
                }
            }
        },
        None => None,
    }
}

/// Parses a complete exec_response envelope frame, rejecting trailing bytes.
pub open spec fn spec_decode_exec_response(b: Seq<u8>) -> Option<ExecEnvelopeV<ExecResponseV>> {
    match spec_dec_exec_response_envelope(b) {
        Some((m, rem)) => {
            if rem.len() == 0 {
                Some(m)
            } else {
                None
            }
        },
        None => None,
    }
}

/// Decoding a exec_response envelope inverts encoding one.
pub proof fn lemma_dec_exec_response_envelope_enc(m: ExecEnvelopeV<ExecResponseV>, rest: Seq<u8>)
    requires
        exec_response_envelope_fits(m),
    ensures
        spec_dec_exec_response_envelope(spec_enc_exec_response_envelope(m) + rest) == Some((m, rest)),
{
    reveal_strlit("req_id");
    reveal_strlit("body");
    assert("req_id"@.len() == 6);
    assert("body"@.len() == 4);
    lemma_short_text_fits("req_id"@);
    lemma_short_text_fits("body"@);
    let h = spec_enc_uint(MAJOR_MAP, 2);
    let k1 = spec_enc_text("req_id"@);
    let v1 = spec_enc_u64(m.req_id);
    let k2 = spec_enc_text("body"@);
    let v2 = spec_enc_exec_response(m.body);
    lemma_concat_assoc(h + k1 + v1 + k2, v2, rest);
    lemma_concat_assoc(h + k1 + v1, k2, (v2 + rest));
    lemma_concat_assoc(h + k1, v1, (k2 + (v2 + rest)));
    lemma_concat_assoc(h, k1, (v1 + (k2 + (v2 + rest))));
    lemma_dec_head_enc(MAJOR_MAP, 2, (k1 + (v1 + (k2 + (v2 + rest)))));
    lemma_dec_key_enc("req_id"@, (v1 + (k2 + (v2 + rest))));
    lemma_dec_u64_enc(m.req_id, (k2 + (v2 + rest)));
    lemma_dec_key_enc("body"@, (v2 + rest));
    lemma_dec_exec_response_enc(m.body, rest);
}

/// A well-formed exec_response envelope decodes back to itself.
///
/// For every envelope whose strings fit wire lengths, decoding the
/// encoded frame yields the original envelope exactly.
pub proof fn lemma_exec_response_roundtrip(m: ExecEnvelopeV<ExecResponseV>)
    requires
        exec_response_envelope_fits(m),
    ensures
        spec_decode_exec_response(spec_enc_exec_response_envelope(m)) == Some(m),
{
    lemma_dec_exec_response_envelope_enc(m, Seq::empty());
    assert(spec_enc_exec_response_envelope(m) + Seq::<u8>::empty() =~= spec_enc_exec_response_envelope(m));
}

/// Encodes a exec_response envelope into a fresh frame payload.
pub fn encode_exec_response(v: &ExecResponseEnvelope) -> (r: Vec<u8>)
    ensures
        r@ == spec_enc_exec_response_envelope(v@),
{
    let mut out: Vec<u8> = Vec::new();
    enc_uint(&mut out, MAJOR_MAP, 2);
    enc_text(&mut out, "req_id");
    enc_u64(&mut out, v.req_id);
    enc_text(&mut out, "body");
    enc_exec_response(&mut out, &v.body);
    proof {
        let o = Seq::<u8>::empty();
        let h = spec_enc_uint(MAJOR_MAP, 2);
        let k1 = spec_enc_text("req_id"@);
        let v1 = spec_enc_u64(v@.req_id);
        let k2 = spec_enc_text("body"@);
        let v2 = spec_enc_exec_response(v@.body);
        lemma_concat_assoc(o, h, k1);
        lemma_concat_assoc(o, h + k1, v1);
        lemma_concat_assoc(o, h + k1 + v1, k2);
        lemma_concat_assoc(o, h + k1 + v1 + k2, v2);
        assert(o + (h + k1 + v1 + k2 + v2) =~= h + k1 + v1 + k2 + v2);
    }
    out
}

/// Decodes a complete exec_response envelope frame.
pub fn decode_exec_response(buf: &[u8]) -> (r: Option<ExecResponseEnvelope>)
    ensures
        match spec_decode_exec_response(buf@) {
            Some(m) => r matches Some(v) && v@ == m,
            None => r is None,
        },
{
    let ghost s0 = buf@.skip(0);
    proof {
        assert(buf@.skip(0) =~= buf@);
    }
    let Some((cnt, p0)) = dec_map_head(buf, 0) else { return None };
    if cnt != 2 {
        return None;
    }
    let Some(p1) = dec_key(buf, p0, "req_id") else { return None };
    let Some((req_id, p2)) = dec_u64(buf, p1) else { return None };
    let Some(p3) = dec_key(buf, p2, "body") else { return None };
    let Some((body, p4)) = dec_exec_response(buf, p3) else { return None };
    if p4 != buf.len() {
        proof {
            assert(buf@.skip(p4 as int).len() != 0);
        }
        return None;
    }
    proof {
        assert(buf@.skip(p4 as int).len() == 0);
    }
    Some(ExecResponseEnvelope { req_id, body })
}

} // verus!
