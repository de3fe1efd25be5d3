//! Wire codec of worker request bodies and their envelopes.

use vstd::prelude::*;
use vstd::utf8::encode_utf8;
use crate::cbor::{
    dec_bool, dec_key, dec_map_head, dec_segment, dec_text, dec_u16, dec_u32, dec_u64, enc_bool,
    enc_text, enc_u64, enc_uint, lemma_dec_bool_enc, lemma_dec_bytes_enc, lemma_dec_head_enc,
    lemma_dec_key_enc, lemma_dec_segment_enc_text, lemma_dec_text_enc, lemma_dec_u16_enc,
    lemma_dec_u32_enc, lemma_dec_u64_enc, seg_is, spec_dec_bool, spec_dec_bytes, spec_dec_head,
    spec_dec_key, spec_dec_segment, spec_dec_text, spec_dec_u16, spec_dec_u32, spec_dec_u64,
    spec_enc_bool, spec_enc_bytes, spec_enc_text, spec_enc_u64, spec_enc_uint, MAJOR_MAP,
    MAJOR_TEXT,
};
use crate::codec_basic::{
    dec_opt_text, enc_opt_text, lemma_dec_opt_text_enc, lemma_short_text_fits, spec_dec_opt_text,
    spec_enc_opt_text, text_fits,
};
use crate::codec_seq::{
    dec_data, dec_env, dec_texts, enc_data, enc_env, enc_texts, env_fits, lemma_dec_env_enc,
    lemma_dec_texts_enc, spec_dec_env, spec_dec_texts, spec_enc_env, spec_enc_texts, texts_fit,
};
use crate::codec_structs::{
    cmd_fits, dec_cmd, enc_cmd, lemma_dec_cmd_enc, spec_dec_cmd, spec_enc_cmd,
};
use crate::exec_proto::{ExecEnvelopeV, ExecRequest, ExecRequestEnvelope, ExecRequestV};
use crate::ids::{JobId, SessionId};
use crate::textutil::{lemma_concat_assoc, lemma_utf8_ne};

verus! {

/// Character-level facts about the exec_request tags.
proof fn lemma_exec_request_tags()
    ensures
        "hello"@.len() == 5,
        "ping"@.len() == 4,
        "run_job"@.len() == 7,
        "job_status"@.len() == 10,
        "job_signal"@.len() == 10,
        "pty_open"@.len() == 8,
        "pty_input"@.len() == 9,
        "pty_read"@.len() == 8,
        "pty_resize"@.len() == 10,
        "pty_close"@.len() == 9,
        "usage_probe"@.len() == 11,
        "shutdown"@.len() == 8,
        text_fits("hello"@),
        text_fits("ping"@),
        text_fits("run_job"@),
        text_fits("job_status"@),
        text_fits("job_signal"@),
        text_fits("pty_open"@),
        text_fits("pty_input"@),
        text_fits("pty_read"@),
        text_fits("pty_resize"@),
        text_fits("pty_close"@),
        text_fits("usage_probe"@),
        text_fits("shutdown"@),
        "hello"@ != "ping"@,
        "hello"@ != "run_job"@,
        "hello"@ != "job_status"@,
        "hello"@ != "job_signal"@,
        "hello"@ != "pty_open"@,
        "hello"@ != "pty_input"@,
        "hello"@ != "pty_read"@,
        "hello"@ != "pty_resize"@,
        "hello"@ != "pty_close"@,
        "hello"@ != "usage_probe"@,
        "hello"@ != "shutdown"@,
        "ping"@ != "run_job"@,
        "ping"@ != "job_status"@,
        "ping"@ != "job_signal"@,
        "ping"@ != "pty_open"@,
        "ping"@ != "pty_input"@,
        "ping"@ != "pty_read"@,
        "ping"@ != "pty_resize"@,
        "ping"@ != "pty_close"@,
        "ping"@ != "usage_probe"@,
        "ping"@ != "shutdown"@,
        "run_job"@ != "job_status"@,
        "run_job"@ != "job_signal"@,
        "run_job"@ != "pty_open"@,
        "run_job"@ != "pty_input"@,
        "run_job"@ != "pty_read"@,
        "run_job"@ != "pty_resize"@,
        "run_job"@ != "pty_close"@,
        "run_job"@ != "usage_probe"@,
        "run_job"@ != "shutdown"@,
        "job_status"@ != "job_signal"@,
        "job_status"@ != "pty_open"@,
        "job_status"@ != "pty_input"@,
        "job_status"@ != "pty_read"@,
        "job_status"@ != "pty_resize"@,
        "job_status"@ != "pty_close"@,
        "job_status"@ != "usage_probe"@,
        "job_status"@ != "shutdown"@,
        "job_signal"@ != "pty_open"@,
        "job_signal"@ != "pty_input"@,
        "job_signal"@ != "pty_read"@,
        "job_signal"@ != "pty_resize"@,
        "job_signal"@ != "pty_close"@,
        "job_signal"@ != "usage_probe"@,
        "job_signal"@ != "shutdown"@,
        "pty_open"@ != "pty_input"@,
        "pty_open"@ != "pty_read"@,
        "pty_open"@ != "pty_resize"@,
        "pty_open"@ != "pty_close"@,
        "pty_open"@ != "usage_probe"@,
        "pty_open"@ != "shutdown"@,
        "pty_input"@ != "pty_read"@,
        "pty_input"@ != "pty_resize"@,
        "pty_input"@ != "pty_close"@,
        "pty_input"@ != "usage_probe"@,
        "pty_input"@ != "shutdown"@,
        "pty_read"@ != "pty_resize"@,
        "pty_read"@ != "pty_close"@,
        "pty_read"@ != "usage_probe"@,
        "pty_read"@ != "shutdown"@,
        "pty_resize"@ != "pty_close"@,
        "pty_resize"@ != "usage_probe"@,
        "pty_resize"@ != "shutdown"@,
        "pty_close"@ != "usage_probe"@,
        "pty_close"@ != "shutdown"@,
        "usage_probe"@ != "shutdown"@,
{
    reveal_strlit("hello");
    reveal_strlit("ping");
    reveal_strlit("run_job");
    reveal_strlit("job_status");
    reveal_strlit("job_signal");
    reveal_strlit("pty_open");
    reveal_strlit("pty_input");
    reveal_strlit("pty_read");
    reveal_strlit("pty_resize");
    reveal_strlit("pty_close");
    reveal_strlit("usage_probe");
    reveal_strlit("shutdown");
    assert("hello"@.len() == 5);
    assert("ping"@.len() == 4);
    assert("run_job"@.len() == 7);
    assert("job_status"@.len() == 10);
    assert("job_signal"@.len() == 10);
    assert("pty_open"@.len() == 8);
    assert("pty_input"@.len() == 9);
    assert("pty_read"@.len() == 8);
    assert("pty_resize"@.len() == 10);
    assert("pty_close"@.len() == 9);
    assert("usage_probe"@.len() == 11);
    assert("shutdown"@.len() == 8);
    assert("job_status"@[5] == 't');
    assert("job_signal"@[5] == 'i');
    assert("job_status"@[0] == 'j');
    assert("pty_resize"@[0] == 'p');
    assert("job_signal"@[0] == 'j');
    assert("pty_open"@[4] == 'o');
    assert("pty_read"@[4] == 'r');
    assert("pty_open"@[0] == 'p');
    assert("shutdown"@[0] == 's');
    assert("pty_input"@[4] == 'i');
    assert("pty_close"@[4] == 'c');
    assert("pty_read"@[0] == 'p');
    lemma_short_text_fits("hello"@);
    lemma_short_text_fits("ping"@);
    lemma_short_text_fits("run_job"@);
    lemma_short_text_fits("job_status"@);
    lemma_short_text_fits("job_signal"@);
    lemma_short_text_fits("pty_open"@);
    lemma_short_text_fits("pty_input"@);
    lemma_short_text_fits("pty_read"@);
    lemma_short_text_fits("pty_resize"@);
    lemma_short_text_fits("pty_close"@);
    lemma_short_text_fits("usage_probe"@);
    lemma_short_text_fits("shutdown"@);
}

/// The exec_request field keys fit wire lengths.
proof fn lemma_exec_request_keys()
    ensures
        text_fits("type"@),
        text_fits("protocol"@),
        text_fits("auth_token"@),
        text_fits("cell_id"@),
        text_fits("job_id"@),
        text_fits("cmd"@),
        text_fits("env"@),
        text_fits("stdout_path"@),
        text_fits("stderr_path"@),
        text_fits("force"@),
        text_fits("shell"@),
        text_fits("args"@),
        text_fits("cwd"@),
        text_fits("cols"@),
        text_fits("rows"@),
        text_fits("session_id"@),
        text_fits("data"@),
        text_fits("offset"@),
        text_fits("max_bytes"@),
        text_fits("follow"@),
        text_fits("wait_ms"@),
{
    reveal_strlit("type");
    reveal_strlit("protocol");
    reveal_strlit("auth_token");
    reveal_strlit("cell_id");
    reveal_strlit("job_id");
    reveal_strlit("cmd");
    reveal_strlit("env");
    reveal_strlit("stdout_path");
    reveal_strlit("stderr_path");
    reveal_strlit("force");
    reveal_strlit("shell");
    reveal_strlit("args");
    reveal_strlit("cwd");
    reveal_strlit("cols");
    reveal_strlit("rows");
    reveal_strlit("session_id");
    reveal_strlit("data");
    reveal_strlit("offset");
    reveal_strlit("max_bytes");
    reveal_strlit("follow");
    reveal_strlit("wait_ms");
    assert("type"@.len() == 4);
    assert("protocol"@.len() == 8);
    assert("auth_token"@.len() == 10);
    assert("cell_id"@.len() == 7);
    assert("job_id"@.len() == 6);
    assert("cmd"@.len() == 3);
    assert("env"@.len() == 3);
    assert("stdout_path"@.len() == 11);
    assert("stderr_path"@.len() == 11);
    assert("force"@.len() == 5);
    assert("shell"@.len() == 5);
    assert("args"@.len() == 4);
    assert("cwd"@.len() == 3);
    assert("cols"@.len() == 4);
    assert("rows"@.len() == 4);
    assert("session_id"@.len() == 10);
    assert("data"@.len() == 4);
    assert("offset"@.len() == 6);
    assert("max_bytes"@.len() == 9);
    assert("follow"@.len() == 6);
    assert("wait_ms"@.len() == 7);
    lemma_short_text_fits("type"@);
    lemma_short_text_fits("protocol"@);
    lemma_short_text_fits("auth_token"@);
    lemma_short_text_fits("cell_id"@);
    lemma_short_text_fits("job_id"@);
    lemma_short_text_fits("cmd"@);
    lemma_short_text_fits("env"@);
    lemma_short_text_fits("stdout_path"@);
    lemma_short_text_fits("stderr_path"@);
    lemma_short_text_fits("force"@);
    lemma_short_text_fits("shell"@);
    lemma_short_text_fits("args"@);
    lemma_short_text_fits("cwd"@);
    lemma_short_text_fits("cols"@);
    lemma_short_text_fits("rows"@);
    lemma_short_text_fits("session_id"@);
    lemma_short_text_fits("data"@);
    lemma_short_text_fits("offset"@);
    lemma_short_text_fits("max_bytes"@);
    lemma_short_text_fits("follow"@);
    lemma_short_text_fits("wait_ms"@);
}

/// A exec_request model whose parts fit wire lengths.
pub open spec fn exec_request_fits(m: ExecRequestV) -> bool {
    match m {
        ExecRequestV::Hello { protocol, auth_token, cell_id } => text_fits(auth_token) && text_fits(cell_id),
        ExecRequestV::Ping => true,
        ExecRequestV::RunJob { job_id, cmd, env, stdout_path, stderr_path } => text_fits(job_id) && cmd_fits(cmd) && env_fits(env) && env.len() <= u64::MAX && text_fits(stdout_path) && text_fits(stderr_path),
        ExecRequestV::JobStatus { job_id } => text_fits(job_id),
        ExecRequestV::JobSignal { job_id, force } => text_fits(job_id),
        ExecRequestV::PtyOpen { shell, args, cwd, env, cols, rows } => text_fits(shell) && texts_fit(args) && args.len() <= u64::MAX && (cwd matches Some(c) ==> text_fits(c)) && env_fits(env) && env.len() <= u64::MAX,
        ExecRequestV::PtyInput { session_id, data } => data.len() <= u64::MAX,
        ExecRequestV::PtyRead { session_id, offset, max_bytes, follow, wait_ms } => true,
        ExecRequestV::PtyResize { session_id, cols, rows } => true,
        ExecRequestV::PtyClose { session_id, force } => true,
        ExecRequestV::UsageProbe { job_id } => text_fits(job_id),
        ExecRequestV::Shutdown { force } => true,
    }
}

/// Encoded fields of the hello form.
#[verifier::opaque]
pub open spec fn spec_enc_exec_request_fields_hello(m: ExecRequestV) -> Seq<u8> {
    match m {
        ExecRequestV::Hello { protocol, auth_token, cell_id } => spec_enc_text("protocol"@) + spec_enc_u64(protocol as u64) + spec_enc_text("auth_token"@) + spec_enc_text(auth_token) + spec_enc_text("cell_id"@) + spec_enc_text(cell_id),
        _ => Seq::empty(),
    }
}

/// Encoded fields of the ping form.
#[verifier::opaque]
pub open spec fn spec_enc_exec_request_fields_ping(m: ExecRequestV) -> Seq<u8> {
    match m {
        ExecRequestV::Ping => Seq::empty(),
        _ => Seq::empty(),
    }
}

/// Encoded fields of the run_job form.
#[verifier::opaque]
pub open spec fn spec_enc_exec_request_fields_run_job(m: ExecRequestV) -> Seq<u8> {
    match m {
        ExecRequestV::RunJob { job_id, cmd, env, stdout_path, stderr_path } => spec_enc_text("job_id"@) + spec_enc_text(job_id) + spec_enc_text("cmd"@) + spec_enc_cmd(cmd) + spec_enc_text("env"@) + spec_enc_env(env) + spec_enc_text("stdout_path"@) + spec_enc_text(stdout_path) + spec_enc_text("stderr_path"@) + spec_enc_text(stderr_path),
        _ => Seq::empty(),
    }
}

/// Encoded fields of the job_status form.
#[verifier::opaque]
pub open spec fn spec_enc_exec_request_fields_job_status(m: ExecRequestV) -> Seq<u8> {
    match m {
        ExecRequestV::JobStatus { job_id } => spec_enc_text("job_id"@) + spec_enc_text(job_id),
        _ => Seq::empty(),
    }
}

/// Encoded fields of the job_signal form.
#[verifier::opaque]
pub open spec fn spec_enc_exec_request_fields_job_signal(m: ExecRequestV) -> Seq<u8> {
    match m {
        ExecRequestV::JobSignal { job_id, force } => spec_enc_text("job_id"@) + spec_enc_text(job_id) + spec_enc_text("force"@) + spec_enc_bool(force),
        _ => Seq::empty(),
    }
}

/// Encoded fields of the pty_open form.
#[verifier::opaque]
pub open spec fn spec_enc_exec_request_fields_pty_open(m: ExecRequestV) -> Seq<u8> {
    match m {
        ExecRequestV::PtyOpen { shell, args, cwd, env, cols, rows } => spec_enc_text("shell"@) + spec_enc_text(shell) + spec_enc_text("args"@) + spec_enc_texts(args) + spec_enc_text("cwd"@) + spec_enc_opt_text(cwd) + spec_enc_text("env"@) + spec_enc_env(env) + spec_enc_text("cols"@) + spec_enc_u64(cols as u64) + spec_enc_text("rows"@) + spec_enc_u64(rows as u64),
        _ => Seq::empty(),
    }
}

/// Encoded fields of the pty_input form.
#[verifier::opaque]
pub open spec fn spec_enc_exec_request_fields_pty_input(m: ExecRequestV) -> Seq<u8> {
    match m {
        ExecRequestV::PtyInput { session_id, data } => spec_enc_text("session_id"@) + spec_enc_u64(session_id) + spec_enc_text("data"@) + spec_enc_bytes(data),
        _ => Seq::empty(),
    }
}

/// Encoded fields of the pty_read form.
#[verifier::opaque]
pub open spec fn spec_enc_exec_request_fields_pty_read(m: ExecRequestV) -> Seq<u8> {
    match m {
        ExecRequestV::PtyRead { session_id, offset, max_bytes, follow, wait_ms } => spec_enc_text("session_id"@) + spec_enc_u64(session_id) + spec_enc_text("offset"@) + spec_enc_u64(offset) + spec_enc_text("max_bytes"@) + spec_enc_u64(max_bytes as u64) + spec_enc_text("follow"@) + spec_enc_bool(follow) + spec_enc_text("wait_ms"@) + spec_enc_u64(wait_ms),
        _ => Seq::empty(),
    }
}

/// Encoded fields of the pty_resize form.
#[verifier::opaque]
pub open spec fn spec_enc_exec_request_fields_pty_resize(m: ExecRequestV) -> Seq<u8> {
    match m {
        ExecRequestV::PtyResize { session_id, cols, rows } => spec_enc_text("session_id"@) + spec_enc_u64(session_id) + spec_enc_text("cols"@) + spec_enc_u64(cols as u64) + spec_enc_text("rows"@) + spec_enc_u64(rows as u64),
        _ => Seq::empty(),
    }
}

/// Encoded fields of the pty_close form.
#[verifier::opaque]
pub open spec fn spec_enc_exec_request_fields_pty_close(m: ExecRequestV) -> Seq<u8> {
    match m {
        ExecRequestV::PtyClose { session_id, force } => spec_enc_text("session_id"@) + spec_enc_u64(session_id) + spec_enc_text("force"@) + spec_enc_bool(force),
        _ => Seq::empty(),
    }
}

/// Encoded fields of the usage_probe form.
#[verifier::opaque]
pub open spec fn spec_enc_exec_request_fields_usage_probe(m: ExecRequestV) -> Seq<u8> {
    match m {
        ExecRequestV::UsageProbe { job_id } => spec_enc_text("job_id"@) + spec_enc_text(job_id),
        _ => Seq::empty(),
    }
}

/// Encoded fields of the shutdown form.
#[verifier::opaque]
pub open spec fn spec_enc_exec_request_fields_shutdown(m: ExecRequestV) -> Seq<u8> {
    match m {
        ExecRequestV::Shutdown { force } => spec_enc_text("force"@) + spec_enc_bool(force),
        _ => Seq::empty(),
    }
}

/// Encoded exec_request body.
pub open spec fn spec_enc_exec_request(m: ExecRequestV) -> Seq<u8> {
    match m {
        ExecRequestV::Hello { .. } => spec_enc_uint(MAJOR_MAP, 4) + spec_enc_text("type"@) + spec_enc_text(
            "hello"@,
        ) + spec_enc_exec_request_fields_hello(m),
        ExecRequestV::Ping => spec_enc_uint(MAJOR_MAP, 1) + spec_enc_text("type"@) + spec_enc_text(
            "ping"@,
        ) + spec_enc_exec_request_fields_ping(m),
        ExecRequestV::RunJob { .. } => spec_enc_uint(MAJOR_MAP, 6) + spec_enc_text("type"@) + spec_enc_text(
            "run_job"@,
        ) + spec_enc_exec_request_fields_run_job(m),
        ExecRequestV::JobStatus { .. } => spec_enc_uint(MAJOR_MAP, 2) + spec_enc_text("type"@) + spec_enc_text(
            "job_status"@,
        ) + spec_enc_exec_request_fields_job_status(m),
        ExecRequestV::JobSignal { .. } => spec_enc_uint(MAJOR_MAP, 3) + spec_enc_text("type"@) + spec_enc_text(
            "job_signal"@,
        ) + spec_enc_exec_request_fields_job_signal(m),
        ExecRequestV::PtyOpen { .. } => spec_enc_uint(MAJOR_MAP, 7) + spec_enc_text("type"@) + spec_enc_text(
            "pty_open"@,
        ) + spec_enc_exec_request_fields_pty_open(m),
        ExecRequestV::PtyInput { .. } => spec_enc_uint(MAJOR_MAP, 3) + spec_enc_text("type"@) + spec_enc_text(
            "pty_input"@,
        ) + spec_enc_exec_request_fields_pty_input(m),
        ExecRequestV::PtyRead { .. } => spec_enc_uint(MAJOR_MAP, 6) + spec_enc_text("type"@) + spec_enc_text(
            "pty_read"@,
        ) + spec_enc_exec_request_fields_pty_read(m),
        ExecRequestV::PtyResize { .. } => spec_enc_uint(MAJOR_MAP, 4) + spec_enc_text("type"@) + spec_enc_text(
            "pty_resize"@,
        ) + spec_enc_exec_request_fields_pty_resize(m),
        ExecRequestV::PtyClose { .. } => spec_enc_uint(MAJOR_MAP, 3) + spec_enc_text("type"@) + spec_enc_text(
            "pty_close"@,
        ) + spec_enc_exec_request_fields_pty_close(m),
        ExecRequestV::UsageProbe { .. } => spec_enc_uint(MAJOR_MAP, 2) + spec_enc_text("type"@) + spec_enc_text(
            "usage_probe"@,
        ) + spec_enc_exec_request_fields_usage_probe(m),
        ExecRequestV::Shutdown { .. } => spec_enc_uint(MAJOR_MAP, 2) + spec_enc_text("type"@) + spec_enc_text(
            "shutdown"@,
        ) + spec_enc_exec_request_fields_shutdown(m),
    }
}

/// Parses a exec_request body.
pub open spec fn spec_dec_exec_request(b: Seq<u8>) -> Option<(ExecRequestV, Seq<u8>)> {
    match spec_dec_head(b) {
        Some((m, cnt, r0)) => {
            if m != MAJOR_MAP {
                None
            } else {
                match spec_dec_key(r0, "type"@) {
                    Some(r1) => {
                        match spec_dec_segment(r1, MAJOR_TEXT) {
                            Some((tag, r2)) => spec_dec_exec_request_body(tag, cnt, r2),
                            None => None,
                        }
                    },
                    None => None,
                }
            }
        },
        None => None,
    }
}

/// Parses the fields of the hello form.
#[verifier::opaque]
pub open spec fn spec_dec_exec_request_form_hello(cnt: u64, r: Seq<u8>) -> Option<(ExecRequestV, Seq<u8>)> {
    if cnt != 4 {
        None
    } else {
        match spec_dec_key(r, "protocol"@) {
            Some(k_protocol) => {
                match spec_dec_u32(k_protocol) {
                    Some((protocol, r_protocol)) => {
                        match spec_dec_key(r_protocol, "auth_token"@) {
                            Some(k_auth_token) => {
                                match spec_dec_text(k_auth_token) {
                                    Some((auth_token, r_auth_token)) => {
                                        match spec_dec_key(r_auth_token, "cell_id"@) {
                                            Some(k_cell_id) => {
                                                match spec_dec_text(k_cell_id) {
                                                    Some((cell_id, r_cell_id)) => {
                                                        Some((ExecRequestV::Hello { protocol, auth_token, cell_id }, r_cell_id))
                                                    },
                                                    None => None,
                                                }
                                            },
                                            None => None,
                                        }
                                    },
                                    None => None,
                                }
                            },
                            None => None,
                        }
                    },
                    None => None,
                }
            },
            None => None,
        }
    }
}

/// Parses the fields of the ping form.
#[verifier::opaque]
pub open spec fn spec_dec_exec_request_form_ping(cnt: u64, r: Seq<u8>) -> Option<(ExecRequestV, Seq<u8>)> {
    if cnt != 1 {
        None
    } else {
        Some((ExecRequestV::Ping, r))
    }
}

/// Parses the fields of the run_job form.
#[verifier::opaque]
pub open spec fn spec_dec_exec_request_form_run_job(cnt: u64, r: Seq<u8>) -> Option<(ExecRequestV, Seq<u8>)> {
    if cnt != 6 {
        None
    } else {
        match spec_dec_key(r, "job_id"@) {
            Some(k_job_id) => {
                match spec_dec_text(k_job_id) {
                    Some((job_id, r_job_id)) => {
                        match spec_dec_key(r_job_id, "cmd"@) {
                            Some(k_cmd) => {
                                match spec_dec_cmd(k_cmd) {
                                    Some((cmd, r_cmd)) => {
                                        match spec_dec_key(r_cmd, "env"@) {
                                            Some(k_env) => {
                                                match spec_dec_env(k_env) {
                                                    Some((env, r_env)) => {
                                                        match spec_dec_key(r_env, "stdout_path"@) {
                                                            Some(k_stdout_path) => {
                                                                match spec_dec_text(k_stdout_path) {
                                                                    Some((stdout_path, r_stdout_path)) => {
                                                                        match spec_dec_key(r_stdout_path, "stderr_path"@) {
                                                                            Some(k_stderr_path) => {
                                                                                match spec_dec_text(k_stderr_path) {
                                                                                    Some((stderr_path, r_stderr_path)) => {
                                                                                        Some((ExecRequestV::RunJob { job_id, cmd, env, stdout_path, stderr_path }, r_stderr_path))
                                                                                    },
                                                                                    None => None,
                                                                                }
                                                                            },
                                                                            None => None,
                                                                        }
                                                                    },
                                                                    None => None,
                                                                }
                                                            },
                                                            None => None,
                                                        }
                                                    },
                                                    None => None,
                                                }
                                            },
                                            None => None,
                                        }
                                    },
                                    None => None,
                                }
                            },
                            None => None,
                        }
                    },
                    None => None,
                }
            },
            None => None,
        }
    }
}

/// Parses the fields of the job_status form.
#[verifier::opaque]
pub open spec fn spec_dec_exec_request_form_job_status(cnt: u64, r: Seq<u8>) -> Option<(ExecRequestV, Seq<u8>)> {
    if cnt != 2 {
        None
    } else {
        match spec_dec_key(r, "job_id"@) {
            Some(k_job_id) => {
                match spec_dec_text(k_job_id) {
                    Some((job_id, r_job_id)) => {
                        Some((ExecRequestV::JobStatus { job_id }, r_job_id))
                    },
                    None => None,
                }
            },
            None => None,
        }
    }
}

/// Parses the fields of the job_signal form.
#[verifier::opaque]
pub open spec fn spec_dec_exec_request_form_job_signal(cnt: u64, r: Seq<u8>) -> Option<(ExecRequestV, Seq<u8>)> {
    if cnt != 3 {
        None
    } else {
        match spec_dec_key(r, "job_id"@) {
            Some(k_job_id) => {
                match spec_dec_text(k_job_id) {
                    Some((job_id, r_job_id)) => {
                        match spec_dec_key(r_job_id, "force"@) {
                            Some(k_force) => {
                                match spec_dec_bool(k_force) {
                                    Some((force, r_force)) => {
                                        Some((ExecRequestV::JobSignal { job_id, force }, r_force))
                                    },
                                    None => None,
                                }
                            },
                            None => None,
                        }
                    },
                    None => None,
                }
            },
            None => None,
        }
    }
}

/// Parses the fields of the pty_open form.
#[verifier::opaque]
pub open spec fn spec_dec_exec_request_form_pty_open(cnt: u64, r: Seq<u8>) -> Option<(ExecRequestV, Seq<u8>)> {
    if cnt != 7 {
        None
    } else {
        match spec_dec_key(r, "shell"@) {
            Some(k_shell) => {
                match spec_dec_text(k_shell) {
                    Some((shell, r_shell)) => {
                        match spec_dec_key(r_shell, "args"@) {
                            Some(k_args) => {
                                match spec_dec_texts(k_args) {
                                    Some((args, r_args)) => {
                                        match spec_dec_key(r_args, "cwd"@) {
                                            Some(k_cwd) => {
                                                match spec_dec_opt_text(k_cwd) {
                                                    Some((cwd, r_cwd)) => {
                                                        match spec_dec_key(r_cwd, "env"@) {
                                                            Some(k_env) => {
                                                                match spec_dec_env(k_env) {
                                                                    Some((env, r_env)) => {
                                                                        match spec_dec_key(r_env, "cols"@) {
                                                                            Some(k_cols) => {
                                                                                match spec_dec_u16(k_cols) {
                                                                                    Some((cols, r_cols)) => {
                                                                                        match spec_dec_key(r_cols, "rows"@) {
                                                                                            Some(k_rows) => {
                                                                                                match spec_dec_u16(k_rows) {
                                                                                                    Some((rows, r_rows)) => {
                                                                                                        Some((ExecRequestV::PtyOpen { shell, args, cwd, env, cols, rows }, r_rows))
                                                                                                    },
                                                                                                    None => None,
                                                                                                }
                                                                                            },
                                                                                            None => None,
                                                                                        }
                                                                                    },
                                                                                    None => None,
                                                                                }
                                                                            },
                                                                            None => None,
                                                                        }
                                                                    },
                                                                    None => None,
                                                                }
                                                            },
                                                            None => None,
                                                        }
                                                    },
                                                    None => None,
                                                }
                                            },
                                            None => None,
                                        }
                                    },
                                    None => None,
                                }
                            },
                            None => None,
                        }
                    },
                    None => None,
                }
            },
            None => None,
        }
    }
}

/// Parses the fields of the pty_input form.
#[verifier::opaque]
pub open spec fn spec_dec_exec_request_form_pty_input(cnt: u64, r: Seq<u8>) -> Option<(ExecRequestV, Seq<u8>)> {
    if cnt != 3 {
        None
    } else {
        match spec_dec_key(r, "session_id"@) {
            Some(k_session_id) => {
                match spec_dec_u64(k_session_id) {
                    Some((session_id, r_session_id)) => {
                        match spec_dec_key(r_session_id, "data"@) {
                            Some(k_data) => {
                                match spec_dec_bytes(k_data) {
                                    Some((data, r_data)) => {
                                        Some((ExecRequestV::PtyInput { session_id, data }, r_data))
                                    },
                                    None => None,
                                }
                            },
                            None => None,
                        }
                    },
                    None => None,
                }
            },
            None => None,
        }
    }
}

/// Parses the fields of the pty_read form.
#[verifier::opaque]
pub open spec fn spec_dec_exec_request_form_pty_read(cnt: u64, r: Seq<u8>) -> Option<(ExecRequestV, Seq<u8>)> {
    if cnt != 6 {
        None
    } else {
        match spec_dec_key(r, "session_id"@) {
            Some(k_session_id) => {
                match spec_dec_u64(k_session_id) {
                    Some((session_id, r_session_id)) => {
                        match spec_dec_key(r_session_id, "offset"@) {
                            Some(k_offset) => {
                                match spec_dec_u64(k_offset) {
                                    Some((offset, r_offset)) => {
                                        match spec_dec_key(r_offset, "max_bytes"@) {
                                            Some(k_max_bytes) => {
                                                match spec_dec_u32(k_max_bytes) {
                                                    Some((max_bytes, r_max_bytes)) => {
                                                        match spec_dec_key(r_max_bytes, "follow"@) {
                                                            Some(k_follow) => {
                                                                match spec_dec_bool(k_follow) {
                                                                    Some((follow, r_follow)) => {
                                                                        match spec_dec_key(r_follow, "wait_ms"@) {
                                                                            Some(k_wait_ms) => {
                                                                                match spec_dec_u64(k_wait_ms) {
                                                                                    Some((wait_ms, r_wait_ms)) => {
                                                                                        Some((ExecRequestV::PtyRead { session_id, offset, max_bytes, follow, wait_ms }, r_wait_ms))
                                                                                    },
                                                                                    None => None,
                                                                                }
                                                                            },
                                                                            None => None,
                                                                        }
                                                                    },
                                                                    None => None,
                                                                }
                                                            },
                                                            None => None,
                                                        }
                                                    },
                                                    None => None,
                                                }
                                            },
                                            None => None,
                                        }
                                    },
                                    None => None,
                                }
                            },
                            None => None,
                        }
                    },
                    None => None,
                }
            },
            None => None,
        }
    }
}

/// Parses the fields of the pty_resize form.
#[verifier::opaque]
pub open spec fn spec_dec_exec_request_form_pty_resize(cnt: u64, r: Seq<u8>) -> Option<(ExecRequestV, Seq<u8>)> {
    if cnt != 4 {
        None
    } else {
        match spec_dec_key(r, "session_id"@) {
            Some(k_session_id) => {
                match spec_dec_u64(k_session_id) {
                    Some((session_id, r_session_id)) => {
                        match spec_dec_key(r_session_id, "cols"@) {
                            Some(k_cols) => {
                                match spec_dec_u16(k_cols) {
                                    Some((cols, r_cols)) => {
                                        match spec_dec_key(r_cols, "rows"@) {
                                            Some(k_rows) => {
                                                match spec_dec_u16(k_rows) {
                                                    Some((rows, r_rows)) => {
                                                        Some((ExecRequestV::PtyResize { session_id, cols, rows }, r_rows))
                                                    },
                                                    None => None,
                                                }
                                            },
                                            None => None,
                                        }
                                    },
                                    None => None,
                                }
                            },
                            None => None,
                        }
                    },
                    None => None,
                }
            },
            None => None,
        }
    }
}

/// Parses the fields of the pty_close form.
#[verifier::opaque]
pub open spec fn spec_dec_exec_request_form_pty_close(cnt: u64, r: Seq<u8>) -> Option<(ExecRequestV, Seq<u8>)> {
    if cnt != 3 {
        None
    } else {
        match spec_dec_key(r, "session_id"@) {
            Some(k_session_id) => {
                match spec_dec_u64(k_session_id) {
                    Some((session_id, r_session_id)) => {
                        match spec_dec_key(r_session_id, "force"@) {
                            Some(k_force) => {
                                match spec_dec_bool(k_force) {
                                    Some((force, r_force)) => {
                                        Some((ExecRequestV::PtyClose { session_id, force }, r_force))
                                    },
                                    None => None,
                                }
                            },
                            None => None,
                        }
                    },
                    None => None,
                }
            },
            None => None,
        }
    }
}

/// Parses the fields of the usage_probe form.
#[verifier::opaque]
pub open spec fn spec_dec_exec_request_form_usage_probe(cnt: u64, r: Seq<u8>) -> Option<(ExecRequestV, Seq<u8>)> {
    if cnt != 2 {
        None
    } else {
        match spec_dec_key(r, "job_id"@) {
            Some(k_job_id) => {
                match spec_dec_text(k_job_id) {
                    Some((job_id, r_job_id)) => {
                        Some((ExecRequestV::UsageProbe { job_id }, r_job_id))
                    },
                    None => None,
                }
            },
            None => None,
        }
    }
}

/// Parses the fields of the shutdown form.
#[verifier::opaque]
pub open spec fn spec_dec_exec_request_form_shutdown(cnt: u64, r: Seq<u8>) -> Option<(ExecRequestV, Seq<u8>)> {
    if cnt != 2 {
        None
    } else {
        match spec_dec_key(r, "force"@) {
            Some(k_force) => {
                match spec_dec_bool(k_force) {
                    Some((force, r_force)) => {
                        Some((ExecRequestV::Shutdown { force }, r_force))
                    },
                    None => None,
                }
            },
            None => None,
        }
    }
}

/// Parses the fields of a exec_request body once its tag is known.
pub open spec fn spec_dec_exec_request_body(tag: Seq<u8>, cnt: u64, r: Seq<u8>) -> Option<(ExecRequestV, Seq<u8>)> {
    if tag == encode_utf8("hello"@) {
        spec_dec_exec_request_form_hello(cnt, r)
    } else if tag == encode_utf8("ping"@) {
        spec_dec_exec_request_form_ping(cnt, r)
    } else if tag == encode_utf8("run_job"@) {
        spec_dec_exec_request_form_run_job(cnt, r)
    } else if tag == encode_utf8("job_status"@) {
        spec_dec_exec_request_form_job_status(cnt, r)
    } else if tag == encode_utf8("job_signal"@) {
        spec_dec_exec_request_form_job_signal(cnt, r)
    } else if tag == encode_utf8("pty_open"@) {
        spec_dec_exec_request_form_pty_open(cnt, r)
    } else if tag == encode_utf8("pty_input"@) {
        spec_dec_exec_request_form_pty_input(cnt, r)
    } else if tag == encode_utf8("pty_read"@) {
        spec_dec_exec_request_form_pty_read(cnt, r)
    } else if tag == encode_utf8("pty_resize"@) {
        spec_dec_exec_request_form_pty_resize(cnt, r)
    } else if tag == encode_utf8("pty_close"@) {
        spec_dec_exec_request_form_pty_close(cnt, r)
    } else if tag == encode_utf8("usage_probe"@) {
        spec_dec_exec_request_form_usage_probe(cnt, r)
    } else if tag == encode_utf8("shutdown"@) {
        spec_dec_exec_request_form_shutdown(cnt, r)
    } else {
        None
    }
}

/// Parsing an encoded tagged body reaches the tag dispatch.
proof fn lemma_dec_exec_request_dispatch(tagseq: Seq<char>, cnt: u64, fields: Seq<u8>, rest: Seq<u8>)
    requires
        text_fits(tagseq),
    ensures
        spec_dec_exec_request(
            spec_enc_uint(MAJOR_MAP, cnt) + spec_enc_text("type"@) + spec_enc_text(tagseq)
                + fields + rest,
        ) == spec_dec_exec_request_body(encode_utf8(tagseq), cnt, fields + rest),
{
    reveal_strlit("type");
    assert("type"@.len() == 4);
    lemma_short_text_fits("type"@);
    let h = spec_enc_uint(MAJOR_MAP, cnt);
    let tk = spec_enc_text("type"@);
    let tv = spec_enc_text(tagseq);
    lemma_concat_assoc(h + tk + tv, fields, rest);
    lemma_concat_assoc(h + tk, tv, fields + rest);
    lemma_concat_assoc(h, tk, tv + (fields + rest));
    lemma_dec_head_enc(MAJOR_MAP, cnt, tk + (tv + (fields + rest)));
    lemma_dec_key_enc("type"@, tv + (fields + rest));
    lemma_dec_segment_enc_text(tagseq, fields + rest);
}

/// Decoding inverts encoding for the fields of the hello form.
#[verifier::rlimit(100)]
proof fn lemma_dec_exec_request_form_hello(m: ExecRequestV, rest: Seq<u8>)
    requires
        m is Hello,
        exec_request_fits(m),
    ensures
        spec_dec_exec_request_form_hello(4, spec_enc_exec_request_fields_hello(m) + rest) == Some((m, rest)),
{
    reveal(spec_dec_exec_request_form_hello);
    reveal(spec_enc_exec_request_fields_hello);
    lemma_exec_request_keys();
    match m {
        ExecRequestV::Hello { protocol, auth_token, cell_id } => {
            let k_protocol = spec_enc_text("protocol"@);
            let v_protocol = spec_enc_u64(protocol as u64);
            let k_auth_token = spec_enc_text("auth_token"@);
            let v_auth_token = spec_enc_text(auth_token);
            let k_cell_id = spec_enc_text("cell_id"@);
            let v_cell_id = spec_enc_text(cell_id);
            lemma_concat_assoc(k_protocol + v_protocol + k_auth_token + v_auth_token + k_cell_id, v_cell_id, rest);
            lemma_concat_assoc(k_protocol + v_protocol + k_auth_token + v_auth_token, k_cell_id, (v_cell_id + rest));
            lemma_concat_assoc(k_protocol + v_protocol + k_auth_token, v_auth_token, (k_cell_id + (v_cell_id + rest)));
            lemma_concat_assoc(k_protocol + v_protocol, k_auth_token, (v_auth_token + (k_cell_id + (v_cell_id + rest))));
            lemma_concat_assoc(k_protocol, v_protocol, (k_auth_token + (v_auth_token + (k_cell_id + (v_cell_id + rest)))));
            lemma_dec_key_enc("protocol"@, (v_protocol + (k_auth_token + (v_auth_token + (k_cell_id + (v_cell_id + rest))))));
            lemma_dec_u32_enc(protocol, (k_auth_token + (v_auth_token + (k_cell_id + (v_cell_id + rest)))));
            lemma_dec_key_enc("auth_token"@, (v_auth_token + (k_cell_id + (v_cell_id + rest))));
            lemma_dec_text_enc(auth_token, (k_cell_id + (v_cell_id + rest)));
            lemma_dec_key_enc("cell_id"@, (v_cell_id + rest));
            lemma_dec_text_enc(cell_id, rest);
        },
        _ => {},
    }
}

/// Decoding inverts encoding for the hello form.
#[verifier::rlimit(100)]
proof fn lemma_dec_exec_request_enc_hello(m: ExecRequestV, rest: Seq<u8>)
    requires
        m is Hello,
        exec_request_fits(m),
    ensures
        spec_dec_exec_request(spec_enc_exec_request(m) + rest) == Some((m, rest)),
{
    lemma_exec_request_tags();
    let fields = spec_enc_exec_request_fields_hello(m);
    lemma_dec_exec_request_dispatch("hello"@, 4, fields, rest);
    lemma_dec_exec_request_form_hello(m, rest);
}

/// Decoding inverts encoding for the fields of the ping form.
#[verifier::rlimit(100)]
proof fn lemma_dec_exec_request_form_ping(m: ExecRequestV, rest: Seq<u8>)
    requires
        m is Ping,
        exec_request_fits(m),
    ensures
        spec_dec_exec_request_form_ping(1, spec_enc_exec_request_fields_ping(m) + rest) == Some((m, rest)),
{
    reveal(spec_dec_exec_request_form_ping);
    reveal(spec_enc_exec_request_fields_ping);
    lemma_exec_request_keys();
    match m {
        ExecRequestV::Ping => {
            assert(spec_enc_exec_request_fields_ping(m) + rest =~= rest);
        },
        _ => {},
    }
}

/// Decoding inverts encoding for the ping form.
#[verifier::rlimit(100)]
proof fn lemma_dec_exec_request_enc_ping(m: ExecRequestV, rest: Seq<u8>)
    requires
        m is Ping,
        exec_request_fits(m),
    ensures
        spec_dec_exec_request(spec_enc_exec_request(m) + rest) == Some((m, rest)),
{
    lemma_exec_request_tags();
    let fields = spec_enc_exec_request_fields_ping(m);
    lemma_dec_exec_request_dispatch("ping"@, 1, fields, rest);
    lemma_utf8_ne("hello"@, "ping"@);
    lemma_dec_exec_request_form_ping(m, rest);
}

/// Decoding inverts encoding for the fields of the run_job form.
#[verifier::rlimit(100)]
proof fn lemma_dec_exec_request_form_run_job(m: ExecRequestV, rest: Seq<u8>)
    requires
        m is RunJob,
        exec_request_fits(m),
    ensures
        spec_dec_exec_request_form_run_job(6, spec_enc_exec_request_fields_run_job(m) + rest) == Some((m, rest)),
{
    reveal(spec_dec_exec_request_form_run_job);
    reveal(spec_enc_exec_request_fields_run_job);
    lemma_exec_request_keys();
    match m {
        ExecRequestV::RunJob { job_id, cmd, env, stdout_path, stderr_path } => {
            let k_job_id = spec_enc_text("job_id"@);
            let v_job_id = spec_enc_text(job_id);
            let k_cmd = spec_enc_text("cmd"@);
            let v_cmd = spec_enc_cmd(cmd);
            let k_env = spec_enc_text("env"@);
            let v_env = spec_enc_env(env);
            let k_stdout_path = spec_enc_text("stdout_path"@);
            let v_stdout_path = spec_enc_text(stdout_path);
            let k_stderr_path = spec_enc_text("stderr_path"@);
            let v_stderr_path = spec_enc_text(stderr_path);
            lemma_concat_assoc(k_job_id + v_job_id + k_cmd + v_cmd + k_env + v_env + k_stdout_path + v_stdout_path + k_stderr_path, v_stderr_path, rest);
            lemma_concat_assoc(k_job_id + v_job_id + k_cmd + v_cmd + k_env + v_env + k_stdout_path + v_stdout_path, k_stderr_path, (v_stderr_path + rest));
            lemma_concat_assoc(k_job_id + v_job_id + k_cmd + v_cmd + k_env + v_env + k_stdout_path, v_stdout_path, (k_stderr_path + (v_stderr_path + rest)));
            lemma_concat_assoc(k_job_id + v_job_id + k_cmd + v_cmd + k_env + v_env, k_stdout_path, (v_stdout_path + (k_stderr_path + (v_stderr_path + rest))));
            lemma_concat_assoc(k_job_id + v_job_id + k_cmd + v_cmd + k_env, v_env, (k_stdout_path + (v_stdout_path + (k_stderr_path + (v_stderr_path + rest)))));
            lemma_concat_assoc(k_job_id + v_job_id + k_cmd + v_cmd, k_env, (v_env + (k_stdout_path + (v_stdout_path + (k_stderr_path + (v_stderr_path + rest))))));
            lemma_concat_assoc(k_job_id + v_job_id + k_cmd, v_cmd, (k_env + (v_env + (k_stdout_path + (v_stdout_path + (k_stderr_path + (v_stderr_path + rest)))))));
            lemma_concat_assoc(k_job_id + v_job_id, k_cmd, (v_cmd + (k_env + (v_env + (k_stdout_path + (v_stdout_path + (k_stderr_path + (v_stderr_path + rest))))))));
            lemma_concat_assoc(k_job_id, v_job_id, (k_cmd + (v_cmd + (k_env + (v_env + (k_stdout_path + (v_stdout_path + (k_stderr_path + (v_stderr_path + rest)))))))));
            lemma_dec_key_enc("job_id"@, (v_job_id + (k_cmd + (v_cmd + (k_env + (v_env + (k_stdout_path + (v_stdout_path + (k_stderr_path + (v_stderr_path + rest))))))))));
            lemma_dec_text_enc(job_id, (k_cmd + (v_cmd + (k_env + (v_env + (k_stdout_path + (v_stdout_path + (k_stderr_path + (v_stderr_path + rest)))))))));
            lemma_dec_key_enc("cmd"@, (v_cmd + (k_env + (v_env + (k_stdout_path + (v_stdout_path + (k_stderr_path + (v_stderr_path + rest))))))));
            lemma_dec_cmd_enc(cmd, (k_env + (v_env + (k_stdout_path + (v_stdout_path + (k_stderr_path + (v_stderr_path + rest)))))));
            lemma_dec_key_enc("env"@, (v_env + (k_stdout_path + (v_stdout_path + (k_stderr_path + (v_stderr_path + rest))))));
            lemma_dec_env_enc(env, (k_stdout_path + (v_stdout_path + (k_stderr_path + (v_stderr_path + rest)))));
            lemma_dec_key_enc("stdout_path"@, (v_stdout_path + (k_stderr_path + (v_stderr_path + rest))));
            lemma_dec_text_enc(stdout_path, (k_stderr_path + (v_stderr_path + rest)));
            lemma_dec_key_enc("stderr_path"@, (v_stderr_path + rest));
            lemma_dec_text_enc(stderr_path, rest);
        },
        _ => {},
    }
}

/// Decoding inverts encoding for the run_job form.
#[verifier::rlimit(100)]
proof fn lemma_dec_exec_request_enc_run_job(m: ExecRequestV, rest: Seq<u8>)
    requires
        m is RunJob,
        exec_request_fits(m),
    ensures
        spec_dec_exec_request(spec_enc_exec_request(m) + rest) == Some((m, rest)),
{
    lemma_exec_request_tags();
    let fields = spec_enc_exec_request_fields_run_job(m);
    lemma_dec_exec_request_dispatch("run_job"@, 6, fields, rest);
    lemma_utf8_ne("hello"@, "run_job"@);
    lemma_utf8_ne("ping"@, "run_job"@);
    lemma_dec_exec_request_form_run_job(m, rest);
}

/// Decoding inverts encoding for the fields of the job_status form.
#[verifier::rlimit(100)]
proof fn lemma_dec_exec_request_form_job_status(m: ExecRequestV, rest: Seq<u8>)
    requires
        m is JobStatus,
        exec_request_fits(m),
    ensures
        spec_dec_exec_request_form_job_status(2, spec_enc_exec_request_fields_job_status(m) + rest) == Some((m, rest)),
{
    reveal(spec_dec_exec_request_form_job_status);
    reveal(spec_enc_exec_request_fields_job_status);
    lemma_exec_request_keys();
    match m {
        ExecRequestV::JobStatus { job_id } => {
            let k_job_id = spec_enc_text("job_id"@);
            let v_job_id = spec_enc_text(job_id);
            lemma_concat_assoc(k_job_id, v_job_id, rest);
            lemma_dec_key_enc("job_id"@, (v_job_id + rest));
            lemma_dec_text_enc(job_id, rest);
        },
        _ => {},
    }
}

/// Decoding inverts encoding for the job_status form.
#[verifier::rlimit(100)]
proof fn lemma_dec_exec_request_enc_job_status(m: ExecRequestV, rest: Seq<u8>)
    requires
        m is JobStatus,
        exec_request_fits(m),
    ensures
        spec_dec_exec_request(spec_enc_exec_request(m) + rest) == Some((m, rest)),
{
    lemma_exec_request_tags();
    let fields = spec_enc_exec_request_fields_job_status(m);
    lemma_dec_exec_request_dispatch("job_status"@, 2, fields, rest);
    lemma_utf8_ne("hello"@, "job_status"@);
    lemma_utf8_ne("ping"@, "job_status"@);
    lemma_utf8_ne("run_job"@, "job_status"@);
    lemma_dec_exec_request_form_job_status(m, rest);
}

/// Decoding inverts encoding for the fields of the job_signal form.
#[verifier::rlimit(100)]
proof fn lemma_dec_exec_request_form_job_signal(m: ExecRequestV, rest: Seq<u8>)
    requires
        m is JobSignal,
        exec_request_fits(m),
    ensures
        spec_dec_exec_request_form_job_signal(3, spec_enc_exec_request_fields_job_signal(m) + rest) == Some((m, rest)),
{
    reveal(spec_dec_exec_request_form_job_signal);
    reveal(spec_enc_exec_request_fields_job_signal);
    lemma_exec_request_keys();
    match m {
        ExecRequestV::JobSignal { job_id, force } => {
            let k_job_id = spec_enc_text("job_id"@);
            let v_job_id = spec_enc_text(job_id);
            let k_force = spec_enc_text("force"@);
            let v_force = spec_enc_bool(force);
            lemma_concat_assoc(k_job_id + v_job_id + k_force, v_force, rest);
            lemma_concat_assoc(k_job_id + v_job_id, k_force, (v_force + rest));
            lemma_concat_assoc(k_job_id, v_job_id, (k_force + (v_force + rest)));
            lemma_dec_key_enc("job_id"@, (v_job_id + (k_force + (v_force + rest))));
            lemma_dec_text_enc(job_id, (k_force + (v_force + rest)));
            lemma_dec_key_enc("force"@, (v_force + rest));
            lemma_dec_bool_enc(force, rest);
        },
        _ => {},
    }
}

/// Decoding inverts encoding for the job_signal form.
#[verifier::rlimit(100)]
proof fn lemma_dec_exec_request_enc_job_signal(m: ExecRequestV, rest: Seq<u8>)
    requires
        m is JobSignal,
        exec_request_fits(m),
    ensures
        spec_dec_exec_request(spec_enc_exec_request(m) + rest) == Some((m, rest)),
{
    lemma_exec_request_tags();
    let fields = spec_enc_exec_request_fields_job_signal(m);
    lemma_dec_exec_request_dispatch("job_signal"@, 3, fields, rest);
    lemma_utf8_ne("hello"@, "job_signal"@);
    lemma_utf8_ne("ping"@, "job_signal"@);
    lemma_utf8_ne("run_job"@, "job_signal"@);
    lemma_utf8_ne("job_status"@, "job_signal"@);
    lemma_dec_exec_request_form_job_signal(m, rest);
}

/// Decoding inverts encoding for the fields of the pty_open form.
#[verifier::rlimit(100)]
proof fn lemma_dec_exec_request_form_pty_open(m: ExecRequestV, rest: Seq<u8>)
    requires
        m is PtyOpen,
        exec_request_fits(m),
    ensures
        spec_dec_exec_request_form_pty_open(7, spec_enc_exec_request_fields_pty_open(m) + rest) == Some((m, rest)),
{
    reveal(spec_dec_exec_request_form_pty_open);
    reveal(spec_enc_exec_request_fields_pty_open);
    lemma_exec_request_keys();
    match m {
        ExecRequestV::PtyOpen { shell, args, cwd, env, cols, rows } => {
            let k_shell = spec_enc_text("shell"@);
            let v_shell = spec_enc_text(shell);
            let k_args = spec_enc_text("args"@);
            let v_args = spec_enc_texts(args);
            let k_cwd = spec_enc_text("cwd"@);
            let v_cwd = spec_enc_opt_text(cwd);
            let k_env = spec_enc_text("env"@);
            let v_env = spec_enc_env(env);
            let k_cols = spec_enc_text("cols"@);
            let v_cols = spec_enc_u64(cols as u64);
            let k_rows = spec_enc_text("rows"@);
            let v_rows = spec_enc_u64(rows as u64);
            lemma_concat_assoc(k_shell + v_shell + k_args + v_args + k_cwd + v_cwd + k_env + v_env + k_cols + v_cols + k_rows, v_rows, rest);
            lemma_concat_assoc(k_shell + v_shell + k_args + v_args + k_cwd + v_cwd + k_env + v_env + k_cols + v_cols, k_rows, (v_rows + rest));
            lemma_concat_assoc(k_shell + v_shell + k_args + v_args + k_cwd + v_cwd + k_env + v_env + k_cols, v_cols, (k_rows + (v_rows + rest)));
            lemma_concat_assoc(k_shell + v_shell + k_args + v_args + k_cwd + v_cwd + k_env + v_env, k_cols, (v_cols + (k_rows + (v_rows + rest))));
            lemma_concat_assoc(k_shell + v_shell + k_args + v_args + k_cwd + v_cwd + k_env, v_env, (k_cols + (v_cols + (k_rows + (v_rows + rest)))));
            lemma_concat_assoc(k_shell + v_shell + k_args + v_args + k_cwd + v_cwd, k_env, (v_env + (k_cols + (v_cols + (k_rows + (v_rows + rest))))));
            lemma_concat_assoc(k_shell + v_shell + k_args + v_args + k_cwd, v_cwd, (k_env + (v_env + (k_cols + (v_cols + (k_rows + (v_rows + rest)))))));
            lemma_concat_assoc(k_shell + v_shell + k_args + v_args, k_cwd, (v_cwd + (k_env + (v_env + (k_cols + (v_cols + (k_rows + (v_rows + rest))))))));
            lemma_concat_assoc(k_shell + v_shell + k_args, v_args, (k_cwd + (v_cwd + (k_env + (v_env + (k_cols + (v_cols + (k_rows + (v_rows + rest)))))))));
            lemma_concat_assoc(k_shell + v_shell, k_args, (v_args + (k_cwd + (v_cwd + (k_env + (v_env + (k_cols + (v_cols + (k_rows + (v_rows + rest))))))))));
            lemma_concat_assoc(k_shell, v_shell, (k_args + (v_args + (k_cwd + (v_cwd + (k_env + (v_env + (k_cols + (v_cols + (k_rows + (v_rows + rest)))))))))));
            lemma_dec_key_enc("shell"@, (v_shell + (k_args + (v_args + (k_cwd + (v_cwd + (k_env + (v_env + (k_cols + (v_cols + (k_rows + (v_rows + rest))))))))))));
            lemma_dec_text_enc(shell, (k_args + (v_args + (k_cwd + (v_cwd + (k_env + (v_env + (k_cols + (v_cols + (k_rows + (v_rows + rest)))))))))));
            lemma_dec_key_enc("args"@, (v_args + (k_cwd + (v_cwd + (k_env + (v_env + (k_cols + (v_cols + (k_rows + (v_rows + rest))))))))));
            lemma_dec_texts_enc(args, (k_cwd + (v_cwd + (k_env + (v_env + (k_cols + (v_cols + (k_rows + (v_rows + rest)))))))));
            lemma_dec_key_enc("cwd"@, (v_cwd + (k_env + (v_env + (k_cols + (v_cols + (k_rows + (v_rows + rest))))))));
            lemma_dec_opt_text_enc(cwd, (k_env + (v_env + (k_cols + (v_cols + (k_rows + (v_rows + rest)))))));
            lemma_dec_key_enc("env"@, (v_env + (k_cols + (v_cols + (k_rows + (v_rows + rest))))));
            lemma_dec_env_enc(env, (k_cols + (v_cols + (k_rows + (v_rows + rest)))));
            lemma_dec_key_enc("cols"@, (v_cols + (k_rows + (v_rows + rest))));
            lemma_dec_u16_enc(cols, (k_rows + (v_rows + rest)));
            lemma_dec_key_enc("rows"@, (v_rows + rest));
            lemma_dec_u16_enc(rows, rest);
        },
        _ => {},
    }
}

/// Decoding inverts encoding for the pty_open form.
#[verifier::rlimit(100)]
proof fn lemma_dec_exec_request_enc_pty_open(m: ExecRequestV, rest: Seq<u8>)
    requires
        m is PtyOpen,
        exec_request_fits(m),
    ensures
        spec_dec_exec_request(spec_enc_exec_request(m) + rest) == Some((m, rest)),
{
    lemma_exec_request_tags();
    let fields = spec_enc_exec_request_fields_pty_open(m);
    lemma_dec_exec_request_dispatch("pty_open"@, 7, fields, rest);
    lemma_utf8_ne("hello"@, "pty_open"@);
    lemma_utf8_ne("ping"@, "pty_open"@);
    lemma_utf8_ne("run_job"@, "pty_open"@);
    lemma_utf8_ne("job_status"@, "pty_open"@);
    lemma_utf8_ne("job_signal"@, "pty_open"@);
    lemma_dec_exec_request_form_pty_open(m, rest);
}

/// Decoding inverts encoding for the fields of the pty_input form.
#[verifier::rlimit(100)]
proof fn lemma_dec_exec_request_form_pty_input(m: ExecRequestV, rest: Seq<u8>)
    requires
        m is PtyInput,
        exec_request_fits(m),
    ensures
        spec_dec_exec_request_form_pty_input(3, spec_enc_exec_request_fields_pty_input(m) + rest) == Some((m, rest)),
{
    reveal(spec_dec_exec_request_form_pty_input);
    reveal(spec_enc_exec_request_fields_pty_input);
    lemma_exec_request_keys();
    match m {
        ExecRequestV::PtyInput { session_id, data } => {
            let k_session_id = spec_enc_text("session_id"@);
            let v_session_id = spec_enc_u64(session_id);
            let k_data = spec_enc_text("data"@);
            let v_data = spec_enc_bytes(data);
            lemma_concat_assoc(k_session_id + v_session_id + k_data, v_data, rest);
            lemma_concat_assoc(k_session_id + v_session_id, k_data, (v_data + rest));
            lemma_concat_assoc(k_session_id, v_session_id, (k_data + (v_data + rest)));
            lemma_dec_key_enc("session_id"@, (v_session_id + (k_data + (v_data + rest))));
            lemma_dec_u64_enc(session_id, (k_data + (v_data + rest)));
            lemma_dec_key_enc("data"@, (v_data + rest));
            lemma_dec_bytes_enc(data, rest);
        },
        _ => {},
    }
}

/// Decoding inverts encoding for the pty_input form.
#[verifier::rlimit(100)]
proof fn lemma_dec_exec_request_enc_pty_input(m: ExecRequestV, rest: Seq<u8>)
    requires
        m is PtyInput,
        exec_request_fits(m),
    ensures
        spec_dec_exec_request(spec_enc_exec_request(m) + rest) == Some((m, rest)),
{
    lemma_exec_request_tags();
    let fields = spec_enc_exec_request_fields_pty_input(m);
    lemma_dec_exec_request_dispatch("pty_input"@, 3, fields, rest);
    lemma_utf8_ne("hello"@, "pty_input"@);
    lemma_utf8_ne("ping"@, "pty_input"@);
    lemma_utf8_ne("run_job"@, "pty_input"@);
    lemma_utf8_ne("job_status"@, "pty_input"@);
    lemma_utf8_ne("job_signal"@, "pty_input"@);
    lemma_utf8_ne("pty_open"@, "pty_input"@);
    lemma_dec_exec_request_form_pty_input(m, rest);
}

/// Decoding inverts encoding for the fields of the pty_read form.
#[verifier::rlimit(100)]
proof fn lemma_dec_exec_request_form_pty_read(m: ExecRequestV, rest: Seq<u8>)
    requires
        m is PtyRead,
        exec_request_fits(m),
    ensures
        spec_dec_exec_request_form_pty_read(6, spec_enc_exec_request_fields_pty_read(m) + rest) == Some((m, rest)),
{
    reveal(spec_dec_exec_request_form_pty_read);
    reveal(spec_enc_exec_request_fields_pty_read);
    lemma_exec_request_keys();
    match m {
        ExecRequestV::PtyRead { session_id, offset, max_bytes, follow, wait_ms } => {
            let k_session_id = spec_enc_text("session_id"@);
            let v_session_id = spec_enc_u64(session_id);
            let k_offset = spec_enc_text("offset"@);
            let v_offset = spec_enc_u64(offset);
            let k_max_bytes = spec_enc_text("max_bytes"@);
            let v_max_bytes = spec_enc_u64(max_bytes as u64);
            let k_follow = spec_enc_text("follow"@);
            let v_follow = spec_enc_bool(follow);
            let k_wait_ms = spec_enc_text("wait_ms"@);
            let v_wait_ms = spec_enc_u64(wait_ms);
            lemma_concat_assoc(k_session_id + v_session_id + k_offset + v_offset + k_max_bytes + v_max_bytes + k_follow + v_follow + k_wait_ms, v_wait_ms, rest);
            lemma_concat_assoc(k_session_id + v_session_id + k_offset + v_offset + k_max_bytes + v_max_bytes + k_follow + v_follow, k_wait_ms, (v_wait_ms + rest));
            lemma_concat_assoc(k_session_id + v_session_id + k_offset + v_offset + k_max_bytes + v_max_bytes + k_follow, v_follow, (k_wait_ms + (v_wait_ms + rest)));
            lemma_concat_assoc(k_session_id + v_session_id + k_offset + v_offset + k_max_bytes + v_max_bytes, k_follow, (v_follow + (k_wait_ms + (v_wait_ms + rest))));
            lemma_concat_assoc(k_session_id + v_session_id + k_offset + v_offset + k_max_bytes, v_max_bytes, (k_follow + (v_follow + (k_wait_ms + (v_wait_ms + rest)))));
            lemma_concat_assoc(k_session_id + v_session_id + k_offset + v_offset, k_max_bytes, (v_max_bytes + (k_follow + (v_follow + (k_wait_ms + (v_wait_ms + rest))))));
            lemma_concat_assoc(k_session_id + v_session_id + k_offset, v_offset, (k_max_bytes + (v_max_bytes + (k_follow + (v_follow + (k_wait_ms + (v_wait_ms + rest)))))));
            lemma_concat_assoc(k_session_id + v_session_id, k_offset, (v_offset + (k_max_bytes + (v_max_bytes + (k_follow + (v_follow + (k_wait_ms + (v_wait_ms + rest))))))));
            lemma_concat_assoc(k_session_id, v_session_id, (k_offset + (v_offset + (k_max_bytes + (v_max_bytes + (k_follow + (v_follow + (k_wait_ms + (v_wait_ms + rest)))))))));
            lemma_dec_key_enc("session_id"@, (v_session_id + (k_offset + (v_offset + (k_max_bytes + (v_max_bytes + (k_follow + (v_follow + (k_wait_ms + (v_wait_ms + rest))))))))));
            lemma_dec_u64_enc(session_id, (k_offset + (v_offset + (k_max_bytes + (v_max_bytes + (k_follow + (v_follow + (k_wait_ms + (v_wait_ms + rest)))))))));
            lemma_dec_key_enc("offset"@, (v_offset + (k_max_bytes + (v_max_bytes + (k_follow + (v_follow + (k_wait_ms + (v_wait_ms + rest))))))));
            lemma_dec_u64_enc(offset, (k_max_bytes + (v_max_bytes + (k_follow + (v_follow + (k_wait_ms + (v_wait_ms + rest)))))));
            lemma_dec_key_enc("max_bytes"@, (v_max_bytes + (k_follow + (v_follow + (k_wait_ms + (v_wait_ms + rest))))));
            lemma_dec_u32_enc(max_bytes, (k_follow + (v_follow + (k_wait_ms + (v_wait_ms + rest)))));
            lemma_dec_key_enc("follow"@, (v_follow + (k_wait_ms + (v_wait_ms + rest))));
            lemma_dec_bool_enc(follow, (k_wait_ms + (v_wait_ms + rest)));
            lemma_dec_key_enc("wait_ms"@, (v_wait_ms + rest));
            lemma_dec_u64_enc(wait_ms, rest);
        },
        _ => {},
    }
}

/// Decoding inverts encoding for the pty_read form.
#[verifier::rlimit(100)]
proof fn lemma_dec_exec_request_enc_pty_read(m: ExecRequestV, rest: Seq<u8>)
    requires
        m is PtyRead,
        exec_request_fits(m),
    ensures
        spec_dec_exec_request(spec_enc_exec_request(m) + rest) == Some((m, rest)),
{
    lemma_exec_request_tags();
    let fields = spec_enc_exec_request_fields_pty_read(m);
    lemma_dec_exec_request_dispatch("pty_read"@, 6, fields, rest);
    lemma_utf8_ne("hello"@, "pty_read"@);
    lemma_utf8_ne("ping"@, "pty_read"@);
    lemma_utf8_ne("run_job"@, "pty_read"@);
    lemma_utf8_ne("job_status"@, "pty_read"@);
    lemma_utf8_ne("job_signal"@, "pty_read"@);
    lemma_utf8_ne("pty_open"@, "pty_read"@);
    lemma_utf8_ne("pty_input"@, "pty_read"@);
    lemma_dec_exec_request_form_pty_read(m, rest);
}

/// Decoding inverts encoding for the fields of the pty_resize form.
#[verifier::rlimit(100)]
proof fn lemma_dec_exec_request_form_pty_resize(m: ExecRequestV, rest: Seq<u8>)
    requires
        m is PtyResize,
        exec_request_fits(m),
    ensures
        spec_dec_exec_request_form_pty_resize(4, spec_enc_exec_request_fields_pty_resize(m) + rest) == Some((m, rest)),
{
    reveal(spec_dec_exec_request_form_pty_resize);
    reveal(spec_enc_exec_request_fields_pty_resize);
    lemma_exec_request_keys();
    match m {
        ExecRequestV::PtyResize { session_id, cols, rows } => {
            let k_session_id = spec_enc_text("session_id"@);
            let v_session_id = spec_enc_u64(session_id);
            let k_cols = spec_enc_text("cols"@);
            let v_cols = spec_enc_u64(cols as u64);
            let k_rows = spec_enc_text("rows"@);
            let v_rows = spec_enc_u64(rows as u64);
            lemma_concat_assoc(k_session_id + v_session_id + k_cols + v_cols + k_rows, v_rows, rest);
            lemma_concat_assoc(k_session_id + v_session_id + k_cols + v_cols, k_rows, (v_rows + rest));
            lemma_concat_assoc(k_session_id + v_session_id + k_cols, v_cols, (k_rows + (v_rows + rest)));
            lemma_concat_assoc(k_session_id + v_session_id, k_cols, (v_cols + (k_rows + (v_rows + rest))));
            lemma_concat_assoc(k_session_id, v_session_id, (k_cols + (v_cols + (k_rows + (v_rows + rest)))));
            lemma_dec_key_enc("session_id"@, (v_session_id + (k_cols + (v_cols + (k_rows + (v_rows + rest))))));
            lemma_dec_u64_enc(session_id, (k_cols + (v_cols + (k_rows + (v_rows + rest)))));
            lemma_dec_key_enc("cols"@, (v_cols + (k_rows + (v_rows + rest))));
            lemma_dec_u16_enc(cols, (k_rows + (v_rows + rest)));
            lemma_dec_key_enc("rows"@, (v_rows + rest));
            lemma_dec_u16_enc(rows, rest);
        },
        _ => {},
    }
}

/// Decoding inverts encoding for the pty_resize form.
#[verifier::rlimit(100)]
proof fn lemma_dec_exec_request_enc_pty_resize(m: ExecRequestV, rest: Seq<u8>)
    requires
        m is PtyResize,
        exec_request_fits(m),
    ensures
        spec_dec_exec_request(spec_enc_exec_request(m) + rest) == Some((m, rest)),
{
    lemma_exec_request_tags();
    let fields = spec_enc_exec_request_fields_pty_resize(m);
    lemma_dec_exec_request_dispatch("pty_resize"@, 4, fields, rest);
    lemma_utf8_ne("hello"@, "pty_resize"@);
    lemma_utf8_ne("ping"@, "pty_resize"@);
    lemma_utf8_ne("run_job"@, "pty_resize"@);
    lemma_utf8_ne("job_status"@, "pty_resize"@);
    lemma_utf8_ne("job_signal"@, "pty_resize"@);
    lemma_utf8_ne("pty_open"@, "pty_resize"@);
    lemma_utf8_ne("pty_input"@, "pty_resize"@);
    lemma_utf8_ne("pty_read"@, "pty_resize"@);
    lemma_dec_exec_request_form_pty_resize(m, rest);
}

/// Decoding inverts encoding for the fields of the pty_close form.
#[verifier::rlimit(100)]
proof fn lemma_dec_exec_request_form_pty_close(m: ExecRequestV, rest: Seq<u8>)
    requires
        m is PtyClose,
        exec_request_fits(m),
    ensures
        spec_dec_exec_request_form_pty_close(3, spec_enc_exec_request_fields_pty_close(m) + rest) == Some((m, rest)),
{
    reveal(spec_dec_exec_request_form_pty_close);
    reveal(spec_enc_exec_request_fields_pty_close);
    lemma_exec_request_keys();
    match m {
        ExecRequestV::PtyClose { session_id, force } => {
            let k_session_id = spec_enc_text("session_id"@);
            let v_session_id = spec_enc_u64(session_id);
            let k_force = spec_enc_text("force"@);
            let v_force = spec_enc_bool(force);
            lemma_concat_assoc(k_session_id + v_session_id + k_force, v_force, rest);
            lemma_concat_assoc(k_session_id + v_session_id, k_force, (v_force + rest));
            lemma_concat_assoc(k_session_id, v_session_id, (k_force + (v_force + rest)));
            lemma_dec_key_enc("session_id"@, (v_session_id + (k_force + (v_force + rest))));
            lemma_dec_u64_enc(session_id, (k_force + (v_force + rest)));
            lemma_dec_key_enc("force"@, (v_force + rest));
            lemma_dec_bool_enc(force, rest);
        },
        _ => {},
    }
}

/// Decoding inverts encoding for the pty_close form.
#[verifier::rlimit(100)]
proof fn lemma_dec_exec_request_enc_pty_close(m: ExecRequestV, rest: Seq<u8>)
    requires
        m is PtyClose,
        exec_request_fits(m),
    ensures
        spec_dec_exec_request(spec_enc_exec_request(m) + rest) == Some((m, rest)),
{
    lemma_exec_request_tags();
    let fields = spec_enc_exec_request_fields_pty_close(m);
    lemma_dec_exec_request_dispatch("pty_close"@, 3, fields, rest);
    lemma_utf8_ne("hello"@, "pty_close"@);
    lemma_utf8_ne("ping"@, "pty_close"@);
    lemma_utf8_ne("run_job"@, "pty_close"@);
    lemma_utf8_ne("job_status"@, "pty_close"@);
    lemma_utf8_ne("job_signal"@, "pty_close"@);
    lemma_utf8_ne("pty_open"@, "pty_close"@);
    lemma_utf8_ne("pty_input"@, "pty_close"@);
    lemma_utf8_ne("pty_read"@, "pty_close"@);
    lemma_utf8_ne("pty_resize"@, "pty_close"@);
    lemma_dec_exec_request_form_pty_close(m, rest);
}

/// Decoding inverts encoding for the fields of the usage_probe form.
#[verifier::rlimit(100)]
proof fn lemma_dec_exec_request_form_usage_probe(m: ExecRequestV, rest: Seq<u8>)
    requires
        m is UsageProbe,
        exec_request_fits(m),
    ensures
        spec_dec_exec_request_form_usage_probe(2, spec_enc_exec_request_fields_usage_probe(m) + rest) == Some((m, rest)),
{
    reveal(spec_dec_exec_request_form_usage_probe);
    reveal(spec_enc_exec_request_fields_usage_probe);
    lemma_exec_request_keys();
    match m {
        ExecRequestV::UsageProbe { job_id } => {
            let k_job_id = spec_enc_text("job_id"@);
            let v_job_id = spec_enc_text(job_id);
            lemma_concat_assoc(k_job_id, v_job_id, rest);
            lemma_dec_key_enc("job_id"@, (v_job_id + rest));
            lemma_dec_text_enc(job_id, rest);
        },
        _ => {},
    }
}

/// Decoding inverts encoding for the usage_probe form.
#[verifier::rlimit(100)]
proof fn lemma_dec_exec_request_enc_usage_probe(m: ExecRequestV, rest: Seq<u8>)
    requires
        m is UsageProbe,
        exec_request_fits(m),
    ensures
        spec_dec_exec_request(spec_enc_exec_request(m) + rest) == Some((m, rest)),
{
    lemma_exec_request_tags();
    let fields = spec_enc_exec_request_fields_usage_probe(m);
    lemma_dec_exec_request_dispatch("usage_probe"@, 2, fields, rest);
    lemma_utf8_ne("hello"@, "usage_probe"@);
    lemma_utf8_ne("ping"@, "usage_probe"@);
    lemma_utf8_ne("run_job"@, "usage_probe"@);
    lemma_utf8_ne("job_status"@, "usage_probe"@);
    lemma_utf8_ne("job_signal"@, "usage_probe"@);
    lemma_utf8_ne("pty_open"@, "usage_probe"@);
    lemma_utf8_ne("pty_input"@, "usage_probe"@);
    lemma_utf8_ne("pty_read"@, "usage_probe"@);
    lemma_utf8_ne("pty_resize"@, "usage_probe"@);
    lemma_utf8_ne("pty_close"@, "usage_probe"@);
    lemma_dec_exec_request_form_usage_probe(m, rest);
}

/// Decoding inverts encoding for the fields of the shutdown form.
#[verifier::rlimit(100)]
proof fn lemma_dec_exec_request_form_shutdown(m: ExecRequestV, rest: Seq<u8>)
    requires
        m is Shutdown,
        exec_request_fits(m),
    ensures
        spec_dec_exec_request_form_shutdown(2, spec_enc_exec_request_fields_shutdown(m) + rest) == Some((m, rest)),
{
    reveal(spec_dec_exec_request_form_shutdown);
    reveal(spec_enc_exec_request_fields_shutdown);
    lemma_exec_request_keys();
    match m {
        ExecRequestV::Shutdown { force } => {
            let k_force = spec_enc_text("force"@);
            let v_force = spec_enc_bool(force);
            lemma_concat_assoc(k_force, v_force, rest);
            lemma_dec_key_enc("force"@, (v_force + rest));
            lemma_dec_bool_enc(force, rest);
        },
        _ => {},
    }
}

/// Decoding inverts encoding for the shutdown form.
#[verifier::rlimit(100)]
proof fn lemma_dec_exec_request_enc_shutdown(m: ExecRequestV, rest: Seq<u8>)
    requires
        m is Shutdown,
        exec_request_fits(m),
    ensures
        spec_dec_exec_request(spec_enc_exec_request(m) + rest) == Some((m, rest)),
{
    lemma_exec_request_tags();
    let fields = spec_enc_exec_request_fields_shutdown(m);
    lemma_dec_exec_request_dispatch("shutdown"@, 2, fields, rest);
    lemma_utf8_ne("hello"@, "shutdown"@);
    lemma_utf8_ne("ping"@, "shutdown"@);
    lemma_utf8_ne("run_job"@, "shutdown"@);
    lemma_utf8_ne("job_status"@, "shutdown"@);
    lemma_utf8_ne("job_signal"@, "shutdown"@);
    lemma_utf8_ne("pty_open"@, "shutdown"@);
    lemma_utf8_ne("pty_input"@, "shutdown"@);
    lemma_utf8_ne("pty_read"@, "shutdown"@);
    lemma_utf8_ne("pty_resize"@, "shutdown"@);
    lemma_utf8_ne("pty_close"@, "shutdown"@);
    lemma_utf8_ne("usage_probe"@, "shutdown"@);
    lemma_dec_exec_request_form_shutdown(m, rest);
}

/// Decoding a exec_request body inverts encoding one.
pub proof fn lemma_dec_exec_request_enc(m: ExecRequestV, rest: Seq<u8>)
    requires
        exec_request_fits(m),
    ensures
        spec_dec_exec_request(spec_enc_exec_request(m) + rest) == Some((m, rest)),
{
    match m {
        ExecRequestV::Hello { .. } => lemma_dec_exec_request_enc_hello(m, rest),
        ExecRequestV::Ping => lemma_dec_exec_request_enc_ping(m, rest),
        ExecRequestV::RunJob { .. } => lemma_dec_exec_request_enc_run_job(m, rest),
        ExecRequestV::JobStatus { .. } => lemma_dec_exec_request_enc_job_status(m, rest),
        ExecRequestV::JobSignal { .. } => lemma_dec_exec_request_enc_job_signal(m, rest),
        ExecRequestV::PtyOpen { .. } => lemma_dec_exec_request_enc_pty_open(m, rest),
        ExecRequestV::PtyInput { .. } => lemma_dec_exec_request_enc_pty_input(m, rest),
        ExecRequestV::PtyRead { .. } => lemma_dec_exec_request_enc_pty_read(m, rest),
        ExecRequestV::PtyResize { .. } => lemma_dec_exec_request_enc_pty_resize(m, rest),
        ExecRequestV::PtyClose { .. } => lemma_dec_exec_request_enc_pty_close(m, rest),
        ExecRequestV::UsageProbe { .. } => lemma_dec_exec_request_enc_usage_probe(m, rest),
        ExecRequestV::Shutdown { .. } => lemma_dec_exec_request_enc_shutdown(m, rest),
    }
}

/// Appends an encoded exec_request body.
#[verifier::rlimit(100)]
pub fn enc_exec_request(out: &mut Vec<u8>, v: &ExecRequest)
    ensures
        final(out)@ == old(out)@ + spec_enc_exec_request(v@),
{
    match v {
        ExecRequest::Hello { protocol, auth_token, cell_id } => {
            enc_uint(out, MAJOR_MAP, 4);
            enc_text(out, "type");
            enc_text(out, "hello");
            enc_text(out, "protocol");
            enc_u64(out, *protocol as u64);
            enc_text(out, "auth_token");
            enc_text(out, auth_token.as_str());
            enc_text(out, "cell_id");
            enc_text(out, cell_id.as_str());
            proof {
                reveal(spec_enc_exec_request_fields_hello);
                let o = old(out)@;
                let h = spec_enc_uint(MAJOR_MAP, 4);
                let tk = spec_enc_text("type"@);
                let tv = spec_enc_text("hello"@);
                let k_protocol = spec_enc_text("protocol"@);
                let v_protocol = spec_enc_u64(*protocol as u64);
                let k_auth_token = spec_enc_text("auth_token"@);
                let v_auth_token = spec_enc_text(auth_token@);
                let k_cell_id = spec_enc_text("cell_id"@);
                let v_cell_id = spec_enc_text(cell_id@);
                lemma_concat_assoc(o, h, tk);
                lemma_concat_assoc(o, h + tk, tv);
                lemma_concat_assoc(o, h + tk + tv, k_protocol);
                lemma_concat_assoc(o, h + tk + tv + k_protocol, v_protocol);
                lemma_concat_assoc(o, h + tk + tv + k_protocol + v_protocol, k_auth_token);
                lemma_concat_assoc(o, h + tk + tv + k_protocol + v_protocol + k_auth_token, v_auth_token);
                lemma_concat_assoc(o, h + tk + tv + k_protocol + v_protocol + k_auth_token + v_auth_token, k_cell_id);
                lemma_concat_assoc(o, h + tk + tv + k_protocol + v_protocol + k_auth_token + v_auth_token + k_cell_id, v_cell_id);
                lemma_concat_assoc(h + tk + tv, k_protocol, v_protocol);
                lemma_concat_assoc(h + tk + tv, k_protocol + v_protocol, k_auth_token);
                lemma_concat_assoc(h + tk + tv, k_protocol + v_protocol + k_auth_token, v_auth_token);
                lemma_concat_assoc(h + tk + tv, k_protocol + v_protocol + k_auth_token + v_auth_token, k_cell_id);
                lemma_concat_assoc(h + tk + tv, k_protocol + v_protocol + k_auth_token + v_auth_token + k_cell_id, v_cell_id);
            }
        },
        ExecRequest::Ping {  } => {
            enc_uint(out, MAJOR_MAP, 1);
            enc_text(out, "type");
            enc_text(out, "ping");
            proof {
                reveal(spec_enc_exec_request_fields_ping);
                let o = old(out)@;
                let h = spec_enc_uint(MAJOR_MAP, 1);
                let tk = spec_enc_text("type"@);
                let tv = spec_enc_text("ping"@);
                lemma_concat_assoc(o, h, tk);
                lemma_concat_assoc(o, h + tk, tv);
                assert(out@ =~= o + spec_enc_exec_request(v@));
            }
        },
        ExecRequest::RunJob { job_id, cmd, env, stdout_path, stderr_path } => {
            enc_uint(out, MAJOR_MAP, 6);
            enc_text(out, "type");
            enc_text(out, "run_job");
            enc_text(out, "job_id");
            enc_text(out, job_id.0.as_str());
            enc_text(out, "cmd");
            enc_cmd(out, cmd);
            enc_text(out, "env");
            enc_env(out, env);
            enc_text(out, "stdout_path");
            enc_text(out, stdout_path.as_str());
            enc_text(out, "stderr_path");
            enc_text(out, stderr_path.as_str());
            proof {
                reveal(spec_enc_exec_request_fields_run_job);
                let o = old(out)@;
                let h = spec_enc_uint(MAJOR_MAP, 6);
                let tk = spec_enc_text("type"@);
                let tv = spec_enc_text("run_job"@);
                let k_job_id = spec_enc_text("job_id"@);
                let v_job_id = spec_enc_text(job_id@);
                let k_cmd = spec_enc_text("cmd"@);
                let v_cmd = spec_enc_cmd(cmd@);
                let k_env = spec_enc_text("env"@);
                let v_env = spec_enc_env(env@);
                let k_stdout_path = spec_enc_text("stdout_path"@);
                let v_stdout_path = spec_enc_text(stdout_path@);
                let k_stderr_path = spec_enc_text("stderr_path"@);
                let v_stderr_path = spec_enc_text(stderr_path@);
                lemma_concat_assoc(o, h, tk);
                lemma_concat_assoc(o, h + tk, tv);
                lemma_concat_assoc(o, h + tk + tv, k_job_id);
                lemma_concat_assoc(o, h + tk + tv + k_job_id, v_job_id);
                lemma_concat_assoc(o, h + tk + tv + k_job_id + v_job_id, k_cmd);
                lemma_concat_assoc(o, h + tk + tv + k_job_id + v_job_id + k_cmd, v_cmd);
                lemma_concat_assoc(o, h + tk + tv + k_job_id + v_job_id + k_cmd + v_cmd, k_env);
                lemma_concat_assoc(o, h + tk + tv + k_job_id + v_job_id + k_cmd + v_cmd + k_env, v_env);
                lemma_concat_assoc(o, h + tk + tv + k_job_id + v_job_id + k_cmd + v_cmd + k_env + v_env, k_stdout_path);
                lemma_concat_assoc(o, h + tk + tv + k_job_id + v_job_id + k_cmd + v_cmd + k_env + v_env + k_stdout_path, v_stdout_path);
                lemma_concat_assoc(o, h + tk + tv + k_job_id + v_job_id + k_cmd + v_cmd + k_env + v_env + k_stdout_path + v_stdout_path, k_stderr_path);
                lemma_concat_assoc(o, h + tk + tv + k_job_id + v_job_id + k_cmd + v_cmd + k_env + v_env + k_stdout_path + v_stdout_path + k_stderr_path, v_stderr_path);
                lemma_concat_assoc(h + tk + tv, k_job_id, v_job_id);
                lemma_concat_assoc(h + tk + tv, k_job_id + v_job_id, k_cmd);
                lemma_concat_assoc(h + tk + tv, k_job_id + v_job_id + k_cmd, v_cmd);
                lemma_concat_assoc(h + tk + tv, k_job_id + v_job_id + k_cmd + v_cmd, k_env);
                lemma_concat_assoc(h + tk + tv, k_job_id + v_job_id + k_cmd + v_cmd + k_env, v_env);
                lemma_concat_assoc(h + tk + tv, k_job_id + v_job_id + k_cmd + v_cmd + k_env + v_env, k_stdout_path);
                lemma_concat_assoc(h + tk + tv, k_job_id + v_job_id + k_cmd + v_cmd + k_env + v_env + k_stdout_path, v_stdout_path);
                lemma_concat_assoc(h + tk + tv, k_job_id + v_job_id + k_cmd + v_cmd + k_env + v_env + k_stdout_path + v_stdout_path, k_stderr_path);
                lemma_concat_assoc(h + tk + tv, k_job_id + v_job_id + k_cmd + v_cmd + k_env + v_env + k_stdout_path + v_stdout_path + k_stderr_path, v_stderr_path);
            }
        },
        ExecRequest::JobStatus { job_id } => {
            enc_uint(out, MAJOR_MAP, 2);
            enc_text(out, "type");
            enc_text(out, "job_status");
            enc_text(out, "job_id");
            enc_text(out, job_id.0.as_str());
            proof {
                reveal(spec_enc_exec_request_fields_job_status);
                let o = old(out)@;
                let h = spec_enc_uint(MAJOR_MAP, 2);
                let tk = spec_enc_text("type"@);
                let tv = spec_enc_text("job_status"@);
                let k_job_id = spec_enc_text("job_id"@);
                let v_job_id = spec_enc_text(job_id@);
                lemma_concat_assoc(o, h, tk);
                lemma_concat_assoc(o, h + tk, tv);
                lemma_concat_assoc(o, h + tk + tv, k_job_id);
                lemma_concat_assoc(o, h + tk + tv + k_job_id, v_job_id);
                lemma_concat_assoc(h + tk + tv, k_job_id, v_job_id);
            }
        },
        ExecRequest::JobSignal { job_id, force } => {
            enc_uint(out, MAJOR_MAP, 3);
            enc_text(out, "type");
            enc_text(out, "job_signal");
            enc_text(out, "job_id");
            enc_text(out, job_id.0.as_str());
            enc_text(out, "force");
            enc_bool(out, *force);
            proof {
                reveal(spec_enc_exec_request_fields_job_signal);
                let o = old(out)@;
                let h = spec_enc_uint(MAJOR_MAP, 3);
                let tk = spec_enc_text("type"@);
                let tv = spec_enc_text("job_signal"@);
                let k_job_id = spec_enc_text("job_id"@);
                let v_job_id = spec_enc_text(job_id@);
                let k_force = spec_enc_text("force"@);
                let v_force = spec_enc_bool(*force);
                lemma_concat_assoc(o, h, tk);
                lemma_concat_assoc(o, h + tk, tv);
                lemma_concat_assoc(o, h + tk + tv, k_job_id);
                lemma_concat_assoc(o, h + tk + tv + k_job_id, v_job_id);
                lemma_concat_assoc(o, h + tk + tv + k_job_id + v_job_id, k_force);
                lemma_concat_assoc(o, h + tk + tv + k_job_id + v_job_id + k_force, v_force);
                lemma_concat_assoc(h + tk + tv, k_job_id, v_job_id);
                lemma_concat_assoc(h + tk + tv, k_job_id + v_job_id, k_force);
                lemma_concat_assoc(h + tk + tv, k_job_id + v_job_id + k_force, v_force);
            }
        },
        ExecRequest::PtyOpen { shell, args, cwd, env, cols, rows } => {
            enc_uint(out, MAJOR_MAP, 7);
            enc_text(out, "type");
            enc_text(out, "pty_open");
            enc_text(out, "shell");
            enc_text(out, shell.as_str());
            enc_text(out, "args");
            enc_texts(out, args);
            enc_text(out, "cwd");
            enc_opt_text(out, cwd);
            enc_text(out, "env");
            enc_env(out, env);
            enc_text(out, "cols");
            enc_u64(out, *cols as u64);
            enc_text(out, "rows");
            enc_u64(out, *rows as u64);
            proof {
                reveal(spec_enc_exec_request_fields_pty_open);
                let o = old(out)@;
                let h = spec_enc_uint(MAJOR_MAP, 7);
                let tk = spec_enc_text("type"@);
                let tv = spec_enc_text("pty_open"@);
                let k_shell = spec_enc_text("shell"@);
                let v_shell = spec_enc_text(shell@);
                let k_args = spec_enc_text("args"@);
                let v_args = spec_enc_texts(args.deep_view());
                let k_cwd = spec_enc_text("cwd"@);
                let v_cwd = spec_enc_opt_text(cwd.deep_view());
                let k_env = spec_enc_text("env"@);
                let v_env = spec_enc_env(env@);
                let k_cols = spec_enc_text("cols"@);
                let v_cols = spec_enc_u64(*cols as u64);
                let k_rows = spec_enc_text("rows"@);
                let v_rows = spec_enc_u64(*rows as u64);
                lemma_concat_assoc(o, h, tk);
                lemma_concat_assoc(o, h + tk, tv);
                lemma_concat_assoc(o, h + tk + tv, k_shell);
                lemma_concat_assoc(o, h + tk + tv + k_shell, v_shell);
                lemma_concat_assoc(o, h + tk + tv + k_shell + v_shell, k_args);
                lemma_concat_assoc(o, h + tk + tv + k_shell + v_shell + k_args, v_args);
                lemma_concat_assoc(o, h + tk + tv + k_shell + v_shell + k_args + v_args, k_cwd);
                lemma_concat_assoc(o, h + tk + tv + k_shell + v_shell + k_args + v_args + k_cwd, v_cwd);
                lemma_concat_assoc(o, h + tk + tv + k_shell + v_shell + k_args + v_args + k_cwd + v_cwd, k_env);
                lemma_concat_assoc(o, h + tk + tv + k_shell + v_shell + k_args + v_args + k_cwd + v_cwd + k_env, v_env);
                lemma_concat_assoc(o, h + tk + tv + k_shell + v_shell + k_args + v_args + k_cwd + v_cwd + k_env + v_env, k_cols);
                lemma_concat_assoc(o, h + tk + tv + k_shell + v_shell + k_args + v_args + k_cwd + v_cwd + k_env + v_env + k_cols, v_cols);
                lemma_concat_assoc(o, h + tk + tv + k_shell + v_shell + k_args + v_args + k_cwd + v_cwd + k_env + v_env + k_cols + v_cols, k_rows);
                lemma_concat_assoc(o, h + tk + tv + k_shell + v_shell + k_args + v_args + k_cwd + v_cwd + k_env + v_env + k_cols + v_cols + k_rows, v_rows);
                lemma_concat_assoc(h + tk + tv, k_shell, v_shell);
                lemma_concat_assoc(h + tk + tv, k_shell + v_shell, k_args);
                lemma_concat_assoc(h + tk + tv, k_shell + v_shell + k_args, v_args);
                lemma_concat_assoc(h + tk + tv, k_shell + v_shell + k_args + v_args, k_cwd);
                lemma_concat_assoc(h + tk + tv, k_shell + v_shell + k_args + v_args + k_cwd, v_cwd);
                lemma_concat_assoc(h + tk + tv, k_shell + v_shell + k_args + v_args + k_cwd + v_cwd, k_env);
                lemma_concat_assoc(h + tk + tv, k_shell + v_shell + k_args + v_args + k_cwd + v_cwd + k_env, v_env);
                lemma_concat_assoc(h + tk + tv, k_shell + v_shell + k_args + v_args + k_cwd + v_cwd + k_env + v_env, k_cols);
                lemma_concat_assoc(h + tk + tv, k_shell + v_shell + k_args + v_args + k_cwd + v_cwd + k_env + v_env + k_cols, v_cols);
                lemma_concat_assoc(h + tk + tv, k_shell + v_shell + k_args + v_args + k_cwd + v_cwd + k_env + v_env + k_cols + v_cols, k_rows);
                lemma_concat_assoc(h + tk + tv, k_shell + v_shell + k_args + v_args + k_cwd + v_cwd + k_env + v_env + k_cols + v_cols + k_rows, v_rows);
            }
        },
        ExecRequest::PtyInput { session_id, data } => {
            enc_uint(out, MAJOR_MAP, 3);
            enc_text(out, "type");
            enc_text(out, "pty_input");
            enc_text(out, "session_id");
            enc_u64(out, session_id.0);
            enc_text(out, "data");
            enc_data(out, data);
            proof {
                reveal(spec_enc_exec_request_fields_pty_input);
                let o = old(out)@;
                let h = spec_enc_uint(MAJOR_MAP, 3);
                let tk = spec_enc_text("type"@);
                let tv = spec_enc_text("pty_input"@);
                let k_session_id = spec_enc_text("session_id"@);
                let v_session_id = spec_enc_u64(session_id.0);
                let k_data = spec_enc_text("data"@);
                let v_data = spec_enc_bytes(data@);
                lemma_concat_assoc(o, h, tk);
                lemma_concat_assoc(o, h + tk, tv);
                lemma_concat_assoc(o, h + tk + tv, k_session_id);
                lemma_concat_assoc(o, h + tk + tv + k_session_id, v_session_id);
                lemma_concat_assoc(o, h + tk + tv + k_session_id + v_session_id, k_data);
                lemma_concat_assoc(o, h + tk + tv + k_session_id + v_session_id + k_data, v_data);
                lemma_concat_assoc(h + tk + tv, k_session_id, v_session_id);
                lemma_concat_assoc(h + tk + tv, k_session_id + v_session_id, k_data);
                lemma_concat_assoc(h + tk + tv, k_session_id + v_session_id + k_data, v_data);
            }
        },
        ExecRequest::PtyRead { session_id, offset, max_bytes, follow, wait_ms } => {
            enc_uint(out, MAJOR_MAP, 6);
            enc_text(out, "type");
            enc_text(out, "pty_read");
            enc_text(out, "session_id");
            enc_u64(out, session_id.0);
            enc_text(out, "offset");
            enc_u64(out, *offset);
            enc_text(out, "max_bytes");
            enc_u64(out, *max_bytes as u64);
            enc_text(out, "follow");
            enc_bool(out, *follow);
            enc_text(out, "wait_ms");
            enc_u64(out, *wait_ms);
            proof {
                reveal(spec_enc_exec_request_fields_pty_read);
                let o = old(out)@;
                let h = spec_enc_uint(MAJOR_MAP, 6);
                let tk = spec_enc_text("type"@);
                let tv = spec_enc_text("pty_read"@);
                let k_session_id = spec_enc_text("session_id"@);
                let v_session_id = spec_enc_u64(session_id.0);
                let k_offset = spec_enc_text("offset"@);
                let v_offset = spec_enc_u64(*offset);
                let k_max_bytes = spec_enc_text("max_bytes"@);
                let v_max_bytes = spec_enc_u64(*max_bytes as u64);
                let k_follow = spec_enc_text("follow"@);
                let v_follow = spec_enc_bool(*follow);
                let k_wait_ms = spec_enc_text("wait_ms"@);
                let v_wait_ms = spec_enc_u64(*wait_ms);
                lemma_concat_assoc(o, h, tk);
                lemma_concat_assoc(o, h + tk, tv);
                lemma_concat_assoc(o, h + tk + tv, k_session_id);
                lemma_concat_assoc(o, h + tk + tv + k_session_id, v_session_id);
                lemma_concat_assoc(o, h + tk + tv + k_session_id + v_session_id, k_offset);
                lemma_concat_assoc(o, h + tk + tv + k_session_id + v_session_id + k_offset, v_offset);
                lemma_concat_assoc(o, h + tk + tv + k_session_id + v_session_id + k_offset + v_offset, k_max_bytes);
                lemma_concat_assoc(o, h + tk + tv + k_session_id + v_session_id + k_offset + v_offset + k_max_bytes, v_max_bytes);
                lemma_concat_assoc(o, h + tk + tv + k_session_id + v_session_id + k_offset + v_offset + k_max_bytes + v_max_bytes, k_follow);
                lemma_concat_assoc(o, h + tk + tv + k_session_id + v_session_id + k_offset + v_offset + k_max_bytes + v_max_bytes + k_follow, v_follow);
                lemma_concat_assoc(o, h + tk + tv + k_session_id + v_session_id + k_offset + v_offset + k_max_bytes + v_max_bytes + k_follow + v_follow, k_wait_ms);
                lemma_concat_assoc(o, h + tk + tv + k_session_id + v_session_id + k_offset + v_offset + k_max_bytes + v_max_bytes + k_follow + v_follow + k_wait_ms, v_wait_ms);
                lemma_concat_assoc(h + tk + tv, k_session_id, v_session_id);
                lemma_concat_assoc(h + tk + tv, k_session_id + v_session_id, k_offset);
                lemma_concat_assoc(h + tk + tv, k_session_id + v_session_id + k_offset, v_offset);
                lemma_concat_assoc(h + tk + tv, k_session_id + v_session_id + k_offset + v_offset, k_max_bytes);
                lemma_concat_assoc(h + tk + tv, k_session_id + v_session_id + k_offset + v_offset + k_max_bytes, v_max_bytes);
                lemma_concat_assoc(h + tk + tv, k_session_id + v_session_id + k_offset + v_offset + k_max_bytes + v_max_bytes, k_follow);
                lemma_concat_assoc(h + tk + tv, k_session_id + v_session_id + k_offset + v_offset + k_max_bytes + v_max_bytes + k_follow, v_follow);
                lemma_concat_assoc(h + tk + tv, k_session_id + v_session_id + k_offset + v_offset + k_max_bytes + v_max_bytes + k_follow + v_follow, k_wait_ms);
                lemma_concat_assoc(h + tk + tv, k_session_id + v_session_id + k_offset + v_offset + k_max_bytes + v_max_bytes + k_follow + v_follow + k_wait_ms, v_wait_ms);
            }
        },
        ExecRequest::PtyResize { session_id, cols, rows } => {
            enc_uint(out, MAJOR_MAP, 4);
            enc_text(out, "type");
            enc_text(out, "pty_resize");
            enc_text(out, "session_id");
            enc_u64(out, session_id.0);
            enc_text(out, "cols");
            enc_u64(out, *cols as u64);
            enc_text(out, "rows");
            enc_u64(out, *rows as u64);
            proof {
                reveal(spec_enc_exec_request_fields_pty_resize);
                let o = old(out)@;
                let h = spec_enc_uint(MAJOR_MAP, 4);
                let tk = spec_enc_text("type"@);
                let tv = spec_enc_text("pty_resize"@);
                let k_session_id = spec_enc_text("session_id"@);
                let v_session_id = spec_enc_u64(session_id.0);
                let k_cols = spec_enc_text("cols"@);
                let v_cols = spec_enc_u64(*cols as u64);
                let k_rows = spec_enc_text("rows"@);
                let v_rows = spec_enc_u64(*rows as u64);
                lemma_concat_assoc(o, h, tk);
                lemma_concat_assoc(o, h + tk, tv);
                lemma_concat_assoc(o, h + tk + tv, k_session_id);
                lemma_concat_assoc(o, h + tk + tv + k_session_id, v_session_id);
                lemma_concat_assoc(o, h + tk + tv + k_session_id + v_session_id, k_cols);
                lemma_concat_assoc(o, h + tk + tv + k_session_id + v_session_id + k_cols, v_cols);
                lemma_concat_assoc(o, h + tk + tv + k_session_id + v_session_id + k_cols + v_cols, k_rows);
                lemma_concat_assoc(o, h + tk + tv + k_session_id + v_session_id + k_cols + v_cols + k_rows, v_rows);
                lemma_concat_assoc(h + tk + tv, k_session_id, v_session_id);
                lemma_concat_assoc(h + tk + tv, k_session_id + v_session_id, k_cols);
                lemma_concat_assoc(h + tk + tv, k_session_id + v_session_id + k_cols, v_cols);
                lemma_concat_assoc(h + tk + tv, k_session_id + v_session_id + k_cols + v_cols, k_rows);
                lemma_concat_assoc(h + tk + tv, k_session_id + v_session_id + k_cols + v_cols + k_rows, v_rows);
            }
        },
        ExecRequest::PtyClose { session_id, force } => {
            enc_uint(out, MAJOR_MAP, 3);
            enc_text(out, "type");
            enc_text(out, "pty_close");
            enc_text(out, "session_id");
            enc_u64(out, session_id.0);
            enc_text(out, "force");
            enc_bool(out, *force);
            proof {
                reveal(spec_enc_exec_request_fields_pty_close);
                let o = old(out)@;
                let h = spec_enc_uint(MAJOR_MAP, 3);
                let tk = spec_enc_text("type"@);
                let tv = spec_enc_text("pty_close"@);
                let k_session_id = spec_enc_text("session_id"@);
                let v_session_id = spec_enc_u64(session_id.0);
                let k_force = spec_enc_text("force"@);
                let v_force = spec_enc_bool(*force);
                lemma_concat_assoc(o, h, tk);
                lemma_concat_assoc(o, h + tk, tv);
                lemma_concat_assoc(o, h + tk + tv, k_session_id);
                lemma_concat_assoc(o, h + tk + tv + k_session_id, v_session_id);
                lemma_concat_assoc(o, h + tk + tv + k_session_id + v_session_id, k_force);
                lemma_concat_assoc(o, h + tk + tv + k_session_id + v_session_id + k_force, v_force);
                lemma_concat_assoc(h + tk + tv, k_session_id, v_session_id);
                lemma_concat_assoc(h + tk + tv, k_session_id + v_session_id, k_force);
                lemma_concat_assoc(h + tk + tv, k_session_id + v_session_id + k_force, v_force);
            }
        },
        ExecRequest::UsageProbe { job_id } => {
            enc_uint(out, MAJOR_MAP, 2);
            enc_text(out, "type");
            enc_text(out, "usage_probe");
            enc_text(out, "job_id");
            enc_text(out, job_id.0.as_str());
            proof {
                reveal(spec_enc_exec_request_fields_usage_probe);
                let o = old(out)@;
                let h = spec_enc_uint(MAJOR_MAP, 2);
                let tk = spec_enc_text("type"@);
                let tv = spec_enc_text("usage_probe"@);
                let k_job_id = spec_enc_text("job_id"@);
                let v_job_id = spec_enc_text(job_id@);
                lemma_concat_assoc(o, h, tk);
                lemma_concat_assoc(o, h + tk, tv);
                lemma_concat_assoc(o, h + tk + tv, k_job_id);
                lemma_concat_assoc(o, h + tk + tv + k_job_id, v_job_id);
                lemma_concat_assoc(h + tk + tv, k_job_id, v_job_id);
            }
        },
        ExecRequest::Shutdown { force } => {
            enc_uint(out, MAJOR_MAP, 2);
            enc_text(out, "type");
            enc_text(out, "shutdown");
            enc_text(out, "force");
            enc_bool(out, *force);
            proof {
                reveal(spec_enc_exec_request_fields_shutdown);
                let o = old(out)@;
                let h = spec_enc_uint(MAJOR_MAP, 2);
                let tk = spec_enc_text("type"@);
                let tv = spec_enc_text("shutdown"@);
                let k_force = spec_enc_text("force"@);
                let v_force = spec_enc_bool(*force);
                lemma_concat_assoc(o, h, tk);
                lemma_concat_assoc(o, h + tk, tv);
                lemma_concat_assoc(o, h + tk + tv, k_force);
                lemma_concat_assoc(o, h + tk + tv + k_force, v_force);
                lemma_concat_assoc(h + tk + tv, k_force, v_force);
            }
        },
    }
}

/// Reads the fields of the hello form at `pos`.
#[verifier::rlimit(100)]
fn dec_exec_request_form_hello(buf: &[u8], cnt: u64, pos: usize) -> (r: Option<(ExecRequest, usize)>)
    requires
        pos <= buf@.len(),
    ensures
        ({
            let s = buf@.skip(pos as int);
            match spec_dec_exec_request_form_hello(cnt, s) {
                Some((v, rem)) => r matches Some((ov, end)) && ov@ == v && pos <= end
                    <= buf@.len() && buf@.skip(end as int) == rem,
                None => r is None,
            }
        }),
{
    reveal(spec_dec_exec_request_form_hello);
    if cnt != 4 {
        return None;
    }
    let Some(q0) = dec_key(buf, pos, "protocol") else { return None };
    let Some((protocol, q1)) = dec_u32(buf, q0) else { return None };
    let Some(q2) = dec_key(buf, q1, "auth_token") else { return None };
    let Some((auth_token, q3)) = dec_text(buf, q2) else { return None };
    let Some(q4) = dec_key(buf, q3, "cell_id") else { return None };
    let Some((cell_id, q5)) = dec_text(buf, q4) else { return None };
    Some((ExecRequest::Hello { protocol, auth_token, cell_id }, q5))
}

/// Reads the fields of the ping form at `pos`.
#[verifier::rlimit(100)]
fn dec_exec_request_form_ping(buf: &[u8], cnt: u64, pos: usize) -> (r: Option<(ExecRequest, usize)>)
    requires
        pos <= buf@.len(),
    ensures
        ({
            let s = buf@.skip(pos as int);
            match spec_dec_exec_request_form_ping(cnt, s) {
                Some((v, rem)) => r matches Some((ov, end)) && ov@ == v && pos <= end
                    <= buf@.len() && buf@.skip(end as int) == rem,
                None => r is None,
            }
        }),
{
    reveal(spec_dec_exec_request_form_ping);
    if cnt != 1 {
        return None;
    }
    Some((ExecRequest::Ping {  }, pos))
}

/// Reads the fields of the run_job form at `pos`.
#[verifier::rlimit(100)]
fn dec_exec_request_form_run_job(buf: &[u8], cnt: u64, pos: usize) -> (r: Option<(ExecRequest, usize)>)
    requires
        pos <= buf@.len(),
    ensures
        ({
            let s = buf@.skip(pos as int);
            match spec_dec_exec_request_form_run_job(cnt, s) {
                Some((v, rem)) => r matches Some((ov, end)) && ov@ == v && pos <= end
                    <= buf@.len() && buf@.skip(end as int) == rem,
                None => r is None,
            }
        }),
{
    reveal(spec_dec_exec_request_form_run_job);
    if cnt != 6 {
        return None;
    }
    let Some(q0) = dec_key(buf, pos, "job_id") else { return None };
    let Some((job_id, q1)) = dec_text(buf, q0) else { return None };
    let Some(q2) = dec_key(buf, q1, "cmd") else { return None };
    let Some((cmd, q3)) = dec_cmd(buf, q2) else { return None };
    let Some(q4) = dec_key(buf, q3, "env") else { return None };
    let Some((env, q5)) = dec_env(buf, q4) else { return None };
    let Some(q6) = dec_key(buf, q5, "stdout_path") else { return None };
    let Some((stdout_path, q7)) = dec_text(buf, q6) else { return None };
    let Some(q8) = dec_key(buf, q7, "stderr_path") else { return None };
    let Some((stderr_path, q9)) = dec_text(buf, q8) else { return None };
    Some((ExecRequest::RunJob { job_id: JobId(job_id), cmd, env, stdout_path, stderr_path }, q9))
}

/// Reads the fields of the job_status form at `pos`.
#[verifier::rlimit(100)]
fn dec_exec_request_form_job_status(buf: &[u8], cnt: u64, pos: usize) -> (r: Option<(ExecRequest, usize)>)
    requires
        pos <= buf@.len(),
    ensures
        ({
            let s = buf@.skip(pos as int);
            match spec_dec_exec_request_form_job_status(cnt, s) {
                Some((v, rem)) => r matches Some((ov, end)) && ov@ == v && pos <= end
                    <= buf@.len() && buf@.skip(end as int) == rem,
                None => r is None,
            }
        }),
{
    reveal(spec_dec_exec_request_form_job_status);
    if cnt != 2 {
        return None;
    }
    let Some(q0) = dec_key(buf, pos, "job_id") else { return None };
    let Some((job_id, q1)) = dec_text(buf, q0) else { return None };
    Some((ExecRequest::JobStatus { job_id: JobId(job_id) }, q1))
}

/// Reads the fields of the job_signal form at `pos`.
#[verifier::rlimit(100)]
fn dec_exec_request_form_job_signal(buf: &[u8], cnt: u64, pos: usize) -> (r: Option<(ExecRequest, usize)>)
    requires
        pos <= buf@.len(),
    ensures
        ({
            let s = buf@.skip(pos as int);
            match spec_dec_exec_request_form_job_signal(cnt, s) {
                Some((v, rem)) => r matches Some((ov, end)) && ov@ == v && pos <= end
                    <= buf@.len() && buf@.skip(end as int) == rem,
                None => r is None,
            }
        }),
{
    reveal(spec_dec_exec_request_form_job_signal);
    if cnt != 3 {
        return None;
    }
    let Some(q0) = dec_key(buf, pos, "job_id") else { return None };
    let Some((job_id, q1)) = dec_text(buf, q0) else { return None };
    let Some(q2) = dec_key(buf, q1, "force") else { return None };
    let Some((force, q3)) = dec_bool(buf, q2) else { return None };
    Some((ExecRequest::JobSignal { job_id: JobId(job_id), force }, q3))
}

/// Reads the fields of the pty_open form at `pos`.
#[verifier::rlimit(100)]
fn dec_exec_request_form_pty_open(buf: &[u8], cnt: u64, pos: usize) -> (r: Option<(ExecRequest, usize)>)
    requires
        pos <= buf@.len(),
    ensures
        ({
            let s = buf@.skip(pos as int);
            match spec_dec_exec_request_form_pty_open(cnt, s) {
                Some((v, rem)) => r matches Some((ov, end)) && ov@ == v && pos <= end
                    <= buf@.len() && buf@.skip(end as int) == rem,
                None => r is None,
            }
        }),
{
    reveal(spec_dec_exec_request_form_pty_open);
    if cnt != 7 {
        return None;
    }
    let Some(q0) = dec_key(buf, pos, "shell") else { return None };
    let Some((shell, q1)) = dec_text(buf, q0) else { return None };
    let Some(q2) = dec_key(buf, q1, "args") else { return None };
    let Some((args, q3)) = dec_texts(buf, q2) else { return None };
    let Some(q4) = dec_key(buf, q3, "cwd") else { return None };
    let Some((cwd, q5)) = dec_opt_text(buf, q4) else { return None };
    let Some(q6) = dec_key(buf, q5, "env") else { return None };
    let Some((env, q7)) = dec_env(buf, q6) else { return None };
    let Some(q8) = dec_key(buf, q7, "cols") else { return None };
    let Some((cols, q9)) = dec_u16(buf, q8) else { return None };
    let Some(q10) = dec_key(buf, q9, "rows") else { return None };
    let Some((rows, q11)) = dec_u16(buf, q10) else { return None };
    Some((ExecRequest::PtyOpen { shell, args, cwd, env, cols, rows }, q11))
}

/// Reads the fields of the pty_input form at `pos`.
#[verifier::rlimit(100)]
fn dec_exec_request_form_pty_input(buf: &[u8], cnt: u64, pos: usize) -> (r: Option<(ExecRequest, usize)>)
    requires
        pos <= buf@.len(),
    ensures
        ({
            let s = buf@.skip(pos as int);
            match spec_dec_exec_request_form_pty_input(cnt, s) {
                Some((v, rem)) => r matches Some((ov, end)) && ov@ == v && pos <= end
                    <= buf@.len() && buf@.skip(end as int) == rem,
                None => r is None,
            }
        }),
{
    reveal(spec_dec_exec_request_form_pty_input);
    if cnt != 3 {
        return None;
    }
    let Some(q0) = dec_key(buf, pos, "session_id") else { return None };
    let Some((session_id, q1)) = dec_u64(buf, q0) else { return None };
    let Some(q2) = dec_key(buf, q1, "data") else { return None };
    let Some((data, q3)) = dec_data(buf, q2) else { return None };
    Some((ExecRequest::PtyInput { session_id: SessionId(session_id), data }, q3))
}

/// Reads the fields of the pty_read form at `pos`.
#[verifier::rlimit(100)]
fn dec_exec_request_form_pty_read(buf: &[u8], cnt: u64, pos: usize) -> (r: Option<(ExecRequest, usize)>)
    requires
        pos <= buf@.len(),
    ensures
        ({
            let s = buf@.skip(pos as int);
            match spec_dec_exec_request_form_pty_read(cnt, s) {
                Some((v, rem)) => r matches Some((ov, end)) && ov@ == v && pos <= end
                    <= buf@.len() && buf@.skip(end as int) == rem,
                None => r is None,
            }
        }),
{
    reveal(spec_dec_exec_request_form_pty_read);
    if cnt != 6 {
        return None;
    }
    let Some(q0) = dec_key(buf, pos, "session_id") else { return None };
    let Some((session_id, q1)) = dec_u64(buf, q0) else { return None };
    let Some(q2) = dec_key(buf, q1, "offset") else { return None };
    let Some((offset, q3)) = dec_u64(buf, q2) else { return None };
    let Some(q4) = dec_key(buf, q3, "max_bytes") else { return None };
    let Some((max_bytes, q5)) = dec_u32(buf, q4) else { return None };
    let Some(q6) = dec_key(buf, q5, "follow") else { return None };
    let Some((follow, q7)) = dec_bool(buf, q6) else { return None };
    let Some(q8) = dec_key(buf, q7, "wait_ms") else { return None };
    let Some((wait_ms, q9)) = dec_u64(buf, q8) else { return None };
    Some((ExecRequest::PtyRead { session_id: SessionId(session_id), offset, max_bytes, follow, wait_ms }, q9))
}

/// Reads the fields of the pty_resize form at `pos`.
#[verifier::rlimit(100)]
fn dec_exec_request_form_pty_resize(buf: &[u8], cnt: u64, pos: usize) -> (r: Option<(ExecRequest, usize)>)
    requires
        pos <= buf@.len(),
    ensures
        ({
            let s = buf@.skip(pos as int);
            match spec_dec_exec_request_form_pty_resize(cnt, s) {
                Some((v, rem)) => r matches Some((ov, end)) && ov@ == v && pos <= end
                    <= buf@.len() && buf@.skip(end as int) == rem,
                None => r is None,
            }
        }),
{
    reveal(spec_dec_exec_request_form_pty_resize);
    if cnt != 4 {
        return None;
    }
    let Some(q0) = dec_key(buf, pos, "session_id") else { return None };
    let Some((session_id, q1)) = dec_u64(buf, q0) else { return None };
    let Some(q2) = dec_key(buf, q1, "cols") else { return None };
    let Some((cols, q3)) = dec_u16(buf, q2) else { return None };
    let Some(q4) = dec_key(buf, q3, "rows") else { return None };
    let Some((rows, q5)) = dec_u16(buf, q4) else { return None };
    Some((ExecRequest::PtyResize { session_id: SessionId(session_id), cols, rows }, q5))
}

/// Reads the fields of the pty_close form at `pos`.
#[verifier::rlimit(100)]
fn dec_exec_request_form_pty_close(buf: &[u8], cnt: u64, pos: usize) -> (r: Option<(ExecRequest, usize)>)
    requires
        pos <= buf@.len(),
    ensures
        ({
            let s = buf@.skip(pos as int);
            match spec_dec_exec_request_form_pty_close(cnt, s) {
                Some((v, rem)) => r matches Some((ov, end)) && ov@ == v && pos <= end
                    <= buf@.len() && buf@.skip(end as int) == rem,
                None => r is None,
            }
        }),
{
    reveal(spec_dec_exec_request_form_pty_close);
    if cnt != 3 {
        return None;
    }
    let Some(q0) = dec_key(buf, pos, "session_id") else { return None };
    let Some((session_id, q1)) = dec_u64(buf, q0) else { return None };
    let Some(q2) = dec_key(buf, q1, "force") else { return None };
    let Some((force, q3)) = dec_bool(buf, q2) else { return None };
    Some((ExecRequest::PtyClose { session_id: SessionId(session_id), force }, q3))
}

/// Reads the fields of the usage_probe form at `pos`.
#[verifier::rlimit(100)]
fn dec_exec_request_form_usage_probe(buf: &[u8], cnt: u64, pos: usize) -> (r: Option<(ExecRequest, usize)>)
    requires
        pos <= buf@.len(),
    ensures
        ({
            let s = buf@.skip(pos as int);
            match spec_dec_exec_request_form_usage_probe(cnt, s) {
                Some((v, rem)) => r matches Some((ov, end)) && ov@ == v && pos <= end
                    <= buf@.len() && buf@.skip(end as int) == rem,
                None => r is None,
            }
        }),
{
    reveal(spec_dec_exec_request_form_usage_probe);
    if cnt != 2 {
        return None;
    }
    let Some(q0) = dec_key(buf, pos, "job_id") else { return None };
    let Some((job_id, q1)) = dec_text(buf, q0) else { return None };
    Some((ExecRequest::UsageProbe { job_id: JobId(job_id) }, q1))
}

/// Reads the fields of the shutdown form at `pos`.
#[verifier::rlimit(100)]
fn dec_exec_request_form_shutdown(buf: &[u8], cnt: u64, pos: usize) -> (r: Option<(ExecRequest, usize)>)
    requires
        pos <= buf@.len(),
    ensures
        ({
            let s = buf@.skip(pos as int);
            match spec_dec_exec_request_form_shutdown(cnt, s) {
                Some((v, rem)) => r matches Some((ov, end)) && ov@ == v && pos <= end
                    <= buf@.len() && buf@.skip(end as int) == rem,
                None => r is None,
            }
        }),
{
    reveal(spec_dec_exec_request_form_shutdown);
    if cnt != 2 {
        return None;
    }
    let Some(q0) = dec_key(buf, pos, "force") else { return None };
    let Some((force, q1)) = dec_bool(buf, q0) else { return None };
    Some((ExecRequest::Shutdown { force }, q1))
}

/// Reads a exec_request body at `pos`.
#[verifier::rlimit(100)]
pub fn dec_exec_request(buf: &[u8], pos: usize) -> (r: Option<(ExecRequest, usize)>)
    requires
        pos <= buf@.len(),
    ensures
        ({
            let s = buf@.skip(pos as int);
            match spec_dec_exec_request(s) {
                Some((v, rem)) => r matches Some((ov, end)) && ov@ == v && pos <= end
                    <= buf@.len() && buf@.skip(end as int) == rem,
                None => r is None,
            }
        }),
{
    let Some((cnt, p0)) = dec_map_head(buf, pos) else { return None };
    let Some(p1) = dec_key(buf, p0, "type") else { return None };
    let Some((ts, te)) = dec_segment(buf, p1, MAJOR_TEXT) else { return None };
    if seg_is(buf, ts, te, "hello") {
        dec_exec_request_form_hello(buf, cnt, te)
    } else if seg_is(buf, ts, te, "ping") {
        dec_exec_request_form_ping(buf, cnt, te)
    } else if seg_is(buf, ts, te, "run_job") {
        dec_exec_request_form_run_job(buf, cnt, te)
    } else if seg_is(buf, ts, te, "job_status") {
        dec_exec_request_form_job_status(buf, cnt, te)
    } else if seg_is(buf, ts, te, "job_signal") {
        dec_exec_request_form_job_signal(buf, cnt, te)
    } else if seg_is(buf, ts, te, "pty_open") {
        dec_exec_request_form_pty_open(buf, cnt, te)
    } else if seg_is(buf, ts, te, "pty_input") {
        dec_exec_request_form_pty_input(buf, cnt, te)
    } else if seg_is(buf, ts, te, "pty_read") {
        dec_exec_request_form_pty_read(buf, cnt, te)
    } else if seg_is(buf, ts, te, "pty_resize") {
        dec_exec_request_form_pty_resize(buf, cnt, te)
    } else if seg_is(buf, ts, te, "pty_close") {
        dec_exec_request_form_pty_close(buf, cnt, te)
    } else if seg_is(buf, ts, te, "usage_probe") {
        dec_exec_request_form_usage_probe(buf, cnt, te)
    } else if seg_is(buf, ts, te, "shutdown") {
        dec_exec_request_form_shutdown(buf, cnt, te)
    } else {
        None
    }
}

/// A exec_request envelope model whose body fits wire lengths.
pub open spec fn exec_request_envelope_fits(m: ExecEnvelopeV<ExecRequestV>) -> bool {
    exec_request_fits(m.body)
}

/// Encoded exec_request envelope.
pub open spec fn spec_enc_exec_request_envelope(m: ExecEnvelopeV<ExecRequestV>) -> Seq<u8> {
    spec_enc_uint(MAJOR_MAP, 2) + spec_enc_text("req_id"@) + spec_enc_u64(m.req_id)
        + spec_enc_text("body"@) + spec_enc_exec_request(m.body)
}

/// Parses a exec_request envelope.
pub open spec fn spec_dec_exec_request_envelope(b: Seq<u8>) -> Option<(ExecEnvelopeV<ExecRequestV>, Seq<u8>)> {
    match spec_dec_head(b) {
        Some((m, cnt, r0)) => {
            if m != MAJOR_MAP || cnt != 2 {
                None
            } else {
                match spec_dec_key(r0, "req_id"@) {
                    Some(r1) => {
                        match spec_dec_u64(r1) {
                            Some((req_id, r2)) => {
                                match spec_dec_key(r2, "body"@) {
                                    Some(r3) => {
                                        match spec_dec_exec_request(r3) {
                                            Some((body, r4)) => Some(
                                                (ExecEnvelopeV { req_id, body }, r4),
                                            ),
                                            None => None,
                                        }
                                    },
                                    None => None,
                                }
                            },
                            None => None,
                        }
                    },
                    None => None,
                }
            }
        },
        None => None,
    }
}

/// Parses a complete exec_request envelope frame, rejecting trailing bytes.
pub open spec fn spec_decode_exec_request(b: Seq<u8>) -> Option<ExecEnvelopeV<ExecRequestV>> {
    match spec_dec_exec_request_envelope(b) {
        Some((m, rem)) => {
            if rem.len() == 0 {
                Some(m)
            } else {
                None
            }
        },
        None => None,
    }
}

/// Decoding a exec_request envelope inverts encoding one.
pub proof fn lemma_dec_exec_request_envelope_enc(m: ExecEnvelopeV<ExecRequestV>, rest: Seq<u8>)
    requires
        exec_request_envelope_fits(m),
    ensures
        spec_dec_exec_request_envelope(spec_enc_exec_request_envelope(m) + rest) == Some((m, rest)),
{
    reveal_strlit("req_id");
    reveal_strlit("body");
    assert("req_id"@.len() == 6);
    assert("body"@.len() == 4);
    lemma_short_text_fits("req_id"@);
    lemma_short_text_fits("body"@);
    let h = spec_enc_uint(MAJOR_MAP, 2);
    let k1 = spec_enc_text("req_id"@);
    let v1 = spec_enc_u64(m.req_id);
    let k2 = spec_enc_text("body"@);
    let v2 = spec_enc_exec_request(m.body);
    lemma_concat_assoc(h + k1 + v1 + k2, v2, rest);
    lemma_concat_assoc(h + k1 + v1, k2, (v2 + rest));
    lemma_concat_assoc(h + k1, v1, (k2 + (v2 + rest)));
    lemma_concat_assoc(h, k1, (v1 + (k2 + (v2 + rest))));
    lemma_dec_head_enc(MAJOR_MAP, 2, (k1 + (v1 + (k2 + (v2 + rest)))));
    lemma_dec_key_enc("req_id"@, (v1 + (k2 + (v2 + rest))));
    lemma_dec_u64_enc(m.req_id, (k2 + (v2 + rest)));
    lemma_dec_key_enc("body"@, (v2 + rest));
    lemma_dec_exec_request_enc(m.body, rest);
}

/// A well-formed exec_request envelope decodes back to itself.
///
/// For every envelope whose strings fit wire lengths, decoding the
/// encoded frame yields the original envelope exactly.
pub proof fn lemma_exec_request_roundtrip(m: ExecEnvelopeV<ExecRequestV>)
    requires
        exec_request_envelope_fits(m),
    ensures
        spec_decode_exec_request(spec_enc_exec_request_envelope(m)) == Some(m),
{
    lemma_dec_exec_request_envelope_enc(m, Seq::empty());
    assert(spec_enc_exec_request_envelope(m) + Seq::<u8>::empty() =~= spec_enc_exec_request_envelope(m));
}

/// Encodes a exec_request envelope into a fresh frame payload.
pub fn encode_exec_request(v: &ExecRequestEnvelope) -> (r: Vec<u8>)
    ensures
        r@ == spec_enc_exec_request_envelope(v@),
{
    let mut out: Vec<u8> = Vec::new();
    enc_uint(&mut out, MAJOR_MAP, 2);
    enc_text(&mut out, "req_id");
    enc_u64(&mut out, v.req_id);
    enc_text(&mut out, "body");
    enc_exec_request(&mut out, &v.body);
    proof {
        let o = Seq::<u8>::empty();
        let h = spec_enc_uint(MAJOR_MAP, 2);
        let k1 = spec_enc_text("req_id"@);
        let v1 = spec_enc_u64(v@.req_id);
        let k2 = spec_enc_text("body"@);
        let v2 = spec_enc_exec_request(v@.body);
        lemma_concat_assoc(o, h, k1);
        lemma_concat_assoc(o, h + k1, v1);
        lemma_concat_assoc(o, h + k1 + v1, k2);
        lemma_concat_assoc(o, h + k1 + v1 + k2, v2);
        assert(o + (h + k1 + v1 + k2 + v2) =~= h + k1 + v1 + k2 + v2);
    }
    out
}

/// Decodes a complete exec_request envelope frame.
pub fn decode_exec_request(buf: &[u8]) -> (r: Option<ExecRequestEnvelope>)
    ensures
        match spec_decode_exec_request(buf@) {
            Some(m) => r matches Some(v) && v@ == m,
            None => r is None,
        },
{
    let ghost s0 = buf@.skip(0);
    proof {
        assert(buf@.skip(0) =~= buf@);
    }
    let Some((cnt, p0)) = dec_map_head(buf, 0) else { return None };
    if cnt != 2 {
        return None;
    }
    let Some(p1) = dec_key(buf, p0, "req_id") else { return None };
    let Some((req_id, p2)) = dec_u64(buf, p1) else { return None };
    let Some(p3) = dec_key(buf, p2, "body") else { return None };
    let Some((body, p4)) = dec_exec_request(buf, p3) else { return None };
    if p4 != buf.len() {
        proof {
            assert(buf@.skip(p4 as int).len() != 0);
        }
        return None;
    }
    proof {
        assert(buf@.skip(p4 as int).len() == 0);
    }
    Some(ExecRequestEnvelope { req_id, body })
}

} // verus!
