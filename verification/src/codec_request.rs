//! Wire codec of client request bodies and their envelopes.

use vstd::prelude::*;
use vstd::utf8::encode_utf8;
use crate::cbor::{
    dec_bool, dec_key, dec_map_head, dec_segment, dec_text, dec_u16, dec_u32, dec_u64, enc_bool,
    enc_text, enc_u64, enc_uint, lemma_dec_bool_enc, lemma_dec_bytes_enc, lemma_dec_head_enc,
    lemma_dec_key_enc, lemma_dec_segment_enc_text, lemma_dec_text_enc, lemma_dec_u16_enc,
    lemma_dec_u32_enc, lemma_dec_u64_enc, seg_is, spec_dec_bool, spec_dec_bytes, spec_dec_head,
    spec_dec_key, spec_dec_segment, spec_dec_text, spec_dec_u16, spec_dec_u32, spec_dec_u64,
    spec_enc_bool, spec_enc_bytes, spec_enc_text, spec_enc_u64, spec_enc_uint, MAJOR_MAP,
    MAJOR_TEXT,
};
use crate::codec_basic::{
    dec_log_stream, dec_opt_text, enc_log_stream, enc_opt_text, lemma_dec_log_stream_enc,
    lemma_dec_opt_text_enc, lemma_short_text_fits, spec_dec_log_stream, spec_dec_opt_text,
    spec_enc_log_stream, spec_enc_opt_text, text_fits,
};
use crate::codec_seq::{
    dec_data, dec_env, dec_texts, enc_data, enc_env, enc_texts, env_fits, lemma_dec_env_enc,
    lemma_dec_texts_enc, spec_dec_env, spec_dec_texts, spec_enc_env, spec_enc_texts, texts_fit,
};
use crate::codec_structs::{
    cell_spec_fits, cmd_fits, dec_cell_spec, dec_cmd, enc_cell_spec, enc_cmd,
    lemma_dec_cell_spec_enc, lemma_dec_cmd_enc, spec_dec_cell_spec, spec_dec_cmd,
    spec_enc_cell_spec, spec_enc_cmd,
};
use crate::ids::{CellId, JobId, ReqId, SessionId};
use crate::protocol::{Request, RequestEnvelope, RequestV, EnvelopeV};
use crate::textutil::{lemma_concat_assoc, lemma_utf8_ne};

verus! {

/// Character-level facts about the request tags.
proof fn lemma_request_tags()
    ensures
        "version"@.len() == 7,
        "health"@.len() == 6,
        "cell_create"@.len() == 11,
        "job_run"@.len() == 7,
        "job_status"@.len() == 10,
        "job_kill"@.len() == 8,
        "cell_remove"@.len() == 11,
        "logs_read"@.len() == 9,
        "pty_open"@.len() == 8,
        "pty_input"@.len() == 9,
        "pty_read"@.len() == 8,
        "pty_resize"@.len() == 10,
        "pty_close"@.len() == 9,
        text_fits("version"@),
        text_fits("health"@),
        text_fits("cell_create"@),
        text_fits("job_run"@),
        text_fits("job_status"@),
        text_fits("job_kill"@),
        text_fits("cell_remove"@),
        text_fits("logs_read"@),
        text_fits("pty_open"@),
        text_fits("pty_input"@),
        text_fits("pty_read"@),
        text_fits("pty_resize"@),
        text_fits("pty_close"@),
        "version"@ != "health"@,
        "version"@ != "cell_create"@,
        "version"@ != "job_run"@,
        "version"@ != "job_status"@,
        "version"@ != "job_kill"@,
        "version"@ != "cell_remove"@,
        "version"@ != "logs_read"@,
        "version"@ != "pty_open"@,
        "version"@ != "pty_input"@,
        "version"@ != "pty_read"@,
        "version"@ != "pty_resize"@,
        "version"@ != "pty_close"@,
        "health"@ != "cell_create"@,
        "health"@ != "job_run"@,
        "health"@ != "job_status"@,
        "health"@ != "job_kill"@,
        "health"@ != "cell_remove"@,
        "health"@ != "logs_read"@,
        "health"@ != "pty_open"@,
        "health"@ != "pty_input"@,
        "health"@ != "pty_read"@,
        "health"@ != "pty_resize"@,
        "health"@ != "pty_close"@,
        "cell_create"@ != "job_run"@,
        "cell_create"@ != "job_status"@,
        "cell_create"@ != "job_kill"@,
        "cell_create"@ != "cell_remove"@,
        "cell_create"@ != "logs_read"@,
        "cell_create"@ != "pty_open"@,
        "cell_create"@ != "pty_input"@,
        "cell_create"@ != "pty_read"@,
        "cell_create"@ != "pty_resize"@,
        "cell_create"@ != "pty_close"@,
        "job_run"@ != "job_status"@,
        "job_run"@ != "job_kill"@,
        "job_run"@ != "cell_remove"@,
        "job_run"@ != "logs_read"@,
        "job_run"@ != "pty_open"@,
        "job_run"@ != "pty_input"@,
        "job_run"@ != "pty_read"@,
        "job_run"@ != "pty_resize"@,
        "job_run"@ != "pty_close"@,
        "job_status"@ != "job_kill"@,
        "job_status"@ != "cell_remove"@,
        "job_status"@ != "logs_read"@,
        "job_status"@ != "pty_open"@,
        "job_status"@ != "pty_input"@,
        "job_status"@ != "pty_read"@,
        "job_status"@ != "pty_resize"@,
        "job_status"@ != "pty_close"@,
        "job_kill"@ != "cell_remove"@,
        "job_kill"@ != "logs_read"@,
        "job_kill"@ != "pty_open"@,
        "job_kill"@ != "pty_input"@,
        "job_kill"@ != "pty_read"@,
        "job_kill"@ != "pty_resize"@,
        "job_kill"@ != "pty_close"@,
        "cell_remove"@ != "logs_read"@,
        "cell_remove"@ != "pty_open"@,
        "cell_remove"@ != "pty_input"@,
        "cell_remove"@ != "pty_read"@,
        "cell_remove"@ != "pty_resize"@,
        "cell_remove"@ != "pty_close"@,
        "logs_read"@ != "pty_open"@,
        "logs_read"@ != "pty_input"@,
        "logs_read"@ != "pty_read"@,
        "logs_read"@ != "pty_resize"@,
        "logs_read"@ != "pty_close"@,
        "pty_open"@ != "pty_input"@,
        "pty_open"@ != "pty_read"@,
        "pty_open"@ != "pty_resize"@,
        "pty_open"@ != "pty_close"@,
        "pty_input"@ != "pty_read"@,
        "pty_input"@ != "pty_resize"@,
        "pty_input"@ != "pty_close"@,
        "pty_read"@ != "pty_resize"@,
        "pty_read"@ != "pty_close"@,
        "pty_resize"@ != "pty_close"@,
{
    reveal_strlit("version");
    reveal_strlit("health");
    reveal_strlit("cell_create");
    reveal_strlit("job_run");
    reveal_strlit("job_status");
    reveal_strlit("job_kill");
    reveal_strlit("cell_remove");
    reveal_strlit("logs_read");
    reveal_strlit("pty_open");
    reveal_strlit("pty_input");
    reveal_strlit("pty_read");
    reveal_strlit("pty_resize");
    reveal_strlit("pty_close");
    assert("version"@.len() == 7);
    assert("health"@.len() == 6);
    assert("cell_create"@.len() == 11);
    assert("job_run"@.len() == 7);
    assert("job_status"@.len() == 10);
    assert("job_kill"@.len() == 8);
    assert("cell_remove"@.len() == 11);
    assert("logs_read"@.len() == 9);
    assert("pty_open"@.len() == 8);
    assert("pty_input"@.len() == 9);
    assert("pty_read"@.len() == 8);
    assert("pty_resize"@.len() == 10);
    assert("pty_close"@.len() == 9);
    assert("version"@[0] == 'v');
    assert("job_run"@[0] == 'j');
    assert("cell_create"@[5] == 'c');
    assert("cell_remove"@[5] == 'r');
    assert("job_status"@[0] == 'j');
    assert("pty_resize"@[0] == 'p');
    assert("job_kill"@[0] == 'j');
    assert("pty_open"@[0] == 'p');
    assert("pty_read"@[0] == 'p');
    assert("logs_read"@[0] == 'l');
    assert("pty_input"@[0] == 'p');
    assert("pty_close"@[0] == 'p');
    assert("pty_open"@[4] == 'o');
    assert("pty_read"@[4] == 'r');
    assert("pty_input"@[4] == 'i');
    assert("pty_close"@[4] == 'c');
    lemma_short_text_fits("version"@);
    lemma_short_text_fits("health"@);
    lemma_short_text_fits("cell_create"@);
    lemma_short_text_fits("job_run"@);
    lemma_short_text_fits("job_status"@);
    lemma_short_text_fits("job_kill"@);
    lemma_short_text_fits("cell_remove"@);
    lemma_short_text_fits("logs_read"@);
    lemma_short_text_fits("pty_open"@);
    lemma_short_text_fits("pty_input"@);
    lemma_short_text_fits("pty_read"@);
    lemma_short_text_fits("pty_resize"@);
    lemma_short_text_fits("pty_close"@);
}

/// The request field keys fit wire lengths.
proof fn lemma_request_keys()
    ensures
        text_fits("type"@),
        text_fits("spec"@),
        text_fits("cell_id"@),
        text_fits("cmd"@),
        text_fits("job_id"@),
        text_fits("force"@),
        text_fits("stream"@),
        text_fits("offset"@),
        text_fits("max_bytes"@),
        text_fits("follow"@),
        text_fits("wait_ms"@),
        text_fits("shell"@),
        text_fits("args"@),
        text_fits("cwd"@),
        text_fits("env"@),
        text_fits("cols"@),
        text_fits("rows"@),
        text_fits("session_id"@),
        text_fits("data"@),
{
    reveal_strlit("type");
    reveal_strlit("spec");
    reveal_strlit("cell_id");
    reveal_strlit("cmd");
    reveal_strlit("job_id");
    reveal_strlit("force");
    reveal_strlit("stream");
    reveal_strlit("offset");
    reveal_strlit("max_bytes");
    reveal_strlit("follow");
    reveal_strlit("wait_ms");
    reveal_strlit("shell");
    reveal_strlit("args");
    reveal_strlit("cwd");
    reveal_strlit("env");
    reveal_strlit("cols");
    reveal_strlit("rows");
    reveal_strlit("session_id");
    reveal_strlit("data");
    assert("type"@.len() == 4);
    assert("spec"@.len() == 4);
    assert("cell_id"@.len() == 7);
    assert("cmd"@.len() == 3);
    assert("job_id"@.len() == 6);
    assert("force"@.len() == 5);
    assert("stream"@.len() == 6);
    assert("offset"@.len() == 6);
    assert("max_bytes"@.len() == 9);
    assert("follow"@.len() == 6);
    assert("wait_ms"@.len() == 7);
    assert("shell"@.len() == 5);
    assert("args"@.len() == 4);
    assert("cwd"@.len() == 3);
    assert("env"@.len() == 3);
    assert("cols"@.len() == 4);
    assert("rows"@.len() == 4);
    assert("session_id"@.len() == 10);
    assert("data"@.len() == 4);
    lemma_short_text_fits("type"@);
    lemma_short_text_fits("spec"@);
    lemma_short_text_fits("cell_id"@);
    lemma_short_text_fits("cmd"@);
    lemma_short_text_fits("job_id"@);
    lemma_short_text_fits("force"@);
    lemma_short_text_fits("stream"@);
    lemma_short_text_fits("offset"@);
    lemma_short_text_fits("max_bytes"@);
    lemma_short_text_fits("follow"@);
    lemma_short_text_fits("wait_ms"@);
    lemma_short_text_fits("shell"@);
    lemma_short_text_fits("args"@);
    lemma_short_text_fits("cwd"@);
    lemma_short_text_fits("env"@);
    lemma_short_text_fits("cols"@);
    lemma_short_text_fits("rows"@);
    lemma_short_text_fits("session_id"@);
    lemma_short_text_fits("data"@);
}

/// A request model whose parts fit wire lengths.
pub open spec fn request_fits(m: RequestV) -> bool {
    match m {
        RequestV::Version => true,
        RequestV::Health => true,
        RequestV::CellCreate { spec } => cell_spec_fits(spec),
        RequestV::JobRun { cell_id, cmd } => text_fits(cell_id) && cmd_fits(cmd),
        RequestV::JobStatus { job_id } => text_fits(job_id),
        RequestV::JobKill { job_id, force } => text_fits(job_id),
        RequestV::CellRemove { cell_id, force } => text_fits(cell_id),
        RequestV::LogsRead { job_id, stream, offset, max_bytes, follow, wait_ms } => text_fits(job_id),
        RequestV::PtyOpen { shell, args, cwd, env, cols, rows } => text_fits(shell) && texts_fit(args) && args.len() <= u64::MAX && (cwd matches Some(c) ==> text_fits(c)) && env_fits(env) && env.len() <= u64::MAX,
        RequestV::PtyInput { session_id, data } => data.len() <= u64::MAX,
        RequestV::PtyRead { session_id, offset, max_bytes, follow, wait_ms } => true,
        RequestV::PtyResize { session_id, cols, rows } => true,
        RequestV::PtyClose { session_id, force } => true,
    }
}

/// Encoded fields of the version form.
#[verifier::opaque]
pub open spec fn spec_enc_request_fields_version(m: RequestV) -> Seq<u8> {
    match m {
        RequestV::Version => Seq::empty(),
        _ => Seq::empty(),
    }
}

/// Encoded fields of the health form.
#[verifier::opaque]
pub open spec fn spec_enc_request_fields_health(m: RequestV) -> Seq<u8> {
    match m {
        RequestV::Health => Seq::empty(),
        _ => Seq::empty(),
    }
}

/// Encoded fields of the cell_create form.
#[verifier::opaque]
pub open spec fn spec_enc_request_fields_cell_create(m: RequestV) -> Seq<u8> {
    match m {
        RequestV::CellCreate { spec } => spec_enc_text("spec"@) + spec_enc_cell_spec(spec),
        _ => Seq::empty(),
    }
}

/// Encoded fields of the job_run form.
#[verifier::opaque]
pub open spec fn spec_enc_request_fields_job_run(m: RequestV) -> Seq<u8> {
    match m {
        RequestV::JobRun { cell_id, cmd } => spec_enc_text("cell_id"@) + spec_enc_text(cell_id) + spec_enc_text("cmd"@) + spec_enc_cmd(cmd),
        _ => Seq::empty(),
    }
}

/// Encoded fields of the job_status form.
#[verifier::opaque]
pub open spec fn spec_enc_request_fields_job_status(m: RequestV) -> Seq<u8> {
    match m {
        RequestV::JobStatus { job_id } => spec_enc_text("job_id"@) + spec_enc_text(job_id),
        _ => Seq::empty(),
    }
}

/// Encoded fields of the job_kill form.
#[verifier::opaque]
pub open spec fn spec_enc_request_fields_job_kill(m: RequestV) -> Seq<u8> {
    match m {
        RequestV::JobKill { job_id, force } => spec_enc_text("job_id"@) + spec_enc_text(job_id) + spec_enc_text("force"@) + spec_enc_bool(force),
        _ => Seq::empty(),
    }
}

/// Encoded fields of the cell_remove form.
#[verifier::opaque]
pub open spec fn spec_enc_request_fields_cell_remove(m: RequestV) -> Seq<u8> {
    match m {
        RequestV::CellRemove { cell_id, force } => spec_enc_text("cell_id"@) + spec_enc_text(cell_id) + spec_enc_text("force"@) + spec_enc_bool(force),
        _ => Seq::empty(),
    }
}

/// Encoded fields of the logs_read form.
#[verifier::opaque]
pub open spec fn spec_enc_request_fields_logs_read(m: RequestV) -> Seq<u8> {
    match m {
        RequestV::LogsRead { job_id, stream, offset, max_bytes, follow, wait_ms } => spec_enc_text("job_id"@) + spec_enc_text(job_id) + spec_enc_text("stream"@) + spec_enc_log_stream(stream) + spec_enc_text("offset"@) + spec_enc_u64(offset) + spec_enc_text("max_bytes"@) + spec_enc_u64(max_bytes as u64) + spec_enc_text("follow"@) + spec_enc_bool(follow) + spec_enc_text("wait_ms"@) + spec_enc_u64(wait_ms),
        _ => Seq::empty(),
    }
}

/// Encoded fields of the pty_open form.
#[verifier::opaque]
pub open spec fn spec_enc_request_fields_pty_open(m: RequestV) -> Seq<u8> {
    match m {
        RequestV::PtyOpen { shell, args, cwd, env, cols, rows } => spec_enc_text("shell"@) + spec_enc_text(shell) + spec_enc_text("args"@) + spec_enc_texts(args) + spec_enc_text("cwd"@) + spec_enc_opt_text(cwd) + spec_enc_text("env"@) + spec_enc_env(env) + spec_enc_text("cols"@) + spec_enc_u64(cols as u64) + spec_enc_text("rows"@) + spec_enc_u64(rows as u64),
        _ => Seq::empty(),
    }
}

/// Encoded fields of the pty_input form.
#[verifier::opaque]
pub open spec fn spec_enc_request_fields_pty_input(m: RequestV) -> Seq<u8> {
    match m {
        RequestV::PtyInput { session_id, data } => spec_enc_text("session_id"@) + spec_enc_u64(session_id) + spec_enc_text("data"@) + spec_enc_bytes(data),
        _ => Seq::empty(),
    }
}

/// Encoded fields of the pty_read form.
#[verifier::opaque]
pub open spec fn spec_enc_request_fields_pty_read(m: RequestV) -> Seq<u8> {
    match m {
        RequestV::PtyRead { session_id, offset, max_bytes, follow, wait_ms } => spec_enc_text("session_id"@) + spec_enc_u64(session_id) + spec_enc_text("offset"@) + spec_enc_u64(offset) + spec_enc_text("max_bytes"@) + spec_enc_u64(max_bytes as u64) + spec_enc_text("follow"@) + spec_enc_bool(follow) + spec_enc_text("wait_ms"@) + spec_enc_u64(wait_ms),
        _ => Seq::empty(),
    }
}

/// Encoded fields of the pty_resize form.
#[verifier::opaque]
pub open spec fn spec_enc_request_fields_pty_resize(m: RequestV) -> Seq<u8> {
    match m {
        RequestV::PtyResize { session_id, cols, rows } => spec_enc_text("session_id"@) + spec_enc_u64(session_id) + spec_enc_text("cols"@) + spec_enc_u64(cols as u64) + spec_enc_text("rows"@) + spec_enc_u64(rows as u64),
        _ => Seq::empty(),
    }
}

/// Encoded fields of the pty_close form.
#[verifier::opaque]
pub open spec fn spec_enc_request_fields_pty_close(m: RequestV) -> Seq<u8> {
    match m {
        RequestV::PtyClose { session_id, force } => spec_enc_text("session_id"@) + spec_enc_u64(session_id) + spec_enc_text("force"@) + spec_enc_bool(force),
        _ => Seq::empty(),
    }
}

/// Encoded request body.
pub open spec fn spec_enc_request(m: RequestV) -> Seq<u8> {
    match m {
        RequestV::Version => spec_enc_uint(MAJOR_MAP, 1) + spec_enc_text("type"@) + spec_enc_text(
            "version"@,
        ) + spec_enc_request_fields_version(m),
        RequestV::Health => spec_enc_uint(MAJOR_MAP, 1) + spec_enc_text("type"@) + spec_enc_text(
            "health"@,
        ) + spec_enc_request_fields_health(m),
        RequestV::CellCreate { .. } => spec_enc_uint(MAJOR_MAP, 2) + spec_enc_text("type"@) + spec_enc_text(
            "cell_create"@,
        ) + spec_enc_request_fields_cell_create(m),
        RequestV::JobRun { .. } => spec_enc_uint(MAJOR_MAP, 3) + spec_enc_text("type"@) + spec_enc_text(
            "job_run"@,
        ) + spec_enc_request_fields_job_run(m),
        RequestV::JobStatus { .. } => spec_enc_uint(MAJOR_MAP, 2) + spec_enc_text("type"@) + spec_enc_text(
            "job_status"@,
        ) + spec_enc_request_fields_job_status(m),
        RequestV::JobKill { .. } => spec_enc_uint(MAJOR_MAP, 3) + spec_enc_text("type"@) + spec_enc_text(
            "job_kill"@,
        ) + spec_enc_request_fields_job_kill(m),
        RequestV::CellRemove { .. } => spec_enc_uint(MAJOR_MAP, 3) + spec_enc_text("type"@) + spec_enc_text(
            "cell_remove"@,
        ) + spec_enc_request_fields_cell_remove(m),
        RequestV::LogsRead { .. } => spec_enc_uint(MAJOR_MAP, 7) + spec_enc_text("type"@) + spec_enc_text(
            "logs_read"@,
        ) + spec_enc_request_fields_logs_read(m),
        RequestV::PtyOpen { .. } => spec_enc_uint(MAJOR_MAP, 7) + spec_enc_text("type"@) + spec_enc_text(
            "pty_open"@,
        ) + spec_enc_request_fields_pty_open(m),
        RequestV::PtyInput { .. } => spec_enc_uint(MAJOR_MAP, 3) + spec_enc_text("type"@) + spec_enc_text(
            "pty_input"@,
        ) + spec_enc_request_fields_pty_input(m),
        RequestV::PtyRead { .. } => spec_enc_uint(MAJOR_MAP, 6) + spec_enc_text("type"@) + spec_enc_text(
            "pty_read"@,
        ) + spec_enc_request_fields_pty_read(m),
        RequestV::PtyResize { .. } => spec_enc_uint(MAJOR_MAP, 4) + spec_enc_text("type"@) + spec_enc_text(
            "pty_resize"@,
        ) + spec_enc_request_fields_pty_resize(m),
        RequestV::PtyClose { .. } => spec_enc_uint(MAJOR_MAP, 3) + spec_enc_text("type"@) + spec_enc_text(
            "pty_close"@,
        ) + spec_enc_request_fields_pty_close(m),
    }
}

/// Parses a request body.
pub open spec fn spec_dec_request(b: Seq<u8>) -> Option<(RequestV, Seq<u8>)> {
    match spec_dec_head(b) {
        Some((m, cnt, r0)) => {
            if m != MAJOR_MAP {
                None
            } else {
                match spec_dec_key(r0, "type"@) {
                    Some(r1) => {
                        match spec_dec_segment(r1, MAJOR_TEXT) {
                            Some((tag, r2)) => spec_dec_request_body(tag, cnt, r2),
                            None => None,
                        }
                    },
                    None => None,
                }
            }
        },
        None => None,
    }
}

/// Parses the fields of the version form.
#[verifier::opaque]
pub open spec fn spec_dec_request_form_version(cnt: u64, r: Seq<u8>) -> Option<(RequestV, Seq<u8>)> {
    if cnt != 1 {
        None
    } else {
        Some((RequestV::Version, r))
    }
}

/// Parses the fields of the health form.
#[verifier::opaque]
pub open spec fn spec_dec_request_form_health(cnt: u64, r: Seq<u8>) -> Option<(RequestV, Seq<u8>)> {
    if cnt != 1 {
        None
    } else {
        Some((RequestV::Health, r))
    }
}

/// Parses the fields of the cell_create form.
#[verifier::opaque]
pub open spec fn spec_dec_request_form_cell_create(cnt: u64, r: Seq<u8>) -> Option<(RequestV, Seq<u8>)> {
    if cnt != 2 {
        None
    } else {
        match spec_dec_key(r, "spec"@) {
            Some(k_spec) => {
                match spec_dec_cell_spec(k_spec) {
                    Some((spec, r_spec)) => {
                        Some((RequestV::CellCreate { spec }, r_spec))
                    },
                    None => None,
                }
            },
            None => None,
        }
    }
}

/// Parses the fields of the job_run form.
#[verifier::opaque]
pub open spec fn spec_dec_request_form_job_run(cnt: u64, r: Seq<u8>) -> Option<(RequestV, Seq<u8>)> {
    if cnt != 3 {
        None
    } else {
        match spec_dec_key(r, "cell_id"@) {
            Some(k_cell_id) => {
                match spec_dec_text(k_cell_id) {
                    Some((cell_id, r_cell_id)) => {
                        match spec_dec_key(r_cell_id, "cmd"@) {
                            Some(k_cmd) => {
                                match spec_dec_cmd(k_cmd) {
                                    Some((cmd, r_cmd)) => {
                                        Some((RequestV::JobRun { cell_id, cmd }, r_cmd))
                                    },
                                    None => None,
                                }
                            },
                            None => None,
                        }
                    },
                    None => None,
                }
            },
            None => None,
        }
    }
}

/// Parses the fields of the job_status form.
#[verifier::opaque]
pub open spec fn spec_dec_request_form_job_status(cnt: u64, r: Seq<u8>) -> Option<(RequestV, Seq<u8>)> {
    if cnt != 2 {
        None
    } else {
        match spec_dec_key(r, "job_id"@) {
            Some(k_job_id) => {
                match spec_dec_text(k_job_id) {
                    Some((job_id, r_job_id)) => {
                        Some((RequestV::JobStatus { job_id }, r_job_id))
                    },
                    None => None,
                }
            },
            None => None,
        }
    }
}

/// Parses the fields of the job_kill form.
#[verifier::opaque]
pub open spec fn spec_dec_request_form_job_kill(cnt: u64, r: Seq<u8>) -> Option<(RequestV, Seq<u8>)> {
    if cnt != 3 {
        None
    } else {
        match spec_dec_key(r, "job_id"@) {
            Some(k_job_id) => {
                match spec_dec_text(k_job_id) {
                    Some((job_id, r_job_id)) => {
                        match spec_dec_key(r_job_id, "force"@) {
                            Some(k_force) => {
                                match spec_dec_bool(k_force) {
                                    Some((force, r_force)) => {
                                        Some((RequestV::JobKill { job_id, force }, r_force))
                                    },
                                    None => None,
                                }
                            },
                            None => None,
                        }
                    },
                    None => None,
                }
            },
            None => None,
        }
    }
}

/// Parses the fields of the cell_remove form.
#[verifier::opaque]
pub open spec fn spec_dec_request_form_cell_remove(cnt: u64, r: Seq<u8>) -> Option<(RequestV, Seq<u8>)> {
    if cnt != 3 {
        None
    } else {
        match spec_dec_key(r, "cell_id"@) {
            Some(k_cell_id) => {
                match spec_dec_text(k_cell_id) {
                    Some((cell_id, r_cell_id)) => {
                        match spec_dec_key(r_cell_id, "force"@) {
                            Some(k_force) => {
                                match spec_dec_bool(k_force) {
                                    Some((force, r_force)) => {
                                        Some((RequestV::CellRemove { cell_id, force }, r_force))
                                    },
                                    None => None,
                                }
                            },
                            None => None,
                        }
                    },
                    None => None,
                }
            },
            None => None,
        }
    }
}

/// Parses the fields of the logs_read form.
#[verifier::opaque]
pub open spec fn spec_dec_request_form_logs_read(cnt: u64, r: Seq<u8>) -> Option<(RequestV, Seq<u8>)> {
    if cnt != 7 {
        None
    } else {
        match spec_dec_key(r, "job_id"@) {
            Some(k_job_id) => {
                match spec_dec_text(k_job_id) {
                    Some((job_id, r_job_id)) => {
                        match spec_dec_key(r_job_id, "stream"@) {
                            Some(k_stream) => {
                                match spec_dec_log_stream(k_stream) {
                                    Some((stream, r_stream)) => {
                                        match spec_dec_key(r_stream, "offset"@) {
                                            Some(k_offset) => {
                                                match spec_dec_u64(k_offset) {
                                                    Some((offset, r_offset)) => {
                                                        match spec_dec_key(r_offset, "max_bytes"@) {
                                                            Some(k_max_bytes) => {
                                                                match spec_dec_u32(k_max_bytes) {
                                                                    Some((max_bytes, r_max_bytes)) => {
                                                                        match spec_dec_key(r_max_bytes, "follow"@) {
                                                                            Some(k_follow) => {
                                                                                match spec_dec_bool(k_follow) {
                                                                                    Some((follow, r_follow)) => {
                                                                                        match spec_dec_key(r_follow, "wait_ms"@) {
                                                                                            Some(k_wait_ms) => {
                                                                                                match spec_dec_u64(k_wait_ms) {
                                                                                                    Some((wait_ms, r_wait_ms)) => {
                                                                                                        Some((RequestV::LogsRead { job_id, stream, offset, max_bytes, follow, wait_ms }, r_wait_ms))
                                                                                                    },
                                                                                                    None => None,
                                                                                                }
                                                                                            },
                                                                                            None => None,
                                                                                        }
                                                                                    },
                                                                                    None => None,
                                                                                }
                                                                            },
                                                                            None => None,
                                                                        }
                                                                    },
                                                                    None => None,
                                                                }
                                                            },
                                                            None => None,
                                                        }
                                                    },
                                                    None => None,
                                                }
                                            },
                                            None => None,
                                        }
                                    },
                                    None => None,
                                }
                            },
                            None => None,
                        }
                    },
                    None => None,
                }
            },
            None => None,
        }
    }
}

/// Parses the fields of the pty_open form.
#[verifier::opaque]
pub open spec fn spec_dec_request_form_pty_open(cnt: u64, r: Seq<u8>) -> Option<(RequestV, Seq<u8>)> {
    if cnt != 7 {
        None
    } else {
        match spec_dec_key(r, "shell"@) {
            Some(k_shell) => {
                match spec_dec_text(k_shell) {
                    Some((shell, r_shell)) => {
                        match spec_dec_key(r_shell, "args"@) {
                            Some(k_args) => {
                                match spec_dec_texts(k_args) {
                                    Some((args, r_args)) => {
                                        match spec_dec_key(r_args, "cwd"@) {
                                            Some(k_cwd) => {
                                                match spec_dec_opt_text(k_cwd) {
                                                    Some((cwd, r_cwd)) => {
                                                        match spec_dec_key(r_cwd, "env"@) {
                                                            Some(k_env) => {
                                                                match spec_dec_env(k_env) {
                                                                    Some((env, r_env)) => {
                                                                        match spec_dec_key(r_env, "cols"@) {
                                                                            Some(k_cols) => {
                                                                                match spec_dec_u16(k_cols) {
                                                                                    Some((cols, r_cols)) => {
                                                                                        match spec_dec_key(r_cols, "rows"@) {
                                                                                            Some(k_rows) => {
                                                                                                match spec_dec_u16(k_rows) {
                                                                                                    Some((rows, r_rows)) => {
                                                                                                        Some((RequestV::PtyOpen { shell, args, cwd, env, cols, rows }, r_rows))
                                                                                                    },
                                                                                                    None => None,
                                                                                                }
                                                                                            },
                                                                                            None => None,
                                                                                        }
                                                                                    },
                                                                                    None => None,
                                                                                }
                                                                            },
                                                                            None => None,
                                                                        }
                                                                    },
                                                                    None => None,
                                                                }
                                                            },
                                                            None => None,
                                                        }
                                                    },
                                                    None => None,
                                                }
                                            },
                                            None => None,
                                        }
                                    },
                                    None => None,
                                }
                            },
                            None => None,
                        }
                    },
                    None => None,
                }
            },
            None => None,
        }
    }
}

/// Parses the fields of the pty_input form.
#[verifier::opaque]
pub open spec fn spec_dec_request_form_pty_input(cnt: u64, r: Seq<u8>) -> Option<(RequestV, Seq<u8>)> {
    if cnt != 3 {
        None
    } else {
        match spec_dec_key(r, "session_id"@) {
            Some(k_session_id) => {
                match spec_dec_u64(k_session_id) {
                    Some((session_id, r_session_id)) => {
                        match spec_dec_key(r_session_id, "data"@) {
                            Some(k_data) => {
                                match spec_dec_bytes(k_data) {
                                    Some((data, r_data)) => {
                                        Some((RequestV::PtyInput { session_id, data }, r_data))
                                    },
                                    None => None,
                                }
                            },
                            None => None,
                        }
                    },
                    None => None,
                }
            },
            None => None,
        }
    }
}

/// Parses the fields of the pty_read form.
#[verifier::opaque]
pub open spec fn spec_dec_request_form_pty_read(cnt: u64, r: Seq<u8>) -> Option<(RequestV, Seq<u8>)> {
    if cnt != 6 {
        None
    } else {
        match spec_dec_key(r, "session_id"@) {
            Some(k_session_id) => {
                match spec_dec_u64(k_session_id) {
                    Some((session_id, r_session_id)) => {
                        match spec_dec_key(r_session_id, "offset"@) {
                            Some(k_offset) => {
                                match spec_dec_u64(k_offset) {
                                    Some((offset, r_offset)) => {
                                        match spec_dec_key(r_offset, "max_bytes"@) {
                                            Some(k_max_bytes) => {
                                                match spec_dec_u32(k_max_bytes) {
                                                    Some((max_bytes, r_max_bytes)) => {
                                                        match spec_dec_key(r_max_bytes, "follow"@) {
                                                            Some(k_follow) => {
                                                                match spec_dec_bool(k_follow) {
                                                                    Some((follow, r_follow)) => {
                                                                        match spec_dec_key(r_follow, "wait_ms"@) {
                                                                            Some(k_wait_ms) => {
                                                                                match spec_dec_u64(k_wait_ms) {
                                                                                    Some((wait_ms, r_wait_ms)) => {
                                                                                        Some((RequestV::PtyRead { session_id, offset, max_bytes, follow, wait_ms }, r_wait_ms))
                                                                                    },
                                                                                    None => None,
                                                                                }
                                                                            },
                                                                            None => None,
                                                                        }
                                                                    },
                                                                    None => None,
                                                                }
                                                            },
                                                            None => None,
                                                        }
                                                    },
                                                    None => None,
                                                }
                                            },
                                            None => None,
                                        }
                                    },
                                    None => None,
                                }
                            },
                            None => None,
                        }
                    },
                    None => None,
                }
            },
            None => None,
        }
    }
}

/// Parses the fields of the pty_resize form.
#[verifier::opaque]
pub open spec fn spec_dec_request_form_pty_resize(cnt: u64, r: Seq<u8>) -> Option<(RequestV, Seq<u8>)> {
    if cnt != 4 {
        None
    } else {
        match spec_dec_key(r, "session_id"@) {
            Some(k_session_id) => {
                match spec_dec_u64(k_session_id) {
                    Some((session_id, r_session_id)) => {
                        match spec_dec_key(r_session_id, "cols"@) {
                            Some(k_cols) => {
                                match spec_dec_u16(k_cols) {
                                    Some((cols, r_cols)) => {
                                        match spec_dec_key(r_cols, "rows"@) {
                                            Some(k_rows) => {
                                                match spec_dec_u16(k_rows) {
                                                    Some((rows, r_rows)) => {
                                                        Some((RequestV::PtyResize { session_id, cols, rows }, r_rows))
                                                    },
                                                    None => None,
                                                }
                                            },
                                            None => None,
                                        }
                                    },
                                    None => None,
                                }
                            },
                            None => None,
                        }
                    },
                    None => None,
                }
            },
            None => None,
        }
    }
}

/// Parses the fields of the pty_close form.
#[verifier::opaque]
pub open spec fn spec_dec_request_form_pty_close(cnt: u64, r: Seq<u8>) -> Option<(RequestV, Seq<u8>)> {
    if cnt != 3 {
        None
    } else {
        match spec_dec_key(r, "session_id"@) {
            Some(k_session_id) => {
                match spec_dec_u64(k_session_id) {
                    Some((session_id, r_session_id)) => {
                        match spec_dec_key(r_session_id, "force"@) {
                            Some(k_force) => {
                                match spec_dec_bool(k_force) {
                                    Some((force, r_force)) => {
                                        Some((RequestV::PtyClose { session_id, force }, r_force))
                                    },
                                    None => None,
                                }
                            },
                            None => None,
                        }
                    },
                    None => None,
                }
            },
            None => None,
        }
    }
}

/// Parses the fields of a request body once its tag is known.
pub open spec fn spec_dec_request_body(tag: Seq<u8>, cnt: u64, r: Seq<u8>) -> Option<(RequestV, Seq<u8>)> {
    if tag == encode_utf8("version"@) {
        spec_dec_request_form_version(cnt, r)
    } else if tag == encode_utf8("health"@) {
        spec_dec_request_form_health(cnt, r)
    } else if tag == encode_utf8("cell_create"@) {
        spec_dec_request_form_cell_create(cnt, r)
    } else if tag == encode_utf8("job_run"@) {
        spec_dec_request_form_job_run(cnt, r)
    } else if tag == encode_utf8("job_status"@) {
        spec_dec_request_form_job_status(cnt, r)
    } else if tag == encode_utf8("job_kill"@) {
        spec_dec_request_form_job_kill(cnt, r)
    } else if tag == encode_utf8("cell_remove"@) {
        spec_dec_request_form_cell_remove(cnt, r)
    } else if tag == encode_utf8("logs_read"@) {
        spec_dec_request_form_logs_read(cnt, r)
    } else if tag == encode_utf8("pty_open"@) {
        spec_dec_request_form_pty_open(cnt, r)
    } else if tag == encode_utf8("pty_input"@) {
        spec_dec_request_form_pty_input(cnt, r)
    } else if tag == encode_utf8("pty_read"@) {
        spec_dec_request_form_pty_read(cnt, r)
    } else if tag == encode_utf8("pty_resize"@) {
        spec_dec_request_form_pty_resize(cnt, r)
    } else if tag == encode_utf8("pty_close"@) {
        spec_dec_request_form_pty_close(cnt, r)
    } else {
        None
    }
}

/// Parsing an encoded tagged body reaches the tag dispatch.
proof fn lemma_dec_request_dispatch(tagseq: Seq<char>, cnt: u64, fields: Seq<u8>, rest: Seq<u8>)
    requires
        text_fits(tagseq),
    ensures
        spec_dec_request(
            spec_enc_uint(MAJOR_MAP, cnt) + spec_enc_text("type"@) + spec_enc_text(tagseq)
                + fields + rest,
        ) == spec_dec_request_body(encode_utf8(tagseq), cnt, fields + rest),
{
    reveal_strlit("type");
    assert("type"@.len() == 4);
    lemma_short_text_fits("type"@);
    let h = spec_enc_uint(MAJOR_MAP, cnt);
    let tk = spec_enc_text("type"@);
    let tv = spec_enc_text(tagseq);
    lemma_concat_assoc(h + tk + tv, fields, rest);
    lemma_concat_assoc(h + tk, tv, fields + rest);
    lemma_concat_assoc(h, tk, tv + (fields + rest));
    lemma_dec_head_enc(MAJOR_MAP, cnt, tk + (tv + (fields + rest)));
    lemma_dec_key_enc("type"@, tv + (fields + rest));
    lemma_dec_segment_enc_text(tagseq, fields + rest);
}

/// Decoding inverts encoding for the fields of the version form.
#[verifier::rlimit(100)]
proof fn lemma_dec_request_form_version(m: RequestV, rest: Seq<u8>)
    requires
        m is Version,
        request_fits(m),
    ensures
        spec_dec_request_form_version(1, spec_enc_request_fields_version(m) + rest) == Some((m, rest)),
{
    reveal(spec_dec_request_form_version);
    reveal(spec_enc_request_fields_version);
    lemma_request_keys();
    match m {
        RequestV::Version => {
            assert(spec_enc_request_fields_version(m) + rest =~= rest);
        },
        _ => {},
    }
}

/// Decoding inverts encoding for the version form.
#[verifier::rlimit(100)]
proof fn lemma_dec_request_enc_version(m: RequestV, rest: Seq<u8>)
    requires
        m is Version,
        request_fits(m),
    ensures
        spec_dec_request(spec_enc_request(m) + rest) == Some((m, rest)),
{
    lemma_request_tags();
    let fields = spec_enc_request_fields_version(m);
    lemma_dec_request_dispatch("version"@, 1, fields, rest);
    lemma_dec_request_form_version(m, rest);
}

/// Decoding inverts encoding for the fields of the health form.
#[verifier::rlimit(100)]
proof fn lemma_dec_request_form_health(m: RequestV, rest: Seq<u8>)
    requires
        m is Health,
        request_fits(m),
    ensures
        spec_dec_request_form_health(1, spec_enc_request_fields_health(m) + rest) == Some((m, rest)),
{
    reveal(spec_dec_request_form_health);
    reveal(spec_enc_request_fields_health);
    lemma_request_keys();
    match m {
        RequestV::Health => {
            assert(spec_enc_request_fields_health(m) + rest =~= rest);
        },
        _ => {},
    }
}

/// Decoding inverts encoding for the health form.
#[verifier::rlimit(100)]
proof fn lemma_dec_request_enc_health(m: RequestV, rest: Seq<u8>)
    requires
        m is Health,
        request_fits(m),
    ensures
        spec_dec_request(spec_enc_request(m) + rest) == Some((m, rest)),
{
    lemma_request_tags();
    let fields = spec_enc_request_fields_health(m);
    lemma_dec_request_dispatch("health"@, 1, fields, rest);
    lemma_utf8_ne("version"@, "health"@);
    lemma_dec_request_form_health(m, rest);
}

/// Decoding inverts encoding for the fields of the cell_create form.
#[verifier::rlimit(100)]
proof fn lemma_dec_request_form_cell_create(m: RequestV, rest: Seq<u8>)
    requires
        m is CellCreate,
        request_fits(m),
    ensures
        spec_dec_request_form_cell_create(2, spec_enc_request_fields_cell_create(m) + rest) == Some((m, rest)),
{
    reveal(spec_dec_request_form_cell_create);
    reveal(spec_enc_request_fields_cell_create);
    lemma_request_keys();
    match m {
        RequestV::CellCreate { spec } => {
            let k_spec = spec_enc_text("spec"@);
            let v_spec = spec_enc_cell_spec(spec);
            lemma_concat_assoc(k_spec, v_spec, rest);
            lemma_dec_key_enc("spec"@, (v_spec + rest));
            lemma_dec_cell_spec_enc(spec, rest);
        },
        _ => {},
    }
}

/// Decoding inverts encoding for the cell_create form.
#[verifier::rlimit(100)]
proof fn lemma_dec_request_enc_cell_create(m: RequestV, rest: Seq<u8>)
    requires
        m is CellCreate,
        request_fits(m),
    ensures
        spec_dec_request(spec_enc_request(m) + rest) == Some((m, rest)),
{
    lemma_request_tags();
    let fields = spec_enc_request_fields_cell_create(m);
    lemma_dec_request_dispatch("cell_create"@, 2, fields, rest);
    lemma_utf8_ne("version"@, "cell_create"@);
    lemma_utf8_ne("health"@, "cell_create"@);
    lemma_dec_request_form_cell_create(m, rest);
}

/// Decoding inverts encoding for the fields of the job_run form.
#[verifier::rlimit(100)]
proof fn lemma_dec_request_form_job_run(m: RequestV, rest: Seq<u8>)
    requires
        m is JobRun,
        request_fits(m),
    ensures
        spec_dec_request_form_job_run(3, spec_enc_request_fields_job_run(m) + rest) == Some((m, rest)),
{
    reveal(spec_dec_request_form_job_run);
    reveal(spec_enc_request_fields_job_run);
    lemma_request_keys();
    match m {
        RequestV::JobRun { cell_id, cmd } => {
            let k_cell_id = spec_enc_text("cell_id"@);
            let v_cell_id = spec_enc_text(cell_id);
            let k_cmd = spec_enc_text("cmd"@);
            let v_cmd = spec_enc_cmd(cmd);
            lemma_concat_assoc(k_cell_id + v_cell_id + k_cmd, v_cmd, rest);
            lemma_concat_assoc(k_cell_id + v_cell_id, k_cmd, (v_cmd + rest));
            lemma_concat_assoc(k_cell_id, v_cell_id, (k_cmd + (v_cmd + rest)));
            lemma_dec_key_enc("cell_id"@, (v_cell_id + (k_cmd + (v_cmd + rest))));
            lemma_dec_text_enc(cell_id, (k_cmd + (v_cmd + rest)));
            lemma_dec_key_enc("cmd"@, (v_cmd + rest));
            lemma_dec_cmd_enc(cmd, rest);
        },
        _ => {},
    }
}

/// Decoding inverts encoding for the job_run form.
#[verifier::rlimit(100)]
proof fn lemma_dec_request_enc_job_run(m: RequestV, rest: Seq<u8>)
    requires
        m is JobRun,
        request_fits(m),
    ensures
        spec_dec_request(spec_enc_request(m) + rest) == Some((m, rest)),
{
    lemma_request_tags();
    let fields = spec_enc_request_fields_job_run(m);
    lemma_dec_request_dispatch("job_run"@, 3, fields, rest);
    lemma_utf8_ne("version"@, "job_run"@);
    lemma_utf8_ne("health"@, "job_run"@);
    lemma_utf8_ne("cell_create"@, "job_run"@);
    lemma_dec_request_form_job_run(m, rest);
}

/// Decoding inverts encoding for the fields of the job_status form.
#[verifier::rlimit(100)]
proof fn lemma_dec_request_form_job_status(m: RequestV, rest: Seq<u8>)
    requires
        m is JobStatus,
        request_fits(m),
    ensures
        spec_dec_request_form_job_status(2, spec_enc_request_fields_job_status(m) + rest) == Some((m, rest)),
{
    reveal(spec_dec_request_form_job_status);
    reveal(spec_enc_request_fields_job_status);
    lemma_request_keys();
    match m {
        RequestV::JobStatus { job_id } => {
            let k_job_id = spec_enc_text("job_id"@);
            let v_job_id = spec_enc_text(job_id);
            lemma_concat_assoc(k_job_id, v_job_id, rest);
            lemma_dec_key_enc("job_id"@, (v_job_id + rest));
            lemma_dec_text_enc(job_id, rest);
        },
        _ => {},
    }
}

/// Decoding inverts encoding for the job_status form.
#[verifier::rlimit(100)]
proof fn lemma_dec_request_enc_job_status(m: RequestV, rest: Seq<u8>)
    requires
        m is JobStatus,
        request_fits(m),
    ensures
        spec_dec_request(spec_enc_request(m) + rest) == Some((m, rest)),
{
    lemma_request_tags();
    let fields = spec_enc_request_fields_job_status(m);
    lemma_dec_request_dispatch("job_status"@, 2, fields, rest);
    lemma_utf8_ne("version"@, "job_status"@);
    lemma_utf8_ne("health"@, "job_status"@);
    lemma_utf8_ne("cell_create"@, "job_status"@);
    lemma_utf8_ne("job_run"@, "job_status"@);
    lemma_dec_request_form_job_status(m, rest);
}

/// Decoding inverts encoding for the fields of the job_kill form.
#[verifier::rlimit(100)]
proof fn lemma_dec_request_form_job_kill(m: RequestV, rest: Seq<u8>)
    requires
        m is JobKill,
        request_fits(m),
    ensures
        spec_dec_request_form_job_kill(3, spec_enc_request_fields_job_kill(m) + rest) == Some((m, rest)),
{
    reveal(spec_dec_request_form_job_kill);
    reveal(spec_enc_request_fields_job_kill);
    lemma_request_keys();
    match m {
        RequestV::JobKill { job_id, force } => {
            let k_job_id = spec_enc_text("job_id"@);
            let v_job_id = spec_enc_text(job_id);
            let k_force = spec_enc_text("force"@);
            let v_force = spec_enc_bool(force);
            lemma_concat_assoc(k_job_id + v_job_id + k_force, v_force, rest);
            lemma_concat_assoc(k_job_id + v_job_id, k_force, (v_force + rest));
            lemma_concat_assoc(k_job_id, v_job_id, (k_force + (v_force + rest)));
            lemma_dec_key_enc("job_id"@, (v_job_id + (k_force + (v_force + rest))));
            lemma_dec_text_enc(job_id, (k_force + (v_force + rest)));
            lemma_dec_key_enc("force"@, (v_force + rest));
            lemma_dec_bool_enc(force, rest);
        },
        _ => {},
    }
}

/// Decoding inverts encoding for the job_kill form.
#[verifier::rlimit(100)]
proof fn lemma_dec_request_enc_job_kill(m: RequestV, rest: Seq<u8>)
    requires
        m is JobKill,
        request_fits(m),
    ensures
        spec_dec_request(spec_enc_request(m) + rest) == Some((m, rest)),
{
    lemma_request_tags();
    let fields = spec_enc_request_fields_job_kill(m);
    lemma_dec_request_dispatch("job_kill"@, 3, fields, rest);
    lemma_utf8_ne("version"@, "job_kill"@);
    lemma_utf8_ne("health"@, "job_kill"@);
    lemma_utf8_ne("cell_create"@, "job_kill"@);
    lemma_utf8_ne("job_run"@, "job_kill"@);
    lemma_utf8_ne("job_status"@, "job_kill"@);
    lemma_dec_request_form_job_kill(m, rest);
}

/// Decoding inverts encoding for the fields of the cell_remove form.
#[verifier::rlimit(100)]
proof fn lemma_dec_request_form_cell_remove(m: RequestV, rest: Seq<u8>)
    requires
        m is CellRemove,
        request_fits(m),
    ensures
        spec_dec_request_form_cell_remove(3, spec_enc_request_fields_cell_remove(m) + rest) == Some((m, rest)),
{
    reveal(spec_dec_request_form_cell_remove);
    reveal(spec_enc_request_fields_cell_remove);
    lemma_request_keys();
    match m {
        RequestV::CellRemove { cell_id, force } => {
            let k_cell_id = spec_enc_text("cell_id"@);
            let v_cell_id = spec_enc_text(cell_id);
            let k_force = spec_enc_text("force"@);
            let v_force = spec_enc_bool(force);
            lemma_concat_assoc(k_cell_id + v_cell_id + k_force, v_force, rest);
            lemma_concat_assoc(k_cell_id + v_cell_id, k_force, (v_force + rest));
            lemma_concat_assoc(k_cell_id, v_cell_id, (k_force + (v_force + rest)));
            lemma_dec_key_enc("cell_id"@, (v_cell_id + (k_force + (v_force + rest))));
            lemma_dec_text_enc(cell_id, (k_force + (v_force + rest)));
            lemma_dec_key_enc("force"@, (v_force + rest));
            lemma_dec_bool_enc(force, rest);
        },
        _ => {},
    }
}

/// Decoding inverts encoding for the cell_remove form.
#[verifier::rlimit(100)]
proof fn lemma_dec_request_enc_cell_remove(m: RequestV, rest: Seq<u8>)
    requires
        m is CellRemove,
        request_fits(m),
    ensures
        spec_dec_request(spec_enc_request(m) + rest) == Some((m, rest)),
{
    lemma_request_tags();
    let fields = spec_enc_request_fields_cell_remove(m);
    lemma_dec_request_dispatch("cell_remove"@, 3, fields, rest);
    lemma_utf8_ne("version"@, "cell_remove"@);
    lemma_utf8_ne("health"@, "cell_remove"@);
    lemma_utf8_ne("cell_create"@, "cell_remove"@);
    lemma_utf8_ne("job_run"@, "cell_remove"@);
    lemma_utf8_ne("job_status"@, "cell_remove"@);
    lemma_utf8_ne("job_kill"@, "cell_remove"@);
    lemma_dec_request_form_cell_remove(m, rest);
}

/// Decoding inverts encoding for the fields of the logs_read form.
#[verifier::rlimit(100)]
proof fn lemma_dec_request_form_logs_read(m: RequestV, rest: Seq<u8>)
    requires
        m is LogsRead,
        request_fits(m),
    ensures
        spec_dec_request_form_logs_read(7, spec_enc_request_fields_logs_read(m) + rest) == Some((m, rest)),
{
    reveal(spec_dec_request_form_logs_read);
    reveal(spec_enc_request_fields_logs_read);
    lemma_request_keys();
    match m {
        RequestV::LogsRead { job_id, stream, offset, max_bytes, follow, wait_ms } => {
            let k_job_id = spec_enc_text("job_id"@);
            let v_job_id = spec_enc_text(job_id);
            let k_stream = spec_enc_text("stream"@);
            let v_stream = spec_enc_log_stream(stream);
            let k_offset = spec_enc_text("offset"@);
            let v_offset = spec_enc_u64(offset);
            let k_max_bytes = spec_enc_text("max_bytes"@);
            let v_max_bytes = spec_enc_u64(max_bytes as u64);
            let k_follow = spec_enc_text("follow"@);
            let v_follow = spec_enc_bool(follow);
            let k_wait_ms = spec_enc_text("wait_ms"@);
            let v_wait_ms = spec_enc_u64(wait_ms);
            lemma_concat_assoc(k_job_id + v_job_id + k_stream + v_stream + k_offset + v_offset + k_max_bytes + v_max_bytes + k_follow + v_follow + k_wait_ms, v_wait_ms, rest);
            lemma_concat_assoc(k_job_id + v_job_id + k_stream + v_stream + k_offset + v_offset + k_max_bytes + v_max_bytes + k_follow + v_follow, k_wait_ms, (v_wait_ms + rest));
            lemma_concat_assoc(k_job_id + v_job_id + k_stream + v_stream + k_offset + v_offset + k_max_bytes + v_max_bytes + k_follow, v_follow, (k_wait_ms + (v_wait_ms + rest)));
            lemma_concat_assoc(k_job_id + v_job_id + k_stream + v_stream + k_offset + v_offset + k_max_bytes + v_max_bytes, k_follow, (v_follow + (k_wait_ms + (v_wait_ms + rest))));
            lemma_concat_assoc(k_job_id + v_job_id + k_stream + v_stream + k_offset + v_offset + k_max_bytes, v_max_bytes, (k_follow + (v_follow + (k_wait_ms + (v_wait_ms + rest)))));
            lemma_concat_assoc(k_job_id + v_job_id + k_stream + v_stream + k_offset + v_offset, k_max_bytes, (v_max_bytes + (k_follow + (v_follow + (k_wait_ms + (v_wait_ms + rest))))));
            lemma_concat_assoc(k_job_id + v_job_id + k_stream + v_stream + k_offset, v_offset, (k_max_bytes + (v_max_bytes + (k_follow + (v_follow + (k_wait_ms + (v_wait_ms + rest)))))));
            lemma_concat_assoc(k_job_id + v_job_id + k_stream + v_stream, k_offset, (v_offset + (k_max_bytes + (v_max_bytes + (k_follow + (v_follow + (k_wait_ms + (v_wait_ms + rest))))))));
            lemma_concat_assoc(k_job_id + v_job_id + k_stream, v_stream, (k_offset + (v_offset + (k_max_bytes + (v_max_bytes + (k_follow + (v_follow + (k_wait_ms + (v_wait_ms + rest)))))))));
            lemma_concat_assoc(k_job_id + v_job_id, k_stream, (v_stream + (k_offset + (v_offset + (k_max_bytes + (v_max_bytes + (k_follow + (v_follow + (k_wait_ms + (v_wait_ms + rest))))))))));
            lemma_concat_assoc(k_job_id, v_job_id, (k_stream + (v_stream + (k_offset + (v_offset + (k_max_bytes + (v_max_bytes + (k_follow + (v_follow + (k_wait_ms + (v_wait_ms + rest)))))))))));
            lemma_dec_key_enc("job_id"@, (v_job_id + (k_stream + (v_stream + (k_offset + (v_offset + (k_max_bytes + (v_max_bytes + (k_follow + (v_follow + (k_wait_ms + (v_wait_ms + rest))))))))))));
            lemma_dec_text_enc(job_id, (k_stream + (v_stream + (k_offset + (v_offset + (k_max_bytes + (v_max_bytes + (k_follow + (v_follow + (k_wait_ms + (v_wait_ms + rest)))))))))));
            lemma_dec_key_enc("stream"@, (v_stream + (k_offset + (v_offset + (k_max_bytes + (v_max_bytes + (k_follow + (v_follow + (k_wait_ms + (v_wait_ms + rest))))))))));
            lemma_dec_log_stream_enc(stream, (k_offset + (v_offset + (k_max_bytes + (v_max_bytes + (k_follow + (v_follow + (k_wait_ms + (v_wait_ms + rest)))))))));
            lemma_dec_key_enc("offset"@, (v_offset + (k_max_bytes + (v_max_bytes + (k_follow + (v_follow + (k_wait_ms + (v_wait_ms + rest))))))));
            lemma_dec_u64_enc(offset, (k_max_bytes + (v_max_bytes + (k_follow + (v_follow + (k_wait_ms + (v_wait_ms + rest)))))));
            lemma_dec_key_enc("max_bytes"@, (v_max_bytes + (k_follow + (v_follow + (k_wait_ms + (v_wait_ms + rest))))));
            lemma_dec_u32_enc(max_bytes, (k_follow + (v_follow + (k_wait_ms + (v_wait_ms + rest)))));
            lemma_dec_key_enc("follow"@, (v_follow + (k_wait_ms + (v_wait_ms + rest))));
            lemma_dec_bool_enc(follow, (k_wait_ms + (v_wait_ms + rest)));
            lemma_dec_key_enc("wait_ms"@, (v_wait_ms + rest));
            lemma_dec_u64_enc(wait_ms, rest);
        },
        _ => {},
    }
}

/// Decoding inverts encoding for the logs_read form.
#[verifier::rlimit(100)]
proof fn lemma_dec_request_enc_logs_read(m: RequestV, rest: Seq<u8>)
    requires
        m is LogsRead,
        request_fits(m),
    ensures
        spec_dec_request(spec_enc_request(m) + rest) == Some((m, rest)),
{
    lemma_request_tags();
    let fields = spec_enc_request_fields_logs_read(m);
    lemma_dec_request_dispatch("logs_read"@, 7, fields, rest);
    lemma_utf8_ne("version"@, "logs_read"@);
    lemma_utf8_ne("health"@, "logs_read"@);
    lemma_utf8_ne("cell_create"@, "logs_read"@);
    lemma_utf8_ne("job_run"@, "logs_read"@);
    lemma_utf8_ne("job_status"@, "logs_read"@);
    lemma_utf8_ne("job_kill"@, "logs_read"@);
    lemma_utf8_ne("cell_remove"@, "logs_read"@);
    lemma_dec_request_form_logs_read(m, rest);
}

/// Decoding inverts encoding for the fields of the pty_open form.
#[verifier::rlimit(100)]
proof fn lemma_dec_request_form_pty_open(m: RequestV, rest: Seq<u8>)
    requires
        m is PtyOpen,
        request_fits(m),
    ensures
        spec_dec_request_form_pty_open(7, spec_enc_request_fields_pty_open(m) + rest) == Some((m, rest)),
{
    reveal(spec_dec_request_form_pty_open);
    reveal(spec_enc_request_fields_pty_open);
    lemma_request_keys();
    match m {
        RequestV::PtyOpen { shell, args, cwd, env, cols, rows } => {
            let k_shell = spec_enc_text("shell"@);
            let v_shell = spec_enc_text(shell);
            let k_args = spec_enc_text("args"@);
            let v_args = spec_enc_texts(args);
            let k_cwd = spec_enc_text("cwd"@);
            let v_cwd = spec_enc_opt_text(cwd);
            let k_env = spec_enc_text("env"@);
            let v_env = spec_enc_env(env);
            let k_cols = spec_enc_text("cols"@);
            let v_cols = spec_enc_u64(cols as u64);
            let k_rows = spec_enc_text("rows"@);
            let v_rows = spec_enc_u64(rows as u64);
            lemma_concat_assoc(k_shell + v_shell + k_args + v_args + k_cwd + v_cwd + k_env + v_env + k_cols + v_cols + k_rows, v_rows, rest);
            lemma_concat_assoc(k_shell + v_shell + k_args + v_args + k_cwd + v_cwd + k_env + v_env + k_cols + v_cols, k_rows, (v_rows + rest));
            lemma_concat_assoc(k_shell + v_shell + k_args + v_args + k_cwd + v_cwd + k_env + v_env + k_cols, v_cols, (k_rows + (v_rows + rest)));
            lemma_concat_assoc(k_shell + v_shell + k_args + v_args + k_cwd + v_cwd + k_env + v_env, k_cols, (v_cols + (k_rows + (v_rows + rest))));
            lemma_concat_assoc(k_shell + v_shell + k_args + v_args + k_cwd + v_cwd + k_env, v_env, (k_cols + (v_cols + (k_rows + (v_rows + rest)))));
            lemma_concat_assoc(k_shell + v_shell + k_args + v_args + k_cwd + v_cwd, k_env, (v_env + (k_cols + (v_cols + (k_rows + (v_rows + rest))))));
            lemma_concat_assoc(k_shell + v_shell + k_args + v_args + k_cwd, v_cwd, (k_env + (v_env + (k_cols + (v_cols + (k_rows + (v_rows + rest)))))));
            lemma_concat_assoc(k_shell + v_shell + k_args + v_args, k_cwd, (v_cwd + (k_env + (v_env + (k_cols + (v_cols + (k_rows + (v_rows + rest))))))));
            lemma_concat_assoc(k_shell + v_shell + k_args, v_args, (k_cwd + (v_cwd + (k_env + (v_env + (k_cols + (v_cols + (k_rows + (v_rows + rest)))))))));
            lemma_concat_assoc(k_shell + v_shell, k_args, (v_args + (k_cwd + (v_cwd + (k_env + (v_env + (k_cols + (v_cols + (k_rows + (v_rows + rest))))))))));
            lemma_concat_assoc(k_shell, v_shell, (k_args + (v_args + (k_cwd + (v_cwd + (k_env + (v_env + (k_cols + (v_cols + (k_rows + (v_rows + rest)))))))))));
            lemma_dec_key_enc("shell"@, (v_shell + (k_args + (v_args + (k_cwd + (v_cwd + (k_env + (v_env + (k_cols + (v_cols + (k_rows + (v_rows + rest))))))))))));
            lemma_dec_text_enc(shell, (k_args + (v_args + (k_cwd + (v_cwd + (k_env + (v_env + (k_cols + (v_cols + (k_rows + (v_rows + rest)))))))))));
            lemma_dec_key_enc("args"@, (v_args + (k_cwd + (v_cwd + (k_env + (v_env + (k_cols + (v_cols + (k_rows + (v_rows + rest))))))))));
            lemma_dec_texts_enc(args, (k_cwd + (v_cwd + (k_env + (v_env + (k_cols + (v_cols + (k_rows + (v_rows + rest)))))))));
            lemma_dec_key_enc("cwd"@, (v_cwd + (k_env + (v_env + (k_cols + (v_cols + (k_rows + (v_rows + rest))))))));
            lemma_dec_opt_text_enc(cwd, (k_env + (v_env + (k_cols + (v_cols + (k_rows + (v_rows + rest)))))));
            lemma_dec_key_enc("env"@, (v_env + (k_cols + (v_cols + (k_rows + (v_rows + rest))))));
            lemma_dec_env_enc(env, (k_cols + (v_cols + (k_rows + (v_rows + rest)))));
            lemma_dec_key_enc("cols"@, (v_cols + (k_rows + (v_rows + rest))));
            lemma_dec_u16_enc(cols, (k_rows + (v_rows + rest)));
            lemma_dec_key_enc("rows"@, (v_rows + rest));
            lemma_dec_u16_enc(rows, rest);
        },
        _ => {},
    }
}

/// Decoding inverts encoding for the pty_open form.
#[verifier::rlimit(100)]
proof fn lemma_dec_request_enc_pty_open(m: RequestV, rest: Seq<u8>)
    requires
        m is PtyOpen,
        request_fits(m),
    ensures
        spec_dec_request(spec_enc_request(m) + rest) == Some((m, rest)),
{
    lemma_request_tags();
    let fields = spec_enc_request_fields_pty_open(m);
    lemma_dec_request_dispatch("pty_open"@, 7, fields, rest);
    lemma_utf8_ne("version"@, "pty_open"@);
    lemma_utf8_ne("health"@, "pty_open"@);
    lemma_utf8_ne("cell_create"@, "pty_open"@);
    lemma_utf8_ne("job_run"@, "pty_open"@);
    lemma_utf8_ne("job_status"@, "pty_open"@);
    lemma_utf8_ne("job_kill"@, "pty_open"@);
    lemma_utf8_ne("cell_remove"@, "pty_open"@);
    lemma_utf8_ne("logs_read"@, "pty_open"@);
    lemma_dec_request_form_pty_open(m, rest);
}

/// Decoding inverts encoding for the fields of the pty_input form.
#[verifier::rlimit(100)]
proof fn lemma_dec_request_form_pty_input(m: RequestV, rest: Seq<u8>)
    requires
        m is PtyInput,
        request_fits(m),
    ensures
        spec_dec_request_form_pty_input(3, spec_enc_request_fields_pty_input(m) + rest) == Some((m, rest)),
{
    reveal(spec_dec_request_form_pty_input);
    reveal(spec_enc_request_fields_pty_input);
    lemma_request_keys();
    match m {
        RequestV::PtyInput { session_id, data } => {
            let k_session_id = spec_enc_text("session_id"@);
            let v_session_id = spec_enc_u64(session_id);
            let k_data = spec_enc_text("data"@);
            let v_data = spec_enc_bytes(data);
            lemma_concat_assoc(k_session_id + v_session_id + k_data, v_data, rest);
            lemma_concat_assoc(k_session_id + v_session_id, k_data, (v_data + rest));
            lemma_concat_assoc(k_session_id, v_session_id, (k_data + (v_data + rest)));
            lemma_dec_key_enc("session_id"@, (v_session_id + (k_data + (v_data + rest))));
            lemma_dec_u64_enc(session_id, (k_data + (v_data + rest)));
            lemma_dec_key_enc("data"@, (v_data + rest));
            lemma_dec_bytes_enc(data, rest);
        },
        _ => {},
    }
}

/// Decoding inverts encoding for the pty_input form.
#[verifier::rlimit(100)]
proof fn lemma_dec_request_enc_pty_input(m: RequestV, rest: Seq<u8>)
    requires
        m is PtyInput,
        request_fits(m),
    ensures
        spec_dec_request(spec_enc_request(m) + rest) == Some((m, rest)),
{
    lemma_request_tags();
    let fields = spec_enc_request_fields_pty_input(m);
    lemma_dec_request_dispatch("pty_input"@, 3, fields, rest);
    lemma_utf8_ne("version"@, "pty_input"@);
    lemma_utf8_ne("health"@, "pty_input"@);
    lemma_utf8_ne("cell_create"@, "pty_input"@);
    lemma_utf8_ne("job_run"@, "pty_input"@);
    lemma_utf8_ne("job_status"@, "pty_input"@);
    lemma_utf8_ne("job_kill"@, "pty_input"@);
    lemma_utf8_ne("cell_remove"@, "pty_input"@);
    lemma_utf8_ne("logs_read"@, "pty_input"@);
    lemma_utf8_ne("pty_open"@, "pty_input"@);
    lemma_dec_request_form_pty_input(m, rest);
}

/// Decoding inverts encoding for the fields of the pty_read form.
#[verifier::rlimit(100)]
proof fn lemma_dec_request_form_pty_read(m: RequestV, rest: Seq<u8>)
    requires
        m is PtyRead,
        request_fits(m),
    ensures
        spec_dec_request_form_pty_read(6, spec_enc_request_fields_pty_read(m) + rest) == Some((m, rest)),
{
    reveal(spec_dec_request_form_pty_read);
    reveal(spec_enc_request_fields_pty_read);
    lemma_request_keys();
    match m {
        RequestV::PtyRead { session_id, offset, max_bytes, follow, wait_ms } => {
            let k_session_id = spec_enc_text("session_id"@);
            let v_session_id = spec_enc_u64(session_id);
            let k_offset = spec_enc_text("offset"@);
            let v_offset = spec_enc_u64(offset);
            let k_max_bytes = spec_enc_text("max_bytes"@);
            let v_max_bytes = spec_enc_u64(max_bytes as u64);
            let k_follow = spec_enc_text("follow"@);
            let v_follow = spec_enc_bool(follow);
            let k_wait_ms = spec_enc_text("wait_ms"@);
            let v_wait_ms = spec_enc_u64(wait_ms);
            lemma_concat_assoc(k_session_id + v_session_id + k_offset + v_offset + k_max_bytes + v_max_bytes + k_follow + v_follow + k_wait_ms, v_wait_ms, rest);
            lemma_concat_assoc(k_session_id + v_session_id + k_offset + v_offset + k_max_bytes + v_max_bytes + k_follow + v_follow, k_wait_ms, (v_wait_ms + rest));
            lemma_concat_assoc(k_session_id + v_session_id + k_offset + v_offset + k_max_bytes + v_max_bytes + k_follow, v_follow, (k_wait_ms + (v_wait_ms + rest)));
            lemma_concat_assoc(k_session_id + v_session_id + k_offset + v_offset + k_max_bytes + v_max_bytes, k_follow, (v_follow + (k_wait_ms + (v_wait_ms + rest))));
            lemma_concat_assoc(k_session_id + v_session_id + k_offset + v_offset + k_max_bytes, v_max_bytes, (k_follow + (v_follow + (k_wait_ms + (v_wait_ms + rest)))));
            lemma_concat_assoc(k_session_id + v_session_id + k_offset + v_offset, k_max_bytes, (v_max_bytes + (k_follow + (v_follow + (k_wait_ms + (v_wait_ms + rest))))));
            lemma_concat_assoc(k_session_id + v_session_id + k_offset, v_offset, (k_max_bytes + (v_max_bytes + (k_follow + (v_follow + (k_wait_ms + (v_wait_ms + rest)))))));
            lemma_concat_assoc(k_session_id + v_session_id, k_offset, (v_offset + (k_max_bytes + (v_max_bytes + (k_follow + (v_follow + (k_wait_ms + (v_wait_ms + rest))))))));
            lemma_concat_assoc(k_session_id, v_session_id, (k_offset + (v_offset + (k_max_bytes + (v_max_bytes + (k_follow + (v_follow + (k_wait_ms + (v_wait_ms + rest)))))))));
            lemma_dec_key_enc("session_id"@, (v_session_id + (k_offset + (v_offset + (k_max_bytes + (v_max_bytes + (k_follow + (v_follow + (k_wait_ms + (v_wait_ms + rest))))))))));
            lemma_dec_u64_enc(session_id, (k_offset + (v_offset + (k_max_bytes + (v_max_bytes + (k_follow + (v_follow + (k_wait_ms + (v_wait_ms + rest)))))))));
            lemma_dec_key_enc("offset"@, (v_offset + (k_max_bytes + (v_max_bytes + (k_follow + (v_follow + (k_wait_ms + (v_wait_ms + rest))))))));
            lemma_dec_u64_enc(offset, (k_max_bytes + (v_max_bytes + (k_follow + (v_follow + (k_wait_ms + (v_wait_ms + rest)))))));
            lemma_dec_key_enc("max_bytes"@, (v_max_bytes + (k_follow + (v_follow + (k_wait_ms + (v_wait_ms + rest))))));
            lemma_dec_u32_enc(max_bytes, (k_follow + (v_follow + (k_wait_ms + (v_wait_ms + rest)))));
            lemma_dec_key_enc("follow"@, (v_follow + (k_wait_ms + (v_wait_ms + rest))));
            lemma_dec_bool_enc(follow, (k_wait_ms + (v_wait_ms + rest)));
            lemma_dec_key_enc("wait_ms"@, (v_wait_ms + rest));
            lemma_dec_u64_enc(wait_ms, rest);
        },
        _ => {},
    }
}

/// Decoding inverts encoding for the pty_read form.
#[verifier::rlimit(100)]
proof fn lemma_dec_request_enc_pty_read(m: RequestV, rest: Seq<u8>)
    requires
        m is PtyRead,
        request_fits(m),
    ensures
        spec_dec_request(spec_enc_request(m) + rest) == Some((m, rest)),
{
    lemma_request_tags();
    let fields = spec_enc_request_fields_pty_read(m);
    lemma_dec_request_dispatch("pty_read"@, 6, fields, rest);
    lemma_utf8_ne("version"@, "pty_read"@);
    lemma_utf8_ne("health"@, "pty_read"@);
    lemma_utf8_ne("cell_create"@, "pty_read"@);
    lemma_utf8_ne("job_run"@, "pty_read"@);
    lemma_utf8_ne("job_status"@, "pty_read"@);
    lemma_utf8_ne("job_kill"@, "pty_read"@);
    lemma_utf8_ne("cell_remove"@, "pty_read"@);
    lemma_utf8_ne("logs_read"@, "pty_read"@);
    lemma_utf8_ne("pty_open"@, "pty_read"@);
    lemma_utf8_ne("pty_input"@, "pty_read"@);
    lemma_dec_request_form_pty_read(m, rest);
}

/// Decoding inverts encoding for the fields of the pty_resize form.
#[verifier::rlimit(100)]
proof fn lemma_dec_request_form_pty_resize(m: RequestV, rest: Seq<u8>)
    requires
        m is PtyResize,
        request_fits(m),
    ensures
        spec_dec_request_form_pty_resize(4, spec_enc_request_fields_pty_resize(m) + rest) == Some((m, rest)),
{
    reveal(spec_dec_request_form_pty_resize);
    reveal(spec_enc_request_fields_pty_resize);
    lemma_request_keys();
    match m {
        RequestV::PtyResize { session_id, cols, rows } => {
            let k_session_id = spec_enc_text("session_id"@);
            let v_session_id = spec_enc_u64(session_id);
            let k_cols = spec_enc_text("cols"@);
            let v_cols = spec_enc_u64(cols as u64);
            let k_rows = spec_enc_text("rows"@);
            let v_rows = spec_enc_u64(rows as u64);
            lemma_concat_assoc(k_session_id + v_session_id + k_cols + v_cols + k_rows, v_rows, rest);
            lemma_concat_assoc(k_session_id + v_session_id + k_cols + v_cols, k_rows, (v_rows + rest));
            lemma_concat_assoc(k_session_id + v_session_id + k_cols, v_cols, (k_rows + (v_rows + rest)));
            lemma_concat_assoc(k_session_id + v_session_id, k_cols, (v_cols + (k_rows + (v_rows + rest))));
            lemma_concat_assoc(k_session_id, v_session_id, (k_cols + (v_cols + (k_rows + (v_rows + rest)))));
            lemma_dec_key_enc("session_id"@, (v_session_id + (k_cols + (v_cols + (k_rows + (v_rows + rest))))));
            lemma_dec_u64_enc(session_id, (k_cols + (v_cols + (k_rows + (v_rows + rest)))));
            lemma_dec_key_enc("cols"@, (v_cols + (k_rows + (v_rows + rest))));
            lemma_dec_u16_enc(cols, (k_rows + (v_rows + rest)));
            lemma_dec_key_enc("rows"@, (v_rows + rest));
            lemma_dec_u16_enc(rows, rest);
        },
        _ => {},
    }
}

/// Decoding inverts encoding for the pty_resize form.
#[verifier::rlimit(100)]
proof fn lemma_dec_request_enc_pty_resize(m: RequestV, rest: Seq<u8>)
    requires
        m is PtyResize,
        request_fits(m),
    ensures
        spec_dec_request(spec_enc_request(m) + rest) == Some((m, rest)),
{
    lemma_request_tags();
    let fields = spec_enc_request_fields_pty_resize(m);
    lemma_dec_request_dispatch("pty_resize"@, 4, fields, rest);
    lemma_utf8_ne("version"@, "pty_resize"@);
    lemma_utf8_ne("health"@, "pty_resize"@);
    lemma_utf8_ne("cell_create"@, "pty_resize"@);
    lemma_utf8_ne("job_run"@, "pty_resize"@);
    lemma_utf8_ne("job_status"@, "pty_resize"@);
    lemma_utf8_ne("job_kill"@, "pty_resize"@);
    lemma_utf8_ne("cell_remove"@, "pty_resize"@);
    lemma_utf8_ne("logs_read"@, "pty_resize"@);
    lemma_utf8_ne("pty_open"@, "pty_resize"@);
    lemma_utf8_ne("pty_input"@, "pty_resize"@);
    lemma_utf8_ne("pty_read"@, "pty_resize"@);
    lemma_dec_request_form_pty_resize(m, rest);
}

/// Decoding inverts encoding for the fields of the pty_close form.
#[verifier::rlimit(100)]
proof fn lemma_dec_request_form_pty_close(m: RequestV, rest: Seq<u8>)
    requires
        m is PtyClose,
        request_fits(m),
    ensures
        spec_dec_request_form_pty_close(3, spec_enc_request_fields_pty_close(m) + rest) == Some((m, rest)),
{
    reveal(spec_dec_request_form_pty_close);
    reveal(spec_enc_request_fields_pty_close);
    lemma_request_keys();
    match m {
        RequestV::PtyClose { session_id, force } => {
            let k_session_id = spec_enc_text("session_id"@);
            let v_session_id = spec_enc_u64(session_id);
            let k_force = spec_enc_text("force"@);
            let v_force = spec_enc_bool(force);
            lemma_concat_assoc(k_session_id + v_session_id + k_force, v_force, rest);
            lemma_concat_assoc(k_session_id + v_session_id, k_force, (v_force + rest));
            lemma_concat_assoc(k_session_id, v_session_id, (k_force + (v_force + rest)));
            lemma_dec_key_enc("session_id"@, (v_session_id + (k_force + (v_force + rest))));
            lemma_dec_u64_enc(session_id, (k_force + (v_force + rest)));
            lemma_dec_key_enc("force"@, (v_force + rest));
            lemma_dec_bool_enc(force, rest);
        },
        _ => {},
    }
}

/// Decoding inverts encoding for the pty_close form.
#[verifier::rlimit(100)]
proof fn lemma_dec_request_enc_pty_close(m: RequestV, rest: Seq<u8>)
    requires
        m is PtyClose,
        request_fits(m),
    ensures
        spec_dec_request(spec_enc_request(m) + rest) == Some((m, rest)),
{
    lemma_request_tags();
    let fields = spec_enc_request_fields_pty_close(m);
    lemma_dec_request_dispatch("pty_close"@, 3, fields, rest);
    lemma_utf8_ne("version"@, "pty_close"@);
    lemma_utf8_ne("health"@, "pty_close"@);
    lemma_utf8_ne("cell_create"@, "pty_close"@);
    lemma_utf8_ne("job_run"@, "pty_close"@);
    lemma_utf8_ne("job_status"@, "pty_close"@);
    lemma_utf8_ne("job_kill"@, "pty_close"@);
    lemma_utf8_ne("cell_remove"@, "pty_close"@);
    lemma_utf8_ne("logs_read"@, "pty_close"@);
    lemma_utf8_ne("pty_open"@, "pty_close"@);
    lemma_utf8_ne("pty_input"@, "pty_close"@);
    lemma_utf8_ne("pty_read"@, "pty_close"@);
    lemma_utf8_ne("pty_resize"@, "pty_close"@);
    lemma_dec_request_form_pty_close(m, rest);
}

/// Decoding a request body inverts encoding one.
pub proof fn lemma_dec_request_enc(m: RequestV, rest: Seq<u8>)
    requires
        request_fits(m),
    ensures
        spec_dec_request(spec_enc_request(m) + rest) == Some((m, rest)),
{
    match m {
        RequestV::Version => lemma_dec_request_enc_version(m, rest),
        RequestV::Health => lemma_dec_request_enc_health(m, rest),
        RequestV::CellCreate { .. } => lemma_dec_request_enc_cell_create(m, rest),
        RequestV::JobRun { .. } => lemma_dec_request_enc_job_run(m, rest),
        RequestV::JobStatus { .. } => lemma_dec_request_enc_job_status(m, rest),
        RequestV::JobKill { .. } => lemma_dec_request_enc_job_kill(m, rest),
        RequestV::CellRemove { .. } => lemma_dec_request_enc_cell_remove(m, rest),
        RequestV::LogsRead { .. } => lemma_dec_request_enc_logs_read(m, rest),
        RequestV::PtyOpen { .. } => lemma_dec_request_enc_pty_open(m, rest),
        RequestV::PtyInput { .. } => lemma_dec_request_enc_pty_input(m, rest),
        RequestV::PtyRead { .. } => lemma_dec_request_enc_pty_read(m, rest),
        RequestV::PtyResize { .. } => lemma_dec_request_enc_pty_resize(m, rest),
        RequestV::PtyClose { .. } => lemma_dec_request_enc_pty_close(m, rest),
    }
}

/// Appends an encoded request body.
#[verifier::rlimit(100)]
pub fn enc_request(out: &mut Vec<u8>, v: &Request)
    ensures
        final(out)@ == old(out)@ + spec_enc_request(v@),
{
    match v {
        Request::Version {  } => {
            enc_uint(out, MAJOR_MAP, 1);
            enc_text(out, "type");
            enc_text(out, "version");
            proof {
                reveal(spec_enc_request_fields_version);
                let o = old(out)@;
                let h = spec_enc_uint(MAJOR_MAP, 1);
                let tk = spec_enc_text("type"@);
                let tv = spec_enc_text("version"@);
                lemma_concat_assoc(o, h, tk);
                lemma_concat_assoc(o, h + tk, tv);
                assert(out@ =~= o + spec_enc_request(v@));
            }
        },
        Request::Health {  } => {
            enc_uint(out, MAJOR_MAP, 1);
            enc_text(out, "type");
            enc_text(out, "health");
            proof {
                reveal(spec_enc_request_fields_health);
                let o = old(out)@;
                let h = spec_enc_uint(MAJOR_MAP, 1);
                let tk = spec_enc_text("type"@);
                let tv = spec_enc_text("health"@);
                lemma_concat_assoc(o, h, tk);
                lemma_concat_assoc(o, h + tk, tv);
                assert(out@ =~= o + spec_enc_request(v@));
            }
        },
        Request::CellCreate { spec } => {
            enc_uint(out, MAJOR_MAP, 2);
            enc_text(out, "type");
            enc_text(out, "cell_create");
            enc_text(out, "spec");
            enc_cell_spec(out, spec);
            proof {
                reveal(spec_enc_request_fields_cell_create);
                let o = old(out)@;
                let h = spec_enc_uint(MAJOR_MAP, 2);
                let tk = spec_enc_text("type"@);
                let tv = spec_enc_text("cell_create"@);
                let k_spec = spec_enc_text("spec"@);
                let v_spec = spec_enc_cell_spec(spec@);
                lemma_concat_assoc(o, h, tk);
                lemma_concat_assoc(o, h + tk, tv);
                lemma_concat_assoc(o, h + tk + tv, k_spec);
                lemma_concat_assoc(o, h + tk + tv + k_spec, v_spec);
                lemma_concat_assoc(h + tk + tv, k_spec, v_spec);
            }
        },
        Request::JobRun { cell_id, cmd } => {
            enc_uint(out, MAJOR_MAP, 3);
            enc_text(out, "type");
            enc_text(out, "job_run");
            enc_text(out, "cell_id");
            enc_text(out, cell_id.0.as_str());
            enc_text(out, "cmd");
            enc_cmd(out, cmd);
            proof {
                reveal(spec_enc_request_fields_job_run);
                let o = old(out)@;
                let h = spec_enc_uint(MAJOR_MAP, 3);
                let tk = spec_enc_text("type"@);
                let tv = spec_enc_text("job_run"@);
                let k_cell_id = spec_enc_text("cell_id"@);
                let v_cell_id = spec_enc_text(cell_id@);
                let k_cmd = spec_enc_text("cmd"@);
                let v_cmd = spec_enc_cmd(cmd@);
                lemma_concat_assoc(o, h, tk);
                lemma_concat_assoc(o, h + tk, tv);
                lemma_concat_assoc(o, h + tk + tv, k_cell_id);
                lemma_concat_assoc(o, h + tk + tv + k_cell_id, v_cell_id);
                lemma_concat_assoc(o, h + tk + tv + k_cell_id + v_cell_id, k_cmd);
                lemma_concat_assoc(o, h + tk + tv + k_cell_id + v_cell_id + k_cmd, v_cmd);
                lemma_concat_assoc(h + tk + tv, k_cell_id, v_cell_id);
                lemma_concat_assoc(h + tk + tv, k_cell_id + v_cell_id, k_cmd);
                lemma_concat_assoc(h + tk + tv, k_cell_id + v_cell_id + k_cmd, v_cmd);
            }
        },
        Request::JobStatus { job_id } => {
            enc_uint(out, MAJOR_MAP, 2);
            enc_text(out, "type");
            enc_text(out, "job_status");
            enc_text(out, "job_id");
            enc_text(out, job_id.0.as_str());
            proof {
                reveal(spec_enc_request_fields_job_status);
                let o = old(out)@;
                let h = spec_enc_uint(MAJOR_MAP, 2);
                let tk = spec_enc_text("type"@);
                let tv = spec_enc_text("job_status"@);
                let k_job_id = spec_enc_text("job_id"@);
                let v_job_id = spec_enc_text(job_id@);
                lemma_concat_assoc(o, h, tk);
                lemma_concat_assoc(o, h + tk, tv);
                lemma_concat_assoc(o, h + tk + tv, k_job_id);
                lemma_concat_assoc(o, h + tk + tv + k_job_id, v_job_id);
                lemma_concat_assoc(h + tk + tv, k_job_id, v_job_id);
            }
        },
        Request::JobKill { job_id, force } => {
            enc_uint(out, MAJOR_MAP, 3);
            enc_text(out, "type");
            enc_text(out, "job_kill");
            enc_text(out, "job_id");
            enc_text(out, job_id.0.as_str());
            enc_text(out, "force");
            enc_bool(out, *force);
            proof {
                reveal(spec_enc_request_fields_job_kill);
                let o = old(out)@;
                let h = spec_enc_uint(MAJOR_MAP, 3);
                let tk = spec_enc_text("type"@);
                let tv = spec_enc_text("job_kill"@);
                let k_job_id = spec_enc_text("job_id"@);
                let v_job_id = spec_enc_text(job_id@);
                let k_force = spec_enc_text("force"@);
                let v_force = spec_enc_bool(*force);
                lemma_concat_assoc(o, h, tk);
                lemma_concat_assoc(o, h + tk, tv);
                lemma_concat_assoc(o, h + tk + tv, k_job_id);
                lemma_concat_assoc(o, h + tk + tv + k_job_id, v_job_id);
                lemma_concat_assoc(o, h + tk + tv + k_job_id + v_job_id, k_force);
                lemma_concat_assoc(o, h + tk + tv + k_job_id + v_job_id + k_force, v_force);
                lemma_concat_assoc(h + tk + tv, k_job_id, v_job_id);
                lemma_concat_assoc(h + tk + tv, k_job_id + v_job_id, k_force);
                lemma_concat_assoc(h + tk + tv, k_job_id + v_job_id + k_force, v_force);
            }
        },
        Request::CellRemove { cell_id, force } => {
            enc_uint(out, MAJOR_MAP, 3);
            enc_text(out, "type");
            enc_text(out, "cell_remove");
            enc_text(out, "cell_id");
            enc_text(out, cell_id.0.as_str());
            enc_text(out, "force");
            enc_bool(out, *force);
            proof {
                reveal(spec_enc_request_fields_cell_remove);
                let o = old(out)@;
                let h = spec_enc_uint(MAJOR_MAP, 3);
                let tk = spec_enc_text("type"@);
                let tv = spec_enc_text("cell_remove"@);
                let k_cell_id = spec_enc_text("cell_id"@);
                let v_cell_id = spec_enc_text(cell_id@);
                let k_force = spec_enc_text("force"@);
                let v_force = spec_enc_bool(*force);
                lemma_concat_assoc(o, h, tk);
                lemma_concat_assoc(o, h + tk, tv);
                lemma_concat_assoc(o, h + tk + tv, k_cell_id);
                lemma_concat_assoc(o, h + tk + tv + k_cell_id, v_cell_id);
                lemma_concat_assoc(o, h + tk + tv + k_cell_id + v_cell_id, k_force);
                lemma_concat_assoc(o, h + tk + tv + k_cell_id + v_cell_id + k_force, v_force);
                lemma_concat_assoc(h + tk + tv, k_cell_id, v_cell_id);
                lemma_concat_assoc(h + tk + tv, k_cell_id + v_cell_id, k_force);
                lemma_concat_assoc(h + tk + tv, k_cell_id + v_cell_id + k_force, v_force);
            }
        },
        Request::LogsRead { job_id, stream, offset, max_bytes, follow, wait_ms } => {
            enc_uint(out, MAJOR_MAP, 7);
            enc_text(out, "type");
            enc_text(out, "logs_read");
            enc_text(out, "job_id");
            enc_text(out, job_id.0.as_str());
            enc_text(out, "stream");
            enc_log_stream(out, stream);
            enc_text(out, "offset");
            enc_u64(out, *offset);
            enc_text(out, "max_bytes");
            enc_u64(out, *max_bytes as u64);
            enc_text(out, "follow");
            enc_bool(out, *follow);
            enc_text(out, "wait_ms");
            enc_u64(out, *wait_ms);
            proof {
                reveal(spec_enc_request_fields_logs_read);
                let o = old(out)@;
                let h = spec_enc_uint(MAJOR_MAP, 7);
                let tk = spec_enc_text("type"@);
                let tv = spec_enc_text("logs_read"@);
                let k_job_id = spec_enc_text("job_id"@);
                let v_job_id = spec_enc_text(job_id@);
                let k_stream = spec_enc_text("stream"@);
                let v_stream = spec_enc_log_stream(*stream);
                let k_offset = spec_enc_text("offset"@);
                let v_offset = spec_enc_u64(*offset);
                let k_max_bytes = spec_enc_text("max_bytes"@);
                let v_max_bytes = spec_enc_u64(*max_bytes as u64);
                let k_follow = spec_enc_text("follow"@);
                let v_follow = spec_enc_bool(*follow);
                let k_wait_ms = spec_enc_text("wait_ms"@);
                let v_wait_ms = spec_enc_u64(*wait_ms);
                lemma_concat_assoc(o, h, tk);
                lemma_concat_assoc(o, h + tk, tv);
                lemma_concat_assoc(o, h + tk + tv, k_job_id);
                lemma_concat_assoc(o, h + tk + tv + k_job_id, v_job_id);
                lemma_concat_assoc(o, h + tk + tv + k_job_id + v_job_id, k_stream);
                lemma_concat_assoc(o, h + tk + tv + k_job_id + v_job_id + k_stream, v_stream);
                lemma_concat_assoc(o, h + tk + tv + k_job_id + v_job_id + k_stream + v_stream, k_offset);
                lemma_concat_assoc(o, h + tk + tv + k_job_id + v_job_id + k_stream + v_stream + k_offset, v_offset);
                lemma_concat_assoc(o, h + tk + tv + k_job_id + v_job_id + k_stream + v_stream + k_offset + v_offset, k_max_bytes);
                lemma_concat_assoc(o, h + tk + tv + k_job_id + v_job_id + k_stream + v_stream + k_offset + v_offset + k_max_bytes, v_max_bytes);
                lemma_concat_assoc(o, h + tk + tv + k_job_id + v_job_id + k_stream + v_stream + k_offset + v_offset + k_max_bytes + v_max_bytes, k_follow);
                lemma_concat_assoc(o, h + tk + tv + k_job_id + v_job_id + k_stream + v_stream + k_offset + v_offset + k_max_bytes + v_max_bytes + k_follow, v_follow);
                lemma_concat_assoc(o, h + tk + tv + k_job_id + v_job_id + k_stream + v_stream + k_offset + v_offset + k_max_bytes + v_max_bytes + k_follow + v_follow, k_wait_ms);
                lemma_concat_assoc(o, h + tk + tv + k_job_id + v_job_id + k_stream + v_stream + k_offset + v_offset + k_max_bytes + v_max_bytes + k_follow + v_follow + k_wait_ms, v_wait_ms);
                lemma_concat_assoc(h + tk + tv, k_job_id, v_job_id);
                lemma_concat_assoc(h + tk + tv, k_job_id + v_job_id, k_stream);
                lemma_concat_assoc(h + tk + tv, k_job_id + v_job_id + k_stream, v_stream);
                lemma_concat_assoc(h + tk + tv, k_job_id + v_job_id + k_stream + v_stream, k_offset);
                lemma_concat_assoc(h + tk + tv, k_job_id + v_job_id + k_stream + v_stream + k_offset, v_offset);
                lemma_concat_assoc(h + tk + tv, k_job_id + v_job_id + k_stream + v_stream + k_offset + v_offset, k_max_bytes);
                lemma_concat_assoc(h + tk + tv, k_job_id + v_job_id + k_stream + v_stream + k_offset + v_offset + k_max_bytes, v_max_bytes);
                lemma_concat_assoc(h + tk + tv, k_job_id + v_job_id + k_stream + v_stream + k_offset + v_offset + k_max_bytes + v_max_bytes, k_follow);
                lemma_concat_assoc(h + tk + tv, k_job_id + v_job_id + k_stream + v_stream + k_offset + v_offset + k_max_bytes + v_max_bytes + k_follow, v_follow);
                lemma_concat_assoc(h + tk + tv, k_job_id + v_job_id + k_stream + v_stream + k_offset + v_offset + k_max_bytes + v_max_bytes + k_follow + v_follow, k_wait_ms);
                lemma_concat_assoc(h + tk + tv, k_job_id + v_job_id + k_stream + v_stream + k_offset + v_offset + k_max_bytes + v_max_bytes + k_follow + v_follow + k_wait_ms, v_wait_ms);
            }
        },
        Request::PtyOpen { shell, args, cwd, env, cols, rows } => {
            enc_uint(out, MAJOR_MAP, 7);
            enc_text(out, "type");
            enc_text(out, "pty_open");
            enc_text(out, "shell");
            enc_text(out, shell.as_str());
            enc_text(out, "args");
            enc_texts(out, args);
            enc_text(out, "cwd");
            enc_opt_text(out, cwd);
            enc_text(out, "env");
            enc_env(out, env);
            enc_text(out, "cols");
            enc_u64(out, *cols as u64);
            enc_text(out, "rows");
            enc_u64(out, *rows as u64);
            proof {
                reveal(spec_enc_request_fields_pty_open);
                let o = old(out)@;
                let h = spec_enc_uint(MAJOR_MAP, 7);
                let tk = spec_enc_text("type"@);
                let tv = spec_enc_text("pty_open"@);
                let k_shell = spec_enc_text("shell"@);
                let v_shell = spec_enc_text(shell@);
                let k_args = spec_enc_text("args"@);
                let v_args = spec_enc_texts(args.deep_view());
                let k_cwd = spec_enc_text("cwd"@);
                let v_cwd = spec_enc_opt_text(cwd.deep_view());
                let k_env = spec_enc_text("env"@);
                let v_env = spec_enc_env(env@);
                let k_cols = spec_enc_text("cols"@);
                let v_cols = spec_enc_u64(*cols as u64);
                let k_rows = spec_enc_text("rows"@);
                let v_rows = spec_enc_u64(*rows as u64);
                lemma_concat_assoc(o, h, tk);
                lemma_concat_assoc(o, h + tk, tv);
                lemma_concat_assoc(o, h + tk + tv, k_shell);
                lemma_concat_assoc(o, h + tk + tv + k_shell, v_shell);
                lemma_concat_assoc(o, h + tk + tv + k_shell + v_shell, k_args);
                lemma_concat_assoc(o, h + tk + tv + k_shell + v_shell + k_args, v_args);
                lemma_concat_assoc(o, h + tk + tv + k_shell + v_shell + k_args + v_args, k_cwd);
                lemma_concat_assoc(o, h + tk + tv + k_shell + v_shell + k_args + v_args + k_cwd, v_cwd);
                lemma_concat_assoc(o, h + tk + tv + k_shell + v_shell + k_args + v_args + k_cwd + v_cwd, k_env);
                lemma_concat_assoc(o, h + tk + tv + k_shell + v_shell + k_args + v_args + k_cwd + v_cwd + k_env, v_env);
                lemma_concat_assoc(o, h + tk + tv + k_shell + v_shell + k_args + v_args + k_cwd + v_cwd + k_env + v_env, k_cols);
                lemma_concat_assoc(o, h + tk + tv + k_shell + v_shell + k_args + v_args + k_cwd + v_cwd + k_env + v_env + k_cols, v_cols);
                lemma_concat_assoc(o, h + tk + tv + k_shell + v_shell + k_args + v_args + k_cwd + v_cwd + k_env + v_env + k_cols + v_cols, k_rows);
                lemma_concat_assoc(o, h + tk + tv + k_shell + v_shell + k_args + v_args + k_cwd + v_cwd + k_env + v_env + k_cols + v_cols + k_rows, v_rows);
                lemma_concat_assoc(h + tk + tv, k_shell, v_shell);
                lemma_concat_assoc(h + tk + tv, k_shell + v_shell, k_args);
                lemma_concat_assoc(h + tk + tv, k_shell + v_shell + k_args, v_args);
                lemma_concat_assoc(h + tk + tv, k_shell + v_shell + k_args + v_args, k_cwd);
                lemma_concat_assoc(h + tk + tv, k_shell + v_shell + k_args + v_args + k_cwd, v_cwd);
                lemma_concat_assoc(h + tk + tv, k_shell + v_shell + k_args + v_args + k_cwd + v_cwd, k_env);
                lemma_concat_assoc(h + tk + tv, k_shell + v_shell + k_args + v_args + k_cwd + v_cwd + k_env, v_env);
                lemma_concat_assoc(h + tk + tv, k_shell + v_shell + k_args + v_args + k_cwd + v_cwd + k_env + v_env, k_cols);
                lemma_concat_assoc(h + tk + tv, k_shell + v_shell + k_args + v_args + k_cwd + v_cwd + k_env + v_env + k_cols, v_cols);
                lemma_concat_assoc(h + tk + tv, k_shell + v_shell + k_args + v_args + k_cwd + v_cwd + k_env + v_env + k_cols + v_cols, k_rows);
                lemma_concat_assoc(h + tk + tv, k_shell + v_shell + k_args + v_args + k_cwd + v_cwd + k_env + v_env + k_cols + v_cols + k_rows, v_rows);
            }
        },
        Request::PtyInput { session_id, data } => {
            enc_uint(out, MAJOR_MAP, 3);
            enc_text(out, "type");
            enc_text(out, "pty_input");
            enc_text(out, "session_id");
            enc_u64(out, session_id.0);
            enc_text(out, "data");
            enc_data(out, data);
            proof {
                reveal(spec_enc_request_fields_pty_input);
                let o = old(out)@;
                let h = spec_enc_uint(MAJOR_MAP, 3);
                let tk = spec_enc_text("type"@);
                let tv = spec_enc_text("pty_input"@);
                let k_session_id = spec_enc_text("session_id"@);
                let v_session_id = spec_enc_u64(session_id.0);
                let k_data = spec_enc_text("data"@);
                let v_data = spec_enc_bytes(data@);
                lemma_concat_assoc(o, h, tk);
                lemma_concat_assoc(o, h + tk, tv);
                lemma_concat_assoc(o, h + tk + tv, k_session_id);
                lemma_concat_assoc(o, h + tk + tv + k_session_id, v_session_id);
                lemma_concat_assoc(o, h + tk + tv + k_session_id + v_session_id, k_data);
                lemma_concat_assoc(o, h + tk + tv + k_session_id + v_session_id + k_data, v_data);
                lemma_concat_assoc(h + tk + tv, k_session_id, v_session_id);
                lemma_concat_assoc(h + tk + tv, k_session_id + v_session_id, k_data);
                lemma_concat_assoc(h + tk + tv, k_session_id + v_session_id + k_data, v_data);
            }
        },
        Request::PtyRead { session_id, offset, max_bytes, follow, wait_ms } => {
            enc_uint(out, MAJOR_MAP, 6);
            enc_text(out, "type");
            enc_text(out, "pty_read");
            enc_text(out, "session_id");
            enc_u64(out, session_id.0);
            enc_text(out, "offset");
            enc_u64(out, *offset);
            enc_text(out, "max_bytes");
            enc_u64(out, *max_bytes as u64);
            enc_text(out, "follow");
            enc_bool(out, *follow);
            enc_text(out, "wait_ms");
            enc_u64(out, *wait_ms);
            proof {
                reveal(spec_enc_request_fields_pty_read);
                let o = old(out)@;
                let h = spec_enc_uint(MAJOR_MAP, 6);
                let tk = spec_enc_text("type"@);
                let tv = spec_enc_text("pty_read"@);
                let k_session_id = spec_enc_text("session_id"@);
                let v_session_id = spec_enc_u64(session_id.0);
                let k_offset = spec_enc_text("offset"@);
                let v_offset = spec_enc_u64(*offset);
                let k_max_bytes = spec_enc_text("max_bytes"@);
                let v_max_bytes = spec_enc_u64(*max_bytes as u64);
                let k_follow = spec_enc_text("follow"@);
                let v_follow = spec_enc_bool(*follow);
                let k_wait_ms = spec_enc_text("wait_ms"@);
                let v_wait_ms = spec_enc_u64(*wait_ms);
                lemma_concat_assoc(o, h, tk);
                lemma_concat_assoc(o, h + tk, tv);
                lemma_concat_assoc(o, h + tk + tv, k_session_id);
                lemma_concat_assoc(o, h + tk + tv + k_session_id, v_session_id);
                lemma_concat_assoc(o, h + tk + tv + k_session_id + v_session_id, k_offset);
                lemma_concat_assoc(o, h + tk + tv + k_session_id + v_session_id + k_offset, v_offset);
                lemma_concat_assoc(o, h + tk + tv + k_session_id + v_session_id + k_offset + v_offset, k_max_bytes);
                lemma_concat_assoc(o, h + tk + tv + k_session_id + v_session_id + k_offset + v_offset + k_max_bytes, v_max_bytes);
                lemma_concat_assoc(o, h + tk + tv + k_session_id + v_session_id + k_offset + v_offset + k_max_bytes + v_max_bytes, k_follow);
                lemma_concat_assoc(o, h + tk + tv + k_session_id + v_session_id + k_offset + v_offset + k_max_bytes + v_max_bytes + k_follow, v_follow);
                lemma_concat_assoc(o, h + tk + tv + k_session_id + v_session_id + k_offset + v_offset + k_max_bytes + v_max_bytes + k_follow + v_follow, k_wait_ms);
                lemma_concat_assoc(o, h + tk + tv + k_session_id + v_session_id + k_offset + v_offset + k_max_bytes + v_max_bytes + k_follow + v_follow + k_wait_ms, v_wait_ms);
                lemma_concat_assoc(h + tk + tv, k_session_id, v_session_id);
                lemma_concat_assoc(h + tk + tv, k_session_id + v_session_id, k_offset);
                lemma_concat_assoc(h + tk + tv, k_session_id + v_session_id + k_offset, v_offset);
                lemma_concat_assoc(h + tk + tv, k_session_id + v_session_id + k_offset + v_offset, k_max_bytes);
                lemma_concat_assoc(h + tk + tv, k_session_id + v_session_id + k_offset + v_offset + k_max_bytes, v_max_bytes);
                lemma_concat_assoc(h + tk + tv, k_session_id + v_session_id + k_offset + v_offset + k_max_bytes + v_max_bytes, k_follow);
                lemma_concat_assoc(h + tk + tv, k_session_id + v_session_id + k_offset + v_offset + k_max_bytes + v_max_bytes + k_follow, v_follow);
                lemma_concat_assoc(h + tk + tv, k_session_id + v_session_id + k_offset + v_offset + k_max_bytes + v_max_bytes + k_follow + v_follow, k_wait_ms);
                lemma_concat_assoc(h + tk + tv, k_session_id + v_session_id + k_offset + v_offset + k_max_bytes + v_max_bytes + k_follow + v_follow + k_wait_ms, v_wait_ms);
            }
        },
        Request::PtyResize { session_id, cols, rows } => {
            enc_uint(out, MAJOR_MAP, 4);
            enc_text(out, "type");
            enc_text(out, "pty_resize");
            enc_text(out, "session_id");
            enc_u64(out, session_id.0);
            enc_text(out, "cols");
            enc_u64(out, *cols as u64);
            enc_text(out, "rows");
            enc_u64(out, *rows as u64);
            proof {
                reveal(spec_enc_request_fields_pty_resize);
                let o = old(out)@;
                let h = spec_enc_uint(MAJOR_MAP, 4);
                let tk = spec_enc_text("type"@);
                let tv = spec_enc_text("pty_resize"@);
                let k_session_id = spec_enc_text("session_id"@);
                let v_session_id = spec_enc_u64(session_id.0);
                let k_cols = spec_enc_text("cols"@);
                let v_cols = spec_enc_u64(*cols as u64);
                let k_rows = spec_enc_text("rows"@);
                let v_rows = spec_enc_u64(*rows as u64);
                lemma_concat_assoc(o, h, tk);
                lemma_concat_assoc(o, h + tk, tv);
                lemma_concat_assoc(o, h + tk + tv, k_session_id);
                lemma_concat_assoc(o, h + tk + tv + k_session_id, v_session_id);
                lemma_concat_assoc(o, h + tk + tv + k_session_id + v_session_id, k_cols);
                lemma_concat_assoc(o, h + tk + tv + k_session_id + v_session_id + k_cols, v_cols);
                lemma_concat_assoc(o, h + tk + tv + k_session_id + v_session_id + k_cols + v_cols, k_rows);
                lemma_concat_assoc(o, h + tk + tv + k_session_id + v_session_id + k_cols + v_cols + k_rows, v_rows);
                lemma_concat_assoc(h + tk + tv, k_session_id, v_session_id);
                lemma_concat_assoc(h + tk + tv, k_session_id + v_session_id, k_cols);
                lemma_concat_assoc(h + tk + tv, k_session_id + v_session_id + k_cols, v_cols);
                lemma_concat_assoc(h + tk + tv, k_session_id + v_session_id + k_cols + v_cols, k_rows);
                lemma_concat_assoc(h + tk + tv, k_session_id + v_session_id + k_cols + v_cols + k_rows, v_rows);
            }
        },
        Request::PtyClose { session_id, force } => {
            enc_uint(out, MAJOR_MAP, 3);
            enc_text(out, "type");
            enc_text(out, "pty_close");
            enc_text(out, "session_id");
            enc_u64(out, session_id.0);
            enc_text(out, "force");
            enc_bool(out, *force);
            proof {
                reveal(spec_enc_request_fields_pty_close);
                let o = old(out)@;
                let h = spec_enc_uint(MAJOR_MAP, 3);
                let tk = spec_enc_text("type"@);
                let tv = spec_enc_text("pty_close"@);
                let k_session_id = spec_enc_text("session_id"@);
                let v_session_id = spec_enc_u64(session_id.0);
                let k_force = spec_enc_text("force"@);
                let v_force = spec_enc_bool(*force);
                lemma_concat_assoc(o, h, tk);
                lemma_concat_assoc(o, h + tk, tv);
                lemma_concat_assoc(o, h + tk + tv, k_session_id);
                lemma_concat_assoc(o, h + tk + tv + k_session_id, v_session_id);
                lemma_concat_assoc(o, h + tk + tv + k_session_id + v_session_id, k_force);
                lemma_concat_assoc(o, h + tk + tv + k_session_id + v_session_id + k_force, v_force);
                lemma_concat_assoc(h + tk + tv, k_session_id, v_session_id);
                lemma_concat_assoc(h + tk + tv, k_session_id + v_session_id, k_force);
                lemma_concat_assoc(h + tk + tv, k_session_id + v_session_id + k_force, v_force);
            }
        },
    }
}

/// Reads the fields of the version form at `pos`.
#[verifier::rlimit(100)]
fn dec_request_form_version(buf: &[u8], cnt: u64, pos: usize) -> (r: Option<(Request, usize)>)
    requires
        pos <= buf@.len(),
    ensures
        ({
            let s = buf@.skip(pos as int);
            match spec_dec_request_form_version(cnt, s) {
                Some((v, rem)) => r matches Some((ov, end)) && ov@ == v && pos <= end
                    <= buf@.len() && buf@.skip(end as int) == rem,
                None => r is None,
            }
        }),
{
    reveal(spec_dec_request_form_version);
    if cnt != 1 {
        return None;
    }
    Some((Request::Version {  }, pos))
}

/// Reads the fields of the health form at `pos`.
#[verifier::rlimit(100)]
fn dec_request_form_health(buf: &[u8], cnt: u64, pos: usize) -> (r: Option<(Request, usize)>)
    requires
        pos <= buf@.len(),
    ensures
        ({
            let s = buf@.skip(pos as int);
            match spec_dec_request_form_health(cnt, s) {
                Some((v, rem)) => r matches Some((ov, end)) && ov@ == v && pos <= end
                    <= buf@.len() && buf@.skip(end as int) == rem,
                None => r is None,
            }
        }),
{
    reveal(spec_dec_request_form_health);
    if cnt != 1 {
        return None;
    }
    Some((Request::Health {  }, pos))
}

/// Reads the fields of the cell_create form at `pos`.
#[verifier::rlimit(100)]
fn dec_request_form_cell_create(buf: &[u8], cnt: u64, pos: usize) -> (r: Option<(Request, usize)>)
    requires
        pos <= buf@.len(),
    ensures
        ({
            let s = buf@.skip(pos as int);
            match spec_dec_request_form_cell_create(cnt, s) {
                Some((v, rem)) => r matches Some((ov, end)) && ov@ == v && pos <= end
                    <= buf@.len() && buf@.skip(end as int) == rem,
                None => r is None,
            }
        }),
{
    reveal(spec_dec_request_form_cell_create);
    if cnt != 2 {
        return None;
    }
    let Some(q0) = dec_key(buf, pos, "spec") else { return None };
    let Some((spec, q1)) = dec_cell_spec(buf, q0) else { return None };
    Some((Request::CellCreate { spec }, q1))
}

/// Reads the fields of the job_run form at `pos`.
#[verifier::rlimit(100)]
fn dec_request_form_job_run(buf: &[u8], cnt: u64, pos: usize) -> (r: Option<(Request, usize)>)
    requires
        pos <= buf@.len(),
    ensures
        ({
            let s = buf@.skip(pos as int);
            match spec_dec_request_form_job_run(cnt, s) {
                Some((v, rem)) => r matches Some((ov, end)) && ov@ == v && pos <= end
                    <= buf@.len() && buf@.skip(end as int) == rem,
                None => r is None,
            }
        }),
{
    reveal(spec_dec_request_form_job_run);
    if cnt != 3 {
        return None;
    }
    let Some(q0) = dec_key(buf, pos, "cell_id") else { return None };
    let Some((cell_id, q1)) = dec_text(buf, q0) else { return None };
    let Some(q2) = dec_key(buf, q1, "cmd") else { return None };
    let Some((cmd, q3)) = dec_cmd(buf, q2) else { return None };
    Some((Request::JobRun { cell_id: CellId(cell_id), cmd }, q3))
}

/// Reads the fields of the job_status form at `pos`.
#[verifier::rlimit(100)]
fn dec_request_form_job_status(buf: &[u8], cnt: u64, pos: usize) -> (r: Option<(Request, usize)>)
    requires
        pos <= buf@.len(),
    ensures
        ({
            let s = buf@.skip(pos as int);
            match spec_dec_request_form_job_status(cnt, s) {
                Some((v, rem)) => r matches Some((ov, end)) && ov@ == v && pos <= end
                    <= buf@.len() && buf@.skip(end as int) == rem,
                None => r is None,
            }
        }),
{
    reveal(spec_dec_request_form_job_status);
    if cnt != 2 {
        return None;
    }
    let Some(q0) = dec_key(buf, pos, "job_id") else { return None };
    let Some((job_id, q1)) = dec_text(buf, q0) else { return None };
    Some((Request::JobStatus { job_id: JobId(job_id) }, q1))
}

/// Reads the fields of the job_kill form at `pos`.
#[verifier::rlimit(100)]
fn dec_request_form_job_kill(buf: &[u8], cnt: u64, pos: usize) -> (r: Option<(Request, usize)>)
    requires
        pos <= buf@.len(),
    ensures
        ({
            let s = buf@.skip(pos as int);
            match spec_dec_request_form_job_kill(cnt, s) {
                Some((v, rem)) => r matches Some((ov, end)) && ov@ == v && pos <= end
                    <= buf@.len() && buf@.skip(end as int) == rem,
                None => r is None,
            }
        }),
{
    reveal(spec_dec_request_form_job_kill);
    if cnt != 3 {
        return None;
    }
    let Some(q0) = dec_key(buf, pos, "job_id") else { return None };
    let Some((job_id, q1)) = dec_text(buf, q0) else { return None };
    let Some(q2) = dec_key(buf, q1, "force") else { return None };
    let Some((force, q3)) = dec_bool(buf, q2) else { return None };
    Some((Request::JobKill { job_id: JobId(job_id), force }, q3))
}

/// Reads the fields of the cell_remove form at `pos`.
#[verifier::rlimit(100)]
fn dec_request_form_cell_remove(buf: &[u8], cnt: u64, pos: usize) -> (r: Option<(Request, usize)>)
    requires
        pos <= buf@.len(),
    ensures
        ({
            let s = buf@.skip(pos as int);
            match spec_dec_request_form_cell_remove(cnt, s) {
                Some((v, rem)) => r matches Some((ov, end)) && ov@ == v && pos <= end
                    <= buf@.len() && buf@.skip(end as int) == rem,
                None => r is None,
            }
        }),
{
    reveal(spec_dec_request_form_cell_remove);
    if cnt != 3 {
        return None;
    }
    let Some(q0) = dec_key(buf, pos, "cell_id") else { return None };
    let Some((cell_id, q1)) = dec_text(buf, q0) else { return None };
    let Some(q2) = dec_key(buf, q1, "force") else { return None };
    let Some((force, q3)) = dec_bool(buf, q2) else { return None };
    Some((Request::CellRemove { cell_id: CellId(cell_id), force }, q3))
}

/// Reads the fields of the logs_read form at `pos`.
#[verifier::rlimit(100)]
fn dec_request_form_logs_read(buf: &[u8], cnt: u64, pos: usize) -> (r: Option<(Request, usize)>)
    requires
        pos <= buf@.len(),
    ensures
        ({
            let s = buf@.skip(pos as int);
            match spec_dec_request_form_logs_read(cnt, s) {
                Some((v, rem)) => r matches Some((ov, end)) && ov@ == v && pos <= end
                    <= buf@.len() && buf@.skip(end as int) == rem,
                None => r is None,
            }
        }),
{
    reveal(spec_dec_request_form_logs_read);
    if cnt != 7 {
        return None;
    }
    let Some(q0) = dec_key(buf, pos, "job_id") else { return None };
    let Some((job_id, q1)) = dec_text(buf, q0) else { return None };
    let Some(q2) = dec_key(buf, q1, "stream") else { return None };
    let Some((stream, q3)) = dec_log_stream(buf, q2) else { return None };
    let Some(q4) = dec_key(buf, q3, "offset") else { return None };
    let Some((offset, q5)) = dec_u64(buf, q4) else { return None };
    let Some(q6) = dec_key(buf, q5, "max_bytes") else { return None };
    let Some((max_bytes, q7)) = dec_u32(buf, q6) else { return None };
    let Some(q8) = dec_key(buf, q7, "follow") else { return None };
    let Some((follow, q9)) = dec_bool(buf, q8) else { return None };
    let Some(q10) = dec_key(buf, q9, "wait_ms") else { return None };
    let Some((wait_ms, q11)) = dec_u64(buf, q10) else { return None };
    Some((Request::LogsRead { job_id: JobId(job_id), stream, offset, max_bytes, follow, wait_ms }, q11))
}

/// Reads the fields of the pty_open form at `pos`.
#[verifier::rlimit(100)]
fn dec_request_form_pty_open(buf: &[u8], cnt: u64, pos: usize) -> (r: Option<(Request, usize)>)
    requires
        pos <= buf@.len(),
    ensures
        ({
            let s = buf@.skip(pos as int);
            match spec_dec_request_form_pty_open(cnt, s) {
                Some((v, rem)) => r matches Some((ov, end)) && ov@ == v && pos <= end
                    <= buf@.len() && buf@.skip(end as int) == rem,
                None => r is None,
            }
        }),
{
    reveal(spec_dec_request_form_pty_open);
    if cnt != 7 {
        return None;
    }
    let Some(q0) = dec_key(buf, pos, "shell") else { return None };
    let Some((shell, q1)) = dec_text(buf, q0) else { return None };
    let Some(q2) = dec_key(buf, q1, "args") else { return None };
    let Some((args, q3)) = dec_texts(buf, q2) else { return None };
    let Some(q4) = dec_key(buf, q3, "cwd") else { return None };
    let Some((cwd, q5)) = dec_opt_text(buf, q4) else { return None };
    let Some(q6) = dec_key(buf, q5, "env") else { return None };
    let Some((env, q7)) = dec_env(buf, q6) else { return None };
    let Some(q8) = dec_key(buf, q7, "cols") else { return None };
    let Some((cols, q9)) = dec_u16(buf, q8) else { return None };
    let Some(q10) = dec_key(buf, q9, "rows") else { return None };
    let Some((rows, q11)) = dec_u16(buf, q10) else { return None };
    Some((Request::PtyOpen { shell, args, cwd, env, cols, rows }, q11))
}

/// Reads the fields of the pty_input form at `pos`.
#[verifier::rlimit(100)]
fn dec_request_form_pty_input(buf: &[u8], cnt: u64, pos: usize) -> (r: Option<(Request, usize)>)
    requires
        pos <= buf@.len(),
    ensures
        ({
            let s = buf@.skip(pos as int);
            match spec_dec_request_form_pty_input(cnt, s) {
                Some((v, rem)) => r matches Some((ov, end)) && ov@ == v && pos <= end
                    <= buf@.len() && buf@.skip(end as int) == rem,
                None => r is None,
            }
        }),
{
    reveal(spec_dec_request_form_pty_input);
    if cnt != 3 {
        return None;
    }
    let Some(q0) = dec_key(buf, pos, "session_id") else { return None };
    let Some((session_id, q1)) = dec_u64(buf, q0) else { return None };
    let Some(q2) = dec_key(buf, q1, "data") else { return None };
    let Some((data, q3)) = dec_data(buf, q2) else { return None };
    Some((Request::PtyInput { session_id: SessionId(session_id), data }, q3))
}

/// Reads the fields of the pty_read form at `pos`.
#[verifier::rlimit(100)]
fn dec_request_form_pty_read(buf: &[u8], cnt: u64, pos: usize) -> (r: Option<(Request, usize)>)
    requires
        pos <= buf@.len(),
    ensures
        ({
            let s = buf@.skip(pos as int);
            match spec_dec_request_form_pty_read(cnt, s) {
                Some((v, rem)) => r matches Some((ov, end)) && ov@ == v && pos <= end
                    <= buf@.len() && buf@.skip(end as int) == rem,
                None => r is None,
            }
        }),
{
    reveal(spec_dec_request_form_pty_read);
    if cnt != 6 {
        return None;
    }
    let Some(q0) = dec_key(buf, pos, "session_id") else { return None };
    let Some((session_id, q1)) = dec_u64(buf, q0) else { return None };
    let Some(q2) = dec_key(buf, q1, "offset") else { return None };
    let Some((offset, q3)) = dec_u64(buf, q2) else { return None };
    let Some(q4) = dec_key(buf, q3, "max_bytes") else { return None };
    let Some((max_bytes, q5)) = dec_u32(buf, q4) else { return None };
    let Some(q6) = dec_key(buf, q5, "follow") else { return None };
    let Some((follow, q7)) = dec_bool(buf, q6) else { return None };
    let Some(q8) = dec_key(buf, q7, "wait_ms") else { return None };
    let Some((wait_ms, q9)) = dec_u64(buf, q8) else { return None };
    Some((Request::PtyRead { session_id: SessionId(session_id), offset, max_bytes, follow, wait_ms }, q9))
}

/// Reads the fields of the pty_resize form at `pos`.
#[verifier::rlimit(100)]
fn dec_request_form_pty_resize(buf: &[u8], cnt: u64, pos: usize) -> (r: Option<(Request, usize)>)
    requires
        pos <= buf@.len(),
    ensures
        ({
            let s = buf@.skip(pos as int);
            match spec_dec_request_form_pty_resize(cnt, s) {
                Some((v, rem)) => r matches Some((ov, end)) && ov@ == v && pos <= end
                    <= buf@.len() && buf@.skip(end as int) == rem,
                None => r is None,
            }
        }),
{
    reveal(spec_dec_request_form_pty_resize);
    if cnt != 4 {
        return None;
    }
    let Some(q0) = dec_key(buf, pos, "session_id") else { return None };
    let Some((session_id, q1)) = dec_u64(buf, q0) else { return None };
    let Some(q2) = dec_key(buf, q1, "cols") else { return None };
    let Some((cols, q3)) = dec_u16(buf, q2) else { return None };
    let Some(q4) = dec_key(buf, q3, "rows") else { return None };
    let Some((rows, q5)) = dec_u16(buf, q4) else { return None };
    Some((Request::PtyResize { session_id: SessionId(session_id), cols, rows }, q5))
}

/// Reads the fields of the pty_close form at `pos`.
#[verifier::rlimit(100)]
fn dec_request_form_pty_close(buf: &[u8], cnt: u64, pos: usize) -> (r: Option<(Request, usize)>)
    requires
        pos <= buf@.len(),
    ensures
        ({
            let s = buf@.skip(pos as int);
            match spec_dec_request_form_pty_close(cnt, s) {
                Some((v, rem)) => r matches Some((ov, end)) && ov@ == v && pos <= end
                    <= buf@.len() && buf@.skip(end as int) == rem,
                None => r is None,
            }
        }),
{
    reveal(spec_dec_request_form_pty_close);
    if cnt != 3 {
        return None;
    }
    let Some(q0) = dec_key(buf, pos, "session_id") else { return None };
    let Some((session_id, q1)) = dec_u64(buf, q0) else { return None };
    let Some(q2) = dec_key(buf, q1, "force") else { return None };
    let Some((force, q3)) = dec_bool(buf, q2) else { return None };
    Some((Request::PtyClose { session_id: SessionId(session_id), force }, q3))
}

/// Reads a request body at `pos`.
#[verifier::rlimit(100)]
pub fn dec_request(buf: &[u8], pos: usize) -> (r: Option<(Request, usize)>)
    requires
        pos <= buf@.len(),
    ensures
        ({
            let s = buf@.skip(pos as int);
            match spec_dec_request(s) {
                Some((v, rem)) => r matches Some((ov, end)) && ov@ == v && pos <= end
                    <= buf@.len() && buf@.skip(end as int) == rem,
                None => r is None,
            }
        }),
{
    let Some((cnt, p0)) = dec_map_head(buf, pos) else { return None };
    let Some(p1) = dec_key(buf, p0, "type") else { return None };
    let Some((ts, te)) = dec_segment(buf, p1, MAJOR_TEXT) else { return None };
    if seg_is(buf, ts, te, "version") {
        dec_request_form_version(buf, cnt, te)
    } else if seg_is(buf, ts, te, "health") {
        dec_request_form_health(buf, cnt, te)
    } else if seg_is(buf, ts, te, "cell_create") {
        dec_request_form_cell_create(buf, cnt, te)
    } else if seg_is(buf, ts, te, "job_run") {
        dec_request_form_job_run(buf, cnt, te)
    } else if seg_is(buf, ts, te, "job_status") {
        dec_request_form_job_status(buf, cnt, te)
    } else if seg_is(buf, ts, te, "job_kill") {
        dec_request_form_job_kill(buf, cnt, te)
    } else if seg_is(buf, ts, te, "cell_remove") {
        dec_request_form_cell_remove(buf, cnt, te)
    } else if seg_is(buf, ts, te, "logs_read") {
        dec_request_form_logs_read(buf, cnt, te)
    } else if seg_is(buf, ts, te, "pty_open") {
        dec_request_form_pty_open(buf, cnt, te)
    } else if seg_is(buf, ts, te, "pty_input") {
        dec_request_form_pty_input(buf, cnt, te)
    } else if seg_is(buf, ts, te, "pty_read") {
        dec_request_form_pty_read(buf, cnt, te)
    } else if seg_is(buf, ts, te, "pty_resize") {
        dec_request_form_pty_resize(buf, cnt, te)
    } else if seg_is(buf, ts, te, "pty_close") {
        dec_request_form_pty_close(buf, cnt, te)
    } else {
        None
    }
}

/// A request envelope model whose body fits wire lengths.
pub open spec fn request_envelope_fits(m: EnvelopeV<RequestV>) -> bool {
    request_fits(m.body)
}

/// Encoded request envelope.
pub open spec fn spec_enc_request_envelope(m: EnvelopeV<RequestV>) -> Seq<u8> {
    spec_enc_uint(MAJOR_MAP, 2) + spec_enc_text("req_id"@) + spec_enc_u64(m.req_id)
        + spec_enc_text("body"@) + spec_enc_request(m.body)
}

/// Parses a request envelope.
pub open spec fn spec_dec_request_envelope(b: Seq<u8>) -> Option<(EnvelopeV<RequestV>, Seq<u8>)> {
    match spec_dec_head(b) {
        Some((m, cnt, r0)) => {
            if m != MAJOR_MAP || cnt != 2 {
                None
            } else {
                match spec_dec_key(r0, "req_id"@) {
                    Some(r1) => {
                        match spec_dec_u64(r1) {
                            Some((req_id, r2)) => {
                                match spec_dec_key(r2, "body"@) {
                                    Some(r3) => {
                                        match spec_dec_request(r3) {
                                            Some((body, r4)) => Some(
                                                (EnvelopeV { req_id, body }, r4),
                                            ),
                                            None => None,
                                        }
                                    },
                                    None => None,
                                }
                            },
                            None => None,
                        }
                    },
                    None => None,
                }
            }
        },
        None => None,
    }
}

/// Parses a complete request envelope frame, rejecting trailing bytes.
pub open spec fn spec_decode_request(b: Seq<u8>) -> Option<EnvelopeV<RequestV>> {
    match spec_dec_request_envelope(b) {
        Some((m, rem)) => {
            if rem.len() == 0 {
                Some(m)
            } else {
                None
            }
        },
        None => None,
    }
}

/// Decoding a request envelope inverts encoding one.
pub proof fn lemma_dec_request_envelope_enc(m: EnvelopeV<RequestV>, rest: Seq<u8>)
    requires
        request_envelope_fits(m),
    ensures
        spec_dec_request_envelope(spec_enc_request_envelope(m) + rest) == Some((m, rest)),
{
    reveal_strlit("req_id");
    reveal_strlit("body");
    assert("req_id"@.len() == 6);
    assert("body"@.len() == 4);
    lemma_short_text_fits("req_id"@);
    lemma_short_text_fits("body"@);
    let h = spec_enc_uint(MAJOR_MAP, 2);
    let k1 = spec_enc_text("req_id"@);
    let v1 = spec_enc_u64(m.req_id);
    let k2 = spec_enc_text("body"@);
    let v2 = spec_enc_request(m.body);
    lemma_concat_assoc(h + k1 + v1 + k2, v2, rest);
    lemma_concat_assoc(h + k1 + v1, k2, (v2 + rest));
    lemma_concat_assoc(h + k1, v1, (k2 + (v2 + rest)));
    lemma_concat_assoc(h, k1, (v1 + (k2 + (v2 + rest))));
    lemma_dec_head_enc(MAJOR_MAP, 2, (k1 + (v1 + (k2 + (v2 + rest)))));
    lemma_dec_key_enc("req_id"@, (v1 + (k2 + (v2 + rest))));
    lemma_dec_u64_enc(m.req_id, (k2 + (v2 + rest)));
    lemma_dec_key_enc("body"@, (v2 + rest));
    lemma_dec_request_enc(m.body, rest);
}

/// A well-formed request envelope decodes back to itself.
///
/// For every envelope whose strings fit wire lengths, decoding the
/// encoded frame yields the original envelope exactly.
pub proof fn lemma_request_roundtrip(m: EnvelopeV<RequestV>)
    requires
        request_envelope_fits(m),
    ensures
        spec_decode_request(spec_enc_request_envelope(m)) == Some(m),
{
    lemma_dec_request_envelope_enc(m, Seq::empty());
    assert(spec_enc_request_envelope(m) + Seq::<u8>::empty() =~= spec_enc_request_envelope(m));
}

/// Encodes a request envelope into a fresh frame payload.
pub fn encode_request(v: &RequestEnvelope<Request>) -> (r: Vec<u8>)
    ensures
        r@ == spec_enc_request_envelope(v@),
{
    let mut out: Vec<u8> = Vec::new();
    enc_uint(&mut out, MAJOR_MAP, 2);
    enc_text(&mut out, "req_id");
    enc_u64(&mut out, v.req_id.0);
    enc_text(&mut out, "body");
    enc_request(&mut out, &v.body);
    proof {
        let o = Seq::<u8>::empty();
        let h = spec_enc_uint(MAJOR_MAP, 2);
        let k1 = spec_enc_text("req_id"@);
        let v1 = spec_enc_u64(v@.req_id);
        let k2 = spec_enc_text("body"@);
        let v2 = spec_enc_request(v@.body);
        lemma_concat_assoc(o, h, k1);
        lemma_concat_assoc(o, h + k1, v1);
        lemma_concat_assoc(o, h + k1 + v1, k2);
        lemma_concat_assoc(o, h + k1 + v1 + k2, v2);
        assert(o + (h + k1 + v1 + k2 + v2) =~= h + k1 + v1 + k2 + v2);
    }
    out
}

/// Decodes a complete request envelope frame.
pub fn decode_request(buf: &[u8]) -> (r: Option<RequestEnvelope<Request>>)
    ensures
        match spec_decode_request(buf@) {
            Some(m) => r matches Some(v) && v@ == m,
            None => r is None,
        },
{
    let ghost s0 = buf@.skip(0);
    proof {
        assert(buf@.skip(0) =~= buf@);
    }
    let Some((cnt, p0)) = dec_map_head(buf, 0) else { return None };
    if cnt != 2 {
        return None;
    }
    let Some(p1) = dec_key(buf, p0, "req_id") else { return None };
    let Some((req_id, p2)) = dec_u64(buf, p1) else { return None };
    let Some(p3) = dec_key(buf, p2, "body") else { return None };
    let Some((body, p4)) = dec_request(buf, p3) else { return None };
    if p4 != buf.len() {
        proof {
            assert(buf@.skip(p4 as int).len() != 0);
        }
        return None;
    }
    proof {
        assert(buf@.skip(p4 as int).len() == 0);
    }
    Some(RequestEnvelope { req_id: ReqId(req_id), body })
}

} // verus!
