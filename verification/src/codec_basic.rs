//! Wire encoding of the small protocol vocabulary: tag-named enums,
//! optional scalars, and status records.

use vstd::prelude::*;
use vstd::utf8::encode_utf8;
use crate::cbor::{
    dec_i32, dec_key, dec_map_head, dec_segment, dec_u32, dec_u64, enc_i32, enc_text, enc_u64,
    enc_null, enc_uint, peek_null, skip_one, lemma_dec_head_enc, lemma_dec_i32_enc,
    lemma_dec_key_enc, lemma_dec_segment_enc_text, lemma_dec_u32_enc, lemma_dec_u64_enc,
    lemma_enc_not_null, seg_is, spec_dec_head, spec_dec_i32, spec_dec_key, spec_dec_segment,
    spec_dec_u32, spec_dec_u64, spec_enc_i32, spec_enc_text, spec_enc_u64, spec_enc_uint,
    MAJOR_MAP, MAJOR_NINT, MAJOR_TEXT, MAJOR_UINT, SIMPLE_NULL,
};
use crate::errors::ErrorCode;
use crate::exec_proto::{ExecErrorCode, ExecPtyAction};
use crate::protocol::{ExitStatus, LogStream, PtyAction, ResourceLimits, TerminationReason};
use crate::textutil::{lemma_concat_assoc, lemma_encode_utf8_len, lemma_utf8_ne};

verus! {

/// A character sequence whose UTF-8 encoding fits a wire length.
pub open spec fn text_fits(s: Seq<char>) -> bool {
    encode_utf8(s).len() <= u64::MAX
}

/// Short character sequences always fit on the wire.
pub proof fn lemma_short_text_fits(s: Seq<char>)
    requires
        s.len() <= 0x10000000,
    ensures
        text_fits(s),
{
    lemma_encode_utf8_len(s);
}

/// Tag spelled by a log stream selector.
pub open spec fn spec_log_stream_tag(v: LogStream) -> Seq<char> {
    match v {
        LogStream::Stdout => "stdout"@,
        LogStream::Stderr => "stderr"@,
    }
}

/// Encoded log stream selector.
pub open spec fn spec_enc_log_stream(v: LogStream) -> Seq<u8> {
    spec_enc_text(spec_log_stream_tag(v))
}

/// Parses a log stream selector.
#[verifier::opaque]
pub open spec fn spec_dec_log_stream(b: Seq<u8>) -> Option<(LogStream, Seq<u8>)> {
    match spec_dec_segment(b, MAJOR_TEXT) {
        Some((seg, rem)) => {
            if seg == encode_utf8("stdout"@) {
                Some((LogStream::Stdout, rem))
            } else if seg == encode_utf8("stderr"@) {
                Some((LogStream::Stderr, rem))
            } else {
                None
            }
        },
        None => None,
    }
}

/// Decoding a log stream selector inverts encoding one.
pub proof fn lemma_dec_log_stream_enc(v: LogStream, rest: Seq<u8>)
    ensures
        spec_dec_log_stream(spec_enc_log_stream(v) + rest) == Some((v, rest)),
{
    reveal(spec_dec_log_stream);
    reveal_strlit("stdout");
    reveal_strlit("stderr");
    assert("stdout"@.len() == 6);
    assert("stderr"@.len() == 6);
    lemma_short_text_fits("stdout"@);
    lemma_short_text_fits("stderr"@);
    match v {
        LogStream::Stdout => {
            lemma_dec_segment_enc_text("stdout"@, rest);
        },
        LogStream::Stderr => {
            lemma_dec_segment_enc_text("stderr"@, rest);
            assert("stdout"@[3] == 'o');
            assert("stderr"@[3] == 'e');
            lemma_utf8_ne("stdout"@, "stderr"@);
        },
    }
}

/// Appends an encoded log stream selector.
pub fn enc_log_stream(out: &mut Vec<u8>, v: &LogStream)
    ensures
        final(out)@ == old(out)@ + spec_enc_log_stream(*v),
{
    match v {
        LogStream::Stdout => enc_text(out, "stdout"),
        LogStream::Stderr => enc_text(out, "stderr"),
    }
}

/// Reads a log stream selector at `pos`.
pub fn dec_log_stream(buf: &[u8], pos: usize) -> (r: Option<(LogStream, usize)>)
    requires
        pos <= buf@.len(),
    ensures
        ({
            let s = buf@.skip(pos as int);
            match spec_dec_log_stream(s) {
                Some((v, rem)) => r matches Some((rv, end)) && rv == v && pos <= end <= buf@.len()
                    && buf@.skip(end as int) == rem,
                None => r is None,
            }
        }),
{
    reveal(spec_dec_log_stream);
    match dec_segment(buf, pos, MAJOR_TEXT) {
        Some((start, end)) => {
            if seg_is(buf, start, end, "stdout") {
                Some((LogStream::Stdout, end))
            } else if seg_is(buf, start, end, "stderr") {
                Some((LogStream::Stderr, end))
            } else {
                None
            }
        },
        None => None,
    }
}

/// Tag spelled by a PTY action.
pub open spec fn spec_pty_action_tag(v: PtyAction) -> Seq<char> {
    match v {
        PtyAction::Opened => "opened"@,
        PtyAction::Input => "input"@,
        PtyAction::Resize => "resize"@,
        PtyAction::Closed => "closed"@,
    }
}

/// Encoded PTY action.
pub open spec fn spec_enc_pty_action(v: PtyAction) -> Seq<u8> {
    spec_enc_text(spec_pty_action_tag(v))
}

/// Parses a PTY action.
#[verifier::opaque]
pub open spec fn spec_dec_pty_action(b: Seq<u8>) -> Option<(PtyAction, Seq<u8>)> {
    match spec_dec_segment(b, MAJOR_TEXT) {
        Some((seg, rem)) => {
            if seg == encode_utf8("opened"@) {
                Some((PtyAction::Opened, rem))
            } else if seg == encode_utf8("input"@) {
                Some((PtyAction::Input, rem))
            } else if seg == encode_utf8("resize"@) {
                Some((PtyAction::Resize, rem))
            } else if seg == encode_utf8("closed"@) {
                Some((PtyAction::Closed, rem))
            } else {
                None
            }
        },
        None => None,
    }
}

/// Character-level facts about the PTY action tags.
proof fn lemma_pty_action_tags()
    ensures
        "opened"@.len() == 6,
        "input"@.len() == 5,
        "resize"@.len() == 6,
        "closed"@.len() == 6,
        "opened"@ != "resize"@,
        "opened"@ != "closed"@,
        "resize"@ != "closed"@,
{
    reveal_strlit("opened");
    reveal_strlit("input");
    reveal_strlit("resize");
    reveal_strlit("closed");
    assert("opened"@[0] == 'o');
    assert("resize"@[0] == 'r');
    assert("closed"@[0] == 'c');
}

/// Decoding a PTY action inverts encoding one.
pub proof fn lemma_dec_pty_action_enc(v: PtyAction, rest: Seq<u8>)
    ensures
        spec_dec_pty_action(spec_enc_pty_action(v) + rest) == Some((v, rest)),
{
    reveal(spec_dec_pty_action);
    lemma_pty_action_tags();
    lemma_short_text_fits("opened"@);
    lemma_short_text_fits("input"@);
    lemma_short_text_fits("resize"@);
    lemma_short_text_fits("closed"@);
    match v {
        PtyAction::Opened => {
            lemma_dec_segment_enc_text("opened"@, rest);
        },
        PtyAction::Input => {
            lemma_dec_segment_enc_text("input"@, rest);
            lemma_utf8_ne("opened"@, "input"@);
        },
        PtyAction::Resize => {
            lemma_dec_segment_enc_text("resize"@, rest);
            lemma_utf8_ne("opened"@, "resize"@);
            lemma_utf8_ne("input"@, "resize"@);
        },
        PtyAction::Closed => {
            lemma_dec_segment_enc_text("closed"@, rest);
            lemma_utf8_ne("opened"@, "closed"@);
            lemma_utf8_ne("input"@, "closed"@);
            lemma_utf8_ne("resize"@, "closed"@);
        },
    }
}

/// Appends an encoded PTY action.
pub fn enc_pty_action(out: &mut Vec<u8>, v: &PtyAction)
    ensures
        final(out)@ == old(out)@ + spec_enc_pty_action(*v),
{
    match v {
        PtyAction::Opened => enc_text(out, "opened"),
        PtyAction::Input => enc_text(out, "input"),
        PtyAction::Resize => enc_text(out, "resize"),
        PtyAction::Closed => enc_text(out, "closed"),
    }
}

/// Reads a PTY action at `pos`.
pub fn dec_pty_action(buf: &[u8], pos: usize) -> (r: Option<(PtyAction, usize)>)
    requires
        pos <= buf@.len(),
    ensures
        ({
            let s = buf@.skip(pos as int);
            match spec_dec_pty_action(s) {
                Some((v, rem)) => r matches Some((rv, end)) && rv == v && pos <= end <= buf@.len()
                    && buf@.skip(end as int) == rem,
                None => r is None,
            }
        }),
{
    reveal(spec_dec_pty_action);
    match dec_segment(buf, pos, MAJOR_TEXT) {
        Some((start, end)) => {
            if seg_is(buf, start, end, "opened") {
                Some((PtyAction::Opened, end))
            } else if seg_is(buf, start, end, "input") {
                Some((PtyAction::Input, end))
            } else if seg_is(buf, start, end, "resize") {
                Some((PtyAction::Resize, end))
            } else if seg_is(buf, start, end, "closed") {
                Some((PtyAction::Closed, end))
            } else {
                None
            }
        },
        None => None,
    }
}

/// Tag spelled by a worker PTY action.
pub open spec fn spec_exec_pty_action_tag(v: ExecPtyAction) -> Seq<char> {
    match v {
        ExecPtyAction::Opened => "opened"@,
        ExecPtyAction::Input => "input"@,
        ExecPtyAction::Resize => "resize"@,
        ExecPtyAction::Closed => "closed"@,
    }
}

/// Encoded worker PTY action.
pub open spec fn spec_enc_exec_pty_action(v: ExecPtyAction) -> Seq<u8> {
    spec_enc_text(spec_exec_pty_action_tag(v))
}

/// Parses a worker PTY action.
#[verifier::opaque]
pub open spec fn spec_dec_exec_pty_action(b: Seq<u8>) -> Option<(ExecPtyAction, Seq<u8>)> {
    match spec_dec_segment(b, MAJOR_TEXT) {
        Some((seg, rem)) => {
            if seg == encode_utf8("opened"@) {
                Some((ExecPtyAction::Opened, rem))
            } else if seg == encode_utf8("input"@) {
                Some((ExecPtyAction::Input, rem))
            } else if seg == encode_utf8("resize"@) {
                Some((ExecPtyAction::Resize, rem))
            } else if seg == encode_utf8("closed"@) {
                Some((ExecPtyAction::Closed, rem))
            } else {
                None
            }
        },
        None => None,
    }
}

/// Decoding a worker PTY action inverts encoding one.
pub proof fn lemma_dec_exec_pty_action_enc(v: ExecPtyAction, rest: Seq<u8>)
    ensures
        spec_dec_exec_pty_action(spec_enc_exec_pty_action(v) + rest) == Some((v, rest)),
{
    reveal(spec_dec_exec_pty_action);
    lemma_pty_action_tags();
    lemma_short_text_fits("opened"@);
    lemma_short_text_fits("input"@);
    lemma_short_text_fits("resize"@);
    lemma_short_text_fits("closed"@);
    match v {
        ExecPtyAction::Opened => {
            lemma_dec_segment_enc_text("opened"@, rest);
        },
        ExecPtyAction::Input => {
            lemma_dec_segment_enc_text("input"@, rest);
            lemma_utf8_ne("opened"@, "input"@);
        },
        ExecPtyAction::Resize => {
            lemma_dec_segment_enc_text("resize"@, rest);
            lemma_utf8_ne("opened"@, "resize"@);
            lemma_utf8_ne("input"@, "resize"@);
        },
        ExecPtyAction::Closed => {
            lemma_dec_segment_enc_text("closed"@, rest);
            lemma_utf8_ne("opened"@, "closed"@);
            lemma_utf8_ne("input"@, "closed"@);
            lemma_utf8_ne("resize"@, "closed"@);
        },
    }
}

/// Appends an encoded worker PTY action.
pub fn enc_exec_pty_action(out: &mut Vec<u8>, v: &ExecPtyAction)
    ensures
        final(out)@ == old(out)@ + spec_enc_exec_pty_action(*v),
{
    match v {
        ExecPtyAction::Opened => enc_text(out, "opened"),
        ExecPtyAction::Input => enc_text(out, "input"),
        ExecPtyAction::Resize => enc_text(out, "resize"),
        ExecPtyAction::Closed => enc_text(out, "closed"),
    }
}

/// Reads a worker PTY action at `pos`.
pub fn dec_exec_pty_action(buf: &[u8], pos: usize) -> (r: Option<(ExecPtyAction, usize)>)
    requires
        pos <= buf@.len(),
    ensures
        ({
            let s = buf@.skip(pos as int);
            match spec_dec_exec_pty_action(s) {
                Some((v, rem)) => r matches Some((rv, end)) && rv == v && pos <= end <= buf@.len()
                    && buf@.skip(end as int) == rem,
                None => r is None,
            }
        }),
{
    reveal(spec_dec_exec_pty_action);
    match dec_segment(buf, pos, MAJOR_TEXT) {
        Some((start, end)) => {
            if seg_is(buf, start, end, "opened") {
                Some((ExecPtyAction::Opened, end))
            } else if seg_is(buf, start, end, "input") {
                Some((ExecPtyAction::Input, end))
            } else if seg_is(buf, start, end, "resize") {
                Some((ExecPtyAction::Resize, end))
            } else if seg_is(buf, start, end, "closed") {
                Some((ExecPtyAction::Closed, end))
            } else {
                None
            }
        },
        None => None,
    }
}

/// Tag spelled by a termination reason.
pub open spec fn spec_term_reason_tag(v: TerminationReason) -> Seq<char> {
    match v {
        TerminationReason::Exited => "exited"@,
        TerminationReason::TerminatedByUser => "terminated_by_user"@,
        TerminationReason::ForcedKill => "forced_kill"@,
        TerminationReason::Timeout => "timeout"@,
        TerminationReason::MemoryLimit => "memory_limit"@,
        TerminationReason::LogQuota => "log_quota"@,
        TerminationReason::Unknown => "unknown"@,
    }
}

/// Encoded termination reason.
pub open spec fn spec_enc_term_reason(v: TerminationReason) -> Seq<u8> {
    spec_enc_text(spec_term_reason_tag(v))
}

/// Parses a termination reason.
#[verifier::opaque]
pub open spec fn spec_dec_term_reason(b: Seq<u8>) -> Option<(TerminationReason, Seq<u8>)> {
    match spec_dec_segment(b, MAJOR_TEXT) {
        Some((seg, rem)) => {
            if seg == encode_utf8("exited"@) {
                Some((TerminationReason::Exited, rem))
            } else if seg == encode_utf8("terminated_by_user"@) {
                Some((TerminationReason::TerminatedByUser, rem))
            } else if seg == encode_utf8("forced_kill"@) {
                Some((TerminationReason::ForcedKill, rem))
            } else if seg == encode_utf8("timeout"@) {
                Some((TerminationReason::Timeout, rem))
            } else if seg == encode_utf8("memory_limit"@) {
                Some((TerminationReason::MemoryLimit, rem))
            } else if seg == encode_utf8("log_quota"@) {
                Some((TerminationReason::LogQuota, rem))
            } else if seg == encode_utf8("unknown"@) {
                Some((TerminationReason::Unknown, rem))
            } else {
                None
            }
        },
        None => None,
    }
}

/// Character-level facts about the termination reason tags.
proof fn lemma_term_reason_tags()
    ensures
        "exited"@.len() == 6,
        "terminated_by_user"@.len() == 18,
        "forced_kill"@.len() == 11,
        "timeout"@.len() == 7,
        "memory_limit"@.len() == 12,
        "log_quota"@.len() == 9,
        "unknown"@.len() == 7,
        "timeout"@ != "unknown"@,
{
    reveal_strlit("exited");
    reveal_strlit("terminated_by_user");
    reveal_strlit("forced_kill");
    reveal_strlit("timeout");
    reveal_strlit("memory_limit");
    reveal_strlit("log_quota");
    reveal_strlit("unknown");
    assert("timeout"@[0] == 't');
    assert("unknown"@[0] == 'u');
}

/// Decoding a termination reason inverts encoding one.
pub proof fn lemma_dec_term_reason_enc(v: TerminationReason, rest: Seq<u8>)
    ensures
        spec_dec_term_reason(spec_enc_term_reason(v) + rest) == Some((v, rest)),
{
    reveal(spec_dec_term_reason);
    lemma_term_reason_tags();
    lemma_short_text_fits("exited"@);
    lemma_short_text_fits("terminated_by_user"@);
    lemma_short_text_fits("forced_kill"@);
    lemma_short_text_fits("timeout"@);
    lemma_short_text_fits("memory_limit"@);
    lemma_short_text_fits("log_quota"@);
    lemma_short_text_fits("unknown"@);
    match v {
        TerminationReason::Exited => {
            lemma_dec_segment_enc_text("exited"@, rest);
        },
        TerminationReason::TerminatedByUser => {
            lemma_dec_segment_enc_text("terminated_by_user"@, rest);
            lemma_utf8_ne("exited"@, "terminated_by_user"@);
        },
        TerminationReason::ForcedKill => {
            lemma_dec_segment_enc_text("forced_kill"@, rest);
            lemma_utf8_ne("exited"@, "forced_kill"@);
            lemma_utf8_ne("terminated_by_user"@, "forced_kill"@);
        },
        TerminationReason::Timeout => {
            lemma_dec_segment_enc_text("timeout"@, rest);
            lemma_utf8_ne("exited"@, "timeout"@);
            lemma_utf8_ne("terminated_by_user"@, "timeout"@);
            lemma_utf8_ne("forced_kill"@, "timeout"@);
        },
        TerminationReason::MemoryLimit => {
            lemma_dec_segment_enc_text("memory_limit"@, rest);
            lemma_utf8_ne("exited"@, "memory_limit"@);
            lemma_utf8_ne("terminated_by_user"@, "memory_limit"@);
            lemma_utf8_ne("forced_kill"@, "memory_limit"@);
            lemma_utf8_ne("timeout"@, "memory_limit"@);
        },
        TerminationReason::LogQuota => {
            lemma_dec_segment_enc_text("log_quota"@, rest);
            lemma_utf8_ne("exited"@, "log_quota"@);
            lemma_utf8_ne("terminated_by_user"@, "log_quota"@);
            lemma_utf8_ne("forced_kill"@, "log_quota"@);
            lemma_utf8_ne("timeout"@, "log_quota"@);
            lemma_utf8_ne("memory_limit"@, "log_quota"@);
        },
        TerminationReason::Unknown => {
            lemma_dec_segment_enc_text("unknown"@, rest);
            lemma_utf8_ne("exited"@, "unknown"@);
            lemma_utf8_ne("terminated_by_user"@, "unknown"@);
            lemma_utf8_ne("forced_kill"@, "unknown"@);
            lemma_utf8_ne("timeout"@, "unknown"@);
            lemma_utf8_ne("memory_limit"@, "unknown"@);
            lemma_utf8_ne("log_quota"@, "unknown"@);
        },
    }
}

/// Appends an encoded termination reason.
pub fn enc_term_reason(out: &mut Vec<u8>, v: &TerminationReason)
    ensures
        final(out)@ == old(out)@ + spec_enc_term_reason(*v),
{
    match v {
        TerminationReason::Exited => enc_text(out, "exited"),
        TerminationReason::TerminatedByUser => enc_text(out, "terminated_by_user"),
        TerminationReason::ForcedKill => enc_text(out, "forced_kill"),
        TerminationReason::Timeout => enc_text(out, "timeout"),
        TerminationReason::MemoryLimit => enc_text(out, "memory_limit"),
        TerminationReason::LogQuota => enc_text(out, "log_quota"),
        TerminationReason::Unknown => enc_text(out, "unknown"),
    }
}

/// Reads a termination reason at `pos`.
pub fn dec_term_reason(buf: &[u8], pos: usize) -> (r: Option<(TerminationReason, usize)>)
    requires
        pos <= buf@.len(),
    ensures
        ({
            let s = buf@.skip(pos as int);
            match spec_dec_term_reason(s) {
                Some((v, rem)) => r matches Some((rv, end)) && rv == v && pos <= end <= buf@.len()
                    && buf@.skip(end as int) == rem,
                None => r is None,
            }
        }),
{
    reveal(spec_dec_term_reason);
    match dec_segment(buf, pos, MAJOR_TEXT) {
        Some((start, end)) => {
            if seg_is(buf, start, end, "exited") {
                Some((TerminationReason::Exited, end))
            } else if seg_is(buf, start, end, "terminated_by_user") {
                Some((TerminationReason::TerminatedByUser, end))
            } else if seg_is(buf, start, end, "forced_kill") {
                Some((TerminationReason::ForcedKill, end))
            } else if seg_is(buf, start, end, "timeout") {
                Some((TerminationReason::Timeout, end))
            } else if seg_is(buf, start, end, "memory_limit") {
                Some((TerminationReason::MemoryLimit, end))
            } else if seg_is(buf, start, end, "log_quota") {
                Some((TerminationReason::LogQuota, end))
            } else if seg_is(buf, start, end, "unknown") {
                Some((TerminationReason::Unknown, end))
            } else {
                None
            }
        },
        None => None,
    }
}

/// Tag spelled by a client error code.
pub open spec fn spec_error_code_tag(v: ErrorCode) -> Seq<char> {
    match v {
        ErrorCode::InvalidRequest => "invalid_request"@,
        ErrorCode::NotFound => "not_found"@,
        ErrorCode::Timeout => "timeout"@,
        ErrorCode::ProtocolMismatch => "protocol_mismatch"@,
        ErrorCode::Unavailable => "unavailable"@,
        ErrorCode::Internal => "internal"@,
    }
}

/// Encoded client error code.
pub open spec fn spec_enc_error_code(v: ErrorCode) -> Seq<u8> {
    spec_enc_text(spec_error_code_tag(v))
}

/// Parses a client error code.
#[verifier::opaque]
pub open spec fn spec_dec_error_code(b: Seq<u8>) -> Option<(ErrorCode, Seq<u8>)> {
    match spec_dec_segment(b, MAJOR_TEXT) {
        Some((seg, rem)) => {
            if seg == encode_utf8("invalid_request"@) {
                Some((ErrorCode::InvalidRequest, rem))
            } else if seg == encode_utf8("not_found"@) {
                Some((ErrorCode::NotFound, rem))
            } else if seg == encode_utf8("timeout"@) {
                Some((ErrorCode::Timeout, rem))
            } else if seg == encode_utf8("protocol_mismatch"@) {
                Some((ErrorCode::ProtocolMismatch, rem))
            } else if seg == encode_utf8("unavailable"@) {
                Some((ErrorCode::Unavailable, rem))
            } else if seg == encode_utf8("internal"@) {
                Some((ErrorCode::Internal, rem))
            } else {
                None
            }
        },
        None => None,
    }
}

/// Character-level facts about the client error code tags.
proof fn lemma_error_code_tags()
    ensures
        "invalid_request"@.len() == 15,
        "not_found"@.len() == 9,
        "timeout"@.len() == 7,
        "protocol_mismatch"@.len() == 17,
        "unavailable"@.len() == 11,
        "internal"@.len() == 8,
{
    reveal_strlit("invalid_request");
    reveal_strlit("not_found");
    reveal_strlit("timeout");
    reveal_strlit("protocol_mismatch");
    reveal_strlit("unavailable");
    reveal_strlit("internal");
}

/// Decoding a client error code inverts encoding one.
pub proof fn lemma_dec_error_code_enc(v: ErrorCode, rest: Seq<u8>)
    ensures
        spec_dec_error_code(spec_enc_error_code(v) + rest) == Some((v, rest)),
{
    reveal(spec_dec_error_code);
    lemma_error_code_tags();
    lemma_short_text_fits("invalid_request"@);
    lemma_short_text_fits("not_found"@);
    lemma_short_text_fits("timeout"@);
    lemma_short_text_fits("protocol_mismatch"@);
    lemma_short_text_fits("unavailable"@);
    lemma_short_text_fits("internal"@);
    match v {
        ErrorCode::InvalidRequest => {
            lemma_dec_segment_enc_text("invalid_request"@, rest);
        },
        ErrorCode::NotFound => {
            lemma_dec_segment_enc_text("not_found"@, rest);
            lemma_utf8_ne("invalid_request"@, "not_found"@);
        },
        ErrorCode::Timeout => {
            lemma_dec_segment_enc_text("timeout"@, rest);
            lemma_utf8_ne("invalid_request"@, "timeout"@);
            lemma_utf8_ne("not_found"@, "timeout"@);
        },
        ErrorCode::ProtocolMismatch => {
            lemma_dec_segment_enc_text("protocol_mismatch"@, rest);
            lemma_utf8_ne("invalid_request"@, "protocol_mismatch"@);
            lemma_utf8_ne("not_found"@, "protocol_mismatch"@);
            lemma_utf8_ne("timeout"@, "protocol_mismatch"@);
        },
        ErrorCode::Unavailable => {
            lemma_dec_segment_enc_text("unavailable"@, rest);
            lemma_utf8_ne("invalid_request"@, "unavailable"@);
            lemma_utf8_ne("not_found"@, "unavailable"@);
            lemma_utf8_ne("timeout"@, "unavailable"@);
            lemma_utf8_ne("protocol_mismatch"@, "unavailable"@);
        },
        ErrorCode::Internal => {
            lemma_dec_segment_enc_text("internal"@, rest);
            lemma_utf8_ne("invalid_request"@, "internal"@);
            lemma_utf8_ne("not_found"@, "internal"@);
            lemma_utf8_ne("timeout"@, "internal"@);
            lemma_utf8_ne("protocol_mismatch"@, "internal"@);
            lemma_utf8_ne("unavailable"@, "internal"@);
        },
    }
}

/// Appends an encoded client error code.
pub fn enc_error_code(out: &mut Vec<u8>, v: &ErrorCode)
    ensures
        final(out)@ == old(out)@ + spec_enc_error_code(*v),
{
    match v {
        ErrorCode::InvalidRequest => enc_text(out, "invalid_request"),
        ErrorCode::NotFound => enc_text(out, "not_found"),
        ErrorCode::Timeout => enc_text(out, "timeout"),
        ErrorCode::ProtocolMismatch => enc_text(out, "protocol_mismatch"),
        ErrorCode::Unavailable => enc_text(out, "unavailable"),
        ErrorCode::Internal => enc_text(out, "internal"),
    }
}

/// Reads a client error code at `pos`.
pub fn dec_error_code(buf: &[u8], pos: usize) -> (r: Option<(ErrorCode, usize)>)
    requires
        pos <= buf@.len(),
    ensures
        ({
            let s = buf@.skip(pos as int);
            match spec_dec_error_code(s) {
                Some((v, rem)) => r matches Some((rv, end)) && rv == v && pos <= end <= buf@.len()
                    && buf@.skip(end as int) == rem,
                None => r is None,
            }
        }),
{
    reveal(spec_dec_error_code);
    match dec_segment(buf, pos, MAJOR_TEXT) {
        Some((start, end)) => {
            if seg_is(buf, start, end, "invalid_request") {
                Some((ErrorCode::InvalidRequest, end))
            } else if seg_is(buf, start, end, "not_found") {
                Some((ErrorCode::NotFound, end))
            } else if seg_is(buf, start, end, "timeout") {
                Some((ErrorCode::Timeout, end))
            } else if seg_is(buf, start, end, "protocol_mismatch") {
                Some((ErrorCode::ProtocolMismatch, end))
            } else if seg_is(buf, start, end, "unavailable") {
                Some((ErrorCode::Unavailable, end))
            } else if seg_is(buf, start, end, "internal") {
                Some((ErrorCode::Internal, end))
            } else {
                None
            }
        },
        None => None,
    }
}

/// Tag spelled by a worker error code.
pub open spec fn spec_exec_error_code_tag(v: ExecErrorCode) -> Seq<char> {
    match v {
        ExecErrorCode::InvalidRequest => "invalid_request"@,
        ExecErrorCode::NotFound => "not_found"@,
        ExecErrorCode::Unauthorized => "unauthorized"@,
        ExecErrorCode::Unavailable => "unavailable"@,
        ExecErrorCode::Unsupported => "unsupported"@,
        ExecErrorCode::Internal => "internal"@,
    }
}

/// Encoded worker error code.
pub open spec fn spec_enc_exec_error_code(v: ExecErrorCode) -> Seq<u8> {
    spec_enc_text(spec_exec_error_code_tag(v))
}

/// Parses a worker error code.
#[verifier::opaque]
pub open spec fn spec_dec_exec_error_code(b: Seq<u8>) -> Option<(ExecErrorCode, Seq<u8>)> {
    match spec_dec_segment(b, MAJOR_TEXT) {
        Some((seg, rem)) => {
            if seg == encode_utf8("invalid_request"@) {
                Some((ExecErrorCode::InvalidRequest, rem))
            } else if seg == encode_utf8("not_found"@) {
                Some((ExecErrorCode::NotFound, rem))
            } else if seg == encode_utf8("unauthorized"@) {
                Some((ExecErrorCode::Unauthorized, rem))
            } else if seg == encode_utf8("unavailable"@) {
                Some((ExecErrorCode::Unavailable, rem))
            } else if seg == encode_utf8("unsupported"@) {
                Some((ExecErrorCode::Unsupported, rem))
            } else if seg == encode_utf8("internal"@) {
                Some((ExecErrorCode::Internal, rem))
            } else {
                None
            }
        },
        None => None,
    }
}

/// Character-level facts about the worker error code tags.
proof fn lemma_exec_error_code_tags()
    ensures
        "invalid_request"@.len() == 15,
        "not_found"@.len() == 9,
        "unauthorized"@.len() == 12,
        "unavailable"@.len() == 11,
        "unsupported"@.len() == 11,
        "internal"@.len() == 8,
        "unavailable"@ != "unsupported"@,
{
    reveal_strlit("invalid_request");
    reveal_strlit("not_found");
    reveal_strlit("unauthorized");
    reveal_strlit("unavailable");
    reveal_strlit("unsupported");
    reveal_strlit("internal");
    assert("unavailable"@[2] == 'a');
    assert("unsupported"@[2] == 's');
}

/// Decoding a worker error code inverts encoding one.
pub proof fn lemma_dec_exec_error_code_enc(v: ExecErrorCode, rest: Seq<u8>)
    ensures
        spec_dec_exec_error_code(spec_enc_exec_error_code(v) + rest) == Some((v, rest)),
{
    reveal(spec_dec_exec_error_code);
    lemma_exec_error_code_tags();
    lemma_short_text_fits("invalid_request"@);
    lemma_short_text_fits("not_found"@);
    lemma_short_text_fits("unauthorized"@);
    lemma_short_text_fits("unavailable"@);
    lemma_short_text_fits("unsupported"@);
    lemma_short_text_fits("internal"@);
    match v {
        ExecErrorCode::InvalidRequest => {
            lemma_dec_segment_enc_text("invalid_request"@, rest);
        },
        ExecErrorCode::NotFound => {
            lemma_dec_segment_enc_text("not_found"@, rest);
            lemma_utf8_ne("invalid_request"@, "not_found"@);
        },
        ExecErrorCode::Unauthorized => {
            lemma_dec_segment_enc_text("unauthorized"@, rest);
            lemma_utf8_ne("invalid_request"@, "unauthorized"@);
            lemma_utf8_ne("not_found"@, "unauthorized"@);
        },
        ExecErrorCode::Unavailable => {
            lemma_dec_segment_enc_text("unavailable"@, rest);
            lemma_utf8_ne("invalid_request"@, "unavailable"@);
            lemma_utf8_ne("not_found"@, "unavailable"@);
            lemma_utf8_ne("unauthorized"@, "unavailable"@);
        },
        ExecErrorCode::Unsupported => {
            lemma_dec_segment_enc_text("unsupported"@, rest);
            lemma_utf8_ne("invalid_request"@, "unsupported"@);
            lemma_utf8_ne("not_found"@, "unsupported"@);
            lemma_utf8_ne("unauthorized"@, "unsupported"@);
            lemma_utf8_ne("unavailable"@, "unsupported"@);
        },
        ExecErrorCode::Internal => {
            lemma_dec_segment_enc_text("internal"@, rest);
            lemma_utf8_ne("invalid_request"@, "internal"@);
            lemma_utf8_ne("not_found"@, "internal"@);
            lemma_utf8_ne("unauthorized"@, "internal"@);
            lemma_utf8_ne("unavailable"@, "internal"@);
            lemma_utf8_ne("unsupported"@, "internal"@);
        },
    }
}

/// Appends an encoded worker error code.
pub fn enc_exec_error_code(out: &mut Vec<u8>, v: &ExecErrorCode)
    ensures
        final(out)@ == old(out)@ + spec_enc_exec_error_code(*v),
{
    match v {
        ExecErrorCode::InvalidRequest => enc_text(out, "invalid_request"),
        ExecErrorCode::NotFound => enc_text(out, "not_found"),
        ExecErrorCode::Unauthorized => enc_text(out, "unauthorized"),
        ExecErrorCode::Unavailable => enc_text(out, "unavailable"),
        ExecErrorCode::Unsupported => enc_text(out, "unsupported"),
        ExecErrorCode::Internal => enc_text(out, "internal"),
    }
}

/// Reads a worker error code at `pos`.
pub fn dec_exec_error_code(buf: &[u8], pos: usize) -> (r: Option<(ExecErrorCode, usize)>)
    requires
        pos <= buf@.len(),
    ensures
        ({
            let s = buf@.skip(pos as int);
            match spec_dec_exec_error_code(s) {
                Some((v, rem)) => r matches Some((rv, end)) && rv == v && pos <= end <= buf@.len()
                    && buf@.skip(end as int) == rem,
                None => r is None,
            }
        }),
{
    reveal(spec_dec_exec_error_code);
    match dec_segment(buf, pos, MAJOR_TEXT) {
        Some((start, end)) => {
            if seg_is(buf, start, end, "invalid_request") {
                Some((ExecErrorCode::InvalidRequest, end))
            } else if seg_is(buf, start, end, "not_found") {
                Some((ExecErrorCode::NotFound, end))
            } else if seg_is(buf, start, end, "unauthorized") {
                Some((ExecErrorCode::Unauthorized, end))
            } else if seg_is(buf, start, end, "unavailable") {
                Some((ExecErrorCode::Unavailable, end))
            } else if seg_is(buf, start, end, "unsupported") {
                Some((ExecErrorCode::Unsupported, end))
            } else if seg_is(buf, start, end, "internal") {
                Some((ExecErrorCode::Internal, end))
            } else {
                None
            }
        },
        None => None,
    }
}

} // verus!

verus! {

/// Encoded optional unsigned value: null when absent.
pub open spec fn spec_enc_opt_u64(v: Option<u64>) -> Seq<u8> {
    match v {
        None => seq![SIMPLE_NULL],
        Some(x) => spec_enc_u64(x),
    }
}

/// Parses an optional unsigned value.
#[verifier::opaque]
pub open spec fn spec_dec_opt_u64(b: Seq<u8>) -> Option<(Option<u64>, Seq<u8>)> {
    if b.len() >= 1 && b[0] == SIMPLE_NULL {
        Some((None, b.skip(1)))
    } else {
        match spec_dec_u64(b) {
            Some((x, rem)) => Some((Some(x), rem)),
            None => None,
        }
    }
}

/// Decoding an optional unsigned value inverts encoding one.
pub proof fn lemma_dec_opt_u64_enc(v: Option<u64>, rest: Seq<u8>)
    ensures
        spec_dec_opt_u64(spec_enc_opt_u64(v) + rest) == Some((v, rest)),
{
    reveal(spec_dec_opt_u64);
    match v {
        None => {
            assert((spec_enc_opt_u64(v) + rest)[0] == SIMPLE_NULL);
            assert((spec_enc_opt_u64(v) + rest).skip(1) =~= rest);
        },
        Some(x) => {
            lemma_enc_not_null(MAJOR_UINT, x);
            assert((spec_enc_opt_u64(v) + rest)[0] == spec_enc_u64(x)[0]);
            lemma_dec_u64_enc(x, rest);
        },
    }
}

/// Appends an encoded optional unsigned value.
pub fn enc_opt_u64(out: &mut Vec<u8>, v: &Option<u64>)
    ensures
        final(out)@ == old(out)@ + spec_enc_opt_u64(*v),
{
    match v {
        None => enc_null(out),
        Some(x) => enc_u64(out, *x),
    }
}

/// Reads an optional unsigned value at `pos`.
pub fn dec_opt_u64(buf: &[u8], pos: usize) -> (r: Option<(Option<u64>, usize)>)
    requires
        pos <= buf@.len(),
    ensures
        ({
            let s = buf@.skip(pos as int);
            match spec_dec_opt_u64(s) {
                Some((v, rem)) => r matches Some((rv, end)) && rv == v && pos <= end <= buf@.len()
                    && buf@.skip(end as int) == rem,
                None => r is None,
            }
        }),
{
    reveal(spec_dec_opt_u64);
    if peek_null(buf, pos) {
        Some((None, skip_one(buf, pos)))
    } else {
        match dec_u64(buf, pos) {
            Some((x, end)) => Some((Some(x), end)),
            None => None,
        }
    }
}

/// Encoded optional 32-bit unsigned value.
pub open spec fn spec_enc_opt_u32(v: Option<u32>) -> Seq<u8> {
    match v {
        None => seq![SIMPLE_NULL],
        Some(x) => spec_enc_u64(x as u64),
    }
}

/// Parses an optional 32-bit unsigned value.
#[verifier::opaque]
pub open spec fn spec_dec_opt_u32(b: Seq<u8>) -> Option<(Option<u32>, Seq<u8>)> {
    if b.len() >= 1 && b[0] == SIMPLE_NULL {
        Some((None, b.skip(1)))
    } else {
        match spec_dec_u32(b) {
            Some((x, rem)) => Some((Some(x), rem)),
            None => None,
        }
    }
}

/// Decoding an optional 32-bit value inverts encoding one.
pub proof fn lemma_dec_opt_u32_enc(v: Option<u32>, rest: Seq<u8>)
    ensures
        spec_dec_opt_u32(spec_enc_opt_u32(v) + rest) == Some((v, rest)),
{
    reveal(spec_dec_opt_u32);
    match v {
        None => {
            assert((spec_enc_opt_u32(v) + rest)[0] == SIMPLE_NULL);
            assert((spec_enc_opt_u32(v) + rest).skip(1) =~= rest);
        },
        Some(x) => {
            lemma_enc_not_null(MAJOR_UINT, x as u64);
            assert((spec_enc_opt_u32(v) + rest)[0] == spec_enc_u64(x as u64)[0]);
            lemma_dec_u32_enc(x, rest);
        },
    }
}

/// Appends an encoded optional 32-bit unsigned value.
pub fn enc_opt_u32(out: &mut Vec<u8>, v: &Option<u32>)
    ensures
        final(out)@ == old(out)@ + spec_enc_opt_u32(*v),
{
    match v {
        None => enc_null(out),
        Some(x) => enc_u64(out, *x as u64),
    }
}

/// Reads an optional 32-bit unsigned value at `pos`.
pub fn dec_opt_u32(buf: &[u8], pos: usize) -> (r: Option<(Option<u32>, usize)>)
    requires
        pos <= buf@.len(),
    ensures
        ({
            let s = buf@.skip(pos as int);
            match spec_dec_opt_u32(s) {
                Some((v, rem)) => r matches Some((rv, end)) && rv == v && pos <= end <= buf@.len()
                    && buf@.skip(end as int) == rem,
                None => r is None,
            }
        }),
{
    reveal(spec_dec_opt_u32);
    if peek_null(buf, pos) {
        Some((None, skip_one(buf, pos)))
    } else {
        match dec_u32(buf, pos) {
            Some((x, end)) => Some((Some(x), end)),
            None => None,
        }
    }
}

/// Encoded optional signed value.
pub open spec fn spec_enc_opt_i32(v: Option<i32>) -> Seq<u8> {
    match v {
        None => seq![SIMPLE_NULL],
        Some(x) => spec_enc_i32(x),
    }
}

/// Parses an optional signed value.
#[verifier::opaque]
pub open spec fn spec_dec_opt_i32(b: Seq<u8>) -> Option<(Option<i32>, Seq<u8>)> {
    if b.len() >= 1 && b[0] == SIMPLE_NULL {
        Some((None, b.skip(1)))
    } else {
        match spec_dec_i32(b) {
            Some((x, rem)) => Some((Some(x), rem)),
            None => None,
        }
    }
}

/// Decoding an optional signed value inverts encoding one.
pub proof fn lemma_dec_opt_i32_enc(v: Option<i32>, rest: Seq<u8>)
    ensures
        spec_dec_opt_i32(spec_enc_opt_i32(v) + rest) == Some((v, rest)),
{
    reveal(spec_dec_opt_i32);
    match v {
        None => {
            assert((spec_enc_opt_i32(v) + rest)[0] == SIMPLE_NULL);
            assert((spec_enc_opt_i32(v) + rest).skip(1) =~= rest);
        },
        Some(x) => {
            if x >= 0 {
                lemma_enc_not_null(MAJOR_UINT, x as u64);
            } else {
                lemma_enc_not_null(MAJOR_NINT, (-1 - x) as u64);
            }
            assert((spec_enc_opt_i32(v) + rest)[0] == spec_enc_i32(x)[0]);
            lemma_dec_i32_enc(x, rest);
        },
    }
}

/// Appends an encoded optional signed value.
pub fn enc_opt_i32(out: &mut Vec<u8>, v: &Option<i32>)
    ensures
        final(out)@ == old(out)@ + spec_enc_opt_i32(*v),
{
    match v {
        None => enc_null(out),
        Some(x) => enc_i32(out, *x),
    }
}

/// Reads an optional signed value at `pos`.
pub fn dec_opt_i32(buf: &[u8], pos: usize) -> (r: Option<(Option<i32>, usize)>)
    requires
        pos <= buf@.len(),
    ensures
        ({
            let s = buf@.skip(pos as int);
            match spec_dec_opt_i32(s) {
                Some((v, rem)) => r matches Some((rv, end)) && rv == v && pos <= end <= buf@.len()
                    && buf@.skip(end as int) == rem,
                None => r is None,
            }
        }),
{
    reveal(spec_dec_opt_i32);
    if peek_null(buf, pos) {
        Some((None, skip_one(buf, pos)))
    } else {
        match dec_i32(buf, pos) {
            Some((x, end)) => Some((Some(x), end)),
            None => None,
        }
    }
}

/// Encoded optional text.
pub open spec fn spec_enc_opt_text(v: Option<Seq<char>>) -> Seq<u8> {
    match v {
        None => seq![SIMPLE_NULL],
        Some(s) => spec_enc_text(s),
    }
}

/// Parses an optional text.
#[verifier::opaque]
pub open spec fn spec_dec_opt_text(b: Seq<u8>) -> Option<(Option<Seq<char>>, Seq<u8>)> {
    if b.len() >= 1 && b[0] == SIMPLE_NULL {
        Some((None, b.skip(1)))
    } else {
        match crate::cbor::spec_dec_text(b) {
            Some((s, rem)) => Some((Some(s), rem)),
            None => None,
        }
    }
}

/// Decoding an optional text inverts encoding one.
pub proof fn lemma_dec_opt_text_enc(v: Option<Seq<char>>, rest: Seq<u8>)
    requires
        v matches Some(s) ==> text_fits(s),
    ensures
        spec_dec_opt_text(spec_enc_opt_text(v) + rest) == Some((v, rest)),
{
    reveal(spec_dec_opt_text);
    match v {
        None => {
            assert((spec_enc_opt_text(v) + rest)[0] == SIMPLE_NULL);
            assert((spec_enc_opt_text(v) + rest).skip(1) =~= rest);
        },
        Some(s) => {
            lemma_enc_not_null(MAJOR_TEXT, encode_utf8(s).len() as u64);
            assert(spec_enc_text(s)[0] == spec_enc_uint(
                MAJOR_TEXT,
                encode_utf8(s).len() as u64,
            )[0]);
            assert((spec_enc_opt_text(v) + rest)[0] == spec_enc_text(s)[0]);
            crate::cbor::lemma_dec_text_enc(s, rest);
        },
    }
}

/// Appends an encoded optional text.
pub fn enc_opt_text(out: &mut Vec<u8>, v: &Option<String>)
    ensures
        final(out)@ == old(out)@ + spec_enc_opt_text(v.deep_view()),
{
    match v {
        None => enc_null(out),
        Some(s) => enc_text(out, s.as_str()),
    }
}

/// Reads an optional text at `pos`.
pub fn dec_opt_text(buf: &[u8], pos: usize) -> (r: Option<(Option<String>, usize)>)
    requires
        pos <= buf@.len(),
    ensures
        ({
            let s = buf@.skip(pos as int);
            match spec_dec_opt_text(s) {
                Some((v, rem)) => r matches Some((ov, end)) && ov.deep_view() == v && pos <= end
                    <= buf@.len() && buf@.skip(end as int) == rem,
                None => r is None,
            }
        }),
{
    reveal(spec_dec_opt_text);
    if peek_null(buf, pos) {
        Some((None, skip_one(buf, pos)))
    } else {
        match crate::cbor::dec_text(buf, pos) {
            Some((s, end)) => Some((Some(s), end)),
            None => None,
        }
    }
}

/// Encoded optional termination reason.
pub open spec fn spec_enc_opt_term_reason(v: Option<TerminationReason>) -> Seq<u8> {
    match v {
        None => seq![SIMPLE_NULL],
        Some(t) => spec_enc_term_reason(t),
    }
}

/// Parses an optional termination reason.
#[verifier::opaque]
pub open spec fn spec_dec_opt_term_reason(b: Seq<u8>) -> Option<
    (Option<TerminationReason>, Seq<u8>),
> {
    if b.len() >= 1 && b[0] == SIMPLE_NULL {
        Some((None, b.skip(1)))
    } else {
        match spec_dec_term_reason(b) {
            Some((t, rem)) => Some((Some(t), rem)),
            None => None,
        }
    }
}

/// Decoding an optional termination reason inverts encoding one.
pub proof fn lemma_dec_opt_term_reason_enc(v: Option<TerminationReason>, rest: Seq<u8>)
    ensures
        spec_dec_opt_term_reason(spec_enc_opt_term_reason(v) + rest) == Some((v, rest)),
{
    reveal(spec_dec_opt_term_reason);
    match v {
        None => {
            assert((spec_enc_opt_term_reason(v) + rest)[0] == SIMPLE_NULL);
            assert((spec_enc_opt_term_reason(v) + rest).skip(1) =~= rest);
        },
        Some(t) => {
            let tag = spec_term_reason_tag(t);
            lemma_enc_not_null(MAJOR_TEXT, encode_utf8(tag).len() as u64);
            assert(spec_enc_text(tag)[0] == spec_enc_uint(
                MAJOR_TEXT,
                encode_utf8(tag).len() as u64,
            )[0]);
            assert((spec_enc_opt_term_reason(v) + rest)[0] == spec_enc_term_reason(t)[0]);
            lemma_dec_term_reason_enc(t, rest);
        },
    }
}

/// Appends an encoded optional termination reason.
pub fn enc_opt_term_reason(out: &mut Vec<u8>, v: &Option<TerminationReason>)
    ensures
        final(out)@ == old(out)@ + spec_enc_opt_term_reason(*v),
{
    match v {
        None => enc_null(out),
        Some(t) => enc_term_reason(out, t),
    }
}

/// Reads an optional termination reason at `pos`.
pub fn dec_opt_term_reason(buf: &[u8], pos: usize) -> (r: Option<
    (Option<TerminationReason>, usize),
>)
    requires
        pos <= buf@.len(),
    ensures
        ({
            let s = buf@.skip(pos as int);
            match spec_dec_opt_term_reason(s) {
                Some((v, rem)) => r matches Some((rv, end)) && rv == v && pos <= end <= buf@.len()
                    && buf@.skip(end as int) == rem,
                None => r is None,
            }
        }),
{
    reveal(spec_dec_opt_term_reason);
    if peek_null(buf, pos) {
        Some((None, skip_one(buf, pos)))
    } else {
        match dec_term_reason(buf, pos) {
            Some((t, end)) => Some((Some(t), end)),
            None => None,
        }
    }
}

} // verus!

verus! {

/// Encoded exit status: a tagged map, with the exit code present only in
/// the exited form.
pub open spec fn spec_enc_exit_status(v: ExitStatus) -> Seq<u8> {
    match v {
        ExitStatus::Running => spec_enc_uint(MAJOR_MAP, 1) + spec_enc_text("type"@)
            + spec_enc_text("running"@),
        ExitStatus::Exited { code } => spec_enc_uint(MAJOR_MAP, 2) + spec_enc_text("type"@)
            + spec_enc_text("exited"@) + spec_enc_text("code"@) + spec_enc_opt_i32(code),
    }
}

/// Parses an exit status.
#[verifier::opaque]
pub open spec fn spec_dec_exit_status(b: Seq<u8>) -> Option<(ExitStatus, Seq<u8>)> {
    match spec_dec_head(b) {
        Some((m, cnt, r0)) => {
            if m != MAJOR_MAP {
                None
            } else {
                match spec_dec_key(r0, "type"@) {
                    Some(r1) => {
                        match spec_dec_segment(r1, MAJOR_TEXT) {
                            Some((tag, r2)) => {
                                if tag == encode_utf8("running"@) {
                                    if cnt == 1 {
                                        Some((ExitStatus::Running, r2))
                                    } else {
                                        None
                                    }
                                } else if tag == encode_utf8("exited"@) {
                                    if cnt != 2 {
                                        None
                                    } else {
                                        match spec_dec_key(r2, "code"@) {
                                            Some(r3) => {
                                                match spec_dec_opt_i32(r3) {
                                                    Some((c, r4)) => Some(
                                                        (ExitStatus::Exited { code: c }, r4),
                                                    ),
                                                    None => None,
                                                }
                                            },
                                            None => None,
                                        }
                                    }
                                } else {
                                    None
                                }
                            },
                            None => None,
                        }
                    },
                    None => None,
                }
            }
        },
        None => None,
    }
}

/// Decoding an exit status inverts encoding one.
pub proof fn lemma_dec_exit_status_enc(v: ExitStatus, rest: Seq<u8>)
    ensures
        spec_dec_exit_status(spec_enc_exit_status(v) + rest) == Some((v, rest)),
{
    reveal(spec_dec_exit_status);
    reveal_strlit("type");
    reveal_strlit("running");
    reveal_strlit("exited");
    reveal_strlit("code");
    assert("type"@.len() == 4);
    assert("running"@.len() == 7);
    assert("exited"@.len() == 6);
    assert("code"@.len() == 4);
    lemma_short_text_fits("type"@);
    lemma_short_text_fits("running"@);
    lemma_short_text_fits("exited"@);
    lemma_short_text_fits("code"@);
    match v {
        ExitStatus::Running => {
            let h1 = spec_enc_uint(MAJOR_MAP, 1);
            let k1 = spec_enc_text("type"@);
            let t1 = spec_enc_text("running"@);
            lemma_concat_assoc(h1 + k1, t1, rest);
            lemma_concat_assoc(h1, k1, t1 + rest);
            lemma_dec_head_enc(MAJOR_MAP, 1, k1 + (t1 + rest));
            lemma_dec_key_enc("type"@, t1 + rest);
            lemma_dec_segment_enc_text("running"@, rest);
        },
        ExitStatus::Exited { code } => {
            let h1 = spec_enc_uint(MAJOR_MAP, 2);
            let k1 = spec_enc_text("type"@);
            let t1 = spec_enc_text("exited"@);
            let k2 = spec_enc_text("code"@);
            let c1 = spec_enc_opt_i32(code);
            lemma_concat_assoc(h1 + k1 + t1 + k2, c1, rest);
            lemma_concat_assoc(h1 + k1 + t1, k2, c1 + rest);
            lemma_concat_assoc(h1 + k1, t1, k2 + (c1 + rest));
            lemma_concat_assoc(h1, k1, t1 + (k2 + (c1 + rest)));
            lemma_dec_head_enc(MAJOR_MAP, 2, k1 + (t1 + (k2 + (c1 + rest))));
            lemma_dec_key_enc("type"@, t1 + (k2 + (c1 + rest)));
            lemma_dec_segment_enc_text("exited"@, k2 + (c1 + rest));
            assert("running"@[0] == 'r');
            assert("exited"@[0] == 'e');
            lemma_utf8_ne("running"@, "exited"@);
            lemma_dec_key_enc("code"@, c1 + rest);
            lemma_dec_opt_i32_enc(code, rest);
        },
    }
}

/// Appends an encoded exit status.
pub fn enc_exit_status(out: &mut Vec<u8>, v: &ExitStatus)
    ensures
        final(out)@ == old(out)@ + spec_enc_exit_status(*v),
{
    match v {
        ExitStatus::Running => {
            enc_uint(out, MAJOR_MAP, 1);
            enc_text(out, "type");
            enc_text(out, "running");
            proof {
                assert(out@ =~= old(out)@ + spec_enc_exit_status(*v));
            }
        },
        ExitStatus::Exited { code } => {
            enc_uint(out, MAJOR_MAP, 2);
            enc_text(out, "type");
            enc_text(out, "exited");
            enc_text(out, "code");
            enc_opt_i32(out, code);
            proof {
                assert(out@ =~= old(out)@ + spec_enc_exit_status(*v));
            }
        },
    }
}

/// Reads an exit status at `pos`.
pub fn dec_exit_status(buf: &[u8], pos: usize) -> (r: Option<(ExitStatus, usize)>)
    requires
        pos <= buf@.len(),
    ensures
        ({
            let s = buf@.skip(pos as int);
            match spec_dec_exit_status(s) {
                Some((v, rem)) => r matches Some((rv, end)) && rv == v && pos <= end <= buf@.len()
                    && buf@.skip(end as int) == rem,
                None => r is None,
            }
        }),
{
    reveal(spec_dec_exit_status);
    let Some((cnt, p0)) = dec_map_head(buf, pos) else { return None };
    let Some(p1) = dec_key(buf, p0, "type") else { return None };
    let Some((tstart, tend)) = dec_segment(buf, p1, MAJOR_TEXT) else { return None };
    if seg_is(buf, tstart, tend, "running") {
        if cnt == 1 {
            Some((ExitStatus::Running, tend))
        } else {
            None
        }
    } else if seg_is(buf, tstart, tend, "exited") {
        if cnt != 2 {
            return None;
        }
        let Some(p3) = dec_key(buf, tend, "code") else { return None };
        let Some((code, p4)) = dec_opt_i32(buf, p3) else { return None };
        Some((ExitStatus::Exited { code }, p4))
    } else {
        None
    }
}

/// Encoded resource limits record.
pub open spec fn spec_enc_limits(v: ResourceLimits) -> Seq<u8> {
    spec_enc_uint(MAJOR_MAP, 3) + spec_enc_text("timeout_ms"@) + spec_enc_opt_u64(v.timeout_ms)
        + spec_enc_text("max_rss_bytes"@) + spec_enc_opt_u64(v.max_rss_bytes) + spec_enc_text(
        "max_log_bytes"@,
    ) + spec_enc_opt_u64(v.max_log_bytes)
}

/// Parses a resource limits record.
#[verifier::opaque]
pub open spec fn spec_dec_limits(b: Seq<u8>) -> Option<(ResourceLimits, Seq<u8>)> {
    match spec_dec_head(b) {
        Some((m, cnt, r0)) => {
            if m != MAJOR_MAP || cnt != 3 {
                None
            } else {
                match spec_dec_key(r0, "timeout_ms"@) {
                    Some(r1) => {
                        match spec_dec_opt_u64(r1) {
                            Some((timeout_ms, r2)) => {
                                match spec_dec_key(r2, "max_rss_bytes"@) {
                                    Some(r3) => {
                                        match spec_dec_opt_u64(r3) {
                                            Some((max_rss_bytes, r4)) => {
                                                match spec_dec_key(r4, "max_log_bytes"@) {
                                                    Some(r5) => {
                                                        match spec_dec_opt_u64(r5) {
                                                            Some((max_log_bytes, r6)) => Some(
                                                                (
                                                                    ResourceLimits {
                                                                        timeout_ms,
                                                                        max_rss_bytes,
                                                                        max_log_bytes,
                                                                    },
                                                                    r6,
                                                                ),
                                                            ),
                                                            None => None,
                                                        }
                                                    },
                                                    None => None,
                                                }
                                            },
                                            None => None,
                                        }
                                    },
                                    None => None,
                                }
                            },
                            None => None,
                        }
                    },
                    None => None,
                }
            }
        },
        None => None,
    }
}

/// Decoding a resource limits record inverts encoding one.
pub proof fn lemma_dec_limits_enc(v: ResourceLimits, rest: Seq<u8>)
    ensures
        spec_dec_limits(spec_enc_limits(v) + rest) == Some((v, rest)),
{
    reveal(spec_dec_limits);
    reveal_strlit("timeout_ms");
    reveal_strlit("max_rss_bytes");
    reveal_strlit("max_log_bytes");
    assert("timeout_ms"@.len() == 10);
    assert("max_rss_bytes"@.len() == 13);
    assert("max_log_bytes"@.len() == 13);
    lemma_short_text_fits("timeout_ms"@);
    lemma_short_text_fits("max_rss_bytes"@);
    lemma_short_text_fits("max_log_bytes"@);
    let h1 = spec_enc_uint(MAJOR_MAP, 3);
    let k1 = spec_enc_text("timeout_ms"@);
    let v1 = spec_enc_opt_u64(v.timeout_ms);
    let k2 = spec_enc_text("max_rss_bytes"@);
    let v2 = spec_enc_opt_u64(v.max_rss_bytes);
    let k3 = spec_enc_text("max_log_bytes"@);
    let v3 = spec_enc_opt_u64(v.max_log_bytes);
    lemma_concat_assoc(h1 + k1 + v1 + k2 + v2 + k3, v3, rest);
    lemma_concat_assoc(h1 + k1 + v1 + k2 + v2, k3, v3 + rest);
    lemma_concat_assoc(h1 + k1 + v1 + k2, v2, k3 + (v3 + rest));
    lemma_concat_assoc(h1 + k1 + v1, k2, v2 + (k3 + (v3 + rest)));
    lemma_concat_assoc(h1 + k1, v1, k2 + (v2 + (k3 + (v3 + rest))));
    lemma_concat_assoc(h1, k1, v1 + (k2 + (v2 + (k3 + (v3 + rest)))));
    lemma_dec_head_enc(MAJOR_MAP, 3, k1 + (v1 + (k2 + (v2 + (k3 + (v3 + rest))))));
    lemma_dec_key_enc("timeout_ms"@, v1 + (k2 + (v2 + (k3 + (v3 + rest)))));
    lemma_dec_opt_u64_enc(v.timeout_ms, k2 + (v2 + (k3 + (v3 + rest))));
    lemma_dec_key_enc("max_rss_bytes"@, v2 + (k3 + (v3 + rest)));
    lemma_dec_opt_u64_enc(v.max_rss_bytes, k3 + (v3 + rest));
    lemma_dec_key_enc("max_log_bytes"@, v3 + rest);
    lemma_dec_opt_u64_enc(v.max_log_bytes, rest);
}

/// Appends an encoded resource limits record.
pub fn enc_limits(out: &mut Vec<u8>, v: &ResourceLimits)
    ensures
        final(out)@ == old(out)@ + spec_enc_limits(*v),
{
    enc_uint(out, MAJOR_MAP, 3);
    enc_text(out, "timeout_ms");
    enc_opt_u64(out, &v.timeout_ms);
    enc_text(out, "max_rss_bytes");
    enc_opt_u64(out, &v.max_rss_bytes);
    enc_text(out, "max_log_bytes");
    enc_opt_u64(out, &v.max_log_bytes);
    proof {
        assert(out@ =~= old(out)@ + spec_enc_limits(*v));
    }
}

/// Reads a resource limits record at `pos`.
pub fn dec_limits(buf: &[u8], pos: usize) -> (r: Option<(ResourceLimits, usize)>)
    requires
        pos <= buf@.len(),
    ensures
        ({
            let s = buf@.skip(pos as int);
            match spec_dec_limits(s) {
                Some((v, rem)) => r matches Some((rv, end)) && rv == v && pos <= end <= buf@.len()
                    && buf@.skip(end as int) == rem,
                None => r is None,
            }
        }),
{
    reveal(spec_dec_limits);
    let Some((cnt, p0)) = dec_map_head(buf, pos) else { return None };
    if cnt != 3 {
        return None;
    }
    let Some(p1) = dec_key(buf, p0, "timeout_ms") else { return None };
    let Some((timeout_ms, p2)) = dec_opt_u64(buf, p1) else { return None };
    let Some(p3) = dec_key(buf, p2, "max_rss_bytes") else { return None };
    let Some((max_rss_bytes, p4)) = dec_opt_u64(buf, p3) else { return None };
    let Some(p5) = dec_key(buf, p4, "max_log_bytes") else { return None };
    let Some((max_log_bytes, p6)) = dec_opt_u64(buf, p5) else { return None };
    Some((ResourceLimits { timeout_ms, max_rss_bytes, max_log_bytes }, p6))
}

/// Encoded optional resource limits.
pub open spec fn spec_enc_opt_limits(v: Option<ResourceLimits>) -> Seq<u8> {
    match v {
        None => seq![SIMPLE_NULL],
        Some(l) => spec_enc_limits(l),
    }
}

/// Parses optional resource limits.
#[verifier::opaque]
pub open spec fn spec_dec_opt_limits(b: Seq<u8>) -> Option<(Option<ResourceLimits>, Seq<u8>)> {
    if b.len() >= 1 && b[0] == SIMPLE_NULL {
        Some((None, b.skip(1)))
    } else {
        match spec_dec_limits(b) {
            Some((l, rem)) => Some((Some(l), rem)),
            None => None,
        }
    }
}

/// Decoding optional resource limits inverts encoding them.
pub proof fn lemma_dec_opt_limits_enc(v: Option<ResourceLimits>, rest: Seq<u8>)
    ensures
        spec_dec_opt_limits(spec_enc_opt_limits(v) + rest) == Some((v, rest)),
{
    reveal(spec_dec_opt_limits);
    match v {
        None => {
            assert((spec_enc_opt_limits(v) + rest)[0] == SIMPLE_NULL);
            assert((spec_enc_opt_limits(v) + rest).skip(1) =~= rest);
        },
        Some(l) => {
            lemma_enc_not_null(MAJOR_MAP, 3);
            assert(spec_enc_limits(l)[0] == spec_enc_uint(MAJOR_MAP, 3)[0]);
            assert((spec_enc_opt_limits(v) + rest)[0] == spec_enc_limits(l)[0]);
            lemma_dec_limits_enc(l, rest);
        },
    }
}

/// Appends encoded optional resource limits.
pub fn enc_opt_limits(out: &mut Vec<u8>, v: &Option<ResourceLimits>)
    ensures
        final(out)@ == old(out)@ + spec_enc_opt_limits(*v),
{
    match v {
        None => enc_null(out),
        Some(l) => enc_limits(out, l),
    }
}

/// Reads optional resource limits at `pos`.
pub fn dec_opt_limits(buf: &[u8], pos: usize) -> (r: Option<(Option<ResourceLimits>, usize)>)
    requires
        pos <= buf@.len(),
    ensures
        ({
            let s = buf@.skip(pos as int);
            match spec_dec_opt_limits(s) {
                Some((v, rem)) => r matches Some((rv, end)) && rv == v && pos <= end <= buf@.len()
                    && buf@.skip(end as int) == rem,
                None => r is None,
            }
        }),
{
    reveal(spec_dec_opt_limits);
    if peek_null(buf, pos) {
        Some((None, skip_one(buf, pos)))
    } else {
        match dec_limits(buf, pos) {
            Some((l, end)) => Some((Some(l), end)),
            None => None,
        }
    }
}

} // verus!
