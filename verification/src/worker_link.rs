//! Daemon-side mapping of worker responses onto the client error
//! taxonomy, and classification of nested-sandbox launch failures.

use vstd::prelude::*;
use vstd::string::{StringExecFns, StringSliceAdditionalSpecFns};
use crate::errors::{ErrorCode, PlanterError};
use crate::exec_proto::{ExecErrorCode, ExecResponse, EXECD_PROTOCOL_VERSION};
use crate::framing::IpcError;

verus! {

/// Client error code that stands for each worker error code.
pub open spec fn spec_map_exec_error(code: ExecErrorCode) -> ErrorCode {
    match code {
        ExecErrorCode::InvalidRequest => ErrorCode::InvalidRequest,
        ExecErrorCode::NotFound => ErrorCode::NotFound,
        ExecErrorCode::Unauthorized => ErrorCode::Unavailable,
        ExecErrorCode::Unavailable => ErrorCode::Unavailable,
        ExecErrorCode::Unsupported => ErrorCode::InvalidRequest,
        ExecErrorCode::Internal => ErrorCode::Internal,
    }
}

/// Maps a worker error code onto the client-facing taxonomy.
pub fn map_exec_error(code: ExecErrorCode) -> (r: ErrorCode)
    ensures
        r == spec_map_exec_error(code),
{
    match code {
        ExecErrorCode::InvalidRequest => ErrorCode::InvalidRequest,
        ExecErrorCode::NotFound => ErrorCode::NotFound,
        ExecErrorCode::Unauthorized => ErrorCode::Unavailable,
        ExecErrorCode::Unavailable => ErrorCode::Unavailable,
        ExecErrorCode::Unsupported => ErrorCode::InvalidRequest,
        ExecErrorCode::Internal => ErrorCode::Internal,
    }
}

/// ASCII lowercasing of one byte.
pub open spec fn spec_lower_byte(b: u8) -> u8 {
    if 65 <= b <= 90 {
        (b + 32) as u8
    } else {
        b
    }
}

/// The needle occurs somewhere in the haystack.
pub open spec fn spec_contains_bytes(h: Seq<u8>, n: Seq<u8>) -> bool {
    exists|i: int| 0 <= i <= h.len() - n.len() && #[trigger] h.subrange(i, i + n.len()) == n
}

/// True when `haystack`, lowercased bytewise, holds `needle`.
fn lower_contains(haystack: &[u8], needle: &[u8]) -> (r: bool)
    ensures
        r == spec_contains_bytes(
            haystack@.map_values(|b: u8| spec_lower_byte(b)),
            needle@,
        ),
{
    let ghost lh = haystack@.map_values(|b: u8| spec_lower_byte(b));
    let hn: usize = haystack.len();
    let nn: usize = needle.len();
    if nn > hn {
        return false;
    }
    if nn == 0 {
        proof {
            assert(lh.subrange(0int, 0int + needle@.len()) =~= needle@);
        }
        return true;
    }
    let mut i: usize = 0;
    while i <= hn - nn
        invariant
            1 <= nn <= hn,
            hn == lh.len(),
            nn == needle@.len(),
            lh == haystack@.map_values(|b: u8| spec_lower_byte(b)),
            i <= hn - nn + 1,
            forall|k: int| 0 <= k < i ==> #[trigger] lh.subrange(k, k + needle@.len()) != needle@,
        decreases hn - i,
    {
        let mut j: usize = 0;
        let mut mismatch = false;
        while j < nn && !mismatch
            invariant
                nn <= hn,
                hn == lh.len(),
                nn == needle@.len(),
                lh == haystack@.map_values(|b: u8| spec_lower_byte(b)),
                i <= hn - nn,
                j <= nn,
                !mismatch ==> forall|t: int| 0 <= t < j ==> #[trigger] lh[i + t] == needle@[t],
                mismatch ==> lh.subrange(i as int, i + needle@.len()) != needle@,
            decreases nn - j, if mismatch {
                0int
            } else {
                1int
            },
        {
            let hb = haystack[i + j];
            let low: u8 = if 65 <= hb && hb <= 90 {
                hb + 32
            } else {
                hb
            };
            proof {
                assert(lh[i + j] == spec_lower_byte(haystack@[i + j]));
            }
            if low != needle[j] {
                proof {
                    assert(lh.subrange(i as int, i + needle@.len())[j as int] == lh[i + j]);
                    if lh.subrange(i as int, i + needle@.len()) == needle@ {
                        assert(lh.subrange(i as int, i + needle@.len())[j as int]
                            == needle@[j as int]);
                    }
                }
                mismatch = true;
            } else {
                j = j + 1;
            }
        }
        if !mismatch {
            proof {
                assert forall|t: int|
                    0 <= t < needle@.len() implies lh.subrange(i as int, i + needle@.len())[t]
                    == needle@[t] by {
                    assert(lh[i + t] == needle@[t]);
                }
                assert(lh.subrange(i as int, i + needle@.len()) =~= needle@);
            }
            return true;
        }
        i = i + 1;
    }
    false
}

/// Detects the stderr signatures of a parent sandbox refusing a nested
/// sandbox launch: an `sandbox_apply` permission complaint, or exit
/// status 71 together with a permission complaint.
pub fn is_nested_sandbox_denied_by_parent(exit_code: Option<i32>, stderr: &[u8]) -> (r: bool)
    ensures
        r == ({
            let low = stderr@.map_values(|b: u8| spec_lower_byte(b));
            (spec_contains_bytes(low, "sandbox_apply"@.map_values(|c: char| c as u8))
                && spec_contains_bytes(
                low,
                "operation not permitted"@.map_values(|c: char| c as u8),
            )) || (exit_code == Some(71i32) && spec_contains_bytes(
                low,
                "operation not permitted"@.map_values(|c: char| c as u8),
            ))
        }),
{
    let apply = lower_contains(stderr, "sandbox_apply".as_bytes());
    let denied = lower_contains(stderr, "operation not permitted".as_bytes());
    proof {
        reveal_strlit("sandbox_apply");
        reveal_strlit("operation not permitted");
        lemma_ascii_bytes("sandbox_apply");
        lemma_ascii_bytes("operation not permitted");
    }
    let code_71 = match exit_code {
        Some(code) => code == 71,
        None => false,
    };
    (apply && denied) || (code_71 && denied)
}

/// For an ASCII literal, the UTF-8 bytes are the characters themselves.
proof fn lemma_ascii_bytes(s: &str)
    requires
        vstd::string::is_ascii(s),
    ensures
        s.spec_bytes() == s@.map_values(|c: char| c as u8),
{
    vstd::string::is_ascii_spec_bytes(s);
    assert(s.spec_bytes() =~= s@.map_values(|c: char| c as u8));
}

} // verus!

verus! {

/// Checks the worker's answer to the handshake: an acknowledgment at
/// the expected protocol version passes, one at another version is a
/// protocol mismatch, and anything else is an internal fault.
pub fn check_hello_response(resp: &ExecResponse) -> (r: Result<(), PlanterError>)
    ensures
        resp matches ExecResponse::HelloAck { protocol, .. } && protocol
            == EXECD_PROTOCOL_VERSION ==> r is Ok,
        resp matches ExecResponse::HelloAck { protocol, .. } && protocol
            != EXECD_PROTOCOL_VERSION ==> (r matches Err(e) && e.code
            == ErrorCode::ProtocolMismatch),
        !(resp matches ExecResponse::HelloAck { .. }) ==> (r matches Err(e) && e.code
            == ErrorCode::Internal),
{
    match resp {
        ExecResponse::HelloAck { protocol, .. } => {
            if *protocol == EXECD_PROTOCOL_VERSION {
                Ok(())
            } else {
                Err(
                    PlanterError {
                        code: ErrorCode::ProtocolMismatch,
                        message: String::from_str("worker protocol mismatch"),
                        detail: None,
                    },
                )
            }
        },
        _ => Err(
            PlanterError {
                code: ErrorCode::Internal,
                message: String::from_str("unexpected worker hello response"),
                detail: None,
            },
        ),
    }
}

/// Checks that a worker reply answers the request that was sent.
pub fn check_exec_reply_id(expected: u64, actual: u64) -> (r: Result<(), PlanterError>)
    ensures
        expected == actual <==> r is Ok,
        expected != actual ==> (r matches Err(e) && e.code == ErrorCode::ProtocolMismatch),
{
    if expected == actual {
        Ok(())
    } else {
        Err(
            PlanterError {
                code: ErrorCode::ProtocolMismatch,
                message: String::from_str("worker request id mismatch"),
                detail: None,
            },
        )
    }
}

/// Short description of a transport error.
pub fn ipc_error_message(err: &IpcError) -> (r: String)
    ensures
        err matches IpcError::Io(_) ==> r@ == "io error"@,
        err matches IpcError::Encode(_) ==> r@ == "failed to encode payload"@,
        err matches IpcError::Decode(_) ==> r@ == "failed to decode payload"@,
        err matches IpcError::Timeout ==> r@ == "request timed out"@,
        err matches IpcError::FrameTooLarge { .. } ==> r@ == "frame too large"@,
        err matches IpcError::RequestIdMismatch { .. } ==> r@ == "request id mismatch"@,
        err matches IpcError::ProtocolMismatch { .. } ==> r@ == "protocol mismatch"@,
{
    match err {
        IpcError::Io(_) => String::from_str("io error"),
        IpcError::Encode(_) => String::from_str("failed to encode payload"),
        IpcError::Decode(_) => String::from_str("failed to decode payload"),
        IpcError::Timeout => String::from_str("request timed out"),
        IpcError::FrameTooLarge { .. } => String::from_str("frame too large"),
        IpcError::RequestIdMismatch { .. } => String::from_str("request id mismatch"),
        IpcError::ProtocolMismatch { .. } => String::from_str("protocol mismatch"),
    }
}

/// Wraps a transport fault on the worker control socket as the internal
/// error the daemon reports.
pub fn to_ipc_error(err: &IpcError) -> (r: PlanterError)
    ensures
        r.code == ErrorCode::Internal,
        r.message@ == "worker ipc"@,
        r.detail is Some,
{
    PlanterError {
        code: ErrorCode::Internal,
        message: String::from_str("worker ipc"),
        detail: Some(ipc_error_message(err)),
    }
}

/// Correlation id a connection assigns to its next call, and the
/// counter value after it; assignment never wraps.
pub fn next_req_id(counter: u64) -> (r: (u64, u64))
    ensures
        r.0 == counter,
        r.1 == (if counter < u64::MAX {
            (counter + 1) as u64
        } else {
            u64::MAX
        }),
{
    if counter < u64::MAX {
        (counter, counter + 1)
    } else {
        (counter, u64::MAX)
    }
}

} // verus!

verus! {

/// Judges a worker's reply as the daemon reports it: an error reply is
/// mapped onto the client-facing taxonomy with its text carried over,
/// and any other reply passes through for the caller to match.
pub fn exec_reply_outcome(resp: ExecResponse) -> (r: Result<ExecResponse, PlanterError>)
    ensures
        resp matches ExecResponse::ExecError { code, message, detail } ==> (r matches Err(e)
            && e.code == spec_map_exec_error(code) && e.message@ == message@
            && e.detail.deep_view() == detail.deep_view()),
        !(resp matches ExecResponse::ExecError { .. }) ==> r == Ok::<ExecResponse, PlanterError>(
            resp,
        ),
{
    match resp {
        ExecResponse::ExecError { code, message, detail } => Err(
            PlanterError { code: map_exec_error(code), message, detail },
        ),
        other => Ok(other),
    }
}

/// Judges the reply to the handshake end to end: an error reply is
/// mapped onto the client taxonomy first, and a surviving reply is held
/// to the expected acknowledgment.
pub fn hello_reply_outcome(resp: ExecResponse) -> (r: Result<(), PlanterError>)
    ensures
        resp matches ExecResponse::ExecError { code, message, detail } ==> (r matches Err(e)
            && e.code == spec_map_exec_error(code) && e.message@ == message@
            && e.detail.deep_view() == detail.deep_view()),
        resp matches ExecResponse::HelloAck { protocol, .. } && protocol
            == EXECD_PROTOCOL_VERSION ==> r is Ok,
        resp matches ExecResponse::HelloAck { protocol, .. } && protocol
            != EXECD_PROTOCOL_VERSION ==> (r matches Err(e) && e.code
            == ErrorCode::ProtocolMismatch),
        !(resp matches ExecResponse::ExecError { .. }) && !(resp matches ExecResponse::HelloAck {
            ..
        }) ==> (r matches Err(e) && e.code == ErrorCode::Internal),
{
    match exec_reply_outcome(resp) {
        Ok(reply) => check_hello_response(&reply),
        Err(err) => Err(err),
    }
}

} // verus!
