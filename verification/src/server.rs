//! Connection-pump logic of the RPC server: request decoding, reply
//! construction, and recovery of the correlation id from frames that
//! fail to decode.

use vstd::prelude::*;
use vstd::string::StringExecFns;
use crate::cbor::{dec_key, dec_map_head, dec_u64, spec_dec_head, spec_dec_key, spec_dec_u64,
    MAJOR_MAP};
use crate::codec_response::{encode_response, response_fits, spec_decode_response,
    spec_enc_response_envelope, lemma_response_roundtrip};
use crate::codec_request::spec_decode_request;
use crate::codec_basic::lemma_short_text_fits;
use crate::errors::{ErrorCode, PlanterError};
use crate::ids::ReqId;
use crate::protocol::{EnvelopeV, RequestV, Response, ResponseEnvelope, ResponseV};

verus! {

/// Maps an operation error onto the wire error response.
pub fn to_error_response(err: PlanterError) -> (r: Response)
    ensures
        r matches Response::Error { code, message, detail } && code == err.code && message@
            == err.message@ && detail.deep_view() == err.detail.deep_view(),
{
    Response::Error { code: err.code, message: err.message, detail: err.detail }
}

/// Correlation id found in the envelope prefix of a frame, when the
/// prefix parses.
pub open spec fn spec_extract_req_id(b: Seq<u8>) -> Option<u64> {
    match spec_dec_head(b) {
        Some((m, cnt, r0)) => {
            if m != MAJOR_MAP {
                None
            } else {
                match spec_dec_key(r0, "req_id"@) {
                    Some(r1) => {
                        match spec_dec_u64(r1) {
                            Some((id, r2)) => Some(id),
                            None => None,
                        }
                    },
                    None => None,
                }
            }
        },
        None => None,
    }
}

/// Extracts the request id from a frame whose envelope prefix is still
/// intact, used to address the error reply for a frame whose body fails
/// to decode.
pub fn extract_req_id(frame: &[u8]) -> (r: Option<ReqId>)
    ensures
        match r {
            Some(id) => spec_extract_req_id(frame@) == Some(id.0),
            None => spec_extract_req_id(frame@) is None,
        },
{
    proof {
        assert(frame@.skip(0) =~= frame@);
    }
    let Some((cnt, p0)) = dec_map_head(frame, 0) else { return None };
    let Some(p1) = dec_key(frame, p0, "req_id") else { return None };
    let Some((id, p2)) = dec_u64(frame, p1) else { return None };
    Some(ReqId(id))
}

/// Builds and encodes the reply envelope for a handled request.
pub fn encode_reply(req_id: ReqId, body: Response) -> (r: Vec<u8>)
    ensures
        r@ == spec_enc_response_envelope(EnvelopeV { req_id: req_id.0, body: body@ }),
{
    encode_response(&ResponseEnvelope { req_id, body })
}

/// Every reply a connection sends echoes its request's correlation id.
///
/// For any frame that decodes to a request envelope and any response
/// body the handler produces, the encoded reply envelope decodes to an
/// envelope whose `req_id` equals the request's.
pub proof fn lemma_reply_matches_request(frame: Seq<u8>, req: EnvelopeV<RequestV>, body: ResponseV)
    requires
        spec_decode_request(frame) == Some(req),
        response_fits(body),
    ensures
        spec_decode_response(
            spec_enc_response_envelope(EnvelopeV { req_id: req.req_id, body }),
        ) matches Some(env) && env.req_id == req.req_id,
{
    lemma_response_roundtrip(EnvelopeV { req_id: req.req_id, body });
}

/// Builds the best-effort error reply for a frame whose envelope failed
/// to decode: when the correlation id is still recoverable, an invalid
/// request error addressed to it; otherwise nothing, and the connection
/// just closes.
pub fn error_reply_for_bad_frame(frame: &[u8]) -> (r: Option<Vec<u8>>)
    ensures
        match r {
            Some(bytes) => spec_extract_req_id(frame@) matches Some(id)
                && (spec_decode_response(bytes@) matches Some(env) && env.req_id == id
                && env.body matches ResponseV::Error { code: ErrorCode::InvalidRequest, .. }),
            None => spec_extract_req_id(frame@) is None,
        },
{
    match extract_req_id(frame) {
        Some(req_id) => {
            let body = Response::Error {
                code: ErrorCode::InvalidRequest,
                message: String::from_str("failed to decode request envelope"),
                detail: None,
            };
            proof {
                reveal_strlit("failed to decode request envelope");
                assert("failed to decode request envelope"@.len() == 33);
                lemma_short_text_fits("failed to decode request envelope"@);
                lemma_response_roundtrip(EnvelopeV { req_id: req_id.0, body: body@ });
            }
            Some(encode_reply(req_id, body))
        },
        None => None,
    }
}

} // verus!
