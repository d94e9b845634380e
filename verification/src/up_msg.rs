//! Up-message ingestion: turn one inbound request into a validated
//! [`UpMsgRequest`] for the application handler.
//!
//! The body is accumulated chunk by chunk up to a configured byte budget,
//! so a hostile or buggy client cannot exhaust memory; the accumulated
//! bytes must parse as one JSON document; and the session id and
//! correlation id headers are each required and independently fallible,
//! while the auth token header is optional. Every failure is a client
//! error raised before dispatch, with no side effects.

use vstd::prelude::*;
use crate::ids::{AuthToken, CorId, SessionId, dec_value, valid_dec_u128};

verus! {

/// The payload of an up-message, as the application handler receives it.
#[verifier::external_type_specification]
#[verifier::external_body]
pub struct ExValue(serde_json::Value);

/// What `serde_json` reports when the body is not one JSON document.
#[verifier::external_type_specification]
#[verifier::external_body]
pub struct ExError(serde_json::Error);

/// Whether `serde_json::from_slice` accepts `bytes` as one JSON document:
/// well-formed and within the parser's nesting limit. A function of the
/// bytes alone.
pub uninterp spec fn json_ok(bytes: Seq<u8>) -> bool;

/// Relies on `serde_json::from_slice::<Value>`: `Value` is self-describing,
/// so whether parsing succeeds depends on the bytes alone — on their being
/// one well-formed JSON document within the parser's nesting limit.
#[verifier::external_body]
fn parse_json_value(bytes: &[u8]) -> (r: Result<serde_json::Value, serde_json::Error>)
    ensures
        r is Ok <==> json_ok(bytes@),
{
    serde_json::from_slice(bytes)
}

/// Default byte budget for one up-message body.
pub const MAX_UP_MSG_BYTES: usize = usize::MAX;

/// Why an inbound request was rejected before dispatch.
#[derive(Clone, Copy, PartialEq, Eq, Debug, Structural)]
pub enum UpMsgError {
    /// The body exceeds the configured byte budget.
    Overflow { limit: usize },
    /// The body is not one well-formed JSON document.
    Deserialize,
    /// The session id header is absent.
    MissingSessionId,
    /// The session id header is present but not a decimal id.
    InvalidSessionId,
    /// The correlation id header is absent.
    MissingCorId,
    /// The correlation id header is present but not a decimal id.
    InvalidCorId,
}

/// One validated inbound up-message: the parsed payload, the ids that
/// route and correlate it, and the optional bearer credential. Constructed
/// once per inbound request and consumed exactly once by the handler.
pub struct UpMsgRequest {
    pub up_msg: serde_json::Value,
    pub session_id: SessionId,
    pub cor_id: CorId,
    pub auth_token: Option<AuthToken>,
}

/// All body chunks of one request, in arrival order, as one byte string.
pub open spec fn whole_body(chunks: Seq<Vec<u8>>) -> Seq<u8>
    decreases chunks.len(),
{
    if chunks.len() == 0 {
        Seq::empty()
    } else {
        whole_body(chunks.drop_last()) + chunks.last()@
    }
}

/// A body prefix is never longer than the whole body.
proof fn lemma_whole_body_prefix_le(chunks: Seq<Vec<u8>>, k: int)
    requires
        0 <= k <= chunks.len(),
    ensures
        whole_body(chunks.take(k)).len() <= whole_body(chunks).len(),
    decreases chunks.len() - k,
{
    if k == chunks.len() {
        assert(chunks.take(k) =~= chunks);
    } else {
        let t = chunks.drop_last();
        assert(chunks.take(k) =~= t.take(k));
        lemma_whole_body_prefix_le(t, k);
    }
}

/// Accumulate the body chunks into the message payload, within the byte
/// budget `max_bytes`, and parse them as one JSON document.
///
/// Fails with `Overflow` exactly when the chunks together exceed the
/// budget — detected before full buffering completes, and regardless of
/// whether the body would have parsed — and with `Deserialize` exactly
/// when the bytes within budget are not one JSON document.
pub fn parse_up_msg(payload: &Vec<Vec<u8>>, max_bytes: usize) -> (r: Result<
    serde_json::Value,
    UpMsgError,
>)
    ensures
        whole_body(payload@).len() > max_bytes ==> r == Err::<serde_json::Value, UpMsgError>(
            UpMsgError::Overflow { limit: max_bytes },
        ),
        whole_body(payload@).len() <= max_bytes && !json_ok(whole_body(payload@)) ==> r
            == Err::<serde_json::Value, UpMsgError>(UpMsgError::Deserialize),
        whole_body(payload@).len() <= max_bytes && json_ok(whole_body(payload@)) ==> r is Ok,
{
    let n = payload.len();
    let mut body: Vec<u8> = Vec::new();
    let mut i: usize = 0;
    while i < n
        invariant
            n == payload@.len(),
            0 <= i <= n,
            body@ == whole_body(payload@.take(i as int)),
            body@.len() <= max_bytes,
        decreases n - i,
    {
        let chunk = &payload[i];
        if chunk.len() > max_bytes - body.len() {
            proof {
                let p = payload@.take(i + 1);
                assert(p.drop_last() =~= payload@.take(i as int));
                assert(whole_body(p).len() > max_bytes);
                lemma_whole_body_prefix_le(payload@, i + 1);
            }
            return Err(UpMsgError::Overflow { limit: max_bytes });
        }
        body.extend_from_slice(chunk.as_slice());
        proof {
            assert(payload@.take(i + 1).drop_last() =~= payload@.take(i as int));
        }
        i += 1;
    }
    proof {
        assert(payload@.take(n as int) =~= payload@);
    }
    match parse_json_value(body.as_slice()) {
        Ok(value) => Ok(value),
        Err(_) => Err(UpMsgError::Deserialize),
    }
}

/// Read the required session id header. Missing or unparsable means a
/// client error; the request must not be dispatched.
pub fn parse_session_id(header: Option<&str>) -> (r: Result<SessionId, UpMsgError>)
    ensures
        header is None ==> r == Err::<SessionId, UpMsgError>(UpMsgError::MissingSessionId),
        header matches Some(s) ==> if valid_dec_u128(s@) {
            r matches Ok(id) && id.value == dec_value(s@)
        } else {
            r == Err::<SessionId, UpMsgError>(UpMsgError::InvalidSessionId)
        },
{
    match header {
        None => Err(UpMsgError::MissingSessionId),
        Some(s) => match SessionId::parse(s) {
            Some(id) => Ok(id),
            None => Err(UpMsgError::InvalidSessionId),
        },
    }
}

/// Read the required correlation id header. Missing or unparsable means a
/// client error; the request must not be dispatched.
pub fn parse_cor_id(header: Option<&str>) -> (r: Result<CorId, UpMsgError>)
    ensures
        header is None ==> r == Err::<CorId, UpMsgError>(UpMsgError::MissingCorId),
        header matches Some(s) ==> if valid_dec_u128(s@) {
            r matches Ok(id) && id.value == dec_value(s@)
        } else {
            r == Err::<CorId, UpMsgError>(UpMsgError::InvalidCorId)
        },
{
    match header {
        None => Err(UpMsgError::MissingCorId),
        Some(s) => match CorId::parse(s) {
            Some(id) => Ok(id),
            None => Err(UpMsgError::InvalidCorId),
        },
    }
}

/// Read the optional auth token header: absent means unauthenticated, not
/// an error.
pub fn parse_auth_token(header: Option<&str>) -> (r: Option<AuthToken>)
    ensures
        header is None ==> r is None,
        header matches Some(s) ==> r matches Some(t) && t.token@ == s@,
{
    match header {
        None => None,
        Some(s) => Some(AuthToken::new(s)),
    }
}

/// Turn one inbound request — its body chunks and its three logical
/// headers — into a validated [`UpMsgRequest`], or the client error that
/// rejects it before dispatch.
///
/// Checks run in a fixed order: byte budget, body parse, session id,
/// correlation id, auth token; the first failure decides the error. On
/// success the request carries exactly the ids the headers denote.
pub fn ingest_up_msg(
    payload: &Vec<Vec<u8>>,
    max_bytes: usize,
    session_id_header: Option<&str>,
    cor_id_header: Option<&str>,
    auth_token_header: Option<&str>,
) -> (r: Result<UpMsgRequest, UpMsgError>)
    ensures
        whole_body(payload@).len() > max_bytes ==> (r matches Err(e) && e == (UpMsgError::Overflow {
            limit: max_bytes,
        })),
        whole_body(payload@).len() <= max_bytes && !json_ok(whole_body(payload@)) ==> (r
            matches Err(e) && e == UpMsgError::Deserialize),
        whole_body(payload@).len() <= max_bytes && json_ok(whole_body(payload@)) ==> {
            &&& (session_id_header is None ==> (r matches Err(e) && e
                == UpMsgError::MissingSessionId))
            &&& (session_id_header matches Some(s) ==> if !valid_dec_u128(s@) {
                r matches Err(e) && e == UpMsgError::InvalidSessionId
            } else {
                &&& (cor_id_header is None ==> (r matches Err(e) && e == UpMsgError::MissingCorId))
                &&& (cor_id_header matches Some(c) ==> if !valid_dec_u128(c@) {
                    r matches Err(e) && e == UpMsgError::InvalidCorId
                } else {
                    r matches Ok(req) && {
                        &&& req.session_id.value == dec_value(s@)
                        &&& req.cor_id.value == dec_value(c@)
                        &&& (auth_token_header is None ==> req.auth_token is None)
                        &&& (auth_token_header matches Some(t) ==> (req.auth_token matches Some(a)
                            && a.token@ == t@))
                    }
                })
            })
        },
{
    let up_msg = match parse_up_msg(payload, max_bytes) {
        Ok(value) => value,
        Err(e) => {
            return Err(e);
        },
    };
    let session_id = match parse_session_id(session_id_header) {
        Ok(id) => id,
        Err(e) => {
            return Err(e);
        },
    };
    let cor_id = match parse_cor_id(cor_id_header) {
        Ok(id) => id,
        Err(e) => {
            return Err(e);
        },
    };
    let auth_token = parse_auth_token(auth_token_header);
    Ok(UpMsgRequest { up_msg, session_id, cor_id, auth_token })
}

} // verus!
