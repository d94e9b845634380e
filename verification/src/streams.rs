//! Opening the two kinds of event stream.
//!
//! A broadcast (reload/control) stream carries only process-wide events; a
//! per-session message stream is addressed by a session id carried in the
//! request path. Either way the server immediately emits one framing
//! event, named `backend_build_id`, carrying the process build id, before
//! any application event follows: the client uses it to detect a rebuilt
//! server.

use vstd::prelude::*;
use crate::actor::SessionActor;
use crate::ids::{SessionId, dec_digits, dec_value, u128_to_dec_string, valid_dec_u128};
use crate::sse::{SSE, event_is, same_connection};

verus! {

/// The name of the framing event sent when a stream opens.
pub fn backend_build_id_event_name() -> (r: &'static str)
    ensures
        r@ == "backend_build_id"@,
{
    "backend_build_id"
}

/// Register a broadcast-only stream and emit the framing event carrying
/// `backend_build_id`. Returns the new connection's id.
///
/// The push cannot fail: the connection was registered this instant and
/// is live by construction.
pub fn open_reload_stream(hub: &mut SSE, backend_build_id: u128) -> (cid: u64)
    requires
        old(hub).wf(),
        old(hub).next_connection_id < u64::MAX,
    ensures
        final(hub).wf(),
        final(hub).next_connection_id == old(hub).next_connection_id + 1,
        final(hub).connections@.len() == old(hub).connections@.len() + 1,
        forall|i: int|
            0 <= i < old(hub).connections@.len() ==> same_connection(
                #[trigger] old(hub).connections@[i],
                final(hub).connections@[i],
            ),
        final(hub).connections@.last().connection_id == cid,
        final(hub).connections@.last().session_id is None,
        final(hub).connections@.last().live,
        final(hub).connections@.last().outbox@.len() == 1,
        event_is(
            final(hub).connections@.last().outbox@[0],
            "backend_build_id"@,
            dec_digits(backend_build_id as nat),
        ),
        forall|i: int|
            0 <= i < old(hub).connections@.len()
                ==> (#[trigger] old(hub).connections@[i]).connection_id != cid,
{
    open_stream(hub, None, backend_build_id)
}

/// Read the session id from the path segment, register a per-session
/// stream for it, attach the session's delivery actor, and emit the
/// framing event carrying `backend_build_id`.
///
/// Returns `None`, changing nothing, exactly when the segment is not a
/// session id: the request is rejected as a client error.
pub fn open_message_stream(hub: &mut SSE, session_id_segment: &str, backend_build_id: u128) -> (r:
    Option<(u64, SessionActor)>)
    requires
        old(hub).wf(),
        old(hub).next_connection_id < u64::MAX,
    ensures
        final(hub).wf(),
        r is None <==> !valid_dec_u128(session_id_segment@),
        r is None ==> final(hub).connections@ == old(hub).connections@
            && final(hub).next_connection_id == old(hub).next_connection_id,
        r matches Some((cid, actor)) ==> {
            &&& actor.session_id.value == dec_value(session_id_segment@)
            &&& final(hub).next_connection_id == old(hub).next_connection_id + 1
            &&& final(hub).connections@.len() == old(hub).connections@.len() + 1
            &&& (forall|i: int|
                0 <= i < old(hub).connections@.len() ==> same_connection(
                    #[trigger] old(hub).connections@[i],
                    final(hub).connections@[i],
                ))
            &&& (forall|i: int|
                0 <= i < old(hub).connections@.len()
                    ==> (#[trigger] old(hub).connections@[i]).connection_id != cid)
            &&& final(hub).connections@.last().connection_id == cid
            &&& final(hub).connections@.last().session_id == Some(actor.session_id)
            &&& final(hub).connections@.last().live
            &&& final(hub).connections@.last().outbox@.len() == 1
            &&& event_is(
                final(hub).connections@.last().outbox@[0],
                "backend_build_id"@,
                dec_digits(backend_build_id as nat),
            )
        },
{
    let session_id = match SessionId::parse(session_id_segment) {
        Some(id) => id,
        None => {
            return None;
        },
    };
    let cid = open_stream(hub, Some(session_id), backend_build_id);
    let actor = SessionActor::create_or_get(session_id);
    Some((cid, actor))
}

/// Register one stream and emit its framing event.
fn open_stream(hub: &mut SSE, session_id: Option<SessionId>, backend_build_id: u128) -> (cid: u64)
    requires
        old(hub).wf(),
        old(hub).next_connection_id < u64::MAX,
    ensures
        final(hub).wf(),
        final(hub).next_connection_id == old(hub).next_connection_id + 1,
        final(hub).connections@.len() == old(hub).connections@.len() + 1,
        forall|i: int|
            0 <= i < old(hub).connections@.len() ==> same_connection(
                #[trigger] old(hub).connections@[i],
                final(hub).connections@[i],
            ),
        final(hub).connections@.last().connection_id == cid,
        final(hub).connections@.last().session_id == session_id,
        final(hub).connections@.last().live,
        final(hub).connections@.last().outbox@.len() == 1,
        event_is(
            final(hub).connections@.last().outbox@[0],
            "backend_build_id"@,
            dec_digits(backend_build_id as nat),
        ),
        forall|i: int|
            0 <= i < old(hub).connections@.len()
                ==> (#[trigger] old(hub).connections@[i]).connection_id != cid,
{
    let cid = hub.new_connection(session_id);
    let ghost mid = *hub;
    let build_id = u128_to_dec_string(backend_build_id);
    proof {
        let last = mid.connections@.len() - 1;
        assert(mid.has_live_connection(cid)) by {
            assert(mid.connections@[last].connection_id == cid && mid.connections@[last].live);
        }
    }
    let sent = hub.send(cid, backend_build_id_event_name(), build_id.as_str());
    proof {
        assert(sent is Ok);
        let last = mid.connections@.len() - 1;
        assert(crate::sse::delivered(
            mid.connections@[last],
            hub.connections@[last],
            "backend_build_id"@,
            dec_digits(backend_build_id as nat),
        ));
        assert forall|i: int|
            0 <= i < old(hub).connections@.len() implies same_connection(
            #[trigger] old(hub).connections@[i],
            hub.connections@[i],
        ) by {
            assert(same_connection(old(hub).connections@[i], mid.connections@[i]));
            assert(mid.connections@[i].connection_id != cid);
            assert(same_connection(mid.connections@[i], hub.connections@[i]));
        }
    }
    cid
}

} // verus!
