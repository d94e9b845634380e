//! The per-session delivery actor: a stable, address-by-session handle for
//! pushing down-messages without knowing hub internals or connection ids.
//!
//! The actor is a lightweight handle that remembers only its session id;
//! delivery delegates to the hub's session fan-out. There is no retry and
//! no buffering: if no stream is attached to the session, the message is
//! lost by design, and the surrounding application re-fetches full state on
//! reconnect instead of relying on stream continuity.

use vstd::prelude::*;
use crate::ids::SessionId;
use crate::sse::{SSE, send_to_session_post};

verus! {

/// The address-by-session delivery handle. One logical actor exists per
/// active session id; constructing the handle twice for one session yields
/// interchangeable handles, so construction doubles as lookup.
#[derive(Clone, Copy, PartialEq, Eq, Structural)]
pub struct SessionActor {
    pub session_id: SessionId,
}

impl SessionActor {
    /// Return the actor for this session id, spinning up a new one if none
    /// existed. The actor owns no state beyond its session id, so the
    /// fresh and the existing handle cannot be told apart.
    pub fn create_or_get(session_id: SessionId) -> (r: SessionActor)
        ensures
            r.session_id == session_id,
    {
        SessionActor { session_id }
    }

    /// Push one named event to every stream of this actor's session.
    /// Fire-and-forget: with no stream attached the message is dropped
    /// silently, never an error.
    pub fn deliver(&self, hub: &mut SSE, event_name: &str, data: &str)
        requires
            old(hub).wf(),
        ensures
            final(hub).wf(),
            send_to_session_post(*old(hub), *final(hub), self.session_id, event_name@, data@),
    {
        hub.send_to_session(self.session_id, event_name, data);
    }
}

} // verus!
