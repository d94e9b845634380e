//! The event-stream hub: registry and fan-out point for all open
//! server-to-client streams of one stream namespace.
//!
//! Each open stream is a [`Connection`] with its own outbox, so one slow or
//! dead peer never stalls delivery to the others. The hub supports pushing
//! to one connection, to every connection, and to every connection of one
//! session. Delivery is fire-and-forget: pushing to a session with no
//! registered connection is a silent no-op, and pushing to a dead
//! connection is an expected, non-fatal error.

use vstd::prelude::*;
use vstd::std_specs::vec::vec_index_mut;
use crate::ids::SessionId;

verus! {

/// The receiving side of the connection was already dropped: the client
/// disconnected. A normal, expected condition, never propagated to the
/// sender of the triggering up-message.
#[derive(Clone, Copy, PartialEq, Eq, Debug, Structural)]
pub struct SendError;

/// One named text event pushed over a stream.
#[derive(Debug)]
pub struct Event {
    pub name: String,
    pub data: String,
}

impl Clone for Event {
    fn clone(&self) -> (r: Self)
        ensures
            r.name@ == self.name@,
            r.data@ == self.data@,
    {
        Event { name: self.name.clone(), data: self.data.clone() }
    }
}

/// `e` carries the given name and payload.
pub open spec fn event_is(e: Event, name: Seq<char>, data: Seq<char>) -> bool {
    e.name@ == name && e.data@ == data
}

/// One outbound, server-to-client event stream.
///
/// A connection with `session_id == None` is a broadcast-only channel; one
/// with `Some(id)` is a per-session message channel. `live` mirrors the
/// open/closed state of the underlying transport, and `outbox` is the
/// connection's own delivery channel: events pushed to this connection, in
/// order, not yet drained by the transport.
pub struct Connection {
    pub connection_id: u64,
    pub session_id: Option<SessionId>,
    pub live: bool,
    pub outbox: Vec<Event>,
}

/// `c` is a live per-session connection registered under `sid`.
pub open spec fn targeted(c: Connection, sid: SessionId) -> bool {
    c.live && c.session_id == Some(sid)
}

/// `b` is `a` untouched.
pub open spec fn same_connection(a: Connection, b: Connection) -> bool {
    &&& b.connection_id == a.connection_id
    &&& b.session_id == a.session_id
    &&& b.live == a.live
    &&& b.outbox@ == a.outbox@
}

/// `b` is `a` with exactly one more event, the given one, at the end of
/// its outbox.
pub open spec fn delivered(a: Connection, b: Connection, name: Seq<char>, data: Seq<char>) -> bool {
    &&& b.connection_id == a.connection_id
    &&& b.session_id == a.session_id
    &&& b.live == a.live
    &&& b.outbox@.len() == a.outbox@.len() + 1
    &&& (forall|k: int| 0 <= k < a.outbox@.len() ==> b.outbox@[k] == a.outbox@[k])
    &&& event_is(b.outbox@.last(), name, data)
}

/// The hub: owns every open connection of one stream namespace.
///
/// The session index (which connections serve a given session) is computed
/// from the registry by [`SSE::session_connection_ids`], so every indexed
/// entry refers to a registered connection by construction.
pub struct SSE {
    pub connections: Vec<Connection>,
    pub next_connection_id: u64,
}

/// The hub `pre` became `post` by registering one fresh connection `cid`
/// for `session_id`: all prior connections untouched, and the new one is
/// live with an empty outbox.
pub open spec fn new_connection_post(
    pre: SSE,
    post: SSE,
    session_id: Option<SessionId>,
    cid: u64,
) -> bool {
    &&& post.connections@.len() == pre.connections@.len() + 1
    &&& (forall|i: int|
        0 <= i < pre.connections@.len() ==> same_connection(
            #[trigger] pre.connections@[i],
            post.connections@[i],
        ))
    &&& (forall|i: int|
        0 <= i < pre.connections@.len() ==> (#[trigger] pre.connections@[i]).connection_id != cid)
    &&& post.connections@.last().connection_id == cid
    &&& post.connections@.last().session_id == session_id
    &&& post.connections@.last().live
    &&& post.connections@.last().outbox@.len() == 0
}

/// The hub `pre` became `post` by pushing one event to every live
/// connection of session `sid` and touching nothing else. With no live
/// connection registered under `sid`, `post` is `pre` unchanged: a silent
/// no-op, not an error.
pub open spec fn send_to_session_post(
    pre: SSE,
    post: SSE,
    sid: SessionId,
    name: Seq<char>,
    data: Seq<char>,
) -> bool {
    &&& post.connections@.len() == pre.connections@.len()
    &&& (forall|i: int|
        0 <= i < pre.connections@.len() && targeted(#[trigger] pre.connections@[i], sid)
            ==> delivered(pre.connections@[i], post.connections@[i], name, data))
    &&& (forall|i: int|
        0 <= i < pre.connections@.len() && !targeted(#[trigger] pre.connections@[i], sid)
            ==> same_connection(pre.connections@[i], post.connections@[i]))
    &&& post.next_connection_id == pre.next_connection_id
}

/// The hub `pre` became `post` by pushing one event to every live
/// connection regardless of session. Dead connections are untouched: a
/// failed push to one never prevents delivery to the rest.
pub open spec fn broadcast_post(pre: SSE, post: SSE, name: Seq<char>, data: Seq<char>) -> bool {
    &&& post.connections@.len() == pre.connections@.len()
    &&& (forall|i: int|
        0 <= i < pre.connections@.len() && (#[trigger] pre.connections@[i]).live
            ==> delivered(pre.connections@[i], post.connections@[i], name, data))
    &&& (forall|i: int|
        0 <= i < pre.connections@.len() && !(#[trigger] pre.connections@[i]).live
            ==> same_connection(pre.connections@[i], post.connections@[i]))
    &&& post.next_connection_id == pre.next_connection_id
}

impl SSE {
    /// Well-formed registry: connection ids are unique, and every id is
    /// below the next one to be handed out, so a fresh id never collides.
    pub open spec fn wf(self) -> bool {
        &&& (forall|i: int, j: int|
            0 <= i < j < self.connections@.len()
                ==> (#[trigger] self.connections@[i]).connection_id
                != (#[trigger] self.connections@[j]).connection_id)
        &&& (forall|i: int|
            0 <= i < self.connections@.len()
                ==> (#[trigger] self.connections@[i]).connection_id < self.next_connection_id)
    }

    /// The session index, computed from the registry: ids of the live
    /// connections registered under `sid`. Because it is derived rather
    /// than stored, every indexed entry refers to a registered connection
    /// by construction.
    pub open spec fn session_connection_ids(self, sid: SessionId) -> Set<u64> {
        Set::new(
            |cid: u64|
                exists|i: int|
                    0 <= i < self.connections@.len()
                        && (#[trigger] self.connections@[i]).connection_id == cid
                        && targeted(self.connections@[i], sid),
        )
    }

    /// A live connection with this id is registered.
    pub open spec fn has_live_connection(self, cid: u64) -> bool {
        exists|i: int|
            0 <= i < self.connections@.len()
                && (#[trigger] self.connections@[i]).connection_id == cid
                && self.connections@[i].live
    }

    /// An empty hub for one stream namespace.
    pub fn start() -> (r: SSE)
        ensures
            r.wf(),
            r.connections@.len() == 0,
            r.next_connection_id == 0,
    {
        SSE { connections: Vec::new(), next_connection_id: 0 }
    }

    /// Register one fresh connection, optionally scoped to a session, and
    /// return its id. Registering a second connection for the same session
    /// id is valid and does not evict the first.
    pub fn new_connection(&mut self, session_id: Option<SessionId>) -> (cid: u64)
        requires
            old(self).wf(),
            old(self).next_connection_id < u64::MAX,
        ensures
            final(self).wf(),
            final(self).next_connection_id == old(self).next_connection_id + 1,
            new_connection_post(*old(self), *final(self), session_id, cid),
    {
        let cid = self.next_connection_id;
        self.next_connection_id = self.next_connection_id + 1;
        self.connections.push(
            Connection { connection_id: cid, session_id, live: true, outbox: Vec::new() },
        );
        cid
    }

    /// Push one named event to one connection. Fails exactly when no live
    /// connection with this id is registered — the client disconnected or
    /// never connected — and in that case changes nothing.
    pub fn send(&mut self, connection_id: u64, event_name: &str, data: &str) -> (r: Result<
        (),
        SendError,
    >)
        requires
            old(self).wf(),
        ensures
            final(self).wf(),
            r is Ok <==> old(self).has_live_connection(connection_id),
            final(self).connections@.len() == old(self).connections@.len(),
            final(self).next_connection_id == old(self).next_connection_id,
            forall|i: int|
                0 <= i < old(self).connections@.len()
                    && ((#[trigger] old(self).connections@[i]).connection_id == connection_id
                    && old(self).connections@[i].live)
                    ==> delivered(
                    old(self).connections@[i],
                    final(self).connections@[i],
                    event_name@,
                    data@,
                ),
            forall|i: int|
                0 <= i < old(self).connections@.len()
                    && !((#[trigger] old(self).connections@[i]).connection_id == connection_id
                    && old(self).connections@[i].live)
                    ==> same_connection(old(self).connections@[i], final(self).connections@[i]),
    {
        let n = self.connections.len();
        let mut i: usize = 0;
        while i < n
            invariant
                old(self).wf(),
                n == self.connections@.len(),
                0 <= i <= n,
                self.connections@ == old(self).connections@,
                self.next_connection_id == old(self).next_connection_id,
                forall|j: int|
                    0 <= j < i
                        ==> !((#[trigger] self.connections@[j]).connection_id == connection_id
                        && self.connections@[j].live),
            decreases n - i,
        {
            let c = &self.connections[i];
            if c.live && c.connection_id == connection_id {
                proof {
                    assert(old(self).has_live_connection(connection_id)) by {
                        assert(old(self).connections@[i as int].connection_id == connection_id
                            && old(self).connections@[i as int].live);
                    }
                    assert forall|j: int|
                        0 <= j < old(self).connections@.len() && j != i as int implies (
                    #[trigger] old(self).connections@[j]).connection_id != connection_id by {
                        if j < i as int {
                            assert(old(self).connections@[j].connection_id
                                != old(self).connections@[i as int].connection_id);
                        } else {
                            assert(old(self).connections@[i as int].connection_id
                                != old(self).connections@[j].connection_id);
                        }
                    }
                }
                let target = vec_index_mut(&mut self.connections, i);
                target.outbox.push(
                    Event { name: String::from_str(event_name), data: String::from_str(data) },
                );
                proof {
                    assert(delivered(
                        old(self).connections@[i as int],
                        self.connections@[i as int],
                        event_name@,
                        data@,
                    ));
                    assert forall|k: int|
                        0 <= k < self.connections@.len() implies (
                    #[trigger] self.connections@[k]).connection_id
                        == old(self).connections@[k].connection_id by {
                        if k != i as int {
                            assert(self.connections@[k] == old(self).connections@[k]);
                        }
                    }
                }
                return Ok(());
            }
            i += 1;
        }
        Err(SendError)
    }

    /// Push one named event to every live connection, with and without a
    /// session id. Dead connections are skipped, so one dead peer never
    /// prevents delivery to the remaining live ones.
    pub fn broadcast(&mut self, event_name: &str, data: &str) -> (r: Result<(), SendError>)
        requires
            old(self).wf(),
        ensures
            final(self).wf(),
            r is Ok,
            broadcast_post(*old(self), *final(self), event_name@, data@),
    {
        let n = self.connections.len();
        let mut i: usize = 0;
        while i < n
            invariant
                n == self.connections@.len(),
                n == old(self).connections@.len(),
                0 <= i <= n,
                self.next_connection_id == old(self).next_connection_id,
                forall|j: int|
                    i <= j < n ==> #[trigger] self.connections@[j] == old(self).connections@[j],
                forall|j: int|
                    0 <= j < i && (#[trigger] old(self).connections@[j]).live ==> delivered(
                        old(self).connections@[j],
                        self.connections@[j],
                        event_name@,
                        data@,
                    ),
                forall|j: int|
                    0 <= j < i && !(#[trigger] old(self).connections@[j]).live ==> same_connection(
                        old(self).connections@[j],
                        self.connections@[j],
                    ),
            decreases n - i,
        {
            let live = self.connections[i].live;
            if live {
                let target = vec_index_mut(&mut self.connections, i);
                target.outbox.push(
                    Event { name: String::from_str(event_name), data: String::from_str(data) },
                );
            }
            i += 1;
        }
        proof {
            assert forall|k: int|
                0 <= k < self.connections@.len() implies (
            #[trigger] self.connections@[k]).connection_id
                == old(self).connections@[k].connection_id by {
                let a = old(self).connections@[k];
                if a.live {
                    assert(delivered(a, self.connections@[k], event_name@, data@));
                } else {
                    assert(same_connection(a, self.connections@[k]));
                }
            }
        }
        Ok(())
    }

    /// Push one named event to every live connection of one session.
    /// With no connection registered under `sid` this is a silent no-op:
    /// a slow or not-yet-connected client must not fail the sender.
    pub fn send_to_session(&mut self, sid: SessionId, event_name: &str, data: &str)
        requires
            old(self).wf(),
        ensures
            final(self).wf(),
            send_to_session_post(*old(self), *final(self), sid, event_name@, data@),
    {
        let n = self.connections.len();
        let mut i: usize = 0;
        while i < n
            invariant
                n == self.connections@.len(),
                n == old(self).connections@.len(),
                0 <= i <= n,
                self.next_connection_id == old(self).next_connection_id,
                forall|j: int|
                    i <= j < n ==> #[trigger] self.connections@[j] == old(self).connections@[j],
                forall|j: int|
                    0 <= j < i && targeted(#[trigger] old(self).connections@[j], sid) ==> delivered(
                        old(self).connections@[j],
                        self.connections@[j],
                        event_name@,
                        data@,
                    ),
                forall|j: int|
                    0 <= j < i && !targeted(#[trigger] old(self).connections@[j], sid)
                        ==> same_connection(old(self).connections@[j], self.connections@[j]),
            decreases n - i,
        {
            let c = &self.connections[i];
            let is_target = c.live && match &c.session_id {
                Some(s) => *s == sid,
                None => false,
            };
            if is_target {
                let target = vec_index_mut(&mut self.connections, i);
                target.outbox.push(
                    Event { name: String::from_str(event_name), data: String::from_str(data) },
                );
            }
            i += 1;
        }
        proof {
            assert forall|k: int|
                0 <= k < self.connections@.len() implies (
            #[trigger] self.connections@[k]).connection_id
                == old(self).connections@[k].connection_id by {
                let a = old(self).connections@[k];
                if targeted(a, sid) {
                    assert(delivered(a, self.connections@[k], event_name@, data@));
                } else {
                    assert(same_connection(a, self.connections@[k]));
                }
            }
        }
    }

    /// The underlying transport for this connection was torn down: mark
    /// the connection dead. Later pushes to it fail silently; closing an
    /// unknown id changes nothing.
    pub fn close_connection(&mut self, connection_id: u64)
        requires
            old(self).wf(),
        ensures
            final(self).wf(),
            final(self).connections@.len() == old(self).connections@.len(),
            final(self).next_connection_id == old(self).next_connection_id,
            forall|i: int|
                0 <= i < old(self).connections@.len()
                    && (#[trigger] old(self).connections@[i]).connection_id == connection_id ==> {
                    let a = old(self).connections@[i];
                    let b = final(self).connections@[i];
                    b.connection_id == a.connection_id && b.session_id == a.session_id && !b.live
                        && b.outbox@ == a.outbox@
                },
            forall|i: int|
                0 <= i < old(self).connections@.len()
                    && (#[trigger] old(self).connections@[i]).connection_id != connection_id
                    ==> same_connection(old(self).connections@[i], final(self).connections@[i]),
    {
        let n = self.connections.len();
        let mut i: usize = 0;
        while i < n
            invariant
                old(self).wf(),
                n == self.connections@.len(),
                0 <= i <= n,
                self.connections@ == old(self).connections@,
                self.next_connection_id == old(self).next_connection_id,
                forall|j: int|
                    0 <= j < i
                        ==> (#[trigger] self.connections@[j]).connection_id != connection_id,
            decreases n - i,
        {
            let c = &self.connections[i];
            if c.connection_id == connection_id {
                proof {
                    assert forall|j: int|
                        0 <= j < old(self).connections@.len() && j != i as int implies (
                    #[trigger] old(self).connections@[j]).connection_id != connection_id by {
                        if j < i as int {
                            assert(old(self).connections@[j].connection_id
                                != old(self).connections@[i as int].connection_id);
                        } else {
                            assert(old(self).connections@[i as int].connection_id
                                != old(self).connections@[j].connection_id);
                        }
                    }
                }
                let target = vec_index_mut(&mut self.connections, i);
                target.live = false;
                proof {
                    assert forall|k: int|
                        0 <= k < self.connections@.len() implies (
                    #[trigger] self.connections@[k]).connection_id
                        == old(self).connections@[k].connection_id by {
                        if k != i as int {
                            assert(self.connections@[k] == old(self).connections@[k]);
                        }
                    }
                }
                return ;
            }
            i += 1;
        }
    }
}

/// Within one connection, events are delivered in the order the calls
/// were issued: two broadcasts leave every live connection's outbox with
/// its old events untouched and the two new events behind them, first
/// sent first.
pub proof fn lemma_per_connection_order(
    s0: SSE,
    s1: SSE,
    s2: SSE,
    name1: Seq<char>,
    data1: Seq<char>,
    name2: Seq<char>,
    data2: Seq<char>,
)
    requires
        broadcast_post(s0, s1, name1, data1),
        broadcast_post(s1, s2, name2, data2),
    ensures
        forall|i: int|
            0 <= i < s0.connections@.len() && (#[trigger] s0.connections@[i]).live ==> {
                let a = s0.connections@[i];
                let c = s2.connections@[i];
                &&& c.outbox@.len() == a.outbox@.len() + 2
                &&& (forall|k: int| 0 <= k < a.outbox@.len() ==> c.outbox@[k] == a.outbox@[k])
                &&& event_is(c.outbox@[c.outbox@.len() - 2], name1, data1)
                &&& event_is(c.outbox@.last(), name2, data2)
            },
{
    assert forall|i: int|
        0 <= i < s0.connections@.len() && (#[trigger] s0.connections@[i]).live implies {
        let a = s0.connections@[i];
        let c = s2.connections@[i];
        &&& c.outbox@.len() == a.outbox@.len() + 2
        &&& (forall|k: int| 0 <= k < a.outbox@.len() ==> c.outbox@[k] == a.outbox@[k])
        &&& event_is(c.outbox@[c.outbox@.len() - 2], name1, data1)
        &&& event_is(c.outbox@.last(), name2, data2)
    } by {
        assert(delivered(s0.connections@[i], s1.connections@[i], name1, data1));
        assert(s1.connections@[i].live);
        assert(delivered(s1.connections@[i], s2.connections@[i], name2, data2));
    }
}

/// Opening two stream connections for one session and then pushing to that
/// session delivers the event on both streams: the second registration
/// does not evict the first, and fan-out reaches every registered stream.
pub proof fn lemma_session_fanout_two_streams(
    s0: SSE,
    s1: SSE,
    s2: SSE,
    s3: SSE,
    sid: SessionId,
    cid1: u64,
    cid2: u64,
    name: Seq<char>,
    data: Seq<char>,
)
    requires
        new_connection_post(s0, s1, Some(sid), cid1),
        new_connection_post(s1, s2, Some(sid), cid2),
        send_to_session_post(s2, s3, sid, name, data),
    ensures
        cid1 != cid2,
        s3.connections@.len() >= 2,
        s3.connections@[s3.connections@.len() - 2].connection_id == cid1,
        s3.connections@[s3.connections@.len() - 1].connection_id == cid2,
        event_is(s3.connections@[s3.connections@.len() - 2].outbox@.last(), name, data),
        event_is(s3.connections@[s3.connections@.len() - 1].outbox@.last(), name, data),
{
    let n1 = s1.connections@.len() as int;
    assert(s1.connections@[n1 - 1].connection_id == cid1);
    assert(same_connection(s1.connections@[n1 - 1], s2.connections@[n1 - 1]));
    assert(targeted(s2.connections@[n1 - 1], sid));
    assert(targeted(s2.connections@[n1], sid));
    assert(delivered(s2.connections@[n1 - 1], s3.connections@[n1 - 1], name, data));
    assert(delivered(s2.connections@[n1], s3.connections@[n1], name, data));
}

} // verus!
