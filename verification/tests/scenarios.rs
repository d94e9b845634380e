use moon::actor::SessionActor;
use moon::ids::SessionId;
use moon::sse::SSE;
use moon::streams::{open_message_stream, open_reload_stream};
use moon::up_msg::{MAX_UP_MSG_BYTES, ingest_up_msg};

/// A client opens a session stream, receives the framing event, posts an
/// up-message, and the handler's down-message arrives on that stream and
/// no other.
#[test]
fn session_round_trip_delivers_to_the_right_stream() {
    let mut hub = SSE::start();
    let build_id: u128 = 4242;

    // another session's stream, open the whole time
    let (_other_cid, _other) = open_message_stream(&mut hub, "99", build_id).unwrap();

    // client opens a stream for session "1"
    let (cid, _actor) = open_message_stream(&mut hub, "1", build_id).unwrap();
    let s1 = &hub.connections[1];
    assert_eq!(s1.connection_id, cid);
    // the server immediately emitted the framing event with the build id
    assert_eq!(s1.outbox.len(), 1);
    assert_eq!(s1.outbox[0].name, "backend_build_id");
    assert_eq!(s1.outbox[0].data, "4242");

    // client posts an up-message for session "1" with cor id "31"
    let body: Vec<Vec<u8>> = vec![br#"{"question":"2+2?"}"#.to_vec()];
    let request = ingest_up_msg(&body, MAX_UP_MSG_BYTES, Some("1"), Some("31"), None).unwrap();
    assert_eq!(request.session_id.value, 1);
    assert_eq!(request.cor_id.value, 31);

    // the handler computes a result and delivers it by session
    let actor = SessionActor::create_or_get(request.session_id);
    actor.deliver(&mut hub, "down", "4");

    // the open stream for session "1" received it...
    assert_eq!(hub.connections[1].outbox.len(), 2);
    assert_eq!(hub.connections[1].outbox[1].name, "down");
    assert_eq!(hub.connections[1].outbox[1].data, "4");
    // ...and no stream of any other session did
    assert_eq!(hub.connections[0].outbox.len(), 1);
}

/// A client posts an up-message for a session with no open stream: the
/// post itself succeeds, and the down-message is silently lost.
#[test]
fn up_msg_without_stream_succeeds_and_down_msg_is_lost() {
    let mut hub = SSE::start();
    let (_cid, _actor) = open_message_stream(&mut hub, "1", 7).unwrap();

    // no stream is open for session "2", yet the post is acknowledged
    let body: Vec<Vec<u8>> = vec![b"{}".to_vec()];
    let request = ingest_up_msg(&body, MAX_UP_MSG_BYTES, Some("2"), Some("1"), None).unwrap();
    assert_eq!(request.session_id.value, 2);

    // the handler's delivery is a silent no-op
    let actor = SessionActor::create_or_get(request.session_id);
    actor.deliver(&mut hub, "down", "result");

    // no event is ever observed by any client for that message
    for c in &hub.connections {
        assert_eq!(c.outbox.len(), 1, "only the framing event of session 1's stream");
        assert_eq!(c.outbox[0].name, "backend_build_id");
    }
}

#[test]
fn reload_stream_gets_framing_then_broadcasts() {
    let mut hub = SSE::start();
    let cid = open_reload_stream(&mut hub, 1);
    assert_eq!(hub.connections[0].connection_id, cid);
    assert_eq!(hub.connections[0].session_id, None);
    assert_eq!(hub.connections[0].outbox[0].name, "backend_build_id");
    assert_eq!(hub.connections[0].outbox[0].data, "1");
    hub.broadcast("reload", "").unwrap();
    assert_eq!(hub.connections[0].outbox.len(), 2);
    assert_eq!(hub.connections[0].outbox[1].name, "reload");
}

#[test]
fn message_stream_rejects_bad_session_segment() {
    let mut hub = SSE::start();
    assert!(open_message_stream(&mut hub, "no-id", 1).is_none());
    assert!(hub.connections.is_empty());
    let opened = open_message_stream(&mut hub, "8", 1);
    let (_cid, actor) = opened.unwrap();
    assert_eq!(actor.session_id, SessionId::new(8));
}
