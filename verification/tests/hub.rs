use moon::ids::SessionId;
use moon::sse::SSE;

fn outbox_names(hub: &SSE, index: usize) -> Vec<String> {
    hub.connections[index].outbox.iter().map(|e| e.name.clone()).collect()
}

#[test]
fn send_reaches_one_connection() {
    let mut hub = SSE::start();
    let a = hub.new_connection(None);
    let b = hub.new_connection(None);
    assert_ne!(a, b);
    assert!(hub.send(a, "ping", "1").is_ok());
    assert_eq!(hub.connections[0].outbox.len(), 1);
    assert_eq!(hub.connections[0].outbox[0].name, "ping");
    assert_eq!(hub.connections[0].outbox[0].data, "1");
    assert_eq!(hub.connections[1].outbox.len(), 0);
}

#[test]
fn send_to_unknown_connection_fails() {
    let mut hub = SSE::start();
    let a = hub.new_connection(None);
    assert!(hub.send(a + 1, "ping", "1").is_err());
    assert_eq!(hub.connections[0].outbox.len(), 0);
}

#[test]
fn send_to_closed_connection_fails() {
    let mut hub = SSE::start();
    let a = hub.new_connection(None);
    hub.close_connection(a);
    assert!(hub.send(a, "ping", "1").is_err());
    assert_eq!(hub.connections[0].outbox.len(), 0);
}

#[test]
fn send_to_session_hits_exactly_the_session() {
    let mut hub = SSE::start();
    let s1 = SessionId::new(1);
    let s2 = SessionId::new(2);
    hub.new_connection(Some(s1));
    hub.new_connection(Some(s2));
    hub.new_connection(None);
    hub.send_to_session(s1, "down", "payload");
    assert_eq!(hub.connections[0].outbox.len(), 1);
    assert_eq!(hub.connections[0].outbox[0].name, "down");
    assert_eq!(hub.connections[0].outbox[0].data, "payload");
    assert_eq!(hub.connections[1].outbox.len(), 0);
    assert_eq!(hub.connections[2].outbox.len(), 0);
}

#[test]
fn send_to_absent_session_is_silent_no_op() {
    let mut hub = SSE::start();
    hub.new_connection(Some(SessionId::new(1)));
    hub.new_connection(None);
    hub.send_to_session(SessionId::new(99), "down", "payload");
    for c in &hub.connections {
        assert_eq!(c.outbox.len(), 0);
    }
}

#[test]
fn broadcast_reaches_every_live_connection() {
    let mut hub = SSE::start();
    hub.new_connection(Some(SessionId::new(1)));
    hub.new_connection(None);
    let dead = hub.new_connection(Some(SessionId::new(2)));
    hub.close_connection(dead);
    assert!(hub.broadcast("reload", "").is_ok());
    assert_eq!(outbox_names(&hub, 0), vec!["reload"]);
    assert_eq!(outbox_names(&hub, 1), vec!["reload"]);
    // the dead connection is skipped, and its failure stops nobody
    assert_eq!(outbox_names(&hub, 2), Vec::<String>::new());
}

#[test]
fn two_streams_one_session_both_receive() {
    let mut hub = SSE::start();
    let sid = SessionId::new(7);
    let a = hub.new_connection(Some(sid));
    let b = hub.new_connection(Some(sid));
    assert_ne!(a, b);
    hub.send_to_session(sid, "down", "x");
    assert_eq!(hub.connections[0].outbox.len(), 1);
    assert_eq!(hub.connections[1].outbox.len(), 1);
    assert_eq!(hub.connections[0].outbox[0].data, "x");
    assert_eq!(hub.connections[1].outbox[0].data, "x");
}

#[test]
fn second_connection_does_not_evict_first() {
    let mut hub = SSE::start();
    let sid = SessionId::new(7);
    hub.new_connection(Some(sid));
    hub.new_connection(Some(sid));
    assert_eq!(hub.connections.len(), 2);
    assert!(hub.connections[0].live);
    assert!(hub.connections[1].live);
}

#[test]
fn events_keep_send_order_per_connection() {
    let mut hub = SSE::start();
    let sid = SessionId::new(3);
    let cid = hub.new_connection(Some(sid));
    hub.send(cid, "first", "1").unwrap();
    hub.send_to_session(sid, "second", "2");
    hub.broadcast("third", "3").unwrap();
    assert_eq!(outbox_names(&hub, 0), vec!["first", "second", "third"]);
}
