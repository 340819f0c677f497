use collab_server::hub::Hub;
use collab_server::models::{Outbound, WsMessage};
use collab_server::websocket::{dispatch, CloseReason, Inbound, Lifecycle, MyWebSocket, Reaction};

fn active(id: u128) -> MyWebSocket {
    let mut ws = MyWebSocket::new(id);
    ws.started();
    ws
}

fn join(doc: u128, user: &str) -> Inbound {
    Inbound::Text(WsMessage::Join { document_id: doc, user_id: user.to_string() })
}

fn delivery(r: Reaction) -> (Vec<u128>, Outbound) {
    match r {
        Reaction::Deliver(d) => {
            let mut rs = d.recipients;
            rs.sort();
            (rs, d.payload)
        }
        other => panic!("expected a delivery, got {:?}", other),
    }
}

#[test]
fn new_connection_is_connecting_until_started() {
    let mut ws = MyWebSocket::new(7);
    assert_eq!(ws.state, Lifecycle::Connecting);
    ws.started();
    assert_eq!(ws.state, Lifecycle::Active);
    assert_eq!(ws.document_id, None);
    assert_eq!(ws.user_id, None);
}

#[test]
fn open_gives_distinct_identities() {
    let a = MyWebSocket::open();
    let b = MyWebSocket::open();
    assert_ne!(a.id, b.id);
    assert_eq!(a.state, Lifecycle::Connecting);
}

#[test]
fn frames_before_upgrade_are_ignored() {
    let mut hub = Hub::new();
    let mut ws = MyWebSocket::new(1);
    assert_eq!(ws.handle(&mut hub, join(10, "u")), Reaction::Ignore);
    assert_eq!(hub.document_of(1), None);
}

#[test]
fn join_notifies_other_subscribers() {
    let mut hub = Hub::new();
    let mut a = active(1);
    let mut b = active(2);
    let (rs, _) = delivery(a.handle(&mut hub, join(10, "alice")));
    assert!(rs.is_empty());
    let (rs, payload) = delivery(b.handle(&mut hub, join(10, "bob")));
    assert_eq!(rs, vec![1]);
    assert_eq!(payload, Outbound::UserJoined { user_id: "bob".to_string() });
    assert_eq!(b.document_id, Some(10));
    assert_eq!(b.user_id, Some("bob".to_string()));
}

#[test]
fn leave_unsubscribes_and_notifies() {
    let mut hub = Hub::new();
    let mut a = active(1);
    let mut b = active(2);
    a.handle(&mut hub, join(10, "alice"));
    b.handle(&mut hub, join(10, "bob"));
    let leave = Inbound::Text(WsMessage::Leave { document_id: 10, user_id: "bob".to_string() });
    let (rs, payload) = delivery(b.handle(&mut hub, leave));
    assert_eq!(rs, vec![1]);
    assert_eq!(payload, Outbound::UserLeft { user_id: "bob".to_string() });
    assert_eq!(hub.document_of(2), None);
    assert_eq!(b.document_id, None);
    let op = Inbound::Text(WsMessage::Operation { document_id: 10, operation: "{}".to_string() });
    let (rs, _) = delivery(a.handle(&mut hub, op));
    assert!(rs.is_empty());
}

#[test]
fn cursor_move_relays_user_and_position() {
    let mut hub = Hub::new();
    let mut a = active(1);
    let mut b = active(2);
    a.handle(&mut hub, join(10, "alice"));
    b.handle(&mut hub, join(10, "bob"));
    let mv = Inbound::Text(WsMessage::CursorMove {
        document_id: 10,
        user_id: "alice".to_string(),
        position: "{\"line\":3}".to_string(),
    });
    let (rs, payload) = delivery(a.handle(&mut hub, mv));
    assert_eq!(rs, vec![2]);
    assert_eq!(
        payload,
        Outbound::CursorMove { user_id: "alice".to_string(), position: "{\"line\":3}".to_string() }
    );
}

#[test]
fn operation_goes_to_every_other_subscriber_only() {
    let mut hub = Hub::new();
    let mut ws: Vec<MyWebSocket> = (1..=4).map(active).collect();
    for w in ws.iter_mut().take(3) {
        w.handle(&mut hub, join(10, "u"));
    }
    ws[3].handle(&mut hub, join(20, "v"));
    let op = Inbound::Text(WsMessage::Operation { document_id: 10, operation: "[1]".to_string() });
    let (rs, payload) = delivery(ws[1].handle(&mut hub, op));
    assert_eq!(rs, vec![1, 3]);
    assert_eq!(payload, Outbound::Operation { operation: "[1]".to_string() });
}

#[test]
fn operation_without_join_reaches_nobody() {
    let mut hub = Hub::new();
    let d = dispatch(&mut hub, 5, WsMessage::Operation { document_id: 10, operation: "1".to_string() });
    assert!(d.recipients.is_empty());
    assert_eq!(hub.document_of(5), None);
}

#[test]
fn malformed_frame_keeps_connection_active() {
    let mut hub = Hub::new();
    let mut a = active(1);
    let mut b = active(2);
    b.handle(&mut hub, join(10, "bob"));
    assert_eq!(a.handle(&mut hub, Inbound::Malformed), Reaction::Ignore);
    assert_eq!(a.state, Lifecycle::Active);
    let (rs, payload) = delivery(a.handle(&mut hub, join(10, "alice")));
    assert_eq!(rs, vec![2]);
    assert_eq!(payload, Outbound::UserJoined { user_id: "alice".to_string() });
    assert_eq!(hub.document_of(1), Some(10));
}

#[test]
fn ping_is_answered_with_same_payload() {
    let mut hub = Hub::new();
    let mut a = active(1);
    assert_eq!(a.handle(&mut hub, Inbound::Ping(vec![1, 2, 3])), Reaction::Pong(vec![1, 2, 3]));
    assert_eq!(a.state, Lifecycle::Active);
}

#[test]
fn close_is_echoed_and_connection_closes() {
    let mut hub = Hub::new();
    let mut a = active(1);
    a.handle(&mut hub, join(10, "alice"));
    let reason = Some(CloseReason { code: 1000, description: Some("bye".to_string()) });
    assert_eq!(a.handle(&mut hub, Inbound::Close(reason.clone())), Reaction::Close(reason));
    assert_eq!(a.state, Lifecycle::Closing);
    a.stopped(&mut hub);
    assert_eq!(a.state, Lifecycle::Closed);
    assert_eq!(hub.document_of(1), None);
    assert_eq!(a.handle(&mut hub, join(10, "alice")), Reaction::Ignore);
    assert_eq!(hub.document_of(1), None);
}

#[test]
fn disconnect_stops_further_deliveries() {
    let mut hub = Hub::new();
    let mut a = active(1);
    let mut b = active(2);
    let mut c = active(3);
    a.handle(&mut hub, join(10, "a"));
    b.handle(&mut hub, join(10, "b"));
    c.handle(&mut hub, join(10, "c"));
    b.stopped(&mut hub);
    let op = Inbound::Text(WsMessage::Operation { document_id: 10, operation: "x".to_string() });
    let (rs, _) = delivery(a.handle(&mut hub, op));
    assert_eq!(rs, vec![3]);
}

#[test]
fn broadcast_to_document_excludes_self() {
    let mut hub = Hub::new();
    let mut a = active(1);
    let mut b = active(2);
    a.handle(&mut hub, join(10, "a"));
    b.handle(&mut hub, join(10, "b"));
    let d = a.broadcast_to_document(&hub, 10, Outbound::UserLeft { user_id: "a".to_string() });
    assert_eq!(d.recipients, vec![2]);
}

#[test]
fn end_to_end_operation_reaches_only_the_other_session() {
    let mut hub = Hub::new();
    let doc1 = collab_server::handlers::new_document(collab_server::models::CreateDocumentRequest {
        title: "doc1".to_string(),
        content: None,
    });
    let mut a = active(1);
    let mut b = active(2);
    a.handle(&mut hub, join(doc1.id, "A"));
    b.handle(&mut hub, join(doc1.id, "B"));
    let op = Inbound::Text(WsMessage::Operation {
        document_id: doc1.id,
        operation: "{\"insert\":\"hi\"}".to_string(),
    });
    let (rs, payload) = delivery(a.handle(&mut hub, op));
    assert_eq!(rs, vec![2]);
    assert_eq!(payload, Outbound::Operation { operation: "{\"insert\":\"hi\"}".to_string() });
    assert!(!rs.contains(&1));
}
