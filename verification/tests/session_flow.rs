use sensocto::json::JsonValue;
use sensocto::models::PhoenixMessage;
use sensocto::session::{Dispatch, PhoenixSocket, REPLY_TIMEOUT_MS};
use sensocto::error::SensoctoError;

fn ok_reply_payload() -> JsonValue {
    JsonValue::Obj(vec![
        ("status".to_owned(), JsonValue::Str("ok".to_owned())),
        ("response".to_owned(), JsonValue::Obj(vec![])),
    ])
}

#[test]
fn send_requires_connection() {
    let mut s = PhoenixSocket::new();
    let r = s.prepare_send("room:1", "ping", JsonValue::Null);
    assert!(matches!(r, Err(SensoctoError::Disconnected)));
    let r = s.prepare_send_no_reply("room:1", "ping", JsonValue::Null);
    assert!(matches!(r, Err(SensoctoError::Disconnected)));
}

#[test]
fn references_are_fresh_and_sequential() {
    let mut s = PhoenixSocket::new();
    s.set_connected();
    let m1 = s.prepare_send("t", "a", JsonValue::Null).unwrap();
    let m2 = s.prepare_send("t", "a", JsonValue::Null).unwrap();
    assert_eq!(m1.msg_ref, Some(0));
    assert_eq!(m2.msg_ref, Some(1));
    assert_eq!(m1.topic, "t");
    assert_eq!(m1.event, "a");
}

#[test]
fn reply_resolves_pending_request_once() {
    let mut s = PhoenixSocket::new();
    s.set_connected();
    let m = s.prepare_send("room:1", "ping", JsonValue::Null).unwrap();
    let msg_ref = m.msg_ref.unwrap();

    let reply_frame = PhoenixMessage {
        topic: "room:1".to_owned(),
        event: "phx_reply".to_owned(),
        payload: ok_reply_payload(),
        msg_ref: Some(msg_ref),
    };
    match s.handle_inbound(&reply_frame) {
        Dispatch::Reply { msg_ref: r, reply } => {
            assert_eq!(r, msg_ref);
            let reply = reply.expect("well-formed reply payload");
            assert_eq!(reply.status, "ok");
        }
        _ => panic!("expected a reply dispatch"),
    }
    // The slot is gone: delivering the same reply again is a no-op.
    match s.handle_inbound(&reply_frame) {
        Dispatch::Ignore => {}
        _ => panic!("second delivery must be ignored"),
    }
}

#[test]
fn timeout_evicts_slot_and_late_reply_is_ignored() {
    let mut s = PhoenixSocket::new();
    s.set_connected();
    let m = s.prepare_send("room:1", "ping", JsonValue::Null).unwrap();
    let msg_ref = m.msg_ref.unwrap();

    let e = s.send_timeout(msg_ref);
    assert!(matches!(e, SensoctoError::Timeout(ms) if ms == REPLY_TIMEOUT_MS));
    assert_eq!(REPLY_TIMEOUT_MS, 10000);

    // Eviction is idempotent.
    let e = s.send_timeout(msg_ref);
    assert!(matches!(e, SensoctoError::Timeout(_)));

    let late = PhoenixMessage {
        topic: "room:1".to_owned(),
        event: "phx_reply".to_owned(),
        payload: ok_reply_payload(),
        msg_ref: Some(msg_ref),
    };
    match s.handle_inbound(&late) {
        Dispatch::Ignore => {}
        _ => panic!("late reply must be a no-op"),
    }
}

#[test]
fn reply_without_reference_is_ignored() {
    let mut s = PhoenixSocket::new();
    s.set_connected();
    let frame = PhoenixMessage {
        topic: "room:1".to_owned(),
        event: "phx_reply".to_owned(),
        payload: ok_reply_payload(),
        msg_ref: None,
    };
    assert!(matches!(s.handle_inbound(&frame), Dispatch::Ignore));
}

#[test]
fn handlers_fire_in_registration_order() {
    let mut s = PhoenixSocket::new();
    s.set_connected();
    let first = s.on("room:1", "news");
    let second = s.on("room:1", "news");
    let other = s.on("room:2", "news");

    let frame = PhoenixMessage {
        topic: "room:1".to_owned(),
        event: "news".to_owned(),
        payload: JsonValue::Null,
        msg_ref: None,
    };
    match s.handle_inbound(&frame) {
        Dispatch::Handlers { ids } => {
            assert_eq!(ids, vec![first, second]);
            assert!(!ids.contains(&other));
        }
        _ => panic!("expected handler dispatch"),
    }
}

#[test]
fn unmatched_event_dispatches_to_nobody() {
    let mut s = PhoenixSocket::new();
    s.set_connected();
    let frame = PhoenixMessage {
        topic: "room:9".to_owned(),
        event: "noise".to_owned(),
        payload: JsonValue::Null,
        msg_ref: None,
    };
    match s.handle_inbound(&frame) {
        Dispatch::Handlers { ids } => assert!(ids.is_empty()),
        _ => panic!("expected (empty) handler dispatch"),
    }
}

#[test]
fn heartbeat_frame_shape() {
    let mut s = PhoenixSocket::new();
    // Not connected: the heartbeat pump stops.
    assert!(s.heartbeat_frame().is_err());
    s.set_connected();
    let hb = s.heartbeat_frame().unwrap();
    assert_eq!(hb.topic, "phoenix");
    assert_eq!(hb.event, "heartbeat");
    assert!(hb.msg_ref.is_some());
    match &hb.payload {
        JsonValue::Obj(fields) => assert!(fields.is_empty()),
        _ => panic!("heartbeat payload must be an empty object"),
    }
}

#[test]
fn disconnect_drops_pending_slots() {
    let mut s = PhoenixSocket::new();
    s.set_connected();
    let m = s.prepare_send("t", "e", JsonValue::Null).unwrap();
    s.disconnect();
    assert!(!s.is_connected());
    let late = PhoenixMessage {
        topic: "t".to_owned(),
        event: "phx_reply".to_owned(),
        payload: ok_reply_payload(),
        msg_ref: m.msg_ref,
    };
    assert!(matches!(s.handle_inbound(&late), Dispatch::Ignore));
}

#[test]
fn malformed_reply_payload_yields_empty_reply() {
    let mut s = PhoenixSocket::new();
    s.set_connected();
    let m = s.prepare_send("t", "e", JsonValue::Null).unwrap();
    let frame = PhoenixMessage {
        topic: "t".to_owned(),
        event: "phx_reply".to_owned(),
        payload: JsonValue::Obj(vec![("nonsense".to_owned(), JsonValue::Null)]),
        msg_ref: m.msg_ref,
    };
    match s.handle_inbound(&frame) {
        Dispatch::Reply { reply, .. } => assert!(reply.is_none()),
        _ => panic!("expected a reply dispatch"),
    }
}
