use sensocto::call::{ice_servers_of_response, parse_participants, CallSession};
use sensocto::channel::PhoenixChannel;
use sensocto::error::SensoctoError;
use sensocto::json::JsonValue;
use sensocto::models::{CallEvent, PhoenixReply};

fn joined_channel(topic: &str) -> PhoenixChannel {
    let mut ch = PhoenixChannel::new(topic.to_owned(), JsonValue::Obj(vec![]));
    let _ = ch.join_request();
    ch.join_reply(PhoenixReply { status: "ok".to_owned(), response: JsonValue::Null }).unwrap();
    ch
}

fn ice_array() -> Vec<JsonValue> {
    vec![
        JsonValue::Obj(vec![(
            "urls".to_owned(),
            JsonValue::Str("stun:stun.example.com:3478".to_owned()),
        )]),
        JsonValue::Obj(vec![(
            "urls".to_owned(),
            JsonValue::Str("turn:turn.example.com:3478".to_owned()),
        )]),
    ]
}

fn session_in_call(topic: &str) -> CallSession {
    let mut s = CallSession::new(
        joined_channel(topic),
        "room-7".to_owned(),
        "user-1".to_owned(),
        Vec::new(),
    );
    let _ = s.join_call_apply(JsonValue::Obj(vec![]));
    s
}

#[test]
fn join_round_trip_preserves_ice_servers() {
    // The server's join reply carries the ICE servers; the session built from
    // it reports exactly that array.
    let mut ch = PhoenixChannel::new("call:room-7".to_owned(), JsonValue::Obj(vec![]));
    let _ = ch.join_request();
    let reply = PhoenixReply {
        status: "ok".to_owned(),
        response: JsonValue::Obj(vec![("ice_servers".to_owned(), JsonValue::Arr(ice_array()))]),
    };
    let response = ch.join_reply(reply).unwrap();
    let servers = ice_servers_of_response(&response);
    assert_eq!(servers.len(), 2);
    let session = CallSession::new(ch, "room-7".to_owned(), "user-1".to_owned(), servers);
    let got = session.ice_servers();
    assert_eq!(got.len(), 2);
    assert!(matches!(got[0].get("urls"),
        Some(JsonValue::Str(u)) if u == "stun:stun.example.com:3478"));
    assert!(matches!(got[1].get("urls"),
        Some(JsonValue::Str(u)) if u == "turn:turn.example.com:3478"));
}

#[test]
fn missing_or_malformed_ice_servers_yield_empty() {
    let none = JsonValue::Obj(vec![]);
    assert!(ice_servers_of_response(&none).is_empty());
    let not_an_array = JsonValue::Obj(vec![(
        "ice_servers".to_owned(),
        JsonValue::Str("nope".to_owned()),
    )]);
    assert!(ice_servers_of_response(&not_an_array).is_empty());
}

#[test]
fn control_operations_require_in_call_state() {
    let mut s = CallSession::new(
        joined_channel("call:room-7"),
        "room-7".to_owned(),
        "user-1".to_owned(),
        Vec::new(),
    );
    assert!(!s.in_call());
    assert!(matches!(s.toggle_audio(true), Err(SensoctoError::Other(m)) if m == "Not in call"));
    assert!(matches!(s.toggle_video(true), Err(SensoctoError::Other(m)) if m == "Not in call"));
    assert!(matches!(s.set_quality("high"), Err(SensoctoError::Other(m)) if m == "Not in call"));
    assert!(matches!(s.send_media_event(JsonValue::Null),
        Err(SensoctoError::Other(m)) if m == "Not in call"));
    assert!(matches!(s.get_participants_request(),
        Err(SensoctoError::Other(m)) if m == "Not in call"));
    assert!(s.outbox.is_empty(), "refused operations produce no wire traffic");
}

#[test]
fn control_operations_succeed_after_join_call() {
    let mut s = session_in_call("call:room-7");
    assert!(s.in_call());

    s.toggle_audio(true).unwrap();
    s.toggle_video(false).unwrap();
    s.set_quality("high").unwrap();
    s.send_media_event(JsonValue::Str("offer".to_owned())).unwrap();
    assert_eq!(s.outbox.len(), 4);

    assert_eq!(s.outbox[0].event, "toggle_audio");
    assert!(matches!(s.outbox[0].payload.get("enabled"), Some(JsonValue::Bool(true))));
    assert!(s.outbox[0].wants_reply);

    assert_eq!(s.outbox[1].event, "toggle_video");
    assert!(matches!(s.outbox[1].payload.get("enabled"), Some(JsonValue::Bool(false))));

    assert_eq!(s.outbox[2].event, "set_quality");
    assert!(matches!(s.outbox[2].payload.get("quality"),
        Some(JsonValue::Str(q)) if q == "high"));

    assert_eq!(s.outbox[3].event, "media_event");
    assert!(matches!(s.outbox[3].payload.get("data"),
        Some(JsonValue::Str(d)) if d == "offer"));
    assert!(!s.outbox[3].wants_reply);
}

#[test]
fn join_call_captures_endpoint_id() {
    let mut s = CallSession::new(
        joined_channel("call:room-7"),
        "room-7".to_owned(),
        "user-1".to_owned(),
        Vec::new(),
    );
    let req = s.join_call_request().unwrap();
    assert_eq!(req.event, "join_call");
    let response = JsonValue::Obj(vec![(
        "endpoint_id".to_owned(),
        JsonValue::Str("ep-42".to_owned()),
    )]);
    let _ = s.join_call_apply(response);
    assert!(s.in_call());
    assert_eq!(s.endpoint_id().as_deref(), Some("ep-42"));
}

#[test]
fn leave_call_clears_state() {
    let mut s = session_in_call("call:room-7");
    let req = s.leave_call_request().unwrap().expect("in-call leave pushes");
    assert_eq!(req.event, "leave_call");
    s.leave_call_finish();
    assert!(!s.in_call());
    assert!(s.endpoint_id().is_none());
    // A second leave is a no-op.
    assert!(s.leave_call_request().unwrap().is_none());
}

#[test]
fn handle_event_translates_the_seven_wire_events() {
    let s = session_in_call("call:room-7");

    let joined = JsonValue::Obj(vec![
        ("user_id".to_owned(), JsonValue::Str("u2".to_owned())),
        ("endpoint_id".to_owned(), JsonValue::Str("ep2".to_owned())),
        ("audio_enabled".to_owned(), JsonValue::Bool(true)),
    ]);
    match s.handle_event("participant_joined", &joined) {
        Some(CallEvent::ParticipantJoined(p)) => {
            assert_eq!(p.user_id, "u2");
            assert_eq!(p.endpoint_id, "ep2");
            assert!(p.audio_enabled);
            assert!(!p.video_enabled);
            assert!(p.joined_at.is_none());
        }
        _ => panic!("expected ParticipantJoined"),
    }

    let left = JsonValue::Obj(vec![
        ("user_id".to_owned(), JsonValue::Str("u2".to_owned())),
        ("crashed".to_owned(), JsonValue::Bool(true)),
    ]);
    assert!(matches!(s.handle_event("participant_left", &left),
        Some(CallEvent::ParticipantLeft { user_id, crashed })
            if user_id == "u2" && crashed));

    let media = JsonValue::Obj(vec![("data".to_owned(), JsonValue::Str("sdp".to_owned()))]);
    assert!(matches!(s.handle_event("media_event", &media),
        Some(CallEvent::MediaEvent(JsonValue::Str(d))) if d == "sdp"));

    let audio = JsonValue::Obj(vec![
        ("user_id".to_owned(), JsonValue::Str("u3".to_owned())),
        ("audio_enabled".to_owned(), JsonValue::Bool(true)),
    ]);
    assert!(matches!(s.handle_event("participant_audio_changed", &audio),
        Some(CallEvent::ParticipantAudioChanged { user_id, enabled })
            if user_id == "u3" && enabled));

    let video = JsonValue::Obj(vec![
        ("user_id".to_owned(), JsonValue::Str("u3".to_owned())),
        ("video_enabled".to_owned(), JsonValue::Bool(false)),
    ]);
    assert!(matches!(s.handle_event("participant_video_changed", &video),
        Some(CallEvent::ParticipantVideoChanged { user_id, enabled })
            if user_id == "u3" && !enabled));

    let quality = JsonValue::Obj(vec![(
        "quality".to_owned(),
        JsonValue::Str("low".to_owned()),
    )]);
    assert!(matches!(s.handle_event("quality_changed", &quality),
        Some(CallEvent::QualityChanged(q)) if q == "low"));

    assert!(matches!(s.handle_event("call_ended", &JsonValue::Null),
        Some(CallEvent::CallEnded)));
}

#[test]
fn handle_event_decodes_defensively_and_drops_unknown() {
    let s = session_in_call("call:room-7");

    // Missing fields fall back to empty string / false.
    let empty = JsonValue::Obj(vec![]);
    assert!(matches!(s.handle_event("participant_left", &empty),
        Some(CallEvent::ParticipantLeft { user_id, crashed })
            if user_id.is_empty() && !crashed));

    // A malformed participant payload is dropped, not an error.
    assert!(s.handle_event("participant_joined", &empty).is_none());
    // A media event without data is dropped.
    assert!(s.handle_event("media_event", &empty).is_none());
    // Quality without a string is dropped.
    assert!(s.handle_event("quality_changed", &empty).is_none());
    // Unrecognized events are silently dropped.
    assert!(s.handle_event("unheard_of", &empty).is_none());
}

#[test]
fn participants_map_decodes_or_falls_back_to_empty() {
    let response = JsonValue::Obj(vec![(
        "participants".to_owned(),
        JsonValue::Obj(vec![
            (
                "u1".to_owned(),
                JsonValue::Obj(vec![
                    ("user_id".to_owned(), JsonValue::Str("u1".to_owned())),
                    ("endpoint_id".to_owned(), JsonValue::Str("ep1".to_owned())),
                    ("video_enabled".to_owned(), JsonValue::Bool(true)),
                ]),
            ),
            (
                "u2".to_owned(),
                JsonValue::Obj(vec![
                    ("user_id".to_owned(), JsonValue::Str("u2".to_owned())),
                    ("endpoint_id".to_owned(), JsonValue::Str("ep2".to_owned())),
                    ("joined_at".to_owned(), JsonValue::Str("2024-01-01T00:00:00Z".to_owned())),
                ]),
            ),
        ]),
    )]);
    let parts = parse_participants(&response);
    assert_eq!(parts.len(), 2);
    assert_eq!(parts[0].0, "u1");
    assert_eq!(parts[0].1.endpoint_id, "ep1");
    assert!(parts[0].1.video_enabled);
    assert_eq!(parts[1].0, "u2");
    assert_eq!(parts[1].1.joined_at.as_deref(), Some("2024-01-01T00:00:00Z"));

    // One malformed entry empties the whole decode, as does a missing map.
    let malformed = JsonValue::Obj(vec![(
        "participants".to_owned(),
        JsonValue::Obj(vec![("u1".to_owned(), JsonValue::Obj(vec![]))]),
    )]);
    assert!(parse_participants(&malformed).is_empty());
    assert!(parse_participants(&JsonValue::Obj(vec![])).is_empty());
}
