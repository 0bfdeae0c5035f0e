use sensocto::client::{MonitorDecision, RetryDecision, SensoctoClient};
use sensocto::client::{call_topic, connector_topic, sensor_topic};
use sensocto::config::{SensoctoConfig, SensorConfig};
use sensocto::error::SensoctoError;
use sensocto::json::JsonValue;
use sensocto::models::{ConnectionEvent, ConnectionState};

fn config(max_attempts: u32) -> SensoctoConfig {
    SensoctoConfig::builder()
        .server_url("http://localhost:4000".to_owned())
        .connector_id("conn-1".to_owned())
        .connector_name("Test".to_owned())
        .max_reconnect_attempts(max_attempts)
        .build()
        .unwrap()
}

fn connected_client(max_attempts: u32) -> SensoctoClient {
    let mut c = SensoctoClient::new(config(max_attempts)).unwrap();
    c.connect_begin();
    let _ = c.connect_succeeded();
    c
}

#[test]
fn invalid_configuration_is_rejected_at_construction() {
    let mut bad = SensoctoConfig::default();
    bad.server_url = String::new();
    assert!(matches!(SensoctoClient::new(bad), Err(SensoctoError::InvalidConfig(_))));
    let c = SensoctoClient::new(config(5)).unwrap();
    assert_eq!(c.connection_state(), ConnectionState::Disconnected);
    assert!(!c.is_connected());
    assert_eq!(c.connector_id(), "conn-1");
    assert_eq!(c.connector_name(), "Test");
}

#[test]
fn connect_transitions_and_events() {
    let mut c = SensoctoClient::new(config(5)).unwrap();
    c.connect_begin();
    assert_eq!(c.connection_state(), ConnectionState::Connecting);
    let e = c.connect_succeeded();
    assert!(matches!(e, ConnectionEvent::Connected));
    assert!(c.is_connected());

    let mut c = SensoctoClient::new(config(5)).unwrap();
    c.connect_begin();
    let e = c.connect_failed("handshake refused".to_owned());
    assert!(matches!(e, ConnectionEvent::Error { message } if message == "handshake refused"));
    assert_eq!(c.connection_state(), ConnectionState::Error);
}

#[test]
fn monitor_recovers_on_second_attempt() {
    // Transport drops while Connected with three attempts allowed: the
    // monitor announces the loss, attempts 1 and 2, and settles on the
    // success of attempt 2 with no further attempts and no failure event.
    let mut c = connected_client(3);

    let d = c.monitor_poll(false);
    match d {
        MonitorDecision::BeginReconnect { event } => {
            assert!(matches!(event, ConnectionEvent::Disconnected { reason }
                if reason == "Connection lost"));
        }
        _ => panic!("loss while Connected must begin a reconnect"),
    }
    assert_eq!(c.connection_state(), ConnectionState::Reconnecting);

    let (event, _delay) = c.reconnect_attempt_begin(1).expect("not stopped");
    assert!(matches!(event, ConnectionEvent::Reconnecting { attempt: 1, max_attempts: 3 }));
    // Attempt 1 fails; the loop announces attempt 2.
    let (event, _delay) = c.reconnect_attempt_begin(2).expect("not stopped");
    assert!(matches!(event, ConnectionEvent::Reconnecting { attempt: 2, max_attempts: 3 }));
    // Attempt 2 succeeds.
    let event = c.reconnect_succeeded(2);
    assert!(matches!(event, ConnectionEvent::Reconnected { attempt: 2 }));
    assert_eq!(c.connection_state(), ConnectionState::Connected);

    // Watching continues quietly while the transport stays up.
    assert!(matches!(c.monitor_poll(true), MonitorDecision::Continue));
}

#[test]
fn monitor_exhaustion_and_stop_flag() {
    let mut c = connected_client(2);
    assert!(matches!(c.monitor_poll(false), MonitorDecision::BeginReconnect { .. }));
    let _ = c.reconnect_attempt_begin(1).unwrap();
    let _ = c.reconnect_attempt_begin(2).unwrap();
    let event = c.reconnect_exhausted().expect("not stopped");
    assert!(matches!(event, ConnectionEvent::ReconnectionFailed { attempts: 2, last_error }
        if last_error == "Connection failed"));
    assert_eq!(c.connection_state(), ConnectionState::Error);

    // The user's disconnect halts a monitor at its next suspension point.
    let mut c = connected_client(3);
    let e = c.disconnect();
    assert!(matches!(e, ConnectionEvent::Disconnected { reason }
        if reason == "User requested disconnect"));
    assert!(matches!(c.monitor_poll(false), MonitorDecision::Stop));
    assert!(c.reconnect_attempt_begin(1).is_none());
    assert!(c.reconnect_exhausted().is_none());
}

#[test]
fn monitor_ignores_loss_when_not_connected() {
    let mut c = SensoctoClient::new(config(3)).unwrap();
    assert!(matches!(c.monitor_poll(false), MonitorDecision::Continue));
    assert_eq!(c.connection_state(), ConnectionState::Disconnected);
}

#[test]
fn retry_backs_off_then_gives_up() {
    let c = connected_client(3);
    match c.retry_after_failure(1, "refused".to_owned()) {
        RetryDecision::Backoff { event, delay_ms } => {
            assert!(matches!(event,
                ConnectionEvent::Reconnecting { attempt: 1, max_attempts: 3 }));
            assert!((800..=1200).contains(&delay_ms));
        }
        _ => panic!("attempt 1 of 3 must back off"),
    }
    match c.retry_after_failure(3, "refused".to_owned()) {
        RetryDecision::GiveUp { event } => {
            assert!(matches!(event,
                ConnectionEvent::ReconnectionFailed { attempts: 3, last_error }
                    if last_error == "refused"));
        }
        _ => panic!("the last attempt must give up"),
    }
    assert!(matches!(c.retry_limit_error(), SensoctoError::ConnectionFailed(m)
        if m == "Max connection attempts reached"));
}

#[test]
fn topics_are_formed_from_ids() {
    assert_eq!(sensor_topic("temp-1"), "sensocto:sensor:temp-1");
    assert_eq!(connector_topic("conn-1"), "sensocto:connector:conn-1");
    assert_eq!(call_topic("room-7"), "call:room-7");
}

#[test]
fn sensor_registration_requires_connection() {
    let c = SensoctoClient::new(config(3)).unwrap();
    let sensor = SensorConfig::new("S".to_owned()).with_sensor_id("temp-1".to_owned());
    assert!(matches!(c.register_sensor_channel(&sensor), Err(SensoctoError::Disconnected)));
    assert!(matches!(
        c.call_channel("room-7", "user-1", None),
        Err(SensoctoError::Disconnected)
    ));
}

#[test]
fn sensor_channel_carries_the_join_payload() {
    let c = connected_client(3);
    let sensor = SensorConfig::new("Thermometer".to_owned())
        .with_sensor_id("temp-1".to_owned())
        .with_sensor_type("temperature".to_owned())
        .with_attributes(vec!["celsius".to_owned()])
        .with_sampling_rate(20)
        .with_batch_size(5);
    let ch = c.register_sensor_channel(&sensor).unwrap();
    assert_eq!(ch.topic(), "sensocto:sensor:temp-1");
    let p = &ch.join_params;
    assert!(matches!(p.get("connector_id"), Some(JsonValue::Str(s)) if s == "conn-1"));
    assert!(matches!(p.get("connector_name"), Some(JsonValue::Str(s)) if s == "Test"));
    assert!(matches!(p.get("sensor_id"), Some(JsonValue::Str(s)) if s == "temp-1"));
    assert!(matches!(p.get("sensor_name"), Some(JsonValue::Str(s)) if s == "Thermometer"));
    assert!(matches!(p.get("sensor_type"), Some(JsonValue::Str(s)) if s == "temperature"));
    assert!(matches!(p.get("sampling_rate"), Some(JsonValue::Int(20))));
    assert!(matches!(p.get("batch_size"), Some(JsonValue::Int(5))));
    assert!(matches!(p.get("attributes"), Some(JsonValue::Arr(a))
        if a.len() == 1 && matches!(&a[0], JsonValue::Str(s) if s == "celsius")));
    // No token configured: the payload carries an empty one.
    assert!(matches!(p.get("bearer_token"), Some(JsonValue::Str(s)) if s.is_empty()));
}

#[test]
fn connector_and_call_channels_carry_their_payloads() {
    let c = connected_client(3);
    let ch = c.connector_channel();
    assert_eq!(ch.topic(), "sensocto:connector:conn-1");
    let p = &ch.join_params;
    assert!(matches!(p.get("connector_id"), Some(JsonValue::Str(s)) if s == "conn-1"));
    assert!(matches!(p.get("connector_type"), Some(JsonValue::Str(s)) if s == "rust"));
    assert!(matches!(p.get("features"), Some(JsonValue::Arr(a)) if a.is_empty()));

    let info = JsonValue::Obj(vec![("name".to_owned(), JsonValue::Str("Ada".to_owned()))]);
    let ch = c.call_channel("room-7", "user-1", Some(info)).unwrap();
    assert_eq!(ch.topic(), "call:room-7");
    let p = &ch.join_params;
    assert!(matches!(p.get("user_id"), Some(JsonValue::Str(s)) if s == "user-1"));
    assert!(matches!(p.get("user_info"), Some(v)
        if matches!(v.get("name"), Some(JsonValue::Str(n)) if n == "Ada")));

    let ch = c.call_channel("room-7", "user-1", None).unwrap();
    assert!(matches!(ch.join_params.get("user_info"),
        Some(JsonValue::Obj(fields)) if fields.is_empty()));
}

#[test]
fn hostless_url_is_rejected_at_construction() {
    // A URL that parses but has no host yields no websocket URL, so the
    // client cannot be built from it, even though field validation alone
    // accepts it.
    let mut hostless = config(3);
    hostless.server_url = "mailto:user@example.com".to_owned();
    assert!(hostless.validate().is_ok());
    let r = SensoctoClient::new(hostless);
    assert!(matches!(r, Err(SensoctoError::InvalidConfig(m))
        if m == "Server URL must have a host"));
}
