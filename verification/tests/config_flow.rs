use sensocto::config::{SensoctoConfig, SensorConfig};
use sensocto::error::SensoctoError;

#[test]
fn builder_builds_valid_configuration() {
    let config = SensoctoConfig::builder()
        .server_url("https://example.com".to_owned())
        .connector_id("c-1".to_owned())
        .connector_name("Test Connector".to_owned())
        .connector_type("test".to_owned())
        .bearer_token("test-token".to_owned())
        .auto_join_connector(false)
        .heartbeat_interval(15000)
        .connection_timeout(5000)
        .auto_reconnect(false)
        .max_reconnect_attempts(3)
        .features(vec!["calls".to_owned()])
        .build()
        .unwrap();
    assert_eq!(config.server_url, "https://example.com");
    assert_eq!(config.connector_id, "c-1");
    assert_eq!(config.connector_name, "Test Connector");
    assert_eq!(config.connector_type, "test");
    assert_eq!(config.bearer_token.as_deref(), Some("test-token"));
    assert!(!config.auto_join_connector);
    assert_eq!(config.heartbeat_interval, 15000);
    assert_eq!(config.connection_timeout, 5000);
    assert!(!config.auto_reconnect);
    assert_eq!(config.max_reconnect_attempts, 3);
    assert_eq!(config.features, vec!["calls".to_owned()]);
}

#[test]
fn default_configuration_is_valid() {
    let config = SensoctoConfig::default();
    assert!(config.validate().is_ok());
    assert_eq!(config.connector_id.len(), 36);
    assert_eq!(config.heartbeat_interval, 30000);
}

#[test]
fn empty_server_url_is_rejected() {
    let r = SensoctoConfig::builder().server_url(String::new()).build();
    assert!(matches!(r, Err(SensoctoError::InvalidConfig(m)) if m == "Server URL is required"));
}

#[test]
fn unparsable_server_url_is_rejected() {
    let r = SensoctoConfig::builder().server_url("not a url".to_owned()).build();
    assert!(matches!(r, Err(SensoctoError::UrlError(m)) if m == "not a url"));
}

#[test]
fn short_heartbeat_is_rejected() {
    let r = SensoctoConfig::builder()
        .server_url("http://localhost:4000".to_owned())
        .heartbeat_interval(999)
        .build();
    assert!(matches!(r, Err(SensoctoError::InvalidConfig(m))
        if m == "Heartbeat interval must be at least 1 second"));
    let ok = SensoctoConfig::builder()
        .server_url("http://localhost:4000".to_owned())
        .heartbeat_interval(1000)
        .build();
    assert!(ok.is_ok());
}

#[test]
fn websocket_url_maps_scheme_host_and_port() {
    let mut config = SensoctoConfig::default();
    config.server_url = "http://localhost:4000".to_owned();
    assert_eq!(config.websocket_url().unwrap(), "ws://localhost:4000/socket/websocket");

    config.server_url = "https://example.com".to_owned();
    assert_eq!(config.websocket_url().unwrap(), "wss://example.com/socket/websocket");

    config.server_url = "https://example.com:8443".to_owned();
    assert_eq!(config.websocket_url().unwrap(), "wss://example.com:8443/socket/websocket");

    config.server_url = "http://10.0.0.7:8080".to_owned();
    assert_eq!(config.websocket_url().unwrap(), "ws://10.0.0.7:8080/socket/websocket");
}

#[test]
fn websocket_url_needs_a_host() {
    let mut config = SensoctoConfig::default();
    config.server_url = "data:text/plain,hello".to_owned();
    let r = config.websocket_url();
    assert!(matches!(r, Err(SensoctoError::InvalidConfig(m))
        if m == "Server URL must have a host"));

    config.server_url = "::: not a url".to_owned();
    assert!(matches!(config.websocket_url(), Err(SensoctoError::UrlError(_))));
}

#[test]
fn sensor_config_builder_chain() {
    let sensor = SensorConfig::new("Thermometer".to_owned())
        .with_sensor_id("temp-1".to_owned())
        .with_sensor_type("temperature".to_owned())
        .with_attributes(vec!["celsius".to_owned(), "fahrenheit".to_owned()])
        .with_sampling_rate(50)
        .with_batch_size(10);
    assert_eq!(sensor.sensor_id, "temp-1");
    assert_eq!(sensor.sensor_name, "Thermometer");
    assert_eq!(sensor.sensor_type, "temperature");
    assert_eq!(sensor.attributes.len(), 2);
    assert_eq!(sensor.sampling_rate_hz, 50);
    assert_eq!(sensor.batch_size, 10);
}

#[test]
fn fresh_sensor_config_has_uuid_and_defaults() {
    let sensor = SensorConfig::new("S".to_owned());
    assert_eq!(sensor.sensor_id.len(), 36);
    assert_eq!(sensor.sensor_type, "generic");
    assert_eq!(sensor.sampling_rate_hz, 10);
    assert_eq!(sensor.batch_size, 5);
    assert!(sensor.attributes.is_empty());
}
