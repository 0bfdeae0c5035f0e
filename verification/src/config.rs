//! Client and sensor configuration, with field validation and the mapping
//! from the server base URL to the websocket URL.

use vstd::prelude::*;
use crate::error::SensoctoError;
use crate::platform::{new_uuid_string, parse_server_url, url_host_of, url_parse_ok, url_port_of,
    url_scheme_of};
use crate::text::{dec_str_of, str_eq, u64_to_string};

verus! {

/// Configuration for the client.
#[derive(Debug)]
pub struct SensoctoConfig {
    /// The server URL.
    pub server_url: String,
    /// Unique identifier for this connector.
    pub connector_id: String,
    /// Human-readable name for this connector.
    pub connector_name: String,
    /// Type of connector (e.g., "rust", "iot", "mobile").
    pub connector_type: String,
    /// Bearer token for authentication.
    pub bearer_token: Option<String>,
    /// Automatically join the connector channel on connect.
    pub auto_join_connector: bool,
    /// Heartbeat interval in milliseconds.
    pub heartbeat_interval: u64,
    /// Connection timeout in milliseconds.
    pub connection_timeout: u64,
    /// Whether to auto-reconnect on disconnect.
    pub auto_reconnect: bool,
    /// Maximum reconnection attempts.
    pub max_reconnect_attempts: u32,
    /// Supported features.
    pub features: Vec<String>,
}

/// A configuration is accepted when the server URL is non-empty and parses,
/// and the heartbeat interval is at least one second.
pub open spec fn spec_config_valid(c: SensoctoConfig) -> bool {
    &&& c.server_url@.len() > 0
    &&& url_parse_ok(c.server_url@)
    &&& c.heartbeat_interval >= 1000
}

/// The websocket scheme chosen for a server URL: secure exactly when the
/// server URL's scheme is `https`.
pub open spec fn spec_ws_scheme(s: Seq<char>) -> Seq<char> {
    if url_scheme_of(s) == "https"@ {
        "wss"@
    } else {
        "ws"@
    }
}

/// The `:port` suffix kept from the server URL, empty when no explicit port.
pub open spec fn spec_port_suffix(s: Seq<char>) -> Seq<char> {
    match url_port_of(s) {
        Some(p) => ":"@ + dec_str_of(p as nat),
        None => Seq::<char>::empty(),
    }
}

/// The websocket URL derived from a server URL.
pub open spec fn spec_websocket_url(s: Seq<char>) -> Seq<char> {
    spec_ws_scheme(s) + "://"@ + url_host_of(s)->Some_0 + spec_port_suffix(s)
        + "/socket/websocket"@
}

impl Default for SensoctoConfig {
    /// A local default configuration with a fresh connector identity.
    fn default() -> (r: Self)
        ensures
            r.server_url@ == "http://localhost:4000"@,
            r.connector_id@.len() == 36,
            r.connector_name@ == "Rust Connector"@,
            r.connector_type@ == "rust"@,
            r.bearer_token is None,
            r.auto_join_connector,
            r.heartbeat_interval == 30000u64,
            r.connection_timeout == 10000u64,
            r.auto_reconnect,
            r.max_reconnect_attempts == 5u32,
            r.features@.len() == 0,
    {
        SensoctoConfig {
            server_url: "http://localhost:4000".to_owned(),
            connector_id: new_uuid_string(),
            connector_name: "Rust Connector".to_owned(),
            connector_type: "rust".to_owned(),
            bearer_token: None,
            auto_join_connector: true,
            heartbeat_interval: 30000,
            connection_timeout: 10000,
            auto_reconnect: true,
            max_reconnect_attempts: 5,
            features: Vec::new(),
        }
    }
}

impl SensoctoConfig {
    /// Creates a configuration builder, seeded with the default
    /// configuration.
    pub fn builder() -> (r: SensoctoConfigBuilder)
        ensures
            r.config.server_url@ == "http://localhost:4000"@,
            r.config.connector_id@.len() == 36,
            r.config.connector_name@ == "Rust Connector"@,
            r.config.connector_type@ == "rust"@,
            r.config.bearer_token is None,
            r.config.auto_join_connector,
            r.config.heartbeat_interval == 30000u64,
            r.config.connection_timeout == 10000u64,
            r.config.auto_reconnect,
            r.config.max_reconnect_attempts == 5u32,
            r.config.features@.len() == 0,
    {
        SensoctoConfigBuilder { config: SensoctoConfig::default() }
    }

    /// Validates the configuration: accepts exactly the valid ones, and names
    /// the first field at fault otherwise.
    pub fn validate(&self) -> (r: Result<(), SensoctoError>)
        ensures
            r is Ok <==> spec_config_valid(*self),
            self.server_url@.len() == 0 ==> (r matches Err(SensoctoError::InvalidConfig(m))
                && m@ == "Server URL is required"@),
            self.server_url@.len() > 0 && !url_parse_ok(self.server_url@) ==> (r matches Err(
                SensoctoError::UrlError(m),
            ) && m@ == self.server_url@),
            self.server_url@.len() > 0 && url_parse_ok(self.server_url@)
                && self.heartbeat_interval < 1000 ==> (r matches Err(
                SensoctoError::InvalidConfig(m),
            ) && m@ == "Heartbeat interval must be at least 1 second"@),
    {
        if self.server_url.as_str().unicode_len() == 0 {
            return Err(SensoctoError::InvalidConfig("Server URL is required".to_owned()));
        }
        if parse_server_url(self.server_url.as_str()).is_none() {
            return Err(SensoctoError::UrlError(self.server_url.clone()));
        }
        if self.heartbeat_interval < 1000 {
            return Err(
                SensoctoError::InvalidConfig("Heartbeat interval must be at least 1 second".to_owned()),
            );
        }
        Ok(())
    }

    /// The websocket URL for connecting: the server URL's host and explicit
    /// port, under the websocket scheme, at the socket endpoint path.
    pub fn websocket_url(&self) -> (r: Result<String, SensoctoError>)
        ensures
            r is Ok <==> url_parse_ok(self.server_url@) && url_host_of(self.server_url@) is Some,
            r matches Ok(u) ==> u@ == spec_websocket_url(self.server_url@),
            !url_parse_ok(self.server_url@) ==> (r matches Err(SensoctoError::UrlError(m)) && m@
                == self.server_url@),
            url_parse_ok(self.server_url@) && url_host_of(self.server_url@) is None ==> (r
                matches Err(SensoctoError::InvalidConfig(m)) && m@
                == "Server URL must have a host"@),
    {
        match parse_server_url(self.server_url.as_str()) {
            None => Err(SensoctoError::UrlError(self.server_url.clone())),
            Some(parts) => {
                let (scheme, host_opt, port_opt) = parts;
                match host_opt {
                    None => Err(
                        SensoctoError::InvalidConfig("Server URL must have a host".to_owned()),
                    ),
                    Some(host) => {
                        let proto: &str = if str_eq(scheme.as_str(), "https") {
                            "wss"
                        } else {
                            "ws"
                        };
                        let mut out: String = proto.to_owned();
                        out.append("://");
                        out.append(host.as_str());
                        match port_opt {
                            Some(p) => {
                                out.append(":");
                                let ps = u64_to_string(p as u64);
                                out.append(ps.as_str());
                            },
                            None => {},
                        }
                        out.append("/socket/websocket");
                        proof {
                            assert(out@ =~= spec_websocket_url(self.server_url@));
                        }
                        Ok(out)
                    },
                }
            },
        }
    }
}

/// Builder for `SensoctoConfig`.
#[derive(Debug)]
pub struct SensoctoConfigBuilder {
    pub config: SensoctoConfig,
}

impl Default for SensoctoConfigBuilder {
    /// A builder over the default configuration.
    fn default() -> (r: Self)
        ensures
            r.config.server_url@ == "http://localhost:4000"@,
            r.config.connector_id@.len() == 36,
            r.config.connector_name@ == "Rust Connector"@,
            r.config.connector_type@ == "rust"@,
            r.config.bearer_token is None,
            r.config.auto_join_connector,
            r.config.heartbeat_interval == 30000u64,
            r.config.connection_timeout == 10000u64,
            r.config.auto_reconnect,
            r.config.max_reconnect_attempts == 5u32,
            r.config.features@.len() == 0,
    {
        SensoctoConfigBuilder { config: SensoctoConfig::default() }
    }
}

impl SensoctoConfigBuilder {
    /// Sets the server URL.
    pub fn server_url(self, url: String) -> (r: Self)
        ensures
            r.config == (SensoctoConfig { server_url: url, ..self.config }),
    {
        let mut config = self.config;
        config.server_url = url;
        SensoctoConfigBuilder { config }
    }

    /// Sets the connector ID.
    pub fn connector_id(self, id: String) -> (r: Self)
        ensures
            r.config == (SensoctoConfig { connector_id: id, ..self.config }),
    {
        let mut config = self.config;
        config.connector_id = id;
        SensoctoConfigBuilder { config }
    }

    /// Sets the connector name.
    pub fn connector_name(self, name: String) -> (r: Self)
        ensures
            r.config == (SensoctoConfig { connector_name: name, ..self.config }),
    {
        let mut config = self.config;
        config.connector_name = name;
        SensoctoConfigBuilder { config }
    }

    /// Sets the connector type.
    pub fn connector_type(self, typ: String) -> (r: Self)
        ensures
            r.config == (SensoctoConfig { connector_type: typ, ..self.config }),
    {
        let mut config = self.config;
        config.connector_type = typ;
        SensoctoConfigBuilder { config }
    }

    /// Sets the bearer token.
    pub fn bearer_token(self, token: String) -> (r: Self)
        ensures
            r.config == (SensoctoConfig { bearer_token: Some(token), ..self.config }),
    {
        let mut config = self.config;
        config.bearer_token = Some(token);
        SensoctoConfigBuilder { config }
    }

    /// Sets whether to auto-join the connector channel.
    pub fn auto_join_connector(self, auto_join: bool) -> (r: Self)
        ensures
            r.config == (SensoctoConfig { auto_join_connector: auto_join, ..self.config }),
    {
        let mut config = self.config;
        config.auto_join_connector = auto_join;
        SensoctoConfigBuilder { config }
    }

    /// Sets the heartbeat interval in milliseconds.
    pub fn heartbeat_interval(self, interval_ms: u64) -> (r: Self)
        ensures
            r.config == (SensoctoConfig { heartbeat_interval: interval_ms, ..self.config }),
    {
        let mut config = self.config;
        config.heartbeat_interval = interval_ms;
        SensoctoConfigBuilder { config }
    }

    /// Sets the connection timeout in milliseconds.
    pub fn connection_timeout(self, timeout_ms: u64) -> (r: Self)
        ensures
            r.config == (SensoctoConfig { connection_timeout: timeout_ms, ..self.config }),
    {
        let mut config = self.config;
        config.connection_timeout = timeout_ms;
        SensoctoConfigBuilder { config }
    }

    /// Sets whether to auto-reconnect.
    pub fn auto_reconnect(self, auto_reconnect: bool) -> (r: Self)
        ensures
            r.config == (SensoctoConfig { auto_reconnect: auto_reconnect, ..self.config }),
    {
        let mut config = self.config;
        config.auto_reconnect = auto_reconnect;
        SensoctoConfigBuilder { config }
    }

    /// Sets the maximum reconnection attempts.
    pub fn max_reconnect_attempts(self, attempts: u32) -> (r: Self)
        ensures
            r.config == (SensoctoConfig { max_reconnect_attempts: attempts, ..self.config }),
    {
        let mut config = self.config;
        config.max_reconnect_attempts = attempts;
        SensoctoConfigBuilder { config }
    }

    /// Sets the supported features.
    pub fn features(self, features: Vec<String>) -> (r: Self)
        ensures
            r.config == (SensoctoConfig { features: features, ..self.config }),
    {
        let mut config = self.config;
        config.features = features;
        SensoctoConfigBuilder { config }
    }

    /// Validates and returns the configuration.
    pub fn build(self) -> (r: Result<SensoctoConfig, SensoctoError>)
        ensures
            r is Ok <==> spec_config_valid(self.config),
            r matches Ok(c) ==> c == self.config,
    {
        match self.config.validate() {
            Ok(()) => Ok(self.config),
            Err(e) => Err(e),
        }
    }
}

/// Configuration for a sensor.
#[derive(Debug)]
pub struct SensorConfig {
    /// Unique sensor identifier.
    pub sensor_id: String,
    /// Human-readable name for the sensor.
    pub sensor_name: String,
    /// Type of sensor.
    pub sensor_type: String,
    /// List of attributes this sensor will report.
    pub attributes: Vec<String>,
    /// Sampling rate in Hz.
    pub sampling_rate_hz: u32,
    /// Number of measurements to batch.
    pub batch_size: u32,
}

impl SensorConfig {
    /// Creates a sensor configuration with the given name and a fresh id.
    pub fn new(sensor_name: String) -> (r: Self)
        ensures
            r.sensor_id@.len() == 36,
            r.sensor_name@ == sensor_name@,
            r.sensor_type@ == "generic"@,
            r.attributes@.len() == 0,
            r.sampling_rate_hz == 10u32,
            r.batch_size == 5u32,
    {
        SensorConfig {
            sensor_id: new_uuid_string(),
            sensor_name,
            sensor_type: "generic".to_owned(),
            attributes: Vec::new(),
            sampling_rate_hz: 10,
            batch_size: 5,
        }
    }

    /// Sets the sensor ID.
    pub fn with_sensor_id(self, id: String) -> (r: Self)
        ensures
            r == (SensorConfig { sensor_id: id, ..self }),
    {
        let mut c = self;
        c.sensor_id = id;
        c
    }

    /// Sets the sensor type.
    pub fn with_sensor_type(self, sensor_type: String) -> (r: Self)
        ensures
            r == (SensorConfig { sensor_type: sensor_type, ..self }),
    {
        let mut c = self;
        c.sensor_type = sensor_type;
        c
    }

    /// Sets the attributes.
    pub fn with_attributes(self, attributes: Vec<String>) -> (r: Self)
        ensures
            r == (SensorConfig { attributes: attributes, ..self }),
    {
        let mut c = self;
        c.attributes = attributes;
        c
    }

    /// Sets the sampling rate.
    pub fn with_sampling_rate(self, hz: u32) -> (r: Self)
        ensures
            r == (SensorConfig { sampling_rate_hz: hz, ..self }),
    {
        let mut c = self;
        c.sampling_rate_hz = hz;
        c
    }

    /// Sets the batch size.
    pub fn with_batch_size(self, size: u32) -> (r: Self)
        ensures
            r == (SensorConfig { batch_size: size, ..self }),
    {
        let mut c = self;
        c.batch_size = size;
        c
    }
}

} // verus!
