//! The reconnection supervisor: connection state, exponential backoff with
//! jitter, retry and monitor decisions, and the join payloads for the
//! channels the client creates.
//!
//! The supervisor decides; the surrounding runtime performs the connects,
//! waits out the delays, and hands the outcomes back.

use vstd::prelude::*;
use crate::channel::PhoenixChannel;
use crate::config::{spec_config_valid, SensoctoConfig, SensorConfig};
use crate::error::SensoctoError;
use crate::json::{json_view, JsonV, JsonValue};
use crate::models::{ConnectionEvent, ConnectionState};
use crate::platform::random_u64;

verus! {

/// The monitor's poll interval, in milliseconds.
pub const MONITOR_POLL_MS: u64 = 5000;

/// 2 to the power `k`.
pub open spec fn spec_pow2(k: nat) -> nat
    decreases k,
{
    if k == 0 {
        1
    } else {
        2 * spec_pow2((k - 1) as nat)
    }
}

/// The capped base backoff for a 1-indexed attempt:
/// `min(1000 * 2^(attempt-1), 30000)` milliseconds.
pub open spec fn spec_base_backoff(attempt: u32) -> int {
    if 1000 * spec_pow2((attempt - 1) as nat) <= 30000 {
        1000 * spec_pow2((attempt - 1) as nat) as int
    } else {
        30000
    }
}

/// From the sixth attempt on, the base backoff stays at its cap.
proof fn lemma_pow2_ge_32(k: nat)
    requires
        k >= 5,
    ensures
        spec_pow2(k) >= 32,
    decreases k,
{
    if k == 5 {
        assert(spec_pow2(5) == 32) by {
            assert(spec_pow2(0) == 1);
            assert(spec_pow2(1) == 2);
            assert(spec_pow2(2) == 4);
            assert(spec_pow2(3) == 8);
            assert(spec_pow2(4) == 16);
        }
    } else {
        lemma_pow2_ge_32((k - 1) as nat);
    }
}

/// The delay drawn from the entropy: the base less one fifth, plus the
/// entropy reduced to the width of the jitter window.
pub open spec fn spec_backoff_delay(attempt: u32, entropy: u64) -> int {
    let base = spec_base_backoff(attempt);
    base - base / 5 + (entropy as int) % (2 * (base / 5) + 1)
}

/// The backoff delay for a 1-indexed attempt, from the given entropy:
/// the capped base delay with up to 20% symmetric jitter.  The result
/// always lies in `[0.8 * base, 1.2 * base]`, whatever the entropy.
pub fn backoff_delay_ms(attempt: u32, entropy: u64) -> (r: u64)
    requires
        attempt >= 1,
    ensures
        r == spec_backoff_delay(attempt, entropy),
        4 * spec_base_backoff(attempt) <= 5 * r,
        5 * r <= 6 * spec_base_backoff(attempt),
{
    let capped: u64 = if attempt >= 6 {
        30000
    } else if attempt == 1 {
        1000
    } else if attempt == 2 {
        2000
    } else if attempt == 3 {
        4000
    } else if attempt == 4 {
        8000
    } else {
        16000
    };
    proof {
        assert(spec_pow2(0) == 1);
        assert(spec_pow2(1) == 2);
        assert(spec_pow2(2) == 4);
        assert(spec_pow2(3) == 8);
        assert(spec_pow2(4) == 16);
        if attempt >= 6 {
            lemma_pow2_ge_32((attempt - 1) as nat);
        }
        assert(capped == spec_base_backoff(attempt));
    }
    let range: u64 = capped / 5;
    let offset: u64 = entropy % (2 * range + 1);
    capped - range + offset
}

/// The backoff delay for a 1-indexed attempt, with fresh randomness.
pub fn calculate_backoff(attempt: u32) -> (r: u64)
    requires
        attempt >= 1,
    ensures
        4 * spec_base_backoff(attempt) <= 5 * r,
        5 * r <= 6 * spec_base_backoff(attempt),
{
    let entropy = random_u64();
    backoff_delay_ms(attempt, entropy)
}

/// What the connection monitor does after one liveness poll.
#[derive(Debug)]
pub enum MonitorDecision {
    /// The stop flag was set: the monitor terminates.
    Stop,
    /// The transport is healthy, or there is nothing to recover: keep
    /// watching.
    Continue,
    /// The connection was lost while Connected: the state moved to
    /// Reconnecting; emit the event and run the backoff loop.
    BeginReconnect { event: ConnectionEvent },
}

/// What a retrying connect does after a failed attempt.
#[derive(Debug)]
pub enum RetryDecision {
    /// The last allowed attempt failed: emit the event and surface the
    /// error.
    GiveUp { event: ConnectionEvent },
    /// Announce the next attempt and wait out the delay before it.
    Backoff { event: ConnectionEvent, delay_ms: u64 },
}

/// The verified state of the reconnection supervisor.
#[derive(Debug)]
pub struct SensoctoClient {
    /// The validated client configuration.
    pub config: SensoctoConfig,
    /// Connection state; `Connected` requires a live transport.
    pub state: ConnectionState,
    /// Cooperative stop flag: halts backoff loops and the monitor.
    pub stop_reconnecting: bool,
}

impl SensoctoClient {
    /// Builds a supervisor over a configuration.  A configuration is
    /// rejected at construction, before any I/O, exactly when validation
    /// fails or no websocket URL can be formed from it (its URL parses but
    /// has no host).
    pub fn new(config: SensoctoConfig) -> (r: Result<Self, SensoctoError>)
        ensures
            r is Ok <==> spec_config_valid(config) && crate::platform::url_host_of(
                config.server_url@,
            ) is Some,
            r matches Ok(c) ==> c.config == config && c.state == ConnectionState::Disconnected
                && !c.stop_reconnecting,
            spec_config_valid(config) && crate::platform::url_host_of(config.server_url@)
                is None ==> (r matches Err(e) && e matches SensoctoError::InvalidConfig(m) && m@
                == "Server URL must have a host"@),
    {
        match config.validate() {
            Ok(()) => {},
            Err(e) => {
                return Err(e);
            },
        }
        match config.websocket_url() {
            Ok(_) => {},
            Err(e) => {
                return Err(e);
            },
        }
        Ok(
            SensoctoClient {
                config,
                state: ConnectionState::Disconnected,
                stop_reconnecting: false,
            },
        )
    }

    /// Creates a configuration builder, seeded with the default
    /// configuration.
    pub fn builder() -> (r: crate::config::SensoctoConfigBuilder)
        ensures
            r.config.server_url@ == "http://localhost:4000"@,
            r.config.connector_id@.len() == 36,
            r.config.connector_name@ == "Rust Connector"@,
            r.config.connector_type@ == "rust"@,
            r.config.bearer_token is None,
            r.config.auto_join_connector,
            r.config.heartbeat_interval == 30000u64,
            r.config.connection_timeout == 10000u64,
            r.config.auto_reconnect,
            r.config.max_reconnect_attempts == 5u32,
            r.config.features@.len() == 0,
    {
        SensoctoConfig::builder()
    }

    /// The connector ID.
    pub fn connector_id(&self) -> (r: &str)
        ensures
            r@ == self.config.connector_id@,
    {
        self.config.connector_id.as_str()
    }

    /// The connector name.
    pub fn connector_name(&self) -> (r: &str)
        ensures
            r@ == self.config.connector_name@,
    {
        self.config.connector_name.as_str()
    }

    /// The current connection state.
    pub fn connection_state(&self) -> (r: ConnectionState)
        ensures
            r == self.state,
    {
        self.state
    }

    /// Whether the client is connected.
    pub fn is_connected(&self) -> (r: bool)
        ensures
            r == (self.state == ConnectionState::Connected),
    {
        match self.state {
            ConnectionState::Connected => true,
            _ => false,
        }
    }

    /// Begins a connect: clears the stop flag and moves to Connecting.
    pub fn connect_begin(&mut self)
        ensures
            *final(self) == (SensoctoClient {
                state: ConnectionState::Connecting,
                stop_reconnecting: false,
                ..*old(self)
            }),
    {
        self.stop_reconnecting = false;
        self.state = ConnectionState::Connecting;
    }

    /// Applies a successful transport connect: Connected, with its event.
    pub fn connect_succeeded(&mut self) -> (r: ConnectionEvent)
        ensures
            *final(self) == (SensoctoClient { state: ConnectionState::Connected, ..*old(self) }),
            r is Connected,
    {
        self.state = ConnectionState::Connected;
        ConnectionEvent::Connected
    }

    /// Applies a failed transport connect: Error, with its event carrying
    /// the failure message.
    pub fn connect_failed(&mut self, message: String) -> (r: ConnectionEvent)
        ensures
            *final(self) == (SensoctoClient { state: ConnectionState::Error, ..*old(self) }),
            r matches ConnectionEvent::Error { message: m } && m@ == message@,
    {
        self.state = ConnectionState::Error;
        ConnectionEvent::Error { message }
    }

    /// Disconnects on the user's request: sets the stop flag (halting any
    /// backoff loop and the monitor at their next suspension point), moves
    /// to Disconnected, and yields the event to emit.
    pub fn disconnect(&mut self) -> (r: ConnectionEvent)
        ensures
            *final(self) == (SensoctoClient {
                state: ConnectionState::Disconnected,
                stop_reconnecting: true,
                ..*old(self)
            }),
            r matches ConnectionEvent::Disconnected { reason } && reason@
                == "User requested disconnect"@,
    {
        self.stop_reconnecting = true;
        self.state = ConnectionState::Disconnected;
        ConnectionEvent::Disconnected { reason: "User requested disconnect".to_owned() }
    }

    /// Decides a retrying connect's follow-up to a failed attempt
    /// (1-indexed): before the last allowed attempt, announce and back off;
    /// on the last, give up with the failure event.
    pub fn retry_after_failure(&self, attempt: u32, last_error: String) -> (r: RetryDecision)
        requires
            attempt >= 1,
        ensures
            attempt >= self.config.max_reconnect_attempts ==> (r matches RetryDecision::GiveUp {
                event,
            } && (event matches ConnectionEvent::ReconnectionFailed { attempts, last_error: le }
                && attempts == self.config.max_reconnect_attempts && le@ == last_error@)),
            attempt < self.config.max_reconnect_attempts ==> (r matches RetryDecision::Backoff {
                event,
                delay_ms,
            } && (event matches ConnectionEvent::Reconnecting { attempt: a, max_attempts } && a
                == attempt && max_attempts == self.config.max_reconnect_attempts) && 4
                * spec_base_backoff(attempt) <= 5 * delay_ms && 5 * delay_ms <= 6
                * spec_base_backoff(attempt)),
    {
        if attempt >= self.config.max_reconnect_attempts {
            RetryDecision::GiveUp {
                event: ConnectionEvent::ReconnectionFailed {
                    attempts: self.config.max_reconnect_attempts,
                    last_error,
                },
            }
        } else {
            let delay_ms = calculate_backoff(attempt);
            RetryDecision::Backoff {
                event: ConnectionEvent::Reconnecting {
                    attempt,
                    max_attempts: self.config.max_reconnect_attempts,
                },
                delay_ms,
            }
        }
    }

    /// The error surfaced when a retrying connect was allowed no attempt.
    pub fn retry_limit_error(&self) -> (r: SensoctoError)
        ensures
            r matches SensoctoError::ConnectionFailed(m) && m@
                == "Max connection attempts reached"@,
    {
        SensoctoError::ConnectionFailed("Max connection attempts reached".to_owned())
    }

    /// Decides one monitor poll from the observed transport liveness.  Loss
    /// is detected exactly when the state was Connected and the transport no
    /// longer is; the state then moves to Reconnecting.
    pub fn monitor_poll(&mut self, transport_connected: bool) -> (r: MonitorDecision)
        ensures
            old(self).stop_reconnecting ==> r is Stop && *final(self) == *old(self),
            !old(self).stop_reconnecting && (transport_connected || old(self).state
                != ConnectionState::Connected) ==> r is Continue && *final(self) == *old(self),
            !old(self).stop_reconnecting && !transport_connected && old(self).state
                == ConnectionState::Connected ==> (*final(self) == (SensoctoClient {
                state: ConnectionState::Reconnecting,
                ..*old(self)
            }) && (r matches MonitorDecision::BeginReconnect { event } && (event
                matches ConnectionEvent::Disconnected { reason } && reason@
                == "Connection lost"@))),
    {
        if self.stop_reconnecting {
            return MonitorDecision::Stop;
        }
        if transport_connected {
            return MonitorDecision::Continue;
        }
        match self.state {
            ConnectionState::Connected => {
                self.state = ConnectionState::Reconnecting;
                MonitorDecision::BeginReconnect {
                    event: ConnectionEvent::Disconnected { reason: "Connection lost".to_owned() },
                }
            },
            _ => MonitorDecision::Continue,
        }
    }

    /// Announces a reconnection attempt (1-indexed) and the delay to wait
    /// before it, unless the stop flag halts the loop.
    pub fn reconnect_attempt_begin(&self, attempt: u32) -> (r: Option<(ConnectionEvent, u64)>)
        requires
            attempt >= 1,
        ensures
            self.stop_reconnecting ==> r is None,
            !self.stop_reconnecting ==> (r matches Some(pair) && (pair.0
                matches ConnectionEvent::Reconnecting { attempt: a, max_attempts } && a == attempt
                && max_attempts == self.config.max_reconnect_attempts) && 4 * spec_base_backoff(
                attempt,
            ) <= 5 * pair.1 && 5 * pair.1 <= 6 * spec_base_backoff(attempt)),
    {
        if self.stop_reconnecting {
            return None;
        }
        let delay_ms = calculate_backoff(attempt);
        Some(
            (
                ConnectionEvent::Reconnecting {
                    attempt,
                    max_attempts: self.config.max_reconnect_attempts,
                },
                delay_ms,
            ),
        )
    }

    /// Applies a successful reconnect on the given attempt: Connected again,
    /// with the event naming the attempt that succeeded.
    pub fn reconnect_succeeded(&mut self, attempt: u32) -> (r: ConnectionEvent)
        ensures
            *final(self) == (SensoctoClient { state: ConnectionState::Connected, ..*old(self) }),
            r matches ConnectionEvent::Reconnected { attempt: a } && a == attempt,
    {
        self.state = ConnectionState::Connected;
        ConnectionEvent::Reconnected { attempt }
    }

    /// Applies exhaustion of all reconnection attempts: unless the stop
    /// flag explains the silence, the
    /// state moves to Error and the failure event is emitted; the monitor
    /// then terminates.
    pub fn reconnect_exhausted(&mut self) -> (r: Option<ConnectionEvent>)
        ensures
            old(self).stop_reconnecting ==> r is None && *final(self) == *old(self),
            !old(self).stop_reconnecting ==> (*final(self) == (SensoctoClient {
                state: ConnectionState::Error,
                ..*old(self)
            }) && (r matches Some(event) && (event
                matches ConnectionEvent::ReconnectionFailed { attempts, last_error } && attempts
                == old(self).config.max_reconnect_attempts && last_error@
                == "Connection failed"@))),
    {
        if self.stop_reconnecting {
            return None;
        }
        self.state = ConnectionState::Error;
        Some(
            ConnectionEvent::ReconnectionFailed {
                attempts: self.config.max_reconnect_attempts,
                last_error: "Connection failed".to_owned(),
            },
        )
    }
}

/// The topic of a sensor channel.
pub fn sensor_topic(sensor_id: &str) -> (r: String)
    ensures
        r@ == "sensocto:sensor:"@ + sensor_id@,
{
    let mut s: String = "sensocto:sensor:".to_owned();
    s.append(sensor_id);
    s
}

/// The topic of a connector channel.
pub fn connector_topic(connector_id: &str) -> (r: String)
    ensures
        r@ == "sensocto:connector:"@ + connector_id@,
{
    let mut s: String = "sensocto:connector:".to_owned();
    s.append(connector_id);
    s
}

/// The topic of a call channel.
pub fn call_topic(room_id: &str) -> (r: String)
    ensures
        r@ == "call:"@ + room_id@,
{
    let mut s: String = "call:".to_owned();
    s.append(room_id);
    s
}

/// The models of a list of strings, in order.
pub open spec fn str_views(items: Seq<String>) -> Seq<JsonV> {
    Seq::new(items.len(), |i: int| JsonV::Str(items[i]@))
}

/// The bearer token sent on a join: the configured one, or empty.
pub open spec fn spec_bearer(t: Option<String>) -> Seq<char> {
    match t {
        Some(s) => s@,
        None => Seq::empty(),
    }
}

/// A payload array of strings.
pub fn strings_to_json(items: &Vec<String>) -> (r: JsonValue)
    ensures
        r@ == JsonV::Arr(str_views(items@)),
{
    let n = items.len();
    let mut out: Vec<JsonValue> = Vec::new();
    let mut i: usize = 0;
    while i < n
        invariant
            n == items@.len(),
            i <= n,
            out@.len() == i,
            forall|j: int| 0 <= j < i ==> json_view(#[trigger] out@[j]) == JsonV::Str(items@[j]@),
        decreases n - i,
    {
        out.push(JsonValue::Str(items[i].clone()));
        i = i + 1;
    }
    let r = JsonValue::Arr(out);
    proof {
        assert(r@->Arr_0 =~= str_views(items@));
        assert(r@ =~~= JsonV::Arr(str_views(items@)));
    }
    r
}

/// The configured bearer token, or empty.
fn bearer_string(t: &Option<String>) -> (r: String)
    ensures
        r@ == spec_bearer(*t),
{
    match t {
        Some(s) => s.clone(),
        None => String::new(),
    }
}

/// The model of a connector channel's join payload.
pub open spec fn spec_connector_join_params(c: SensoctoConfig) -> JsonV {
    JsonV::Obj(
        seq![
            ("connector_id"@, JsonV::Str(c.connector_id@)),
            ("connector_name"@, JsonV::Str(c.connector_name@)),
            ("connector_type"@, JsonV::Str(c.connector_type@)),
            ("features"@, JsonV::Arr(str_views(c.features@))),
            ("bearer_token"@, JsonV::Str(spec_bearer(c.bearer_token))),
        ],
    )
}

/// The model of a sensor channel's join payload.
pub open spec fn spec_sensor_join_params(c: SensoctoConfig, s: SensorConfig) -> JsonV {
    JsonV::Obj(
        seq![
            ("connector_id"@, JsonV::Str(c.connector_id@)),
            ("connector_name"@, JsonV::Str(c.connector_name@)),
            ("sensor_id"@, JsonV::Str(s.sensor_id@)),
            ("sensor_name"@, JsonV::Str(s.sensor_name@)),
            ("sensor_type"@, JsonV::Str(s.sensor_type@)),
            ("attributes"@, JsonV::Arr(str_views(s.attributes@))),
            ("sampling_rate"@, JsonV::Int(s.sampling_rate_hz as int)),
            ("batch_size"@, JsonV::Int(s.batch_size as int)),
            ("bearer_token"@, JsonV::Str(spec_bearer(c.bearer_token))),
        ],
    )
}

/// The model of a call channel's join payload.
pub open spec fn spec_call_join_params(user_id: Seq<char>, user_info: Option<JsonValue>) -> JsonV {
    JsonV::Obj(
        seq![
            ("user_id"@, JsonV::Str(user_id)),
            (
                "user_info"@,
                match user_info {
                    Some(v) => v@,
                    None => JsonV::Obj(Seq::empty()),
                },
            ),
        ],
    )
}

impl SensoctoClient {
    /// The join payload of the connector channel.
    pub fn connector_join_params(&self) -> (r: JsonValue)
        ensures
            r@ == spec_connector_join_params(self.config),
    {
        let v0 = JsonValue::Str(self.config.connector_id.clone());
        proof {
            assert(v0@ == JsonV::Str(self.config.connector_id@));
        }
        let v1 = JsonValue::Str(self.config.connector_name.clone());
        proof {
            assert(v1@ == JsonV::Str(self.config.connector_name@));
        }
        let v2 = JsonValue::Str(self.config.connector_type.clone());
        proof {
            assert(v2@ == JsonV::Str(self.config.connector_type@));
        }
        let v3 = strings_to_json(&self.config.features);
        let v4 = JsonValue::Str(bearer_string(&self.config.bearer_token));
        proof {
            assert(v4@ == JsonV::Str(spec_bearer(self.config.bearer_token)));
        }
        let mut fields: Vec<(String, JsonValue)> = Vec::new();
        fields.push(("connector_id".to_owned(), v0));
        fields.push(("connector_name".to_owned(), v1));
        fields.push(("connector_type".to_owned(), v2));
        fields.push(("features".to_owned(), v3));
        fields.push(("bearer_token".to_owned(), v4));
        let r = JsonValue::Obj(fields);
        proof {
            let s = r@->Obj_0;
            let target = spec_connector_join_params(self.config)->Obj_0;
            assert(s[0] == target[0]);
            assert(s[1] == target[1]);
            assert(s[2] == target[2]);
            assert(s[3] == target[3]);
            assert(s[4] == target[4]);
            assert(s =~= target);
            assert(r@ == spec_connector_join_params(self.config));
        }
        r
    }

    /// The join payload of a sensor channel.
    pub fn sensor_join_params(&self, sensor: &SensorConfig) -> (r: JsonValue)
        ensures
            r@ == spec_sensor_join_params(self.config, *sensor),
    {
        let v0 = JsonValue::Str(self.config.connector_id.clone());
        proof {
            assert(v0@ == JsonV::Str(self.config.connector_id@));
        }
        let v1 = JsonValue::Str(self.config.connector_name.clone());
        proof {
            assert(v1@ == JsonV::Str(self.config.connector_name@));
        }
        let v2 = JsonValue::Str(sensor.sensor_id.clone());
        proof {
            assert(v2@ == JsonV::Str(sensor.sensor_id@));
        }
        let v3 = JsonValue::Str(sensor.sensor_name.clone());
        proof {
            assert(v3@ == JsonV::Str(sensor.sensor_name@));
        }
        let v4 = JsonValue::Str(sensor.sensor_type.clone());
        proof {
            assert(v4@ == JsonV::Str(sensor.sensor_type@));
        }
        let v5 = strings_to_json(&sensor.attributes);
        let v6 = JsonValue::Int(sensor.sampling_rate_hz as i64);
        proof {
            assert(v6@ == JsonV::Int(sensor.sampling_rate_hz as int));
        }
        let v7 = JsonValue::Int(sensor.batch_size as i64);
        proof {
            assert(v7@ == JsonV::Int(sensor.batch_size as int));
        }
        let v8 = JsonValue::Str(bearer_string(&self.config.bearer_token));
        proof {
            assert(v8@ == JsonV::Str(spec_bearer(self.config.bearer_token)));
        }
        let mut fields: Vec<(String, JsonValue)> = Vec::new();
        fields.push(("connector_id".to_owned(), v0));
        fields.push(("connector_name".to_owned(), v1));
        fields.push(("sensor_id".to_owned(), v2));
        fields.push(("sensor_name".to_owned(), v3));
        fields.push(("sensor_type".to_owned(), v4));
        fields.push(("attributes".to_owned(), v5));
        fields.push(("sampling_rate".to_owned(), v6));
        fields.push(("batch_size".to_owned(), v7));
        fields.push(("bearer_token".to_owned(), v8));
        let r = JsonValue::Obj(fields);
        proof {
            let s = r@->Obj_0;
            let target = spec_sensor_join_params(self.config, *sensor)->Obj_0;
            assert(s[0] == target[0]);
            assert(s[1] == target[1]);
            assert(s[2] == target[2]);
            assert(s[3] == target[3]);
            assert(s[4] == target[4]);
            assert(s[5] == target[5]);
            assert(s[6] == target[6]);
            assert(s[7] == target[7]);
            assert(s[8] == target[8]);
            assert(s =~= target);
            assert(r@ == spec_sensor_join_params(self.config, *sensor));
        }
        r
    }

    /// The connector channel, closed, with its join payload captured.
    pub fn connector_channel(&self) -> (r: PhoenixChannel)
        ensures
            r.topic@ == "sensocto:connector:"@ + self.config.connector_id@,
            r.join_params@ == spec_connector_join_params(self.config),
            r.state == crate::models::ChannelState::Closed,
    {
        let topic = connector_topic(self.config.connector_id.as_str());
        let params = self.connector_join_params();
        PhoenixChannel::new(topic, params)
    }

    /// Creates the channel for a sensor registration.  Only a connected
    /// client may register; otherwise nothing is created and the caller
    /// gets Disconnected.
    pub fn register_sensor_channel(&self, sensor: &SensorConfig) -> (r: Result<
        PhoenixChannel,
        SensoctoError,
    >)
        ensures
            r is Ok <==> self.state == ConnectionState::Connected,
            r matches Ok(ch) ==> ch.topic@ == "sensocto:sensor:"@ + sensor.sensor_id@
                && ch.join_params@ == spec_sensor_join_params(self.config, *sensor) && ch.state
                == crate::models::ChannelState::Closed,
            self.state != ConnectionState::Connected ==> (r matches Err(e) && e
                matches SensoctoError::Disconnected),
    {
        if !self.is_connected() {
            return Err(SensoctoError::Disconnected);
        }
        let topic = sensor_topic(sensor.sensor_id.as_str());
        let params = self.sensor_join_params(sensor);
        Ok(PhoenixChannel::new(topic, params))
    }

    /// Creates the channel for joining a call room.  Only a connected
    /// client may join; otherwise nothing is created and the caller gets
    /// Disconnected.
    pub fn call_channel(&self, room_id: &str, user_id: &str, user_info: Option<JsonValue>) -> (r:
        Result<PhoenixChannel, SensoctoError>)
        ensures
            r is Ok <==> self.state == ConnectionState::Connected,
            r matches Ok(ch) ==> ch.topic@ == "call:"@ + room_id@ && ch.join_params@
                == spec_call_join_params(user_id@, user_info) && ch.state
                == crate::models::ChannelState::Closed,
            self.state != ConnectionState::Connected ==> (r matches Err(e) && e
                matches SensoctoError::Disconnected),
    {
        if !self.is_connected() {
            return Err(SensoctoError::Disconnected);
        }
        let topic = call_topic(room_id);
        let mut fields: Vec<(String, JsonValue)> = Vec::new();
        let vu = JsonValue::Str(user_id.to_owned());
        proof {
            assert(vu@ == JsonV::Str(user_id@));
        }
        fields.push(("user_id".to_owned(), vu));
        let ghost info_arg = user_info;
        let info = match user_info {
            Some(v) => v,
            None => {
                let empty = JsonValue::Obj(Vec::new());
                proof {
                    assert(empty@->Obj_0 =~= Seq::<(Seq<char>, JsonV)>::empty());
                }
                empty
            },
        };
        fields.push(("user_info".to_owned(), info));
        let params = JsonValue::Obj(fields);
        proof {
            let s = params@->Obj_0;
            let target = spec_call_join_params(user_id@, info_arg)->Obj_0;
            assert(s[0] == target[0]);
            assert(s[1] == target[1]);
            assert(s =~= target);
            assert(params@ == spec_call_join_params(user_id@, info_arg));
        }
        Ok(PhoenixChannel::new(topic, params))
    }
}

} // verus!
