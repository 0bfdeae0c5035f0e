//! Data models: connection and channel states, backpressure configuration,
//! measurements, participants, wire envelopes, and event streams.

use vstd::prelude::*;
use crate::json::JsonValue;

verus! {

/// Connection state of the client.
#[derive(Clone, Copy, PartialEq, Eq, Structural, Debug)]
pub enum ConnectionState {
    /// Not connected to the server.
    Disconnected,
    /// Currently connecting.
    Connecting,
    /// Connected and ready.
    Connected,
    /// Attempting to reconnect.
    Reconnecting,
    /// In an error state.
    Error,
}

/// Channel membership state.
#[derive(Clone, Copy, PartialEq, Eq, Structural, Debug)]
pub enum ChannelState {
    Closed,
    Joining,
    Joined,
    Leaving,
    Errored,
}

/// System load level from the server.
#[derive(Clone, Copy, PartialEq, Eq, Structural, Debug)]
pub enum SystemLoadLevel {
    /// System running smoothly.
    Normal,
    /// Moderate load.
    Elevated,
    /// Heavy load.
    High,
    /// System overloaded.
    Critical,
}

/// Server attention level for backpressure control.
#[derive(Clone, Copy, PartialEq, Eq, Structural, Debug)]
pub enum AttentionLevel {
    /// No active viewers - minimal updates needed.
    NoAttention,
    /// Low attention - slower updates acceptable.
    Low,
    /// Medium attention - normal updates.
    Medium,
    /// High attention - fast updates needed.
    High,
}

impl AttentionLevel {
    /// The recommended batch window in milliseconds for this level.
    pub fn recommended_batch_window(&self) -> (r: u32)
        ensures
            r == match *self {
                AttentionLevel::High => 100u32,
                AttentionLevel::Medium => 500u32,
                AttentionLevel::Low => 2000u32,
                AttentionLevel::NoAttention => 5000u32,
            },
    {
        match self {
            AttentionLevel::High => 100,
            AttentionLevel::Medium => 500,
            AttentionLevel::Low => 2000,
            AttentionLevel::NoAttention => 5000,
        }
    }

    /// The recommended batch size for this level.
    pub fn recommended_batch_size(&self) -> (r: u32)
        ensures
            r == match *self {
                AttentionLevel::High => 1u32,
                AttentionLevel::Medium => 5u32,
                AttentionLevel::Low => 10u32,
                AttentionLevel::NoAttention => 20u32,
            },
    {
        match self {
            AttentionLevel::High => 1,
            AttentionLevel::Medium => 5,
            AttentionLevel::Low => 10,
            AttentionLevel::NoAttention => 20,
        }
    }
}

/// Room membership role.
#[derive(Clone, Copy, PartialEq, Eq, Structural, Debug)]
pub enum RoomRole {
    Owner,
    Admin,
    Member,
}

/// Backpressure configuration from the server.
///
/// `load_multiplier` is a fixed-point factor in hundredths: 100 means 1.00.
#[derive(Debug)]
pub struct BackpressureConfig {
    /// Current attention level.
    pub attention_level: AttentionLevel,
    /// Current system load level.
    pub system_load: SystemLoadLevel,
    /// Whether the client should pause sending data. Server-authoritative:
    /// the client obeys this flag alone and infers nothing from the levels.
    pub paused: bool,
    /// Recommended time window between batch sends (ms).
    pub recommended_batch_window: u32,
    /// Recommended batch size.
    pub recommended_batch_size: u32,
    /// Load multiplier applied to the batch window, in hundredths.
    pub load_multiplier: u32,
    /// Server timestamp when the config was generated.
    pub timestamp: i64,
}

impl BackpressureConfig {
    /// Whether sending should be paused.
    pub fn should_pause(&self) -> (r: bool)
        ensures
            r == self.paused,
    {
        self.paused
    }

    /// The effective batch window: the recommended window scaled by the load
    /// multiplier, saturated to `u32::MAX`.
    pub fn effective_batch_window(&self) -> (r: u32)
        ensures
            r == if self.recommended_batch_window * self.load_multiplier / 100 <= u32::MAX {
                self.recommended_batch_window * self.load_multiplier / 100
            } else {
                u32::MAX as int
            },
    {
        let w: u64 = self.recommended_batch_window as u64;
        let m: u64 = self.load_multiplier as u64;
        proof {
            assert(w * m <= 0xffff_ffff * 0xffff_ffff) by (nonlinear_arith)
                requires
                    w <= 0xffff_ffff,
                    m <= 0xffff_ffff,
            ;
        }
        let scaled: u64 = w * m / 100;
        if scaled <= u32::MAX as u64 {
            scaled as u32
        } else {
            u32::MAX
        }
    }
}

impl Clone for BackpressureConfig {
    /// An exact copy.
    fn clone(&self) -> (r: Self)
        ensures
            r == *self,
    {
        BackpressureConfig {
            attention_level: self.attention_level,
            system_load: self.system_load,
            paused: self.paused,
            recommended_batch_window: self.recommended_batch_window,
            recommended_batch_size: self.recommended_batch_size,
            load_multiplier: self.load_multiplier,
            timestamp: self.timestamp,
        }
    }
}

impl Default for BackpressureConfig {
    /// The configuration in force before the server has issued one.
    fn default() -> (r: Self)
        ensures
            r.attention_level == AttentionLevel::NoAttention,
            r.system_load == SystemLoadLevel::Normal,
            !r.paused,
            r.recommended_batch_window == 500u32,
            r.recommended_batch_size == 5u32,
            r.load_multiplier == 100u32,
            r.timestamp == 0i64,
    {
        BackpressureConfig {
            attention_level: AttentionLevel::NoAttention,
            system_load: SystemLoadLevel::Normal,
            paused: false,
            recommended_batch_window: 500,
            recommended_batch_size: 5,
            load_multiplier: 100,
            timestamp: 0,
        }
    }
}

/// A single sensor measurement.
#[derive(Debug)]
pub struct Measurement {
    /// The attribute identifier (e.g., "heart_rate", "temperature").
    pub attribute_id: String,
    /// The measurement payload.
    pub payload: JsonValue,
    /// Unix timestamp in milliseconds.
    pub timestamp: i64,
}

impl Measurement {
    /// Creates a measurement stamped with the current time.
    pub fn new(attribute_id: String, payload: JsonValue) -> (r: Self)
        ensures
            r.attribute_id@ == attribute_id@,
            r.payload@ == payload@,
    {
        Measurement { attribute_id, payload, timestamp: crate::platform::now_millis() }
    }

    /// Creates a measurement with a specific timestamp.
    pub fn with_timestamp(attribute_id: String, payload: JsonValue, timestamp: i64) -> (r: Self)
        ensures
            r.attribute_id@ == attribute_id@,
            r.payload@ == payload@,
            r.timestamp == timestamp,
    {
        Measurement { attribute_id, payload, timestamp }
    }
}

/// A call participant, as last reported by the server.
#[derive(Debug)]
pub struct CallParticipant {
    pub user_id: String,
    pub endpoint_id: String,
    pub user_info: JsonValue,
    pub joined_at: Option<String>,
    pub audio_enabled: bool,
    pub video_enabled: bool,
}

/// Mathematical model of a call participant.
#[verifier::ext_equal]
pub ghost struct CallParticipantV {
    pub user_id: Seq<char>,
    pub endpoint_id: Seq<char>,
    pub user_info: crate::json::JsonV,
    pub joined_at: Option<Seq<char>>,
    pub audio_enabled: bool,
    pub video_enabled: bool,
}

impl View for CallParticipant {
    type V = CallParticipantV;

    open spec fn view(&self) -> CallParticipantV {
        CallParticipantV {
            user_id: self.user_id@,
            endpoint_id: self.endpoint_id@,
            user_info: self.user_info@,
            joined_at: match self.joined_at {
                Some(s) => Some(s@),
                None => None,
            },
            audio_enabled: self.audio_enabled,
            video_enabled: self.video_enabled,
        }
    }
}

/// ICE server configuration for call signaling.
#[derive(Debug)]
pub struct IceServer {
    pub urls: Vec<String>,
    pub username: Option<String>,
    pub credential: Option<String>,
}

/// A room on the server.
#[derive(Debug)]
pub struct Room {
    pub id: String,
    pub name: String,
    pub description: Option<String>,
    pub join_code: Option<String>,
    pub is_public: bool,
    pub calls_enabled: bool,
    pub owner_id: String,
    pub configuration: JsonValue,
}

/// A user on the server.
#[derive(Debug)]
pub struct User {
    pub id: String,
    pub email: Option<String>,
}

/// A wire envelope: one frame of the join/leave/push protocol.
#[derive(Debug)]
pub struct PhoenixMessage {
    pub topic: String,
    pub event: String,
    pub payload: JsonValue,
    /// Correlation reference; the counter value, encoded in text on the wire.
    pub msg_ref: Option<u64>,
}

/// A reply payload, correlated to a request by its reference.
#[derive(Debug)]
pub struct PhoenixReply {
    /// `"ok"` marks success; any other value is a failure.
    pub status: String,
    pub response: JsonValue,
}

/// Events that can be received from a sensor channel.
#[derive(Debug)]
pub enum SensorEvent {
    /// Backpressure configuration update.
    BackpressureConfig(BackpressureConfig),
    /// Generic event with payload.
    Other { event: String, payload: JsonValue },
}

/// Events that can be received from a call channel.
#[derive(Debug)]
pub enum CallEvent {
    /// A participant joined the call.
    ParticipantJoined(CallParticipant),
    /// A participant left the call.
    ParticipantLeft { user_id: String, crashed: bool },
    /// Media event for call signaling.
    MediaEvent(JsonValue),
    /// Participant audio state changed.
    ParticipantAudioChanged { user_id: String, enabled: bool },
    /// Participant video state changed.
    ParticipantVideoChanged { user_id: String, enabled: bool },
    /// Call quality changed.
    QualityChanged(String),
    /// The call has ended.
    CallEnded,
}

/// Connection state change events for monitoring connection health.
#[derive(Debug)]
pub enum ConnectionEvent {
    /// Successfully connected to the server.
    Connected,
    /// Disconnected from the server (intentional or error).
    Disconnected { reason: String },
    /// Attempting to reconnect.
    Reconnecting { attempt: u32, max_attempts: u32 },
    /// Successfully reconnected.
    Reconnected { attempt: u32 },
    /// Reconnection failed after all attempts.
    ReconnectionFailed { attempts: u32, last_error: String },
    /// Connection error occurred.
    Error { message: String },
}

} // verus!
