//! The sensor stream: a batching, backpressure-aware overlay on a channel.
//!
//! The stream decides what reaches the wire; decided frames queue in its
//! outbox, which the surrounding transport drains.  While the server's
//! `paused` flag is set nothing is sent, but buffering continues so no data
//! is lost; a forced flush (used on close) sends regardless.

use vstd::prelude::*;
use crate::channel::{valid_attribute_id, validate_attribute_id, PhoenixChannel, PushRequest};
use crate::error::SensoctoError;
use crate::json::{spec_get, JsonV, JsonValue};
use crate::models::{
    AttentionLevel,
    BackpressureConfig,
    ChannelState,
    Measurement,
    SensorEvent,
    SystemLoadLevel,
};
use crate::config::SensorConfig;
use crate::platform::now_millis;
use crate::text::str_eq;
use vstd::string::StringSliceAdditionalSpecFns;

verus! {

/// The wire form of one measurement, from its parts.
pub open spec fn spec_measurement_json_v(
    attribute_id: Seq<char>,
    payload: JsonV,
    timestamp: int,
) -> JsonV {
    JsonV::Obj(
        seq![
            ("attribute_id"@, JsonV::Str(attribute_id)),
            ("payload"@, payload),
            ("timestamp"@, JsonV::Int(timestamp)),
        ],
    )
}

/// The wire form of one measurement.
pub open spec fn spec_measurement_json(m: Measurement) -> JsonV {
    spec_measurement_json_v(m.attribute_id@, m.payload@, m.timestamp as int)
}

/// The wire form of a batch: the measurements in insertion order.
pub open spec fn spec_batch_json(buf: Seq<Measurement>) -> JsonV {
    JsonV::Arr(Seq::new(buf.len(), |i: int| spec_measurement_json(buf[i])))
}

/// Builds the wire form of one measurement.
pub fn measurement_to_json(m: &Measurement) -> (r: JsonValue)
    ensures
        r@ == spec_measurement_json(*m),
{
    let v0 = JsonValue::Str(m.attribute_id.clone());
    proof {
        assert(v0@ == JsonV::Str(m.attribute_id@));
    }
    let v1 = m.payload.deep_clone();
    let v2 = JsonValue::Int(m.timestamp);
    proof {
        assert(v2@ == JsonV::Int(m.timestamp as int));
    }
    let mut fields: Vec<(String, JsonValue)> = Vec::new();
    fields.push(("attribute_id".to_owned(), v0));
    fields.push(("payload".to_owned(), v1));
    fields.push(("timestamp".to_owned(), v2));
    let r = JsonValue::Obj(fields);
    proof {
        let s = r@->Obj_0;
        let target = spec_measurement_json(*m)->Obj_0;
        assert(s[0] == target[0]);
        assert(s[1] == target[1]);
        assert(s[2] == target[2]);
        assert(s =~= target);
        assert(r@ == spec_measurement_json(*m));
    }
    r
}

/// The attention level a wire string denotes.
pub open spec fn spec_attention_of(s: Seq<char>) -> Option<AttentionLevel> {
    if s == "none"@ {
        Some(AttentionLevel::NoAttention)
    } else if s == "low"@ {
        Some(AttentionLevel::Low)
    } else if s == "medium"@ {
        Some(AttentionLevel::Medium)
    } else if s == "high"@ {
        Some(AttentionLevel::High)
    } else {
        None
    }
}

/// The system load level a wire string denotes.
pub open spec fn spec_load_of(s: Seq<char>) -> Option<SystemLoadLevel> {
    if s == "normal"@ {
        Some(SystemLoadLevel::Normal)
    } else if s == "elevated"@ {
        Some(SystemLoadLevel::Elevated)
    } else if s == "high"@ {
        Some(SystemLoadLevel::High)
    } else if s == "critical"@ {
        Some(SystemLoadLevel::Critical)
    } else {
        None
    }
}

/// A payload field read as a `u32`, when present and in range.
pub open spec fn spec_u32_field(p: JsonV, key: Seq<char>) -> Option<u32> {
    match spec_get(p, key) {
        Some(JsonV::Int(i)) => if 0 <= i <= u32::MAX {
            Some(i as u32)
        } else {
            None
        },
        _ => None,
    }
}

/// The backpressure configuration a payload denotes, when well-formed:
/// `attention_level`, `recommended_batch_window`, `recommended_batch_size`
/// and `timestamp` are required; `system_load` defaults to normal, `paused`
/// to false, `load_multiplier` (in hundredths) to 100.  A present field of
/// the wrong shape makes the whole payload ill-formed.
pub open spec fn spec_parse_backpressure(p: JsonV) -> Option<BackpressureConfig> {
    let attention = match spec_get(p, "attention_level"@) {
        Some(JsonV::Str(s)) => spec_attention_of(s),
        _ => None,
    };
    let load = match spec_get(p, "system_load"@) {
        Some(JsonV::Str(s)) => spec_load_of(s),
        Some(_) => None,
        None => Some(SystemLoadLevel::Normal),
    };
    let paused = match spec_get(p, "paused"@) {
        Some(JsonV::Bool(b)) => Some(b),
        Some(_) => None,
        None => Some(false),
    };
    let window = spec_u32_field(p, "recommended_batch_window"@);
    let size = spec_u32_field(p, "recommended_batch_size"@);
    let multiplier = match spec_get(p, "load_multiplier"@) {
        Some(JsonV::Int(i)) => if 0 <= i <= u32::MAX {
            Some(i as u32)
        } else {
            None
        },
        Some(_) => None,
        None => Some(100u32),
    };
    let timestamp = match spec_get(p, "timestamp"@) {
        Some(JsonV::Int(i)) => Some(i as i64),
        _ => None,
    };
    if attention is Some && load is Some && paused is Some && window is Some && size is Some
        && multiplier is Some && timestamp is Some {
        Some(
            BackpressureConfig {
                attention_level: attention->0,
                system_load: load->0,
                paused: paused->0,
                recommended_batch_window: window->0,
                recommended_batch_size: size->0,
                load_multiplier: multiplier->0,
                timestamp: timestamp->0,
            },
        )
    } else {
        None
    }
}

/// Reads the attention level from a wire string.
fn attention_of(s: &str) -> (r: Option<AttentionLevel>)
    ensures
        r == spec_attention_of(s@),
{
    if str_eq(s, "none") {
        Some(AttentionLevel::NoAttention)
    } else if str_eq(s, "low") {
        Some(AttentionLevel::Low)
    } else if str_eq(s, "medium") {
        Some(AttentionLevel::Medium)
    } else if str_eq(s, "high") {
        Some(AttentionLevel::High)
    } else {
        None
    }
}

/// Reads the system load level from a wire string.
fn load_of(s: &str) -> (r: Option<SystemLoadLevel>)
    ensures
        r == spec_load_of(s@),
{
    if str_eq(s, "normal") {
        Some(SystemLoadLevel::Normal)
    } else if str_eq(s, "elevated") {
        Some(SystemLoadLevel::Elevated)
    } else if str_eq(s, "high") {
        Some(SystemLoadLevel::High)
    } else if str_eq(s, "critical") {
        Some(SystemLoadLevel::Critical)
    } else {
        None
    }
}

/// Reads a `u32` field.
fn u32_field(p: &JsonValue, key: &str) -> (r: Option<u32>)
    ensures
        r == spec_u32_field(p@, key@),
{
    match p.get(key) {
        Some(v) => match v.as_int() {
            Some(i) => if 0 <= i && i <= u32::MAX as i64 {
                Some(i as u32)
            } else {
                None
            },
            None => None,
        },
        None => None,
    }
}

/// Decodes a backpressure configuration payload; exactly the well-formed
/// payloads are accepted.
pub fn parse_backpressure_config(payload: &JsonValue) -> (r: Option<BackpressureConfig>)
    ensures
        r == spec_parse_backpressure(payload@),
{
    let attention: Option<AttentionLevel> = match payload.get("attention_level") {
        Some(v) => match v.as_str() {
            Some(s) => attention_of(s.as_str()),
            None => None,
        },
        None => None,
    };
    let load: Option<SystemLoadLevel> = match payload.get("system_load") {
        Some(v) => match v.as_str() {
            Some(s) => load_of(s.as_str()),
            None => None,
        },
        None => Some(SystemLoadLevel::Normal),
    };
    let paused: Option<bool> = match payload.get("paused") {
        Some(v) => match v.as_bool() {
            Some(b) => Some(b),
            None => None,
        },
        None => Some(false),
    };
    let window = u32_field(payload, "recommended_batch_window");
    let size = u32_field(payload, "recommended_batch_size");
    let multiplier: Option<u32> = match payload.get("load_multiplier") {
        Some(v) => match v.as_int() {
            Some(i) => if 0 <= i && i <= u32::MAX as i64 {
                Some(i as u32)
            } else {
                None
            },
            None => None,
        },
        None => Some(100),
    };
    let timestamp: Option<i64> = match payload.get("timestamp") {
        Some(v) => v.as_int(),
        None => None,
    };
    match (attention, load, paused, window, size, multiplier, timestamp) {
        (
            Some(attention_level),
            Some(system_load),
            Some(paused),
            Some(recommended_batch_window),
            Some(recommended_batch_size),
            Some(load_multiplier),
            Some(timestamp),
        ) => Some(
            BackpressureConfig {
                attention_level,
                system_load,
                paused,
                recommended_batch_window,
                recommended_batch_size,
                load_multiplier,
                timestamp,
            },
        ),
        _ => None,
    }
}

/// The verified state of one sensor stream.
#[derive(Debug)]
pub struct SensorStream {
    /// The channel this stream sends on.
    pub channel: PhoenixChannel,
    /// The sensor's identifier.
    pub sensor_id: String,
    /// The sensor's configuration.
    pub config: SensorConfig,
    /// Buffered measurements awaiting a batch flush, in insertion order.
    pub buffer: Vec<Measurement>,
    /// The cached server-issued backpressure configuration.
    pub backpressure: BackpressureConfig,
    /// Frames decided but not yet on the wire; the transport drains this.
    pub outbox: Vec<PushRequest>,
}

impl SensorStream {
    /// A fresh stream over a channel, with an empty buffer and the default
    /// backpressure configuration.
    pub fn new(channel: PhoenixChannel, sensor_id: String, config: SensorConfig) -> (r: Self)
        ensures
            r.channel == channel,
            r.sensor_id@ == sensor_id@,
            r.config == config,
            r.buffer@.len() == 0,
            !r.backpressure.paused,
            r.backpressure.recommended_batch_size == 5u32,
            r.outbox@.len() == 0,
    {
        SensorStream {
            channel,
            sensor_id,
            config,
            buffer: Vec::new(),
            backpressure: BackpressureConfig::default(),
            outbox: Vec::new(),
        }
    }

    /// The sensor ID.
    pub fn sensor_id(&self) -> (r: &str)
        ensures
            r@ == self.sensor_id@,
    {
        self.sensor_id.as_str()
    }

    /// Whether the stream's channel is joined.
    pub fn is_active(&self) -> (r: bool)
        ensures
            r == (self.channel.state == ChannelState::Joined),
    {
        self.channel.is_joined()
    }

    /// The cached backpressure configuration.
    pub fn backpressure_config(&self) -> (r: BackpressureConfig)
        ensures
            r == self.backpressure,
    {
        self.backpressure.clone()
    }

    /// Whether sending is paused by server backpressure.
    pub fn is_paused(&self) -> (r: bool)
        ensures
            r == self.backpressure.paused,
    {
        self.backpressure.paused
    }

    /// Replaces the cached backpressure configuration and yields the event
    /// to forward to observers.
    pub fn set_backpressure_config(&mut self, config: BackpressureConfig) -> (r: SensorEvent)
        ensures
            *final(self) == (SensorStream { backpressure: config, ..*old(self) }),
            r matches SensorEvent::BackpressureConfig(c) && c == config,
    {
        let copy = config.clone();
        self.backpressure = config;
        SensorEvent::BackpressureConfig(copy)
    }

    /// Sends a single measurement with the given timestamp.
    ///
    /// The attribute id is validated first; an invalid one is rejected and
    /// never retried.  Under pause the measurement is skipped (`false`, no
    /// wire traffic).  Otherwise the measurement frame is queued and `true`
    /// is returned; a channel that is not joined fails the push.
    pub fn send_measurement_with_timestamp(
        &mut self,
        attribute_id: &str,
        payload: JsonValue,
        timestamp: i64,
    ) -> (r: Result<bool, SensoctoError>)
        ensures
            final(self).channel == old(self).channel,
            final(self).sensor_id == old(self).sensor_id,
            final(self).config == old(self).config,
            final(self).buffer == old(self).buffer,
            final(self).backpressure == old(self).backpressure,
            !valid_attribute_id(attribute_id.spec_bytes()) ==> (r matches Err(e) && e
                matches SensoctoError::InvalidAttributeId(_)) && final(self).outbox == old(self).outbox,
            valid_attribute_id(attribute_id.spec_bytes()) && old(self).backpressure.paused ==> (r
                matches Ok(sent) && !sent && final(self).outbox == old(self).outbox),
            valid_attribute_id(attribute_id.spec_bytes()) && !old(self).backpressure.paused && old(self).channel.state != ChannelState::Joined ==> (r matches Err(e) && e
                matches SensoctoError::ChannelNotJoined(t) && t@ == old(self).channel.topic@)
                && final(self).outbox == old(self).outbox,
            valid_attribute_id(attribute_id.spec_bytes()) && !old(self).backpressure.paused && old(self).channel.state == ChannelState::Joined ==> (r matches Ok(sent) && sent) && final(self).outbox@.len() == old(self).outbox@.len() + 1 && final(self).outbox@.drop_last()
                == old(self).outbox@ && (final(self).outbox@.last() matches PushRequest {
                topic,
                event,
                payload: p,
                wants_reply,
            } && topic@ == old(self).channel.topic@ && event@ == "measurement"@ && p@
                == spec_measurement_json_v(attribute_id@, payload@, timestamp as int)
                && !wants_reply),
    {
        if let Err(e) = validate_attribute_id(attribute_id) {
            return Err(e);
        }
        if self.backpressure.paused {
            return Ok(false);
        }
        let m = Measurement::with_timestamp(attribute_id.to_owned(), payload, timestamp);
        let ghost m_ghost = m;
        let frame = measurement_to_json(&m);
        proof {
            assert(spec_measurement_json(m_ghost) == spec_measurement_json_v(
                attribute_id@,
                payload@,
                timestamp as int,
            )) by {
                assert(spec_measurement_json(m_ghost)->Obj_0 =~= spec_measurement_json_v(
                    attribute_id@,
                    payload@,
                    timestamp as int,
                )->Obj_0);
            }
        }
        match self.channel.push_no_reply_request("measurement", frame) {
            Ok(req) => {
                self.outbox.push(req);
                proof {
                    assert(self.outbox@.drop_last() =~= old(self).outbox@);
                }
                Ok(true)
            },
            Err(e) => Err(e),
        }
    }

    /// Sends a single measurement stamped with the current time.
    pub fn send_measurement(&mut self, attribute_id: &str, payload: JsonValue) -> (r: Result<
        bool,
        SensoctoError,
    >)
        ensures
            final(self).channel == old(self).channel,
            final(self).sensor_id == old(self).sensor_id,
            final(self).config == old(self).config,
            final(self).buffer == old(self).buffer,
            final(self).backpressure == old(self).backpressure,
            !valid_attribute_id(attribute_id.spec_bytes()) ==> (r matches Err(e) && e
                matches SensoctoError::InvalidAttributeId(_)) && final(self).outbox == old(self).outbox,
            valid_attribute_id(attribute_id.spec_bytes()) && old(self).backpressure.paused ==> (r
                matches Ok(sent) && !sent && final(self).outbox == old(self).outbox),
            valid_attribute_id(attribute_id.spec_bytes()) && !old(self).backpressure.paused && old(self).channel.state != ChannelState::Joined ==> (r matches Err(e) && e
                matches SensoctoError::ChannelNotJoined(t) && t@ == old(self).channel.topic@)
                && final(self).outbox == old(self).outbox,
            valid_attribute_id(attribute_id.spec_bytes()) && !old(self).backpressure.paused && old(self).channel.state == ChannelState::Joined ==> (r matches Ok(sent) && sent) && final(self).outbox@.len() == old(self).outbox@.len() + 1 && final(self).outbox@.drop_last()
                == old(self).outbox@ && (final(self).outbox@.last() matches PushRequest {
                topic,
                event,
                payload: p,
                wants_reply,
            } && topic@ == old(self).channel.topic@ && event@ == "measurement"@ && !wants_reply
                && (exists|ts: i64| p@ == spec_measurement_json_v(attribute_id@, payload@, ts as int))),
    {
        let ts = now_millis();
        self.send_measurement_with_timestamp(attribute_id, payload, ts)
    }

    /// Buffers a measurement with the given timestamp; measurements are
    /// buffered even under pause, so nothing is silently lost.  When not
    /// paused and the buffer has reached the recommended batch size, an
    /// automatic flush is triggered, whose own failure is swallowed.
    pub fn add_to_batch_with_timestamp(
        &mut self,
        attribute_id: &str,
        payload: JsonValue,
        timestamp: i64,
    )
        ensures
            final(self).channel == old(self).channel,
            final(self).sensor_id == old(self).sensor_id,
            final(self).config == old(self).config,
            final(self).backpressure == old(self).backpressure,
            old(self).backpressure.paused ==> final(self).outbox == old(self).outbox && final(self).buffer@.len() == old(self).buffer@.len() + 1 && final(self).buffer@.drop_last()
                == old(self).buffer@ && final(self).buffer@.last().attribute_id@ == attribute_id@
                && final(self).buffer@.last().payload@ == payload@ && final(self).buffer@.last().timestamp == timestamp,
            !old(self).backpressure.paused && old(self).buffer@.len() + 1 < old(self).backpressure.recommended_batch_size ==> final(self).outbox == old(self).outbox
                && final(self).buffer@.len() == old(self).buffer@.len() + 1 && final(self).buffer@.drop_last() == old(self).buffer@ && final(self).buffer@.last().attribute_id@
                == attribute_id@ && final(self).buffer@.last().payload@ == payload@ && final(self).buffer@.last().timestamp == timestamp,
            !old(self).backpressure.paused && old(self).buffer@.len() + 1 >= old(self).backpressure.recommended_batch_size ==> final(self).buffer@.len() == 0 && (if old(self).channel.state == ChannelState::Joined {
                final(self).outbox@.len() == old(self).outbox@.len() + 1 && final(self).outbox@.drop_last() == old(self).outbox@ && (final(self).outbox@.last()
                    matches PushRequest { topic, event, payload: p, wants_reply } && topic@ == old(self).channel.topic@ && event@ == "measurements_batch"@ && !wants_reply && (exists|
                    m: Measurement,
                |
                    m.attribute_id@ == attribute_id@ && m.payload@ == payload@ && m.timestamp
                        == timestamp && p@ == spec_batch_json(old(self).buffer@.push(m))))
            } else {
                final(self).outbox == old(self).outbox
            }),
    {
        let m = Measurement::with_timestamp(attribute_id.to_owned(), payload, timestamp);
        self.buffer.push(m);
        proof {
            assert(self.buffer@.drop_last() =~= old(self).buffer@);
        }
        let paused = self.backpressure.paused;
        let batch_size = self.backpressure.recommended_batch_size;
        if paused {
            return ;
        }
        if self.buffer.len() as u64 >= batch_size as u64 {
            let _ = self.flush_batch_internal(false);
        }
    }

    /// Buffers a measurement stamped with the current time.
    pub fn add_to_batch(&mut self, attribute_id: &str, payload: JsonValue)
        ensures
            final(self).channel == old(self).channel,
            final(self).sensor_id == old(self).sensor_id,
            final(self).config == old(self).config,
            final(self).backpressure == old(self).backpressure,
            old(self).backpressure.paused ==> final(self).outbox == old(self).outbox && final(self).buffer@.len() == old(self).buffer@.len() + 1 && final(self).buffer@.drop_last()
                == old(self).buffer@ && final(self).buffer@.last().attribute_id@ == attribute_id@
                && final(self).buffer@.last().payload@ == payload@,
            !old(self).backpressure.paused && old(self).buffer@.len() + 1 < old(self).backpressure.recommended_batch_size ==> final(self).outbox == old(self).outbox
                && final(self).buffer@.len() == old(self).buffer@.len() + 1 && final(self).buffer@.drop_last() == old(self).buffer@ && final(self).buffer@.last().attribute_id@
                == attribute_id@ && final(self).buffer@.last().payload@ == payload@,
            !old(self).backpressure.paused && old(self).buffer@.len() + 1 >= old(self).backpressure.recommended_batch_size ==> final(self).buffer@.len() == 0 && (if old(self).channel.state == ChannelState::Joined {
                final(self).outbox@.len() == old(self).outbox@.len() + 1 && final(self).outbox@.drop_last() == old(self).outbox@ && (final(self).outbox@.last()
                    matches PushRequest { topic, event, payload: p, wants_reply } && topic@ == old(self).channel.topic@ && event@ == "measurements_batch"@ && !wants_reply && (exists|
                    m: Measurement,
                |
                    m.attribute_id@ == attribute_id@ && m.payload@ == payload@ && p@
                        == spec_batch_json(old(self).buffer@.push(m))))
            } else {
                final(self).outbox == old(self).outbox
            }),
    {
        let ts = now_millis();
        self.add_to_batch_with_timestamp(attribute_id, payload, ts)
    }

    /// Drains the buffer into one batch frame.  `force` overrides the pause
    /// flag (used on close); an unforced flush under pause is skipped with
    /// the buffer kept.
    fn flush_batch_internal(&mut self, force: bool) -> (r: Result<bool, SensoctoError>)
        ensures
            final(self).channel == old(self).channel,
            final(self).sensor_id == old(self).sensor_id,
            final(self).config == old(self).config,
            final(self).backpressure == old(self).backpressure,
            old(self).buffer@.len() == 0 ==> (r matches Ok(sent) && !sent) && *final(self) == *old(self),
            old(self).buffer@.len() > 0 && old(self).backpressure.paused && !force ==> (r
                matches Ok(sent) && !sent) && *final(self) == *old(self),
            old(self).buffer@.len() > 0 && (!old(self).backpressure.paused || force) && old(self).channel.state == ChannelState::Joined ==> (r matches Ok(sent) && sent) && final(self).buffer@.len() == 0 && final(self).outbox@.len() == old(self).outbox@.len() + 1
                && final(self).outbox@.drop_last() == old(self).outbox@ && (final(self).outbox@.last() matches PushRequest { topic, event, payload: p, wants_reply } && topic@
                == old(self).channel.topic@ && event@ == "measurements_batch"@ && !wants_reply && p@
                == spec_batch_json(old(self).buffer@)),
            old(self).buffer@.len() > 0 && (!old(self).backpressure.paused || force) && old(self).channel.state != ChannelState::Joined ==> (r matches Err(e) && e
                matches SensoctoError::ChannelNotJoined(t) && t@ == old(self).channel.topic@)
                && final(self).buffer@.len() == 0 && final(self).outbox == old(self).outbox,
    {
        if self.buffer.len() == 0 {
            return Ok(false);
        }
        if self.backpressure.paused && !force {
            return Ok(false);
        }
        let n = self.buffer.len();
        let mut items: Vec<JsonValue> = Vec::new();
        let mut i: usize = 0;
        while i < n
            invariant
                n == self.buffer@.len(),
                i <= n,
                items@.len() == i,
                forall|j: int| 0 <= j < i ==> (#[trigger] items@[j])@ == spec_measurement_json(
                    self.buffer@[j],
                ),
            decreases n - i,
        {
            let v = measurement_to_json(&self.buffer[i]);
            items.push(v);
            i = i + 1;
        }
        let batch = JsonValue::Arr(items);
        proof {
            assert(batch@->Arr_0 =~= spec_batch_json(self.buffer@)->Arr_0);
            assert(batch@ == spec_batch_json(self.buffer@));
        }
        match self.channel.push_no_reply_request("measurements_batch", batch) {
            Ok(req) => {
                self.buffer = Vec::new();
                self.outbox.push(req);
                proof {
                    assert(self.outbox@.drop_last() =~= old(self).outbox@);
                }
                Ok(true)
            },
            Err(e) => {
                self.buffer = Vec::new();
                Err(e)
            },
        }
    }

    /// Flushes the buffer into one batch frame; skipped under pause or on an
    /// empty buffer (`false`, no wire traffic).
    pub fn flush_batch(&mut self) -> (r: Result<bool, SensoctoError>)
        ensures
            final(self).channel == old(self).channel,
            final(self).sensor_id == old(self).sensor_id,
            final(self).config == old(self).config,
            final(self).backpressure == old(self).backpressure,
            old(self).buffer@.len() == 0 ==> (r matches Ok(sent) && !sent) && *final(self) == *old(self),
            old(self).buffer@.len() > 0 && old(self).backpressure.paused ==> (r matches Ok(sent)
                && !sent) && *final(self) == *old(self),
            old(self).buffer@.len() > 0 && !old(self).backpressure.paused && old(self).channel.state == ChannelState::Joined ==> (r matches Ok(sent) && sent) && final(self).buffer@.len() == 0 && final(self).outbox@.len() == old(self).outbox@.len() + 1
                && final(self).outbox@.drop_last() == old(self).outbox@ && (final(self).outbox@.last() matches PushRequest { topic, event, payload: p, wants_reply } && topic@
                == old(self).channel.topic@ && event@ == "measurements_batch"@ && !wants_reply && p@
                == spec_batch_json(old(self).buffer@)),
            old(self).buffer@.len() > 0 && !old(self).backpressure.paused && old(self).channel.state != ChannelState::Joined ==> r is Err && final(self).buffer@.len() == 0
                && final(self).outbox == old(self).outbox,
    {
        self.flush_batch_internal(false)
    }

    /// Flushes the buffer even under pause; used when closing the stream so
    /// no buffered measurement is lost.
    pub fn force_flush_batch(&mut self) -> (r: Result<bool, SensoctoError>)
        ensures
            final(self).channel == old(self).channel,
            final(self).sensor_id == old(self).sensor_id,
            final(self).config == old(self).config,
            final(self).backpressure == old(self).backpressure,
            old(self).buffer@.len() == 0 ==> (r matches Ok(sent) && !sent) && *final(self) == *old(self),
            old(self).buffer@.len() > 0 && old(self).channel.state == ChannelState::Joined ==> (r
                matches Ok(sent) && sent) && final(self).buffer@.len() == 0 && final(self).outbox@.len() == old(self).outbox@.len() + 1 && final(self).outbox@.drop_last()
                == old(self).outbox@ && (final(self).outbox@.last() matches PushRequest {
                topic,
                event,
                payload: p,
                wants_reply,
            } && topic@ == old(self).channel.topic@ && event@ == "measurements_batch"@
                && !wants_reply && p@ == spec_batch_json(old(self).buffer@)),
            old(self).buffer@.len() > 0 && old(self).channel.state != ChannelState::Joined ==> r
                is Err && final(self).buffer@.len() == 0 && final(self).outbox == old(self).outbox,
    {
        self.flush_batch_internal(true)
    }

    /// Updates the attribute registry: validates the id, then queues one
    /// `update_attributes` push with the action and optional metadata.
    pub fn update_attribute(
        &mut self,
        action: &str,
        attribute_id: &str,
        metadata: Option<JsonValue>,
    ) -> (r: Result<(), SensoctoError>)
        ensures
            final(self).channel == old(self).channel,
            final(self).sensor_id == old(self).sensor_id,
            final(self).config == old(self).config,
            final(self).buffer == old(self).buffer,
            final(self).backpressure == old(self).backpressure,
            !valid_attribute_id(attribute_id.spec_bytes()) ==> (r matches Err(e) && e
                matches SensoctoError::InvalidAttributeId(_)) && final(self).outbox == old(self).outbox,
            valid_attribute_id(attribute_id.spec_bytes()) && old(self).channel.state
                != ChannelState::Joined ==> (r matches Err(e) && e
                matches SensoctoError::ChannelNotJoined(t) && t@ == old(self).channel.topic@)
                && final(self).outbox == old(self).outbox,
            valid_attribute_id(attribute_id.spec_bytes()) && old(self).channel.state
                == ChannelState::Joined ==> r is Ok && final(self).outbox@.len() == old(self).outbox@.len() + 1 && final(self).outbox@.drop_last() == old(self).outbox@ && (final(self).outbox@.last() matches PushRequest { topic, event, payload: p, wants_reply } && topic@
                == old(self).channel.topic@ && event@ == "update_attributes"@ && !wants_reply && p@
                == spec_update_attribute_json(action@, attribute_id@, metadata)),
    {
        if let Err(e) = validate_attribute_id(attribute_id) {
            return Err(e);
        }
        let v0 = JsonValue::Str(action.to_owned());
        proof {
            assert(v0@ == JsonV::Str(action@));
        }
        let v1 = JsonValue::Str(attribute_id.to_owned());
        proof {
            assert(v1@ == JsonV::Str(attribute_id@));
        }
        let ghost metadata_arg = metadata;
        let v2 = match metadata {
            Some(m) => m,
            None => {
                let empty = JsonValue::Obj(Vec::new());
                proof {
                    assert(empty@->Obj_0 =~= Seq::<(Seq<char>, JsonV)>::empty());
                }
                empty
            },
        };
        let mut fields: Vec<(String, JsonValue)> = Vec::new();
        fields.push(("action".to_owned(), v0));
        fields.push(("attribute_id".to_owned(), v1));
        fields.push(("metadata".to_owned(), v2));
        let payload = JsonValue::Obj(fields);
        proof {
            let s = payload@->Obj_0;
            let target = spec_update_attribute_json(action@, attribute_id@, metadata_arg)->Obj_0;
            assert(s[0] == target[0]);
            assert(s[1] == target[1]);
            assert(s[2] == target[2]);
            assert(s =~= target);
            assert(payload@ == spec_update_attribute_json(action@, attribute_id@, metadata_arg));
        }
        match self.channel.push_no_reply_request("update_attributes", payload) {
            Ok(req) => {
                self.outbox.push(req);
                proof {
                    assert(self.outbox@.drop_last() =~= old(self).outbox@);
                }
                Ok(())
            },
            Err(e) => Err(e),
        }
    }

    /// Closes the stream: force-flushes whatever is buffered, so no
    /// buffered data is lost on shutdown, then leaves the channel.  Both
    /// halves are best-effort: on a channel that is not joined the buffer is
    /// still discarded (the flush cannot reach the wire, as in a failed
    /// flush) and nothing is sent, and the result is Ok either way.
    pub fn close(&mut self) -> (r: Result<(), SensoctoError>)
        ensures
            final(self).channel.topic@ == old(self).channel.topic@,
            final(self).channel.join_params@ == old(self).channel.join_params@,
            final(self).sensor_id == old(self).sensor_id,
            final(self).config == old(self).config,
            final(self).backpressure == old(self).backpressure,
            final(self).buffer@.len() == 0,
            final(self).channel.state != ChannelState::Joined,
            r is Ok,
            old(self).channel.state != ChannelState::Joined ==> final(self).outbox == old(self).outbox
                && final(self).channel.state == old(self).channel.state,
            old(self).channel.state == ChannelState::Joined ==> final(self).channel.state
                == ChannelState::Closed,
            old(self).channel.state == ChannelState::Joined && old(self).buffer@.len() > 0
                ==> final(self).outbox@.len() == old(self).outbox@.len() + 2 && final(self).outbox@.subrange(0, old(self).outbox@.len() as int) == old(self).outbox@ && (final(self).outbox@[old(self).outbox@.len() as int] matches PushRequest {
                topic,
                event,
                payload: p,
                wants_reply,
            } && topic@ == old(self).channel.topic@ && event@ == "measurements_batch"@ && p@
                == spec_batch_json(old(self).buffer@) && !wants_reply) && (final(self).outbox@.last() matches PushRequest { topic, event, payload: p, wants_reply } && topic@
                == old(self).channel.topic@ && event@ == "phx_leave"@ && p@ == JsonV::Obj(
                Seq::empty(),
            ) && wants_reply),
            old(self).channel.state == ChannelState::Joined && old(self).buffer@.len() == 0
                ==> final(self).outbox@.len() == old(self).outbox@.len() + 1 && final(self).outbox@.drop_last() == old(self).outbox@ && (final(self).outbox@.last()
                matches PushRequest { topic, event, payload: p, wants_reply } && topic@ == old(self).channel.topic@ && event@ == "phx_leave"@ && p@ == JsonV::Obj(Seq::empty())
                && wants_reply),
    {
        let ghost outbox_before = self.outbox@;
        let _ = self.flush_batch_internal(true);
        match self.channel.leave() {
            Some(req) => {
                self.outbox.push(req);
                proof {
                    if old(self).buffer@.len() > 0 {
                        assert(self.outbox@.subrange(0, outbox_before.len() as int)
                            =~= outbox_before);
                    } else {
                        assert(self.outbox@.drop_last() =~= outbox_before);
                    }
                }
            },
            None => {},
        }
        Ok(())
    }
}

/// The wire form of an attribute registry update.
pub open spec fn spec_update_attribute_json(
    action: Seq<char>,
    attribute_id: Seq<char>,
    metadata: Option<JsonValue>,
) -> JsonV {
    JsonV::Obj(
        seq![
            ("action"@, JsonV::Str(action)),
            ("attribute_id"@, JsonV::Str(attribute_id)),
            (
                "metadata"@,
                match metadata {
                    Some(m) => m@,
                    None => JsonV::Obj(Seq::empty()),
                },
            ),
        ],
    )
}

} // verus!
