//! The call session: a signaling overlay on a channel.
//!
//! It tracks the in-call flag and endpoint id, translates inbound generic
//! events into typed call events (decoding fields defensively), and guards
//! every call-control operation on the in-call state.  Decided frames queue
//! in its outbox, which the surrounding transport drains.

use vstd::prelude::*;
use crate::channel::{PhoenixChannel, PushRequest};
use crate::error::SensoctoError;
use crate::json::{json_view, spec_get, JsonV, JsonValue};
use crate::models::{CallEvent, CallParticipant, CallParticipantV, ChannelState};
use crate::text::str_eq;

verus! {

/// A payload field read as a string, empty when absent or of another shape.
pub open spec fn spec_str_field_or_empty(p: JsonV, key: Seq<char>) -> Seq<char> {
    match spec_get(p, key) {
        Some(JsonV::Str(s)) => s,
        _ => Seq::empty(),
    }
}

/// A payload field read as a boolean, false when absent or of another shape.
pub open spec fn spec_bool_field_or_false(p: JsonV, key: Seq<char>) -> bool {
    match spec_get(p, key) {
        Some(JsonV::Bool(b)) => b,
        _ => false,
    }
}

/// Reads a string field, defaulting to empty.
fn str_field_or_empty(p: &JsonValue, key: &str) -> (r: String)
    ensures
        r@ == spec_str_field_or_empty(p@, key@),
{
    match p.get(key) {
        Some(v) => match v.as_str() {
            Some(s) => s.clone(),
            None => String::new(),
        },
        None => String::new(),
    }
}

/// Reads a boolean field, defaulting to false.
fn bool_field_or_false(p: &JsonValue, key: &str) -> (r: bool)
    ensures
        r == spec_bool_field_or_false(p@, key@),
{
    match p.get(key) {
        Some(v) => match v.as_bool() {
            Some(b) => b,
            None => false,
        },
        None => false,
    }
}

/// The participant a payload denotes, when well-formed: `user_id` and
/// `endpoint_id` are required strings; `user_info` defaults to an empty
/// object, `joined_at` to absent, the media flags to false.  A present
/// field of the wrong shape makes the whole payload ill-formed.
pub open spec fn spec_participant_of(p: JsonV) -> Option<CallParticipantV> {
    let user_id = match spec_get(p, "user_id"@) {
        Some(JsonV::Str(s)) => Some(s),
        _ => None,
    };
    let endpoint_id = match spec_get(p, "endpoint_id"@) {
        Some(JsonV::Str(s)) => Some(s),
        _ => None,
    };
    let user_info = match spec_get(p, "user_info"@) {
        Some(JsonV::Obj(fs)) => Some(JsonV::Obj(fs)),
        Some(_) => None,
        None => Some(JsonV::Obj(Seq::empty())),
    };
    let joined_at = match spec_get(p, "joined_at"@) {
        Some(JsonV::Str(s)) => Some(Some(s)),
        Some(JsonV::Null) => Some(None),
        Some(_) => None,
        None => Some(None),
    };
    let audio_enabled = match spec_get(p, "audio_enabled"@) {
        Some(JsonV::Bool(b)) => Some(b),
        Some(_) => None,
        None => Some(false),
    };
    let video_enabled = match spec_get(p, "video_enabled"@) {
        Some(JsonV::Bool(b)) => Some(b),
        Some(_) => None,
        None => Some(false),
    };
    if user_id is Some && endpoint_id is Some && user_info is Some && joined_at is Some
        && audio_enabled is Some && video_enabled is Some {
        Some(
            CallParticipantV {
                user_id: user_id->0,
                endpoint_id: endpoint_id->0,
                user_info: user_info->0,
                joined_at: joined_at->0,
                audio_enabled: audio_enabled->0,
                video_enabled: video_enabled->0,
            },
        )
    } else {
        None
    }
}

/// Decodes a participant payload; exactly the well-formed ones are accepted.
pub fn participant_of_json(p: &JsonValue) -> (r: Option<CallParticipant>)
    ensures
        match r {
            Some(part) => spec_participant_of(p@) == Some(part@),
            None => spec_participant_of(p@) is None,
        },
{
    let user_id: Option<String> = match p.get("user_id") {
        Some(v) => match v.as_str() {
            Some(s) => Some(s.clone()),
            None => None,
        },
        None => None,
    };
    let endpoint_id: Option<String> = match p.get("endpoint_id") {
        Some(v) => match v.as_str() {
            Some(s) => Some(s.clone()),
            None => None,
        },
        None => None,
    };
    let user_info: Option<JsonValue> = match p.get("user_info") {
        Some(v) => match v.as_obj() {
            Some(_) => Some(v.deep_clone()),
            None => None,
        },
        None => {
            let empty = JsonValue::Obj(Vec::new());
            proof {
                assert(empty@->Obj_0 =~= Seq::<(Seq<char>, JsonV)>::empty());
            }
            Some(empty)
        },
    };
    let joined_at: Option<Option<String>> = match p.get("joined_at") {
        Some(v) => match v.as_str() {
            Some(s) => Some(Some(s.clone())),
            None => match v {
                JsonValue::Null => Some(None),
                _ => None,
            },
        },
        None => Some(None),
    };
    let audio_enabled: Option<bool> = match p.get("audio_enabled") {
        Some(v) => match v.as_bool() {
            Some(b) => Some(b),
            None => None,
        },
        None => Some(false),
    };
    let video_enabled: Option<bool> = match p.get("video_enabled") {
        Some(v) => match v.as_bool() {
            Some(b) => Some(b),
            None => None,
        },
        None => Some(false),
    };
    match (user_id, endpoint_id, user_info, joined_at, audio_enabled, video_enabled) {
        (Some(user_id), Some(endpoint_id), Some(user_info), Some(joined_at), Some(audio_enabled), Some(video_enabled)) => Some(
            CallParticipant {
                user_id,
                endpoint_id,
                user_info,
                joined_at,
                audio_enabled,
                video_enabled,
            },
        ),
        _ => None,
    }
}

/// The participants a `get_participants` response denotes: the entries of
/// its `participants` object, each decoded; an absent or malformed map
/// yields no participants.
pub open spec fn spec_participants_of(resp: JsonV) -> Seq<(Seq<char>, CallParticipantV)> {
    match spec_get(resp, "participants"@) {
        Some(JsonV::Obj(fs)) => if forall|i: int|
            0 <= i < fs.len() ==> spec_participant_of((#[trigger] fs[i]).1) is Some {
            Seq::new(fs.len(), |i: int| (fs[i].0, spec_participant_of(fs[i].1)->0))
        } else {
            Seq::empty()
        },
        _ => Seq::empty(),
    }
}

/// Decodes a `get_participants` response.
pub fn parse_participants(response: &JsonValue) -> (r: Vec<(String, CallParticipant)>)
    ensures
        r@.len() == spec_participants_of(response@).len(),
        forall|i: int|
            0 <= i < r@.len() ==> ((#[trigger] r@[i]).0@, r@[i].1@) == spec_participants_of(
                response@,
            )[i],
{
    let fields = match response.get("participants") {
        Some(v) => match v.as_obj() {
            Some(fields) => fields,
            None => {
                return Vec::new();
            },
        },
        None => {
            return Vec::new();
        },
    };
    let ghost fs = spec_get(response@, "participants"@)->Some_0->Obj_0;
    let n = fields.len();
    let mut out: Vec<(String, CallParticipant)> = Vec::new();
    let mut i: usize = 0;
    while i < n
        invariant
            n == fields@.len(),
            i <= n,
            spec_get(response@, "participants"@) == Some(JsonV::Obj(fs)),
            fs.len() == n,
            forall|j: int| 0 <= j < n ==> fs[j] == ((#[trigger] fields@[j]).0@, json_view(
                fields@[j].1,
            )),
            out@.len() == i,
            forall|j: int| 0 <= j < i ==> spec_participant_of(fs[j].1) is Some,
            forall|j: int|
                0 <= j < i ==> ((#[trigger] out@[j]).0@, out@[j].1@) == (
                    fs[j].0,
                    spec_participant_of(fs[j].1)->0,
                ),
        decreases n - i,
    {
        match participant_of_json(&fields[i].1) {
            Some(part) => {
                out.push((fields[i].0.clone(), part));
            },
            None => {
                proof {
                    assert(spec_participant_of(fs[i as int].1) is None);
                }
                return Vec::new();
            },
        }
        i = i + 1;
    }
    out
}

/// The ICE servers a join response carries, empty when absent or not an
/// array.
pub open spec fn spec_ice_servers_of(resp: JsonV) -> Seq<JsonV> {
    match spec_get(resp, "ice_servers"@) {
        Some(JsonV::Arr(s)) => s,
        _ => Seq::empty(),
    }
}

/// Extracts the ICE servers from a join response.
pub fn ice_servers_of_response(response: &JsonValue) -> (r: Vec<JsonValue>)
    ensures
        r.deep_view() == spec_ice_servers_of(response@),
{
    match response.get("ice_servers") {
        Some(v) => match v.as_array() {
            Some(items) => {
                let n = items.len();
                let mut out: Vec<JsonValue> = Vec::new();
                let mut i: usize = 0;
                while i < n
                    invariant
                        n == items@.len(),
                        i <= n,
                        out@.len() == i,
                        forall|j: int| 0 <= j < i ==> json_view(#[trigger] out@[j]) == json_view(
                            items@[j],
                        ),
                    decreases n - i,
                {
                    out.push(items[i].deep_clone());
                    i = i + 1;
                }
                proof {
                    assert(out.deep_view() =~= items.deep_view());
                }
                out
            },
            None => {
                let r = Vec::new();
                proof {
                    assert(r.deep_view() =~= Seq::<JsonV>::empty());
                }
                r
            },
        },
        None => {
            let r = Vec::new();
            proof {
                assert(r.deep_view() =~= Seq::<JsonV>::empty());
            }
            r
        },
    }
}

/// The verified state of one call session.
#[derive(Debug)]
pub struct CallSession {
    /// The channel this session signals on.
    pub channel: PhoenixChannel,
    /// The call room.
    pub room_id: String,
    /// This client's user id.
    pub user_id: String,
    /// The ICE servers handed out on join.
    pub ice_servers: Vec<JsonValue>,
    /// Whether this client is in the call.
    pub in_call: bool,
    /// The endpoint id captured from the join response, if any.
    pub endpoint_id: Option<String>,
    /// Frames decided but not yet on the wire; the transport drains this.
    pub outbox: Vec<PushRequest>,
}

impl CallSession {
    /// A fresh session over a channel, not yet in the call.
    pub fn new(channel: PhoenixChannel, room_id: String, user_id: String, ice_servers: Vec<
        JsonValue,
    >) -> (r: Self)
        ensures
            r.channel == channel,
            r.room_id@ == room_id@,
            r.user_id@ == user_id@,
            r.ice_servers == ice_servers,
            !r.in_call,
            r.endpoint_id is None,
            r.outbox@.len() == 0,
    {
        CallSession {
            channel,
            room_id,
            user_id,
            ice_servers,
            in_call: false,
            endpoint_id: None,
            outbox: Vec::new(),
        }
    }

    /// The room ID.
    pub fn room_id(&self) -> (r: &str)
        ensures
            r@ == self.room_id@,
    {
        self.room_id.as_str()
    }

    /// The user ID.
    pub fn user_id(&self) -> (r: &str)
        ensures
            r@ == self.user_id@,
    {
        self.user_id.as_str()
    }

    /// Whether the user is in the call.
    pub fn in_call(&self) -> (r: bool)
        ensures
            r == self.in_call,
    {
        self.in_call
    }

    /// The endpoint ID, if the join response carried one.
    pub fn endpoint_id(&self) -> (r: Option<String>)
        ensures
            match (r, self.endpoint_id) {
                (Some(a), Some(b)) => a@ == b@,
                (None, None) => true,
                _ => false,
            },
    {
        match &self.endpoint_id {
            Some(s) => Some(s.clone()),
            None => None,
        }
    }

    /// The ICE servers handed out on join.
    pub fn ice_servers(&self) -> (r: &Vec<JsonValue>)
        ensures
            r == self.ice_servers,
    {
        &self.ice_servers
    }

    /// Decides the `join_call` push.
    pub fn join_call_request(&self) -> (r: Result<PushRequest, SensoctoError>)
        ensures
            r is Ok <==> self.channel.state == ChannelState::Joined,
            r matches Ok(req) ==> req.topic@ == self.channel.topic@ && req.event@ == "join_call"@
                && req.payload@ == JsonV::Obj(Seq::empty()) && req.wants_reply,
            self.channel.state != ChannelState::Joined ==> (r matches Err(e) && e
                matches SensoctoError::ChannelNotJoined(t) && t@ == self.channel.topic@),
    {
        let payload = JsonValue::Obj(Vec::new());
        proof {
            assert(payload@->Obj_0 =~= Seq::<(Seq<char>, JsonV)>::empty());
        }
        self.channel.push_request("join_call", payload)
    }

    /// Applies a successful `join_call` response: in-call is set, and the
    /// endpoint id is captured when the response carries one.
    pub fn join_call_apply(&mut self, response: JsonValue) -> (r: JsonValue)
        ensures
            final(self).channel == old(self).channel,
            final(self).room_id == old(self).room_id,
            final(self).user_id == old(self).user_id,
            final(self).ice_servers == old(self).ice_servers,
            final(self).outbox == old(self).outbox,
            final(self).in_call,
            (match spec_get(response@, "endpoint_id"@) {
                Some(JsonV::Str(s)) => final(self).endpoint_id matches Some(e) && e@ == s,
                _ => final(self).endpoint_id == old(self).endpoint_id,
            }),
            r == response,
    {
        self.in_call = true;
        match response.get("endpoint_id") {
            Some(v) => match v.as_str() {
                Some(s) => {
                    self.endpoint_id = Some(s.clone());
                },
                None => {},
            },
            None => {},
        }
        response
    }

    /// Decides the `leave_call` push: nothing to do when not in the call.
    pub fn leave_call_request(&self) -> (r: Result<Option<PushRequest>, SensoctoError>)
        ensures
            !self.in_call ==> (r matches Ok(o) && o is None),
            self.in_call && self.channel.state == ChannelState::Joined ==> (r matches Ok(o) && o
                matches Some(req) && req.topic@ == self.channel.topic@ && req.event@
                == "leave_call"@ && req.payload@ == JsonV::Obj(Seq::empty()) && req.wants_reply),
            self.in_call && self.channel.state != ChannelState::Joined ==> (r matches Err(e) && e
                matches SensoctoError::ChannelNotJoined(t) && t@ == self.channel.topic@),
    {
        if !self.in_call {
            return Ok(None);
        }
        let payload = JsonValue::Obj(Vec::new());
        proof {
            assert(payload@->Obj_0 =~= Seq::<(Seq<char>, JsonV)>::empty());
        }
        match self.channel.push_request("leave_call", payload) {
            Ok(req) => Ok(Some(req)),
            Err(e) => Err(e),
        }
    }

    /// Applies a completed leave: the in-call flag and endpoint id fall.
    pub fn leave_call_finish(&mut self)
        ensures
            final(self).channel == old(self).channel,
            final(self).room_id == old(self).room_id,
            final(self).user_id == old(self).user_id,
            final(self).ice_servers == old(self).ice_servers,
            final(self).outbox == old(self).outbox,
            !final(self).in_call,
            final(self).endpoint_id is None,
    {
        self.in_call = false;
        self.endpoint_id = None;
    }

    /// Queues a media event (signaling data); requires the in-call state.
    pub fn send_media_event(&mut self, data: JsonValue) -> (r: Result<(), SensoctoError>)
        ensures
            final(self).channel == old(self).channel,
            final(self).room_id == old(self).room_id,
            final(self).user_id == old(self).user_id,
            final(self).ice_servers == old(self).ice_servers,
            final(self).in_call == old(self).in_call,
            final(self).endpoint_id == old(self).endpoint_id,
            !old(self).in_call ==> (r matches Err(e) && e matches SensoctoError::Other(m) && m@
                == "Not in call"@) && final(self).outbox == old(self).outbox,
            old(self).in_call && old(self).channel.state != ChannelState::Joined ==> (r
                matches Err(e) && e matches SensoctoError::ChannelNotJoined(t) && t@ == old(self).channel.topic@) && final(self).outbox == old(self).outbox,
            old(self).in_call && old(self).channel.state == ChannelState::Joined ==> r is Ok
                && final(self).outbox@.len() == old(self).outbox@.len() + 1 && final(self).outbox@.drop_last() == old(self).outbox@ && (final(self).outbox@.last()
                matches PushRequest { topic, event, payload, wants_reply } && topic@ == old(self).channel.topic@ && event@ == "media_event"@ && payload@ == JsonV::Obj(
                seq![("data"@, data@)],
            ) && !wants_reply),
    {
        if !self.in_call {
            return Err(SensoctoError::Other("Not in call".to_owned()));
        }
        let ghost data_view = data@;
        let mut fields: Vec<(String, JsonValue)> = Vec::new();
        fields.push(("data".to_owned(), data));
        let payload = JsonValue::Obj(fields);
        proof {
            let s = payload@->Obj_0;
            let target = seq![("data"@, data_view)];
            assert(s[0] == target[0]);
            assert(s =~= target);
        }
        match self.channel.push_no_reply_request("media_event", payload) {
            Ok(req) => {
                self.outbox.push(req);
                proof {
                    assert(self.outbox@.drop_last() =~= old(self).outbox@);
                }
                Ok(())
            },
            Err(e) => Err(e),
        }
    }

    /// Queues a `toggle_audio` push; requires the in-call state.
    pub fn toggle_audio(&mut self, enabled: bool) -> (r: Result<(), SensoctoError>)
        ensures
            final(self).channel == old(self).channel,
            final(self).room_id == old(self).room_id,
            final(self).user_id == old(self).user_id,
            final(self).ice_servers == old(self).ice_servers,
            final(self).in_call == old(self).in_call,
            final(self).endpoint_id == old(self).endpoint_id,
            !old(self).in_call ==> (r matches Err(e) && e matches SensoctoError::Other(m) && m@
                == "Not in call"@) && final(self).outbox == old(self).outbox,
            old(self).in_call && old(self).channel.state != ChannelState::Joined ==> (r
                matches Err(e) && e matches SensoctoError::ChannelNotJoined(t) && t@ == old(self).channel.topic@) && final(self).outbox == old(self).outbox,
            old(self).in_call && old(self).channel.state == ChannelState::Joined ==> r is Ok
                && final(self).outbox@.len() == old(self).outbox@.len() + 1 && final(self).outbox@.drop_last() == old(self).outbox@ && (final(self).outbox@.last()
                matches PushRequest { topic, event, payload, wants_reply } && topic@ == old(self).channel.topic@ && event@ == "toggle_audio"@ && payload@ == JsonV::Obj(
                seq![("enabled"@, JsonV::Bool(enabled))],
            ) && wants_reply),
    {
        if !self.in_call {
            return Err(SensoctoError::Other("Not in call".to_owned()));
        }
        let vb = JsonValue::Bool(enabled);
        proof {
            assert(vb@ == JsonV::Bool(enabled));
        }
        let mut fields: Vec<(String, JsonValue)> = Vec::new();
        fields.push(("enabled".to_owned(), vb));
        let payload = JsonValue::Obj(fields);
        proof {
            let s = payload@->Obj_0;
            let target = seq![("enabled"@, JsonV::Bool(enabled))];
            assert(s[0] == target[0]);
            assert(s =~= target);
        }
        match self.channel.push_request("toggle_audio", payload) {
            Ok(req) => {
                self.outbox.push(req);
                proof {
                    assert(self.outbox@.drop_last() =~= old(self).outbox@);
                }
                Ok(())
            },
            Err(e) => Err(e),
        }
    }

    /// Queues a `toggle_video` push; requires the in-call state.
    pub fn toggle_video(&mut self, enabled: bool) -> (r: Result<(), SensoctoError>)
        ensures
            final(self).channel == old(self).channel,
            final(self).room_id == old(self).room_id,
            final(self).user_id == old(self).user_id,
            final(self).ice_servers == old(self).ice_servers,
            final(self).in_call == old(self).in_call,
            final(self).endpoint_id == old(self).endpoint_id,
            !old(self).in_call ==> (r matches Err(e) && e matches SensoctoError::Other(m) && m@
                == "Not in call"@) && final(self).outbox == old(self).outbox,
            old(self).in_call && old(self).channel.state != ChannelState::Joined ==> (r
                matches Err(e) && e matches SensoctoError::ChannelNotJoined(t) && t@ == old(self).channel.topic@) && final(self).outbox == old(self).outbox,
            old(self).in_call && old(self).channel.state == ChannelState::Joined ==> r is Ok
                && final(self).outbox@.len() == old(self).outbox@.len() + 1 && final(self).outbox@.drop_last() == old(self).outbox@ && (final(self).outbox@.last()
                matches PushRequest { topic, event, payload, wants_reply } && topic@ == old(self).channel.topic@ && event@ == "toggle_video"@ && payload@ == JsonV::Obj(
                seq![("enabled"@, JsonV::Bool(enabled))],
            ) && wants_reply),
    {
        if !self.in_call {
            return Err(SensoctoError::Other("Not in call".to_owned()));
        }
        let vb = JsonValue::Bool(enabled);
        proof {
            assert(vb@ == JsonV::Bool(enabled));
        }
        let mut fields: Vec<(String, JsonValue)> = Vec::new();
        fields.push(("enabled".to_owned(), vb));
        let payload = JsonValue::Obj(fields);
        proof {
            let s = payload@->Obj_0;
            let target = seq![("enabled"@, JsonV::Bool(enabled))];
            assert(s[0] == target[0]);
            assert(s =~= target);
        }
        match self.channel.push_request("toggle_video", payload) {
            Ok(req) => {
                self.outbox.push(req);
                proof {
                    assert(self.outbox@.drop_last() =~= old(self).outbox@);
                }
                Ok(())
            },
            Err(e) => Err(e),
        }
    }

    /// Queues a `set_quality` push; requires the in-call state.
    pub fn set_quality(&mut self, quality: &str) -> (r: Result<(), SensoctoError>)
        ensures
            final(self).channel == old(self).channel,
            final(self).room_id == old(self).room_id,
            final(self).user_id == old(self).user_id,
            final(self).ice_servers == old(self).ice_servers,
            final(self).in_call == old(self).in_call,
            final(self).endpoint_id == old(self).endpoint_id,
            !old(self).in_call ==> (r matches Err(e) && e matches SensoctoError::Other(m) && m@
                == "Not in call"@) && final(self).outbox == old(self).outbox,
            old(self).in_call && old(self).channel.state != ChannelState::Joined ==> (r
                matches Err(e) && e matches SensoctoError::ChannelNotJoined(t) && t@ == old(self).channel.topic@) && final(self).outbox == old(self).outbox,
            old(self).in_call && old(self).channel.state == ChannelState::Joined ==> r is Ok
                && final(self).outbox@.len() == old(self).outbox@.len() + 1 && final(self).outbox@.drop_last() == old(self).outbox@ && (final(self).outbox@.last()
                matches PushRequest { topic, event, payload, wants_reply } && topic@ == old(self).channel.topic@ && event@ == "set_quality"@ && payload@ == JsonV::Obj(
                seq![("quality"@, JsonV::Str(quality@))],
            ) && wants_reply),
    {
        if !self.in_call {
            return Err(SensoctoError::Other("Not in call".to_owned()));
        }
        let vq = JsonValue::Str(quality.to_owned());
        proof {
            assert(vq@ == JsonV::Str(quality@));
        }
        let mut fields: Vec<(String, JsonValue)> = Vec::new();
        fields.push(("quality".to_owned(), vq));
        let payload = JsonValue::Obj(fields);
        proof {
            let s = payload@->Obj_0;
            let target = seq![("quality"@, JsonV::Str(quality@))];
            assert(s[0] == target[0]);
            assert(s =~= target);
        }
        match self.channel.push_request("set_quality", payload) {
            Ok(req) => {
                self.outbox.push(req);
                proof {
                    assert(self.outbox@.drop_last() =~= old(self).outbox@);
                }
                Ok(())
            },
            Err(e) => Err(e),
        }
    }

    /// Decides the `get_participants` push; requires the in-call state.
    pub fn get_participants_request(&self) -> (r: Result<PushRequest, SensoctoError>)
        ensures
            !self.in_call ==> (r matches Err(e) && e matches SensoctoError::Other(m) && m@
                == "Not in call"@),
            self.in_call && self.channel.state != ChannelState::Joined ==> (r matches Err(e) && e
                matches SensoctoError::ChannelNotJoined(t) && t@ == self.channel.topic@),
            self.in_call && self.channel.state == ChannelState::Joined ==> (r matches Ok(req)
                && req.topic@ == self.channel.topic@ && req.event@ == "get_participants"@
                && req.payload@ == JsonV::Obj(Seq::empty()) && req.wants_reply),
    {
        if !self.in_call {
            return Err(SensoctoError::Other("Not in call".to_owned()));
        }
        let payload = JsonValue::Obj(Vec::new());
        proof {
            assert(payload@->Obj_0 =~= Seq::<(Seq<char>, JsonV)>::empty());
        }
        self.channel.push_request("get_participants", payload)
    }

    /// Translates one inbound wire event into a typed call event.  Fields
    /// are decoded defensively: absent or malformed strings fall back to
    /// empty, flags to false.  Unrecognized events yield nothing.
    pub fn handle_event(&self, event: &str, payload: &JsonValue) -> (r: Option<CallEvent>)
        ensures
            event@ == "participant_joined"@ ==> (match spec_participant_of(payload@) {
                Some(pv) => r matches Some(e) && (e matches CallEvent::ParticipantJoined(p) && p@
                    == pv),
                None => r is None,
            }),
            event@ == "participant_left"@ ==> (r matches Some(e) && e
                matches CallEvent::ParticipantLeft { user_id, crashed } && user_id@
                == spec_str_field_or_empty(payload@, "user_id"@) && crashed
                == spec_bool_field_or_false(payload@, "crashed"@)),
            event@ == "media_event"@ ==> (match spec_get(payload@, "data"@) {
                Some(d) => r matches Some(e) && (e matches CallEvent::MediaEvent(v) && v@ == d),
                None => r is None,
            }),
            event@ == "participant_audio_changed"@ ==> (r matches Some(e) && e
                matches CallEvent::ParticipantAudioChanged { user_id, enabled } && user_id@
                == spec_str_field_or_empty(payload@, "user_id"@) && enabled
                == spec_bool_field_or_false(payload@, "audio_enabled"@)),
            event@ == "participant_video_changed"@ ==> (r matches Some(e) && e
                matches CallEvent::ParticipantVideoChanged { user_id, enabled } && user_id@
                == spec_str_field_or_empty(payload@, "user_id"@) && enabled
                == spec_bool_field_or_false(payload@, "video_enabled"@)),
            event@ == "quality_changed"@ ==> (match spec_get(payload@, "quality"@) {
                Some(JsonV::Str(q)) => r matches Some(e) && (e matches CallEvent::QualityChanged(s)
                    && s@ == q),
                _ => r is None,
            }),
            event@ == "call_ended"@ ==> (r matches Some(e) && e is CallEnded),
            event@ != "participant_joined"@ && event@ != "participant_left"@ && event@
                != "media_event"@ && event@ != "participant_audio_changed"@ && event@
                != "participant_video_changed"@ && event@ != "quality_changed"@ && event@
                != "call_ended"@ ==> r is None,
    {
        proof {
            reveal_strlit("participant_joined");
            reveal_strlit("participant_left");
            reveal_strlit("media_event");
            reveal_strlit("participant_audio_changed");
            reveal_strlit("participant_video_changed");
            reveal_strlit("quality_changed");
            reveal_strlit("call_ended");
            assert("participant_joined"@.len() == 18);
            assert("participant_left"@.len() == 16);
            assert("media_event"@.len() == 11);
            assert("participant_audio_changed"@.len() == 25);
            assert("participant_video_changed"@.len() == 25);
            assert("quality_changed"@.len() == 15);
            assert("call_ended"@.len() == 10);
            assert("participant_audio_changed"@[12] == 'a');
            assert("participant_video_changed"@[12] == 'v');
        }
        if str_eq(event, "participant_joined") {
            match participant_of_json(payload) {
                Some(p) => Some(CallEvent::ParticipantJoined(p)),
                None => None,
            }
        } else if str_eq(event, "participant_left") {
            let user_id = str_field_or_empty(payload, "user_id");
            let crashed = bool_field_or_false(payload, "crashed");
            Some(CallEvent::ParticipantLeft { user_id, crashed })
        } else if str_eq(event, "media_event") {
            match payload.get("data") {
                Some(d) => Some(CallEvent::MediaEvent(d.deep_clone())),
                None => None,
            }
        } else if str_eq(event, "participant_audio_changed") {
            let user_id = str_field_or_empty(payload, "user_id");
            let enabled = bool_field_or_false(payload, "audio_enabled");
            Some(CallEvent::ParticipantAudioChanged { user_id, enabled })
        } else if str_eq(event, "participant_video_changed") {
            let user_id = str_field_or_empty(payload, "user_id");
            let enabled = bool_field_or_false(payload, "video_enabled");
            Some(CallEvent::ParticipantVideoChanged { user_id, enabled })
        } else if str_eq(event, "quality_changed") {
            match payload.get("quality") {
                Some(v) => match v.as_str() {
                    Some(q) => Some(CallEvent::QualityChanged(q.clone())),
                    None => None,
                },
                None => None,
            }
        } else if str_eq(event, "call_ended") {
            Some(CallEvent::CallEnded)
        } else {
            None
        }
    }
}

} // verus!
