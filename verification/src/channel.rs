//! The per-topic channel: a membership state machine over the session.
//!
//! The channel decides which frames may go out; putting them on the wire and
//! collecting replies is the surrounding transport's work, so operations come
//! in request/reply halves.

use vstd::prelude::*;
use vstd::string::StringSliceAdditionalSpecFns;
use crate::error::SensoctoError;
use crate::json::{JsonV, JsonValue};
use crate::models::{ChannelState, PhoenixReply};
use crate::text::str_eq;

verus! {

/// An outbound push decided by a channel: the frame the transport must send.
#[derive(Debug)]
pub struct PushRequest {
    pub topic: String,
    pub event: String,
    pub payload: JsonValue,
    /// Whether a reply is awaited (request/reply) or not (fire-and-forget).
    pub wants_reply: bool,
}

/// The verified state of one channel.
#[derive(Debug)]
pub struct PhoenixChannel {
    /// The topic this channel is a membership of.
    pub topic: String,
    /// The parameters sent with the join request, captured at construction.
    pub join_params: JsonValue,
    /// Membership state.
    pub state: ChannelState,
}

impl PhoenixChannel {
    /// A closed channel for `topic` with the given join parameters.
    pub fn new(topic: String, join_params: JsonValue) -> (r: Self)
        ensures
            r.topic@ == topic@,
            r.join_params@ == join_params@,
            r.state == ChannelState::Closed,
    {
        PhoenixChannel { topic, join_params, state: ChannelState::Closed }
    }

    /// The channel topic.
    pub fn topic(&self) -> (r: &str)
        ensures
            r@ == self.topic@,
    {
        self.topic.as_str()
    }

    /// Whether the channel is joined.
    pub fn is_joined(&self) -> (r: bool)
        ensures
            r == (self.state == ChannelState::Joined),
    {
        match self.state {
            ChannelState::Joined => true,
            _ => false,
        }
    }

    /// Begins a join: moves to Joining and yields the join frame, carrying
    /// the parameters captured at construction.
    pub fn join_request(&mut self) -> (r: PushRequest)
        ensures
            final(self).state == ChannelState::Joining,
            final(self).topic@ == old(self).topic@,
            final(self).join_params@ == old(self).join_params@,
            r.topic@ == old(self).topic@,
            r.event@ == "phx_join"@,
            r.payload@ == old(self).join_params@,
            r.wants_reply,
    {
        self.state = ChannelState::Joining;
        PushRequest {
            topic: self.topic.clone(),
            event: "phx_join".to_owned(),
            payload: self.join_params.deep_clone(),
            wants_reply: true,
        }
    }

    /// Applies the server's reply to a join: `"ok"` joins the channel and
    /// returns the response; anything else moves to Errored and fails with
    /// the topic and the response as reason.
    pub fn join_reply(&mut self, reply: PhoenixReply) -> (r: Result<JsonValue, SensoctoError>)
        ensures
            final(self).topic@ == old(self).topic@,
            final(self).join_params@ == old(self).join_params@,
            reply.status@ == "ok"@ ==> final(self).state == ChannelState::Joined && (r matches Ok(
                v,
            ) && v@ == reply.response@),
            reply.status@ != "ok"@ ==> final(self).state == ChannelState::Errored && (r
                matches Err(e) && e matches SensoctoError::ChannelJoinFailed { topic, reason }
                && topic@ == old(self).topic@ && reason@ == reply.response@),
    {
        if str_eq(reply.status.as_str(), "ok") {
            self.state = ChannelState::Joined;
            Ok(reply.response)
        } else {
            self.state = ChannelState::Errored;
            Err(
                SensoctoError::ChannelJoinFailed {
                    topic: self.topic.clone(),
                    reason: reply.response,
                },
            )
        }
    }

    /// Leaves the channel.  A channel that is not joined is left as it is;
    /// a joined one closes and yields the leave frame, which is sent
    /// best-effort (a failure to send it must not fail the caller).
    pub fn leave(&mut self) -> (r: Option<PushRequest>)
        ensures
            final(self).topic@ == old(self).topic@,
            final(self).join_params@ == old(self).join_params@,
            old(self).state != ChannelState::Joined ==> r is None && *final(self) == *old(self),
            old(self).state == ChannelState::Joined ==> final(self).state == ChannelState::Closed
                && (r matches Some(req) && req.topic@ == old(self).topic@ && req.event@
                == "phx_leave"@ && req.payload@ == JsonV::Obj(Seq::empty()) && req.wants_reply),
    {
        match self.state {
            ChannelState::Joined => {
                self.state = ChannelState::Leaving;
                let payload = JsonValue::Obj(Vec::new());
                proof {
                    assert(payload@->Obj_0 =~= Seq::<(Seq<char>, JsonV)>::empty());
                }
                let req = PushRequest {
                    topic: self.topic.clone(),
                    event: "phx_leave".to_owned(),
                    payload,
                    wants_reply: true,
                };
                self.state = ChannelState::Closed;
                Some(req)
            },
            _ => None,
        }
    }

    /// Decides a request/reply push: only a joined channel produces a frame;
    /// otherwise the push fails with ChannelNotJoined and nothing reaches
    /// the wire.
    pub fn push_request(&self, event: &str, payload: JsonValue) -> (r: Result<
        PushRequest,
        SensoctoError,
    >)
        ensures
            r is Ok <==> self.state == ChannelState::Joined,
            r matches Ok(req) ==> req.topic@ == self.topic@ && req.event@ == event@ && req.payload@
                == payload@ && req.wants_reply,
            self.state != ChannelState::Joined ==> (r matches Err(e) && e
                matches SensoctoError::ChannelNotJoined(t) && t@ == self.topic@),
    {
        match self.state {
            ChannelState::Joined => Ok(
                PushRequest {
                    topic: self.topic.clone(),
                    event: event.to_owned(),
                    payload,
                    wants_reply: true,
                },
            ),
            _ => Err(SensoctoError::ChannelNotJoined(self.topic.clone())),
        }
    }

    /// Decides a fire-and-forget push, under the same joined-state guard.
    pub fn push_no_reply_request(&self, event: &str, payload: JsonValue) -> (r: Result<
        PushRequest,
        SensoctoError,
    >)
        ensures
            r is Ok <==> self.state == ChannelState::Joined,
            r matches Ok(req) ==> req.topic@ == self.topic@ && req.event@ == event@ && req.payload@
                == payload@ && !req.wants_reply,
            self.state != ChannelState::Joined ==> (r matches Err(e) && e
                matches SensoctoError::ChannelNotJoined(t) && t@ == self.topic@),
    {
        match self.state {
            ChannelState::Joined => Ok(
                PushRequest {
                    topic: self.topic.clone(),
                    event: event.to_owned(),
                    payload,
                    wants_reply: false,
                },
            ),
            _ => Err(SensoctoError::ChannelNotJoined(self.topic.clone())),
        }
    }

    /// Applies the server's reply to a push: `"ok"` yields the response, any
    /// other status is a server error carrying the response body.
    pub fn push_reply(&self, reply: PhoenixReply) -> (r: Result<JsonValue, SensoctoError>)
        ensures
            reply.status@ == "ok"@ ==> (r matches Ok(v) && v@ == reply.response@),
            reply.status@ != "ok"@ ==> (r matches Err(e) && e matches SensoctoError::ServerError(
                body,
            ) && body@ == reply.response@),
    {
        if str_eq(reply.status.as_str(), "ok") {
            Ok(reply.response)
        } else {
            Err(SensoctoError::ServerError(reply.response))
        }
    }
}

/// An uppercase or lowercase ASCII letter.
pub open spec fn is_letter_byte(b: u8) -> bool {
    (65 <= b <= 90) || (97 <= b <= 122)
}

/// A byte allowed in an attribute id: letter, digit, underscore or hyphen.
pub open spec fn is_attr_id_byte(b: u8) -> bool {
    is_letter_byte(b) || (48 <= b <= 57) || b == 95 || b == 45
}

/// A valid attribute id: 1 to 64 bytes, the first a letter, the rest
/// letters, digits, underscores or hyphens.
pub open spec fn valid_attribute_id(s: Seq<u8>) -> bool {
    &&& 1 <= s.len() <= 64
    &&& is_letter_byte(s[0])
    &&& forall|i: int| 0 <= i < s.len() ==> is_attr_id_byte(#[trigger] s[i])
}

/// Validates an attribute id: accepts exactly the valid ids, and names the
/// first rule at fault otherwise.
pub fn validate_attribute_id(id: &str) -> (r: Result<(), SensoctoError>)
    ensures
        r is Ok <==> valid_attribute_id(id.spec_bytes()),
        r is Err ==> (r matches Err(e) && e matches SensoctoError::InvalidAttributeId(_)),
        !(1 <= id.spec_bytes().len() <= 64) ==> (r matches Err(e) && e
            matches SensoctoError::InvalidAttributeId(m) && m@
            == "Attribute ID must be 1-64 characters"@),
        1 <= id.spec_bytes().len() <= 64 && !is_letter_byte(id.spec_bytes()[0]) ==> (r matches Err(
            e,
        ) && e matches SensoctoError::InvalidAttributeId(m) && m@
            == "Attribute ID must start with a letter"@),
        1 <= id.spec_bytes().len() <= 64 && is_letter_byte(id.spec_bytes()[0])
            && !valid_attribute_id(id.spec_bytes()) ==> (r matches Err(e) && e
            matches SensoctoError::InvalidAttributeId(m) && m@
            == "Attribute ID must contain only alphanumeric characters, underscores, or hyphens"@),
{
    let bytes: &[u8] = id.as_bytes();
    let n = bytes.len();
    if n == 0 || n > 64 {
        return Err(
            SensoctoError::InvalidAttributeId("Attribute ID must be 1-64 characters".to_owned()),
        );
    }
    let first = bytes[0];
    if !((65 <= first && first <= 90) || (97 <= first && first <= 122)) {
        return Err(
            SensoctoError::InvalidAttributeId("Attribute ID must start with a letter".to_owned()),
        );
    }
    let mut i: usize = 0;
    while i < n
        invariant
            n == id.spec_bytes().len(),
            bytes@ == id.spec_bytes(),
            1 <= n <= 64,
            is_letter_byte(id.spec_bytes()[0]),
            i <= n,
            forall|j: int| 0 <= j < i ==> is_attr_id_byte(#[trigger] id.spec_bytes()[j]),
        decreases n - i,
    {
        let b = bytes[i];
        let ok = (65 <= b && b <= 90) || (97 <= b && b <= 122) || (48 <= b && b <= 57) || b == 95
            || b == 45;
        if !ok {
            return Err(
                SensoctoError::InvalidAttributeId(
                    "Attribute ID must contain only alphanumeric characters, underscores, or hyphens".to_owned(),
                ),
            );
        }
        i = i + 1;
    }
    Ok(())
}

} // verus!
