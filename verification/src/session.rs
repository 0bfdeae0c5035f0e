//! The session core: the verified state of the transport layer.
//!
//! It owns the connected flag, the correlation-reference counter, the
//! pending-reply table and the handler table, and decides for every outbound
//! request and inbound frame what the surrounding pumps must do.  The pumps
//! themselves (socket reads and writes, timers) live outside the library and
//! only carry these decisions out.

use vstd::prelude::*;
use crate::error::SensoctoError;
use crate::json::{spec_get, JsonV, JsonValue};
use crate::models::{PhoenixMessage, PhoenixReply};
use crate::text::str_eq;

verus! {

/// How long a request waits for its reply before it times out, in
/// milliseconds.
pub const REPLY_TIMEOUT_MS: u64 = 10000;

/// One registered event handler: its key and its identity.  The closure
/// itself lives with the caller, keyed by `id`.
#[derive(Debug)]
pub struct HandlerKey {
    pub topic: String,
    pub event: String,
    pub id: u64,
}

/// What an inbound frame requires of the read pump.
#[derive(Debug)]
pub enum Dispatch {
    /// The frame is the reply to the pending request `msg_ref`; fulfil that
    /// request's slot.  `reply` is absent when the reply payload is malformed
    /// (the slot is then dropped unfulfilled).
    Reply { msg_ref: u64, reply: Option<PhoenixReply> },
    /// The frame is an event: invoke the handlers with these ids, in
    /// registration order.
    Handlers { ids: Vec<u64> },
    /// The frame matches nothing (a late or unknown reply): do nothing.
    Ignore,
}

/// No value occurs twice.
pub open spec fn seq_distinct(s: Seq<u64>) -> bool {
    forall|i: int, j: int| 0 <= i < j < s.len() ==> s[i] != s[j]
}

/// The ids of the handlers registered for `(topic, event)`, in registration
/// order.
pub open spec fn matching_ids(hs: Seq<HandlerKey>, topic: Seq<char>, event: Seq<char>) -> Seq<u64>
    decreases hs.len(),
{
    if hs.len() == 0 {
        Seq::empty()
    } else {
        let prefix = matching_ids(hs.drop_last(), topic, event);
        if hs.last().topic@ == topic && hs.last().event@ == event {
            prefix.push(hs.last().id)
        } else {
            prefix
        }
    }
}

/// The status string of a reply payload, when it carries one.
pub open spec fn spec_reply_status(p: JsonV) -> Option<Seq<char>> {
    match spec_get(p, "status"@) {
        Some(JsonV::Str(s)) => Some(s),
        _ => None,
    }
}

/// The response of a reply payload; absent responses default to null.
pub open spec fn spec_reply_response(p: JsonV) -> JsonV {
    match spec_get(p, "response"@) {
        Some(v) => v,
        None => JsonV::Null,
    }
}

/// Decodes a reply payload `{status, response}`; `None` when no string
/// status is present.
pub fn reply_of_json(payload: &JsonValue) -> (r: Option<PhoenixReply>)
    ensures
        match r {
            Some(rep) => spec_reply_status(payload@) == Some(rep.status@) && rep.response@
                == spec_reply_response(payload@),
            None => spec_reply_status(payload@) is None,
        },
{
    match payload.get("status") {
        Some(sv) => match sv.as_str() {
            Some(s) => {
                let status = s.clone();
                let response = match payload.get("response") {
                    Some(v) => v.deep_clone(),
                    None => JsonValue::Null,
                };
                Some(PhoenixReply { status, response })
            },
            None => None,
        },
        None => None,
    }
}

/// The verified state of one transport session.
#[derive(Debug)]
pub struct PhoenixSocket {
    /// Whether the transport is connected.
    pub connected: bool,
    /// The next correlation reference to hand out.
    pub next_ref: u64,
    /// References of requests whose replies are still awaited.
    pub pending: Vec<u64>,
    /// Registered event handlers, in registration order.
    pub handlers: Vec<HandlerKey>,
    /// The next handler id to hand out.
    pub next_handler_id: u64,
}

impl PhoenixSocket {
    /// References are never reused while pending, and ids are never reused.
    pub open spec fn wf(self) -> bool {
        &&& seq_distinct(self.pending@)
        &&& forall|i: int| 0 <= i < self.pending@.len() ==> self.pending@[i] < self.next_ref
        &&& forall|i: int|
            0 <= i < self.handlers@.len() ==> (#[trigger] self.handlers@[i]).id
                < self.next_handler_id
    }

    /// A fresh, disconnected session.
    pub fn new() -> (r: Self)
        ensures
            r.wf(),
            !r.connected,
            r.next_ref == 0u64,
            r.pending@.len() == 0,
            r.handlers@.len() == 0,
    {
        PhoenixSocket {
            connected: false,
            next_ref: 0,
            pending: Vec::new(),
            handlers: Vec::new(),
            next_handler_id: 0,
        }
    }

    /// Marks the transport connected (called when the socket is up).
    pub fn set_connected(&mut self)
        requires
            old(self).wf(),
        ensures
            final(self).wf(),
            *final(self) == (PhoenixSocket { connected: true, ..*old(self) }),
    {
        self.connected = true;
    }

    /// Tears the session down: the connected flag falls and every pending
    /// reply slot is dropped.
    pub fn disconnect(&mut self)
        requires
            old(self).wf(),
        ensures
            final(self).wf(),
            !final(self).connected,
            final(self).pending@.len() == 0,
            final(self).next_ref == old(self).next_ref,
            final(self).handlers == old(self).handlers,
            final(self).next_handler_id == old(self).next_handler_id,
    {
        self.connected = false;
        self.pending = Vec::new();
    }

    /// Whether the transport is connected.
    pub fn is_connected(&self) -> (r: bool)
        ensures
            r == self.connected,
    {
        self.connected
    }

    /// Prepares a request/reply send: allocates a fresh reference, registers
    /// the reply slot, and returns the frame to put on the wire.
    pub fn prepare_send(&mut self, topic: &str, event: &str, payload: JsonValue) -> (r: Result<
        PhoenixMessage,
        SensoctoError,
    >)
        requires
            old(self).wf(),
            old(self).next_ref < u64::MAX,
        ensures
            final(self).wf(),
            !old(self).connected ==> r is Err && (r matches Err(e) ==> e
                matches SensoctoError::Disconnected) && *final(self) == *old(self),
            old(self).connected ==> (r matches Ok(msg) && {
                &&& msg.topic@ == topic@
                &&& msg.event@ == event@
                &&& msg.payload@ == payload@
                &&& msg.msg_ref == Some(old(self).next_ref)
                &&& final(self).pending@ == old(self).pending@.push(old(self).next_ref)
                &&& final(self).next_ref == old(self).next_ref + 1
                &&& final(self).connected == old(self).connected
                &&& final(self).handlers == old(self).handlers
                &&& final(self).next_handler_id == old(self).next_handler_id
            }),
    {
        if !self.connected {
            return Err(SensoctoError::Disconnected);
        }
        let msg_ref = self.next_ref;
        self.next_ref = self.next_ref + 1;
        self.pending.push(msg_ref);
        Ok(
            PhoenixMessage {
                topic: topic.to_owned(),
                event: event.to_owned(),
                payload,
                msg_ref: Some(msg_ref),
            },
        )
    }

    /// Prepares a fire-and-forget send: allocates a fresh reference but
    /// registers no reply slot.
    pub fn prepare_send_no_reply(&mut self, topic: &str, event: &str, payload: JsonValue) -> (r:
        Result<PhoenixMessage, SensoctoError>)
        requires
            old(self).wf(),
            old(self).next_ref < u64::MAX,
        ensures
            final(self).wf(),
            !old(self).connected ==> r is Err && (r matches Err(e) ==> e
                matches SensoctoError::Disconnected) && *final(self) == *old(self),
            old(self).connected ==> (r matches Ok(msg) && {
                &&& msg.topic@ == topic@
                &&& msg.event@ == event@
                &&& msg.payload@ == payload@
                &&& msg.msg_ref == Some(old(self).next_ref)
                &&& final(self).pending == old(self).pending
                &&& final(self).next_ref == old(self).next_ref + 1
                &&& final(self).connected == old(self).connected
                &&& final(self).handlers == old(self).handlers
                &&& final(self).next_handler_id == old(self).next_handler_id
            }),
    {
        if !self.connected {
            return Err(SensoctoError::Disconnected);
        }
        let msg_ref = self.next_ref;
        self.next_ref = self.next_ref + 1;
        Ok(
            PhoenixMessage {
                topic: topic.to_owned(),
                event: event.to_owned(),
                payload,
                msg_ref: Some(msg_ref),
            },
        )
    }

    /// The heartbeat frame: reserved topic, empty payload, fresh reference.
    /// Fails when the session is no longer connected, which stops the
    /// heartbeat pump.
    pub fn heartbeat_frame(&mut self) -> (r: Result<PhoenixMessage, SensoctoError>)
        requires
            old(self).wf(),
            old(self).next_ref < u64::MAX,
        ensures
            final(self).wf(),
            !old(self).connected ==> r is Err && *final(self) == *old(self),
            old(self).connected ==> (r matches Ok(msg) && {
                &&& msg.topic@ == "phoenix"@
                &&& msg.event@ == "heartbeat"@
                &&& msg.payload@ == JsonV::Obj(Seq::empty())
                &&& msg.msg_ref == Some(old(self).next_ref)
                &&& final(self).pending == old(self).pending
                &&& final(self).next_ref == old(self).next_ref + 1
                &&& final(self).connected == old(self).connected
                &&& final(self).handlers == old(self).handlers
                &&& final(self).next_handler_id == old(self).next_handler_id
            }),
    {
        let empty = JsonValue::Obj(Vec::new());
        proof {
            assert(empty@->Obj_0 =~= Seq::<(Seq<char>, JsonV)>::empty());
        }
        self.prepare_send_no_reply("phoenix", "heartbeat", empty)
    }

    /// Registers a handler for `(topic, event)` and returns its id.  Handlers
    /// for one key are invoked in registration order.
    pub fn on(&mut self, topic: &str, event: &str) -> (r: u64)
        requires
            old(self).wf(),
            old(self).next_handler_id < u64::MAX,
        ensures
            final(self).wf(),
            r == old(self).next_handler_id,
            final(self).handlers@.len() == old(self).handlers@.len() + 1,
            final(self).handlers@.drop_last() == old(self).handlers@,
            final(self).handlers@.last().topic@ == topic@,
            final(self).handlers@.last().event@ == event@,
            final(self).handlers@.last().id == r,
            final(self).next_handler_id == old(self).next_handler_id + 1,
            final(self).connected == old(self).connected,
            final(self).next_ref == old(self).next_ref,
            final(self).pending == old(self).pending,
    {
        let id = self.next_handler_id;
        self.next_handler_id = self.next_handler_id + 1;
        self.handlers.push(HandlerKey { topic: topic.to_owned(), event: event.to_owned(), id });
        proof {
            assert(final(self).handlers@.drop_last() =~= old(self).handlers@);
        }
        id
    }

    /// Removes `msg_ref` from the pending table if present; says whether it
    /// was.  Removal is idempotent.
    pub fn evict_pending(&mut self, msg_ref: u64) -> (found: bool)
        requires
            old(self).wf(),
        ensures
            final(self).wf(),
            found == old(self).pending@.contains(msg_ref),
            !found ==> *final(self) == *old(self),
            found ==> exists|i: int|
                0 <= i < old(self).pending@.len() && old(self).pending@[i] == msg_ref
                    && final(self).pending@ == old(self).pending@.remove(i),
            !final(self).pending@.contains(msg_ref),
            forall|x: u64| x != msg_ref ==> (final(self).pending@.contains(x)
                <==> old(self).pending@.contains(x)),
            final(self).connected == old(self).connected,
            final(self).next_ref == old(self).next_ref,
            final(self).handlers == old(self).handlers,
            final(self).next_handler_id == old(self).next_handler_id,
    {
        let n = self.pending.len();
        let mut i: usize = 0;
        while i < n
            invariant
                n == self.pending@.len(),
                i <= n,
                self.wf(),
                forall|j: int| 0 <= j < i ==> self.pending@[j] != msg_ref,
                *self == *old(self),
            decreases n - i,
        {
            if self.pending[i] == msg_ref {
                let ghost before = self.pending@;
                self.pending.remove(i);
                proof {
                    lemma_remove_distinct(before, i as int);
                    assert(forall|x: u64|
                        before.remove(i as int).contains(x) ==> before.contains(x));
                    assert forall|x: u64| x != msg_ref && before.contains(x) implies before.remove(
                        i as int,
                    ).contains(x) by {
                        let k = choose|k: int| 0 <= k < before.len() && before[k] == x;
                        if k < i {
                            assert(before.remove(i as int)[k] == x);
                        } else {
                            assert(before.remove(i as int)[k - 1] == x);
                        }
                    }
                    assert(!before.remove(i as int).contains(msg_ref)) by {
                        assert forall|k: int|
                            0 <= k < before.remove(i as int).len() implies before.remove(
                            i as int,
                        )[k] != msg_ref by {
                            if k < i {
                                assert(before.remove(i as int)[k] == before[k]);
                            } else {
                                assert(before.remove(i as int)[k] == before[k + 1]);
                            }
                        }
                    }
                }
                return true;
            }
            i = i + 1;
        }
        false
    }

    /// The ids of the handlers registered for `(topic, event)`, in
    /// registration order.
    pub fn matching_handler_ids(&self, topic: &str, event: &str) -> (r: Vec<u64>)
        ensures
            r@ == matching_ids(self.handlers@, topic@, event@),
    {
        let n = self.handlers.len();
        let mut ids: Vec<u64> = Vec::new();
        let mut i: usize = 0;
        proof {
            assert(self.handlers@.take(0) =~= Seq::empty());
        }
        while i < n
            invariant
                n == self.handlers@.len(),
                i <= n,
                ids@ == matching_ids(self.handlers@.take(i as int), topic@, event@),
            decreases n - i,
        {
            proof {
                assert(self.handlers@.take(i + 1 as int).drop_last() =~= self.handlers@.take(
                    i as int,
                ));
                assert(self.handlers@.take(i + 1 as int).last() == self.handlers@[i as int]);
            }
            let h = &self.handlers[i];
            if str_eq(h.topic.as_str(), topic) && str_eq(h.event.as_str(), event) {
                ids.push(h.id);
            }
            i = i + 1;
        }
        proof {
            assert(self.handlers@.take(n as int) =~= self.handlers@);
        }
        ids
    }

    /// Handles one inbound frame.
    ///
    /// A reply frame resolves against the pending table: a match removes the
    /// entry and fulfils the slot; a reply bearing no reference, or one whose
    /// reference is not pending (a late reply after a timeout), is ignored
    /// and changes nothing.  Any other frame is dispatched to the handlers
    /// registered for its `(topic, event)` key, in registration order.
    pub fn handle_inbound(&mut self, msg: &PhoenixMessage) -> (r: Dispatch)
        requires
            old(self).wf(),
        ensures
            final(self).wf(),
            final(self).connected == old(self).connected,
            final(self).next_ref == old(self).next_ref,
            final(self).handlers == old(self).handlers,
            final(self).next_handler_id == old(self).next_handler_id,
            msg.event@ == "phx_reply"@ && msg.msg_ref is None ==> *final(self) == *old(self) && r
                is Ignore,
            msg.event@ == "phx_reply"@ ==> (msg.msg_ref matches Some(mr) ==> {
                if old(self).pending@.contains(mr) {
                    &&& !final(self).pending@.contains(mr)
                    &&& (forall|x: u64|
                        x != mr ==> (final(self).pending@.contains(x)
                            <==> old(self).pending@.contains(x)))
                    &&& (exists|i: int|
                        0 <= i < old(self).pending@.len() && old(self).pending@[i] == mr
                            && final(self).pending@ == old(self).pending@.remove(i))
                    &&& (r matches Dispatch::Reply { msg_ref: rr, reply } && rr == mr && (match
                    reply {
                        Some(rep) => spec_reply_status(msg.payload@) == Some(rep.status@)
                            && rep.response@ == spec_reply_response(msg.payload@),
                        None => spec_reply_status(msg.payload@) is None,
                    }))
                } else {
                    &&& *final(self) == *old(self)
                    &&& r is Ignore
                }
            }),
            msg.event@ != "phx_reply"@ ==> *final(self) == *old(self) && (r
                matches Dispatch::Handlers { ids } && ids@ == matching_ids(
                old(self).handlers@,
                msg.topic@,
                msg.event@,
            )),
    {
        if str_eq(msg.event.as_str(), "phx_reply") {
            match msg.msg_ref {
                Some(mr) => {
                    if self.evict_pending(mr) {
                        let reply = reply_of_json(&msg.payload);
                        Dispatch::Reply { msg_ref: mr, reply }
                    } else {
                        Dispatch::Ignore
                    }
                },
                None => Dispatch::Ignore,
            }
        } else {
            let ids = self.matching_handler_ids(msg.topic.as_str(), msg.event.as_str());
            Dispatch::Handlers { ids }
        }
    }

    /// Gives a request up after its reply timeout: evicts the pending slot
    /// (idempotently) and returns the error the caller surfaces.  A reply
    /// arriving later finds no slot and is dropped.
    pub fn send_timeout(&mut self, msg_ref: u64) -> (r: SensoctoError)
        requires
            old(self).wf(),
        ensures
            final(self).wf(),
            !final(self).pending@.contains(msg_ref),
            forall|x: u64| x != msg_ref ==> (final(self).pending@.contains(x)
                <==> old(self).pending@.contains(x)),
            r matches SensoctoError::Timeout(ms) && ms == REPLY_TIMEOUT_MS,
            final(self).connected == old(self).connected,
            final(self).next_ref == old(self).next_ref,
            final(self).handlers == old(self).handlers,
            final(self).next_handler_id == old(self).next_handler_id,
    {
        let _ = self.evict_pending(msg_ref);
        SensoctoError::Timeout(REPLY_TIMEOUT_MS)
    }
}

/// Handlers for one key are delivered in registration order: registering a
/// handler appends its id to the dispatch list for its own key, at the end,
/// and leaves every other key's list unchanged.
pub proof fn lemma_dispatch_order(hs: Seq<HandlerKey>, h: HandlerKey, topic: Seq<char>, event: Seq<char>)
    ensures
        h.topic@ == topic && h.event@ == event ==> matching_ids(hs.push(h), topic, event)
            == matching_ids(hs, topic, event).push(h.id),
        !(h.topic@ == topic && h.event@ == event) ==> matching_ids(hs.push(h), topic, event)
            == matching_ids(hs, topic, event),
{
    assert(hs.push(h).drop_last() =~= hs);
    assert(hs.push(h).last() == h);
}

/// Removing one index of a distinct sequence keeps it distinct, and keeps
/// every element an element of the original.
proof fn lemma_remove_distinct(s: Seq<u64>, i: int)
    requires
        0 <= i < s.len(),
        seq_distinct(s),
    ensures
        seq_distinct(s.remove(i)),
        forall|x: u64| s.remove(i).contains(x) ==> s.contains(x),
{
    assert forall|j: int, k: int| 0 <= j < k < s.remove(i).len() implies s.remove(i)[j] != s.remove(
        i,
    )[k] by {
        if k < i {
        } else if j < i {
            assert(s.remove(i)[k] == s[k + 1]);
        } else {
            assert(s.remove(i)[j] == s[j + 1]);
            assert(s.remove(i)[k] == s[k + 1]);
        }
    }
    assert forall|x: u64| s.remove(i).contains(x) implies s.contains(x) by {
        let k = choose|k: int| 0 <= k < s.remove(i).len() && s.remove(i)[k] == x;
        if k < i {
            assert(s[k] == x);
        } else {
            assert(s[k + 1] == x);
        }
    }
}

} // verus!
