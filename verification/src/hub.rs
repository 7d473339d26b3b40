//! The hub: one broadcast channel, the registry of live sessions, and the
//! operations by which messages come in and sessions come and go.
//!
//! A hub is an ordinary value that its owner creates, hands by reference to
//! whoever publishes or subscribes, and drops at shutdown. Every change to it
//! goes through `&mut self`, so changes never overlap.

use crate::channel::BroadcastChannel;
use crate::channel::ChannelState;
use crate::config::HubConfig;
use crate::registry::ConnectionRegistry;
use crate::registry::SessionMeta;
use crate::session::Session;
use crate::session::SessionEvent;
use crate::session::SessionState;
use crate::session::SessionView;
use vstd::prelude::*;

verus! {

/// The receipt for an accepted message: the sequence number it was given.
#[derive(Clone, Copy, Debug, PartialEq, Eq, Structural)]
pub struct Ack {
    pub seq: u64,
}

/// Why a message was not accepted. A refused message never reaches the
/// channel.
#[derive(Clone, Copy, Debug, PartialEq, Eq, Structural)]
pub enum PublishError {
    /// The payload is empty.
    EmptyPayload,
    /// Every sequence number has been used.
    SequencesExhausted,
}

impl PublishError {
    /// A sentence for the publisher that says why the message was refused.
    pub fn describe(&self) -> (text: &'static str)
        ensures
            text@ == match self {
                PublishError::EmptyPayload => "the message must not be empty"@,
                PublishError::SequencesExhausted => "the hub has run out of sequence numbers"@,
            },
    {
        match self {
            PublishError::EmptyPayload => "the message must not be empty",
            PublishError::SequencesExhausted => "the hub has run out of sequence numbers",
        }
    }
}

/// A hub as plain values: the channel, the metadata of the registered
/// sessions by id, and the id the next session will get.
pub struct HubView {
    pub channel: ChannelState,
    pub sessions: Map<u64, SessionMeta>,
    pub next_session: nat,
}

impl HubView {
    /// Validity: a valid channel, finitely many sessions, and no session
    /// registered under an id that is yet to be given out.
    pub open spec fn wf(self) -> bool {
        &&& self.channel.wf()
        &&& self.sessions.dom().finite()
        &&& forall|id: u64| self.sessions.contains_key(id) ==> id < self.next_session
    }

    /// The hub after `payload` was accepted.
    pub open spec fn publish(self, payload: Seq<char>) -> HubView {
        HubView {
            channel: self.channel.publish(payload),
            sessions: self.sessions,
            next_session: self.next_session,
        }
    }

    /// The hub after a session was opened with `meta`.
    pub open spec fn open(self, meta: SessionMeta) -> HubView {
        HubView {
            channel: self.channel,
            sessions: self.sessions.insert(self.next_session as u64, meta),
            next_session: self.next_session + 1,
        }
    }

    /// The hub after the session `id` was closed.
    pub open spec fn close(self, id: u64) -> HubView {
        HubView {
            channel: self.channel,
            sessions: self.sessions.remove(id),
            next_session: self.next_session,
        }
    }
}

/// The registry together with the id that the next session will get.
struct Roster {
    registry: ConnectionRegistry,
    next_session: u64,
}

impl Roster {
    #[verifier::type_invariant]
    closed spec fn valid(self) -> bool {
        &&& self.registry@.dom().finite()
        &&& forall|id: u64| self.registry@.contains_key(id) ==> id < self.next_session
    }

    closed spec fn sessions(self) -> Map<u64, SessionMeta> {
        self.registry@
    }

    closed spec fn next(self) -> nat {
        self.next_session as nat
    }

    fn new() -> (roster: Roster)
        ensures
            roster.sessions() == Map::<u64, SessionMeta>::empty(),
            roster.next() == 0,
    {
        Roster { registry: ConnectionRegistry::new(), next_session: 0 }
    }

    /// Registers a session under the next id, unless the ids have run out.
    fn enroll(&mut self, meta: SessionMeta) -> (id: Option<u64>)
        ensures
            final(self).valid(),
            old(self).next() < u64::MAX ==> id == Some(old(self).next() as u64)
                && final(self).sessions() == old(self).sessions().insert(
                old(self).next() as u64,
                meta,
            ) && final(self).next() == old(self).next() + 1,
            old(self).next() >= u64::MAX ==> id is None && final(self).sessions() == old(
                self,
            ).sessions() && final(self).next() == old(self).next(),
    {
        proof {
            use_type_invariant(&*self);
        }
        if self.next_session == u64::MAX {
            None
        } else {
            let id: u64 = self.next_session;
            let mut registry = ConnectionRegistry::new();
            std::mem::swap(&mut registry, &mut self.registry);
            registry.register(id, meta);
            self.next_session = id + 1;
            self.registry = registry;
            Some(id)
        }
    }

    /// Removes the entry of `id` and says whether there was one.
    fn dismiss(&mut self, id: u64) -> (removed: bool)
        ensures
            final(self).valid(),
            final(self).sessions() == old(self).sessions().remove(id),
            final(self).next() == old(self).next(),
            removed == old(self).sessions().contains_key(id),
    {
        proof {
            use_type_invariant(&*self);
        }
        let mut registry = ConnectionRegistry::new();
        std::mem::swap(&mut registry, &mut self.registry);
        let removed = registry.deregister(id);
        self.registry = registry;
        removed
    }
}

/// The broadcast hub.
pub struct Hub {
    channel: BroadcastChannel,
    roster: Roster,
}

impl View for Hub {
    type V = HubView;

    closed spec fn view(&self) -> HubView {
        HubView {
            channel: self.channel@,
            sessions: self.roster.sessions(),
            next_session: self.roster.next(),
        }
    }
}

impl Hub {
    /// A hub with an empty channel of the configured capacity and without
    /// sessions.
    pub fn new(config: &HubConfig) -> (hub: Hub)
        ensures
            hub@ == (HubView {
                channel: ChannelState::empty(config@.capacity as nat),
                sessions: Map::<u64, SessionMeta>::empty(),
                next_session: 0,
            }),
            hub@.wf(),
    {
        proof {
            use_type_invariant(config);
        }
        let made = BroadcastChannel::with_capacity(config.capacity());
        Hub { channel: made.unwrap(), roster: Roster::new() }
    }

    /// A hub around a channel made elsewhere, without sessions.
    pub fn with_channel(channel: BroadcastChannel) -> (hub: Hub)
        ensures
            hub@ == (HubView {
                channel: channel@,
                sessions: Map::<u64, SessionMeta>::empty(),
                next_session: 0,
            }),
            hub@.wf(),
    {
        proof {
            use_type_invariant(&channel);
        }
        Hub { channel, roster: Roster::new() }
    }

    /// The channel, for sessions to read from.
    pub fn channel(&self) -> (channel: &BroadcastChannel)
        ensures
            channel@ == self@.channel,
    {
        &self.channel
    }

    /// Takes in a message: an empty payload is refused; any other is handed
    /// to the channel at once and acknowledged with its sequence number.
    /// No subscriber is waited for, and none can make this fail.
    pub fn publish_message(&mut self, payload: String) -> (outcome: Result<Ack, PublishError>)
        ensures
            payload@.len() == 0 ==> outcome == Err::<Ack, PublishError>(PublishError::EmptyPayload)
                && final(self)@ == old(self)@,
            payload@.len() > 0 && old(self)@.channel.next_seq >= u64::MAX ==> outcome == Err::<
                Ack,
                PublishError,
            >(PublishError::SequencesExhausted) && final(self)@ == old(self)@,
            payload@.len() > 0 && old(self)@.channel.next_seq < u64::MAX ==> outcome == Ok::<
                Ack,
                PublishError,
            >(Ack { seq: old(self)@.channel.next_seq as u64 }) && final(self)@ == old(
                self,
            )@.publish(payload@),
            final(self)@.wf(),
    {
        proof {
            use_type_invariant(&self.channel);
            use_type_invariant(&self.roster);
        }
        if payload.as_str().is_empty() {
            Err(PublishError::EmptyPayload)
        } else if self.channel.next_seq() == u64::MAX {
            Err(PublishError::SequencesExhausted)
        } else {
            let seq: u64 = self.channel.publish(payload);
            proof {
                use_type_invariant(&self.channel);
            }
            Ok(Ack { seq })
        }
    }

    /// Opens a session for a new connection: gives it the next id, records
    /// it in the registry and places its cursor at the channel's write
    /// position. Only when every id has been given out is there no session.
    pub fn open_session(&mut self, meta: SessionMeta) -> (opened: Option<Session>)
        ensures
            old(self)@.next_session < u64::MAX ==> opened is Some && opened->Some_0@ == (
            SessionView {
                id: old(self)@.next_session as u64,
                cursor: old(self)@.channel.next_seq,
                state: SessionState::Connecting,
            }) && final(self)@ == old(self)@.open(meta),
            old(self)@.next_session >= u64::MAX ==> opened is None && final(self)@ == old(self)@,
            final(self)@.wf(),
    {
        proof {
            use_type_invariant(&self.channel);
        }
        match self.roster.enroll(meta) {
            Some(id) => Some(Session::start(id, &self.channel)),
            None => None,
        }
    }

    /// Ends a session whose connection is gone or is to go: removes its
    /// registry entry and closes the session, whatever state it was in. Says
    /// whether an entry was removed, which is so the first time only. The
    /// channel and every other session are left as they were.
    pub fn close_session(&mut self, session: &mut Session) -> (removed: bool)
        ensures
            final(self)@ == old(self)@.close(old(session)@.id),
            removed == old(self)@.sessions.contains_key(old(session)@.id),
            final(session)@ == old(session)@.moved_to(SessionState::Closed),
            final(self)@.wf(),
    {
        proof {
            use_type_invariant(&self.channel);
        }
        let removed = self.roster.dismiss(session.id());
        let _ = session.step(SessionEvent::Cancelled, &self.channel);
        let _ = session.step(SessionEvent::Released, &self.channel);
        removed
    }

    /// Whether a session is registered under `id`.
    pub fn is_registered(&self, id: u64) -> (found: bool)
        ensures
            found == self@.sessions.contains_key(id),
    {
        self.roster.registry.contains(id)
    }

    /// The number of registered sessions.
    pub fn count(&self) -> (n: usize)
        ensures
            n == self@.sessions.len(),
            self@.wf(),
    {
        proof {
            use_type_invariant(&self.channel);
            use_type_invariant(&self.roster);
        }
        self.roster.registry.count()
    }

    /// A copy of the registry as it stands now: every registered session's
    /// id and metadata once, in no particular order.
    pub fn sessions(&self) -> (entries: Vec<(u64, SessionMeta)>)
        ensures
            entries@.len() == self@.sessions.len(),
            entries@.no_duplicates(),
            entries@.to_set() == self@.sessions.kv_pairs(),
    {
        self.roster.registry.snapshot()
    }
}

/// Opening a session adds exactly one entry, under an id that no session
/// has; closing a registered session removes exactly its entry; closing one
/// that is not registered changes nothing. So the count is the number of
/// sessions opened and not yet closed.
pub proof fn lemma_count_follows_sessions(hub: HubView, meta: SessionMeta, id: u64)
    requires
        hub.wf(),
        hub.next_session < u64::MAX,
    ensures
        hub.open(meta).wf(),
        hub.close(id).wf(),
        !hub.sessions.contains_key(hub.next_session as u64),
        hub.open(meta).sessions.len() == hub.sessions.len() + 1,
        hub.sessions.contains_key(id) ==> hub.close(id).sessions.len() == hub.sessions.len() - 1,
        !hub.sessions.contains_key(id) ==> hub.close(id) == hub,
        !hub.close(id).sessions.contains_key(id),
        hub.open(meta).close(hub.next_session as u64).sessions == hub.sessions,
{
    if !hub.sessions.contains_key(id) {
        assert(hub.sessions.remove(id) =~= hub.sessions);
    }
}

/// Closing one session changes nothing for any other: the channel is the
/// same, so the other session is handed the same by every step, before and
/// after a following publish as well, and its own entry stays as it was.
pub proof fn lemma_close_leaves_others(
    hub: HubView,
    id: u64,
    other: SessionView,
    event: SessionEvent,
    payload: Seq<char>,
)
    requires
        other.id != id,
    ensures
        hub.close(id).channel == hub.channel,
        other.step(event, hub.close(id).channel) == other.step(event, hub.channel),
        hub.close(id).publish(payload).channel == hub.publish(payload).channel,
        other.step(event, hub.close(id).publish(payload).channel) == other.step(
            event,
            hub.publish(payload).channel,
        ),
        hub.close(id).sessions.contains_key(other.id) == hub.sessions.contains_key(other.id),
        hub.sessions.contains_key(other.id) ==> hub.close(id).sessions[other.id]
            == hub.sessions[other.id],
{
}

/// Publishing looks at the channel and the payload and at nothing else:
/// hubs with the same channel give a message the same number and end with
/// the same channel, whatever sessions they have, and publishing leaves
/// every session's entry as it was.
pub proof fn lemma_publish_ignores_sessions(hub: HubView, other: HubView, payload: Seq<char>)
    requires
        hub.channel == other.channel,
    ensures
        hub.publish(payload).channel == other.publish(payload).channel,
        hub.publish(payload).sessions == hub.sessions,
        hub.publish(payload).next_session == hub.next_session,
{
}

/// One operation on a hub.
pub enum HubOp {
    /// A non-empty payload is published.
    Publish { payload: Seq<char> },
    /// A session is opened with this metadata.
    Open { meta: SessionMeta },
    /// The session with this id is closed.
    Close { id: u64 },
}

impl HubView {
    /// The hub after one operation. Opening a session when the ids have run
    /// out changes nothing.
    pub open spec fn apply(self, op: HubOp) -> HubView {
        match op {
            HubOp::Publish { payload } => self.publish(payload),
            HubOp::Open { meta } => if self.next_session < u64::MAX {
                self.open(meta)
            } else {
                self
            },
            HubOp::Close { id } => self.close(id),
        }
    }

    /// The hub after the operations, in order.
    pub open spec fn apply_all(self, ops: Seq<HubOp>) -> HubView
        decreases ops.len(),
    {
        if ops.len() == 0 {
            self
        } else {
            self.apply_all(ops.drop_last()).apply(ops.last())
        }
    }
}

/// The payloads that `ops` publish, in order.
pub open spec fn published_by(ops: Seq<HubOp>) -> Seq<Seq<char>>
    decreases ops.len(),
{
    if ops.len() == 0 {
        Seq::empty()
    } else {
        match ops.last() {
            HubOp::Publish { payload } => published_by(ops.drop_last()).push(payload),
            _ => published_by(ops.drop_last()),
        }
    }
}

/// Sessions that come and go never touch the channel: after any operations
/// the channel is what the publishes among them alone would have made it.
pub proof fn lemma_channel_sees_only_publishes(hub: HubView, ops: Seq<HubOp>)
    ensures
        hub.apply_all(ops).channel == hub.channel.publish_all(published_by(ops)),
    decreases ops.len(),
{
    if ops.len() > 0 {
        lemma_channel_sees_only_publishes(hub, ops.drop_last());
        if ops.last() is Publish {
            assert(published_by(ops).drop_last() =~= published_by(ops.drop_last()));
        }
    }
}

/// An id that was given out and is no longer registered never comes back:
/// whatever happens to the hub afterwards, no session is registered under
/// it again. So a closed session stays out of the count for good.
pub proof fn lemma_closed_session_stays_out(hub: HubView, id: u64, ops: Seq<HubOp>)
    requires
        hub.wf(),
        id < hub.next_session,
        !hub.sessions.contains_key(id),
    ensures
        hub.apply_all(ops).wf(),
        hub.apply_all(ops).next_session >= hub.next_session,
        !hub.apply_all(ops).sessions.contains_key(id),
    decreases ops.len(),
{
    if ops.len() > 0 {
        lemma_closed_session_stays_out(hub, id, ops.drop_last());
    }
}

} // verus!
