//! One subscriber's session: its lifecycle and the decisions of its duplex
//! loop. The loop itself (writing to the peer, reading from it, waiting) is
//! run by the embedding program; after each thing that happens it reports
//! the event to `Session::step` and carries out the action it gets back.

use crate::channel::BroadcastChannel;
use crate::channel::ChannelState;
use crate::channel::Cursor;
use crate::channel::Delivery;
use crate::channel::Received;
use crate::delivery::accounts_for;
use crate::delivery::genuine;
use crate::delivery::lemma_publish_all;
use crate::delivery::messages_from;
use crate::message::Message;
use crate::message::MessageView;
use vstd::prelude::*;

verus! {

/// The lifecycle of a session. It only ever moves forward, and `Closed` is
/// final.
#[derive(Clone, Copy, Debug, PartialEq, Eq, Structural)]
pub enum SessionState {
    /// The connection is being upgraded; nothing is sent yet.
    Connecting,
    /// Messages are forwarded to the peer while the peer is watched.
    Active,
    /// A terminal condition was seen; the connection is being torn down.
    Closing,
    /// The connection is released and the session deregistered.
    Closed,
}

/// What the embedding program reports to a session.
#[derive(Clone, Copy, Debug, PartialEq, Eq, Structural)]
pub enum SessionEvent {
    /// The upgrade handshake is complete.
    Upgraded,
    /// The last write went through, the channel announced new data, or the
    /// idle timeout ran out: time to look at the channel again.
    Wake,
    /// The peer sent application data. The hub takes no content from
    /// subscribers: the data is dropped.
    Inbound,
    /// Writing to the peer failed.
    WriteFailed,
    /// The peer closed the connection.
    PeerClosed,
    /// Reading from the peer failed or the peer broke the protocol.
    ReadFailed,
    /// The hub is shutting down or the session was cancelled from outside.
    Cancelled,
    /// The connection was released and the session deregistered.
    Released,
}

/// What a session asks the embedding program to do next.
#[derive(Debug)]
pub enum SessionAction {
    /// Write this message to the peer, then report `Wake` or `WriteFailed`.
    Deliver(Message),
    /// Tell the peer that this many messages were lost to it, then report
    /// `Wake` or `WriteFailed`.
    ReportLag(u64),
    /// Nothing to send: wait for the channel, the peer, cancellation or the
    /// idle timeout, whichever comes first, and report it.
    Wait,
    /// Stop both activities, release the connection, deregister the
    /// session, then report `Released`.
    Release,
    /// The session is closed; nothing is left to do.
    Done,
}

/// An action as plain values.
pub enum ActionView {
    Deliver(MessageView),
    ReportLag(nat),
    Wait,
    Release,
    Done,
}

impl View for SessionAction {
    type V = ActionView;

    open spec fn view(&self) -> ActionView {
        match self {
            SessionAction::Deliver(message) => ActionView::Deliver(message@),
            SessionAction::ReportLag(skipped) => ActionView::ReportLag(*skipped as nat),
            SessionAction::Wait => ActionView::Wait,
            SessionAction::Release => ActionView::Release,
            SessionAction::Done => ActionView::Done,
        }
    }
}

impl SessionState {
    /// The place of a state in the lifecycle.
    pub open spec fn rank(self) -> nat {
        match self {
            SessionState::Connecting => 0,
            SessionState::Active => 1,
            SessionState::Closing => 2,
            SessionState::Closed => 3,
        }
    }

    /// Whether the connection is still in use.
    pub open spec fn is_live(self) -> bool {
        self is Connecting || self is Active
    }
}

impl SessionEvent {
    /// Whether the event ends a live session.
    pub open spec fn is_terminal(self) -> bool {
        self is WriteFailed || self is PeerClosed || self is ReadFailed || self is Cancelled
            || self is Released
    }
}

/// A session as plain values.
pub struct SessionView {
    pub id: u64,
    pub cursor: nat,
    pub state: SessionState,
}

/// The outcome of one step: the session afterwards and the action asked for.
pub struct Outcome {
    pub session: SessionView,
    pub action: ActionView,
}

impl SessionView {
    /// The outbound half of the loop: take what the channel has for the
    /// cursor, move the cursor as the channel says, and turn a message into
    /// `Deliver`, a lag into `ReportLag` and an empty channel into `Wait`.
    pub open spec fn forward(self, channel: ChannelState) -> Outcome {
        let delivery = channel.receive(self.cursor);
        Outcome {
            session: SessionView {
                id: self.id,
                cursor: delivery.cursor_after(self.cursor),
                state: SessionState::Active,
            },
            action: match delivery {
                Delivery::Message { message, .. } => ActionView::Deliver(message),
                Delivery::Lagged { skipped, .. } => ActionView::ReportLag(skipped),
                Delivery::WouldBlock => ActionView::Wait,
            },
        }
    }

    /// The session in another state, all else unchanged.
    pub open spec fn moved_to(self, state: SessionState) -> SessionView {
        SessionView { id: self.id, cursor: self.cursor, state }
    }

    /// The session's rule. A closed session stays closed. A closing session
    /// asks for its release until that is reported, and is then closed. A
    /// live session starts closing on any terminal event. Otherwise a
    /// connecting session waits for the upgrade, and an active one, or one
    /// just upgraded, forwards from the channel.
    pub open spec fn step(self, event: SessionEvent, channel: ChannelState) -> Outcome {
        match self.state {
            SessionState::Closed => Outcome { session: self, action: ActionView::Done },
            SessionState::Closing => if event is Released {
                Outcome { session: self.moved_to(SessionState::Closed), action: ActionView::Done }
            } else {
                Outcome { session: self, action: ActionView::Release }
            },
            SessionState::Connecting => if event.is_terminal() {
                Outcome {
                    session: self.moved_to(SessionState::Closing),
                    action: ActionView::Release,
                }
            } else if event is Upgraded {
                self.forward(channel)
            } else {
                Outcome { session: self, action: ActionView::Wait }
            },
            SessionState::Active => if event.is_terminal() {
                Outcome {
                    session: self.moved_to(SessionState::Closing),
                    action: ActionView::Release,
                }
            } else {
                self.forward(channel)
            },
        }
    }
}

/// One live connection's share of the hub: its id, its cursor into the
/// channel and its place in the lifecycle. The session owns its cursor; no
/// one else reads or moves it.
#[derive(Debug)]
pub struct Session {
    id: u64,
    cursor: Cursor,
    state: SessionState,
}

impl View for Session {
    type V = SessionView;

    closed spec fn view(&self) -> SessionView {
        SessionView { id: self.id, cursor: self.cursor@, state: self.state }
    }
}

impl Session {
    /// Begins a session for a connection that is about to be upgraded: it is
    /// `Connecting`, and its cursor stands at the channel's write position,
    /// so that it will see what is published from now on and nothing older.
    pub fn start(id: u64, channel: &BroadcastChannel) -> (session: Session)
        ensures
            session@ == (SessionView {
                id,
                cursor: channel@.next_seq,
                state: SessionState::Connecting,
            }),
    {
        Session { id, cursor: channel.subscribe(), state: SessionState::Connecting }
    }

    /// The session's id.
    pub fn id(&self) -> (id: u64)
        ensures
            id == self@.id,
    {
        self.id
    }

    /// Where the session stands in its lifecycle.
    pub fn state(&self) -> (state: SessionState)
        ensures
            state == self@.state,
    {
        self.state
    }

    /// The session's cursor.
    pub fn cursor(&self) -> (cursor: Cursor)
        ensures
            cursor@ == self@.cursor,
    {
        self.cursor
    }

    /// Whether the session is closed for good.
    pub fn is_closed(&self) -> (closed: bool)
        ensures
            closed == (self@.state is Closed),
    {
        match self.state {
            SessionState::Closed => true,
            _ => false,
        }
    }

    /// Takes in one event and says what to do next, by the session's rule.
    /// The channel is only read.
    pub fn step(&mut self, event: SessionEvent, channel: &BroadcastChannel) -> (action:
        SessionAction)
        ensures
            final(self)@ == old(self)@.step(event, channel@).session,
            action@ == old(self)@.step(event, channel@).action,
    {
        let terminal = match event {
            SessionEvent::WriteFailed => true,
            SessionEvent::PeerClosed => true,
            SessionEvent::ReadFailed => true,
            SessionEvent::Cancelled => true,
            SessionEvent::Released => true,
            _ => false,
        };
        match self.state {
            SessionState::Closed => SessionAction::Done,
            SessionState::Closing => match event {
                SessionEvent::Released => {
                    self.state = SessionState::Closed;
                    SessionAction::Done
                },
                _ => SessionAction::Release,
            },
            SessionState::Connecting => {
                if terminal {
                    self.state = SessionState::Closing;
                    SessionAction::Release
                } else {
                    match event {
                        SessionEvent::Upgraded => self.forward(channel),
                        _ => SessionAction::Wait,
                    }
                }
            },
            SessionState::Active => {
                if terminal {
                    self.state = SessionState::Closing;
                    SessionAction::Release
                } else {
                    self.forward(channel)
                }
            },
        }
    }

    fn forward(&mut self, channel: &BroadcastChannel) -> (action: SessionAction)
        ensures
            final(self)@ == old(self)@.forward(channel@).session,
            action@ == old(self)@.forward(channel@).action,
    {
        self.state = SessionState::Active;
        match channel.receive(self.cursor) {
            Received::Message { message, next } => {
                self.cursor = next;
                SessionAction::Deliver(message)
            },
            Received::Lagged { skipped, next } => {
                self.cursor = next;
                SessionAction::ReportLag(skipped)
            },
            Received::WouldBlock => SessionAction::Wait,
        }
    }
}

/// A step never moves a session back in its lifecycle, never moves its
/// cursor back, never changes its id, and changes nothing of a closed
/// session; and a terminal event always takes a live session to `Closing`
/// with the request to release the connection.
pub proof fn lemma_step_only_advances(
    session: SessionView,
    event: SessionEvent,
    channel: ChannelState,
)
    requires
        channel.wf(),
    ensures
        session.step(event, channel).session.id == session.id,
        session.step(event, channel).session.state.rank() >= session.state.rank(),
        session.step(event, channel).session.cursor >= session.cursor,
        session.state is Closed ==> session.step(event, channel).session == session
            && session.step(event, channel).action is Done,
        session.state.is_live() && event.is_terminal() ==> session.step(
            event,
            channel,
        ).session.state is Closing && session.step(event, channel).action is Release,
        session.step(event, channel).action is Done <==> session.step(
            event,
            channel,
        ).session.state is Closed,
{
}

/// Only an active session is ever asked to send, and what it is asked to
/// send is what the channel hands its cursor: the message numbered by the
/// cursor, or the count of messages between the cursor and the window.
pub proof fn lemma_step_sends_what_channel_hands(
    session: SessionView,
    event: SessionEvent,
    channel: ChannelState,
)
    ensures
        match session.step(event, channel).action {
            ActionView::Deliver(message) => {
                &&& session.step(event, channel).session.state is Active
                &&& channel.receive(session.cursor) == Delivery::Message {
                    message,
                    next: session.cursor + 1,
                }
                &&& message.seq == session.cursor
                &&& session.step(event, channel).session.cursor == session.cursor + 1
            },
            ActionView::ReportLag(skipped) => {
                &&& session.step(event, channel).session.state is Active
                &&& channel.receive(session.cursor) == Delivery::Lagged {
                    skipped,
                    next: channel.oldest(),
                }
                &&& session.step(event, channel).session.cursor == channel.oldest()
            },
            _ => session.step(event, channel).session.cursor == session.cursor,
        },
{
}

/// One thing that happens around a session.
pub enum Happening {
    /// A payload is published to the channel.
    Published { payload: Seq<char> },
    /// An event is reported to the session.
    Reported { event: SessionEvent },
}

/// Where a channel and one session stand after some happenings, and what
/// the session asked to have sent on the way: each message and each lag
/// notice, with the cursor it left behind.
pub struct SessionTrace {
    pub channel: ChannelState,
    pub session: SessionView,
    pub sent: Seq<Delivery>,
}

/// The payloads that `happenings` publish, in order.
pub open spec fn payloads_of(happenings: Seq<Happening>) -> Seq<Seq<char>>
    decreases happenings.len(),
{
    if happenings.len() == 0 {
        Seq::empty()
    } else {
        match happenings.last() {
            Happening::Published { payload } => payloads_of(happenings.drop_last()).push(payload),
            Happening::Reported { .. } => payloads_of(happenings.drop_last()),
        }
    }
}

/// Lets `happenings` happen, in order, to a channel and to a session that
/// follows its rule.
pub open spec fn follow(
    channel: ChannelState,
    session: SessionView,
    happenings: Seq<Happening>,
) -> SessionTrace
    decreases happenings.len(),
{
    if happenings.len() == 0 {
        SessionTrace { channel, session, sent: Seq::empty() }
    } else {
        let before = follow(channel, session, happenings.drop_last());
        match happenings.last() {
            Happening::Published { payload } => SessionTrace {
                channel: before.channel.publish(payload),
                session: before.session,
                sent: before.sent,
            },
            Happening::Reported { event } => {
                let outcome = before.session.step(event, before.channel);
                SessionTrace {
                    channel: before.channel,
                    session: outcome.session,
                    sent: match outcome.action {
                        ActionView::Deliver(message) => before.sent.push(
                            Delivery::Message { message, next: outcome.session.cursor },
                        ),
                        ActionView::ReportLag(skipped) => before.sent.push(
                            Delivery::Lagged { skipped, next: outcome.session.cursor },
                        ),
                        _ => before.sent,
                    },
                }
            },
        }
    }
}

/// Whatever is published and whatever is reported to a session, in whatever
/// order: the session never changes the channel; it keeps its id and never
/// moves back in its lifecycle; what it asks to have sent accounts for every
/// sequence number between where its cursor began and where it ended, each
/// exactly once and in rising order, as a message or as part of a lag count;
/// and every message it asks to have sent carries the payload that was
/// published under that number.
pub proof fn lemma_follow(channel: ChannelState, session: SessionView, happenings: Seq<Happening>)
    requires
        channel.wf(),
    ensures
        follow(channel, session, happenings).channel == channel.publish_all(
            payloads_of(happenings),
        ),
        follow(channel, session, happenings).session.id == session.id,
        follow(channel, session, happenings).session.state.rank() >= session.state.rank(),
        accounts_for(
            follow(channel, session, happenings).sent,
            session.cursor,
            follow(channel, session, happenings).session.cursor,
        ),
        genuine(
            follow(channel, session, happenings).sent,
            channel.oldest(),
            channel.retained + payloads_of(happenings),
        ),
    decreases happenings.len(),
{
    if happenings.len() > 0 {
        let front = happenings.drop_last();
        let before = follow(channel, session, front);
        let after = follow(channel, session, happenings);
        lemma_follow(channel, session, front);
        lemma_publish_all(channel, payloads_of(front));
        match happenings.last() {
            Happening::Published { payload } => {
                assert(payloads_of(happenings).drop_last() =~= payloads_of(front));
            },
            Happening::Reported { event } => {
                let outcome = before.session.step(event, before.channel);
                if outcome.action is Deliver || outcome.action is ReportLag {
                    // the session sends just what the channel hands its cursor
                    let delivery = before.channel.receive(before.session.cursor);
                    assert(after.sent.last() == delivery);
                    assert(delivery.first_covered() == before.session.cursor);
                }
            },
        }
    }
}

/// While no more than `capacity` payloads have been published since a
/// session was started, it is never asked to report a lag: what it asked to
/// have sent is exactly the payloads published since it started, in order,
/// up to where its cursor stands; all of them once it has caught up with
/// the channel.
pub proof fn lemma_follow_within_capacity(
    channel: ChannelState,
    session: SessionView,
    happenings: Seq<Happening>,
)
    requires
        channel.wf(),
        session.cursor == channel.next_seq,
        payloads_of(happenings).len() <= channel.capacity,
    ensures
        ({
            let trace = follow(channel, session, happenings);
            &&& session.cursor <= trace.session.cursor <= trace.channel.next_seq
            &&& trace.channel.next_seq == channel.next_seq + payloads_of(happenings).len()
            &&& trace.sent == messages_from(
                session.cursor,
                payloads_of(happenings).subrange(0, trace.session.cursor - session.cursor),
            )
            &&& trace.session.cursor == trace.channel.next_seq ==> trace.sent == messages_from(
                session.cursor,
                payloads_of(happenings),
            )
        }),
    decreases happenings.len(),
{
    if happenings.len() > 0 {
        let front = happenings.drop_last();
        lemma_follow_within_capacity(channel, session, front);
        lemma_follow(channel, session, front);
        lemma_publish_all(channel, payloads_of(front));
    }
}

} // verus!
