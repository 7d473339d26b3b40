//! The broadcast channel: a bounded window over the stream of published
//! messages, read by any number of subscribers through cursors of their own.
//!
//! The channel keeps no per-subscriber state. Publishing touches only the
//! window; receiving only reads it. A subscriber that falls behind the window
//! is told how many messages it lost and is moved to the oldest one retained.

use crate::message::Message;
use crate::message::MessageView;
use std::collections::VecDeque;
use vstd::prelude::*;

verus! {

/// The channel as plain values: its capacity, the number the next message
/// will get, and the payloads still retained, oldest first.
pub struct ChannelState {
    pub capacity: nat,
    pub next_seq: nat,
    pub retained: Seq<Seq<char>>,
}

/// The last `capacity` entries of `stream`, or all of it if it is shorter.
pub open spec fn window(stream: Seq<Seq<char>>, capacity: nat) -> Seq<Seq<char>> {
    if stream.len() <= capacity {
        stream
    } else {
        stream.subrange(stream.len() - capacity, stream.len() as int)
    }
}

/// What one `receive` yields, as plain values.
pub enum Delivery {
    /// The message the cursor pointed at, and the cursor behind it.
    Message { message: MessageView, next: nat },
    /// The cursor pointed at an evicted message: `skipped` messages are lost
    /// and `next` is the oldest sequence number still retained.
    Lagged { skipped: nat, next: nat },
    /// Nothing has been published at or after the cursor.
    WouldBlock,
}

impl ChannelState {
    /// A channel of the given capacity into which nothing was published.
    pub open spec fn empty(capacity: nat) -> ChannelState {
        ChannelState::empty_at(capacity, 0)
    }

    /// A channel of the given capacity that retains nothing and will give
    /// its first message the number `first_seq`.
    pub open spec fn empty_at(capacity: nat, first_seq: nat) -> ChannelState {
        ChannelState { capacity, next_seq: first_seq, retained: Seq::empty() }
    }

    /// Validity: a positive capacity, never more than `capacity` messages
    /// retained, and never more retained than were published.
    pub open spec fn wf(self) -> bool {
        &&& self.capacity > 0
        &&& self.retained.len() <= self.capacity
        &&& self.retained.len() <= self.next_seq
    }

    /// The sequence number of the oldest retained message; equal to
    /// `next_seq` while nothing is retained.
    pub open spec fn oldest(self) -> nat {
        (self.next_seq - self.retained.len()) as nat
    }

    /// Whether the message numbered `seq` is still in the window.
    pub open spec fn retains(self, seq: nat) -> bool {
        self.oldest() <= seq < self.next_seq
    }

    /// The retained message numbered `seq`.
    pub open spec fn message_at(self, seq: nat) -> MessageView
        recommends
            self.retains(seq),
    {
        MessageView { seq, payload: self.retained[seq - self.oldest()] }
    }

    /// The channel after one more payload was published: the payload gets
    /// `next_seq` and goes to the end of the window, and the window keeps
    /// no more than its last `capacity` payloads.
    pub open spec fn publish(self, payload: Seq<char>) -> ChannelState {
        ChannelState {
            capacity: self.capacity,
            next_seq: self.next_seq + 1,
            retained: window(self.retained.push(payload), self.capacity),
        }
    }

    /// What a subscriber whose cursor stands at `cursor` is handed.
    pub open spec fn receive(self, cursor: nat) -> Delivery {
        if cursor >= self.next_seq {
            Delivery::WouldBlock
        } else if cursor < self.oldest() {
            Delivery::Lagged { skipped: (self.oldest() - cursor) as nat, next: self.oldest() }
        } else {
            Delivery::Message { message: self.message_at(cursor), next: cursor + 1 }
        }
    }
}

impl Delivery {
    /// Where the cursor stands after this delivery, having stood at `cursor`.
    pub open spec fn cursor_after(self, cursor: nat) -> nat {
        match self {
            Delivery::Message { next, .. } => next,
            Delivery::Lagged { next, .. } => next,
            Delivery::WouldBlock => cursor,
        }
    }
}

/// A subscriber's position in the stream: the sequence number of the next
/// message it expects. Each subscriber owns its cursor; the channel never
/// stores one.
#[derive(Clone, Copy, Debug, PartialEq, Eq, Structural)]
pub struct Cursor {
    next: u64,
}

impl View for Cursor {
    type V = nat;

    closed spec fn view(&self) -> nat {
        self.next as nat
    }
}

impl Cursor {
    /// The cursor that expects the message numbered `next`.
    pub fn at(next: u64) -> (c: Cursor)
        ensures
            c@ == next,
    {
        Cursor { next }
    }

    /// The sequence number this cursor expects next.
    pub fn position(&self) -> (p: u64)
        ensures
            p == self@,
    {
        self.next
    }
}

/// What `BroadcastChannel::receive` returns.
#[derive(Debug)]
pub enum Received {
    /// A copy of the message at the cursor, and the advanced cursor.
    Message { message: Message, next: Cursor },
    /// The subscriber fell out of the window: the number of messages it
    /// lost, and the cursor moved to the oldest retained message.
    Lagged { skipped: u64, next: Cursor },
    /// No message is available yet; the cursor stays where it is.
    WouldBlock,
}

impl View for Received {
    type V = Delivery;

    open spec fn view(&self) -> Delivery {
        match self {
            Received::Message { message, next } => Delivery::Message {
                message: message@,
                next: next@,
            },
            Received::Lagged { skipped, next } => Delivery::Lagged {
                skipped: *skipped as nat,
                next: next@,
            },
            Received::WouldBlock => Delivery::WouldBlock,
        }
    }
}

/// A bounded ring of the most recently published payloads together with the
/// next sequence number to assign.
pub struct BroadcastChannel {
    capacity: usize,
    next_seq: u64,
    slots: VecDeque<String>,
}

impl View for BroadcastChannel {
    type V = ChannelState;

    closed spec fn view(&self) -> ChannelState {
        ChannelState {
            capacity: self.capacity as nat,
            next_seq: self.next_seq as nat,
            retained: self.slots@.map_values(|s: String| s@),
        }
    }
}

impl BroadcastChannel {
    /// Every channel is valid at all times.
    #[verifier::type_invariant]
    pub open spec fn inv(self) -> bool {
        self@.wf()
    }

    /// Creates an empty channel that retains at most `capacity` messages and
    /// numbers them from zero. A capacity of zero is refused.
    pub fn with_capacity(capacity: usize) -> (made: Option<BroadcastChannel>)
        ensures
            made is None <==> capacity == 0,
            made matches Some(channel) ==> channel@ == ChannelState::empty(capacity as nat),
    {
        BroadcastChannel::starting_at(capacity, 0)
    }

    /// Creates an empty channel that retains at most `capacity` messages and
    /// numbers them from `first_seq`. A capacity of zero is refused.
    pub fn starting_at(capacity: usize, first_seq: u64) -> (made: Option<BroadcastChannel>)
        ensures
            made is None <==> capacity == 0,
            made matches Some(channel) ==> channel@ == ChannelState::empty_at(
                capacity as nat,
                first_seq as nat,
            ),
    {
        if capacity == 0 {
            None
        } else {
            let channel = BroadcastChannel { capacity, next_seq: first_seq, slots: VecDeque::new() };
            assert(channel@.retained =~= Seq::empty());
            Some(channel)
        }
    }

    /// The most messages the channel retains.
    pub fn capacity(&self) -> (c: usize)
        ensures
            c == self@.capacity,
    {
        self.capacity
    }

    /// The sequence number the next published message will get.
    pub fn next_seq(&self) -> (n: u64)
        ensures
            n == self@.next_seq,
    {
        self.next_seq
    }

    /// How many messages are retained right now.
    pub fn retained_len(&self) -> (n: usize)
        ensures
            n == self@.retained.len(),
    {
        self.slots.len()
    }

    /// The sequence number of the oldest retained message (the next one to
    /// assign while the channel is empty).
    pub fn oldest_seq(&self) -> (n: u64)
        ensures
            n == self@.oldest(),
    {
        proof {
            use_type_invariant(self);
        }
        self.next_seq - (self.slots.len() as u64)
    }

    /// Stores `payload` as the next message and returns its sequence number.
    /// A full channel evicts its oldest message first. Publishing never
    /// waits for, and never learns of, any subscriber.
    pub fn publish(&mut self, payload: String) -> (seq: u64)
        requires
            old(self)@.next_seq < u64::MAX,
        ensures
            seq == old(self)@.next_seq,
            final(self)@ == old(self)@.publish(payload@),
    {
        proof {
            use_type_invariant(&*self);
        }
        let ghost before = self@;
        let seq: u64 = self.next_seq;
        let mut slots: VecDeque<String> = VecDeque::new();
        std::mem::swap(&mut slots, &mut self.slots);
        if slots.len() >= self.capacity {
            slots.pop_front();
        }
        slots.push_back(payload);
        self.next_seq = seq + 1;
        self.slots = slots;
        assert(self@.retained =~= before.publish(payload@).retained);
        seq
    }

    /// A cursor at the current write position: its holder will be handed
    /// exactly the messages published from now on.
    pub fn subscribe(&self) -> (cursor: Cursor)
        ensures
            cursor@ == self@.next_seq,
    {
        Cursor { next: self.next_seq }
    }

    /// Hands out what stands at `cursor`: the message there with the cursor
    /// advanced by one; or, where that message was evicted, the number of
    /// messages lost with the cursor moved to the oldest one retained; or
    /// the notice that nothing new is there. The channel is not changed.
    pub fn receive(&self, cursor: Cursor) -> (received: Received)
        ensures
            received@ == self@.receive(cursor@),
    {
        proof {
            use_type_invariant(self);
        }
        let oldest: u64 = self.next_seq - (self.slots.len() as u64);
        if cursor.next >= self.next_seq {
            Received::WouldBlock
        } else if cursor.next < oldest {
            Received::Lagged { skipped: oldest - cursor.next, next: Cursor { next: oldest } }
        } else {
            let index: usize = (cursor.next - oldest) as usize;
            let payload: String = self.slots[index].clone();
            Received::Message {
                message: Message::new(cursor.next, payload),
                next: Cursor { next: cursor.next + 1 },
            }
        }
    }
}

} // verus!
