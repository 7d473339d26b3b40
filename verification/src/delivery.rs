//! What a subscriber is handed over time, stated over the channel's model
//! and proved for every channel, every cursor and every stream of payloads.

use crate::channel::window;
use crate::channel::ChannelState;
use crate::channel::Delivery;
use crate::message::MessageView;
use vstd::prelude::*;

verus! {

impl ChannelState {
    /// The channel after the payloads were published one after the other.
    pub open spec fn publish_all(self, payloads: Seq<Seq<char>>) -> ChannelState
        decreases payloads.len(),
    {
        if payloads.len() == 0 {
            self
        } else {
            self.publish_all(payloads.drop_last()).publish(payloads.last())
        }
    }

    /// Everything a subscriber is handed when it keeps receiving from
    /// `cursor` until the channel has nothing more for it.
    pub open spec fn drain(self, cursor: nat) -> Seq<Delivery>
        decreases self.next_seq - cursor,
    {
        if !self.wf() || cursor >= self.next_seq {
            Seq::empty()
        } else {
            let first = self.receive(cursor);
            seq![first] + self.drain(first.cursor_after(cursor))
        }
    }
}

/// The deliveries of `payloads` as consecutive messages, the first of them
/// numbered `first`, each leaving the cursor just behind it.
pub open spec fn messages_from(first: nat, payloads: Seq<Seq<char>>) -> Seq<Delivery> {
    Seq::new(
        payloads.len(),
        |i: int|
            Delivery::Message {
                message: MessageView { seq: (first + i) as nat, payload: payloads[i] },
                next: (first + i + 1) as nat,
            },
    )
}

/// Publishing keeps a channel valid, numbers the payloads consecutively and
/// leaves in the window the last `capacity` payloads of everything that was
/// retained or published.
pub proof fn lemma_publish_all(state: ChannelState, payloads: Seq<Seq<char>>)
    requires
        state.wf(),
    ensures
        state.publish_all(payloads).wf(),
        state.publish_all(payloads).capacity == state.capacity,
        state.publish_all(payloads).next_seq == state.next_seq + payloads.len(),
        state.publish_all(payloads).retained == window(state.retained + payloads, state.capacity),
    decreases payloads.len(),
{
    if payloads.len() > 0 {
        lemma_publish_all(state, payloads.drop_last());
    }
}

/// A subscriber inside the window is handed every retained message from its
/// cursor on, in order, and nothing else.
pub proof fn lemma_drain_inside_window(state: ChannelState, cursor: nat)
    requires
        state.wf(),
        state.oldest() <= cursor <= state.next_seq,
    ensures
        state.drain(cursor) == messages_from(
            cursor,
            state.retained.subrange(cursor - state.oldest(), state.retained.len() as int),
        ),
    decreases state.next_seq - cursor,
{
    if cursor < state.next_seq {
        lemma_drain_inside_window(state, cursor + 1);
    }
}

/// A subscriber that fell behind the window is first told how many messages
/// it lost, namely those numbered from its cursor up to the oldest retained
/// one, and is then handed the whole window in order.
pub proof fn lemma_drain_behind_window(state: ChannelState, cursor: nat)
    requires
        state.wf(),
        cursor < state.oldest(),
    ensures
        state.drain(cursor) == seq![
            Delivery::Lagged {
                skipped: (state.oldest() - cursor) as nat,
                next: state.oldest(),
            },
        ] + messages_from(state.oldest(), state.retained),
{
    lemma_drain_inside_window(state, state.oldest());
}

/// A subscriber that joined before a run of at most `capacity` publishes is
/// handed exactly those payloads, in the order they were published, however
/// late it reads.
pub proof fn lemma_within_capacity_nothing_is_lost(state: ChannelState, payloads: Seq<Seq<char>>)
    requires
        state.wf(),
        payloads.len() <= state.capacity,
    ensures
        state.publish_all(payloads).drain(state.next_seq) == messages_from(
            state.next_seq,
            payloads,
        ),
{
    lemma_publish_all(state, payloads);
    lemma_drain_inside_window(state.publish_all(payloads), state.next_seq);
}

/// A subscriber that joined before a run of more than `capacity` publishes
/// and reads only afterwards is told that it lost all but the last
/// `capacity` of them, and is then handed those, in order.
pub proof fn lemma_beyond_capacity_lag_is_exact(state: ChannelState, payloads: Seq<Seq<char>>)
    requires
        state.wf(),
        payloads.len() > state.capacity,
    ensures
        ({
            let lost = (payloads.len() - state.capacity) as nat;
            state.publish_all(payloads).drain(state.next_seq) == seq![
                Delivery::Lagged { skipped: lost, next: state.next_seq + lost },
            ] + messages_from(
                state.next_seq + lost,
                payloads.subrange(lost as int, payloads.len() as int),
            )
        }),
{
    lemma_publish_all(state, payloads);
    lemma_drain_behind_window(state.publish_all(payloads), state.next_seq);
}

/// One thing that happens to a channel and to one subscriber of it.
pub enum Step {
    /// A payload is published.
    Publish { payload: Seq<char> },
    /// The subscriber calls `receive` with its cursor.
    Receive,
}

/// Where a channel and one subscriber stand after some steps, and what the
/// subscriber was handed on the way (a receive that would block hands out
/// nothing).
pub struct Trace {
    pub state: ChannelState,
    pub cursor: nat,
    pub handed: Seq<Delivery>,
}

/// The payloads that `steps` publish, in order.
pub open spec fn published(steps: Seq<Step>) -> Seq<Seq<char>>
    decreases steps.len(),
{
    if steps.len() == 0 {
        Seq::empty()
    } else {
        match steps.last() {
            Step::Publish { payload } => published(steps.drop_last()).push(payload),
            Step::Receive => published(steps.drop_last()),
        }
    }
}

/// Runs `steps`, in order, on a channel and on a subscriber whose cursor
/// stands at `cursor`.
pub open spec fn run(start: ChannelState, cursor: nat, steps: Seq<Step>) -> Trace
    decreases steps.len(),
{
    if steps.len() == 0 {
        Trace { state: start, cursor, handed: Seq::empty() }
    } else {
        let before = run(start, cursor, steps.drop_last());
        match steps.last() {
            Step::Publish { payload } => Trace {
                state: before.state.publish(payload),
                cursor: before.cursor,
                handed: before.handed,
            },
            Step::Receive => {
                let delivery = before.state.receive(before.cursor);
                Trace {
                    state: before.state,
                    cursor: delivery.cursor_after(before.cursor),
                    handed: if delivery is WouldBlock {
                        before.handed
                    } else {
                        before.handed.push(delivery)
                    },
                }
            },
        }
    }
}

impl Delivery {
    /// The first sequence number a delivery accounts for: the number of the
    /// message handed out, or of the first message reported lost.
    pub open spec fn first_covered(self) -> int {
        match self {
            Delivery::Message { message, .. } => message.seq as int,
            Delivery::Lagged { skipped, next } => next - skipped,
            Delivery::WouldBlock => 0,
        }
    }

    /// The sequence number just behind those a delivery accounts for.
    pub open spec fn end_covered(self) -> int {
        match self {
            Delivery::Message { next, .. } => next as int,
            Delivery::Lagged { next, .. } => next as int,
            Delivery::WouldBlock => 0,
        }
    }
}

/// Whether `handed` accounts for every sequence number from `from` up to
/// `to` exactly once and in rising order: each delivery is a message or a
/// lag notice that covers at least one number, begins where the one before
/// it ended, and a message leaves the cursor just behind its own number.
pub open spec fn accounts_for(handed: Seq<Delivery>, from: nat, to: nat) -> bool {
    &&& handed.len() == 0 ==> from == to
    &&& handed.len() > 0 ==> handed[0].first_covered() == from && handed.last().end_covered()
        == to
    &&& forall|i: int|
        0 <= i < handed.len() ==> !(#[trigger] handed[i] is WouldBlock)
            && handed[i].first_covered() < handed[i].end_covered()
    &&& forall|i: int|
        0 <= i < handed.len() ==> ((#[trigger] handed[i]) matches Delivery::Message {
            message,
            next,
        } ==> next == message.seq + 1)
    &&& forall|i: int|
        0 <= i < handed.len() - 1 ==> (#[trigger] handed[i]).end_covered() == handed[i
            + 1].first_covered()
}

/// Whether every message in `handed` carries the payload that stands under
/// its number in `stream`, a stream whose first entry is numbered `base`.
pub open spec fn genuine(handed: Seq<Delivery>, base: nat, stream: Seq<Seq<char>>) -> bool {
    forall|i: int|
        0 <= i < handed.len() ==> ((#[trigger] handed[i]) matches Delivery::Message {
            message,
            ..
        } ==> base <= message.seq < base + stream.len() && message.payload == stream[message.seq
            - base])
}

/// However publishes and receives interleave, the channel ends as if the
/// publishes had happened alone; the subscriber's cursor never moves back;
/// what it was handed accounts for every sequence number between where its
/// cursor began and where it ended, each exactly once and in rising order,
/// as a message or as part of a lag count; and every message it was handed
/// carries the payload that was published under that number.
pub proof fn lemma_run(start: ChannelState, cursor: nat, steps: Seq<Step>)
    requires
        start.wf(),
    ensures
        run(start, cursor, steps).state == start.publish_all(published(steps)),
        run(start, cursor, steps).state.wf(),
        cursor <= run(start, cursor, steps).cursor,
        accounts_for(run(start, cursor, steps).handed, cursor, run(start, cursor, steps).cursor),
        genuine(
            run(start, cursor, steps).handed,
            start.oldest(),
            start.retained + published(steps),
        ),
    decreases steps.len(),
{
    if steps.len() > 0 {
        let front = steps.drop_last();
        let before = run(start, cursor, front);
        let after = run(start, cursor, steps);
        lemma_run(start, cursor, front);
        lemma_publish_all(start, published(steps));
        match steps.last() {
            Step::Publish { payload } => {
                // one more payload at the end of the stream moves none of the others
                assert(published(steps).drop_last() =~= published(front));
                assert(genuine(after.handed, start.oldest(), start.retained + published(steps)));
            },
            Step::Receive => {
                // what was handed out before is still there, in the same places
                assert(forall|i: int|
                    0 <= i < before.handed.len() ==> after.handed[i] == before.handed[i]);
            },
        }
    }
}

/// While no more than `capacity` payloads have been published since a
/// subscriber joined, it is never told of a lag, whenever it chooses to
/// read: what it was handed so far, followed by what it is handed when it
/// then reads on to the end, is exactly the payloads published since it
/// joined, in order.
pub proof fn lemma_run_within_capacity(start: ChannelState, steps: Seq<Step>)
    requires
        start.wf(),
        published(steps).len() <= start.capacity,
    ensures
        ({
            let trace = run(start, start.next_seq, steps);
            trace.handed + trace.state.drain(trace.cursor) == messages_from(
                start.next_seq,
                published(steps),
            )
        }),
{
    let trace = run(start, start.next_seq, steps);
    lemma_run_keeps_up(start, steps);
    lemma_run(start, start.next_seq, steps);
    lemma_publish_all(start, published(steps));
    lemma_drain_inside_window(trace.state, trace.cursor);
}

/// Under the same bound, what the subscriber was handed so far is exactly
/// the payloads published since it joined, up to where its cursor stands.
pub proof fn lemma_run_keeps_up(start: ChannelState, steps: Seq<Step>)
    requires
        start.wf(),
        published(steps).len() <= start.capacity,
    ensures
        ({
            let trace = run(start, start.next_seq, steps);
            &&& start.next_seq <= trace.cursor <= start.next_seq + published(steps).len()
            &&& trace.handed == messages_from(
                start.next_seq,
                published(steps).subrange(0, trace.cursor - start.next_seq),
            )
        }),
    decreases steps.len(),
{
    if steps.len() > 0 {
        let front = steps.drop_last();
        lemma_run_keeps_up(start, front);
        lemma_run(start, start.next_seq, front);
        lemma_publish_all(start, published(front));
    }
}

} // verus!
