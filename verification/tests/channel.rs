use ws_broadcast::channel::BroadcastChannel;
use ws_broadcast::channel::Cursor;
use ws_broadcast::channel::Received;

fn channel(capacity: usize) -> BroadcastChannel {
    BroadcastChannel::with_capacity(capacity).expect("a positive capacity")
}

fn publish_all(channel: &mut BroadcastChannel, payloads: &[&str]) {
    for payload in payloads {
        channel.publish(payload.to_string());
    }
}

/// Receives until the channel would block; gives the payloads handed out
/// with their sequence numbers, the lag counts reported, and the cursor at
/// the end.
fn drain(channel: &BroadcastChannel, from: Cursor) -> (Vec<(u64, String)>, Vec<u64>, Cursor) {
    let mut messages = Vec::new();
    let mut lags = Vec::new();
    let mut cursor = from;
    loop {
        match channel.receive(cursor) {
            Received::Message { message, next } => {
                messages.push((message.seq(), message.payload().to_string()));
                cursor = next;
            }
            Received::Lagged { skipped, next } => {
                lags.push(skipped);
                cursor = next;
            }
            Received::WouldBlock => return (messages, lags, cursor),
        }
    }
}

#[test]
fn zero_capacity_is_refused() {
    assert!(BroadcastChannel::with_capacity(0).is_none());
    assert!(BroadcastChannel::with_capacity(1).is_some());
}

#[test]
fn new_channel_is_empty() {
    let ch = channel(4);
    assert_eq!(ch.capacity(), 4);
    assert_eq!(ch.next_seq(), 0);
    assert_eq!(ch.retained_len(), 0);
    assert_eq!(ch.oldest_seq(), 0);
    assert!(matches!(ch.receive(ch.subscribe()), Received::WouldBlock));
}

#[test]
fn publish_numbers_messages_from_zero() {
    let mut ch = channel(2);
    assert_eq!(ch.publish("x".to_string()), 0);
    assert_eq!(ch.publish("y".to_string()), 1);
    assert_eq!(ch.publish("z".to_string()), 2);
    assert_eq!(ch.next_seq(), 3);
}

#[test]
fn full_channel_evicts_the_oldest() {
    let mut ch = channel(2);
    publish_all(&mut ch, &["x", "y"]);
    assert_eq!(ch.retained_len(), 2);
    assert_eq!(ch.oldest_seq(), 0);
    ch.publish("z".to_string());
    assert_eq!(ch.retained_len(), 2);
    assert_eq!(ch.oldest_seq(), 1);
    match ch.receive(Cursor::at(1)) {
        Received::Message { message, next } => {
            assert_eq!(message.seq(), 1);
            assert_eq!(message.payload(), "y");
            assert_eq!(next.position(), 2);
        }
        other => panic!("expected the message numbered 1, got {:?}", other),
    }
}

#[test]
fn retained_never_exceeds_capacity() {
    let mut ch = channel(3);
    for i in 0..20u64 {
        ch.publish(format!("m{}", i));
        assert!(ch.retained_len() <= 3);
        assert_eq!(ch.retained_len() as u64, (i + 1).min(3));
        assert_eq!(ch.oldest_seq(), ch.next_seq() - ch.retained_len() as u64);
    }
}

#[test]
fn subscribe_starts_at_the_write_position() {
    let mut ch = channel(4);
    publish_all(&mut ch, &["old", "older"]);
    let cursor = ch.subscribe();
    assert_eq!(cursor.position(), 2);
    assert!(matches!(ch.receive(cursor), Received::WouldBlock));
    ch.publish("new".to_string());
    let (messages, lags, end) = drain(&ch, cursor);
    assert_eq!(messages, vec![(2, "new".to_string())]);
    assert!(lags.is_empty());
    assert_eq!(end.position(), 3);
}

#[test]
fn would_block_leaves_nothing_to_advance() {
    let mut ch = channel(2);
    ch.publish("only".to_string());
    let cursor = Cursor::at(1);
    assert!(matches!(ch.receive(cursor), Received::WouldBlock));
    assert!(matches!(ch.receive(Cursor::at(7)), Received::WouldBlock));
    assert_eq!(cursor.position(), 1);
}

#[test]
fn subscriber_within_capacity_receives_everything_in_order() {
    let mut ch = channel(5);
    let cursor = ch.subscribe();
    publish_all(&mut ch, &["one", "two", "three", "four", "five"]);
    let (messages, lags, end) = drain(&ch, cursor);
    assert_eq!(
        messages,
        vec![
            (0, "one".to_string()),
            (1, "two".to_string()),
            (2, "three".to_string()),
            (3, "four".to_string()),
            (4, "five".to_string()),
        ]
    );
    assert!(lags.is_empty());
    assert_eq!(end.position(), 5);
}

#[test]
fn subscriber_that_keeps_up_never_lags() {
    let mut ch = channel(2);
    let mut cursor = ch.subscribe();
    let mut seen = Vec::new();
    for i in 0..10u64 {
        ch.publish(format!("m{}", i));
        let (messages, lags, end) = drain(&ch, cursor);
        assert!(lags.is_empty());
        seen.extend(messages);
        cursor = end;
    }
    let expected: Vec<(u64, String)> = (0..10u64).map(|i| (i, format!("m{}", i))).collect();
    assert_eq!(seen, expected);
}

#[test]
fn slow_subscriber_is_told_what_it_lost() {
    let mut ch = channel(2);
    let cursor = ch.subscribe();
    publish_all(&mut ch, &["a", "b", "c", "d", "e"]);
    match ch.receive(cursor) {
        Received::Lagged { skipped, next } => {
            assert_eq!(skipped, 3);
            assert_eq!(next.position(), 3);
            assert_eq!(next.position(), ch.oldest_seq());
        }
        other => panic!("expected a lag notice, got {:?}", other),
    }
    let (messages, lags, end) = drain(&ch, cursor);
    assert_eq!(lags, vec![3]);
    assert_eq!(messages, vec![(3, "d".to_string()), (4, "e".to_string())]);
    assert_eq!(end.position(), 5);
}

#[test]
fn capacity_three_four_publishes_lag_of_one() {
    let mut ch = channel(3);
    let cursor = ch.subscribe();
    publish_all(&mut ch, &["a", "b", "c", "d"]);
    let first = ch.receive(cursor);
    let resumed = match first {
        Received::Lagged { skipped, next } => {
            assert_eq!(skipped, 1);
            next
        }
        other => panic!("expected Lagged(1), got {:?}", other),
    };
    let (messages, lags, _) = drain(&ch, resumed);
    assert!(lags.is_empty());
    assert_eq!(
        messages,
        vec![(1, "b".to_string()), (2, "c".to_string()), (3, "d".to_string())]
    );
}

#[test]
fn lag_and_messages_account_for_every_number() {
    let mut ch = channel(3);
    let start = ch.subscribe();
    let mut cursor = start;
    let mut delivered: u64 = 0;
    let mut lost: u64 = 0;
    let mut last_seq: Option<u64> = None;
    for round in 0..12u64 {
        for k in 0..(round % 5) {
            ch.publish(format!("r{}k{}", round, k));
        }
        if round % 3 == 0 {
            let (messages, lags, end) = drain(&ch, cursor);
            for (seq, _) in &messages {
                if let Some(previous) = last_seq {
                    assert!(*seq > previous);
                }
                last_seq = Some(*seq);
            }
            delivered += messages.len() as u64;
            lost += lags.iter().sum::<u64>();
            cursor = end;
        }
    }
    let (messages, lags, end) = drain(&ch, cursor);
    delivered += messages.len() as u64;
    lost += lags.iter().sum::<u64>();
    assert_eq!(end.position(), ch.next_seq());
    assert_eq!(delivered + lost, ch.next_seq() - start.position());
    assert!(lost > 0);
}

#[test]
fn two_subscribers_each_see_hello_once() {
    let mut ch = channel(100);
    let first = ch.subscribe();
    let second = ch.subscribe();
    ch.publish("hello".to_string());

    // first reads to the end, then second
    let (a, a_lags, a_end) = drain(&ch, first);
    let (b, b_lags, b_end) = drain(&ch, second);
    assert_eq!(a, vec![(0, "hello".to_string())]);
    assert_eq!(b, vec![(0, "hello".to_string())]);
    assert!(a_lags.is_empty() && b_lags.is_empty());
    assert!(matches!(ch.receive(a_end), Received::WouldBlock));
    assert!(matches!(ch.receive(b_end), Received::WouldBlock));
}

#[test]
fn two_subscribers_interleaved_reads() {
    let mut ch = channel(100);
    let mut first = ch.subscribe();
    let mut second = ch.subscribe();
    ch.publish("hello".to_string());

    // second, first, first, second
    let mut first_seen = Vec::new();
    let mut second_seen = Vec::new();
    for who in [2, 1, 1, 2, 2, 1] {
        let cursor = if who == 1 { first } else { second };
        match ch.receive(cursor) {
            Received::Message { message, next } => {
                if who == 1 {
                    first_seen.push(message.payload().to_string());
                    first = next;
                } else {
                    second_seen.push(message.payload().to_string());
                    second = next;
                }
            }
            Received::Lagged { .. } => panic!("nobody lagged"),
            Received::WouldBlock => {}
        }
    }
    assert_eq!(first_seen, vec!["hello".to_string()]);
    assert_eq!(second_seen, vec!["hello".to_string()]);
}

#[test]
fn receiving_does_not_change_the_channel() {
    let mut ch = channel(2);
    publish_all(&mut ch, &["a", "b", "c"]);
    for _ in 0..3 {
        let (messages, lags, _) = drain(&ch, Cursor::at(0));
        assert_eq!(lags, vec![1]);
        assert_eq!(messages, vec![(1, "b".to_string()), (2, "c".to_string())]);
    }
    assert_eq!(ch.next_seq(), 3);
    assert_eq!(ch.retained_len(), 2);
}

#[test]
fn capacity_one_keeps_only_the_latest() {
    let mut ch = channel(1);
    let cursor = ch.subscribe();
    publish_all(&mut ch, &["a", "b", "c"]);
    let (messages, lags, end) = drain(&ch, cursor);
    assert_eq!(lags, vec![2]);
    assert_eq!(messages, vec![(2, "c".to_string())]);
    assert_eq!(end.position(), 3);
}

#[test]
fn payload_is_handed_out_unchanged() {
    let mut ch = channel(2);
    let cursor = ch.subscribe();
    let payload = "  {\"k\": \"v\"}\n\u{00e9}\u{4e16}\u{754c} ";
    ch.publish(payload.to_string());
    match ch.receive(cursor) {
        Received::Message { message, .. } => assert_eq!(message.payload(), payload),
        other => panic!("expected a message, got {:?}", other),
    }
}

#[test]
fn cursor_values_compare_by_position() {
    assert_eq!(Cursor::at(5), Cursor::at(5));
    assert_ne!(Cursor::at(5), Cursor::at(6));
    assert_eq!(Cursor::at(9).position(), 9);
}

#[test]
fn channel_can_start_at_any_number() {
    assert!(BroadcastChannel::starting_at(0, 5).is_none());
    let mut ch = BroadcastChannel::starting_at(2, 40).expect("a positive capacity");
    assert_eq!(ch.next_seq(), 40);
    assert_eq!(ch.oldest_seq(), 40);
    assert_eq!(ch.retained_len(), 0);
    let cursor = ch.subscribe();
    assert_eq!(cursor.position(), 40);
    assert_eq!(ch.publish("x".to_string()), 40);
    assert_eq!(ch.publish("y".to_string()), 41);
    assert_eq!(ch.publish("z".to_string()), 42);
    let (messages, lags, end) = drain(&ch, cursor);
    assert_eq!(lags, vec![1]);
    assert_eq!(messages, vec![(41, "y".to_string()), (42, "z".to_string())]);
    assert_eq!(end.position(), 43);
    // a cursor from before the first number lags by everything it never saw
    let (messages, lags, _) = drain(&ch, Cursor::at(0));
    assert_eq!(lags, vec![41]);
    assert_eq!(messages.len(), 2);
}

#[test]
fn last_sequence_number_is_delivered() {
    let mut ch = BroadcastChannel::starting_at(2, u64::MAX - 1).expect("a positive capacity");
    let cursor = ch.subscribe();
    assert_eq!(ch.publish("last".to_string()), u64::MAX - 1);
    assert_eq!(ch.next_seq(), u64::MAX);
    let (messages, lags, end) = drain(&ch, cursor);
    assert_eq!(messages, vec![(u64::MAX - 1, "last".to_string())]);
    assert!(lags.is_empty());
    assert_eq!(end.position(), u64::MAX);
}
