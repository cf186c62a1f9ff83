//! Channel behaviour: queue order, send-failure payload return, broadcast
//! fan-out and lag, duplex pairing, and selection between pending polls.

use lolibaso::async_runtime::{select, select3, Either, Either3};
use lolibaso::channel::broadcast::{BroadcastChan, BroadcastPoll, Lagged, DEFAULT_CAPACITY};
use lolibaso::channel::duplex::DuplexChan;
use lolibaso::channel::unbounded::{RecvPoll, UnboundedChan, UnboundedChannelBuilder};
use lolibaso::channel::{ChanClosed, SendError};

#[test]
fn unbounded_receive_order_equals_send_order() {
    let mut chan: UnboundedChan<u64> = UnboundedChan::new();
    let sent: Vec<u64> = vec![3, 1, 4, 1, 5, 9, 2, 6];
    for &m in sent.iter() {
        assert!(chan.send(m).is_ok());
    }
    let mut received: Vec<u64> = Vec::new();
    loop {
        match chan.try_recv() {
            RecvPoll::Ready(m) => received.push(m),
            RecvPoll::Pending => break,
            RecvPoll::Closed => break,
        }
    }
    assert_eq!(received, sent);
}

#[test]
fn unbounded_recv_all_drains_in_order() {
    let mut chan: UnboundedChan<u64> = UnboundedChan::new();
    for m in 0..100u64 {
        assert!(chan.send(m).is_ok());
    }
    let received = chan.recv_all();
    let expected: Vec<u64> = (0..100u64).collect();
    assert_eq!(received, expected);
    assert!(matches!(chan.try_recv(), RecvPoll::Pending));
}

#[test]
fn unbounded_send_after_receiver_drop_returns_payload() {
    let mut chan: UnboundedChan<u64> = UnboundedChan::new();
    chan.drop_receiver();
    match chan.send(42) {
        Ok(()) => panic!("send succeeded with no receiver"),
        Err(e) => {
            assert_eq!(e, ChanClosed(42));
            assert_eq!(e.unsent_item(), 42);
        }
    }
}

#[test]
fn unbounded_closes_after_drain_once_senders_gone() {
    let mut chan: UnboundedChan<u64> = UnboundedChan::new();
    chan.add_sender();
    assert!(chan.send(7).is_ok());
    chan.drop_sender();
    chan.drop_sender();
    assert_eq!(chan.try_recv(), RecvPoll::Ready(7));
    assert_eq!(chan.try_recv(), RecvPoll::Closed);
}

#[test]
fn unbounded_builder_builds_fresh_channel() {
    let builder = UnboundedChannelBuilder;
    let mut chan: UnboundedChan<u64> = builder.chan();
    assert!(matches!(chan.try_recv(), RecvPoll::Pending));
}

#[test]
fn broadcast_two_subscribers_observe_same_order() {
    let mut chan: BroadcastChan<u64> = BroadcastChan::with_capacity(16);
    let mut fast = chan.subscribe();
    let mut slow = chan.subscribe();
    for m in [10u64, 20, 30] {
        assert!(chan.send(m).is_ok());
    }
    // The fast subscriber drains everything first.
    assert_eq!(chan.recv_available(&mut fast), vec![10, 20, 30]);
    // The slow subscriber still observes every message, in the same order.
    assert_eq!(chan.recv(&mut slow), BroadcastPoll::Ready(10));
    assert_eq!(chan.recv(&mut slow), BroadcastPoll::Ready(20));
    assert_eq!(chan.recv(&mut slow), BroadcastPoll::Ready(30));
    assert_eq!(chan.recv(&mut slow), BroadcastPoll::Pending);
}

#[test]
fn broadcast_subscriber_starts_at_tail() {
    let mut chan: BroadcastChan<u64> = BroadcastChan::with_capacity(4);
    let mut early = chan.subscribe();
    assert!(chan.send(1).is_ok());
    let mut late = chan.subscribe();
    assert!(chan.send(2).is_ok());
    assert_eq!(chan.recv_available(&mut early), vec![1, 2]);
    assert_eq!(chan.recv_available(&mut late), vec![2]);
}

#[test]
fn broadcast_send_with_no_subscribers_returns_payload() {
    let mut chan: BroadcastChan<u64> = BroadcastChan::new();
    match chan.send(5) {
        Ok(()) => panic!("send succeeded with no subscribers"),
        Err(e) => assert_eq!(e.unsent_item(), 5),
    }
}

#[test]
fn broadcast_lag_reports_skipped_count_then_resumes() {
    let mut chan: BroadcastChan<u64> = BroadcastChan::with_capacity(2);
    let mut laggard = chan.subscribe();
    for m in [0u64, 1, 2, 3, 4] {
        assert!(chan.send(m).is_ok());
    }
    // Capacity 2, five sends: messages 0..3 were overwritten.
    assert_eq!(chan.recv(&mut laggard), BroadcastPoll::Lagged(Lagged(3)));
    // The receiver stays usable and continues at the oldest retained one.
    assert_eq!(chan.recv(&mut laggard), BroadcastPoll::Ready(3));
    assert_eq!(chan.recv(&mut laggard), BroadcastPoll::Ready(4));
    assert_eq!(chan.recv(&mut laggard), BroadcastPoll::Pending);
}

#[test]
fn broadcast_closes_when_all_senders_gone() {
    let mut chan: BroadcastChan<u64> = BroadcastChan::with_capacity(2);
    let mut sub = chan.subscribe();
    assert!(chan.send(9).is_ok());
    chan.drop_sender();
    assert_eq!(chan.recv(&mut sub), BroadcastPoll::Ready(9));
    assert_eq!(chan.recv(&mut sub), BroadcastPoll::Closed);
}

#[test]
fn broadcast_default_capacity_is_documented_value() {
    let chan: BroadcastChan<u64> = BroadcastChan::new();
    let _ = chan;
    assert_eq!(DEFAULT_CAPACITY, 1024);
}

#[test]
fn duplex_commands_flow_client_to_server() {
    let (mut chan, _client) = DuplexChan::<u64, u64>::new();
    assert!(chan.client_send(11).is_ok());
    assert!(chan.client_send(22).is_ok());
    assert_eq!(chan.server_receive(), RecvPoll::Ready(11));
    assert_eq!(chan.server_receive(), RecvPoll::Ready(22));
    assert_eq!(chan.server_receive(), RecvPoll::Pending);
}

#[test]
fn duplex_events_fan_out_to_every_client() {
    let (mut chan, mut first) = DuplexChan::<u64, u64>::new();
    let mut second = chan.client();
    assert!(chan.server_send(7).is_ok());
    assert!(chan.server_send(8).is_ok());
    assert_eq!(chan.client_receive(&mut first), BroadcastPoll::Ready(7));
    assert_eq!(chan.client_receive(&mut second), BroadcastPoll::Ready(7));
    assert_eq!(chan.client_receive(&mut first), BroadcastPoll::Ready(8));
    assert_eq!(chan.client_receive(&mut second), BroadcastPoll::Ready(8));
}

#[test]
fn duplex_send_after_server_drop_returns_payload() {
    let (mut chan, _client) = DuplexChan::<u64, u64>::new();
    chan.drop_server();
    match chan.client_send(99) {
        Ok(()) => panic!("command accepted after the server stopped reading"),
        Err(e) => assert_eq!(e.unsent_item(), 99),
    }
}

#[test]
fn duplex_event_send_with_no_clients_returns_payload() {
    let (mut chan, _client) = DuplexChan::<u64, u64>::new();
    chan.drop_client();
    match chan.server_send(5) {
        Ok(()) => panic!("event accepted with zero subscribed clients"),
        Err(e) => assert_eq!(e.unsent_item(), 5),
    }
}

#[test]
fn duplex_server_sees_close_when_clients_gone() {
    let (mut chan, _client) = DuplexChan::<u64, u64>::new();
    assert!(chan.client_send(1).is_ok());
    chan.drop_client();
    assert_eq!(chan.server_receive(), RecvPoll::Ready(1));
    assert_eq!(chan.server_receive(), RecvPoll::Closed);
}

#[test]
fn duplex_split_hands_back_both_halves() {
    let (mut chan, _client) = DuplexChan::<u64, u64>::new();
    assert!(chan.client_send(3).is_ok());
    assert!(chan.server_send(4).is_ok());
    let (mut commands, events) = chan.split();
    assert_eq!(commands.try_recv(), RecvPoll::Ready(3));
    let _ = events;
}

#[test]
fn select_resolves_to_whichever_is_ready() {
    // First ready: its result wins.
    assert!(matches!(select::<u64, u64>(Some(1), None), Some(Either::Left(1))));
    // Second ready: its result wins; the first poll found nothing, so there
    // is nothing to cancel.
    assert!(matches!(select::<u64, u64>(None, Some(2)), Some(Either::Right(2))));
    // Neither ready: the race stays pending.
    assert!(matches!(select::<u64, u64>(None, None), None));
    // Both ready: exactly one wins.
    assert!(matches!(select::<u64, u64>(Some(1), Some(2)), Some(Either::Left(1))));
}

#[test]
fn select3_resolves_in_declaration_order() {
    assert!(matches!(select3::<u64, u64, u64>(None, Some(5), None), Some(Either3::R2(5))));
    assert!(matches!(select3::<u64, u64, u64>(None, None, Some(6)), Some(Either3::R3(6))));
    assert!(matches!(select3::<u64, u64, u64>(None, None, None), None));
}

#[test]
fn abandoned_poll_leaves_channel_intact() {
    // A pending receive has no side effects: abandoning it (as a lost
    // select race does) and retrying later observes the same messages.
    let mut chan: UnboundedChan<u64> = UnboundedChan::new();
    assert!(matches!(chan.try_recv(), RecvPoll::Pending));
    assert!(chan.send(1).is_ok());
    assert_eq!(chan.try_recv(), RecvPoll::Ready(1));

    let mut bchan: BroadcastChan<u64> = BroadcastChan::with_capacity(2);
    let mut sub = bchan.subscribe();
    assert_eq!(bchan.recv(&mut sub), BroadcastPoll::Pending);
    assert!(bchan.send(2).is_ok());
    assert_eq!(bchan.recv(&mut sub), BroadcastPoll::Ready(2));
}

#[test]
fn unbounded_zero_messages_drains_empty() {
    let mut chan: UnboundedChan<u64> = UnboundedChan::new();
    assert_eq!(chan.recv_all(), Vec::<u64>::new());
}

#[test]
fn broadcast_capacity_one_keeps_only_the_newest() {
    let mut chan: BroadcastChan<u64> = BroadcastChan::with_capacity(1);
    let mut sub = chan.subscribe();
    assert!(chan.send(1).is_ok());
    assert!(chan.send(2).is_ok());
    assert!(chan.send(3).is_ok());
    assert_eq!(chan.recv(&mut sub), BroadcastPoll::Lagged(Lagged(2)));
    assert_eq!(chan.recv(&mut sub), BroadcastPoll::Ready(3));
    assert_eq!(chan.recv(&mut sub), BroadcastPoll::Pending);
}

#[test]
fn broadcast_reader_at_pace_never_lags() {
    let mut chan: BroadcastChan<u64> = BroadcastChan::with_capacity(2);
    let mut sub = chan.subscribe();
    for m in 0..50u64 {
        assert!(chan.send(m).is_ok());
        assert_eq!(chan.recv(&mut sub), BroadcastPoll::Ready(m));
    }
}
