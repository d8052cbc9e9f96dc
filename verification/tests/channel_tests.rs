use std::time::Duration;

use mio::{Events, Interest, Poll, Token};

use mio_channel::{channel, sync_channel, TryRecvError, TrySendError};

fn poll_once(poll: &mut Poll, events: &mut Events, timeout_ms: u64) -> Vec<Token> {
    events.clear();
    poll.poll(events, Some(Duration::from_millis(timeout_ms))).unwrap();
    events.iter().map(|e| e.token()).collect()
}

#[test]
fn unbounded_sends_drain_exactly_once_in_producer_order() {
    let (tx1, rx) = channel();
    let tx2 = tx1.clone();

    tx1.send(1).unwrap();
    tx2.send(2).unwrap();
    tx1.send(3).unwrap();
    tx2.send(4).unwrap();
    tx1.send(5).unwrap();

    let mut drained = Vec::new();
    while let Ok(v) = rx.try_recv() {
        drained.push(v);
    }

    assert_eq!(drained.len(), 5);
    let from_tx1: Vec<i32> = drained.iter().copied().filter(|v| v % 2 == 1).collect();
    let from_tx2: Vec<i32> = drained.iter().copied().filter(|v| v % 2 == 0).collect();
    assert_eq!(from_tx1, vec![1, 3, 5]);
    assert_eq!(from_tx2, vec![2, 4]);
    assert_eq!(rx.try_recv(), Err(TryRecvError::Empty));
}

#[test]
fn register_then_send_wakes_poll() {
    let mut poll = Poll::new().unwrap();
    let mut events = Events::with_capacity(4);
    let (tx, mut rx) = channel();

    rx.register(poll.registry(), Token(7), Interest::READABLE).unwrap();
    tx.send(99).unwrap();

    let tokens = poll_once(&mut poll, &mut events, 5000);
    assert_eq!(tokens, vec![Token(7)]);
    assert_eq!(rx.try_recv(), Ok(99));
}

#[test]
fn second_register_is_a_no_op() {
    let mut poll = Poll::new().unwrap();
    let mut events = Events::with_capacity(4);
    let (tx, mut rx) = channel();

    rx.register(poll.registry(), Token(1), Interest::READABLE).unwrap();
    rx.register(poll.registry(), Token(2), Interest::WRITABLE).unwrap();

    tx.send("v").unwrap();

    let tokens = poll_once(&mut poll, &mut events, 5000);
    assert!(!tokens.is_empty());
    assert!(tokens.iter().all(|t| *t == Token(1)));
    assert_eq!(rx.try_recv(), Ok("v"));
}

#[test]
fn reregister_after_the_handle_exists_is_refused_and_keeps_the_registration() {
    let mut poll1 = Poll::new().unwrap();
    let mut poll2 = Poll::new().unwrap();
    let mut events = Events::with_capacity(4);
    let (tx, mut rx) = channel();

    rx.register(poll1.registry(), Token(1), Interest::READABLE).unwrap();
    assert!(rx.reregister(poll2.registry(), Token(9), Interest::READABLE).is_err());

    tx.send(5u8).unwrap();

    let tokens = poll_once(&mut poll1, &mut events, 5000);
    assert_eq!(tokens, vec![Token(1)]);
    let other = poll_once(&mut poll2, &mut events, 100);
    assert!(other.is_empty());
    assert_eq!(rx.try_recv(), Ok(5u8));
}

#[test]
fn register_after_deregister_is_refused_but_sends_still_enqueue() {
    let mut poll = Poll::new().unwrap();
    let mut events = Events::with_capacity(4);
    let (tx, mut rx) = channel();

    rx.register(poll.registry(), Token(1), Interest::READABLE).unwrap();
    rx.deregister(poll.registry()).unwrap();
    assert!(rx.register(poll.registry(), Token(2), Interest::READABLE).is_err());

    tx.send(21).unwrap();

    let tokens = poll_once(&mut poll, &mut events, 200);
    assert!(tokens.is_empty());
    assert_eq!(rx.try_recv(), Ok(21));
}

#[test]
fn reregister_installs_even_when_the_slot_was_empty() {
    let mut poll = Poll::new().unwrap();
    let mut events = Events::with_capacity(4);
    let (tx, mut rx) = channel();

    rx.reregister(poll.registry(), Token(3), Interest::READABLE).unwrap();
    tx.send(1u64).unwrap();

    let tokens = poll_once(&mut poll, &mut events, 5000);
    assert_eq!(tokens, vec![Token(3)]);
    assert_eq!(rx.try_recv(), Ok(1u64));
}

#[test]
fn deregister_clears_and_later_sends_enqueue_without_wake() {
    let mut poll = Poll::new().unwrap();
    let mut events = Events::with_capacity(4);
    let (tx, mut rx) = channel();

    rx.register(poll.registry(), Token(1), Interest::READABLE).unwrap();
    rx.deregister(poll.registry()).unwrap();

    tx.send(11).unwrap();

    let tokens = poll_once(&mut poll, &mut events, 200);
    assert!(tokens.is_empty());
    assert_eq!(rx.try_recv(), Ok(11));
}

#[test]
fn dropping_every_sender_reports_disconnected_after_drain() {
    let (tx, rx) = channel();
    let tx2 = tx.clone();

    tx.send(1).unwrap();
    tx2.send(2).unwrap();
    drop(tx);
    drop(tx2);

    assert_eq!(rx.try_recv(), Ok(1));
    assert_eq!(rx.try_recv(), Ok(2));
    assert_eq!(rx.try_recv(), Err(TryRecvError::Disconnected));
}

#[test]
fn dropping_the_only_sender_before_any_send_disconnects() {
    let (tx, rx) = channel::<u32>();
    drop(tx);
    assert_eq!(rx.try_recv(), Err(TryRecvError::Disconnected));
}

#[test]
fn bounded_capacity_one_fills_drains_and_wakes_again() {
    let mut poll = Poll::new().unwrap();
    let mut events = Events::with_capacity(4);
    let (tx, mut rx) = sync_channel(1);

    rx.register(poll.registry(), Token(4), Interest::READABLE).unwrap();

    tx.try_send(10).unwrap();
    match tx.try_send(11) {
        Err(TrySendError::Full(v)) => assert_eq!(v, 11),
        other => panic!("expected a full queue, got {:?}", other),
    }

    let tokens = poll_once(&mut poll, &mut events, 5000);
    assert_eq!(tokens, vec![Token(4)]);

    assert_eq!(rx.try_recv(), Ok(10));
    tx.try_send(12).unwrap();

    let tokens = poll_once(&mut poll, &mut events, 5000);
    assert_eq!(tokens, vec![Token(4)]);
    assert_eq!(rx.try_recv(), Ok(12));
}

#[test]
fn bounded_blocking_send_within_capacity_and_clone() {
    let (tx, rx) = sync_channel(2);
    let tx2 = tx.clone();

    tx.send(1).unwrap();
    tx2.send(2).unwrap();

    assert_eq!(rx.try_recv(), Ok(1));
    assert_eq!(rx.try_recv(), Ok(2));
    assert_eq!(rx.try_recv(), Err(TryRecvError::Empty));
}

#[test]
fn send_after_receiver_dropped_returns_the_value() {
    let (tx, rx) = channel();
    drop(rx);
    match tx.send(42) {
        Err(e) => assert_eq!(e.0, 42),
        Ok(()) => panic!("send succeeded with no receiver"),
    }
}

#[test]
fn bounded_sends_after_receiver_dropped_return_the_value() {
    let (tx, rx) = sync_channel(1);
    drop(rx);
    match tx.send(7) {
        Err(e) => assert_eq!(e.0, 7),
        Ok(()) => panic!("send succeeded with no receiver"),
    }
    match tx.try_send(8) {
        Err(TrySendError::Disconnected(v)) => assert_eq!(v, 8),
        other => panic!("expected disconnection, got {:?}", other),
    }
}

#[test]
fn try_recv_on_a_quiet_channel_is_empty() {
    let (tx, rx) = channel::<u8>();
    assert_eq!(rx.try_recv(), Err(TryRecvError::Empty));
    drop(tx);
}

#[test]
fn hello_world_end_to_end() {
    let mut poll = Poll::new().unwrap();
    let mut events = Events::with_capacity(2);
    let (tx, mut rx) = channel();

    rx.register(poll.registry(), Token(0), Interest::READABLE).unwrap();

    tx.send("Hello world!").unwrap();

    poll.poll(&mut events, None).unwrap();
    let tokens: Vec<Token> = events.iter().map(|e| e.token()).collect();
    assert_eq!(tokens, vec![Token(0)]);
    assert!(events.iter().all(|e| e.is_readable()));
    assert_eq!(rx.try_recv(), Ok("Hello world!"));
}
