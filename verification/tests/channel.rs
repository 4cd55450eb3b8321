use channels::queue::Inner;
use channels::{channel, Receiver, Sender};
use std::collections::VecDeque;

#[test]
fn ping_pong() {
    let (mut tx, mut rx) = channel();
    tx.send(42);
    assert_eq!(rx.recv(), Some(42));
}

#[test]
fn closed_tx() {
    let (tx, mut rx) = channel::<()>();
    tx.retire();
    assert_eq!(rx.recv(), None);
}

#[test]
fn closed_rx() {
    let (mut tx, rx) = channel::<i32>();
    drop(rx);
    tx.send(42);
}

#[test]
fn three_sent_three_received_in_order() {
    let (mut tx, mut rx): (Sender<i32>, Receiver<i32>) = channel();
    tx.send(1);
    tx.send(2);
    tx.send(3);
    assert_eq!(rx.recv(), Some(1));
    assert_eq!(rx.recv(), Some(2));
    assert_eq!(rx.recv(), Some(3));
}

#[test]
fn no_send_then_retire_reports_closed() {
    let (tx, mut rx) = channel::<u8>();
    tx.retire();
    assert_eq!(rx.recv(), None);
}

#[test]
fn two_senders_keep_lock_order() {
    let (mut tx, mut rx) = channel::<i32>();
    let mut tx2 = tx.clone();
    tx2.send(10);
    tx.send(20);
    tx.retire();
    tx2.retire();
    assert_eq!(rx.recv(), Some(10));
    assert_eq!(rx.recv(), Some(20));
    assert_eq!(rx.recv(), None);
}

#[test]
fn buffered_payload_survives_closing() {
    let (mut tx, mut rx) = channel::<i32>();
    tx.send(5);
    tx.retire();
    assert_eq!(rx.recv(), Some(5));
    assert_eq!(rx.recv(), None);
}

#[test]
fn closed_stays_closed() {
    let (mut tx, mut rx) = channel::<i32>();
    tx.send(7);
    tx.retire();
    assert_eq!(rx.recv(), Some(7));
    for _ in 0..5 {
        assert_eq!(rx.recv(), None);
    }
}

#[test]
fn one_live_clone_keeps_the_channel_open() {
    let (tx, mut rx) = channel::<i32>();
    let mut tx2 = tx.clone();
    tx.retire();
    tx2.send(1);
    assert_eq!(rx.recv(), Some(1));
    tx2.send(2);
    tx2.send(3);
    tx2.send(4);
    assert_eq!(rx.recv(), Some(2));
    tx2.send(5);
    tx2.retire();
    assert_eq!(rx.recv(), Some(3));
    assert_eq!(rx.recv(), Some(4));
    assert_eq!(rx.recv(), Some(5));
    assert_eq!(rx.recv(), None);
}

#[test]
fn shared_state_transitions() {
    let mut inner: Inner<i32> = Inner::new();
    let mut buffer: VecDeque<i32> = VecDeque::new();
    assert_eq!(inner.senders(), 1);
    assert_eq!(inner.len(), 0);
    assert!(inner.is_idle());
    assert!(!inner.is_closed());
    assert_eq!(inner.take(&mut buffer), None);
    inner.enqueue(1);
    assert!(!inner.is_idle());
    assert_eq!(inner.take(&mut buffer), Some(1));
    assert!(buffer.is_empty());
    assert_eq!(inner.len(), 0);
    inner.enqueue(2);
    inner.enqueue(3);
    inner.enqueue(4);
    assert_eq!(inner.len(), 3);
    assert_eq!(inner.take(&mut buffer), Some(2));
    assert_eq!(inner.len(), 0);
    assert_eq!(buffer, VecDeque::from(vec![3, 4]));
    inner.add_sender();
    assert_eq!(inner.senders(), 2);
    assert!(!inner.remove_sender());
    assert!(inner.remove_sender());
    assert!(inner.is_closed());
    assert!(!inner.is_idle());
    assert!(inner.remove_sender());
    assert_eq!(inner.senders(), 0);
    inner.add_sender();
    assert_eq!(inner.senders(), 0);
    assert!(inner.is_closed());
    inner.enqueue(9);
    assert_eq!(inner.take(&mut buffer), Some(9));
    assert_eq!(buffer, VecDeque::from(vec![3, 4]));
}

#[test]
fn receiver_serves_its_buffer_before_the_queue() {
    let (mut tx, mut rx) = channel::<i32>();
    tx.send(1);
    tx.send(2);
    tx.send(3);
    assert_eq!(rx.recv(), Some(1));
    tx.send(4);
    assert_eq!(rx.recv(), Some(2));
    assert_eq!(rx.recv(), Some(3));
    assert_eq!(rx.recv(), Some(4));
    tx.retire();
    assert_eq!(rx.recv(), None);
}
