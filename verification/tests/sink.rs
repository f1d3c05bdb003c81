use std::sync::{Arc, Mutex};

use corofuture::{new_mpsc_consumer, MpscContext, MpscSendResult};

#[test]
fn items_are_delivered_in_order() {
    let seen = Arc::new(Mutex::new(Vec::new()));
    let seen_inside = seen.clone();
    let sender = new_mpsc_consumer(move |context: MpscContext<i64>| {
        for _ in 0..3 {
            let item = context.next();
            seen_inside.lock().unwrap().push(item);
        }
    });
    // The first send starts the consumer's execution; its item is the one
    // the first `next` retrieves, so nothing is lost.
    assert_eq!(sender.send(1), MpscSendResult::Delivered);
    assert_eq!(sender.send(2), MpscSendResult::Delivered);
    // The third item satisfies the consumer's last request, after which
    // the consumer returns: that very send observes the closure.
    assert_eq!(sender.send(3), MpscSendResult::Closed);
    assert_eq!(*seen.lock().unwrap(), vec![1, 2, 3]);
    assert_eq!(sender.send(4), MpscSendResult::Closed);
    assert_eq!(*seen.lock().unwrap(), vec![1, 2, 3]);
}

#[test]
fn closed_is_terminal_for_every_later_send() {
    let sender = new_mpsc_consumer(|context: MpscContext<u32>| {
        context.next();
        context.next();
    });
    assert_eq!(sender.send(10), MpscSendResult::Delivered);
    assert_eq!(sender.send(11), MpscSendResult::Closed);
    assert_eq!(sender.send(12), MpscSendResult::Closed);
    assert_eq!(sender.send(13), MpscSendResult::Closed);
}

#[test]
fn consumer_that_never_asks_closes_at_once() {
    let sender = new_mpsc_consumer(|_context: MpscContext<u32>| {});
    assert_eq!(sender.send(1), MpscSendResult::Closed);
    assert_eq!(sender.send(2), MpscSendResult::Closed);
}

#[test]
fn clones_deliver_to_the_same_consumer() {
    let seen = Arc::new(Mutex::new(Vec::new()));
    let seen_inside = seen.clone();
    let sender = new_mpsc_consumer(move |context: MpscContext<i64>| {
        for _ in 0..4 {
            let item = context.next();
            seen_inside.lock().unwrap().push(item);
        }
    });
    let second = sender.clone();
    assert_eq!(sender.identity(), second.identity());
    assert_eq!(sender.send(0), MpscSendResult::Delivered);
    assert_eq!(second.send(1), MpscSendResult::Delivered);
    assert_eq!(sender.send(2), MpscSendResult::Delivered);
    assert_eq!(second.send(3), MpscSendResult::Closed);
    assert_eq!(*seen.lock().unwrap(), vec![0, 1, 2, 3]);
    assert_eq!(sender.send(4), MpscSendResult::Closed);
    assert_eq!(second.send(5), MpscSendResult::Closed);
    assert_eq!(*seen.lock().unwrap(), vec![0, 1, 2, 3]);
}

#[test]
fn distinct_channels_have_distinct_identities() {
    let one = new_mpsc_consumer(|context: MpscContext<u32>| {
        context.next();
    });
    let two = new_mpsc_consumer(|context: MpscContext<u32>| {
        context.next();
    });
    assert_ne!(one.identity(), two.identity());
}
