use std::collections::VecDeque;

use channels::channel::Channel;
use channels::queue::Queue;

#[test]
#[allow(non_snake_case)]
fn case_SingleSender() {
    let (mut sender, mut receiver) = Channel::new();

    sender.send(42);
    assert_eq!(Some(42), receiver.receive());
}

#[test]
#[allow(non_snake_case)]
fn case_NoSenders() {
    let (sender, mut receiver) = Channel::<()>::new();

    drop(sender);
    assert_eq!(None, receiver.receive());
}

#[test]
fn fifo_order_is_kept() {
    let (mut sender, mut receiver) = Channel::new();

    sender.send(1);
    sender.send(2);
    sender.send(3);
    assert_eq!(Some(1), receiver.receive());
    assert_eq!(Some(2), receiver.receive());
    assert_eq!(Some(3), receiver.receive());
}

#[test]
fn cloned_senders_keep_channel_open() {
    let (sender, mut receiver) = Channel::<u32>::new();

    let second = sender.clone();
    let third = sender.clone();
    drop(sender);
    drop(second);
    let mut last = third;
    last.send(7);
    drop(last);
    assert_eq!(Some(7), receiver.receive());
    assert_eq!(None, receiver.receive());
}

#[test]
fn draining_precedes_closed_and_closed_is_permanent() {
    let (mut sender, mut receiver) = Channel::new();

    sender.send(10);
    sender.send(20);
    drop(sender);
    assert_eq!(Some(10), receiver.receive());
    assert_eq!(Some(20), receiver.receive());
    assert_eq!(None, receiver.receive());
    assert_eq!(None, receiver.receive());
}

#[test]
fn pushed_values_are_delivered_in_push_order() {
    let (mut sender, mut receiver) = Channel::new();

    for i in 0..5 {
        sender.send(i);
    }
    for i in 0..5 {
        assert_eq!(Some(i), receiver.receive());
    }
}

#[test]
fn take_front_batches_the_remainder_into_the_cache() {
    let mut q: Queue<u32> = Queue::new();
    let mut cache: VecDeque<u32> = VecDeque::new();

    q.enqueue(1);
    q.enqueue(2);
    q.enqueue(3);
    q.enqueue(4);
    q.enqueue(5);
    // The first take hits the shared queue and carries the remainder along.
    assert_eq!(Some(1), q.take_front(&mut cache));
    assert_eq!(vec![2, 3, 4, 5], cache.iter().copied().collect::<Vec<u32>>());
    // The following reads are served from the cache alone.
    assert_eq!(Some(2), cache.pop_front());
    assert_eq!(Some(3), cache.pop_front());
    assert_eq!(Some(4), cache.pop_front());
    assert_eq!(Some(5), cache.pop_front());
    assert_eq!(None, q.take_front(&mut cache));
}

#[test]
fn receive_step_prefers_the_cache() {
    let mut q: Queue<u32> = Queue::new();
    let mut cache: VecDeque<u32> = VecDeque::new();

    q.enqueue(1);
    q.enqueue(2);
    assert_eq!(Some(1), q.receive_step(&mut cache));
    // The remainder now sits in the cache; the shared queue is empty.
    q.enqueue(3);
    assert_eq!(Some(2), q.receive_step(&mut cache));
    assert_eq!(Some(3), q.receive_step(&mut cache));
    assert_eq!(None, q.receive_step(&mut cache));
}

#[test]
fn sender_count_reaches_zero_exactly_at_the_last_removal() {
    let mut q: Queue<u32> = Queue::new();

    q.add_sender();
    q.add_sender();
    assert!(!q.remove_sender());
    assert!(!q.remove_sender());
    assert!(q.remove_sender());
}

#[test]
fn no_producer_means_no_waiting() {
    let mut q: Queue<u32> = Queue::new();

    q.enqueue(9);
    assert!(!q.must_wait());
    assert!(q.remove_sender());
    let mut cache: VecDeque<u32> = VecDeque::new();
    assert_eq!(Some(9), q.take_front(&mut cache));
    // Closed: empty and without producers, the consumer never waits.
    assert!(!q.must_wait());
    assert_eq!(None, q.take_front(&mut cache));
}

#[test]
fn fresh_queue_waits_until_something_arrives() {
    let mut q: Queue<u32> = Queue::new();

    assert!(q.must_wait());
    q.enqueue(1);
    assert!(!q.must_wait());
}
