use pythia::linked_queue::{LinkedQueue, QueueState};

#[test]
fn offer_then_poll_is_fifo() {
    let q = LinkedQueue::with_capacity(3);
    assert!(q.is_empty());
    assert_eq!(q.offer(1), Ok(()));
    assert_eq!(q.offer(2), Ok(()));
    assert_eq!(q.offer(3), Ok(()));
    assert_eq!(q.len(), 3);
    assert_eq!(q.offer(4), Err(4));
    assert_eq!(q.poll(), Some(1));
    assert_eq!(q.poll(), Some(2));
    assert_eq!(q.poll(), Some(3));
    assert_eq!(q.poll(), None);
    assert!(q.is_empty());
}

#[test]
fn put_after_take_made_room() {
    let q = LinkedQueue::with_capacity(2);
    q.put(1);
    q.put(2);
    assert_eq!(q.offer(3), Err(3));

    let q2 = q.clone();
    assert_eq!(q.len(), 2);
    assert_eq!(q.take(), 1);
    q2.put(3);

    assert_eq!(q.len(), 2);
    assert_eq!(q.take(), 2);
    assert_eq!(q.take(), 3);
    assert!(q.is_empty());
}

#[test]
fn queue_state_offer_and_poll() {
    let mut s = QueueState::new(1);
    assert_eq!(s.offer("a"), Ok(()));
    assert_eq!(s.offer("b"), Err("b"));
    assert_eq!(s.len(), 1);
    assert_eq!(s.poll(), Some("a"));
    assert_eq!(s.poll(), None);
}

#[test]
fn a_queue_without_a_bound_takes_many() {
    let q = LinkedQueue::new();
    for i in 0..1000 {
        q.put(i);
    }
    assert_eq!(q.len(), 1000);
    for i in 0..1000 {
        assert_eq!(q.take(), i);
    }
    assert!(q.is_empty());
    assert_eq!(q.poll(), None);
}

#[test]
fn a_queue_of_capacity_zero_takes_nothing() {
    let q = LinkedQueue::with_capacity(0);
    assert_eq!(q.offer(1), Err(1));
    assert_eq!(q.poll(), None);
    assert_eq!(q.len(), 0);
}

#[test]
fn clones_share_the_queue() {
    let q = LinkedQueue::with_capacity(2);
    let q2 = q.clone();
    q.put("a");
    q2.put("b");
    assert_eq!(q.offer("c"), Err("c"));
    assert_eq!(q2.take(), "a");
    assert_eq!(q.take(), "b");
    assert!(q2.is_empty());
}

#[test]
fn queue_state_enqueue_and_dequeue() {
    let mut s = QueueState::new(3);
    assert!(s.is_empty());
    s.enqueue(1);
    s.enqueue(2);
    assert!(!s.is_full());
    s.enqueue(3);
    assert!(s.is_full());
    assert_eq!(s.dequeue(), 1);
    assert_eq!(s.dequeue(), 2);
    assert_eq!(s.len(), 1);
    assert_eq!(s.dequeue(), 3);
    assert!(s.is_empty());
}
