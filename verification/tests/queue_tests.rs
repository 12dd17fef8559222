use echo_lib::queue::{OutboundQueue, QUEUE_CAPACITY};

#[test]
fn lines_come_out_in_the_order_typed() {
    let mut q = OutboundQueue::new();
    q.push(b"a".to_vec());
    q.push(b"b".to_vec());
    q.push(b"c".to_vec());
    assert_eq!(q.pop(), Some(b"a".to_vec()));
    assert_eq!(q.pop(), Some(b"b".to_vec()));
    assert_eq!(q.pop(), Some(b"c".to_vec()));
    assert_eq!(q.pop(), None);
}

#[test]
fn pop_on_empty_returns_nothing() {
    let mut q = OutboundQueue::new();
    assert_eq!(q.len(), 0);
    assert_eq!(q.pop(), None);
}

#[test]
fn backpressure_at_capacity() {
    let mut q = OutboundQueue::new();
    for i in 0..QUEUE_CAPACITY {
        assert!(q.has_tailroom());
        q.push(vec![(i % 256) as u8]);
    }
    assert_eq!(q.len(), QUEUE_CAPACITY);
    assert!(!q.has_tailroom());
    // Draining one message makes room again, and order is still FIFO.
    assert_eq!(q.pop(), Some(vec![0u8]));
    assert!(q.has_tailroom());
}
