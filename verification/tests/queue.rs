use bwmp::queue::Queue;

#[test]
fn queue_is_first_in_first_out() {
    let mut q = Queue::new();
    q.enqueue(3);
    q.enqueue(7);
    assert_eq!(q.dequeue(), Some(3));
    assert_eq!(q.dequeue(), Some(7));
    assert_eq!(q.dequeue(), None);
}

#[test]
fn queue_keeps_count() {
    let mut q = Queue::new();
    assert!(q.is_empty());
    assert_eq!(q.len(), 0);
    q.enqueue(5);
    q.enqueue(5);
    q.enqueue(1);
    assert!(!q.is_empty());
    assert_eq!(q.len(), 3);
    assert_eq!(q.get(0), 5);
    assert_eq!(q.get(1), 5);
    assert_eq!(q.get(2), 1);
    assert_eq!(q.dequeue(), Some(5));
    assert_eq!(q.len(), 2);
    assert_eq!(q.get(0), 5);
    assert_eq!(q.get(1), 1);
}

#[test]
fn empty_queue_gives_nothing_and_stays_empty() {
    let mut q = Queue::new();
    assert_eq!(q.dequeue(), None);
    assert_eq!(q.dequeue(), None);
    assert!(q.is_empty());
    q.enqueue(9);
    assert_eq!(q.dequeue(), Some(9));
    assert_eq!(q.dequeue(), None);
}
