use gb::fifo::FifoQueue;

#[test]
fn test_fifo_queue() {
    let mut q: FifoQueue<u8, 4> = FifoQueue::new();
    assert_eq!(q.len(), 0);
    q.push(1);
    assert_eq!(q.len(), 1);
    q.push(2);
    assert_eq!(q.len(), 2);
    q.push(3);
    assert_eq!(q.len(), 3);
    q.push(4);
    assert_eq!(q.len(), 4);

    assert_eq!(q.pop(), Some(1));
    assert_eq!(q.len(), 3);
    assert_eq!(q.pop(), Some(2));
    assert_eq!(q.len(), 2);
    assert_eq!(q.pop(), Some(3));
    assert_eq!(q.len(), 1);
    assert_eq!(q.pop(), Some(4));
    assert_eq!(q.len(), 0);
    assert!(q.is_empty());
    assert_eq!(q.pop(), None);

    q.push(1);
    q.push(1);
    q.push(1);
    assert_eq!(q.len(), 3);
    q.clear();
    assert!(q.is_empty());
}

#[test]
fn fifo_wraps_around_its_ring() {
    let mut q: FifoQueue<u16, 3> = FifoQueue::new();
    for round in 0..10u16 {
        q.push(round * 2);
        q.push(round * 2 + 1);
        assert_eq!(q.get_after_pop_head(0), Some(&(round * 2)));
        assert_eq!(q.get_after_pop_head(1), Some(&(round * 2 + 1)));
        assert_eq!(q.get_after_pop_head(2), None);
        assert_eq!(q.pop(), Some(round * 2));
        assert_eq!(q.pop(), Some(round * 2 + 1));
        assert_eq!(q.pop(), None);
    }
}

#[test]
fn fifo_items_are_replaced_in_place() {
    let mut q: FifoQueue<u8, 4> = FifoQueue::new();
    q.push(9);
    assert_eq!(q.pop(), Some(9));
    q.push(1);
    q.push(2);
    q.push(3);
    q.push(4);
    *q.get_mut_after_pop_head(3).unwrap() = 40;
    assert!(q.get_mut_after_pop_head(4).is_none());
    assert!(q.set_after_pop_head(1, 20));
    assert!(!q.set_after_pop_head(4, 50));
    assert_eq!(q.len(), 4);
    assert_eq!(q.pop(), Some(1));
    assert_eq!(q.pop(), Some(20));
    assert_eq!(q.pop(), Some(3));
    assert_eq!(q.pop(), Some(40));
    assert!(q.is_empty());
    q.push(7);
    q.clear();
    q.push(8);
    assert_eq!(q.get_after_pop_head(0), Some(&8));
    assert_eq!(q.pop(), Some(8));
}
