use moonegg_core::pipeline::{BoundedQueue, QueueError, QueuePushResult};

#[derive(Debug, PartialEq, Eq)]
struct TestToken(String);

fn test_bounded_queue() -> BoundedQueue<TestToken> {
    BoundedQueue::new(2).unwrap()
}

fn token(value: &str) -> TestToken {
    TestToken(value.to_owned())
}

#[test]
fn full_queue_returns_item_and_preserves_fifo_order() {
    let mut queue = test_bounded_queue();

    assert!(matches!(queue.push(token("1")), QueuePushResult::Accepted));

    assert!(matches!(queue.push(token("2")), QueuePushResult::Accepted));

    assert!(queue.is_full());
    assert_eq!(queue.len(), 2);
    assert_eq!(queue.capacity(), 2);

    let returned = match queue.push(token("3")) {
        QueuePushResult::Accepted => {
            panic!("expected full queue to return the item")
        }
        QueuePushResult::Full(item) => item,
    };

    assert_eq!(returned, token("3"));

    assert_eq!(queue.len(), 2);

    assert_eq!(queue.pop(), Some(token("1")));
    assert_eq!(queue.pop(), Some(token("2")));
    assert_eq!(queue.pop(), None);
    assert!(queue.is_empty());
}

#[test]
fn drain_returns_all_items_and_empties_queue() {
    let mut queue = test_bounded_queue();

    assert!(matches!(queue.push(token("1")), QueuePushResult::Accepted));

    assert!(matches!(queue.push(token("2")), QueuePushResult::Accepted));

    let drained: Vec<TestToken> = queue.drain();

    assert_eq!(drained, vec![token("1"), token("2")]);

    assert!(queue.is_empty());
    assert_eq!(queue.len(), 0);
}

#[test]
fn zero_capacity_is_rejected() {
    assert!(matches!(BoundedQueue::<u8>::new(0), Err(QueueError::InvalidCapacity)));
}

#[test]
fn queue_accepts_again_after_pop() {
    let mut queue: BoundedQueue<u32> = BoundedQueue::new(1).unwrap();
    assert!(matches!(queue.push(7), QueuePushResult::Accepted));
    assert!(matches!(queue.push(8), QueuePushResult::Full(8)));
    assert_eq!(queue.pop(), Some(7));
    assert!(matches!(queue.push(9), QueuePushResult::Accepted));
    assert_eq!(queue.drain(), vec![9]);
}
