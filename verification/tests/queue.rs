use beatmap_downloader::queue::JobQueue;

#[test]
fn queue_is_first_in_first_out() {
    let mut queue = JobQueue::new(5);
    assert!(!queue.is_closed());
    assert_eq!(queue.try_pop(), None);
    assert!(queue.try_push(3));
    assert!(queue.try_push(4));
    assert!(queue.try_push(5));
    assert_eq!(queue.try_pop(), Some(3));
    assert!(queue.try_push(6));
    assert_eq!(queue.try_pop(), Some(4));
    assert_eq!(queue.try_pop(), Some(5));
    assert_eq!(queue.try_pop(), Some(6));
    assert_eq!(queue.try_pop(), None);
}

#[test]
fn queue_refuses_when_full() {
    let mut queue = JobQueue::new(2);
    assert!(queue.try_push(1));
    assert!(queue.try_push(2));
    assert!(!queue.try_push(3));
    assert!(!queue.try_push(3));
    assert_eq!(queue.try_pop(), Some(1));
    assert!(queue.try_push(3));
    assert!(!queue.try_push(4));
    assert_eq!(queue.try_pop(), Some(2));
    assert_eq!(queue.try_pop(), Some(3));
    assert_eq!(queue.try_pop(), None);
}

#[test]
fn queue_of_one_slot() {
    let mut queue = JobQueue::new(1);
    assert!(queue.try_push(7));
    assert!(!queue.try_push(8));
    assert_eq!(queue.try_pop(), Some(7));
    assert_eq!(queue.try_pop(), None);
    assert!(queue.try_push(8));
}

#[test]
fn closed_queue_can_be_drained() {
    let mut queue = JobQueue::new(3);
    assert!(queue.try_push(1));
    assert!(queue.try_push(2));
    queue.close();
    assert!(queue.is_closed());
    assert!(!queue.try_push(3));
    assert_eq!(queue.try_pop(), Some(1));
    assert_eq!(queue.try_pop(), Some(2));
    assert_eq!(queue.try_pop(), None);
    assert!(!queue.try_push(3));
    queue.close();
    assert!(queue.is_closed());
}
