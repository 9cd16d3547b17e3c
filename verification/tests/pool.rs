use arkouda_proxy::pool::SessionPool;
use arkouda_proxy::read::{ReadPoll, ZmqRead};

#[test]
fn pool_starts_empty() {
    let pool = SessionPool::new(3);
    assert_eq!(pool.capacity(), 3);
    assert_eq!(pool.in_use(), 0);
    assert_eq!(pool.available(), 3);
}

#[test]
fn pool_never_hands_out_more_than_it_has() {
    let mut pool = SessionPool::new(2);
    assert!(pool.checkout());
    assert!(pool.checkout());
    assert!(!pool.checkout());
    assert_eq!(pool.in_use(), 2);
    assert_eq!(pool.available(), 0);
    assert!(pool.checkin());
    assert_eq!(pool.in_use(), 1);
    assert!(pool.checkout());
    assert!(!pool.checkout());
}

#[test]
fn pool_checkin_without_checkout_does_nothing() {
    let mut pool = SessionPool::new(1);
    assert!(!pool.checkin());
    assert_eq!(pool.in_use(), 0);
    assert!(pool.checkout());
    assert!(pool.checkin());
    assert!(!pool.checkin());
    assert_eq!(pool.available(), 1);
}

#[test]
fn pool_of_nothing_refuses() {
    let mut pool = SessionPool::new(0);
    assert!(!pool.checkout());
    assert_eq!(pool.available(), 0);
}

#[test]
fn read_is_pending_until_data_arrives() {
    let mut read = ZmqRead::new();
    assert!(!read.is_waiting());
    assert!(!read.is_done());
    assert_eq!(read.poll(None), ReadPoll::Pending);
    assert!(read.is_waiting());
    assert!(!read.is_done());
    assert_eq!(read.poll(None), ReadPoll::Pending);
    assert_eq!(read.poll(Some(vec![1, 2, 3])), ReadPoll::Ready(vec![1, 2, 3]));
    assert!(!read.is_waiting());
    assert!(read.is_done());
}

#[test]
fn read_hands_out_data_that_is_there_at_once() {
    let mut read = ZmqRead::new();
    assert_eq!(read.poll(Some(Vec::new())), ReadPoll::Ready(Vec::new()));
    assert!(read.is_done());
}
