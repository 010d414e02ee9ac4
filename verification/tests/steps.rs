use mpsc_channel::channel_v1::is_last_producer;
use mpsc_channel::channel_v2::Inner;
use mpsc_channel::error::SendError;
use mpsc_channel::queue::{pop_batch, pop_local, push_newest, shall_wait};
use std::collections::VecDeque;

#[test]
fn pop_local_takes_the_oldest() {
    let mut buffer: VecDeque<i32> = VecDeque::from(vec![4, 5, 6]);
    assert_eq!(pop_local(&mut buffer), Some(4));
    assert_eq!(buffer, VecDeque::from(vec![5, 6]));
    assert_eq!(pop_local(&mut buffer), Some(5));
    assert_eq!(pop_local(&mut buffer), Some(6));
    assert_eq!(pop_local(&mut buffer), None);
    assert!(buffer.is_empty());
}

#[test]
fn pop_batch_moves_the_rest_into_the_buffer() {
    let mut queue: VecDeque<i32> = VecDeque::from(vec![1, 2, 3]);
    let mut buffer: VecDeque<i32> = VecDeque::new();
    assert_eq!(pop_batch(&mut queue, &mut buffer), Some(1));
    assert!(queue.is_empty());
    assert_eq!(buffer, VecDeque::from(vec![2, 3]));
}

#[test]
fn pop_batch_of_one_value_leaves_both_empty() {
    let mut queue: VecDeque<i32> = VecDeque::from(vec![9]);
    let mut buffer: VecDeque<i32> = VecDeque::new();
    assert_eq!(pop_batch(&mut queue, &mut buffer), Some(9));
    assert!(queue.is_empty());
    assert!(buffer.is_empty());
}

#[test]
fn pop_batch_of_empty_queue_changes_nothing() {
    let mut queue: VecDeque<i32> = VecDeque::new();
    let mut buffer: VecDeque<i32> = VecDeque::from(vec![7, 8]);
    assert_eq!(pop_batch(&mut queue, &mut buffer), None);
    assert!(queue.is_empty());
    assert_eq!(buffer, VecDeque::from(vec![7, 8]));
}

#[test]
fn pop_batch_swaps_queue_and_buffer() {
    let mut queue: VecDeque<i32> = VecDeque::from(vec![1, 2]);
    let mut buffer: VecDeque<i32> = VecDeque::from(vec![7, 8]);
    assert_eq!(pop_batch(&mut queue, &mut buffer), Some(1));
    assert_eq!(queue, VecDeque::from(vec![7, 8]));
    assert_eq!(buffer, VecDeque::from(vec![2]));
}

#[test]
fn shall_wait_only_on_empty_queue_with_producers() {
    let empty: VecDeque<i32> = VecDeque::new();
    let full: VecDeque<i32> = VecDeque::from(vec![1]);
    assert!(shall_wait(&empty, 1));
    assert!(shall_wait(&empty, usize::MAX));
    assert!(!shall_wait(&empty, 0));
    assert!(!shall_wait(&full, 1));
    assert!(!shall_wait(&full, 0));
}

#[test]
fn inner_starts_with_one_producer_and_no_value() {
    let mut inner: Inner<i32> = Inner::new();
    assert!(inner.must_wait());
    let mut buffer: VecDeque<i32> = VecDeque::new();
    assert_eq!(inner.take_batch(&mut buffer), None);
    assert!(buffer.is_empty());
    assert!(inner.remove_producer());
    assert!(!inner.must_wait());
}

#[test]
fn inner_push_then_take_batch() {
    let mut inner: Inner<i32> = Inner::new();
    inner.push(1);
    inner.push(2);
    inner.push(3);
    assert!(!inner.must_wait());
    let mut buffer: VecDeque<i32> = VecDeque::new();
    assert_eq!(inner.take_batch(&mut buffer), Some(1));
    assert_eq!(buffer, VecDeque::from(vec![2, 3]));
    assert!(inner.must_wait());
    let mut other: VecDeque<i32> = VecDeque::new();
    assert_eq!(inner.take_batch(&mut other), None);
    assert!(other.is_empty());
}

#[test]
fn inner_counts_producers() {
    let mut inner: Inner<i32> = Inner::new();
    inner.add_producer();
    inner.add_producer();
    assert!(!inner.remove_producer());
    assert!(inner.must_wait());
    assert!(!inner.remove_producer());
    assert!(inner.must_wait());
    assert!(inner.remove_producer());
    assert!(!inner.must_wait());
}

#[test]
fn inner_count_stops_at_zero() {
    let mut inner: Inner<i32> = Inner::new();
    assert!(inner.remove_producer());
    assert!(inner.remove_producer());
    inner.add_producer();
    assert!(inner.must_wait());
    assert!(inner.remove_producer());
}

#[test]
fn send_error_message_is_its_name() {
    assert_eq!(SendError.message(), "SendError");
    assert_eq!(SendError.message(), format!("{:?}", SendError));
}

#[test]
fn is_last_producer_counts_one() {
    assert!(is_last_producer(1));
    assert!(!is_last_producer(0));
    assert!(!is_last_producer(2));
    assert!(!is_last_producer(usize::MAX));
}

#[test]
fn push_newest_goes_to_the_tail() {
    let mut queue: VecDeque<i32> = VecDeque::new();
    push_newest(&mut queue, 3);
    push_newest(&mut queue, 1);
    push_newest(&mut queue, 2);
    assert_eq!(queue, VecDeque::from(vec![3, 1, 2]));
    let mut buffer: VecDeque<i32> = VecDeque::new();
    assert_eq!(pop_batch(&mut queue, &mut buffer), Some(3));
    assert_eq!(buffer, VecDeque::from(vec![1, 2]));
}
