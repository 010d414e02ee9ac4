use mpsc_channel::channel_v1::{channel, deliver};
use mpsc_channel::error::SendError;

#[test]
fn channel_v1_test_rx_tx() -> anyhow::Result<()> {
    let (tx, mut rx) = channel();
    let _ = tx.send(1);
    assert_eq!(rx.recv(), Some(1));
    Ok(())
}

#[test]
fn channel_v1_test_drop_rx() {
    let (tx, mut rx) = channel::<i32>();
    drop(tx);
    let _ = rx.recv();
}

#[test]
fn v1_send_reports_success() {
    let (tx, mut rx) = channel::<i32>();
    assert_eq!(tx.send(7), Ok(()));
    assert_eq!(rx.recv(), Some(7));
}

#[test]
fn v1_recv_after_last_producer_is_none() {
    let (tx, mut rx) = channel::<i32>();
    drop(tx);
    assert_eq!(rx.recv(), None);
    assert_eq!(rx.recv(), None);
    assert_eq!(rx.recv(), None);
}

#[test]
fn v1_pending_values_survive_the_producer() {
    let (tx, mut rx) = channel::<i32>();
    assert_eq!(tx.send(1), Ok(()));
    assert_eq!(tx.send(2), Ok(()));
    drop(tx);
    assert_eq!(rx.recv(), Some(1));
    assert_eq!(rx.recv(), Some(2));
    assert_eq!(rx.recv(), None);
    assert_eq!(rx.recv(), None);
}

#[test]
fn v1_send_without_consumer_fails() {
    let (tx, rx) = channel::<i32>();
    drop(rx);
    assert_eq!(tx.send(1), Err(SendError));
    assert_eq!(tx.send(2), Err(SendError));
}

#[test]
fn v1_clone_without_consumer_fails_too() {
    let (tx, rx) = channel::<i32>();
    let other = tx.clone();
    drop(rx);
    assert_eq!(other.send(1), Err(SendError));
    drop(tx);
    assert_eq!(other.send(2), Err(SendError));
}

#[test]
fn v1_deliver_without_owner_is_send_error() {
    assert_eq!(deliver::<i32>(None, 5), Err(SendError));
}

#[test]
fn v1_fifo_single_producer() {
    let (tx, mut rx) = channel::<u32>();
    for i in 0..100u32 {
        assert_eq!(tx.send(i), Ok(()));
    }
    for i in 0..100u32 {
        assert_eq!(rx.recv(), Some(i));
    }
    drop(tx);
    assert_eq!(rx.recv(), None);
}

#[test]
fn v1_one_at_a_time_matches_batch() {
    let values = vec![3, 1, 4, 1, 5, 9, 2, 6];
    let (tx, mut rx) = channel::<i32>();
    let mut single = Vec::new();
    for v in values.iter() {
        assert_eq!(tx.send(*v), Ok(()));
        single.push(rx.recv());
    }
    let (tx2, mut rx2) = channel::<i32>();
    for v in values.iter() {
        assert_eq!(tx2.send(*v), Ok(()));
    }
    let mut batch = Vec::new();
    for _ in values.iter() {
        batch.push(rx2.recv());
    }
    assert_eq!(single, batch);
    let expected: Vec<Option<i32>> = values.iter().map(|v| Some(*v)).collect();
    assert_eq!(single, expected);
}

#[test]
fn v1_sends_between_receives_keep_order() {
    let (tx, mut rx) = channel::<i32>();
    assert_eq!(tx.send(1), Ok(()));
    assert_eq!(tx.send(2), Ok(()));
    assert_eq!(tx.send(3), Ok(()));
    assert_eq!(rx.recv(), Some(1));
    assert_eq!(tx.send(4), Ok(()));
    assert_eq!(rx.recv(), Some(2));
    assert_eq!(tx.send(5), Ok(()));
    assert_eq!(rx.recv(), Some(3));
    assert_eq!(rx.recv(), Some(4));
    assert_eq!(rx.recv(), Some(5));
    drop(tx);
    assert_eq!(rx.recv(), None);
}

#[test]
fn v1_many_producers_one_value_each() {
    let (tx, mut rx) = channel::<usize>();
    let cycle: usize = 1000000;
    for _ in 0..cycle {
        let tx = tx.clone();
        assert_eq!(tx.send(1), Ok(()));
    }
    drop(tx);
    let mut count: usize = 0;
    let mut received: usize = 0;
    while let Some(v) = rx.recv() {
        count += v;
        received += 1;
    }
    assert_eq!(count, cycle);
    assert_eq!(received, cycle);
    assert_eq!(rx.recv(), None);
}

#[test]
fn v1_clones_keep_the_channel_open() {
    let (tx, mut rx) = channel::<i32>();
    let a = tx.clone();
    let b = a.clone();
    drop(tx);
    assert_eq!(a.send(10), Ok(()));
    drop(a);
    assert_eq!(b.send(20), Ok(()));
    assert_eq!(rx.recv(), Some(10));
    assert_eq!(rx.recv(), Some(20));
    assert_eq!(b.send(30), Ok(()));
    drop(b);
    assert_eq!(rx.recv(), Some(30));
    assert_eq!(rx.recv(), None);
}

#[test]
fn v1_receives_between_producers_lose_nothing() {
    let (tx, mut rx) = channel::<usize>();
    let cycle: usize = 1000;
    let mut got: Vec<usize> = Vec::new();
    for i in 0..cycle {
        let a = tx.clone();
        let b = tx.clone();
        assert_eq!(a.send(2 * i), Ok(()));
        drop(a);
        assert_eq!(b.send(2 * i + 1), Ok(()));
        if i % 3 == 0 {
            got.push(rx.recv().unwrap());
        }
        drop(b);
    }
    drop(tx);
    while let Some(v) = rx.recv() {
        got.push(v);
    }
    let expected: Vec<usize> = (0..2 * cycle).collect();
    assert_eq!(got, expected);
    assert_eq!(rx.recv(), None);
}
