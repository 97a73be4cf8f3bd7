use std::sync::{Arc, Mutex};
use std::time::Duration;

use batcher::batcher::{Batcher, VecReceiver, DEFAULT_CAPACITY};

/// Keeps the last batch it received.
#[derive(Default, Clone)]
struct MockGroupReceiver(Arc<Mutex<Option<Vec<u32>>>>);

impl VecReceiver for MockGroupReceiver {
    type Item = u32;

    fn receive(&mut self, items: Vec<Self::Item>) {
        *self.0.lock().unwrap() = Some(items);
    }
}

/// Keeps every batch it received, in order.
#[derive(Default, Clone)]
struct Recorder(Arc<Mutex<Vec<Vec<u32>>>>);

impl Recorder {
    fn batches(&self) -> Vec<Vec<u32>> {
        self.0.lock().unwrap().clone()
    }
}

impl VecReceiver for Recorder {
    type Item = u32;

    fn receive(&mut self, items: Vec<Self::Item>) {
        self.0.lock().unwrap().push(items);
    }
}

#[test]
fn capacity_reached() {
    let mock = MockGroupReceiver::default();
    let mut batcher = Batcher::new(mock.clone(), 2, Duration::from_secs(120));

    batcher.send(1);
    assert_eq!(*mock.0.lock().unwrap(), None);

    batcher.send(2);
    assert_eq!(*mock.0.lock().unwrap(), Some(vec![1, 2]));

    batcher.send(3);
    assert_eq!(*mock.0.lock().unwrap(), Some(vec![1, 2]));

    batcher.send(4);
    assert_eq!(*mock.0.lock().unwrap(), Some(vec![3, 4]));
}

#[test]
fn interval_reached() {
    let mock = MockGroupReceiver::default();
    let mut batcher = Batcher::new(mock.clone(), 2, Duration::from_millis(300));

    // the interval passes with nothing sent
    batcher.tick();
    assert_eq!(
        *mock.0.lock().unwrap(),
        None,
        "we should never send something when the cache is empty"
    );

    batcher.send(1);
    assert_eq!(*mock.0.lock().unwrap(), None);

    batcher.tick();
    assert_eq!(*mock.0.lock().unwrap(), Some(vec![1]));
}

#[test]
fn capacity_trigger_on_the_last_item() {
    let rec = Recorder::default();
    let mut batcher = Batcher::new(rec.clone(), 5, Duration::from_secs(60));
    for i in 1..5u32 {
        batcher.send(i);
        assert!(rec.batches().is_empty());
        assert_eq!(batcher.pending_items().len(), i as usize);
    }
    batcher.send(5);
    assert_eq!(rec.batches(), vec![vec![1, 2, 3, 4, 5]]);
    assert!(batcher.pending_items().is_empty());
}

#[test]
fn reset_after_capacity_flush() {
    let rec = Recorder::default();
    let mut batcher = Batcher::new(rec.clone(), 3, Duration::from_secs(60));
    for i in 0..3u32 {
        batcher.send(i);
    }
    assert_eq!(rec.batches().len(), 1);
    batcher.send(10);
    batcher.send(11);
    assert_eq!(rec.batches(), vec![vec![0, 1, 2]]);
    assert_eq!(batcher.pending_items(), &vec![10, 11]);
}

#[test]
fn timer_flushes_partial_batch_once() {
    let rec = Recorder::default();
    let mut batcher = Batcher::new(rec.clone(), 4, Duration::from_millis(10));
    batcher.send(7);
    batcher.send(8);
    batcher.tick();
    batcher.tick();
    batcher.tick();
    assert_eq!(rec.batches(), vec![vec![7, 8]]);
    assert!(batcher.pending_items().is_empty());
}

#[test]
fn ticks_without_items_never_call_the_sink() {
    let rec = Recorder::default();
    let mut batcher = Batcher::new(rec.clone(), 2, Duration::from_millis(1));
    for _ in 0..1000 {
        batcher.tick();
    }
    assert!(rec.batches().is_empty());
}

#[test]
fn capacity_one_flushes_every_item() {
    let rec = Recorder::default();
    let mut batcher = Batcher::new(rec.clone(), 1, Duration::from_secs(1));
    batcher.send(1);
    batcher.send(2);
    batcher.tick();
    assert_eq!(rec.batches(), vec![vec![1], vec![2]]);
}

#[test]
fn order_is_kept_across_batches() {
    let rec = Recorder::default();
    let mut batcher = Batcher::new(rec.clone(), 3, Duration::from_secs(1));
    for i in 0..10u32 {
        batcher.send(i);
        if i == 4 {
            batcher.tick();
        }
    }
    assert_eq!(
        rec.batches(),
        vec![vec![0, 1, 2], vec![3, 4], vec![5, 6, 7]]
    );
    assert_eq!(batcher.pending_items(), &vec![8, 9]);
    let mut all: Vec<u32> = rec.batches().concat();
    all.extend(batcher.pending_items().iter().copied());
    assert_eq!(all, (0..10).collect::<Vec<u32>>());
    for b in rec.batches() {
        assert!(!b.is_empty() && b.len() <= 3);
    }
}

#[test]
fn close_drops_pending_by_default() {
    let rec = Recorder::default();
    let mut batcher = Batcher::new(rec.clone(), 3, Duration::from_secs(1));
    batcher.send(1);
    batcher.send(2);
    batcher.close();
    assert!(rec.batches().is_empty());
    assert!(batcher.pending_items().is_empty());
    assert!(!batcher.flush_on_close());
}

#[test]
fn close_flushes_pending_when_asked() {
    let rec = Recorder::default();
    let mut batcher = Batcher::with_options(rec.clone(), 3, Duration::from_secs(1), true);
    batcher.send(1);
    batcher.send(2);
    batcher.close();
    assert_eq!(rec.batches(), vec![vec![1, 2]]);
    assert!(batcher.flush_on_close());
}

#[test]
fn close_on_empty_buffer_sends_nothing() {
    let rec = Recorder::default();
    let mut batcher = Batcher::with_options(rec.clone(), 3, Duration::from_secs(1), true);
    batcher.close();
    assert!(rec.batches().is_empty());
}

#[test]
fn wrap_uses_default_configuration() {
    let rec = Recorder::default();
    let mut batcher = Batcher::wrap(rec.clone());
    assert_eq!(batcher.capacity(), DEFAULT_CAPACITY);
    assert_eq!(batcher.capacity(), 256);
    assert_eq!(batcher.interval(), Duration::from_secs(1));
    assert!(!batcher.flush_on_close());
    for i in 0..255u32 {
        batcher.send(i);
    }
    assert!(rec.batches().is_empty());
    batcher.send(255);
    assert_eq!(rec.batches(), vec![(0..256).collect::<Vec<u32>>()]);
}

#[test]
fn new_keeps_configuration_and_sink() {
    let rec = Recorder::default();
    let batcher = Batcher::new(rec.clone(), 7, Duration::from_millis(250));
    assert_eq!(batcher.capacity(), 7);
    assert_eq!(batcher.interval(), Duration::from_millis(250));
    assert!(Arc::ptr_eq(&batcher.inner().0, &rec.0));
    let back = batcher.into_inner();
    assert!(Arc::ptr_eq(&back.0, &rec.0));
}
