use batcher::accumulator::Accumulator;

#[test]
fn accumulator_push_returns_full_batch() {
    let mut acc: Accumulator<u8> = Accumulator::new(3);
    assert_eq!(acc.capacity(), 3);
    assert_eq!(acc.push(1), None);
    assert_eq!(acc.push(2), None);
    assert_eq!(acc.len(), 2);
    assert_eq!(acc.push(3), Some(vec![1, 2, 3]));
    assert!(acc.is_empty());
    assert_eq!(acc.capacity(), 3);
}

#[test]
fn accumulator_tick_takes_pending_items() {
    let mut acc: Accumulator<u8> = Accumulator::new(3);
    assert_eq!(acc.tick(), None);
    acc.push(9);
    assert_eq!(acc.pending(), &vec![9]);
    assert_eq!(acc.tick(), Some(vec![9]));
    assert_eq!(acc.tick(), None);
    assert_eq!(acc.len(), 0);
}

#[test]
fn accumulator_close_policy() {
    let mut acc: Accumulator<u8> = Accumulator::new(4);
    acc.push(1);
    assert_eq!(acc.close(false), None);
    assert!(acc.is_empty());
    acc.push(2);
    acc.push(3);
    assert_eq!(acc.close(true), Some(vec![2, 3]));
    assert!(acc.is_empty());
    assert_eq!(acc.close(true), None);
}
