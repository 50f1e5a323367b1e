use cohort::fifo::CohortFifo;

#[test]
fn starts_empty() {
    let fifo: CohortFifo<u64> = CohortFifo::new(8);
    assert_eq!(fifo.capacity(), 8);
    assert!(fifo.is_empty());
    assert!(!fifo.is_full());
}

#[test]
fn fifo_order() {
    let mut fifo: CohortFifo<u64> = CohortFifo::new(16);
    for value in 0..10u64 {
        assert_eq!(fifo.try_push(value * 3), Ok(()));
    }
    for value in 0..10u64 {
        assert_eq!(fifo.try_pop(), Ok(value * 3));
    }
    assert!(fifo.is_empty());
}

#[test]
fn capacity_boundary() {
    let mut fifo: CohortFifo<u32> = CohortFifo::new(3);
    assert_eq!(fifo.try_push(10), Ok(()));
    assert_eq!(fifo.try_push(20), Ok(()));
    assert!(!fifo.is_full());
    assert_eq!(fifo.try_push(30), Ok(()));
    assert!(fifo.is_full());
    // A push beyond the capacity is rejected, hands the element back, and
    // leaves the contents exactly as they were.
    assert_eq!(fifo.try_push(40), Err(40));
    assert_eq!(fifo.pop_all(), vec![10, 20, 30]);
}

#[test]
fn round_trip_cycles() {
    let mut fifo: CohortFifo<u16> = CohortFifo::new(5);
    for cycle in 0..50u16 {
        for i in 0..4u16 {
            fifo.push(cycle.wrapping_mul(7).wrapping_add(i));
        }
        assert!(!fifo.is_empty());
        for i in 0..4u16 {
            assert_eq!(fifo.pop(), cycle.wrapping_mul(7).wrapping_add(i));
        }
        assert!(fifo.is_empty());
    }
}

#[test]
fn example_capacity_four() {
    let mut fifo: CohortFifo<i32> = CohortFifo::new(4);
    fifo.push(1);
    fifo.push(2);
    fifo.push(3);
    fifo.push(4);
    assert!(fifo.is_full());
    assert_eq!(fifo.try_push(5), Err(5));
    assert!(fifo.is_full());
    assert_eq!(fifo.pop(), 1);
    assert_eq!(fifo.try_push(5), Ok(()));
    assert_eq!(fifo.pop(), 2);
    assert_eq!(fifo.pop(), 3);
    assert_eq!(fifo.pop(), 4);
    assert_eq!(fifo.pop(), 5);
    assert!(fifo.is_empty());
}

#[test]
fn capacity_one() {
    let mut fifo: CohortFifo<u8> = CohortFifo::new(1);
    assert_eq!(fifo.capacity(), 1);
    assert!(fifo.is_empty());
    assert_eq!(fifo.try_push(42), Ok(()));
    assert!(fifo.is_full());
    assert_eq!(fifo.try_push(43), Err(43));
    assert_eq!(fifo.try_pop(), Ok(42));
    assert!(fifo.is_empty());
    assert_eq!(fifo.try_push(44), Ok(()));
    assert_eq!(fifo.try_pop(), Ok(44));
}

#[test]
fn pop_on_empty_fails() {
    let mut fifo: CohortFifo<u64> = CohortFifo::new(2);
    assert_eq!(fifo.try_pop(), Err(()));
    assert_eq!(fifo.try_push(5), Ok(()));
    assert_eq!(fifo.try_pop(), Ok(5));
    assert_eq!(fifo.try_pop(), Err(()));
}

#[test]
fn bulk_push_and_drain() {
    let mut fifo: CohortFifo<u64> = CohortFifo::new(32);
    fifo.push(99);
    let batch: Vec<u64> = (0..20).collect();
    fifo.push_all(&batch);
    let mut expected = vec![99u64];
    expected.extend(0..20);
    assert_eq!(fifo.pop_all(), expected);
    assert!(fifo.is_empty());
}

#[test]
fn wraps_around_the_sentinel() {
    // Drive head and tail all the way around the ring several times so every
    // slot, the sentinel included, serves in every role.
    let mut fifo: CohortFifo<usize> = CohortFifo::new(3);
    for i in 0..30usize {
        assert_eq!(fifo.try_push(i), Ok(()));
        assert_eq!(fifo.try_push(i + 1000), Ok(()));
        assert_eq!(fifo.try_pop(), Ok(i));
        assert_eq!(fifo.try_pop(), Ok(i + 1000));
        assert!(fifo.is_empty());
    }
}
