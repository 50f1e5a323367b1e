use cohort::Cohort;
use cohort::BACKOFF_COUNTER_VAL;

#[test]
fn register_creates_empty_channel() {
    let cohort: Cohort<u64> = Cohort::register(0, 32);
    assert!(cohort.is_registered());
    assert_eq!(cohort.capacity(), 32);
}

#[test]
fn backoff_threshold_value() {
    assert_eq!(BACKOFF_COUNTER_VAL, 240);
}

#[test]
fn register_then_unregister() {
    let mut cohort: Cohort<u32> = Cohort::register(1, 4);
    assert!(cohort.is_registered());
    cohort.push(5);
    cohort.unregister();
    assert!(!cohort.is_registered());
}

#[test]
fn sent_elements_reach_the_far_side_in_order() {
    let mut cohort: Cohort<u64> = Cohort::register(2, 8);
    cohort.push(11);
    cohort.push(22);
    assert_eq!(cohort.try_push(33), Ok(()));
    assert_eq!(cohort.accel_try_pop(), Ok(11));
    assert_eq!(cohort.accel_try_pop(), Ok(22));
    assert_eq!(cohort.accel_try_pop(), Ok(33));
    assert_eq!(cohort.accel_try_pop(), Err(()));
}

#[test]
fn delivered_elements_are_received_in_order() {
    let mut cohort: Cohort<u16> = Cohort::register(3, 8);
    assert_eq!(cohort.try_pop(), Err(()));
    assert_eq!(cohort.accel_try_push(7), Ok(()));
    assert_eq!(cohort.accel_try_push(8), Ok(()));
    assert_eq!(cohort.pop(), 7);
    assert_eq!(cohort.try_pop(), Ok(8));
    assert_eq!(cohort.try_pop(), Err(()));
}

#[test]
fn sender_rejects_when_full() {
    let mut cohort: Cohort<u8> = Cohort::register(4, 2);
    assert_eq!(cohort.try_push(1), Ok(()));
    assert_eq!(cohort.try_push(2), Ok(()));
    assert_eq!(cohort.try_push(3), Err(3));
    // The rejected element left the channel untouched.
    assert_eq!(cohort.accel_try_pop(), Ok(1));
    assert_eq!(cohort.try_push(3), Ok(()));
    assert_eq!(cohort.accel_try_pop(), Ok(2));
    assert_eq!(cohort.accel_try_pop(), Ok(3));
}

#[test]
fn directions_are_independent() {
    let mut cohort: Cohort<i64> = Cohort::register(5, 4);
    cohort.push(-1);
    assert_eq!(cohort.accel_try_push(-2), Ok(()));
    // Filling one direction does not disturb the other.
    assert_eq!(cohort.pop(), -2);
    assert_eq!(cohort.accel_try_pop(), Ok(-1));
}
