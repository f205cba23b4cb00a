use iceoryx2_forwarding::segment_state::SegmentState;

const PAYLOAD_SIZE: usize = 8;
const NUMBER_OF_SAMPLES: usize = 4;

fn make() -> SegmentState {
    let mut s = SegmentState::new(NUMBER_OF_SAMPLES);
    s.set_payload_size(PAYLOAD_SIZE);
    s
}

#[test]
fn forwarding_history_is_zero_after_new() {
    let s = make();
    for i in 0..NUMBER_OF_SAMPLES {
        assert_eq!(s.forwarding_history(i * PAYLOAD_SIZE), 0);
    }
}

#[test]
fn check_and_set_forwarding_bit_is_idempotent_after_first_set() {
    let mut s = make();
    let chunk = 0;
    assert!(s.check_and_set_forwarding_bit(chunk, 0));
    assert!(!s.check_and_set_forwarding_bit(chunk, 0));
    assert!(!s.check_and_set_forwarding_bit(chunk, 0));
}

#[test]
fn check_and_set_forwarding_bit_is_independent_per_target() {
    let mut s = make();
    let chunk = 0;
    assert!(s.check_and_set_forwarding_bit(chunk, 0));
    assert!(s.check_and_set_forwarding_bit(chunk, 1));
    assert!(s.check_and_set_forwarding_bit(chunk, 7));
    assert!(!s.check_and_set_forwarding_bit(chunk, 0));
    assert!(!s.check_and_set_forwarding_bit(chunk, 1));
    assert!(!s.check_and_set_forwarding_bit(chunk, 7));
    // Bits 2..7 not yet set.
    for target in 2..7 {
        assert!(s.check_and_set_forwarding_bit(chunk, target as u8));
    }
}

#[test]
fn check_and_set_forwarding_bit_is_independent_per_bucket() {
    let mut s = make();
    assert!(s.check_and_set_forwarding_bit(0, 3));
    assert!(s.check_and_set_forwarding_bit(PAYLOAD_SIZE, 3));
    assert!(s.check_and_set_forwarding_bit(2 * PAYLOAD_SIZE, 3));
    assert!(!s.check_and_set_forwarding_bit(0, 3));
}

#[test]
fn forwarding_history_clears_when_bucket_refcount_returns_to_zero() {
    let mut s = make();
    let chunk = 0;
    // Simulate the bucket being loaned: refcount = 1.
    s.borrow_sample(chunk);
    // Mark some targets as forwarded-to during the bucket's life.
    assert!(s.check_and_set_forwarding_bit(chunk, 0));
    assert!(s.check_and_set_forwarding_bit(chunk, 5));
    assert_ne!(s.forwarding_history(chunk), 0);

    // Releasing brings the refcount to zero — the bucket is reclaimed
    // and its forwarding history must be cleared for the next reuse.
    let prev = s.release_sample(chunk);
    assert_eq!(prev, 1);
    assert_eq!(s.forwarding_history(chunk), 0);

    // After clearing, the bits can be re-set on the next loan.
    s.borrow_sample(chunk);
    assert!(s.check_and_set_forwarding_bit(chunk, 0));
    assert!(s.check_and_set_forwarding_bit(chunk, 5));
}

#[test]
fn forwarding_history_does_not_clear_while_refcount_is_above_zero() {
    let mut s = make();
    let chunk = 0;
    s.borrow_sample(chunk); // refcount 1
    s.borrow_sample(chunk); // refcount 2
    assert!(s.check_and_set_forwarding_bit(chunk, 2));

    // First release drops refcount from 2 to 1 — not a reclaim yet.
    let prev = s.release_sample(chunk);
    assert_eq!(prev, 2);
    assert_ne!(s.forwarding_history(chunk), 0);
    // The bit must still be set so a subsequent forward to target 2
    // would correctly observe "already forwarded."
    assert!(!s.check_and_set_forwarding_bit(chunk, 2));
}

#[test]
fn borrow_returns_previous_counter() {
    let mut s = make();
    assert_eq!(s.borrow_sample(PAYLOAD_SIZE), 0);
    assert_eq!(s.borrow_sample(PAYLOAD_SIZE), 1);
    assert_eq!(s.borrow_sample(PAYLOAD_SIZE), 2);
    assert_eq!(s.release_sample(PAYLOAD_SIZE), 3);
    assert_eq!(s.borrow_sample(0), 0);
}

#[test]
fn release_of_unborrowed_bucket_wraps_counter() {
    let mut s = make();
    assert_eq!(s.release_sample(0), 0);
    assert_eq!(s.borrow_sample(0), u64::MAX);
    assert_eq!(s.borrow_sample(0), 0);
}

#[test]
fn forwarding_bit_sets_exactly_its_mask() {
    let mut s = make();
    assert!(s.check_and_set_forwarding_bit(3 * PAYLOAD_SIZE, 5));
    assert_eq!(s.forwarding_history(3 * PAYLOAD_SIZE), 1u64 << 5);
    assert!(s.check_and_set_forwarding_bit(3 * PAYLOAD_SIZE, 63));
    assert_eq!(s.forwarding_history(3 * PAYLOAD_SIZE), (1u64 << 5) | (1u64 << 63));
}

#[test]
fn sample_index_divides_by_payload_size() {
    let s = make();
    assert_eq!(s.payload_size(), PAYLOAD_SIZE);
    assert_eq!(s.sample_index(0), 0);
    assert_eq!(s.sample_index(3 * PAYLOAD_SIZE), 3);
}
