use std::cell::Cell;

use arti_bench::payload::{arrived_intact, payload_of, random_payload, receive_buffer};

#[test]
fn payload_has_the_given_size() {
    for size in [0, 1, 2, 1000, 65_537] {
        assert_eq!(random_payload(size).len(), size);
    }
}

#[test]
fn payload_is_what_was_drawn() {
    let next = Cell::new(0u8);
    let draw = || {
        next.set(next.get() + 3);
        next.get()
    };
    assert_eq!(payload_of(4, draw), [3, 6, 9, 12]);
    assert_eq!(payload_of(0, || 1), []);
}

#[test]
fn payloads_are_random() {
    let payload = random_payload(4096);
    assert_ne!(payload, random_payload(4096));
    let mut seen = [false; 256];
    for byte in &payload {
        seen[*byte as usize] = true;
    }
    assert!(seen.iter().filter(|s| **s).count() > 200);
}

#[test]
fn buffer_is_as_long_as_the_payload() {
    assert_eq!(receive_buffer(&[]), Vec::<u8>::new());
    assert_eq!(receive_buffer(&[7, 8, 9]), [0, 0, 0]);
}

#[test]
fn intact_only_if_the_same() {
    assert!(arrived_intact(&[], &[]));
    assert!(arrived_intact(&[1, 2, 3], &[1, 2, 3]));
    assert!(!arrived_intact(&[1, 2, 4], &[1, 2, 3]));
    assert!(!arrived_intact(&[1, 2], &[1, 2, 3]));
    assert!(!arrived_intact(&[1, 2, 3, 4], &[1, 2, 3]));
}
