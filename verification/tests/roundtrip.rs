use peano255::{round_trip_128, round_trip_255, round_trip_64, verify_all};

#[test]
fn round_trip_zero() {
    assert_eq!(round_trip_255(0), 0);
}

#[test]
fn round_trip_midpoint() {
    assert_eq!(round_trip_255(128), 128);
}

#[test]
fn round_trip_top() {
    assert_eq!(round_trip_255(255), 255);
}

#[test]
fn round_trip_small_sample() {
    for x in 0u8..=8 {
        assert_eq!(round_trip_255(x), x);
    }
}

#[test]
fn round_trip_every_byte() {
    for x in 0u8..=255 {
        assert_eq!(round_trip_255(x), x);
    }
}

#[test]
fn round_trip_checkpoint_64() {
    for x in 0u8..64 {
        assert_eq!(round_trip_64(x), x);
    }
}

#[test]
fn round_trip_checkpoint_128() {
    for x in 0u8..128 {
        assert_eq!(round_trip_128(x), x);
    }
}

#[test]
fn all_marks_pass() {
    let marks = verify_all();
    assert_eq!(marks.len(), 256);
    for (i, m) in marks.iter().enumerate() {
        assert!(*m, "round trip failed at {}", i);
    }
}
