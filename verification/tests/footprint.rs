use peano255::{Null, Peano0, Peano1, Peano255, PeanoEncoder128, PeanoEncoder16, PeanoEncoder64};

#[test]
fn footprint_is_zero_bytes_depth_1() {
    // A family with a single value needs no storage at all.
    assert_eq!(std::mem::size_of::<Peano0>(), 0);
}

#[test]
fn footprint_is_one_byte_depth_2() {
    assert_eq!(std::mem::size_of::<Peano1>(), 1);
}

#[test]
fn footprint_is_one_byte_depth_16() {
    assert_eq!(std::mem::size_of::<PeanoEncoder16<Null>>(), 1);
}

#[test]
fn footprint_is_one_byte_depth_64() {
    assert_eq!(std::mem::size_of::<PeanoEncoder64<Null>>(), 1);
}

#[test]
fn footprint_is_one_byte_depth_128() {
    assert_eq!(std::mem::size_of::<PeanoEncoder128<Null>>(), 1);
}

#[test]
fn footprint_is_one_byte_depth_256() {
    // Climb in steps of at most 128 levels: the compiler computes the
    // layout of a nesting level by level, within its recursion limit.
    assert_eq!(std::mem::size_of::<PeanoEncoder128<Null>>(), 1);
    assert_eq!(std::mem::size_of::<PeanoEncoder64<PeanoEncoder128<Null>>>(), 1);
    assert_eq!(std::mem::size_of::<Peano255>(), 1);
}
