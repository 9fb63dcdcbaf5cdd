use peano255::{Null, Peano, Peano0, Peano1, Peano2, PeanoEncoder, PeanoEncoder16, round_trip};

#[test]
fn zero_decodes_to_zero_depth_1() {
    let z: Peano0 = PeanoEncoder::Zero;
    assert_eq!(z.into_u8(), 0);
}

#[test]
fn zero_decodes_to_zero_depth_2() {
    let z: Peano1 = PeanoEncoder::Zero;
    assert_eq!(z.into_u8(), 0);
}

#[test]
fn zero_decodes_to_zero_depth_3() {
    let z: Peano2 = PeanoEncoder::Zero;
    assert_eq!(z.into_u8(), 0);
}

#[test]
fn zero_decodes_to_zero_depth_16() {
    let z: PeanoEncoder16<Null> = PeanoEncoder::Zero;
    assert_eq!(z.into_u8(), 0);
}

#[test]
fn successor_adds_one() {
    let one: Peano1 = PeanoEncoder::Successor(PeanoEncoder::Zero);
    assert_eq!(one.into_u8(), 1);
}

#[test]
fn two_successors_decode_to_two() {
    let two: Peano2 = PeanoEncoder::Successor(PeanoEncoder::Successor(PeanoEncoder::Zero));
    assert_eq!(two.into_u8(), 2);
}

#[test]
fn successor_on_built_value() {
    let six: PeanoEncoder16<Null> = <PeanoEncoder16<Null> as Peano>::from_count(6);
    let seven: PeanoEncoder<PeanoEncoder16<Null>> = PeanoEncoder::Successor(six);
    assert_eq!(seven.into_u8(), 7);
}

#[test]
fn from_count_then_into_u8_depth_16() {
    for x in 0u8..16 {
        let v: PeanoEncoder16<Null> = <PeanoEncoder16<Null> as Peano>::from_count(x);
        assert_eq!(v.into_u8(), x);
    }
}

#[test]
fn generic_round_trip_depth_16() {
    for x in 0u8..16 {
        assert_eq!(round_trip::<PeanoEncoder16<Null>>(x), x);
    }
}
