pub mod peano;

pub mod family;

pub mod quad;

pub use peano::{Null, Peano, PeanoEncoder, lemma_successor_count, lemma_zero_count};

pub use family::{
    Peano0, Peano1, Peano2, Peano255, PeanoEncoder128, PeanoEncoder16, PeanoEncoder2,
    PeanoEncoder256, PeanoEncoder32, PeanoEncoder4, PeanoEncoder64, PeanoEncoder8,
    lemma_family_count_bound, lemma_peano255_capacity, round_trip, round_trip_128, round_trip_64,
};

pub use quad::{
    Strided, lemma_strided_agrees_null, lemma_strided_agrees_shallow, lemma_strided_agrees_step,
    round_trip_255, verify_all,
};
