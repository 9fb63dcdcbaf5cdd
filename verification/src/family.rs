use vstd::prelude::*;

use crate::peano::{Null, Peano, PeanoEncoder};

verus! {

// The doubling ladder: applying a depth-d level twice gives depth 2d, so
// the depth-256 family is assembled in eight steps instead of 256.

pub type PeanoEncoder2<T> = PeanoEncoder<PeanoEncoder<T>>;

pub type PeanoEncoder4<T> = PeanoEncoder2<PeanoEncoder2<T>>;

pub type PeanoEncoder8<T> = PeanoEncoder4<PeanoEncoder4<T>>;

pub type PeanoEncoder16<T> = PeanoEncoder8<PeanoEncoder8<T>>;

pub type PeanoEncoder32<T> = PeanoEncoder16<PeanoEncoder16<T>>;

pub type PeanoEncoder64<T> = PeanoEncoder32<PeanoEncoder32<T>>;

pub type PeanoEncoder128<T> = PeanoEncoder64<PeanoEncoder64<T>>;

pub type PeanoEncoder256<T> = PeanoEncoder128<PeanoEncoder128<T>>;

/// Depth 1: represents only 0.
pub type Peano0 = PeanoEncoder<Null>;

/// Depth 2: represents 0 and 1.
pub type Peano1 = PeanoEncoder<Peano0>;

/// Depth 3: represents 0, 1 and 2.
pub type Peano2 = PeanoEncoder<Peano1>;

/// Depth 256: represents exactly the integers 0 ..= 255, one byte's worth.
pub type Peano255 = PeanoEncoder256<Null>;

// Capacities along the ladder. Each lemma climbs in steps of at most 64
// levels, so that the compiler's trait resolution, which peels one level
// of nesting at a time, stays within its default recursion limit.

proof fn lemma_capacity_step<T: Peano>()
    ensures
        PeanoEncoder::<T>::capacity() == T::capacity() + 1,
{
}

proof fn lemma_capacity_2<T: Peano>()
    ensures
        PeanoEncoder2::<T>::capacity() == T::capacity() + 2,
{
    lemma_capacity_step::<PeanoEncoder<T>>();
    lemma_capacity_step::<T>();
}

proof fn lemma_capacity_4<T: Peano>()
    ensures
        PeanoEncoder4::<T>::capacity() == T::capacity() + 4,
{
    lemma_capacity_2::<PeanoEncoder2<T>>();
    lemma_capacity_2::<T>();
}

proof fn lemma_capacity_8<T: Peano>()
    ensures
        PeanoEncoder8::<T>::capacity() == T::capacity() + 8,
{
    lemma_capacity_4::<PeanoEncoder4<T>>();
    lemma_capacity_4::<T>();
}

proof fn lemma_capacity_16<T: Peano>()
    ensures
        PeanoEncoder16::<T>::capacity() == T::capacity() + 16,
{
    lemma_capacity_8::<PeanoEncoder8<T>>();
    lemma_capacity_8::<T>();
}

proof fn lemma_capacity_32<T: Peano>()
    ensures
        PeanoEncoder32::<T>::capacity() == T::capacity() + 32,
{
    lemma_capacity_16::<PeanoEncoder16<T>>();
    lemma_capacity_16::<T>();
}

proof fn lemma_capacity_64<T: Peano>()
    ensures
        PeanoEncoder64::<T>::capacity() == T::capacity() + 64,
{
    lemma_capacity_32::<PeanoEncoder32<T>>();
    lemma_capacity_32::<T>();
}

/// Capacity at the depth-64 checkpoint of the ladder.
pub proof fn lemma_checkpoint_64()
    ensures
        PeanoEncoder64::<Null>::capacity() == 64,
{
    lemma_capacity_64::<Null>();
}

/// Capacity at the depth-128 checkpoint of the ladder.
pub proof fn lemma_checkpoint_128()
    ensures
        PeanoEncoder128::<Null>::capacity() == 128,
{
    lemma_capacity_64::<PeanoEncoder64<Null>>();
    lemma_checkpoint_64();
}

/// Capacity 64 levels above the depth-128 checkpoint.
pub proof fn lemma_checkpoint_192()
    ensures
        PeanoEncoder64::<PeanoEncoder128<Null>>::capacity() == 192,
{
    lemma_capacity_64::<PeanoEncoder128<Null>>();
    lemma_checkpoint_128();
}

/// The depth-256 family has capacity exactly 256: it represents the
/// integers 0 ..= 255 and no others.
pub proof fn lemma_peano255_capacity()
    ensures
        Peano255::capacity() == 256,
{
    lemma_capacity_64::<PeanoEncoder64<PeanoEncoder128<Null>>>();
    lemma_checkpoint_192();
}

/// No value of a family that can exist stands for an integer at or
/// beyond the family's capacity: with `lemma_peano255_capacity`, the
/// depth-256 family represents nothing beyond 255.
pub proof fn lemma_family_count_bound<T: Peano>()
    ensures
        forall|v: T| v.well_formed() ==> v.count() < T::capacity(),
{
    assert forall|v: T| v.well_formed() implies v.count() < T::capacity() by {
        v.lemma_count_lt_capacity();
    }
}

/// Build the value of a family that stands for `x`, then decode it back:
/// the round trip recovers `x` at every depth with room for it.
pub fn round_trip<T: Peano>(x: u8) -> (r: u8)
    requires
        (x as nat) < T::capacity(),
    ensures
        r == x,
{
    let p = T::from_count(x);
    p.into_u8()
}

// Round trips at the ladder's checkpoints, as deep as the compiler can
// resolve the single-level trait: it peels one nesting level at a time,
// and beyond depth 128 its recursion limit is near. The byte-wide family
// runs through the four-level stride of `quad` instead.

/// The round trip through the depth-64 checkpoint recovers 0 .. 64.
pub fn round_trip_64(x: u8) -> (r: u8)
    requires
        x < 64,
    ensures
        r == x,
{
    proof {
        lemma_checkpoint_64();
    }
    round_trip::<PeanoEncoder64<Null>>(x)
}

/// The round trip through the depth-128 checkpoint recovers 0 .. 128.
pub fn round_trip_128(x: u8) -> (r: u8)
    requires
        x < 128,
    ensures
        r == x,
{
    proof {
        lemma_checkpoint_128();
    }
    round_trip::<PeanoEncoder128<Null>>(x)
}

} // verus!
