use vstd::prelude::*;

use crate::family::{
    Peano0, Peano1, Peano2, Peano255, PeanoEncoder128, PeanoEncoder16, PeanoEncoder32,
    PeanoEncoder4, PeanoEncoder64, PeanoEncoder8, PeanoEncoder256,
};
use crate::peano::{Null, Peano, PeanoEncoder};

verus! {

// The `Peano` trait peels a single nesting level per impl, so resolving
// its bound for the depth-256 family takes 257 steps, more than the
// compiler's trait resolution allows. Executable assembly of the deep
// families therefore goes through this companion trait, whose generic
// impl peels four levels per step; the three shallow impls cover the
// leftover depths. Its contracts restate the model's, and the round
// trip it yields is proved to return its input unchanged.

pub trait Strided: Sized {
    /// The integer a value stands for: the number of `Successor`
    /// wrappers around the innermost `Zero`.
    spec fn scount(self) -> nat;

    /// Whether a value can exist at run time.
    spec fn swell_formed(self) -> bool;

    /// How many distinct integers this level can represent.
    spec fn scapacity() -> nat;

    /// Build the value that stands for `n`.
    fn sfrom_count(n: u8) -> (r: Self)
        requires
            (n as nat) < Self::scapacity(),
        ensures
            r.swell_formed(),
            r.scount() == n as nat,
    ;

    /// Decode a value by unwrapping its `Successor` chain.
    fn sinto_u8(self) -> (r: u8)
        requires
            self.swell_formed(),
            self.scount() < 256,
        ensures
            r as nat == self.scount(),
    ;
}

impl Strided for Null {
    open spec fn scount(self) -> nat {
        0
    }

    open spec fn swell_formed(self) -> bool {
        false
    }

    open spec fn scapacity() -> nat {
        0
    }

    fn sfrom_count(n: u8) -> (r: Self) {
        vstd::pervasive::unreached()
    }

    fn sinto_u8(self) -> (r: u8) {
        vstd::pervasive::unreached()
    }
}

impl Strided for Peano0 {
    open spec fn scount(self) -> nat {
        match self {
            PeanoEncoder::Successor(x) => x.scount() + 1,
            PeanoEncoder::Zero => 0,
        }
    }

    open spec fn swell_formed(self) -> bool {
        match self {
            PeanoEncoder::Successor(x) => x.swell_formed(),
            PeanoEncoder::Zero => true,
        }
    }

    open spec fn scapacity() -> nat {
        Null::scapacity() + 1
    }

    fn sfrom_count(n: u8) -> (r: Self) {
        if n == 0 {
            PeanoEncoder::Zero
        } else {
            PeanoEncoder::Successor(Null::sfrom_count(n - 1))
        }
    }

    fn sinto_u8(self) -> (r: u8) {
        match self {
            PeanoEncoder::Successor(x) => 1 + x.sinto_u8(),
            PeanoEncoder::Zero => 0,
        }
    }
}

impl Strided for Peano1 {
    open spec fn scount(self) -> nat {
        match self {
            PeanoEncoder::Successor(x) => x.scount() + 1,
            PeanoEncoder::Zero => 0,
        }
    }

    open spec fn swell_formed(self) -> bool {
        match self {
            PeanoEncoder::Successor(x) => x.swell_formed(),
            PeanoEncoder::Zero => true,
        }
    }

    open spec fn scapacity() -> nat {
        Peano0::scapacity() + 1
    }

    fn sfrom_count(n: u8) -> (r: Self) {
        if n == 0 {
            PeanoEncoder::Zero
        } else {
            PeanoEncoder::Successor(Peano0::sfrom_count(n - 1))
        }
    }

    fn sinto_u8(self) -> (r: u8) {
        match self {
            PeanoEncoder::Successor(x) => 1 + x.sinto_u8(),
            PeanoEncoder::Zero => 0,
        }
    }
}

impl Strided for Peano2 {
    open spec fn scount(self) -> nat {
        match self {
            PeanoEncoder::Successor(x) => x.scount() + 1,
            PeanoEncoder::Zero => 0,
        }
    }

    open spec fn swell_formed(self) -> bool {
        match self {
            PeanoEncoder::Successor(x) => x.swell_formed(),
            PeanoEncoder::Zero => true,
        }
    }

    open spec fn scapacity() -> nat {
        Peano1::scapacity() + 1
    }

    fn sfrom_count(n: u8) -> (r: Self) {
        if n == 0 {
            PeanoEncoder::Zero
        } else {
            PeanoEncoder::Successor(Peano1::sfrom_count(n - 1))
        }
    }

    fn sinto_u8(self) -> (r: u8) {
        match self {
            PeanoEncoder::Successor(x) => 1 + x.sinto_u8(),
            PeanoEncoder::Zero => 0,
        }
    }
}

impl<T: Strided> Strided for PeanoEncoder4<T> {
    open spec fn scount(self) -> nat {
        match self {
            PeanoEncoder::Zero => 0,
            PeanoEncoder::Successor(a) => match a {
                PeanoEncoder::Zero => 1,
                PeanoEncoder::Successor(b) => match b {
                    PeanoEncoder::Zero => 2,
                    PeanoEncoder::Successor(c) => match c {
                        PeanoEncoder::Zero => 3,
                        PeanoEncoder::Successor(x) => x.scount() + 4,
                    },
                },
            },
        }
    }

    open spec fn swell_formed(self) -> bool {
        match self {
            PeanoEncoder::Zero => true,
            PeanoEncoder::Successor(a) => match a {
                PeanoEncoder::Zero => true,
                PeanoEncoder::Successor(b) => match b {
                    PeanoEncoder::Zero => true,
                    PeanoEncoder::Successor(c) => match c {
                        PeanoEncoder::Zero => true,
                        PeanoEncoder::Successor(x) => x.swell_formed(),
                    },
                },
            },
        }
    }

    open spec fn scapacity() -> nat {
        T::scapacity() + 4
    }

    fn sfrom_count(n: u8) -> (r: Self) {
        if n == 0 {
            PeanoEncoder::Zero
        } else if n == 1 {
            PeanoEncoder::Successor(PeanoEncoder::Zero)
        } else if n == 2 {
            PeanoEncoder::Successor(PeanoEncoder::Successor(PeanoEncoder::Zero))
        } else if n == 3 {
            PeanoEncoder::Successor(PeanoEncoder::Successor(PeanoEncoder::Successor(
                PeanoEncoder::Zero,
            )))
        } else {
            PeanoEncoder::Successor(PeanoEncoder::Successor(PeanoEncoder::Successor(
                PeanoEncoder::Successor(T::sfrom_count(n - 4)),
            )))
        }
    }

    fn sinto_u8(self) -> (r: u8) {
        match self {
            PeanoEncoder::Zero => 0,
            PeanoEncoder::Successor(a) => match a {
                PeanoEncoder::Zero => 1,
                PeanoEncoder::Successor(b) => match b {
                    PeanoEncoder::Zero => 2,
                    PeanoEncoder::Successor(c) => match c {
                        PeanoEncoder::Zero => 3,
                        PeanoEncoder::Successor(x) => 4 + x.sinto_u8(),
                    },
                },
            },
        }
    }
}

proof fn lemma_scapacity_4<T: Strided>()
    ensures
        PeanoEncoder4::<T>::scapacity() == T::scapacity() + 4,
{
}

proof fn lemma_scapacity_16<T: Strided>()
    ensures
        PeanoEncoder16::<T>::scapacity() == T::scapacity() + 16,
{
    lemma_scapacity_4::<PeanoEncoder8<PeanoEncoder4<T>>>();
    lemma_scapacity_4::<PeanoEncoder8<T>>();
    lemma_scapacity_4::<PeanoEncoder4<T>>();
    lemma_scapacity_4::<T>();
}

proof fn lemma_scapacity_64<T: Strided>()
    ensures
        PeanoEncoder64::<T>::scapacity() == T::scapacity() + 64,
{
    lemma_scapacity_16::<PeanoEncoder32<PeanoEncoder16<T>>>();
    lemma_scapacity_16::<PeanoEncoder32<T>>();
    lemma_scapacity_16::<PeanoEncoder16<T>>();
    lemma_scapacity_16::<T>();
}

proof fn lemma_scapacity_256<T: Strided>()
    ensures
        PeanoEncoder256::<T>::scapacity() == T::scapacity() + 256,
{
    lemma_scapacity_64::<PeanoEncoder128<PeanoEncoder64<T>>>();
    lemma_scapacity_64::<PeanoEncoder128<T>>();
    lemma_scapacity_64::<PeanoEncoder64<T>>();
    lemma_scapacity_64::<T>();
}

/// The depth-256 family has capacity exactly 256 under the companion
/// trait, just as `lemma_peano255_capacity` states for the model.
proof fn lemma_scapacity_peano255()
    ensures
        Peano255::scapacity() == 256,
{
    lemma_scapacity_256::<Null>();
}

/// The bottom type means the same under both traits: no value of it
/// exists, and it represents no integer at all.
pub proof fn lemma_strided_agrees_null()
    ensures
        forall|v: Null| #[trigger] v.scount() == v.count(),
        forall|v: Null| #[trigger] v.swell_formed() == v.well_formed(),
        Null::scapacity() == Null::capacity(),
{
}

/// At the shallow depths, where the compiler resolves both traits, the
/// companion assigns every value the same meaning as the model.
pub proof fn lemma_strided_agrees_shallow()
    ensures
        forall|v: Peano2| #[trigger] v.scount() == v.count(),
        forall|v: Peano2| #[trigger] v.swell_formed() == v.well_formed(),
        Peano2::scapacity() == Peano2::capacity(),
{
}

/// One four-level step keeps the agreement: a family whose inner level
/// means the same under both traits means the same under both traits.
pub proof fn lemma_strided_agrees_step<T: Peano + Strided>()
    requires
        forall|x: T| #[trigger] x.scount() == x.count(),
        forall|x: T| #[trigger] x.swell_formed() == x.well_formed(),
        T::scapacity() == T::capacity(),
    ensures
        forall|v: PeanoEncoder4<T>| #[trigger] v.scount() == v.count(),
        forall|v: PeanoEncoder4<T>| #[trigger] v.swell_formed() == v.well_formed(),
        PeanoEncoder4::<T>::scapacity() == PeanoEncoder4::<T>::capacity(),
{
}

/// Build the value of a family that stands for `x`, then decode it
/// back; the stride of four keeps every family in reach.
fn strided_round_trip<T: Strided>(x: u8) -> (r: u8)
    requires
        (x as nat) < T::scapacity(),
    ensures
        r == x,
{
    let p = T::sfrom_count(x);
    p.sinto_u8()
}

/// The round trip through the depth-256 family recovers every byte.
pub fn round_trip_255(x: u8) -> (r: u8)
    ensures
        r == x,
{
    proof {
        lemma_scapacity_peano255();
    }
    strided_round_trip::<Peano255>(x)
}

/// One pass/fail mark for each byte value: true when the round trip
/// through the depth-256 family gave the byte back.
pub fn verify_all() -> (marks: Vec<bool>)
    ensures
        marks@.len() == 256,
        forall|i: int| 0 <= i < 256 ==> marks@[i] == true,
{
    let mut marks: Vec<bool> = Vec::new();
    let mut x: usize = 0;
    while x < 256
        invariant
            x <= 256,
            marks@.len() == x as int,
            forall|i: int| 0 <= i < x as int ==> marks@[i] == true,
        decreases 256 - x,
    {
        let b: u8 = x as u8;
        let r = round_trip_255(b);
        marks.push(r == b);
        x = x + 1;
    }
    marks
}

} // verus!
