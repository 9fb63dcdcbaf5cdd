use vstd::prelude::*;

verus! {

/// The bottom of the recursion: `core::convert::Infallible` has no values,
/// so the innermost `Successor` variant of the family can never be built.
pub type Null = core::convert::Infallible;

/// `PeanoEncoder<Null>` represents the single integer 0.
/// If `T` represents the integers up to n, then `PeanoEncoder<T>`
/// represents the integers up to n + 1.
#[derive(Clone, Debug)]
pub enum PeanoEncoder<T> {
    Successor(T),
    Zero,
}

/// One level of the nested Peano family: a value stands for the number of
/// `Successor` wrappers around the innermost `Zero`.
pub trait Peano: Sized {
    /// The integer a value stands for.
    spec fn count(self) -> nat;

    /// Whether a value can exist at run time: the bottom type has no
    /// values, so any value that would hold one is spurious.
    spec fn well_formed(self) -> bool;

    /// How many distinct integers this level can represent:
    /// a family of depth d represents exactly 0 .. d.
    spec fn capacity() -> nat;

    /// Every value that can exist counts below the level's capacity.
    proof fn lemma_count_lt_capacity(self)
        requires
            self.well_formed(),
        ensures
            self.count() < Self::capacity(),
    ;

    /// Decode a value by unwrapping its `Successor` chain.
    fn into_u8(self) -> (r: u8)
        requires
            self.well_formed(),
            self.count() < 256,
        ensures
            r as nat == self.count(),
    ;

    /// Build the value that stands for `n`, one wrapper at a time.
    fn from_count(n: u8) -> (r: Self)
        requires
            (n as nat) < Self::capacity(),
        ensures
            r.well_formed(),
            r.count() == n as nat,
    ;
}

impl Peano for Null {
    open spec fn count(self) -> nat {
        0
    }

    open spec fn well_formed(self) -> bool {
        false
    }

    open spec fn capacity() -> nat {
        0
    }

    proof fn lemma_count_lt_capacity(self) {
    }

    fn into_u8(self) -> (r: u8) {
        vstd::pervasive::unreached()
    }

    fn from_count(n: u8) -> (r: Self) {
        vstd::pervasive::unreached()
    }
}

impl<T: Peano> Peano for PeanoEncoder<T> {
    open spec fn count(self) -> nat {
        match self {
            PeanoEncoder::Successor(x) => x.count() + 1,
            PeanoEncoder::Zero => 0,
        }
    }

    open spec fn well_formed(self) -> bool {
        match self {
            PeanoEncoder::Successor(x) => x.well_formed(),
            PeanoEncoder::Zero => true,
        }
    }

    open spec fn capacity() -> nat {
        T::capacity() + 1
    }

    proof fn lemma_count_lt_capacity(self) {
        match self {
            PeanoEncoder::Successor(x) => x.lemma_count_lt_capacity(),
            PeanoEncoder::Zero => {},
        }
    }

    fn into_u8(self) -> (r: u8) {
        match self {
            PeanoEncoder::Successor(x) => 1 + x.into_u8(),
            PeanoEncoder::Zero => 0,
        }
    }

    fn from_count(n: u8) -> (r: Self) {
        if n == 0 {
            PeanoEncoder::Zero
        } else {
            PeanoEncoder::Successor(T::from_count(n - 1))
        }
    }
}

/// The base value decodes to 0 at every nesting depth.
pub proof fn lemma_zero_count<T: Peano>()
    ensures
        (PeanoEncoder::<T>::Zero).count() == 0,
        (PeanoEncoder::<T>::Zero).well_formed(),
{
}

/// Wrapping one more `Successor` around a value that can exist adds
/// exactly one to the integer it stands for.
pub proof fn lemma_successor_count<T: Peano>(v: T)
    ensures
        (PeanoEncoder::<T>::Successor(v)).count() == v.count() + 1,
        (PeanoEncoder::<T>::Successor(v)).well_formed() == v.well_formed(),
{
}

} // verus!
