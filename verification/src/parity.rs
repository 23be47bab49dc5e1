//! The single bit that selects which of two buffers, or of two bind groups, a
//! frame uses.

use vstd::prelude::*;

verus! {

/// Parity of a frame number; also the index of a member of a pair.
#[derive(Clone, Copy, Debug, PartialEq, Eq, Structural)]
pub enum Parity {
    Even,
    Odd,
}

impl Parity {
    /// The parity as a number: 0 or 1.
    pub open spec fn bit(self) -> int {
        match self {
            Parity::Even => 0,
            Parity::Odd => 1,
        }
    }

    /// The parity of the number `n`.
    pub open spec fn of(n: int) -> Parity {
        if n % 2 == 0 {
            Parity::Even
        } else {
            Parity::Odd
        }
    }

    /// The other member of the pair.
    pub open spec fn other(self) -> Parity {
        match self {
            Parity::Even => Parity::Odd,
            Parity::Odd => Parity::Even,
        }
    }

    /// Index into an array of two.
    pub fn index(self) -> (i: usize)
        ensures
            i == self.bit(),
    {
        match self {
            Parity::Even => 0,
            Parity::Odd => 1,
        }
    }

    /// The other member of the pair.
    pub fn flip(self) -> (p: Parity)
        ensures
            p == self.other(),
    {
        match self {
            Parity::Even => Parity::Odd,
            Parity::Odd => Parity::Even,
        }
    }

    /// The parity of a frame counter.
    pub fn of_count(count: u32) -> (p: Parity)
        ensures
            p == Parity::of(count as int),
    {
        if count % 2 == 0 {
            Parity::Even
        } else {
            Parity::Odd
        }
    }
}

/// A parity is the remainder of its number by two, the other member has the
/// complementary index, and consecutive numbers alternate.
pub proof fn law_parity_alternates(n: int)
    ensures
        Parity::of(n).bit() == n % 2,
        Parity::of(n).other().bit() == 1 - n % 2,
        Parity::of(n + 1) == Parity::of(n).other(),
        Parity::of(n).other().other() == Parity::of(n),
{
}

} // verus!
