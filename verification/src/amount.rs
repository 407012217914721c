//! Amounts of the asset, in its smallest on-chain unit.

use core::cmp::Ordering;
use vstd::prelude::*;
use vstd::std_specs::cmp::PartialOrdSpec;

verus! {

/// The whole supply that can ever exist, in the smallest unit.
pub const MAX_SUPPLY: u64 = 2_100_000_000_000_000;

/// Why an operation on amounts gave no amount.
#[derive(Clone, Copy, Debug, PartialEq, Eq, Structural, Hash)]
pub enum ArithmeticError {
    /// The sum is above the largest amount that can be held.
    Overflow,
    /// The difference is below zero.
    Underflow,
}

/// An amount, held as its magnitude. Amounts are ordered as their magnitudes.
#[derive(Clone, Copy, Debug, PartialEq, Eq, Structural, Ord, Hash)]
pub struct Sats(pub u64);

impl PartialOrd for Sats {
    fn partial_cmp(&self, other: &Sats) -> (r: Option<Ordering>) {
        if self.0 < other.0 {
            Some(Ordering::Less)
        } else if self.0 == other.0 {
            Some(Ordering::Equal)
        } else {
            Some(Ordering::Greater)
        }
    }
}

impl vstd::std_specs::cmp::PartialOrdSpecImpl for Sats {
    open spec fn obeys_partial_cmp_spec() -> bool {
        true
    }

    open spec fn partial_cmp_spec(&self, other: &Sats) -> Option<Ordering> {
        if self.0 < other.0 {
            Some(Ordering::Less)
        } else if self.0 == other.0 {
            Some(Ordering::Equal)
        } else {
            Some(Ordering::Greater)
        }
    }
}

impl Default for Sats {
    fn default() -> (r: Sats)
        ensures
            r == Sats::zero(),
    {
        Sats(0)
    }
}

impl Sats {
    /// The amount of nothing.
    pub open spec fn zero() -> Sats {
        Sats(0)
    }

    /// The sum of two amounts, as a mathematical integer.
    pub open spec fn sum(self, other: Sats) -> int {
        self.0 + other.0
    }

    /// The difference of two amounts, as a mathematical integer.
    pub open spec fn difference(self, other: Sats) -> int {
        self.0 - other.0
    }

    /// The magnitude of the amount.
    pub fn into_inner(self) -> (r: u64)
        ensures
            r == self.0,
    {
        self.0
    }

    /// Adds two amounts. The sum is returned exactly when it can be held;
    /// otherwise the addition fails with `Overflow` and nothing wraps.
    pub fn checked_add(self, other: Sats) -> (r: Result<Sats, ArithmeticError>)
        ensures
            self.sum(other) <= u64::MAX ==> (r matches Ok(s) && s.0 == self.sum(other)),
            self.sum(other) > u64::MAX ==> r == Err::<Sats, ArithmeticError>(
                ArithmeticError::Overflow,
            ),
    {
        if self.0 <= u64::MAX - other.0 {
            Ok(Sats(self.0 + other.0))
        } else {
            Err(ArithmeticError::Overflow)
        }
    }

    /// Takes one amount from another. The difference is returned exactly when
    /// it is not negative; otherwise the subtraction fails with `Underflow`.
    pub fn checked_sub(self, other: Sats) -> (r: Result<Sats, ArithmeticError>)
        ensures
            self.difference(other) >= 0 ==> (r matches Ok(s) && s.0 == self.difference(other)),
            self.difference(other) < 0 ==> r == Err::<Sats, ArithmeticError>(
                ArithmeticError::Underflow,
            ),
    {
        if self.0 >= other.0 {
            Ok(Sats(self.0 - other.0))
        } else {
            Err(ArithmeticError::Underflow)
        }
    }
}

/// Amounts are ordered exactly as their magnitudes: one amount is below
/// another if and only if its magnitude is, and the order is total.
pub proof fn lemma_order_follows_magnitude(a: Sats, b: Sats)
    ensures
        a.partial_cmp_spec(&b) == Some(Ordering::Less) <==> a.0 < b.0,
        a.partial_cmp_spec(&b) == Some(Ordering::Equal) <==> a == b,
        a.partial_cmp_spec(&b) == Some(Ordering::Greater) <==> a.0 > b.0,
        a.partial_cmp_spec(&b) is Some,
{
}

/// Sums of amounts within the supply can always be held: adding two such
/// amounts never overflows.
pub proof fn lemma_supply_sums_fit(a: Sats, b: Sats)
    requires
        a.0 <= MAX_SUPPLY,
        b.0 <= MAX_SUPPLY,
    ensures
        a.sum(b) <= u64::MAX,
{
}

} // verus!
