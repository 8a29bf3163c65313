//! Exact fixed-point monetary amounts.
//!
//! Balances are held as a signed count of ten-thousandths of one currency
//! unit, so every addition, subtraction and comparison the engine performs is
//! exact integer arithmetic: repeated dispute/resolve cycles cannot drift.

use vstd::prelude::*;

verus! {

/// How many fixed-point units make one whole currency unit (four decimal
/// places).
pub const UNITS_PER_WHOLE: i128 = 10_000;

/// Largest magnitude (in fixed-point units) the engine lets any balance
/// reach.  A record that would push a balance, or a total, past this bound is
/// rejected as a no-op, so balances and their sums always stay far inside the
/// machine integer range.
pub const BALANCE_LIMIT: i128 = 1_000_000_000_000_000_000_000_000_000_000_000_000;

/// Holds when a (mathematical) balance lies within what the engine accepts.
pub open spec fn in_range(v: int) -> bool {
    -BALANCE_LIMIT <= v <= BALANCE_LIMIT
}

/// An exact fixed-point decimal amount.
///
/// `units` counts ten-thousandths of one currency unit: `Amount { units:
/// 15_000 }` is one and a half units.  The mathematical value of an amount,
/// used throughout the contracts, is its unit count viewed as an unbounded
/// integer.
#[derive(Clone, Copy, Debug, PartialEq, Eq, Structural)]
pub struct Amount {
    pub units: i128,
}

impl View for Amount {
    type V = int;

    open spec fn view(&self) -> int {
        self.units as int
    }
}

/// The amount whose unit count is the integer `v` (meaningful when `v` fits
/// in the unit type, as every in-range balance does).
pub open spec fn amount_of(v: int) -> Amount {
    Amount { units: v as i128 }
}

impl Amount {
    /// The amount of zero.
    pub fn zero() -> (r: Amount)
        ensures
            r@ == 0,
    {
        Amount { units: 0 }
    }

    /// The amount holding exactly `units` ten-thousandths of a unit.
    pub fn from_units(units: i128) -> (r: Amount)
        ensures
            r@ == units,
    {
        Amount { units }
    }

    /// The amount worth `whole` whole currency units.
    pub fn from_int(whole: i64) -> (r: Amount)
        ensures
            r@ == whole * UNITS_PER_WHOLE,
    {
        Amount { units: (whole as i128) * UNITS_PER_WHOLE }
    }

    /// The unit count this amount holds.
    pub fn units(&self) -> (r: i128)
        ensures
            r == self@,
    {
        self.units
    }
}

} // verus!
