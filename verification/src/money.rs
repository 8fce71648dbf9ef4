//! Money amounts with four decimal places, as the `NUMERIC(.., 4)` columns hold them.

use vstd::prelude::*;

verus! {

/// An amount of money counted in ten-thousandths of the currency unit.
#[derive(Debug, Clone, Copy, PartialEq, Eq, Structural)]
pub struct Money {
    pub units: i64,
}

/// Amounts whose magnitude reaches this many ten-thousandths do not fit a
/// `NUMERIC(18,4)` column.
pub const MONEY_LIMIT: i64 = 1_000_000_000_000_000_000;

impl Money {
    pub fn from_units(units: i64) -> (m: Money)
        ensures
            m.units == units,
    {
        Money { units }
    }

    pub fn zero() -> (m: Money)
        ensures
            m.units == 0,
    {
        Money { units: 0 }
    }
}

} // verus!
