use vstd::prelude::*;

verus! {

/// Number of units in one whole: quantities carry six decimal places.
pub const UNITS_PER_ONE: i64 = 1_000_000;

/// A fixed-point decimal quantity (price, size, spread or exposure), held as a
/// whole number of millionths.
#[derive(Clone, Copy, Debug, PartialEq, Eq, Structural)]
pub struct Dec {
    pub units: i64,
}

/// The decimal with the given number of units.
pub open spec fn dec(units: int) -> Dec {
    Dec { units: units as i64 }
}

/// Whether a mathematical value fits the units of a `Dec`.
pub open spec fn fits_units(v: int) -> bool {
    i64::MIN <= v <= i64::MAX
}

impl Dec {
    /// The value in units, as a mathematical integer.
    pub open spec fn val(self) -> int {
        self.units as int
    }

    pub fn from_units(units: i64) -> (r: Dec)
        ensures
            r.units == units,
    {
        Dec { units }
    }

    pub fn zero() -> (r: Dec)
        ensures
            r.units == 0,
    {
        Dec { units: 0 }
    }

    pub fn one() -> (r: Dec)
        ensures
            r.units == UNITS_PER_ONE,
    {
        Dec { units: UNITS_PER_ONE }
    }
}

} // verus!
