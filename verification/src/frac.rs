use vstd::prelude::*;

verus! {

/// An exact fraction in the closed interval `[0, 1]`, used for a timer's
/// progress and for the opacity of a splash item. Keeping numerator and
/// denominator separate makes the linear opacity ramps exact: no rounding
/// ever enters a contract.
#[derive(Clone, Copy, Debug, PartialEq, Eq, Structural)]
pub struct UnitFrac {
    pub num: u64,
    pub den: u64,
}

impl UnitFrac {
    /// Well-formed: a positive denominator and a value of at most one.
    pub open spec fn inv(self) -> bool {
        0 < self.den && self.num <= self.den
    }

    /// The fraction has value zero.
    pub open spec fn spec_is_zero(self) -> bool {
        self.num == 0
    }

    /// The fraction has value one.
    pub open spec fn spec_is_one(self) -> bool {
        self.num == self.den
    }

    /// The fraction 0/1.
    pub fn zero() -> (r: UnitFrac)
        ensures
            r == (UnitFrac { num: 0u64, den: 1u64 }),
            r.inv(),
            r.spec_is_zero(),
    {
        UnitFrac { num: 0, den: 1 }
    }

    /// The fraction 1/1.
    pub fn one() -> (r: UnitFrac)
        ensures
            r == (UnitFrac { num: 1u64, den: 1u64 }),
            r.inv(),
            r.spec_is_one(),
    {
        UnitFrac { num: 1, den: 1 }
    }
}

} // verus!
