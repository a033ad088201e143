use vstd::prelude::*;

verus! {

/// Number of indivisible sub-units ("attos") in one whole unit of the
/// accepted denomination: amounts carry eighteen decimal places.
pub const ATTOS_PER_UNIT: u128 = 1_000_000_000_000_000_000;

/// An exact, non-negative quantity of the accepted denomination, held as a
/// count of attos.
#[derive(Clone, Copy, Debug, PartialEq, Eq, Structural)]
pub struct Amount {
    pub attos: u128,
}

impl Amount {
    /// The amount as a mathematical integer of attos.
    pub open spec fn value(self) -> int {
        self.attos as int
    }

    /// The empty amount.
    pub fn zero() -> (r: Amount)
        ensures
            r.value() == 0,
    {
        Amount { attos: 0 }
    }

    /// An amount given directly in attos.
    pub fn from_attos(attos: u128) -> (r: Amount)
        ensures
            r.value() == attos,
    {
        Amount { attos }
    }

    /// An amount of `units` whole units.
    pub fn whole(units: u64) -> (r: Amount)
        ensures
            r.value() == units * ATTOS_PER_UNIT,
    {
        assert(units * ATTOS_PER_UNIT <= u64::MAX * ATTOS_PER_UNIT) by (nonlinear_arith);
        Amount { attos: units as u128 * ATTOS_PER_UNIT }
    }

    /// Whether this amount covers `other`.
    pub fn covers(&self, other: &Amount) -> (r: bool)
        ensures
            r == (self.value() >= other.value()),
    {
        self.attos >= other.attos
    }

    /// The sum of two amounts, or `None` where it is not representable.
    pub fn checked_add(&self, other: &Amount) -> (r: Option<Amount>)
        ensures
            match r {
                Some(s) => s.value() == self.value() + other.value(),
                None => self.value() + other.value() > u128::MAX,
            },
    {
        match self.attos.checked_add(other.attos) {
            Some(a) => Some(Amount { attos: a }),
            None => None,
        }
    }

    /// The difference `self - other`, or `None` where `other` exceeds `self`.
    pub fn checked_sub(&self, other: &Amount) -> (r: Option<Amount>)
        ensures
            match r {
                Some(d) => self.value() >= other.value() && d.value() == self.value() - other.value(),
                None => self.value() < other.value(),
            },
    {
        if self.attos >= other.attos {
            Some(Amount { attos: self.attos - other.attos })
        } else {
            None
        }
    }
}

} // verus!
