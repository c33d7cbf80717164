//! Quantities with a zero.
use vstd::prelude::*;
use crate::decimal::Decimal;

verus! {

/// A quantity with a zero.
pub trait Zero: Sized {
    /// Whether the quantity is zero.
    spec fn spec_is_zero(&self) -> bool;

    /// The zero.
    fn zero() -> (r: Self)
        ensures
            r.spec_is_zero(),
    ;

    /// Returns whether the quantity is zero.
    fn is_zero(&self) -> (r: bool)
        ensures
            r == self.spec_is_zero(),
    ;
}

impl Zero for usize {
    open spec fn spec_is_zero(&self) -> bool {
        *self == 0
    }

    fn zero() -> (r: usize) {
        0
    }

    fn is_zero(&self) -> (r: bool) {
        *self == 0
    }
}

impl Zero for Decimal {
    open spec fn spec_is_zero(&self) -> bool {
        self.value() == 0
    }

    fn zero() -> (r: Decimal) {
        Decimal::from_units(0).unwrap()
    }

    fn is_zero(&self) -> (r: bool) {
        self.units() == 0
    }
}

} // verus!
