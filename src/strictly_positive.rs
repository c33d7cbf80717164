//! Quantities that can tell whether they are strictly positive.
use vstd::prelude::*;
use crate::decimal::Decimal;

verus! {

/// A quantity that can tell whether it is strictly positive.
pub trait StrictlyPositive {
    /// Whether the quantity is strictly positive.
    spec fn spec_strictly_positive(&self) -> bool;

    /// Returns whether the quantity is strictly positive.
    fn is_strictly_positive(&self) -> (r: bool)
        ensures
            r == self.spec_strictly_positive(),
    ;
}

impl StrictlyPositive for Decimal {
    open spec fn spec_strictly_positive(&self) -> bool {
        self.value() > 0
    }

    fn is_strictly_positive(&self) -> (r: bool) {
        self.units() > 0
    }
}

} // verus!
