use vstd::prelude::*;

verus! {

/// An element type the cycle controller can work with.
///
/// The controller copies elements out of the backing list into the state
/// cell, and the default position resolver compares elements; this trait
/// supplies both operations with their meaning pinned down: `duplicate`
/// returns a value equal to the original, and `equals` decides `spec_eq`,
/// the element equality that the default resolver interprets.
pub trait CycleValue: Sized {
    /// The element equality that `equals` decides.
    spec fn spec_eq(self, other: Self) -> bool;

    /// Decide whether two elements are equal under `spec_eq`.
    fn equals(&self, other: &Self) -> (r: bool)
        ensures
            r == self.spec_eq(*other),
    ;

    /// A copy of the value, equal to the original.
    fn duplicate(&self) -> (r: Self)
        ensures
            r == *self,
    ;
}

impl CycleValue for String {
    open spec fn spec_eq(self, other: Self) -> bool {
        self@ == other@
    }

    fn equals(&self, other: &Self) -> (r: bool) {
        *self == *other
    }

    fn duplicate(&self) -> (r: Self) {
        self.clone()
    }
}

impl CycleValue for u64 {
    open spec fn spec_eq(self, other: Self) -> bool {
        self == other
    }

    fn equals(&self, other: &Self) -> (r: bool) {
        *self == *other
    }

    fn duplicate(&self) -> (r: Self) {
        *self
    }
}

} // verus!
