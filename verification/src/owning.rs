//! The owning conversion: copying a lent item into a value that borrows
//! nothing.

use vstd::prelude::*;

verus! {

/// An item that can be copied into an independently owned value.
///
/// The conversion is total. What it produces is described by the relation
/// [`converts_to`](OwningConversion::converts_to) rather than by a function,
/// so that an item whose copies are not determined by the item alone can have
/// the capability too.
pub trait OwningConversion {
    /// The owned value that the conversion produces.
    type Owned;

    /// Whether `owned` is a value that converting `self` may produce. By
    /// default every value may be: nothing is promised of the conversion.
    open spec fn converts_to(&self, owned: Self::Owned) -> bool {
        true
    }

    /// Produces an owned value from this item.
    fn to_owned_value(&self) -> (owned: Self::Owned)
        ensures
            self.converts_to(owned),
    ;
}

/// Every `Clone` type converts by cloning, and its owned form is the type
/// itself.
impl<T: Clone> OwningConversion for T {
    type Owned = T;

    open spec fn converts_to(&self, owned: T) -> bool {
        cloned(*self, owned)
    }

    fn to_owned_value(&self) -> (owned: T) {
        self.clone()
    }
}

/// Whether `item` is what the conversion makes of `lend`: the end marker
/// stays the end marker, and a lent item becomes one of its owned values.
pub open spec fn owned_from<B: OwningConversion>(lend: Option<B>, item: Option<B::Owned>) -> bool {
    match (lend, item) {
        (Some(lent), Some(owned)) => lent.converts_to(owned),
        (None, None) => true,
        _ => false,
    }
}

} // verus!
