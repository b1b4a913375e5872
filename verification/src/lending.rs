//! The lending mapping: which type a lender hands out for a call of a given
//! duration.

use vstd::prelude::*;

verus! {

/// A family of item types indexed by the lifetime of one retrieval call.
///
/// For every lifetime `'lend` the mapping names the type `Lend` that a
/// retrieval lasting `'lend` produces. The mapping has no values of its own:
/// it only lets the capabilities speak of "the item of a call of exactly this
/// duration".
pub trait Lending<'lend> {
    /// The item produced by a retrieval whose borrow lasts `'lend`.
    type Lend;
}

/// The item that `L` lends for a call lasting `'lend`.
pub type Lend<'lend, L> = <L as Lending<'lend>>::Lend;

/// A lending mapping whose items can be handed on under a shorter lifetime.
///
/// A value that lives for `'long` may be lent for any `'short` that `'long`
/// outlives. The compiler does not see this for an item type that is only
/// known through [`Lending`], so the mapping supplies the narrowing itself.
/// Where the item type is covariant in its lifetime the body is the argument,
/// unchanged; where it is not, no body type-checks, and such a mapping cannot
/// be narrowed at all.
pub trait CovariantLending: for<'all> Lending<'all> {
    /// Narrows the outcome of a retrieval from `'long` to `'short`. Only the
    /// lifetime changes: the result is the argument.
    ///
    /// The function takes the outcome of a retrieval rather than the bare
    /// item, so that handing the argument on is a change of type and nothing
    /// else: a bare mutable reference would be reborrowed on its way out,
    /// and the reborrow is another reference than the one that came in.
    fn shorten<'long: 'short, 'short>(lend: Option<Lend<'long, Self>>) -> (short: Option<
        Lend<'short, Self>,
    >)
        ensures
            short == lend,
    ;
}

} // verus!
