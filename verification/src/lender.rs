//! The lending protocol: retrieval from the front, retrieval from the back,
//! exact remaining count, and stable exhaustion.
//!
//! The model of a lender is the sequence of items it has yet to lend,
//! [`Lender::remaining`], front first. A retrieval from the front lends the
//! first of them, a retrieval from the back the last; on an empty sequence
//! either yields the end marker `None`.
//!
//! The ghost items of the traits have defaults that say nothing, so that an
//! implementation written outside verified code can leave them out. A
//! verified implementation overrides them with its model, and Verus then
//! holds its methods to the contracts.

use vstd::prelude::*;
use crate::lending::{Lend, Lending};

verus! {

/// The end of a lender that a retrieval draws from.
#[derive(Clone, Copy, Debug)]
pub enum End {
    /// Forward retrieval, [`Lender::next`].
    Front,
    /// Backward retrieval, [`DoubleEndedLender::next_back`].
    Back,
}

/// What a retrieval from `end` yields when `items` remain: the item at that
/// end, or the end marker when none remains.
pub open spec fn drawn<T>(items: Seq<T>, end: End) -> Option<T> {
    if items.len() == 0 {
        None
    } else {
        match end {
            End::Front => Some(items.first()),
            End::Back => Some(items.last()),
        }
    }
}

/// What remains of `items` once the item at `end` has been lent.
pub open spec fn left<T>(items: Seq<T>, end: End) -> Seq<T> {
    if items.len() == 0 {
        items
    } else {
        match end {
            End::Front => items.drop_first(),
            End::Back => items.drop_last(),
        }
    }
}

/// A stateful sequence whose items may borrow from the sequence itself.
///
/// Each call of [`next`](Lender::next) borrows the lender for as long as the
/// item it returns is alive, so no two items of one lender are ever alive
/// together.
pub trait Lender: for<'all> Lending<'all> {
    /// The items that are yet to be lent before the next end marker, front
    /// first. The default leaves them unknown.
    open spec fn remaining<'a>(&self) -> Seq<Lend<'a, Self>> {
        arbitrary()
    }

    /// The estimate that [`size_hint`](Lender::size_hint) reports in this
    /// state. The default leaves it unknown.
    open spec fn spec_size_hint(&self) -> (usize, Option<usize>) {
        arbitrary()
    }

    /// Whether lenders of this type stay exhausted: once a retrieval has
    /// yielded the end marker, nothing remains to be lent. [`FusedLender`]
    /// promises it; by default it is not promised.
    open spec fn is_fused() -> bool {
        false
    }

    /// Lends the first remaining item, or yields `None` when none remains.
    ///
    /// After the end marker the lower bound of the size estimate is 0. A
    /// lender that is not fused may have items to lend again afterwards.
    fn next(&mut self) -> (lend: Option<Lend<'_, Self>>)
        ensures
            lend == drawn(old(self).remaining(), End::Front),
            lend is Some ==> final(self).remaining() == left(old(self).remaining(), End::Front),
            lend is None ==> final(self).spec_size_hint().0 == 0,
            lend is None && Self::is_fused() ==> final(self).remaining().len() == 0,
    ;

    /// A lower bound and, if one is known, an upper bound on the number of
    /// items that remain.
    fn size_hint(&self) -> (hint: (usize, Option<usize>))
        ensures
            hint == self.spec_size_hint(),
            hint.0 <= self.remaining().len(),
            hint.1 matches Some(upper) ==> self.remaining().len() <= upper,
    ;
}

/// One retrieval, as the contracts of [`Lender::next`] and
/// [`DoubleEndedLender::next_back`] describe it: the lender before the call,
/// the lender after it, the end that was drawn from and what was lent.
pub open spec fn retrieval<'a, L: Lender>(
    pre: L,
    post: L,
    end: End,
    lend: Option<Lend<'a, L>>,
) -> bool {
    &&& lend == drawn(pre.remaining(), end)
    &&& lend is Some ==> post.remaining() == left(pre.remaining(), end)
    &&& lend is None ==> post.spec_size_hint().0 == 0
    &&& lend is None && L::is_fused() ==> post.remaining().len() == 0
}

/// A lender that can also lend from the back.
///
/// Both ends draw from the one sequence of remaining items, so no item is
/// lent twice and the two ends together exhaust the lender exactly once.
pub trait DoubleEndedLender: Lender {
    /// Lends the last remaining item, or yields `None` when none remains.
    fn next_back(&mut self) -> (lend: Option<Lend<'_, Self>>)
        ensures
            lend == drawn(old(self).remaining(), End::Back),
            lend is Some ==> final(self).remaining() == left(old(self).remaining(), End::Back),
            lend is None ==> final(self).spec_size_hint().0 == 0,
            lend is None && Self::is_fused() ==> final(self).remaining().len() == 0,
    ;
}

/// A lender that knows exactly how many items remain.
///
/// The capability is the invariant [`lemma_exact_size`], which an
/// implementation proves; [`len`] follows from it. An implementation outside
/// verified code gives the lemma an empty body.
///
/// [`lemma_exact_size`]: ExactSizeLender::lemma_exact_size
/// [`len`]: ExactSizeLender::len
pub trait ExactSizeLender: Lender {
    /// In every state both bounds of the size estimate are the number of
    /// remaining items.
    proof fn lemma_exact_size(&self)
        ensures
            self.remaining().len() <= usize::MAX,
            self.spec_size_hint() == (
                self.remaining().len() as usize,
                Some(self.remaining().len() as usize),
            ),
    ;

    /// The number of items that remain: the lower bound of the size
    /// estimate, which is exact.
    fn len(&self) -> (n: usize)
        ensures
            n == self.remaining().len(),
            self.spec_size_hint() == (n, Some(n)),
    {
        proof {
            self.lemma_exact_size();
        }
        let (lower, _) = self.size_hint();
        lower
    }
}

/// A lender that keeps yielding the end marker once it has yielded it.
///
/// The trait adds no operation. It is a promise about
/// [`next`](Lender::next) and [`next_back`](DoubleEndedLender::next_back):
/// an implementation defines [`Lender::is_fused`] as `true`, which makes the
/// last clause of their contracts binding, and proves the lemma from that
/// definition. An implementation outside verified code gives the lemma an
/// empty body.
pub trait FusedLender: Lender {
    /// Lenders of this type stay exhausted.
    proof fn lemma_is_fused()
        ensures
            Self::is_fused(),
    ;
}

} // verus!
