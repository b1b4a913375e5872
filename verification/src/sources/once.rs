//! A lender of a single item.

use vstd::prelude::*;
use crate::lender::{DoubleEndedLender, ExactSizeLender, FusedLender, Lender};
use crate::lending::{CovariantLending, Lend, Lending};

verus! {

/// Creates a lender that lends `value` exactly once.
///
/// `L` is the lending mapping and `'a` the lifetime for which `value` lives.
/// The item is lent by the first retrieval, from whichever end it is made.
pub fn once<'a, L: CovariantLending>(value: Lend<'a, L>) -> (lender: Once<'a, L>)
    ensures
        lender@ == Some(value),
{
    Once { inner: Some(value) }
}

/// A lender that lends one item exactly once. It is created by [`once`].
///
/// The item sits in a slot that the first retrieval empties. An empty slot
/// is never filled again, so the lender is fused, and its size estimate is
/// exact at all times.
#[must_use]
pub struct Once<'a, L: CovariantLending> {
    inner: Option<Lend<'a, L>>,
}

impl<'a, L: CovariantLending> View for Once<'a, L> {
    type V = Option<Lend<'a, L>>;

    /// The slot: the item that is yet to be lent, if any.
    closed spec fn view(&self) -> Self::V {
        self.inner
    }
}

impl<'a, L: CovariantLending> Clone for Once<'a, L> where Lend<'a, L>: Clone {
    /// Clones the slot: an empty lender gives an empty one, a populated
    /// lender one that holds a clone of the item.
    fn clone(&self) -> (copy: Self)
        ensures
            self@ is None ==> copy@ is None,
            self@ matches Some(item) ==> copy@ matches Some(other) && cloned(item, other),
    {
        Once { inner: self.inner.clone() }
    }
}

/// `core::fmt::Formatter`, the sink that `Debug` writes to. Nothing is
/// stated of it: it is only passed through.
#[verifier::external_type_specification]
#[verifier::external_body]
pub struct ExFormatter<'a>(core::fmt::Formatter<'a>);

/// `core::fmt::Error`, the error of a failed write to a formatter. Nothing
/// is stated of it: it is only passed through.
#[verifier::external_type_specification]
#[verifier::external_body]
pub struct ExFmtError(core::fmt::Error);

impl<'a, L: CovariantLending> core::fmt::Debug for Once<'a, L> where
    Lend<'a, L>: core::fmt::Debug,
{
    /// Writes the lender as `Once { inner: .. }`, the slot in the form that
    /// its own `Debug` gives it, through `Formatter::write_fmt`. The text
    /// stands on one line whatever the flags of the formatter. Nothing is
    /// claimed of what is written, nor of whether the write succeeds.
    #[verifier::external_body]
    fn fmt(&self, f: &mut core::fmt::Formatter<'_>) -> core::fmt::Result {
        write!(f, "Once {{ inner: {:?} }}", self.inner)
    }
}

impl<'a, 'lend, L: CovariantLending> Lending<'lend> for Once<'a, L> {
    type Lend = Lend<'lend, L>;
}

impl<'a, L: CovariantLending> CovariantLending for Once<'a, L> {
    fn shorten<'long: 'short, 'short>(lend: Option<Lend<'long, Self>>) -> (short: Option<
        Lend<'short, Self>,
    >) {
        L::shorten(lend)
    }
}

impl<'a, L: CovariantLending> Lender for Once<'a, L> {
    open spec fn remaining<'b>(&self) -> Seq<Lend<'b, Self>> {
        match self@ {
            Some(item) => seq![item],
            None => Seq::empty(),
        }
    }

    open spec fn spec_size_hint(&self) -> (usize, Option<usize>) {
        if self@ is Some {
            (1, Some(1))
        } else {
            (0, Some(0))
        }
    }

    open spec fn is_fused() -> bool {
        true
    }

    /// Empties the slot and lends what it held, narrowed to the lifetime of
    /// this call. The item was handed in for `'a`, which outlives every
    /// borrow of the lender, so the narrowing is the one that
    /// [`CovariantLending::shorten`] provides.
    fn next(&mut self) -> (lend: Option<Lend<'_, Self>>)
        ensures
            lend == old(self)@,
            final(self)@ is None,
    {
        L::shorten(self.inner.take())
    }

    fn size_hint(&self) -> (hint: (usize, Option<usize>)) {
        if self.inner.is_some() {
            (1, Some(1))
        } else {
            (0, Some(0))
        }
    }
}

impl<'a, L: CovariantLending> DoubleEndedLender for Once<'a, L> {
    /// Empties the slot and lends what it held: with a single item the back
    /// is the front.
    fn next_back(&mut self) -> (lend: Option<Lend<'_, Self>>)
        ensures
            lend == old(self)@,
            final(self)@ is None,
    {
        L::shorten(self.inner.take())
    }
}

impl<'a, L: CovariantLending> ExactSizeLender for Once<'a, L> {
    proof fn lemma_exact_size(&self) {
    }
}

impl<'a, L: CovariantLending> FusedLender for Once<'a, L> {
    proof fn lemma_is_fused() {
    }
}

} // verus!
