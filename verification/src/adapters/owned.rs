//! The adapter from a lender to a producer of owned values.

use vstd::prelude::*;
use crate::lender::{drawn, retrieval, DoubleEndedLender, End, ExactSizeLender, Lender};
use crate::lending::Lending;
use crate::owning::{owned_from, OwningConversion};

verus! {

/// A producer of owned values that converts each item of a lender as it is
/// lent.
///
/// The adapter owns the lender and holds nothing else. It offers backward
/// retrieval and the exact count where the lender has the capability, and
/// stays exhausted where the lender does.
#[must_use]
#[derive(Debug)]
pub struct Owned<L> {
    lender: L,
}

/// One retrieval of the adapter: its lender makes a retrieval from `end`,
/// and `item` is the owned form of what was lent.
pub open spec fn owned_retrieval<T, L>(pre: Owned<L>, post: Owned<L>, end: End, item: Option<T>) -> bool where
    L: Lender,
    for<'all> <L as Lending<'all>>::Lend: OwningConversion<Owned = T>,
{
    &&& retrieval(pre.lender(), post.lender(), end, drawn(pre.lender().remaining(), end))
    &&& owned_from(drawn(pre.lender().remaining(), end), item)
}

impl<L> Owned<L> {
    /// The lender that the adapter wraps.
    pub closed spec fn lender(&self) -> L {
        self.lender
    }

    /// Wraps `lender`, taking ownership of it.
    pub fn new(lender: L) -> (owned: Self)
        ensures
            owned.lender() == lender,
    {
        Self { lender }
    }
}

impl<T, L> Owned<L> where
    L: Lender,
    for<'all> <L as Lending<'all>>::Lend: OwningConversion<Owned = T>,
{
    /// Retrieves the next item of the lender and returns its owned form, or
    /// `None` when the lender yields the end marker.
    pub fn next(&mut self) -> (item: Option<T>)
        ensures
            owned_retrieval(*old(self), *final(self), End::Front, item),
    {
        match self.lender.next() {
            Some(lend) => Some(lend.to_owned_value()),
            None => None,
        }
    }

    /// The size estimate of the lender: conversion changes no count.
    pub fn size_hint(&self) -> (hint: (usize, Option<usize>))
        ensures
            hint == self.lender().spec_size_hint(),
            hint.0 <= self.lender().remaining().len(),
            hint.1 matches Some(upper) ==> self.lender().remaining().len() <= upper,
    {
        self.lender.size_hint()
    }
}

impl<T, L> Owned<L> where
    L: DoubleEndedLender,
    for<'all> <L as Lending<'all>>::Lend: OwningConversion<Owned = T>,
{
    /// Retrieves the last item of the lender and returns its owned form, or
    /// `None` when the lender yields the end marker.
    pub fn next_back(&mut self) -> (item: Option<T>)
        ensures
            owned_retrieval(*old(self), *final(self), End::Back, item),
    {
        match self.lender.next_back() {
            Some(lend) => Some(lend.to_owned_value()),
            None => None,
        }
    }
}

impl<L: ExactSizeLender> Owned<L> {
    /// The number of items that remain: that of the lender.
    pub fn len(&self) -> (n: usize)
        ensures
            n == self.lender().remaining().len(),
            self.lender().spec_size_hint() == (n, Some(n)),
    {
        self.lender.len()
    }
}

impl<L: Clone> Clone for Owned<L> {
    /// Clones the lender.
    fn clone(&self) -> (copy: Self)
        ensures
            cloned(self.lender(), copy.lender()),
    {
        Owned { lender: self.lender.clone() }
    }
}

impl<L: Default> Default for Owned<L> {
    /// Wraps the default lender.
    fn default() -> (owned: Self)
        ensures
            call_ensures(L::default, (), owned.lender()),
    {
        Self::new(L::default())
    }
}

} // verus!
