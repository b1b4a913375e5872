//! What the contracts of the protocol imply for whole runs of retrievals.
//!
//! A run is written down as three sequences: the states of the lender, the
//! ends that the retrievals drew from, and what they lent. The laws are
//! stated for every run that the contracts allow, whatever the lender.

use vstd::prelude::*;
use crate::adapters::owned::{owned_retrieval, Owned};
use crate::lender::{
    drawn, retrieval, DoubleEndedLender, End, ExactSizeLender, FusedLender, Lender,
};
use crate::lending::{Lend, Lending};
use crate::owning::{owned_from, OwningConversion};

verus! {

/// A run of retrievals on one lender. `states[0]` is the lender at the
/// start; the `i`-th retrieval draws from `ends[i]`, lends `lends[i]` and
/// leaves the lender as `states[i + 1]`.
pub open spec fn is_run<'a, L: Lender>(
    states: Seq<L>,
    ends: Seq<End>,
    lends: Seq<Option<Lend<'a, L>>>,
) -> bool {
    &&& states.len() == ends.len() + 1
    &&& lends.len() == ends.len()
    &&& forall|i: int|
        #![trigger lends[i]]
        0 <= i < ends.len() ==> retrieval(states[i], states[i + 1], ends[i], lends[i])
}

/// The items that a run lent from the front, in the order in which they were
/// lent.
pub open spec fn front_part<T>(ends: Seq<End>, lends: Seq<Option<T>>) -> Seq<T>
    decreases ends.len(),
{
    if ends.len() == 0 || lends.len() != ends.len() {
        Seq::empty()
    } else {
        let before = front_part(ends.drop_last(), lends.drop_last());
        match (ends.last(), lends.last()) {
            (End::Front, Some(item)) => before.push(item),
            _ => before,
        }
    }
}

/// The items that a run lent from the back, the last lent first: the order
/// in which they stood in the lender.
pub open spec fn back_part<T>(ends: Seq<End>, lends: Seq<Option<T>>) -> Seq<T>
    decreases ends.len(),
{
    if ends.len() == 0 || lends.len() != ends.len() {
        Seq::empty()
    } else {
        let before = back_part(ends.drop_last(), lends.drop_last());
        match (ends.last(), lends.last()) {
            (End::Back, Some(item)) => seq![item] + before,
            _ => before,
        }
    }
}

/// A run without its last retrieval is a run.
proof fn lemma_run_prefix<'a, L: Lender>(
    states: Seq<L>,
    ends: Seq<End>,
    lends: Seq<Option<Lend<'a, L>>>,
)
    requires
        is_run(states, ends, lends),
        ends.len() > 0,
    ensures
        is_run(states.drop_last(), ends.drop_last(), lends.drop_last()),
{
    let (s, e, l) = (states.drop_last(), ends.drop_last(), lends.drop_last());
    assert forall|i: int| #![trigger l[i]] 0 <= i < e.len() implies retrieval(
        s[i],
        s[i + 1],
        e[i],
        l[i],
    ) by {
        assert(lends[i] == l[i]);
    }
}

/// While a run makes no more retrievals than there were items, every
/// retrieval lends an item, and the items lent from the front, those that
/// still remain and the items lent from the back make up, in this order, the
/// items that remained at the start.
pub proof fn lemma_run_partition<'a, L: Lender>(
    states: Seq<L>,
    ends: Seq<End>,
    lends: Seq<Option<Lend<'a, L>>>,
)
    requires
        is_run(states, ends, lends),
        ends.len() <= states[0].remaining().len(),
    ensures
        forall|i: int| 0 <= i < lends.len() ==> lends[i] is Some,
        front_part(ends, lends).len() + back_part(ends, lends).len() == ends.len(),
        front_part(ends, lends) + states.last().remaining() + back_part(ends, lends)
            == states[0].remaining(),
    decreases ends.len(),
{
    let all = states[0].remaining();
    if ends.len() == 0 {
        assert(front_part(ends, lends) + states.last().remaining() + back_part(ends, lends)
            =~= all);
    } else {
        let (s, e, l) = (states.drop_last(), ends.drop_last(), lends.drop_last());
        lemma_run_prefix(states, ends, lends);
        lemma_run_partition(s, e, l);
        let k = ends.len() - 1;
        let before = s.last().remaining();
        assert(s.last() == states[k]);
        assert(s[0] == states[0]);
        assert(front_part(e, l) + before + back_part(e, l) == all);
        assert(before.len() > 0);
        let lend = lends[k];
        assert(retrieval(states[k], states[k + 1], ends[k], lend));
        assert(states.last() == states[k + 1]);
        assert(lend is Some);
        assert forall|i: int| 0 <= i < lends.len() implies lends[i] is Some by {
            if i < k {
                assert(l[i] == lends[i]);
            }
        }
        assert(front_part(ends, lends) + states.last().remaining() + back_part(ends, lends)
            =~= front_part(e, l) + before + back_part(e, l));
    }
}

/// After a retrieval that yielded the end marker, the lower bound of the
/// size estimate is 0.
pub proof fn law_lower_bound_after_end<'a, L: Lender>(
    states: Seq<L>,
    ends: Seq<End>,
    lends: Seq<Option<Lend<'a, L>>>,
    i: int,
)
    requires
        is_run(states, ends, lends),
        0 <= i < lends.len(),
        lends[i] is None,
    ensures
        states[i + 1].spec_size_hint().0 == 0,
{
}

/// In every state of a run of an exact-size lender, both bounds of the size
/// estimate are the number of items that remain; and a retrieval that lends
/// an item lowers that number by one.
pub proof fn law_exact_size<'a, L: ExactSizeLender>(
    states: Seq<L>,
    ends: Seq<End>,
    lends: Seq<Option<Lend<'a, L>>>,
)
    requires
        is_run(states, ends, lends),
    ensures
        forall|i: int|
            0 <= i < states.len() ==> (#[trigger] states[i]).spec_size_hint() == (
                states[i].remaining().len() as usize,
                Some(states[i].remaining().len() as usize),
            ),
        forall|i: int|
            0 <= i < lends.len() && #[trigger] lends[i] is Some ==> states[i].remaining().len()
                == states[i + 1].remaining().len() + 1,
{
    assert forall|i: int| 0 <= i < states.len() implies (#[trigger] states[i]).spec_size_hint()
        == (states[i].remaining().len() as usize, Some(states[i].remaining().len() as usize)) by {
        states[i].lemma_exact_size();
    }
}

/// Once a fused lender has yielded the end marker, every later retrieval of
/// the run, from either end, yields the end marker, and nothing remains in
/// any later state.
pub proof fn law_fused_exhaustion<'a, L: FusedLender>(
    states: Seq<L>,
    ends: Seq<End>,
    lends: Seq<Option<Lend<'a, L>>>,
    first: int,
    later: int,
)
    requires
        is_run(states, ends, lends),
        0 <= first <= later < lends.len(),
        lends[first] is None,
    ensures
        lends[later] is None,
        states[later + 1].remaining().len() == 0,
        states[later + 1].spec_size_hint().0 == 0,
    decreases later - first,
{
    L::lemma_is_fused();
    if first < later {
        law_fused_exhaustion(states, ends, lends, first, later - 1);
        assert(retrieval(states[later], states[later + 1], ends[later], lends[later]));
    }
}

/// A run that makes as many retrievals on a double-ended lender as there
/// were items, from whichever ends, lends each item exactly once: the items
/// lent from the front followed by those lent from the back, in the order in
/// which they stood, are the items that remained at the start. Nothing
/// remains after it, and one more retrieval from either end yields the end
/// marker.
pub proof fn law_double_ended_exhaustion<'a, L: DoubleEndedLender>(
    states: Seq<L>,
    ends: Seq<End>,
    lends: Seq<Option<Lend<'a, L>>>,
)
    requires
        is_run(states, ends, lends),
        ends.len() == states[0].remaining().len(),
    ensures
        forall|i: int| 0 <= i < lends.len() ==> lends[i] is Some,
        front_part(ends, lends) + back_part(ends, lends) == states[0].remaining(),
        states.last().remaining().len() == 0,
        forall|post: L, end: End, lend: Option<Lend<'a, L>>| #[trigger]
            retrieval(states.last(), post, end, lend) ==> lend is None,
{
    lemma_run_partition(states, ends, lends);
    let rest = states.last().remaining();
    assert((front_part(ends, lends) + rest + back_part(ends, lends)).len() == ends.len());
    assert(front_part(ends, lends) + back_part(ends, lends) =~= front_part(ends, lends) + rest
        + back_part(ends, lends));
}

/// A run of retrievals on one adapter. `states[0]` is the adapter at the
/// start; the `i`-th retrieval draws from `ends[i]`, returns `items[i]` and
/// leaves the adapter as `states[i + 1]`.
pub open spec fn is_owned_run<T, L>(
    states: Seq<Owned<L>>,
    ends: Seq<End>,
    items: Seq<Option<T>>,
) -> bool where L: Lender, for <'all><L as Lending<'all>>::Lend: OwningConversion<Owned = T> {
    &&& states.len() == ends.len() + 1
    &&& items.len() == ends.len()
    &&& forall|i: int|
        #![trigger items[i]]
        0 <= i < ends.len() ==> owned_retrieval(states[i], states[i + 1], ends[i], items[i])
}

/// The lenders inside the states of a run of an adapter.
pub open spec fn lenders<L>(states: Seq<Owned<L>>) -> Seq<L> {
    Seq::new(states.len(), |i: int| states[i].lender())
}

/// What the lender inside an adapter lends in the course of a run of the
/// adapter: at each retrieval, the item at the end that is drawn from.
pub open spec fn lent<'a, L: Lender>(states: Seq<Owned<L>>, ends: Seq<End>) -> Seq<
    Option<Lend<'a, L>>,
> {
    Seq::new(ends.len(), |i: int| drawn(states[i].lender().remaining(), ends[i]))
}

/// A run of the adapter is a run of its lender, and what the adapter
/// returns is, retrieval for retrieval, the owned form of what the lender
/// lends.
pub proof fn law_owned_round_trip<T, L>(
    states: Seq<Owned<L>>,
    ends: Seq<End>,
    items: Seq<Option<T>>,
) where L: Lender, for <'all><L as Lending<'all>>::Lend: OwningConversion<Owned = T>
    requires
        is_owned_run(states, ends, items),
    ensures
        is_run(lenders(states), ends, lent(states, ends)),
        forall|i: int|
            0 <= i < items.len() ==> owned_from(lent(states, ends)[i], #[trigger] items[i]),
{
    let inner = lenders(states);
    let lends = lent(states, ends);
    assert forall|i: int| #![trigger lends[i]] 0 <= i < ends.len() implies retrieval(
        inner[i],
        inner[i + 1],
        ends[i],
        lends[i],
    ) by {
        assert(owned_retrieval(states[i], states[i + 1], ends[i], items[i]));
    }
    assert forall|i: int| 0 <= i < items.len() implies owned_from(
        lends[i],
        #[trigger] items[i],
    ) by {
        assert(owned_retrieval(states[i], states[i + 1], ends[i], items[i]));
    }
}

/// In a run that only draws from the front, the lender has lent its first
/// items in order: after `i` retrievals, with at least `i` items at the
/// start, what remains is what remained at the start without its first `i`
/// items.
pub proof fn lemma_forward_run<'a, L: Lender>(
    states: Seq<L>,
    ends: Seq<End>,
    lends: Seq<Option<Lend<'a, L>>>,
    i: int,
)
    requires
        is_run(states, ends, lends),
        forall|j: int| 0 <= j < ends.len() ==> ends[j] is Front,
        0 <= i <= ends.len(),
        i <= states[0].remaining().len(),
    ensures
        states[i].remaining() == states[0].remaining().skip(i),
        i < ends.len() && i < states[0].remaining().len() ==> lends[i] == Some(
            states[0].remaining()[i],
        ),
    decreases i,
{
    let all = states[0].remaining();
    if i == 0 {
        assert(all.skip(0) =~= all);
    } else {
        lemma_forward_run(states, ends, lends, i - 1);
        assert(retrieval(states[i - 1], states[i], ends[i - 1], lends[i - 1]));
        assert(all.skip(i - 1).drop_first() =~= all.skip(i));
    }
    if i < ends.len() && i < all.len() {
        assert(retrieval(states[i], states[i + 1], ends[i], lends[i]));
    }
}

/// Drawing an adapter from the front until its lender is exhausted returns
/// the owned forms of the items that the lender had to lend, item for item
/// and in their order; then nothing remains.
pub proof fn law_owned_forward<T, L>(
    states: Seq<Owned<L>>,
    ends: Seq<End>,
    items: Seq<Option<T>>,
) where L: Lender, for <'all><L as Lending<'all>>::Lend: OwningConversion<Owned = T>
    requires
        is_owned_run(states, ends, items),
        forall|j: int| 0 <= j < ends.len() ==> ends[j] is Front,
        ends.len() == states[0].lender().remaining().len(),
    ensures
        forall|i: int|
            0 <= i < items.len() ==> (#[trigger] items[i] matches Some(owned)
                && states[0].lender().remaining()[i].converts_to(owned)),
        states.last().lender().remaining().len() == 0,
{
    let inner = lenders(states);
    let lends = lent(states, ends);
    let all = states[0].lender().remaining();
    law_owned_round_trip(states, ends, items);
    assert forall|i: int| 0 <= i < items.len() implies (#[trigger] items[i] matches Some(owned)
        && all[i].converts_to(owned)) by {
        lemma_forward_run(inner, ends, lends, i);
        assert(owned_from(lends[i], items[i]));
    }
    lemma_forward_run(inner, ends, lends, ends.len() as int);
    assert(inner.last() == states.last().lender());
}

} // verus!
