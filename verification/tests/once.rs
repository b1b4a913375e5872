use lender::{
    once, CovariantLending, DoubleEndedLender, ExactSizeLender, Lender, Lending, Once,
};

/// Lends `u32` values.
#[derive(Debug)]
struct U32Lend;

impl<'lend> Lending<'lend> for U32Lend {
    type Lend = u32;
}

impl CovariantLending for U32Lend {
    fn shorten<'long: 'short, 'short>(lend: Option<u32>) -> Option<u32> {
        lend
    }
}

/// Lends mutable references to a `u32`.
struct U32RefMut;

impl<'lend> Lending<'lend> for U32RefMut {
    type Lend = &'lend mut u32;
}

impl CovariantLending for U32RefMut {
    fn shorten<'long: 'short, 'short>(
        lend: Option<&'long mut u32>,
    ) -> Option<&'short mut u32> {
        lend
    }
}

/// Lends string slices.
struct StrLend;

impl<'lend> Lending<'lend> for StrLend {
    type Lend = &'lend str;
}

impl CovariantLending for StrLend {
    fn shorten<'long: 'short, 'short>(lend: Option<&'long str>) -> Option<&'short str> {
        lend
    }
}

#[test]
fn once_forward_then_end_marker() {
    let mut o = once::<U32Lend>(42);
    assert_eq!(o.size_hint(), (1, Some(1)));
    assert_eq!(o.next(), Some(42));
    assert_eq!(o.size_hint(), (0, Some(0)));
    assert_eq!(o.next(), None);
}

#[test]
fn once_backward_then_forward_is_exhausted() {
    let mut o = once::<U32Lend>(7);
    assert_eq!(o.next_back(), Some(7));
    assert_eq!(o.next(), None);
}

#[test]
fn once_forward_then_backward_is_exhausted() {
    let mut o = once::<U32Lend>(7);
    assert_eq!(o.next(), Some(7));
    assert_eq!(o.next_back(), None);
}

#[test]
fn once_lends_a_mutable_reference() {
    let mut value = 42u32;
    let mut o = once::<U32RefMut>(&mut value);
    assert_eq!(o.next(), Some(&mut 42));
    assert_eq!(o.next(), None);
}

#[test]
fn once_writes_through_the_lent_reference() {
    let mut value = 5u32;
    {
        let mut o = once::<U32RefMut>(&mut value);
        match o.next() {
            Some(lend) => *lend += 1,
            None => panic!("the first retrieval lends the item"),
        }
        assert!(o.next().is_none());
    }
    assert_eq!(value, 6);
}

#[test]
fn once_lends_a_borrowed_str() {
    let text = String::from("lend");
    let mut o = once::<StrLend>(text.as_str());
    assert_eq!(o.next_back(), Some("lend"));
    assert_eq!(o.next_back(), None);
}

#[test]
fn once_len_matches_size_hint_before_and_after() {
    let mut o = once::<U32Lend>(3);
    assert_eq!(o.len(), 1);
    assert_eq!(o.size_hint(), (o.len(), Some(o.len())));
    assert_eq!(o.next(), Some(3));
    assert_eq!(o.len(), 0);
    assert_eq!(o.size_hint(), (o.len(), Some(o.len())));
    assert_eq!(o.next(), None);
    assert_eq!(o.len(), 0);
    assert_eq!(o.size_hint(), (o.len(), Some(o.len())));
}

#[test]
fn once_lower_bound_is_zero_after_end_marker() {
    let mut o = once::<U32Lend>(1);
    assert_eq!(o.next(), Some(1));
    assert_eq!(o.next(), None);
    assert_eq!(o.size_hint().0, 0);
    assert_eq!(o.next_back(), None);
    assert_eq!(o.size_hint().0, 0);
}

#[test]
fn once_stays_exhausted_from_both_ends() {
    let mut o = once::<U32Lend>(9);
    assert_eq!(o.next(), Some(9));
    for _ in 0..10 {
        assert_eq!(o.next(), None);
        assert_eq!(o.next_back(), None);
        assert_eq!(o.size_hint(), (0, Some(0)));
    }
}

#[test]
fn once_lends_its_item_exactly_once_from_either_end() {
    for back_first in [false, true] {
        let mut o = once::<U32Lend>(11);
        let n = o.len();
        let mut seen = Vec::new();
        for _ in 0..n {
            let lend = if back_first { o.next_back() } else { o.next() };
            seen.push(lend.unwrap());
        }
        assert_eq!(seen, vec![11]);
        assert_eq!(o.next(), None);
        assert_eq!(o.next_back(), None);
    }
}

#[test]
fn once_clone_copies_the_slot() {
    let mut o = once::<U32Lend>(5);
    let mut copy = o.clone();
    assert_eq!(o.next(), Some(5));
    assert_eq!(copy.next(), Some(5));
    let mut empty = o.clone();
    assert_eq!(empty.next(), None);
    assert_eq!(empty.size_hint(), (0, Some(0)));
}

#[test]
fn once_debug_shows_the_slot() {
    let mut o = once::<U32Lend>(42);
    assert_eq!(format!("{:?}", o), "Once { inner: Some(42) }");
    assert_eq!(o.next(), Some(42));
    assert_eq!(format!("{:?}", o), "Once { inner: None }");
}

#[test]
fn once_debug_forwards_to_the_item() {
    let text = String::from("a\"b");
    let o = once::<StrLend>(text.as_str());
    assert_eq!(format!("{:?}", o), "Once { inner: Some(\"a\\\"b\") }");
}

#[test]
fn once_is_a_covariant_mapping_itself() {
    let mut value = 8u32;
    let mut o: Once<'_, Once<'static, U32RefMut>> = once::<Once<'static, U32RefMut>>(&mut value);
    assert_eq!(o.len(), 1);
    assert_eq!(o.next(), Some(&mut 8));
    assert_eq!(o.next(), None);
}
