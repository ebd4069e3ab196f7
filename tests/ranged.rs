use sp1_prover_utils::ranged::{collect_all, Cursor, MaybeTakeIterator, RangedIterator, VecIter};

fn items(n: u32) -> Vec<u32> {
    (0..n).collect()
}

fn window(n: u32, skip: Option<usize>, take: Option<usize>) -> Vec<u32> {
    collect_all(VecIter::new(items(n)).maybe_skip_take(skip, take))
}

#[test]
fn no_bounds_pass_everything_through() {
    assert_eq!(collect_all(VecIter::new(items(5)).maybe_skip(None)), items(5));
    assert_eq!(collect_all(VecIter::new(items(5)).maybe_take(None)), items(5));
    assert_eq!(window(5, None, None), items(5));
}

#[test]
fn skip_only() {
    assert_eq!(collect_all(VecIter::new(items(5)).maybe_skip(Some(2))), vec![2, 3, 4]);
    assert_eq!(collect_all(VecIter::new(items(5)).maybe_skip(Some(0))), items(5));
    assert_eq!(collect_all(VecIter::new(items(5)).maybe_skip(Some(5))), Vec::<u32>::new());
    assert_eq!(collect_all(VecIter::new(items(5)).maybe_skip(Some(9))), Vec::<u32>::new());
}

#[test]
fn take_only() {
    assert_eq!(collect_all(VecIter::new(items(5)).maybe_take(Some(2))), vec![0, 1]);
    assert_eq!(collect_all(VecIter::new(items(5)).maybe_take(Some(0))), Vec::<u32>::new());
    assert_eq!(collect_all(VecIter::new(items(5)).maybe_take(Some(7))), items(5));
}

#[test]
fn skip_then_take() {
    assert_eq!(window(10, Some(3), Some(4)), vec![3, 4, 5, 6]);
    assert_eq!(window(10, Some(8), Some(4)), vec![8, 9]);
    assert_eq!(window(10, Some(12), Some(4)), Vec::<u32>::new());
    assert_eq!(window(10, Some(3), Some(0)), Vec::<u32>::new());
    assert_eq!(window(0, Some(1), Some(1)), Vec::<u32>::new());
}

#[test]
fn window_length_matches_formula_for_all_small_bounds() {
    for n in 0..6u32 {
        for skip in [None, Some(0), Some(1), Some(3), Some(6), Some(9)] {
            for take in [None, Some(0), Some(1), Some(2), Some(7)] {
                let got = window(n, skip, take);
                let k = skip.unwrap_or(0);
                let rest = (n as usize).saturating_sub(k);
                let len = take.map_or(rest, |t| t.min(rest));
                assert_eq!(got.len(), len);
                let expected: Vec<u32> = (k..k + len).map(|x| x as u32).collect();
                assert_eq!(got, expected);
            }
        }
    }
}

#[test]
fn next_hands_out_items_then_none() {
    let mut it = VecIter::new(vec![7u32, 8]).maybe_take(Some(1));
    assert_eq!(it.next(), Some(7));
    assert_eq!(it.next(), None);
    assert_eq!(it.next(), None);
    let mut raw = VecIter::new(vec![1u32, 2, 3]);
    raw.advance_by(2);
    assert_eq!(raw.next(), Some(3));
    assert_eq!(raw.next(), None);
}

#[test]
fn no_bound_gives_the_unbounded_variant() {
    assert!(matches!(VecIter::new(items(3)).maybe_skip(None), RangedIterator::Unbounded(_)));
    assert!(matches!(VecIter::new(items(3)).maybe_take(None), RangedIterator::Unbounded(_)));
    assert!(matches!(VecIter::new(items(3)).maybe_skip(Some(1)), RangedIterator::Skip(_, 1)));
    assert!(matches!(VecIter::new(items(3)).maybe_take(Some(2)), RangedIterator::Take(_, 2)));
    assert!(matches!(VecIter::new(items(3)).maybe_skip_take(Some(1), Some(2)), RangedIterator::Range(_, 1, 2)));
}

#[test]
fn next_keeps_the_variant_and_an_exhausted_take_stays_put() {
    let mut r = VecIter::new(items(5)).maybe_skip_take(Some(1), Some(1));
    assert_eq!(r.next(), Some(1));
    assert!(matches!(r, RangedIterator::Range(_, 0, 0)));
    assert_eq!(r.next(), None);
    match r {
        RangedIterator::Range(mut it, _, _) => assert_eq!(it.next(), Some(2)),
        _ => panic!("variant changed"),
    }
    let mut t = VecIter::new(items(3)).maybe_skip_take(Some(2), Some(0));
    assert_eq!(t.next(), None);
    match t {
        RangedIterator::Range(mut it, 2, 0) => assert_eq!(it.next(), Some(0)),
        _ => panic!("variant changed"),
    }
}

#[test]
fn skip_then_take_chain() {
    let r = VecIter::new(vec![1, 2, 3, 4, 5]).maybe_skip(Some(1)).maybe_take(Some(2));
    assert_eq!(collect_all(r), vec![2, 3]);
    let r = VecIter::new(vec![1, 2, 3]).maybe_skip(Some(1)).maybe_take(Some(10));
    assert_eq!(collect_all(r), vec![2, 3]);
    let r = VecIter::new(vec![1, 2, 3]).maybe_skip(Some(4)).maybe_take(Some(2));
    assert_eq!(collect_all(r), Vec::<i32>::new());
    for n in 0..6u32 {
        for skip in [None, Some(0), Some(2), Some(7)] {
            for take in [None, Some(0), Some(1), Some(9)] {
                let chained = collect_all(VecIter::new(items(n)).maybe_skip(skip).maybe_take(take));
                assert_eq!(chained, window(n, skip, take));
            }
        }
    }
}

#[test]
fn take_counts_down_and_then_stays_put() {
    let mut r = VecIter::new(items(4)).maybe_take(Some(2));
    assert_eq!(r.next(), Some(0));
    assert!(matches!(r, RangedIterator::Take(_, 1)));
    assert_eq!(r.next(), Some(1));
    assert!(matches!(r, RangedIterator::Take(_, 0)));
    assert_eq!(r.next(), None);
    assert_eq!(r.next(), None);
    match r {
        RangedIterator::Take(mut it, 0) => assert_eq!(it.next(), Some(2)),
        _ => panic!("variant changed"),
    }
}

#[test]
fn ranged_advance_by_drops_from_the_window() {
    let mut r = VecIter::new(items(10)).maybe_skip_take(Some(2), Some(5));
    r.advance_by(3);
    assert_eq!(r.next(), Some(5));
    assert_eq!(r.next(), Some(6));
    assert_eq!(r.next(), None);
    let mut s = VecIter::new(items(3)).maybe_skip(Some(1));
    s.advance_by(100);
    assert_eq!(s.next(), None);
}
