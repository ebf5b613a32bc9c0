//! Sorting the places of tracks.

use crate::api::{Track, TrackView};
use crate::lists;
use crate::order;
use crate::order::SortKey;
use vstd::prelude::*;

verus! {

/// A list with `x` put behind everything that does not come after it.
pub open spec fn inserted(
    tracks: Seq<TrackView>,
    key: SortKey,
    s: Seq<usize>,
    x: usize,
) -> Seq<usize>
    decreases s.len(),
{
    if s.len() == 0 || !order::comes_after(tracks, key, s.last(), x) {
        s.push(x)
    } else {
        inserted(tracks, key, s.drop_last(), x).push(s.last())
    }
}

/// The places of a list in the order of their tracks; those of equal tracks in the order
/// in which they were.
pub open spec fn sorted(tracks: Seq<TrackView>, key: SortKey, s: Seq<usize>) -> Seq<usize>
    decreases s.len(),
{
    if s.len() == 0 {
        s
    } else {
        inserted(tracks, key, sorted(tracks, key, s.drop_last()), s.last())
    }
}

/// Whether no place of a list comes after a later one.
pub open spec fn in_order(tracks: Seq<TrackView>, key: SortKey, s: Seq<usize>) -> bool {
    forall|i: int, j: int|
        0 <= i < j < s.len() ==> !order::comes_after(tracks, key, #[trigger] s[i], #[trigger] s[j])
}

/// Whether two places hold tracks that the order does not tell apart.
pub open spec fn tied(tracks: Seq<TrackView>, key: SortKey, x: usize, y: usize) -> bool {
    !order::comes_after(tracks, key, x, y) && !order::comes_after(tracks, key, y, x)
}

/// The places of a list that are tied with `y`, in their order.
pub open spec fn ties(tracks: Seq<TrackView>, key: SortKey, s: Seq<usize>, y: usize) -> Seq<usize>
    decreases s.len(),
{
    if s.len() == 0 {
        s
    } else if tied(tracks, key, s.last(), y) {
        ties(tracks, key, s.drop_last(), y).push(s.last())
    } else {
        ties(tracks, key, s.drop_last(), y)
    }
}

proof fn lemma_inserted(tracks: Seq<TrackView>, key: SortKey, s: Seq<usize>, x: usize)
    requires
        in_order(tracks, key, s),
    ensures
        in_order(tracks, key, inserted(tracks, key, s, x)),
        inserted(tracks, key, s, x).len() == s.len() + 1,
        inserted(tracks, key, s, x).to_multiset() == s.to_multiset().insert(x),
        forall|i: int|
            0 <= i < inserted(tracks, key, s, x).len() ==> (#[trigger] inserted(
                tracks,
                key,
                s,
                x,
            )[i] == x || s.contains(inserted(tracks, key, s, x)[i])),
    decreases s.len(),
{
    broadcast use vstd::seq_lib::group_to_multiset_ensures;

    let r = inserted(tracks, key, s, x);
    if s.len() == 0 || !order::comes_after(tracks, key, s.last(), x) {
        assert forall|i: int, j: int| 0 <= i < j < r.len() implies !order::comes_after(
            tracks,
            key,
            #[trigger] r[i],
            #[trigger] r[j],
        ) by {
            if j == s.len() && i < s.len() - 1 {
                assert(!order::comes_after(tracks, key, s[i], s[s.len() - 1]));
                order::comes_after_is_total(tracks, key, s[i], s.last(), x);
            }
        }
    } else {
        let last = s.last();
        let rest = s.drop_last();
        lemma_inserted(tracks, key, rest, x);
        let q = inserted(tracks, key, rest, x);
        assert forall|i: int, j: int| 0 <= i < j < r.len() implies !order::comes_after(
            tracks,
            key,
            #[trigger] r[i],
            #[trigger] r[j],
        ) by {
            if j == q.len() {
                if q[i] == x {
                    order::comes_after_is_total(tracks, key, x, last, x);
                } else {
                    let k = choose|k: int| 0 <= k < rest.len() && rest[k] == q[i];
                    assert(s[k] == q[i]);
                    assert(!order::comes_after(tracks, key, s[k], s[s.len() - 1]));
                }
            }
        }
        assert(s =~= rest.push(last));
        assert(r.to_multiset() =~= s.to_multiset().insert(x));
        assert forall|i: int| 0 <= i < r.len() implies (#[trigger] r[i] == x || s.contains(
            r[i],
        )) by {
            if i < q.len() {
                if q[i] != x {
                    let k = choose|k: int| 0 <= k < rest.len() && rest[k] == q[i];
                    assert(s[k] == r[i]);
                }
            } else {
                assert(s[s.len() - 1] == r[i]);
            }
        }
    }
}

/// Sorting keeps what a list holds and puts it in order.
pub proof fn sorted_is_in_order(tracks: Seq<TrackView>, key: SortKey, s: Seq<usize>)
    ensures
        in_order(tracks, key, sorted(tracks, key, s)),
        sorted(tracks, key, s).len() == s.len(),
        sorted(tracks, key, s).to_multiset() == s.to_multiset(),
    decreases s.len(),
{
    broadcast use vstd::seq_lib::group_to_multiset_ensures;

    if s.len() > 0 {
        sorted_is_in_order(tracks, key, s.drop_last());
        lemma_inserted(tracks, key, sorted(tracks, key, s.drop_last()), s.last());
        assert(s =~= s.drop_last().push(s.last()));
    }
}

proof fn lemma_filter_last(s: Seq<usize>, keep: spec_fn(usize) -> bool)
    ensures
        s.filter(keep).len() > 0 ==> s.contains(s.filter(keep).last()),
    decreases s.len(),
{
    reveal(Seq::filter);
    if s.len() > 0 {
        lemma_filter_last(s.drop_last(), keep);
        let kept = s.filter(keep);
        if keep(s.last()) {
            assert(s[s.len() - 1] == kept.last());
        } else if kept.len() > 0 {
            let k = choose|k: int| 0 <= k < s.drop_last().len() && s.drop_last()[k] == kept.last();
            assert(s[k] == kept.last());
        }
    }
}

proof fn lemma_inserted_filter(
    tracks: Seq<TrackView>,
    key: SortKey,
    s: Seq<usize>,
    x: usize,
    keep: spec_fn(usize) -> bool,
)
    requires
        in_order(tracks, key, s),
    ensures
        inserted(tracks, key, s, x).filter(keep) == if keep(x) {
            inserted(tracks, key, s.filter(keep), x)
        } else {
            s.filter(keep)
        },
    decreases s.len(),
{
    reveal(Seq::filter);
    if s.len() == 0 || !order::comes_after(tracks, key, s.last(), x) {
        assert(s.push(x).drop_last() =~= s);
        let kept = s.filter(keep);
        lemma_filter_last(s, keep);
        if kept.len() > 0 {
            let k = choose|k: int| 0 <= k < s.len() && s[k] == kept.last();
            if k < s.len() - 1 {
                assert(!order::comes_after(tracks, key, s[k], s[s.len() - 1]));
            }
            order::comes_after_is_total(tracks, key, s[k], s.last(), x);
        }
    } else {
        let rest = s.drop_last();
        lemma_inserted_filter(tracks, key, rest, x, keep);
        let q = inserted(tracks, key, rest, x);
        assert(q.push(s.last()).drop_last() =~= q);
        if keep(s.last()) {
            assert(rest.filter(keep).push(s.last()).drop_last() =~= rest.filter(keep));
        }
    }
}

/// Leaving places out before sorting or after it comes to the same.
pub proof fn leaving_out_commutes_with_sorting(
    tracks: Seq<TrackView>,
    key: SortKey,
    s: Seq<usize>,
    keep: spec_fn(usize) -> bool,
)
    ensures
        sorted(tracks, key, s.filter(keep)) == sorted(tracks, key, s).filter(keep),
    decreases s.len(),
{
    reveal(Seq::filter);
    if s.len() > 0 {
        let rest = s.drop_last();
        leaving_out_commutes_with_sorting(tracks, key, rest, keep);
        sorted_is_in_order(tracks, key, rest);
        lemma_inserted_filter(tracks, key, sorted(tracks, key, rest), s.last(), keep);
        if keep(s.last()) {
            assert(rest.filter(keep).push(s.last()).drop_last() =~= rest.filter(keep));
        }
    }
}

proof fn lemma_ties_push(tracks: Seq<TrackView>, key: SortKey, s: Seq<usize>, x: usize, y: usize)
    ensures
        ties(tracks, key, s.push(x), y) == (if tied(tracks, key, x, y) {
            ties(tracks, key, s, y).push(x)
        } else {
            ties(tracks, key, s, y)
        }),
{
    assert(s.push(x).drop_last() =~= s);
}

proof fn lemma_inserted_ties(
    tracks: Seq<TrackView>,
    key: SortKey,
    s: Seq<usize>,
    x: usize,
    y: usize,
)
    ensures
        ties(tracks, key, inserted(tracks, key, s, x), y) == ties(tracks, key, s.push(x), y),
    decreases s.len(),
{
    if s.len() == 0 || !order::comes_after(tracks, key, s.last(), x) {
    } else {
        let last = s.last();
        let rest = s.drop_last();
        lemma_inserted_ties(tracks, key, rest, x, y);
        lemma_ties_push(tracks, key, inserted(tracks, key, rest, x), last, y);
        lemma_ties_push(tracks, key, rest, x, y);
        lemma_ties_push(tracks, key, s, x, y);
        // `last` comes after `x`, so not both can be tied with `y`.
        order::comes_after_is_total(tracks, key, last, y, x);
    }
}

/// Sorting is stable: tracks that the order does not tell apart stay as they were among
/// themselves.
pub proof fn sorted_is_stable(tracks: Seq<TrackView>, key: SortKey, s: Seq<usize>, y: usize)
    ensures
        ties(tracks, key, sorted(tracks, key, s), y) == ties(tracks, key, s, y),
    decreases s.len(),
{
    if s.len() > 0 {
        sorted_is_stable(tracks, key, s.drop_last(), y);
        let q = sorted(tracks, key, s.drop_last());
        lemma_inserted_ties(tracks, key, q, s.last(), y);
        lemma_ties_push(tracks, key, q, s.last(), y);
        lemma_ties_push(tracks, key, s.drop_last(), s.last(), y);
        assert(s =~= s.drop_last().push(s.last()));
    }
}

/// Where everything before `p` may stand before `x` and everything from `p` on comes after
/// it, `p` is the place of `x`.
proof fn lemma_inserted_at(
    tracks: Seq<TrackView>,
    key: SortKey,
    s: Seq<usize>,
    x: usize,
    p: int,
)
    requires
        0 <= p <= s.len(),
        forall|i: int| 0 <= i < p ==> !order::comes_after(tracks, key, #[trigger] s[i], x),
        forall|i: int| p <= i < s.len() ==> order::comes_after(tracks, key, #[trigger] s[i], x),
    ensures
        inserted(tracks, key, s, x) == s.insert(p, x),
    decreases s.len(),
{
    if p == s.len() {
        assert(s.insert(p, x) =~= s.push(x));
    } else {
        lemma_inserted_at(tracks, key, s.drop_last(), x, p);
        assert(s.drop_last().insert(p, x).push(s.last()) =~= s.insert(p, x));
    }
}

/// The first place of a list in order that comes after `x`.
fn place_for(tracks: &Vec<Track>, key: SortKey, s: &Vec<usize>, x: usize) -> (p: usize)
    requires
        x < tracks@.len(),
        forall|i: int| 0 <= i < s@.len() ==> #[trigger] s@[i] < tracks@.len(),
        in_order(lists::views(tracks@), key, s@),
    ensures
        p <= s@.len(),
        inserted(lists::views(tracks@), key, s@, x) == s@.insert(p as int, x),
{
    let ghost all = lists::views(tracks@);
    let mut low: usize = 0;
    let mut high: usize = s.len();
    while low < high
        invariant
            all == lists::views(tracks@),
            x < tracks@.len(),
            forall|i: int| 0 <= i < s@.len() ==> #[trigger] s@[i] < tracks@.len(),
            in_order(all, key, s@),
            low <= high <= s@.len(),
            forall|i: int| 0 <= i < low ==> !order::comes_after(all, key, #[trigger] s@[i], x),
            forall|i: int| high <= i < s@.len() ==> order::comes_after(all, key, #[trigger] s@[i], x),
        decreases high - low,
    {
        let mid: usize = low + (high - low) / 2;
        if order::is_after(tracks, key, s[mid], x) {
            assert forall|i: int| mid <= i < s@.len() implies order::comes_after(
                all,
                key,
                #[trigger] s@[i],
                x,
            ) by {
                if i > mid {
                    assert(!order::comes_after(all, key, s@[mid as int], s@[i]));
                    order::comes_after_is_total(all, key, s@[mid as int], s@[i], x);
                }
            }
            high = mid;
        } else {
            assert forall|i: int| 0 <= i <= mid implies !order::comes_after(
                all,
                key,
                #[trigger] s@[i],
                x,
            ) by {
                if i < mid {
                    assert(!order::comes_after(all, key, s@[i], s@[mid as int]));
                    order::comes_after_is_total(all, key, s@[i], s@[mid as int], x);
                }
            }
            low = mid + 1;
        }
    }
    proof {
        lemma_inserted_at(all, key, s@, x, low as int);
    }
    low
}

/// Puts places in the order of their tracks.
pub fn sort_places(tracks: &Vec<Track>, key: SortKey, s: &Vec<usize>) -> (r: Vec<usize>)
    requires
        forall|i: int| 0 <= i < s@.len() ==> #[trigger] s@[i] < tracks@.len(),
    ensures
        r@ == sorted(lists::views(tracks@), key, s@),
        forall|i: int| 0 <= i < r@.len() ==> #[trigger] r@[i] < tracks@.len(),
{
    let ghost all = lists::views(tracks@);
    let mut r: Vec<usize> = Vec::new();
    assert(s@.take(0) =~= r@);
    for i in 0..s.len()
        invariant
            all == lists::views(tracks@),
            forall|j: int| 0 <= j < s@.len() ==> #[trigger] s@[j] < tracks@.len(),
            r@ == sorted(all, key, s@.take(i as int)),
            r@.len() == i,
            forall|j: int| 0 <= j < r@.len() ==> #[trigger] r@[j] < tracks@.len(),
    {
        proof {
            sorted_is_in_order(all, key, s@.take(i as int));
        }
        let x = s[i];
        let p = place_for(tracks, key, &r, x);
        let ghost before = r@;
        r.insert(p, x);
        assert(s@.take(i + 1).drop_last() =~= s@.take(i as int));
        assert forall|j: int| 0 <= j < r@.len() implies #[trigger] r@[j] < tracks@.len() by {
            if j < p {
                assert(r@[j] == before[j]);
            } else if j > p {
                assert(r@[j] == before[j - 1]);
            }
        }
    }
    assert(s@.take(s@.len() as int) =~= s@);
    r
}

} // verus!
