//! Stable ordering by rank: highest rank first, equals in the order in which
//! they came.

use vstd::prelude::*;

verus! {

/// A value with a rank by which it is ordered.
pub trait Ranked: Sized {
    /// The rank of the value.
    spec fn rank(&self) -> int;

    /// Whether the rank of `self` is higher than that of `other`.
    fn outranks(&self, other: &Self) -> (b: bool)
        ensures
            b == (self.rank() > other.rank()),
    ;
}

/// `sorted` with `x` put in: behind every item of higher rank that leads
/// `sorted`, before the first item that does not outrank it.
pub open spec fn placed<T>(x: T, sorted: Seq<T>, rank: spec_fn(T) -> int) -> Seq<T>
    decreases sorted.len(),
{
    if sorted.len() == 0 || !(rank(sorted[0]) > rank(x)) {
        seq![x] + sorted
    } else {
        seq![sorted[0]] + placed(x, sorted.drop_first(), rank)
    }
}

/// The items of `s` by falling rank, items of equal rank in the order they
/// have in `s`.
pub open spec fn ranked<T>(s: Seq<T>, rank: spec_fn(T) -> int) -> Seq<T>
    decreases s.len(),
{
    if s.len() == 0 {
        Seq::empty()
    } else {
        placed(s[0], ranked(s.drop_first(), rank), rank)
    }
}

/// Whether the ranks of `s` never rise.
pub open spec fn falling<T>(s: Seq<T>, rank: spec_fn(T) -> int) -> bool {
    forall|i: int, j: int| 0 <= i < j < s.len() ==> rank(s[i]) >= rank(s[j])
}

/// The rank of a ranked value, as a function.
pub open spec fn rank_of<T: Ranked>() -> spec_fn(T) -> int {
    |x: T| x.rank()
}

/// Putting `x` in at `pos` is `placed` when everything before `pos`
/// outranks `x` and the item at `pos`, if any, does not.
pub proof fn lemma_placed_at<T>(x: T, sorted: Seq<T>, rank: spec_fn(T) -> int, pos: int)
    requires
        0 <= pos <= sorted.len(),
        forall|k: int| 0 <= k < pos ==> rank(sorted[k]) > rank(x),
        pos < sorted.len() ==> !(rank(sorted[pos]) > rank(x)),
    ensures
        placed(x, sorted, rank) == sorted.insert(pos, x),
    decreases pos,
{
    if pos == 0 {
        assert(seq![x] + sorted =~= sorted.insert(0, x));
    } else {
        lemma_placed_at(x, sorted.drop_first(), rank, pos - 1);
        assert(seq![sorted[0]] + sorted.drop_first().insert(pos - 1, x) =~= sorted.insert(pos, x));
    }
}

/// `placed` keeps every item and adds `x`.
pub proof fn lemma_placed_multiset<T>(x: T, sorted: Seq<T>, rank: spec_fn(T) -> int)
    ensures
        placed(x, sorted, rank).to_multiset() == sorted.to_multiset().insert(x),
        placed(x, sorted, rank).len() == sorted.len() + 1,
    decreases sorted.len(),
{
    broadcast use vstd::seq_lib::group_to_multiset_ensures;

    if sorted.len() == 0 || !(rank(sorted[0]) > rank(x)) {
        assert(seq![x] + sorted =~= sorted.insert(0, x));
        vstd::seq_lib::to_multiset_insert(sorted, 0, x);
    } else {
        let rest = sorted.drop_first();
        lemma_placed_multiset(x, rest, rank);
        let tail = placed(x, rest, rank);
        assert(seq![sorted[0]] + tail =~= tail.insert(0, sorted[0]));
        vstd::seq_lib::to_multiset_insert(tail, 0, sorted[0]);
        assert(sorted =~= rest.insert(0, sorted[0]));
        vstd::seq_lib::to_multiset_insert(rest, 0, sorted[0]);
        assert(placed(x, sorted, rank).to_multiset() =~= sorted.to_multiset().insert(x));
    }
}

/// `placed` into falling ranks gives falling ranks.
pub proof fn lemma_placed_falling<T>(x: T, sorted: Seq<T>, rank: spec_fn(T) -> int)
    requires
        falling(sorted, rank),
    ensures
        falling(placed(x, sorted, rank), rank),
        forall|i: int|
            0 <= i < placed(x, sorted, rank).len() ==> #[trigger] placed(x, sorted, rank)[i] == x || exists|
                k: int,
            |
                0 <= k < sorted.len() && sorted[k] == placed(x, sorted, rank)[i],
    decreases sorted.len(),
{
    let r = placed(x, sorted, rank);
    if sorted.len() == 0 || !(rank(sorted[0]) > rank(x)) {
        assert forall|i: int| 0 <= i < r.len() implies #[trigger] r[i] == x || exists|k: int|
            0 <= k < sorted.len() && sorted[k] == r[i] by {
            if i > 0 {
                assert(sorted[i - 1] == r[i]);
            }
        }
        assert forall|i: int, j: int| 0 <= i < j < r.len() implies rank(r[i]) >= rank(r[j]) by {
            if i == 0 {
                assert(r[j] == sorted[j - 1]);
                if j - 1 > 0 {
                    assert(rank(sorted[0]) >= rank(sorted[j - 1]));
                }
            } else {
                assert(r[i] == sorted[i - 1] && r[j] == sorted[j - 1]);
            }
        }
    } else {
        let rest = sorted.drop_first();
        assert(falling(rest, rank)) by {
            assert forall|i: int, j: int| 0 <= i < j < rest.len() implies rank(rest[i])
                >= rank(rest[j]) by {
                assert(rest[i] == sorted[i + 1] && rest[j] == sorted[j + 1]);
            }
        }
        lemma_placed_falling(x, rest, rank);
        let tail = placed(x, rest, rank);
        assert forall|i: int| 0 <= i < r.len() implies #[trigger] r[i] == x || exists|k: int|
            0 <= k < sorted.len() && sorted[k] == r[i] by {
            if i == 0 {
                assert(sorted[0] == r[0]);
            } else {
                assert(r[i] == tail[i - 1]);
                if tail[i - 1] != x {
                    let k = choose|k: int| 0 <= k < rest.len() && rest[k] == tail[i - 1];
                    assert(sorted[k + 1] == r[i]);
                }
            }
        }
        assert forall|i: int, j: int| 0 <= i < j < r.len() implies rank(r[i]) >= rank(r[j]) by {
            if i == 0 {
                assert(r[j] == tail[j - 1]);
                if tail[j - 1] != x {
                    let k = choose|k: int| 0 <= k < rest.len() && rest[k] == tail[j - 1];
                    assert(sorted[k + 1] == rest[k]);
                    assert(rank(sorted[0]) >= rank(sorted[k + 1]));
                }
            } else {
                assert(r[i] == tail[i - 1] && r[j] == tail[j - 1]);
            }
        }
    }
}

/// Ordering keeps every item, as often as it occurs, and leaves the ranks
/// falling.
pub proof fn lemma_ranked<T>(s: Seq<T>, rank: spec_fn(T) -> int)
    ensures
        falling(ranked(s, rank), rank),
        ranked(s, rank).to_multiset() == s.to_multiset(),
        ranked(s, rank).len() == s.len(),
    decreases s.len(),
{
    broadcast use vstd::seq_lib::group_to_multiset_ensures;

    if s.len() == 0 {
        assert(ranked(s, rank) =~= s);
    } else {
        let rest = s.drop_first();
        lemma_ranked(rest, rank);
        lemma_placed_falling(s[0], ranked(rest, rank), rank);
        lemma_placed_multiset(s[0], ranked(rest, rank), rank);
        assert(s =~= rest.insert(0, s[0]));
        vstd::seq_lib::to_multiset_insert(rest, 0, s[0]);
    }
}

/// Orders the items by falling rank, items of equal rank in the order in
/// which they came.
pub fn sort_ranked<T: Ranked>(items: Vec<T>) -> (r: Vec<T>)
    ensures
        r@ == ranked(items@, rank_of::<T>()),
        falling(r@, rank_of::<T>()),
        r@.to_multiset() == items@.to_multiset(),
        r@.len() == items@.len(),
{
    let ghost all = items@;
    let ghost rank = rank_of::<T>();
    let mut rest = items;
    let mut out: Vec<T> = Vec::new();
    proof {
        assert(all.subrange(all.len() as int, all.len() as int) =~= Seq::<T>::empty());
    }
    while rest.len() > 0
        invariant
            rank == rank_of::<T>(),
            rest@ == all.take(rest@.len() as int),
            rest@.len() <= all.len(),
            out@ == ranked(all.subrange(rest@.len() as int, all.len() as int), rank),
        decreases rest.len(),
    {
        let ghost k = rest@.len() as int;
        let x = rest.pop().unwrap();
        let ghost sorted = out@;
        let mut pos: usize = 0;
        while pos < out.len() && out[pos].outranks(&x)
            invariant
                rank == rank_of::<T>(),
                pos <= out.len(),
                out@ == sorted,
                forall|j: int| 0 <= j < pos ==> rank(sorted[j]) > rank(x),
            decreases out.len() - pos,
        {
            pos += 1;
        }
        out.insert(pos, x);
        proof {
            lemma_placed_at(x, sorted, rank, pos as int);
            let tail = all.subrange(k - 1, all.len() as int);
            assert(tail[0] == x);
            assert(tail.drop_first() =~= all.subrange(k, all.len() as int));
            assert(rest@ =~= all.take(k - 1));
        }
    }
    proof {
        assert(all.subrange(0, all.len() as int) =~= all);
        lemma_ranked(all, rank);
    }
    out
}

/// Ordering and mapping may change places: where `f` keeps ranks, the
/// images of the ordered items are the ordered images of the items.
pub proof fn lemma_ranked_mapped<A, B>(
    s: Seq<A>,
    f: spec_fn(A) -> B,
    rank_a: spec_fn(A) -> int,
    rank_b: spec_fn(B) -> int,
)
    requires
        forall|a: A| #[trigger] rank_b(f(a)) == rank_a(a),
    ensures
        ranked(s.map_values(f), rank_b) == ranked(s, rank_a).map_values(f),
    decreases s.len(),
{
    if s.len() == 0 {
        assert(ranked(s.map_values(f), rank_b) =~= ranked(s, rank_a).map_values(f));
    } else {
        let rest = s.drop_first();
        lemma_ranked_mapped(rest, f, rank_a, rank_b);
        assert(s.map_values(f).drop_first() =~= rest.map_values(f));
        lemma_placed_mapped(s[0], ranked(rest, rank_a), f, rank_a, rank_b);
    }
}

/// Placing and mapping may change places, where `f` keeps ranks.
pub proof fn lemma_placed_mapped<A, B>(
    x: A,
    sorted: Seq<A>,
    f: spec_fn(A) -> B,
    rank_a: spec_fn(A) -> int,
    rank_b: spec_fn(B) -> int,
)
    requires
        forall|a: A| #[trigger] rank_b(f(a)) == rank_a(a),
    ensures
        placed(f(x), sorted.map_values(f), rank_b) == placed(x, sorted, rank_a).map_values(f),
    decreases sorted.len(),
{
    if sorted.len() == 0 || !(rank_a(sorted[0]) > rank_a(x)) {
        assert(seq![f(x)] + sorted.map_values(f) =~= (seq![x] + sorted).map_values(f));
        if sorted.len() > 0 {
            assert(rank_b(f(sorted[0])) == rank_a(sorted[0]));
        }
    } else {
        let rest = sorted.drop_first();
        lemma_placed_mapped(x, rest, f, rank_a, rank_b);
        assert(sorted.map_values(f).drop_first() =~= rest.map_values(f));
        assert(rank_b(f(sorted[0])) == rank_a(sorted[0]));
        assert(seq![f(sorted[0])] + placed(x, rest, rank_a).map_values(f) =~= (seq![sorted[0]]
            + placed(x, rest, rank_a)).map_values(f));
    }
}

/// The first item of falling ranks has the highest rank of all.
proof fn lemma_first_is_highest<T>(s: Seq<T>, x: T, rank: spec_fn(T) -> int)
    requires
        falling(s, rank),
        s.contains(x),
    ensures
        rank(s[0]) >= rank(x),
{
    let k = choose|k: int| 0 <= k < s.len() && s[k] == x;
    if k > 0 {
        assert(rank(s[0]) >= rank(s[k]));
    }
}

/// Two sequences of falling ranks that hold the same items, as often, are
/// equal, provided that items of equal rank are equal.
pub proof fn lemma_falling_unique<T>(a: Seq<T>, b: Seq<T>, rank: spec_fn(T) -> int)
    requires
        falling(a, rank),
        falling(b, rank),
        a.to_multiset() == b.to_multiset(),
        forall|i: int, j: int|
            0 <= i < a.len() && 0 <= j < a.len() && rank(a[i]) == rank(a[j]) ==> a[i] == a[j],
    ensures
        a == b,
    decreases a.len(),
{
    broadcast use vstd::seq_lib::group_to_multiset_ensures;

    a.to_multiset_ensures();
    b.to_multiset_ensures();
    assert(a.len() == b.len());
    if a.len() == 0 {
        assert(a =~= b);
    } else {
        assert(a.contains(a[0]));
        assert(b.contains(b[0]));
        assert(b.to_multiset().count(a[0]) > 0);
        assert(b.contains(a[0]));
        assert(a.to_multiset().count(b[0]) > 0);
        assert(a.contains(b[0]));
        lemma_first_is_highest(a, b[0], rank);
        lemma_first_is_highest(b, a[0], rank);
        let k = choose|k: int| 0 <= k < a.len() && a[k] == b[0];
        assert(a[0] == b[0]);
        let ra = a.drop_first();
        let rb = b.drop_first();
        assert(a =~= ra.insert(0, a[0]));
        assert(b =~= rb.insert(0, b[0]));
        vstd::seq_lib::to_multiset_insert(ra, 0, a[0]);
        vstd::seq_lib::to_multiset_insert(rb, 0, b[0]);
        assert(ra.to_multiset() =~= a.to_multiset().remove(a[0]));
        assert(rb.to_multiset() =~= b.to_multiset().remove(b[0]));
        assert(falling(ra, rank)) by {
            assert forall|i: int, j: int| 0 <= i < j < ra.len() implies rank(ra[i])
                >= rank(ra[j]) by {
                assert(ra[i] == a[i + 1] && ra[j] == a[j + 1]);
            }
        }
        assert(falling(rb, rank)) by {
            assert forall|i: int, j: int| 0 <= i < j < rb.len() implies rank(rb[i])
                >= rank(rb[j]) by {
                assert(rb[i] == b[i + 1] && rb[j] == b[j + 1]);
            }
        }
        assert forall|i: int, j: int|
            0 <= i < ra.len() && 0 <= j < ra.len() && rank(ra[i]) == rank(ra[j]) implies ra[i]
            == ra[j] by {
            assert(ra[i] == a[i + 1] && ra[j] == a[j + 1]);
        }
        lemma_falling_unique(ra, rb, rank);
        assert(a =~= b);
    }
}

/// The order in which the items come does not matter where ranks tell
/// them apart: two sequences that hold the same items, as often, are
/// ordered alike, provided that items of equal rank are equal.
pub proof fn lemma_ranked_order_free<T>(a: Seq<T>, b: Seq<T>, rank: spec_fn(T) -> int)
    requires
        a.to_multiset() == b.to_multiset(),
        forall|i: int, j: int|
            0 <= i < a.len() && 0 <= j < a.len() && rank(a[i]) == rank(a[j]) ==> a[i] == a[j],
    ensures
        ranked(a, rank) == ranked(b, rank),
{
    broadcast use vstd::seq_lib::group_to_multiset_ensures;

    lemma_ranked(a, rank);
    lemma_ranked(b, rank);
    let ra = ranked(a, rank);
    ra.to_multiset_ensures();
    a.to_multiset_ensures();
    assert forall|i: int, j: int|
        0 <= i < ra.len() && 0 <= j < ra.len() && rank(ra[i]) == rank(ra[j]) implies ra[i]
        == ra[j] by {
        assert(ra.contains(ra[i]));
        assert(ra.contains(ra[j]));
        assert(a.to_multiset().count(ra[i]) > 0);
        assert(a.to_multiset().count(ra[j]) > 0);
        assert(a.contains(ra[i]));
        assert(a.contains(ra[j]));
        let p = choose|p: int| 0 <= p < a.len() && a[p] == ra[i];
        let q = choose|q: int| 0 <= q < a.len() && a[q] == ra[j];
        assert(a[p] == a[q]);
    }
    lemma_falling_unique(ra, ranked(b, rank), rank);
}

/// Ordering what is ordered changes nothing.
pub proof fn lemma_ranked_idempotent<T>(s: Seq<T>, rank: spec_fn(T) -> int)
    ensures
        ranked(ranked(s, rank), rank) == ranked(s, rank),
{
    lemma_ranked(s, rank);
    lemma_falling_fixed(ranked(s, rank), rank);
}

/// Falling ranks are left as they are.
pub proof fn lemma_falling_fixed<T>(s: Seq<T>, rank: spec_fn(T) -> int)
    requires
        falling(s, rank),
    ensures
        ranked(s, rank) == s,
    decreases s.len(),
{
    if s.len() == 0 {
        assert(ranked(s, rank) =~= s);
    } else {
        let rest = s.drop_first();
        assert(falling(rest, rank)) by {
            assert forall|i: int, j: int| 0 <= i < j < rest.len() implies rank(rest[i])
                >= rank(rest[j]) by {
                assert(rest[i] == s[i + 1] && rest[j] == s[j + 1]);
            }
        }
        lemma_falling_fixed(rest, rank);
        if rest.len() > 0 {
            assert(rank(s[0]) >= rank(s[1]));
            assert(rest[0] == s[1]);
        }
        lemma_placed_at(s[0], rest, rank, 0);
        assert(rest.insert(0, s[0]) =~= s);
    }
}

/// Placing keeps the items of each rank in their order: among the items of
/// one rank, `x` comes first if it is of that rank, and the others follow
/// as they were.
pub proof fn lemma_placed_stable<T>(x: T, sorted: Seq<T>, rank: spec_fn(T) -> int, r: int)
    ensures
        placed(x, sorted, rank).filter(|y: T| rank(y) == r) == if rank(x) == r {
            seq![x] + sorted.filter(|y: T| rank(y) == r)
        } else {
            sorted.filter(|y: T| rank(y) == r)
        },
    decreases sorted.len(),
{
    let of_rank = |y: T| rank(y) == r;
    assert(seq![x].filter(of_rank) =~= if rank(x) == r {
        seq![x]
    } else {
        Seq::empty()
    }) by {
        reveal_with_fuel(Seq::filter, 2);
        assert(seq![x].drop_last() =~= Seq::<T>::empty());
    }
    if sorted.len() == 0 || !(rank(sorted[0]) > rank(x)) {
        Seq::filter_distributes_over_add(seq![x], sorted, of_rank);
        assert(Seq::<T>::empty() + sorted.filter(of_rank) =~= sorted.filter(of_rank));
    } else {
        let first = sorted[0];
        let rest = sorted.drop_first();
        lemma_placed_stable(x, rest, rank, r);
        assert(seq![first].filter(of_rank) =~= if rank(first) == r {
            seq![first]
        } else {
            Seq::empty()
        }) by {
            reveal_with_fuel(Seq::filter, 2);
            assert(seq![first].drop_last() =~= Seq::<T>::empty());
        }
        Seq::filter_distributes_over_add(seq![first], placed(x, rest, rank), of_rank);
        Seq::filter_distributes_over_add(seq![first], rest, of_rank);
        assert(seq![first] + rest =~= sorted);
        if rank(x) == r {
            assert(rank(first) != r);
            assert(Seq::<T>::empty() + (seq![x] + rest.filter(of_rank)) =~= seq![x] + (
            Seq::<T>::empty() + rest.filter(of_rank)));
        }
    }
}

/// Ordering is stable: the items of each rank come in the order in which
/// they came.
pub proof fn lemma_ranked_stable<T>(s: Seq<T>, rank: spec_fn(T) -> int, r: int)
    ensures
        ranked(s, rank).filter(|y: T| rank(y) == r) == s.filter(|y: T| rank(y) == r),
    decreases s.len(),
{
    let of_rank = |y: T| rank(y) == r;
    if s.len() == 0 {
        assert(ranked(s, rank) =~= s);
    } else {
        let rest = s.drop_first();
        lemma_ranked_stable(rest, rank, r);
        lemma_placed_stable(s[0], ranked(rest, rank), rank, r);
        assert(seq![s[0]].filter(of_rank) =~= if rank(s[0]) == r {
            seq![s[0]]
        } else {
            Seq::empty()
        }) by {
            reveal_with_fuel(Seq::filter, 2);
            assert(seq![s[0]].drop_last() =~= Seq::<T>::empty());
        }
        Seq::filter_distributes_over_add(seq![s[0]], rest, of_rank);
        assert(seq![s[0]] + rest =~= s);
        assert(Seq::<T>::empty() + rest.filter(of_rank) =~= rest.filter(of_rank));
    }
}

} // verus!
