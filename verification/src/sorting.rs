//! A stable sort for lists of records, and the removal of repeats from a
//! sorted list.

use crate::text::{
    lemma_text_lt_total, lemma_text_lt_transitive, text_lt, text_precedes, views, Text,
};
use vstd::prelude::*;

verus! {

/// A type whose values come in an order. `precedes` is the strict order on the
/// values; two values of which neither precedes the other are ranked alike and
/// keep, through a sort, the order they had.
pub trait Ranked: View + Sized {
    /// Whether `a` comes strictly before `b`.
    spec fn precedes(a: Self::V, b: Self::V) -> bool;

    /// Whether `self` comes strictly before `other`.
    fn comes_before(&self, other: &Self) -> (r: bool)
        ensures
            r == Self::precedes(self@, other@),
    ;
}

/// A type whose values can be told apart.
pub trait Same: View + Sized {
    /// Whether `self` and `other` have the same value.
    fn same_as(&self, other: &Self) -> (r: bool)
        ensures
            r == (self@ == other@),
    ;
}

impl Ranked for String {
    open spec fn precedes(a: Text, b: Text) -> bool {
        text_lt(a, b)
    }

    fn comes_before(&self, other: &Self) -> (r: bool) {
        text_precedes(self.as_str(), other.as_str())
    }
}

impl Same for String {
    fn same_as(&self, other: &Self) -> (r: bool) {
        *self == *other
    }
}

/// `s` with `x` put in behind every item that does not come after it. In a
/// sorted `s` that is the last place where `x` can stand.
pub open spec fn insert_ranked<T: Ranked>(s: Seq<T::V>, x: T::V) -> Seq<T::V>
    decreases s.len(),
{
    if s.len() == 0 {
        seq![x]
    } else if T::precedes(x, s[0]) {
        seq![x] + s
    } else {
        seq![s[0]] + insert_ranked::<T>(s.drop_first(), x)
    }
}

/// `s` sorted: its items put in one by one, first to last, each behind those
/// that do not come after it. Items ranked alike stay in their order.
pub open spec fn stable_sort<T: Ranked>(s: Seq<T::V>) -> Seq<T::V>
    decreases s.len(),
{
    if s.len() == 0 {
        s
    } else {
        insert_ranked::<T>(stable_sort::<T>(s.drop_last()), s.last())
    }
}

/// `s` without each item that equals the one before it.
pub open spec fn dedup_adjacent<A>(s: Seq<A>) -> Seq<A>
    decreases s.len(),
{
    if s.len() == 0 {
        s
    } else {
        let head = dedup_adjacent(s.drop_last());
        if s.len() >= 2 && s[s.len() - 2] == s.last() {
            head
        } else {
            head.push(s.last())
        }
    }
}

/// Putting `x` in at the first place where it comes before what follows.
proof fn lemma_insert_ranked_at<T: Ranked>(s: Seq<T::V>, x: T::V, p: int)
    requires
        0 <= p <= s.len(),
        forall|k: int| 0 <= k < p ==> !T::precedes(x, #[trigger] s[k]),
        p < s.len() ==> T::precedes(x, s[p]),
    ensures
        insert_ranked::<T>(s, x) == s.take(p).push(x) + s.skip(p),
    decreases p,
{
    if p == 0 {
        if s.len() == 0 {
            assert(s.take(0).push(x) + s.skip(0) =~= seq![x]);
        } else {
            assert(s.take(0).push(x) + s.skip(0) =~= seq![x] + s);
        }
    } else {
        let t = s.drop_first();
        assert forall|k: int| 0 <= k < p - 1 implies !T::precedes(x, #[trigger] t[k]) by {
            assert(t[k] == s[k + 1]);
        }
        if p < s.len() {
            assert(t[p - 1] == s[p]);
        }
        lemma_insert_ranked_at::<T>(t, x, p - 1);
        assert(seq![s[0]] + (t.take(p - 1).push(x) + t.skip(p - 1)) =~= s.take(p).push(x) + s.skip(
            p,
        ));
    }
}

/// `v` sorted by the order of its items; items ranked alike keep their order.
pub fn sort_stable<T: Ranked>(v: Vec<T>) -> (out: Vec<T>)
    ensures
        views(out@) == stable_sort::<T>(views(v@)),
{
    let ghost all = views(v@);
    let mut rest = v;
    let mut out: Vec<T> = Vec::new();
    let ghost mut done: int = 0;
    assert(all.take(0) =~= Seq::empty());
    assert(views(out@) =~= Seq::empty());
    assert(views(rest@) =~= all.skip(0));
    while rest.len() > 0
        invariant
            0 <= done <= all.len(),
            views(rest@) == all.skip(done),
            views(out@) == stable_sort::<T>(all.take(done)),
        decreases rest.len(),
    {
        let ghost before = rest@;
        assert(views(before).len() == all.skip(done).len());
        let x = rest.remove(0);
        let mut p: usize = 0;
        while p < out.len() && !x.comes_before(&out[p])
            invariant
                p <= out.len(),
                forall|k: int| 0 <= k < p ==> !T::precedes(x@, #[trigger] views(out@)[k]),
            decreases out.len() - p,
        {
            p += 1;
        }
        proof {
            let sorted = views(out@);
            if (p as int) < sorted.len() {
                assert(T::precedes(x@, sorted[p as int]));
            }
            lemma_insert_ranked_at::<T>(sorted, x@, p as int);
            assert(x@ == views(before)[0]);
            assert(views(before)[0] == all.skip(done)[0]);
            assert(all.take(done + 1).drop_last() == all.take(done));
            assert(all.take(done + 1).last() == x@);
            assert(views(rest@) =~= all.skip(done + 1)) by {
                assert forall|k: int| 0 <= k < rest@.len() implies views(rest@)[k] == all.skip(
                    done + 1,
                )[k] by {
                    assert(rest@[k] == before[k + 1]);
                    assert(views(before)[k + 1] == all.skip(done)[k + 1]);
                }
            }
        }
        let ghost sorted = views(out@);
        out.insert(p, x);
        proof {
            assert(views(out@) =~= sorted.take(p as int).push(x@) + sorted.skip(p as int));
            done = done + 1;
        }
    }
    proof {
        assert(all.skip(done).len() == 0);
        assert(all.take(done) == all);
    }
    out
}

/// `v` without each item that equals the one before it.
pub fn dedup<T: Same>(v: Vec<T>) -> (out: Vec<T>)
    ensures
        views(out@) == dedup_adjacent(views(v@)),
{
    let ghost all = views(v@);
    let mut rest = v;
    let mut out: Vec<T> = Vec::new();
    let ghost mut done: int = 0;
    assert(all.take(0) =~= Seq::empty());
    assert(views(out@) =~= Seq::empty());
    assert(views(rest@) =~= all.skip(0));
    while rest.len() > 0
        invariant
            0 <= done <= all.len(),
            views(rest@) == all.skip(done),
            views(out@) == dedup_adjacent(all.take(done)),
            done > 0 ==> out@.len() > 0 && out@.last()@ == all[done - 1],
        decreases rest.len(),
    {
        let ghost before = rest@;
        let ghost kept = views(out@);
        assert(views(before).len() == all.skip(done).len());
        let x = rest.remove(0);
        let repeat = out.len() > 0 && x.same_as(&out[out.len() - 1]);
        proof {
            assert(x@ == views(before)[0]);
            assert(views(before)[0] == all.skip(done)[0]);
            assert(x@ == all[done]);
            assert(all.take(done + 1).drop_last() == all.take(done));
            assert(all.take(done + 1).last() == x@);
            if done > 0 {
                assert(all.take(done + 1)[done - 1] == all[done - 1]);
            }
            assert(views(rest@) =~= all.skip(done + 1)) by {
                assert forall|k: int| 0 <= k < rest@.len() implies views(rest@)[k] == all.skip(
                    done + 1,
                )[k] by {
                    assert(rest@[k] == before[k + 1]);
                    assert(views(before)[k + 1] == all.skip(done)[k + 1]);
                }
            }
        }
        if !repeat {
            out.push(x);
            assert(views(out@) =~= kept.push(x@));
        }
        proof {
            done = done + 1;
        }
    }
    proof {
        assert(all.skip(done).len() == 0);
        assert(all.take(done) == all);
    }
    out
}

/// Whether the order of `T` is one to sort by: of two values at most one
/// comes before the other, and "does not come after" carries over from one
/// pair to the next.
pub open spec fn is_ranking<T: Ranked>() -> bool {
    &&& forall|a: T::V, b: T::V| #[trigger] T::precedes(a, b) ==> !T::precedes(b, a)
    &&& forall|a: T::V, b: T::V, c: T::V|
        !#[trigger] T::precedes(b, a) && !#[trigger] T::precedes(c, b) ==> !T::precedes(c, a)
}

/// Whether no item of `s` comes before an earlier one.
pub open spec fn is_sorted<T: Ranked>(s: Seq<T::V>) -> bool {
    forall|i: int, j: int| 0 <= i < j < s.len() ==> !T::precedes(#[trigger] s[j], #[trigger] s[i])
}

/// Putting an item into a list adds that item and nothing else.
pub proof fn lemma_insert_is_permutation<T: Ranked>(s: Seq<T::V>, x: T::V)
    ensures
        insert_ranked::<T>(s, x).to_multiset() == s.to_multiset().insert(x),
    decreases s.len(),
{
    broadcast use vstd::seq_lib::group_to_multiset_ensures;

    if s.len() == 0 {
        assert(seq![x] =~= Seq::<T::V>::empty().push(x));
        assert(s =~= Seq::<T::V>::empty());
    } else if T::precedes(x, s[0]) {
        vstd::seq_lib::lemma_multiset_commutative(seq![x], s);
        assert(seq![x] =~= Seq::<T::V>::empty().push(x));
        assert(seq![x].to_multiset() =~= vstd::multiset::Multiset::<T::V>::empty().insert(x));
        assert(insert_ranked::<T>(s, x).to_multiset() =~= s.to_multiset().insert(x));
    } else {
        let rest = s.drop_first();
        lemma_insert_is_permutation::<T>(rest, x);
        let head = seq![s[0]];
        assert(head =~= Seq::<T::V>::empty().push(s[0]));
        assert(head.to_multiset() =~= vstd::multiset::Multiset::<T::V>::empty().insert(s[0]));
        vstd::seq_lib::lemma_multiset_commutative(head, insert_ranked::<T>(rest, x));
        vstd::seq_lib::lemma_multiset_commutative(head, rest);
        assert(head + rest =~= s);
        assert(insert_ranked::<T>(s, x).to_multiset() =~= s.to_multiset().insert(x));
    }
}

/// A sorted list holds what the list held, each item as often.
pub proof fn lemma_sort_is_permutation<T: Ranked>(s: Seq<T::V>)
    ensures
        stable_sort::<T>(s).to_multiset() == s.to_multiset(),
    decreases s.len(),
{
    broadcast use vstd::seq_lib::group_to_multiset_ensures;

    if s.len() > 0 {
        lemma_sort_is_permutation::<T>(s.drop_last());
        lemma_insert_is_permutation::<T>(stable_sort::<T>(s.drop_last()), s.last());
        assert(s.drop_last().push(s.last()) =~= s);
    }
}

/// An item put into a sorted list leaves it sorted, and what came after
/// none of them still comes after none.
proof fn lemma_insert_keeps_sorted<T: Ranked>(s: Seq<T::V>, x: T::V)
    requires
        is_ranking::<T>(),
        is_sorted::<T>(s),
    ensures
        is_sorted::<T>(insert_ranked::<T>(s, x)),
        insert_ranked::<T>(s, x).len() == s.len() + 1,
        forall|y: T::V|
            !T::precedes(x, y) && (forall|k: int| 0 <= k < s.len() ==> !T::precedes(
                #[trigger] s[k],
                y,
            )) ==> (forall|k: int|
                0 <= k < s.len() + 1 ==> !T::precedes(#[trigger] insert_ranked::<T>(s, x)[k], y)),
    decreases s.len(),
{
    let out = insert_ranked::<T>(s, x);
    if s.len() == 0 {
    } else if T::precedes(x, s[0]) {
        assert forall|i: int, j: int| 0 <= i < j < out.len() implies !T::precedes(
            #[trigger] out[j],
            #[trigger] out[i],
        ) by {
            if i == 0 {
                assert(out[j] == s[j - 1]);
                if j - 1 > 0 {
                    assert(!T::precedes(s[j - 1], s[0]));
                }
                assert(!T::precedes(s[0], x));
            } else {
                assert(out[i] == s[i - 1] && out[j] == s[j - 1]);
            }
        }
    } else {
        let rest = s.drop_first();
        assert(is_sorted::<T>(rest)) by {
            assert forall|i: int, j: int| 0 <= i < j < rest.len() implies !T::precedes(
                #[trigger] rest[j],
                #[trigger] rest[i],
            ) by {
                assert(rest[i] == s[i + 1] && rest[j] == s[j + 1]);
            }
        }
        lemma_insert_keeps_sorted::<T>(rest, x);
        let tail = insert_ranked::<T>(rest, x);
        assert forall|k: int| 0 <= k < rest.len() implies !T::precedes(#[trigger] rest[k], s[0]) by {
            assert(rest[k] == s[k + 1]);
        }
        assert forall|i: int, j: int| 0 <= i < j < out.len() implies !T::precedes(
            #[trigger] out[j],
            #[trigger] out[i],
        ) by {
            if i == 0 {
                assert(out[j] == tail[j - 1]);
            } else {
                assert(out[i] == tail[i - 1] && out[j] == tail[j - 1]);
            }
        }
        assert forall|y: T::V|
            !T::precedes(x, y) && (forall|k: int| 0 <= k < s.len() ==> !T::precedes(
                #[trigger] s[k],
                y,
            )) implies (forall|k: int|
            0 <= k < s.len() + 1 ==> !T::precedes(#[trigger] out[k], y)) by {
            assert forall|k: int| 0 <= k < rest.len() implies !T::precedes(#[trigger] rest[k], y) by {
                assert(rest[k] == s[k + 1]);
            }
            assert forall|k: int| 0 <= k < s.len() + 1 implies !T::precedes(#[trigger] out[k], y) by {
                if k > 0 {
                    assert(out[k] == tail[k - 1]);
                }
            }
        }
    }
}

/// A list sorted by an order that is one to sort by is sorted.
pub proof fn lemma_sort_is_sorted<T: Ranked>(s: Seq<T::V>)
    requires
        is_ranking::<T>(),
    ensures
        is_sorted::<T>(stable_sort::<T>(s)),
        stable_sort::<T>(s).len() == s.len(),
    decreases s.len(),
{
    if s.len() > 0 {
        lemma_sort_is_sorted::<T>(s.drop_last());
        lemma_insert_keeps_sorted::<T>(stable_sort::<T>(s.drop_last()), s.last());
    }
}

/// The order of texts is one to sort by.
pub proof fn lemma_text_ranking()
    ensures
        is_ranking::<String>(),
{
    assert forall|a: Text, b: Text| #[trigger] text_lt(a, b) implies !text_lt(b, a) by {
        lemma_text_lt_total(a, b);
    }
    assert forall|a: Text, b: Text, c: Text|
        !#[trigger] text_lt(b, a) && !#[trigger] text_lt(c, b) implies !text_lt(c, a) by {
        lemma_text_lt_total(a, b);
        lemma_text_lt_total(b, c);
        if text_lt(c, a) {
            if a == b {
            } else if b == c {
            } else {
                lemma_text_lt_transitive(c, a, b);
            }
        }
    }
}

} // verus!
