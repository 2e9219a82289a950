//! A stable sort, stated as insertion into a sorted sequence.

use crate::strs;
use vstd::prelude::*;

verus! {

/// Values with an order of their own.
pub trait Ordered: View + Sized {
    /// `a` belongs strictly after `b`.
    spec fn after(a: Self::V, b: Self::V) -> bool;

    /// Whether `self` belongs strictly after `other`.
    fn comes_after(&self, other: &Self) -> (r: bool)
        ensures
            r == Self::after(self@, other@),
    ;
}

/// `s` with `x` put behind everything that does not belong after it.
pub open spec fn place<T: Ordered>(s: Seq<T::V>, x: T::V) -> Seq<T::V>
    decreases s.len(),
{
    if s.len() > 0 && T::after(s.last(), x) {
        place::<T>(s.drop_last(), x).push(s.last())
    } else {
        s.push(x)
    }
}

/// The items of `s` in order; items of the same rank keep their order.
pub open spec fn sorted<T: Ordered>(s: Seq<T::V>) -> Seq<T::V>
    decreases s.len(),
{
    if s.len() == 0 {
        Seq::empty()
    } else {
        place::<T>(sorted::<T>(s.drop_last()), s.last())
    }
}

/// `after` is a strict weak order: what the laws on [`sorted`] ask of it.
pub open spec fn weak_order<T: Ordered>() -> bool {
    &&& forall|a: T::V| !#[trigger] T::after(a, a)
    &&& forall|a: T::V, b: T::V, c: T::V|
        #[trigger] T::after(a, b) && #[trigger] T::after(b, c) ==> T::after(a, c)
    &&& forall|a: T::V, b: T::V, c: T::V|
        T::after(a, c) ==> #[trigger] T::after(a, b) || #[trigger] T::after(b, c)
}

/// No item belongs strictly after a later one.
pub open spec fn in_order<T: Ordered>(s: Seq<T::V>) -> bool {
    forall|i: int, j: int|
        0 <= i < j < s.len() ==> !T::after(#[trigger] s[i], #[trigger] s[j])
}

/// Sorts the items; items of the same rank keep their order.
pub fn stable_sort<T: Ordered>(items: Vec<T>) -> (r: Vec<T>)
    ensures
        strs::deep(r@) == sorted::<T>(strs::deep(items@)),
{
    let mut rest = items;
    let mut out: Vec<T> = Vec::new();
    let ghost all = strs::deep(items@);
    let ghost mut done: int = 0;
    assert(all.take(0) =~= Seq::empty());
    assert(strs::deep(out@) =~= Seq::empty());
    while rest.len() > 0
        invariant
            0 <= done <= all.len(),
            strs::deep(rest@) == all.skip(done),
            strs::deep(out@) == sorted::<T>(all.take(done)),
        decreases rest@.len(),
    {
        let ghost rest_before = rest@;
        let x = rest.remove(0);
        let ghost out_before = out@;
        proof {
            assert(strs::deep(rest_before).len() == rest_before.len());
            assert(x@ == strs::deep(rest_before)[0]);
            assert(x@ == all[done]);
            assert(rest@ =~= rest_before.skip(1));
            assert(strs::deep(rest@) =~= strs::deep(rest_before).skip(1));
            assert(strs::deep(rest_before).skip(1) =~= all.skip(done + 1));
            assert(all.take(done + 1).drop_last() =~= all.take(done));
            assert(all.take(done + 1).last() == x@);
        }
        let ghost s = strs::deep(out@);
        let mut p: usize = out.len();
        assert(s.take(p as int) =~= s);
        assert(s.skip(p as int) =~= Seq::empty());
        assert(place::<T>(s, x@) + Seq::empty() =~= place::<T>(s, x@));
        while p > 0 && out[p - 1].comes_after(&x)
            invariant
                p <= out@.len(),
                s == strs::deep(out@),
                place::<T>(s, x@) == place::<T>(s.take(p as int), x@) + s.skip(p as int),
            decreases p,
        {
            proof {
                let t = s.take(p as int);
                assert(t.drop_last() =~= s.take(p - 1));
                assert(t.last() == out@[p - 1]@);
                assert(place::<T>(t.drop_last(), x@).push(t.last()) + s.skip(p as int)
                    =~= place::<T>(t.drop_last(), x@) + s.skip(p - 1));
            }
            p -= 1;
        }
        proof {
            assert(p > 0 ==> s.take(p as int).last() == out@[p - 1]@);
            assert(place::<T>(s.take(p as int), x@) == s.take(p as int).push(x@));
            assert(s.take(p as int).push(x@) + s.skip(p as int) =~= s.insert(p as int, x@));
        }
        out.insert(p, x);
        proof {
            assert(strs::deep(out@) =~= s.insert(p as int, x@));
            done = done + 1;
        }
    }
    assert(all.take(done) =~= all);
    out
}

proof fn lemma_place<T: Ordered>(s: Seq<T::V>, x: T::V)
    requires
        weak_order::<T>(),
        in_order::<T>(s),
    ensures
        in_order::<T>(place::<T>(s, x)),
        place::<T>(s, x).to_multiset() == s.push(x).to_multiset(),
        place::<T>(s, x).len() == s.len() + 1,
        forall|y: T::V| #[trigger]
            place::<T>(s, x).contains(y) ==> y == x || s.contains(y),
    decreases s.len(),
{
    broadcast use vstd::seq_lib::group_to_multiset_ensures;

    if s.len() > 0 && T::after(s.last(), x) {
        let t = s.drop_last();
        lemma_place::<T>(t, x);
        let p = place::<T>(t, x);
        let r = p.push(s.last());
        assert forall|i: int, j: int| 0 <= i < j < r.len() implies !T::after(
            #[trigger] r[i],
            #[trigger] r[j],
        ) by {
            if j == r.len() - 1 {
                assert(p.contains(p[i]));
                if r[i] != x {
                    let k = choose|k: int| 0 <= k < t.len() && t[k] == r[i];
                    assert(s[k] == r[i] && s[s.len() - 1] == r[j]);
                } else if T::after(x, s.last()) {
                    assert(T::after(s.last(), s.last()));
                }
            } else {
                assert(p[i] == r[i] && p[j] == r[j]);
            }
        }
        assert(s =~= t.push(s.last()));
        assert(r.to_multiset() =~= s.push(x).to_multiset());
        assert forall|y: T::V| #[trigger] r.contains(y) implies y == x || s.contains(y) by {
            let k = choose|k: int| 0 <= k < r.len() && r[k] == y;
            if k < p.len() {
                assert(p.contains(y));
                if y != x {
                    let m = choose|m: int| 0 <= m < t.len() && t[m] == y;
                    assert(s[m] == y);
                }
            } else {
                assert(s[s.len() - 1] == y);
            }
        }
    } else {
        let r = s.push(x);
        assert forall|i: int, j: int| 0 <= i < j < r.len() implies !T::after(
            #[trigger] r[i],
            #[trigger] r[j],
        ) by {
            if j == r.len() - 1 && T::after(s[i], x) {
                // Nothing in `s` before its last item belongs after that item.
                if i < s.len() - 1 {
                    assert(!T::after(s[i], s[s.len() - 1]));
                }
                assert(T::after(s[i], s.last()) || T::after(s.last(), x));
            } else if j < s.len() {
                assert(s[i] == r[i] && s[j] == r[j]);
            }
        }
        assert forall|y: T::V| #[trigger] r.contains(y) implies y == x || s.contains(y) by {
            let k = choose|k: int| 0 <= k < r.len() && r[k] == y;
            if k < s.len() {
                assert(s[k] == y);
            }
        }
    }
}

/// Sorting keeps the items and puts them in order.
pub proof fn sorting_permutes_into_order<T: Ordered>(s: Seq<T::V>)
    requires
        weak_order::<T>(),
    ensures
        in_order::<T>(sorted::<T>(s)),
        sorted::<T>(s).to_multiset() == s.to_multiset(),
        sorted::<T>(s).len() == s.len(),
    decreases s.len(),
{
    broadcast use vstd::seq_lib::group_to_multiset_ensures;

    if s.len() > 0 {
        let t = s.drop_last();
        sorting_permutes_into_order::<T>(t);
        lemma_place::<T>(sorted::<T>(t), s.last());
        assert(s =~= t.push(s.last()));
        assert(sorted::<T>(s).to_multiset() =~= s.to_multiset());
    } else {
        assert(sorted::<T>(s) =~= s);
    }
}

/// A sequence in order is left as it is.
pub proof fn sorting_keeps_what_is_in_order<T: Ordered>(s: Seq<T::V>)
    requires
        in_order::<T>(s),
    ensures
        sorted::<T>(s) == s,
    decreases s.len(),
{
    if s.len() > 0 {
        let t = s.drop_last();
        assert(in_order::<T>(t)) by {
            assert forall|i: int, j: int| 0 <= i < j < t.len() implies !T::after(
                #[trigger] t[i],
                #[trigger] t[j],
            ) by {
                assert(t[i] == s[i] && t[j] == s[j]);
            }
        }
        sorting_keeps_what_is_in_order::<T>(t);
        if t.len() > 0 {
            assert(!T::after(s[s.len() - 2], s[s.len() - 1]));
        }
        assert(sorted::<T>(s) =~= s);
    } else {
        assert(sorted::<T>(s) =~= s);
    }
}


/// What holds of every item holds of every item after sorting.
pub proof fn sorting_keeps_what_holds_of_all<T: Ordered>(
    s: Seq<T::V>,
    p: spec_fn(T::V) -> bool,
)
    requires
        forall|i: int| 0 <= i < s.len() ==> p(#[trigger] s[i]),
    ensures
        sorted::<T>(s).len() == s.len(),
        forall|i: int| 0 <= i < s.len() ==> p(#[trigger] sorted::<T>(s)[i]),
    decreases s.len(),
{
    if s.len() > 0 {
        let t = s.drop_last();
        assert forall|i: int| 0 <= i < t.len() implies p(#[trigger] t[i]) by {
            assert(t[i] == s[i]);
        }
        sorting_keeps_what_holds_of_all::<T>(t, p);
        assert(p(s[s.len() - 1]));
        lemma_place_all::<T>(sorted::<T>(t), s.last(), p);
    }
}

proof fn lemma_place_all<T: Ordered>(s: Seq<T::V>, x: T::V, p: spec_fn(T::V) -> bool)
    requires
        forall|i: int| 0 <= i < s.len() ==> p(#[trigger] s[i]),
        p(x),
    ensures
        place::<T>(s, x).len() == s.len() + 1,
        forall|i: int| 0 <= i <= s.len() ==> p(#[trigger] place::<T>(s, x)[i]),
    decreases s.len(),
{
    if s.len() > 0 && T::after(s.last(), x) {
        let t = s.drop_last();
        assert forall|i: int| 0 <= i < t.len() implies p(#[trigger] t[i]) by {
            assert(t[i] == s[i]);
        }
        lemma_place_all::<T>(t, x, p);
        let r = place::<T>(s, x);
        assert forall|i: int| 0 <= i <= s.len() implies p(#[trigger] r[i]) by {
            if i < s.len() {
                assert(r[i] == place::<T>(t, x)[i]);
            } else {
                assert(r[i] == s[s.len() - 1]);
            }
        }
    } else {
        let r = place::<T>(s, x);
        assert forall|i: int| 0 <= i <= s.len() implies p(#[trigger] r[i]) by {
            if i < s.len() {
                assert(r[i] == s[i]);
            }
        }
    }
}

} // verus!
