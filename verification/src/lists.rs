//! What holds of the lists of [`strs`]: which items they keep, and how often.

use crate::strs;
use vstd::prelude::*;

verus! {

/// What is kept of a list are its items that are accepted, and all of those.
pub proof fn keeping_keeps_what_is_accepted<A>(list: Seq<A>, p: spec_fn(A) -> bool, x: A)
    ensures
        strs::keep(list, p).contains(x) <==> list.contains(x) && p(x),
    decreases list.len(),
{
    if list.len() > 0 {
        let t = list.drop_last();
        keeping_keeps_what_is_accepted(t, p, x);
        let kept = strs::keep(t, p);
        let all = strs::keep(list, p);
        if all.contains(x) {
            let i = choose|i: int| 0 <= i < all.len() && all[i] == x;
            if i < kept.len() {
                assert(kept[i] == x);
                let j = choose|j: int| 0 <= j < t.len() && t[j] == x;
                assert(list[j] == x);
            } else {
                assert(list[list.len() - 1] == x);
            }
        }
        if list.contains(x) && p(x) {
            let i = choose|i: int| 0 <= i < list.len() && list[i] == x;
            if i < t.len() {
                assert(t[i] == x);
                let j = choose|j: int| 0 <= j < kept.len() && kept[j] == x;
                assert(all[j] == x);
            } else {
                assert(all[all.len() - 1] == x);
            }
        }
    }
}

/// A list without repetitions has the items of the list, each once.
pub proof fn distinct_items_are_those_of_the_list<A>(list: Seq<A>, x: A)
    ensures
        strs::distinct(list).contains(x) <==> list.contains(x),
        forall|i: int, j: int|
            0 <= i < j < strs::distinct(list).len() ==> #[trigger] strs::distinct(list)[i]
                != #[trigger] strs::distinct(list)[j],
    decreases list.len(),
{
    if list.len() > 0 {
        let t = list.drop_last();
        distinct_items_are_those_of_the_list(t, x);
        distinct_items_are_those_of_the_list(t, list.last());
        let head = strs::distinct(t);
        let all = strs::distinct(list);
        if list.contains(x) {
            let i = choose|i: int| 0 <= i < list.len() && list[i] == x;
            if i < t.len() {
                assert(t[i] == x);
                let j = choose|j: int| 0 <= j < head.len() && head[j] == x;
                assert(all[j] == x);
            } else if !head.contains(x) {
                assert(all[all.len() - 1] == x);
            }
        }
        if all.contains(x) {
            let i = choose|i: int| 0 <= i < all.len() && all[i] == x;
            if i < head.len() {
                assert(head[i] == x);
                let j = choose|j: int| 0 <= j < t.len() && t[j] == x;
                assert(list[j] == x);
            } else {
                assert(list[list.len() - 1] == x);
            }
        }
        assert forall|i: int, j: int| 0 <= i < j < all.len() implies #[trigger] all[i]
            != #[trigger] all[j] by {
            assert(all[i] == head[i]);
            if j < head.len() {
                assert(all[j] == head[j]);
            } else {
                assert(head.contains(head[i]));
            }
        }
    }
}

/// Some item is counted exactly where some item is accepted, and no more are counted than there
/// are.
pub proof fn counting_finds_what_is_accepted<A>(list: Seq<A>, p: spec_fn(A) -> bool)
    ensures
        strs::count(list, p) > 0 <==> exists|i: int| 0 <= i < list.len() && p(#[trigger] list[i]),
        strs::count(list, p) <= list.len(),
    decreases list.len(),
{
    if list.len() > 0 {
        let t = list.drop_last();
        counting_finds_what_is_accepted(t, p);
        if strs::count(t, p) > 0 {
            let i = choose|i: int| 0 <= i < t.len() && p(#[trigger] t[i]);
            assert(p(list[i]));
        }
        if exists|i: int| 0 <= i < list.len() && p(#[trigger] list[i]) {
            let i = choose|i: int| 0 <= i < list.len() && p(#[trigger] list[i]);
            if i < t.len() {
                assert(p(t[i]));
            }
        }
    }
}

/// A part stands where the parts before it, each with what stands between, end.
pub proof fn joined_parts_stand_in_the_text(parts: Seq<Seq<char>>, sep: Seq<char>, k: int) -> (at: int)
    requires
        0 <= k < parts.len(),
    ensures
        ({
            let whole = strs::join(parts, sep);
            &&& strs::occurs_at(whole, parts[k], at)
            &&& k == 0 ==> at == 0
            &&& k > 0 ==> strs::occurs_at(whole, sep, at - sep.len())
            &&& k == parts.len() - 1 ==> at + parts[k].len() == whole.len()
            &&& k < parts.len() - 1 ==> strs::occurs_at(whole, sep, (at + parts[k].len()) as int)
        }),
    decreases parts.len(),
{
    let whole = strs::join(parts, sep);
    if parts.len() == 1 {
        assert(whole.subrange(0, whole.len() as int) =~= parts[k]);
        0
    } else {
        let t = parts.drop_last();
        let head = strs::join(t, sep);
        if k == parts.len() - 1 {
            let at = (head.len() + sep.len()) as int;
            assert(whole.subrange(at, at + parts[k].len()) =~= parts[k]);
            assert(whole.subrange(head.len() as int, at) =~= sep);
            at
        } else {
            let at = joined_parts_stand_in_the_text(t, sep, k);
            let end = (at + parts[k].len()) as int;
            assert(t[k] == parts[k]);
            assert(whole.subrange(at, end) =~= head.subrange(at, end));
            if k > 0 {
                assert(whole.subrange(at - sep.len(), at) =~= head.subrange(at - sep.len(), at));
            }
            if k < t.len() - 1 {
                assert(whole.subrange(end, end + sep.len()) =~= head.subrange(end, end + sep.len()));
            } else {
                assert(whole.subrange(end, end + sep.len()) =~= sep);
            }
            at
        }
    }
}

/// Two items are counted exactly where two items are accepted.
pub proof fn counting_two_finds_two<A>(list: Seq<A>, p: spec_fn(A) -> bool)
    ensures
        strs::count(list, p) >= 2 <==> two_are_accepted(list, p),
    decreases list.len(),
{
    if list.len() > 0 {
        let t = list.drop_last();
        counting_two_finds_two(t, p);
        counting_finds_what_is_accepted(t, p);
        if strs::count(list, p) >= 2 {
            if strs::count(t, p) >= 2 {
                let (i, j) = choose|i: int, j: int|
                    0 <= i < j < t.len() && p(#[trigger] t[i]) && p(#[trigger] t[j]);
                assert(p(list[i]) && p(list[j]));
            } else {
                let i = choose|i: int| 0 <= i < t.len() && p(#[trigger] t[i]);
                assert(p(list[i]) && p(list[list.len() - 1]));
            }
        }
        if two_are_accepted(list, p) {
            let (i, j) = choose|i: int, j: int|
                0 <= i < j < list.len() && p(#[trigger] list[i]) && p(#[trigger] list[j]);
            assert(p(t[i]));
            if j < t.len() {
                assert(p(t[j]));
            }
        }
    }
}

/// Two items of the list are accepted.
pub open spec fn two_are_accepted<A>(list: Seq<A>, p: spec_fn(A) -> bool) -> bool {
    exists|i: int, j: int|
        0 <= i < j < list.len() && p(#[trigger] list[i]) && p(#[trigger] list[j])
}

/// The line is one of the lines of the text.
pub open spec fn is_line_of(s: Seq<char>, line: Seq<char>) -> bool {
    exists|at: int|
        strs::occurs_at(s, line, at) && (at == 0 || s[at - 1] == '\n') && (at + line.len() == s.len()
            || s[at + line.len()] == '\n')
}

/// Texts that are written one below the other are lines of the whole.
pub proof fn joined_lines_are_lines(parts: Seq<Seq<char>>, k: int)
    requires
        0 <= k < parts.len(),
    ensures
        is_line_of(strs::join(parts, "\n"@), parts[k]),
{
    reveal_strlit("\n");
    let whole = strs::join(parts, "\n"@);
    let at = joined_parts_stand_in_the_text(parts, "\n"@, k);
    let end = (at + parts[k].len()) as int;
    if k > 0 {
        assert(whole.subrange(at - 1, at)[0] == '\n');
    }
    if k < parts.len() - 1 {
        assert(whole.subrange(end, end + 1)[0] == '\n');
    }
    assert(strs::occurs_at(whole, parts[k], at));
}

/// What is collected of a list is what was made of its items, and all of it.
pub proof fn collecting_collects_what_is_made<A, B>(
    list: Seq<A>,
    g: spec_fn(A) -> Option<B>,
    y: B,
)
    ensures
        strs::collected(list, g).contains(y) <==> exists|i: int|
            0 <= i < list.len() && g(#[trigger] list[i]) == Some(y),
        strs::collected(list, g).len() <= list.len(),
    decreases list.len(),
{
    if list.len() > 0 {
        let t = list.drop_last();
        collecting_collects_what_is_made(t, g, y);
        let head = strs::collected(t, g);
        let all = strs::collected(list, g);
        if all.contains(y) {
            let k = choose|k: int| 0 <= k < all.len() && all[k] == y;
            if k < head.len() {
                assert(head[k] == y);
                let i = choose|i: int| 0 <= i < t.len() && g(#[trigger] t[i]) == Some(y);
                assert(g(list[i]) == Some(y));
            } else {
                assert(g(list[list.len() - 1]) == Some(y));
            }
        }
        if exists|i: int| 0 <= i < list.len() && g(#[trigger] list[i]) == Some(y) {
            let i = choose|i: int| 0 <= i < list.len() && g(#[trigger] list[i]) == Some(y);
            if i < t.len() {
                assert(g(t[i]) == Some(y));
                let k = choose|k: int| 0 <= k < head.len() && head[k] == y;
                assert(all[k] == y);
            } else {
                assert(all[all.len() - 1] == y);
            }
        }
    }
}

/// Two lists with the same items, counted, hold the same.
pub proof fn permuted_lists_hold_the_same<A>(s: Seq<A>, t: Seq<A>, x: A)
    requires
        s.to_multiset() == t.to_multiset(),
    ensures
        s.contains(x) <==> t.contains(x),
        s.no_duplicates() ==> t.no_duplicates(),
{
    broadcast use vstd::seq_lib::group_to_multiset_ensures;

    assert(s.to_multiset().contains(x) <==> s.contains(x));
    assert(t.to_multiset().contains(x) <==> t.contains(x));
    if s.no_duplicates() {
        s.lemma_multiset_has_no_duplicates();
        t.lemma_multiset_has_no_duplicates_conv();
    }
}

} // verus!
