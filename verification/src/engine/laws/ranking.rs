//! What holds of the records that are listed for a case.

use crate::engine::normalize;
use crate::engine::rank;
use crate::engine::rank::{Entry, MainHit, OtherHit, RankedComponents, RecordScore};
use crate::engine::records::{ActorRef, CaseItem, RecordItem};
use crate::lists;
use crate::sorting;
use crate::sorting::Ordered;
use crate::strs;
use crate::text;
use vstd::prelude::*;

verus! {

/// One of the people has this name, as names are compared.
pub open spec fn somebody_is(people: Seq<ActorRef>, name: Seq<char>) -> bool {
    exists|k: int| 0 <= k < people.len() && normalize::normal((#[trigger] people[k]).name@) == name
}

/// A main person of the record has this name.
pub open spec fn is_main_person(r: RecordItem, name: Seq<char>) -> bool {
    name == normalize::normal(r.actor.name@) || somebody_is(r.actors@, name)
}

/// The record names a person of the case, among its main people or among the others.
pub open spec fn names_person_at(r: RecordItem, c: CaseItem, k: int) -> bool {
    let name = normalize::normal(c.actors@[k].name@);
    &&& 0 <= k < c.actors@.len()
    &&& name.len() > 0
    &&& is_main_person(r, name) || somebody_is(r.related@, name)
}

/// The record names a person of the case, among its main people or among the others.
pub open spec fn names_a_person(r: RecordItem, c: CaseItem) -> bool {
    exists|k: int| names_person_at(r, c, k)
}

/// The first person of the case is a main person of the record.
pub open spec fn names_the_first_person(r: RecordItem, c: CaseItem) -> bool {
    &&& c.actors@.len() > 0
    &&& normalize::normal(c.actors@[0].name@).len() > 0
    &&& is_main_person(r, normalize::normal(c.actors@[0].name@))
}

/// The record is not before the beginning of the case and not after its end; an empty bound does
/// not bound.
pub open spec fn while_the_case_lasts(r: RecordItem, c: CaseItem) -> bool {
    &&& c.time_from@.len() > 0 ==> r.ts@ == c.time_from@ || strs::before(c.time_from@, r.ts@)
    &&& c.time_to@.len() > 0 ==> r.ts@ == c.time_to@ || strs::before(r.ts@, c.time_to@)
}

/// The case asks for words.
pub open spec fn asks_for_words(c: CaseItem) -> bool {
    normalize::tokens(strs::trim(c.query@)).len() > 0 && strs::trim(c.query@).len() > 0
}

/// The record belongs to the case: it lies in its time and has its first person among its main
/// people; or it reaches the threshold of the score, and names some person of the case or reaches
/// the threshold of the text.
pub open spec fn belongs(r: RecordItem, c: CaseItem, score: RecordScore) -> bool {
    &&& while_the_case_lasts(r, c)
    &&& names_the_first_person(r, c) || (score.score_passes && (names_a_person(r, c) || (
    asks_for_words(c) && score.text_passes)))
}

/// The record at `i` has a better place than the one at `j`: the records with the first person of
/// the case come before the others; the first are ordered by time, the latest first, then by
/// score, the others by score, the highest first, then by time; last by id.
pub open spec fn comes_first(
    records: Seq<RecordItem>,
    c: CaseItem,
    scores: Seq<RecordScore>,
    i: int,
    j: int,
) -> bool {
    let main_i = names_the_first_person(records[i], c);
    let main_j = names_the_first_person(records[j], c);
    let later = strs::before(records[j].ts@, records[i].ts@);
    let same_time = records[j].ts@ == records[i].ts@;
    let higher = scores[j].key < scores[i].key;
    let same_score = scores[j].key == scores[i].key;
    let by_id = records[i].id@ == records[j].id@ || strs::before(records[i].id@, records[j].id@);
    ||| main_i && !main_j
    ||| main_i && main_j && (later || same_time && (higher || same_score && by_id))
    ||| !main_i && !main_j && (higher || same_score && (later || same_time && by_id))
}

/// The record at position `i` is listed.
pub open spec fn is_listed(listed: Seq<Entry>, i: int) -> bool {
    exists|j: int| 0 <= j < listed.len() && (#[trigger] listed[j]).record == i
}

/// An id is listed.
pub open spec fn id_is_listed(listed: Seq<Entry>, id: Seq<char>) -> bool {
    exists|j: int| 0 <= j < listed.len() && (#[trigger] listed[j]).id == id
}

/// No two records have the same id.
pub open spec fn own_ids(records: Seq<RecordItem>) -> bool {
    forall|i: int, j: int|
        0 <= i < j < records.len() ==> (#[trigger] records[i]).id@ != (#[trigger] records[j]).id@
}

proof fn lemma_names(people: Seq<ActorRef>, name: Seq<char>)
    ensures
        rank::names_of(people).contains(name) <==> somebody_is(people, name),
{
    let names = rank::names_of(people);
    if names.contains(name) {
        let k = choose|k: int| 0 <= k < names.len() && names[k] == name;
        assert(normalize::normal(people[k].name@) == name);
    }
    if somebody_is(people, name) {
        let k = choose|k: int|
            0 <= k < people.len() && normalize::normal((#[trigger] people[k]).name@) == name;
        assert(names[k] == name);
    }
}

proof fn lemma_main_names(r: RecordItem, name: Seq<char>)
    ensures
        rank::main_names(r).contains(name) <==> name.len() > 0 && is_main_person(r, name),
{
    let p = |s: Seq<char>| s.len() > 0;
    let names = rank::names_of(r.actors@);
    let all = names.push(normalize::normal(r.actor.name@));
    lemma_names(r.actors@, name);
    lists::distinct_items_are_those_of_the_list(strs::filled(all), name);
    lists::keeping_keeps_what_is_accepted(all, p, name);
    if all.contains(name) {
        let k = choose|k: int| 0 <= k < all.len() && all[k] == name;
        if k < names.len() {
            assert(names[k] == name);
        }
    }
    if names.contains(name) {
        let k = choose|k: int| 0 <= k < names.len() && names[k] == name;
        assert(all[k] == name);
    }
    assert(all[names.len() as int] == normalize::normal(r.actor.name@));
}

proof fn lemma_case_names(c: CaseItem, name: Seq<char>)
    ensures
        rank::case_names(c).contains(name) <==> name.len() > 0 && somebody_is(c.actors@, name),
{
    lemma_names(c.actors@, name);
    lists::keeping_keeps_what_is_accepted(
        rank::names_of(c.actors@),
        |s: Seq<char>| s.len() > 0,
        name,
    );
}

/// What a record and a case have in common, told by their names: a main person of the record
/// counts where the case has somebody of that name, another person where none of the main people
/// has it.
pub proof fn hits_are_people_of_the_case(r: RecordItem, c: CaseItem)
    ensures
        rank::actor_hits(r, c) > 0 <==> exists|k: int|
            #![trigger c.actors@[k]]
            0 <= k < c.actors@.len() && normalize::normal(c.actors@[k].name@).len() > 0
                && is_main_person(r, normalize::normal(c.actors@[k].name@)),
        rank::related_hits(r, c) > 0 <==> exists|k: int|
            #![trigger r.related@[k]]
            0 <= k < r.related@.len() && normalize::normal(r.related@[k].name@).len() > 0
                && somebody_is(c.actors@, normalize::normal(r.related@[k].name@))
                && !is_main_person(r, normalize::normal(r.related@[k].name@)),
        rank::has_main_actor(r, c) <==> names_the_first_person(r, c),
        rank::actor_hits(r, c) > 0 || rank::related_hits(r, c) > 0 <==> names_a_person(r, c),
{
    let mains = rank::main_names(r);
    let p = |n: Seq<char>| rank::case_names(c).contains(n);
    lists::counting_finds_what_is_accepted(mains, p);
    let others = rank::names_of(r.related@);
    let q = |n: Seq<char>|
        n.len() > 0 && !rank::main_names(r).contains(n) && rank::case_names(c).contains(n);
    lists::counting_finds_what_is_accepted(others, q);
    if rank::actor_hits(r, c) > 0 {
        let i = choose|i: int| 0 <= i < mains.len() && p(#[trigger] mains[i]);
        let name = mains[i];
        assert(mains.contains(name));
        lemma_main_names(r, name);
        lemma_case_names(c, name);
        let k = choose|k: int|
            0 <= k < c.actors@.len() && normalize::normal((#[trigger] c.actors@[k]).name@) == name;
        assert(normalize::normal(c.actors@[k].name@).len() > 0);
        assert(names_person_at(r, c, k));
    }
    if rank::related_hits(r, c) > 0 {
        let i = choose|i: int| 0 <= i < others.len() && q(#[trigger] others[i]);
        let name = others[i];
        lemma_main_names(r, name);
        lemma_case_names(c, name);
        let k = choose|k: int|
            0 <= k < c.actors@.len() && normalize::normal((#[trigger] c.actors@[k]).name@) == name;
        assert(normalize::normal(r.related@[i].name@) == name);
        assert(names_person_at(r, c, k));
    }
    assert forall|k: int|
        #![trigger c.actors@[k]]
        0 <= k < c.actors@.len() && normalize::normal(c.actors@[k].name@).len() > 0
            && is_main_person(r, normalize::normal(c.actors@[k].name@)) implies rank::actor_hits(
        r,
        c,
    ) > 0 by {
        let name = normalize::normal(c.actors@[k].name@);
        assert(somebody_is(c.actors@, name));
        lemma_main_names(r, name);
        lemma_case_names(c, name);
        let i = choose|i: int| 0 <= i < mains.len() && mains[i] == name;
        assert(p(mains[i]));
    }
    assert forall|k: int|
        #![trigger r.related@[k]]
        0 <= k < r.related@.len() && normalize::normal(r.related@[k].name@).len() > 0
            && somebody_is(c.actors@, normalize::normal(r.related@[k].name@)) && !is_main_person(
            r,
            normalize::normal(r.related@[k].name@),
        ) implies rank::related_hits(r, c) > 0 by {
        let name = normalize::normal(r.related@[k].name@);
        lemma_main_names(r, name);
        lemma_case_names(c, name);
        assert(others[k] == name);
        assert(q(others[k]));
    }
    if names_a_person(r, c) {
        let k = choose|k: int| names_person_at(r, c, k);
        let name = normalize::normal(c.actors@[k].name@);
        assert(somebody_is(c.actors@, name));
        if is_main_person(r, name) {
            assert(rank::actor_hits(r, c) > 0);
        } else {
            let m = choose|m: int|
                0 <= m < r.related@.len() && normalize::normal((#[trigger] r.related@[m]).name@)
                    == name;
            assert(rank::related_hits(r, c) > 0);
        }
    }
    if c.actors@.len() > 0 {
        lemma_main_names(r, normalize::normal(c.actors@[0].name@));
    }
}

proof fn lemma_belongs(r: RecordItem, c: CaseItem, score: RecordScore)
    ensures
        belongs(r, c, score) <==> rank::in_time(r, c) && (rank::has_main_actor(r, c)
            || rank::passes(r, c, score)),
        rank::in_time(r, c) <==> while_the_case_lasts(r, c),
        rank::has_main_actor(r, c) <==> names_the_first_person(r, c),
{
    hits_are_people_of_the_case(r, c);
    text::lemma_before_is_total_order(r.ts@, c.time_from@, r.ts@);
    text::lemma_before_is_total_order(c.time_to@, r.ts@, c.time_to@);
}

proof fn lemma_all_entries(
    records: Seq<RecordItem>,
    c: CaseItem,
    scores: Seq<RecordScore>,
    n: nat,
    i: int,
)
    requires
        0 <= i < n <= records.len(),
    ensures
        rank::in_time(records[i], c) && rank::has_main_actor(records[i], c)
            ==> rank::main_entries(records, c, scores, n).contains(
            rank::entry_at(records, scores, i),
        ),
        rank::in_time(records[i], c) && !rank::has_main_actor(records[i], c) && rank::passes(
            records[i],
            c,
            scores[i],
        ) ==> rank::other_entries(records, c, scores, n).contains(
            rank::entry_at(records, scores, i),
        ),
    decreases n,
{
    let e = rank::entry_at(records, scores, i);
    let m = (n - 1) as nat;
    let mains = rank::main_entries(records, c, scores, m);
    let others = rank::other_entries(records, c, scores, m);
    let all_mains = rank::main_entries(records, c, scores, n);
    let all_others = rank::other_entries(records, c, scores, n);
    if i < m {
        lemma_all_entries(records, c, scores, m, i);
        if mains.contains(e) {
            let k = choose|k: int| 0 <= k < mains.len() && mains[k] == e;
            assert(all_mains[k] == e);
        }
        if others.contains(e) {
            let k = choose|k: int| 0 <= k < others.len() && others[k] == e;
            assert(all_others[k] == e);
        }
    } else {
        if all_mains.len() > mains.len() {
            assert(all_mains[mains.len() as int] == e);
        }
        if all_others.len() > others.len() {
            assert(all_others[others.len() as int] == e);
        }
    }
}

/// Every record that is listed belongs to the case, and is listed once.
pub proof fn listed_records_belong_to_the_case(
    records: Seq<RecordItem>,
    c: CaseItem,
    scores: Seq<RecordScore>,
    max_results: Option<u32>,
)
    ensures
        ({
            let listed = rank::ranking(records, c, scores, max_results);
            &&& forall|j: int|
                0 <= j < listed.len() ==> {
                    let e = #[trigger] listed[j];
                    &&& 0 <= e.record < records.len()
                    &&& e.id == records[e.record].id@
                    &&& belongs(records[e.record], c, scores[e.record])
                }
            &&& forall|i: int, j: int|
                0 <= i < j < listed.len() ==> (#[trigger] listed[i]).record != (
                #[trigger] listed[j]).record
        }),
{
    rank::ranking_lists_main_records_first(records, c, scores, max_results);
    let listed = rank::ranking(records, c, scores, max_results);
    let m = choose|m: int|
        #![trigger listed.take(m)]
        {
            &&& 0 <= m <= listed.len()
            &&& sorting::in_order::<MainHit>(listed.take(m))
            &&& forall|j: int|
                0 <= j < m ==> rank::is_main_entry(records, c, scores, #[trigger] listed[j])
            &&& forall|j: int|
                m <= j < listed.len() ==> rank::is_other_entry(
                    records,
                    c,
                    scores,
                    #[trigger] listed[j],
                )
            &&& forall|i: int, j: int|
                0 <= i < j && m <= j < listed.len() ==> (#[trigger] listed[i]).id != (
                #[trigger] listed[j]).id
        };
    assert forall|j: int| 0 <= j < listed.len() implies {
        let e = #[trigger] listed[j];
        &&& 0 <= e.record < records.len()
        &&& e.id == records[e.record].id@
        &&& belongs(records[e.record], c, scores[e.record])
    } by {
        let e = listed[j];
        if j < m {
            assert(rank::is_main_entry(records, c, scores, e));
        } else {
            assert(rank::is_other_entry(records, c, scores, e));
        }
        lemma_belongs(records[e.record], c, scores[e.record]);
    }
    let n = records.len();
    let mains = rank::main_entries(records, c, scores, n);
    let sorted_mains = sorting::sorted::<MainHit>(mains);
    rank::lemma_orders();
    sorting::sorting_permutes_into_order::<MainHit>(mains);
    lemma_entries_once(records, c, scores, n);
    lemma_sorted_once(mains, sorted_mains);
    let k = rank::limit_of(max_results, c);
    let head = rank::head_of(sorted_mains, k);
    lemma_added_after(
        head,
        rank::head_of(
            sorting::sorted::<OtherHit>(rank::other_entries(records, c, scores, n)),
            k - head.len(),
        ),
    );
    assert forall|i: int, j: int| 0 <= i < j < listed.len() implies (#[trigger] listed[i]).record
        != (#[trigger] listed[j]).record by {
        if listed[i].record == listed[j].record {
            assert(listed[i].id == listed[j].id);
            assert(j < m);
            assert(rank::is_main_entry(records, c, scores, listed[i]));
            assert(rank::is_main_entry(records, c, scores, listed[j]));
            assert(listed[i] == listed[j]);
            if j < head.len() {
                assert(listed[i] == sorted_mains[i] && listed[j] == sorted_mains[j]);
            } else {
                // What stands behind the first entries has an id of its own.
                assert(listed[i].id != listed[j].id);
            }
        }
    }
}

proof fn lemma_added_after(list: Seq<Entry>, extra: Seq<Entry>)
    ensures
        ({
            let all = rank::add_missing(list, extra);
            &&& list.len() <= all.len() <= list.len() + extra.len()
            &&& forall|j: int| 0 <= j < list.len() ==> #[trigger] all[j] == list[j]
            &&& forall|j: int|
                list.len() <= j < all.len() ==> extra.contains(#[trigger] all[j])
            &&& forall|i: int, j: int|
                0 <= i < j && list.len() <= j < all.len() ==> (#[trigger] all[i]).id != (
                #[trigger] all[j]).id
            &&& forall|j: int| 0 <= j < extra.len() ==> id_is_listed(all, (#[trigger] extra[j]).id)
        }),
    decreases extra.len(),
{
    if extra.len() > 0 {
        let t = extra.drop_last();
        lemma_added_after(list, t);
        let before = rank::add_missing(list, t);
        let all = rank::add_missing(list, extra);
        assert forall|j: int| list.len() <= j < all.len() implies extra.contains(
            #[trigger] all[j],
        ) by {
            if j < before.len() {
                assert(all[j] == before[j]);
                let k = choose|k: int| 0 <= k < t.len() && t[k] == before[j];
                assert(extra[k] == all[j]);
            } else {
                assert(extra[extra.len() - 1] == all[j]);
            }
        }
        assert forall|i: int, j: int| 0 <= i < j && list.len() <= j < all.len() implies (
        #[trigger] all[i]).id != (#[trigger] all[j]).id by {
            assert(all[i] == before[i]);
            if j < before.len() {
                assert(all[j] == before[j]);
            }
        }
        assert forall|j: int| 0 <= j < extra.len() implies id_is_listed(
            all,
            (#[trigger] extra[j]).id,
        ) by {
            if j < t.len() {
                assert(t[j] == extra[j]);
                let k = choose|k: int| 0 <= k < before.len() && (#[trigger] before[k]).id
                    == extra[j].id;
                assert(all[k].id == extra[j].id);
            } else if rank::has_id(before, extra.last().id) {
                let k = choose|k: int| 0 <= k < before.len() && (#[trigger] before[k]).id
                    == extra.last().id;
                assert(all[k].id == extra[j].id);
            } else {
                assert(all[before.len() as int].id == extra[j].id);
            }
        }
    }
}

proof fn lemma_all_added(list: Seq<Entry>, extra: Seq<Entry>)
    requires
        forall|i: int, j: int|
            0 <= i < j < extra.len() ==> (#[trigger] extra[i]).id != (#[trigger] extra[j]).id,
        forall|i: int, j: int|
            0 <= i < list.len() && 0 <= j < extra.len() ==> (#[trigger] list[i]).id != (
            #[trigger] extra[j]).id,
    ensures
        rank::add_missing(list, extra) == list + extra,
    decreases extra.len(),
{
    if extra.len() > 0 {
        let t = extra.drop_last();
        assert forall|i: int, j: int| 0 <= i < j < t.len() implies (#[trigger] t[i]).id != (
        #[trigger] t[j]).id by {
            assert(t[i] == extra[i] && t[j] == extra[j]);
        }
        assert forall|i: int, j: int| 0 <= i < list.len() && 0 <= j < t.len() implies (
        #[trigger] list[i]).id != (#[trigger] t[j]).id by {
            assert(t[j] == extra[j]);
        }
        lemma_all_added(list, t);
        let head = list + t;
        let last = extra[extra.len() - 1];
        assert forall|i: int| 0 <= i < head.len() implies (#[trigger] head[i]).id != last.id by {
            if i < list.len() {
                assert(head[i] == list[i]);
            } else {
                assert(head[i] == extra[i - list.len()]);
            }
        }
        assert(head.push(last) =~= list + extra);
    } else {
        assert(list + extra =~= list);
    }
}

/// The entries stand in the order of their records.
proof fn lemma_entries_once(
    records: Seq<RecordItem>,
    c: CaseItem,
    scores: Seq<RecordScore>,
    n: nat,
)
    requires
        n <= records.len(),
    ensures
        forall|i: int, j: int|
            0 <= i < j < rank::main_entries(records, c, scores, n).len() ==> (
            #[trigger] rank::main_entries(records, c, scores, n)[i]).record < (
            #[trigger] rank::main_entries(records, c, scores, n)[j]).record,
        forall|j: int|
            0 <= j < rank::main_entries(records, c, scores, n).len() ==> {
                let e = #[trigger] rank::main_entries(records, c, scores, n)[j];
                0 <= e.record < n && rank::is_main_entry(records, c, scores, e)
            },
        forall|i: int, j: int|
            0 <= i < j < rank::other_entries(records, c, scores, n).len() ==> (
            #[trigger] rank::other_entries(records, c, scores, n)[i]).record < (
            #[trigger] rank::other_entries(records, c, scores, n)[j]).record,
        forall|j: int|
            0 <= j < rank::other_entries(records, c, scores, n).len() ==> {
                let e = #[trigger] rank::other_entries(records, c, scores, n)[j];
                0 <= e.record < n && rank::is_other_entry(records, c, scores, e)
            },
    decreases n,
{
    if n > 0 {
        let i = (n - 1) as nat;
        lemma_entries_once(records, c, scores, i);
        let mains = rank::main_entries(records, c, scores, i);
        let all_mains = rank::main_entries(records, c, scores, n);
        let others = rank::other_entries(records, c, scores, i);
        let all_others = rank::other_entries(records, c, scores, n);
        assert forall|a: int, b: int| 0 <= a < b < all_mains.len() implies (
        #[trigger] all_mains[a]).record < (#[trigger] all_mains[b]).record by {
            assert(all_mains[a] == mains[a]);
            if b < mains.len() {
                assert(all_mains[b] == mains[b]);
            }
        }
        assert forall|a: int, b: int| 0 <= a < b < all_others.len() implies (
        #[trigger] all_others[a]).record < (#[trigger] all_others[b]).record by {
            assert(all_others[a] == others[a]);
            if b < others.len() {
                assert(all_others[b] == others[b]);
            }
        }
        assert forall|j: int| 0 <= j < all_mains.len() implies {
            let e = #[trigger] all_mains[j];
            0 <= e.record < n && rank::is_main_entry(records, c, scores, e)
        } by {
            if j < mains.len() {
                assert(all_mains[j] == mains[j]);
            }
        }
        assert forall|j: int| 0 <= j < all_others.len() implies {
            let e = #[trigger] all_others[j];
            0 <= e.record < n && rank::is_other_entry(records, c, scores, e)
        } by {
            if j < others.len() {
                assert(all_others[j] == others[j]);
            }
        }
    }
}

proof fn lemma_sorted_once(s: Seq<Entry>, t: Seq<Entry>)
    requires
        s.to_multiset() == t.to_multiset(),
        forall|i: int, j: int|
            0 <= i < j < s.len() ==> (#[trigger] s[i]).record < (#[trigger] s[j]).record,
    ensures
        forall|i: int, j: int| 0 <= i < j < t.len() ==> #[trigger] t[i] != #[trigger] t[j],
        forall|x: Entry| #[trigger] s.contains(x) <==> t.contains(x),
{
    broadcast use vstd::seq_lib::group_to_multiset_ensures;

    assert(s.no_duplicates());
    s.lemma_multiset_has_no_duplicates();
    t.lemma_multiset_has_no_duplicates_conv();
    assert forall|x: Entry| #[trigger] s.contains(x) <==> t.contains(x) by {
        assert(s.to_multiset().contains(x) <==> s.contains(x));
        assert(t.to_multiset().contains(x) <==> t.contains(x));
    }
}

/// A record that belongs to the case is listed where the limit leaves room. Where it is not, the
/// limit is reached, and every record that is listed comes before it.
pub proof fn a_record_of_the_case_is_listed_or_others_come_first(
    records: Seq<RecordItem>,
    c: CaseItem,
    scores: Seq<RecordScore>,
    max_results: Option<u32>,
    i: int,
)
    requires
        own_ids(records),
        0 <= i < records.len(),
        belongs(records[i], c, scores[i]),
    ensures
        ({
            let listed = rank::ranking(records, c, scores, max_results);
            is_listed(listed, i) || {
                &&& listed.len() == rank::limit_of(max_results, c)
                &&& forall|j: int|
                    0 <= j < listed.len() ==> comes_first(
                        records,
                        c,
                        scores,
                        (#[trigger] listed[j]).record,
                        i,
                    )
            }
        }),
{
    let n = records.len();
    let k = rank::limit_of(max_results, c);
    let mains = rank::main_entries(records, c, scores, n);
    let others = rank::other_entries(records, c, scores, n);
    let sorted_mains = sorting::sorted::<MainHit>(mains);
    let sorted_others = sorting::sorted::<OtherHit>(others);
    rank::lemma_orders();
    sorting::sorting_permutes_into_order::<MainHit>(mains);
    sorting::sorting_permutes_into_order::<OtherHit>(others);
    lemma_entries_once(records, c, scores, n);
    lemma_sorted_once(mains, sorted_mains);
    lemma_sorted_once(others, sorted_others);
    lemma_belongs(records[i], c, scores[i]);
    lemma_all_entries(records, c, scores, n, i);
    let head = rank::head_of(sorted_mains, k);
    let extra = rank::head_of(sorted_others, k - head.len());
    let listed = rank::ranking(records, c, scores, max_results);
    let e = rank::entry_at(records, scores, i);
    assert forall|j: int| 0 <= j < sorted_mains.len() implies rank::is_main_entry(
        records,
        c,
        scores,
        #[trigger] sorted_mains[j],
    ) by {
        assert(mains.contains(sorted_mains[j]));
    }
    assert forall|j: int| 0 <= j < sorted_others.len() implies rank::is_other_entry(
        records,
        c,
        scores,
        #[trigger] sorted_others[j],
    ) by {
        assert(others.contains(sorted_others[j]));
    }
    assert forall|a: int, b: int| 0 <= a < b < extra.len() implies (#[trigger] extra[a]).id != (
    #[trigger] extra[b]).id by {
        assert(extra[a] == sorted_others[a] && extra[b] == sorted_others[b]);
        lemma_ids_differ(records, scores, sorted_others[a], sorted_others[b]);
    }
    assert forall|a: int, b: int| 0 <= a < head.len() && 0 <= b < extra.len() implies (
    #[trigger] head[a]).id != (#[trigger] extra[b]).id by {
        assert(head[a] == sorted_mains[a] && extra[b] == sorted_others[b]);
        assert(rank::is_main_entry(records, c, scores, head[a]));
        assert(rank::is_other_entry(records, c, scores, extra[b]));
        lemma_ids_differ(records, scores, head[a], extra[b]);
    }
    lemma_all_added(head, extra);
    assert(listed == head + extra);
    if rank::has_main_actor(records[i], c) {
        assert(sorted_mains.contains(e));
        let p = choose|p: int| 0 <= p < sorted_mains.len() && sorted_mains[p] == e;
        if p < head.len() {
            assert(listed[p] == e);
        } else {
            assert(extra.len() == 0);
            assert forall|j: int| 0 <= j < listed.len() implies comes_first(
                records,
                c,
                scores,
                (#[trigger] listed[j]).record,
                i,
            ) by {
                assert(listed[j] == sorted_mains[j]);
                assert(!MainHit::after(sorted_mains[j], sorted_mains[p]));
                let x = sorted_mains[j].record;
                lemma_belongs(records[x], c, scores[x]);
                text::lemma_before_is_total_order(records[x].ts@, records[i].ts@, records[x].ts@);
                text::lemma_before_is_total_order(records[x].id@, records[i].id@, records[x].id@);
            }
        }
    } else {
        assert(sorted_others.contains(e));
        let p = choose|p: int| 0 <= p < sorted_others.len() && sorted_others[p] == e;
        if p < extra.len() {
            assert(extra[p] == e);
            assert(listed[head.len() + p] == e);
        } else {
            assert forall|j: int| 0 <= j < listed.len() implies comes_first(
                records,
                c,
                scores,
                (#[trigger] listed[j]).record,
                i,
            ) by {
                if j < head.len() {
                    assert(listed[j] == sorted_mains[j]);
                    let x = sorted_mains[j].record;
                    lemma_belongs(records[x], c, scores[x]);
                } else {
                    let q = j - head.len();
                    assert(listed[j] == sorted_others[q]);
                    assert(!OtherHit::after(sorted_others[q], sorted_others[p]));
                    let x = sorted_others[q].record;
                    lemma_belongs(records[x], c, scores[x]);
                    text::lemma_before_is_total_order(
                        records[x].ts@,
                        records[i].ts@,
                        records[x].ts@,
                    );
                    text::lemma_before_is_total_order(
                        records[x].id@,
                        records[i].id@,
                        records[x].id@,
                    );
                }
            }
        }
    }
}

proof fn lemma_ids_differ(records: Seq<RecordItem>, scores: Seq<RecordScore>, a: Entry, b: Entry)
    requires
        own_ids(records),
        0 <= a.record < records.len(),
        0 <= b.record < records.len(),
        a == rank::entry_at(records, scores, a.record),
        b == rank::entry_at(records, scores, b.record),
        a != b,
    ensures
        a.id != b.id,
{
    if a.record < b.record {
        assert(records[a.record].id@ != records[b.record].id@);
    } else if b.record < a.record {
        assert(records[b.record].id@ != records[a.record].id@);
    }
}

/// Where the limit leaves room for all records, the id of every record that belongs to the case is
/// listed.
pub proof fn every_record_of_the_case_is_listed_where_there_is_room(
    records: Seq<RecordItem>,
    c: CaseItem,
    scores: Seq<RecordScore>,
    max_results: Option<u32>,
    i: int,
)
    requires
        0 <= i < records.len() <= rank::limit_of(max_results, c),
        belongs(records[i], c, scores[i]),
    ensures
        id_is_listed(rank::ranking(records, c, scores, max_results), records[i].id@),
{
    let n = records.len();
    let k = rank::limit_of(max_results, c);
    let mains = rank::main_entries(records, c, scores, n);
    let others = rank::other_entries(records, c, scores, n);
    let sorted_mains = sorting::sorted::<MainHit>(mains);
    let sorted_others = sorting::sorted::<OtherHit>(others);
    rank::lemma_orders();
    sorting::sorting_permutes_into_order::<MainHit>(mains);
    sorting::sorting_permutes_into_order::<OtherHit>(others);
    lemma_entries_once(records, c, scores, n);
    lemma_sorted_once(mains, sorted_mains);
    lemma_sorted_once(others, sorted_others);
    lemma_belongs(records[i], c, scores[i]);
    lemma_all_entries(records, c, scores, n, i);
    lemma_no_more_than_records(records, c, scores, n);
    let head = rank::head_of(sorted_mains, k);
    let extra = rank::head_of(sorted_others, k - head.len());
    let listed = rank::ranking(records, c, scores, max_results);
    let e = rank::entry_at(records, scores, i);
    lemma_added_after(head, extra);
    if rank::has_main_actor(records[i], c) {
        assert(sorted_mains.contains(e));
        let p = choose|p: int| 0 <= p < sorted_mains.len() && sorted_mains[p] == e;
        assert(listed[p].id == records[i].id@);
    } else {
        assert(sorted_others.contains(e));
        let p = choose|p: int| 0 <= p < sorted_others.len() && sorted_others[p] == e;
        assert(id_is_listed(listed, extra[p].id));
    }
}

proof fn lemma_no_more_than_records(
    records: Seq<RecordItem>,
    c: CaseItem,
    scores: Seq<RecordScore>,
    n: nat,
)
    ensures
        rank::main_entries(records, c, scores, n).len() + rank::other_entries(
            records,
            c,
            scores,
            n,
        ).len() <= n,
    decreases n,
{
    if n > 0 {
        lemma_no_more_than_records(records, c, scores, (n - 1) as nat);
    }
}

/// Of two records that are listed, the one that is listed first comes first.
pub proof fn listed_records_stand_in_order(
    records: Seq<RecordItem>,
    c: CaseItem,
    scores: Seq<RecordScore>,
    max_results: Option<u32>,
    i: int,
    j: int,
)
    requires
        0 <= i < j < rank::ranking(records, c, scores, max_results).len(),
    ensures
        ({
            let listed = rank::ranking(records, c, scores, max_results);
            comes_first(records, c, scores, listed[i].record, listed[j].record)
        }),
{
    let n = records.len();
    let k = rank::limit_of(max_results, c);
    let mains = rank::main_entries(records, c, scores, n);
    let others = rank::other_entries(records, c, scores, n);
    let sorted_mains = sorting::sorted::<MainHit>(mains);
    let sorted_others = sorting::sorted::<OtherHit>(others);
    rank::lemma_orders();
    sorting::sorting_permutes_into_order::<MainHit>(mains);
    sorting::sorting_permutes_into_order::<OtherHit>(others);
    lemma_entries_once(records, c, scores, n);
    lemma_sorted_once(mains, sorted_mains);
    lemma_sorted_once(others, sorted_others);
    let head = rank::head_of(sorted_mains, k);
    let extra = rank::head_of(sorted_others, k - head.len());
    let listed = rank::ranking(records, c, scores, max_results);
    lemma_added_after(head, extra);
    lemma_added_in_order(head, extra);
    let a = listed[i].record;
    let b = listed[j].record;
    if j < head.len() {
        assert(listed[i] == sorted_mains[i] && listed[j] == sorted_mains[j]);
        assert(mains.contains(sorted_mains[i]) && mains.contains(sorted_mains[j]));
        assert(!MainHit::after(sorted_mains[i], sorted_mains[j]));
    } else {
        assert(extra.contains(listed[j]));
        let q = choose|q: int| 0 <= q < extra.len() && extra[q] == listed[j];
        assert(extra[q] == sorted_others[q]);
        assert(others.contains(listed[j]));
        if i < head.len() {
            assert(listed[i] == sorted_mains[i]);
            assert(mains.contains(listed[i]));
        } else {
            assert(extra.contains(listed[i]));
            let p = choose|p: int| 0 <= p < extra.len() && extra[p] == listed[i];
            assert(extra[p] == sorted_others[p]);
            assert(others.contains(listed[i]));
            assert(!OtherHit::after(listed[i], listed[j]));
        }
    }
    lemma_belongs(records[a], c, scores[a]);
    lemma_belongs(records[b], c, scores[b]);
    text::lemma_before_is_total_order(records[a].ts@, records[b].ts@, records[a].ts@);
    text::lemma_before_is_total_order(records[a].id@, records[b].id@, records[a].id@);
}

proof fn lemma_added_in_order(list: Seq<Entry>, extra: Seq<Entry>)
    requires
        sorting::in_order::<OtherHit>(extra),
    ensures
        ({
            let all = rank::add_missing(list, extra);
            forall|i: int, j: int|
                list.len() <= i < j < all.len() ==> !OtherHit::after(
                    #[trigger] all[i],
                    #[trigger] all[j],
                )
        }),
    decreases extra.len(),
{
    if extra.len() > 0 {
        let t = extra.drop_last();
        assert forall|i: int, j: int| 0 <= i < j < t.len() implies !OtherHit::after(
            #[trigger] t[i],
            #[trigger] t[j],
        ) by {
            assert(t[i] == extra[i] && t[j] == extra[j]);
        }
        lemma_added_in_order(list, t);
        lemma_added_after(list, t);
        let before = rank::add_missing(list, t);
        let all = rank::add_missing(list, extra);
        assert forall|i: int, j: int| list.len() <= i < j < all.len() implies !OtherHit::after(
            #[trigger] all[i],
            #[trigger] all[j],
        ) by {
            assert(all[i] == before[i]);
            if j < before.len() {
                assert(all[j] == before[j]);
            } else {
                assert(t.contains(before[i]));
                let k = choose|k: int| 0 <= k < t.len() && t[k] == before[i];
                assert(extra[k] == all[i] && extra[extra.len() - 1] == all[j]);
            }
        }
    }
}

/// The caller's number of records goes before that of the case, and 80 where neither has one; no
/// list is to be empty or longer than 400, and a number in between is taken as it is.
pub proof fn the_limit_is_what_was_asked_for(max_results: Option<u32>, c: CaseItem, n: u32)
    ensures
        ({
            let limit = rank::limit_of(max_results, c);
            &&& max_results == Some(n) && 1 <= n <= 400 ==> limit == n
            &&& max_results is None && c.max_results == Some(n) && 1 <= n <= 400 ==> limit == n
            &&& max_results is None && c.max_results is None ==> limit == 80
            &&& max_results == Some(n) && n > 400 ==> limit == 400
            &&& max_results is None && c.max_results == Some(n) && n > 400 ==> limit == 400
            &&& max_results == Some(0u32) ==> limit == 1
            &&& max_results is None && c.max_results == Some(0u32) ==> limit == 1
        }),
{
}

/// The reasons name each thing that a record and a case have in common, and nothing else.
pub proof fn reasons_name_what_is_shared(comp: RankedComponents)
    ensures
        ({
            let reasons = rank::reasons_of(comp);
            let main = if comp.is_main_actor { 1int } else { 0 };
            let actors = if comp.actor_hits > 0 { 1int } else { 0 };
            let related = if comp.related_hits > 0 { 1int } else { 0 };
            let words = if comp.q_total > 0 { 1int } else { 0 };
            let time = if comp.in_range is Some { 1int } else { 0 };
            &&& reasons.len() == 1 + main + actors + related + words + time
            &&& reasons[0] == "자동(랭킹)"@
            &&& comp.is_main_actor ==> reasons[1] == "주요 당사자 포함"@
            &&& comp.actor_hits > 0 ==> reasons[1 + main] == "주체 일치 "@ + strs::decimal(
                comp.actor_hits as nat,
            ) + "명"@
            &&& comp.related_hits > 0 ==> reasons[1 + main + actors] == "관련자 일치 "@
                + strs::decimal(comp.related_hits as nat) + "명"@
            &&& comp.q_total > 0 ==> reasons[1 + main + actors + related] == "키워드 "@
                + strs::decimal(comp.q_hit as nat) + "/"@ + strs::decimal(comp.q_total as nat)
            &&& comp.in_range == Some(true) ==> reasons[reasons.len() - 1] == "기간 내"@
            &&& comp.in_range == Some(false) ==> reasons[reasons.len() - 1] == "기간 밖"@
        }),
{
}

} // verus!
