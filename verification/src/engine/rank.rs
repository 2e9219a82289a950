//! Which records belong to a case, and in what order. The scores are weighted sums that the
//! caller computes of the counts found here; the order goes by integers that rank them.

use crate::engine::normalize;
use crate::engine::normalize::{norm, text_similarity_stats, tokenize, within_range};
use crate::engine::records::{ActorRef, CaseItem, RecordItem};
use crate::sorting;
use crate::sorting::{stable_sort, Ordered};
use crate::strs;
use crate::text;
use vstd::prelude::*;

verus! {

/// What a record and a case have in common.
#[derive(Debug, Clone, Copy, PartialEq, Eq, Structural)]
pub struct RankedComponents {
    pub q_hit: usize,
    pub q_total: usize,
    pub actor_match: bool,
    pub actor_hits: usize,
    pub is_main_actor: bool,
    pub related_hits: usize,
    pub in_range: Option<bool>,
}

/// The score of a record: its place among the scores (a higher score has a higher key), and
/// whether it reaches the two thresholds.
#[derive(Debug, Clone, Copy, PartialEq, Eq, Structural)]
pub struct RecordScore {
    pub key: i64,
    pub text_passes: bool,
    pub score_passes: bool,
}

/// A record that belongs to a case.
#[derive(Debug)]
pub struct RankedHit {
    pub id: String,
    /// The position of the record in the list.
    pub record: usize,
    pub rank: u32,
    pub reasons: Vec<String>,
    pub components: RankedComponents,
}

/// The names of people, in their normal form.
pub open spec fn names_of(actors: Seq<ActorRef>) -> Seq<Seq<char>> {
    actors.map_values(|a: ActorRef| normalize::normal(a.name@))
}

/// The main people of a record, each once.
pub open spec fn main_names(r: RecordItem) -> Seq<Seq<char>> {
    strs::distinct(strs::filled(names_of(r.actors@).push(normalize::normal(r.actor.name@))))
}

/// The people of a case.
pub open spec fn case_names(c: CaseItem) -> Seq<Seq<char>> {
    strs::filled(names_of(c.actors@))
}

/// The first person of a case.
pub open spec fn leading_name(c: CaseItem) -> Option<Seq<char>> {
    if c.actors@.len() > 0 && normalize::normal(c.actors@[0].name@).len() > 0 {
        Some(normalize::normal(c.actors@[0].name@))
    } else {
        None
    }
}

/// The words that a case asks for.
pub open spec fn query_tokens(c: CaseItem) -> Seq<Seq<char>> {
    if strs::trim(c.query@).len() == 0 {
        Seq::empty()
    } else {
        normalize::tokens(strs::trim(c.query@))
    }
}

/// The case bounds the time.
pub open spec fn has_range(c: CaseItem) -> bool {
    c.time_from@.len() > 0 || c.time_to@.len() > 0
}

/// The record lies in the time of the case.
pub open spec fn in_time(r: RecordItem, c: CaseItem) -> bool {
    !has_range(c) || normalize::in_range(r.ts@, c.time_from@, c.time_to@)
}

/// The number of main people of the record that belong to the case.
pub open spec fn actor_hits(r: RecordItem, c: CaseItem) -> nat {
    strs::count(main_names(r), |n: Seq<char>| case_names(c).contains(n))
}

/// The number of other people of the record that belong to the case.
pub open spec fn related_hits(r: RecordItem, c: CaseItem) -> nat {
    strs::count(
        names_of(r.related@),
        |n: Seq<char>| n.len() > 0 && !main_names(r).contains(n) && case_names(c).contains(n),
    )
}

/// The first person of the case is a main person of the record.
pub open spec fn has_main_actor(r: RecordItem, c: CaseItem) -> bool {
    match leading_name(c) {
        Some(name) => main_names(r).contains(name),
        None => false,
    }
}

/// `comp` says what the record and the case have in common.
pub open spec fn describes(comp: RankedComponents, r: RecordItem, c: CaseItem) -> bool {
    &&& comp.q_hit == normalize::hits_in(query_tokens(c), normalize::normal(r.summary@))
    &&& comp.q_total == query_tokens(c).len()
    &&& comp.actor_match == (actor_hits(r, c) > 0)
    &&& comp.actor_hits == actor_hits(r, c)
    &&& comp.is_main_actor == has_main_actor(r, c)
    &&& comp.related_hits == related_hits(r, c)
    &&& comp.in_range == if has_range(c) {
        Some(normalize::in_range(r.ts@, c.time_from@, c.time_to@))
    } else {
        None
    }
}

/// Why a record belongs to a case, in words.
pub open spec fn reasons_of(comp: RankedComponents) -> Seq<Seq<char>> {
    let a = seq!["자동(랭킹)"@];
    let b = if comp.is_main_actor {
        a.push("주요 당사자 포함"@)
    } else {
        a
    };
    let c = if comp.actor_hits > 0 {
        b.push("주체 일치 "@ + strs::decimal(comp.actor_hits as nat) + "명"@)
    } else {
        b
    };
    let d = if comp.related_hits > 0 {
        c.push("관련자 일치 "@ + strs::decimal(comp.related_hits as nat) + "명"@)
    } else {
        c
    };
    let e = if comp.q_total > 0 {
        d.push(
            "키워드 "@ + strs::decimal(comp.q_hit as nat) + "/"@ + strs::decimal(
                comp.q_total as nat,
            ),
        )
    } else {
        d
    };
    match comp.in_range {
        Some(inside) => e.push(
            if inside {
                "기간 내"@
            } else {
                "기간 밖"@
            },
        ),
        None => e,
    }
}

/// Why a record belongs to a case, in words.
pub fn rank_reasons(comp: &RankedComponents) -> (r: Vec<String>)
    ensures
        strs::views(r@) == reasons_of(*comp),
{
    let mut out = text::owned(&["자동(랭킹)"]);
    assert(strs::views(out@) =~= seq!["자동(랭킹)"@]);
    if comp.is_main_actor {
        text::push(&mut out, "주요 당사자 포함".to_owned());
    }
    if comp.actor_hits > 0 {
        let mut line = "주체 일치 ".to_owned();
        line.append(&text::decimal(comp.actor_hits as u64));
        line.append("명");
        text::push(&mut out, line);
    }
    if comp.related_hits > 0 {
        let mut line = "관련자 일치 ".to_owned();
        line.append(&text::decimal(comp.related_hits as u64));
        line.append("명");
        text::push(&mut out, line);
    }
    if comp.q_total > 0 {
        let mut line = "키워드 ".to_owned();
        line.append(&text::decimal(comp.q_hit as u64));
        line.append("/");
        line.append(&text::decimal(comp.q_total as u64));
        text::push(&mut out, line);
    }
    if let Some(inside) = comp.in_range {
        text::push(
            &mut out,
            if inside {
                "기간 내".to_owned()
            } else {
                "기간 밖".to_owned()
            },
        );
    }
    out
}

/// The names of people, in their normal form, without the empty ones.
fn filled_names(actors: &Vec<ActorRef>) -> (r: Vec<String>)
    ensures
        strs::views(r@) == strs::filled(names_of(actors@)),
{
    let ghost all = names_of(actors@);
    let ghost p = |s: Seq<char>| s.len() > 0;
    let mut out: Vec<String> = Vec::new();
    let mut i: usize = 0;
    assert(strs::views(out@) =~= strs::keep(all.take(0), p));
    while i < actors.len()
        invariant
            i <= actors@.len(),
            all == names_of(actors@),
            p == (|s: Seq<char>| s.len() > 0),
            strs::views(out@) == strs::keep(all.take(i as int), p),
        decreases actors@.len() - i,
    {
        assert(all.take(i + 1).drop_last() =~= all.take(i as int));
        let n = norm(&actors[i].name);
        if n.unicode_len() > 0 {
            text::push(&mut out, n);
        }
        i += 1;
    }
    assert(all.take(i as int) =~= all);
    out
}

/// The main people of a record, each once.
pub fn record_main_actor_names(r: &RecordItem) -> (names: Vec<String>)
    ensures
        strs::views(names@) == main_names(*r),
{
    let mut all = filled_names(&r.actors);
    let fallback = norm(&r.actor.name);
    let ghost listed = names_of(r.actors@).push(fallback@);
    assert(listed.drop_last() =~= names_of(r.actors@));
    if fallback.unicode_len() > 0 {
        text::push(&mut all, fallback);
    }
    assert(strs::views(all@) == strs::filled(listed));
    let ghost wanted = strs::views(all@);
    let mut out: Vec<String> = Vec::new();
    let mut i: usize = 0;
    assert(strs::views(out@) =~= strs::distinct(wanted.take(0)));
    while i < all.len()
        invariant
            i <= all@.len(),
            wanted == strs::views(all@),
            strs::views(out@) == strs::distinct(wanted.take(i as int)),
        decreases all@.len() - i,
    {
        assert(wanted.take(i + 1).drop_last() =~= wanted.take(i as int));
        text::push_new(&mut out, all[i].clone());
        i += 1;
    }
    assert(wanted.take(i as int) =~= wanted);
    out
}

/// What a record and a case have in common.
pub fn record_components(r: &RecordItem, case_item: &CaseItem) -> (comp: RankedComponents)
    ensures
        describes(comp, *r, *case_item),
{
    let query = text::trim(&case_item.query);
    let q_tokens: Vec<String> = if query.unicode_len() == 0 {
        Vec::new()
    } else {
        tokenize(&query)
    };
    assert(strs::views(q_tokens@) =~= query_tokens(*case_item));
    assert(strs::views(q_tokens@).len() == q_tokens@.len());
    let wanted = filled_names(&case_item.actors);
    let mains = record_main_actor_names(r);
    let ghost all = strs::views(mains@);
    let ghost p = |n: Seq<char>| case_names(*case_item).contains(n);
    let mut hits: usize = 0;
    let mut i: usize = 0;
    while i < mains.len()
        invariant
            i <= mains@.len(),
            hits <= i,
            all == strs::views(mains@),
            strs::views(wanted@) == case_names(*case_item),
            p == (|n: Seq<char>| case_names(*case_item).contains(n)),
            hits == strs::count(all.take(i as int), p),
        decreases mains@.len() - i,
    {
        assert(all.take(i + 1).drop_last() =~= all.take(i as int));
        if text::listed(&wanted, &mains[i]) {
            hits += 1;
        }
        i += 1;
    }
    assert(all.take(i as int) =~= all);
    let ghost others = names_of(r.related@);
    let ghost q = |n: Seq<char>|
        n.len() > 0 && !main_names(*r).contains(n) && case_names(*case_item).contains(n);
    let mut related: usize = 0;
    let mut j: usize = 0;
    while j < r.related.len()
        invariant
            j <= r.related@.len(),
            related <= j,
            others == names_of(r.related@),
            strs::views(mains@) == main_names(*r),
            strs::views(wanted@) == case_names(*case_item),
            q == (|n: Seq<char>|
                n.len() > 0 && !main_names(*r).contains(n) && case_names(*case_item).contains(n)),
            related == strs::count(others.take(j as int), q),
        decreases r.related@.len() - j,
    {
        assert(others.take(j + 1).drop_last() =~= others.take(j as int));
        let n = norm(&r.related[j].name);
        if n.unicode_len() > 0 && !text::listed(&mains, &n) && text::listed(&wanted, &n) {
            related += 1;
        }
        j += 1;
    }
    assert(others.take(j as int) =~= others);
    let is_main_actor = if case_item.actors.len() > 0 {
        let leading = norm(&case_item.actors[0].name);
        leading.unicode_len() > 0 && text::listed(&mains, &leading)
    } else {
        false
    };
    let (q_hit, q_total) = text_similarity_stats(&q_tokens, &r.summary);
    let in_range: Option<bool> = if case_item.time_from.as_str().unicode_len() > 0
        || case_item.time_to.as_str().unicode_len() > 0 {
        Some(within_range(&r.ts, &case_item.time_from, &case_item.time_to))
    } else {
        None
    };
    RankedComponents {
        q_hit,
        q_total,
        actor_match: hits > 0,
        actor_hits: hits,
        is_main_actor,
        related_hits: related,
        in_range,
    }
}

/// A record that may be listed.
#[derive(Debug)]
pub struct Hit {
    pub record: usize,
    pub id: String,
    pub ts: String,
    pub key: i64,
}

/// A record that may be listed, as the contracts see it.
#[verifier::ext_equal]
pub struct Entry {
    pub record: int,
    pub id: Seq<char>,
    pub ts: Seq<char>,
    pub key: int,
}

impl View for Hit {
    type V = Entry;

    open spec fn view(&self) -> Entry {
        Entry { record: self.record as int, id: self.id@, ts: self.ts@, key: self.key as int }
    }
}

/// A record with the main person of a case: ordered by time, the latest first, then by score,
/// then by id.
#[derive(Debug)]
pub struct MainHit(pub Hit);

impl View for MainHit {
    type V = Entry;

    open spec fn view(&self) -> Entry {
        self.0@
    }
}

impl Ordered for MainHit {
    open spec fn after(a: Entry, b: Entry) -> bool {
        ||| strs::before(a.ts, b.ts)
        ||| a.ts == b.ts && a.key < b.key
        ||| a.ts == b.ts && a.key == b.key && strs::before(b.id, a.id)
    }

    fn comes_after(&self, other: &Self) -> (r: bool) {
        if text::before(&self.0.ts, &other.0.ts) {
            true
        } else if !text::same(&self.0.ts, &other.0.ts) {
            false
        } else if self.0.key != other.0.key {
            self.0.key < other.0.key
        } else {
            text::before(&other.0.id, &self.0.id)
        }
    }
}

/// Another record of a case: ordered by score, the highest first, then by time, the latest
/// first, then by id.
#[derive(Debug)]
pub struct OtherHit(pub Hit);

impl View for OtherHit {
    type V = Entry;

    open spec fn view(&self) -> Entry {
        self.0@
    }
}

impl Ordered for OtherHit {
    open spec fn after(a: Entry, b: Entry) -> bool {
        ||| a.key < b.key
        ||| a.key == b.key && strs::before(a.ts, b.ts)
        ||| a.key == b.key && a.ts == b.ts && strs::before(b.id, a.id)
    }

    fn comes_after(&self, other: &Self) -> (r: bool) {
        if self.0.key != other.0.key {
            self.0.key < other.0.key
        } else if text::before(&self.0.ts, &other.0.ts) {
            true
        } else if !text::same(&self.0.ts, &other.0.ts) {
            false
        } else {
            text::before(&other.0.id, &self.0.id)
        }
    }
}

/// The entry of the record at position `i`.
pub open spec fn entry_at(records: Seq<RecordItem>, scores: Seq<RecordScore>, i: int) -> Entry {
    Entry { record: i, id: records[i].id@, ts: records[i].ts@, key: scores[i].key as int }
}

/// The record is listed though the main person of the case is not in it.
pub open spec fn passes(r: RecordItem, c: CaseItem, score: RecordScore) -> bool {
    &&& actor_hits(r, c) > 0 || related_hits(r, c) > 0 || (query_tokens(c).len() > 0
        && score.text_passes)
    &&& score.score_passes
}

/// The records in the time of the case that have its main person, among the first `n`.
pub open spec fn main_entries(
    records: Seq<RecordItem>,
    c: CaseItem,
    scores: Seq<RecordScore>,
    n: nat,
) -> Seq<Entry>
    decreases n,
{
    if n == 0 {
        Seq::empty()
    } else {
        let i = n - 1;
        let head = main_entries(records, c, scores, i as nat);
        if in_time(records[i], c) && has_main_actor(records[i], c) {
            head.push(entry_at(records, scores, i))
        } else {
            head
        }
    }
}

/// The other records in the time of the case that pass, among the first `n`.
pub open spec fn other_entries(
    records: Seq<RecordItem>,
    c: CaseItem,
    scores: Seq<RecordScore>,
    n: nat,
) -> Seq<Entry>
    decreases n,
{
    if n == 0 {
        Seq::empty()
    } else {
        let i = n - 1;
        let head = other_entries(records, c, scores, i as nat);
        if in_time(records[i], c) && !has_main_actor(records[i], c) && passes(
            records[i],
            c,
            scores[i],
        ) {
            head.push(entry_at(records, scores, i))
        } else {
            head
        }
    }
}

/// An entry with this id is listed.
pub open spec fn has_id(list: Seq<Entry>, id: Seq<char>) -> bool {
    exists|i: int| 0 <= i < list.len() && (#[trigger] list[i]).id == id
}

/// The list with the entries of another whose ids it does not have yet.
pub open spec fn add_missing(list: Seq<Entry>, extra: Seq<Entry>) -> Seq<Entry>
    decreases extra.len(),
{
    if extra.len() == 0 {
        list
    } else {
        let head = add_missing(list, extra.drop_last());
        if has_id(head, extra.last().id) {
            head
        } else {
            head.push(extra.last())
        }
    }
}

/// The first `n` entries.
pub open spec fn head_of(list: Seq<Entry>, n: int) -> Seq<Entry> {
    if list.len() <= n {
        list
    } else {
        list.take(n)
    }
}

/// The number of records that are listed at most: what was asked for, else what the case says,
/// else 80; from 1 to 400.
pub open spec fn limit_of(max_results: Option<u32>, c: CaseItem) -> int {
    let wanted = match max_results {
        Some(n) => n as int,
        None => match c.max_results {
            Some(n) => n as int,
            None => 80,
        },
    };
    if wanted < 1 {
        1
    } else if wanted > 400 {
        400
    } else {
        wanted
    }
}

/// The records of a case in their order: those with its main person, then others for the
/// places that are left.
pub open spec fn ranking(
    records: Seq<RecordItem>,
    c: CaseItem,
    scores: Seq<RecordScore>,
    max_results: Option<u32>,
) -> Seq<Entry> {
    let k = limit_of(max_results, c);
    let mains = head_of(
        sorting::sorted::<MainHit>(main_entries(records, c, scores, records.len())),
        k,
    );
    let others = sorting::sorted::<OtherHit>(other_entries(records, c, scores, records.len()));
    add_missing(mains, head_of(others, k - mains.len()))
}

fn id_listed(list: &Vec<Hit>, id: &str) -> (r: bool)
    ensures
        r == has_id(strs::deep(list@), id@),
{
    let mut i: usize = 0;
    while i < list.len()
        invariant
            i <= list@.len(),
            forall|j: int| 0 <= j < i ==> (#[trigger] strs::deep(list@)[j]).id != id@,
        decreases list@.len() - i,
    {
        if text::same(&list[i].id, id) {
            assert(strs::deep(list@)[i as int].id == id@);
            return true;
        }
        i += 1;
    }
    false
}

fn hit_at(records: &[RecordItem], scores: &[RecordScore], i: usize) -> (r: Hit)
    requires
        i < records@.len() == scores@.len(),
    ensures
        r@ == entry_at(records@, scores@, i as int),
{
    Hit { record: i, id: records[i].id.clone(), ts: records[i].ts.clone(), key: scores[i].key }
}

/// The records of a case in their order.
pub fn rank_records_for_case(
    records: &[RecordItem],
    case_item: &CaseItem,
    max_results: Option<u32>,
    scores: &[RecordScore],
) -> (r: Vec<RankedHit>)
    requires
        records@.len() == scores@.len(),
    ensures
        ({
            let listed = ranking(records@, *case_item, scores@, max_results);
            &&& r@.len() == listed.len()
            &&& forall|i: int|
                0 <= i < r@.len() ==> {
                    let hit = #[trigger] r@[i];
                    &&& 0 <= listed[i].record < records@.len()
                    &&& hit.id@ == listed[i].id
                    &&& hit.record == listed[i].record
                    &&& hit.rank == i + 1
                    &&& describes(hit.components, records@[listed[i].record], *case_item)
                    &&& strs::views(hit.reasons@) == reasons_of(hit.components)
                }
        }),
{
    let wanted: u32 = match max_results {
        Some(n) => n,
        None => match case_item.max_results {
            Some(n) => n,
            None => 80,
        },
    };
    let k: usize = if wanted < 1 {
        1
    } else if wanted > 400 {
        400
    } else {
        wanted as usize
    };
    let mut mains: Vec<MainHit> = Vec::new();
    let mut others: Vec<OtherHit> = Vec::new();
    let mut i: usize = 0;
    assert(strs::deep(mains@) =~= main_entries(records@, *case_item, scores@, 0));
    assert(strs::deep(others@) =~= other_entries(records@, *case_item, scores@, 0));
    while i < records.len()
        invariant
            i <= records@.len() == scores@.len(),
            strs::deep(mains@) == main_entries(records@, *case_item, scores@, i as nat),
            strs::deep(others@) == other_entries(records@, *case_item, scores@, i as nat),
        decreases records@.len() - i,
    {
        let comp = record_components(&records[i], case_item);
        let ghost mains_before = strs::deep(mains@);
        let ghost others_before = strs::deep(others@);
        let inside = match comp.in_range {
            Some(inside) => inside,
            None => true,
        };
        if inside {
            if comp.is_main_actor {
                let hit = hit_at(records, scores, i);
                mains.push(MainHit(hit));
                assert(strs::deep(mains@) =~= mains_before.push(hit@));
            } else if (comp.actor_match || comp.related_hits > 0 || (comp.q_total > 0
                && scores[i].text_passes)) && scores[i].score_passes {
                let hit = hit_at(records, scores, i);
                others.push(OtherHit(hit));
                assert(strs::deep(others@) =~= others_before.push(hit@));
            }
        }
        i += 1;
    }
    let ghost n = records@.len();
    let ghost main_list = main_entries(records@, *case_item, scores@, n);
    let ghost other_list = other_entries(records@, *case_item, scores@, n);
    let mains = stable_sort(mains);
    let others = stable_sort(others);
    let ghost sorted_mains = sorting::sorted::<MainHit>(main_list);
    let ghost sorted_others = sorting::sorted::<OtherHit>(other_list);
    let mut merged: Vec<Hit> = Vec::new();
    let mut a: usize = 0;
    assert(strs::deep(mains@).len() == mains@.len());
    assert(strs::deep(merged@) =~= head_of(sorted_mains, 0));
    while a < mains.len() && a < k
        invariant
            a <= mains@.len(),
            a <= k,
            sorted_mains == strs::deep(mains@),
            strs::deep(merged@) =~= sorted_mains.take(a as int),
        decreases mains@.len() - a,
    {
        let ghost before = strs::deep(merged@);
        let hit = &mains[a].0;
        merged.push(
            Hit { record: hit.record, id: hit.id.clone(), ts: hit.ts.clone(), key: hit.key },
        );
        assert(strs::deep(merged@) =~= before.push(sorted_mains[a as int]));
        a += 1;
    }
    let ghost head = strs::deep(merged@);
    assert(head =~= head_of(sorted_mains, k as int));
    assert(strs::deep(merged@).len() == merged@.len());
    let remain: usize = k - merged.len();
    let ghost extra = head_of(sorted_others, remain as int);
    let mut b: usize = 0;
    assert(strs::deep(others@).len() == others@.len());
    assert(extra.take(0) =~= Seq::empty());
    while b < others.len() && b < remain
        invariant
            b <= others@.len(),
            b <= remain,
            sorted_others == strs::deep(others@),
            extra == head_of(sorted_others, remain as int),
            strs::deep(merged@) == add_missing(head, extra.take(b as int)),
        decreases others@.len() - b,
    {
        let ghost before = strs::deep(merged@);
        assert(extra.take(b + 1).drop_last() =~= extra.take(b as int));
        assert(extra.take(b + 1).last() == others@[b as int]@);
        let hit = &others[b].0;
        if !id_listed(&merged, &hit.id) {
            merged.push(
                Hit { record: hit.record, id: hit.id.clone(), ts: hit.ts.clone(), key: hit.key },
            );
            assert(strs::deep(merged@) =~= before.push(sorted_others[b as int]));
        }
        b += 1;
    }
    assert(extra.take(b as int) =~= extra);
    let ghost listed = ranking(records@, *case_item, scores@, max_results);
    assert(strs::deep(merged@) == listed);
    proof {
        lemma_ranking_refers(records@, *case_item, scores@, max_results);
    }
    assert(strs::deep(merged@).len() == merged@.len());
    let mut out: Vec<RankedHit> = Vec::new();
    let mut m: usize = 0;
    while m < merged.len()
        invariant
            m <= merged@.len() <= 400,
            out@.len() == m,
            listed == strs::deep(merged@),
            forall|j: int| 0 <= j < listed.len() ==> 0 <= (#[trigger] listed[j]).record
                < records@.len(),
            forall|j: int|
                0 <= j < m ==> {
                    let hit = #[trigger] out@[j];
                    &&& hit.id@ == listed[j].id
                    &&& hit.record == listed[j].record
                    &&& hit.rank == j + 1
                    &&& describes(hit.components, records@[listed[j].record], *case_item)
                    &&& strs::views(hit.reasons@) == reasons_of(hit.components)
                },
        decreases merged@.len() - m,
    {
        assert(listed[m as int] == merged@[m as int]@);
        let record: usize = merged[m].record;
        let components = record_components(&records[record], case_item);
        let reasons = rank_reasons(&components);
        out.push(
            RankedHit {
                id: merged[m].id.clone(),
                record,
                rank: (m + 1) as u32,
                reasons,
                components,
            },
        );
        m += 1;
    }
    out
}

/// The entry stands for a record in the time of the case that has its main person.
pub open spec fn is_main_entry(
    records: Seq<RecordItem>,
    c: CaseItem,
    scores: Seq<RecordScore>,
    e: Entry,
) -> bool {
    &&& 0 <= e.record < records.len()
    &&& e == entry_at(records, scores, e.record)
    &&& in_time(records[e.record], c)
    &&& has_main_actor(records[e.record], c)
}

/// The entry stands for another record in the time of the case that passes.
pub open spec fn is_other_entry(
    records: Seq<RecordItem>,
    c: CaseItem,
    scores: Seq<RecordScore>,
    e: Entry,
) -> bool {
    &&& 0 <= e.record < records.len()
    &&& e == entry_at(records, scores, e.record)
    &&& in_time(records[e.record], c)
    &&& !has_main_actor(records[e.record], c)
    &&& passes(records[e.record], c, scores[e.record])
}

/// A ranking lists at most as many records as asked for, all in the time of the case: first
/// records with its main person, in the order of [`MainHit`], then others that pass; no other
/// record is listed under an id that stands before it.
pub proof fn ranking_lists_main_records_first(
    records: Seq<RecordItem>,
    c: CaseItem,
    scores: Seq<RecordScore>,
    max_results: Option<u32>,
)
    ensures
        ({
            let listed = ranking(records, c, scores, max_results);
            &&& listed.len() <= limit_of(max_results, c)
            &&& exists|m: int|
                #![trigger listed.take(m)]
                {
                    &&& 0 <= m <= listed.len()
                    &&& sorting::in_order::<MainHit>(listed.take(m))
                    &&& forall|j: int|
                        0 <= j < m ==> is_main_entry(records, c, scores, #[trigger] listed[j])
                    &&& forall|j: int|
                        m <= j < listed.len() ==> is_other_entry(
                            records,
                            c,
                            scores,
                            #[trigger] listed[j],
                        )
                    &&& forall|i: int, j: int|
                        0 <= i < j && m <= j < listed.len() ==> (#[trigger] listed[i]).id != (
                        #[trigger] listed[j]).id
                }
        }),
{
    let n = records.len();
    let k = limit_of(max_results, c);
    let mains = main_entries(records, c, scores, n);
    let others = other_entries(records, c, scores, n);
    let pm = |e: Entry| is_main_entry(records, c, scores, e);
    let po = |e: Entry| is_other_entry(records, c, scores, e);
    lemma_entries(records, c, scores, n);
    lemma_orders();
    sorting::sorting_permutes_into_order::<MainHit>(mains);
    sorting::sorting_permutes_into_order::<OtherHit>(others);
    let sorted_mains = sorting::sorted::<MainHit>(mains);
    let sorted_others = sorting::sorted::<OtherHit>(others);
    sorting::sorting_keeps_what_holds_of_all::<MainHit>(mains, pm);
    sorting::sorting_keeps_what_holds_of_all::<OtherHit>(others, po);
    let head = head_of(sorted_mains, k);
    let extra = head_of(sorted_others, k - head.len());
    lemma_add_missing(head, extra, po);
    let listed = ranking(records, c, scores, max_results);
    let m = head.len() as int;
    assert(listed.take(m) =~= head);
    assert forall|i: int, j: int| 0 <= i < j < head.len() implies !MainHit::after(
        #[trigger] head[i],
        #[trigger] head[j],
    ) by {
        assert(head[i] == sorted_mains[i] && head[j] == sorted_mains[j]);
    }
    assert forall|j: int| 0 <= j < m implies is_main_entry(
        records,
        c,
        scores,
        #[trigger] listed[j],
    ) by {
        assert(listed.take(m)[j] == sorted_mains[j]);
        assert(pm(sorted_mains[j]));
    }
    assert forall|j: int| m <= j < listed.len() implies is_other_entry(
        records,
        c,
        scores,
        #[trigger] listed[j],
    ) by {
        assert(po(listed[j]));
    }
    assert(0 <= m <= listed.take(m).len());
}

proof fn lemma_ranking_refers(
    records: Seq<RecordItem>,
    c: CaseItem,
    scores: Seq<RecordScore>,
    max_results: Option<u32>,
)
    ensures
        ({
            let listed = ranking(records, c, scores, max_results);
            &&& listed.len() <= limit_of(max_results, c)
            &&& forall|j: int|
                0 <= j < listed.len() ==> 0 <= (#[trigger] listed[j]).record < records.len()
        }),
{
    ranking_lists_main_records_first(records, c, scores, max_results);
    let listed = ranking(records, c, scores, max_results);
    let m = choose|m: int|
        #![trigger listed.take(m)]
        {
            &&& 0 <= m <= listed.len()
            &&& sorting::in_order::<MainHit>(listed.take(m))
            &&& forall|j: int|
                0 <= j < m ==> is_main_entry(records, c, scores, #[trigger] listed[j])
            &&& forall|j: int|
                m <= j < listed.len() ==> is_other_entry(records, c, scores, #[trigger] listed[j])
            &&& forall|i: int, j: int|
                0 <= i < j && m <= j < listed.len() ==> (#[trigger] listed[i]).id != (
                #[trigger] listed[j]).id
        };
    assert forall|j: int| 0 <= j < listed.len() implies 0 <= (#[trigger] listed[j]).record
        < records.len() by {
        if j < m {
            assert(is_main_entry(records, c, scores, listed[j]));
        } else {
            assert(is_other_entry(records, c, scores, listed[j]));
        }
    }
}

proof fn lemma_entries(records: Seq<RecordItem>, c: CaseItem, scores: Seq<RecordScore>, n: nat)
    requires
        n <= records.len(),
    ensures
        forall|j: int|
            0 <= j < main_entries(records, c, scores, n).len() ==> is_main_entry(
                records,
                c,
                scores,
                #[trigger] main_entries(records, c, scores, n)[j],
            ),
        forall|j: int|
            0 <= j < other_entries(records, c, scores, n).len() ==> is_other_entry(
                records,
                c,
                scores,
                #[trigger] other_entries(records, c, scores, n)[j],
            ),
    decreases n,
{
    if n > 0 {
        let i = (n - 1) as nat;
        lemma_entries(records, c, scores, i);
        let mains = main_entries(records, c, scores, i);
        assert forall|j: int|
            0 <= j < main_entries(records, c, scores, n).len() implies is_main_entry(
            records,
            c,
            scores,
            #[trigger] main_entries(records, c, scores, n)[j],
        ) by {
            if j < mains.len() {
                assert(main_entries(records, c, scores, n)[j] == mains[j]);
            }
        }
        let others = other_entries(records, c, scores, i);
        assert forall|j: int|
            0 <= j < other_entries(records, c, scores, n).len() implies is_other_entry(
            records,
            c,
            scores,
            #[trigger] other_entries(records, c, scores, n)[j],
        ) by {
            if j < others.len() {
                assert(other_entries(records, c, scores, n)[j] == others[j]);
            }
        }
    }
}

proof fn lemma_add_missing(list: Seq<Entry>, extra: Seq<Entry>, p: spec_fn(Entry) -> bool)
    requires
        forall|j: int| 0 <= j < extra.len() ==> p(#[trigger] extra[j]),
    ensures
        ({
            let all = add_missing(list, extra);
            &&& list.len() <= all.len() <= list.len() + extra.len()
            &&& forall|j: int| 0 <= j < list.len() ==> #[trigger] all[j] == list[j]
            &&& forall|j: int| list.len() <= j < all.len() ==> p(#[trigger] all[j])
            &&& forall|i: int, j: int|
                0 <= i < j && list.len() <= j < all.len() ==> (#[trigger] all[i]).id != (
                #[trigger] all[j]).id
        }),
    decreases extra.len(),
{
    if extra.len() > 0 {
        let t = extra.drop_last();
        assert forall|j: int| 0 <= j < t.len() implies p(#[trigger] t[j]) by {
            assert(t[j] == extra[j]);
        }
        lemma_add_missing(list, t, p);
        assert(extra.last() == extra[extra.len() - 1]);
        let before = add_missing(list, t);
        let all = add_missing(list, extra);
        assert forall|i: int, j: int| 0 <= i < j && list.len() <= j < all.len() implies (
        #[trigger] all[i]).id != (#[trigger] all[j]).id by {
            assert(all[i] == before[i]);
            if j < before.len() {
                assert(all[j] == before[j]);
            }
        }
    }
}

/// Both orders are strict weak orders.
pub proof fn lemma_orders()
    ensures
        sorting::weak_order::<MainHit>(),
        sorting::weak_order::<OtherHit>(),
{
    assert forall|a: Entry, b: Entry, c: Entry|
        #[trigger] MainHit::after(a, b) && #[trigger] MainHit::after(
            b,
            c,
        ) implies MainHit::after(a, c) by {
        text::lemma_before_is_total_order(a.ts, b.ts, c.ts);
        text::lemma_before_is_total_order(c.id, b.id, a.id);
    }
    assert forall|a: Entry, b: Entry, c: Entry| MainHit::after(a, c) implies #[trigger] MainHit::after(
        a,
        b,
    ) || #[trigger] MainHit::after(b, c) by {
        text::lemma_before_is_total_order(a.ts, b.ts, c.ts);
        text::lemma_before_is_total_order(a.ts, c.ts, b.ts);
        text::lemma_before_is_total_order(b.ts, c.ts, a.ts);
        text::lemma_before_is_total_order(b.ts, a.ts, c.ts);
        text::lemma_before_is_total_order(c.id, b.id, a.id);
        text::lemma_before_is_total_order(c.id, a.id, b.id);
        text::lemma_before_is_total_order(b.id, c.id, a.id);
        text::lemma_before_is_total_order(b.id, a.id, c.id);
    }
    assert forall|a: Entry| !#[trigger] MainHit::after(a, a) by {
        text::lemma_before_is_total_order(a.ts, a.ts, a.ts);
        text::lemma_before_is_total_order(a.id, a.id, a.id);
    }
    assert forall|a: Entry, b: Entry, c: Entry|
        #[trigger] OtherHit::after(a, b) && #[trigger] OtherHit::after(
            b,
            c,
        ) implies OtherHit::after(a, c) by {
        text::lemma_before_is_total_order(a.ts, b.ts, c.ts);
        text::lemma_before_is_total_order(c.id, b.id, a.id);
    }
    assert forall|a: Entry, b: Entry, c: Entry| OtherHit::after(
        a,
        c,
    ) implies #[trigger] OtherHit::after(a, b) || #[trigger] OtherHit::after(b, c) by {
        text::lemma_before_is_total_order(a.ts, b.ts, c.ts);
        text::lemma_before_is_total_order(a.ts, c.ts, b.ts);
        text::lemma_before_is_total_order(b.ts, c.ts, a.ts);
        text::lemma_before_is_total_order(b.ts, a.ts, c.ts);
        text::lemma_before_is_total_order(c.id, b.id, a.id);
        text::lemma_before_is_total_order(c.id, a.id, b.id);
        text::lemma_before_is_total_order(b.id, c.id, a.id);
        text::lemma_before_is_total_order(b.id, a.id, c.id);
    }
    assert forall|a: Entry| !#[trigger] OtherHit::after(a, a) by {
        text::lemma_before_is_total_order(a.ts, a.ts, a.ts);
        text::lemma_before_is_total_order(a.id, a.id, a.id);
    }
}

} // verus!
