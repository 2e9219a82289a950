//! The records that an answer rests on: which are taken, and how they are summed up.

use crate::engine::labels;
use crate::engine::labels::{
    brief_text, format_actor_short, strategy_main_actor_label, strategy_place_label,
    strategy_store_label, summarize_strategy_record_parts,
};
use crate::engine::packet::{
    Evidence, StrategyEvidencePacket, StrategyEvidenceRecord, StrategyLegalReference,
};
use crate::engine::rank::RankedHit;
use crate::engine::records::{ActorRef, CaseItem, RecordItem};
use crate::engine::sanitize::strategy_trim;
use crate::sorting;
use crate::sorting::{stable_sort, Ordered};
use crate::strs;
use crate::text;
use vstd::prelude::*;

verus! {

/// The names under which the people of some records are counted.
pub open spec fn people_labels(records: Seq<&RecordItem>) -> Seq<Seq<char>>
    decreases records.len(),
{
    if records.len() == 0 {
        Seq::empty()
    } else {
        let r = *records.last();
        let head = people_labels(records.drop_last());
        let main = labels::main_actor_label(r);
        let with_main = if strs::trim(main).len() > 0 {
            head.push(main)
        } else {
            head
        };
        with_main + strs::nonblank(
            r.related@.map_values(|a: ActorRef| related_label(a)),
        )
    }
}

/// The name under which a person who is not a main person is counted.
pub open spec fn related_label(a: ActorRef) -> Seq<char> {
    ("관련 "@ + labels::actor_short(a))
}

fn related_label_of(a: &ActorRef) -> (r: String)
    ensures
        r@ == related_label(*a),
{
    let mut out = text::copy("관련 ");
    out.append(&format_actor_short(a));
    out
}

/// A name and how often it was counted: ordered by the count, the highest first, then by name.
#[derive(Debug)]
pub struct Tally {
    pub label: String,
    pub count: usize,
}

/// A name and how often it was counted, as the contracts see it.
#[verifier::ext_equal]
pub struct Counted {
    pub label: Seq<char>,
    pub count: nat,
}

impl View for Tally {
    type V = Counted;

    open spec fn view(&self) -> Counted {
        Counted { label: self.label@, count: self.count as nat }
    }
}

impl Ordered for Tally {
    open spec fn after(a: Counted, b: Counted) -> bool {
        a.count < b.count || (a.count == b.count && strs::before(b.label, a.label))
    }

    fn comes_after(&self, other: &Self) -> (r: bool) {
        self.count < other.count || (self.count == other.count && text::before(
            &other.label,
            &self.label,
        ))
    }
}

/// Each name once, with how often it stands in the list.
pub open spec fn tallies(list: Seq<Seq<char>>) -> Seq<Counted> {
    strs::distinct(list).map_values(
        |s: Seq<char>| Counted { label: s, count: strs::count(list, |t: Seq<char>| t == s) },
    )
}

/// A name with its count, in words.
pub open spec fn tally_line(t: Counted) -> Seq<char> {
    (t.label + " · "@ + strs::decimal(t.count) + "건"@)
}

fn tally_line_of(t: &Tally) -> (r: String)
    ensures
        r@ == tally_line(t@),
{
    let mut out = text::copy(&t.label);
    out.append(" · ");
    out.append(&text::decimal(t.count as u64));
    out.append("건");
    out
}

/// The people of some records, those in most records first.
pub open spec fn actor_summary(records: Seq<&RecordItem>) -> Seq<Seq<char>> {
    strs::head(sorting::sorted::<Tally>(tallies(people_labels(records))), 6).map_values(
        |t: Counted| tally_line(t),
    )
}

fn count_text(list: &Vec<String>, s: &str) -> (r: usize)
    ensures
        r == strs::count(strs::views(list@), |t: Seq<char>| t == s@),
{
    let ghost all = strs::views(list@);
    let ghost p = |t: Seq<char>| t == s@;
    let mut n: usize = 0;
    let mut i: usize = 0;
    while i < list.len()
        invariant
            i <= list@.len(),
            n <= i,
            all == strs::views(list@),
            p == (|t: Seq<char>| t == s@),
            n == strs::count(all.take(i as int), p),
        decreases list@.len() - i,
    {
        assert(all.take(i + 1).drop_last() =~= all.take(i as int));
        if text::same(&list[i], s) {
            n += 1;
        }
        i += 1;
    }
    assert(all.take(i as int) =~= all);
    n
}

fn people_labels_of(records: &[&RecordItem]) -> (r: Vec<String>)
    ensures
        strs::views(r@) == people_labels(records@),
{
    let mut out = text::no_texts();
    let mut i: usize = 0;
    assert(records@.take(0) =~= Seq::empty());
    while i < records.len()
        invariant
            i <= records@.len(),
            strs::views(out@) == people_labels(records@.take(i as int)),
        decreases records@.len() - i,
    {
        assert(records@.take(i + 1).drop_last() =~= records@.take(i as int));
        let r: &RecordItem = records[i];
        let main = strategy_main_actor_label(r);
        if !text::is_blank(&main) {
            text::push(&mut out, main);
        }
        let n: usize = r.related.len();
        let related = text::map_first(
            &r.related,
            n,
            related_label_of,
            Ghost(|a: ActorRef| related_label(a)),
        );
        assert(strs::head(r.related@, n as nat) =~= r.related@);
        text::push_all(&mut out, &text::nonblank(&related));
        i += 1;
    }
    assert(records@.take(i as int) =~= records@);
    out
}

/// The people of some records, those in most records first.
pub fn build_strategy_actor_summary(records: &[&RecordItem]) -> (r: Vec<String>)
    ensures
        strs::views(r@) == actor_summary(records@),
{
    let list = people_labels_of(records);
    let ghost all = strs::views(list@);
    let mut once = text::no_texts();
    let mut i: usize = 0;
    assert(strs::distinct(all.take(0)) =~= Seq::empty());
    while i < list.len()
        invariant
            i <= list@.len(),
            all == strs::views(list@),
            strs::views(once@) == strs::distinct(all.take(i as int)),
        decreases list@.len() - i,
    {
        assert(all.take(i + 1).drop_last() =~= all.take(i as int));
        text::push_new(&mut once, list[i].clone());
        i += 1;
    }
    assert(all.take(i as int) =~= all);
    let ghost wanted = tallies(all);
    let mut counted: Vec<Tally> = Vec::new();
    let mut k: usize = 0;
    assert(strs::deep(counted@) =~= wanted.take(0));
    while k < once.len()
        invariant
            k <= once@.len(),
            all == strs::views(list@),
            strs::views(once@) == strs::distinct(all),
            wanted == tallies(all),
            strs::deep(counted@) == wanted.take(k as int),
        decreases once@.len() - k,
    {
        let ghost before = strs::deep(counted@);
        assert(strs::views(once@)[k as int] == once@[k as int]@);
        let item = Tally { label: once[k].clone(), count: count_text(&list, &once[k]) };
        counted.push(item);
        assert(strs::deep(counted@) =~= before.push(item@));
        assert(wanted.take(k + 1) =~= wanted.take(k as int).push(item@));
        k += 1;
    }
    assert(strs::views(once@).len() == once@.len());
    assert(wanted.take(k as int) =~= wanted);
    let ordered = stable_sort(counted);
    let lines = text::map_first(&ordered, 6, tally_line_of, Ghost(|t: Tally| tally_line(t@)));
    assert(strs::head(ordered@, 6).map_values(|t: Tally| tally_line(t@)) =~= strs::head(
        strs::deep(ordered@),
        6,
    ).map_values(|t: Counted| tally_line(t)));
    lines
}

/// The record does not say what was done.
pub open spec fn lacks_actions(r: RecordItem) -> bool {
    match r.summary_parts {
        Some(p) => strs::trim(p.teacher_actions@).len() == 0,
        None => true,
    }
}

/// The record does not say what there is to show.
pub open spec fn lacks_evidence(r: RecordItem) -> bool {
    match r.summary_parts {
        Some(p) => strs::trim(p.evidence_list@).len() == 0,
        None => true,
    }
}

/// At least half of the records lack something.
pub open spec fn many_lack(lacking: nat, records: nat) -> bool {
    records > 0 && lacking >= records / 2
}

/// What is not known, in words.
pub open spec fn gaps_of(case_given: bool, records: Seq<&RecordItem>, total: nat) -> Seq<Seq<char>> {
    let a = if !case_given {
        seq!["기준 컬렉션 없이 직접 분석 중이라 사건 범위가 넓을 수 있어요."@]
    } else {
        Seq::empty()
    };
    let b = if records.len() <= 2 {
        a.push("현재 연결된 핵심 기록 수가 적어서 흐름 판단이 제한적일 수 있어요."@)
    } else {
        a
    };
    let c = if total > records.len() {
        b.push(
            ("전체 기록 "@ + strs::decimal(total) + "건 중 핵심 근거 "@ + strs::decimal(records.len()) + "건만 추려 분석했어요."@),
        )
    } else {
        b
    };
    let d = if many_lack(strs::count(records, |r: &RecordItem| lacks_actions(*r)), records.len()) {
        c.push("내가 실제로 취한 대응 메모가 비어 있는 기록이 많아요."@)
    } else {
        c
    };
    let e = if many_lack(strs::count(records, |r: &RecordItem| lacks_evidence(*r)), records.len()) {
        d.push("관련 자료·증빙 정리 칸이 비어 있는 기록이 많아요."@)
    } else {
        d
    };
    strs::head(e, 4)
}

/// What is not known, in words.
pub fn build_strategy_gaps(case_given: bool, records: &[&RecordItem], total_records: usize) -> (r: Vec<
    String,
>)
    ensures
        strs::views(r@) == gaps_of(case_given, records@, total_records as nat),
{
    let mut gaps = text::no_texts();
    if !case_given {
        text::push(
            &mut gaps,
            "기준 컬렉션 없이 직접 분석 중이라 사건 범위가 넓을 수 있어요.".to_owned(),
        );
        assert(strs::views(gaps@) =~= seq![
            "기준 컬렉션 없이 직접 분석 중이라 사건 범위가 넓을 수 있어요."@,
        ]);
    }
    if records.len() <= 2 {
        text::push(
            &mut gaps,
            "현재 연결된 핵심 기록 수가 적어서 흐름 판단이 제한적일 수 있어요.".to_owned(),
        );
    }
    if total_records > records.len() {
        let mut line = text::copy("전체 기록 ");
        line.append(&text::decimal(total_records as u64));
        line.append("건 중 핵심 근거 ");
        line.append(&text::decimal(records.len() as u64));
        line.append("건만 추려 분석했어요.");
        text::push(&mut gaps, line);
    }
    let ghost p = |r: &RecordItem| lacks_actions(*r);
    let ghost q = |r: &RecordItem| lacks_evidence(*r);
    let mut actions: usize = 0;
    let mut evidence: usize = 0;
    let mut i: usize = 0;
    while i < records.len()
        invariant
            i <= records@.len(),
            actions <= i,
            evidence <= i,
            p == (|r: &RecordItem| lacks_actions(*r)),
            q == (|r: &RecordItem| lacks_evidence(*r)),
            actions == strs::count(records@.take(i as int), p),
            evidence == strs::count(records@.take(i as int), q),
        decreases records@.len() - i,
    {
        assert(records@.take(i + 1).drop_last() =~= records@.take(i as int));
        match &records[i].summary_parts {
            Some(parts) => {
                if text::is_blank(&parts.teacher_actions) {
                    actions += 1;
                }
                if text::is_blank(&parts.evidence_list) {
                    evidence += 1;
                }
            },
            None => {
                actions += 1;
                evidence += 1;
            },
        }
        i += 1;
    }
    assert(records@.take(i as int) =~= records@);
    let half: usize = records.len() / 2;
    if records.len() > 0 && actions >= half {
        text::push(&mut gaps, "내가 실제로 취한 대응 메모가 비어 있는 기록이 많아요.".to_owned());
    }
    if records.len() > 0 && evidence >= half {
        text::push(&mut gaps, "관련 자료·증빙 정리 칸이 비어 있는 기록이 많아요.".to_owned());
    }
    text::head(&gaps, 4)
}

/// A record that was taken: its id, why, and the scored record where it was ranked.
#[derive(Debug)]
pub struct Picked {
    pub id: String,
    pub reasons: Vec<String>,
    pub scored: Option<usize>,
}

/// A record that was taken, as the contracts see it.
#[verifier::ext_equal]
pub struct Pick {
    pub id: Seq<char>,
    pub reasons: Seq<Seq<char>>,
    pub scored: Option<int>,
}

impl View for Picked {
    type V = Pick;

    open spec fn view(&self) -> Pick {
        Pick {
            id: self.id@,
            reasons: strs::views(self.reasons@),
            scored: match self.scored {
                Some(n) => Some(n as int),
                None => None,
            },
        }
    }
}

/// A record with this id was taken.
pub open spec fn was_picked(list: Seq<Pick>, id: Seq<char>) -> bool {
    exists|i: int| 0 <= i < list.len() && (#[trigger] list[i]).id == id
}

/// The list with one more, where its id is not blank and new.
pub open spec fn with_pick(list: Seq<Pick>, p: Pick) -> Seq<Pick> {
    if strs::trim(p.id).len() > 0 && !was_picked(list, p.id) {
        list.push(p)
    } else {
        list
    }
}

/// The list with those of another.
pub open spec fn with_picks(list: Seq<Pick>, more: Seq<Pick>) -> Seq<Pick>
    decreases more.len(),
{
    if more.len() == 0 {
        list
    } else {
        with_pick(with_picks(list, more.drop_last()), more.last())
    }
}

/// The pick of a ranked record.
pub open spec fn hit_pick(h: RankedHit) -> Pick {
    Pick {
        id: h.id@,
        reasons: strs::head(strs::views(h.reasons@), 3),
        scored: Some(h.record as int),
    }
}

/// A record by its time: the latest first.
#[derive(Debug)]
pub struct Recent {
    pub record: usize,
    pub id: String,
    pub ts: String,
}

/// A record by its time: the earliest first.
#[derive(Debug)]
pub struct Dated {
    pub record: usize,
    pub ts: String,
}

/// A record by its time, as the contracts see it.
#[verifier::ext_equal]
pub struct Stamped {
    pub record: int,
    pub ts: Seq<char>,
}

impl View for Recent {
    type V = Stamped;

    open spec fn view(&self) -> Stamped {
        Stamped { record: self.record as int, ts: self.ts@ }
    }
}

impl Ordered for Recent {
    open spec fn after(a: Stamped, b: Stamped) -> bool {
        strs::before(a.ts, b.ts)
    }

    fn comes_after(&self, other: &Self) -> (r: bool) {
        text::before(&self.ts, &other.ts)
    }
}

impl View for Dated {
    type V = Stamped;

    open spec fn view(&self) -> Stamped {
        Stamped { record: self.record as int, ts: self.ts@ }
    }
}

impl Ordered for Dated {
    open spec fn after(a: Stamped, b: Stamped) -> bool {
        strs::before(b.ts, a.ts)
    }

    fn comes_after(&self, other: &Self) -> (r: bool) {
        text::before(&other.ts, &self.ts)
    }
}

/// The records of a list by their times.
pub open spec fn stamps(records: Seq<RecordItem>) -> Seq<Stamped> {
    Seq::new(records.len(), |i: int| Stamped { record: i, ts: records[i].ts@ })
}

/// The pick of a record for a reason other than its rank.
pub open spec fn plain_pick(r: RecordItem, reason: Seq<char>) -> Pick {
    Pick { id: r.id@, reasons: seq![reason], scored: None }
}

/// The three latest records.
pub open spec fn recent_picks(records: Seq<RecordItem>) -> Seq<Pick> {
    strs::head(sorting::sorted::<Recent>(stamps(records)), 3).map_values(
        |s: Stamped| plain_pick(records[s.record], "최근 흐름"@),
    )
}

/// The last four records of the list, from the end.
pub open spec fn default_picks(records: Seq<RecordItem>) -> Seq<Pick> {
    Seq::new(
        if records.len() < 4 {
            records.len()
        } else {
            4
        },
        |i: int| plain_pick(records[records.len() - 1 - i], "기본 선택"@),
    )
}

/// The records that are taken: the five ranked first, the three latest, and the last of the
/// list where there are none.
pub open spec fn selection(records: Seq<RecordItem>, hits: Seq<RankedHit>) -> Seq<Pick> {
    let ranked = with_picks(
        Seq::empty(),
        strs::head(hits, 5).map_values(|h: RankedHit| hit_pick(h)),
    );
    let all = with_picks(ranked, recent_picks(records));
    if all.len() == 0 {
        with_picks(all, default_picks(records))
    } else {
        all
    }
}

fn picked_already(list: &Vec<Picked>, id: &str) -> (r: bool)
    ensures
        r == was_picked(strs::deep(list@), id@),
{
    let mut i: usize = 0;
    while i < list.len()
        invariant
            i <= list@.len(),
            forall|j: int| 0 <= j < i ==> (#[trigger] strs::deep(list@)[j]).id != id@,
        decreases list@.len() - i,
    {
        if text::same(&list[i].id, id) {
            assert(strs::deep(list@)[i as int].id == id@);
            return true;
        }
        i += 1;
    }
    false
}

/// Takes a record, where its id is not blank and new.
pub fn push_strategy_evidence_candidate(
    out: &mut Vec<Picked>,
    id: &str,
    reasons: Vec<String>,
    scored: Option<usize>,
)
    ensures
        strs::deep(final(out)@) == with_pick(
            strs::deep(old(out)@),
            (Pick {
                id: id@,
                reasons: strs::views(reasons@),
                scored: match scored {
                    Some(n) => Some(n as int),
                    None => None,
                },
            }),
        ),
{
    if text::is_blank(id) || picked_already(out, id) {
        return ;
    }
    let ghost before = strs::deep(out@);
    let item = Picked { id: id.to_owned(), reasons, scored };
    out.push(item);
    assert(strs::deep(out@) =~= before.push(item@));
}

fn one_reason(s: &str) -> (r: Vec<String>)
    ensures
        strs::views(r@) == seq![s@],
{
    let out = text::owned(&[s]);
    assert(strs::views(out@) =~= seq![s@]);
    out
}

/// The records that are taken.
pub fn select_strategy_evidence_records(records: &[RecordItem], ranked_hits: &Vec<RankedHit>) -> (r:
    Vec<Picked>)
    ensures
        strs::deep(r@) == selection(records@, ranked_hits@),
{
    let mut out: Vec<Picked> = Vec::new();
    assert(strs::deep(out@) =~= Seq::empty());
    let ghost hits = strs::head(ranked_hits@, 5).map_values(|h: RankedHit| hit_pick(h));
    let mut i: usize = 0;
    assert(hits.take(0) =~= Seq::empty());
    while i < ranked_hits.len() && i < 5
        invariant
            i <= ranked_hits@.len(),
            i <= 5,
            hits == strs::head(ranked_hits@, 5).map_values(|h: RankedHit| hit_pick(h)),
            strs::deep(out@) == with_picks(Seq::empty(), hits.take(i as int)),
        decreases ranked_hits@.len() - i,
    {
        assert(hits.take(i + 1).drop_last() =~= hits.take(i as int));
        assert(hits[i as int] == hit_pick(ranked_hits@[i as int]));
        let hit = &ranked_hits[i];
        push_strategy_evidence_candidate(
            &mut out,
            &hit.id,
            text::head(&hit.reasons, 3),
            Some(hit.record),
        );
        i += 1;
    }
    assert(hits.take(i as int) =~= hits);
    let ghost ranked = strs::deep(out@);
    let mut recent: Vec<Recent> = Vec::new();
    let mut k: usize = 0;
    assert(strs::deep(recent@) =~= stamps(records@).take(0));
    while k < records.len()
        invariant
            k <= records@.len(),
            strs::deep(recent@) == stamps(records@).take(k as int),
        decreases records@.len() - k,
    {
        let ghost before = strs::deep(recent@);
        let item = Recent { record: k, id: records[k].id.clone(), ts: records[k].ts.clone() };
        recent.push(item);
        assert(strs::deep(recent@) =~= before.push(item@));
        assert(stamps(records@).take(k + 1) =~= stamps(records@).take(k as int).push(item@));
        k += 1;
    }
    assert(stamps(records@).take(k as int) =~= stamps(records@));
    let recent = stable_sort(recent);
    let ghost latest = sorting::sorted::<Recent>(stamps(records@));
    proof {
        let p = |s: Stamped| 0 <= s.record < records@.len();
        sorting::sorting_keeps_what_holds_of_all::<Recent>(stamps(records@), p);
        assert forall|j: int| 0 <= j < latest.len() implies 0 <= (#[trigger] latest[j]).record
            < records@.len() by {
            assert(p(latest[j]));
        }
    }
    let ghost more = recent_picks(records@);
    let mut m: usize = 0;
    assert(more.take(0) =~= Seq::empty());
    while m < recent.len() && m < 3
        invariant
            m <= recent@.len(),
            m <= 3,
            latest == strs::deep(recent@),
            forall|j: int|
                0 <= j < latest.len() ==> 0 <= (#[trigger] latest[j]).record < records@.len(),
            more == strs::head(latest, 3).map_values(
                |s: Stamped| plain_pick(records@[s.record], "최근 흐름"@),
            ),
            strs::deep(out@) == with_picks(ranked, more.take(m as int)),
        decreases recent@.len() - m,
    {
        assert(more.take(m + 1).drop_last() =~= more.take(m as int));
        assert(latest[m as int] == recent@[m as int]@);
        let at: usize = recent[m].record;
        push_strategy_evidence_candidate(&mut out, &records[at].id, one_reason("최근 흐름"), None);
        m += 1;
    }
    assert(more.take(m as int) =~= more);
    assert(strs::deep(out@).len() == out@.len());
    if out.len() > 0 {
        return out;
    }
    let ghost base = strs::deep(out@);
    let ghost rest = default_picks(records@);
    let mut n: usize = 0;
    assert(rest.take(0) =~= Seq::empty());
    while n < records.len() && n < 4
        invariant
            n <= records@.len(),
            n <= 4,
            rest == default_picks(records@),
            strs::deep(out@) == with_picks(base, rest.take(n as int)),
        decreases records@.len() - n,
    {
        assert(rest.take(n + 1).drop_last() =~= rest.take(n as int));
        let at: usize = records.len() - 1 - n;
        push_strategy_evidence_candidate(&mut out, &records[at].id, one_reason("기본 선택"), None);
        n += 1;
    }
    assert(rest.take(n as int) =~= rest);
    out
}

/// The position of the last record with this id.
pub open spec fn record_with(records: Seq<RecordItem>, id: Seq<char>) -> Option<int>
    decreases records.len(),
{
    if records.len() == 0 {
        None
    } else if records.last().id@ == id {
        Some(records.len() - 1)
    } else {
        record_with(records.drop_last(), id)
    }
}

fn find_record(records: &[RecordItem], id: &str) -> (r: Option<usize>)
    ensures
        match r {
            Some(i) => i < records@.len() && record_with(records@, id@) == Some(i as int),
            None => record_with(records@, id@) is None,
        },
{
    let mut i: usize = records.len();
    assert(records@.take(i as int) =~= records@);
    while i > 0
        invariant
            i <= records@.len(),
            record_with(records@, id@) == record_with(records@.take(i as int), id@),
        decreases i,
    {
        assert(records@.take(i as int).drop_last() =~= records@.take(i - 1));
        if text::same(&records[i - 1].id, id) {
            return Some(i - 1);
        }
        i -= 1;
    }
    None
}

/// The records that were taken, by their times.
pub open spec fn taken_stamps(records: Seq<RecordItem>, picks: Seq<Pick>) -> Seq<Stamped> {
    strs::collected(
        picks,
        |p: Pick|
            match record_with(records, p.id) {
                Some(i) => Some(Stamped { record: i, ts: records[i].ts@ }),
                None => None,
            },
    )
}

/// The positions of the records that were taken, the earliest first.
pub open spec fn taken(records: Seq<RecordItem>, picks: Seq<Pick>) -> Seq<int> {
    sorting::sorted::<Dated>(taken_stamps(records, picks)).map_values(|s: Stamped| s.record)
}

/// The positions of the records that were taken, the earliest first.
pub fn selected_record_positions(records: &[RecordItem], selected: &Vec<Picked>) -> (r: Vec<usize>)
    ensures
        r@.map_values(|i: usize| i as int) == taken(records@, strs::deep(selected@)),
        forall|i: int| 0 <= i < r@.len() ==> (#[trigger] r@[i]) < records@.len(),
{
    let ghost picks = strs::deep(selected@);
    let ghost g = |p: Pick|
        match record_with(records@, p.id) {
            Some(i) => Some(Stamped { record: i, ts: records@[i].ts@ }),
            None => None,
        };
    let mut found: Vec<Dated> = Vec::new();
    let mut i: usize = 0;
    assert(strs::deep(found@) =~= strs::collected(picks.take(0), g));
    while i < selected.len()
        invariant
            i <= selected@.len(),
            picks == strs::deep(selected@),
            g == (|p: Pick|
                match record_with(records@, p.id) {
                    Some(i) => Some(Stamped { record: i, ts: records@[i].ts@ }),
                    None => None,
                }),
            strs::deep(found@) == strs::collected(picks.take(i as int), g),
            forall|j: int| 0 <= j < found@.len() ==> (#[trigger] found@[j]).record < records@.len(),
        decreases selected@.len() - i,
    {
        assert(picks.take(i + 1).drop_last() =~= picks.take(i as int));
        assert(picks.take(i + 1).last() == selected@[i as int]@);
        if let Some(at) = find_record(records, &selected[i].id) {
            let ghost before = strs::deep(found@);
            let item = Dated { record: at, ts: records[at].ts.clone() };
            found.push(item);
            assert(strs::deep(found@) =~= before.push(item@));
        }
        i += 1;
    }
    assert(picks.take(i as int) =~= picks);
    let ghost list = strs::deep(found@);
    let ordered = stable_sort(found);
    let ghost sorted = sorting::sorted::<Dated>(list);
    proof {
        let p = |s: Stamped| 0 <= s.record < records@.len();
        assert forall|j: int| 0 <= j < list.len() implies p(#[trigger] list[j]) by {
            assert(list[j] == found@[j]@);
        }
        sorting::sorting_keeps_what_holds_of_all::<Dated>(list, p);
        assert forall|j: int| 0 <= j < ordered@.len() implies (#[trigger] ordered@[j]).record
            < records@.len() by {
            assert(p(sorted[j]));
            assert(sorted[j] == ordered@[j]@);
        }
    }
    let mut out: Vec<usize> = Vec::new();
    let mut k: usize = 0;
    while k < ordered.len()
        invariant
            k <= ordered@.len(),
            sorted == strs::deep(ordered@),
            forall|j: int|
                0 <= j < ordered@.len() ==> (#[trigger] ordered@[j]).record < records@.len(),
            out@.len() == k,
            forall|j: int|
                0 <= j < k ==> (#[trigger] out@[j]) == sorted[j].record && out@[j] < records@.len(),
        decreases ordered@.len() - k,
    {
        assert(sorted[k as int] == ordered@[k as int]@);
        out.push(ordered[k].record);
        k += 1;
    }
    assert(out@.map_values(|i: usize| i as int) =~= sorted.map_values(|s: Stamped| s.record));
    out
}

/// The records at these positions.
pub open spec fn at_positions<'a>(records: Seq<RecordItem>, positions: Seq<int>) -> Seq<&'a RecordItem> {
    positions.map_values(|i: int| &records[i])
}

/// References to the records at these positions.
pub fn records_at<'a>(records: &'a [RecordItem], positions: &Vec<usize>) -> (r: Vec<&'a RecordItem>)
    requires
        forall|i: int| 0 <= i < positions@.len() ==> (#[trigger] positions@[i]) < records@.len(),
    ensures
        r@ == at_positions(records@, positions@.map_values(|i: usize| i as int)),
{
    let mut out: Vec<&RecordItem> = Vec::new();
    let mut i: usize = 0;
    while i < positions.len()
        invariant
            i <= positions@.len(),
            forall|j: int|
                0 <= j < positions@.len() ==> (#[trigger] positions@[j]) < records@.len(),
            out@.len() == i,
            forall|j: int| 0 <= j < i ==> #[trigger] out@[j] == &records@[positions@[j] as int],
        decreases positions@.len() - i,
    {
        out.push(&records[positions[i]]);
        i += 1;
    }
    assert(out@ =~= at_positions(records@, positions@.map_values(|i: usize| i as int)));
    out
}

/// The title of a case, or a word for none.
pub open spec fn title_of(c: Option<CaseItem>) -> Seq<char> {
    match c {
        Some(item) => if strs::trim(item.title@).len() > 0 {
            strs::trim(item.title@)
        } else {
            "직접 분석"@
        },
        None => "직접 분석"@,
    }
}

/// A text, or a word for its lack.
pub open spec fn or_else(s: Seq<char>, other: Seq<char>) -> Seq<char> {
    if s.len() == 0 {
        other
    } else {
        s
    }
}

fn text_or(s: &str, other: &str) -> (r: String)
    ensures
        r@ == or_else(s@, other@),
{
    if s.unicode_len() == 0 {
        other.to_owned()
    } else {
        s.to_owned()
    }
}

/// What was gathered, in one sentence.
pub open spec fn focus_of(title: Seq<char>, records: Seq<&RecordItem>) -> Seq<char> {
    let earliest = if records.len() > 0 {
        strs::trim(records[0].ts@)
    } else {
        ""@
    };
    let latest = if records.len() > 0 {
        strs::trim(records.last().ts@)
    } else {
        ""@
    };
    let actors = strs::join(strs::head(actor_summary(records), 3), ", "@);
    if earliest.len() == 0 && latest.len() == 0 {
        (title + " 기준으로 핵심 근거 "@ + strs::decimal(records.len()) + "건을 묶었어요."@)
    } else {
        (title + " 기준. "@ + or_else(earliest, "시점 미상"@) + " ~ "@ + or_else(latest, "시점 미상"@) + " 흐름에서 핵심 근거 "@ + strs::decimal(records.len()) + "건을 골랐고, 주요 인물은 "@ + or_else(actors, "정리 중"@) + "예요."@)
    }
}

/// A record in a few words.
pub open spec fn lead_of(r: RecordItem) -> Seq<char> {
    (labels::main_actor_label(r) + " / "@ + labels::store_label(r) + " / "@ + labels::brief(r.summary@, 58))
}

fn lead_line(r: &&RecordItem) -> (out: String)
    ensures
        out@ == lead_of(**r),
{
    let mut out = text::copy(&strategy_main_actor_label(r));
    out.append(" / ");
    out.append(&strategy_store_label(r));
    out.append(" / ");
    out.append(&brief_text(&r.summary, 58));
    out
}

/// The course of events in one sentence.
pub open spec fn overview_of(records: Seq<&RecordItem>) -> Seq<char> {
    if records.len() == 0 {
        "핵심 근거를 아직 고르지 못했어요."@
    } else {
        ("질문과 사건 맥락을 기준으로 기록을 다시 뽑아보니, 흐름의 중심은 "@ + strs::first(
            strs::join(strs::head(records, 3).map_values(|r: &RecordItem| lead_of(*r)), " -> "@),
            220,
        ) + " 입니다."@)
    }
}

/// A record that was taken, in one line; with its score where it has one.
pub open spec fn timeline_line(r: RecordItem, reasons: Seq<Seq<char>>, score: Option<Seq<char>>) -> Seq<
    char,
> {
    let extra = strs::join(labels::record_extras(r), " | "@);
    let line =
        (strs::trim(r.ts@) + " · "@ + labels::main_actor_label(r) + " · "@ + labels::brief(r.summary@, 72) + " · "@ + or_else(extra, "핵심 흐름"@));
    let with_reasons = if reasons.len() > 0 {
        line  + " · 선택 이유 "@ + strs::first(strs::join(reasons, ", "@), 80)
    } else {
        line
    };
    let with_score = match score {
        Some(s) => with_reasons  + " · score "@ + s,
        None => with_reasons,
    };
    strs::first(with_score, 280)
}

/// The line of a pick.
pub open spec fn pick_line(
    records: Seq<RecordItem>,
    labels: Seq<Option<String>>,
    p: Pick,
) -> Option<Seq<char>> {
    match record_with(records, p.id) {
        Some(i) => Some(
            timeline_line(
                records[i],
                p.reasons,
                match p.scored {
                    Some(k) => strs::opt_view(labels[k]),
                    None => None,
                },
            ),
        ),
        None => None,
    }
}

/// The records that were taken, one line each.
pub open spec fn timeline_of(
    records: Seq<RecordItem>,
    labels: Seq<Option<String>>,
    picks: Seq<Pick>,
) -> Seq<Seq<char>> {
    strs::head(strs::collected(picks, |p: Pick| pick_line(records, labels, p)), 6)
}

/// Why the record with this id was taken, from position `i` on.
pub open spec fn reasons_from(picks: Seq<Pick>, id: Seq<char>, i: int) -> Seq<Seq<char>>
    decreases picks.len() - i,
{
    if i < 0 || i >= picks.len() {
        seq!["핵심 근거"@]
    } else if picks[i].id == id {
        picks[i].reasons
    } else {
        reasons_from(picks, id, i + 1)
    }
}

/// A record as it is shown with an answer, under its number.
pub open spec fn evidence_of(r: RecordItem, picks: Seq<Pick>, number: nat) -> Evidence {
    let extra = strs::join(labels::record_extras(r), " | "@);
    Evidence {
        ref_id: "E"@ + strs::decimal(number),
        record_id: r.id@,
        ts: strs::trim(r.ts@),
        actor: labels::main_actor_label(r),
        place: labels::place_label(r),
        store: labels::store_label(r),
        summary: if extra.len() == 0 {
            labels::brief(r.summary@, 220)
        } else {
            strs::first((strs::trim(r.summary@) + " | "@ + extra), 220)
        },
        risk_label: ""@,
        reasons: reasons_from(picks, r.id@, 0),
    }
}

/// The records as they are shown with an answer.
pub open spec fn evidence_list(
    records: Seq<RecordItem>,
    positions: Seq<int>,
    picks: Seq<Pick>,
) -> Seq<Evidence> {
    Seq::new(
        positions.len(),
        |k: int| evidence_of(records[positions[k]], picks, (k + 1) as nat),
    )
}

fn reasons_for(selected: &Vec<Picked>, id: &str) -> (r: Vec<String>)
    ensures
        strs::views(r@) == reasons_from(strs::deep(selected@), id@, 0),
{
    let ghost picks = strs::deep(selected@);
    let mut i: usize = 0;
    while i < selected.len()
        invariant
            i <= selected@.len(),
            picks == strs::deep(selected@),
            reasons_from(picks, id@, 0) == reasons_from(picks, id@, i as int),
        decreases selected@.len() - i,
    {
        assert(picks[i as int] == selected@[i as int]@);
        if text::same(&selected[i].id, id) {
            return text::copy_list(&selected[i].reasons);
        }
        i += 1;
    }
    one_reason("핵심 근거")
}

fn timeline_line_of(r: &RecordItem, reasons: &Vec<String>, score: Option<&String>) -> (out: String)
    ensures
        out@ == timeline_line(
            *r,
            strs::views(reasons@),
            match score {
                Some(s) => Some(s@),
                None => None,
            },
        ),
{
    let extra = summarize_strategy_record_parts(r);
    let middle = text_or(&extra, "핵심 흐름");
    let mut line = text::copy(&text::trim(&r.ts));
    line.append(" · ");
    line.append(&strategy_main_actor_label(r));
    line.append(" · ");
    line.append(&brief_text(&r.summary, 72));
    line.append(" · ");
    line.append(&middle);
    assert(strs::views(reasons@).len() == reasons@.len());
    if reasons.len() > 0 {
        line.append(" · 선택 이유 ");
        line.append(&strategy_trim(&text::join(reasons, ", "), 80));
    }
    if let Some(s) = score {
        line.append(" · score ");
        line.append(s);
    }
    strategy_trim(&line, 280)
}

fn evidence_record(r: &RecordItem, selected: &Vec<Picked>, number: usize) -> (e:
    StrategyEvidenceRecord)
    ensures
        e@ == evidence_of(*r, strs::deep(selected@), number as nat),
{
    let extra = summarize_strategy_record_parts(r);
    let summary = if extra.unicode_len() == 0 {
        brief_text(&r.summary, 220)
    } else {
        let mut both = text::copy(&text::trim(&r.summary));
        both.append(" | ");
        both.append(&extra);
        strategy_trim(&both, 220)
    };
    let mut ref_id = "E".to_owned();
    ref_id.append(&text::decimal(number as u64));
    StrategyEvidenceRecord {
        ref_id,
        record_id: r.id.clone(),
        ts: text::trim(&r.ts),
        actor: strategy_main_actor_label(r),
        place: strategy_place_label(r),
        store: strategy_store_label(r),
        summary,
        risk_label: "".to_owned(),
        reasons: reasons_for(selected, &r.id),
    }
}

fn timeline_lines(
    records: &[RecordItem],
    score_labels: &[Option<String>],
    selected: &Vec<Picked>,
) -> (r: Vec<String>)
    requires
        records@.len() == score_labels@.len(),
        forall|j: int|
            0 <= j < selected@.len() ==> ((#[trigger] selected@[j]).scored matches Some(k)
                ==> k < records@.len()),
    ensures
        strs::views(r@) == timeline_of(records@, score_labels@, strs::deep(selected@)),
{
    let ghost picks = strs::deep(selected@);
    let ghost g = |p: Pick| pick_line(records@, score_labels@, p);
    let mut lines = text::no_texts();
    let mut i: usize = 0;
    assert(strs::collected(picks.take(0), g) =~= Seq::empty());
    while i < selected.len()
        invariant
            i <= selected@.len(),
            records@.len() == score_labels@.len(),
            forall|j: int|
                0 <= j < selected@.len() ==> ((#[trigger] selected@[j]).scored matches Some(k)
                    ==> k < records@.len()),
            picks == strs::deep(selected@),
            g == (|p: Pick| pick_line(records@, score_labels@, p)),
            strs::views(lines@) == strs::collected(picks.take(i as int), g),
        decreases selected@.len() - i,
    {
        assert(picks.take(i + 1).drop_last() =~= picks.take(i as int));
        assert(picks.take(i + 1).last() == selected@[i as int]@);
        if let Some(at) = find_record(records, &selected[i].id) {
            let score: Option<&String> = match selected[i].scored {
                Some(k) => score_labels[k].as_ref(),
                None => None,
            };
            let line = timeline_line_of(&records[at], &selected[i].reasons, score);
            text::push(&mut lines, line);
        }
        i += 1;
    }
    assert(picks.take(i as int) =~= picks);
    text::head(&lines, 6)
}

/// Gathers what an answer rests on: the records that were taken of the ranked ones, in the
/// order of their times, and the provisions. `score_labels` holds, for each record, its score in
/// words where it is above zero.
pub fn build_strategy_evidence_packet(
    case_item: Option<&CaseItem>,
    records: &[RecordItem],
    ranked_hits: &Vec<RankedHit>,
    score_labels: &[Option<String>],
    legal_references: Vec<StrategyLegalReference>,
) -> (r: StrategyEvidencePacket)
    requires
        records@.len() == score_labels@.len(),
        forall|i: int|
            0 <= i < ranked_hits@.len() ==> (#[trigger] ranked_hits@[i]).record < records@.len(),
    ensures
        ({
            let picks = selection(records@, ranked_hits@);
            let positions = taken(records@, picks);
            let chosen = at_positions(records@, positions);
            let title = title_of(labels::deref_case(case_item));
            &&& r.mode@ == if case_item is Some {
                "case-linked"@
            } else {
                "direct"@
            }
            &&& r.case_title@ == title
            &&& r.focus_summary@ == focus_of(title, chosen)
            &&& r.overview@ == overview_of(chosen)
            &&& strs::views(r.actor_summary@) == actor_summary(chosen)
            &&& strs::views(r.timeline_summary@) == timeline_of(records@, score_labels@, picks)
            &&& r.risk_summary@.len() == 0
            &&& strs::views(r.gaps@) == gaps_of(case_item is Some, chosen, records@.len())
            &&& strs::deep(r.evidence_records@) == evidence_list(records@, positions, picks)
            &&& r.legal_references@ == legal_references@
        }),
{
    let selected = select_strategy_evidence_records(records, ranked_hits);
    let ghost picks = selection(records@, ranked_hits@);
    proof {
        lemma_selection_refers(records@, ranked_hits@);
        assert forall|j: int|
            0 <= j < selected@.len() implies ((#[trigger] selected@[j]).scored matches Some(k)
                ==> k < records@.len()) by {
            assert(picks[j] == selected@[j]@);
        }
    }
    let positions = selected_record_positions(records, &selected);
    let ghost places = taken(records@, picks);
    let chosen = records_at(records, &positions);
    assert(chosen@.len() == positions@.len());
    let people = build_strategy_actor_summary(&chosen);
    let gaps = build_strategy_gaps(case_item.is_some(), &chosen, records.len());
    let title = match case_item {
        Some(c) => {
            let t = text::trim(&c.title);
            text_or(&t, "직접 분석")
        },
        None => "직접 분석".to_owned(),
    };
    let n: usize = chosen.len();
    let earliest = if n > 0 {
        text::trim(&chosen[0].ts)
    } else {
        "".to_owned()
    };
    let latest = if n > 0 {
        text::trim(&chosen[n - 1].ts)
    } else {
        "".to_owned()
    };
    let actor_line = text::join(&text::head(&people, 3), ", ");
    proof {
        reveal_strlit("");
    }
    let focus = if earliest.unicode_len() == 0 && latest.unicode_len() == 0 {
        let mut line = text::copy(&title);
        line.append(" 기준으로 핵심 근거 ");
        line.append(&text::decimal(n as u64));
        line.append("건을 묶었어요.");
        line
    } else {
        let mut line = text::copy(&title);
        line.append(" 기준. ");
        line.append(&text_or(&earliest, "시점 미상"));
        line.append(" ~ ");
        line.append(&text_or(&latest, "시점 미상"));
        line.append(" 흐름에서 핵심 근거 ");
        line.append(&text::decimal(n as u64));
        line.append("건을 골랐고, 주요 인물은 ");
        line.append(&text_or(&actor_line, "정리 중"));
        line.append("예요.");
        line
    };
    let overview = if n == 0 {
        "핵심 근거를 아직 고르지 못했어요.".to_owned()
    } else {
        let leads = text::map_first(&chosen, 3, lead_line, Ghost(|r: &RecordItem| lead_of(*r)));
        let mut line = text::copy("질문과 사건 맥락을 기준으로 기록을 다시 뽑아보니, 흐름의 중심은 ");
        line.append(&strategy_trim(&text::join(&leads, " -> "), 220));
        line.append(" 입니다.");
        line
    };
    let timeline = timeline_lines(records, score_labels, &selected);
    let ghost wanted = evidence_list(records@, places, picks);
    let mut evidence: Vec<StrategyEvidenceRecord> = Vec::new();
    let mut k: usize = 0;
    assert(strs::deep(evidence@) =~= wanted.take(0));
    while k < positions.len()
        invariant
            k <= positions@.len(),
            forall|i: int|
                0 <= i < positions@.len() ==> (#[trigger] positions@[i]) < records@.len(),
            places == positions@.map_values(|i: usize| i as int),
            picks == strs::deep(selected@),
            wanted == evidence_list(records@, places, picks),
            strs::deep(evidence@) == wanted.take(k as int),
        decreases positions@.len() - k,
    {
        let ghost before = strs::deep(evidence@);
        assert(places[k as int] == positions@[k as int]);
        assert(k < positions.len());
        let item = evidence_record(&records[positions[k]], &selected, k + 1);
        evidence.push(item);
        assert(strs::deep(evidence@) =~= before.push(item@));
        assert(wanted.take(k + 1) =~= wanted.take(k as int).push(item@));
        k += 1;
    }
    assert(wanted.take(k as int) =~= wanted);
    StrategyEvidencePacket {
        mode: if case_item.is_some() {
            "case-linked".to_owned()
        } else {
            "direct".to_owned()
        },
        case_title: title,
        focus_summary: focus,
        overview,
        actor_summary: people,
        timeline_summary: timeline,
        risk_summary: Vec::new(),
        gaps,
        evidence_records: evidence,
        legal_references,
    }
}

/// Every ranked record that was taken stands for a record of the list.
proof fn lemma_selection_refers(records: Seq<RecordItem>, hits: Seq<RankedHit>)
    requires
        forall|i: int| 0 <= i < hits.len() ==> (#[trigger] hits[i]).record < records.len(),
    ensures
        forall|i: int|
            0 <= i < selection(records, hits).len() ==> ((#[trigger] selection(
                records,
                hits,
            )[i]).scored matches Some(k) ==> 0 <= k < records.len()),
{
    let p = |x: Pick| x.scored matches Some(k) ==> 0 <= k < records.len();
    let ranked = strs::head(hits, 5).map_values(|h: RankedHit| hit_pick(h));
    assert forall|i: int| 0 <= i < ranked.len() implies p(#[trigger] ranked[i]) by {
        assert(hits[i].record < records.len());
    }
    lemma_with_picks(Seq::empty(), ranked, p);
    let a = with_picks(Seq::empty(), ranked);
    lemma_with_picks(a, recent_picks(records), p);
    let b = with_picks(a, recent_picks(records));
    lemma_with_picks(b, default_picks(records), p);
    assert forall|i: int| 0 <= i < selection(records, hits).len() implies ((#[trigger] selection(
        records,
        hits,
    )[i]).scored matches Some(k) ==> 0 <= k < records.len()) by {
        assert(p(selection(records, hits)[i]));
    }
}

proof fn lemma_with_picks(list: Seq<Pick>, more: Seq<Pick>, p: spec_fn(Pick) -> bool)
    requires
        forall|i: int| 0 <= i < list.len() ==> p(#[trigger] list[i]),
        forall|i: int| 0 <= i < more.len() ==> p(#[trigger] more[i]),
    ensures
        forall|i: int| 0 <= i < with_picks(list, more).len() ==> p(#[trigger] with_picks(list, more)[i]),
    decreases more.len(),
{
    if more.len() > 0 {
        let t = more.drop_last();
        assert forall|i: int| 0 <= i < t.len() implies p(#[trigger] t[i]) by {
            assert(t[i] == more[i]);
        }
        lemma_with_picks(list, t, p);
        assert(p(more[more.len() - 1]));
        let head = with_picks(list, t);
        let all = with_picks(list, more);
        assert forall|i: int| 0 <= i < all.len() implies p(#[trigger] all[i]) by {
            if i < head.len() {
                assert(all[i] == head[i]);
            }
        }
    }
}

/// No two records are taken under the same id, and none under a blank one.
pub proof fn picks_have_ids_of_their_own(records: Seq<RecordItem>, hits: Seq<RankedHit>)
    ensures
        distinct_ids(selection(records, hits)),
{
    let ranked = strs::head(hits, 5).map_values(|h: RankedHit| hit_pick(h));
    lemma_distinct_ids(Seq::empty(), ranked);
    let a = with_picks(Seq::empty(), ranked);
    lemma_distinct_ids(a, recent_picks(records));
    lemma_distinct_ids(with_picks(a, recent_picks(records)), default_picks(records));
}

/// The ids are not blank, and no two are the same.
pub open spec fn distinct_ids(list: Seq<Pick>) -> bool {
    &&& forall|i: int| 0 <= i < list.len() ==> strs::trim((#[trigger] list[i]).id).len() > 0
    &&& forall|i: int, j: int|
        0 <= i < j < list.len() ==> (#[trigger] list[i]).id != (#[trigger] list[j]).id
}

proof fn lemma_distinct_ids(list: Seq<Pick>, more: Seq<Pick>)
    requires
        distinct_ids(list),
    ensures
        distinct_ids(with_picks(list, more)),
    decreases more.len(),
{
    if more.len() > 0 {
        lemma_distinct_ids(list, more.drop_last());
        let head = with_picks(list, more.drop_last());
        let all = with_picks(list, more);
        if all.len() > head.len() {
            assert forall|i: int, j: int| 0 <= i < j < all.len() implies (#[trigger] all[i]).id != (
            #[trigger] all[j]).id by {
                assert(all[i] == head[i]);
                if j < head.len() {
                    assert(all[j] == head[j]);
                }
            }
        }
    }
}

} // verus!
