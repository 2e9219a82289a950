//! What holds of the records that an answer rests on.

use crate::engine::evidence;
use crate::engine::evidence::{Counted, Dated, Pick, Recent, Stamped, Tally};
use crate::engine::labels;
use crate::engine::rank::RankedHit;
use crate::engine::records::{ActorRef, CaseItem, RecordItem};
use crate::lists;
use crate::sorting;
use crate::sorting::Ordered;
use crate::strs;
use crate::text;
use vstd::prelude::*;

verus! {

/// The id is taken.
pub open spec fn is_taken(picks: Seq<Pick>, id: Seq<char>) -> bool {
    exists|j: int| 0 <= j < picks.len() && (#[trigger] picks[j]).id == id
}

/// Three other records are not earlier than the one at `i`.
pub open spec fn three_are_as_late(records: Seq<RecordItem>, i: int) -> bool {
    exists|a: int, b: int, c: int| as_late(records, i, a, b, c)
}

/// The records at `a`, `b` and `c` are others than the one at `i`, and not earlier.
pub open spec fn as_late(records: Seq<RecordItem>, i: int, a: int, b: int, c: int) -> bool {
    let n = records.len();
    &&& 0 <= a < n && 0 <= b < n && 0 <= c < n
    &&& a != b && b != c && a != c && a != i && b != i && c != i
    &&& !strs::before(records[a].ts@, records[i].ts@)
    &&& !strs::before(records[b].ts@, records[i].ts@)
    &&& !strs::before(records[c].ts@, records[i].ts@)
}

proof fn lemma_picks(list: Seq<Pick>, more: Seq<Pick>)
    ensures
        ({
            let all = evidence::with_picks(list, more);
            &&& list.len() <= all.len() <= list.len() + more.len()
            &&& forall|j: int| 0 <= j < list.len() ==> #[trigger] all[j] == list[j]
            &&& forall|j: int| list.len() <= j < all.len() ==> more.contains(#[trigger] all[j])
            &&& forall|k: int|
                0 <= k < more.len() && strs::trim((#[trigger] more[k]).id).len() > 0 ==> is_taken(
                    all,
                    more[k].id,
                )
            &&& forall|k: int|
                0 <= k < more.len() && strs::trim((#[trigger] more[k]).id).len() > 0 && !is_taken(
                    list,
                    more[k].id,
                ) && (forall|m: int| 0 <= m < k ==> (#[trigger] more[m]).id != more[k].id)
                    ==> all.contains(more[k])
        }),
    decreases more.len(),
{
    if more.len() > 0 {
        let t = more.drop_last();
        lemma_picks(list, t);
        let head = evidence::with_picks(list, t);
        let all = evidence::with_picks(list, more);
        let last = more[more.len() - 1];
        assert forall|j: int| list.len() <= j < all.len() implies more.contains(
            #[trigger] all[j],
        ) by {
            if j < head.len() {
                assert(all[j] == head[j]);
                let k = choose|k: int| 0 <= k < t.len() && t[k] == head[j];
                assert(more[k] == all[j]);
            } else {
                assert(more[more.len() - 1] == all[j]);
            }
        }
        assert forall|k: int|
            0 <= k < more.len() && strs::trim((#[trigger] more[k]).id).len() > 0 implies is_taken(
            all,
            more[k].id,
        ) by {
            if k < t.len() {
                assert(t[k] == more[k]);
                let j = choose|j: int| 0 <= j < head.len() && (#[trigger] head[j]).id == more[k].id;
                assert(all[j].id == more[k].id);
            } else if evidence::was_picked(head, last.id) {
                let j = choose|j: int| 0 <= j < head.len() && (#[trigger] head[j]).id == last.id;
                assert(all[j].id == last.id);
            } else {
                assert(all[head.len() as int] == last);
            }
        }
        assert forall|k: int|
            0 <= k < more.len() && strs::trim((#[trigger] more[k]).id).len() > 0 && !is_taken(
                list,
                more[k].id,
            ) && (forall|m: int| 0 <= m < k ==> (#[trigger] more[m]).id != more[k].id) implies all.contains(
            more[k],
        ) by {
            if k < t.len() {
                assert(t[k] == more[k]);
                assert forall|m: int| 0 <= m < k implies (#[trigger] t[m]).id != t[k].id by {
                    assert(t[m] == more[m]);
                }
                let j = choose|j: int| 0 <= j < head.len() && head[j] == more[k];
                assert(all[j] == more[k]);
            } else {
                if evidence::was_picked(head, last.id) {
                    let j = choose|j: int|
                        0 <= j < head.len() && (#[trigger] head[j]).id == last.id;
                    if j < list.len() {
                        assert(list[j].id == last.id);
                    } else {
                        assert(t.contains(head[j]));
                        let m = choose|m: int| 0 <= m < t.len() && t[m] == head[j];
                        assert(more[m].id == last.id);
                    }
                }
                assert(all[head.len() as int] == last);
            }
        }
    }
}

proof fn lemma_time_orders()
    ensures
        sorting::weak_order::<Recent>(),
        sorting::weak_order::<Dated>(),
{
    assert forall|a: Stamped, b: Stamped, c: Stamped|
        #[trigger] Recent::after(a, b) && #[trigger] Recent::after(b, c) implies Recent::after(
        a,
        c,
    ) by {
        text::lemma_before_is_total_order(a.ts, b.ts, c.ts);
    }
    assert forall|a: Stamped, b: Stamped, c: Stamped| Recent::after(a, c) implies #[trigger] Recent::after(
        a,
        b,
    ) || #[trigger] Recent::after(b, c) by {
        text::lemma_before_is_total_order(a.ts, b.ts, c.ts);
        text::lemma_before_is_total_order(a.ts, c.ts, b.ts);
        text::lemma_before_is_total_order(b.ts, a.ts, c.ts);
    }
    assert forall|a: Stamped| !#[trigger] Recent::after(a, a) by {
        text::lemma_before_is_total_order(a.ts, a.ts, a.ts);
    }
    assert forall|a: Stamped, b: Stamped, c: Stamped|
        #[trigger] Dated::after(a, b) && #[trigger] Dated::after(b, c) implies Dated::after(
        a,
        c,
    ) by {
        text::lemma_before_is_total_order(c.ts, b.ts, a.ts);
    }
    assert forall|a: Stamped, b: Stamped, c: Stamped| Dated::after(a, c) implies #[trigger] Dated::after(
        a,
        b,
    ) || #[trigger] Dated::after(b, c) by {
        text::lemma_before_is_total_order(c.ts, b.ts, a.ts);
        text::lemma_before_is_total_order(c.ts, a.ts, b.ts);
        text::lemma_before_is_total_order(b.ts, c.ts, a.ts);
    }
    assert forall|a: Stamped| !#[trigger] Dated::after(a, a) by {
        text::lemma_before_is_total_order(a.ts, a.ts, a.ts);
    }
}

/// What is taken comes from the first five ranked records or from the list, under an id that is
/// not blank.
pub open spec fn comes_from(records: Seq<RecordItem>, hits: Seq<RankedHit>, p: Pick) -> bool {
    ||| exists|k: int| 0 <= k < hits.len() && k < 5 && p == from_hit(#[trigger] hits[k])
    ||| exists|i: int|
        0 <= i < records.len() && p.id == (#[trigger] records[i]).id@ && p.scored is None
}

/// A ranked record is taken with its first three reasons, and as the record that was scored.
pub open spec fn from_hit(h: RankedHit) -> Pick {
    let reasons = strs::views(h.reasons@);
    Pick {
        id: h.id@,
        reasons: if reasons.len() <= 3 {
            reasons
        } else {
            reasons.take(3)
        },
        scored: Some(h.record as int),
    }
}

/// Of the records under ids that are not blank, the first five that are ranked are taken, with
/// their reasons, and the three latest: whatever is not taken has three others as late. At most
/// eight are taken, none from anywhere else, and none only where the last four of the list have
/// blank ids.
pub proof fn ranked_and_recent_records_are_taken(records: Seq<RecordItem>, hits: Seq<RankedHit>)
    ensures
        ({
            let picks = evidence::selection(records, hits);
            &&& picks.len() <= 8
            &&& forall|k: int|
                0 <= k < hits.len() && k < 5 && strs::trim((#[trigger] hits[k]).id@).len() > 0
                    ==> is_taken(picks, hits[k].id@)
            &&& forall|k: int|
                0 <= k < hits.len() && k < 5 && strs::trim((#[trigger] hits[k]).id@).len() > 0 && (
                forall|m: int| 0 <= m < k ==> (#[trigger] hits[m]).id@ != hits[k].id@)
                    ==> picks.contains(from_hit(hits[k]))
            &&& forall|i: int|
                0 <= i < records.len() && strs::trim((#[trigger] records[i]).id@).len() > 0
                    ==> is_taken(picks, records[i].id@) || three_are_as_late(records, i)
            &&& forall|j: int|
                0 <= j < picks.len() ==> comes_from(records, hits, #[trigger] picks[j])
            &&& picks.len() == 0 ==> forall|i: int|
                records.len() - 4 <= i < records.len() && i >= 0 ==> strs::trim(
                    (#[trigger] records[i]).id@,
                ).len() == 0
        }),
{
    let first = strs::head(hits, 5).map_values(|h: RankedHit| evidence::hit_pick(h));
    let recent = evidence::recent_picks(records);
    let rest = evidence::default_picks(records);
    let none = Seq::<Pick>::empty();
    let ranked = evidence::with_picks(none, first);
    let all = evidence::with_picks(ranked, recent);
    let picks = evidence::selection(records, hits);
    lemma_picks(none, first);
    lemma_picks(ranked, recent);
    lemma_picks(all, rest);
    let stamps = evidence::stamps(records);
    let sorted = sorting::sorted::<Recent>(stamps);
    lemma_time_orders();
    sorting::sorting_permutes_into_order::<Recent>(stamps);
    assert(stamps.no_duplicates()) by {
        assert forall|i: int, j: int| 0 <= i < stamps.len() && 0 <= j < stamps.len() && i != j implies stamps[i]
            != stamps[j] by {
            assert(stamps[i].record == i && stamps[j].record == j);
        }
    }
    lists::permuted_lists_hold_the_same(stamps, sorted, stamps[0]);
    assert forall|j: int| 0 <= j < sorted.len() implies {
        let s = #[trigger] sorted[j];
        0 <= s.record < records.len() && s == stamps[s.record]
    } by {
        lists::permuted_lists_hold_the_same(stamps, sorted, sorted[j]);
        assert(sorted.contains(sorted[j]));
        let i = choose|i: int| 0 <= i < stamps.len() && stamps[i] == sorted[j];
        assert(stamps[i].record == i);
    }
    assert(picks.len() <= 8);
    assert forall|j: int| 0 <= j < all.len() implies #[trigger] all[j] == picks[j] by {
        if all.len() > 0 {
            assert(picks == all);
        }
    }
    assert forall|k: int|
        0 <= k < hits.len() && k < 5 && strs::trim((#[trigger] hits[k]).id@).len() > 0 implies is_taken(
        picks,
        hits[k].id@,
    ) by {
        assert(first[k] == evidence::hit_pick(hits[k]));
        let j = choose|j: int| 0 <= j < ranked.len() && (#[trigger] ranked[j]).id == first[k].id;
        assert(all[j] == ranked[j]);
        assert(picks[j].id == hits[k].id@);
    }
    assert forall|k: int|
        0 <= k < hits.len() && k < 5 && strs::trim((#[trigger] hits[k]).id@).len() > 0 && (forall|
            m: int,
        | 0 <= m < k ==> (#[trigger] hits[m]).id@ != hits[k].id@) implies picks.contains(
        from_hit(hits[k]),
    ) by {
        assert(first[k] == evidence::hit_pick(hits[k]));
        assert(first[k] == from_hit(hits[k]));
        assert forall|m: int| 0 <= m < k implies (#[trigger] first[m]).id != first[k].id by {
            assert(first[m] == evidence::hit_pick(hits[m]));
        }
        assert(ranked.contains(first[k]));
        let j = choose|j: int| 0 <= j < ranked.len() && ranked[j] == first[k];
        assert(all[j] == ranked[j]);
        assert(picks[j] == first[k]);
    }
    assert forall|i: int|
        0 <= i < records.len() && strs::trim((#[trigger] records[i]).id@).len() > 0 implies is_taken(
        picks,
        records[i].id@,
    ) || three_are_as_late(records, i) by {
        lists::permuted_lists_hold_the_same(stamps, sorted, stamps[i]);
        assert(stamps.contains(stamps[i]));
        let p = choose|p: int| 0 <= p < sorted.len() && sorted[p] == stamps[i];
        if p < 3 {
            assert(recent[p] == evidence::plain_pick(records[i], "최근 흐름"@));
            let j = choose|j: int| 0 <= j < all.len() && (#[trigger] all[j]).id == recent[p].id;
            assert(picks[j].id == records[i].id@);
        } else {
            let a = sorted[0].record;
            let b = sorted[1].record;
            let c = sorted[2].record;
            assert(!Recent::after(sorted[0], sorted[p]));
            assert(!Recent::after(sorted[1], sorted[p]));
            assert(!Recent::after(sorted[2], sorted[p]));
            assert(as_late(records, i, a, b, c));
        }
    }
    assert forall|j: int| 0 <= j < picks.len() implies comes_from(
        records,
        hits,
        #[trigger] picks[j],
    ) by {
        if all.len() == 0 {
            assert(rest.contains(picks[j]));
            let k = choose|k: int| 0 <= k < rest.len() && rest[k] == picks[j];
            assert(picks[j].id == records[records.len() - 1 - k].id@);
        } else if j < ranked.len() {
            assert(picks[j] == ranked[j]);
            assert(first.contains(ranked[j]));
            let k = choose|k: int| 0 <= k < first.len() && first[k] == ranked[j];
            assert(picks[j] == from_hit(hits[k]));
        } else {
            assert(recent.contains(all[j]));
            let k = choose|k: int| 0 <= k < recent.len() && recent[k] == all[j];
            assert(picks[j].id == records[sorted[k].record].id@);
        }
    }
    if picks.len() == 0 {
        assert forall|i: int| records.len() - 4 <= i < records.len() && i >= 0 implies strs::trim(
            (#[trigger] records[i]).id@,
        ).len() == 0 by {
            let k = records.len() - 1 - i;
            assert(rest[k] == evidence::plain_pick(records[i], "기본 선택"@));
            if strs::trim(records[i].id@).len() > 0 {
                assert(is_taken(picks, rest[k].id));
            }
        }
    }
}

proof fn lemma_record_with(records: Seq<RecordItem>, id: Seq<char>)
    ensures
        match evidence::record_with(records, id) {
            Some(i) => 0 <= i < records.len() && records[i].id@ == id && forall|j: int|
                i < j < records.len() ==> (#[trigger] records[j]).id@ != id,
            None => forall|j: int| 0 <= j < records.len() ==> (#[trigger] records[j]).id@ != id,
        },
    decreases records.len(),
{
    if records.len() > 0 && records.last().id@ != id {
        let t = records.drop_last();
        lemma_record_with(t, id);
        match evidence::record_with(t, id) {
            Some(i) => {
                assert(records[i] == t[i]);
                assert forall|j: int| i < j < records.len() implies (#[trigger] records[j]).id@
                    != id by {
                    if j < t.len() {
                        assert(records[j] == t[j]);
                    }
                }
            },
            None => {
                assert forall|j: int| 0 <= j < records.len() implies (#[trigger] records[j]).id@
                    != id by {
                    if j < t.len() {
                        assert(records[j] == t[j]);
                    }
                }
            },
        }
    }
}

/// An evidence record with this id is shown.
pub open spec fn is_shown(records: Seq<RecordItem>, positions: Seq<int>, id: Seq<char>) -> bool {
    exists|k: int| 0 <= k < positions.len() && records[#[trigger] positions[k]].id@ == id
}

/// The records that were taken are shown, the earliest first: all that the list has under their
/// ids, and no others, numbered from E1 on, each with its own id, time, place and kind and with
/// the reasons for which it was taken.
pub proof fn taken_records_are_shown_in_order(records: Seq<RecordItem>, picks: Seq<Pick>)
    requires
        evidence::distinct_ids(picks),
    ensures
        ({
            let positions = evidence::taken(records, picks);
            let shown = evidence::evidence_list(records, positions, picks);
            &&& shown.len() == positions.len()
            &&& forall|k: int|
                0 <= k < positions.len() ==> {
                    let i = #[trigger] positions[k];
                    &&& 0 <= i < records.len()
                    &&& shown[k].ref_id == "E"@ + strs::decimal((k + 1) as nat)
                    &&& shown[k].record_id == records[i].id@
                    &&& shown[k].ts == strs::trim(records[i].ts@)
                    &&& shown[k].actor == labels::main_actor_label(records[i])
                    &&& shown[k].place == labels::place_label(records[i])
                    &&& shown[k].store == labels::store_label(records[i])
                    &&& is_taken(picks, records[i].id@)
                }
            &&& forall|k: int, m: int|
                0 <= k < m < positions.len() ==> !strs::before(
                    records[#[trigger] positions[m]].ts@,
                    records[#[trigger] positions[k]].ts@,
                )
            &&& forall|j: int, i: int|
                0 <= j < picks.len() && 0 <= i < records.len() && (#[trigger] picks[j]).id == (
                #[trigger] records[i]).id@ ==> is_shown(records, positions, picks[j].id)
            &&& forall|k: int, j: int|
                0 <= k < shown.len() && 0 <= j < picks.len() && (#[trigger] picks[j]).id == (
                #[trigger] shown[k]).record_id ==> shown[k].reasons == picks[j].reasons
        }),
{
    let g = |p: Pick|
        match evidence::record_with(records, p.id) {
            Some(i) => Some(Stamped { record: i, ts: records[i].ts@ }),
            None => None,
        };
    let stamps = evidence::taken_stamps(records, picks);
    let sorted = sorting::sorted::<Dated>(stamps);
    let positions = evidence::taken(records, picks);
    let shown = evidence::evidence_list(records, positions, picks);
    lemma_time_orders();
    sorting::sorting_permutes_into_order::<Dated>(stamps);
    assert forall|k: int| 0 <= k < sorted.len() implies {
        let s = #[trigger] sorted[k];
        &&& 0 <= s.record < records.len()
        &&& s.ts == records[s.record].ts@
        &&& is_taken(picks, records[s.record].id@)
    } by {
        let s = sorted[k];
        lists::permuted_lists_hold_the_same(stamps, sorted, s);
        assert(sorted.contains(s));
        lists::collecting_collects_what_is_made(picks, g, s);
        let j = choose|j: int| 0 <= j < picks.len() && g(#[trigger] picks[j]) == Some(s);
        lemma_record_with(records, picks[j].id);
        assert(picks[j].id == records[s.record].id@);
    }
    assert forall|k: int, m: int| 0 <= k < m < positions.len() implies !strs::before(
        records[#[trigger] positions[m]].ts@,
        records[#[trigger] positions[k]].ts@,
    ) by {
        assert(!Dated::after(sorted[k], sorted[m]));
    }
    assert forall|j: int, i: int|
        0 <= j < picks.len() && 0 <= i < records.len() && (#[trigger] picks[j]).id == (
        #[trigger] records[i]).id@ implies is_shown(records, positions, picks[j].id) by {
        lemma_record_with(records, picks[j].id);
        let at = evidence::record_with(records, picks[j].id).unwrap();
        let s = Stamped { record: at, ts: records[at].ts@ };
        assert(g(picks[j]) == Some(s));
        lists::collecting_collects_what_is_made(picks, g, s);
        lists::permuted_lists_hold_the_same(stamps, sorted, s);
        let k = choose|k: int| 0 <= k < sorted.len() && sorted[k] == s;
        assert(positions[k] == at);
    }
    assert forall|k: int, j: int|
        0 <= k < shown.len() && 0 <= j < picks.len() && (#[trigger] picks[j]).id == (
        #[trigger] shown[k]).record_id implies shown[k].reasons == picks[j].reasons by {
        lemma_reasons(picks, shown[k].record_id, 0, j);
    }
}

proof fn lemma_reasons(picks: Seq<Pick>, id: Seq<char>, i: int, j: int)
    requires
        evidence::distinct_ids(picks),
        0 <= i <= j < picks.len(),
        picks[j].id == id,
    ensures
        evidence::reasons_from(picks, id, i) == picks[j].reasons,
    decreases picks.len() - i,
{
    if i < j {
        assert(picks[i].id != picks[j].id);
        lemma_reasons(picks, id, i + 1, j);
    }
}

/// The gaps of what was gathered: that there is no case, that the records are few, that not all
/// were taken, that half of them or more say nothing of what was done, or of what there is to
/// show. The last is left out where all the others hold.
pub proof fn gaps_are_what_is_not_known(case_given: bool, records: Seq<&RecordItem>, total: nat)
    ensures
        ({
            let gaps = evidence::gaps_of(case_given, records, total);
            let n = records.len();
            let idle = strs::count(records, |r: &RecordItem| evidence::lacks_actions(*r));
            let bare = strs::count(records, |r: &RecordItem| evidence::lacks_evidence(*r));
            let a = if case_given { 0int } else { 1 };
            let b = if n <= 2 { 1int } else { 0 };
            let c = if total > n { 1int } else { 0 };
            let d = if n > 0 && idle >= n / 2 { 1int } else { 0 };
            let e = if n > 0 && bare >= n / 2 { 1int } else { 0 };
            &&& a + b + c + d + e <= 4 ==> gaps.len() == a + b + c + d + e
            &&& a + b + c + d + e == 5 ==> gaps.len() == 4
            &&& a == 1 ==> gaps[0] == "기준 컬렉션 없이 직접 분석 중이라 사건 범위가 넓을 수 있어요."@
            &&& b == 1 ==> gaps[a] == "현재 연결된 핵심 기록 수가 적어서 흐름 판단이 제한적일 수 있어요."@
            &&& c == 1 ==> gaps[a + b] == "전체 기록 "@ + strs::decimal(total)
                + "건 중 핵심 근거 "@ + strs::decimal(n) + "건만 추려 분석했어요."@
            &&& d == 1 ==> gaps[a + b + c] == "내가 실제로 취한 대응 메모가 비어 있는 기록이 많아요."@
            &&& e == 1 && a + b + c + d <= 3 ==> gaps[a + b + c + d]
                == "관련 자료·증빙 정리 칸이 비어 있는 기록이 많아요."@
        }),
{
}

/// A record says nothing of what was done, or of what there is to show, where that part of its
/// summary is blank or it has no parts.
pub proof fn lacking_is_saying_nothing(r: RecordItem)
    ensures
        r.summary_parts is None ==> evidence::lacks_actions(r) && evidence::lacks_evidence(r),
        r.summary_parts matches Some(p) ==> {
            &&& evidence::lacks_actions(r) <==> strs::trim(p.teacher_actions@).len() == 0
            &&& evidence::lacks_evidence(r) <==> strs::trim(p.evidence_list@).len() == 0
        },
{
}

/// The people of some records are named with the number of times that they are counted: at most
/// six, the busiest first and then by name, and nobody who is left out is counted more often.
pub proof fn the_busiest_people_are_named(records: Seq<&RecordItem>) -> (top: Seq<Counted>)
    ensures
        ({
            let people = evidence::people_labels(records);
            let lines = evidence::actor_summary(records);
            &&& lines.len() == top.len() <= 6
            &&& forall|k: int|
                0 <= k < top.len() ==> {
                    let t = #[trigger] top[k];
                    &&& people.contains(t.label)
                    &&& t.count == strs::count(people, |x: Seq<char>| x == t.label)
                    &&& lines[k] == t.label + " · "@ + strs::decimal(t.count) + "건"@
                }
            &&& forall|k: int, m: int|
                0 <= k < m < top.len() ==> {
                    &&& (#[trigger] top[k]).label != (#[trigger] top[m]).label
                    &&& top[k].count > top[m].count || (top[k].count == top[m].count
                        && strs::before(top[k].label, top[m].label))
                }
            &&& forall|x: Seq<char>| #[trigger]
                people.contains(x) ==> (exists|k: int|
                    0 <= k < top.len() && (#[trigger] top[k]).label == x) || (top.len() == 6
                    && forall|k: int|
                    0 <= k < 6 ==> (#[trigger] top[k]).count >= strs::count(
                        people,
                        |y: Seq<char>| y == x,
                    ))
        }),
{
    let people = evidence::people_labels(records);
    let once = strs::distinct(people);
    let all = evidence::tallies(people);
    let sorted = sorting::sorted::<Tally>(all);
    let top = strs::head(sorted, 6);
    let lines = evidence::actor_summary(records);
    assert(sorting::weak_order::<Tally>()) by {
        assert forall|a: Counted, b: Counted, c: Counted|
            #[trigger] Tally::after(a, b) && #[trigger] Tally::after(b, c) implies Tally::after(
            a,
            c,
        ) by {
            text::lemma_before_is_total_order(c.label, b.label, a.label);
        }
        assert forall|a: Counted, b: Counted, c: Counted| Tally::after(a, c) implies #[trigger] Tally::after(
            a,
            b,
        ) || #[trigger] Tally::after(b, c) by {
            text::lemma_before_is_total_order(c.label, b.label, a.label);
            text::lemma_before_is_total_order(c.label, a.label, b.label);
            text::lemma_before_is_total_order(b.label, c.label, a.label);
        }
        assert forall|a: Counted| !#[trigger] Tally::after(a, a) by {
            text::lemma_before_is_total_order(a.label, a.label, a.label);
        }
    }
    sorting::sorting_permutes_into_order::<Tally>(all);
    lists::distinct_items_are_those_of_the_list(people, Seq::empty());
    assert(all.no_duplicates()) by {
        assert forall|i: int, j: int| 0 <= i < all.len() && 0 <= j < all.len() && i != j implies all[i]
            != all[j] by {
            assert(all[i].label == once[i] && all[j].label == once[j]);
            if i < j {
                assert(once[i] != once[j]);
            } else {
                assert(once[j] != once[i]);
            }
        }
    }
    lists::permuted_lists_hold_the_same(all, sorted, all[0]);
    assert forall|k: int| 0 <= k < sorted.len() implies {
        let t = #[trigger] sorted[k];
        &&& people.contains(t.label)
        &&& t.count == strs::count(people, |x: Seq<char>| x == t.label)
    } by {
        let t = sorted[k];
        lists::permuted_lists_hold_the_same(all, sorted, t);
        assert(sorted.contains(t));
        let i = choose|i: int| 0 <= i < all.len() && all[i] == t;
        assert(once[i] == t.label);
        assert(once.contains(t.label));
        lists::distinct_items_are_those_of_the_list(people, t.label);
        assert((|x: Seq<char>| x == t.label) =~= (|x: Seq<char>| x == once[i]));
    }
    assert forall|k: int, m: int| 0 <= k < m < top.len() implies {
        &&& (#[trigger] top[k]).label != (#[trigger] top[m]).label
        &&& top[k].count > top[m].count || (top[k].count == top[m].count && strs::before(
            top[k].label,
            top[m].label,
        ))
    } by {
        assert(top[k] == sorted[k] && top[m] == sorted[m]);
        assert(!Tally::after(sorted[k], sorted[m]));
        assert(sorted[k] != sorted[m]);
        text::lemma_before_is_total_order(top[k].label, top[m].label, top[k].label);
        if top[k].label == top[m].label {
            assert((|x: Seq<char>| x == top[k].label) =~= (|x: Seq<char>| x == top[m].label));
            assert(top[k].count == top[m].count);
            assert(top[k] =~= top[m]);
        }
    }
    assert forall|x: Seq<char>| #[trigger] people.contains(x) implies (exists|k: int|
        0 <= k < top.len() && (#[trigger] top[k]).label == x) || (top.len() == 6 && forall|k: int|
        0 <= k < 6 ==> (#[trigger] top[k]).count >= strs::count(people, |y: Seq<char>| y == x)) by {
        lists::distinct_items_are_those_of_the_list(people, x);
        let i = choose|i: int| 0 <= i < once.len() && once[i] == x;
        assert(all[i].label == x);
        assert((|t: Seq<char>| t == once[i]) =~= (|y: Seq<char>| y == x));
        assert(all.contains(all[i]));
        lists::permuted_lists_hold_the_same(all, sorted, all[i]);
        let p = choose|p: int| 0 <= p < sorted.len() && sorted[p] == all[i];
        if p < top.len() {
            assert(top[p].label == x);
        } else {
            assert forall|k: int| 0 <= k < 6 implies (#[trigger] top[k]).count >= strs::count(
                people,
                |y: Seq<char>| y == x,
            ) by {
                assert(top[k] == sorted[k]);
                assert(!Tally::after(sorted[k], sorted[p]));
            }
        }
    }
    assert forall|k: int| 0 <= k < top.len() implies {
        let t = #[trigger] top[k];
        &&& people.contains(t.label)
        &&& t.count == strs::count(people, |x: Seq<char>| x == t.label)
        &&& lines[k] == t.label + " · "@ + strs::decimal(t.count) + "건"@
    } by {
        assert(top[k] == sorted[k]);
    }
    top
}

/// Every record counts for its main person, and for each of the others, as a person concerned.
pub proof fn the_people_of_every_record_count(records: Seq<&RecordItem>, i: int)
    requires
        0 <= i < records.len(),
    ensures
        ({
            let people = evidence::people_labels(records);
            let main = labels::main_actor_label(*records[i]);
            &&& strs::trim(main).len() > 0 ==> people.contains(main)
            &&& forall|k: int|
                0 <= k < records[i].related@.len() && strs::trim(
                    "관련 "@ + labels::actor_short(#[trigger] records[i].related@[k]),
                ).len() > 0 ==> people.contains(
                    "관련 "@ + labels::actor_short(records[i].related@[k]),
                )
        }),
    decreases records.len(),
{
    let t = records.drop_last();
    let head = evidence::people_labels(t);
    let people = evidence::people_labels(records);
    let r = *records[i];
    let main = labels::main_actor_label(r);
    if i < t.len() {
        the_people_of_every_record_count(t, i);
        assert(t[i] == records[i]);
        assert forall|x: Seq<char>| #[trigger] head.contains(x) implies people.contains(x) by {
            let j = choose|j: int| 0 <= j < head.len() && head[j] == x;
            assert(people[j] == x);
        }
    } else {
        let f = |a: ActorRef| evidence::related_label(a);
        let p = |s: Seq<char>| strs::trim(s).len() > 0;
        let mapped = r.related@.map_values(f);
        let others = strs::nonblank(mapped);
        let with_main = if strs::trim(main).len() > 0 {
            head.push(main)
        } else {
            head
        };
        assert(people == with_main + others);
        if strs::trim(main).len() > 0 {
            assert(people[head.len() as int] == main);
        }
        assert forall|k: int|
            0 <= k < records[i].related@.len() && strs::trim(
                "관련 "@ + labels::actor_short(#[trigger] records[i].related@[k]),
            ).len() > 0 implies people.contains(
            "관련 "@ + labels::actor_short(records[i].related@[k]),
        ) by {
            let x = "관련 "@ + labels::actor_short(r.related@[k]);
            assert(mapped[k] == x);
            lists::keeping_keeps_what_is_accepted(mapped, p, x);
            let j = choose|j: int| 0 <= j < others.len() && others[j] == x;
            assert(people[with_main.len() + j] == x);
        }
    }
}

/// A choice is shown as it is; where there is none, or where it says that it is another, what was
/// written instead is shown, and a word for the lack of both. This holds of places and of kinds.
pub proof fn choices_are_shown_as_they_are(r: RecordItem)
    ensures
        ({
            let place = strs::trim(r.place@);
            let other_place = strs::trim(r.place_other@);
            let open = place.len() == 0 || place == "기타"@;
            &&& !open ==> labels::place_label(r) == place
            &&& open && other_place.len() > 0 ==> labels::place_label(r) == other_place
            &&& open && other_place.len() == 0 ==> labels::place_label(r) == "장소 미상"@
        }),
        ({
            let kind = strs::trim(r.store_type@);
            let other_kind = strs::trim(r.store_other@);
            let open = kind.len() == 0 || kind == "기타"@;
            &&& !open ==> labels::store_label(r) == kind
            &&& open && other_kind.len() > 0 ==> labels::store_label(r) == other_kind
            &&& open && other_kind.len() == 0 ==> labels::store_label(r) == "기록유형 미상"@
        }),
{
}

/// A person is named by kind and name, or by the one of them that is not blank.
pub proof fn people_are_named_by_kind_and_name(a: ActorRef)
    ensures
        ({
            let kind = strs::trim(a.kind@);
            let name = strs::trim(a.name@);
            &&& kind.len() > 0 && name.len() > 0 ==> labels::actor_short(a) == kind + " "@ + name
            &&& kind.len() == 0 ==> labels::actor_short(a) == name
            &&& name.len() == 0 ==> labels::actor_short(a) == kind
        }),
{
}

/// A case without a title, and no case at all, go by the same words; another goes by its title.
pub proof fn a_case_goes_by_its_title(c: CaseItem)
    ensures
        strs::trim(c.title@).len() > 0 ==> evidence::title_of(Some(c)) == strs::trim(c.title@),
        strs::trim(c.title@).len() == 0 ==> evidence::title_of(Some(c)) == evidence::title_of(None),
        evidence::title_of(None) == "직접 분석"@,
{
}

} // verus!
