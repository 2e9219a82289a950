//! What holds of how records and people are summed up.

use crate::engine::evidence;
use crate::engine::evidence::Pick;
use crate::engine::labels;
use crate::engine::packet::{StrategyEvidencePacket, StrategyEvidenceRecord};
use crate::engine::records::RecordItem;
use crate::engine::sanitize;
use crate::engine::structured;
use crate::lists;
use crate::strs;
use crate::texts;
use vstd::prelude::*;

verus! {

/// The beginning of a text that is cut is that of the text that it begins with.
proof fn lemma_cut(front: Seq<char>, rest: Seq<char>, n: nat)
    ensures
        strs::starts_with(strs::first(front + rest, n), strs::first(front, n)),
        strs::first(front + rest, n).len() < n ==> strs::first(front + rest, n) == front + rest,
{
    let cut = strs::first(front + rest, n);
    let begin = strs::first(front, n);
    assert(cut.subrange(0, begin.len() as int) =~= begin);
}

proof fn lemma_extras(r: RecordItem)
    ensures
        r.summary_parts is None ==> strs::join(labels::record_extras(r), " | "@).len() == 0,
        r.summary_parts matches Some(p) ==> {
            let extra = strs::join(labels::record_extras(r), " | "@);
            let issues = strs::trim(p.issues@);
            let material = strs::trim(p.evidence_list@);
            let actions = strs::trim(p.teacher_actions@);
            &&& issues.len() > 0 ==> extra.len() > 0 && strs::contains(
                extra,
                "핵심포인트: "@ + strs::first(issues, 90),
            )
            &&& material.len() > 0 ==> extra.len() > 0 && strs::contains(
                extra,
                "자료: "@ + strs::first(material, 72),
            )
            &&& actions.len() > 0 ==> extra.len() > 0 && strs::contains(
                extra,
                "내대응: "@ + strs::first(actions, 72),
            )
        },
{
    match r.summary_parts {
        Some(p) => {
            let list = labels::record_extras(r);
            let issues = strs::trim(p.issues@);
            let material = strs::trim(p.evidence_list@);
            let actions = strs::trim(p.teacher_actions@);
            let a = if issues.len() > 0 {
                1int
            } else {
                0
            };
            let b = if material.len() > 0 {
                a + 1
            } else {
                a
            };
            if issues.len() > 0 {
                assert(list[0] == "핵심포인트: "@ + strs::first(issues, 90));
                let at = lists::joined_parts_stand_in_the_text(list, " | "@, 0);
            }
            if material.len() > 0 {
                assert(list[a] == "자료: "@ + strs::first(material, 72));
                let at = lists::joined_parts_stand_in_the_text(list, " | "@, a);
            }
            if actions.len() > 0 {
                assert(list[b] == "내대응: "@ + strs::first(actions, 72));
                let at = lists::joined_parts_stand_in_the_text(list, " | "@, b);
            }
        },
        None => {},
    }
}

/// A record that is shown begins with its summary and goes on with its points, its material and
/// what was done, each under its name, as far as 220 characters reach.
pub proof fn a_shown_record_tells_what_happened(r: RecordItem, picks: Seq<Pick>, number: nat)
    ensures
        ({
            let told = evidence::evidence_of(r, picks, number).summary;
            &&& told.len() <= 220
            &&& strs::starts_with(told, strs::first(strs::trim(r.summary@), 220))
            &&& r.summary_parts is None ==> told == strs::first(strs::trim(r.summary@), 220)
            &&& r.summary_parts matches Some(p) ==> (told.len() < 220 ==> {
                let issues = strs::trim(p.issues@);
                let material = strs::trim(p.evidence_list@);
                let actions = strs::trim(p.teacher_actions@);
                &&& issues.len() > 0 ==> strs::contains(
                    told,
                    "핵심포인트: "@ + strs::first(issues, 90),
                )
                &&& material.len() > 0 ==> strs::contains(
                    told,
                    "자료: "@ + strs::first(material, 72),
                )
                &&& actions.len() > 0 ==> strs::contains(
                    told,
                    "내대응: "@ + strs::first(actions, 72),
                )
            })
            &&& evidence::evidence_of(r, picks, number).risk_label.len() == 0
        }),
{
    reveal_strlit("");
    let s = strs::trim(r.summary@);
    let extra = strs::join(labels::record_extras(r), " | "@);
    lemma_extras(r);
    lemma_cut(s, " | "@ + extra, 220);
    assert(s + " | "@ + extra =~= s + (" | "@ + extra));
    lemma_cut(s, Seq::empty(), 220);
    assert(s + Seq::<char>::empty() =~= s);
    texts::parts_stand_in_the_whole();
}

/// A line of the course begins with the time and the person; it tells the summary and why the
/// record was chosen, as far as 280 characters reach.
pub proof fn a_line_of_the_course_tells_when_and_who(
    r: RecordItem,
    reasons: Seq<Seq<char>>,
    score: Option<Seq<char>>,
)
    ensures
        ({
            let line = evidence::timeline_line(r, reasons, score);
            &&& line.len() <= 280
            &&& strs::starts_with(
                line,
                strs::first(strs::trim(r.ts@) + " · "@ + labels::main_actor_label(r), 280),
            )
            &&& line.len() < 280 ==> {
                &&& strs::contains(line, strs::first(strs::trim(r.summary@), 72))
                &&& reasons.len() > 0 ==> strs::contains(
                    line,
                    " · 선택 이유 "@ + strs::first(strs::join(reasons, ", "@), 80),
                )
                &&& score matches Some(s) ==> strs::contains(line, " · score "@ + s)
            }
        }),
{
    let front = strs::trim(r.ts@) + " · "@ + labels::main_actor_label(r);
    let extra = strs::join(labels::record_extras(r), " | "@);
    let told = strs::first(strs::trim(r.summary@), 72);
    let rest = " · "@ + told + " · "@ + evidence::or_else(extra, "핵심 흐름"@);
    let line = front + " · "@ + told + " · "@ + evidence::or_else(extra, "핵심 흐름"@);
    assert(line =~= front + rest);
    let why = " · 선택 이유 "@ + strs::first(strs::join(reasons, ", "@), 80);
    let a = if reasons.len() > 0 {
        rest + why
    } else {
        rest
    };
    let b = match score {
        Some(s) => a + (" · score "@ + s),
        None => a,
    };
    let full = front + b;
    if reasons.len() > 0 {
        assert(line + " · 선택 이유 "@ + strs::first(strs::join(reasons, ", "@), 80) =~= front + a);
    }
    match score {
        Some(s) => {
            assert(front + a + " · score "@ + s =~= full);
        },
        None => {},
    }
    assert(evidence::timeline_line(r, reasons, score) == strs::first(full, 280));
    lemma_cut(front, b, 280);
    texts::parts_stand_in_the_whole();
    assert(strs::contains(rest, told));
    assert(strs::contains(a, told));
    assert(strs::contains(b, told));
    assert(strs::contains(full, told));
    if reasons.len() > 0 {
        assert(strs::contains(a, why));
        assert(strs::contains(b, why));
        assert(strs::contains(full, why));
    }
    match score {
        Some(s) => {
            assert(strs::contains(b, " · score "@ + s));
            assert(strs::contains(full, " · score "@ + s));
        },
        None => {},
    }
}

proof fn lemma_all_collected<A, B>(list: Seq<A>, g: spec_fn(A) -> Option<B>, k: int)
    requires
        forall|i: int| 0 <= i < list.len() ==> g(#[trigger] list[i]) is Some,
    ensures
        strs::collected(list, g).len() == list.len(),
        0 <= k < list.len() ==> Some(strs::collected(list, g)[k]) == g(list[k]),
    decreases list.len(),
{
    if list.len() > 0 {
        let t = list.drop_last();
        assert forall|i: int| 0 <= i < t.len() implies g(#[trigger] t[i]) is Some by {
            assert(t[i] == list[i]);
        }
        lemma_all_collected(t, g, k);
        assert(g(list[list.len() - 1]) is Some);
        if 0 <= k < t.len() {
            assert(t[k] == list[k]);
        }
    }
}

/// The course has a line for each record that was chosen, in the order of the choice, and no more
/// than six.
pub proof fn the_course_follows_the_choice(
    records: Seq<RecordItem>,
    scores: Seq<Option<String>>,
    picks: Seq<Pick>,
    k: int,
    i: int,
)
    requires
        forall|j: int|
            0 <= j < picks.len() ==> evidence::record_with(records, (#[trigger] picks[j]).id)
                is Some,
        0 <= k < picks.len(),
        k < 6,
        evidence::record_with(records, picks[k].id) == Some(i),
    ensures
        ({
            let lines = evidence::timeline_of(records, scores, picks);
            &&& lines.len() == (if picks.len() < 6 {
                picks.len()
            } else {
                6
            })
            &&& strs::starts_with(
                lines[k],
                strs::first(
                    strs::trim(records[i].ts@) + " · "@ + labels::main_actor_label(records[i]),
                    280,
                ),
            )
        }),
{
    let g = |p: Pick| evidence::pick_line(records, scores, p);
    assert forall|j: int| 0 <= j < picks.len() implies g(#[trigger] picks[j]) is Some by {
        assert(evidence::record_with(records, picks[j].id) is Some);
    }
    lemma_all_collected(picks, g, k);
    let score = match picks[k].scored {
        Some(m) => strs::opt_view(scores[m]),
        None => None,
    };
    a_line_of_the_course_tells_when_and_who(records[i], picks[k].reasons, score);
}

/// What an answer rests on is told with the title of the case, how many records there are, and the
/// times of the first and the last.
pub proof fn the_focus_tells_how_many_and_when(title: Seq<char>, records: Seq<&RecordItem>)
    ensures
        ({
            let told = evidence::focus_of(title, records);
            &&& strs::starts_with(told, title)
            &&& strs::contains(told, strs::decimal(records.len()))
            &&& records.len() > 0 ==> strs::contains(told, strs::trim(records[0].ts@))
            &&& records.len() > 0 ==> strs::contains(told, strs::trim(records.last().ts@))
        }),
{
    texts::parts_stand_in_the_whole();
    reveal_strlit("");
    let told = evidence::focus_of(title, records);
    assert(told.subrange(0, title.len() as int) =~= title);
    if records.len() > 0 {
        let first = strs::trim(records[0].ts@);
        let last = strs::trim(records.last().ts@);
        if first.len() == 0 {
            assert(told.subrange(0, 0) =~= first);
            assert(strs::occurs_at(told, first, 0));
        }
        if last.len() == 0 {
            assert(told.subrange(0, 0) =~= last);
            assert(strs::occurs_at(told, last, 0));
        }
    }
}

/// An overview begins with the first record, as far as 220 characters reach, and says so where
/// there is none.
pub proof fn an_overview_leads_with_the_first_record(records: Seq<&RecordItem>)
    ensures
        records.len() == 0 ==> evidence::overview_of(records) == "핵심 근거를 아직 고르지 못했어요."@,
        records.len() > 0 ==> strs::contains(
            evidence::overview_of(records),
            strs::first(
                labels::main_actor_label(*records[0]) + " / "@ + labels::store_label(*records[0])
                    + " / "@ + strs::first(strs::trim(records[0].summary@), 58),
                220,
            ),
        ),
{
    if records.len() > 0 {
        let leads = strs::head(records, 3).map_values(|r: &RecordItem| evidence::lead_of(*r));
        let whole = strs::join(leads, " -> "@);
        let at = lists::joined_parts_stand_in_the_text(leads, " -> "@, 0);
        assert(at == 0);
        let lead = leads[0];
        assert(lead == evidence::lead_of(*records[0]));
        let rest = whole.skip(lead.len() as int);
        assert(whole =~= lead + rest) by {
            assert(whole.subrange(0, lead.len() as int) == lead);
            assert forall|i: int| 0 <= i < lead.len() implies whole[i] == lead[i] by {
                assert(whole.subrange(0, lead.len() as int)[i] == whole[i]);
            }
        }
        lemma_cut(lead, rest, 220);
        texts::parts_stand_in_the_whole();
        assert(strs::contains(strs::first(whole, 220), strs::first(lead, 220)));
    }
}

/// No two of the texts say the same.
pub open spec fn are_unlike(list: Seq<Seq<char>>) -> bool {
    forall|i: int, j: int|
        0 <= i < j < list.len() ==> sanitize::compact(#[trigger] list[i]) != sanitize::compact(
            #[trigger] list[j],
        )
}

/// A text that is put to others is said among them, and none of them twice; those that were there
/// stay where they were.
pub proof fn what_is_put_together_is_said_once(
    list: Seq<Seq<char>>,
    more: Seq<Seq<char>>,
    k: int,
)
    ensures
        ({
            let all = structured::with_all_unlike(list, more);
            &&& list.len() <= all.len()
            &&& all.take(list.len() as int) == list
            &&& are_unlike(list) ==> are_unlike(all)
            &&& 0 <= k < more.len() ==> structured::says_same(all, more[k])
            &&& forall|i: int|
                0 <= i < all.len() ==> list.contains(#[trigger] all[i]) || more.contains(all[i])
        }),
    decreases more.len(),
{
    let all = structured::with_all_unlike(list, more);
    if more.len() == 0 {
        assert(all.take(list.len() as int) =~= list);
        assert forall|i: int| 0 <= i < all.len() implies list.contains(#[trigger] all[i])
            || more.contains(all[i]) by {
            assert(list[i] == all[i]);
        }
    } else {
        let t = more.drop_last();
        what_is_put_together_is_said_once(list, t, k);
        let head = structured::with_all_unlike(list, t);
        let last = more[more.len() - 1];
        assert(all.take(list.len() as int) =~= head.take(list.len() as int));
        if all.len() > head.len() {
            assert(all[head.len() as int] == last);
            assert(!structured::says_same(head, last));
            if are_unlike(list) {
                assert forall|i: int, j: int| 0 <= i < j < all.len() implies sanitize::compact(
                    #[trigger] all[i],
                ) != sanitize::compact(#[trigger] all[j]) by {
                    assert(all[i] == head[i]);
                    if j < head.len() {
                        assert(all[j] == head[j]);
                    }
                }
            }
        }
        if 0 <= k < more.len() {
            if k < t.len() {
                assert(t[k] == more[k]);
                let j = choose|j: int|
                    0 <= j < head.len() && sanitize::compact(#[trigger] head[j])
                        == sanitize::compact(t[k]);
                assert(all[j] == head[j]);
            } else if all.len() == head.len() {
                assert(structured::says_same(head, last));
            } else {
                assert(sanitize::compact(all[head.len() as int]) == sanitize::compact(more[k]));
            }
        }
        assert forall|i: int| 0 <= i < all.len() implies list.contains(#[trigger] all[i])
            || more.contains(all[i]) by {
            if i < head.len() {
                assert(all[i] == head[i]);
                if !list.contains(head[i]) {
                    let j = choose|j: int| 0 <= j < t.len() && t[j] == head[i];
                    assert(more[j] == all[i]);
                }
            } else {
                assert(more[more.len() - 1] == all[i]);
            }
        }
    }
}

/// The people who are known are those of every record, each once.
pub proof fn the_people_of_the_records_are_known(packet: StrategyEvidencePacket, k: int)
    ensures
        are_unlike(structured::known_people(packet)),
        0 <= k < packet.evidence_records@.len() && strs::trim(
            packet.evidence_records@[k].actor@,
        ).len() > 0 ==> structured::says_same(
            structured::known_people(packet),
            strs::trim(packet.evidence_records@[k].actor@),
        ),
{
    let actors = packet.evidence_records@.map_values(
        |e: StrategyEvidenceRecord| strs::trim(e.actor@),
    );
    let of_records = strs::filled(actors);
    let named = structured::names_in_all(strs::views(packet.actor_summary@));
    let first = structured::with_all_unlike(Seq::empty(), named);
    what_is_put_together_is_said_once(Seq::empty(), named, 0);
    if 0 <= k < actors.len() && actors[k].len() > 0 {
        let p = |x: Seq<char>| x.len() > 0;
        assert(actors.contains(actors[k]));
        lists::keeping_keeps_what_is_accepted(actors, p, actors[k]);
        let j = choose|j: int| 0 <= j < of_records.len() && of_records[j] == actors[k];
        what_is_put_together_is_said_once(first, of_records, j);
    } else {
        what_is_put_together_is_said_once(first, of_records, 0);
    }
}

} // verus!
