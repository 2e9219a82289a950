//! What holds of the records that reports are written out as.

use crate::engine::record_answer;
use crate::engine::sanitize;
use crate::engine::structured;
use crate::engine::structured::{Noting, Report};
use crate::lists;
use crate::strs;
use vstd::prelude::*;

verus! {

/// What stands in a record: who it is about and where, and the texts under its headings.
#[verifier::ext_equal]
pub struct Written {
    pub actor: Seq<char>,
    pub counterpart: Seq<char>,
    pub place: Seq<char>,
    pub summary: Seq<char>,
    pub timeline: Seq<char>,
    pub issues: Seq<char>,
    pub evidence: Seq<char>,
    pub response: Seq<char>,
    pub further: Seq<char>,
}

/// The record with these texts under its headings.
pub open spec fn under_headings(now: Seq<char>, w: Written) -> Seq<char> {
    "[기록 기본정보]\n- 기록 시각: "@ + now + "\n- 주체: "@ + w.actor + "\n- 상대방: "@
        + w.counterpart + "\n- 위치/채널: "@ + w.place
        + "\n- 자료 형태: 직접 입력\n- 민감도: 보통\n\n[상황 요약]\n"@ + w.summary
        + "\n\n[배경 흐름]\n"@ + w.timeline + "\n\n[핵심 포인트]\n"@ + w.issues
        + "\n\n[관련 자료]\n"@ + w.evidence + "\n\n[내 대응 메모]\n"@ + w.response
        + "\n\n[추가 메모]\n"@ + w.further
}

/// An item, as it is written.
pub open spec fn cleaned(item: Seq<char>) -> Seq<char> {
    sanitize::sanitized(strs::trim(item))
}

/// Some item is not blank.
pub open spec fn has_items(items: Seq<Seq<char>>) -> bool {
    exists|k: int| 0 <= k < items.len() && cleaned(#[trigger] items[k]).len() > 0
}

/// Every item that is not blank is a line of the text.
pub open spec fn items_are_lines(items: Seq<Seq<char>>, mark: Seq<char>, body: Seq<char>) -> bool {
    forall|k: int|
        0 <= k < items.len() && cleaned(#[trigger] items[k]).len() > 0 ==> lists::is_line_of(
            body,
            mark + cleaned(items[k]),
        )
}

/// The text under a heading: the items one below the other, where there are any, else what the
/// draft has under that heading, else a sentence.
pub open spec fn fills_section(
    body: Seq<char>,
    items: Seq<Seq<char>>,
    mark: Seq<char>,
    draft: Seq<char>,
    heading: Seq<char>,
    sentence: Seq<char>,
) -> bool {
    let drafted = structured::section_body(draft, heading);
    &&& items_are_lines(items, mark, body)
    &&& !has_items(items) && strs::trim(drafted).len() > 0 ==> body == drafted
    &&& !has_items(items) && strs::trim(drafted).len() == 0 ==> body == sentence
}

proof fn lemma_clean_items(items: Seq<Seq<char>>)
    ensures
        structured::clean_items(items).len() > 0 <==> has_items(items),
        forall|k: int|
            0 <= k < items.len() && cleaned(#[trigger] items[k]).len() > 0
                ==> structured::clean_items(items).contains(cleaned(items[k])),
{
    let f = |s: Seq<char>| sanitize::sanitized(strs::trim(s));
    let p = |s: Seq<char>| s.len() > 0;
    let mapped = items.map_values(f);
    let kept = structured::clean_items(items);
    assert forall|k: int|
        0 <= k < items.len() && cleaned(#[trigger] items[k]).len() > 0 implies kept.contains(
        cleaned(items[k]),
    ) by {
        assert(mapped[k] == cleaned(items[k]));
        lists::keeping_keeps_what_is_accepted(mapped, p, mapped[k]);
    }
    if kept.len() > 0 {
        lists::keeping_keeps_what_is_accepted(mapped, p, kept[0]);
        let k = choose|k: int| 0 <= k < mapped.len() && mapped[k] == kept[0];
        assert(cleaned(items[k]).len() > 0);
    }
}

proof fn lemma_fills(
    items: Seq<Seq<char>>,
    draft: Seq<char>,
    heading: Seq<char>,
    sentence: Seq<char>,
)
    ensures
        fills_section(
            structured::lines_or(
                structured::clean_items(items),
                structured::body_or(draft, heading, sentence),
            ),
            items,
            Seq::empty(),
            draft,
            heading,
            sentence,
        ),
{
    let kept = structured::clean_items(items);
    let body = structured::lines_or(kept, structured::body_or(draft, heading, sentence));
    lemma_clean_items(items);
    assert forall|k: int|
        0 <= k < items.len() && cleaned(#[trigger] items[k]).len() > 0 implies lists::is_line_of(
        body,
        Seq::<char>::empty() + cleaned(items[k]),
    ) by {
        let line = cleaned(items[k]);
        assert(Seq::<char>::empty() + line =~= line);
        let j = choose|j: int| 0 <= j < kept.len() && kept[j] == line;
        lists::joined_lines_are_lines(kept, j);
    }
}

proof fn lemma_fills_marked(
    items: Seq<Seq<char>>,
    draft: Seq<char>,
    heading: Seq<char>,
    sentence: Seq<char>,
)
    ensures
        fills_section(
            structured::lines_or(
                structured::clean_items(items).map_values(
                    |q: Seq<char>| structured::itemized(q),
                ),
                structured::body_or(draft, heading, sentence),
            ),
            items,
            "- "@,
            draft,
            heading,
            sentence,
        ),
{
    let kept = structured::clean_items(items);
    let marked = kept.map_values(|q: Seq<char>| structured::itemized(q));
    let body = structured::lines_or(marked, structured::body_or(draft, heading, sentence));
    lemma_clean_items(items);
    assert forall|k: int|
        0 <= k < items.len() && cleaned(#[trigger] items[k]).len() > 0 implies lists::is_line_of(
        body,
        "- "@ + cleaned(items[k]),
    ) by {
        let line = cleaned(items[k]);
        let j = choose|j: int| 0 <= j < kept.len() && kept[j] == line;
        assert(marked[j] == "- "@ + line);
        lists::joined_lines_are_lines(marked, j);
    }
}

/// A report that is written out as a record has its timeline, its issues, its evidence and its
/// questions under the headings of their sections: every item that is not blank stands there,
/// cleaned, as a line of its own. What the draft says, or a standing sentence, is used only where
/// the report has no item for the section.
pub proof fn a_written_record_holds_the_report(
    report: Report,
    records: nat,
    message: Seq<char>,
    draft: Seq<char>,
    now: Seq<char>,
) -> (w: Written)
    ensures
        structured::rendered_record(report, records, message, draft, now) == under_headings(now, w),
        fills_section(
            w.timeline,
            report.timeline,
            Seq::empty(),
            draft,
            "[배경 흐름]"@,
            "사건 직전 맥락과 선행 갈등 여부는 추가 확인이 필요하다."@,
        ),
        fills_section(
            w.issues,
            report.issues,
            Seq::empty(),
            draft,
            "[핵심 포인트]"@,
            "즉시 확인할 쟁점과 위험 신호를 추가로 정리할 필요가 있다."@,
        ),
        fills_section(
            w.evidence,
            report.evidence,
            Seq::empty(),
            draft,
            "[관련 자료]"@,
            if records > 0 {
                "현재 연결된 참고 기록 "@ + strs::decimal(records)
                    + "건을 우선 근거로 삼고, 필요 시 추가 메모와 주변 관찰 자료를 확보한다."@
            } else {
                "현재 연결된 참고 기록은 없으며, 당사자 진술과 주변 관찰 자료를 추가 확보할 필요가 있다."@
            },
        ),
        fills_section(
            w.further,
            report.questions,
            "- "@,
            draft,
            "[추가 메모]"@,
            "추가 확인 질문이 없으면 현재 상태와 후속 관찰 필요 사항을 짧게 이어서 보완한다."@,
        ),
        tells_who(w, report, message),
        sums_up(w, report, draft),
        structured::noted(message).notes.len() > 0 ==> w.response == strs::join(
            structured::noted(message).notes,
            " / "@,
        ),
        structured::noted(message).notes.len() == 0 ==> fills_section(
            w.response,
            Seq::empty(),
            Seq::empty(),
            draft,
            "[내 대응 메모]"@,
            "직접 입력된 대응 메모는 없으며, 저장 전 실제 중재·분리·안내 내용을 보강할 필요가 있다."@,
        ),
{
    let people = record_answer::guessed_people(message);
    let notes = structured::noted(message).notes;
    let summary = structured::summary_text(report.summary, draft);
    let w = Written {
        actor: structured::person_at(people, report.actors, 0, "당사자 미상"@),
        counterpart: structured::person_at(people, report.actors, 1, "상대방 미상"@),
        place: record_answer::place_hint(message),
        summary: if strs::trim(summary).len() == 0 {
            "상황 요약이 비어 있어 추가 확인이 필요하다."@
        } else {
            summary
        },
        timeline: structured::lines_or(
            structured::clean_items(report.timeline),
            structured::body_or(
                draft,
                "[배경 흐름]"@,
                "사건 직전 맥락과 선행 갈등 여부는 추가 확인이 필요하다."@,
            ),
        ),
        issues: structured::lines_or(
            structured::clean_items(report.issues),
            structured::body_or(
                draft,
                "[핵심 포인트]"@,
                "즉시 확인할 쟁점과 위험 신호를 추가로 정리할 필요가 있다."@,
            ),
        ),
        evidence: structured::lines_or(
            structured::clean_items(report.evidence),
            structured::body_or(draft, "[관련 자료]"@, structured::no_material(records)),
        ),
        response: if notes.len() == 0 {
            structured::body_or(
                draft,
                "[내 대응 메모]"@,
                "직접 입력된 대응 메모는 없으며, 저장 전 실제 중재·분리·안내 내용을 보강할 필요가 있다."@,
            )
        } else {
            strs::join(notes, " / "@)
        },
        further: structured::lines_or(
            structured::clean_items(report.questions).map_values(
                |q: Seq<char>| structured::itemized(q),
            ),
            structured::body_or(
                draft,
                "[추가 메모]"@,
                "추가 확인 질문이 없으면 현재 상태와 후속 관찰 필요 사항을 짧게 이어서 보완한다."@,
            ),
        ),
    };
    lemma_fills(
        report.timeline,
        draft,
        "[배경 흐름]"@,
        "사건 직전 맥락과 선행 갈등 여부는 추가 확인이 필요하다."@,
    );
    lemma_fills(
        report.issues,
        draft,
        "[핵심 포인트]"@,
        "즉시 확인할 쟁점과 위험 신호를 추가로 정리할 필요가 있다."@,
    );
    lemma_fills(report.evidence, draft, "[관련 자료]"@, structured::no_material(records));
    lemma_fills_marked(
        report.questions,
        draft,
        "[추가 메모]"@,
        "추가 확인 질문이 없으면 현재 상태와 후속 관찰 필요 사항을 짧게 이어서 보완한다."@,
    );
    w
}

/// The record is about the people that the message names, else about those of the report, and says
/// so where neither names anybody.
pub open spec fn tells_who(w: Written, report: Report, message: Seq<char>) -> bool {
    let people = record_answer::guessed_people(message);
    &&& people.len() >= 1 ==> w.actor == people[0]
    &&& people.len() == 0 && report.actors.len() >= 1 ==> w.actor == report.actors[0]
    &&& people.len() == 0 && report.actors.len() == 0 ==> w.actor == "당사자 미상"@
    &&& people.len() >= 2 ==> w.counterpart == people[1]
    &&& people.len() < 2 && report.actors.len() >= 2 ==> w.counterpart == report.actors[1]
    &&& people.len() < 2 && report.actors.len() < 2 ==> w.counterpart == "상대방 미상"@
    &&& w.place == record_answer::place_hint(message)
}

/// The record sums up as the report does, and as the draft does where the report has no summary.
pub open spec fn sums_up(w: Written, report: Report, draft: Seq<char>) -> bool {
    let own = strs::first(strs::trim(cleaned(report.summary)), 1200);
    let drafted = strs::first(strs::trim(structured::section_body(draft, "[상황 요약]"@)), 1200);
    &&& strs::trim(report.summary).len() > 0 && strs::trim(own).len() > 0 ==> w.summary == own
    &&& strs::trim(report.summary).len() == 0 && strs::trim(drafted).len() > 0 ==> w.summary
        == drafted
    &&& strs::trim(report.summary).len() == 0 && strs::trim(drafted).len() == 0 ==> w.summary
        == "상황 요약이 비어 있어 추가 확인이 필요하다."@
}

/// The text has no hash sign.
pub open spec fn without_hash(s: Seq<char>) -> bool {
    forall|i: int| 0 <= i < s.len() ==> #[trigger] s[i] != '#'
}

proof fn lemma_no_note(s: Seq<char>)
    requires
        without_hash(s),
    ensures
        structured::noted(s) == (Noting { notes: Seq::empty(), open: None }),
    decreases s.len(),
{
    if s.len() > 0 {
        assert(s.last() == s[s.len() - 1]);
        assert(without_hash(s.drop_last())) by {
            assert forall|i: int| 0 <= i < s.drop_last().len() implies #[trigger] s.drop_last()[i]
                != '#' by {
                assert(s[i] != '#');
            }
        }
        lemma_no_note(s.drop_last());
    }
}

proof fn lemma_open_note(a: Seq<char>, b: Seq<char>)
    requires
        without_hash(a),
        without_hash(b),
    ensures
        structured::noted(a + "#"@ + b) == (Noting { notes: Seq::empty(), open: Some(b) }),
    decreases b.len(),
{
    reveal_strlit("#");
    let s = a + "#"@ + b;
    if b.len() == 0 {
        assert(s.drop_last() =~= a);
        assert(s.last() == '#');
        lemma_no_note(a);
        assert(b =~= Seq::empty());
    } else {
        let c = b.drop_last();
        assert(without_hash(c)) by {
            assert forall|i: int| 0 <= i < c.len() implies #[trigger] c[i] != '#' by {
                assert(b[i] != '#');
            }
        }
        assert(b[b.len() - 1] != '#');
        lemma_open_note(a, c);
        assert(s.drop_last() =~= a + "#"@ + c);
        assert(s.last() == b.last());
        assert(c.push(b.last()) =~= b);
    }
}

/// What stands between two hash signs is a note, cleaned, unless it is blank; what stands before
/// them is none, and what follows is read on its own.
pub proof fn notes_stand_between_hash_signs(a: Seq<char>, b: Seq<char>, rest: Seq<char>)
    requires
        without_hash(a),
        without_hash(b),
    ensures
        ({
            let notes = structured::noted(a + "#"@ + b + "#"@ + rest).notes;
            let later = structured::noted(rest).notes;
            if cleaned(b).len() > 0 {
                notes == seq![cleaned(b)] + later
            } else {
                notes == later
            }
        }),
        structured::noted(a).notes.len() == 0,
        structured::noted(a + "#"@ + b).notes.len() == 0,
{
    lemma_no_note(a);
    lemma_open_note(a, b);
    lemma_notes_on(a, b, rest);
}

proof fn lemma_notes_on(a: Seq<char>, b: Seq<char>, rest: Seq<char>)
    requires
        without_hash(a),
        without_hash(b),
    ensures
        ({
            let all = structured::noted(a + "#"@ + b + "#"@ + rest);
            let later = structured::noted(rest);
            &&& all.open == later.open
            &&& all.notes == (if cleaned(b).len() > 0 {
                seq![cleaned(b)]
            } else {
                Seq::empty()
            }) + later.notes
        }),
    decreases rest.len(),
{
    reveal_strlit("#");
    let s = a + "#"@ + b + "#"@ + rest;
    let own = if cleaned(b).len() > 0 {
        seq![cleaned(b)]
    } else {
        Seq::<Seq<char>>::empty()
    };
    if rest.len() == 0 {
        assert(s.drop_last() =~= a + "#"@ + b);
        assert(s.last() == '#');
        lemma_open_note(a, b);
        assert(structured::noted(rest).notes =~= Seq::empty());
        assert(own + Seq::<Seq<char>>::empty() =~= own);
        assert(structured::noted(s).notes =~= own);
    } else {
        let t = rest.drop_last();
        lemma_notes_on(a, b, t);
        assert(s.drop_last() =~= a + "#"@ + b + "#"@ + t);
        assert(s.last() == rest.last());
        assert forall|x: Seq<char>| own + #[trigger] structured::noted(t).notes.push(x) =~= (own
            + structured::noted(t).notes).push(x) by {}
    }
}

} // verus!
