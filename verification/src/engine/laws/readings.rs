//! What holds of what is read out of the output of a model.

use crate::engine::cleanup;
use crate::engine::laws::overviews;
use crate::engine::laws::records;
use crate::engine::packet::StrategyEvidencePacket;
use crate::engine::record_answer;
use crate::engine::sanitize;
use crate::engine::structured;
use crate::lists;
use crate::strs;
use vstd::prelude::*;

verus! {

/// No line is quoted.
pub open spec fn quotes_nothing(lines: Seq<Seq<char>>) -> bool {
    forall|i: int|
        0 <= i < lines.len() ==> !strs::starts_with(strs::trim(#[trigger] lines[i]), ">"@)
}

/// A line that belongs to an answer: it is not blank, not broken and no noise.
pub open spec fn belongs_to_the_answer(line: Seq<char>) -> bool {
    let t = strs::trim(line);
    &&& t.len() > 0
    &&& !cleanup::is_noise(t)
    &&& !strs::contains(t, "\u{fffd}"@)
}

/// Where nothing is quoted, every line that belongs to the answer is kept, trimmed, and nothing
/// else is but empty lines.
pub proof fn lines_of_the_answer_are_kept(lines: Seq<Seq<char>>, k: int)
    requires
        quotes_nothing(lines),
    ensures
        ({
            let kept = cleanup::kept_lines(lines);
            &&& !kept.echo
            &&& 0 <= k < lines.len() && belongs_to_the_answer(lines[k]) ==> kept.lines.contains(
                strs::trim(lines[k]),
            )
            &&& kept.lines.len() <= lines.len()
        }),
    decreases lines.len(),
{
    if lines.len() > 0 {
        let t = lines.drop_last();
        assert(quotes_nothing(t)) by {
            assert forall|i: int| 0 <= i < t.len() implies !strs::starts_with(
                strs::trim(#[trigger] t[i]),
                ">"@,
            ) by {
                assert(t[i] == lines[i]);
            }
        }
        lines_of_the_answer_are_kept(t, k);
        let a = cleanup::kept_lines(t);
        let b = cleanup::kept_lines(lines);
        assert(!strs::starts_with(strs::trim(lines[lines.len() - 1]), ">"@));
        if 0 <= k < lines.len() && belongs_to_the_answer(lines[k]) {
            let x = strs::trim(lines[k]);
            if k < t.len() {
                assert(t[k] == lines[k]);
                let i = choose|i: int| 0 <= i < a.lines.len() && a.lines[i] == x;
                assert(b.lines[i] == x);
            } else {
                assert(b.lines[b.lines.len() - 1] == x);
            }
        }
    }
}

/// A quoted line and what follows it is left out, up to the next empty line; then the answer goes
/// on.
pub proof fn an_echo_ends_at_an_empty_line(lines: Seq<Seq<char>>, quote: Seq<char>, next: Seq<char>)
    requires
        !cleanup::kept_lines(lines).echo,
        strs::starts_with(strs::trim(quote), ">"@),
        !strs::contains(strs::trim(quote), "\u{fffd}"@),
        !strs::contains(strs::trim(next), "\u{fffd}"@),
    ensures
        ({
            let after_quote = cleanup::kept_lines(lines.push(quote));
            let after = cleanup::kept_lines(lines.push(quote).push(next));
            &&& after_quote.echo
            &&& after_quote.lines == cleanup::kept_lines(lines).lines
            &&& after.lines == cleanup::kept_lines(lines).lines
            &&& after.echo <==> strs::trim(next).len() > 0
        }),
{
    let a = lines.push(quote);
    let b = a.push(next);
    assert(a.drop_last() =~= lines);
    assert(b.drop_last() =~= a);
    assert(cleanup::kept_lines(a) == cleanup::keep_line(cleanup::kept_lines(lines), quote));
    assert(cleanup::kept_lines(b) == cleanup::keep_line(cleanup::kept_lines(a), next));
}

/// One line is the heading under which the other stands: no heading comes between them.
pub open spec fn stands_under(lines: Seq<Seq<char>>, h: int, k: int) -> bool {
    &&& 0 <= h < k < lines.len()
    &&& record_answer::section_headers().contains(strs::trim(lines[h]))
    &&& forall|j: int|
        h < j <= k ==> !record_answer::section_headers().contains(strs::trim(#[trigger] lines[j]))
}

proof fn lemma_section(lines: Seq<Seq<char>>, target: Seq<char>, h: int, k: int)
    requires
        stands_under(lines, h, k),
    ensures
        ({
            let s = structured::section_lines(lines.take(k + 1), target);
            let t = strs::trim(lines[k]);
            &&& s.heading == strs::trim(lines[h])
            &&& s.heading == target && t.len() > 0 && !record_answer::tail_noise(t)
                ==> s.lines.contains(sanitize::sanitized(t))
        }),
    decreases k - h,
{
    let head = lines.take(k + 1);
    assert(head.drop_last() =~= lines.take(k));
    assert(head.last() == lines[k]);
    let before = structured::section_lines(lines.take(k), target);
    let now = structured::section_lines(head, target);
    if k == h + 1 {
        let first = lines.take(h + 1);
        assert(first.drop_last() =~= lines.take(h));
        assert(first.last() == lines[h]);
        assert(before.heading == strs::trim(lines[h]));
    } else {
        lemma_section(lines, target, h, k - 1);
    }
    if now.lines.len() > before.lines.len() {
        assert(now.lines[before.lines.len() as int] == sanitize::sanitized(strs::trim(lines[k])));
    }
}

proof fn lemma_section_grows(lines: Seq<Seq<char>>, target: Seq<char>, k: int, x: Seq<char>)
    requires
        0 <= k <= lines.len(),
        structured::section_lines(lines.take(k), target).lines.contains(x),
    ensures
        structured::section_lines(lines, target).lines.contains(x),
    decreases lines.len() - k,
{
    if k == lines.len() {
        assert(lines.take(k) =~= lines);
    } else {
        let a = structured::section_lines(lines.take(k), target).lines;
        let b = structured::section_lines(lines.take(k + 1), target).lines;
        assert(lines.take(k + 1).drop_last() =~= lines.take(k));
        let i = choose|i: int| 0 <= i < a.len() && a[i] == x;
        assert(b[i] == x);
        lemma_section_grows(lines, target, k + 1, x);
    }
}

/// A line under a heading of a record belongs to that section: it stands there, cleaned, as a line
/// of its own.
pub proof fn a_section_has_the_lines_under_its_heading(s: Seq<char>, h: int, k: int)
    requires
        stands_under(strs::lines(s), h, k),
        strs::trim(strs::lines(s)[k]).len() > 0,
        !record_answer::tail_noise(strs::trim(strs::lines(s)[k])),
    ensures
        lists::is_line_of(
            structured::section_body(s, strs::trim(strs::lines(s)[h])),
            sanitize::sanitized(strs::trim(strs::lines(s)[k])),
        ),
{
    let lines = strs::lines(s);
    let target = strs::trim(lines[h]);
    let x = sanitize::sanitized(strs::trim(lines[k]));
    lemma_section(lines, target, h, k);
    lemma_section_grows(lines, target, k + 1, x);
    let own = structured::section_lines(lines, target).lines;
    let i = choose|i: int| 0 <= i < own.len() && own[i] == x;
    lists::joined_lines_are_lines(own, i);
}

/// A record amounts to a report where its summary, its course, its points or its material is not
/// blank; each part of the report is read from its own section.
pub proof fn a_report_is_read_section_by_section(
    packet: StrategyEvidencePacket,
    message: Seq<char>,
    draft: Seq<char>,
)
    ensures
        ({
            let summary = structured::section_body(draft, "[상황 요약]"@);
            let course = structured::section_body(draft, "[배경 흐름]"@);
            let points = structured::section_body(draft, "[핵심 포인트]"@);
            let material = structured::section_body(draft, "[관련 자료]"@);
            let notes = structured::items_of(structured::section_body(draft, "[추가 메모]"@), 4);
            let responses = structured::items_of(
                structured::section_body(draft, "[내 대응 메모]"@),
                3,
            );
            let found = structured::items_of(material, 6);
            let report = structured::report_of(packet, message, draft);
            &&& report is Some <==> strs::trim(summary).len() > 0 || strs::trim(course).len() > 0
                || strs::trim(points).len() > 0 || strs::trim(material).len() > 0
            &&& report matches Some(r) ==> {
                &&& strs::trim(summary).len() > 0 ==> r.summary == strs::first(summary, 600)
                &&& strs::trim(summary).len() == 0 ==> r.summary == strs::first(
                    sanitize::sanitized(message),
                    280,
                )
                &&& r.timeline == structured::items_of(course, 5)
                &&& r.issues == structured::items_of(points, 5)
                &&& found.len() > 0 ==> r.evidence == found
                &&& found.len() == 0 ==> r.evidence.len() == (if packet.evidence_records@.len() < 4 {
                    packet.evidence_records@.len()
                } else {
                    4
                })
                &&& notes.len() == 0 ==> r.questions == responses
                &&& r.actors.len() <= 6
                &&& record_answer::guessed_people(message).len() > 0 ==> r.actors
                    == record_answer::guessed_people(message)
            }
        }),
{
    records::lemma_few_people(message);
}

/// Items are few, short and not empty.
pub proof fn items_are_few_and_short(s: Seq<char>, max: nat, k: int)
    ensures
        structured::items_of(s, max).len() <= max,
        0 <= k < structured::items_of(s, max).len() ==> 0 < structured::items_of(s, max)[k].len()
            <= 180,
{
    let lines = strs::filled(
        strs::lines(structured::broken_up(s)).map_values(|l: Seq<char>| structured::undashed(l)),
    );
    let cut = lines.map_values(|l: Seq<char>| strs::first(l, 180));
    let kept = strs::filled(cut);
    let p = |x: Seq<char>| x.len() > 0;
    if 0 <= k < structured::items_of(s, max).len() {
        assert(kept.contains(kept[k]));
        lists::keeping_keeps_what_is_accepted(cut, p, kept[k]);
        let i = choose|i: int| 0 <= i < cut.len() && cut[i] == kept[k];
        assert(cut[i] == strs::first(lines[i], 180));
    }
}

/// The questions of a report are its notes and what was done, said once each: the notes as they
/// are, and what was done wherever the notes do not say it.
pub proof fn questions_are_notes_and_responses(
    packet: StrategyEvidencePacket,
    message: Seq<char>,
    draft: Seq<char>,
    k: int,
)
    ensures
        structured::report_of(packet, message, draft) matches Some(r) ==> {
            let notes = structured::items_of(structured::section_body(draft, "[추가 메모]"@), 4);
            let done = structured::items_of(structured::section_body(draft, "[내 대응 메모]"@), 3);
            &&& 0 <= k < notes.len() ==> k < r.questions.len() && r.questions[k] == notes[k]
            &&& 0 <= k < done.len() ==> structured::says_same(r.questions, done[k])
            &&& r.questions.len() <= 7
        },
{
    let notes = structured::items_of(structured::section_body(draft, "[추가 메모]"@), 4);
    let done = structured::items_of(structured::section_body(draft, "[내 대응 메모]"@), 3);
    overviews::what_is_put_together_is_said_once(notes, done, k);
    let all = structured::with_all_unlike(notes, done);
    if 0 <= k < notes.len() {
        assert(all.take(notes.len() as int)[k] == all[k]);
    }
    if 0 <= k < done.len() {
        assert(sanitize::compact(done[k]) == sanitize::compact(done[k]));
    }
    lemma_put(notes, done);
}

proof fn lemma_put(list: Seq<Seq<char>>, more: Seq<Seq<char>>)
    ensures
        structured::with_all_unlike(list, more).len() <= list.len() + more.len(),
    decreases more.len(),
{
    if more.len() > 0 {
        lemma_put(list, more.drop_last());
    }
}

} // verus!
