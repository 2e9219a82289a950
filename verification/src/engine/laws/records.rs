//! What holds of records: of their sections, and of what is guessed from a message.

use crate::engine::packet::StrategyLegalReference;
use crate::engine::record_answer;
use crate::engine::sanitize;
use crate::strs;
use crate::text;
use crate::texts;
use vstd::prelude::*;

verus! {

/// The heading stands among the lines.
pub open spec fn has_heading(lines: Seq<Seq<char>>, h: Seq<char>) -> bool {
    exists|i: int| 0 <= i < lines.len() && strs::trim(#[trigger] lines[i]) == h
}

proof fn lemma_kept<A>(a: Seq<A>, b: Seq<A>, x: A)
    requires
        a.contains(x),
        a.len() <= b.len(),
        forall|i: int| 0 <= i < a.len() ==> #[trigger] b[i] == a[i],
    ensures
        b.contains(x),
{
    let i = choose|i: int| 0 <= i < a.len() && a[i] == x;
    assert(b[i] == x);
}

/// A record has every heading that stands in it once, and the line of each is kept.
pub proof fn every_heading_is_kept_once(lines: Seq<Seq<char>>, h: Seq<char>)
    requires
        record_answer::section_headers().contains(h),
    ensures
        ({
            let g = record_answer::gathered(lines);
            &&& g.seen.contains(h) <==> has_heading(lines, h)
            &&& has_heading(lines, h) ==> g.lines.contains(h)
            &&& g.seen.no_duplicates()
        }),
    decreases lines.len(),
{
    lemma_headings_are_filled(h);
    if lines.len() > 0 {
        let t = lines.drop_last();
        every_heading_is_kept_once(t, h);
        let a = record_answer::gathered(t);
        let b = record_answer::gathered(lines);
        let line = strs::trim(lines.last());
        if a.seen.contains(h) {
            lemma_kept(a.seen, b.seen, h);
        }
        if a.lines.contains(h) {
            lemma_kept(a.lines, b.lines, h);
        }
        if has_heading(t, h) {
            let i = choose|i: int| 0 <= i < t.len() && strs::trim(#[trigger] t[i]) == h;
            assert(lines[i] == t[i]);
        }
        if line == h {
            assert(lines[lines.len() - 1] == lines.last());
            if !a.seen.contains(h) {
                assert(b.seen[a.seen.len() as int] == h);
                assert(b.lines[b.lines.len() - 1] == h);
            }
        }
        if has_heading(lines, h) {
            let i = choose|i: int| 0 <= i < lines.len() && strs::trim(#[trigger] lines[i]) == h;
            if i < t.len() {
                assert(t[i] == lines[i]);
            }
        }
        if b.seen.contains(h) && !a.seen.contains(h) {
            let i = choose|i: int| 0 <= i < b.seen.len() && b.seen[i] == h;
            if i < a.seen.len() {
                assert(a.seen[i] == h);
            }
        }
        if b.seen.len() > a.seen.len() {
            assert forall|i: int, j: int|
                0 <= i < b.seen.len() && 0 <= j < b.seen.len() && i != j implies b.seen[i]
                != b.seen[j] by {
                if i < a.seen.len() && j < a.seen.len() {
                    assert(a.seen[i] == b.seen[i] && a.seen[j] == b.seen[j]);
                } else if i < a.seen.len() {
                    assert(a.seen.contains(a.seen[i]));
                } else {
                    assert(a.seen.contains(a.seen[j]));
                }
            }
        }
    }
}

proof fn lemma_headings_are_filled(h: Seq<char>)
    requires
        record_answer::section_headers().contains(h),
    ensures
        h.len() > 0,
{
    reveal_strlit("[기록 기본정보]");
    reveal_strlit("[상황 요약]");
    reveal_strlit("[배경 흐름]");
    reveal_strlit("[핵심 포인트]");
    reveal_strlit("[관련 자료]");
    reveal_strlit("[내 대응 메모]");
    reveal_strlit("[추가 메모]");
}

/// A line of text.
pub open spec fn is_plain(line: Seq<char>) -> bool {
    let t = strs::trim(line);
    t.len() > 0 && !record_answer::section_headers().contains(t) && !record_answer::tail_noise(t)
}

/// What stands under a heading that comes for the first time is kept, cleaned; what stands under
/// one that comes again is left out; what does not belong into a record is left out everywhere.
pub proof fn text_is_kept_under_a_first_heading(
    lines: Seq<Seq<char>>,
    heading: Seq<char>,
    line: Seq<char>,
)
    requires
        record_answer::section_headers().contains(strs::trim(heading)),
        is_plain(line),
        sanitize::sanitized(strs::trim(line)).len() > 0,
    ensures
        ({
            let under = record_answer::gathered(lines.push(heading));
            let after = record_answer::gathered(lines.push(heading).push(line));
            &&& !has_heading(lines, strs::trim(heading)) ==> after.lines == under.lines.push(
                sanitize::sanitized(strs::trim(line)),
            )
            &&& has_heading(lines, strs::trim(heading)) ==> after.lines
                == record_answer::gathered(lines).lines
        }),
{
    let h = strs::trim(heading);
    every_heading_is_kept_once(lines, h);
    lemma_headings_are_filled(h);
    let a = lines.push(heading);
    let b = a.push(line);
    assert(a.drop_last() =~= lines);
    assert(b.drop_last() =~= a);
    assert(a.last() == heading && b.last() == line);
    assert(record_answer::gathered(a) == record_answer::gather(
        record_answer::gathered(lines),
        heading,
    ));
    assert(record_answer::gathered(b) == record_answer::gather(record_answer::gathered(a), line));
}

/// What stands before the first heading is left out, unless there is no heading at all.
pub proof fn a_record_without_headings_is_kept_whole(s: Seq<char>)
    requires
        forall|i: int|
            0 <= i < strs::lines(s).len() ==> !record_answer::section_headers().contains(
                strs::trim(#[trigger] strs::lines(s)[i]),
            ),
    ensures
        record_answer::deduped_sections(s) == strs::trim(s),
{
    lemma_nothing_open(strs::lines(s));
}

proof fn lemma_nothing_open(lines: Seq<Seq<char>>)
    requires
        forall|i: int|
            0 <= i < lines.len() ==> !record_answer::section_headers().contains(
                strs::trim(#[trigger] lines[i]),
            ),
    ensures
        ({
            let g = record_answer::gathered(lines);
            g.lines.len() == 0 && !g.open && g.seen.len() == 0
        }),
    decreases lines.len(),
{
    if lines.len() > 0 {
        let t = lines.drop_last();
        assert forall|i: int| 0 <= i < t.len() implies !record_answer::section_headers().contains(
            strs::trim(#[trigger] t[i]),
        ) by {
            assert(t[i] == lines[i]);
        }
        lemma_nothing_open(t);
        assert(lines[lines.len() - 1] == lines.last());
    }
}

/// An answer is cut where the model begins to repeat the prompt: what is left is its beginning, up
/// to the first place of each of the marks that stands more than eighty bytes into it. Where no
/// mark stands in it, nothing but white space at the end is cut.
pub proof fn an_answer_is_cut_at_the_first_echo(s: Seq<char>, k: int)
    requires
        0 <= k < record_answer::echo_markers().len(),
    ensures
        ({
            let left = record_answer::without_echo(s);
            let mark = record_answer::echo_markers()[k];
            &&& strs::starts_with(s, left)
            &&& strs::find(s, mark) matches Some(i) ==> (strs::byte_len(strs::first(s, i as nat))
                > 80 ==> left.len() <= i)
            &&& (forall|j: int|
                0 <= j < record_answer::echo_markers().len() ==> !strs::contains(
                    s,
                    #[trigger] record_answer::echo_markers()[j],
                )) ==> left == strs::trim_end(s)
        }),
{
    let marks = record_answer::echo_markers();
    lemma_cut(s, marks);
    let cut = record_answer::echo_cut(s, marks);
    let p = |c: char| strs::is_space(c);
    let a = strs::first(s, cut as nat);
    text::lemma_trim_end_where(a, p);
    let left = record_answer::without_echo(s);
    assert(s.subrange(0, left.len() as int) =~= left);
}

proof fn lemma_cut(s: Seq<char>, marks: Seq<Seq<char>>)
    ensures
        ({
            let cut = record_answer::echo_cut(s, marks);
            &&& 0 <= cut <= s.len()
            &&& forall|k: int|
                0 <= k < marks.len() ==> (strs::find(s, #[trigger] marks[k]) matches Some(i)
                    ==> (strs::byte_len(strs::first(s, i as nat)) > 80 ==> cut <= i))
            &&& (forall|k: int| 0 <= k < marks.len() ==> !strs::contains(s, #[trigger] marks[k]))
                ==> cut == s.len()
        }),
    decreases marks.len(),
{
    if marks.len() > 0 {
        let t = marks.drop_last();
        lemma_cut(s, t);
        text::lemma_find_from(s, marks.last(), 0);
        let cut = record_answer::echo_cut(s, marks);
        assert forall|k: int| 0 <= k < marks.len() implies (strs::find(s, #[trigger] marks[k]) matches Some(
            i,
        ) ==> (strs::byte_len(strs::first(s, i as nat)) > 80 ==> cut <= i)) by {
            if k < t.len() {
                assert(t[k] == marks[k]);
            }
        }
        if forall|k: int| 0 <= k < marks.len() ==> !strs::contains(s, #[trigger] marks[k]) {
            assert forall|k: int| 0 <= k < t.len() implies !strs::contains(s, #[trigger] t[k]) by {
                assert(t[k] == marks[k]);
            }
            assert(!strs::contains(s, marks[marks.len() - 1]));
        }
    }
}

/// At most two people are guessed from a message; each has a name, none is a word for a time or a
/// quarrel, and they are not the same.
pub proof fn two_people_are_guessed(message: Seq<char>, i: int)
    requires
        0 <= i < record_answer::guessed_people(message).len(),
    ensures
        ({
            let people = record_answer::guessed_people(message);
            &&& people.len() <= 2
            &&& people[i].len() > 0
            &&& !record_answer::no_person().contains(sanitize::compact(people[i]))
            &&& people.len() == 2 ==> sanitize::compact(people[0]) != sanitize::compact(people[1])
        }),
{
    lemma_met(strs::split(record_answer::barred(message), "|"@));
}

/// No more than two people are guessed.
pub proof fn lemma_few_people(message: Seq<char>)
    ensures
        record_answer::guessed_people(message).len() <= 2,
{
    lemma_met(strs::split(record_answer::barred(message), "|"@));
}

proof fn lemma_met(chunks: Seq<Seq<char>>)
    ensures
        ({
            let p = record_answer::met(chunks);
            &&& p.names.len() == p.seen.len() <= 2
            &&& forall|i: int|
                0 <= i < p.names.len() ==> {
                    &&& (#[trigger] p.names[i]).len() > 0
                    &&& p.seen[i] == sanitize::compact(p.names[i])
                    &&& !record_answer::no_person().contains(sanitize::compact(p.names[i]))
                }
            &&& p.names.len() == 2 ==> p.seen[0] != p.seen[1]
        }),
    decreases chunks.len(),
{
    if chunks.len() > 0 {
        lemma_met(chunks.drop_last());
        let a = record_answer::met(chunks.drop_last());
        let b = record_answer::met(chunks);
        if b.names.len() > a.names.len() {
            assert forall|i: int| 0 <= i < b.names.len() implies {
                &&& (#[trigger] b.names[i]).len() > 0
                &&& b.seen[i] == sanitize::compact(b.names[i])
                &&& !record_answer::no_person().contains(sanitize::compact(b.names[i]))
            } by {
                if i < a.names.len() {
                    assert(b.names[i] == a.names[i] && b.seen[i] == a.seen[i]);
                }
            }
            if b.names.len() == 2 {
                assert(a.seen.contains(a.seen[0]));
            }
        }
    }
}

/// The first person that a chunk names is taken, the second behind it; a third is not.
pub proof fn people_are_taken_in_turn(chunks: Seq<Seq<char>>, chunk: Seq<char>)
    ensures
        ({
            let before = record_answer::met(chunks);
            let after = record_answer::met(chunks.push(chunk));
            let name = record_answer::candidate_name(chunk);
            let key = sanitize::compact(name);
            let fits = key.len() > 0 && name.len() > 0 && !record_answer::no_person().contains(key)
                && !before.seen.contains(key);
            &&& before.names.len() < 2 && fits ==> after.names == before.names.push(name)
            &&& before.names.len() == 2 || !fits ==> after.names == before.names
        }),
{
    assert(chunks.push(chunk).drop_last() =~= chunks);
    lemma_met(chunks);
}

/// The time that a message speaks of: today, at lunch or in a break, or the one or the other.
pub proof fn the_time_is_what_the_message_says(message: Seq<char>)
    ensures
        ({
            let m = sanitize::sanitized(message);
            let today = strs::contains(m, "오늘"@);
            let lunch = strs::contains(m, "점심시간"@);
            let recess = strs::contains(m, "쉬는시간"@);
            let hint = record_answer::time_hint(message);
            &&& today && lunch ==> hint == "오늘 점심시간"@
            &&& today && recess && !lunch ==> hint == "오늘 쉬는시간"@
            &&& today && !lunch && !recess ==> hint == "오늘"@
            &&& !today && lunch ==> hint == "점심시간"@
            &&& !today && recess && !lunch ==> hint == "쉬는시간"@
            &&& !today && !lunch && !recess ==> hint == "시점 미상"@
        }),
{
}

/// The place that a message speaks of is the first of these that stands in it; where none does, a
/// lunch or a break tells that it was at school.
pub proof fn the_place_is_the_first_that_is_named(message: Seq<char>, k: int)
    ensures
        ({
            let m = sanitize::sanitized(message);
            let places = seq![
                "교실"@,
                "복도"@,
                "운동장"@,
                "급식실"@,
                "강당"@,
                "화장실"@,
                "교문"@,
                "버스"@,
                "메신저"@,
                "온라인"@,
            ];
            let hint = record_answer::place_hint(message);
            &&& 0 <= k < places.len() && strs::contains(m, places[k]) && (forall|j: int|
                0 <= j < k ==> !strs::contains(m, #[trigger] places[j])) ==> hint == places[k]
            &&& (forall|j: int| 0 <= j < places.len() ==> !strs::contains(m, #[trigger] places[j]))
                ==> hint == if strs::contains(m, "점심시간"@) || strs::contains(m, "쉬는시간"@) {
                "교내 장소 미상"@
            } else {
                "장소 미상"@
            }
        }),
{
    let m = sanitize::sanitized(message);
    let places = record_answer::known_places();
    if 0 <= k < places.len() && strs::contains(m, places[k]) && (forall|j: int|
        0 <= j < k ==> !strs::contains(m, #[trigger] places[j])) {
        lemma_first_contained(m, places, 0, k);
    }
    if forall|j: int| 0 <= j < places.len() ==> !strs::contains(m, #[trigger] places[j]) {
        lemma_none_contained(m, places, 0);
    }
}

proof fn lemma_first_contained(s: Seq<char>, list: Seq<Seq<char>>, i: int, k: int)
    requires
        0 <= i <= k < list.len(),
        strs::contains(s, list[k]),
        forall|j: int| i <= j < k ==> !strs::contains(s, #[trigger] list[j]),
    ensures
        record_answer::first_contained(s, list, i) == Some(list[k]),
    decreases k - i,
{
    if i < k {
        lemma_first_contained(s, list, i + 1, k);
    }
}

proof fn lemma_none_contained(s: Seq<char>, list: Seq<Seq<char>>, i: int)
    requires
        0 <= i,
        forall|j: int| i <= j < list.len() ==> !strs::contains(s, #[trigger] list[j]),
    ensures
        record_answer::first_contained(s, list, i) is None,
    decreases list.len() - i,
{
    if i < list.len() {
        lemma_none_contained(s, list, i + 1);
    }
}

/// A record that is made of the message alone tells the time at which it was written, the two
/// people, the place, and the message itself.
#[verifier::rlimit(60)]
pub proof fn a_record_of_the_message_tells_what_it_says(
    records: nat,
    laws: Seq<StrategyLegalReference>,
    message: Seq<char>,
    now: Seq<char>,
)
    ensures
        ({
            let record = record_answer::fallback_record(records, laws, message, now);
            let people = record_answer::guessed_people(message);
            &&& strs::contains(record, "[기록 기본정보]\n- 기록 시각: "@ + now)
            &&& people.len() >= 1 ==> strs::contains(record, "\n- 주체: "@ + people[0])
            &&& people.len() == 0 ==> strs::contains(record, "\n- 주체: "@ + "당사자 미상"@)
            &&& people.len() >= 2 ==> strs::contains(record, "\n- 상대방: "@ + people[1])
            &&& people.len() < 2 ==> strs::contains(record, "\n- 상대방: "@ + "상대방 미상"@)
            &&& strs::contains(
                record,
                "\n- 위치/채널: "@ + record_answer::place_hint(message),
            )
            &&& strs::contains(record, record_answer::time_hint(message))
            &&& strs::contains(
                record,
                strs::first(sanitize::sanitized(strs::trim(message)), 220),
            )
            &&& records > 0 ==> strs::contains(record, strs::decimal(records))
        }),
{
    texts::parts_stand_in_the_whole();
}

proof fn lemma_heading_of_basics()
    ensures
        strs::contains("[기록 기본정보]\n- 기록 시각: "@, "[기록 기본정보]"@),
{
    reveal_strlit("[기록 기본정보]\n- 기록 시각: ");
    reveal_strlit("[기록 기본정보]");
    let s = "[기록 기본정보]\n- 기록 시각: "@;
    let p = "[기록 기본정보]"@;
    assert(s.subrange(0, 0 + p.len() as int) =~= p);
    assert(strs::occurs_at(s, p, 0));
}

proof fn lemma_heading_of_summary()
    ensures
        strs::contains("\n- 자료 형태: 직접 입력\n- 민감도: 보통\n\n[상황 요약]\n사용자 입력에 따르면 "@, "[상황 요약]"@),
{
    reveal_strlit("\n- 자료 형태: 직접 입력\n- 민감도: 보통\n\n[상황 요약]\n사용자 입력에 따르면 ");
    reveal_strlit("[상황 요약]");
    let s = "\n- 자료 형태: 직접 입력\n- 민감도: 보통\n\n[상황 요약]\n사용자 입력에 따르면 "@;
    let p = "[상황 요약]"@;
    assert(s.subrange(27, 27 + p.len() as int) =~= p);
    assert(strs::occurs_at(s, p, 27));
}

proof fn lemma_heading_of_course()
    ensures
        strs::contains(" 사이에 다툼이 있었던 것으로 접수되었다. 현재 입력만으로는 다툼의 직접 원인, 언쟁과 신체 접촉 여부, 교사 개입 시점, 직후 분리 조치 여부는 확인되지 않았다. 따라서 우선 두 학생의 진술과 직후 상황을 분리해서 확인하고, 현재 상태까지 이어서 기록할 필요가 있다.\n\n[배경 흐름]\n현재 확보된 정보는 '"@, "[배경 흐름]"@),
{
    reveal_strlit(" 사이에 다툼이 있었던 것으로 접수되었다. 현재 입력만으로는 다툼의 직접 원인, 언쟁과 신체 접촉 여부, 교사 개입 시점, 직후 분리 조치 여부는 확인되지 않았다. 따라서 우선 두 학생의 진술과 직후 상황을 분리해서 확인하고, 현재 상태까지 이어서 기록할 필요가 있다.\n\n[배경 흐름]\n현재 확보된 정보는 '");
    reveal_strlit("[배경 흐름]");
    let s = " 사이에 다툼이 있었던 것으로 접수되었다. 현재 입력만으로는 다툼의 직접 원인, 언쟁과 신체 접촉 여부, 교사 개입 시점, 직후 분리 조치 여부는 확인되지 않았다. 따라서 우선 두 학생의 진술과 직후 상황을 분리해서 확인하고, 현재 상태까지 이어서 기록할 필요가 있다.\n\n[배경 흐름]\n현재 확보된 정보는 '"@;
    let p = "[배경 흐름]"@;
    assert(s.subrange(152, 152 + p.len() as int) =~= p);
    assert(strs::occurs_at(s, p, 152));
}

proof fn lemma_heading_of_points()
    ensures
        strs::contains(" 점심시간 전후 수업 맥락, 주변 학생 반응, 해당 시점의 교사 관찰 내용이 있으면 사건 흐름을 더 정확하게 재구성할 수 있다.\n\n[핵심 포인트]\n첫째, 실제 다툼의 형태가 말다툼 수준인지 신체 접촉까지 있었는지 즉시 확인할 필요가 있다. 둘째, 직후 두 학생의 감정 상태와 분리 또는 중재 조치가 있었는지 확인해야 한다. 셋째, 이후 관계 회복이 가능한 상황인지, 추가 충돌 가능성이 있는지도 함께 관찰할 필요가 있다.\n\n[관련 자료]\n현재 연결된 참고 기록은 "@, "[핵심 포인트]"@),
{
    reveal_strlit(" 점심시간 전후 수업 맥락, 주변 학생 반응, 해당 시점의 교사 관찰 내용이 있으면 사건 흐름을 더 정확하게 재구성할 수 있다.\n\n[핵심 포인트]\n첫째, 실제 다툼의 형태가 말다툼 수준인지 신체 접촉까지 있었는지 즉시 확인할 필요가 있다. 둘째, 직후 두 학생의 감정 상태와 분리 또는 중재 조치가 있었는지 확인해야 한다. 셋째, 이후 관계 회복이 가능한 상황인지, 추가 충돌 가능성이 있는지도 함께 관찰할 필요가 있다.\n\n[관련 자료]\n현재 연결된 참고 기록은 ");
    reveal_strlit("[핵심 포인트]");
    let s = " 점심시간 전후 수업 맥락, 주변 학생 반응, 해당 시점의 교사 관찰 내용이 있으면 사건 흐름을 더 정확하게 재구성할 수 있다.\n\n[핵심 포인트]\n첫째, 실제 다툼의 형태가 말다툼 수준인지 신체 접촉까지 있었는지 즉시 확인할 필요가 있다. 둘째, 직후 두 학생의 감정 상태와 분리 또는 중재 조치가 있었는지 확인해야 한다. 셋째, 이후 관계 회복이 가능한 상황인지, 추가 충돌 가능성이 있는지도 함께 관찰할 필요가 있다.\n\n[관련 자료]\n현재 연결된 참고 기록은 "@;
    let p = "[핵심 포인트]"@;
    assert(s.subrange(73, 73 + p.len() as int) =~= p);
    assert(strs::occurs_at(s, p, 73));
}

proof fn lemma_heading_of_material()
    ensures
        strs::contains(" 점심시간 전후 수업 맥락, 주변 학생 반응, 해당 시점의 교사 관찰 내용이 있으면 사건 흐름을 더 정확하게 재구성할 수 있다.\n\n[핵심 포인트]\n첫째, 실제 다툼의 형태가 말다툼 수준인지 신체 접촉까지 있었는지 즉시 확인할 필요가 있다. 둘째, 직후 두 학생의 감정 상태와 분리 또는 중재 조치가 있었는지 확인해야 한다. 셋째, 이후 관계 회복이 가능한 상황인지, 추가 충돌 가능성이 있는지도 함께 관찰할 필요가 있다.\n\n[관련 자료]\n현재 연결된 참고 기록은 "@, "[관련 자료]"@),
{
    reveal_strlit(" 점심시간 전후 수업 맥락, 주변 학생 반응, 해당 시점의 교사 관찰 내용이 있으면 사건 흐름을 더 정확하게 재구성할 수 있다.\n\n[핵심 포인트]\n첫째, 실제 다툼의 형태가 말다툼 수준인지 신체 접촉까지 있었는지 즉시 확인할 필요가 있다. 둘째, 직후 두 학생의 감정 상태와 분리 또는 중재 조치가 있었는지 확인해야 한다. 셋째, 이후 관계 회복이 가능한 상황인지, 추가 충돌 가능성이 있는지도 함께 관찰할 필요가 있다.\n\n[관련 자료]\n현재 연결된 참고 기록은 ");
    reveal_strlit("[관련 자료]");
    let s = " 점심시간 전후 수업 맥락, 주변 학생 반응, 해당 시점의 교사 관찰 내용이 있으면 사건 흐름을 더 정확하게 재구성할 수 있다.\n\n[핵심 포인트]\n첫째, 실제 다툼의 형태가 말다툼 수준인지 신체 접촉까지 있었는지 즉시 확인할 필요가 있다. 둘째, 직후 두 학생의 감정 상태와 분리 또는 중재 조치가 있었는지 확인해야 한다. 셋째, 이후 관계 회복이 가능한 상황인지, 추가 충돌 가능성이 있는지도 함께 관찰할 필요가 있다.\n\n[관련 자료]\n현재 연결된 참고 기록은 "@;
    let p = "[관련 자료]"@;
    assert(s.subrange(237, 237 + p.len() as int) =~= p);
    assert(strs::occurs_at(s, p, 237));
}

proof fn lemma_heading_of_response()
    ensures
        strs::contains(" 추가로 당사자 진술, 주변 학생 또는 교사의 관찰 메모, 필요 시 당시 상황과 연결되는 자료를 확보하면 기록의 신뢰도를 높일 수 있다.\n\n[내 대응 메모]\n현재는 사용자 입력을 바탕으로 1차 기록 초안을 정리한 상태이며, 저장 전 사실관계와 직후 조치 내용을 더 구체적으로 보완하는 것이 필요하다. 특히 누가 먼저 어떤 표현이나 행동을 했는지, 즉시 어떤 말을 했고 어떤 중재를 했는지를 분리해 남기면 이후 설명과 상담에 도움이 된다.\n\n[추가 메모]\n"@, "[내 대응 메모]"@),
{
    reveal_strlit(" 추가로 당사자 진술, 주변 학생 또는 교사의 관찰 메모, 필요 시 당시 상황과 연결되는 자료를 확보하면 기록의 신뢰도를 높일 수 있다.\n\n[내 대응 메모]\n현재는 사용자 입력을 바탕으로 1차 기록 초안을 정리한 상태이며, 저장 전 사실관계와 직후 조치 내용을 더 구체적으로 보완하는 것이 필요하다. 특히 누가 먼저 어떤 표현이나 행동을 했는지, 즉시 어떤 말을 했고 어떤 중재를 했는지를 분리해 남기면 이후 설명과 상담에 도움이 된다.\n\n[추가 메모]\n");
    reveal_strlit("[내 대응 메모]");
    let s = " 추가로 당사자 진술, 주변 학생 또는 교사의 관찰 메모, 필요 시 당시 상황과 연결되는 자료를 확보하면 기록의 신뢰도를 높일 수 있다.\n\n[내 대응 메모]\n현재는 사용자 입력을 바탕으로 1차 기록 초안을 정리한 상태이며, 저장 전 사실관계와 직후 조치 내용을 더 구체적으로 보완하는 것이 필요하다. 특히 누가 먼저 어떤 표현이나 행동을 했는지, 즉시 어떤 말을 했고 어떤 중재를 했는지를 분리해 남기면 이후 설명과 상담에 도움이 된다.\n\n[추가 메모]\n"@;
    let p = "[내 대응 메모]"@;
    assert(s.subrange(78, 78 + p.len() as int) =~= p);
    assert(strs::occurs_at(s, p, 78));
}

proof fn lemma_heading_of_notes()
    ensures
        strs::contains(" 추가로 당사자 진술, 주변 학생 또는 교사의 관찰 메모, 필요 시 당시 상황과 연결되는 자료를 확보하면 기록의 신뢰도를 높일 수 있다.\n\n[내 대응 메모]\n현재는 사용자 입력을 바탕으로 1차 기록 초안을 정리한 상태이며, 저장 전 사실관계와 직후 조치 내용을 더 구체적으로 보완하는 것이 필요하다. 특히 누가 먼저 어떤 표현이나 행동을 했는지, 즉시 어떤 말을 했고 어떤 중재를 했는지를 분리해 남기면 이후 설명과 상담에 도움이 된다.\n\n[추가 메모]\n"@, "[추가 메모]"@),
{
    reveal_strlit(" 추가로 당사자 진술, 주변 학생 또는 교사의 관찰 메모, 필요 시 당시 상황과 연결되는 자료를 확보하면 기록의 신뢰도를 높일 수 있다.\n\n[내 대응 메모]\n현재는 사용자 입력을 바탕으로 1차 기록 초안을 정리한 상태이며, 저장 전 사실관계와 직후 조치 내용을 더 구체적으로 보완하는 것이 필요하다. 특히 누가 먼저 어떤 표현이나 행동을 했는지, 즉시 어떤 말을 했고 어떤 중재를 했는지를 분리해 남기면 이후 설명과 상담에 도움이 된다.\n\n[추가 메모]\n");
    reveal_strlit("[추가 메모]");
    let s = " 추가로 당사자 진술, 주변 학생 또는 교사의 관찰 메모, 필요 시 당시 상황과 연결되는 자료를 확보하면 기록의 신뢰도를 높일 수 있다.\n\n[내 대응 메모]\n현재는 사용자 입력을 바탕으로 1차 기록 초안을 정리한 상태이며, 저장 전 사실관계와 직후 조치 내용을 더 구체적으로 보완하는 것이 필요하다. 특히 누가 먼저 어떤 표현이나 행동을 했는지, 즉시 어떤 말을 했고 어떤 중재를 했는지를 분리해 남기면 이후 설명과 상담에 도움이 된다.\n\n[추가 메모]\n"@;
    let p = "[추가 메모]"@;
    assert(s.subrange(246, 246 + p.len() as int) =~= p);
    assert(strs::occurs_at(s, p, 246));
}

/// A record that is made of the message alone has every section.
#[verifier::rlimit(60)]
pub proof fn a_record_of_the_message_has_every_section(
    records: nat,
    laws: Seq<StrategyLegalReference>,
    message: Seq<char>,
    now: Seq<char>,
)
    ensures
        forall|k: int|
            0 <= k < record_answer::section_headers().len() ==> strs::contains(
                record_answer::fallback_record(records, laws, message, now),
                #[trigger] record_answer::section_headers()[k],
            ),
{
    texts::parts_stand_in_the_whole();
    lemma_heading_of_basics();
    lemma_heading_of_summary();
    lemma_heading_of_course();
    lemma_heading_of_points();
    lemma_heading_of_material();
    lemma_heading_of_response();
    lemma_heading_of_notes();
    let headers = record_answer::section_headers();
    assert(headers[0] == "[기록 기본정보]"@);
    assert(headers[1] == "[상황 요약]"@);
    assert(headers[2] == "[배경 흐름]"@);
    assert(headers[3] == "[핵심 포인트]"@);
    assert(headers[4] == "[관련 자료]"@);
    assert(headers[5] == "[내 대응 메모]"@);
    assert(headers[6] == "[추가 메모]"@);
    let record = record_answer::fallback_record(records, laws, message, now);
    assert(strs::contains(record, "[기록 기본정보]"@));
    assert(strs::contains(record, "[상황 요약]"@));
    assert(strs::contains(record, "[배경 흐름]"@));
    assert(strs::contains(record, "[핵심 포인트]"@));
    assert(strs::contains(record, "[관련 자료]"@));
    assert(strs::contains(record, "[내 대응 메모]"@));
    assert(strs::contains(record, "[추가 메모]"@));
    assert forall|k: int| 0 <= k < headers.len() implies strs::contains(
        record,
        #[trigger] headers[k],
    ) by {
        assert(k == 0 || k == 1 || k == 2 || k == 3 || k == 4 || k == 5 || k == 6);
    }
}

/// A finished record has every section that is asked for, whatever the model wrote; where none is
/// asked for by name it has all seven. What the model wrote is kept only where it has them.
pub proof fn a_finished_record_has_every_section(
    answer: Seq<char>,
    records: nat,
    laws: Seq<StrategyLegalReference>,
    message: Seq<char>,
    order: Seq<Seq<char>>,
    now: Seq<char>,
    k: int,
)
    ensures
        ({
            let record = record_answer::finished_record(answer, records, laws, message, order, now);
            let headers = record_answer::section_headers();
            &&& order.len() == 0 && 0 <= k < headers.len() ==> strs::contains(record, headers[k])
            &&& 0 <= k < order.len() && headers.contains(order[k]) ==> strs::contains(
                record,
                order[k],
            )
            &&& record.len() <= 5200 || record == record_answer::fallback_record(
                records,
                laws,
                message,
                now,
            )
        }),
{
    let headers = record_answer::section_headers();
    a_record_of_the_message_has_every_section(records, laws, message, now);
    if 0 <= k < order.len() && headers.contains(order[k]) {
        let j = choose|j: int| 0 <= j < headers.len() && headers[j] == order[k];
        assert(strs::contains(
            record_answer::fallback_record(records, laws, message, now),
            headers[j],
        ));
    }
}

} // verus!
