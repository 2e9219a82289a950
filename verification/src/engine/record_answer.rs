//! Records as the models write them: their sections, what is cut off, and what stands in for a
//! record that is not complete.

use crate::engine::packet::{StrategyEvidencePacket, StrategyLegalReference};
use crate::engine::sanitize;
use crate::engine::sanitize::{strategy_compact_text, strategy_sanitize_text, strategy_trim};
use crate::strs;
use crate::text;
use vstd::prelude::*;

verus! {

/// What the headings of a prompt look like where a model repeats them.
pub open spec fn echo_markers() -> Seq<Seq<char>> {
    seq![
        "[현재 사건 맥락]"@,
        "[증거 패킷 요약]"@,
        "[핵심 인물]"@,
        "[시간 흐름]"@,
        "[비어 있는 정보]"@,
        "[증거 참조표]"@,
        "[관련 법령 참조표]"@,
        "[전략 메모]"@,
        "[직전 대화]"@,
        "[이번 요청]"@,
        "[응답 조건]"@,
        "[중간 맥락 일부 압축]"@,
        "[질문]"@,
        "[핵심 근거]"@,
        "[관련 법령]"@,
        "[HyperCLOVA-X 초안]"@,
        "[Roosy-X 초안]"@,
        "[합성 지침]"@,
        "[추가 정보]"@,
        "[관련 법령/참고 기준]"@,
        "[기록 작성 템플릿]"@,
        "[핵심 원칙]"@,
        "[품질 점검표]"@,
        "[금지 사항]"@,
        "[섹션별 가이드]"@,
    ]
}

/// The first place, more than 80 bytes into the text, at which one of the markers first stands;
/// the end of the text where there is none.
pub open spec fn echo_cut(s: Seq<char>, markers: Seq<Seq<char>>) -> int
    decreases markers.len(),
{
    if markers.len() == 0 {
        s.len() as int
    } else {
        let cut = echo_cut(s, markers.drop_last());
        match strs::find(s, markers.last()) {
            Some(i) => if strs::byte_len(strs::first(s, i as nat)) > 80 && i < cut {
                i
            } else {
                cut
            },
            None => cut,
        }
    }
}

/// The text up to the place where a model begins to repeat the prompt.
pub open spec fn without_echo(s: Seq<char>) -> Seq<char> {
    strs::trim_end(strs::first(s, echo_cut(s, echo_markers()) as nat))
}

/// The text up to the place where a model begins to repeat the prompt.
pub fn strategy_strip_prompt_echo(input: &str) -> (r: String)
    ensures
        r@ == without_echo(input@),
{
    let markers = text::owned(
        &[
            "[현재 사건 맥락]",
            "[증거 패킷 요약]",
            "[핵심 인물]",
            "[시간 흐름]",
            "[비어 있는 정보]",
            "[증거 참조표]",
            "[관련 법령 참조표]",
            "[전략 메모]",
            "[직전 대화]",
            "[이번 요청]",
            "[응답 조건]",
            "[중간 맥락 일부 압축]",
            "[질문]",
            "[핵심 근거]",
            "[관련 법령]",
            "[HyperCLOVA-X 초안]",
            "[Roosy-X 초안]",
            "[합성 지침]",
            "[추가 정보]",
            "[관련 법령/참고 기준]",
            "[기록 작성 템플릿]",
            "[핵심 원칙]",
            "[품질 점검표]",
            "[금지 사항]",
            "[섹션별 가이드]",
        ],
    );
    let ghost all = strs::views(markers@);
    assert(all =~= echo_markers());
    let mut cut: usize = input.unicode_len();
    let mut k: usize = 0;
    while k < markers.len()
        invariant
            k <= markers@.len(),
            all == strs::views(markers@),
            cut == echo_cut(input@, all.take(k as int)),
        decreases markers@.len() - k,
    {
        assert(all.take(k + 1).drop_last() =~= all.take(k as int));
        if let Some(i) = text::find(input, &markers[k]) {
            if text::byte_len(&text::first(input, i)) > 80 && i < cut {
                cut = i;
            }
        }
        k += 1;
    }
    assert(all.take(k as int) =~= all);
    text::trim_end(&text::first(input, cut))
}

/// The headings of the sections of a record.
pub open spec fn section_headers() -> Seq<Seq<char>> {
    seq![
        "[기록 기본정보]"@,
        "[상황 요약]"@,
        "[배경 흐름]"@,
        "[핵심 포인트]"@,
        "[관련 자료]"@,
        "[내 대응 메모]"@,
        "[추가 메모]"@,
    ]
}

/// The headings of the sections of a record.
pub fn strategy_record_section_headers() -> (r: Vec<String>)
    ensures
        strs::views(r@) == section_headers(),
{
    text::owned(
        &[
            "[기록 기본정보]",
            "[상황 요약]",
            "[배경 흐름]",
            "[핵심 포인트]",
            "[관련 자료]",
            "[내 대응 메모]",
            "[추가 메모]",
        ],
    )
}

/// Whether a line is the heading of a section of a record.
pub fn strategy_is_record_section_header(line: &str) -> (r: bool)
    ensures
        r == section_headers().contains(line@),
{
    let headers = strategy_record_section_headers();
    text::listed(&headers, line)
}

/// A line that does not belong into a record.
pub open spec fn tail_noise(line: Seq<char>) -> bool {
    let t = strs::trim(line);
    ||| strs::starts_with(t, "관련 법령으로는 "@)
    ||| strs::starts_with(t, "추가로 "@)
    ||| strs::starts_with(t, "참고로 지금 판단의 중심 근거는 "@)
    ||| strs::starts_with(t, "로컬 브리핑 지표:"@)
    ||| strs::starts_with(t, "[관련 법령]"@)
    ||| strs::starts_with(t, "[합성 지침]"@)
    ||| strs::starts_with(t, "[추가 정보]"@)
    ||| t == "기록 작성 기준"@
    ||| t == "- 핵심 원칙"@
    ||| t == "- 입력 grounding 규칙"@
    ||| t == "- 품질 점검"@
    ||| t == "- 평가 매트릭"@
    ||| t == "- 보강 질문"@
}

/// Whether a line does not belong into a record.
pub fn strategy_is_record_tail_noise(line: &str) -> (r: bool)
    ensures
        r == tail_noise(line@),
{
    let t = text::trim(line);
    text::starts_with(&t, "관련 법령으로는 ") || text::starts_with(&t, "추가로 ")
        || text::starts_with(&t, "참고로 지금 판단의 중심 근거는 ") || text::starts_with(
        &t,
        "로컬 브리핑 지표:",
    ) || text::starts_with(&t, "[관련 법령]") || text::starts_with(&t, "[합성 지침]")
        || text::starts_with(&t, "[추가 정보]") || text::same(&t, "기록 작성 기준") || text::same(
        &t,
        "- 핵심 원칙",
    ) || text::same(&t, "- 입력 grounding 규칙") || text::same(&t, "- 품질 점검") || text::same(
        &t,
        "- 평가 매트릭",
    ) || text::same(&t, "- 보강 질문")
}

/// The paragraphs of a text.
pub open spec fn paragraphs(s: Seq<char>) -> Seq<Seq<char>> {
    strs::filled(strs::trimmed(strs::split(s, "\n\n"@)))
}

/// The second half of the paragraphs says the same as the first.
pub open spec fn halves_repeat(list: Seq<Seq<char>>) -> bool {
    &&& list.len() >= 2
    &&& list.len() % 2 == 0
    &&& forall|i: int|
        0 <= i < list.len() / 2 ==> sanitize::compact(#[trigger] list[i]) == sanitize::compact(
            list[i + list.len() as int / 2],
        )
}

/// A text whose second half repeats the first, without that half.
pub open spec fn without_repeated_half(s: Seq<char>) -> Seq<char> {
    let list = paragraphs(s);
    if halves_repeat(list) {
        strs::join(list.take(list.len() as int / 2), "\n\n"@)
    } else {
        strs::trim(s)
    }
}

/// A text whose second half repeats the first, without that half.
pub fn strategy_trim_repeated_record_halves(input: &str) -> (r: String)
    ensures
        r@ == without_repeated_half(input@),
{
    proof {
        reveal_strlit("\n\n");
    }
    let pieces = text::split(input, "\n\n");
    let trimmed = text::trimmed(&pieces);
    let list = text::filled(&trimmed);
    let ghost all = strs::views(list@);
    assert(all.len() == list@.len());
    if list.len() >= 2 && list.len() % 2 == 0 {
        let half: usize = list.len() / 2;
        let mut same = true;
        let mut i: usize = 0;
        while same && i < half
            invariant
                i <= half,
                half == list.len() / 2,
                all == strs::views(list@),
                all.len() == list@.len(),
                list@.len() % 2 == 0,
                list@.len() >= 2,
                same ==> forall|j: int|
                    0 <= j < i ==> sanitize::compact(#[trigger] all[j]) == sanitize::compact(
                        all[j + half],
                    ),
                !same ==> !halves_repeat(all),
            decreases half - i + (if same { 1int } else { 0int }),
        {
            let a = strategy_compact_text(&list[i]);
            let b = strategy_compact_text(&list[i + half]);
            assert(all[i as int] == list@[i as int]@ && all[i + half] == list@[i + half]@);
            if text::same(&a, &b) {
                i += 1;
            } else {
                same = false;
            }
        }
        if same {
            assert(halves_repeat(all));
            return text::join(&text::head(&list, half), "\n\n");
        }
    }
    text::trim(input)
}

/// A record while its sections are gathered: the headings seen, the lines kept, and whether a
/// section is open.
#[verifier::ext_equal]
pub struct Gathered {
    pub seen: Seq<Seq<char>>,
    pub lines: Seq<Seq<char>>,
    pub open: bool,
}

/// The lines with an empty one behind them, where the last is not empty.
pub open spec fn spaced(lines: Seq<Seq<char>>) -> Seq<Seq<char>> {
    if lines.len() > 0 && lines.last().len() > 0 {
        lines.push(Seq::empty())
    } else {
        lines
    }
}

/// What the next line does: a heading opens its section the first time and closes it when it
/// comes again; other lines are kept, clean, in an open section.
pub open spec fn gather(g: Gathered, raw: Seq<char>) -> Gathered {
    let t = strs::trim(raw);
    if t.len() == 0 {
        Gathered { lines: spaced(g.lines), ..g }
    } else if section_headers().contains(t) {
        if g.seen.contains(t) {
            Gathered { open: false, ..g }
        } else {
            Gathered { seen: g.seen.push(t), lines: spaced(g.lines).push(t), open: true }
        }
    } else if tail_noise(t) || !g.open {
        g
    } else if sanitize::sanitized(t).len() > 0 {
        Gathered { lines: g.lines.push(sanitize::sanitized(t)), ..g }
    } else {
        g
    }
}

/// The record after its lines were gathered.
pub open spec fn gathered(lines: Seq<Seq<char>>) -> Gathered
    decreases lines.len(),
{
    if lines.len() == 0 {
        Gathered { seen: Seq::empty(), lines: Seq::empty(), open: false }
    } else {
        gather(gathered(lines.drop_last()), lines.last())
    }
}

/// The lines without empty ones at the end.
pub open spec fn without_blank_end(lines: Seq<Seq<char>>) -> Seq<Seq<char>>
    decreases lines.len(),
{
    if lines.len() > 0 && lines.last().len() == 0 {
        without_blank_end(lines.drop_last())
    } else {
        lines
    }
}

/// A record with each section once; the trimmed text where it has no section.
pub open spec fn deduped_sections(s: Seq<char>) -> Seq<char> {
    let lines = without_blank_end(gathered(strs::lines(s)).lines);
    if lines.len() == 0 {
        strs::trim(s)
    } else {
        strs::join(lines, "\n"@)
    }
}

pub(crate) fn push_space(lines: &mut Vec<String>)
    ensures
        strs::views(final(lines)@) == spaced(strs::views(old(lines)@)),
{
    let n: usize = lines.len();
    assert(strs::views(lines@).len() == lines@.len());
    if n > 0 && lines[n - 1].as_str().unicode_len() > 0 {
        let blank = String::new();
        assert(blank@ =~= Seq::empty());
        text::push(lines, blank);
    }
}

/// A record with each section once; the trimmed text where it has no section.
pub fn strategy_dedupe_record_sections(input: &str) -> (r: String)
    ensures
        r@ == deduped_sections(input@),
{
    let raw = text::lines(input);
    let ghost all = strs::views(raw@);
    let mut seen = text::no_texts();
    let mut lines = text::no_texts();
    let mut open = false;
    let mut i: usize = 0;
    assert(all.take(0) =~= Seq::empty());
    while i < raw.len()
        invariant
            i <= raw@.len(),
            all == strs::views(raw@),
            gathered(all.take(i as int)) == (Gathered {
                seen: strs::views(seen@),
                lines: strs::views(lines@),
                open,
            }),
        decreases raw@.len() - i,
    {
        assert(all.take(i + 1).drop_last() =~= all.take(i as int));
        let trimmed = text::trim(&raw[i]);
        if trimmed.unicode_len() == 0 {
            push_space(&mut lines);
        } else if strategy_is_record_section_header(&trimmed) {
            if text::listed(&seen, &trimmed) {
                open = false;
            } else {
                push_space(&mut lines);
                text::push(&mut seen, trimmed.clone());
                text::push(&mut lines, trimmed);
                open = true;
            }
        } else if open && !strategy_is_record_tail_noise(&trimmed) {
            let clean = strategy_sanitize_text(&trimmed);
            if clean.unicode_len() > 0 {
                text::push(&mut lines, clean);
            }
        }
        i += 1;
    }
    assert(all.take(i as int) =~= all);
    let ghost full = strs::views(lines@);
    while lines.len() > 0 && lines[lines.len() - 1].as_str().unicode_len() == 0
        invariant
            without_blank_end(strs::views(lines@)) == without_blank_end(full),
        decreases lines@.len(),
    {
        let ghost before = lines@;
        assert(strs::views(before).last() == before.last()@);
        lines.pop();
        assert(strs::views(lines@) =~= strs::views(before).drop_last());
    }
    assert(strs::views(lines@).len() == lines@.len());
    assert(lines@.len() > 0 ==> strs::views(lines@).last() == lines@.last()@);
    if lines.len() == 0 {
        text::trim(input)
    } else {
        text::join(&lines, "\n")
    }
}

/// The headings that a record has to have: those of the template, or the usual ones.
pub open spec fn required_sections(order: Seq<Seq<char>>) -> Seq<Seq<char>> {
    if order.len() == 0 {
        section_headers()
    } else {
        order
    }
}

/// The text has every heading.
pub open spec fn has_sections(s: Seq<char>, headers: Seq<Seq<char>>) -> bool {
    forall|i: int| 0 <= i < headers.len() ==> strs::contains(s, #[trigger] headers[i])
}

/// Whether a record has every heading that it has to have.
pub fn strategy_record_answer_has_required_sections(answer: &str, section_order: &Vec<String>) -> (r:
    bool)
    ensures
        r == has_sections(answer@, required_sections(strs::views(section_order@))),
{
    assert(strs::views(section_order@).len() == section_order@.len());
    let usual = strategy_record_section_headers();
    let required = if section_order.len() == 0 {
        &usual
    } else {
        section_order
    };
    let ghost all = strs::views(required@);
    let mut i: usize = 0;
    while i < required.len()
        invariant
            i <= required@.len(),
            all == strs::views(required@),
            all == required_sections(strs::views(section_order@)),
            forall|j: int| 0 <= j < i ==> strs::contains(answer@, #[trigger] all[j]),
        decreases required@.len() - i,
    {
        assert(all[i as int] == required@[i as int]@);
        if !text::contains(answer, &required[i]) {
            return false;
        }
        i += 1;
    }
    true
}

/// A character that can stand at the edge of a name.
pub open spec fn name_char(c: char) -> bool {
    strs::alphanumeric(c) || '가' <= c <= '힣'
}

/// The text without what can not stand at the edges of a name.
pub open spec fn bare_name(s: Seq<char>) -> Seq<char> {
    strs::trim_end_where(
        strs::trim_start_where(s, |c: char| !name_char(c)),
        |c: char| !name_char(c),
    )
}

fn trim_to_name(s: &str) -> (r: String)
    ensures
        r@ == bare_name(s@),
{
    let v = text::chars_of(s);
    let ghost p = |c: char| !name_char(c);
    let mut start: usize = 0;
    assert(v@.skip(0) =~= v@);
    while start < v.len() && !(v[start].is_alphanumeric() || ('가' <= v[start] && v[start] <= '힣'))
        invariant
            p == (|c: char| !name_char(c)),
            start <= v@.len(),
            strs::trim_start_where(v@, p) == strs::trim_start_where(v@.skip(start as int), p),
        decreases v@.len() - start,
    {
        assert(v@.skip(start as int).skip(1) =~= v@.skip(start + 1));
        start += 1;
    }
    let ghost t = v@.skip(start as int);
    assert(strs::trim_start_where(v@, p) == t);
    let mut end: usize = v.len();
    assert(v@.subrange(start as int, end as int) =~= t);
    while end > start && !(v[end - 1].is_alphanumeric() || ('가' <= v[end - 1] && v[end - 1]
        <= '힣'))
        invariant
            p == (|c: char| !name_char(c)),
            start <= end <= v@.len(),
            strs::trim_end_where(t, p) == strs::trim_end_where(
                v@.subrange(start as int, end as int),
                p,
            ),
        decreases end,
    {
        assert(v@.subrange(start as int, end as int).drop_last() =~= v@.subrange(
            start as int,
            end - 1,
        ));
        end -= 1;
    }
    text::string_of(&v, start, end)
}

/// The words that name no person.
pub open spec fn no_person() -> Seq<Seq<char>> {
    seq![
        "오늘"@,
        "점심시간"@,
        "쉬는시간"@,
        "싸웠어"@,
        "싸움"@,
        "다툼"@,
        "문제"@,
        "상황"@,
    ]
}

/// The people of a message while they are guessed, and their compact names.
#[verifier::ext_equal]
pub struct People {
    pub names: Seq<Seq<char>>,
    pub seen: Seq<Seq<char>>,
}

/// The first word of a chunk, without what can not stand at the edges of a name.
pub open spec fn candidate_name(chunk: Seq<char>) -> Seq<char> {
    let words = strs::words(chunk);
    strs::trim(
        bare_name(
            if words.len() > 0 {
                words[0]
            } else {
                ""@
            },
        ),
    )
}

/// What the next chunk of a message adds to its people: at most two are named.
pub open spec fn meet(p: People, chunk: Seq<char>) -> People {
    let name = candidate_name(chunk);
    let key = sanitize::compact(name);
    if p.names.len() >= 2 || name.len() == 0 || key.len() == 0 || no_person().contains(key)
        || p.seen.contains(key) {
        p
    } else {
        People { names: p.names.push(name), seen: p.seen.push(key) }
    }
}

/// The people in the chunks of a message.
pub open spec fn met(chunks: Seq<Seq<char>>) -> People
    decreases chunks.len(),
{
    if chunks.len() == 0 {
        People { names: Seq::empty(), seen: Seq::empty() }
    } else {
        meet(met(chunks.drop_last()), chunks.last())
    }
}

/// The message with a bar in the place of each word that joins two people.
pub open spec fn barred(message: Seq<char>) -> Seq<char> {
    let a = strs::replace(sanitize::sanitized(message), "이랑"@, "|"@);
    let b = strs::replace(a, "랑"@, "|"@);
    let c = strs::replace(b, "하고"@, "|"@);
    let d = strs::replace(c, " 및 "@, "|"@);
    let e = strs::replace(d, "와 "@, "|"@);
    strs::replace(e, "과 "@, "|"@)
}

/// The people that a message seems to name.
pub open spec fn guessed_people(message: Seq<char>) -> Seq<Seq<char>> {
    met(strs::split(barred(message), "|"@)).names
}

/// The people that a message seems to name.
pub fn strategy_guess_record_people(message: &str) -> (r: Vec<String>)
    ensures
        strs::views(r@) == guessed_people(message@),
{
    proof {
        reveal_strlit("이랑");
        reveal_strlit("랑");
        reveal_strlit("하고");
        reveal_strlit(" 및 ");
        reveal_strlit("와 ");
        reveal_strlit("과 ");
        reveal_strlit("|");
    }
    let clean = strategy_sanitize_text(message);
    let a = text::replace(&clean, "이랑", "|");
    let b = text::replace(&a, "랑", "|");
    let c = text::replace(&b, "하고", "|");
    let d = text::replace(&c, " 및 ", "|");
    let e = text::replace(&d, "와 ", "|");
    let f = text::replace(&e, "과 ", "|");
    let chunks = text::split(&f, "|");
    let ghost all = strs::views(chunks@);
    let excluded = text::owned(
        &["오늘", "점심시간", "쉬는시간", "싸웠어", "싸움", "다툼", "문제", "상황"],
    );
    assert(strs::views(excluded@) =~= no_person());
    let mut names = text::no_texts();
    let mut seen = text::no_texts();
    let mut i: usize = 0;
    assert(all.take(0) =~= Seq::empty());
    while i < chunks.len()
        invariant
            i <= chunks@.len(),
            all == strs::views(chunks@),
            strs::views(excluded@) == no_person(),
            met(all.take(i as int)) == (People {
                names: strs::views(names@),
                seen: strs::views(seen@),
            }),
        decreases chunks@.len() - i,
    {
        assert(all.take(i + 1).drop_last() =~= all.take(i as int));
        assert(strs::views(names@).len() == names@.len());
        let words = text::words(&chunks[i]);
        assert(strs::views(words@).len() == words@.len());
        let word = if words.len() > 0 {
            words[0].clone()
        } else {
            "".to_owned()
        };
        let name = text::trim(&trim_to_name(&word));
        if names.len() < 2 && name.unicode_len() > 0 {
            let key = strategy_compact_text(&name);
            if key.unicode_len() > 0 && !text::listed(&excluded, &key) && !text::listed(
                &seen,
                &key,
            ) {
                text::push(&mut seen, key);
                text::push(&mut names, name);
            }
        }
        i += 1;
    }
    assert(all.take(i as int) =~= all);
    names
}

/// The time that a message seems to speak of.
pub open spec fn time_hint(message: Seq<char>) -> Seq<char> {
    let m = sanitize::sanitized(message);
    let today = strs::contains(m, "오늘"@);
    let lunch = strs::contains(m, "점심시간"@);
    let recess = strs::contains(m, "쉬는시간"@);
    if today && lunch {
        "오늘 점심시간"@
    } else if today && recess {
        "오늘 쉬는시간"@
    } else if today {
        "오늘"@
    } else if lunch {
        "점심시간"@
    } else if recess {
        "쉬는시간"@
    } else {
        "시점 미상"@
    }
}

/// The time that a message seems to speak of.
pub fn strategy_guess_record_time_hint(message: &str) -> (r: String)
    ensures
        r@ == time_hint(message@),
{
    let m = strategy_sanitize_text(message);
    let today = text::contains(&m, "오늘");
    let lunch = text::contains(&m, "점심시간");
    let recess = text::contains(&m, "쉬는시간");
    let hint: &'static str = if today && lunch {
        "오늘 점심시간"
    } else if today && recess {
        "오늘 쉬는시간"
    } else if today {
        "오늘"
    } else if lunch {
        "점심시간"
    } else if recess {
        "쉬는시간"
    } else {
        "시점 미상"
    };
    hint.to_owned()
}

/// The places that a message may name.
pub open spec fn known_places() -> Seq<Seq<char>> {
    seq![
        "교실"@,
        "복도"@,
        "운동장"@,
        "급식실"@,
        "강당"@,
        "화장실"@,
        "교문"@,
        "버스"@,
        "메신저"@,
        "온라인"@,
    ]
}

/// The first of the texts, from position `i` on, that stands in `s`.
pub open spec fn first_contained(s: Seq<char>, list: Seq<Seq<char>>, i: int) -> Option<Seq<char>>
    decreases list.len() - i,
{
    if i < 0 || i >= list.len() {
        None
    } else if strs::contains(s, list[i]) {
        Some(list[i])
    } else {
        first_contained(s, list, i + 1)
    }
}

/// The place that a message seems to speak of.
pub open spec fn place_hint(message: Seq<char>) -> Seq<char> {
    let m = sanitize::sanitized(message);
    match first_contained(m, known_places(), 0) {
        Some(place) => place,
        None => if strs::contains(m, "점심시간"@) || strs::contains(m, "쉬는시간"@) {
            "교내 장소 미상"@
        } else {
            "장소 미상"@
        },
    }
}

/// The place that a message seems to speak of.
pub fn strategy_guess_record_place_hint(message: &str) -> (r: String)
    ensures
        r@ == place_hint(message@),
{
    let m = strategy_sanitize_text(message);
    let places = text::owned(
        &["교실", "복도", "운동장", "급식실", "강당", "화장실", "교문", "버스", "메신저", "온라인"],
    );
    let ghost all = strs::views(places@);
    assert(all =~= known_places());
    let mut i: usize = 0;
    while i < places.len()
        invariant
            i <= places@.len(),
            all == strs::views(places@),
            all == known_places(),
            m@ == sanitize::sanitized(message@),
            first_contained(m@, all, 0) == first_contained(m@, all, i as int),
        decreases places@.len() - i,
    {
        assert(all[i as int] == places@[i as int]@);
        if text::contains(&m, &places[i]) {
            return places[i].clone();
        }
        i += 1;
    }
    if text::contains(&m, "점심시간") || text::contains(&m, "쉬는시간") {
        "교내 장소 미상".to_owned()
    } else {
        "장소 미상".to_owned()
    }
}

/// The short name of a law, or its full name.
pub open spec fn law_label(item: StrategyLegalReference) -> Seq<char> {
    if strs::trim(item.short_name@).len() == 0 {
        strs::trim(item.law_name@)
    } else {
        strs::trim(item.short_name@)
    }
}

/// The short name of a law, or its full name.
pub fn law_label_of(item: &StrategyLegalReference) -> (r: String)
    ensures
        r@ == law_label(*item),
{
    if text::is_blank(&item.short_name) {
        text::trim(&item.law_name)
    } else {
        text::trim(&item.short_name)
    }
}

/// A law with the number of the article, or with its title.
pub open spec fn law_and_article(item: StrategyLegalReference) -> Seq<char> {
    (law_label(item) + " "@ + (if strs::trim(item.article_ref@).len() == 0 {
        strs::trim(item.article_title@)
    } else {
        strs::trim(item.article_ref@)
    }))
}

fn law_and_article_of(item: &StrategyLegalReference) -> (r: String)
    ensures
        r@ == law_and_article(*item),
{
    let article = if text::is_blank(&item.article_ref) {
        text::trim(&item.article_title)
    } else {
        text::trim(&item.article_ref)
    };
    let mut out = text::copy(&law_label_of(item));
    out.append(" ");
    out.append(&article);
    out
}

/// A record that is made of the message alone.
pub open spec fn fallback_record(
    records: nat,
    laws: Seq<StrategyLegalReference>,
    message: Seq<char>,
    now: Seq<char>,
) -> Seq<char> {
    let people = guessed_people(message);
    let actor = if people.len() > 0 {
        people[0]
    } else {
        "당사자 미상"@
    };
    let counterpart = if people.len() > 1 {
        people[1]
    } else {
        "상대방 미상"@
    };
    let time = time_hint(message);
    let place = place_hint(message);
    let input = strs::first(sanitize::sanitized(strs::trim(message)), 220);
    let evidence_hint = if records == 0 {
        "현재 참고 기록이 연결되지 않아 직접 입력 내용을 기준으로 1차 기록을 정리함."@
    } else {
        ("현재 참고 기록 "@ + strs::decimal(records) + "건을 함께 보며 1차 기록을 정리함."@)
    };
    let legal_hint = if laws.len() == 0 {
        "상담 및 사실 확인 흐름을 중심으로 추가 기록을 보완할 필요가 있음."@
    } else {
        (strs::join(
            strs::head(laws, 2).map_values(|l: StrategyLegalReference| law_and_article(l)),
            ", "@,
        ) + " 기준으로 사실 확인, 상담 경위, 훈육 여부를 분리해 남길 필요가 있음."@)
    };
    ("[기록 기본정보]\n- 기록 시각: "@ + now + "\n- 주체: "@ + actor + "\n- 상대방: "@ + counterpart + "\n- 위치/채널: "@ + place + "\n- 자료 형태: 직접 입력\n- 민감도: 보통\n\n[상황 요약]\n사용자 입력에 따르면 "@ + time + " "@ + place + "에 "@ + actor + "와 "@ + counterpart + " 사이에 다툼이 있었던 것으로 접수되었다. 현재 입력만으로는 다툼의 직접 원인, 언쟁과 신체 접촉 여부, 교사 개입 시점, 직후 분리 조치 여부는 확인되지 않았다. 따라서 우선 두 학생의 진술과 직후 상황을 분리해서 확인하고, 현재 상태까지 이어서 기록할 필요가 있다.\n\n[배경 흐름]\n현재 확보된 정보는 '"@ + input + "'라는 직접 입력과 기본 상황 설명이 전부이며, 선행 갈등이나 반복 패턴 여부는 추가 확인이 필요하다. "@ + evidence_hint + " 점심시간 전후 수업 맥락, 주변 학생 반응, 해당 시점의 교사 관찰 내용이 있으면 사건 흐름을 더 정확하게 재구성할 수 있다.\n\n[핵심 포인트]\n첫째, 실제 다툼의 형태가 말다툼 수준인지 신체 접촉까지 있었는지 즉시 확인할 필요가 있다. 둘째, 직후 두 학생의 감정 상태와 분리 또는 중재 조치가 있었는지 확인해야 한다. 셋째, 이후 관계 회복이 가능한 상황인지, 추가 충돌 가능성이 있는지도 함께 관찰할 필요가 있다.\n\n[관련 자료]\n현재 연결된 참고 기록은 "@ + strs::decimal(records) + "건이며, "@ + (if records == 0 { "없음"@ } else { "있음"@ }) + " 추가로 당사자 진술, 주변 학생 또는 교사의 관찰 메모, 필요 시 당시 상황과 연결되는 자료를 확보하면 기록의 신뢰도를 높일 수 있다.\n\n[내 대응 메모]\n현재는 사용자 입력을 바탕으로 1차 기록 초안을 정리한 상태이며, 저장 전 사실관계와 직후 조치 내용을 더 구체적으로 보완하는 것이 필요하다. 특히 누가 먼저 어떤 표현이나 행동을 했는지, 즉시 어떤 말을 했고 어떤 중재를 했는지를 분리해 남기면 이후 설명과 상담에 도움이 된다.\n\n[추가 메모]\n"@ + legal_hint + " 현재 상태로는 단정적 판단보다 사실 확인 중심 기록이 우선이며, 필요한 경우 상담 또는 생활지도 경위를 별도 메모로 이어서 남기는 것이 적절하다."@)
}

/// A record that is made of the message alone; `now` is the time at which it is written.
pub fn build_strategy_record_fallback_answer(
    evidence_packet: &StrategyEvidencePacket,
    message: &str,
    now: &str,
) -> (r: String)
    ensures
        r@ == fallback_record(
            evidence_packet.evidence_records@.len(),
            evidence_packet.legal_references@,
            message@,
            now@,
        ),
{
    let people = strategy_guess_record_people(message);
    assert(strs::views(people@).len() == people@.len());
    let actor = if people.len() > 0 {
        people[0].clone()
    } else {
        "당사자 미상".to_owned()
    };
    let counterpart = if people.len() > 1 {
        people[1].clone()
    } else {
        "상대방 미상".to_owned()
    };
    let time = strategy_guess_record_time_hint(message);
    let place = strategy_guess_record_place_hint(message);
    let input = strategy_trim(&strategy_sanitize_text(&text::trim(message)), 220);
    let records: usize = evidence_packet.evidence_records.len();
    let evidence_hint = if records == 0 {
        "현재 참고 기록이 연결되지 않아 직접 입력 내용을 기준으로 1차 기록을 정리함.".to_owned()
    } else {
        let mut hint = text::copy("현재 참고 기록 ");
        hint.append(&text::decimal(records as u64));
        hint.append("건을 함께 보며 1차 기록을 정리함.");
        hint
    };
    let legal_hint = if evidence_packet.legal_references.len() == 0 {
        "상담 및 사실 확인 흐름을 중심으로 추가 기록을 보완할 필요가 있음.".to_owned()
    } else {
        let laws = text::map_first(
            &evidence_packet.legal_references,
            2,
            law_and_article_of,
            Ghost(|l: StrategyLegalReference| law_and_article(l)),
        );
        let mut hint = text::copy(&text::join(&laws, ", "));
        hint.append(" 기준으로 사실 확인, 상담 경위, 훈육 여부를 분리해 남길 필요가 있음.");
        hint
    };
    let present: &'static str = if records == 0 {
        "없음"
    } else {
        "있음"
    };
    let mut out = text::copy("[기록 기본정보]\n- 기록 시각: ");
    out.append(now);
    out.append("\n- 주체: ");
    out.append(&actor);
    out.append("\n- 상대방: ");
    out.append(&counterpart);
    out.append("\n- 위치/채널: ");
    out.append(&place);
    out.append("\n- 자료 형태: 직접 입력\n- 민감도: 보통\n\n[상황 요약]\n사용자 입력에 따르면 ");
    out.append(&time);
    out.append(" ");
    out.append(&place);
    out.append("에 ");
    out.append(&actor);
    out.append("와 ");
    out.append(&counterpart);
    out.append(" 사이에 다툼이 있었던 것으로 접수되었다. 현재 입력만으로는 다툼의 직접 원인, 언쟁과 신체 접촉 여부, 교사 개입 시점, 직후 분리 조치 여부는 확인되지 않았다. 따라서 우선 두 학생의 진술과 직후 상황을 분리해서 확인하고, 현재 상태까지 이어서 기록할 필요가 있다.\n\n[배경 흐름]\n현재 확보된 정보는 '");
    out.append(&input);
    out.append("'라는 직접 입력과 기본 상황 설명이 전부이며, 선행 갈등이나 반복 패턴 여부는 추가 확인이 필요하다. ");
    out.append(&evidence_hint);
    out.append(" 점심시간 전후 수업 맥락, 주변 학생 반응, 해당 시점의 교사 관찰 내용이 있으면 사건 흐름을 더 정확하게 재구성할 수 있다.\n\n[핵심 포인트]\n첫째, 실제 다툼의 형태가 말다툼 수준인지 신체 접촉까지 있었는지 즉시 확인할 필요가 있다. 둘째, 직후 두 학생의 감정 상태와 분리 또는 중재 조치가 있었는지 확인해야 한다. 셋째, 이후 관계 회복이 가능한 상황인지, 추가 충돌 가능성이 있는지도 함께 관찰할 필요가 있다.\n\n[관련 자료]\n현재 연결된 참고 기록은 ");
    out.append(&text::decimal(records as u64));
    out.append("건이며, ");
    out.append(present);
    out.append(" 추가로 당사자 진술, 주변 학생 또는 교사의 관찰 메모, 필요 시 당시 상황과 연결되는 자료를 확보하면 기록의 신뢰도를 높일 수 있다.\n\n[내 대응 메모]\n현재는 사용자 입력을 바탕으로 1차 기록 초안을 정리한 상태이며, 저장 전 사실관계와 직후 조치 내용을 더 구체적으로 보완하는 것이 필요하다. 특히 누가 먼저 어떤 표현이나 행동을 했는지, 즉시 어떤 말을 했고 어떤 중재를 했는지를 분리해 남기면 이후 설명과 상담에 도움이 된다.\n\n[추가 메모]\n");
    out.append(&legal_hint);
    out.append(" 현재 상태로는 단정적 판단보다 사실 확인 중심 기록이 우선이며, 필요한 경우 상담 또는 생활지도 경위를 별도 메모로 이어서 남기는 것이 적절하다.");
    out
}

/// A record as it is shown: without what the model repeated, cut to 5200 characters; a record
/// made of the message alone where a section is missing.
pub open spec fn finished_record(
    answer: Seq<char>,
    records: nat,
    laws: Seq<StrategyLegalReference>,
    message: Seq<char>,
    order: Seq<Seq<char>>,
    now: Seq<char>,
) -> Seq<char> {
    let cleaned = strs::first(
        strs::trim(deduped_sections(without_repeated_half(without_echo(strs::trim(answer))))),
        5200,
    );
    if has_sections(cleaned, required_sections(order)) {
        cleaned
    } else {
        fallback_record(records, laws, message, now)
    }
}

/// A record as it is shown.
pub fn finalize_strategy_record_answer(
    answer: &str,
    evidence_packet: &StrategyEvidencePacket,
    message: &str,
    section_order: &Vec<String>,
    now: &str,
) -> (r: String)
    ensures
        r@ == finished_record(
            answer@,
            evidence_packet.evidence_records@.len(),
            evidence_packet.legal_references@,
            message@,
            strs::views(section_order@),
            now@,
        ),
{
    let cleaned = strategy_strip_prompt_echo(&text::trim(answer));
    let cleaned = strategy_trim_repeated_record_halves(&cleaned);
    let cleaned = strategy_dedupe_record_sections(&cleaned);
    let cleaned = strategy_trim(&text::trim(&cleaned), 5200);
    if strategy_record_answer_has_required_sections(&cleaned, section_order) {
        cleaned
    } else {
        build_strategy_record_fallback_answer(evidence_packet, message, now)
    }
}

} // verus!
