//! Reports that a model gives as data: how they are found, read off a record, and written out.

use crate::drace::cache_manager::HybridStage;
use crate::drace::draft_provider;
use crate::engine::drafts::strategy_build_draft_proposal;
use crate::engine::labels;
use crate::engine::labels::build_strategy_record_line_for_prompt;
use crate::engine::models::STRATEGY_MODEL_DEFAULT_ID;
use crate::engine::packet::{StrategyEvidencePacket, StrategyEvidenceRecord};
use crate::engine::perf;
use crate::engine::perf::strategy_approx_output_tokens;
use crate::engine::record_answer;
use crate::engine::record_answer::{
    strategy_guess_record_people, strategy_guess_record_place_hint,
    strategy_is_record_section_header, strategy_is_record_tail_noise,
};
use crate::engine::sanitize;
use crate::engine::sanitize::{strategy_compact_text, strategy_sanitize_text, strategy_trim};
use crate::strs;
use crate::text;
use vstd::prelude::*;

verus! {

/// A report as data.
#[derive(Debug, Clone)]
pub struct StrategyStructuredReportDraft {
    pub summary: String,
    pub actors: Vec<String>,
    pub timeline: Vec<String>,
    pub issues: Vec<String>,
    pub evidence: Vec<String>,
    pub recommended_questions: Vec<String>,
}

/// A report, as the contracts see it.
#[verifier::ext_equal]
pub struct Report {
    pub summary: Seq<char>,
    pub actors: Seq<Seq<char>>,
    pub timeline: Seq<Seq<char>>,
    pub issues: Seq<Seq<char>>,
    pub evidence: Seq<Seq<char>>,
    pub questions: Seq<Seq<char>>,
}

impl View for StrategyStructuredReportDraft {
    type V = Report;

    open spec fn view(&self) -> Report {
        Report {
            summary: self.summary@,
            actors: strs::views(self.actors@),
            timeline: strs::views(self.timeline@),
            issues: strs::views(self.issues@),
            evidence: strs::views(self.evidence@),
            questions: strs::views(self.recommended_questions@),
        }
    }
}

/// A text while the object in it is looked for: where the first brace stood, how many are open,
/// whether a string is open, and whether the next character of it is escaped.
#[verifier::ext_equal]
pub struct Scan {
    pub start: Option<int>,
    pub depth: int,
    pub quoted: bool,
    pub escaped: bool,
}

/// The bounds of the first object from position `i` on: it ends where the braces outside of
/// strings are closed.
pub open spec fn object_from(s: Seq<char>, i: int, scan: Scan) -> Option<(int, int)>
    decreases s.len() - i,
{
    if i < 0 || i >= s.len() {
        None
    } else if scan.quoted {
        if scan.escaped {
            object_from(s, i + 1, Scan { escaped: false, ..scan })
        } else if s[i] == '\\' {
            object_from(s, i + 1, Scan { escaped: true, ..scan })
        } else if s[i] == '"' {
            object_from(s, i + 1, Scan { quoted: false, ..scan })
        } else {
            object_from(s, i + 1, scan)
        }
    } else if s[i] == '"' {
        object_from(s, i + 1, Scan { quoted: true, ..scan })
    } else if s[i] == '{' {
        object_from(
            s,
            i + 1,
            Scan {
                start: if scan.start is None {
                    Some(i)
                } else {
                    scan.start
                },
                depth: scan.depth + 1,
                ..scan
            },
        )
    } else if s[i] == '}' {
        if scan.depth == 1 {
            match scan.start {
                Some(a) => Some((a, i + 1)),
                None => None,
            }
        } else {
            object_from(s, i + 1, Scan { depth: scan.depth - 1, ..scan })
        }
    } else {
        object_from(s, i + 1, scan)
    }
}

/// Nothing was seen yet.
pub open spec fn no_scan() -> Scan {
    Scan { start: None, depth: 0, quoted: false, escaped: false }
}

/// The first object in a text.
pub open spec fn first_object(s: Seq<char>) -> Option<Seq<char>> {
    match object_from(s, 0, no_scan()) {
        Some((a, b)) => Some(s.subrange(a, b)),
        None => None,
    }
}

proof fn lemma_object(s: Seq<char>, i: int, scan: Scan)
    requires
        0 <= i,
        scan.start matches Some(a) ==> 0 <= a < i && a < s.len() && s[a] == '{',
        scan.start is None ==> scan.depth <= 0,
    ensures
        object_from(s, i, scan) matches Some((a, b)) ==> 0 <= a < b <= s.len() && s[a] == '{' && s[b
            - 1] == '}',
    decreases s.len() - i,
{
    if i < s.len() {
        if scan.quoted {
            if scan.escaped {
                lemma_object(s, i + 1, Scan { escaped: false, ..scan });
            } else if s[i] == '\\' {
                lemma_object(s, i + 1, Scan { escaped: true, ..scan });
            } else if s[i] == '"' {
                lemma_object(s, i + 1, Scan { quoted: false, ..scan });
            } else {
                lemma_object(s, i + 1, scan);
            }
        } else if s[i] == '"' {
            lemma_object(s, i + 1, Scan { quoted: true, ..scan });
        } else if s[i] == '{' {
            lemma_object(
                s,
                i + 1,
                Scan {
                    start: if scan.start is None {
                        Some(i)
                    } else {
                        scan.start
                    },
                    depth: scan.depth + 1,
                    ..scan
                },
            );
        } else if s[i] == '}' {
            if scan.depth != 1 {
                lemma_object(s, i + 1, Scan { depth: scan.depth - 1, ..scan });
            }
        } else {
            lemma_object(s, i + 1, scan);
        }
    }
}

/// An object that is found stands between braces.
pub proof fn an_object_stands_between_braces(s: Seq<char>)
    ensures
        first_object(s) matches Some(t) ==> t.len() >= 2 && t[0] == '{' && t.last() == '}',
{
    lemma_object(s, 0, no_scan());
}

/// The bounds of the first object from a position on.
pub fn find_object(v: &Vec<char>, from: usize) -> (r: Option<(usize, usize)>)
    ensures
        match r {
            Some((a, b)) => from <= a < b <= v@.len() && object_from(v@, from as int, no_scan())
                == Some((a as int, b as int)),
            None => object_from(v@, from as int, no_scan()) is None,
        },
{
    let mut start: Option<usize> = None;
    let mut depth: i128 = 0;
    let mut quoted = false;
    let mut escaped = false;
    let mut i: usize = from;
    while i < v.len()
        invariant
            from <= i,
            -(i - from) <= depth <= i - from,
            start matches Some(a) ==> from <= a < i,
            object_from(v@, from as int, no_scan()) == object_from(
                v@,
                i as int,
                Scan {
                    start: match start {
                        Some(a) => Some(a as int),
                        None => None,
                    },
                    depth: depth as int,
                    quoted,
                    escaped,
                },
            ),
        decreases v@.len() - i,
    {
        let c = v[i];
        if quoted {
            if escaped {
                escaped = false;
            } else if c == '\\' {
                escaped = true;
            } else if c == '"' {
                quoted = false;
            }
        } else if c == '"' {
            quoted = true;
        } else if c == '{' {
            if start.is_none() {
                start = Some(i);
            }
            depth = depth + 1;
        } else if c == '}' {
            if depth == 1 {
                match start {
                    Some(a) => {
                        return Some((a, i + 1));
                    },
                    None => {
                        return None;
                    },
                }
            }
            depth = depth - 1;
        }
        i += 1;
    }
    None
}

/// The first object in a text.
pub fn strategy_extract_json_object(raw: &str) -> (r: Option<String>)
    ensures
        strs::opt_view(r) == first_object(raw@),
{
    let v = text::chars_of(raw);
    match find_object(&v, 0) {
        Some((a, b)) => Some(text::string_of(&v, a, b)),
        None => None,
    }
}

/// A text with its separators turned into line breaks.
pub open spec fn broken_up(s: Seq<char>) -> Seq<char> {
    let a = strs::replace(s, " / "@, "\n"@);
    let b = strs::replace(a, "·"@, "\n"@);
    let c = strs::replace(b, "•"@, "\n"@);
    let d = strs::replace(c, "①"@, "\n"@);
    let e = strs::replace(d, "②"@, "\n"@);
    let f = strs::replace(e, "③"@, "\n"@);
    strs::replace(f, "④"@, "\n"@)
}

/// A line without the dashes before it.
pub open spec fn undashed(s: Seq<char>) -> Seq<char> {
    strs::trim(strs::trim_start_set(strs::trim(s), "-"@))
}

/// The items of a section, cut to 180 characters, at most `max` of them.
pub open spec fn items_of(s: Seq<char>, max: nat) -> Seq<Seq<char>> {
    let lines = strs::filled(strs::lines(broken_up(s)).map_values(|l: Seq<char>| undashed(l)));
    strs::head(strs::filled(lines.map_values(|l: Seq<char>| strs::first(l, 180))), max)
}

fn undashed_line(s: &str) -> (r: String)
    ensures
        r@ == undashed(s@),
{
    text::trim(&text::trim_start_set(&text::trim(s), "-"))
}

fn first_180(s: &str) -> (r: String)
    ensures
        r@ == strs::first(s@, 180),
{
    strategy_trim(s, 180)
}

/// The items of a section, cut to 180 characters, at most `max_items` of them.
pub fn strategy_split_renderer_items(input: &str, max_items: usize) -> (r: Vec<String>)
    ensures
        strs::views(r@) == items_of(input@, max_items as nat),
{
    proof {
        reveal_strlit(" / ");
        reveal_strlit("·");
        reveal_strlit("•");
        reveal_strlit("①");
        reveal_strlit("②");
        reveal_strlit("③");
        reveal_strlit("④");
    }
    let a = text::replace(input, " / ", "\n");
    let b = text::replace(&a, "·", "\n");
    let c = text::replace(&b, "•", "\n");
    let d = text::replace(&c, "①", "\n");
    let e = text::replace(&d, "②", "\n");
    let f = text::replace(&e, "③", "\n");
    let g = text::replace(&f, "④", "\n");
    let lines = text::map_texts(&text::lines(&g), undashed_line, Ghost(|l: Seq<char>| undashed(l)));
    let cut = text::map_texts(
        &text::filled(&lines),
        first_180,
        Ghost(|l: Seq<char>| strs::first(l, 180)),
    );
    text::head(&text::filled(&cut), max_items)
}

/// The parts of a report, one after the other.
pub open spec fn report_text(r: Report) -> Seq<char> {
    strs::join(
        seq![
            r.summary,
            strs::join(r.actors, " "@),
            strs::join(r.timeline, " "@),
            strs::join(r.issues, " "@),
            strs::join(r.evidence, " "@),
            strs::join(r.questions, " "@),
        ],
        " "@,
    )
}

/// A rough count of the tokens of a report.
pub fn strategy_estimate_structured_report_tokens(structured: &StrategyStructuredReportDraft) -> (r:
    usize)
    ensures
        r == perf::output_tokens(report_text(structured@)),
{
    let mut parts = text::no_texts();
    text::push(&mut parts, structured.summary.clone());
    text::push(&mut parts, text::join(&structured.actors, " "));
    text::push(&mut parts, text::join(&structured.timeline, " "));
    text::push(&mut parts, text::join(&structured.issues, " "));
    text::push(&mut parts, text::join(&structured.evidence, " "));
    text::push(&mut parts, text::join(&structured.recommended_questions, " "));
    let ghost r = structured@;
    assert(strs::views(parts@) =~= seq![
        r.summary,
        strs::join(r.actors, " "@),
        strs::join(r.timeline, " "@),
        strs::join(r.issues, " "@),
        strs::join(r.evidence, " "@),
        strs::join(r.questions, " "@),
    ]);
    strategy_approx_output_tokens(&text::join(&parts, " "))
}

/// A record while one of its sections is read: the heading that was seen last, and the lines.
#[verifier::ext_equal]
pub struct Section {
    pub heading: Seq<char>,
    pub lines: Seq<Seq<char>>,
}

/// The lines under a heading, cleaned, without empty ones and those that do not belong there.
pub open spec fn section_lines(lines: Seq<Seq<char>>, target: Seq<char>) -> Section
    decreases lines.len(),
{
    if lines.len() == 0 {
        Section { heading: Seq::empty(), lines: Seq::empty() }
    } else {
        let head = section_lines(lines.drop_last(), target);
        let t = strs::trim(lines.last());
        if record_answer::section_headers().contains(t) {
            Section { heading: t, ..head }
        } else if head.heading == target && t.len() > 0 && !record_answer::tail_noise(t) {
            Section { lines: head.lines.push(sanitize::sanitized(t)), ..head }
        } else {
            head
        }
    }
}

/// The text of a section of a record.
pub open spec fn section_body(s: Seq<char>, target: Seq<char>) -> Seq<char> {
    strs::join(section_lines(strs::lines(s), target).lines, "\n"@)
}

/// The text of a section of a record.
pub fn strategy_extract_record_section_body(input: &str, target_header: &str) -> (r: String)
    ensures
        r@ == section_body(input@, target_header@),
{
    let raw = text::lines(input);
    let ghost all = strs::views(raw@);
    let mut heading = String::new();
    let mut lines = text::no_texts();
    let mut i: usize = 0;
    assert(heading@ =~= Seq::empty());
    assert(all.take(0) =~= Seq::empty());
    while i < raw.len()
        invariant
            i <= raw@.len(),
            all == strs::views(raw@),
            section_lines(all.take(i as int), target_header@) == (Section {
                heading: heading@,
                lines: strs::views(lines@),
            }),
        decreases raw@.len() - i,
    {
        assert(all.take(i + 1).drop_last() =~= all.take(i as int));
        let trimmed = text::trim(&raw[i]);
        if strategy_is_record_section_header(&trimmed) {
            heading = trimmed;
        } else if text::same(&heading, target_header) && trimmed.as_str().unicode_len() > 0
            && !strategy_is_record_tail_noise(&trimmed) {
            text::push(&mut lines, strategy_sanitize_text(&trimmed));
        }
        i += 1;
    }
    assert(all.take(i as int) =~= all);
    text::join(&lines, "\n")
}

/// Another item says the same.
pub open spec fn says_same(list: Seq<Seq<char>>, item: Seq<char>) -> bool {
    exists|j: int|
        0 <= j < list.len() && sanitize::compact(#[trigger] list[j]) == sanitize::compact(item)
}

/// A list with an item behind it, where none says the same.
pub open spec fn with_unlike(list: Seq<Seq<char>>, item: Seq<char>) -> Seq<Seq<char>> {
    if says_same(list, item) {
        list
    } else {
        list.push(item)
    }
}

/// A list with further items behind it, each where none says the same.
pub open spec fn with_all_unlike(list: Seq<Seq<char>>, more: Seq<Seq<char>>) -> Seq<Seq<char>>
    decreases more.len(),
{
    if more.len() == 0 {
        list
    } else {
        with_unlike(with_all_unlike(list, more.drop_last()), more.last())
    }
}

fn push_unlike(list: &mut Vec<String>, item: String)
    ensures
        strs::views(final(list)@) == with_unlike(strs::views(old(list)@), item@),
{
    let ghost all = strs::views(list@);
    let compact = strategy_compact_text(&item);
    let mut known = false;
    let mut i: usize = 0;
    while i < list.len() && !known
        invariant
            i <= list@.len(),
            all == strs::views(list@),
            compact@ == sanitize::compact(item@),
            known ==> says_same(all, item@),
            !known ==> forall|j: int|
                0 <= j < i ==> sanitize::compact(#[trigger] all[j]) != compact@,
        decreases list@.len() - i + (if known { 0int } else { 1int }),
    {
        let own = strategy_compact_text(&list[i]);
        assert(all[i as int] == list@[i as int]@);
        if text::same(&own, &compact) {
            known = true;
        } else {
            i += 1;
        }
    }
    if !known {
        text::push(list, item);
    }
}

fn push_all_unlike(list: &mut Vec<String>, more: &Vec<String>)
    ensures
        strs::views(final(list)@) == with_all_unlike(strs::views(old(list)@), strs::views(more@)),
{
    let ghost all = strs::views(more@);
    let ghost before = strs::views(list@);
    let mut i: usize = 0;
    assert(all.take(0) =~= Seq::empty());
    while i < more.len()
        invariant
            i <= more@.len(),
            all == strs::views(more@),
            strs::views(list@) == with_all_unlike(before, all.take(i as int)),
        decreases more@.len() - i,
    {
        assert(all.take(i + 1).drop_last() =~= all.take(i as int));
        push_unlike(list, more[i].clone());
        i += 1;
    }
    assert(all.take(i as int) =~= all);
}

/// The character parts the names in a line.
pub open spec fn parts_names(c: char) -> bool {
    c == ',' || c == '·' || c == '/' || c == '|' || c == ';'
}

/// The names in a line.
pub open spec fn names_in(line: Seq<char>) -> Seq<Seq<char>> {
    strs::filled(
        strs::trimmed(
            strs::split(
                line.map_values(
                    |c: char|
                        if parts_names(c) {
                            ','
                        } else {
                            c
                        },
                ),
                ","@,
            ),
        ),
    )
}

/// The names in a list of lines.
pub open spec fn names_in_all(lines: Seq<Seq<char>>) -> Seq<Seq<char>>
    decreases lines.len(),
{
    if lines.len() == 0 {
        Seq::empty()
    } else {
        names_in_all(lines.drop_last()) + names_in(lines.last())
    }
}

fn split_names(line: &str) -> (r: Vec<String>)
    ensures
        strs::views(r@) == names_in(line@),
{
    proof {
        reveal_strlit(",");
    }
    let v = text::chars_of(line);
    let mut out: Vec<char> = Vec::new();
    let mut i: usize = 0;
    let ghost f = |c: char|
        if parts_names(c) {
            ','
        } else {
            c
        };
    while i < v.len()
        invariant
            i <= v@.len(),
            f == (|c: char|
                if parts_names(c) {
                    ','
                } else {
                    c
                }),
            out@ =~= v@.take(i as int).map_values(f),
        decreases v@.len() - i,
    {
        let c = v[i];
        out.push(
            if c == ',' || c == '·' || c == '/' || c == '|' || c == ';' {
                ','
            } else {
                c
            },
        );
        i += 1;
    }
    assert(v@.take(i as int) =~= v@);
    let n: usize = out.len();
    let joined = text::string_of(&out, 0, n);
    assert(joined@ =~= line@.map_values(f));
    text::filled(&text::trimmed(&text::split(&joined, ",")))
}

fn split_all_names(lines: &Vec<String>) -> (r: Vec<String>)
    ensures
        strs::views(r@) == names_in_all(strs::views(lines@)),
{
    let ghost all = strs::views(lines@);
    let mut out = text::no_texts();
    let mut i: usize = 0;
    assert(all.take(0) =~= Seq::empty());
    while i < lines.len()
        invariant
            i <= lines@.len(),
            all == strs::views(lines@),
            strs::views(out@) == names_in_all(all.take(i as int)),
        decreases lines@.len() - i,
    {
        assert(all.take(i + 1).drop_last() =~= all.take(i as int));
        text::push_all(&mut out, &split_names(&lines[i]));
        i += 1;
    }
    assert(all.take(i as int) =~= all);
    out
}

/// The people of the evidence: those of the summary, then those of the records.
pub open spec fn known_people(packet: StrategyEvidencePacket) -> Seq<Seq<char>> {
    let of_records = strs::filled(
        packet.evidence_records@.map_values(|e: StrategyEvidenceRecord| strs::trim(e.actor@)),
    );
    with_all_unlike(
        with_all_unlike(Seq::empty(), names_in_all(strs::views(packet.actor_summary@))),
        of_records,
    )
}

fn trimmed_actor(e: &StrategyEvidenceRecord) -> (r: String)
    ensures
        r@ == strs::trim(e.actor@),
{
    text::trim(&e.actor)
}

fn people_of_evidence(packet: &StrategyEvidencePacket) -> (r: Vec<String>)
    ensures
        strs::views(r@) == known_people(*packet),
{
    let mut out = text::no_texts();
    push_all_unlike(&mut out, &split_all_names(&packet.actor_summary));
    let n: usize = packet.evidence_records.len();
    let actors = text::map_first(
        &packet.evidence_records,
        n,
        trimmed_actor,
        Ghost(|e: StrategyEvidenceRecord| strs::trim(e.actor@)),
    );
    assert(strs::head(packet.evidence_records@, n as nat) =~= packet.evidence_records@);
    push_all_unlike(&mut out, &text::filled(&actors));
    out
}

/// A line of the evidence, cut to 180 characters.
pub open spec fn short_evidence(e: StrategyEvidenceRecord) -> Seq<char> {
    strs::first(labels::evidence_line(e), 180)
}

fn short_evidence_line(e: &StrategyEvidenceRecord) -> (r: String)
    ensures
        r@ == short_evidence(*e),
{
    strategy_trim(&build_strategy_record_line_for_prompt(e), 180)
}

/// The report that a record amounts to; none where its main sections are blank.
pub open spec fn report_of(packet: StrategyEvidencePacket, message: Seq<char>, draft: Seq<char>) -> Option<
    Report,
> {
    let summary = section_body(draft, "[상황 요약]"@);
    let timeline = section_body(draft, "[배경 흐름]"@);
    let issues = section_body(draft, "[핵심 포인트]"@);
    let evidence = section_body(draft, "[관련 자료]"@);
    let response = section_body(draft, "[내 대응 메모]"@);
    let notes = section_body(draft, "[추가 메모]"@);
    if strs::trim(summary).len() == 0 && strs::trim(timeline).len() == 0 && strs::trim(issues).len()
        == 0 && strs::trim(evidence).len() == 0 {
        None
    } else {
        let people = record_answer::guessed_people(message);
        let actors = if people.len() == 0 {
            known_people(packet)
        } else {
            people
        };
        let found = items_of(evidence, 6);
        let asked = items_of(notes, 4);
        Some(
            Report {
                summary: if strs::trim(summary).len() == 0 {
                    strs::first(sanitize::sanitized(message), 280)
                } else {
                    strs::first(summary, 600)
                },
                actors: strs::head(actors, 6),
                timeline: items_of(timeline, 5),
                issues: items_of(issues, 5),
                evidence: if found.len() == 0 {
                    strs::head(packet.evidence_records@, 4).map_values(
                        |e: StrategyEvidenceRecord| short_evidence(e),
                    )
                } else {
                    found
                },
                questions: if asked.len() == 0 {
                    items_of(response, 3)
                } else {
                    with_all_unlike(asked, items_of(response, 3))
                },
            },
        )
    }
}

/// The view of a report, if there is one.
pub open spec fn opt_report(r: Option<StrategyStructuredReportDraft>) -> Option<Report> {
    match r {
        Some(d) => Some(d@),
        None => None,
    }
}

/// The report that a record amounts to; none where its main sections are blank.
pub fn strategy_build_structured_report_from_record_sections(
    evidence_packet: &StrategyEvidencePacket,
    message: &str,
    draft_answer: &str,
) -> (r: Option<StrategyStructuredReportDraft>)
    ensures
        opt_report(r) == report_of(*evidence_packet, message@, draft_answer@),
{
    let summary = strategy_extract_record_section_body(draft_answer, "[상황 요약]");
    let timeline = strategy_extract_record_section_body(draft_answer, "[배경 흐름]");
    let issues = strategy_extract_record_section_body(draft_answer, "[핵심 포인트]");
    let evidence = strategy_extract_record_section_body(draft_answer, "[관련 자료]");
    let response = strategy_extract_record_section_body(draft_answer, "[내 대응 메모]");
    let notes = strategy_extract_record_section_body(draft_answer, "[추가 메모]");
    if text::is_blank(&summary) && text::is_blank(&timeline) && text::is_blank(&issues)
        && text::is_blank(&evidence) {
        return None;
    }
    let mut actors = strategy_guess_record_people(message);
    assert(strs::views(actors@).len() == actors@.len());
    if actors.len() == 0 {
        actors = people_of_evidence(evidence_packet);
    }
    let mut found = strategy_split_renderer_items(&evidence, 6);
    assert(strs::views(found@).len() == found@.len());
    if found.len() == 0 {
        found = text::map_first(
            &evidence_packet.evidence_records,
            4,
            short_evidence_line,
            Ghost(|e: StrategyEvidenceRecord| short_evidence(e)),
        );
    }
    let mut asked = strategy_split_renderer_items(&notes, 4);
    let responses = strategy_split_renderer_items(&response, 3);
    assert(strs::views(asked@).len() == asked@.len());
    if asked.len() == 0 {
        asked = responses;
    } else {
        push_all_unlike(&mut asked, &responses);
    }
    Some(
        StrategyStructuredReportDraft {
            summary: if text::is_blank(&summary) {
                strategy_trim(&strategy_sanitize_text(message), 280)
            } else {
                strategy_trim(&summary, 600)
            },
            actors: text::head(&actors, 6),
            timeline: strategy_split_renderer_items(&timeline, 5),
            issues: strategy_split_renderer_items(&issues, 5),
            evidence: found,
            recommended_questions: asked,
        },
    )
}

/// A message while its notes are read: those found, and the open one.
#[verifier::ext_equal]
pub struct Noting {
    pub notes: Seq<Seq<char>>,
    pub open: Option<Seq<char>>,
}

/// The notes of a message: what stands between two hash signs, cleaned, where it is not blank.
pub open spec fn noted(s: Seq<char>) -> Noting
    decreases s.len(),
{
    if s.len() == 0 {
        Noting { notes: Seq::empty(), open: None }
    } else {
        let head = noted(s.drop_last());
        match head.open {
            Some(note) => if s.last() == '#' {
                let clean = sanitize::sanitized(strs::trim(note));
                Noting {
                    notes: if clean.len() > 0 {
                        head.notes.push(clean)
                    } else {
                        head.notes
                    },
                    open: None,
                }
            } else {
                Noting { open: Some(note.push(s.last())), ..head }
            },
            None => if s.last() == '#' {
                Noting { open: Some(Seq::empty()), ..head }
            } else {
                head
            },
        }
    }
}

/// The notes of a message: what stands between two hash signs.
pub fn strategy_extract_action_notes_from_message(message: &str) -> (r: Vec<String>)
    ensures
        strs::views(r@) == noted(message@).notes,
{
    let v = text::chars_of(message);
    let mut notes = text::no_texts();
    let mut note = String::new();
    let mut capturing = false;
    let mut i: usize = 0;
    assert(v@.take(0) =~= Seq::empty());
    assert(note@ =~= Seq::empty());
    while i < v.len()
        invariant
            i <= v@.len(),
            noted(v@.take(i as int)) == (Noting {
                notes: strs::views(notes@),
                open: if capturing {
                    Some(note@)
                } else {
                    None
                },
            }),
            !capturing ==> note@ == Seq::<char>::empty(),
        decreases v@.len() - i,
    {
        assert(v@.take(i + 1).drop_last() =~= v@.take(i as int));
        let c = v[i];
        if c == '#' {
            if capturing {
                let clean = strategy_sanitize_text(&text::trim(&note));
                if clean.as_str().unicode_len() > 0 {
                    text::push(&mut notes, clean);
                }
                note = String::new();
                assert(note@ =~= Seq::empty());
            }
            capturing = !capturing;
        } else if capturing {
            note.push(c);
        }
        i += 1;
    }
    assert(v@.take(i as int) =~= v@);
    notes
}

/// The items of a list, trimmed and cleaned, without empty ones.
pub open spec fn clean_items(list: Seq<Seq<char>>) -> Seq<Seq<char>> {
    strs::filled(list.map_values(|s: Seq<char>| sanitize::sanitized(strs::trim(s))))
}

fn clean_item(s: &str) -> (r: String)
    ensures
        r@ == sanitize::sanitized(strs::trim(s@)),
{
    strategy_sanitize_text(&text::trim(s))
}

fn cleaned_items(list: &Vec<String>) -> (r: Vec<String>)
    ensures
        strs::views(r@) == clean_items(strs::views(list@)),
{
    text::filled(
        &text::map_texts(
            list,
            clean_item,
            Ghost(|s: Seq<char>| sanitize::sanitized(strs::trim(s))),
        ),
    )
}

/// The text of a section of a record, or something else where it is blank.
pub open spec fn body_or(draft: Seq<char>, heading: Seq<char>, other: Seq<char>) -> Seq<char> {
    let body = section_body(draft, heading);
    if strs::trim(body).len() == 0 {
        other
    } else {
        body
    }
}

fn section_or(draft: &str, heading: &str, other: &str) -> (r: String)
    ensures
        r@ == body_or(draft@, heading@, other@),
{
    let body = strategy_extract_record_section_body(draft, heading);
    if text::is_blank(&body) {
        other.to_owned()
    } else {
        body
    }
}

/// The items of a list one below the other, or something else where there is none.
pub open spec fn lines_or(list: Seq<Seq<char>>, other: Seq<char>) -> Seq<char> {
    if list.len() == 0 {
        other
    } else {
        strs::join(list, "\n"@)
    }
}

fn joined_or(list: &Vec<String>, other: &str) -> (r: String)
    ensures
        r@ == lines_or(strs::views(list@), other@),
{
    assert(strs::views(list@).len() == list@.len());
    if list.len() == 0 {
        other.to_owned()
    } else {
        text::join(list, "\n")
    }
}

/// A line with a dash before it.
pub open spec fn itemized(s: Seq<char>) -> Seq<char> {
    "- "@ + s
}

/// A line with a dash before it.
pub fn itemized_line(s: &str) -> (r: String)
    ensures
        r@ == itemized(s@),
{
    let mut out = "- ".to_owned();
    out.append(s);
    out
}

/// The person at a place in the message, else in the report.
pub open spec fn person_at(people: Seq<Seq<char>>, actors: Seq<Seq<char>>, k: int, none: Seq<char>) -> Seq<
    char,
> {
    if k < people.len() {
        people[k]
    } else if k < actors.len() {
        actors[k]
    } else {
        none
    }
}

fn person(people: &Vec<String>, actors: &Vec<String>, k: usize, none: &str) -> (r: String)
    ensures
        r@ == person_at(strs::views(people@), strs::views(actors@), k as int, none@),
{
    assert(strs::views(people@).len() == people@.len());
    assert(strs::views(actors@).len() == actors@.len());
    if k < people.len() {
        people[k].clone()
    } else if k < actors.len() {
        actors[k].clone()
    } else {
        none.to_owned()
    }
}

/// The summary of a report, or that of the draft.
pub open spec fn summary_text(summary: Seq<char>, draft: Seq<char>) -> Seq<char> {
    strs::first(
        strs::trim(
            if strs::trim(summary).len() == 0 {
                section_body(draft, "[상황 요약]"@)
            } else {
                sanitize::sanitized(strs::trim(summary))
            },
        ),
        1200,
    )
}

/// What stands for material where neither the report nor the draft names any.
pub open spec fn no_material(records: nat) -> Seq<char> {
    if records == 0 {
        "현재 연결된 참고 기록은 없으며, 당사자 진술과 주변 관찰 자료를 추가 확보할 필요가 있다."@
    } else {
        ("현재 연결된 참고 기록 "@ + strs::decimal(records) + "건을 우선 근거로 삼고, 필요 시 추가 메모와 주변 관찰 자료를 확보한다."@)
    }
}

/// The record that a report is written out as. What the report leaves open is taken from the
/// draft.
pub open spec fn rendered_record(
    report: Report,
    records: nat,
    message: Seq<char>,
    draft: Seq<char>,
    now: Seq<char>,
) -> Seq<char> {
    let people = record_answer::guessed_people(message);
    let notes = noted(message).notes;
    let questions = clean_items(report.questions);
    let summary = summary_text(report.summary, draft);
    ("[기록 기본정보]\n- 기록 시각: "@ + now + "\n- 주체: "@ + person_at(people, report.actors, 0, "당사자 미상"@) + "\n- 상대방: "@ + person_at(people, report.actors, 1, "상대방 미상"@) + "\n- 위치/채널: "@ + record_answer::place_hint(message) + "\n- 자료 형태: 직접 입력\n- 민감도: 보통\n\n[상황 요약]\n"@ + (if strs::trim(summary).len() == 0 { "상황 요약이 비어 있어 추가 확인이 필요하다."@ } else { summary }) + "\n\n[배경 흐름]\n"@ + lines_or(clean_items(report.timeline), body_or(draft, "[배경 흐름]"@, "사건 직전 맥락과 선행 갈등 여부는 추가 확인이 필요하다."@)) + "\n\n[핵심 포인트]\n"@ + lines_or(clean_items(report.issues), body_or(draft, "[핵심 포인트]"@, "즉시 확인할 쟁점과 위험 신호를 추가로 정리할 필요가 있다."@)) + "\n\n[관련 자료]\n"@ + lines_or(clean_items(report.evidence), body_or(draft, "[관련 자료]"@, no_material(records))) + "\n\n[내 대응 메모]\n"@ + (if notes.len() == 0 { body_or(draft, "[내 대응 메모]"@, "직접 입력된 대응 메모는 없으며, 저장 전 실제 중재·분리·안내 내용을 보강할 필요가 있다."@) } else { strs::join(notes, " / "@) }) + "\n\n[추가 메모]\n"@ + lines_or(questions.map_values(|q: Seq<char>| itemized(q)), body_or(draft, "[추가 메모]"@, "추가 확인 질문이 없으면 현재 상태와 후속 관찰 필요 사항을 짧게 이어서 보완한다."@)))
}

/// Writes a report out as a record. With it come the tokens that the template put in, and those
/// of the report, which is given in its serialized form. `now` is the time of the record.
pub fn strategy_render_record_structured_answer(
    structured: &StrategyStructuredReportDraft,
    serialized: &str,
    evidence_packet: &StrategyEvidencePacket,
    message: &str,
    draft_answer: &str,
    now: &str,
) -> (r: (String, usize, usize))
    ensures
        r.0@ == rendered_record(
            structured@,
            evidence_packet.evidence_records@.len(),
            message@,
            draft_answer@,
            now@,
        ),
        r.1 == perf::output_tokens(
            strs::join(
                draft_provider::template_fragments(HybridStage::RecordReview.name()),
                " "@,
            ),
        ),
        r.2 == perf::output_tokens(serialized@),
{
    let people = strategy_guess_record_people(message);
    let actor = person(&people, &structured.actors, 0, "당사자 미상");
    let counterpart = person(&people, &structured.actors, 1, "상대방 미상");
    let place = strategy_guess_record_place_hint(message);
    let notes = strategy_extract_action_notes_from_message(message);
    let questions = cleaned_items(&structured.recommended_questions);
    let evidence_lines = cleaned_items(&structured.evidence);
    let issue_lines = cleaned_items(&structured.issues);
    let timeline_lines = cleaned_items(&structured.timeline);
    let raw_summary = if text::is_blank(&structured.summary) {
        strategy_extract_record_section_body(draft_answer, "[상황 요약]")
    } else {
        strategy_sanitize_text(&text::trim(&structured.summary))
    };
    let summary = strategy_trim(&text::trim(&raw_summary), 1200);
    let shown_summary = if text::is_blank(&summary) {
        "상황 요약이 비어 있어 추가 확인이 필요하다.".to_owned()
    } else {
        summary
    };
    let timeline = joined_or(
        &timeline_lines,
        &section_or(
            draft_answer,
            "[배경 흐름]",
            "사건 직전 맥락과 선행 갈등 여부는 추가 확인이 필요하다.",
        ),
    );
    let issues = joined_or(
        &issue_lines,
        &section_or(
            draft_answer,
            "[핵심 포인트]",
            "즉시 확인할 쟁점과 위험 신호를 추가로 정리할 필요가 있다.",
        ),
    );
    let records: usize = evidence_packet.evidence_records.len();
    let missing = if records == 0 {
        "현재 연결된 참고 기록은 없으며, 당사자 진술과 주변 관찰 자료를 추가 확보할 필요가 있다.".to_owned()
    } else {
        let mut line = text::copy("현재 연결된 참고 기록 ");
        line.append(&text::decimal(records as u64));
        line.append("건을 우선 근거로 삼고, 필요 시 추가 메모와 주변 관찰 자료를 확보한다.");
        line
    };
    let evidence = joined_or(&evidence_lines, &section_or(draft_answer, "[관련 자료]", &missing));
    assert(strs::views(notes@).len() == notes@.len());
    let response = if notes.len() == 0 {
        section_or(
            draft_answer,
            "[내 대응 메모]",
            "직접 입력된 대응 메모는 없으며, 저장 전 실제 중재·분리·안내 내용을 보강할 필요가 있다.",
        )
    } else {
        text::join(&notes, " / ")
    };
    let itemized = text::map_texts(&questions, itemized_line, Ghost(|q: Seq<char>| itemized(q)));
    let further = joined_or(
        &itemized,
        &section_or(
            draft_answer,
            "[추가 메모]",
            "추가 확인 질문이 없으면 현재 상태와 후속 관찰 필요 사항을 짧게 이어서 보완한다.",
        ),
    );
    let mut out = text::copy("[기록 기본정보]\n- 기록 시각: ");
    out.append(now);
    out.append("\n- 주체: ");
    out.append(&actor);
    out.append("\n- 상대방: ");
    out.append(&counterpart);
    out.append("\n- 위치/채널: ");
    out.append(&place);
    out.append("\n- 자료 형태: 직접 입력\n- 민감도: 보통\n\n[상황 요약]\n");
    out.append(&shown_summary);
    out.append("\n\n[배경 흐름]\n");
    out.append(&timeline);
    out.append("\n\n[핵심 포인트]\n");
    out.append(&issues);
    out.append("\n\n[관련 자료]\n");
    out.append(&evidence);
    out.append("\n\n[내 대응 메모]\n");
    out.append(&response);
    out.append("\n\n[추가 메모]\n");
    out.append(&further);
    assert(strs::ascii_lower(strs::trim("template"@)) == "template"@) by {
        lemma_template_is_plain();
    }
    let proposal = strategy_build_draft_proposal(
        HybridStage::RecordReview,
        "template",
        STRATEGY_MODEL_DEFAULT_ID,
        true,
        None,
        16,
    );
    let inserted: usize = strategy_approx_output_tokens(
        &text::join(&proposal.rendered_fragments, " "),
    );
    let generated: usize = strategy_approx_output_tokens(serialized);
    (out, inserted, generated)
}

proof fn lemma_template_is_plain()
    ensures
        strs::ascii_lower(strs::trim("template"@)) == "template"@,
{
    reveal_strlit("template");
    text::lemma_trim_keeps("template"@);
    assert(strs::ascii_lower("template"@) =~= "template"@);
}

} // verus!
