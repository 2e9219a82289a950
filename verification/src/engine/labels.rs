//! How people, places and cases are named in prompts, and what is searched for.

use crate::engine::packet::StrategyEvidenceRecord;
use crate::engine::rank;
use crate::engine::rank::record_main_actor_names;
use crate::engine::records::{ActorRef, CaseItem, RecordItem};
use crate::engine::sanitize::strategy_trim;
use crate::strs;
use crate::text;
use vstd::prelude::*;

verus! {

/// The kind and the name of a person.
pub open spec fn actor_short(a: ActorRef) -> Seq<char> {
    let kind = strs::trim(a.kind@);
    let name = strs::trim(a.name@);
    if kind.len() == 0 {
        name
    } else if name.len() == 0 {
        kind
    } else {
        (kind + " "@ + name)
    }
}

/// The kind and the name of a person.
pub fn format_actor_short(actor: &ActorRef) -> (r: String)
    ensures
        r@ == actor_short(*actor),
{
    let kind = text::trim(&actor.kind);
    let name = text::trim(&actor.name);
    if kind.unicode_len() == 0 {
        return name;
    }
    if name.unicode_len() == 0 {
        return kind;
    }
    let mut out = text::copy(&kind);
    out.append(" ");
    out.append(&name);
    out
}

/// A choice, or what was written instead of one, or a word for neither.
pub open spec fn choice_label(choice: Seq<char>, other: Seq<char>, unknown: Seq<char>) -> Seq<char> {
    let c = strs::trim(choice);
    let o = strs::trim(other);
    if c.len() == 0 || c == "기타"@ {
        if o.len() == 0 {
            unknown
        } else {
            o
        }
    } else {
        c
    }
}

fn label_of(choice: &str, other: &str, unknown: &str) -> (r: String)
    ensures
        r@ == choice_label(choice@, other@, unknown@),
{
    let c = text::trim(choice);
    let o = text::trim(other);
    if c.unicode_len() == 0 || text::same(&c, "기타") {
        if o.unicode_len() == 0 {
            unknown.to_owned()
        } else {
            o
        }
    } else {
        c
    }
}

/// What a record was made of.
pub open spec fn store_label(r: RecordItem) -> Seq<char> {
    choice_label(r.store_type@, r.store_other@, "기록유형 미상"@)
}

/// What a record was made of.
pub fn strategy_store_label(record: &RecordItem) -> (r: String)
    ensures
        r@ == store_label(*record),
{
    label_of(&record.store_type, &record.store_other, "기록유형 미상")
}

/// Where a record took place.
pub open spec fn place_label(r: RecordItem) -> Seq<char> {
    choice_label(r.place@, r.place_other@, "장소 미상"@)
}

/// Where a record took place.
pub fn strategy_place_label(record: &RecordItem) -> (r: String)
    ensures
        r@ == place_label(*record),
{
    label_of(&record.place, &record.place_other, "장소 미상")
}

/// The first main person of a record.
pub open spec fn main_actor_label(r: RecordItem) -> Seq<char> {
    let names = rank::main_names(r);
    if names.len() > 0 && strs::trim(names[0]).len() > 0 {
        names[0]
    } else if strs::trim(actor_short(r.actor)).len() > 0 {
        actor_short(r.actor)
    } else {
        "당사자 미상"@
    }
}

/// The first main person of a record.
pub fn strategy_main_actor_label(record: &RecordItem) -> (r: String)
    ensures
        r@ == main_actor_label(*record),
{
    let names = record_main_actor_names(record);
    assert(strs::views(names@).len() == names@.len());
    if names.len() > 0 && !text::is_blank(&names[0]) {
        return names[0].clone();
    }
    let label = format_actor_short(&record.actor);
    if text::is_blank(&label) {
        "당사자 미상".to_owned()
    } else {
        label
    }
}

/// The first `n` people.
pub open spec fn actors_short(actors: Seq<ActorRef>, n: nat) -> Seq<Seq<char>> {
    strs::head(actors, n).map_values(|a: ActorRef| actor_short(a))
}

/// The first `n` people.
pub fn first_actors(actors: &Vec<ActorRef>, n: usize) -> (r: Vec<String>)
    ensures
        strs::views(r@) == actors_short(actors@, n as nat),
{
    text::map_first(actors, n, format_actor_short, Ghost(|a: ActorRef| actor_short(a)))
}

/// The lines that describe a case.
pub open spec fn case_lines(c: CaseItem) -> Seq<Seq<char>> {
    let title = strs::trim(c.title@);
    let actors = strs::join(actors_short(c.actors@, 4), ", "@);
    let query = strs::first(strs::trim(c.query@), 280);
    let a = seq![
        ("- 사건 제목: "@ + (if title.len() == 0 { "제목 없음"@ } else { title })),
    ];
    let b = if actors.len() > 0 {
        a.push(("- 핵심 인물: "@ + actors))
    } else {
        a
    };
    let d = if query.len() > 0 {
        b.push(("- 사건 설명: "@ + query))
    } else {
        b
    };
    if strs::trim(c.time_from@).len() > 0 || strs::trim(c.time_to@).len() > 0 {
        d.push(("- 기간 필터: "@ + strs::trim(c.time_from@) + " ~ "@ + strs::trim(c.time_to@)))
    } else {
        d
    }
}

/// The description of a case, or a note that there is none.
pub open spec fn case_context(c: Option<CaseItem>) -> Seq<char> {
    match c {
        Some(item) => strs::join(case_lines(item), "\n"@),
        None => "- 사건 연결 없이 증거만으로 분석 중"@,
    }
}

/// What an optional reference points to.
pub open spec fn deref_case(c: Option<&CaseItem>) -> Option<CaseItem> {
    match c {
        Some(item) => Some(*item),
        None => None,
    }
}

/// The description of a case, or a note that there is none.
pub fn summarize_case_context(case_item: Option<&CaseItem>) -> (r: String)
    ensures
        r@ == case_context(deref_case(case_item)),
{
    match case_item {
        None => "- 사건 연결 없이 증거만으로 분석 중".to_owned(),
        Some(c) => {
            let title = text::trim(&c.title);
            let actors = text::join(&first_actors(&c.actors, 4), ", ");
            let query = strategy_trim(&text::trim(&c.query), 280);
            let mut head = "- 사건 제목: ".to_owned();
            if title.unicode_len() == 0 {
                head.append("제목 없음");
            } else {
                head.append(&title);
            }
            let mut lines = text::no_texts();
            text::push(&mut lines, head);
            assert(strs::views(lines@) =~= seq![head@]);
            if actors.unicode_len() > 0 {
                let mut line = text::copy("- 핵심 인물: ");
                line.append(&actors);
                text::push(&mut lines, line);
            }
            if query.unicode_len() > 0 {
                let mut line = text::copy("- 사건 설명: ");
                line.append(&query);
                text::push(&mut lines, line);
            }
            if !text::is_blank(&c.time_from) || !text::is_blank(&c.time_to) {
                let mut line = text::copy("- 기간 필터: ");
                line.append(&text::trim(&c.time_from));
                line.append(" ~ ");
                line.append(&text::trim(&c.time_to));
                text::push(&mut lines, line);
            }
            text::join(&lines, "\n")
        },
    }
}

/// What is searched for: the question, the case and its people, and the note.
pub open spec fn retrieval_parts(
    c: Option<CaseItem>,
    message: Seq<char>,
    note: Option<Seq<char>>,
) -> Seq<Seq<char>> {
    let question = strs::trim(message);
    let a = if question.len() > 0 {
        seq![question]
    } else {
        Seq::empty()
    };
    let b = match c {
        Some(item) => {
            let title = strs::trim(item.title@);
            let query = strs::trim(item.query@);
            let actors = strs::join(strs::nonblank(actors_short(item.actors@, 4)), " "@);
            let x = if title.len() > 0 {
                a.push(title)
            } else {
                a
            };
            let y = if query.len() > 0 {
                x.push(query)
            } else {
                x
            };
            if actors.len() > 0 {
                y.push(actors)
            } else {
                y
            }
        },
        None => a,
    };
    let n = strs::first(
        strs::trim(
            match note {
                Some(s) => s,
                None => ""@,
            },
        ),
        180,
    );
    if n.len() > 0 && n != "없음"@ {
        b.push(n)
    } else {
        b
    }
}

/// What is searched for, as one text.
pub open spec fn retrieval_query(
    c: Option<CaseItem>,
    message: Seq<char>,
    note: Option<Seq<char>>,
) -> Seq<char> {
    strs::first(strs::join(retrieval_parts(c, message, note), " "@), 340)
}

/// What is searched for, as one text.
pub fn build_strategy_retrieval_query(
    case_item: Option<&CaseItem>,
    message: &str,
    strategy_note: Option<&str>,
) -> (r: String)
    ensures
        r@ == retrieval_query(deref_case(case_item), message@, strs::opt_str(strategy_note)),
{
    let mut parts = text::no_texts();
    let question = text::trim(message);
    if question.unicode_len() > 0 {
        text::push(&mut parts, question);
        assert(strs::views(parts@) =~= seq![question@]);
    }
    if let Some(c) = case_item {
        let title = text::trim(&c.title);
        if title.unicode_len() > 0 {
            text::push(&mut parts, title);
        }
        let query = text::trim(&c.query);
        if query.unicode_len() > 0 {
            text::push(&mut parts, query);
        }
        let actors = text::join(&text::nonblank(&first_actors(&c.actors, 4)), " ");
        if actors.unicode_len() > 0 {
            text::push(&mut parts, actors);
        }
    }
    let raw: &str = match strategy_note {
        Some(s) => s,
        None => "",
    };
    let note = strategy_trim(&text::trim(raw), 180);
    if note.unicode_len() > 0 && !text::same(&note, "없음") {
        text::push(&mut parts, note);
    }
    strategy_trim(&text::join(&parts, " "), 340)
}

/// The people of a list, copied.
pub fn copy_actors(actors: &Vec<ActorRef>) -> (r: Vec<ActorRef>)
    ensures
        r@ == actors@,
{
    let mut out: Vec<ActorRef> = Vec::new();
    let mut i: usize = 0;
    while i < actors.len()
        invariant
            i <= actors@.len(),
            out@ =~= actors@.take(i as int),
        decreases actors@.len() - i,
    {
        out.push(ActorRef { kind: actors[i].kind.clone(), name: actors[i].name.clone() });
        i += 1;
    }
    assert(out@ =~= actors@);
    out
}

/// The case by which records are searched: the one at hand, or an empty one, with the search
/// text and the number of records that are wanted.
pub fn build_strategy_retrieval_case(
    case_item: Option<&CaseItem>,
    retrieval_query: &str,
    max_results: u32,
) -> (r: CaseItem)
    ensures
        r.query@ == retrieval_query@,
        r.max_results == Some(max_results),
        match case_item {
            Some(c) => {
                &&& r.id@ == c.id@
                &&& r.title@ == c.title@
                &&& r.time_from@ == c.time_from@
                &&& r.time_to@ == c.time_to@
                &&& r.actors@ == c.actors@
            },
            None => {
                &&& r.id@ == "strategy"@
                &&& r.title@ == "직접 분석"@
                &&& r.time_from@.len() == 0
                &&& r.time_to@.len() == 0
                &&& r.actors@.len() == 0
            },
        },
{
    match case_item {
        Some(c) => CaseItem {
            id: c.id.clone(),
            title: c.title.clone(),
            query: retrieval_query.to_owned(),
            time_from: c.time_from.clone(),
            time_to: c.time_to.clone(),
            max_results: Some(max_results),
            actors: copy_actors(&c.actors),
        },
        None => CaseItem {
            id: "strategy".to_owned(),
            title: "직접 분석".to_owned(),
            query: retrieval_query.to_owned(),
            time_from: String::new(),
            time_to: String::new(),
            max_results: Some(max_results),
            actors: Vec::new(),
        },
    }
}

/// The parts of a record's summary that are shown with it.
pub open spec fn record_extras(r: RecordItem) -> Seq<Seq<char>> {
    match r.summary_parts {
        Some(p) => {
            let issues = strs::trim(p.issues@);
            let evidence = strs::trim(p.evidence_list@);
            let actions = strs::trim(p.teacher_actions@);
            let a = if issues.len() > 0 {
                seq![("핵심포인트: "@ + strs::first(issues, 90))]
            } else {
                Seq::empty()
            };
            let b = if evidence.len() > 0 {
                a.push(("자료: "@ + strs::first(evidence, 72)))
            } else {
                a
            };
            if actions.len() > 0 {
                b.push(("내대응: "@ + strs::first(actions, 72)))
            } else {
                b
            }
        },
        None => Seq::empty(),
    }
}

/// The parts of a record's summary that are shown with it, as one text.
pub fn summarize_strategy_record_parts(record: &RecordItem) -> (r: String)
    ensures
        r@ == strs::join(record_extras(*record), " | "@),
{
    let mut extras = text::no_texts();
    if let Some(p) = &record.summary_parts {
        let issues = text::trim(&p.issues);
        let evidence = text::trim(&p.evidence_list);
        let actions = text::trim(&p.teacher_actions);
        if issues.unicode_len() > 0 {
            let mut line = text::copy("핵심포인트: ");
            line.append(&strategy_trim(&issues, 90));
            text::push(&mut extras, line);
            assert(strs::views(extras@) =~= seq![line@]);
        }
        if evidence.unicode_len() > 0 {
            let mut line = text::copy("자료: ");
            line.append(&strategy_trim(&evidence, 72));
            text::push(&mut extras, line);
        }
        if actions.unicode_len() > 0 {
            let mut line = text::copy("내대응: ");
            line.append(&strategy_trim(&actions, 72));
            text::push(&mut extras, line);
        }
    }
    text::join(&extras, " | ")
}

/// A trimmed text, cut to `n` characters.
pub open spec fn brief(s: Seq<char>, n: nat) -> Seq<char> {
    strs::first(strs::trim(s), n)
}

/// A trimmed text, cut to `n` characters.
pub fn brief_text(s: &str, n: usize) -> (r: String)
    ensures
        r@ == brief(s@, n as nat),
{
    strategy_trim(&text::trim(s), n)
}

/// The line of a record in a prompt.
pub open spec fn evidence_line(e: StrategyEvidenceRecord) -> Seq<char> {
    let line =
        ("["@ + e.ref_id@ + "] "@ + brief(e.ts@, 32) + " | "@ + brief(e.actor@, 28) + " | "@ + brief(e.store@, 18) + " | "@ + brief(e.place@, 18) + " | "@ + brief(e.summary@, 180));
    let with_risk = if strs::trim(e.risk_label@).len() > 0 {
        line  + " | 위험: "@ + brief(e.risk_label@, 18)
    } else {
        line
    };
    if e.reasons@.len() > 0 {
        with_risk  + " | 선택 이유: "@ + strs::first(strs::join(strs::views(e.reasons@), ", "@), 96)
    } else {
        with_risk
    }
}

/// The line of a record in a prompt.
pub fn build_strategy_record_line_for_prompt(evidence: &StrategyEvidenceRecord) -> (r: String)
    ensures
        r@ == evidence_line(*evidence),
{
    let mut line = text::copy("[");
    line.append(&evidence.ref_id);
    line.append("] ");
    line.append(&brief_text(&evidence.ts, 32));
    line.append(" | ");
    line.append(&brief_text(&evidence.actor, 28));
    line.append(" | ");
    line.append(&brief_text(&evidence.store, 18));
    line.append(" | ");
    line.append(&brief_text(&evidence.place, 18));
    line.append(" | ");
    line.append(&brief_text(&evidence.summary, 180));
    if !text::is_blank(&evidence.risk_label) {
        line.append(" | 위험: ");
        line.append(&brief_text(&evidence.risk_label, 18));
    }
    if evidence.reasons.len() > 0 {
        line.append(" | 선택 이유: ");
        line.append(&strategy_trim(&text::join(&evidence.reasons, ", "), 96));
    }
    line
}

} // verus!
