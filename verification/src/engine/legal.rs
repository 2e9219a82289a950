//! The provisions that belong to a case: what a text and a provision have in common, and which
//! provisions are shown. The scores are weighted sums that the caller computes of the counts
//! found here; the order goes by integers that rank them.

use crate::engine::labels;
use crate::engine::labels::{
    first_actors, format_actor_short, strategy_main_actor_label, strategy_place_label,
};
use crate::engine::normalize;
use crate::engine::normalize::{norm, tokenize};
use crate::engine::packet::{LegalRef, StrategyLegalReference};
use crate::engine::records::{ActorRef, CaseItem, RecordItem};
use crate::engine::sanitize::strategy_trim;
use crate::sorting;
use crate::sorting::{stable_sort, Ordered};
use crate::strs;
use crate::text;
use vstd::prelude::*;

verus! {

/// A law.
#[derive(Debug, Clone)]
pub struct StrategyLegalLawRecord {
    pub record_id: String,
    pub official_name: String,
    pub short_name: String,
    pub current_status_label: String,
    pub source_url: String,
    pub school_relevance: String,
    pub aliases: Vec<String>,
    pub topical_tags: Vec<String>,
}

/// A piece of a law.
#[derive(Debug, Clone)]
pub struct StrategyLegalFlatChunk {
    pub record_id: String,
    pub official_name: String,
    pub short_name: String,
    pub current_status_label: String,
    pub source_url: String,
    pub school_relevance: String,
    pub topical_tags: Vec<String>,
    pub aliases: Vec<String>,
    pub chunk_type: String,
    pub chunk_id: String,
    pub article_no: String,
    pub article_title: String,
    pub legal_point: String,
    pub teacher_use_case: String,
    pub keywords: Vec<String>,
    pub retrieval_text: String,
}

/// A concept and the terms that go with it.
#[derive(Debug, Clone)]
pub struct LegalConcept {
    pub concept: String,
    pub expansions: Vec<String>,
}

/// The laws that are known.
#[derive(Debug, Clone)]
pub struct LegalCorpus {
    pub laws: Vec<StrategyLegalLawRecord>,
    pub chunks: Vec<StrategyLegalFlatChunk>,
    pub concepts: Vec<LegalConcept>,
}

/// Terms, and their normal forms.
#[verifier::ext_equal]
pub struct Terms {
    pub terms: Seq<Seq<char>>,
    pub seen: Seq<Seq<char>>,
}

/// The terms with one more, where it has two characters and its normal form is new.
pub open spec fn with_term(t: Terms, raw: Seq<char>) -> Terms {
    let term = strs::trim(raw);
    let key = normalize::normal(term);
    if term.len() == 0 || key.len() < 2 || t.seen.contains(key) {
        t
    } else {
        Terms { terms: t.terms.push(term), seen: t.seen.push(key) }
    }
}

/// The terms with those of a list.
pub open spec fn with_terms(t: Terms, list: Seq<Seq<char>>) -> Terms
    decreases list.len(),
{
    if list.len() == 0 {
        t
    } else {
        with_term(with_terms(t, list.drop_last()), list.last())
    }
}

/// No terms.
pub open spec fn no_terms() -> Terms {
    Terms { terms: Seq::empty(), seen: Seq::empty() }
}

/// Adds a term, where it has two characters and its normal form is new.
pub fn strategy_push_unique_term(out: &mut Vec<String>, seen: &mut Vec<String>, raw: &str)
    ensures
        (Terms { terms: strs::views(final(out)@), seen: strs::views(final(seen)@) }) == with_term(
            (Terms { terms: strs::views(old(out)@), seen: strs::views(old(seen)@) }),
            raw@,
        ),
{
    let term = text::trim(raw);
    if term.unicode_len() == 0 {
        return ;
    }
    let key = norm(&term);
    if key.unicode_len() < 2 || text::listed(seen, &key) {
        return ;
    }
    text::push(seen, key);
    text::push(out, term);
}

fn push_terms(out: &mut Vec<String>, seen: &mut Vec<String>, list: &Vec<String>)
    ensures
        (Terms { terms: strs::views(final(out)@), seen: strs::views(final(seen)@) }) == with_terms(
            (Terms { terms: strs::views(old(out)@), seen: strs::views(old(seen)@) }),
            strs::views(list@),
        ),
{
    let ghost start = Terms { terms: strs::views(out@), seen: strs::views(seen@) };
    let ghost all = strs::views(list@);
    let mut i: usize = 0;
    assert(all.take(0) =~= Seq::empty());
    while i < list.len()
        invariant
            i <= list@.len(),
            all == strs::views(list@),
            (Terms { terms: strs::views(out@), seen: strs::views(seen@) }) == with_terms(
                start,
                all.take(i as int),
            ),
        decreases list@.len() - i,
    {
        assert(all.take(i + 1).drop_last() =~= all.take(i as int));
        strategy_push_unique_term(out, seen, &list[i]);
        i += 1;
    }
    assert(all.take(i as int) =~= all);
}

/// The reasons with one more, where it is not blank and new.
pub open spec fn with_reason(reasons: Seq<Seq<char>>, reason: Seq<char>) -> Seq<Seq<char>> {
    if strs::trim(reason).len() == 0 {
        reasons
    } else {
        strs::with_new(reasons, strs::trim(reason))
    }
}

/// Adds a reason, where it is not blank and new.
pub fn strategy_push_unique_reason(out: &mut Vec<String>, reason: &str)
    ensures
        strs::views(final(out)@) == with_reason(strs::views(old(out)@), reason@),
{
    let trimmed = text::trim(reason);
    if trimmed.unicode_len() > 0 {
        text::push_new(out, trimmed);
    }
}

/// The texts of a record that are looked at.
pub open spec fn record_source(r: RecordItem) -> Seq<Seq<char>> {
    let a = if strs::trim(r.summary@).len() > 0 {
        seq![strs::trim(r.summary@)]
    } else {
        Seq::empty()
    };
    let actor = labels::main_actor_label(r);
    let b = if strs::trim(actor).len() > 0 {
        a.push(actor)
    } else {
        a
    };
    let place = labels::place_label(r);
    let c = if strs::trim(place).len() > 0 && place != "장소 미상"@ {
        b.push(place)
    } else {
        b
    };
    let d = match r.summary_parts {
        Some(p) => c + strs::filled(
            seq![
                strs::trim(p.background@),
                strs::trim(p.teacher_actions@),
                strs::trim(p.issues@),
                strs::trim(p.evidence_list@),
                strs::trim(p.other@),
            ],
        ),
        None => c,
    };
    d + strs::nonblank(r.related@.map_values(|a: ActorRef| labels::actor_short(a)))
}

/// The texts of several records that are looked at.
pub open spec fn records_source(records: Seq<&RecordItem>) -> Seq<Seq<char>>
    decreases records.len(),
{
    if records.len() == 0 {
        Seq::empty()
    } else {
        records_source(records.drop_last()) + record_source(*records.last())
    }
}

/// The texts of a case that are looked at.
pub open spec fn case_source(c: Option<CaseItem>) -> Seq<Seq<char>> {
    match c {
        Some(item) => {
            let a = if strs::trim(item.title@).len() > 0 {
                seq![strs::trim(item.title@)]
            } else {
                Seq::empty()
            };
            let b = if strs::trim(item.query@).len() > 0 {
                a.push(strs::trim(item.query@))
            } else {
                a
            };
            b + strs::nonblank(labels::actors_short(item.actors@, 6))
        },
        None => Seq::empty(),
    }
}

/// The texts of a request that are looked at.
pub open spec fn request_source(query: Seq<char>, message: Seq<char>, note: Option<Seq<char>>) -> Seq<
    Seq<char>,
> {
    let a = if strs::trim(query).len() > 0 {
        seq![strs::trim(query)]
    } else {
        Seq::empty()
    };
    let b = if strs::trim(message).len() > 0 {
        a.push(strs::trim(message))
    } else {
        a
    };
    match note {
        Some(n) => if strs::trim(n).len() > 0 {
            b.push(strs::trim(n))
        } else {
            b
        },
        None => b,
    }
}

/// The text by which provisions are searched.
pub open spec fn source_text(
    c: Option<CaseItem>,
    records: Seq<&RecordItem>,
    query: Seq<char>,
    message: Seq<char>,
    note: Option<Seq<char>>,
) -> Seq<char> {
    strs::first(
        strs::join(
            case_source(c) + request_source(query, message, note) + records_source(records),
            " "@,
        ),
        2400,
    )
}

fn push_filled(out: &mut Vec<String>, s: &str)
    ensures
        strs::views(final(out)@) == if strs::trim(s@).len() > 0 {
            strs::views(old(out)@).push(strs::trim(s@))
        } else {
            strs::views(old(out)@)
        },
{
    let t = text::trim(s);
    if t.unicode_len() > 0 {
        text::push(out, t);
    }
}

fn record_source_of(r: &RecordItem) -> (out: Vec<String>)
    ensures
        strs::views(out@) == record_source(*r),
{
    let mut out = text::no_texts();
    push_filled(&mut out, &r.summary);
    assert(strs::trim(r.summary@).len() > 0 ==> strs::views(out@) =~= seq![strs::trim(r.summary@)]);
    let actor = strategy_main_actor_label(r);
    if !text::is_blank(&actor) {
        text::push(&mut out, actor);
    }
    let place = strategy_place_label(r);
    if !text::is_blank(&place) && !text::same(&place, "장소 미상") {
        text::push(&mut out, place);
    }
    if let Some(p) = &r.summary_parts {
        let a = text::trim(&p.background);
        let b = text::trim(&p.teacher_actions);
        let c = text::trim(&p.issues);
        let d = text::trim(&p.evidence_list);
        let e = text::trim(&p.other);
        let fields = text::owned(&[a.as_str(), b.as_str(), c.as_str(), d.as_str(), e.as_str()]);
        assert(strs::views(fields@) =~= seq![a@, b@, c@, d@, e@]);
        text::push_all(&mut out, &text::filled(&fields));
    }
    let n: usize = r.related.len();
    let people = text::map_first(
        &r.related,
        n,
        format_actor_short,
        Ghost(|a: ActorRef| labels::actor_short(a)),
    );
    assert(strs::head(r.related@, n as nat) =~= r.related@);
    text::push_all(&mut out, &text::nonblank(&people));
    out
}

/// The text by which provisions are searched.
pub fn strategy_collect_legal_source_text(
    case_item: Option<&CaseItem>,
    selected_records: &[&RecordItem],
    retrieval_query: &str,
    message: &str,
    strategy_note: Option<&str>,
) -> (r: String)
    ensures
        r@ == source_text(
            labels::deref_case(case_item),
            selected_records@,
            retrieval_query@,
            message@,
            strs::opt_str(strategy_note),
        ),
{
    let mut parts = text::no_texts();
    if let Some(c) = case_item {
        push_filled(&mut parts, &c.title);
        assert(strs::trim(c.title@).len() > 0 ==> strs::views(parts@) =~= seq![
            strs::trim(c.title@),
        ]);
        push_filled(&mut parts, &c.query);
        text::push_all(&mut parts, &text::nonblank(&first_actors(&c.actors, 6)));
    }
    let ghost from_case = strs::views(parts@);
    assert(from_case == case_source(labels::deref_case(case_item)));
    let mut request = text::no_texts();
    push_filled(&mut request, retrieval_query);
    assert(strs::trim(retrieval_query@).len() > 0 ==> strs::views(request@) =~= seq![
        strs::trim(retrieval_query@),
    ]);
    push_filled(&mut request, message);
    if let Some(n) = strategy_note {
        push_filled(&mut request, n);
    }
    text::push_all(&mut parts, &request);
    let ghost base = strs::views(parts@);
    let mut i: usize = 0;
    assert(selected_records@.take(0) =~= Seq::empty());
    assert(base + records_source(selected_records@.take(0)) =~= base);
    while i < selected_records.len()
        invariant
            i <= selected_records@.len(),
            strs::views(parts@) == base + records_source(selected_records@.take(i as int)),
        decreases selected_records@.len() - i,
    {
        let ghost head = records_source(selected_records@.take(i as int));
        assert(selected_records@.take(i + 1).drop_last() =~= selected_records@.take(i as int));
        let more = record_source_of(selected_records[i]);
        text::push_all(&mut parts, &more);
        assert(base + head + strs::views(more@) =~= base + (head + strs::views(more@)));
        i += 1;
    }
    assert(selected_records@.take(i as int) =~= selected_records@);
    strategy_trim(&text::join(&parts, " "), 2400)
}

/// The terms with a concept and what goes with it, where the concept stands in the text.
pub open spec fn with_concept(t: Terms, c: LegalConcept, source: Seq<char>) -> Terms {
    let key = normalize::normal(c.concept@);
    if key.len() == 0 || !strs::contains(source, key) {
        t
    } else {
        with_terms(with_term(t, c.concept@), strs::views(c.expansions@))
    }
}

/// The terms with the concepts that stand in the text.
pub open spec fn with_concepts(t: Terms, list: Seq<LegalConcept>, source: Seq<char>) -> Terms
    decreases list.len(),
{
    if list.len() == 0 {
        t
    } else {
        with_concept(with_concepts(t, list.drop_last(), source), list.last(), source)
    }
}

/// The terms by which provisions are searched: the words of the text and the concepts in it, at
/// most 80.
pub open spec fn query_terms(source: Seq<char>, concepts: Seq<LegalConcept>) -> Seq<Seq<char>> {
    let n = normalize::normal(source);
    strs::head(
        with_concepts(with_terms(no_terms(), normalize::tokens(n)), concepts, n).terms,
        80,
    )
}

/// The terms by which provisions are searched.
pub fn strategy_build_legal_query_terms(source_text: &str, concepts: &Vec<LegalConcept>) -> (r: Vec<
    String,
>)
    ensures
        strs::views(r@) == query_terms(source_text@, concepts@),
{
    let source_norm = norm(source_text);
    let mut out = text::no_texts();
    let mut seen = text::no_texts();
    let words = tokenize(&source_norm);
    push_terms(&mut out, &mut seen, &words);
    let ghost start = with_terms(no_terms(), normalize::tokens(source_norm@));
    let mut i: usize = 0;
    assert(concepts@.take(0) =~= Seq::empty());
    while i < concepts.len()
        invariant
            i <= concepts@.len(),
            source_norm@ == normalize::normal(source_text@),
            (Terms { terms: strs::views(out@), seen: strs::views(seen@) }) == with_concepts(
                start,
                concepts@.take(i as int),
                source_norm@,
            ),
        decreases concepts@.len() - i,
    {
        assert(concepts@.take(i + 1).drop_last() =~= concepts@.take(i as int));
        let key = norm(&concepts[i].concept);
        if key.unicode_len() > 0 && text::contains(&source_norm, &key) {
            strategy_push_unique_term(&mut out, &mut seen, &concepts[i].concept);
            push_terms(&mut out, &mut seen, &concepts[i].expansions);
        }
        i += 1;
    }
    assert(concepts@.take(i as int) =~= concepts@);
    text::head(&out, 80)
}

/// The normal form of the phrase has two characters and stands in the text.
pub open spec fn phrase_in(source: Seq<char>, phrase: Seq<char>) -> bool {
    let n = normalize::normal(strs::trim(phrase));
    n.len() >= 2 && strs::contains(source, n)
}

/// The number of phrases that stand in the text.
pub open spec fn phrase_hits(source: Seq<char>, phrases: Seq<Seq<char>>) -> nat {
    strs::count(phrases, |p: Seq<char>| phrase_in(source, p))
}

/// The reasons with one for each phrase that stands in the text.
pub open spec fn phrase_reasons(
    reasons: Seq<Seq<char>>,
    source: Seq<char>,
    phrases: Seq<Seq<char>>,
    prefix: Seq<char>,
) -> Seq<Seq<char>>
    decreases phrases.len(),
{
    if phrases.len() == 0 {
        reasons
    } else {
        let head = phrase_reasons(reasons, source, phrases.drop_last(), prefix);
        if phrase_in(source, phrases.last()) {
            with_reason(head, (prefix + " "@ + strs::trim(phrases.last())))
        } else {
            head
        }
    }
}

/// Counts the phrases that stand in the text, and adds a reason for each.
pub fn strategy_phrase_score(
    source_norm: &str,
    phrases: &Vec<String>,
    reason_prefix: &str,
    reasons: &mut Vec<String>,
) -> (r: usize)
    ensures
        r == phrase_hits(source_norm@, strs::views(phrases@)),
        strs::views(final(reasons)@) == phrase_reasons(
            strs::views(old(reasons)@),
            source_norm@,
            strs::views(phrases@),
            reason_prefix@,
        ),
{
    let ghost start = strs::views(reasons@);
    let ghost all = strs::views(phrases@);
    let ghost p = |p: Seq<char>| phrase_in(source_norm@, p);
    let mut hits: usize = 0;
    let mut i: usize = 0;
    assert(all.take(0) =~= Seq::empty());
    while i < phrases.len()
        invariant
            i <= phrases@.len(),
            hits <= i,
            all == strs::views(phrases@),
            p == (|p: Seq<char>| phrase_in(source_norm@, p)),
            hits == strs::count(all.take(i as int), p),
            strs::views(reasons@) == phrase_reasons(
                start,
                source_norm@,
                all.take(i as int),
                reason_prefix@,
            ),
        decreases phrases@.len() - i,
    {
        assert(all.take(i + 1).drop_last() =~= all.take(i as int));
        let trimmed = text::trim(&phrases[i]);
        let n = norm(&trimmed);
        if n.unicode_len() >= 2 && text::contains(source_norm, &n) {
            hits += 1;
            let mut reason = text::copy(reason_prefix);
            reason.append(" ");
            reason.append(&trimmed);
            strategy_push_unique_reason(reasons, &reason);
        }
        i += 1;
    }
    assert(all.take(i as int) =~= all);
    hits
}

/// The normal form of the term has two characters and stands in the text.
pub open spec fn term_in(source: Seq<char>, term: Seq<char>) -> bool {
    let n = normalize::normal(term);
    n.len() >= 2 && strs::contains(source, n)
}

/// The terms that stand in the text, each once.
pub open spec fn matched_terms(source: Seq<char>, terms: Seq<Seq<char>>) -> Seq<Seq<char>> {
    strs::distinct(strs::keep(terms, |t: Seq<char>| term_in(source, t)))
}

/// The reasons with one for each of these terms.
pub open spec fn term_reasons(reasons: Seq<Seq<char>>, terms: Seq<Seq<char>>) -> Seq<Seq<char>>
    decreases terms.len(),
{
    if terms.len() == 0 {
        reasons
    } else {
        with_reason(
            term_reasons(reasons, terms.drop_last()),
            ("질의 일치 "@ + terms.last()),
        )
    }
}

/// The number of terms that stand in the text, at most six.
pub open spec fn overlap(source: Seq<char>, terms: Seq<Seq<char>>) -> nat {
    let n = matched_terms(source, terms).len();
    if n > 6 {
        6
    } else {
        n
    }
}

/// The reasons with one for each of the first four terms that stand in the text.
pub open spec fn overlap_reasons(
    reasons: Seq<Seq<char>>,
    source: Seq<char>,
    terms: Seq<Seq<char>>,
) -> Seq<Seq<char>> {
    term_reasons(reasons, strs::head(matched_terms(source, terms), 4))
}

/// Counts the terms that stand in the text, at most six, and adds a reason for each of the
/// first four.
pub fn strategy_overlap_score(
    source_norm: &str,
    query_terms: &Vec<String>,
    reasons: &mut Vec<String>,
) -> (r: usize)
    ensures
        r == overlap(source_norm@, strs::views(query_terms@)),
        strs::views(final(reasons)@) == overlap_reasons(
            strs::views(old(reasons)@),
            source_norm@,
            strs::views(query_terms@),
        ),
{
    let ghost start = strs::views(reasons@);
    let ghost all = strs::views(query_terms@);
    let ghost p = |t: Seq<char>| term_in(source_norm@, t);
    let mut matched = text::no_texts();
    let mut i: usize = 0;
    assert(strs::distinct(strs::keep(all.take(0), p)) =~= Seq::empty());
    while i < query_terms.len()
        invariant
            i <= query_terms@.len(),
            all == strs::views(query_terms@),
            p == (|t: Seq<char>| term_in(source_norm@, t)),
            strs::views(matched@) == strs::distinct(strs::keep(all.take(i as int), p)),
        decreases query_terms@.len() - i,
    {
        let ghost kept = strs::keep(all.take(i as int), p);
        assert(all.take(i + 1).drop_last() =~= all.take(i as int));
        let n = norm(&query_terms[i]);
        if n.unicode_len() >= 2 && text::contains(source_norm, &n) {
            assert(kept.push(all[i as int]).drop_last() =~= kept);
            text::push_new(&mut matched, query_terms[i].clone());
        }
        i += 1;
    }
    assert(all.take(i as int) =~= all);
    let first = text::head(&matched, 4);
    let ghost four = strs::views(first@);
    let mut k: usize = 0;
    assert(four.take(0) =~= Seq::empty());
    while k < first.len()
        invariant
            k <= first@.len(),
            four == strs::views(first@),
            strs::views(reasons@) == term_reasons(start, four.take(k as int)),
        decreases first@.len() - k,
    {
        assert(four.take(k + 1).drop_last() =~= four.take(k as int));
        let mut reason = text::copy("질의 일치 ");
        reason.append(&first[k]);
        strategy_push_unique_reason(reasons, &reason);
        k += 1;
    }
    assert(four.take(k as int) =~= four);
    assert(strs::views(matched@).len() == matched@.len());
    if matched.len() > 6 {
        6
    } else {
        matched.len()
    }
}

/// The last law with that id.
pub open spec fn law_of(laws: Seq<StrategyLegalLawRecord>, id: Seq<char>) -> Option<
    StrategyLegalLawRecord,
>
    decreases laws.len(),
{
    if laws.len() == 0 || id.len() == 0 {
        None
    } else if strs::trim(laws.last().record_id@) == id {
        Some(laws.last())
    } else {
        law_of(laws.drop_last(), id)
    }
}

fn find_law<'a>(laws: &'a Vec<StrategyLegalLawRecord>, id: &str) -> (r: Option<
    &'a StrategyLegalLawRecord,
>)
    ensures
        match r {
            Some(law) => law_of(laws@, id@) == Some(*law),
            None => law_of(laws@, id@) is None,
        },
{
    if id.unicode_len() == 0 {
        return None;
    }
    let mut i: usize = laws.len();
    assert(laws@.take(i as int) =~= laws@);
    while i > 0
        invariant
            i <= laws@.len(),
            id@.len() > 0,
            law_of(laws@, id@) == law_of(laws@.take(i as int), id@),
        decreases i,
    {
        assert(laws@.take(i as int).drop_last() =~= laws@.take(i - 1));
        if text::same(&text::trim(&laws[i - 1].record_id), id) {
            return Some(&laws[i - 1]);
        }
        i -= 1;
    }
    None
}

/// A provision, and not another piece of a law.
pub open spec fn is_article(chunk: StrategyLegalFlatChunk) -> bool {
    let t = strs::trim(chunk.chunk_type@);
    t.len() == 0 || strs::ascii_lower(t) == "article"@
}

/// What a text and a provision have in common.
#[derive(Debug)]
pub struct LegalSignals {
    pub law_names: usize,
    pub aliases: usize,
    pub topics: usize,
    pub titles: usize,
    pub keywords: usize,
    pub overlap: usize,
    pub relevance_overlap: usize,
    pub article_number: bool,
    pub retrieval_overlap: usize,
    pub reasons: Vec<String>,
}

/// What a text and a provision have in common, as the contracts see it.
#[verifier::ext_equal]
pub struct Signals {
    pub law_names: nat,
    pub aliases: nat,
    pub topics: nat,
    pub titles: nat,
    pub keywords: nat,
    pub overlap: nat,
    pub relevance_overlap: nat,
    pub article_number: bool,
    pub retrieval_overlap: nat,
    pub reasons: Seq<Seq<char>>,
}

impl View for LegalSignals {
    type V = Signals;

    open spec fn view(&self) -> Signals {
        Signals {
            law_names: self.law_names as nat,
            aliases: self.aliases as nat,
            topics: self.topics as nat,
            titles: self.titles as nat,
            keywords: self.keywords as nat,
            overlap: self.overlap as nat,
            relevance_overlap: self.relevance_overlap as nat,
            article_number: self.article_number,
            retrieval_overlap: self.retrieval_overlap as nat,
            reasons: strs::views(self.reasons@),
        }
    }
}

/// The names of the law of a provision.
pub open spec fn law_names_of(
    chunk: StrategyLegalFlatChunk,
    law: Option<StrategyLegalLawRecord>,
) -> Seq<Seq<char>> {
    let own = seq![chunk.official_name@, chunk.short_name@];
    with_terms(
        no_terms(),
        match law {
            Some(l) => own + seq![l.official_name@, l.short_name@],
            None => own,
        },
    ).terms
}

/// The terms of a provision and those of its law.
pub open spec fn joint_terms(own: Seq<Seq<char>>, of_law: Seq<Seq<char>>) -> Seq<Seq<char>> {
    with_terms(with_terms(no_terms(), own), of_law).terms
}

/// The titles of a provision.
pub open spec fn titles_of(chunk: StrategyLegalFlatChunk) -> Seq<Seq<char>> {
    seq![
        chunk.article_title@,
        strs::trim((strs::trim(chunk.article_no@) + " "@ + strs::trim(chunk.article_title@))),
    ]
}

/// The text of a provision.
pub open spec fn article_text(chunk: StrategyLegalFlatChunk, topics: Seq<Seq<char>>) -> Seq<char> {
    (chunk.official_name@ + " "@ + chunk.short_name@ + " "@ + chunk.school_relevance@ + " "@ + strs::join(topics, " "@) + " "@ + chunk.article_no@ + " "@ + chunk.article_title@ + " "@ + chunk.legal_point@ + " "@ + chunk.teacher_use_case@ + " "@ + chunk.retrieval_text@)
}

/// What a text and a provision have in common.
pub open spec fn signals_of(
    chunk: StrategyLegalFlatChunk,
    law: Option<StrategyLegalLawRecord>,
    source: Seq<char>,
    terms: Seq<Seq<char>>,
) -> Signals {
    let names = law_names_of(chunk, law);
    let aliases = joint_terms(
        strs::views(chunk.aliases@),
        match law {
            Some(l) => strs::views(l.aliases@),
            None => Seq::empty(),
        },
    );
    let topics = joint_terms(
        strs::views(chunk.topical_tags@),
        match law {
            Some(l) => strs::views(l.topical_tags@),
            None => Seq::empty(),
        },
    );
    let titles = titles_of(chunk);
    let keywords = strs::views(chunk.keywords@);
    let body = normalize::normal(article_text(chunk, topics));
    let relevance = strs::trim(chunk.school_relevance@);
    let number = strs::trim(chunk.article_no@);
    let retrieval = strs::trim(chunk.retrieval_text@);
    let numbered = strs::contains(source, normalize::normal(number)) && number.len() > 0;
    let r1 = phrase_reasons(Seq::empty(), source, names, "법령명 일치"@);
    let r2 = phrase_reasons(r1, source, aliases, "법령 별칭 일치"@);
    let r3 = phrase_reasons(r2, source, topics, "주제 일치"@);
    let r4 = phrase_reasons(r3, source, titles, "조문 주제 일치"@);
    let r5 = phrase_reasons(r4, source, keywords, "키워드 일치"@);
    let r6 = overlap_reasons(r5, body, terms);
    let r7 = if relevance.len() > 0 {
        overlap_reasons(r6, normalize::normal(relevance), terms)
    } else {
        r6
    };
    let r8 = if numbered {
        with_reason(r7, ("조문 번호 일치 "@ + number))
    } else {
        r7
    };
    let r9 = if retrieval.len() > 0 {
        overlap_reasons(r8, normalize::normal(retrieval), terms)
    } else {
        r8
    };
    Signals {
        law_names: phrase_hits(source, names),
        aliases: phrase_hits(source, aliases),
        topics: phrase_hits(source, topics),
        titles: phrase_hits(source, titles),
        keywords: phrase_hits(source, keywords),
        overlap: overlap(body, terms),
        relevance_overlap: if relevance.len() > 0 {
            overlap(normalize::normal(relevance), terms)
        } else {
            0
        },
        article_number: numbered,
        retrieval_overlap: if retrieval.len() > 0 {
            overlap(normalize::normal(retrieval), terms)
        } else {
            0
        },
        reasons: r9,
    }
}

fn joint_terms_of(own: &Vec<String>, of_law: Option<&Vec<String>>) -> (r: Vec<String>)
    ensures
        strs::views(r@) == joint_terms(
            strs::views(own@),
            match of_law {
                Some(list) => strs::views(list@),
                None => Seq::empty(),
            },
        ),
{
    let mut out = text::no_texts();
    let mut seen = text::no_texts();
    push_terms(&mut out, &mut seen, own);
    if let Some(list) = of_law {
        push_terms(&mut out, &mut seen, list);
    }
    out
}

fn law_names_list(chunk: &StrategyLegalFlatChunk, law: Option<&StrategyLegalLawRecord>) -> (r: Vec<
    String,
>)
    ensures
        strs::views(r@) == law_names_of(
            *chunk,
            match law {
                Some(l) => Some(*l),
                None => None,
            },
        ),
{
    let mut names = text::owned(&[chunk.official_name.as_str(), chunk.short_name.as_str()]);
    let ghost own = seq![chunk.official_name@, chunk.short_name@];
    assert(strs::views(names@) =~= own);
    if let Some(l) = law {
        text::push(&mut names, l.official_name.clone());
        text::push(&mut names, l.short_name.clone());
        assert(strs::views(names@) =~= own + seq![l.official_name@, l.short_name@]);
    }
    let mut out = text::no_texts();
    let mut seen = text::no_texts();
    push_terms(&mut out, &mut seen, &names);
    out
}

/// What a text and a provision have in common.
pub fn strategy_legal_signals(
    chunk: &StrategyLegalFlatChunk,
    law: Option<&StrategyLegalLawRecord>,
    source_norm: &str,
    query_terms: &Vec<String>,
) -> (r: LegalSignals)
    ensures
        r@ == signals_of(
            *chunk,
            match law {
                Some(l) => Some(*l),
                None => None,
            },
            source_norm@,
            strs::views(query_terms@),
        ),
{
    let names = law_names_list(chunk, law);
    let aliases = joint_terms_of(
        &chunk.aliases,
        match law {
            Some(l) => Some(&l.aliases),
            None => None,
        },
    );
    let topics = joint_terms_of(
        &chunk.topical_tags,
        match law {
            Some(l) => Some(&l.topical_tags),
            None => None,
        },
    );
    let mut both = text::copy(&text::trim(&chunk.article_no));
    both.append(" ");
    both.append(&text::trim(&chunk.article_title));
    let numbered_title = text::trim(&both);
    let titles = text::owned(&[chunk.article_title.as_str(), numbered_title.as_str()]);
    assert(strs::views(titles@) =~= titles_of(*chunk));
    let mut body = text::copy(&chunk.official_name);
    body.append(" ");
    body.append(&chunk.short_name);
    body.append(" ");
    body.append(&chunk.school_relevance);
    body.append(" ");
    body.append(&text::join(&topics, " "));
    body.append(" ");
    body.append(&chunk.article_no);
    body.append(" ");
    body.append(&chunk.article_title);
    body.append(" ");
    body.append(&chunk.legal_point);
    body.append(" ");
    body.append(&chunk.teacher_use_case);
    body.append(" ");
    body.append(&chunk.retrieval_text);
    let body_norm = norm(&body);
    let mut reasons = text::no_texts();
    let a: usize = strategy_phrase_score(source_norm, &names, "법령명 일치", &mut reasons);
    let b: usize = strategy_phrase_score(source_norm, &aliases, "법령 별칭 일치", &mut reasons);
    let c: usize = strategy_phrase_score(source_norm, &topics, "주제 일치", &mut reasons);
    let d: usize = strategy_phrase_score(source_norm, &titles, "조문 주제 일치", &mut reasons);
    let e: usize = strategy_phrase_score(source_norm, &chunk.keywords, "키워드 일치", &mut reasons);
    let f: usize = strategy_overlap_score(&body_norm, query_terms, &mut reasons);
    let relevance = text::trim(&chunk.school_relevance);
    let mut relevance_overlap: usize = 0;
    if relevance.unicode_len() > 0 {
        relevance_overlap = strategy_overlap_score(&norm(&relevance), query_terms, &mut reasons);
    }
    let number = text::trim(&chunk.article_no);
    let numbered = text::contains(source_norm, &norm(&number)) && number.unicode_len() > 0;
    if numbered {
        let mut reason = text::copy("조문 번호 일치 ");
        reason.append(&number);
        strategy_push_unique_reason(&mut reasons, &reason);
    }
    let retrieval = text::trim(&chunk.retrieval_text);
    let mut retrieval_overlap: usize = 0;
    if retrieval.unicode_len() > 0 {
        retrieval_overlap = strategy_overlap_score(&norm(&retrieval), query_terms, &mut reasons);
    }
    LegalSignals {
        law_names: a,
        aliases: b,
        topics: c,
        titles: d,
        keywords: e,
        overlap: f,
        relevance_overlap,
        article_number: numbered,
        retrieval_overlap,
        reasons,
    }
}

/// The score of a provision: its place among the scores (a higher score has a higher key), and
/// whether it reaches the threshold.
#[derive(Debug, Clone, Copy, PartialEq, Eq, Structural)]
pub struct LegalScore {
    pub key: i64,
    pub passes: bool,
}

/// A provision that may be shown: ordered by score, the highest first, then by the name of the
/// law, then by the number of the article.
#[derive(Debug)]
pub struct LegalCandidate {
    pub chunk: usize,
    pub key: i64,
    pub official_name: String,
    pub article_no: String,
}

/// A provision that may be shown, as the contracts see it.
#[verifier::ext_equal]
pub struct Candidate {
    pub chunk: int,
    pub key: int,
    pub official_name: Seq<char>,
    pub article_no: Seq<char>,
}

impl View for LegalCandidate {
    type V = Candidate;

    open spec fn view(&self) -> Candidate {
        Candidate {
            chunk: self.chunk as int,
            key: self.key as int,
            official_name: self.official_name@,
            article_no: self.article_no@,
        }
    }
}

impl Ordered for LegalCandidate {
    open spec fn after(a: Candidate, b: Candidate) -> bool {
        ||| a.key < b.key
        ||| a.key == b.key && strs::before(b.official_name, a.official_name)
        ||| a.key == b.key && a.official_name == b.official_name && strs::before(
            b.article_no,
            a.article_no,
        )
    }

    fn comes_after(&self, other: &Self) -> (r: bool) {
        if self.key != other.key {
            self.key < other.key
        } else if text::before(&other.official_name, &self.official_name) {
            true
        } else if !text::same(&self.official_name, &other.official_name) {
            false
        } else {
            text::before(&other.article_no, &self.article_no)
        }
    }
}

/// What a text and the provision at position `i` have in common.
pub open spec fn signals_at(
    corpus: LegalCorpus,
    source: Seq<char>,
    terms: Seq<Seq<char>>,
    i: int,
) -> Signals {
    let chunk = corpus.chunks@[i];
    signals_of(chunk, law_of(corpus.laws@, strs::trim(chunk.record_id@)), source, terms)
}

/// The provisions, among the first `n` pieces, that reach the threshold or have two reasons.
pub open spec fn candidates(
    corpus: LegalCorpus,
    source: Seq<char>,
    terms: Seq<Seq<char>>,
    scores: Seq<LegalScore>,
    n: nat,
) -> Seq<Candidate>
    decreases n,
{
    if n == 0 {
        Seq::empty()
    } else {
        let i = n - 1;
        let head = candidates(corpus, source, terms, scores, i as nat);
        let chunk = corpus.chunks@[i];
        if is_article(chunk) && (scores[i].passes || signals_at(
            corpus,
            source,
            terms,
            i,
        ).reasons.len() >= 2) {
            head.push(
                Candidate {
                    chunk: i,
                    key: scores[i].key as int,
                    official_name: chunk.official_name@,
                    article_no: chunk.article_no@,
                },
            )
        } else {
            head
        }
    }
}

/// The id of the law of the piece at position `i`.
pub open spec fn law_id_at(corpus: LegalCorpus, i: int) -> Seq<char> {
    strs::trim(corpus.chunks@[i].record_id@)
}

/// The provisions that are shown: at most four, and at most two of one law.
pub open spec fn chosen(corpus: LegalCorpus, list: Seq<Candidate>) -> Seq<int>
    decreases list.len(),
{
    if list.len() == 0 {
        Seq::empty()
    } else {
        let head = chosen(corpus, list.drop_last());
        let i = list.last().chunk;
        let id = law_id_at(corpus, i);
        if head.len() >= 4 || id.len() == 0 || strs::count(
            head,
            |j: int| law_id_at(corpus, j) == id,
        ) >= 2 {
            head
        } else {
            head.push(i)
        }
    }
}

/// A provision as it is shown, under its number.
pub open spec fn reference_of(
    corpus: LegalCorpus,
    source: Seq<char>,
    terms: Seq<Seq<char>>,
    i: int,
    number: nat,
) -> LegalRef {
    let chunk = corpus.chunks@[i];
    let law = law_of(corpus.laws@, strs::trim(chunk.record_id@));
    LegalRef {
        ref_id: "L"@ + strs::decimal(number),
        law_id: strs::trim(chunk.record_id@),
        law_name: match law {
            Some(l) => strs::trim(l.official_name@),
            None => strs::trim(chunk.official_name@),
        },
        short_name: match law {
            Some(l) => strs::trim(l.short_name@),
            None => strs::trim(chunk.short_name@),
        },
        article_ref: strs::trim(chunk.article_no@),
        article_title: strs::trim(chunk.article_title@),
        legal_point: strs::trim(chunk.legal_point@),
        teacher_use_case: strs::trim(chunk.teacher_use_case@),
        source_url: match law {
            Some(l) => strs::trim(l.source_url@),
            None => strs::trim(chunk.source_url@),
        },
        status_label: match law {
            Some(l) => strs::trim(l.current_status_label@),
            None => strs::trim(chunk.current_status_label@),
        },
        relevance_reasons: strs::head(signals_at(corpus, source, terms, i).reasons, 4),
    }
}

/// The provisions that belong to a text.
pub open spec fn references(
    corpus: LegalCorpus,
    text: Seq<char>,
    scores: Seq<LegalScore>,
) -> Seq<LegalRef> {
    let source = normalize::normal(text);
    let terms = query_terms(text, corpus.concepts@);
    let picked = chosen(
        corpus,
        sorting::sorted::<LegalCandidate>(
            candidates(corpus, source, terms, scores, corpus.chunks@.len()),
        ),
    );
    Seq::new(
        picked.len(),
        |k: int| reference_of(corpus, source, terms, picked[k], (k + 1) as nat),
    )
}

fn is_article_chunk(chunk: &StrategyLegalFlatChunk) -> (r: bool)
    ensures
        r == is_article(*chunk),
{
    let t = text::trim(&chunk.chunk_type);
    t.unicode_len() == 0 || text::same(&text::ascii_lower(&t), "article")
}

/// What a text and each provision have in common; nothing for the other pieces of the laws.
pub fn strategy_corpus_signals(corpus: &LegalCorpus, source_text: &str) -> (r: Vec<
    Option<LegalSignals>,
>)
    ensures
        r@.len() == corpus.chunks@.len(),
        forall|i: int|
            0 <= i < r@.len() ==> match #[trigger] r@[i] {
                Some(s) => is_article(corpus.chunks@[i]) && s@ == signals_at(
                    *corpus,
                    normalize::normal(source_text@),
                    query_terms(source_text@, corpus.concepts@),
                    i,
                ),
                None => !is_article(corpus.chunks@[i]),
            },
{
    let source_norm = norm(source_text);
    let terms = strategy_build_legal_query_terms(source_text, &corpus.concepts);
    let mut out: Vec<Option<LegalSignals>> = Vec::new();
    let mut i: usize = 0;
    while i < corpus.chunks.len()
        invariant
            i <= corpus.chunks@.len(),
            source_norm@ == normalize::normal(source_text@),
            strs::views(terms@) == query_terms(source_text@, corpus.concepts@),
            out@.len() == i,
            forall|j: int|
                0 <= j < i ==> match #[trigger] out@[j] {
                    Some(s) => is_article(corpus.chunks@[j]) && s@ == signals_at(
                        *corpus,
                        normalize::normal(source_text@),
                        query_terms(source_text@, corpus.concepts@),
                        j,
                    ),
                    None => !is_article(corpus.chunks@[j]),
                },
        decreases corpus.chunks@.len() - i,
    {
        let chunk = &corpus.chunks[i];
        if is_article_chunk(chunk) {
            let law = find_law(&corpus.laws, &text::trim(&chunk.record_id));
            out.push(Some(strategy_legal_signals(chunk, law, &source_norm, &terms)));
        } else {
            out.push(None);
        }
        i += 1;
    }
    out
}

fn count_same_law(corpus: &LegalCorpus, picked: &Vec<usize>, id: &str) -> (r: usize)
    requires
        forall|k: int| 0 <= k < picked@.len() ==> (#[trigger] picked@[k]) < corpus.chunks@.len(),
    ensures
        r == strs::count(
            picked@.map_values(|i: usize| i as int),
            |j: int| law_id_at(*corpus, j) == id@,
        ),
{
    let ghost all = picked@.map_values(|i: usize| i as int);
    let ghost p = |j: int| law_id_at(*corpus, j) == id@;
    let mut n: usize = 0;
    let mut k: usize = 0;
    while k < picked.len()
        invariant
            k <= picked@.len(),
            n <= k,
            all == picked@.map_values(|i: usize| i as int),
            p == (|j: int| law_id_at(*corpus, j) == id@),
            forall|k: int|
                0 <= k < picked@.len() ==> (#[trigger] picked@[k]) < corpus.chunks@.len(),
            n == strs::count(all.take(k as int), p),
        decreases picked@.len() - k,
    {
        assert(all.take(k + 1).drop_last() =~= all.take(k as int));
        assert(all[k as int] == picked@[k as int]);
        if text::same(&text::trim(&corpus.chunks[picked[k]].record_id), id) {
            n += 1;
        }
        k += 1;
    }
    assert(all.take(k as int) =~= all);
    n
}

/// The reference shows a provision of the corpus: what it says of the article is what the provision
/// says of it, trimmed.
pub open spec fn shows_an_article(corpus: LegalCorpus, shown: StrategyLegalReference) -> bool {
    exists|i: int|
        #![trigger corpus.chunks@[i]]
        {
            let chunk = corpus.chunks@[i];
            &&& 0 <= i < corpus.chunks@.len()
            &&& is_article(chunk)
            &&& shown.law_id@ == strs::trim(chunk.record_id@)
            &&& shown.article_ref@ == strs::trim(chunk.article_no@)
            &&& shown.article_title@ == strs::trim(chunk.article_title@)
            &&& shown.legal_point@ == strs::trim(chunk.legal_point@)
            &&& shown.teacher_use_case@ == strs::trim(chunk.teacher_use_case@)
        }
}

/// The provisions that belong to a text.
pub fn build_strategy_legal_references(
    corpus: &LegalCorpus,
    source_text: &str,
    scores: &[LegalScore],
) -> (r: Vec<StrategyLegalReference>)
    requires
        scores@.len() == corpus.chunks@.len(),
    ensures
        strs::deep(r@) == references(*corpus, source_text@, scores@),
        forall|k: int| 0 <= k < r@.len() ==> shows_an_article(*corpus, #[trigger] r@[k]),
{
    let ghost source = normalize::normal(source_text@);
    let ghost terms = query_terms(source_text@, corpus.concepts@);
    let signals = strategy_corpus_signals(corpus, source_text);
    let mut list: Vec<LegalCandidate> = Vec::new();
    let mut i: usize = 0;
    assert(strs::deep(list@) =~= candidates(*corpus, source, terms, scores@, 0));
    while i < corpus.chunks.len()
        invariant
            i <= corpus.chunks@.len() == scores@.len(),
            signals@.len() == corpus.chunks@.len(),
            forall|j: int|
                0 <= j < signals@.len() ==> match #[trigger] signals@[j] {
                    Some(s) => is_article(corpus.chunks@[j]) && s@ == signals_at(
                        *corpus,
                        source,
                        terms,
                        j,
                    ),
                    None => !is_article(corpus.chunks@[j]),
                },
            strs::deep(list@) == candidates(*corpus, source, terms, scores@, i as nat),
        decreases corpus.chunks@.len() - i,
    {
        let ghost before = strs::deep(list@);
        let keep = match &signals[i] {
            Some(s) => {
                assert(s@.reasons.len() == s.reasons@.len());
                scores[i].passes || s.reasons.len() >= 2
            },
            None => false,
        };
        if keep {
            let item = LegalCandidate {
                chunk: i,
                key: scores[i].key,
                official_name: corpus.chunks[i].official_name.clone(),
                article_no: corpus.chunks[i].article_no.clone(),
            };
            list.push(item);
            assert(strs::deep(list@) =~= before.push(item@));
        }
        i += 1;
    }
    let ghost found = candidates(*corpus, source, terms, scores@, corpus.chunks@.len());
    let list = stable_sort(list);
    let ghost ordered = sorting::sorted::<LegalCandidate>(found);
    proof {
        lemma_candidates_refer(*corpus, source, terms, scores@, corpus.chunks@.len());
        let p = |c: Candidate|
            0 <= c.chunk < corpus.chunks@.len() && is_article(corpus.chunks@[c.chunk]);
        sorting::sorting_keeps_what_holds_of_all::<LegalCandidate>(found, p);
        assert forall|j: int| 0 <= j < ordered.len() implies 0 <= (#[trigger] ordered[j]).chunk
            < corpus.chunks@.len() && is_article(corpus.chunks@[ordered[j].chunk]) by {
            assert(p(ordered[j]));
        }
    }
    let mut picked: Vec<usize> = Vec::new();
    let mut k: usize = 0;
    assert(ordered.take(0) =~= Seq::empty());
    assert(picked@.map_values(|i: usize| i as int) =~= Seq::empty());
    while k < list.len()
        invariant
            k <= list@.len(),
            ordered == strs::deep(list@),
            forall|j: int|
                0 <= j < ordered.len() ==> 0 <= (#[trigger] ordered[j]).chunk
                    < corpus.chunks@.len() && is_article(corpus.chunks@[ordered[j].chunk]),
            forall|j: int| 0 <= j < picked@.len() ==> (#[trigger] picked@[j])
                < corpus.chunks@.len() && is_article(corpus.chunks@[picked@[j] as int]),
            picked@.len() <= 4,
            picked@.map_values(|i: usize| i as int) == chosen(*corpus, ordered.take(k as int)),
        decreases list@.len() - k,
    {
        let ghost before = picked@.map_values(|i: usize| i as int);
        assert(ordered.take(k + 1).drop_last() =~= ordered.take(k as int));
        assert(ordered[k as int] == list@[k as int]@);
        let at: usize = list[k].chunk;
        let id = text::trim(&corpus.chunks[at].record_id);
        if picked.len() < 4 && id.unicode_len() > 0 && count_same_law(corpus, &picked, &id) < 2 {
            picked.push(at);
            assert(picked@.map_values(|i: usize| i as int) =~= before.push(at as int));
        }
        k += 1;
    }
    assert(ordered.take(k as int) =~= ordered);
    let ghost wanted = references(*corpus, source_text@, scores@);
    let mut out: Vec<StrategyLegalReference> = Vec::new();
    let mut m: usize = 0;
    assert(strs::deep(out@) =~= wanted.take(0));
    while m < picked.len()
        invariant
            m <= picked@.len() <= 4,
            signals@.len() == corpus.chunks@.len(),
            forall|j: int|
                0 <= j < signals@.len() ==> match #[trigger] signals@[j] {
                    Some(s) => is_article(corpus.chunks@[j]) && s@ == signals_at(
                        *corpus,
                        source,
                        terms,
                        j,
                    ),
                    None => !is_article(corpus.chunks@[j]),
                },
            forall|j: int| 0 <= j < picked@.len() ==> (#[trigger] picked@[j])
                < corpus.chunks@.len() && is_article(corpus.chunks@[picked@[j] as int]),
            wanted.len() == picked@.len(),
            forall|j: int|
                0 <= j < picked@.len() ==> #[trigger] wanted[j] == reference_of(
                    *corpus,
                    source,
                    terms,
                    picked@[j] as int,
                    (j + 1) as nat,
                ),
            strs::deep(out@) == wanted.take(m as int),
        decreases picked@.len() - m,
    {
        let at: usize = picked[m];
        let chunk = &corpus.chunks[at];
        let law = find_law(&corpus.laws, &text::trim(&chunk.record_id));
        let mut ref_id = "L".to_owned();
        ref_id.append(&text::decimal((m + 1) as u64));
        let reasons = match &signals[at] {
            Some(s) => text::head(&s.reasons, 4),
            None => text::no_texts(),
        };
        let item = match law {
            Some(l) => StrategyLegalReference {
                ref_id,
                law_id: text::trim(&chunk.record_id),
                law_name: text::trim(&l.official_name),
                short_name: text::trim(&l.short_name),
                article_ref: text::trim(&chunk.article_no),
                article_title: text::trim(&chunk.article_title),
                legal_point: text::trim(&chunk.legal_point),
                teacher_use_case: text::trim(&chunk.teacher_use_case),
                source_url: text::trim(&l.source_url),
                status_label: text::trim(&l.current_status_label),
                relevance_reasons: reasons,
            },
            None => StrategyLegalReference {
                ref_id,
                law_id: text::trim(&chunk.record_id),
                law_name: text::trim(&chunk.official_name),
                short_name: text::trim(&chunk.short_name),
                article_ref: text::trim(&chunk.article_no),
                article_title: text::trim(&chunk.article_title),
                legal_point: text::trim(&chunk.legal_point),
                teacher_use_case: text::trim(&chunk.teacher_use_case),
                source_url: text::trim(&chunk.source_url),
                status_label: text::trim(&chunk.current_status_label),
                relevance_reasons: reasons,
            },
        };
        let ghost before = strs::deep(out@);
        assert(item@ =~= wanted[m as int]);
        out.push(item);
        assert(strs::deep(out@) =~= before.push(item@));
        assert(wanted.take(m + 1) =~= wanted.take(m as int).push(wanted[m as int]));
        m += 1;
    }
    assert(wanted.take(m as int) =~= wanted);
    assert forall|k: int| 0 <= k < out@.len() implies shows_an_article(
        *corpus,
        #[trigger] out@[k],
    ) by {
        assert(strs::deep(out@)[k] == out@[k]@);
        let chunk = corpus.chunks@[picked@[k] as int];
        assert(is_article(chunk));
    }
    out
}

/// Every candidate stands for a provision.
proof fn lemma_candidates_refer(
    corpus: LegalCorpus,
    source: Seq<char>,
    terms: Seq<Seq<char>>,
    scores: Seq<LegalScore>,
    n: nat,
)
    requires
        n <= corpus.chunks@.len(),
    ensures
        forall|j: int|
            0 <= j < candidates(corpus, source, terms, scores, n).len() ==> 0 <= (
            #[trigger] candidates(corpus, source, terms, scores, n)[j]).chunk
                < corpus.chunks@.len() && is_article(
                corpus.chunks@[candidates(corpus, source, terms, scores, n)[j].chunk],
            ),
    decreases n,
{
    if n > 0 {
        let i = (n - 1) as nat;
        lemma_candidates_refer(corpus, source, terms, scores, i);
        let head = candidates(corpus, source, terms, scores, i);
        let all = candidates(corpus, source, terms, scores, n);
        assert forall|j: int| 0 <= j < all.len() implies 0 <= (#[trigger] all[j]).chunk
            < corpus.chunks@.len() && is_article(corpus.chunks@[all[j].chunk]) by {
            if j < head.len() {
                assert(all[j] == head[j]);
            }
        }
    }
}

/// At most four provisions are shown, and at most two of one law.
pub proof fn references_are_few(corpus: LegalCorpus, list: Seq<Candidate>, id: Seq<char>)
    ensures
        chosen(corpus, list).len() <= 4,
        strs::count(chosen(corpus, list), |j: int| law_id_at(corpus, j) == id) <= 2,
        forall|k: int|
            0 <= k < chosen(corpus, list).len() ==> law_id_at(
                corpus,
                #[trigger] chosen(corpus, list)[k],
            ).len() > 0,
    decreases list.len(),
{
    if list.len() > 0 {
        let head = chosen(corpus, list.drop_last());
        references_are_few(corpus, list.drop_last(), id);
        let all = chosen(corpus, list);
        if all.len() > head.len() {
            assert(all.drop_last() =~= head);
        }
    }
}

} // verus!
