//! What holds of the search for provisions: what is searched for, and what counts as found.

use crate::engine::labels;
use crate::engine::legal;
use crate::engine::legal::{StrategyLegalFlatChunk, StrategyLegalLawRecord, Terms};
use crate::engine::normalize;
use crate::engine::records::{CaseItem, RecordItem};
use crate::lists;
use crate::strs;
use vstd::prelude::*;

verus! {

/// Terms that were gathered: trimmed, of two characters or more in their normal form, none twice.
pub open spec fn are_terms(t: Terms) -> bool {
    &&& t.terms.len() == t.seen.len()
    &&& forall|i: int|
        0 <= i < t.terms.len() ==> {
            &&& (#[trigger] t.terms[i]).len() > 0
            &&& t.seen[i] == normalize::normal(t.terms[i])
            &&& t.seen[i].len() >= 2
        }
    &&& t.seen.no_duplicates()
}

proof fn lemma_term(t: Terms, raw: Seq<char>)
    requires
        are_terms(t),
    ensures
        are_terms(legal::with_term(t, raw)),
        normalize::normal(strs::trim(raw)).len() >= 2 && strs::trim(raw).len() > 0
            ==> legal::with_term(t, raw).seen.contains(normalize::normal(strs::trim(raw))),
        forall|x: Seq<char>| #[trigger]
            t.seen.contains(x) ==> legal::with_term(t, raw).seen.contains(x),
{
    let n = legal::with_term(t, raw);
    if n.seen.len() > t.seen.len() {
        let key = normalize::normal(strs::trim(raw));
        assert(n.seen[t.seen.len() as int] == key);
        assert forall|i: int| 0 <= i < n.terms.len() implies {
            &&& (#[trigger] n.terms[i]).len() > 0
            &&& n.seen[i] == normalize::normal(n.terms[i])
            &&& n.seen[i].len() >= 2
        } by {
            if i < t.terms.len() {
                assert(n.terms[i] == t.terms[i] && n.seen[i] == t.seen[i]);
            }
        }
        assert forall|i: int, j: int| 0 <= i < n.seen.len() && 0 <= j < n.seen.len() && i != j implies n.seen[i]
            != n.seen[j] by {
            if i < t.seen.len() && j < t.seen.len() {
                assert(n.seen[i] == t.seen[i] && n.seen[j] == t.seen[j]);
            } else if i < t.seen.len() {
                assert(t.seen.contains(t.seen[i]));
            } else {
                assert(t.seen.contains(t.seen[j]));
            }
        }
        assert forall|x: Seq<char>| #[trigger] t.seen.contains(x) implies n.seen.contains(x) by {
            let i = choose|i: int| 0 <= i < t.seen.len() && t.seen[i] == x;
            assert(n.seen[i] == x);
        }
    }
}

/// The terms of a list are gathered each once, as they compare, without those that are too short.
pub proof fn terms_are_gathered_once(t: Terms, list: Seq<Seq<char>>, k: int)
    requires
        are_terms(t),
    ensures
        are_terms(legal::with_terms(t, list)),
        0 <= k < list.len() && strs::trim(list[k]).len() > 0 && normalize::normal(
            strs::trim(list[k]),
        ).len() >= 2 ==> legal::with_terms(t, list).seen.contains(
            normalize::normal(strs::trim(list[k])),
        ),
        forall|x: Seq<char>| #[trigger]
            t.seen.contains(x) ==> legal::with_terms(t, list).seen.contains(x),
    decreases list.len(),
{
    if list.len() > 0 {
        let head = list.drop_last();
        terms_are_gathered_once(t, head, k);
        let a = legal::with_terms(t, head);
        lemma_term(a, list.last());
        let b = legal::with_terms(t, list);
        if 0 <= k < head.len() {
            assert(head[k] == list[k]);
        }
        assert forall|x: Seq<char>| #[trigger] t.seen.contains(x) implies b.seen.contains(x) by {
            assert(a.seen.contains(x));
        }
    }
}

/// The normal form of the phrase has two characters and stands in the text.
pub open spec fn is_found(source: Seq<char>, phrase: Seq<char>) -> bool {
    let n = normalize::normal(strs::trim(phrase));
    n.len() >= 2 && strs::contains(source, n)
}

proof fn lemma_hits(source: Seq<char>, phrases: Seq<Seq<char>>)
    ensures
        legal::phrase_hits(source, phrases) > 0 <==> exists|i: int|
            0 <= i < phrases.len() && is_found(source, #[trigger] phrases[i]),
{
    let p = |x: Seq<char>| legal::phrase_in(source, x);
    lists::counting_finds_what_is_accepted(phrases, p);
    if legal::phrase_hits(source, phrases) > 0 {
        let i = choose|i: int| 0 <= i < phrases.len() && p(#[trigger] phrases[i]);
        assert(is_found(source, phrases[i]));
    }
    if exists|i: int| 0 <= i < phrases.len() && is_found(source, #[trigger] phrases[i]) {
        let i = choose|i: int| 0 <= i < phrases.len() && is_found(source, #[trigger] phrases[i]);
        assert(p(phrases[i]));
    }
}

/// A phrase that is found counts, and is told as a reason with what it is; no other is.
pub proof fn a_phrase_that_is_found_is_a_reason(
    reasons: Seq<Seq<char>>,
    source: Seq<char>,
    phrases: Seq<Seq<char>>,
    prefix: Seq<char>,
    k: int,
)
    requires
        0 <= k < phrases.len(),
    ensures
        is_found(source, phrases[k]) ==> legal::phrase_hits(source, phrases) > 0,
        is_found(source, phrases[k]) && strs::trim(prefix + " "@ + strs::trim(phrases[k])).len() > 0
            ==> legal::phrase_reasons(reasons, source, phrases, prefix).contains(
            strs::trim(prefix + " "@ + strs::trim(phrases[k])),
        ),
        (forall|j: int| 0 <= j < phrases.len() ==> !is_found(source, #[trigger] phrases[j])) ==> {
            &&& legal::phrase_hits(source, phrases) == 0
            &&& legal::phrase_reasons(reasons, source, phrases, prefix) == reasons
        },
{
    lemma_hits(source, phrases);
    lemma_reasons(reasons, source, phrases, prefix, k);
    if forall|j: int| 0 <= j < phrases.len() ==> !is_found(source, #[trigger] phrases[j]) {
        lemma_no_reasons(reasons, source, phrases, prefix);
    }
}

proof fn lemma_reasons(
    reasons: Seq<Seq<char>>,
    source: Seq<char>,
    phrases: Seq<Seq<char>>,
    prefix: Seq<char>,
    k: int,
)
    requires
        0 <= k < phrases.len(),
    ensures
        is_found(source, phrases[k]) && strs::trim(prefix + " "@ + strs::trim(phrases[k])).len() > 0
            ==> legal::phrase_reasons(reasons, source, phrases, prefix).contains(
            strs::trim(prefix + " "@ + strs::trim(phrases[k])),
        ),
    decreases phrases.len(),
{
    let t = phrases.drop_last();
    let head = legal::phrase_reasons(reasons, source, t, prefix);
    let all = legal::phrase_reasons(reasons, source, phrases, prefix);
    let x = strs::trim(prefix + " "@ + strs::trim(phrases[k]));
    if is_found(source, phrases[k]) && x.len() > 0 {
        if k < t.len() {
            assert(t[k] == phrases[k]);
            lemma_reasons(reasons, source, t, prefix, k);
            let i = choose|i: int| 0 <= i < head.len() && head[i] == x;
            assert(all[i] == x);
        } else if !head.contains(x) {
            assert(all[head.len() as int] == x);
        }
    }
}

proof fn lemma_no_reasons(
    reasons: Seq<Seq<char>>,
    source: Seq<char>,
    phrases: Seq<Seq<char>>,
    prefix: Seq<char>,
)
    requires
        forall|j: int| 0 <= j < phrases.len() ==> !is_found(source, #[trigger] phrases[j]),
    ensures
        legal::phrase_reasons(reasons, source, phrases, prefix) == reasons,
    decreases phrases.len(),
{
    if phrases.len() > 0 {
        let t = phrases.drop_last();
        assert forall|j: int| 0 <= j < t.len() implies !is_found(source, #[trigger] t[j]) by {
            assert(t[j] == phrases[j]);
        }
        lemma_no_reasons(reasons, source, t, prefix);
        assert(!is_found(source, phrases[phrases.len() - 1]));
    }
}

/// What a text and a provision have in common is told apart: its titles, its keywords and its
/// number each count where they stand in the text, and only there.
pub proof fn titles_keywords_and_numbers_are_told_apart(
    chunk: StrategyLegalFlatChunk,
    law: Option<StrategyLegalLawRecord>,
    source: Seq<char>,
    terms: Seq<Seq<char>>,
)
    ensures
        ({
            let s = legal::signals_of(chunk, law, source, terms);
            let number = strs::trim(chunk.article_no@);
            let full = strs::trim(number + " "@ + strs::trim(chunk.article_title@));
            &&& s.titles > 0 <==> is_found(source, chunk.article_title@) || is_found(source, full)
            &&& s.keywords > 0 <==> exists|i: int|
                0 <= i < chunk.keywords@.len() && is_found(source, (#[trigger] chunk.keywords@[i])@)
            &&& s.article_number <==> number.len() > 0 && strs::contains(
                source,
                normalize::normal(number),
            )
            &&& s.overlap <= 6 && s.relevance_overlap <= 6 && s.retrieval_overlap <= 6
            &&& strs::trim(chunk.school_relevance@).len() == 0 ==> s.relevance_overlap == 0
            &&& strs::trim(chunk.retrieval_text@).len() == 0 ==> s.retrieval_overlap == 0
        }),
{
    let titles = legal::titles_of(chunk);
    lemma_hits(source, titles);
    let s = legal::signals_of(chunk, law, source, terms);
    assert(titles[0] == chunk.article_title@);
    assert(titles[1] == strs::trim(
        strs::trim(chunk.article_no@) + " "@ + strs::trim(chunk.article_title@),
    ));
    let keywords = strs::views(chunk.keywords@);
    lemma_hits(source, keywords);
    if exists|i: int| 0 <= i < keywords.len() && is_found(source, #[trigger] keywords[i]) {
        let i = choose|i: int| 0 <= i < keywords.len() && is_found(source, #[trigger] keywords[i]);
        assert(is_found(source, chunk.keywords@[i]@));
    }
    if exists|i: int|
        0 <= i < chunk.keywords@.len() && is_found(source, (#[trigger] chunk.keywords@[i])@) {
        let i = choose|i: int|
            0 <= i < chunk.keywords@.len() && is_found(source, (#[trigger] chunk.keywords@[i])@);
        assert(keywords[i] == chunk.keywords@[i]@);
    }
}

/// The names of a law are found wherever they stand: in the provision or in the law.
pub proof fn names_of_the_law_are_looked_for(
    chunk: StrategyLegalFlatChunk,
    law: StrategyLegalLawRecord,
)
    ensures
        ({
            let names = legal::with_terms(
                legal::no_terms(),
                seq![chunk.official_name@, chunk.short_name@] + seq![
                    law.official_name@,
                    law.short_name@,
                ],
            );
            let long = strs::trim(law.official_name@);
            let short = strs::trim(law.short_name@);
            let own = strs::trim(chunk.official_name@);
            &&& legal::law_names_of(chunk, Some(law)) == names.terms
            &&& long.len() > 0 && normalize::normal(long).len() >= 2 ==> names.seen.contains(
                normalize::normal(long),
            )
            &&& short.len() > 0 && normalize::normal(short).len() >= 2 ==> names.seen.contains(
                normalize::normal(short),
            )
            &&& own.len() > 0 && normalize::normal(own).len() >= 2 ==> names.seen.contains(
                normalize::normal(own),
            )
        }),
{
    let list = seq![chunk.official_name@, chunk.short_name@] + seq![
        law.official_name@,
        law.short_name@,
    ];
    assert(are_terms(legal::no_terms()));
    terms_are_gathered_once(legal::no_terms(), list, 0);
    terms_are_gathered_once(legal::no_terms(), list, 2);
    terms_are_gathered_once(legal::no_terms(), list, 3);
    assert(list[0] == chunk.official_name@ && list[2] == law.official_name@ && list[3]
        == law.short_name@);
}

/// Provisions are searched by the title and the question of the case, the query, the message and
/// the note, those that are not blank, in this order.
pub proof fn provisions_are_searched_by_what_was_said(
    c: Option<CaseItem>,
    query: Seq<char>,
    message: Seq<char>,
    note: Option<Seq<char>>,
)
    ensures
        ({
            let of_case = legal::case_source(c);
            let of_request = legal::request_source(query, message, note);
            &&& c matches Some(item) ==> {
                &&& strs::trim(item.title@).len() > 0 ==> of_case.contains(strs::trim(item.title@))
                &&& strs::trim(item.query@).len() > 0 ==> of_case.contains(strs::trim(item.query@))
            }
            &&& c is None ==> of_case.len() == 0
            &&& strs::trim(query).len() > 0 ==> of_request[0] == strs::trim(query)
            &&& strs::trim(message).len() > 0 ==> of_request.contains(strs::trim(message))
            &&& note matches Some(n) ==> (strs::trim(n).len() > 0 ==> of_request.last()
                == strs::trim(n))
        }),
{
    match c {
        Some(item) => {
            let list = legal::case_source(c);
            let a = if strs::trim(item.title@).len() > 0 {
                1int
            } else {
                0
            };
            if strs::trim(item.title@).len() > 0 {
                assert(list[0] == strs::trim(item.title@));
            }
            if strs::trim(item.query@).len() > 0 {
                assert(list[a] == strs::trim(item.query@));
            }
        },
        None => {},
    }
    let list = legal::request_source(query, message, note);
    let b = if strs::trim(query).len() > 0 {
        1int
    } else {
        0
    };
    if strs::trim(message).len() > 0 {
        assert(list[b] == strs::trim(message));
    }
}

/// Of a record its summary, its person and its place are looked at, and every part of its summary
/// that is not blank.
pub proof fn records_are_searched_by_all_their_parts(r: RecordItem)
    ensures
        ({
            let list = legal::record_source(r);
            let place = labels::place_label(r);
            &&& strs::trim(r.summary@).len() > 0 ==> list.contains(strs::trim(r.summary@))
            &&& strs::trim(labels::main_actor_label(r)).len() > 0 ==> list.contains(
                labels::main_actor_label(r),
            )
            &&& strs::trim(place).len() > 0 && place != "장소 미상"@ ==> list.contains(place)
            &&& r.summary_parts matches Some(p) ==> {
                &&& strs::trim(p.background@).len() > 0 ==> list.contains(strs::trim(p.background@))
                &&& strs::trim(p.teacher_actions@).len() > 0 ==> list.contains(
                    strs::trim(p.teacher_actions@),
                )
                &&& strs::trim(p.issues@).len() > 0 ==> list.contains(strs::trim(p.issues@))
                &&& strs::trim(p.evidence_list@).len() > 0 ==> list.contains(
                    strs::trim(p.evidence_list@),
                )
                &&& strs::trim(p.other@).len() > 0 ==> list.contains(strs::trim(p.other@))
            }
        }),
{
    let list = legal::record_source(r);
    let place = labels::place_label(r);
    let actor = labels::main_actor_label(r);
    let a = if strs::trim(r.summary@).len() > 0 {
        1int
    } else {
        0
    };
    let b = if strs::trim(actor).len() > 0 {
        a + 1
    } else {
        a
    };
    let c = if strs::trim(place).len() > 0 && place != "장소 미상"@ {
        b + 1
    } else {
        b
    };
    if strs::trim(r.summary@).len() > 0 {
        assert(list[0] == strs::trim(r.summary@));
    }
    if strs::trim(actor).len() > 0 {
        assert(list[a] == actor);
    }
    if strs::trim(place).len() > 0 && place != "장소 미상"@ {
        assert(list[b] == place);
    }
    match r.summary_parts {
        Some(p) => {
            let fields = seq![
                strs::trim(p.background@),
                strs::trim(p.teacher_actions@),
                strs::trim(p.issues@),
                strs::trim(p.evidence_list@),
                strs::trim(p.other@),
            ];
            let kept = strs::filled(fields);
            let q = |s: Seq<char>| s.len() > 0;
            assert forall|k: int| 0 <= k < 5 && (#[trigger] fields[k]).len() > 0 implies list.contains(
                fields[k],
            ) by {
                assert(fields.contains(fields[k]));
                lists::keeping_keeps_what_is_accepted(fields, q, fields[k]);
                let i = choose|i: int| 0 <= i < kept.len() && kept[i] == fields[k];
                assert(list[c + i] == fields[k]);
            }
            assert(fields[0] == strs::trim(p.background@));
            assert(fields[1] == strs::trim(p.teacher_actions@));
            assert(fields[2] == strs::trim(p.issues@));
            assert(fields[3] == strs::trim(p.evidence_list@));
            assert(fields[4] == strs::trim(p.other@));
        },
        None => {},
    }
}

/// Records are searched for by the message first, then by the title, the question and the people
/// of the case, and by the note unless it says that there is none; at most 340 characters.
pub proof fn records_are_searched_by_what_was_said(
    c: Option<CaseItem>,
    message: Seq<char>,
    note: Option<Seq<char>>,
)
    ensures
        ({
            let parts = labels::retrieval_parts(c, message, note);
            &&& strs::trim(message).len() > 0 ==> parts.len() > 0 && parts[0] == strs::trim(message)
            &&& c matches Some(item) ==> {
                &&& strs::trim(item.title@).len() > 0 ==> parts.contains(strs::trim(item.title@))
                &&& strs::trim(item.query@).len() > 0 ==> parts.contains(strs::trim(item.query@))
            }
            &&& note matches Some(n) ==> (strs::trim(n).len() > 0 && strs::first(strs::trim(n), 180)
                != "없음"@ ==> parts.last() == strs::first(strs::trim(n), 180))
            &&& labels::retrieval_query(c, message, note).len() <= 340
        }),
{
    let parts = labels::retrieval_parts(c, message, note);
    let a = if strs::trim(message).len() > 0 {
        1int
    } else {
        0
    };
    match c {
        Some(item) => {
            let b = if strs::trim(item.title@).len() > 0 {
                a + 1
            } else {
                a
            };
            if strs::trim(item.title@).len() > 0 {
                assert(parts[a] == strs::trim(item.title@));
            }
            if strs::trim(item.query@).len() > 0 {
                assert(parts[b] == strs::trim(item.query@));
            }
        },
        None => {},
    }
}

} // verus!
