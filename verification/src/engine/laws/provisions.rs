//! What holds of the provisions that are shown for a text.

use crate::engine::legal;
use crate::engine::legal::{
    Candidate, LegalCandidate, LegalCorpus, LegalScore, StrategyLegalFlatChunk,
    StrategyLegalLawRecord,
};
use crate::engine::normalize;
use crate::engine::packet::LegalRef;
use crate::lists;
use crate::sorting;
use crate::sorting::Ordered;
use crate::strs;
use crate::text;
use vstd::prelude::*;

verus! {

/// The piece is a provision: its kind is blank or says so, in upper or lower case.
pub open spec fn says_article(chunk: StrategyLegalFlatChunk) -> bool {
    strs::trim(chunk.chunk_type@).len() == 0 || strs::ascii_lower(strs::trim(chunk.chunk_type@))
        == "article"@
}

/// The provision may be shown: it names its law, and reaches the threshold or has two reasons.
pub open spec fn may_be_shown(
    corpus: LegalCorpus,
    text: Seq<char>,
    scores: Seq<LegalScore>,
    i: int,
) -> bool {
    &&& 0 <= i < corpus.chunks@.len()
    &&& says_article(corpus.chunks@[i])
    &&& strs::trim(corpus.chunks@[i].record_id@).len() > 0
    &&& scores[i].passes || legal::signals_at(
        corpus,
        normalize::normal(text),
        legal::query_terms(text, corpus.concepts@),
        i,
    ).reasons.len() >= 2
}

/// The provision at `i` has a better place than the one at `j`: by score, the highest first, then
/// by the name of the law, then by the number of the article.
pub open spec fn goes_before(corpus: LegalCorpus, scores: Seq<LegalScore>, i: int, j: int) -> bool {
    let a = corpus.chunks@[i];
    let b = corpus.chunks@[j];
    let by_number = a.article_no@ == b.article_no@ || strs::before(a.article_no@, b.article_no@);
    ||| scores[i].key > scores[j].key
    ||| scores[i].key == scores[j].key && strs::before(a.official_name@, b.official_name@)
    ||| scores[i].key == scores[j].key && a.official_name@ == b.official_name@ && by_number
}

/// The two pieces are of one law.
pub open spec fn of_one_law(corpus: LegalCorpus, i: int, j: int) -> bool {
    strs::trim(corpus.chunks@[i].record_id@) == strs::trim(corpus.chunks@[j].record_id@)
}

/// Two of these provisions are of the law of the one at `i` and have better places.
pub open spec fn two_go_before(
    corpus: LegalCorpus,
    scores: Seq<LegalScore>,
    picked: Seq<int>,
    i: int,
) -> bool {
    exists|a: int, b: int|
        0 <= a < b < picked.len() && of_one_law(corpus, #[trigger] picked[a], i) && of_one_law(
            corpus,
            #[trigger] picked[b],
            i,
        ) && goes_before(corpus, scores, picked[a], i) && goes_before(corpus, scores, picked[b], i)
}

/// Four provisions are picked, and all have better places than the one at `i`.
pub open spec fn four_go_before(
    corpus: LegalCorpus,
    scores: Seq<LegalScore>,
    picked: Seq<int>,
    i: int,
) -> bool {
    picked.len() == 4 && forall|a: int|
        0 <= a < 4 ==> goes_before(corpus, scores, #[trigger] picked[a], i)
}

/// What is shown of a provision is its own: each field is the trimmed field of that name.
pub open spec fn shows_the_article(l: LegalRef, chunk: StrategyLegalFlatChunk) -> bool {
    &&& l.law_id == strs::trim(chunk.record_id@)
    &&& l.article_ref == strs::trim(chunk.article_no@)
    &&& l.article_title == strs::trim(chunk.article_title@)
    &&& l.legal_point == strs::trim(chunk.legal_point@)
    &&& l.teacher_use_case == strs::trim(chunk.teacher_use_case@)
}

/// The law has this id.
pub open spec fn has_law_id(law: StrategyLegalLawRecord, id: Seq<char>) -> bool {
    strs::trim(law.record_id@) == id
}

/// What is shown of the law is that of the last law with its id, and that of the provision where
/// no law has it.
pub open spec fn shows_the_law(l: LegalRef, corpus: LegalCorpus, chunk: StrategyLegalFlatChunk) -> bool {
    let laws = corpus.laws@;
    &&& forall|m: int|
        #![trigger laws[m]]
        0 <= m < laws.len() && has_law_id(laws[m], l.law_id) && (forall|n: int|
            m < n < laws.len() ==> !has_law_id(#[trigger] laws[n], l.law_id)) ==> {
            &&& l.law_name == strs::trim(laws[m].official_name@)
            &&& l.short_name == strs::trim(laws[m].short_name@)
            &&& l.source_url == strs::trim(laws[m].source_url@)
            &&& l.status_label == strs::trim(laws[m].current_status_label@)
        }
    &&& (forall|m: int| 0 <= m < laws.len() ==> !has_law_id(#[trigger] laws[m], l.law_id)) ==> {
        &&& l.law_name == strs::trim(chunk.official_name@)
        &&& l.short_name == strs::trim(chunk.short_name@)
        &&& l.source_url == strs::trim(chunk.source_url@)
        &&& l.status_label == strs::trim(chunk.current_status_label@)
    }
}

proof fn lemma_law_of(laws: Seq<StrategyLegalLawRecord>, id: Seq<char>)
    requires
        id.len() > 0,
    ensures
        match legal::law_of(laws, id) {
            Some(law) => exists|m: int|
                0 <= m < laws.len() && #[trigger] laws[m] == law && has_law_id(laws[m], id) && (
                forall|n: int| m < n < laws.len() ==> !has_law_id(#[trigger] laws[n], id)),
            None => forall|m: int| 0 <= m < laws.len() ==> !has_law_id(#[trigger] laws[m], id),
        },
    decreases laws.len(),
{
    if laws.len() > 0 {
        let t = laws.drop_last();
        if has_law_id(laws.last(), id) {
            assert(laws[laws.len() - 1] == laws.last());
        } else {
            lemma_law_of(t, id);
            match legal::law_of(t, id) {
                Some(law) => {
                    let m = choose|m: int|
                        0 <= m < t.len() && #[trigger] t[m] == law && has_law_id(t[m], id) && (
                        forall|n: int| m < n < t.len() ==> !has_law_id(#[trigger] t[n], id));
                    assert(laws[m] == law);
                    assert forall|n: int| m < n < laws.len() implies !has_law_id(
                        #[trigger] laws[n],
                        id,
                    ) by {
                        if n < t.len() {
                            assert(laws[n] == t[n]);
                        }
                    }
                },
                None => {
                    assert forall|m: int| 0 <= m < laws.len() implies !has_law_id(
                        #[trigger] laws[m],
                        id,
                    ) by {
                        if m < t.len() {
                            assert(laws[m] == t[m]);
                        }
                    }
                },
            }
        }
    }
}

proof fn lemma_candidate_order()
    ensures
        sorting::weak_order::<LegalCandidate>(),
{
    assert forall|a: Candidate, b: Candidate, c: Candidate|
        #[trigger] LegalCandidate::after(a, b) && #[trigger] LegalCandidate::after(
            b,
            c,
        ) implies LegalCandidate::after(a, c) by {
        text::lemma_before_is_total_order(c.official_name, b.official_name, a.official_name);
        text::lemma_before_is_total_order(c.article_no, b.article_no, a.article_no);
    }
    assert forall|a: Candidate, b: Candidate, c: Candidate| LegalCandidate::after(
        a,
        c,
    ) implies #[trigger] LegalCandidate::after(a, b) || #[trigger] LegalCandidate::after(b, c) by {
        text::lemma_before_is_total_order(c.official_name, b.official_name, a.official_name);
        text::lemma_before_is_total_order(c.official_name, a.official_name, b.official_name);
        text::lemma_before_is_total_order(b.official_name, c.official_name, a.official_name);
        text::lemma_before_is_total_order(b.official_name, a.official_name, c.official_name);
        text::lemma_before_is_total_order(c.article_no, b.article_no, a.article_no);
        text::lemma_before_is_total_order(c.article_no, a.article_no, b.article_no);
        text::lemma_before_is_total_order(b.article_no, c.article_no, a.article_no);
        text::lemma_before_is_total_order(b.article_no, a.article_no, c.article_no);
    }
    assert forall|a: Candidate| !#[trigger] LegalCandidate::after(a, a) by {
        text::lemma_before_is_total_order(a.official_name, a.official_name, a.official_name);
        text::lemma_before_is_total_order(a.article_no, a.article_no, a.article_no);
    }
}

/// The candidate of the provision at `i`.
spec fn candidate_at(corpus: LegalCorpus, scores: Seq<LegalScore>, i: int) -> Candidate {
    Candidate {
        chunk: i,
        key: scores[i].key as int,
        official_name: corpus.chunks@[i].official_name@,
        article_no: corpus.chunks@[i].article_no@,
    }
}

spec fn is_candidate(
    corpus: LegalCorpus,
    source: Seq<char>,
    terms: Seq<Seq<char>>,
    scores: Seq<LegalScore>,
    i: int,
) -> bool {
    legal::is_article(corpus.chunks@[i]) && (scores[i].passes || legal::signals_at(
        corpus,
        source,
        terms,
        i,
    ).reasons.len() >= 2)
}

proof fn lemma_candidates(
    corpus: LegalCorpus,
    source: Seq<char>,
    terms: Seq<Seq<char>>,
    scores: Seq<LegalScore>,
    n: nat,
)
    ensures
        ({
            let all = legal::candidates(corpus, source, terms, scores, n);
            &&& forall|j: int|
                0 <= j < all.len() ==> {
                    let x = #[trigger] all[j];
                    &&& 0 <= x.chunk < n
                    &&& is_candidate(corpus, source, terms, scores, x.chunk)
                    &&& x == candidate_at(corpus, scores, x.chunk)
                }
            &&& forall|i: int, j: int|
                0 <= i < j < all.len() ==> (#[trigger] all[i]).chunk < (#[trigger] all[j]).chunk
            &&& forall|i: int|
                0 <= i < n && is_candidate(corpus, source, terms, scores, i) ==> all.contains(
                    #[trigger] candidate_at(corpus, scores, i),
                )
        }),
    decreases n,
{
    if n > 0 {
        let m = (n - 1) as nat;
        lemma_candidates(corpus, source, terms, scores, m);
        let head = legal::candidates(corpus, source, terms, scores, m);
        let all = legal::candidates(corpus, source, terms, scores, n);
        assert forall|j: int| 0 <= j < all.len() implies {
            let x = #[trigger] all[j];
            &&& 0 <= x.chunk < n
            &&& is_candidate(corpus, source, terms, scores, x.chunk)
            &&& x == candidate_at(corpus, scores, x.chunk)
        } by {
            if j < head.len() {
                assert(all[j] == head[j]);
            }
        }
        assert forall|i: int, j: int| 0 <= i < j < all.len() implies (#[trigger] all[i]).chunk < (
        #[trigger] all[j]).chunk by {
            assert(all[i] == head[i]);
            if j < head.len() {
                assert(all[j] == head[j]);
            }
        }
        assert forall|i: int|
            0 <= i < n && is_candidate(corpus, source, terms, scores, i) implies all.contains(
            #[trigger] candidate_at(corpus, scores, i),
        ) by {
            let x = candidate_at(corpus, scores, i);
            if i < m {
                assert(head.contains(x));
                let k = choose|k: int| 0 <= k < head.len() && head[k] == x;
                assert(all[k] == x);
            } else {
                assert(all[head.len() as int] == x);
            }
        }
    }
}

proof fn lemma_sorted_candidates(s: Seq<Candidate>, t: Seq<Candidate>)
    requires
        s.to_multiset() == t.to_multiset(),
        forall|i: int, j: int|
            0 <= i < j < s.len() ==> (#[trigger] s[i]).chunk < (#[trigger] s[j]).chunk,
    ensures
        forall|i: int, j: int| 0 <= i < j < t.len() ==> #[trigger] t[i] != #[trigger] t[j],
        forall|x: Candidate| #[trigger] s.contains(x) <==> t.contains(x),
{
    broadcast use vstd::seq_lib::group_to_multiset_ensures;

    assert(s.no_duplicates());
    s.lemma_multiset_has_no_duplicates();
    t.lemma_multiset_has_no_duplicates_conv();
    assert forall|x: Candidate| #[trigger] s.contains(x) <==> t.contains(x) by {
        assert(s.to_multiset().contains(x) <==> s.contains(x));
        assert(t.to_multiset().contains(x) <==> t.contains(x));
    }
}

/// The places of a list that are chosen: why another one is not.
spec fn is_passed_over(corpus: LegalCorpus, list: Seq<Candidate>, pos: Seq<int>, p: int) -> bool {
    ||| legal::law_id_at(corpus, list[p].chunk).len() == 0
    ||| pos.len() == 4 && pos[3] < p
    ||| exists|a: int, b: int|
        0 <= a < b < pos.len() && pos[b] < p && of_one_law(
            corpus,
            list[#[trigger] pos[a]].chunk,
            list[p].chunk,
        ) && of_one_law(corpus, list[#[trigger] pos[b]].chunk, list[p].chunk)
}

proof fn lemma_chosen(corpus: LegalCorpus, list: Seq<Candidate>) -> (pos: Seq<int>)
    ensures
        pos.len() == legal::chosen(corpus, list).len() <= 4,
        forall|k: int|
            0 <= k < pos.len() ==> 0 <= (#[trigger] pos[k]) < list.len() && legal::chosen(
                corpus,
                list,
            )[k] == list[pos[k]].chunk && legal::law_id_at(corpus, list[pos[k]].chunk).len() > 0,
        forall|i: int, j: int| 0 <= i < j < pos.len() ==> #[trigger] pos[i] < #[trigger] pos[j],
        forall|p: int|
            0 <= p < list.len() ==> pos.contains(p) || #[trigger] is_passed_over(
                corpus,
                list,
                pos,
                p,
            ),
        forall|a: int, b: int, d: int|
            0 <= a < b < d < pos.len() ==> !(of_one_law(
                corpus,
                list[#[trigger] pos[a]].chunk,
                list[#[trigger] pos[d]].chunk,
            ) && of_one_law(corpus, list[#[trigger] pos[b]].chunk, list[pos[d]].chunk)),
    decreases list.len(),
{
    if list.len() == 0 {
        Seq::empty()
    } else {
        let t = list.drop_last();
        let last = list.len() - 1;
        let before = lemma_chosen(corpus, t);
        let head = legal::chosen(corpus, t);
        let i = list.last().chunk;
        let id = legal::law_id_at(corpus, i);
        let p = |j: int| legal::law_id_at(corpus, j) == id;
        lists::counting_two_finds_two(head, p);
        let skip = head.len() >= 4 || id.len() == 0 || strs::count(head, p) >= 2;
        let pos = if skip {
            before
        } else {
            before.push(last)
        };
        assert forall|k: int| 0 <= k < before.len() implies t[#[trigger] before[k]]
            == list[before[k]] by {}
        assert forall|q: int| 0 <= q < list.len() implies pos.contains(q) || #[trigger] is_passed_over(
            corpus,
            list,
            pos,
            q,
        ) by {
            if q < last {
                if before.contains(q) {
                    let k = choose|k: int| 0 <= k < before.len() && before[k] == q;
                    assert(pos[k] == q);
                } else {
                    assert(is_passed_over(corpus, t, before, q));
                    if legal::law_id_at(corpus, t[q].chunk).len() > 0 && !(before.len() == 4
                        && before[3] < q) {
                        let (a, b) = choose|a: int, b: int|
                            0 <= a < b < before.len() && before[b] < q && of_one_law(
                                corpus,
                                t[#[trigger] before[a]].chunk,
                                t[q].chunk,
                            ) && of_one_law(corpus, t[#[trigger] before[b]].chunk, t[q].chunk);
                        assert(pos[a] == before[a] && pos[b] == before[b]);
                    }
                }
            } else if skip {
                if head.len() >= 4 {
                    assert(before[3] < last);
                } else if id.len() > 0 {
                    assert(lists::two_are_accepted(head, p));
                    let (a, b) = choose|a: int, b: int|
                        0 <= a < b < head.len() && p(#[trigger] head[a]) && p(#[trigger] head[b]);
                    assert(head[a] == list[pos[a]].chunk && head[b] == list[pos[b]].chunk);
                    assert(of_one_law(corpus, list[pos[a]].chunk, list[q].chunk));
                    assert(of_one_law(corpus, list[pos[b]].chunk, list[q].chunk));
                    assert(pos[b] < q);
                }
            } else {
                assert(pos[before.len() as int] == q);
            }
        }
        assert forall|a: int, b: int, d: int| 0 <= a < b < d < pos.len() implies !(of_one_law(
            corpus,
            list[#[trigger] pos[a]].chunk,
            list[#[trigger] pos[d]].chunk,
        ) && of_one_law(corpus, list[#[trigger] pos[b]].chunk, list[pos[d]].chunk)) by {
            assert(pos[a] == before[a] && pos[b] == before[b]);
            if d < before.len() {
                assert(pos[d] == before[d]);
                assert(!(of_one_law(corpus, t[before[a]].chunk, t[before[d]].chunk) && of_one_law(
                    corpus,
                    t[before[b]].chunk,
                    t[before[d]].chunk,
                )));
            } else if of_one_law(corpus, list[pos[a]].chunk, list[pos[d]].chunk) && of_one_law(
                corpus,
                list[pos[b]].chunk,
                list[pos[d]].chunk,
            ) {
                assert(p(head[a]) && p(head[b]));
                assert(lists::two_are_accepted(head, p));
            }
        }
        pos
    }
}

/// The provisions that are shown for a text, at most four: each stands for one article of the
/// corpus that may be shown, with the fields of that article and of its law, under the numbers L1
/// to L4. No article is shown twice, no law more than twice, and they stand in order. An article
/// that may be shown is shown, unless four others go before it, or two of its own law.
pub proof fn the_best_provisions_are_shown(
    corpus: LegalCorpus,
    text: Seq<char>,
    scores: Seq<LegalScore>,
) -> (picked: Seq<int>)
    ensures
        ({
            let shown = legal::references(corpus, text, scores);
            &&& shown.len() == picked.len() <= 4
            &&& forall|k: int|
                0 <= k < picked.len() ==> {
                    let i = #[trigger] picked[k];
                    &&& may_be_shown(corpus, text, scores, i)
                    &&& shown[k].ref_id == "L"@ + strs::decimal((k + 1) as nat)
                    &&& shows_the_article(shown[k], corpus.chunks@[i])
                    &&& shows_the_law(shown[k], corpus, corpus.chunks@[i])
                }
            &&& forall|a: int, b: int|
                0 <= a < b < picked.len() ==> #[trigger] picked[a] != #[trigger] picked[b]
                    && goes_before(corpus, scores, picked[a], picked[b])
            &&& forall|a: int, b: int, d: int|
                0 <= a < b < d < picked.len() ==> !(of_one_law(
                    corpus,
                    #[trigger] picked[a],
                    #[trigger] picked[d],
                ) && of_one_law(corpus, #[trigger] picked[b], picked[d]))
            &&& forall|i: int| #[trigger]
                may_be_shown(corpus, text, scores, i) ==> picked.contains(i) || four_go_before(
                    corpus,
                    scores,
                    picked,
                    i,
                ) || two_go_before(corpus, scores, picked, i)
        }),
{
    let source = normalize::normal(text);
    let terms = legal::query_terms(text, corpus.concepts@);
    let n = corpus.chunks@.len();
    let found = legal::candidates(corpus, source, terms, scores, n);
    let list = sorting::sorted::<LegalCandidate>(found);
    lemma_candidate_order();
    sorting::sorting_permutes_into_order::<LegalCandidate>(found);
    lemma_candidates(corpus, source, terms, scores, n);
    lemma_sorted_candidates(found, list);
    let pos = lemma_chosen(corpus, list);
    let picked = legal::chosen(corpus, list);
    let shown = legal::references(corpus, text, scores);
    assert forall|p: int| 0 <= p < list.len() implies {
        let x = #[trigger] list[p];
        &&& 0 <= x.chunk < n
        &&& is_candidate(corpus, source, terms, scores, x.chunk)
        &&& x == candidate_at(corpus, scores, x.chunk)
    } by {
        assert(found.contains(list[p]));
    }
    assert forall|p: int, q: int| 0 <= p < q < list.len() implies goes_before(
        corpus,
        scores,
        (#[trigger] list[p]).chunk,
        (#[trigger] list[q]).chunk,
    ) && list[p].chunk != list[q].chunk by {
        let a = list[p];
        let b = list[q];
        assert(!LegalCandidate::after(a, b));
        text::lemma_before_is_total_order(a.official_name, b.official_name, a.official_name);
        text::lemma_before_is_total_order(a.article_no, b.article_no, a.article_no);
    }
    assert forall|k: int| 0 <= k < picked.len() implies {
        let i = #[trigger] picked[k];
        &&& may_be_shown(corpus, text, scores, i)
        &&& shown[k].ref_id == "L"@ + strs::decimal((k + 1) as nat)
        &&& shows_the_article(shown[k], corpus.chunks@[i])
        &&& shows_the_law(shown[k], corpus, corpus.chunks@[i])
    } by {
        let i = picked[k];
        assert(i == list[pos[k]].chunk);
        lemma_law_of(corpus.laws@, strs::trim(corpus.chunks@[i].record_id@));
        lemma_shows_law(corpus, source, terms, i, (k + 1) as nat);
    }
    assert forall|a: int, b: int| 0 <= a < b < picked.len() implies #[trigger] picked[a]
        != #[trigger] picked[b] && goes_before(corpus, scores, picked[a], picked[b]) by {
        assert(picked[a] == list[pos[a]].chunk && picked[b] == list[pos[b]].chunk);
    }
    assert forall|a: int, b: int, d: int| 0 <= a < b < d < picked.len() implies !(of_one_law(
        corpus,
        #[trigger] picked[a],
        #[trigger] picked[d],
    ) && of_one_law(corpus, #[trigger] picked[b], picked[d])) by {
        assert(picked[a] == list[pos[a]].chunk && picked[b] == list[pos[b]].chunk && picked[d]
            == list[pos[d]].chunk);
    }
    assert forall|i: int| #[trigger] may_be_shown(corpus, text, scores, i) implies picked.contains(
        i,
    ) || four_go_before(corpus, scores, picked, i) || two_go_before(corpus, scores, picked, i) by {
        let x = candidate_at(corpus, scores, i);
        assert(found.contains(x));
        assert(list.contains(x));
        let p = choose|p: int| 0 <= p < list.len() && list[p] == x;
        if pos.contains(p) {
            let k = choose|k: int| 0 <= k < pos.len() && pos[k] == p;
            assert(picked[k] == i);
        } else {
            assert(is_passed_over(corpus, list, pos, p));
            if pos.len() == 4 && pos[3] < p {
                assert forall|a: int| 0 <= a < 4 implies goes_before(
                    corpus,
                    scores,
                    #[trigger] picked[a],
                    i,
                ) by {
                    assert(picked[a] == list[pos[a]].chunk);
                    assert(pos[a] <= pos[3]);
                }
            } else {
                let (a, b) = choose|a: int, b: int|
                    0 <= a < b < pos.len() && pos[b] < p && of_one_law(
                        corpus,
                        list[#[trigger] pos[a]].chunk,
                        list[p].chunk,
                    ) && of_one_law(corpus, list[#[trigger] pos[b]].chunk, list[p].chunk);
                assert(picked[a] == list[pos[a]].chunk && picked[b] == list[pos[b]].chunk);
                assert(goes_before(corpus, scores, list[pos[a]].chunk, list[p].chunk));
            }
        }
    }
    picked
}

proof fn lemma_shows_law(
    corpus: LegalCorpus,
    source: Seq<char>,
    terms: Seq<Seq<char>>,
    i: int,
    number: nat,
)
    requires
        strs::trim(corpus.chunks@[i].record_id@).len() > 0,
    ensures
        shows_the_law(
            legal::reference_of(corpus, source, terms, i, number),
            corpus,
            corpus.chunks@[i],
        ),
{
    let laws = corpus.laws@;
    let id = strs::trim(corpus.chunks@[i].record_id@);
    let l = legal::reference_of(corpus, source, terms, i, number);
    lemma_law_of(laws, id);
    match legal::law_of(laws, id) {
        Some(law) => {
            let k = choose|m: int|
                0 <= m < laws.len() && #[trigger] laws[m] == law && has_law_id(laws[m], id) && (
                forall|n: int| m < n < laws.len() ==> !has_law_id(#[trigger] laws[n], id));
            assert forall|m: int|
                #![trigger laws[m]]
                0 <= m < laws.len() && has_law_id(laws[m], l.law_id) && (forall|n: int|
                    m < n < laws.len() ==> !has_law_id(#[trigger] laws[n], l.law_id)) implies {
                &&& l.law_name == strs::trim(laws[m].official_name@)
                &&& l.short_name == strs::trim(laws[m].short_name@)
                &&& l.source_url == strs::trim(laws[m].source_url@)
                &&& l.status_label == strs::trim(laws[m].current_status_label@)
            } by {
                if m < k {
                    assert(!has_law_id(laws[k], l.law_id));
                } else if k < m {
                    assert(!has_law_id(laws[m], id));
                }
            }
        },
        None => {},
    }
}

} // verus!
