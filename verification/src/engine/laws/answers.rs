//! What holds of the answers that are given.

use crate::engine::cleanup;
use crate::engine::packet::{
    StrategyEvidencePacket, StrategyEvidenceRecord, StrategyLegalReference,
};
use crate::engine::questions;
use crate::engine::questions::StrategyQuestionRoute;
use crate::engine::sanitize;
use crate::lists;
use crate::strs;
use crate::text;
use vstd::prelude::*;

verus! {

/// A text that holds a word holds one of several where the word is one of them.
proof fn lemma_any(s: Seq<char>, words: Seq<Seq<char>>, k: int)
    requires
        0 <= k < words.len(),
        strs::contains(s, words[k]),
    ensures
        strs::contains_any(s, words),
{
}

/// The message speaks of the law: of a law or a provision, of grounds or rules, of a punishment, a
/// charge or a report.
pub open spec fn speaks_of_law(message: Seq<char>) -> bool {
    let s = sanitize::compact(message);
    ||| strs::contains(s, "법"@)
    ||| strs::contains(s, "조문"@)
    ||| strs::contains(s, "근거"@)
    ||| strs::contains(s, "규정"@)
    ||| strs::contains(s, "처벌"@)
    ||| strs::contains(s, "고소"@)
    ||| strs::contains(s, "신고"@)
}

proof fn lemma_within(s: Seq<char>, whole: Seq<char>, part: Seq<char>, at: int)
    requires
        strs::contains(s, whole),
        strs::occurs_at(whole, part, at),
    ensures
        strs::contains(s, part),
{
    let i = choose|i: int| strs::occurs_at(s, whole, i);
    assert(s.subrange(i + at, i + at + part.len()) =~= whole.subrange(at, at + part.len()));
    assert(strs::occurs_at(s, part, i + at));
}

/// A message asks for the law exactly where it speaks of it.
pub proof fn asking_for_law_is_speaking_of_it(message: Seq<char>)
    ensures
        questions::asks_law(message) <==> speaks_of_law(message),
{
    let s = sanitize::compact(message);
    let words = seq![
        "법"@,
        "법적"@,
        "조문"@,
        "근거"@,
        "규정"@,
        "법령"@,
        "위법"@,
        "처벌"@,
        "고소"@,
        "신고"@,
    ];
    if speaks_of_law(message) {
        let k: int = if strs::contains(s, "법"@) {
            0
        } else if strs::contains(s, "조문"@) {
            2
        } else if strs::contains(s, "근거"@) {
            3
        } else if strs::contains(s, "규정"@) {
            4
        } else if strs::contains(s, "처벌"@) {
            7
        } else if strs::contains(s, "고소"@) {
            8
        } else {
            9
        };
        assert(strs::contains(s, words[k]));
        lemma_any(s, words, k);
    }
    if questions::asks_law(message) {
        let k = choose|k: int| 0 <= k < words.len() && strs::contains(s, #[trigger] words[k]);
        reveal_strlit("법");
        reveal_strlit("법적");
        reveal_strlit("법령");
        reveal_strlit("위법");
        if k == 1 {
            assert("법적"@.subrange(0, 1) =~= "법"@);
            lemma_within(s, "법적"@, "법"@, 0);
        } else if k == 5 {
            assert("법령"@.subrange(0, 1) =~= "법"@);
            lemma_within(s, "법령"@, "법"@, 0);
        } else if k == 6 {
            assert("위법"@.subrange(1, 2) =~= "법"@);
            lemma_within(s, "위법"@, "법"@, 1);
        }
    }
}

/// Where a message does not speak of the law, the finished answer is the same whatever provisions
/// were gathered for it.
pub proof fn provisions_are_added_only_where_law_is_asked_for(
    answer: Seq<char>,
    a: StrategyEvidencePacket,
    b: StrategyEvidencePacket,
    message: Seq<char>,
)
    requires
        !speaks_of_law(message),
        a.evidence_records@ == b.evidence_records@,
        strs::views(a.gaps@) == strs::views(b.gaps@),
    ensures
        cleanup::finished_answer(answer, a, message) == cleanup::finished_answer(
            answer,
            b,
            message,
        ),
{
    asking_for_law_is_speaking_of_it(message);
}

/// A record, as an answer names it: its number, its time, its person and its summary, each cut.
pub open spec fn names_record(s: Seq<char>, e: StrategyEvidenceRecord) -> bool {
    strs::contains(
        s,
        "["@ + e.ref_id@ + "] "@ + strs::first(strs::trim(e.ts@), 22) + " / "@ + strs::first(
            strs::trim(e.actor@),
            22,
        ) + " / "@ + strs::first(strs::trim(e.summary@), 54),
    )
}

/// A provision, as an answer names it: its number, its law by the short name where it has one, and
/// its article.
pub open spec fn names_provision(s: Seq<char>, l: StrategyLegalReference) -> bool {
    let short = strs::trim(l.short_name@);
    let law = if short.len() > 0 {
        short
    } else {
        strs::trim(l.law_name@)
    };
    let number = strs::trim(l.article_ref@);
    let title = strs::trim(l.article_title@);
    let article = if number.len() > 0 {
        strs::trim(number + " "@ + title)
    } else {
        title
    };
    strs::contains(
        s,
        "["@ + l.ref_id@ + "] "@ + strs::first(law, 18) + " "@ + strs::first(article, 28),
    )
}

/// What is added to an answer: the records, the provisions and the gaps.
#[verifier::ext_equal]
pub struct Additions {
    pub records: Seq<char>,
    pub provisions: Seq<char>,
    pub gaps: Seq<char>,
}

/// The answer names no record, and there are some.
pub open spec fn lacks_records(answer: Seq<char>, packet: StrategyEvidencePacket) -> bool {
    !strs::contains(answer, "[E"@) && packet.evidence_records@.len() > 0
}

/// The message speaks of the law, the answer names no provision, and there are some.
pub open spec fn lacks_provisions(
    answer: Seq<char>,
    packet: StrategyEvidencePacket,
    message: Seq<char>,
) -> bool {
    &&& speaks_of_law(message)
    &&& !strs::contains(answer, "[L"@)
    &&& packet.legal_references@.len() > 0
}

/// The answer does not say that anything is open, whatever spaces it has, and something is.
pub open spec fn lacks_gaps(answer: Seq<char>, packet: StrategyEvidencePacket) -> bool {
    let dense = strs::replace(answer, " "@, ""@);
    &&& packet.gaps@.len() > 0
    &&& !strs::contains(dense, "확인필요"@)
    &&& !strs::contains(dense, "비어있는정보"@)
    &&& !strs::contains(dense, "추가필요"@)
}

/// The items are named in a sentence between two texts.
proof fn lemma_named(items: Seq<Seq<char>>, before: Seq<char>, behind: Seq<char>, k: int)
    requires
        0 <= k < items.len(),
    ensures
        strs::contains(before + strs::join(items, ", "@) + behind, items[k]),
{
    let joined = strs::join(items, ", "@);
    let at = lists::joined_parts_stand_in_the_text(items, ", "@, k);
    let whole = before + joined + behind;
    let from = before.len() + at;
    assert(whole.subrange(from, from + items[k].len()) =~= joined.subrange(
        at,
        at + items[k].len(),
    ));
    assert(strs::occurs_at(whole, items[k], from));
}

proof fn lemma_trimmed_whole(own: Seq<char>, more: Seq<char>)
    requires
        own.len() > 0,
        !strs::is_space(own[0]),
        more.len() == 0 ==> !strs::is_space(own.last()),
        more.len() > 0 ==> !strs::is_space(more.last()),
    ensures
        strs::trim(own + more) == own + more,
{
    let whole = own + more;
    assert(whole[0] == own[0]);
    if more.len() > 0 {
        assert(whole.last() == more.last());
    } else {
        assert(whole =~= own);
    }
    text::lemma_trim_keeps(whole);
}

/// A finished answer is the answer, trimmed, with what it lacks behind it: two records where it
/// names none, two provisions where the message speaks of the law and it names none, two gaps
/// where it does not say that anything is open. An empty answer stays empty, and nothing is
/// longer than 5600 characters.
pub proof fn a_finished_answer_has_what_was_lacking(
    answer: Seq<char>,
    packet: StrategyEvidencePacket,
    message: Seq<char>,
) -> (more: Additions)
    requires
        strs::trim(answer).len() > 0,
    ensures
        ({
            let own = strs::trim(answer);
            let grounded = own + more.records;
            let lawful = grounded + more.provisions;
            let records = packet.evidence_records@;
            let laws = packet.legal_references@;
            let gaps = packet.gaps@;
            &&& cleanup::finished_answer(answer, packet, message) == strs::first(
                lawful + more.gaps,
                5600,
            )
            &&& more.records.len() > 0 <==> lacks_records(own, packet)
            &&& more.provisions.len() > 0 <==> lacks_provisions(grounded, packet, message)
            &&& more.gaps.len() > 0 <==> lacks_gaps(lawful, packet)
            &&& forall|k: int|
                0 <= k < records.len() && k < 2 && more.records.len() > 0 ==> names_record(
                    more.records,
                    #[trigger] records[k],
                )
            &&& forall|k: int|
                0 <= k < laws.len() && k < 2 && more.provisions.len() > 0 ==> names_provision(
                    more.provisions,
                    #[trigger] laws[k],
                )
            &&& forall|k: int|
                0 <= k < gaps.len() && k < 2 && more.gaps.len() > 0 ==> strs::contains(
                    more.gaps,
                    (#[trigger] gaps[k])@,
                )
        }),
{
    asking_for_law_is_speaking_of_it(message);
    let own = strs::trim(answer);
    text::lemma_trim(answer);
    let records = packet.evidence_records@;
    let laws = packet.legal_references@;
    let gaps = packet.gaps@;
    reveal_strlit("\n\n참고로 지금 판단의 중심 근거는 ");
    reveal_strlit(" 정도예요.");
    reveal_strlit("\n\n관련 법령으로는 ");
    reveal_strlit(" 정도가 함께 연결돼요.");
    reveal_strlit("\n\n추가로 ");
    reveal_strlit(" 부분은 아직 확실하지 않아 확인이 더 필요해요.");
    let named_records = strs::head(records, 2).map_values(
        |e: StrategyEvidenceRecord| cleanup::evidence_ref(e),
    );
    let a1 = "\n\n참고로 지금 판단의 중심 근거는 "@ + strs::join(named_records, ", "@)
        + " 정도예요."@;
    let e = if lacks_records(own, packet) {
        a1
    } else {
        Seq::empty()
    };
    let grounded = own + e;
    assert(cleanup::with_evidence(own, records) =~= grounded);
    let named_laws = strs::head(laws, 2).map_values(
        |l: StrategyLegalReference| cleanup::law_ref(l),
    );
    let refs = strs::join(named_laws, ", "@);
    let a2 = "\n\n관련 법령으로는 "@ + refs + " 정도가 함께 연결돼요."@;
    let l = if lacks_provisions(grounded, packet, message) {
        a2
    } else {
        Seq::empty()
    };
    if laws.len() > 0 {
        lemma_refs_are_not_blank(named_laws, laws[0]);
    }
    let lawful = grounded + l;
    assert(cleanup::with_laws(grounded, laws, message) =~= lawful);
    let named_gaps = strs::head(strs::views(gaps), 2);
    let a3 = "\n\n추가로 "@ + strs::join(named_gaps, ", "@)
        + " 부분은 아직 확실하지 않아 확인이 더 필요해요."@;
    let g = if lacks_gaps(lawful, packet) {
        a3
    } else {
        Seq::empty()
    };
    let whole = lawful + g;
    assert(cleanup::with_gaps(lawful, strs::views(gaps)) =~= whole);
    let rest = e + l + g;
    assert(whole =~= own + rest);
    assert(a1.last() == '.' && a2.last() == '.' && a3.last() == '.');
    if g.len() > 0 {
        assert(rest.last() == g.last());
    } else if l.len() > 0 {
        assert(rest.last() == l.last());
    } else if e.len() > 0 {
        assert(rest.last() == e.last());
    }
    lemma_trimmed_whole(own, rest);
    assert forall|k: int| 0 <= k < records.len() && k < 2 && e.len() > 0 implies names_record(
        e,
        #[trigger] records[k],
    ) by {
        assert(named_records[k] == cleanup::evidence_ref(records[k]));
        lemma_named(named_records, "\n\n참고로 지금 판단의 중심 근거는 "@, " 정도예요."@, k);
    }
    assert forall|k: int| 0 <= k < laws.len() && k < 2 && l.len() > 0 implies names_provision(
        l,
        #[trigger] laws[k],
    ) by {
        assert(named_laws[k] == cleanup::law_ref(laws[k]));
        lemma_named(named_laws, "\n\n관련 법령으로는 "@, " 정도가 함께 연결돼요."@, k);
    }
    assert forall|k: int| 0 <= k < gaps.len() && k < 2 && g.len() > 0 implies strs::contains(
        g,
        (#[trigger] gaps[k])@,
    ) by {
        assert(named_gaps[k] == gaps[k]@);
        lemma_named(
            named_gaps,
            "\n\n추가로 "@,
            " 부분은 아직 확실하지 않아 확인이 더 필요해요."@,
            k,
        );
    }
    Additions { records: e, provisions: l, gaps: g }
}

/// An empty answer stays empty.
pub proof fn an_empty_answer_stays_empty(
    answer: Seq<char>,
    packet: StrategyEvidencePacket,
    message: Seq<char>,
)
    requires
        strs::trim(answer).len() == 0,
    ensures
        cleanup::finished_answer(answer, packet, message).len() == 0,
{
}

proof fn lemma_refs_are_not_blank(refs: Seq<Seq<char>>, l: StrategyLegalReference)
    requires
        refs.len() > 0,
        refs[0] == cleanup::law_ref(l),
    ensures
        strs::trim(strs::join(refs, ", "@)).len() > 0,
{
    reveal_strlit("[");
    let joined = strs::join(refs, ", "@);
    let at = lists::joined_parts_stand_in_the_text(refs, ", "@, 0);
    assert(refs[0][0] == '[');
    assert(joined.subrange(0, refs[0].len() as int)[0] == joined[0]);
    assert(joined[0] == '[');
    let p = |c: char| strs::is_space(c);
    assert(!p(joined[0]));
    assert(strs::trim_start(joined) == joined);
    text::lemma_trim_end_where(joined, p);
    if strs::trim(joined).len() == 0 {
        lemma_only_space(joined);
    }
}

/// A text of which trimming at the end leaves nothing begins with white space.
proof fn lemma_only_space(s: Seq<char>)
    requires
        s.len() > 0,
        strs::trim_end(s).len() == 0,
    ensures
        strs::is_space(s[0]),
    decreases s.len(),
{
    if s.len() > 1 {
        lemma_only_space(s.drop_last());
    }
}

/// Who is to blame is asked for by these words.
pub open spec fn speaks_of_blame(message: Seq<char>) -> bool {
    let s = sanitize::compact(message);
    ||| strs::contains(s, "누가가장문제"@)
    ||| strs::contains(s, "누가더문제"@)
    ||| strs::contains(s, "누가문제"@)
    ||| strs::contains(s, "누가더잘못"@)
    ||| strs::contains(s, "누가잘못"@)
    ||| strs::contains(s, "누가더책임"@)
    ||| strs::contains(s, "책임은누구"@)
    ||| strs::contains(s, "가해자"@)
    ||| strs::contains(s, "a의잘못"@)
    ||| strs::contains(s, "b의잘못"@)
    ||| strs::contains(s, "비하면어떰"@)
    ||| strs::contains(s, "비하면어때"@)
}

/// Words to send are asked for by these words.
pub open spec fn speaks_of_wording(message: Seq<char>) -> bool {
    let s = sanitize::compact(message);
    ||| strs::contains(s, "뭐라고말"@)
    ||| strs::contains(s, "어떻게말"@)
    ||| strs::contains(s, "어떻게정리"@)
    ||| strs::contains(s, "답장"@)
    ||| strs::contains(s, "문자"@)
    ||| strs::contains(s, "보낼지"@)
    ||| strs::contains(s, "써줘"@)
}

/// Small talk is told by these words.
pub open spec fn speaks_of_nothing(message: Seq<char>) -> bool {
    let s = sanitize::compact(message);
    ||| strs::contains(s, "안녕"@)
    ||| strs::contains(s, "반가워"@)
    ||| strs::contains(s, "고마워"@)
    ||| strs::contains(s, "감사"@)
    ||| strs::contains(s, "오케이"@)
    ||| strs::contains(s, "확인"@)
    ||| strs::contains(s, "좋아"@)
}

/// A question of blame gets the hint on comparing, also where it asks for words to send; a request
/// for words gets the hint on wording, and another message none. Small talk of at most twelve
/// characters goes to the fast model alone, and everything else to both.
pub proof fn a_message_is_answered_as_it_asks(message: Seq<char>)
    ensures
        questions::asks_comparison(message) <==> speaks_of_blame(message),
        questions::asks_wording(message) <==> speaks_of_wording(message),
        speaks_of_blame(message) ==> questions::focus_hint(message) == Some(
            questions::COMPARISON_HINT@,
        ),
        !speaks_of_blame(message) && speaks_of_wording(message) ==> questions::focus_hint(message)
            == Some(questions::WORDING_HINT@),
        !speaks_of_blame(message) && !speaks_of_wording(message) ==> questions::focus_hint(
            message,
        ) is None,
        questions::route_of(message) == StrategyQuestionRoute::FastRoosy <==> (speaks_of_nothing(
            message,
        ) && sanitize::compact(message).len() <= 12),
{
    let s = sanitize::compact(message);
    let blame = seq![
        "누가가장문제"@,
        "누가더문제"@,
        "누가문제"@,
        "누가더잘못"@,
        "누가잘못"@,
        "누가더책임"@,
        "책임은누구"@,
        "가해자"@,
        "a의잘못"@,
        "b의잘못"@,
        "비하면어떰"@,
        "비하면어때"@,
    ];
    let wording = seq!["뭐라고말"@, "어떻게말"@, "어떻게정리"@, "답장"@, "문자"@, "보낼지"@, "써줘"@];
    let talk = seq!["안녕"@, "반가워"@, "고마워"@, "감사"@, "오케이"@, "확인"@, "좋아"@];
    assert(blame[0] == "누가가장문제"@ && blame[1] == "누가더문제"@ && blame[2] == "누가문제"@);
    assert(blame[3] == "누가더잘못"@ && blame[4] == "누가잘못"@ && blame[5] == "누가더책임"@);
    assert(blame[6] == "책임은누구"@ && blame[7] == "가해자"@ && blame[8] == "a의잘못"@);
    assert(blame[9] == "b의잘못"@ && blame[10] == "비하면어떰"@ && blame[11] == "비하면어때"@);
    assert(wording[0] == "뭐라고말"@ && wording[1] == "어떻게말"@ && wording[2] == "어떻게정리"@);
    assert(wording[3] == "답장"@ && wording[4] == "문자"@ && wording[5] == "보낼지"@);
    assert(wording[6] == "써줘"@);
    assert(talk[0] == "안녕"@ && talk[1] == "반가워"@ && talk[2] == "고마워"@ && talk[3] == "감사"@);
    assert(talk[4] == "오케이"@ && talk[5] == "확인"@ && talk[6] == "좋아"@);
}

} // verus!
