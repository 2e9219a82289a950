//! What holds of what is found: an object in a text, a time in a span, a text said twice, what a
//! server answers.

use crate::engine::chat;
use crate::engine::chat::{ChatFlow, Ending};
use crate::engine::endpoints;
use crate::engine::endpoints::ProbeReply;
use crate::engine::execution;
use crate::engine::legal;
use crate::engine::normalize;
use crate::engine::packet::StrategyLegalReference;
use crate::engine::perf::StrategyStageCachePerf;
use crate::engine::record_answer;
use crate::engine::records::{CaseItem, RecordItem};
use crate::engine::sanitize;
use crate::engine::structured;
use crate::engine::structured::Scan;
use crate::engine::template;
use crate::lists;
use crate::strs;
use crate::text;
use crate::texts;
use vstd::prelude::*;

verus! {

/// The text has neither braces nor quotes.
pub open spec fn is_plain(s: Seq<char>) -> bool {
    forall|i: int|
        0 <= i < s.len() ==> #[trigger] s[i] != '{' && s[i] != '}' && s[i] != '"'
}

proof fn lemma_pass(s: Seq<char>, i: int, j: int, scan: Scan)
    requires
        0 <= i <= j <= s.len(),
        is_plain(s.subrange(i, j)),
        !scan.quoted,
    ensures
        structured::object_from(s, i, scan) == structured::object_from(s, j, scan),
    decreases j - i,
{
    if i < j {
        assert(s.subrange(i, j)[0] == s[i]);
        assert forall|k: int| 0 <= k < s.subrange(i + 1, j).len() implies #[trigger] s.subrange(
            i + 1,
            j,
        )[k] != '{' && s.subrange(i + 1, j)[k] != '}' && s.subrange(i + 1, j)[k] != '"' by {
            assert(s.subrange(i + 1, j)[k] == s.subrange(i, j)[k + 1]);
        }
        lemma_pass(s, i + 1, j, scan);
    }
}

/// The first object of a text is found, whatever follows it; one that stands in it belongs to it,
/// and its brace does not end the outer one.
pub proof fn the_first_object_is_found(
    before: Seq<char>,
    x: Seq<char>,
    inner: Seq<char>,
    y: Seq<char>,
    after: Seq<char>,
)
    requires
        is_plain(before),
        is_plain(x),
        is_plain(inner),
        is_plain(y),
    ensures
        structured::object_from(
            before + seq!['{'] + x + seq!['}'] + after,
            0,
            structured::no_scan(),
        ) == Some((before.len() as int, (before.len() + x.len() + 2) as int)),
        structured::object_from(
            before + seq!['{'] + x + seq!['{'] + inner + seq!['}'] + y + seq!['}'] + after,
            0,
            structured::no_scan(),
        ) == Some((before.len() as int, (before.len() + x.len() + inner.len() + y.len() + 4) as int)),
{
    let none = structured::no_scan();
    let a = before.len() as int;
    let one = Scan { start: Some(a), depth: 1, ..none };
    let two = Scan { start: Some(a), depth: 2, ..none };

    let s = before + seq!['{'] + x + seq!['}'] + after;
    let b = a + 1 + x.len();
    assert(s.subrange(0, a) =~= before);
    assert(s.subrange(a + 1, b) =~= x);
    assert(s[a] == '{' && s[b] == '}');
    lemma_pass(s, 0, a, none);
    lemma_pass(s, a + 1, b, one);
    assert(structured::object_from(s, a, none) == structured::object_from(s, a + 1, one));

    let t = before + seq!['{'] + x + seq!['{'] + inner + seq!['}'] + y + seq!['}'] + after;
    let c = b + 1 + inner.len();
    let d = c + 1 + y.len();
    assert(t.subrange(0, a) =~= before);
    assert(t.subrange(a + 1, b) =~= x);
    assert(t.subrange(b + 1, c) =~= inner);
    assert(t.subrange(c + 1, d) =~= y);
    assert(t[a] == '{' && t[b] == '{' && t[c] == '}' && t[d] == '}');
    lemma_pass(t, 0, a, none);
    lemma_pass(t, a + 1, b, one);
    lemma_pass(t, b + 1, c, two);
    lemma_pass(t, c + 1, d, one);
    assert(structured::object_from(t, a, none) == structured::object_from(t, a + 1, one));
    assert(structured::object_from(t, b, one) == structured::object_from(t, b + 1, two));
    assert(structured::object_from(t, c, two) == structured::object_from(t, c + 1, one));
}

/// A span holds its ends; an end that is left open bounds nothing; and what comes before the first
/// or after the last is not in it.
pub proof fn a_span_holds_its_ends(ts: Seq<char>, from: Seq<char>, to: Seq<char>)
    ensures
        normalize::in_range(ts, ""@, ""@),
        normalize::in_range(ts, ts, ""@),
        normalize::in_range(ts, ""@, ts),
        normalize::in_range(ts, ts, ts),
        from.len() > 0 && strs::before(ts, from) ==> !normalize::in_range(ts, from, to),
        to.len() > 0 && strs::before(to, ts) ==> !normalize::in_range(ts, from, to),
        from.len() > 0 && to.len() > 0 ==> (normalize::in_range(ts, from, to) <==> (ts == from
            || strs::before(from, ts)) && (ts == to || strs::before(ts, to))),
{
    reveal_strlit("");
    text::lemma_before_is_total_order(ts, from, to);
    text::lemma_before_is_total_order(ts, to, from);
}

/// A text whose second half says the first again, word for word or but for its spaces, is left with
/// the first half; any other text is only trimmed.
pub proof fn what_is_said_twice_is_said_once(
    s: Seq<char>,
    once: Seq<Seq<char>>,
    again: Seq<Seq<char>>,
)
    requires
        record_answer::paragraphs(s) == once + again,
        once.len() == again.len(),
        once.len() > 0,
    ensures
        (forall|i: int|
            0 <= i < once.len() ==> sanitize::compact(#[trigger] once[i]) == sanitize::compact(
                again[i],
            )) ==> record_answer::without_repeated_half(s) == strs::join(once, "\n\n"@),
        once == again ==> record_answer::without_repeated_half(s) == strs::join(once, "\n\n"@),
        (exists|i: int|
            0 <= i < once.len() && sanitize::compact(#[trigger] once[i]) != sanitize::compact(
                again[i],
            )) ==> record_answer::without_repeated_half(s) == strs::trim(s),
{
    let list = once + again;
    let n = once.len() as int;
    assert(list.len() / 2 == n);
    assert(list.take(n) =~= once);
    if forall|i: int|
        0 <= i < once.len() ==> sanitize::compact(#[trigger] once[i]) == sanitize::compact(
            again[i],
        ) {
        assert forall|i: int| 0 <= i < list.len() / 2 implies sanitize::compact(#[trigger] list[i])
            == sanitize::compact(list[i + list.len() as int / 2]) by {
            assert(list[i] == once[i] && list[i + n] == again[i]);
        }
    }
    if exists|i: int|
        0 <= i < once.len() && sanitize::compact(#[trigger] once[i]) != sanitize::compact(
            again[i],
        ) {
        let i = choose|i: int|
            0 <= i < once.len() && sanitize::compact(#[trigger] once[i]) != sanitize::compact(
                again[i],
            );
        assert(list[i] == once[i] && list[i + n] == again[i]);
    }
}

/// A text of an odd number of paragraphs is not said twice.
pub proof fn an_odd_text_is_only_trimmed(s: Seq<char>)
    requires
        record_answer::paragraphs(s).len() % 2 == 1,
    ensures
        record_answer::without_repeated_half(s) == strs::trim(s),
{
}

proof fn lemma_records_source(records: Seq<&RecordItem>, i: int, x: Seq<char>)
    requires
        0 <= i < records.len(),
        legal::record_source(*records[i]).contains(x),
    ensures
        legal::records_source(records).contains(x),
    decreases records.len(),
{
    let head = legal::records_source(records.drop_last());
    let tail = legal::record_source(*records.last());
    let all = legal::records_source(records);
    if i < records.len() - 1 {
        assert(records.drop_last()[i] == records[i]);
        lemma_records_source(records.drop_last(), i, x);
        let k = choose|k: int| 0 <= k < head.len() && head[k] == x;
        assert(all[k] == x);
    } else {
        let k = choose|k: int| 0 <= k < tail.len() && tail[k] == x;
        assert(all[head.len() + k] == x);
    }
}

/// What is searched for provisions is no longer than 2400 characters; where it all has room, what
/// is said of the case, what was asked and what is said of every record stands in it.
pub proof fn provisions_are_searched_by_all_that_has_room(
    c: Option<CaseItem>,
    records: Seq<&RecordItem>,
    query: Seq<char>,
    message: Seq<char>,
    note: Option<Seq<char>>,
    i: int,
    x: Seq<char>,
)
    ensures
        ({
            let text = legal::source_text(c, records, query, message, note);
            &&& text.len() <= 2400
            &&& text.len() < 2400 && (legal::case_source(c).contains(x) || legal::request_source(
                query,
                message,
                note,
            ).contains(x) || (0 <= i < records.len() && legal::record_source(
                *records[i],
            ).contains(x))) ==> strs::contains(text, x)
        }),
{
    let of_case = legal::case_source(c);
    let of_request = legal::request_source(query, message, note);
    let of_records = legal::records_source(records);
    let all = of_case + of_request + of_records;
    let text = legal::source_text(c, records, query, message, note);
    if 0 <= i < records.len() && legal::record_source(*records[i]).contains(x) {
        lemma_records_source(records, i, x);
    }
    if text.len() < 2400 && (of_case.contains(x) || of_request.contains(x) || of_records.contains(
        x,
    )) {
        let k = if of_case.contains(x) {
            choose|k: int| 0 <= k < of_case.len() && of_case[k] == x
        } else if of_request.contains(x) {
            of_case.len() + choose|k: int| 0 <= k < of_request.len() && of_request[k] == x
        } else {
            of_case.len() + of_request.len() + choose|k: int|
                0 <= k < of_records.len() && of_records[k] == x
        };
        assert(all[k] == x);
        let at = lists::joined_parts_stand_in_the_text(all, " "@, k);
        assert(strs::occurs_at(text, x, at));
    }
}

/// A prompt for a record names the first three provisions, each on a line that begins with a dash
/// and names the law, and says that there is none where there is none.
pub proof fn a_record_is_asked_with_three_provisions(laws: Seq<StrategyLegalReference>, k: int)
    ensures
        laws.len() == 0 ==> template::record_law_block(laws)
            == "- 이번 상황에서 직접 연결된 참고 법령 없음"@,
        0 <= k < laws.len() && k < 3 ==> lists::is_line_of(
            template::record_law_block(laws),
            template::record_law_line(laws[k]),
        ),
        0 <= k < laws.len() && strs::trim(laws[k].short_name@).len() > 0 ==> strs::contains(
            template::record_law_line(laws[k]),
            strs::trim(laws[k].short_name@),
        ),
        0 <= k < laws.len() && strs::trim(laws[k].short_name@).len() == 0 ==> strs::contains(
            template::record_law_line(laws[k]),
            strs::trim(laws[k].law_name@),
        ),
{
    texts::parts_stand_in_the_whole();
    if 0 <= k < laws.len() {
        let few = strs::head(laws, 3);
        let lines = few.map_values(|l: StrategyLegalReference| template::record_law_line(l));
        if k < 3 {
            assert(lines[k] == template::record_law_line(laws[k]));
            lists::joined_lines_are_lines(lines, k);
        }
    }
}

/// A server that answers well serves; one that answers badly or not at all does not complete, and
/// what is said of it names its address.
pub proof fn a_server_serves_that_answers_well(url: Seq<char>, reply: ProbeReply)
    ensures
        endpoints::completion_verdict(url, reply) is Ok <==> (reply is Status
            && reply->Status_success),
        endpoints::completion_verdict(url, reply) matches Err(e) ==> strs::contains(e, url)
            && strs::starts_with(e, "completion_probe_failed: "@),
        endpoints::slots_verdict(url, reply) == Some(Ok::<(), Seq<char>>(())) <==> (reply is Status
            && reply->Status_success),
        endpoints::slots_verdict(url, reply) matches Some(Err(e)) ==> strs::contains(e, url)
            && strs::starts_with(e, "slots_probe_failed: "@),
{
    texts::parts_stand_in_the_whole();
    reveal_strlit("completion_probe_failed: ");
    reveal_strlit("completion_probe_failed: http_");
    reveal_strlit("completion_probe_failed");
    reveal_strlit("slots_probe_failed: ");
    reveal_strlit("slots_probe_failed");
    reveal_strlit(": timeout (");
    reveal_strlit(": connection_refused (");
    reveal_strlit(": request_failed (");
    match endpoints::completion_verdict(url, reply) {
        Err(e) => {
            let p = "completion_probe_failed: "@;
            assert(e.subrange(0, p.len() as int) =~= p);
        },
        Ok(_) => {},
    }
    match endpoints::slots_verdict(url, reply) {
        Some(Err(e)) => {
            let p = "slots_probe_failed: "@;
            assert(e.subrange(0, p.len() as int) =~= p);
        },
        _ => {},
    }
}

/// A server that has no slots to show is not judged by them: one that refuses, is late or does not
/// know the address leaves the question open.
pub proof fn slots_that_are_not_shown_decide_nothing(url: Seq<char>, reply: ProbeReply)
    ensures
        reply is Status && !reply->Status_success && !reply->server_error
            ==> endpoints::slots_verdict(url, reply) is None,
        reply is Failure && (reply->timeout || reply->connect) ==> endpoints::slots_verdict(
            url,
            reply,
        ) is None,
        reply is Status && !reply->Status_success && reply->server_error
            ==> endpoints::slots_verdict(url, reply) is Some,
        reply is Failure && !reply->timeout && !reply->connect ==> endpoints::slots_verdict(
            url,
            reply,
        ) is Some,
{
}

/// A run on the native backend reuses no prefix; it counts as cached where tokens were proposed and
/// taken, and its counts of tokens stay as they are.
pub proof fn a_native_run_reuses_no_prefix(
    before: StrategyStageCachePerf,
    after: StrategyStageCachePerf,
)
    requires
        execution::ran_native(before, after),
    ensures
        !after.prefix_kv_applied && !after.prefix_kv_supported,
        after.prefix_reused_tokens == 0 && after.prefix_total_tokens == 0,
        after.cache_applied <==> before.synthetic_cache_applied,
        after.cache_applied ==> after.cache_mode_applied@ == "FullDRACE"@
            && after.bypass_reason@.len() == 0,
        !after.cache_applied ==> after.cache_mode_applied@ == "Off"@ && after.bypass_reason@
            == before.bypass_reason@,
        after.proposed_tokens == before.proposed_tokens,
        after.accepted_tokens == before.accepted_tokens,
        after.rejected_tokens == before.rejected_tokens,
        after.llm_generated_tokens == before.llm_generated_tokens,
{
    reveal_strlit("");
}

/// The stages of a chat are those that went into its answer: of two models that worked together
/// both drafts and the answer last, else the answer alone.
pub proof fn the_last_stage_is_that_of_the_answer(f: ChatFlow)
    ensures
        ({
            let stages = chat::recorded_stages(f);
            &&& stages.len() > 0
            &&& stages.last() == f.main->0.metrics
            &&& stages.len() == 3 <==> f.ending == Ending::RecordHybrid || f.ending
                == Ending::Hybrid
            &&& stages.len() == 1 || stages.len() == 3
            &&& f.ending == Ending::RecordHybrid ==> stages[0] == f.hyper->0.metrics && stages[1]
                == f.roosy->0.metrics
            &&& f.ending == Ending::Hybrid ==> stages[0] == f.roosy->0.metrics && stages[1]
                == f.hyper->0.metrics
        }),
{
}

/// A chat closes with the length of its answer unless one of the models was missing or not needed.
pub proof fn a_chat_closes_with_the_length_of_its_answer(ending: Ending, answer: Seq<char>)
    ensures
        ({
            ||| ending == Ending::RecordFast
            ||| ending == Ending::RecordHyper
            ||| ending == Ending::RecordRoosy
            ||| ending == Ending::RecordRecovered
            ||| ending == Ending::RoosyOnly
            ||| ending == Ending::HyperOnly
            ||| strs::contains(
                chat::closing_line(ending, answer),
                strs::decimal(answer.len()) + "자예요."@,
            )
        }),
{
    texts::parts_stand_in_the_whole();
    let n = strs::decimal(answer.len());
    let end = "자예요."@;
    assert("기록 초안 생성을 마쳤어요. 본문 길이 "@ + n + end =~= "기록 초안 생성을 마쳤어요. 본문 길이 "@
        + (n + end));
    assert("빠른 경로 응답 생성을 마쳤어요. 본문 길이 "@ + n + end
        =~= "빠른 경로 응답 생성을 마쳤어요. 본문 길이 "@ + (n + end));
    assert("ROOSY-Hybrid 응답 생성을 마쳤어요. 본문 길이 "@ + n + end
        =~= "ROOSY-Hybrid 응답 생성을 마쳤어요. 본문 길이 "@ + (n + end));
    assert("응답 생성을 마쳤어요. 본문 길이 "@ + n + end =~= "응답 생성을 마쳤어요. 본문 길이 "@ + (n + end));
}

} // verus!
