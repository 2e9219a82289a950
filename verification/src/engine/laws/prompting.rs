//! What holds of the prompts that the models are given.

use crate::engine::labels;
use crate::engine::laws::answers;
use crate::engine::packet::{
    StrategyEvidencePacket, StrategyEvidenceRecord, StrategyLegalReference,
};
use crate::engine::prompts;
use crate::engine::prompts::StrategyChatTurn;
use crate::engine::questions;
use crate::engine::records::CaseItem;
use crate::engine::sanitize;
use crate::engine::structured;
use crate::engine::template::StrategyRecordModeTemplate;
use crate::lists;
use crate::strs;
use crate::text;
use crate::texts;
use vstd::prelude::*;

verus! {

/// Clean text with no white space at its ends.
pub open spec fn is_solid(p: Seq<char>) -> bool {
    &&& p.len() > 0
    &&& sanitize::is_clean(p)
    &&& !strs::is_space(p[0])
    &&& !strs::is_space(p.last())
}

/// Whatever clean text stands in the block stands in the prompt.
pub open spec fn hands_on(prompt: Seq<char>, block: Seq<char>) -> bool {
    forall|p: Seq<char>|
        is_solid(p) && strs::contains(block, p) ==> #[trigger] strs::contains(prompt, p)
}

proof fn lemma_scrubbed_ends(x: Seq<char>, p: Seq<char>)
    requires
        p.len() > 0,
        sanitize::is_clean(p),
        p[0] != '\n',
    ensures
        ({
            let s = sanitize::scrubbed(x + p);
            s.len() >= p.len() && s.subrange(s.len() - p.len(), s.len() as int) == p
        }),
    decreases p.len(),
{
    let whole = x + p;
    let q = p.drop_last();
    assert(whole.drop_last() =~= x + q);
    assert(whole.last() == p[p.len() - 1]);
    let head = sanitize::scrubbed(x + q);
    let s = sanitize::scrubbed(whole);
    assert(sanitize::clean_char(p[p.len() - 1]) == Some(p[p.len() - 1]));
    if q.len() > 0 {
        assert(sanitize::is_clean(q)) by {
            assert forall|i: int| 0 <= i < q.len() implies sanitize::clean_char(#[trigger] q[i])
                == Some(q[i]) by {
                assert(q[i] == p[i]);
            }
            assert forall|i: int, j: int|
                0 <= i < q.len() && j == i + 1 && j < q.len() && (#[trigger] q[i]) == '\n' implies (
            #[trigger] q[j]) != '\n' by {
                assert(q[i] == p[i] && q[j] == p[j]);
            }
        }
        lemma_scrubbed_ends(x, q);
        assert(head.last() == head.subrange(head.len() - q.len(), head.len() as int).last());
        assert(head.last() == q.last());
        assert(p[p.len() - 2] == q.last());
        assert(s =~= head.push(p.last()));
        assert(s.subrange(s.len() - p.len(), s.len() as int) =~= p) by {
            assert forall|i: int| 0 <= i < p.len() implies s[s.len() - p.len() + i] == p[i] by {
                if i < q.len() {
                    assert(head.subrange(head.len() - q.len(), head.len() as int)[i] == q[i]);
                }
            }
        }
    } else {
        assert(s =~= head.push(p.last()));
        assert(s.subrange(s.len() - p.len(), s.len() as int) =~= p);
    }
}

proof fn lemma_scrubbed_grows(s: Seq<char>, more: Seq<char>)
    ensures
        sanitize::scrubbed(s + more).len() >= sanitize::scrubbed(s).len(),
        sanitize::scrubbed(s + more).subrange(0, sanitize::scrubbed(s).len() as int)
            == sanitize::scrubbed(s),
    decreases more.len(),
{
    let whole = s + more;
    if more.len() == 0 {
        assert(whole =~= s);
        assert(sanitize::scrubbed(s).subrange(0, sanitize::scrubbed(s).len() as int)
            =~= sanitize::scrubbed(s));
    } else {
        lemma_scrubbed_grows(s, more.drop_last());
        assert(whole.drop_last() =~= s + more.drop_last());
        let a = sanitize::scrubbed(s);
        let b = sanitize::scrubbed(s + more.drop_last());
        let c = sanitize::scrubbed(whole);
        assert(c.subrange(0, a.len() as int) =~= a) by {
            assert forall|i: int| 0 <= i < a.len() implies c[i] == a[i] by {
                assert(b.subrange(0, a.len() as int)[i] == a[i]);
            }
        }
    }
}

/// Cleaning keeps what is clean.
pub proof fn cleaning_keeps_what_is_clean(s: Seq<char>, p: Seq<char>)
    requires
        is_solid(p),
        strs::contains(s, p),
    ensures
        strs::contains(sanitize::sanitized(s), p),
{
    let i = choose|i: int| strs::occurs_at(s, p, i);
    let n = p.len() as int;
    let x = s.take(i);
    let y = s.skip(i + n);
    assert(s =~= x + p + y) by {
        assert forall|k: int| i <= k < i + n implies s[k] == p[k - i] by {
            assert(s.subrange(i, i + n)[k - i] == s[k]);
        }
    }
    lemma_scrubbed_ends(x, p);
    lemma_scrubbed_grows(x + p, y);
    let a = sanitize::scrubbed(x + p);
    let b = sanitize::scrubbed(s);
    let at = a.len() - n;
    assert(b.subrange(at, at + n) =~= p) by {
        assert forall|k: int| 0 <= k < n implies b[at + k] == p[k] by {
            assert(b.subrange(0, a.len() as int)[at + k] == a[at + k]);
            assert(a.subrange(a.len() - n, a.len() as int)[k] == p[k]);
        }
    }
    assert(strs::occurs_at(b, p, at));
    texts::trimming_keeps_what_is_inside(b, p);
}

proof fn lemma_parts()
    ensures
        forall|w: Seq<char>, y: Seq<char>, p: Seq<char>|
            strs::contains(w, p) ==> #[trigger] strs::contains(w + y, p),
        forall|x: Seq<char>, h: Seq<char>, b: Seq<char>, p: Seq<char>|
            strs::contains(h + b, p) ==> #[trigger] strs::contains(x + h + b, p),
        forall|s: Seq<char>, p: Seq<char>|
            is_solid(p) && strs::contains(s, p) ==> #[trigger] strs::contains(
                sanitize::sanitized(s),
                p,
            ),
{
    assert forall|w: Seq<char>, y: Seq<char>, p: Seq<char>| strs::contains(w, p) implies #[trigger] strs::contains(
        w + y,
        p,
    ) by {
        assert((w + y).subrange(0, w.len() as int) =~= w);
        text::lemma_contains_in(w + y, 0, w.len() as int, p);
    }
    assert forall|x: Seq<char>, h: Seq<char>, b: Seq<char>, p: Seq<char>| strs::contains(
        h + b,
        p,
    ) implies #[trigger] strs::contains(x + h + b, p) by {
        let whole = x + h + b;
        assert(whole.subrange(x.len() as int, whole.len() as int) =~= h + b);
        text::lemma_contains_in(whole, x.len() as int, whole.len() as int, p);
    }
    assert forall|s: Seq<char>, p: Seq<char>| is_solid(p) && strs::contains(s, p) implies #[trigger] strs::contains(
        sanitize::sanitized(s),
        p,
    ) by {
        cleaning_keeps_what_is_clean(s, p);
    }
}

/// The items of a list stand one below the other, each behind a dash; where there are none, words
/// stand for that.
pub proof fn a_listing_names_every_item(list: Seq<Seq<char>>, none: Seq<char>, k: int)
    ensures
        list.len() == 0 ==> prompts::listing(list, none) == none,
        0 <= k < list.len() ==> lists::is_line_of(prompts::listing(list, none), "- "@ + list[k]),
        0 <= k < list.len() ==> lists::is_line_of(prompts::item_lines(list), "- "@ + list[k]),
{
    if 0 <= k < list.len() {
        let items = list.map_values(|s: Seq<char>| structured::itemized(s));
        assert(items[k] == "- "@ + list[k]);
        lists::joined_lines_are_lines(items, k);
    }
}

/// A record in a prompt is told by its number, its time, its person, its kind, its place and its
/// summary, in this order, each cut.
pub proof fn a_record_line_tells_the_record(e: StrategyEvidenceRecord)
    ensures
        ({
            let line = labels::evidence_line(e);
            let told = "["@ + e.ref_id@ + "] "@ + strs::first(strs::trim(e.ts@), 32) + " | "@
                + strs::first(strs::trim(e.actor@), 28) + " | "@ + strs::first(
                strs::trim(e.store@),
                18,
            ) + " | "@ + strs::first(strs::trim(e.place@), 18) + " | "@ + strs::first(
                strs::trim(e.summary@),
                180,
            );
            &&& strs::starts_with(line, told)
            &&& strs::trim(e.risk_label@).len() > 0 ==> strs::contains(
                line,
                " | 위험: "@ + strs::first(strs::trim(e.risk_label@), 18),
            )
            &&& e.reasons@.len() > 0 ==> strs::ends_with(
                line,
                " | 선택 이유: "@ + strs::first(strs::join(strs::views(e.reasons@), ", "@), 96),
            )
            &&& strs::trim(e.risk_label@).len() == 0 && e.reasons@.len() == 0 ==> line == told
        }),
{
    let line = labels::evidence_line(e);
    let told = "["@ + e.ref_id@ + "] "@ + strs::first(strs::trim(e.ts@), 32) + " | "@ + strs::first(
        strs::trim(e.actor@),
        28,
    ) + " | "@ + strs::first(strs::trim(e.store@), 18) + " | "@ + strs::first(
        strs::trim(e.place@),
        18,
    ) + " | "@ + strs::first(strs::trim(e.summary@), 180);
    let risk = " | 위험: "@ + strs::first(strs::trim(e.risk_label@), 18);
    let why = " | 선택 이유: "@ + strs::first(strs::join(strs::views(e.reasons@), ", "@), 96);
    assert(line.subrange(0, told.len() as int) =~= told);
    if strs::trim(e.risk_label@).len() > 0 {
        assert(line.subrange(told.len() as int, (told.len() + risk.len()) as int) =~= risk);
        assert(strs::occurs_at(line, risk, told.len() as int));
    }
    if e.reasons@.len() > 0 {
        assert(line.subrange(line.len() - why.len(), line.len() as int) =~= why);
    }
}

/// A provision in a prompt is told by its number, its law by both its names, and its article; then
/// come its point, its use and why it is shown, those that there are, in this order.
pub proof fn a_law_line_tells_the_provision(l: StrategyLegalReference)
    ensures
        ({
            let line = prompts::law_line(l);
            let short = strs::trim(l.short_name@);
            let long = strs::trim(l.law_name@);
            let name = if short.len() > 0 {
                short + " ("@ + long + ")"@
            } else {
                long
            };
            let told = "["@ + l.ref_id@ + "] "@ + strs::first(name, 52) + " "@ + strs::first(
                strs::trim(l.article_ref@),
                18,
            ) + " "@ + strs::first(strs::trim(l.article_title@), 44);
            let point = if strs::trim(l.legal_point@).len() > 0 {
                " | 취지: "@ + strs::first(strs::trim(l.legal_point@), 120)
            } else {
                Seq::empty()
            };
            let use_case = if strs::trim(l.teacher_use_case@).len() > 0 {
                " | 현장 적용: "@ + strs::first(strs::trim(l.teacher_use_case@), 110)
            } else {
                Seq::empty()
            };
            let why = if l.relevance_reasons@.len() > 0 {
                " | 연결 이유: "@ + strs::first(
                    strs::join(strs::views(l.relevance_reasons@), ", "@),
                    96,
                )
            } else {
                Seq::empty()
            };
            line == told + point + use_case + why
        }),
{
    let short = strs::trim(l.short_name@);
    let long = strs::trim(l.law_name@);
    let name = if short.len() > 0 {
        short + " ("@ + long + ")"@
    } else {
        long
    };
    let told = "["@ + l.ref_id@ + "] "@ + strs::first(name, 52) + " "@ + strs::first(
        strs::trim(l.article_ref@),
        18,
    ) + " "@ + strs::first(strs::trim(l.article_title@), 44);
    let point = if strs::trim(l.legal_point@).len() > 0 {
        " | 취지: "@ + strs::first(strs::trim(l.legal_point@), 120)
    } else {
        Seq::empty()
    };
    let use_case = if strs::trim(l.teacher_use_case@).len() > 0 {
        " | 현장 적용: "@ + strs::first(strs::trim(l.teacher_use_case@), 110)
    } else {
        Seq::empty()
    };
    let why = if l.relevance_reasons@.len() > 0 {
        " | 연결 이유: "@ + strs::first(strs::join(strs::views(l.relevance_reasons@), ", "@), 96)
    } else {
        Seq::empty()
    };
    assert(prompts::law_line(l) =~= told + point + use_case + why);
}

/// The lines of the first records and provisions are theirs, in their order, as many as there are.
pub proof fn first_lines_are_those_of_the_first(
    records: Seq<StrategyEvidenceRecord>,
    laws: Seq<StrategyLegalReference>,
    n: nat,
    k: int,
)
    ensures
        prompts::record_lines(records, n).len() == if records.len() < n {
            records.len()
        } else {
            n
        },
        0 <= k < records.len() && k < n ==> prompts::record_lines(records, n)[k]
            == labels::evidence_line(records[k]),
        prompts::law_lines(laws, n).len() == if laws.len() < n {
            laws.len()
        } else {
            n
        },
        0 <= k < laws.len() && k < n ==> prompts::law_lines(laws, n)[k] == prompts::law_line(
            laws[k],
        ),
{
}

/// Of a conversation the last four turns are told, each with who spoke.
pub proof fn the_last_turns_are_told(history: Seq<StrategyChatTurn>, k: int)
    requires
        0 <= k < history.len(),
        k >= history.len() - 4,
    ensures
        ({
            let t = history[k];
            let said = strs::first(sanitize::sanitized(strs::trim(t.content@)), 160);
            let who = if strs::trim(t.role@) == "user"@ {
                "- "@ + "사용자"@ + ": "@
            } else {
                "- "@ + "어시스턴트"@ + ": "@
            };
            lists::is_line_of(prompts::conversation_text(history), who + said)
        }),
        prompts::last_turns(history).len() <= 4,
        prompts::conversation_text(Seq::empty()) == "- 이전 대화 없음"@,
{
    let last = prompts::last_turns(history);
    let lines = last.map_values(|t: StrategyChatTurn| prompts::turn_line(t));
    let j = if history.len() > 4 {
        k - (history.len() - 4)
    } else {
        k
    };
    assert(last[j] == history[k]);
    assert(lines[j] == prompts::turn_line(history[k]));
    lists::joined_lines_are_lines(lines, j);
}

/// The case is told by its title, its people, what is asked and its time.
pub proof fn a_case_is_told_line_by_line(c: CaseItem)
    ensures
        ({
            let told = labels::case_context(Some(c));
            let title = strs::trim(c.title@);
            let people = strs::join(labels::actors_short(c.actors@, 4), ", "@);
            let query = strs::first(strs::trim(c.query@), 280);
            let from = strs::trim(c.time_from@);
            let to = strs::trim(c.time_to@);
            &&& title.len() > 0 ==> lists::is_line_of(told, "- 사건 제목: "@ + title)
            &&& title.len() == 0 ==> lists::is_line_of(told, "- 사건 제목: "@ + "제목 없음"@)
            &&& people.len() > 0 ==> lists::is_line_of(told, "- 핵심 인물: "@ + people)
            &&& query.len() > 0 ==> lists::is_line_of(told, "- 사건 설명: "@ + query)
            &&& from.len() > 0 || to.len() > 0 ==> lists::is_line_of(
                told,
                "- 기간 필터: "@ + from + " ~ "@ + to,
            )
        }),
        labels::case_context(None) == "- 사건 연결 없이 증거만으로 분석 중"@,
{
    let lines = labels::case_lines(c);
    let people = strs::join(labels::actors_short(c.actors@, 4), ", "@);
    let query = strs::first(strs::trim(c.query@), 280);
    lists::joined_lines_are_lines(lines, 0);
    let a: int = if people.len() > 0 {
        2
    } else {
        1
    };
    let b = if query.len() > 0 {
        a + 1
    } else {
        a
    };
    if people.len() > 0 {
        lists::joined_lines_are_lines(lines, 1);
    }
    if query.len() > 0 {
        lists::joined_lines_are_lines(lines, a);
    }
    if strs::trim(c.time_from@).len() > 0 || strs::trim(c.time_to@).len() > 0 {
        lists::joined_lines_are_lines(lines, b);
    }
}

/// A question with all that was gathered: the prompt hands on the case, what was gathered, the
/// people, the times, the gaps, every record, every provision, the note, the last turns and the
/// question, each under its heading.
#[verifier::rlimit(50)]
pub proof fn a_full_prompt_hands_everything_on(
    packet: StrategyEvidencePacket,
    c: Option<CaseItem>,
    message: Seq<char>,
    note: Option<Seq<char>>,
    history: Seq<StrategyChatTurn>,
)
    ensures
        ({
            let prompt = prompts::user_prompt(packet, c, message, note, history);
            let said = match note {
                Some(s) => s,
                None => "없음"@,
            };
            &&& hands_on(prompt, "[현재 사건 맥락]\n"@ + labels::case_context(c))
            &&& hands_on(prompt, "\n\n[증거 패킷 요약]\n- "@ + packet.focus_summary@)
            &&& hands_on(prompt, "\n- "@ + packet.overview@)
            &&& hands_on(
                prompt,
                "\n\n[핵심 인물]\n"@ + prompts::listing(
                    strs::views(packet.actor_summary@),
                    "- 정리된 인물 없음"@,
                ),
            )
            &&& hands_on(
                prompt,
                "\n\n[시간 흐름]\n"@ + prompts::listing(
                    strs::views(packet.timeline_summary@),
                    "- 시간 흐름 요약 없음"@,
                ),
            )
            &&& hands_on(
                prompt,
                "\n\n[비어 있는 정보]\n"@ + prompts::listing(
                    strs::views(packet.gaps@),
                    "- 특별히 비어 있는 정보 없음"@,
                ),
            )
            &&& packet.evidence_records@.len() > 0 ==> hands_on(
                prompt,
                "\n\n[증거 참조표]\n"@ + strs::join(
                    prompts::record_lines(
                        packet.evidence_records@,
                        packet.evidence_records@.len(),
                    ),
                    "\n"@,
                ),
            )
            &&& hands_on(
                prompt,
                "\n\n[관련 법령 참조표]\n"@ + prompts::listing(
                    prompts::law_lines(packet.legal_references@, packet.legal_references@.len()),
                    "- 바로 연결된 법령 없음"@,
                ),
            )
            &&& hands_on(
                prompt,
                "\n\n[전략 메모]\n"@ + strs::first(sanitize::sanitized(said), 320),
            )
            &&& hands_on(prompt, "\n\n[직전 대화]\n"@ + prompts::conversation_text(history))
            &&& hands_on(
                prompt,
                "\n\n[이번 요청]\n"@ + strs::first(sanitize::sanitized(strs::trim(message)), 360),
            )
            &&& questions::focus_hint(message) matches Some(hint) ==> hands_on(prompt, hint)
        }),
{
    lemma_parts();
    lemma_second();
}

proof fn lemma_second()
    ensures
        forall|w: Seq<char>, y: Seq<char>, p: Seq<char>|
            strs::contains(y, p) ==> #[trigger] strs::contains(w + y, p),
{
    assert forall|w: Seq<char>, y: Seq<char>, p: Seq<char>| strs::contains(y, p) implies #[trigger] strs::contains(
        w + y,
        p,
    ) by {
        let whole = w + y;
        assert(whole.subrange(w.len() as int, whole.len() as int) =~= y);
        text::lemma_contains_in(whole, w.len() as int, whole.len() as int, p);
    }
}

/// The check of an answer hands on the case, three records, the note and the question; provisions
/// stand in it only where the message speaks of the law, and then two.
#[verifier::rlimit(50)]
pub proof fn a_short_prompt_hands_on_what_matters(
    packet: StrategyEvidencePacket,
    c: Option<CaseItem>,
    message: Seq<char>,
    note: Option<Seq<char>>,
)
    ensures
        ({
            let prompt = prompts::draft_prompt(packet, c, message, note);
            let said = match note {
                Some(s) => s,
                None => "없음"@,
            };
            &&& hands_on(prompt, "[현재 사건 맥락]\n"@ + labels::case_context(c))
            &&& hands_on(
                prompt,
                "\n\n[핵심 근거]\n"@ + prompts::listing(
                    prompts::record_lines(packet.evidence_records@, 3),
                    "- 연결된 핵심 근거 없음"@,
                ),
            )
            &&& answers::speaks_of_law(message) && packet.legal_references@.len() > 0 ==> hands_on(
                prompt,
                "\n\n[관련 법령]\n"@ + prompts::item_lines(
                    prompts::law_lines(packet.legal_references@, 2),
                ),
            )
            &&& hands_on(
                prompt,
                "\n\n[전략 메모]\n"@ + strs::first(sanitize::sanitized(said), 180),
            )
            &&& hands_on(
                prompt,
                "\n\n[질문]\n"@ + strs::first(sanitize::sanitized(strs::trim(message)), 220),
            )
        }),
{
    lemma_parts();
    answers::asking_for_law_is_speaking_of_it(message);
}

/// Where the message does not speak of the law, the prompt of a check is the same whatever
/// provisions were gathered.
pub proof fn a_check_names_provisions_only_where_law_is_asked_for(
    a: StrategyEvidencePacket,
    b: StrategyEvidencePacket,
    c: Option<CaseItem>,
    message: Seq<char>,
    note: Option<Seq<char>>,
)
    requires
        !answers::speaks_of_law(message),
        a.evidence_records@ == b.evidence_records@,
    ensures
        prompts::draft_prompt(a, c, message, note) == prompts::draft_prompt(b, c, message, note),
{
    answers::asking_for_law_is_speaking_of_it(message);
}

/// What every prompt about a record hands on: the situation, the case, five records, the gaps and
/// the note, each under its heading.
pub open spec fn hands_on_the_record(
    prompt: Seq<char>,
    packet: StrategyEvidencePacket,
    c: Option<CaseItem>,
    message: Seq<char>,
    note: Option<Seq<char>>,
    gaps_heading: Seq<char>,
) -> bool {
    let said = match note {
        Some(s) => s,
        None => "없음"@,
    };
    &&& hands_on(
        prompt,
        "[사용자 입력 상황]\n"@ + strs::first(sanitize::sanitized(strs::trim(message)), 520),
    )
    &&& hands_on(prompt, "\n\n[사건 맥락]\n"@ + labels::case_context(c))
    &&& hands_on(
        prompt,
        "\n\n[참고 기록]\n"@ + prompts::listing(
            prompts::record_lines(packet.evidence_records@, 5),
            "- 참고 기록 없음"@,
        ),
    )
    &&& hands_on(
        prompt,
        gaps_heading + prompts::listing(
            strs::views(packet.gaps@),
            "- 특별히 비어 있는 정보 없음"@,
        ),
    )
    &&& hands_on(prompt, "\n\n[전략 메모]\n"@ + strs::first(sanitize::sanitized(said), 220))
}

/// The prompt of a record hands on the record, and the people, the times and the last turns.
#[verifier::rlimit(50)]
pub proof fn a_record_prompt_hands_everything_on(
    t: StrategyRecordModeTemplate,
    packet: StrategyEvidencePacket,
    c: Option<CaseItem>,
    message: Seq<char>,
    note: Option<Seq<char>>,
    history: Seq<StrategyChatTurn>,
)
    ensures
        ({
            let prompt = prompts::record_prompt(t, packet, c, message, note, history);
            &&& hands_on_the_record(
                prompt,
                packet,
                c,
                message,
                note,
                "\n\n[확인이 더 필요한 부분]\n"@,
            )
            &&& hands_on(
                prompt,
                "\n\n[참고 인물]\n"@ + prompts::listing(
                    strs::views(packet.actor_summary@),
                    "- 정리된 인물 없음"@,
                ),
            )
            &&& hands_on(
                prompt,
                "\n\n[참고 시간 흐름]\n"@ + prompts::listing(
                    strs::views(packet.timeline_summary@),
                    "- 시간 흐름 참고 없음"@,
                ),
            )
            &&& hands_on(prompt, "\n\n[직전 대화]\n"@ + prompts::conversation_text(history))
        }),
{
    lemma_parts();
}

/// The prompt that fills a record hands on the record and the frame that it fills.
#[verifier::rlimit(50)]
pub proof fn a_fill_prompt_hands_the_frame_on(
    t: StrategyRecordModeTemplate,
    packet: StrategyEvidencePacket,
    c: Option<CaseItem>,
    message: Seq<char>,
    note: Option<Seq<char>>,
    hyper: Seq<char>,
)
    ensures
        ({
            let prompt = prompts::fill_prompt(t, packet, c, message, note, hyper);
            &&& hands_on_the_record(prompt, packet, c, message, note, "\n\n[추가 확인 필요]\n"@)
            &&& hands_on(
                prompt,
                "\n\n[HyperCLOVA-X 기록 골격]\n"@ + strs::first(strs::trim(hyper), 3200),
            )
        }),
{
    lemma_parts();
}

/// The prompt that merges two records hands on the record and both, each under the name of its
/// model.
#[verifier::rlimit(50)]
pub proof fn a_merging_prompt_hands_both_records_on(
    t: StrategyRecordModeTemplate,
    packet: StrategyEvidencePacket,
    c: Option<CaseItem>,
    message: Seq<char>,
    note: Option<Seq<char>>,
    hyper: Seq<char>,
    roosy: Seq<char>,
)
    ensures
        ({
            let prompt = prompts::record_hybrid_prompt(t, packet, c, message, note, hyper, roosy);
            &&& hands_on_the_record(prompt, packet, c, message, note, "\n\n[추가 확인 필요]\n"@)
            &&& hands_on(
                prompt,
                "\n\n[HyperCLOVA-X 초안]\n"@ + strs::first(strs::trim(hyper), 2600),
            )
            &&& hands_on(prompt, "\n\n[Roosy-X 초안]\n"@ + strs::first(strs::trim(roosy), 2600))
        }),
{
    lemma_parts();
}

/// The prompt that reviews a record hands on the record and its draft.
#[verifier::rlimit(50)]
pub proof fn a_review_prompt_hands_the_draft_on(
    t: StrategyRecordModeTemplate,
    packet: StrategyEvidencePacket,
    c: Option<CaseItem>,
    message: Seq<char>,
    note: Option<Seq<char>>,
    draft: Seq<char>,
)
    ensures
        ({
            let prompt = prompts::review_prompt(t, packet, c, message, note, draft);
            &&& hands_on_the_record(prompt, packet, c, message, note, "\n\n[추가 확인 필요]\n"@)
            &&& hands_on(
                prompt,
                "\n\n[현재 기록 초안]\n"@ + strs::first(strs::trim(draft), 4200),
            )
        }),
{
    lemma_parts();
}

/// The prompt that merges two answers hands on the case, the question, the note, four records,
/// three provisions, and both answers, each under the name of its model.
#[verifier::rlimit(50)]
pub proof fn a_merging_prompt_hands_both_answers_on(
    packet: StrategyEvidencePacket,
    c: Option<CaseItem>,
    message: Seq<char>,
    note: Option<Seq<char>>,
    hyper: Seq<char>,
    roosy: Seq<char>,
)
    ensures
        ({
            let prompt = prompts::hybrid_prompt(packet, c, message, note, hyper, roosy);
            let said = match note {
                Some(s) => s,
                None => "없음"@,
            };
            &&& hands_on(prompt, "[현재 사건 맥락]\n"@ + labels::case_context(c))
            &&& hands_on(
                prompt,
                "\n\n[질문]\n"@ + strs::first(sanitize::sanitized(strs::trim(message)), 240),
            )
            &&& hands_on(
                prompt,
                "\n\n[전략 메모]\n"@ + strs::first(sanitize::sanitized(said), 220),
            )
            &&& hands_on(
                prompt,
                "\n\n[핵심 근거]\n"@ + prompts::listing(
                    prompts::record_lines(packet.evidence_records@, 4),
                    "- 연결된 핵심 근거 없음"@,
                ),
            )
            &&& hands_on(
                prompt,
                "\n\n[관련 법령]\n"@ + prompts::listing(
                    prompts::law_lines(packet.legal_references@, 3),
                    "- 관련 법령 없음"@,
                ),
            )
            &&& hands_on(
                prompt,
                "\n\n[HyperCLOVA-X 초안]\n"@ + strs::first(strs::trim(hyper), 2200),
            )
            &&& hands_on(prompt, "\n\n[Roosy-X 초안]\n"@ + strs::first(strs::trim(roosy), 2200))
        }),
{
    lemma_parts();
}

} // verus!
