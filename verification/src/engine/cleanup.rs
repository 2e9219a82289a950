//! The output of the models: what is cut off it, and what is added to an answer.

use crate::engine::labels;
use crate::engine::models;
use crate::engine::models::is_strategy_runtime_noise;
use crate::engine::packet::{StrategyEvidencePacket, StrategyEvidenceRecord, StrategyLegalReference};
use crate::engine::questions;
use crate::engine::questions::strategy_question_needs_legal_refs;
use crate::engine::record_answer;
use crate::engine::record_answer::{law_label_of, strategy_strip_prompt_echo};
use crate::engine::sanitize::strategy_trim;
use crate::strs;
use crate::text;
use vstd::prelude::*;

verus! {

/// How many characters a control sequence has, up to and with the letter that ends it.
pub open spec fn control_len(s: Seq<char>) -> nat
    decreases s.len(),
{
    if s.len() == 0 {
        0
    } else if '@' <= s[0] <= '~' {
        1
    } else {
        1 + control_len(s.skip(1))
    }
}

/// A text without the control sequences of a terminal.
pub open spec fn without_controls(s: Seq<char>) -> Seq<char>
    decreases s.len(),
{
    if s.len() == 0 {
        Seq::empty()
    } else if s[0] == '\u{1b}' {
        if s.len() > 1 && s[1] == '[' {
            proof {
                lemma_control_len(s.skip(2));
            }
            without_controls(s.skip(2).skip(control_len(s.skip(2)) as int))
        } else {
            without_controls(s.skip(1))
        }
    } else {
        seq![s[0]] + without_controls(s.skip(1))
    }
}

/// A control sequence is no longer than the text that it stands in.
pub proof fn lemma_control_len(s: Seq<char>)
    ensures
        control_len(s) <= s.len(),
    decreases s.len(),
{
    if s.len() > 0 && !('@' <= s[0] <= '~') {
        lemma_control_len(s.skip(1));
    }
}

fn control_end(v: &Vec<char>, from: usize) -> (r: usize)
    requires
        from <= v@.len(),
    ensures
        r == from + control_len(v@.skip(from as int)),
        from <= r <= v@.len(),
{
    let mut i: usize = from;
    while i < v.len()
        invariant
            from <= i <= v.len(),
            from + control_len(v@.skip(from as int)) == i + control_len(v@.skip(i as int)),
        decreases v@.len() - i,
    {
        let c = v[i];
        assert(v@.skip(i as int)[0] == c);
        assert(v@.skip(i as int).skip(1) =~= v@.skip(i + 1));
        i += 1;
        if '@' <= c && c <= '~' {
            return i;
        }
    }
    i
}

fn strip_controls(raw: &str) -> (r: String)
    ensures
        r@ == without_controls(raw@),
{
    let v = text::chars_of(raw);
    let mut out: Vec<char> = Vec::new();
    let mut i: usize = 0;
    assert(v@.skip(0) =~= v@);
    while i < v.len()
        invariant
            i <= v.len(),
            out@ + without_controls(v@.skip(i as int)) == without_controls(v@),
        decreases v@.len() - i,
    {
        let ghost rest = v@.skip(i as int);
        assert(rest[0] == v@[i as int]);
        assert(rest.skip(1) =~= v@.skip(i + 1));
        if v[i] == '\u{1b}' {
            if i + 1 < v.len() && v[i + 1] == '[' {
                assert(rest[1] == v@[i + 1]);
                assert(rest.skip(2) =~= v@.skip(i + 2));
                let end: usize = control_end(&v, i + 2);
                assert(v@.skip(i + 2).skip(control_len(v@.skip(i + 2)) as int) =~= v@.skip(
                    end as int,
                ));
                i = end;
            } else {
                i += 1;
            }
        } else {
            let c = v[i];
            assert(out@ + (seq![c] + without_controls(v@.skip(i + 1))) =~= out@.push(c)
                + without_controls(v@.skip(i + 1)));
            out.push(c);
            i += 1;
        }
    }
    assert(v@.skip(i as int) =~= Seq::empty());
    assert(out@ + Seq::<char>::empty() =~= out@);
    let n: usize = out.len();
    let r = text::string_of(&out, 0, n);
    assert(r@ =~= out@);
    r
}

/// What a model wrote: the part after the last mark of its turn, without the marks.
pub open spec fn own_turn(raw: Seq<char>) -> Seq<char> {
    let a = strs::replace(without_controls(raw), "\r"@, ""@);
    let b = match strs::rfind(a, "<|im_start|>assistant"@) {
        Some(i) => strs::after(a, (i + "<|im_start|>assistant"@.len()) as nat),
        None => a,
    };
    let c = strs::replace(b, "<|im_end|>"@, ""@);
    let d = strs::replace(c, "<|endofturn|>"@, ""@);
    strs::replace(d, "<|stop|>"@, ""@)
}

fn take_own_turn(raw: &str) -> (r: String)
    ensures
        r@ == own_turn(raw@),
{
    proof {
        reveal_strlit("\r");
        reveal_strlit("<|im_end|>");
        reveal_strlit("<|endofturn|>");
        reveal_strlit("<|stop|>");
    }
    let a = text::replace(&strip_controls(raw), "\r", "");
    let mark = "<|im_start|>assistant";
    let len: usize = a.as_str().unicode_len();
    let b = match text::rfind(&a, mark) {
        Some(i) => {
            assert(i + mark@.len() <= len);
            text::after(&a, i + mark.unicode_len())
        },
        None => a,
    };
    let c = text::replace(&b, "<|im_end|>", "");
    let d = text::replace(&c, "<|endofturn|>", "");
    text::replace(&d, "<|stop|>", "")
}

/// How lines begin that are no part of an answer.
pub open spec fn noise_beginnings() -> Seq<Seq<char>> {
    seq![
        "common params"@,
        "example-specific params"@,
        "Loading model..."@,
        "build"@,
        "model"@,
        "modalities"@,
        "available commands:"@,
        "/exit"@,
        "/regen"@,
        "/clear"@,
        "/read "@,
        "/glob "@,
        "[ Prompt:"@,
        "Exiting..."@,
        "llama_memory_breakdown_print:"@,
        "<|im_start|>"@,
        "<|im_end|>"@,
        "[현재 사건 맥락]"@,
        "[증거 패킷 요약]"@,
        "[핵심 인물]"@,
        "[시간 흐름]"@,
        "[비어 있는 정보]"@,
        "[증거 참조표]"@,
        "[전략 메모]"@,
        "[직전 대화]"@,
        "[이번 요청]"@,
        "[응답 조건]"@,
        "[질문]"@,
        "[핵심 근거]"@,
        "[관련 법령]"@,
        "[관련 법령/참고 기준]"@,
        "[기록 작성 템플릿]"@,
        "[핵심 원칙]"@,
        "[품질 점검표]"@,
        "[금지 사항]"@,
        "[섹션별 가이드]"@,
        "[HyperCLOVA-X 기록 골격]"@,
        "[HyperCLOVA-X 초안]"@,
        "[Roosy-X 초안]"@,
        "[합성 지침]"@,
        "[추가 정보]"@,
        "현재 목표:"@,
        "전략 프리셋:"@,
        "AI에게 반영할 메모:"@,
        "기준 사건:"@,
        "로컬 브리핑 지표:"@,
        "추천 톤:"@,
        "추천 행동:"@,
        "- AI 언어모델의 이름은"@,
        "- 반드시 한국어로만"@,
        "- 영어, 중국어, 일본어"@,
        "- 역할:"@,
        "- 반드시 제공된 사건 맥락과 증거 참조표만"@,
        "- 사건에 없는 사실을 추가하지 말고"@,
        "- 핵심 판단이나 제안마다 가능하면"@,
        "- 답변은 교사가 바로"@,
        "- 과도한 법률 단정은"@,
        "- 응답은 가능하면 1) 상황판단"@,
        "- HyperCLOVA-X 초안의"@,
        "- Roosy-X 초안의"@,
        "- 둘을 비교하거나"@,
        "- 사용자에게 바로 전달할"@,
        "- 대답 속에 [합성 지침]"@,
        "- 너무 짧게 줄이지 말고"@,
        "- HyperCLOVA-X 기록 골격의"@,
        "- 각 섹션을 더 구체적이고"@,
        "- 문장감은 자연스럽게"@,
        "- [상황 요약], [배경 흐름]"@,
        "- 동일한 문장을 반복하거나"@,
        "- 지정된 섹션 제목만"@,
    ]
}

/// The line begins with one of the texts.
pub open spec fn begins_with_any(s: Seq<char>, list: Seq<Seq<char>>) -> bool {
    exists|k: int| 0 <= k < list.len() && strs::starts_with(s, #[trigger] list[k])
}

fn begins_with_noise(s: &str) -> (r: bool)
    ensures
        r == begins_with_any(s@, noise_beginnings()),
{
    let list = text::owned(
        &[
            "common params",
            "example-specific params",
            "Loading model...",
            "build",
            "model",
            "modalities",
            "available commands:",
            "/exit",
            "/regen",
            "/clear",
            "/read ",
            "/glob ",
            "[ Prompt:",
            "Exiting...",
            "llama_memory_breakdown_print:",
            "<|im_start|>",
            "<|im_end|>",
            "[현재 사건 맥락]",
            "[증거 패킷 요약]",
            "[핵심 인물]",
            "[시간 흐름]",
            "[비어 있는 정보]",
            "[증거 참조표]",
            "[전략 메모]",
            "[직전 대화]",
            "[이번 요청]",
            "[응답 조건]",
            "[질문]",
            "[핵심 근거]",
            "[관련 법령]",
            "[관련 법령/참고 기준]",
            "[기록 작성 템플릿]",
            "[핵심 원칙]",
            "[품질 점검표]",
            "[금지 사항]",
            "[섹션별 가이드]",
            "[HyperCLOVA-X 기록 골격]",
            "[HyperCLOVA-X 초안]",
            "[Roosy-X 초안]",
            "[합성 지침]",
            "[추가 정보]",
            "현재 목표:",
            "전략 프리셋:",
            "AI에게 반영할 메모:",
            "기준 사건:",
            "로컬 브리핑 지표:",
            "추천 톤:",
            "추천 행동:",
            "- AI 언어모델의 이름은",
            "- 반드시 한국어로만",
            "- 영어, 중국어, 일본어",
            "- 역할:",
            "- 반드시 제공된 사건 맥락과 증거 참조표만",
            "- 사건에 없는 사실을 추가하지 말고",
            "- 핵심 판단이나 제안마다 가능하면",
            "- 답변은 교사가 바로",
            "- 과도한 법률 단정은",
            "- 응답은 가능하면 1) 상황판단",
            "- HyperCLOVA-X 초안의",
            "- Roosy-X 초안의",
            "- 둘을 비교하거나",
            "- 사용자에게 바로 전달할",
            "- 대답 속에 [합성 지침]",
            "- 너무 짧게 줄이지 말고",
            "- HyperCLOVA-X 기록 골격의",
            "- 각 섹션을 더 구체적이고",
            "- 문장감은 자연스럽게",
            "- [상황 요약], [배경 흐름]",
            "- 동일한 문장을 반복하거나",
            "- 지정된 섹션 제목만",
        ],
    );
    let ghost all = strs::views(list@);
    assert(all =~= noise_beginnings());
    let mut i: usize = 0;
    while i < list.len()
        invariant
            i <= list@.len(),
            all == strs::views(list@),
            all == noise_beginnings(),
            forall|k: int| 0 <= k < i ==> !strs::starts_with(s@, #[trigger] all[k]),
        decreases list@.len() - i,
    {
        assert(all[i as int] == list@[i as int]@);
        if text::starts_with(s, &list[i]) {
            return true;
        }
        i += 1;
    }
    false
}

/// The line is drawn with blocks.
pub open spec fn block_art(s: Seq<char>) -> bool {
    s.len() > 0 && forall|i: int|
        0 <= i < s.len() ==> "▄█▀ "@.contains(#[trigger] s[i])
}

fn is_block_art(s: &str) -> (r: bool)
    ensures
        r == block_art(s@),
{
    let v = text::chars_of(s);
    let blocks = text::chars_of("▄█▀ ");
    if v.len() == 0 {
        return false;
    }
    let mut i: usize = 0;
    while i < v.len()
        invariant
            i <= v@.len(),
            v@ == s@,
            blocks@ == "▄█▀ "@,
            forall|j: int| 0 <= j < i ==> "▄█▀ "@.contains(#[trigger] v@[j]),
        decreases v@.len() - i,
    {
        let mut k: usize = 0;
        let mut known = false;
        while k < blocks.len() && !known
            invariant
                i < v@.len(),
                k <= blocks@.len(),
                known ==> blocks@.contains(v@[i as int]),
                !known ==> forall|j: int| 0 <= j < k ==> blocks@[j] != v@[i as int],
            decreases blocks@.len() - k + (if known { 0int } else { 1int }),
        {
            if blocks[k] == v[i] {
                known = true;
            } else {
                k += 1;
            }
        }
        if !known {
            assert(!"▄█▀ "@.contains(s@[i as int]));
            return false;
        }
        i += 1;
    }
    true
}

/// The line is no part of an answer.
pub open spec fn is_noise(t: Seq<char>) -> bool {
    ||| block_art(t)
    ||| t == ">>>"@
    ||| t == "..."@
    ||| models::runtime_noise(t)
    ||| strs::contains(t, "(truncated)"@)
    ||| begins_with_any(t, noise_beginnings())
}

fn line_is_noise(t: &str) -> (r: bool)
    ensures
        r == is_noise(t@),
{
    is_block_art(t) || text::same(t, ">>>") || text::same(t, "...") || is_strategy_runtime_noise(t)
        || text::contains(t, "(truncated)") || begins_with_noise(t)
}

/// An output while its lines are read: the lines kept, and whether an echo of the question is
/// passed over.
#[verifier::ext_equal]
pub struct Kept {
    pub lines: Seq<Seq<char>>,
    pub echo: bool,
}

/// What the next line does: a quoted line begins an echo that ends at an empty line; noise and
/// broken lines are left out; empty lines are kept one at a time.
pub open spec fn keep_line(k: Kept, line: Seq<char>) -> Kept {
    let t = strs::trim(line);
    if strs::contains(t, "\u{fffd}"@) {
        k
    } else if k.echo {
        Kept { echo: t.len() > 0, ..k }
    } else if strs::starts_with(t, ">"@) {
        Kept { echo: true, ..k }
    } else if t.len() == 0 {
        Kept { lines: record_answer::spaced(k.lines), ..k }
    } else if is_noise(t) {
        k
    } else {
        Kept { lines: k.lines.push(t), ..k }
    }
}

/// The output after its lines were read.
pub open spec fn kept_lines(lines: Seq<Seq<char>>) -> Kept
    decreases lines.len(),
{
    if lines.len() == 0 {
        Kept { lines: Seq::empty(), echo: false }
    } else {
        keep_line(kept_lines(lines.drop_last()), lines.last())
    }
}

/// The answer in the output of a model.
pub open spec fn cleaned_output(raw: Seq<char>) -> Seq<char> {
    let text = strs::join(kept_lines(strs::lines(own_turn(raw))).lines, "\n"@);
    strs::first(strs::trim(record_answer::without_echo(strs::trim(text))), 4200)
}

/// The answer in the output of a model.
pub fn cleanup_strategy_output(raw: &str) -> (r: String)
    ensures
        r@ == cleaned_output(raw@),
{
    let turn = take_own_turn(raw);
    let lines = text::lines(&turn);
    let ghost all = strs::views(lines@);
    let mut kept = text::no_texts();
    let mut echo = false;
    let mut i: usize = 0;
    assert(all.take(0) =~= Seq::empty());
    while i < lines.len()
        invariant
            i <= lines@.len(),
            all == strs::views(lines@),
            kept_lines(all.take(i as int)) == (Kept { lines: strs::views(kept@), echo }),
        decreases lines@.len() - i,
    {
        assert(all.take(i + 1).drop_last() =~= all.take(i as int));
        let trimmed = text::trim(&lines[i]);
        if text::contains(&trimmed, "\u{fffd}") {
        } else if echo {
            echo = trimmed.as_str().unicode_len() > 0;
        } else if text::starts_with(&trimmed, ">") {
            echo = true;
        } else if trimmed.as_str().unicode_len() == 0 {
            record_answer::push_space(&mut kept);
        } else if !line_is_noise(&trimmed) {
            text::push(&mut kept, trimmed);
        }
        i += 1;
    }
    assert(all.take(i as int) =~= all);
    let joined = text::join(&kept, "\n");
    let own = strategy_strip_prompt_echo(&text::trim(&joined));
    strategy_trim(&text::trim(&own), 4200)
}

/// The answer names a record that it rests on.
pub fn strategy_answer_has_evidence_ref(answer: &str) -> (r: bool)
    ensures
        r == strs::contains(answer@, "[E"@),
{
    text::contains(answer, "[E")
}

/// A record, as an answer names it.
pub open spec fn evidence_ref(e: StrategyEvidenceRecord) -> Seq<char> {
    ("["@ + e.ref_id@ + "] "@ + labels::brief(e.ts@, 22) + " / "@ + labels::brief(e.actor@, 22) + " / "@ + labels::brief(e.summary@, 54))
}

fn evidence_ref_of(e: &StrategyEvidenceRecord) -> (r: String)
    ensures
        r@ == evidence_ref(*e),
{
    let mut out = text::copy("[");
    out.append(&e.ref_id);
    out.append("] ");
    out.append(&labels::brief_text(&e.ts, 22));
    out.append(" / ");
    out.append(&labels::brief_text(&e.actor, 22));
    out.append(" / ");
    out.append(&labels::brief_text(&e.summary, 54));
    out
}

/// A provision, as an answer names it.
pub open spec fn law_ref(l: StrategyLegalReference) -> Seq<char> {
    let article = if strs::trim(l.article_ref@).len() == 0 {
        strs::trim(l.article_title@)
    } else {
        strs::trim((strs::trim(l.article_ref@) + " "@ + strs::trim(l.article_title@)))
    };
    ("["@ + l.ref_id@ + "] "@ + strs::first(record_answer::law_label(l), 18) + " "@ + strs::first(article, 28))
}

fn law_ref_of(l: &StrategyLegalReference) -> (r: String)
    ensures
        r@ == law_ref(*l),
{
    let article = if text::is_blank(&l.article_ref) {
        text::trim(&l.article_title)
    } else {
        let mut both = text::copy(&text::trim(&l.article_ref));
        both.append(" ");
        both.append(&text::trim(&l.article_title));
        text::trim(&both)
    };
    let mut out = text::copy("[");
    out.append(&l.ref_id);
    out.append("] ");
    out.append(&strategy_trim(&law_label_of(l), 18));
    out.append(" ");
    out.append(&strategy_trim(&article, 28));
    out
}

/// The records that an answer rests on, where it names none.
pub open spec fn with_evidence(answer: Seq<char>, records: Seq<StrategyEvidenceRecord>) -> Seq<char> {
    if !strs::contains(answer, "[E"@) && records.len() > 0 {
        answer + "\n\n참고로 지금 판단의 중심 근거는 "@ + strs::join(
            strs::head(records, 2).map_values(|e: StrategyEvidenceRecord| evidence_ref(e)),
            ", "@,
        ) + " 정도예요."@
    } else {
        answer
    }
}

/// The provisions that belong to an answer, where it names none and the question asks for some.
pub open spec fn with_laws(
    answer: Seq<char>,
    laws: Seq<StrategyLegalReference>,
    message: Seq<char>,
) -> Seq<char> {
    let refs = strs::join(
        strs::head(laws, 2).map_values(|l: StrategyLegalReference| law_ref(l)),
        ", "@,
    );
    if !strs::contains(answer, "[L"@) && laws.len() > 0 && questions::asks_law(message)
        && strs::trim(refs).len() > 0 {
        answer + "\n\n관련 법령으로는 "@ + refs + " 정도가 함께 연결돼요."@
    } else {
        answer
    }
}

/// What is not known yet, where the answer does not say so.
pub open spec fn with_gaps(answer: Seq<char>, gaps: Seq<Seq<char>>) -> Seq<char> {
    let dense = strs::replace(answer, " "@, ""@);
    if gaps.len() > 0 && !strs::contains(dense, "확인필요"@) && !strs::contains(
        dense,
        "비어있는정보"@,
    ) && !strs::contains(dense, "추가필요"@) {
        answer + "\n\n추가로 "@ + strs::join(strs::head(gaps, 2), ", "@)
            + " 부분은 아직 확실하지 않아 확인이 더 필요해요."@
    } else {
        answer
    }
}

/// An answer with what it leaves out: records, provisions, gaps. An empty one stays empty.
pub open spec fn finished_answer(
    answer: Seq<char>,
    packet: StrategyEvidencePacket,
    message: Seq<char>,
) -> Seq<char> {
    let own = strs::trim(answer);
    if own.len() == 0 {
        own
    } else {
        let a = with_evidence(own, packet.evidence_records@);
        let b = with_laws(a, packet.legal_references@, message);
        let c = with_gaps(b, strs::views(packet.gaps@));
        strs::first(strs::trim(c), 5600)
    }
}

/// An answer with what it leaves out: records, provisions, gaps. An empty one stays empty.
pub fn finalize_strategy_answer(
    answer: &str,
    evidence_packet: &StrategyEvidencePacket,
    user_message: &str,
) -> (r: String)
    ensures
        r@ == finished_answer(answer@, *evidence_packet, user_message@),
{
    let mut out = text::trim(answer);
    if out.as_str().unicode_len() == 0 {
        return out;
    }
    if !strategy_answer_has_evidence_ref(&out) && evidence_packet.evidence_records.len() > 0 {
        let lines = text::join(
            &text::map_first(
                &evidence_packet.evidence_records,
                2,
                evidence_ref_of,
                Ghost(|e: StrategyEvidenceRecord| evidence_ref(e)),
            ),
            ", ",
        );
        out.append("\n\n참고로 지금 판단의 중심 근거는 ");
        out.append(&lines);
        out.append(" 정도예요.");
    }
    if !text::contains(&out, "[L") && evidence_packet.legal_references.len() > 0
        && strategy_question_needs_legal_refs(user_message) {
        let refs = text::join(
            &text::map_first(
                &evidence_packet.legal_references,
                2,
                law_ref_of,
                Ghost(|l: StrategyLegalReference| law_ref(l)),
            ),
            ", ",
        );
        if !text::is_blank(&refs) {
            out.append("\n\n관련 법령으로는 ");
            out.append(&refs);
            out.append(" 정도가 함께 연결돼요.");
        }
    }
    proof {
        reveal_strlit(" ");
    }
    let dense = text::replace(&out, " ", "");
    assert(strs::views(evidence_packet.gaps@).len() == evidence_packet.gaps@.len());
    if evidence_packet.gaps.len() > 0 && !text::contains(&dense, "확인필요") && !text::contains(
        &dense,
        "비어있는정보",
    ) && !text::contains(&dense, "추가필요") {
        let lines = text::join(&text::head(&evidence_packet.gaps, 2), ", ");
        out.append("\n\n추가로 ");
        out.append(&lines);
        out.append(" 부분은 아직 확실하지 않아 확인이 더 필요해요.");
    }
    strategy_trim(&text::trim(&out), 5600)
}

/// Whatever a model writes, no line of the output that is read is noise or broken.
pub proof fn kept_lines_are_no_noise(lines: Seq<Seq<char>>, i: int)
    requires
        0 <= i < kept_lines(lines).lines.len(),
    ensures
        kept_lines(lines).lines[i].len() == 0 || (!is_noise(kept_lines(lines).lines[i])
            && !strs::contains(kept_lines(lines).lines[i], "\u{fffd}"@)),
    decreases lines.len(),
{
    if lines.len() > 0 {
        let head = kept_lines(lines.drop_last());
        if i < head.lines.len() {
            kept_lines_are_no_noise(lines.drop_last(), i);
        }
    }
}

/// A line that a model was never to write is left out, wherever it stands.
pub proof fn noise_is_left_out(k: Kept, line: Seq<char>)
    requires
        is_noise(strs::trim(line)),
        strs::trim(line).len() > 0,
    ensures
        keep_line(k, line).lines == k.lines,
{
}

} // verus!
