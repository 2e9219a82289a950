//! The prompts that the models are given.

use crate::engine::labels;
use crate::engine::labels::{build_strategy_record_line_for_prompt, summarize_case_context};
use crate::engine::packet::{StrategyEvidencePacket, StrategyEvidenceRecord, StrategyLegalReference};
use crate::engine::questions;
use crate::engine::questions::{strategy_question_focus_hint, strategy_question_needs_legal_refs};
use crate::engine::records::CaseItem;
use crate::engine::sanitize;
use crate::engine::sanitize::{strategy_sanitize_text, strategy_trim};
use crate::engine::structured;
use crate::engine::structured::{itemized_line, strategy_extract_record_section_body};
use crate::engine::template;
use crate::engine::template::{
    build_strategy_record_legal_prompt_block, build_strategy_record_template_prompt_block,
    StrategyRecordModeTemplate,
};
use crate::strs;
use crate::text;
use vstd::prelude::*;

verus! {

/// A turn of a conversation.
#[derive(Debug, Clone)]
pub struct StrategyChatTurn {
    pub role: String,
    pub content: String,
}

/// The line of a turn: who spoke, and the beginning of what was said.
pub open spec fn turn_line(t: StrategyChatTurn) -> Seq<char> {
    let role = if strs::trim(t.role@) == "user"@ {
        "사용자"@
    } else {
        "어시스턴트"@
    };
    ("- "@ + role + ": "@ + strs::first(sanitize::sanitized(strs::trim(t.content@)), 160))
}

/// The last turns of a conversation, at most four.
pub open spec fn last_turns(history: Seq<StrategyChatTurn>) -> Seq<StrategyChatTurn> {
    if history.len() > 4 {
        history.skip(history.len() - 4)
    } else {
        history
    }
}

/// The last turns of a conversation, one line each.
pub open spec fn conversation_text(history: Seq<StrategyChatTurn>) -> Seq<char> {
    if history.len() == 0 {
        "- 이전 대화 없음"@
    } else {
        strs::join(last_turns(history).map_values(|t: StrategyChatTurn| turn_line(t)), "\n"@)
    }
}

/// The last turns of a conversation, one line each.
pub fn summarize_conversation(history: &[StrategyChatTurn]) -> (r: String)
    ensures
        r@ == conversation_text(history@),
{
    if history.len() == 0 {
        return "- 이전 대화 없음".to_owned();
    }
    let from: usize = if history.len() > 4 {
        history.len() - 4
    } else {
        0
    };
    let mut lines = text::no_texts();
    let mut i: usize = from;
    let ghost g = |t: StrategyChatTurn| turn_line(t);
    let ghost turns = last_turns(history@);
    assert(turns =~= history@.skip(from as int));
    assert(strs::views(lines@) =~= turns.take(0).map_values(g));
    while i < history.len()
        invariant
            from <= i <= history@.len(),
            turns == history@.skip(from as int),
            g == (|t: StrategyChatTurn| turn_line(t)),
            strs::views(lines@) == turns.take(i - from).map_values(g),
        decreases history@.len() - i,
    {
        let t = &history[i];
        let role = if text::same(&text::trim(&t.role), "user") {
            "사용자"
        } else {
            "어시스턴트"
        };
        let mut line = text::copy("- ");
        line.append(role);
        line.append(": ");
        line.append(&strategy_trim(&strategy_sanitize_text(&text::trim(&t.content)), 160));
        text::push(&mut lines, line);
        assert(turns.take(i - from + 1) =~= turns.take(i - from).push(history@[i as int]));
        assert(turns.take(i - from + 1).map_values(g) =~= turns.take(i - from).map_values(g).push(
            turn_line(history@[i as int]),
        ));
        i += 1;
    }
    assert(turns.take(i - from) =~= turns);
    text::join(&lines, "\n")
}

/// A note, cleaned and cut.
pub open spec fn note_text(note: Option<Seq<char>>, limit: nat) -> Seq<char> {
    strs::first(
        sanitize::sanitized(
            match note {
                Some(s) => s,
                None => "없음"@,
            },
        ),
        limit,
    )
}

fn note_block(note: Option<&str>, limit: usize) -> (r: String)
    ensures
        r@ == note_text(strs::opt_str(note), limit as nat),
{
    let raw = match note {
        Some(s) => s,
        None => "없음",
    };
    strategy_trim(&strategy_sanitize_text(raw), limit)
}

/// A question, cleaned and cut.
pub open spec fn question_text(message: Seq<char>, limit: nat) -> Seq<char> {
    strs::first(sanitize::sanitized(strs::trim(message)), limit)
}

fn question_block(message: &str, limit: usize) -> (r: String)
    ensures
        r@ == question_text(message@, limit as nat),
{
    strategy_trim(&strategy_sanitize_text(&text::trim(message)), limit)
}

/// What an answer is to begin with.
pub open spec fn focus_text(message: Seq<char>, usual: Seq<char>) -> Seq<char> {
    match questions::focus_hint(message) {
        Some(s) => s,
        None => usual,
    }
}

fn focus_block(message: &str, usual: &str) -> (r: String)
    ensures
        r@ == focus_text(message@, usual@),
{
    match strategy_question_focus_hint(message) {
        Some(s) => s,
        None => usual.to_owned(),
    }
}

/// The items of a list, one line each with a dash before it.
pub open spec fn item_lines(list: Seq<Seq<char>>) -> Seq<char> {
    strs::join(list.map_values(|s: Seq<char>| structured::itemized(s)), "\n"@)
}

/// The items of a list, one line each with a dash before it; `none` where there is no item.
pub open spec fn listing(list: Seq<Seq<char>>, none: Seq<char>) -> Seq<char> {
    if list.len() == 0 {
        none
    } else {
        item_lines(list)
    }
}

fn item_block(list: &Vec<String>) -> (r: String)
    ensures
        r@ == item_lines(strs::views(list@)),
{
    text::join(
        &text::map_texts(list, itemized_line, Ghost(|s: Seq<char>| structured::itemized(s))),
        "\n",
    )
}

fn list_block(list: &Vec<String>, none: &str) -> (r: String)
    ensures
        r@ == listing(strs::views(list@), none@),
{
    assert(strs::views(list@).len() == list@.len());
    if list.len() == 0 {
        none.to_owned()
    } else {
        item_block(list)
    }
}

/// The lines of the first `n` records.
pub open spec fn record_lines(records: Seq<StrategyEvidenceRecord>, n: nat) -> Seq<Seq<char>> {
    strs::head(records, n).map_values(|e: StrategyEvidenceRecord| labels::evidence_line(e))
}

fn first_record_lines(records: &Vec<StrategyEvidenceRecord>, n: usize) -> (r: Vec<String>)
    ensures
        strs::views(r@) == record_lines(records@, n as nat),
{
    text::map_first(
        records,
        n,
        build_strategy_record_line_for_prompt,
        Ghost(|e: StrategyEvidenceRecord| labels::evidence_line(e)),
    )
}

/// The line of a provision in a prompt.
pub open spec fn law_line(l: StrategyLegalReference) -> Seq<char> {
    let name = if strs::trim(l.short_name@).len() == 0 {
        strs::trim(l.law_name@)
    } else {
        (strs::trim(l.short_name@) + " ("@ + strs::trim(l.law_name@) + ")"@)
    };
    let line =
        ("["@ + l.ref_id@ + "] "@ + strs::first(name, 52) + " "@ + labels::brief(l.article_ref@, 18) + " "@ + labels::brief(l.article_title@, 44));
    let with_point = if strs::trim(l.legal_point@).len() > 0 {
        line  + " | 취지: "@ + labels::brief(l.legal_point@, 120)
    } else {
        line
    };
    let with_use = if strs::trim(l.teacher_use_case@).len() > 0 {
        with_point  + " | 현장 적용: "@ + labels::brief(l.teacher_use_case@, 110)
    } else {
        with_point
    };
    if l.relevance_reasons@.len() > 0 {
        with_use  + " | 연결 이유: "@ + strs::first(strs::join(strs::views(l.relevance_reasons@), ", "@), 96)
    } else {
        with_use
    }
}

/// The line of a provision in a prompt.
pub fn build_strategy_legal_line_for_prompt(reference: &StrategyLegalReference) -> (r: String)
    ensures
        r@ == law_line(*reference),
{
    let name = if text::is_blank(&reference.short_name) {
        text::trim(&reference.law_name)
    } else {
        let mut name = text::copy(&text::trim(&reference.short_name));
        name.append(" (");
        name.append(&text::trim(&reference.law_name));
        name.append(")");
        name
    };
    let mut line = text::copy("[");
    line.append(&reference.ref_id);
    line.append("] ");
    line.append(&strategy_trim(&name, 52));
    line.append(" ");
    line.append(&labels::brief_text(&reference.article_ref, 18));
    line.append(" ");
    line.append(&labels::brief_text(&reference.article_title, 44));
    if !text::is_blank(&reference.legal_point) {
        line.append(" | 취지: ");
        line.append(&labels::brief_text(&reference.legal_point, 120));
    }
    if !text::is_blank(&reference.teacher_use_case) {
        line.append(" | 현장 적용: ");
        line.append(&labels::brief_text(&reference.teacher_use_case, 110));
    }
    if reference.relevance_reasons.len() > 0 {
        line.append(" | 연결 이유: ");
        line.append(&strategy_trim(&text::join(&reference.relevance_reasons, ", "), 96));
    }
    line
}

/// The lines of the first `n` provisions.
pub open spec fn law_lines(laws: Seq<StrategyLegalReference>, n: nat) -> Seq<Seq<char>> {
    strs::head(laws, n).map_values(|l: StrategyLegalReference| law_line(l))
}

fn first_law_lines(laws: &Vec<StrategyLegalReference>, n: usize) -> (r: Vec<String>)
    ensures
        strs::views(r@) == law_lines(laws@, n as nat),
{
    text::map_first(
        laws,
        n,
        build_strategy_legal_line_for_prompt,
        Ghost(|l: StrategyLegalReference| law_line(l)),
    )
}

/// What a model is told before a question.
pub const SYSTEM_PROMPT: &'static str = "- AI 언어모델의 이름은 \"CLOVA X\" 이며 네이버에서 만들었다.\n- 반드시 한국어로만 답하라.\n- 영어, 중국어, 일본어, 한자 사용 금지.\n- 역할: 학교 현장 분쟁·민원 대응을 돕는 증거 기반 전략자문 에이전트.\n- 반드시 제공된 사건 맥락과 증거 참조표만 근거로 답하라.\n- 관련 법령 참조표가 함께 주어지면 사건 증거와 연결되는 범위 안에서만 조심스럽게 활용하라.\n- 입력으로 주어진 사건 맥락, 증거 참조표, 법령 참조표 문구를 그대로 길게 다시 베끼지 말라.\n- 사건에 없는 사실을 추가하지 말고, 확실하지 않으면 모른다고 적어라.\n- 첫 문장에서 사용자의 질문에 직접 답하라.\n- 근거는 별도 '근거 묶음' 섹션으로 떼어내지 말고, 답변 문장 안에 자연스럽게 녹여라.\n- 핵심 판단이나 제안마다 가능하면 [E1], [E2] 형식의 근거 표기를 문장 안에 붙여라.\n- 법령을 언급할 때는 가능하면 [L1], [L2]처럼 표시하고, 조문 취지와 현장 적용 포인트만 짧게 연결하라.\n- 답변은 교사가 바로 복사해 쓸 수 있게 실무적으로 작성하라.\n- 과도한 법률 단정이나 최종 법률판단은 피하고, 기록·증거·말의 톤·다음 행동 중심으로 답하라.\n- 응답은 대화형으로 자연스럽게 이어가되, 필요하면 짧은 bullet만 사용하라.\n- 응답은 가능하면 1) 상황판단 2) 지금 먼저 할 말 3) 바로 남길 기록 4) 다음 행동 순서를 자연스럽게 따른다.";

/// What a model is told before a question.
pub fn build_strategy_system_prompt() -> (r: String)
    ensures
        r@ == SYSTEM_PROMPT@,
{
    SYSTEM_PROMPT.to_owned()
}

/// What a model is told before it writes a record.
pub const RECORD_SYSTEM_PROMPT: &'static str = "- AI 언어모델의 이름은 \"CLOVA X\" 이며 네이버에서 만들었다.\n- 반드시 한국어로만 답하라.\n- 역할: 학교 현장 사안을 빠른 기록 양식으로 정리하는 기록작성 에이전트.\n- 제공된 사용자 입력과 참고 기록만 근거로 기록 초안을 작성하라.\n- 사건에 없는 사실을 덧붙이지 말고, 모르는 값은 '미상'이라고 적어라.\n- 문체는 감정적 해석보다 중립적 사실 정리 중심으로 유지하라.\n- 빠르게 적는 수준에서 끝내지 말고, 나중에 다시 봐도 맥락이 살아 있도록 실질적이고 촘촘한 기록으로 써라.\n- 먼저 사건의 큰 흐름과 섹션 구조를 안정적으로 세우고, 그 안을 구체적인 사실과 조치 내용으로 채우는 방식으로 작성하라.\n- [상황 요약]은 단순 한 줄이 아니라, 누가 언제 어디서 무엇을 했는지 한 번에 읽히는 탄탄한 문단으로 작성하라.\n- [배경 흐름]에는 사건 직전 맥락, 이전 갈등, 선행 조치가 있으면 빠뜨리지 말고 정리하라.\n- [핵심 포인트]에는 위험 신호, 확인이 필요한 점, 즉시 남겨야 할 포인트를 분리해서 적어라.\n- [관련 자료]에는 이미 있는 증거, 추가로 확보할 자료, 확인한 사람을 실무적으로 정리하라.\n- [내 대응 메모]에는 교사가 실제로 한 말, 즉시 취한 조치, 후속 안내 계획, 상대에게 전달한 설명을 구체적으로 적어라.\n- 값이 모호하면 짧게 비워두지 말고 왜 미상인지 또는 무엇을 추가 확인해야 하는지 적어라.\n- 출력은 반드시 지정된 섹션만, 지정된 순서대로 작성하라.\n- 섹션 제목 앞뒤에 다른 안내 문장이나 인사말을 붙이지 말라.\n- 기록 초안 마지막에 설명, 주의사항, 요약 코멘트를 덧붙이지 말라.\n- 아래 섹션을 그대로 사용하라:\n[기록 기본정보]\n[상황 요약]\n[배경 흐름]\n[핵심 포인트]\n[관련 자료]\n[내 대응 메모]\n[추가 메모]\n- [기록 기본정보]에는 다음 항목을 bullet로 적어라:\n- 기록 시각:\n- 주체:\n- 상대방:\n- 위치/채널:\n- 자료 형태:\n- 민감도:";

/// What a model is told before it writes a record.
pub fn build_strategy_record_system_prompt() -> (r: String)
    ensures
        r@ == RECORD_SYSTEM_PROMPT@,
{
    RECORD_SYSTEM_PROMPT.to_owned()
}

/// What a model is told before it merges two records.
pub const RECORD_HYBRID_SYSTEM_PROMPT: &'static str = "- AI 언어모델의 이름은 \"CLOVA X\" 이며 네이버에서 만들었다.\n- 반드시 한국어로만 답하라.\n- 역할: 두 개의 기록 초안을 하나의 빠른캡쳐형 기록 초안으로 합치는 기록 편집 에이전트.\n- HyperCLOVA-X 초안은 최종 기록의 기본 뼈대이며, 사실관계·시간 흐름·누락 보완·보수적 표현을 우선 기준으로 삼아라.\n- Roosy-X 초안은 읽기 흐름, 현장형 표현, 저장 전 문장 다듬기와 실무 메모 보강용으로만 활용하라.\n- 최종 초안은 HyperCLOVA-X 초안을 기준으로 만들고, Roosy-X 초안의 장점은 가독성과 자연스러운 표현 보완에 제한적으로 반영하라.\n- 출력은 반드시 지정된 섹션 제목과 순서만 사용하라.\n- 입력에 없는 사실을 새로 만들지 말고, 불확실한 값은 '미상' 또는 '추가 확인 필요'로 적어라.\n- [상황 요약]은 한 번에 읽히는 1개 문단으로 쓰되, 누가·언제·어디서·무엇을·어떻게·그 직후 어떤 조치가 있었는지 빠뜨리지 말라.\n- [배경 흐름], [핵심 포인트], [관련 자료], [내 대응 메모], [추가 메모]는 실무 검토와 사후 재구성에 충분할 정도로 구체적이고 체계적으로 작성하라.\n- 지나치게 짧게 줄이거나 문장감을 위해 정보를 덜어내지 말고, 추후 보고·상담·민원 대응에 바로 써먹을 수 있을 정도로 탄탄하게 적어라.\n- 기록 초안 마지막에 설명이나 주석을 덧붙이지 말라.\n- 가능하면 템플릿 평가 매트릭(충실성, 시간 흐름, 완결성, 자료 근거성, 중립성, 제출 가능성)을 마음속으로 먼저 점검한 뒤, 부족한 부분만 보완하라.";

/// What a model is told before it merges two records.
pub fn build_strategy_record_hybrid_system_prompt() -> (r: String)
    ensures
        r@ == RECORD_HYBRID_SYSTEM_PROMPT@,
{
    RECORD_HYBRID_SYSTEM_PROMPT.to_owned()
}

/// What a model is told before it reviews a record.
pub const RECORD_REVIEW_SYSTEM_PROMPT: &'static str = "- AI 언어모델의 이름은 \"CLOVA X\" 이며 네이버에서 만들었다.\n- 반드시 한국어로만 답하라.\n- 역할: 기록 초안을 평가 매트릭 기준으로 스스로 점검하고, 필요한 부분만 보강하는 기록 품질 검토 에이전트.\n- 충실성, 시간 흐름, 완결성, 자료 근거성, 중립성, 제출 가능성을 기준으로 초안을 조용히 점검하라.\n- 입력에 없는 사실은 절대 추가하지 말라.\n- 초안이 이미 적절하면 구조는 그대로 유지하되, 누락값 표기와 문장 연결만 최소 보완하라.\n- 출력은 최종 기록 초안 본문만 하라. 점수, 평가표, 코멘트, 자기설명은 출력하지 말라.\n- 지정된 섹션 제목과 순서만 유지하라.\n- 같은 문장을 반복하거나 같은 섹션을 두 번 쓰지 말라.";

/// What a model is told before it reviews a record.
pub fn build_strategy_record_review_system_prompt() -> (r: String)
    ensures
        r@ == RECORD_REVIEW_SYSTEM_PROMPT@,
{
    RECORD_REVIEW_SYSTEM_PROMPT.to_owned()
}

/// What a model is told before it gives a record as data.
pub const RECORD_RENDERER_SYSTEM_PROMPT: &'static str = "- AI 언어모델의 이름은 \"CLOVA X\" 이며 네이버에서 만들었다.\n- 반드시 한국어로만 답하라.\n- 역할: 기록 초안을 구조화 JSON으로 정리하는 resident report planner.\n- 최종 문서의 헤더, 섹션 제목, 고정 표기는 앱이 렌더링하므로 너는 사실 내용만 JSON 값으로 작성하라.\n- 아래 6개 키만 포함한 단일 JSON object만 출력하라.\n- 마크다운, 코드펜스, 설명 문장, 주석, 서문, 후기는 금지한다.\n- 키는 정확히 summary, actors, timeline, issues, evidence, recommended_questions만 사용하라.\n- summary는 하나의 촘촘한 문단 문자열로 쓴다.\n- actors, timeline, issues, evidence, recommended_questions는 문자열 배열로 쓴다.\n- 입력에 없는 사실은 추가하지 말고, 불확실하면 '미상' 또는 '추가 확인 필요'처럼 적어라.\n- recommended_questions는 후속 확인 질문 또는 추가 메모 포인트만 간결하게 넣어라.\n- 절대 섹션 제목([기록 기본정보] 등)을 다시 출력하지 말라.";

/// What a model is told before it gives a record as data.
pub fn build_strategy_record_renderer_system_prompt() -> (r: String)
    ensures
        r@ == RECORD_RENDERER_SYSTEM_PROMPT@,
{
    RECORD_RENDERER_SYSTEM_PROMPT.to_owned()
}

/// What a model is told before it merges two answers.
pub const HYBRID_SYSTEM_PROMPT: &'static str = "- AI 언어모델의 이름은 \"CLOVA X\" 이며 네이버에서 만들었다.\n- 반드시 한국어로만 답하라.\n- 역할: 두 개의 전략자문 초안을 하나의 최종 답변으로 합치는 편집 에이전트.\n- 최종 문장과 답변 흐름은 Roosy-X 초안을 기본으로 삼고, HyperCLOVA-X 초안은 사실 과장 방지와 근거 정렬용으로 활용하라.\n- HyperCLOVA-X 초안의 근거성·균형감은 안전장치로 쓰고, Roosy-X 초안의 직관성·실무 문장은 전면에 세워라.\n- 입력 초안을 비교평가하지 말고, 사용자에게 바로 보여줄 최종 답변만 작성하라.\n- 사건·증거·법령은 입력에 포함된 범위만 사용하라.\n- 사실 단정은 조심하고, 확실하지 않은 부분은 확인 필요로 표현하라.\n- 첫 문장에서 사용자의 질문에 직접 답하라.\n- 근거는 문장 안에 자연스럽게 [E1], [L1]처럼 녹여라.\n- 답변은 가능하면 1) 상황판단 2) 지금 먼저 할 말 3) 바로 남길 기록 4) 다음 행동 순서를 자연스럽게 따른다.\n- 초안 문장을 그대로 길게 이어붙이지 말고, 하나의 매끈한 최종 한국어 답변으로 정리하라.\n- 증거 목록을 길게 다시 나열하지 말고, 결론을 뒷받침하는 핵심 근거만 짧게 묶어 설명하라.";

/// What a model is told before it merges two answers.
pub fn build_strategy_hybrid_system_prompt() -> (r: String)
    ensures
        r@ == HYBRID_SYSTEM_PROMPT@,
{
    HYBRID_SYSTEM_PROMPT.to_owned()
}

/// The headings that a compact draft keeps.
pub open spec fn kept_headings() -> Seq<Seq<char>> {
    seq![
        "[상황 요약]"@,
        "[배경 흐름]"@,
        "[핵심 포인트]"@,
        "[관련 자료]"@,
        "[내 대응 메모]"@,
        "[추가 메모]"@,
    ]
}

/// The sections of a draft under the given headings, each cut, without blank ones.
pub open spec fn kept_sections(draft: Seq<char>, headings: Seq<Seq<char>>) -> Seq<Seq<char>>
    decreases headings.len(),
{
    if headings.len() == 0 {
        Seq::empty()
    } else {
        let head = kept_sections(draft, headings.drop_last());
        let body = structured::section_body(draft, headings.last());
        if strs::trim(body).len() > 0 {
            head.push((headings.last() + "\n"@ + strs::first(body, 320)))
        } else {
            head
        }
    }
}

/// A draft with its sections cut; the draft itself where it has none.
pub open spec fn compact_draft(draft: Seq<char>) -> Seq<char> {
    let sections = kept_sections(draft, kept_headings());
    if sections.len() == 0 {
        strs::first(strs::trim(draft), 1600)
    } else {
        strs::first(strs::join(sections, "\n\n"@), 1600)
    }
}

fn compact_draft_text(draft: &str) -> (r: String)
    ensures
        r@ == compact_draft(draft@),
{
    let headings = text::owned(
        &[
            "[상황 요약]",
            "[배경 흐름]",
            "[핵심 포인트]",
            "[관련 자료]",
            "[내 대응 메모]",
            "[추가 메모]",
        ],
    );
    let ghost all = strs::views(headings@);
    assert(all =~= kept_headings());
    let mut parts = text::no_texts();
    let mut i: usize = 0;
    assert(all.take(0) =~= Seq::empty());
    while i < headings.len()
        invariant
            i <= headings@.len(),
            all == strs::views(headings@),
            strs::views(parts@) == kept_sections(draft@, all.take(i as int)),
        decreases headings@.len() - i,
    {
        assert(all.take(i + 1).drop_last() =~= all.take(i as int));
        let body = strategy_extract_record_section_body(draft, &headings[i]);
        if !text::is_blank(&body) {
            let mut part = text::copy(&headings[i]);
            part.append("\n");
            part.append(&strategy_trim(&body, 320));
            text::push(&mut parts, part);
        }
        i += 1;
    }
    assert(all.take(i as int) =~= all);
    assert(strs::views(parts@).len() == parts@.len());
    if parts.len() == 0 {
        strategy_trim(&text::trim(draft), 1600)
    } else {
        strategy_trim(&text::join(&parts, "\n\n"), 1600)
    }
}

/// The prompt of a question, with all that was gathered for it.
pub open spec fn user_prompt(
    packet: StrategyEvidencePacket,
    c: Option<CaseItem>,
    message: Seq<char>,
    note: Option<Seq<char>>,
    history: Seq<StrategyChatTurn>,
) -> Seq<char> {
    let case_block = labels::case_context(c);
    let records = if packet.evidence_records@.len() == 0 {
        "- 연결된 증거 없음"@
    } else {
        strs::join(
            record_lines(packet.evidence_records@, packet.evidence_records@.len()),
            "\n"@,
        )
    };
    let note = note_text(note, 320);
    let history = conversation_text(history);
    let question = question_text(message, 360);
    let focus = focus_text(message, "- 이번 질문의 핵심 의도를 첫 문장에서 직접 답하라."@);
    let actors = listing(strs::views(packet.actor_summary@), "- 정리된 인물 없음"@);
    let gaps = listing(strs::views(packet.gaps@), "- 특별히 비어 있는 정보 없음"@);
    let timeline = listing(strs::views(packet.timeline_summary@), "- 시간 흐름 요약 없음"@);
    let laws = listing(law_lines(packet.legal_references@, packet.legal_references@.len()), "- 바로 연결된 법령 없음"@);
    sanitize::sanitized(
        ("[현재 사건 맥락]\n"@ + case_block + "\n\n[증거 패킷 요약]\n- "@ + packet.focus_summary@ + "\n- "@ + packet.overview@ + "\n\n[핵심 인물]\n"@ + actors + "\n\n[시간 흐름]\n"@ + timeline + "\n\n[비어 있는 정보]\n"@ + gaps + "\n\n[증거 참조표]\n"@ + records + "\n\n[관련 법령 참조표]\n"@ + laws + "\n\n[전략 메모]\n"@ + note + "\n\n[직전 대화]\n"@ + history + "\n\n[이번 요청]\n"@ + question + "\n\n[질문 초점]\n"@ + focus + "\n\n[응답 조건]\n- 한국어만 사용\n- 학교 현장에서 바로 쓰는 표현\n- 첫 문장에서 질문에 직접 답할 것\n- 너무 긴 설명보다 핵심 위주\n- 필요한 경우 bullet 사용 가능\n- 사건에 없는 사실은 추정하지 말 것\n- '현재 근거 묶음 보기' 같은 별도 섹션 제목은 만들지 말 것\n- 근거는 답변 문장 안에 [E1]처럼 자연스럽게 섞어 쓸 것\n- 법령을 쓸 때는 [L1]처럼 자연스럽게 섞되, 최종 법률판단처럼 단정하지 말 것\n- 비어 있는 정보나 확인 필요 사항도 별도 큰 섹션보다 문장 말미에 자연스럽게 덧붙일 것\n- 근거가 약한 내용은 '확실하지 않음'이라고 쓸 것"@),
    )
}

/// The prompt of a question, with all that was gathered for it.
pub fn build_strategy_user_prompt(
    evidence_packet: &StrategyEvidencePacket,
    case_item: Option<&CaseItem>,
    message: &str,
    strategy_note: Option<&str>,
    conversation: &[StrategyChatTurn],
) -> (r: String)
    ensures
        r@ == user_prompt(
            *evidence_packet,
            labels::deref_case(case_item),
            message@,
            strs::opt_str(strategy_note),
            conversation@,
        ),
{
    let case_block = summarize_case_context(case_item);
    let records = if evidence_packet.evidence_records.len() == 0 {
        "- 연결된 증거 없음".to_owned()
    } else {
        let n: usize = evidence_packet.evidence_records.len();
        text::join(&first_record_lines(&evidence_packet.evidence_records, n), "\n")
    };
    let note = note_block(strategy_note, 320);
    let history = summarize_conversation(conversation);
    let question = question_block(message, 360);
    let focus = focus_block(message, "- 이번 질문의 핵심 의도를 첫 문장에서 직접 답하라.");
    let actors = list_block(&evidence_packet.actor_summary, "- 정리된 인물 없음");
    let gaps = list_block(&evidence_packet.gaps, "- 특별히 비어 있는 정보 없음");
    let timeline = list_block(&evidence_packet.timeline_summary, "- 시간 흐름 요약 없음");
    let laws = list_block(&first_law_lines(&evidence_packet.legal_references, evidence_packet.legal_references.len()), "- 바로 연결된 법령 없음");
    let mut out = text::copy("[현재 사건 맥락]\n");
    out.append(&case_block);
    out.append("\n\n[증거 패킷 요약]\n- ");
    out.append(&evidence_packet.focus_summary);
    out.append("\n- ");
    out.append(&evidence_packet.overview);
    out.append("\n\n[핵심 인물]\n");
    out.append(&actors);
    out.append("\n\n[시간 흐름]\n");
    out.append(&timeline);
    out.append("\n\n[비어 있는 정보]\n");
    out.append(&gaps);
    out.append("\n\n[증거 참조표]\n");
    out.append(&records);
    out.append("\n\n[관련 법령 참조표]\n");
    out.append(&laws);
    out.append("\n\n[전략 메모]\n");
    out.append(&note);
    out.append("\n\n[직전 대화]\n");
    out.append(&history);
    out.append("\n\n[이번 요청]\n");
    out.append(&question);
    out.append("\n\n[질문 초점]\n");
    out.append(&focus);
    out.append("\n\n[응답 조건]\n- 한국어만 사용\n- 학교 현장에서 바로 쓰는 표현\n- 첫 문장에서 질문에 직접 답할 것\n- 너무 긴 설명보다 핵심 위주\n- 필요한 경우 bullet 사용 가능\n- 사건에 없는 사실은 추정하지 말 것\n- '현재 근거 묶음 보기' 같은 별도 섹션 제목은 만들지 말 것\n- 근거는 답변 문장 안에 [E1]처럼 자연스럽게 섞어 쓸 것\n- 법령을 쓸 때는 [L1]처럼 자연스럽게 섞되, 최종 법률판단처럼 단정하지 말 것\n- 비어 있는 정보나 확인 필요 사항도 별도 큰 섹션보다 문장 말미에 자연스럽게 덧붙일 것\n- 근거가 약한 내용은 '확실하지 않음'이라고 쓸 것");
    strategy_sanitize_text(&out)
}

/// The prompt of a question, with what matters most.
pub open spec fn draft_prompt(
    packet: StrategyEvidencePacket,
    c: Option<CaseItem>,
    message: Seq<char>,
    note: Option<Seq<char>>,
) -> Seq<char> {
    let case_block = labels::case_context(c);
    let note = note_text(note, 180);
    let question = question_text(message, 220);
    let focus = focus_text(message, "- 첫 문장에서 질문에 직접 답하고, 바로 실무 판단으로 이어가라."@);
    let records = listing(record_lines(packet.evidence_records@, 3), "- 연결된 핵심 근거 없음"@);
    let laws = if questions::asks_law(message) {
        listing(law_lines(packet.legal_references@, 2), "- 이번 질문에서 법령 직접 인용은 우선순위가 낮음"@)
    } else {
        "- 이번 질문에서 법령 직접 인용은 우선순위가 낮음"@
    };
    sanitize::sanitized(
        ("[현재 사건 맥락]\n"@ + case_block + "\n\n[핵심 근거]\n"@ + records + "\n\n[관련 법령]\n"@ + laws + "\n\n[전략 메모]\n"@ + note + "\n\n[질문]\n"@ + question + "\n\n[질문 초점]\n"@ + focus + "\n\n[응답 조건]\n- 첫 문장에서 질문에 직접 답할 것\n- 증거 목록을 길게 다시 늘어놓지 말 것\n- 학교 현장에서 바로 쓸 수 있는 한국어 문장으로 답할 것\n- 너무 긴 설명보다 결론과 행동 제안을 먼저 줄 것"@),
    )
}

/// The prompt of a question, with what matters most.
pub fn build_strategy_user_prompt_for_draft(
    evidence_packet: &StrategyEvidencePacket,
    case_item: Option<&CaseItem>,
    message: &str,
    strategy_note: Option<&str>,
) -> (r: String)
    ensures
        r@ == draft_prompt(
            *evidence_packet,
            labels::deref_case(case_item),
            message@,
            strs::opt_str(strategy_note),
        ),
{
    let case_block = summarize_case_context(case_item);
    let note = note_block(strategy_note, 180);
    let question = question_block(message, 220);
    let focus = focus_block(message, "- 첫 문장에서 질문에 직접 답하고, 바로 실무 판단으로 이어가라.");
    let records = list_block(&first_record_lines(&evidence_packet.evidence_records, 3), "- 연결된 핵심 근거 없음");
    let laws = if strategy_question_needs_legal_refs(message) {
        list_block(&first_law_lines(&evidence_packet.legal_references, 2), "- 이번 질문에서 법령 직접 인용은 우선순위가 낮음")
    } else {
        "- 이번 질문에서 법령 직접 인용은 우선순위가 낮음".to_owned()
    };
    let mut out = text::copy("[현재 사건 맥락]\n");
    out.append(&case_block);
    out.append("\n\n[핵심 근거]\n");
    out.append(&records);
    out.append("\n\n[관련 법령]\n");
    out.append(&laws);
    out.append("\n\n[전략 메모]\n");
    out.append(&note);
    out.append("\n\n[질문]\n");
    out.append(&question);
    out.append("\n\n[질문 초점]\n");
    out.append(&focus);
    out.append("\n\n[응답 조건]\n- 첫 문장에서 질문에 직접 답할 것\n- 증거 목록을 길게 다시 늘어놓지 말 것\n- 학교 현장에서 바로 쓸 수 있는 한국어 문장으로 답할 것\n- 너무 긴 설명보다 결론과 행동 제안을 먼저 줄 것");
    strategy_sanitize_text(&out)
}

/// The prompt of a record.
pub open spec fn record_prompt(
    t: StrategyRecordModeTemplate,
    packet: StrategyEvidencePacket,
    c: Option<CaseItem>,
    message: Seq<char>,
    note: Option<Seq<char>>,
    history: Seq<StrategyChatTurn>,
) -> Seq<char> {
    let case_block = labels::case_context(c);
    let note = note_text(note, 220);
    let question = question_text(message, 520);
    let history = conversation_text(history);
    let actors = listing(strs::views(packet.actor_summary@), "- 정리된 인물 없음"@);
    let timeline = listing(strs::views(packet.timeline_summary@), "- 시간 흐름 참고 없음"@);
    let records = listing(record_lines(packet.evidence_records@, 5), "- 참고 기록 없음"@);
    let gaps = listing(strs::views(packet.gaps@), "- 특별히 비어 있는 정보 없음"@);
    let laws = template::record_law_block(packet.legal_references@);
    let template_text = template::template_block(t, template::profile_of(packet, message));
    sanitize::sanitized(
        ("[사용자 입력 상황]\n"@ + question + "\n\n[사건 맥락]\n"@ + case_block + "\n\n[참고 인물]\n"@ + actors + "\n\n[참고 시간 흐름]\n"@ + timeline + "\n\n[참고 기록]\n"@ + records + "\n\n[관련 법령/참고 기준]\n"@ + laws + "\n\n"@ + template_text + "\n\n[확인이 더 필요한 부분]\n"@ + gaps + "\n\n[전략 메모]\n"@ + note + "\n\n[직전 대화]\n"@ + history + "\n\n[출력 규칙]\n- 반드시 지정된 섹션 제목만 사용할 것\n- 사건에 없는 사실은 만들지 말 것\n- 값이 불확실하면 '미상' 또는 '추가 확인 필요'로 표기할 것\n- [상황 요약]에는 누가, 언제, 어디서, 어떤 흐름으로 상황이 벌어졌는지뿐 아니라, 직후 조치와 현재 상태까지 한 번에 읽히는 핵심 기록 문단을 쓸 것\n- [배경 흐름], [핵심 포인트], [관련 자료], [내 대응 메모], [추가 메모]는 각각 2~5문장 안에서 탄탄하고 실무적으로 정리할 것\n- 가능하면 시간 흐름, 직접 관찰한 사실, 들은 내용, 추가 확인 필요 사항을 헷갈리지 않게 분리해서 적을 것\n- 짧은 메모처럼 끝내지 말고, 나중에 다시 봐도 상황이 재구성될 정도로 정보를 남길 것\n- 참고 법령이 있다면 사실관계와 조치 기준을 보강하는 정도로만 활용하고, 법률 해석처럼 길게 쓰지 말 것"@),
    )
}

/// The prompt of a record.
pub fn build_strategy_record_user_prompt(
    template: &StrategyRecordModeTemplate,
    evidence_packet: &StrategyEvidencePacket,
    case_item: Option<&CaseItem>,
    message: &str,
    strategy_note: Option<&str>,
    conversation: &[StrategyChatTurn],
) -> (r: String)
    ensures
        r@ == record_prompt(
            *template,
            *evidence_packet,
            labels::deref_case(case_item),
            message@,
            strs::opt_str(strategy_note),
            conversation@,
        ),
{
    let case_block = summarize_case_context(case_item);
    let note = note_block(strategy_note, 220);
    let question = question_block(message, 520);
    let history = summarize_conversation(conversation);
    let actors = list_block(&evidence_packet.actor_summary, "- 정리된 인물 없음");
    let timeline = list_block(&evidence_packet.timeline_summary, "- 시간 흐름 참고 없음");
    let records = list_block(&first_record_lines(&evidence_packet.evidence_records, 5), "- 참고 기록 없음");
    let gaps = list_block(&evidence_packet.gaps, "- 특별히 비어 있는 정보 없음");
    let laws = build_strategy_record_legal_prompt_block(evidence_packet);
    let template_text = build_strategy_record_template_prompt_block(template, evidence_packet, message);
    let mut out = text::copy("[사용자 입력 상황]\n");
    out.append(&question);
    out.append("\n\n[사건 맥락]\n");
    out.append(&case_block);
    out.append("\n\n[참고 인물]\n");
    out.append(&actors);
    out.append("\n\n[참고 시간 흐름]\n");
    out.append(&timeline);
    out.append("\n\n[참고 기록]\n");
    out.append(&records);
    out.append("\n\n[관련 법령/참고 기준]\n");
    out.append(&laws);
    out.append("\n\n");
    out.append(&template_text);
    out.append("\n\n[확인이 더 필요한 부분]\n");
    out.append(&gaps);
    out.append("\n\n[전략 메모]\n");
    out.append(&note);
    out.append("\n\n[직전 대화]\n");
    out.append(&history);
    out.append("\n\n[출력 규칙]\n- 반드시 지정된 섹션 제목만 사용할 것\n- 사건에 없는 사실은 만들지 말 것\n- 값이 불확실하면 '미상' 또는 '추가 확인 필요'로 표기할 것\n- [상황 요약]에는 누가, 언제, 어디서, 어떤 흐름으로 상황이 벌어졌는지뿐 아니라, 직후 조치와 현재 상태까지 한 번에 읽히는 핵심 기록 문단을 쓸 것\n- [배경 흐름], [핵심 포인트], [관련 자료], [내 대응 메모], [추가 메모]는 각각 2~5문장 안에서 탄탄하고 실무적으로 정리할 것\n- 가능하면 시간 흐름, 직접 관찰한 사실, 들은 내용, 추가 확인 필요 사항을 헷갈리지 않게 분리해서 적을 것\n- 짧은 메모처럼 끝내지 말고, 나중에 다시 봐도 상황이 재구성될 정도로 정보를 남길 것\n- 참고 법령이 있다면 사실관계와 조치 기준을 보강하는 정도로만 활용하고, 법률 해석처럼 길게 쓰지 말 것");
    strategy_sanitize_text(&out)
}

/// The prompt that fills the frame of a record.
pub open spec fn fill_prompt(
    t: StrategyRecordModeTemplate,
    packet: StrategyEvidencePacket,
    c: Option<CaseItem>,
    message: Seq<char>,
    note: Option<Seq<char>>,
    hyper: Seq<char>,
) -> Seq<char> {
    let case_block = labels::case_context(c);
    let note = note_text(note, 220);
    let question = question_text(message, 520);
    let records = listing(record_lines(packet.evidence_records@, 5), "- 참고 기록 없음"@);
    let laws = template::record_law_block(packet.legal_references@);
    let template_text = template::template_block(t, template::profile_of(packet, message));
    let gaps = listing(strs::views(packet.gaps@), "- 특별히 비어 있는 정보 없음"@);
    let hyper_text = labels::brief(hyper, 3200);
    sanitize::sanitized(
        ("[사용자 입력 상황]\n"@ + question + "\n\n[사건 맥락]\n"@ + case_block + "\n\n[참고 기록]\n"@ + records + "\n\n[관련 법령/참고 기준]\n"@ + laws + "\n\n"@ + template_text + "\n\n[추가 확인 필요]\n"@ + gaps + "\n\n[전략 메모]\n"@ + note + "\n\n[HyperCLOVA-X 기록 골격]\n"@ + hyper_text + "\n\n[작성 지침]\n- HyperCLOVA-X 기록 골격의 섹션 구조와 사실 흐름을 절대 무너뜨리지 말라.\n- 너의 역할은 골격 안을 채우는 것이다. 각 섹션을 더 구체적이고 실무적으로 채우되, 입력에 없는 사실은 새로 만들지 말라.\n- [상황 요약]은 누가, 언제, 어디서, 어떤 상황에서 무엇을 했고 직후 조치가 무엇이었는지 한 번에 읽히도록 촘촘한 문단으로 채워라.\n- [배경 흐름]은 이전 갈등, 직전 맥락, 반복 징후, 선행 안내가 보이면 꼭 보강하라.\n- [핵심 포인트]는 사후 검토에 필요한 쟁점을 번호감 없이 명확히 채워라.\n- [관련 자료]는 이미 있는 자료, 바로 추가 확보할 자료, 확인이 필요한 사람과 채널을 실무적으로 채워라.\n- [내 대응 메모]는 실제로 한 말, 즉시 취한 조치, 설명 내용, 후속 계획을 빠뜨리지 말고 구체적으로 적어라.\n- 문장감은 자연스럽게 다듬되, 사실 밀도와 체계성을 절대 줄이지 말라.\n- 동일한 문장을 반복하거나 같은 섹션을 두 번 쓰지 말라.\n- 지정된 섹션 제목만 사용하고, 마지막에 설명 문장을 붙이지 말라."@),
    )
}

/// The prompt that fills the frame of a record.
pub fn build_strategy_record_fill_user_prompt(
    template: &StrategyRecordModeTemplate,
    evidence_packet: &StrategyEvidencePacket,
    case_item: Option<&CaseItem>,
    message: &str,
    strategy_note: Option<&str>,
    hyper_answer: &str,
) -> (r: String)
    ensures
        r@ == fill_prompt(
            *template,
            *evidence_packet,
            labels::deref_case(case_item),
            message@,
            strs::opt_str(strategy_note),
            hyper_answer@,
        ),
{
    let case_block = summarize_case_context(case_item);
    let note = note_block(strategy_note, 220);
    let question = question_block(message, 520);
    let records = list_block(&first_record_lines(&evidence_packet.evidence_records, 5), "- 참고 기록 없음");
    let laws = build_strategy_record_legal_prompt_block(evidence_packet);
    let template_text = build_strategy_record_template_prompt_block(template, evidence_packet, message);
    let gaps = list_block(&evidence_packet.gaps, "- 특별히 비어 있는 정보 없음");
    let hyper_text = labels::brief_text(hyper_answer, 3200);
    let mut out = text::copy("[사용자 입력 상황]\n");
    out.append(&question);
    out.append("\n\n[사건 맥락]\n");
    out.append(&case_block);
    out.append("\n\n[참고 기록]\n");
    out.append(&records);
    out.append("\n\n[관련 법령/참고 기준]\n");
    out.append(&laws);
    out.append("\n\n");
    out.append(&template_text);
    out.append("\n\n[추가 확인 필요]\n");
    out.append(&gaps);
    out.append("\n\n[전략 메모]\n");
    out.append(&note);
    out.append("\n\n[HyperCLOVA-X 기록 골격]\n");
    out.append(&hyper_text);
    out.append("\n\n[작성 지침]\n- HyperCLOVA-X 기록 골격의 섹션 구조와 사실 흐름을 절대 무너뜨리지 말라.\n- 너의 역할은 골격 안을 채우는 것이다. 각 섹션을 더 구체적이고 실무적으로 채우되, 입력에 없는 사실은 새로 만들지 말라.\n- [상황 요약]은 누가, 언제, 어디서, 어떤 상황에서 무엇을 했고 직후 조치가 무엇이었는지 한 번에 읽히도록 촘촘한 문단으로 채워라.\n- [배경 흐름]은 이전 갈등, 직전 맥락, 반복 징후, 선행 안내가 보이면 꼭 보강하라.\n- [핵심 포인트]는 사후 검토에 필요한 쟁점을 번호감 없이 명확히 채워라.\n- [관련 자료]는 이미 있는 자료, 바로 추가 확보할 자료, 확인이 필요한 사람과 채널을 실무적으로 채워라.\n- [내 대응 메모]는 실제로 한 말, 즉시 취한 조치, 설명 내용, 후속 계획을 빠뜨리지 말고 구체적으로 적어라.\n- 문장감은 자연스럽게 다듬되, 사실 밀도와 체계성을 절대 줄이지 말라.\n- 동일한 문장을 반복하거나 같은 섹션을 두 번 쓰지 말라.\n- 지정된 섹션 제목만 사용하고, 마지막에 설명 문장을 붙이지 말라.");
    strategy_sanitize_text(&out)
}

/// The prompt that merges two records.
pub open spec fn record_hybrid_prompt(
    t: StrategyRecordModeTemplate,
    packet: StrategyEvidencePacket,
    c: Option<CaseItem>,
    message: Seq<char>,
    note: Option<Seq<char>>,
    hyper: Seq<char>,
    roosy: Seq<char>,
) -> Seq<char> {
    let case_block = labels::case_context(c);
    let note = note_text(note, 220);
    let question = question_text(message, 520);
    let records = listing(record_lines(packet.evidence_records@, 5), "- 참고 기록 없음"@);
    let gaps = listing(strs::views(packet.gaps@), "- 특별히 비어 있는 정보 없음"@);
    let laws = template::record_law_block(packet.legal_references@);
    let template_text = template::template_block(t, template::profile_of(packet, message));
    let hyper_text = labels::brief(hyper, 2600);
    let roosy_text = labels::brief(roosy, 2600);
    sanitize::sanitized(
        ("[사용자 입력 상황]\n"@ + question + "\n\n[사건 맥락]\n"@ + case_block + "\n\n[참고 기록]\n"@ + records + "\n\n[관련 법령/참고 기준]\n"@ + laws + "\n\n"@ + template_text + "\n\n[추가 확인 필요]\n"@ + gaps + "\n\n[전략 메모]\n"@ + note + "\n\n[HyperCLOVA-X 초안]\n"@ + hyper_text + "\n\n[Roosy-X 초안]\n"@ + roosy_text + "\n\n[합성 지침]\n- 최종 결과는 빠른캡쳐 저장 전에 그대로 검토할 수 있는 기록 초안이어야 한다.\n- HyperCLOVA-X 초안을 기본 원본이자 최종 구조 기준으로 삼고, 사실 흐름·누락 보완·보수적 표현을 우선 유지한다.\n- Roosy-X 초안은 각 섹션 안의 문장 연결, 실무 표현, 설명 밀도, 메모 구체화를 채워 넣는 보조 초안으로만 활용한다.\n- Roosy-X 때문에 섹션 구조가 바뀌거나 사실 흐름이 느슨해지면 안 된다.\n- 문장감을 위해 사실이나 디테일을 덜어내지 말고, 정보 밀도와 체계성을 우선한다.\n- legal 템플릿과 참고 기준에 어긋나는 모호한 표현은 HyperCLOVA-X 초안 기준으로 바로잡는다.\n- [상황 요약]은 촘촘한 한 문단으로 쓰고, 나머지 섹션도 실무 검토에 충분할 정도로 구체적으로 작성한다.\n- 동일한 문장을 반복하거나 같은 섹션을 두 번 쓰지 않는다.\n- 기록을 나중에 다시 열어도 상황이 재구성될 정도의 정보 밀도를 유지한다.\n- 지정된 섹션 제목만 사용하고, 그 밖의 설명 문장은 덧붙이지 않는다."@),
    )
}

/// The prompt that merges two records.
pub fn build_strategy_record_hybrid_user_prompt(
    template: &StrategyRecordModeTemplate,
    evidence_packet: &StrategyEvidencePacket,
    case_item: Option<&CaseItem>,
    message: &str,
    strategy_note: Option<&str>,
    hyper_answer: &str,
    roosy_answer: &str,
) -> (r: String)
    ensures
        r@ == record_hybrid_prompt(
            *template,
            *evidence_packet,
            labels::deref_case(case_item),
            message@,
            strs::opt_str(strategy_note),
            hyper_answer@,
            roosy_answer@,
        ),
{
    let case_block = summarize_case_context(case_item);
    let note = note_block(strategy_note, 220);
    let question = question_block(message, 520);
    let records = list_block(&first_record_lines(&evidence_packet.evidence_records, 5), "- 참고 기록 없음");
    let gaps = list_block(&evidence_packet.gaps, "- 특별히 비어 있는 정보 없음");
    let laws = build_strategy_record_legal_prompt_block(evidence_packet);
    let template_text = build_strategy_record_template_prompt_block(template, evidence_packet, message);
    let hyper_text = labels::brief_text(hyper_answer, 2600);
    let roosy_text = labels::brief_text(roosy_answer, 2600);
    let mut out = text::copy("[사용자 입력 상황]\n");
    out.append(&question);
    out.append("\n\n[사건 맥락]\n");
    out.append(&case_block);
    out.append("\n\n[참고 기록]\n");
    out.append(&records);
    out.append("\n\n[관련 법령/참고 기준]\n");
    out.append(&laws);
    out.append("\n\n");
    out.append(&template_text);
    out.append("\n\n[추가 확인 필요]\n");
    out.append(&gaps);
    out.append("\n\n[전략 메모]\n");
    out.append(&note);
    out.append("\n\n[HyperCLOVA-X 초안]\n");
    out.append(&hyper_text);
    out.append("\n\n[Roosy-X 초안]\n");
    out.append(&roosy_text);
    out.append("\n\n[합성 지침]\n- 최종 결과는 빠른캡쳐 저장 전에 그대로 검토할 수 있는 기록 초안이어야 한다.\n- HyperCLOVA-X 초안을 기본 원본이자 최종 구조 기준으로 삼고, 사실 흐름·누락 보완·보수적 표현을 우선 유지한다.\n- Roosy-X 초안은 각 섹션 안의 문장 연결, 실무 표현, 설명 밀도, 메모 구체화를 채워 넣는 보조 초안으로만 활용한다.\n- Roosy-X 때문에 섹션 구조가 바뀌거나 사실 흐름이 느슨해지면 안 된다.\n- 문장감을 위해 사실이나 디테일을 덜어내지 말고, 정보 밀도와 체계성을 우선한다.\n- legal 템플릿과 참고 기준에 어긋나는 모호한 표현은 HyperCLOVA-X 초안 기준으로 바로잡는다.\n- [상황 요약]은 촘촘한 한 문단으로 쓰고, 나머지 섹션도 실무 검토에 충분할 정도로 구체적으로 작성한다.\n- 동일한 문장을 반복하거나 같은 섹션을 두 번 쓰지 않는다.\n- 기록을 나중에 다시 열어도 상황이 재구성될 정도의 정보 밀도를 유지한다.\n- 지정된 섹션 제목만 사용하고, 그 밖의 설명 문장은 덧붙이지 않는다.");
    strategy_sanitize_text(&out)
}

/// The prompt that reviews a record.
pub open spec fn review_prompt(
    t: StrategyRecordModeTemplate,
    packet: StrategyEvidencePacket,
    c: Option<CaseItem>,
    message: Seq<char>,
    note: Option<Seq<char>>,
    draft: Seq<char>,
) -> Seq<char> {
    let case_block = labels::case_context(c);
    let note = note_text(note, 220);
    let question = question_text(message, 520);
    let records = listing(record_lines(packet.evidence_records@, 5), "- 참고 기록 없음"@);
    let laws = template::record_law_block(packet.legal_references@);
    let template_text = template::template_block(t, template::profile_of(packet, message));
    let gaps = listing(strs::views(packet.gaps@), "- 특별히 비어 있는 정보 없음"@);
    let draft_text = labels::brief(draft, 4200);
    sanitize::sanitized(
        ("[사용자 입력 상황]\n"@ + question + "\n\n[사건 맥락]\n"@ + case_block + "\n\n[참고 기록]\n"@ + records + "\n\n[관련 법령/참고 기준]\n"@ + laws + "\n\n"@ + template_text + "\n\n[추가 확인 필요]\n"@ + gaps + "\n\n[전략 메모]\n"@ + note + "\n\n[현재 기록 초안]\n"@ + draft_text + "\n\n[검토 지침]\n- 평가 매트릭과 보강 질문을 마음속으로 확인한 뒤, 충실성·시간 흐름·완결성·자료 근거성·중립성·제출 가능성을 높이도록 초안을 조용히 다듬어라.\n- 입력에 없는 사실, 발언, 시각, 장소, 자료를 절대 만들지 말라.\n- 누락 정보는 '미상', '입력 없음', '추가 확인 필요'로 명확히 표시하라.\n- 점수, 체크리스트, 자기평가, 해설 문장은 출력하지 말고 최종 기록 본문만 출력하라.\n- 초안이 이미 적절하면 구조는 유지하되 문장 중복, 모호한 표현, 누락값 처리만 최소 수정하라."@),
    )
}

/// The prompt that reviews a record.
pub fn build_strategy_record_review_user_prompt(
    template: &StrategyRecordModeTemplate,
    evidence_packet: &StrategyEvidencePacket,
    case_item: Option<&CaseItem>,
    message: &str,
    strategy_note: Option<&str>,
    draft_answer: &str,
) -> (r: String)
    ensures
        r@ == review_prompt(
            *template,
            *evidence_packet,
            labels::deref_case(case_item),
            message@,
            strs::opt_str(strategy_note),
            draft_answer@,
        ),
{
    let case_block = summarize_case_context(case_item);
    let note = note_block(strategy_note, 220);
    let question = question_block(message, 520);
    let records = list_block(&first_record_lines(&evidence_packet.evidence_records, 5), "- 참고 기록 없음");
    let laws = build_strategy_record_legal_prompt_block(evidence_packet);
    let template_text = build_strategy_record_template_prompt_block(template, evidence_packet, message);
    let gaps = list_block(&evidence_packet.gaps, "- 특별히 비어 있는 정보 없음");
    let draft_text = labels::brief_text(draft_answer, 4200);
    let mut out = text::copy("[사용자 입력 상황]\n");
    out.append(&question);
    out.append("\n\n[사건 맥락]\n");
    out.append(&case_block);
    out.append("\n\n[참고 기록]\n");
    out.append(&records);
    out.append("\n\n[관련 법령/참고 기준]\n");
    out.append(&laws);
    out.append("\n\n");
    out.append(&template_text);
    out.append("\n\n[추가 확인 필요]\n");
    out.append(&gaps);
    out.append("\n\n[전략 메모]\n");
    out.append(&note);
    out.append("\n\n[현재 기록 초안]\n");
    out.append(&draft_text);
    out.append("\n\n[검토 지침]\n- 평가 매트릭과 보강 질문을 마음속으로 확인한 뒤, 충실성·시간 흐름·완결성·자료 근거성·중립성·제출 가능성을 높이도록 초안을 조용히 다듬어라.\n- 입력에 없는 사실, 발언, 시각, 장소, 자료를 절대 만들지 말라.\n- 누락 정보는 '미상', '입력 없음', '추가 확인 필요'로 명확히 표시하라.\n- 점수, 체크리스트, 자기평가, 해설 문장은 출력하지 말고 최종 기록 본문만 출력하라.\n- 초안이 이미 적절하면 구조는 유지하되 문장 중복, 모호한 표현, 누락값 처리만 최소 수정하라.");
    strategy_sanitize_text(&out)
}

/// The prompt that merges two answers.
pub open spec fn hybrid_prompt(
    packet: StrategyEvidencePacket,
    c: Option<CaseItem>,
    message: Seq<char>,
    note: Option<Seq<char>>,
    hyper: Seq<char>,
    roosy: Seq<char>,
) -> Seq<char> {
    let case_block = labels::case_context(c);
    let note = note_text(note, 220);
    let question = question_text(message, 240);
    let focus = focus_text(message, "- 이번 질문에 먼저 직접 답하고, 그다음 이유와 행동 제안을 붙여라."@);
    let records = listing(record_lines(packet.evidence_records@, 4), "- 연결된 핵심 근거 없음"@);
    let laws = listing(law_lines(packet.legal_references@, 3), "- 관련 법령 없음"@);
    let hyper_text = labels::brief(hyper, 2200);
    let roosy_text = labels::brief(roosy, 2200);
    sanitize::sanitized(
        ("[현재 사건 맥락]\n"@ + case_block + "\n\n[질문]\n"@ + question + "\n\n[질문 초점]\n"@ + focus + "\n\n[전략 메모]\n"@ + note + "\n\n[핵심 근거]\n"@ + records + "\n\n[관련 법령]\n"@ + laws + "\n\n[HyperCLOVA-X 초안]\n"@ + hyper_text + "\n\n[Roosy-X 초안]\n"@ + roosy_text + "\n\n[합성 지침]\n- 최종 답변의 문장 흐름과 말투는 Roosy-X 초안을 기본으로 삼는다.\n- HyperCLOVA-X 초안은 과한 단정, 근거 누락, 법령 연결 오류를 바로잡는 안전 검토용으로 쓴다.\n- 첫 문장에서 사용자의 질문에 바로 답한다.\n- 둘을 비교하거나 '첫 번째 초안/두 번째 초안'이라고 설명하지 않는다.\n- 사용자에게 바로 전달할 하나의 최종 답변만 쓴다.\n- 대답 속에 [합성 지침], [추가 정보], [관련 법령] 같은 입력 헤더를 절대 다시 출력하지 않는다.\n- 증거 목록을 길게 다시 늘어놓지 말고, 결론을 뒷받침하는 핵심 근거만 짧게 묶어 설명한다.\n- 너무 짧게 줄이지 말고, 두 초안의 좋은 내용을 자연스럽게 충분히 녹여 길이감 있게 정리한다.\n- 답변은 상황판단, 지금 먼저 할 말, 바로 남길 기록, 다음 행동이 모두 드러나도록 3~6문단 정도의 완성형 답변으로 쓴다.\n- 답변은 자연스러운 문단형으로 쓰되, 꼭 필요할 때만 짧은 bullet을 사용한다."@),
    )
}

/// The prompt that merges two answers.
pub fn build_strategy_hybrid_user_prompt(
    evidence_packet: &StrategyEvidencePacket,
    case_item: Option<&CaseItem>,
    message: &str,
    strategy_note: Option<&str>,
    hyper_answer: &str,
    roosy_answer: &str,
) -> (r: String)
    ensures
        r@ == hybrid_prompt(
            *evidence_packet,
            labels::deref_case(case_item),
            message@,
            strs::opt_str(strategy_note),
            hyper_answer@,
            roosy_answer@,
        ),
{
    let case_block = summarize_case_context(case_item);
    let note = note_block(strategy_note, 220);
    let question = question_block(message, 240);
    let focus = focus_block(message, "- 이번 질문에 먼저 직접 답하고, 그다음 이유와 행동 제안을 붙여라.");
    let records = list_block(&first_record_lines(&evidence_packet.evidence_records, 4), "- 연결된 핵심 근거 없음");
    let laws = list_block(&first_law_lines(&evidence_packet.legal_references, 3), "- 관련 법령 없음");
    let hyper_text = labels::brief_text(hyper_answer, 2200);
    let roosy_text = labels::brief_text(roosy_answer, 2200);
    let mut out = text::copy("[현재 사건 맥락]\n");
    out.append(&case_block);
    out.append("\n\n[질문]\n");
    out.append(&question);
    out.append("\n\n[질문 초점]\n");
    out.append(&focus);
    out.append("\n\n[전략 메모]\n");
    out.append(&note);
    out.append("\n\n[핵심 근거]\n");
    out.append(&records);
    out.append("\n\n[관련 법령]\n");
    out.append(&laws);
    out.append("\n\n[HyperCLOVA-X 초안]\n");
    out.append(&hyper_text);
    out.append("\n\n[Roosy-X 초안]\n");
    out.append(&roosy_text);
    out.append("\n\n[합성 지침]\n- 최종 답변의 문장 흐름과 말투는 Roosy-X 초안을 기본으로 삼는다.\n- HyperCLOVA-X 초안은 과한 단정, 근거 누락, 법령 연결 오류를 바로잡는 안전 검토용으로 쓴다.\n- 첫 문장에서 사용자의 질문에 바로 답한다.\n- 둘을 비교하거나 '첫 번째 초안/두 번째 초안'이라고 설명하지 않는다.\n- 사용자에게 바로 전달할 하나의 최종 답변만 쓴다.\n- 대답 속에 [합성 지침], [추가 정보], [관련 법령] 같은 입력 헤더를 절대 다시 출력하지 않는다.\n- 증거 목록을 길게 다시 늘어놓지 말고, 결론을 뒷받침하는 핵심 근거만 짧게 묶어 설명한다.\n- 너무 짧게 줄이지 말고, 두 초안의 좋은 내용을 자연스럽게 충분히 녹여 길이감 있게 정리한다.\n- 답변은 상황판단, 지금 먼저 할 말, 바로 남길 기록, 다음 행동이 모두 드러나도록 3~6문단 정도의 완성형 답변으로 쓴다.\n- 답변은 자연스러운 문단형으로 쓰되, 꼭 필요할 때만 짧은 bullet을 사용한다.");
    strategy_sanitize_text(&out)
}

/// The prompt that turns a record into data.
pub open spec fn renderer_prompt(
    packet: StrategyEvidencePacket,
    c: Option<CaseItem>,
    message: Seq<char>,
    note: Option<Seq<char>>,
    draft: Seq<char>,
) -> Seq<char> {
    let case_block = labels::case_context(c);
    let note = note_text(note, 220);
    let question = question_text(message, 320);
    let records = listing(record_lines(packet.evidence_records@, 3), "- 참고 기록 없음"@);
    let laws = item_lines(law_lines(packet.legal_references@, 2));
    let gaps = listing(strs::head(strs::views(packet.gaps@), 4), "- 특별히 비어 있는 정보 없음"@);
    let short_draft = compact_draft(draft);
    sanitize::sanitized(
        ("[사용자 입력 상황]\n"@ + question + "\n\n[사건 맥락]\n"@ + case_block + "\n\n[참고 기록]\n"@ + records + "\n\n[관련 법령/참고 기준]\n"@ + laws + "\n\n[확인 필요]\n"@ + gaps + "\n\n[전략 메모]\n"@ + note + "\n\n[현재 기록 초안]\n"@ + short_draft + "\n\n[JSON 작성 규칙]\n- summary: 사건 흐름과 직후 조치를 한 문단으로\n- actors: 핵심 인물/역할만 2~6개 문자열 배열\n- timeline: 사건 직전 맥락/배경 흐름/선행 조치 배열\n- issues: 핵심 쟁점/위험 신호/즉시 확인 포인트 배열\n- evidence: 이미 있는 자료 + 추가 확보 자료 배열\n- recommended_questions: 후속 확인 질문 또는 추가 메모 포인트 배열\n- JSON 외 다른 텍스트는 절대 출력하지 말라"@),
    )
}

/// The prompt that turns a record into data.
pub fn build_strategy_record_renderer_user_prompt(
    evidence_packet: &StrategyEvidencePacket,
    case_item: Option<&CaseItem>,
    message: &str,
    strategy_note: Option<&str>,
    draft_answer: &str,
) -> (r: String)
    ensures
        r@ == renderer_prompt(
            *evidence_packet,
            labels::deref_case(case_item),
            message@,
            strs::opt_str(strategy_note),
            draft_answer@,
        ),
{
    let case_block = summarize_case_context(case_item);
    let note = note_block(strategy_note, 220);
    let question = question_block(message, 320);
    let records = list_block(&first_record_lines(&evidence_packet.evidence_records, 3), "- 참고 기록 없음");
    let laws = item_block(&first_law_lines(&evidence_packet.legal_references, 2));
    let gaps = list_block(&text::head(&evidence_packet.gaps, 4), "- 특별히 비어 있는 정보 없음");
    let short_draft = compact_draft_text(draft_answer);
    let mut out = text::copy("[사용자 입력 상황]\n");
    out.append(&question);
    out.append("\n\n[사건 맥락]\n");
    out.append(&case_block);
    out.append("\n\n[참고 기록]\n");
    out.append(&records);
    out.append("\n\n[관련 법령/참고 기준]\n");
    out.append(&laws);
    out.append("\n\n[확인 필요]\n");
    out.append(&gaps);
    out.append("\n\n[전략 메모]\n");
    out.append(&note);
    out.append("\n\n[현재 기록 초안]\n");
    out.append(&short_draft);
    out.append("\n\n[JSON 작성 규칙]\n- summary: 사건 흐름과 직후 조치를 한 문단으로\n- actors: 핵심 인물/역할만 2~6개 문자열 배열\n- timeline: 사건 직전 맥락/배경 흐름/선행 조치 배열\n- issues: 핵심 쟁점/위험 신호/즉시 확인 포인트 배열\n- evidence: 이미 있는 자료 + 추가 확보 자료 배열\n- recommended_questions: 후속 확인 질문 또는 추가 메모 포인트 배열\n- JSON 외 다른 텍스트는 절대 출력하지 말라");
    strategy_sanitize_text(&out)
}

} // verus!
