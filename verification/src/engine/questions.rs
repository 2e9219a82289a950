//! What a message asks for.

use crate::engine::sanitize;
use crate::engine::sanitize::strategy_compact_text;
use crate::strs;
use crate::text;
use vstd::prelude::*;

verus! {

/// How a message is answered.
#[derive(Debug, Clone, Copy, PartialEq, Eq, Structural)]
pub enum StrategyQuestionRoute {
    FastRoosy,
    Hybrid,
}

/// The message asks who is more to blame.
pub open spec fn asks_comparison(message: Seq<char>) -> bool {
    strs::contains_any(
        sanitize::compact(message),
        seq![
            "누가가장문제"@,
            "누가더문제"@,
            "누가문제"@,
            "누가더잘못"@,
            "누가잘못"@,
            "누가더책임"@,
            "책임은누구"@,
            "가해자"@,
            "a의잘못"@,
            "b의잘못"@,
            "비하면어떰"@,
            "비하면어때"@,
        ],
    )
}

/// Whether the message asks who is more to blame.
pub fn strategy_question_is_comparison(message: &str) -> (r: bool)
    ensures
        r == asks_comparison(message@),
{
    let compact = strategy_compact_text(message);
    text::contains_any(
        &compact,
        &[
            "누가가장문제",
            "누가더문제",
            "누가문제",
            "누가더잘못",
            "누가잘못",
            "누가더책임",
            "책임은누구",
            "가해자",
            "a의잘못",
            "b의잘못",
            "비하면어떰",
            "비하면어때",
        ],
    )
}

/// The message asks for words to send.
pub open spec fn asks_wording(message: Seq<char>) -> bool {
    strs::contains_any(
        sanitize::compact(message),
        seq!["뭐라고말"@, "어떻게말"@, "어떻게정리"@, "답장"@, "문자"@, "보낼지"@, "써줘"@],
    )
}

/// Whether the message asks for words to send.
pub fn strategy_question_is_message_drafting(message: &str) -> (r: bool)
    ensures
        r == asks_wording(message@),
{
    let compact = strategy_compact_text(message);
    text::contains_any(
        &compact,
        &["뭐라고말", "어떻게말", "어떻게정리", "답장", "문자", "보낼지", "써줘"],
    )
}

/// Short small talk goes to the fast model alone.
pub open spec fn route_of(message: Seq<char>) -> StrategyQuestionRoute {
    let compact = sanitize::compact(message);
    if strs::contains_any(
        compact,
        seq!["안녕"@, "반가워"@, "고마워"@, "감사"@, "오케이"@, "확인"@, "좋아"@],
    ) && compact.len() <= 12 {
        StrategyQuestionRoute::FastRoosy
    } else {
        StrategyQuestionRoute::Hybrid
    }
}

/// How a message is answered.
pub fn strategy_question_route(message: &str) -> (r: StrategyQuestionRoute)
    ensures
        r == route_of(message@),
{
    let compact = strategy_compact_text(message);
    if text::contains_any(
        &compact,
        &["안녕", "반가워", "고마워", "감사", "오케이", "확인", "좋아"],
    ) && compact.unicode_len() <= 12 {
        StrategyQuestionRoute::FastRoosy
    } else {
        StrategyQuestionRoute::Hybrid
    }
}

/// The message asks for the law.
pub open spec fn asks_law(message: Seq<char>) -> bool {
    strs::contains_any(
        sanitize::compact(message),
        seq![
            "법"@,
            "법적"@,
            "조문"@,
            "근거"@,
            "규정"@,
            "법령"@,
            "위법"@,
            "처벌"@,
            "고소"@,
            "신고"@,
        ],
    )
}

/// Whether the message asks for the law.
pub fn strategy_question_needs_legal_refs(message: &str) -> (r: bool)
    ensures
        r == asks_law(message@),
{
    let compact = strategy_compact_text(message);
    text::contains_any(
        &compact,
        &["법", "법적", "조문", "근거", "규정", "법령", "위법", "처벌", "고소", "신고"],
    )
}

/// What the models are told about a question of comparison.
pub const COMPARISON_HINT: &'static str = "- 이번 질문은 책임·잘못 비교 요청이다.\n- 첫 문장에서 바로 비교 결론을 답하라.\n- 현재 증거만으로 한쪽이 더 문제라고 단정하기 어렵다면 그 점을 첫 문장에서 분명히 말하라.\n- 증거 목록 나열보다 결론 → 이유 → 바로 쓸 말 순서로 정리하라.";

/// What the models are told about a request for words to send.
pub const WORDING_HINT: &'static str = "- 이번 질문은 바로 전달할 문장을 원하는 요청이다.\n- 첫 문단에서 상황판단을 짧게 말한 뒤, 바로 복사해 쓸 수 있는 문장을 먼저 제시하라.";

/// What the models are told about the message.
pub open spec fn focus_hint(message: Seq<char>) -> Option<Seq<char>> {
    if asks_comparison(message) {
        Some(COMPARISON_HINT@)
    } else if asks_wording(message) {
        Some(WORDING_HINT@)
    } else {
        None
    }
}

/// What the models are told about the message.
pub fn strategy_question_focus_hint(message: &str) -> (r: Option<String>)
    ensures
        strs::opt_view(r) == focus_hint(message@),
{
    if strategy_question_is_comparison(message) {
        Some(COMPARISON_HINT.to_owned())
    } else if strategy_question_is_message_drafting(message) {
        Some(WORDING_HINT.to_owned())
    } else {
        None
    }
}

} // verus!
