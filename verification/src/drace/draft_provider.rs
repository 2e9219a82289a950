//! Providers of draft tokens: text that an answer of a stage is likely to begin with.

use crate::drace::cache_manager::HybridStage;
use crate::strs;
use crate::text;
use vstd::prelude::*;

verus! {

/// What a provider is asked for.
#[derive(Debug, Clone)]
pub struct DraftProviderState {
    pub stage: String,
    pub model_id: String,
    pub structured_json: bool,
    pub prompt_hash: Option<String>,
}

/// What a provider proposes.
#[derive(Debug, Clone)]
pub struct DraftProposal {
    pub provider_name: String,
    pub token_ids: Vec<u32>,
    pub rendered_fragments: Vec<String>,
}

/// A provider of draft tokens.
pub trait DraftProvider {
    /// The name of the provider.
    spec fn provider(&self) -> Seq<char>;

    /// The tokens that the provider proposes.
    spec fn proposal(&self, stage: Seq<char>, max: nat) -> Seq<u32>;

    /// The pieces that an answer is made of.
    spec fn fragments(&self, stage: Seq<char>) -> Seq<Seq<char>>;

    /// The name of the provider.
    fn name(&self) -> (r: &'static str)
        ensures
            r@ == self.provider(),
    ;

    /// The tokens that the provider proposes, at most `max_draft_tokens`.
    fn propose(&self, state: &DraftProviderState, max_draft_tokens: usize) -> (r: Vec<u32>)
        ensures
            r@ == self.proposal(state.stage@, max_draft_tokens as nat),
    ;

    /// The pieces that an answer is made of.
    fn rendered_fragments(&self, state: &DraftProviderState) -> (r: Vec<String>)
        ensures
            strs::views(r@) == self.fragments(state.stage@),
    ;
}

/// The provider that proposes nothing.
#[derive(Debug, Clone, Copy)]
pub struct NoopDraftProvider;

impl DraftProvider for NoopDraftProvider {
    open spec fn provider(&self) -> Seq<char> {
        "noop"@
    }

    open spec fn proposal(&self, stage: Seq<char>, max: nat) -> Seq<u32> {
        Seq::empty()
    }

    open spec fn fragments(&self, stage: Seq<char>) -> Seq<Seq<char>> {
        Seq::empty()
    }

    fn name(&self) -> (r: &'static str) {
        "noop"
    }

    fn propose(&self, _state: &DraftProviderState, _max_draft_tokens: usize) -> (r: Vec<u32>) {
        Vec::new()
    }

    fn rendered_fragments(&self, _state: &DraftProviderState) -> (r: Vec<String>) {
        let out: Vec<String> = Vec::new();
        assert(strs::views(out@) =~= Seq::empty());
        out
    }
}

/// The provider that proposes the beginning of the template of a stage.
#[derive(Debug, Clone, Copy)]
pub struct TemplateDraftProvider;

/// The stages that write a record.
pub open spec fn writes_record(stage: Seq<char>) -> bool {
    stage == "record_synthesis"@ || stage == "record_main"@ || stage == "record_fill"@
}

/// What an answer of the stage begins with.
pub open spec fn template_opening(stage: Seq<char>) -> Seq<char> {
    if stage == "record_review"@ {
        "{\"summary\":\""@
    } else if writes_record(stage) {
        "[기록 기본정보]\n- 기록 시각: "@
    } else if stage == "general_synthesis"@ {
        "지금은 "@
    } else {
        "{\"summary\":\""@
    }
}

/// The pieces of a review.
pub open spec fn review_fragments() -> Seq<Seq<char>> {
    seq![
        "{\"summary\":\""@,
        "\"actors\":["@,
        "\"timeline\":["@,
        "\"issues\":["@,
        "\"evidence\":["@,
        "\"recommended_questions\":["@,
    ]
}

/// The pieces that an answer of the stage is made of.
pub open spec fn template_fragments(stage: Seq<char>) -> Seq<Seq<char>> {
    if stage == "record_review"@ {
        review_fragments()
    } else if writes_record(stage) {
        seq![
            "[기록 기본정보]"@,
            "- 기록 시각: "@,
            "- 주체: "@,
            "- 상대방: "@,
            "- 위치/채널: "@,
            "- 자료 형태: "@,
            "[상황 요약]"@,
            "[배경 흐름]"@,
            "[핵심 포인트]"@,
            "[관련 자료]"@,
            "[내 대응 메모]"@,
            "[추가 메모]"@,
        ]
    } else if stage == "general_synthesis"@ {
        seq!["지금은 "@, "우선 "@, "먼저 "@, "바로 정리하면 "@, "지금 바로 할 일은 "@]
    } else {
        review_fragments()
    }
}

/// The code points of the first `max` characters.
pub open spec fn code_points(s: Seq<char>, max: nat) -> Seq<u32> {
    strs::first(s, max).map_values(|c: char| c as u32)
}

impl TemplateDraftProvider {
    /// What an answer of the stage begins with, and the pieces that it is made of.
    fn stage_template(stage: &str) -> (r: (String, Vec<String>))
        ensures
            r.0@ == template_opening(stage@),
            strs::views(r.1@) == template_fragments(stage@),
    {
        if text::same(stage, "record_review") {
            (
                "{\"summary\":\"".to_owned(),
                text::owned(
                    &[
                        "{\"summary\":\"",
                        "\"actors\":[",
                        "\"timeline\":[",
                        "\"issues\":[",
                        "\"evidence\":[",
                        "\"recommended_questions\":[",
                    ],
                ),
            )
        } else if text::same(stage, "record_synthesis") || text::same(stage, "record_main")
            || text::same(stage, "record_fill") {
            (
                "[기록 기본정보]\n- 기록 시각: ".to_owned(),
                text::owned(
                    &[
                        "[기록 기본정보]",
                        "- 기록 시각: ",
                        "- 주체: ",
                        "- 상대방: ",
                        "- 위치/채널: ",
                        "- 자료 형태: ",
                        "[상황 요약]",
                        "[배경 흐름]",
                        "[핵심 포인트]",
                        "[관련 자료]",
                        "[내 대응 메모]",
                        "[추가 메모]",
                    ],
                ),
            )
        } else if text::same(stage, "general_synthesis") {
            (
                "지금은 ".to_owned(),
                text::owned(
                    &["지금은 ", "우선 ", "먼저 ", "바로 정리하면 ", "지금 바로 할 일은 "],
                ),
            )
        } else {
            (
                "{\"summary\":\"".to_owned(),
                text::owned(
                    &[
                        "{\"summary\":\"",
                        "\"actors\":[",
                        "\"timeline\":[",
                        "\"issues\":[",
                        "\"evidence\":[",
                        "\"recommended_questions\":[",
                    ],
                ),
            )
        }
    }

    /// The code points of the first characters of a text stand for its tokens.
    fn pseudo_tokenize(fragment: &str, max_draft_tokens: usize) -> (r: Vec<u32>)
        ensures
            r@ == code_points(fragment@, max_draft_tokens as nat),
    {
        let head = text::first(fragment, max_draft_tokens);
        let v = text::chars_of(&head);
        let mut out: Vec<u32> = Vec::new();
        let mut i: usize = 0;
        while i < v.len()
            invariant
                i <= v@.len(),
                out@ =~= v@.take(i as int).map_values(|c: char| c as u32),
            decreases v@.len() - i,
        {
            out.push(v[i] as u32);
            i += 1;
        }
        assert(v@.take(i as int) =~= v@);
        out
    }

    /// The proposal of the template of a stage.
    pub fn proposal_for_stage(stage: HybridStage, model_id: &str, max_draft_tokens: usize) -> (r:
        DraftProposal)
        ensures
            r.provider_name@ == "template"@,
            r.token_ids@ == code_points(template_opening(stage.name()), max_draft_tokens as nat),
            strs::views(r.rendered_fragments@) == template_fragments(stage.name()),
    {
        let state = DraftProviderState {
            stage: stage.as_str().to_owned(),
            model_id: model_id.to_owned(),
            structured_json: true,
            prompt_hash: None,
        };
        let provider = TemplateDraftProvider;
        DraftProposal {
            provider_name: provider.name().to_owned(),
            token_ids: provider.propose(&state, max_draft_tokens),
            rendered_fragments: provider.rendered_fragments(&state),
        }
    }
}

impl DraftProvider for TemplateDraftProvider {
    open spec fn provider(&self) -> Seq<char> {
        "template"@
    }

    open spec fn proposal(&self, stage: Seq<char>, max: nat) -> Seq<u32> {
        code_points(template_opening(stage), max)
    }

    open spec fn fragments(&self, stage: Seq<char>) -> Seq<Seq<char>> {
        template_fragments(stage)
    }

    fn name(&self) -> (r: &'static str) {
        "template"
    }

    fn propose(&self, state: &DraftProviderState, max_draft_tokens: usize) -> (r: Vec<u32>) {
        let (opening, _) = Self::stage_template(&state.stage);
        Self::pseudo_tokenize(&opening, max_draft_tokens)
    }

    fn rendered_fragments(&self, state: &DraftProviderState) -> (r: Vec<String>) {
        let (_, fragments) = Self::stage_template(&state.stage);
        fragments
    }
}

} // verus!
