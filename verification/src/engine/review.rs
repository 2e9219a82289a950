//! How a record is gone over once it is written: rendered from data, or read again by a model.

use crate::drace::cache_manager;
use crate::drace::cache_manager::{DraceCacheManager, HybridStage, StageCachePlan};
use crate::drace::draft_provider;
use crate::drace::draft_provider::DraftProposal;
use crate::drace::hashing;
use crate::drace::prompt_segments::fast_hash64;
use crate::engine::drafts;
use crate::engine::drafts::{strategy_build_draft_proposal, StrategyVerifiedDraftPrefix};
use crate::engine::execution;
use crate::engine::execution::{StageRequest, StrategyModelExecution, Wanted};
use crate::engine::labels;
use crate::engine::models::STRATEGY_MODEL_DEFAULT_ID;
use crate::engine::packet::StrategyEvidencePacket;
use crate::engine::perf;
use crate::engine::perf::{
    ratio_of, reduction_of, strategy_approx_output_tokens, Ratio, StrategyStageCachePerf,
    StrategyStagePerf,
};
use crate::engine::prompts;
use crate::engine::prompts::{
    build_strategy_record_renderer_system_prompt, build_strategy_record_renderer_user_prompt,
    build_strategy_record_review_system_prompt, build_strategy_record_review_user_prompt,
};
use crate::engine::records::CaseItem;
use crate::engine::sanitize::strategy_trim;
use crate::engine::structured;
use crate::engine::structured::{
    strategy_build_structured_report_from_record_sections,
    strategy_estimate_structured_report_tokens, strategy_render_record_structured_answer,
    StrategyStructuredReportDraft,
};
use crate::engine::template::StrategyRecordModeTemplate;
use crate::strs;
use crate::text;
use vstd::prelude::*;

verus! {

/// What the renderer of a record did.
#[derive(Debug)]
pub struct StrategyRecordRendererStats {
    pub synthetic_cache_requested: bool,
    pub synthetic_cache_supported: bool,
    pub synthetic_cache_applied: bool,
    pub draft_provider: String,
    pub proposed_tokens: usize,
    pub accepted_tokens: usize,
    pub rejected_tokens: usize,
    pub verification_batches: usize,
    pub fallback_decode_tokens: usize,
    pub renderer_inserted_tokens: usize,
    pub llm_generated_tokens: usize,
    pub output_token_reduction_ratio: Ratio,
}

/// What came of going over a record.
#[derive(Debug)]
pub struct StrategyRecordReviewResult {
    pub answer: String,
    pub metrics: Option<StrategyStagePerf>,
    pub renderer_stats: Option<StrategyRecordRendererStats>,
}

/// The sixteen hexadecimal digits of the hash of a text.
pub fn strategy_fast_hash_hex(value: &str) -> (r: String)
    ensures
        r@ == strs::hex(hashing::default_hash(value@) as nat, 16),
{
    text::hex(fast_hash64(value), 16)
}

/// The larger of two numbers.
pub open spec fn larger(a: nat, b: nat) -> nat {
    if a >= b {
        a
    } else {
        b
    }
}

fn larger_of(a: usize, b: usize) -> (r: usize)
    ensures
        r == larger(a as nat, b as nat),
{
    if a >= b {
        a
    } else {
        b
    }
}

/// The difference of two numbers, or nothing where it would be negative.
pub open spec fn less(a: nat, b: nat) -> nat {
    if a >= b {
        (a - b) as nat
    } else {
        0
    }
}

/// What the renderer did, noted in what is known of the cache.
pub open spec fn stats_noted(
    before: StrategyStagePerf,
    stats: StrategyRecordRendererStats,
    after: StrategyStagePerf,
) -> bool {
    let full = stats.synthetic_cache_applied;
    let kv = before.cache.prefix_kv_applied;
    &&& after == (StrategyStagePerf { cache: after.cache, ..before })
    &&& after.cache == (StrategyStageCachePerf {
        synthetic_cache_requested: stats.synthetic_cache_requested,
        synthetic_cache_supported: stats.synthetic_cache_supported,
        synthetic_cache_applied: full,
        draft_provider: stats.draft_provider,
        proposed_tokens: stats.proposed_tokens,
        accepted_tokens: stats.accepted_tokens,
        rejected_tokens: stats.rejected_tokens,
        verify_batches: stats.verification_batches,
        fallback_decode_tokens: stats.fallback_decode_tokens,
        acceptance_ratio: perf::ratio(stats.accepted_tokens as int, stats.proposed_tokens as int),
        avg_proposed_batch_size: perf::ratio(stats.proposed_tokens as int, 1),
        avg_accepted_batch_size: perf::ratio(stats.accepted_tokens as int, 1),
        accepted_tokens_per_verify: perf::ratio(
            stats.accepted_tokens as int,
            stats.verification_batches as int,
        ),
        cache_applied: full || kv || before.cache.cache_applied,
        cache_mode_applied: after.cache.cache_mode_applied,
        cache_loaded: full || kv || before.cache.cache_loaded,
        renderer_inserted_tokens: stats.renderer_inserted_tokens,
        llm_generated_tokens: larger(
            stats.llm_generated_tokens as nat,
            before.output_tokens as nat,
        ) as usize,
        output_token_reduction_ratio: stats.output_token_reduction_ratio,
        ..before.cache
    })
    &&& after.cache.cache_mode_applied@ == if full {
        "FullDRACE"@
    } else if kv {
        "PrefixKV+TemplateRenderer"@
    } else {
        before.cache.cache_mode_applied@
    }
}

fn note_stats(before: StrategyStagePerf, stats: &StrategyRecordRendererStats) -> (r:
    StrategyStagePerf)
    ensures
        stats_noted(before, *stats, r),
{
    let full = stats.synthetic_cache_applied;
    let kv = before.cache.prefix_kv_applied;
    let mode = if full {
        "FullDRACE".to_owned()
    } else if kv {
        "PrefixKV+TemplateRenderer".to_owned()
    } else {
        before.cache.cache_mode_applied.clone()
    };
    let generated: usize = larger_of(stats.llm_generated_tokens, before.output_tokens);
    let cache = StrategyStageCachePerf {
        synthetic_cache_requested: stats.synthetic_cache_requested,
        synthetic_cache_supported: stats.synthetic_cache_supported,
        synthetic_cache_applied: full,
        draft_provider: stats.draft_provider.clone(),
        proposed_tokens: stats.proposed_tokens,
        accepted_tokens: stats.accepted_tokens,
        rejected_tokens: stats.rejected_tokens,
        verify_batches: stats.verification_batches,
        fallback_decode_tokens: stats.fallback_decode_tokens,
        acceptance_ratio: ratio_of(stats.accepted_tokens, stats.proposed_tokens),
        avg_proposed_batch_size: ratio_of(stats.proposed_tokens, 1),
        avg_accepted_batch_size: ratio_of(stats.accepted_tokens, 1),
        accepted_tokens_per_verify: ratio_of(stats.accepted_tokens, stats.verification_batches),
        cache_applied: full || kv || before.cache.cache_applied,
        cache_mode_applied: mode,
        cache_loaded: full || kv || before.cache.cache_loaded,
        renderer_inserted_tokens: stats.renderer_inserted_tokens,
        llm_generated_tokens: generated,
        output_token_reduction_ratio: stats.output_token_reduction_ratio,
        ..before.cache
    };
    StrategyStagePerf { cache, ..before }
}

/// The last stage of a run has what the renderer did noted in it.
pub open spec fn last_noted(
    before: Seq<StrategyStagePerf>,
    stats: StrategyRecordRendererStats,
    after: Seq<StrategyStagePerf>,
) -> bool {
    if before.len() == 0 {
        after == before
    } else {
        &&& after.len() == before.len()
        &&& after.drop_last() == before.drop_last()
        &&& stats_noted(before.last(), stats, after.last())
    }
}

/// Notes what the renderer did in the last stage of a run, if there is one.
pub fn apply_strategy_record_renderer_stats(
    stages: &mut Vec<StrategyStagePerf>,
    stats: &StrategyRecordRendererStats,
)
    ensures
        last_noted(old(stages)@, *stats, final(stages)@),
{
    match stages.pop() {
        None => {},
        Some(last) => {
            let noted = note_stats(last, stats);
            stages.push(noted);
            assert(stages@.drop_last() =~= old(stages)@.drop_last());
        },
    }
}

/// The stages of a run after its record was gone over: what the renderer did is noted in the
/// last, and the stage that went over it comes behind.
pub fn finalize_strategy_record_stage_metrics(
    stages: Vec<StrategyStagePerf>,
    review: &StrategyRecordReviewResult,
) -> (r: Vec<StrategyStagePerf>)
    ensures
        ({
            let noted = match review.metrics {
                Some(_) => r@.drop_last(),
                None => r@,
            };
            &&& review.metrics matches Some(m) ==> r@.len() > 0 && r@.last() == m
            &&& match review.renderer_stats {
                Some(stats) => last_noted(stages@, stats, noted),
                None => noted == stages@,
            }
        }),
{
    let mut out = stages;
    if let Some(stats) = &review.renderer_stats {
        apply_strategy_record_renderer_stats(&mut out, stats);
    }
    let ghost noted = out@;
    if let Some(m) = &review.metrics {
        out.push(m.clone());
        assert(out@.drop_last() =~= noted);
    }
    out
}

/// How a record is gone over: what is taken from the cache, and the draft of the data.
#[derive(Debug)]
pub struct ReviewPlan {
    pub plan: StageCachePlan,
    pub provider: String,
    pub proposal: DraftProposal,
}

/// The tokens that going over a record is planned with.
pub open spec fn review_tokens(draft: Seq<char>) -> nat {
    larger(perf::output_tokens(draft), 160)
}

/// The provider of a draft, or none.
pub open spec fn provider_or_noop(provider: Seq<char>) -> Seq<char> {
    if strs::trim(provider).len() == 0 {
        "noop"@
    } else {
        provider
    }
}

/// How a record is gone over.
pub open spec fn review_planned(
    manager: DraceCacheManager,
    draft: Seq<char>,
    enabled: bool,
    r: ReviewPlan,
) -> bool {
    let tokens = review_tokens(draft) as int;
    &&& r.plan@ == cache_manager::plan_for(
        manager@.capabilities,
        enabled,
        HybridStage::RecordReview,
        tokens,
        tokens,
    )
    &&& r.provider@ == provider_or_noop(r.plan.draft_provider@)
    &&& r.proposal.token_ids@ == drafts::proposed_tokens(
        HybridStage::RecordReview,
        r.provider@,
        larger(r.plan.max_candidate_tokens as nat, 8),
    )
    &&& r.proposal.provider_name@ == drafts::provider_shown(r.provider@)
    &&& strs::views(r.proposal.rendered_fragments@) == drafts::proposed_fragments(
        HybridStage::RecordReview,
        r.provider@,
    )
}

/// How a record is gone over.
pub fn plan_record_review(manager: &DraceCacheManager, draft_answer: &str, enabled: bool) -> (r:
    ReviewPlan)
    ensures
        review_planned(*manager, draft_answer@, enabled, r),
{
    let tokens: usize = larger_of(strategy_approx_output_tokens(draft_answer), 160);
    let plan = manager.plan_stage(enabled, HybridStage::RecordReview, tokens, tokens);
    let provider = if text::is_blank(&plan.draft_provider) {
        "noop".to_owned()
    } else {
        plan.draft_provider.clone()
    };
    let most: usize = larger_of(plan.max_candidate_tokens, 8);
    let proposal = strategy_build_draft_proposal(
        HybridStage::RecordReview,
        &provider,
        STRATEGY_MODEL_DEFAULT_ID,
        true,
        Some(strategy_fast_hash_hex(draft_answer)),
        most,
    );
    ReviewPlan { plan, provider, proposal }
}

/// The tokens that the template of a record puts in.
pub open spec fn template_tokens() -> nat {
    perf::output_tokens(
        strs::join(draft_provider::template_fragments(HybridStage::RecordReview.name()), " "@),
    )
}

/// What is reported of a record that is rendered without a model.
pub fn rendered_notice(inserted: usize) -> (r: String)
    ensures
        r@ == ("고정 섹션 약 "@ + strs::decimal(inserted as nat) + "토큰은 앱에서 바로 렌더링할 수 있어 Roosy/합성 단계를 줄였어요."@),
{
    let mut out = text::copy("고정 섹션 약 ");
    out.append(&text::decimal(inserted as u64));
    out.append("토큰은 앱에서 바로 렌더링할 수 있어 Roosy/합성 단계를 줄였어요.");
    out
}

/// Renders a record from the data that its draft amounts to, where the plan has a renderer and the
/// draft amounts to any. `serialized` is those data in their serialized form, and `now` the time of
/// the record.
pub fn strategy_try_render_record_without_llm(
    review: &ReviewPlan,
    evidence_packet: &StrategyEvidencePacket,
    message: &str,
    draft_answer: &str,
    serialized: &str,
    now: &str,
) -> (r: Option<StrategyRecordReviewResult>)
    ensures
        r is Some == (review.plan.use_template_renderer && structured::report_of(
            *evidence_packet,
            message@,
            draft_answer@,
        ) is Some),
        r matches Some(done) ==> structured::report_of(
            *evidence_packet,
            message@,
            draft_answer@,
        ) matches Some(report) && {
            &&& done.answer@ == structured::rendered_record(
                report,
                evidence_packet.evidence_records@.len(),
                message@,
                draft_answer@,
                now@,
            )
            &&& done.metrics is None
            &&& done.renderer_stats matches Some(s) && ({
                let proposed = review.proposal.token_ids@.len();
                let written = perf::output_tokens(serialized@);
                &&& s.synthetic_cache_requested == review.plan.synthetic_cache_requested
                &&& s.synthetic_cache_supported == review.plan.synthetic_cache_supported
                &&& !s.synthetic_cache_applied
                &&& s.draft_provider@ == review.provider@
                &&& s.proposed_tokens == proposed
                &&& s.accepted_tokens == 0
                &&& s.rejected_tokens == proposed
                &&& s.verification_batches == 0
                &&& s.fallback_decode_tokens == 0
                &&& s.renderer_inserted_tokens == template_tokens()
                &&& s.llm_generated_tokens == larger(
                    written,
                    perf::output_tokens(structured::report_text(report)),
                )
                &&& s.output_token_reduction_ratio == perf::ratio(
                    template_tokens() as int,
                    (template_tokens() + written) as int,
                )
            })
        },
{
    if !review.plan.use_template_renderer {
        return None;
    }
    let structured = match strategy_build_structured_report_from_record_sections(
        evidence_packet,
        message,
        draft_answer,
    ) {
        Some(structured) => structured,
        None => {
            return None;
        },
    };
    let estimated: usize = strategy_estimate_structured_report_tokens(&structured);
    let (rendered, inserted, generated) = strategy_render_record_structured_answer(
        &structured,
        serialized,
        evidence_packet,
        message,
        draft_answer,
        now,
    );
    let proposed: usize = review.proposal.token_ids.len();
    Some(
        StrategyRecordReviewResult {
            answer: rendered,
            metrics: None,
            renderer_stats: Some(
                StrategyRecordRendererStats {
                    synthetic_cache_requested: review.plan.synthetic_cache_requested,
                    synthetic_cache_supported: review.plan.synthetic_cache_supported,
                    synthetic_cache_applied: false,
                    draft_provider: review.provider.clone(),
                    proposed_tokens: proposed,
                    accepted_tokens: 0,
                    rejected_tokens: proposed,
                    verification_batches: 0,
                    fallback_decode_tokens: 0,
                    renderer_inserted_tokens: inserted,
                    llm_generated_tokens: larger_of(generated, estimated),
                    output_token_reduction_ratio: reduction_of(inserted, generated),
                },
            ),
        },
    )
}

/// What is done next to go over a record.
#[derive(Debug, Clone, Copy, PartialEq, Eq, Structural)]
pub enum ReviewStep {
    /// The draft of the data is checked.
    CheckDraft,
    /// A model gives the record as data, with or without the draft that was checked.
    Render { prefixed: bool },
    /// A model reads the record again.
    Read,
    /// The record was rendered.
    Rendered { prefixed: bool },
    /// The record was read again.
    Improved,
    /// The record stays as it was.
    Kept,
}

/// What came of the data that a model was to give.
#[derive(Debug, Clone, Copy, PartialEq, Eq, Structural)]
pub enum DataOutcome {
    /// It gave them.
    Given,
    /// It gave something else.
    Unreadable,
    /// It did not answer.
    Failed,
}

/// The first step: data are asked for only where the plan has a renderer.
pub open spec fn review_start(renderer: bool) -> ReviewStep {
    if renderer {
        ReviewStep::CheckDraft
    } else {
        ReviewStep::Read
    }
}

/// The step after the draft was checked.
pub open spec fn after_check(accepted: bool) -> ReviewStep {
    ReviewStep::Render { prefixed: accepted }
}

/// The step after data were asked for: a model that fails behind a draft is asked again without
/// it; where there are no data, the record is read again.
pub open spec fn after_render(prefixed: bool, outcome: DataOutcome) -> ReviewStep {
    match outcome {
        DataOutcome::Given => ReviewStep::Rendered { prefixed },
        DataOutcome::Unreadable => ReviewStep::Read,
        DataOutcome::Failed => if prefixed {
            ReviewStep::Render { prefixed: false }
        } else {
            ReviewStep::Read
        },
    }
}

/// The step after the record was read again.
pub open spec fn after_read(answered: bool) -> ReviewStep {
    if answered {
        ReviewStep::Improved
    } else {
        ReviewStep::Kept
    }
}

/// The first step of going over a record.
pub fn begin_review(renderer: bool) -> (r: ReviewStep)
    ensures
        r == review_start(renderer),
{
    if renderer {
        ReviewStep::CheckDraft
    } else {
        ReviewStep::Read
    }
}

/// The step after the draft was checked.
pub fn review_after_check(accepted: bool) -> (r: ReviewStep)
    ensures
        r == after_check(accepted),
{
    ReviewStep::Render { prefixed: accepted }
}

/// The step after data were asked for, and what is reported of it. `error` is why a model did not
/// answer.
pub fn review_after_render(prefixed: bool, outcome: DataOutcome, error: &str, inserted: usize) -> (r: (
    ReviewStep,
    String,
))
    ensures
        r.0 == after_render(prefixed, outcome),
        r.1@ == match outcome {
            DataOutcome::Given =>
                ("템플릿 렌더러로 고정 섹션 "@ + strs::decimal(inserted as nat) + "토큰 정도를 앱에서 채우고, 모델은 핵심 JSON만 생성했어요."@),
            DataOutcome::Unreadable =>
                "구조화 응답이 충분하지 않아 기존 검토 경로로 한 번 더 다듬을게요."@,
            DataOutcome::Failed => if prefixed {
                ("검증 prefix 경로가 잠시 흔들려 PrefixKV 경로로 이어갈게요. "@ + strs::first(error@, 220))
            } else {
                ("템플릿 렌더러 단계가 잠시 흔들려 기존 검토 경로로 이어갈게요. "@ + strs::first(error@, 220))
            },
        },
{
    match outcome {
        DataOutcome::Given => {
            let mut line = text::copy("템플릿 렌더러로 고정 섹션 ");
            line.append(&text::decimal(inserted as u64));
            line.append("토큰 정도를 앱에서 채우고, 모델은 핵심 JSON만 생성했어요.");
            (ReviewStep::Rendered { prefixed }, line)
        },
        DataOutcome::Unreadable => (
            ReviewStep::Read,
            "구조화 응답이 충분하지 않아 기존 검토 경로로 한 번 더 다듬을게요.".to_owned(),
        ),
        DataOutcome::Failed => {
            if prefixed {
                let mut line = text::copy("검증 prefix 경로가 잠시 흔들려 PrefixKV 경로로 이어갈게요. ");
                line.append(&strategy_trim(error, 220));
                (ReviewStep::Render { prefixed: false }, line)
            } else {
                let mut line = text::copy("템플릿 렌더러 단계가 잠시 흔들려 기존 검토 경로로 이어갈게요. ");
                line.append(&strategy_trim(error, 220));
                (ReviewStep::Read, line)
            }
        },
    }
}

/// What is left to do at a step, at most.
pub open spec fn review_rank(step: ReviewStep) -> nat {
    match step {
        ReviewStep::CheckDraft => 4,
        ReviewStep::Render { prefixed } => if prefixed {
            3
        } else {
            2
        },
        ReviewStep::Read => 1,
        _ => 0,
    }
}

/// Every step leads on: going over a record comes to its end.
pub proof fn a_review_comes_to_its_end(prefixed: bool, accepted: bool, outcome: DataOutcome, answered: bool)
    ensures
        review_rank(after_check(accepted)) < review_rank(ReviewStep::CheckDraft),
        review_rank(after_render(prefixed, outcome)) < review_rank(ReviewStep::Render { prefixed }),
        review_rank(after_read(answered)) < review_rank(ReviewStep::Read),
{
}

/// A record is rendered behind a draft only where the draft was accepted.
pub proof fn a_draft_is_used_only_where_it_was_accepted(accepted: bool, outcome: DataOutcome)
    ensures
        after_render(accepted, outcome) == (ReviewStep::Rendered { prefixed: true }) ==> accepted,
        after_render(false, outcome) != (ReviewStep::Rendered { prefixed: true }),
{
}

/// A number within bounds.
pub open spec fn bounded(n: u32, low: u32, high: u32) -> u32 {
    perf::within(n, low, high)
}

fn bounded_of(n: u32, low: u32, high: u32) -> (r: u32)
    requires
        low <= high,
    ensures
        r == bounded(n, low, high),
{
    if n < low {
        low
    } else if n > high {
        high
    } else {
        n
    }
}

/// The window of a review.
pub open spec fn review_window(n_ctx: u32) -> u32 {
    if n_ctx < 3584 {
        3584
    } else {
        n_ctx
    }
}

fn review_window_of(n_ctx: u32) -> (r: u32)
    ensures
        r == review_window(n_ctx),
{
    if n_ctx < 3584 {
        3584
    } else {
        n_ctx
    }
}

/// How many tokens the data of a record may have.
pub fn renderer_max_tokens(max_tokens: u32) -> (r: u32)
    ensures
        r == bounded(max_tokens, 260, 360),
{
    bounded_of(max_tokens, 260, 360)
}

/// What a model is asked for the data of a record.
pub fn renderer_request(
    evidence_packet: &StrategyEvidencePacket,
    case_item: Option<&CaseItem>,
    message: &str,
    strategy_note: Option<&str>,
    draft_answer: &str,
    n_ctx: u32,
    max_tokens: u32,
    cache: bool,
    prefix: Option<String>,
) -> (r: StageRequest)
    ensures
        r@ == (Wanted {
            model_id: STRATEGY_MODEL_DEFAULT_ID@,
            stage: HybridStage::RecordReview,
            system: prompts::RECORD_RENDERER_SYSTEM_PROMPT@,
            user: prompts::renderer_prompt(
                *evidence_packet,
                labels::deref_case(case_item),
                message@,
                strs::opt_str(strategy_note),
                draft_answer@,
            ),
            n_ctx: review_window(n_ctx),
            max_tokens: bounded(max_tokens, 260, 360),
            label: "점검"@,
            cache,
            prefix: strs::opt_view(prefix),
        }),
{
    StageRequest {
        model_id: STRATEGY_MODEL_DEFAULT_ID,
        stage: HybridStage::RecordReview,
        system_prompt: build_strategy_record_renderer_system_prompt(),
        user_prompt: build_strategy_record_renderer_user_prompt(
            evidence_packet,
            case_item,
            message,
            strategy_note,
            draft_answer,
        ),
        n_ctx: review_window_of(n_ctx),
        max_tokens: bounded_of(max_tokens, 260, 360),
        label: "점검",
        cache,
        prefix,
    }
}

/// What a model is asked to read a record again.
pub fn review_request(
    template: &StrategyRecordModeTemplate,
    evidence_packet: &StrategyEvidencePacket,
    case_item: Option<&CaseItem>,
    message: &str,
    strategy_note: Option<&str>,
    draft_answer: &str,
    n_ctx: u32,
    max_tokens: u32,
    cache: bool,
) -> (r: StageRequest)
    ensures
        r@ == (Wanted {
            model_id: STRATEGY_MODEL_DEFAULT_ID@,
            stage: HybridStage::RecordReview,
            system: prompts::RECORD_REVIEW_SYSTEM_PROMPT@,
            user: prompts::review_prompt(
                *template,
                *evidence_packet,
                labels::deref_case(case_item),
                message@,
                strs::opt_str(strategy_note),
                draft_answer@,
            ),
            n_ctx: review_window(n_ctx),
            max_tokens: bounded(max_tokens, 680, 768),
            label: "점검"@,
            cache,
            prefix: None,
        }),
{
    StageRequest {
        model_id: STRATEGY_MODEL_DEFAULT_ID,
        stage: HybridStage::RecordReview,
        system_prompt: build_strategy_record_review_system_prompt(),
        user_prompt: build_strategy_record_review_user_prompt(
            template,
            evidence_packet,
            case_item,
            message,
            strategy_note,
            draft_answer,
        ),
        n_ctx: review_window_of(n_ctx),
        max_tokens: bounded_of(max_tokens, 680, 768),
        label: "점검",
        cache,
        prefix: None,
    }
}

/// The tokens of a draft that count as rejected in the end.
pub open spec fn rejected_in_review(v: StrategyVerifiedDraftPrefix, proposed: nat) -> nat {
    if v.proposed_tokens > 0 {
        v.rejected_tokens as nat
    } else {
        proposed
    }
}

/// Why a rendered record has nothing from the draft.
pub open spec fn render_bypass(
    applied: bool,
    v: StrategyVerifiedDraftPrefix,
    kv: bool,
    planned: Seq<char>,
) -> Seq<char> {
    if applied {
        ""@
    } else if strs::trim(v.bypass_reason@).len() > 0 {
        v.bypass_reason@
    } else if kv {
        "synthetic_token_cache_verification_disabled_by_default; fallback=PrefixKV+TemplateRenderer"@
    } else {
        planned
    }
}

/// What the stage that gave the data of a record is recorded with.
pub open spec fn render_recorded(
    before: StrategyStageCachePerf,
    review: ReviewPlan,
    v: StrategyVerifiedDraftPrefix,
    prefixed: bool,
    written: nat,
    serialized: nat,
    after: StrategyStageCachePerf,
) -> bool {
    let proposed = review.proposal.token_ids@.len();
    let applied = prefixed && v.synthetic_applied;
    let rejected = rejected_in_review(v, proposed);
    &&& after == (StrategyStageCachePerf {
        synthetic_cache_requested: review.plan.synthetic_cache_requested,
        synthetic_cache_supported: review.plan.synthetic_cache_supported,
        synthetic_cache_applied: applied,
        cache_applied: applied || before.prefix_kv_applied,
        cache_mode_requested: review.plan.cache_mode_requested,
        cache_mode_applied: after.cache_mode_applied,
        bypass_reason: after.bypass_reason,
        draft_provider: review.provider,
        token_cache_applied: applied,
        proposed_tokens: proposed as usize,
        accepted_tokens: v.accepted_tokens,
        rejected_tokens: rejected as usize,
        acceptance_ratio: perf::ratio(v.accepted_tokens as int, proposed as int),
        verify_batches: v.verification_batches,
        rejected_batches: execution::one_if(rejected > 0) as usize,
        avg_proposed_batch_size: perf::ratio(proposed as int, 1),
        avg_accepted_batch_size: perf::ratio(
            v.accepted_tokens as int,
            v.verification_batches as int,
        ),
        accepted_tokens_per_verify: v.accepted_tokens_per_verify,
        fallback_tokens: written as usize,
        fallback_decode_tokens: less(written, v.accepted_tokens as nat) as usize,
        renderer_inserted_tokens: template_tokens() as usize,
        llm_generated_tokens: larger(serialized, written) as usize,
        output_token_reduction_ratio: perf::ratio(
            template_tokens() as int,
            (template_tokens() + serialized) as int,
        ),
        ..before
    })
    &&& after.cache_mode_applied@ == if applied {
        "FullDRACE"@
    } else if before.prefix_kv_applied {
        "PrefixKV+TemplateRenderer"@
    } else {
        "Off"@
    }
    &&& after.bypass_reason@ == render_bypass(
        applied,
        v,
        before.prefix_kv_applied,
        review.plan.bypass_reason@,
    )
}

/// Where a model gave the data of a record, the stage says that something came from the cache
/// exactly where a draft was accepted or a prefix reused, and its mode says the same.
pub proof fn a_render_counts_only_what_was_reused(
    before: StrategyStageCachePerf,
    review: ReviewPlan,
    v: StrategyVerifiedDraftPrefix,
    prefixed: bool,
    written: nat,
    serialized: nat,
    after: StrategyStageCachePerf,
)
    requires
        render_recorded(before, review, v, prefixed, written, serialized, after),
    ensures
        after.cache_applied <==> after.synthetic_cache_applied || after.prefix_kv_applied,
        after.cache_applied <==> after.cache_mode_applied@ != "Off"@,
        after.cache_loaded == before.cache_loaded,
{
    reveal_strlit("Off");
    reveal_strlit("FullDRACE");
    reveal_strlit("PrefixKV+TemplateRenderer");
    assert("FullDRACE"@.len() == 9);
    assert("PrefixKV+TemplateRenderer"@.len() == 25);
    assert("Off"@.len() == 3);
}

fn record_render(
    before: StrategyStageCachePerf,
    review: &ReviewPlan,
    verified: &StrategyVerifiedDraftPrefix,
    prefixed: bool,
    written: usize,
    inserted: usize,
    serialized: usize,
) -> (r: StrategyStageCachePerf)
    requires
        inserted == template_tokens(),
    ensures
        render_recorded(
            before,
            *review,
            *verified,
            prefixed,
            written as nat,
            serialized as nat,
            r,
        ),
{
    let proposed: usize = review.proposal.token_ids.len();
    let applied = prefixed && verified.synthetic_applied;
    let rejected: usize = if verified.proposed_tokens > 0 {
        verified.rejected_tokens
    } else {
        proposed
    };
    let kv = before.prefix_kv_applied;
    let mode = if applied {
        "FullDRACE".to_owned()
    } else if kv {
        "PrefixKV+TemplateRenderer".to_owned()
    } else {
        "Off".to_owned()
    };
    let reason = if applied {
        "".to_owned()
    } else if !text::is_blank(&verified.bypass_reason) {
        verified.bypass_reason.clone()
    } else if kv {
        "synthetic_token_cache_verification_disabled_by_default; fallback=PrefixKV+TemplateRenderer".to_owned()
    } else {
        review.plan.bypass_reason.clone()
    };
    StrategyStageCachePerf {
        synthetic_cache_requested: review.plan.synthetic_cache_requested,
        synthetic_cache_supported: review.plan.synthetic_cache_supported,
        synthetic_cache_applied: applied,
        cache_applied: applied || kv,
        cache_mode_requested: review.plan.cache_mode_requested.clone(),
        cache_mode_applied: mode,
        bypass_reason: reason,
        draft_provider: review.provider.clone(),
        token_cache_applied: applied,
        proposed_tokens: proposed,
        accepted_tokens: verified.accepted_tokens,
        rejected_tokens: rejected,
        acceptance_ratio: ratio_of(verified.accepted_tokens, proposed),
        verify_batches: verified.verification_batches,
        rejected_batches: if rejected > 0 {
            1
        } else {
            0
        },
        avg_proposed_batch_size: ratio_of(proposed, 1),
        avg_accepted_batch_size: ratio_of(
            verified.accepted_tokens,
            verified.verification_batches,
        ),
        accepted_tokens_per_verify: verified.accepted_tokens_per_verify,
        fallback_tokens: written,
        fallback_decode_tokens: written.saturating_sub(verified.accepted_tokens),
        renderer_inserted_tokens: inserted,
        llm_generated_tokens: larger_of(serialized, written),
        output_token_reduction_ratio: reduction_of(inserted, serialized),
        ..before
    }
}

/// What came of going over a record where a model gave its data. `reviewed` is the run of that
/// model, `structured` the data, and `serialized` their serialized form.
pub fn rendered_review(
    reviewed: StrategyModelExecution,
    review: &ReviewPlan,
    verified: &StrategyVerifiedDraftPrefix,
    prefixed: bool,
    structured: &StrategyStructuredReportDraft,
    serialized: &str,
    evidence_packet: &StrategyEvidencePacket,
    message: &str,
    draft_answer: &str,
    now: &str,
) -> (r: StrategyRecordReviewResult)
    ensures
        r.answer@ == structured::rendered_record(
            structured@,
            evidence_packet.evidence_records@.len(),
            message@,
            draft_answer@,
            now@,
        ),
        r.metrics matches Some(m) && ({
            let written = larger(
                reviewed.metrics.output_tokens as nat,
                perf::output_tokens(reviewed.answer@),
            );
            &&& m == (StrategyStagePerf { cache: m.cache, ..reviewed.metrics })
            &&& render_recorded(
                reviewed.metrics.cache,
                *review,
                *verified,
                prefixed,
                written,
                perf::output_tokens(serialized@),
                m.cache,
            )
            &&& r.renderer_stats matches Some(s) && {
                &&& s.synthetic_cache_requested == m.cache.synthetic_cache_requested
                &&& s.synthetic_cache_supported == m.cache.synthetic_cache_supported
                &&& s.synthetic_cache_applied == m.cache.synthetic_cache_applied
                &&& s.draft_provider@ == review.provider@
                &&& s.proposed_tokens == m.cache.proposed_tokens
                &&& s.accepted_tokens == m.cache.accepted_tokens
                &&& s.rejected_tokens == m.cache.rejected_tokens
                &&& s.verification_batches == m.cache.verify_batches
                &&& s.fallback_decode_tokens == less(
                    m.cache.llm_generated_tokens as nat,
                    m.cache.accepted_tokens as nat,
                )
                &&& s.renderer_inserted_tokens == m.cache.renderer_inserted_tokens
                &&& s.llm_generated_tokens == m.cache.llm_generated_tokens
                &&& s.output_token_reduction_ratio == m.cache.output_token_reduction_ratio
            }
        }),
{
    let written: usize = larger_of(
        reviewed.metrics.output_tokens,
        strategy_approx_output_tokens(&reviewed.answer),
    );
    let (rendered, inserted, generated) = strategy_render_record_structured_answer(
        structured,
        serialized,
        evidence_packet,
        message,
        draft_answer,
        now,
    );
    let own = reviewed.metrics;
    let cache = record_render(
        own.cache.clone(),
        review,
        verified,
        prefixed,
        written,
        inserted,
        generated,
    );
    let stats = StrategyRecordRendererStats {
        synthetic_cache_requested: cache.synthetic_cache_requested,
        synthetic_cache_supported: cache.synthetic_cache_supported,
        synthetic_cache_applied: cache.synthetic_cache_applied,
        draft_provider: review.provider.clone(),
        proposed_tokens: cache.proposed_tokens,
        accepted_tokens: cache.accepted_tokens,
        rejected_tokens: cache.rejected_tokens,
        verification_batches: cache.verify_batches,
        fallback_decode_tokens: cache.llm_generated_tokens.saturating_sub(cache.accepted_tokens),
        renderer_inserted_tokens: cache.renderer_inserted_tokens,
        llm_generated_tokens: cache.llm_generated_tokens,
        output_token_reduction_ratio: cache.output_token_reduction_ratio,
    };
    StrategyRecordReviewResult {
        answer: rendered,
        metrics: Some(StrategyStagePerf { cache, ..own }),
        renderer_stats: Some(stats),
    }
}

/// What came of going over a record that a model read again, and what is reported of it: the
/// model's own record, or the draft as it was.
pub fn read_review(result: Result<StrategyModelExecution, String>, draft_answer: &str) -> (r: (
    StrategyRecordReviewResult,
    String,
))
    ensures
        r.0.renderer_stats is None,
        match result {
            Ok(run) => {
                &&& r.0.answer == run.answer
                &&& r.0.metrics == Some(run.metrics)
                &&& r.1@
                    == ("평가 매트릭 점검 후 기록 초안을 "@ + strs::decimal(run.answer@.len()) + "자로 다시 정리했어요."@)
            },
            Err(error) => {
                &&& r.0.answer@ == draft_answer@
                &&& r.0.metrics is None
                &&& r.1@
                    == ("기록 품질 점검 단계가 잠시 흔들려 기존 초안을 유지할게요. "@ + strs::first(error@, 220))
            },
        },
{
    match result {
        Ok(run) => {
            let chars: usize = run.answer.as_str().unicode_len();
            let mut line = text::copy("평가 매트릭 점검 후 기록 초안을 ");
            line.append(&text::decimal(chars as u64));
            line.append("자로 다시 정리했어요.");
            (
                StrategyRecordReviewResult {
                    answer: run.answer,
                    metrics: Some(run.metrics),
                    renderer_stats: None,
                },
                line,
            )
        },
        Err(error) => {
            let mut line = text::copy("기록 품질 점검 단계가 잠시 흔들려 기존 초안을 유지할게요. ");
            line.append(&strategy_trim(&error, 220));
            (
                StrategyRecordReviewResult {
                    answer: draft_answer.to_owned(),
                    metrics: None,
                    renderer_stats: None,
                },
                line,
            )
        },
    }
}

} // verus!
