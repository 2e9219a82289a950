//! How a model is run for a stage: what it is sent, what is done where a backend fails, and what
//! is recorded of the run.

use crate::drace::backends;
use crate::drace::backends::{
    extract_backend_answer, GenerationSessionOptions, LlamaServerConfig,
};
use crate::drace::cache_manager;
use crate::drace::cache_manager::{
    BackendCapabilities, BackendKind, Cache, DraceCacheManager, HybridStage, StageCachePlan,
};
use crate::drace::draft_provider::DraftProposal;
use crate::drace::prompt_segments;
use crate::drace::prompt_segments::PromptSegment;
use crate::engine::cleanup;
use crate::engine::cleanup::{cleanup_strategy_output, finalize_strategy_answer};
use crate::engine::drafts;
use crate::engine::drafts::{strategy_build_draft_proposal, StrategyVerifiedDraftPrefix};
use crate::engine::endpoints;
use crate::engine::endpoints::{
    strategy_error_indicates_ctx_exhausted, EndpointChoice, StrategyBackendRuntime,
};
use crate::engine::models;
use crate::engine::models::{
    normalize_strategy_model_id, strategy_model_label_for_id, STRATEGY_CHAT_TIMEOUT_SECS,
    STRATEGY_MODEL_HYBRID_ID,
};
use crate::engine::packet::StrategyEvidencePacket;
use crate::engine::perf;
use crate::engine::perf::{
    build_strategy_stage_cache_perf, ratio_of, strategy_approx_output_tokens,
    strategy_cli_bypass_plan_with_reason, strategy_generation_tuning, strategy_runtime_config,
    StrategyGenerationTuning, StrategyRuntimeConfig, StrategyStageCachePerf, StrategyStagePerf,
};
use crate::engine::sanitize;
use crate::engine::sanitize::{
    strategy_fit_prompt_to_budget, strategy_sanitize_text, strategy_trim,
};
use crate::engine::segments;
use crate::engine::segments::{
    llama_server_slot_for_stage, strategy_prepare_stage_prompt, strategy_short_hash_u64,
};
use crate::json;
use crate::json::{Json, Tree};
use crate::platform::encoding;
use crate::sorting;
use crate::strs;
use crate::text;
use vstd::prelude::*;

verus! {

/// What came of running a model.
#[derive(Debug)]
pub struct StrategyModelExecution {
    pub answer: String,
    pub model_path: String,
    pub runner: String,
    pub prompt_chars: usize,
    pub metrics: StrategyStagePerf,
}

impl Clone for StrategyModelExecution {
    fn clone(&self) -> (r: Self)
        ensures
            r == *self,
    {
        StrategyModelExecution {
            answer: self.answer.clone(),
            model_path: self.model_path.clone(),
            runner: self.runner.clone(),
            prompt_chars: self.prompt_chars,
            metrics: self.metrics.clone(),
        }
    }
}

/// What a model is to be run for.
#[derive(Debug, Clone)]
pub struct StageRequest {
    pub model_id: &'static str,
    pub stage: HybridStage,
    pub system_prompt: String,
    pub user_prompt: String,
    pub n_ctx: u32,
    pub max_tokens: u32,
    pub label: &'static str,
    pub cache: bool,
    /// The text that the answer begins with.
    pub prefix: Option<String>,
}

/// What a model is to be run for, as the contracts see it.
#[verifier::ext_equal]
pub struct Wanted {
    pub model_id: Seq<char>,
    pub stage: HybridStage,
    pub system: Seq<char>,
    pub user: Seq<char>,
    pub n_ctx: u32,
    pub max_tokens: u32,
    pub label: Seq<char>,
    pub cache: bool,
    pub prefix: Option<Seq<char>>,
}

impl View for StageRequest {
    type V = Wanted;

    open spec fn view(&self) -> Wanted {
        Wanted {
            model_id: self.model_id@,
            stage: self.stage,
            system: self.system_prompt@,
            user: self.user_prompt@,
            n_ctx: self.n_ctx,
            max_tokens: self.max_tokens,
            label: self.label@,
            cache: self.cache,
            prefix: strs::opt_view(self.prefix),
        }
    }
}

/// The model that is run for a name; the two models together cannot be run at once.
pub fn runnable_model(requested_model_id: &str) -> (r: Result<&'static str, String>)
    ensures
        match r {
            Ok(id) => id@ == models::model_named(Some(requested_model_id@)) && id@
                != STRATEGY_MODEL_HYBRID_ID@,
            Err(message) => models::model_named(Some(requested_model_id@))
                == STRATEGY_MODEL_HYBRID_ID@ && message@
                == "하이브리드 모델은 직접 실행할 수 없어요."@,
        },
{
    let id = normalize_strategy_model_id(Some(requested_model_id));
    if text::same(id, STRATEGY_MODEL_HYBRID_ID) {
        Err("하이브리드 모델은 직접 실행할 수 없어요.".to_owned())
    } else {
        Ok(id)
    }
}

/// How the answers of a stage are sampled, in thousandths: a review is sampled greedily.
pub open spec fn tuning_for(stage: HybridStage) -> StrategyGenerationTuning {
    if stage is RecordReview {
        StrategyGenerationTuning {
            temperature_milli: 0,
            top_p_milli: 1000,
            repeat_penalty_milli: 1050,
        }
    } else {
        StrategyGenerationTuning {
            temperature_milli: 150,
            top_p_milli: 850,
            repeat_penalty_milli: 1120,
        }
    }
}

/// How the answers of a stage are sampled.
pub fn stage_tuning(stage: HybridStage) -> (r: StrategyGenerationTuning)
    ensures
        r == tuning_for(stage),
{
    match stage {
        HybridStage::RecordReview => StrategyGenerationTuning {
            temperature_milli: 0,
            top_p_milli: 1000,
            repeat_penalty_milli: 1050,
        },
        _ => strategy_generation_tuning(),
    }
}

/// The part of a prompt that stays the same from run to run.
#[derive(Debug, Clone)]
pub struct PrefixNote {
    pub id: String,
    pub hash: u64,
    pub previous_hash: Option<u64>,
    pub tokens: usize,
    pub system_order: String,
    pub user_order: String,
}

/// A stage that is ready to be run.
#[derive(Debug)]
pub struct PreparedExecution {
    pub model_id: &'static str,
    pub model_label: &'static str,
    pub stage: HybridStage,
    pub runtime: StrategyRuntimeConfig,
    pub tuning: StrategyGenerationTuning,
    pub max_tokens: u32,
    pub system_prompt: String,
    pub user_prompt: String,
    pub plan: StageCachePlan,
    pub prefix: Option<PrefixNote>,
    pub prompt_chars: usize,
    pub prompt_tokens: usize,
    pub cache: StrategyStageCachePerf,
}

/// Why a model that is started anew gets nothing from the cache.
pub open spec fn cli_reason(requested: bool) -> Seq<char> {
    if requested {
        "unsupported_backend_cli"@
    } else {
        "cache disabled"@
    }
}

/// The system prompt of a stage, in its segments.
pub open spec fn system_of(raw: Seq<char>, stage: HybridStage) -> Seq<prompt_segments::Segment> {
    sorting::sorted::<PromptSegment>(segments::system_segments(strs::trim(raw), stage))
}

/// The user prompt of a stage, in its segments.
pub open spec fn user_of(system_raw: Seq<char>, user_raw: Seq<char>) -> Seq<prompt_segments::Segment> {
    sorting::sorted::<PromptSegment>(
        segments::user_segments(strs::trim(user_raw)) + segments::leaked_segments(
            strs::trim(system_raw),
        ),
    )
}

/// The system prompt that a stage is run with.
pub open spec fn system_text(cli: bool, raw: Seq<char>, stage: HybridStage) -> Seq<char> {
    if cli {
        sanitize::sanitized(strs::trim(raw))
    } else {
        prompt_segments::rendered(system_of(raw, stage))
    }
}

/// The user prompt that a stage is run with, cut to the window.
pub open spec fn user_text(
    cli: bool,
    system_raw: Seq<char>,
    user_raw: Seq<char>,
    n_ctx: u32,
    max_tokens: u32,
) -> Seq<char> {
    sanitize::fitted(
        if cli {
            sanitize::sanitized(strs::trim(user_raw))
        } else {
            prompt_segments::rendered(user_of(system_raw, user_raw))
        },
        n_ctx,
        max_tokens,
    )
}

/// A stage is ready: its prompts, its plan for the cache and how the model is run are what its
/// inputs call for, and the cache knows the beginning of its prompt where it can be kept.
pub open spec fn prepared(
    r: PreparedExecution,
    before: Cache,
    after: Cache,
    runtime: StrategyBackendRuntime,
    model_id: Seq<char>,
    stage: HybridStage,
    system_raw: Seq<char>,
    user_raw: Seq<char>,
    n_ctx: u32,
    max_tokens: u32,
    threads: u32,
    enabled: bool,
) -> bool {
    let cli = runtime.capabilities.backend_kind is CliSidecar;
    let window = perf::within(n_ctx, 2048, 4096);
    let (prefixes, known, previous) = cache_manager::ensured(
        before.prefixes,
        cache_manager::static_prefix(
            model_id,
            stage,
            system_of(system_raw, stage),
        ),
    );
    &&& after == if cli {
        before
    } else {
        Cache { prefixes, ..before }
    }
    &&& r.model_id@ == model_id
    &&& r.model_label@ == models::model_label(model_id)
    &&& r.stage == stage
    &&& r.runtime.n_ctx == window
    &&& r.runtime.threads == perf::within(threads, 1, 12)
    &&& r.runtime.n_gpu_layers == 0
    &&& r.runtime.device@ == "none"@
    &&& r.tuning == tuning_for(stage)
    &&& r.max_tokens == max_tokens
    &&& r.system_prompt@ == system_text(cli, system_raw, stage)
    &&& r.user_prompt@ == user_text(
        cli,
        system_raw,
        user_raw,
        window,
        max_tokens,
    )
    &&& r.plan@ == if cli {
        perf::bypass_plan(
            enabled,
            cli_reason(enabled),
        )
    } else {
        cache_manager::plan_for(
            before.capabilities,
            enabled,
            stage,
            known.estimated_tokens,
            max_tokens as int,
        )
    }
    &&& r.prefix is None == cli
    &&& r.prefix matches Some(p) ==> {
        &&& p.id@ == known.id
        &&& p.hash == known.content_hash
        &&& p.previous_hash == previous
        &&& p.tokens == known.estimated_tokens
        &&& p.system_order@ == strs::join(
            cache_manager::labels(system_of(system_raw, stage)),
            " > "@,
        )
        &&& p.user_order@ == strs::join(
            cache_manager::labels(user_of(system_raw, user_raw)),
            " > "@,
        )
    }
    &&& r.prompt_chars == perf::capped(r.system_prompt@.len() + r.user_prompt@.len())
    &&& r.prompt_tokens == perf::output_tokens(
        r.system_prompt@ + "\n"@ + r.user_prompt@,
    )
    &&& perf::perf_of_plan(
        runtime.capabilities,
        r.plan@,
        r.prompt_tokens as nat,
        0,
        r.cache,
    )
}

/// Makes a stage ready: its prompts, its plan for the cache, and how the model is run.
pub fn prepare_execution(
    manager: &mut DraceCacheManager,
    backend_runtime: &StrategyBackendRuntime,
    model_id: &'static str,
    stage: HybridStage,
    system_prompt_raw: &str,
    user_prompt_raw: &str,
    n_ctx: u32,
    max_tokens: u32,
    threads: u32,
    synthetic_cache_enabled: bool,
) -> (r: PreparedExecution)
    ensures
        prepared(
            r,
            old(manager)@,
            final(manager)@,
            *backend_runtime,
            model_id@,
            stage,
            system_prompt_raw@,
            user_prompt_raw@,
            n_ctx,
            max_tokens,
            threads,
            synthetic_cache_enabled,
        ),
        old(manager)@.wf() ==> final(manager)@.wf(),
{
    let runtime = strategy_runtime_config(Some(n_ctx), Some(threads), threads);
    let cli = match backend_runtime.capabilities.backend_kind {
        BackendKind::CliSidecar => true,
        _ => false,
    };
    let system_raw = text::trim(system_prompt_raw);
    let user_raw = text::trim(user_prompt_raw);
    let (system_prompt, user_raw_text, plan, prefix) = if cli {
        let reason = if synthetic_cache_enabled {
            "unsupported_backend_cli".to_owned()
        } else {
            "cache disabled".to_owned()
        };
        (
            strategy_sanitize_text(&system_raw),
            strategy_sanitize_text(&user_raw),
            strategy_cli_bypass_plan_with_reason(synthetic_cache_enabled, reason),
            None,
        )
    } else {
        let prepared = strategy_prepare_stage_prompt(
            manager,
            model_id,
            stage,
            synthetic_cache_enabled,
            &system_raw,
            &user_raw,
            max_tokens as usize,
        );
        let note = PrefixNote {
            id: prepared.static_prefix.id.clone(),
            hash: prepared.static_prefix.content_hash,
            previous_hash: prepared.static_prefix_previous_hash,
            tokens: prepared.static_prefix.estimated_tokens,
            system_order: text::join(&prepared.system_segment_order, " > "),
            user_order: text::join(&prepared.user_segment_order, " > "),
        };
        (prepared.rendered_system, prepared.rendered_user, prepared.plan, Some(note))
    };
    let user_prompt = strategy_fit_prompt_to_budget(&user_raw_text, runtime.n_ctx, max_tokens);
    let prompt_chars: usize = system_prompt.as_str().unicode_len().saturating_add(
        user_prompt.as_str().unicode_len(),
    );
    let mut whole = system_prompt.clone();
    whole.append("\n");
    whole.append(&user_prompt);
    let prompt_tokens: usize = strategy_approx_output_tokens(&whole);
    let cache = build_strategy_stage_cache_perf(
        &backend_runtime.capabilities,
        &plan,
        prompt_tokens,
        0,
    );
    PreparedExecution {
        model_id,
        model_label: strategy_model_label_for_id(model_id),
        stage,
        runtime,
        tuning: stage_tuning(stage),
        max_tokens,
        system_prompt,
        user_prompt,
        plan,
        prefix,
        prompt_chars,
        prompt_tokens,
        cache,
    }
}

/// What is reported of the prefix of a prompt.
pub open spec fn prefix_lines(prefix: Option<PrefixNote>) -> Seq<Seq<char>> {
    match prefix {
        None => Seq::empty(),
        Some(p) => {
            let now = strs::hex(p.hash as nat, 16);
            let line =
                ("DRaCE static prefix "@ + p.id@ + " · hash "@ + now + " · "@ + strs::decimal(p.tokens as nat) + " tokens · system "@ + p.system_order@ + " · user "@ + p.user_order@);
            match p.previous_hash {
                Some(before) => seq![
                    line,
                    ("DRaCE static prefix가 바뀌었어요. 이전 "@ + strs::hex(before as nat, 16) + " → 현재 "@ + now),
                ],
                None => seq![line],
            }
        },
    }
}

/// What is reported of a cache that is passed by.
pub open spec fn bypass_lines(requested: bool, applied: bool, reason: Seq<char>) -> Seq<Seq<char>> {
    if requested && !applied {
        seq![
            ("이번 단계의 DRaCE 캐시는 자동 우회할게요. "@ + (if strs::trim(reason).len() == 0 { "현재 backend에서 이득이 없다고 판단했어요."@ } else { reason })),
        ]
    } else {
        Seq::empty()
    }
}

/// What is reported before a stage is run.
pub open spec fn announcement(
    p: PreparedExecution,
    stage: Seq<char>,
    model_name: Seq<char>,
    runner_name: Seq<char>,
) -> Seq<Seq<char>> {
    let shown = if stage.len() == 0 {
        "실행"@
    } else {
        stage
    };
    seq![
        (shown + " 단계에서 "@ + p.model_label@ + "("@ + model_name + ")를 준비했어요."@),
        (p.model_label@ + " · 실행기 "@ + runner_name + " · 프롬프트 "@ + strs::decimal(p.prompt_chars as nat) + "자 · 컨텍스트 "@ + strs::decimal(p.runtime.n_ctx as nat) + " · 최대 토큰 "@ + strs::decimal(p.max_tokens as nat) + " · 스레드 "@ + strs::decimal(p.runtime.threads as nat) + " · 장치 "@ + (if p.runtime.n_gpu_layers > 0 { "metal"@ } else { "cpu"@ })),
    ] + prefix_lines(p.prefix) + bypass_lines(
        p.plan.cache_requested,
        p.plan.cache_applied,
        p.plan.bypass_reason@,
    )
}

/// What is reported where a stage asked for the cache and is run on a model that is started anew
/// because no server could be used; nothing where no server was looked for.
pub fn server_missing_notice(runtime: &StrategyBackendRuntime, cache_requested: bool) -> (r: Option<
    String,
>)
    ensures
        strs::opt_view(r) == if cache_requested && runtime.capabilities.backend_kind is CliSidecar
            && strs::trim(runtime.llama_server_unavailable_reason@).len() > 0 {
            Some(
                ("resident backend를 쓸 수 없어 CLI baseline으로 실행할게요. "@ + strs::first(runtime.llama_server_unavailable_reason@, 220)),
            )
        } else {
            None
        },
{
    let cli = match runtime.capabilities.backend_kind {
        BackendKind::CliSidecar => true,
        _ => false,
    };
    let reason = &runtime.llama_server_unavailable_reason;
    if cache_requested && cli && !text::is_blank(reason) {
        let mut line = text::copy("resident backend를 쓸 수 없어 CLI baseline으로 실행할게요. ");
        line.append(&strategy_trim(reason, 220));
        Some(line)
    } else {
        None
    }
}

/// What is reported before a stage is run, line by line.
pub fn stage_announcement(
    p: &PreparedExecution,
    stage: &str,
    model_name: &str,
    runner_name: &str,
) -> (r: Vec<String>)
    ensures
        strs::views(r@) == announcement(*p, stage@, model_name@, runner_name@),
{
    let shown = if stage.unicode_len() == 0 {
        "실행"
    } else {
        stage
    };
    let mut out = text::no_texts();
    let mut ready = text::copy(shown);
    ready.append(" 단계에서 ");
    ready.append(p.model_label);
    ready.append("(");
    ready.append(model_name);
    ready.append(")를 준비했어요.");
    text::push(&mut out, ready);
    let device = if p.runtime.n_gpu_layers > 0 {
        "metal"
    } else {
        "cpu"
    };
    let mut detail = text::copy(p.model_label);
    detail.append(" · 실행기 ");
    detail.append(runner_name);
    detail.append(" · 프롬프트 ");
    detail.append(&text::decimal(p.prompt_chars as u64));
    detail.append("자 · 컨텍스트 ");
    detail.append(&text::decimal(p.runtime.n_ctx as u64));
    detail.append(" · 최대 토큰 ");
    detail.append(&text::decimal(p.max_tokens as u64));
    detail.append(" · 스레드 ");
    detail.append(&text::decimal(p.runtime.threads as u64));
    detail.append(" · 장치 ");
    detail.append(device);
    text::push(&mut out, detail);
    if let Some(note) = &p.prefix {
        let now = strategy_short_hash_u64(note.hash);
        let mut line = text::copy("DRaCE static prefix ");
        line.append(&note.id);
        line.append(" · hash ");
        line.append(&now);
        line.append(" · ");
        line.append(&text::decimal(note.tokens as u64));
        line.append(" tokens · system ");
        line.append(&note.system_order);
        line.append(" · user ");
        line.append(&note.user_order);
        text::push(&mut out, line);
        if let Some(before) = note.previous_hash {
            let mut changed = text::copy("DRaCE static prefix가 바뀌었어요. 이전 ");
            changed.append(&strategy_short_hash_u64(before));
            changed.append(" → 현재 ");
            changed.append(&now);
            text::push(&mut out, changed);
        }
    }
    if p.plan.cache_requested && !p.plan.cache_applied {
        let reason = if text::is_blank(&p.plan.bypass_reason) {
            "현재 backend에서 이득이 없다고 판단했어요.".to_owned()
        } else {
            p.plan.bypass_reason.clone()
        };
        let mut line = text::copy("이번 단계의 DRaCE 캐시는 자동 우회할게요. ");
        line.append(&reason);
        text::push(&mut out, line);
    }
    assert(strs::views(out@) =~= announcement(*p, stage@, model_name@, runner_name@));
    out
}

/// A draft is proposed for the stage: the plan takes one, and the beginning of the answer is not
/// fixed otherwise.
pub open spec fn wants_draft(p: PreparedExecution, enabled: bool, prefix_given: bool) -> bool {
    enabled && !prefix_given && p.plan.use_synthetic_token_cache && !(p.stage is RecordReview)
}

/// The provider of the draft of a stage.
pub open spec fn draft_source(p: PreparedExecution) -> Seq<char> {
    if strs::trim(p.plan.draft_provider@).len() == 0 {
        "template"@
    } else {
        p.plan.draft_provider@
    }
}

/// The draft that is proposed for a stage, with its provider, if there is one.
pub fn draft_for_stage(p: &PreparedExecution, enabled: bool, prefix_given: bool) -> (r: Option<(
    DraftProposal,
    String,
)>)
    ensures
        r is Some == wants_draft(*p, enabled, prefix_given),
        r matches Some((proposal, provider)) ==> {
            &&& provider@ == draft_source(*p)
            &&& proposal.provider_name@ == drafts::provider_shown(provider@)
            &&& proposal.token_ids@ == drafts::proposed_tokens(
                p.stage,
                provider@,
                p.plan.max_candidate_tokens as nat,
            )
            &&& strs::views(proposal.rendered_fragments@) == drafts::proposed_fragments(
                p.stage,
                provider@,
            )
        },
{
    let review = match p.stage {
        HybridStage::RecordReview => true,
        _ => false,
    };
    if !enabled || prefix_given || !p.plan.use_synthetic_token_cache || review {
        return None;
    }
    let provider = if text::is_blank(&p.plan.draft_provider) {
        "template".to_owned()
    } else {
        p.plan.draft_provider.clone()
    };
    let proposal = strategy_build_draft_proposal(
        p.stage,
        &provider,
        p.model_id,
        false,
        None,
        p.plan.max_candidate_tokens,
    );
    Some((proposal, provider))
}

/// One where there is something, else nothing.
pub open spec fn one_if(b: bool) -> nat {
    if b {
        1
    } else {
        0
    }
}

/// What the check of a draft changes in what is known of the cache.
pub open spec fn draft_noted(
    before: StrategyStageCachePerf,
    plan: StageCachePlan,
    provider: Seq<char>,
    v: StrategyVerifiedDraftPrefix,
    after: StrategyStageCachePerf,
) -> bool {
    let used = v.synthetic_applied && strs::trim(v.accepted_text@).len() > 0;
    &&& after == (StrategyStageCachePerf {
        synthetic_cache_requested: plan.synthetic_cache_requested,
        synthetic_cache_supported: plan.synthetic_cache_supported,
        synthetic_cache_applied: v.synthetic_applied,
        token_cache_applied: v.synthetic_applied,
        token_cache_loaded: before.token_cache_supported,
        draft_provider: after.draft_provider,
        proposed_tokens: v.proposed_tokens,
        accepted_tokens: v.accepted_tokens,
        rejected_tokens: v.rejected_tokens,
        verify_batches: v.verification_batches,
        rejected_batches: one_if(v.rejected_tokens > 0) as usize,
        acceptance_ratio: perf::ratio(v.accepted_tokens as int, v.proposed_tokens as int),
        avg_proposed_batch_size: perf::ratio(
            v.proposed_tokens as int,
            v.verification_batches as int,
        ),
        avg_accepted_batch_size: perf::ratio(
            v.accepted_tokens as int,
            v.verification_batches as int,
        ),
        accepted_tokens_per_verify: v.accepted_tokens_per_verify,
        cache_applied: used || before.cache_applied,
        cache_mode_applied: after.cache_mode_applied,
        bypass_reason: after.bypass_reason,
        ..before
    })
    &&& after.draft_provider@ == provider
    &&& after.cache_mode_applied@ == if used {
        "FullDRACE"@
    } else {
        before.cache_mode_applied@
    }
    &&& after.bypass_reason@ == if used {
        ""@
    } else if strs::trim(v.bypass_reason@).len() > 0 {
        v.bypass_reason@
    } else {
        before.bypass_reason@
    }
}

/// Notes what came of the check of a draft. With it comes the text that the answer begins with,
/// if any.
pub fn note_verified_draft(
    cache: StrategyStageCachePerf,
    plan: &StageCachePlan,
    provider: &str,
    verified: &StrategyVerifiedDraftPrefix,
) -> (r: (StrategyStageCachePerf, Option<String>))
    ensures
        draft_noted(cache, *plan, provider@, *verified, r.0),
        strs::opt_view(r.1) == if verified.synthetic_applied && strs::trim(
            verified.accepted_text@,
        ).len() > 0 {
            Some(verified.accepted_text@)
        } else {
            None
        },
{
    let used = verified.synthetic_applied && !text::is_blank(&verified.accepted_text);
    let mode = if used {
        "FullDRACE".to_owned()
    } else {
        cache.cache_mode_applied.clone()
    };
    let reason = if used {
        "".to_owned()
    } else if !text::is_blank(&verified.bypass_reason) {
        verified.bypass_reason.clone()
    } else {
        cache.bypass_reason.clone()
    };
    let after = StrategyStageCachePerf {
        synthetic_cache_requested: plan.synthetic_cache_requested,
        synthetic_cache_supported: plan.synthetic_cache_supported,
        synthetic_cache_applied: verified.synthetic_applied,
        token_cache_applied: verified.synthetic_applied,
        token_cache_loaded: cache.token_cache_supported,
        draft_provider: provider.to_owned(),
        proposed_tokens: verified.proposed_tokens,
        accepted_tokens: verified.accepted_tokens,
        rejected_tokens: verified.rejected_tokens,
        verify_batches: verified.verification_batches,
        rejected_batches: if verified.rejected_tokens > 0 {
            1
        } else {
            0
        },
        acceptance_ratio: ratio_of(verified.accepted_tokens, verified.proposed_tokens),
        avg_proposed_batch_size: ratio_of(
            verified.proposed_tokens,
            verified.verification_batches,
        ),
        avg_accepted_batch_size: ratio_of(
            verified.accepted_tokens,
            verified.verification_batches,
        ),
        accepted_tokens_per_verify: verified.accepted_tokens_per_verify,
        cache_applied: used || cache.cache_applied,
        cache_mode_applied: mode,
        bypass_reason: reason,
        ..cache
    };
    if used {
        (after, Some(verified.accepted_text.clone()))
    } else {
        (after, None)
    }
}

/// Where a draft is checked.
#[derive(Debug, Clone)]
pub enum VerifyTarget {
    /// Nowhere.
    Skip,
    /// By the model in this process.
    Native,
    /// By a server.
    Server { choice: EndpointChoice, slot: Option<u32>, cache_prompt: bool, timeout_ms: u64 },
}

/// The backend can check the tokens of a draft.
pub open spec fn can_verify(runtime: StrategyBackendRuntime, tokens: nat) -> bool {
    &&& tokens > 0
    &&& runtime.capabilities.supports_token_verification
    &&& runtime.capabilities.backend_kind is Native || (
    runtime.capabilities.backend_kind is LlamaServer && runtime.llama_server is Some)
}

/// Where a draft is checked, if the model is there. A check takes at most twelve seconds.
pub fn verification_target(
    runtime: &StrategyBackendRuntime,
    model_id: &str,
    stage: HybridStage,
    proposal: &DraftProposal,
) -> (r: VerifyTarget)
    ensures
        r is Skip == !can_verify(*runtime, proposal.token_ids@.len()),
        r is Native ==> runtime.capabilities.backend_kind is Native,
        r is Server ==> runtime.capabilities.backend_kind is LlamaServer,
        r matches VerifyTarget::Server { choice, slot, cache_prompt, timeout_ms } ==> ({
            let server = runtime.llama_server->0;
            let roosy = model_id@ == models::STRATEGY_MODEL_ROOSY_ID@;
            &&& endpoints::choice_view(choice) == if roosy {
                endpoints::choice_for(
                    server.roosy_url@,
                    endpoints::MANAGED_LLAMA_SERVER_ROOSY_URL@,
                    endpoints::LEGACY_LLAMA_SERVER_ROOSY_URL@,
                )
            } else {
                endpoints::choice_for(
                    server.hyperclova_url@,
                    endpoints::MANAGED_LLAMA_SERVER_HYPERCLOVA_URL@,
                    endpoints::LEGACY_LLAMA_SERVER_HYPERCLOVA_URL@,
                )
            }
            &&& slot == segments::slot_of(
                if roosy {
                    server.roosy_slot
                } else {
                    server.hyperclova_slot
                },
                stage,
            )
            &&& cache_prompt == server.cache_prompt
            &&& timeout_ms == if server.request_timeout_ms > 12000 {
                12000
            } else {
                server.request_timeout_ms
            }
        }),
{
    if proposal.token_ids.len() == 0 || !runtime.capabilities.supports_token_verification {
        return VerifyTarget::Skip;
    }
    match runtime.capabilities.backend_kind {
        BackendKind::CliSidecar => VerifyTarget::Skip,
        BackendKind::Native => VerifyTarget::Native,
        BackendKind::LlamaServer => match &runtime.llama_server {
            None => VerifyTarget::Skip,
            Some(server) => {
                let (choice, base_slot) = endpoints::effective_llama_server_endpoint_for_model(
                    server,
                    model_id,
                );
                VerifyTarget::Server {
                    choice,
                    slot: llama_server_slot_for_stage(base_slot, stage),
                    cache_prompt: server.cache_prompt,
                    timeout_ms: if server.request_timeout_ms > 12000 {
                        12000
                    } else {
                        server.request_timeout_ms
                    },
                }
            },
        },
    }
}

/// The prompt of a session: the system prompt and the user prompt, apart.
pub open spec fn session_text(system: Seq<char>, user: Seq<char>) -> Seq<char> {
    (strs::trim(system) + "\n\n"@ + strs::trim(user))
}

/// The prompt of a session.
pub fn session_prompt(system_prompt: &str, user_prompt: &str) -> (r: String)
    ensures
        r@ == session_text(system_prompt@, user_prompt@),
{
    let mut out = text::copy(&text::trim(system_prompt));
    out.append("\n\n");
    out.append(&text::trim(user_prompt));
    out
}

/// The backend that a stage is run on first, or why it falls back at once.
#[derive(Debug, Clone)]
pub enum FirstBackend {
    Native,
    Server,
    Cli,
    FallBack(Fallback),
}

/// Why a stage falls back on a model that is started anew.
#[derive(Debug, Clone)]
pub enum Fallback {
    NativeFailed(String),
    ServerUnavailable(String),
    ServerFailed(String),
    ServerMissing,
}

/// The backend that a stage is run on first.
pub fn first_backend(runtime: &StrategyBackendRuntime) -> (r: FirstBackend)
    ensures
        match runtime.capabilities.backend_kind {
            BackendKind::Native => r is Native,
            BackendKind::CliSidecar => r is Cli,
            BackendKind::LlamaServer => if !runtime.llama_server_available {
                r matches FirstBackend::FallBack(Fallback::ServerUnavailable(reason)) && reason@
                    == if strs::trim(runtime.llama_server_unavailable_reason@).len() == 0 {
                    "llama_server_unavailable"@
                } else {
                    runtime.llama_server_unavailable_reason@
                }
            } else if runtime.llama_server is Some {
                r is Server
            } else {
                r == FirstBackend::FallBack(Fallback::ServerMissing)
            },
        },
{
    match runtime.capabilities.backend_kind {
        BackendKind::Native => FirstBackend::Native,
        BackendKind::CliSidecar => FirstBackend::Cli,
        BackendKind::LlamaServer => {
            if !runtime.llama_server_available {
                let reason = if text::is_blank(&runtime.llama_server_unavailable_reason) {
                    "llama_server_unavailable".to_owned()
                } else {
                    runtime.llama_server_unavailable_reason.clone()
                };
                FirstBackend::FallBack(Fallback::ServerUnavailable(reason))
            } else if runtime.llama_server.is_some() {
                FirstBackend::Server
            } else {
                FirstBackend::FallBack(Fallback::ServerMissing)
            }
        },
    }
}

/// What a fallback is recorded as.
pub open spec fn fallback_reason(f: Fallback) -> Seq<char> {
    match f {
        Fallback::NativeFailed(e) => "native_backend_request_failed: "@ + strs::first(e@, 240),
        Fallback::ServerUnavailable(reason) => reason@,
        Fallback::ServerFailed(e) => "llama_server_request_failed: "@ + strs::first(e@, 240),
        Fallback::ServerMissing => "llama_server_endpoint_missing"@,
    }
}

/// What is reported of a fallback.
pub open spec fn fallback_notice(f: Fallback) -> Option<Seq<char>> {
    match f {
        Fallback::NativeFailed(e) => Some(
            ("native backend가 응답하지 않아 CLI baseline으로 안전하게 되돌릴게요. "@ + strs::first(e@, 220)),
        ),
        Fallback::ServerUnavailable(reason) => Some(
            ("resident backend healthcheck가 실패해서 CLI baseline으로 되돌릴게요. "@ + strs::first(reason@, 220)),
        ),
        Fallback::ServerFailed(e) => Some(
            ("resident backend가 응답하지 않아 CLI baseline으로 안전하게 되돌릴게요. "@ + strs::first(e@, 220)),
        ),
        Fallback::ServerMissing => None,
    }
}

/// What is known of the cache after a fallback, and what is reported of it.
pub fn fall_back(fallback: &Fallback, cache_requested: bool, prompt_tokens: usize) -> (r: (
    StrategyStageCachePerf,
    Option<String>,
))
    ensures
        perf::perf_of_plan(
            BackendCapabilities::cli_only(),
            perf::bypass_plan(cache_requested, fallback_reason(*fallback)),
            prompt_tokens as nat,
            0,
            r.0,
        ),
        strs::opt_view(r.1) == fallback_notice(*fallback),
{
    let (reason, notice) = match fallback {
        Fallback::NativeFailed(e) => {
            let mut reason = "native_backend_request_failed: ".to_owned();
            reason.append(&strategy_trim(e, 240));
            let mut line = text::copy("native backend가 응답하지 않아 CLI baseline으로 안전하게 되돌릴게요. ");
            line.append(&strategy_trim(e, 220));
            (reason, Some(line))
        },
        Fallback::ServerUnavailable(why) => {
            let mut line = text::copy("resident backend healthcheck가 실패해서 CLI baseline으로 되돌릴게요. ");
            line.append(&strategy_trim(why, 220));
            (why.clone(), Some(line))
        },
        Fallback::ServerFailed(e) => {
            let mut reason = "llama_server_request_failed: ".to_owned();
            reason.append(&strategy_trim(e, 240));
            let mut line = text::copy("resident backend가 응답하지 않아 CLI baseline으로 안전하게 되돌릴게요. ");
            line.append(&strategy_trim(e, 220));
            (reason, Some(line))
        },
        Fallback::ServerMissing => ("llama_server_endpoint_missing".to_owned(), None),
    };
    let plan = strategy_cli_bypass_plan_with_reason(cache_requested, reason);
    let cache = build_strategy_stage_cache_perf(
        &BackendCapabilities::cli(),
        &plan,
        prompt_tokens,
        0,
    );
    (cache, notice)
}

/// What is sent to a server next.
#[derive(Debug)]
pub enum RequestStep {
    /// The prompt, with or without its place in the cache.
    Send { cached: bool },
    /// Nothing yet: the server is started anew first.
    Restart,
    /// Nothing more: the server answered.
    Answered { cached: bool },
    /// Nothing more: the server did not answer.
    Failed(String),
}

/// What is sent to a server next, as the contracts see it.
pub enum Sending {
    Send { cached: bool },
    Restart,
    Answered { cached: bool },
    Failed(Seq<char>),
}

/// The view of a step.
pub open spec fn sending(s: RequestStep) -> Sending {
    match s {
        RequestStep::Send { cached } => Sending::Send { cached },
        RequestStep::Restart => Sending::Restart,
        RequestStep::Answered { cached } => Sending::Answered { cached },
        RequestStep::Failed(e) => Sending::Failed(e@),
    }
}

/// A request to a server, with the attempts that are left to it.
#[derive(Debug)]
pub struct ServerRequest {
    step: RequestStep,
    errors: String,
    tries: u8,
}

/// A request to a server, as the contracts see it: what is sent next, what went wrong, and how
/// often it was sent. The third try is the last.
pub struct Request {
    pub step: Sending,
    pub errors: Seq<char>,
    pub tries: int,
}

impl View for ServerRequest {
    type V = Request;

    closed spec fn view(&self) -> Request {
        Request { step: sending(self.step), errors: self.errors@, tries: self.tries as int }
    }
}

impl Request {
    /// The request after a reply: `None` where there is an answer, else what went wrong. A prompt
    /// that did not fit is sent again without its place in the cache, then to a server that was
    /// started anew.
    pub open spec fn after_reply(self, error: Option<Seq<char>>) -> Request {
        match self.step {
            Sending::Send { cached } => match error {
                None => Request {
                    step: Sending::Answered { cached },
                    errors: self.errors,
                    tries: self.tries + 1,
                },
                Some(e) => if self.tries >= 2 {
                    Request { step: Sending::Failed(e), errors: self.errors, tries: self.tries + 1 }
                } else {
                    let all = if self.tries == 0 {
                        e
                    } else {
                        self.errors + "; uncached_retry_failed: "@ + e
                    };
                    let step = if !endpoints::window_exceeded(e) {
                        Sending::Failed(all)
                    } else if cached {
                        Sending::Send { cached: false }
                    } else {
                        Sending::Restart
                    };
                    Request {
                        step,
                        errors: all,
                        tries: if step is Restart {
                            2
                        } else {
                            self.tries + 1
                        },
                    }
                },
            },
            _ => self,
        }
    }

    /// The request after the server was started anew, or why it could not be.
    pub open spec fn after_restart(self, error: Option<Seq<char>>) -> Request {
        match self.step {
            Sending::Restart => match error {
                None => Request { step: Sending::Send { cached: false }, ..self },
                Some(e) => Request {
                    step: Sending::Failed(self.errors + "; restart_failed: "@ + e),
                    ..self
                },
            },
            _ => self,
        }
    }
}

impl ServerRequest {
    /// The request, before it is sent.
    pub fn new(cached: bool) -> (r: Self)
        ensures
            r@ == (Request { step: Sending::Send { cached }, errors: Seq::empty(), tries: 0 }),
            r.wf(),
    {
        let r = ServerRequest {
            step: RequestStep::Send { cached },
            errors: String::new(),
            tries: 0,
        };
        assert(r.errors@ =~= Seq::empty());
        r
    }

    /// The tries are few.
    pub closed spec fn wf(&self) -> bool {
        self.tries <= 3 && (self.step is Send || self.step is Restart ==> self.tries <= 2)
    }

    /// What is sent next.
    pub fn step(&self) -> (r: &RequestStep)
        ensures
            sending(*r) == self@.step,
    {
        &self.step
    }

    /// Takes a reply: nothing where there is an answer, else what went wrong.
    pub fn take_reply(&mut self, error: Option<&str>)
        requires
            old(self).wf(),
        ensures
            final(self).wf(),
            final(self)@ == old(self)@.after_reply(strs::opt_str(error)),
    {
        let cached = match &self.step {
            RequestStep::Send { cached } => *cached,
            _ => {
                return;
            },
        };
        match error {
            None => {
                self.tries = self.tries + 1;
                self.step = RequestStep::Answered { cached };
            },
            Some(e) => {
                if self.tries >= 2 {
                    self.tries = self.tries + 1;
                    self.step = RequestStep::Failed(e.to_owned());
                    return;
                }
                if self.tries == 0 {
                    self.errors = e.to_owned();
                } else {
                    self.errors.append("; uncached_retry_failed: ");
                    self.errors.append(e);
                }
                if !strategy_error_indicates_ctx_exhausted(e) {
                    self.tries = self.tries + 1;
                    self.step = RequestStep::Failed(self.errors.clone());
                } else if cached {
                    self.tries = self.tries + 1;
                    self.step = RequestStep::Send { cached: false };
                } else {
                    self.tries = 2;
                    self.step = RequestStep::Restart;
                }
            },
        }
    }

    /// Takes that the server was started anew, or why it could not be.
    pub fn take_restart(&mut self, error: Option<&str>)
        requires
            old(self).wf(),
        ensures
            final(self).wf(),
            final(self)@ == old(self)@.after_restart(strs::opt_str(error)),
    {
        match &self.step {
            RequestStep::Restart => {},
            _ => {
                return;
            },
        }
        match error {
            None => {
                self.step = RequestStep::Send { cached: false };
            },
            Some(e) => {
                let mut all = self.errors.clone();
                all.append("; restart_failed: ");
                all.append(e);
                self.step = RequestStep::Failed(all);
            },
        }
    }
}

/// What is reported where a request goes on after a failure.
pub fn retry_notice(step: &RequestStep) -> (r: Option<&'static str>)
    ensures
        strs::opt_str(r) == match sending(*step) {
            Sending::Send { .. } => Some(
                "resident slot이 포화되어 cache_prompt 없이 한 번 더 시도할게요."@,
            ),
            Sending::Restart => Some(
                "resident backend 컨텍스트가 부족해 서버를 다시 준비한 뒤 한 번 더 시도할게요."@,
            ),
            _ => None,
        },
{
    match step {
        RequestStep::Send { .. } => Some(
            "resident slot이 포화되어 cache_prompt 없이 한 번 더 시도할게요.",
        ),
        RequestStep::Restart => Some(
            "resident backend 컨텍스트가 부족해 서버를 다시 준비한 뒤 한 번 더 시도할게요.",
        ),
        _ => None,
    }
}

/// Only a prompt that did not fit is sent again: any other failure ends the request, and so does
/// an answer.
pub proof fn only_a_full_window_is_tried_again(q: Request, error: Option<Seq<char>>)
    requires
        q.step is Send,
        q.after_reply(error).step is Send || q.after_reply(error).step is Restart,
    ensures
        error matches Some(e) && endpoints::window_exceeded(e),
        q.tries < 2,
{
}

/// A prompt that was once refused its place in the cache is not sent with it again.
pub proof fn a_retry_goes_without_the_cache(q: Request, error: Option<Seq<char>>)
    requires
        q.step is Send,
        q.after_reply(error).step is Send,
    ensures
        q.after_reply(error).step == (Sending::Send { cached: false }),
        q.step == (Sending::Send { cached: true }),
{
}

/// The error that the reply of a server reports.
pub open spec fn server_error(root: Tree) -> Option<Seq<char>> {
    match json::filled_text(json::get_of(root.get("error"@), "message"@)) {
        Some(s) => Some(s),
        None => match json::filled_text(root.get("error"@)) {
            Some(s) => Some(s),
            None => match json::filled_text(root.get("detail"@)) {
                Some(s) => Some(s),
                None => json::filled_text(root.get("message"@)),
            },
        },
    }
}

/// The answer in the reply of a server.
pub fn extract_llama_server_answer(root: &Json) -> (r: Option<String>)
    ensures
        strs::opt_view(r) == backends::reply_answer(root.tree()),
{
    extract_backend_answer(root)
}

/// The error that the reply of a server reports.
pub fn extract_llama_server_error(root: &Json) -> (r: Option<String>)
    ensures
        strs::opt_view(r) == server_error(root.tree()),
{
    let inner = json::value_string(json::get_of_json(root.get("error"), "message"));
    if inner.is_some() {
        return inner;
    }
    let plain = json::value_string(root.get("error"));
    if plain.is_some() {
        return plain;
    }
    let detail = json::value_string(root.get("detail"));
    if detail.is_some() {
        return detail;
    }
    json::value_string(root.get("message"))
}

/// The number of a timing in the reply of a server, as it is written.
pub fn llama_server_timing(root: &Json, key: &str) -> (r: Option<String>)
    ensures
        strs::opt_view(r) == match json::get_of(root.tree().get("timings"@), key@) {
            Some(Tree::Number(n)) => Some(n),
            _ => None,
        },
{
    match json::get_of_json(root.get("timings"), key) {
        Some(Json::Number(n)) => Some(n.clone()),
        _ => None,
    }
}

/// The answer that a reply stands for: cleaned, behind the text that it was to begin with; an
/// error where there is none.
pub open spec fn answer_or_error(root: Tree, prefix: Seq<char>) -> Result<Seq<char>, Seq<char>> {
    let raw = match backends::reply_answer(root) {
        Some(s) => s,
        None => Seq::empty(),
    };
    let answer = cleanup::cleaned_output(raw);
    if strs::trim(answer).len() == 0 {
        Err(
            ("llama-server가 비어 있는 응답을 반환했어요: "@ + (match server_error(root) { Some(e) => e, None => "llama-server가 비어 있는 응답을 반환했어요."@ })),
        )
    } else {
        Ok(prefix + answer)
    }
}

/// The view of a result that is a text or an error.
pub open spec fn text_result(r: Result<String, String>) -> Result<Seq<char>, Seq<char>> {
    match r {
        Ok(s) => Ok(s@),
        Err(e) => Err(e@),
    }
}

/// The answer that a reply of a server stands for.
pub fn read_server_answer(root: &Json, assistant_prefix: &str) -> (r: Result<String, String>)
    ensures
        text_result(r) == answer_or_error(root.tree(), assistant_prefix@),
{
    let raw = match extract_llama_server_answer(root) {
        Some(s) => s,
        None => {
            let none = String::new();
            assert(none@ =~= Seq::empty());
            none
        },
    };
    let answer = cleanup_strategy_output(&raw);
    if text::is_blank(&answer) {
        let reason = match extract_llama_server_error(root) {
            Some(e) => e,
            None => "llama-server가 비어 있는 응답을 반환했어요.".to_owned(),
        };
        let mut out = text::copy("llama-server가 비어 있는 응답을 반환했어요: ");
        out.append(&reason);
        return Err(out);
    }
    let mut out = assistant_prefix.to_owned();
    out.append(&answer);
    Ok(out)
}

/// How a session with a server is run: only a cached prompt has a slot of its own.
pub fn server_session_options(
    p: &PreparedExecution,
    endpoint: &str,
    model_path: &str,
    slot: Option<u32>,
    cached: bool,
    assistant_prefix: &str,
    request_timeout_ms: u64,
) -> (r: GenerationSessionOptions)
    ensures
        r.model_id@ == p.model_id@,
        r.endpoint@ == endpoint@,
        strs::opt_view(r.model_path) == Some(model_path@),
        r.slot == if cached {
            slot
        } else {
            None
        },
        r.cache_prompt == cached,
        strs::opt_view(r.assistant_prefix) == if assistant_prefix@.len() == 0 {
            None
        } else {
            Some(assistant_prefix@)
        },
        r.n_ctx == Some(p.runtime.n_ctx),
        r.threads == Some(p.runtime.threads),
        r.max_tokens == p.max_tokens,
        r.temperature_milli == p.tuning.temperature_milli,
        r.top_p_milli == p.tuning.top_p_milli,
        r.repeat_penalty_milli == p.tuning.repeat_penalty_milli,
        r.request_timeout_ms == request_timeout_ms,
{
    GenerationSessionOptions {
        model_id: p.model_id.to_owned(),
        endpoint: endpoint.to_owned(),
        model_path: Some(model_path.to_owned()),
        slot: if cached {
            slot
        } else {
            None
        },
        cache_prompt: cached,
        assistant_prefix: if assistant_prefix.unicode_len() == 0 {
            None
        } else {
            Some(assistant_prefix.to_owned())
        },
        n_ctx: Some(p.runtime.n_ctx),
        threads: Some(p.runtime.threads),
        max_tokens: p.max_tokens,
        temperature_milli: p.tuning.temperature_milli,
        top_p_milli: p.tuning.top_p_milli,
        repeat_penalty_milli: p.tuning.repeat_penalty_milli,
        request_timeout_ms,
    }
}

/// What is reported of the prefix before a server is asked.
pub fn prefix_notice(warm: bool, hash: u64, tokens: usize) -> (r: String)
    ensures
        r@ == if warm {
            ("DRaCE PrefixKV warm hit · hash "@ + strs::hex(hash as nat, 16) + " · reused "@ + strs::decimal(tokens as nat) + " tokens"@)
        } else {
            ("DRaCE PrefixKV cold start · hash "@ + strs::hex(hash as nat, 16) + " · warmup "@ + strs::decimal(tokens as nat) + " tokens"@)
        },
{
    let short = strategy_short_hash_u64(hash);
    let count = text::decimal(tokens as u64);
    if warm {
        let mut out = text::copy("DRaCE PrefixKV warm hit · hash ");
        out.append(&short);
        out.append(" · reused ");
        out.append(&count);
        out.append(" tokens");
        out
    } else {
        let mut out = text::copy("DRaCE PrefixKV cold start · hash ");
        out.append(&short);
        out.append(" · warmup ");
        out.append(&count);
        out.append(" tokens");
        out
    }
}

/// Whether the prompt of a stage is sent to a server with its place in the cache: the plan reuses
/// its prefix, and the server is set up to keep prompts.
pub fn asks_for_cached_prompt(cache: &StrategyStageCachePerf, config: &LlamaServerConfig) -> (r:
    bool)
    ensures
        r == (cache.prefix_kv_applied && config.cache_prompt),
{
    cache.prefix_kv_applied && config.cache_prompt
}

/// What a run on a server changes in what is known of the cache. `asked` is whether the prompt
/// was to have its place in the cache, `used` whether it was answered with it, and `warm` whether
/// the prefix was there already. A prefix that was not is only put there: nothing is reused of it,
/// so nothing counts as applied.
pub open spec fn served(
    before: StrategyStageCachePerf,
    cache_prompt: bool,
    asked: bool,
    used: bool,
    warm: bool,
    prefix_tokens: usize,
    after: StrategyStageCachePerf,
) -> bool {
    let sent = before.prefix_kv_applied && used;
    let reused = sent && warm;
    let applied = before.synthetic_cache_applied || reused;
    &&& after == (StrategyStageCachePerf {
        cache_loaded: before.cache_requested && (cache_prompt || before.synthetic_cache_supported),
        cache_supported: true,
        prefix_kv_supported: true,
        prefix_kv_applied: reused,
        cache_applied: applied,
        cache_warm: reused,
        cache_mode_applied: after.cache_mode_applied,
        prefix_total_tokens: if sent {
            prefix_tokens
        } else {
            0
        },
        prefix_reused_tokens: if reused {
            prefix_tokens
        } else {
            0
        },
        prefix_reuse_ratio: perf::ratio(
            if reused {
                prefix_tokens as int
            } else {
                0
            },
            if sent {
                prefix_tokens as int
            } else {
                0
            },
        ),
        bypass_reason: after.bypass_reason,
        ..before
    })
    &&& after.cache_mode_applied@ == if before.synthetic_cache_applied {
        "FullDRACE"@
    } else if reused {
        before.cache_mode_applied@
    } else {
        "Off"@
    }
    &&& after.bypass_reason@ == if applied {
        ""@
    } else if sent {
        "cold cache"@
    } else if strs::trim(before.bypass_reason@).len() > 0 {
        before.bypass_reason@
    } else if asked && !used {
        "prefix_kv_slot_saturated"@
    } else if !cache_prompt {
        "cache_prompt_disabled"@
    } else {
        "prefix_kv_not_planned"@
    }
}

/// What is known of the cache after a run on a server.
pub fn server_stage_cache(
    before: &StrategyStageCachePerf,
    cache_prompt: bool,
    asked: bool,
    used: bool,
    warm: bool,
    prefix_tokens: usize,
) -> (r: StrategyStageCachePerf)
    ensures
        served(*before, cache_prompt, asked, used, warm, prefix_tokens, r),
{
    let sent = before.prefix_kv_applied && used;
    let reused = sent && warm;
    let applied = before.synthetic_cache_applied || reused;
    let total: usize = if sent {
        prefix_tokens
    } else {
        0
    };
    let taken: usize = if reused {
        prefix_tokens
    } else {
        0
    };
    StrategyStageCachePerf {
        cache_loaded: before.cache_requested && (cache_prompt || before.synthetic_cache_supported),
        cache_supported: true,
        prefix_kv_supported: true,
        prefix_kv_applied: reused,
        cache_applied: applied,
        cache_warm: reused,
        cache_mode_applied: if before.synthetic_cache_applied {
            "FullDRACE".to_owned()
        } else if reused {
            before.cache_mode_applied.clone()
        } else {
            "Off".to_owned()
        },
        prefix_total_tokens: total,
        prefix_reused_tokens: taken,
        prefix_reuse_ratio: ratio_of(taken, total),
        bypass_reason: if applied {
            "".to_owned()
        } else if sent {
            "cold cache".to_owned()
        } else if !text::is_blank(&before.bypass_reason) {
            before.bypass_reason.clone()
        } else if asked && !used {
            "prefix_kv_slot_saturated".to_owned()
        } else if !cache_prompt {
            "cache_prompt_disabled".to_owned()
        } else {
            "prefix_kv_not_planned".to_owned()
        },
        ..before.clone()
    }
}

/// A prefix counts as reused only where the server was sent the prompt with its place in the
/// cache and the prefix was there already, and never more of it than there is. Where it was not
/// and no draft was accepted, nothing counts as applied.
pub proof fn only_a_cached_prompt_reuses_its_prefix(
    before: StrategyStageCachePerf,
    cache_prompt: bool,
    asked: bool,
    used: bool,
    warm: bool,
    prefix_tokens: usize,
    after: StrategyStageCachePerf,
)
    requires
        served(before, cache_prompt, asked, used, warm, prefix_tokens, after),
    ensures
        after.prefix_reused_tokens <= after.prefix_total_tokens,
        after.prefix_reused_tokens > 0 ==> used && warm && after.cache_applied,
        after.cache_warm ==> after.cache_applied,
        !(used && warm) && !before.synthetic_cache_applied ==> {
            &&& !after.cache_applied
            &&& !after.prefix_kv_applied
            &&& after.cache_mode_applied@ == "Off"@
            &&& after.prefix_reused_tokens == 0
        },
{
}

/// The prefix of a run was put into the cache of the server by it: the prompt was answered with
/// its place in the cache, and the prefix was not there before.
pub open spec fn warmed_by_run(before: StrategyStageCachePerf, used: bool, warm: bool) -> bool {
    before.prefix_kv_applied && used && !warm
}

/// Whether the prefix of a run was made warm by it; it is then marked so. `before` is what was
/// known of the cache before the run.
pub fn note_prefix_of_run(
    manager: &mut DraceCacheManager,
    before: &StrategyStageCachePerf,
    used: bool,
    warm: bool,
    model_id: &str,
    prefix: &PrefixNote,
    slot: Option<u32>,
) -> (r: bool)
    ensures
        r == warmed_by_run(*before, used, warm),
        final(manager)@ == if r {
            cache_manager::marked(
                old(manager)@,
                cache_manager::warm_key(model_id@, prefix.id@, slot, Some(prefix.hash)),
                prefix.tokens as int,
            )
        } else {
            old(manager)@
        },
        old(manager)@.wf() ==> final(manager)@.wf(),
{
    if before.prefix_kv_applied && used && !warm {
        manager.mark_prefix_warm(model_id, &prefix.id, slot, Some(prefix.hash), prefix.tokens);
        true
    } else {
        false
    }
}

/// What was measured of a run.
#[derive(Debug, Clone, Copy)]
pub struct RunTimes {
    pub e2e_ms: u128,
    pub prompt_eval_ms: Option<u128>,
    pub decode_ms: Option<u128>,
    pub response_started_ms: u128,
}

/// A number, or one where it is smaller.
pub open spec fn at_least_one(n: u128) -> u128 {
    if n < 1 {
        1
    } else {
        n
    }
}

fn one_or_more(n: u128) -> (r: u128)
    ensures
        r == at_least_one(n),
{
    if n < 1 {
        1
    } else {
        n
    }
}

/// What every run records: how it was run.
pub open spec fn run_recorded(
    m: StrategyStagePerf,
    p: PreparedExecution,
    stage: Seq<char>,
    backend: Seq<char>,
    runner: Seq<char>,
    model_path: Seq<char>,
    footprint_mb: u64,
) -> bool {
    &&& m.stage_name@ == stage
    &&& m.model_id@ == p.model_id@
    &&& m.backend_kind@ == backend
    &&& m.runner_path@ == runner
    &&& m.model_path@ == model_path
    &&& m.threads == p.runtime.threads
    &&& m.threads_batch == p.runtime.threads
    &&& m.n_ctx == p.runtime.n_ctx
    &&& m.max_tokens == p.max_tokens
    &&& m.top_p_milli == p.tuning.top_p_milli
    &&& m.repeat_penalty_milli == p.tuning.repeat_penalty_milli
    &&& m.prompt_tokens == p.prompt_tokens
    &&& m.peak_memory_mb == footprint_mb
}

/// What came of a run on a server.
pub fn server_execution(
    p: &PreparedExecution,
    stage: &str,
    answer: String,
    runner: &str,
    model_path: &str,
    footprint_mb: u64,
    times: RunTimes,
    cache: StrategyStageCachePerf,
) -> (r: StrategyModelExecution)
    ensures
        r.answer == answer,
        r.model_path@ == model_path@,
        r.runner@ == runner@,
        r.prompt_chars == p.prompt_chars,
        run_recorded(r.metrics, *p, stage@, "llama-server"@, runner@, model_path@, footprint_mb),
        r.metrics.temperature_milli == p.tuning.temperature_milli,
        r.metrics.e2e_ms == at_least_one(times.e2e_ms),
        r.metrics.ttft_ms == Some(
            at_least_one(
                match times.prompt_eval_ms {
                    Some(t) => t,
                    None => times.response_started_ms,
                },
            ),
        ),
        r.metrics.output_tokens == perf::output_tokens(answer@),
        r.metrics.prompt_eval_ms == times.prompt_eval_ms,
        r.metrics.decode_ms == times.decode_ms,
        r.metrics.process_spawn_ms == 0,
        r.metrics.prompt_file_write_ms == 0,
        r.metrics.stdout_read_ms == times.response_started_ms,
        r.metrics.postprocess_ms == 0,
        r.metrics.cache == cache,
{
    let output_tokens: usize = strategy_approx_output_tokens(&answer);
    let first: u128 = match times.prompt_eval_ms {
        Some(t) => t,
        None => times.response_started_ms,
    };
    StrategyModelExecution {
        answer,
        model_path: model_path.to_owned(),
        runner: runner.to_owned(),
        prompt_chars: p.prompt_chars,
        metrics: StrategyStagePerf {
            stage_name: stage.to_owned(),
            model_id: p.model_id.to_owned(),
            backend_kind: "llama-server".to_owned(),
            runner_path: runner.to_owned(),
            model_path: model_path.to_owned(),
            threads: p.runtime.threads,
            threads_batch: p.runtime.threads,
            n_ctx: p.runtime.n_ctx,
            max_tokens: p.max_tokens,
            temperature_milli: p.tuning.temperature_milli,
            top_p_milli: p.tuning.top_p_milli,
            repeat_penalty_milli: p.tuning.repeat_penalty_milli,
            e2e_ms: one_or_more(times.e2e_ms),
            ttft_ms: Some(one_or_more(first)),
            prompt_tokens: p.prompt_tokens,
            output_tokens,
            prompt_eval_ms: times.prompt_eval_ms,
            decode_ms: times.decode_ms,
            peak_memory_mb: footprint_mb,
            process_spawn_ms: 0,
            prompt_file_write_ms: 0,
            stdout_read_ms: times.response_started_ms,
            postprocess_ms: 0,
            cache,
        },
    }
}

/// How a session with the model in this process is run: greedily, without a slot.
pub fn native_session_options(p: &PreparedExecution, model_path: &str, assistant_prefix: Option<
    String,
>) -> (r: GenerationSessionOptions)
    ensures
        r.model_id@ == p.model_id@,
        r.endpoint@ == ""@,
        strs::opt_view(r.model_path) == Some(model_path@),
        r.slot is None,
        !r.cache_prompt,
        r.assistant_prefix == assistant_prefix,
        r.n_ctx == Some(p.runtime.n_ctx),
        r.threads == Some(p.runtime.threads),
        r.max_tokens == p.max_tokens,
        r.temperature_milli == 0,
        r.top_p_milli == p.tuning.top_p_milli,
        r.repeat_penalty_milli == p.tuning.repeat_penalty_milli,
        r.request_timeout_ms == 0,
{
    GenerationSessionOptions {
        model_id: p.model_id.to_owned(),
        endpoint: "".to_owned(),
        model_path: Some(model_path.to_owned()),
        slot: None,
        cache_prompt: false,
        assistant_prefix,
        n_ctx: Some(p.runtime.n_ctx),
        threads: Some(p.runtime.threads),
        max_tokens: p.max_tokens,
        temperature_milli: 0,
        top_p_milli: p.tuning.top_p_milli,
        repeat_penalty_milli: p.tuning.repeat_penalty_milli,
        request_timeout_ms: 0,
    }
}

/// What the model in this process wrote: cleaned; an error where that is blank.
pub fn read_native_answer(raw: &str) -> (r: Result<String, String>)
    ensures
        text_result(r) == if strs::trim(cleanup::cleaned_output(strs::trim(raw@))).len() == 0 {
            Err("native backend가 비어 있는 응답을 반환했어요."@)
        } else {
            Ok(cleanup::cleaned_output(strs::trim(raw@)))
        },
{
    let answer = cleanup_strategy_output(&text::trim(raw));
    if text::is_blank(&answer) {
        Err("native backend가 비어 있는 응답을 반환했어요.".to_owned())
    } else {
        Ok(answer)
    }
}

/// What a run in this process changes in what is known of the cache.
pub open spec fn ran_native(before: StrategyStageCachePerf, after: StrategyStageCachePerf) -> bool {
    &&& after == (StrategyStageCachePerf {
        cache_supported: before.token_verification_supported || before.token_cache_supported,
        cache_loaded: before.synthetic_cache_supported,
        cache_applied: before.synthetic_cache_applied,
        prefix_kv_supported: false,
        prefix_kv_applied: false,
        prefix_reused_tokens: 0,
        prefix_total_tokens: 0,
        prefix_reuse_ratio: perf::ratio(0, 0),
        cache_mode_applied: after.cache_mode_applied,
        bypass_reason: after.bypass_reason,
        ..before
    })
    &&& after.cache_mode_applied@ == if before.synthetic_cache_applied {
        "FullDRACE"@
    } else {
        "Off"@
    }
    &&& after.bypass_reason@ == if before.synthetic_cache_applied {
        ""@
    } else {
        before.bypass_reason@
    }
}

/// What is known of the cache after a run in this process.
pub fn native_stage_cache(before: &StrategyStageCachePerf) -> (r: StrategyStageCachePerf)
    ensures
        ran_native(*before, r),
{
    StrategyStageCachePerf {
        cache_supported: before.token_verification_supported || before.token_cache_supported,
        cache_loaded: before.synthetic_cache_supported,
        cache_applied: before.synthetic_cache_applied,
        prefix_kv_supported: false,
        prefix_kv_applied: false,
        prefix_reused_tokens: 0,
        prefix_total_tokens: 0,
        prefix_reuse_ratio: ratio_of(0, 0),
        cache_mode_applied: if before.synthetic_cache_applied {
            "FullDRACE".to_owned()
        } else {
            "Off".to_owned()
        },
        bypass_reason: if before.synthetic_cache_applied {
            "".to_owned()
        } else {
            before.bypass_reason.clone()
        },
        ..before.clone()
    }
}

/// What came of a run in this process. `written` is the number of tokens that the model counted
/// itself.
pub fn native_execution(
    p: &PreparedExecution,
    stage: &str,
    answer: String,
    model_path: &str,
    footprint_mb: u64,
    times: RunTimes,
    written: Option<usize>,
    cache: StrategyStageCachePerf,
) -> (r: StrategyModelExecution)
    ensures
        r.answer == answer,
        r.model_path@ == model_path@,
        r.runner@ == "libllama(native)"@,
        r.prompt_chars == p.prompt_chars,
        run_recorded(
            r.metrics,
            *p,
            stage@,
            "native"@,
            "libllama(native)"@,
            model_path@,
            footprint_mb,
        ),
        r.metrics.temperature_milli == 0,
        r.metrics.e2e_ms == at_least_one(times.e2e_ms),
        r.metrics.ttft_ms == Some(at_least_one(times.response_started_ms)),
        r.metrics.output_tokens == match written {
            Some(n) => n as nat,
            None => perf::output_tokens(answer@),
        },
        r.metrics.prompt_eval_ms == times.prompt_eval_ms,
        r.metrics.decode_ms == times.decode_ms,
        r.metrics.process_spawn_ms == 0,
        r.metrics.prompt_file_write_ms == 0,
        r.metrics.stdout_read_ms == times.response_started_ms,
        r.metrics.postprocess_ms == 0,
        r.metrics.cache == cache,
{
    let output_tokens: usize = match written {
        Some(n) => n,
        None => strategy_approx_output_tokens(&answer),
    };
    StrategyModelExecution {
        answer,
        model_path: model_path.to_owned(),
        runner: "libllama(native)".to_owned(),
        prompt_chars: p.prompt_chars,
        metrics: StrategyStagePerf {
            stage_name: stage.to_owned(),
            model_id: p.model_id.to_owned(),
            backend_kind: "native".to_owned(),
            runner_path: "libllama(native)".to_owned(),
            model_path: model_path.to_owned(),
            threads: p.runtime.threads,
            threads_batch: p.runtime.threads,
            n_ctx: p.runtime.n_ctx,
            max_tokens: p.max_tokens,
            temperature_milli: 0,
            top_p_milli: p.tuning.top_p_milli,
            repeat_penalty_milli: p.tuning.repeat_penalty_milli,
            e2e_ms: one_or_more(times.e2e_ms),
            ttft_ms: Some(one_or_more(times.response_started_ms)),
            prompt_tokens: p.prompt_tokens,
            output_tokens,
            prompt_eval_ms: times.prompt_eval_ms,
            decode_ms: times.decode_ms,
            peak_memory_mb: footprint_mb,
            process_spawn_ms: 0,
            prompt_file_write_ms: 0,
            stdout_read_ms: times.response_started_ms,
            postprocess_ms: 0,
            cache,
        },
    }
}

/// The digits of a fraction in thousandths, without zeros at the end.
pub open spec fn fraction_digits(n: nat) -> Seq<char> {
    if n % 10 != 0 {
        seq![strs::digit(n / 100), strs::digit(n / 10 % 10), strs::digit(n % 10)]
    } else if n / 10 % 10 != 0 {
        seq![strs::digit(n / 100), strs::digit(n / 10 % 10)]
    } else {
        seq![strs::digit(n / 100)]
    }
}

/// A number of thousandths as a decimal.
pub open spec fn thousandths(n: nat) -> Seq<char> {
    if n % 1000 == 0 {
        strs::decimal(n / 1000)
    } else {
        strs::decimal(n / 1000) + "."@ + fraction_digits(n % 1000)
    }
}

fn digit_char(d: u32) -> (r: char)
    requires
        d < 10,
    ensures
        r == strs::digit(d as nat),
{
    match d {
        0 => '0',
        1 => '1',
        2 => '2',
        3 => '3',
        4 => '4',
        5 => '5',
        6 => '6',
        7 => '7',
        8 => '8',
        _ => '9',
    }
}

/// A number of thousandths as a decimal.
pub fn thousandths_text(n: u32) -> (r: String)
    ensures
        r@ == thousandths(n as nat),
{
    let mut out = text::decimal((n / 1000) as u64);
    let rest: u32 = n % 1000;
    if rest == 0 {
        return out;
    }
    out.append(".");
    let ghost whole = out@;
    out.push(digit_char(rest / 100));
    let second: u32 = rest / 10 % 10;
    let third: u32 = rest % 10;
    if third != 0 {
        out.push(digit_char(second));
        out.push(digit_char(third));
    } else if second != 0 {
        out.push(digit_char(second));
    }
    assert(out@ =~= whole + fraction_digits(rest as nat));
    out
}

/// What a model that is started anew is started with.
pub open spec fn cli_args(
    p: PreparedExecution,
    model_path: Seq<char>,
    system_file: Seq<char>,
    user_file: Seq<char>,
) -> Seq<Seq<char>> {
    seq![
        "-m"@,
        model_path,
        "-c"@,
        strs::decimal(p.runtime.n_ctx as nat),
        "-n"@,
        strs::decimal(p.max_tokens as nat),
        "-t"@,
        strs::decimal(p.runtime.threads as nat),
        "--threads-batch"@,
        strs::decimal(p.runtime.threads as nat),
        "--temp"@,
        thousandths(p.tuning.temperature_milli as nat),
        "--top-p"@,
        thousandths(p.tuning.top_p_milli as nat),
        "--repeat-penalty"@,
        thousandths(p.tuning.repeat_penalty_milli as nat),
        "--parallel"@,
        "1"@,
        "--simple-io"@,
        "--no-display-prompt"@,
        "--no-show-timings"@,
        "--single-turn"@,
        "--no-warmup"@,
        "--device"@,
        p.runtime.device@,
        "--n-gpu-layers"@,
        strs::decimal(p.runtime.n_gpu_layers as nat),
        "--color"@,
        "off"@,
        "--log-colors"@,
        "off"@,
        "--system-prompt-file"@,
        system_file,
        "--file"@,
        user_file,
    ]
}

/// What a model that is started anew is started with.
pub fn cli_arguments(
    p: &PreparedExecution,
    model_path: &str,
    system_file: &str,
    user_file: &str,
) -> (r: Vec<String>)
    ensures
        strs::views(r@) == cli_args(*p, model_path@, system_file@, user_file@),
{
    let window = text::decimal(p.runtime.n_ctx as u64);
    let most = text::decimal(p.max_tokens as u64);
    let threads = text::decimal(p.runtime.threads as u64);
    let temperature = thousandths_text(p.tuning.temperature_milli);
    let top_p = thousandths_text(p.tuning.top_p_milli);
    let penalty = thousandths_text(p.tuning.repeat_penalty_milli);
    let layers = text::decimal(p.runtime.n_gpu_layers as u64);
    let r = text::owned(
        &[
            "-m",
            model_path,
            "-c",
            window.as_str(),
            "-n",
            most.as_str(),
            "-t",
            threads.as_str(),
            "--threads-batch",
            threads.as_str(),
            "--temp",
            temperature.as_str(),
            "--top-p",
            top_p.as_str(),
            "--repeat-penalty",
            penalty.as_str(),
            "--parallel",
            "1",
            "--simple-io",
            "--no-display-prompt",
            "--no-show-timings",
            "--single-turn",
            "--no-warmup",
            "--device",
            p.runtime.device,
            "--n-gpu-layers",
            layers.as_str(),
            "--color",
            "off",
            "--log-colors",
            "off",
            "--system-prompt-file",
            system_file,
            "--file",
            user_file,
        ],
    );
    assert(strs::views(r@) =~= cli_args(*p, model_path@, system_file@, user_file@));
    r
}

/// What is done while a model that was started anew runs.
#[derive(Debug, Clone)]
pub enum CliWait {
    /// Nothing.
    Wait,
    /// That it runs is reported.
    Report(String),
    /// It is stopped, which is reported.
    Stop(String),
}

/// What is done while a model that was started anew runs, after so many seconds. It is stopped
/// after ninety; that it runs is reported every five.
pub fn judge_cli_wait(label: &str, elapsed: u64, last_report: u64) -> (r: CliWait)
    ensures
        r is Stop == (elapsed >= STRATEGY_CHAT_TIMEOUT_SECS),
        r is Report == (elapsed < STRATEGY_CHAT_TIMEOUT_SECS && elapsed >= last_report + 5),
        r matches CliWait::Stop(line) ==> line@
            == (label@ + "가 "@ + strs::decimal(STRATEGY_CHAT_TIMEOUT_SECS as nat) + "초 동안 끝나지 않아 실행을 중단할게요."@),
        r matches CliWait::Report(line) ==> line@
            == (label@ + " 응답을 기다리는 중이에요. "@ + strs::decimal(elapsed as nat) + "초 경과했어요."@),
{
    if elapsed >= STRATEGY_CHAT_TIMEOUT_SECS {
        let mut line = text::copy(label);
        line.append("가 ");
        line.append(&text::decimal(STRATEGY_CHAT_TIMEOUT_SECS));
        line.append("초 동안 끝나지 않아 실행을 중단할게요.");
        return CliWait::Stop(line);
    }
    if last_report <= u64::MAX - 5 && elapsed >= last_report + 5 {
        let mut line = text::copy(label);
        line.append(" 응답을 기다리는 중이에요. ");
        line.append(&text::decimal(elapsed));
        line.append("초 경과했어요.");
        return CliWait::Report(line);
    }
    CliWait::Wait
}

/// Why a run of a model that was started anew counts as failed, if it does.
pub open spec fn cli_failure(
    label: Seq<char>,
    runner: Seq<char>,
    timed_out: bool,
    success: bool,
    answer: Seq<char>,
    stderr: Seq<char>,
) -> Option<Seq<char>> {
    if timed_out {
        Some(
            (label + " 응답이 "@ + strs::decimal(STRATEGY_CHAT_TIMEOUT_SECS as nat) + "초 안에 끝나지 않아 중단했어요. 마지막 로그: "@ + strs::first(strs::trim(stderr), 280)),
        )
    } else if !success && answer.len() == 0 {
        Some(
            (label + " 실행이 완료되지 않았어요. runner="@ + runner + " / stderr: "@ + strs::first(strs::trim(stderr), 600)),
        )
    } else if answer.len() == 0 {
        Some((label + "가 빈 응답을 반환했어요."@))
    } else {
        None
    }
}

/// The answer in what a model that was started anew printed, or why its run counts as failed.
pub open spec fn cli_answer(
    label: Seq<char>,
    runner: Seq<char>,
    timed_out: bool,
    success: bool,
    stdout: Seq<char>,
    stderr: Seq<char>,
    evidence_packet: StrategyEvidencePacket,
    user_prompt_raw: Seq<char>,
) -> Result<Seq<char>, Seq<char>> {
    let answer = cleanup::finished_answer(
        cleanup::cleaned_output(stdout),
        evidence_packet,
        user_prompt_raw,
    );
    match cli_failure(label, runner, timed_out, success, answer, stderr) {
        Some(e) => Err(e),
        None => Ok(answer),
    }
}

/// The answer of a model that was started anew, or why its run counts as failed. What it printed
/// comes as bytes; what is no UTF-8 in them is replaced.
pub fn read_cli_answer(
    label: &str,
    runner: &str,
    timed_out: bool,
    success: bool,
    stdout: &[u8],
    stderr: &str,
    evidence_packet: &StrategyEvidencePacket,
    user_prompt_raw: &str,
) -> (r: Result<String, String>)
    ensures
        text_result(r) == cli_answer(
            label@,
            runner@,
            timed_out,
            success,
            encoding::lossy_text(stdout@),
            stderr@,
            *evidence_packet,
            user_prompt_raw@,
        ),
{
    let printed = encoding::text_with_losses(stdout);
    read_cli_text(
        label,
        runner,
        timed_out,
        success,
        &printed,
        stderr,
        evidence_packet,
        user_prompt_raw,
    )
}

/// The answer in the text that a model that was started anew printed, or why its run counts as
/// failed.
pub fn read_cli_text(
    label: &str,
    runner: &str,
    timed_out: bool,
    success: bool,
    stdout: &str,
    stderr: &str,
    evidence_packet: &StrategyEvidencePacket,
    user_prompt_raw: &str,
) -> (r: Result<String, String>)
    ensures
        text_result(r) == cli_answer(
            label@,
            runner@,
            timed_out,
            success,
            stdout@,
            stderr@,
            *evidence_packet,
            user_prompt_raw@,
        ),
{
    let answer = finalize_strategy_answer(
        &cleanup_strategy_output(stdout),
        evidence_packet,
        user_prompt_raw,
    );
    if timed_out {
        let mut out = text::copy(label);
        out.append(" 응답이 ");
        out.append(&text::decimal(STRATEGY_CHAT_TIMEOUT_SECS));
        out.append("초 안에 끝나지 않아 중단했어요. 마지막 로그: ");
        out.append(&strategy_trim(&text::trim(stderr), 280));
        return Err(out);
    }
    let empty = answer.as_str().unicode_len() == 0;
    if !success && empty {
        let mut out = text::copy(label);
        out.append(" 실행이 완료되지 않았어요. runner=");
        out.append(runner);
        out.append(" / stderr: ");
        out.append(&strategy_trim(&text::trim(stderr), 600));
        return Err(out);
    }
    if empty {
        let mut out = text::copy(label);
        out.append("가 빈 응답을 반환했어요.");
        return Err(out);
    }
    Ok(answer)
}

/// What was measured of a model that was started anew.
#[derive(Debug, Clone, Copy)]
pub struct CliTimes {
    pub e2e_ms: u128,
    pub first_stdout_ms: u64,
    pub process_spawn_ms: u128,
    pub prompt_file_write_ms: u128,
    pub stdout_read_ms: u128,
    pub postprocess_ms: u128,
}

/// What came of a model that was started anew.
pub fn cli_execution(
    p: &PreparedExecution,
    stage: &str,
    answer: String,
    runner: &str,
    model_path: &str,
    footprint_mb: u64,
    times: CliTimes,
    cache: StrategyStageCachePerf,
) -> (r: StrategyModelExecution)
    ensures
        r.answer == answer,
        r.model_path@ == model_path@,
        r.runner@ == runner@,
        r.prompt_chars == p.prompt_chars,
        run_recorded(r.metrics, *p, stage@, "cli"@, runner@, model_path@, footprint_mb),
        r.metrics.temperature_milli == p.tuning.temperature_milli,
        r.metrics.e2e_ms == at_least_one(times.e2e_ms),
        r.metrics.ttft_ms == Some(at_least_one(times.first_stdout_ms as u128)),
        r.metrics.output_tokens == perf::output_tokens(answer@),
        r.metrics.prompt_eval_ms is None,
        r.metrics.decode_ms == Some(
            if times.e2e_ms < at_least_one(times.first_stdout_ms as u128) {
                0
            } else {
                (times.e2e_ms - at_least_one(times.first_stdout_ms as u128)) as u128
            },
        ),
        r.metrics.process_spawn_ms == times.process_spawn_ms,
        r.metrics.prompt_file_write_ms == times.prompt_file_write_ms,
        r.metrics.stdout_read_ms == times.stdout_read_ms,
        r.metrics.postprocess_ms == times.postprocess_ms,
        r.metrics.cache == (StrategyStageCachePerf {
            fallback_tokens: r.metrics.output_tokens,
            ..cache
        }),
{
    let output_tokens: usize = strategy_approx_output_tokens(&answer);
    let first: u128 = one_or_more(times.first_stdout_ms as u128);
    let decode: u128 = times.e2e_ms.saturating_sub(first);
    let own = StrategyStageCachePerf { fallback_tokens: output_tokens, ..cache };
    StrategyModelExecution {
        answer,
        model_path: model_path.to_owned(),
        runner: runner.to_owned(),
        prompt_chars: p.prompt_chars,
        metrics: StrategyStagePerf {
            stage_name: stage.to_owned(),
            model_id: p.model_id.to_owned(),
            backend_kind: "cli".to_owned(),
            runner_path: runner.to_owned(),
            model_path: model_path.to_owned(),
            threads: p.runtime.threads,
            threads_batch: p.runtime.threads,
            n_ctx: p.runtime.n_ctx,
            max_tokens: p.max_tokens,
            temperature_milli: p.tuning.temperature_milli,
            top_p_milli: p.tuning.top_p_milli,
            repeat_penalty_milli: p.tuning.repeat_penalty_milli,
            e2e_ms: one_or_more(times.e2e_ms),
            ttft_ms: Some(first),
            prompt_tokens: p.prompt_tokens,
            output_tokens,
            prompt_eval_ms: None,
            decode_ms: Some(decode),
            peak_memory_mb: footprint_mb,
            process_spawn_ms: times.process_spawn_ms,
            prompt_file_write_ms: times.prompt_file_write_ms,
            stdout_read_ms: times.stdout_read_ms,
            postprocess_ms: times.postprocess_ms,
            cache: own,
        },
    }
}

/// Asking for the cache changes nothing of what a model that is started anew for each prompt is
/// given: the prompts, what it is started with and the cache are the same, no draft is proposed,
/// and the run says that nothing came from the cache.
pub proof fn a_model_started_anew_runs_as_without_the_cache(
    with: PreparedExecution,
    without: PreparedExecution,
    before: Cache,
    after_with: Cache,
    after_without: Cache,
    runtime: StrategyBackendRuntime,
    model_id: Seq<char>,
    stage: HybridStage,
    system_raw: Seq<char>,
    user_raw: Seq<char>,
    n_ctx: u32,
    max_tokens: u32,
    threads: u32,
    model_path: Seq<char>,
    system_file: Seq<char>,
    user_file: Seq<char>,
    prefix_given: bool,
)
    requires
        runtime.capabilities.backend_kind is CliSidecar,
        prepared(
            with,
            before,
            after_with,
            runtime,
            model_id,
            stage,
            system_raw,
            user_raw,
            n_ctx,
            max_tokens,
            threads,
            true,
        ),
        prepared(
            without,
            before,
            after_without,
            runtime,
            model_id,
            stage,
            system_raw,
            user_raw,
            n_ctx,
            max_tokens,
            threads,
            false,
        ),
    ensures
        with.system_prompt@ == without.system_prompt@,
        with.user_prompt@ == without.user_prompt@,
        cli_args(with, model_path, system_file, user_file) == cli_args(
            without,
            model_path,
            system_file,
            user_file,
        ),
        after_with == after_without,
        after_with == before,
        !wants_draft(with, true, prefix_given),
        !with.plan@.cache_applied,
        with.plan@.cache_mode_applied == "Off"@,
        !with.cache.cache_applied,
        with.cache.cache_requested,
        with.cache.cache_mode_requested@ == "FullDRACE"@,
        with.cache.cache_mode_applied@ == "Off"@,
        with.plan@.bypass_reason == "unsupported_backend_cli"@,
        with.cache.bypass_reason@ == "unsupported_backend_cli"@,
{
    reveal_strlit("unsupported_backend_cli");
    text::lemma_trim_keeps("unsupported_backend_cli"@);
}

/// What is done for a stage next.
#[derive(Debug)]
pub enum StageStep {
    /// The model is run, with or without the cache.
    Run { cache: bool },
    /// Nothing more: there is an answer.
    Answered(StrategyModelExecution),
    /// Nothing more: there is none.
    Failed(String),
}

/// What is done after a run, which had the cache or not: a run with the cache that failed is made
/// once more without it, unless the beginning of the answer was fixed.
pub open spec fn step_after_run(
    cache: bool,
    prefix_given: bool,
    outcome: Result<StrategyModelExecution, String>,
) -> StageStep {
    match outcome {
        Ok(run) => StageStep::Answered(run),
        Err(error) => if cache && !prefix_given {
            StageStep::Run { cache: false }
        } else {
            StageStep::Failed(error)
        },
    }
}

/// What is done after a run, and what is reported where the model is run once more.
pub fn after_stage_run(
    cache: bool,
    prefix_given: bool,
    outcome: Result<StrategyModelExecution, String>,
) -> (r: (StageStep, Option<String>))
    ensures
        r.0 == step_after_run(cache, prefix_given, outcome),
        strs::opt_view(r.1) == match outcome {
            Err(error) => if cache && !prefix_given {
                Some(
                    ("DRaCE 캐시 경로가 잠시 흔들려 캐싱 없이 한 번 더 시도할게요. "@ + strs::first(error@, 220)),
                )
            } else {
                None
            },
            Ok(_) => None,
        },
{
    match outcome {
        Ok(run) => (StageStep::Answered(run), None),
        Err(error) => {
            if cache && !prefix_given {
                let mut line = text::copy("DRaCE 캐시 경로가 잠시 흔들려 캐싱 없이 한 번 더 시도할게요. ");
                line.append(&strategy_trim(&error, 220));
                (StageStep::Run { cache: false }, Some(line))
            } else {
                (StageStep::Failed(error), None)
            }
        },
    }
}

/// What is done for a stage after the runs that were made for it; `cache` is whether the first was
/// to have the cache.
pub open spec fn stage_after(
    cache: bool,
    prefix_given: bool,
    outcomes: Seq<Result<StrategyModelExecution, String>>,
) -> StageStep
    decreases outcomes.len(),
{
    if outcomes.len() == 0 {
        StageStep::Run { cache }
    } else {
        match stage_after(cache, prefix_given, outcomes.drop_last()) {
            StageStep::Run { cache: with } => step_after_run(with, prefix_given, outcomes.last()),
            done => done,
        }
    }
}

/// Each run was made where one was to be made.
pub open spec fn runs_in_turn(
    cache: bool,
    prefix_given: bool,
    outcomes: Seq<Result<StrategyModelExecution, String>>,
) -> bool {
    forall|k: int|
        0 <= k < outcomes.len() ==> (#[trigger] stage_after(
            cache,
            prefix_given,
            outcomes.take(k),
        )) is Run
}

/// A model is run once for a stage, or twice, and never more often. Its first run is the answer
/// where it succeeds. Where it fails with the cache, and the beginning of the answer was not
/// fixed, one run without the cache follows, and what comes of that is what comes of the stage;
/// else the error of the first run is.
pub proof fn a_failed_cached_run_is_made_once_more(
    cache: bool,
    prefix_given: bool,
    outcomes: Seq<Result<StrategyModelExecution, String>>,
)
    requires
        runs_in_turn(cache, prefix_given, outcomes),
    ensures
        outcomes.len() <= 2,
        outcomes.len() == 0 ==> stage_after(cache, prefix_given, outcomes) == (StageStep::Run {
            cache,
        }),
        outcomes.len() == 1 ==> stage_after(cache, prefix_given, outcomes) == match outcomes[0] {
            Ok(run) => StageStep::Answered(run),
            Err(error) => if cache && !prefix_given {
                StageStep::Run { cache: false }
            } else {
                StageStep::Failed(error)
            },
        },
        outcomes.len() == 2 ==> {
            &&& outcomes[0] is Err && cache && !prefix_given
            &&& stage_after(cache, prefix_given, outcomes) == match outcomes[1] {
                Ok(run) => StageStep::Answered(run),
                Err(error) => StageStep::Failed(error),
            }
        },
{
    reveal_with_fuel(stage_after, 4);
    if outcomes.len() >= 1 {
        assert(outcomes.take(1).drop_last() =~= outcomes.take(0));
        assert(outcomes.take(1).last() == outcomes[0]);
        if outcomes.len() == 1 {
            assert(outcomes.take(1) =~= outcomes);
        }
    }
    if outcomes.len() >= 2 {
        assert(stage_after(cache, prefix_given, outcomes.take(1)) is Run);
        assert(outcomes.take(2).drop_last() =~= outcomes.take(1));
        assert(outcomes.take(2).last() == outcomes[1]);
        if outcomes.len() == 2 {
            assert(outcomes.take(2) =~= outcomes);
        } else {
            assert(stage_after(cache, prefix_given, outcomes.take(2)) is Run);
        }
    }
}

} // verus!
