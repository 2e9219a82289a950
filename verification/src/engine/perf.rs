//! What a run cost: the counts and times of its stages, and what the cache did for them.

use crate::drace::cache_manager::{BackendCapabilities, BackendKind, Plan, StageCachePlan};
use crate::strs;
use crate::text;
use vstd::prelude::*;

verus! {

/// One number over another; nothing where the second is zero.
#[derive(Debug, Clone, Copy, PartialEq, Eq, Structural)]
pub struct Ratio {
    pub part: u128,
    pub whole: u128,
}

/// One number over another.
pub open spec fn ratio(part: int, whole: int) -> Ratio {
    Ratio { part: part as u128, whole: whole as u128 }
}

/// One number over another.
pub fn ratio_of(part: usize, whole: usize) -> (r: Ratio)
    ensures
        r == ratio(part as int, whole as int),
{
    Ratio { part: part as u128, whole: whole as u128 }
}

/// The share of the tokens of an answer that no model had to write.
pub fn reduction_of(inserted: usize, generated: usize) -> (r: Ratio)
    ensures
        r == ratio(inserted as int, inserted + generated),
{
    Ratio { part: inserted as u128, whole: inserted as u128 + generated as u128 }
}

/// What the cache did for a stage.
#[derive(Debug)]
pub struct StrategyStageCachePerf {
    pub cache_requested: bool,
    pub cache_loaded: bool,
    pub cache_enabled: bool,
    pub cache_supported: bool,
    pub cache_warm: bool,
    pub cache_applied: bool,
    pub synthetic_cache_requested: bool,
    pub synthetic_cache_supported: bool,
    pub synthetic_cache_applied: bool,
    pub cache_mode_requested: String,
    pub cache_mode_applied: String,
    pub bypass_reason: String,
    pub draft_provider: String,
    pub prompt_token_cache_supported: bool,
    pub prompt_token_cache_loaded: bool,
    pub prompt_token_cache_applied: bool,
    pub prefix_kv_supported: bool,
    pub prefix_kv_applied: bool,
    pub prefix_reused_tokens: usize,
    pub prefix_total_tokens: usize,
    pub kv_load_ms: u128,
    pub kv_save_ms: u128,
    pub token_cache_supported: bool,
    pub token_cache_loaded: bool,
    pub token_cache_applied: bool,
    pub token_verification_supported: bool,
    pub token_cache_lookup_ms: u128,
    pub proposed_tokens: usize,
    pub accepted_tokens: usize,
    pub rejected_tokens: usize,
    pub verify_batches: usize,
    pub rejected_batches: usize,
    pub fallback_tokens: usize,
    pub fallback_decode_tokens: usize,
    pub renderer_inserted_tokens: usize,
    pub llm_generated_tokens: usize,
    pub prefix_reuse_ratio: Ratio,
    pub acceptance_ratio: Ratio,
    pub avg_proposed_batch_size: Ratio,
    pub avg_accepted_batch_size: Ratio,
    pub accepted_tokens_per_verify: Ratio,
    pub output_token_reduction_ratio: Ratio,
}

impl Clone for StrategyStageCachePerf {
    fn clone(&self) -> (r: Self)
        ensures
            r == *self,
    {
        StrategyStageCachePerf {
            cache_requested: self.cache_requested,
            cache_loaded: self.cache_loaded,
            cache_enabled: self.cache_enabled,
            cache_supported: self.cache_supported,
            cache_warm: self.cache_warm,
            cache_applied: self.cache_applied,
            synthetic_cache_requested: self.synthetic_cache_requested,
            synthetic_cache_supported: self.synthetic_cache_supported,
            synthetic_cache_applied: self.synthetic_cache_applied,
            cache_mode_requested: self.cache_mode_requested.clone(),
            cache_mode_applied: self.cache_mode_applied.clone(),
            bypass_reason: self.bypass_reason.clone(),
            draft_provider: self.draft_provider.clone(),
            prompt_token_cache_supported: self.prompt_token_cache_supported,
            prompt_token_cache_loaded: self.prompt_token_cache_loaded,
            prompt_token_cache_applied: self.prompt_token_cache_applied,
            prefix_kv_supported: self.prefix_kv_supported,
            prefix_kv_applied: self.prefix_kv_applied,
            prefix_reused_tokens: self.prefix_reused_tokens,
            prefix_total_tokens: self.prefix_total_tokens,
            kv_load_ms: self.kv_load_ms,
            kv_save_ms: self.kv_save_ms,
            token_cache_supported: self.token_cache_supported,
            token_cache_loaded: self.token_cache_loaded,
            token_cache_applied: self.token_cache_applied,
            token_verification_supported: self.token_verification_supported,
            token_cache_lookup_ms: self.token_cache_lookup_ms,
            proposed_tokens: self.proposed_tokens,
            accepted_tokens: self.accepted_tokens,
            rejected_tokens: self.rejected_tokens,
            verify_batches: self.verify_batches,
            rejected_batches: self.rejected_batches,
            fallback_tokens: self.fallback_tokens,
            fallback_decode_tokens: self.fallback_decode_tokens,
            renderer_inserted_tokens: self.renderer_inserted_tokens,
            llm_generated_tokens: self.llm_generated_tokens,
            prefix_reuse_ratio: self.prefix_reuse_ratio,
            acceptance_ratio: self.acceptance_ratio,
            avg_proposed_batch_size: self.avg_proposed_batch_size,
            avg_accepted_batch_size: self.avg_accepted_batch_size,
            accepted_tokens_per_verify: self.accepted_tokens_per_verify,
            output_token_reduction_ratio: self.output_token_reduction_ratio,
        }
    }
}

/// What a stage cost.
#[derive(Debug)]
pub struct StrategyStagePerf {
    pub stage_name: String,
    pub model_id: String,
    pub backend_kind: String,
    pub runner_path: String,
    pub model_path: String,
    pub threads: u32,
    pub threads_batch: u32,
    pub n_ctx: u32,
    pub max_tokens: u32,
    pub temperature_milli: u32,
    pub top_p_milli: u32,
    pub repeat_penalty_milli: u32,
    pub e2e_ms: u128,
    pub ttft_ms: Option<u128>,
    pub prompt_tokens: usize,
    pub output_tokens: usize,
    pub prompt_eval_ms: Option<u128>,
    pub decode_ms: Option<u128>,
    pub peak_memory_mb: u64,
    pub process_spawn_ms: u128,
    pub prompt_file_write_ms: u128,
    pub stdout_read_ms: u128,
    pub postprocess_ms: u128,
    pub cache: StrategyStageCachePerf,
}

impl Clone for StrategyStagePerf {
    fn clone(&self) -> (r: Self)
        ensures
            r == *self,
    {
        StrategyStagePerf {
            stage_name: self.stage_name.clone(),
            model_id: self.model_id.clone(),
            backend_kind: self.backend_kind.clone(),
            runner_path: self.runner_path.clone(),
            model_path: self.model_path.clone(),
            threads: self.threads,
            threads_batch: self.threads_batch,
            n_ctx: self.n_ctx,
            max_tokens: self.max_tokens,
            temperature_milli: self.temperature_milli,
            top_p_milli: self.top_p_milli,
            repeat_penalty_milli: self.repeat_penalty_milli,
            e2e_ms: self.e2e_ms,
            ttft_ms: self.ttft_ms,
            prompt_tokens: self.prompt_tokens,
            output_tokens: self.output_tokens,
            prompt_eval_ms: self.prompt_eval_ms,
            decode_ms: self.decode_ms,
            peak_memory_mb: self.peak_memory_mb,
            process_spawn_ms: self.process_spawn_ms,
            prompt_file_write_ms: self.prompt_file_write_ms,
            stdout_read_ms: self.stdout_read_ms,
            postprocess_ms: self.postprocess_ms,
            cache: self.cache.clone(),
        }
    }
}

/// What the cache did for a run.
#[derive(Debug)]
pub struct StrategyCacheSummary {
    pub backend_type: String,
    pub cache_requested: bool,
    pub cache_loaded: bool,
    pub cache_applied: bool,
    pub cache_supported: bool,
    pub cache_warm: bool,
    pub synthetic_cache_requested: bool,
    pub synthetic_cache_supported: bool,
    pub synthetic_cache_applied: bool,
    pub cache_mode_requested: String,
    pub cache_mode_applied: String,
    pub bypass_reason: String,
    pub draft_provider: String,
    pub prompt_token_cache_supported: bool,
    pub prompt_token_cache_loaded: bool,
    pub prompt_token_cache_applied: bool,
    pub prefix_kv_supported: bool,
    pub prefix_kv_applied: bool,
    pub prefix_reused_tokens: usize,
    pub prefix_total_tokens: usize,
    pub token_cache_supported: bool,
    pub token_cache_loaded: bool,
    pub token_cache_applied: bool,
    pub token_verification_supported: bool,
    pub proposed_tokens: usize,
    pub accepted_tokens: usize,
    pub rejected_tokens: usize,
    pub verify_batches: usize,
    pub rejected_batches: usize,
    pub fallback_tokens: usize,
    pub fallback_decode_tokens: usize,
    pub renderer_inserted_tokens: usize,
    pub llm_generated_tokens: usize,
    pub prefix_reuse_ratio: Ratio,
    pub acceptance_ratio: Ratio,
    pub avg_proposed_batch_size: Ratio,
    pub avg_accepted_batch_size: Ratio,
    pub accepted_tokens_per_verify: Ratio,
    pub output_token_reduction_ratio: Ratio,
}

/// What a run cost.
#[derive(Debug)]
pub struct StrategyPerfMetrics {
    pub mode: String,
    pub run_id: String,
    pub prompt_hash: String,
    pub case_hash: String,
    pub records_hash: String,
    pub model_config_hash: String,
    pub backend_kind: String,
    pub cache_requested: bool,
    pub cache_loaded: bool,
    pub cache_applied: bool,
    pub requested_mode: String,
    pub applied_mode: String,
    pub bypass_reason: String,
    pub total_e2e_ms: u128,
    pub ttft_ms: u128,
    pub total_prompt_tokens: usize,
    pub total_output_tokens: usize,
    pub total_decode_ms: u128,
    pub full_drace_applied_stages: Vec<String>,
    pub peak_memory_mb: u64,
    pub stage_execution_sum_ms: u128,
    pub orchestration_overhead_ms: u128,
    pub prompt_build_ms: u128,
    pub cache_lookup_ms: u128,
    pub process_spawn_ms: u128,
    pub stdout_read_ms: u128,
    pub postprocess_ms: u128,
    pub cache_summary: StrategyCacheSummary,
}

/// The sum over a list.
pub open spec fn total<A>(list: Seq<A>, f: spec_fn(A) -> nat) -> nat
    decreases list.len(),
{
    if list.len() == 0 {
        0
    } else {
        total(list.drop_last(), f) + f(list.last())
    }
}

/// A number, or the largest that fits.
pub open spec fn capped(n: nat) -> nat {
    if n > usize::MAX {
        usize::MAX as nat
    } else {
        n
    }
}

/// Something holds of an item of a list.
#[verifier::opaque]
pub open spec fn any<A>(list: Seq<A>, p: spec_fn(A) -> bool) -> bool {
    exists|i: int| 0 <= i < list.len() && p(#[trigger] list[i])
}

proof fn lemma_any_push<A>(list: Seq<A>, x: A, p: spec_fn(A) -> bool)
    ensures
        any(list.push(x), p) == (any(list, p) || p(x)),
{
    reveal(any);
    let all = list.push(x);
    if any(list, p) {
        let i = choose|i: int| 0 <= i < list.len() && p(#[trigger] list[i]);
        assert(all[i] == list[i]);
        assert(p(all[i]));
    }
    if p(x) {
        assert(all[list.len() as int] == x);
        assert(p(all[list.len() as int]));
    }
    if any(all, p) && !p(x) {
        let i = choose|i: int| 0 <= i < all.len() && p(#[trigger] all[i]);
        assert(all[i] == list[i]);
        assert(p(list[i]));
    }
}

/// A number of tokens for a text: a quarter of its characters, or its words, and at least one.
pub open spec fn output_tokens(s: Seq<char>) -> nat {
    let quarter = s.len() / 4;
    let words = strs::words(s).len();
    if quarter >= words && quarter >= 1 {
        quarter
    } else if words >= 1 {
        words
    } else {
        1
    }
}

/// A rough count of the tokens of an answer.
pub fn strategy_approx_output_tokens(s: &str) -> (r: usize)
    ensures
        r == output_tokens(s@),
{
    let quarter: usize = s.unicode_len() / 4;
    let list = text::words(s);
    assert(strs::views(list@).len() == list@.len());
    let words: usize = list.len();
    if quarter >= words && quarter >= 1 {
        quarter
    } else if words >= 1 {
        words
    } else {
        1
    }
}

/// The size of a model in mebibytes, rounded up.
pub fn strategy_estimate_model_footprint_mb(bytes: u64) -> (r: u64)
    ensures
        r == (bytes + 1048575) / 1048576,
{
    let whole: u64 = bytes / 1048576;
    if bytes % 1048576 == 0 {
        whole
    } else {
        whole + 1
    }
}

/// The name of a backend.
pub open spec fn backend_label(kind: BackendKind) -> Seq<char> {
    match kind {
        BackendKind::CliSidecar => "cli"@,
        BackendKind::LlamaServer => "llama-server"@,
        BackendKind::Native => "native"@,
    }
}

/// The name of a backend.
pub fn strategy_backend_type_label(kind: BackendKind) -> (r: &'static str)
    ensures
        r@ == backend_label(kind),
{
    match kind {
        BackendKind::CliSidecar => "cli",
        BackendKind::LlamaServer => "llama-server",
        BackendKind::Native => "native",
    }
}

/// Why nothing comes from a cache where the plan does not say.
pub open spec fn bypass_default(requested: bool) -> Seq<char> {
    if requested {
        "CLI backend does not support persistent Prefix KV Cache, and Synthetic Token Cache verification is unavailable"@
    } else {
        "cache disabled"@
    }
}

/// Why nothing comes from a cache where the plan does not say.
pub fn strategy_cache_bypass_reason(cache_requested: bool) -> (r: String)
    ensures
        r@ == bypass_default(cache_requested),
{
    if cache_requested {
        "CLI backend does not support persistent Prefix KV Cache, and Synthetic Token Cache verification is unavailable".to_owned()
    } else {
        "cache disabled".to_owned()
    }
}

/// The backend keeps proposed tokens and has its model verify them; what is not verified does not
/// count as supported.
pub open spec fn verified_tokens(caps: BackendCapabilities) -> bool {
    caps.supports_synthetic_token_cache && caps.supports_token_verification
}

/// What the plan of a stage lets expect of the cache.
pub open spec fn perf_of_plan(
    caps: BackendCapabilities,
    plan: Plan,
    prompt_tokens: nat,
    output: nat,
    perf: StrategyStageCachePerf,
) -> bool {
    &&& perf.cache_requested == plan.cache_requested
    &&& perf.cache_loaded == plan.cache_loaded
    &&& perf.cache_enabled == plan.cache_requested
    &&& perf.cache_supported == (caps.supports_prefix_kv_cache || verified_tokens(caps)
        || caps.supports_prompt_token_cache)
    &&& !perf.cache_warm
    &&& perf.cache_applied == plan.cache_applied
    &&& perf.synthetic_cache_requested == plan.synthetic_cache_requested
    &&& perf.synthetic_cache_supported == plan.synthetic_cache_supported
    &&& perf.synthetic_cache_applied == plan.synthetic_cache_applied
    &&& perf.cache_mode_requested@ == plan.cache_mode_requested
    &&& perf.cache_mode_applied@ == plan.cache_mode_applied
    &&& perf.bypass_reason@ == if strs::trim(plan.bypass_reason).len() == 0 {
        bypass_default(plan.cache_requested)
    } else {
        plan.bypass_reason
    }
    &&& perf.draft_provider@ == plan.draft_provider
    &&& perf.prompt_token_cache_supported == caps.supports_prompt_token_cache
    &&& perf.prompt_token_cache_loaded == (plan.cache_loaded && caps.supports_prompt_token_cache)
    &&& perf.prompt_token_cache_applied == plan.use_prompt_token_cache
    &&& perf.prefix_kv_supported == caps.supports_prefix_kv_cache
    &&& perf.prefix_kv_applied == plan.use_prefix_kv_cache
    &&& perf.prefix_reused_tokens == 0
    &&& perf.prefix_total_tokens == if plan.cache_requested && caps.supports_prefix_kv_cache {
        prompt_tokens
    } else {
        0
    }
    &&& perf.kv_load_ms == 0
    &&& perf.kv_save_ms == 0
    &&& perf.token_cache_supported == verified_tokens(caps)
    &&& perf.token_cache_loaded == (plan.cache_loaded && verified_tokens(caps))
    &&& perf.token_cache_applied == plan.use_synthetic_token_cache
    &&& perf.token_verification_supported == caps.supports_token_verification
    &&& perf.token_cache_lookup_ms == plan.token_cache_lookup_ms
    &&& perf.proposed_tokens == 0
    &&& perf.accepted_tokens == 0
    &&& perf.rejected_tokens == 0
    &&& perf.verify_batches == 0
    &&& perf.rejected_batches == 0
    &&& perf.fallback_tokens == if plan.cache_requested {
        output
    } else {
        0
    }
    &&& perf.fallback_decode_tokens == if plan.cache_requested {
        output
    } else {
        0
    }
    &&& perf.renderer_inserted_tokens == 0
    &&& perf.llm_generated_tokens == output
    &&& perf.prefix_reuse_ratio == ratio(0, 0)
    &&& perf.acceptance_ratio == ratio(0, 0)
    &&& perf.avg_proposed_batch_size == ratio(0, 0)
    &&& perf.avg_accepted_batch_size == ratio(0, 0)
    &&& perf.accepted_tokens_per_verify == ratio(0, 0)
    &&& perf.output_token_reduction_ratio == ratio(0, 0)
}

/// What the plan of a stage lets expect of the cache, before anything is measured.
pub fn build_strategy_stage_cache_perf(
    capabilities: &BackendCapabilities,
    plan: &StageCachePlan,
    prompt_tokens: usize,
    output_tokens: usize,
) -> (r: StrategyStageCachePerf)
    ensures
        perf_of_plan(*capabilities, plan@, prompt_tokens as nat, output_tokens as nat, r),
{
    let prefix_kv = capabilities.supports_prefix_kv_cache;
    let prompt_cache = capabilities.supports_prompt_token_cache;
    let token_cache = capabilities.supports_synthetic_token_cache
        && capabilities.supports_token_verification;
    StrategyStageCachePerf {
        cache_requested: plan.cache_requested,
        cache_loaded: plan.cache_loaded,
        cache_enabled: plan.cache_requested,
        cache_supported: prefix_kv || token_cache || prompt_cache,
        cache_warm: false,
        cache_applied: plan.cache_applied,
        synthetic_cache_requested: plan.synthetic_cache_requested,
        synthetic_cache_supported: plan.synthetic_cache_supported,
        synthetic_cache_applied: plan.synthetic_cache_applied,
        cache_mode_requested: plan.cache_mode_requested.clone(),
        cache_mode_applied: plan.cache_mode_applied.clone(),
        bypass_reason: if text::is_blank(&plan.bypass_reason) {
            strategy_cache_bypass_reason(plan.cache_requested)
        } else {
            plan.bypass_reason.clone()
        },
        draft_provider: plan.draft_provider.clone(),
        prompt_token_cache_supported: prompt_cache,
        prompt_token_cache_loaded: plan.cache_loaded && prompt_cache,
        prompt_token_cache_applied: plan.use_prompt_token_cache,
        prefix_kv_supported: prefix_kv,
        prefix_kv_applied: plan.use_prefix_kv_cache,
        prefix_reused_tokens: 0,
        prefix_total_tokens: if plan.cache_requested && prefix_kv {
            prompt_tokens
        } else {
            0
        },
        kv_load_ms: 0,
        kv_save_ms: 0,
        token_cache_supported: token_cache,
        token_cache_loaded: plan.cache_loaded && token_cache,
        token_cache_applied: plan.use_synthetic_token_cache,
        token_verification_supported: capabilities.supports_token_verification,
        token_cache_lookup_ms: plan.token_cache_lookup_ms,
        proposed_tokens: 0,
        accepted_tokens: 0,
        rejected_tokens: 0,
        verify_batches: 0,
        rejected_batches: 0,
        fallback_tokens: if plan.cache_requested {
            output_tokens
        } else {
            0
        },
        fallback_decode_tokens: if plan.cache_requested {
            output_tokens
        } else {
            0
        },
        renderer_inserted_tokens: 0,
        llm_generated_tokens: output_tokens,
        prefix_reuse_ratio: ratio_of(0, 0),
        acceptance_ratio: ratio_of(0, 0),
        avg_proposed_batch_size: ratio_of(0, 0),
        avg_accepted_batch_size: ratio_of(0, 0),
        accepted_tokens_per_verify: ratio_of(0, 0),
        output_token_reduction_ratio: ratio_of(0, 0),
    }
}

/// The plan of a stage that gets nothing from the cache, for a reason.
pub open spec fn bypass_plan(requested: bool, reason: Seq<char>) -> Plan {
    Plan {
        cache_requested: requested,
        cache_loaded: false,
        cache_applied: false,
        synthetic_cache_requested: requested,
        synthetic_cache_supported: false,
        synthetic_cache_applied: false,
        cache_mode_requested: if requested {
            "FullDRACE"@
        } else {
            "Off"@
        },
        cache_mode_applied: "Off"@,
        use_prompt_token_cache: false,
        use_prefix_kv_cache: false,
        use_template_renderer: false,
        use_synthetic_token_cache: false,
        max_candidate_tokens: 0,
        token_cache_lookup_ms: 0,
        draft_provider: "noop"@,
        bypass_reason: reason,
    }
}

/// The plan of a stage that gets nothing from the cache, for a reason.
pub fn strategy_cli_bypass_plan_with_reason(cache_requested: bool, bypass_reason: String) -> (r:
    StageCachePlan)
    ensures
        r@ == bypass_plan(cache_requested, bypass_reason@),
{
    StageCachePlan {
        cache_requested,
        cache_loaded: false,
        cache_applied: false,
        synthetic_cache_requested: cache_requested,
        synthetic_cache_supported: false,
        synthetic_cache_applied: false,
        cache_mode_requested: if cache_requested {
            "FullDRACE".to_owned()
        } else {
            "Off".to_owned()
        },
        cache_mode_applied: "Off".to_owned(),
        use_prompt_token_cache: false,
        use_prefix_kv_cache: false,
        use_template_renderer: false,
        use_synthetic_token_cache: false,
        max_candidate_tokens: 0,
        token_cache_lookup_ms: 0,
        draft_provider: "noop".to_owned(),
        bypass_reason,
    }
}

/// The plan of a stage of a model that is started anew for each prompt.
pub fn strategy_cli_bypass_plan(cache_requested: bool) -> (r: StageCachePlan)
    ensures
        r@ == bypass_plan(
            cache_requested,
            if cache_requested {
                "unsupported_backend_cli"@
            } else {
                "cache disabled"@
            },
        ),
{
    strategy_cli_bypass_plan_with_reason(
        cache_requested,
        if cache_requested {
            "unsupported_backend_cli".to_owned()
        } else {
            "cache disabled".to_owned()
        },
    )
}

/// The first mode other than off of the stages that asked for the cache, after `start`.
pub open spec fn mode_requested(stages: Seq<StrategyStagePerf>, start: Seq<char>) -> Seq<char>
    decreases stages.len(),
{
    if stages.len() == 0 {
        start
    } else {
        let mode = mode_requested(stages.drop_last(), start);
        if stages.last().cache.cache_requested && mode == "Off"@ {
            stages.last().cache.cache_mode_requested@
        } else {
            mode
        }
    }
}

/// The first mode other than off of the stages that got something from the cache.
pub open spec fn mode_applied(stages: Seq<StrategyStagePerf>) -> Seq<char>
    decreases stages.len(),
{
    if stages.len() == 0 {
        "Off"@
    } else {
        let mode = mode_applied(stages.drop_last());
        if stages.last().cache.cache_applied && mode == "Off"@ {
            stages.last().cache.cache_mode_applied@
        } else {
            mode
        }
    }
}

/// The first provider of the stages that proposed anything; empty where none did.
pub open spec fn provider_of(stages: Seq<StrategyStagePerf>) -> Seq<char>
    decreases stages.len(),
{
    if stages.len() == 0 {
        Seq::empty()
    } else {
        let found = provider_of(stages.drop_last());
        let own = stages.last().cache.draft_provider@;
        if found.len() == 0 && strs::trim(own).len() > 0 && own != "noop"@ {
            own
        } else {
            found
        }
    }
}

/// The backend of a list of stages: `start`, or else the first that is named.
pub open spec fn backend_from(stages: Seq<StrategyStagePerf>, start: Seq<char>) -> Seq<char>
    decreases stages.len(),
{
    if stages.len() == 0 {
        start
    } else {
        let found = backend_from(stages.drop_last(), start);
        if found.len() == 0 {
            stages.last().backend_kind@
        } else {
            found
        }
    }
}

/// The backend of a run: that of its last stage, else the first that is named; `usual` where
/// there is no stage.
pub open spec fn backend_of(stages: Seq<StrategyStagePerf>, usual: Seq<char>) -> Seq<char> {
    if stages.len() == 0 {
        usual
    } else {
        backend_from(stages, stages.last().backend_kind@)
    }
}

/// Why stages got nothing from the cache, each reason once, in the order of the stages.
pub open spec fn bypass_reasons(stages: Seq<StrategyStagePerf>) -> Seq<Seq<char>>
    decreases stages.len(),
{
    if stages.len() == 0 {
        Seq::empty()
    } else {
        let head = bypass_reasons(stages.drop_last());
        let own = stages.last().cache.bypass_reason@;
        if strs::trim(own).len() > 0 {
            strs::with_new(head, own)
        } else {
            head
        }
    }
}

/// The counts of a run, summed up.
struct TokenSums {
    prefix_reused_tokens: usize,
    prefix_total_tokens: usize,
    proposed_tokens: usize,
    accepted_tokens: usize,
    rejected_tokens: usize,
    verify_batches: usize,
    rejected_batches: usize,
    fallback_tokens: usize,
    fallback_decode_tokens: usize,
    renderer_inserted_tokens: usize,
    llm_generated_tokens: usize,
}

fn sum_tokens(stages: &[StrategyStagePerf]) -> (r: TokenSums)
    ensures
        r.prefix_reused_tokens == capped(total(stages@, |s: StrategyStagePerf| s.cache.prefix_reused_tokens as nat)),
        r.prefix_total_tokens == capped(total(stages@, |s: StrategyStagePerf| s.cache.prefix_total_tokens as nat)),
        r.proposed_tokens == capped(total(stages@, |s: StrategyStagePerf| s.cache.proposed_tokens as nat)),
        r.accepted_tokens == capped(total(stages@, |s: StrategyStagePerf| s.cache.accepted_tokens as nat)),
        r.rejected_tokens == capped(total(stages@, |s: StrategyStagePerf| s.cache.rejected_tokens as nat)),
        r.verify_batches == capped(total(stages@, |s: StrategyStagePerf| s.cache.verify_batches as nat)),
        r.rejected_batches == capped(total(stages@, |s: StrategyStagePerf| s.cache.rejected_batches as nat)),
        r.fallback_tokens == capped(total(stages@, |s: StrategyStagePerf| s.cache.fallback_tokens as nat)),
        r.fallback_decode_tokens == capped(total(stages@, |s: StrategyStagePerf| s.cache.fallback_decode_tokens as nat)),
        r.renderer_inserted_tokens == capped(total(stages@, |s: StrategyStagePerf| s.cache.renderer_inserted_tokens as nat)),
        r.llm_generated_tokens == capped(total(stages@, |s: StrategyStagePerf| s.cache.llm_generated_tokens as nat)),
{
    let ghost f_prefix_reused_tokens = |s: StrategyStagePerf| s.cache.prefix_reused_tokens as nat;
    let ghost f_prefix_total_tokens = |s: StrategyStagePerf| s.cache.prefix_total_tokens as nat;
    let ghost f_proposed_tokens = |s: StrategyStagePerf| s.cache.proposed_tokens as nat;
    let ghost f_accepted_tokens = |s: StrategyStagePerf| s.cache.accepted_tokens as nat;
    let ghost f_rejected_tokens = |s: StrategyStagePerf| s.cache.rejected_tokens as nat;
    let ghost f_verify_batches = |s: StrategyStagePerf| s.cache.verify_batches as nat;
    let ghost f_rejected_batches = |s: StrategyStagePerf| s.cache.rejected_batches as nat;
    let ghost f_fallback_tokens = |s: StrategyStagePerf| s.cache.fallback_tokens as nat;
    let ghost f_fallback_decode_tokens = |s: StrategyStagePerf| s.cache.fallback_decode_tokens as nat;
    let ghost f_renderer_inserted_tokens = |s: StrategyStagePerf| s.cache.renderer_inserted_tokens as nat;
    let ghost f_llm_generated_tokens = |s: StrategyStagePerf| s.cache.llm_generated_tokens as nat;
    let mut prefix_reused_tokens: usize = 0;
    let mut prefix_total_tokens: usize = 0;
    let mut proposed_tokens: usize = 0;
    let mut accepted_tokens: usize = 0;
    let mut rejected_tokens: usize = 0;
    let mut verify_batches: usize = 0;
    let mut rejected_batches: usize = 0;
    let mut fallback_tokens: usize = 0;
    let mut fallback_decode_tokens: usize = 0;
    let mut renderer_inserted_tokens: usize = 0;
    let mut llm_generated_tokens: usize = 0;
    let mut i: usize = 0;
    assert(stages@.take(0) =~= Seq::empty());
    while i < stages.len()
        invariant
            i <= stages@.len(),
            f_prefix_reused_tokens == (|s: StrategyStagePerf| s.cache.prefix_reused_tokens as nat),
            prefix_reused_tokens == capped(total(stages@.take(i as int), f_prefix_reused_tokens)),
            f_prefix_total_tokens == (|s: StrategyStagePerf| s.cache.prefix_total_tokens as nat),
            prefix_total_tokens == capped(total(stages@.take(i as int), f_prefix_total_tokens)),
            f_proposed_tokens == (|s: StrategyStagePerf| s.cache.proposed_tokens as nat),
            proposed_tokens == capped(total(stages@.take(i as int), f_proposed_tokens)),
            f_accepted_tokens == (|s: StrategyStagePerf| s.cache.accepted_tokens as nat),
            accepted_tokens == capped(total(stages@.take(i as int), f_accepted_tokens)),
            f_rejected_tokens == (|s: StrategyStagePerf| s.cache.rejected_tokens as nat),
            rejected_tokens == capped(total(stages@.take(i as int), f_rejected_tokens)),
            f_verify_batches == (|s: StrategyStagePerf| s.cache.verify_batches as nat),
            verify_batches == capped(total(stages@.take(i as int), f_verify_batches)),
            f_rejected_batches == (|s: StrategyStagePerf| s.cache.rejected_batches as nat),
            rejected_batches == capped(total(stages@.take(i as int), f_rejected_batches)),
            f_fallback_tokens == (|s: StrategyStagePerf| s.cache.fallback_tokens as nat),
            fallback_tokens == capped(total(stages@.take(i as int), f_fallback_tokens)),
            f_fallback_decode_tokens == (|s: StrategyStagePerf| s.cache.fallback_decode_tokens as nat),
            fallback_decode_tokens == capped(total(stages@.take(i as int), f_fallback_decode_tokens)),
            f_renderer_inserted_tokens == (|s: StrategyStagePerf| s.cache.renderer_inserted_tokens as nat),
            renderer_inserted_tokens == capped(total(stages@.take(i as int), f_renderer_inserted_tokens)),
            f_llm_generated_tokens == (|s: StrategyStagePerf| s.cache.llm_generated_tokens as nat),
            llm_generated_tokens == capped(total(stages@.take(i as int), f_llm_generated_tokens)),
        decreases stages@.len() - i,
    {
        assert(stages@.take(i + 1).drop_last() =~= stages@.take(i as int));
        let cache = &stages[i].cache;
        prefix_reused_tokens = prefix_reused_tokens.saturating_add(cache.prefix_reused_tokens);
        prefix_total_tokens = prefix_total_tokens.saturating_add(cache.prefix_total_tokens);
        proposed_tokens = proposed_tokens.saturating_add(cache.proposed_tokens);
        accepted_tokens = accepted_tokens.saturating_add(cache.accepted_tokens);
        rejected_tokens = rejected_tokens.saturating_add(cache.rejected_tokens);
        verify_batches = verify_batches.saturating_add(cache.verify_batches);
        rejected_batches = rejected_batches.saturating_add(cache.rejected_batches);
        fallback_tokens = fallback_tokens.saturating_add(cache.fallback_tokens);
        fallback_decode_tokens = fallback_decode_tokens.saturating_add(cache.fallback_decode_tokens);
        renderer_inserted_tokens = renderer_inserted_tokens.saturating_add(cache.renderer_inserted_tokens);
        llm_generated_tokens = llm_generated_tokens.saturating_add(cache.llm_generated_tokens);
        i += 1;
    }
    assert(stages@.take(i as int) =~= stages@);
    TokenSums {
        prefix_reused_tokens,
        prefix_total_tokens,
        proposed_tokens,
        accepted_tokens,
        rejected_tokens,
        verify_batches,
        rejected_batches,
        fallback_tokens,
        fallback_decode_tokens,
        renderer_inserted_tokens,
        llm_generated_tokens,
    }
}

/// What holds of some stage of a run.
struct CacheFlags {
    cache_loaded: bool,
    cache_applied: bool,
    cache_warm: bool,
    cache_supported: bool,
    prompt_token_cache_supported: bool,
    prompt_token_cache_loaded: bool,
    prompt_token_cache_applied: bool,
    prefix_kv_supported: bool,
    prefix_kv_applied: bool,
    synthetic_cache_requested: bool,
    synthetic_cache_supported: bool,
    synthetic_cache_applied: bool,
    token_cache_supported: bool,
    token_cache_loaded: bool,
    token_cache_applied: bool,
    token_verification_supported: bool,
}

proof fn lemma_any_of_none<A>(p: spec_fn(A) -> bool)
    ensures
        !any(Seq::<A>::empty(), p),
{
    reveal(any);
}

fn collect_flags(stages: &[StrategyStagePerf]) -> (r: CacheFlags)
    ensures
        r.cache_loaded == any(stages@, |s: StrategyStagePerf| s.cache.cache_loaded),
        r.cache_applied == any(stages@, |s: StrategyStagePerf| s.cache.cache_applied),
        r.cache_warm == any(stages@, |s: StrategyStagePerf| s.cache.cache_warm),
        r.cache_supported == any(stages@, |s: StrategyStagePerf| s.cache.cache_supported),
        r.prompt_token_cache_supported == any(stages@, |s: StrategyStagePerf| s.cache.prompt_token_cache_supported),
        r.prompt_token_cache_loaded == any(stages@, |s: StrategyStagePerf| s.cache.prompt_token_cache_loaded),
        r.prompt_token_cache_applied == any(stages@, |s: StrategyStagePerf| s.cache.prompt_token_cache_applied),
        r.prefix_kv_supported == any(stages@, |s: StrategyStagePerf| s.cache.prefix_kv_supported),
        r.prefix_kv_applied == any(stages@, |s: StrategyStagePerf| s.cache.prefix_kv_applied),
        r.synthetic_cache_requested == any(stages@, |s: StrategyStagePerf| s.cache.synthetic_cache_requested),
        r.synthetic_cache_supported == any(stages@, |s: StrategyStagePerf| s.cache.synthetic_cache_supported),
        r.synthetic_cache_applied == any(stages@, |s: StrategyStagePerf| s.cache.synthetic_cache_applied),
        r.token_cache_supported == any(stages@, |s: StrategyStagePerf| s.cache.token_cache_supported),
        r.token_cache_loaded == any(stages@, |s: StrategyStagePerf| s.cache.token_cache_loaded),
        r.token_cache_applied == any(stages@, |s: StrategyStagePerf| s.cache.token_cache_applied),
        r.token_verification_supported == any(stages@, |s: StrategyStagePerf| s.cache.token_verification_supported),
{
    let ghost p_cache_loaded = |s: StrategyStagePerf| s.cache.cache_loaded;
    let ghost p_cache_applied = |s: StrategyStagePerf| s.cache.cache_applied;
    let ghost p_cache_warm = |s: StrategyStagePerf| s.cache.cache_warm;
    let ghost p_cache_supported = |s: StrategyStagePerf| s.cache.cache_supported;
    let ghost p_prompt_token_cache_supported = |s: StrategyStagePerf| s.cache.prompt_token_cache_supported;
    let ghost p_prompt_token_cache_loaded = |s: StrategyStagePerf| s.cache.prompt_token_cache_loaded;
    let ghost p_prompt_token_cache_applied = |s: StrategyStagePerf| s.cache.prompt_token_cache_applied;
    let ghost p_prefix_kv_supported = |s: StrategyStagePerf| s.cache.prefix_kv_supported;
    let ghost p_prefix_kv_applied = |s: StrategyStagePerf| s.cache.prefix_kv_applied;
    let ghost p_synthetic_cache_requested = |s: StrategyStagePerf| s.cache.synthetic_cache_requested;
    let ghost p_synthetic_cache_supported = |s: StrategyStagePerf| s.cache.synthetic_cache_supported;
    let ghost p_synthetic_cache_applied = |s: StrategyStagePerf| s.cache.synthetic_cache_applied;
    let ghost p_token_cache_supported = |s: StrategyStagePerf| s.cache.token_cache_supported;
    let ghost p_token_cache_loaded = |s: StrategyStagePerf| s.cache.token_cache_loaded;
    let ghost p_token_cache_applied = |s: StrategyStagePerf| s.cache.token_cache_applied;
    let ghost p_token_verification_supported = |s: StrategyStagePerf| s.cache.token_verification_supported;
    let mut cache_loaded = false;
    let mut cache_applied = false;
    let mut cache_warm = false;
    let mut cache_supported = false;
    let mut prompt_token_cache_supported = false;
    let mut prompt_token_cache_loaded = false;
    let mut prompt_token_cache_applied = false;
    let mut prefix_kv_supported = false;
    let mut prefix_kv_applied = false;
    let mut synthetic_cache_requested = false;
    let mut synthetic_cache_supported = false;
    let mut synthetic_cache_applied = false;
    let mut token_cache_supported = false;
    let mut token_cache_loaded = false;
    let mut token_cache_applied = false;
    let mut token_verification_supported = false;
    let mut i: usize = 0;
    proof {
        assert(stages@.take(0) =~= Seq::empty());
        lemma_any_of_none(p_cache_loaded);
        lemma_any_of_none(p_cache_applied);
        lemma_any_of_none(p_cache_warm);
        lemma_any_of_none(p_cache_supported);
        lemma_any_of_none(p_prompt_token_cache_supported);
        lemma_any_of_none(p_prompt_token_cache_loaded);
        lemma_any_of_none(p_prompt_token_cache_applied);
        lemma_any_of_none(p_prefix_kv_supported);
        lemma_any_of_none(p_prefix_kv_applied);
        lemma_any_of_none(p_synthetic_cache_requested);
        lemma_any_of_none(p_synthetic_cache_supported);
        lemma_any_of_none(p_synthetic_cache_applied);
        lemma_any_of_none(p_token_cache_supported);
        lemma_any_of_none(p_token_cache_loaded);
        lemma_any_of_none(p_token_cache_applied);
        lemma_any_of_none(p_token_verification_supported);
    }
    while i < stages.len()
        invariant
            i <= stages@.len(),
            p_cache_loaded == (|s: StrategyStagePerf| s.cache.cache_loaded),
            cache_loaded == any(stages@.take(i as int), p_cache_loaded),
            p_cache_applied == (|s: StrategyStagePerf| s.cache.cache_applied),
            cache_applied == any(stages@.take(i as int), p_cache_applied),
            p_cache_warm == (|s: StrategyStagePerf| s.cache.cache_warm),
            cache_warm == any(stages@.take(i as int), p_cache_warm),
            p_cache_supported == (|s: StrategyStagePerf| s.cache.cache_supported),
            cache_supported == any(stages@.take(i as int), p_cache_supported),
            p_prompt_token_cache_supported == (|s: StrategyStagePerf| s.cache.prompt_token_cache_supported),
            prompt_token_cache_supported == any(stages@.take(i as int), p_prompt_token_cache_supported),
            p_prompt_token_cache_loaded == (|s: StrategyStagePerf| s.cache.prompt_token_cache_loaded),
            prompt_token_cache_loaded == any(stages@.take(i as int), p_prompt_token_cache_loaded),
            p_prompt_token_cache_applied == (|s: StrategyStagePerf| s.cache.prompt_token_cache_applied),
            prompt_token_cache_applied == any(stages@.take(i as int), p_prompt_token_cache_applied),
            p_prefix_kv_supported == (|s: StrategyStagePerf| s.cache.prefix_kv_supported),
            prefix_kv_supported == any(stages@.take(i as int), p_prefix_kv_supported),
            p_prefix_kv_applied == (|s: StrategyStagePerf| s.cache.prefix_kv_applied),
            prefix_kv_applied == any(stages@.take(i as int), p_prefix_kv_applied),
            p_synthetic_cache_requested == (|s: StrategyStagePerf| s.cache.synthetic_cache_requested),
            synthetic_cache_requested == any(stages@.take(i as int), p_synthetic_cache_requested),
            p_synthetic_cache_supported == (|s: StrategyStagePerf| s.cache.synthetic_cache_supported),
            synthetic_cache_supported == any(stages@.take(i as int), p_synthetic_cache_supported),
            p_synthetic_cache_applied == (|s: StrategyStagePerf| s.cache.synthetic_cache_applied),
            synthetic_cache_applied == any(stages@.take(i as int), p_synthetic_cache_applied),
            p_token_cache_supported == (|s: StrategyStagePerf| s.cache.token_cache_supported),
            token_cache_supported == any(stages@.take(i as int), p_token_cache_supported),
            p_token_cache_loaded == (|s: StrategyStagePerf| s.cache.token_cache_loaded),
            token_cache_loaded == any(stages@.take(i as int), p_token_cache_loaded),
            p_token_cache_applied == (|s: StrategyStagePerf| s.cache.token_cache_applied),
            token_cache_applied == any(stages@.take(i as int), p_token_cache_applied),
            p_token_verification_supported == (|s: StrategyStagePerf| s.cache.token_verification_supported),
            token_verification_supported == any(stages@.take(i as int), p_token_verification_supported),
        decreases stages@.len() - i,
    {
        proof {
            assert(stages@.take(i + 1) =~= stages@.take(i as int).push(stages@[i as int]));
            lemma_any_push(stages@.take(i as int), stages@[i as int], p_cache_loaded);
            lemma_any_push(stages@.take(i as int), stages@[i as int], p_cache_applied);
            lemma_any_push(stages@.take(i as int), stages@[i as int], p_cache_warm);
            lemma_any_push(stages@.take(i as int), stages@[i as int], p_cache_supported);
            lemma_any_push(stages@.take(i as int), stages@[i as int], p_prompt_token_cache_supported);
            lemma_any_push(stages@.take(i as int), stages@[i as int], p_prompt_token_cache_loaded);
            lemma_any_push(stages@.take(i as int), stages@[i as int], p_prompt_token_cache_applied);
            lemma_any_push(stages@.take(i as int), stages@[i as int], p_prefix_kv_supported);
            lemma_any_push(stages@.take(i as int), stages@[i as int], p_prefix_kv_applied);
            lemma_any_push(stages@.take(i as int), stages@[i as int], p_synthetic_cache_requested);
            lemma_any_push(stages@.take(i as int), stages@[i as int], p_synthetic_cache_supported);
            lemma_any_push(stages@.take(i as int), stages@[i as int], p_synthetic_cache_applied);
            lemma_any_push(stages@.take(i as int), stages@[i as int], p_token_cache_supported);
            lemma_any_push(stages@.take(i as int), stages@[i as int], p_token_cache_loaded);
            lemma_any_push(stages@.take(i as int), stages@[i as int], p_token_cache_applied);
            lemma_any_push(stages@.take(i as int), stages@[i as int], p_token_verification_supported);
        }
        let cache = &stages[i].cache;
        cache_loaded = cache_loaded || cache.cache_loaded;
        cache_applied = cache_applied || cache.cache_applied;
        cache_warm = cache_warm || cache.cache_warm;
        cache_supported = cache_supported || cache.cache_supported;
        prompt_token_cache_supported = prompt_token_cache_supported || cache.prompt_token_cache_supported;
        prompt_token_cache_loaded = prompt_token_cache_loaded || cache.prompt_token_cache_loaded;
        prompt_token_cache_applied = prompt_token_cache_applied || cache.prompt_token_cache_applied;
        prefix_kv_supported = prefix_kv_supported || cache.prefix_kv_supported;
        prefix_kv_applied = prefix_kv_applied || cache.prefix_kv_applied;
        synthetic_cache_requested = synthetic_cache_requested || cache.synthetic_cache_requested;
        synthetic_cache_supported = synthetic_cache_supported || cache.synthetic_cache_supported;
        synthetic_cache_applied = synthetic_cache_applied || cache.synthetic_cache_applied;
        token_cache_supported = token_cache_supported || cache.token_cache_supported;
        token_cache_loaded = token_cache_loaded || cache.token_cache_loaded;
        token_cache_applied = token_cache_applied || cache.token_cache_applied;
        token_verification_supported = token_verification_supported || cache.token_verification_supported;
        i += 1;
    }
    assert(stages@.take(i as int) =~= stages@);
    CacheFlags {
        cache_loaded,
        cache_applied,
        cache_warm,
        cache_supported,
        prompt_token_cache_supported,
        prompt_token_cache_loaded,
        prompt_token_cache_applied,
        prefix_kv_supported,
        prefix_kv_applied,
        synthetic_cache_requested,
        synthetic_cache_supported,
        synthetic_cache_applied,
        token_cache_supported,
        token_cache_loaded,
        token_cache_applied,
        token_verification_supported,
    }
}

/// What the stages of a run say of their modes.
struct ModeTexts {
    backend: String,
    requested: String,
    applied: String,
    provider: String,
    reasons: Vec<String>,
}

fn collect_modes(stages: &[StrategyStagePerf], requested: String, usual_backend: &str) -> (r:
    ModeTexts)
    ensures
        r.backend@ == backend_of(stages@, usual_backend@),
        r.requested@ == mode_requested(stages@, requested@),
        r.applied@ == mode_applied(stages@),
        r.provider@ == provider_of(stages@),
        strs::views(r.reasons@) == bypass_reasons(stages@),
{
    let ghost asked = requested@;
    let mut requested = requested;
    let mut applied = "Off".to_owned();
    let mut provider = String::new();
    let mut reasons = text::no_texts();
    let mut backend = if stages.len() > 0 {
        stages[stages.len() - 1].backend_kind.clone()
    } else {
        usual_backend.to_owned()
    };
    let ghost last_backend = backend@;
    let mut i: usize = 0;
    assert(stages@.take(0) =~= Seq::empty());
    assert(provider@ =~= Seq::empty());
    while i < stages.len()
        invariant
            i <= stages@.len(),
            backend@ == backend_from(stages@.take(i as int), last_backend),
            requested@ == mode_requested(stages@.take(i as int), asked),
            applied@ == mode_applied(stages@.take(i as int)),
            provider@ == provider_of(stages@.take(i as int)),
            strs::views(reasons@) == bypass_reasons(stages@.take(i as int)),
        decreases stages@.len() - i,
    {
        assert(stages@.take(i + 1).drop_last() =~= stages@.take(i as int));
        let cache = &stages[i].cache;
        if backend.as_str().unicode_len() == 0 {
            backend = stages[i].backend_kind.clone();
        }
        if cache.cache_requested && text::same(&requested, "Off") {
            requested = cache.cache_mode_requested.clone();
        }
        if cache.cache_applied && text::same(&applied, "Off") {
            applied = cache.cache_mode_applied.clone();
        }
        if provider.as_str().unicode_len() == 0 && !text::is_blank(&cache.draft_provider)
            && !text::same(&cache.draft_provider, "noop") {
            provider = cache.draft_provider.clone();
        }
        if !text::is_blank(&cache.bypass_reason) {
            text::push_new(&mut reasons, cache.bypass_reason.clone());
        }
        i += 1;
    }
    assert(stages@.take(i as int) =~= stages@);
    ModeTexts { backend, requested, applied, provider, reasons }
}

/// Whether a summary says what the cache did for the stages of a run: its counts are those of the
/// stages together, and each of its flags holds where it holds of a stage.
pub open spec fn sums_up(
    r: StrategyCacheSummary,
    stages: Seq<StrategyStagePerf>,
    requested: bool,
    usual_backend: Seq<char>,
) -> bool {
    &&& r.backend_type@ == backend_of(stages, usual_backend)
    &&& r.cache_requested == requested
    &&& r.cache_mode_requested@ == mode_requested(
        stages,
        if requested {
            "FullDRACE"@
        } else {
            "Off"@
        },
    )
    &&& r.cache_mode_applied@ == mode_applied(stages)
    &&& r.bypass_reason@ == strs::join(bypass_reasons(stages), " / "@)
    &&& r.draft_provider@ == if provider_of(stages).len() == 0 {
        "noop"@
    } else {
        provider_of(stages)
    }
    &&& r.prefix_reused_tokens == capped(
        total(stages, |s: StrategyStagePerf| s.cache.prefix_reused_tokens as nat),
    )
    &&& r.prefix_total_tokens == capped(
        total(stages, |s: StrategyStagePerf| s.cache.prefix_total_tokens as nat),
    )
    &&& r.proposed_tokens == capped(
        total(stages, |s: StrategyStagePerf| s.cache.proposed_tokens as nat),
    )
    &&& r.accepted_tokens == capped(
        total(stages, |s: StrategyStagePerf| s.cache.accepted_tokens as nat),
    )
    &&& r.rejected_tokens == capped(
        total(stages, |s: StrategyStagePerf| s.cache.rejected_tokens as nat),
    )
    &&& r.verify_batches == capped(
        total(stages, |s: StrategyStagePerf| s.cache.verify_batches as nat),
    )
    &&& r.rejected_batches == capped(
        total(stages, |s: StrategyStagePerf| s.cache.rejected_batches as nat),
    )
    &&& r.fallback_tokens == capped(
        total(stages, |s: StrategyStagePerf| s.cache.fallback_tokens as nat),
    )
    &&& r.fallback_decode_tokens == capped(
        total(stages, |s: StrategyStagePerf| s.cache.fallback_decode_tokens as nat),
    )
    &&& r.renderer_inserted_tokens == capped(
        total(stages, |s: StrategyStagePerf| s.cache.renderer_inserted_tokens as nat),
    )
    &&& r.llm_generated_tokens == capped(
        total(stages, |s: StrategyStagePerf| s.cache.llm_generated_tokens as nat),
    )
    &&& r.cache_loaded == any(stages, |s: StrategyStagePerf| s.cache.cache_loaded)
    &&& r.cache_applied == any(stages, |s: StrategyStagePerf| s.cache.cache_applied)
    &&& r.cache_warm == any(stages, |s: StrategyStagePerf| s.cache.cache_warm)
    &&& r.cache_supported == any(stages, |s: StrategyStagePerf| s.cache.cache_supported)
    &&& r.prompt_token_cache_supported == any(stages, |s: StrategyStagePerf| s.cache.prompt_token_cache_supported)
    &&& r.prompt_token_cache_loaded == any(stages, |s: StrategyStagePerf| s.cache.prompt_token_cache_loaded)
    &&& r.prompt_token_cache_applied == any(stages, |s: StrategyStagePerf| s.cache.prompt_token_cache_applied)
    &&& r.prefix_kv_supported == any(stages, |s: StrategyStagePerf| s.cache.prefix_kv_supported)
    &&& r.prefix_kv_applied == any(stages, |s: StrategyStagePerf| s.cache.prefix_kv_applied)
    &&& r.synthetic_cache_requested == any(stages, |s: StrategyStagePerf| s.cache.synthetic_cache_requested)
    &&& r.synthetic_cache_supported == any(stages, |s: StrategyStagePerf| s.cache.synthetic_cache_supported)
    &&& r.synthetic_cache_applied == any(stages, |s: StrategyStagePerf| s.cache.synthetic_cache_applied)
    &&& r.token_cache_supported == any(stages, |s: StrategyStagePerf| s.cache.token_cache_supported)
    &&& r.token_cache_loaded == any(stages, |s: StrategyStagePerf| s.cache.token_cache_loaded)
    &&& r.token_cache_applied == any(stages, |s: StrategyStagePerf| s.cache.token_cache_applied)
    &&& r.token_verification_supported == any(stages, |s: StrategyStagePerf| s.cache.token_verification_supported)
    &&& r.prefix_reuse_ratio == ratio(r.prefix_reused_tokens as int, r.prefix_total_tokens as int)
    &&& r.acceptance_ratio == ratio(r.accepted_tokens as int, r.proposed_tokens as int)
    &&& r.avg_proposed_batch_size == ratio(r.proposed_tokens as int, r.verify_batches as int)
    &&& r.avg_accepted_batch_size == ratio(r.accepted_tokens as int, r.verify_batches as int)
    &&& r.accepted_tokens_per_verify == ratio(r.accepted_tokens as int, r.verify_batches as int)
    &&& r.output_token_reduction_ratio == ratio(
        r.renderer_inserted_tokens as int,
        r.renderer_inserted_tokens + r.llm_generated_tokens,
    )
}

/// Sums up what the cache did for the stages of a run. `usual_backend` is the backend in use,
/// for a run without stages.
pub fn summarize_strategy_cache(
    stages: &[StrategyStagePerf],
    cache_requested: bool,
    usual_backend: &str,
) -> (r: StrategyCacheSummary)
    ensures
        sums_up(r, stages@, cache_requested, usual_backend@),
{
    let asked = if cache_requested {
        "FullDRACE".to_owned()
    } else {
        "Off".to_owned()
    };
    let sums = sum_tokens(stages);
    let flags = collect_flags(stages);
    let modes = collect_modes(stages, asked, usual_backend);
    StrategyCacheSummary {
        backend_type: modes.backend,
        cache_requested,
        cache_mode_requested: modes.requested,
        cache_mode_applied: modes.applied,
        bypass_reason: text::join(&modes.reasons, " / "),
        draft_provider: if modes.provider.as_str().unicode_len() == 0 {
            "noop".to_owned()
        } else {
            modes.provider
        },
        prefix_reused_tokens: sums.prefix_reused_tokens,
        prefix_total_tokens: sums.prefix_total_tokens,
        proposed_tokens: sums.proposed_tokens,
        accepted_tokens: sums.accepted_tokens,
        rejected_tokens: sums.rejected_tokens,
        verify_batches: sums.verify_batches,
        rejected_batches: sums.rejected_batches,
        fallback_tokens: sums.fallback_tokens,
        fallback_decode_tokens: sums.fallback_decode_tokens,
        renderer_inserted_tokens: sums.renderer_inserted_tokens,
        llm_generated_tokens: sums.llm_generated_tokens,
        cache_loaded: flags.cache_loaded,
        cache_applied: flags.cache_applied,
        cache_warm: flags.cache_warm,
        cache_supported: flags.cache_supported,
        prompt_token_cache_supported: flags.prompt_token_cache_supported,
        prompt_token_cache_loaded: flags.prompt_token_cache_loaded,
        prompt_token_cache_applied: flags.prompt_token_cache_applied,
        prefix_kv_supported: flags.prefix_kv_supported,
        prefix_kv_applied: flags.prefix_kv_applied,
        synthetic_cache_requested: flags.synthetic_cache_requested,
        synthetic_cache_supported: flags.synthetic_cache_supported,
        synthetic_cache_applied: flags.synthetic_cache_applied,
        token_cache_supported: flags.token_cache_supported,
        token_cache_loaded: flags.token_cache_loaded,
        token_cache_applied: flags.token_cache_applied,
        token_verification_supported: flags.token_verification_supported,
        prefix_reuse_ratio: ratio_of(sums.prefix_reused_tokens, sums.prefix_total_tokens),
        acceptance_ratio: ratio_of(sums.accepted_tokens, sums.proposed_tokens),
        avg_proposed_batch_size: ratio_of(sums.proposed_tokens, sums.verify_batches),
        avg_accepted_batch_size: ratio_of(sums.accepted_tokens, sums.verify_batches),
        accepted_tokens_per_verify: ratio_of(sums.accepted_tokens, sums.verify_batches),
        output_token_reduction_ratio: reduction_of(
            sums.renderer_inserted_tokens,
            sums.llm_generated_tokens,
        ),
    }
}

/// The shortest positive time to the first token, if there is any.
pub open spec fn first_token(stages: Seq<StrategyStagePerf>) -> Option<u128>
    decreases stages.len(),
{
    if stages.len() == 0 {
        None
    } else {
        let head = first_token(stages.drop_last());
        match stages.last().ttft_ms {
            Some(t) => if t > 0 && (head is None || t < head->0) {
                Some(t)
            } else {
                head
            },
            None => head,
        }
    }
}

/// The models of a run and what they take together.
#[verifier::ext_equal]
pub struct Footprint {
    pub models: Seq<Seq<char>>,
    pub mb: int,
}

/// The models of the stages, each counted once.
pub open spec fn footprint(stages: Seq<StrategyStagePerf>) -> Footprint
    decreases stages.len(),
{
    if stages.len() == 0 {
        Footprint { models: Seq::empty(), mb: 0 }
    } else {
        let head = footprint(stages.drop_last());
        let s = stages.last();
        if s.model_path@.len() > 0 && !head.models.contains(s.model_path@) {
            Footprint {
                models: head.models.push(s.model_path@),
                mb: if head.mb + s.peak_memory_mb > u64::MAX {
                    u64::MAX as int
                } else {
                    head.mb + s.peak_memory_mb
                },
            }
        } else {
            head
        }
    }
}

/// The largest prompt of the stages.
pub open spec fn largest_prompt(stages: Seq<StrategyStagePerf>) -> nat
    decreases stages.len(),
{
    if stages.len() == 0 {
        0
    } else {
        let head = largest_prompt(stages.drop_last());
        if stages.last().prompt_tokens > head {
            stages.last().prompt_tokens as nat
        } else {
            head
        }
    }
}

/// The stage ran in the full mode.
pub open spec fn ran_full(s: StrategyStagePerf) -> bool {
    s.cache.synthetic_cache_applied || s.cache.cache_mode_applied@ == "FullDRACE"@
}

/// The names of the stages that ran in the full mode.
pub open spec fn full_stages(stages: Seq<StrategyStagePerf>) -> Seq<Seq<char>> {
    strs::collected(
        stages,
        |s: StrategyStagePerf|
            if ran_full(s) {
                Some(s.stage_name@)
            } else {
                None
            },
    )
}

/// The time that a stage took to write its answer.
pub open spec fn decode_time(s: StrategyStagePerf) -> nat {
    match s.decode_ms {
        Some(t) => t as nat,
        None => 0,
    }
}

/// The times of the stages, taken together, can be counted.
pub open spec fn times_fit(stages: Seq<StrategyStagePerf>) -> bool {
    &&& total(stages, |s: StrategyStagePerf| s.e2e_ms as nat) <= u128::MAX
    &&& total(stages, |s: StrategyStagePerf| s.prompt_file_write_ms as nat) <= u128::MAX
    &&& total(stages, |s: StrategyStagePerf| s.cache.token_cache_lookup_ms as nat) <= u128::MAX
    &&& total(stages, |s: StrategyStagePerf| s.process_spawn_ms as nat) <= u128::MAX
    &&& total(stages, |s: StrategyStagePerf| s.stdout_read_ms as nat) <= u128::MAX
    &&& total(stages, |s: StrategyStagePerf| s.postprocess_ms as nat) <= u128::MAX
    &&& total(stages, |s: StrategyStagePerf| decode_time(s)) <= u128::MAX
}

/// A part of a sum is not larger than the sum.
proof fn lemma_total_grows<A>(list: Seq<A>, f: spec_fn(A) -> nat, k: int)
    requires
        0 <= k <= list.len(),
    ensures
        total(list.take(k), f) <= total(list, f),
    decreases list.len(),
{
    if k == list.len() {
        assert(list.take(k) =~= list);
    } else {
        assert(list.drop_last().take(k) =~= list.take(k));
        lemma_total_grows(list.drop_last(), f, k);
    }
}

/// The times of a run, summed up.
struct TimeSums {
    e2e: u128,
    write: u128,
    lookup: u128,
    spawn: u128,
    read: u128,
    post: u128,
    decode: u128,
}

fn sum_times(stages: &[StrategyStagePerf]) -> (r: TimeSums)
    requires
        times_fit(stages@),
    ensures
        r.e2e == total(stages@, |s: StrategyStagePerf| s.e2e_ms as nat),
        r.write == total(stages@, |s: StrategyStagePerf| s.prompt_file_write_ms as nat),
        r.lookup == total(stages@, |s: StrategyStagePerf| s.cache.token_cache_lookup_ms as nat),
        r.spawn == total(stages@, |s: StrategyStagePerf| s.process_spawn_ms as nat),
        r.read == total(stages@, |s: StrategyStagePerf| s.stdout_read_ms as nat),
        r.post == total(stages@, |s: StrategyStagePerf| s.postprocess_ms as nat),
        r.decode == total(stages@, |s: StrategyStagePerf| decode_time(s)),
{
    let ghost fe = |s: StrategyStagePerf| s.e2e_ms as nat;
    let ghost fw = |s: StrategyStagePerf| s.prompt_file_write_ms as nat;
    let ghost fl = |s: StrategyStagePerf| s.cache.token_cache_lookup_ms as nat;
    let ghost fs = |s: StrategyStagePerf| s.process_spawn_ms as nat;
    let ghost fr = |s: StrategyStagePerf| s.stdout_read_ms as nat;
    let ghost fp = |s: StrategyStagePerf| s.postprocess_ms as nat;
    let ghost fd = |s: StrategyStagePerf| decode_time(s);
    let mut r = TimeSums { e2e: 0, write: 0, lookup: 0, spawn: 0, read: 0, post: 0, decode: 0 };
    let mut i: usize = 0;
    assert(stages@.take(0) =~= Seq::empty());
    while i < stages.len()
        invariant
            i <= stages@.len(),
            times_fit(stages@),
            fe == (|s: StrategyStagePerf| s.e2e_ms as nat),
            fw == (|s: StrategyStagePerf| s.prompt_file_write_ms as nat),
            fl == (|s: StrategyStagePerf| s.cache.token_cache_lookup_ms as nat),
            fs == (|s: StrategyStagePerf| s.process_spawn_ms as nat),
            fr == (|s: StrategyStagePerf| s.stdout_read_ms as nat),
            fp == (|s: StrategyStagePerf| s.postprocess_ms as nat),
            fd == (|s: StrategyStagePerf| decode_time(s)),
            r.e2e == total(stages@.take(i as int), fe),
            r.write == total(stages@.take(i as int), fw),
            r.lookup == total(stages@.take(i as int), fl),
            r.spawn == total(stages@.take(i as int), fs),
            r.read == total(stages@.take(i as int), fr),
            r.post == total(stages@.take(i as int), fp),
            r.decode == total(stages@.take(i as int), fd),
        decreases stages@.len() - i,
    {
        proof {
            assert(stages@.take(i + 1).drop_last() =~= stages@.take(i as int));
            lemma_total_grows(stages@, fe, i + 1);
            lemma_total_grows(stages@, fw, i + 1);
            lemma_total_grows(stages@, fl, i + 1);
            lemma_total_grows(stages@, fs, i + 1);
            lemma_total_grows(stages@, fr, i + 1);
            lemma_total_grows(stages@, fp, i + 1);
            lemma_total_grows(stages@, fd, i + 1);
        }
        let s = &stages[i];
        let decode: u128 = match s.decode_ms {
            Some(t) => t,
            None => 0,
        };
        r = TimeSums {
            e2e: r.e2e + s.e2e_ms,
            write: r.write + s.prompt_file_write_ms,
            lookup: r.lookup + s.cache.token_cache_lookup_ms,
            spawn: r.spawn + s.process_spawn_ms,
            read: r.read + s.stdout_read_ms,
            post: r.post + s.postprocess_ms,
            decode: r.decode + decode,
        };
        i += 1;
    }
    assert(stages@.take(i as int) =~= stages@);
    r
}

fn stage_peaks(stages: &[StrategyStagePerf]) -> (r: (Option<u128>, u64, usize, Vec<String>))
    ensures
        r.0 == first_token(stages@),
        r.1 == footprint(stages@).mb,
        r.2 == largest_prompt(stages@),
        strs::views(r.3@) == full_stages(stages@),
{
    let ghost g = |s: StrategyStagePerf|
        if ran_full(s) {
            Some(s.stage_name@)
        } else {
            None
        };
    let mut ttft: Option<u128> = None;
    let mut models = text::no_texts();
    let mut mb: u64 = 0;
    let mut prompt: usize = 0;
    let mut full = text::no_texts();
    let mut i: usize = 0;
    assert(stages@.take(0) =~= Seq::empty());
    assert(strs::collected(stages@.take(0), g) =~= Seq::empty());
    while i < stages.len()
        invariant
            i <= stages@.len(),
            g == (|s: StrategyStagePerf|
                if ran_full(s) {
                    Some(s.stage_name@)
                } else {
                    None
                }),
            ttft == first_token(stages@.take(i as int)),
            footprint(stages@.take(i as int)) == (Footprint {
                models: strs::views(models@),
                mb: mb as int,
            }),
            prompt == largest_prompt(stages@.take(i as int)),
            strs::views(full@) == strs::collected(stages@.take(i as int), g),
        decreases stages@.len() - i,
    {
        assert(stages@.take(i + 1).drop_last() =~= stages@.take(i as int));
        let s = &stages[i];
        if let Some(t) = s.ttft_ms {
            let better = match ttft {
                Some(best) => t < best,
                None => true,
            };
            if t > 0 && better {
                ttft = Some(t);
            }
        }
        if s.model_path.as_str().unicode_len() > 0 && !text::listed(&models, &s.model_path) {
            text::push(&mut models, s.model_path.clone());
            mb = mb.saturating_add(s.peak_memory_mb);
        }
        if s.prompt_tokens > prompt {
            prompt = s.prompt_tokens;
        }
        if s.cache.synthetic_cache_applied || text::same(
            &s.cache.cache_mode_applied,
            "FullDRACE",
        ) {
            text::push(&mut full, s.stage_name.clone());
        }
        i += 1;
    }
    assert(stages@.take(i as int) =~= stages@);
    (ttft, mb, prompt, full)
}

/// The larger of a number and one.
pub open spec fn at_least_one(n: u64) -> u128 {
    if n < 1 {
        1
    } else {
        n as u128
    }
}

/// The identity of a run: its mode and the hashes of what it was given.
#[derive(Debug)]
pub struct RunIdentity {
    pub mode: String,
    pub run_id: String,
    pub prompt_hash: String,
    pub case_hash: String,
    pub records_hash: String,
    pub model_config_hash: String,
}

/// Sums up what a run cost.
pub fn aggregate_strategy_perf_metrics(
    identity: &RunIdentity,
    cache_enabled: bool,
    total_e2e_ms: u64,
    final_answer: &str,
    stage_metrics: &[StrategyStagePerf],
    usual_backend: &str,
) -> (r: StrategyPerfMetrics)
    requires
        times_fit(stage_metrics@),
    ensures
        r.mode@ == identity.mode@,
        r.run_id@ == identity.run_id@,
        r.prompt_hash@ == identity.prompt_hash@,
        r.case_hash@ == identity.case_hash@,
        r.records_hash@ == identity.records_hash@,
        r.model_config_hash@ == identity.model_config_hash@,
        r.backend_kind@ == backend_of(stage_metrics@, usual_backend@),
        r.cache_requested == cache_enabled,
        r.cache_loaded == any(stage_metrics@, |s: StrategyStagePerf| s.cache.cache_loaded),
        r.cache_applied == any(stage_metrics@, |s: StrategyStagePerf| s.cache.cache_applied),
        r.requested_mode@ == mode_requested(
            stage_metrics@,
            if cache_enabled {
                "FullDRACE"@
            } else {
                "Off"@
            },
        ),
        r.applied_mode@ == mode_applied(stage_metrics@),
        r.bypass_reason@ == strs::join(bypass_reasons(stage_metrics@), " / "@),
        r.total_e2e_ms == at_least_one(total_e2e_ms),
        r.ttft_ms == match first_token(stage_metrics@) {
            Some(t) => t,
            None => at_least_one(total_e2e_ms),
        },
        r.total_prompt_tokens == largest_prompt(stage_metrics@),
        r.total_output_tokens == output_tokens(final_answer@),
        r.total_decode_ms == total(stage_metrics@, |s: StrategyStagePerf| decode_time(s)),
        strs::views(r.full_drace_applied_stages@) == full_stages(stage_metrics@),
        r.peak_memory_mb == footprint(stage_metrics@).mb,
        r.stage_execution_sum_ms == total(
            stage_metrics@,
            |s: StrategyStagePerf| s.e2e_ms as nat,
        ),
        r.orchestration_overhead_ms == if r.stage_execution_sum_ms > r.total_e2e_ms {
            0
        } else {
            r.total_e2e_ms - r.stage_execution_sum_ms
        },
        r.prompt_build_ms == total(
            stage_metrics@,
            |s: StrategyStagePerf| s.prompt_file_write_ms as nat,
        ),
        r.cache_lookup_ms == total(
            stage_metrics@,
            |s: StrategyStagePerf| s.cache.token_cache_lookup_ms as nat,
        ),
        r.process_spawn_ms == total(
            stage_metrics@,
            |s: StrategyStagePerf| s.process_spawn_ms as nat,
        ),
        r.stdout_read_ms == total(
            stage_metrics@,
            |s: StrategyStagePerf| s.stdout_read_ms as nat,
        ),
        r.postprocess_ms == total(
            stage_metrics@,
            |s: StrategyStagePerf| s.postprocess_ms as nat,
        ),
        sums_up(r.cache_summary, stage_metrics@, cache_enabled, usual_backend@),
{
    let whole: u128 = if total_e2e_ms < 1 {
        1
    } else {
        total_e2e_ms as u128
    };
    let times = sum_times(stage_metrics);
    let (ttft, mb, prompt, full) = stage_peaks(stage_metrics);
    let overhead: u128 = if times.e2e > whole {
        0
    } else {
        whole - times.e2e
    };
    let summary = summarize_strategy_cache(stage_metrics, cache_enabled, usual_backend);
    StrategyPerfMetrics {
        mode: identity.mode.clone(),
        run_id: identity.run_id.clone(),
        prompt_hash: identity.prompt_hash.clone(),
        case_hash: identity.case_hash.clone(),
        records_hash: identity.records_hash.clone(),
        model_config_hash: identity.model_config_hash.clone(),
        backend_kind: summary.backend_type.clone(),
        cache_requested: summary.cache_requested,
        cache_loaded: summary.cache_loaded,
        cache_applied: summary.cache_applied,
        requested_mode: summary.cache_mode_requested.clone(),
        applied_mode: summary.cache_mode_applied.clone(),
        bypass_reason: summary.bypass_reason.clone(),
        total_e2e_ms: whole,
        ttft_ms: match ttft {
            Some(t) => t,
            None => whole,
        },
        total_prompt_tokens: prompt,
        total_output_tokens: strategy_approx_output_tokens(final_answer),
        total_decode_ms: times.decode,
        full_drace_applied_stages: full,
        peak_memory_mb: mb,
        stage_execution_sum_ms: times.e2e,
        orchestration_overhead_ms: overhead,
        prompt_build_ms: times.write,
        cache_lookup_ms: times.lookup,
        process_spawn_ms: times.spawn,
        stdout_read_ms: times.read,
        postprocess_ms: times.post,
        cache_summary: summary,
    }
}

/// The phase of a run: one that was given something by a cache that was not warm warms it up.
pub open spec fn phase_of(requested: bool, applied: bool, warm: bool) -> Seq<char> {
    if requested && applied && !warm {
        "warmup"@
    } else {
        "measured"@
    }
}

/// The phase that a row of the benchmark belongs to.
pub fn benchmark_phase(summary: &StrategyCacheSummary) -> (r: &'static str)
    ensures
        r@ == phase_of(summary.cache_requested, summary.cache_applied, summary.cache_warm),
{
    if summary.cache_requested && summary.cache_applied && !summary.cache_warm {
        "warmup"
    } else {
        "measured"
    }
}

/// How a model is run.
#[derive(Debug, Clone, Copy)]
pub struct StrategyRuntimeConfig {
    pub n_ctx: u32,
    pub threads: u32,
    pub n_gpu_layers: u32,
    pub device: &'static str,
}

/// The threads that a model gets on a machine with so many cores: three quarters of them on
/// Windows, elsewhere all but one or two.
pub open spec fn threads_for(cores: u32, windows: bool) -> int {
    let wanted = if windows {
        (3 * cores + 2) / 4
    } else if cores >= 10 {
        cores - 2
    } else {
        cores - 1
    };
    let most = if windows {
        10
    } else {
        12
    };
    if wanted < 1 {
        1
    } else if wanted > most {
        most
    } else {
        wanted
    }
}

/// The threads that a model gets on a machine with so many cores.
pub fn strategy_default_threads(logical_cores: u32, windows: bool) -> (r: u32)
    ensures
        r == threads_for(logical_cores, windows),
        1 <= r <= 12,
{
    let wanted: u64 = if windows {
        (3 * (logical_cores as u64) + 2) / 4
    } else {
        let reserve: u32 = if logical_cores >= 10 {
            2
        } else {
            1
        };
        logical_cores.saturating_sub(reserve) as u64
    };
    let most: u64 = if windows {
        10
    } else {
        12
    };
    if wanted < 1 {
        1
    } else if wanted > most {
        most as u32
    } else {
        wanted as u32
    }
}

/// A number brought within bounds.
pub open spec fn within(n: u32, low: u32, high: u32) -> u32 {
    if n < low {
        low
    } else if n > high {
        high
    } else {
        n
    }
}

/// How a model is run: a window of 2048 to 4096 tokens, on one to twelve threads.
pub fn strategy_runtime_config(
    requested_n_ctx: Option<u32>,
    requested_threads: Option<u32>,
    default_threads: u32,
) -> (r: StrategyRuntimeConfig)
    ensures
        r.n_ctx == within(
            match requested_n_ctx {
                Some(n) => n,
                None => 4096,
            },
            2048,
            4096,
        ),
        r.threads == within(
            match requested_threads {
                Some(n) => n,
                None => default_threads,
            },
            1,
            12,
        ),
        r.n_gpu_layers == 0,
        r.device@ == "none"@,
{
    let n_ctx: u32 = match requested_n_ctx {
        Some(n) => n,
        None => 4096,
    };
    let threads: u32 = match requested_threads {
        Some(n) => n,
        None => default_threads,
    };
    StrategyRuntimeConfig {
        n_ctx: if n_ctx < 2048 {
            2048
        } else if n_ctx > 4096 {
            4096
        } else {
            n_ctx
        },
        threads: if threads < 1 {
            1
        } else if threads > 12 {
            12
        } else {
            threads
        },
        n_gpu_layers: 0,
        device: "none",
    }
}

/// How answers are sampled, in thousandths.
#[derive(Debug, Clone, Copy, PartialEq, Eq, Structural)]
pub struct StrategyGenerationTuning {
    pub temperature_milli: u32,
    pub top_p_milli: u32,
    pub repeat_penalty_milli: u32,
}

/// How answers are sampled.
pub fn strategy_generation_tuning() -> (r: StrategyGenerationTuning)
    ensures
        r == (StrategyGenerationTuning {
            temperature_milli: 150,
            top_p_milli: 850,
            repeat_penalty_milli: 1120,
        }),
{
    StrategyGenerationTuning {
        temperature_milli: 150,
        top_p_milli: 850,
        repeat_penalty_milli: 1120,
    }
}

/// The window of a draft.
pub fn strategy_hybrid_draft_n_ctx(base_n_ctx: u32) -> (r: u32)
    ensures
        r == within(base_n_ctx, 2560, 3584),
{
    if base_n_ctx > 3584 {
        3584
    } else if base_n_ctx < 2560 {
        2560
    } else {
        base_n_ctx
    }
}

/// A run of which no stage took anything from the cache reports that it took nothing and that the
/// cache was off, and it warms nothing up.
pub proof fn a_run_without_cached_stages_reports_none(
    stages: Seq<StrategyStagePerf>,
    requested: bool,
    warm: bool,
)
    requires
        forall|i: int|
            0 <= i < stages.len() ==> !(#[trigger] stages[i]).cache.cache_applied,
    ensures
        mode_applied(stages) == "Off"@,
        !any(stages, |s: StrategyStagePerf| s.cache.cache_applied),
        phase_of(
            requested,
            any(stages, |s: StrategyStagePerf| s.cache.cache_applied),
            warm,
        ) == "measured"@,
    decreases stages.len(),
{
    reveal(any);
    if stages.len() > 0 {
        let t = stages.drop_last();
        assert forall|i: int| 0 <= i < t.len() implies !(#[trigger] t[i]).cache.cache_applied by {
            assert(t[i] == stages[i]);
        }
        a_run_without_cached_stages_reports_none(t, requested, warm);
        assert(stages[stages.len() - 1] == stages.last());
    }
}

} // verus!
