//! What a run took, and what the cache did for it.

use roosycozy::drace::cache_manager::{BackendCapabilities, BackendKind};
use roosycozy::engine::perf::{
    aggregate_strategy_perf_metrics, benchmark_phase, build_strategy_stage_cache_perf, ratio_of,
    reduction_of, strategy_approx_output_tokens, strategy_backend_type_label,
    strategy_cache_bypass_reason, strategy_cli_bypass_plan, strategy_cli_bypass_plan_with_reason,
    strategy_default_threads, strategy_estimate_model_footprint_mb, strategy_generation_tuning,
    strategy_hybrid_draft_n_ctx, strategy_runtime_config, summarize_strategy_cache, Ratio,
    RunIdentity, StrategyStageCachePerf, StrategyStagePerf,
};

fn uncached() -> StrategyStageCachePerf {
    build_strategy_stage_cache_perf(
        &BackendCapabilities::cli(),
        &strategy_cli_bypass_plan(true),
        10,
        20,
    )
}

fn stage(name: &str, cache: StrategyStageCachePerf) -> StrategyStagePerf {
    StrategyStagePerf {
        stage_name: name.to_string(),
        model_id: "hyperclova-x".to_string(),
        backend_kind: "llama-server".to_string(),
        runner_path: "runner".to_string(),
        model_path: "model".to_string(),
        threads: 4,
        threads_batch: 4,
        n_ctx: 4096,
        max_tokens: 512,
        temperature_milli: 150,
        top_p_milli: 850,
        repeat_penalty_milli: 1120,
        e2e_ms: 100,
        ttft_ms: Some(30),
        prompt_tokens: 11,
        output_tokens: 22,
        prompt_eval_ms: None,
        decode_ms: Some(70),
        peak_memory_mb: 500,
        process_spawn_ms: 1,
        prompt_file_write_ms: 2,
        stdout_read_ms: 3,
        postprocess_ms: 4,
        cache,
    }
}

fn identity() -> RunIdentity {
    RunIdentity {
        mode: "analysis".to_string(),
        run_id: "run".to_string(),
        prompt_hash: "p".to_string(),
        case_hash: "c".to_string(),
        records_hash: "r".to_string(),
        model_config_hash: "m".to_string(),
    }
}

#[test]
fn tokens_and_sizes_are_estimated() {
    assert_eq!(strategy_approx_output_tokens(""), 1);
    assert_eq!(strategy_approx_output_tokens("a b c"), 3);
    assert_eq!(strategy_approx_output_tokens("가나다라마바사아"), 2);
    assert_eq!(strategy_estimate_model_footprint_mb(0), 0);
    assert_eq!(strategy_estimate_model_footprint_mb(1), 1);
    assert_eq!(strategy_estimate_model_footprint_mb(1024 * 1024), 1);
    assert_eq!(strategy_estimate_model_footprint_mb(1024 * 1024 + 1), 2);
}

#[test]
fn threads_and_windows_are_bounded() {
    assert_eq!(strategy_default_threads(4, true), 3);
    assert_eq!(strategy_default_threads(2, true), 2);
    assert_eq!(strategy_default_threads(1, true), 1);
    assert_eq!(strategy_default_threads(6, true), 5);
    assert_eq!(strategy_default_threads(64, true), 10);
    assert_eq!(strategy_default_threads(4, false), 3);
    assert_eq!(strategy_default_threads(1, false), 1);
    assert_eq!(strategy_default_threads(10, false), 8);
    assert_eq!(strategy_default_threads(64, false), 12);
    let c = strategy_runtime_config(None, None, 7);
    assert_eq!((c.n_ctx, c.threads, c.n_gpu_layers, c.device), (4096, 7, 0, "none"));
    let c = strategy_runtime_config(Some(100), Some(99), 7);
    assert_eq!((c.n_ctx, c.threads), (2048, 12));
    assert_eq!(strategy_hybrid_draft_n_ctx(4096), 3584);
    assert_eq!(strategy_hybrid_draft_n_ctx(2048), 2560);
    assert_eq!(strategy_hybrid_draft_n_ctx(3000), 3000);
    let t = strategy_generation_tuning();
    assert_eq!((t.temperature_milli, t.top_p_milli, t.repeat_penalty_milli), (150, 850, 1120));
}

#[test]
fn a_bypassed_cache_is_reported() {
    assert_eq!(strategy_backend_type_label(BackendKind::CliSidecar), "cli");
    assert_eq!(strategy_backend_type_label(BackendKind::LlamaServer), "llama-server");
    assert_eq!(strategy_backend_type_label(BackendKind::Native), "native");
    assert_eq!(strategy_cache_bypass_reason(false), "cache disabled");
    assert_eq!(
        strategy_cache_bypass_reason(true),
        "CLI backend does not support persistent Prefix KV Cache, and Synthetic Token Cache verification is unavailable"
    );
    let plan = strategy_cli_bypass_plan(false);
    assert_eq!(plan.bypass_reason, "cache disabled");
    assert_eq!(plan.cache_mode_requested, "Off");
    let plan = strategy_cli_bypass_plan_with_reason(true, "why".to_string());
    assert_eq!((plan.bypass_reason.as_str(), plan.cache_mode_requested.as_str()), ("why", "FullDRACE"));
    assert!(!plan.cache_applied && plan.synthetic_cache_requested);
    let cache = uncached();
    assert_eq!(cache.bypass_reason, "unsupported_backend_cli");
    assert_eq!((cache.fallback_tokens, cache.llm_generated_tokens), (20, 20));
    assert_eq!(cache.prefix_total_tokens, 0);
    let mut plan = strategy_cli_bypass_plan(true);
    plan.bypass_reason = "  ".to_string();
    plan.cache_loaded = true;
    let caps = BackendCapabilities {
        supports_prefix_kv_cache: true,
        supports_prompt_token_cache: true,
        ..BackendCapabilities::cli()
    };
    let cache = build_strategy_stage_cache_perf(&caps, &plan, 10, 20);
    assert_eq!(cache.bypass_reason, strategy_cache_bypass_reason(true));
    assert!(cache.cache_supported && cache.prompt_token_cache_loaded && !cache.token_cache_loaded);
    let unverified =
        BackendCapabilities { supports_synthetic_token_cache: true, ..BackendCapabilities::cli() };
    let without = build_strategy_stage_cache_perf(&unverified, &plan, 10, 20);
    assert!(!without.token_cache_supported && !without.token_verification_supported);
    assert!(!without.cache_supported && !without.token_cache_loaded);
    let verified = BackendCapabilities { supports_token_verification: true, ..unverified };
    let with = build_strategy_stage_cache_perf(&verified, &plan, 10, 20);
    assert!(with.token_cache_supported && with.token_cache_loaded && with.cache_supported);
    assert_eq!(cache.prefix_total_tokens, 10);
}

#[test]
fn ratios_keep_their_parts() {
    assert_eq!(ratio_of(3, 4), Ratio { part: 3, whole: 4 });
    assert_eq!(ratio_of(3, 0), Ratio { part: 3, whole: 0 });
    assert_eq!(reduction_of(1, 3), Ratio { part: 1, whole: 4 });
    assert_eq!(reduction_of(0, 0), Ratio { part: 0, whole: 0 });
}

#[test]
fn stages_are_summed_up() {
    let mut cached = uncached();
    cached.cache_applied = true;
    cached.cache_mode_applied = "PrefixKV".to_string();
    cached.bypass_reason = String::new();
    cached.draft_provider = "template".to_string();
    cached.proposed_tokens = 8;
    cached.accepted_tokens = 6;
    cached.verify_batches = 2;
    cached.renderer_inserted_tokens = 20;
    let stages =
        vec![stage("a", uncached()), stage("b", uncached()), stage("c", cached)];
    let s = summarize_strategy_cache(&stages, true, "cli");
    assert_eq!(s.backend_type, "llama-server");
    assert!(s.cache_applied && !s.cache_warm && s.cache_requested);
    assert_eq!(s.cache_mode_applied, "PrefixKV");
    assert_eq!(s.cache_mode_requested, "FullDRACE");
    assert_eq!(s.bypass_reason, "unsupported_backend_cli");
    assert_eq!(s.draft_provider, "template");
    assert_eq!((s.proposed_tokens, s.accepted_tokens), (8, 6));
    assert_eq!(s.acceptance_ratio, Ratio { part: 6, whole: 8 });
    assert_eq!(s.accepted_tokens_per_verify, Ratio { part: 6, whole: 2 });
    assert_eq!(s.avg_proposed_batch_size, Ratio { part: 8, whole: 2 });
    assert_eq!(s.llm_generated_tokens, 60);
    assert_eq!(s.output_token_reduction_ratio, Ratio { part: 20, whole: 80 });
    assert_eq!(benchmark_phase(&s), "warmup");
    let none = summarize_strategy_cache(&[], false, "native");
    assert_eq!(none.backend_type, "native");
    assert_eq!((none.cache_mode_requested.as_str(), none.cache_mode_applied.as_str()), ("Off", "Off"));
    assert_eq!(none.draft_provider, "noop");
    assert_eq!(benchmark_phase(&none), "measured");
}

#[test]
fn a_run_that_was_not_asked_takes_the_mode_of_a_stage() {
    let s = summarize_strategy_cache(&[stage("a", uncached())], false, "cli");
    assert_eq!(s.cache_mode_requested, "FullDRACE");
    assert!(!s.cache_requested);
    let mut huge = uncached();
    huge.proposed_tokens = usize::MAX;
    let s = summarize_strategy_cache(&[stage("a", huge.clone()), stage("b", huge)], true, "cli");
    assert_eq!(s.proposed_tokens, usize::MAX);
}

#[test]
fn a_run_without_cached_stages_says_so() {
    let s = summarize_strategy_cache(&[stage("a", uncached()), stage("b", uncached())], true, "cli");
    assert!(!s.cache_applied);
    assert_eq!(s.cache_mode_applied, "Off");
}

#[test]
fn runs_are_measured() {
    let mut full = uncached();
    full.cache_mode_applied = "FullDRACE".to_string();
    full.token_cache_lookup_ms = 9;
    let mut second = stage("second", full);
    second.ttft_ms = Some(0);
    second.prompt_tokens = 40;
    second.model_path = "other".to_string();
    second.decode_ms = None;
    let mut third = stage("third", uncached());
    third.ttft_ms = Some(20);
    third.model_path = String::new();
    let stages = vec![stage("first", uncached()), second, third];
    let m = aggregate_strategy_perf_metrics(&identity(), true, 1000, "a b", &stages, "cli");
    assert_eq!((m.mode.as_str(), m.run_id.as_str(), m.case_hash.as_str()), ("analysis", "run", "c"));
    assert_eq!(m.ttft_ms, 20);
    assert_eq!(m.total_prompt_tokens, 40);
    assert_eq!(m.total_output_tokens, 2);
    assert_eq!(m.total_decode_ms, 140);
    assert_eq!(m.full_drace_applied_stages, vec!["second"]);
    assert_eq!(m.peak_memory_mb, 1000);
    assert_eq!((m.stage_execution_sum_ms, m.orchestration_overhead_ms), (300, 700));
    assert_eq!((m.prompt_build_ms, m.cache_lookup_ms), (6, 9));
    assert_eq!((m.process_spawn_ms, m.stdout_read_ms, m.postprocess_ms), (3, 9, 12));
    let m = aggregate_strategy_perf_metrics(&identity(), true, 0, "", &[], "cli");
    assert_eq!((m.total_e2e_ms, m.ttft_ms, m.orchestration_overhead_ms), (1, 1, 1));
    let m = aggregate_strategy_perf_metrics(&identity(), true, 50, "", &stages, "cli");
    assert_eq!(m.orchestration_overhead_ms, 0);
}
