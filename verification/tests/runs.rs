//! How a model is run for a stage, and how a record is gone over.

use roosycozy::drace::backends::LlamaServerConfig;
use roosycozy::drace::cache_manager::{
    BackendCapabilities, BackendKind, DraceCacheManager, HybridStage,
};
use roosycozy::drace::draft_provider::DraftProposal;
use roosycozy::engine::drafts::{unverified_draft, StrategyVerifiedDraftPrefix};
use roosycozy::engine::endpoints::{EndpointChoice, StrategyBackendRuntime};
use roosycozy::engine::execution::{
    after_stage_run, asks_for_cached_prompt, cli_arguments, cli_execution, draft_for_stage, extract_llama_server_answer,
    extract_llama_server_error, fall_back, first_backend, judge_cli_wait, llama_server_timing,
    native_execution, native_session_options, native_stage_cache, note_prefix_of_run,
    note_verified_draft, prefix_notice, prepare_execution, read_cli_answer, read_cli_text,
    read_native_answer, server_missing_notice,
    read_server_answer, retry_notice, runnable_model, server_execution, server_session_options,
    server_stage_cache, session_prompt, stage_announcement, stage_tuning, thousandths_text,
    verification_target, CliTimes, CliWait, Fallback, FirstBackend,
    PreparedExecution, RequestStep, RunTimes, ServerRequest, StageStep,
    StrategyModelExecution, VerifyTarget,
};
use roosycozy::engine::packet::StrategyEvidencePacket;
use roosycozy::engine::perf::Ratio;
use roosycozy::engine::review::{
    apply_strategy_record_renderer_stats, begin_review, finalize_strategy_record_stage_metrics,
    plan_record_review, read_review, rendered_notice, rendered_review, renderer_max_tokens,
    renderer_request, review_after_check, review_after_render, strategy_fast_hash_hex,
    strategy_try_render_record_without_llm, DataOutcome, ReviewStep, StrategyRecordReviewResult,
};
use roosycozy::engine::structured::StrategyStructuredReportDraft;
use roosycozy::json::parse;

fn server_capabilities() -> BackendCapabilities {
    BackendCapabilities {
        backend_kind: BackendKind::LlamaServer,
        supports_resident: true,
        supports_prefix_kv_cache: true,
        supports_prompt_cache: true,
        supports_token_verification: false,
        supports_batch_verification: false,
        supports_speculative_decode: false,
        supports_prompt_token_cache: false,
        supports_synthetic_token_cache: false,
        supports_mmap_cache_pack: false,
        supports_resident_model: true,
    }
}

fn config() -> LlamaServerConfig {
    LlamaServerConfig {
        hyperclova_url: String::new(),
        roosy_url: "http://127.0.0.1:9/completion".to_string(),
        cache_prompt: true,
        startup_timeout_ms: 90_000,
        request_timeout_ms: 240_000,
        hyperclova_slot: Some(1),
        roosy_slot: Some(0),
    }
}

fn runtime(capabilities: BackendCapabilities, server: bool) -> StrategyBackendRuntime {
    StrategyBackendRuntime {
        capabilities,
        llama_server: if server { Some(config()) } else { None },
        llama_server_available: server,
        llama_server_unavailable_reason: String::new(),
    }
}

fn cli_run(cache: bool) -> PreparedExecution {
    let mut manager = DraceCacheManager::new_cli();
    prepare_execution(
        &mut manager,
        &runtime(BackendCapabilities::cli(), false),
        "hyperclova-x",
        HybridStage::RecordMain,
        " sys ",
        " user ",
        100,
        320,
        99,
        cache,
    )
}

fn server_run(manager: &mut DraceCacheManager) -> PreparedExecution {
    prepare_execution(
        manager,
        &runtime(server_capabilities(), true),
        "hyperclova-x",
        HybridStage::RecordMain,
        "sys",
        "[질문]\n무엇",
        9000,
        320,
        4,
        true,
    )
}

fn packet() -> StrategyEvidencePacket {
    StrategyEvidencePacket {
        mode: "direct".to_string(),
        case_title: String::new(),
        focus_summary: String::new(),
        overview: String::new(),
        actor_summary: vec![],
        timeline_summary: vec![],
        risk_summary: vec![],
        gaps: vec![],
        evidence_records: vec![],
        legal_references: vec![],
    }
}

fn times() -> CliTimes {
    CliTimes {
        e2e_ms: 900,
        first_stdout_ms: 0,
        process_spawn_ms: 3,
        prompt_file_write_ms: 4,
        stdout_read_ms: 5,
        postprocess_ms: 6,
    }
}

fn execution(answer: &str) -> StrategyModelExecution {
    let p = cli_run(true);
    cli_execution(&p, "초안", answer.to_string(), "/r", "/m", 7, times(), p.cache.clone())
}

#[test]
fn the_two_models_are_not_run_at_once() {
    assert_eq!(runnable_model(" ROOSY-x "), Ok("roosy-x"));
    assert_eq!(runnable_model("other"), Ok("hyperclova-x"));
    assert_eq!(runnable_model("roosy-hybrid").unwrap_err(), "하이브리드 모델은 직접 실행할 수 없어요.");
    let t = stage_tuning(HybridStage::RecordReview);
    assert_eq!((t.temperature_milli, t.top_p_milli, t.repeat_penalty_milli), (0, 1000, 1050));
    let t = stage_tuning(HybridStage::RecordFill);
    assert_eq!((t.temperature_milli, t.top_p_milli, t.repeat_penalty_milli), (150, 850, 1120));
    assert_eq!(
        [thousandths_text(0), thousandths_text(150), thousandths_text(1005), thousandths_text(2000), thousandths_text(1120)],
        ["0", "0.15", "1.005", "2", "1.12"]
    );
}

#[test]
fn a_stage_is_made_ready() {
    let p = cli_run(true);
    assert_eq!((p.system_prompt.as_str(), p.user_prompt.as_str()), ("sys", "user"));
    assert_eq!((p.runtime.n_ctx, p.runtime.threads, p.runtime.device), (2048, 12, "none"));
    assert_eq!((p.prompt_chars, p.prompt_tokens), (7, 2));
    assert!(p.prefix.is_none() && p.plan.cache_requested && !p.plan.cache_applied);
    assert_eq!(
        stage_announcement(&p, "", "m.gguf", "r"),
        vec![
            "실행 단계에서 HyperCLOVA-X(m.gguf)를 준비했어요.",
            "HyperCLOVA-X · 실행기 r · 프롬프트 7자 · 컨텍스트 2048 · 최대 토큰 320 · 스레드 12 · 장치 cpu",
            "이번 단계의 DRaCE 캐시는 자동 우회할게요. unsupported_backend_cli",
        ]
    );
    assert_eq!(cli_run(false).plan.bypass_reason, "cache disabled");
    assert!(draft_for_stage(&p, true, false).is_none());
    let args = cli_arguments(&p, "/m", "s.txt", "u.txt");
    assert_eq!(args.len(), 35);
    assert_eq!(
        args.join(" "),
        "-m /m -c 2048 -n 320 -t 12 --threads-batch 12 --temp 0.15 --top-p 0.85 --repeat-penalty 1.12 --parallel 1 --simple-io --no-display-prompt --no-show-timings --single-turn --no-warmup --device none --n-gpu-layers 0 --color off --log-colors off --system-prompt-file s.txt --file u.txt"
    );
}

#[test]
fn a_prefix_grows_warm() {
    let mut manager = DraceCacheManager::new_cli();
    manager.configure_backend(server_capabilities());
    let p = server_run(&mut manager);
    let note = p.prefix.as_ref().unwrap();
    assert_eq!((p.runtime.n_ctx, p.plan.use_prefix_kv_cache, p.cache.prefix_kv_applied), (4096, true, true));
    assert!(!manager.is_prefix_warm("hyperclova-x", &note.id, Some(1), Some(note.hash)));
    let cold = server_stage_cache(&p.cache, true, true, true, false, note.tokens);
    assert!(!cold.cache_applied && !cold.prefix_kv_applied && !cold.cache_warm);
    assert_eq!((cold.cache_mode_applied.as_str(), cold.bypass_reason.as_str()), ("Off", "cold cache"));
    assert_eq!((cold.prefix_total_tokens, cold.prefix_reused_tokens), (note.tokens, 0));
    assert!(!note_prefix_of_run(&mut manager, &p.cache, false, false, "hyperclova-x", note, Some(1)));
    assert!(note_prefix_of_run(&mut manager, &p.cache, true, false, "hyperclova-x", note, Some(1)));
    assert!(manager.is_prefix_warm("hyperclova-x", &note.id, Some(1), Some(note.hash)));
    let warm = server_stage_cache(&p.cache, true, true, true, true, note.tokens);
    assert_eq!((warm.cache_warm, warm.prefix_reused_tokens), (true, note.tokens));
    assert!(warm.cache_applied && warm.prefix_kv_applied && warm.bypass_reason.is_empty());
    assert_eq!(warm.cache_mode_applied, p.cache.cache_mode_applied);
    assert!(!note_prefix_of_run(&mut manager, &p.cache, true, true, "hyperclova-x", note, Some(1)));
    let mut drafted = p.cache.clone();
    drafted.synthetic_cache_applied = true;
    let drafted = server_stage_cache(&drafted, true, true, true, false, note.tokens);
    assert!(drafted.cache_applied && !drafted.cache_warm && !drafted.prefix_kv_applied);
    assert_eq!((drafted.cache_mode_applied.as_str(), drafted.bypass_reason.as_str()), ("FullDRACE", ""));
    assert!(asks_for_cached_prompt(&p.cache, &config()));
    assert!(!asks_for_cached_prompt(&drafted, &config()));
    let mut plain = p.cache.clone();
    plain.bypass_reason = " ".to_string();
    let refused = server_stage_cache(&plain, true, true, false, false, note.tokens);
    assert_eq!((refused.cache_applied, refused.cache_mode_applied.as_str()), (false, "Off"));
    assert_eq!(refused.bypass_reason, "prefix_kv_slot_saturated");
    let never = server_stage_cache(&plain, false, false, false, false, note.tokens);
    assert_eq!(never.bypass_reason, "cache_prompt_disabled");
    assert_eq!(
        server_stage_cache(&plain, true, false, false, false, 1).bypass_reason,
        "prefix_kv_not_planned"
    );
    assert_eq!(prefix_notice(true, 255, 9), "DRaCE PrefixKV warm hit · hash 00000000000000ff · reused 9 tokens");
    assert_eq!(prefix_notice(false, 1, 9), "DRaCE PrefixKV cold start · hash 0000000000000001 · warmup 9 tokens");
    let lines = stage_announcement(&p, "초안1", "m", "r");
    assert_eq!(lines.len(), 3);
    assert!(lines[2].starts_with("DRaCE static prefix hyperclova-x::record_main"));
    let o = server_session_options(&p, "e", "/m", Some(1), false, "", 5);
    assert_eq!((o.slot, o.cache_prompt, o.assistant_prefix), (None, false, None));
    let o = server_session_options(&p, "e", "/m", Some(1), true, "앞", 5);
    assert_eq!((o.slot, o.cache_prompt, o.assistant_prefix.as_deref()), (Some(1), true, Some("앞")));
    assert_eq!(session_prompt(" a ", " b "), "a\n\nb");
}

#[test]
fn backends_are_fallen_back_from() {
    assert!(matches!(first_backend(&runtime(server_capabilities(), true)), FirstBackend::Server));
    assert!(matches!(first_backend(&runtime(BackendCapabilities::cli(), true)), FirstBackend::Cli));
    match first_backend(&runtime(server_capabilities(), false)) {
        FirstBackend::FallBack(Fallback::ServerUnavailable(why)) => {
            assert_eq!(why, "llama_server_unavailable")
        }
        _ => panic!("no fallback"),
    }
    let mut none = runtime(server_capabilities(), true);
    none.llama_server = None;
    assert!(matches!(first_backend(&none), FirstBackend::FallBack(Fallback::ServerMissing)));
    none.capabilities.backend_kind = BackendKind::Native;
    assert!(matches!(first_backend(&none), FirstBackend::Native));
    let (cache, notice) = fall_back(&Fallback::ServerFailed("e".repeat(300)), true, 9);
    assert_eq!(cache.bypass_reason, "llama_server_request_failed: ".to_string() + &"e".repeat(240));
    assert_eq!(notice.unwrap(), "resident backend가 응답하지 않아 CLI baseline으로 안전하게 되돌릴게요. ".to_string() + &"e".repeat(220));
    let (cache, notice) = fall_back(&Fallback::ServerMissing, true, 9);
    assert_eq!((cache.bypass_reason.as_str(), notice), ("llama_server_endpoint_missing", None));
    assert!(fall_back(&Fallback::NativeFailed("x".to_string()), true, 9).1.unwrap().starts_with("native backend가"));
    assert!(fall_back(&Fallback::ServerUnavailable("x".to_string()), true, 9).1.unwrap().starts_with("resident backend healthcheck가"));
}

#[test]
fn requests_are_tried_again() {
    let full = "the prompt exceeds the available Context Size";
    let mut q = ServerRequest::new(true);
    assert!(matches!(q.step(), RequestStep::Send { cached: true }));
    q.take_reply(Some(full));
    assert!(matches!(q.step(), RequestStep::Send { cached: false }));
    assert!(retry_notice(q.step()).unwrap().starts_with("resident slot이"));
    q.take_reply(Some(full));
    assert!(matches!(q.step(), RequestStep::Restart));
    assert!(retry_notice(q.step()).unwrap().starts_with("resident backend 컨텍스트가"));
    q.take_restart(None);
    assert!(matches!(q.step(), RequestStep::Send { cached: false }));
    q.take_reply(None);
    assert!(matches!(q.step(), RequestStep::Answered { cached: false }));

    let failed = |q: &ServerRequest| match q.step() {
        RequestStep::Failed(e) => e.clone(),
        _ => panic!("not failed"),
    };
    let mut q = ServerRequest::new(true);
    q.take_reply(Some(full));
    q.take_reply(Some("b"));
    assert_eq!(failed(&q), format!("{}; uncached_retry_failed: b", full));
    assert!(retry_notice(q.step()).is_none());
    let mut q = ServerRequest::new(false);
    q.take_reply(Some(full));
    q.take_restart(Some("c"));
    assert_eq!(failed(&q), format!("{}; restart_failed: c", full));
    let mut q = ServerRequest::new(false);
    q.take_reply(Some("a"));
    assert_eq!(failed(&q), "a");
    let mut q = ServerRequest::new(false);
    q.take_reply(Some(full));
    q.take_restart(None);
    q.take_reply(Some(full));
    assert_eq!(failed(&q), full);
}

#[test]
fn replies_are_read() {
    let doc = |s: &str| parse(s).unwrap();
    assert_eq!(extract_llama_server_answer(&doc("{\"content\":\" \",\"choices\":[{},{\"message\":{\"content\":\" 답 \"}}]}")).as_deref(), Some("답"));
    assert_eq!(extract_llama_server_error(&doc("{\"error\":{\"message\":\" 나쁨 \"}}")).as_deref(), Some("나쁨"));
    assert_eq!(extract_llama_server_error(&doc("{\"error\":\" \",\"detail\":\"d\"}")).as_deref(), Some("d"));
    assert_eq!(extract_llama_server_error(&doc("{\"error\":\"e\"}")).as_deref(), Some("e"));
    assert_eq!(extract_llama_server_error(&doc("{\"message\":\"m\"}")).as_deref(), Some("m"));
    assert_eq!(extract_llama_server_error(&doc("[1]")), None);
    assert_eq!(llama_server_timing(&doc("{\"timings\":{\"prompt_ms\":12.5}}"), "prompt_ms").as_deref(), Some("12.5"));
    assert_eq!(llama_server_timing(&doc("{\"timings\":{\"prompt_ms\":\"12\"}}"), "prompt_ms"), None);
    assert_eq!(read_server_answer(&doc("{\"content\":\"답<|stop|>\"}"), "앞"), Ok("앞답".to_string()));
    assert_eq!(
        read_server_answer(&doc("{\"content\":\"...\",\"error\":\"꽉 참\"}"), "앞").unwrap_err(),
        "llama-server가 비어 있는 응답을 반환했어요: 꽉 참"
    );
    assert_eq!(
        read_server_answer(&doc("{}"), "").unwrap_err(),
        "llama-server가 비어 있는 응답을 반환했어요: llama-server가 비어 있는 응답을 반환했어요."
    );
    assert_eq!(read_native_answer(" 답 "), Ok("답".to_string()));
    assert_eq!(read_native_answer("...").unwrap_err(), "native backend가 비어 있는 응답을 반환했어요.");
}

#[test]
fn runs_are_recorded() {
    let p = cli_run(true);
    let r = execution("가나다라마바사아");
    assert_eq!((r.runner.as_str(), r.model_path.as_str(), r.prompt_chars), ("/r", "/m", 7));
    let m = &r.metrics;
    assert_eq!((m.stage_name.as_str(), m.backend_kind.as_str(), m.peak_memory_mb), ("초안", "cli", 7));
    assert_eq!((m.e2e_ms, m.ttft_ms, m.decode_ms, m.prompt_eval_ms), (900, Some(1), Some(899), None));
    assert_eq!((m.output_tokens, m.cache.fallback_tokens), (2, 2));
    let t = RunTimes { e2e_ms: 0, prompt_eval_ms: None, decode_ms: Some(4), response_started_ms: 30 };
    let r = server_execution(&p, "s", "답".to_string(), "llama-server@e", "/m", 0, t, p.cache.clone());
    assert_eq!((r.metrics.e2e_ms, r.metrics.ttft_ms, r.metrics.stdout_read_ms), (1, Some(30), 30));
    let t = RunTimes { prompt_eval_ms: Some(0), ..t };
    let r = server_execution(&p, "s", "답".to_string(), "llama-server@e", "/m", 0, t, p.cache.clone());
    assert_eq!(r.metrics.ttft_ms, Some(1));
    let r = native_execution(&p, "s", "답".to_string(), "/m", 0, t, Some(77), native_stage_cache(&p.cache));
    assert_eq!((r.metrics.output_tokens, r.metrics.ttft_ms, r.runner.as_str()), (77, Some(30), "libllama(native)"));
    assert_eq!(r.metrics.cache.cache_mode_applied, "Off");
    let o = native_session_options(&p, "/m", Some("앞".to_string()));
    assert_eq!((o.temperature_milli, o.top_p_milli, o.slot, o.assistant_prefix.as_deref()), (0, 850, None, Some("앞")));
}

#[test]
fn started_models_are_waited_for() {
    assert!(matches!(judge_cli_wait("M", 4, 0), CliWait::Wait));
    match judge_cli_wait("M", 5, 0) {
        CliWait::Report(line) => assert_eq!(line, "M 응답을 기다리는 중이에요. 5초 경과했어요."),
        _ => panic!("no report"),
    }
    assert!(matches!(judge_cli_wait("M", 9, 5), CliWait::Wait));
    assert!(matches!(judge_cli_wait("M", 100_000, 0), CliWait::Stop(_)));
    let read = |timed_out, success, out: &str| read_cli_answer("M", "/r", timed_out, success, out.as_bytes(), " err ", &packet(), "q");
    assert_eq!(read(false, true, "답\n"), Ok("답".to_string()));
    assert_eq!(read(false, false, "답\n"), Ok("답".to_string()));
    assert!(read(true, true, "답").unwrap_err().ends_with("초 안에 끝나지 않아 중단했어요. 마지막 로그: err"));
    assert_eq!(read(false, false, "").unwrap_err(), "M 실행이 완료되지 않았어요. runner=/r / stderr: err");
    assert_eq!(read(false, true, "...").unwrap_err(), "M가 빈 응답을 반환했어요.");
    assert_eq!(read_cli_text("M", "/r", false, true, "답\n", "", &packet(), "q"), Ok("답".to_string()));
}

#[test]
fn a_failed_cached_run_is_made_once_more() {
    let failed = || Err::<StrategyModelExecution, String>("e".to_string());
    for (cache, prefixed) in [(true, true), (false, false), (false, true)] {
        let (step, notice) = after_stage_run(cache, prefixed, failed());
        assert!(matches!(step, StageStep::Failed(e) if e == "e") && notice.is_none());
    }
    let (step, notice) = after_stage_run(true, false, failed());
    assert!(matches!(step, StageStep::Run { cache: false }));
    assert_eq!(
        notice.unwrap(),
        "DRaCE 캐시 경로가 잠시 흔들려 캐싱 없이 한 번 더 시도할게요. e"
    );
    let (step, notice) = after_stage_run(true, false, Ok(execution("답")));
    assert!(matches!(step, StageStep::Answered(run) if run.answer == "답") && notice.is_none());
}

fn proposal(n: usize) -> DraftProposal {
    DraftProposal {
        provider_name: "template".to_string(),
        token_ids: vec![1; n],
        rendered_fragments: vec![],
    }
}

fn accepted(text: &str) -> StrategyVerifiedDraftPrefix {
    StrategyVerifiedDraftPrefix {
        accepted_text: text.to_string(),
        proposed_tokens: 8,
        accepted_tokens: 6,
        rejected_tokens: 2,
        verification_batches: 2,
        accepted_tokens_per_verify: Ratio { part: 6, whole: 2 },
        synthetic_applied: true,
        bypass_reason: String::new(),
    }
}

#[test]
fn drafts_are_noted() {
    let p = cli_run(true);
    let (c, prefix) = note_verified_draft(p.cache.clone(), &p.plan, "template", &accepted("앞"));
    assert_eq!(prefix.as_deref(), Some("앞"));
    assert_eq!((c.cache_applied, c.cache_mode_applied.as_str(), c.rejected_batches), (true, "FullDRACE", 1));
    let (c, prefix) = note_verified_draft(p.cache.clone(), &p.plan, "template", &unverified_draft(&proposal(3)));
    assert_eq!((prefix, c.bypass_reason.as_str()), (None, "unsupported_backend_cli"));

    let mut rt = runtime(server_capabilities(), true);
    assert!(matches!(verification_target(&rt, "roosy-x", HybridStage::RecordFill, &proposal(3)), VerifyTarget::Skip));
    rt.capabilities.supports_token_verification = true;
    assert!(matches!(verification_target(&rt, "roosy-x", HybridStage::RecordFill, &proposal(0)), VerifyTarget::Skip));
    match verification_target(&rt, "roosy-x", HybridStage::RecordFill, &proposal(3)) {
        VerifyTarget::Server { choice: EndpointChoice::Fixed(url), slot, cache_prompt, timeout_ms } => {
            assert_eq!(url, "http://127.0.0.1:9/completion");
            assert_eq!((slot, cache_prompt, timeout_ms), (Some(0), true, 12_000));
        }
        _ => panic!("no server"),
    }
    match verification_target(&rt, "hyperclova-x", HybridStage::RecordFill, &proposal(3)) {
        VerifyTarget::Server { choice: EndpointChoice::Managed, slot, .. } => assert_eq!(slot, Some(12)),
        _ => panic!("no server"),
    }
    rt.capabilities.backend_kind = BackendKind::Native;
    assert!(matches!(verification_target(&rt, "m", HybridStage::RecordFill, &proposal(3)), VerifyTarget::Native));
}

#[test]
fn a_review_goes_its_way() {
    assert_eq!(begin_review(false), ReviewStep::Read);
    assert_eq!(begin_review(true), ReviewStep::CheckDraft);
    assert_eq!(review_after_check(true), ReviewStep::Render { prefixed: true });
    let (step, line) = review_after_render(true, DataOutcome::Failed, "e", 0);
    assert_eq!(step, ReviewStep::Render { prefixed: false });
    assert_eq!(line, "검증 prefix 경로가 잠시 흔들려 PrefixKV 경로로 이어갈게요. e");
    let (step, line) = review_after_render(false, DataOutcome::Failed, "e", 0);
    assert_eq!((step, line.as_str()), (ReviewStep::Read, "템플릿 렌더러 단계가 잠시 흔들려 기존 검토 경로로 이어갈게요. e"));
    assert_eq!(review_after_render(false, DataOutcome::Unreadable, "", 0).0, ReviewStep::Read);
    let (step, line) = review_after_render(true, DataOutcome::Given, "", 21);
    assert_eq!(step, ReviewStep::Rendered { prefixed: true });
    assert_eq!(line, "템플릿 렌더러로 고정 섹션 21토큰 정도를 앱에서 채우고, 모델은 핵심 JSON만 생성했어요.");
    assert_eq!([renderer_max_tokens(1), renderer_max_tokens(300), renderer_max_tokens(900)], [260, 300, 360]);
    let q = renderer_request(&packet(), None, "m", None, "d", 100, 300, true, Some("x".to_string()));
    assert_eq!((q.n_ctx, q.max_tokens, q.label, q.prefix.as_deref()), (3584, 300, "점검", Some("x")));
    assert_eq!(strategy_fast_hash_hex("a").len(), 16);
    assert_ne!(strategy_fast_hash_hex("a"), strategy_fast_hash_hex("b"));
}

const DRAFT: &str = "[상황 요약]\n요약문\n[핵심 포인트]\n쟁점";

#[test]
fn a_record_is_rendered_without_a_model() {
    let mut manager = DraceCacheManager::new_cli();
    let plan = plan_record_review(&manager, DRAFT, true);
    assert!(strategy_try_render_record_without_llm(&plan, &packet(), "m", DRAFT, "{}", "지금").is_none());
    manager.configure_backend(server_capabilities());
    let plan = plan_record_review(&manager, DRAFT, true);
    assert_eq!((plan.provider.as_str(), plan.proposal.token_ids.len()), ("template", 8));
    assert!(strategy_try_render_record_without_llm(&plan, &packet(), "m", "없음", "{}", "지금").is_none());
    let done = strategy_try_render_record_without_llm(&plan, &packet(), "m", DRAFT, "aaaa", "지금").unwrap();
    assert!(done.answer.contains("[상황 요약]\n요약문") && done.metrics.is_none());
    let stats = done.renderer_stats.as_ref().unwrap();
    assert_eq!((stats.proposed_tokens, stats.rejected_tokens, stats.accepted_tokens), (8, 8, 0));
    assert_eq!((stats.renderer_inserted_tokens, stats.llm_generated_tokens), (21, 3));
    assert_eq!((stats.output_token_reduction_ratio.part, stats.output_token_reduction_ratio.whole), (21, 22));
    assert_eq!(
        rendered_notice(21),
        "고정 섹션 약 21토큰은 앱에서 바로 렌더링할 수 있어 Roosy/합성 단계를 줄였어요."
    );
    let stages = finalize_strategy_record_stage_metrics(vec![execution("답")].into_iter().map(|e| e.metrics).collect(), &done);
    assert_eq!((stages.len(), stages[0].cache.renderer_inserted_tokens, stages[0].cache.proposed_tokens), (1, 21, 8));
    assert!(!stages[0].cache.cache_applied);
    let mut none = vec![];
    apply_strategy_record_renderer_stats(&mut none, stats);
    assert_eq!(none.len(), 0);
}

#[test]
fn a_record_is_rendered_from_data() {
    let mut manager = DraceCacheManager::new_cli();
    manager.configure_backend(server_capabilities());
    let plan = plan_record_review(&manager, DRAFT, true);
    let data = StrategyStructuredReportDraft {
        summary: "새 요약".to_string(),
        actors: vec![],
        timeline: vec![],
        issues: vec![],
        evidence: vec![],
        recommended_questions: vec![],
    };
    let run = execution("가나다라마바사아");
    let loaded = run.metrics.cache.cache_loaded;
    let r = rendered_review(run.clone(), &plan, &accepted("앞"), true, &data, "aaaa", &packet(), "m", DRAFT, "지금");
    assert!(r.answer.contains("[상황 요약]\n새 요약"));
    let m = r.metrics.as_ref().unwrap();
    assert_eq!((m.cache.cache_mode_applied.as_str(), m.cache.bypass_reason.as_str()), ("FullDRACE", ""));
    assert!(m.cache.cache_applied);
    assert_eq!((m.cache.accepted_tokens, m.cache.rejected_tokens, m.cache.fallback_decode_tokens), (6, 2, 0));
    let r = rendered_review(run, &plan, &accepted("앞"), false, &data, "aaaa", &packet(), "m", DRAFT, "지금");
    let m = r.metrics.as_ref().unwrap();
    assert_eq!((m.cache.cache_mode_applied.as_str(), m.cache.synthetic_cache_applied), ("Off", false));
    assert!(plan.plan.cache_applied && !m.cache.cache_applied);
    assert_eq!(m.cache.cache_loaded, loaded);
    let mut warm = execution("가나다라마바사아");
    warm.metrics.cache.prefix_kv_applied = true;
    let reused = rendered_review(warm, &plan, &accepted("앞"), false, &data, "aaaa", &packet(), "m", DRAFT, "지금");
    let m = reused.metrics.as_ref().unwrap();
    assert_eq!((m.cache.cache_mode_applied.as_str(), m.cache.cache_applied), ("PrefixKV+TemplateRenderer", true));
    let stages = finalize_strategy_record_stage_metrics(vec![], &r);
    assert_eq!(stages.len(), 1);
}

#[test]
fn a_record_is_read_again() {
    let (r, line) = read_review(Ok(execution("새 기록")), "초안");
    assert_eq!((r.answer.as_str(), line.as_str()), ("새 기록", "평가 매트릭 점검 후 기록 초안을 4자로 다시 정리했어요."));
    let (r, line): (StrategyRecordReviewResult, String) = read_review(Err("e".to_string()), "초안");
    assert_eq!((r.answer.as_str(), r.metrics.is_none()), ("초안", true));
    assert_eq!(line, "기록 품질 점검 단계가 잠시 흔들려 기존 초안을 유지할게요. e");
}

#[test]
fn a_model_started_anew_is_given_the_same_with_and_without_the_cache() {
    let with = cli_run(true);
    let without = cli_run(false);
    assert_eq!(with.system_prompt, without.system_prompt);
    assert_eq!(with.user_prompt, without.user_prompt);
    assert_eq!(
        cli_arguments(&with, "m.gguf", "s.txt", "u.txt"),
        cli_arguments(&without, "m.gguf", "s.txt", "u.txt")
    );
    assert!(draft_for_stage(&with, true, false).is_none());
    assert!(!with.plan.cache_applied);
    assert_eq!(with.plan.cache_mode_applied, "Off");
    assert_eq!(with.plan.bypass_reason, "unsupported_backend_cli");
    assert_eq!(without.plan.bypass_reason, "cache disabled");
    let mut down = runtime(BackendCapabilities::cli(), false);
    assert_eq!(server_missing_notice(&down, true), None);
    down.llama_server_unavailable_reason = "llama_server_endpoint_missing".to_string();
    let mut manager = DraceCacheManager::new_cli();
    let stage = HybridStage::RecordMain;
    let p = prepare_execution(&mut manager, &down, "roosy-x", stage, "s", "u", 4096, 320, 4, true);
    assert_eq!(p.plan.bypass_reason, "unsupported_backend_cli");
    assert_eq!(p.cache.bypass_reason, "unsupported_backend_cli");
    assert_eq!(
        server_missing_notice(&down, true).unwrap(),
        "resident backend를 쓸 수 없어 CLI baseline으로 실행할게요. llama_server_endpoint_missing"
    );
    assert_eq!(server_missing_notice(&down, false), None);
}
