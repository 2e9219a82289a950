//! The cache of prompt prefixes and the backends.

use roosycozy::drace::backends::{
    accept_common_prefix, detect_backend_runtime, env_flag, env_u32_opt, env_u64,
    extract_backend_answer, extract_backend_error, is_loopback_completion_url, read_reply,
    token_ids_to_text, trim_backend_debug, BackendEnvironment, GenerationSessionOptions,
    LlamaServerConfig, LlamaServerSessionBackend,
};
use roosycozy::drace::cache_manager::{
    estimate_tokens, BackendCapabilities, BackendKind, DraceCacheManager, HybridStage,
};
use roosycozy::drace::draft_provider::{
    DraftProvider, DraftProviderState, NoopDraftProvider, TemplateDraftProvider,
};
use roosycozy::drace::hashing::{hash_text, hex_encode};
use roosycozy::drace::native_backend::{
    batch_rows, context_setup, first_token_capacity, native_dependencies,
    native_library_candidates, native_verifier_available, next_piece_capacity, next_token_capacity,
    piece_text, CheckStep, DraftCheck, NativeGeneration,
};
use roosycozy::drace::prompt_segments::{
    fast_hash64, render_prompt_segments, PromptSegment, PromptSegmentKind,
};
use roosycozy::drace::synthetic_token_cache::{
    build_semantic_prompt_signature, prepare_synthetic_token_cache, windowed_hash,
};
use roosycozy::json::parse;
use std::hash::{Hash, Hasher};

/// A server that would also verify tokens.
fn server() -> BackendCapabilities {
    BackendCapabilities {
        backend_kind: BackendKind::LlamaServer,
        supports_resident: true,
        supports_prefix_kv_cache: true,
        supports_prompt_cache: true,
        supports_token_verification: true,
        supports_batch_verification: true,
        supports_speculative_decode: false,
        supports_prompt_token_cache: false,
        supports_synthetic_token_cache: true,
        supports_mmap_cache_pack: false,
        supports_resident_model: true,
    }
}

fn manager(caps: BackendCapabilities) -> DraceCacheManager {
    let mut m = DraceCacheManager::new_cli();
    m.configure_backend(caps);
    m
}

fn nothing_set() -> BackendEnvironment {
    BackendEnvironment {
        backend: None,
        hyperclova_url: None,
        roosy_url: None,
        disable_native_verifier: None,
        enable_native_verifier: None,
        experimental_native_backend: None,
        disable_cache_prompt: None,
        startup_timeout_ms: None,
        request_timeout_ms: None,
        hyperclova_slot: None,
        roosy_slot: None,
        native_library_found: false,
    }
}

fn session_options() -> GenerationSessionOptions {
    GenerationSessionOptions {
        model_id: "hyperclova".to_string(),
        endpoint: "http://127.0.0.1:18081/completion".to_string(),
        model_path: None,
        slot: Some(3),
        cache_prompt: true,
        assistant_prefix: Some("{\"a".to_string()),
        n_ctx: Some(4096),
        threads: Some(4),
        max_tokens: 256,
        temperature_milli: 200,
        top_p_milli: 900,
        repeat_penalty_milli: 1080,
        request_timeout_ms: 1000,
    }
}

#[test]
fn hashes_are_those_of_the_libraries() {
    let mut hasher = std::collections::hash_map::DefaultHasher::new();
    "기록".hash(&mut hasher);
    assert_eq!(fast_hash64("기록"), hasher.finish());
    assert_ne!(fast_hash64("a"), fast_hash64("b"));
    assert_eq!(
        hash_text("abc"),
        "ba7816bf8f01cfea414140de5dae2223b00361a396177a9cb410ff61f20015ad"
    );
    assert_eq!(
        hash_text(""),
        "e3b0c44298fc1c149afbf4c8996fb92427ae41e4649b934ca495991b7852b855"
    );
    assert_eq!(hex_encode(&[0, 10, 255]), "000aff");
}

#[test]
fn segments_are_normalised_and_joined() {
    let a = PromptSegment::static_segment(
        PromptSegmentKind::StaticSystemPrefix,
        "system",
        " one\r\ntwo\rthree ",
    );
    assert_eq!(a.text, "one\ntwo\nthree");
    assert_eq!(a.stable_id, Some("system".to_string()));
    assert!(a.is_static);
    assert_eq!(a.content_hash, fast_hash64("one\ntwo\nthree"));
    let b = PromptSegment::dynamic_segment(PromptSegmentKind::DynamicUserMessage, "  ");
    assert_eq!(b.stable_id, None);
    assert!(!b.is_static);
    let c = PromptSegment::dynamic_segment(PromptSegmentKind::DynamicConversation, "q");
    assert_eq!(render_prompt_segments(&[a, b, c]), "one\ntwo\nthree\n\nq");
}

#[test]
fn kinds_have_their_ranks_and_names() {
    assert_eq!(PromptSegmentKind::StaticOutputFormat.order_rank(), 3);
    assert_eq!(PromptSegmentKind::DynamicCaseContext.order_rank(), 10);
    assert_eq!(PromptSegmentKind::DynamicDraftArtifacts.order_rank(), 15);
    assert_eq!(PromptSegmentKind::DynamicLegalRefs.label(), "DynamicLegalRefs");
    assert_eq!(HybridStage::RecordRecovery.as_str(), "record_recovery");
    assert!(HybridStage::RecordMain.is_cache_friendly());
    assert!(!HybridStage::RecordFill.is_cache_friendly());
}

#[test]
fn prompts_are_prepared_in_order() {
    let mut m = manager(server());
    let system = vec![
        PromptSegment::dynamic_segment(PromptSegmentKind::DynamicEvidencePacket, "evidence"),
        PromptSegment::static_segment(PromptSegmentKind::StaticOutputFormat, "f", "format"),
        PromptSegment::static_segment(PromptSegmentKind::StaticSystemPrefix, "s", "prefix"),
    ];
    let user = vec![
        PromptSegment::dynamic_segment(PromptSegmentKind::DynamicUserMessage, "second"),
        PromptSegment::dynamic_segment(PromptSegmentKind::DynamicCaseContext, "first"),
    ];
    let p = m.prepare_prompt(" m ", HybridStage::RecordReview, true, system, user, 200);
    assert_eq!(p.rendered_system, "prefix\n\nformat\n\nevidence");
    assert_eq!(p.rendered_user, "first\n\nsecond");
    assert_eq!(
        p.system_segment_order,
        vec!["StaticSystemPrefix", "StaticOutputFormat", "DynamicEvidencePacket"]
    );
    assert_eq!(p.static_prefix.id, "m::record_review");
    assert_eq!(p.static_prefix.text, "prefix\n\nformat");
    assert_eq!(p.static_prefix.estimated_tokens, 3);
    assert_eq!(p.static_prefix_previous_hash, None);
    assert_eq!(p.plan.cache_mode_applied, "FullDRACE");
    assert_eq!(p.plan.max_candidate_tokens, 16);
    assert_eq!(p.plan.draft_provider, "template");
    assert_eq!(p.plan.bypass_reason, "");
}

#[test]
fn a_prefix_is_known_once() {
    let mut m = manager(server());
    let segments = |text: &str| {
        vec![PromptSegment::static_segment(PromptSegmentKind::StaticSystemPrefix, "s", text)]
    };
    let (first, none) = m.ensure_static_prefix("m", HybridStage::RecordMain, &segments("one"));
    assert_eq!(none, None);
    let (again, none) = m.ensure_static_prefix("m", HybridStage::RecordMain, &segments("one"));
    assert_eq!(none, None);
    assert_eq!(again.content_hash, first.content_hash);
    assert_eq!(m.static_prefixes_for_model(" m ").len(), 1);
    let (changed, previous) = m.ensure_static_prefix("m", HybridStage::RecordMain, &segments("two"));
    assert_eq!(previous, Some(first.content_hash));
    assert_eq!(changed.text, "two");
    assert_eq!(m.static_prefixes_for_model("m").len(), 1);
    m.ensure_static_prefix("other", HybridStage::RecordMain, &segments("two"));
    assert_eq!(m.static_prefixes_for_model("m").len(), 1);
    assert_eq!(m.static_prefixes_for_model("none").len(), 0);
}

#[test]
fn a_model_keeps_the_last_prefix_of_each_stage() {
    let mut m = DraceCacheManager::new_cli();
    let segments = |text: &str| {
        vec![PromptSegment::static_segment(PromptSegmentKind::StaticSystemPrefix, "s", text)]
    };
    m.ensure_static_prefix("a", HybridStage::RecordMain, &segments("one"));
    m.ensure_static_prefix(" a::b ", HybridStage::RecordMain, &segments("two"));
    m.ensure_static_prefix("a", HybridStage::RecordFill, &segments("three"));
    m.ensure_static_prefix(" a ", HybridStage::RecordMain, &segments("four"));
    let listed = m.static_prefixes_for_model("a");
    let mut texts: Vec<&str> = listed.iter().map(|p| p.text.as_str()).collect();
    texts.sort();
    assert_eq!(texts, vec!["four", "three"]);
    assert_eq!(m.static_prefixes_for_model("a::b").len(), 1);
}

#[test]
fn the_static_prefix_is_the_front() {
    let mut m = manager(server());
    let segments = vec![
        PromptSegment::dynamic_segment(PromptSegmentKind::DynamicUserMessage, "질문"),
        PromptSegment::static_segment(PromptSegmentKind::StaticOutputFormat, "f", "형식"),
        PromptSegment::static_segment(PromptSegmentKind::StaticSystemPrefix, "s", "앞"),
    ];
    let r = m.prepare_prompt("m", HybridStage::RecordMain, true, segments, vec![], 100);
    assert_eq!(r.static_prefix.text, "앞\n\n형식");
    assert_eq!(r.rendered_system, "앞\n\n형식\n\n질문");
}

#[test]
fn the_text_of_a_token_is_read_of_its_bytes() {
    assert_eq!(piece_text("가".as_bytes()), "가");
    assert_eq!(piece_text(&[0x61, 0xff]), "a\u{fffd}");
}

#[test]
fn a_program_that_starts_anew_gets_no_cache() {
    let m = DraceCacheManager::new_cli();
    let plan = m.plan_stage(true, HybridStage::RecordReview, 500, 500);
    assert!(!plan.cache_applied && !plan.cache_loaded);
    assert_eq!(plan.bypass_reason, "unsupported_backend_cli");
    assert_eq!(plan.cache_mode_requested, "FullDRACE");
    assert_eq!(plan.cache_mode_applied, "Off");
    assert_eq!(plan.draft_provider, "noop");
    assert!(m.config().enabled);
    assert_eq!(m.prompt_token_cache_size(), 0);
}

#[test]
fn plans_say_why_the_cache_is_passed_by() {
    let m = manager(server());
    let reason = |requested, stage, prefix, output| {
        m.plan_stage(requested, stage, prefix, output).bypass_reason
    };
    assert_eq!(reason(false, HybridStage::RecordReview, 1, 100), "cache disabled");
    assert_eq!(reason(true, HybridStage::RecordReview, 1, 79), "short output");
    assert_eq!(reason(true, HybridStage::RecordFill, 1, 100), "stage not cache-friendly");
    assert_eq!(reason(true, HybridStage::RecordReview, 1, 0), "");
    let none = BackendCapabilities {
        supports_prefix_kv_cache: false,
        supports_token_verification: false,
        supports_synthetic_token_cache: false,
        ..server()
    };
    assert_eq!(
        manager(none).plan_stage(true, HybridStage::RecordMain, 1, 100).bypass_reason,
        "unsupported_backend"
    );
    let unverified = BackendCapabilities { supports_token_verification: false, ..server() };
    let plan = manager(unverified).plan_stage(true, HybridStage::RecordSynthesis, 1, 100);
    assert_eq!(plan.cache_mode_applied, "PrefixKV+TemplateRenderer");
    assert_eq!(
        plan.bypass_reason,
        "synthetic_token_cache_verification=unsupported; fallback=PrefixKV+TemplateRenderer"
    );
    let plan = manager(unverified).plan_stage(true, HybridStage::RecordMain, 1, 100);
    assert_eq!(plan.cache_mode_applied, "PrefixKV");
    assert_eq!(
        plan.bypass_reason,
        "synthetic_token_cache_verification=unsupported; fallback=PrefixKV"
    );
    let verifying = BackendCapabilities { supports_resident_model: false, ..server() };
    let plan = manager(verifying).plan_stage(true, HybridStage::RecordMain, 1, 100);
    assert_eq!(plan.bypass_reason, "no beneficial cache path");
    let tokens = BackendCapabilities {
        supports_resident_model: false,
        supports_prompt_token_cache: true,
        ..server()
    };
    let plan = manager(tokens).plan_stage(true, HybridStage::RecordMain, 128, 100);
    assert!(plan.use_prompt_token_cache && plan.cache_loaded);
    assert_eq!(plan.cache_mode_applied, "PrefixKV");
    assert!(!manager(tokens).plan_stage(true, HybridStage::RecordMain, 127, 100).cache_applied);
}

#[test]
fn full_mode_needs_verified_tokens() {
    let plan = manager(server()).plan_stage(true, HybridStage::RecordReview, 1, 80);
    assert!(plan.synthetic_cache_applied && plan.use_synthetic_token_cache);
    assert_eq!(plan.cache_mode_applied, "FullDRACE");
    let plan = manager(server()).plan_stage(true, HybridStage::RecordSynthesis, 1, 80);
    assert!(!plan.synthetic_cache_applied);
    assert_eq!(plan.cache_mode_applied, "PrefixKV+TemplateRenderer");
    assert_eq!(plan.bypass_reason, "");
}

#[test]
fn marking_warms_one_prefix_only() {
    let mut m = manager(server());
    assert_eq!(
        m.warmed_prefix_key(" m ", " p ", Some(7), Some(0xABC)),
        "m::p::7::0000000000000abc"
    );
    assert_eq!(m.warmed_prefix_key("m", "p", None, None), "m::p::noslot::0000000000000000");
    assert!(!m.is_prefix_warm("m", "p", Some(7), Some(1)));
    m.mark_prefix_warm("m", "p", Some(7), Some(1), 40);
    m.mark_prefix_warm("m", "p", Some(7), Some(1), 2);
    assert!(m.is_prefix_warm("m", " p", Some(7), Some(1)));
    assert!(!m.is_prefix_warm("m", "p", Some(8), Some(1)));
    assert_eq!(m.stats_snapshot().warmed_prefix_count, 1);
    assert_eq!(m.stats_snapshot().prefix_tokens_total, 42);
}

#[test]
fn a_saved_state_brings_back_the_prefixes() {
    let mut m = manager(server());
    let segments = vec![PromptSegment::static_segment(
        PromptSegmentKind::StaticSystemPrefix,
        "s",
        "prefix",
    )];
    m.ensure_static_prefix("m", HybridStage::RecordMain, &segments);
    m.mark_prefix_warm("m", "m::record_main", None, None, 5);
    let saved = m.persist_persistent_state();
    assert_eq!(saved.version, 1);
    assert_eq!(saved.warmed_prefixes.len(), 1);
    let mut other = DraceCacheManager::new_cli();
    other.mark_prefix_warm("x", "y", None, None, 5);
    other.load_persistent_state(saved);
    assert_eq!(other.static_prefixes_for_model("m")[0].text, "prefix");
    assert_eq!(other.stats_snapshot().warmed_prefix_count, 0);
    assert!(!other.is_prefix_warm("x", "y", None, None));
    let mut later = m.persist_persistent_state();
    later.version = 2;
    let mut third = DraceCacheManager::new_cli();
    third.load_persistent_state(later);
    assert_eq!(third.static_prefixes_for_model("m").len(), 0);
}

#[test]
fn tokens_are_estimated_by_fours() {
    assert_eq!(estimate_tokens(""), 1);
    assert_eq!(estimate_tokens("1234567"), 1);
    assert_eq!(estimate_tokens("12345678"), 2);
    assert_eq!(estimate_tokens("가나다라마바사아"), 2);
}

#[test]
fn drafts_come_from_templates() {
    let p = TemplateDraftProvider::proposal_for_stage(HybridStage::RecordReview, "m", 5);
    assert_eq!(p.provider_name, "template");
    assert_eq!(token_ids_to_text(&p.token_ids), "{\"sum");
    assert_eq!(p.rendered_fragments.len(), 6);
    let p = TemplateDraftProvider::proposal_for_stage(HybridStage::RecordFill, "m", 100);
    assert_eq!(token_ids_to_text(&p.token_ids), "[기록 기본정보]\n- 기록 시각: ");
    assert_eq!(p.rendered_fragments.len(), 12);
    assert_eq!(p.rendered_fragments[4], "- 위치/채널: ");
    let p = TemplateDraftProvider::proposal_for_stage(HybridStage::GeneralSynthesis, "m", 100);
    assert_eq!(token_ids_to_text(&p.token_ids), "지금은 ");
    let state = DraftProviderState {
        stage: "record_review".to_string(),
        model_id: "m".to_string(),
        structured_json: true,
        prompt_hash: None,
    };
    assert_eq!(NoopDraftProvider.propose(&state, 9), Vec::<u32>::new());
    assert_eq!(NoopDraftProvider.name(), "noop");
    assert_eq!(NoopDraftProvider.rendered_fragments(&state).len(), 0);
}

#[test]
fn ids_that_are_no_characters_are_left_out() {
    assert_eq!(token_ids_to_text(&[0x41, 0xD800, 0x110000, 0xAC00]), "A가");
}

#[test]
fn a_draft_is_accepted_as_far_as_it_is_written() {
    let r = accept_common_prefix("가나다", "가나라마", 5);
    assert_eq!(r.accepted_len, 2);
    assert_eq!(r.accepted_text, "가나");
    assert_eq!(r.accepted_tokens, vec!['가' as u32, '나' as u32]);
    assert_eq!(r.rejected_at, Some(2));
    assert_eq!(r.correction_token_id, Some('라' as u32));
    assert_eq!(r.verify_ms, 5);
    let r = accept_common_prefix("가", "가", 0);
    assert_eq!((r.rejected_at, r.correction_token_id), (None, None));
}

#[test]
fn answers_are_found_in_replies() {
    let answer = |s: &str| extract_backend_answer(&parse(s).unwrap());
    assert_eq!(answer("{\"content\":\" 안녕 \"}"), Some("안녕".to_string()));
    assert_eq!(answer("{\"content\":\" \",\"text\":\"t\"}"), Some("t".to_string()));
    assert_eq!(answer("{\"choices\":[{\"x\":1},{\"message\":{\"content\":\"c\"}}]}"), Some("c".to_string()));
    assert_eq!(answer("{\"choices\":{}}"), None);
    assert_eq!(answer("[1]"), None);
    let error = |s: &str| extract_backend_error(&parse(s).unwrap());
    assert_eq!(error("{\"error\":\"e\",\"message\":\"m\"}"), Some("e".to_string()));
    assert_eq!(error("{\"error\":{},\"message\":\" m\"}"), Some("m".to_string()));
    assert_eq!(error("{\"choices\":[{\"message\":{\"content\":\"c\"}}]}"), Some("c".to_string()));
    assert_eq!(error("{}"), None);
}

#[test]
fn replies_are_read_or_reported() {
    assert!(read_reply("", true, "200 OK", "{}").is_ok());
    assert_eq!(
        read_reply("검증 ", false, "500 Internal Server Error", "{\"error\":\"full\"}").unwrap_err(),
        "llama-server 검증 응답 오류: HTTP 500 Internal Server Error / full"
    );
    assert_eq!(
        read_reply("", false, "503", "{\r\n}").unwrap_err(),
        "llama-server 응답 오류: HTTP 503 / { }"
    );
    let e = read_reply("", true, "200", "no\njson").unwrap_err();
    assert!(e.starts_with("llama-server 응답을 JSON으로 해석하지 못했어요: "));
    assert!(e.ends_with(" / body=no json"));
    assert_eq!(trim_backend_debug("a\r\nbc", 3), "a b…");
}

#[test]
fn sessions_of_a_server_make_requests() {
    let backend = LlamaServerSessionBackend;
    let session = backend.open_session("prompt ", session_options(), 17);
    assert_eq!(session.session_id, "llama-session-hyperclova-17");
    assert_eq!(session.backend_kind, BackendKind::LlamaServer);
    let request = backend.generate_request(&session);
    assert_eq!(request.prompt, "prompt {\"a");
    assert_eq!(request.id_slot, Some(3));
    assert_eq!(request.n_predict, 256);
    assert!(!request.stream);
    let ids: Vec<u32> = "abc".chars().map(|c| c as u32).collect();
    let (candidate, request) = backend.verify_request(&session, &ids).unwrap();
    assert_eq!(candidate, "abc");
    assert_eq!((request.n_predict, request.temperature_milli), (3, 0));
    assert_eq!((request.top_p_milli, request.repeat_penalty_milli), (1000, 1000));
    assert!(backend.verify_request(&session, &[0x20]).is_none());
    let long = vec![0x61u32; 40];
    assert_eq!(backend.verify_request(&session, &long).unwrap().1.n_predict, 24);
    let uncached = GenerationSessionOptions { cache_prompt: false, ..session_options() };
    let session = backend.open_session("p", uncached, 1);
    assert_eq!(backend.generate_request(&session).id_slot, None);
    let r = backend.verify_draft("abc", true, "200", "{\"content\":\"abX\"}", 9).unwrap();
    assert_eq!((r.accepted_len, r.verify_ms), (2, 9));
    assert!(backend.verify_draft("abc", false, "500", "{}", 9).is_err());
    assert!(backend.generate_next(true, "200", "{\"content\":\"x\"}").is_ok());
}

#[test]
fn the_environment_chooses_the_backend() {
    let r = detect_backend_runtime(None, None, &nothing_set());
    let unverified = BackendCapabilities {
        supports_token_verification: false,
        supports_batch_verification: false,
        supports_synthetic_token_cache: false,
        ..server()
    };
    assert_eq!(r.capabilities, unverified);
    let explicit = detect_backend_runtime(Some("llama-server"), None, &nothing_set());
    assert_eq!(explicit.capabilities, unverified);
    let config = r.llama_server.unwrap();
    assert_eq!(config.hyperclova_url, "http://127.0.0.1:18081/completion");
    assert_eq!(config.roosy_url, "http://127.0.0.1:18082/completion");
    assert_eq!((config.startup_timeout_ms, config.request_timeout_ms), (90_000, 240_000));
    assert!(config.cache_prompt);
    let mut env = nothing_set();
    env.backend = Some(" NATIVE ".to_string());
    env.native_library_found = true;
    let r = detect_backend_runtime(Some("  "), None, &env);
    assert_eq!(r.capabilities.backend_kind, BackendKind::Native);
    assert!(!r.capabilities.supports_token_verification);
    assert!(r.llama_server.is_none());
    env.enable_native_verifier = Some("on".to_string());
    let r = detect_backend_runtime(None, None, &env);
    assert!(r.capabilities.supports_token_verification);
    env.disable_native_verifier = Some("1".to_string());
    assert!(!detect_backend_runtime(None, None, &env).capabilities.supports_resident_model);
    let r = detect_backend_runtime(Some("llama"), None, &env);
    assert_eq!(r.capabilities.backend_kind, BackendKind::LlamaServer);
}

#[test]
fn settings_of_the_call_come_first() {
    let mut env = nothing_set();
    env.hyperclova_url = Some("http://env".to_string());
    env.roosy_url = Some(" http://env2 ".to_string());
    let config = LlamaServerConfig {
        hyperclova_url: " http://set ".to_string(),
        roosy_url: " ".to_string(),
        cache_prompt: false,
        startup_timeout_ms: 5,
        request_timeout_ms: 500_000,
        hyperclova_slot: Some(1),
        roosy_slot: None,
    };
    let r = detect_backend_runtime(None, Some(config), &env).llama_server.unwrap();
    assert_eq!(r.hyperclova_url, "http://set");
    assert_eq!(r.roosy_url, "http://env2");
    assert_eq!((r.startup_timeout_ms, r.request_timeout_ms), (90_000, 500_000));
    assert_eq!(r.hyperclova_slot, Some(1));
    assert!(!r.cache_prompt);
}

#[test]
fn variables_are_read_as_flags_and_numbers() {
    let v = |s: &str| Some(s.to_string());
    assert!(env_flag(&v("TRUE")) && env_flag(&v("1")) && env_flag(&v("yes")));
    assert!(!env_flag(&v("True")) && !env_flag(&None) && !env_flag(&v(" 1")));
    assert_eq!(env_u64(&v(" 12 "), 3), 12);
    assert_eq!(env_u64(&v("x"), 3), 3);
    assert_eq!(env_u64(&None, 3), 3);
    assert_eq!(env_u32_opt(&v("4294967295")), Some(u32::MAX));
    assert_eq!(env_u32_opt(&v("4294967296")), None);
    assert!(is_loopback_completion_url(" HTTP://LocalHost:1/completion "));
    assert!(!is_loopback_completion_url("http://10.0.0.1:1/completion"));
}

#[test]
fn the_native_library_is_looked_for() {
    let paths = native_library_candidates("src", Some("bin"));
    assert_eq!(paths.len(), 5);
    assert_eq!(paths[0], vec!["src", "binaries", "libllama.dylib"]);
    assert_eq!(paths[4], vec!["bin", "../Resources/sidecar/libllama.dylib"]);
    assert_eq!(native_library_candidates("src", None).len(), 2);
    assert_eq!(native_verifier_available(&[false, true, true]), Ok(1));
    assert_eq!(
        native_verifier_available(&[false]),
        Err("native_verifier_library_missing".to_string())
    );
    assert_eq!(native_dependencies(false).len(), 6);
    assert_eq!(native_dependencies(true)[6], "libggml-metal.dylib");
}

#[test]
fn contexts_and_batches_are_set_up() {
    let c = context_setup(None, None);
    assert_eq!((c.n_ctx, c.n_batch, c.n_ubatch, c.n_threads), (4096, 1024, 1024, 4));
    let c = context_setup(Some(1), Some(99));
    assert_eq!((c.n_ctx, c.n_threads), (2048, 6));
    assert_eq!(context_setup(Some(10_000), Some(0)).n_ctx, 8192);
    assert_eq!(first_token_capacity("ab"), Some(48));
    assert_eq!(first_token_capacity("123456789"), Some(52));
    assert_eq!(next_token_capacity(48, -100), Ok(100));
    assert_eq!(next_token_capacity(48, -10), Ok(96));
    assert_eq!(
        next_token_capacity(20_000, -1),
        Err("native_verifier_tokenize_overflow".to_string())
    );
    assert_eq!(next_piece_capacity(64), Ok(128));
    assert_eq!(
        next_piece_capacity(4096),
        Err("native_verifier_token_piece_overflow".to_string())
    );
    let rows = batch_rows(&[7, 8], 3);
    assert_eq!((rows[0].token, rows[0].pos, rows[0].logits), (7, 3, 0));
    assert_eq!((rows[1].token, rows[1].pos, rows[1].logits), (8, 4, 1));
    assert_eq!((rows[1].n_seq_id, rows[1].seq_id), (1, 0));
}

#[test]
fn native_answers_end() {
    let mut g = NativeGeneration::new(0);
    assert!(g.wants_more());
    assert!(g.accepts(false, "a") && !g.accepts(true, "a") && !g.accepts(false, ""));
    g.push("a");
    assert!(!g.wants_more());
    assert_eq!(g.answer(), ("a", 1));
    let mut g = NativeGeneration::new(5000);
    for _ in 0..31 {
        g.push("x");
    }
    g.push("\n\n");
    assert!(!g.wants_more());
    g = NativeGeneration::new(40);
    for _ in 0..31 {
        g.push("\n\n");
    }
    assert!(g.wants_more());
}

#[test]
fn drafts_are_checked_piece_by_piece() {
    let ids: Vec<u32> = "abcd".chars().map(|c| c as u32).collect();
    let mut check = DraftCheck::start(&ids).unwrap();
    assert_eq!(check.offer(5, "ab"), CheckStep::Taken);
    assert!(!check.is_complete());
    assert_eq!(check.offer(6, ""), CheckStep::End);
    assert_eq!(check.offer(7, "x"), CheckStep::Refused);
    let r = check.finish(Some(7), 3);
    assert_eq!((r.accepted_len, r.accepted_text.as_str()), (2, "ab"));
    assert_eq!(r.accepted_tokens, vec![5]);
    assert_eq!((r.rejected_at, r.correction_token_id), (Some(2), Some(7)));
    let mut check = DraftCheck::start(&ids).unwrap();
    assert_eq!(check.offer(1, "abcd"), CheckStep::Taken);
    assert!(check.is_complete());
    assert_eq!(check.finish(None, 3).rejected_at, None);
    assert!(DraftCheck::start(&[0x20, 0x0A]).is_none());
}

#[test]
fn prompts_are_signed_by_their_blocks() {
    let user = "[사용자 입력 상황]\n  복도에서  \n\n 다툼 \n[모르는 제목]\nx\n[전략 메모]\n메모\n";
    assert_eq!(
        build_semantic_prompt_signature(" s ", user),
        "stage=s\n\n사용자 입력 상황=복도에서\n다툼\n\n전략 메모=메모"
    );
    assert_eq!(build_semantic_prompt_signature("s", " a \n\n b "), "stage=s\n\na\nb");
}

#[test]
fn prompts_are_keyed() {
    let user = "[질문]\n무엇을\n";
    let p = prepare_synthetic_token_cache(" m ", " s ", "sys", user, 4096, 512);
    assert_eq!(p.prompt_chars, 3 + user.chars().count());
    assert_eq!((p.model_id.as_str(), p.stage_label.as_str()), ("m", "s"));
    assert_eq!(p.system_prompt_hash, hash_text("sys"));
    assert_eq!(p.user_prompt_hash, hash_text(user));
    assert_eq!(p.prefix_hash, hash_text(user));
    assert_eq!(
        p.exact_key,
        hash_text(&format!("v1|m|s|4096|512|{}|{}", hash_text("sys"), hash_text(user)))
    );
    let signature = build_semantic_prompt_signature("s", user);
    assert_eq!(
        p.semantic_key,
        hash_text(&format!("v1|m|s|4096|512|{}|{}", hash_text("sys"), hash_text(&signature)))
    );
    assert_eq!(*p.prefix_cache_path.last().unwrap(), format!("prefix-{}.bin", p.semantic_key));
    let spaced = prepare_synthetic_token_cache("m", "s", "sys", "[질문]\n  무엇을\n\n", 4096, 512);
    assert_eq!(spaced.semantic_key, p.semantic_key);
    assert_ne!(spaced.exact_key, p.exact_key);
    let long: String = "가".repeat(1200) + "나";
    assert_eq!(windowed_hash(&long, true), hash_text(&"가".repeat(1200)));
    assert_eq!(windowed_hash(&long, false), hash_text(&("가".repeat(1199) + "나")));
}
