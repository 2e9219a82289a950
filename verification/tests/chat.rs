//! How a chat comes to its answer.

use roosycozy::drace::cache_manager::{BackendCapabilities, DraceCacheManager, HybridStage};
use roosycozy::engine::chat::{
    chat_closing_report, chat_failure_report, chat_failure_text, chat_opening, chat_prompt_hash,
    chat_request, chat_settings, chat_stage_request, chat_step_report, evidence_report,
    finalize_strategy_chat_run_result, finish_answer, finish_record, review_draft, ChatFlow,
    ChatInputs, ChatSettings, ChatStep, Ending, StrategyChatOptions,
};
use roosycozy::engine::endpoints::strategy_backend_runtime;
use roosycozy::engine::execution::{
    cli_execution, prepare_execution, CliTimes, StageRequest, StrategyModelExecution,
};
use roosycozy::engine::packet::StrategyEvidencePacket;
use roosycozy::engine::perf::{aggregate_strategy_perf_metrics, RunIdentity};
use roosycozy::engine::prompts::StrategyChatTurn;
use roosycozy::engine::review::{strategy_fast_hash_hex, StrategyRecordReviewResult};
use roosycozy::engine::template::{
    StrategyRecordModeTemplate, StrategyRecordOutputContract,
};

fn packet() -> StrategyEvidencePacket {
    StrategyEvidencePacket {
        mode: "direct".to_string(),
        case_title: String::new(),
        focus_summary: String::new(),
        overview: String::new(),
        actor_summary: vec![],
        timeline_summary: vec![],
        risk_summary: vec![],
        gaps: vec![],
        evidence_records: vec![],
        legal_references: vec![],
    }
}

fn template() -> StrategyRecordModeTemplate {
    StrategyRecordModeTemplate {
        schema_version: String::new(),
        purpose: String::new(),
        principles: vec![],
        quality_checklist: vec![],
        forbidden: vec![],
        section_guides: vec![],
        output_contract: StrategyRecordOutputContract {
            language: String::new(),
            tone: String::new(),
            default_format: String::new(),
            section_order: vec![],
            citation_policy: String::new(),
            legal_policy: String::new(),
            teacher_confirmation_policy: String::new(),
        },
        input_grounding_rules: vec![],
        risk_sensitive_rules: vec![],
        completion_questions: vec![],
        evaluation_rubric: vec![],
    }
}

fn run(stage: &str, answer: &str) -> StrategyModelExecution {
    let mut manager = DraceCacheManager::new_cli();
    let runtime = strategy_backend_runtime(BackendCapabilities::cli(), None, false, String::new());
    let p = prepare_execution(
        &mut manager,
        &runtime,
        "hyperclova-x",
        HybridStage::RecordMain,
        "s",
        "u",
        4096,
        320,
        4,
        false,
    );
    let times = CliTimes {
        e2e_ms: 10,
        first_stdout_ms: 1,
        process_spawn_ms: 0,
        prompt_file_write_ms: 0,
        stdout_read_ms: 0,
        postprocess_ms: 0,
    };
    cli_execution(&p, stage, answer.to_string(), "/r", "/m", 0, times, p.cache.clone())
}

fn ok(stage: &str, answer: &str) -> Result<StrategyModelExecution, String> {
    Ok(run(stage, answer))
}

fn err(e: &str) -> Result<StrategyModelExecution, String> {
    Err(e.to_string())
}

fn settings(model_id: &'static str, cache: bool) -> ChatSettings {
    ChatSettings { model_id, max_tokens: 720, n_ctx: 4096, threads: 4, cache }
}

fn request(f: &ChatFlow) -> StageRequest {
    let (t, p) = (template(), packet());
    let inputs = ChatInputs {
        template: &t,
        packet: &p,
        case_item: None,
        message: "물음",
        note: None,
        conversation: &[],
    };
    chat_stage_request(f, &inputs).unwrap()
}

const LONG: &str = "두 방안을 비교해서 법령 근거와 함께 학부모 민원 답변 문구를 써 주세요";

#[test]
fn a_chat_is_set_up() {
    let s = chat_settings(None, 9);
    assert_eq!((s.model_id, s.max_tokens, s.n_ctx, s.threads, s.cache), ("hyperclova-x", 320, 4096, 9, true));
    let mut o = StrategyChatOptions {
        model: Some("roosy-hybrid".to_string()),
        max_tokens: None,
        n_ctx: Some(1),
        threads: Some(50),
        synthetic_cache_enabled: Some(false),
        backend_mode: None,
        llama_server: None,
    };
    let s = chat_settings(Some(&o), 9);
    assert_eq!((s.model_id, s.max_tokens, s.n_ctx, s.threads, s.cache), ("roosy-hybrid", 720, 2048, 12, false));
    o.max_tokens = Some(9999);
    assert_eq!(chat_settings(Some(&o), 9).max_tokens, 768);
    o.max_tokens = Some(1);
    assert_eq!(chat_settings(Some(&o), 9).max_tokens, 64);
}

#[test]
fn a_chat_needs_a_message_and_evidence() {
    assert_eq!(chat_request(" \t ", Some("record"), 0).unwrap_err(), "질문 내용이 비어 있어요.");
    assert_eq!(chat_request("a", None, 0).unwrap_err(), "전략자문에 연결된 증거가 없어요.");
    assert_eq!(chat_request(" a ", Some(" Record "), 0), Ok(("a".to_string(), true)));
    assert_eq!(chat_request("a", Some("x"), 1), Ok(("a".to_string(), false)));
    assert_eq!(chat_opening(true, 3), "기록모드 요청을 받았어요. 참고 기록 3개와 입력 상황을 정리 중이에요.");
    assert_eq!(chat_opening(false, 0), "전략자문 요청을 받았어요. 연결된 증거 0개를 확인 중이에요.");
    assert_eq!(
        evidence_report(&packet(), " 질의 "),
        ("질문 기준으로 핵심 근거 0건을 골랐어요. 검색 질의는 '질의'예요.".to_string(), None)
    );
    let turn = |content: &str| StrategyChatTurn { role: "user".to_string(), content: content.to_string() };
    assert_eq!(
        chat_prompt_hash("record", "m", "q", Some("n"), &[turn("a"), turn("b")]),
        strategy_fast_hash_hex("record|m|q|n|user:a|user:b")
    );
    assert_eq!(chat_prompt_hash("analysis", "m", "q", None, &[]), strategy_fast_hash_hex("analysis|m|q||"));
}

#[test]
fn two_models_write_a_record() {
    let f = ChatFlow::start(&settings("roosy-hybrid", true), true, "물음", false);
    assert_eq!(f.step, ChatStep::RecordMain);
    assert_eq!(chat_step_report(&f).len(), 2);
    let q = request(&f);
    assert_eq!((q.model_id, q.stage, q.n_ctx, q.max_tokens, q.label), ("hyperclova-x", HybridStage::RecordMain, 3584, 720, "초안1"));
    let f = f.take_run(ok("a", "첫째"));
    let q = request(&f);
    assert_eq!((q.model_id, q.stage, q.max_tokens, q.label), ("roosy-x", HybridStage::RecordFill, 700, "초안2"));
    assert!(q.user_prompt.contains("첫째"));
    let f = f.take_run(ok("b", "둘째"));
    assert_eq!(f.step, ChatStep::RecordRender);
    let f = f.take_rendered(false);
    let q = request(&f);
    assert_eq!((q.stage, q.n_ctx, q.max_tokens, q.label), (HybridStage::RecordSynthesis, 4096, 768, "합성"));
    let f = f.take_run(err("x"));
    assert_eq!((f.step, f.ending), (ChatStep::RecordReview, Ending::RecordHybrid));
    assert_eq!(review_draft(&f), Some(("첫째", true)));
    let f = f.take_review();
    let reviewed = StrategyRecordReviewResult { answer: "x".to_string(), metrics: None, renderer_stats: None };
    let done = finish_record(&f, &reviewed, &packet(), "물음", &vec![], "지금").unwrap();
    assert_eq!(done.model_path, "ROOSY-Hybrid (HyperCLOVA-X 중심 + Roosy-X 보조 record draft)");
    let names: Vec<&str> = done.stages.iter().map(|s| s.stage_name.as_str()).collect();
    assert_eq!(names, vec!["a", "b", "a"]);
}

#[test]
fn a_record_is_written_fast() {
    let f = ChatFlow::start(&settings("roosy-hybrid", true), true, "물음", false);
    let f = f.take_run(ok("a", "첫째")).take_run(ok("b", "둘째")).take_rendered(true);
    assert_eq!((f.step, f.ending), (ChatStep::Finished, Ending::RecordFast));
    let done = finish_answer(&f).unwrap();
    assert_eq!((done.model_path.as_str(), done.stages.len()), ("ROOSY-Hybrid (PrefixKV+TemplateRenderer fast path)", 1));
    let f = ChatFlow::start(&settings("roosy-hybrid", false), true, "물음", false);
    let f = f.take_run(ok("a", "첫째")).take_run(ok("b", "둘째"));
    assert_eq!(f.step, ChatStep::RecordSynthesis);
}

#[test]
fn one_record_is_enough() {
    let start = || ChatFlow::start(&settings("roosy-hybrid", true), true, "물음", true);
    let f = start().take_run(ok("a", "첫째")).take_run(err("y"));
    assert_eq!((f.step, f.ending, review_draft(&f)), (ChatStep::RecordReview, Ending::RecordHyper, Some(("첫째", true))));
    let f = start().take_run(err("x"));
    assert!(!request(&f).user_prompt.contains("기록 골격]"));
    let f = f.take_run(ok("b", "둘째"));
    assert_eq!((f.ending, review_draft(&f)), (Ending::RecordRoosy, Some(("둘째", true))));
    let f = start().take_run(err("x")).take_run(err("y"));
    assert_eq!(f.step, ChatStep::RecordRecovery);
    let q = request(&f);
    assert_eq!((q.stage, q.cache, q.max_tokens, q.label), (HybridStage::RecordRecovery, false, 720, "복구초안"));
    let g = f.take_run(ok("c", "셋째"));
    assert_eq!((g.ending, review_draft(&g)), (Ending::RecordRecovered, Some(("셋째", false))));
    let f = start().take_run(err("x")).take_run(err("y")).take_run(err("z"));
    assert_eq!(f.step, ChatStep::Failed);
    assert_eq!(
        chat_failure_text(&f, ChatStep::RecordRecovery),
        "기록모드 초안 두 개를 모두 만들지 못했어요. 먼저 AI 모델 다운로드와 sidecar 상태를 함께 확인해주세요. 초안1: x / 초안2: y / 복구초안: z"
    );
    assert!(finish_answer(&f).is_none() && review_draft(&f).is_none());
}

#[test]
fn one_model_writes_a_record() {
    let f = ChatFlow::start(&settings("roosy-x", true), true, "물음", false);
    let q = request(&f);
    assert_eq!((q.model_id, q.stage, q.n_ctx, q.max_tokens, q.label), ("roosy-x", HybridStage::RecordMain, 3584, 720, "기록초안"));
    let f = f.take_run(err("x"));
    assert_eq!((f.step, chat_failure_text(&f, ChatStep::RecordSingle).as_str()), (ChatStep::Failed, "x"));
}

#[test]
fn short_questions_are_answered_fast() {
    let f = ChatFlow::start(&settings("roosy-hybrid", true), false, "네 확인했어요", false);
    assert_eq!(f.step, ChatStep::FastAnswer);
    let q = request(&f);
    assert_eq!((q.model_id, q.stage, q.n_ctx, q.max_tokens, q.label), ("roosy-x", HybridStage::FastRoosy, 3584, 640, "빠른실행"));
    let f = f.take_run(ok("a", "네 글자다"));
    let done = finish_answer(&f).unwrap();
    assert_eq!((done.answer.as_str(), done.model_path.as_str()), ("네 글자다", "ROOSY-Hybrid (Roosy fast path)"));
    assert_eq!(chat_closing_report(f.ending, &done.answer), "빠른 경로 응답 생성을 마쳤어요. 본문 길이 5자예요.");
}

#[test]
fn two_models_answer() {
    let start = || ChatFlow::start(&settings("roosy-hybrid", true), false, LONG, false);
    let f = start();
    assert_eq!(f.step, ChatStep::GeneralDraft);
    assert_eq!((request(&f).model_id, request(&f).max_tokens), ("roosy-x", 640));
    let f = f.take_run(ok("a", "첫\n째"));
    assert_eq!(chat_step_report(&f), vec![("초안공유".to_string(), "1차 초안 포인트: 첫 째".to_string())]);
    assert_eq!((request(&f).model_id, request(&f).stage, request(&f).max_tokens), ("hyperclova-x", HybridStage::GeneralMain, 520));
    let f = f.take_run(ok("b", "둘째"));
    let q = request(&f);
    assert_eq!((q.model_id, q.stage, q.n_ctx, q.max_tokens), ("roosy-x", HybridStage::GeneralSynthesis, 4096, 768));
    let f = f.take_run(ok("c", "셋째"));
    let done = finish_answer(&f).unwrap();
    assert_eq!((done.answer.as_str(), done.model_path.as_str()), ("셋째", "ROOSY-Hybrid (Roosy-X + HyperCLOVA-X)"));
    let names: Vec<&str> = done.stages.iter().map(|s| s.stage_name.as_str()).collect();
    assert_eq!(names, vec!["a", "b", "c"]);

    let f = start().take_run(ok("a", "첫째")).take_run(err("y"));
    assert_eq!((f.step, f.ending), (ChatStep::Finished, Ending::RoosyOnly));
    let f = start().take_run(err("x")).take_run(ok("b", "둘째"));
    assert_eq!((f.step, f.ending), (ChatStep::Finished, Ending::HyperOnly));
    let f = start().take_run(ok("a", "첫째")).take_run(ok("b", "둘째")).take_run(err("z"));
    assert_eq!(finish_answer(&f).unwrap().answer, "첫째");
    let f = start().take_run(err("x")).take_run(err("y"));
    assert_eq!(f.step, ChatStep::Failed);
    assert_eq!(
        chat_failure_text(&f, ChatStep::GeneralCheck),
        "ROOSY-Hybrid 초안 두 개를 모두 만들지 못했어요. 번들된 모델 파일과 sidecar 상태를 함께 확인해주세요."
    );
}

#[test]
fn failures_on_the_way_are_reported() {
    let line = |step| chat_failure_report(step, "e");
    assert_eq!(line(ChatStep::RecordMain).unwrap(), "HyperCLOVA-X 기록 초안이 잠시 흔들렸어요. e");
    assert_eq!(line(ChatStep::RecordFill).unwrap(), "Roosy-X 기록 초안이 잠시 흔들렸어요. e");
    assert_eq!(line(ChatStep::RecordSynthesis).unwrap(), "최종 기록 합성이 흔들려서 HyperCLOVA-X 초안을 우선 보여드릴게요. e");
    assert_eq!(line(ChatStep::GeneralDraft).unwrap(), "Roosy-X 초안이 잠시 흔들렸어요. e");
    assert_eq!(line(ChatStep::GeneralCheck).unwrap(), "HyperCLOVA-X 검토 초안이 잠시 흔들렸어요. e");
    assert_eq!(line(ChatStep::GeneralSynthesis).unwrap(), "최종 합성 단계가 흔들려서 Roosy-X 초안을 우선 보여드릴게요. e");
    assert_eq!(line(ChatStep::GeneralSingle), None);
}

#[test]
fn one_model_answers() {
    let f = ChatFlow::start(&settings("hyperclova-x", true), false, LONG, false);
    let q = request(&f);
    assert_eq!((q.model_id, q.n_ctx, q.max_tokens, q.label), ("hyperclova-x", 4096, 720, "실행"));
    let f = f.take_run(ok("a", "답"));
    let done = finish_answer(&f).unwrap();
    assert_eq!((done.model_path.as_str(), done.runner.as_str()), ("/m", "/r"));
    assert_eq!(chat_closing_report(f.ending, &done.answer), "응답 생성을 마쳤어요. 본문 길이 1자예요.");
    let identity = RunIdentity {
        mode: "analysis".to_string(),
        run_id: "b".to_string(),
        prompt_hash: "p".to_string(),
        case_hash: "c".to_string(),
        records_hash: "r".to_string(),
        model_config_hash: "m".to_string(),
    };
    let perf = aggregate_strategy_perf_metrics(&identity, true, 10, &done.answer, &done.stages, "cli");
    let result = finalize_strategy_chat_run_result(done, "q".to_string(), packet(), perf);
    assert_eq!((result.answer.as_str(), result.records_used, result.retrieval_query.as_str()), ("답", 0, "q"));
}
