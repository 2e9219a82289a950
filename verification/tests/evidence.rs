//! Prompts in segments, and what a question is answered from.

use roosycozy::drace::backends::LlamaServerConfig;
use roosycozy::drace::cache_manager::{DraceCacheManager, HybridStage};
use roosycozy::drace::prompt_segments::{PromptSegment, PromptSegmentKind};
use roosycozy::engine::evidence::{
    build_strategy_actor_summary, build_strategy_evidence_packet, build_strategy_gaps,
    push_strategy_evidence_candidate, records_at, select_strategy_evidence_records,
    selected_record_positions,
};
use roosycozy::engine::legal::{
    build_strategy_legal_references, strategy_build_legal_query_terms,
    strategy_collect_legal_source_text, strategy_corpus_signals, strategy_legal_signals,
    strategy_overlap_score, strategy_phrase_score, strategy_push_unique_reason,
    strategy_push_unique_term, LegalConcept, LegalCorpus, LegalScore, StrategyLegalFlatChunk,
    StrategyLegalLawRecord,
};
use roosycozy::engine::rank::{record_components, RankedHit};
use roosycozy::engine::records::{ActorRef, CaseItem, RecordItem, RecordSummaryParts};
use roosycozy::engine::segments::{
    llama_server_slot_for_stage, normalize_strategy_chat_mode,
    strategy_extract_dynamic_system_leakage, strategy_hybrid_stage_from_name,
    strategy_parse_prompt_blocks, strategy_prepare_stage_prompt,
    strategy_prewarm_known_static_prefixes_for_model, strategy_short_hash_u64,
    strategy_system_line_is_dynamic, strategy_system_prompt_segments, strategy_user_prompt_segments,
};

fn actor(name: &str) -> ActorRef {
    ActorRef { kind: "학생".to_string(), name: name.to_string() }
}

fn record(id: &str, ts: &str, name: &str, summary: &str) -> RecordItem {
    RecordItem {
        id: id.to_string(),
        ts: ts.to_string(),
        store_type: "전화".to_string(),
        store_other: String::new(),
        lv: "LV1".to_string(),
        actor: actor(name),
        actors: vec![],
        related: vec![],
        place: "교실".to_string(),
        place_other: String::new(),
        summary: summary.to_string(),
        summary_parts: None,
    }
}

fn case(title: &str) -> CaseItem {
    CaseItem {
        id: "c".to_string(),
        title: title.to_string(),
        query: String::new(),
        time_from: String::new(),
        time_to: String::new(),
        max_results: None,
        actors: vec![],
    }
}

fn hit(records: &[RecordItem], record: usize, reasons: &[&str]) -> RankedHit {
    RankedHit {
        id: records[record].id.clone(),
        record,
        rank: 1,
        reasons: reasons.iter().map(|s| s.to_string()).collect(),
        components: record_components(&records[record], &case("t")),
    }
}

fn chunk(record_id: &str, name: &str, article: &str) -> StrategyLegalFlatChunk {
    StrategyLegalFlatChunk {
        record_id: record_id.to_string(),
        official_name: name.to_string(),
        short_name: String::new(),
        current_status_label: " 시행 ".to_string(),
        source_url: "u".to_string(),
        school_relevance: String::new(),
        topical_tags: vec![],
        aliases: vec![],
        chunk_type: "Article".to_string(),
        chunk_id: "k".to_string(),
        article_no: article.to_string(),
        article_title: "학생의 징계".to_string(),
        legal_point: String::new(),
        teacher_use_case: String::new(),
        keywords: vec![],
        retrieval_text: String::new(),
    }
}

fn strings(v: &[&str]) -> Vec<String> {
    v.iter().map(|s| s.to_string()).collect()
}

#[test]
fn prompts_are_cut_into_blocks() {
    assert_eq!(
        strategy_parse_prompt_blocks("앞\n[하나]\n a \n\n[]\n[[둘]]\n \n [셋] \nc\n"),
        vec![
            ("하나".to_string(), "a \n\n[]".to_string()),
            ("셋".to_string(), "c".to_string())
        ]
    );
    assert_eq!(strategy_parse_prompt_blocks("앞"), vec![]);
}

#[test]
fn system_prompts_are_cut_into_segments() {
    let s = strategy_system_prompt_segments(
        "- AI 언어모델의 이름\n\n- 역할: 기록\n- 사실만\n- 출력은 한 문단\n[질문] x\n[형식]\n",
        HybridStage::RecordMain,
    );
    let texts: Vec<&str> = s.iter().map(|x| x.text.as_str()).collect();
    assert_eq!(
        texts,
        vec!["- AI 언어모델의 이름", "- 역할: 기록", "- 사실만", "- 출력은 한 문단\n[형식]"]
    );
    assert_eq!(s[3].stable_id, Some("record_main.format".to_string()));
    assert_eq!(s[2].kind, PromptSegmentKind::StaticStageInstruction);
    let s = strategy_system_prompt_segments("[질문] 오늘 날짜", HybridStage::FastRoosy);
    assert_eq!(s[0].stable_id, Some("fast_roosy.fallback".to_string()));
    assert_eq!((s.len(), s[0].text.as_str()), (1, ""));
    let s = strategy_system_prompt_segments("현재 시각: 10:00", HybridStage::RecordMain);
    assert!(s.iter().all(|x| x.is_static && !x.text.contains("현재 시각")));
    let leaked = strategy_extract_dynamic_system_leakage("현재 시각: 10:00");
    assert_eq!(leaked[0].text, "현재 시각: 10:00");
    assert!(strategy_system_line_is_dynamic("지금 현재 시각은"));
    assert!(!strategy_system_line_is_dynamic(""));
    let leaked = strategy_extract_dynamic_system_leakage("a\n [질문] q \n오늘 날짜");
    assert_eq!(leaked[0].text, "[질문] q\n오늘 날짜");
    assert_eq!(leaked[0].kind, PromptSegmentKind::DynamicCaseContext);
    assert_eq!(strategy_extract_dynamic_system_leakage("a").len(), 0);
}

#[test]
fn user_prompts_are_cut_into_segments() {
    let s = strategy_user_prompt_segments(
        "[관련 법령 참조표]\na\n[증거 참조표]\nb\n[직전 대화]\nc\n[HyperCLOVA-X 초안]\nd\n[질문 초점]\ne\n[시간 흐름]\nf",
    );
    let kinds: Vec<&str> = s.iter().map(|x| x.kind.label()).collect();
    assert_eq!(
        kinds,
        vec![
            "DynamicLegalRefs",
            "DynamicEvidencePacket",
            "DynamicConversation",
            "DynamicDraftArtifacts",
            "DynamicUserMessage",
            "DynamicCaseContext"
        ]
    );
    assert_eq!(s[0].text, "[관련 법령 참조표]\na");
    let s = strategy_user_prompt_segments(" 그냥\t질문 ");
    assert_eq!((s.len(), s[0].text.as_str()), (1, "그냥 질문"));
    let mut m = DraceCacheManager::new_cli();
    let p = strategy_prepare_stage_prompt(
        &mut m,
        "hyperclova-x",
        HybridStage::RecordMain,
        true,
        "- 역할: x\n현재 시각 3시",
        "[질문]\nq",
        100,
    );
    assert_eq!(p.rendered_system, "- 역할: x");
    assert_eq!(p.rendered_user, "현재 시각 3시\n\n[질문]\nq");
}

#[test]
fn stages_have_names_and_slots() {
    assert_eq!(normalize_strategy_chat_mode(Some(" Capture ")), "record");
    assert_eq!(normalize_strategy_chat_mode(None), "analysis");
    assert_eq!(strategy_short_hash_u64(255), "00000000000000ff");
    assert_eq!(strategy_hybrid_stage_from_name(" Fast_Roosy "), Some(HybridStage::FastRoosy));
    assert_eq!(strategy_hybrid_stage_from_name("x"), None);
    assert_eq!(llama_server_slot_for_stage(Some(0), HybridStage::RecordMain), Some(0));
    assert_eq!(llama_server_slot_for_stage(Some(5), HybridStage::RecordMain), Some(15));
    assert_eq!(llama_server_slot_for_stage(Some(u32::MAX), HybridStage::FastRoosy), Some(u32::MAX));
    assert_eq!(llama_server_slot_for_stage(None, HybridStage::FastRoosy), None);
}

#[test]
fn known_prefixes_are_warmed_up() {
    let mut m = DraceCacheManager::new_cli();
    let segments =
        vec![PromptSegment::static_segment(PromptSegmentKind::StaticSystemPrefix, "s", "prefix")];
    m.ensure_static_prefix("m", HybridStage::RecordMain, &segments);
    let (other, _) = m.ensure_static_prefix("m", HybridStage::RecordFill, &segments);
    let config = LlamaServerConfig {
        hyperclova_url: String::new(),
        roosy_url: String::new(),
        cache_prompt: true,
        startup_timeout_ms: 1,
        request_timeout_ms: 2,
        hyperclova_slot: None,
        roosy_slot: None,
    };
    m.mark_prefix_warm("m", &other.id, Some(12), Some(other.content_hash), 1);
    let jobs = strategy_prewarm_known_static_prefixes_for_model(&m, "m", "e", Some(1), &config, 6);
    assert_eq!(jobs.len(), 1);
    assert_eq!((jobs[0].slot, jobs[0].prefix.id.as_str()), (Some(11), "m::record_main"));
    let o = &jobs[0].options;
    assert_eq!((o.max_tokens, o.n_ctx, o.threads), (0, Some(4096), Some(6)));
    assert_eq!((o.request_timeout_ms, o.endpoint.as_str()), (10_000, "e"));
    assert_eq!((o.temperature_milli, o.top_p_milli, o.repeat_penalty_milli), (0, 1000, 1000));
}

#[test]
fn people_are_counted() {
    let mut a = record("1", "t", "김", "");
    a.related = vec![actor("이"), actor("박")];
    let b = record("2", "t", "김", "");
    let mut c = record("3", "t", "이", "");
    c.related = vec![actor("이")];
    assert_eq!(
        build_strategy_actor_summary(&[&a, &b, &c]),
        vec!["관련 학생 이 · 2건", "김 · 2건", "관련 학생 박 · 1건", "이 · 1건"]
    );
}

#[test]
fn gaps_are_named() {
    let mut a = record("1", "t", "김", "");
    assert_eq!(
        build_strategy_gaps(false, &[&a], 3),
        vec![
            "기준 컬렉션 없이 직접 분석 중이라 사건 범위가 넓을 수 있어요.",
            "현재 연결된 핵심 기록 수가 적어서 흐름 판단이 제한적일 수 있어요.",
            "전체 기록 3건 중 핵심 근거 1건만 추려 분석했어요.",
            "내가 실제로 취한 대응 메모가 비어 있는 기록이 많아요.",
        ]
    );
    a.summary_parts = Some(RecordSummaryParts {
        overview: String::new(),
        background: String::new(),
        issues: String::new(),
        evidence_list: " ".to_string(),
        teacher_actions: "x".to_string(),
        other: String::new(),
    });
    assert_eq!(
        build_strategy_gaps(true, &[&a, &a, &a], 3),
        vec!["관련 자료·증빙 정리 칸이 비어 있는 기록이 많아요."]
    );
    assert_eq!(build_strategy_gaps(true, &[], 0).len(), 1);
}

#[test]
fn evidence_is_selected() {
    let records = vec![
        record("a", "2024-01-01", "김", "하나"),
        record("b", "2024-01-04", "이", "둘"),
        record("c", "2024-01-03", "박", "셋"),
        record("d", "2024-01-02", "최", "넷"),
    ];
    let hits = vec![hit(&records, 0, &["1", "2", "3", "4"])];
    let picked = select_strategy_evidence_records(&records, &hits);
    let ids: Vec<&str> = picked.iter().map(|p| p.id.as_str()).collect();
    assert_eq!(ids, vec!["a", "b", "c", "d"]);
    assert_eq!(picked[0].reasons, vec!["1", "2", "3"]);
    assert_eq!(picked[0].scored, Some(0));
    assert_eq!((picked[1].reasons[0].as_str(), picked[1].scored), ("최근 흐름", None));
    assert_eq!(selected_record_positions(&records, &picked), vec![0, 3, 2, 1]);
    assert_eq!(records_at(&records, &vec![2])[0].id, "c");
    let mut out = vec![];
    push_strategy_evidence_candidate(&mut out, " ", vec![], None);
    push_strategy_evidence_candidate(&mut out, "x", vec![], None);
    push_strategy_evidence_candidate(&mut out, "x", vec![], Some(1));
    assert_eq!((out.len(), out[0].scored), (1, None));
    assert_eq!(select_strategy_evidence_records(&[], &vec![]).len(), 0);
}

#[test]
fn evidence_is_packed() {
    let mut records = vec![
        record("a", " 2024-01-01 ", "김", " 하나 "),
        record("b", "2024-01-02", "이", "둘"),
    ];
    records[1].summary_parts = Some(RecordSummaryParts {
        overview: String::new(),
        background: String::new(),
        issues: "쟁점".to_string(),
        evidence_list: String::new(),
        teacher_actions: String::new(),
        other: String::new(),
    });
    let hits = vec![hit(&records, 1, &["자동(랭킹)"])];
    let labels = vec![None, Some("1.25".to_string())];
    let p = build_strategy_evidence_packet(Some(&case(" 사건 ")), &records, &hits, &labels, vec![]);
    assert_eq!((p.mode.as_str(), p.case_title.as_str()), ("case-linked", "사건"));
    assert_eq!(
        p.focus_summary,
        "사건 기준. 2024-01-01 ~ 2024-01-02 흐름에서 핵심 근거 2건을 골랐고, 주요 인물은 김 · 1건, 이 · 1건예요."
    );
    assert_eq!(
        p.overview,
        "질문과 사건 맥락을 기준으로 기록을 다시 뽑아보니, 흐름의 중심은 김 / 전화 / 하나 -> 이 / 전화 / 둘 입니다."
    );
    assert_eq!(
        p.timeline_summary,
        vec![
            "2024-01-02 · 이 · 둘 · 핵심포인트: 쟁점 · 선택 이유 자동(랭킹) · score 1.25",
            "2024-01-01 · 김 · 하나 · 핵심 흐름 · 선택 이유 최근 흐름",
        ]
    );
    assert_eq!(p.evidence_records[0].ref_id, "E1");
    assert_eq!((p.evidence_records[0].record_id.as_str(), p.evidence_records[0].summary.as_str()), ("a", "하나"));
    assert_eq!(p.evidence_records[1].summary, "둘 | 핵심포인트: 쟁점");
    assert_eq!(p.evidence_records[1].reasons, vec!["자동(랭킹)"]);
    assert_eq!((p.evidence_records[1].place.as_str(), p.evidence_records[1].store.as_str()), ("교실", "전화"));
    let p = build_strategy_evidence_packet(None, &[], &vec![], &[], vec![]);
    assert_eq!((p.mode.as_str(), p.case_title.as_str()), ("direct", "직접 분석"));
    assert_eq!(p.focus_summary, "직접 분석 기준으로 핵심 근거 0건을 묶었어요.");
    assert_eq!(p.overview, "핵심 근거를 아직 고르지 못했어요.");
}

#[test]
fn the_last_of_several_records_with_an_id_counts() {
    let records = vec![record("a", "2024-01-01", "김", "처음"), record("a", "2024-01-02", "김", "나중")];
    let p = build_strategy_evidence_packet(None, &records, &vec![], &[None, None], vec![]);
    assert_eq!(p.evidence_records.len(), 1);
    assert_eq!(p.evidence_records[0].summary, "나중");
}

#[test]
fn terms_and_reasons_are_kept_once() {
    let mut out = vec![];
    let mut seen = vec![];
    for raw in [" 학폭 ", "학폭", "ABC", "abc", "가", " "] {
        strategy_push_unique_term(&mut out, &mut seen, raw);
    }
    assert_eq!(out, vec!["학폭", "ABC"]);
    let mut reasons = vec![];
    for raw in [" a ", "a", "", "b"] {
        strategy_push_unique_reason(&mut reasons, raw);
    }
    assert_eq!(reasons, vec!["a", "b"]);
}

#[test]
fn what_laws_are_searched_by_is_gathered() {
    let mut r = record("1", "t", "김", " 요약 ");
    r.related = vec![actor("이")];
    r.summary_parts = Some(RecordSummaryParts {
        overview: "o".to_string(),
        background: " 배경 ".to_string(),
        issues: "쟁점".to_string(),
        evidence_list: "자료".to_string(),
        teacher_actions: "대응".to_string(),
        other: String::new(),
    });
    let mut c = case(" 제목 ");
    c.actors = vec![actor("박")];
    assert_eq!(
        strategy_collect_legal_source_text(Some(&c), &[&r], " 질의 ", "질문", Some(" 메모 ")),
        "제목 학생 박 질의 질문 메모 요약 김 교실 배경 대응 쟁점 자료 학생 이"
    );
    let concepts = vec![
        LegalConcept { concept: "학폭".to_string(), expansions: strings(&["학교폭력", "질의"]) },
        LegalConcept { concept: "없음".to_string(), expansions: strings(&["x y"]) },
    ];
    assert_eq!(
        strategy_build_legal_query_terms("학폭 질의", &concepts),
        vec!["학폭", "질의", "학교폭력"]
    );
}

#[test]
fn phrases_and_overlaps_are_counted() {
    let mut reasons = vec![];
    assert_eq!(
        strategy_phrase_score("학생의 징계 절차", &strings(&[" 징계 ", "징", "없음", "학생의"]), "주제", &mut reasons),
        2
    );
    assert_eq!(reasons, vec!["주제 징계", "주제 학생의"]);
    let terms = strings(&["징계", "절차", "징계", "학생의", "없음", "의 징", "계 절"]);
    let mut reasons = vec![];
    assert_eq!(strategy_overlap_score("학생의 징계 절차", &terms, &mut reasons), 5);
    assert_eq!(reasons.len(), 4);
    assert_eq!(reasons[0], "질의 일치 징계");
}

#[test]
fn signals_of_an_article_are_found() {
    let mut c = chunk("L", "교육법", "제18조");
    c.keywords = strings(&["징계"]);
    c.topical_tags = strings(&["생활지도"]);
    let law = StrategyLegalLawRecord {
        record_id: "L".to_string(),
        official_name: "초중등교육법".to_string(),
        short_name: String::new(),
        current_status_label: "시행".to_string(),
        source_url: "u2".to_string(),
        school_relevance: String::new(),
        aliases: strings(&["초중등법"]),
        topical_tags: strings(&["생활지도", "징계권"]),
    };
    let s = strategy_legal_signals(
        &c,
        Some(&law),
        "초중등법 교육법 제18조 학생의 징계 생활지도",
        &strings(&["생활지도", "교육법"]),
    );
    assert_eq!((s.law_names, s.aliases, s.topics), (1, 1, 1));
    assert_eq!((s.titles, s.keywords, s.overlap), (2, 1, 2));
    assert!(s.article_number);
    assert_eq!((s.relevance_overlap, s.retrieval_overlap), (0, 0));
    assert_eq!(s.reasons[0], "법령명 일치 교육법");
    assert_eq!(s.reasons.last().unwrap(), "조문 번호 일치 제18조");
}

#[test]
fn laws_are_referred_to() {
    let law = StrategyLegalLawRecord {
        record_id: " A ".to_string(),
        official_name: " 법률 A ".to_string(),
        short_name: "에이".to_string(),
        current_status_label: "현행".to_string(),
        source_url: "ua".to_string(),
        school_relevance: String::new(),
        aliases: vec![],
        topical_tags: vec![],
    };
    let mut other = chunk("B", "법률 B", "제2조");
    other.chunk_type = "summary".to_string();
    let corpus = LegalCorpus {
        laws: vec![law],
        chunks: vec![
            chunk("A", "법률 A", "제3조"),
            chunk("A", "법률 A", "제1조"),
            chunk("A", "법률 A", "제2조"),
            other,
            chunk("C", "법률 C", "제9조"),
            chunk(" ", "법률 D", "제9조"),
        ],
        concepts: vec![],
    };
    let signals = strategy_corpus_signals(&corpus, "질문");
    assert_eq!(signals.len(), 6);
    assert!(signals[0].is_some() && signals[3].is_none());
    let score = |key, passes| LegalScore { key, passes };
    let scores = vec![
        score(1, true),
        score(1, true),
        score(1, true),
        score(9, true),
        score(5, true),
        score(9, true),
    ];
    let refs = build_strategy_legal_references(&corpus, "질문", &scores);
    let got: Vec<(&str, &str, &str)> = refs
        .iter()
        .map(|r| (r.ref_id.as_str(), r.law_name.as_str(), r.article_ref.as_str()))
        .collect();
    assert_eq!(
        got,
        vec![("L1", "법률 C", "제9조"), ("L2", "법률 A", "제1조"), ("L3", "법률 A", "제2조")]
    );
    assert_eq!((refs[1].short_name.as_str(), refs[1].source_url.as_str()), ("에이", "ua"));
    assert_eq!((refs[0].status_label.as_str(), refs[0].law_id.as_str()), ("시행", "C"));
    let none = vec![score(9, false); 6];
    assert_eq!(build_strategy_legal_references(&corpus, "질문", &none).len(), 0);
}
