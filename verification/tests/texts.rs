//! Texts as they come in and go out: questions, labels and record answers.

use roosycozy::engine::labels::{
    build_strategy_record_line_for_prompt, build_strategy_retrieval_case,
    build_strategy_retrieval_query, format_actor_short, strategy_main_actor_label,
    strategy_place_label, strategy_store_label, summarize_case_context,
    summarize_strategy_record_parts,
};
use roosycozy::engine::packet::{
    StrategyEvidencePacket, StrategyEvidenceRecord, StrategyLegalReference,
};
use roosycozy::engine::questions::{
    strategy_question_focus_hint, strategy_question_is_comparison,
    strategy_question_is_message_drafting, strategy_question_needs_legal_refs,
    strategy_question_route, StrategyQuestionRoute,
};
use roosycozy::engine::record_answer::{
    build_strategy_record_fallback_answer, finalize_strategy_record_answer, law_label_of,
    strategy_dedupe_record_sections, strategy_guess_record_people, strategy_guess_record_place_hint,
    strategy_guess_record_time_hint, strategy_is_record_section_header,
    strategy_is_record_tail_noise, strategy_record_answer_has_required_sections,
    strategy_record_section_headers, strategy_strip_prompt_echo,
    strategy_trim_repeated_record_halves,
};
use roosycozy::engine::records::{ActorRef, CaseItem, RecordItem, RecordSummaryParts};
use roosycozy::engine::sanitize::{
    strategy_compact_text, strategy_fit_prompt_to_budget, strategy_is_supported_char,
    strategy_sanitize_text, strategy_trim,
};

fn actor(kind: &str, name: &str) -> ActorRef {
    ActorRef { kind: kind.to_string(), name: name.to_string() }
}

fn record() -> RecordItem {
    RecordItem {
        id: "r".to_string(),
        ts: "2024-01-01".to_string(),
        store_type: "기타".to_string(),
        store_other: " 쪽지 ".to_string(),
        lv: "LV1".to_string(),
        actor: actor("학생", "김철수"),
        actors: vec![],
        related: vec![],
        place: " 복도 ".to_string(),
        place_other: "x".to_string(),
        summary: "s".to_string(),
        summary_parts: None,
    }
}

fn packet() -> StrategyEvidencePacket {
    StrategyEvidencePacket {
        mode: "analysis".to_string(),
        case_title: String::new(),
        focus_summary: String::new(),
        overview: String::new(),
        actor_summary: vec![],
        timeline_summary: vec![],
        risk_summary: vec![],
        gaps: vec![],
        evidence_records: vec![],
        legal_references: vec![],
    }
}

fn evidence() -> StrategyEvidenceRecord {
    StrategyEvidenceRecord {
        ref_id: "E1".to_string(),
        record_id: "r".to_string(),
        ts: " 2024-01-01 ".to_string(),
        actor: "김철수".to_string(),
        place: "복도".to_string(),
        store: "전화".to_string(),
        summary: "다툼".to_string(),
        risk_label: String::new(),
        reasons: vec![],
    }
}

fn law(short: &str, article: &str) -> StrategyLegalReference {
    StrategyLegalReference {
        ref_id: "L1".to_string(),
        law_id: "law".to_string(),
        law_name: "초·중등교육법".to_string(),
        short_name: short.to_string(),
        article_ref: article.to_string(),
        article_title: "학생의 징계".to_string(),
        legal_point: String::new(),
        teacher_use_case: String::new(),
        source_url: String::new(),
        status_label: String::new(),
        relevance_reasons: vec![],
    }
}

#[test]
fn texts_are_made_clean() {
    assert_eq!(
        strategy_sanitize_text(" a\tb\r\n\n\nc\u{fffd}\u{e000}😀\u{7}\u{3000}d \n"),
        "a b\nc d"
    );
    assert_eq!(strategy_sanitize_text("a\n \nb"), "a\n \nb");
    assert_eq!(strategy_compact_text(" 누가 \n 더\t문제 "), "누가더문제");
    assert_eq!(strategy_trim("가나다", 2), "가나");
    assert!(strategy_is_supported_char('가') && strategy_is_supported_char('\u{fdf0}'));
    for c in ['\u{10000}', '\u{e000}', '\u{f8ff}', '\u{fdd0}', '\u{fdef}', '\u{fffe}', '\u{ffff}'] {
        assert!(!strategy_is_supported_char(c));
    }
}

#[test]
fn long_prompts_are_fitted() {
    let short = "가".repeat(1400);
    assert_eq!(strategy_fit_prompt_to_budget(&short, 2048, 1024), short);
    let long = "가".repeat(1000) + "   " + &"나".repeat(1000);
    let head = 952;
    let tail = 1400 - head - 18;
    assert_eq!(
        strategy_fit_prompt_to_budget(&long, 2048, 1024),
        format!("{}\n\n[중간 맥락 일부 압축]\n\n{}", "가".repeat(head), "나".repeat(tail))
    );
    let long = "x".repeat(5000);
    let budget = 4096 - (512 + 320);
    let head = (budget as f32 * 0.68) as usize;
    assert_eq!(
        strategy_fit_prompt_to_budget(&long, 4096, 512).chars().count(),
        head + 18 - 1 + (budget - head - 18)
    );
}

#[test]
fn questions_are_told_apart() {
    assert!(strategy_question_is_comparison("누가 더 문제 인가요?"));
    assert!(strategy_question_is_comparison("a의 잘못"));
    assert!(!strategy_question_is_comparison("안녕하세요"));
    assert!(strategy_question_is_message_drafting("학부모에게 답장 부탁"));
    assert!(!strategy_question_is_message_drafting("누가"));
    assert_eq!(strategy_question_route("안녕하세요"), StrategyQuestionRoute::FastRoosy);
    assert_eq!(strategy_question_route("안녕하세요 민원을 어떻게 처리하나요"), StrategyQuestionRoute::Hybrid);
    assert_eq!(strategy_question_route("민원"), StrategyQuestionRoute::Hybrid);
    assert!(strategy_question_needs_legal_refs("법적 근거는?") && !strategy_question_needs_legal_refs("안녕"));
    assert!(strategy_question_focus_hint("누가 잘못").unwrap().starts_with("- 이번 질문은 책임·잘못 비교"));
    assert!(strategy_question_focus_hint("문자 써줘").unwrap().starts_with("- 이번 질문은 바로 전달할"));
    assert_eq!(strategy_question_focus_hint("안녕"), None);
}

#[test]
fn people_records_and_cases_are_labelled() {
    assert_eq!(format_actor_short(&actor(" 학생 ", " 김 ")), "학생 김");
    assert_eq!(format_actor_short(&actor("", " 김 ")), "김");
    assert_eq!(format_actor_short(&actor("학생", " ")), "학생");
    let mut r = record();
    assert_eq!(strategy_store_label(&r), "쪽지");
    r.store_other = " ".to_string();
    assert_eq!(strategy_store_label(&r), "기록유형 미상");
    r.store_type = "전화".to_string();
    assert_eq!(strategy_store_label(&r), "전화");
    assert_eq!(strategy_place_label(&r), "복도");
    r.place = String::new();
    assert_eq!(strategy_place_label(&r), "x");
    r.place_other = String::new();
    assert_eq!(strategy_place_label(&r), "장소 미상");
    assert_eq!(strategy_main_actor_label(&r), "김철수");
    r.actor = actor("학생", " ");
    assert_eq!(strategy_main_actor_label(&r), "학생");
    r.actor = actor("", "");
    assert_eq!(strategy_main_actor_label(&r), "당사자 미상");
}

#[test]
fn cases_are_summarised_and_asked_for() {
    assert_eq!(summarize_case_context(None), "- 사건 연결 없이 증거만으로 분석 중");
    let case = CaseItem {
        id: "c".to_string(),
        title: " ".to_string(),
        query: " 복도 다툼 ".to_string(),
        time_from: " 2024 ".to_string(),
        time_to: String::new(),
        max_results: None,
        actors: vec![actor("학생", "A"), actor("", "B"), actor("", ""), actor("", "C"), actor("", "D")],
    };
    assert_eq!(
        summarize_case_context(Some(&case)),
        "- 사건 제목: 제목 없음\n- 핵심 인물: 학생 A, B, , C\n- 사건 설명: 복도 다툼\n- 기간 필터: 2024 ~ "
    );
    assert_eq!(
        build_strategy_retrieval_query(Some(&case), " 질문 ", Some(" 메모 ")),
        "질문 복도 다툼 학생 A B C 메모"
    );
    assert_eq!(build_strategy_retrieval_query(None, "질문", Some("없음")), "질문");
    let built = build_strategy_retrieval_case(None, "q", 7);
    assert_eq!((built.id.as_str(), built.title.as_str(), built.query.as_str()), ("strategy", "직접 분석", "q"));
    assert_eq!(built.max_results, Some(7));
    let built = build_strategy_retrieval_case(Some(&case), "q", 7);
    assert_eq!((built.id.as_str(), built.actors.len(), built.max_results), ("c", 5, Some(7)));
}

#[test]
fn records_are_put_on_lines() {
    let mut r = record();
    assert_eq!(summarize_strategy_record_parts(&r), "");
    r.summary_parts = Some(RecordSummaryParts {
        overview: "o".to_string(),
        background: String::new(),
        issues: "가".repeat(100),
        evidence_list: " ".to_string(),
        teacher_actions: " 분리 ".to_string(),
        other: String::new(),
    });
    assert_eq!(
        summarize_strategy_record_parts(&r),
        format!("핵심포인트: {} | 내대응: 분리", "가".repeat(90))
    );
    let mut e = evidence();
    assert_eq!(
        build_strategy_record_line_for_prompt(&e),
        "[E1] 2024-01-01 | 김철수 | 전화 | 복도 | 다툼"
    );
    e.risk_label = " 높음 ".to_string();
    e.reasons = vec!["a".to_string(), "b".to_string()];
    assert_eq!(
        build_strategy_record_line_for_prompt(&e),
        "[E1] 2024-01-01 | 김철수 | 전화 | 복도 | 다툼 | 위험: 높음 | 선택 이유: a, b"
    );
}

#[test]
fn echoes_of_the_prompt_are_cut_off() {
    let lead = "a".repeat(81);
    assert_eq!(strategy_strip_prompt_echo(&format!("{} \n[질문]\nx[응답 조건]", lead)), lead);
    assert_eq!(strategy_strip_prompt_echo("[질문] 짧은 답 "), "[질문] 짧은 답");
    let twice = format!("[질문]{}[질문]", lead);
    assert_eq!(strategy_strip_prompt_echo(&twice), twice);
}

#[test]
fn record_sections_are_recognised() {
    assert!(strategy_is_record_section_header("[상황 요약]"));
    assert!(!strategy_is_record_section_header("[상황 요약] "));
    assert_eq!(strategy_record_section_headers().len(), 7);
    assert!(strategy_is_record_tail_noise(" 추가로 확인"));
    assert!(strategy_is_record_tail_noise("- 품질 점검"));
    assert!(!strategy_is_record_tail_noise("- 품질 점검표"));
    let order = vec!["[상황 요약]".to_string(), "[끝]".to_string()];
    assert!(strategy_record_answer_has_required_sections("x [끝] [상황 요약]", &order));
    assert!(!strategy_record_answer_has_required_sections("[상황 요약]", &order));
    assert!(!strategy_record_answer_has_required_sections("[상황 요약]", &vec![]));
}

#[test]
fn repeated_halves_and_sections_are_left_out() {
    assert_eq!(strategy_trim_repeated_record_halves("a b\n\nc\n\n ab \n\nc "), "a b\n\nc");
    assert_eq!(strategy_trim_repeated_record_halves(" a\n\nb "), "a\n\nb");
    assert_eq!(
        strategy_dedupe_record_sections(
            "인사\n[상황 요약]\n하나\n\n\n둘\n[배경 흐름]\n셋\n추가로 말하면\n[상황 요약]\n넷\n\n"
        ),
        "[상황 요약]\n하나\n\n둘\n\n[배경 흐름]\n셋"
    );
    assert_eq!(strategy_dedupe_record_sections(" 그냥 답 "), "그냥 답");
}

#[test]
fn people_times_and_places_are_guessed() {
    assert_eq!(strategy_guess_record_people("철수랑 영희랑 싸웠어"), vec!["철수", "영희"]);
    assert_eq!(strategy_guess_record_people("오늘 (민수)와 지호하고 다툼"), vec!["지호"]);
    assert_eq!(strategy_guess_record_people("'민수'이랑 민수하고 지호"), vec!["민수", "지호"]);
    assert_eq!(strategy_guess_record_time_hint("오늘 점심시간에"), "오늘 점심시간");
    assert_eq!(strategy_guess_record_time_hint("쉬는시간"), "쉬는시간");
    assert_eq!(strategy_guess_record_time_hint("어제"), "시점 미상");
    assert_eq!(strategy_guess_record_place_hint("복도와 교실"), "교실");
    assert_eq!(strategy_guess_record_place_hint("점심시간"), "교내 장소 미상");
    assert_eq!(strategy_guess_record_place_hint("x"), "장소 미상");
}

#[test]
fn a_record_can_be_made_without_a_model() {
    let mut p = packet();
    let a = build_strategy_record_fallback_answer(&p, " 오늘 복도에서 ", "2024.01.02 03:04");
    assert!(a.starts_with("[기록 기본정보]\n- 기록 시각: 2024.01.02 03:04\n- 주체: 당사자 미상\n- 상대방: 상대방 미상\n- 위치/채널: 복도\n- 자료 형태: 직접 입력\n- 민감도: 보통\n\n[상황 요약]\n사용자 입력에 따르면 오늘 복도에 당사자 미상와 상대방 미상 사이에"));
    assert!(a.contains("'오늘 복도에서'라는 직접 입력"));
    assert!(a.contains("현재 연결된 참고 기록은 0건이며, 없음 추가로"));
    assert!(a.contains("[추가 메모]\n상담 및 사실 확인 흐름을 중심으로"));
    p.evidence_records.push(evidence());
    p.legal_references = vec![law("교육법", "제18조"), law(" ", ""), law("x", "y")];
    let a = build_strategy_record_fallback_answer(&p, "철수랑 영희", "t");
    assert!(a.contains("- 주체: 철수\n- 상대방: 영희\n"));
    assert!(a.contains("현재 참고 기록 1건을 함께 보며"));
    assert!(a.contains("참고 기록은 1건이며, 있음 추가로"));
    assert!(a.contains("\n교육법 제18조, 초·중등교육법 학생의 징계 기준으로 사실 확인"));
    assert_eq!(law_label_of(&law(" ", "")), "초·중등교육법");
    let headers = strategy_record_section_headers();
    assert!(strategy_record_answer_has_required_sections(&a, &headers));
}

#[test]
fn record_answers_are_finished() {
    let headers = strategy_record_section_headers();
    let whole: String = headers.iter().map(|h| format!("{}\n내용\n\n", h)).collect();
    let out = finalize_strategy_record_answer(&whole, &packet(), "m", &vec![], "t");
    assert_eq!(out, headers.iter().map(|h| format!("{}\n내용", h)).collect::<Vec<_>>().join("\n\n"));
    let out = finalize_strategy_record_answer("짧은 답", &packet(), "m", &vec![], "t");
    assert_eq!(out, build_strategy_record_fallback_answer(&packet(), "m", "t"));
}
