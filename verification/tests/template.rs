//! The template of a record, and the prompts.

use roosycozy::engine::packet::{
    StrategyEvidencePacket, StrategyEvidenceRecord, StrategyLegalReference,
};
use roosycozy::engine::prompts::{
    build_strategy_hybrid_system_prompt, build_strategy_hybrid_user_prompt,
    build_strategy_legal_line_for_prompt, build_strategy_record_fill_user_prompt,
    build_strategy_record_hybrid_user_prompt, build_strategy_record_renderer_system_prompt,
    build_strategy_record_renderer_user_prompt, build_strategy_record_review_user_prompt,
    build_strategy_record_system_prompt, build_strategy_record_user_prompt,
    build_strategy_system_prompt, build_strategy_user_prompt, build_strategy_user_prompt_for_draft,
    summarize_conversation, StrategyChatTurn,
};
use roosycozy::engine::template::{
    build_strategy_record_legal_prompt_block, build_strategy_record_rubric_summary,
    build_strategy_record_template_prompt_block, bullet_block, dashed_block, dashed_line,
    strategy_record_generation_profile, RubricEntry, SensitivityRules,
    StrategyRecordModeTemplate, StrategyRecordOutputContract, StrategyRecordSectionGuide,
};

fn strings(v: &[&str]) -> Vec<String> {
    v.iter().map(|s| s.to_string()).collect()
}

fn packet() -> StrategyEvidencePacket {
    StrategyEvidencePacket {
        mode: "direct".to_string(),
        case_title: "제목".to_string(),
        focus_summary: "초점".to_string(),
        overview: "개요".to_string(),
        actor_summary: vec![],
        timeline_summary: vec![],
        risk_summary: vec![],
        gaps: vec![],
        evidence_records: vec![],
        legal_references: vec![],
    }
}

fn evidence(id: &str) -> StrategyEvidenceRecord {
    StrategyEvidenceRecord {
        ref_id: id.to_string(),
        record_id: "r".to_string(),
        ts: "2024".to_string(),
        actor: "김".to_string(),
        place: "복도".to_string(),
        store: "전화".to_string(),
        summary: "다툼".to_string(),
        risk_label: String::new(),
        reasons: vec![],
    }
}

fn law() -> StrategyLegalReference {
    StrategyLegalReference {
        ref_id: "L1".to_string(),
        law_id: "A".to_string(),
        law_name: "초중등교육법".to_string(),
        short_name: " 교육법 ".to_string(),
        article_ref: "제18조".to_string(),
        article_title: "학생의 징계".to_string(),
        legal_point: " 취지문 ".to_string(),
        teacher_use_case: "적용문".to_string(),
        source_url: String::new(),
        status_label: String::new(),
        relevance_reasons: strings(&["a", "b"]),
    }
}

fn template() -> StrategyRecordModeTemplate {
    StrategyRecordModeTemplate {
        schema_version: "1".to_string(),
        purpose: " 목적문 ".to_string(),
        principles: strings(&[" 원칙 "]),
        quality_checklist: vec![],
        forbidden: strings(&["금지"]),
        section_guides: vec![StrategyRecordSectionGuide {
            section: " 요약 ".to_string(),
            objective: "목표".to_string(),
            include_points: strings(&["1", "2", "3", "4"]),
            writing_rules: strings(&["w"]),
            missing_value_policy: vec![],
            quality_signals: vec![],
            example_phrases: strings(&[" 예문 "]),
        }],
        output_contract: StrategyRecordOutputContract {
            language: "ko".to_string(),
            tone: " ".to_string(),
            default_format: "문단".to_string(),
            section_order: vec![],
            citation_policy: String::new(),
            legal_policy: "조심".to_string(),
            teacher_confirmation_policy: String::new(),
        },
        input_grounding_rules: vec![],
        risk_sensitive_rules: vec![SensitivityRules {
            key: "lv1_general".to_string(),
            rules: strings(&["일반"]),
        }],
        completion_questions: vec![],
        evaluation_rubric: vec![],
    }
}

#[test]
fn requests_are_profiled() {
    let p = strategy_record_generation_profile(&packet(), "짝꿍과 다퉜다");
    assert_eq!(p.sensitivity_key, "lv1_general");
    assert!(!p.guard_required && !p.submission_intent);
    assert_eq!(p.hyper_focus, vec!["사실·시간·조치 순서를 안정적으로 먼저 세우기"]);
    assert_eq!(p.roosy_focus, vec!["짧은 입력을 빠른캡쳐형 실무 문장으로 자연스럽게 확장"]);
    let key = |m: &str| strategy_record_generation_profile(&packet(), m).sensitivity_key;
    assert_eq!(key("폭 행 사건"), "lv5_critical");
    assert_eq!(key("정식 보고"), "lv4_high");
    assert_eq!(key("학부모 반복 항의"), "lv4_high");
    assert_eq!(key("교장 면담"), "lv3_warning");
    let mut many = packet();
    many.evidence_records = vec![evidence("E1"), evidence("E2"), evidence("E3")];
    many.gaps = strings(&["a", "b"]);
    let p = strategy_record_generation_profile(&many, &"가".repeat(61));
    assert_eq!(p.sensitivity_key, "lv2_attention");
    assert!(p.guard_required);
    assert_eq!(p.hyper_focus.len(), 2);
    assert_eq!(p.roosy_focus, vec!["각 섹션 안의 문장 연결과 현장형 표현 보강"]);
}

#[test]
fn criteria_are_listed_by_weight() {
    assert_eq!(build_strategy_record_rubric_summary(&vec![]), "- 별도 평가 기준 없음");
    let entry = |key: &str, rank, text: &str| RubricEntry {
        key: key.to_string(),
        weight_rank: rank,
        weight_text: text.to_string(),
        description: " 설명 ".to_string(),
    };
    assert_eq!(
        build_strategy_record_rubric_summary(&vec![entry("a", 1, "0.10"), entry("b", 3, "0.30"), entry("c", 1, "0.10")]),
        "- b (가중치 0.30): 설명\n- a (가중치 0.10): 설명\n- c (가중치 0.10): 설명"
    );
}

#[test]
fn the_template_is_put_into_words() {
    assert_eq!(dashed_line(" x "), "- x");
    assert_eq!(dashed_block(&strings(&["a", "b"]), 1), "- a");
    assert_eq!(bullet_block(&vec![], 3, "- 없음"), "- 없음");
    assert_eq!(
        build_strategy_record_template_prompt_block(&template(), &packet(), "다퉜다"),
        "기록 작성 기준\n- 목적\n- 목적문\n- 핵심 원칙\n- 원칙\n- 입력 grounding 규칙\n- 별도 grounding 규칙 없음\n- 출력 계약\n- 형식: 문단\n- 법령 규칙: 조심\n- 섹션 작성 메모\n- 요약: 목표 | 포함: 1, 2, 3 | 작성: w | 예시: 예문\n- 민감도/역할 힌트\n- 현재 민감도 추정: lv1_general\n- 제출/대응 문서 의도 감지: 아니오\n- HyperCLOVA-X 우선 포인트: 사실·시간·조치 순서를 안정적으로 먼저 세우기\n- Roosy-X 보강 포인트: 짧은 입력을 빠른캡쳐형 실무 문장으로 자연스럽게 확장\n- 추가 guard 필요 여부: 아니오\n- 현재 민감도 규칙\n- 일반\n- 품질 점검\n- 별도 점검 항목 없음\n- 보강 질문\n- 별도 보강 질문 없음\n- 평가 매트릭\n- 별도 평가 기준 없음\n- 금지 사항\n- 금지"
    );
}

#[test]
fn laws_are_put_into_words() {
    let mut p = packet();
    assert_eq!(
        build_strategy_record_legal_prompt_block(&p),
        "- 이번 상황에서 직접 연결된 참고 법령 없음"
    );
    p.legal_references = vec![law()];
    assert_eq!(
        build_strategy_record_legal_prompt_block(&p),
        "- 교육법 제18조 학생의 징계: 적용문"
    );
    assert_eq!(
        build_strategy_legal_line_for_prompt(&law()),
        "[L1] 교육법 (초중등교육법) 제18조 학생의 징계 | 취지: 취지문 | 현장 적용: 적용문 | 연결 이유: a, b"
    );
}

#[test]
fn the_last_turns_are_summed_up() {
    assert_eq!(summarize_conversation(&[]), "- 이전 대화 없음");
    let turn = |role: &str, content: &str| StrategyChatTurn {
        role: role.to_string(),
        content: content.to_string(),
    };
    let turns: Vec<StrategyChatTurn> = (0..5).map(|i| turn(if i % 2 == 0 { " user " } else { "x" }, &format!(" {}\t", i))).collect();
    assert_eq!(
        summarize_conversation(&turns),
        "- 어시스턴트: 1\n- 사용자: 2\n- 어시스턴트: 3\n- 사용자: 4"
    );
}

#[test]
fn models_are_told_what_to_do() {
    for s in [
        build_strategy_system_prompt(),
        build_strategy_record_system_prompt(),
        build_strategy_hybrid_system_prompt(),
        build_strategy_record_renderer_system_prompt(),
    ] {
        assert!(s.starts_with("- AI 언어모델의 이름은 \"CLOVA X\" 이며 네이버에서 만들었다.\n- 반드시 한국어로만 답하라.\n"));
    }
    assert!(build_strategy_record_renderer_system_prompt().contains("summary, actors, timeline, issues, evidence, recommended_questions만"));
}

#[test]
fn questions_are_asked_with_their_evidence() {
    let mut p = packet();
    p.evidence_records = vec![evidence("E1")];
    p.legal_references = vec![law()];
    let a = build_strategy_user_prompt(&p, None, " 질문문 ", Some("메모문"), &[]);
    assert!(a.contains("[E1] 2024 | 김 | 전화 | 복도 | 다툼"));
    assert!(a.contains("질문문") && a.contains("메모문") && a.contains("- 이전 대화 없음"));
    let d = build_strategy_user_prompt_for_draft(&p, None, "질문문", None);
    assert!(d.contains("질문문") && d.contains("[E1]"));
    let r = build_strategy_record_user_prompt(&template(), &p, None, "입력문", None, &[]);
    assert!(r.contains("[사용자 입력 상황]") && r.contains("입력문") && r.contains("기록 작성 기준"));
    let f = build_strategy_record_fill_user_prompt(&template(), &p, None, "입력문", None, "골격문");
    assert!(f.contains("[HyperCLOVA-X 기록 골격]") && f.contains("골격문"));
    let h = build_strategy_record_hybrid_user_prompt(&template(), &p, None, "입력문", None, "하이퍼", "루지");
    assert!(h.contains("하이퍼") && h.contains("루지"));
    let v = build_strategy_record_review_user_prompt(&template(), &p, None, "입력문", None, "초안문");
    assert!(v.contains("[현재 기록 초안]") && v.contains("초안문"));
    let y = build_strategy_hybrid_user_prompt(&p, None, "질문문", None, "하이퍼", "루지");
    assert!(y.contains("[HyperCLOVA-X 초안]") && y.contains("[Roosy-X 초안]"));
    let n = build_strategy_record_renderer_user_prompt(&p, None, "입력문", None, "초안문");
    assert!(n.contains("입력문") && n.contains("초안문"));
}
