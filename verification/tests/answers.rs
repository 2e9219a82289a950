//! What becomes of the answers of the models: reports, clean answers, and drafts.

use roosycozy::drace::backends::DraftVerifyResult;
use roosycozy::drace::cache_manager::HybridStage;
use roosycozy::drace::draft_provider::DraftProposal;
use roosycozy::engine::cleanup::{
    cleanup_strategy_output, finalize_strategy_answer, strategy_answer_has_evidence_ref,
};
use roosycozy::engine::drafts::{
    strategy_build_draft_proposal, strategy_build_draft_provider_state, unverified_draft,
    verified_draft_report, verify_session_options, DraftVerification,
};
use roosycozy::engine::packet::{
    StrategyEvidencePacket, StrategyEvidenceRecord, StrategyLegalReference,
};
use roosycozy::engine::structured::{
    find_object, itemized_line, strategy_build_structured_report_from_record_sections,
    strategy_estimate_structured_report_tokens, strategy_extract_action_notes_from_message,
    strategy_extract_json_object, strategy_extract_record_section_body,
    strategy_render_record_structured_answer, strategy_split_renderer_items,
    StrategyStructuredReportDraft,
};

fn strings(v: &[&str]) -> Vec<String> {
    v.iter().map(|s| s.to_string()).collect()
}

fn packet() -> StrategyEvidencePacket {
    StrategyEvidencePacket {
        mode: "direct".to_string(),
        case_title: String::new(),
        focus_summary: String::new(),
        overview: String::new(),
        actor_summary: vec![],
        timeline_summary: vec![],
        risk_summary: vec![],
        gaps: vec![],
        evidence_records: vec![],
        legal_references: vec![],
    }
}

fn evidence(id: &str, actor: &str) -> StrategyEvidenceRecord {
    StrategyEvidenceRecord {
        ref_id: id.to_string(),
        record_id: "r".to_string(),
        ts: " 2024 ".to_string(),
        actor: actor.to_string(),
        place: "복도".to_string(),
        store: "전화".to_string(),
        summary: "다툼".to_string(),
        risk_label: String::new(),
        reasons: vec![],
    }
}

fn law(short: &str, article: &str) -> StrategyLegalReference {
    StrategyLegalReference {
        ref_id: "L1".to_string(),
        law_id: "A".to_string(),
        law_name: "초중등교육법".to_string(),
        short_name: short.to_string(),
        article_ref: article.to_string(),
        article_title: "징계".to_string(),
        legal_point: String::new(),
        teacher_use_case: String::new(),
        source_url: String::new(),
        status_label: String::new(),
        relevance_reasons: vec![],
    }
}

fn report() -> StrategyStructuredReportDraft {
    StrategyStructuredReportDraft {
        summary: " 요약문 ".to_string(),
        actors: strings(&["갑", "을"]),
        timeline: strings(&["먼저", " "]),
        issues: strings(&["쟁점"]),
        evidence: vec![],
        recommended_questions: strings(&["언제인가"]),
    }
}

#[test]
fn objects_are_found_in_text() {
    let cut = |s: &str| strategy_extract_json_object(s);
    assert_eq!(cut("답: {\"a\":{\"b\":\"}\\\"\"}} 끝").as_deref(), Some("{\"a\":{\"b\":\"}\\\"\"}}"));
    assert_eq!(cut("{ {"), None);
    assert_eq!(cut(""), None);
    // A stray closing brace is made up for by the first opening one.
    assert_eq!(cut("} {}"), None);
    assert_eq!(cut("} {{} x").as_deref(), Some("{{}"));
    assert_eq!(cut("\"{\" {x}").as_deref(), Some("{x}"));
    let v: Vec<char> = "ab{c}".chars().collect();
    assert_eq!(find_object(&v, 0), Some((2, 5)));
    assert_eq!(find_object(&v, 3), None);
}

#[test]
fn items_are_split() {
    assert_eq!(
        strategy_split_renderer_items("- a / -- b·c\n\n①d②③ e", 9),
        vec!["a", "b", "c", "d", "e"]
    );
    assert_eq!(strategy_split_renderer_items("a\nb\nc", 2), vec!["a", "b"]);
    assert_eq!(itemized_line("x"), "- x");
}

#[test]
fn reports_are_weighed() {
    let mut r = report();
    r.summary = "가나다라".repeat(10);
    // 40 + 1 + 3 + 1 + 4 + 1 + 2 + 1 + 0 + 1 + 4 characters.
    r.timeline = strings(&["먼저", "b"]);
    assert_eq!(strategy_estimate_structured_report_tokens(&r), 14);
}

#[test]
fn sections_are_cut_out() {
    let text = "머리말\n[상황 요약]\n 첫째 \n\n둘째\n[배경 흐름]\n셋째\n [상황 요약] \n넷째";
    assert_eq!(strategy_extract_record_section_body(text, "[상황 요약]"), "첫째\n둘째\n넷째");
    assert_eq!(strategy_extract_record_section_body(text, "[관련 자료]"), "");
}

#[test]
fn notes_stand_between_hashes() {
    assert_eq!(
        strategy_extract_action_notes_from_message("a # 분리함 # b ## c #열림"),
        vec!["분리함"]
    );
}

#[test]
fn reports_are_made_of_sections() {
    assert!(strategy_build_structured_report_from_record_sections(&packet(), "m", "[추가 메모]\nx").is_none());
    let mut p = packet();
    p.actor_summary = strings(&["갑, 을·갑"]);
    p.evidence_records = vec![evidence("E1", " 병 ")];
    let r = strategy_build_structured_report_from_record_sections(
        &p,
        "오늘",
        "[배경 흐름]\n- 하나 / 둘\n[내 대응 메모]\n분리\n[추가 메모]\n질문\n분 리",
    )
    .unwrap();
    assert_eq!(r.summary, "오늘");
    assert_eq!(r.actors, vec!["갑", "을", "병"]);
    assert_eq!(r.timeline, vec!["하나", "둘"]);
    assert_eq!(r.issues.len(), 0);
    assert_eq!(r.evidence, vec!["[E1] 2024 | 병 | 전화 | 복도 | 다툼"]);
    assert_eq!(r.recommended_questions, vec!["질문", "분 리"]);
}

#[test]
fn reports_are_rendered() {
    let mut p = packet();
    p.evidence_records = vec![evidence("E1", "병")];
    let (text, inserted, generated) =
        strategy_render_record_structured_answer(&report(), "aaaabbbb", &p, "교실에서", "", "2024.01.02 03:04");
    assert_eq!(
        text,
        "[기록 기본정보]\n- 기록 시각: 2024.01.02 03:04\n- 주체: 교실에서\n- 상대방: 을\n- 위치/채널: 교실\n- 자료 형태: 직접 입력\n- 민감도: 보통\n\n[상황 요약]\n요약문\n\n[배경 흐름]\n먼저\n\n[핵심 포인트]\n쟁점\n\n[관련 자료]\n현재 연결된 참고 기록 1건을 우선 근거로 삼고, 필요 시 추가 메모와 주변 관찰 자료를 확보한다.\n\n[내 대응 메모]\n직접 입력된 대응 메모는 없으며, 저장 전 실제 중재·분리·안내 내용을 보강할 필요가 있다.\n\n[추가 메모]\n- 언제인가"
    );
    // The six fragments of the template, with spaces between them, have 87 characters.
    assert_eq!((inserted, generated), (21, 2));
}

#[test]
fn answers_are_cleaned() {
    assert_eq!(cleanup_strategy_output("\u{1b}[31m답\u{1b}변\u{1b}[0m\r\n"), "답변");
    assert_eq!(
        cleanup_strategy_output("x<|im_start|>assistant\n\n하나<|im_end|>\n\n\n둘<|stop|>\n> 되묻기\n버림\n\n셋\nbuild: 1\n███ ▀\n...\n깨\u{fffd}짐\n- 역할: 이것"),
        "하나\n\n둘\n셋"
    );
    let long = "가".repeat(30) + "끝 [질문] 남은 말";
    assert_eq!(cleanup_strategy_output(&long), "가".repeat(30) + "끝");
    let early = "가".repeat(20) + "[질문] 말";
    assert_eq!(cleanup_strategy_output(&early), early);
}

#[test]
fn answers_name_their_grounds() {
    assert!(strategy_answer_has_evidence_ref("a [E9]") && !strategy_answer_has_evidence_ref("E1"));
    let mut p = packet();
    assert_eq!(finalize_strategy_answer("  ", &p, "법"), "");
    assert_eq!(finalize_strategy_answer(" 답 ", &p, "법령"), "답");
    p.evidence_records = vec![evidence("E1", "김"), evidence("E2", "이"), evidence("E3", "박")];
    p.legal_references = vec![law(" ", "제1조"), law("교육법", " ")];
    p.gaps = strings(&["장소", "시각", "사람"]);
    assert_eq!(
        finalize_strategy_answer("답", &p, "관련 법령을 알려줘"),
        "답\n\n참고로 지금 판단의 중심 근거는 [E1] 2024 / 김 / 다툼, [E2] 2024 / 이 / 다툼 정도예요.\n\n관련 법령으로는 [L1] 초중등교육법 제1조 징계, [L1] 교육법 징계 정도가 함께 연결돼요.\n\n추가로 장소, 시각 부분은 아직 확실하지 않아 확인이 더 필요해요."
    );
    assert_eq!(finalize_strategy_answer("[E1] [L1] 확인 필요", &p, "법령"), "[E1] [L1] 확인 필요");
}

fn proposal(n: usize) -> DraftProposal {
    DraftProposal {
        provider_name: "template".to_string(),
        token_ids: (0..n as u32).collect(),
        rendered_fragments: vec![],
    }
}

fn verdict(accepted_len: usize, accepted_text: &str) -> DraftVerifyResult {
    DraftVerifyResult {
        accepted_len,
        accepted_tokens: vec![],
        accepted_text: accepted_text.to_string(),
        rejected_at: None,
        verify_ms: 0,
        correction_token_id: None,
    }
}

#[test]
fn drafts_are_proposed() {
    let p = strategy_build_draft_proposal(HybridStage::RecordReview, " Template ", "m", true, None, 0);
    assert_eq!((p.provider_name.as_str(), p.token_ids.as_slice()), ("template", &['{' as u32][..]));
    assert_eq!(p.rendered_fragments.len(), 6);
    let p = strategy_build_draft_proposal(HybridStage::RecordReview, "", "m", true, None, 9);
    assert_eq!((p.provider_name.as_str(), p.token_ids.len(), p.rendered_fragments.len()), ("noop", 0, 0));
    let s = strategy_build_draft_provider_state(HybridStage::RecordMain, "m", false, Some("h".to_string()));
    assert_eq!((s.stage.as_str(), s.model_id.as_str(), s.prompt_hash.as_deref()), ("record_main", "m", Some("h")));
    let o = verify_session_options("m", "e", "p", Some(2), true, "", 100, 4, 0, 7);
    assert_eq!((o.n_ctx, o.max_tokens, o.assistant_prefix), (Some(3584), 1, None));
    assert_eq!((o.temperature_milli, o.top_p_milli, o.repeat_penalty_milli), (0, 1000, 1000));
    let o = verify_session_options("m", "e", "p", None, true, "x", 5000, 4, 9, 7);
    assert_eq!((o.n_ctx, o.max_tokens, o.assistant_prefix.as_deref()), (Some(5000), 9, Some("x")));
}

#[test]
fn drafts_are_checked_in_batches() {
    let mut v = DraftVerification::start(&proposal(20));
    assert_eq!(v.next_batch().unwrap().len(), 16);
    v.take(Some(&verdict(16, "앞")));
    assert_eq!(v.next_batch().unwrap(), vec![16, 17, 18, 19]);
    assert_eq!(v.accepted_so_far(), "앞");
    v.take(Some(&verdict(4, "뒤")));
    assert!(v.next_batch().is_none());
    assert_eq!(v.counts(), (20, 2));
    let r = v.finish("10.00");
    assert_eq!((r.accepted_tokens, r.rejected_tokens, r.accepted_text.as_str()), (20, 0, "앞뒤"));
    assert!(r.synthetic_applied && r.bypass_reason.is_empty());
    assert_eq!(
        verified_draft_report(&r).unwrap(),
        "DRaCE verification draft가 20토큰 정도 먼저 맞아 들어가 resident 생성 앞단에 붙였어요."
    );
}

#[test]
fn drafts_that_fail_are_given_up() {
    let mut v = DraftVerification::start(&proposal(20));
    v.take(Some(&verdict(1, "앞")));
    assert!(v.next_batch().is_none());
    let r = v.finish("1.00");
    assert_eq!((r.proposed_tokens, r.accepted_tokens, r.rejected_tokens), (20, 1, 19));
    assert!(!r.synthetic_applied && r.accepted_text.is_empty());
    assert_eq!(r.bypass_reason, "synthetic_low_acceptance:1.00_tokens_per_verify; fallback=PrefixKV");
    assert_eq!(
        verified_draft_report(&r).unwrap(),
        "Synthetic draft 수용률이 낮아 PrefixKV로 안전하게 우회할게요. synthetic_low_acceptance:1.00_tokens_per_verify; fallback=PrefixKV"
    );

    let r = DraftVerification::start(&proposal(3)).finish("0.00");
    assert_eq!((r.rejected_tokens, r.verification_batches), (3, 0));
    assert!(verified_draft_report(&r).is_none());

    let mut v = DraftVerification::start(&proposal(3));
    v.take(None);
    assert_eq!(v.counts(), (0, 1));

    let r = unverified_draft(&proposal(5));
    assert_eq!((r.proposed_tokens, r.rejected_tokens), (5, 5));
}
