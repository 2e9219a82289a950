//! The template of a record, and what the models are told of it.

use crate::engine::labels;
use crate::engine::packet::{StrategyEvidencePacket, StrategyLegalReference};
use crate::engine::record_answer;
use crate::engine::record_answer::law_label_of;
use crate::engine::sanitize;
use crate::engine::sanitize::{strategy_compact_text, strategy_trim};
use crate::sorting;
use crate::sorting::{stable_sort, Ordered};
use crate::strs;
use crate::text;
use vstd::prelude::*;

verus! {

/// How one section of a record is written.
#[derive(Debug, Clone)]
pub struct StrategyRecordSectionGuide {
    pub section: String,
    pub objective: String,
    pub include_points: Vec<String>,
    pub writing_rules: Vec<String>,
    pub missing_value_policy: Vec<String>,
    pub quality_signals: Vec<String>,
    pub example_phrases: Vec<String>,
}

/// The form of a record.
#[derive(Debug, Clone)]
pub struct StrategyRecordOutputContract {
    pub language: String,
    pub tone: String,
    pub default_format: String,
    pub section_order: Vec<String>,
    pub citation_policy: String,
    pub legal_policy: String,
    pub teacher_confirmation_policy: String,
}

/// A criterion by which a record is judged. A higher weight has a higher rank; the weight is
/// also kept as it is written, with two decimals.
#[derive(Debug, Clone)]
pub struct RubricEntry {
    pub key: String,
    pub weight_rank: i64,
    pub weight_text: String,
    pub description: String,
}

/// The rules for one degree of sensitivity.
#[derive(Debug, Clone)]
pub struct SensitivityRules {
    pub key: String,
    pub rules: Vec<String>,
}

/// The template of a record.
#[derive(Debug, Clone)]
pub struct StrategyRecordModeTemplate {
    pub schema_version: String,
    pub purpose: String,
    pub principles: Vec<String>,
    pub quality_checklist: Vec<String>,
    pub forbidden: Vec<String>,
    pub section_guides: Vec<StrategyRecordSectionGuide>,
    pub output_contract: StrategyRecordOutputContract,
    pub input_grounding_rules: Vec<String>,
    pub risk_sensitive_rules: Vec<SensitivityRules>,
    pub completion_questions: Vec<String>,
    pub evaluation_rubric: Vec<RubricEntry>,
}

/// How a record is to be written for a message.
#[derive(Debug)]
pub struct StrategyRecordGenerationProfile {
    pub sensitivity_key: String,
    pub hyper_focus: Vec<String>,
    pub roosy_focus: Vec<String>,
    pub guard_required: bool,
    pub submission_intent: bool,
}

/// How a record is to be written, as the contracts see it.
#[verifier::ext_equal]
pub struct Profile {
    pub sensitivity_key: Seq<char>,
    pub hyper_focus: Seq<Seq<char>>,
    pub roosy_focus: Seq<Seq<char>>,
    pub guard_required: bool,
    pub submission_intent: bool,
}

impl View for StrategyRecordGenerationProfile {
    type V = Profile;

    open spec fn view(&self) -> Profile {
        Profile {
            sensitivity_key: self.sensitivity_key@,
            hyper_focus: strs::views(self.hyper_focus@),
            roosy_focus: strs::views(self.roosy_focus@),
            guard_required: self.guard_required,
            submission_intent: self.submission_intent,
        }
    }
}

/// The message speaks of handing the record to someone.
pub open spec fn wants_submission(compact: Seq<char>) -> bool {
    strs::contains_any(
        compact,
        seq![
            "제출"@,
            "보고"@,
            "교육청"@,
            "민원"@,
            "변호사"@,
            "위원회"@,
            "법률"@,
            "공문"@,
            "상담용"@,
            "정식"@,
        ],
    )
}

/// The message names someone from outside the class.
pub open spec fn names_outsider(compact: Seq<char>) -> bool {
    strs::contains_any(
        compact,
        seq![
            "학부모"@,
            "보호자"@,
            "교육청"@,
            "변호사"@,
            "경찰"@,
            "관리자"@,
            "교감"@,
            "교장"@,
            "외부"@,
        ],
    )
}

/// The message speaks of harm.
pub open spec fn speaks_of_harm(compact: Seq<char>) -> bool {
    strs::contains_any(
        compact,
        seq!["성"@, "아동학대"@, "신체"@, "안전"@, "폭행"@, "유출"@, "온라인"@, "녹취"@, "신고"@],
    )
}

/// The message speaks of pressure.
pub open spec fn speaks_of_pressure(compact: Seq<char>) -> bool {
    strs::contains_any(
        compact,
        seq!["민원"@, "외부"@, "교육청"@, "학부모"@, "보호자"@, "반복"@, "압박"@, "비난"@, "갈등"@],
    )
}

/// How sensitive a record is.
pub open spec fn sensitivity(compact: Seq<char>, records: nat, gaps: nat, laws: nat) -> Seq<char> {
    if speaks_of_harm(compact) {
        "lv5_critical"@
    } else if wants_submission(compact) || (speaks_of_pressure(compact) && names_outsider(compact)) {
        "lv4_high"@
    } else if speaks_of_pressure(compact) || names_outsider(compact) || laws > 0 {
        "lv3_warning"@
    } else if records >= 2 || gaps > 0 {
        "lv2_attention"@
    } else {
        "lv1_general"@
    }
}

/// What the first model should watch for.
pub open spec fn hyper_focus(compact: Seq<char>, records: nat, gaps: nat, laws: nat) -> Seq<
    Seq<char>,
> {
    let a = if gaps > 0 {
        seq!["누락 정보와 추가 확인 필요 부분을 엄격히 분리"@]
    } else {
        Seq::empty()
    };
    let b = if laws >= 2 || wants_submission(compact) {
        a.push("제출용으로 재사용 가능한 중립 구조와 사실 흐름 우선"@)
    } else {
        a
    };
    let c = if records >= 3 {
        b.push("기존 기록과 현재 입력을 엮어 시간 흐름과 배경을 선명하게 구조화"@)
    } else {
        b
    };
    if c.len() == 0 {
        c.push("사실·시간·조치 순서를 안정적으로 먼저 세우기"@)
    } else {
        c
    }
}

/// What the second model should watch for.
pub open spec fn roosy_focus(compact: Seq<char>, records: nat) -> Seq<Seq<char>> {
    let a = if compact.len() <= 60 {
        seq!["짧은 입력을 빠른캡쳐형 실무 문장으로 자연스럽게 확장"@]
    } else {
        Seq::empty()
    };
    let b = if records >= 1 {
        a.push("각 섹션 안의 문장 연결과 현장형 표현 보강"@)
    } else {
        a
    };
    if b.len() == 0 {
        b.push("구조를 건드리지 않는 범위에서 세부 문장을 촘촘하게 채우기"@)
    } else {
        b
    }
}

/// How a record is to be written for a message.
pub open spec fn profile_of(packet: StrategyEvidencePacket, message: Seq<char>) -> Profile {
    let compact = sanitize::compact(message);
    let records = packet.evidence_records@.len();
    let gaps = packet.gaps@.len();
    let laws = packet.legal_references@.len();
    Profile {
        sensitivity_key: sensitivity(compact, records, gaps, laws),
        hyper_focus: hyper_focus(compact, records, gaps, laws),
        roosy_focus: roosy_focus(compact, records),
        guard_required: speaks_of_harm(compact) || wants_submission(compact) || gaps >= 2 || laws
            >= 2,
        submission_intent: wants_submission(compact),
    }
}

/// How a record is to be written for a message.
pub fn strategy_record_generation_profile(
    evidence_packet: &StrategyEvidencePacket,
    message: &str,
) -> (r: StrategyRecordGenerationProfile)
    ensures
        r@ == profile_of(*evidence_packet, message@),
{
    let compact = strategy_compact_text(message);
    let records: usize = evidence_packet.evidence_records.len();
    let gaps: usize = evidence_packet.gaps.len();
    let laws: usize = evidence_packet.legal_references.len();
    let submission = text::contains_any(
        &compact,
        &["제출", "보고", "교육청", "민원", "변호사", "위원회", "법률", "공문", "상담용", "정식"],
    );
    let outsider = text::contains_any(
        &compact,
        &["학부모", "보호자", "교육청", "변호사", "경찰", "관리자", "교감", "교장", "외부"],
    );
    let harm = text::contains_any(
        &compact,
        &["성", "아동학대", "신체", "안전", "폭행", "유출", "온라인", "녹취", "신고"],
    );
    let pressure = text::contains_any(
        &compact,
        &["민원", "외부", "교육청", "학부모", "보호자", "반복", "압박", "비난", "갈등"],
    );
    assert(submission == wants_submission(compact@));
    assert(outsider == names_outsider(compact@));
    assert(harm == speaks_of_harm(compact@));
    assert(pressure == speaks_of_pressure(compact@));
    let key: &'static str = if harm {
        "lv5_critical"
    } else if submission || (pressure && outsider) {
        "lv4_high"
    } else if pressure || outsider || laws > 0 {
        "lv3_warning"
    } else if records >= 2 || gaps > 0 {
        "lv2_attention"
    } else {
        "lv1_general"
    };
    let mut hyper = text::no_texts();
    if gaps > 0 {
        text::push(&mut hyper, "누락 정보와 추가 확인 필요 부분을 엄격히 분리".to_owned());
        assert(strs::views(hyper@) =~= seq!["누락 정보와 추가 확인 필요 부분을 엄격히 분리"@]);
    }
    if laws >= 2 || submission {
        text::push(&mut hyper, "제출용으로 재사용 가능한 중립 구조와 사실 흐름 우선".to_owned());
    }
    if records >= 3 {
        text::push(
            &mut hyper,
            "기존 기록과 현재 입력을 엮어 시간 흐름과 배경을 선명하게 구조화".to_owned(),
        );
    }
    assert(strs::views(hyper@).len() == hyper@.len());
    if hyper.len() == 0 {
        text::push(&mut hyper, "사실·시간·조치 순서를 안정적으로 먼저 세우기".to_owned());
    }
    let mut roosy = text::no_texts();
    if compact.unicode_len() <= 60 {
        text::push(&mut roosy, "짧은 입력을 빠른캡쳐형 실무 문장으로 자연스럽게 확장".to_owned());
        assert(strs::views(roosy@) =~= seq![
            "짧은 입력을 빠른캡쳐형 실무 문장으로 자연스럽게 확장"@,
        ]);
    }
    if records >= 1 {
        text::push(&mut roosy, "각 섹션 안의 문장 연결과 현장형 표현 보강".to_owned());
    }
    assert(strs::views(roosy@).len() == roosy@.len());
    if roosy.len() == 0 {
        text::push(
            &mut roosy,
            "구조를 건드리지 않는 범위에서 세부 문장을 촘촘하게 채우기".to_owned(),
        );
    }
    StrategyRecordGenerationProfile {
        sensitivity_key: key.to_owned(),
        hyper_focus: hyper,
        roosy_focus: roosy,
        guard_required: harm || submission || gaps >= 2 || laws >= 2,
        submission_intent: submission,
    }
}

/// A criterion, as the contracts see it.
#[verifier::ext_equal]
pub struct Criterion {
    pub key: Seq<char>,
    pub weight_rank: int,
    pub weight_text: Seq<char>,
    pub description: Seq<char>,
}

impl View for RubricEntry {
    type V = Criterion;

    open spec fn view(&self) -> Criterion {
        Criterion {
            key: self.key@,
            weight_rank: self.weight_rank as int,
            weight_text: self.weight_text@,
            description: self.description@,
        }
    }
}

impl Ordered for RubricEntry {
    open spec fn after(a: Criterion, b: Criterion) -> bool {
        a.weight_rank < b.weight_rank
    }

    fn comes_after(&self, other: &Self) -> (r: bool) {
        self.weight_rank < other.weight_rank
    }
}

/// The line of a criterion.
pub open spec fn criterion_line(c: Criterion) -> Seq<char> {
    ("- "@ + c.key + " (가중치 "@ + c.weight_text + "): "@ + strs::trim(c.description))
}

fn criterion_line_of(entry: &RubricEntry) -> (r: String)
    ensures
        r@ == criterion_line(entry@),
{
    let mut out = text::copy("- ");
    out.append(&entry.key);
    out.append(" (가중치 ");
    out.append(&entry.weight_text);
    out.append("): ");
    out.append(&text::trim(&entry.description));
    out
}

/// The criteria of a record, the weightiest first.
pub open spec fn rubric_summary(rubric: Seq<Criterion>) -> Seq<char> {
    if rubric.len() == 0 {
        "- 별도 평가 기준 없음"@
    } else {
        strs::join(
            sorting::sorted::<RubricEntry>(rubric).map_values(|c: Criterion| criterion_line(c)),
            "\n"@,
        )
    }
}

/// The criteria of a record, the weightiest first.
pub fn build_strategy_record_rubric_summary(rubric: &Vec<RubricEntry>) -> (r: String)
    ensures
        r@ == rubric_summary(strs::deep(rubric@)),
{
    assert(strs::deep(rubric@).len() == rubric@.len());
    if rubric.len() == 0 {
        return "- 별도 평가 기준 없음".to_owned();
    }
    let mut copy: Vec<RubricEntry> = Vec::new();
    let mut i: usize = 0;
    while i < rubric.len()
        invariant
            i <= rubric@.len(),
            copy@ =~= rubric@.take(i as int),
        decreases rubric@.len() - i,
    {
        copy.push(
            RubricEntry {
                key: rubric[i].key.clone(),
                weight_rank: rubric[i].weight_rank,
                weight_text: rubric[i].weight_text.clone(),
                description: rubric[i].description.clone(),
            },
        );
        i += 1;
    }
    assert(copy@ =~= rubric@);
    let ordered = stable_sort(copy);
    let n: usize = ordered.len();
    let lines = text::map_first(
        &ordered,
        n,
        criterion_line_of,
        Ghost(|e: RubricEntry| criterion_line(e@)),
    );
    assert(strs::head(ordered@, n as nat) =~= ordered@);
    assert(ordered@.map_values(|e: RubricEntry| criterion_line(e@)) =~= strs::deep(
        ordered@,
    ).map_values(|c: Criterion| criterion_line(c)));
    text::join(&lines, "\n")
}

/// A line with a dash before it.
pub open spec fn dashed(s: Seq<char>) -> Seq<char> {
    "- "@ + strs::trim(s)
}

/// A line with a dash before it.
pub fn dashed_line(s: &str) -> (r: String)
    ensures
        r@ == dashed(s@),
{
    let mut out = "- ".to_owned();
    out.append(&text::trim(s));
    out
}

/// The first `n` lines, with a dash before each.
pub open spec fn dashed_lines(list: Seq<Seq<char>>, n: nat) -> Seq<char> {
    strs::join(strs::head(list, n).map_values(|s: Seq<char>| dashed(s)), "\n"@)
}

/// The first `n` lines, with a dash before each; `none` where there is no line.
pub open spec fn bullets(list: Seq<Seq<char>>, n: nat, none: Seq<char>) -> Seq<char> {
    if list.len() == 0 {
        none
    } else {
        dashed_lines(list, n)
    }
}

/// The first `n` lines, with a dash before each.
pub fn dashed_block(list: &Vec<String>, n: usize) -> (r: String)
    ensures
        r@ == dashed_lines(strs::views(list@), n as nat),
{
    let first = text::head(list, n);
    text::join(&text::map_texts(&first, dashed_line, Ghost(|s: Seq<char>| dashed(s))), "\n")
}

/// The first `n` lines, with a dash before each; `none` where there is no line.
pub fn bullet_block(list: &Vec<String>, n: usize, none: &str) -> (r: String)
    ensures
        r@ == bullets(strs::views(list@), n as nat, none@),
{
    assert(strs::views(list@).len() == list@.len());
    if list.len() == 0 {
        none.to_owned()
    } else {
        dashed_block(list, n)
    }
}

/// A label and the first `n` items of a list; nothing where there is no item.
pub open spec fn labelled(label: Seq<char>, list: Seq<Seq<char>>, n: nat) -> Seq<char> {
    if list.len() == 0 {
        ""@
    } else {
        label + strs::join(strs::head(list, n), ", "@)
    }
}

fn labelled_list(label: &str, list: &Vec<String>, n: usize) -> (r: String)
    ensures
        r@ == labelled(label@, strs::views(list@), n as nat),
{
    assert(strs::views(list@).len() == list@.len());
    if list.len() == 0 {
        return "".to_owned();
    }
    let mut out = label.to_owned();
    out.append(&text::join(&text::head(list, n), ", "));
    out
}

/// The line of a section.
pub open spec fn guide_line(g: StrategyRecordSectionGuide) -> Seq<char> {
    let example = if g.example_phrases@.len() == 0 {
        ""@
    } else {
        (" | 예시: "@ + labels::brief(g.example_phrases@[0]@, 50))
    };
    ("- "@ + strs::trim(g.section@) + ": "@ + strs::trim(g.objective@) + labelled(" | 포함: "@, strs::views(g.include_points@), 3) + labelled(" | 작성: "@, strs::views(g.writing_rules@), 2) + labelled(" | 누락값 처리: "@, strs::views(g.missing_value_policy@), 2) + example)
}

fn guide_line_of(guide: &StrategyRecordSectionGuide) -> (r: String)
    ensures
        r@ == guide_line(*guide),
{
    let example = if guide.example_phrases.len() == 0 {
        "".to_owned()
    } else {
        let mut line = text::copy(" | 예시: ");
        line.append(&labels::brief_text(&guide.example_phrases[0], 50));
        line
    };
    let mut out = text::copy("- ");
    out.append(&text::trim(&guide.section));
    out.append(": ");
    out.append(&text::trim(&guide.objective));
    out.append(&labelled_list(" | 포함: ", &guide.include_points, 3));
    out.append(&labelled_list(" | 작성: ", &guide.writing_rules, 2));
    out.append(&labelled_list(" | 누락값 처리: ", &guide.missing_value_policy, 2));
    out.append(&example);
    out
}

/// The lines on the form of a record, without those that say nothing.
pub open spec fn contract_lines(c: StrategyRecordOutputContract) -> Seq<Seq<char>> {
    strs::keep(
        seq![
            ("- 형식: "@ + strs::trim(c.default_format@)),
            ("- 문체: "@ + strs::trim(c.tone@)),
            ("- 참조 규칙: "@ + strs::trim(c.citation_policy@)),
            ("- 법령 규칙: "@ + strs::trim(c.legal_policy@)),
            ("- 교사 확인 원칙: "@ + strs::trim(c.teacher_confirmation_policy@)),
        ],
        |line: Seq<char>| !strs::ends_with(line, ": "@),
    )
}

fn contract_lines_of(c: &StrategyRecordOutputContract) -> (r: Vec<String>)
    ensures
        strs::views(r@) == contract_lines(*c),
{
    let mut a = text::copy("- 형식: ");
    a.append(&text::trim(&c.default_format));
    let mut b = text::copy("- 문체: ");
    b.append(&text::trim(&c.tone));
    let mut d = text::copy("- 참조 규칙: ");
    d.append(&text::trim(&c.citation_policy));
    let mut e = text::copy("- 법령 규칙: ");
    e.append(&text::trim(&c.legal_policy));
    let mut f = text::copy("- 교사 확인 원칙: ");
    f.append(&text::trim(&c.teacher_confirmation_policy));
    let all = text::owned(&[a.as_str(), b.as_str(), d.as_str(), e.as_str(), f.as_str()]);
    let ghost wanted = seq![a@, b@, d@, e@, f@];
    assert(strs::views(all@) =~= wanted);
    let ghost p = |line: Seq<char>| !strs::ends_with(line, ": "@);
    let mut out = text::no_texts();
    let mut i: usize = 0;
    assert(strs::keep(wanted.take(0), p) =~= Seq::empty());
    while i < all.len()
        invariant
            i <= all@.len(),
            wanted == strs::views(all@),
            p == (|line: Seq<char>| !strs::ends_with(line, ": "@)),
            strs::views(out@) == strs::keep(wanted.take(i as int), p),
        decreases all@.len() - i,
    {
        assert(wanted.take(i + 1).drop_last() =~= wanted.take(i as int));
        if !text::ends_with(&all[i], ": ") {
            text::push(&mut out, all[i].clone());
        }
        i += 1;
    }
    assert(wanted.take(i as int) =~= wanted);
    out
}

/// The rules for that degree of sensitivity, from position `i` on.
pub open spec fn rules_from(list: Seq<SensitivityRules>, key: Seq<char>, i: int) -> Option<
    Seq<Seq<char>>,
>
    decreases list.len() - i,
{
    if i < 0 || i >= list.len() {
        None
    } else if list[i].key@ == key {
        Some(strs::views(list[i].rules@))
    } else {
        rules_from(list, key, i + 1)
    }
}

/// The rules for that degree of sensitivity.
pub open spec fn risk_block(list: Seq<SensitivityRules>, key: Seq<char>) -> Seq<char> {
    match rules_from(list, key, 0) {
        Some(rules) => dashed_lines(rules, 3),
        None => "- 별도 민감도 규칙 없음"@,
    }
}

fn risk_block_of(list: &Vec<SensitivityRules>, key: &str) -> (r: String)
    ensures
        r@ == risk_block(list@, key@),
{
    let mut i: usize = 0;
    while i < list.len()
        invariant
            i <= list@.len(),
            rules_from(list@, key@, 0) == rules_from(list@, key@, i as int),
        decreases list@.len() - i,
    {
        if text::same(&list[i].key, key) {
            return dashed_block(&list[i].rules, 3);
        }
        i += 1;
    }
    "- 별도 민감도 규칙 없음".to_owned()
}

/// Yes or no.
pub open spec fn yes_no(b: bool) -> Seq<char> {
    if b {
        "예"@
    } else {
        "아니오"@
    }
}

fn yes_no_text(b: bool) -> (r: &'static str)
    ensures
        r@ == yes_no(b),
{
    if b {
        "예"
    } else {
        "아니오"
    }
}

/// What the models are told of the message of a record.
pub open spec fn routing_note(p: Profile) -> Seq<char> {
    ("- 현재 민감도 추정: "@ + p.sensitivity_key + "\n- 제출/대응 문서 의도 감지: "@ + yes_no(p.submission_intent) + "\n- HyperCLOVA-X 우선 포인트: "@ + strs::join(p.hyper_focus, ", "@) + "\n- Roosy-X 보강 포인트: "@ + strs::join(p.roosy_focus, ", "@) + "\n- 추가 guard 필요 여부: "@ + yes_no(p.guard_required))
}

/// The lines of the sections of a record.
pub open spec fn guide_block(guides: Seq<StrategyRecordSectionGuide>) -> Seq<char> {
    if guides.len() == 0 {
        "- 별도 섹션 가이드 없음"@
    } else {
        strs::join(guides.map_values(|g: StrategyRecordSectionGuide| guide_line(g)), "\n"@)
    }
}

/// What the models are told of the template of a record.
pub open spec fn template_block(t: StrategyRecordModeTemplate, p: Profile) -> Seq<char> {
    ("기록 작성 기준\n- 목적\n- "@ + strs::trim(t.purpose@) + "\n- 핵심 원칙\n"@ + bullets(strs::views(t.principles@), 5, "- 별도 원칙 없음"@) + "\n- 입력 grounding 규칙\n"@ + bullets(strs::views(t.input_grounding_rules@), 5, "- 별도 grounding 규칙 없음"@) + "\n- 출력 계약\n"@ + strs::join(contract_lines(t.output_contract), "\n"@) + "\n- 섹션 작성 메모\n"@ + guide_block(t.section_guides@) + "\n- 민감도/역할 힌트\n"@ + routing_note(p) + "\n- 현재 민감도 규칙\n"@ + risk_block(t.risk_sensitive_rules@, p.sensitivity_key) + "\n- 품질 점검\n"@ + bullets(strs::views(t.quality_checklist@), 6, "- 별도 점검 항목 없음"@) + "\n- 보강 질문\n"@ + bullets(strs::views(t.completion_questions@), 6, "- 별도 보강 질문 없음"@) + "\n- 평가 매트릭\n"@ + rubric_summary(strs::deep(t.evaluation_rubric@)) + "\n- 금지 사항\n"@ + bullets(strs::views(t.forbidden@), 6, "- 별도 금지 항목 없음"@))
}

/// What the models are told of the template of a record.
pub fn build_strategy_record_template_prompt_block(
    template: &StrategyRecordModeTemplate,
    evidence_packet: &StrategyEvidencePacket,
    message: &str,
) -> (r: String)
    ensures
        r@ == template_block(*template, profile_of(*evidence_packet, message@)),
{
    let profile = strategy_record_generation_profile(evidence_packet, message);
    let principles = bullet_block(&template.principles, 5, "- 별도 원칙 없음");
    let grounding = bullet_block(&template.input_grounding_rules, 5, "- 별도 grounding 규칙 없음");
    let n: usize = template.section_guides.len();
    let sections = if n == 0 {
        "- 별도 섹션 가이드 없음".to_owned()
    } else {
        let lines = text::map_first(
            &template.section_guides,
            n,
            guide_line_of,
            Ghost(|g: StrategyRecordSectionGuide| guide_line(g)),
        );
        assert(strs::head(template.section_guides@, n as nat) =~= template.section_guides@);
        text::join(&lines, "\n")
    };
    let contract = text::join(&contract_lines_of(&template.output_contract), "\n");
    let checklist = bullet_block(&template.quality_checklist, 6, "- 별도 점검 항목 없음");
    let forbidden = bullet_block(&template.forbidden, 6, "- 별도 금지 항목 없음");
    let questions = bullet_block(&template.completion_questions, 6, "- 별도 보강 질문 없음");
    let risk_rules = risk_block_of(&template.risk_sensitive_rules, &profile.sensitivity_key);
    let mut note = text::copy("- 현재 민감도 추정: ");
    note.append(&profile.sensitivity_key);
    note.append("\n- 제출/대응 문서 의도 감지: ");
    note.append(yes_no_text(profile.submission_intent));
    note.append("\n- HyperCLOVA-X 우선 포인트: ");
    note.append(&text::join(&profile.hyper_focus, ", "));
    note.append("\n- Roosy-X 보강 포인트: ");
    note.append(&text::join(&profile.roosy_focus, ", "));
    note.append("\n- 추가 guard 필요 여부: ");
    note.append(yes_no_text(profile.guard_required));
    let rubric = build_strategy_record_rubric_summary(&template.evaluation_rubric);
    let mut out = text::copy("기록 작성 기준\n- 목적\n- ");
    out.append(&text::trim(&template.purpose));
    out.append("\n- 핵심 원칙\n");
    out.append(&principles);
    out.append("\n- 입력 grounding 규칙\n");
    out.append(&grounding);
    out.append("\n- 출력 계약\n");
    out.append(&contract);
    out.append("\n- 섹션 작성 메모\n");
    out.append(&sections);
    out.append("\n- 민감도/역할 힌트\n");
    out.append(&note);
    out.append("\n- 현재 민감도 규칙\n");
    out.append(&risk_rules);
    out.append("\n- 품질 점검\n");
    out.append(&checklist);
    out.append("\n- 보강 질문\n");
    out.append(&questions);
    out.append("\n- 평가 매트릭\n");
    out.append(&rubric);
    out.append("\n- 금지 사항\n");
    out.append(&forbidden);
    out
}

/// The line of a law in the prompt of a record.
pub open spec fn record_law_line(item: StrategyLegalReference) -> Seq<char> {
    let article = if strs::trim(item.article_ref@).len() == 0 {
        strs::trim(item.article_title@)
    } else {
        (strs::trim(item.article_ref@) + " "@ + strs::trim(item.article_title@))
    };
    ("- "@ + record_answer::law_label(item) + " "@ + strs::trim(article) + ": "@ + labels::brief(item.teacher_use_case@, 70))
}

fn record_law_line_of(item: &StrategyLegalReference) -> (r: String)
    ensures
        r@ == record_law_line(*item),
{
    let article = if text::is_blank(&item.article_ref) {
        text::trim(&item.article_title)
    } else {
        let mut both = text::copy(&text::trim(&item.article_ref));
        both.append(" ");
        both.append(&text::trim(&item.article_title));
        both
    };
    let mut out = text::copy("- ");
    out.append(&law_label_of(item));
    out.append(" ");
    out.append(&text::trim(&article));
    out.append(": ");
    out.append(&labels::brief_text(&item.teacher_use_case, 70));
    out
}

/// The laws in the prompt of a record.
pub open spec fn record_law_block(laws: Seq<StrategyLegalReference>) -> Seq<char> {
    if laws.len() == 0 {
        "- 이번 상황에서 직접 연결된 참고 법령 없음"@
    } else {
        strs::join(
            strs::head(laws, 3).map_values(|l: StrategyLegalReference| record_law_line(l)),
            "\n"@,
        )
    }
}

/// The laws in the prompt of a record.
pub fn build_strategy_record_legal_prompt_block(evidence_packet: &StrategyEvidencePacket) -> (r:
    String)
    ensures
        r@ == record_law_block(evidence_packet.legal_references@),
{
    if evidence_packet.legal_references.len() == 0 {
        return "- 이번 상황에서 직접 연결된 참고 법령 없음".to_owned();
    }
    let lines = text::map_first(
        &evidence_packet.legal_references,
        3,
        record_law_line_of,
        Ghost(|l: StrategyLegalReference| record_law_line(l)),
    );
    text::join(&lines, "\n")
}

} // verus!
