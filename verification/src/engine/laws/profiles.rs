//! What holds of how sensitive a record is, and of what the models are told of its template.

use crate::engine::packet::StrategyEvidencePacket;
use crate::engine::sanitize;
use crate::engine::template;
use crate::engine::template::{Criterion, RubricEntry, SensitivityRules};
use crate::lists;
use crate::sorting;
use crate::sorting::Ordered;
use crate::strs;
use vstd::prelude::*;

verus! {

/// The text has one of these words of harm.
pub open spec fn has_harm(s: Seq<char>) -> bool {
    ||| strs::contains(s, "성"@)
    ||| strs::contains(s, "아동학대"@)
    ||| strs::contains(s, "신체"@)
    ||| strs::contains(s, "안전"@)
    ||| strs::contains(s, "폭행"@)
    ||| strs::contains(s, "유출"@)
    ||| strs::contains(s, "온라인"@)
    ||| strs::contains(s, "녹취"@)
    ||| strs::contains(s, "신고"@)
}

/// The text has one of these words of handing something in.
pub open spec fn has_submission(s: Seq<char>) -> bool {
    ||| strs::contains(s, "제출"@)
    ||| strs::contains(s, "보고"@)
    ||| strs::contains(s, "교육청"@)
    ||| strs::contains(s, "민원"@)
    ||| strs::contains(s, "변호사"@)
    ||| strs::contains(s, "위원회"@)
    ||| strs::contains(s, "법률"@)
    ||| strs::contains(s, "공문"@)
    ||| strs::contains(s, "상담용"@)
    ||| strs::contains(s, "정식"@)
}

/// The text has one of these words for people from outside.
pub open spec fn has_outsider(s: Seq<char>) -> bool {
    ||| strs::contains(s, "학부모"@)
    ||| strs::contains(s, "보호자"@)
    ||| strs::contains(s, "교육청"@)
    ||| strs::contains(s, "변호사"@)
    ||| strs::contains(s, "경찰"@)
    ||| strs::contains(s, "관리자"@)
    ||| strs::contains(s, "교감"@)
    ||| strs::contains(s, "교장"@)
    ||| strs::contains(s, "외부"@)
}

/// The text has one of these words of pressure.
pub open spec fn has_pressure(s: Seq<char>) -> bool {
    ||| strs::contains(s, "민원"@)
    ||| strs::contains(s, "외부"@)
    ||| strs::contains(s, "교육청"@)
    ||| strs::contains(s, "학부모"@)
    ||| strs::contains(s, "보호자"@)
    ||| strs::contains(s, "반복"@)
    ||| strs::contains(s, "압박"@)
    ||| strs::contains(s, "비난"@)
    ||| strs::contains(s, "갈등"@)
}

proof fn lemma_words(s: Seq<char>)
    ensures
        template::speaks_of_harm(s) <==> has_harm(s),
        template::wants_submission(s) <==> has_submission(s),
        template::names_outsider(s) <==> has_outsider(s),
        template::speaks_of_pressure(s) <==> has_pressure(s),
{
    let a = seq!["성"@, "아동학대"@, "신체"@, "안전"@, "폭행"@, "유출"@, "온라인"@, "녹취"@, "신고"@];
    assert(a[0] == "성"@ && a[1] == "아동학대"@ && a[2] == "신체"@ && a[3] == "안전"@ && a[4] == "폭행"@);
    assert(a[5] == "유출"@ && a[6] == "온라인"@ && a[7] == "녹취"@ && a[8] == "신고"@);
    let b = seq![
        "제출"@,
        "보고"@,
        "교육청"@,
        "민원"@,
        "변호사"@,
        "위원회"@,
        "법률"@,
        "공문"@,
        "상담용"@,
        "정식"@,
    ];
    assert(b[0] == "제출"@ && b[1] == "보고"@ && b[2] == "교육청"@ && b[3] == "민원"@ && b[4] == "변호사"@);
    assert(b[5] == "위원회"@ && b[6] == "법률"@ && b[7] == "공문"@ && b[8] == "상담용"@ && b[9] == "정식"@);
    let c = seq![
        "학부모"@,
        "보호자"@,
        "교육청"@,
        "변호사"@,
        "경찰"@,
        "관리자"@,
        "교감"@,
        "교장"@,
        "외부"@,
    ];
    assert(c[0] == "학부모"@ && c[1] == "보호자"@ && c[2] == "교육청"@ && c[3] == "변호사"@ && c[4] == "경찰"@);
    assert(c[5] == "관리자"@ && c[6] == "교감"@ && c[7] == "교장"@ && c[8] == "외부"@);
    let d = seq!["민원"@, "외부"@, "교육청"@, "학부모"@, "보호자"@, "반복"@, "압박"@, "비난"@, "갈등"@];
    assert(d[0] == "민원"@ && d[1] == "외부"@ && d[2] == "교육청"@ && d[3] == "학부모"@ && d[4] == "보호자"@);
    assert(d[5] == "반복"@ && d[6] == "압박"@ && d[7] == "비난"@ && d[8] == "갈등"@);
}

/// A message of harm is of the highest level, whatever else it says; one that hands something in,
/// or puts pressure on outsiders, is high; one of pressure, of outsiders or with provisions is a
/// warning; one with two records or with gaps is to be watched; and any other is general.
pub proof fn a_message_is_as_sensitive_as_its_words(packet: StrategyEvidencePacket, message: Seq<char>)
    ensures
        ({
            let s = sanitize::compact(message);
            let level = template::profile_of(packet, message).sensitivity_key;
            let records = packet.evidence_records@.len();
            let gaps = packet.gaps@.len();
            let laws = packet.legal_references@.len();
            let high = has_submission(s) || (has_pressure(s) && has_outsider(s));
            let warned = has_pressure(s) || has_outsider(s) || laws > 0;
            &&& has_harm(s) ==> level == "lv5_critical"@
            &&& !has_harm(s) && high ==> level == "lv4_high"@
            &&& !has_harm(s) && !high && warned ==> level == "lv3_warning"@
            &&& !has_harm(s) && !high && !warned && (records >= 2 || gaps >= 1) ==> level
                == "lv2_attention"@
            &&& !has_harm(s) && !high && !warned && records < 2 && gaps == 0 ==> level
                == "lv1_general"@
        }),
{
    lemma_words(sanitize::compact(message));
}

/// A record is guarded where it tells of harm or is to be handed in, or where two gaps or two
/// provisions were gathered; and it is known to be handed in by its words.
pub proof fn a_record_is_guarded_where_it_matters(packet: StrategyEvidencePacket, message: Seq<char>)
    ensures
        ({
            let s = sanitize::compact(message);
            let p = template::profile_of(packet, message);
            &&& p.guard_required <==> has_harm(s) || has_submission(s) || packet.gaps@.len() >= 2
                || packet.legal_references@.len() >= 2
            &&& p.submission_intent <==> has_submission(s)
        }),
{
    lemma_words(sanitize::compact(message));
}

/// Each model is told what to look at, and never nothing: the default model of the gaps, of handing
/// in and of three records, the trained model of short messages and of records.
pub proof fn each_model_is_told_what_to_look_at(packet: StrategyEvidencePacket, message: Seq<char>)
    ensures
        ({
            let s = sanitize::compact(message);
            let p = template::profile_of(packet, message);
            let records = packet.evidence_records@.len();
            let gaps = packet.gaps@.len();
            let laws = packet.legal_references@.len();
            &&& p.hyper_focus.len() > 0 && p.roosy_focus.len() > 0
            &&& p.hyper_focus.contains("누락 정보와 추가 확인 필요 부분을 엄격히 분리"@) || gaps == 0
            &&& laws >= 2 || has_submission(s) ==> p.hyper_focus.contains(
                "제출용으로 재사용 가능한 중립 구조와 사실 흐름 우선"@,
            )
            &&& records >= 3 ==> p.hyper_focus.contains(
                "기존 기록과 현재 입력을 엮어 시간 흐름과 배경을 선명하게 구조화"@,
            )
            &&& gaps == 0 && laws < 2 && !has_submission(s) && records < 3 ==> p.hyper_focus
                == seq!["사실·시간·조치 순서를 안정적으로 먼저 세우기"@]
            &&& s.len() <= 60 ==> p.roosy_focus.contains(
                "짧은 입력을 빠른캡쳐형 실무 문장으로 자연스럽게 확장"@,
            )
            &&& records >= 1 ==> p.roosy_focus.contains(
                "각 섹션 안의 문장 연결과 현장형 표현 보강"@,
            )
            &&& s.len() > 60 && records == 0 ==> p.roosy_focus
                == seq!["구조를 건드리지 않는 범위에서 세부 문장을 촘촘하게 채우기"@]
        }),
{
    let s = sanitize::compact(message);
    lemma_words(s);
    let p = template::profile_of(packet, message);
    let records = packet.evidence_records@.len();
    let gaps = packet.gaps@.len();
    let laws = packet.legal_references@.len();
    let a = if gaps > 0 {
        1int
    } else {
        0
    };
    let b = if laws >= 2 || has_submission(s) {
        1int
    } else {
        0
    };
    if gaps > 0 {
        assert(p.hyper_focus[0] == "누락 정보와 추가 확인 필요 부분을 엄격히 분리"@);
    }
    if laws >= 2 || has_submission(s) {
        assert(p.hyper_focus[a] == "제출용으로 재사용 가능한 중립 구조와 사실 흐름 우선"@);
    }
    if records >= 3 {
        assert(p.hyper_focus[a + b]
            == "기존 기록과 현재 입력을 엮어 시간 흐름과 배경을 선명하게 구조화"@);
    }
    if gaps == 0 && laws < 2 && !has_submission(s) && records < 3 {
        assert(p.hyper_focus =~= seq!["사실·시간·조치 순서를 안정적으로 먼저 세우기"@]);
    }
    let c = if s.len() <= 60 {
        1int
    } else {
        0
    };
    if s.len() <= 60 {
        assert(p.roosy_focus[0] == "짧은 입력을 빠른캡쳐형 실무 문장으로 자연스럽게 확장"@);
    }
    if records >= 1 {
        assert(p.roosy_focus[c] == "각 섹션 안의 문장 연결과 현장형 표현 보강"@);
    }
    if s.len() > 60 && records == 0 {
        assert(p.roosy_focus =~= seq!["구조를 건드리지 않는 범위에서 세부 문장을 촘촘하게 채우기"@]);
    }
}

/// Every criterion is told in a line of its own, with its weight; the heaviest come first.
pub proof fn criteria_are_told_by_their_weight(rubric: Seq<Criterion>, c: Criterion)
    requires
        rubric.contains(c),
    ensures
        lists::is_line_of(
            template::rubric_summary(rubric),
            "- "@ + c.key + " (가중치 "@ + c.weight_text + "): "@ + strs::trim(c.description),
        ),
        forall|i: int, j: int|
            0 <= i < j < sorting::sorted::<RubricEntry>(rubric).len() ==> (
            #[trigger] sorting::sorted::<RubricEntry>(rubric)[i]).weight_rank >= (
            #[trigger] sorting::sorted::<RubricEntry>(rubric)[j]).weight_rank,
{
    let sorted = sorting::sorted::<RubricEntry>(rubric);
    sorting::sorting_permutes_into_order::<RubricEntry>(rubric);
    lists::permuted_lists_hold_the_same(rubric, sorted, c);
    let k = choose|k: int| 0 <= k < sorted.len() && sorted[k] == c;
    let lines = sorted.map_values(|c: Criterion| template::criterion_line(c));
    assert(lines[k] == template::criterion_line(c));
    lists::joined_lines_are_lines(lines, k);
    assert forall|i: int, j: int| 0 <= i < j < sorted.len() implies (#[trigger] sorted[i]).weight_rank
        >= (#[trigger] sorted[j]).weight_rank by {
        assert(!RubricEntry::after(sorted[i], sorted[j]));
    }
}

/// The first `n` items are told, each behind a dash on a line of its own.
pub proof fn first_items_are_told(list: Seq<Seq<char>>, n: nat, none: Seq<char>, k: int)
    requires
        0 <= k < list.len(),
        k < n,
    ensures
        lists::is_line_of(template::dashed_lines(list, n), "- "@ + strs::trim(list[k])),
        template::bullets(list, n, none) == template::dashed_lines(list, n),
        template::bullets(Seq::empty(), n, none) == none,
{
    let lines = strs::head(list, n).map_values(|s: Seq<char>| template::dashed(s));
    assert(lines[k] == "- "@ + strs::trim(list[k]));
    lists::joined_lines_are_lines(lines, k);
}

/// The rules of a level are those that stand first under its name.
pub proof fn rules_are_those_of_the_level(list: Seq<SensitivityRules>, key: Seq<char>, k: int)
    requires
        0 <= k < list.len(),
        list[k].key@ == key,
        forall|j: int| 0 <= j < k ==> (#[trigger] list[j]).key@ != key,
    ensures
        template::risk_block(list, key) == template::dashed_lines(strs::views(list[k].rules@), 3),
{
    lemma_rules(list, key, 0, k);
}

proof fn lemma_rules(list: Seq<SensitivityRules>, key: Seq<char>, i: int, k: int)
    requires
        0 <= i <= k < list.len(),
        list[k].key@ == key,
        forall|j: int| i <= j < k ==> (#[trigger] list[j]).key@ != key,
    ensures
        template::rules_from(list, key, i) == Some(strs::views(list[k].rules@)),
    decreases k - i,
{
    if i < k {
        lemma_rules(list, key, i + 1, k);
    }
}

} // verus!
