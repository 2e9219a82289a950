//! The standing advice on a case.

use crate::engine::records::{AdvisorItem, CaseItem, RecordItem};
use crate::strs;
use crate::text;
use vstd::prelude::*;

verus! {

/// A piece of advice, as the contracts see it.
#[verifier::ext_equal]
pub struct Advice {
    pub id: Seq<char>,
    pub ts: Seq<char>,
    pub title: Seq<char>,
    pub body: Seq<char>,
    pub level: Seq<char>,
    pub tags: Seq<Seq<char>>,
    pub state: Seq<char>,
    pub rule_id: Option<Seq<char>>,
}

impl View for AdvisorItem {
    type V = Advice;

    open spec fn view(&self) -> Advice {
        Advice {
            id: self.id@,
            ts: self.ts@,
            title: self.title@,
            body: self.body@,
            level: self.level@,
            tags: strs::views(self.tags@),
            state: self.state@,
            rule_id: strs::opt_view(self.rule_id),
        }
    }
}

/// An id made of a prefix and a time in milliseconds.
pub fn uid(prefix: &str, millis: u64) -> (r: String)
    ensures
        r@ == prefix@ + "_"@ + strs::decimal(millis as nat),
{
    let mut out = prefix.to_owned();
    out.append("_");
    out.append(&text::decimal(millis));
    out
}

/// One piece of the standing advice.
pub open spec fn advice(
    millis: u64,
    title: Seq<char>,
    body: Seq<char>,
    level: Seq<char>,
    tag: Seq<char>,
    rule: Seq<char>,
) -> Advice {
    Advice {
        id: "ADV"@ + "_"@ + strs::decimal(millis as nat),
        ts: "1970-01-01T00:00:00Z"@,
        title,
        body,
        level,
        tags: seq![tag],
        state: "active"@,
        rule_id: Some(rule),
    }
}

fn advisor_item(millis: u64, title: &str, body: &str, level: &str, tag: &str, rule: &str) -> (r:
    AdvisorItem)
    ensures
        r@ == advice(millis, title@, body@, level@, tag@, rule@),
{
    let tags = text::owned(&[tag]);
    assert(strs::views(tags@) =~= seq![tag@]);
    AdvisorItem {
        id: uid("ADV", millis),
        ts: "1970-01-01T00:00:00Z".to_owned(),
        title: title.to_owned(),
        body: body.to_owned(),
        level: level.to_owned(),
        tags,
        state: "active".to_owned(),
        rule_id: Some(rule.to_owned()),
    }
}

/// The standing advice on a case, which is the same for every case and its records. The times at
/// which its pieces are made go into their ids.
pub fn generate_advisors_for_case(
    _case_item: &CaseItem,
    _records: &[RecordItem],
    first_ms: u64,
    second_ms: u64,
    third_ms: u64,
) -> (r: Vec<AdvisorItem>)
    ensures
        strs::deep(r@) == seq![
            advice(
                first_ms,
                "증빙 정리"@,
                "시간순으로 사실만 정리하고, 원본 증빙(녹취/문서/메신저)을 함께 묶어두세요."@,
                "info"@,
                "정리"@,
                "proto:pack"@,
            ),
            advice(
                second_ms,
                "상대에게 전달"@,
                "감정 표현 대신 사실과 조치만 전달하고, 필요하면 외부 전문기관/관리자 경로를 안내하세요."@,
                "warn"@,
                "대화"@,
                "proto:talk"@,
            ),
            advice(
                third_ms,
                "후속 조치"@,
                "내부 보고/기록 보관/재발 방지 계획을 남겨두면 추후 방어에 도움이 됩니다."@,
                "info"@,
                "후속"@,
                "proto:follow"@,
            ),
        ],
{
    let mut out: Vec<AdvisorItem> = Vec::new();
    out.push(
        advisor_item(
            first_ms,
            "증빙 정리",
            "시간순으로 사실만 정리하고, 원본 증빙(녹취/문서/메신저)을 함께 묶어두세요.",
            "info",
            "정리",
            "proto:pack",
        ),
    );
    out.push(
        advisor_item(
            second_ms,
            "상대에게 전달",
            "감정 표현 대신 사실과 조치만 전달하고, 필요하면 외부 전문기관/관리자 경로를 안내하세요.",
            "warn",
            "대화",
            "proto:talk",
        ),
    );
    out.push(
        advisor_item(
            third_ms,
            "후속 조치",
            "내부 보고/기록 보관/재발 방지 계획을 남겨두면 추후 방어에 도움이 됩니다.",
            "info",
            "후속",
            "proto:follow",
        ),
    );
    out
}

} // verus!
