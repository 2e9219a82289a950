//! Records as they are compared and ranked, and the standing advice.

use roosycozy::engine::advise::{generate_advisors_for_case, uid};
use roosycozy::engine::normalize::{
    is_word_char, norm, text_similarity_stats, tokenize, within_range,
};
use roosycozy::engine::rank::{
    rank_reasons, rank_records_for_case, record_components, record_main_actor_names, RankedHit,
    RecordScore,
};
use roosycozy::engine::records::{ActorRef, CaseItem, RecordItem};

fn actor(name: &str) -> ActorRef {
    ActorRef { kind: "student".to_string(), name: name.to_string() }
}

fn record(id: &str, ts: &str, main: &str, related: &[&str], summary: &str) -> RecordItem {
    RecordItem {
        id: id.to_string(),
        ts: ts.to_string(),
        store_type: "전화".to_string(),
        store_other: String::new(),
        lv: "LV1".to_string(),
        actor: actor(main),
        actors: vec![],
        related: related.iter().map(|n| actor(n)).collect(),
        place: "교실".to_string(),
        place_other: String::new(),
        summary: summary.to_string(),
        summary_parts: None,
    }
}

fn case(names: &[&str], query: &str) -> CaseItem {
    CaseItem {
        id: "c".to_string(),
        title: "t".to_string(),
        query: query.to_string(),
        time_from: String::new(),
        time_to: String::new(),
        max_results: None,
        actors: names.iter().map(|n| actor(n)).collect(),
    }
}

fn score(key: i64, text_passes: bool, score_passes: bool) -> RecordScore {
    RecordScore { key, text_passes, score_passes }
}

fn ids(hits: &[RankedHit]) -> Vec<&str> {
    hits.iter().map(|h| h.id.as_str()).collect()
}

#[test]
fn texts_are_brought_to_their_normal_form() {
    assert_eq!(norm("  Foo\u{200B}BAR \n\t 가 나\u{FEFF} "), "foobar 가 나");
    assert_eq!(norm(" \u{3000} "), "");
    assert_eq!(norm("ÄÖ İ"), "äö i\u{307}");
}

#[test]
fn words_are_cut_out() {
    assert_eq!(tokenize("학부모-민원 A bc, 3반!ㅋ"), vec!["학부모", "민원", "bc", "3반", "ㅋ"]);
    assert_eq!(tokenize("a b"), Vec::<String>::new());
    assert!(is_word_char('힣') && is_word_char('ㅣ') && !is_word_char('é') && !is_word_char('_'));
}

#[test]
fn words_are_counted_in_a_summary() {
    let q = vec!["욕설".to_string(), "복도".to_string(), "x".to_string()];
    assert_eq!(text_similarity_stats(&q, "복도에서 다툼 x"), (1, 3));
    assert_eq!(text_similarity_stats(&vec![], "복도"), (0, 0));
}

#[test]
fn times_lie_in_ranges() {
    assert!(within_range("2024-01-02", "", ""));
    assert!(within_range("2024-01-02", "2024-01-02", "2024-01-02"));
    assert!(!within_range("2024-01-01", "2024-01-02", ""));
    assert!(!within_range("2024-01-03", "", "2024-01-02"));
}

#[test]
fn main_people_are_listed_once() {
    let mut r = record("r", "t", "김철수", &[], "");
    r.actors = vec![actor(" 이영희 "), actor(""), actor("이영희"), actor("김철수")];
    assert_eq!(record_main_actor_names(&r), vec!["이영희", "김철수"]);
}

#[test]
fn a_record_and_a_case_are_held_together() {
    let mut r = record("r", "2024-05-01", "A", &["B", "A", "C", ""], "욕설이 있었다");
    r.actors = vec![actor("A"), actor("D")];
    let mut c = case(&["a", "B", "d", "B"], " 욕설 민원 ");
    let comp = record_components(&r, &c);
    assert_eq!((comp.q_hit, comp.q_total), (1, 2));
    assert_eq!((comp.actor_hits, comp.actor_match), (2, true));
    assert_eq!(comp.related_hits, 1);
    assert!(comp.is_main_actor);
    assert_eq!(comp.in_range, None);
    assert_eq!(
        rank_reasons(&comp),
        vec!["자동(랭킹)", "주요 당사자 포함", "주체 일치 2명", "관련자 일치 1명", "키워드 1/2"]
    );
    c.time_from = "2024-06-01".to_string();
    let comp = record_components(&r, &c);
    assert_eq!(comp.in_range, Some(false));
    assert_eq!(rank_reasons(&comp).last().unwrap(), "기간 밖");
    c.time_from = "2024-04-01".to_string();
    assert_eq!(rank_reasons(&record_components(&r, &c)).last().unwrap(), "기간 내");
}

#[test]
fn records_with_the_main_person_come_first() {
    let records = vec![
        record("old", "2024-01-01", "A", &[], ""),
        record("other-low", "2024-09-09", "B", &[], ""),
        record("new", "2024-02-01", "A", &[], ""),
        record("other-high", "2024-01-01", "B", &[], ""),
        record("text", "2024-01-01", "Z", &[], "욕설"),
        record("weak", "2024-01-01", "B", &[], ""),
        record("no", "2024-01-01", "Z", &[], ""),
    ];
    let scores = vec![
        score(0, false, false),
        score(1, false, true),
        score(0, false, false),
        score(2, false, true),
        score(1, true, true),
        score(9, true, false),
        score(9, false, true),
    ];
    let hits = rank_records_for_case(&records, &case(&["A", "B"], "욕설"), None, &scores);
    assert_eq!(ids(&hits), vec!["new", "old", "other-high", "other-low", "text"]);
    assert_eq!(hits.iter().map(|h| h.rank).collect::<Vec<u32>>(), vec![1, 2, 3, 4, 5]);
    assert_eq!(hits[0].record, 2);
    assert_eq!(hits[0].reasons[1], "주요 당사자 포함");
}

#[test]
fn ties_go_by_score_time_and_id() {
    let records = vec![
        record("b", "2024-01-01", "A", &[], ""),
        record("a", "2024-01-01", "A", &[], ""),
        record("c", "2024-01-01", "A", &[], ""),
    ];
    let scores = vec![score(1, true, true), score(1, true, true), score(2, true, true)];
    let hits = rank_records_for_case(&records, &case(&["A"], ""), None, &scores);
    assert_eq!(ids(&hits), vec!["c", "a", "b"]);
    let hits = rank_records_for_case(&records, &case(&["X", "A"], ""), None, &scores);
    assert_eq!(ids(&hits), vec!["c", "a", "b"]);
}

#[test]
fn rankings_are_bounded_and_list_no_id_again() {
    let records = vec![
        record("x", "2024-01-02", "A", &[], ""),
        record("x", "2024-01-01", "B", &[], ""),
        record("y", "2024-01-01", "B", &[], ""),
    ];
    let scores = vec![score(1, true, true), score(3, true, true), score(2, true, true)];
    let mut c = case(&["A", "B"], "");
    assert_eq!(ids(&rank_records_for_case(&records, &c, None, &scores)), vec!["x", "y"]);
    assert_eq!(ids(&rank_records_for_case(&records, &c, Some(2), &scores)), vec!["x"]);
    assert_eq!(ids(&rank_records_for_case(&records, &c, Some(0), &scores)), vec!["x"]);
    c.max_results = Some(1);
    assert_eq!(ids(&rank_records_for_case(&records, &c, None, &scores)), vec!["x"]);
    c.time_to = "2024-01-01".to_string();
    c.max_results = None;
    assert_eq!(ids(&rank_records_for_case(&records, &c, None, &scores)), vec!["x", "y"]);
}

#[test]
fn there_is_standing_advice() {
    assert_eq!(uid("ADV", 12), "ADV_12");
    let a = generate_advisors_for_case(&case(&[], ""), &[], 1, 2, 3);
    assert_eq!(a.len(), 3);
    assert_eq!((a[1].id.as_str(), a[1].level.as_str()), ("ADV_2", "warn"));
    assert_eq!(a[0].ts, "1970-01-01T00:00:00Z");
    assert_eq!(a[2].title, "후속 조치");
    assert_eq!(a[2].tags, vec!["후속"]);
    assert_eq!(a[2].rule_id, Some("proto:follow".to_string()));
}
