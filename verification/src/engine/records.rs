//! Records, cases and the people in them.

use vstd::prelude::*;

verus! {

/// How sensitive a record is.
pub type Sensitivity = String;

/// What a record was made of.
pub type StoreType = String;

/// Where something took place.
pub type PlaceType = String;

/// The parts of the summary of a record.
#[derive(Debug, Clone)]
pub struct RecordSummaryParts {
    pub overview: String,
    pub background: String,
    pub issues: String,
    pub evidence_list: String,
    pub teacher_actions: String,
    pub other: String,
}

/// A person.
#[derive(Debug, Clone)]
pub struct ActorRef {
    pub kind: String,
    pub name: String,
}

/// A record.
#[derive(Debug, Clone)]
pub struct RecordItem {
    pub id: String,
    pub ts: String,
    pub store_type: StoreType,
    pub store_other: String,
    pub lv: Sensitivity,
    pub actor: ActorRef,
    pub actors: Vec<ActorRef>,
    pub related: Vec<ActorRef>,
    pub place: PlaceType,
    pub place_other: String,
    pub summary: String,
    pub summary_parts: Option<RecordSummaryParts>,
}

/// A case: what records are looked for.
#[derive(Debug, Clone)]
pub struct CaseItem {
    pub id: String,
    pub title: String,
    pub query: String,
    pub time_from: String,
    pub time_to: String,
    pub max_results: Option<u32>,
    pub actors: Vec<ActorRef>,
}

/// A piece of advice on a case.
#[derive(Debug, Clone)]
pub struct AdvisorItem {
    pub id: String,
    pub ts: String,
    pub title: String,
    pub body: String,
    pub level: String,
    pub tags: Vec<String>,
    pub state: String,
    pub rule_id: Option<String>,
}

} // verus!
