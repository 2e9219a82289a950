//! What is gathered for an answer: the records and the laws that it rests on.

use crate::strs;
use vstd::prelude::*;

verus! {

/// A record that an answer rests on.
#[derive(Debug, Clone)]
pub struct StrategyEvidenceRecord {
    pub ref_id: String,
    pub record_id: String,
    pub ts: String,
    pub actor: String,
    pub place: String,
    pub store: String,
    pub summary: String,
    pub risk_label: String,
    pub reasons: Vec<String>,
}

/// A provision that an answer rests on.
#[derive(Debug, Clone)]
pub struct StrategyLegalReference {
    pub ref_id: String,
    pub law_id: String,
    pub law_name: String,
    pub short_name: String,
    pub article_ref: String,
    pub article_title: String,
    pub legal_point: String,
    pub teacher_use_case: String,
    pub source_url: String,
    pub status_label: String,
    pub relevance_reasons: Vec<String>,
}

/// A provision, as the contracts see it.
#[verifier::ext_equal]
pub struct LegalRef {
    pub ref_id: Seq<char>,
    pub law_id: Seq<char>,
    pub law_name: Seq<char>,
    pub short_name: Seq<char>,
    pub article_ref: Seq<char>,
    pub article_title: Seq<char>,
    pub legal_point: Seq<char>,
    pub teacher_use_case: Seq<char>,
    pub source_url: Seq<char>,
    pub status_label: Seq<char>,
    pub relevance_reasons: Seq<Seq<char>>,
}

impl View for StrategyLegalReference {
    type V = LegalRef;

    open spec fn view(&self) -> LegalRef {
        LegalRef {
            ref_id: self.ref_id@,
            law_id: self.law_id@,
            law_name: self.law_name@,
            short_name: self.short_name@,
            article_ref: self.article_ref@,
            article_title: self.article_title@,
            legal_point: self.legal_point@,
            teacher_use_case: self.teacher_use_case@,
            source_url: self.source_url@,
            status_label: self.status_label@,
            relevance_reasons: strs::views(self.relevance_reasons@),
        }
    }
}

/// A record that an answer rests on, as the contracts see it.
#[verifier::ext_equal]
pub struct Evidence {
    pub ref_id: Seq<char>,
    pub record_id: Seq<char>,
    pub ts: Seq<char>,
    pub actor: Seq<char>,
    pub place: Seq<char>,
    pub store: Seq<char>,
    pub summary: Seq<char>,
    pub risk_label: Seq<char>,
    pub reasons: Seq<Seq<char>>,
}

impl View for StrategyEvidenceRecord {
    type V = Evidence;

    open spec fn view(&self) -> Evidence {
        Evidence {
            ref_id: self.ref_id@,
            record_id: self.record_id@,
            ts: self.ts@,
            actor: self.actor@,
            place: self.place@,
            store: self.store@,
            summary: self.summary@,
            risk_label: self.risk_label@,
            reasons: strs::views(self.reasons@),
        }
    }
}

/// What is gathered for an answer.
#[derive(Debug, Clone)]
pub struct StrategyEvidencePacket {
    pub mode: String,
    pub case_title: String,
    pub focus_summary: String,
    pub overview: String,
    pub actor_summary: Vec<String>,
    pub timeline_summary: Vec<String>,
    pub risk_summary: Vec<String>,
    pub gaps: Vec<String>,
    pub evidence_records: Vec<StrategyEvidenceRecord>,
    pub legal_references: Vec<StrategyLegalReference>,
}

} // verus!
