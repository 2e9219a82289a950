//! The segments that prompts are made of, and the order in which they are rendered.

use crate::drace::hashing;
use crate::sorting::Ordered;
use crate::strs;
use crate::text;
use vstd::prelude::*;

verus! {

/// What a prompt segment holds. The static kinds stand before the dynamic ones.
#[derive(Debug, Clone, Copy, PartialEq, Eq, Hash, Structural)]
pub enum PromptSegmentKind {
    StaticSystemPrefix,
    StaticModeTemplate,
    StaticStageInstruction,
    StaticOutputFormat,
    DynamicCaseContext,
    DynamicEvidencePacket,
    DynamicLegalRefs,
    DynamicConversation,
    DynamicUserMessage,
    DynamicDraftArtifacts,
}

impl PromptSegmentKind {
    /// The place of the kind in a prompt.
    pub open spec fn rank(self) -> u8 {
        match self {
            PromptSegmentKind::StaticSystemPrefix => 0,
            PromptSegmentKind::StaticModeTemplate => 1,
            PromptSegmentKind::StaticStageInstruction => 2,
            PromptSegmentKind::StaticOutputFormat => 3,
            PromptSegmentKind::DynamicCaseContext => 10,
            PromptSegmentKind::DynamicEvidencePacket => 11,
            PromptSegmentKind::DynamicLegalRefs => 12,
            PromptSegmentKind::DynamicConversation => 13,
            PromptSegmentKind::DynamicUserMessage => 14,
            PromptSegmentKind::DynamicDraftArtifacts => 15,
        }
    }

    /// The name of the kind.
    pub open spec fn name(self) -> Seq<char> {
        match self {
            PromptSegmentKind::StaticSystemPrefix => "StaticSystemPrefix"@,
            PromptSegmentKind::StaticModeTemplate => "StaticModeTemplate"@,
            PromptSegmentKind::StaticStageInstruction => "StaticStageInstruction"@,
            PromptSegmentKind::StaticOutputFormat => "StaticOutputFormat"@,
            PromptSegmentKind::DynamicCaseContext => "DynamicCaseContext"@,
            PromptSegmentKind::DynamicEvidencePacket => "DynamicEvidencePacket"@,
            PromptSegmentKind::DynamicLegalRefs => "DynamicLegalRefs"@,
            PromptSegmentKind::DynamicConversation => "DynamicConversation"@,
            PromptSegmentKind::DynamicUserMessage => "DynamicUserMessage"@,
            PromptSegmentKind::DynamicDraftArtifacts => "DynamicDraftArtifacts"@,
        }
    }

    /// One of the kinds whose text does not change from request to request.
    pub open spec fn is_static_kind(self) -> bool {
        self.rank() <= 3
    }

    /// The place of the kind in a prompt.
    pub fn order_rank(&self) -> (r: u8)
        ensures
            r == self.rank(),
    {
        match self {
            PromptSegmentKind::StaticSystemPrefix => 0,
            PromptSegmentKind::StaticModeTemplate => 1,
            PromptSegmentKind::StaticStageInstruction => 2,
            PromptSegmentKind::StaticOutputFormat => 3,
            PromptSegmentKind::DynamicCaseContext => 10,
            PromptSegmentKind::DynamicEvidencePacket => 11,
            PromptSegmentKind::DynamicLegalRefs => 12,
            PromptSegmentKind::DynamicConversation => 13,
            PromptSegmentKind::DynamicUserMessage => 14,
            PromptSegmentKind::DynamicDraftArtifacts => 15,
        }
    }

    /// The name of the kind.
    pub fn label(&self) -> (r: &'static str)
        ensures
            r@ == self.name(),
    {
        match self {
            PromptSegmentKind::StaticSystemPrefix => "StaticSystemPrefix",
            PromptSegmentKind::StaticModeTemplate => "StaticModeTemplate",
            PromptSegmentKind::StaticStageInstruction => "StaticStageInstruction",
            PromptSegmentKind::StaticOutputFormat => "StaticOutputFormat",
            PromptSegmentKind::DynamicCaseContext => "DynamicCaseContext",
            PromptSegmentKind::DynamicEvidencePacket => "DynamicEvidencePacket",
            PromptSegmentKind::DynamicLegalRefs => "DynamicLegalRefs",
            PromptSegmentKind::DynamicConversation => "DynamicConversation",
            PromptSegmentKind::DynamicUserMessage => "DynamicUserMessage",
            PromptSegmentKind::DynamicDraftArtifacts => "DynamicDraftArtifacts",
        }
    }
}

/// A piece of a prompt.
#[derive(Debug, Clone)]
pub struct PromptSegment {
    pub kind: PromptSegmentKind,
    pub stable_id: Option<String>,
    pub content_hash: u64,
    pub text: String,
    pub is_static: bool,
}

/// A piece of a prompt, as the contracts see it.
#[verifier::ext_equal]
pub struct Segment {
    pub kind: PromptSegmentKind,
    pub stable_id: Option<Seq<char>>,
    pub content_hash: u64,
    pub text: Seq<char>,
    pub is_static: bool,
}

impl View for PromptSegment {
    type V = Segment;

    open spec fn view(&self) -> Segment {
        Segment {
            kind: self.kind,
            stable_id: strs::opt_view(self.stable_id),
            content_hash: self.content_hash,
            text: self.text@,
            is_static: self.is_static,
        }
    }
}

impl Ordered for PromptSegment {
    open spec fn after(a: Segment, b: Segment) -> bool {
        a.kind.rank() > b.kind.rank()
    }

    fn comes_after(&self, other: &Self) -> (r: bool) {
        self.kind.order_rank() > other.kind.order_rank()
    }
}

/// A fast 64-bit hash of a text.
pub fn fast_hash64(value: &str) -> (r: u64)
    ensures
        r == hashing::default_hash(value@),
{
    hashing::hash_one(value)
}

/// The text with every line end written as a line feed, without white space around it.
pub open spec fn normalized(s: Seq<char>) -> Seq<char> {
    strs::trim(strs::replace(strs::replace(s, "\r\n"@, "\n"@), "\r"@, "\n"@))
}

fn normalize_segment_text(value: &str) -> (r: String)
    ensures
        r@ == normalized(value@),
{
    proof {
        reveal_strlit("\r\n");
        reveal_strlit("\r");
    }
    let unix = text::replace(value, "\r\n", "\n");
    let lf = text::replace(&unix, "\r", "\n");
    text::trim(&lf)
}

/// A segment whose text does not change from request to request.
pub open spec fn static_of(kind: PromptSegmentKind, id: Seq<char>, text: Seq<char>) -> Segment {
    Segment {
        kind,
        stable_id: Some(id),
        content_hash: hashing::default_hash(normalized(text)),
        text: normalized(text),
        is_static: true,
    }
}

/// A segment whose text belongs to one request.
pub open spec fn dynamic_of(kind: PromptSegmentKind, text: Seq<char>) -> Segment {
    Segment {
        kind,
        stable_id: None,
        content_hash: hashing::default_hash(normalized(text)),
        text: normalized(text),
        is_static: false,
    }
}

impl PromptSegment {
    /// A segment whose text does not change from request to request.
    pub fn static_segment(kind: PromptSegmentKind, stable_id: &str, text: &str) -> (r: Self)
        ensures
            r@ == static_of(kind, stable_id@, text@),
    {
        let text = normalize_segment_text(text);
        let content_hash: u64 = fast_hash64(&text);
        PromptSegment {
            kind,
            stable_id: Some(stable_id.to_owned()),
            content_hash,
            text,
            is_static: true,
        }
    }

    /// A segment whose text belongs to one request.
    pub fn dynamic_segment(kind: PromptSegmentKind, text: &str) -> (r: Self)
        ensures
            r@ == dynamic_of(kind, text@),
    {
        let text = normalize_segment_text(text);
        let content_hash: u64 = fast_hash64(&text);
        PromptSegment { kind, stable_id: None, content_hash, text, is_static: false }
    }
}

/// The trimmed texts of the segments that `keep` accepts, without the empty ones.
pub open spec fn texts_where(segments: Seq<Segment>, keep: spec_fn(Segment) -> bool) -> Seq<
    Seq<char>,
>
    decreases segments.len(),
{
    if segments.len() == 0 {
        Seq::empty()
    } else {
        let head = texts_where(segments.drop_last(), keep);
        let s = segments.last();
        if keep(s) && strs::trim(s.text).len() > 0 {
            head.push(strs::trim(s.text))
        } else {
            head
        }
    }
}

/// The texts of the segments, trimmed, with an empty line between each two.
pub open spec fn rendered(segments: Seq<Segment>) -> Seq<char> {
    strs::join(texts_where(segments, |s: Segment| true), "\n\n"@)
}

/// The texts of the static segments, trimmed, with an empty line between each two.
pub open spec fn rendered_static(segments: Seq<Segment>) -> Seq<char> {
    strs::join(texts_where(segments, |s: Segment| s.is_static), "\n\n"@)
}

/// The texts of the segments, trimmed, with an empty line between each two.
pub fn render_prompt_segments(segments: &[PromptSegment]) -> (r: String)
    ensures
        r@ == rendered(strs::deep(segments@)),
{
    let ghost keep = |s: Segment| true;
    let ghost all = strs::deep(segments@);
    let mut texts: Vec<String> = Vec::new();
    let mut i: usize = 0;
    assert(strs::views(texts@) =~= texts_where(all.take(0), keep));
    while i < segments.len()
        invariant
            i <= segments@.len(),
            all == strs::deep(segments@),
            keep == (|s: Segment| true),
            strs::views(texts@) == texts_where(all.take(i as int), keep),
        decreases segments@.len() - i,
    {
        assert(all.take(i + 1).drop_last() =~= all.take(i as int));
        assert(all.take(i + 1).last() == segments@[i as int]@);
        let ghost before = texts@;
        let trimmed = text::trim(&segments[i].text);
        if trimmed.unicode_len() > 0 {
            texts.push(trimmed);
            assert(strs::views(texts@) =~= strs::views(before).push(trimmed@));
        }
        i += 1;
    }
    assert(all.take(i as int) =~= all);
    text::join(&texts, "\n\n")
}

/// The texts of the static segments, trimmed, with an empty line between each two.
pub fn render_static_segments(segments: &[PromptSegment]) -> (r: String)
    ensures
        r@ == rendered_static(strs::deep(segments@)),
{
    let ghost keep = |s: Segment| s.is_static;
    let ghost all = strs::deep(segments@);
    let mut texts: Vec<String> = Vec::new();
    let mut i: usize = 0;
    assert(strs::views(texts@) =~= texts_where(all.take(0), keep));
    while i < segments.len()
        invariant
            i <= segments@.len(),
            all == strs::deep(segments@),
            keep == (|s: Segment| s.is_static),
            strs::views(texts@) == texts_where(all.take(i as int), keep),
        decreases segments@.len() - i,
    {
        assert(all.take(i + 1).drop_last() =~= all.take(i as int));
        assert(all.take(i + 1).last() == segments@[i as int]@);
        let ghost before = texts@;
        if segments[i].is_static {
            let trimmed = text::trim(&segments[i].text);
            if trimmed.unicode_len() > 0 {
                texts.push(trimmed);
                assert(strs::views(texts@) =~= strs::views(before).push(trimmed@));
            }
        }
        i += 1;
    }
    assert(all.take(i as int) =~= all);
    text::join(&texts, "\n\n")
}

} // verus!
