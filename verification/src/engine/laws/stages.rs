//! What holds of the stages: their names and slots, and the segments of their prompts.

use crate::drace::cache_manager;
use crate::drace::cache_manager::{Cache, HybridStage, Prefix};
use crate::drace::prompt_segments;
use crate::drace::prompt_segments::{PromptSegmentKind, Segment};
use crate::engine::segments;
use crate::engine::segments::LineClass;
use crate::lists;
use crate::strs;
use vstd::prelude::*;

verus! {

/// A record is asked for by these three words, in small or large letters; anything else, and
/// nothing, asks for an analysis.
pub proof fn a_mode_is_told_by_its_word(s: Seq<char>)
    ensures
        ({
            let m = strs::ascii_lower(strs::trim(s));
            segments::record_mode(Some(s)) <==> m == "record"@ || m == "write"@ || m == "capture"@
        }),
        !segments::record_mode(None),
{
    reveal_strlit("");
    reveal_strlit("record");
    reveal_strlit("write");
    reveal_strlit("capture");
    assert(strs::trim(""@) =~= ""@);
    assert(strs::ascii_lower(""@).len() == 0);
}

/// The slots of the stages of a model lie behind its own: analyses first, then records ten further
/// on, then the others twenty further on. Slot 0 is for all stages, and no slot stays none.
pub proof fn stages_have_these_slots(base: u32)
    requires
        0 < base <= u32::MAX - 21,
    ensures
        segments::slot_of(Some(base), HybridStage::GeneralMain) == Some(base),
        segments::slot_of(Some(base), HybridStage::GeneralDraft) == Some((base + 1) as u32),
        segments::slot_of(Some(base), HybridStage::GeneralSynthesis) == Some((base + 2) as u32),
        segments::slot_of(Some(base), HybridStage::RecordMain) == Some((base + 10) as u32),
        segments::slot_of(Some(base), HybridStage::RecordFill) == Some((base + 11) as u32),
        segments::slot_of(Some(base), HybridStage::RecordSynthesis) == Some((base + 12) as u32),
        segments::slot_of(Some(base), HybridStage::RecordReview) == Some((base + 13) as u32),
        segments::slot_of(Some(base), HybridStage::FastRoosy) == Some((base + 20) as u32),
        segments::slot_of(Some(base), HybridStage::RecordRecovery) == Some((base + 21) as u32),
        forall|stage: HybridStage| #[trigger] segments::slot_of(Some(0), stage) == Some(0u32),
        forall|stage: HybridStage| #[trigger] segments::slot_of(None, stage) is None,
{
}

/// A block of a prompt is what its title says: laws, evidence, the conversation, drafts, the
/// message, or else the case. A title of laws goes before all others.
pub proof fn a_block_is_what_its_title_says(title: Seq<char>)
    ensures
        ({
            let kind = segments::kind_of_title(title);
            let law = strs::contains(title, "법령"@);
            let evidence = strs::contains(title, "증거"@) || strs::contains(title, "참고 기록"@)
                || strs::contains(title, "핵심 근거"@);
            let talk = strs::contains(title, "직전 대화"@);
            let draft = strs::contains(title, "초안"@) || strs::contains(title, "골격"@);
            let asked = strs::contains(title, "질문"@) || strs::contains(title, "사용자 입력 상황"@)
                || strs::contains(title, "이번 요청"@);
            &&& law ==> kind == PromptSegmentKind::DynamicLegalRefs
            &&& !law && evidence ==> kind == PromptSegmentKind::DynamicEvidencePacket
            &&& !law && !evidence && talk ==> kind == PromptSegmentKind::DynamicConversation
            &&& !law && !evidence && !talk && draft ==> kind
                == PromptSegmentKind::DynamicDraftArtifacts
            &&& !law && !evidence && !talk && !draft && asked ==> kind
                == PromptSegmentKind::DynamicUserMessage
            &&& !law && !evidence && !talk && !draft && !asked ==> kind
                == PromptSegmentKind::DynamicCaseContext
        }),
{
}

proof fn lemma_class(lines: Seq<Seq<char>>, class: LineClass, k: int)
    requires
        0 <= k < lines.len(),
        segments::class_of(lines[k]) == class,
    ensures
        segments::lines_of_class(lines, class).contains(strs::trim(lines[k])),
    decreases lines.len(),
{
    let t = lines.drop_last();
    let head = segments::lines_of_class(t, class);
    let all = segments::lines_of_class(lines, class);
    let x = strs::trim(lines[k]);
    if k < t.len() {
        assert(t[k] == lines[k]);
        lemma_class(t, class, k);
        let i = choose|i: int| 0 <= i < head.len() && head[i] == x;
        assert(all[i] == x);
    } else {
        assert(all[head.len() as int] == x);
    }
}

/// The text of a segment, before its line ends are made alike.
pub open spec fn holds_line(s: Segment, raw: Seq<char>, line: Seq<char>) -> bool {
    s.text == prompt_segments::normalized(raw) && lists::is_line_of(raw, line)
}

/// A segment of the list is made of a text that has this line.
pub open spec fn some_holds(list: Seq<Segment>, line: Seq<char>) -> bool {
    exists|i: int, raw: Seq<char>| 0 <= i < list.len() && #[trigger] holds_line(list[i], raw, line)
}

/// Every line of a system prompt that is not blank goes into a segment: one that belongs to a
/// request into the user prompt, and any other into a static segment.
pub proof fn no_line_of_a_system_prompt_is_lost(raw: Seq<char>, stage: HybridStage, k: int)
    requires
        0 <= k < strs::lines(raw).len(),
        strs::trim(strs::lines(raw)[k]).len() > 0,
    ensures
        ({
            let line = strs::trim(strs::lines(raw)[k]);
            if segments::is_dynamic(line) {
                some_holds(segments::leaked_segments(raw), line)
            } else {
                some_holds(segments::system_segments(raw, stage), line)
            }
        }),
{
    let lines = strs::lines(raw);
    let line = strs::trim(lines[k]);
    let class = segments::class_of(lines[k]);
    let own = segments::lines_of_class(lines, class);
    let whole = strs::join(own, "\n"@);
    lemma_class(lines, class, k);
    let i = choose|i: int| 0 <= i < own.len() && own[i] == line;
    lists::joined_lines_are_lines(own, i);
    let name = stage.name();
    if segments::is_dynamic(line) {
        let list = segments::leaked_segments(raw);
        assert(holds_line(list[0], whole, line));
    } else {
        let list = segments::system_segments(raw, stage);
        let a = segments::with_class(
            Seq::empty(),
            raw,
            LineClass::SystemPrefix,
            PromptSegmentKind::StaticSystemPrefix,
            name + ".system"@,
        );
        let b = segments::with_class(
            a,
            raw,
            LineClass::Mode,
            PromptSegmentKind::StaticModeTemplate,
            name + ".mode"@,
        );
        let c = segments::with_class(
            b,
            raw,
            LineClass::Instruction,
            PromptSegmentKind::StaticStageInstruction,
            name + ".instruction"@,
        );
        let d = segments::with_class(
            c,
            raw,
            LineClass::Format,
            PromptSegmentKind::StaticOutputFormat,
            name + ".format"@,
        );
        let at = match class {
            LineClass::SystemPrefix => 0int,
            LineClass::Mode => a.len() as int,
            LineClass::Instruction => b.len() as int,
            _ => c.len() as int,
        };
        assert(list == d);
        assert(holds_line(list[at], whole, line));
    }
}

/// Every block of a user prompt goes into a segment of its own, under its title, in its order; a
/// prompt without blocks is one segment, the message.
pub proof fn every_block_is_a_segment(raw: Seq<char>, k: int)
    ensures
        ({
            let blocks = segments::blocks_of(raw);
            let list = segments::user_segments(raw);
            &&& blocks.len() > 0 ==> list.len() == blocks.len()
            &&& 0 <= k < blocks.len() ==> {
                &&& list[k].kind == segments::kind_of_title(blocks[k].0)
                &&& list[k].text == prompt_segments::normalized(
                    "["@ + strs::trim(blocks[k].0) + "]\n"@ + strs::trim(blocks[k].1),
                )
                &&& !list[k].is_static
            }
            &&& blocks.len() == 0 ==> list.len() == 1 && list[0].kind
                == PromptSegmentKind::DynamicUserMessage
        }),
{
}

/// Only a prefix of a known stage that is not warm is warmed, in the slot of its stage.
pub proof fn only_cold_prefixes_are_warmed(
    c: Cache,
    model_id: Seq<char>,
    base_slot: Option<u32>,
    prefix: Prefix,
    stage: HybridStage,
)
    requires
        prefix.stage_name == stage.name(),
    ensures
        ({
            let slot = segments::slot_of(base_slot, stage);
            let warm = c.warm.contains(
                cache_manager::warm_key(model_id, prefix.id, slot, Some(prefix.content_hash)),
            );
            let job = segments::warmup_of(c, model_id, base_slot, prefix);
            &&& job is Some <==> !warm
            &&& job matches Some(w) ==> w.prefix == prefix && w.slot == slot
        }),
{
    segments::stages_are_found_by_name(stage);
}

} // verus!
