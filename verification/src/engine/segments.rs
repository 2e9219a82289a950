//! How a prompt is cut into segments, and the prompts that are prepared for a stage.

use crate::drace::backends::{GenerationSessionOptions, LlamaServerConfig};
use crate::drace::cache_manager;
use crate::drace::cache_manager::{
    Cache, DraceCacheManager, HybridStage, Prefix, PreparedStagePrompt, StaticPrefixSpec,
};
use crate::drace::prompt_segments;
use crate::drace::prompt_segments::{PromptSegment, PromptSegmentKind, Segment};
use crate::engine::sanitize;
use crate::engine::sanitize::strategy_sanitize_text;
use crate::sorting;
use crate::strs;
use crate::text;
use vstd::prelude::*;

verus! {

/// The mode in which a case is analysed.
pub const STRATEGY_CHAT_MODE_ANALYSIS: &'static str = "analysis";

/// The mode in which a record is written.
pub const STRATEGY_CHAT_MODE_RECORD: &'static str = "record";

/// The mode asks for a record.
pub open spec fn record_mode(mode: Option<Seq<char>>) -> bool {
    let m = strs::ascii_lower(
        strs::trim(
            match mode {
                Some(s) => s,
                None => ""@,
            },
        ),
    );
    m == "record"@ || m == "write"@ || m == "capture"@
}

/// The mode by its name: a record, or else an analysis.
pub fn normalize_strategy_chat_mode(mode: Option<&str>) -> (r: &'static str)
    ensures
        r@ == if record_mode(strs::opt_str(mode)) {
            STRATEGY_CHAT_MODE_RECORD@
        } else {
            STRATEGY_CHAT_MODE_ANALYSIS@
        },
{
    let raw: &str = match mode {
        Some(s) => s,
        None => "",
    };
    let m = text::ascii_lower(&text::trim(raw));
    if text::same(&m, "record") || text::same(&m, "write") || text::same(&m, "capture") {
        STRATEGY_CHAT_MODE_RECORD
    } else {
        STRATEGY_CHAT_MODE_ANALYSIS
    }
}

/// A prompt while it is cut at its headings.
#[verifier::ext_equal]
pub struct Cutting {
    pub done: Seq<(Seq<char>, Seq<char>)>,
    pub title: Seq<char>,
    pub lines: Seq<Seq<char>>,
}

/// A line that is a heading: something in square brackets.
pub open spec fn is_title(line: Seq<char>) -> bool {
    let t = strs::trim(line);
    strs::starts_with(t, "["@) && strs::ends_with(t, "]"@) && strs::byte_len(t) > 2
}

/// The blocks with the one that is open.
pub open spec fn closed(c: Cutting) -> Seq<(Seq<char>, Seq<char>)> {
    if c.title.len() > 0 {
        c.done.push((c.title, strs::trim(strs::join(c.lines, "\n"@))))
    } else {
        c.done
    }
}

/// What the next line does: a heading opens a block, another line belongs to the open one.
pub open spec fn cut_line(c: Cutting, line: Seq<char>) -> Cutting {
    if is_title(line) {
        Cutting {
            done: closed(c),
            title: strs::trim_set(strs::trim(line), "[]"@),
            lines: Seq::empty(),
        }
    } else {
        Cutting { lines: c.lines.push(line), ..c }
    }
}

/// The prompt after its lines were cut.
pub open spec fn cut_lines(lines: Seq<Seq<char>>) -> Cutting
    decreases lines.len(),
{
    if lines.len() == 0 {
        Cutting { done: Seq::empty(), title: Seq::empty(), lines: Seq::empty() }
    } else {
        cut_line(cut_lines(lines.drop_last()), lines.last())
    }
}

/// The blocks of a prompt that are not blank, with their titles.
pub open spec fn blocks_of(raw: Seq<char>) -> Seq<(Seq<char>, Seq<char>)> {
    strs::keep(
        closed(cut_lines(strs::lines(raw))),
        |b: (Seq<char>, Seq<char>)| strs::trim(b.1).len() > 0,
    )
}

/// The texts in a list of pairs.
pub open spec fn pair_views(v: Seq<(String, String)>) -> Seq<(Seq<char>, Seq<char>)> {
    v.map_values(|p: (String, String)| (p.0@, p.1@))
}

fn push_pair(list: &mut Vec<(String, String)>, title: String, body: String)
    ensures
        pair_views(final(list)@) == pair_views(old(list)@).push((title@, body@)),
{
    let ghost before = pair_views(list@);
    list.push((title, body));
    assert(pair_views(list@) =~= before.push((title@, body@)));
}

/// The blocks of a prompt that are not blank, with their titles.
pub fn strategy_parse_prompt_blocks(raw: &str) -> (r: Vec<(String, String)>)
    ensures
        pair_views(r@) == blocks_of(raw@),
{
    let lines = text::lines(raw);
    let ghost all = strs::views(lines@);
    let mut done: Vec<(String, String)> = Vec::new();
    let mut title = String::new();
    let mut body = text::no_texts();
    let mut i: usize = 0;
    assert(all.take(0) =~= Seq::empty());
    assert(pair_views(done@) =~= Seq::empty());
    assert(title@ =~= Seq::empty());
    while i < lines.len()
        invariant
            i <= lines@.len(),
            all == strs::views(lines@),
            cut_lines(all.take(i as int)) == (Cutting {
                done: pair_views(done@),
                title: title@,
                lines: strs::views(body@),
            }),
        decreases lines@.len() - i,
    {
        assert(all.take(i + 1).drop_last() =~= all.take(i as int));
        let trimmed = text::trim(&lines[i]);
        if text::starts_with(&trimmed, "[") && text::ends_with(&trimmed, "]") && text::byte_len(
            &trimmed,
        ) > 2 {
            if title.as_str().unicode_len() > 0 {
                let joined = text::join(&body, "\n");
                push_pair(&mut done, title.clone(), text::trim(&joined));
            }
            title = text::trim_set(&trimmed, "[]");
            body = text::no_texts();
        } else {
            text::push(&mut body, lines[i].clone());
        }
        i += 1;
    }
    assert(all.take(i as int) =~= all);
    if title.as_str().unicode_len() > 0 {
        let joined = text::join(&body, "\n");
        push_pair(&mut done, title.clone(), text::trim(&joined));
    }
    let ghost wanted = pair_views(done@);
    assert(wanted == closed(cut_lines(strs::lines(raw@))));
    let ghost p = |b: (Seq<char>, Seq<char>)| strs::trim(b.1).len() > 0;
    let mut out: Vec<(String, String)> = Vec::new();
    let mut k: usize = 0;
    assert(pair_views(out@) =~= strs::keep(wanted.take(0), p));
    while k < done.len()
        invariant
            k <= done@.len(),
            wanted == pair_views(done@),
            p == (|b: (Seq<char>, Seq<char>)| strs::trim(b.1).len() > 0),
            pair_views(out@) == strs::keep(wanted.take(k as int), p),
        decreases done@.len() - k,
    {
        assert(wanted.take(k + 1).drop_last() =~= wanted.take(k as int));
        if !text::is_blank(&done[k].1) {
            push_pair(&mut out, done[k].0.clone(), done[k].1.clone());
        }
        k += 1;
    }
    assert(wanted.take(k as int) =~= wanted);
    out
}

/// A line of a system prompt that belongs to one request.
pub open spec fn is_dynamic(line: Seq<char>) -> bool {
    let t = strs::trim(line);
    &&& line.len() > 0
    &&& {
        ||| strs::starts_with(t, "[사용자 입력 상황]"@)
        ||| strs::starts_with(t, "[사건 맥락]"@)
        ||| strs::starts_with(t, "[참고 기록]"@)
        ||| strs::starts_with(t, "[증거]"@)
        ||| strs::starts_with(t, "[직전 대화]"@)
        ||| strs::starts_with(t, "[이번 요청]"@)
        ||| strs::starts_with(t, "[질문]"@)
        ||| strs::starts_with(t, "[대화]"@)
        ||| strs::starts_with(t, "[메시지]"@)
        ||| strs::contains(t, "현재 시각"@)
        ||| strs::contains(t, "오늘 날짜"@)
    }
}

/// Whether a line of a system prompt belongs to one request.
pub fn strategy_system_line_is_dynamic(trimmed: &str) -> (r: bool)
    ensures
        r == is_dynamic(trimmed@),
{
    if trimmed.unicode_len() == 0 {
        return false;
    }
    let t = text::trim(trimmed);
    text::starts_with(&t, "[사용자 입력 상황]") || text::starts_with(&t, "[사건 맥락]")
        || text::starts_with(&t, "[참고 기록]") || text::starts_with(&t, "[증거]")
        || text::starts_with(&t, "[직전 대화]") || text::starts_with(&t, "[이번 요청]")
        || text::starts_with(&t, "[질문]") || text::starts_with(&t, "[대화]") || text::starts_with(
        &t,
        "[메시지]",
    ) || text::contains(&t, "현재 시각") || text::contains(&t, "오늘 날짜")
}

/// Where a line of a system prompt belongs.
#[derive(Debug, Clone, Copy, PartialEq, Eq, Structural)]
pub enum LineClass {
    Skipped,
    Dynamic,
    SystemPrefix,
    Mode,
    Instruction,
    Format,
}

/// Where a line of a system prompt belongs.
pub open spec fn class_of(line: Seq<char>) -> LineClass {
    let t = strs::trim(line);
    if t.len() == 0 {
        LineClass::Skipped
    } else if is_dynamic(t) {
        LineClass::Dynamic
    } else if strs::starts_with(t, "- AI 언어모델"@) || strs::starts_with(t, "- 반드시 한국어"@) {
        LineClass::SystemPrefix
    } else if strs::starts_with(t, "- 역할:"@) {
        LineClass::Mode
    } else if strs::contains(t, "출력"@) || strs::contains(t, "섹션"@) || strs::starts_with(
        t,
        "["@,
    ) || strs::contains(t, "지정된"@) || strs::contains(t, "제목"@) {
        LineClass::Format
    } else {
        LineClass::Instruction
    }
}

fn classify(line: &str) -> (r: LineClass)
    ensures
        r == class_of(line@),
{
    let t = text::trim(line);
    if t.unicode_len() == 0 {
        LineClass::Skipped
    } else if strategy_system_line_is_dynamic(&t) {
        LineClass::Dynamic
    } else if text::starts_with(&t, "- AI 언어모델") || text::starts_with(&t, "- 반드시 한국어") {
        LineClass::SystemPrefix
    } else if text::starts_with(&t, "- 역할:") {
        LineClass::Mode
    } else if text::contains(&t, "출력") || text::contains(&t, "섹션") || text::starts_with(&t, "[")
        || text::contains(&t, "지정된") || text::contains(&t, "제목") {
        LineClass::Format
    } else {
        LineClass::Instruction
    }
}

/// The trimmed lines of that class, in their order.
pub open spec fn lines_of_class(lines: Seq<Seq<char>>, class: LineClass) -> Seq<Seq<char>>
    decreases lines.len(),
{
    if lines.len() == 0 {
        Seq::empty()
    } else {
        let head = lines_of_class(lines.drop_last(), class);
        if class_of(lines.last()) == class {
            head.push(strs::trim(lines.last()))
        } else {
            head
        }
    }
}

fn collect_class(lines: &Vec<String>, class: LineClass) -> (r: Vec<String>)
    ensures
        strs::views(r@) == lines_of_class(strs::views(lines@), class),
{
    let ghost all = strs::views(lines@);
    let mut out = text::no_texts();
    let mut i: usize = 0;
    assert(all.take(0) =~= Seq::empty());
    while i < lines.len()
        invariant
            i <= lines@.len(),
            all == strs::views(lines@),
            strs::views(out@) == lines_of_class(all.take(i as int), class),
        decreases lines@.len() - i,
    {
        assert(all.take(i + 1).drop_last() =~= all.take(i as int));
        if classify(&lines[i]) == class {
            text::push(&mut out, text::trim(&lines[i]));
        }
        i += 1;
    }
    assert(all.take(i as int) =~= all);
    out
}

/// The segment of the lines of a system prompt that belong to one request, if there are any.
pub open spec fn leaked_segments(raw: Seq<char>) -> Seq<Segment> {
    let lines = lines_of_class(strs::lines(raw), LineClass::Dynamic);
    if lines.len() == 0 {
        Seq::empty()
    } else {
        seq![
            prompt_segments::dynamic_of(
                PromptSegmentKind::DynamicCaseContext,
                strs::join(lines, "\n"@),
            ),
        ]
    }
}

/// The segment of the lines of a system prompt that belong to one request, if there are any.
pub fn strategy_extract_dynamic_system_leakage(system_prompt_raw: &str) -> (r: Vec<PromptSegment>)
    ensures
        strs::deep(r@) == leaked_segments(system_prompt_raw@),
{
    let lines = text::lines(system_prompt_raw);
    let leaked = collect_class(&lines, LineClass::Dynamic);
    assert(strs::views(leaked@).len() == leaked@.len());
    let mut out: Vec<PromptSegment> = Vec::new();
    if leaked.len() > 0 {
        out.push(
            PromptSegment::dynamic_segment(
                PromptSegmentKind::DynamicCaseContext,
                &text::join(&leaked, "\n"),
            ),
        );
    }
    assert(strs::deep(out@) =~= leaked_segments(system_prompt_raw@));
    out
}

/// The segments with one more of the lines of a class, if there are any.
pub open spec fn with_class(
    segments: Seq<Segment>,
    raw: Seq<char>,
    class: LineClass,
    kind: PromptSegmentKind,
    id: Seq<char>,
) -> Seq<Segment> {
    let lines = lines_of_class(strs::lines(raw), class);
    if lines.len() == 0 {
        segments
    } else {
        segments.push(prompt_segments::static_of(kind, id, strs::join(lines, "\n"@)))
    }
}

/// The static segments of a system prompt. One whose lines all belong to a request has an empty
/// one: its lines go to the user prompt.
pub open spec fn system_segments(raw: Seq<char>, stage: HybridStage) -> Seq<Segment> {
    let name = stage.name();
    let a = with_class(
        Seq::empty(),
        raw,
        LineClass::SystemPrefix,
        PromptSegmentKind::StaticSystemPrefix,
        name + ".system"@,
    );
    let b = with_class(
        a,
        raw,
        LineClass::Mode,
        PromptSegmentKind::StaticModeTemplate,
        name + ".mode"@,
    );
    let c = with_class(
        b,
        raw,
        LineClass::Instruction,
        PromptSegmentKind::StaticStageInstruction,
        name + ".instruction"@,
    );
    let d = with_class(
        c,
        raw,
        LineClass::Format,
        PromptSegmentKind::StaticOutputFormat,
        name + ".format"@,
    );
    if d.len() == 0 {
        d.push(
            prompt_segments::static_of(
                PromptSegmentKind::StaticSystemPrefix,
                name + ".fallback"@,
                ""@,
            ),
        )
    } else {
        d
    }
}

fn push_segment(list: &mut Vec<PromptSegment>, item: PromptSegment)
    ensures
        strs::deep(final(list)@) == strs::deep(old(list)@).push(item@),
{
    let ghost before = strs::deep(list@);
    list.push(item);
    assert(strs::deep(list@) =~= before.push(item@));
}

fn push_class(
    segments: &mut Vec<PromptSegment>,
    lines: &Vec<String>,
    class: LineClass,
    kind: PromptSegmentKind,
    stage: HybridStage,
    suffix: &str,
    raw: Ghost<Seq<char>>,
)
    requires
        strs::views(lines@) == strs::lines(raw@),
    ensures
        strs::deep(final(segments)@) == with_class(
            strs::deep(old(segments)@),
            raw@,
            class,
            kind,
            stage.name() + suffix@,
        ),
{
    let of_class = collect_class(lines, class);
    assert(strs::views(of_class@).len() == of_class@.len());
    if of_class.len() > 0 {
        let mut id = stage.as_str().to_owned();
        id.append(suffix);
        let item = PromptSegment::static_segment(kind, &id, &text::join(&of_class, "\n"));
        push_segment(segments, item);
    }
}

/// The static segments of a system prompt.
pub fn strategy_system_prompt_segments(system_prompt_raw: &str, stage: HybridStage) -> (r: Vec<
    PromptSegment,
>)
    ensures
        strs::deep(r@) == system_segments(system_prompt_raw@, stage),
{
    let lines = text::lines(system_prompt_raw);
    let ghost raw = system_prompt_raw@;
    let mut segments: Vec<PromptSegment> = Vec::new();
    assert(strs::deep(segments@) =~= Seq::empty());
    push_class(
        &mut segments,
        &lines,
        LineClass::SystemPrefix,
        PromptSegmentKind::StaticSystemPrefix,
        stage,
        ".system",
        Ghost(raw),
    );
    push_class(
        &mut segments,
        &lines,
        LineClass::Mode,
        PromptSegmentKind::StaticModeTemplate,
        stage,
        ".mode",
        Ghost(raw),
    );
    push_class(
        &mut segments,
        &lines,
        LineClass::Instruction,
        PromptSegmentKind::StaticStageInstruction,
        stage,
        ".instruction",
        Ghost(raw),
    );
    push_class(
        &mut segments,
        &lines,
        LineClass::Format,
        PromptSegmentKind::StaticOutputFormat,
        stage,
        ".format",
        Ghost(raw),
    );
    assert(strs::deep(segments@).len() == segments@.len());
    if segments.len() == 0 {
        let mut id = stage.as_str().to_owned();
        id.append(".fallback");
        let item = PromptSegment::static_segment(
            PromptSegmentKind::StaticSystemPrefix,
            &id,
            "",
        );
        push_segment(&mut segments, item);
    }
    segments
}

/// What a block of a user prompt holds, by its title.
pub open spec fn kind_of_title(title: Seq<char>) -> PromptSegmentKind {
    if strs::contains(title, "법령"@) {
        PromptSegmentKind::DynamicLegalRefs
    } else if strs::contains(title, "증거"@) || strs::contains(title, "참고 기록"@)
        || strs::contains(title, "핵심 근거"@) {
        PromptSegmentKind::DynamicEvidencePacket
    } else if strs::contains(title, "직전 대화"@) {
        PromptSegmentKind::DynamicConversation
    } else if strs::contains(title, "초안"@) || strs::contains(title, "골격"@) {
        PromptSegmentKind::DynamicDraftArtifacts
    } else if strs::contains(title, "질문"@) || strs::contains(title, "사용자 입력 상황"@)
        || strs::contains(title, "이번 요청"@) {
        PromptSegmentKind::DynamicUserMessage
    } else {
        PromptSegmentKind::DynamicCaseContext
    }
}

/// The segment of a block of a user prompt.
pub open spec fn block_segment(block: (Seq<char>, Seq<char>)) -> Segment {
    prompt_segments::dynamic_of(
        kind_of_title(block.0),
        ("["@ + strs::trim(block.0) + "]\n"@ + strs::trim(block.1)),
    )
}

/// The segments of a user prompt.
pub open spec fn user_segments(raw: Seq<char>) -> Seq<Segment> {
    let blocks = blocks_of(raw);
    if blocks.len() == 0 {
        seq![
            prompt_segments::dynamic_of(
                PromptSegmentKind::DynamicUserMessage,
                sanitize::sanitized(raw),
            ),
        ]
    } else {
        blocks.map_values(|b: (Seq<char>, Seq<char>)| block_segment(b))
    }
}

fn kind_by_title(title: &str) -> (r: PromptSegmentKind)
    ensures
        r == kind_of_title(title@),
{
    if text::contains(title, "법령") {
        PromptSegmentKind::DynamicLegalRefs
    } else if text::contains(title, "증거") || text::contains(title, "참고 기록") || text::contains(
        title,
        "핵심 근거",
    ) {
        PromptSegmentKind::DynamicEvidencePacket
    } else if text::contains(title, "직전 대화") {
        PromptSegmentKind::DynamicConversation
    } else if text::contains(title, "초안") || text::contains(title, "골격") {
        PromptSegmentKind::DynamicDraftArtifacts
    } else if text::contains(title, "질문") || text::contains(title, "사용자 입력 상황")
        || text::contains(title, "이번 요청") {
        PromptSegmentKind::DynamicUserMessage
    } else {
        PromptSegmentKind::DynamicCaseContext
    }
}

/// The segments of a user prompt.
pub fn strategy_user_prompt_segments(user_prompt_raw: &str) -> (r: Vec<PromptSegment>)
    ensures
        strs::deep(r@) == user_segments(user_prompt_raw@),
{
    let blocks = strategy_parse_prompt_blocks(user_prompt_raw);
    let ghost all = pair_views(blocks@);
    assert(all.len() == blocks@.len());
    let mut out: Vec<PromptSegment> = Vec::new();
    if blocks.len() == 0 {
        out.push(
            PromptSegment::dynamic_segment(
                PromptSegmentKind::DynamicUserMessage,
                &strategy_sanitize_text(user_prompt_raw),
            ),
        );
        assert(strs::deep(out@) =~= user_segments(user_prompt_raw@));
        return out;
    }
    let ghost wanted = all.map_values(|b: (Seq<char>, Seq<char>)| block_segment(b));
    let mut i: usize = 0;
    assert(strs::deep(out@) =~= wanted.take(0));
    while i < blocks.len()
        invariant
            i <= blocks@.len(),
            all == pair_views(blocks@),
            wanted == all.map_values(|b: (Seq<char>, Seq<char>)| block_segment(b)),
            strs::deep(out@) == wanted.take(i as int),
        decreases blocks@.len() - i,
    {
        assert(all[i as int] == (blocks@[i as int].0@, blocks@[i as int].1@));
        let mut body = text::copy("[");
        body.append(&text::trim(&blocks[i].0));
        body.append("]\n");
        body.append(&text::trim(&blocks[i].1));
        let kind = kind_by_title(&blocks[i].0);
        let item = PromptSegment::dynamic_segment(kind, &body);
        assert(wanted.take(i + 1) =~= wanted.take(i as int).push(item@));
        push_segment(&mut out, item);
        i += 1;
    }
    assert(wanted.take(i as int) =~= wanted);
    out
}

/// Prepares the prompt of a stage: its segments in order, with what the stage takes from the
/// cache. Lines of the system prompt that belong to one request go to the user prompt.
pub fn strategy_prepare_stage_prompt(
    manager: &mut DraceCacheManager,
    model_id: &str,
    stage: HybridStage,
    cache_requested: bool,
    system_prompt_raw: &str,
    user_prompt_raw: &str,
    expected_output_tokens: usize,
) -> (r: PreparedStagePrompt)
    ensures
        ({
            let system = sorting::sorted::<PromptSegment>(
                system_segments(system_prompt_raw@, stage),
            );
            let user = sorting::sorted::<PromptSegment>(
                user_segments(user_prompt_raw@) + leaked_segments(system_prompt_raw@),
            );
            let (prefixes, known, previous) = cache_manager::ensured(
                old(manager)@.prefixes,
                cache_manager::static_prefix(model_id@, stage, system),
            );
            &&& final(manager)@ == (Cache { prefixes, ..old(manager)@ })
            &&& r.stage == stage
            &&& r.model_id@ == model_id@
            &&& r.static_prefix@ == known
            &&& r.static_prefix_previous_hash == previous
            &&& strs::deep(r.system_segments@) == system
            &&& strs::deep(r.user_segments@) == user
            &&& strs::views(r.system_segment_order@) == cache_manager::labels(system)
            &&& strs::views(r.user_segment_order@) == cache_manager::labels(user)
            &&& r.rendered_system@ == prompt_segments::rendered(system)
            &&& r.rendered_user@ == prompt_segments::rendered(user)
            &&& r.plan@ == cache_manager::plan_for(
                old(manager)@.capabilities,
                cache_requested,
                stage,
                known.estimated_tokens,
                expected_output_tokens as int,
            )
        }),
        old(manager)@.wf() ==> final(manager)@.wf(),
{
    let mut user = strategy_user_prompt_segments(user_prompt_raw);
    let mut leaked = strategy_extract_dynamic_system_leakage(system_prompt_raw);
    let ghost a = user@;
    let ghost b = leaked@;
    user.append(&mut leaked);
    assert(strs::deep(user@) =~= strs::deep(a) + strs::deep(b));
    let system = strategy_system_prompt_segments(system_prompt_raw, stage);
    manager.prepare_prompt(
        model_id,
        stage,
        cache_requested,
        system,
        user,
        expected_output_tokens,
    )
}

/// The sixteen hexadecimal digits of a hash.
pub fn strategy_short_hash_u64(value: u64) -> (r: String)
    ensures
        r@ == strs::hex(value as nat, 16),
{
    text::hex(value, 16)
}

/// The stage with that name.
pub open spec fn stage_named(value: Seq<char>) -> Option<HybridStage> {
    let v = strs::ascii_lower(strs::trim(value));
    if v == HybridStage::GeneralMain.name() {
        Some(HybridStage::GeneralMain)
    } else if v == HybridStage::GeneralDraft.name() {
        Some(HybridStage::GeneralDraft)
    } else if v == HybridStage::GeneralSynthesis.name() {
        Some(HybridStage::GeneralSynthesis)
    } else if v == HybridStage::RecordMain.name() {
        Some(HybridStage::RecordMain)
    } else if v == HybridStage::RecordFill.name() {
        Some(HybridStage::RecordFill)
    } else if v == HybridStage::RecordSynthesis.name() {
        Some(HybridStage::RecordSynthesis)
    } else if v == HybridStage::RecordReview.name() {
        Some(HybridStage::RecordReview)
    } else if v == HybridStage::FastRoosy.name() {
        Some(HybridStage::FastRoosy)
    } else if v == HybridStage::RecordRecovery.name() {
        Some(HybridStage::RecordRecovery)
    } else {
        None
    }
}

/// The stage with that name.
pub fn strategy_hybrid_stage_from_name(value: &str) -> (r: Option<HybridStage>)
    ensures
        r == stage_named(value@),
{
    let v = text::ascii_lower(&text::trim(value));
    if text::same(&v, "general_main") {
        Some(HybridStage::GeneralMain)
    } else if text::same(&v, "general_draft") {
        Some(HybridStage::GeneralDraft)
    } else if text::same(&v, "general_synthesis") {
        Some(HybridStage::GeneralSynthesis)
    } else if text::same(&v, "record_main") {
        Some(HybridStage::RecordMain)
    } else if text::same(&v, "record_fill") {
        Some(HybridStage::RecordFill)
    } else if text::same(&v, "record_synthesis") {
        Some(HybridStage::RecordSynthesis)
    } else if text::same(&v, "record_review") {
        Some(HybridStage::RecordReview)
    } else if text::same(&v, "fast_roosy") {
        Some(HybridStage::FastRoosy)
    } else if text::same(&v, "record_recovery") {
        Some(HybridStage::RecordRecovery)
    } else {
        None
    }
}

/// The distance of the slot of a stage from the first slot of its model.
pub open spec fn slot_offset(stage: HybridStage) -> u32 {
    match stage {
        HybridStage::GeneralMain => 0,
        HybridStage::GeneralDraft => 1,
        HybridStage::GeneralSynthesis => 2,
        HybridStage::RecordMain => 10,
        HybridStage::RecordFill => 11,
        HybridStage::RecordSynthesis => 12,
        HybridStage::RecordReview => 13,
        HybridStage::FastRoosy => 20,
        HybridStage::RecordRecovery => 21,
    }
}

/// The slot of a stage: slot 0 is shared by all.
pub open spec fn slot_of(base: Option<u32>, stage: HybridStage) -> Option<u32> {
    match base {
        None => None,
        Some(0) => Some(0),
        Some(n) => if n + slot_offset(stage) > u32::MAX {
            Some(u32::MAX)
        } else {
            Some((n + slot_offset(stage)) as u32)
        },
    }
}

/// The slot of a stage.
pub fn llama_server_slot_for_stage(base_slot: Option<u32>, stage: HybridStage) -> (r: Option<u32>)
    ensures
        r == slot_of(base_slot, stage),
{
    let offset: u32 = match stage {
        HybridStage::GeneralMain => 0,
        HybridStage::GeneralDraft => 1,
        HybridStage::GeneralSynthesis => 2,
        HybridStage::RecordMain => 10,
        HybridStage::RecordFill => 11,
        HybridStage::RecordSynthesis => 12,
        HybridStage::RecordReview => 13,
        HybridStage::FastRoosy => 20,
        HybridStage::RecordRecovery => 21,
    };
    match base_slot {
        None => None,
        Some(n) => if n == 0 {
            Some(0)
        } else {
            Some(n.saturating_add(offset))
        },
    }
}

/// A prefix that is to be warmed: what is sent, and where.
#[derive(Debug)]
pub struct WarmupJob {
    pub prefix: StaticPrefixSpec,
    pub slot: Option<u32>,
    pub options: GenerationSessionOptions,
}

/// A prefix that is to be warmed, as the contracts see it.
#[verifier::ext_equal]
pub struct Warmup {
    pub prefix: Prefix,
    pub slot: Option<u32>,
}

impl View for WarmupJob {
    type V = Warmup;

    open spec fn view(&self) -> Warmup {
        Warmup { prefix: self.prefix@, slot: self.slot }
    }
}

/// The warm-up of a prefix: one with a known stage that is not warm yet.
pub open spec fn warmup_of(
    c: Cache,
    model_id: Seq<char>,
    base_slot: Option<u32>,
    prefix: Prefix,
) -> Option<Warmup> {
    match stage_named(prefix.stage_name) {
        None => None,
        Some(stage) => {
            let slot = slot_of(base_slot, stage);
            if c.warm.contains(
                cache_manager::warm_key(model_id, prefix.id, slot, Some(prefix.content_hash)),
            ) {
                None
            } else {
                Some(Warmup { prefix, slot })
            }
        },
    }
}

/// The prefixes of a model that are to be warmed: each is sent as a prompt for no answer.
pub fn strategy_prewarm_known_static_prefixes_for_model(
    manager: &DraceCacheManager,
    model_id: &str,
    endpoint: &str,
    base_slot: Option<u32>,
    config: &LlamaServerConfig,
    threads: u32,
) -> (r: Vec<WarmupJob>)
    ensures
        strs::deep(r@) == strs::collected(
            manager@.prefixes.filter(|p: Prefix| p.model_id == strs::trim(model_id@)),
            |p: Prefix| warmup_of(manager@, model_id@, base_slot, p),
        ),
        forall|i: int|
            0 <= i < r@.len() ==> {
                let o = (#[trigger] r@[i]).options;
                &&& o.model_id@ == model_id@
                &&& o.endpoint@ == endpoint@
                &&& o.model_path is None
                &&& o.slot == r@[i].slot
                &&& o.cache_prompt == config.cache_prompt
                &&& o.assistant_prefix is None
                &&& o.n_ctx == Some(4096u32)
                &&& o.threads == Some(threads)
                &&& o.max_tokens == 0
                &&& o.temperature_milli == 0
                &&& o.top_p_milli == 1000
                &&& o.repeat_penalty_milli == 1000
                &&& o.request_timeout_ms == if config.request_timeout_ms < 10_000 {
                    10_000
                } else {
                    config.request_timeout_ms
                }
            },
{
    let prefixes = manager.static_prefixes_for_model(model_id);
    let ghost all = strs::deep(prefixes@);
    let ghost g = |p: Prefix| warmup_of(manager@, model_id@, base_slot, p);
    let timeout: u64 = if config.request_timeout_ms < 10_000 {
        10_000
    } else {
        config.request_timeout_ms
    };
    let mut out: Vec<WarmupJob> = Vec::new();
    let mut i: usize = 0;
    assert(strs::deep(out@) =~= strs::collected(all.take(0), g));
    while i < prefixes.len()
        invariant
            i <= prefixes@.len(),
            all == strs::deep(prefixes@),
            g == (|p: Prefix| warmup_of(manager@, model_id@, base_slot, p)),
            timeout == if config.request_timeout_ms < 10_000 {
                10_000
            } else {
                config.request_timeout_ms
            },
            strs::deep(out@) == strs::collected(all.take(i as int), g),
            forall|k: int|
                0 <= k < out@.len() ==> {
                    let o = (#[trigger] out@[k]).options;
                    &&& o.model_id@ == model_id@
                    &&& o.endpoint@ == endpoint@
                    &&& o.model_path is None
                    &&& o.slot == out@[k].slot
                    &&& o.cache_prompt == config.cache_prompt
                    &&& o.assistant_prefix is None
                    &&& o.n_ctx == Some(4096u32)
                    &&& o.threads == Some(threads)
                    &&& o.max_tokens == 0
                    &&& o.temperature_milli == 0
                    &&& o.top_p_milli == 1000
                    &&& o.repeat_penalty_milli == 1000
                    &&& o.request_timeout_ms == timeout
                },
        decreases prefixes@.len() - i,
    {
        assert(all.take(i + 1).drop_last() =~= all.take(i as int));
        let prefix = &prefixes[i];
        assert(all.take(i + 1).last() == prefix@);
        if let Some(stage) = strategy_hybrid_stage_from_name(&prefix.stage_name) {
            let slot = llama_server_slot_for_stage(base_slot, stage);
            if !manager.is_prefix_warm(model_id, &prefix.id, slot, Some(prefix.content_hash)) {
                let ghost before = strs::deep(out@);
                let job = WarmupJob {
                    prefix: prefix.clone(),
                    slot,
                    options: GenerationSessionOptions {
                        model_id: model_id.to_owned(),
                        endpoint: endpoint.to_owned(),
                        model_path: None,
                        slot,
                        cache_prompt: config.cache_prompt,
                        assistant_prefix: None,
                        n_ctx: Some(4096),
                        threads: Some(threads),
                        max_tokens: 0,
                        temperature_milli: 0,
                        top_p_milli: 1000,
                        repeat_penalty_milli: 1000,
                        request_timeout_ms: timeout,
                    },
                };
                out.push(job);
                assert(strs::deep(out@) =~= before.push(job@));
            }
        }
        i += 1;
    }
    assert(all.take(i as int) =~= all);
    out
}

/// No line that belongs to one request stands in a class of a system prompt's static lines.
pub proof fn static_lines_are_not_dynamic(lines: Seq<Seq<char>>, class: LineClass)
    requires
        class != LineClass::Dynamic,
    ensures
        forall|i: int|
            0 <= i < lines_of_class(lines, class).len() ==> !is_dynamic(
                #[trigger] lines_of_class(lines, class)[i],
            ),
    decreases lines.len(),
{
    if lines.len() > 0 {
        let head = lines_of_class(lines.drop_last(), class);
        static_lines_are_not_dynamic(lines.drop_last(), class);
        let all = lines_of_class(lines, class);
        assert forall|i: int| 0 <= i < all.len() implies !is_dynamic(#[trigger] all[i]) by {
            if i < head.len() {
                assert(all[i] == head[i]);
            } else {
                assert(all[i] == strs::trim(lines.last()));
                text::trimming_twice_is_trimming_once(lines.last());
            }
        }
    }
}

/// A line that belongs to no request mentions neither the clock nor the date.
proof fn lemma_static_line(lines: Seq<Seq<char>>, class: LineClass, k: int, p: Seq<char>)
    requires
        class != LineClass::Dynamic,
        0 <= k < lines_of_class(lines, class).len(),
        p == "현재 시각"@ || p == "오늘 날짜"@,
    ensures
        !strs::contains(lines_of_class(lines, class)[k], p),
    decreases lines.len(),
{
    let all = lines_of_class(lines, class);
    let head = lines_of_class(lines.drop_last(), class);
    if k < head.len() {
        lemma_static_line(lines.drop_last(), class, k, p);
        assert(all[k] == head[k]);
    } else {
        reveal_strlit("현재 시각");
        reveal_strlit("오늘 날짜");
        let t = strs::trim(lines.last());
        assert(all[k] == t);
        text::trimming_twice_is_trimming_once(lines.last());
        if t.len() > 0 {
            assert(!is_dynamic(t));
        } else if strs::contains(t, p) {
            let i = choose|i: int| strs::occurs_at(t, p, i);
            assert(false);
        }
    }
}

/// What stands in a segment stands in the text that it was made of.
proof fn lemma_normalized_holds(s: Seq<char>, p: Seq<char>)
    requires
        p.len() > 0,
        text::apart(p, "\n"@),
        strs::contains(prompt_segments::normalized(s), p),
    ensures
        strs::contains(s, p),
{
    reveal_strlit("\n");
    let unix = strs::replace(s, "\r\n"@, "\n"@);
    let lf = strs::replace(unix, "\r"@, "\n"@);
    text::lemma_contains_trimmed(lf, p);
    text::lemma_contains_replaced(unix, "\r"@, "\n"@, p);
    text::lemma_contains_replaced(s, "\r\n"@, "\n"@, p);
}

/// The text is made of these lines, and none of them belongs to a request.
pub open spec fn made_of(text: Seq<char>, lines: Seq<Seq<char>>) -> bool {
    &&& text == prompt_segments::normalized(strs::join(lines, "\n"@))
    &&& forall|k: int| 0 <= k < lines.len() ==> !is_dynamic(#[trigger] lines[k])
}

/// A segment that is the same for every request: it is made of lines that belong to none, and
/// mentions neither the clock nor the date.
pub open spec fn is_timeless(s: Segment) -> bool {
    &&& s.is_static
    &&& s.kind.is_static_kind()
    &&& exists|lines: Seq<Seq<char>>| made_of(s.text, lines)
    &&& !strs::contains(s.text, "현재 시각"@)
    &&& !strs::contains(s.text, "오늘 날짜"@)
}

/// The segments are the same for every request.
pub open spec fn timeless(segments: Seq<Segment>) -> bool {
    forall|i: int| 0 <= i < segments.len() ==> is_timeless(#[trigger] segments[i])
}

proof fn lemma_clock_words()
    ensures
        "현재 시각"@.len() > 0,
        "오늘 날짜"@.len() > 0,
        text::apart("현재 시각"@, "\n"@),
        text::apart("오늘 날짜"@, "\n"@),
        text::apart("현재 시각"@, "\n\n"@),
        text::apart("오늘 날짜"@, "\n\n"@),
        "\n"@.len() == 1,
        "\n\n"@.len() == 2,
{
    reveal_strlit("현재 시각");
    reveal_strlit("오늘 날짜");
    reveal_strlit("\n");
    reveal_strlit("\n\n");
}

proof fn lemma_class_is_timeless(
    segments: Seq<Segment>,
    raw: Seq<char>,
    class: LineClass,
    kind: PromptSegmentKind,
    id: Seq<char>,
)
    requires
        timeless(segments),
        class != LineClass::Dynamic,
        kind.is_static_kind(),
    ensures
        timeless(with_class(segments, raw, class, kind, id)),
{
    lemma_clock_words();
    let lines = lines_of_class(strs::lines(raw), class);
    let joined = strs::join(lines, "\n"@);
    let made = prompt_segments::static_of(kind, id, joined);
    assert forall|p: Seq<char>|
        p == "현재 시각"@ || p == "오늘 날짜"@ implies !strs::contains(made.text, p) by {
        if strs::contains(made.text, p) {
            lemma_normalized_holds(joined, p);
            let k = text::lemma_contains_joined(lines, "\n"@, p);
            lemma_static_line(strs::lines(raw), class, k, p);
        }
    }
    assert(!strs::contains(made.text, "현재 시각"@));
    assert(!strs::contains(made.text, "오늘 날짜"@));
    static_lines_are_not_dynamic(strs::lines(raw), class);
    assert(made_of(made.text, lines));
}

/// Whatever a system prompt says, its static segments are made of lines that belong to no request
/// and mention neither the clock nor the date, and the static prefix that is kept of them mentions
/// neither.
pub proof fn the_static_prefix_is_timeless(model_id: Seq<char>, raw: Seq<char>, stage: HybridStage)
    ensures
        timeless(system_segments(raw, stage)),
        ({
            let kept = cache_manager::static_prefix(
                model_id,
                stage,
                sorting::sorted::<PromptSegment>(system_segments(raw, stage)),
            ).text;
            &&& !strs::contains(kept, "현재 시각"@)
            &&& !strs::contains(kept, "오늘 날짜"@)
        }),
{
    lemma_clock_words();
    let name = stage.name();
    let none = Seq::<Segment>::empty();
    let first = PromptSegmentKind::StaticSystemPrefix;
    lemma_class_is_timeless(none, raw, LineClass::SystemPrefix, first, name + ".system"@);
    let a = with_class(none, raw, LineClass::SystemPrefix, first, name + ".system"@);
    let mode = PromptSegmentKind::StaticModeTemplate;
    lemma_class_is_timeless(a, raw, LineClass::Mode, mode, name + ".mode"@);
    let b = with_class(a, raw, LineClass::Mode, mode, name + ".mode"@);
    let told = PromptSegmentKind::StaticStageInstruction;
    lemma_class_is_timeless(b, raw, LineClass::Instruction, told, name + ".instruction"@);
    let c = with_class(b, raw, LineClass::Instruction, told, name + ".instruction"@);
    let shape = PromptSegmentKind::StaticOutputFormat;
    lemma_class_is_timeless(c, raw, LineClass::Format, shape, name + ".format"@);
    let made = prompt_segments::static_of(first, name + ".fallback"@, ""@);
    assert forall|p: Seq<char>| p.len() > 0 && text::apart(p, "\n"@) implies !strs::contains(
        made.text,
        p,
    ) by {
        if strs::contains(made.text, p) {
            lemma_normalized_holds(""@, p);
            reveal_strlit("");
            let i = choose|i: int| strs::occurs_at(""@, p, i);
            assert(false);
        }
    }
    assert(!strs::contains(made.text, "현재 시각"@));
    assert(!strs::contains(made.text, "오늘 날짜"@));
    reveal_strlit("");
    let no_lines = Seq::<Seq<char>>::empty();
    assert(strs::join(no_lines, "\n"@) =~= ""@);
    assert(made_of(made.text, no_lines));
    let all = system_segments(raw, stage);
    assert(timeless(all));
    let ordered = sorting::sorted::<PromptSegment>(all);
    sorting::sorting_keeps_what_holds_of_all::<PromptSegment>(all, |x: Segment| is_timeless(x));
    assert(timeless(ordered));
    lemma_texts_are_timeless(ordered, "현재 시각"@);
    lemma_texts_are_timeless(ordered, "오늘 날짜"@);
}

proof fn lemma_texts_are_timeless(segments: Seq<Segment>, p: Seq<char>)
    requires
        timeless(segments),
        p == "현재 시각"@ || p == "오늘 날짜"@,
    ensures
        !strs::contains(prompt_segments::rendered_static(segments), p),
{
    lemma_clock_words();
    let texts = prompt_segments::texts_where(segments, |s: Segment| s.is_static);
    if strs::contains(prompt_segments::rendered_static(segments), p) {
        let k = text::lemma_contains_joined(texts, "\n\n"@, p);
        lemma_text_of_segment(segments, k);
        let i = choose|i: int|
            0 <= i < segments.len() && texts[k] == strs::trim((#[trigger] segments[i]).text);
        text::lemma_contains_trimmed(segments[i].text, p);
    }
}

proof fn lemma_text_of_segment(segments: Seq<Segment>, k: int)
    requires
        0 <= k < prompt_segments::texts_where(segments, |s: Segment| s.is_static).len(),
    ensures
        exists|i: int|
            0 <= i < segments.len() && prompt_segments::texts_where(
                segments,
                |s: Segment| s.is_static,
            )[k] == strs::trim((#[trigger] segments[i]).text),
    decreases segments.len(),
{
    let keep = |s: Segment| s.is_static;
    if segments.len() > 0 {
        let head = prompt_segments::texts_where(segments.drop_last(), keep);
        if k < head.len() {
            lemma_text_of_segment(segments.drop_last(), k);
            let i = choose|i: int|
                0 <= i < segments.drop_last().len() && head[k] == strs::trim(
                    (#[trigger] segments.drop_last()[i]).text,
                );
            assert(segments[i] == segments.drop_last()[i]);
        } else {
            assert(segments[segments.len() - 1] == segments.last());
        }
    }
}

/// Two stages of one model share a slot only where the model has none, slot 0 is shared, or the
/// slots run out.
pub proof fn stages_have_their_own_slots(base: u32, a: HybridStage, b: HybridStage)
    requires
        base != 0,
        base <= u32::MAX - 21,
        slot_of(Some(base), a) == slot_of(Some(base), b),
    ensures
        a == b,
{
}

/// A stage is found by its name.
pub proof fn stages_are_found_by_name(stage: HybridStage)
    ensures
        stage_named(stage.name()) == Some(stage),
{
    reveal_strlit("general_main");
    reveal_strlit("general_draft");
    reveal_strlit("general_synthesis");
    reveal_strlit("record_main");
    reveal_strlit("record_fill");
    reveal_strlit("record_synthesis");
    reveal_strlit("record_review");
    reveal_strlit("fast_roosy");
    reveal_strlit("record_recovery");
    let n = stage.name();
    text::lemma_trim_keeps(n);
    assert(strs::ascii_lower(n) =~= n);
    assert("general_main"@.len() == 12);
    assert("general_draft"@.len() == 13);
    assert("general_synthesis"@.len() == 17);
    assert("record_main"@.len() == 11);
    assert("record_fill"@.len() == 11);
    assert("record_main"@[7] == 'm' && "record_fill"@[7] == 'f');
    assert("record_synthesis"@.len() == 16);
    assert("record_review"@.len() == 13);
    assert("general_draft"@[0] == 'g' && "record_review"@[0] == 'r');
    assert("fast_roosy"@.len() == 10);
    assert("record_recovery"@.len() == 15);
}

} // verus!
