//! What holds of the backends, of what is sent to them and of what they say.

use crate::drace::backends;
use crate::drace::backends::{BackendEnvironment, GenerationSessionHandle, ServerConfig};
use crate::drace::cache_manager::{BackendKind, HybridStage};
use crate::drace::draft_provider;
use crate::drace::prompt_segments;
use crate::drace::prompt_segments::{PromptSegmentKind, Segment};
use crate::drace::synthetic_token_cache;
use crate::json;
use crate::json::Tree;
use crate::lists;
use crate::strs;
use crate::text;
use crate::texts;
use vstd::prelude::*;

verus! {

/// A flag is set by one, by true in small or large letters, by yes or by on; by nothing else.
pub proof fn flags_are_set_by_their_words(s: Seq<char>)
    ensures
        backends::flag_on(Some(s)) <==> s == "1"@ || s == "true"@ || s == "TRUE"@ || s == "yes"@
            || s == "on"@,
        !backends::flag_on(None),
{
}

/// An address that was set goes before that of the environment, and that before the usual one; a
/// blank one counts as none. The usual addresses are of this machine, and are not the same.
pub proof fn addresses_are_chosen_in_turn(settings: Option<ServerConfig>, env: BackendEnvironment)
    ensures
        ({
            let c = backends::server_config(settings, env);
            let set_hyper = settings is Some && strs::trim(settings->0.hyperclova_url).len() > 0;
            let set_roosy = settings is Some && strs::trim(settings->0.roosy_url).len() > 0;
            let env_hyper = env.hyperclova_url is Some && strs::trim(
                env.hyperclova_url->0@,
            ).len() > 0;
            let env_roosy = env.roosy_url is Some && strs::trim(env.roosy_url->0@).len() > 0;
            &&& set_hyper ==> c.hyperclova_url == strs::trim(settings->0.hyperclova_url)
            &&& !set_hyper && env_hyper ==> c.hyperclova_url == strs::trim(env.hyperclova_url->0@)
            &&& !set_hyper && !env_hyper ==> c.hyperclova_url
                == "http://127.0.0.1:18081/completion"@
            &&& set_roosy ==> c.roosy_url == strs::trim(settings->0.roosy_url)
            &&& !set_roosy && env_roosy ==> c.roosy_url == strs::trim(env.roosy_url->0@)
            &&& !set_roosy && !env_roosy ==> c.roosy_url == "http://127.0.0.1:18082/completion"@
        }),
{
}

/// Times that were set are kept where they are long enough, and made as long as they must be where
/// they are not; slots and the cache are as they were set. Where nothing was set the environment
/// says, and where it says nothing the usual times hold and the cache is on.
pub proof fn times_and_slots_are_as_they_were_set(
    settings: Option<ServerConfig>,
    env: BackendEnvironment,
)
    ensures
        ({
            let c = backends::server_config(settings, env);
            &&& settings matches Some(s) ==> {
                &&& c.startup_timeout_ms >= 90_000 && c.request_timeout_ms >= 240_000
                &&& s.startup_timeout_ms >= 90_000 ==> c.startup_timeout_ms == s.startup_timeout_ms
                &&& s.request_timeout_ms >= 240_000 ==> c.request_timeout_ms
                    == s.request_timeout_ms
                &&& s.startup_timeout_ms < 90_000 ==> c.startup_timeout_ms == 90_000
                &&& s.request_timeout_ms < 240_000 ==> c.request_timeout_ms == 240_000
                &&& c.cache_prompt == s.cache_prompt
                &&& c.hyperclova_slot == s.hyperclova_slot
                &&& c.roosy_slot == s.roosy_slot
            }
            &&& settings is None ==> {
                &&& env.startup_timeout_ms is None ==> c.startup_timeout_ms == 90_000
                &&& env.request_timeout_ms is None ==> c.request_timeout_ms == 240_000
                &&& env.disable_cache_prompt is None ==> c.cache_prompt
                &&& c.cache_prompt <==> !backends::flag_on(strs::opt_view(env.disable_cache_prompt))
                &&& env.hyperclova_slot is None ==> c.hyperclova_slot is None
                &&& env.roosy_slot is None ==> c.roosy_slot is None
            }
        }),
{
}

/// A number of the environment is taken as it stands, where it can be read.
pub proof fn numbers_of_the_environment_are_read(n: nat, max: nat)
    requires
        n <= max,
    ensures
        backends::number_of(Some(strs::decimal(n)), max) == Some(n),
        backends::number_of(None, max) is None,
{
    texts::decimal_digits_stand_for_their_number(n);
    let s = strs::decimal(n);
    assert(strs::is_ascii_digit(s[0]) && strs::is_ascii_digit(s[s.len() - 1]));
    text::lemma_trim_keeps(s);
    texts::decimal_numbers_are_read_back(n, max);
}

/// The backend in this process is used where it is named, by the caller before the environment,
/// in small or large letters.
pub proof fn the_caller_names_the_backend_first(
    explicit: Option<Seq<char>>,
    environment: Option<Seq<char>>,
)
    ensures
        ({
            let named = explicit is Some && strs::trim(explicit->0).len() > 0;
            let wanted = backends::native_wanted(explicit, environment);
            &&& named ==> (wanted <==> strs::ascii_lower(strs::trim(explicit->0)) == "native"@)
            &&& !named && environment is Some ==> (wanted <==> strs::ascii_lower(
                strs::trim(environment->0),
            ) == "native"@)
            &&& !named && environment is None ==> !wanted
        }),
{
}

/// The backend in this process verifies tokens only where its library is there and it was switched
/// on, in one of two ways, and not where it was switched off.
pub proof fn the_native_backend_verifies_where_it_is_on(env: BackendEnvironment)
    ensures
        ({
            let off = backends::flag_on(strs::opt_view(env.disable_native_verifier));
            let on = backends::flag_on(strs::opt_view(env.enable_native_verifier))
                || backends::flag_on(strs::opt_view(env.experimental_native_backend));
            backends::native_verifies(env) <==> on && !off && env.native_library_found
        }),
{
}

/// A server stays up and keeps prefixes, but verifies no tokens; the backend in this process keeps
/// no prefixes, and verifies tokens, in batches too, exactly where it can be used at all.
pub proof fn backends_can_do_different_things(verifies: bool)
    ensures
        ({
            let s = backends::server_capabilities();
            let n = backends::native_capabilities(verifies);
            &&& s.backend_kind == BackendKind::LlamaServer
            &&& s.supports_resident && s.supports_resident_model
            &&& s.supports_prefix_kv_cache && s.supports_prompt_cache
            &&& !s.supports_token_verification && !s.supports_batch_verification
            &&& !s.supports_synthetic_token_cache && !s.supports_prompt_token_cache
            &&& n.backend_kind == BackendKind::Native
            &&& !n.supports_prefix_kv_cache && !n.supports_prompt_cache
            &&& n.supports_token_verification == verifies
            &&& n.supports_batch_verification == verifies
            &&& n.supports_synthetic_token_cache == verifies
            &&& n.supports_resident_model == verifies
            &&& n.supports_resident == verifies
        }),
{
}

/// An address of this machine begins with its number or its name and a port, and asks for a
/// completion; letters count alike, and white space around it does not count.
pub proof fn local_addresses_are_told_by_both_ends(s: Seq<char>)
    ensures
        ({
            let a = strs::ascii_lower(strs::trim(s));
            let here = strs::starts_with(a, "http://127.0.0.1:"@) || strs::starts_with(
                a,
                "http://localhost:"@,
            );
            backends::loopback_completion_url(s) <==> here && strs::ends_with(a, "/completion"@)
        }),
        backends::loopback_completion_url(s) == backends::loopback_completion_url(strs::trim(s)),
{
    text::trimming_twice_is_trimming_once(s);
}

/// The answer in a reply is what stands under content, else under response, text or completion:
/// the first of them that is not blank.
pub proof fn the_answer_is_the_first_that_is_filled(root: Tree)
    ensures
        ({
            let content = json::filled_text(root.get("content"@));
            let response = json::filled_text(root.get("response"@));
            let written = json::filled_text(root.get("text"@));
            let completion = json::filled_text(root.get("completion"@));
            let answer = backends::reply_answer(root);
            &&& content is Some ==> answer == content
            &&& content is None && response is Some ==> answer == response
            &&& content is None && response is None && written is Some ==> answer == written
            &&& content is None && response is None && written is None && completion is Some
                ==> answer == completion
            &&& content is None && response is None && written is None && completion is None
                && !(root.get("choices"@) matches Some(Tree::List(_))) ==> answer is None
        }),
{
    let keys = backends::answer_keys();
    assert(keys[0] == "content"@ && keys[1] == "response"@ && keys[2] == "text"@ && keys[3]
        == "completion"@);
    reveal_with_fuel(json::first_filled, 5);
}

/// Where none of these is filled, the answer is that of the first choice that has one: its
/// content, its text, its completion, or the content of its message.
pub proof fn else_the_first_choice_answers(root: Tree, choices: Seq<Tree>, i: int)
    requires
        json::first_filled(root, backends::answer_keys(), 0) is None,
        root.get("choices"@) == Some(Tree::List(choices)),
        0 <= i < choices.len(),
        forall|j: int| 0 <= j < i ==> backends::choice_answer(#[trigger] choices[j]) is None,
        backends::choice_answer(choices[i]) is Some,
    ensures
        backends::reply_answer(root) == backends::choice_answer(choices[i]),
        ({
            let c = choices[i];
            let content = json::filled_text(c.get("content"@));
            let written = json::filled_text(c.get("text"@));
            let completion = json::filled_text(c.get("completion"@));
            let said = json::filled_text(json::get_of(c.get("message"@), "content"@));
            let answer = backends::choice_answer(c);
            &&& content is Some ==> answer == content
            &&& content is None && written is Some ==> answer == written
            &&& content is None && written is None && completion is Some ==> answer == completion
            &&& content is None && written is None && completion is None ==> answer == said
        }),
{
    lemma_choice_from(choices, 0, i);
    let keys = backends::choice_keys();
    assert(keys[0] == "content"@ && keys[1] == "text"@ && keys[2] == "completion"@);
    reveal_with_fuel(json::first_filled, 4);
}

proof fn lemma_choice_from(choices: Seq<Tree>, from: int, i: int)
    requires
        0 <= from <= i < choices.len(),
        forall|j: int| from <= j < i ==> backends::choice_answer(#[trigger] choices[j]) is None,
        backends::choice_answer(choices[i]) is Some,
    ensures
        backends::choices_answer(choices, from) == backends::choice_answer(choices[i]),
    decreases i - from,
{
    if from < i {
        lemma_choice_from(choices, from + 1, i);
    }
}

/// A reply is a document where it can be read and the server did not fail; where it failed, what
/// it says of it is told, with its status.
pub proof fn a_failed_reply_tells_what_the_server_says(
    what: Seq<char>,
    success: bool,
    status: Seq<char>,
    body: Seq<char>,
)
    ensures
        ({
            let read = backends::reply_document(what, success, status, body);
            &&& read is Ok <==> json::parsed(body) is Ok && success
            &&& read is Ok ==> read->Ok_0 == json::parsed(body)->Ok_0
            &&& json::parsed(body) is Ok && !success ==> strs::contains(read->Err_0, status)
            &&& json::parsed(body) is Ok && !success ==> (backends::reply_error(
                json::parsed(body)->Ok_0,
            ) matches Some(said) ==> strs::ends_with(read->Err_0, said))
        }),
{
    match json::parsed(body) {
        Ok(tree) => {
            if !success {
                let tail = match backends::reply_error(tree) {
                    Some(e) => e,
                    None => backends::debug_line(body, 260),
                };
                let front = "llama-server "@ + what + "응답 오류: HTTP "@;
                let e = front + status + " / "@ + tail;
                assert(backends::reply_document(what, success, status, body)->Err_0 =~= e);
                assert(e.subrange(front.len() as int, (front.len() + status.len()) as int)
                    =~= status);
                assert(strs::occurs_at(e, status, front.len() as int));
                assert(e.subrange(e.len() - tail.len(), e.len() as int) =~= tail);
            }
        },
        Err(_) => {},
    }
}

/// What is shown of a reply is no longer than it may be, but for a mark that it was cut.
pub proof fn what_is_shown_is_cut(s: Seq<char>, max: nat)
    ensures
        backends::debug_line(s, max).len() <= max + 1,
        strs::trim(strs::replace(strs::replace(s, "\r"@, ""@), "\n"@, " "@)).len() > max
            ==> backends::debug_line(s, max).last() == '…',
{
    reveal_strlit("…");
}

/// A prompt is sent with what the answer has to begin with behind it; only one that is to be kept
/// names its slot.
pub proof fn a_prompt_ends_with_what_the_answer_begins_with(session: GenerationSessionHandle)
    ensures
        strs::starts_with(backends::session_prompt(session), session.prompt@),
        session.options.assistant_prefix matches Some(p) ==> backends::session_prompt(session)
            == session.prompt@ + p@,
        session.options.assistant_prefix is None ==> backends::session_prompt(session)
            == session.prompt@,
        session.options.cache_prompt ==> backends::request_slot(session) == session.options.slot,
        !session.options.cache_prompt ==> backends::request_slot(session) is None,
{
    let whole = backends::session_prompt(session);
    assert(whole.subrange(0, session.prompt@.len() as int) =~= session.prompt@);
}

/// A proposed text is checked over as many tokens as it has characters, but over one at least and
/// over 24 at most.
pub proof fn a_proposal_is_checked_over_its_length(candidate: Seq<char>)
    ensures
        1 <= backends::verify_len(candidate) <= 24,
        1 <= candidate.len() <= 24 ==> backends::verify_len(candidate) == candidate.len(),
{
}

/// The kinds of segments stand in a prompt in this order: what never changes first, then the case,
/// the evidence, the laws, the conversation, the message and the drafts.
pub proof fn segments_have_their_places()
    ensures
        PromptSegmentKind::StaticSystemPrefix.rank() < PromptSegmentKind::StaticModeTemplate.rank(),
        PromptSegmentKind::StaticModeTemplate.rank()
            < PromptSegmentKind::StaticStageInstruction.rank(),
        PromptSegmentKind::StaticStageInstruction.rank()
            < PromptSegmentKind::StaticOutputFormat.rank(),
        PromptSegmentKind::StaticOutputFormat.rank() < PromptSegmentKind::DynamicCaseContext.rank(),
        PromptSegmentKind::DynamicCaseContext.rank()
            < PromptSegmentKind::DynamicEvidencePacket.rank(),
        PromptSegmentKind::DynamicEvidencePacket.rank()
            < PromptSegmentKind::DynamicLegalRefs.rank(),
        PromptSegmentKind::DynamicLegalRefs.rank() < PromptSegmentKind::DynamicConversation.rank(),
        PromptSegmentKind::DynamicConversation.rank()
            < PromptSegmentKind::DynamicUserMessage.rank(),
        PromptSegmentKind::DynamicUserMessage.rank()
            < PromptSegmentKind::DynamicDraftArtifacts.rank(),
        PromptSegmentKind::StaticOutputFormat.is_static_kind(),
        !PromptSegmentKind::DynamicCaseContext.is_static_kind(),
{
}

proof fn lemma_texts(segments: Seq<Segment>, keep: spec_fn(Segment) -> bool, k: int)
    requires
        0 <= k < segments.len(),
        keep(segments[k]),
        strs::trim(segments[k].text).len() > 0,
    ensures
        prompt_segments::texts_where(segments, keep).contains(strs::trim(segments[k].text)),
    decreases segments.len(),
{
    let t = segments.drop_last();
    let head = prompt_segments::texts_where(t, keep);
    let all = prompt_segments::texts_where(segments, keep);
    let x = strs::trim(segments[k].text);
    if k < t.len() {
        assert(t[k] == segments[k]);
        lemma_texts(t, keep, k);
        let j = choose|j: int| 0 <= j < head.len() && head[j] == x;
        assert(all[j] == x);
    } else {
        assert(all[head.len() as int] == x);
    }
}

/// Every segment that is not blank stands in the prompt, trimmed; every static one stands in its
/// static part too.
pub proof fn every_segment_stands_in_the_prompt(segments: Seq<Segment>, k: int)
    requires
        0 <= k < segments.len(),
        strs::trim(segments[k].text).len() > 0,
    ensures
        strs::contains(prompt_segments::rendered(segments), strs::trim(segments[k].text)),
        segments[k].is_static ==> strs::contains(
            prompt_segments::rendered_static(segments),
            strs::trim(segments[k].text),
        ),
{
    let x = strs::trim(segments[k].text);
    let any = |s: Segment| true;
    let still = |s: Segment| s.is_static;
    lemma_texts(segments, any, k);
    let a = prompt_segments::texts_where(segments, any);
    let i = choose|i: int| 0 <= i < a.len() && a[i] == x;
    let at = lists::joined_parts_stand_in_the_text(a, "\n\n"@, i);
    assert(strs::occurs_at(strs::join(a, "\n\n"@), x, at));
    if segments[k].is_static {
        lemma_texts(segments, still, k);
        let b = prompt_segments::texts_where(segments, still);
        let j = choose|j: int| 0 <= j < b.len() && b[j] == x;
        let to = lists::joined_parts_stand_in_the_text(b, "\n\n"@, j);
        assert(strs::occurs_at(strs::join(b, "\n\n"@), x, to));
    }
}

/// A line without a carriage return that is not blank at its ends is kept in the text of a segment.
pub proof fn segments_keep_their_lines(s: Seq<char>, line: Seq<char>)
    requires
        line.len() > 0,
        !strs::is_space(line[0]),
        !strs::is_space(line.last()),
        forall|i: int| 0 <= i < line.len() ==> #[trigger] line[i] != '\r' && line[i] != '\n',
        strs::contains(s, line),
    ensures
        strs::contains(prompt_segments::normalized(s), line),
{
    reveal_strlit("\r\n");
    reveal_strlit("\r");
    texts::replacing_keeps_what_has_no_mark(s, "\r\n"@, "\n"@, line);
    let a = strs::replace(s, "\r\n"@, "\n"@);
    texts::replacing_keeps_what_has_no_mark(a, "\r"@, "\n"@, line);
    texts::trimming_keeps_what_is_inside(strs::replace(a, "\r"@, "\n"@), line);
}

/// An answer begins as its stage has it: a record with its first heading, an answer in general with
/// a word, and a review, like any other stage, as data.
pub proof fn a_draft_begins_as_its_stage_has_it(stage: HybridStage)
    ensures
        ({
            let opening = draft_provider::template_opening(stage.name());
            &&& stage is RecordMain || stage is RecordFill || stage is RecordSynthesis ==> opening
                == "[기록 기본정보]\n- 기록 시각: "@
            &&& stage is GeneralSynthesis ==> opening == "지금은 "@
            &&& stage is RecordReview || stage is GeneralMain || stage is GeneralDraft
                || stage is FastRoosy || stage is RecordRecovery ==> opening == "{\"summary\":\""@
        }),
{
    reveal_strlit("record_review");
    reveal_strlit("record_synthesis");
    reveal_strlit("record_main");
    reveal_strlit("record_fill");
    reveal_strlit("general_synthesis");
    reveal_strlit("general_main");
    reveal_strlit("general_draft");
    reveal_strlit("fast_roosy");
    reveal_strlit("record_recovery");
    let name = stage.name();
    if stage is RecordMain || stage is RecordFill || stage is RecordSynthesis
        || stage is GeneralSynthesis {
        assert(name[7] != "record_review"@[7] || name.len() != "record_review"@.len());
    }
    if stage is GeneralSynthesis {
        assert(name[0] == 'g');
        assert("record_synthesis"@[0] == 'r' && "record_main"@[0] == 'r' && "record_fill"@[0]
            == 'r');
    }
    if stage is RecordRecovery {
        assert(name.len() == 15 && "record_review"@.len() == 13 && "record_synthesis"@.len() == 16 && "record_main"@.len() == 11
            && "record_fill"@.len() == 11 && "general_synthesis"@.len() == 17);
    }
    if stage is GeneralMain || stage is GeneralDraft || stage is FastRoosy {
        assert(name[0] != 'r');
        assert("record_synthesis"@[0] == 'r' && "record_main"@[0] == 'r' && "record_fill"@[0]
            == 'r');
        assert(name.len() != "general_synthesis"@.len());
    }
    if stage is RecordReview {
        assert(name.len() == 13);
    }
}

/// What two prompts share names the stage, and every known block of the prompt under its title.
pub proof fn a_signature_holds_the_known_blocks(stage: Seq<char>, prompt: Seq<char>, k: int)
    requires
        0 <= k < synthetic_token_cache::record_titles().len(),
        strs::contains(prompt, "[사용자 입력 상황]"@),
        synthetic_token_cache::prompt_block(
            prompt,
            synthetic_token_cache::record_titles()[k],
        ) is Some,
    ensures
        ({
            let title = synthetic_token_cache::record_titles()[k];
            let block = synthetic_token_cache::prompt_block(prompt, title)->0;
            let signature = synthetic_token_cache::semantic_signature(stage, prompt);
            &&& strs::contains(
                signature,
                title + "="@ + synthetic_token_cache::normalized_block(block),
            )
            &&& strs::starts_with(signature, "stage="@ + strs::trim(stage))
        }),
{
    let titles = synthetic_token_cache::record_titles();
    let blocks = synthetic_token_cache::titled_blocks(prompt, titles);
    let x = titles[k] + "="@ + synthetic_token_cache::normalized_block(
        synthetic_token_cache::prompt_block(prompt, titles[k])->0,
    );
    lemma_titled(prompt, titles, k);
    let head = seq!["stage="@ + strs::trim(stage)];
    let all = head + blocks;
    let i = choose|i: int| 0 <= i < blocks.len() && blocks[i] == x;
    assert(all[i + 1] == x);
    let at = lists::joined_parts_stand_in_the_text(all, "\n\n"@, i + 1);
    let whole = strs::join(all, "\n\n"@);
    assert(strs::occurs_at(whole, x, at));
    let zero = lists::joined_parts_stand_in_the_text(all, "\n\n"@, 0);
    assert(all[0] == "stage="@ + strs::trim(stage));
    assert(strs::occurs_at(whole, all[0], 0));
}

proof fn lemma_titled(prompt: Seq<char>, titles: Seq<Seq<char>>, k: int)
    requires
        0 <= k < titles.len(),
        synthetic_token_cache::prompt_block(prompt, titles[k]) is Some,
    ensures
        synthetic_token_cache::titled_blocks(prompt, titles).contains(
            titles[k] + "="@ + synthetic_token_cache::normalized_block(
                synthetic_token_cache::prompt_block(prompt, titles[k])->0,
            ),
        ),
    decreases titles.len(),
{
    let t = titles.drop_last();
    let head = synthetic_token_cache::titled_blocks(prompt, t);
    let all = synthetic_token_cache::titled_blocks(prompt, titles);
    let x = titles[k] + "="@ + synthetic_token_cache::normalized_block(
        synthetic_token_cache::prompt_block(prompt, titles[k])->0,
    );
    if k < t.len() {
        assert(t[k] == titles[k]);
        lemma_titled(prompt, t, k);
        let i = choose|i: int| 0 <= i < head.len() && head[i] == x;
        assert(all[i] == x);
    } else {
        assert(all[head.len() as int] == x);
    }
}

} // verus!
