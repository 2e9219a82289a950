//! What holds of what is measured of the stages.

use crate::drace::cache_manager::BackendKind;
use crate::engine::perf;
use crate::engine::perf::{StrategyCacheSummary, StrategyStagePerf};
use crate::engine::review;
use crate::engine::review::{DataOutcome, ReviewStep, StrategyRecordRendererStats};
use crate::lists;
use crate::strs;
use crate::text;
use vstd::prelude::*;

verus! {

/// A text has at least as many tokens as a quarter of its characters and as many as its words, and
/// one at least; and it has no more than the larger of these.
pub proof fn tokens_are_counted_by_characters_and_words(s: Seq<char>)
    ensures
        ({
            let n = perf::output_tokens(s);
            &&& n >= 1
            &&& n >= s.len() / 4
            &&& n >= strs::words(s).len()
            &&& n == 1 || n == s.len() / 4 || n == strs::words(s).len()
        }),
{
}

/// A plan that passes the cache by takes nothing of it, says why, and asks for what was asked for.
pub proof fn a_bypass_takes_nothing(requested: bool, reason: Seq<char>)
    ensures
        ({
            let p = perf::bypass_plan(requested, reason);
            &&& !p.cache_applied && !p.cache_loaded && !p.synthetic_cache_applied
            &&& !p.use_prefix_kv_cache && !p.use_prompt_token_cache && !p.use_template_renderer
            &&& !p.use_synthetic_token_cache
            &&& p.cache_requested == requested
            &&& p.cache_mode_applied == "Off"@
            &&& p.cache_mode_requested == (if requested {
                "FullDRACE"@
            } else {
                "Off"@
            })
            &&& p.bypass_reason == reason
            &&& p.max_candidate_tokens == 0
        }),
{
}

/// Each backend goes by its own name.
pub proof fn backends_have_their_names()
    ensures
        perf::backend_label(BackendKind::CliSidecar) == "cli"@,
        perf::backend_label(BackendKind::LlamaServer) == "llama-server"@,
        perf::backend_label(BackendKind::Native) == "native"@,
{
}

/// The time to the first token is the shortest that was measured, of those that are not zero.
pub proof fn the_first_token_is_the_earliest(stages: Seq<StrategyStagePerf>, k: int)
    ensures
        0 <= k < stages.len() && stages[k].ttft_ms is Some && stages[k].ttft_ms->0 > 0
            ==> perf::first_token(stages) is Some && perf::first_token(stages)->0
            <= stages[k].ttft_ms->0,
        perf::first_token(stages) matches Some(t) ==> t > 0 && exists|i: int|
            0 <= i < stages.len() && (#[trigger] stages[i]).ttft_ms == Some(t),
    decreases stages.len(),
{
    if stages.len() > 0 {
        let head = stages.drop_last();
        the_first_token_is_the_earliest(head, k);
        if 0 <= k < head.len() {
            assert(head[k] == stages[k]);
        }
        match perf::first_token(stages) {
            Some(t) => {
                if stages.last().ttft_ms == Some(t) {
                    assert(stages[stages.len() - 1].ttft_ms == Some(t));
                } else {
                    let i = choose|i: int|
                        0 <= i < head.len() && (#[trigger] head[i]).ttft_ms == Some(t);
                    assert(stages[i].ttft_ms == Some(t));
                }
            },
            None => {},
        }
    }
}

/// The largest prompt is that of a stage, and no stage has a larger one.
pub proof fn the_largest_prompt_is_that_of_a_stage(stages: Seq<StrategyStagePerf>, k: int)
    ensures
        0 <= k < stages.len() ==> stages[k].prompt_tokens <= perf::largest_prompt(stages),
        perf::largest_prompt(stages) > 0 ==> exists|i: int|
            0 <= i < stages.len() && (#[trigger] stages[i]).prompt_tokens == perf::largest_prompt(
                stages,
            ),
    decreases stages.len(),
{
    if stages.len() > 0 {
        let head = stages.drop_last();
        the_largest_prompt_is_that_of_a_stage(head, k);
        if 0 <= k < head.len() {
            assert(head[k] == stages[k]);
        }
        if stages.last().prompt_tokens == perf::largest_prompt(stages) {
            assert(stages[stages.len() - 1].prompt_tokens == perf::largest_prompt(stages));
        } else if perf::largest_prompt(stages) > 0 {
            let i = choose|i: int|
                0 <= i < head.len() && (#[trigger] head[i]).prompt_tokens == perf::largest_prompt(
                    head,
                );
            assert(stages[i].prompt_tokens == perf::largest_prompt(stages));
        }
    }
}

/// Each model counts once for the memory, whatever stages it ran, with what its first stage took.
pub proof fn each_model_counts_once(stages: Seq<StrategyStagePerf>, k: int)
    ensures
        ({
            let f = perf::footprint(stages);
            &&& f.models.no_duplicates()
            &&& 0 <= k < stages.len() && stages[k].model_path@.len() > 0 ==> f.models.contains(
                stages[k].model_path@,
            )
        }),
    decreases stages.len(),
{
    if stages.len() > 0 {
        let head = stages.drop_last();
        each_model_counts_once(head, k);
        let a = perf::footprint(head).models;
        let b = perf::footprint(stages).models;
        let last = stages.last().model_path@;
        if 0 <= k < head.len() {
            assert(head[k] == stages[k]);
        }
        if b.len() > a.len() {
            assert(b[a.len() as int] == last);
            assert forall|i: int, j: int| 0 <= i < b.len() && 0 <= j < b.len() && i != j implies b[i]
                != b[j] by {
                if i < a.len() && j < a.len() {
                    assert(a[i] == b[i] && a[j] == b[j]);
                } else if i < a.len() {
                    assert(a.contains(a[i]));
                } else {
                    assert(a.contains(a[j]));
                }
            }
        }
        if 0 <= k < stages.len() && stages[k].model_path@.len() > 0 && a.contains(
            stages[k].model_path@,
        ) {
            let i = choose|i: int| 0 <= i < a.len() && a[i] == stages[k].model_path@;
            assert(b[i] == stages[k].model_path@);
        }
    }
}

/// A stage ran in the full mode where tokens were proposed and verified, or where it says so; the
/// names of these stages are told, and no others.
pub proof fn full_stages_are_told(stages: Seq<StrategyStagePerf>, k: int, name: Seq<char>)
    ensures
        0 <= k < stages.len() && (stages[k].cache.synthetic_cache_applied
            || stages[k].cache.cache_mode_applied@ == "FullDRACE"@) ==> perf::full_stages(
            stages,
        ).contains(stages[k].stage_name@),
        perf::full_stages(stages).contains(name) ==> exists|i: int|
            0 <= i < stages.len() && (#[trigger] stages[i]).stage_name@ == name && (
            stages[i].cache.synthetic_cache_applied || stages[i].cache.cache_mode_applied@
                == "FullDRACE"@),
{
    let g = |s: StrategyStagePerf|
        if perf::ran_full(s) {
            Some(s.stage_name@)
        } else {
            None
        };
    lists::collecting_collects_what_is_made(stages, g, name);
    if 0 <= k < stages.len() && perf::ran_full(stages[k]) {
        lists::collecting_collects_what_is_made(stages, g, stages[k].stage_name@);
        assert(g(stages[k]) == Some(stages[k].stage_name@));
    }
    if perf::full_stages(stages).contains(name) {
        let i = choose|i: int| 0 <= i < stages.len() && g(#[trigger] stages[i]) == Some(name);
        assert(stages[i].stage_name@ == name);
    }
}

/// A run is a warm-up where the cache was asked for and applied, and was not warm; else it is
/// measured.
pub proof fn a_cold_cached_run_is_a_warmup(requested: bool, applied: bool, warm: bool)
    ensures
        requested && applied && !warm ==> perf::phase_of(requested, applied, warm) == "warmup"@,
        !requested || !applied || warm ==> perf::phase_of(requested, applied, warm) == "measured"@,
{
}

/// A model runs on no more threads than there are cores to spare: on Windows on three quarters of
/// them and ten at most, elsewhere on all but one, or all but two of ten and more, and twelve at
/// most; on one at least.
pub proof fn threads_leave_cores_to_spare(cores: u32)
    ensures
        1 <= perf::threads_for(cores, true) <= 10,
        1 <= perf::threads_for(cores, false) <= 12,
        2 <= cores <= 9 ==> perf::threads_for(cores, false) == cores - 1,
        10 <= cores <= 14 ==> perf::threads_for(cores, false) == cores - 2,
        cores > 14 ==> perf::threads_for(cores, false) == 12,
        1 <= cores <= 13 ==> perf::threads_for(cores, true) == (3 * cores + 2) / 4,
{
}

/// A record is gone over by rendering it where that can be done, first from a draft that was
/// accepted, then without; and by reading it again where it cannot or where that fails. What was
/// written stays where nothing comes of it.
pub proof fn a_record_is_rendered_before_it_is_read_again()
    ensures
        review::review_start(true) == ReviewStep::CheckDraft,
        review::review_start(false) == ReviewStep::Read,
        review::after_check(true) == (ReviewStep::Render { prefixed: true }),
        review::after_check(false) == (ReviewStep::Render { prefixed: false }),
        forall|p: bool| #[trigger]
            review::after_render(p, DataOutcome::Given) == (ReviewStep::Rendered { prefixed: p }),
        forall|p: bool| #[trigger]
            review::after_render(p, DataOutcome::Unreadable) == ReviewStep::Read,
        review::after_render(true, DataOutcome::Failed) == (ReviewStep::Render { prefixed: false }),
        review::after_render(false, DataOutcome::Failed) == ReviewStep::Read,
        review::after_read(true) == ReviewStep::Improved,
        review::after_read(false) == ReviewStep::Kept,
{
}

/// What a render took is noted with its stage: what was proposed, accepted and put in, and whether
/// anything was applied; what was measured before stays.
pub proof fn a_render_is_noted_with_its_stage(
    before: StrategyStagePerf,
    stats: StrategyRecordRendererStats,
    after: StrategyStagePerf,
)
    requires
        review::stats_noted(before, stats, after),
    ensures
        after.stage_name == before.stage_name,
        after.model_id == before.model_id,
        after.e2e_ms == before.e2e_ms,
        after.output_tokens == before.output_tokens,
        after.cache.proposed_tokens == stats.proposed_tokens,
        after.cache.accepted_tokens == stats.accepted_tokens,
        after.cache.rejected_tokens == stats.rejected_tokens,
        after.cache.renderer_inserted_tokens == stats.renderer_inserted_tokens,
        after.cache.llm_generated_tokens >= stats.llm_generated_tokens,
        after.cache.llm_generated_tokens >= before.output_tokens,
        stats.synthetic_cache_applied ==> after.cache.cache_applied
            && after.cache.cache_mode_applied@ == "FullDRACE"@,
        !stats.synthetic_cache_applied && before.cache.prefix_kv_applied
            ==> after.cache.cache_applied && after.cache.cache_mode_applied@
            == "PrefixKV+TemplateRenderer"@,
        !stats.synthetic_cache_applied && !before.cache.prefix_kv_applied
            ==> after.cache.cache_applied == before.cache.cache_applied
            && after.cache.cache_mode_applied@ == before.cache.cache_mode_applied@,
{
}

/// What two counts come to, or the largest count that fits.
pub open spec fn come_to(a: usize, b: usize) -> int {
    if a + b > usize::MAX {
        usize::MAX as int
    } else {
        a + b
    }
}

proof fn lemma_total(
    list: Seq<StrategyStagePerf>,
    s: StrategyStagePerf,
    f: spec_fn(StrategyStagePerf) -> nat,
)
    ensures
        perf::total(list.push(s), f) == perf::total(list, f) + f(s),
{
    assert(list.push(s).drop_last() =~= list);
}

proof fn lemma_any(
    list: Seq<StrategyStagePerf>,
    s: StrategyStagePerf,
    p: spec_fn(StrategyStagePerf) -> bool,
)
    ensures
        perf::any(list.push(s), p) == (perf::any(list, p) || p(s)),
{
    reveal(perf::any);
    let all = list.push(s);
    if perf::any(list, p) {
        let i = choose|i: int| 0 <= i < list.len() && p(#[trigger] list[i]);
        assert(p(all[i]));
    }
    if p(s) {
        assert(p(all[list.len() as int]));
    }
    if perf::any(all, p) {
        let i = choose|i: int| 0 <= i < all.len() && p(#[trigger] all[i]);
        if i < list.len() {
            assert(p(list[i]));
        }
    }
}

proof fn lemma_backend(stages: Seq<StrategyStagePerf>, start: Seq<char>)
    requires
        start.len() > 0,
    ensures
        perf::backend_from(stages, start) == start,
    decreases stages.len(),
{
    if stages.len() > 0 {
        lemma_backend(stages.drop_last(), start);
    }
}

/// A summary of a run with one more stage counts what that stage counted on top, and says of the
/// run whatever it said before or the stage says.
pub proof fn a_summary_grows_stage_by_stage(
    stages: Seq<StrategyStagePerf>,
    s: StrategyStagePerf,
    requested: bool,
    usual: Seq<char>,
    before: StrategyCacheSummary,
    after: StrategyCacheSummary,
)
    requires
        perf::sums_up(before, stages, requested, usual),
        perf::sums_up(after, stages.push(s), requested, usual),
    ensures
        after.prefix_reused_tokens == come_to(before.prefix_reused_tokens, s.cache.prefix_reused_tokens),
        after.prefix_total_tokens == come_to(before.prefix_total_tokens, s.cache.prefix_total_tokens),
        after.proposed_tokens == come_to(before.proposed_tokens, s.cache.proposed_tokens),
        after.accepted_tokens == come_to(before.accepted_tokens, s.cache.accepted_tokens),
        after.rejected_tokens == come_to(before.rejected_tokens, s.cache.rejected_tokens),
        after.verify_batches == come_to(before.verify_batches, s.cache.verify_batches),
        after.rejected_batches == come_to(before.rejected_batches, s.cache.rejected_batches),
        after.fallback_tokens == come_to(before.fallback_tokens, s.cache.fallback_tokens),
        after.fallback_decode_tokens == come_to(before.fallback_decode_tokens, s.cache.fallback_decode_tokens),
        after.renderer_inserted_tokens == come_to(before.renderer_inserted_tokens, s.cache.renderer_inserted_tokens),
        after.llm_generated_tokens == come_to(before.llm_generated_tokens, s.cache.llm_generated_tokens),
        after.cache_loaded <==> before.cache_loaded || s.cache.cache_loaded,
        after.cache_applied <==> before.cache_applied || s.cache.cache_applied,
        after.cache_warm <==> before.cache_warm || s.cache.cache_warm,
        after.cache_supported <==> before.cache_supported || s.cache.cache_supported,
        after.prompt_token_cache_supported <==> before.prompt_token_cache_supported || s.cache.prompt_token_cache_supported,
        after.prompt_token_cache_loaded <==> before.prompt_token_cache_loaded || s.cache.prompt_token_cache_loaded,
        after.prompt_token_cache_applied <==> before.prompt_token_cache_applied || s.cache.prompt_token_cache_applied,
        after.prefix_kv_supported <==> before.prefix_kv_supported || s.cache.prefix_kv_supported,
        after.prefix_kv_applied <==> before.prefix_kv_applied || s.cache.prefix_kv_applied,
        after.synthetic_cache_requested <==> before.synthetic_cache_requested || s.cache.synthetic_cache_requested,
        after.synthetic_cache_supported <==> before.synthetic_cache_supported || s.cache.synthetic_cache_supported,
        after.synthetic_cache_applied <==> before.synthetic_cache_applied || s.cache.synthetic_cache_applied,
        after.token_cache_supported <==> before.token_cache_supported || s.cache.token_cache_supported,
        after.token_cache_loaded <==> before.token_cache_loaded || s.cache.token_cache_loaded,
        after.token_cache_applied <==> before.token_cache_applied || s.cache.token_cache_applied,
        after.token_verification_supported <==> before.token_verification_supported || s.cache.token_verification_supported,
{
    lemma_total(stages, s, |x: StrategyStagePerf| x.cache.prefix_reused_tokens as nat);
    lemma_total(stages, s, |x: StrategyStagePerf| x.cache.prefix_total_tokens as nat);
    lemma_total(stages, s, |x: StrategyStagePerf| x.cache.proposed_tokens as nat);
    lemma_total(stages, s, |x: StrategyStagePerf| x.cache.accepted_tokens as nat);
    lemma_total(stages, s, |x: StrategyStagePerf| x.cache.rejected_tokens as nat);
    lemma_total(stages, s, |x: StrategyStagePerf| x.cache.verify_batches as nat);
    lemma_total(stages, s, |x: StrategyStagePerf| x.cache.rejected_batches as nat);
    lemma_total(stages, s, |x: StrategyStagePerf| x.cache.fallback_tokens as nat);
    lemma_total(stages, s, |x: StrategyStagePerf| x.cache.fallback_decode_tokens as nat);
    lemma_total(stages, s, |x: StrategyStagePerf| x.cache.renderer_inserted_tokens as nat);
    lemma_total(stages, s, |x: StrategyStagePerf| x.cache.llm_generated_tokens as nat);
    lemma_any(stages, s, |x: StrategyStagePerf| x.cache.cache_loaded);
    lemma_any(stages, s, |x: StrategyStagePerf| x.cache.cache_applied);
    lemma_any(stages, s, |x: StrategyStagePerf| x.cache.cache_warm);
    lemma_any(stages, s, |x: StrategyStagePerf| x.cache.cache_supported);
    lemma_any(stages, s, |x: StrategyStagePerf| x.cache.prompt_token_cache_supported);
    lemma_any(stages, s, |x: StrategyStagePerf| x.cache.prompt_token_cache_loaded);
    lemma_any(stages, s, |x: StrategyStagePerf| x.cache.prompt_token_cache_applied);
    lemma_any(stages, s, |x: StrategyStagePerf| x.cache.prefix_kv_supported);
    lemma_any(stages, s, |x: StrategyStagePerf| x.cache.prefix_kv_applied);
    lemma_any(stages, s, |x: StrategyStagePerf| x.cache.synthetic_cache_requested);
    lemma_any(stages, s, |x: StrategyStagePerf| x.cache.synthetic_cache_supported);
    lemma_any(stages, s, |x: StrategyStagePerf| x.cache.synthetic_cache_applied);
    lemma_any(stages, s, |x: StrategyStagePerf| x.cache.token_cache_supported);
    lemma_any(stages, s, |x: StrategyStagePerf| x.cache.token_cache_loaded);
    lemma_any(stages, s, |x: StrategyStagePerf| x.cache.token_cache_applied);
    lemma_any(stages, s, |x: StrategyStagePerf| x.cache.token_verification_supported);
}

/// A summary of no stages counts nothing.
pub proof fn a_summary_of_nothing_is_empty(
    requested: bool,
    usual: Seq<char>,
    r: StrategyCacheSummary,
)
    requires
        perf::sums_up(r, Seq::empty(), requested, usual),
    ensures
        r.backend_type@ == usual,
        r.cache_requested == requested,
        r.cache_mode_applied@ == "Off"@,
        r.draft_provider@ == "noop"@,
        r.prefix_reused_tokens == 0,
        r.prefix_total_tokens == 0,
        r.proposed_tokens == 0,
        r.accepted_tokens == 0,
        r.rejected_tokens == 0,
        r.verify_batches == 0,
        r.rejected_batches == 0,
        r.fallback_tokens == 0,
        r.fallback_decode_tokens == 0,
        r.renderer_inserted_tokens == 0,
        r.llm_generated_tokens == 0,
        !r.cache_loaded,
        !r.cache_applied,
        !r.cache_warm,
        !r.cache_supported,
        !r.prompt_token_cache_supported,
        !r.prompt_token_cache_loaded,
        !r.prompt_token_cache_applied,
        !r.prefix_kv_supported,
        !r.prefix_kv_applied,
        !r.synthetic_cache_requested,
        !r.synthetic_cache_supported,
        !r.synthetic_cache_applied,
        !r.token_cache_supported,
        !r.token_cache_loaded,
        !r.token_cache_applied,
        !r.token_verification_supported,
{
    reveal(perf::any);
}

/// A run goes by the backend of its last stage, by the mode of the first stage that took something
/// from the cache, and by the provider of the first that proposed anything; the reasons of all
/// stages are told.
pub proof fn a_summary_tells_the_first_mode_and_every_reason(
    stages: Seq<StrategyStagePerf>,
    s: StrategyStagePerf,
    requested: bool,
    usual: Seq<char>,
    before: StrategyCacheSummary,
    after: StrategyCacheSummary,
)
    requires
        perf::sums_up(before, stages, requested, usual),
        perf::sums_up(after, stages.push(s), requested, usual),
    ensures
        s.backend_kind@.len() > 0 ==> after.backend_type@ == s.backend_kind@,
        before.cache_mode_applied@ != "Off"@ ==> after.cache_mode_applied@
            == before.cache_mode_applied@,
        before.cache_mode_applied@ == "Off"@ && s.cache.cache_applied ==> after.cache_mode_applied@
            == s.cache.cache_mode_applied@,
        before.cache_mode_applied@ == "Off"@ && !s.cache.cache_applied
            ==> after.cache_mode_applied@ == "Off"@,
        before.draft_provider@ != "noop"@ ==> after.draft_provider@ == before.draft_provider@,
        before.draft_provider@ == "noop"@ && strs::trim(s.cache.draft_provider@).len() > 0
            ==> after.draft_provider@ == s.cache.draft_provider@,
        strs::trim(s.cache.bypass_reason@).len() > 0 ==> strs::contains(
            after.bypass_reason@,
            s.cache.bypass_reason@,
        ),
        strs::trim(s.cache.bypass_reason@).len() == 0 ==> after.bypass_reason@
            == before.bypass_reason@,
{
    let all = stages.push(s);
    assert(all.drop_last() =~= stages);
    if s.backend_kind@.len() > 0 {
        lemma_backend(all, s.backend_kind@);
    }
    lemma_provider(stages);
    text::trimming_twice_is_trimming_once(s.cache.draft_provider@);
    let reasons = perf::bypass_reasons(all);
    let own = s.cache.bypass_reason@;
    if strs::trim(own).len() > 0 {
        let head = perf::bypass_reasons(stages);
        let k = if head.contains(own) {
            choose|k: int| 0 <= k < head.len() && head[k] == own
        } else {
            head.len() as int
        };
        assert(reasons[k] == own);
        let at = lists::joined_parts_stand_in_the_text(reasons, " / "@, k);
    }
}

proof fn lemma_provider(stages: Seq<StrategyStagePerf>)
    ensures
        perf::provider_of(stages) != "noop"@,
    decreases stages.len(),
{
    reveal_strlit("noop");
    assert("noop"@.len() == 4);
    if stages.len() == 0 {
        assert(perf::provider_of(stages).len() == 0);
    } else {
        lemma_provider(stages.drop_last());
    }
}

} // verus!
