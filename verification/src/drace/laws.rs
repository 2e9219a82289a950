//! What holds of the prompt cache as a whole.

use crate::drace::backends;
use crate::drace::cache_manager;
use crate::drace::cache_manager::{
    BackendCapabilities, BackendKind, Cache, HybridStage, Prefix, DRACE_PERSISTENT_STATE_VERSION,
};
use crate::drace::draft_provider;
use crate::drace::prompt_segments;
use crate::drace::prompt_segments::{PromptSegment, PromptSegmentKind, Segment};
use crate::sorting;
use crate::strs;
use crate::texts;
use vstd::prelude::*;

verus! {

/// A model that is started anew for each prompt never takes anything from the cache.
pub proof fn cli_backend_never_uses_the_cache(
    caps: BackendCapabilities,
    requested: bool,
    stage: HybridStage,
    prefix_tokens: int,
    output_tokens: int,
)
    requires
        caps.backend_kind == BackendKind::CliSidecar,
    ensures
        ({
            let plan = cache_manager::plan_for(caps, requested, stage, prefix_tokens, output_tokens);
            &&& !plan.cache_applied
            &&& !plan.cache_loaded
            &&& !plan.synthetic_cache_applied
            &&& plan.cache_mode_applied == "Off"@
            &&& plan.draft_provider == "noop"@
            &&& requested ==> plan.bypass_reason == "unsupported_backend_cli"@
        }),
{
}

/// The cache is applied only where it was asked for, on a backend that stays up and can do it,
/// in a stage that is worth caching, for an output that is not short.
pub proof fn cache_is_applied_only_where_asked_and_supported(
    caps: BackendCapabilities,
    requested: bool,
    stage: HybridStage,
    prefix_tokens: int,
    output_tokens: int,
)
    ensures
        ({
            let plan = cache_manager::plan_for(caps, requested, stage, prefix_tokens, output_tokens);
            &&& plan.cache_applied ==> {
                &&& requested
                &&& caps.backend_kind != BackendKind::CliSidecar
                &&& stage.cache_friendly()
                &&& output_tokens <= 0 || output_tokens >= 80
            }
            &&& plan.use_prefix_kv_cache ==> caps.supports_prefix_kv_cache
            &&& plan.use_prompt_token_cache ==> caps.supports_prompt_token_cache
            &&& plan.use_template_renderer ==> plan.use_prefix_kv_cache
            &&& plan.cache_loaded ==> plan.cache_applied
            &&& plan.cache_applied <==> plan.cache_mode_applied != "Off"@
            &&& !plan.cache_applied ==> plan.bypass_reason.len() > 0
        }),
{
    reveal_strlit("Off");
    reveal_strlit("FullDRACE");
    reveal_strlit("PrefixKV+TemplateRenderer");
    reveal_strlit("PrefixKV");
    reveal_strlit("cache disabled");
    reveal_strlit("unsupported_backend_cli");
    reveal_strlit("unsupported_backend");
    reveal_strlit("short output");
    reveal_strlit("stage not cache-friendly");
    reveal_strlit("no beneficial cache path");
    assert("FullDRACE"@.len() != "Off"@.len());
    assert("PrefixKV+TemplateRenderer"@.len() != "Off"@.len());
    assert("PrefixKV"@.len() != "Off"@.len());
}

/// On a backend that stays up and keeps a prefix cache, where the cache is asked for and the
/// output is not short, the prefix cache serves the two syntheses, the main record and the
/// review, and no other stage. The template goes with it everywhere but in the main record.
pub proof fn a_resident_backend_serves_four_stages(
    caps: BackendCapabilities,
    stage: HybridStage,
    prefix_tokens: int,
    output_tokens: int,
)
    requires
        caps.backend_kind != BackendKind::CliSidecar,
        caps.supports_prefix_kv_cache,
        caps.supports_resident_model,
        output_tokens <= 0 || output_tokens >= 80,
    ensures
        ({
            let plan = cache_manager::plan_for(caps, true, stage, prefix_tokens, output_tokens);
            match stage {
                HybridStage::RecordSynthesis
                | HybridStage::RecordReview
                | HybridStage::GeneralSynthesis => {
                    &&& plan.cache_applied && plan.cache_loaded
                    &&& plan.use_prefix_kv_cache && plan.use_template_renderer
                    &&& plan.draft_provider == "template"@
                    &&& !(caps.supports_token_verification && caps.supports_synthetic_token_cache)
                        ==> plan.cache_mode_applied == "PrefixKV+TemplateRenderer"@
                },
                HybridStage::RecordMain => {
                    &&& plan.cache_applied && plan.cache_loaded
                    &&& plan.use_prefix_kv_cache && !plan.use_template_renderer
                    &&& plan.draft_provider == "noop"@
                    &&& plan.cache_mode_applied == "PrefixKV"@
                },
                HybridStage::GeneralMain
                | HybridStage::GeneralDraft
                | HybridStage::RecordFill
                | HybridStage::FastRoosy
                | HybridStage::RecordRecovery => {
                    &&& !plan.cache_applied && !plan.cache_loaded
                    &&& !plan.use_prefix_kv_cache && !plan.use_template_renderer
                    &&& !plan.use_prompt_token_cache && !plan.use_synthetic_token_cache
                    &&& plan.draft_provider == "noop"@
                    &&& plan.cache_mode_applied == "Off"@
                    &&& plan.bypass_reason == "stage not cache-friendly"@
                },
            }
        }),
{
}

/// A prefix of at least 128 tokens is kept tokenized where the cache is asked for and the backend
/// can do that, in the two syntheses, the main record and the review; a shorter one never is.
pub proof fn long_prefixes_are_kept_tokenized(
    caps: BackendCapabilities,
    requested: bool,
    stage: HybridStage,
    prefix_tokens: int,
    output_tokens: int,
)
    ensures
        ({
            let plan = cache_manager::plan_for(caps, requested, stage, prefix_tokens, output_tokens);
            &&& plan.use_prompt_token_cache <==> {
                &&& requested && prefix_tokens >= 128
                &&& caps.backend_kind != BackendKind::CliSidecar
                &&& caps.supports_prompt_token_cache
                &&& output_tokens <= 0 || output_tokens >= 80
                &&& stage == HybridStage::RecordSynthesis || stage == HybridStage::RecordMain
                    || stage == HybridStage::RecordReview || stage == HybridStage::GeneralSynthesis
            }
            &&& plan.use_prompt_token_cache ==> plan.cache_applied && plan.cache_loaded
        }),
{
}

/// Tokens are proposed in the review alone, where the cache is asked for, the backend verifies
/// them and keeps them, and the output is long; the plan then says so and proposes 16 of them.
pub proof fn tokens_are_proposed_in_the_review(
    caps: BackendCapabilities,
    requested: bool,
    stage: HybridStage,
    prefix_tokens: int,
    output_tokens: int,
)
    ensures
        ({
            let plan = cache_manager::plan_for(caps, requested, stage, prefix_tokens, output_tokens);
            &&& plan.use_synthetic_token_cache <==> {
                &&& requested && stage == HybridStage::RecordReview && output_tokens >= 80
                &&& caps.backend_kind != BackendKind::CliSidecar
                &&& caps.supports_token_verification
                &&& caps.supports_synthetic_token_cache
            }
            &&& plan.synthetic_cache_applied == plan.use_synthetic_token_cache
            &&& plan.synthetic_cache_supported == (caps.supports_token_verification
                && caps.supports_synthetic_token_cache)
            &&& plan.synthetic_cache_requested == requested
            &&& plan.cache_requested == requested
            &&& plan.use_synthetic_token_cache ==> {
                &&& plan.cache_applied
                &&& plan.max_candidate_tokens == 16
                &&& plan.draft_provider == "template"@
                &&& plan.cache_mode_applied == "FullDRACE"@
            }
        }),
{
}

/// Why a stage gets nothing is said of the first thing that stands against it: that nobody
/// asked, that the model is started anew, that the backend has no cache, that the output is
/// short. A plan that nobody asked for asks for nothing.
pub proof fn a_bypass_names_the_first_reason(
    caps: BackendCapabilities,
    requested: bool,
    stage: HybridStage,
    prefix_tokens: int,
    output_tokens: int,
)
    ensures
        ({
            let plan = cache_manager::plan_for(caps, requested, stage, prefix_tokens, output_tokens);
            let anew = caps.backend_kind == BackendKind::CliSidecar;
            let able = caps.supports_prefix_kv_cache || caps.supports_token_verification
                || caps.supports_prompt_token_cache || caps.supports_synthetic_token_cache;
            let short = 1 <= output_tokens <= 79;
            &&& !requested ==> plan.bypass_reason == "cache disabled"@
            &&& !requested ==> plan.cache_mode_requested == "Off"@
            &&& requested ==> plan.cache_mode_requested == "FullDRACE"@
            &&& requested && anew ==> plan.bypass_reason == "unsupported_backend_cli"@
            &&& requested && !anew && !able ==> plan.bypass_reason == "unsupported_backend"@
            &&& requested && !anew && able && short ==> plan.bypass_reason == "short output"@
            &&& !requested || anew || !able || short ==> {
                &&& !plan.cache_applied && !plan.cache_loaded
                &&& !plan.use_prefix_kv_cache && !plan.use_prompt_token_cache
                &&& !plan.use_template_renderer && !plan.use_synthetic_token_cache
                &&& plan.cache_mode_applied == "Off"@
                &&& plan.draft_provider == "noop"@
                &&& plan.max_candidate_tokens == 0
            }
            &&& plan.token_cache_lookup_ms == 0
        }),
{
}

/// The full mode is reported exactly where proposed tokens are verified, and a backend that
/// cannot verify tokens is never reported in the full mode.
pub proof fn full_mode_means_verified_tokens(
    caps: BackendCapabilities,
    requested: bool,
    stage: HybridStage,
    prefix_tokens: int,
    output_tokens: int,
)
    ensures
        ({
            let plan = cache_manager::plan_for(caps, requested, stage, prefix_tokens, output_tokens);
            &&& plan.cache_mode_applied == "FullDRACE"@ <==> plan.synthetic_cache_applied
            &&& plan.synthetic_cache_applied ==> {
                &&& caps.supports_token_verification
                &&& caps.supports_synthetic_token_cache
                &&& plan.max_candidate_tokens == 16
            }
            &&& !plan.synthetic_cache_applied ==> plan.max_candidate_tokens == 0
        }),
{
    reveal_strlit("Off");
    reveal_strlit("FullDRACE");
    reveal_strlit("PrefixKV+TemplateRenderer");
    reveal_strlit("PrefixKV");
    assert("FullDRACE"@.len() == 9);
    assert("PrefixKV+TemplateRenderer"@.len() == 25);
    assert("PrefixKV"@.len() == 8);
    assert("Off"@.len() == 3);
}

/// Asking for the same prefix again changes nothing, answers the same prefix and reports no
/// replaced content.
pub proof fn ensuring_a_prefix_twice_is_ensuring_it_once(s: Seq<Prefix>, p: Prefix)
    ensures
        ({
            let (once, first, _) = cache_manager::ensured(s, p);
            cache_manager::ensured(once, p) == (once, first, None::<u64>)
        }),
{
    lemma_prefix_of(s, p.id);
    let (once, first, previous) = cache_manager::ensured(s, p);
    if once != s {
        lemma_prefix_of(once, p.id);
        if cache_manager::has_prefix(s, p.id) {
            let i = choose|i: int| 0 <= i < s.len() && (#[trigger] s[i]).id == p.id;
            assert(once[i] == p);
            assert(cache_manager::has_prefix(once, p.id));
            assert(forall|j: int| 0 <= j < once.len() && (#[trigger] once[j]).id == p.id ==> once[j]
                == p);
        } else {
            assert(once[s.len() as int] == p);
            assert(cache_manager::has_prefix(once, p.id));
            assert(forall|j: int|
                0 <= j < s.len() ==> (#[trigger] once[j]) == s[j] && s[j].id != p.id);
        }
    }
}

/// What is looked up by its id is listed, and what is listed is found.
proof fn lemma_prefix_of(s: Seq<Prefix>, id: Seq<char>)
    ensures
        match cache_manager::prefix_of(s, id) {
            Some(p) => p.id == id && s.contains(p) && cache_manager::has_prefix(s, id),
            None => !cache_manager::has_prefix(s, id),
        },
    decreases s.len(),
{
    if s.len() > 0 && s[0].id != id {
        lemma_prefix_of(s.skip(1), id);
        match cache_manager::prefix_of(s.skip(1), id) {
            Some(p) => {
                let i = choose|i: int| 0 <= i < s.skip(1).len() && s.skip(1)[i] == p;
                assert(s[i + 1] == p);
            },
            None => {
                assert forall|i: int| 0 <= i < s.len() implies (#[trigger] s[i]).id != id by {
                    if i > 0 {
                        assert(s.skip(1)[i - 1] == s[i]);
                    }
                }
            },
        }
    } else if s.len() > 0 {
        assert(s.contains(s[0]));
    }
}

/// A call that makes the static prefix of a stage known.
pub struct Call {
    pub model_id: Seq<char>,
    pub stage: HybridStage,
    pub segments: Seq<Segment>,
}

impl Call {
    /// The prefix that the call asks for.
    pub open spec fn wanted(self) -> Prefix {
        cache_manager::static_prefix(self.model_id, self.stage, self.segments)
    }

    /// The calls are about the same stage of the same model.
    pub open spec fn same_place(self, other: Call) -> bool {
        strs::trim(self.model_id) == strs::trim(other.model_id) && self.stage == other.stage
    }
}

/// The prefixes that are known after the calls, where none was before.
pub open spec fn known_after(calls: Seq<Call>) -> Seq<Prefix>
    decreases calls.len(),
{
    if calls.len() == 0 {
        Seq::empty()
    } else {
        cache_manager::ensured(known_after(calls.drop_last()), calls.last().wanted()).0
    }
}

/// The prefix that the call at position `k` answered.
pub open spec fn answered(calls: Seq<Call>, k: int) -> Prefix {
    cache_manager::ensured(known_after(calls.take(k)), calls[k].wanted()).1
}

/// The call at position `k` is the last one about its stage of its model.
pub open spec fn is_last_call(calls: Seq<Call>, k: int) -> bool {
    &&& 0 <= k < calls.len()
    &&& forall|j: int| k < j < calls.len() ==> !calls[k].same_place(#[trigger] calls[j])
}

/// What is known holds the last answer for each stage of each model, and nothing else.
spec fn holds_last_answers(calls: Seq<Call>) -> bool {
    let s = known_after(calls);
    &&& forall|i: int, j: int|
        0 <= i < j < s.len() ==> (#[trigger] s[i]).id != (#[trigger] s[j]).id
    &&& forall|i: int| 0 <= i < s.len() ==> placed(calls, #[trigger] s[i])
    &&& forall|k: int| #[trigger] is_last_call(calls, k) ==> s.contains(answered(calls, k))
    &&& forall|k: int| #[trigger] is_last_call(calls, k) ==> same_names(calls, k)
}

/// The prefix is the last answer for some stage.
spec fn placed(calls: Seq<Call>, p: Prefix) -> bool {
    exists|k: int| #[trigger]
        is_last_call(calls, k) && p == answered(calls, k) && same_names(calls, k)
}

/// The answer to a call bears the names that were asked for.
spec fn same_names(calls: Seq<Call>, k: int) -> bool {
    let a = answered(calls, k);
    let w = calls[k].wanted();
    a.id == w.id && a.model_id == w.model_id && a.stage_name == w.stage_name
}

/// The id of a prefix tells its model and its stage.
proof fn lemma_id_tells_the_place(a: Call, b: Call)
    ensures
        a.wanted().id == b.wanted().id <==> a.same_place(b),
        a.stage.name() == b.stage.name() <==> a.stage == b.stage,
{
    lemma_stage_names(a.stage);
    lemma_stage_names(b.stage);
    reveal_strlit("::");
    let m = strs::trim(a.model_id);
    let n = strs::trim(b.model_id);
    let s = a.stage.name();
    let t = b.stage.name();
    crate::engine::segments::stages_are_found_by_name(a.stage);
    crate::engine::segments::stages_are_found_by_name(b.stage);
    let x = m + "::"@ + s;
    let y = n + "::"@ + t;
    if x == y {
        if s.len() < t.len() {
            assert(x[x.len() - s.len() - 1] == ':');
            assert(y[y.len() - s.len() - 1] == t[t.len() - s.len() - 1]);
            assert(false);
        } else if s.len() > t.len() {
            assert(y[y.len() - t.len() - 1] == ':');
            assert(x[x.len() - t.len() - 1] == s[s.len() - t.len() - 1]);
            assert(false);
        }
        assert(s =~= x.subrange(x.len() - s.len(), x.len() as int));
        assert(t =~= y.subrange(y.len() - t.len(), y.len() as int));
        assert(m =~= x.subrange(0, m.len() as int));
        assert(n =~= y.subrange(0, n.len() as int));
    }
}

proof fn lemma_stage_names(stage: HybridStage)
    ensures
        forall|i: int| 0 <= i < stage.name().len() ==> stage.name()[i] != ':',
{
    reveal_strlit("general_main");
    reveal_strlit("general_draft");
    reveal_strlit("general_synthesis");
    reveal_strlit("record_main");
    reveal_strlit("record_fill");
    reveal_strlit("record_synthesis");
    reveal_strlit("record_review");
    reveal_strlit("fast_roosy");
    reveal_strlit("record_recovery");
}

/// An earlier call keeps its answer when another call follows.
proof fn lemma_answers_stay(calls: Seq<Call>, k: int)
    requires
        0 <= k < calls.len() - 1,
    ensures
        answered(calls, k) == answered(calls.drop_last(), k),
        calls[k] == calls.drop_last()[k],
{
    assert(calls.drop_last().take(k) =~= calls.take(k));
}

/// An earlier call stays the last one about its stage exactly where the next call is about
/// another.
proof fn lemma_last_calls(calls: Seq<Call>, k: int)
    requires
        calls.len() > 0,
        0 <= k < calls.len() - 1,
    ensures
        is_last_call(calls, k) <==> is_last_call(calls.drop_last(), k) && !calls[k].same_place(
            calls.last(),
        ),
{
    let t = calls.drop_last();
    if is_last_call(calls, k) {
        assert(!calls[k].same_place(calls[calls.len() - 1]));
        assert forall|j: int| k < j < t.len() implies !t[k].same_place(#[trigger] t[j]) by {
            assert(calls[j] == t[j] && calls[k] == t[k]);
        }
    }
    if is_last_call(t, k) && !calls[k].same_place(calls.last()) {
        assert forall|j: int| k < j < calls.len() implies !calls[k].same_place(
            #[trigger] calls[j],
        ) by {
            if j < t.len() {
                assert(calls[j] == t[j] && calls[k] == t[k]);
            }
        }
    }
}

proof fn lemma_known_after(calls: Seq<Call>)
    ensures
        holds_last_answers(calls),
    decreases calls.len(),
{
    if calls.len() > 0 {
        let t = calls.drop_last();
        let n = calls.len() - 1;
        lemma_known_after(t);
        let before = known_after(t);
        let p = calls.last().wanted();
        let (after, a, _) = cache_manager::ensured(before, p);
        assert(calls.take(n) =~= t);
        assert(a == answered(calls, n));
        assert(is_last_call(calls, n));
        lemma_prefix_of(before, p.id);
        assert(same_names(calls, n)) by {
            if cache_manager::prefix_of(before, p.id) is Some && a != p {
                let known = cache_manager::prefix_of(before, p.id)->0;
                let i = choose|i: int| 0 <= i < before.len() && before[i] == known;
                assert(placed(t, before[i]));
                let k = choose|k: int| #[trigger] is_last_call(t, k) && before[i] == answered(
                    t,
                    k,
                ) && same_names(t, k);
                lemma_id_tells_the_place(t[k], calls.last());
            }
        }
        // The answer is known afterwards, and alone has its id.
        assert(after.contains(a) && forall|i: int|
            0 <= i < after.len() && (#[trigger] after[i]).id == p.id ==> after[i] == a) by {
            if after == before {
                assert forall|i: int| 0 <= i < after.len() && (
                #[trigger] after[i]).id == p.id implies after[i] == a by {
                    let j = choose|j: int| 0 <= j < before.len() && before[j] == a;
                    assert(before[j] == a);
                    if i < j {
                        assert(before[i].id != before[j].id);
                    } else if j < i {
                        assert(before[j].id != before[i].id);
                    }
                }
            } else if cache_manager::has_prefix(before, p.id) {
                let j = choose|j: int| 0 <= j < before.len() && (#[trigger] before[j]).id == p.id;
                assert(after[j] == p);
            } else {
                assert(after[before.len() as int] == p);
            }
        }
        assert(a.id == p.id);
        // What else is known stays, and nothing else comes.
        assert forall|q: Prefix| q.id != p.id implies (after.contains(q) <==> before.contains(q)) by {
            if before.contains(q) {
                let j = choose|j: int| 0 <= j < before.len() && before[j] == q;
                assert(after[j] == q);
            }
            if after.contains(q) {
                let j = choose|j: int| 0 <= j < after.len() && after[j] == q;
                assert(j < before.len());
                assert(before[j] == q);
            }
        }
        assert forall|i: int, j: int| 0 <= i < j < after.len() implies (#[trigger] after[i]).id != (
        #[trigger] after[j]).id by {
            if j < before.len() {
                assert(before[i].id != before[j].id);
                assert(after[i].id == before[i].id && after[j].id == before[j].id);
            } else {
                assert(after[i] == before[i]);
                assert(before[i].id != p.id);
            }
        }
        assert forall|i: int| 0 <= i < after.len() implies placed(calls, #[trigger] after[i]) by {
            if after[i].id == p.id {
                assert(after[i] == answered(calls, n));
            } else {
                assert(after.contains(after[i]));
                assert(before.contains(after[i]));
                let j = choose|j: int| 0 <= j < before.len() && before[j] == after[i];
                assert(placed(t, before[j]));
                let k = choose|k: int| #[trigger] is_last_call(t, k) && before[j] == answered(
                    t,
                    k,
                ) && same_names(t, k);
                lemma_answers_stay(calls, k);
                lemma_id_tells_the_place(t[k], calls.last());
                lemma_last_calls(calls, k);
                assert(is_last_call(calls, k));
            }
        }
        assert forall|k: int| #[trigger] is_last_call(calls, k) implies after.contains(
            answered(calls, k),
        ) && same_names(calls, k) by {
            if k < n {
                lemma_last_calls(calls, k);
                lemma_answers_stay(calls, k);
                lemma_id_tells_the_place(t[k], calls.last());
                assert(before.contains(answered(t, k)));
                assert(same_names(t, k));
            }
        }
    }
}

proof fn lemma_filtered(s: Seq<Prefix>, model_id: Seq<char>)
    requires
        forall|i: int, j: int|
            0 <= i < j < s.len() ==> (#[trigger] s[i]).id != (#[trigger] s[j]).id,
    ensures
        ({
            let f = s.filter(|p: Prefix| p.model_id == model_id);
            &&& forall|i: int|
                0 <= i < f.len() ==> s.contains(#[trigger] f[i]) && f[i].model_id == model_id
            &&& forall|p: Prefix| s.contains(p) && p.model_id == model_id ==> #[trigger] f.contains(p)
            &&& forall|i: int, j: int|
                0 <= i < j < f.len() ==> (#[trigger] f[i]).id != (#[trigger] f[j]).id
        }),
    decreases s.len(),
{
    reveal(Seq::filter);
    let keep = |p: Prefix| p.model_id == model_id;
    let f = s.filter(keep);
    if s.len() > 0 {
        let t = s.drop_last();
        assert forall|i: int, j: int| 0 <= i < j < t.len() implies (#[trigger] t[i]).id != (
        #[trigger] t[j]).id by {
            assert(t[i] == s[i] && t[j] == s[j]);
        }
        lemma_filtered(t, model_id);
        let g = t.filter(keep);
        assert forall|i: int| 0 <= i < f.len() implies s.contains(#[trigger] f[i]) && f[i].model_id
            == model_id by {
            if i < g.len() {
                assert(f[i] == g[i]);
                let j = choose|j: int| 0 <= j < t.len() && t[j] == g[i];
                assert(s[j] == f[i]);
            } else {
                assert(s[s.len() - 1] == f[i]);
            }
        }
        assert forall|p: Prefix| s.contains(p) && p.model_id == model_id implies #[trigger] f.contains(
            p,
        ) by {
            let j = choose|j: int| 0 <= j < s.len() && s[j] == p;
            if j < t.len() {
                assert(t[j] == p);
                assert(g.contains(p));
                let k = choose|k: int| 0 <= k < g.len() && g[k] == p;
                assert(f[k] == p);
            } else {
                assert(f[g.len() as int] == p);
            }
        }
        assert forall|i: int, j: int| 0 <= i < j < f.len() implies (#[trigger] f[i]).id != (
        #[trigger] f[j]).id by {
            assert(f[i] == g[i]);
            if j < g.len() {
                assert(f[j] == g[j]);
            } else {
                assert(t.contains(g[i]));
                let k = choose|k: int| 0 <= k < t.len() && t[k] == g[i];
                assert(s[k].id != s[s.len() - 1].id);
            }
        }
    }
}

/// The call at position `k` is about the model, and answered the prefix for its stage.
pub open spec fn answers_as(calls: Seq<Call>, k: int, model_id: Seq<char>, p: Prefix) -> bool {
    &&& strs::trim(calls[k].model_id) == strs::trim(model_id)
    &&& p == answered(calls, k)
    &&& p.stage_name == calls[k].stage.name()
}

/// The prefix is the last answer for some stage of the model.
pub open spec fn is_last_answer(calls: Seq<Call>, model_id: Seq<char>, p: Prefix) -> bool {
    exists|k: int| #[trigger] is_last_call(calls, k) && answers_as(calls, k, model_id, p)
}

/// After any calls that make static prefixes known, on a cache that knew none, the prefixes of a
/// model are exactly the last answers for its stages, one for each stage that was asked for, and
/// none of another model.
pub proof fn a_model_has_the_last_prefix_of_each_stage(calls: Seq<Call>, model_id: Seq<char>)
    ensures
        ({
            let listed = known_after(calls).filter(
                |p: Prefix| p.model_id == strs::trim(model_id),
            );
            &&& forall|k: int| #[trigger]
                is_last_call(calls, k) && strs::trim(calls[k].model_id) == strs::trim(model_id)
                    ==> listed.contains(answered(calls, k))
            &&& forall|i: int|
                0 <= i < listed.len() ==> is_last_answer(calls, model_id, #[trigger] listed[i])
            &&& forall|i: int, j: int|
                0 <= i < j < listed.len() ==> (#[trigger] listed[i]).stage_name != (
                #[trigger] listed[j]).stage_name
        }),
{
    lemma_known_after(calls);
    let s = known_after(calls);
    let model = strs::trim(model_id);
    lemma_filtered(s, model);
    let of_model = |p: Prefix| p.model_id == strs::trim(model_id);
    assert(of_model =~= (|p: Prefix| p.model_id == model));
    let listed = s.filter(of_model);
    assert forall|k: int| #[trigger]
        is_last_call(calls, k) && strs::trim(calls[k].model_id) == model implies listed.contains(
        answered(calls, k),
    ) by {
        assert(same_names(calls, k));
    }
    assert forall|i: int| 0 <= i < listed.len() implies is_last_answer(
        calls,
        model_id,
        #[trigger] listed[i],
    ) by {
        assert(s.contains(listed[i]));
        let j = choose|j: int| 0 <= j < s.len() && s[j] == listed[i];
        assert(placed(calls, s[j]));
        let k = choose|k: int| #[trigger]
            is_last_call(calls, k) && s[j] == answered(calls, k) && same_names(calls, k);
        assert(is_last_call(calls, k));
    }
    assert forall|i: int, j: int| 0 <= i < j < listed.len() implies (
    #[trigger] listed[i]).stage_name != (#[trigger] listed[j]).stage_name by {
        assert(is_last_answer(calls, model_id, listed[i]));
        assert(is_last_answer(calls, model_id, listed[j]));
        let a = choose|k: int| #[trigger]
            is_last_call(calls, k) && answers_as(calls, k, model_id, listed[i]);
        let b = choose|k: int| #[trigger]
            is_last_call(calls, k) && answers_as(calls, k, model_id, listed[j]);
        assert(same_names(calls, a) && same_names(calls, b));
        lemma_id_tells_the_place(calls[a], calls[b]);
    }
}

/// A prefix of a model is warm for one slot and one content: another slot or another content has a
/// key of its own.
pub proof fn a_prefix_is_warm_for_one_slot_and_content(
    model_id: Seq<char>,
    prefix_id: Seq<char>,
    slot: Option<u32>,
    other_slot: Option<u32>,
    content: u64,
    other_content: u64,
)
    ensures
        cache_manager::warm_key(model_id, prefix_id, slot, Some(content))
            == cache_manager::warm_key(model_id, prefix_id, other_slot, Some(other_content)) <==> (
        slot == other_slot && content == other_content),
{
    let front = strs::trim(model_id) + "::"@ + strs::trim(prefix_id) + "::"@;
    let a = match slot {
        Some(n) => strs::decimal(n as nat),
        None => "noslot"@,
    };
    let b = match other_slot {
        Some(n) => strs::decimal(n as nat),
        None => "noslot"@,
    };
    let x = strs::hex(content as nat, 16);
    let y = strs::hex(other_content as nat, 16);
    assert(vstd::arithmetic::power::pow(16, 16) == 0x1_0000_0000_0000_0000) by {
        reveal_with_fuel(vstd::arithmetic::power::pow, 17);
    }
    texts::hexadecimal_digits_tell_numbers_apart(content as nat, other_content as nat, 16);
    texts::hexadecimal_digits_tell_numbers_apart(other_content as nat, content as nat, 16);
    let s = front + a + "::"@ + x;
    let t = front + b + "::"@ + y;
    if s == t {
        let n = s.len() as int;
        let m = front.len() as int;
        let cut = "::"@.len() as int;
        assert(s.subrange(n - 16, n) =~= x);
        assert(t.subrange(n - 16, n) =~= y);
        assert(s.subrange(m, n - 16 - cut) =~= a);
        assert(t.subrange(m, n - 16 - cut) =~= b);
        reveal_strlit("noslot");
        match slot {
            Some(k) => texts::decimal_digits_stand_for_their_number(k as nat),
            None => {},
        }
        match other_slot {
            Some(k) => texts::decimal_digits_stand_for_their_number(k as nat),
            None => {},
        }
        assert(a == b);
        if slot is Some && other_slot is None {
            assert(strs::is_ascii_digit(a[0]));
        }
        if slot is None && other_slot is Some {
            assert(strs::is_ascii_digit(b[0]));
        }
    }
}

/// What is counted of the warm prefixes is how many they are, and the tokens add up, as far as a
/// count reaches.
pub proof fn warm_prefixes_are_counted(c: Cache, key: Seq<char>, other: Seq<char>, n: u64, m: u64)
    requires
        c.warm.len() + 2 <= u64::MAX,
    ensures
        cache_manager::marked(c, key, n as int).stats.warmed_prefix_count == c.warm.len() + (
        if c.warm.contains(key) {
            0int
        } else {
            1
        }),
        c.stats.prefix_tokens_total + n + m <= u64::MAX ==> cache_manager::marked(
            cache_manager::marked(c, key, n as int),
            other,
            m as int,
        ).stats.prefix_tokens_total == c.stats.prefix_tokens_total + n + m,
        c.stats.prefix_tokens_total + n > u64::MAX ==> cache_manager::marked(
            c,
            key,
            n as int,
        ).stats.prefix_tokens_total == u64::MAX,
{
}

/// A prefix that is marked warm is warm, and no other prefix becomes warm or cold by it.
pub proof fn marking_warms_one_prefix(c: Cache, key: Seq<char>, other: Seq<char>, tokens: int)
    ensures
        cache_manager::marked(c, key, tokens).warm.contains(key),
        other != key ==> (cache_manager::marked(c, key, tokens).warm.contains(other)
            <==> c.warm.contains(other)),
        cache_manager::marked(c, key, tokens).prefixes == c.prefixes,
{
    let warm = cache_manager::marked(c, key, tokens).warm;
    if c.warm.contains(key) {
    } else {
        assert(warm[c.warm.len() as int] == key);
        if c.warm.contains(other) {
            let i = choose|i: int| 0 <= i < c.warm.len() && c.warm[i] == other;
            assert(warm[i] == other);
        }
        if warm.contains(other) && other != key {
            let i = choose|i: int| 0 <= i < warm.len() && warm[i] == other;
            assert(c.warm[i] == other);
        }
    }
}

/// What was saved of a cache is what is read back of it: the same prefixes, and nothing warm.
pub proof fn reading_back_keeps_the_prefixes(saved: Cache, reader: Cache)
    requires
        saved.wf(),
    ensures
        ({
            let back = cache_manager::restored(
                reader,
                DRACE_PERSISTENT_STATE_VERSION,
                saved.prefixes,
            );
            &&& back.prefixes == saved.prefixes
            &&& back.warm.len() == 0
            &&& back.stats.warmed_prefix_count == 0
        }),
{
    lemma_put_all_keeps(saved.prefixes);
}

proof fn lemma_put_all_keeps(s: Seq<Prefix>)
    requires
        forall|i: int, j: int|
            0 <= i < j < s.len() ==> (#[trigger] s[i]).id != (#[trigger] s[j]).id,
    ensures
        cache_manager::put_all(s) == s,
    decreases s.len(),
{
    if s.len() > 0 {
        let t = s.drop_last();
        assert forall|i: int, j: int| 0 <= i < j < t.len() implies (#[trigger] t[i]).id != (
        #[trigger] t[j]).id by {
            assert(t[i] == s[i] && t[j] == s[j]);
        }
        lemma_put_all_keeps(t);
        if cache_manager::has_prefix(t, s.last().id) {
            let i = choose|i: int| 0 <= i < t.len() && (#[trigger] t[i]).id == s.last().id;
            assert(s[i].id == s[s.len() - 1].id);
        }
        assert(t.push(s.last()) =~= s);
    } else {
        assert(cache_manager::put_all(s) =~= s);
    }
}

/// A saved state of another version changes nothing.
pub proof fn another_version_is_ignored(c: Cache, version: u32, prefixes: Seq<Prefix>)
    requires
        version != DRACE_PERSISTENT_STATE_VERSION,
    ensures
        cache_manager::restored(c, version, prefixes) == c,
{
}

/// A prepared prompt holds the segments it was given, ordered by the rank of their kinds, so
/// that the static kinds stand before the dynamic ones.
pub proof fn prepared_segments_are_ordered(segments: Seq<Segment>)
    ensures
        ({
            let ordered = sorting::sorted::<PromptSegment>(segments);
            &&& ordered.to_multiset() == segments.to_multiset()
            &&& forall|i: int, j: int|
                0 <= i < j < ordered.len() ==> (#[trigger] ordered[i]).kind.rank() <= (
                #[trigger] ordered[j]).kind.rank()
            &&& forall|i: int, j: int|
                0 <= i < ordered.len() && 0 <= j < ordered.len() && (
                #[trigger] ordered[i]).kind.is_static_kind() && !(
                #[trigger] ordered[j]).kind.is_static_kind() ==> i < j
        }),
{
    assert(sorting::weak_order::<PromptSegment>());
    sorting::sorting_permutes_into_order::<PromptSegment>(segments);
    let ordered = sorting::sorted::<PromptSegment>(segments);
    assert forall|i: int, j: int|
        0 <= i < ordered.len() && 0 <= j < ordered.len() && (
        #[trigger] ordered[i]).kind.is_static_kind() && !(
        #[trigger] ordered[j]).kind.is_static_kind() implies i < j by {
        if j < i {
            assert(!<PromptSegment as sorting::Ordered>::after(ordered[j], ordered[i]));
        }
    }
}

/// The static prefix depends on the static segments alone: what belongs to one request does
/// not enter it.
pub proof fn static_prefix_ignores_dynamic_segments(
    model_id: Seq<char>,
    stage: HybridStage,
    a: Seq<Segment>,
    b: Seq<Segment>,
)
    requires
        a.filter(|s: Segment| s.is_static) == b.filter(|s: Segment| s.is_static),
    ensures
        cache_manager::static_prefix(model_id, stage, a) == cache_manager::static_prefix(
            model_id,
            stage,
            b,
        ),
{
    lemma_static_texts(a);
    lemma_static_texts(b);
}

proof fn lemma_static_texts(s: Seq<Segment>)
    ensures
        prompt_segments::texts_where(s, |s: Segment| s.is_static)
            == prompt_segments::texts_where(
            s.filter(|s: Segment| s.is_static),
            |s: Segment| s.is_static,
        ),
    decreases s.len(),
{
    reveal(Seq::filter);
    let keep = |s: Segment| s.is_static;
    if s.len() > 0 {
        lemma_static_texts(s.drop_last());
        let f = s.drop_last().filter(keep);
        if s.last().is_static {
            assert(f.push(s.last()).drop_last() =~= f);
        }
    }
}

/// Where the static segments stand before the others, their texts are the first of all texts.
proof fn lemma_static_texts_first(s: Seq<Segment>) -> (rest: Seq<Seq<char>>)
    requires
        forall|i: int, j: int|
            0 <= i < j < s.len() && (#[trigger] s[j]).is_static ==> (#[trigger] s[i]).is_static,
    ensures
        prompt_segments::texts_where(s, |s: Segment| true) == prompt_segments::texts_where(
            s,
            |s: Segment| s.is_static,
        ) + rest,
        s.len() > 0 && s.last().is_static ==> rest.len() == 0,
    decreases s.len(),
{
    let every = |s: Segment| true;
    let fixed = |s: Segment| s.is_static;
    if s.len() == 0 {
        let rest = Seq::<Seq<char>>::empty();
        assert(prompt_segments::texts_where(s, every) =~= prompt_segments::texts_where(s, fixed)
            + rest);
        rest
    } else {
        let t = s.drop_last();
        assert forall|i: int, j: int| 0 <= i < j < t.len() && (
        #[trigger] t[j]).is_static implies (#[trigger] t[i]).is_static by {
            assert(t[i] == s[i] && t[j] == s[j]);
        }
        let before = lemma_static_texts_first(t);
        let head = prompt_segments::texts_where(t, fixed);
        if s.last().is_static {
            if t.len() > 0 {
                assert(s[s.len() - 1].is_static);
                assert(s[t.len() - 1].is_static);
                assert(t.last() == s[t.len() - 1]);
            } else {
                assert(prompt_segments::texts_where(t, every) =~= Seq::empty());
                assert(before =~= Seq::empty());
            }
            assert(before =~= Seq::empty());
            assert(head + before =~= head);
            let rest = Seq::<Seq<char>>::empty();
            assert(prompt_segments::texts_where(s, every) =~= prompt_segments::texts_where(
                s,
                fixed,
            ) + rest);
            rest
        } else {
            let rest = if strs::trim(s.last().text).len() > 0 {
                before.push(strs::trim(s.last().text))
            } else {
                before
            };
            assert(prompt_segments::texts_where(s, every) =~= head + rest);
            rest
        }
    }
}

/// Joined texts begin with the first of them, joined.
proof fn lemma_joined_begins(first: Seq<Seq<char>>, rest: Seq<Seq<char>>, sep: Seq<char>)
    ensures
        strs::starts_with(strs::join(first + rest, sep), strs::join(first, sep)),
    decreases rest.len(),
{
    let whole = strs::join(first + rest, sep);
    let front = strs::join(first, sep);
    if rest.len() == 0 {
        assert(first + rest =~= first);
        assert(whole.subrange(0, front.len() as int) =~= front);
    } else if first.len() == 0 {
        assert(whole.subrange(0, 0) =~= front);
    } else {
        let less = rest.drop_last();
        lemma_joined_begins(first, less, sep);
        assert((first + rest).drop_last() =~= first + less);
        assert((first + rest).last() == rest.last());
        let near = strs::join(first + less, sep);
        assert(near.subrange(0, front.len() as int) == front);
        assert(whole.subrange(0, front.len() as int) =~= front);
    }
}

/// The static prefix of a prepared prompt is its very front: what follows belongs to the request.
pub proof fn static_prefix_is_the_front_of_the_prompt(
    model_id: Seq<char>,
    stage: HybridStage,
    segments: Seq<Segment>,
)
    requires
        forall|i: int|
            0 <= i < segments.len() ==> (#[trigger] segments[i]).is_static
                == segments[i].kind.is_static_kind(),
    ensures
        ({
            let ordered = sorting::sorted::<PromptSegment>(segments);
            strs::starts_with(
                prompt_segments::rendered(ordered),
                cache_manager::static_prefix(model_id, stage, ordered).text,
            )
        }),
{
    let ordered = sorting::sorted::<PromptSegment>(segments);
    prepared_segments_are_ordered(segments);
    sorting::sorting_keeps_what_holds_of_all::<PromptSegment>(
        segments,
        |s: Segment| s.is_static == s.kind.is_static_kind(),
    );
    assert forall|i: int, j: int| 0 <= i < j < ordered.len() && (
    #[trigger] ordered[j]).is_static implies (#[trigger] ordered[i]).is_static by {
        let same = |s: Segment| s.is_static == s.kind.is_static_kind();
        assert(same(ordered[i]) && same(ordered[j]));
        assert(ordered[i].kind.rank() <= ordered[j].kind.rank());
    }
    let rest = lemma_static_texts_first(ordered);
    lemma_joined_begins(
        prompt_segments::texts_where(ordered, |s: Segment| s.is_static),
        rest,
        "\n\n"@,
    );
}

/// The ids of a proposed text stand for its first characters.
pub proof fn proposed_ids_spell_the_text(s: Seq<char>, max: nat)
    ensures
        backends::text_of_ids(draft_provider::code_points(s, max)) == strs::first(s, max),
{
    lemma_ids_spell(strs::first(s, max));
}

proof fn lemma_char_is_scalar(c: char)
    ensures
        backends::is_scalar(c as u32),
        (c as u32) as char == c,
{
}

proof fn lemma_ids_spell(s: Seq<char>)
    ensures
        backends::text_of_ids(s.map_values(|c: char| c as u32)) == s,
    decreases s.len(),
{
    let ids = s.map_values(|c: char| c as u32);
    if s.len() > 0 {
        let t = s.drop_last();
        lemma_ids_spell(t);
        assert(ids.drop_last() =~= t.map_values(|c: char| c as u32));
        assert(ids.last() == s.last() as u32);
        lemma_char_is_scalar(s.last());
        assert(t.push(s.last()) =~= s);
    } else {
        assert(backends::text_of_ids(ids) =~= s);
    }
}

/// What is taken of a proposed text is the longest beginning that the model also writes: the
/// texts agree up to there, and where both go on they differ.
pub proof fn accepted_draft_is_the_common_beginning(
    candidate: Seq<char>,
    actual: Seq<char>,
    verify_ms: u128,
)
    ensures
        ({
            let v = backends::verdict(candidate, actual, verify_ms);
            &&& strs::starts_with(candidate, v.accepted_text)
            &&& strs::starts_with(actual, v.accepted_text)
            &&& v.accepted_len == v.accepted_text.len() == v.accepted_tokens.len()
            &&& v.accepted_len < candidate.len() && v.accepted_len < actual.len()
                ==> candidate[v.accepted_len] != actual[v.accepted_len]
            &&& v.rejected_at is None <==> v.accepted_text == candidate
        }),
{
    lemma_common_len(candidate, actual);
    let n = backends::common_len(candidate, actual) as int;
    assert(candidate.subrange(0, n) =~= candidate.take(n));
    assert(actual.subrange(0, n) =~= candidate.take(n));
    if n == candidate.len() {
        assert(candidate.take(n) =~= candidate);
    }
}

proof fn lemma_common_len(a: Seq<char>, b: Seq<char>)
    ensures
        ({
            let n = backends::common_len(a, b) as int;
            &&& n <= a.len()
            &&& n <= b.len()
            &&& forall|i: int| 0 <= i < n ==> a[i] == b[i]
            &&& n < a.len() && n < b.len() ==> a[n] != b[n]
        }),
    decreases a.len(),
{
    if a.len() > 0 && b.len() > 0 && a[0] == b[0] {
        let x = a.skip(1);
        let y = b.skip(1);
        lemma_common_len(x, y);
        let n = backends::common_len(a, b) as int;
        assert forall|i: int| 0 <= i < n implies a[i] == b[i] by {
            if i > 0 {
                assert(x[i - 1] == a[i] && y[i - 1] == b[i]);
            }
        }
        if n < a.len() && n < b.len() {
            assert(x[n - 1] == a[n] && y[n - 1] == b[n]);
        }
    }
}

} // verus!
