//! What holds of the runs of a model.

use crate::drace::backends;
use crate::drace::cache_manager::{HybridStage, StageCachePlan};
use crate::engine::cleanup;
use crate::engine::drafts::StrategyVerifiedDraftPrefix;
use crate::engine::endpoints;
use crate::engine::execution;
use crate::engine::execution::{Fallback, PreparedExecution, Request, Sending};
use crate::engine::packet::StrategyEvidencePacket;
use crate::engine::perf;
use crate::engine::perf::StrategyStageCachePerf;
use crate::engine::sanitize;
use crate::json;
use crate::json::Tree;
use crate::strs;
use crate::text;
use vstd::prelude::*;

verus! {

/// The review is sampled greedily, and all other stages alike, a little warm.
pub proof fn only_the_review_is_sampled_greedily(a: HybridStage, b: HybridStage)
    ensures
        execution::tuning_for(a).temperature_milli == 0 <==> a is RecordReview,
        execution::tuning_for(HybridStage::RecordReview).top_p_milli == 1000,
        execution::tuning_for(HybridStage::RecordReview).repeat_penalty_milli == 1050,
        !(a is RecordReview) && !(b is RecordReview) ==> execution::tuning_for(a)
            == execution::tuning_for(b),
        !(a is RecordReview) ==> execution::tuning_for(a).temperature_milli == 150
            && execution::tuning_for(a).top_p_milli == 850
            && execution::tuning_for(a).repeat_penalty_milli == 1120,
{
}

/// A number that lies within its bounds is kept, and another is moved to the nearer bound.
pub proof fn bounds_move_only_what_lies_outside(n: u32, low: u32, high: u32)
    requires
        low <= high,
    ensures
        low <= perf::within(n, low, high) <= high,
        low <= n <= high ==> perf::within(n, low, high) == n,
        n < low ==> perf::within(n, low, high) == low,
        n > high ==> perf::within(n, low, high) == high,
{
}

/// A prompt that did not fit is sent without its place in the cache where it had one, then once
/// more to a server that was started anew, and then no more: the third failure is the last, and so
/// is a server that could not be started. An answer is taken whenever it comes.
pub proof fn a_prompt_that_does_not_fit_is_sent_three_times(
    cached: bool,
    first: Seq<char>,
    second: Seq<char>,
    third: Seq<char>,
)
    requires
        endpoints::window_exceeded(first),
        endpoints::window_exceeded(second),
    ensures
        ({
            let new = Request { step: Sending::Send { cached }, errors: Seq::empty(), tries: 0 };
            let once = new.after_reply(Some(first));
            let twice = if cached {
                once.after_reply(Some(second))
            } else {
                once
            };
            let anew = twice.after_restart(None);
            &&& new.after_reply(None).step == (Sending::Answered { cached })
            &&& cached ==> once.step == (Sending::Send { cached: false })
            &&& cached ==> once.after_reply(None).step == (Sending::Answered { cached: false })
            &&& twice.step == Sending::Restart
            &&& twice.errors == if cached {
                first + "; uncached_retry_failed: "@ + second
            } else {
                first
            }
            &&& anew.step == (Sending::Send { cached: false })
            &&& anew.after_reply(None).step == (Sending::Answered { cached: false })
            &&& anew.after_reply(Some(third)).step == Sending::Failed(third)
            &&& twice.after_restart(Some(third)).step == Sending::Failed(
                twice.errors + "; restart_failed: "@ + third,
            )
        }),
{
}

/// A failure that is not about the window ends the request at once, with what was said.
pub proof fn another_failure_ends_the_request(cached: bool, error: Seq<char>)
    requires
        !endpoints::window_exceeded(error),
    ensures
        (Request { step: Sending::Send { cached }, errors: Seq::empty(), tries: 0 }).after_reply(
            Some(error),
        ).step == Sending::Failed(error),
{
}

/// That a prompt did not fit is told by words about the size of the context, in upper or lower
/// case.
pub proof fn a_full_window_is_told_by_its_words(message: Seq<char>)
    ensures
        ({
            let s = strs::ascii_lower(message);
            endpoints::window_exceeded(message) <==> strs::contains(s, "context size"@)
                || strs::contains(s, "try increasing it"@)
        }),
{
    let s = strs::ascii_lower(message);
    let words = seq![
        "exceeds the available context size"@,
        "available context size"@,
        "try increasing it"@,
        "context size"@,
    ];
    assert(words[0] == "exceeds the available context size"@);
    assert(words[1] == "available context size"@);
    assert(words[2] == "try increasing it"@);
    assert(words[3] == "context size"@);
    reveal_strlit("exceeds the available context size");
    reveal_strlit("available context size");
    reveal_strlit("context size");
    if strs::contains(s, "exceeds the available context size"@) {
        let i = choose|i: int| strs::occurs_at(s, "exceeds the available context size"@, i);
        assert("exceeds the available context size"@.subrange(22, 34) =~= "context size"@);
        assert(s.subrange(i + 22, i + 34) =~= "exceeds the available context size"@.subrange(
            22,
            34,
        ));
        assert(strs::occurs_at(s, "context size"@, i + 22));
    }
    if strs::contains(s, "available context size"@) {
        let i = choose|i: int| strs::occurs_at(s, "available context size"@, i);
        assert("available context size"@.subrange(10, 22) =~= "context size"@);
        assert(s.subrange(i + 10, i + 22) =~= "available context size"@.subrange(10, 22));
        assert(strs::occurs_at(s, "context size"@, i + 10));
    }
}

/// A reply of a server is an answer where something is left of it when it is cleaned: behind the
/// text that it was to begin with. Else it is an error, with what the server says of it.
pub proof fn a_reply_is_an_answer_or_an_error(root: Tree, prefix: Seq<char>)
    ensures
        ({
            let written = match backends::reply_answer(root) {
                Some(s) => cleanup::cleaned_output(s),
                None => cleanup::cleaned_output(Seq::empty()),
            };
            match execution::answer_or_error(root, prefix) {
                Ok(answer) => strs::trim(written).len() > 0 && answer == prefix + written,
                Err(e) => strs::trim(written).len() == 0 && (execution::server_error(root) matches Some(
                    said,
                ) ==> strs::ends_with(e, said)),
            }
        }),
{
    match execution::server_error(root) {
        Some(said) => {
            let e = "llama-server가 비어 있는 응답을 반환했어요: "@ + said;
            assert(e.subrange(e.len() - said.len(), e.len() as int) =~= said);
        },
        None => {},
    }
}

/// What a server says of an error is its message, else the error itself, else the detail, else the
/// message of the reply: the first of them that is not blank.
pub proof fn an_error_is_the_first_that_is_said(root: Tree)
    ensures
        ({
            let inner = json::filled_text(json::get_of(root.get("error"@), "message"@));
            let plain = json::filled_text(root.get("error"@));
            let detail = json::filled_text(root.get("detail"@));
            let outer = json::filled_text(root.get("message"@));
            let said = execution::server_error(root);
            &&& inner is Some ==> said == inner
            &&& inner is None && plain is Some ==> said == plain
            &&& inner is None && plain is None && detail is Some ==> said == detail
            &&& inner is None && plain is None && detail is None ==> said == outer
        }),
{
}

/// What a model that was started anew printed is its answer where something is left of it when it
/// is cleaned and finished, and the model was not stopped; how the model ended does not matter. A
/// model that was stopped has no answer, whatever it printed.
pub proof fn what_was_printed_is_the_answer_unless_it_was_stopped(
    label: Seq<char>,
    runner: Seq<char>,
    timed_out: bool,
    success: bool,
    stdout: Seq<char>,
    stderr: Seq<char>,
    packet: StrategyEvidencePacket,
    message: Seq<char>,
)
    ensures
        ({
            let written = cleanup::finished_answer(
                cleanup::cleaned_output(stdout),
                packet,
                message,
            );
            let answer = execution::cli_answer(
                label,
                runner,
                timed_out,
                success,
                stdout,
                stderr,
                packet,
                message,
            );
            &&& answer is Ok <==> !timed_out && written.len() > 0
            &&& answer is Ok ==> answer == Ok::<Seq<char>, Seq<char>>(written)
            &&& answer is Err && !timed_out && !success ==> strs::ends_with(
                answer->Err_0,
                strs::first(strs::trim(stderr), 600),
            )
            &&& answer is Err && timed_out ==> strs::starts_with(answer->Err_0, label)
        }),
{
    let answer = execution::cli_answer(
        label,
        runner,
        timed_out,
        success,
        stdout,
        stderr,
        packet,
        message,
    );
    if answer is Err {
        let e = answer->Err_0;
        let shown = strs::first(strs::trim(stderr), 600);
        if timed_out {
            assert(e.subrange(0, label.len() as int) =~= label);
        } else if !success {
            assert(e.subrange(e.len() - shown.len(), e.len() as int) =~= shown);
        }
    }
}

/// The option stands among the arguments with its value behind it.
pub open spec fn has_option(args: Seq<Seq<char>>, option: Seq<char>, value: Seq<char>) -> bool {
    exists|k: int|
        0 <= k && k + 1 < args.len() && #[trigger] args[k] == option && args[k + 1] == value
}

/// A model that is started anew is given its file, its window, the length of its answer, its
/// threads, how it is sampled, and the files of the two prompts, each behind its own option.
pub proof fn a_model_is_started_with_what_was_prepared(
    p: PreparedExecution,
    model_path: Seq<char>,
    system_file: Seq<char>,
    user_file: Seq<char>,
)
    ensures
        ({
            let args = execution::cli_args(p, model_path, system_file, user_file);
            &&& has_option(args, "-m"@, model_path)
            &&& has_option(args, "-c"@, strs::decimal(p.runtime.n_ctx as nat))
            &&& has_option(args, "-n"@, strs::decimal(p.max_tokens as nat))
            &&& has_option(args, "-t"@, strs::decimal(p.runtime.threads as nat))
            &&& has_option(args, "--temp"@, execution::thousandths(p.tuning.temperature_milli as nat))
            &&& has_option(args, "--top-p"@, execution::thousandths(p.tuning.top_p_milli as nat))
            &&& has_option(
                args,
                "--repeat-penalty"@,
                execution::thousandths(p.tuning.repeat_penalty_milli as nat),
            )
            &&& has_option(args, "--device"@, p.runtime.device@)
            &&& has_option(args, "--n-gpu-layers"@, strs::decimal(p.runtime.n_gpu_layers as nat))
            &&& has_option(args, "--system-prompt-file"@, system_file)
            &&& has_option(args, "--file"@, user_file)
            &&& args.contains("--single-turn"@)
            &&& args.contains("--no-display-prompt"@)
        }),
{
    let args = execution::cli_args(p, model_path, system_file, user_file);
    assert(args[0] == "-m"@ && args[1] == model_path);
    assert(args[2] == "-c"@);
    assert(args[4] == "-n"@);
    assert(args[6] == "-t"@);
    assert(args[10] == "--temp"@);
    assert(args[12] == "--top-p"@);
    assert(args[14] == "--repeat-penalty"@);
    assert(args[19] == "--no-display-prompt"@);
    assert(args[21] == "--single-turn"@);
    assert(args[23] == "--device"@);
    assert(args[25] == "--n-gpu-layers"@);
    assert(args[31] == "--system-prompt-file"@);
    assert(args[33] == "--file"@);
}

/// A number of thousandths is written as its whole part and, where something is left, a point and
/// up to three digits that stand for the rest and do not end with a zero.
pub proof fn thousandths_are_written_out(n: nat)
    ensures
        n % 1000 == 0 ==> execution::thousandths(n) == strs::decimal(n / 1000),
        n % 1000 != 0 ==> ({
            let d = execution::fraction_digits(n % 1000);
            &&& execution::thousandths(n) == strs::decimal(n / 1000) + "."@ + d
            &&& 1 <= d.len() <= 3
            &&& d.last() != '0'
            &&& n % 1000 == strs::decimal_value(d) * (if d.len() == 1 {
                100nat
            } else if d.len() == 2 {
                10
            } else {
                1
            })
        }),
{
    let m = n % 1000;
    if m != 0 {
        let d = execution::fraction_digits(m);
        let a = m / 100;
        let b = m / 10 % 10;
        let c = m % 10;
        assert(m == 100 * a + 10 * b + c);
        reveal_with_fuel(strs::decimal_value, 4);
        assert(d.drop_last().len() == d.len() - 1);
        if d.len() == 3 {
            assert(d.drop_last().drop_last().drop_last() =~= Seq::empty());
            assert(d.drop_last().drop_last().last() == strs::digit(a));
            assert(d.drop_last().last() == strs::digit(b));
        } else if d.len() == 2 {
            assert(d.drop_last().drop_last() =~= Seq::empty());
            assert(d.drop_last().last() == strs::digit(a));
        } else {
            assert(d.drop_last() =~= Seq::empty());
        }
    }
}

/// A prompt that fits its window is kept as it is. One that does not is cut in its middle: what is
/// left begins as the prompt does and ends as it does, with a note between.
pub proof fn a_long_prompt_is_cut_in_its_middle(s: Seq<char>, n_ctx: u32, max_tokens: u32) -> (ends: (
    Seq<char>,
    Seq<char>,
))
    ensures
        ({
            let room = n_ctx - max_tokens - 320;
            let budget = if room >= 1400 {
                room
            } else {
                1400
            };
            let cut = sanitize::fitted(s, n_ctx, max_tokens);
            &&& s.len() <= budget ==> cut == s
            &&& s.len() > budget ==> {
                &&& cut == ends.0 + "\n\n[중간 맥락 일부 압축]\n\n"@ + ends.1
                &&& strs::starts_with(s, ends.0)
                &&& strs::ends_with(s, ends.1)
            }
        }),
{
    let budget = sanitize::prompt_budget(n_ctx, max_tokens);
    if s.len() <= budget {
        (Seq::empty(), Seq::empty())
    } else {
        let share = sanitize::head_share(budget as nat);
        let left = if budget < share + 18 {
            0
        } else {
            (budget - share - 18) as nat
        };
        let p = |c: char| strs::is_space(c);
        let a = strs::first(s, share);
        let b = strs::last(s, left);
        let head = strs::trim_end(a);
        let tail = strs::trim_start(b);
        text::lemma_trim_end_where(a, p);
        text::lemma_trim_start_where(b, p);
        assert(s.subrange(0, head.len() as int) =~= head);
        assert(s.subrange(s.len() - tail.len(), s.len() as int) =~= tail);
        (head, tail)
    }
}

/// A draft that was accepted and is not blank makes the run one of the full mode, with nothing
/// passed by; another leaves what was applied before as it was. Either way what was proposed,
/// accepted and rejected is counted.
pub proof fn an_accepted_draft_counts_as_applied(
    before: StrategyStageCachePerf,
    plan: StageCachePlan,
    provider: Seq<char>,
    v: StrategyVerifiedDraftPrefix,
    after: StrategyStageCachePerf,
)
    requires
        execution::draft_noted(before, plan, provider, v, after),
    ensures
        ({
            let used = v.synthetic_applied && strs::trim(v.accepted_text@).len() > 0;
            &&& used ==> after.cache_applied && after.cache_mode_applied@ == "FullDRACE"@
                && after.bypass_reason@ == ""@
            &&& !used ==> after.cache_applied == before.cache_applied && after.cache_mode_applied@
                == before.cache_mode_applied@
            &&& !used && strs::trim(v.bypass_reason@).len() > 0 ==> after.bypass_reason@
                == v.bypass_reason@
            &&& after.proposed_tokens == v.proposed_tokens
            &&& after.accepted_tokens == v.accepted_tokens
            &&& after.rejected_tokens == v.rejected_tokens
            &&& after.verify_batches == v.verification_batches
            &&& after.rejected_batches <= 1
            &&& after.rejected_batches == 1 <==> v.rejected_tokens > 0
            &&& after.draft_provider@ == provider
        }),
{
}

/// A prefix that was sent and was there is reused whole; one that was sent and was not there is put
/// there, and the run says that it found the cache cold; one that was not sent is not counted, and
/// the run says why.
pub proof fn a_prefix_is_reused_cold_or_not_sent(
    before: StrategyStageCachePerf,
    cache_prompt: bool,
    asked: bool,
    used: bool,
    warm: bool,
    prefix_tokens: usize,
    after: StrategyStageCachePerf,
)
    requires
        execution::served(before, cache_prompt, asked, used, warm, prefix_tokens, after),
        !before.synthetic_cache_applied,
    ensures
        ({
            let sent = before.prefix_kv_applied && used;
            &&& sent && warm ==> {
                &&& after.cache_applied && after.prefix_kv_applied && after.cache_warm
                &&& after.prefix_reused_tokens == prefix_tokens
                &&& after.prefix_total_tokens == prefix_tokens
                &&& after.cache_mode_applied@ == before.cache_mode_applied@
                &&& after.bypass_reason@ == ""@
            }
            &&& sent && !warm ==> {
                &&& !after.cache_applied && !after.prefix_kv_applied && !after.cache_warm
                &&& after.prefix_reused_tokens == 0
                &&& after.prefix_total_tokens == prefix_tokens
                &&& after.bypass_reason@ == "cold cache"@
            }
            &&& !sent ==> {
                &&& !after.cache_applied && !after.prefix_kv_applied && !after.cache_warm
                &&& after.prefix_reused_tokens == 0 && after.prefix_total_tokens == 0
            }
            &&& !sent && strs::trim(before.bypass_reason@).len() > 0 ==> after.bypass_reason@
                == before.bypass_reason@
            &&& !sent && strs::trim(before.bypass_reason@).len() == 0 && asked && !used
                ==> after.bypass_reason@ == "prefix_kv_slot_saturated"@
            &&& !sent && strs::trim(before.bypass_reason@).len() == 0 && !asked && !cache_prompt
                ==> after.bypass_reason@ == "cache_prompt_disabled"@
            &&& execution::warmed_by_run(before, used, warm) <==> sent && !warm
        }),
{
}

/// A fallback is recorded by what failed, with what was said of it.
pub proof fn a_fallback_is_recorded_by_what_failed(said: String)
    ensures
        execution::fallback_reason(Fallback::NativeFailed(said))
            == "native_backend_request_failed: "@ + strs::first(said@, 240),
        execution::fallback_reason(Fallback::ServerFailed(said)) == "llama_server_request_failed: "@
            + strs::first(said@, 240),
        execution::fallback_reason(Fallback::ServerUnavailable(said)) == said@,
        execution::fallback_reason(Fallback::ServerMissing) == "llama_server_endpoint_missing"@,
        execution::fallback_notice(Fallback::ServerMissing) is None,
        execution::fallback_notice(Fallback::NativeFailed(said)) is Some,
        execution::fallback_notice(Fallback::ServerFailed(said)) is Some,
        execution::fallback_notice(Fallback::ServerUnavailable(said)) is Some,
{
}

} // verus!
