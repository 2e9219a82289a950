//! What holds of a chat from its first step to its last.

use crate::drace::cache_manager::HybridStage;
use crate::engine::chat;
use crate::engine::chat::{ChatFlow, ChatInputs, ChatStep, Ending};
use crate::engine::execution::StrategyModelExecution;
use crate::engine::models::{
    STRATEGY_MODEL_DEFAULT_ID, STRATEGY_MODEL_ROOSY_ID,
};
use crate::engine::prompts;
use crate::strs;
use vstd::prelude::*;

verus! {

/// What came of running a model.
pub type Outcome = Result<StrategyModelExecution, String>;

/// The run, where there is one.
pub open spec fn run_of(outcome: Outcome) -> Option<StrategyModelExecution> {
    match outcome {
        Ok(run) => Some(run),
        Err(_) => None,
    }
}

/// A record is asked of one model or of two; another answer of one, of two, or, where it is small
/// talk, of the trained model alone.
pub proof fn a_chat_starts_as_it_is_asked(record: bool, hybrid: bool, fast: bool)
    ensures
        ({
            let step = chat::first_step(record, hybrid, fast);
            &&& record && hybrid ==> step is RecordMain
            &&& record && !hybrid ==> step is RecordSingle
            &&& !record && hybrid && fast ==> step is FastAnswer
            &&& !record && hybrid && !fast ==> step is GeneralDraft
            &&& !record && !hybrid ==> step is GeneralSingle
        }),
{
}

/// A record of two models: where both have answered, the record is rendered from the first answer,
/// or merged, and where merging fails the first answer stands. Where one has answered, its answer
/// stands, and where none has, the first model is asked once more. The answer is gone over, except
/// where it was rendered.
pub proof fn a_record_of_two_models_comes_to_its_answer(
    f: ChatFlow,
    first: Outcome,
    second: Outcome,
    rendered: bool,
    last: Outcome,
)
    requires
        f.step is RecordMain,
    ensures
        ({
            let a = chat::after_run(f, first);
            let b = chat::after_run(a, second);
            &&& a.step is RecordFill
            &&& first is Ok && second is Ok ==> {
                let tried = if f.cache {
                    chat::after_try(b, rendered)
                } else {
                    b
                };
                let merged = chat::after_run(tried, last);
                &&& f.cache ==> b.step is RecordRender
                &&& f.cache && rendered ==> tried.step is Finished && tried.main == run_of(first)
                    && tried.ending == Ending::RecordFast
                &&& !(f.cache && rendered) ==> {
                    &&& tried.step is RecordSynthesis
                    &&& merged.step is RecordReview
                    &&& merged.ending == Ending::RecordHybrid
                    &&& last is Ok ==> merged.main == run_of(last)
                    &&& last is Err ==> merged.main == run_of(first)
                    &&& merged.hyper == run_of(first) && merged.roosy == run_of(second)
                }
            }
            &&& first is Ok && second is Err ==> b.step is RecordReview && b.main == run_of(first)
                && b.ending == Ending::RecordHyper
            &&& first is Err && second is Ok ==> b.step is RecordReview && b.main == run_of(second)
                && b.ending == Ending::RecordRoosy
            &&& first is Err && second is Err ==> {
                let again = chat::after_run(b, last);
                &&& b.step is RecordRecovery
                &&& b.hyper_error == Some(first->Err_0) && b.roosy_error == Some(second->Err_0)
                &&& last is Ok ==> again.step is RecordReview && again.main == run_of(last)
                    && again.ending == Ending::RecordRecovered
                &&& last is Err ==> again.step is Failed && again.last_error == Some(last->Err_0)
            }
        }),
{
}

/// An answer of two models: where both have answered they are merged, and where merging fails the
/// answer of the trained model stands. Where one has answered, its answer stands; where none has,
/// there is none.
pub proof fn an_answer_of_two_models_comes_to_its_end(
    f: ChatFlow,
    first: Outcome,
    second: Outcome,
    last: Outcome,
)
    requires
        f.step is GeneralDraft,
    ensures
        ({
            let a = chat::after_run(f, first);
            let b = chat::after_run(a, second);
            let merged = chat::after_run(b, last);
            &&& a.step is GeneralCheck
            &&& first is Ok && second is Ok ==> {
                &&& b.step is GeneralSynthesis
                &&& merged.step is Finished && merged.ending == Ending::Hybrid
                &&& last is Ok ==> merged.main == run_of(last)
                &&& last is Err ==> merged.main == run_of(first)
                &&& merged.roosy == run_of(first) && merged.hyper == run_of(second)
            }
            &&& first is Ok && second is Err ==> b.step is Finished && b.main == run_of(first)
                && b.ending == Ending::RoosyOnly
            &&& first is Err && second is Ok ==> b.step is Finished && b.main == run_of(second)
                && b.ending == Ending::HyperOnly
            &&& first is Err && second is Err ==> b.step is Failed
        }),
{
}

/// An answer of one model is the answer, and where the model fails there is none and its error is
/// kept; a record is gone over first.
pub proof fn an_answer_of_one_model_is_the_answer(f: ChatFlow, outcome: Outcome)
    requires
        f.step is RecordSingle || f.step is FastAnswer || f.step is GeneralSingle,
    ensures
        ({
            let g = chat::after_run(f, outcome);
            &&& outcome is Ok ==> g.main == run_of(outcome)
            &&& outcome is Ok && f.step is RecordSingle ==> g.step is RecordReview
                && g.ending == Ending::RecordSingle
            &&& outcome is Ok && f.step is FastAnswer ==> g.step is Finished && g.ending
                == Ending::Fast
            &&& outcome is Ok && f.step is GeneralSingle ==> g.step is Finished && g.ending
                == Ending::Single
            &&& outcome is Err ==> g.step is Failed && g.last_error == Some(outcome->Err_0)
            &&& g.step is RecordReview ==> chat::after_review(g).step is Finished
                && chat::after_review(g).main == g.main
        }),
{
}

/// The default model writes records first, merges them and tries once more, and checks answers;
/// the trained model fills records, and writes and merges answers; one that was asked for alone is
/// asked alone. Records and answers go by their own instructions, and only a second try goes
/// without the cache.
pub proof fn each_step_asks_its_model(f: ChatFlow, x: ChatInputs)
    requires
        chat::runs_model(f.step),
    ensures
        chat::wanted(f, x) matches Some(w) && {
            &&& match f.step {
                ChatStep::RecordMain
                | ChatStep::RecordSynthesis
                | ChatStep::RecordRecovery
                | ChatStep::GeneralCheck => w.model_id == STRATEGY_MODEL_DEFAULT_ID@,
                ChatStep::RecordFill
                | ChatStep::FastAnswer
                | ChatStep::GeneralDraft
                | ChatStep::GeneralSynthesis => w.model_id == STRATEGY_MODEL_ROOSY_ID@,
                _ => w.model_id == f.model_id@,
            }
            &&& match f.step {
                ChatStep::RecordMain | ChatStep::RecordSingle => w.stage == HybridStage::RecordMain,
                ChatStep::RecordFill => w.stage == HybridStage::RecordFill,
                ChatStep::RecordSynthesis => w.stage == HybridStage::RecordSynthesis,
                ChatStep::RecordRecovery => w.stage == HybridStage::RecordRecovery,
                ChatStep::FastAnswer => w.stage == HybridStage::FastRoosy,
                ChatStep::GeneralDraft => w.stage == HybridStage::GeneralDraft,
                ChatStep::GeneralSynthesis => w.stage == HybridStage::GeneralSynthesis,
                _ => w.stage == HybridStage::GeneralMain,
            }
            &&& match f.step {
                ChatStep::RecordSynthesis => w.system == prompts::RECORD_HYBRID_SYSTEM_PROMPT@,
                ChatStep::RecordMain
                | ChatStep::RecordFill
                | ChatStep::RecordRecovery
                | ChatStep::RecordSingle => w.system == prompts::RECORD_SYSTEM_PROMPT@,
                ChatStep::GeneralSynthesis => w.system == prompts::HYBRID_SYSTEM_PROMPT@,
                _ => w.system == prompts::SYSTEM_PROMPT@,
            }
            &&& w.cache == (f.cache && !(f.step is RecordRecovery))
            &&& w.prefix is None
        },
{
}

/// A number lies between two others.
pub open spec fn between(low: int, n: int, high: int) -> bool {
    low <= n <= high
}

/// The length of an answer and the window are as they were asked for, within the bounds of each
/// step: a draft is not longer than the step needs, a record not shorter than it must be, and what
/// is merged may be longer by 120.
pub proof fn steps_keep_within_their_bounds(f: ChatFlow, x: ChatInputs)
    requires
        chat::runs_model(f.step),
    ensures
        chat::wanted(f, x) matches Some(w) && match f.step {
            ChatStep::RecordMain => between(640, w.max_tokens as int, 760) && (between(
                640,
                f.max_tokens as int,
                760,
            ) ==> w.max_tokens == f.max_tokens) && between(3328, w.n_ctx as int, 3584),
            ChatStep::RecordFill => between(560, w.max_tokens as int, 700) && (between(
                560,
                f.max_tokens as int,
                700,
            ) ==> w.max_tokens == f.max_tokens) && between(3328, w.n_ctx as int, 3584),
            ChatStep::RecordSynthesis => between(700, w.max_tokens as int, 768) && (between(
                700,
                f.max_tokens + 120,
                768,
            ) ==> w.max_tokens == f.max_tokens + 120) && w.n_ctx >= 3584 && (f.n_ctx >= 3584
                ==> w.n_ctx == f.n_ctx),
            ChatStep::RecordRecovery => w.max_tokens >= 620 && (f.max_tokens >= 620
                ==> w.max_tokens == f.max_tokens) && w.n_ctx >= 3328 && (f.n_ctx >= 3328 ==> w.n_ctx
                == f.n_ctx),
            ChatStep::RecordSingle => w.max_tokens >= 620 && (f.max_tokens >= 620 ==> w.max_tokens
                == f.max_tokens) && between(3328, w.n_ctx as int, 3584),
            ChatStep::FastAnswer => between(280, w.max_tokens as int, 640) && (between(
                280,
                f.max_tokens as int,
                640,
            ) ==> w.max_tokens == f.max_tokens) && between(2560, w.n_ctx as int, 3584),
            ChatStep::GeneralDraft => between(420, w.max_tokens as int, 640) && (between(
                420,
                f.max_tokens as int,
                640,
            ) ==> w.max_tokens == f.max_tokens) && between(2560, w.n_ctx as int, 3584),
            ChatStep::GeneralCheck => between(320, w.max_tokens as int, 520) && (between(
                320,
                f.max_tokens as int,
                520,
            ) ==> w.max_tokens == f.max_tokens) && between(2560, w.n_ctx as int, 3584),
            ChatStep::GeneralSynthesis => between(620, w.max_tokens as int, 768) && (between(
                620,
                f.max_tokens + 120,
                768,
            ) ==> w.max_tokens == f.max_tokens + 120) && w.n_ctx == f.n_ctx,
            _ => w.max_tokens == f.max_tokens && w.n_ctx == f.n_ctx,
        },
{
}

/// A chat that was tried for nothing says why: with both drafts and the second try where a record
/// failed, with what the model said where one model was asked.
pub proof fn a_failed_chat_says_why(f: ChatFlow, at: ChatStep)
    ensures
        at is RecordSingle || at is FastAnswer || at is GeneralSingle ==> chat::chat_failure(f, at)
            == chat::or_nothing(f.last_error),
        at is RecordRecovery ==> strs::ends_with(
            chat::chat_failure(f, at),
            "초안1: "@ + strs::first(chat::or_nothing(f.hyper_error), 180) + " / 초안2: "@
                + strs::first(chat::or_nothing(f.roosy_error), 180) + " / 복구초안: "@
                + strs::first(chat::or_nothing(f.last_error), 220),
        ),
{
    if at is RecordRecovery {
        let detail = "초안1: "@ + strs::first(chat::or_nothing(f.hyper_error), 180) + " / 초안2: "@
            + strs::first(chat::or_nothing(f.roosy_error), 180) + " / 복구초안: "@ + strs::first(
            chat::or_nothing(f.last_error),
            220,
        );
        let whole = chat::chat_failure(f, at);
        assert(whole.subrange(whole.len() - detail.len(), whole.len() as int) =~= detail);
    }
}

} // verus!
