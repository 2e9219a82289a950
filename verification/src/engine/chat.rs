//! A chat from the question to the answer: which models are asked, in which order, and what
//! becomes of their answers.

use crate::drace::backends::LlamaServerConfig;
use crate::drace::cache_manager::HybridStage;
use crate::drace::hashing;
use crate::engine::execution::{StageRequest, StrategyModelExecution, Wanted};
use crate::engine::labels;
use crate::engine::models;
use crate::engine::models::{
    normalize_strategy_model_id, STRATEGY_MODEL_DEFAULT_ID, STRATEGY_MODEL_HYBRID_ID,
    STRATEGY_MODEL_ROOSY_ID,
};
use crate::engine::packet::StrategyEvidencePacket;
use crate::engine::perf;
use crate::engine::perf::{
    strategy_hybrid_draft_n_ctx, strategy_runtime_config, StrategyPerfMetrics, StrategyStagePerf,
};
use crate::engine::prompts;
use crate::engine::prompts::{
    build_strategy_hybrid_system_prompt, build_strategy_hybrid_user_prompt,
    build_strategy_record_fill_user_prompt, build_strategy_record_hybrid_system_prompt,
    build_strategy_record_hybrid_user_prompt, build_strategy_record_system_prompt,
    build_strategy_record_user_prompt, build_strategy_system_prompt, build_strategy_user_prompt,
    build_strategy_user_prompt_for_draft, StrategyChatTurn,
};
use crate::engine::questions;
use crate::engine::questions::{strategy_question_route, StrategyQuestionRoute};
use crate::engine::record_answer;
use crate::engine::record_answer::finalize_strategy_record_answer;
use crate::engine::records::CaseItem;
use crate::engine::review;
use crate::engine::review::{
    finalize_strategy_record_stage_metrics, strategy_fast_hash_hex, StrategyRecordReviewResult,
};
use crate::engine::sanitize;
use crate::engine::sanitize::{strategy_sanitize_text, strategy_trim};
use crate::engine::segments;
use crate::engine::segments::{normalize_strategy_chat_mode, STRATEGY_CHAT_MODE_RECORD};
use crate::engine::template::StrategyRecordModeTemplate;
use crate::strs;
use crate::text;
use vstd::prelude::*;

verus! {

/// What a chat may be asked to do otherwise than usual.
#[derive(Debug, Clone)]
pub struct StrategyChatOptions {
    pub model: Option<String>,
    pub max_tokens: Option<u32>,
    pub n_ctx: Option<u32>,
    pub threads: Option<u32>,
    pub synthetic_cache_enabled: Option<bool>,
    pub backend_mode: Option<String>,
    pub llama_server: Option<LlamaServerConfig>,
}

/// What came of a chat.
#[derive(Debug)]
pub struct StrategyChatRunResult {
    pub answer: String,
    pub model_path: String,
    pub runner: String,
    pub prompt_chars: usize,
    pub records_used: usize,
    pub retrieval_query: String,
    pub evidence_packet: StrategyEvidencePacket,
    pub perf_metrics: StrategyPerfMetrics,
}

/// How a chat is run.
#[derive(Debug, Clone, Copy)]
pub struct ChatSettings {
    pub model_id: &'static str,
    pub max_tokens: u32,
    pub n_ctx: u32,
    pub threads: u32,
    pub cache: bool,
}

/// The model that is asked for.
pub open spec fn asked_model(opts: Option<StrategyChatOptions>) -> Seq<char> {
    models::model_named(
        match opts {
            Some(o) => strs::opt_view(o.model),
            None => None,
        },
    )
}

/// How a chat is run: as the options say, within bounds.
pub fn chat_settings(opts: Option<&StrategyChatOptions>, default_threads: u32) -> (r: ChatSettings)
    ensures
        ({
            let asked = match opts {
                Some(o) => Some(*o),
                None => None,
            };
            let (max_tokens, n_ctx, threads, cache) = match asked {
                Some(o) => (o.max_tokens, o.n_ctx, o.threads, o.synthetic_cache_enabled),
                None => (None, None, None, None),
            };
            &&& r.model_id@ == asked_model(asked)
            &&& r.max_tokens == perf::within(
                match max_tokens {
                    Some(n) => n,
                    None => if r.model_id@ == STRATEGY_MODEL_HYBRID_ID@ {
                        720
                    } else {
                        320
                    },
                },
                64,
                768,
            )
            &&& r.n_ctx == perf::within(
                match n_ctx {
                    Some(n) => n,
                    None => 4096,
                },
                2048,
                4096,
            )
            &&& r.threads == perf::within(
                match threads {
                    Some(n) => n,
                    None => default_threads,
                },
                1,
                12,
            )
            &&& r.cache == (cache != Some(false))
        }),
{
    let (model, max_tokens, n_ctx, threads, cache): (
        Option<&str>,
        Option<u32>,
        Option<u32>,
        Option<u32>,
        Option<bool>,
    ) = match opts {
        Some(o) => {
            let model: Option<&str> = match &o.model {
                Some(m) => Some(m.as_str()),
                None => None,
            };
            (model, o.max_tokens, o.n_ctx, o.threads, o.synthetic_cache_enabled)
        },
        None => (None, None, None, None, None),
    };
    let model_id = normalize_strategy_model_id(model);
    let usual: u32 = if text::same(model_id, STRATEGY_MODEL_HYBRID_ID) {
        720
    } else {
        320
    };
    let wanted: u32 = match max_tokens {
        Some(n) => n,
        None => usual,
    };
    let runtime = strategy_runtime_config(n_ctx, threads, default_threads);
    ChatSettings {
        model_id,
        max_tokens: if wanted < 64 {
            64
        } else if wanted > 768 {
            768
        } else {
            wanted
        },
        n_ctx: runtime.n_ctx,
        threads: runtime.threads,
        cache: match cache {
            Some(b) => b,
            None => true,
        },
    }
}

/// A message, cleaned.
pub open spec fn safe_text(message: Seq<char>) -> Seq<char> {
    strs::trim(sanitize::sanitized(strs::trim(message)))
}

/// The message of a chat, cleaned, and whether a record is asked for; an error where there is no
/// message, or nothing that an answer could rest on.
pub fn chat_request(message: &str, mode: Option<&str>, records: usize) -> (r: Result<
    (String, bool),
    String,
>)
    ensures
        match r {
            Ok((safe, record)) => {
                &&& safe@ == safe_text(message@)
                &&& safe@.len() > 0
                &&& record == segments::record_mode(strs::opt_str(mode))
                &&& record || records > 0
            },
            Err(reason) => if safe_text(message@).len() == 0 {
                reason@ == "질문 내용이 비어 있어요."@
            } else {
                &&& !segments::record_mode(strs::opt_str(mode))
                &&& records == 0
                &&& reason@ == "전략자문에 연결된 증거가 없어요."@
            },
        },
{
    let safe = text::trim(&strategy_sanitize_text(&text::trim(message)));
    let record = text::same(normalize_strategy_chat_mode(mode), STRATEGY_CHAT_MODE_RECORD);
    proof {
        reveal_strlit("analysis");
        reveal_strlit("record");
        assert("analysis"@[0] == 'a');
        assert("record"@[0] == 'r');
    }
    if safe.as_str().unicode_len() == 0 {
        return Err("질문 내용이 비어 있어요.".to_owned());
    }
    if !record && records == 0 {
        return Err("전략자문에 연결된 증거가 없어요.".to_owned());
    }
    Ok((safe, record))
}

/// What is reported at the beginning of a chat.
pub fn chat_opening(record: bool, records: usize) -> (r: String)
    ensures
        r@ == if record {
            ("기록모드 요청을 받았어요. 참고 기록 "@ + strs::decimal(records as nat) + "개와 입력 상황을 정리 중이에요."@)
        } else {
            ("전략자문 요청을 받았어요. 연결된 증거 "@ + strs::decimal(records as nat) + "개를 확인 중이에요."@)
        },
{
    let count = text::decimal(records as u64);
    if record {
        let mut out = text::copy("기록모드 요청을 받았어요. 참고 기록 ");
        out.append(&count);
        out.append("개와 입력 상황을 정리 중이에요.");
        out
    } else {
        let mut out = text::copy("전략자문 요청을 받았어요. 연결된 증거 ");
        out.append(&count);
        out.append("개를 확인 중이에요.");
        out
    }
}

/// What is reported of the evidence that was gathered, and of the provisions, if any.
pub fn evidence_report(packet: &StrategyEvidencePacket, retrieval_query: &str) -> (r: (
    String,
    Option<String>,
))
    ensures
        r.0@
            == ("질문 기준으로 핵심 근거 "@ + strs::decimal(packet.evidence_records@.len()) + "건을 골랐어요. 검색 질의는 '"@ + labels::brief(retrieval_query@, 120) + "'예요."@),
        strs::opt_view(r.1) == if packet.legal_references@.len() == 0 {
            None
        } else {
            Some(
                ("사건과 연결되는 법령·조문 "@ + strs::decimal(packet.legal_references@.len()) + "건도 함께 골랐어요."@),
            )
        },
{
    let records: usize = packet.evidence_records.len();
    let laws: usize = packet.legal_references.len();
    let mut first = text::copy("질문 기준으로 핵심 근거 ");
    first.append(&text::decimal(records as u64));
    first.append("건을 골랐어요. 검색 질의는 '");
    first.append(&labels::brief_text(retrieval_query, 120));
    first.append("'예요.");
    if laws == 0 {
        (first, None)
    } else {
        let mut second = text::copy("사건과 연결되는 법령·조문 ");
        second.append(&text::decimal(laws as u64));
        second.append("건도 함께 골랐어요.");
        (first, Some(second))
    }
}

/// A turn, as the identity of a chat takes it in.
pub open spec fn turn_key(t: StrategyChatTurn) -> Seq<char> {
    (t.role@ + ":"@ + strs::first(t.content@, 160))
}

/// What a chat was given, on one line.
pub open spec fn chat_key(
    mode: Seq<char>,
    message: Seq<char>,
    query: Seq<char>,
    note: Option<Seq<char>>,
    history: Seq<StrategyChatTurn>,
) -> Seq<char> {
    (mode + "|"@ + message + "|"@ + query + "|"@ + (match note { Some(s) => s, None => ""@ }) + "|"@ + strs::join(history.map_values(|t: StrategyChatTurn| turn_key(t)), "|"@))
}

/// The hash of what a chat was given.
pub fn chat_prompt_hash(
    mode: &str,
    message: &str,
    retrieval_query: &str,
    strategy_note: Option<&str>,
    conversation: &[StrategyChatTurn],
) -> (r: String)
    ensures
        r@ == strs::hex(
            hashing::default_hash(
                chat_key(
                    mode@,
                    message@,
                    retrieval_query@,
                    strs::opt_str(strategy_note),
                    conversation@,
                ),
            ) as nat,
            16,
        ),
{
    let note = match strategy_note {
        Some(s) => s,
        None => "",
    };
    let mut turns = text::no_texts();
    let mut i: usize = 0;
    let ghost g = |t: StrategyChatTurn| turn_key(t);
    assert(strs::views(turns@) =~= conversation@.take(0).map_values(g));
    while i < conversation.len()
        invariant
            i <= conversation@.len(),
            g == (|t: StrategyChatTurn| turn_key(t)),
            strs::views(turns@) == conversation@.take(i as int).map_values(g),
        decreases conversation@.len() - i,
    {
        let t = &conversation[i];
        let mut line = text::copy(&t.role);
        line.append(":");
        line.append(&strategy_trim(&t.content, 160));
        text::push(&mut turns, line);
        assert(conversation@.take(i + 1).map_values(g) =~= conversation@.take(i as int).map_values(
            g,
        ).push(turn_key(conversation@[i as int])));
        i += 1;
    }
    assert(conversation@.take(i as int) =~= conversation@);
    let joined = text::join(&turns, "|");
    let mut whole = text::copy(mode);
    whole.append("|");
    whole.append(message);
    whole.append("|");
    whole.append(retrieval_query);
    whole.append("|");
    whole.append(note);
    whole.append("|");
    whole.append(&joined);
    strategy_fast_hash_hex(&whole)
}

/// Where a chat stands.
#[derive(Debug, Clone, Copy, PartialEq, Eq, Structural)]
pub enum ChatStep {
    /// The default model writes the record first.
    RecordMain,
    /// The trained model fills the record.
    RecordFill,
    /// The record is rendered without a further model, if that can be done.
    RecordRender,
    /// The default model merges the two records.
    RecordSynthesis,
    /// The default model writes the record once more, after both failed.
    RecordRecovery,
    /// The model that was asked for writes the record.
    RecordSingle,
    /// The record is gone over.
    RecordReview,
    /// The trained model answers alone.
    FastAnswer,
    /// The trained model answers first.
    GeneralDraft,
    /// The default model answers for comparison.
    GeneralCheck,
    /// The trained model merges the two answers.
    GeneralSynthesis,
    /// The model that was asked for answers.
    GeneralSingle,
    /// There is an answer.
    Finished,
    /// There is none.
    Failed,
}

/// How a chat came to its answer.
#[derive(Debug, Clone, Copy, PartialEq, Eq, Structural)]
pub enum Ending {
    Open,
    RecordFast,
    RecordHybrid,
    RecordHyper,
    RecordRoosy,
    RecordRecovered,
    RecordSingle,
    Fast,
    Hybrid,
    RoosyOnly,
    HyperOnly,
    Single,
}

/// A chat on its way.
#[derive(Debug)]
pub struct ChatFlow {
    pub model_id: &'static str,
    pub n_ctx: u32,
    pub max_tokens: u32,
    pub cache: bool,
    pub windows: bool,
    pub step: ChatStep,
    pub ending: Ending,
    pub hyper: Option<StrategyModelExecution>,
    pub roosy: Option<StrategyModelExecution>,
    /// The run whose answer is that of the chat.
    pub main: Option<StrategyModelExecution>,
    pub hyper_error: Option<String>,
    pub roosy_error: Option<String>,
    /// What the last model that failed said.
    pub last_error: Option<String>,
}

/// The first step of a chat.
pub open spec fn first_step(record: bool, hybrid: bool, fast: bool) -> ChatStep {
    if record {
        if hybrid {
            ChatStep::RecordMain
        } else {
            ChatStep::RecordSingle
        }
    } else if hybrid {
        if fast {
            ChatStep::FastAnswer
        } else {
            ChatStep::GeneralDraft
        }
    } else {
        ChatStep::GeneralSingle
    }
}

/// A model is run at the step.
pub open spec fn runs_model(step: ChatStep) -> bool {
    match step {
        ChatStep::RecordRender | ChatStep::RecordReview | ChatStep::Finished | ChatStep::Failed => false,
        _ => true,
    }
}

/// A chat ends with an answer at the step.
pub open spec fn done_with(f: ChatFlow, run: Option<StrategyModelExecution>, step: ChatStep, ending: Ending) -> ChatFlow {
    ChatFlow { main: run, step, ending, ..f }
}

/// The chat after a model was run.
pub open spec fn after_run(f: ChatFlow, result: Result<StrategyModelExecution, String>) -> ChatFlow {
    let run = match result {
        Ok(x) => Some(x),
        Err(_) => None,
    };
    let error = match result {
        Ok(_) => None,
        Err(e) => Some(e),
    };
    match f.step {
        ChatStep::RecordMain => ChatFlow {
            hyper: run,
            hyper_error: error,
            step: ChatStep::RecordFill,
            ..f
        },
        ChatStep::RecordFill => {
            let g = ChatFlow { roosy: run, roosy_error: error, ..f };
            if f.hyper is Some && run is Some {
                ChatFlow {
                    step: if f.cache {
                        ChatStep::RecordRender
                    } else {
                        ChatStep::RecordSynthesis
                    },
                    ..g
                }
            } else if f.hyper is Some {
                done_with(g, f.hyper, ChatStep::RecordReview, Ending::RecordHyper)
            } else if run is Some {
                done_with(g, run, ChatStep::RecordReview, Ending::RecordRoosy)
            } else {
                ChatFlow { step: ChatStep::RecordRecovery, ..g }
            }
        },
        ChatStep::RecordSynthesis => done_with(
            f,
            if run is Some {
                run
            } else {
                f.hyper
            },
            ChatStep::RecordReview,
            Ending::RecordHybrid,
        ),
        ChatStep::RecordRecovery => if run is Some {
            done_with(f, run, ChatStep::RecordReview, Ending::RecordRecovered)
        } else {
            ChatFlow { last_error: error, step: ChatStep::Failed, ..f }
        },
        ChatStep::RecordSingle => if run is Some {
            done_with(f, run, ChatStep::RecordReview, Ending::RecordSingle)
        } else {
            ChatFlow { last_error: error, step: ChatStep::Failed, ..f }
        },
        ChatStep::FastAnswer => if run is Some {
            done_with(f, run, ChatStep::Finished, Ending::Fast)
        } else {
            ChatFlow { last_error: error, step: ChatStep::Failed, ..f }
        },
        ChatStep::GeneralDraft => ChatFlow {
            roosy: run,
            roosy_error: error,
            step: ChatStep::GeneralCheck,
            ..f
        },
        ChatStep::GeneralCheck => {
            let g = ChatFlow { hyper: run, hyper_error: error, ..f };
            if f.roosy is Some && run is Some {
                ChatFlow { step: ChatStep::GeneralSynthesis, ..g }
            } else if f.roosy is Some {
                done_with(g, f.roosy, ChatStep::Finished, Ending::RoosyOnly)
            } else if run is Some {
                done_with(g, run, ChatStep::Finished, Ending::HyperOnly)
            } else {
                ChatFlow { step: ChatStep::Failed, ..g }
            }
        },
        ChatStep::GeneralSynthesis => done_with(
            f,
            if run is Some {
                run
            } else {
                f.roosy
            },
            ChatStep::Finished,
            Ending::Hybrid,
        ),
        ChatStep::GeneralSingle => if run is Some {
            done_with(f, run, ChatStep::Finished, Ending::Single)
        } else {
            ChatFlow { last_error: error, step: ChatStep::Failed, ..f }
        },
        _ => f,
    }
}

/// The chat after it was tried to render the record: it is finished, or the records are merged.
pub open spec fn after_try(f: ChatFlow, rendered: bool) -> ChatFlow {
    if f.step is RecordRender {
        if rendered {
            done_with(f, f.hyper, ChatStep::Finished, Ending::RecordFast)
        } else {
            ChatFlow { step: ChatStep::RecordSynthesis, ..f }
        }
    } else {
        f
    }
}

/// The chat after its record was gone over.
pub open spec fn after_review(f: ChatFlow) -> ChatFlow {
    if f.step is RecordReview {
        ChatFlow { step: ChatStep::Finished, ..f }
    } else {
        f
    }
}

fn copy_run(run: &Option<StrategyModelExecution>) -> (r: Option<StrategyModelExecution>)
    ensures
        r == *run,
{
    match run {
        Some(x) => Some(x.clone()),
        None => None,
    }
}

impl ChatFlow {
    /// What holds of a chat at each step: the runs that the step rests on are there.
    pub open spec fn wf(&self) -> bool {
        match self.step {
            ChatStep::RecordRender | ChatStep::RecordSynthesis => self.hyper is Some
                && self.roosy is Some,
            ChatStep::GeneralSynthesis => self.hyper is Some && self.roosy is Some,
            ChatStep::RecordReview => self.main is Some && self.ending != Ending::Open
                && self.ending_has_runs(),
            ChatStep::Finished => self.main is Some && self.ending != Ending::Open
                && self.ending_has_runs(),
            _ => true,
        }
    }

    /// The runs that are recorded with the answer are there.
    pub open spec fn ending_has_runs(&self) -> bool {
        self.ending is RecordHybrid || self.ending is Hybrid ==> self.hyper is Some
            && self.roosy is Some
    }

    /// The chat, before any model was run.
    pub fn start(settings: &ChatSettings, record: bool, message: &str, windows: bool) -> (r: Self)
        ensures
            r.wf(),
            r.model_id@ == settings.model_id@,
            r.n_ctx == settings.n_ctx,
            r.max_tokens == settings.max_tokens,
            r.cache == settings.cache,
            r.windows == windows,
            r.step == first_step(
                record,
                settings.model_id@ == STRATEGY_MODEL_HYBRID_ID@,
                questions::route_of(message@) is FastRoosy,
            ),
            r.ending == Ending::Open,
            r.hyper is None,
            r.roosy is None,
            r.main is None,
            r.hyper_error is None,
            r.roosy_error is None,
            r.last_error is None,
    {
        let hybrid = text::same(settings.model_id, STRATEGY_MODEL_HYBRID_ID);
        let fast = match strategy_question_route(message) {
            StrategyQuestionRoute::FastRoosy => true,
            _ => false,
        };
        let step = if record {
            if hybrid {
                ChatStep::RecordMain
            } else {
                ChatStep::RecordSingle
            }
        } else if hybrid {
            if fast {
                ChatStep::FastAnswer
            } else {
                ChatStep::GeneralDraft
            }
        } else {
            ChatStep::GeneralSingle
        };
        ChatFlow {
            model_id: settings.model_id,
            n_ctx: settings.n_ctx,
            max_tokens: settings.max_tokens,
            cache: settings.cache,
            windows,
            step,
            ending: Ending::Open,
            hyper: None,
            roosy: None,
            main: None,
            hyper_error: None,
            roosy_error: None,
            last_error: None,
        }
    }

    /// Takes what came of running a model.
    pub fn take_run(self, result: Result<StrategyModelExecution, String>) -> (r: Self)
        requires
            self.wf(),
            runs_model(self.step),
        ensures
            r.wf(),
            r == after_run(self, result),
    {
        let (run, error) = match result {
            Ok(x) => (Some(x), None),
            Err(e) => (None, Some(e)),
        };
        match self.step {
            ChatStep::RecordMain => ChatFlow {
                hyper: run,
                hyper_error: error,
                step: ChatStep::RecordFill,
                ..self
            },
            ChatStep::RecordFill => {
                if self.hyper.is_some() && run.is_some() {
                    let step = if self.cache {
                        ChatStep::RecordRender
                    } else {
                        ChatStep::RecordSynthesis
                    };
                    ChatFlow { roosy: run, roosy_error: error, step, ..self }
                } else if self.hyper.is_some() {
                    let main = copy_run(&self.hyper);
                    ChatFlow {
                        roosy: run,
                        roosy_error: error,
                        main,
                        step: ChatStep::RecordReview,
                        ending: Ending::RecordHyper,
                        ..self
                    }
                } else if run.is_some() {
                    let main = copy_run(&run);
                    ChatFlow {
                        roosy: run,
                        roosy_error: error,
                        main,
                        step: ChatStep::RecordReview,
                        ending: Ending::RecordRoosy,
                        ..self
                    }
                } else {
                    ChatFlow {
                        roosy: run,
                        roosy_error: error,
                        step: ChatStep::RecordRecovery,
                        ..self
                    }
                }
            },
            ChatStep::RecordSynthesis => {
                let main = if run.is_some() {
                    run
                } else {
                    copy_run(&self.hyper)
                };
                ChatFlow {
                    main,
                    step: ChatStep::RecordReview,
                    ending: Ending::RecordHybrid,
                    ..self
                }
            },
            ChatStep::RecordRecovery => Self::finish_or_fail(
                self,
                run,
                error,
                ChatStep::RecordReview,
                Ending::RecordRecovered,
            ),
            ChatStep::RecordSingle => Self::finish_or_fail(
                self,
                run,
                error,
                ChatStep::RecordReview,
                Ending::RecordSingle,
            ),
            ChatStep::FastAnswer => Self::finish_or_fail(
                self,
                run,
                error,
                ChatStep::Finished,
                Ending::Fast,
            ),
            ChatStep::GeneralDraft => ChatFlow {
                roosy: run,
                roosy_error: error,
                step: ChatStep::GeneralCheck,
                ..self
            },
            ChatStep::GeneralCheck => {
                if self.roosy.is_some() && run.is_some() {
                    ChatFlow {
                        hyper: run,
                        hyper_error: error,
                        step: ChatStep::GeneralSynthesis,
                        ..self
                    }
                } else if self.roosy.is_some() {
                    let main = copy_run(&self.roosy);
                    ChatFlow {
                        hyper: run,
                        hyper_error: error,
                        main,
                        step: ChatStep::Finished,
                        ending: Ending::RoosyOnly,
                        ..self
                    }
                } else if run.is_some() {
                    let main = copy_run(&run);
                    ChatFlow {
                        hyper: run,
                        hyper_error: error,
                        main,
                        step: ChatStep::Finished,
                        ending: Ending::HyperOnly,
                        ..self
                    }
                } else {
                    ChatFlow { hyper: run, hyper_error: error, step: ChatStep::Failed, ..self }
                }
            },
            ChatStep::GeneralSynthesis => {
                let main = if run.is_some() {
                    run
                } else {
                    copy_run(&self.roosy)
                };
                ChatFlow { main, step: ChatStep::Finished, ending: Ending::Hybrid, ..self }
            },
            _ => Self::finish_or_fail(self, run, error, ChatStep::Finished, Ending::Single),
        }
    }

    fn finish_or_fail(
        flow: ChatFlow,
        run: Option<StrategyModelExecution>,
        error: Option<String>,
        step: ChatStep,
        ending: Ending,
    ) -> (r: ChatFlow)
        ensures
            r == if run is Some {
                done_with(flow, run, step, ending)
            } else {
                ChatFlow { last_error: error, step: ChatStep::Failed, ..flow }
            },
    {
        if run.is_some() {
            ChatFlow { main: run, step, ending, ..flow }
        } else {
            ChatFlow { last_error: error, step: ChatStep::Failed, ..flow }
        }
    }

    /// Takes whether the record could be rendered without a further model.
    pub fn take_rendered(self, rendered: bool) -> (r: Self)
        requires
            self.wf(),
            self.step is RecordRender,
        ensures
            r.wf(),
            r == after_try(self, rendered),
    {
        if rendered {
            let main = copy_run(&self.hyper);
            ChatFlow { main, step: ChatStep::Finished, ending: Ending::RecordFast, ..self }
        } else {
            ChatFlow { step: ChatStep::RecordSynthesis, ..self }
        }
    }

    /// Takes that the record was gone over.
    pub fn take_review(self) -> (r: Self)
        requires
            self.wf(),
            self.step is RecordReview,
        ensures
            r.wf(),
            r == after_review(self),
    {
        ChatFlow { step: ChatStep::Finished, ..self }
    }
}

/// How many steps are left to a chat, at most.
pub open spec fn chat_rank(step: ChatStep) -> nat {
    match step {
        ChatStep::RecordMain => 5,
        ChatStep::RecordFill => 4,
        ChatStep::RecordRender => 3,
        ChatStep::RecordSynthesis | ChatStep::RecordRecovery | ChatStep::RecordSingle => 2,
        ChatStep::RecordReview => 1,
        ChatStep::GeneralDraft => 3,
        ChatStep::GeneralCheck => 2,
        ChatStep::GeneralSynthesis | ChatStep::FastAnswer | ChatStep::GeneralSingle => 1,
        ChatStep::Finished | ChatStep::Failed => 0,
    }
}

/// Every step leads on: a chat comes to its end, after at most five steps.
pub proof fn a_chat_comes_to_its_end(
    f: ChatFlow,
    result: Result<StrategyModelExecution, String>,
    rendered: bool,
)
    ensures
        chat_rank(f.step) <= 5,
        runs_model(f.step) ==> chat_rank(after_run(f, result).step) < chat_rank(f.step),
        f.step is RecordRender ==> chat_rank(after_try(f, rendered).step) < chat_rank(f.step),
        f.step is RecordReview ==> chat_rank(after_review(f).step) < chat_rank(f.step),
{
}

/// Once a model has answered, the chat does not fail any more, whatever comes of the others.
pub proof fn an_answer_is_never_lost(f: ChatFlow, result: Result<StrategyModelExecution, String>)
    requires
        f.wf(),
        runs_model(f.step),
        f.step is RecordFill ==> f.hyper is Some,
        f.step is GeneralCheck ==> f.roosy is Some,
        f.step is RecordFill || f.step is GeneralCheck || f.step is RecordSynthesis
            || f.step is GeneralSynthesis,
    ensures
        !(after_run(f, result).step is Failed),
{
}

/// A chat that fails has no answer of any model that it asked last.
pub proof fn a_chat_fails_only_without_an_answer(
    f: ChatFlow,
    result: Result<StrategyModelExecution, String>,
)
    requires
        f.wf(),
        runs_model(f.step),
        after_run(f, result).step is Failed,
    ensures
        result is Err,
        f.step is GeneralCheck ==> f.roosy is None,
{
}

/// What the models of a chat are asked about.
pub struct ChatInputs<'a> {
    pub template: &'a StrategyRecordModeTemplate,
    pub packet: &'a StrategyEvidencePacket,
    pub case_item: Option<&'a CaseItem>,
    pub message: &'a str,
    pub note: Option<&'a str>,
    pub conversation: &'a [StrategyChatTurn],
}

/// The answer of a run, if there is one.
pub open spec fn answer_of(run: Option<StrategyModelExecution>) -> Seq<char> {
    match run {
        Some(x) => x.answer@,
        None => ""@,
    }
}

/// A number, not below a bound.
pub open spec fn floor_at(n: u32, low: u32) -> u32 {
    if n < low {
        low
    } else {
        n
    }
}

fn floored(n: u32, low: u32) -> (r: u32)
    ensures
        r == floor_at(n, low),
{
    if n < low {
        low
    } else {
        n
    }
}

/// A number cut from above, then not below a bound.
pub open spec fn cut(n: u32, high: u32, low: u32) -> u32 {
    floor_at(
        if n > high {
            high
        } else {
            n
        },
        low,
    )
}

fn cut_of(n: u32, high: u32, low: u32) -> (r: u32)
    ensures
        r == cut(n, high, low),
{
    floored(
        if n > high {
            high
        } else {
            n
        },
        low,
    )
}

/// How long a merged answer may be: a little longer than one, within bounds.
pub open spec fn merged_tokens(n: u32, low: u32) -> u32 {
    if n + 120 < low {
        low
    } else if n + 120 > 768 {
        768
    } else {
        (n + 120) as u32
    }
}

fn merged_tokens_of(n: u32, low: u32) -> (r: u32)
    ensures
        r == merged_tokens(n, low),
{
    let sum: u64 = n as u64 + 120;
    if sum < low as u64 {
        low
    } else if sum > 768 {
        768
    } else {
        sum as u32
    }
}

/// The prompt of the record.
pub open spec fn plain_record_prompt(x: ChatInputs) -> Seq<char> {
    prompts::record_prompt(
        *x.template,
        *x.packet,
        labels::deref_case(x.case_item),
        x.message@,
        strs::opt_str(x.note),
        x.conversation@,
    )
}

/// The prompt of the answer.
pub open spec fn plain_prompt(x: ChatInputs) -> Seq<char> {
    prompts::user_prompt(
        *x.packet,
        labels::deref_case(x.case_item),
        x.message@,
        strs::opt_str(x.note),
        x.conversation@,
    )
}

/// The window of a draft of an answer.
pub open spec fn draft_window(n_ctx: u32) -> u32 {
    perf::within(n_ctx, 2560, 3584)
}

/// What a model is run for at a step.
pub open spec fn wanted(f: ChatFlow, x: ChatInputs) -> Option<Wanted> {
    let case = labels::deref_case(x.case_item);
    let note = strs::opt_str(x.note);
    let base = Wanted {
        model_id: STRATEGY_MODEL_DEFAULT_ID@,
        stage: HybridStage::RecordMain,
        system: prompts::RECORD_SYSTEM_PROMPT@,
        user: plain_record_prompt(x),
        n_ctx: floor_at(draft_window(f.n_ctx), 3328),
        max_tokens: cut(f.max_tokens, 760, 640),
        label: "초안1"@,
        cache: f.cache,
        prefix: None,
    };
    match f.step {
        ChatStep::RecordMain => Some(base),
        ChatStep::RecordFill => Some(
            Wanted {
                model_id: STRATEGY_MODEL_ROOSY_ID@,
                stage: HybridStage::RecordFill,
                user: match f.hyper {
                    Some(hyper) => prompts::fill_prompt(
                        *x.template,
                        *x.packet,
                        case,
                        x.message@,
                        note,
                        hyper.answer@,
                    ),
                    None => plain_record_prompt(x),
                },
                max_tokens: cut(f.max_tokens, 700, 560),
                label: "초안2"@,
                ..base
            },
        ),
        ChatStep::RecordSynthesis => Some(
            Wanted {
                stage: HybridStage::RecordSynthesis,
                system: prompts::RECORD_HYBRID_SYSTEM_PROMPT@,
                user: prompts::record_hybrid_prompt(
                    *x.template,
                    *x.packet,
                    case,
                    x.message@,
                    note,
                    answer_of(f.hyper),
                    answer_of(f.roosy),
                ),
                n_ctx: floor_at(f.n_ctx, 3584),
                max_tokens: merged_tokens(f.max_tokens, 700),
                label: "합성"@,
                ..base
            },
        ),
        ChatStep::RecordRecovery => Some(
            Wanted {
                stage: HybridStage::RecordRecovery,
                n_ctx: floor_at(f.n_ctx, 3328),
                max_tokens: floor_at(f.max_tokens, 620),
                label: "복구초안"@,
                cache: false,
                ..base
            },
        ),
        ChatStep::RecordSingle => Some(
            Wanted {
                model_id: f.model_id@,
                max_tokens: floor_at(f.max_tokens, 620),
                label: "기록초안"@,
                ..base
            },
        ),
        ChatStep::FastAnswer => Some(
            Wanted {
                model_id: STRATEGY_MODEL_ROOSY_ID@,
                stage: HybridStage::FastRoosy,
                system: prompts::SYSTEM_PROMPT@,
                user: plain_prompt(x),
                n_ctx: draft_window(f.n_ctx),
                max_tokens: cut(f.max_tokens, 640, 280),
                label: "빠른실행"@,
                ..base
            },
        ),
        ChatStep::GeneralDraft => Some(
            Wanted {
                model_id: STRATEGY_MODEL_ROOSY_ID@,
                stage: HybridStage::GeneralDraft,
                system: prompts::SYSTEM_PROMPT@,
                user: plain_prompt(x),
                n_ctx: draft_window(f.n_ctx),
                max_tokens: cut(f.max_tokens, 640, 420),
                ..base
            },
        ),
        ChatStep::GeneralCheck => Some(
            Wanted {
                stage: HybridStage::GeneralMain,
                system: prompts::SYSTEM_PROMPT@,
                user: prompts::draft_prompt(*x.packet, case, x.message@, note),
                n_ctx: draft_window(f.n_ctx),
                max_tokens: cut(f.max_tokens, 520, 320),
                label: "초안2"@,
                ..base
            },
        ),
        ChatStep::GeneralSynthesis => Some(
            Wanted {
                model_id: STRATEGY_MODEL_ROOSY_ID@,
                stage: HybridStage::GeneralSynthesis,
                system: prompts::HYBRID_SYSTEM_PROMPT@,
                user: prompts::hybrid_prompt(
                    *x.packet,
                    case,
                    x.message@,
                    note,
                    answer_of(f.hyper),
                    answer_of(f.roosy),
                ),
                n_ctx: f.n_ctx,
                max_tokens: merged_tokens(f.max_tokens, 620),
                label: "합성"@,
                ..base
            },
        ),
        ChatStep::GeneralSingle => Some(
            Wanted {
                model_id: f.model_id@,
                stage: HybridStage::GeneralMain,
                system: prompts::SYSTEM_PROMPT@,
                user: plain_prompt(x),
                n_ctx: f.n_ctx,
                max_tokens: f.max_tokens,
                label: "실행"@,
                ..base
            },
        ),
        _ => None,
    }
}

/// The view of a request, if there is one.
pub open spec fn opt_wanted(r: Option<StageRequest>) -> Option<Wanted> {
    match r {
        Some(q) => Some(q@),
        None => None,
    }
}

fn answer_text<'a>(run: &'a Option<StrategyModelExecution>) -> (r: &'a str)
    ensures
        r@ == answer_of(*run),
{
    match run {
        Some(x) => x.answer.as_str(),
        None => "",
    }
}

fn record_user_prompt(x: &ChatInputs) -> (r: String)
    ensures
        r@ == plain_record_prompt(*x),
{
    build_strategy_record_user_prompt(
        x.template,
        x.packet,
        x.case_item,
        x.message,
        x.note,
        x.conversation,
    )
}

fn user_prompt_of(x: &ChatInputs) -> (r: String)
    ensures
        r@ == plain_prompt(*x),
{
    build_strategy_user_prompt(x.packet, x.case_item, x.message, x.note, x.conversation)
}

/// What a model is run for at a step; nothing where none is run.
pub fn chat_stage_request(f: &ChatFlow, x: &ChatInputs) -> (r: Option<StageRequest>)
    ensures
        opt_wanted(r) == wanted(*f, *x),
{
    let drafted: u32 = strategy_hybrid_draft_n_ctx(f.n_ctx);
    match f.step {
        ChatStep::RecordMain => Some(
            StageRequest {
                model_id: STRATEGY_MODEL_DEFAULT_ID,
                stage: HybridStage::RecordMain,
                system_prompt: build_strategy_record_system_prompt(),
                user_prompt: record_user_prompt(x),
                n_ctx: floored(drafted, 3328),
                max_tokens: cut_of(f.max_tokens, 760, 640),
                label: "초안1",
                cache: f.cache,
                prefix: None,
            },
        ),
        ChatStep::RecordFill => {
            let user_prompt = match &f.hyper {
                Some(hyper) => build_strategy_record_fill_user_prompt(
                    x.template,
                    x.packet,
                    x.case_item,
                    x.message,
                    x.note,
                    &hyper.answer,
                ),
                None => record_user_prompt(x),
            };
            Some(
                StageRequest {
                    model_id: STRATEGY_MODEL_ROOSY_ID,
                    stage: HybridStage::RecordFill,
                    system_prompt: build_strategy_record_system_prompt(),
                    user_prompt,
                    n_ctx: floored(drafted, 3328),
                    max_tokens: cut_of(f.max_tokens, 700, 560),
                    label: "초안2",
                    cache: f.cache,
                    prefix: None,
                },
            )
        },
        ChatStep::RecordSynthesis => Some(
            StageRequest {
                model_id: STRATEGY_MODEL_DEFAULT_ID,
                stage: HybridStage::RecordSynthesis,
                system_prompt: build_strategy_record_hybrid_system_prompt(),
                user_prompt: build_strategy_record_hybrid_user_prompt(
                    x.template,
                    x.packet,
                    x.case_item,
                    x.message,
                    x.note,
                    answer_text(&f.hyper),
                    answer_text(&f.roosy),
                ),
                n_ctx: floored(f.n_ctx, 3584),
                max_tokens: merged_tokens_of(f.max_tokens, 700),
                label: "합성",
                cache: f.cache,
                prefix: None,
            },
        ),
        ChatStep::RecordRecovery => Some(
            StageRequest {
                model_id: STRATEGY_MODEL_DEFAULT_ID,
                stage: HybridStage::RecordRecovery,
                system_prompt: build_strategy_record_system_prompt(),
                user_prompt: record_user_prompt(x),
                n_ctx: floored(f.n_ctx, 3328),
                max_tokens: floored(f.max_tokens, 620),
                label: "복구초안",
                cache: false,
                prefix: None,
            },
        ),
        ChatStep::RecordSingle => Some(
            StageRequest {
                model_id: f.model_id,
                stage: HybridStage::RecordMain,
                system_prompt: build_strategy_record_system_prompt(),
                user_prompt: record_user_prompt(x),
                n_ctx: floored(drafted, 3328),
                max_tokens: floored(f.max_tokens, 620),
                label: "기록초안",
                cache: f.cache,
                prefix: None,
            },
        ),
        ChatStep::FastAnswer => Some(
            StageRequest {
                model_id: STRATEGY_MODEL_ROOSY_ID,
                stage: HybridStage::FastRoosy,
                system_prompt: build_strategy_system_prompt(),
                user_prompt: user_prompt_of(x),
                n_ctx: drafted,
                max_tokens: cut_of(f.max_tokens, 640, 280),
                label: "빠른실행",
                cache: f.cache,
                prefix: None,
            },
        ),
        ChatStep::GeneralDraft => Some(
            StageRequest {
                model_id: STRATEGY_MODEL_ROOSY_ID,
                stage: HybridStage::GeneralDraft,
                system_prompt: build_strategy_system_prompt(),
                user_prompt: user_prompt_of(x),
                n_ctx: drafted,
                max_tokens: cut_of(f.max_tokens, 640, 420),
                label: "초안1",
                cache: f.cache,
                prefix: None,
            },
        ),
        ChatStep::GeneralCheck => Some(
            StageRequest {
                model_id: STRATEGY_MODEL_DEFAULT_ID,
                stage: HybridStage::GeneralMain,
                system_prompt: build_strategy_system_prompt(),
                user_prompt: build_strategy_user_prompt_for_draft(
                    x.packet,
                    x.case_item,
                    x.message,
                    x.note,
                ),
                n_ctx: drafted,
                max_tokens: cut_of(f.max_tokens, 520, 320),
                label: "초안2",
                cache: f.cache,
                prefix: None,
            },
        ),
        ChatStep::GeneralSynthesis => Some(
            StageRequest {
                model_id: STRATEGY_MODEL_ROOSY_ID,
                stage: HybridStage::GeneralSynthesis,
                system_prompt: build_strategy_hybrid_system_prompt(),
                user_prompt: build_strategy_hybrid_user_prompt(
                    x.packet,
                    x.case_item,
                    x.message,
                    x.note,
                    answer_text(&f.hyper),
                    answer_text(&f.roosy),
                ),
                n_ctx: f.n_ctx,
                max_tokens: merged_tokens_of(f.max_tokens, 620),
                label: "합성",
                cache: f.cache,
                prefix: None,
            },
        ),
        ChatStep::GeneralSingle => Some(
            StageRequest {
                model_id: f.model_id,
                stage: HybridStage::GeneralMain,
                system_prompt: build_strategy_system_prompt(),
                user_prompt: user_prompt_of(x),
                n_ctx: f.n_ctx,
                max_tokens: f.max_tokens,
                label: "실행",
                cache: f.cache,
                prefix: None,
            },
        ),
        _ => None,
    }
}

/// What is reported before a step: a place and a line.
pub open spec fn step_lines(f: ChatFlow) -> Seq<(Seq<char>, Seq<char>)> {
    match f.step {
        ChatStep::RecordMain => seq![
            (
                "라우팅"@,
                "기록모드는 빠른캡쳐 형식을 유지하되, 사건 흐름이 충분히 남도록 기록 전용 경로로 정리할게요."@,
            ),
            (
                "준비"@,
                "HyperCLOVA-X가 사건 흐름과 누락 포인트를 먼저 촘촘히 구조화하고, Roosy-X가 읽기 흐름과 실무 표현만 보조할게요."@,
            ),
        ],
        ChatStep::RecordSingle => seq![
            (
                "라우팅"@,
                "기록모드는 빠른캡쳐 형식을 유지하되, 사건 흐름이 충분히 남도록 기록 전용 경로로 정리할게요."@,
            ),
        ],
        ChatStep::RecordSynthesis => seq![
            (
                "합성"@,
                "HyperCLOVA-X 초안을 중심으로 유지하고, Roosy-X는 문장 흐름과 읽기 편한 표현만 보강해 최종 기록으로 묶을게요."@,
            ),
        ],
        ChatStep::RecordRecovery => seq![
            (
                "복구초안"@,
                "하이브리드 초안 두 개가 모두 흔들려서 HyperCLOVA-X 단일 기록 초안으로 한 번 더 복구 시도할게요."@,
            ),
        ],
        ChatStep::FastAnswer => seq![
            (
                "라우팅"@,
                "이번 질문은 짧은 확인성 대화라 Roosy-X 단일 경로로 빠르게 정리할게요."@,
            ),
        ],
        ChatStep::GeneralDraft => seq![
            (
                "라우팅"@,
                "이번 질문은 비교·민원문구·법령 연결 성격이 있어 하이브리드 전체를 돌릴게요."@,
            ),
            (
                "준비"@,
                "Roosy-X 1차 초안에 사건 맥락을 충분히 먹이고, HyperCLOVA-X가 균형 검토한 뒤 최종 정리를 붙일게요."@,
            ),
        ],
        ChatStep::GeneralCheck => match f.roosy {
            Some(roosy) => seq![
                (
                    "초안공유"@,
                    ("1차 초안 포인트: "@ + strs::first(strs::replace(roosy.answer@, "\n"@, " "@), 150)),
                ),
            ],
            None => Seq::empty(),
        },
        ChatStep::GeneralSynthesis => seq![
            (
                "합성"@,
                "Roosy-X 초안을 바탕으로 가되, HyperCLOVA-X의 근거·균형 검토를 반영해 최종 답변으로 묶을게요."@,
            ),
        ],
        _ => Seq::empty(),
    }
}

fn push_line(list: &mut Vec<(String, String)>, place: &str, line: &str)
    ensures
        segments::pair_views(final(list)@) == segments::pair_views(old(list)@).push(
            (place@, line@),
        ),
{
    list.push((place.to_owned(), line.to_owned()));
    assert(segments::pair_views(list@) =~= segments::pair_views(old(list)@).push((place@, line@)));
}

/// What is reported before a step: places and lines.
pub fn chat_step_report(f: &ChatFlow) -> (r: Vec<(String, String)>)
    ensures
        segments::pair_views(r@) == step_lines(*f),
{
    let mut out: Vec<(String, String)> = Vec::new();
    assert(segments::pair_views(out@) =~= Seq::empty());
    match f.step {
        ChatStep::RecordMain => {
            push_line(
                &mut out,
                "라우팅",
                "기록모드는 빠른캡쳐 형식을 유지하되, 사건 흐름이 충분히 남도록 기록 전용 경로로 정리할게요.",
            );
            push_line(
                &mut out,
                "준비",
                "HyperCLOVA-X가 사건 흐름과 누락 포인트를 먼저 촘촘히 구조화하고, Roosy-X가 읽기 흐름과 실무 표현만 보조할게요.",
            );
        },
        ChatStep::RecordSingle => {
            push_line(
                &mut out,
                "라우팅",
                "기록모드는 빠른캡쳐 형식을 유지하되, 사건 흐름이 충분히 남도록 기록 전용 경로로 정리할게요.",
            );
        },
        ChatStep::RecordSynthesis => {
            push_line(
                &mut out,
                "합성",
                "HyperCLOVA-X 초안을 중심으로 유지하고, Roosy-X는 문장 흐름과 읽기 편한 표현만 보강해 최종 기록으로 묶을게요.",
            );
        },
        ChatStep::RecordRecovery => {
            push_line(
                &mut out,
                "복구초안",
                "하이브리드 초안 두 개가 모두 흔들려서 HyperCLOVA-X 단일 기록 초안으로 한 번 더 복구 시도할게요.",
            );
        },
        ChatStep::FastAnswer => {
            push_line(
                &mut out,
                "라우팅",
                "이번 질문은 짧은 확인성 대화라 Roosy-X 단일 경로로 빠르게 정리할게요.",
            );
        },
        ChatStep::GeneralDraft => {
            push_line(
                &mut out,
                "라우팅",
                "이번 질문은 비교·민원문구·법령 연결 성격이 있어 하이브리드 전체를 돌릴게요.",
            );
            push_line(
                &mut out,
                "준비",
                "Roosy-X 1차 초안에 사건 맥락을 충분히 먹이고, HyperCLOVA-X가 균형 검토한 뒤 최종 정리를 붙일게요.",
            );
        },
        ChatStep::GeneralCheck => {
            if let Some(roosy) = &f.roosy {
                proof {
                    reveal_strlit("\n");
                }
                let flat = text::replace(&roosy.answer, "\n", " ");
                let mut line = text::copy("1차 초안 포인트: ");
                line.append(&strategy_trim(&flat, 150));
                push_line(&mut out, "초안공유", &line);
            }
        },
        ChatStep::GeneralSynthesis => {
            push_line(
                &mut out,
                "합성",
                "Roosy-X 초안을 바탕으로 가되, HyperCLOVA-X의 근거·균형 검토를 반영해 최종 답변으로 묶을게요.",
            );
        },
        _ => {},
    }
    assert(segments::pair_views(out@) =~= step_lines(*f));
    out
}

/// What is reported where the model of a step failed and the chat goes on.
pub open spec fn failure_line(step: ChatStep, error: Seq<char>) -> Option<Seq<char>> {
    let short = strs::first(error, 220);
    match step {
        ChatStep::RecordMain => Some(
            ("HyperCLOVA-X 기록 초안이 잠시 흔들렸어요. "@ + short),
        ),
        ChatStep::RecordFill => Some(("Roosy-X 기록 초안이 잠시 흔들렸어요. "@ + short)),
        ChatStep::RecordSynthesis => Some(
            ("최종 기록 합성이 흔들려서 HyperCLOVA-X 초안을 우선 보여드릴게요. "@ + short),
        ),
        ChatStep::GeneralDraft => Some(("Roosy-X 초안이 잠시 흔들렸어요. "@ + short)),
        ChatStep::GeneralCheck => Some(
            ("HyperCLOVA-X 검토 초안이 잠시 흔들렸어요. "@ + short),
        ),
        ChatStep::GeneralSynthesis => Some(
            ("최종 합성 단계가 흔들려서 Roosy-X 초안을 우선 보여드릴게요. "@ + short),
        ),
        _ => None,
    }
}

/// What is reported where the model of a step failed and the chat goes on.
pub fn chat_failure_report(step: ChatStep, error: &str) -> (r: Option<String>)
    ensures
        strs::opt_view(r) == failure_line(step, error@),
{
    let short = strategy_trim(error, 220);
    match step {
        ChatStep::RecordMain => {
            let mut line = text::copy("HyperCLOVA-X 기록 초안이 잠시 흔들렸어요. ");
            line.append(&short);
            Some(line)
        },
        ChatStep::RecordFill => {
            let mut line = text::copy("Roosy-X 기록 초안이 잠시 흔들렸어요. ");
            line.append(&short);
            Some(line)
        },
        ChatStep::RecordSynthesis => {
            let mut line = text::copy("최종 기록 합성이 흔들려서 HyperCLOVA-X 초안을 우선 보여드릴게요. ");
            line.append(&short);
            Some(line)
        },
        ChatStep::GeneralDraft => {
            let mut line = text::copy("Roosy-X 초안이 잠시 흔들렸어요. ");
            line.append(&short);
            Some(line)
        },
        ChatStep::GeneralCheck => {
            let mut line = text::copy("HyperCLOVA-X 검토 초안이 잠시 흔들렸어요. ");
            line.append(&short);
            Some(line)
        },
        ChatStep::GeneralSynthesis => {
            let mut line = text::copy("최종 합성 단계가 흔들려서 Roosy-X 초안을 우선 보여드릴게요. ");
            line.append(&short);
            Some(line)
        },
        _ => None,
    }
}

/// A text, or nothing.
pub open spec fn or_nothing(s: Option<String>) -> Seq<char> {
    match s {
        Some(t) => t@,
        None => ""@,
    }
}

/// Why a chat failed.
pub open spec fn chat_failure(f: ChatFlow, at: ChatStep) -> Seq<char> {
    match at {
        ChatStep::RecordRecovery => {
            let detail =
                ("초안1: "@ + strs::first(or_nothing(f.hyper_error), 180) + " / 초안2: "@ + strs::first(or_nothing(f.roosy_error), 180) + " / 복구초안: "@ + strs::first(or_nothing(f.last_error), 220));
            if f.windows {
                "기록모드 초안 두 개를 모두 만들지 못했어요. 먼저 AI 모델 다운로드와 sidecar 상태를 함께 확인해주세요. "@
                    + detail
            } else {
                "기록모드 초안 두 개를 모두 만들지 못했어요. 번들된 모델 파일과 sidecar 상태를 함께 확인해주세요. "@
                    + detail
            }
        },
        ChatStep::GeneralCheck => if f.windows {
            "ROOSY-Hybrid 초안 두 개를 모두 만들지 못했어요. 먼저 AI 모델 다운로드가 완료됐는지, 그리고 sidecar가 정상인지 함께 확인해주세요."@
        } else {
            "ROOSY-Hybrid 초안 두 개를 모두 만들지 못했어요. 번들된 모델 파일과 sidecar 상태를 함께 확인해주세요."@
        },
        _ => or_nothing(f.last_error),
    }
}

fn text_or_nothing<'a>(s: &'a Option<String>) -> (r: &'a str)
    ensures
        r@ == or_nothing(*s),
{
    match s {
        Some(t) => t.as_str(),
        None => "",
    }
}

/// Why a chat failed at a step.
pub fn chat_failure_text(f: &ChatFlow, at: ChatStep) -> (r: String)
    ensures
        r@ == chat_failure(*f, at),
{
    match at {
        ChatStep::RecordRecovery => {
            let mut detail = text::copy("초안1: ");
            detail.append(&strategy_trim(text_or_nothing(&f.hyper_error), 180));
            detail.append(" / 초안2: ");
            detail.append(&strategy_trim(text_or_nothing(&f.roosy_error), 180));
            detail.append(" / 복구초안: ");
            detail.append(&strategy_trim(text_or_nothing(&f.last_error), 220));
            let mut out = if f.windows {
                "기록모드 초안 두 개를 모두 만들지 못했어요. 먼저 AI 모델 다운로드와 sidecar 상태를 함께 확인해주세요. ".to_owned()
            } else {
                "기록모드 초안 두 개를 모두 만들지 못했어요. 번들된 모델 파일과 sidecar 상태를 함께 확인해주세요. ".to_owned()
            };
            out.append(&detail);
            out
        },
        ChatStep::GeneralCheck => {
            if f.windows {
                "ROOSY-Hybrid 초안 두 개를 모두 만들지 못했어요. 먼저 AI 모델 다운로드가 완료됐는지, 그리고 sidecar가 정상인지 함께 확인해주세요.".to_owned()
            } else {
                "ROOSY-Hybrid 초안 두 개를 모두 만들지 못했어요. 번들된 모델 파일과 sidecar 상태를 함께 확인해주세요.".to_owned()
            }
        },
        _ => text_or_nothing(&f.last_error).to_owned(),
    }
}

/// What the answer of a chat is said to come from.
pub open spec fn source_label(ending: Ending, main: StrategyModelExecution) -> Seq<char> {
    match ending {
        Ending::RecordFast => "ROOSY-Hybrid (PrefixKV+TemplateRenderer fast path)"@,
        Ending::RecordHybrid => "ROOSY-Hybrid (HyperCLOVA-X 중심 + Roosy-X 보조 record draft)"@,
        Ending::RecordHyper => "ROOSY-Hybrid (HyperCLOVA-X record fallback)"@,
        Ending::RecordRoosy => "ROOSY-Hybrid (Roosy-X record fallback)"@,
        Ending::RecordRecovered => "HyperCLOVA-X record recovery fallback"@,
        Ending::Fast => "ROOSY-Hybrid (Roosy fast path)"@,
        Ending::Hybrid => "ROOSY-Hybrid (Roosy-X + HyperCLOVA-X)"@,
        Ending::RoosyOnly => "ROOSY-Hybrid (Roosy-X fallback)"@,
        Ending::HyperOnly => "ROOSY-Hybrid (HyperCLOVA-X fallback)"@,
        _ => main.model_path@,
    }
}

fn source_of(ending: Ending, main: &StrategyModelExecution) -> (r: String)
    ensures
        r@ == source_label(ending, *main),
{
    match ending {
        Ending::RecordFast => "ROOSY-Hybrid (PrefixKV+TemplateRenderer fast path)".to_owned(),
        Ending::RecordHybrid => "ROOSY-Hybrid (HyperCLOVA-X 중심 + Roosy-X 보조 record draft)".to_owned(),
        Ending::RecordHyper => "ROOSY-Hybrid (HyperCLOVA-X record fallback)".to_owned(),
        Ending::RecordRoosy => "ROOSY-Hybrid (Roosy-X record fallback)".to_owned(),
        Ending::RecordRecovered => "HyperCLOVA-X record recovery fallback".to_owned(),
        Ending::Fast => "ROOSY-Hybrid (Roosy fast path)".to_owned(),
        Ending::Hybrid => "ROOSY-Hybrid (Roosy-X + HyperCLOVA-X)".to_owned(),
        Ending::RoosyOnly => "ROOSY-Hybrid (Roosy-X fallback)".to_owned(),
        Ending::HyperOnly => "ROOSY-Hybrid (HyperCLOVA-X fallback)".to_owned(),
        _ => main.model_path.clone(),
    }
}

/// What is reported at the end of a chat.
pub open spec fn closing_line(ending: Ending, answer: Seq<char>) -> Seq<char> {
    let chars = strs::decimal(answer.len());
    match ending {
        Ending::RecordFast =>
            "HyperCLOVA-X 초안만으로 충분해 캐시모드 빠른 경로로 바로 기록 생성을 마쳤어요."@,
        Ending::RecordHyper =>
            "Roosy-X 초안이 비어 있어 HyperCLOVA-X 기반 기록 초안을 먼저 정리했어요."@,
        Ending::RecordRoosy =>
            "HyperCLOVA-X 초안이 비어 있어 Roosy-X 기반 기록 초안을 먼저 정리했어요."@,
        Ending::RecordRecovered =>
            "하이브리드 초안은 흔들렸지만 HyperCLOVA-X 단일 복구 초안으로 기록 생성을 이어갔어요."@,
        Ending::RecordHybrid | Ending::RecordSingle =>
            ("기록 초안 생성을 마쳤어요. 본문 길이 "@ + chars + "자예요."@),
        Ending::Fast => ("빠른 경로 응답 생성을 마쳤어요. 본문 길이 "@ + chars + "자예요."@),
        Ending::Hybrid => ("ROOSY-Hybrid 응답 생성을 마쳤어요. 본문 길이 "@ + chars + "자예요."@),
        Ending::RoosyOnly =>
            "HyperCLOVA-X 검토 초안이 비어 있어 Roosy-X 기반으로 먼저 정리했어요."@,
        Ending::HyperOnly =>
            "Roosy-X 초안이 비어 있어 HyperCLOVA-X 기반으로 먼저 정리했어요."@,
        _ => ("응답 생성을 마쳤어요. 본문 길이 "@ + chars + "자예요."@),
    }
}

/// What is reported at the end of a chat.
pub fn chat_closing_report(ending: Ending, answer: &str) -> (r: String)
    ensures
        r@ == closing_line(ending, answer@),
{
    let chars = text::decimal(answer.unicode_len() as u64);
    match ending {
        Ending::RecordFast =>
            "HyperCLOVA-X 초안만으로 충분해 캐시모드 빠른 경로로 바로 기록 생성을 마쳤어요.".to_owned(),
        Ending::RecordHyper =>
            "Roosy-X 초안이 비어 있어 HyperCLOVA-X 기반 기록 초안을 먼저 정리했어요.".to_owned(),
        Ending::RecordRoosy =>
            "HyperCLOVA-X 초안이 비어 있어 Roosy-X 기반 기록 초안을 먼저 정리했어요.".to_owned(),
        Ending::RecordRecovered =>
            "하이브리드 초안은 흔들렸지만 HyperCLOVA-X 단일 복구 초안으로 기록 생성을 이어갔어요.".to_owned(),
        Ending::RecordHybrid | Ending::RecordSingle => {
            let mut line = text::copy("기록 초안 생성을 마쳤어요. 본문 길이 ");
            line.append(&chars);
            line.append("자예요.");
            line
        },
        Ending::Fast => {
            let mut line = text::copy("빠른 경로 응답 생성을 마쳤어요. 본문 길이 ");
            line.append(&chars);
            line.append("자예요.");
            line
        },
        Ending::Hybrid => {
            let mut line = text::copy("ROOSY-Hybrid 응답 생성을 마쳤어요. 본문 길이 ");
            line.append(&chars);
            line.append("자예요.");
            line
        },
        Ending::RoosyOnly =>
            "HyperCLOVA-X 검토 초안이 비어 있어 Roosy-X 기반으로 먼저 정리했어요.".to_owned(),
        Ending::HyperOnly =>
            "Roosy-X 초안이 비어 있어 HyperCLOVA-X 기반으로 먼저 정리했어요.".to_owned(),
        _ => {
            let mut line = text::copy("응답 생성을 마쳤어요. 본문 길이 ");
            line.append(&chars);
            line.append("자예요.");
            line
        },
    }
}

/// The stages that are recorded with the answer of a chat.
pub open spec fn recorded_stages(f: ChatFlow) -> Seq<StrategyStagePerf> {
    match f.ending {
        Ending::RecordHybrid => seq![f.hyper->0.metrics, f.roosy->0.metrics, f.main->0.metrics],
        Ending::Hybrid => seq![f.roosy->0.metrics, f.hyper->0.metrics, f.main->0.metrics],
        _ => seq![f.main->0.metrics],
    }
}

fn stages_of(f: &ChatFlow) -> (r: Vec<StrategyStagePerf>)
    requires
        f.main is Some,
        f.ending_has_runs(),
    ensures
        r@ == recorded_stages(*f),
{
    let mut out: Vec<StrategyStagePerf> = Vec::new();
    match f.ending {
        Ending::RecordHybrid => {
            if let (Some(hyper), Some(roosy)) = (&f.hyper, &f.roosy) {
                out.push(hyper.metrics.clone());
                out.push(roosy.metrics.clone());
            }
        },
        Ending::Hybrid => {
            if let (Some(hyper), Some(roosy)) = (&f.hyper, &f.roosy) {
                out.push(roosy.metrics.clone());
                out.push(hyper.metrics.clone());
            }
        },
        _ => {},
    }
    if let Some(main) = &f.main {
        out.push(main.metrics.clone());
    }
    assert(out@ =~= recorded_stages(*f));
    out
}

/// A chat that has come to its answer.
#[derive(Debug)]
pub struct FinishedChat {
    pub answer: String,
    pub model_path: String,
    pub runner: String,
    pub prompt_chars: usize,
    pub stages: Vec<StrategyStagePerf>,
}

/// The answer of a chat that asked for no record.
pub fn finish_answer(f: &ChatFlow) -> (r: Option<FinishedChat>)
    requires
        f.wf(),
    ensures
        r is Some == f.step is Finished,
        r matches Some(done) ==> {
            &&& done.answer@ == f.main->0.answer@
            &&& done.model_path@ == source_label(f.ending, f.main->0)
            &&& done.runner@ == f.main->0.runner@
            &&& done.prompt_chars == f.main->0.prompt_chars
            &&& done.stages@ == recorded_stages(*f)
        },
{
    match f.step {
        ChatStep::Finished => {},
        _ => {
            return None;
        },
    }
    match &f.main {
        Some(main) => Some(
            FinishedChat {
                answer: main.answer.clone(),
                model_path: source_of(f.ending, main),
                runner: main.runner.clone(),
                prompt_chars: main.prompt_chars,
                stages: stages_of(f),
            },
        ),
        None => None,
    }
}

/// The draft that is gone over, and whether the cache may be used for it: not after a recovery.
pub fn review_draft<'a>(f: &'a ChatFlow) -> (r: Option<(&'a str, bool)>)
    requires
        f.wf(),
    ensures
        r is Some == f.step is RecordReview,
        r matches Some((draft, cache)) ==> draft@ == f.main->0.answer@ && cache == (f.cache
            && !(f.ending is RecordRecovered)),
{
    match f.step {
        ChatStep::RecordReview => {},
        _ => {
            return None;
        },
    }
    let recovered = match f.ending {
        Ending::RecordRecovered => true,
        _ => false,
    };
    match &f.main {
        Some(main) => Some((main.answer.as_str(), f.cache && !recovered)),
        None => None,
    }
}

/// The record of a chat, after it was gone over. `now` is the time of the record.
pub fn finish_record(
    f: &ChatFlow,
    reviewed: &StrategyRecordReviewResult,
    evidence_packet: &StrategyEvidencePacket,
    message: &str,
    section_order: &Vec<String>,
    now: &str,
) -> (r: Option<FinishedChat>)
    requires
        f.wf(),
    ensures
        r is Some == f.step is Finished,
        r matches Some(done) ==> {
            &&& done.answer@ == record_answer::finished_record(
                reviewed.answer@,
                evidence_packet.evidence_records@.len(),
                evidence_packet.legal_references@,
                message@,
                strs::views(section_order@),
                now@,
            )
            &&& done.model_path@ == source_label(f.ending, f.main->0)
            &&& done.runner@ == f.main->0.runner@
            &&& done.prompt_chars == f.main->0.prompt_chars
            &&& ({
                let noted = match reviewed.metrics {
                    Some(_) => done.stages@.drop_last(),
                    None => done.stages@,
                };
                &&& reviewed.metrics matches Some(m) ==> done.stages@.len() > 0
                    && done.stages@.last() == m
                &&& match reviewed.renderer_stats {
                    Some(stats) => review::last_noted(recorded_stages(*f), stats, noted),
                    None => noted == recorded_stages(*f),
                }
            })
        },
{
    match f.step {
        ChatStep::Finished => {},
        _ => {
            return None;
        },
    }
    match &f.main {
        Some(main) => {
            let answer = finalize_strategy_record_answer(
                &reviewed.answer,
                evidence_packet,
                message,
                section_order,
                now,
            );
            let stages = finalize_strategy_record_stage_metrics(stages_of(f), reviewed);
            Some(
                FinishedChat {
                    answer,
                    model_path: source_of(f.ending, main),
                    runner: main.runner.clone(),
                    prompt_chars: main.prompt_chars,
                    stages,
                },
            )
        },
        None => None,
    }
}

/// What came of a chat, with what it was given.
pub fn finalize_strategy_chat_run_result(
    finished: FinishedChat,
    retrieval_query: String,
    evidence_packet: StrategyEvidencePacket,
    perf_metrics: StrategyPerfMetrics,
) -> (r: StrategyChatRunResult)
    ensures
        r.answer == finished.answer,
        r.model_path == finished.model_path,
        r.runner == finished.runner,
        r.prompt_chars == finished.prompt_chars,
        r.records_used == evidence_packet.evidence_records@.len(),
        r.retrieval_query == retrieval_query,
        r.evidence_packet == evidence_packet,
        r.perf_metrics == perf_metrics,
{
    let records_used: usize = evidence_packet.evidence_records.len();
    StrategyChatRunResult {
        answer: finished.answer,
        model_path: finished.model_path,
        runner: finished.runner,
        prompt_chars: finished.prompt_chars,
        records_used,
        retrieval_query,
        evidence_packet,
        perf_metrics,
    }
}

} // verus!
