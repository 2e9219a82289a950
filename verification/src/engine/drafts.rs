//! Drafts of answers: what is proposed for a stage, and how the tokens are checked in batches.

use crate::drace::backends;
use crate::drace::backends::{DraftVerifyResult, GenerationSessionOptions};
use crate::drace::cache_manager::HybridStage;
use crate::drace::draft_provider;
use crate::drace::draft_provider::{
    DraftProposal, DraftProvider, DraftProviderState, NoopDraftProvider, TemplateDraftProvider,
};
use crate::drace::laws;
use crate::drace::native_backend;
use crate::engine::perf;
use crate::engine::perf::{ratio_of, Ratio};
use crate::strs;
use crate::text;
use vstd::prelude::*;

verus! {

/// The provider with that name is the template.
pub open spec fn is_template(provider: Seq<char>) -> bool {
    strs::ascii_lower(strs::trim(provider)) == "template"@
}

/// What a provider calls itself.
pub open spec fn provider_shown(provider: Seq<char>) -> Seq<char> {
    if is_template(provider) {
        "template"@
    } else {
        "noop"@
    }
}

/// The tokens that a provider proposes for a stage.
pub open spec fn proposed_tokens(stage: HybridStage, provider: Seq<char>, max: nat) -> Seq<u32> {
    if is_template(provider) {
        draft_provider::code_points(
            draft_provider::template_opening(stage.name()),
            if max < 1 {
                1
            } else {
                max
            },
        )
    } else {
        Seq::empty()
    }
}

/// The pieces that a provider renders for a stage.
pub open spec fn proposed_fragments(stage: HybridStage, provider: Seq<char>) -> Seq<Seq<char>> {
    if is_template(provider) {
        draft_provider::template_fragments(stage.name())
    } else {
        Seq::empty()
    }
}

/// What a provider is asked for.
pub fn strategy_build_draft_provider_state(
    stage: HybridStage,
    model_id: &str,
    structured_json: bool,
    prompt_hash: Option<String>,
) -> (r: DraftProviderState)
    ensures
        r.stage@ == stage.name(),
        r.model_id@ == model_id@,
        r.structured_json == structured_json,
        r.prompt_hash == prompt_hash,
{
    DraftProviderState {
        stage: stage.as_str().to_owned(),
        model_id: model_id.to_owned(),
        structured_json,
        prompt_hash,
    }
}

/// What the provider with that name proposes for a stage; nothing where it is not the template.
pub fn strategy_build_draft_proposal(
    stage: HybridStage,
    provider_name: &str,
    model_id: &str,
    structured_json: bool,
    prompt_hash: Option<String>,
    max_draft_tokens: usize,
) -> (r: DraftProposal)
    ensures
        r.provider_name@ == provider_shown(provider_name@),
        r.token_ids@ == proposed_tokens(stage, provider_name@, max_draft_tokens as nat),
        strs::views(r.rendered_fragments@) == proposed_fragments(stage, provider_name@),
{
    let state = strategy_build_draft_provider_state(stage, model_id, structured_json, prompt_hash);
    let normalized = text::ascii_lower(&text::trim(provider_name));
    if text::same(&normalized, "template") {
        let most: usize = if max_draft_tokens < 1 {
            1
        } else {
            max_draft_tokens
        };
        return TemplateDraftProvider::proposal_for_stage(stage, model_id, most);
    }
    let provider = NoopDraftProvider;
    DraftProposal {
        provider_name: provider.name().to_owned(),
        token_ids: provider.propose(&state, max_draft_tokens),
        rendered_fragments: provider.rendered_fragments(&state),
    }
}

/// How the tokens of a draft are checked: greedily, with a window of at least 3584 tokens.
pub fn verify_session_options(
    model_id: &str,
    endpoint: &str,
    model_path: &str,
    slot: Option<u32>,
    cache_prompt: bool,
    accepted_text: &str,
    n_ctx: u32,
    threads: u32,
    max_tokens: u32,
    request_timeout_ms: u64,
) -> (r: GenerationSessionOptions)
    ensures
        r.model_id@ == model_id@,
        r.endpoint@ == endpoint@,
        strs::opt_view(r.model_path) == Some(model_path@),
        r.slot == slot,
        r.cache_prompt == cache_prompt,
        strs::opt_view(r.assistant_prefix) == if accepted_text@.len() == 0 {
            None
        } else {
            Some(accepted_text@)
        },
        r.n_ctx == Some(
            if n_ctx < 3584 {
                3584
            } else {
                n_ctx
            },
        ),
        r.threads == Some(threads),
        r.max_tokens == if max_tokens < 1 {
            1
        } else {
            max_tokens
        },
        r.temperature_milli == 0,
        r.top_p_milli == 1000,
        r.repeat_penalty_milli == 1000,
        r.request_timeout_ms == request_timeout_ms,
{
    GenerationSessionOptions {
        model_id: model_id.to_owned(),
        endpoint: endpoint.to_owned(),
        model_path: Some(model_path.to_owned()),
        slot,
        cache_prompt,
        assistant_prefix: if accepted_text.unicode_len() == 0 {
            None
        } else {
            Some(accepted_text.to_owned())
        },
        n_ctx: Some(
            if n_ctx < 3584 {
                3584
            } else {
                n_ctx
            },
        ),
        threads: Some(threads),
        max_tokens: if max_tokens < 1 {
            1
        } else {
            max_tokens
        },
        temperature_milli: 0,
        top_p_milli: 1000,
        repeat_penalty_milli: 1000,
        request_timeout_ms,
    }
}

/// What came of the check of a draft.
#[derive(Debug, Clone)]
pub struct StrategyVerifiedDraftPrefix {
    pub accepted_text: String,
    pub proposed_tokens: usize,
    pub accepted_tokens: usize,
    pub rejected_tokens: usize,
    pub verification_batches: usize,
    pub accepted_tokens_per_verify: Ratio,
    pub synthetic_applied: bool,
    pub bypass_reason: String,
}

/// A draft that was not checked: all of its tokens count as rejected.
pub fn unverified_draft(proposal: &DraftProposal) -> (r: StrategyVerifiedDraftPrefix)
    ensures
        r.accepted_text@.len() == 0,
        r.proposed_tokens == proposal.token_ids@.len(),
        r.accepted_tokens == 0,
        r.rejected_tokens == proposal.token_ids@.len(),
        r.verification_batches == 0,
        r.accepted_tokens_per_verify == perf::ratio(0, 0),
        !r.synthetic_applied,
        r.bypass_reason@.len() == 0,
{
    StrategyVerifiedDraftPrefix {
        accepted_text: String::new(),
        proposed_tokens: proposal.token_ids.len(),
        accepted_tokens: 0,
        rejected_tokens: proposal.token_ids.len(),
        verification_batches: 0,
        accepted_tokens_per_verify: ratio_of(0, 0),
        synthetic_applied: false,
        bypass_reason: String::new(),
    }
}

/// The check of a draft, batch by batch.
#[derive(Debug, Clone)]
pub struct DraftVerification {
    token_ids: Vec<u32>,
    max_batch: usize,
    offset: usize,
    accepted_tokens: usize,
    accepted_text: String,
    verification_batches: usize,
    stopped: bool,
}

/// The check of a draft, as the contracts see it: the tokens, how many were settled, how many
/// were accepted and as which text, how many batches were tried, and whether the check is over.
#[verifier::ext_equal]
pub struct Verification {
    pub tokens: Seq<u32>,
    pub settled: int,
    pub accepted: int,
    pub text: Seq<char>,
    pub batches: int,
    pub stopped: bool,
}

impl View for DraftVerification {
    type V = Verification;

    closed spec fn view(&self) -> Verification {
        Verification {
            tokens: self.token_ids@,
            settled: self.offset as int,
            accepted: self.accepted_tokens as int,
            text: self.accepted_text@,
            batches: self.verification_batches as int,
            stopped: self.stopped,
        }
    }
}

/// The tokens that are checked together: eight to sixteen.
pub open spec fn batch_size(tokens: nat) -> int {
    if tokens < 8 {
        8
    } else if tokens > 16 {
        16
    } else {
        tokens as int
    }
}

impl Verification {
    /// The end of the batch that comes next.
    pub open spec fn batch_end(self) -> int {
        let end = self.settled + batch_size(self.tokens.len());
        if end > self.tokens.len() {
            self.tokens.len() as int
        } else {
            end
        }
    }

    /// There is something left to check.
    pub open spec fn wants_more(self) -> bool {
        !self.stopped && self.settled < self.tokens.len()
    }

    /// The check after a batch: it goes on where the whole batch was accepted.
    pub open spec fn after(self, accepted: int, text: Seq<char>) -> Verification {
        let whole = accepted >= self.batch_end() - self.settled;
        Verification {
            settled: if whole {
                self.batch_end()
            } else {
                self.settled
            },
            accepted: self.accepted + accepted,
            text: self.text + text,
            batches: self.batches + 1,
            stopped: !whole,
            ..self
        }
    }

    /// The check after a batch that could not be checked.
    pub open spec fn failed(self) -> Verification {
        Verification { batches: self.batches + 1, stopped: true, ..self }
    }

    /// The tokens that count as rejected in the end: all but the accepted ones, where the check
    /// did not get through.
    pub open spec fn rejected(self) -> int {
        if self.settled >= self.tokens.len() || self.accepted > self.tokens.len() {
            0
        } else {
            self.tokens.len() - self.accepted
        }
    }

    /// A batch gave fewer than two tokens on average: the draft is not worth its check.
    pub open spec fn too_few(self) -> bool {
        self.batches > 0 && self.accepted < 2 * self.batches
    }
}

impl DraftVerification {
    /// The counts stay within what was checked.
    pub closed spec fn wf(&self) -> bool {
        &&& self.max_batch == batch_size(self.token_ids@.len())
        &&& self.offset <= self.token_ids@.len()
        &&& self.verification_batches <= self.offset + (if self.stopped {
            1int
        } else {
            0int
        })
    }

    /// The check of a draft, before its first batch.
    pub fn start(proposal: &DraftProposal) -> (r: Self)
        ensures
            r.wf(),
            r@ == begun(proposal.token_ids@),
    {
        let n: usize = proposal.token_ids.len();
        let r = DraftVerification {
            token_ids: proposal.token_ids.clone(),
            max_batch: if n < 8 {
                8
            } else if n > 16 {
                16
            } else {
                n
            },
            offset: 0,
            accepted_tokens: 0,
            accepted_text: String::new(),
            verification_batches: 0,
            stopped: false,
        };
        assert(r.token_ids@ =~= proposal.token_ids@);
        assert(r.accepted_text@ =~= Seq::empty());
        r
    }

    /// The text that was accepted so far.
    pub fn accepted_so_far(&self) -> (r: &str)
        ensures
            r@ == self@.text,
    {
        self.accepted_text.as_str()
    }

    /// The tokens to check next; nothing where the check is over.
    pub fn next_batch(&self) -> (r: Option<Vec<u32>>)
        requires
            self.wf(),
        ensures
            r is Some == self@.wants_more(),
            r matches Some(batch) ==> batch@ == self@.tokens.subrange(
                self@.settled,
                self@.batch_end(),
            ),
    {
        if self.stopped || self.offset >= self.token_ids.len() {
            return None;
        }
        let wanted: usize = self.offset.saturating_add(self.max_batch);
        let end: usize = if wanted > self.token_ids.len() {
            self.token_ids.len()
        } else {
            wanted
        };
        let mut batch: Vec<u32> = Vec::new();
        let mut i: usize = self.offset;
        while i < end
            invariant
                self.offset <= i <= end,
                end <= self.token_ids@.len(),
                batch@ == self.token_ids@.subrange(self.offset as int, i as int),
            decreases end - i,
        {
            batch.push(self.token_ids[i]);
            assert(self.token_ids@.subrange(self.offset as int, i + 1) =~= self.token_ids@.subrange(
                self.offset as int,
                i as int,
            ).push(self.token_ids@[i as int]));
            i += 1;
        }
        Some(batch)
    }

    /// Takes the verdict on the batch, or that there was none.
    pub fn take(&mut self, verdict: Option<&DraftVerifyResult>)
        requires
            old(self).wf(),
            old(self)@.wants_more(),
            verdict matches Some(v) ==> old(self)@.accepted + v.accepted_len <= usize::MAX,
        ensures
            final(self).wf(),
            final(self)@ == match verdict {
                Some(v) => old(self)@.after(v.accepted_len as int, v.accepted_text@),
                None => old(self)@.failed(),
            },
    {
        let wanted: usize = self.offset.saturating_add(self.max_batch);
        let end: usize = if wanted > self.token_ids.len() {
            self.token_ids.len()
        } else {
            wanted
        };
        self.verification_batches = self.verification_batches + 1;
        match verdict {
            Some(v) => {
                self.accepted_tokens = self.accepted_tokens + v.accepted_len;
                self.accepted_text.append(&v.accepted_text);
                if v.accepted_len < end - self.offset {
                    self.stopped = true;
                } else {
                    self.offset = end;
                }
            },
            None => {
                self.stopped = true;
            },
        }
    }

    /// How many tokens were accepted, in how many batches.
    pub fn counts(&self) -> (r: (usize, usize))
        ensures
            r.0 == self@.accepted,
            r.1 == self@.batches,
    {
        (self.accepted_tokens, self.verification_batches)
    }

    /// What came of the check. `rate` is how many tokens a batch gave, written with two decimals.
    pub fn finish(self, rate: &str) -> (r: StrategyVerifiedDraftPrefix)
        requires
            self.wf(),
        ensures
            r.proposed_tokens == self@.tokens.len(),
            r.accepted_tokens == self@.accepted,
            r.rejected_tokens == self@.rejected(),
            r.verification_batches == self@.batches,
            r.accepted_tokens_per_verify == perf::ratio(self@.accepted, self@.batches),
            r.synthetic_applied == (!self@.too_few() && self@.accepted > 0),
            r.accepted_text@ == if self@.too_few() {
                Seq::empty()
            } else {
                self@.text
            },
            r.bypass_reason@ == if self@.too_few() {
                ("synthetic_low_acceptance:"@ + rate@ + "_tokens_per_verify; fallback=PrefixKV"@)
            } else {
                Seq::empty()
            },
    {
        let proposed: usize = self.token_ids.len();
        let accepted: usize = self.accepted_tokens;
        let batches: usize = self.verification_batches;
        let rejected: usize = if self.offset >= proposed || accepted > proposed {
            0
        } else {
            proposed - accepted
        };
        let too_few = batches > 0 && (accepted as u128) < 2 * (batches as u128);
        let mut reason = String::new();
        assert(reason@ =~= Seq::empty());
        if too_few {
            let mut line = text::copy("synthetic_low_acceptance:");
            line.append(rate);
            line.append("_tokens_per_verify; fallback=PrefixKV");
            reason = line;
        }
        let nothing = String::new();
        assert(nothing@ =~= Seq::empty());
        StrategyVerifiedDraftPrefix {
            accepted_text: if too_few {
                nothing
            } else {
                self.accepted_text
            },
            proposed_tokens: proposed,
            accepted_tokens: accepted,
            rejected_tokens: rejected,
            verification_batches: batches,
            accepted_tokens_per_verify: ratio_of(accepted, batches),
            synthetic_applied: !too_few && accepted > 0,
            bypass_reason: reason,
        }
    }
}

/// What is reported of the check of a draft, if anything.
pub fn verified_draft_report(result: &StrategyVerifiedDraftPrefix) -> (r: Option<String>)
    ensures
        strs::opt_view(r) == if result.synthetic_applied {
            Some(
                ("DRaCE verification draft가 "@ + strs::decimal(result.accepted_tokens as nat) + "토큰 정도 먼저 맞아 들어가 resident 생성 앞단에 붙였어요."@),
            )
        } else if result.proposed_tokens > 0 && result.verification_batches > 0
            && result.bypass_reason@.len() > 0 {
            Some(
                ("Synthetic draft 수용률이 낮아 PrefixKV로 안전하게 우회할게요. "@ + result.bypass_reason@),
            )
        } else {
            None
        },
{
    if result.synthetic_applied {
        let mut line = text::copy("DRaCE verification draft가 ");
        line.append(&text::decimal(result.accepted_tokens as u64));
        line.append("토큰 정도 먼저 맞아 들어가 resident 생성 앞단에 붙였어요.");
        Some(line)
    } else if result.proposed_tokens > 0 && result.verification_batches > 0
        && result.bypass_reason.as_str().unicode_len() > 0 {
        let mut line = text::copy("Synthetic draft 수용률이 낮아 PrefixKV로 안전하게 우회할게요. ");
        line.append(&result.bypass_reason);
        Some(line)
    } else {
        None
    }
}

/// What a backend says of a batch: how many tokens it accepts and their text, a beginning of the
/// text of the batch with one character for each token. Nothing where the batch could not be
/// checked.
pub open spec fn fits(batch: Seq<u32>, verdict: Option<(int, Seq<char>)>) -> bool {
    match verdict {
        Some((accepted, text)) => accepted == text.len() && strs::starts_with(
            backends::text_of_ids(batch),
            text,
        ),
        None => true,
    }
}

/// A check before its first batch.
pub open spec fn begun(tokens: Seq<u32>) -> Verification {
    Verification {
        tokens,
        settled: 0,
        accepted: 0,
        text: Seq::empty(),
        batches: 0,
        stopped: false,
    }
}

/// A check after the verdicts on its batches.
pub open spec fn checked(tokens: Seq<u32>, verdicts: Seq<Option<(int, Seq<char>)>>) -> Verification
    decreases verdicts.len(),
{
    if verdicts.len() == 0 {
        begun(tokens)
    } else {
        let v = checked(tokens, verdicts.drop_last());
        match verdicts.last() {
            Some((accepted, text)) => v.after(accepted, text),
            None => v.failed(),
        }
    }
}

/// Each verdict is on the batch that came next.
pub open spec fn in_turn(tokens: Seq<u32>, verdicts: Seq<Option<(int, Seq<char>)>>) -> bool
    decreases verdicts.len(),
{
    verdicts.len() > 0 ==> {
        let v = checked(tokens, verdicts.drop_last());
        &&& in_turn(tokens, verdicts.drop_last())
        &&& v.wants_more()
        &&& fits(tokens.subrange(v.settled, v.batch_end()), verdicts.last())
    }
}

proof fn lemma_ids_joined(a: Seq<u32>, b: Seq<u32>)
    ensures
        backends::text_of_ids(a + b) == backends::text_of_ids(a) + backends::text_of_ids(b),
        backends::text_of_ids(b).len() <= b.len(),
    decreases b.len(),
{
    if b.len() == 0 {
        assert(a + b =~= a);
        assert(backends::text_of_ids(a) + backends::text_of_ids(b) =~= backends::text_of_ids(a));
    } else {
        lemma_ids_joined(a, b.drop_last());
        assert((a + b).drop_last() =~= a + b.drop_last());
        assert((a + b).last() == b.last());
        assert(backends::text_of_ids(a + b) =~= backends::text_of_ids(a) + backends::text_of_ids(b));
    }
}

/// What a check goes through: as long as it goes on, all that was settled was accepted.
spec fn on_the_way(v: Verification) -> bool {
    &&& 0 <= v.settled <= v.tokens.len()
    &&& v.settled <= v.accepted <= v.tokens.len()
    &&& v.accepted == v.text.len()
    &&& strs::starts_with(backends::text_of_ids(v.tokens), v.text)
    &&& !v.stopped || v.settled == v.tokens.len() ==> v.accepted == v.settled
    &&& !v.stopped ==> v.text == backends::text_of_ids(v.tokens.take(v.settled))
}

proof fn lemma_on_the_way(tokens: Seq<u32>, verdicts: Seq<Option<(int, Seq<char>)>>)
    requires
        in_turn(tokens, verdicts),
    ensures
        on_the_way(checked(tokens, verdicts)),
        checked(tokens, verdicts).tokens == tokens,
    decreases verdicts.len(),
{
    let whole = backends::text_of_ids(tokens);
    if verdicts.len() == 0 {
        assert(tokens.take(0) =~= Seq::empty());
        assert(backends::text_of_ids(tokens.take(0)) =~= Seq::empty());
        assert(whole.subrange(0, 0) =~= Seq::empty());
    } else {
        lemma_on_the_way(tokens, verdicts.drop_last());
        let v = checked(tokens, verdicts.drop_last());
        let end = v.batch_end();
        let head = tokens.take(v.settled);
        let batch = tokens.subrange(v.settled, end);
        let tail = tokens.skip(end);
        if let Some((accepted, text)) = verdicts.last() {
            lemma_ids_joined(head, batch);
            lemma_ids_joined(head + batch, tail);
            assert(head + batch + tail =~= tokens);
            assert(head + batch =~= tokens.take(end));
            let of_batch = backends::text_of_ids(batch);
            assert(of_batch.subrange(0, accepted) == text);
            let now = v.text + text;
            assert(whole.subrange(0, now.len() as int) =~= now);
            if accepted >= end - v.settled {
                assert(text =~= of_batch);
            }
        }
    }
}

/// Over a whole check, whatever the verdicts: what was accepted is a beginning of the proposed
/// text, with one character for each accepted token, and every proposed token counts either as
/// accepted or as rejected.
pub proof fn accepted_text_begins_the_proposal(
    tokens: Seq<u32>,
    verdicts: Seq<Option<(int, Seq<char>)>>,
)
    requires
        in_turn(tokens, verdicts),
    ensures
        ({
            let v = checked(tokens, verdicts);
            &&& strs::starts_with(backends::text_of_ids(tokens), v.text)
            &&& v.accepted == v.text.len()
            &&& v.accepted + v.rejected() == tokens.len()
        }),
{
    lemma_on_the_way(tokens, verdicts);
}

/// The verdict of a server fits the batch that it was asked about.
pub proof fn a_server_gives_verdicts_that_fit(
    batch: Seq<u32>,
    actual: Seq<char>,
    verify_ms: u128,
)
    ensures
        ({
            let v = backends::verdict(backends::text_of_ids(batch), actual, verify_ms);
            fits(batch, Some((v.accepted_len, v.accepted_text)))
        }),
{
    laws::accepted_draft_is_the_common_beginning(
        backends::text_of_ids(batch),
        actual,
        verify_ms,
    );
}

/// The verdict of the native backend fits the batch that it was asked about.
pub proof fn the_native_backend_gives_verdicts_that_fit(
    batch: Seq<u32>,
    check: native_backend::Check,
)
    requires
        check.wf(),
        check.candidate == backends::text_of_ids(batch),
    ensures
        fits(batch, Some((check.accepted.len() as int, check.accepted))),
{
}

} // verus!
