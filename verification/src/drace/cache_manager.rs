//! The cache of prompt prefixes: which prefixes are known and warm, and what a backend's
//! capabilities allow a stage to take from a cache.

use crate::drace::hashing;
use crate::drace::prompt_segments;
use crate::drace::prompt_segments::{
    fast_hash64, render_prompt_segments, render_static_segments, PromptSegment, Segment,
};
use crate::sorting;
use crate::sorting::stable_sort;
use crate::strs;
use crate::text;
use std::sync::Arc;
use vstd::prelude::*;

verus! {

/// How a model is run.
#[derive(Debug, Clone, Copy, PartialEq, Eq, Structural)]
pub enum BackendKind {
    CliSidecar,
    LlamaServer,
    Native,
}

/// What a backend can do.
#[derive(Debug, Clone, Copy, PartialEq, Eq, Structural)]
pub struct BackendCapabilities {
    pub backend_kind: BackendKind,
    pub supports_resident: bool,
    pub supports_prefix_kv_cache: bool,
    pub supports_prompt_cache: bool,
    pub supports_token_verification: bool,
    pub supports_batch_verification: bool,
    pub supports_speculative_decode: bool,
    pub supports_prompt_token_cache: bool,
    pub supports_synthetic_token_cache: bool,
    pub supports_mmap_cache_pack: bool,
    pub supports_resident_model: bool,
}

impl BackendCapabilities {
    /// The capabilities of a model that is started anew for each prompt: none.
    pub open spec fn cli_only() -> Self {
        BackendCapabilities {
            backend_kind: BackendKind::CliSidecar,
            supports_resident: false,
            supports_prefix_kv_cache: false,
            supports_prompt_cache: false,
            supports_token_verification: false,
            supports_batch_verification: false,
            supports_speculative_decode: false,
            supports_prompt_token_cache: false,
            supports_synthetic_token_cache: false,
            supports_mmap_cache_pack: false,
            supports_resident_model: false,
        }
    }

    /// The capabilities of a model that is started anew for each prompt.
    pub fn cli() -> (r: Self)
        ensures
            r == Self::cli_only(),
    {
        BackendCapabilities {
            backend_kind: BackendKind::CliSidecar,
            supports_resident: false,
            supports_prefix_kv_cache: false,
            supports_prompt_cache: false,
            supports_token_verification: false,
            supports_batch_verification: false,
            supports_speculative_decode: false,
            supports_prompt_token_cache: false,
            supports_synthetic_token_cache: false,
            supports_mmap_cache_pack: false,
            supports_resident_model: false,
        }
    }
}

/// Settings of the cache.
#[derive(Debug, Clone, Copy, PartialEq, Eq, Structural)]
pub struct DraceCacheConfig {
    pub enabled: bool,
}

/// Counters of the cache.
#[derive(Debug, Clone, Copy, PartialEq, Eq, Structural)]
pub struct DraceCacheStats {
    pub prompt_token_cache_lookups: u64,
    pub prompt_token_cache_hits: u64,
    pub prompt_token_cache_lookup_ms_total: u128,
    pub warmed_prefix_count: u64,
    pub prefix_tokens_total: u64,
}

impl DraceCacheStats {
    /// All counters at zero.
    pub open spec fn zero() -> Self {
        DraceCacheStats {
            prompt_token_cache_lookups: 0,
            prompt_token_cache_hits: 0,
            prompt_token_cache_lookup_ms_total: 0,
            warmed_prefix_count: 0,
            prefix_tokens_total: 0,
        }
    }
}

impl Default for DraceCacheStats {
    fn default() -> (r: Self)
        ensures
            r == DraceCacheStats::zero(),
    {
        DraceCacheStats {
            prompt_token_cache_lookups: 0,
            prompt_token_cache_hits: 0,
            prompt_token_cache_lookup_ms_total: 0,
            warmed_prefix_count: 0,
            prefix_tokens_total: 0,
        }
    }
}

/// What tokenized prompts are kept under.
#[derive(Debug, Clone, PartialEq, Eq, Hash)]
pub struct PromptTokenCacheKey {
    pub model_id: String,
    pub tokenizer_hash: u64,
    pub static_prefix_id: String,
    pub content_hash: u64,
}

/// A tokenized prompt.
#[derive(Debug, Clone)]
pub struct PromptTokenCacheValue {
    pub token_ids: Arc<Vec<u32>>,
    pub token_count: usize,
    pub byte_len: usize,
}

/// A prefix whose keys and values a backend holds.
#[derive(Debug, Clone)]
pub struct PrefixKvHandle {
    pub model_id: String,
    pub prefix_id: String,
}

/// The answer of a backend to a proposal of tokens.
#[derive(Debug, Clone)]
pub struct TokenVerifyResult {
    pub accepted_len: usize,
    pub accepted_tokens: Vec<u32>,
    pub rejected_at: Option<usize>,
    pub verify_ms: u128,
    pub target_top_tokens: Vec<u32>,
}

/// The stages in which an answer is made.
#[derive(Debug, Clone, Copy, PartialEq, Eq, Hash, Structural)]
pub enum HybridStage {
    GeneralMain,
    GeneralDraft,
    GeneralSynthesis,
    RecordMain,
    RecordFill,
    RecordSynthesis,
    RecordReview,
    FastRoosy,
    RecordRecovery,
}

impl HybridStage {
    /// The name of the stage.
    pub open spec fn name(self) -> Seq<char> {
        match self {
            HybridStage::GeneralMain => "general_main"@,
            HybridStage::GeneralDraft => "general_draft"@,
            HybridStage::GeneralSynthesis => "general_synthesis"@,
            HybridStage::RecordMain => "record_main"@,
            HybridStage::RecordFill => "record_fill"@,
            HybridStage::RecordSynthesis => "record_synthesis"@,
            HybridStage::RecordReview => "record_review"@,
            HybridStage::FastRoosy => "fast_roosy"@,
            HybridStage::RecordRecovery => "record_recovery"@,
        }
    }

    /// The stages whose prompts share enough to be worth caching.
    pub open spec fn cache_friendly(self) -> bool {
        ||| self == HybridStage::RecordSynthesis
        ||| self == HybridStage::RecordMain
        ||| self == HybridStage::RecordReview
        ||| self == HybridStage::GeneralSynthesis
    }

    /// The stages whose output starts from a template.
    pub open spec fn templated(self) -> bool {
        ||| self == HybridStage::RecordSynthesis
        ||| self == HybridStage::RecordReview
        ||| self == HybridStage::GeneralSynthesis
    }

    /// The name of the stage.
    pub fn as_str(&self) -> (r: &'static str)
        ensures
            r@ == self.name(),
    {
        match self {
            HybridStage::GeneralMain => "general_main",
            HybridStage::GeneralDraft => "general_draft",
            HybridStage::GeneralSynthesis => "general_synthesis",
            HybridStage::RecordMain => "record_main",
            HybridStage::RecordFill => "record_fill",
            HybridStage::RecordSynthesis => "record_synthesis",
            HybridStage::RecordReview => "record_review",
            HybridStage::FastRoosy => "fast_roosy",
            HybridStage::RecordRecovery => "record_recovery",
        }
    }

    /// Whether the prompts of the stage share enough to be worth caching.
    pub fn is_cache_friendly(&self) -> (r: bool)
        ensures
            r == self.cache_friendly(),
    {
        matches!(
            self,
            HybridStage::RecordSynthesis | HybridStage::RecordMain | HybridStage::RecordReview
                | HybridStage::GeneralSynthesis
        )
    }
}

/// The id of a static prefix.
#[derive(Debug, Clone, PartialEq, Eq, Hash)]
pub struct StaticPrefixId(pub String);

/// The unchanging beginning of the prompts of one stage of one model.
#[derive(Debug)]
pub struct StaticPrefixSpec {
    pub id: String,
    pub model_id: String,
    pub stage_name: String,
    pub text: String,
    pub content_hash: u64,
    pub estimated_tokens: usize,
}

impl Clone for StaticPrefixSpec {
    fn clone(&self) -> (r: Self)
        ensures
            r == *self,
    {
        StaticPrefixSpec {
            id: self.id.clone(),
            model_id: self.model_id.clone(),
            stage_name: self.stage_name.clone(),
            text: self.text.clone(),
            content_hash: self.content_hash,
            estimated_tokens: self.estimated_tokens,
        }
    }
}

/// A static prefix, as the contracts see it.
#[verifier::ext_equal]
pub struct Prefix {
    pub id: Seq<char>,
    pub model_id: Seq<char>,
    pub stage_name: Seq<char>,
    pub text: Seq<char>,
    pub content_hash: u64,
    pub estimated_tokens: int,
}

impl View for StaticPrefixSpec {
    type V = Prefix;

    open spec fn view(&self) -> Prefix {
        Prefix {
            id: self.id@,
            model_id: self.model_id@,
            stage_name: self.stage_name@,
            text: self.text@,
            content_hash: self.content_hash,
            estimated_tokens: self.estimated_tokens as int,
        }
    }
}

/// A quarter of the number of characters, and at least one.
pub open spec fn token_estimate(s: Seq<char>) -> int {
    if s.len() < 8 {
        1
    } else {
        s.len() as int / 4
    }
}

/// A rough count of the tokens of a text.
pub fn estimate_tokens(value: &str) -> (r: usize)
    ensures
        r == token_estimate(value@),
{
    let quarter: usize = value.unicode_len() / 4;
    if quarter < 1 {
        1
    } else {
        quarter
    }
}

/// What a stage takes from the cache.
#[derive(Debug, Clone)]
pub struct StageCachePlan {
    pub cache_requested: bool,
    pub cache_loaded: bool,
    pub cache_applied: bool,
    pub synthetic_cache_requested: bool,
    pub synthetic_cache_supported: bool,
    pub synthetic_cache_applied: bool,
    pub cache_mode_requested: String,
    pub cache_mode_applied: String,
    pub use_prompt_token_cache: bool,
    pub use_prefix_kv_cache: bool,
    pub use_template_renderer: bool,
    pub use_synthetic_token_cache: bool,
    pub max_candidate_tokens: usize,
    pub token_cache_lookup_ms: u128,
    pub draft_provider: String,
    pub bypass_reason: String,
}

/// What a stage takes from the cache, as the contracts see it.
#[verifier::ext_equal]
pub struct Plan {
    pub cache_requested: bool,
    pub cache_loaded: bool,
    pub cache_applied: bool,
    pub synthetic_cache_requested: bool,
    pub synthetic_cache_supported: bool,
    pub synthetic_cache_applied: bool,
    pub cache_mode_requested: Seq<char>,
    pub cache_mode_applied: Seq<char>,
    pub use_prompt_token_cache: bool,
    pub use_prefix_kv_cache: bool,
    pub use_template_renderer: bool,
    pub use_synthetic_token_cache: bool,
    pub max_candidate_tokens: int,
    pub token_cache_lookup_ms: int,
    pub draft_provider: Seq<char>,
    pub bypass_reason: Seq<char>,
}

impl View for StageCachePlan {
    type V = Plan;

    open spec fn view(&self) -> Plan {
        Plan {
            cache_requested: self.cache_requested,
            cache_loaded: self.cache_loaded,
            cache_applied: self.cache_applied,
            synthetic_cache_requested: self.synthetic_cache_requested,
            synthetic_cache_supported: self.synthetic_cache_supported,
            synthetic_cache_applied: self.synthetic_cache_applied,
            cache_mode_requested: self.cache_mode_requested@,
            cache_mode_applied: self.cache_mode_applied@,
            use_prompt_token_cache: self.use_prompt_token_cache,
            use_prefix_kv_cache: self.use_prefix_kv_cache,
            use_template_renderer: self.use_template_renderer,
            use_synthetic_token_cache: self.use_synthetic_token_cache,
            max_candidate_tokens: self.max_candidate_tokens as int,
            token_cache_lookup_ms: self.token_cache_lookup_ms as int,
            draft_provider: self.draft_provider@,
            bypass_reason: self.bypass_reason@,
        }
    }
}

/// Why a stage gets nothing from the cache before any cache is looked at; empty where nothing
/// stands against it.
pub open spec fn first_bypass(
    caps: BackendCapabilities,
    requested: bool,
    stage: HybridStage,
    output_tokens: int,
) -> Seq<char> {
    if !requested {
        "cache disabled"@
    } else if caps.backend_kind == BackendKind::CliSidecar {
        "unsupported_backend_cli"@
    } else if !caps.supports_prefix_kv_cache && !caps.supports_token_verification
        && !caps.supports_prompt_token_cache && !caps.supports_synthetic_token_cache {
        "unsupported_backend"@
    } else if 0 < output_tokens < 80 {
        "short output"@
    } else if !stage.cache_friendly() {
        "stage not cache-friendly"@
    } else {
        ""@
    }
}

/// Nothing stands against the cache before any cache is looked at.
pub open spec fn eligible(
    caps: BackendCapabilities,
    requested: bool,
    stage: HybridStage,
    output_tokens: int,
) -> bool {
    &&& requested
    &&& caps.backend_kind != BackendKind::CliSidecar
    &&& caps.supports_prefix_kv_cache || caps.supports_token_verification
        || caps.supports_prompt_token_cache || caps.supports_synthetic_token_cache
    &&& !(0 < output_tokens < 80)
    &&& stage.cache_friendly()
}

/// What a stage takes from the cache of a backend.
pub open spec fn plan_for(
    caps: BackendCapabilities,
    requested: bool,
    stage: HybridStage,
    prefix_tokens: int,
    output_tokens: int,
) -> Plan {
    let open_to_cache = eligible(caps, requested, stage, output_tokens);
    let verified = caps.supports_token_verification && caps.supports_synthetic_token_cache;
    let tokens = open_to_cache && caps.supports_prompt_token_cache && prefix_tokens >= 128;
    let kv = open_to_cache && caps.supports_prefix_kv_cache && caps.supports_resident_model;
    let template = kv && stage.templated();
    let synthetic = open_to_cache && verified && stage == HybridStage::RecordReview
        && output_tokens >= 80;
    let applied = tokens || kv || synthetic;
    Plan {
        cache_requested: requested,
        cache_loaded: tokens || kv || (synthetic && caps.supports_mmap_cache_pack),
        cache_applied: applied,
        synthetic_cache_requested: requested,
        synthetic_cache_supported: verified,
        synthetic_cache_applied: synthetic,
        cache_mode_requested: if requested {
            "FullDRACE"@
        } else {
            "Off"@
        },
        cache_mode_applied: if synthetic {
            "FullDRACE"@
        } else if template {
            "PrefixKV+TemplateRenderer"@
        } else if kv || tokens {
            "PrefixKV"@
        } else {
            "Off"@
        },
        use_prompt_token_cache: tokens,
        use_prefix_kv_cache: kv,
        use_template_renderer: template,
        use_synthetic_token_cache: synthetic,
        max_candidate_tokens: if synthetic {
            16
        } else {
            0
        },
        token_cache_lookup_ms: 0,
        draft_provider: if template || synthetic {
            "template"@
        } else {
            "noop"@
        },
        bypass_reason: if !open_to_cache {
            first_bypass(caps, requested, stage, output_tokens)
        } else if !applied {
            "no beneficial cache path"@
        } else if verified || !kv {
            ""@
        } else if template {
            "synthetic_token_cache_verification=unsupported; fallback=PrefixKV+TemplateRenderer"@
        } else {
            "synthetic_token_cache_verification=unsupported; fallback=PrefixKV"@
        },
    }
}

/// A prompt in the order in which it is sent, with what its stage takes from the cache.
#[derive(Debug)]
pub struct PreparedStagePrompt {
    pub stage: HybridStage,
    pub model_id: String,
    pub static_prefix: StaticPrefixSpec,
    pub static_prefix_previous_hash: Option<u64>,
    pub system_segments: Vec<PromptSegment>,
    pub user_segments: Vec<PromptSegment>,
    pub system_segment_order: Vec<String>,
    pub user_segment_order: Vec<String>,
    pub rendered_system: String,
    pub rendered_user: String,
    pub plan: StageCachePlan,
}

/// The version of the saved state.
pub const DRACE_PERSISTENT_STATE_VERSION: u32 = 1;

/// The part of the cache that is kept between runs.
#[derive(Debug)]
pub struct PersistentDraceCacheState {
    pub version: u32,
    pub static_prefixes: Vec<StaticPrefixSpec>,
    pub warmed_prefixes: Vec<String>,
}

/// The cache of prompt prefixes.
pub struct DraceCacheManager {
    capabilities: BackendCapabilities,
    config: DraceCacheConfig,
    stats: DraceCacheStats,
    static_prefixes: Vec<StaticPrefixSpec>,
    prompt_token_cache: Vec<(PromptTokenCacheKey, PromptTokenCacheValue)>,
    warmed_prefixes: Vec<String>,
}

/// The cache of prompt prefixes, as the contracts see it.
#[verifier::ext_equal]
pub struct Cache {
    pub capabilities: BackendCapabilities,
    pub config: DraceCacheConfig,
    pub stats: DraceCacheStats,
    pub prefixes: Seq<Prefix>,
    pub tokenized_prompts: nat,
    pub warm: Seq<Seq<char>>,
}

impl View for DraceCacheManager {
    type V = Cache;

    closed spec fn view(&self) -> Cache {
        Cache {
            capabilities: self.capabilities,
            config: self.config,
            stats: self.stats,
            prefixes: strs::deep(self.static_prefixes@),
            tokenized_prompts: self.prompt_token_cache@.len(),
            warm: strs::views(self.warmed_prefixes@),
        }
    }
}

impl Cache {
    /// No prefix and no warm key is listed twice.
    pub open spec fn wf(self) -> bool {
        &&& forall|i: int, j: int|
            0 <= i < j < self.prefixes.len() ==> (#[trigger] self.prefixes[i]).id != (
            #[trigger] self.prefixes[j]).id
        &&& self.warm.no_duplicates()
    }
}

/// A prefix with this id is known.
pub open spec fn has_prefix(s: Seq<Prefix>, id: Seq<char>) -> bool {
    exists|i: int| 0 <= i < s.len() && (#[trigger] s[i]).id == id
}

/// The first prefix with this id.
pub open spec fn prefix_of(s: Seq<Prefix>, id: Seq<char>) -> Option<Prefix>
    decreases s.len(),
{
    if s.len() == 0 {
        None
    } else if s[0].id == id {
        Some(s[0])
    } else {
        prefix_of(s.skip(1), id)
    }
}

/// The prefixes with `p` in the place of the one with its id, or behind them where none has it.
pub open spec fn put_prefix(s: Seq<Prefix>, p: Prefix) -> Seq<Prefix> {
    if has_prefix(s, p.id) {
        s.map_values(|q: Prefix| if q.id == p.id { p } else { q })
    } else {
        s.push(p)
    }
}

/// The prefixes of a list, put one after the other.
pub open spec fn put_all(specs: Seq<Prefix>) -> Seq<Prefix>
    decreases specs.len(),
{
    if specs.len() == 0 {
        Seq::empty()
    } else {
        put_prefix(put_all(specs.drop_last()), specs.last())
    }
}

/// The static prefix that the segments of a prompt make.
pub open spec fn static_prefix(
    model_id: Seq<char>,
    stage: HybridStage,
    segments: Seq<Segment>,
) -> Prefix {
    let text = prompt_segments::rendered_static(segments);
    Prefix {
        id: strs::trim(model_id) + "::"@ + stage.name(),
        model_id: strs::trim(model_id),
        stage_name: stage.name(),
        text,
        content_hash: hashing::default_hash(text),
        estimated_tokens: token_estimate(text),
    }
}

/// What is answered where the prefix `p` is wanted: the known one where its content is the
/// same, else `p` and the hash of what it replaces.
pub open spec fn ensured(s: Seq<Prefix>, p: Prefix) -> (Seq<Prefix>, Prefix, Option<u64>) {
    match prefix_of(s, p.id) {
        Some(known) => if known.content_hash == p.content_hash {
            (s, known, None)
        } else {
            (put_prefix(s, p), p, Some(known.content_hash))
        },
        None => (put_prefix(s, p), p, None),
    }
}

/// What a prefix is listed under once it is warm.
pub open spec fn warm_key(
    model_id: Seq<char>,
    prefix_id: Seq<char>,
    slot: Option<u32>,
    content_hash: Option<u64>,
) -> Seq<char> {
    strs::trim(model_id) + "::"@ + strs::trim(prefix_id) + "::"@ + (match slot {
        Some(n) => strs::decimal(n as nat),
        None => "noslot"@,
    }) + "::"@ + strs::hex(
        match content_hash {
            Some(h) => h as nat,
            None => 0,
        },
        16,
    )
}

/// The warm keys with one more.
pub open spec fn with_key(warm: Seq<Seq<char>>, key: Seq<char>) -> Seq<Seq<char>> {
    if warm.contains(key) {
        warm
    } else {
        warm.push(key)
    }
}

/// The cache after a prefix was marked warm.
pub open spec fn marked(c: Cache, key: Seq<char>, tokens: int) -> Cache {
    let warm = with_key(c.warm, key);
    Cache {
        warm,
        stats: DraceCacheStats {
            warmed_prefix_count: warm.len() as u64,
            prefix_tokens_total: if c.stats.prefix_tokens_total + tokens > u64::MAX {
                u64::MAX
            } else {
                (c.stats.prefix_tokens_total + tokens) as u64
            },
            ..c.stats
        },
        ..c
    }
}

/// The cache after a saved state was read. The warm keys are forgotten: no backend holds a
/// prefix when the program starts.
pub open spec fn restored(c: Cache, version: u32, prefixes: Seq<Prefix>) -> Cache {
    if version != DRACE_PERSISTENT_STATE_VERSION {
        c
    } else {
        Cache {
            prefixes: put_all(prefixes),
            warm: Seq::empty(),
            stats: DraceCacheStats { warmed_prefix_count: 0, ..c.stats },
            ..c
        }
    }
}

/// The names of the kinds of the segments.
pub open spec fn labels(segments: Seq<Segment>) -> Seq<Seq<char>> {
    segments.map_values(|s: Segment| s.kind.name())
}

/// The position of the first prefix with this id.
fn position_of(specs: &Vec<StaticPrefixSpec>, id: &str) -> (r: Option<usize>)
    ensures
        match r {
            Some(i) => i < specs@.len() && specs@[i as int].id@ == id@ && prefix_of(
                strs::deep(specs@),
                id@,
            ) == Some(specs@[i as int]@) && has_prefix(strs::deep(specs@), id@),
            None => prefix_of(strs::deep(specs@), id@) is None && !has_prefix(
                strs::deep(specs@),
                id@,
            ),
        },
{
    let ghost s = strs::deep(specs@);
    let mut i: usize = 0;
    assert(s.skip(0) =~= s);
    while i < specs.len()
        invariant
            i <= specs@.len(),
            s == strs::deep(specs@),
            prefix_of(s, id@) == prefix_of(s.skip(i as int), id@),
            forall|j: int| 0 <= j < i ==> (#[trigger] s[j]).id != id@,
        decreases specs@.len() - i,
    {
        assert(s.skip(i as int)[0] == specs@[i as int]@);
        if text::same(&specs[i].id, id) {
            assert(s[i as int].id == id@);
            return Some(i);
        }
        assert(s.skip(i as int).skip(1) =~= s.skip(i + 1));
        i += 1;
    }
    None
}

/// Puts `spec` in the place of the prefixes with its id, or behind all where none has it.
fn put(specs: &mut Vec<StaticPrefixSpec>, spec: StaticPrefixSpec)
    ensures
        strs::deep(final(specs)@) == put_prefix(strs::deep(old(specs)@), spec@),
{
    let ghost before = strs::deep(specs@);
    let ghost p = spec@;
    if position_of(specs, &spec.id).is_none() {
        specs.push(spec);
        assert(strs::deep(specs@) =~= before.push(p));
        return ;
    }
    let ghost swap = |q: Prefix| if q.id == p.id { p } else { q };
    let mut i: usize = 0;
    assert(strs::deep(specs@) =~= before.take(0).map_values(swap) + before.skip(0));
    while i < specs.len()
        invariant
            i <= specs@.len() == before.len(),
            spec@ == p,
            swap == (|q: Prefix| if q.id == p.id { p } else { q }),
            strs::deep(specs@) == before.take(i as int).map_values(swap) + before.skip(i as int),
        decreases before.len() - i,
    {
        assert(strs::deep(specs@)[i as int] == before[i as int]);
        let ghost now = strs::deep(specs@);
        if text::same(&specs[i].id, &spec.id) {
            specs.set(i, spec.clone());
            assert(strs::deep(specs@) =~= now.update(i as int, p));
        }
        assert(strs::deep(specs@) =~= before.take(i + 1).map_values(swap) + before.skip(i + 1));
        i += 1;
    }
    assert(strs::deep(specs@) =~= before.map_values(swap));
}

impl DraceCacheManager {
    /// An empty cache for a model that is started anew for each prompt.
    pub fn new_cli() -> (r: Self)
        ensures
            r@ == (Cache {
                capabilities: BackendCapabilities::cli_only(),
                config: (DraceCacheConfig { enabled: true }),
                stats: DraceCacheStats::zero(),
                prefixes: Seq::empty(),
                tokenized_prompts: 0,
                warm: Seq::empty(),
            }),
            r@.wf(),
    {
        let r = DraceCacheManager {
            capabilities: BackendCapabilities::cli(),
            config: DraceCacheConfig { enabled: true },
            stats: DraceCacheStats::default(),
            static_prefixes: Vec::new(),
            prompt_token_cache: Vec::new(),
            warmed_prefixes: Vec::new(),
        };
        assert(r@.prefixes =~= Seq::empty());
        assert(r@.warm =~= Seq::empty());
        r
    }

    /// What the backend in use can do.
    pub fn capabilities_snapshot(&self) -> (r: BackendCapabilities)
        ensures
            r == self@.capabilities,
    {
        self.capabilities
    }

    /// Sets what the backend in use can do.
    pub fn configure_backend(&mut self, capabilities: BackendCapabilities)
        ensures
            final(self)@ == (Cache { capabilities, ..old(self)@ }),
    {
        self.capabilities = capabilities;
    }

    /// The settings.
    pub fn config(&self) -> (r: &DraceCacheConfig)
        ensures
            *r == self@.config,
    {
        &self.config
    }

    /// The counters.
    pub fn stats_snapshot(&self) -> (r: DraceCacheStats)
        ensures
            r == self@.stats,
    {
        self.stats
    }

    /// The number of tokenized prompts.
    pub fn prompt_token_cache_size(&self) -> (r: usize)
        ensures
            r == self@.tokenized_prompts,
    {
        self.prompt_token_cache.len()
    }

    /// What a prefix is listed under once it is warm.
    pub fn warmed_prefix_key(
        &self,
        model_id: &str,
        prefix_id: &str,
        slot: Option<u32>,
        content_hash: Option<u64>,
    ) -> (r: String)
        ensures
            r@ == warm_key(model_id@, prefix_id@, slot, content_hash),
    {
        let mut key = text::trim(model_id);
        key.append("::");
        key.append(&text::trim(prefix_id));
        key.append("::");
        match slot {
            Some(value) => key.append(&text::decimal(value as u64)),
            None => key.append("noslot"),
        }
        key.append("::");
        let hash: u64 = match content_hash {
            Some(value) => value,
            None => 0,
        };
        key.append(&text::hex(hash, 16));
        key
    }

    /// Whether a prefix was marked warm since the start.
    pub fn is_prefix_warm(
        &self,
        model_id: &str,
        prefix_id: &str,
        slot: Option<u32>,
        content_hash: Option<u64>,
    ) -> (r: bool)
        ensures
            r == self@.warm.contains(warm_key(model_id@, prefix_id@, slot, content_hash)),
    {
        let key = self.warmed_prefix_key(model_id, prefix_id, slot, content_hash);
        text::listed(&self.warmed_prefixes, &key)
    }

    /// Marks a prefix warm.
    pub fn mark_prefix_warm(
        &mut self,
        model_id: &str,
        prefix_id: &str,
        slot: Option<u32>,
        content_hash: Option<u64>,
        estimated_tokens: usize,
    )
        ensures
            final(self)@ == marked(
                old(self)@,
                warm_key(model_id@, prefix_id@, slot, content_hash),
                estimated_tokens as int,
            ),
            old(self)@.wf() ==> final(self)@.wf(),
    {
        let key = self.warmed_prefix_key(model_id, prefix_id, slot, content_hash);
        let ghost before = self@.warm;
        if !text::listed(&self.warmed_prefixes, &key) {
            self.warmed_prefixes.push(key);
            assert(strs::views(self.warmed_prefixes@) =~= before.push(key@));
        }
        let count: u64 = self.warmed_prefixes.len() as u64;
        self.stats.warmed_prefix_count = count;
        self.stats.prefix_tokens_total = self.stats.prefix_tokens_total.saturating_add(
            estimated_tokens as u64,
        );
    }

    /// The known prefixes of a model.
    pub fn static_prefixes_for_model(&self, model_id: &str) -> (r: Vec<StaticPrefixSpec>)
        ensures
            strs::deep(r@) == self@.prefixes.filter(
                |p: Prefix| p.model_id == strs::trim(model_id@),
            ),
    {
        let model = text::trim(model_id);
        let ghost all = self@.prefixes;
        let ghost keep = |p: Prefix| p.model_id == strs::trim(model_id@);
        let mut out: Vec<StaticPrefixSpec> = Vec::new();
        let mut i: usize = 0;
        proof {
            reveal(Seq::filter);
            assert(strs::deep(out@) =~= all.take(0).filter(keep));
        }
        while i < self.static_prefixes.len()
            invariant
                i <= self.static_prefixes@.len(),
                model@ == strs::trim(model_id@),
                all == strs::deep(self.static_prefixes@),
                keep == (|p: Prefix| p.model_id == strs::trim(model_id@)),
                strs::deep(out@) == all.take(i as int).filter(keep),
            decreases self.static_prefixes@.len() - i,
        {
            proof {
                reveal(Seq::filter);
                assert(all.take(i + 1).drop_last() =~= all.take(i as int));
                assert(all.take(i + 1).last() == self.static_prefixes@[i as int]@);
            }
            let ghost before = strs::deep(out@);
            if text::same(&self.static_prefixes[i].model_id, &model) {
                out.push(self.static_prefixes[i].clone());
                assert(strs::deep(out@) =~= before.push(self.static_prefixes@[i as int]@));
            }
            i += 1;
        }
        assert(all.take(i as int) =~= all);
        out
    }

    /// Takes over a saved state.
    pub fn load_persistent_state(&mut self, state: PersistentDraceCacheState)
        ensures
            final(self)@ == restored(
                old(self)@,
                state.version,
                strs::deep(state.static_prefixes@),
            ),
            old(self)@.wf() ==> final(self)@.wf(),
    {
        if state.version != DRACE_PERSISTENT_STATE_VERSION {
            return ;
        }
        let ghost all = strs::deep(state.static_prefixes@);
        let mut registry: Vec<StaticPrefixSpec> = Vec::new();
        let mut i: usize = 0;
        assert(strs::deep(registry@) =~= put_all(all.take(0)));
        while i < state.static_prefixes.len()
            invariant
                i <= state.static_prefixes@.len(),
                all == strs::deep(state.static_prefixes@),
                strs::deep(registry@) == put_all(all.take(i as int)),
            decreases state.static_prefixes@.len() - i,
        {
            assert(all.take(i + 1).drop_last() =~= all.take(i as int));
            put(&mut registry, state.static_prefixes[i].clone());
            i += 1;
        }
        assert(all.take(i as int) =~= all);
        self.static_prefixes = registry;
        self.warmed_prefixes = Vec::new();
        self.stats.warmed_prefix_count = 0;
        assert(self@.warm =~= Seq::empty());
        proof {
            lemma_put_all_distinct(all);
        }
    }

    /// The state to save.
    pub fn persist_persistent_state(&self) -> (r: PersistentDraceCacheState)
        ensures
            r.version == DRACE_PERSISTENT_STATE_VERSION,
            strs::deep(r.static_prefixes@) == self@.prefixes,
            strs::views(r.warmed_prefixes@) == self@.warm,
    {
        let mut prefixes: Vec<StaticPrefixSpec> = Vec::new();
        let mut i: usize = 0;
        while i < self.static_prefixes.len()
            invariant
                i <= self.static_prefixes@.len(),
                prefixes@ =~= self.static_prefixes@.take(i as int),
            decreases self.static_prefixes@.len() - i,
        {
            prefixes.push(self.static_prefixes[i].clone());
            i += 1;
        }
        assert(prefixes@ =~= self.static_prefixes@);
        PersistentDraceCacheState {
            version: DRACE_PERSISTENT_STATE_VERSION,
            static_prefixes: prefixes,
            warmed_prefixes: text::copy_list(&self.warmed_prefixes),
        }
    }

    /// The static prefix of a stage, made known; with the hash of the content that it replaces.
    pub fn ensure_static_prefix(
        &mut self,
        model_id: &str,
        stage: HybridStage,
        segments: &[PromptSegment],
    ) -> (r: (StaticPrefixSpec, Option<u64>))
        ensures
            ({
                let (prefixes, known, previous) = ensured(
                    old(self)@.prefixes,
                    static_prefix(model_id@, stage, strs::deep(segments@)),
                );
                &&& final(self)@ == (Cache { prefixes, ..old(self)@ })
                &&& r.0@ == known
                &&& r.1 == previous
            }),
            old(self)@.wf() ==> final(self)@.wf(),
    {
        let model = text::trim(model_id);
        let mut id = model.clone();
        id.append("::");
        id.append(stage.as_str());
        let content = render_static_segments(segments);
        let content_hash: u64 = fast_hash64(&content);
        let estimated_tokens: usize = estimate_tokens(&content);
        let ghost before = self@.prefixes;
        let known = position_of(&self.static_prefixes, &id);
        let mut previous: Option<u64> = None;
        if let Some(i) = known {
            let existing = &self.static_prefixes[i];
            if existing.content_hash == content_hash {
                return (existing.clone(), None);
            }
            previous = Some(existing.content_hash);
        }
        let spec = StaticPrefixSpec {
            id,
            model_id: model,
            stage_name: stage.as_str().to_owned(),
            text: content,
            content_hash,
            estimated_tokens,
        };
        assert(spec@ =~= static_prefix(model_id@, stage, strs::deep(segments@)));
        put(&mut self.static_prefixes, spec.clone());
        proof {
            if old(self)@.wf() {
                lemma_put_distinct(before, spec@);
            }
        }
        (spec, previous)
    }

    /// What a stage takes from the cache.
    pub fn plan_stage(
        &self,
        cache_requested: bool,
        stage: HybridStage,
        static_prefix_tokens: usize,
        expected_output_tokens: usize,
    ) -> (r: StageCachePlan)
        ensures
            r@ == plan_for(
                self@.capabilities,
                cache_requested,
                stage,
                static_prefix_tokens as int,
                expected_output_tokens as int,
            ),
    {
        let caps = self.capabilities;
        let synthetic_supported = caps.supports_token_verification
            && caps.supports_synthetic_token_cache;
        let mut bypass: &'static str = if !cache_requested {
            "cache disabled"
        } else if matches!(caps.backend_kind, BackendKind::CliSidecar) {
            "unsupported_backend_cli"
        } else if !caps.supports_prefix_kv_cache && !caps.supports_token_verification
            && !caps.supports_prompt_token_cache && !caps.supports_synthetic_token_cache {
            "unsupported_backend"
        } else if expected_output_tokens > 0 && expected_output_tokens < 80 {
            "short output"
        } else if !stage.is_cache_friendly() {
            "stage not cache-friendly"
        } else {
            ""
        };
        let clear = cache_requested && !matches!(caps.backend_kind, BackendKind::CliSidecar)
            && (caps.supports_prefix_kv_cache || caps.supports_token_verification
            || caps.supports_prompt_token_cache || caps.supports_synthetic_token_cache)
            && !(expected_output_tokens > 0 && expected_output_tokens < 80)
            && stage.is_cache_friendly();
        let use_prompt_token_cache = clear && caps.supports_prompt_token_cache
            && static_prefix_tokens >= 128;
        let use_prefix_kv_cache = clear && caps.supports_prefix_kv_cache
            && caps.supports_resident_model;
        let use_template_renderer = use_prefix_kv_cache && matches!(
            stage,
            HybridStage::RecordSynthesis | HybridStage::RecordReview | HybridStage::GeneralSynthesis
        );
        let use_synthetic_token_cache = clear && synthetic_supported && matches!(
            stage,
            HybridStage::RecordReview
        ) && expected_output_tokens >= 80;
        let cache_applied = use_prompt_token_cache || use_prefix_kv_cache
            || use_synthetic_token_cache || use_template_renderer;
        if clear && !cache_applied {
            bypass = "no beneficial cache path";
        }
        if cache_requested && !synthetic_supported && (use_prefix_kv_cache
            || use_template_renderer) {
            bypass = if use_template_renderer {
                "synthetic_token_cache_verification=unsupported; fallback=PrefixKV+TemplateRenderer"
            } else {
                "synthetic_token_cache_verification=unsupported; fallback=PrefixKV"
            };
        }
        let cache_loaded = use_prompt_token_cache || use_prefix_kv_cache || (
        use_synthetic_token_cache && caps.supports_mmap_cache_pack) || use_template_renderer;
        let mode_applied: &'static str = if use_synthetic_token_cache {
            "FullDRACE"
        } else if use_prefix_kv_cache && use_template_renderer {
            "PrefixKV+TemplateRenderer"
        } else if use_prefix_kv_cache || use_prompt_token_cache {
            "PrefixKV"
        } else {
            "Off"
        };
        StageCachePlan {
            cache_requested,
            cache_loaded,
            cache_applied,
            synthetic_cache_requested: cache_requested,
            synthetic_cache_supported: synthetic_supported,
            synthetic_cache_applied: use_synthetic_token_cache,
            cache_mode_requested: if cache_requested {
                "FullDRACE".to_owned()
            } else {
                "Off".to_owned()
            },
            cache_mode_applied: mode_applied.to_owned(),
            use_prompt_token_cache,
            use_prefix_kv_cache,
            use_template_renderer,
            use_synthetic_token_cache,
            max_candidate_tokens: if use_synthetic_token_cache {
                16
            } else {
                0
            },
            token_cache_lookup_ms: 0,
            draft_provider: if use_template_renderer || use_synthetic_token_cache {
                "template".to_owned()
            } else {
                "noop".to_owned()
            },
            bypass_reason: bypass.to_owned(),
        }
    }

    /// Puts the segments of a prompt in order, renders them, and plans what the stage takes
    /// from the cache.
    pub fn prepare_prompt(
        &mut self,
        model_id: &str,
        stage: HybridStage,
        cache_requested: bool,
        system_segments: Vec<PromptSegment>,
        user_segments: Vec<PromptSegment>,
        expected_output_tokens: usize,
    ) -> (r: PreparedStagePrompt)
        ensures
            ({
                let system = sorting::sorted::<PromptSegment>(strs::deep(system_segments@));
                let user = sorting::sorted::<PromptSegment>(strs::deep(user_segments@));
                let (prefixes, known, previous) = ensured(
                    old(self)@.prefixes,
                    static_prefix(model_id@, stage, system),
                );
                &&& final(self)@ == (Cache { prefixes, ..old(self)@ })
                &&& r.stage == stage
                &&& r.model_id@ == model_id@
                &&& r.static_prefix@ == known
                &&& r.static_prefix_previous_hash == previous
                &&& strs::deep(r.system_segments@) == system
                &&& strs::deep(r.user_segments@) == user
                &&& strs::views(r.system_segment_order@) == labels(system)
                &&& strs::views(r.user_segment_order@) == labels(user)
                &&& r.rendered_system@ == prompt_segments::rendered(system)
                &&& r.rendered_user@ == prompt_segments::rendered(user)
                &&& r.plan@ == plan_for(
                    old(self)@.capabilities,
                    cache_requested,
                    stage,
                    known.estimated_tokens,
                    expected_output_tokens as int,
                )
            }),
            old(self)@.wf() ==> final(self)@.wf(),
    {
        let system_segments = stable_sort(system_segments);
        let user_segments = stable_sort(user_segments);
        let system_segment_order = segment_labels(&system_segments);
        let user_segment_order = segment_labels(&user_segments);
        let (static_prefix, static_prefix_previous_hash) = self.ensure_static_prefix(
            model_id,
            stage,
            &system_segments,
        );
        let rendered_system = render_prompt_segments(&system_segments);
        let rendered_user = render_prompt_segments(&user_segments);
        let plan = self.plan_stage(
            cache_requested,
            stage,
            static_prefix.estimated_tokens,
            expected_output_tokens,
        );
        PreparedStagePrompt {
            stage,
            model_id: model_id.to_owned(),
            static_prefix,
            static_prefix_previous_hash,
            system_segments,
            user_segments,
            system_segment_order,
            user_segment_order,
            rendered_system,
            rendered_user,
            plan,
        }
    }
}

/// The names of the kinds of the segments.
fn segment_labels(segments: &Vec<PromptSegment>) -> (r: Vec<String>)
    ensures
        strs::views(r@) == labels(strs::deep(segments@)),
{
    let mut out: Vec<String> = Vec::new();
    let mut i: usize = 0;
    while i < segments.len()
        invariant
            i <= segments@.len(),
            strs::views(out@) =~= labels(strs::deep(segments@)).take(i as int),
        decreases segments@.len() - i,
    {
        let ghost before = out@;
        out.push(segments[i].kind.label().to_owned());
        assert(strs::views(out@) =~= strs::views(before).push(out@.last()@));
        i += 1;
    }
    assert(labels(strs::deep(segments@)).take(i as int) =~= labels(strs::deep(segments@)));
    out
}

proof fn lemma_put_distinct(s: Seq<Prefix>, p: Prefix)
    requires
        forall|i: int, j: int|
            0 <= i < j < s.len() ==> (#[trigger] s[i]).id != (#[trigger] s[j]).id,
    ensures
        forall|i: int, j: int|
            0 <= i < j < put_prefix(s, p).len() ==> (#[trigger] put_prefix(s, p)[i]).id != (
            #[trigger] put_prefix(s, p)[j]).id,
{
    let t = put_prefix(s, p);
    assert forall|i: int, j: int| 0 <= i < j < t.len() implies (#[trigger] t[i]).id != (
    #[trigger] t[j]).id by {
        if has_prefix(s, p.id) {
            assert(t[i].id == s[i].id && t[j].id == s[j].id);
        } else if j < s.len() {
            assert(t[i] == s[i] && t[j] == s[j]);
        } else {
            assert(t[i] == s[i]);
        }
    }
}

proof fn lemma_put_all_distinct(specs: Seq<Prefix>)
    ensures
        forall|i: int, j: int|
            0 <= i < j < put_all(specs).len() ==> (#[trigger] put_all(specs)[i]).id != (
            #[trigger] put_all(specs)[j]).id,
    decreases specs.len(),
{
    if specs.len() > 0 {
        lemma_put_all_distinct(specs.drop_last());
        lemma_put_distinct(put_all(specs.drop_last()), specs.last());
    }
}

} // verus!
