//! The backends that run the models: their settings, the requests that are sent to a
//! llama-server and what is read of its replies.

use crate::drace::cache_manager::{BackendCapabilities, BackendKind};
use crate::json;
use crate::json::{Json, Tree};
use crate::strs;
use crate::text;
use vstd::prelude::*;

verus! {

/// Where the HyperCLOVA server listens where nothing else is set.
pub const DEFAULT_LLAMA_SERVER_HYPERCLOVA_URL: &'static str = "http://127.0.0.1:18081/completion";

/// Where the Roosy server listens where nothing else is set.
pub const DEFAULT_LLAMA_SERVER_ROOSY_URL: &'static str = "http://127.0.0.1:18082/completion";

/// A completion URL of this machine.
pub open spec fn loopback_completion_url(s: Seq<char>) -> bool {
    let lower = strs::ascii_lower(strs::trim(s));
    &&& strs::starts_with(lower, "http://127.0.0.1:"@) || strs::starts_with(
        lower,
        "http://localhost:"@,
    )
    &&& strs::ends_with(lower, "/completion"@)
}

/// Whether a text is a completion URL of this machine.
pub fn is_loopback_completion_url(value: &str) -> (r: bool)
    ensures
        r == loopback_completion_url(value@),
{
    let lower = text::ascii_lower(&text::trim(value));
    (text::starts_with(&lower, "http://127.0.0.1:") || text::starts_with(
        &lower,
        "http://localhost:",
    )) && text::ends_with(&lower, "/completion")
}

/// How the llama-servers are reached.
#[derive(Debug)]
pub struct LlamaServerConfig {
    pub hyperclova_url: String,
    pub roosy_url: String,
    pub cache_prompt: bool,
    pub startup_timeout_ms: u64,
    pub request_timeout_ms: u64,
    pub hyperclova_slot: Option<u32>,
    pub roosy_slot: Option<u32>,
}

impl Clone for LlamaServerConfig {
    fn clone(&self) -> (r: Self)
        ensures
            r == *self,
    {
        LlamaServerConfig {
            hyperclova_url: self.hyperclova_url.clone(),
            roosy_url: self.roosy_url.clone(),
            cache_prompt: self.cache_prompt,
            startup_timeout_ms: self.startup_timeout_ms,
            request_timeout_ms: self.request_timeout_ms,
            hyperclova_slot: self.hyperclova_slot,
            roosy_slot: self.roosy_slot,
        }
    }
}

/// How the llama-servers are reached, as the contracts see it.
#[verifier::ext_equal]
pub struct ServerConfig {
    pub hyperclova_url: Seq<char>,
    pub roosy_url: Seq<char>,
    pub cache_prompt: bool,
    pub startup_timeout_ms: u64,
    pub request_timeout_ms: u64,
    pub hyperclova_slot: Option<u32>,
    pub roosy_slot: Option<u32>,
}

impl View for LlamaServerConfig {
    type V = ServerConfig;

    open spec fn view(&self) -> ServerConfig {
        ServerConfig {
            hyperclova_url: self.hyperclova_url@,
            roosy_url: self.roosy_url@,
            cache_prompt: self.cache_prompt,
            startup_timeout_ms: self.startup_timeout_ms,
            request_timeout_ms: self.request_timeout_ms,
            hyperclova_slot: self.hyperclova_slot,
            roosy_slot: self.roosy_slot,
        }
    }
}

/// The backend in use.
#[derive(Debug, Clone)]
pub struct BackendRuntime {
    pub capabilities: BackendCapabilities,
    pub llama_server: Option<LlamaServerConfig>,
}

/// What the environment says of the backends: the values of its variables, and whether the
/// library of the native backend is there.
#[derive(Debug, Clone)]
pub struct BackendEnvironment {
    pub backend: Option<String>,
    pub hyperclova_url: Option<String>,
    pub roosy_url: Option<String>,
    pub disable_native_verifier: Option<String>,
    pub enable_native_verifier: Option<String>,
    pub experimental_native_backend: Option<String>,
    pub disable_cache_prompt: Option<String>,
    pub startup_timeout_ms: Option<String>,
    pub request_timeout_ms: Option<String>,
    pub hyperclova_slot: Option<String>,
    pub roosy_slot: Option<String>,
    pub native_library_found: bool,
}

/// The values that switch something on.
pub open spec fn flag_on(value: Option<Seq<char>>) -> bool {
    match value {
        Some(s) => s == "1"@ || s == "true"@ || s == "TRUE"@ || s == "yes"@ || s == "on"@,
        None => false,
    }
}

/// Whether the value of a variable switches something on.
pub fn env_flag(value: &Option<String>) -> (r: bool)
    ensures
        r == flag_on(strs::opt_view(*value)),
{
    match value {
        Some(s) => text::same(s, "1") || text::same(s, "true") || text::same(s, "TRUE")
            || text::same(s, "yes") || text::same(s, "on"),
        None => false,
    }
}

/// The number that the value of a variable stands for, where it stands for one.
pub open spec fn number_of(value: Option<Seq<char>>, max: nat) -> Option<nat> {
    match value {
        Some(s) => strs::parse_unsigned(strs::trim(s), max),
        None => None,
    }
}

/// The number that the value of a variable stands for, else `default`.
pub fn env_u64(value: &Option<String>, default: u64) -> (r: u64)
    ensures
        r as nat == match number_of(strs::opt_view(*value), u64::MAX as nat) {
            Some(n) => n,
            None => default as nat,
        },
{
    match value {
        Some(s) => match text::parse_unsigned(&text::trim(s), u64::MAX) {
            Some(n) => n,
            None => default,
        },
        None => default,
    }
}

/// The number that the value of a variable stands for, where it stands for one.
pub fn env_u32_opt(value: &Option<String>) -> (r: Option<u32>)
    ensures
        match r {
            Some(n) => number_of(strs::opt_view(*value), u32::MAX as nat) == Some(n as nat),
            None => number_of(strs::opt_view(*value), u32::MAX as nat) is None,
        },
{
    match value {
        Some(s) => match text::parse_unsigned(&text::trim(s), u32::MAX as u64) {
            Some(n) => Some(n as u32),
            None => None,
        },
        None => None,
    }
}

/// A trimmed text that is not empty.
pub open spec fn nonblank(value: Option<Seq<char>>) -> Option<Seq<char>> {
    match value {
        Some(s) => if strs::trim(s).len() > 0 {
            Some(strs::trim(s))
        } else {
            None
        },
        None => None,
    }
}

fn nonblank_text(value: Option<&str>) -> (r: Option<String>)
    ensures
        strs::opt_view(r) == nonblank(
            match value {
                Some(s) => Some(s@),
                None => None,
            },
        ),
{
    match value {
        Some(s) => {
            let trimmed = text::trim(s);
            if trimmed.unicode_len() > 0 {
                Some(trimmed)
            } else {
                None
            }
        },
        None => None,
    }
}

/// The URL in the settings, else the one in the environment, else the default.
pub open spec fn chosen_url(
    set: Option<Seq<char>>,
    environment: Option<Seq<char>>,
    default: Seq<char>,
) -> Seq<char> {
    match nonblank(set) {
        Some(url) => url,
        None => match nonblank(environment) {
            Some(url) => url,
            None => default,
        },
    }
}

fn choose_url(set: Option<&str>, environment: &Option<String>, default: &str) -> (r: String)
    ensures
        r@ == chosen_url(
            match set {
                Some(s) => Some(s@),
                None => None,
            },
            strs::opt_view(*environment),
            default@,
        ),
{
    if let Some(url) = nonblank_text(set) {
        return url;
    }
    if let Some(value) = environment {
        let trimmed = text::trim(value);
        if trimmed.unicode_len() > 0 {
            return trimmed;
        }
    }
    default.to_owned()
}

/// The native backend is asked for, in the call or else in the environment.
pub open spec fn native_wanted(explicit: Option<Seq<char>>, environment: Option<Seq<char>>) -> bool {
    match nonblank(explicit) {
        Some(kind) => strs::ascii_lower(kind) == "native"@,
        None => match environment {
            Some(kind) => strs::ascii_lower(strs::trim(kind)) == "native"@,
            None => false,
        },
    }
}

/// The native backend may verify tokens: switched on, not switched off, and its library there.
pub open spec fn native_verifies(env: BackendEnvironment) -> bool {
    &&& !flag_on(strs::opt_view(env.disable_native_verifier))
    &&& flag_on(strs::opt_view(env.enable_native_verifier)) || flag_on(
        strs::opt_view(env.experimental_native_backend),
    )
    &&& env.native_library_found
}

/// The capabilities of the native backend.
pub open spec fn native_capabilities(verifies: bool) -> BackendCapabilities {
    BackendCapabilities {
        backend_kind: BackendKind::Native,
        supports_resident: verifies,
        supports_prefix_kv_cache: false,
        supports_prompt_cache: false,
        supports_token_verification: verifies,
        supports_batch_verification: verifies,
        supports_speculative_decode: false,
        supports_prompt_token_cache: false,
        supports_synthetic_token_cache: verifies,
        supports_mmap_cache_pack: false,
        supports_resident_model: verifies,
    }
}

/// The capabilities of a llama-server: it keeps the beginnings of prompts, and verifies no tokens.
pub open spec fn server_capabilities() -> BackendCapabilities {
    BackendCapabilities {
        backend_kind: BackendKind::LlamaServer,
        supports_resident: true,
        supports_prefix_kv_cache: true,
        supports_prompt_cache: true,
        supports_token_verification: false,
        supports_batch_verification: false,
        supports_speculative_decode: false,
        supports_prompt_token_cache: false,
        supports_synthetic_token_cache: false,
        supports_mmap_cache_pack: false,
        supports_resident_model: true,
    }
}

/// The larger of two numbers.
pub open spec fn at_least(value: u64, floor: u64) -> u64 {
    if value < floor {
        floor
    } else {
        value
    }
}

/// The number that the value of a variable stands for, else `default`.
pub open spec fn number_or(value: Option<Seq<char>>, default: u64) -> u64 {
    match number_of(value, u64::MAX as nat) {
        Some(n) => n as u64,
        None => default,
    }
}

/// How the llama-servers are reached: by the settings of the call, where there are any, with
/// lower bounds on the timeouts; else by the environment.
pub open spec fn server_config(
    settings: Option<ServerConfig>,
    env: BackendEnvironment,
) -> ServerConfig {
    match settings {
        Some(config) => ServerConfig {
            hyperclova_url: chosen_url(
                Some(config.hyperclova_url),
                strs::opt_view(env.hyperclova_url),
                DEFAULT_LLAMA_SERVER_HYPERCLOVA_URL@,
            ),
            roosy_url: chosen_url(
                Some(config.roosy_url),
                strs::opt_view(env.roosy_url),
                DEFAULT_LLAMA_SERVER_ROOSY_URL@,
            ),
            startup_timeout_ms: at_least(config.startup_timeout_ms, 90_000),
            request_timeout_ms: at_least(config.request_timeout_ms, 240_000),
            ..config
        },
        None => ServerConfig {
            hyperclova_url: chosen_url(
                None,
                strs::opt_view(env.hyperclova_url),
                DEFAULT_LLAMA_SERVER_HYPERCLOVA_URL@,
            ),
            roosy_url: chosen_url(
                None,
                strs::opt_view(env.roosy_url),
                DEFAULT_LLAMA_SERVER_ROOSY_URL@,
            ),
            cache_prompt: !flag_on(strs::opt_view(env.disable_cache_prompt)),
            startup_timeout_ms: number_or(strs::opt_view(env.startup_timeout_ms), 90_000),
            request_timeout_ms: number_or(strs::opt_view(env.request_timeout_ms), 240_000),
            hyperclova_slot: match number_of(strs::opt_view(env.hyperclova_slot), u32::MAX as nat) {
                Some(n) => Some(n as u32),
                None => None,
            },
            roosy_slot: match number_of(strs::opt_view(env.roosy_slot), u32::MAX as nat) {
                Some(n) => Some(n as u32),
                None => None,
            },
        },
    }
}

/// Chooses the backend: the native one where it is asked for, else the llama-servers.
pub fn detect_backend_runtime(
    explicit_backend_override: Option<&str>,
    llama_server_override: Option<LlamaServerConfig>,
    env: &BackendEnvironment,
) -> (r: BackendRuntime)
    ensures
        ({
            let explicit = match explicit_backend_override {
                Some(s) => Some(s@),
                None => None,
            };
            let settings = match llama_server_override {
                Some(config) => Some(config@),
                None => None,
            };
            if native_wanted(explicit, strs::opt_view(env.backend)) {
                &&& r.capabilities == native_capabilities(native_verifies(*env))
                &&& r.llama_server is None
            } else {
                &&& r.capabilities == server_capabilities()
                &&& r.llama_server matches Some(config) && config@ == server_config(settings, *env)
            }
        }),
{
    let wants_native = match nonblank_text(explicit_backend_override) {
        Some(kind) => text::same(&text::ascii_lower(&kind), "native"),
        None => match &env.backend {
            Some(kind) => text::same(&text::ascii_lower(&text::trim(kind)), "native"),
            None => false,
        },
    };
    if wants_native {
        let verifies = !env_flag(&env.disable_native_verifier) && (env_flag(
            &env.enable_native_verifier,
        ) || env_flag(&env.experimental_native_backend)) && env.native_library_found;
        return BackendRuntime {
            capabilities: BackendCapabilities {
                backend_kind: BackendKind::Native,
                supports_resident: verifies,
                supports_prefix_kv_cache: false,
                supports_prompt_cache: false,
                supports_token_verification: verifies,
                supports_batch_verification: verifies,
                supports_speculative_decode: false,
                supports_prompt_token_cache: false,
                supports_synthetic_token_cache: verifies,
                supports_mmap_cache_pack: false,
                supports_resident_model: verifies,
            },
            llama_server: None,
        };
    }
    let config = match llama_server_override {
        Some(config) => {
            let hyperclova_url = choose_url(
                Some(&config.hyperclova_url),
                &env.hyperclova_url,
                DEFAULT_LLAMA_SERVER_HYPERCLOVA_URL,
            );
            let roosy_url = choose_url(
                Some(&config.roosy_url),
                &env.roosy_url,
                DEFAULT_LLAMA_SERVER_ROOSY_URL,
            );
            LlamaServerConfig {
                hyperclova_url,
                roosy_url,
                cache_prompt: config.cache_prompt,
                startup_timeout_ms: if config.startup_timeout_ms < 90_000 {
                    90_000
                } else {
                    config.startup_timeout_ms
                },
                request_timeout_ms: if config.request_timeout_ms < 240_000 {
                    240_000
                } else {
                    config.request_timeout_ms
                },
                hyperclova_slot: config.hyperclova_slot,
                roosy_slot: config.roosy_slot,
            }
        },
        None => LlamaServerConfig {
            hyperclova_url: choose_url(
                None,
                &env.hyperclova_url,
                DEFAULT_LLAMA_SERVER_HYPERCLOVA_URL,
            ),
            roosy_url: choose_url(None, &env.roosy_url, DEFAULT_LLAMA_SERVER_ROOSY_URL),
            cache_prompt: !env_flag(&env.disable_cache_prompt),
            startup_timeout_ms: env_u64(&env.startup_timeout_ms, 90_000),
            request_timeout_ms: env_u64(&env.request_timeout_ms, 240_000),
            hyperclova_slot: env_u32_opt(&env.hyperclova_slot),
            roosy_slot: env_u32_opt(&env.roosy_slot),
        },
    };
    BackendRuntime {
        capabilities: BackendCapabilities {
            backend_kind: BackendKind::LlamaServer,
            supports_resident: true,
            supports_prefix_kv_cache: true,
            supports_prompt_cache: true,
            supports_token_verification: false,
            supports_batch_verification: false,
            supports_speculative_decode: false,
            supports_prompt_token_cache: false,
            supports_synthetic_token_cache: false,
            supports_mmap_cache_pack: false,
            supports_resident_model: true,
        },
        llama_server: Some(config),
    }
}

/// How a session is run. The sampling settings are in thousandths.
#[derive(Debug, Clone)]
pub struct GenerationSessionOptions {
    pub model_id: String,
    pub endpoint: String,
    pub model_path: Option<String>,
    pub slot: Option<u32>,
    pub cache_prompt: bool,
    pub assistant_prefix: Option<String>,
    pub n_ctx: Option<u32>,
    pub threads: Option<u32>,
    pub max_tokens: u32,
    pub temperature_milli: u32,
    pub top_p_milli: u32,
    pub repeat_penalty_milli: u32,
    pub request_timeout_ms: u64,
}

/// An open session.
#[derive(Debug, Clone)]
pub struct GenerationSessionHandle {
    pub session_id: String,
    pub backend_kind: BackendKind,
    pub model_id: String,
    pub prompt: String,
    pub options: GenerationSessionOptions,
}

/// A request to a llama-server. The sampling settings are in thousandths.
#[derive(Debug, Clone)]
pub struct CompletionRequest {
    pub prompt: String,
    pub n_predict: u32,
    pub temperature_milli: u32,
    pub top_p_milli: u32,
    pub repeat_penalty_milli: u32,
    pub cache_prompt: bool,
    pub id_slot: Option<u32>,
    pub stream: bool,
}

/// What a backend took of a proposed text.
#[derive(Debug)]
pub struct DraftVerifyResult {
    pub accepted_len: usize,
    pub accepted_tokens: Vec<u32>,
    pub accepted_text: String,
    pub rejected_at: Option<usize>,
    pub verify_ms: u128,
    pub correction_token_id: Option<u32>,
}

/// What a backend took of a proposed text, as the contracts see it.
#[verifier::ext_equal]
pub struct Verdict {
    pub accepted_len: int,
    pub accepted_tokens: Seq<u32>,
    pub accepted_text: Seq<char>,
    pub rejected_at: Option<int>,
    pub verify_ms: u128,
    pub correction_token_id: Option<u32>,
}

/// An optional position as a number.
pub open spec fn opt_int(v: Option<usize>) -> Option<int> {
    match v {
        Some(n) => Some(n as int),
        None => None,
    }
}

impl View for DraftVerifyResult {
    type V = Verdict;

    open spec fn view(&self) -> Verdict {
        Verdict {
            accepted_len: self.accepted_len as int,
            accepted_tokens: self.accepted_tokens@,
            accepted_text: self.accepted_text@,
            rejected_at: opt_int(self.rejected_at),
            verify_ms: self.verify_ms,
            correction_token_id: self.correction_token_id,
        }
    }
}

impl DraftVerifyResult {
    /// Nothing taken, nothing refused.
    pub open spec fn nothing() -> Verdict {
        Verdict {
            accepted_len: 0,
            accepted_tokens: Seq::empty(),
            accepted_text: Seq::empty(),
            rejected_at: None,
            verify_ms: 0,
            correction_token_id: None,
        }
    }
}

impl Default for DraftVerifyResult {
    fn default() -> (r: Self)
        ensures
            r@ == DraftVerifyResult::nothing(),
    {
        let r = DraftVerifyResult {
            accepted_len: 0,
            accepted_tokens: Vec::new(),
            accepted_text: String::new(),
            rejected_at: None,
            verify_ms: 0,
            correction_token_id: None,
        };
        assert(r@ =~= DraftVerifyResult::nothing());
        r
    }
}

/// The code points that are characters.
pub open spec fn is_scalar(id: u32) -> bool {
    id < 0xD800 || 0xE000 <= id <= 0x10FFFF
}

/// `char::from_u32` of std: the character with that code point, where there is one.
pub assume_specification[ char::from_u32 ](i: u32) -> (r: Option<char>)
    ensures
        match r {
            Some(c) => is_scalar(i) && c == i as char && c as u32 == i,
            None => !is_scalar(i),
        },
;

/// The text of the ids that are code points of characters.
pub open spec fn text_of_ids(ids: Seq<u32>) -> Seq<char>
    decreases ids.len(),
{
    if ids.len() == 0 {
        Seq::empty()
    } else {
        let head = text_of_ids(ids.drop_last());
        if is_scalar(ids.last()) {
            head.push(ids.last() as char)
        } else {
            head
        }
    }
}

/// The text of the ids that are code points of characters.
pub fn token_ids_to_text(token_ids: &[u32]) -> (r: String)
    ensures
        r@ == text_of_ids(token_ids@),
{
    let mut out = String::new();
    let mut i: usize = 0;
    while i < token_ids.len()
        invariant
            i <= token_ids@.len(),
            out@ == text_of_ids(token_ids@.take(i as int)),
        decreases token_ids@.len() - i,
    {
        assert(token_ids@.take(i + 1).drop_last() =~= token_ids@.take(i as int));
        if let Some(c) = char::from_u32(token_ids[i]) {
            out.push(c);
        }
        i += 1;
    }
    assert(token_ids@.take(i as int) =~= token_ids@);
    out
}

/// The prompt with what the answer has to begin with.
pub open spec fn full_prompt(prompt: Seq<char>, prefix: Option<Seq<char>>) -> Seq<char> {
    match prefix {
        Some(p) => prompt + p,
        None => prompt,
    }
}

/// The length of the longest common beginning of two texts.
pub open spec fn common_len(a: Seq<char>, b: Seq<char>) -> nat
    decreases a.len(),
{
    if a.len() > 0 && b.len() > 0 && a[0] == b[0] {
        1 + common_len(a.skip(1), b.skip(1))
    } else {
        0
    }
}

/// What is taken of a proposed text where the model writes `actual`: their common beginning.
pub open spec fn verdict(candidate: Seq<char>, actual: Seq<char>, verify_ms: u128) -> Verdict {
    let n = common_len(candidate, actual);
    Verdict {
        accepted_len: n as int,
        accepted_tokens: candidate.take(n as int).map_values(|c: char| c as u32),
        accepted_text: candidate.take(n as int),
        rejected_at: if n < candidate.len() {
            Some(n as int)
        } else {
            None
        },
        verify_ms,
        correction_token_id: if n < actual.len() {
            Some(actual[n as int] as u32)
        } else {
            None
        },
    }
}

/// What is taken of a proposed text where the model writes `actual`.
pub fn accept_common_prefix(candidate: &str, actual: &str, verify_ms: u128) -> (r:
    DraftVerifyResult)
    ensures
        r@ == verdict(candidate@, actual@, verify_ms),
{
    let a = text::chars_of(candidate);
    let b = text::chars_of(actual);
    let mut n: usize = 0;
    let mut tokens: Vec<u32> = Vec::new();
    assert(a@.skip(0) =~= a@ && b@.skip(0) =~= b@);
    while n < a.len() && n < b.len() && a[n] == b[n]
        invariant
            n <= a@.len(),
            n <= b@.len(),
            tokens@ =~= a@.take(n as int).map_values(|c: char| c as u32),
            common_len(a@, b@) == n + common_len(a@.skip(n as int), b@.skip(n as int)),
        decreases a@.len() - n,
    {
        assert(a@.skip(n as int)[0] == a@[n as int] && b@.skip(n as int)[0] == b@[n as int]);
        assert(a@.skip(n as int).skip(1) =~= a@.skip(n + 1));
        assert(b@.skip(n as int).skip(1) =~= b@.skip(n + 1));
        tokens.push(a[n] as u32);
        n += 1;
    }
    assert(n < a@.len() ==> a@.skip(n as int)[0] == a@[n as int]);
    assert(n < b@.len() ==> b@.skip(n as int)[0] == b@[n as int]);
    assert(common_len(a@, b@) == n);
    let accepted_text = text::string_of(&a, 0, n);
    assert(accepted_text@ =~= a@.take(n as int));
    let r = DraftVerifyResult {
        accepted_len: n,
        accepted_tokens: tokens,
        accepted_text,
        rejected_at: if n < a.len() {
            Some(n)
        } else {
            None
        },
        verify_ms,
        correction_token_id: if n < b.len() {
            Some(b[n] as u32)
        } else {
            None
        },
    };
    assert(r@ =~= verdict(candidate@, actual@, verify_ms));
    r
}

/// The members of a reply that may hold the answer, in the order in which they are looked at.
pub open spec fn answer_keys() -> Seq<Seq<char>> {
    seq!["content"@, "response"@, "text"@, "completion"@]
}

/// The members of a choice that may hold the answer, in the order in which they are looked at.
pub open spec fn choice_keys() -> Seq<Seq<char>> {
    seq!["content"@, "text"@, "completion"@]
}

/// The answer in one choice of a reply.
pub open spec fn choice_answer(choice: Tree) -> Option<Seq<char>> {
    match json::first_filled(choice, choice_keys(), 0) {
        Some(s) => Some(s),
        None => json::filled_text(json::get_of(choice.get("message"@), "content"@)),
    }
}

/// The first answer in the choices of a reply, from position `i` on.
pub open spec fn choices_answer(choices: Seq<Tree>, i: int) -> Option<Seq<char>>
    decreases choices.len() - i,
{
    if i < 0 || i >= choices.len() {
        None
    } else if choice_answer(choices[i]) is Some {
        choice_answer(choices[i])
    } else {
        choices_answer(choices, i + 1)
    }
}

/// The answer in a reply.
pub open spec fn reply_answer(root: Tree) -> Option<Seq<char>> {
    match json::first_filled(root, answer_keys(), 0) {
        Some(s) => Some(s),
        None => match root.get("choices"@) {
            Some(Tree::List(choices)) => choices_answer(choices, 0),
            _ => None,
        },
    }
}

/// The answer in a reply.
pub fn extract_backend_answer(root: &Json) -> (r: Option<String>)
    ensures
        strs::opt_view(r) == reply_answer(root.tree()),
{
    let keys = ["content", "response", "text", "completion"];
    assert(strs::str_views(keys@) =~= answer_keys());
    let direct = json::first_filled_text(root, &keys);
    if direct.is_some() {
        return direct;
    }
    let choices = match root.get("choices") {
        Some(value) => value.as_list(),
        None => None,
    };
    match choices {
        None => None,
        Some(items) => {
            let ghost all = json::trees(items@);
            let mut i: usize = 0;
            while i < items.len()
                invariant
                    i <= items@.len(),
                    all == json::trees(items@),
                    reply_answer(root.tree()) == choices_answer(all, 0),
                    choices_answer(all, 0) == choices_answer(all, i as int),
                decreases items@.len() - i,
            {
                let choice = &items[i];
                assert(all[i as int] == choice.tree());
                let choice_names = ["content", "text", "completion"];
                assert(strs::str_views(choice_names@) =~= choice_keys());
                let found = json::first_filled_text(choice, &choice_names);
                if found.is_some() {
                    return found;
                }
                let message = json::value_string(
                    json::get_of_json(choice.get("message"), "content"),
                );
                if message.is_some() {
                    return message;
                }
                i += 1;
            }
            None
        },
    }
}

/// The first document of a list that may be missing.
pub open spec fn first_of(t: Option<Tree>) -> Option<Tree> {
    match t {
        Some(Tree::List(items)) => if items.len() > 0 {
            Some(items[0])
        } else {
            None
        },
        _ => None,
    }
}

/// The error that a reply reports.
pub open spec fn reply_error(root: Tree) -> Option<Seq<char>> {
    match json::filled_text(root.get("error"@)) {
        Some(s) => Some(s),
        None => match json::filled_text(root.get("message"@)) {
            Some(s) => Some(s),
            None => json::filled_text(
                json::get_of(
                    json::get_of(first_of(root.get("choices"@)), "message"@),
                    "content"@,
                ),
            ),
        },
    }
}

/// The error that a reply reports.
pub fn extract_backend_error(root: &Json) -> (r: Option<String>)
    ensures
        strs::opt_view(r) == reply_error(root.tree()),
{
    let error = json::value_string(root.get("error"));
    if error.is_some() {
        return error;
    }
    let message = json::value_string(root.get("message"));
    if message.is_some() {
        return message;
    }
    let choice: Option<&Json> = match root.get("choices") {
        Some(Json::List(items)) => if items.len() > 0 {
            assert(json::trees(items@)[0] == items@[0].tree());
            Some(&items[0])
        } else {
            None
        },
        _ => None,
    };
    assert(json::tree_of(choice) == first_of(root.tree().get("choices"@)));
    json::value_string(json::get_of_json(json::get_of_json(choice, "message"), "content"))
}

/// A text on one line, cut after `max` characters.
pub open spec fn debug_line(s: Seq<char>, max: nat) -> Seq<char> {
    let t = strs::trim(strs::replace(strs::replace(s, "\r"@, ""@), "\n"@, " "@));
    if t.len() <= max {
        t
    } else {
        t.take(max as int) + "…"@
    }
}

/// A text on one line, cut after `max_chars` characters.
pub fn trim_backend_debug(input: &str, max_chars: usize) -> (r: String)
    ensures
        r@ == debug_line(input@, max_chars as nat),
{
    proof {
        reveal_strlit("\r");
        reveal_strlit("\n");
    }
    let one = text::replace(input, "\r", "");
    let two = text::replace(&one, "\n", " ");
    let line = text::trim(&two);
    if line.unicode_len() <= max_chars {
        line
    } else {
        let mut out = text::first(&line, max_chars);
        out.append("…");
        out
    }
}

/// The document in a reply with that status and body, or the error to report: what could not be
/// read, or what the server says of its failure. `what` names the request in the messages.
pub open spec fn reply_document(
    what: Seq<char>,
    success: bool,
    status: Seq<char>,
    body: Seq<char>,
) -> Result<Tree, Seq<char>> {
    match json::parsed(body) {
        Err(e) => Err(
            "llama-server "@ + what + "응답을 JSON으로 해석하지 못했어요: "@ + e + " / body="@
                + debug_line(body, 300),
        ),
        Ok(tree) => if success {
            Ok(tree)
        } else {
            Err(
                "llama-server "@ + what + "응답 오류: HTTP "@ + status + " / "@ + (match reply_error(
                    tree,
                ) {
                    Some(e) => e,
                    None => debug_line(body, 260),
                }),
            )
        },
    }
}

/// The document in a reply, or the error to report.
pub fn read_reply(what: &str, success: bool, status: &str, body: &str) -> (r: Result<Json, String>)
    ensures
        match r {
            Ok(json) => reply_document(what@, success, status@, body@) == Ok::<Tree, Seq<char>>(
                json.tree(),
            ),
            Err(e) => reply_document(what@, success, status@, body@) == Err::<Tree, Seq<char>>(e@),
        },
{
    let mut message = "llama-server ".to_owned();
    message.append(what);
    match json::parse(body) {
        Err(e) => {
            message.append("응답을 JSON으로 해석하지 못했어요: ");
            message.append(&e);
            message.append(" / body=");
            message.append(&trim_backend_debug(body, 300));
            Err(message)
        },
        Ok(json) => {
            if success {
                return Ok(json);
            }
            message.append("응답 오류: HTTP ");
            message.append(status);
            message.append(" / ");
            match extract_backend_error(&json) {
                Some(e) => message.append(&e),
                None => message.append(&trim_backend_debug(body, 260)),
            }
            Err(message)
        },
    }
}

/// The sessions of a llama-server.
#[derive(Debug, Clone)]
pub struct LlamaServerSessionBackend;

/// What a session asks of a llama-server.
pub open spec fn session_prompt(session: GenerationSessionHandle) -> Seq<char> {
    full_prompt(session.prompt@, strs::opt_view(session.options.assistant_prefix))
}

/// The slot that is named in a request: none where the server is not to keep the prompt.
pub open spec fn request_slot(session: GenerationSessionHandle) -> Option<u32> {
    if session.options.cache_prompt {
        session.options.slot
    } else {
        None
    }
}

/// The number of tokens that a proposed text is checked over: its characters, within bounds.
pub open spec fn verify_len(candidate: Seq<char>) -> int {
    if candidate.len() < 1 {
        1
    } else if candidate.len() > 24 {
        24
    } else {
        candidate.len() as int
    }
}

impl LlamaServerSessionBackend {
    /// Opens a session; `nonce` tells it apart from the others.
    pub fn open_session(&self, prompt: &str, options: GenerationSessionOptions, nonce: u64) -> (r:
        GenerationSessionHandle)
        ensures
            r.session_id@ == "llama-session-"@ + options.model_id@ + "-"@ + strs::decimal(
                nonce as nat,
            ),
            r.backend_kind == BackendKind::LlamaServer,
            r.model_id@ == options.model_id@,
            r.prompt@ == prompt@,
            r.options == options,
    {
        let mut session_id = "llama-session-".to_owned();
        session_id.append(&options.model_id);
        session_id.append("-");
        session_id.append(&text::decimal(nonce));
        GenerationSessionHandle {
            session_id,
            backend_kind: BackendKind::LlamaServer,
            model_id: options.model_id.clone(),
            prompt: prompt.to_owned(),
            options,
        }
    }

    /// The prompt with what the answer has to begin with.
    fn full_prompt(session: &GenerationSessionHandle) -> (r: String)
        ensures
            r@ == session_prompt(*session),
    {
        let mut prompt = session.prompt.clone();
        if let Some(prefix) = &session.options.assistant_prefix {
            prompt.append(prefix);
        }
        prompt
    }

    /// The request for the answer of a session.
    pub fn generate_request(&self, session: &GenerationSessionHandle) -> (r: CompletionRequest)
        ensures
            r.prompt@ == session_prompt(*session),
            r.n_predict == session.options.max_tokens,
            r.temperature_milli == session.options.temperature_milli,
            r.top_p_milli == session.options.top_p_milli,
            r.repeat_penalty_milli == session.options.repeat_penalty_milli,
            r.cache_prompt == session.options.cache_prompt,
            r.id_slot == request_slot(*session),
            !r.stream,
    {
        CompletionRequest {
            prompt: Self::full_prompt(session),
            n_predict: session.options.max_tokens,
            temperature_milli: session.options.temperature_milli,
            top_p_milli: session.options.top_p_milli,
            repeat_penalty_milli: session.options.repeat_penalty_milli,
            cache_prompt: session.options.cache_prompt,
            id_slot: if session.options.cache_prompt {
                session.options.slot
            } else {
                None
            },
            stream: false,
        }
    }

    /// The document in the reply to a request for an answer.
    pub fn generate_next(&self, success: bool, status: &str, body: &str) -> (r: Result<
        Json,
        String,
    >)
        ensures
            match r {
                Ok(json) => reply_document(""@, success, status@, body@) == Ok::<Tree, Seq<char>>(
                    json.tree(),
                ),
                Err(e) => reply_document(""@, success, status@, body@) == Err::<Tree, Seq<char>>(
                    e@,
                ),
            },
    {
        read_reply("", success, status, body)
    }

    /// The proposed text and the request that checks it; nothing where the text is blank.
    pub fn verify_request(
        &self,
        session: &GenerationSessionHandle,
        proposed_token_ids: &[u32],
    ) -> (r: Option<(String, CompletionRequest)>)
        ensures
            match r {
                Some((candidate, request)) => {
                    &&& candidate@ == text_of_ids(proposed_token_ids@)
                    &&& strs::trim(candidate@).len() > 0
                    &&& request.prompt@ == session_prompt(*session)
                    &&& request.n_predict == verify_len(candidate@)
                    &&& request.temperature_milli == 0
                    &&& request.top_p_milli == 1000
                    &&& request.repeat_penalty_milli == 1000
                    &&& request.cache_prompt == session.options.cache_prompt
                    &&& request.id_slot == request_slot(*session)
                    &&& !request.stream
                },
                None => strs::trim(text_of_ids(proposed_token_ids@)).len() == 0,
            },
    {
        let candidate = token_ids_to_text(proposed_token_ids);
        if text::trim(&candidate).unicode_len() == 0 {
            return None;
        }
        let count: usize = candidate.unicode_len();
        let n_predict: u32 = if count < 1 {
            1
        } else if count > 24 {
            24
        } else {
            count as u32
        };
        let request = CompletionRequest {
            prompt: Self::full_prompt(session),
            n_predict,
            temperature_milli: 0,
            top_p_milli: 1000,
            repeat_penalty_milli: 1000,
            cache_prompt: session.options.cache_prompt,
            id_slot: if session.options.cache_prompt {
                session.options.slot
            } else {
                None
            },
            stream: false,
        };
        Some((candidate, request))
    }

    /// What is taken of a proposed text after the reply to the request that checks it.
    pub fn verify_draft(
        &self,
        candidate: &str,
        success: bool,
        status: &str,
        body: &str,
        verify_ms: u128,
    ) -> (r: Result<DraftVerifyResult, String>)
        ensures
            match reply_document("검증 "@, success, status@, body@) {
                Err(e) => r matches Err(message) && message@ == e,
                Ok(tree) => r matches Ok(result) && result@ == verdict(
                    candidate@,
                    match reply_answer(tree) {
                        Some(s) => s,
                        None => Seq::empty(),
                    },
                    verify_ms,
                ),
            },
    {
        match read_reply("검증 ", success, status, body) {
            Err(e) => Err(e),
            Ok(json) => {
                let actual = match extract_backend_answer(&json) {
                    Some(s) => s,
                    None => String::new(),
                };
                Ok(accept_common_prefix(candidate, &actual, verify_ms))
            },
        }
    }
}

} // verus!
