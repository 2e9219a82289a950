//! The servers that keep models running: where they listen, whether they answer, and when they
//! are started.

use crate::drace::backends::LlamaServerConfig;
use crate::drace::cache_manager::{BackendCapabilities, BackendKind};
use crate::engine::models::{STRATEGY_MODEL_DEFAULT_ID, STRATEGY_MODEL_ROOSY_ID};
use crate::engine::perf;
use crate::engine::perf::strategy_backend_type_label;
use crate::engine::sanitize::strategy_trim;
use crate::strs;
use crate::text;
use vstd::prelude::*;

verus! {

/// Where the server of the default model listens, if the program starts it.
pub const MANAGED_LLAMA_SERVER_HYPERCLOVA_URL: &'static str = "http://127.0.0.1:18081/completion";

/// Where the server of the trained model listens, if the program starts it.
pub const MANAGED_LLAMA_SERVER_ROOSY_URL: &'static str = "http://127.0.0.1:18082/completion";

/// Where the server of the default model used to listen.
pub const LEGACY_LLAMA_SERVER_HYPERCLOVA_URL: &'static str = "http://127.0.0.1:8081/completion";

/// Where the server of the trained model used to listen.
pub const LEGACY_LLAMA_SERVER_ROOSY_URL: &'static str = "http://127.0.0.1:8082/completion";

/// The parts of an address, and the address as it is written up to the end of its path.
#[derive(Debug, Clone)]
pub struct UrlParts {
    pub host: Option<String>,
    pub port: Option<u16>,
    pub path: String,
    pub bare: String,
}

/// The parts of an address, as the contracts see them.
#[verifier::ext_equal]
pub struct Parts {
    pub host: Option<Seq<char>>,
    pub port: Option<u16>,
    pub path: Seq<char>,
    pub bare: Seq<char>,
}

impl View for UrlParts {
    type V = Parts;

    open spec fn view(&self) -> Parts {
        Parts {
            host: strs::opt_view(self.host),
            port: self.port,
            path: self.path@,
            bare: self.bare@,
        }
    }
}

/// The parts of the address that a text holds, as `reqwest::Url` reads it, or why it holds none.
pub uninterp spec fn parsed_url(s: Seq<char>) -> Result<Parts, Seq<char>>;

/// `reqwest::Url::parse`, with the host, the port (or that of the scheme) and the path that it
/// finds, and what is written of the address once `set_query` and `set_fragment` have taken away
/// what follows the path; or the message of its error. They depend on the text alone; the grammar
/// of addresses is left to the url crate.
#[verifier::external_body]
fn parse_url(s: &str) -> (r: Result<UrlParts, String>)
    ensures
        match r {
            Ok(parts) => parsed_url(s@) == Ok::<Parts, Seq<char>>(parts@),
            Err(message) => parsed_url(s@) == Err::<Parts, Seq<char>>(message@),
        },
{
    let mut url = reqwest::Url::parse(s).map_err(|error| error.to_string())?;
    let path = url.path().to_string();
    url.set_query(None);
    url.set_fragment(None);
    Ok(
        UrlParts {
            host: url.host_str().map(str::to_string),
            port: url.port_or_known_default(),
            path,
            bare: url.to_string(),
        },
    )
}

/// An address with another path and without query and fragment, as `reqwest::Url` writes it.
pub uninterp spec fn rebased_url(s: Seq<char>, path: Seq<char>) -> Seq<char>;

/// The url crate can hold the address where its path is exchanged for a beginning of it: it keeps
/// the end of the path in 32 bits, before and after. An empty path becomes one of one character.
pub open spec fn can_be_held(parts: Parts) -> bool {
    strs::byte_len(parts.bare) + (if parts.path.len() == 0 {
        1int
    } else {
        0int
    }) <= u32::MAX
}

/// `reqwest::Url::set_path` on the address that a text holds, after `set_query` and
/// `set_fragment` have taken away what follows the path: what the address is then written as. The
/// path is the one that the address has, without its last steps, or one slash where none is left;
/// it takes no more room than the one it replaces, but for the slash in the place of no path. The
/// url crate panics where the path does not end within 32 bits, before or after.
#[verifier::external_body]
fn rebase_url(s: &str, path: &str) -> (r: Option<String>)
    requires
        parsed_url(s@) matches Ok(parts) && parts.host is Some && can_be_held(parts) && path@
            == set_path_of(parts.path),
    ensures
        match r {
            Some(t) => parsed_url(s@) is Ok && t@ == rebased_url(s@, path@),
            None => parsed_url(s@) is Err,
        },
{
    let mut url = reqwest::Url::parse(s).ok()?;
    url.set_query(None);
    url.set_fragment(None);
    url.set_path(path);
    Some(url.to_string())
}

/// An endpoint of a server.
#[derive(Debug, Clone)]
pub struct StrategyLlamaServerEndpointSpec {
    pub completion_url: String,
    pub base_url: String,
    pub host: String,
    pub port: u16,
    pub loopback: bool,
}

/// An endpoint of a server, as the contracts see it.
#[verifier::ext_equal]
pub struct Endpoint {
    pub completion_url: Seq<char>,
    pub base_url: Seq<char>,
    pub host: Seq<char>,
    pub port: u16,
    pub loopback: bool,
}

impl View for StrategyLlamaServerEndpointSpec {
    type V = Endpoint;

    open spec fn view(&self) -> Endpoint {
        Endpoint {
            completion_url: self.completion_url@,
            base_url: self.base_url@,
            host: self.host@,
            port: self.port,
            loopback: self.loopback,
        }
    }
}

/// A text without an ending, however often it ends with it.
pub open spec fn without_endings(s: Seq<char>, end: Seq<char>) -> Seq<char>
    decreases s.len(),
{
    if end.len() > 0 && strs::ends_with(s, end) {
        without_endings(s.take(s.len() - end.len()), end)
    } else {
        s
    }
}

fn trim_endings(s: &str, end: &str) -> (r: String)
    ensures
        r@ == without_endings(s@, end@),
{
    let mut out = s.to_owned();
    let n: usize = end.unicode_len();
    if n == 0 {
        return out;
    }
    while text::ends_with(&out, end)
        invariant
            n == end@.len(),
            n > 0,
            without_endings(out@, end@) == without_endings(s@, end@),
        ensures
            out@ == without_endings(s@, end@),
        decreases out@.len(),
    {
        let len: usize = out.as_str().unicode_len();
        let ghost before = out@;
        out = text::first(&out, len - n);
        assert(out@ =~= before.take(before.len() - end@.len()));
    }
    out
}

/// The path of a server without its last step to the completions.
pub open spec fn base_path(path: Seq<char>) -> Seq<char> {
    without_endings(strs::trim_end_set(path, "/"@), "/completion"@)
}

/// The path of a server without its last step to the completions.
pub fn base_path_of(path: &str) -> (r: String)
    ensures
        r@ == base_path(path@),
{
    trim_endings(&text::trim_end_set(path, "/"), "/completion")
}

/// The host is this machine.
pub open spec fn is_loopback(host: Seq<char>) -> bool {
    host == "127.0.0.1"@ || host == "localhost"@ || host == "::1"@
}

/// The path that the base of a server is given.
pub open spec fn set_path_of(path: Seq<char>) -> Seq<char> {
    if base_path(path).len() == 0 {
        "/"@
    } else {
        base_path(path)
    }
}

/// The endpoint at an address, given its parts and what the base of the server is written as.
pub open spec fn endpoint_of(address: Seq<char>, parts: Parts, base: Seq<char>) -> Result<
    Endpoint,
    Seq<char>,
> {
    match parts.host {
        None => Err("missing_host"@),
        Some(host) => match parts.port {
            None => Err("missing_port"@),
            Some(port) => Ok(
                Endpoint {
                    completion_url: address,
                    base_url: strs::trim_end_set(base, "/"@),
                    host,
                    port,
                    loopback: is_loopback(host),
                },
            ),
        },
    }
}

/// The view of a result that is an endpoint or an error.
pub open spec fn endpoint_view(r: Result<StrategyLlamaServerEndpointSpec, String>) -> Result<
    Endpoint,
    Seq<char>,
> {
    match r {
        Ok(spec_of) => Ok(spec_of@),
        Err(message) => Err(message@),
    }
}

/// The endpoint at an address, given its parts and what the base of the server is written as.
pub fn endpoint_from_parts(address: &str, parts: &UrlParts, base: &str) -> (r: Result<
    StrategyLlamaServerEndpointSpec,
    String,
>)
    ensures
        endpoint_view(r) == endpoint_of(address@, parts@, base@),
{
    match &parts.host {
        None => Err("missing_host".to_owned()),
        Some(host) => match parts.port {
            None => Err("missing_port".to_owned()),
            Some(port) => {
                let loopback = text::same(host, "127.0.0.1") || text::same(host, "localhost")
                    || text::same(host, "::1");
                Ok(
                    StrategyLlamaServerEndpointSpec {
                        completion_url: address.to_owned(),
                        base_url: text::trim_end_set(base, "/"),
                        host: host.clone(),
                        port,
                        loopback,
                    },
                )
            },
        },
    }
}

/// What an address stands for: an endpoint, or why it is none.
pub open spec fn parsed_endpoint(s: Seq<char>) -> Result<Endpoint, Seq<char>> {
    let address = strs::trim(s);
    if address.len() == 0 {
        Err("endpoint_missing"@)
    } else {
        match parsed_url(address) {
            Err(message) => Err("invalid_url: "@ + message),
            Ok(parts) => endpoint_of(
                address,
                parts,
                rebased_url(address, set_path_of(parts.path)),
            ),
        }
    }
}

/// The url crate can hold the base of the server at an address; where the address stands for no
/// server, there is nothing to hold.
pub open spec fn base_can_be_held(s: Seq<char>) -> bool {
    let address = strs::trim(s);
    address.len() > 0 ==> match parsed_url(address) {
        Ok(parts) => parts.host is Some && parts.port is Some ==> can_be_held(parts),
        Err(_) => true,
    }
}

/// Reads the address of a server.
pub fn parse_llama_server_endpoint(endpoint: &str) -> (r: Result<
    StrategyLlamaServerEndpointSpec,
    String,
>)
    requires
        base_can_be_held(endpoint@),
    ensures
        endpoint_view(r) == parsed_endpoint(endpoint@),
{
    let trimmed = text::trim(endpoint);
    if trimmed.as_str().unicode_len() == 0 {
        return Err("endpoint_missing".to_owned());
    }
    match parse_url(&trimmed) {
        Err(message) => {
            let mut out = "invalid_url: ".to_owned();
            out.append(&message);
            Err(out)
        },
        Ok(parts) => {
            if parts.host.is_none() || parts.port.is_none() {
                return endpoint_from_parts(&trimmed, &parts, "");
            }
            let base = base_path_of(&parts.path);
            let path = if base.as_str().unicode_len() == 0 {
                "/".to_owned()
            } else {
                base
            };
            match rebase_url(&trimmed, &path) {
                Some(rebased) => endpoint_from_parts(&trimmed, &parts, &rebased),
                None => Err("endpoint_missing".to_owned()),
            }
        },
    }
}

/// Reads the address of a server; nothing where the url crate cannot hold its base.
pub fn checked_llama_server_endpoint(endpoint: &str) -> (r: Option<
    Result<StrategyLlamaServerEndpointSpec, String>,
>)
    ensures
        r is Some == base_can_be_held(endpoint@),
        r matches Some(read) ==> endpoint_view(read) == parsed_endpoint(endpoint@),
{
    let trimmed = text::trim(endpoint);
    if trimmed.as_str().unicode_len() > 0 {
        if let Ok(parts) = parse_url(&trimmed) {
            if parts.host.is_some() && parts.port.is_some() {
                let room: u32 = if parts.path.as_str().unicode_len() == 0 {
                    u32::MAX - 1
                } else {
                    u32::MAX
                };
                if text::byte_len(&parts.bare) as u64 > room as u64 {
                    return None;
                }
            }
        }
    }
    Some(parse_llama_server_endpoint(endpoint))
}

/// The address that asks a server for its slots.
pub fn slots_url(endpoint: &StrategyLlamaServerEndpointSpec) -> (r: String)
    ensures
        r@ == endpoint.base_url@ + "/slots"@,
{
    let mut out = endpoint.base_url.clone();
    out.append("/slots");
    out
}

/// What came of a request.
#[derive(Debug, Clone)]
pub enum ProbeReply {
    /// The server answered, with that status.
    Status { success: bool, server_error: bool, status: String },
    /// There was no answer.
    Failure { timeout: bool, connect: bool, detail: String },
}

/// Why a request failed.
pub open spec fn failure_text(
    scope: Seq<char>,
    endpoint: Seq<char>,
    timeout: bool,
    connect: bool,
    detail: Seq<char>,
) -> Seq<char> {
    if timeout {
        (scope + ": timeout ("@ + endpoint + ")"@)
    } else if connect {
        (scope + ": connection_refused ("@ + endpoint + ")"@)
    } else {
        (scope + ": request_failed ("@ + endpoint + ") "@ + detail)
    }
}

/// Why a request failed.
pub fn classify_llama_server_reqwest_error(
    scope: &str,
    endpoint: &str,
    timeout: bool,
    connect: bool,
    detail: &str,
) -> (r: String)
    ensures
        r@ == failure_text(scope@, endpoint@, timeout, connect, detail@),
{
    if timeout {
        let mut out = text::copy(scope);
        out.append(": timeout (");
        out.append(endpoint);
        out.append(")");
        out
    } else if connect {
        let mut out = text::copy(scope);
        out.append(": connection_refused (");
        out.append(endpoint);
        out.append(")");
        out
    } else {
        let mut out = text::copy(scope);
        out.append(": request_failed (");
        out.append(endpoint);
        out.append(") ");
        out.append(detail);
        out
    }
}

/// The view of a result that is fine or an error.
pub open spec fn outcome(r: Result<(), String>) -> Result<(), Seq<char>> {
    match r {
        Ok(_) => Ok(()),
        Err(message) => Err(message@),
    }
}

/// The view of an outcome that may not be decided.
pub open spec fn opt_outcome(r: Option<Result<(), String>>) -> Option<Result<(), Seq<char>>> {
    match r {
        Some(done) => Some(outcome(done)),
        None => None,
    }
}

/// What the answer to the question for slots decides; nothing where the completions have to be
/// asked.
pub open spec fn slots_verdict(url: Seq<char>, reply: ProbeReply) -> Option<Result<(), Seq<char>>> {
    match reply {
        ProbeReply::Status { success, server_error, status } => if success {
            Some(Ok(()))
        } else if server_error {
            Some(Err(("slots_probe_failed: "@ + status@ + " ("@ + url + ")"@)))
        } else {
            None
        },
        ProbeReply::Failure { timeout, connect, detail } => if !timeout && !connect {
            Some(Err(failure_text("slots_probe_failed"@, url, timeout, connect, detail@)))
        } else {
            None
        },
    }
}

/// What the answer to the question for slots decides; nothing where the completions have to be
/// asked.
pub fn judge_slots(slots_url: &str, reply: &ProbeReply) -> (r: Option<Result<(), String>>)
    ensures
        opt_outcome(r) == slots_verdict(slots_url@, *reply),
{
    match reply {
        ProbeReply::Status { success, server_error, status } => {
            if *success {
                Some(Ok(()))
            } else if *server_error {
                let mut out = text::copy("slots_probe_failed: ");
                out.append(status);
                out.append(" (");
                out.append(slots_url);
                out.append(")");
                Some(Err(out))
            } else {
                None
            }
        },
        ProbeReply::Failure { timeout, connect, detail } => {
            if !*timeout && !*connect {
                Some(
                    Err(
                        classify_llama_server_reqwest_error(
                            "slots_probe_failed",
                            slots_url,
                            *timeout,
                            *connect,
                            detail,
                        ),
                    ),
                )
            } else {
                None
            }
        },
    }
}

/// What the answer to an empty completion decides.
pub open spec fn completion_verdict(url: Seq<char>, reply: ProbeReply) -> Result<(), Seq<char>> {
    match reply {
        ProbeReply::Status { success, status, .. } => if success {
            Ok(())
        } else {
            Err(("completion_probe_failed: http_"@ + status@ + " ("@ + url + ")"@))
        },
        ProbeReply::Failure { timeout, connect, detail } => Err(
            failure_text("completion_probe_failed"@, url, timeout, connect, detail@),
        ),
    }
}

/// What the answer to an empty completion decides.
pub fn judge_completion(completion_url: &str, reply: &ProbeReply) -> (r: Result<(), String>)
    ensures
        outcome(r) == completion_verdict(completion_url@, *reply),
{
    match reply {
        ProbeReply::Status { success, status, .. } => {
            if *success {
                Ok(())
            } else {
                let mut out = text::copy("completion_probe_failed: http_");
                out.append(status);
                out.append(" (");
                out.append(completion_url);
                out.append(")");
                Err(out)
            }
        },
        ProbeReply::Failure { timeout, connect, detail } => Err(
            classify_llama_server_reqwest_error(
                "completion_probe_failed",
                completion_url,
                *timeout,
                *connect,
                detail,
            ),
        ),
    }
}

/// How long a probe may take: at least a quarter of a second.
pub fn probe_timeout_ms(timeout_ms: u64) -> (r: u64)
    ensures
        r == if timeout_ms < 250 {
            250
        } else {
            timeout_ms
        },
{
    if timeout_ms < 250 {
        250
    } else {
        timeout_ms
    }
}

/// The message says that a prompt did not fit the window of a server.
pub open spec fn window_exceeded(message: Seq<char>) -> bool {
    strs::contains_any(
        strs::ascii_lower(message),
        seq![
            "exceeds the available context size"@,
            "available context size"@,
            "try increasing it"@,
            "context size"@,
        ],
    )
}

/// Whether a message says that a prompt did not fit the window of a server.
pub fn strategy_error_indicates_ctx_exhausted(message: &str) -> (r: bool)
    ensures
        r == window_exceeded(message@),
{
    let lower = text::ascii_lower(message);
    text::contains_any(
        &lower,
        &[
            "exceeds the available context size",
            "available context size",
            "try increasing it",
            "context size",
        ],
    )
}

/// The address is one that the program looks after itself: none, the managed or the former one.
pub open spec fn is_managed(configured: Seq<char>, managed: Seq<char>, legacy: Seq<char>) -> bool {
    let lower = strs::ascii_lower(strs::trim(configured));
    ||| strs::trim(configured).len() == 0
    ||| lower == strs::ascii_lower(managed)
    ||| lower == strs::ascii_lower(legacy)
}

/// Whether an address is one that the program looks after itself.
pub fn strategy_endpoint_is_managed_candidate(configured: &str, managed: &str, legacy: &str) -> (r:
    bool)
    ensures
        r == is_managed(configured@, managed@, legacy@),
{
    let trimmed = text::trim(configured);
    if trimmed.as_str().unicode_len() == 0 {
        return true;
    }
    let lower = text::ascii_lower(&trimmed);
    text::same(&lower, &text::ascii_lower(managed)) || text::same(
        &lower,
        &text::ascii_lower(legacy),
    )
}

/// The managed address in place of one that the program looks after itself; another one trimmed.
pub fn normalize_loopback_llama_server_endpoint(configured: &str, managed: &str, legacy: &str) -> (r:
    String)
    ensures
        r@ == if is_managed(configured@, managed@, legacy@) {
            managed@
        } else {
            strs::trim(configured@)
        },
{
    if strategy_endpoint_is_managed_candidate(configured, managed, legacy) {
        managed.to_owned()
    } else {
        text::trim(configured)
    }
}

/// The endpoints that were given out, by model.
#[derive(Debug, Clone)]
pub struct EndpointRegistry {
    entries: Vec<(String, String)>,
}

/// The endpoint of a model, from position `i` on.
pub open spec fn entry_from(entries: Seq<(Seq<char>, Seq<char>)>, id: Seq<char>, i: int) -> Option<
    Seq<char>,
>
    decreases entries.len() - i,
{
    if i < 0 || i >= entries.len() {
        None
    } else if entries[i].0 == id {
        Some(entries[i].1)
    } else {
        entry_from(entries, id, i + 1)
    }
}

/// The port that an endpoint listens on.
pub open spec fn port_of(endpoint: Seq<char>) -> Option<u16> {
    match parsed_endpoint(endpoint) {
        Ok(e) => Some(e.port),
        Err(_) => None,
    }
}

/// One of the endpoints listens on the port.
pub open spec fn port_reserved(entries: Seq<(Seq<char>, Seq<char>)>, port: u16) -> bool {
    exists|i: int| 0 <= i < entries.len() && port_of((#[trigger] entries[i]).1) == Some(port)
}

fn endpoint_port(endpoint: &str) -> (r: Option<u16>)
    ensures
        r == port_of(endpoint@),
{
    let trimmed = text::trim(endpoint);
    if trimmed.as_str().unicode_len() == 0 {
        return None;
    }
    match parse_url(&trimmed) {
        Ok(parts) => if parts.host.is_some() {
            parts.port
        } else {
            None
        },
        Err(_) => None,
    }
}

/// The ports of a range that no endpoint listens on.
pub open spec fn free_ports(entries: Seq<(Seq<char>, Seq<char>)>, from: int, to: int) -> Seq<u16>
    decreases to - from + 1,
{
    if from > to {
        Seq::empty()
    } else {
        let head = free_ports(entries, from, to - 1);
        if port_reserved(entries, to as u16) {
            head
        } else {
            head.push(to as u16)
        }
    }
}

/// The ports of a model: from the first to the last.
pub open spec fn port_range(id: Seq<char>) -> (int, int) {
    if id == STRATEGY_MODEL_ROOSY_ID@ {
        (19082, 19140)
    } else {
        (19081, 19139)
    }
}

impl EndpointRegistry {
    /// The endpoints, in the order in which they were given out.
    pub closed spec fn entries(&self) -> Seq<(Seq<char>, Seq<char>)> {
        self.entries@.map_values(|e: (String, String)| (e.0@, e.1@))
    }

    /// No endpoint was given out yet.
    pub fn new() -> (r: Self)
        ensures
            r.entries() == Seq::<(Seq<char>, Seq<char>)>::empty(),
    {
        let r = EndpointRegistry { entries: Vec::new() };
        assert(r.entries() =~= Seq::empty());
        r
    }

    /// The endpoint that was given to a model.
    pub fn saved(&self, model_id: &str) -> (r: Option<String>)
        ensures
            strs::opt_view(r) == entry_from(self.entries(), model_id@, 0),
    {
        let mut i: usize = 0;
        while i < self.entries.len()
            invariant
                i <= self.entries@.len(),
                entry_from(self.entries(), model_id@, 0) == entry_from(
                    self.entries(),
                    model_id@,
                    i as int,
                ),
            decreases self.entries@.len() - i,
        {
            assert(self.entries()[i as int] == (
                self.entries@[i as int].0@,
                self.entries@[i as int].1@,
            ));
            if text::same(&self.entries[i].0, model_id) {
                return Some(self.entries[i].1.clone());
            }
            i += 1;
        }
        None
    }

    /// Whether one of the endpoints listens on the port.
    pub fn port_is_reserved(&self, port: u16) -> (r: bool)
        ensures
            r == port_reserved(self.entries(), port),
    {
        let mut i: usize = 0;
        while i < self.entries.len()
            invariant
                i <= self.entries@.len(),
                forall|j: int|
                    0 <= j < i ==> port_of((#[trigger] self.entries()[j]).1) != Some(port),
            decreases self.entries@.len() - i,
        {
            assert(self.entries()[i as int] == (
                self.entries@[i as int].0@,
                self.entries@[i as int].1@,
            ));
            if let Some(found) = endpoint_port(&self.entries[i].1) {
                if found == port {
                    return true;
                }
            }
            i += 1;
        }
        false
    }

    /// The ports that can be given to a model, in the order in which they are tried.
    pub fn candidate_ports(&self, model_id: &str) -> (r: Vec<u16>)
        ensures
            r@ == free_ports(
                self.entries(),
                port_range(model_id@).0,
                port_range(model_id@).1,
            ),
    {
        let (from, to): (u16, u16) = if text::same(model_id, STRATEGY_MODEL_ROOSY_ID) {
            (19082, 19140)
        } else {
            (19081, 19139)
        };
        let mut out: Vec<u16> = Vec::new();
        let mut port: u16 = from;
        while port <= to
            invariant
                from <= port <= to + 1,
                to < 20000,
                out@ == free_ports(self.entries(), from as int, port - 1),
            decreases to + 1 - port,
        {
            if !self.port_is_reserved(port) {
                out.push(port);
            }
            port += 1;
        }
        out
    }

    /// Gives an endpoint to a model that has none yet.
    pub fn save(&mut self, model_id: &str, endpoint: &str)
        requires
            entry_from(old(self).entries(), model_id@, 0) is None,
        ensures
            final(self).entries() == old(self).entries().push((model_id@, endpoint@)),
    {
        self.entries.push((model_id.to_owned(), endpoint.to_owned()));
        assert(self.entries() =~= old(self).entries().push((model_id@, endpoint@)));
    }
}

/// The endpoint on a port of this machine.
pub fn managed_endpoint(port: u16) -> (r: String)
    ensures
        r@ == ("http://127.0.0.1:"@ + strs::decimal(port as nat) + "/completion"@),
{
    let mut out = text::copy("http://127.0.0.1:");
    out.append(&text::decimal(port as u64));
    out.append("/completion");
    out
}

/// The endpoint of a model for which no port is free.
pub fn usual_managed_endpoint(model_id: &str) -> (r: &'static str)
    ensures
        r@ == if model_id@ == STRATEGY_MODEL_ROOSY_ID@ {
            MANAGED_LLAMA_SERVER_ROOSY_URL@
        } else {
            MANAGED_LLAMA_SERVER_HYPERCLOVA_URL@
        },
{
    if text::same(model_id, STRATEGY_MODEL_ROOSY_ID) {
        MANAGED_LLAMA_SERVER_ROOSY_URL
    } else {
        MANAGED_LLAMA_SERVER_HYPERCLOVA_URL
    }
}

/// An endpoint that was given to a model stays with it, whatever is given out later.
pub proof fn given_endpoints_stay(
    entries: Seq<(Seq<char>, Seq<char>)>,
    id: Seq<char>,
    more: (Seq<char>, Seq<char>),
)
    requires
        entry_from(entries, id, 0) is Some,
    ensures
        entry_from(entries.push(more), id, 0) == entry_from(entries, id, 0),
{
    lemma_entry_push(entries, id, more, 0);
}

/// A model that had no endpoint has the one that it was given.
pub proof fn a_given_endpoint_is_found(
    entries: Seq<(Seq<char>, Seq<char>)>,
    id: Seq<char>,
    endpoint: Seq<char>,
)
    requires
        entry_from(entries, id, 0) is None,
    ensures
        entry_from(entries.push((id, endpoint)), id, 0) == Some(endpoint),
{
    lemma_entry_push(entries, id, (id, endpoint), 0);
}

proof fn lemma_entry_push(
    entries: Seq<(Seq<char>, Seq<char>)>,
    id: Seq<char>,
    more: (Seq<char>, Seq<char>),
    i: int,
)
    requires
        0 <= i <= entries.len(),
    ensures
        entry_from(entries.push(more), id, i) == match entry_from(entries, id, i) {
            Some(e) => Some(e),
            None => if more.0 == id {
                Some(more.1)
            } else {
                None
            },
        },
    decreases entries.len() - i,
{
    let all = entries.push(more);
    if i < entries.len() {
        assert(all[i] == entries[i]);
        lemma_entry_push(entries, id, more, i + 1);
    } else {
        assert(all[i] == more);
        assert(entry_from(all, id, i + 1) is None);
    }
}

/// The ports that can be given to a model are in its range, and none of the endpoints that were
/// given out listens on them.
pub proof fn candidate_ports_are_free(
    entries: Seq<(Seq<char>, Seq<char>)>,
    from: int,
    to: int,
    k: int,
)
    requires
        0 <= from,
        to <= u16::MAX,
        0 <= k < free_ports(entries, from, to).len(),
    ensures
        from <= free_ports(entries, from, to)[k] <= to,
        !port_reserved(entries, free_ports(entries, from, to)[k]),
    decreases to - from + 1,
{
    if from <= to {
        let head = free_ports(entries, from, to - 1);
        if k < head.len() {
            candidate_ports_are_free(entries, from, to - 1, k);
        }
    }
}

/// Where the server of a model listens: at an address of the program's own choice, or at that of
/// the configuration.
#[derive(Debug, Clone)]
pub enum EndpointChoice {
    Managed,
    Fixed(String),
}

/// Where the server of a model listens, as the contracts see it.
pub enum Chosen {
    Managed,
    Fixed(Seq<char>),
}

/// The view of a choice.
pub open spec fn choice_view(c: EndpointChoice) -> Chosen {
    match c {
        EndpointChoice::Managed => Chosen::Managed,
        EndpointChoice::Fixed(s) => Chosen::Fixed(s@),
    }
}

/// The choice for a configured address.
pub open spec fn choice_for(configured: Seq<char>, managed: Seq<char>, legacy: Seq<char>) -> Chosen {
    if is_managed(configured, managed, legacy) {
        Chosen::Managed
    } else {
        Chosen::Fixed(strs::trim(configured))
    }
}

/// Where the server of a model listens, and the slot that it is to use.
pub fn effective_llama_server_endpoint_for_model(config: &LlamaServerConfig, model_id: &str) -> (r: (
    EndpointChoice,
    Option<u32>,
))
    ensures
        choice_view(r.0) == if model_id@ == STRATEGY_MODEL_ROOSY_ID@ {
            choice_for(
                config.roosy_url@,
                MANAGED_LLAMA_SERVER_ROOSY_URL@,
                LEGACY_LLAMA_SERVER_ROOSY_URL@,
            )
        } else {
            choice_for(
                config.hyperclova_url@,
                MANAGED_LLAMA_SERVER_HYPERCLOVA_URL@,
                LEGACY_LLAMA_SERVER_HYPERCLOVA_URL@,
            )
        },
        r.1 == if model_id@ == STRATEGY_MODEL_ROOSY_ID@ {
            config.roosy_slot
        } else {
            config.hyperclova_slot
        },
{
    if text::same(model_id, STRATEGY_MODEL_ROOSY_ID) {
        let choice = if strategy_endpoint_is_managed_candidate(
            &config.roosy_url,
            MANAGED_LLAMA_SERVER_ROOSY_URL,
            LEGACY_LLAMA_SERVER_ROOSY_URL,
        ) {
            EndpointChoice::Managed
        } else {
            EndpointChoice::Fixed(
                normalize_loopback_llama_server_endpoint(
                    &config.roosy_url,
                    MANAGED_LLAMA_SERVER_ROOSY_URL,
                    LEGACY_LLAMA_SERVER_ROOSY_URL,
                ),
            )
        };
        (choice, config.roosy_slot)
    } else {
        let choice = if strategy_endpoint_is_managed_candidate(
            &config.hyperclova_url,
            MANAGED_LLAMA_SERVER_HYPERCLOVA_URL,
            LEGACY_LLAMA_SERVER_HYPERCLOVA_URL,
        ) {
            EndpointChoice::Managed
        } else {
            EndpointChoice::Fixed(
                normalize_loopback_llama_server_endpoint(
                    &config.hyperclova_url,
                    MANAGED_LLAMA_SERVER_HYPERCLOVA_URL,
                    LEGACY_LLAMA_SERVER_HYPERCLOVA_URL,
                ),
            )
        };
        (choice, config.hyperclova_slot)
    }
}

/// The configured endpoint and slot of a model.
pub fn llama_server_endpoint_for_model(config: &LlamaServerConfig, model_id: &str) -> (r: (
    String,
    Option<u32>,
))
    ensures
        r.0@ == if model_id@ == STRATEGY_MODEL_ROOSY_ID@ {
            config.roosy_url@
        } else {
            config.hyperclova_url@
        },
        r.1 == if model_id@ == STRATEGY_MODEL_ROOSY_ID@ {
            config.roosy_slot
        } else {
            config.hyperclova_slot
        },
{
    if text::same(model_id, STRATEGY_MODEL_ROOSY_ID) {
        (config.roosy_url.clone(), config.roosy_slot)
    } else {
        (config.hyperclova_url.clone(), config.hyperclova_slot)
    }
}

/// What is known of the process of a server.
#[derive(Debug, Clone)]
pub enum ProcessState {
    Running,
    Exited(String),
    WaitFailed(String),
    Missing,
    /// The list of processes could not be read.
    Unknown,
}

/// The wait for a server to answer.
#[derive(Debug, Clone)]
pub struct ReadyWait {
    last_error: String,
    successes: u8,
}

impl ReadyWait {
    /// What went wrong last.
    pub closed spec fn error(&self) -> Seq<char> {
        self.last_error@
    }

    /// How often in a row the server answered.
    pub closed spec fn answered(&self) -> u8 {
        self.successes
    }

    /// The wait begins.
    pub fn new() -> (r: Self)
        ensures
            r.error() == "startup_probe_pending"@,
            r.answered() == 0,
    {
        ReadyWait { last_error: "startup_probe_pending".to_owned(), successes: 0 }
    }

    /// Takes the outcome of a probe. The server is ready when it answered twice in a row.
    pub fn probed(&mut self, result: Result<(), String>) -> (ready: bool)
        ensures
            final(self).answered() == match result {
                Ok(_) => if old(self).answered() == 255 {
                    255
                } else {
                    (old(self).answered() + 1) as u8
                },
                Err(_) => 0,
            },
            final(self).error() == match result {
                Ok(_) => old(self).error(),
                Err(message) => message@,
            },
            ready == (result is Ok && final(self).answered() >= 2),
    {
        match result {
            Ok(_) => {
                self.successes = self.successes.saturating_add(1);
                self.successes >= 2
            },
            Err(message) => {
                self.successes = 0;
                self.last_error = message;
                false
            },
        }
    }

    /// Takes what is known of the process. The wait is over where it is gone.
    pub fn watched(&mut self, state: &ProcessState) -> (over: bool)
        ensures
            final(self).answered() == old(self).answered(),
            over == (state is Exited || state is WaitFailed || state is Missing),
            final(self).error() == match *state {
                ProcessState::Exited(status) => "server_exited_early: "@ + status@,
                ProcessState::WaitFailed(reason) => "server_wait_failed: "@ + reason@,
                ProcessState::Missing => "server_registry_missing"@,
                _ => old(self).error(),
            },
    {
        match state {
            ProcessState::Exited(status) => {
                let mut out = "server_exited_early: ".to_owned();
                out.append(status);
                self.last_error = out;
                true
            },
            ProcessState::WaitFailed(reason) => {
                let mut out = "server_wait_failed: ".to_owned();
                out.append(reason);
                self.last_error = out;
                true
            },
            ProcessState::Missing => {
                self.last_error = "server_registry_missing".to_owned();
                true
            },
            _ => false,
        }
    }

    /// What went wrong last.
    pub fn last_error(&self) -> (r: &str)
        ensures
            r@ == self.error(),
    {
        self.last_error.as_str()
    }

    /// What is said where the server did not get ready.
    pub fn failure(&self) -> (r: String)
        ensures
            r@ == "llama_server_startup_timeout: "@ + self.error(),
    {
        let mut out = "llama_server_startup_timeout: ".to_owned();
        out.append(&self.last_error);
        out
    }
}

/// How long the wait for a server may take: at least a second.
pub fn startup_wait_ms(startup_timeout_ms: u64) -> (r: u64)
    ensures
        r == if startup_timeout_ms < 1000 {
            1000
        } else {
            startup_timeout_ms
        },
{
    if startup_timeout_ms < 1000 {
        1000
    } else {
        startup_timeout_ms
    }
}

/// The window that a server is started with.
pub fn server_ctx_size(requested: u32) -> (r: u32)
    ensures
        r == perf::within(requested, 2048, 4096),
{
    if requested < 2048 {
        2048
    } else if requested > 4096 {
        4096
    } else {
        requested
    }
}

/// Refuses to start a server that is not on this machine.
pub fn server_can_be_started(spec_of: &StrategyLlamaServerEndpointSpec, endpoint: &str) -> (r: Result<
    (),
    String,
>)
    ensures
        outcome(r) == if spec_of.loopback {
            Ok(())
        } else {
            Err("manual_endpoint_required: "@ + endpoint@)
        },
{
    if spec_of.loopback {
        Ok(())
    } else {
        let mut out = "manual_endpoint_required: ".to_owned();
        out.append(endpoint);
        Err(out)
    }
}

/// What is done with the process that a server already has.
#[derive(Debug, Clone)]
pub enum ExistingProcess {
    /// It runs as wanted.
    Reuse,
    /// It runs otherwise: it is stopped, for the reason given.
    Replace(String),
    /// It does not run any more, for the reason given.
    Gone(String),
}

/// What is done with the process that a server already has.
pub fn judge_existing_process(
    state: &ProcessState,
    process_endpoint: &str,
    process_ctx_size: u32,
    endpoint: &str,
    desired_ctx_size: u32,
) -> (r: ExistingProcess)
    ensures
        r is Reuse == (state is Running && process_endpoint@ == endpoint@ && process_ctx_size
            >= desired_ctx_size),
        r is Replace == (state is Running && !(process_endpoint@ == endpoint@ && process_ctx_size
            >= desired_ctx_size)),
        r matches ExistingProcess::Replace(reason) ==> reason@
            == ("server_restarted_for_ctx_or_endpoint: endpoint="@ + process_endpoint@ + " ctx_size="@ + strs::decimal(process_ctx_size as nat) + " desired_ctx="@ + strs::decimal(desired_ctx_size as nat)),
        r matches ExistingProcess::Gone(reason) ==> reason@ == match *state {
            ProcessState::Exited(status) => "server_exited: "@ + status@,
            ProcessState::WaitFailed(why) => "server_wait_failed: "@ + why@,
            _ => "server_registry_missing"@,
        },
{
    match state {
        ProcessState::Running => {
            if text::same(process_endpoint, endpoint) && process_ctx_size >= desired_ctx_size {
                ExistingProcess::Reuse
            } else {
                let mut out = text::copy("server_restarted_for_ctx_or_endpoint: endpoint=");
                out.append(process_endpoint);
                out.append(" ctx_size=");
                out.append(&text::decimal(process_ctx_size as u64));
                out.append(" desired_ctx=");
                out.append(&text::decimal(desired_ctx_size as u64));
                ExistingProcess::Replace(out)
            }
        },
        ProcessState::Exited(status) => {
            let mut out = "server_exited: ".to_owned();
            out.append(status);
            ExistingProcess::Gone(out)
        },
        ProcessState::WaitFailed(why) => {
            let mut out = "server_wait_failed: ".to_owned();
            out.append(why);
            ExistingProcess::Gone(out)
        },
        _ => ExistingProcess::Gone("server_registry_missing".to_owned()),
    }
}

/// What a server is started with.
pub open spec fn server_args(
    host: Seq<char>,
    port: u16,
    ctx_size: u32,
    threads: u32,
    model_path: Seq<char>,
) -> Seq<Seq<char>> {
    seq![
        "--host"@,
        host,
        "--port"@,
        strs::decimal(port as nat),
        "--slots"@,
        "--cache-ram"@,
        "4096"@,
        "--ctx-checkpoints"@,
        "32"@,
        "--parallel"@,
        "1"@,
        "--ctx-size"@,
        strs::decimal(ctx_size as nat),
        "--threads"@,
        strs::decimal(threads as nat),
        "--threads-batch"@,
        strs::decimal(threads as nat),
        "--no-warmup"@,
        "--model"@,
        model_path,
    ]
}

/// What a server is started with, on at least two threads.
pub fn server_arguments(
    spec_of: &StrategyLlamaServerEndpointSpec,
    ctx_size: u32,
    default_threads: u32,
    model_path: &str,
) -> (r: Vec<String>)
    ensures
        strs::views(r@) == server_args(
            spec_of.host@,
            spec_of.port,
            ctx_size,
            if default_threads < 2 {
                2
            } else {
                default_threads
            },
            model_path@,
        ),
{
    let threads: u32 = if default_threads < 2 {
        2
    } else {
        default_threads
    };
    let port = text::decimal(spec_of.port as u64);
    let window = text::decimal(ctx_size as u64);
    let count = text::decimal(threads as u64);
    let r = text::owned(
        &[
            "--host",
            spec_of.host.as_str(),
            "--port",
            port.as_str(),
            "--slots",
            "--cache-ram",
            "4096",
            "--ctx-checkpoints",
            "32",
            "--parallel",
            "1",
            "--ctx-size",
            window.as_str(),
            "--threads",
            count.as_str(),
            "--threads-batch",
            count.as_str(),
            "--no-warmup",
            "--model",
            model_path,
        ],
    );
    assert(strs::views(r@) =~= server_args(spec_of.host@, spec_of.port, ctx_size, threads, model_path@));
    r
}

/// What is said where a server could not be started.
pub fn server_spawn_failure(error: &str, runner: &str) -> (r: String)
    ensures
        r@ == ("llama_server_spawn_failed: "@ + strs::first(error@, 180) + " ("@ + runner@ + ")"@),
{
    let mut out = text::copy("llama_server_spawn_failed: ");
    out.append(&strategy_trim(error, 180));
    out.append(" (");
    out.append(runner);
    out.append(")");
    out
}

/// What is done next to find out whether a server can be used.
#[derive(Debug)]
pub enum ServerStep {
    /// It is asked.
    Probe,
    /// It is started, or found running.
    Start,
    /// Its process is stopped, and it is started.
    Restart,
    /// It is known.
    Done(Result<(), String>),
}

/// What is done next, as the contracts see it.
pub enum Step {
    Probe,
    Start,
    Restart,
    Done(Result<(), Seq<char>>),
}

/// The view of a step.
pub open spec fn step_view(s: ServerStep) -> Step {
    match s {
        ServerStep::Probe => Step::Probe,
        ServerStep::Start => Step::Start,
        ServerStep::Restart => Step::Restart,
        ServerStep::Done(r) => Step::Done(outcome(r)),
    }
}

/// The question whether a server can be used: how often it was started, and what went wrong.
#[derive(Debug)]
pub struct ServerCheck {
    starts: u8,
    error: String,
    step: ServerStep,
}

/// The question whether a server can be used, as the contracts see it.
pub struct Question {
    pub starts: int,
    pub error: Seq<char>,
    pub step: Step,
}

impl View for ServerCheck {
    type V = Question;

    closed spec fn view(&self) -> Question {
        Question { starts: self.starts as int, error: self.error@, step: step_view(self.step) }
    }
}

impl Question {
    /// The question after the outcome of its step: a server that does not answer is started, then
    /// started once more, and asked after each start.
    pub open spec fn after(self, result: Result<(), Seq<char>>) -> Question {
        match self.step {
            Step::Probe => match result {
                Ok(_) => Question { step: Step::Done(Ok(())), ..self },
                Err(message) => if self.starts == 0 {
                    Question { error: message, step: Step::Start, ..self }
                } else if self.starts == 1 {
                    Question { error: message, step: Step::Restart, ..self }
                } else {
                    Question { error: message, step: Step::Done(Err(message)), ..self }
                },
            },
            Step::Start => match result {
                Ok(_) => Question { starts: 1, step: Step::Probe, ..self },
                Err(message) => Question {
                    starts: 1,
                    error: self.error + "; "@ + message,
                    step: Step::Restart,
                },
            },
            Step::Restart => match result {
                Ok(_) => Question { starts: 2, step: Step::Probe, ..self },
                Err(message) => {
                    let all = self.error + "; restart_retry_failed: "@ + message;
                    Question { starts: 2, error: all, step: Step::Done(Err(all)) }
                },
            },
            Step::Done(_) => self,
        }
    }
}

impl ServerCheck {
    /// The question, before the server was asked.
    pub fn new() -> (r: Self)
        ensures
            r@ == (Question { starts: 0, error: Seq::empty(), step: Step::Probe }),
    {
        let r = ServerCheck { starts: 0, error: String::new(), step: ServerStep::Probe };
        assert(r.error@ =~= Seq::empty());
        r
    }

    /// What is done next.
    pub fn step(&self) -> (r: &ServerStep)
        ensures
            step_view(*r) == self@.step,
    {
        &self.step
    }

    /// Takes the outcome of the step.
    pub fn take(&mut self, result: Result<(), String>)
        ensures
            final(self)@ == old(self)@.after(outcome(result)),
    {
        let next = match &self.step {
            ServerStep::Probe => match result {
                Ok(_) => ServerStep::Done(Ok(())),
                Err(message) => {
                    self.error = message.clone();
                    if self.starts == 0 {
                        ServerStep::Start
                    } else if self.starts == 1 {
                        ServerStep::Restart
                    } else {
                        ServerStep::Done(Err(message))
                    }
                },
            },
            ServerStep::Start => {
                self.starts = 1;
                match result {
                    Ok(_) => ServerStep::Probe,
                    Err(message) => {
                        self.error.append("; ");
                        self.error.append(&message);
                        ServerStep::Restart
                    },
                }
            },
            ServerStep::Restart => {
                self.starts = 2;
                match result {
                    Ok(_) => ServerStep::Probe,
                    Err(message) => {
                        self.error.append("; restart_retry_failed: ");
                        self.error.append(&message);
                        ServerStep::Done(Err(self.error.clone()))
                    },
                }
            },
            ServerStep::Done(_) => {
                return;
            },
        };
        self.step = next;
    }
}

/// A server is started at most twice: the question is closed after at most five steps.
pub proof fn a_server_is_started_at_most_twice(
    a: Result<(), Seq<char>>,
    b: Result<(), Seq<char>>,
    c: Result<(), Seq<char>>,
    d: Result<(), Seq<char>>,
    e: Result<(), Seq<char>>,
)
    ensures
        (Question { starts: 0, error: Seq::empty(), step: Step::Probe }).after(a).after(b).after(
            c,
        ).after(d).after(e).step is Done,
        (Question { starts: 0, error: Seq::empty(), step: Step::Probe }).after(a).after(b).after(
            c,
        ).after(d).after(e).starts <= 2,
{
}

/// A server that answers is used; one that never does is not.
pub proof fn a_question_closes_as_the_last_answer_says(q: Question, result: Result<(), Seq<char>>)
    requires
        q.step is Probe,
        q.after(result).step is Done,
    ensures
        q.after(result).step matches Step::Done(last) && (last is Ok == result is Ok) && (
        result matches Err(message) ==> last == Err::<(), Seq<char>>(message)),
{
}

/// What is known before the servers are asked: how long a probe may take, or why they cannot be
/// used.
pub fn runtime_check_start(
    config: Option<&LlamaServerConfig>,
    hyper_endpoint: &str,
    roosy_endpoint: &str,
) -> (r: Result<u64, String>)
    ensures
        match r {
            Ok(timeout) => {
                &&& config is Some
                &&& strs::trim(config->0.hyperclova_url@).len() > 0
                &&& strs::trim(config->0.roosy_url@).len() > 0
                &&& strs::ascii_lower(hyper_endpoint@) != strs::ascii_lower(roosy_endpoint@)
                &&& timeout == if config->0.startup_timeout_ms > 3000 {
                    3000
                } else if config->0.startup_timeout_ms < 500 {
                    500
                } else {
                    config->0.startup_timeout_ms
                }
            },
            Err(reason) => {
                let missing = config is None || strs::trim(config->0.hyperclova_url@).len() == 0
                    || strs::trim(config->0.roosy_url@).len() == 0;
                &&& missing || strs::ascii_lower(hyper_endpoint@) == strs::ascii_lower(
                    roosy_endpoint@,
                )
                &&& reason@ == if missing {
                    "llama_server_endpoint_missing"@
                } else {
                    ("llama_server_endpoint_collision: hyperclova="@ + hyper_endpoint@ + " / roosy="@ + roosy_endpoint@)
                }
            },
        },
{
    let config = match config {
        Some(c) => c,
        None => {
            return Err("llama_server_endpoint_missing".to_owned());
        },
    };
    if text::is_blank(&config.hyperclova_url) || text::is_blank(&config.roosy_url) {
        return Err("llama_server_endpoint_missing".to_owned());
    }
    if text::same(&text::ascii_lower(hyper_endpoint), &text::ascii_lower(roosy_endpoint)) {
        let mut out = text::copy("llama_server_endpoint_collision: hyperclova=");
        out.append(hyper_endpoint);
        out.append(" / roosy=");
        out.append(roosy_endpoint);
        return Err(out);
    }
    let timeout: u64 = config.startup_timeout_ms;
    Ok(
        if timeout > 3000 {
            3000
        } else if timeout < 500 {
            500
        } else {
            timeout
        },
    )
}

/// Whether both servers can be used, and if not, why.
pub fn runtime_check_result(hyper: &Result<(), String>, roosy: &Result<(), String>) -> (r: (
    bool,
    String,
))
    ensures
        r.0 == (hyper is Ok && roosy is Ok),
        r.1@ == match (outcome(*hyper), outcome(*roosy)) {
            (Ok(_), Ok(_)) => ""@,
            (Err(h), Err(o)) => ("llama_server_unavailable: hyperclova="@ + h + ", roosy="@ + o),
            (Err(h), Ok(_)) => ("llama_server_unavailable: hyperclova="@ + h),
            (Ok(_), Err(o)) => ("llama_server_unavailable: roosy="@ + o),
        },
{
    match hyper {
        Ok(_) => match roosy {
            Ok(_) => (true, "".to_owned()),
            Err(o) => {
                let mut out = text::copy("llama_server_unavailable: roosy=");
                out.append(o);
                (false, out)
            },
        },
        Err(h) => match roosy {
            Ok(_) => {
                let mut out = text::copy("llama_server_unavailable: hyperclova=");
                out.append(h);
                (false, out)
            },
            Err(o) => {
                let mut out = text::copy("llama_server_unavailable: hyperclova=");
                out.append(h);
                out.append(", roosy=");
                out.append(o);
                (false, out)
            },
        },
    }
}

/// The backend in use.
#[derive(Debug, Clone)]
pub struct StrategyBackendRuntime {
    pub capabilities: BackendCapabilities,
    pub llama_server: Option<LlamaServerConfig>,
    pub llama_server_available: bool,
    pub llama_server_unavailable_reason: String,
}

/// The backend in use: where the servers cannot be used, models are started anew for each prompt.
pub fn strategy_backend_runtime(
    detected: BackendCapabilities,
    llama_server: Option<LlamaServerConfig>,
    available: bool,
    reason: String,
) -> (r: StrategyBackendRuntime)
    ensures
        detected.backend_kind is LlamaServer && !available ==> r.capabilities
            == BackendCapabilities::cli_only(),
        !(detected.backend_kind is LlamaServer && !available) ==> r.capabilities == detected,
        r.llama_server == llama_server,
        r.llama_server_available == (detected.backend_kind is LlamaServer && available),
        r.llama_server_unavailable_reason@ == if detected.backend_kind is LlamaServer {
            reason@
        } else {
            ""@
        },
{
    let server = match detected.backend_kind {
        BackendKind::LlamaServer => true,
        _ => false,
    };
    StrategyBackendRuntime {
        capabilities: if server && !available {
            BackendCapabilities::cli()
        } else {
            detected
        },
        llama_server,
        llama_server_available: server && available,
        llama_server_unavailable_reason: if server {
            reason
        } else {
            "".to_owned()
        },
    }
}

/// What came of making the backend ready ahead of time.
#[derive(Debug, Clone)]
pub struct StrategyBackendPrewarmResult {
    pub backend_kind: String,
    pub ready: bool,
    pub reason: String,
    pub hyperclova_endpoint: String,
    pub roosy_endpoint: String,
}

/// What comes of making a backend ready that has no servers to make ready, if that is the case.
pub fn prewarm_without_servers(kind: BackendKind, configured: bool) -> (r: Option<
    StrategyBackendPrewarmResult,
>)
    ensures
        r is None == (kind is LlamaServer && configured),
        r matches Some(p) ==> {
            &&& p.backend_kind@ == perf::backend_label(kind)
            &&& !p.ready
            &&& p.reason@ == if kind is LlamaServer {
                "llama_server_endpoint_missing"@
            } else {
                "cache_disabled_or_cli_mode"@
            }
            &&& p.hyperclova_endpoint@ == ""@
            &&& p.roosy_endpoint@ == ""@
        },
{
    let reason = match kind {
        BackendKind::LlamaServer => {
            if configured {
                return None;
            }
            "llama_server_endpoint_missing"
        },
        _ => "cache_disabled_or_cli_mode",
    };
    Some(
        StrategyBackendPrewarmResult {
            backend_kind: strategy_backend_type_label(kind).to_owned(),
            ready: false,
            reason: reason.to_owned(),
            hyperclova_endpoint: "".to_owned(),
            roosy_endpoint: "".to_owned(),
        },
    )
}

/// What came of making the servers ready.
pub fn prewarm_strategy_backend(
    ready: bool,
    reason: String,
    hyperclova_endpoint: String,
    roosy_endpoint: String,
) -> (r: StrategyBackendPrewarmResult)
    ensures
        r.backend_kind@ == if ready {
            "llama-server"@
        } else {
            "cli"@
        },
        r.ready == ready,
        r.reason@ == reason@,
        r.hyperclova_endpoint@ == hyperclova_endpoint@,
        r.roosy_endpoint@ == roosy_endpoint@,
{
    StrategyBackendPrewarmResult {
        backend_kind: if ready {
            "llama-server".to_owned()
        } else {
            "cli".to_owned()
        },
        ready,
        reason,
        hyperclova_endpoint,
        roosy_endpoint,
    }
}

} // verus!
