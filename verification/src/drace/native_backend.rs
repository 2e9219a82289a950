//! The decisions of the native backend, which runs a model inside the program: where its
//! library lies, how a context is set up, and what is taken of what the model writes.

use crate::drace::backends;
use crate::drace::backends::{token_ids_to_text, DraftVerifyResult, Verdict};
use crate::platform::encoding;
use crate::strs;
use crate::text;
use vstd::prelude::*;

verus! {

/// The sessions of the native backend.
#[derive(Debug, Clone)]
pub struct NativeSessionBackend;

/// The paths, below the folder of the program's sources and beside the program, at which the
/// library of the native backend may lie. A path is the list of its parts.
pub open spec fn library_paths(
    sources: Seq<char>,
    program_dir: Option<Seq<char>>,
) -> Seq<Seq<Seq<char>>> {
    let fixed = seq![
        seq![sources, "binaries"@, "libllama.dylib"@],
        seq![sources, "binaries"@, "libllama.0.dylib"@],
    ];
    match program_dir {
        Some(dir) => fixed + seq![
            seq![dir, "libllama.dylib"@],
            seq![dir, "sidecar"@, "libllama.dylib"@],
            seq![dir, "../Resources/sidecar/libllama.dylib"@],
        ],
        None => fixed,
    }
}

/// The texts in a list of lists.
pub open spec fn path_views(v: Seq<Vec<String>>) -> Seq<Seq<Seq<char>>> {
    v.map_values(|p: Vec<String>| strs::views(p@))
}

/// The paths at which the library of the native backend may lie.
pub fn native_library_candidates(sources: &str, program_dir: Option<&str>) -> (r: Vec<Vec<String>>)
    ensures
        path_views(r@) == library_paths(
            sources@,
            match program_dir {
                Some(dir) => Some(dir@),
                None => None,
            },
        ),
{
    let a = text::owned(&[sources, "binaries", "libllama.dylib"]);
    let b = text::owned(&[sources, "binaries", "libllama.0.dylib"]);
    assert(strs::views(a@) =~= seq![sources@, "binaries"@, "libllama.dylib"@]);
    assert(strs::views(b@) =~= seq![sources@, "binaries"@, "libllama.0.dylib"@]);
    let mut out: Vec<Vec<String>> = Vec::new();
    out.push(a);
    out.push(b);
    if let Some(dir) = program_dir {
        let c = text::owned(&[dir, "libllama.dylib"]);
        let d = text::owned(&[dir, "sidecar", "libllama.dylib"]);
        let e = text::owned(&[dir, "../Resources/sidecar/libllama.dylib"]);
        assert(strs::views(c@) =~= seq![dir@, "libllama.dylib"@]);
        assert(strs::views(d@) =~= seq![dir@, "sidecar"@, "libllama.dylib"@]);
        assert(strs::views(e@) =~= seq![dir@, "../Resources/sidecar/libllama.dylib"@]);
        out.push(c);
        out.push(d);
        out.push(e);
    }
    out
}

/// Whether the library of the native backend lies at one of its paths.
pub fn native_verifier_available(found: &[bool]) -> (r: Result<usize, String>)
    ensures
        match r {
            Ok(i) => i < found@.len() && found@[i as int] && forall|j: int|
                0 <= j < i ==> !#[trigger] found@[j],
            Err(e) => e@ == "native_verifier_library_missing"@ && forall|j: int|
                0 <= j < found@.len() ==> !#[trigger] found@[j],
        },
{
    let mut i: usize = 0;
    while i < found.len()
        invariant
            i <= found@.len(),
            forall|j: int| 0 <= j < i ==> !#[trigger] found@[j],
        decreases found@.len() - i,
    {
        if found[i] {
            return Ok(i);
        }
        i += 1;
    }
    Err("native_verifier_library_missing".to_owned())
}

/// The libraries that are loaded before that of the native backend, in their order.
pub fn native_dependencies(allow_metal: bool) -> (r: Vec<String>)
    ensures
        strs::views(r@) == if allow_metal {
            seq![
                "libggml-base.dylib"@,
                "libggml.dylib"@,
                "libggml-cpu.dylib"@,
                "libggml-blas.dylib"@,
                "libggml-rpc.dylib"@,
                "libmtmd.dylib"@,
                "libggml-metal.dylib"@,
            ]
        } else {
            seq![
                "libggml-base.dylib"@,
                "libggml.dylib"@,
                "libggml-cpu.dylib"@,
                "libggml-blas.dylib"@,
                "libggml-rpc.dylib"@,
                "libmtmd.dylib"@,
            ]
        },
{
    if allow_metal {
        text::owned(
            &[
                "libggml-base.dylib",
                "libggml.dylib",
                "libggml-cpu.dylib",
                "libggml-blas.dylib",
                "libggml-rpc.dylib",
                "libmtmd.dylib",
                "libggml-metal.dylib",
            ],
        )
    } else {
        text::owned(
            &[
                "libggml-base.dylib",
                "libggml.dylib",
                "libggml-cpu.dylib",
                "libggml-blas.dylib",
                "libggml-rpc.dylib",
                "libmtmd.dylib",
            ],
        )
    }
}

/// How a context is set up.
#[derive(Debug, Clone, Copy, PartialEq, Eq, Structural)]
pub struct ContextSetup {
    pub n_ctx: u32,
    pub n_batch: u32,
    pub n_ubatch: u32,
    pub n_threads: i32,
}

/// A number brought within bounds.
pub open spec fn clamped(n: u32, low: u32, high: u32) -> u32 {
    if n < low {
        low
    } else if n > high {
        high
    } else {
        n
    }
}

/// How a context is set up: a window of 2048 to 8192 tokens, read in batches of at most 1024 on
/// one to six threads.
pub fn context_setup(n_ctx: Option<u32>, threads: Option<u32>) -> (r: ContextSetup)
    ensures
        r.n_ctx == clamped(
            match n_ctx {
                Some(n) => n,
                None => 4096,
            },
            2048,
            8192,
        ),
        r.n_batch == 1024,
        r.n_ubatch == 1024,
        r.n_threads == clamped(
            match threads {
                Some(n) => n,
                None => 4,
            },
            1,
            6,
        ),
{
    let wanted: u32 = match n_ctx {
        Some(n) => n,
        None => 4096,
    };
    let window: u32 = if wanted < 2048 {
        2048
    } else if wanted > 8192 {
        8192
    } else {
        wanted
    };
    let wanted_threads: u32 = match threads {
        Some(n) => n,
        None => 4,
    };
    let n_threads: i32 = if wanted_threads < 1 {
        1
    } else if wanted_threads > 6 {
        6
    } else {
        wanted_threads as i32
    };
    let n_batch: u32 = if window < 1024 {
        window
    } else {
        1024
    };
    ContextSetup { n_ctx: window, n_batch, n_ubatch: n_batch, n_threads }
}

/// The room that is tried first for the tokens of a text.
pub fn first_token_capacity(prompt: &str) -> (r: Option<i32>)
    ensures
        match r {
            Some(n) => n == (if prompt@.len() < 8 {
                8
            } else {
                prompt@.len() as int
            }) * 4 + 16,
            None => (if prompt@.len() < 8 {
                8
            } else {
                prompt@.len() as int
            }) * 4 + 16 > i32::MAX,
        },
{
    let count: usize = prompt.unicode_len();
    let base: usize = if count < 8 {
        8
    } else {
        count
    };
    if base > 536870907 {
        None
    } else {
        Some((base * 4 + 16) as i32)
    }
}

/// The room that is tried next where the tokens did not fit into `capacity`: what the model
/// asks for (`-written`) or twice as much as before, whichever is more; an error beyond 32768.
pub fn next_token_capacity(capacity: i32, written: i32) -> (r: Result<i32, String>)
    requires
        0 <= capacity,
        written < 0,
    ensures
        ({
            let wanted = if -(written as int) < capacity * 2 {
                capacity * 2
            } else {
                -(written as int)
            };
            match r {
                Ok(n) => n == wanted && wanted <= 32768,
                Err(e) => wanted > 32768 && e@ == "native_verifier_tokenize_overflow"@,
            }
        }),
{
    let asked: i64 = -(written as i64);
    let twice: i64 = capacity as i64 * 2;
    let wanted: i64 = if asked < twice {
        twice
    } else {
        asked
    };
    if wanted > 32768 {
        Err("native_verifier_tokenize_overflow".to_owned())
    } else {
        Ok(wanted as i32)
    }
}

/// The room that is tried next for the text of one token: twice as much; an error beyond 4096.
pub fn next_piece_capacity(capacity: usize) -> (r: Result<usize, String>)
    requires
        capacity <= 4096,
    ensures
        match r {
            Ok(n) => n == capacity * 2 && n <= 4096,
            Err(e) => capacity * 2 > 4096 && e@ == "native_verifier_token_piece_overflow"@,
        },
{
    let next: usize = capacity * 2;
    if next > 4096 {
        Err("native_verifier_token_piece_overflow".to_owned())
    } else {
        Ok(next)
    }
}

/// The text of a token, of the bytes that stand for it; what is no UTF-8 in them is replaced.
pub fn piece_text(bytes: &[u8]) -> (r: String)
    ensures
        r@ == encoding::lossy_text(bytes@),
{
    encoding::text_with_losses(bytes)
}

/// One row of a batch that a model reads.
#[derive(Debug, Clone, Copy, PartialEq, Eq, Structural)]
pub struct BatchRow {
    pub token: i32,
    pub pos: i32,
    pub n_seq_id: i32,
    pub seq_id: i32,
    pub logits: i8,
}

/// The rows of a batch: the tokens at the positions from `start_pos` on, all in one sequence;
/// only the last asks for its logits.
pub fn batch_rows(tokens: &[i32], start_pos: i32) -> (r: Vec<BatchRow>)
    requires
        0 <= start_pos,
        start_pos + tokens@.len() <= i32::MAX,
    ensures
        r@.len() == tokens@.len(),
        forall|i: int|
            0 <= i < r@.len() ==> #[trigger] r@[i] == (BatchRow {
                token: tokens@[i],
                pos: (start_pos + i) as i32,
                n_seq_id: 1,
                seq_id: 0,
                logits: if i + 1 == tokens@.len() {
                    1
                } else {
                    0
                },
            }),
{
    let mut out: Vec<BatchRow> = Vec::new();
    let mut i: usize = 0;
    while i < tokens.len()
        invariant
            0 <= start_pos,
            start_pos + tokens@.len() <= i32::MAX,
            i <= tokens@.len(),
            out@.len() == i,
            forall|k: int|
                0 <= k < i ==> #[trigger] out@[k] == (BatchRow {
                    token: tokens@[k],
                    pos: (start_pos + k) as i32,
                    n_seq_id: 1,
                    seq_id: 0,
                    logits: if k + 1 == tokens@.len() {
                        1
                    } else {
                        0
                    },
                }),
        decreases tokens@.len() - i,
    {
        out.push(
            BatchRow {
                token: tokens[i],
                pos: start_pos + i as i32,
                n_seq_id: 1,
                seq_id: 0,
                logits: if i + 1 == tokens.len() {
                    1
                } else {
                    0
                },
            },
        );
        i += 1;
    }
    out
}

/// An answer while it is written.
#[derive(Debug)]
pub struct NativeGeneration {
    text: String,
    tokens: usize,
    limit: usize,
}

/// An answer while it is written, as the contracts see it.
#[verifier::ext_equal]
pub struct Generation {
    pub text: Seq<char>,
    pub tokens: nat,
    pub limit: nat,
}

impl View for NativeGeneration {
    type V = Generation;

    closed spec fn view(&self) -> Generation {
        Generation { text: self.text@, tokens: self.tokens as nat, limit: self.limit as nat }
    }
}

impl Generation {
    /// The answer is not longer than allowed.
    pub open spec fn wf(self) -> bool {
        self.tokens <= self.limit <= 2048
    }

    /// The answer goes on: there is room, and no empty line was written after 32 tokens.
    pub open spec fn goes_on(self) -> bool {
        self.tokens < self.limit && !(strs::ends_with(self.text, "\n\n"@) && self.tokens >= 32)
    }
}

impl NativeGeneration {
    /// An empty answer of at most `max_tokens` tokens.
    pub fn new(max_tokens: u32) -> (r: Self)
        ensures
            r@ == (Generation {
                text: Seq::empty(),
                tokens: 0,
                limit: clamped(max_tokens, 1, 2048) as nat,
            }),
            r@.wf(),
    {
        let limit: usize = if max_tokens < 1 {
            1
        } else if max_tokens > 2048 {
            2048
        } else {
            max_tokens as usize
        };
        let r = NativeGeneration { text: String::new(), tokens: 0, limit };
        assert(r@.text =~= Seq::empty());
        r
    }

    /// Whether another token is asked for.
    pub fn wants_more(&self) -> (r: bool)
        ensures
            r == self@.goes_on(),
    {
        self.tokens < self.limit && !(text::ends_with(&self.text, "\n\n") && self.tokens >= 32)
    }

    /// Whether the next token goes into the answer: it does not end it and is not empty.
    pub fn accepts(&self, end_of_generation: bool, piece: &str) -> (r: bool)
        ensures
            r == (!end_of_generation && piece@.len() > 0),
    {
        !end_of_generation && piece.unicode_len() > 0
    }

    /// Adds the text of a token.
    pub fn push(&mut self, piece: &str)
        requires
            old(self)@.wf(),
            old(self)@.goes_on(),
        ensures
            final(self)@ == (Generation {
                text: old(self)@.text + piece@,
                tokens: old(self)@.tokens + 1,
                limit: old(self)@.limit,
            }),
            final(self)@.wf(),
    {
        self.text.append(piece);
        self.tokens = self.tokens + 1;
    }

    /// The answer so far.
    pub fn answer(&self) -> (r: (&str, usize))
        ensures
            r.0@ == self@.text,
            r.1 == self@.tokens,
    {
        (self.text.as_str(), self.tokens)
    }
}

/// A proposed text while it is checked against what the model writes.
#[derive(Debug)]
pub struct DraftCheck {
    candidate: String,
    accepted: String,
    tokens: Vec<u32>,
}

/// A proposed text while it is checked, as the contracts see it.
#[verifier::ext_equal]
pub struct Check {
    pub candidate: Seq<char>,
    pub accepted: Seq<char>,
    pub tokens: Seq<u32>,
}

impl View for DraftCheck {
    type V = Check;

    closed spec fn view(&self) -> Check {
        Check { candidate: self.candidate@, accepted: self.accepted@, tokens: self.tokens@ }
    }
}

impl Check {
    /// What was taken is the beginning of what was proposed.
    pub open spec fn wf(self) -> bool {
        strs::starts_with(self.candidate, self.accepted)
    }

    /// The next piece of the model continues the proposed text.
    pub open spec fn fits(self, piece: Seq<char>) -> bool {
        strs::starts_with(self.candidate, self.accepted + piece)
    }
}

/// What happens to the next token of the model.
#[derive(Debug, Clone, Copy, PartialEq, Eq, Structural)]
pub enum CheckStep {
    /// The model writes nothing: the check ends.
    End,
    /// The token continues the proposed text and was taken.
    Taken,
    /// The token does not continue the proposed text.
    Refused,
}

impl DraftCheck {
    /// Begins the check of the text of the proposed ids; nothing where it is blank.
    pub fn start(proposed_token_ids: &[u32]) -> (r: Option<Self>)
        ensures
            match r {
                Some(check) => {
                    &&& check@ == (Check {
                        candidate: backends::text_of_ids(proposed_token_ids@),
                        accepted: Seq::empty(),
                        tokens: Seq::empty(),
                    })
                    &&& check@.wf()
                    &&& strs::trim(check@.candidate).len() > 0
                },
                None => strs::trim(backends::text_of_ids(proposed_token_ids@)).len() == 0,
            },
    {
        let candidate = token_ids_to_text(proposed_token_ids);
        if text::trim(&candidate).unicode_len() == 0 {
            return None;
        }
        let check = DraftCheck { candidate, accepted: String::new(), tokens: Vec::new() };
        assert(check@.accepted =~= Seq::empty());
        assert(check@.candidate.subrange(0, 0) =~= Seq::empty());
        Some(check)
    }

    /// Whether the whole proposed text was taken.
    pub fn is_complete(&self) -> (r: bool)
        ensures
            r == (strs::byte_len(self@.accepted) >= strs::byte_len(self@.candidate)),
    {
        text::byte_len(&self.accepted) >= text::byte_len(&self.candidate)
    }

    /// Offers the next token of the model and its text.
    pub fn offer(&mut self, token: u32, piece: &str) -> (r: CheckStep)
        ensures
            match r {
                CheckStep::End => piece@.len() == 0 && final(self)@ == old(self)@,
                CheckStep::Taken => piece@.len() > 0 && old(self)@.fits(piece@) && final(self)@ == (
                Check {
                    candidate: old(self)@.candidate,
                    accepted: old(self)@.accepted + piece@,
                    tokens: old(self)@.tokens.push(token),
                }) && final(self)@.wf(),
                CheckStep::Refused => piece@.len() > 0 && !old(self)@.fits(piece@)
                    && final(self)@ == old(self)@,
            },
    {
        if piece.unicode_len() == 0 {
            return CheckStep::End;
        }
        let mut next = self.accepted.clone();
        next.append(piece);
        if !text::starts_with(&self.candidate, &next) {
            return CheckStep::Refused;
        }
        self.accepted = next;
        self.tokens.push(token);
        CheckStep::Taken
    }

    /// What was taken, after the check; `refused` is the token that did not fit, if one did not.
    pub fn finish(self, refused: Option<u32>, verify_ms: u128) -> (r: DraftVerifyResult)
        ensures
            r@ == (Verdict {
                accepted_len: self@.accepted.len() as int,
                accepted_tokens: self@.tokens,
                accepted_text: self@.accepted,
                rejected_at: if refused is Some {
                    Some(self@.accepted.len() as int)
                } else {
                    None
                },
                verify_ms,
                correction_token_id: refused,
            }),
    {
        let accepted_len: usize = self.accepted.as_str().unicode_len();
        let rejected_at: Option<usize> = match refused {
            Some(_) => Some(accepted_len),
            None => None,
        };
        DraftVerifyResult {
            accepted_len,
            accepted_tokens: self.tokens,
            accepted_text: self.accepted,
            rejected_at,
            verify_ms,
            correction_token_id: refused,
        }
    }
}

} // verus!
