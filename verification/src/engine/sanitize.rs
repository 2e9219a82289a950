//! Clean text: what is shown to and taken from the models.

use crate::strs;
use crate::text;
use vstd::prelude::*;

verus! {

/// The first `limit` characters.
pub fn strategy_trim(s: &str, limit: usize) -> (r: String)
    ensures
        r@ == strs::first(s@, limit as nat),
{
    text::first(s, limit)
}

/// The characters of the basic plane that stand for something: no private ones and no
/// noncharacters.
pub open spec fn supported(c: char) -> bool {
    &&& c <= '\u{FFFF}'
    &&& !('\u{E000}' <= c <= '\u{F8FF}')
    &&& !('\u{FDD0}' <= c <= '\u{FDEF}')
    &&& c != '\u{FFFE}'
    &&& c != '\u{FFFF}'
}

/// Whether a character is kept in clean text.
pub fn strategy_is_supported_char(c: char) -> (r: bool)
    ensures
        r == supported(c),
{
    c <= '\u{FFFF}' && !('\u{E000}' <= c && c <= '\u{F8FF}') && !('\u{FDD0}' <= c && c
        <= '\u{FDEF}') && c != '\u{FFFE}' && c != '\u{FFFF}'
}

/// What a character becomes in clean text, if anything: line feeds stay, other white space
/// becomes a space, control characters and what is not supported go.
pub open spec fn clean_char(c: char) -> Option<char> {
    if c == '\u{fffd}' || !supported(c) || c == '\r' {
        None
    } else if c == '\n' {
        Some('\n')
    } else if c == '\t' {
        Some(' ')
    } else if strs::is_control(c) {
        None
    } else if strs::is_space(c) {
        Some(' ')
    } else {
        Some(c)
    }
}

/// The text of the cleaned characters, with only the first of several line feeds in a row.
pub open spec fn scrubbed(s: Seq<char>) -> Seq<char>
    decreases s.len(),
{
    if s.len() == 0 {
        Seq::empty()
    } else {
        let head = scrubbed(s.drop_last());
        match clean_char(s.last()) {
            None => head,
            Some(c) => if c == '\n' && head.len() > 0 && head.last() == '\n' {
                head
            } else {
                head.push(c)
            },
        }
    }
}

/// Clean text, without white space around it.
pub open spec fn sanitized(s: Seq<char>) -> Seq<char> {
    strs::trim(scrubbed(s))
}

fn cleaned(c: char) -> (r: Option<char>)
    ensures
        r == clean_char(c),
{
    if c == '\u{fffd}' || !strategy_is_supported_char(c) || c == '\r' {
        None
    } else if c == '\n' {
        Some('\n')
    } else if c == '\t' {
        Some(' ')
    } else if text::is_control(c) {
        None
    } else if text::is_space(c) {
        Some(' ')
    } else {
        Some(c)
    }
}

/// Clean text, without white space around it.
pub fn strategy_sanitize_text(input: &str) -> (r: String)
    ensures
        r@ == sanitized(input@),
{
    let v = text::chars_of(input);
    let mut out = String::new();
    let mut after_line_feed = false;
    let mut i: usize = 0;
    assert(out@ =~= scrubbed(v@.take(0)));
    while i < v.len()
        invariant
            i <= v@.len(),
            out@ == scrubbed(v@.take(i as int)),
            after_line_feed == (out@.len() > 0 && out@.last() == '\n'),
        decreases v@.len() - i,
    {
        assert(v@.take(i + 1).drop_last() =~= v@.take(i as int));
        if let Some(c) = cleaned(v[i]) {
            if !(c == '\n' && after_line_feed) {
                out.push(c);
                after_line_feed = c == '\n';
            }
        }
        i += 1;
    }
    assert(v@.take(i as int) =~= v@);
    text::trim(&out)
}

/// Clean text without white space.
pub open spec fn compact(s: Seq<char>) -> Seq<char> {
    strs::keep(sanitized(s), |c: char| !strs::is_space(c))
}

/// Clean text without white space.
pub fn strategy_compact_text(input: &str) -> (r: String)
    ensures
        r@ == compact(input@),
{
    let clean = strategy_sanitize_text(input);
    let v = text::chars_of(&clean);
    let ghost p = |c: char| !strs::is_space(c);
    let mut out = String::new();
    let mut i: usize = 0;
    assert(out@ =~= strs::keep(v@.take(0), p));
    while i < v.len()
        invariant
            i <= v@.len(),
            p == (|c: char| !strs::is_space(c)),
            out@ == strs::keep(v@.take(i as int), p),
        decreases v@.len() - i,
    {
        assert(v@.take(i + 1).drop_last() =~= v@.take(i as int));
        if !text::is_space(v[i]) {
            out.push(v[i]);
        }
        i += 1;
    }
    assert(v@.take(i as int) =~= v@);
    out
}

/// The number of characters that a prompt may have: the window without the answer and a margin,
/// and at least 1400.
pub open spec fn prompt_budget(n_ctx: u32, max_tokens: u32) -> int {
    let room = n_ctx - (max_tokens + 320);
    if room < 1400 {
        1400
    } else {
        room
    }
}

/// The distance between neighbouring single-precision numbers at the whole number `x`, where
/// that is one or more.
pub open spec fn spacing(x: nat) -> nat
    decreases x,
{
    if x < 16777216 {
        1
    } else {
        2 * spacing(x / 2)
    }
}

/// The whole number `x` rounded to single precision, ties to even.
pub open spec fn single(x: nat) -> nat {
    let u = spacing(x);
    let q = x / u;
    let r = x % u;
    if 2 * r > u || (2 * r == u && q % 2 == 1) {
        (q + 1) * u
    } else {
        q * u
    }
}

/// The share of a long prompt's budget that its beginning gets: 0.68 of it, computed in single
/// precision (0.68 is 11408507 / 2^24 there) and cut to a whole number.
pub open spec fn head_share(budget: nat) -> nat {
    single(single(budget) * 11408507) / 16777216
}

proof fn lemma_spacing(x: nat)
    ensures
        1 <= spacing(x) <= x + 1,
        x >= 16777216 ==> spacing(x) <= x,
    decreases x,
{
    if x >= 16777216 {
        lemma_spacing(x / 2);
    }
}

fn spacing_of(x: u64) -> (r: u64)
    ensures
        r == spacing(x as nat),
    decreases x,
{
    if x < 16777216 {
        1
    } else {
        proof {
            lemma_spacing((x / 2) as nat);
        }
        let half = spacing_of(x / 2);
        2 * half
    }
}

fn single_of(x: u64) -> (r: u64)
    requires
        x <= 0x3fff_ffff_ffff_ffff,
    ensures
        r == single(x as nat),
        r <= 2 * x + 1,
{
    let u = spacing_of(x);
    proof {
        lemma_spacing(x as nat);
        vstd::arithmetic::div_mod::lemma_fundamental_div_mod(x as int, u as int);
    }
    let q: u64 = x / u;
    let r: u64 = x % u;
    assert(q * u <= x) by (nonlinear_arith)
        requires
            x == u * q + r,
            r >= 0,
    ;
    assert((q + 1) * u == q * u + u) by (nonlinear_arith);
    if 2 * r > u || (2 * r == u && q % 2 == 1) {
        (q + 1) * u
    } else {
        q * u
    }
}

fn head_share_of(budget: u32) -> (r: u64)
    ensures
        r == head_share(budget as nat),
        r <= 0x1_0000_0000_0000,
{
    let b = single_of(budget as u64);
    let p = single_of(b * 11408507);
    p / 16777216
}

/// A prompt that fits: as it is, or its beginning and its end with a note between them.
pub open spec fn fitted(s: Seq<char>, n_ctx: u32, max_tokens: u32) -> Seq<char> {
    let budget = prompt_budget(n_ctx, max_tokens);
    if s.len() <= budget {
        s
    } else {
        let head = head_share(budget as nat);
        let tail = if budget < head + 18 {
            0
        } else {
            (budget - head - 18) as nat
        };
        strs::trim_end(strs::first(s, head)) + "\n\n[중간 맥락 일부 압축]\n\n"@ + strs::trim_start(
            strs::last(s, tail),
        )
    }
}

/// Fits a prompt into the window of a model.
pub fn strategy_fit_prompt_to_budget(input: &str, n_ctx: u32, max_tokens: u32) -> (r: String)
    ensures
        r@ == fitted(input@, n_ctx, max_tokens),
{
    let reserved: u64 = max_tokens as u64 + 320;
    let room: u64 = (n_ctx as u64).saturating_sub(reserved);
    let budget: u32 = if room < 1400 {
        1400
    } else {
        room as u32
    };
    if input.unicode_len() <= budget as usize {
        return input.to_owned();
    }
    let head_len: u64 = head_share_of(budget);
    let tail_len: u64 = (budget as u64).saturating_sub(head_len + 18);
    let head = if head_len <= usize::MAX as u64 {
        text::first(input, head_len as usize)
    } else {
        input.to_owned()
    };
    let tail = text::last(input, tail_len as usize);
    let mut out = text::trim_end(&head);
    out.append("\n\n[중간 맥락 일부 압축]\n\n");
    out.append(&text::trim_start(&tail));
    out
}


/// Every character is clean, and no two line feeds stand next to each other.
pub open spec fn is_clean(s: Seq<char>) -> bool {
    &&& forall|i: int| 0 <= i < s.len() ==> clean_char(#[trigger] s[i]) == Some(s[i])
    &&& forall|i: int, j: int|
        0 <= i < s.len() && j == i + 1 && j < s.len() && (#[trigger] s[i]) == '\n' ==> (
        #[trigger] s[j]) != '\n'
}

proof fn lemma_scrubbed_is_clean(s: Seq<char>)
    ensures
        is_clean(scrubbed(s)),
    decreases s.len(),
{
    if s.len() > 0 {
        lemma_scrubbed_is_clean(s.drop_last());
    }
}

proof fn lemma_clean_is_kept(s: Seq<char>)
    requires
        is_clean(s),
    ensures
        scrubbed(s) == s,
    decreases s.len(),
{
    if s.len() > 0 {
        let t = s.drop_last();
        assert forall|i: int| 0 <= i < t.len() implies clean_char(#[trigger] t[i]) == Some(t[i]) by {
            assert(t[i] == s[i]);
        }
        assert forall|i: int, j: int|
            0 <= i < t.len() && j == i + 1 && j < t.len() && (#[trigger] t[i]) == '\n' implies (
        #[trigger] t[j]) != '\n' by {
            assert(t[i] == s[i] && t[j] == s[j]);
        }
        lemma_clean_is_kept(t);
        assert(clean_char(s[s.len() - 1]) == Some(s.last()));
        if t.len() > 0 {
            assert(s[s.len() - 2] == '\n' ==> s[s.len() - 1] != '\n');
        }
        assert(t.push(s.last()) =~= s);
    } else {
        assert(scrubbed(s) =~= s);
    }
}

/// Clean text is clean, has no white space around it, and is not changed by cleaning it again.
pub proof fn sanitizing_twice_is_sanitizing_once(s: Seq<char>)
    ensures
        is_clean(sanitized(s)),
        sanitized(sanitized(s)) == sanitized(s),
{
    let b = scrubbed(s);
    let t = sanitized(s);
    lemma_scrubbed_is_clean(s);
    let from = text::lemma_trim(b);
    assert forall|i: int| 0 <= i < t.len() implies clean_char(#[trigger] t[i]) == Some(t[i]) by {
        assert(t[i] == b[from + i]);
    }
    assert forall|i: int, j: int|
        0 <= i < t.len() && j == i + 1 && j < t.len() && (#[trigger] t[i]) == '\n' implies (
    #[trigger] t[j]) != '\n' by {
        assert(t[i] == b[from + i] && t[j] == b[from + j]);
    }
    lemma_clean_is_kept(t);
    text::lemma_trim_keeps(t);
}

} // verus!
