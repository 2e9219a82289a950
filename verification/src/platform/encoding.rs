//! Texts as bytes: UTF-8, UTF-16, hexadecimal and Base64.

use crate::drace::hashing;
use crate::strs;
use crate::text;
use vstd::prelude::*;
use vstd::utf8::*;

verus! {

/// The code units of a character in UTF-16.
pub open spec fn char_units(c: char) -> Seq<u16> {
    let n = c as u32;
    if n < 0x10000 {
        seq![n as u16]
    } else {
        seq![
            (0xD800 + (n - 0x10000) / 0x400) as u16,
            (0xDC00 + (n - 0x10000) % 0x400) as u16,
        ]
    }
}

/// The code units of a text in UTF-16.
pub open spec fn utf16(s: Seq<char>) -> Seq<u16>
    decreases s.len(),
{
    if s.len() == 0 {
        Seq::empty()
    } else {
        char_units(s[0]) + utf16(s.skip(1))
    }
}

/// Whether a code unit opens a pair.
pub open spec fn opens_pair(u: u16) -> bool {
    0xD800 <= u < 0xDC00
}

/// Whether a code unit closes a pair.
pub open spec fn closes_pair(u: u16) -> bool {
    0xDC00 <= u < 0xE000
}

/// The code point of a pair of code units.
pub open spec fn pair_point(high: u16, low: u16) -> int {
    0x10000 + (high - 0xD800) * 0x400 + (low - 0xDC00)
}

/// A character before what follows it, where that could be read.
pub open spec fn before_rest(c: char, rest: Option<Seq<char>>) -> Option<Seq<char>> {
    match rest {
        Some(s) => Some(seq![c] + s),
        None => None,
    }
}

/// The text that code units of UTF-16 stand for, where each half of a pair has its other half.
pub open spec fn utf16_text(units: Seq<u16>) -> Option<Seq<char>>
    decreases units.len(),
{
    if units.len() == 0 {
        Some(Seq::empty())
    } else if opens_pair(units[0]) {
        if units.len() > 1 && closes_pair(units[1]) {
            before_rest(pair_point(units[0], units[1]) as char, utf16_text(units.skip(2)))
        } else {
            None
        }
    } else if closes_pair(units[0]) {
        None
    } else {
        before_rest(units[0] as char, utf16_text(units.skip(1)))
    }
}

proof fn lemma_char_units(c: char)
    ensures
        (c as u32) < 0x10000 ==> {
            let u = char_units(c)[0];
            char_units(c).len() == 1 && !opens_pair(u) && !closes_pair(u) && u as char == c
        },
        (c as u32) >= 0x10000 ==> {
            let (u, v) = (char_units(c)[0], char_units(c)[1]);
            char_units(c).len() == 2 && opens_pair(u) && closes_pair(v) && pair_point(u, v) as char
                == c
        },
{
    let n = c as u32;
    assert(n <= 0x10FFFF);
    if n >= 0x10000 {
        assert((n - 0x10000) / 0x400 * 0x400 + (n - 0x10000) % 0x400 == n - 0x10000);
    }
}

/// Reading the code units of a text gives the text.
pub proof fn utf16_is_read_back(s: Seq<char>)
    ensures
        utf16_text(utf16(s)) == Some(s),
    decreases s.len(),
{
    if s.len() > 0 {
        let c = s[0];
        let rest = utf16(s.skip(1));
        let all = utf16(s);
        utf16_is_read_back(s.skip(1));
        lemma_char_units(c);
        assert(all == char_units(c) + rest);
        if (c as u32) < 0x10000 {
            assert(all.skip(1) =~= rest);
        } else {
            assert(all.skip(2) =~= rest);
        }
        assert(seq![c] + s.skip(1) =~= s);
    } else {
        assert(utf16(s) =~= Seq::empty());
        assert(s =~= Seq::empty());
    }
}

proof fn lemma_utf16_len(s: Seq<char>)
    ensures
        utf16(s).len() <= 2 * s.len(),
    decreases s.len(),
{
    if s.len() > 0 {
        lemma_utf16_len(s.skip(1));
    }
}

/// The code units of a text in UTF-16.
pub fn utf16_units(s: &str) -> (r: Vec<u16>)
    ensures
        r@ == utf16(s@),
{
    let v = text::chars_of(s);
    let mut out: Vec<u16> = Vec::new();
    let mut i: usize = 0;
    assert(v@.skip(0) =~= v@);
    while i < v.len()
        invariant
            i <= v@.len(),
            v@ == s@,
            out@ + utf16(v@.skip(i as int)) == utf16(s@),
        decreases v@.len() - i,
    {
        let ghost rest = v@.skip(i as int);
        let ghost before = out@;
        assert(rest[0] == v@[i as int]);
        assert(rest.skip(1) =~= v@.skip(i + 1));
        let n: u32 = v[i] as u32;
        if n < 0x10000 {
            out.push(n as u16);
        } else {
            out.push((0xD800 + (n - 0x10000) / 0x400) as u16);
            out.push((0xDC00 + (n - 0x10000) % 0x400) as u16);
        }
        assert(out@ =~= before + char_units(rest[0]));
        assert(out@ + utf16(v@.skip(i + 1)) =~= before + utf16(rest));
        i += 1;
    }
    assert(out@ + utf16(v@.skip(i as int)) =~= out@);
    out
}

/// What was read, followed by what the rest gives.
pub open spec fn behind(read: Seq<char>, rest: Option<Seq<char>>) -> Option<Seq<char>> {
    match rest {
        Some(s) => Some(read + s),
        None => None,
    }
}

/// The text that code units of UTF-16 stand for, where each half of a pair has its other half.
pub fn text_of_utf16(units: &Vec<u16>) -> (r: Option<String>)
    ensures
        strs::opt_view(r) == utf16_text(units@),
{
    let mut out: Vec<char> = Vec::new();
    let mut i: usize = 0;
    assert(units@.skip(0) =~= units@);
    assert(utf16_text(units@) =~= behind(out@, utf16_text(units@.skip(0)))) by {
        if let Some(s) = utf16_text(units@) {
            assert(out@ + s =~= s);
        }
    }
    while i < units.len()
        invariant
            i <= units@.len(),
            utf16_text(units@) == behind(out@, utf16_text(units@.skip(i as int))),
        decreases units@.len() - i,
    {
        let ghost rest = units@.skip(i as int);
        let ghost before = out@;
        let u: u16 = units[i];
        assert(rest[0] == u);
        if 0xD800 <= u && u < 0xDC00 {
            if i + 1 >= units.len() {
                return None;
            }
            let low: u16 = units[i + 1];
            assert(rest[1] == low);
            if low < 0xDC00 || low >= 0xE000 {
                return None;
            }
            let point: u32 = 0x10000 + (u as u32 - 0xD800) * 0x400 + (low as u32 - 0xDC00);
            match char::from_u32(point) {
                Some(c) => {
                    out.push(c);
                    proof {
                        assert(rest.skip(2) =~= units@.skip(i + 2));
                        if let Some(s) = utf16_text(rest.skip(2)) {
                            assert(before + (seq![c] + s) =~= out@ + s);
                        }
                    }
                },
                None => {
                    return None;
                },
            }
            i += 2;
        } else if 0xDC00 <= u && u < 0xE000 {
            return None;
        } else {
            match char::from_u32(u as u32) {
                Some(c) => {
                    out.push(c);
                    proof {
                        assert(rest.skip(1) =~= units@.skip(i + 1));
                        if let Some(s) = utf16_text(rest.skip(1)) {
                            assert(before + (seq![c] + s) =~= out@ + s);
                        }
                    }
                },
                None => {
                    return None;
                },
            }
            i += 1;
        }
    }
    assert(out@ + Seq::<char>::empty() =~= out@);
    let whole = text::string_of(&out, 0, out.len());
    assert(out@.subrange(0, out@.len() as int) =~= out@);
    Some(whole)
}

/// Code units as bytes, the lower byte of each first.
pub open spec fn little_endian(units: Seq<u16>) -> Seq<u8>
    decreases units.len(),
{
    if units.len() == 0 {
        Seq::empty()
    } else {
        seq![(units[0] % 256) as u8, (units[0] / 256) as u8] + little_endian(units.skip(1))
    }
}

/// The code units of pairs of bytes, the lower byte of each first; a single byte at the end
/// belongs to none.
pub open spec fn units_of(bytes: Seq<u8>) -> Seq<u16>
    decreases bytes.len(),
{
    if bytes.len() < 2 {
        Seq::empty()
    } else {
        seq![(bytes[0] + 256 * bytes[1]) as u16] + units_of(bytes.skip(2))
    }
}

/// The bytes of code units give the code units back.
pub proof fn code_units_are_read_back(units: Seq<u16>)
    ensures
        units_of(little_endian(units)) == units,
        little_endian(units).len() == 2 * units.len(),
    decreases units.len(),
{
    if units.len() > 0 {
        code_units_are_read_back(units.skip(1));
        let all = little_endian(units);
        assert(all.skip(2) =~= little_endian(units.skip(1)));
        assert(seq![units[0]] + units.skip(1) =~= units);
        assert((units[0] % 256) + 256 * (units[0] / 256) == units[0]);
    } else {
        assert(units =~= Seq::empty());
    }
}

/// Code units as bytes, the lower byte of each first.
pub fn little_endian_bytes(units: &Vec<u16>) -> (r: Vec<u8>)
    ensures
        r@ == little_endian(units@),
{
    let mut out: Vec<u8> = Vec::new();
    let mut i: usize = 0;
    assert(units@.skip(0) =~= units@);
    while i < units.len()
        invariant
            i <= units@.len(),
            out@ + little_endian(units@.skip(i as int)) == little_endian(units@),
        decreases units@.len() - i,
    {
        let ghost rest = units@.skip(i as int);
        let ghost before = out@;
        assert(rest[0] == units@[i as int]);
        assert(rest.skip(1) =~= units@.skip(i + 1));
        out.push((units[i] % 256) as u8);
        out.push((units[i] / 256) as u8);
        assert(out@ + little_endian(units@.skip(i + 1)) =~= before + little_endian(rest));
        i += 1;
    }
    assert(out@ + little_endian(units@.skip(i as int)) =~= out@);
    out
}

/// The code units of pairs of bytes, the lower byte of each first; a single byte at the end
/// belongs to none.
pub fn units_of_bytes(bytes: &[u8]) -> (r: Vec<u16>)
    ensures
        r@ == units_of(bytes@),
{
    let mut out: Vec<u16> = Vec::new();
    let mut i: usize = 0;
    assert(bytes@.skip(0) =~= bytes@);
    while bytes.len() - i >= 2
        invariant
            i <= bytes@.len(),
            out@ + units_of(bytes@.skip(i as int)) == units_of(bytes@),
        decreases bytes@.len() - i,
    {
        let ghost rest = bytes@.skip(i as int);
        let ghost before = out@;
        assert(rest.skip(2) =~= bytes@.skip(i + 2));
        out.push(bytes[i] as u16 + 256 * bytes[i + 1] as u16);
        assert(out@ + units_of(bytes@.skip(i + 2)) =~= before + units_of(rest));
        i += 2;
    }
    assert(out@ + units_of(bytes@.skip(i as int)) =~= out@);
    out
}

/// The character of Base64 for six bits.
pub open spec fn base64_char(n: int) -> char {
    if n < 26 {
        (n + 'A' as int) as char
    } else if n < 52 {
        (n - 26 + 'a' as int) as char
    } else if n < 62 {
        (n - 52 + '0' as int) as char
    } else if n == 62 {
        '+'
    } else {
        '/'
    }
}

/// Bytes in Base64: four characters for three bytes, six bits each, the last ones filled up
/// with `=`.
pub open spec fn base64_text(bytes: Seq<u8>) -> Seq<char>
    decreases bytes.len(),
{
    if bytes.len() == 0 {
        Seq::empty()
    } else {
        let a = bytes[0] as int;
        let b = if bytes.len() > 1 { bytes[1] as int } else { 0 };
        let c = if bytes.len() > 2 { bytes[2] as int } else { 0 };
        let group = seq![
            base64_char(a / 4),
            base64_char(a % 4 * 16 + b / 16),
            if bytes.len() > 1 { base64_char(b % 16 * 4 + c / 64) } else { '=' },
            if bytes.len() > 2 { base64_char(c % 64) } else { '=' },
        ];
        if bytes.len() > 3 {
            group + base64_text(bytes.skip(3))
        } else {
            group
        }
    }
}

/// `base64::Engine::encode` with `base64::engine::general_purpose::STANDARD`: the bytes in Base64
/// with the usual alphabet and padding. It panics where the text cannot be held in memory; that of
/// so many bytes can.
#[verifier::external_body]
fn base64_encode(bytes: &[u8]) -> (r: String)
    requires
        bytes@.len() <= usize::MAX / 4,
    ensures
        r@ == base64_text(bytes@),
{
    base64::Engine::encode(&base64::engine::general_purpose::STANDARD, bytes)
}

/// A script as PowerShell takes it: the bytes of its UTF-16 code units in Base64.
pub open spec fn encoded_script(script: Seq<char>) -> Seq<char> {
    base64_text(little_endian(utf16(script)))
}

/// A script as PowerShell takes it: the bytes of its UTF-16 code units in Base64.
pub fn windows_ps_encoded(script: &str) -> (r: String)
    requires
        script@.len() <= usize::MAX / 16,
    ensures
        r@ == encoded_script(script@),
{
    let units = utf16_units(script);
    let bytes = little_endian_bytes(&units);
    proof {
        lemma_utf16_len(script@);
        code_units_are_read_back(units@);
    }
    base64_encode(bytes.as_slice())
}

/// `String::from_utf8` of std: the text of bytes that are UTF-8, and none of others.
#[verifier::external_body]
fn utf8_text(bytes: &[u8]) -> (r: Option<String>)
    ensures
        match r {
            Some(s) => valid_utf8(bytes@) && s@ == decode_utf8(bytes@),
            None => !valid_utf8(bytes@),
        },
{
    String::from_utf8(bytes.to_vec()).ok()
}

/// The text of bytes, with a replacement for what is no UTF-8, as std makes it.
pub uninterp spec fn lossy_text(bytes: Seq<u8>) -> Seq<char>;

/// `String::from_utf8_lossy` of std: the text depends on the bytes alone, and bytes that are
/// UTF-8 lose nothing. What stands for the others is left to std.
#[verifier::external_body]
pub(crate) fn text_with_losses(bytes: &[u8]) -> (r: String)
    ensures
        r@ == lossy_text(bytes@),
        valid_utf8(bytes@) ==> r@ == decode_utf8(bytes@),
{
    String::from_utf8_lossy(bytes).into_owned()
}

/// A text without the marks of the byte order at its ends.
pub open spec fn unmarked(s: Seq<char>) -> Seq<char> {
    strs::trim_set(s, "\u{feff}"@)
}

/// A text without the marks of the byte order at its ends, unless it is blank then.
pub open spec fn unmarked_text(s: Option<Seq<char>>) -> Option<Seq<char>> {
    match s {
        Some(t) => if strs::trim(unmarked(t)).len() > 0 {
            Some(unmarked(t))
        } else {
            None
        },
        None => None,
    }
}

/// The text of bytes that are UTF-8.
pub open spec fn utf8(bytes: Seq<u8>) -> Option<Seq<char>> {
    if valid_utf8(bytes) {
        Some(decode_utf8(bytes))
    } else {
        None
    }
}

/// The text in stored bytes: as UTF-8 or, where that gives none or a blank one, as UTF-16.
pub open spec fn stored_text(bytes: Seq<u8>) -> Option<Seq<char>> {
    let plain = unmarked_text(utf8(bytes));
    if plain is Some {
        plain
    } else if bytes.len() % 2 != 0 {
        None
    } else {
        unmarked_text(utf16_text(units_of(bytes)))
    }
}

fn without_marks(s: Option<String>) -> (r: Option<String>)
    ensures
        strs::opt_view(r) == unmarked_text(strs::opt_view(s)),
{
    match s {
        Some(t) => {
            let cut = text::trim_set(&t, "\u{feff}");
            if text::trim(&cut).unicode_len() > 0 {
                Some(cut)
            } else {
                None
            }
        },
        None => None,
    }
}

/// The text in stored bytes: as UTF-8 or, where that gives none or a blank one, as UTF-16.
pub fn decode_storage_text_bytes(bytes: &[u8]) -> (r: Option<String>)
    ensures
        strs::opt_view(r) == stored_text(bytes@),
{
    let read = utf8_text(bytes);
    assert(strs::opt_view(read) == utf8(bytes@));
    let plain = without_marks(read);
    if plain.is_some() {
        return plain;
    }
    if bytes.len() % 2 != 0 {
        return None;
    }
    let units = units_of_bytes(bytes);
    without_marks(text_of_utf16(&units))
}

/// A text that was stored as UTF-8 is read back, without the marks of the byte order.
pub proof fn stored_utf8_is_read_back(s: Seq<char>)
    requires
        strs::trim(unmarked(s)).len() > 0,
    ensures
        stored_text(encode_utf8(s)) == Some(unmarked(s)),
{
    encode_utf8_valid_utf8(s);
    encode_utf8_decode_utf8(s);
}

/// A text that was stored as UTF-16 is read back, without the marks of the byte order, where its
/// bytes do not happen to be the UTF-8 of a text that is not blank.
pub proof fn stored_utf16_is_read_back(s: Seq<char>)
    requires
        strs::trim(unmarked(s)).len() > 0,
        unmarked_text(utf8(little_endian(utf16(s)))) is None,
    ensures
        stored_text(little_endian(utf16(s))) == Some(unmarked(s)),
{
    utf16_is_read_back(s);
    code_units_are_read_back(utf16(s));
}

/// The value of a hexadecimal digit.
pub open spec fn hex_value(c: char) -> Option<nat> {
    if '0' <= c <= '9' {
        Some((c as u32 - '0' as u32) as nat)
    } else if 'a' <= c <= 'f' {
        Some((c as u32 - 'a' as u32 + 10) as nat)
    } else if 'A' <= c <= 'F' {
        Some((c as u32 - 'A' as u32 + 10) as nat)
    } else {
        None
    }
}

/// The bytes that pairs of hexadecimal digits stand for.
pub open spec fn hex_pairs(s: Seq<char>) -> Option<Seq<u8>>
    decreases s.len(),
{
    if s.len() == 0 {
        Some(Seq::empty())
    } else if s.len() == 1 {
        None
    } else {
        match (hex_pairs(s.take(s.len() - 2)), hex_value(s[s.len() - 2]), hex_value(s.last())) {
            (Some(bytes), Some(high), Some(low)) => Some(bytes.push((16 * high + low) as u8)),
            _ => None,
        }
    }
}

/// The bytes that a trimmed text of hexadecimal digits stands for, where there are any.
pub open spec fn hex_read(s: Seq<char>) -> Option<Seq<u8>> {
    if strs::trim(s).len() == 0 {
        None
    } else {
        hex_pairs(strs::trim(s))
    }
}

fn hex_digit_value(c: char) -> (r: Option<u8>)
    ensures
        match r {
            Some(n) => hex_value(c) == Some(n as nat) && n < 16,
            None => hex_value(c) is None,
        },
{
    if '0' <= c && c <= '9' {
        Some((c as u32 - '0' as u32) as u8)
    } else if 'a' <= c && c <= 'f' {
        Some((c as u32 - 'a' as u32 + 10) as u8)
    } else if 'A' <= c && c <= 'F' {
        Some((c as u32 - 'A' as u32 + 10) as u8)
    } else {
        None
    }
}

proof fn lemma_hex_prefix(s: Seq<char>, n: nat)
    requires
        2 * n <= s.len(),
        hex_pairs(s.take(2 * n as int)) is None,
        s.len() % 2 == 0,
    ensures
        hex_pairs(s) is None,
    decreases s.len(),
{
    if 2 * n == s.len() {
        assert(s.take(2 * n as int) =~= s);
    } else {
        let shorter = s.take(s.len() - 2);
        assert(shorter.take(2 * n as int) =~= s.take(2 * n as int));
        lemma_hex_prefix(shorter, n);
    }
}

proof fn lemma_odd_hex(s: Seq<char>)
    requires
        s.len() % 2 == 1,
    ensures
        hex_pairs(s) is None,
    decreases s.len(),
{
    if s.len() > 1 {
        lemma_odd_hex(s.take(s.len() - 2));
    }
}

/// The bytes that a trimmed text of hexadecimal digits stands for, where there are any.
pub fn decode_hex_string(value: &str) -> (r: Option<Vec<u8>>)
    ensures
        match r {
            Some(bytes) => hex_read(value@) == Some(bytes@),
            None => hex_read(value@) is None,
        },
{
    let trimmed = text::trim(value);
    let v = text::chars_of(&trimmed);
    let n: usize = v.len();
    if n == 0 {
        return None;
    }
    if n % 2 != 0 {
        proof {
            lemma_odd_hex(v@);
        }
        return None;
    }
    let mut out: Vec<u8> = Vec::new();
    let mut i: usize = 0;
    assert(v@.take(0) =~= Seq::empty());
    assert(out@ =~= Seq::empty());
    while i < n
        invariant
            i <= n,
            n == v@.len(),
            n % 2 == 0,
            i % 2 == 0,
            v@ == strs::trim(value@),
            n > 0,
            hex_pairs(v@.take(i as int)) == Some(out@),
        decreases n - i,
    {
        let ghost longer = v@.take(i + 2);
        assert(longer.take(longer.len() - 2) =~= v@.take(i as int));
        let high = hex_digit_value(v[i]);
        let low = hex_digit_value(v[i + 1]);
        match (high, low) {
            (Some(h), Some(l)) => {
                out.push(16 * h + l);
            },
            _ => {
                proof {
                    lemma_hex_prefix(v@, ((i + 2) / 2) as nat);
                }
                return None;
            },
        }
        i += 2;
    }
    assert(v@.take(i as int) =~= v@);
    Some(out)
}

proof fn lemma_two_digits(b: u8)
    ensures
        strs::hex(b as nat, 2).len() == 2,
        hex_value(strs::hex(b as nat, 2)[0]) == Some(b as nat / 16),
        hex_value(strs::hex(b as nat, 2)[1]) == Some(b as nat % 16),
{
    reveal_with_fuel(strs::hex, 3);
}

proof fn lemma_hex_pairs_of_bytes(bytes: Seq<u8>)
    ensures
        hex_pairs(hashing::hex_bytes(bytes)) == Some(bytes),
        hashing::hex_bytes(bytes).len() == 2 * bytes.len(),
        forall|i: int|
            0 <= i < hashing::hex_bytes(bytes).len() ==> hex_value(
                #[trigger] hashing::hex_bytes(bytes)[i],
            ) is Some,
    decreases bytes.len(),
{
    if bytes.len() > 0 {
        let all = hashing::hex_bytes(bytes);
        lemma_hex_pairs_of_bytes(bytes.drop_last());
        lemma_two_digits(bytes.last());
        assert(all.take(all.len() - 2) =~= hashing::hex_bytes(bytes.drop_last()));
        assert(bytes.drop_last().push(bytes.last()) =~= bytes);
    } else {
        assert(bytes =~= Seq::empty());
    }
}

/// Bytes that were written in hexadecimal are read back, where there are any.
pub proof fn hexadecimal_is_read_back(bytes: Seq<u8>)
    requires
        bytes.len() > 0,
    ensures
        hex_read(hashing::hex_bytes(bytes)) == Some(bytes),
{
    let s = hashing::hex_bytes(bytes);
    lemma_hex_pairs_of_bytes(bytes);
    assert(hex_value(s[0]) is Some);
    assert(hex_value(s[s.len() - 1]) is Some);
    assert(strs::trim(s) == s);
}

} // verus!
