//! Hashes of text.

use crate::strs;
use sha2::{Digest, Sha256};
use std::collections::hash_map::DefaultHasher;
use std::hash::{BuildHasher, BuildHasherDefault};
use vstd::prelude::*;
use vstd::utf8::encode_utf8;

verus! {

/// The 64-bit hash that std's `DefaultHasher`, in its initial state, gives of a text.
pub uninterp spec fn default_hash(s: Seq<char>) -> u64;

/// The SHA-256 digest of some bytes.
pub uninterp spec fn sha256(bytes: Seq<u8>) -> Seq<u8>;

/// `BuildHasher::hash_one` of std with `BuildHasherDefault<DefaultHasher>`: a fresh
/// `DefaultHasher` always starts in the same state, so the result depends on the text alone.
/// The algorithm is left to std.
#[verifier::external_body]
pub(crate) fn hash_one(value: &str) -> (r: u64)
    ensures
        r == default_hash(value@),
{
    BuildHasherDefault::<DefaultHasher>::default().hash_one(value)
}

/// `Sha256::digest` of sha2: the 32 bytes of the SHA-256 digest of `bytes`.
#[verifier::external_body]
fn sha256_digest(bytes: &[u8]) -> (r: Vec<u8>)
    ensures
        r@ == sha256(bytes@),
        r@.len() == 32,
{
    Sha256::digest(bytes).to_vec()
}

/// Two lower-case hexadecimal digits for each byte.
pub open spec fn hex_bytes(bytes: Seq<u8>) -> Seq<char>
    decreases bytes.len(),
{
    if bytes.len() == 0 {
        Seq::empty()
    } else {
        hex_bytes(bytes.drop_last()) + strs::hex(bytes.last() as nat, 2)
    }
}

/// Writes bytes as hexadecimal digits.
pub fn hex_encode(bytes: &[u8]) -> (r: String)
    ensures
        r@ == hex_bytes(bytes@),
{
    let mut out = String::new();
    let mut i: usize = 0;
    while i < bytes.len()
        invariant
            i <= bytes@.len(),
            out@ == hex_bytes(bytes@.take(i as int)),
        decreases bytes@.len() - i,
    {
        assert(bytes@.take(i + 1).drop_last() =~= bytes@.take(i as int));
        let digits = crate::text::hex(bytes[i] as u64, 2);
        out.append(&digits);
        i += 1;
    }
    assert(bytes@.take(i as int) =~= bytes@);
    out
}

/// The SHA-256 digest of the UTF-8 bytes of a text, in hexadecimal.
pub open spec fn text_digest(s: Seq<char>) -> Seq<char> {
    hex_bytes(sha256(encode_utf8(s)))
}

/// The SHA-256 digest of a text, in hexadecimal.
pub fn hash_text(value: &str) -> (r: String)
    ensures
        r@ == text_digest(value@),
{
    let digest = sha256_digest(value.as_bytes());
    hex_encode(&digest)
}

} // verus!
