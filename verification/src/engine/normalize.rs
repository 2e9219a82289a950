//! Text as it is compared: in lower case, without invisible characters, with single spaces; and
//! the words in it.

use crate::strs;
use crate::text;
use vstd::prelude::*;

verus! {

/// The text in lower case, without zero-width characters, its words joined by single spaces.
pub open spec fn normal(s: Seq<char>) -> Seq<char> {
    strs::join(strs::words(without_zero_width(strs::lowercase(s))), " "@)
}

/// The text without zero-width characters.
pub open spec fn without_zero_width(s: Seq<char>) -> Seq<char> {
    strs::replace(
        strs::replace(
            strs::replace(strs::replace(s, "\u{200B}"@, ""@), "\u{200C}"@, ""@),
            "\u{200D}"@,
            ""@,
        ),
        "\u{FEFF}"@,
        ""@,
    )
}

/// The text as it is compared.
pub fn norm(s: &str) -> (r: String)
    ensures
        r@ == normal(s@),
{
    proof {
        reveal_strlit("\u{200B}");
        reveal_strlit("\u{200C}");
        reveal_strlit("\u{200D}");
        reveal_strlit("\u{FEFF}");
    }
    let lower = text::lowercase(s);
    let a = text::replace(&lower, "\u{200B}", "");
    let b = text::replace(&a, "\u{200C}", "");
    let c = text::replace(&b, "\u{200D}", "");
    let d = text::replace(&c, "\u{FEFF}", "");
    let words = text::words(&d);
    text::join(&words, " ")
}

/// A time stamp lies in a range; an empty bound does not bound.
pub open spec fn in_range(ts: Seq<char>, from: Seq<char>, to: Seq<char>) -> bool {
    &&& from.len() == 0 || !strs::before(ts, from)
    &&& to.len() == 0 || !strs::before(to, ts)
}

/// Whether a time stamp lies in a range; an empty bound does not bound.
pub fn within_range(ts: &str, from: &str, to: &str) -> (r: bool)
    ensures
        r == in_range(ts@, from@, to@),
{
    if from.unicode_len() > 0 && text::before(ts, from) {
        return false;
    }
    if to.unicode_len() > 0 && text::before(to, ts) {
        return false;
    }
    true
}

/// ASCII letters and digits, Hangul syllables and Hangul letters.
pub open spec fn word_char(c: char) -> bool {
    ||| '0' <= c <= '9'
    ||| 'A' <= c <= 'Z'
    ||| 'a' <= c <= 'z'
    ||| '\u{AC00}' <= c <= '\u{D7A3}'
    ||| '\u{3131}' <= c <= '\u{3163}'
}

/// Whether a character belongs to a word.
pub fn is_word_char(c: char) -> (r: bool)
    ensures
        r == word_char(c),
{
    ('0' <= c && c <= '9') || ('A' <= c && c <= 'Z') || ('a' <= c && c <= 'z') || ('\u{AC00}' <= c
        && c <= '\u{D7A3}') || ('\u{3131}' <= c && c <= '\u{3163}')
}

/// The pieces of the text between the characters that belong to no word.
pub open spec fn word_pieces(s: Seq<char>) -> Seq<Seq<char>>
    decreases s.len(),
{
    if s.len() == 0 {
        seq![Seq::empty()]
    } else {
        let head = word_pieces(s.drop_last());
        if word_char(s.last()) {
            head.drop_last().push(head.last().push(s.last()))
        } else {
            head.push(Seq::empty())
        }
    }
}

/// The normal forms of the pieces that take at least two bytes.
pub open spec fn long_normals(pieces: Seq<Seq<char>>) -> Seq<Seq<char>>
    decreases pieces.len(),
{
    if pieces.len() == 0 {
        Seq::empty()
    } else {
        let head = long_normals(pieces.drop_last());
        let t = normal(pieces.last());
        if strs::byte_len(t) >= 2 {
            head.push(t)
        } else {
            head
        }
    }
}

/// The words of a text, in their normal form.
pub open spec fn tokens(s: Seq<char>) -> Seq<Seq<char>> {
    long_normals(word_pieces(s))
}

fn push_long_normal(out: &mut Vec<String>, piece: &str)
    ensures
        strs::views(final(out)@) == if strs::byte_len(normal(piece@)) >= 2 {
            strs::views(old(out)@).push(normal(piece@))
        } else {
            strs::views(old(out)@)
        },
{
    let t = norm(piece);
    if text::byte_len(&t) >= 2 {
        let ghost before = strs::views(out@);
        out.push(t);
        assert(strs::views(out@) =~= before.push(t@));
    }
}

/// The words of a text, in their normal form.
pub fn tokenize(s: &str) -> (r: Vec<String>)
    ensures
        strs::views(r@) == tokens(s@),
{
    let v = text::chars_of(s);
    let mut out: Vec<String> = Vec::new();
    let mut cur = String::new();
    let mut i: usize = 0;
    assert(word_pieces(v@.take(0)).drop_last() =~= Seq::empty());
    assert(strs::views(out@) =~= Seq::empty());
    assert(cur@ =~= word_pieces(v@.take(0)).last());
    while i < v.len()
        invariant
            i <= v@.len(),
            word_pieces(v@.take(i as int)).len() > 0,
            cur@ == word_pieces(v@.take(i as int)).last(),
            strs::views(out@) == long_normals(word_pieces(v@.take(i as int)).drop_last()),
        decreases v@.len() - i,
    {
        let ghost pieces = word_pieces(v@.take(i as int));
        let ghost next = word_pieces(v@.take(i + 1));
        assert(v@.take(i + 1).drop_last() =~= v@.take(i as int));
        if is_word_char(v[i]) {
            cur.push(v[i]);
            assert(next.drop_last() =~= pieces.drop_last());
        } else {
            push_long_normal(&mut out, &cur);
            cur = String::new();
            assert(next.drop_last() =~= pieces);
            assert(cur@ =~= next.last());
        }
        i += 1;
    }
    assert(v@.take(i as int) =~= v@);
    push_long_normal(&mut out, &cur);
    out
}

/// The number of words of at least two bytes that stand in a text.
pub open spec fn hits_in(words: Seq<Seq<char>>, normal_text: Seq<char>) -> nat {
    strs::count(
        words,
        |w: Seq<char>| strs::byte_len(w) >= 2 && strs::contains(normal_text, w),
    )
}

/// How many of the words stand in a summary, and how many words there are.
pub fn text_similarity_stats(q_tokens: &Vec<String>, summary: &str) -> (r: (usize, usize))
    ensures
        r.0 == hits_in(strs::views(q_tokens@), normal(summary@)),
        r.1 == q_tokens@.len(),
        r.0 <= r.1,
{
    let s = norm(summary);
    let ghost p = |w: Seq<char>| strs::byte_len(w) >= 2 && strs::contains(normal(summary@), w);
    let ghost all = strs::views(q_tokens@);
    let mut hit: usize = 0;
    let mut i: usize = 0;
    while i < q_tokens.len()
        invariant
            i <= q_tokens@.len(),
            hit <= i,
            s@ == normal(summary@),
            all == strs::views(q_tokens@),
            p == (|w: Seq<char>|
                strs::byte_len(w) >= 2 && strs::contains(normal(summary@), w)),
            hit == strs::count(all.take(i as int), p),
        decreases q_tokens@.len() - i,
    {
        assert(all.take(i + 1).drop_last() =~= all.take(i as int));
        if text::byte_len(&q_tokens[i]) >= 2 && text::contains(&s, &q_tokens[i]) {
            hit += 1;
        }
        i += 1;
    }
    assert(all.take(i as int) =~= all);
    (hit, q_tokens.len())
}

} // verus!
