//! What holds of texts as they are compared and cleaned, and of the words in them.

use crate::engine::normalize;
use crate::engine::sanitize;
use crate::lists;
use crate::strs;
use crate::text;
use vstd::prelude::*;

verus! {

/// Words are written with ASCII letters and digits and with Hangul; no other character of these
/// two scripts, and no white space, belongs to a word.
pub proof fn words_are_written_with_letters_and_digits(c: char)
    ensures
        c < '\u{80}' ==> (normalize::word_char(c) <==> strs::is_ascii_alphanumeric(c)),
        '\u{AC00}' <= c <= '\u{D7A3}' ==> normalize::word_char(c),
        'ㄱ' <= c <= 'ㅣ' ==> normalize::word_char(c),
        strs::is_space(c) ==> !normalize::word_char(c),
        c > '\u{D7A3}' ==> !normalize::word_char(c),
{
}

/// The text is a word.
pub open spec fn is_word(w: Seq<char>) -> bool {
    forall|i: int| 0 <= i < w.len() ==> normalize::word_char(#[trigger] w[i])
}

proof fn lemma_last_piece(x: Seq<char>, w: Seq<char>)
    requires
        x.len() == 0 || !normalize::word_char(x.last()),
        is_word(w),
    ensures
        normalize::word_pieces(x + w).len() > 0,
        normalize::word_pieces(x + w).last() == w,
    decreases w.len(),
{
    let s = x + w;
    if w.len() == 0 {
        assert(s =~= x);
        if x.len() == 0 {
            assert(normalize::word_pieces(s)[0] =~= w);
        } else {
            assert(normalize::word_pieces(s).last() =~= w);
        }
    } else {
        let v = w.drop_last();
        assert forall|i: int| 0 <= i < v.len() implies normalize::word_char(#[trigger] v[i]) by {
            assert(v[i] == w[i]);
        }
        lemma_last_piece(x, v);
        assert(s.drop_last() =~= x + v);
        assert(s.last() == w[w.len() - 1]);
        assert(v.push(w.last()) =~= w);
    }
}

proof fn lemma_pieces_stay(s: Seq<char>, y: Seq<char>, k: int)
    requires
        0 <= k < normalize::word_pieces(s).len() - 1,
    ensures
        k < normalize::word_pieces(s + y).len() - 1,
        normalize::word_pieces(s + y)[k] == normalize::word_pieces(s)[k],
    decreases y.len(),
{
    let t = s + y;
    if y.len() == 0 {
        assert(t =~= s);
    } else {
        assert(t.drop_last() =~= s + y.drop_last());
        lemma_pieces_stay(s, y.drop_last(), k);
    }
}

proof fn lemma_long_normals(pieces: Seq<Seq<char>>, k: int)
    requires
        0 <= k < pieces.len(),
        strs::byte_len(normalize::normal(pieces[k])) >= 2,
    ensures
        normalize::long_normals(pieces).contains(normalize::normal(pieces[k])),
    decreases pieces.len(),
{
    let t = pieces.drop_last();
    let head = normalize::long_normals(t);
    let all = normalize::long_normals(pieces);
    let x = normalize::normal(pieces[k]);
    if k < t.len() {
        assert(t[k] == pieces[k]);
        lemma_long_normals(t, k);
        let i = choose|i: int| 0 <= i < head.len() && head[i] == x;
        assert(all[i] == x);
    } else {
        assert(all[head.len() as int] == x);
    }
}

/// Every word of a text is found, wherever it stands, in its normal form, where that takes two
/// bytes at least.
pub proof fn every_word_is_found(x: Seq<char>, w: Seq<char>, y: Seq<char>)
    requires
        x.len() == 0 || !normalize::word_char(x.last()),
        is_word(w),
        y.len() == 0 || !normalize::word_char(y[0]),
        strs::byte_len(normalize::normal(w)) >= 2,
    ensures
        normalize::tokens(x + w + y).contains(normalize::normal(w)),
{
    let s = x + w;
    lemma_last_piece(x, w);
    let k = normalize::word_pieces(s).len() - 1;
    if y.len() == 0 {
        assert(s + y =~= s);
        lemma_long_normals(normalize::word_pieces(s), k);
    } else {
        let t = s.push(y[0]);
        assert(t.drop_last() =~= s);
        assert(normalize::word_pieces(t)[k] == w);
        lemma_pieces_stay(t, y.skip(1), k);
        assert(t + y.skip(1) =~= s + y);
        lemma_long_normals(normalize::word_pieces(s + y), k);
    }
}

/// The text is the normal form of a word of the other, of two bytes at least.
pub open spec fn is_word_of(s: Seq<char>, t: Seq<char>) -> bool {
    exists|w: Seq<char>| #[trigger]
        is_word(w) && strs::contains(s, w) && normalize::normal(w) == t && strs::byte_len(t) >= 2
}

proof fn lemma_pieces_are_words(s: Seq<char>, k: int)
    ensures
        normalize::word_pieces(s).len() > 0,
        0 <= k < normalize::word_pieces(s).len() ==> is_word(normalize::word_pieces(s)[k])
            && strs::contains(s, normalize::word_pieces(s)[k]),
        ({
            let last = normalize::word_pieces(s).last();
            strs::occurs_at(s, last, s.len() - last.len())
        }),
    decreases s.len(),
{
    let all = normalize::word_pieces(s);
    if s.len() == 0 {
        assert(s.subrange(0, 0) =~= all[0]);
        assert(strs::occurs_at(s, all[0], 0));
    } else {
        let t = s.drop_last();
        let head = normalize::word_pieces(t);
        lemma_pieces_are_words(t, k);
        lemma_pieces_are_words(t, head.len() - 1);
        let last = all.last();
        if normalize::word_char(s.last()) {
            let from = t.len() - head.last().len();
            assert(t.subrange(from, t.len() as int) == head.last());
            assert(s.subrange(from, s.len() as int) =~= last) by {
                assert forall|i: int| 0 <= i < last.len() implies s.subrange(
                    from,
                    s.len() as int,
                )[i] == last[i] by {
                    if i < head.last().len() {
                        assert(t.subrange(from, t.len() as int)[i] == t[from + i]);
                    }
                }
            }
            assert forall|i: int| 0 <= i < last.len() implies normalize::word_char(
                #[trigger] last[i],
            ) by {
                if i < head.last().len() {
                    assert(head[head.len() - 1][i] == last[i]);
                }
            }
        } else {
            assert(s.subrange(s.len() as int, s.len() as int) =~= last);
        }
        assert(strs::occurs_at(s, last, s.len() - last.len()));
        if 0 <= k < all.len() - 1 {
            assert(all[k] == head[k]);
            let i = choose|i: int| strs::occurs_at(t, head[k], i);
            assert(s.subrange(i, i + head[k].len()) =~= t.subrange(i, i + head[k].len()));
            assert(strs::occurs_at(s, all[k], i));
        }
    }
}

proof fn lemma_from_pieces(s: Seq<char>, pieces: Seq<Seq<char>>, t: Seq<char>)
    requires
        forall|k: int|
            0 <= k < pieces.len() ==> is_word(#[trigger] pieces[k]) && strs::contains(s, pieces[k]),
        normalize::long_normals(pieces).contains(t),
    ensures
        is_word_of(s, t),
    decreases pieces.len(),
{
    if pieces.len() > 0 {
        let head = normalize::long_normals(pieces.drop_last());
        let all = normalize::long_normals(pieces);
        let i = choose|i: int| 0 <= i < all.len() && all[i] == t;
        if i < head.len() {
            assert(head[i] == t);
            let few = pieces.drop_last();
            assert forall|k: int| 0 <= k < few.len() implies is_word(#[trigger] few[k])
                && strs::contains(s, few[k]) by {
                assert(few[k] == pieces[k]);
            }
            lemma_from_pieces(s, few, t);
        } else {
            assert(is_word(pieces[pieces.len() - 1]));
        }
    }
}

/// What is found in a text are words that stand in it.
pub proof fn only_words_are_found(s: Seq<char>, t: Seq<char>)
    requires
        normalize::tokens(s).contains(t),
    ensures
        is_word_of(s, t),
{
    let pieces = normalize::word_pieces(s);
    assert forall|k: int| 0 <= k < pieces.len() implies is_word(#[trigger] pieces[k])
        && strs::contains(s, pieces[k]) by {
        lemma_pieces_are_words(s, k);
    }
    lemma_from_pieces(s, pieces, t);
}

/// A text shares as many words with others as stand in it: none where none does, all where all do.
pub proof fn shared_words_are_counted(words: Seq<Seq<char>>, normal_text: Seq<char>)
    ensures
        normalize::hits_in(words, normal_text) <= words.len(),
        normalize::hits_in(words, normal_text) > 0 <==> exists|i: int|
            0 <= i < words.len() && strs::byte_len(#[trigger] words[i]) >= 2 && strs::contains(
                normal_text,
                words[i],
            ),
        (forall|i: int|
            0 <= i < words.len() ==> strs::byte_len(#[trigger] words[i]) >= 2 && strs::contains(
                normal_text,
                words[i],
            )) ==> normalize::hits_in(words, normal_text) == words.len(),
    decreases words.len(),
{
    let p = |w: Seq<char>| strs::byte_len(w) >= 2 && strs::contains(normal_text, w);
    lists::counting_finds_what_is_accepted(words, p);
    if normalize::hits_in(words, normal_text) > 0 {
        let i = choose|i: int| 0 <= i < words.len() && p(#[trigger] words[i]);
        assert(strs::byte_len(words[i]) >= 2);
    }
    if exists|i: int|
        0 <= i < words.len() && strs::byte_len(#[trigger] words[i]) >= 2 && strs::contains(
            normal_text,
            words[i],
        ) {
        let i = choose|i: int|
            0 <= i < words.len() && strs::byte_len(#[trigger] words[i]) >= 2 && strs::contains(
                normal_text,
                words[i],
            );
        assert(p(words[i]));
    }
    if words.len() > 0 && (forall|i: int|
        0 <= i < words.len() ==> strs::byte_len(#[trigger] words[i]) >= 2 && strs::contains(
            normal_text,
            words[i],
        )) {
        let t = words.drop_last();
        assert forall|i: int| 0 <= i < t.len() implies strs::byte_len(#[trigger] t[i]) >= 2
            && strs::contains(normal_text, t[i]) by {
            assert(t[i] == words[i]);
        }
        shared_words_are_counted(t, normal_text);
        assert(p(words[words.len() - 1]));
    }
}

/// The character is among those of the text.
pub open spec fn holds_char(s: Seq<char>, c: char) -> bool {
    exists|i: int| 0 <= i < s.len() && s[i] == c
}

proof fn lemma_joined(parts: Seq<Seq<char>>, sep: Seq<char>, c: char)
    requires
        holds_char(strs::join(parts, sep), c),
    ensures
        holds_char(sep, c) || exists|k: int| 0 <= k < parts.len() && holds_char(#[trigger] parts[k], c),
    decreases parts.len(),
{
    let s = strs::join(parts, sep);
    let i = choose|i: int| 0 <= i < s.len() && s[i] == c;
    if parts.len() == 1 {
        assert(holds_char(parts[0], c));
    } else if parts.len() > 1 {
        let t = parts.drop_last();
        let head = strs::join(t, sep);
        if i < head.len() {
            assert(head[i] == c);
            lemma_joined(t, sep, c);
            if !holds_char(sep, c) {
                let k = choose|k: int| 0 <= k < t.len() && holds_char(#[trigger] t[k], c);
                assert(holds_char(parts[k], c));
            }
        } else if i < head.len() + sep.len() {
            assert(sep[i - head.len()] == c);
        } else {
            assert(parts[parts.len() - 1][i - head.len() - sep.len()] == c);
            assert(holds_char(parts[parts.len() - 1], c));
        }
    }
}

proof fn lemma_parted(s: Seq<char>, mark: char, k: int, c: char)
    requires
        0 <= k < strs::split(s, seq![mark]).len(),
        holds_char(strs::split(s, seq![mark])[k], c),
    ensures
        c != mark,
        holds_char(s, c),
    decreases s.len(),
{
    let sep = seq![mark];
    text::lemma_find_from(s, sep, 0);
    let parts = strs::split(s, sep);
    let j = choose|j: int| 0 <= j < parts[k].len() && parts[k][j] == c;
    match strs::find(s, sep) {
        None => {
            assert(parts[0] == s);
            assert(s[j] == c);
            if c == mark {
                assert(s.subrange(j, j + 1) =~= sep);
                assert(strs::occurs_at(s, sep, j));
            }
        },
        Some(i) => {
            let rest = s.skip(i + 1);
            if k == 0 {
                assert(parts[0] == s.take(i));
                assert(s[j] == c);
                if c == mark {
                    assert(s.subrange(j, j + 1) =~= sep);
                    assert(strs::occurs_at(s, sep, j));
                }
            } else {
                assert(parts[k] == strs::split(rest, sep)[k - 1]);
                lemma_parted(rest, mark, k - 1, c);
                let m = choose|m: int| 0 <= m < rest.len() && rest[m] == c;
                assert(s[i + 1 + m] == c);
            }
        },
    }
}

proof fn lemma_removed(s: Seq<char>, mark: char, c: char)
    requires
        holds_char(strs::replace(s, seq![mark], ""@), c),
    ensures
        c != mark,
        holds_char(s, c),
{
    reveal_strlit("");
    let parts = strs::split(s, seq![mark]);
    lemma_joined(parts, ""@, c);
    let k = choose|k: int| 0 <= k < parts.len() && holds_char(#[trigger] parts[k], c);
    lemma_parted(s, mark, k, c);
}

proof fn lemma_visible(s: Seq<char>, c: char)
    requires
        holds_char(normalize::without_zero_width(s), c),
    ensures
        c != '\u{200B}' && c != '\u{200C}' && c != '\u{200D}' && c != '\u{FEFF}',
        holds_char(s, c),
{
    reveal_strlit("\u{200B}");
    reveal_strlit("\u{200C}");
    reveal_strlit("\u{200D}");
    reveal_strlit("\u{FEFF}");
    assert("\u{200B}"@ =~= seq!['\u{200B}']);
    assert("\u{200C}"@ =~= seq!['\u{200C}']);
    assert("\u{200D}"@ =~= seq!['\u{200D}']);
    assert("\u{FEFF}"@ =~= seq!['\u{FEFF}']);
    let a = strs::replace(s, "\u{200B}"@, ""@);
    let b = strs::replace(a, "\u{200C}"@, ""@);
    let d = strs::replace(b, "\u{200D}"@, ""@);
    lemma_removed(d, '\u{FEFF}', c);
    lemma_removed(b, '\u{200D}', c);
    lemma_removed(a, '\u{200C}', c);
    lemma_removed(s, '\u{200B}', c);
}

proof fn lemma_word_len(s: Seq<char>)
    ensures
        strs::word_len(s) <= s.len(),
        forall|i: int| 0 <= i < strs::word_len(s) ==> !strs::is_space(#[trigger] s[i]),
        s.len() > 0 && !strs::is_space(s[0]) ==> strs::word_len(s) > 0,
    decreases s.len(),
{
    if s.len() > 0 && !strs::is_space(s[0]) {
        lemma_word_len(s.skip(1));
        assert forall|i: int| 0 <= i < strs::word_len(s) implies !strs::is_space(#[trigger] s[i]) by {
            if i > 0 {
                assert(s.skip(1)[i - 1] == s[i]);
            }
        }
    }
}

proof fn lemma_words(s: Seq<char>, k: int)
    requires
        0 <= k < strs::words(s).len(),
    ensures
        strs::words(s)[k].len() > 0,
        forall|c: char| #[trigger] holds_char(strs::words(s)[k], c) ==> holds_char(s, c) && !strs::is_space(c),
    decreases s.len(),
{
    let w = strs::words(s)[k];
    lemma_word_len(s);
    let n = strs::word_len(s) as int;
    let (rest, by, j) = if strs::is_space(s[0]) {
        (s.skip(1), 1int, k)
    } else {
        (s.skip(n), n, k - 1)
    };
    if j >= 0 {
        assert(w == strs::words(rest)[j]);
        lemma_words(rest, j);
        assert forall|c: char| #[trigger] holds_char(w, c) implies holds_char(s, c) && !strs::is_space(c) by {
            let m = choose|m: int| 0 <= m < rest.len() && rest[m] == c;
            assert(s[by + m] == c);
        }
    } else {
        assert(w == s.take(n));
        assert forall|c: char| #[trigger] holds_char(w, c) implies holds_char(s, c) && !strs::is_space(c) by {
            let m = choose|m: int| 0 <= m < w.len() && w[m] == c;
            assert(s[m] == c);
        }
    }
}

/// A text as it is compared has the characters of the text in lower case, without those that have
/// no width, and its only white space is the space.
pub proof fn a_normal_text_has_no_invisible_characters(s: Seq<char>, c: char)
    requires
        holds_char(normalize::normal(s), c),
    ensures
        c == ' ' || holds_char(strs::lowercase(s), c),
        strs::is_space(c) ==> c == ' ',
        c != '\u{200B}' && c != '\u{200C}' && c != '\u{200D}' && c != '\u{FEFF}',
{
    let t = normalize::without_zero_width(strs::lowercase(s));
    let words = strs::words(t);
    reveal_strlit(" ");
    lemma_joined(words, " "@, c);
    if holds_char(" "@, c) {
        assert(c == ' ');
    } else {
        let k = choose|k: int| 0 <= k < words.len() && holds_char(#[trigger] words[k], c);
        lemma_words(t, k);
        lemma_visible(strs::lowercase(s), c);
    }
}

/// No two spaces follow one another, and none stands at an end.
pub open spec fn is_single_spaced(s: Seq<char>) -> bool {
    &&& s.len() > 0 ==> s[0] != ' ' && s.last() != ' '
    &&& forall|i: int| 0 < i < s.len() ==> !(#[trigger] s[i] == ' ' && s[i - 1] == ' ')
}

proof fn lemma_single_spaced(parts: Seq<Seq<char>>)
    requires
        forall|k: int| 0 <= k < parts.len() ==> (#[trigger] parts[k]).len() > 0,
        forall|k: int| 0 <= k < parts.len() ==> !holds_char(#[trigger] parts[k], ' '),
    ensures
        is_single_spaced(strs::join(parts, " "@)),
        parts.len() > 0 ==> strs::join(parts, " "@).len() > 0,
    decreases parts.len(),
{
    reveal_strlit(" ");
    let s = strs::join(parts, " "@);
    if parts.len() > 0 {
        let last = parts[parts.len() - 1];
        assert forall|i: int| 0 <= i < last.len() implies #[trigger] last[i] != ' ' by {
            assert(!holds_char(parts[parts.len() - 1], ' '));
        }
        if parts.len() > 1 {
            let t = parts.drop_last();
            assert forall|k: int| 0 <= k < t.len() implies (#[trigger] t[k]).len() > 0 && !holds_char(
                t[k],
                ' ',
            ) by {
                assert(t[k] == parts[k]);
            }
            lemma_single_spaced(t);
            let head = strs::join(t, " "@);
            assert(s == head + " "@ + last);
            assert(s[0] == head[0]);
            assert(s.last() == last.last());
            assert forall|i: int| 0 < i < s.len() implies !(#[trigger] s[i] == ' ' && s[i - 1]
                == ' ') by {
                if i < head.len() {
                    assert(s[i] == head[i] && s[i - 1] == head[i - 1]);
                } else if i == head.len() {
                    assert(s[i - 1] == head.last());
                } else {
                    assert(s[i] == last[i - head.len() - 1]);
                }
            }
        }
    }
}

/// The words of a text as it is compared stand one space apart.
pub proof fn normal_words_stand_one_space_apart(s: Seq<char>)
    ensures
        is_single_spaced(normalize::normal(s)),
{
    let t = normalize::without_zero_width(strs::lowercase(s));
    let words = strs::words(t);
    assert forall|k: int| 0 <= k < words.len() implies (#[trigger] words[k]).len() > 0 && !holds_char(
        words[k],
        ' ',
    ) by {
        lemma_words(t, k);
    }
    lemma_single_spaced(words);
}

/// Cleaning drops what cannot be shown, turns white space into spaces, keeps line ends, each once,
/// and keeps the rest as it is.
pub proof fn cleaning_goes_character_by_character(s: Seq<char>, c: char)
    ensures
        ({
            let before = sanitize::scrubbed(s);
            let after = sanitize::scrubbed(s.push(c));
            &&& c == '\u{fffd}' || c == '\r' || c > '\u{FFFF}' || '\u{E000}' <= c <= '\u{F8FF}'
                ==> after == before
            &&& strs::is_control(c) && c != '\n' && c != '\t' ==> after == before
            &&& c == '\n' ==> after == (if before.len() > 0 && before.last() == '\n' {
                before
            } else {
                before.push('\n')
            })
            &&& strs::is_space(c) && !strs::is_control(c) || c == '\t' ==> after
                == before.push(' ')
            &&& '!' <= c <= '~' || '\u{AC00}' <= c <= '\u{D7A3}' || '\u{3131}' <= c <= '\u{318E}'
                ==> after == before.push(c)
        }),
{
    assert(s.push(c).drop_last() =~= s);
}

} // verus!
