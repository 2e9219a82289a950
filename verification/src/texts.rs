//! What holds of the texts of [`strs`]: what is kept of them where they are trimmed, parted and put
//! together.

use crate::lists;
use crate::strs;
use crate::text;
use vstd::prelude::*;

verus! {

/// Trimming takes away white space at both ends, all of it and nothing else.
pub proof fn trimming_takes_white_space_at_the_ends(s: Seq<char>) -> (from: int)
    ensures
        ({
            let t = strs::trim(s);
            &&& 0 <= from && from + t.len() <= s.len()
            &&& t == s.subrange(from, from + t.len())
            &&& forall|i: int| 0 <= i < from ==> strs::is_space(#[trigger] s[i])
            &&& forall|i: int| from + t.len() <= i < s.len() ==> strs::is_space(#[trigger] s[i])
            &&& t.len() > 0 ==> !strs::is_space(t[0]) && !strs::is_space(t.last())
        }),
{
    let p = |c: char| strs::is_space(c);
    let a = strs::trim_start(s);
    let t = strs::trim(s);
    text::lemma_trim_start_where(s, p);
    text::lemma_trim_end_where(a, p);
    lemma_front(s, p);
    lemma_back(a, p);
    let from = s.len() - a.len();
    assert(t =~= s.subrange(from, from + t.len()));
    if t.len() == 0 {
        assert forall|i: int| from <= i < s.len() implies strs::is_space(#[trigger] s[i]) by {
            assert(a[i - from] == s[i]);
            assert(p(a[i - from]));
        }
    } else {
        assert forall|i: int| from + t.len() <= i < s.len() implies strs::is_space(
            #[trigger] s[i],
        ) by {
            assert(a[i - from] == s[i]);
            assert(p(a[i - from]));
        }
    }
    assert forall|i: int| 0 <= i < from implies strs::is_space(#[trigger] s[i]) by {
        assert(p(s[i]));
    }
    from
}

proof fn lemma_front(s: Seq<char>, p: spec_fn(char) -> bool)
    ensures
        forall|i: int|
            0 <= i < s.len() - strs::trim_start_where(s, p).len() ==> p(#[trigger] s[i]),
    decreases s.len(),
{
    if s.len() > 0 && p(s[0]) {
        lemma_front(s.skip(1), p);
        assert forall|i: int|
            0 <= i < s.len() - strs::trim_start_where(s, p).len() implies p(#[trigger] s[i]) by {
            if i > 0 {
                assert(p(s.skip(1)[i - 1]));
            }
        }
    }
}

proof fn lemma_back(s: Seq<char>, p: spec_fn(char) -> bool)
    ensures
        forall|i: int|
            strs::trim_end_where(s, p).len() <= i < s.len() ==> p(#[trigger] s[i]),
    decreases s.len(),
{
    if s.len() > 0 && p(s.last()) {
        lemma_back(s.drop_last(), p);
        assert forall|i: int|
            strs::trim_end_where(s, p).len() <= i < s.len() implies p(#[trigger] s[i]) by {
            if i < s.len() - 1 {
                assert(p(s.drop_last()[i]));
            }
        }
    }
}

/// What has no white space at its ends is not lost where the text around it is trimmed.
pub proof fn trimming_keeps_what_is_inside(s: Seq<char>, p: Seq<char>)
    requires
        strs::contains(s, p),
        p.len() > 0,
        !strs::is_space(p[0]),
        !strs::is_space(p.last()),
    ensures
        strs::contains(strs::trim(s), p),
{
    let t = strs::trim(s);
    let from = trimming_takes_white_space_at_the_ends(s);
    let i = choose|i: int| strs::occurs_at(s, p, i);
    let n = p.len() as int;
    assert(s.subrange(i, i + n)[0] == s[i]);
    assert(s.subrange(i, i + n)[n - 1] == s[i + n - 1]);
    assert(i >= from);
    assert(i + n <= from + t.len());
    assert(t.subrange(i - from, i - from + n) =~= s.subrange(i, i + n));
    assert(strs::occurs_at(t, p, i - from));
}

/// White space is what separates words: the space, the tabs and line ends, and the wide ones;
/// letters, digits and marks are none.
pub proof fn white_space_is_what_separates_words(c: char)
    ensures
        strs::is_space(' '),
        strs::is_space('\t'),
        strs::is_space('\n'),
        strs::is_space('\r'),
        strs::is_space('\u{a0}'),
        strs::is_space('\u{3000}'),
        '!' <= c <= '~' ==> !strs::is_space(c),
        '\u{AC00}' <= c <= '\u{D7A3}' ==> !strs::is_space(c),
        '\u{3131}' <= c <= '\u{318E}' ==> !strs::is_space(c),
        !strs::is_space('\u{200B}'),
{
}

/// A text that stands in another and has nothing of a mark stands in one of the pieces between the
/// marks.
pub proof fn parting_keeps_what_has_no_mark(s: Seq<char>, sep: Seq<char>, p: Seq<char>) -> (k: int)
    requires
        p.len() > 0,
        text::apart(p, sep),
        strs::contains(s, p),
    ensures
        0 <= k < strs::split(s, sep).len(),
        strs::contains(strs::split(s, sep)[k], p),
    decreases s.len(),
{
    if sep.len() == 0 {
        0
    } else {
        text::lemma_find_from(s, sep, 0);
        match strs::find(s, sep) {
            None => 0,
            Some(i) => {
                let j = choose|j: int| strs::occurs_at(s, p, j);
                let n = p.len() as int;
                let m = sep.len() as int;
                let rest = s.skip(i + m);
                let pieces = strs::split(s, sep);
                assert(pieces == seq![s.take(i)] + strs::split(rest, sep));
                if j + n <= i {
                    assert(s.take(i).subrange(j, j + n) =~= s.subrange(j, j + n));
                    assert(strs::occurs_at(s.take(i), p, j));
                    assert(pieces[0] == s.take(i));
                    0
                } else if j >= i + m {
                    assert(rest.subrange(j - i - m, j - i - m + n) =~= s.subrange(j, j + n));
                    assert(strs::occurs_at(rest, p, j - i - m));
                    let k = parting_keeps_what_has_no_mark(rest, sep, p);
                    assert(pieces[k + 1] == strs::split(rest, sep)[k]);
                    k + 1
                } else {
                    let x = if j >= i {
                        j
                    } else {
                        i
                    };
                    assert(s.subrange(j, j + n)[x - j] == s[x]);
                    assert(s.subrange(i, i + m)[x - i] == s[x]);
                    assert(p[x - j] == sep[x - i]);
                    assert(false);
                    0
                }
            },
        }
    }
}

/// A text that has nothing of a mark is kept where the mark is replaced.
pub proof fn replacing_keeps_what_has_no_mark(
    s: Seq<char>,
    from: Seq<char>,
    to: Seq<char>,
    p: Seq<char>,
)
    requires
        p.len() > 0,
        text::apart(p, from),
        strs::contains(s, p),
    ensures
        strs::contains(strs::replace(s, from, to), p),
{
    let pieces = strs::split(s, from);
    let k = parting_keeps_what_has_no_mark(s, from, p);
    let at = lists::joined_parts_stand_in_the_text(pieces, to, k);
    let whole = strs::join(pieces, to);
    let j = choose|j: int| strs::occurs_at(pieces[k], p, j);
    assert(whole.subrange(at + j, at + j + p.len()) =~= pieces[k].subrange(j, j + p.len()));
    assert(strs::occurs_at(whole, p, at + j));
}

/// What stands in a part stands in the parts put together.
pub proof fn joining_keeps_what_stands_in_a_part(
    parts: Seq<Seq<char>>,
    sep: Seq<char>,
    k: int,
    p: Seq<char>,
)
    requires
        0 <= k < parts.len(),
        strs::contains(parts[k], p),
    ensures
        strs::contains(strs::join(parts, sep), p),
{
    let at = lists::joined_parts_stand_in_the_text(parts, sep, k);
    let whole = strs::join(parts, sep);
    let j = choose|j: int| strs::occurs_at(parts[k], p, j);
    assert(whole.subrange(at + j, at + j + p.len()) =~= parts[k].subrange(j, j + p.len()));
    assert(strs::occurs_at(whole, p, at + j));
}

/// Parting a text and putting the pieces together again gives the text.
pub proof fn parted_texts_are_put_together_again(s: Seq<char>, sep: Seq<char>)
    ensures
        strs::join(strs::split(s, sep), sep) == s,
        strs::split(s, sep).len() > 0,
    decreases s.len(),
{
    let pieces = strs::split(s, sep);
    if sep.len() == 0 {
    } else {
        text::lemma_find_from(s, sep, 0);
        match strs::find(s, sep) {
            None => {},
            Some(i) => {
                let m = sep.len() as int;
                let rest = s.skip(i + m);
                parted_texts_are_put_together_again(rest, sep);
                let tail = strs::split(rest, sep);
                assert(pieces == seq![s.take(i)] + tail);
                lemma_join_front(s.take(i), tail, sep);
                assert(s.subrange(i, i + m) == sep);
                assert(s.take(i) + sep + rest =~= s) by {
                    assert forall|x: int| i <= x < i + m implies s[x] == sep[x - i] by {
                        assert(s.subrange(i, i + m)[x - i] == s[x]);
                    }
                }
            },
        }
    }
}

proof fn lemma_join_front(first: Seq<char>, rest: Seq<Seq<char>>, sep: Seq<char>)
    requires
        rest.len() > 0,
    ensures
        strs::join(seq![first] + rest, sep) == first + sep + strs::join(rest, sep),
    decreases rest.len(),
{
    let all = seq![first] + rest;
    assert(all.last() == rest.last());
    if rest.len() == 1 {
        assert(all.drop_last() =~= seq![first]);
        assert(strs::join(all, sep) == strs::join(all.drop_last(), sep) + sep + all.last());
        assert(strs::join(seq![first], sep) =~= first);
    } else {
        let t = rest.drop_last();
        lemma_join_front(first, t, sep);
        assert(all.drop_last() =~= seq![first] + t);
        assert(first + sep + (strs::join(t, sep) + sep + rest.last()) =~= first + sep + strs::join(
            t,
            sep,
        ) + sep + rest.last());
    }
}

/// No line has a line feed in it, and a text without one is a line of its own, but for a carriage
/// return at its end.
pub proof fn lines_have_no_line_feed(s: Seq<char>, k: int)
    requires
        0 <= k < strs::lines(s).len(),
    ensures
        forall|i: int| 0 <= i < strs::lines(s)[k].len() ==> #[trigger] strs::lines(s)[k][i] != '\n',
    decreases s.len(),
{
    lemma_find_char(s, '\n', 0);
    match strs::find_char(s, '\n') {
        None => {},
        Some(i) => {
            let rest = s.skip(i + 1);
            if k > 0 {
                assert(strs::lines(s)[k] == strs::lines(rest)[k - 1]);
                lines_have_no_line_feed(rest, k - 1);
            } else {
                let line = strs::strip_cr(s.take(i));
                assert(strs::lines(s)[0] == line);
                assert forall|j: int| 0 <= j < line.len() implies #[trigger] line[j] != '\n' by {
                    assert(line[j] == s[j]);
                }
            }
        },
    }
}

proof fn lemma_find_char(s: Seq<char>, c: char, i: int)
    requires
        0 <= i,
    ensures
        match strs::find_char_from(s, c, i) {
            Some(k) => i <= k < s.len() && s[k] == c && (forall|j: int|
                i <= j < k ==> #[trigger] s[j] != c),
            None => forall|j: int| i <= j < s.len() ==> #[trigger] s[j] != c,
        },
    decreases s.len() - i,
{
    if i < s.len() && s[i] != c {
        lemma_find_char(s, c, i + 1);
    }
}

/// Every line of a text stands in it.
pub proof fn lines_stand_in_their_text(s: Seq<char>, k: int)
    requires
        0 <= k < strs::lines(s).len(),
    ensures
        strs::contains(s, strs::lines(s)[k]),
    decreases s.len(),
{
    lemma_find_char(s, '\n', 0);
    match strs::find_char(s, '\n') {
        None => {
            assert(s.subrange(0, s.len() as int) =~= s);
            assert(strs::occurs_at(s, s, 0));
        },
        Some(i) => {
            let rest = s.skip(i + 1);
            let all = strs::lines(s);
            if k > 0 {
                assert(all[k] == strs::lines(rest)[k - 1]);
                lines_stand_in_their_text(rest, k - 1);
                assert(rest =~= s.subrange(i + 1, s.len() as int));
                text::lemma_contains_in(s, i + 1, s.len() as int, all[k]);
            } else {
                let line = strs::strip_cr(s.take(i));
                assert(all[0] == line);
                assert(s.subrange(0, line.len() as int) =~= line);
                assert(strs::occurs_at(s, line, 0));
            }
        },
    }
}

/// The decimal digits of a number stand for it.
pub proof fn decimal_digits_stand_for_their_number(n: nat)
    ensures
        strs::decimal_value(strs::decimal(n)) == n,
        strs::all_digits(strs::decimal(n)),
        strs::decimal(n).len() > 0,
        n > 0 ==> strs::decimal(n)[0] != '0',
    decreases n,
{
    let s = strs::decimal(n);
    if n < 10 {
        assert(s.drop_last() =~= Seq::empty());
        reveal_with_fuel(strs::decimal_value, 2);
    } else {
        decimal_digits_stand_for_their_number(n / 10);
        let t = strs::decimal(n / 10);
        assert(s.drop_last() =~= t);
        assert forall|i: int| 0 <= i < s.len() implies strs::is_ascii_digit(#[trigger] s[i]) by {
            if i < t.len() {
                assert(s[i] == t[i]);
            }
        }
        assert(s[0] == t[0]);
    }
}

/// A decimal number is read as what it stands for, where it is not too large.
pub proof fn decimal_numbers_are_read_back(n: nat, max: nat)
    requires
        n <= max,
    ensures
        strs::parse_unsigned(strs::decimal(n), max) == Some(n),
{
    decimal_digits_stand_for_their_number(n);
    assert(strs::is_ascii_digit(strs::decimal(n)[0]));
}

/// Hexadecimal digits tell numbers apart that have no more digits than are written.
pub proof fn hexadecimal_digits_tell_numbers_apart(a: nat, b: nat, width: nat)
    requires
        a < vstd::arithmetic::power::pow(16, width),
        b < vstd::arithmetic::power::pow(16, width),
    ensures
        strs::hex(a, width).len() == width,
        strs::hex(a, width) == strs::hex(b, width) ==> a == b,
    decreases width,
{
    vstd::arithmetic::power::lemma_pow0(16);
    if width > 0 {
        let w = (width - 1) as nat;
        assert(vstd::arithmetic::power::pow(16, width) == 16 * vstd::arithmetic::power::pow(16, w))
            by {
            reveal(vstd::arithmetic::power::pow);
        }
        hexadecimal_digits_tell_numbers_apart(a / 16, b / 16, w);
        let x = strs::hex(a, width);
        let y = strs::hex(b, width);
        if x == y {
            assert(x.drop_last() =~= strs::hex(a / 16, w));
            assert(y.drop_last() =~= strs::hex(b / 16, w));
            assert(x.last() == strs::hex_digit(a % 16) && y.last() == strs::hex_digit(b % 16));
        }
    }
}

/// What stands in a part stands in the whole, and so does what reaches from one part into the next.
pub proof fn parts_stand_in_the_whole()
    ensures
        forall|w: Seq<char>, y: Seq<char>, p: Seq<char>|
            strs::contains(w, p) || strs::contains(y, p) ==> #[trigger] strs::contains(w + y, p),
        forall|x: Seq<char>, h: Seq<char>, b: Seq<char>, p: Seq<char>|
            strs::contains(h + b, p) ==> #[trigger] strs::contains(x + h + b, p),
        forall|p: Seq<char>| #[trigger] strs::contains(p, p),
{
    assert forall|w: Seq<char>, y: Seq<char>, p: Seq<char>|
        strs::contains(w, p) || strs::contains(y, p) implies #[trigger] strs::contains(w + y, p) by {
        let whole = w + y;
        assert(whole.subrange(0, w.len() as int) =~= w);
        assert(whole.subrange(w.len() as int, whole.len() as int) =~= y);
        if strs::contains(w, p) {
            text::lemma_contains_in(whole, 0, w.len() as int, p);
        } else {
            text::lemma_contains_in(whole, w.len() as int, whole.len() as int, p);
        }
    }
    assert forall|x: Seq<char>, h: Seq<char>, b: Seq<char>, p: Seq<char>| strs::contains(
        h + b,
        p,
    ) implies #[trigger] strs::contains(x + h + b, p) by {
        let whole = x + h + b;
        assert(whole.subrange(x.len() as int, whole.len() as int) =~= h + b);
        text::lemma_contains_in(whole, x.len() as int, whole.len() as int, p);
    }
    assert forall|p: Seq<char>| #[trigger] strs::contains(p, p) by {
        assert(p.subrange(0, p.len() as int) =~= p);
        assert(strs::occurs_at(p, p, 0));
    }
}

/// A text that has nothing of a mark is one piece; before a mark it is the first, and what follows
/// the mark is parted on its own.
pub proof fn pieces_end_at_the_mark(x: Seq<char>, sep: Seq<char>, rest: Seq<char>)
    requires
        sep.len() == 1,
        text::apart(x, sep),
    ensures
        strs::split(x, sep) == seq![x],
        strs::split(x + sep + rest, sep) == seq![x] + strs::split(rest, sep),
        strs::join(seq![x] + strs::split(rest, sep), sep) == x + sep + rest,
{
    text::lemma_find_from(x, sep, 0);
    assert forall|i: int| 0 <= i implies !strs::occurs_at(x, sep, i) by {
        if strs::occurs_at(x, sep, i) {
            assert(x.subrange(i, i + 1)[0] == sep[0]);
            assert(x[i] == sep[0]);
        }
    }
    let whole = x + sep + rest;
    let n = x.len() as int;
    text::lemma_find_from(whole, sep, 0);
    assert(whole.subrange(n, n + 1) =~= sep);
    assert(strs::occurs_at(whole, sep, n));
    assert forall|i: int| 0 <= i < n implies !strs::occurs_at(whole, sep, i) by {
        if strs::occurs_at(whole, sep, i) {
            assert(whole.subrange(i, i + 1)[0] == sep[0]);
            assert(x[i] == sep[0]);
        }
    }
    assert(strs::find(whole, sep) == Some(n));
    assert(whole.take(n) =~= x);
    assert(whole.skip(n + 1) =~= rest);
    parted_texts_are_put_together_again(rest, sep);
    lemma_join_front(x, strs::split(rest, sep), sep);
}

/// Replacing a mark goes on from each mark to the next.
pub proof fn a_mark_is_replaced_where_it_stands(
    x: Seq<char>,
    sep: Seq<char>,
    rest: Seq<char>,
    to: Seq<char>,
)
    requires
        sep.len() == 1,
        text::apart(x, sep),
    ensures
        strs::replace(x, sep, to) == x,
        strs::replace(x + sep + rest, sep, to) == x + to + strs::replace(rest, sep, to),
{
    pieces_end_at_the_mark(x, sep, rest);
    parted_texts_are_put_together_again(rest, sep);
    lemma_join_front(x, strs::split(rest, sep), to);
}

} // verus!
