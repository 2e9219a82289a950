//! Operations on text: the parts of std's `str` and `char` that the library uses, written
//! over characters and proved against [`crate::strs`].

use crate::strs;
use vstd::prelude::*;
use vstd::string::*;

verus! {

/// `String::push` of std: appends one character.
pub assume_specification[ String::push ](s: &mut String, c: char)
    ensures
        final(s)@ == old(s)@.push(c),
;

/// `char::is_alphanumeric` of std; which characters those are is left to std.
pub assume_specification[ char::is_alphanumeric ](c: char) -> (r: bool)
    ensures
        r == strs::alphanumeric(c),
;

/// `str::to_lowercase` of std; the case tables are left to std.
#[verifier::external_body]
pub(crate) fn lowercase(s: &str) -> (r: String)
    ensures
        r@ == strs::lowercase(s@),
{
    s.to_lowercase()
}

/// The characters of a text.
pub fn chars_of(s: &str) -> (r: Vec<char>)
    ensures
        r@ == s@,
{
    let mut out: Vec<char> = Vec::new();
    for c in it: s.chars()
        invariant
            it.seq() == s@,
            out@ == s@.take(it.index() as int),
    {
        out.push(c);
    }
    assert(s@.take(s@.len() as int) == s@);
    out
}

/// The text of the characters from `from` up to `to`.
pub fn string_of(v: &Vec<char>, from: usize, to: usize) -> (r: String)
    requires
        from <= to <= v@.len(),
    ensures
        r@ == v@.subrange(from as int, to as int),
{
    let mut out = String::new();
    let mut i: usize = from;
    while i < to
        invariant
            from <= i <= to <= v@.len(),
            out@ == v@.subrange(from as int, i as int),
        decreases to - i,
    {
        out.push(v[i]);
        i += 1;
    }
    out
}

/// The number of bytes that the text takes in UTF-8.
pub fn byte_len(s: &str) -> (r: usize)
    ensures
        r == strs::byte_len(s@),
{
    s.as_bytes().len()
}

/// Whether two texts are the same.
pub fn same(a: &str, b: &str) -> (r: bool)
    ensures
        r == (a@ == b@),
{
    let x = chars_of(a);
    let y = chars_of(b);
    if x.len() != y.len() {
        return false;
    }
    let mut i: usize = 0;
    while i < x.len()
        invariant
            i <= x@.len() == y@.len(),
            x@ == a@,
            y@ == b@,
            forall|j: int| 0 <= j < i ==> x@[j] == y@[j],
        decreases x.len() - i,
    {
        if x[i] != y[i] {
            return false;
        }
        i += 1;
    }
    assert(a@ =~= b@);
    true
}


/// Whether `key` is one of the texts in `list`.
pub fn listed(list: &Vec<String>, key: &str) -> (r: bool)
    ensures
        r == strs::views(list@).contains(key@),
{
    let mut i: usize = 0;
    while i < list.len()
        invariant
            i <= list@.len(),
            forall|j: int| 0 <= j < i ==> strs::views(list@)[j] != key@,
        decreases list@.len() - i,
    {
        if same(&list[i], key) {
            assert(strs::views(list@)[i as int] == key@);
            return true;
        }
        i += 1;
    }
    false
}

/// Adds a text to a list that does not hold it yet; whether it was added.
pub fn push_new(list: &mut Vec<String>, item: String) -> (r: bool)
    ensures
        strs::views(final(list)@) == strs::with_new(strs::views(old(list)@), item@),
        r == !strs::views(old(list)@).contains(item@),
{
    if listed(list, &item) {
        return false;
    }
    let ghost before = strs::views(list@);
    list.push(item);
    assert(strs::views(list@) =~= before.push(item@));
    true
}

/// A copy of a list of texts.
pub fn copy_list(list: &Vec<String>) -> (r: Vec<String>)
    ensures
        r@ == list@,
{
    let mut out: Vec<String> = Vec::new();
    let mut i: usize = 0;
    while i < list.len()
        invariant
            i <= list@.len(),
            out@ =~= list@.take(i as int),
        decreases list@.len() - i,
    {
        out.push(list[i].clone());
        i += 1;
    }
    assert(out@ =~= list@);
    out
}

/// The texts as strings of their own.
pub fn owned(list: &[&str]) -> (r: Vec<String>)
    ensures
        strs::views(r@) == strs::str_views(list@),
{
    let mut out: Vec<String> = Vec::new();
    let mut i: usize = 0;
    while i < list.len()
        invariant
            i <= list@.len(),
            strs::views(out@) =~= strs::str_views(list@).take(i as int),
        decreases list@.len() - i,
    {
        let ghost before = strs::views(out@);
        out.push(list[i].to_owned());
        assert(strs::views(out@) =~= before.push(list@[i as int]@));
        i += 1;
    }
    assert(strs::str_views(list@).take(i as int) =~= strs::str_views(list@));
    out
}

/// The text as a string of its own.
pub fn copy(s: &str) -> (r: String)
    ensures
        r@ == s@,
{
    s.to_owned()
}

/// Adds a text to a list.
pub fn push(list: &mut Vec<String>, item: String)
    ensures
        strs::views(final(list)@) == strs::views(old(list)@).push(item@),
{
    let ghost before = strs::views(list@);
    list.push(item);
    assert(strs::views(list@) =~= before.push(item@));
}

/// Adds the texts of a list.
pub fn push_all(out: &mut Vec<String>, list: &Vec<String>)
    ensures
        strs::views(final(out)@) == strs::views(old(out)@) + strs::views(list@),
{
    let ghost start = strs::views(out@);
    let ghost all = strs::views(list@);
    let mut i: usize = 0;
    assert(start + all.take(0) =~= start);
    while i < list.len()
        invariant
            i <= list@.len(),
            all == strs::views(list@),
            strs::views(out@) == start + all.take(i as int),
        decreases list@.len() - i,
    {
        assert(start + all.take(i + 1) =~= (start + all.take(i as int)).push(list@[i as int]@));
        push(out, list[i].clone());
        i += 1;
    }
    assert(all.take(i as int) =~= all);
}

/// An empty list of texts.
pub fn no_texts() -> (r: Vec<String>)
    ensures
        strs::views(r@) == Seq::<Seq<char>>::empty(),
{
    let out: Vec<String> = Vec::new();
    assert(strs::views(out@) =~= Seq::<Seq<char>>::empty());
    out
}

/// What `f` makes of the first `n` items of a list.
pub(crate) fn map_first<T, F: Fn(&T) -> String>(
    items: &Vec<T>,
    n: usize,
    f: F,
    g: Ghost<spec_fn(T) -> Seq<char>>,
) -> (r: Vec<String>)
    requires
        forall|x: &T| f.requires((x,)),
        forall|x: &T, out: String| f.ensures((x,), out) ==> out@ == g@(*x),
    ensures
        strs::views(r@) == strs::head(items@, n as nat).map_values(g@),
{
    let ghost wanted = strs::head(items@, n as nat).map_values(g@);
    let mut out = no_texts();
    let mut i: usize = 0;
    assert(wanted.take(0) =~= Seq::empty());
    while i < items.len() && i < n
        invariant
            i <= items@.len(),
            i <= n,
            wanted == strs::head(items@, n as nat).map_values(g@),
            forall|x: &T| f.requires((x,)),
            forall|x: &T, out: String| f.ensures((x,), out) ==> out@ == g@(*x),
            strs::views(out@) == wanted.take(i as int),
        decreases items@.len() - i,
    {
        let item = f(&items[i]);
        assert(wanted.take(i + 1) =~= wanted.take(i as int).push(item@));
        push(&mut out, item);
        i += 1;
    }
    assert(wanted.take(i as int) =~= wanted);
    out
}

/// What `f` makes of the texts of a list.
pub(crate) fn map_texts<F: Fn(&str) -> String>(
    list: &Vec<String>,
    f: F,
    g: Ghost<spec_fn(Seq<char>) -> Seq<char>>,
) -> (r: Vec<String>)
    requires
        forall|x: &str| f.requires((x,)),
        forall|x: &str, out: String| f.ensures((x,), out) ==> out@ == g@(x@),
    ensures
        strs::views(r@) == strs::views(list@).map_values(g@),
{
    let ghost wanted = strs::views(list@).map_values(g@);
    let mut out = no_texts();
    let mut i: usize = 0;
    assert(wanted.take(0) =~= Seq::empty());
    while i < list.len()
        invariant
            i <= list@.len(),
            wanted == strs::views(list@).map_values(g@),
            forall|x: &str| f.requires((x,)),
            forall|x: &str, out: String| f.ensures((x,), out) ==> out@ == g@(x@),
            strs::views(out@) == wanted.take(i as int),
        decreases list@.len() - i,
    {
        let item = f(list[i].as_str());
        assert(wanted.take(i + 1) =~= wanted.take(i as int).push(item@));
        push(&mut out, item);
        i += 1;
    }
    assert(wanted.take(i as int) =~= wanted);
    out
}

/// The texts without white space around them.
pub fn trimmed(list: &Vec<String>) -> (r: Vec<String>)
    ensures
        strs::views(r@) == strs::trimmed(strs::views(list@)),
{
    map_texts(list, trim, Ghost(|s: Seq<char>| strs::trim(s)))
}

/// The texts that are not empty.
pub fn filled(list: &Vec<String>) -> (r: Vec<String>)
    ensures
        strs::views(r@) == strs::filled(strs::views(list@)),
{
    let ghost p = |s: Seq<char>| s.len() > 0;
    let ghost all = strs::views(list@);
    let mut out = no_texts();
    let mut i: usize = 0;
    assert(strs::keep(all.take(0), p) =~= Seq::empty());
    while i < list.len()
        invariant
            i <= list@.len(),
            p == (|s: Seq<char>| s.len() > 0),
            all == strs::views(list@),
            strs::views(out@) == strs::keep(all.take(i as int), p),
        decreases list@.len() - i,
    {
        assert(all.take(i + 1).drop_last() =~= all.take(i as int));
        if list[i].as_str().unicode_len() > 0 {
            push(&mut out, list[i].clone());
        }
        i += 1;
    }
    assert(all.take(i as int) =~= all);
    out
}

/// The texts that are not blank.
pub fn nonblank(list: &Vec<String>) -> (r: Vec<String>)
    ensures
        strs::views(r@) == strs::nonblank(strs::views(list@)),
{
    let ghost p = |s: Seq<char>| strs::trim(s).len() > 0;
    let ghost all = strs::views(list@);
    let mut out = no_texts();
    let mut i: usize = 0;
    assert(strs::keep(all.take(0), p) =~= Seq::empty());
    while i < list.len()
        invariant
            i <= list@.len(),
            p == (|s: Seq<char>| strs::trim(s).len() > 0),
            all == strs::views(list@),
            strs::views(out@) == strs::keep(all.take(i as int), p),
        decreases list@.len() - i,
    {
        assert(all.take(i + 1).drop_last() =~= all.take(i as int));
        if trim(&list[i]).unicode_len() > 0 {
            push(&mut out, list[i].clone());
        }
        i += 1;
    }
    assert(all.take(i as int) =~= all);
    out
}

/// The first `n` texts of a list.
pub fn head(list: &Vec<String>, n: usize) -> (r: Vec<String>)
    ensures
        strs::views(r@) == strs::head(strs::views(list@), n as nat),
{
    let ghost wanted = strs::head(strs::views(list@), n as nat);
    let mut out = no_texts();
    let mut i: usize = 0;
    assert(wanted.take(0) =~= Seq::empty());
    while i < list.len() && i < n
        invariant
            i <= list@.len(),
            i <= n,
            wanted == strs::head(strs::views(list@), n as nat),
            strs::views(out@) == wanted.take(i as int),
        decreases list@.len() - i,
    {
        assert(wanted.take(i + 1) =~= wanted.take(i as int).push(list@[i as int]@));
        push(&mut out, list[i].clone());
        i += 1;
    }
    assert(wanted.take(i as int) =~= wanted);
    out
}

/// Whether a text is blank.
pub fn is_blank(s: &str) -> (r: bool)
    ensures
        r == (strs::trim(s@).len() == 0),
{
    trim(s).unicode_len() == 0
}

/// Whether a character is white space.
pub fn is_space(c: char) -> (r: bool)
    ensures
        r == strs::is_space(c),
{
    ('\u{9}' <= c && c <= '\u{d}') || c == '\u{20}' || c == '\u{85}' || c == '\u{a0}' || c
        == '\u{1680}' || ('\u{2000}' <= c && c <= '\u{200a}') || c == '\u{2028}' || c == '\u{2029}'
        || c == '\u{202f}' || c == '\u{205f}' || c == '\u{3000}'
}

/// Whether a character is a control character.
pub fn is_control(c: char) -> (r: bool)
    ensures
        r == strs::is_control(c),
{
    c <= '\u{1f}' || ('\u{7f}' <= c && c <= '\u{9f}')
}

/// Whether a character is an ASCII letter or digit.
pub fn is_ascii_alphanumeric(c: char) -> (r: bool)
    ensures
        r == strs::is_ascii_alphanumeric(c),
{
    ('A' <= c && c <= 'Z') || ('a' <= c && c <= 'z') || ('0' <= c && c <= '9')
}

/// The ASCII lower case of a character.
pub fn ascii_lower_char(c: char) -> (r: char)
    ensures
        r == strs::ascii_lower_char(c),
{
    if 'A' <= c && c <= 'Z' {
        ((c as u8) + 32) as char
    } else {
        c
    }
}

/// The text with `A` to `Z` replaced by `a` to `z`.
pub fn ascii_lower(s: &str) -> (r: String)
    ensures
        r@ == strs::ascii_lower(s@),
{
    let mut out = String::new();
    for c in it: s.chars()
        invariant
            it.seq() == s@,
            out@ == strs::ascii_lower(s@.take(it.index() as int)),
    {
        proof {
            let i = it.index() as int;
            assert(strs::ascii_lower(s@.take(i + 1)) =~= strs::ascii_lower(s@.take(i)).push(
                strs::ascii_lower_char(s@[i]),
            ));
        }
        out.push(ascii_lower_char(c));
    }
    assert(s@.take(s@.len() as int) == s@);
    out
}

/// Whether `c` stands in `set`.
fn in_set(c: char, set: &Vec<char>) -> (r: bool)
    ensures
        r == set@.contains(c),
{
    let mut i: usize = 0;
    while i < set.len()
        invariant
            i <= set@.len(),
            forall|j: int| 0 <= j < i ==> set@[j] != c,
        decreases set@.len() - i,
    {
        if set[i] == c {
            return true;
        }
        i += 1;
    }
    false
}

/// The position of the first character that is not white space.
fn space_end(v: &Vec<char>) -> (r: usize)
    ensures
        r <= v@.len(),
        v@.skip(r as int) == strs::trim_start(v@),
{
    let ghost p = |c: char| strs::is_space(c);
    let mut i: usize = 0;
    assert(v@.skip(0) == v@);
    while i < v.len() && is_space(v[i])
        invariant
            p == (|c: char| strs::is_space(c)),
            i <= v@.len(),
            strs::trim_start_where(v@, p) == strs::trim_start_where(v@.skip(i as int), p),
        decreases v@.len() - i,
    {
        assert(v@.skip(i as int).skip(1) == v@.skip(i + 1));
        i += 1;
    }
    i
}

/// The text without leading and trailing white space.
pub fn trim(s: &str) -> (r: String)
    ensures
        r@ == strs::trim(s@),
{
    let v = chars_of(s);
    let start = space_end(&v);
    let end = space_start(&v, start);
    string_of(&v, start, end)
}

/// The text without leading white space.
pub fn trim_start(s: &str) -> (r: String)
    ensures
        r@ == strs::trim_start(s@),
{
    let v = chars_of(s);
    let start = space_end(&v);
    assert(v@.skip(start as int) == v@.subrange(start as int, v@.len() as int));
    string_of(&v, start, v.len())
}

/// The text without trailing white space.
pub fn trim_end(s: &str) -> (r: String)
    ensures
        r@ == strs::trim_end(s@),
{
    let v = chars_of(s);
    let end = space_start(&v, 0);
    assert(v@.skip(0) == v@);
    string_of(&v, 0, end)
}

/// The position after the last character from `start` on that is not white space.
fn space_start(v: &Vec<char>, start: usize) -> (r: usize)
    requires
        start <= v@.len(),
    ensures
        start <= r <= v@.len(),
        v@.subrange(start as int, r as int) == strs::trim_end(v@.skip(start as int)),
{
    let ghost p = |c: char| strs::is_space(c);
    let mut end: usize = v.len();
    assert(v@.subrange(start as int, end as int) == v@.skip(start as int));
    while end > start && is_space(v[end - 1])
        invariant
            p == (|c: char| strs::is_space(c)),
            start <= end <= v@.len(),
            strs::trim_end_where(v@.skip(start as int), p) == strs::trim_end_where(
                v@.subrange(start as int, end as int),
                p,
            ),
        decreases end,
    {
        assert(v@.subrange(start as int, end as int).drop_last() == v@.subrange(
            start as int,
            end - 1,
        ));
        end -= 1;
    }
    end
}

/// The text without the leading characters that stand in `set`.
pub fn trim_start_set(s: &str, set: &str) -> (r: String)
    ensures
        r@ == strs::trim_start_set(s@, set@),
{
    let v = chars_of(s);
    let cs = chars_of(set);
    let ghost p = |c: char| set@.contains(c);
    let mut i: usize = 0;
    assert(v@.skip(0) == v@);
    while i < v.len() && in_set(v[i], &cs)
        invariant
            p == (|c: char| set@.contains(c)),
            cs@ == set@,
            i <= v@.len(),
            strs::trim_start_where(v@, p) == strs::trim_start_where(v@.skip(i as int), p),
        decreases v@.len() - i,
    {
        assert(v@.skip(i as int).skip(1) == v@.skip(i + 1));
        i += 1;
    }
    assert(v@.skip(i as int) == v@.subrange(i as int, v@.len() as int));
    string_of(&v, i, v.len())
}

/// The text without the trailing characters that stand in `set`.
pub fn trim_end_set(s: &str, set: &str) -> (r: String)
    ensures
        r@ == strs::trim_end_set(s@, set@),
{
    let v = chars_of(s);
    let cs = chars_of(set);
    let ghost p = |c: char| set@.contains(c);
    let mut end: usize = v.len();
    assert(v@.subrange(0, end as int) == v@);
    while end > 0 && in_set(v[end - 1], &cs)
        invariant
            p == (|c: char| set@.contains(c)),
            cs@ == set@,
            end <= v@.len(),
            strs::trim_end_where(v@, p) == strs::trim_end_where(v@.subrange(0, end as int), p),
        decreases end,
    {
        assert(v@.subrange(0, end as int).drop_last() == v@.subrange(0, end - 1));
        end -= 1;
    }
    string_of(&v, 0, end)
}

/// The text without the leading and trailing characters that stand in `set`.
pub fn trim_set(s: &str, set: &str) -> (r: String)
    ensures
        r@ == strs::trim_set(s@, set@),
{
    let head = trim_start_set(s, set);
    trim_end_set(&head, set)
}


/// Whether `p` stands in `v` from position `i` on.
fn matches_at(v: &Vec<char>, p: &Vec<char>, i: usize) -> (r: bool)
    ensures
        r == strs::occurs_at(v@, p@, i as int),
{
    if p.len() > v.len() || i > v.len() - p.len() {
        return false;
    }
    let mut j: usize = 0;
    while j < p.len()
        invariant
            i + p@.len() <= v.len(),
            j <= p@.len(),
            forall|k: int| 0 <= k < j ==> v@[i + k] == p@[k],
        decreases p@.len() - j,
    {
        if v[i + j] != p[j] {
            assert(v@.subrange(i as int, i + p@.len())[j as int] != p@[j as int]);
            return false;
        }
        j += 1;
    }
    assert(v@.subrange(i as int, i + p@.len()) =~= p@);
    true
}

/// The first position from `from` on where `p` stands in `v`.
pub(crate) fn find_in(v: &Vec<char>, p: &Vec<char>, from: usize) -> (r: Option<usize>)
    requires
        from <= v@.len(),
    ensures
        match r {
            Some(i) => from <= i && i + p@.len() <= v@.len() && strs::find_from(
                v@,
                p@,
                from as int,
            ) == Some(i as int),
            None => strs::find_from(v@, p@, from as int) is None,
        },
{
    if p.len() > v.len() {
        return None;
    }
    let last: usize = v.len() - p.len();
    let mut i: usize = from;
    while i <= last
        invariant
            last + p@.len() == v@.len(),
            from <= i <= v@.len() + 1,
            strs::find_from(v@, p@, from as int) == strs::find_from(v@, p@, i as int),
        decreases v@.len() + 1 - i,
    {
        if matches_at(v, p, i) {
            return Some(i);
        }
        if i == last {
            assert(strs::find_from(v@, p@, i + 1) is None);
            return None;
        }
        i += 1;
    }
    None
}

/// What [`strs::find_from`] finds is an occurrence, and it finds one where there is one.
pub proof fn lemma_find_from(s: Seq<char>, p: Seq<char>, i: int)
    requires
        0 <= i,
    ensures
        match strs::find_from(s, p, i) {
            Some(k) => i <= k && strs::occurs_at(s, p, k) && (forall|j: int|
                i <= j < k ==> !strs::occurs_at(s, p, j)),
            None => forall|j: int| i <= j ==> !strs::occurs_at(s, p, j),
        },
    decreases s.len() - i + 1,
{
    if i + p.len() <= s.len() && !strs::occurs_at(s, p, i) {
        lemma_find_from(s, p, i + 1);
    }
}

/// The first position where `p` stands in `s`, counted in characters.
pub fn find(s: &str, p: &str) -> (r: Option<usize>)
    ensures
        match r {
            Some(i) => i + p@.len() <= s@.len() && strs::find(s@, p@) == Some(i as int),
            None => strs::find(s@, p@) is None,
        },
{
    let v = chars_of(s);
    let w = chars_of(p);
    find_in(&v, &w, 0)
}

/// The last position where `p` stands in `s`, counted in characters.
pub fn rfind(s: &str, p: &str) -> (r: Option<usize>)
    ensures
        match r {
            Some(i) => i + p@.len() <= s@.len() && strs::rfind(s@, p@) == Some(i as int),
            None => strs::rfind(s@, p@) is None,
        },
{
    let v = chars_of(s);
    let w = chars_of(p);
    if w.len() > v.len() {
        return None;
    }
    let mut i: usize = v.len() - w.len();
    loop
        invariant
            v@ == s@,
            w@ == p@,
            i + w@.len() <= v@.len(),
            strs::rfind(s@, p@) == strs::rfind_to(s@, p@, i as int),
        decreases i,
    {
        if matches_at(&v, &w, i) {
            return Some(i);
        }
        if i == 0 {
            assert(strs::rfind_to(s@, p@, -1) is None);
            return None;
        }
        i -= 1;
    }
}

/// Whether `p` stands somewhere in `s`.
pub fn contains(s: &str, p: &str) -> (r: bool)
    ensures
        r == strs::contains(s@, p@),
{
    let found = find(s, p);
    proof {
        lemma_find_from(s@, p@, 0);
        if strs::contains(s@, p@) {
            let i = choose|i: int| strs::occurs_at(s@, p@, i);
            assert(strs::occurs_at(s@, p@, i));
        }
    }
    found.is_some()
}

/// Whether some text of `ps` stands in `s`.
pub fn contains_any(s: &str, ps: &[&str]) -> (r: bool)
    ensures
        r == (exists|k: int| 0 <= k < ps@.len() && strs::contains(s@, (#[trigger] ps@[k])@)),
{
    let mut k: usize = 0;
    while k < ps.len()
        invariant
            k <= ps@.len(),
            forall|j: int| 0 <= j < k ==> !strs::contains(s@, (#[trigger] ps@[j])@),
        decreases ps@.len() - k,
    {
        if contains(s, ps[k]) {
            assert(strs::contains(s@, ps@[k as int]@));
            return true;
        }
        k += 1;
    }
    false
}

/// Whether `s` begins with `p`.
pub fn starts_with(s: &str, p: &str) -> (r: bool)
    ensures
        r == strs::starts_with(s@, p@),
{
    let v = chars_of(s);
    let w = chars_of(p);
    matches_at(&v, &w, 0)
}

/// Whether `s` ends with `p`.
pub fn ends_with(s: &str, p: &str) -> (r: bool)
    ensures
        r == strs::ends_with(s@, p@),
{
    let v = chars_of(s);
    let w = chars_of(p);
    if w.len() > v.len() {
        return false;
    }
    matches_at(&v, &w, v.len() - w.len())
}

/// The pieces of the text between the occurrences of `sep`, taken from the left.
pub fn split(s: &str, sep: &str) -> (r: Vec<String>)
    requires
        sep@.len() > 0,
    ensures
        strs::views(r@) == strs::split(s@, sep@),
        r@.len() >= 1,
{
    let v = chars_of(s);
    let w = chars_of(sep);
    let mut out: Vec<String> = Vec::new();
    let mut from: usize = 0;
    assert(v@.skip(0) == v@);
    assert(strs::views(out@) + strs::split(v@, w@) == strs::split(v@, w@));
    loop
        invariant
            v@ == s@,
            w@ == sep@,
            w@.len() > 0,
            from <= v@.len(),
            strs::views(out@) + strs::split(v@.skip(from as int), w@) == strs::split(s@, sep@),
        decreases v@.len() - from,
    {
        let ghost before = out@;
        proof {
            lemma_find_skip(v@, w@, from as int);
        }
        match find_in(&v, &w, from) {
            None => {
                let piece = string_of(&v, from, v.len());
                assert(v@.subrange(from as int, v@.len() as int) == v@.skip(from as int));
                out.push(piece);
                assert(strs::views(out@) =~= strs::views(before).push(piece@));
                return out;
            },
            Some(i) => {
                let piece = string_of(&v, from, i);
                assert(v@.skip(from as int).take(i - from) == v@.subrange(from as int, i as int));
                assert(v@.skip(from as int).skip(i - from + w@.len()) == v@.skip(i + w@.len()));
                out.push(piece);
                assert(strs::views(out@) =~= strs::views(before).push(piece@));
                assert(strs::views(before) + (seq![piece@] + strs::split(
                    v@.skip(i + w@.len()),
                    w@,
                )) =~= strs::views(out@) + strs::split(v@.skip(i + w@.len()), w@));
                assert(i + w@.len() <= v.len());
                from = i + w.len();
            },
        }
    }
}

/// A search from position `k` is a search in the text from `k` on.
proof fn lemma_find_skip(s: Seq<char>, p: Seq<char>, k: int)
    requires
        0 <= k <= s.len(),
    ensures
        match strs::find_from(s, p, k) {
            Some(i) => strs::find(s.skip(k), p) == Some(i - k),
            None => strs::find(s.skip(k), p) is None,
        },
{
    let t = s.skip(k);
    lemma_find_from(s, p, k);
    lemma_find_from(t, p, 0);
    assert forall|j: int| 0 <= j implies strs::occurs_at(t, p, j) == #[trigger] strs::occurs_at(
        s,
        p,
        j + k,
    ) by {
        if j + p.len() <= t.len() {
            assert(t.subrange(j, j + p.len()) =~= s.subrange(j + k, j + k + p.len()));
        }
    }
    match (strs::find_from(s, p, k), strs::find(t, p)) {
        (Some(i), Some(j)) => {
            assert(strs::occurs_at(s, p, j + k));
            assert(strs::occurs_at(s, p, (i - k) + k));
        },
        (Some(i), None) => {
            assert(strs::occurs_at(s, p, (i - k) + k));
        },
        (None, Some(j)) => {
            assert(strs::occurs_at(s, p, j + k));
        },
        (None, None) => {},
    }
}

/// The texts one after the other, with `sep` between each two.
pub fn join(parts: &Vec<String>, sep: &str) -> (r: String)
    ensures
        r@ == strs::join(strs::views(parts@), sep@),
{
    let mut out = String::new();
    let mut i: usize = 0;
    while i < parts.len()
        invariant
            i <= parts@.len(),
            out@ == strs::join(strs::views(parts@).take(i as int), sep@),
        decreases parts@.len() - i,
    {
        assert(strs::views(parts@).take(i + 1).drop_last() == strs::views(parts@).take(i as int));
        if i > 0 {
            out.append(sep);
        } else {
            assert(out@ + parts@[0]@ =~= parts@[0]@);
        }
        out.append(&parts[i]);
        i += 1;
    }
    assert(strs::views(parts@).take(i as int) == strs::views(parts@));
    out
}

/// The text with every occurrence of `from` (taken from the left) replaced by `to`.
pub fn replace(s: &str, from: &str, to: &str) -> (r: String)
    requires
        from@.len() > 0,
    ensures
        r@ == strs::replace(s@, from@, to@),
{
    let parts = split(s, from);
    join(&parts, to)
}

/// The first position from `from` on of the character `c`.
pub(crate) fn find_char_in(v: &Vec<char>, c: char, from: usize) -> (r: Option<usize>)
    requires
        from <= v@.len(),
    ensures
        match r {
            Some(i) => from <= i < v@.len() && strs::find_char(v@.skip(from as int), c) == Some(
                i - from,
            ),
            None => strs::find_char(v@.skip(from as int), c) is None,
        },
{
    let ghost t = v@.skip(from as int);
    let mut i: usize = from;
    while i < v.len()
        invariant
            t == v@.skip(from as int),
            from <= i <= v@.len(),
            strs::find_char(t, c) == strs::find_char_from(t, c, i - from),
        decreases v@.len() - i,
    {
        assert(v@[i as int] == t[i - from]);
        if v[i] == c {
            return Some(i);
        }
        i += 1;
    }
    None
}

/// The lines of the text.
pub fn lines(s: &str) -> (r: Vec<String>)
    ensures
        strs::views(r@) == strs::lines(s@),
{
    let v = chars_of(s);
    let mut out: Vec<String> = Vec::new();
    let mut from: usize = 0;
    assert(v@.skip(0) == v@);
    assert(strs::views(out@) + strs::lines(v@) == strs::lines(v@));
    while from < v.len()
        invariant
            v@ == s@,
            from <= v@.len(),
            strs::views(out@) + strs::lines(v@.skip(from as int)) == strs::lines(s@),
        decreases v@.len() - from,
    {
        let ghost before = out@;
        let ghost rest = v@.skip(from as int);
        match find_char_in(&v, '\n', from) {
            None => {
                let piece = string_of(&v, from, v.len());
                assert(v@.subrange(from as int, v@.len() as int) == rest);
                out.push(piece);
                assert(strs::views(out@) =~= strs::views(before).push(piece@));
                return out;
            },
            Some(i) => {
                let mut end: usize = i;
                assert(rest.take(i - from) == v@.subrange(from as int, i as int));
                if end > from && v[end - 1] == '\r' {
                    end -= 1;
                    assert(rest.take(i - from).drop_last() == v@.subrange(from as int, end as int));
                }
                let piece = string_of(&v, from, end);
                assert(piece@ == strs::strip_cr(rest.take(i - from)));
                assert(rest.skip(i - from + 1) == v@.skip(i + 1));
                out.push(piece);
                assert(strs::views(out@) =~= strs::views(before).push(piece@));
                assert(strs::views(before) + (seq![piece@] + strs::lines(v@.skip(i + 1)))
                    =~= strs::views(out@) + strs::lines(v@.skip(i + 1)));
                from = i + 1;
            },
        }
    }
    assert(strs::views(out@) + strs::lines(v@.skip(from as int)) =~= strs::views(out@));
    out
}

/// The maximal runs of characters that are not white space.
pub fn words(s: &str) -> (r: Vec<String>)
    ensures
        strs::views(r@) == strs::words(s@),
{
    let v = chars_of(s);
    let mut out: Vec<String> = Vec::new();
    let mut from: usize = 0;
    assert(v@.skip(0) == v@);
    assert(strs::views(out@) + strs::words(v@) == strs::words(v@));
    while from < v.len()
        invariant
            v@ == s@,
            from <= v@.len(),
            strs::views(out@) + strs::words(v@.skip(from as int)) == strs::words(s@),
        decreases v@.len() - from,
    {
        let ghost before = out@;
        let ghost rest = v@.skip(from as int);
        assert(rest[0] == v@[from as int]);
        if is_space(v[from]) {
            assert(rest.skip(1) == v@.skip(from + 1));
            from += 1;
        } else {
            let mut end: usize = from;
            assert(rest.skip(0) == rest);
            while end < v.len() && !is_space(v[end])
                invariant
                    from <= end <= v@.len(),
                    rest == v@.skip(from as int),
                    strs::word_len(rest) == end - from + strs::word_len(rest.skip(end - from)),
                decreases v@.len() - end,
            {
                assert(rest.skip(end - from)[0] == v@[end as int]);
                assert(rest.skip(end - from).skip(1) == rest.skip(end + 1 - from));
                end += 1;
            }
            assert(end < v@.len() ==> rest.skip(end - from)[0] == v@[end as int]);
            let piece = string_of(&v, from, end);
            assert(piece@ == rest.take(end - from));
            assert(rest.skip(end - from) == v@.skip(end as int));
            out.push(piece);
            assert(strs::views(out@) =~= strs::views(before).push(piece@));
            assert(strs::views(before) + (seq![piece@] + strs::words(v@.skip(end as int)))
                =~= strs::views(out@) + strs::words(v@.skip(end as int)));
            from = end;
        }
    }
    assert(strs::views(out@) + strs::words(v@.skip(from as int)) =~= strs::views(out@));
    out
}

/// The first `n` characters, or the whole text where it is shorter.
pub fn first(s: &str, n: usize) -> (r: String)
    ensures
        r@ == strs::first(s@, n as nat),
{
    let v = chars_of(s);
    let end: usize = if v.len() <= n {
        v.len()
    } else {
        n
    };
    assert(v@.subrange(0, end as int) == strs::first(v@, n as nat));
    string_of(&v, 0, end)
}

/// The last `n` characters, or the whole text where it is shorter.
pub fn last(s: &str, n: usize) -> (r: String)
    ensures
        r@ == strs::last(s@, n as nat),
{
    let v = chars_of(s);
    let start: usize = if v.len() <= n {
        0
    } else {
        v.len() - n
    };
    assert(v@.subrange(start as int, v@.len() as int) == strs::last(v@, n as nat));
    string_of(&v, start, v.len())
}

/// Without its first `n` characters.
pub fn after(s: &str, n: usize) -> (r: String)
    ensures
        r@ == strs::after(s@, n as nat),
{
    let v = chars_of(s);
    let start: usize = if v.len() <= n {
        v.len()
    } else {
        n
    };
    assert(v@.subrange(start as int, v@.len() as int) == strs::after(v@, n as nat));
    string_of(&v, start, v.len())
}

/// Whether `a` comes strictly before `b`.
pub fn before(a: &str, b: &str) -> (r: bool)
    ensures
        r == strs::before(a@, b@),
{
    let x = chars_of(a);
    let y = chars_of(b);
    let mut i: usize = 0;
    assert(x@.skip(0) == x@ && y@.skip(0) == y@);
    while i < x.len() && i < y.len()
        invariant
            x@ == a@,
            y@ == b@,
            i <= x@.len(),
            i <= y@.len(),
            strs::before(x@, y@) == strs::before(x@.skip(i as int), y@.skip(i as int)),
        decreases x@.len() - i,
    {
        assert(x@.skip(i as int)[0] == x@[i as int] && y@.skip(i as int)[0] == y@[i as int]);
        if x[i] != y[i] {
            return x[i] < y[i];
        }
        assert(x@.skip(i as int).skip(1) == x@.skip(i + 1));
        assert(y@.skip(i as int).skip(1) == y@.skip(i + 1));
        i += 1;
    }
    i < y.len()
}

/// The decimal digits of a number.
pub fn decimal(n: u64) -> (r: String)
    ensures
        r@ == strs::decimal(n as nat),
    decreases n,
{
    if n < 10 {
        let mut out = String::new();
        out.push((('0' as u8) + (n as u8)) as char);
        assert(out@ == seq![strs::digit(n as nat)]);
        out
    } else {
        let mut out = decimal(n / 10);
        out.push((('0' as u8) + ((n % 10) as u8)) as char);
        out
    }
}

/// The last `width` hexadecimal digits of a number.
pub fn hex(n: u64, width: usize) -> (r: String)
    ensures
        r@ == strs::hex(n as nat, width as nat),
    decreases width,
{
    if width == 0 {
        String::new()
    } else {
        let mut out = hex(n / 16, width - 1);
        let d: u8 = (n % 16) as u8;
        if d < 10 {
            out.push((('0' as u8) + d) as char);
        } else {
            out.push((('a' as u8) + (d - 10)) as char);
        }
        out
    }
}

/// The value of the digits grows with their number.
proof fn lemma_decimal_value_grows(s: Seq<char>, k: int)
    requires
        0 <= k <= s.len(),
        strs::all_digits(s),
    ensures
        strs::decimal_value(s.take(k)) <= strs::decimal_value(s),
    decreases s.len(),
{
    if k == s.len() {
        assert(s.take(k) =~= s);
    } else {
        assert(s.drop_last().take(k) =~= s.take(k));
        assert forall|i: int| 0 <= i < s.drop_last().len() implies strs::is_ascii_digit(
            #[trigger] s.drop_last()[i],
        ) by {
            assert(s[i] == s.drop_last()[i]);
        }
        lemma_decimal_value_grows(s.drop_last(), k);
    }
}

/// The number that `s` stands for as an unsigned integer up to `max`.
pub fn parse_unsigned(s: &str, max: u64) -> (r: Option<u64>)
    ensures
        match r {
            Some(n) => strs::parse_unsigned(s@, max as nat) == Some(n as nat),
            None => strs::parse_unsigned(s@, max as nat) is None,
        },
{
    let v = chars_of(s);
    let start: usize = if v.len() > 0 && v[0] == '+' {
        1
    } else {
        0
    };
    let ghost digits = if s@.len() > 0 && s@[0] == '+' {
        s@.skip(1)
    } else {
        s@
    };
    assert(digits =~= v@.skip(start as int));
    if start == v.len() {
        return None;
    }
    let mut value: u64 = 0;
    let mut i: usize = start;
    while i < v.len()
        invariant
            v@ == s@,
            start <= i <= v@.len(),
            start < v@.len(),
            digits == v@.skip(start as int),
            digits == if s@.len() > 0 && s@[0] == '+' {
                s@.skip(1)
            } else {
                s@
            },
            forall|j: int| 0 <= j < i - start ==> strs::is_ascii_digit(#[trigger] digits[j]),
            value == strs::decimal_value(digits.take(i - start)),
            value <= max,
        decreases v@.len() - i,
    {
        let c = v[i];
        assert(digits[i - start] == v@[i as int]);
        assert(digits.take(i + 1 - start).drop_last() =~= digits.take(i - start));
        if !('0' <= c && c <= '9') {
            return None;
        }
        let d: u64 = (c as u32 - '0' as u32) as u64;
        if value > max / 10 || d > max - value * 10 {
            proof {
                assert(strs::decimal_value(digits.take(i + 1 - start)) > max);
                if strs::all_digits(digits) {
                    lemma_decimal_value_grows(digits, i + 1 - start);
                }
            }
            return None;
        }
        value = value * 10 + d;
        i += 1;
    }
    assert(digits.take(v@.len() - start) =~= digits);
    Some(value)
}


/// The order of texts is irreflexive, transitive and total.
pub proof fn lemma_before_is_total_order(a: Seq<char>, b: Seq<char>, c: Seq<char>)
    ensures
        !strs::before(a, a),
        strs::before(a, b) && strs::before(b, c) ==> strs::before(a, c),
        strs::before(a, b) || a == b || strs::before(b, a),
        !(strs::before(a, b) && strs::before(b, a)),
    decreases a.len() + b.len() + c.len(),
{
    if a.len() > 0 {
        if b.len() > 0 && c.len() > 0 {
            lemma_before_is_total_order(a.skip(1), b.skip(1), c.skip(1));
            if a[0] == b[0] && a.skip(1) == b.skip(1) {
                assert(a =~= b) by {
                    assert forall|i: int| 0 <= i < a.len() implies a[i] == b[i] by {
                        if i > 0 {
                            assert(a.skip(1)[i - 1] == b.skip(1)[i - 1]);
                        }
                    }
                }
            }
        } else if b.len() > 0 {
            lemma_before_is_total_order(a.skip(1), b.skip(1), c);
            if a[0] == b[0] && a.skip(1) == b.skip(1) {
                assert(a =~= b) by {
                    assert forall|i: int| 0 <= i < a.len() implies a[i] == b[i] by {
                        if i > 0 {
                            assert(a.skip(1)[i - 1] == b.skip(1)[i - 1]);
                        }
                    }
                }
            }
        } else {
            lemma_before_is_total_order(a.skip(1), b, c);
        }
    } else {
        assert(b.len() == 0 ==> a =~= b);
    }
}


/// What is left after trimming at the start is an end of the text that begins with no trimmed
/// character.
pub proof fn lemma_trim_start_where(s: Seq<char>, p: spec_fn(char) -> bool)
    ensures
        ({
            let t = strs::trim_start_where(s, p);
            &&& t.len() <= s.len()
            &&& t == s.skip(s.len() - t.len())
            &&& t.len() > 0 ==> !p(t[0])
        }),
    decreases s.len(),
{
    if s.len() > 0 && p(s[0]) {
        lemma_trim_start_where(s.skip(1), p);
        let t = strs::trim_start_where(s, p);
        assert(t =~= s.skip(s.len() - t.len()));
    } else {
        assert(s.skip(0) =~= s);
    }
}

/// What is left after trimming at the end is a beginning of the text that ends with no trimmed
/// character.
pub proof fn lemma_trim_end_where(s: Seq<char>, p: spec_fn(char) -> bool)
    ensures
        ({
            let t = strs::trim_end_where(s, p);
            &&& t.len() <= s.len()
            &&& t == s.take(t.len() as int)
            &&& t.len() > 0 ==> !p(t.last())
        }),
    decreases s.len(),
{
    if s.len() > 0 && p(s.last()) {
        lemma_trim_end_where(s.drop_last(), p);
        let t = strs::trim_end_where(s, p);
        assert(t =~= s.take(t.len() as int));
    } else {
        assert(s.take(s.len() as int) =~= s);
    }
}

/// A trimmed text is a piece of the text, with no white space at its ends.
pub proof fn lemma_trim(s: Seq<char>) -> (from: int)
    ensures
        0 <= from,
        from + strs::trim(s).len() <= s.len(),
        strs::trim(s) == s.subrange(from, from + strs::trim(s).len()),
        strs::trim(s).len() > 0 ==> !strs::is_space(strs::trim(s)[0]) && !strs::is_space(
            strs::trim(s).last(),
        ),
{
    let p = |c: char| strs::is_space(c);
    lemma_trim_start_where(s, p);
    let t = strs::trim_start(s);
    lemma_trim_end_where(t, p);
    let from = s.len() - t.len();
    assert(strs::trim(s) =~= s.subrange(from, from + strs::trim(s).len()));
    from
}

/// A text without white space at its ends is not changed by trimming.
pub proof fn lemma_trim_keeps(s: Seq<char>)
    requires
        s.len() > 0 ==> !strs::is_space(s[0]) && !strs::is_space(s.last()),
    ensures
        strs::trim(s) == s,
{
}

/// Trimming twice is trimming once.
pub proof fn trimming_twice_is_trimming_once(s: Seq<char>)
    ensures
        strs::trim(strs::trim(s)) == strs::trim(s),
{
    lemma_trim(s);
    lemma_trim_keeps(strs::trim(s));
}

/// What stands in a text stands in every text that holds it.
pub proof fn lemma_contains_in(s: Seq<char>, from: int, to: int, p: Seq<char>)
    requires
        0 <= from <= to <= s.len(),
        strs::contains(s.subrange(from, to), p),
    ensures
        strs::contains(s, p),
{
    let t = s.subrange(from, to);
    let i = choose|i: int| strs::occurs_at(t, p, i);
    assert(t.subrange(i, i + p.len()) =~= s.subrange(from + i, from + i + p.len()));
    assert(strs::occurs_at(s, p, from + i));
}

/// What stands in a trimmed text stands in the text.
pub proof fn lemma_contains_trimmed(s: Seq<char>, p: Seq<char>)
    requires
        strs::contains(strs::trim(s), p),
    ensures
        strs::contains(s, p),
{
    let from = lemma_trim(s);
    lemma_contains_in(s, from, from + strs::trim(s).len(), p);
}

/// Two texts have no character in common.
pub open spec fn apart(a: Seq<char>, b: Seq<char>) -> bool {
    forall|i: int, j: int|
        0 <= i < a.len() && 0 <= j < b.len() ==> #[trigger] a[i] != #[trigger] b[j]
}

/// A text that stands in joined parts and has nothing of what stands between them stands in one
/// of the parts.
pub proof fn lemma_contains_joined(parts: Seq<Seq<char>>, sep: Seq<char>, p: Seq<char>) -> (k: int)
    requires
        p.len() > 0,
        sep.len() > 0,
        apart(p, sep),
        strs::contains(strs::join(parts, sep), p),
    ensures
        0 <= k < parts.len(),
        strs::contains(parts[k], p),
    decreases parts.len(),
{
    let whole = strs::join(parts, sep);
    let i = choose|i: int| strs::occurs_at(whole, p, i);
    if parts.len() == 0 {
        assert(false);
        0
    } else if parts.len() == 1 {
        0
    } else {
        let head = strs::join(parts.drop_last(), sep);
        let last = parts.last();
        let n = p.len() as int;
        assert(whole.subrange(i, i + n) == p);
        if i + n <= head.len() {
            assert(head.subrange(i, i + n) =~= whole.subrange(i, i + n));
            assert(strs::occurs_at(head, p, i));
            let k = lemma_contains_joined(parts.drop_last(), sep, p);
            assert(parts.drop_last()[k] == parts[k]);
            k
        } else if i >= head.len() + sep.len() {
            let at = i - head.len() - sep.len();
            assert(last.subrange(at, at + n) =~= whole.subrange(i, i + n));
            assert(strs::occurs_at(last, p, at));
            parts.len() - 1
        } else {
            let at = if i > head.len() {
                i
            } else {
                head.len() as int
            };
            assert(whole[at] == sep[at - head.len()]);
            assert(p[at - i] == whole.subrange(i, i + n)[at - i]);
            assert(false);
            0
        }
    }
}

/// What stands in a piece of a text stands in the text.
pub proof fn lemma_contains_split(s: Seq<char>, sep: Seq<char>, k: int, p: Seq<char>)
    requires
        0 <= k < strs::split(s, sep).len(),
        strs::contains(strs::split(s, sep)[k], p),
    ensures
        strs::contains(s, p),
    decreases s.len(),
{
    if sep.len() > 0 {
        match strs::find(s, sep) {
            None => {},
            Some(i) => {
                if 0 <= i && i + sep.len() <= s.len() {
                    let rest = s.skip(i + sep.len());
                    if k == 0 {
                        assert(s.take(i) =~= s.subrange(0, i));
                        lemma_contains_in(s, 0, i, p);
                    } else {
                        assert(strs::split(s, sep)[k] == strs::split(rest, sep)[k - 1]);
                        lemma_contains_split(rest, sep, k - 1, p);
                        assert(rest =~= s.subrange(i + sep.len(), s.len() as int));
                        lemma_contains_in(s, i + sep.len(), s.len() as int, p);
                    }
                }
            },
        }
    }
}

/// A text that stands where something was replaced, and has nothing of what replaced it, stood
/// there before.
pub proof fn lemma_contains_replaced(s: Seq<char>, from: Seq<char>, to: Seq<char>, p: Seq<char>)
    requires
        p.len() > 0,
        to.len() > 0,
        apart(p, to),
        strs::contains(strs::replace(s, from, to), p),
    ensures
        strs::contains(s, p),
{
    let k = lemma_contains_joined(strs::split(s, from), to, p);
    lemma_contains_split(s, from, k, p);
}

} // verus!
