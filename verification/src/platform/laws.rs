//! What holds of the state of the program, of where it is looked for, and of updates.

use crate::json;
use crate::json::Tree;
use crate::platform::state;
use crate::platform::state::{Candidate, Root, WindowsFolders};
use crate::platform::update;
use crate::strs;
use crate::text;
use crate::texts;
use vstd::prelude::*;

verus! {

/// A version is read number by number, and the letter before it does not count.
pub proof fn versions_are_read_number_by_number(a: nat, b: nat, c: nat)
    requires
        a <= u32::MAX,
        b <= u32::MAX,
        c <= u32::MAX,
    ensures
        ({
            let s = strs::decimal(a) + "."@ + (strs::decimal(b) + "."@ + strs::decimal(c));
            &&& update::version(s) == (a, b, c)
            &&& update::version("v"@ + s) == (a, b, c)
        }),
{
    reveal_strlit(".");
    reveal_strlit("v");
    let x = strs::decimal(a);
    let y = strs::decimal(b);
    let z = strs::decimal(c);
    let rest = y + "."@ + z;
    let s = x + "."@ + rest;
    texts::decimal_digits_stand_for_their_number(a);
    texts::decimal_digits_stand_for_their_number(b);
    texts::decimal_digits_stand_for_their_number(c);
    texts::decimal_numbers_are_read_back(a, u32::MAX as nat);
    texts::decimal_numbers_are_read_back(b, u32::MAX as nat);
    texts::decimal_numbers_are_read_back(c, u32::MAX as nat);
    lemma_no_dot(x);
    lemma_no_dot(y);
    lemma_no_dot(z);
    texts::pieces_end_at_the_mark(z, "."@, Seq::empty());
    texts::pieces_end_at_the_mark(y, "."@, z);
    texts::pieces_end_at_the_mark(x, "."@, rest);
    assert(strs::is_ascii_digit(x[0]) && strs::is_ascii_digit(z[z.len() - 1]));
    assert(s[0] == x[0]);
    assert(s.last() == z.last());
    lemma_bare(s);
    let parts = strs::split(s, "."@);
    assert(parts =~= seq![x, y, z]);
    assert(parts[0] == x && parts[1] == y && parts[2] == z);
}

proof fn lemma_no_dot(s: Seq<char>)
    requires
        strs::all_digits(s),
    ensures
        text::apart(s, "."@),
{
    reveal_strlit(".");
    assert forall|i: int, j: int| 0 <= i < s.len() && 0 <= j < "."@.len() implies #[trigger] s[i]
        != #[trigger] "."@[j] by {
        assert(strs::is_ascii_digit(s[i]));
    }
}

proof fn lemma_bare(s: Seq<char>)
    requires
        s.len() > 0,
        strs::is_ascii_digit(s[0]),
        !strs::is_space(s.last()),
    ensures
        update::bare_version(s) == s,
        update::bare_version("v"@ + s) == s,
{
    reveal_strlit("v");
    let p = |c: char| "v"@.contains(c);
    text::lemma_trim_keeps(s);
    assert forall|c: char| #[trigger] "v"@.contains(c) implies c == 'v' by {}
    assert(!p(s[0]));
    let t = "v"@ + s;
    assert(t[0] == 'v' && t.last() == s.last());
    text::lemma_trim_keeps(t);
    assert("v"@[0] == 'v');
    assert(p(t[0]));
    assert(t.skip(1) =~= s);
    assert(strs::trim_start_where(t, p) == strs::trim_start_where(s, p));
}

/// A version is older than another where the first number that is not the same is smaller.
pub proof fn the_first_number_that_differs_decides(a: nat, b: nat, c: nat, x: nat, y: nat, z: nat)
    ensures
        a != x ==> (update::older((a, b, c), (x, y, z)) <==> a < x),
        b != y ==> (update::older((a, b, c), (a, y, z)) <==> b < y),
        update::older((a, b, c), (a, b, z)) <==> c < z,
{
}

/// A quote in a path is doubled and nothing else is changed.
pub proof fn quotes_are_doubled(x: Seq<char>, rest: Seq<char>)
    requires
        forall|i: int| 0 <= i < x.len() ==> #[trigger] x[i] != '\'',
    ensures
        update::quoted(x) == x,
        update::quoted(x + "'"@ + rest) == x + "''"@ + update::quoted(rest),
{
    reveal_strlit("'");
    assert(text::apart(x, "'"@));
    texts::a_mark_is_replaced_where_it_stands(x, "'"@, rest, "''"@);
}

/// A state counts by what is in it: every record ten thousand, every case five thousand, every
/// package two thousand, every pupil and every group five hundred, and every byte one. What cannot
/// be read counts nothing, and neither does a list that is none.
pub proof fn a_state_counts_by_what_is_in_it(
    t: Tree,
    bytes: nat,
    records: Seq<Tree>,
    cases: Seq<(Seq<char>, Tree)>,
    packages: Seq<Tree>,
    pupils: Seq<Tree>,
    groups: Seq<Tree>,
    s: Seq<char>,
)
    requires
        t.get("records"@) == Some(Tree::List(records)),
        t.get("cases"@) == Some(Tree::Object(cases)),
        t.get("strategyThreadPackages"@) == Some(Tree::List(packages)),
        t.get("classRoster"@) == Some(Tree::List(pupils)),
        t.get("relationshipGroups"@) == Some(Tree::List(groups)),
    ensures
        state::document_score(t, bytes) == 10_000 * records.len() + 5_000 * cases.len() + 2_000
            * packages.len() + 500 * pupils.len() + 500 * groups.len() + bytes,
        json::parsed(s) is Err ==> state::payload_score(s) == 0,
        json::parsed(s) == Ok::<Tree, Seq<char>>(t) ==> state::payload_score(s)
            == state::document_score(t, strs::byte_len(s)),
{
}

/// A state without lists counts its bytes alone.
pub proof fn an_empty_state_counts_its_bytes(t: Tree, bytes: nat)
    requires
        t.get("records"@) is None,
        t.get("cases"@) is None,
        t.get("strategyThreadPackages"@) is None,
        t.get("classRoster"@) is None,
        t.get("relationshipGroups"@) is None,
    ensures
        state::document_score(t, bytes) == bytes,
{
}

/// The candidate that is chosen is of the highest priority; among those it counts most; and among
/// those that count the same it is the last.
pub proof fn the_best_candidate_is_of_the_highest_priority(list: Seq<Candidate>, i: int, j: int)
    requires
        state::is_best(list, i),
        0 <= j < list.len(),
    ensures
        list[j].priority <= list[i].priority,
        list[j].priority == list[i].priority ==> list[j].score <= list[i].score,
        list[j].priority == list[i].priority && list[j].score == list[i].score ==> j <= i,
{
    assert(!state::counts_less(list[i], list[j]));
    if j > i {
        assert(state::counts_less(list[j], list[i]));
    }
}

/// A state is a candidate exactly where it counts something, and then it is kept whole, with its
/// score, its priority and where it came from.
pub proof fn what_counts_is_a_candidate(
    label: Seq<char>,
    path: Seq<char>,
    priority: nat,
    payload: Option<Seq<char>>,
)
    ensures
        state::candidate(label, path, priority, payload) is Some <==> payload is Some
            && state::payload_score(payload->0) > 0,
        state::candidate(label, path, priority, payload) matches Some(c) ==> {
            &&& c.payload == payload->0
            &&& c.score == state::payload_score(payload->0)
            &&& c.priority == priority
            &&& c.source == label + ":"@ + path
        },
{
}

/// A candidate gives way to what stands there where that is the same, or where it counts something
/// and the candidate is not of the highest priority; never where nothing stands there.
pub proof fn only_the_highest_priority_replaces_a_state(c: Candidate, present: Seq<char>)
    ensures
        !state::gives_way(c, None),
        present == c.payload ==> state::gives_way(c, Some(present)),
        present != c.payload && c.priority >= 3 ==> !state::gives_way(c, Some(present)),
        present != c.payload && c.priority < 3 ==> (state::gives_way(c, Some(present))
            <==> state::payload_score(present) > 0),
{
}

/// The extension of a name is what follows its last dot, where something stands before that.
pub proof fn an_extension_follows_the_last_dot(stem: Seq<char>, ext: Seq<char>)
    requires
        stem.len() > 0,
        forall|i: int| 0 <= i < ext.len() ==> #[trigger] ext[i] != '.',
    ensures
        state::extension(stem + "."@ + ext) == Some(ext),
        state::extension(ext) is None,
        state::extension("."@ + ext) is None,
{
    reveal_strlit(".");
    let name = stem + "."@ + ext;
    let n = stem.len() as int;
    assert(name.subrange(n, n + 1) =~= "."@);
    lemma_last_dot(name, n, name.len() - 1);
    assert(name.skip(n + 1) =~= ext);
    lemma_no_last_dot(ext, ext.len() - 1);
    let hidden = "."@ + ext;
    assert(hidden.subrange(0, 1) =~= "."@);
    lemma_last_dot(hidden, 0, hidden.len() - 1);
}

proof fn lemma_last_dot(s: Seq<char>, n: int, i: int)
    requires
        0 <= n <= i < s.len(),
        s[n] == '.',
        forall|j: int| n < j < s.len() ==> #[trigger] s[j] != '.',
    ensures
        strs::rfind_to(s, "."@, i) == Some(n),
    decreases i,
{
    reveal_strlit(".");
    if i == n {
        assert(s.subrange(n, n + 1) =~= "."@);
    } else {
        if strs::occurs_at(s, "."@, i) {
            assert(s.subrange(i, i + 1)[0] == '.');
        }
        lemma_last_dot(s, n, i - 1);
    }
}

proof fn lemma_no_last_dot(s: Seq<char>, i: int)
    requires
        i < s.len(),
        forall|j: int| 0 <= j < s.len() ==> #[trigger] s[j] != '.',
    ensures
        strs::rfind_to(s, "."@, i) is None,
    decreases i + 1,
{
    reveal_strlit(".");
    if i >= 0 {
        if strs::occurs_at(s, "."@, i) {
            assert(s.subrange(i, i + 1)[0] == '.');
        }
        lemma_no_last_dot(s, i - 1);
    }
}

/// A file may hold the state where it ends as documents, databases and their logs do, whatever its
/// letters, and where it goes by one of the names of the browser's storage.
pub proof fn files_of_these_kinds_may_hold_the_state(name: Seq<char>, ext: Seq<char>)
    requires
        state::extension(name) == Some(ext),
    ensures
        ({
            let e = strs::ascii_lower(ext);
            e == "json"@ || e == "sqlite"@ || e == "sqlite3"@ || e == "ldb"@ || e == "log"@ || e
                == "wal"@ || e == "shm"@ ==> state::may_hold_state(name)
        }),
        strs::ascii_lower(name) == "current"@ ==> state::may_hold_state(name),
        strs::starts_with(name, "MANIFEST-"@) ==> state::may_hold_state(name),
{
    let list = seq!["json"@, "sqlite"@, "sqlite3"@, "ldb"@, "log"@, "wal"@, "shm"@];
    assert(list[0] == "json"@ && list[1] == "sqlite"@ && list[2] == "sqlite3"@ && list[3]
        == "ldb"@ && list[4] == "log"@ && list[5] == "wal"@ && list[6] == "shm"@);
}

/// Every file that was named is looked at, and every file that was found and may hold the state;
/// no other is.
pub proof fn files_are_looked_at_where_they_may_hold_the_state(
    files: Seq<Seq<char>>,
    walked: Seq<(Seq<char>, Seq<char>)>,
    x: Seq<char>,
)
    ensures
        state::with_scanned(files, walked).contains(x) <==> files.contains(x) || exists|i: int|
            0 <= i < walked.len() && (#[trigger] walked[i]).0 == x && state::may_hold_state(
                walked[i].1,
            ),
    decreases walked.len(),
{
    if walked.len() > 0 {
        let t = walked.drop_last();
        files_are_looked_at_where_they_may_hold_the_state(files, t, x);
        let rest = state::with_scanned(files, t);
        let all = state::with_scanned(files, walked);
        let last = walked[walked.len() - 1];
        if all.contains(x) {
            let k = choose|k: int| 0 <= k < all.len() && all[k] == x;
            if k < rest.len() {
                assert(rest[k] == x);
                if !files.contains(x) {
                    let i = choose|i: int|
                        0 <= i < t.len() && (#[trigger] t[i]).0 == x && state::may_hold_state(
                            t[i].1,
                        );
                    assert(walked[i].0 == x);
                }
            } else {
                assert(last.0 == x);
            }
        }
        if rest.contains(x) {
            let k = choose|k: int| 0 <= k < rest.len() && rest[k] == x;
            assert(all[k] == x);
        }
        if exists|i: int|
            0 <= i < walked.len() && (#[trigger] walked[i]).0 == x && state::may_hold_state(
                walked[i].1,
            ) {
            let i = choose|i: int|
                0 <= i < walked.len() && (#[trigger] walked[i]).0 == x && state::may_hold_state(
                    walked[i].1,
                );
            if i < t.len() {
                assert(t[i].0 == x);
            } else if !rest.contains(x) {
                assert(all[rest.len() as int] == x);
            }
        }
    }
}

/// A folder is searched under this path.
pub open spec fn is_searched(roots: Seq<Root>, path: Seq<Seq<char>>) -> bool {
    exists|i: int| 0 <= i < roots.len() && (#[trigger] roots[i]).path == path
}

proof fn lemma_all_searched(list: Seq<Root>, k: int)
    requires
        0 <= k < list.len(),
    ensures
        is_searched(state::distinct_roots(list), list[k].path),
    decreases list.len(),
{
    let t = list.drop_last();
    let rest = state::distinct_roots(t);
    let all = state::distinct_roots(list);
    if k < t.len() {
        lemma_all_searched(t, k);
        assert(t[k] == list[k]);
        let i = choose|i: int| 0 <= i < rest.len() && (#[trigger] rest[i]).path == list[k].path;
        assert(all[i].path == list[k].path);
    } else if state::has_path(rest, list.last().path) {
        let i = choose|i: int| 0 <= i < rest.len() && (#[trigger] rest[i]).path == list[k].path;
        assert(all[i].path == list[k].path);
    } else {
        assert(all[rest.len() as int].path == list[k].path);
    }
}

/// On Windows the folder of the program is searched with the highest priority, and then those of
/// its other names, in the folder of the applications, in the one that is shared, in the local one
/// and among the documents.
pub proof fn windows_folders_are_all_searched(folders: WindowsFolders)
    ensures
        ({
            let roots = state::distinct_roots(state::windows_roots(folders));
            let app = match folders.appdata {
                Some(s) => s@,
                None => "C:\\Users\\Default\\AppData\\Roaming"@,
            };
            let public = match folders.public {
                Some(s) => s@,
                None => "C:\\Users\\Public"@,
            };
            &&& roots.len() > 0 && roots[0].path == seq![app, "co.roosycozy.desktop"@]
                && roots[0].priority == 30
            &&& is_searched(roots, seq![app, "roosycozy"@])
            &&& is_searched(roots, seq![app, "co.roosycozy.app"@])
            &&& is_searched(
                roots,
                seq![public, "Documents"@, "RoosyCozy"@, "co.roosycozy.desktop"@],
            )
            &&& is_searched(roots, seq![public, "Documents"@, "RoosyCozy"@, "co.roosycozy.app"@])
            &&& folders.appdata matches Some(d) ==> is_searched(roots, seq![d@, "RoosyCozy"@])
            &&& folders.local_appdata matches Some(d) ==> {
                &&& is_searched(roots, seq![d@, "co.roosycozy.desktop"@])
                &&& is_searched(roots, seq![d@, "roosycozy"@])
                &&& is_searched(roots, seq![d@, "RoosyCozy"@])
                &&& is_searched(roots, seq![d@, "co.roosycozy.app"@])
            }
            &&& folders.user_profile matches Some(d) ==> is_searched(
                roots,
                seq![d@, "Documents"@, "RoosyCozy"@],
            )
        }),
{
    let list = state::windows_roots(folders);
    let app = match folders.appdata {
        Some(s) => s@,
        None => "C:\\Users\\Default\\AppData\\Roaming"@,
    };
    let public = match folders.public {
        Some(s) => s@,
        None => "C:\\Users\\Public"@,
    };
    lemma_all_searched(list, 1);
    lemma_all_searched(list, 2);
    lemma_all_searched(list, 3);
    lemma_all_searched(list, 4);
    assert(list[0].path == seq![app, "co.roosycozy.desktop"@] && list[0].priority == 30);
    lemma_first_root(list);
    let a = if folders.appdata is Some {
        9int
    } else {
        5
    };
    if folders.appdata is Some {
        lemma_all_searched(list, 7);
        assert(list[7].path == seq![folders.appdata->0@, "RoosyCozy"@]);
    }
    let b = if folders.local_appdata is Some {
        a + 4
    } else {
        a
    };
    if folders.local_appdata is Some {
        let d = folders.local_appdata->0@;
        lemma_all_searched(list, a);
        lemma_all_searched(list, a + 1);
        lemma_all_searched(list, a + 2);
        lemma_all_searched(list, a + 3);
        assert(list[a].path == seq![d, "co.roosycozy.desktop"@]);
        assert(list[a + 1].path == seq![d, "roosycozy"@]);
        assert(list[a + 2].path == seq![d, "RoosyCozy"@]);
        assert(list[a + 3].path == seq![d, "co.roosycozy.app"@]);
    }
    if folders.user_profile is Some {
        lemma_all_searched(list, b);
        assert(list[b].path == seq![folders.user_profile->0@, "Documents"@, "RoosyCozy"@]);
    }
}

proof fn lemma_first_root(list: Seq<Root>)
    requires
        list.len() > 0,
    ensures
        state::distinct_roots(list).len() > 0,
        state::distinct_roots(list)[0] == list[0],
    decreases list.len(),
{
    let t = list.drop_last();
    if t.len() > 0 {
        lemma_first_root(t);
    } else {
        assert(state::distinct_roots(t) =~= Seq::empty());
        assert(state::distinct_roots(list)[0] == list[0]);
    }
}

/// On macOS the folder of the program that is being worked on goes first, then the present one,
/// then the former one.
pub proof fn macos_folders_are_searched_in_turn(home: Seq<char>)
    ensures
        ({
            let roots = state::macos_roots(home);
            &&& roots.len() == 3
            &&& roots[0].path == seq![home, "Library"@, "WebKit"@, "roosycozy"@]
            &&& roots[1].path == seq![home, "Library"@, "WebKit"@, "co.roosycozy.desktop"@]
            &&& roots[2].path == seq![home, "Library"@, "WebKit"@, "co.roosycozy.app"@]
            &&& roots[0].priority == 3 && roots[1].priority == 2 && roots[2].priority == 1
        }),
{
}

} // verus!
