//! The saved state of the program: where it may stand, how it is found in what others stored, and
//! which of several is taken.

use crate::engine::models;
use crate::engine::structured;
use crate::engine::structured::find_object;
use crate::json;
use crate::json::{Json, Tree};
use crate::platform::encoding;
use crate::platform::encoding::{
    decode_hex_string, decode_storage_text_bytes, text_with_losses,
};
use crate::strs;
use crate::text;
use vstd::prelude::*;
use vstd::utf8::*;

verus! {

/// The key under which the state is stored.
pub const STATE_KEY: &'static str = "roosycozy_state_v1";

/// The file that holds the state.
pub const SHARED_STATE_FILENAME: &'static str = "shared-state-v1.json";

/// The file in which a web view keeps what was stored.
pub const LOCAL_STORAGE_FILENAME: &'static str = "localstorage.sqlite3";

/// The program on Windows and on macOS.
pub const CURRENT_APP_ID: &'static str = "co.roosycozy.desktop";

/// The program under the name it had before.
pub const LEGACY_APP_ID: &'static str = "co.roosycozy.app";

/// The number of items of a member that is a list.
pub open spec fn listed_items(t: Tree, key: Seq<char>) -> nat {
    match t.get(key) {
        Some(Tree::List(items)) => items.len(),
        _ => 0,
    }
}

/// The number of members of a member that is an object.
pub open spec fn named_items(t: Tree, key: Seq<char>) -> nat {
    match t.get(key) {
        Some(Tree::Object(items)) => items.len(),
        _ => 0,
    }
}

/// How much a state holds: its records weigh most, then its cases, threads, class and groups, and
/// then each of its bytes.
pub open spec fn document_score(t: Tree, bytes: nat) -> nat {
    listed_items(t, "records"@) * 10_000 + named_items(t, "cases"@) * 5_000 + listed_items(
        t,
        "strategyThreadPackages"@,
    ) * 2_000 + listed_items(t, "classRoster"@) * 500 + listed_items(t, "relationshipGroups"@) * 500
        + bytes
}

/// How much a text holds as a state: nothing where it is no JSON.
pub open spec fn payload_score(s: Seq<char>) -> nat {
    match json::parsed(s) {
        Ok(t) => document_score(t, strs::byte_len(s)),
        Err(_) => 0,
    }
}

fn count_items(document: &Json, key: &str) -> (r: usize)
    ensures
        r == listed_items(document.tree(), key@),
{
    match document.get(key) {
        Some(Json::List(items)) => items.len(),
        _ => 0,
    }
}

fn count_members(document: &Json, key: &str) -> (r: usize)
    ensures
        r == named_items(document.tree(), key@),
{
    match document.get(key) {
        Some(Json::Object(items)) => items.len(),
        _ => 0,
    }
}

/// How much a state of so many bytes holds.
pub fn score_document(document: &Json, bytes: usize) -> (r: u128)
    ensures
        r == document_score(document.tree(), bytes as nat),
{
    let records: usize = count_items(document, "records");
    let threads: usize = count_items(document, "strategyThreadPackages");
    let roster: usize = count_items(document, "classRoster");
    let groups: usize = count_items(document, "relationshipGroups");
    let cases: usize = count_members(document, "cases");
    records as u128 * 10_000 + cases as u128 * 5_000 + threads as u128 * 2_000 + roster as u128
        * 500 + groups as u128 * 500 + bytes as u128
}

/// How much a text holds as a state: nothing where it is no JSON.
pub fn score_state_payload(value: &str) -> (r: u128)
    ensures
        r == payload_score(value@),
{
    match json::parse(value) {
        Ok(document) => score_document(&document, text::byte_len(value)),
        Err(_) => 0,
    }
}

/// The first state in a text from a position on: the object that follows the key.
pub open spec fn keyed_payload(s: Seq<char>, offset: int) -> Option<Seq<char>>
    decreases s.len() - offset,
{
    proof {
        reveal_strlit("roosycozy_state_v1");
        if offset >= 0 {
            text::lemma_find_from(s, STATE_KEY@, offset);
        }
    }
    match strs::find_from(s, STATE_KEY@, offset) {
        None => None,
        Some(k) => {
            let after = k + STATE_KEY@.len();
            match strs::find_char(s.skip(after), '{') {
                None => None,
                Some(d) => match structured::object_from(s, after + d, structured::no_scan()) {
                    Some((a, b)) => if payload_score(s.subrange(a, b)) > 0 {
                        Some(s.subrange(a, b))
                    } else {
                        keyed_payload(s, after)
                    },
                    None => keyed_payload(s, after),
                },
            }
        },
    }
}

/// The state in a text: the whole of it, or the first object that follows the key.
pub open spec fn text_payload(s: Seq<char>) -> Option<Seq<char>> {
    let whole = strs::trim(encoding::unmarked(s));
    if payload_score(whole) > 0 {
        Some(whole)
    } else {
        keyed_payload(s, 0)
    }
}

/// The state in a text: the whole of it, or the first object that follows the key.
pub fn extract_state_payload_from_text(value: &str) -> (r: Option<String>)
    ensures
        strs::opt_view(r) == text_payload(value@),
{
    let unmarked = text::trim_set(value, "\u{feff}");
    let whole = text::trim(&unmarked);
    if score_state_payload(&whole) > 0 {
        return Some(whole);
    }
    let v = text::chars_of(value);
    let key = text::chars_of(STATE_KEY);
    let mut offset: usize = 0;
    proof {
        reveal_strlit("roosycozy_state_v1");
    }
    loop
        invariant
            v@ == value@,
            key@ == STATE_KEY@,
            key@.len() > 0,
            offset <= v@.len(),
            keyed_payload(value@, 0) == keyed_payload(value@, offset as int),
            text_payload(value@) == keyed_payload(value@, 0),
        decreases v@.len() - offset,
    {
        match text::find_in(&v, &key, offset) {
            None => {
                return None;
            },
            Some(k) => {
                proof {
                    text::lemma_find_from(v@, key@, offset as int);
                }
                let after: usize = k + key.len();
                match text::find_char_in(&v, '{', after) {
                    None => {
                        return None;
                    },
                    Some(start) => {
                        match find_object(&v, start) {
                            Some((a, b)) => {
                                let candidate = text::string_of(&v, a, b);
                                if score_state_payload(&candidate) > 0 {
                                    return Some(candidate);
                                }
                            },
                            None => {},
                        }
                    },
                }
                offset = after;
            },
        }
    }
}

/// A state that is found in stored bytes holds something.
pub proof fn a_found_state_holds_something(bytes: Seq<u8>)
    ensures
        bytes_payload(bytes) matches Some(p) ==> payload_score(p) > 0,
{
    if let Some(s) = encoding::stored_text(bytes) {
        lemma_keyed_payload(s, 0);
    }
    lemma_keyed_payload(encoding::lossy_text(bytes), 0);
}

proof fn lemma_keyed_payload(s: Seq<char>, offset: int)
    ensures
        keyed_payload(s, offset) matches Some(p) ==> payload_score(p) > 0,
    decreases s.len() - offset,
{
    reveal_strlit("roosycozy_state_v1");
    if offset >= 0 {
        text::lemma_find_from(s, STATE_KEY@, offset);
        if let Some(k) = strs::find_from(s, STATE_KEY@, offset) {
            lemma_keyed_payload(s, k + STATE_KEY@.len());
        }
    }
}

/// The state in stored bytes: in the text they hold or, where it has none, in what can be read
/// of them.
pub open spec fn bytes_payload(bytes: Seq<u8>) -> Option<Seq<char>> {
    let stored = match encoding::stored_text(bytes) {
        Some(s) => text_payload(s),
        None => None,
    };
    if stored is Some {
        stored
    } else {
        text_payload(encoding::lossy_text(bytes))
    }
}

/// The state in stored bytes: in the text they hold or, where it has none, in what can be read
/// of them.
pub fn extract_state_payload_from_bytes(bytes: &[u8]) -> (r: Option<String>)
    ensures
        strs::opt_view(r) == bytes_payload(bytes@),
{
    if let Some(decoded) = decode_storage_text_bytes(bytes) {
        let payload = extract_state_payload_from_text(&decoded);
        if payload.is_some() {
            return payload;
        }
    }
    let lossy = text_with_losses(bytes);
    extract_state_payload_from_text(&lossy)
}

/// The state in what the database program printed: its value as hexadecimal digits.
pub open spec fn printed_payload(success: bool, printed: Seq<u8>) -> Option<Seq<char>> {
    if !success {
        None
    } else {
        match encoding::hex_read(encoding::lossy_text(printed)) {
            Some(bytes) => encoding::stored_text(bytes),
            None => None,
        }
    }
}

/// The state in what the database program printed: its value as hexadecimal digits.
pub fn read_state_payload_from_sqlite(success: bool, printed: &[u8]) -> (r: Option<String>)
    ensures
        strs::opt_view(r) == printed_payload(success, printed@),
{
    if !success {
        return None;
    }
    let shown = text_with_losses(printed);
    match decode_hex_string(&shown) {
        Some(bytes) => decode_storage_text_bytes(bytes.as_slice()),
        None => None,
    }
}

/// What stands behind the last dot of a file name, unless the name begins there.
pub open spec fn extension(name: Seq<char>) -> Option<Seq<char>> {
    match strs::rfind(name, "."@) {
        Some(k) => if k > 0 {
            Some(name.skip(k + 1))
        } else {
            None
        },
        None => None,
    }
}

/// What stands behind the last dot of a file name, unless the name begins there.
pub fn extension_of(name: &str) -> (r: Option<String>)
    ensures
        strs::opt_view(r) == extension(name@),
{
    proof {
        reveal_strlit(".");
    }
    match text::rfind(name, ".") {
        Some(k) => if k > 0 {
            let v = text::chars_of(name);
            let size: usize = v.len();
            let rest = text::string_of(&v, k + 1, size);
            assert(rest@ =~= name@.skip(k + 1));
            Some(rest)
        } else {
            None
        },
        None => None,
    }
}

/// Whether a state may stand in a file of that name.
pub open spec fn may_hold_state(name: Seq<char>) -> bool {
    let lower = strs::ascii_lower(name);
    ||| lower == SHARED_STATE_FILENAME@
    ||| lower == LOCAL_STORAGE_FILENAME@
    ||| lower == "localstorage.sqlite3-wal"@
    ||| lower == "localstorage.sqlite3-shm"@
    ||| lower == "current"@
    ||| strs::starts_with(name, "MANIFEST-"@)
    ||| match extension(name) {
        Some(ext) => seq![
            "json"@,
            "sqlite"@,
            "sqlite3"@,
            "ldb"@,
            "log"@,
            "wal"@,
            "shm"@,
        ].contains(strs::ascii_lower(ext)),
        None => false,
    }
}

/// Whether a state may stand in a file of that name.
pub fn should_scan_windows_state_file(file_name: &str) -> (r: bool)
    ensures
        r == may_hold_state(file_name@),
{
    let lower = text::ascii_lower(file_name);
    if text::same(&lower, SHARED_STATE_FILENAME) || text::same(&lower, LOCAL_STORAGE_FILENAME)
        || text::same(&lower, "localstorage.sqlite3-wal") || text::same(
        &lower,
        "localstorage.sqlite3-shm",
    ) || text::same(&lower, "current") || text::starts_with(file_name, "MANIFEST-") {
        return true;
    }
    match extension_of(file_name) {
        Some(ext) => {
            let known = text::owned(&["json", "sqlite", "sqlite3", "ldb", "log", "wal", "shm"]);
            assert(strs::views(known@) =~= seq![
                "json"@,
                "sqlite"@,
                "sqlite3"@,
                "ldb"@,
                "log"@,
                "wal"@,
                "shm"@,
            ]);
            text::listed(&known, &text::ascii_lower(&ext))
        },
        None => false,
    }
}

/// The files to read: those that were found by name and, behind them, each other one that may
/// hold a state.
pub open spec fn with_scanned(
    files: Seq<Seq<char>>,
    walked: Seq<(Seq<char>, Seq<char>)>,
) -> Seq<Seq<char>>
    decreases walked.len(),
{
    if walked.len() == 0 {
        files
    } else {
        let rest = with_scanned(files, walked.drop_last());
        if may_hold_state(walked.last().1) {
            strs::with_new(rest, walked.last().0)
        } else {
            rest
        }
    }
}

/// The paths and names of files.
pub open spec fn walked_views(v: Seq<(String, String)>) -> Seq<(Seq<char>, Seq<char>)> {
    v.map_values(|p: (String, String)| (p.0@, p.1@))
}

/// The files to read: those that were found by name and, behind them, each other one that may
/// hold a state. What was walked over comes as a path and a name each.
pub fn state_files(named: Vec<String>, walked: &Vec<(String, String)>) -> (r: Vec<String>)
    ensures
        strs::views(r@) == with_scanned(strs::views(named@), walked_views(walked@)),
{
    let ghost start = strs::views(named@);
    let ghost all = walked_views(walked@);
    let mut out = named;
    let mut i: usize = 0;
    assert(all.take(0) =~= Seq::empty());
    while i < walked.len()
        invariant
            i <= walked@.len(),
            all == walked_views(walked@),
            strs::views(out@) == with_scanned(start, all.take(i as int)),
        decreases walked@.len() - i,
    {
        assert(all.take(i + 1).drop_last() =~= all.take(i as int));
        assert(all[i as int] == (walked@[i as int].0@, walked@[i as int].1@));
        if should_scan_windows_state_file(&walked[i].1) {
            text::push_new(&mut out, text::copy(&walked[i].0));
        }
        i += 1;
    }
    assert(all.take(i as int) =~= all);
    out
}

/// A state that was found, how much it holds, and how much its place counts.
#[derive(Debug)]
pub struct StateCandidate {
    pub score: u128,
    pub priority: usize,
    pub source: String,
    pub payload: String,
}

/// A state that was found, as the contracts see it.
#[verifier::ext_equal]
pub struct Candidate {
    pub score: nat,
    pub priority: nat,
    pub source: Seq<char>,
    pub payload: Seq<char>,
}

impl View for StateCandidate {
    type V = Candidate;

    open spec fn view(&self) -> Candidate {
        Candidate {
            score: self.score as nat,
            priority: self.priority as nat,
            source: self.source@,
            payload: self.payload@,
        }
    }
}

/// What was read in a file, as a candidate, where it holds a state.
pub open spec fn candidate(
    label: Seq<char>,
    path: Seq<char>,
    priority: nat,
    payload: Option<Seq<char>>,
) -> Option<Candidate> {
    match payload {
        Some(p) => if payload_score(p) > 0 {
            Some(
                Candidate {
                    score: payload_score(p),
                    priority,
                    source: label + ":"@ + path,
                    payload: p,
                },
            )
        } else {
            None
        },
        None => None,
    }
}

/// What was read in a file, as a candidate, where it holds a state.
pub fn state_candidate(label: &str, path: &str, priority: usize, payload: Option<String>) -> (r:
    Option<StateCandidate>)
    ensures
        match r {
            Some(c) => candidate(label@, path@, priority as nat, strs::opt_view(payload)) == Some(
                c@,
            ),
            None => candidate(label@, path@, priority as nat, strs::opt_view(payload)) is None,
        },
{
    match payload {
        Some(p) => {
            let score: u128 = score_state_payload(&p);
            if score == 0 {
                return None;
            }
            let mut source = text::copy(label);
            source.append(":");
            source.append(path);
            let found = StateCandidate { score, priority, source, payload: p };
            assert(found@ =~= candidate(label@, path@, priority as nat, Some(p@))->0);
            Some(found)
        },
        None => None,
    }
}

/// Whether one candidate counts less than another: by its place, then by what it holds.
pub open spec fn counts_less(a: Candidate, b: Candidate) -> bool {
    a.priority < b.priority || a.priority == b.priority && a.score < b.score
}

/// Whether a candidate is the one to take: none counts more, and none behind it as much.
pub open spec fn is_best(list: Seq<Candidate>, i: int) -> bool {
    &&& 0 <= i < list.len()
    &&& forall|j: int| 0 <= j < list.len() ==> !counts_less(list[i], #[trigger] list[j])
    &&& forall|j: int| i < j < list.len() ==> counts_less(#[trigger] list[j], list[i])
}

/// There is one candidate to take at most.
pub proof fn the_best_candidate_is_one(list: Seq<Candidate>, i: int, j: int)
    requires
        is_best(list, i),
        is_best(list, j),
    ensures
        i == j,
{
    if i < j {
        assert(counts_less(list[j], list[i]));
    } else if j < i {
        assert(counts_less(list[i], list[j]));
    }
}

/// The candidate to take, where there is one.
pub fn best_candidate(list: &Vec<StateCandidate>) -> (r: Option<usize>)
    ensures
        match r {
            Some(i) => is_best(strs::deep(list@), i as int),
            None => list@.len() == 0,
        },
{
    let ghost all = strs::deep(list@);
    if list.len() == 0 {
        return None;
    }
    let mut best: usize = 0;
    let mut i: usize = 1;
    assert(all[0] == list@[0]@);
    while i < list.len()
        invariant
            all == strs::deep(list@),
            1 <= i <= list@.len(),
            best < i,
            forall|j: int| 0 <= j < i ==> !counts_less(all[best as int], #[trigger] all[j]),
            forall|j: int| best < j < i ==> counts_less(#[trigger] all[j], all[best as int]),
        decreases list@.len() - i,
    {
        assert(all[i as int] == list@[i as int]@);
        assert(all[best as int] == list@[best as int]@);
        let less = list[i].priority < list[best].priority || (list[i].priority
            == list[best].priority && list[i].score < list[best].score);
        if !less {
            best = i;
        }
        i += 1;
    }
    Some(best)
}

/// The state that stands in the file already, where it holds one.
pub open spec fn present_state(file: Option<Seq<u8>>) -> Option<Seq<char>> {
    match file {
        Some(bytes) => match encoding::stored_text(bytes) {
            Some(s) => if payload_score(strs::trim(s)) > 0 {
                Some(strs::trim(s))
            } else {
                None
            },
            None => None,
        },
        None => None,
    }
}

/// The bytes of a file that may be missing.
pub open spec fn file_bytes(file: Option<Vec<u8>>) -> Option<Seq<u8>> {
    match file {
        Some(bytes) => Some(bytes@),
        None => None,
    }
}

/// The candidate to write into the file on Windows, where there is one and the file does not hold
/// it already. The file comes as it was read.
pub fn windows_bootstrap(file: &Option<Vec<u8>>, list: &Vec<StateCandidate>) -> (r: Option<usize>)
    ensures
        match r {
            Some(i) => is_best(strs::deep(list@), i as int) && present_state(file_bytes(*file))
                != Some(list@[i as int].payload@),
            None => list@.len() == 0 || exists|i: int|
                #![trigger list@[i]]
                is_best(strs::deep(list@), i) && present_state(file_bytes(*file)) == Some(
                    list@[i].payload@,
                ),
        },
{
    match best_candidate(list) {
        Some(i) => {
            if let Some(bytes) = file {
                if let Some(decoded) = decode_storage_text_bytes(bytes.as_slice()) {
                    let existing = text::trim(&decoded);
                    if score_state_payload(&existing) > 0 && text::same(
                        &existing,
                        &list[i].payload,
                    ) {
                        assert(present_state(file_bytes(*file)) == Some(list@[i as int].payload@));
                        return None;
                    }
                }
            }
            Some(i)
        },
        None => None,
    }
}

/// The state that stands in the file already, as far as the file is a text.
pub open spec fn present_text(file: Option<Seq<char>>) -> Option<Seq<char>> {
    match file {
        Some(s) => match encoding::stored_text(encode_utf8(s)) {
            Some(t) => Some(t),
            None => Some(s),
        },
        None => None,
    }
}

/// Whether a candidate gives way to what stands in the file: where that is the same, or where it
/// holds a state and the candidate does not come from the program as it is developed.
pub open spec fn gives_way(c: Candidate, present: Option<Seq<char>>) -> bool {
    match present {
        Some(s) => s == c.payload || c.priority < 3 && payload_score(s) > 0,
        None => false,
    }
}

/// The candidate to write into the file on macOS, where there is one that does not give way to
/// what stands there. The file comes as far as it is a text.
pub fn macos_bootstrap(file: &Option<String>, list: &Vec<StateCandidate>) -> (r: Option<usize>)
    ensures
        match r {
            Some(i) => is_best(strs::deep(list@), i as int) && !gives_way(
                list@[i as int]@,
                present_text(strs::opt_view(*file)),
            ),
            None => list@.len() == 0 || exists|i: int|
                #![trigger list@[i]]
                is_best(strs::deep(list@), i) && gives_way(
                    list@[i]@,
                    present_text(strs::opt_view(*file)),
                ),
        },
{
    match best_candidate(list) {
        Some(i) => {
            if let Some(s) = file {
                let existing = match decode_storage_text_bytes(s.as_str().as_bytes()) {
                    Some(t) => t,
                    None => text::copy(s),
                };
                assert(present_text(strs::opt_view(*file)) == Some(existing@));
                if text::same(&existing, &list[i].payload) || (list[i].priority < 3
                    && score_state_payload(&existing) > 0) {
                    assert(gives_way(
                        list@[i as int]@,
                        present_text(strs::opt_view(*file)),
                    ));
                    return None;
                }
            }
            Some(i)
        },
        None => None,
    }
}

/// A folder in which a state may stand, and how much it counts.
#[derive(Debug)]
pub struct StateRoot {
    pub priority: usize,
    pub label: String,
    pub path: Vec<String>,
}

/// A folder in which a state may stand, as the contracts see it.
#[verifier::ext_equal]
pub struct Root {
    pub priority: nat,
    pub label: Seq<char>,
    pub path: Seq<Seq<char>>,
}

impl View for StateRoot {
    type V = Root;

    open spec fn view(&self) -> Root {
        Root {
            priority: self.priority as nat,
            label: self.label@,
            path: strs::views(self.path@),
        }
    }
}

/// The folders of a machine and a user, where they are named.
#[derive(Debug)]
pub struct WindowsFolders {
    pub appdata: Option<String>,
    pub local_appdata: Option<String>,
    pub public: Option<String>,
    pub user_profile: Option<String>,
}

/// The folder that is named, or the usual one.
pub open spec fn folder_or(named: Option<Seq<char>>, usual: Seq<char>) -> Seq<char> {
    match named {
        Some(s) => s,
        None => usual,
    }
}

/// The folder of a program among the data of a user.
pub open spec fn appdata_place(appdata: Option<Seq<char>>, app_id: Seq<char>) -> Seq<Seq<char>> {
    seq![folder_or(appdata, "C:\\Users\\Default\\AppData\\Roaming"@), app_id]
}

/// The folder of a program that the users of a machine share.
pub open spec fn shared_place(public: Option<Seq<char>>, app_id: Seq<char>) -> Seq<Seq<char>> {
    seq![folder_or(public, "C:\\Users\\Public"@), "Documents"@, "RoosyCozy"@, app_id]
}

fn folder_or_usual(named: &Option<String>, usual: &str) -> (r: String)
    ensures
        r@ == folder_or(strs::opt_view(*named), usual@),
{
    match named {
        Some(s) => text::copy(s),
        None => text::copy(usual),
    }
}

/// The folder of a program among the data of a user.
pub fn windows_appdata_root(appdata: &Option<String>, app_id: &str) -> (r: Vec<String>)
    ensures
        strs::views(r@) == appdata_place(strs::opt_view(*appdata), app_id@),
{
    let dir = folder_or_usual(appdata, "C:\\Users\\Default\\AppData\\Roaming");
    let r = text::owned(&[dir.as_str(), app_id]);
    assert(strs::views(r@) =~= appdata_place(strs::opt_view(*appdata), app_id@));
    r
}

/// The folder of a program that the users of a machine share.
pub fn windows_shared_root(public: &Option<String>, app_id: &str) -> (r: Vec<String>)
    ensures
        strs::views(r@) == shared_place(strs::opt_view(*public), app_id@),
{
    let dir = folder_or_usual(public, "C:\\Users\\Public");
    let r = text::owned(&[dir.as_str(), "Documents", "RoosyCozy", app_id]);
    assert(strs::views(r@) =~= shared_place(strs::opt_view(*public), app_id@));
    r
}

/// The file that holds the state on Windows.
pub fn windows_state_path(appdata: &Option<String>) -> (r: Vec<String>)
    ensures
        strs::views(r@) == appdata_place(strs::opt_view(*appdata), CURRENT_APP_ID@).push(
            SHARED_STATE_FILENAME@,
        ),
{
    let mut r = windows_appdata_root(appdata, CURRENT_APP_ID);
    text::push(&mut r, text::copy(SHARED_STATE_FILENAME));
    r
}

/// The file that holds the state on macOS.
pub fn macos_state_path(home: &str) -> (r: Vec<String>)
    ensures
        strs::views(r@) == seq![
            home@,
            "Library"@,
            "Application Support"@,
            "RoosyCozy"@,
            SHARED_STATE_FILENAME@,
        ],
{
    let r = text::owned(
        &[home, "Library", "Application Support", "RoosyCozy", SHARED_STATE_FILENAME],
    );
    assert(strs::views(r@) =~= seq![
        home@,
        "Library"@,
        "Application Support"@,
        "RoosyCozy"@,
        SHARED_STATE_FILENAME@,
    ]);
    r
}

/// The folder of a program among those of the web views on macOS.
pub open spec fn webkit_place(home: Seq<char>, app_id: Seq<char>) -> Seq<Seq<char>> {
    seq![home, "Library"@, "WebKit"@, app_id]
}

/// The folder of a program among those of the web views on macOS.
pub fn macos_webkit_dir(home: &str, app_id: &str) -> (r: Vec<String>)
    ensures
        strs::views(r@) == webkit_place(home@, app_id@),
{
    let r = text::owned(&[home, "Library", "WebKit", app_id]);
    assert(strs::views(r@) =~= webkit_place(home@, app_id@));
    r
}

/// The folder of a program among those for its files on macOS.
pub fn macos_app_support_dir(home: &str, app_id: &str) -> (r: Vec<String>)
    ensures
        strs::views(r@) == seq![home@, "Library"@, "Application Support"@, app_id@],
{
    let r = text::owned(&[home, "Library", "Application Support", app_id]);
    assert(strs::views(r@) =~= seq![home@, "Library"@, "Application Support"@, app_id@]);
    r
}

/// The folders in which a state may stand on macOS, the most current first.
pub open spec fn macos_roots(home: Seq<char>) -> Seq<Root> {
    seq![
        Root { priority: 3, label: "dev"@, path: webkit_place(home, "roosycozy"@) },
        Root { priority: 2, label: "current"@, path: webkit_place(home, CURRENT_APP_ID@) },
        Root { priority: 1, label: "legacy"@, path: webkit_place(home, LEGACY_APP_ID@) },
    ]
}

/// The folders in which a state may stand on macOS, the most current first.
pub fn macos_state_candidate_roots(home: &str) -> (r: Vec<StateRoot>)
    ensures
        strs::deep(r@) == macos_roots(home@),
{
    let mut r: Vec<StateRoot> = Vec::new();
    r.push(
        StateRoot {
            priority: 3,
            label: text::copy("dev"),
            path: macos_webkit_dir(home, "roosycozy"),
        },
    );
    r.push(
        StateRoot {
            priority: 2,
            label: text::copy("current"),
            path: macos_webkit_dir(home, CURRENT_APP_ID),
        },
    );
    r.push(
        StateRoot {
            priority: 1,
            label: text::copy("legacy"),
            path: macos_webkit_dir(home, LEGACY_APP_ID),
        },
    );
    let ghost all = macos_roots(home@);
    assert(r@[0]@ =~= all[0]);
    assert(r@[1]@ =~= all[1]);
    assert(r@[2]@ =~= all[2]);
    assert(strs::deep(r@) =~= all);
    r
}

/// The folders of the program and of its other names below one of a user's.
pub open spec fn named_roots(variable: Seq<char>, base: Option<Seq<char>>, priority: nat) -> Seq<
    Root,
> {
    match base {
        Some(dir) => seq![
            named_root(variable, dir, priority + 4, "co.roosycozy.desktop"@),
            named_root(variable, dir, priority + 3, "roosycozy"@),
            named_root(variable, dir, priority + 2, "RoosyCozy"@),
            named_root(variable, dir, priority + 1, "co.roosycozy.app"@),
        ],
        None => Seq::empty(),
    }
}

/// A folder below one of a user's.
pub open spec fn named_root(
    variable: Seq<char>,
    dir: Seq<char>,
    priority: nat,
    folder: Seq<char>,
) -> Root {
    Root { priority, label: (variable + ":"@ + folder), path: seq![dir, folder] }
}

/// The folders in which a state may stand on Windows, the most current first.
pub open spec fn windows_roots(folders: WindowsFolders) -> Seq<Root> {
    let appdata = strs::opt_view(folders.appdata);
    let public = strs::opt_view(folders.public);
    let own = seq![
        Root {
            priority: 30,
            label: "appdata:current-shared-root"@,
            path: appdata_place(appdata, CURRENT_APP_ID@),
        },
        Root { priority: 29, label: "appdata:dev"@, path: appdata_place(appdata, "roosycozy"@) },
        Root {
            priority: 28,
            label: "appdata:legacy"@,
            path: appdata_place(appdata, LEGACY_APP_ID@),
        },
        Root { priority: 20, label: "shared-root"@, path: shared_place(public, CURRENT_APP_ID@) },
        Root {
            priority: 19,
            label: "legacy-shared-root"@,
            path: shared_place(public, LEGACY_APP_ID@),
        },
    ];
    let documents = match folders.user_profile {
        Some(dir) => seq![
            Root {
                priority: 4,
                label: "userprofile:Documents/RoosyCozy"@,
                path: seq![dir@, "Documents"@, "RoosyCozy"@],
            },
        ],
        None => Seq::empty(),
    };
    own + named_roots("APPDATA"@, appdata, 10) + named_roots(
        "LOCALAPPDATA"@,
        strs::opt_view(folders.local_appdata),
        9,
    ) + documents
}

/// Whether a folder is among these.
pub open spec fn has_path(list: Seq<Root>, path: Seq<Seq<char>>) -> bool {
    exists|i: int| 0 <= i < list.len() && (#[trigger] list[i]).path == path
}

/// A list of folders, each where it stands first.
pub open spec fn distinct_roots(list: Seq<Root>) -> Seq<Root>
    decreases list.len(),
{
    if list.len() == 0 {
        Seq::empty()
    } else {
        let rest = distinct_roots(list.drop_last());
        if has_path(rest, list.last().path) {
            rest
        } else {
            rest.push(list.last())
        }
    }
}

fn push_root(out: &mut Vec<StateRoot>, priority: usize, label: &str, path: Vec<String>)
    ensures
        strs::deep(final(out)@) == {
            let before = strs::deep(old(out)@);
            if has_path(before, strs::views(path@)) {
                before
            } else {
                before.push(Root { priority: priority as nat, label: label@, path: strs::views(path@) })
            }
        },
{
    let ghost before = strs::deep(out@);
    let ghost wanted = strs::views(path@);
    let mut i: usize = 0;
    while i < out.len()
        invariant
            i <= out@.len(),
            before == strs::deep(out@),
            wanted == strs::views(path@),
            forall|j: int| 0 <= j < i ==> (#[trigger] before[j]).path != wanted,
        decreases out@.len() - i,
    {
        assert(before[i as int] == out@[i as int]@);
        if models::same_place(&out[i].path, &path) {
            assert(before[i as int].path == wanted);
            return ;
        }
        i += 1;
    }
    let root = StateRoot { priority, label: text::copy(label), path };
    let ghost seen = root@;
    out.push(root);
    assert(strs::deep(out@) =~= before.push(seen));
}

fn push_named_root(out: &mut Vec<StateRoot>, priority: usize, variable: &str, dir: &str, folder: &str)
    ensures
        strs::deep(final(out)@) == {
            let before = strs::deep(old(out)@);
            let root = named_root(variable@, dir@, priority as nat, folder@);
            if has_path(before, root.path) {
                before
            } else {
                before.push(root)
            }
        },
{
    let mut label = text::copy(variable);
    label.append(":");
    label.append(folder);
    let path = text::owned(&[dir, folder]);
    assert(strs::views(path@) =~= seq![dir@, folder@]);
    push_root(out, priority, &label, path);
}

proof fn lemma_distinct_push(list: Seq<Root>, root: Root)
    ensures
        distinct_roots(list.push(root)) == (if has_path(distinct_roots(list), root.path) {
            distinct_roots(list)
        } else {
            distinct_roots(list).push(root)
        }),
{
    assert(list.push(root).drop_last() =~= list);
}

fn push_named_roots(
    out: &mut Vec<StateRoot>,
    base: &Option<String>,
    priority: usize,
    variable: &str,
    Ghost(all): Ghost<Seq<Root>>,
)
    requires
        strs::deep(old(out)@) == distinct_roots(all),
        priority <= 100,
    ensures
        strs::deep(final(out)@) == distinct_roots(
            all + named_roots(variable@, strs::opt_view(*base), priority as nat),
        ),
{
    if let Some(dir) = base {
        let ghost more = named_roots(variable@, Some(dir@), priority as nat);
        push_named_root(out, priority + 4, variable, dir, "co.roosycozy.desktop");
        push_named_root(out, priority + 3, variable, dir, "roosycozy");
        push_named_root(out, priority + 2, variable, dir, "RoosyCozy");
        push_named_root(out, priority + 1, variable, dir, "co.roosycozy.app");
        proof {
            let one = all.push(more[0]);
            let two = one.push(more[1]);
            let three = two.push(more[2]);
            lemma_distinct_push(all, more[0]);
            lemma_distinct_push(one, more[1]);
            lemma_distinct_push(two, more[2]);
            lemma_distinct_push(three, more[3]);
            assert(three.push(more[3]) =~= all + more);
        }
    } else {
        assert(all + named_roots(variable@, None, priority as nat) =~= all);
    }
}

/// The folders in which a state may stand on Windows, the most current first, each once.
pub fn windows_state_candidate_roots(folders: &WindowsFolders) -> (r: Vec<StateRoot>)
    ensures
        strs::deep(r@) == distinct_roots(windows_roots(*folders)),
{
    let ghost appdata = strs::opt_view(folders.appdata);
    let ghost public = strs::opt_view(folders.public);
    let ghost all = windows_roots(*folders);
    let mut out: Vec<StateRoot> = Vec::new();
    assert(strs::deep(out@) =~= distinct_roots(all.take(0)));
    push_root(
        &mut out,
        30,
        "appdata:current-shared-root",
        windows_appdata_root(&folders.appdata, CURRENT_APP_ID),
    );
    push_root(&mut out, 29, "appdata:dev", windows_appdata_root(&folders.appdata, "roosycozy"));
    push_root(&mut out, 28, "appdata:legacy", windows_appdata_root(&folders.appdata, LEGACY_APP_ID));
    push_root(&mut out, 20, "shared-root", windows_shared_root(&folders.public, CURRENT_APP_ID));
    push_root(
        &mut out,
        19,
        "legacy-shared-root",
        windows_shared_root(&folders.public, LEGACY_APP_ID),
    );
    let ghost own = all.take(5);
    proof {
        lemma_distinct_push(all.take(0), all[0]);
        assert(all.take(0).push(all[0]) =~= all.take(1));
        lemma_distinct_push(all.take(1), all[1]);
        assert(all.take(1).push(all[1]) =~= all.take(2));
        lemma_distinct_push(all.take(2), all[2]);
        assert(all.take(2).push(all[2]) =~= all.take(3));
        lemma_distinct_push(all.take(3), all[3]);
        assert(all.take(3).push(all[3]) =~= all.take(4));
        lemma_distinct_push(all.take(4), all[4]);
        assert(all.take(4).push(all[4]) =~= all.take(5));
    }
    push_named_roots(&mut out, &folders.appdata, 10, "APPDATA", Ghost(own));
    let ghost first = own + named_roots("APPDATA"@, appdata, 10);
    push_named_roots(&mut out, &folders.local_appdata, 9, "LOCALAPPDATA", Ghost(first));
    let ghost second = first + named_roots(
        "LOCALAPPDATA"@,
        strs::opt_view(folders.local_appdata),
        9,
    );
    if let Some(dir) = &folders.user_profile {
        let path = text::owned(&[dir.as_str(), "Documents", "RoosyCozy"]);
        assert(strs::views(path@) =~= seq![dir@, "Documents"@, "RoosyCozy"@]);
        push_root(&mut out, 4, "userprofile:Documents/RoosyCozy", path);
        proof {
            lemma_distinct_push(second, all.last());
            assert(second.push(all.last()) =~= all);
        }
    } else {
        assert(second =~= all);
    }
    out
}

proof fn lemma_distinct_roots(list: Seq<Root>)
    ensures
        forall|i: int, j: int|
            0 <= i < j < distinct_roots(list).len() ==> (#[trigger] distinct_roots(list)[i]).path
                != (#[trigger] distinct_roots(list)[j]).path,
    decreases list.len(),
{
    if list.len() > 0 {
        let rest = distinct_roots(list.drop_last());
        lemma_distinct_roots(list.drop_last());
        if !has_path(rest, list.last().path) {
            assert forall|i: int, j: int| 0 <= i < j < distinct_roots(list).len() implies (
            #[trigger] distinct_roots(list)[i]).path != (#[trigger] distinct_roots(list)[j]).path by {
                assert(distinct_roots(list)[i] == rest[i]);
            }
        }
    }
}

/// No folder is searched twice.
pub proof fn no_folder_is_searched_twice(folders: WindowsFolders, i: int, j: int)
    requires
        0 <= i < j < distinct_roots(windows_roots(folders)).len(),
    ensures
        distinct_roots(windows_roots(folders))[i].path != distinct_roots(
            windows_roots(folders),
        )[j].path,
{
    lemma_distinct_roots(windows_roots(folders));
}

/// What is done with the storage of the program under the name it had before.
#[derive(Clone, Copy, PartialEq, Eq, Structural, Debug)]
pub enum StorageMove {
    /// Nothing.
    Leave,
    /// The files of the database are copied over those of the program.
    CopyDatabase,
    /// The whole folder is copied, where the program has nothing of the same name.
    CopyFolder,
}

/// What is done with the storage of the program under the name it had before.
pub fn storage_move(old_exists: bool, old_holds_state: bool, new_found: bool) -> (r: StorageMove)
    ensures
        r == (if !old_exists || !old_holds_state {
            StorageMove::Leave
        } else if new_found {
            StorageMove::CopyDatabase
        } else {
            StorageMove::CopyFolder
        }),
{
    if !old_exists || !old_holds_state {
        StorageMove::Leave
    } else if new_found {
        StorageMove::CopyDatabase
    } else {
        StorageMove::CopyFolder
    }
}

/// The files of a database.
pub fn database_files() -> (r: Vec<String>)
    ensures
        strs::views(r@) == seq![
            LOCAL_STORAGE_FILENAME@,
            "localstorage.sqlite3-shm"@,
            "localstorage.sqlite3-wal"@,
        ],
{
    let r = text::owned(
        &[LOCAL_STORAGE_FILENAME, "localstorage.sqlite3-shm", "localstorage.sqlite3-wal"],
    );
    assert(strs::views(r@) =~= seq![
        LOCAL_STORAGE_FILENAME@,
        "localstorage.sqlite3-shm"@,
        "localstorage.sqlite3-wal"@,
    ]);
    r
}

/// Whether bytes stand somewhere among others.
pub open spec fn holds_bytes(bytes: Seq<u8>, needle: Seq<u8>) -> bool {
    exists|i: int|
        0 <= i <= bytes.len() - needle.len() && #[trigger] bytes.subrange(i, i + needle.len())
            == needle
}

fn stands_at(bytes: &[u8], needle: &[u8], at: usize) -> (r: bool)
    requires
        at + needle@.len() <= bytes@.len(),
    ensures
        r == (bytes@.subrange(at as int, at + needle@.len()) == needle@),
{
    let n: usize = bytes.len();
    let mut k: usize = 0;
    while k < needle.len()
        invariant
            k <= needle@.len(),
            n == bytes@.len(),
            at + needle@.len() <= n,
            forall|m: int| 0 <= m < k ==> bytes@[at + m] == #[trigger] needle@[m],
        decreases needle@.len() - k,
    {
        if bytes[at + k] != needle[k] {
            assert(bytes@.subrange(at as int, at + needle@.len())[k as int] != needle@[k as int]);
            return false;
        }
        k += 1;
    }
    assert(bytes@.subrange(at as int, at + needle@.len()) =~= needle@);
    true
}

/// Whether bytes stand somewhere among others.
pub fn contains_bytes(bytes: &[u8], needle: &[u8]) -> (r: bool)
    requires
        needle@.len() > 0,
    ensures
        r == holds_bytes(bytes@, needle@),
{
    let n: usize = bytes.len();
    if needle.len() > n {
        return false;
    }
    let stop: usize = n - needle.len() + 1;
    let mut i: usize = 0;
    while i < stop
        invariant
            n == bytes@.len(),
            stop + needle@.len() == n + 1,
            i <= stop,
            forall|j: int|
                0 <= j < i ==> #[trigger] bytes@.subrange(j, j + needle@.len()) != needle@,
        decreases stop - i,
    {
        if stands_at(bytes, needle, i) {
            return true;
        }
        i += 1;
    }
    false
}

/// Whether stored bytes hold the key of the state.
pub fn holds_state_key(bytes: &[u8]) -> (r: bool)
    ensures
        r == holds_bytes(bytes@, encode_utf8(STATE_KEY@)),
{
    let key = STATE_KEY.as_bytes();
    proof {
        reveal_strlit("roosycozy_state_v1");
        encode_utf8_decode_utf8(STATE_KEY@);
        assert(key@.len() > 0) by {
            if key@.len() == 0 {
                assert(key@ =~= Seq::empty());
                assert(decode_utf8(key@).len() == 0);
            }
        }
    }
    contains_bytes(bytes, key)
}

} // verus!
