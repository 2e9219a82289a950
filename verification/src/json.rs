//! JSON documents.

use crate::strs;
use crate::text;
use vstd::prelude::*;

verus! {

/// A JSON document. A number is kept as serde_json writes it.
#[derive(Debug)]
pub enum Json {
    Null,
    Bool(bool),
    Number(String),
    Text(String),
    List(Vec<Json>),
    Object(Vec<(String, Json)>),
}

/// A JSON document, as the contracts see it.
pub enum Tree {
    Null,
    Bool(bool),
    Number(Seq<char>),
    Text(Seq<char>),
    List(Seq<Tree>),
    Object(Seq<(Seq<char>, Tree)>),
}

/// The documents in a list.
pub open spec fn trees(items: Seq<Json>) -> Seq<Tree>
    decreases items,
{
    Seq::new(items.len(), |i: int| if 0 <= i < items.len() { items[i].tree() } else { Tree::Null })
}

/// The members of an object.
pub open spec fn members(items: Seq<(String, Json)>) -> Seq<(Seq<char>, Tree)>
    decreases items,
{
    Seq::new(
        items.len(),
        |i: int|
            if 0 <= i < items.len() {
                (items[i].0@, items[i].1.tree())
            } else {
                (Seq::empty(), Tree::Null)
            },
    )
}

impl Json {
    /// The document as the contracts see it.
    pub open spec fn tree(self) -> Tree
        decreases self,
    {
        match self {
            Json::Null => Tree::Null,
            Json::Bool(b) => Tree::Bool(b),
            Json::Number(n) => Tree::Number(n@),
            Json::Text(s) => Tree::Text(s@),
            Json::List(items) => Tree::List(trees(items@)),
            Json::Object(items) => Tree::Object(members(items@)),
        }
    }
}

/// A value of serde_json.
#[verifier::external_type_specification]
#[verifier::external_body]
pub struct ExValue(serde_json::Value);

/// The document that a text holds, as serde_json reads it, or why it holds none.
pub uninterp spec fn parsed(s: Seq<char>) -> Result<Tree, Seq<char>>;

/// The document that a value of serde_json stands for, with the members of an object in the
/// order in which serde_json keeps them. One variant becomes one variant; nothing is stated of
/// the result beyond what [`from_str`] says.
#[verifier::external_body]
fn from_value(value: serde_json::Value) -> Json {
    match value {
        serde_json::Value::Null => Json::Null,
        serde_json::Value::Bool(b) => Json::Bool(b),
        serde_json::Value::Number(n) => Json::Number(n.to_string()),
        serde_json::Value::String(s) => Json::Text(s),
        serde_json::Value::Array(items) => Json::List(items.into_iter().map(from_value).collect()),
        serde_json::Value::Object(map) => {
            Json::Object(map.into_iter().map(|(k, v)| (k, from_value(v))).collect())
        },
    }
}

/// `serde_json::from_str` into a `Value`: what it reads of a text, or the message of its error.
/// What it reads depends on the text alone; the grammar is left to serde_json.
#[verifier::external_body]
fn from_str(s: &str) -> (r: Result<Json, String>)
    ensures
        read_view(r) == parsed(s@),
{
    match serde_json::from_str::<serde_json::Value>(s) {
        Ok(value) => Ok(from_value(value)),
        Err(error) => Err(error.to_string()),
    }
}

/// The view of what was read of a text.
pub open spec fn read_view(r: Result<Json, String>) -> Result<Tree, Seq<char>> {
    match r {
        Ok(json) => Ok(json.tree()),
        Err(message) => Err(message@),
    }
}

/// The document that a text holds, or why it holds none.
pub fn parse(s: &str) -> (r: Result<Json, String>)
    ensures
        read_view(r) == parsed(s@),
{
    from_str(s)
}

/// The first member of that name, from position `i` on.
pub open spec fn member_from(items: Seq<(Seq<char>, Tree)>, key: Seq<char>, i: int) -> Option<Tree>
    decreases items.len() - i,
{
    if i < 0 || i >= items.len() {
        None
    } else if items[i].0 == key {
        Some(items[i].1)
    } else {
        member_from(items, key, i + 1)
    }
}

impl Tree {
    /// The member of that name, where the document is an object and has one.
    pub open spec fn get(self, key: Seq<char>) -> Option<Tree> {
        match self {
            Tree::Object(items) => member_from(items, key, 0),
            _ => None,
        }
    }

    /// The text, where the document is one.
    pub open spec fn text(self) -> Option<Seq<char>> {
        match self {
            Tree::Text(s) => Some(s),
            _ => None,
        }
    }
}

/// The member of that name of a document that may be missing.
pub open spec fn get_of(t: Option<Tree>, key: Seq<char>) -> Option<Tree> {
    match t {
        Some(tree) => tree.get(key),
        None => None,
    }
}

/// The trimmed text of a document that may be missing; nothing where it is no text or blank.
pub open spec fn filled_text(t: Option<Tree>) -> Option<Seq<char>> {
    match t {
        Some(Tree::Text(s)) => if strs::trim(s).len() > 0 {
            Some(strs::trim(s))
        } else {
            None
        },
        _ => None,
    }
}

/// The document behind an optional reference.
pub open spec fn tree_of(v: Option<&Json>) -> Option<Tree> {
    match v {
        Some(json) => Some(json.tree()),
        None => None,
    }
}

impl Json {
    /// The member of that name, where the document is an object and has one.
    pub fn get(&self, key: &str) -> (r: Option<&Json>)
        ensures
            tree_of(r) == self.tree().get(key@),
    {
        match self {
            Json::Object(items) => {
                let ghost all = members(items@);
                let mut i: usize = 0;
                while i < items.len()
                    invariant
                        i <= items@.len(),
                        all == members(items@),
                        self.tree() == Tree::Object(all),
                        member_from(all, key@, 0) == member_from(all, key@, i as int),
                    decreases items@.len() - i,
                {
                    assert(all[i as int] == (items@[i as int].0@, items@[i as int].1.tree()));
                    if text::same(&items[i].0, key) {
                        return Some(&items[i].1);
                    }
                    i += 1;
                }
                None
            },
            _ => None,
        }
    }

    /// The items, where the document is a list.
    pub fn as_list(&self) -> (r: Option<&Vec<Json>>)
        ensures
            match r {
                Some(items) => self.tree() == Tree::List(trees(items@)),
                None => !(self.tree() is List),
            },
    {
        match self {
            Json::List(items) => Some(items),
            _ => None,
        }
    }
}

/// The member of that name of a document that may be missing.
pub fn get_of_json<'a>(v: Option<&'a Json>, key: &str) -> (r: Option<&'a Json>)
    ensures
        tree_of(r) == get_of(tree_of(v), key@),
{
    match v {
        Some(json) => json.get(key),
        None => None,
    }
}

/// The trimmed text of a document that may be missing; nothing where it is no text or blank.
pub fn value_string(v: Option<&Json>) -> (r: Option<String>)
    ensures
        strs::opt_view(r) == filled_text(tree_of(v)),
{
    match v {
        Some(Json::Text(s)) => {
            let trimmed = text::trim(s);
            if trimmed.unicode_len() > 0 {
                Some(trimmed)
            } else {
                None
            }
        },
        _ => None,
    }
}

/// The first of these members that holds a text that is not blank, from position `i` on.
pub open spec fn first_filled(t: Tree, keys: Seq<Seq<char>>, i: int) -> Option<Seq<char>>
    decreases keys.len() - i,
{
    if i < 0 || i >= keys.len() {
        None
    } else if filled_text(t.get(keys[i])) is Some {
        filled_text(t.get(keys[i]))
    } else {
        first_filled(t, keys, i + 1)
    }
}

/// The first of these members that holds a text that is not blank.
pub fn first_filled_text(json: &Json, keys: &[&str]) -> (r: Option<String>)
    ensures
        strs::opt_view(r) == first_filled(json.tree(), strs::str_views(keys@), 0),
{
    let ghost names = strs::str_views(keys@);
    let mut i: usize = 0;
    while i < keys.len()
        invariant
            i <= keys@.len(),
            names == strs::str_views(keys@),
            first_filled(json.tree(), names, 0) == first_filled(json.tree(), names, i as int),
        decreases keys@.len() - i,
    {
        let found = value_string(json.get(keys[i]));
        assert(names[i as int] == keys@[i as int]@);
        if found.is_some() {
            return found;
        }
        i += 1;
    }
    None
}

} // verus!
