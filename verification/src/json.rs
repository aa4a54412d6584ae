//! JSON values as this crate reads them, parsed by the `serde_json` crate.

use vstd::prelude::*;
use vstd::string::*;
use crate::seqs::{view_of, views};

verus! {

/// A JSON value.
///
/// A number keeps the two readings this crate asks for: `unsigned` if it is a
/// non-negative integer that fits 64 bits, and `decimal`, the text of the
/// number read as a 64-bit float. A parsed object has one member for each
/// of its keys; a lookup takes the first member with the key it is asked for.
#[derive(Debug)]
pub enum Json {
    Null,
    Bool(bool),
    Number { unsigned: Option<u64>, decimal: Option<String> },
    Text(String),
    Array(Vec<Json>),
    Object(Vec<(String, Json)>),
}

/// Mathematical value of a [`Json`].
pub enum JsonView {
    Null,
    Bool(bool),
    Number { unsigned: Option<u64>, decimal: Option<Seq<char>> },
    Text(Seq<char>),
    Array(Seq<JsonView>),
    Object(Seq<(Seq<char>, JsonView)>),
}

/// The mathematical value of `json`: that of each of its parts, in place.
pub open spec fn value_of(json: Json) -> JsonView
    decreases json,
{
    match json {
        Json::Null => JsonView::Null,
        Json::Bool(b) => JsonView::Bool(b),
        Json::Number { unsigned, decimal } => JsonView::Number {
            unsigned,
            decimal: view_of(decimal),
        },
        Json::Text(t) => JsonView::Text(t@),
        Json::Array(items) => JsonView::Array(
            Seq::new(
                items@.len(),
                |i: int|
                    if 0 <= i < items@.len() {
                        value_of(items@[i])
                    } else {
                        JsonView::Null
                    },
            ),
        ),
        Json::Object(members) => JsonView::Object(
            Seq::new(
                members@.len(),
                |i: int|
                    if 0 <= i < members@.len() {
                        (members@[i].0@, value_of(members@[i].1))
                    } else {
                        (Seq::empty(), JsonView::Null)
                    },
            ),
        ),
    }
}

impl View for Json {
    type V = JsonView;

    open spec fn view(&self) -> JsonView {
        value_of(*self)
    }
}

/// The value of the first of `members` whose key is `key`.
pub open spec fn first_with_key(members: Seq<(Seq<char>, JsonView)>, key: Seq<char>) -> Option<
    JsonView,
>
    decreases members.len(),
{
    if members.len() == 0 {
        None
    } else if members[0].0 == key {
        Some(members[0].1)
    } else {
        first_with_key(members.drop_first(), key)
    }
}

impl JsonView {
    /// The member `key` of an object; nothing for a value that is no object or
    /// has no such member.
    pub open spec fn member(self, key: Seq<char>) -> Option<JsonView> {
        match self {
            JsonView::Object(members) => first_with_key(members, key),
            _ => None,
        }
    }

    /// The text of a JSON string; nothing for any other value.
    pub open spec fn text(self) -> Option<Seq<char>> {
        match self {
            JsonView::Text(t) => Some(t),
            _ => None,
        }
    }

    /// The value of a number that is a non-negative integer of 64 bits;
    /// nothing for any other value.
    pub open spec fn unsigned(self) -> Option<u64> {
        match self {
            JsonView::Number { unsigned, decimal } => unsigned,
            _ => None,
        }
    }

    /// The text of a number read as a float; nothing for any other value.
    pub open spec fn float_text(self) -> Option<Seq<char>> {
        match self {
            JsonView::Number { unsigned, decimal } => decimal,
            _ => None,
        }
    }

    /// The items of an array; nothing for any other value.
    pub open spec fn items(self) -> Option<Seq<JsonView>> {
        match self {
            JsonView::Array(items) => Some(items),
            _ => None,
        }
    }
}

impl Json {
    /// The member `key` of an object.
    pub fn get(&self, key: &str) -> (r: Option<&Json>)
        ensures
            view_of(r) == self@.member(key@),
    {
        match self {
            Json::Object(members) => {
                let wanted = String::from_str(key);
                let ghost all = self@->Object_0;
                let mut i: usize = 0;
                assert(all.subrange(0, members.len() as int) =~= all);
                while i < members.len()
                    invariant
                        i <= members.len(),
                        wanted@ == key@,
                        all.len() == members@.len(),
                        forall|k: int|
                            0 <= k < members@.len() ==> #[trigger] all[k] == (
                                members@[k].0@,
                                members@[k].1@,
                            ),
                        self@.member(key@) == first_with_key(
                            all.subrange(i as int, members.len() as int),
                            key@,
                        ),
                    decreases members.len() - i,
                {
                    let ghost rest = all.subrange(i as int, members.len() as int);
                    assert(rest[0] == all[i as int]);
                    if members[i].0 == wanted {
                        return Some(&members[i].1);
                    }
                    assert(rest.drop_first() =~= all.subrange(i + 1, members.len() as int));
                    i = i + 1;
                }
                None
            },
            _ => None,
        }
    }

    /// The text of a JSON string.
    pub fn as_text(&self) -> (r: Option<&str>)
        ensures
            view_of(r) == self@.text(),
    {
        match self {
            Json::Text(t) => Some(t.as_str()),
            _ => None,
        }
    }

    /// The value of a number that is a non-negative integer of 64 bits.
    pub fn as_unsigned(&self) -> (r: Option<u64>)
        ensures
            r == self@.unsigned(),
    {
        match self {
            Json::Number { unsigned, decimal } => *unsigned,
            _ => None,
        }
    }

    /// The text of a number read as a float.
    pub fn as_float_text(&self) -> (r: Option<&str>)
        ensures
            view_of(r) == self@.float_text(),
    {
        match self {
            Json::Number { unsigned, decimal: Some(t) } => Some(t.as_str()),
            _ => None,
        }
    }

    /// The items of an array.
    pub fn as_items(&self) -> (r: Option<&Vec<Json>>)
        ensures
            match r {
                Some(items) => self@.items() == Some(views(items@)),
                None => self@.items() is None,
            },
    {
        match self {
            Json::Array(items) => {
                assert(self@->Array_0 =~= views(items@));
                Some(items)
            },
            _ => None,
        }
    }
}

/// The JSON value that `text` spells, if it spells one.
pub uninterp spec fn json_of(text: Seq<char>) -> Option<JsonView>;

/// `serde_json::Value`, declared so that a parsed value can be handed from the
/// parser to [`copy_value`]. Nothing is claimed of what it holds.
#[verifier::external_type_specification]
#[verifier::external_body]
pub struct ExValue(serde_json::Value);

/// Copies a `serde_json::Value` into a [`Json`], variant by variant. A number
/// is read with `Number::as_u64` and `Number::as_f64`; the members of an
/// object come in the order in which its map hands them out.
#[verifier::external_body]
fn copy_value(value: &serde_json::Value) -> Json {
    match value {
        serde_json::Value::Null => Json::Null,
        serde_json::Value::Bool(b) => Json::Bool(*b),
        serde_json::Value::Number(n) => Json::Number {
            unsigned: n.as_u64(),
            decimal: n.as_f64().map(|f| f.to_string()),
        },
        serde_json::Value::String(s) => Json::Text(s.clone()),
        serde_json::Value::Array(a) => Json::Array(a.iter().map(copy_value).collect()),
        serde_json::Value::Object(o) => Json::Object(
            o.iter().map(|(k, v)| (k.clone(), copy_value(v))).collect(),
        ),
    }
}

/// Parses `text` with `serde_json::from_str` into a `serde_json::Value` and
/// copies it out. Whether the text parses, and into what, depends on the text
/// alone; the contract gives the outcome the name [`json_of`] and claims
/// nothing else.
#[verifier::external_body]
pub(crate) fn parse(text: &str) -> (r: Option<Json>)
    ensures
        view_of(r) == json_of(text@),
{
    match serde_json::from_str::<serde_json::Value>(text) {
        Ok(value) => Some(copy_value(&value)),
        Err(_) => None,
    }
}

} // verus!
