//! Reading the fields of a JSON record.
//!
//! A field that a record lacks is read as empty text: that is how this crate
//! writes "unknown". A field that is there but holds a value of the wrong kind
//! makes the record malformed; the readers that can fail say so with `None`,
//! and a malformed record is left out of a result without disturbing the
//! records around it.

use vstd::prelude::*;
use vstd::string::*;
use crate::json::{Json, JsonView};
use crate::seqs::{view_of, views};
use crate::text::{decimal, decimal_text};

verus! {

/// The text field `key` of `record`: empty where the record has no such
/// member, nothing where the member is no string.
pub open spec fn text_field(record: JsonView, key: Seq<char>) -> Option<Seq<char>> {
    match record.member(key) {
        Some(value) => value.text(),
        None => Some(Seq::empty()),
    }
}

/// The text field `key` of `record`, read leniently: empty where the record
/// has no such member or the member is no string.
pub open spec fn lenient_text_field(record: JsonView, key: Seq<char>) -> Seq<char> {
    match record.member(key) {
        Some(value) => match value.text() {
            Some(t) => t,
            None => Seq::empty(),
        },
        None => Seq::empty(),
    }
}

/// The numeric field `key` of `record`, written in decimal: empty where the
/// record has no such member, nothing where the member is no unsigned integer.
pub open spec fn unsigned_field(record: JsonView, key: Seq<char>) -> Option<Seq<char>> {
    match record.member(key) {
        Some(value) => match value.unsigned() {
            Some(n) => Some(decimal_text(n as nat)),
            None => None,
        },
        None => Some(Seq::empty()),
    }
}

/// The numeric field `key` of `record`, written as a float: empty where the
/// record has no such member, `NaN` where the member is no number.
pub open spec fn float_field(record: JsonView, key: Seq<char>) -> Seq<char> {
    match record.member(key) {
        Some(value) => match value.float_text() {
            Some(t) => t,
            None => "NaN"@,
        },
        None => Seq::empty(),
    }
}

/// The `name` of `item`, where it has one that is a string.
pub open spec fn name_of(item: JsonView) -> Option<Seq<char>> {
    match item.member("name"@) {
        Some(value) => value.text(),
        None => None,
    }
}

/// The names of all of `items`, in order; nothing where one of them has none.
pub open spec fn names_of(items: Seq<JsonView>) -> Option<Seq<Seq<char>>>
    decreases items.len(),
{
    if items.len() == 0 {
        Some(Seq::empty())
    } else {
        match (names_of(items.drop_last()), name_of(items.last())) {
            (Some(names), Some(name)) => Some(names.push(name)),
            _ => None,
        }
    }
}

/// The names listed under `key` of `record`: none where the record has no such
/// member, nothing where the member is no array or one of its items has no
/// name.
pub open spec fn names_field(record: JsonView, key: Seq<char>) -> Option<Seq<Seq<char>>> {
    match record.member(key) {
        Some(value) => match value.items() {
            Some(items) => names_of(items),
            None => None,
        },
        None => Some(Seq::empty()),
    }
}

/// The first name listed under `key` of `record`: empty where the record has
/// no such member or the list is empty, nothing where the member is no array
/// or its first item has no name.
pub open spec fn first_name_field(record: JsonView, key: Seq<char>) -> Option<Seq<char>> {
    match record.member(key) {
        Some(value) => match value.items() {
            Some(items) => if items.len() == 0 {
                Some(Seq::empty())
            } else {
                name_of(items[0])
            },
            None => None,
        },
        None => Some(Seq::empty()),
    }
}

/// Reads the text field `key` of `record`.
pub fn read_text(record: &Json, key: &str) -> (r: Option<String>)
    ensures
        view_of(r) == text_field(record@, key@),
{
    match record.get(key) {
        Some(value) => match value.as_text() {
            Some(t) => Some(String::from_str(t)),
            None => None,
        },
        None => Some(String::new()),
    }
}

/// Reads the text field `key` of `record` leniently.
pub fn read_lenient_text(record: &Json, key: &str) -> (r: String)
    ensures
        r@ == lenient_text_field(record@, key@),
{
    match record.get(key) {
        Some(value) => match value.as_text() {
            Some(t) => String::from_str(t),
            None => String::new(),
        },
        None => String::new(),
    }
}

/// Reads the numeric field `key` of `record` and writes it in decimal.
pub fn read_unsigned(record: &Json, key: &str) -> (r: Option<String>)
    ensures
        view_of(r) == unsigned_field(record@, key@),
{
    match record.get(key) {
        Some(value) => match value.as_unsigned() {
            Some(n) => Some(decimal(n as u128)),
            None => None,
        },
        None => Some(String::new()),
    }
}

/// Reads the numeric field `key` of `record` as the text of a float.
pub fn read_float(record: &Json, key: &str) -> (r: String)
    ensures
        r@ == float_field(record@, key@),
{
    match record.get(key) {
        Some(value) => match value.as_float_text() {
            Some(t) => String::from_str(t),
            None => String::from_str("NaN"),
        },
        None => String::new(),
    }
}

/// Reads the `name` of `item`.
pub fn read_name(item: &Json) -> (r: Option<String>)
    ensures
        view_of(r) == name_of(item@),
{
    match item.get("name") {
        Some(value) => match value.as_text() {
            Some(t) => Some(String::from_str(t)),
            None => None,
        },
        None => None,
    }
}

/// Reads the names listed under `key` of `record`.
pub fn read_names(record: &Json, key: &str) -> (r: Option<Vec<String>>)
    ensures
        match r {
            Some(names) => names_field(record@, key@) == Some(views(names@)),
            None => names_field(record@, key@) is None,
        },
{
    let items = match record.get(key) {
        Some(value) => match value.as_items() {
            Some(items) => items,
            None => {
                return None;
            },
        },
        None => {
            let names: Vec<String> = Vec::new();
            assert(views(names@) =~= Seq::<Seq<char>>::empty());
            return Some(names);
        },
    };
    let mut names: Vec<String> = Vec::new();
    let ghost all = views(items@);
    assert(views(names@) =~= Seq::<Seq<char>>::empty());
    assert(all.take(0) =~= Seq::<JsonView>::empty());
    for i in 0..items.len()
        invariant
            all == views(items@),
            names_field(record@, key@) == names_of(all),
            names_of(all.take(i as int)) == Some(views(names@)),
    {
        assert(all.take(i + 1).drop_last() =~= all.take(i as int));
        assert(all.take(i + 1).last() == items@[i as int]@);
        match read_name(&items[i]) {
            Some(name) => {
                proof {
                    crate::seqs::lemma_views_push(names@, name);
                }
                names.push(name);
            },
            None => {
                proof {
                    lemma_names_of_prefix(all, i + 1);
                }
                return None;
            },
        }
    }
    assert(all.take(items.len() as int) =~= all);
    Some(names)
}

/// Reads the first name listed under `key` of `record`.
pub fn read_first_name(record: &Json, key: &str) -> (r: Option<String>)
    ensures
        view_of(r) == first_name_field(record@, key@),
{
    match record.get(key) {
        Some(value) => match value.as_items() {
            Some(items) => if items.len() == 0 {
                Some(String::new())
            } else {
                assert(views(items@)[0] == items@[0]@);
                read_name(&items[0])
            },
            None => None,
        },
        None => Some(String::new()),
    }
}

/// Where a prefix of `items` has an item without a name, so has the whole.
pub proof fn lemma_names_of_prefix(items: Seq<JsonView>, n: int)
    requires
        0 <= n <= items.len(),
        names_of(items.take(n)) is None,
    ensures
        names_of(items) is None,
    decreases items.len() - n,
{
    if n == items.len() {
        assert(items.take(n) =~= items);
    } else {
        assert(items.take(n + 1).drop_last() =~= items.take(n));
        lemma_names_of_prefix(items, n + 1);
    }
}

/// A field that a record lacks never makes the record malformed: each reader
/// answers with its empty value.
pub proof fn lemma_absent_field_reads_empty(record: JsonView, key: Seq<char>)
    requires
        record.member(key) is None,
    ensures
        text_field(record, key) == Some(Seq::<char>::empty()),
        lenient_text_field(record, key) == Seq::<char>::empty(),
        unsigned_field(record, key) == Some(Seq::<char>::empty()),
        float_field(record, key) == Seq::<char>::empty(),
        names_field(record, key) == Some(Seq::<Seq<char>>::empty()),
        first_name_field(record, key) == Some(Seq::<char>::empty()),
{
}

} // verus!
