//! Raw documents and their mathematical model.
//!
//! A raw document is a `serde_json::Value`. Verified code never looks inside
//! one: it reads and builds documents through the functions specified here,
//! whose contracts are stated over [`Doc`], the tree a document stands for.
//! Those contracts are believed, not proved; each says which function of
//! `serde_json` it describes.

use vstd::prelude::*;

verus! {

/// `serde_json::Value`, opaque to the verifier.
#[verifier::external_type_specification]
#[verifier::external_body]
pub struct ExValue(serde_json::Value);

/// `serde_json::Map`, the object representation of `serde_json`. The struct
/// itself carries no bounds on its parameters.
#[verifier::external_type_specification]
#[verifier::external_body]
#[verifier::reject_recursive_types(K)]
#[verifier::reject_recursive_types(V)]
pub struct ExMap<K, V>(serde_json::Map<K, V>);

/// The tree that a raw document stands for.
///
/// Numbers come in three kinds: the non-negative integers that fit in 64
/// bits, which are the only numbers this protocol carries; the negative
/// integers that fit in 64 bits; and every other number, of which nothing
/// more is recorded.
pub ghost enum Doc {
    Null,
    Bool(bool),
    Unsigned(u64),
    Negative(i64),
    OtherNumber,
    Text(Seq<char>),
    List(Seq<Doc>),
    Record(Map<Seq<char>, Doc>),
}

impl Doc {
    /// The member stored under `key`, if this document is an object that has
    /// one. Anything that is no object has no members.
    pub open spec fn member(self, key: Seq<char>) -> Option<Doc> {
        match self {
            Doc::Record(entries) => if entries.contains_key(key) {
                Some(entries[key])
            } else {
                None
            },
            _ => None,
        }
    }

    /// The integer that this document holds, if it holds one.
    pub open spec fn integer(self) -> Option<int> {
        match self {
            Doc::Unsigned(n) => Some(n as int),
            Doc::Negative(n) => if n < 0 {
                Some(n as int)
            } else {
                None
            },
            _ => None,
        }
    }

    /// The member stored under `key` unless it is absent or null: on the wire
    /// an optional field may be left out or sent as null, and both mean "not
    /// given".
    pub open spec fn given(self, key: Seq<char>) -> Option<Doc> {
        match self.member(key) {
            Some(Doc::Null) => None,
            other => other,
        }
    }
}

/// The tree that `value` stands for: null, booleans, strings, arrays and
/// objects map to the variant of the same kind, a number to `Unsigned(n)`
/// when `serde_json` holds it as the non-negative integer `n`, to
/// `Negative(n)` when it holds it as the negative integer `n`, and to
/// `OtherNumber` otherwise.
pub uninterp spec fn doc_of(value: serde_json::Value) -> Doc;

/// The entries of an object under construction, each value by its tree.
pub uninterp spec fn entries_of(map: serde_json::Map<String, serde_json::Value>) -> Map<
    Seq<char>,
    Doc,
>;

/// The trees of a vector of raw documents, in order.
pub open spec fn docs_of(values: Seq<serde_json::Value>) -> Seq<Doc> {
    Seq::new(values.len(), |i: int| doc_of(values[i]))
}

/// `Value::as_str` returns the string of a string document and `None` for
/// every other kind.
pub assume_specification<'a>[ serde_json::Value::as_str ](value: &'a serde_json::Value) -> (r:
    Option<&'a str>)
    ensures
        match r {
            Some(text) => doc_of(*value) == Doc::Text(text@),
            None => !(doc_of(*value) is Text),
        },
;

/// `Value::as_u64` returns the integer of a number held as a non-negative
/// integer, and `None` for negative or fractional numbers and for every other
/// kind of document.
pub assume_specification[ serde_json::Value::as_u64 ](value: &serde_json::Value) -> (r: Option<
    u64,
>)
    ensures
        match r {
            Some(n) => doc_of(*value) == Doc::Unsigned(n),
            None => !(doc_of(*value) is Unsigned),
        },
;

/// `Value::as_i64` returns the integer of a number held as an integer, be it
/// negative or not, if it fits in an `i64`, and `None` for larger integers,
/// for fractional numbers and for every other kind of document.
pub assume_specification[ serde_json::Value::as_i64 ](value: &serde_json::Value) -> (r: Option<
    i64,
>)
    ensures
        match r {
            Some(n) => if n < 0 {
                doc_of(*value) == Doc::Negative(n)
            } else {
                doc_of(*value) == Doc::Unsigned(n as u64)
            },
            None => !(doc_of(*value) is Negative) && !(doc_of(*value) matches Doc::Unsigned(n) && n
                <= i64::MAX),
        },
;

/// `Value::as_bool` returns the boolean of a boolean document and `None` for
/// every other kind.
pub assume_specification[ serde_json::Value::as_bool ](value: &serde_json::Value) -> (r: Option<
    bool,
>)
    ensures
        match r {
            Some(b) => doc_of(*value) == Doc::Bool(b),
            None => !(doc_of(*value) is Bool),
        },
;

/// `Value::is_null` tells whether the document is null.
pub assume_specification[ serde_json::Value::is_null ](value: &serde_json::Value) -> (r: bool)
    ensures
        r == (doc_of(*value) is Null),
;

/// `Value::as_array` returns the elements of an array document and `None`
/// for every other kind.
pub assume_specification<'a>[ serde_json::Value::as_array ](value: &'a serde_json::Value) -> (r:
    Option<&'a Vec<serde_json::Value>>)
    ensures
        match r {
            Some(items) => doc_of(*value) == Doc::List(docs_of(items@)),
            None => !(doc_of(*value) is List),
        },
;

/// `Value::clone` returns a document that stands for the same tree.
pub assume_specification[ <serde_json::Value as Clone>::clone ](value: &serde_json::Value) -> (r:
    serde_json::Value)
    ensures
        doc_of(r) == doc_of(*value),
;

/// `Map::new` makes an object without entries.
pub assume_specification[ serde_json::Map::<String, serde_json::Value>::new ]() -> (r: serde_json::Map<
    String,
    serde_json::Value,
>)
    ensures
        entries_of(r) =~= Map::empty(),
;

/// `Map::insert` stores `value` under `key`, replacing what was stored under
/// that key and leaving the other entries as they were; it returns the value
/// it replaced, if there was one.
pub assume_specification[ serde_json::Map::<String, serde_json::Value>::insert ](
    map: &mut serde_json::Map<String, serde_json::Value>,
    key: String,
    value: serde_json::Value,
) -> (r: Option<serde_json::Value>)
    ensures
        entries_of(*final(map)) == entries_of(*old(map)).insert(key@, doc_of(value)),
        match r {
            Some(previous) => entries_of(*old(map)).contains_key(key@) && doc_of(previous)
                == entries_of(*old(map))[key@],
            None => !entries_of(*old(map)).contains_key(key@),
        },
;

/// Calls `Value::get` with a string key: the member of an object stored
/// under that key, `None` where the object has no such member or the
/// document is no object.
#[verifier::external_body]
pub(crate) fn member<'a>(value: &'a serde_json::Value, key: &str) -> (r: Option<
    &'a serde_json::Value,
>)
    ensures
        match r {
            Some(found) => doc_of(*value).member(key@) == Some(doc_of(*found)),
            None => doc_of(*value).member(key@) is None,
        },
{
    value.get(key)
}

/// Builds `Value::Null`, the null document.
#[verifier::external_body]
pub(crate) fn null_value() -> (r: serde_json::Value)
    ensures
        doc_of(r) == Doc::Null,
{
    serde_json::Value::Null
}

/// Builds `Value::Bool`, a boolean document.
#[verifier::external_body]
pub(crate) fn bool_value(b: bool) -> (r: serde_json::Value)
    ensures
        doc_of(r) == Doc::Bool(b),
{
    serde_json::Value::Bool(b)
}

/// Calls `Value::from` on a `u64`, which builds a number held as that
/// non-negative integer.
#[verifier::external_body]
pub(crate) fn unsigned_value(n: u64) -> (r: serde_json::Value)
    ensures
        doc_of(r) == Doc::Unsigned(n),
{
    serde_json::Value::from(n)
}

/// Builds `Value::String`, a string document.
#[verifier::external_body]
pub(crate) fn text_value(text: String) -> (r: serde_json::Value)
    ensures
        doc_of(r) == Doc::Text(text@),
{
    serde_json::Value::String(text)
}

/// Builds `Value::Array`, an array document with the given elements in
/// order.
#[verifier::external_body]
pub(crate) fn list_value(items: Vec<serde_json::Value>) -> (r: serde_json::Value)
    ensures
        doc_of(r) == Doc::List(docs_of(items@)),
{
    serde_json::Value::Array(items)
}

/// Builds `Value::Object`, an object document with the entries of `map`.
#[verifier::external_body]
pub(crate) fn record_value(map: serde_json::Map<String, serde_json::Value>) -> (r:
    serde_json::Value)
    ensures
        doc_of(r) == Doc::Record(entries_of(map)),
{
    serde_json::Value::Object(map)
}

} // verus!
