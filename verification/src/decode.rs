//! Decoding typed values from raw documents.
//!
//! Every type that can be read from a document implements [`Decode`]. A
//! decoder never stops at the first fault: it walks the whole document and
//! notes the path of every value that is absent or not of the shape its type
//! asks for, so that a caller can report all of them at once.

use crate::document::{doc_of, member, Doc};
use crate::error::{outcome_model, DecodeError, DecodeErrorModel};
use crate::path::{field_path, field_path_text, item_path, item_path_text};
use serde_json::Value;
use vstd::prelude::*;

verus! {

/// `after` holds everything that `before` holds, in the same places, and
/// possibly more behind it.
pub open spec fn grows(before: Seq<Seq<char>>, after: Seq<Seq<char>>) -> bool {
    &&& before.len() <= after.len()
    &&& forall|i: int| 0 <= i < before.len() ==> after[i] == before[i]
}

/// The paths noted so far, with `at` added unless the value there fits.
pub open spec fn note(fits: bool, at: Seq<char>, found: Seq<Seq<char>>) -> Seq<Seq<char>> {
    if fits {
        found
    } else {
        found.push(at)
    }
}

/// How the noted paths change over one step of decoding: nothing that was
/// noted is lost or moved, nothing is added where the step's value fits, and
/// at least one path is added where it does not.
#[verifier::opaque]
pub open spec fn settles(fits: bool, before: Seq<Seq<char>>, after: Seq<Seq<char>>) -> bool {
    &&& grows(before, after)
    &&& fits ==> after == before
    &&& !fits ==> after.len() > before.len()
}

/// What [`settles`] says, spelled out.
pub proof fn settles_means(fits: bool, before: Seq<Seq<char>>, after: Seq<Seq<char>>)
    requires
        settles(fits, before, after),
    ensures
        grows(before, after),
        fits ==> after == before,
        !fits ==> after.len() > before.len(),
{
    reveal(settles);
}

/// Before any step, nothing has changed.
pub proof fn settles_start(found: Seq<Seq<char>>)
    ensures
        settles(true, found, found),
{
    reveal(settles);
}

/// Two steps in a row settle as one step whose value fits when both do.
pub proof fn settles_chain(
    first: bool,
    second: bool,
    start: Seq<Seq<char>>,
    middle: Seq<Seq<char>>,
    end: Seq<Seq<char>>,
)
    requires
        settles(first, start, middle),
        settles(second, middle, end),
    ensures
        settles(first && second, start, end),
{
    reveal(settles);
}

/// A step that settles keeps every path noted before.
pub proof fn keeps(fits: bool, before: Seq<Seq<char>>, after: Seq<Seq<char>>, path: Seq<char>)
    requires
        settles(fits, before, after),
    ensures
        before.contains(path) ==> after.contains(path),
{
    reveal(settles);
    if before.contains(path) {
        let i = choose|i: int| 0 <= i < before.len() && before[i] == path;
        assert(after[i] == path);
    }
}

/// Noting the path of a value that does not fit is a step that settles.
pub proof fn note_settles(fits: bool, at: Seq<char>, found: Seq<Seq<char>>)
    ensures
        settles(fits, found, note(fits, at, found)),
{
    reveal(settles);
}

/// A type whose values can be decoded from a raw document.
///
/// The model of a decoded value is its deep view: strings as sequences of
/// characters, vectors as sequences of models.
pub trait Decode: DeepView + Sized {
    /// The model of the value that `doc` decodes to, or `None` where `doc`
    /// does not have the shape of this type.
    spec fn parse(doc: Doc) -> Option<Self::V>;

    /// The paths noted after decoding `doc`, which stands at path `at`, when
    /// `found` had been noted before: `found`, followed by the path of every
    /// value inside `doc` that is absent or misshapen, in the order in which
    /// the type lists its fields.
    spec fn gaps(doc: Doc, at: Seq<char>, found: Seq<Seq<char>>) -> Seq<Seq<char>>;

    /// Whether `key` names a field that a document of this type must hold.
    /// Which fields those are may depend on the document itself, where a
    /// code in it selects a variant. Types without fields need none.
    spec fn needs(doc: Doc, key: Seq<char>) -> bool;

    /// Decoding only ever adds paths, and it adds none exactly when the
    /// document decodes.
    proof fn gaps_law(doc: Doc, at: Seq<char>, found: Seq<Seq<char>>)
        ensures
            settles(Self::parse(doc) is Some, found, Self::gaps(doc, at, found)),
    ;

    /// A field that the type needs and the document lacks is noted by its
    /// path.
    proof fn absent_is_noted(doc: Doc, at: Seq<char>, found: Seq<Seq<char>>, key: Seq<char>)
        ensures
            Self::needs(doc, key) && doc.member(key) is None ==> Self::gaps(
                doc,
                at,
                found,
            ).contains(field_path(at, key)),
    ;

    /// Decodes `value`, which stands at path `at`, and notes in `gaps` the
    /// path of every value that is absent or misshapen.
    fn decode(value: &Value, at: &str, gaps: &mut Vec<String>) -> (r: Option<Self>)
        ensures
            r.deep_view() == Self::parse(doc_of(*value)),
            final(gaps).deep_view() == Self::gaps(doc_of(*value), at@, old(gaps).deep_view()),
    ;
}

/// Notes one more path.
pub fn mark(gaps: &mut Vec<String>, path: String)
    ensures
        final(gaps).deep_view() == old(gaps).deep_view().push(path@),
{
    gaps.push(path);
    assert(gaps.deep_view() =~= old(gaps).deep_view().push(path@));
}

/// What a field that must be present decodes to: the member under `key`,
/// decoded as a `T`.
pub open spec fn required_parse<T: Decode>(doc: Doc, key: Seq<char>) -> Option<T::V> {
    match doc.member(key) {
        Some(inner) => T::parse(inner),
        None => None,
    }
}

/// The paths noted after decoding a field that must be present: the field's
/// own path where the member is absent, else whatever decoding the member
/// notes.
pub open spec fn required_gaps<T: Decode>(
    doc: Doc,
    key: Seq<char>,
    at: Seq<char>,
    found: Seq<Seq<char>>,
) -> Seq<Seq<char>> {
    match doc.member(key) {
        Some(inner) => T::gaps(inner, field_path(at, key), found),
        None => found.push(field_path(at, key)),
    }
}

/// [`Decode::gaps_law`] for a field that must be present.
pub proof fn required_law<T: Decode>(
    doc: Doc,
    key: Seq<char>,
    at: Seq<char>,
    found: Seq<Seq<char>>,
)
    ensures
        settles(
            required_parse::<T>(doc, key) is Some,
            found,
            required_gaps::<T>(doc, key, at, found),
        ),
{
    match doc.member(key) {
        Some(inner) => T::gaps_law(inner, field_path(at, key), found),
        None => reveal(settles),
    }
}

/// Decoding a field that must be present, after steps that settled.
pub proof fn required_step<T: Decode>(
    doc: Doc,
    key: Seq<char>,
    at: Seq<char>,
    fits: bool,
    start: Seq<Seq<char>>,
    found: Seq<Seq<char>>,
)
    requires
        settles(fits, start, found),
    ensures
        settles(
            fits && required_parse::<T>(doc, key) is Some,
            start,
            required_gaps::<T>(doc, key, at, found),
        ),
{
    required_law::<T>(doc, key, at, found);
    settles_chain(
        fits,
        required_parse::<T>(doc, key) is Some,
        start,
        found,
        required_gaps::<T>(doc, key, at, found),
    );
}

/// Decodes the field `key` of `value`, which must be present.
pub fn required<T: Decode>(value: &Value, key: &str, at: &str, gaps: &mut Vec<String>) -> (r:
    Option<T>)
    ensures
        r.deep_view() == required_parse::<T>(doc_of(*value), key@),
        final(gaps).deep_view() == required_gaps::<T>(
            doc_of(*value),
            key@,
            at@,
            old(gaps).deep_view(),
        ),
{
    let path = field_path_text(at, key);
    match member(value, key) {
        Some(inner) => T::decode(inner, path.as_str(), gaps),
        None => {
            mark(gaps, path);
            None
        },
    }
}

/// Decoding a field that must be present keeps every path noted before,
/// and notes the field's own path where the document has no such member.
pub proof fn required_keeps<T: Decode>(
    doc: Doc,
    key: Seq<char>,
    at: Seq<char>,
    found: Seq<Seq<char>>,
    path: Seq<char>,
)
    ensures
        found.contains(path) ==> required_gaps::<T>(doc, key, at, found).contains(path),
        doc.member(key) is None ==> required_gaps::<T>(doc, key, at, found).contains(
            field_path(at, key),
        ),
{
    let after = required_gaps::<T>(doc, key, at, found);
    required_law::<T>(doc, key, at, found);
    keeps(required_parse::<T>(doc, key) is Some, found, after, path);
    if doc.member(key) is None {
        assert(after[found.len() as int] == field_path(at, key));
    }
}

/// What a field that may be left out decodes to: nothing where the member is
/// absent or null, else the member decoded as a `T`. The outer `None` means
/// that the member is given and is no `T`.
pub open spec fn optional_parse<T: Decode>(doc: Doc, key: Seq<char>) -> Option<Option<T::V>> {
    match doc.given(key) {
        Some(inner) => match T::parse(inner) {
            Some(model) => Some(Some(model)),
            None => None,
        },
        None => Some(None),
    }
}

/// The paths noted after decoding a field that may be left out: nothing new
/// where the member is absent or null, else whatever decoding the member
/// notes.
pub open spec fn optional_gaps<T: Decode>(
    doc: Doc,
    key: Seq<char>,
    at: Seq<char>,
    found: Seq<Seq<char>>,
) -> Seq<Seq<char>> {
    match doc.given(key) {
        Some(inner) => T::gaps(inner, field_path(at, key), found),
        None => found,
    }
}

/// [`Decode::gaps_law`] for a field that may be left out.
pub proof fn optional_law<T: Decode>(
    doc: Doc,
    key: Seq<char>,
    at: Seq<char>,
    found: Seq<Seq<char>>,
)
    ensures
        settles(
            optional_parse::<T>(doc, key) is Some,
            found,
            optional_gaps::<T>(doc, key, at, found),
        ),
{
    match doc.given(key) {
        Some(inner) => T::gaps_law(inner, field_path(at, key), found),
        None => reveal(settles),
    }
}

/// Decoding a field that may be left out, after steps that settled.
pub proof fn optional_step<T: Decode>(
    doc: Doc,
    key: Seq<char>,
    at: Seq<char>,
    fits: bool,
    start: Seq<Seq<char>>,
    found: Seq<Seq<char>>,
)
    requires
        settles(fits, start, found),
    ensures
        settles(
            fits && optional_parse::<T>(doc, key) is Some,
            start,
            optional_gaps::<T>(doc, key, at, found),
        ),
{
    optional_law::<T>(doc, key, at, found);
    settles_chain(
        fits,
        optional_parse::<T>(doc, key) is Some,
        start,
        found,
        optional_gaps::<T>(doc, key, at, found),
    );
}

/// Decoding a field that may be left out keeps every path noted before.
pub proof fn optional_keeps<T: Decode>(
    doc: Doc,
    key: Seq<char>,
    at: Seq<char>,
    found: Seq<Seq<char>>,
    path: Seq<char>,
)
    ensures
        found.contains(path) ==> optional_gaps::<T>(doc, key, at, found).contains(path),
{
    optional_law::<T>(doc, key, at, found);
    keeps(
        optional_parse::<T>(doc, key) is Some,
        found,
        optional_gaps::<T>(doc, key, at, found),
        path,
    );
}

/// Decoding a value whose fields stand beside those already decoded keeps
/// every path noted before, and notes the path of a field that the value
/// needs and the document lacks.
pub proof fn beside_keeps<T: Decode>(
    doc: Doc,
    at: Seq<char>,
    found: Seq<Seq<char>>,
    path: Seq<char>,
    key: Seq<char>,
)
    ensures
        found.contains(path) ==> T::gaps(doc, at, found).contains(path),
        T::needs(doc, key) && doc.member(key) is None ==> T::gaps(doc, at, found).contains(
            field_path(at, key),
        ),
{
    T::gaps_law(doc, at, found);
    keeps(T::parse(doc) is Some, found, T::gaps(doc, at, found), path);
    T::absent_is_noted(doc, at, found, key);
}

/// Decoding a value whose fields stand beside those already decoded, after
/// steps that settled.
pub proof fn beside_step<T: Decode>(
    doc: Doc,
    at: Seq<char>,
    fits: bool,
    start: Seq<Seq<char>>,
    found: Seq<Seq<char>>,
)
    requires
        settles(fits, start, found),
    ensures
        settles(fits && T::parse(doc) is Some, start, T::gaps(doc, at, found)),
{
    T::gaps_law(doc, at, found);
    settles_chain(fits, T::parse(doc) is Some, start, found, T::gaps(doc, at, found));
}

/// Decodes the field `key` of `value`, which may be left out or null.
pub fn optional<T: Decode>(value: &Value, key: &str, at: &str, gaps: &mut Vec<String>) -> (r:
    Option<Option<T>>)
    ensures
        r.deep_view() == optional_parse::<T>(doc_of(*value), key@),
        final(gaps).deep_view() == optional_gaps::<T>(
            doc_of(*value),
            key@,
            at@,
            old(gaps).deep_view(),
        ),
{
    match member(value, key) {
        Some(inner) => {
            if inner.is_null() {
                Some(None)
            } else {
                let path = field_path_text(at, key);
                match T::decode(inner, path.as_str(), gaps) {
                    Some(item) => Some(Some(item)),
                    None => None,
                }
            }
        },
        None => Some(None),
    }
}

impl Decode for String {
    open spec fn parse(doc: Doc) -> Option<Seq<char>> {
        match doc {
            Doc::Text(text) => Some(text),
            _ => None,
        }
    }

    open spec fn gaps(doc: Doc, at: Seq<char>, found: Seq<Seq<char>>) -> Seq<Seq<char>> {
        note(Self::parse(doc) is Some, at, found)
    }

    open spec fn needs(doc: Doc, key: Seq<char>) -> bool {
        false
    }

    proof fn gaps_law(doc: Doc, at: Seq<char>, found: Seq<Seq<char>>) {
        note_settles(Self::parse(doc) is Some, at, found);
    }

    proof fn absent_is_noted(doc: Doc, at: Seq<char>, found: Seq<Seq<char>>, key: Seq<char>) {
    }

    fn decode(value: &Value, at: &str, gaps: &mut Vec<String>) -> (r: Option<Self>) {
        match value.as_str() {
            Some(text) => Some(text.to_owned()),
            None => {
                mark(gaps, at.to_owned());
                None
            },
        }
    }
}

impl Decode for bool {
    open spec fn parse(doc: Doc) -> Option<bool> {
        match doc {
            Doc::Bool(b) => Some(b),
            _ => None,
        }
    }

    open spec fn gaps(doc: Doc, at: Seq<char>, found: Seq<Seq<char>>) -> Seq<Seq<char>> {
        note(Self::parse(doc) is Some, at, found)
    }

    open spec fn needs(doc: Doc, key: Seq<char>) -> bool {
        false
    }

    proof fn gaps_law(doc: Doc, at: Seq<char>, found: Seq<Seq<char>>) {
        note_settles(Self::parse(doc) is Some, at, found);
    }

    proof fn absent_is_noted(doc: Doc, at: Seq<char>, found: Seq<Seq<char>>, key: Seq<char>) {
    }

    fn decode(value: &Value, at: &str, gaps: &mut Vec<String>) -> (r: Option<Self>) {
        match value.as_bool() {
            Some(b) => Some(b),
            None => {
                mark(gaps, at.to_owned());
                None
            },
        }
    }
}

/// The non-negative integer that `doc` holds, if it holds one that is at
/// most `max`.
pub open spec fn unsigned_up_to(doc: Doc, max: u64) -> Option<u64> {
    match doc {
        Doc::Unsigned(n) => if n <= max {
            Some(n)
        } else {
            None
        },
        _ => None,
    }
}

/// Reads the non-negative integer that `value` holds, if it holds one that
/// is at most `max`.
pub fn read_unsigned(value: &Value, max: u64) -> (r: Option<u64>)
    ensures
        r == unsigned_up_to(doc_of(*value), max),
{
    match value.as_u64() {
        Some(n) => if n <= max {
            Some(n)
        } else {
            None
        },
        None => None,
    }
}

/// Reads the integer that `value` holds, if it holds one.
pub fn read_integer(value: &Value) -> (r: Option<i128>)
    ensures
        match r {
            Some(n) => doc_of(*value).integer() == Some(n as int),
            None => doc_of(*value).integer() is None,
        },
{
    match value.as_u64() {
        Some(n) => Some(n as i128),
        None => match value.as_i64() {
            Some(n) => Some(n as i128),
            None => None,
        },
    }
}

impl Decode for u64 {
    open spec fn parse(doc: Doc) -> Option<u64> {
        unsigned_up_to(doc, u64::MAX)
    }

    open spec fn gaps(doc: Doc, at: Seq<char>, found: Seq<Seq<char>>) -> Seq<Seq<char>> {
        note(Self::parse(doc) is Some, at, found)
    }

    open spec fn needs(doc: Doc, key: Seq<char>) -> bool {
        false
    }

    proof fn gaps_law(doc: Doc, at: Seq<char>, found: Seq<Seq<char>>) {
        note_settles(Self::parse(doc) is Some, at, found);
    }

    proof fn absent_is_noted(doc: Doc, at: Seq<char>, found: Seq<Seq<char>>, key: Seq<char>) {
    }

    fn decode(value: &Value, at: &str, gaps: &mut Vec<String>) -> (r: Option<Self>) {
        match read_unsigned(value, u64::MAX) {
            Some(n) => Some(n),
            None => {
                mark(gaps, at.to_owned());
                None
            },
        }
    }
}

impl Decode for u32 {
    open spec fn parse(doc: Doc) -> Option<u32> {
        match unsigned_up_to(doc, 0xffff_ffff) {
            Some(n) => Some(n as u32),
            None => None,
        }
    }

    open spec fn gaps(doc: Doc, at: Seq<char>, found: Seq<Seq<char>>) -> Seq<Seq<char>> {
        note(Self::parse(doc) is Some, at, found)
    }

    open spec fn needs(doc: Doc, key: Seq<char>) -> bool {
        false
    }

    proof fn gaps_law(doc: Doc, at: Seq<char>, found: Seq<Seq<char>>) {
        note_settles(Self::parse(doc) is Some, at, found);
    }

    proof fn absent_is_noted(doc: Doc, at: Seq<char>, found: Seq<Seq<char>>, key: Seq<char>) {
    }

    fn decode(value: &Value, at: &str, gaps: &mut Vec<String>) -> (r: Option<Self>) {
        match read_unsigned(value, 0xffff_ffff) {
            Some(n) => Some(n as u32),
            None => {
                mark(gaps, at.to_owned());
                None
            },
        }
    }
}

impl Decode for u16 {
    open spec fn parse(doc: Doc) -> Option<u16> {
        match unsigned_up_to(doc, 0xffff) {
            Some(n) => Some(n as u16),
            None => None,
        }
    }

    open spec fn gaps(doc: Doc, at: Seq<char>, found: Seq<Seq<char>>) -> Seq<Seq<char>> {
        note(Self::parse(doc) is Some, at, found)
    }

    open spec fn needs(doc: Doc, key: Seq<char>) -> bool {
        false
    }

    proof fn gaps_law(doc: Doc, at: Seq<char>, found: Seq<Seq<char>>) {
        note_settles(Self::parse(doc) is Some, at, found);
    }

    proof fn absent_is_noted(doc: Doc, at: Seq<char>, found: Seq<Seq<char>>, key: Seq<char>) {
    }

    fn decode(value: &Value, at: &str, gaps: &mut Vec<String>) -> (r: Option<Self>) {
        match read_unsigned(value, 0xffff) {
            Some(n) => Some(n as u16),
            None => {
                mark(gaps, at.to_owned());
                None
            },
        }
    }
}

/// The paths noted after decoding the first `count` elements of a list that
/// stands at path `at`.
pub open spec fn items_gaps<T: Decode>(
    items: Seq<Doc>,
    count: nat,
    at: Seq<char>,
    found: Seq<Seq<char>>,
) -> Seq<Seq<char>>
    decreases count,
{
    if count == 0 {
        found
    } else {
        T::gaps(
            items[count - 1],
            item_path(at, (count - 1) as nat),
            items_gaps::<T>(items, (count - 1) as nat, at, found),
        )
    }
}

/// Whether each of the first `count` elements decodes as a `T`.
pub open spec fn items_fit<T: Decode>(items: Seq<Doc>, count: nat) -> bool {
    forall|i: int| 0 <= i < count ==> (#[trigger] T::parse(items[i])) is Some
}

/// [`Decode::gaps_law`] for the first `count` elements of a list.
pub proof fn items_law<T: Decode>(
    items: Seq<Doc>,
    count: nat,
    at: Seq<char>,
    found: Seq<Seq<char>>,
)
    ensures
        settles(items_fit::<T>(items, count), found, items_gaps::<T>(items, count, at, found)),
    decreases count,
{
    if count > 0 {
        let before = items_gaps::<T>(items, (count - 1) as nat, at, found);
        items_law::<T>(items, (count - 1) as nat, at, found);
        T::gaps_law(items[count - 1], item_path(at, (count - 1) as nat), before);
        settles_chain(
            items_fit::<T>(items, (count - 1) as nat),
            T::parse(items[count - 1]) is Some,
            found,
            before,
            items_gaps::<T>(items, count, at, found),
        );
        if !items_fit::<T>(items, (count - 1) as nat) {
            assert(!items_fit::<T>(items, count));
        }
    } else {
        settles_start(found);
    }
}

impl<T: Decode> Decode for Vec<T> {
    open spec fn parse(doc: Doc) -> Option<Seq<T::V>> {
        match doc {
            Doc::List(items) => if items_fit::<T>(items, items.len()) {
                Some(Seq::new(items.len(), |i: int| T::parse(items[i]).unwrap()))
            } else {
                None
            },
            _ => None,
        }
    }

    open spec fn gaps(doc: Doc, at: Seq<char>, found: Seq<Seq<char>>) -> Seq<Seq<char>> {
        match doc {
            Doc::List(items) => items_gaps::<T>(items, items.len(), at, found),
            _ => found.push(at),
        }
    }

    open spec fn needs(doc: Doc, key: Seq<char>) -> bool {
        false
    }

    proof fn gaps_law(doc: Doc, at: Seq<char>, found: Seq<Seq<char>>) {
        match doc {
            Doc::List(items) => items_law::<T>(items, items.len(), at, found),
            _ => reveal(settles),
        }
    }

    proof fn absent_is_noted(doc: Doc, at: Seq<char>, found: Seq<Seq<char>>, key: Seq<char>) {
    }

    fn decode(value: &Value, at: &str, gaps: &mut Vec<String>) -> (r: Option<Self>) {
        match value.as_array() {
            Some(items) => {
                let ghost docs = crate::document::docs_of(items@);
                let mut decoded: Vec<T> = Vec::new();
                let mut fit = true;
                let mut i: usize = 0;
                while i < items.len()
                    invariant
                        i <= items@.len(),
                        docs == crate::document::docs_of(items@),
                        gaps.deep_view() == items_gaps::<T>(
                            docs,
                            i as nat,
                            at@,
                            old(gaps).deep_view(),
                        ),
                        fit == items_fit::<T>(docs, i as nat),
                        fit ==> decoded@.len() == i,
                        fit ==> forall|j: int|
                            0 <= j < i ==> Some(decoded@[j].deep_view()) == T::parse(docs[j]),
                    decreases items@.len() - i,
                {
                    let path = item_path_text(at, i);
                    assert(docs[i as int] == doc_of(items@[i as int]));
                    match T::decode(&items[i], path.as_str(), gaps) {
                        Some(item) => {
                            assert(T::parse(docs[i as int]) is Some);
                            if fit {
                                decoded.push(item);
                            }
                        },
                        None => {
                            assert(T::parse(docs[i as int]) is None);
                            fit = false;
                        },
                    }
                    i += 1;
                }
                if fit {
                    assert(decoded.deep_view() =~= Self::parse(doc_of(*value)).unwrap());
                    Some(decoded)
                } else {
                    None
                }
            },
            None => {
                mark(gaps, at.to_owned());
                None
            },
        }
    }
}

/// What decoding a payload as a `T` comes to: the decoded value, or a shape
/// mismatch that names `context` and the path of every value that is absent
/// or misshapen. `at` is the path under which the payload itself is
/// reported.
#[verifier::opaque]
pub open spec fn payload_outcome<T: Decode>(doc: Doc, context: Seq<char>, at: Seq<char>) -> Result<
    T::V,
    DecodeErrorModel,
> {
    match T::parse(doc) {
        Some(model) => Ok(model),
        None => Err(
            DecodeErrorModel::PayloadShapeMismatch {
                event_name: context,
                missing_fields: T::gaps(doc, at, Seq::empty()),
            },
        ),
    }
}

/// Decodes a payload as a `T`, reporting every absent or misshapen value at
/// once where it cannot.
pub fn decode_payload<T: Decode>(raw: &Value, context: &str, at: &str) -> (r: Result<
    T,
    DecodeError,
>)
    ensures
        outcome_model(r) == payload_outcome::<T>(doc_of(*raw), context@, at@),
{
    reveal(payload_outcome);
    let mut gaps: Vec<String> = Vec::new();
    assert(gaps.deep_view() =~= Seq::empty());
    match T::decode(raw, at, &mut gaps) {
        Some(decoded) => Ok(decoded),
        None => Err(
            DecodeError::PayloadShapeMismatch {
                event_name: context.to_owned(),
                missing_fields: gaps,
            },
        ),
    }
}

/// A payload decodes exactly when no path is noted for it, and then to what
/// [`Decode::parse`] says; a shape mismatch names at least one path.
pub proof fn payload_decodes_when_nothing_lacks<T: Decode>(
    doc: Doc,
    context: Seq<char>,
    at: Seq<char>,
)
    ensures
        payload_outcome::<T>(doc, context, at) is Ok <==> T::gaps(doc, at, Seq::empty()).len()
            == 0,
        payload_outcome::<T>(doc, context, at) matches Ok(model) ==> T::parse(doc) == Some(model),
        payload_outcome::<T>(doc, context, at) matches Err(
            DecodeErrorModel::PayloadShapeMismatch { missing_fields, .. },
        ) ==> missing_fields.len() > 0,
{
    reveal(payload_outcome);
    T::gaps_law(doc, at, Seq::empty());
    settles_means(T::parse(doc) is Some, Seq::empty(), T::gaps(doc, at, Seq::empty()));
}

/// Where the payload lacks a field that its type needs, decoding fails with
/// a shape mismatch that names `context` and that field.
pub proof fn payload_names_absent_field<T: Decode>(doc: Doc, context: Seq<char>, key: Seq<char>)
    requires
        T::needs(doc, key),
        doc.member(key) is None,
    ensures
        payload_outcome::<T>(doc, context, ""@) matches Err(
            DecodeErrorModel::PayloadShapeMismatch { event_name, missing_fields },
        ) && event_name == context && missing_fields.contains(key),
{
    reveal(payload_outcome);
    reveal_strlit("");
    let noted = T::gaps(doc, ""@, Seq::empty());
    T::absent_is_noted(doc, ""@, Seq::empty(), key);
    T::gaps_law(doc, ""@, Seq::empty());
    settles_means(T::parse(doc) is Some, Seq::empty(), noted);
    assert(field_path(""@, key) == key);
}

} // verus!
