//! Instants in time, as the wire carries them.

use crate::decode::{mark, note, note_settles, Decode};
use crate::document::Doc;
use serde_json::Value;
use vstd::prelude::*;

verus! {

/// An instant in UTC: the whole seconds since the Unix epoch and the
/// nanoseconds within that second, as `chrono` counts them for a
/// `DateTime<Utc>`.
#[derive(Clone, Copy, Debug, PartialEq, Eq)]
pub struct Timestamp {
    /// Whole seconds since 1970-01-01T00:00:00Z; negative before it.
    pub seconds: i64,
    /// Nanoseconds since the last whole second.
    pub nanos: u32,
}

impl DeepView for Timestamp {
    type V = Timestamp;

    open spec fn deep_view(&self) -> Timestamp {
        *self
    }
}

/// The instant that `chrono` reads from `text`, or `None` where `chrono`
/// does not accept `text` as a date and time.
pub uninterp spec fn instant_of(text: Seq<char>) -> Option<Timestamp>;

/// Parses `text` as `chrono` parses a `DateTime<Utc>` from a string (RFC 3339
/// with some leniency, converted to UTC), and hands the instant back as
/// seconds and nanoseconds (`DateTime::timestamp` and
/// `DateTime::timestamp_subsec_nanos`). The result depends on `text` alone.
#[verifier::external_body]
pub(crate) fn parse_instant(text: &str) -> (r: Option<Timestamp>)
    ensures
        r == instant_of(text@),
{
    match text.parse::<chrono::DateTime<chrono::Utc>>() {
        Ok(instant) => Some(
            Timestamp { seconds: instant.timestamp(), nanos: instant.timestamp_subsec_nanos() },
        ),
        Err(_) => None,
    }
}

impl Decode for Timestamp {
    open spec fn parse(doc: Doc) -> Option<Timestamp> {
        match doc {
            Doc::Text(text) => instant_of(text),
            _ => None,
        }
    }

    open spec fn gaps(doc: Doc, at: Seq<char>, found: Seq<Seq<char>>) -> Seq<Seq<char>> {
        note(Self::parse(doc) is Some, at, found)
    }

    open spec fn needs(doc: Doc, key: Seq<char>) -> bool {
        false
    }

    proof fn gaps_law(doc: Doc, at: Seq<char>, found: Seq<Seq<char>>) {
        note_settles(Self::parse(doc) is Some, at, found);
    }

    proof fn absent_is_noted(doc: Doc, at: Seq<char>, found: Seq<Seq<char>>, key: Seq<char>) {
    }

    fn decode(value: &Value, at: &str, gaps: &mut Vec<String>) -> (r: Option<Self>) {
        let found = match value.as_str() {
            Some(text) => parse_instant(text),
            None => None,
        };
        if found.is_none() {
            mark(gaps, at.to_owned());
        }
        found
    }
}

} // verus!
