use crate::decode::{
    required, required_gaps, required_keeps, required_parse, required_step, settles_start, Decode,
};
use crate::document::Doc;
use crate::path::field_path;
use serde_json::Value;
use vstd::prelude::*;

verus! {

/// Returned when client connects to gateway.
#[derive(Clone, Debug, PartialEq, Eq)]
pub struct Hello {
    /// The interval (in milliseconds) between heartbeats that the client should be sending to the
    /// server.
    pub heartbeat_interval: u16,
}

/// The model of a [`Hello`]: the same fields, each by its model.
pub ghost struct HelloModel {
    pub heartbeat_interval: u16,
}

impl DeepView for Hello {
    type V = HelloModel;

    open spec fn deep_view(&self) -> HelloModel {
        HelloModel {
            heartbeat_interval: self.heartbeat_interval.deep_view(),
        }
    }
}

impl Decode for Hello {
    open spec fn parse(doc: Doc) -> Option<HelloModel> {
        if {
            &&& required_parse::<u16>(doc, "heartbeat_interval"@) is Some
        } {
            Some(
                HelloModel {
                    heartbeat_interval: required_parse::<u16>(doc, "heartbeat_interval"@).unwrap(),
                },
            )
        } else {
            None
        }
    }

    open spec fn gaps(doc: Doc, at: Seq<char>, found: Seq<Seq<char>>) -> Seq<Seq<char>> {
        let found = required_gaps::<u16>(doc, "heartbeat_interval"@, at, found);
        found
    }

    open spec fn needs(doc: Doc, key: Seq<char>) -> bool {
        key == "heartbeat_interval"@
    }

    proof fn gaps_law(doc: Doc, at: Seq<char>, found: Seq<Seq<char>>) {
        let start = found;
        settles_start(start);
        required_step::<u16>(doc, "heartbeat_interval"@, at, true, start, found);
    }

    proof fn absent_is_noted(doc: Doc, at: Seq<char>, found: Seq<Seq<char>>, key: Seq<char>) {
        let path = field_path(at, key);
        required_keeps::<u16>(doc, "heartbeat_interval"@, at, found, path);
    }

    fn decode(raw: &Value, at: &str, gaps: &mut Vec<String>) -> (r: Option<Self>) {
        let heartbeat_interval = required::<u16>(raw, "heartbeat_interval", at, gaps);
        if heartbeat_interval.is_some() {
            Some(
                Hello {
                    heartbeat_interval: heartbeat_interval.unwrap(),
                },
            )
        } else {
            None
        }
    }
}

} // verus!
