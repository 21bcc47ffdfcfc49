use crate::document::{record_value, Doc};
use crate::encode::Encode;
use serde_json::Value;
use vstd::prelude::*;

verus! {

/// Used to replay missed events when a disconnected client resumes.
#[derive(Clone, Debug, PartialEq, Eq)]
pub struct Resume {
    /// Session token.
    pub token: String,
    /// Session id.
    pub session_id: String,
    /// Last sequence number received.
    pub seq: u32,
}

impl Encode for Resume {
    open spec fn doc(&self) -> Doc {
        Doc::Record(
            Map::empty()
                .insert("token"@, self.token.doc())
                .insert("session_id"@, self.session_id.doc())
                .insert("seq"@, self.seq.doc()),
        )
    }

    fn encode(&self) -> (r: Value) {
        let mut entries = serde_json::Map::new();
        entries.insert("token".to_owned(), self.token.encode());
        entries.insert("session_id".to_owned(), self.session_id.encode());
        entries.insert("seq".to_owned(), self.seq.encode());
        record_value(entries)
    }
}

} // verus!
