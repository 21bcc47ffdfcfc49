use crate::document::{record_value, Doc};
use crate::encode::Encode;
use serde_json::Value;
use vstd::prelude::*;

verus! {

/// Sent when a client wants to join, move, or disconnect from a voice channel.
#[derive(Clone, Debug, PartialEq, Eq)]
pub struct VoiceStateUpdate {
    /// Id of the guild, sent under the name `guid_id`.
    pub guid_id: String,
    /// Id of the channel client wants to join (none if disconnecting).
    pub channel_id: Option<String>,
    /// Is the client muted?
    pub self_mute: bool,
    /// Is the client deafened?
    pub self_deaf: bool,
}

impl Encode for VoiceStateUpdate {
    open spec fn doc(&self) -> Doc {
        Doc::Record(
            Map::empty()
                .insert("guid_id"@, self.guid_id.doc())
                .insert("channel_id"@, self.channel_id.doc())
                .insert("self_mute"@, self.self_mute.doc())
                .insert("self_deaf"@, self.self_deaf.doc()),
        )
    }

    fn encode(&self) -> (r: Value) {
        let mut entries = serde_json::Map::new();
        entries.insert("guid_id".to_owned(), self.guid_id.encode());
        entries.insert("channel_id".to_owned(), self.channel_id.encode());
        entries.insert("self_mute".to_owned(), self.self_mute.encode());
        entries.insert("self_deaf".to_owned(), self.self_deaf.encode());
        record_value(entries)
    }
}

} // verus!
