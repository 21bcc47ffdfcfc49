use crate::decode::{
    optional, optional_gaps, optional_keeps, optional_parse, optional_step, required, required_gaps,
    required_keeps, required_parse, required_step, settles_start, Decode,
};
use crate::document::Doc;
use crate::path::field_path;
use crate::resources::channel::ChannelId;
use crate::resources::guild::GuildId;
use crate::time::Timestamp;
use serde_json::Value;
use vstd::prelude::*;

verus! {

/// Sent when a message is pinned or unpinned.
///
/// Not sent when a pinned message is deleted.
#[derive(Clone, Debug, PartialEq, Eq)]
pub struct ChannelPinsUpdate {
    /// The guild id which contains the channel.
    pub guild_id: Option<GuildId>,
    /// The if of the channel where the pins change.
    pub channel_id: ChannelId,
    /// The timestamp of the last pin.
    pub last_pin_timestamp: Option<Timestamp>,
}

/// The model of a [`ChannelPinsUpdate`]: the same fields, each by its model.
pub ghost struct ChannelPinsUpdateModel {
    pub guild_id: Option<Seq<char>>,
    pub channel_id: Seq<char>,
    pub last_pin_timestamp: Option<Timestamp>,
}

impl DeepView for ChannelPinsUpdate {
    type V = ChannelPinsUpdateModel;

    open spec fn deep_view(&self) -> ChannelPinsUpdateModel {
        ChannelPinsUpdateModel {
            guild_id: self.guild_id.deep_view(),
            channel_id: self.channel_id.deep_view(),
            last_pin_timestamp: self.last_pin_timestamp.deep_view(),
        }
    }
}

impl Decode for ChannelPinsUpdate {
    open spec fn parse(doc: Doc) -> Option<ChannelPinsUpdateModel> {
        if {
            &&& optional_parse::<GuildId>(doc, "guild_id"@) is Some
            &&& required_parse::<ChannelId>(doc, "channel_id"@) is Some
            &&& optional_parse::<Timestamp>(doc, "last_pin_timestamp"@) is Some
        } {
            Some(
                ChannelPinsUpdateModel {
                    guild_id: optional_parse::<GuildId>(doc, "guild_id"@).unwrap(),
                    channel_id: required_parse::<ChannelId>(doc, "channel_id"@).unwrap(),
                    last_pin_timestamp: optional_parse::<Timestamp>(
                        doc,
                        "last_pin_timestamp"@,
                    ).unwrap(),
                },
            )
        } else {
            None
        }
    }

    open spec fn gaps(doc: Doc, at: Seq<char>, found: Seq<Seq<char>>) -> Seq<Seq<char>> {
        let found = optional_gaps::<GuildId>(doc, "guild_id"@, at, found);
        let found = required_gaps::<ChannelId>(doc, "channel_id"@, at, found);
        let found = optional_gaps::<Timestamp>(doc, "last_pin_timestamp"@, at, found);
        found
    }

    open spec fn needs(doc: Doc, key: Seq<char>) -> bool {
        key == "channel_id"@
    }

    proof fn gaps_law(doc: Doc, at: Seq<char>, found: Seq<Seq<char>>) {
        let start = found;
        settles_start(start);
        optional_step::<GuildId>(doc, "guild_id"@, at, true, start, found);
        let fits = optional_parse::<GuildId>(doc, "guild_id"@) is Some;
        let found = optional_gaps::<GuildId>(doc, "guild_id"@, at, found);
        required_step::<ChannelId>(doc, "channel_id"@, at, fits, start, found);
        let fits = fits && required_parse::<ChannelId>(doc, "channel_id"@) is Some;
        let found = required_gaps::<ChannelId>(doc, "channel_id"@, at, found);
        optional_step::<Timestamp>(doc, "last_pin_timestamp"@, at, fits, start, found);
    }

    proof fn absent_is_noted(doc: Doc, at: Seq<char>, found: Seq<Seq<char>>, key: Seq<char>) {
        let path = field_path(at, key);
        optional_keeps::<GuildId>(doc, "guild_id"@, at, found, path);
        let found = optional_gaps::<GuildId>(doc, "guild_id"@, at, found);
        required_keeps::<ChannelId>(doc, "channel_id"@, at, found, path);
        let found = required_gaps::<ChannelId>(doc, "channel_id"@, at, found);
        optional_keeps::<Timestamp>(doc, "last_pin_timestamp"@, at, found, path);
    }

    fn decode(raw: &Value, at: &str, gaps: &mut Vec<String>) -> (r: Option<Self>) {
        let guild_id = optional::<GuildId>(raw, "guild_id", at, gaps);
        let channel_id = required::<ChannelId>(raw, "channel_id", at, gaps);
        let last_pin_timestamp = optional::<Timestamp>(raw, "last_pin_timestamp", at, gaps);
        if guild_id.is_some()
            && channel_id.is_some()
            && last_pin_timestamp.is_some() {
            Some(
                ChannelPinsUpdate {
                    guild_id: guild_id.unwrap(),
                    channel_id: channel_id.unwrap(),
                    last_pin_timestamp: last_pin_timestamp.unwrap(),
                },
            )
        } else {
            None
        }
    }
}

} // verus!
