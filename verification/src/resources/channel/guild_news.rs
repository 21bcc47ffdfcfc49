use crate::resources::channel::ChannelId;
use crate::resources::guild::GuildId;
use crate::resources::message::MessageId;
use crate::time::Timestamp;
use vstd::prelude::*;

verus! {

/// A channel that users can follow and crosspost into their own server.
#[derive(Clone, Debug, PartialEq, Eq)]
pub struct GuildNewsChannel {
    /// The id of this channel.
    pub id: ChannelId,
    /// The id of the guild.
    pub guild_id: GuildId,
    /// Sorting position of the channel.
    pub position: u32,
    /// The name of the channel.
    ///
    /// (2-100 characters)
    pub name: String,
    /// The topic of the channel.
    ///
    /// (0-1024 characters)
    pub topic: String,
    /// Whether the channel is nsfw or not.
    pub nsfw: bool,
    /// The id of the last message sent in this channel.
    ///
    /// May not point to an existing or valid message)
    pub last_message_id: Option<MessageId>,
    /// Id of the parent catergory for a channel.
    pub parent_id: Option<MessageId>,
    /// When the last pinned message was pinned.
    pub last_pin_timestamp: Option<Timestamp>,
}

/// The model of a [`GuildNewsChannel`]: the same fields, each by its model.
pub ghost struct GuildNewsChannelModel {
    pub id: Seq<char>,
    pub guild_id: Seq<char>,
    pub position: u32,
    pub name: Seq<char>,
    pub topic: Seq<char>,
    pub nsfw: bool,
    pub last_message_id: Option<Seq<char>>,
    pub parent_id: Option<Seq<char>>,
    pub last_pin_timestamp: Option<Timestamp>,
}

impl DeepView for GuildNewsChannel {
    type V = GuildNewsChannelModel;

    open spec fn deep_view(&self) -> GuildNewsChannelModel {
        GuildNewsChannelModel {
            id: self.id.deep_view(),
            guild_id: self.guild_id.deep_view(),
            position: self.position.deep_view(),
            name: self.name.deep_view(),
            topic: self.topic.deep_view(),
            nsfw: self.nsfw.deep_view(),
            last_message_id: self.last_message_id.deep_view(),
            parent_id: self.parent_id.deep_view(),
            last_pin_timestamp: self.last_pin_timestamp.deep_view(),
        }
    }
}

} // verus!
