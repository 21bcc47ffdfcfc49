use crate::resources::channel::ChannelId;
use crate::resources::guild::GuildId;
use crate::resources::message::MessageId;
use crate::time::Timestamp;
use vstd::prelude::*;

verus! {

/// A text channel within a server.
#[derive(Clone, Debug, PartialEq, Eq)]
pub struct GuildTextChannel {
    /// The id of this channel.
    pub id: ChannelId,
    /// The id of the guild.
    pub guild_id: GuildId,
    /// Sorting position of the channel.
    pub position: u32,
    /// The name of the channel.
    ///
    /// (2-100 characters)
    pub name: String,
    /// The topic of the channel.
    ///
    /// (0-1024 characters)
    pub topic: String,
    /// Whether the channel is nsfw or not.
    pub nsfw: bool,
    /// The id of the last message sent in this channel.
    ///
    /// May not point to an existing or valid message)
    pub last_message_id: Option<MessageId>,
    /// Amount of seconds a user has to wait before sending another message.
    ///
    /// Value between 0 and 21600.
    ///
    /// Bots and Users with the permission ``manage_messages`` or ``manage_channel`` are unafected.
    pub rate_limit_per_user: u16,
    /// Id of the parent category for a channel.
    pub parent_id: Option<MessageId>,
    /// When the last pinned message was pinned.
    pub last_pin_timestamp: Option<Timestamp>,
}

/// The model of a [`GuildTextChannel`]: the same fields, each by its model.
pub ghost struct GuildTextChannelModel {
    pub id: Seq<char>,
    pub guild_id: Seq<char>,
    pub position: u32,
    pub name: Seq<char>,
    pub topic: Seq<char>,
    pub nsfw: bool,
    pub last_message_id: Option<Seq<char>>,
    pub rate_limit_per_user: u16,
    pub parent_id: Option<Seq<char>>,
    pub last_pin_timestamp: Option<Timestamp>,
}

impl DeepView for GuildTextChannel {
    type V = GuildTextChannelModel;

    open spec fn deep_view(&self) -> GuildTextChannelModel {
        GuildTextChannelModel {
            id: self.id.deep_view(),
            guild_id: self.guild_id.deep_view(),
            position: self.position.deep_view(),
            name: self.name.deep_view(),
            topic: self.topic.deep_view(),
            nsfw: self.nsfw.deep_view(),
            last_message_id: self.last_message_id.deep_view(),
            rate_limit_per_user: self.rate_limit_per_user.deep_view(),
            parent_id: self.parent_id.deep_view(),
            last_pin_timestamp: self.last_pin_timestamp.deep_view(),
        }
    }
}

} // verus!
