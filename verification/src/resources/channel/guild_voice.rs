use crate::resources::channel::ChannelId;
use crate::resources::guild::GuildId;
use crate::resources::message::MessageId;
use vstd::prelude::*;

verus! {

/// A voice channel within a server.
#[derive(Clone, Debug, PartialEq, Eq)]
pub struct GuildVoiceChannel {
    /// The id of this channel.
    pub id: ChannelId,
    /// The id of the guild.
    pub guild_id: GuildId,
    /// Sorting position of the channel.
    pub position: u32,
    /// The name of the channel.
    ///
    /// (2-100 characters)
    pub name: String,
    /// Whether the channel is nsfw or not.
    pub nsfw: bool,
    /// Id of the parent catergory for a channel.
    pub parent_id: Option<MessageId>,
    /// The bitrate (in bits) of the voice channel.
    pub bitrate: u32,
    /// The user limit of the voice channel.
    pub user_limit: u32,
}

/// The model of a [`GuildVoiceChannel`]: the same fields, each by its model.
pub ghost struct GuildVoiceChannelModel {
    pub id: Seq<char>,
    pub guild_id: Seq<char>,
    pub position: u32,
    pub name: Seq<char>,
    pub nsfw: bool,
    pub parent_id: Option<Seq<char>>,
    pub bitrate: u32,
    pub user_limit: u32,
}

impl DeepView for GuildVoiceChannel {
    type V = GuildVoiceChannelModel;

    open spec fn deep_view(&self) -> GuildVoiceChannelModel {
        GuildVoiceChannelModel {
            id: self.id.deep_view(),
            guild_id: self.guild_id.deep_view(),
            position: self.position.deep_view(),
            name: self.name.deep_view(),
            nsfw: self.nsfw.deep_view(),
            parent_id: self.parent_id.deep_view(),
            bitrate: self.bitrate.deep_view(),
            user_limit: self.user_limit.deep_view(),
        }
    }
}

} // verus!
