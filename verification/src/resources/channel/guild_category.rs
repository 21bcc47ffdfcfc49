use crate::resources::channel::ChannelId;
use crate::resources::guild::GuildId;
use crate::resources::message::MessageId;
use vstd::prelude::*;

verus! {

/// An organisational category that contains channels.
#[derive(Clone, Debug, PartialEq, Eq)]
pub struct GuildCategoryChannel {
    /// The id of this channel.
    pub id: ChannelId,
    /// The id of the guild.
    pub guild_id: GuildId,
    /// Sorting position of the channel.
    pub position: u32,
    /// The name of the channel.
    ///
    /// (2-100 characters)
    pub name: String,
    /// Whether the channel is nsfw or not.
    pub nsfw: bool,
    /// Id of the parent catergory for a channel.
    pub parent_id: Option<MessageId>,
}

/// The model of a [`GuildCategoryChannel`]: the same fields, each by its model.
pub ghost struct GuildCategoryChannelModel {
    pub id: Seq<char>,
    pub guild_id: Seq<char>,
    pub position: u32,
    pub name: Seq<char>,
    pub nsfw: bool,
    pub parent_id: Option<Seq<char>>,
}

impl DeepView for GuildCategoryChannel {
    type V = GuildCategoryChannelModel;

    open spec fn deep_view(&self) -> GuildCategoryChannelModel {
        GuildCategoryChannelModel {
            id: self.id.deep_view(),
            guild_id: self.guild_id.deep_view(),
            position: self.position.deep_view(),
            name: self.name.deep_view(),
            nsfw: self.nsfw.deep_view(),
            parent_id: self.parent_id.deep_view(),
        }
    }
}

} // verus!
