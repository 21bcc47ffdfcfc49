use crate::resources::channel::ChannelId;
use crate::resources::message::MessageId;
use crate::resources::user::UserId;
use crate::time::Timestamp;
use vstd::prelude::*;

verus! {

/// A direct message between multiple users.
#[derive(Clone, Debug, PartialEq, Eq)]
pub struct GroupDMChannel {
    /// The id of this channel.
    pub id: ChannelId,
    /// Sorting position of the channel. Group direct messages are not sorted
    /// among a guild's channels, so this is usually not given.
    pub position: Option<u32>,
    /// The name of the channel.
    ///
    /// (2-100 characters)
    pub name: String,
    /// Icon hash.
    pub icon: Option<String>,
    /// The id of the last message sent in this channel.
    ///
    /// May not point to an existing or valid message)
    pub last_message_id: Option<MessageId>,
    /// Id of the DM creator.
    pub owner_id: UserId,
    /// When the last pinned message was pinned.
    pub last_pin_timestamp: Option<Timestamp>,
}

/// The model of a [`GroupDMChannel`]: the same fields, each by its model.
pub ghost struct GroupDMChannelModel {
    pub id: Seq<char>,
    pub position: Option<u32>,
    pub name: Seq<char>,
    pub icon: Option<Seq<char>>,
    pub last_message_id: Option<Seq<char>>,
    pub owner_id: Seq<char>,
    pub last_pin_timestamp: Option<Timestamp>,
}

impl DeepView for GroupDMChannel {
    type V = GroupDMChannelModel;

    open spec fn deep_view(&self) -> GroupDMChannelModel {
        GroupDMChannelModel {
            id: self.id.deep_view(),
            position: self.position.deep_view(),
            name: self.name.deep_view(),
            icon: self.icon.deep_view(),
            last_message_id: self.last_message_id.deep_view(),
            owner_id: self.owner_id.deep_view(),
            last_pin_timestamp: self.last_pin_timestamp.deep_view(),
        }
    }
}

} // verus!
