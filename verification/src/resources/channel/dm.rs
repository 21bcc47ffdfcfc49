use crate::resources::channel::ChannelId;
use crate::resources::message::MessageId;
use crate::time::Timestamp;
use vstd::prelude::*;

verus! {

/// A direct message between users.
#[derive(Clone, Debug, PartialEq, Eq)]
pub struct DMChannel {
    /// The id of this channel.
    pub id: ChannelId,
    /// The id of the last message sent in this channel.
    ///
    /// May not point to an existing or valid message)
    pub last_message_id: Option<MessageId>,
    /// When the last pinned message was pinned.
    pub last_pin_timestamp: Option<Timestamp>,
}

/// The model of a [`DMChannel`]: the same fields, each by its model.
pub ghost struct DMChannelModel {
    pub id: Seq<char>,
    pub last_message_id: Option<Seq<char>>,
    pub last_pin_timestamp: Option<Timestamp>,
}

impl DeepView for DMChannel {
    type V = DMChannelModel;

    open spec fn deep_view(&self) -> DMChannelModel {
        DMChannelModel {
            id: self.id.deep_view(),
            last_message_id: self.last_message_id.deep_view(),
            last_pin_timestamp: self.last_pin_timestamp.deep_view(),
        }
    }
}

} // verus!
