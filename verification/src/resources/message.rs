use crate::decode::{
    mark, note, note_settles, optional, optional_gaps, optional_keeps, optional_parse,
    optional_step, read_unsigned, required, required_gaps, required_keeps, required_parse,
    required_step, settles_start, Decode,
};
use crate::document::{member, Doc};
use crate::path::field_path;
use crate::resources::attachment::{Attachment, AttachmentModel};
use crate::resources::channel::{ChannelId, ChannelType};
use crate::resources::embed::{Embed, EmbedModel};
use crate::resources::emoji::{Emoji, EmojiModel};
use crate::resources::guild::GuildId;
use crate::resources::role::RoleId;
use crate::resources::user::{User, UserModel};
use crate::time::Timestamp;
use serde_json::Value;
use vstd::prelude::*;

verus! {

/// A snowflake if of a message.
#[derive(Clone, Debug, PartialEq, Eq)]
pub struct MessageId(pub String);

impl DeepView for MessageId {
    type V = Seq<char>;

    open spec fn deep_view(&self) -> Seq<char> {
        self.0@
    }
}

impl Decode for MessageId {
    open spec fn parse(doc: Doc) -> Option<Seq<char>> {
        String::parse(doc)
    }

    open spec fn gaps(doc: Doc, at: Seq<char>, found: Seq<Seq<char>>) -> Seq<Seq<char>> {
        String::gaps(doc, at, found)
    }

    open spec fn needs(doc: Doc, key: Seq<char>) -> bool {
        false
    }

    proof fn gaps_law(doc: Doc, at: Seq<char>, found: Seq<Seq<char>>) {
        String::gaps_law(doc, at, found);
    }

    proof fn absent_is_noted(doc: Doc, at: Seq<char>, found: Seq<Seq<char>>, key: Seq<char>) {
    }

    fn decode(value: &Value, at: &str, gaps: &mut Vec<String>) -> (r: Option<Self>) {
        match String::decode(value, at, gaps) {
            Some(token) => Some(MessageId(token)),
            None => None,
        }
    }
}

/// Represents a Discord message.
#[derive(Clone, Debug, PartialEq, Eq)]
pub struct Message {
    /// Id of the message.
    pub id: MessageId,
    /// Id of the channel the message was sent in.
    pub channel_id: ChannelId,
    /// Id of the guild the message was sent in.
    pub guild_id: Option<GuildId>,
    /// The author of this message.
    ///
    /// If there is a webhook id, then the id is not of an actual author
    /// but instead the id of a webhook.
    pub author: User,
    /// The content of the message.
    pub content: String,
    /// When this message was sent.
    pub timestamp: Timestamp,
    /// When this message was edited.
    ///
    /// `None` if it was never edited.
    pub edited_timestamp: Option<Timestamp>,
    /// Whether this was a TTS message.
    pub tts: bool,
    /// Whether this message mentions everyone.
    pub mention_everyone: bool,
    /// Roles specifically mentioned in this message.
    pub mention_roles: Vec<RoleId>,
    /// Channels specifically mentioned in this message.
    ///
    /// Not all channel mentions in a message will appear in mention_channels.
    /// Only textual channels that are visible to everyone in a lurkable guild will ever be
    /// included.
    /// Only crossposted messages (via Channel Following) currently include mention_channels at all.
    pub mention_channels: Vec<ChannelMention>,
    /// Any attached files.
    pub attachments: Vec<Attachment>,
    /// Any embedded content.
    pub embeds: Vec<Embed>,
    /// Reactions to the message.
    pub reactions: Vec<Emoji>,
    /// Used for validating a message was sent.
    pub nonce: Option<Nonce>,
    /// Whether this message is pinned.
    pub pinned: bool,
    /// The type of message.
    pub type_: MessageType,
    /// Sent with Rich-Presence related chat embeds.
    pub activity: Option<MessageActivity>,
    /// Sent with Rich Presence-related chat embeds
    pub application: Option<MessageApplication>,
    /// Reference data sent with crossposted messages.
    pub message_reference: Option<MessageReference>,
}

/// The model of a [`Message`]: the same fields, each by its model.
pub ghost struct MessageModel {
    pub id: Seq<char>,
    pub channel_id: Seq<char>,
    pub guild_id: Option<Seq<char>>,
    pub author: UserModel,
    pub content: Seq<char>,
    pub timestamp: Timestamp,
    pub edited_timestamp: Option<Timestamp>,
    pub tts: bool,
    pub mention_everyone: bool,
    pub mention_roles: Seq<Seq<char>>,
    pub mention_channels: Seq<ChannelMentionModel>,
    pub attachments: Seq<AttachmentModel>,
    pub embeds: Seq<EmbedModel>,
    pub reactions: Seq<EmojiModel>,
    pub nonce: Option<NonceModel>,
    pub pinned: bool,
    pub type_: MessageType,
    pub activity: Option<MessageActivityModel>,
    pub application: Option<MessageApplicationModel>,
    pub message_reference: Option<MessageReferenceModel>,
}

impl DeepView for Message {
    type V = MessageModel;

    open spec fn deep_view(&self) -> MessageModel {
        MessageModel {
            id: self.id.deep_view(),
            channel_id: self.channel_id.deep_view(),
            guild_id: self.guild_id.deep_view(),
            author: self.author.deep_view(),
            content: self.content.deep_view(),
            timestamp: self.timestamp.deep_view(),
            edited_timestamp: self.edited_timestamp.deep_view(),
            tts: self.tts.deep_view(),
            mention_everyone: self.mention_everyone.deep_view(),
            mention_roles: self.mention_roles.deep_view(),
            mention_channels: self.mention_channels.deep_view(),
            attachments: self.attachments.deep_view(),
            embeds: self.embeds.deep_view(),
            reactions: self.reactions.deep_view(),
            nonce: self.nonce.deep_view(),
            pinned: self.pinned.deep_view(),
            type_: self.type_.deep_view(),
            activity: self.activity.deep_view(),
            application: self.application.deep_view(),
            message_reference: self.message_reference.deep_view(),
        }
    }
}

impl Decode for Message {
    open spec fn parse(doc: Doc) -> Option<MessageModel> {
        if {
            &&& required_parse::<MessageId>(doc, "id"@) is Some
            &&& required_parse::<ChannelId>(doc, "channel_id"@) is Some
            &&& optional_parse::<GuildId>(doc, "guild_id"@) is Some
            &&& required_parse::<User>(doc, "author"@) is Some
            &&& required_parse::<String>(doc, "content"@) is Some
            &&& required_parse::<Timestamp>(doc, "timestamp"@) is Some
            &&& optional_parse::<Timestamp>(doc, "edited_timestamp"@) is Some
            &&& required_parse::<bool>(doc, "tts"@) is Some
            &&& required_parse::<bool>(doc, "mention_everyone"@) is Some
            &&& required_parse::<Vec<RoleId>>(doc, "mention_roles"@) is Some
            &&& required_parse::<Vec<ChannelMention>>(doc, "mention_channels"@) is Some
            &&& required_parse::<Vec<Attachment>>(doc, "attachments"@) is Some
            &&& required_parse::<Vec<Embed>>(doc, "embeds"@) is Some
            &&& required_parse::<Vec<Emoji>>(doc, "reactions"@) is Some
            &&& optional_parse::<Nonce>(doc, "nonce"@) is Some
            &&& required_parse::<bool>(doc, "pinned"@) is Some
            &&& required_parse::<MessageType>(doc, "type"@) is Some
            &&& optional_parse::<MessageActivity>(doc, "activity"@) is Some
            &&& optional_parse::<MessageApplication>(doc, "application"@) is Some
            &&& optional_parse::<MessageReference>(doc, "message_reference"@) is Some
        } {
            Some(
                MessageModel {
                    id: required_parse::<MessageId>(doc, "id"@).unwrap(),
                    channel_id: required_parse::<ChannelId>(doc, "channel_id"@).unwrap(),
                    guild_id: optional_parse::<GuildId>(doc, "guild_id"@).unwrap(),
                    author: required_parse::<User>(doc, "author"@).unwrap(),
                    content: required_parse::<String>(doc, "content"@).unwrap(),
                    timestamp: required_parse::<Timestamp>(doc, "timestamp"@).unwrap(),
                    edited_timestamp: optional_parse::<Timestamp>(
                        doc,
                        "edited_timestamp"@,
                    ).unwrap(),
                    tts: required_parse::<bool>(doc, "tts"@).unwrap(),
                    mention_everyone: required_parse::<bool>(doc, "mention_everyone"@).unwrap(),
                    mention_roles: required_parse::<Vec<RoleId>>(doc, "mention_roles"@).unwrap(),
                    mention_channels: required_parse::<Vec<ChannelMention>>(
                        doc,
                        "mention_channels"@,
                    ).unwrap(),
                    attachments: required_parse::<Vec<Attachment>>(doc, "attachments"@).unwrap(),
                    embeds: required_parse::<Vec<Embed>>(doc, "embeds"@).unwrap(),
                    reactions: required_parse::<Vec<Emoji>>(doc, "reactions"@).unwrap(),
                    nonce: optional_parse::<Nonce>(doc, "nonce"@).unwrap(),
                    pinned: required_parse::<bool>(doc, "pinned"@).unwrap(),
                    type_: required_parse::<MessageType>(doc, "type"@).unwrap(),
                    activity: optional_parse::<MessageActivity>(doc, "activity"@).unwrap(),
                    application: optional_parse::<MessageApplication>(doc, "application"@).unwrap(),
                    message_reference: optional_parse::<MessageReference>(
                        doc,
                        "message_reference"@,
                    ).unwrap(),
                },
            )
        } else {
            None
        }
    }

    open spec fn gaps(doc: Doc, at: Seq<char>, found: Seq<Seq<char>>) -> Seq<Seq<char>> {
        let found = required_gaps::<MessageId>(doc, "id"@, at, found);
        let found = required_gaps::<ChannelId>(doc, "channel_id"@, at, found);
        let found = optional_gaps::<GuildId>(doc, "guild_id"@, at, found);
        let found = required_gaps::<User>(doc, "author"@, at, found);
        let found = required_gaps::<String>(doc, "content"@, at, found);
        let found = required_gaps::<Timestamp>(doc, "timestamp"@, at, found);
        let found = optional_gaps::<Timestamp>(doc, "edited_timestamp"@, at, found);
        let found = required_gaps::<bool>(doc, "tts"@, at, found);
        let found = required_gaps::<bool>(doc, "mention_everyone"@, at, found);
        let found = required_gaps::<Vec<RoleId>>(doc, "mention_roles"@, at, found);
        let found = required_gaps::<Vec<ChannelMention>>(doc, "mention_channels"@, at, found);
        let found = required_gaps::<Vec<Attachment>>(doc, "attachments"@, at, found);
        let found = required_gaps::<Vec<Embed>>(doc, "embeds"@, at, found);
        let found = required_gaps::<Vec<Emoji>>(doc, "reactions"@, at, found);
        let found = optional_gaps::<Nonce>(doc, "nonce"@, at, found);
        let found = required_gaps::<bool>(doc, "pinned"@, at, found);
        let found = required_gaps::<MessageType>(doc, "type"@, at, found);
        let found = optional_gaps::<MessageActivity>(doc, "activity"@, at, found);
        let found = optional_gaps::<MessageApplication>(doc, "application"@, at, found);
        let found = optional_gaps::<MessageReference>(doc, "message_reference"@, at, found);
        found
    }

    open spec fn needs(doc: Doc, key: Seq<char>) -> bool {
        ||| key == "id"@
        ||| key == "channel_id"@
        ||| key == "author"@
        ||| key == "content"@
        ||| key == "timestamp"@
        ||| key == "tts"@
        ||| key == "mention_everyone"@
        ||| key == "mention_roles"@
        ||| key == "mention_channels"@
        ||| key == "attachments"@
        ||| key == "embeds"@
        ||| key == "reactions"@
        ||| key == "pinned"@
        ||| key == "type"@
    }

    proof fn gaps_law(doc: Doc, at: Seq<char>, found: Seq<Seq<char>>) {
        let start = found;
        settles_start(start);
        required_step::<MessageId>(doc, "id"@, at, true, start, found);
        let fits = required_parse::<MessageId>(doc, "id"@) is Some;
        let found = required_gaps::<MessageId>(doc, "id"@, at, found);
        required_step::<ChannelId>(doc, "channel_id"@, at, fits, start, found);
        let fits = fits && required_parse::<ChannelId>(doc, "channel_id"@) is Some;
        let found = required_gaps::<ChannelId>(doc, "channel_id"@, at, found);
        optional_step::<GuildId>(doc, "guild_id"@, at, fits, start, found);
        let fits = fits && optional_parse::<GuildId>(doc, "guild_id"@) is Some;
        let found = optional_gaps::<GuildId>(doc, "guild_id"@, at, found);
        required_step::<User>(doc, "author"@, at, fits, start, found);
        let fits = fits && required_parse::<User>(doc, "author"@) is Some;
        let found = required_gaps::<User>(doc, "author"@, at, found);
        required_step::<String>(doc, "content"@, at, fits, start, found);
        let fits = fits && required_parse::<String>(doc, "content"@) is Some;
        let found = required_gaps::<String>(doc, "content"@, at, found);
        required_step::<Timestamp>(doc, "timestamp"@, at, fits, start, found);
        let fits = fits && required_parse::<Timestamp>(doc, "timestamp"@) is Some;
        let found = required_gaps::<Timestamp>(doc, "timestamp"@, at, found);
        optional_step::<Timestamp>(doc, "edited_timestamp"@, at, fits, start, found);
        let fits = fits && optional_parse::<Timestamp>(doc, "edited_timestamp"@) is Some;
        let found = optional_gaps::<Timestamp>(doc, "edited_timestamp"@, at, found);
        required_step::<bool>(doc, "tts"@, at, fits, start, found);
        let fits = fits && required_parse::<bool>(doc, "tts"@) is Some;
        let found = required_gaps::<bool>(doc, "tts"@, at, found);
        required_step::<bool>(doc, "mention_everyone"@, at, fits, start, found);
        let fits = fits && required_parse::<bool>(doc, "mention_everyone"@) is Some;
        let found = required_gaps::<bool>(doc, "mention_everyone"@, at, found);
        required_step::<Vec<RoleId>>(doc, "mention_roles"@, at, fits, start, found);
        let fits = fits && required_parse::<Vec<RoleId>>(doc, "mention_roles"@) is Some;
        let found = required_gaps::<Vec<RoleId>>(doc, "mention_roles"@, at, found);
        required_step::<Vec<ChannelMention>>(doc, "mention_channels"@, at, fits, start, found);
        let fits = fits && required_parse::<Vec<ChannelMention>>(doc, "mention_channels"@) is Some;
        let found = required_gaps::<Vec<ChannelMention>>(doc, "mention_channels"@, at, found);
        required_step::<Vec<Attachment>>(doc, "attachments"@, at, fits, start, found);
        let fits = fits && required_parse::<Vec<Attachment>>(doc, "attachments"@) is Some;
        let found = required_gaps::<Vec<Attachment>>(doc, "attachments"@, at, found);
        required_step::<Vec<Embed>>(doc, "embeds"@, at, fits, start, found);
        let fits = fits && required_parse::<Vec<Embed>>(doc, "embeds"@) is Some;
        let found = required_gaps::<Vec<Embed>>(doc, "embeds"@, at, found);
        required_step::<Vec<Emoji>>(doc, "reactions"@, at, fits, start, found);
        let fits = fits && required_parse::<Vec<Emoji>>(doc, "reactions"@) is Some;
        let found = required_gaps::<Vec<Emoji>>(doc, "reactions"@, at, found);
        optional_step::<Nonce>(doc, "nonce"@, at, fits, start, found);
        let fits = fits && optional_parse::<Nonce>(doc, "nonce"@) is Some;
        let found = optional_gaps::<Nonce>(doc, "nonce"@, at, found);
        required_step::<bool>(doc, "pinned"@, at, fits, start, found);
        let fits = fits && required_parse::<bool>(doc, "pinned"@) is Some;
        let found = required_gaps::<bool>(doc, "pinned"@, at, found);
        required_step::<MessageType>(doc, "type"@, at, fits, start, found);
        let fits = fits && required_parse::<MessageType>(doc, "type"@) is Some;
        let found = required_gaps::<MessageType>(doc, "type"@, at, found);
        optional_step::<MessageActivity>(doc, "activity"@, at, fits, start, found);
        let fits = fits && optional_parse::<MessageActivity>(doc, "activity"@) is Some;
        let found = optional_gaps::<MessageActivity>(doc, "activity"@, at, found);
        optional_step::<MessageApplication>(doc, "application"@, at, fits, start, found);
        let fits = fits && optional_parse::<MessageApplication>(doc, "application"@) is Some;
        let found = optional_gaps::<MessageApplication>(doc, "application"@, at, found);
        optional_step::<MessageReference>(doc, "message_reference"@, at, fits, start, found);
    }

    proof fn absent_is_noted(doc: Doc, at: Seq<char>, found: Seq<Seq<char>>, key: Seq<char>) {
        let path = field_path(at, key);
        required_keeps::<MessageId>(doc, "id"@, at, found, path);
        let found = required_gaps::<MessageId>(doc, "id"@, at, found);
        required_keeps::<ChannelId>(doc, "channel_id"@, at, found, path);
        let found = required_gaps::<ChannelId>(doc, "channel_id"@, at, found);
        optional_keeps::<GuildId>(doc, "guild_id"@, at, found, path);
        let found = optional_gaps::<GuildId>(doc, "guild_id"@, at, found);
        required_keeps::<User>(doc, "author"@, at, found, path);
        let found = required_gaps::<User>(doc, "author"@, at, found);
        required_keeps::<String>(doc, "content"@, at, found, path);
        let found = required_gaps::<String>(doc, "content"@, at, found);
        required_keeps::<Timestamp>(doc, "timestamp"@, at, found, path);
        let found = required_gaps::<Timestamp>(doc, "timestamp"@, at, found);
        optional_keeps::<Timestamp>(doc, "edited_timestamp"@, at, found, path);
        let found = optional_gaps::<Timestamp>(doc, "edited_timestamp"@, at, found);
        required_keeps::<bool>(doc, "tts"@, at, found, path);
        let found = required_gaps::<bool>(doc, "tts"@, at, found);
        required_keeps::<bool>(doc, "mention_everyone"@, at, found, path);
        let found = required_gaps::<bool>(doc, "mention_everyone"@, at, found);
        required_keeps::<Vec<RoleId>>(doc, "mention_roles"@, at, found, path);
        let found = required_gaps::<Vec<RoleId>>(doc, "mention_roles"@, at, found);
        required_keeps::<Vec<ChannelMention>>(doc, "mention_channels"@, at, found, path);
        let found = required_gaps::<Vec<ChannelMention>>(doc, "mention_channels"@, at, found);
        required_keeps::<Vec<Attachment>>(doc, "attachments"@, at, found, path);
        let found = required_gaps::<Vec<Attachment>>(doc, "attachments"@, at, found);
        required_keeps::<Vec<Embed>>(doc, "embeds"@, at, found, path);
        let found = required_gaps::<Vec<Embed>>(doc, "embeds"@, at, found);
        required_keeps::<Vec<Emoji>>(doc, "reactions"@, at, found, path);
        let found = required_gaps::<Vec<Emoji>>(doc, "reactions"@, at, found);
        optional_keeps::<Nonce>(doc, "nonce"@, at, found, path);
        let found = optional_gaps::<Nonce>(doc, "nonce"@, at, found);
        required_keeps::<bool>(doc, "pinned"@, at, found, path);
        let found = required_gaps::<bool>(doc, "pinned"@, at, found);
        required_keeps::<MessageType>(doc, "type"@, at, found, path);
        let found = required_gaps::<MessageType>(doc, "type"@, at, found);
        optional_keeps::<MessageActivity>(doc, "activity"@, at, found, path);
        let found = optional_gaps::<MessageActivity>(doc, "activity"@, at, found);
        optional_keeps::<MessageApplication>(doc, "application"@, at, found, path);
        let found = optional_gaps::<MessageApplication>(doc, "application"@, at, found);
        optional_keeps::<MessageReference>(doc, "message_reference"@, at, found, path);
    }

    fn decode(raw: &Value, at: &str, gaps: &mut Vec<String>) -> (r: Option<Self>) {
        let id = required::<MessageId>(raw, "id", at, gaps);
        let channel_id = required::<ChannelId>(raw, "channel_id", at, gaps);
        let guild_id = optional::<GuildId>(raw, "guild_id", at, gaps);
        let author = required::<User>(raw, "author", at, gaps);
        let content = required::<String>(raw, "content", at, gaps);
        let timestamp = required::<Timestamp>(raw, "timestamp", at, gaps);
        let edited_timestamp = optional::<Timestamp>(raw, "edited_timestamp", at, gaps);
        let tts = required::<bool>(raw, "tts", at, gaps);
        let mention_everyone = required::<bool>(raw, "mention_everyone", at, gaps);
        let mention_roles = required::<Vec<RoleId>>(raw, "mention_roles", at, gaps);
        let mention_channels = required::<Vec<ChannelMention>>(raw, "mention_channels", at, gaps);
        let attachments = required::<Vec<Attachment>>(raw, "attachments", at, gaps);
        let embeds = required::<Vec<Embed>>(raw, "embeds", at, gaps);
        let reactions = required::<Vec<Emoji>>(raw, "reactions", at, gaps);
        let nonce = optional::<Nonce>(raw, "nonce", at, gaps);
        let pinned = required::<bool>(raw, "pinned", at, gaps);
        let type_ = required::<MessageType>(raw, "type", at, gaps);
        let activity = optional::<MessageActivity>(raw, "activity", at, gaps);
        let application = optional::<MessageApplication>(raw, "application", at, gaps);
        let message_reference = optional::<MessageReference>(raw, "message_reference", at, gaps);
        if id.is_some()
            && channel_id.is_some()
            && guild_id.is_some()
            && author.is_some()
            && content.is_some()
            && timestamp.is_some()
            && edited_timestamp.is_some()
            && tts.is_some()
            && mention_everyone.is_some()
            && mention_roles.is_some()
            && mention_channels.is_some()
            && attachments.is_some()
            && embeds.is_some()
            && reactions.is_some()
            && nonce.is_some()
            && pinned.is_some()
            && type_.is_some()
            && activity.is_some()
            && application.is_some()
            && message_reference.is_some() {
            Some(
                Message {
                    id: id.unwrap(),
                    channel_id: channel_id.unwrap(),
                    guild_id: guild_id.unwrap(),
                    author: author.unwrap(),
                    content: content.unwrap(),
                    timestamp: timestamp.unwrap(),
                    edited_timestamp: edited_timestamp.unwrap(),
                    tts: tts.unwrap(),
                    mention_everyone: mention_everyone.unwrap(),
                    mention_roles: mention_roles.unwrap(),
                    mention_channels: mention_channels.unwrap(),
                    attachments: attachments.unwrap(),
                    embeds: embeds.unwrap(),
                    reactions: reactions.unwrap(),
                    nonce: nonce.unwrap(),
                    pinned: pinned.unwrap(),
                    type_: type_.unwrap(),
                    activity: activity.unwrap(),
                    application: application.unwrap(),
                    message_reference: message_reference.unwrap(),
                },
            )
        } else {
            None
        }
    }
}

/// The type of a message.
#[derive(Clone, Copy, Debug, PartialEq, Eq)]
pub enum MessageType {
    Default,
    RecipientAdd,
    RecepientRemove,
    Call,
    ChannelNameChange,
    ChannelIconChange,
    ChannelPinnedMessage,
    GuildMemberJoin,
    UserPremiumGuildSubscription,
    UserPremiumGuildSubscriptionTier1,
    UserPremiumGuildSubscriptionTier2,
    UserPremiumGuildSubscriptionTier3,
    ChannelFollowAdd,
}

impl MessageType {
    /// The variant that the wire code `code` stands for, if it stands for one.
    pub open spec fn of_code(code: u64) -> Option<MessageType> {
        if code == 0 {
            Some(MessageType::Default)
        } else if code == 1 {
            Some(MessageType::RecipientAdd)
        } else if code == 2 {
            Some(MessageType::RecepientRemove)
        } else if code == 3 {
            Some(MessageType::Call)
        } else if code == 4 {
            Some(MessageType::ChannelNameChange)
        } else if code == 5 {
            Some(MessageType::ChannelIconChange)
        } else if code == 6 {
            Some(MessageType::ChannelPinnedMessage)
        } else if code == 7 {
            Some(MessageType::GuildMemberJoin)
        } else if code == 8 {
            Some(MessageType::UserPremiumGuildSubscription)
        } else if code == 9 {
            Some(MessageType::UserPremiumGuildSubscriptionTier1)
        } else if code == 10 {
            Some(MessageType::UserPremiumGuildSubscriptionTier2)
        } else if code == 11 {
            Some(MessageType::UserPremiumGuildSubscriptionTier3)
        } else if code == 12 {
            Some(MessageType::ChannelFollowAdd)
        } else {
            None
        }
    }

    /// The wire code of this variant.
    pub open spec fn spec_code(self) -> u8 {
        match self {
            MessageType::Default => 0,
            MessageType::RecipientAdd => 1,
            MessageType::RecepientRemove => 2,
            MessageType::Call => 3,
            MessageType::ChannelNameChange => 4,
            MessageType::ChannelIconChange => 5,
            MessageType::ChannelPinnedMessage => 6,
            MessageType::GuildMemberJoin => 7,
            MessageType::UserPremiumGuildSubscription => 8,
            MessageType::UserPremiumGuildSubscriptionTier1 => 9,
            MessageType::UserPremiumGuildSubscriptionTier2 => 10,
            MessageType::UserPremiumGuildSubscriptionTier3 => 11,
            MessageType::ChannelFollowAdd => 12,
        }
    }

    /// Finds the variant that the wire code `code` stands for.
    pub fn from_code(code: u64) -> (r: Option<MessageType>)
        ensures
            r == Self::of_code(code),
    {
        if code == 0 {
            Some(MessageType::Default)
        } else if code == 1 {
            Some(MessageType::RecipientAdd)
        } else if code == 2 {
            Some(MessageType::RecepientRemove)
        } else if code == 3 {
            Some(MessageType::Call)
        } else if code == 4 {
            Some(MessageType::ChannelNameChange)
        } else if code == 5 {
            Some(MessageType::ChannelIconChange)
        } else if code == 6 {
            Some(MessageType::ChannelPinnedMessage)
        } else if code == 7 {
            Some(MessageType::GuildMemberJoin)
        } else if code == 8 {
            Some(MessageType::UserPremiumGuildSubscription)
        } else if code == 9 {
            Some(MessageType::UserPremiumGuildSubscriptionTier1)
        } else if code == 10 {
            Some(MessageType::UserPremiumGuildSubscriptionTier2)
        } else if code == 11 {
            Some(MessageType::UserPremiumGuildSubscriptionTier3)
        } else if code == 12 {
            Some(MessageType::ChannelFollowAdd)
        } else {
            None
        }
    }

    /// The wire code of this variant.
    #[verifier::when_used_as_spec(spec_code)]
    pub fn code(self) -> (r: u8)
        ensures
            r == self.spec_code(),
            Self::of_code(r as u64) == Some(self),
    {
        match self {
            MessageType::Default => 0,
            MessageType::RecipientAdd => 1,
            MessageType::RecepientRemove => 2,
            MessageType::Call => 3,
            MessageType::ChannelNameChange => 4,
            MessageType::ChannelIconChange => 5,
            MessageType::ChannelPinnedMessage => 6,
            MessageType::GuildMemberJoin => 7,
            MessageType::UserPremiumGuildSubscription => 8,
            MessageType::UserPremiumGuildSubscriptionTier1 => 9,
            MessageType::UserPremiumGuildSubscriptionTier2 => 10,
            MessageType::UserPremiumGuildSubscriptionTier3 => 11,
            MessageType::ChannelFollowAdd => 12,
        }
    }
}

impl DeepView for MessageType {
    type V = MessageType;

    open spec fn deep_view(&self) -> MessageType {
        *self
    }
}

impl Decode for MessageType {
    open spec fn parse(doc: Doc) -> Option<MessageType> {
        match doc {
            Doc::Unsigned(code) => Self::of_code(code),
            _ => None,
        }
    }

    open spec fn gaps(doc: Doc, at: Seq<char>, found: Seq<Seq<char>>) -> Seq<Seq<char>> {
        note(Self::parse(doc) is Some, at, found)
    }

    open spec fn needs(doc: Doc, key: Seq<char>) -> bool {
        false
    }

    proof fn gaps_law(doc: Doc, at: Seq<char>, found: Seq<Seq<char>>) {
        note_settles(Self::parse(doc) is Some, at, found);
    }

    proof fn absent_is_noted(doc: Doc, at: Seq<char>, found: Seq<Seq<char>>, key: Seq<char>) {
    }

    fn decode(value: &Value, at: &str, gaps: &mut Vec<String>) -> (r: Option<Self>) {
        let found = match value.as_u64() {
            Some(code) => Self::from_code(code),
            None => None,
        };
        if found.is_none() {
            mark(gaps, at.to_owned());
        }
        found
    }
}

/// Sent with Rich-Presence related chat embeds.
#[derive(Clone, Debug, PartialEq, Eq)]
pub struct MessageActivity {
    /// Type of message activity.
    pub type_: MessageActivityType,
    /// Party id from a rich presence event.
    pub party_id: String,
}

/// The model of a [`MessageActivity`]: the same fields, each by its model.
pub ghost struct MessageActivityModel {
    pub type_: MessageActivityType,
    pub party_id: Seq<char>,
}

impl DeepView for MessageActivity {
    type V = MessageActivityModel;

    open spec fn deep_view(&self) -> MessageActivityModel {
        MessageActivityModel {
            type_: self.type_.deep_view(),
            party_id: self.party_id.deep_view(),
        }
    }
}

impl Decode for MessageActivity {
    open spec fn parse(doc: Doc) -> Option<MessageActivityModel> {
        if {
            &&& required_parse::<MessageActivityType>(doc, "type"@) is Some
            &&& required_parse::<String>(doc, "party_id"@) is Some
        } {
            Some(
                MessageActivityModel {
                    type_: required_parse::<MessageActivityType>(doc, "type"@).unwrap(),
                    party_id: required_parse::<String>(doc, "party_id"@).unwrap(),
                },
            )
        } else {
            None
        }
    }

    open spec fn gaps(doc: Doc, at: Seq<char>, found: Seq<Seq<char>>) -> Seq<Seq<char>> {
        let found = required_gaps::<MessageActivityType>(doc, "type"@, at, found);
        let found = required_gaps::<String>(doc, "party_id"@, at, found);
        found
    }

    open spec fn needs(doc: Doc, key: Seq<char>) -> bool {
        ||| key == "type"@
        ||| key == "party_id"@
    }

    proof fn gaps_law(doc: Doc, at: Seq<char>, found: Seq<Seq<char>>) {
        let start = found;
        settles_start(start);
        required_step::<MessageActivityType>(doc, "type"@, at, true, start, found);
        let fits = required_parse::<MessageActivityType>(doc, "type"@) is Some;
        let found = required_gaps::<MessageActivityType>(doc, "type"@, at, found);
        required_step::<String>(doc, "party_id"@, at, fits, start, found);
    }

    proof fn absent_is_noted(doc: Doc, at: Seq<char>, found: Seq<Seq<char>>, key: Seq<char>) {
        let path = field_path(at, key);
        required_keeps::<MessageActivityType>(doc, "type"@, at, found, path);
        let found = required_gaps::<MessageActivityType>(doc, "type"@, at, found);
        required_keeps::<String>(doc, "party_id"@, at, found, path);
    }

    fn decode(raw: &Value, at: &str, gaps: &mut Vec<String>) -> (r: Option<Self>) {
        let type_ = required::<MessageActivityType>(raw, "type", at, gaps);
        let party_id = required::<String>(raw, "party_id", at, gaps);
        if type_.is_some()
            && party_id.is_some() {
            Some(
                MessageActivity {
                    type_: type_.unwrap(),
                    party_id: party_id.unwrap(),
                },
            )
        } else {
            None
        }
    }
}

/// What a message activity invites to.
#[derive(Clone, Copy, Debug, PartialEq, Eq)]
pub enum MessageActivityType {
    Join,
    Spectate,
    Listen,
    JoinRequest,
}

impl MessageActivityType {
    /// The variant that the wire code `code` stands for, if it stands for one.
    pub open spec fn of_code(code: u64) -> Option<MessageActivityType> {
        if code == 1 {
            Some(MessageActivityType::Join)
        } else if code == 2 {
            Some(MessageActivityType::Spectate)
        } else if code == 3 {
            Some(MessageActivityType::Listen)
        } else if code == 5 {
            Some(MessageActivityType::JoinRequest)
        } else {
            None
        }
    }

    /// The wire code of this variant.
    pub open spec fn spec_code(self) -> u8 {
        match self {
            MessageActivityType::Join => 1,
            MessageActivityType::Spectate => 2,
            MessageActivityType::Listen => 3,
            MessageActivityType::JoinRequest => 5,
        }
    }

    /// Finds the variant that the wire code `code` stands for.
    pub fn from_code(code: u64) -> (r: Option<MessageActivityType>)
        ensures
            r == Self::of_code(code),
    {
        if code == 1 {
            Some(MessageActivityType::Join)
        } else if code == 2 {
            Some(MessageActivityType::Spectate)
        } else if code == 3 {
            Some(MessageActivityType::Listen)
        } else if code == 5 {
            Some(MessageActivityType::JoinRequest)
        } else {
            None
        }
    }

    /// The wire code of this variant.
    #[verifier::when_used_as_spec(spec_code)]
    pub fn code(self) -> (r: u8)
        ensures
            r == self.spec_code(),
            Self::of_code(r as u64) == Some(self),
    {
        match self {
            MessageActivityType::Join => 1,
            MessageActivityType::Spectate => 2,
            MessageActivityType::Listen => 3,
            MessageActivityType::JoinRequest => 5,
        }
    }
}

impl DeepView for MessageActivityType {
    type V = MessageActivityType;

    open spec fn deep_view(&self) -> MessageActivityType {
        *self
    }
}

impl Decode for MessageActivityType {
    open spec fn parse(doc: Doc) -> Option<MessageActivityType> {
        match doc {
            Doc::Unsigned(code) => Self::of_code(code),
            _ => None,
        }
    }

    open spec fn gaps(doc: Doc, at: Seq<char>, found: Seq<Seq<char>>) -> Seq<Seq<char>> {
        note(Self::parse(doc) is Some, at, found)
    }

    open spec fn needs(doc: Doc, key: Seq<char>) -> bool {
        false
    }

    proof fn gaps_law(doc: Doc, at: Seq<char>, found: Seq<Seq<char>>) {
        note_settles(Self::parse(doc) is Some, at, found);
    }

    proof fn absent_is_noted(doc: Doc, at: Seq<char>, found: Seq<Seq<char>>, key: Seq<char>) {
    }

    fn decode(value: &Value, at: &str, gaps: &mut Vec<String>) -> (r: Option<Self>) {
        let found = match value.as_u64() {
            Some(code) => Self::from_code(code),
            None => None,
        };
        if found.is_none() {
            mark(gaps, at.to_owned());
        }
        found
    }
}

/// An application that sent the message.
#[derive(Clone, Debug, PartialEq, Eq)]
pub struct MessageApplication {
    /// Id of the application.
    pub id: String,
    /// Id of the embed's image asset.
    pub cover_image: Option<String>,
    /// Application's description.
    pub description: String,
    /// id of the applicatio's icon.
    pub icon: Option<String>,
    /// Name of the application.
    pub name: String,
}

/// The model of a [`MessageApplication`]: the same fields, each by its model.
pub ghost struct MessageApplicationModel {
    pub id: Seq<char>,
    pub cover_image: Option<Seq<char>>,
    pub description: Seq<char>,
    pub icon: Option<Seq<char>>,
    pub name: Seq<char>,
}

impl DeepView for MessageApplication {
    type V = MessageApplicationModel;

    open spec fn deep_view(&self) -> MessageApplicationModel {
        MessageApplicationModel {
            id: self.id.deep_view(),
            cover_image: self.cover_image.deep_view(),
            description: self.description.deep_view(),
            icon: self.icon.deep_view(),
            name: self.name.deep_view(),
        }
    }
}

impl Decode for MessageApplication {
    open spec fn parse(doc: Doc) -> Option<MessageApplicationModel> {
        if {
            &&& required_parse::<String>(doc, "id"@) is Some
            &&& optional_parse::<String>(doc, "cover_image"@) is Some
            &&& required_parse::<String>(doc, "description"@) is Some
            &&& optional_parse::<String>(doc, "icon"@) is Some
            &&& required_parse::<String>(doc, "name"@) is Some
        } {
            Some(
                MessageApplicationModel {
                    id: required_parse::<String>(doc, "id"@).unwrap(),
                    cover_image: optional_parse::<String>(doc, "cover_image"@).unwrap(),
                    description: required_parse::<String>(doc, "description"@).unwrap(),
                    icon: optional_parse::<String>(doc, "icon"@).unwrap(),
                    name: required_parse::<String>(doc, "name"@).unwrap(),
                },
            )
        } else {
            None
        }
    }

    open spec fn gaps(doc: Doc, at: Seq<char>, found: Seq<Seq<char>>) -> Seq<Seq<char>> {
        let found = required_gaps::<String>(doc, "id"@, at, found);
        let found = optional_gaps::<String>(doc, "cover_image"@, at, found);
        let found = required_gaps::<String>(doc, "description"@, at, found);
        let found = optional_gaps::<String>(doc, "icon"@, at, found);
        let found = required_gaps::<String>(doc, "name"@, at, found);
        found
    }

    open spec fn needs(doc: Doc, key: Seq<char>) -> bool {
        ||| key == "id"@
        ||| key == "description"@
        ||| key == "name"@
    }

    proof fn gaps_law(doc: Doc, at: Seq<char>, found: Seq<Seq<char>>) {
        let start = found;
        settles_start(start);
        required_step::<String>(doc, "id"@, at, true, start, found);
        let fits = required_parse::<String>(doc, "id"@) is Some;
        let found = required_gaps::<String>(doc, "id"@, at, found);
        optional_step::<String>(doc, "cover_image"@, at, fits, start, found);
        let fits = fits && optional_parse::<String>(doc, "cover_image"@) is Some;
        let found = optional_gaps::<String>(doc, "cover_image"@, at, found);
        required_step::<String>(doc, "description"@, at, fits, start, found);
        let fits = fits && required_parse::<String>(doc, "description"@) is Some;
        let found = required_gaps::<String>(doc, "description"@, at, found);
        optional_step::<String>(doc, "icon"@, at, fits, start, found);
        let fits = fits && optional_parse::<String>(doc, "icon"@) is Some;
        let found = optional_gaps::<String>(doc, "icon"@, at, found);
        required_step::<String>(doc, "name"@, at, fits, start, found);
    }

    proof fn absent_is_noted(doc: Doc, at: Seq<char>, found: Seq<Seq<char>>, key: Seq<char>) {
        let path = field_path(at, key);
        required_keeps::<String>(doc, "id"@, at, found, path);
        let found = required_gaps::<String>(doc, "id"@, at, found);
        optional_keeps::<String>(doc, "cover_image"@, at, found, path);
        let found = optional_gaps::<String>(doc, "cover_image"@, at, found);
        required_keeps::<String>(doc, "description"@, at, found, path);
        let found = required_gaps::<String>(doc, "description"@, at, found);
        optional_keeps::<String>(doc, "icon"@, at, found, path);
        let found = optional_gaps::<String>(doc, "icon"@, at, found);
        required_keeps::<String>(doc, "name"@, at, found, path);
    }

    fn decode(raw: &Value, at: &str, gaps: &mut Vec<String>) -> (r: Option<Self>) {
        let id = required::<String>(raw, "id", at, gaps);
        let cover_image = optional::<String>(raw, "cover_image", at, gaps);
        let description = required::<String>(raw, "description", at, gaps);
        let icon = optional::<String>(raw, "icon", at, gaps);
        let name = required::<String>(raw, "name", at, gaps);
        if id.is_some()
            && cover_image.is_some()
            && description.is_some()
            && icon.is_some()
            && name.is_some() {
            Some(
                MessageApplication {
                    id: id.unwrap(),
                    cover_image: cover_image.unwrap(),
                    description: description.unwrap(),
                    icon: icon.unwrap(),
                    name: name.unwrap(),
                },
            )
        } else {
            None
        }
    }
}

/// Reference data sent with crossposted messages.
#[derive(Clone, Debug, PartialEq, Eq)]
pub struct MessageReference {
    /// Id of the originating message.
    pub message_id: Option<MessageId>,
    /// Id of the originating message's channel.
    pub channel_id: ChannelId,
    /// Id of the originating message's guild.
    pub guild_id: Option<GuildId>,
}

/// The model of a [`MessageReference`]: the same fields, each by its model.
pub ghost struct MessageReferenceModel {
    pub message_id: Option<Seq<char>>,
    pub channel_id: Seq<char>,
    pub guild_id: Option<Seq<char>>,
}

impl DeepView for MessageReference {
    type V = MessageReferenceModel;

    open spec fn deep_view(&self) -> MessageReferenceModel {
        MessageReferenceModel {
            message_id: self.message_id.deep_view(),
            channel_id: self.channel_id.deep_view(),
            guild_id: self.guild_id.deep_view(),
        }
    }
}

impl Decode for MessageReference {
    open spec fn parse(doc: Doc) -> Option<MessageReferenceModel> {
        if {
            &&& optional_parse::<MessageId>(doc, "message_id"@) is Some
            &&& required_parse::<ChannelId>(doc, "channel_id"@) is Some
            &&& optional_parse::<GuildId>(doc, "guild_id"@) is Some
        } {
            Some(
                MessageReferenceModel {
                    message_id: optional_parse::<MessageId>(doc, "message_id"@).unwrap(),
                    channel_id: required_parse::<ChannelId>(doc, "channel_id"@).unwrap(),
                    guild_id: optional_parse::<GuildId>(doc, "guild_id"@).unwrap(),
                },
            )
        } else {
            None
        }
    }

    open spec fn gaps(doc: Doc, at: Seq<char>, found: Seq<Seq<char>>) -> Seq<Seq<char>> {
        let found = optional_gaps::<MessageId>(doc, "message_id"@, at, found);
        let found = required_gaps::<ChannelId>(doc, "channel_id"@, at, found);
        let found = optional_gaps::<GuildId>(doc, "guild_id"@, at, found);
        found
    }

    open spec fn needs(doc: Doc, key: Seq<char>) -> bool {
        key == "channel_id"@
    }

    proof fn gaps_law(doc: Doc, at: Seq<char>, found: Seq<Seq<char>>) {
        let start = found;
        settles_start(start);
        optional_step::<MessageId>(doc, "message_id"@, at, true, start, found);
        let fits = optional_parse::<MessageId>(doc, "message_id"@) is Some;
        let found = optional_gaps::<MessageId>(doc, "message_id"@, at, found);
        required_step::<ChannelId>(doc, "channel_id"@, at, fits, start, found);
        let fits = fits && required_parse::<ChannelId>(doc, "channel_id"@) is Some;
        let found = required_gaps::<ChannelId>(doc, "channel_id"@, at, found);
        optional_step::<GuildId>(doc, "guild_id"@, at, fits, start, found);
    }

    proof fn absent_is_noted(doc: Doc, at: Seq<char>, found: Seq<Seq<char>>, key: Seq<char>) {
        let path = field_path(at, key);
        optional_keeps::<MessageId>(doc, "message_id"@, at, found, path);
        let found = optional_gaps::<MessageId>(doc, "message_id"@, at, found);
        required_keeps::<ChannelId>(doc, "channel_id"@, at, found, path);
        let found = required_gaps::<ChannelId>(doc, "channel_id"@, at, found);
        optional_keeps::<GuildId>(doc, "guild_id"@, at, found, path);
    }

    fn decode(raw: &Value, at: &str, gaps: &mut Vec<String>) -> (r: Option<Self>) {
        let message_id = optional::<MessageId>(raw, "message_id", at, gaps);
        let channel_id = required::<ChannelId>(raw, "channel_id", at, gaps);
        let guild_id = optional::<GuildId>(raw, "guild_id", at, gaps);
        if message_id.is_some()
            && channel_id.is_some()
            && guild_id.is_some() {
            Some(
                MessageReference {
                    message_id: message_id.unwrap(),
                    channel_id: channel_id.unwrap(),
                    guild_id: guild_id.unwrap(),
                },
            )
        } else {
            None
        }
    }
}

/// Channels mentioned in a message.
#[derive(Clone, Debug, PartialEq, Eq)]
pub struct ChannelMention {
    /// Id of the channel.
    pub id: ChannelId,
    /// Id of the guild the channel is in.
    pub guild_id: GuildId,
    /// The type of the channel.
    pub type_: ChannelType,
    /// The name of the channel.
    pub name: String,
}

/// The model of a [`ChannelMention`]: the same fields, each by its model.
pub ghost struct ChannelMentionModel {
    pub id: Seq<char>,
    pub guild_id: Seq<char>,
    pub type_: ChannelType,
    pub name: Seq<char>,
}

impl DeepView for ChannelMention {
    type V = ChannelMentionModel;

    open spec fn deep_view(&self) -> ChannelMentionModel {
        ChannelMentionModel {
            id: self.id.deep_view(),
            guild_id: self.guild_id.deep_view(),
            type_: self.type_.deep_view(),
            name: self.name.deep_view(),
        }
    }
}

impl Decode for ChannelMention {
    open spec fn parse(doc: Doc) -> Option<ChannelMentionModel> {
        if {
            &&& required_parse::<ChannelId>(doc, "id"@) is Some
            &&& required_parse::<GuildId>(doc, "guild_id"@) is Some
            &&& required_parse::<ChannelType>(doc, "type"@) is Some
            &&& required_parse::<String>(doc, "name"@) is Some
        } {
            Some(
                ChannelMentionModel {
                    id: required_parse::<ChannelId>(doc, "id"@).unwrap(),
                    guild_id: required_parse::<GuildId>(doc, "guild_id"@).unwrap(),
                    type_: required_parse::<ChannelType>(doc, "type"@).unwrap(),
                    name: required_parse::<String>(doc, "name"@).unwrap(),
                },
            )
        } else {
            None
        }
    }

    open spec fn gaps(doc: Doc, at: Seq<char>, found: Seq<Seq<char>>) -> Seq<Seq<char>> {
        let found = required_gaps::<ChannelId>(doc, "id"@, at, found);
        let found = required_gaps::<GuildId>(doc, "guild_id"@, at, found);
        let found = required_gaps::<ChannelType>(doc, "type"@, at, found);
        let found = required_gaps::<String>(doc, "name"@, at, found);
        found
    }

    open spec fn needs(doc: Doc, key: Seq<char>) -> bool {
        ||| key == "id"@
        ||| key == "guild_id"@
        ||| key == "type"@
        ||| key == "name"@
    }

    proof fn gaps_law(doc: Doc, at: Seq<char>, found: Seq<Seq<char>>) {
        let start = found;
        settles_start(start);
        required_step::<ChannelId>(doc, "id"@, at, true, start, found);
        let fits = required_parse::<ChannelId>(doc, "id"@) is Some;
        let found = required_gaps::<ChannelId>(doc, "id"@, at, found);
        required_step::<GuildId>(doc, "guild_id"@, at, fits, start, found);
        let fits = fits && required_parse::<GuildId>(doc, "guild_id"@) is Some;
        let found = required_gaps::<GuildId>(doc, "guild_id"@, at, found);
        required_step::<ChannelType>(doc, "type"@, at, fits, start, found);
        let fits = fits && required_parse::<ChannelType>(doc, "type"@) is Some;
        let found = required_gaps::<ChannelType>(doc, "type"@, at, found);
        required_step::<String>(doc, "name"@, at, fits, start, found);
    }

    proof fn absent_is_noted(doc: Doc, at: Seq<char>, found: Seq<Seq<char>>, key: Seq<char>) {
        let path = field_path(at, key);
        required_keeps::<ChannelId>(doc, "id"@, at, found, path);
        let found = required_gaps::<ChannelId>(doc, "id"@, at, found);
        required_keeps::<GuildId>(doc, "guild_id"@, at, found, path);
        let found = required_gaps::<GuildId>(doc, "guild_id"@, at, found);
        required_keeps::<ChannelType>(doc, "type"@, at, found, path);
        let found = required_gaps::<ChannelType>(doc, "type"@, at, found);
        required_keeps::<String>(doc, "name"@, at, found, path);
    }

    fn decode(raw: &Value, at: &str, gaps: &mut Vec<String>) -> (r: Option<Self>) {
        let id = required::<ChannelId>(raw, "id", at, gaps);
        let guild_id = required::<GuildId>(raw, "guild_id", at, gaps);
        let type_ = required::<ChannelType>(raw, "type", at, gaps);
        let name = required::<String>(raw, "name", at, gaps);
        if id.is_some()
            && guild_id.is_some()
            && type_.is_some()
            && name.is_some() {
            Some(
                ChannelMention {
                    id: id.unwrap(),
                    guild_id: guild_id.unwrap(),
                    type_: type_.unwrap(),
                    name: name.unwrap(),
                },
            )
        } else {
            None
        }
    }
}

/// Used for validating a message was sent.
///
/// Is either text or an integer. On the wire it is an object with one
/// member, named after the variant: `{"Text": "abc"}` or `{"Integer": 5}`.
/// Where both members are present, `Text` is read.
#[derive(Clone, Debug, PartialEq, Eq)]
pub enum Nonce {
    /// A nonce made of text.
    Text(String),
    /// A nonce made of an integer.
    Integer(u32),
}

/// The model of a [`Nonce`].
pub ghost enum NonceModel {
    Text(Seq<char>),
    Integer(u32),
}

impl DeepView for Nonce {
    type V = NonceModel;

    open spec fn deep_view(&self) -> NonceModel {
        match self {
            Nonce::Text(text) => NonceModel::Text(text@),
            Nonce::Integer(n) => NonceModel::Integer(*n),
        }
    }
}

impl Decode for Nonce {
    open spec fn parse(doc: Doc) -> Option<NonceModel> {
        match doc.member("Text"@) {
            Some(inner) => match String::parse(inner) {
                Some(text) => Some(NonceModel::Text(text)),
                None => None,
            },
            None => match doc.member("Integer"@) {
                Some(inner) => match u32::parse(inner) {
                    Some(n) => Some(NonceModel::Integer(n)),
                    None => None,
                },
                None => None,
            },
        }
    }

    open spec fn gaps(doc: Doc, at: Seq<char>, found: Seq<Seq<char>>) -> Seq<Seq<char>> {
        note(Self::parse(doc) is Some, at, found)
    }

    open spec fn needs(doc: Doc, key: Seq<char>) -> bool {
        false
    }

    proof fn gaps_law(doc: Doc, at: Seq<char>, found: Seq<Seq<char>>) {
        note_settles(Self::parse(doc) is Some, at, found);
    }

    proof fn absent_is_noted(doc: Doc, at: Seq<char>, found: Seq<Seq<char>>, key: Seq<char>) {
    }

    fn decode(value: &Value, at: &str, gaps: &mut Vec<String>) -> (r: Option<Self>) {
        let found = match member(value, "Text") {
            Some(inner) => match inner.as_str() {
                Some(text) => Some(Nonce::Text(text.to_owned())),
                None => None,
            },
            None => match member(value, "Integer") {
                Some(inner) => match read_unsigned(inner, 0xffff_ffff) {
                    Some(n) => Some(Nonce::Integer(n as u32)),
                    None => None,
                },
                None => None,
            },
        };
        if found.is_none() {
            mark(gaps, at.to_owned());
        }
        found
    }
}

} // verus!
