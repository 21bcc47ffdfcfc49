use crate::decode::{
    beside_keeps, beside_step, optional, optional_gaps, optional_keeps, optional_parse,
    optional_step, required, required_gaps, required_keeps, required_parse, required_step,
    settles_start, Decode,
};
use crate::document::{member, Doc};
use crate::path::field_path;
use crate::resources::channel::ChannelId;
use crate::resources::emoji::{Emoji, EmojiModel};
use crate::resources::guild::GuildId;
use crate::resources::guild_member::{GuildMember, GuildMemberModel};
use crate::resources::message::{Message, MessageId, MessageModel};
use crate::resources::user::{User, UserId, UserModel};
use serde_json::Value;
use vstd::prelude::*;

verus! {

/// Sent when a message has been created.
#[derive(Clone, Debug, PartialEq, Eq)]
pub struct MessageUpdate {
    /// The message itself.
    pub message: Message,
    /// The guild member that sent this message.
    pub member: GuildMember,
    /// Users specifically mentioned in the message.
    pub mentions: Vec<UserWithMember>,
}

/// The model of a [`MessageUpdate`]: the same fields, each by its model.
pub ghost struct MessageUpdateModel {
    pub message: MessageModel,
    pub member: GuildMemberModel,
    pub mentions: Seq<UserWithMemberModel>,
}

impl DeepView for MessageUpdate {
    type V = MessageUpdateModel;

    open spec fn deep_view(&self) -> MessageUpdateModel {
        MessageUpdateModel {
            message: self.message.deep_view(),
            member: self.member.deep_view(),
            mentions: self.mentions.deep_view(),
        }
    }
}

impl Decode for MessageUpdate {
    open spec fn parse(doc: Doc) -> Option<MessageUpdateModel> {
        if {
            &&& Message::parse(doc) is Some
            &&& required_parse::<GuildMember>(doc, "member"@) is Some
            &&& required_parse::<Vec<UserWithMember>>(doc, "mentions"@) is Some
        } {
            Some(
                MessageUpdateModel {
                    message: Message::parse(doc).unwrap(),
                    member: required_parse::<GuildMember>(doc, "member"@).unwrap(),
                    mentions: required_parse::<Vec<UserWithMember>>(doc, "mentions"@).unwrap(),
                },
            )
        } else {
            None
        }
    }

    open spec fn gaps(doc: Doc, at: Seq<char>, found: Seq<Seq<char>>) -> Seq<Seq<char>> {
        let found = Message::gaps(doc, at, found);
        let found = required_gaps::<GuildMember>(doc, "member"@, at, found);
        let found = required_gaps::<Vec<UserWithMember>>(doc, "mentions"@, at, found);
        found
    }

    open spec fn needs(doc: Doc, key: Seq<char>) -> bool {
        ||| Message::needs(doc, key)
        ||| key == "member"@
        ||| key == "mentions"@
    }

    proof fn gaps_law(doc: Doc, at: Seq<char>, found: Seq<Seq<char>>) {
        let start = found;
        settles_start(start);
        beside_step::<Message>(doc, at, true, start, found);
        let fits = Message::parse(doc) is Some;
        let found = Message::gaps(doc, at, found);
        required_step::<GuildMember>(doc, "member"@, at, fits, start, found);
        let fits = fits && required_parse::<GuildMember>(doc, "member"@) is Some;
        let found = required_gaps::<GuildMember>(doc, "member"@, at, found);
        required_step::<Vec<UserWithMember>>(doc, "mentions"@, at, fits, start, found);
    }

    proof fn absent_is_noted(doc: Doc, at: Seq<char>, found: Seq<Seq<char>>, key: Seq<char>) {
        let path = field_path(at, key);
        beside_keeps::<Message>(doc, at, found, path, key);
        let found = Message::gaps(doc, at, found);
        required_keeps::<GuildMember>(doc, "member"@, at, found, path);
        let found = required_gaps::<GuildMember>(doc, "member"@, at, found);
        required_keeps::<Vec<UserWithMember>>(doc, "mentions"@, at, found, path);
    }

    fn decode(raw: &Value, at: &str, gaps: &mut Vec<String>) -> (r: Option<Self>) {
        let message = Message::decode(raw, at, gaps);
        let member = required::<GuildMember>(raw, "member", at, gaps);
        let mentions = required::<Vec<UserWithMember>>(raw, "mentions", at, gaps);
        if message.is_some()
            && member.is_some()
            && mentions.is_some() {
            Some(
                MessageUpdate {
                    message: message.unwrap(),
                    member: member.unwrap(),
                    mentions: mentions.unwrap(),
                },
            )
        } else {
            None
        }
    }
}

/// A user with an additional member field.
#[derive(Clone, Debug, PartialEq, Eq)]
pub struct UserWithMember {
    /// The additional guild member field.
    pub member: GuildMember,
    /// The user field.
    pub user: User,
}

/// The model of a [`UserWithMember`]: the same fields, each by its model.
pub ghost struct UserWithMemberModel {
    pub member: GuildMemberModel,
    pub user: UserModel,
}

impl DeepView for UserWithMember {
    type V = UserWithMemberModel;

    open spec fn deep_view(&self) -> UserWithMemberModel {
        UserWithMemberModel {
            member: self.member.deep_view(),
            user: self.user.deep_view(),
        }
    }
}

impl Decode for UserWithMember {
    open spec fn parse(doc: Doc) -> Option<UserWithMemberModel> {
        if {
            &&& required_parse::<GuildMember>(doc, "member"@) is Some
            &&& User::parse(doc) is Some
        } {
            Some(
                UserWithMemberModel {
                    member: required_parse::<GuildMember>(doc, "member"@).unwrap(),
                    user: User::parse(doc).unwrap(),
                },
            )
        } else {
            None
        }
    }

    open spec fn gaps(doc: Doc, at: Seq<char>, found: Seq<Seq<char>>) -> Seq<Seq<char>> {
        let found = required_gaps::<GuildMember>(doc, "member"@, at, found);
        let found = User::gaps(doc, at, found);
        found
    }

    open spec fn needs(doc: Doc, key: Seq<char>) -> bool {
        ||| key == "member"@
        ||| User::needs(doc, key)
    }

    proof fn gaps_law(doc: Doc, at: Seq<char>, found: Seq<Seq<char>>) {
        let start = found;
        settles_start(start);
        required_step::<GuildMember>(doc, "member"@, at, true, start, found);
        let fits = required_parse::<GuildMember>(doc, "member"@) is Some;
        let found = required_gaps::<GuildMember>(doc, "member"@, at, found);
        beside_step::<User>(doc, at, fits, start, found);
    }

    proof fn absent_is_noted(doc: Doc, at: Seq<char>, found: Seq<Seq<char>>, key: Seq<char>) {
        let path = field_path(at, key);
        required_keeps::<GuildMember>(doc, "member"@, at, found, path);
        let found = required_gaps::<GuildMember>(doc, "member"@, at, found);
        beside_keeps::<User>(doc, at, found, path, key);
    }

    fn decode(raw: &Value, at: &str, gaps: &mut Vec<String>) -> (r: Option<Self>) {
        let member = required::<GuildMember>(raw, "member", at, gaps);
        let user = User::decode(raw, at, gaps);
        if member.is_some()
            && user.is_some() {
            Some(
                UserWithMember {
                    member: member.unwrap(),
                    user: user.unwrap(),
                },
            )
        } else {
            None
        }
    }
}

/// Sent when a message is deleted.
#[derive(Clone, Debug, PartialEq, Eq)]
pub struct MessageDelete {
    /// Id of the message.
    pub id: MessageId,
    /// Id of the channel the message was in.
    pub channel_id: ChannelId,
    /// Id of the guild the message was in.
    pub guild_id: Option<GuildId>,
}

/// The model of a [`MessageDelete`]: the same fields, each by its model.
pub ghost struct MessageDeleteModel {
    pub id: Seq<char>,
    pub channel_id: Seq<char>,
    pub guild_id: Option<Seq<char>>,
}

impl DeepView for MessageDelete {
    type V = MessageDeleteModel;

    open spec fn deep_view(&self) -> MessageDeleteModel {
        MessageDeleteModel {
            id: self.id.deep_view(),
            channel_id: self.channel_id.deep_view(),
            guild_id: self.guild_id.deep_view(),
        }
    }
}

impl Decode for MessageDelete {
    open spec fn parse(doc: Doc) -> Option<MessageDeleteModel> {
        if {
            &&& required_parse::<MessageId>(doc, "id"@) is Some
            &&& required_parse::<ChannelId>(doc, "channel_id"@) is Some
            &&& optional_parse::<GuildId>(doc, "guild_id"@) is Some
        } {
            Some(
                MessageDeleteModel {
                    id: required_parse::<MessageId>(doc, "id"@).unwrap(),
                    channel_id: required_parse::<ChannelId>(doc, "channel_id"@).unwrap(),
                    guild_id: optional_parse::<GuildId>(doc, "guild_id"@).unwrap(),
                },
            )
        } else {
            None
        }
    }

    open spec fn gaps(doc: Doc, at: Seq<char>, found: Seq<Seq<char>>) -> Seq<Seq<char>> {
        let found = required_gaps::<MessageId>(doc, "id"@, at, found);
        let found = required_gaps::<ChannelId>(doc, "channel_id"@, at, found);
        let found = optional_gaps::<GuildId>(doc, "guild_id"@, at, found);
        found
    }

    open spec fn needs(doc: Doc, key: Seq<char>) -> bool {
        ||| key == "id"@
        ||| key == "channel_id"@
    }

    proof fn gaps_law(doc: Doc, at: Seq<char>, found: Seq<Seq<char>>) {
        let start = found;
        settles_start(start);
        required_step::<MessageId>(doc, "id"@, at, true, start, found);
        let fits = required_parse::<MessageId>(doc, "id"@) is Some;
        let found = required_gaps::<MessageId>(doc, "id"@, at, found);
        required_step::<ChannelId>(doc, "channel_id"@, at, fits, start, found);
        let fits = fits && required_parse::<ChannelId>(doc, "channel_id"@) is Some;
        let found = required_gaps::<ChannelId>(doc, "channel_id"@, at, found);
        optional_step::<GuildId>(doc, "guild_id"@, at, fits, start, found);
    }

    proof fn absent_is_noted(doc: Doc, at: Seq<char>, found: Seq<Seq<char>>, key: Seq<char>) {
        let path = field_path(at, key);
        required_keeps::<MessageId>(doc, "id"@, at, found, path);
        let found = required_gaps::<MessageId>(doc, "id"@, at, found);
        required_keeps::<ChannelId>(doc, "channel_id"@, at, found, path);
        let found = required_gaps::<ChannelId>(doc, "channel_id"@, at, found);
        optional_keeps::<GuildId>(doc, "guild_id"@, at, found, path);
    }

    fn decode(raw: &Value, at: &str, gaps: &mut Vec<String>) -> (r: Option<Self>) {
        let id = required::<MessageId>(raw, "id", at, gaps);
        let channel_id = required::<ChannelId>(raw, "channel_id", at, gaps);
        let guild_id = optional::<GuildId>(raw, "guild_id", at, gaps);
        if id.is_some()
            && channel_id.is_some()
            && guild_id.is_some() {
            Some(
                MessageDelete {
                    id: id.unwrap(),
                    channel_id: channel_id.unwrap(),
                    guild_id: guild_id.unwrap(),
                },
            )
        } else {
            None
        }
    }
}

/// Sent when multiple messages are deleted at once.
#[derive(Clone, Debug, PartialEq, Eq)]
pub struct MessageDeleteBulk {
    /// Ids of the messages.
    pub ids: Vec<MessageId>,
    /// Id of the channel the message was in.
    pub channel_id: ChannelId,
    /// Id of the guild the message was in.
    pub guild_id: Option<GuildId>,
}

/// The model of a [`MessageDeleteBulk`]: the same fields, each by its model.
pub ghost struct MessageDeleteBulkModel {
    pub ids: Seq<Seq<char>>,
    pub channel_id: Seq<char>,
    pub guild_id: Option<Seq<char>>,
}

impl DeepView for MessageDeleteBulk {
    type V = MessageDeleteBulkModel;

    open spec fn deep_view(&self) -> MessageDeleteBulkModel {
        MessageDeleteBulkModel {
            ids: self.ids.deep_view(),
            channel_id: self.channel_id.deep_view(),
            guild_id: self.guild_id.deep_view(),
        }
    }
}

impl Decode for MessageDeleteBulk {
    open spec fn parse(doc: Doc) -> Option<MessageDeleteBulkModel> {
        if {
            &&& required_parse::<Vec<MessageId>>(doc, "ids"@) is Some
            &&& required_parse::<ChannelId>(doc, "channel_id"@) is Some
            &&& optional_parse::<GuildId>(doc, "guild_id"@) is Some
        } {
            Some(
                MessageDeleteBulkModel {
                    ids: required_parse::<Vec<MessageId>>(doc, "ids"@).unwrap(),
                    channel_id: required_parse::<ChannelId>(doc, "channel_id"@).unwrap(),
                    guild_id: optional_parse::<GuildId>(doc, "guild_id"@).unwrap(),
                },
            )
        } else {
            None
        }
    }

    open spec fn gaps(doc: Doc, at: Seq<char>, found: Seq<Seq<char>>) -> Seq<Seq<char>> {
        let found = required_gaps::<Vec<MessageId>>(doc, "ids"@, at, found);
        let found = required_gaps::<ChannelId>(doc, "channel_id"@, at, found);
        let found = optional_gaps::<GuildId>(doc, "guild_id"@, at, found);
        found
    }

    open spec fn needs(doc: Doc, key: Seq<char>) -> bool {
        ||| key == "ids"@
        ||| key == "channel_id"@
    }

    proof fn gaps_law(doc: Doc, at: Seq<char>, found: Seq<Seq<char>>) {
        let start = found;
        settles_start(start);
        required_step::<Vec<MessageId>>(doc, "ids"@, at, true, start, found);
        let fits = required_parse::<Vec<MessageId>>(doc, "ids"@) is Some;
        let found = required_gaps::<Vec<MessageId>>(doc, "ids"@, at, found);
        required_step::<ChannelId>(doc, "channel_id"@, at, fits, start, found);
        let fits = fits && required_parse::<ChannelId>(doc, "channel_id"@) is Some;
        let found = required_gaps::<ChannelId>(doc, "channel_id"@, at, found);
        optional_step::<GuildId>(doc, "guild_id"@, at, fits, start, found);
    }

    proof fn absent_is_noted(doc: Doc, at: Seq<char>, found: Seq<Seq<char>>, key: Seq<char>) {
        let path = field_path(at, key);
        required_keeps::<Vec<MessageId>>(doc, "ids"@, at, found, path);
        let found = required_gaps::<Vec<MessageId>>(doc, "ids"@, at, found);
        required_keeps::<ChannelId>(doc, "channel_id"@, at, found, path);
        let found = required_gaps::<ChannelId>(doc, "channel_id"@, at, found);
        optional_keeps::<GuildId>(doc, "guild_id"@, at, found, path);
    }

    fn decode(raw: &Value, at: &str, gaps: &mut Vec<String>) -> (r: Option<Self>) {
        let ids = required::<Vec<MessageId>>(raw, "ids", at, gaps);
        let channel_id = required::<ChannelId>(raw, "channel_id", at, gaps);
        let guild_id = optional::<GuildId>(raw, "guild_id", at, gaps);
        if ids.is_some()
            && channel_id.is_some()
            && guild_id.is_some() {
            Some(
                MessageDeleteBulk {
                    ids: ids.unwrap(),
                    channel_id: channel_id.unwrap(),
                    guild_id: guild_id.unwrap(),
                },
            )
        } else {
            None
        }
    }
}

/// Sent when a user adds a reaction to a message.
#[derive(Clone, Debug, PartialEq, Eq)]
pub struct MessageReactionAdd {
    /// Id of the user.
    pub user_id: UserId,
    /// Id of the channel.
    pub channel_id: ChannelId,
    /// Id of the message.
    pub message_id: MessageId,
    /// Id of the guild.
    pub guild_id: Option<GuildId>,
    /// The guild member that reacted.
    pub member: Option<GuildMember>,
    /// The emoji used in the reaction.
    pub emoji: Emoji,
}

/// The model of a [`MessageReactionAdd`]: the same fields, each by its model.
pub ghost struct MessageReactionAddModel {
    pub user_id: Seq<char>,
    pub channel_id: Seq<char>,
    pub message_id: Seq<char>,
    pub guild_id: Option<Seq<char>>,
    pub member: Option<GuildMemberModel>,
    pub emoji: EmojiModel,
}

impl DeepView for MessageReactionAdd {
    type V = MessageReactionAddModel;

    open spec fn deep_view(&self) -> MessageReactionAddModel {
        MessageReactionAddModel {
            user_id: self.user_id.deep_view(),
            channel_id: self.channel_id.deep_view(),
            message_id: self.message_id.deep_view(),
            guild_id: self.guild_id.deep_view(),
            member: self.member.deep_view(),
            emoji: self.emoji.deep_view(),
        }
    }
}

impl Decode for MessageReactionAdd {
    open spec fn parse(doc: Doc) -> Option<MessageReactionAddModel> {
        if {
            &&& required_parse::<UserId>(doc, "user_id"@) is Some
            &&& required_parse::<ChannelId>(doc, "channel_id"@) is Some
            &&& required_parse::<MessageId>(doc, "message_id"@) is Some
            &&& optional_parse::<GuildId>(doc, "guild_id"@) is Some
            &&& optional_parse::<GuildMember>(doc, "member"@) is Some
            &&& required_parse::<Emoji>(doc, "emoji"@) is Some
        } {
            Some(
                MessageReactionAddModel {
                    user_id: required_parse::<UserId>(doc, "user_id"@).unwrap(),
                    channel_id: required_parse::<ChannelId>(doc, "channel_id"@).unwrap(),
                    message_id: required_parse::<MessageId>(doc, "message_id"@).unwrap(),
                    guild_id: optional_parse::<GuildId>(doc, "guild_id"@).unwrap(),
                    member: optional_parse::<GuildMember>(doc, "member"@).unwrap(),
                    emoji: required_parse::<Emoji>(doc, "emoji"@).unwrap(),
                },
            )
        } else {
            None
        }
    }

    open spec fn gaps(doc: Doc, at: Seq<char>, found: Seq<Seq<char>>) -> Seq<Seq<char>> {
        let found = required_gaps::<UserId>(doc, "user_id"@, at, found);
        let found = required_gaps::<ChannelId>(doc, "channel_id"@, at, found);
        let found = required_gaps::<MessageId>(doc, "message_id"@, at, found);
        let found = optional_gaps::<GuildId>(doc, "guild_id"@, at, found);
        let found = optional_gaps::<GuildMember>(doc, "member"@, at, found);
        let found = required_gaps::<Emoji>(doc, "emoji"@, at, found);
        found
    }

    open spec fn needs(doc: Doc, key: Seq<char>) -> bool {
        ||| key == "user_id"@
        ||| key == "channel_id"@
        ||| key == "message_id"@
        ||| key == "emoji"@
    }

    proof fn gaps_law(doc: Doc, at: Seq<char>, found: Seq<Seq<char>>) {
        let start = found;
        settles_start(start);
        required_step::<UserId>(doc, "user_id"@, at, true, start, found);
        let fits = required_parse::<UserId>(doc, "user_id"@) is Some;
        let found = required_gaps::<UserId>(doc, "user_id"@, at, found);
        required_step::<ChannelId>(doc, "channel_id"@, at, fits, start, found);
        let fits = fits && required_parse::<ChannelId>(doc, "channel_id"@) is Some;
        let found = required_gaps::<ChannelId>(doc, "channel_id"@, at, found);
        required_step::<MessageId>(doc, "message_id"@, at, fits, start, found);
        let fits = fits && required_parse::<MessageId>(doc, "message_id"@) is Some;
        let found = required_gaps::<MessageId>(doc, "message_id"@, at, found);
        optional_step::<GuildId>(doc, "guild_id"@, at, fits, start, found);
        let fits = fits && optional_parse::<GuildId>(doc, "guild_id"@) is Some;
        let found = optional_gaps::<GuildId>(doc, "guild_id"@, at, found);
        optional_step::<GuildMember>(doc, "member"@, at, fits, start, found);
        let fits = fits && optional_parse::<GuildMember>(doc, "member"@) is Some;
        let found = optional_gaps::<GuildMember>(doc, "member"@, at, found);
        required_step::<Emoji>(doc, "emoji"@, at, fits, start, found);
    }

    proof fn absent_is_noted(doc: Doc, at: Seq<char>, found: Seq<Seq<char>>, key: Seq<char>) {
        let path = field_path(at, key);
        required_keeps::<UserId>(doc, "user_id"@, at, found, path);
        let found = required_gaps::<UserId>(doc, "user_id"@, at, found);
        required_keeps::<ChannelId>(doc, "channel_id"@, at, found, path);
        let found = required_gaps::<ChannelId>(doc, "channel_id"@, at, found);
        required_keeps::<MessageId>(doc, "message_id"@, at, found, path);
        let found = required_gaps::<MessageId>(doc, "message_id"@, at, found);
        optional_keeps::<GuildId>(doc, "guild_id"@, at, found, path);
        let found = optional_gaps::<GuildId>(doc, "guild_id"@, at, found);
        optional_keeps::<GuildMember>(doc, "member"@, at, found, path);
        let found = optional_gaps::<GuildMember>(doc, "member"@, at, found);
        required_keeps::<Emoji>(doc, "emoji"@, at, found, path);
    }

    fn decode(raw: &Value, at: &str, gaps: &mut Vec<String>) -> (r: Option<Self>) {
        let user_id = required::<UserId>(raw, "user_id", at, gaps);
        let channel_id = required::<ChannelId>(raw, "channel_id", at, gaps);
        let message_id = required::<MessageId>(raw, "message_id", at, gaps);
        let guild_id = optional::<GuildId>(raw, "guild_id", at, gaps);
        let member = optional::<GuildMember>(raw, "member", at, gaps);
        let emoji = required::<Emoji>(raw, "emoji", at, gaps);
        if user_id.is_some()
            && channel_id.is_some()
            && message_id.is_some()
            && guild_id.is_some()
            && member.is_some()
            && emoji.is_some() {
            Some(
                MessageReactionAdd {
                    user_id: user_id.unwrap(),
                    channel_id: channel_id.unwrap(),
                    message_id: message_id.unwrap(),
                    guild_id: guild_id.unwrap(),
                    member: member.unwrap(),
                    emoji: emoji.unwrap(),
                },
            )
        } else {
            None
        }
    }
}

/// Sent when a user removes a reaction to a message.
#[derive(Clone, Debug, PartialEq, Eq)]
pub struct MessageReactionRemove {
    /// Id of the user.
    pub user_id: UserId,
    /// Id of the channel.
    pub channel_id: ChannelId,
    /// Id of the message.
    pub message_id: MessageId,
    /// Id of the guild.
    pub guild_id: Option<GuildId>,
    /// The emoji used in the reaction.
    pub emoji: Emoji,
}

/// The model of a [`MessageReactionRemove`]: the same fields, each by its model.
pub ghost struct MessageReactionRemoveModel {
    pub user_id: Seq<char>,
    pub channel_id: Seq<char>,
    pub message_id: Seq<char>,
    pub guild_id: Option<Seq<char>>,
    pub emoji: EmojiModel,
}

impl DeepView for MessageReactionRemove {
    type V = MessageReactionRemoveModel;

    open spec fn deep_view(&self) -> MessageReactionRemoveModel {
        MessageReactionRemoveModel {
            user_id: self.user_id.deep_view(),
            channel_id: self.channel_id.deep_view(),
            message_id: self.message_id.deep_view(),
            guild_id: self.guild_id.deep_view(),
            emoji: self.emoji.deep_view(),
        }
    }
}

impl Decode for MessageReactionRemove {
    open spec fn parse(doc: Doc) -> Option<MessageReactionRemoveModel> {
        if {
            &&& required_parse::<UserId>(doc, "user_id"@) is Some
            &&& required_parse::<ChannelId>(doc, "channel_id"@) is Some
            &&& required_parse::<MessageId>(doc, "message_id"@) is Some
            &&& optional_parse::<GuildId>(doc, "guild_id"@) is Some
            &&& required_parse::<Emoji>(doc, "emoji"@) is Some
        } {
            Some(
                MessageReactionRemoveModel {
                    user_id: required_parse::<UserId>(doc, "user_id"@).unwrap(),
                    channel_id: required_parse::<ChannelId>(doc, "channel_id"@).unwrap(),
                    message_id: required_parse::<MessageId>(doc, "message_id"@).unwrap(),
                    guild_id: optional_parse::<GuildId>(doc, "guild_id"@).unwrap(),
                    emoji: required_parse::<Emoji>(doc, "emoji"@).unwrap(),
                },
            )
        } else {
            None
        }
    }

    open spec fn gaps(doc: Doc, at: Seq<char>, found: Seq<Seq<char>>) -> Seq<Seq<char>> {
        let found = required_gaps::<UserId>(doc, "user_id"@, at, found);
        let found = required_gaps::<ChannelId>(doc, "channel_id"@, at, found);
        let found = required_gaps::<MessageId>(doc, "message_id"@, at, found);
        let found = optional_gaps::<GuildId>(doc, "guild_id"@, at, found);
        let found = required_gaps::<Emoji>(doc, "emoji"@, at, found);
        found
    }

    open spec fn needs(doc: Doc, key: Seq<char>) -> bool {
        ||| key == "user_id"@
        ||| key == "channel_id"@
        ||| key == "message_id"@
        ||| key == "emoji"@
    }

    proof fn gaps_law(doc: Doc, at: Seq<char>, found: Seq<Seq<char>>) {
        let start = found;
        settles_start(start);
        required_step::<UserId>(doc, "user_id"@, at, true, start, found);
        let fits = required_parse::<UserId>(doc, "user_id"@) is Some;
        let found = required_gaps::<UserId>(doc, "user_id"@, at, found);
        required_step::<ChannelId>(doc, "channel_id"@, at, fits, start, found);
        let fits = fits && required_parse::<ChannelId>(doc, "channel_id"@) is Some;
        let found = required_gaps::<ChannelId>(doc, "channel_id"@, at, found);
        required_step::<MessageId>(doc, "message_id"@, at, fits, start, found);
        let fits = fits && required_parse::<MessageId>(doc, "message_id"@) is Some;
        let found = required_gaps::<MessageId>(doc, "message_id"@, at, found);
        optional_step::<GuildId>(doc, "guild_id"@, at, fits, start, found);
        let fits = fits && optional_parse::<GuildId>(doc, "guild_id"@) is Some;
        let found = optional_gaps::<GuildId>(doc, "guild_id"@, at, found);
        required_step::<Emoji>(doc, "emoji"@, at, fits, start, found);
    }

    proof fn absent_is_noted(doc: Doc, at: Seq<char>, found: Seq<Seq<char>>, key: Seq<char>) {
        let path = field_path(at, key);
        required_keeps::<UserId>(doc, "user_id"@, at, found, path);
        let found = required_gaps::<UserId>(doc, "user_id"@, at, found);
        required_keeps::<ChannelId>(doc, "channel_id"@, at, found, path);
        let found = required_gaps::<ChannelId>(doc, "channel_id"@, at, found);
        required_keeps::<MessageId>(doc, "message_id"@, at, found, path);
        let found = required_gaps::<MessageId>(doc, "message_id"@, at, found);
        optional_keeps::<GuildId>(doc, "guild_id"@, at, found, path);
        let found = optional_gaps::<GuildId>(doc, "guild_id"@, at, found);
        required_keeps::<Emoji>(doc, "emoji"@, at, found, path);
    }

    fn decode(raw: &Value, at: &str, gaps: &mut Vec<String>) -> (r: Option<Self>) {
        let user_id = required::<UserId>(raw, "user_id", at, gaps);
        let channel_id = required::<ChannelId>(raw, "channel_id", at, gaps);
        let message_id = required::<MessageId>(raw, "message_id", at, gaps);
        let guild_id = optional::<GuildId>(raw, "guild_id", at, gaps);
        let emoji = required::<Emoji>(raw, "emoji", at, gaps);
        if user_id.is_some()
            && channel_id.is_some()
            && message_id.is_some()
            && guild_id.is_some()
            && emoji.is_some() {
            Some(
                MessageReactionRemove {
                    user_id: user_id.unwrap(),
                    channel_id: channel_id.unwrap(),
                    message_id: message_id.unwrap(),
                    guild_id: guild_id.unwrap(),
                    emoji: emoji.unwrap(),
                },
            )
        } else {
            None
        }
    }
}

/// Sent when a user explicitly removes all reactions from a message.
#[derive(Clone, Debug, PartialEq, Eq)]
pub struct MessageReactionRemoveAll {
    /// Id of the channel.
    pub channel_id: ChannelId,
    /// Id of the message.
    pub message_id: MessageId,
    /// Id of the guild.
    pub guild_id: Option<GuildId>,
}

/// The model of a [`MessageReactionRemoveAll`]: the same fields, each by its model.
pub ghost struct MessageReactionRemoveAllModel {
    pub channel_id: Seq<char>,
    pub message_id: Seq<char>,
    pub guild_id: Option<Seq<char>>,
}

impl DeepView for MessageReactionRemoveAll {
    type V = MessageReactionRemoveAllModel;

    open spec fn deep_view(&self) -> MessageReactionRemoveAllModel {
        MessageReactionRemoveAllModel {
            channel_id: self.channel_id.deep_view(),
            message_id: self.message_id.deep_view(),
            guild_id: self.guild_id.deep_view(),
        }
    }
}

impl Decode for MessageReactionRemoveAll {
    open spec fn parse(doc: Doc) -> Option<MessageReactionRemoveAllModel> {
        if {
            &&& required_parse::<ChannelId>(doc, "channel_id"@) is Some
            &&& required_parse::<MessageId>(doc, "message_id"@) is Some
            &&& optional_parse::<GuildId>(doc, "guild_id"@) is Some
        } {
            Some(
                MessageReactionRemoveAllModel {
                    channel_id: required_parse::<ChannelId>(doc, "channel_id"@).unwrap(),
                    message_id: required_parse::<MessageId>(doc, "message_id"@).unwrap(),
                    guild_id: optional_parse::<GuildId>(doc, "guild_id"@).unwrap(),
                },
            )
        } else {
            None
        }
    }

    open spec fn gaps(doc: Doc, at: Seq<char>, found: Seq<Seq<char>>) -> Seq<Seq<char>> {
        let found = required_gaps::<ChannelId>(doc, "channel_id"@, at, found);
        let found = required_gaps::<MessageId>(doc, "message_id"@, at, found);
        let found = optional_gaps::<GuildId>(doc, "guild_id"@, at, found);
        found
    }

    open spec fn needs(doc: Doc, key: Seq<char>) -> bool {
        ||| key == "channel_id"@
        ||| key == "message_id"@
    }

    proof fn gaps_law(doc: Doc, at: Seq<char>, found: Seq<Seq<char>>) {
        let start = found;
        settles_start(start);
        required_step::<ChannelId>(doc, "channel_id"@, at, true, start, found);
        let fits = required_parse::<ChannelId>(doc, "channel_id"@) is Some;
        let found = required_gaps::<ChannelId>(doc, "channel_id"@, at, found);
        required_step::<MessageId>(doc, "message_id"@, at, fits, start, found);
        let fits = fits && required_parse::<MessageId>(doc, "message_id"@) is Some;
        let found = required_gaps::<MessageId>(doc, "message_id"@, at, found);
        optional_step::<GuildId>(doc, "guild_id"@, at, fits, start, found);
    }

    proof fn absent_is_noted(doc: Doc, at: Seq<char>, found: Seq<Seq<char>>, key: Seq<char>) {
        let path = field_path(at, key);
        required_keeps::<ChannelId>(doc, "channel_id"@, at, found, path);
        let found = required_gaps::<ChannelId>(doc, "channel_id"@, at, found);
        required_keeps::<MessageId>(doc, "message_id"@, at, found, path);
        let found = required_gaps::<MessageId>(doc, "message_id"@, at, found);
        optional_keeps::<GuildId>(doc, "guild_id"@, at, found, path);
    }

    fn decode(raw: &Value, at: &str, gaps: &mut Vec<String>) -> (r: Option<Self>) {
        let channel_id = required::<ChannelId>(raw, "channel_id", at, gaps);
        let message_id = required::<MessageId>(raw, "message_id", at, gaps);
        let guild_id = optional::<GuildId>(raw, "guild_id", at, gaps);
        if channel_id.is_some()
            && message_id.is_some()
            && guild_id.is_some() {
            Some(
                MessageReactionRemoveAll {
                    channel_id: channel_id.unwrap(),
                    message_id: message_id.unwrap(),
                    guild_id: guild_id.unwrap(),
                },
            )
        } else {
            None
        }
    }
}

} // verus!
