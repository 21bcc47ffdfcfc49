//! Contains the various Channel types.

pub mod dm;
pub mod group_dm;
pub mod guild_category;
pub mod guild_news;
pub mod guild_store;
pub mod guild_text;
pub mod guild_voice;

use crate::decode::{
    keeps, mark, note, note_settles, optional, optional_gaps, optional_keeps, optional_parse,
    optional_step, read_integer, required, required_gaps, required_keeps, required_parse,
    required_step, settles, settles_chain, settles_means, settles_start, Decode,
};
use crate::document::{doc_of, member, Doc};
use crate::error::{outcome_model, DecodeError, DecodeErrorModel};
use crate::path::{field_path, field_path_text};
use crate::resources::channel::dm::{DMChannel, DMChannelModel};
use crate::resources::channel::group_dm::{GroupDMChannel, GroupDMChannelModel};
use crate::resources::channel::guild_category::{GuildCategoryChannel, GuildCategoryChannelModel};
use crate::resources::channel::guild_news::{GuildNewsChannel, GuildNewsChannelModel};
use crate::resources::channel::guild_store::{GuildStoreChannel, GuildStoreChannelModel};
use crate::resources::channel::guild_text::{GuildTextChannel, GuildTextChannelModel};
use crate::resources::channel::guild_voice::{GuildVoiceChannel, GuildVoiceChannelModel};
use crate::resources::guild::GuildId;
use crate::resources::message::MessageId;
use crate::resources::user::UserId;
use crate::time::Timestamp;
use serde_json::Value;
use vstd::prelude::*;

verus! {

/// A snowflake which is the id of a channel.
#[derive(Clone, Debug, PartialEq, Eq)]
pub struct ChannelId(pub String);

impl DeepView for ChannelId {
    type V = Seq<char>;

    open spec fn deep_view(&self) -> Seq<char> {
        self.0@
    }
}

impl Decode for ChannelId {
    open spec fn parse(doc: Doc) -> Option<Seq<char>> {
        String::parse(doc)
    }

    open spec fn gaps(doc: Doc, at: Seq<char>, found: Seq<Seq<char>>) -> Seq<Seq<char>> {
        String::gaps(doc, at, found)
    }

    open spec fn needs(doc: Doc, key: Seq<char>) -> bool {
        false
    }

    proof fn gaps_law(doc: Doc, at: Seq<char>, found: Seq<Seq<char>>) {
        String::gaps_law(doc, at, found);
    }

    proof fn absent_is_noted(doc: Doc, at: Seq<char>, found: Seq<Seq<char>>, key: Seq<char>) {
    }

    fn decode(value: &Value, at: &str, gaps: &mut Vec<String>) -> (r: Option<Self>) {
        match String::decode(value, at, gaps) {
            Some(token) => Some(ChannelId(token)),
            None => None,
        }
    }
}

/// The type of channel it is.
#[derive(Clone, Copy, Debug, PartialEq, Eq)]
pub enum ChannelType {
    /// A text channel within a server.
    GuildText,
    /// A direct message between users.
    Dm,
    /// A voice channel within a server.
    GuildVoice,
    /// A direct message between multiple users.
    GroupDm,
    /// An organisational category that contains channels.
    GuildCategory,
    /// A channel that users can follow and crosspost into their own server,
    GuildNews,
    /// A channel in which game developers can sell their game on Discord.
    GuildStore,
}

impl ChannelType {
    /// The variant that the wire code `code` stands for, if it stands for one.
    pub open spec fn of_code(code: u64) -> Option<ChannelType> {
        if code == 0 {
            Some(ChannelType::GuildText)
        } else if code == 1 {
            Some(ChannelType::Dm)
        } else if code == 2 {
            Some(ChannelType::GuildVoice)
        } else if code == 3 {
            Some(ChannelType::GroupDm)
        } else if code == 4 {
            Some(ChannelType::GuildCategory)
        } else if code == 5 {
            Some(ChannelType::GuildNews)
        } else if code == 6 {
            Some(ChannelType::GuildStore)
        } else {
            None
        }
    }

    /// The wire code of this variant.
    pub open spec fn spec_code(self) -> u8 {
        match self {
            ChannelType::GuildText => 0,
            ChannelType::Dm => 1,
            ChannelType::GuildVoice => 2,
            ChannelType::GroupDm => 3,
            ChannelType::GuildCategory => 4,
            ChannelType::GuildNews => 5,
            ChannelType::GuildStore => 6,
        }
    }

    /// Finds the variant that the wire code `code` stands for.
    pub fn from_code(code: u64) -> (r: Option<ChannelType>)
        ensures
            r == Self::of_code(code),
    {
        if code == 0 {
            Some(ChannelType::GuildText)
        } else if code == 1 {
            Some(ChannelType::Dm)
        } else if code == 2 {
            Some(ChannelType::GuildVoice)
        } else if code == 3 {
            Some(ChannelType::GroupDm)
        } else if code == 4 {
            Some(ChannelType::GuildCategory)
        } else if code == 5 {
            Some(ChannelType::GuildNews)
        } else if code == 6 {
            Some(ChannelType::GuildStore)
        } else {
            None
        }
    }

    /// The wire code of this variant.
    #[verifier::when_used_as_spec(spec_code)]
    pub fn code(self) -> (r: u8)
        ensures
            r == self.spec_code(),
            Self::of_code(r as u64) == Some(self),
    {
        match self {
            ChannelType::GuildText => 0,
            ChannelType::Dm => 1,
            ChannelType::GuildVoice => 2,
            ChannelType::GroupDm => 3,
            ChannelType::GuildCategory => 4,
            ChannelType::GuildNews => 5,
            ChannelType::GuildStore => 6,
        }
    }
}

impl DeepView for ChannelType {
    type V = ChannelType;

    open spec fn deep_view(&self) -> ChannelType {
        *self
    }
}

impl Decode for ChannelType {
    open spec fn parse(doc: Doc) -> Option<ChannelType> {
        match doc {
            Doc::Unsigned(code) => Self::of_code(code),
            _ => None,
        }
    }

    open spec fn gaps(doc: Doc, at: Seq<char>, found: Seq<Seq<char>>) -> Seq<Seq<char>> {
        note(Self::parse(doc) is Some, at, found)
    }

    open spec fn needs(doc: Doc, key: Seq<char>) -> bool {
        false
    }

    proof fn gaps_law(doc: Doc, at: Seq<char>, found: Seq<Seq<char>>) {
        note_settles(Self::parse(doc) is Some, at, found);
    }

    proof fn absent_is_noted(doc: Doc, at: Seq<char>, found: Seq<Seq<char>>, key: Seq<char>) {
    }

    fn decode(value: &Value, at: &str, gaps: &mut Vec<String>) -> (r: Option<Self>) {
        let found = match value.as_u64() {
            Some(code) => Self::from_code(code),
            None => None,
        };
        if found.is_none() {
            mark(gaps, at.to_owned());
        }
        found
    }
}

/// A channel as it arrives, before its kind is resolved: the kind's code and
/// every field that appears in any kind of channel, each of them optional but
/// the id.
///
/// [`Channel::decode`] reads one of these first and then assembles the variant
/// that the code selects from the fields that variant owns.
#[derive(Clone, Debug, PartialEq, Eq)]
pub struct InitialChannel {
    /// The id of this channel.
    pub id: ChannelId,
    /// The kind of channel, sent under the name `type`.
    pub code: ChannelType,
    /// The id of the guild.
    pub guild_id: Option<GuildId>,
    /// Sorting position of the channel.
    pub position: Option<u32>,
    /// The name of the channel.
    pub name: Option<String>,
    /// The topic of the channel.
    pub topic: Option<String>,
    /// Whether the channel is nsfw or not.
    pub nsfw: Option<bool>,
    /// The id of the last message sent in this channel.
    pub last_message_id: Option<MessageId>,
    /// The bitrate (in bits) of a voice channel.
    pub bitrate: Option<u32>,
    /// The user limit of a voice channel.
    pub user_limit: Option<u32>,
    /// Amount of seconds a user has to wait before sending another message.
    pub rate_limit_per_user: Option<u16>,
    /// Icon hash.
    pub icon: Option<String>,
    /// Id of the creator of a group direct message.
    pub owner_id: Option<UserId>,
    /// Id of the parent category of the channel.
    pub parent_id: Option<MessageId>,
    /// When the last pinned message was pinned.
    pub last_pin_timestamp: Option<Timestamp>,
}

/// The model of a [`InitialChannel`]: the same fields, each by its model.
pub ghost struct InitialChannelModel {
    pub id: Seq<char>,
    pub code: ChannelType,
    pub guild_id: Option<Seq<char>>,
    pub position: Option<u32>,
    pub name: Option<Seq<char>>,
    pub topic: Option<Seq<char>>,
    pub nsfw: Option<bool>,
    pub last_message_id: Option<Seq<char>>,
    pub bitrate: Option<u32>,
    pub user_limit: Option<u32>,
    pub rate_limit_per_user: Option<u16>,
    pub icon: Option<Seq<char>>,
    pub owner_id: Option<Seq<char>>,
    pub parent_id: Option<Seq<char>>,
    pub last_pin_timestamp: Option<Timestamp>,
}

impl DeepView for InitialChannel {
    type V = InitialChannelModel;

    open spec fn deep_view(&self) -> InitialChannelModel {
        InitialChannelModel {
            id: self.id.deep_view(),
            code: self.code.deep_view(),
            guild_id: self.guild_id.deep_view(),
            position: self.position.deep_view(),
            name: self.name.deep_view(),
            topic: self.topic.deep_view(),
            nsfw: self.nsfw.deep_view(),
            last_message_id: self.last_message_id.deep_view(),
            bitrate: self.bitrate.deep_view(),
            user_limit: self.user_limit.deep_view(),
            rate_limit_per_user: self.rate_limit_per_user.deep_view(),
            icon: self.icon.deep_view(),
            owner_id: self.owner_id.deep_view(),
            parent_id: self.parent_id.deep_view(),
            last_pin_timestamp: self.last_pin_timestamp.deep_view(),
        }
    }
}

impl Decode for InitialChannel {
    open spec fn parse(doc: Doc) -> Option<InitialChannelModel> {
        if {
            &&& required_parse::<ChannelId>(doc, "id"@) is Some
            &&& required_parse::<ChannelType>(doc, "type"@) is Some
            &&& optional_parse::<GuildId>(doc, "guild_id"@) is Some
            &&& optional_parse::<u32>(doc, "position"@) is Some
            &&& optional_parse::<String>(doc, "name"@) is Some
            &&& optional_parse::<String>(doc, "topic"@) is Some
            &&& optional_parse::<bool>(doc, "nsfw"@) is Some
            &&& optional_parse::<MessageId>(doc, "last_message_id"@) is Some
            &&& optional_parse::<u32>(doc, "bitrate"@) is Some
            &&& optional_parse::<u32>(doc, "user_limit"@) is Some
            &&& optional_parse::<u16>(doc, "rate_limit_per_user"@) is Some
            &&& optional_parse::<String>(doc, "icon"@) is Some
            &&& optional_parse::<UserId>(doc, "owner_id"@) is Some
            &&& optional_parse::<MessageId>(doc, "parent_id"@) is Some
            &&& optional_parse::<Timestamp>(doc, "last_pin_timestamp"@) is Some
        } {
            Some(
                InitialChannelModel {
                    id: required_parse::<ChannelId>(doc, "id"@).unwrap(),
                    code: required_parse::<ChannelType>(doc, "type"@).unwrap(),
                    guild_id: optional_parse::<GuildId>(doc, "guild_id"@).unwrap(),
                    position: optional_parse::<u32>(doc, "position"@).unwrap(),
                    name: optional_parse::<String>(doc, "name"@).unwrap(),
                    topic: optional_parse::<String>(doc, "topic"@).unwrap(),
                    nsfw: optional_parse::<bool>(doc, "nsfw"@).unwrap(),
                    last_message_id: optional_parse::<MessageId>(doc, "last_message_id"@).unwrap(),
                    bitrate: optional_parse::<u32>(doc, "bitrate"@).unwrap(),
                    user_limit: optional_parse::<u32>(doc, "user_limit"@).unwrap(),
                    rate_limit_per_user: optional_parse::<u16>(
                        doc,
                        "rate_limit_per_user"@,
                    ).unwrap(),
                    icon: optional_parse::<String>(doc, "icon"@).unwrap(),
                    owner_id: optional_parse::<UserId>(doc, "owner_id"@).unwrap(),
                    parent_id: optional_parse::<MessageId>(doc, "parent_id"@).unwrap(),
                    last_pin_timestamp: optional_parse::<Timestamp>(
                        doc,
                        "last_pin_timestamp"@,
                    ).unwrap(),
                },
            )
        } else {
            None
        }
    }

    open spec fn gaps(doc: Doc, at: Seq<char>, found: Seq<Seq<char>>) -> Seq<Seq<char>> {
        let found = required_gaps::<ChannelId>(doc, "id"@, at, found);
        let found = required_gaps::<ChannelType>(doc, "type"@, at, found);
        let found = optional_gaps::<GuildId>(doc, "guild_id"@, at, found);
        let found = optional_gaps::<u32>(doc, "position"@, at, found);
        let found = optional_gaps::<String>(doc, "name"@, at, found);
        let found = optional_gaps::<String>(doc, "topic"@, at, found);
        let found = optional_gaps::<bool>(doc, "nsfw"@, at, found);
        let found = optional_gaps::<MessageId>(doc, "last_message_id"@, at, found);
        let found = optional_gaps::<u32>(doc, "bitrate"@, at, found);
        let found = optional_gaps::<u32>(doc, "user_limit"@, at, found);
        let found = optional_gaps::<u16>(doc, "rate_limit_per_user"@, at, found);
        let found = optional_gaps::<String>(doc, "icon"@, at, found);
        let found = optional_gaps::<UserId>(doc, "owner_id"@, at, found);
        let found = optional_gaps::<MessageId>(doc, "parent_id"@, at, found);
        let found = optional_gaps::<Timestamp>(doc, "last_pin_timestamp"@, at, found);
        found
    }

    open spec fn needs(doc: Doc, key: Seq<char>) -> bool {
        ||| key == "id"@
        ||| key == "type"@
    }

    proof fn gaps_law(doc: Doc, at: Seq<char>, found: Seq<Seq<char>>) {
        let start = found;
        settles_start(start);
        required_step::<ChannelId>(doc, "id"@, at, true, start, found);
        let fits = required_parse::<ChannelId>(doc, "id"@) is Some;
        let found = required_gaps::<ChannelId>(doc, "id"@, at, found);
        required_step::<ChannelType>(doc, "type"@, at, fits, start, found);
        let fits = fits && required_parse::<ChannelType>(doc, "type"@) is Some;
        let found = required_gaps::<ChannelType>(doc, "type"@, at, found);
        optional_step::<GuildId>(doc, "guild_id"@, at, fits, start, found);
        let fits = fits && optional_parse::<GuildId>(doc, "guild_id"@) is Some;
        let found = optional_gaps::<GuildId>(doc, "guild_id"@, at, found);
        optional_step::<u32>(doc, "position"@, at, fits, start, found);
        let fits = fits && optional_parse::<u32>(doc, "position"@) is Some;
        let found = optional_gaps::<u32>(doc, "position"@, at, found);
        optional_step::<String>(doc, "name"@, at, fits, start, found);
        let fits = fits && optional_parse::<String>(doc, "name"@) is Some;
        let found = optional_gaps::<String>(doc, "name"@, at, found);
        optional_step::<String>(doc, "topic"@, at, fits, start, found);
        let fits = fits && optional_parse::<String>(doc, "topic"@) is Some;
        let found = optional_gaps::<String>(doc, "topic"@, at, found);
        optional_step::<bool>(doc, "nsfw"@, at, fits, start, found);
        let fits = fits && optional_parse::<bool>(doc, "nsfw"@) is Some;
        let found = optional_gaps::<bool>(doc, "nsfw"@, at, found);
        optional_step::<MessageId>(doc, "last_message_id"@, at, fits, start, found);
        let fits = fits && optional_parse::<MessageId>(doc, "last_message_id"@) is Some;
        let found = optional_gaps::<MessageId>(doc, "last_message_id"@, at, found);
        optional_step::<u32>(doc, "bitrate"@, at, fits, start, found);
        let fits = fits && optional_parse::<u32>(doc, "bitrate"@) is Some;
        let found = optional_gaps::<u32>(doc, "bitrate"@, at, found);
        optional_step::<u32>(doc, "user_limit"@, at, fits, start, found);
        let fits = fits && optional_parse::<u32>(doc, "user_limit"@) is Some;
        let found = optional_gaps::<u32>(doc, "user_limit"@, at, found);
        optional_step::<u16>(doc, "rate_limit_per_user"@, at, fits, start, found);
        let fits = fits && optional_parse::<u16>(doc, "rate_limit_per_user"@) is Some;
        let found = optional_gaps::<u16>(doc, "rate_limit_per_user"@, at, found);
        optional_step::<String>(doc, "icon"@, at, fits, start, found);
        let fits = fits && optional_parse::<String>(doc, "icon"@) is Some;
        let found = optional_gaps::<String>(doc, "icon"@, at, found);
        optional_step::<UserId>(doc, "owner_id"@, at, fits, start, found);
        let fits = fits && optional_parse::<UserId>(doc, "owner_id"@) is Some;
        let found = optional_gaps::<UserId>(doc, "owner_id"@, at, found);
        optional_step::<MessageId>(doc, "parent_id"@, at, fits, start, found);
        let fits = fits && optional_parse::<MessageId>(doc, "parent_id"@) is Some;
        let found = optional_gaps::<MessageId>(doc, "parent_id"@, at, found);
        optional_step::<Timestamp>(doc, "last_pin_timestamp"@, at, fits, start, found);
    }

    proof fn absent_is_noted(doc: Doc, at: Seq<char>, found: Seq<Seq<char>>, key: Seq<char>) {
        let path = field_path(at, key);
        required_keeps::<ChannelId>(doc, "id"@, at, found, path);
        let found = required_gaps::<ChannelId>(doc, "id"@, at, found);
        required_keeps::<ChannelType>(doc, "type"@, at, found, path);
        let found = required_gaps::<ChannelType>(doc, "type"@, at, found);
        optional_keeps::<GuildId>(doc, "guild_id"@, at, found, path);
        let found = optional_gaps::<GuildId>(doc, "guild_id"@, at, found);
        optional_keeps::<u32>(doc, "position"@, at, found, path);
        let found = optional_gaps::<u32>(doc, "position"@, at, found);
        optional_keeps::<String>(doc, "name"@, at, found, path);
        let found = optional_gaps::<String>(doc, "name"@, at, found);
        optional_keeps::<String>(doc, "topic"@, at, found, path);
        let found = optional_gaps::<String>(doc, "topic"@, at, found);
        optional_keeps::<bool>(doc, "nsfw"@, at, found, path);
        let found = optional_gaps::<bool>(doc, "nsfw"@, at, found);
        optional_keeps::<MessageId>(doc, "last_message_id"@, at, found, path);
        let found = optional_gaps::<MessageId>(doc, "last_message_id"@, at, found);
        optional_keeps::<u32>(doc, "bitrate"@, at, found, path);
        let found = optional_gaps::<u32>(doc, "bitrate"@, at, found);
        optional_keeps::<u32>(doc, "user_limit"@, at, found, path);
        let found = optional_gaps::<u32>(doc, "user_limit"@, at, found);
        optional_keeps::<u16>(doc, "rate_limit_per_user"@, at, found, path);
        let found = optional_gaps::<u16>(doc, "rate_limit_per_user"@, at, found);
        optional_keeps::<String>(doc, "icon"@, at, found, path);
        let found = optional_gaps::<String>(doc, "icon"@, at, found);
        optional_keeps::<UserId>(doc, "owner_id"@, at, found, path);
        let found = optional_gaps::<UserId>(doc, "owner_id"@, at, found);
        optional_keeps::<MessageId>(doc, "parent_id"@, at, found, path);
        let found = optional_gaps::<MessageId>(doc, "parent_id"@, at, found);
        optional_keeps::<Timestamp>(doc, "last_pin_timestamp"@, at, found, path);
    }

    fn decode(raw: &Value, at: &str, gaps: &mut Vec<String>) -> (r: Option<Self>) {
        let id = required::<ChannelId>(raw, "id", at, gaps);
        let code = required::<ChannelType>(raw, "type", at, gaps);
        let guild_id = optional::<GuildId>(raw, "guild_id", at, gaps);
        let position = optional::<u32>(raw, "position", at, gaps);
        let name = optional::<String>(raw, "name", at, gaps);
        let topic = optional::<String>(raw, "topic", at, gaps);
        let nsfw = optional::<bool>(raw, "nsfw", at, gaps);
        let last_message_id = optional::<MessageId>(raw, "last_message_id", at, gaps);
        let bitrate = optional::<u32>(raw, "bitrate", at, gaps);
        let user_limit = optional::<u32>(raw, "user_limit", at, gaps);
        let rate_limit_per_user = optional::<u16>(raw, "rate_limit_per_user", at, gaps);
        let icon = optional::<String>(raw, "icon", at, gaps);
        let owner_id = optional::<UserId>(raw, "owner_id", at, gaps);
        let parent_id = optional::<MessageId>(raw, "parent_id", at, gaps);
        let last_pin_timestamp = optional::<Timestamp>(raw, "last_pin_timestamp", at, gaps);
        if id.is_some()
            && code.is_some()
            && guild_id.is_some()
            && position.is_some()
            && name.is_some()
            && topic.is_some()
            && nsfw.is_some()
            && last_message_id.is_some()
            && bitrate.is_some()
            && user_limit.is_some()
            && rate_limit_per_user.is_some()
            && icon.is_some()
            && owner_id.is_some()
            && parent_id.is_some()
            && last_pin_timestamp.is_some() {
            Some(
                InitialChannel {
                    id: id.unwrap(),
                    code: code.unwrap(),
                    guild_id: guild_id.unwrap(),
                    position: position.unwrap(),
                    name: name.unwrap(),
                    topic: topic.unwrap(),
                    nsfw: nsfw.unwrap(),
                    last_message_id: last_message_id.unwrap(),
                    bitrate: bitrate.unwrap(),
                    user_limit: user_limit.unwrap(),
                    rate_limit_per_user: rate_limit_per_user.unwrap(),
                    icon: icon.unwrap(),
                    owner_id: owner_id.unwrap(),
                    parent_id: parent_id.unwrap(),
                    last_pin_timestamp: last_pin_timestamp.unwrap(),
                },
            )
        } else {
            None
        }
    }
}

/// Represents a guild or DM channel.
#[derive(Clone, Debug, PartialEq, Eq)]
pub enum Channel {
    /// A text channel within a server.
    GuildText(GuildTextChannel),
    /// A direct message between users.
    DM(DMChannel),
    /// A voice channel within a server.
    GuildVoice(GuildVoiceChannel),
    /// A direct message between multiple users.
    GroupDm(GroupDMChannel),
    /// An organisational category that contains channels.
    GuildCategory(GuildCategoryChannel),
    /// A channel that users can follow and crosspost into their own server,
    GuildNews(GuildNewsChannel),
    /// A channel in which game developers can sell their game.
    GuildStore(GuildStoreChannel),
}

/// The model of a [`Channel`].
pub ghost enum ChannelModel {
    GuildText(GuildTextChannelModel),
    DM(DMChannelModel),
    GuildVoice(GuildVoiceChannelModel),
    GroupDm(GroupDMChannelModel),
    GuildCategory(GuildCategoryChannelModel),
    GuildNews(GuildNewsChannelModel),
    GuildStore(GuildStoreChannelModel),
}

impl DeepView for Channel {
    type V = ChannelModel;

    open spec fn deep_view(&self) -> ChannelModel {
        match self {
            Channel::GuildText(channel) => ChannelModel::GuildText(channel.deep_view()),
            Channel::DM(channel) => ChannelModel::DM(channel.deep_view()),
            Channel::GuildVoice(channel) => ChannelModel::GuildVoice(channel.deep_view()),
            Channel::GroupDm(channel) => ChannelModel::GroupDm(channel.deep_view()),
            Channel::GuildCategory(channel) => ChannelModel::GuildCategory(channel.deep_view()),
            Channel::GuildNews(channel) => ChannelModel::GuildNews(channel.deep_view()),
            Channel::GuildStore(channel) => ChannelModel::GuildStore(channel.deep_view()),
        }
    }
}

impl ChannelModel {
    /// The kind of this channel.
    pub open spec fn kind(self) -> ChannelType {
        match self {
            ChannelModel::GuildText(_) => ChannelType::GuildText,
            ChannelModel::DM(_) => ChannelType::Dm,
            ChannelModel::GuildVoice(_) => ChannelType::GuildVoice,
            ChannelModel::GroupDm(_) => ChannelType::GroupDm,
            ChannelModel::GuildCategory(_) => ChannelType::GuildCategory,
            ChannelModel::GuildNews(_) => ChannelType::GuildNews,
            ChannelModel::GuildStore(_) => ChannelType::GuildStore,
        }
    }
}

impl ChannelType {
    /// The name under which a failure to decode a channel of this kind is
    /// reported.
    pub open spec fn spec_label(self) -> Seq<char> {
        match self {
            ChannelType::GuildText => "GUILD_TEXT"@,
            ChannelType::Dm => "DM"@,
            ChannelType::GuildVoice => "GUILD_VOICE"@,
            ChannelType::GroupDm => "GROUP_DM"@,
            ChannelType::GuildCategory => "GUILD_CATEGORY"@,
            ChannelType::GuildNews => "GUILD_NEWS"@,
            ChannelType::GuildStore => "GUILD_STORE"@,
        }
    }

    /// The name under which a failure to decode a channel of this kind is
    /// reported.
    pub fn label(self) -> (r: &'static str)
        ensures
            r@ == self.spec_label(),
    {
        match self {
            ChannelType::GuildText => "GUILD_TEXT",
            ChannelType::Dm => "DM",
            ChannelType::GuildVoice => "GUILD_VOICE",
            ChannelType::GroupDm => "GROUP_DM",
            ChannelType::GuildCategory => "GUILD_CATEGORY",
            ChannelType::GuildNews => "GUILD_NEWS",
            ChannelType::GuildStore => "GUILD_STORE",
        }
    }
}

impl ChannelType {
    /// The fields that a channel of this kind must be given, besides its id
    /// and its type, in the order in which they are reported.
    pub open spec fn demanded(self) -> Seq<Seq<char>> {
        match self {
            ChannelType::GuildText => seq![
                "guild_id"@,
                "position"@,
                "name"@,
                "topic"@,
                "nsfw"@,
                "rate_limit_per_user"@,
            ],
            ChannelType::Dm => seq![],
            ChannelType::GuildVoice => seq![
                "guild_id"@,
                "position"@,
                "name"@,
                "nsfw"@,
                "bitrate"@,
                "user_limit"@,
            ],
            ChannelType::GroupDm => seq!["name"@, "owner_id"@],
            ChannelType::GuildCategory => seq!["guild_id"@, "position"@, "name"@, "nsfw"@],
            ChannelType::GuildNews => seq!["guild_id"@, "position"@, "name"@, "topic"@, "nsfw"@],
            ChannelType::GuildStore => seq!["guild_id"@, "position"@, "name"@, "nsfw"@],
        }
    }

    /// The fields that a channel of this kind must be given, besides its id
    /// and its type. Sorting positions belong to guilds: the two kinds of
    /// direct message need none.
    pub fn required_fields(self) -> (r: Vec<&'static str>)
        ensures
            r@.len() == self.demanded().len(),
            forall|i: int| 0 <= i < r@.len() ==> (#[trigger] r@[i])@ == self.demanded()[i],
    {
        match self {
            ChannelType::GuildText => vec![
                "guild_id",
                "position",
                "name",
                "topic",
                "nsfw",
                "rate_limit_per_user",
            ],
            ChannelType::Dm => vec![],
            ChannelType::GuildVoice => vec![
                "guild_id",
                "position",
                "name",
                "nsfw",
                "bitrate",
                "user_limit",
            ],
            ChannelType::GroupDm => vec!["name", "owner_id"],
            ChannelType::GuildCategory => vec!["guild_id", "position", "name", "nsfw"],
            ChannelType::GuildNews => vec!["guild_id", "position", "name", "topic", "nsfw"],
            ChannelType::GuildStore => vec!["guild_id", "position", "name", "nsfw"],
        }
    }
}

/// The kind of channel that the type code of `doc` stands for, if the
/// document has a type code and it stands for one.
pub open spec fn kind_of(doc: Doc) -> Option<ChannelType> {
    match doc.member("type"@) {
        Some(Doc::Unsigned(code)) => ChannelType::of_code(code),
        _ => None,
    }
}

/// Whether `doc` gives each of the first `count` fields of `keys`.
pub open spec fn all_given(doc: Doc, keys: Seq<Seq<char>>, count: nat) -> bool {
    forall|i: int| 0 <= i < count ==> (#[trigger] doc.given(keys[i])) is Some
}

/// The paths noted after looking for the first `count` fields of `keys` in
/// `doc`: `found`, followed by the path of each of them that `doc` does not
/// give.
pub open spec fn lacking(
    doc: Doc,
    keys: Seq<Seq<char>>,
    count: nat,
    at: Seq<char>,
    found: Seq<Seq<char>>,
) -> Seq<Seq<char>>
    decreases count,
{
    if count == 0 {
        found
    } else {
        note(
            doc.given(keys[count - 1]) is Some,
            field_path(at, keys[count - 1]),
            lacking(doc, keys, (count - 1) as nat, at, found),
        )
    }
}

/// Looking for fields only ever adds paths, and it adds none exactly when
/// all of them are given.
pub proof fn lacking_law(
    doc: Doc,
    keys: Seq<Seq<char>>,
    count: nat,
    at: Seq<char>,
    found: Seq<Seq<char>>,
)
    ensures
        settles(all_given(doc, keys, count), found, lacking(doc, keys, count, at, found)),
    decreases count,
{
    if count > 0 {
        let before = lacking(doc, keys, (count - 1) as nat, at, found);
        lacking_law(doc, keys, (count - 1) as nat, at, found);
        note_settles(doc.given(keys[count - 1]) is Some, field_path(at, keys[count - 1]), before);
        settles_chain(
            all_given(doc, keys, (count - 1) as nat),
            doc.given(keys[count - 1]) is Some,
            found,
            before,
            lacking(doc, keys, count, at, found),
        );
        if !all_given(doc, keys, (count - 1) as nat) {
            assert(!all_given(doc, keys, count));
        }
    } else {
        settles_start(found);
    }
}

/// Looking for fields keeps every path noted before, and notes the path of
/// each field that is not given.
pub proof fn lacking_keeps(
    doc: Doc,
    keys: Seq<Seq<char>>,
    count: nat,
    at: Seq<char>,
    found: Seq<Seq<char>>,
    path: Seq<char>,
)
    ensures
        found.contains(path) ==> lacking(doc, keys, count, at, found).contains(path),
        forall|i: int|
            0 <= i < count && doc.given(#[trigger] keys[i]) is None ==> lacking(
                doc,
                keys,
                count,
                at,
                found,
            ).contains(field_path(at, keys[i])),
    decreases count,
{
    let after = lacking(doc, keys, count, at, found);
    lacking_law(doc, keys, count, at, found);
    keeps(all_given(doc, keys, count), found, after, path);
    if count > 0 {
        let before = lacking(doc, keys, (count - 1) as nat, at, found);
        let last = field_path(at, keys[count - 1]);
        note_settles(doc.given(keys[count - 1]) is Some, last, before);
        assert forall|i: int| 0 <= i < count && doc.given(
            #[trigger] keys[i],
        ) is None implies after.contains(
            field_path(at, keys[i]),
        ) by {
            if i < count - 1 {
                lacking_keeps(doc, keys, (count - 1) as nat, at, found, field_path(at, keys[i]));
                keeps(
                    doc.given(keys[count - 1]) is Some,
                    before,
                    after,
                    field_path(at, keys[i]),
                );
            } else {
                assert(after[before.len() as int] == last);
            }
        }
    }
}

/// Notes the path of each field of `keys` that `raw` does not give.
fn demand_fields(raw: &Value, keys: &Vec<&'static str>, at: &str, gaps: &mut Vec<String>)
    ensures
        final(gaps).deep_view() == lacking(
            doc_of(*raw),
            Seq::new(keys@.len(), |i: int| keys@[i]@),
            keys@.len(),
            at@,
            old(gaps).deep_view(),
        ),
{
    let ghost names = Seq::new(keys@.len(), |i: int| keys@[i]@);
    let mut i: usize = 0;
    while i < keys.len()
        invariant
            i <= keys@.len(),
            names == Seq::new(keys@.len(), |i: int| keys@[i]@),
            gaps.deep_view() == lacking(doc_of(*raw), names, i as nat, at@, old(gaps).deep_view()),
        decreases keys@.len() - i,
    {
        let key = keys[i];
        assert(names[i as int] == key@);
        let given = match member(raw, key) {
            Some(inner) => !inner.is_null(),
            None => false,
        };
        if !given {
            mark(gaps, field_path_text(at, key));
        }
        i += 1;
    }
}

impl Channel {
    /// The channel that the fields of `initial` make up: the variant that
    /// its code selects, made of the fields that this variant owns. `None`
    /// where a field that the variant needs is not given. Fields that the
    /// variant does not own are dropped.
    pub open spec fn assemble(initial: InitialChannelModel) -> Option<ChannelModel> {
        match initial.code {
            ChannelType::GuildText => if {
                &&& initial.guild_id is Some
                &&& initial.position is Some
                &&& initial.name is Some
                &&& initial.topic is Some
                &&& initial.nsfw is Some
                &&& initial.rate_limit_per_user is Some
            } {
                Some(
                    ChannelModel::GuildText(
                        GuildTextChannelModel {
                            id: initial.id,
                            guild_id: initial.guild_id.unwrap(),
                            position: initial.position.unwrap(),
                            name: initial.name.unwrap(),
                            topic: initial.topic.unwrap(),
                            nsfw: initial.nsfw.unwrap(),
                            last_message_id: initial.last_message_id,
                            rate_limit_per_user: initial.rate_limit_per_user.unwrap(),
                            parent_id: initial.parent_id,
                            last_pin_timestamp: initial.last_pin_timestamp,
                        },
                    ),
                )
            } else {
                None
            },
            ChannelType::Dm => Some(
                ChannelModel::DM(
                    DMChannelModel {
                        id: initial.id,
                        last_message_id: initial.last_message_id,
                        last_pin_timestamp: initial.last_pin_timestamp,
                    },
                ),
            ),
            ChannelType::GuildVoice => if {
                &&& initial.guild_id is Some
                &&& initial.position is Some
                &&& initial.name is Some
                &&& initial.nsfw is Some
                &&& initial.bitrate is Some
                &&& initial.user_limit is Some
            } {
                Some(
                    ChannelModel::GuildVoice(
                        GuildVoiceChannelModel {
                            id: initial.id,
                            guild_id: initial.guild_id.unwrap(),
                            position: initial.position.unwrap(),
                            name: initial.name.unwrap(),
                            nsfw: initial.nsfw.unwrap(),
                            parent_id: initial.parent_id,
                            bitrate: initial.bitrate.unwrap(),
                            user_limit: initial.user_limit.unwrap(),
                        },
                    ),
                )
            } else {
                None
            },
            ChannelType::GroupDm => if initial.name is Some && initial.owner_id is Some {
                Some(
                    ChannelModel::GroupDm(
                        GroupDMChannelModel {
                            id: initial.id,
                            position: initial.position,
                            name: initial.name.unwrap(),
                            icon: initial.icon,
                            last_message_id: initial.last_message_id,
                            owner_id: initial.owner_id.unwrap(),
                            last_pin_timestamp: initial.last_pin_timestamp,
                        },
                    ),
                )
            } else {
                None
            },
            ChannelType::GuildCategory => if {
                &&& initial.guild_id is Some
                &&& initial.position is Some
                &&& initial.name is Some
                &&& initial.nsfw is Some
            } {
                Some(
                    ChannelModel::GuildCategory(
                        GuildCategoryChannelModel {
                            id: initial.id,
                            guild_id: initial.guild_id.unwrap(),
                            position: initial.position.unwrap(),
                            name: initial.name.unwrap(),
                            nsfw: initial.nsfw.unwrap(),
                            parent_id: initial.parent_id,
                        },
                    ),
                )
            } else {
                None
            },
            ChannelType::GuildNews => if {
                &&& initial.guild_id is Some
                &&& initial.position is Some
                &&& initial.name is Some
                &&& initial.topic is Some
                &&& initial.nsfw is Some
            } {
                Some(
                    ChannelModel::GuildNews(
                        GuildNewsChannelModel {
                            id: initial.id,
                            guild_id: initial.guild_id.unwrap(),
                            position: initial.position.unwrap(),
                            name: initial.name.unwrap(),
                            topic: initial.topic.unwrap(),
                            nsfw: initial.nsfw.unwrap(),
                            last_message_id: initial.last_message_id,
                            parent_id: initial.parent_id,
                            last_pin_timestamp: initial.last_pin_timestamp,
                        },
                    ),
                )
            } else {
                None
            },
            ChannelType::GuildStore => if {
                &&& initial.guild_id is Some
                &&& initial.position is Some
                &&& initial.name is Some
                &&& initial.nsfw is Some
            } {
                Some(
                    ChannelModel::GuildStore(
                        GuildStoreChannelModel {
                            id: initial.id,
                            guild_id: initial.guild_id.unwrap(),
                            position: initial.position.unwrap(),
                            name: initial.name.unwrap(),
                            nsfw: initial.nsfw.unwrap(),
                            parent_id: initial.parent_id,
                        },
                    ),
                )
            } else {
                None
            },
        }
    }

    /// A channel can be assembled exactly when the document gives every
    /// field that its kind needs.
    pub proof fn assembles_when_given(doc: Doc, initial: InitialChannelModel)
        requires
            InitialChannel::parse(doc) == Some(initial),
        ensures
            kind_of(doc) == Some(initial.code),
            Self::assemble(initial) is Some <==> all_given(
                doc,
                initial.code.demanded(),
                initial.code.demanded().len(),
            ),
    {
        let keys = initial.code.demanded();
        if all_given(doc, keys, keys.len()) {
            match initial.code {
                ChannelType::GuildText => {
                    assert(doc.given(keys[0]) is Some);
                    assert(doc.given(keys[1]) is Some);
                    assert(doc.given(keys[2]) is Some);
                    assert(doc.given(keys[3]) is Some);
                    assert(doc.given(keys[4]) is Some);
                    assert(doc.given(keys[5]) is Some);
                },
                ChannelType::Dm => {},
                ChannelType::GuildVoice => {
                    assert(doc.given(keys[0]) is Some);
                    assert(doc.given(keys[1]) is Some);
                    assert(doc.given(keys[2]) is Some);
                    assert(doc.given(keys[3]) is Some);
                    assert(doc.given(keys[4]) is Some);
                    assert(doc.given(keys[5]) is Some);
                },
                ChannelType::GroupDm => {
                    assert(doc.given(keys[0]) is Some);
                    assert(doc.given(keys[1]) is Some);
                },
                ChannelType::GuildCategory | ChannelType::GuildStore => {
                    assert(doc.given(keys[0]) is Some);
                    assert(doc.given(keys[1]) is Some);
                    assert(doc.given(keys[2]) is Some);
                    assert(doc.given(keys[3]) is Some);
                },
                ChannelType::GuildNews => {
                    assert(doc.given(keys[0]) is Some);
                    assert(doc.given(keys[1]) is Some);
                    assert(doc.given(keys[2]) is Some);
                    assert(doc.given(keys[3]) is Some);
                    assert(doc.given(keys[4]) is Some);
                },
            }
        }
    }

    /// Assembles the variant that the code of `initial` selects, from the
    /// fields that this variant owns.
    pub fn build(initial: InitialChannel) -> (r: Option<Channel>)
        ensures
            r.deep_view() == Self::assemble(initial.deep_view()),
    {
        match initial.code {
            ChannelType::GuildText => {
                if initial.guild_id.is_some() && initial.position.is_some()
                    && initial.name.is_some() && initial.topic.is_some() && initial.nsfw.is_some()
                    && initial.rate_limit_per_user.is_some() {
                    Some(
                        Channel::GuildText(
                            GuildTextChannel {
                                id: initial.id,
                                guild_id: initial.guild_id.unwrap(),
                                position: initial.position.unwrap(),
                                name: initial.name.unwrap(),
                                topic: initial.topic.unwrap(),
                                nsfw: initial.nsfw.unwrap(),
                                last_message_id: initial.last_message_id,
                                rate_limit_per_user: initial.rate_limit_per_user.unwrap(),
                                parent_id: initial.parent_id,
                                last_pin_timestamp: initial.last_pin_timestamp,
                            },
                        ),
                    )
                } else {
                    None
                }
            },
            ChannelType::Dm => Some(
                Channel::DM(
                    DMChannel {
                        id: initial.id,
                        last_message_id: initial.last_message_id,
                        last_pin_timestamp: initial.last_pin_timestamp,
                    },
                ),
            ),
            ChannelType::GuildVoice => {
                if initial.guild_id.is_some() && initial.position.is_some()
                    && initial.name.is_some() && initial.nsfw.is_some() && initial.bitrate.is_some()
                    && initial.user_limit.is_some() {
                    Some(
                        Channel::GuildVoice(
                            GuildVoiceChannel {
                                id: initial.id,
                                guild_id: initial.guild_id.unwrap(),
                                position: initial.position.unwrap(),
                                name: initial.name.unwrap(),
                                nsfw: initial.nsfw.unwrap(),
                                parent_id: initial.parent_id,
                                bitrate: initial.bitrate.unwrap(),
                                user_limit: initial.user_limit.unwrap(),
                            },
                        ),
                    )
                } else {
                    None
                }
            },
            ChannelType::GroupDm => {
                if initial.name.is_some() && initial.owner_id.is_some() {
                    Some(
                        Channel::GroupDm(
                            GroupDMChannel {
                                id: initial.id,
                                position: initial.position,
                                name: initial.name.unwrap(),
                                icon: initial.icon,
                                last_message_id: initial.last_message_id,
                                owner_id: initial.owner_id.unwrap(),
                                last_pin_timestamp: initial.last_pin_timestamp,
                            },
                        ),
                    )
                } else {
                    None
                }
            },
            ChannelType::GuildCategory => {
                if initial.guild_id.is_some() && initial.position.is_some()
                    && initial.name.is_some() && initial.nsfw.is_some() {
                    Some(
                        Channel::GuildCategory(
                            GuildCategoryChannel {
                                id: initial.id,
                                guild_id: initial.guild_id.unwrap(),
                                position: initial.position.unwrap(),
                                name: initial.name.unwrap(),
                                nsfw: initial.nsfw.unwrap(),
                                parent_id: initial.parent_id,
                            },
                        ),
                    )
                } else {
                    None
                }
            },
            ChannelType::GuildNews => {
                if initial.guild_id.is_some() && initial.position.is_some()
                    && initial.name.is_some() && initial.topic.is_some() && initial.nsfw.is_some() {
                    Some(
                        Channel::GuildNews(
                            GuildNewsChannel {
                                id: initial.id,
                                guild_id: initial.guild_id.unwrap(),
                                position: initial.position.unwrap(),
                                name: initial.name.unwrap(),
                                topic: initial.topic.unwrap(),
                                nsfw: initial.nsfw.unwrap(),
                                last_message_id: initial.last_message_id,
                                parent_id: initial.parent_id,
                                last_pin_timestamp: initial.last_pin_timestamp,
                            },
                        ),
                    )
                } else {
                    None
                }
            },
            ChannelType::GuildStore => {
                if initial.guild_id.is_some() && initial.position.is_some()
                    && initial.name.is_some() && initial.nsfw.is_some() {
                    Some(
                        Channel::GuildStore(
                            GuildStoreChannel {
                                id: initial.id,
                                guild_id: initial.guild_id.unwrap(),
                                position: initial.position.unwrap(),
                                name: initial.name.unwrap(),
                                nsfw: initial.nsfw.unwrap(),
                                parent_id: initial.parent_id,
                            },
                        ),
                    )
                } else {
                    None
                }
            },
        }
    }

    /// Decodes a channel of whatever kind. See [`resolve_channel`].
    pub fn deserialize(raw: &Value) -> (r: Result<Channel, DecodeError>)
        ensures
            outcome_model(r) == channel_outcome(doc_of(*raw)),
    {
        resolve_channel(raw)
    }
}

/// A channel is decoded in two steps: the fields of every kind of channel
/// are read as an [`InitialChannel`], and the variant that its code selects
/// is assembled from them. Every misshapen field is noted, of whatever kind
/// of channel it is a field, and after those every field that the selected
/// kind needs and the document does not give.
impl Decode for Channel {
    open spec fn parse(doc: Doc) -> Option<ChannelModel> {
        match InitialChannel::parse(doc) {
            Some(initial) => Channel::assemble(initial),
            None => None,
        }
    }

    open spec fn gaps(doc: Doc, at: Seq<char>, found: Seq<Seq<char>>) -> Seq<Seq<char>> {
        let found = InitialChannel::gaps(doc, at, found);
        match kind_of(doc) {
            Some(kind) => lacking(doc, kind.demanded(), kind.demanded().len(), at, found),
            None => found,
        }
    }

    open spec fn needs(doc: Doc, key: Seq<char>) -> bool {
        ||| InitialChannel::needs(doc, key)
        ||| kind_of(doc) matches Some(kind) && kind.demanded().contains(key)
    }

    proof fn gaps_law(doc: Doc, at: Seq<char>, found: Seq<Seq<char>>) {
        let read = InitialChannel::gaps(doc, at, found);
        InitialChannel::gaps_law(doc, at, found);
        match kind_of(doc) {
            Some(kind) => {
                let keys = kind.demanded();
                lacking_law(doc, keys, keys.len(), at, read);
                settles_chain(
                    InitialChannel::parse(doc) is Some,
                    all_given(doc, keys, keys.len()),
                    found,
                    read,
                    lacking(doc, keys, keys.len(), at, read),
                );
                if let Some(initial) = InitialChannel::parse(doc) {
                    Channel::assembles_when_given(doc, initial);
                }
            },
            None => {},
        }
    }

    proof fn absent_is_noted(doc: Doc, at: Seq<char>, found: Seq<Seq<char>>, key: Seq<char>) {
        let path = field_path(at, key);
        let read = InitialChannel::gaps(doc, at, found);
        InitialChannel::absent_is_noted(doc, at, found, key);
        match kind_of(doc) {
            Some(kind) => {
                let keys = kind.demanded();
                lacking_keeps(doc, keys, keys.len(), at, read, path);
                if keys.contains(key) && doc.member(key) is None {
                    let i = choose|i: int| 0 <= i < keys.len() && keys[i] == key;
                    assert(doc.given(keys[i]) is None);
                }
            },
            None => {},
        }
    }

    fn decode(raw: &Value, at: &str, gaps: &mut Vec<String>) -> (r: Option<Self>) {
        let initial = InitialChannel::decode(raw, at, gaps);
        let kind = match member(raw, "type") {
            Some(inner) => match inner.as_u64() {
                Some(code) => ChannelType::from_code(code),
                None => None,
            },
            None => None,
        };
        match kind {
            Some(kind) => {
                let keys = kind.required_fields();
                assert(Seq::new(keys@.len(), |i: int| keys@[i]@) =~= kind.demanded());
                demand_fields(raw, &keys, at, gaps);
            },
            None => {},
        }
        match initial {
            Some(initial) => Channel::build(initial),
            None => None,
        }
    }
}

/// What [`resolve_channel`] makes of a document.
///
/// The type code is looked at first: without one that is an integer nothing
/// can be resolved, and a code that stands for no kind of channel is
/// reported as it is, never replaced by a default kind. Then the channel is
/// decoded; where that fails, the failure names the kind, every field that
/// is misshapen and every field that the kind needs and the document lacks.
#[verifier::opaque]
pub open spec fn channel_outcome(doc: Doc) -> Result<ChannelModel, DecodeErrorModel> {
    match doc.member("type"@) {
        Some(inner) => match inner.integer() {
            Some(code) => match kind_of(doc) {
                Some(kind) => match Channel::parse(doc) {
                    Some(channel) => Ok(channel),
                    None => Err(
                        DecodeErrorModel::PayloadShapeMismatch {
                            event_name: kind.spec_label(),
                            missing_fields: Channel::gaps(doc, ""@, Seq::empty()),
                        },
                    ),
                },
                None => Err(DecodeErrorModel::UnknownChannelType { code: code as i128 }),
            },
            None => Err(DecodeErrorModel::MissingDiscriminant),
        },
        None => Err(DecodeErrorModel::MissingDiscriminant),
    }
}

/// Decodes a channel of whatever kind from its raw document.
pub fn resolve_channel(raw: &Value) -> (r: Result<Channel, DecodeError>)
    ensures
        outcome_model(r) == channel_outcome(doc_of(*raw)),
{
    reveal(channel_outcome);
    let code = match member(raw, "type") {
        Some(inner) => match read_integer(inner) {
            Some(code) => code,
            None => { return Err(DecodeError::MissingDiscriminant); },
        },
        None => { return Err(DecodeError::MissingDiscriminant); },
    };
    let kind = if 0 <= code && code <= 6 {
        ChannelType::from_code(code as u64)
    } else {
        None
    };
    match kind {
        Some(kind) => {
            let mut gaps: Vec<String> = Vec::new();
            assert(gaps.deep_view() =~= Seq::empty());
            match Channel::decode(raw, "", &mut gaps) {
                Some(channel) => Ok(channel),
                None => Err(
                    DecodeError::PayloadShapeMismatch {
                        event_name: kind.label().to_owned(),
                        missing_fields: gaps,
                    },
                ),
            }
        },
        None => Err(DecodeError::UnknownChannelType { code }),
    }
}

/// A channel comes out only as the kind that its type code stands for, and
/// a failure to decode the fields always names at least one of them.
pub proof fn channel_kind_follows_code(doc: Doc)
    ensures
        match channel_outcome(doc) {
            Ok(channel) => kind_of(doc) == Some(channel.kind()),
            Err(
                DecodeErrorModel::PayloadShapeMismatch { missing_fields, .. },
            ) => missing_fields.len()
                > 0,
            Err(_) => true,
        },
{
    reveal(channel_outcome);
    Channel::gaps_law(doc, ""@, Seq::empty());
    settles_means(Channel::parse(doc) is Some, Seq::empty(), Channel::gaps(doc, ""@, Seq::empty()));
}

/// A type code outside 0 to 6 is refused with that code, whatever else the
/// document holds.
pub proof fn unknown_channel_code_is_refused(doc: Doc, code: int)
    requires
        doc.member("type"@) matches Some(inner) && inner.integer() == Some(code),
        !(0 <= code <= 6),
    ensures
        channel_outcome(doc) == Err::<ChannelModel, DecodeErrorModel>(
            DecodeErrorModel::UnknownChannelType { code: code as i128 },
        ),
{
    reveal(channel_outcome);
}

/// Where the document has a known type code and lacks a field that its kind
/// of channel needs, or the id, decoding fails with a shape mismatch that
/// names the kind and that field.
pub proof fn channel_names_absent_field(doc: Doc, key: Seq<char>)
    requires
        kind_of(doc) is Some,
        Channel::needs(doc, key),
        doc.member(key) is None,
    ensures
        channel_outcome(doc) matches Err(
            DecodeErrorModel::PayloadShapeMismatch { event_name, missing_fields },
        ) && event_name == kind_of(doc).unwrap().spec_label() && missing_fields.contains(key),
{
    reveal(channel_outcome);
    reveal_strlit("");
    let noted = Channel::gaps(doc, ""@, Seq::empty());
    Channel::absent_is_noted(doc, ""@, Seq::empty(), key);
    Channel::gaps_law(doc, ""@, Seq::empty());
    settles_means(Channel::parse(doc) is Some, Seq::empty(), noted);
    assert(field_path(""@, key) == key);
}

} // verus!
