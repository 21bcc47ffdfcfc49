//! Contains all the structs for the Dispatch event.

pub mod channel_pins_update;
pub mod guild_create;
pub mod message;

pub use channel_pins_update::ChannelPinsUpdate;
pub use guild_create::{
    ClientSessionStatus, ClientStatus, GuildCreate, PartialPresenceUpdate, PartialUser,
    PartialVoiceState,
};
pub use message::{
    MessageDelete, MessageDeleteBulk, MessageReactionAdd, MessageReactionRemove,
    MessageReactionRemoveAll, MessageUpdate, UserWithMember,
};

use crate::decode::{
    beside_keeps, beside_step, decode_payload, payload_names_absent_field, payload_outcome,
    required, required_gaps, required_keeps, required_parse, required_step, settles_start, Decode,
};
use crate::document::{doc_of, member, Doc};
use crate::error::{outcome_model, DecodeError, DecodeErrorModel};
use crate::gateway::dispatch::channel_pins_update::ChannelPinsUpdateModel;
use crate::gateway::dispatch::guild_create::GuildCreateModel;
use crate::gateway::dispatch::message::{
    MessageDeleteBulkModel, MessageDeleteModel, MessageReactionAddModel,
    MessageReactionRemoveAllModel, MessageReactionRemoveModel, MessageUpdateModel,
};
use crate::gateway::presence::{Presence, PresenceModel};
use crate::path::{field_path, same_text};
use crate::resources::channel::{
    channel_names_absent_field, channel_outcome, kind_of, resolve_channel, Channel, ChannelModel,
};
use crate::resources::emoji::{Emoji, EmojiModel};
use crate::resources::guild::{Guild, GuildId, GuildModel};
use crate::resources::guild_member::{GuildMember, GuildMemberModel};
use crate::resources::role::{Role, RoleId, RoleModel};
use crate::resources::user::{User, UserId, UserModel};
use serde_json::Value;
use vstd::prelude::*;

verus! {

/// An event dispatched from the server.
#[derive(Clone, Debug, PartialEq, Eq)]
pub enum DispatchEvent {
    /// Sent when a new channel has been created, relative to the user.
    ChannelCreate(Channel),
    /// Sent when a channel is update.
    ///
    /// This is not sent when the `last_message_id` field is altered.
    ChannelUpdate(Channel),
    /// Sent when a channel is deleted.
    ChannelDelete(Channel),
    /// Sent when a message is pinned or unpinned.
    ///
    /// Not sent when a pinned message is deleted.
    ChannelPinsUpdate(ChannelPinsUpdate),
    /// Lazy load for unavailable guild, guild became available, or user joined a new guild.
    GuildCreate(GuildCreate),
    /// Sent when a guild is updated.
    GuildUpdate(Guild),
    /// Sent when a guild becomes unavailable during a guild outage, or when the user leaves or is
    /// removed form a guild.
    GuildDelete(UnavailableGuild),
    /// Sent when a user is banned from a guild.
    GuildBanAdd(GuildBan),
    /// Sent when a user is unbanned from a guild.
    GuildBanRemove(GuildBan),
    /// Sent when a guild's emojis have been updated.
    GuildEmojisUpdate(GuildEmojisUpdate),
    /// Sent when a guild integration is update.
    GuildIntegrationsUpdate(GuildIntegrationsUpdate),
    /// Sent when a user joins a guild.
    GuildMemberAdd(GuildMemberAdd),
    /// Sent when a user is removed from a guild (leaved/kicked/banned).
    GuildMemberRemove(GuildMemberRemove),
    /// Sent when a guild member is updated.
    GuildMemberUpdate(GuildMemberUpdate),
    /// Sent in response to a `GuildRequestMembers`.
    GuildMembersChunk(GuildMembersChunk),
    /// Sent when a guild role is added.
    GuildRoleAdd(GuildRole),
    /// Sent when a guild role is updated.
    GuildRoleUpdate(GuildRole),
    /// Sent when a guild role is deleted.
    GuildRoleDelete(GuildRoleDelete),
    /// Sent when a message has been created.
    MessageCreate(MessageUpdate),
    /// Sent when a message has been updated.
    MessageUpdate(MessageUpdate),
    /// Sent when a message is deleted.
    MessageDelete(MessageDelete),
    /// Sent when multiple messages are deleted at once.
    MessageDeleteBulk(MessageDeleteBulk),
    /// Sent when a user adds a reaction to a message.
    MessageReactionAdd(MessageReactionAdd),
    /// Sent when a user removes a reaction to a message.
    MessageReactionRemove(MessageReactionRemove),
    /// Sent when a user explicitly removes all reactions from a message.
    MessageReactionRemoveAll(MessageReactionRemoveAll),
}

/// The model of a [`DispatchEvent`].
pub ghost enum DispatchEventModel {
    ChannelCreate(ChannelModel),
    ChannelUpdate(ChannelModel),
    ChannelDelete(ChannelModel),
    ChannelPinsUpdate(ChannelPinsUpdateModel),
    GuildCreate(GuildCreateModel),
    GuildUpdate(GuildModel),
    GuildDelete(UnavailableGuildModel),
    GuildBanAdd(GuildBanModel),
    GuildBanRemove(GuildBanModel),
    GuildEmojisUpdate(GuildEmojisUpdateModel),
    GuildIntegrationsUpdate(GuildIntegrationsUpdateModel),
    GuildMemberAdd(GuildMemberAddModel),
    GuildMemberRemove(GuildMemberRemoveModel),
    GuildMemberUpdate(GuildMemberUpdateModel),
    GuildMembersChunk(GuildMembersChunkModel),
    GuildRoleAdd(GuildRoleModel),
    GuildRoleUpdate(GuildRoleModel),
    GuildRoleDelete(GuildRoleDeleteModel),
    MessageCreate(MessageUpdateModel),
    MessageUpdate(MessageUpdateModel),
    MessageDelete(MessageDeleteModel),
    MessageDeleteBulk(MessageDeleteBulkModel),
    MessageReactionAdd(MessageReactionAddModel),
    MessageReactionRemove(MessageReactionRemoveModel),
    MessageReactionRemoveAll(MessageReactionRemoveAllModel),
}

impl DeepView for DispatchEvent {
    type V = DispatchEventModel;

    open spec fn deep_view(&self) -> DispatchEventModel {
        match self {
            DispatchEvent::ChannelCreate(payload) => DispatchEventModel::ChannelCreate(
                payload.deep_view(),
            ),
            DispatchEvent::ChannelUpdate(payload) => DispatchEventModel::ChannelUpdate(
                payload.deep_view(),
            ),
            DispatchEvent::ChannelDelete(payload) => DispatchEventModel::ChannelDelete(
                payload.deep_view(),
            ),
            DispatchEvent::ChannelPinsUpdate(payload) => DispatchEventModel::ChannelPinsUpdate(
                payload.deep_view(),
            ),
            DispatchEvent::GuildCreate(payload) => DispatchEventModel::GuildCreate(
                payload.deep_view(),
            ),
            DispatchEvent::GuildUpdate(payload) => DispatchEventModel::GuildUpdate(
                payload.deep_view(),
            ),
            DispatchEvent::GuildDelete(payload) => DispatchEventModel::GuildDelete(
                payload.deep_view(),
            ),
            DispatchEvent::GuildBanAdd(payload) => DispatchEventModel::GuildBanAdd(
                payload.deep_view(),
            ),
            DispatchEvent::GuildBanRemove(payload) => DispatchEventModel::GuildBanRemove(
                payload.deep_view(),
            ),
            DispatchEvent::GuildEmojisUpdate(payload) => DispatchEventModel::GuildEmojisUpdate(
                payload.deep_view(),
            ),
            DispatchEvent::GuildIntegrationsUpdate(
                payload,
            ) => DispatchEventModel::GuildIntegrationsUpdate(
                payload.deep_view(),
            ),
            DispatchEvent::GuildMemberAdd(payload) => DispatchEventModel::GuildMemberAdd(
                payload.deep_view(),
            ),
            DispatchEvent::GuildMemberRemove(payload) => DispatchEventModel::GuildMemberRemove(
                payload.deep_view(),
            ),
            DispatchEvent::GuildMemberUpdate(payload) => DispatchEventModel::GuildMemberUpdate(
                payload.deep_view(),
            ),
            DispatchEvent::GuildMembersChunk(payload) => DispatchEventModel::GuildMembersChunk(
                payload.deep_view(),
            ),
            DispatchEvent::GuildRoleAdd(payload) => DispatchEventModel::GuildRoleAdd(
                payload.deep_view(),
            ),
            DispatchEvent::GuildRoleUpdate(payload) => DispatchEventModel::GuildRoleUpdate(
                payload.deep_view(),
            ),
            DispatchEvent::GuildRoleDelete(payload) => DispatchEventModel::GuildRoleDelete(
                payload.deep_view(),
            ),
            DispatchEvent::MessageCreate(payload) => DispatchEventModel::MessageCreate(
                payload.deep_view(),
            ),
            DispatchEvent::MessageUpdate(payload) => DispatchEventModel::MessageUpdate(
                payload.deep_view(),
            ),
            DispatchEvent::MessageDelete(payload) => DispatchEventModel::MessageDelete(
                payload.deep_view(),
            ),
            DispatchEvent::MessageDeleteBulk(payload) => DispatchEventModel::MessageDeleteBulk(
                payload.deep_view(),
            ),
            DispatchEvent::MessageReactionAdd(payload) => DispatchEventModel::MessageReactionAdd(
                payload.deep_view(),
            ),
            DispatchEvent::MessageReactionRemove(
                payload,
            ) => DispatchEventModel::MessageReactionRemove(
                payload.deep_view(),
            ),
            DispatchEvent::MessageReactionRemoveAll(
                payload,
            ) => DispatchEventModel::MessageReactionRemoveAll(
                payload.deep_view(),
            ),
        }
    }
}

impl DispatchEventModel {
    /// The name of this event.
    pub open spec fn code(self) -> DispatchEventCode {
        match self {
            DispatchEventModel::ChannelCreate(_) => DispatchEventCode::ChannelCreate,
            DispatchEventModel::ChannelUpdate(_) => DispatchEventCode::ChannelUpdate,
            DispatchEventModel::ChannelDelete(_) => DispatchEventCode::ChannelDelete,
            DispatchEventModel::ChannelPinsUpdate(_) => DispatchEventCode::ChannelPinsUpdate,
            DispatchEventModel::GuildCreate(_) => DispatchEventCode::GuildCreate,
            DispatchEventModel::GuildUpdate(_) => DispatchEventCode::GuildUpdate,
            DispatchEventModel::GuildDelete(_) => DispatchEventCode::GuildDelete,
            DispatchEventModel::GuildBanAdd(_) => DispatchEventCode::GuildBanAdd,
            DispatchEventModel::GuildBanRemove(_) => DispatchEventCode::GuildBanRemove,
            DispatchEventModel::GuildEmojisUpdate(_) => DispatchEventCode::GuildEmojisUpdate,
            DispatchEventModel::GuildIntegrationsUpdate(
                _,
            ) => DispatchEventCode::GuildIntegrationsUpdate,
            DispatchEventModel::GuildMemberAdd(_) => DispatchEventCode::GuildMemberAdd,
            DispatchEventModel::GuildMemberRemove(_) => DispatchEventCode::GuildMemberRemove,
            DispatchEventModel::GuildMemberUpdate(_) => DispatchEventCode::GuildMemberUpdate,
            DispatchEventModel::GuildMembersChunk(_) => DispatchEventCode::GuildMembersChunk,
            DispatchEventModel::GuildRoleAdd(_) => DispatchEventCode::GuildRoleAdd,
            DispatchEventModel::GuildRoleUpdate(_) => DispatchEventCode::GuildRoleUpdate,
            DispatchEventModel::GuildRoleDelete(_) => DispatchEventCode::GuildRoleDelete,
            DispatchEventModel::MessageCreate(_) => DispatchEventCode::MessageCreate,
            DispatchEventModel::MessageUpdate(_) => DispatchEventCode::MessageUpdate,
            DispatchEventModel::MessageDelete(_) => DispatchEventCode::MessageDelete,
            DispatchEventModel::MessageDeleteBulk(_) => DispatchEventCode::MessageDeleteBulk,
            DispatchEventModel::MessageReactionAdd(_) => DispatchEventCode::MessageReactionAdd,
            DispatchEventModel::MessageReactionRemove(
                _,
            ) => DispatchEventCode::MessageReactionRemove,
            DispatchEventModel::MessageReactionRemoveAll(
                _,
            ) => DispatchEventCode::MessageReactionRemoveAll,
        }
    }
}

/// The name of a dispatched event, as the envelope carries it.
#[derive(Clone, Copy, Debug, PartialEq, Eq)]
pub enum DispatchEventCode {
    ChannelCreate,
    ChannelUpdate,
    ChannelDelete,
    ChannelPinsUpdate,
    GuildCreate,
    GuildUpdate,
    GuildDelete,
    GuildBanAdd,
    GuildBanRemove,
    GuildEmojisUpdate,
    GuildIntegrationsUpdate,
    GuildMemberAdd,
    GuildMemberRemove,
    GuildMemberUpdate,
    GuildMembersChunk,
    GuildRoleAdd,
    GuildRoleUpdate,
    GuildRoleDelete,
    MessageCreate,
    MessageUpdate,
    MessageDelete,
    MessageDeleteBulk,
    MessageReactionAdd,
    MessageReactionRemove,
    MessageReactionRemoveAll,
}

impl DispatchEventCode {
    /// The variant that the wire name `name` stands for, if it stands for one.
    /// Names are matched exactly.
    pub open spec fn of_name(name: Seq<char>) -> Option<DispatchEventCode> {
        if name == "CHANNEL_CREATE"@ {
            Some(DispatchEventCode::ChannelCreate)
        } else if name == "CHANNEL_UPDATE"@ {
            Some(DispatchEventCode::ChannelUpdate)
        } else if name == "CHANNEL_DELETE"@ {
            Some(DispatchEventCode::ChannelDelete)
        } else if name == "CHANNEL_PINS_UPDATE"@ {
            Some(DispatchEventCode::ChannelPinsUpdate)
        } else if name == "GUILD_CREATE"@ {
            Some(DispatchEventCode::GuildCreate)
        } else if name == "GUILD_UPDATE"@ {
            Some(DispatchEventCode::GuildUpdate)
        } else if name == "GUILD_DELETE"@ {
            Some(DispatchEventCode::GuildDelete)
        } else if name == "GUILD_BAN_ADD"@ {
            Some(DispatchEventCode::GuildBanAdd)
        } else if name == "GUILD_BAN_REMOVE"@ {
            Some(DispatchEventCode::GuildBanRemove)
        } else if name == "GUILD_EMOJIS_UPDATE"@ {
            Some(DispatchEventCode::GuildEmojisUpdate)
        } else if name == "GUILD_INTEGRATIONS_UPDATE"@ {
            Some(DispatchEventCode::GuildIntegrationsUpdate)
        } else if name == "GUILD_MEMBER_ADD"@ {
            Some(DispatchEventCode::GuildMemberAdd)
        } else if name == "GUILD_MEMBER_REMOVE"@ {
            Some(DispatchEventCode::GuildMemberRemove)
        } else if name == "GUILD_MEMBER_UPDATE"@ {
            Some(DispatchEventCode::GuildMemberUpdate)
        } else if name == "GUILD_MEMBERS_CHUNK"@ {
            Some(DispatchEventCode::GuildMembersChunk)
        } else if name == "GUILD_ROLE_ADD"@ {
            Some(DispatchEventCode::GuildRoleAdd)
        } else if name == "GUILD_ROLE_UPDATE"@ {
            Some(DispatchEventCode::GuildRoleUpdate)
        } else if name == "GUILD_ROLE_DELETE"@ {
            Some(DispatchEventCode::GuildRoleDelete)
        } else if name == "MESSAGE_CREATE"@ {
            Some(DispatchEventCode::MessageCreate)
        } else if name == "MESSAGE_UPDATE"@ {
            Some(DispatchEventCode::MessageUpdate)
        } else if name == "MESSAGE_DELETE"@ {
            Some(DispatchEventCode::MessageDelete)
        } else if name == "MESSAGE_DELETE_BULK"@ {
            Some(DispatchEventCode::MessageDeleteBulk)
        } else if name == "MESSAGE_REACTION_ADD"@ {
            Some(DispatchEventCode::MessageReactionAdd)
        } else if name == "MESSAGE_REACTION_REMOVE"@ {
            Some(DispatchEventCode::MessageReactionRemove)
        } else if name == "MESSAGE_REACTION_REMOVE_ALL"@ {
            Some(DispatchEventCode::MessageReactionRemoveAll)
        } else {
            None
        }
    }

    /// The wire name of this variant.
    pub open spec fn spec_name(self) -> Seq<char> {
        match self {
            DispatchEventCode::ChannelCreate => "CHANNEL_CREATE"@,
            DispatchEventCode::ChannelUpdate => "CHANNEL_UPDATE"@,
            DispatchEventCode::ChannelDelete => "CHANNEL_DELETE"@,
            DispatchEventCode::ChannelPinsUpdate => "CHANNEL_PINS_UPDATE"@,
            DispatchEventCode::GuildCreate => "GUILD_CREATE"@,
            DispatchEventCode::GuildUpdate => "GUILD_UPDATE"@,
            DispatchEventCode::GuildDelete => "GUILD_DELETE"@,
            DispatchEventCode::GuildBanAdd => "GUILD_BAN_ADD"@,
            DispatchEventCode::GuildBanRemove => "GUILD_BAN_REMOVE"@,
            DispatchEventCode::GuildEmojisUpdate => "GUILD_EMOJIS_UPDATE"@,
            DispatchEventCode::GuildIntegrationsUpdate => "GUILD_INTEGRATIONS_UPDATE"@,
            DispatchEventCode::GuildMemberAdd => "GUILD_MEMBER_ADD"@,
            DispatchEventCode::GuildMemberRemove => "GUILD_MEMBER_REMOVE"@,
            DispatchEventCode::GuildMemberUpdate => "GUILD_MEMBER_UPDATE"@,
            DispatchEventCode::GuildMembersChunk => "GUILD_MEMBERS_CHUNK"@,
            DispatchEventCode::GuildRoleAdd => "GUILD_ROLE_ADD"@,
            DispatchEventCode::GuildRoleUpdate => "GUILD_ROLE_UPDATE"@,
            DispatchEventCode::GuildRoleDelete => "GUILD_ROLE_DELETE"@,
            DispatchEventCode::MessageCreate => "MESSAGE_CREATE"@,
            DispatchEventCode::MessageUpdate => "MESSAGE_UPDATE"@,
            DispatchEventCode::MessageDelete => "MESSAGE_DELETE"@,
            DispatchEventCode::MessageDeleteBulk => "MESSAGE_DELETE_BULK"@,
            DispatchEventCode::MessageReactionAdd => "MESSAGE_REACTION_ADD"@,
            DispatchEventCode::MessageReactionRemove => "MESSAGE_REACTION_REMOVE"@,
            DispatchEventCode::MessageReactionRemoveAll => "MESSAGE_REACTION_REMOVE_ALL"@,
        }
    }

    /// Finds the variant that the wire name `name` stands for.
    pub fn from_name(name: &str) -> (r: Option<DispatchEventCode>)
        ensures
            r == Self::of_name(name@),
    {
        if same_text(name, "CHANNEL_CREATE") {
            Some(DispatchEventCode::ChannelCreate)
        } else if same_text(name, "CHANNEL_UPDATE") {
            Some(DispatchEventCode::ChannelUpdate)
        } else if same_text(name, "CHANNEL_DELETE") {
            Some(DispatchEventCode::ChannelDelete)
        } else if same_text(name, "CHANNEL_PINS_UPDATE") {
            Some(DispatchEventCode::ChannelPinsUpdate)
        } else if same_text(name, "GUILD_CREATE") {
            Some(DispatchEventCode::GuildCreate)
        } else if same_text(name, "GUILD_UPDATE") {
            Some(DispatchEventCode::GuildUpdate)
        } else if same_text(name, "GUILD_DELETE") {
            Some(DispatchEventCode::GuildDelete)
        } else if same_text(name, "GUILD_BAN_ADD") {
            Some(DispatchEventCode::GuildBanAdd)
        } else if same_text(name, "GUILD_BAN_REMOVE") {
            Some(DispatchEventCode::GuildBanRemove)
        } else if same_text(name, "GUILD_EMOJIS_UPDATE") {
            Some(DispatchEventCode::GuildEmojisUpdate)
        } else if same_text(name, "GUILD_INTEGRATIONS_UPDATE") {
            Some(DispatchEventCode::GuildIntegrationsUpdate)
        } else if same_text(name, "GUILD_MEMBER_ADD") {
            Some(DispatchEventCode::GuildMemberAdd)
        } else if same_text(name, "GUILD_MEMBER_REMOVE") {
            Some(DispatchEventCode::GuildMemberRemove)
        } else if same_text(name, "GUILD_MEMBER_UPDATE") {
            Some(DispatchEventCode::GuildMemberUpdate)
        } else if same_text(name, "GUILD_MEMBERS_CHUNK") {
            Some(DispatchEventCode::GuildMembersChunk)
        } else if same_text(name, "GUILD_ROLE_ADD") {
            Some(DispatchEventCode::GuildRoleAdd)
        } else if same_text(name, "GUILD_ROLE_UPDATE") {
            Some(DispatchEventCode::GuildRoleUpdate)
        } else if same_text(name, "GUILD_ROLE_DELETE") {
            Some(DispatchEventCode::GuildRoleDelete)
        } else if same_text(name, "MESSAGE_CREATE") {
            Some(DispatchEventCode::MessageCreate)
        } else if same_text(name, "MESSAGE_UPDATE") {
            Some(DispatchEventCode::MessageUpdate)
        } else if same_text(name, "MESSAGE_DELETE") {
            Some(DispatchEventCode::MessageDelete)
        } else if same_text(name, "MESSAGE_DELETE_BULK") {
            Some(DispatchEventCode::MessageDeleteBulk)
        } else if same_text(name, "MESSAGE_REACTION_ADD") {
            Some(DispatchEventCode::MessageReactionAdd)
        } else if same_text(name, "MESSAGE_REACTION_REMOVE") {
            Some(DispatchEventCode::MessageReactionRemove)
        } else if same_text(name, "MESSAGE_REACTION_REMOVE_ALL") {
            Some(DispatchEventCode::MessageReactionRemoveAll)
        } else {
            None
        }
    }

    /// The wire name of this variant.
    pub fn name(self) -> (r: &'static str)
        ensures
            r@ == self.spec_name(),
    {
        match self {
            DispatchEventCode::ChannelCreate => "CHANNEL_CREATE",
            DispatchEventCode::ChannelUpdate => "CHANNEL_UPDATE",
            DispatchEventCode::ChannelDelete => "CHANNEL_DELETE",
            DispatchEventCode::ChannelPinsUpdate => "CHANNEL_PINS_UPDATE",
            DispatchEventCode::GuildCreate => "GUILD_CREATE",
            DispatchEventCode::GuildUpdate => "GUILD_UPDATE",
            DispatchEventCode::GuildDelete => "GUILD_DELETE",
            DispatchEventCode::GuildBanAdd => "GUILD_BAN_ADD",
            DispatchEventCode::GuildBanRemove => "GUILD_BAN_REMOVE",
            DispatchEventCode::GuildEmojisUpdate => "GUILD_EMOJIS_UPDATE",
            DispatchEventCode::GuildIntegrationsUpdate => "GUILD_INTEGRATIONS_UPDATE",
            DispatchEventCode::GuildMemberAdd => "GUILD_MEMBER_ADD",
            DispatchEventCode::GuildMemberRemove => "GUILD_MEMBER_REMOVE",
            DispatchEventCode::GuildMemberUpdate => "GUILD_MEMBER_UPDATE",
            DispatchEventCode::GuildMembersChunk => "GUILD_MEMBERS_CHUNK",
            DispatchEventCode::GuildRoleAdd => "GUILD_ROLE_ADD",
            DispatchEventCode::GuildRoleUpdate => "GUILD_ROLE_UPDATE",
            DispatchEventCode::GuildRoleDelete => "GUILD_ROLE_DELETE",
            DispatchEventCode::MessageCreate => "MESSAGE_CREATE",
            DispatchEventCode::MessageUpdate => "MESSAGE_UPDATE",
            DispatchEventCode::MessageDelete => "MESSAGE_DELETE",
            DispatchEventCode::MessageDeleteBulk => "MESSAGE_DELETE_BULK",
            DispatchEventCode::MessageReactionAdd => "MESSAGE_REACTION_ADD",
            DispatchEventCode::MessageReactionRemove => "MESSAGE_REACTION_REMOVE",
            DispatchEventCode::MessageReactionRemoveAll => "MESSAGE_REACTION_REMOVE_ALL",
        }
    }
}

/// A partial guild object.
#[derive(Clone, Debug, PartialEq, Eq)]
pub struct UnavailableGuild {
    /// The id of the guild.
    pub id: GuildId,
    /// If this is `false`, then the user was removed from the guild.
    pub unavailable: bool,
}

/// The model of a [`UnavailableGuild`]: the same fields, each by its model.
pub ghost struct UnavailableGuildModel {
    pub id: Seq<char>,
    pub unavailable: bool,
}

impl DeepView for UnavailableGuild {
    type V = UnavailableGuildModel;

    open spec fn deep_view(&self) -> UnavailableGuildModel {
        UnavailableGuildModel {
            id: self.id.deep_view(),
            unavailable: self.unavailable.deep_view(),
        }
    }
}

impl Decode for UnavailableGuild {
    open spec fn parse(doc: Doc) -> Option<UnavailableGuildModel> {
        if {
            &&& required_parse::<GuildId>(doc, "id"@) is Some
            &&& required_parse::<bool>(doc, "unavailable"@) is Some
        } {
            Some(
                UnavailableGuildModel {
                    id: required_parse::<GuildId>(doc, "id"@).unwrap(),
                    unavailable: required_parse::<bool>(doc, "unavailable"@).unwrap(),
                },
            )
        } else {
            None
        }
    }

    open spec fn gaps(doc: Doc, at: Seq<char>, found: Seq<Seq<char>>) -> Seq<Seq<char>> {
        let found = required_gaps::<GuildId>(doc, "id"@, at, found);
        let found = required_gaps::<bool>(doc, "unavailable"@, at, found);
        found
    }

    open spec fn needs(doc: Doc, key: Seq<char>) -> bool {
        ||| key == "id"@
        ||| key == "unavailable"@
    }

    proof fn gaps_law(doc: Doc, at: Seq<char>, found: Seq<Seq<char>>) {
        let start = found;
        settles_start(start);
        required_step::<GuildId>(doc, "id"@, at, true, start, found);
        let fits = required_parse::<GuildId>(doc, "id"@) is Some;
        let found = required_gaps::<GuildId>(doc, "id"@, at, found);
        required_step::<bool>(doc, "unavailable"@, at, fits, start, found);
    }

    proof fn absent_is_noted(doc: Doc, at: Seq<char>, found: Seq<Seq<char>>, key: Seq<char>) {
        let path = field_path(at, key);
        required_keeps::<GuildId>(doc, "id"@, at, found, path);
        let found = required_gaps::<GuildId>(doc, "id"@, at, found);
        required_keeps::<bool>(doc, "unavailable"@, at, found, path);
    }

    fn decode(raw: &Value, at: &str, gaps: &mut Vec<String>) -> (r: Option<Self>) {
        let id = required::<GuildId>(raw, "id", at, gaps);
        let unavailable = required::<bool>(raw, "unavailable", at, gaps);
        if id.is_some()
            && unavailable.is_some() {
            Some(
                UnavailableGuild {
                    id: id.unwrap(),
                    unavailable: unavailable.unwrap(),
                },
            )
        } else {
            None
        }
    }
}

/// Sent when a user is banned form a guild.
#[derive(Clone, Debug, PartialEq, Eq)]
pub struct GuildBan {
    /// The id of the guild.
    pub guild_id: GuildId,
    /// The un/banned user.
    pub user: User,
}

/// The model of a [`GuildBan`]: the same fields, each by its model.
pub ghost struct GuildBanModel {
    pub guild_id: Seq<char>,
    pub user: UserModel,
}

impl DeepView for GuildBan {
    type V = GuildBanModel;

    open spec fn deep_view(&self) -> GuildBanModel {
        GuildBanModel {
            guild_id: self.guild_id.deep_view(),
            user: self.user.deep_view(),
        }
    }
}

impl Decode for GuildBan {
    open spec fn parse(doc: Doc) -> Option<GuildBanModel> {
        if {
            &&& required_parse::<GuildId>(doc, "guild_id"@) is Some
            &&& required_parse::<User>(doc, "user"@) is Some
        } {
            Some(
                GuildBanModel {
                    guild_id: required_parse::<GuildId>(doc, "guild_id"@).unwrap(),
                    user: required_parse::<User>(doc, "user"@).unwrap(),
                },
            )
        } else {
            None
        }
    }

    open spec fn gaps(doc: Doc, at: Seq<char>, found: Seq<Seq<char>>) -> Seq<Seq<char>> {
        let found = required_gaps::<GuildId>(doc, "guild_id"@, at, found);
        let found = required_gaps::<User>(doc, "user"@, at, found);
        found
    }

    open spec fn needs(doc: Doc, key: Seq<char>) -> bool {
        ||| key == "guild_id"@
        ||| key == "user"@
    }

    proof fn gaps_law(doc: Doc, at: Seq<char>, found: Seq<Seq<char>>) {
        let start = found;
        settles_start(start);
        required_step::<GuildId>(doc, "guild_id"@, at, true, start, found);
        let fits = required_parse::<GuildId>(doc, "guild_id"@) is Some;
        let found = required_gaps::<GuildId>(doc, "guild_id"@, at, found);
        required_step::<User>(doc, "user"@, at, fits, start, found);
    }

    proof fn absent_is_noted(doc: Doc, at: Seq<char>, found: Seq<Seq<char>>, key: Seq<char>) {
        let path = field_path(at, key);
        required_keeps::<GuildId>(doc, "guild_id"@, at, found, path);
        let found = required_gaps::<GuildId>(doc, "guild_id"@, at, found);
        required_keeps::<User>(doc, "user"@, at, found, path);
    }

    fn decode(raw: &Value, at: &str, gaps: &mut Vec<String>) -> (r: Option<Self>) {
        let guild_id = required::<GuildId>(raw, "guild_id", at, gaps);
        let user = required::<User>(raw, "user", at, gaps);
        if guild_id.is_some()
            && user.is_some() {
            Some(
                GuildBan {
                    guild_id: guild_id.unwrap(),
                    user: user.unwrap(),
                },
            )
        } else {
            None
        }
    }
}

/// Sent when a guild's emojis have been updated.
#[derive(Clone, Debug, PartialEq, Eq)]
pub struct GuildEmojisUpdate {
    /// The id of the guild.
    pub guild_id: GuildId,
    /// The list of emojis on the guild.
    pub emojis: Vec<Emoji>,
}

/// The model of a [`GuildEmojisUpdate`]: the same fields, each by its model.
pub ghost struct GuildEmojisUpdateModel {
    pub guild_id: Seq<char>,
    pub emojis: Seq<EmojiModel>,
}

impl DeepView for GuildEmojisUpdate {
    type V = GuildEmojisUpdateModel;

    open spec fn deep_view(&self) -> GuildEmojisUpdateModel {
        GuildEmojisUpdateModel {
            guild_id: self.guild_id.deep_view(),
            emojis: self.emojis.deep_view(),
        }
    }
}

impl Decode for GuildEmojisUpdate {
    open spec fn parse(doc: Doc) -> Option<GuildEmojisUpdateModel> {
        if {
            &&& required_parse::<GuildId>(doc, "guild_id"@) is Some
            &&& required_parse::<Vec<Emoji>>(doc, "emojis"@) is Some
        } {
            Some(
                GuildEmojisUpdateModel {
                    guild_id: required_parse::<GuildId>(doc, "guild_id"@).unwrap(),
                    emojis: required_parse::<Vec<Emoji>>(doc, "emojis"@).unwrap(),
                },
            )
        } else {
            None
        }
    }

    open spec fn gaps(doc: Doc, at: Seq<char>, found: Seq<Seq<char>>) -> Seq<Seq<char>> {
        let found = required_gaps::<GuildId>(doc, "guild_id"@, at, found);
        let found = required_gaps::<Vec<Emoji>>(doc, "emojis"@, at, found);
        found
    }

    open spec fn needs(doc: Doc, key: Seq<char>) -> bool {
        ||| key == "guild_id"@
        ||| key == "emojis"@
    }

    proof fn gaps_law(doc: Doc, at: Seq<char>, found: Seq<Seq<char>>) {
        let start = found;
        settles_start(start);
        required_step::<GuildId>(doc, "guild_id"@, at, true, start, found);
        let fits = required_parse::<GuildId>(doc, "guild_id"@) is Some;
        let found = required_gaps::<GuildId>(doc, "guild_id"@, at, found);
        required_step::<Vec<Emoji>>(doc, "emojis"@, at, fits, start, found);
    }

    proof fn absent_is_noted(doc: Doc, at: Seq<char>, found: Seq<Seq<char>>, key: Seq<char>) {
        let path = field_path(at, key);
        required_keeps::<GuildId>(doc, "guild_id"@, at, found, path);
        let found = required_gaps::<GuildId>(doc, "guild_id"@, at, found);
        required_keeps::<Vec<Emoji>>(doc, "emojis"@, at, found, path);
    }

    fn decode(raw: &Value, at: &str, gaps: &mut Vec<String>) -> (r: Option<Self>) {
        let guild_id = required::<GuildId>(raw, "guild_id", at, gaps);
        let emojis = required::<Vec<Emoji>>(raw, "emojis", at, gaps);
        if guild_id.is_some()
            && emojis.is_some() {
            Some(
                GuildEmojisUpdate {
                    guild_id: guild_id.unwrap(),
                    emojis: emojis.unwrap(),
                },
            )
        } else {
            None
        }
    }
}

/// Sent when a guild integration is updated.
#[derive(Clone, Debug, PartialEq, Eq)]
pub struct GuildIntegrationsUpdate {
    /// The guild that is being updated.
    pub guild_id: GuildId,
}

/// The model of a [`GuildIntegrationsUpdate`]: the same fields, each by its model.
pub ghost struct GuildIntegrationsUpdateModel {
    pub guild_id: Seq<char>,
}

impl DeepView for GuildIntegrationsUpdate {
    type V = GuildIntegrationsUpdateModel;

    open spec fn deep_view(&self) -> GuildIntegrationsUpdateModel {
        GuildIntegrationsUpdateModel {
            guild_id: self.guild_id.deep_view(),
        }
    }
}

impl Decode for GuildIntegrationsUpdate {
    open spec fn parse(doc: Doc) -> Option<GuildIntegrationsUpdateModel> {
        if {
            &&& required_parse::<GuildId>(doc, "guild_id"@) is Some
        } {
            Some(
                GuildIntegrationsUpdateModel {
                    guild_id: required_parse::<GuildId>(doc, "guild_id"@).unwrap(),
                },
            )
        } else {
            None
        }
    }

    open spec fn gaps(doc: Doc, at: Seq<char>, found: Seq<Seq<char>>) -> Seq<Seq<char>> {
        let found = required_gaps::<GuildId>(doc, "guild_id"@, at, found);
        found
    }

    open spec fn needs(doc: Doc, key: Seq<char>) -> bool {
        key == "guild_id"@
    }

    proof fn gaps_law(doc: Doc, at: Seq<char>, found: Seq<Seq<char>>) {
        let start = found;
        settles_start(start);
        required_step::<GuildId>(doc, "guild_id"@, at, true, start, found);
    }

    proof fn absent_is_noted(doc: Doc, at: Seq<char>, found: Seq<Seq<char>>, key: Seq<char>) {
        let path = field_path(at, key);
        required_keeps::<GuildId>(doc, "guild_id"@, at, found, path);
    }

    fn decode(raw: &Value, at: &str, gaps: &mut Vec<String>) -> (r: Option<Self>) {
        let guild_id = required::<GuildId>(raw, "guild_id", at, gaps);
        if guild_id.is_some() {
            Some(
                GuildIntegrationsUpdate {
                    guild_id: guild_id.unwrap(),
                },
            )
        } else {
            None
        }
    }
}

/// Sent when a user joins a guild.
#[derive(Clone, Debug, PartialEq, Eq)]
pub struct GuildMemberAdd {
    /// The id of the guild.
    pub guild_id: GuildId,
    /// The member joining the guild.
    pub member: GuildMember,
}

/// The model of a [`GuildMemberAdd`]: the same fields, each by its model.
pub ghost struct GuildMemberAddModel {
    pub guild_id: Seq<char>,
    pub member: GuildMemberModel,
}

impl DeepView for GuildMemberAdd {
    type V = GuildMemberAddModel;

    open spec fn deep_view(&self) -> GuildMemberAddModel {
        GuildMemberAddModel {
            guild_id: self.guild_id.deep_view(),
            member: self.member.deep_view(),
        }
    }
}

impl Decode for GuildMemberAdd {
    open spec fn parse(doc: Doc) -> Option<GuildMemberAddModel> {
        if {
            &&& required_parse::<GuildId>(doc, "guild_id"@) is Some
            &&& GuildMember::parse(doc) is Some
        } {
            Some(
                GuildMemberAddModel {
                    guild_id: required_parse::<GuildId>(doc, "guild_id"@).unwrap(),
                    member: GuildMember::parse(doc).unwrap(),
                },
            )
        } else {
            None
        }
    }

    open spec fn gaps(doc: Doc, at: Seq<char>, found: Seq<Seq<char>>) -> Seq<Seq<char>> {
        let found = required_gaps::<GuildId>(doc, "guild_id"@, at, found);
        let found = GuildMember::gaps(doc, at, found);
        found
    }

    open spec fn needs(doc: Doc, key: Seq<char>) -> bool {
        ||| key == "guild_id"@
        ||| GuildMember::needs(doc, key)
    }

    proof fn gaps_law(doc: Doc, at: Seq<char>, found: Seq<Seq<char>>) {
        let start = found;
        settles_start(start);
        required_step::<GuildId>(doc, "guild_id"@, at, true, start, found);
        let fits = required_parse::<GuildId>(doc, "guild_id"@) is Some;
        let found = required_gaps::<GuildId>(doc, "guild_id"@, at, found);
        beside_step::<GuildMember>(doc, at, fits, start, found);
    }

    proof fn absent_is_noted(doc: Doc, at: Seq<char>, found: Seq<Seq<char>>, key: Seq<char>) {
        let path = field_path(at, key);
        required_keeps::<GuildId>(doc, "guild_id"@, at, found, path);
        let found = required_gaps::<GuildId>(doc, "guild_id"@, at, found);
        beside_keeps::<GuildMember>(doc, at, found, path, key);
    }

    fn decode(raw: &Value, at: &str, gaps: &mut Vec<String>) -> (r: Option<Self>) {
        let guild_id = required::<GuildId>(raw, "guild_id", at, gaps);
        let member = GuildMember::decode(raw, at, gaps);
        if guild_id.is_some()
            && member.is_some() {
            Some(
                GuildMemberAdd {
                    guild_id: guild_id.unwrap(),
                    member: member.unwrap(),
                },
            )
        } else {
            None
        }
    }
}

/// Sent when a user is removed from a guild (leaved/kicked/banned).
#[derive(Clone, Debug, PartialEq, Eq)]
pub struct GuildMemberRemove {
    /// The id of the guild.
    pub guild_id: GuildId,
    /// The user who was removed.
    pub user: User,
}

/// The model of a [`GuildMemberRemove`]: the same fields, each by its model.
pub ghost struct GuildMemberRemoveModel {
    pub guild_id: Seq<char>,
    pub user: UserModel,
}

impl DeepView for GuildMemberRemove {
    type V = GuildMemberRemoveModel;

    open spec fn deep_view(&self) -> GuildMemberRemoveModel {
        GuildMemberRemoveModel {
            guild_id: self.guild_id.deep_view(),
            user: self.user.deep_view(),
        }
    }
}

impl Decode for GuildMemberRemove {
    open spec fn parse(doc: Doc) -> Option<GuildMemberRemoveModel> {
        if {
            &&& required_parse::<GuildId>(doc, "guild_id"@) is Some
            &&& required_parse::<User>(doc, "user"@) is Some
        } {
            Some(
                GuildMemberRemoveModel {
                    guild_id: required_parse::<GuildId>(doc, "guild_id"@).unwrap(),
                    user: required_parse::<User>(doc, "user"@).unwrap(),
                },
            )
        } else {
            None
        }
    }

    open spec fn gaps(doc: Doc, at: Seq<char>, found: Seq<Seq<char>>) -> Seq<Seq<char>> {
        let found = required_gaps::<GuildId>(doc, "guild_id"@, at, found);
        let found = required_gaps::<User>(doc, "user"@, at, found);
        found
    }

    open spec fn needs(doc: Doc, key: Seq<char>) -> bool {
        ||| key == "guild_id"@
        ||| key == "user"@
    }

    proof fn gaps_law(doc: Doc, at: Seq<char>, found: Seq<Seq<char>>) {
        let start = found;
        settles_start(start);
        required_step::<GuildId>(doc, "guild_id"@, at, true, start, found);
        let fits = required_parse::<GuildId>(doc, "guild_id"@) is Some;
        let found = required_gaps::<GuildId>(doc, "guild_id"@, at, found);
        required_step::<User>(doc, "user"@, at, fits, start, found);
    }

    proof fn absent_is_noted(doc: Doc, at: Seq<char>, found: Seq<Seq<char>>, key: Seq<char>) {
        let path = field_path(at, key);
        required_keeps::<GuildId>(doc, "guild_id"@, at, found, path);
        let found = required_gaps::<GuildId>(doc, "guild_id"@, at, found);
        required_keeps::<User>(doc, "user"@, at, found, path);
    }

    fn decode(raw: &Value, at: &str, gaps: &mut Vec<String>) -> (r: Option<Self>) {
        let guild_id = required::<GuildId>(raw, "guild_id", at, gaps);
        let user = required::<User>(raw, "user", at, gaps);
        if guild_id.is_some()
            && user.is_some() {
            Some(
                GuildMemberRemove {
                    guild_id: guild_id.unwrap(),
                    user: user.unwrap(),
                },
            )
        } else {
            None
        }
    }
}

/// Sent when a guild member is updated.
#[derive(Clone, Debug, PartialEq, Eq)]
pub struct GuildMemberUpdate {
    /// The id of the guild.
    pub guild_id: GuildId,
    /// The user's roles.
    pub roles: Vec<RoleId>,
    /// The user.
    pub user: User,
    /// The nickname of the user in the guild.
    pub nick: String,
}

/// The model of a [`GuildMemberUpdate`]: the same fields, each by its model.
pub ghost struct GuildMemberUpdateModel {
    pub guild_id: Seq<char>,
    pub roles: Seq<Seq<char>>,
    pub user: UserModel,
    pub nick: Seq<char>,
}

impl DeepView for GuildMemberUpdate {
    type V = GuildMemberUpdateModel;

    open spec fn deep_view(&self) -> GuildMemberUpdateModel {
        GuildMemberUpdateModel {
            guild_id: self.guild_id.deep_view(),
            roles: self.roles.deep_view(),
            user: self.user.deep_view(),
            nick: self.nick.deep_view(),
        }
    }
}

impl Decode for GuildMemberUpdate {
    open spec fn parse(doc: Doc) -> Option<GuildMemberUpdateModel> {
        if {
            &&& required_parse::<GuildId>(doc, "guild_id"@) is Some
            &&& required_parse::<Vec<RoleId>>(doc, "roles"@) is Some
            &&& required_parse::<User>(doc, "user"@) is Some
            &&& required_parse::<String>(doc, "nick"@) is Some
        } {
            Some(
                GuildMemberUpdateModel {
                    guild_id: required_parse::<GuildId>(doc, "guild_id"@).unwrap(),
                    roles: required_parse::<Vec<RoleId>>(doc, "roles"@).unwrap(),
                    user: required_parse::<User>(doc, "user"@).unwrap(),
                    nick: required_parse::<String>(doc, "nick"@).unwrap(),
                },
            )
        } else {
            None
        }
    }

    open spec fn gaps(doc: Doc, at: Seq<char>, found: Seq<Seq<char>>) -> Seq<Seq<char>> {
        let found = required_gaps::<GuildId>(doc, "guild_id"@, at, found);
        let found = required_gaps::<Vec<RoleId>>(doc, "roles"@, at, found);
        let found = required_gaps::<User>(doc, "user"@, at, found);
        let found = required_gaps::<String>(doc, "nick"@, at, found);
        found
    }

    open spec fn needs(doc: Doc, key: Seq<char>) -> bool {
        ||| key == "guild_id"@
        ||| key == "roles"@
        ||| key == "user"@
        ||| key == "nick"@
    }

    proof fn gaps_law(doc: Doc, at: Seq<char>, found: Seq<Seq<char>>) {
        let start = found;
        settles_start(start);
        required_step::<GuildId>(doc, "guild_id"@, at, true, start, found);
        let fits = required_parse::<GuildId>(doc, "guild_id"@) is Some;
        let found = required_gaps::<GuildId>(doc, "guild_id"@, at, found);
        required_step::<Vec<RoleId>>(doc, "roles"@, at, fits, start, found);
        let fits = fits && required_parse::<Vec<RoleId>>(doc, "roles"@) is Some;
        let found = required_gaps::<Vec<RoleId>>(doc, "roles"@, at, found);
        required_step::<User>(doc, "user"@, at, fits, start, found);
        let fits = fits && required_parse::<User>(doc, "user"@) is Some;
        let found = required_gaps::<User>(doc, "user"@, at, found);
        required_step::<String>(doc, "nick"@, at, fits, start, found);
    }

    proof fn absent_is_noted(doc: Doc, at: Seq<char>, found: Seq<Seq<char>>, key: Seq<char>) {
        let path = field_path(at, key);
        required_keeps::<GuildId>(doc, "guild_id"@, at, found, path);
        let found = required_gaps::<GuildId>(doc, "guild_id"@, at, found);
        required_keeps::<Vec<RoleId>>(doc, "roles"@, at, found, path);
        let found = required_gaps::<Vec<RoleId>>(doc, "roles"@, at, found);
        required_keeps::<User>(doc, "user"@, at, found, path);
        let found = required_gaps::<User>(doc, "user"@, at, found);
        required_keeps::<String>(doc, "nick"@, at, found, path);
    }

    fn decode(raw: &Value, at: &str, gaps: &mut Vec<String>) -> (r: Option<Self>) {
        let guild_id = required::<GuildId>(raw, "guild_id", at, gaps);
        let roles = required::<Vec<RoleId>>(raw, "roles", at, gaps);
        let user = required::<User>(raw, "user", at, gaps);
        let nick = required::<String>(raw, "nick", at, gaps);
        if guild_id.is_some()
            && roles.is_some()
            && user.is_some()
            && nick.is_some() {
            Some(
                GuildMemberUpdate {
                    guild_id: guild_id.unwrap(),
                    roles: roles.unwrap(),
                    user: user.unwrap(),
                    nick: nick.unwrap(),
                },
            )
        } else {
            None
        }
    }
}

/// Sent in response to a `GuildRequestMembers`.
#[derive(Clone, Debug, PartialEq, Eq)]
pub struct GuildMembersChunk {
    /// The id of the guild.
    pub guild_id: GuildId,
    /// Set of guild members.
    pub members: Vec<GuildMember>,
    /// If passing invalid id to `RequestGuildMembers`, it will be returned here.
    pub not_found: Vec<UserId>,
    /// If passing `true` to `RequestGuildMembers`, presences will be returned here.
    pub presences: Vec<Presence>,
}

/// The model of a [`GuildMembersChunk`]: the same fields, each by its model.
pub ghost struct GuildMembersChunkModel {
    pub guild_id: Seq<char>,
    pub members: Seq<GuildMemberModel>,
    pub not_found: Seq<Seq<char>>,
    pub presences: Seq<PresenceModel>,
}

impl DeepView for GuildMembersChunk {
    type V = GuildMembersChunkModel;

    open spec fn deep_view(&self) -> GuildMembersChunkModel {
        GuildMembersChunkModel {
            guild_id: self.guild_id.deep_view(),
            members: self.members.deep_view(),
            not_found: self.not_found.deep_view(),
            presences: self.presences.deep_view(),
        }
    }
}

impl Decode for GuildMembersChunk {
    open spec fn parse(doc: Doc) -> Option<GuildMembersChunkModel> {
        if {
            &&& required_parse::<GuildId>(doc, "guild_id"@) is Some
            &&& required_parse::<Vec<GuildMember>>(doc, "members"@) is Some
            &&& required_parse::<Vec<UserId>>(doc, "not_found"@) is Some
            &&& required_parse::<Vec<Presence>>(doc, "presences"@) is Some
        } {
            Some(
                GuildMembersChunkModel {
                    guild_id: required_parse::<GuildId>(doc, "guild_id"@).unwrap(),
                    members: required_parse::<Vec<GuildMember>>(doc, "members"@).unwrap(),
                    not_found: required_parse::<Vec<UserId>>(doc, "not_found"@).unwrap(),
                    presences: required_parse::<Vec<Presence>>(doc, "presences"@).unwrap(),
                },
            )
        } else {
            None
        }
    }

    open spec fn gaps(doc: Doc, at: Seq<char>, found: Seq<Seq<char>>) -> Seq<Seq<char>> {
        let found = required_gaps::<GuildId>(doc, "guild_id"@, at, found);
        let found = required_gaps::<Vec<GuildMember>>(doc, "members"@, at, found);
        let found = required_gaps::<Vec<UserId>>(doc, "not_found"@, at, found);
        let found = required_gaps::<Vec<Presence>>(doc, "presences"@, at, found);
        found
    }

    open spec fn needs(doc: Doc, key: Seq<char>) -> bool {
        ||| key == "guild_id"@
        ||| key == "members"@
        ||| key == "not_found"@
        ||| key == "presences"@
    }

    proof fn gaps_law(doc: Doc, at: Seq<char>, found: Seq<Seq<char>>) {
        let start = found;
        settles_start(start);
        required_step::<GuildId>(doc, "guild_id"@, at, true, start, found);
        let fits = required_parse::<GuildId>(doc, "guild_id"@) is Some;
        let found = required_gaps::<GuildId>(doc, "guild_id"@, at, found);
        required_step::<Vec<GuildMember>>(doc, "members"@, at, fits, start, found);
        let fits = fits && required_parse::<Vec<GuildMember>>(doc, "members"@) is Some;
        let found = required_gaps::<Vec<GuildMember>>(doc, "members"@, at, found);
        required_step::<Vec<UserId>>(doc, "not_found"@, at, fits, start, found);
        let fits = fits && required_parse::<Vec<UserId>>(doc, "not_found"@) is Some;
        let found = required_gaps::<Vec<UserId>>(doc, "not_found"@, at, found);
        required_step::<Vec<Presence>>(doc, "presences"@, at, fits, start, found);
    }

    proof fn absent_is_noted(doc: Doc, at: Seq<char>, found: Seq<Seq<char>>, key: Seq<char>) {
        let path = field_path(at, key);
        required_keeps::<GuildId>(doc, "guild_id"@, at, found, path);
        let found = required_gaps::<GuildId>(doc, "guild_id"@, at, found);
        required_keeps::<Vec<GuildMember>>(doc, "members"@, at, found, path);
        let found = required_gaps::<Vec<GuildMember>>(doc, "members"@, at, found);
        required_keeps::<Vec<UserId>>(doc, "not_found"@, at, found, path);
        let found = required_gaps::<Vec<UserId>>(doc, "not_found"@, at, found);
        required_keeps::<Vec<Presence>>(doc, "presences"@, at, found, path);
    }

    fn decode(raw: &Value, at: &str, gaps: &mut Vec<String>) -> (r: Option<Self>) {
        let guild_id = required::<GuildId>(raw, "guild_id", at, gaps);
        let members = required::<Vec<GuildMember>>(raw, "members", at, gaps);
        let not_found = required::<Vec<UserId>>(raw, "not_found", at, gaps);
        let presences = required::<Vec<Presence>>(raw, "presences", at, gaps);
        if guild_id.is_some()
            && members.is_some()
            && not_found.is_some()
            && presences.is_some() {
            Some(
                GuildMembersChunk {
                    guild_id: guild_id.unwrap(),
                    members: members.unwrap(),
                    not_found: not_found.unwrap(),
                    presences: presences.unwrap(),
                },
            )
        } else {
            None
        }
    }
}

/// A role in a guild.
#[derive(Clone, Debug, PartialEq, Eq)]
pub struct GuildRole {
    /// Id of the guild.
    pub guild_id: GuildId,
    /// The Role created/updated.
    pub role: Role,
}

/// The model of a [`GuildRole`]: the same fields, each by its model.
pub ghost struct GuildRoleModel {
    pub guild_id: Seq<char>,
    pub role: RoleModel,
}

impl DeepView for GuildRole {
    type V = GuildRoleModel;

    open spec fn deep_view(&self) -> GuildRoleModel {
        GuildRoleModel {
            guild_id: self.guild_id.deep_view(),
            role: self.role.deep_view(),
        }
    }
}

impl Decode for GuildRole {
    open spec fn parse(doc: Doc) -> Option<GuildRoleModel> {
        if {
            &&& required_parse::<GuildId>(doc, "guild_id"@) is Some
            &&& required_parse::<Role>(doc, "role"@) is Some
        } {
            Some(
                GuildRoleModel {
                    guild_id: required_parse::<GuildId>(doc, "guild_id"@).unwrap(),
                    role: required_parse::<Role>(doc, "role"@).unwrap(),
                },
            )
        } else {
            None
        }
    }

    open spec fn gaps(doc: Doc, at: Seq<char>, found: Seq<Seq<char>>) -> Seq<Seq<char>> {
        let found = required_gaps::<GuildId>(doc, "guild_id"@, at, found);
        let found = required_gaps::<Role>(doc, "role"@, at, found);
        found
    }

    open spec fn needs(doc: Doc, key: Seq<char>) -> bool {
        ||| key == "guild_id"@
        ||| key == "role"@
    }

    proof fn gaps_law(doc: Doc, at: Seq<char>, found: Seq<Seq<char>>) {
        let start = found;
        settles_start(start);
        required_step::<GuildId>(doc, "guild_id"@, at, true, start, found);
        let fits = required_parse::<GuildId>(doc, "guild_id"@) is Some;
        let found = required_gaps::<GuildId>(doc, "guild_id"@, at, found);
        required_step::<Role>(doc, "role"@, at, fits, start, found);
    }

    proof fn absent_is_noted(doc: Doc, at: Seq<char>, found: Seq<Seq<char>>, key: Seq<char>) {
        let path = field_path(at, key);
        required_keeps::<GuildId>(doc, "guild_id"@, at, found, path);
        let found = required_gaps::<GuildId>(doc, "guild_id"@, at, found);
        required_keeps::<Role>(doc, "role"@, at, found, path);
    }

    fn decode(raw: &Value, at: &str, gaps: &mut Vec<String>) -> (r: Option<Self>) {
        let guild_id = required::<GuildId>(raw, "guild_id", at, gaps);
        let role = required::<Role>(raw, "role", at, gaps);
        if guild_id.is_some()
            && role.is_some() {
            Some(
                GuildRole {
                    guild_id: guild_id.unwrap(),
                    role: role.unwrap(),
                },
            )
        } else {
            None
        }
    }
}

/// Sent when a guld role is deleted.
#[derive(Clone, Debug, PartialEq, Eq)]
pub struct GuildRoleDelete {
    /// Id of the guild.
    pub guild_id: GuildId,
    /// Id of the role that was deleted.
    pub role_id: RoleId,
}

/// The model of a [`GuildRoleDelete`]: the same fields, each by its model.
pub ghost struct GuildRoleDeleteModel {
    pub guild_id: Seq<char>,
    pub role_id: Seq<char>,
}

impl DeepView for GuildRoleDelete {
    type V = GuildRoleDeleteModel;

    open spec fn deep_view(&self) -> GuildRoleDeleteModel {
        GuildRoleDeleteModel {
            guild_id: self.guild_id.deep_view(),
            role_id: self.role_id.deep_view(),
        }
    }
}

impl Decode for GuildRoleDelete {
    open spec fn parse(doc: Doc) -> Option<GuildRoleDeleteModel> {
        if {
            &&& required_parse::<GuildId>(doc, "guild_id"@) is Some
            &&& required_parse::<RoleId>(doc, "role_id"@) is Some
        } {
            Some(
                GuildRoleDeleteModel {
                    guild_id: required_parse::<GuildId>(doc, "guild_id"@).unwrap(),
                    role_id: required_parse::<RoleId>(doc, "role_id"@).unwrap(),
                },
            )
        } else {
            None
        }
    }

    open spec fn gaps(doc: Doc, at: Seq<char>, found: Seq<Seq<char>>) -> Seq<Seq<char>> {
        let found = required_gaps::<GuildId>(doc, "guild_id"@, at, found);
        let found = required_gaps::<RoleId>(doc, "role_id"@, at, found);
        found
    }

    open spec fn needs(doc: Doc, key: Seq<char>) -> bool {
        ||| key == "guild_id"@
        ||| key == "role_id"@
    }

    proof fn gaps_law(doc: Doc, at: Seq<char>, found: Seq<Seq<char>>) {
        let start = found;
        settles_start(start);
        required_step::<GuildId>(doc, "guild_id"@, at, true, start, found);
        let fits = required_parse::<GuildId>(doc, "guild_id"@) is Some;
        let found = required_gaps::<GuildId>(doc, "guild_id"@, at, found);
        required_step::<RoleId>(doc, "role_id"@, at, fits, start, found);
    }

    proof fn absent_is_noted(doc: Doc, at: Seq<char>, found: Seq<Seq<char>>, key: Seq<char>) {
        let path = field_path(at, key);
        required_keeps::<GuildId>(doc, "guild_id"@, at, found, path);
        let found = required_gaps::<GuildId>(doc, "guild_id"@, at, found);
        required_keeps::<RoleId>(doc, "role_id"@, at, found, path);
    }

    fn decode(raw: &Value, at: &str, gaps: &mut Vec<String>) -> (r: Option<Self>) {
        let guild_id = required::<GuildId>(raw, "guild_id", at, gaps);
        let role_id = required::<RoleId>(raw, "role_id", at, gaps);
        if guild_id.is_some()
            && role_id.is_some() {
            Some(
                GuildRoleDelete {
                    guild_id: guild_id.unwrap(),
                    role_id: role_id.unwrap(),
                },
            )
        } else {
            None
        }
    }
}

/// What decoding the payload of a channel event comes to: as
/// [`channel_outcome`] says, but a shape mismatch names the event in place
/// of the kind of channel.
pub open spec fn channel_event(doc: Doc, event_name: Seq<char>) -> Result<
    ChannelModel,
    DecodeErrorModel,
> {
    match channel_outcome(doc) {
        Ok(channel) => Ok(channel),
        Err(DecodeErrorModel::PayloadShapeMismatch { event_name: _, missing_fields }) => Err(
            DecodeErrorModel::PayloadShapeMismatch { event_name, missing_fields },
        ),
        Err(error) => Err(error),
    }
}

/// Decodes the payload of a channel event.
fn resolve_channel_event(payload: &Value, event_name: &str) -> (r: Result<Channel, DecodeError>)
    ensures
        outcome_model(r) == channel_event(doc_of(*payload), event_name@),
{
    match resolve_channel(payload) {
        Ok(channel) => Ok(channel),
        Err(DecodeError::PayloadShapeMismatch { event_name: _, missing_fields }) => Err(
            DecodeError::PayloadShapeMismatch {
                event_name: event_name.to_owned(),
                missing_fields,
            },
        ),
        Err(error) => Err(error),
    }
}

/// What decoding `doc` as the payload of the event `code` comes to: the
/// event with its record, or a shape mismatch that names the event and
/// every field that the record lacks.
#[verifier::opaque]
pub open spec fn event_of(code: DispatchEventCode, doc: Doc) -> Result<
    DispatchEventModel,
    DecodeErrorModel,
> {
    match code {
        DispatchEventCode::ChannelCreate => match channel_event(doc, code.spec_name()) {
            Ok(payload) => Ok(DispatchEventModel::ChannelCreate(payload)),
            Err(error) => Err(error),
        },
        DispatchEventCode::ChannelUpdate => match channel_event(doc, code.spec_name()) {
            Ok(payload) => Ok(DispatchEventModel::ChannelUpdate(payload)),
            Err(error) => Err(error),
        },
        DispatchEventCode::ChannelDelete => match channel_event(doc, code.spec_name()) {
            Ok(payload) => Ok(DispatchEventModel::ChannelDelete(payload)),
            Err(error) => Err(error),
        },
        DispatchEventCode::ChannelPinsUpdate => match payload_outcome::<ChannelPinsUpdate>(
            doc,
            code.spec_name(),
            ""@,
        ) {
            Ok(payload) => Ok(DispatchEventModel::ChannelPinsUpdate(payload)),
            Err(error) => Err(error),
        },
        DispatchEventCode::GuildCreate => match payload_outcome::<GuildCreate>(
            doc,
            code.spec_name(),
            ""@,
        ) {
            Ok(payload) => Ok(DispatchEventModel::GuildCreate(payload)),
            Err(error) => Err(error),
        },
        DispatchEventCode::GuildUpdate => match payload_outcome::<Guild>(
            doc,
            code.spec_name(),
            ""@,
        ) {
            Ok(payload) => Ok(DispatchEventModel::GuildUpdate(payload)),
            Err(error) => Err(error),
        },
        DispatchEventCode::GuildDelete => match payload_outcome::<UnavailableGuild>(
            doc,
            code.spec_name(),
            ""@,
        ) {
            Ok(payload) => Ok(DispatchEventModel::GuildDelete(payload)),
            Err(error) => Err(error),
        },
        DispatchEventCode::GuildBanAdd => match payload_outcome::<GuildBan>(
            doc,
            code.spec_name(),
            ""@,
        ) {
            Ok(payload) => Ok(DispatchEventModel::GuildBanAdd(payload)),
            Err(error) => Err(error),
        },
        DispatchEventCode::GuildBanRemove => match payload_outcome::<GuildBan>(
            doc,
            code.spec_name(),
            ""@,
        ) {
            Ok(payload) => Ok(DispatchEventModel::GuildBanRemove(payload)),
            Err(error) => Err(error),
        },
        DispatchEventCode::GuildEmojisUpdate => match payload_outcome::<GuildEmojisUpdate>(
            doc,
            code.spec_name(),
            ""@,
        ) {
            Ok(payload) => Ok(DispatchEventModel::GuildEmojisUpdate(payload)),
            Err(error) => Err(error),
        },
        DispatchEventCode::GuildIntegrationsUpdate => match payload_outcome::<GuildIntegrationsUpdate>(
            doc,
            code.spec_name(),
            ""@,
        ) {
            Ok(payload) => Ok(DispatchEventModel::GuildIntegrationsUpdate(payload)),
            Err(error) => Err(error),
        },
        DispatchEventCode::GuildMemberAdd => match payload_outcome::<GuildMemberAdd>(
            doc,
            code.spec_name(),
            ""@,
        ) {
            Ok(payload) => Ok(DispatchEventModel::GuildMemberAdd(payload)),
            Err(error) => Err(error),
        },
        DispatchEventCode::GuildMemberRemove => match payload_outcome::<GuildMemberRemove>(
            doc,
            code.spec_name(),
            ""@,
        ) {
            Ok(payload) => Ok(DispatchEventModel::GuildMemberRemove(payload)),
            Err(error) => Err(error),
        },
        DispatchEventCode::GuildMemberUpdate => match payload_outcome::<GuildMemberUpdate>(
            doc,
            code.spec_name(),
            ""@,
        ) {
            Ok(payload) => Ok(DispatchEventModel::GuildMemberUpdate(payload)),
            Err(error) => Err(error),
        },
        DispatchEventCode::GuildMembersChunk => match payload_outcome::<GuildMembersChunk>(
            doc,
            code.spec_name(),
            ""@,
        ) {
            Ok(payload) => Ok(DispatchEventModel::GuildMembersChunk(payload)),
            Err(error) => Err(error),
        },
        DispatchEventCode::GuildRoleAdd => match payload_outcome::<GuildRole>(
            doc,
            code.spec_name(),
            ""@,
        ) {
            Ok(payload) => Ok(DispatchEventModel::GuildRoleAdd(payload)),
            Err(error) => Err(error),
        },
        DispatchEventCode::GuildRoleUpdate => match payload_outcome::<GuildRole>(
            doc,
            code.spec_name(),
            ""@,
        ) {
            Ok(payload) => Ok(DispatchEventModel::GuildRoleUpdate(payload)),
            Err(error) => Err(error),
        },
        DispatchEventCode::GuildRoleDelete => match payload_outcome::<GuildRoleDelete>(
            doc,
            code.spec_name(),
            ""@,
        ) {
            Ok(payload) => Ok(DispatchEventModel::GuildRoleDelete(payload)),
            Err(error) => Err(error),
        },
        DispatchEventCode::MessageCreate => match payload_outcome::<MessageUpdate>(
            doc,
            code.spec_name(),
            ""@,
        ) {
            Ok(payload) => Ok(DispatchEventModel::MessageCreate(payload)),
            Err(error) => Err(error),
        },
        DispatchEventCode::MessageUpdate => match payload_outcome::<MessageUpdate>(
            doc,
            code.spec_name(),
            ""@,
        ) {
            Ok(payload) => Ok(DispatchEventModel::MessageUpdate(payload)),
            Err(error) => Err(error),
        },
        DispatchEventCode::MessageDelete => match payload_outcome::<MessageDelete>(
            doc,
            code.spec_name(),
            ""@,
        ) {
            Ok(payload) => Ok(DispatchEventModel::MessageDelete(payload)),
            Err(error) => Err(error),
        },
        DispatchEventCode::MessageDeleteBulk => match payload_outcome::<MessageDeleteBulk>(
            doc,
            code.spec_name(),
            ""@,
        ) {
            Ok(payload) => Ok(DispatchEventModel::MessageDeleteBulk(payload)),
            Err(error) => Err(error),
        },
        DispatchEventCode::MessageReactionAdd => match payload_outcome::<MessageReactionAdd>(
            doc,
            code.spec_name(),
            ""@,
        ) {
            Ok(payload) => Ok(DispatchEventModel::MessageReactionAdd(payload)),
            Err(error) => Err(error),
        },
        DispatchEventCode::MessageReactionRemove => match payload_outcome::<MessageReactionRemove>(
            doc,
            code.spec_name(),
            ""@,
        ) {
            Ok(payload) => Ok(DispatchEventModel::MessageReactionRemove(payload)),
            Err(error) => Err(error),
        },
        DispatchEventCode::MessageReactionRemoveAll => match payload_outcome::<MessageReactionRemoveAll>(
            doc,
            code.spec_name(),
            ""@,
        ) {
            Ok(payload) => Ok(DispatchEventModel::MessageReactionRemoveAll(payload)),
            Err(error) => Err(error),
        },
    }
}

/// What [`resolve_event`] makes of an event name and a payload. The name
/// must be one of the known names, letter for letter; any other name is an
/// error, and no payload is looked at for it.
pub open spec fn event_outcome(event_name: Seq<char>, doc: Doc) -> Result<
    DispatchEventModel,
    DecodeErrorModel,
> {
    match DispatchEventCode::of_name(event_name) {
        Some(code) => event_of(code, doc),
        None => Err(DecodeErrorModel::UnknownEventName(event_name)),
    }
}

/// Decodes the payload of the event `code`.
pub fn resolve_known_event(code: DispatchEventCode, payload: &Value) -> (r: Result<
    DispatchEvent,
    DecodeError,
>)
    ensures
        outcome_model(r) == event_of(code, doc_of(*payload)),
{
    reveal(event_of);
    match code {
        DispatchEventCode::ChannelCreate => match resolve_channel_event(payload, code.name()) {
            Ok(decoded) => Ok(DispatchEvent::ChannelCreate(decoded)),
            Err(error) => Err(error),
        },
        DispatchEventCode::ChannelUpdate => match resolve_channel_event(payload, code.name()) {
            Ok(decoded) => Ok(DispatchEvent::ChannelUpdate(decoded)),
            Err(error) => Err(error),
        },
        DispatchEventCode::ChannelDelete => match resolve_channel_event(payload, code.name()) {
            Ok(decoded) => Ok(DispatchEvent::ChannelDelete(decoded)),
            Err(error) => Err(error),
        },
        DispatchEventCode::ChannelPinsUpdate => match decode_payload::<ChannelPinsUpdate>(
            payload,
            code.name(),
            "",
        ) {
            Ok(decoded) => Ok(DispatchEvent::ChannelPinsUpdate(decoded)),
            Err(error) => Err(error),
        },
        DispatchEventCode::GuildCreate => match decode_payload::<GuildCreate>(
            payload,
            code.name(),
            "",
        ) {
            Ok(decoded) => Ok(DispatchEvent::GuildCreate(decoded)),
            Err(error) => Err(error),
        },
        DispatchEventCode::GuildUpdate => match decode_payload::<Guild>(payload, code.name(), "") {
            Ok(decoded) => Ok(DispatchEvent::GuildUpdate(decoded)),
            Err(error) => Err(error),
        },
        DispatchEventCode::GuildDelete => match decode_payload::<UnavailableGuild>(
            payload,
            code.name(),
            "",
        ) {
            Ok(decoded) => Ok(DispatchEvent::GuildDelete(decoded)),
            Err(error) => Err(error),
        },
        DispatchEventCode::GuildBanAdd => match decode_payload::<GuildBan>(
            payload,
            code.name(),
            "",
        ) {
            Ok(decoded) => Ok(DispatchEvent::GuildBanAdd(decoded)),
            Err(error) => Err(error),
        },
        DispatchEventCode::GuildBanRemove => match decode_payload::<GuildBan>(
            payload,
            code.name(),
            "",
        ) {
            Ok(decoded) => Ok(DispatchEvent::GuildBanRemove(decoded)),
            Err(error) => Err(error),
        },
        DispatchEventCode::GuildEmojisUpdate => match decode_payload::<GuildEmojisUpdate>(
            payload,
            code.name(),
            "",
        ) {
            Ok(decoded) => Ok(DispatchEvent::GuildEmojisUpdate(decoded)),
            Err(error) => Err(error),
        },
        DispatchEventCode::GuildIntegrationsUpdate => match decode_payload::<GuildIntegrationsUpdate>(
            payload,
            code.name(),
            "",
        ) {
            Ok(decoded) => Ok(DispatchEvent::GuildIntegrationsUpdate(decoded)),
            Err(error) => Err(error),
        },
        DispatchEventCode::GuildMemberAdd => match decode_payload::<GuildMemberAdd>(
            payload,
            code.name(),
            "",
        ) {
            Ok(decoded) => Ok(DispatchEvent::GuildMemberAdd(decoded)),
            Err(error) => Err(error),
        },
        DispatchEventCode::GuildMemberRemove => match decode_payload::<GuildMemberRemove>(
            payload,
            code.name(),
            "",
        ) {
            Ok(decoded) => Ok(DispatchEvent::GuildMemberRemove(decoded)),
            Err(error) => Err(error),
        },
        DispatchEventCode::GuildMemberUpdate => match decode_payload::<GuildMemberUpdate>(
            payload,
            code.name(),
            "",
        ) {
            Ok(decoded) => Ok(DispatchEvent::GuildMemberUpdate(decoded)),
            Err(error) => Err(error),
        },
        DispatchEventCode::GuildMembersChunk => match decode_payload::<GuildMembersChunk>(
            payload,
            code.name(),
            "",
        ) {
            Ok(decoded) => Ok(DispatchEvent::GuildMembersChunk(decoded)),
            Err(error) => Err(error),
        },
        DispatchEventCode::GuildRoleAdd => match decode_payload::<GuildRole>(
            payload,
            code.name(),
            "",
        ) {
            Ok(decoded) => Ok(DispatchEvent::GuildRoleAdd(decoded)),
            Err(error) => Err(error),
        },
        DispatchEventCode::GuildRoleUpdate => match decode_payload::<GuildRole>(
            payload,
            code.name(),
            "",
        ) {
            Ok(decoded) => Ok(DispatchEvent::GuildRoleUpdate(decoded)),
            Err(error) => Err(error),
        },
        DispatchEventCode::GuildRoleDelete => match decode_payload::<GuildRoleDelete>(
            payload,
            code.name(),
            "",
        ) {
            Ok(decoded) => Ok(DispatchEvent::GuildRoleDelete(decoded)),
            Err(error) => Err(error),
        },
        DispatchEventCode::MessageCreate => match decode_payload::<MessageUpdate>(
            payload,
            code.name(),
            "",
        ) {
            Ok(decoded) => Ok(DispatchEvent::MessageCreate(decoded)),
            Err(error) => Err(error),
        },
        DispatchEventCode::MessageUpdate => match decode_payload::<MessageUpdate>(
            payload,
            code.name(),
            "",
        ) {
            Ok(decoded) => Ok(DispatchEvent::MessageUpdate(decoded)),
            Err(error) => Err(error),
        },
        DispatchEventCode::MessageDelete => match decode_payload::<MessageDelete>(
            payload,
            code.name(),
            "",
        ) {
            Ok(decoded) => Ok(DispatchEvent::MessageDelete(decoded)),
            Err(error) => Err(error),
        },
        DispatchEventCode::MessageDeleteBulk => match decode_payload::<MessageDeleteBulk>(
            payload,
            code.name(),
            "",
        ) {
            Ok(decoded) => Ok(DispatchEvent::MessageDeleteBulk(decoded)),
            Err(error) => Err(error),
        },
        DispatchEventCode::MessageReactionAdd => match decode_payload::<MessageReactionAdd>(
            payload,
            code.name(),
            "",
        ) {
            Ok(decoded) => Ok(DispatchEvent::MessageReactionAdd(decoded)),
            Err(error) => Err(error),
        },
        DispatchEventCode::MessageReactionRemove => match decode_payload::<MessageReactionRemove>(
            payload,
            code.name(),
            "",
        ) {
            Ok(decoded) => Ok(DispatchEvent::MessageReactionRemove(decoded)),
            Err(error) => Err(error),
        },
        DispatchEventCode::MessageReactionRemoveAll => match decode_payload::<MessageReactionRemoveAll>(
            payload,
            code.name(),
            "",
        ) {
            Ok(decoded) => Ok(DispatchEvent::MessageReactionRemoveAll(decoded)),
            Err(error) => Err(error),
        },
    }
}

/// Decodes a dispatched event from its name and its payload.
pub fn resolve_event(event_name: &str, payload: &Value) -> (r: Result<DispatchEvent, DecodeError>)
    ensures
        outcome_model(r) == event_outcome(event_name@, doc_of(*payload)),
{
    match DispatchEventCode::from_name(event_name) {
        Some(code) => resolve_known_event(code, payload),
        None => Err(DecodeError::UnknownEventName(event_name.to_owned())),
    }
}

/// An event comes out only under the name it was asked for.
pub proof fn event_follows_name(code: DispatchEventCode, doc: Doc)
    ensures
        event_of(code, doc) matches Ok(event) ==> event.code() == code,
{
    reveal(event_of);
}

/// Whether the record of the event `code` must hold the field `key`. For a
/// channel event that depends on the kind of channel, which the type code
/// in `doc` selects; without a known type code no field is asked for.
pub open spec fn event_needs(code: DispatchEventCode, doc: Doc, key: Seq<char>) -> bool {
    match code {
        DispatchEventCode::ChannelCreate => kind_of(doc) is Some && Channel::needs(doc, key),
        DispatchEventCode::ChannelUpdate => kind_of(doc) is Some && Channel::needs(doc, key),
        DispatchEventCode::ChannelDelete => kind_of(doc) is Some && Channel::needs(doc, key),
        DispatchEventCode::ChannelPinsUpdate => ChannelPinsUpdate::needs(doc, key),
        DispatchEventCode::GuildCreate => GuildCreate::needs(doc, key),
        DispatchEventCode::GuildUpdate => Guild::needs(doc, key),
        DispatchEventCode::GuildDelete => UnavailableGuild::needs(doc, key),
        DispatchEventCode::GuildBanAdd => GuildBan::needs(doc, key),
        DispatchEventCode::GuildBanRemove => GuildBan::needs(doc, key),
        DispatchEventCode::GuildEmojisUpdate => GuildEmojisUpdate::needs(doc, key),
        DispatchEventCode::GuildIntegrationsUpdate => GuildIntegrationsUpdate::needs(doc, key),
        DispatchEventCode::GuildMemberAdd => GuildMemberAdd::needs(doc, key),
        DispatchEventCode::GuildMemberRemove => GuildMemberRemove::needs(doc, key),
        DispatchEventCode::GuildMemberUpdate => GuildMemberUpdate::needs(doc, key),
        DispatchEventCode::GuildMembersChunk => GuildMembersChunk::needs(doc, key),
        DispatchEventCode::GuildRoleAdd => GuildRole::needs(doc, key),
        DispatchEventCode::GuildRoleUpdate => GuildRole::needs(doc, key),
        DispatchEventCode::GuildRoleDelete => GuildRoleDelete::needs(doc, key),
        DispatchEventCode::MessageCreate => MessageUpdate::needs(doc, key),
        DispatchEventCode::MessageUpdate => MessageUpdate::needs(doc, key),
        DispatchEventCode::MessageDelete => MessageDelete::needs(doc, key),
        DispatchEventCode::MessageDeleteBulk => MessageDeleteBulk::needs(doc, key),
        DispatchEventCode::MessageReactionAdd => MessageReactionAdd::needs(doc, key),
        DispatchEventCode::MessageReactionRemove => MessageReactionRemove::needs(doc, key),
        DispatchEventCode::MessageReactionRemoveAll => MessageReactionRemoveAll::needs(doc, key),
    }
}

/// Taking away a field that the record of an event needs makes decoding
/// fail with a shape mismatch that names the event and that field.
pub proof fn absent_field_is_named(code: DispatchEventCode, doc: Doc, key: Seq<char>)
    requires
        event_needs(code, doc, key),
        doc.member(key) is None,
    ensures
        event_of(code, doc) matches Err(
            DecodeErrorModel::PayloadShapeMismatch { event_name, missing_fields },
        ) && event_name == code.spec_name() && missing_fields.contains(key),
{
    reveal(event_of);
    match code {
        DispatchEventCode::ChannelCreate => channel_names_absent_field(doc, key),
        DispatchEventCode::ChannelUpdate => channel_names_absent_field(doc, key),
        DispatchEventCode::ChannelDelete => channel_names_absent_field(doc, key),
        DispatchEventCode::ChannelPinsUpdate => payload_names_absent_field::<ChannelPinsUpdate>(
            doc,
            code.spec_name(),
            key,
        ),
        DispatchEventCode::GuildCreate => payload_names_absent_field::<GuildCreate>(
            doc,
            code.spec_name(),
            key,
        ),
        DispatchEventCode::GuildUpdate => payload_names_absent_field::<Guild>(
            doc,
            code.spec_name(),
            key,
        ),
        DispatchEventCode::GuildDelete => payload_names_absent_field::<UnavailableGuild>(
            doc,
            code.spec_name(),
            key,
        ),
        DispatchEventCode::GuildBanAdd => payload_names_absent_field::<GuildBan>(
            doc,
            code.spec_name(),
            key,
        ),
        DispatchEventCode::GuildBanRemove => payload_names_absent_field::<GuildBan>(
            doc,
            code.spec_name(),
            key,
        ),
        DispatchEventCode::GuildEmojisUpdate => payload_names_absent_field::<GuildEmojisUpdate>(
            doc,
            code.spec_name(),
            key,
        ),
        DispatchEventCode::GuildIntegrationsUpdate => payload_names_absent_field::<GuildIntegrationsUpdate>(
            doc,
            code.spec_name(),
            key,
        ),
        DispatchEventCode::GuildMemberAdd => payload_names_absent_field::<GuildMemberAdd>(
            doc,
            code.spec_name(),
            key,
        ),
        DispatchEventCode::GuildMemberRemove => payload_names_absent_field::<GuildMemberRemove>(
            doc,
            code.spec_name(),
            key,
        ),
        DispatchEventCode::GuildMemberUpdate => payload_names_absent_field::<GuildMemberUpdate>(
            doc,
            code.spec_name(),
            key,
        ),
        DispatchEventCode::GuildMembersChunk => payload_names_absent_field::<GuildMembersChunk>(
            doc,
            code.spec_name(),
            key,
        ),
        DispatchEventCode::GuildRoleAdd => payload_names_absent_field::<GuildRole>(
            doc,
            code.spec_name(),
            key,
        ),
        DispatchEventCode::GuildRoleUpdate => payload_names_absent_field::<GuildRole>(
            doc,
            code.spec_name(),
            key,
        ),
        DispatchEventCode::GuildRoleDelete => payload_names_absent_field::<GuildRoleDelete>(
            doc,
            code.spec_name(),
            key,
        ),
        DispatchEventCode::MessageCreate => payload_names_absent_field::<MessageUpdate>(
            doc,
            code.spec_name(),
            key,
        ),
        DispatchEventCode::MessageUpdate => payload_names_absent_field::<MessageUpdate>(
            doc,
            code.spec_name(),
            key,
        ),
        DispatchEventCode::MessageDelete => payload_names_absent_field::<MessageDelete>(
            doc,
            code.spec_name(),
            key,
        ),
        DispatchEventCode::MessageDeleteBulk => payload_names_absent_field::<MessageDeleteBulk>(
            doc,
            code.spec_name(),
            key,
        ),
        DispatchEventCode::MessageReactionAdd => payload_names_absent_field::<MessageReactionAdd>(
            doc,
            code.spec_name(),
            key,
        ),
        DispatchEventCode::MessageReactionRemove => payload_names_absent_field::<MessageReactionRemove>(
            doc,
            code.spec_name(),
            key,
        ),
        DispatchEventCode::MessageReactionRemoveAll => payload_names_absent_field::<MessageReactionRemoveAll>(
            doc,
            code.spec_name(),
            key,
        ),
    }
}

/// Each of the event names stands for its own event: looking up the name
/// of an event finds that event.
pub proof fn event_names_round_trip(code: DispatchEventCode)
    ensures
        DispatchEventCode::of_name(code.spec_name()) == Some(code),
{
    reveal_strlit("CHANNEL_CREATE");
    reveal_strlit("CHANNEL_UPDATE");
    reveal_strlit("CHANNEL_DELETE");
    reveal_strlit("CHANNEL_PINS_UPDATE");
    reveal_strlit("GUILD_CREATE");
    reveal_strlit("GUILD_UPDATE");
    reveal_strlit("GUILD_DELETE");
    reveal_strlit("GUILD_BAN_ADD");
    reveal_strlit("GUILD_BAN_REMOVE");
    reveal_strlit("GUILD_EMOJIS_UPDATE");
    reveal_strlit("GUILD_INTEGRATIONS_UPDATE");
    reveal_strlit("GUILD_MEMBER_ADD");
    reveal_strlit("GUILD_MEMBER_REMOVE");
    reveal_strlit("GUILD_MEMBER_UPDATE");
    reveal_strlit("GUILD_MEMBERS_CHUNK");
    reveal_strlit("GUILD_ROLE_ADD");
    reveal_strlit("GUILD_ROLE_UPDATE");
    reveal_strlit("GUILD_ROLE_DELETE");
    reveal_strlit("MESSAGE_CREATE");
    reveal_strlit("MESSAGE_UPDATE");
    reveal_strlit("MESSAGE_DELETE");
    reveal_strlit("MESSAGE_DELETE_BULK");
    reveal_strlit("MESSAGE_REACTION_ADD");
    reveal_strlit("MESSAGE_REACTION_REMOVE");
    reveal_strlit("MESSAGE_REACTION_REMOVE_ALL");
    assert("CHANNEL_CREATE"@.len() == 14);
    assert("CHANNEL_UPDATE"@.len() == 14);
    assert("CHANNEL_DELETE"@.len() == 14);
    assert("CHANNEL_PINS_UPDATE"@.len() == 19);
    assert("GUILD_CREATE"@.len() == 12);
    assert("GUILD_UPDATE"@.len() == 12);
    assert("GUILD_DELETE"@.len() == 12);
    assert("GUILD_BAN_ADD"@.len() == 13);
    assert("GUILD_BAN_REMOVE"@.len() == 16);
    assert("GUILD_EMOJIS_UPDATE"@.len() == 19);
    assert("GUILD_INTEGRATIONS_UPDATE"@.len() == 25);
    assert("GUILD_MEMBER_ADD"@.len() == 16);
    assert("GUILD_MEMBER_REMOVE"@.len() == 19);
    assert("GUILD_MEMBER_UPDATE"@.len() == 19);
    assert("GUILD_MEMBERS_CHUNK"@.len() == 19);
    assert("GUILD_ROLE_ADD"@.len() == 14);
    assert("GUILD_ROLE_UPDATE"@.len() == 17);
    assert("GUILD_ROLE_DELETE"@.len() == 17);
    assert("MESSAGE_CREATE"@.len() == 14);
    assert("MESSAGE_UPDATE"@.len() == 14);
    assert("MESSAGE_DELETE"@.len() == 14);
    assert("MESSAGE_DELETE_BULK"@.len() == 19);
    assert("MESSAGE_REACTION_ADD"@.len() == 20);
    assert("MESSAGE_REACTION_REMOVE"@.len() == 23);
    assert("MESSAGE_REACTION_REMOVE_ALL"@.len() == 27);
    assert("CHANNEL_CREATE"@[0] == 'C');
    assert("CHANNEL_CREATE"@[8] == 'C');
    assert("CHANNEL_DELETE"@[0] == 'C');
    assert("CHANNEL_DELETE"@[8] == 'D');
    assert("CHANNEL_PINS_UPDATE"@[0] == 'C');
    assert("CHANNEL_UPDATE"@[0] == 'C');
    assert("CHANNEL_UPDATE"@[8] == 'U');
    assert("GUILD_BAN_REMOVE"@[6] == 'B');
    assert("GUILD_CREATE"@[6] == 'C');
    assert("GUILD_DELETE"@[6] == 'D');
    assert("GUILD_EMOJIS_UPDATE"@[0] == 'G');
    assert("GUILD_EMOJIS_UPDATE"@[6] == 'E');
    assert("GUILD_MEMBERS_CHUNK"@[0] == 'G');
    assert("GUILD_MEMBERS_CHUNK"@[6] == 'M');
    assert("GUILD_MEMBERS_CHUNK"@[12] == 'S');
    assert("GUILD_MEMBER_ADD"@[6] == 'M');
    assert("GUILD_MEMBER_REMOVE"@[0] == 'G');
    assert("GUILD_MEMBER_REMOVE"@[6] == 'M');
    assert("GUILD_MEMBER_REMOVE"@[12] == '_');
    assert("GUILD_MEMBER_REMOVE"@[13] == 'R');
    assert("GUILD_MEMBER_UPDATE"@[0] == 'G');
    assert("GUILD_MEMBER_UPDATE"@[6] == 'M');
    assert("GUILD_MEMBER_UPDATE"@[12] == '_');
    assert("GUILD_MEMBER_UPDATE"@[13] == 'U');
    assert("GUILD_ROLE_ADD"@[0] == 'G');
    assert("GUILD_ROLE_DELETE"@[11] == 'D');
    assert("GUILD_ROLE_UPDATE"@[11] == 'U');
    assert("GUILD_UPDATE"@[6] == 'U');
    assert("MESSAGE_CREATE"@[0] == 'M');
    assert("MESSAGE_CREATE"@[8] == 'C');
    assert("MESSAGE_DELETE"@[0] == 'M');
    assert("MESSAGE_DELETE"@[8] == 'D');
    assert("MESSAGE_DELETE_BULK"@[0] == 'M');
    assert("MESSAGE_UPDATE"@[0] == 'M');
    assert("MESSAGE_UPDATE"@[8] == 'U');
}

/// Under each of the event names, [`resolve_event`] decodes the record of
/// that name's event.
pub proof fn named_event_is_resolved(code: DispatchEventCode, doc: Doc)
    ensures
        event_outcome(code.spec_name(), doc) == event_of(code, doc),
{
    event_names_round_trip(code);
}

} // verus!
