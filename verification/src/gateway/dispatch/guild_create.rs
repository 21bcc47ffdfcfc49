use crate::decode::{
    beside_keeps, beside_step, mark, note, note_settles, optional, optional_gaps, optional_keeps,
    optional_parse, optional_step, required, required_gaps, required_keeps, required_parse,
    required_step, settles_start, Decode,
};
use crate::document::{member, Doc};
use crate::gateway::status_update::{Activity, ActivityModel, Status};
use crate::path::{field_path, same_text};
use crate::resources::channel::{Channel, ChannelId, ChannelModel};
use crate::resources::guild::{Guild, GuildModel};
use crate::resources::guild_member::{GuildMember, GuildMemberModel};
use crate::resources::role::RoleId;
use crate::resources::user::{PremiumType, UserId};
use crate::time::Timestamp;
use serde_json::Value;
use vstd::prelude::*;

verus! {

/// A guild that was either created or lazily-loaded.
#[derive(Clone, Debug, PartialEq, Eq)]
pub struct GuildCreate {
    /// The guild that was created.
    pub guild: Guild,
    /// When this guild was joined.
    pub joined_at: Timestamp,
    /// Whether this guild is considered to be a large guild.
    pub large: bool,
    /// Whether this guild is unavailable.
    pub unavailable: bool,
    /// Total number of members in this guild.
    pub member_count: u16,
    /// An array of voice states.
    pub voice_states: Vec<PartialVoiceState>,
    /// Members of the guild.
    pub members: Vec<GuildMember>,
    /// Channels in the guild.
    pub channels: Vec<Channel>,
    /// Presences of the users in the guild.
    pub presences: Vec<PartialPresenceUpdate>,
}

/// The model of a [`GuildCreate`]: the same fields, each by its model.
pub ghost struct GuildCreateModel {
    pub guild: GuildModel,
    pub joined_at: Timestamp,
    pub large: bool,
    pub unavailable: bool,
    pub member_count: u16,
    pub voice_states: Seq<PartialVoiceStateModel>,
    pub members: Seq<GuildMemberModel>,
    pub channels: Seq<ChannelModel>,
    pub presences: Seq<PartialPresenceUpdateModel>,
}

impl DeepView for GuildCreate {
    type V = GuildCreateModel;

    open spec fn deep_view(&self) -> GuildCreateModel {
        GuildCreateModel {
            guild: self.guild.deep_view(),
            joined_at: self.joined_at.deep_view(),
            large: self.large.deep_view(),
            unavailable: self.unavailable.deep_view(),
            member_count: self.member_count.deep_view(),
            voice_states: self.voice_states.deep_view(),
            members: self.members.deep_view(),
            channels: self.channels.deep_view(),
            presences: self.presences.deep_view(),
        }
    }
}

impl Decode for GuildCreate {
    open spec fn parse(doc: Doc) -> Option<GuildCreateModel> {
        if {
            &&& Guild::parse(doc) is Some
            &&& required_parse::<Timestamp>(doc, "joined_at"@) is Some
            &&& required_parse::<bool>(doc, "large"@) is Some
            &&& required_parse::<bool>(doc, "unavailable"@) is Some
            &&& required_parse::<u16>(doc, "member_count"@) is Some
            &&& required_parse::<Vec<PartialVoiceState>>(doc, "voice_states"@) is Some
            &&& required_parse::<Vec<GuildMember>>(doc, "members"@) is Some
            &&& required_parse::<Vec<Channel>>(doc, "channels"@) is Some
            &&& required_parse::<Vec<PartialPresenceUpdate>>(doc, "presences"@) is Some
        } {
            Some(
                GuildCreateModel {
                    guild: Guild::parse(doc).unwrap(),
                    joined_at: required_parse::<Timestamp>(doc, "joined_at"@).unwrap(),
                    large: required_parse::<bool>(doc, "large"@).unwrap(),
                    unavailable: required_parse::<bool>(doc, "unavailable"@).unwrap(),
                    member_count: required_parse::<u16>(doc, "member_count"@).unwrap(),
                    voice_states: required_parse::<Vec<PartialVoiceState>>(
                        doc,
                        "voice_states"@,
                    ).unwrap(),
                    members: required_parse::<Vec<GuildMember>>(doc, "members"@).unwrap(),
                    channels: required_parse::<Vec<Channel>>(doc, "channels"@).unwrap(),
                    presences: required_parse::<Vec<PartialPresenceUpdate>>(
                        doc,
                        "presences"@,
                    ).unwrap(),
                },
            )
        } else {
            None
        }
    }

    open spec fn gaps(doc: Doc, at: Seq<char>, found: Seq<Seq<char>>) -> Seq<Seq<char>> {
        let found = Guild::gaps(doc, at, found);
        let found = required_gaps::<Timestamp>(doc, "joined_at"@, at, found);
        let found = required_gaps::<bool>(doc, "large"@, at, found);
        let found = required_gaps::<bool>(doc, "unavailable"@, at, found);
        let found = required_gaps::<u16>(doc, "member_count"@, at, found);
        let found = required_gaps::<Vec<PartialVoiceState>>(doc, "voice_states"@, at, found);
        let found = required_gaps::<Vec<GuildMember>>(doc, "members"@, at, found);
        let found = required_gaps::<Vec<Channel>>(doc, "channels"@, at, found);
        let found = required_gaps::<Vec<PartialPresenceUpdate>>(doc, "presences"@, at, found);
        found
    }

    open spec fn needs(doc: Doc, key: Seq<char>) -> bool {
        ||| Guild::needs(doc, key)
        ||| key == "joined_at"@
        ||| key == "large"@
        ||| key == "unavailable"@
        ||| key == "member_count"@
        ||| key == "voice_states"@
        ||| key == "members"@
        ||| key == "channels"@
        ||| key == "presences"@
    }

    proof fn gaps_law(doc: Doc, at: Seq<char>, found: Seq<Seq<char>>) {
        let start = found;
        settles_start(start);
        beside_step::<Guild>(doc, at, true, start, found);
        let fits = Guild::parse(doc) is Some;
        let found = Guild::gaps(doc, at, found);
        required_step::<Timestamp>(doc, "joined_at"@, at, fits, start, found);
        let fits = fits && required_parse::<Timestamp>(doc, "joined_at"@) is Some;
        let found = required_gaps::<Timestamp>(doc, "joined_at"@, at, found);
        required_step::<bool>(doc, "large"@, at, fits, start, found);
        let fits = fits && required_parse::<bool>(doc, "large"@) is Some;
        let found = required_gaps::<bool>(doc, "large"@, at, found);
        required_step::<bool>(doc, "unavailable"@, at, fits, start, found);
        let fits = fits && required_parse::<bool>(doc, "unavailable"@) is Some;
        let found = required_gaps::<bool>(doc, "unavailable"@, at, found);
        required_step::<u16>(doc, "member_count"@, at, fits, start, found);
        let fits = fits && required_parse::<u16>(doc, "member_count"@) is Some;
        let found = required_gaps::<u16>(doc, "member_count"@, at, found);
        required_step::<Vec<PartialVoiceState>>(doc, "voice_states"@, at, fits, start, found);
        let fits = fits && required_parse::<Vec<PartialVoiceState>>(doc, "voice_states"@) is Some;
        let found = required_gaps::<Vec<PartialVoiceState>>(doc, "voice_states"@, at, found);
        required_step::<Vec<GuildMember>>(doc, "members"@, at, fits, start, found);
        let fits = fits && required_parse::<Vec<GuildMember>>(doc, "members"@) is Some;
        let found = required_gaps::<Vec<GuildMember>>(doc, "members"@, at, found);
        required_step::<Vec<Channel>>(doc, "channels"@, at, fits, start, found);
        let fits = fits && required_parse::<Vec<Channel>>(doc, "channels"@) is Some;
        let found = required_gaps::<Vec<Channel>>(doc, "channels"@, at, found);
        required_step::<Vec<PartialPresenceUpdate>>(doc, "presences"@, at, fits, start, found);
    }

    proof fn absent_is_noted(doc: Doc, at: Seq<char>, found: Seq<Seq<char>>, key: Seq<char>) {
        let path = field_path(at, key);
        beside_keeps::<Guild>(doc, at, found, path, key);
        let found = Guild::gaps(doc, at, found);
        required_keeps::<Timestamp>(doc, "joined_at"@, at, found, path);
        let found = required_gaps::<Timestamp>(doc, "joined_at"@, at, found);
        required_keeps::<bool>(doc, "large"@, at, found, path);
        let found = required_gaps::<bool>(doc, "large"@, at, found);
        required_keeps::<bool>(doc, "unavailable"@, at, found, path);
        let found = required_gaps::<bool>(doc, "unavailable"@, at, found);
        required_keeps::<u16>(doc, "member_count"@, at, found, path);
        let found = required_gaps::<u16>(doc, "member_count"@, at, found);
        required_keeps::<Vec<PartialVoiceState>>(doc, "voice_states"@, at, found, path);
        let found = required_gaps::<Vec<PartialVoiceState>>(doc, "voice_states"@, at, found);
        required_keeps::<Vec<GuildMember>>(doc, "members"@, at, found, path);
        let found = required_gaps::<Vec<GuildMember>>(doc, "members"@, at, found);
        required_keeps::<Vec<Channel>>(doc, "channels"@, at, found, path);
        let found = required_gaps::<Vec<Channel>>(doc, "channels"@, at, found);
        required_keeps::<Vec<PartialPresenceUpdate>>(doc, "presences"@, at, found, path);
    }

    fn decode(raw: &Value, at: &str, gaps: &mut Vec<String>) -> (r: Option<Self>) {
        let guild = Guild::decode(raw, at, gaps);
        let joined_at = required::<Timestamp>(raw, "joined_at", at, gaps);
        let large = required::<bool>(raw, "large", at, gaps);
        let unavailable = required::<bool>(raw, "unavailable", at, gaps);
        let member_count = required::<u16>(raw, "member_count", at, gaps);
        let voice_states = required::<Vec<PartialVoiceState>>(raw, "voice_states", at, gaps);
        let members = required::<Vec<GuildMember>>(raw, "members", at, gaps);
        let channels = required::<Vec<Channel>>(raw, "channels", at, gaps);
        let presences = required::<Vec<PartialPresenceUpdate>>(raw, "presences", at, gaps);
        if guild.is_some()
            && joined_at.is_some()
            && large.is_some()
            && unavailable.is_some()
            && member_count.is_some()
            && voice_states.is_some()
            && members.is_some()
            && channels.is_some()
            && presences.is_some() {
            Some(
                GuildCreate {
                    guild: guild.unwrap(),
                    joined_at: joined_at.unwrap(),
                    large: large.unwrap(),
                    unavailable: unavailable.unwrap(),
                    member_count: member_count.unwrap(),
                    voice_states: voice_states.unwrap(),
                    members: members.unwrap(),
                    channels: channels.unwrap(),
                    presences: presences.unwrap(),
                },
            )
        } else {
            None
        }
    }
}

/// A voice state of a member of a guild.
#[derive(Clone, Debug, PartialEq, Eq)]
pub struct PartialVoiceState {
    /// The channel id this user is connected to.
    pub channel_id: Option<ChannelId>,
    /// The user id this voice state is for.
    pub user_id: UserId,
    /// The guild member this voice status is for.
    pub member: Option<GuildMember>,
    /// The session id for this voice state.
    pub session_id: String,
    /// Whether the user is deafened by the server.
    pub deaf: bool,
    /// Whether the user is muted by the server.
    pub mute: bool,
    /// Whether the user is locally deafened.
    pub self_deaf: bool,
    /// Whether the user is locally muted.
    pub self_mute: bool,
    /// Whether the user is streaming using "Go Live".
    pub self_stream: Option<bool>,
    /// Whether this user is muted by the current user.
    pub suppress: bool,
}

/// The model of a [`PartialVoiceState`]: the same fields, each by its model.
pub ghost struct PartialVoiceStateModel {
    pub channel_id: Option<Seq<char>>,
    pub user_id: Seq<char>,
    pub member: Option<GuildMemberModel>,
    pub session_id: Seq<char>,
    pub deaf: bool,
    pub mute: bool,
    pub self_deaf: bool,
    pub self_mute: bool,
    pub self_stream: Option<bool>,
    pub suppress: bool,
}

impl DeepView for PartialVoiceState {
    type V = PartialVoiceStateModel;

    open spec fn deep_view(&self) -> PartialVoiceStateModel {
        PartialVoiceStateModel {
            channel_id: self.channel_id.deep_view(),
            user_id: self.user_id.deep_view(),
            member: self.member.deep_view(),
            session_id: self.session_id.deep_view(),
            deaf: self.deaf.deep_view(),
            mute: self.mute.deep_view(),
            self_deaf: self.self_deaf.deep_view(),
            self_mute: self.self_mute.deep_view(),
            self_stream: self.self_stream.deep_view(),
            suppress: self.suppress.deep_view(),
        }
    }
}

impl Decode for PartialVoiceState {
    open spec fn parse(doc: Doc) -> Option<PartialVoiceStateModel> {
        if {
            &&& optional_parse::<ChannelId>(doc, "channel_id"@) is Some
            &&& required_parse::<UserId>(doc, "user_id"@) is Some
            &&& optional_parse::<GuildMember>(doc, "member"@) is Some
            &&& required_parse::<String>(doc, "session_id"@) is Some
            &&& required_parse::<bool>(doc, "deaf"@) is Some
            &&& required_parse::<bool>(doc, "mute"@) is Some
            &&& required_parse::<bool>(doc, "self_deaf"@) is Some
            &&& required_parse::<bool>(doc, "self_mute"@) is Some
            &&& optional_parse::<bool>(doc, "self_stream"@) is Some
            &&& required_parse::<bool>(doc, "suppress"@) is Some
        } {
            Some(
                PartialVoiceStateModel {
                    channel_id: optional_parse::<ChannelId>(doc, "channel_id"@).unwrap(),
                    user_id: required_parse::<UserId>(doc, "user_id"@).unwrap(),
                    member: optional_parse::<GuildMember>(doc, "member"@).unwrap(),
                    session_id: required_parse::<String>(doc, "session_id"@).unwrap(),
                    deaf: required_parse::<bool>(doc, "deaf"@).unwrap(),
                    mute: required_parse::<bool>(doc, "mute"@).unwrap(),
                    self_deaf: required_parse::<bool>(doc, "self_deaf"@).unwrap(),
                    self_mute: required_parse::<bool>(doc, "self_mute"@).unwrap(),
                    self_stream: optional_parse::<bool>(doc, "self_stream"@).unwrap(),
                    suppress: required_parse::<bool>(doc, "suppress"@).unwrap(),
                },
            )
        } else {
            None
        }
    }

    open spec fn gaps(doc: Doc, at: Seq<char>, found: Seq<Seq<char>>) -> Seq<Seq<char>> {
        let found = optional_gaps::<ChannelId>(doc, "channel_id"@, at, found);
        let found = required_gaps::<UserId>(doc, "user_id"@, at, found);
        let found = optional_gaps::<GuildMember>(doc, "member"@, at, found);
        let found = required_gaps::<String>(doc, "session_id"@, at, found);
        let found = required_gaps::<bool>(doc, "deaf"@, at, found);
        let found = required_gaps::<bool>(doc, "mute"@, at, found);
        let found = required_gaps::<bool>(doc, "self_deaf"@, at, found);
        let found = required_gaps::<bool>(doc, "self_mute"@, at, found);
        let found = optional_gaps::<bool>(doc, "self_stream"@, at, found);
        let found = required_gaps::<bool>(doc, "suppress"@, at, found);
        found
    }

    open spec fn needs(doc: Doc, key: Seq<char>) -> bool {
        ||| key == "user_id"@
        ||| key == "session_id"@
        ||| key == "deaf"@
        ||| key == "mute"@
        ||| key == "self_deaf"@
        ||| key == "self_mute"@
        ||| key == "suppress"@
    }

    proof fn gaps_law(doc: Doc, at: Seq<char>, found: Seq<Seq<char>>) {
        let start = found;
        settles_start(start);
        optional_step::<ChannelId>(doc, "channel_id"@, at, true, start, found);
        let fits = optional_parse::<ChannelId>(doc, "channel_id"@) is Some;
        let found = optional_gaps::<ChannelId>(doc, "channel_id"@, at, found);
        required_step::<UserId>(doc, "user_id"@, at, fits, start, found);
        let fits = fits && required_parse::<UserId>(doc, "user_id"@) is Some;
        let found = required_gaps::<UserId>(doc, "user_id"@, at, found);
        optional_step::<GuildMember>(doc, "member"@, at, fits, start, found);
        let fits = fits && optional_parse::<GuildMember>(doc, "member"@) is Some;
        let found = optional_gaps::<GuildMember>(doc, "member"@, at, found);
        required_step::<String>(doc, "session_id"@, at, fits, start, found);
        let fits = fits && required_parse::<String>(doc, "session_id"@) is Some;
        let found = required_gaps::<String>(doc, "session_id"@, at, found);
        required_step::<bool>(doc, "deaf"@, at, fits, start, found);
        let fits = fits && required_parse::<bool>(doc, "deaf"@) is Some;
        let found = required_gaps::<bool>(doc, "deaf"@, at, found);
        required_step::<bool>(doc, "mute"@, at, fits, start, found);
        let fits = fits && required_parse::<bool>(doc, "mute"@) is Some;
        let found = required_gaps::<bool>(doc, "mute"@, at, found);
        required_step::<bool>(doc, "self_deaf"@, at, fits, start, found);
        let fits = fits && required_parse::<bool>(doc, "self_deaf"@) is Some;
        let found = required_gaps::<bool>(doc, "self_deaf"@, at, found);
        required_step::<bool>(doc, "self_mute"@, at, fits, start, found);
        let fits = fits && required_parse::<bool>(doc, "self_mute"@) is Some;
        let found = required_gaps::<bool>(doc, "self_mute"@, at, found);
        optional_step::<bool>(doc, "self_stream"@, at, fits, start, found);
        let fits = fits && optional_parse::<bool>(doc, "self_stream"@) is Some;
        let found = optional_gaps::<bool>(doc, "self_stream"@, at, found);
        required_step::<bool>(doc, "suppress"@, at, fits, start, found);
    }

    proof fn absent_is_noted(doc: Doc, at: Seq<char>, found: Seq<Seq<char>>, key: Seq<char>) {
        let path = field_path(at, key);
        optional_keeps::<ChannelId>(doc, "channel_id"@, at, found, path);
        let found = optional_gaps::<ChannelId>(doc, "channel_id"@, at, found);
        required_keeps::<UserId>(doc, "user_id"@, at, found, path);
        let found = required_gaps::<UserId>(doc, "user_id"@, at, found);
        optional_keeps::<GuildMember>(doc, "member"@, at, found, path);
        let found = optional_gaps::<GuildMember>(doc, "member"@, at, found);
        required_keeps::<String>(doc, "session_id"@, at, found, path);
        let found = required_gaps::<String>(doc, "session_id"@, at, found);
        required_keeps::<bool>(doc, "deaf"@, at, found, path);
        let found = required_gaps::<bool>(doc, "deaf"@, at, found);
        required_keeps::<bool>(doc, "mute"@, at, found, path);
        let found = required_gaps::<bool>(doc, "mute"@, at, found);
        required_keeps::<bool>(doc, "self_deaf"@, at, found, path);
        let found = required_gaps::<bool>(doc, "self_deaf"@, at, found);
        required_keeps::<bool>(doc, "self_mute"@, at, found, path);
        let found = required_gaps::<bool>(doc, "self_mute"@, at, found);
        optional_keeps::<bool>(doc, "self_stream"@, at, found, path);
        let found = optional_gaps::<bool>(doc, "self_stream"@, at, found);
        required_keeps::<bool>(doc, "suppress"@, at, found, path);
    }

    fn decode(raw: &Value, at: &str, gaps: &mut Vec<String>) -> (r: Option<Self>) {
        let channel_id = optional::<ChannelId>(raw, "channel_id", at, gaps);
        let user_id = required::<UserId>(raw, "user_id", at, gaps);
        let member = optional::<GuildMember>(raw, "member", at, gaps);
        let session_id = required::<String>(raw, "session_id", at, gaps);
        let deaf = required::<bool>(raw, "deaf", at, gaps);
        let mute = required::<bool>(raw, "mute", at, gaps);
        let self_deaf = required::<bool>(raw, "self_deaf", at, gaps);
        let self_mute = required::<bool>(raw, "self_mute", at, gaps);
        let self_stream = optional::<bool>(raw, "self_stream", at, gaps);
        let suppress = required::<bool>(raw, "suppress", at, gaps);
        if channel_id.is_some()
            && user_id.is_some()
            && member.is_some()
            && session_id.is_some()
            && deaf.is_some()
            && mute.is_some()
            && self_deaf.is_some()
            && self_mute.is_some()
            && self_stream.is_some()
            && suppress.is_some() {
            Some(
                PartialVoiceState {
                    channel_id: channel_id.unwrap(),
                    user_id: user_id.unwrap(),
                    member: member.unwrap(),
                    session_id: session_id.unwrap(),
                    deaf: deaf.unwrap(),
                    mute: mute.unwrap(),
                    self_deaf: self_deaf.unwrap(),
                    self_mute: self_mute.unwrap(),
                    self_stream: self_stream.unwrap(),
                    suppress: suppress.unwrap(),
                },
            )
        } else {
            None
        }
    }
}

/// A user's presence is their current state on a guild.
#[derive(Clone, Debug, PartialEq, Eq)]
pub struct PartialPresenceUpdate {
    /// The user whose presence is being updated.
    pub user: PartialUser,
    /// Roles the user is in.
    pub roles: Vec<RoleId>,
    /// The user's current activity.
    pub game: Option<Activity>,
    /// The status of the user.
    pub status: Status,
    /// User's current activities.
    pub activities: Vec<Activity>,
    /// User's platform-dependant status.
    pub client_status: ClientStatus,
}

/// The model of a [`PartialPresenceUpdate`]: the same fields, each by its model.
pub ghost struct PartialPresenceUpdateModel {
    pub user: PartialUserModel,
    pub roles: Seq<Seq<char>>,
    pub game: Option<ActivityModel>,
    pub status: Status,
    pub activities: Seq<ActivityModel>,
    pub client_status: ClientStatusModel,
}

impl DeepView for PartialPresenceUpdate {
    type V = PartialPresenceUpdateModel;

    open spec fn deep_view(&self) -> PartialPresenceUpdateModel {
        PartialPresenceUpdateModel {
            user: self.user.deep_view(),
            roles: self.roles.deep_view(),
            game: self.game.deep_view(),
            status: self.status.deep_view(),
            activities: self.activities.deep_view(),
            client_status: self.client_status.deep_view(),
        }
    }
}

impl Decode for PartialPresenceUpdate {
    open spec fn parse(doc: Doc) -> Option<PartialPresenceUpdateModel> {
        if {
            &&& required_parse::<PartialUser>(doc, "user"@) is Some
            &&& required_parse::<Vec<RoleId>>(doc, "roles"@) is Some
            &&& optional_parse::<Activity>(doc, "game"@) is Some
            &&& required_parse::<Status>(doc, "status"@) is Some
            &&& required_parse::<Vec<Activity>>(doc, "activities"@) is Some
            &&& required_parse::<ClientStatus>(doc, "client_status"@) is Some
        } {
            Some(
                PartialPresenceUpdateModel {
                    user: required_parse::<PartialUser>(doc, "user"@).unwrap(),
                    roles: required_parse::<Vec<RoleId>>(doc, "roles"@).unwrap(),
                    game: optional_parse::<Activity>(doc, "game"@).unwrap(),
                    status: required_parse::<Status>(doc, "status"@).unwrap(),
                    activities: required_parse::<Vec<Activity>>(doc, "activities"@).unwrap(),
                    client_status: required_parse::<ClientStatus>(doc, "client_status"@).unwrap(),
                },
            )
        } else {
            None
        }
    }

    open spec fn gaps(doc: Doc, at: Seq<char>, found: Seq<Seq<char>>) -> Seq<Seq<char>> {
        let found = required_gaps::<PartialUser>(doc, "user"@, at, found);
        let found = required_gaps::<Vec<RoleId>>(doc, "roles"@, at, found);
        let found = optional_gaps::<Activity>(doc, "game"@, at, found);
        let found = required_gaps::<Status>(doc, "status"@, at, found);
        let found = required_gaps::<Vec<Activity>>(doc, "activities"@, at, found);
        let found = required_gaps::<ClientStatus>(doc, "client_status"@, at, found);
        found
    }

    open spec fn needs(doc: Doc, key: Seq<char>) -> bool {
        ||| key == "user"@
        ||| key == "roles"@
        ||| key == "status"@
        ||| key == "activities"@
        ||| key == "client_status"@
    }

    proof fn gaps_law(doc: Doc, at: Seq<char>, found: Seq<Seq<char>>) {
        let start = found;
        settles_start(start);
        required_step::<PartialUser>(doc, "user"@, at, true, start, found);
        let fits = required_parse::<PartialUser>(doc, "user"@) is Some;
        let found = required_gaps::<PartialUser>(doc, "user"@, at, found);
        required_step::<Vec<RoleId>>(doc, "roles"@, at, fits, start, found);
        let fits = fits && required_parse::<Vec<RoleId>>(doc, "roles"@) is Some;
        let found = required_gaps::<Vec<RoleId>>(doc, "roles"@, at, found);
        optional_step::<Activity>(doc, "game"@, at, fits, start, found);
        let fits = fits && optional_parse::<Activity>(doc, "game"@) is Some;
        let found = optional_gaps::<Activity>(doc, "game"@, at, found);
        required_step::<Status>(doc, "status"@, at, fits, start, found);
        let fits = fits && required_parse::<Status>(doc, "status"@) is Some;
        let found = required_gaps::<Status>(doc, "status"@, at, found);
        required_step::<Vec<Activity>>(doc, "activities"@, at, fits, start, found);
        let fits = fits && required_parse::<Vec<Activity>>(doc, "activities"@) is Some;
        let found = required_gaps::<Vec<Activity>>(doc, "activities"@, at, found);
        required_step::<ClientStatus>(doc, "client_status"@, at, fits, start, found);
    }

    proof fn absent_is_noted(doc: Doc, at: Seq<char>, found: Seq<Seq<char>>, key: Seq<char>) {
        let path = field_path(at, key);
        required_keeps::<PartialUser>(doc, "user"@, at, found, path);
        let found = required_gaps::<PartialUser>(doc, "user"@, at, found);
        required_keeps::<Vec<RoleId>>(doc, "roles"@, at, found, path);
        let found = required_gaps::<Vec<RoleId>>(doc, "roles"@, at, found);
        optional_keeps::<Activity>(doc, "game"@, at, found, path);
        let found = optional_gaps::<Activity>(doc, "game"@, at, found);
        required_keeps::<Status>(doc, "status"@, at, found, path);
        let found = required_gaps::<Status>(doc, "status"@, at, found);
        required_keeps::<Vec<Activity>>(doc, "activities"@, at, found, path);
        let found = required_gaps::<Vec<Activity>>(doc, "activities"@, at, found);
        required_keeps::<ClientStatus>(doc, "client_status"@, at, found, path);
    }

    fn decode(raw: &Value, at: &str, gaps: &mut Vec<String>) -> (r: Option<Self>) {
        let user = required::<PartialUser>(raw, "user", at, gaps);
        let roles = required::<Vec<RoleId>>(raw, "roles", at, gaps);
        let game = optional::<Activity>(raw, "game", at, gaps);
        let status = required::<Status>(raw, "status", at, gaps);
        let activities = required::<Vec<Activity>>(raw, "activities", at, gaps);
        let client_status = required::<ClientStatus>(raw, "client_status", at, gaps);
        if user.is_some()
            && roles.is_some()
            && game.is_some()
            && status.is_some()
            && activities.is_some()
            && client_status.is_some() {
            Some(
                PartialPresenceUpdate {
                    user: user.unwrap(),
                    roles: roles.unwrap(),
                    game: game.unwrap(),
                    status: status.unwrap(),
                    activities: activities.unwrap(),
                    client_status: client_status.unwrap(),
                },
            )
        } else {
            None
        }
    }
}

/// Like the user struct but only the id is guaranteed.
#[derive(Clone, Debug, PartialEq, Eq)]
pub struct PartialUser {
    /// The user's id.
    pub id: UserId,
    /// The user's username.
    ///
    /// This is not unique.
    pub username: Option<String>,
    /// The user's 4-digit discord tag.
    pub discriminator: Option<String>,
    /// The user's avatar hash.
    pub avatar: Option<String>,
    /// Whether the user belongs to an OAuth2 application.
    pub bot: Option<bool>,
    /// Whether the account has two factor authentication enabled on their account.
    pub mfa_enabled: Option<bool>,
    /// The user's chosen language option.
    pub locale: Option<String>,
    /// Whether the email on this account has been verified.
    pub verified: Option<bool>,
    /// The user's email.
    pub email: Option<String>,
    /// The flags on a user's account.
    pub flags: Option<u32>,
    /// The type of nitro subscription on a user's account.
    pub premium_type: Option<PremiumType>,
}

/// The model of a [`PartialUser`]: the same fields, each by its model.
pub ghost struct PartialUserModel {
    pub id: Seq<char>,
    pub username: Option<Seq<char>>,
    pub discriminator: Option<Seq<char>>,
    pub avatar: Option<Seq<char>>,
    pub bot: Option<bool>,
    pub mfa_enabled: Option<bool>,
    pub locale: Option<Seq<char>>,
    pub verified: Option<bool>,
    pub email: Option<Seq<char>>,
    pub flags: Option<u32>,
    pub premium_type: Option<PremiumType>,
}

impl DeepView for PartialUser {
    type V = PartialUserModel;

    open spec fn deep_view(&self) -> PartialUserModel {
        PartialUserModel {
            id: self.id.deep_view(),
            username: self.username.deep_view(),
            discriminator: self.discriminator.deep_view(),
            avatar: self.avatar.deep_view(),
            bot: self.bot.deep_view(),
            mfa_enabled: self.mfa_enabled.deep_view(),
            locale: self.locale.deep_view(),
            verified: self.verified.deep_view(),
            email: self.email.deep_view(),
            flags: self.flags.deep_view(),
            premium_type: self.premium_type.deep_view(),
        }
    }
}

impl Decode for PartialUser {
    open spec fn parse(doc: Doc) -> Option<PartialUserModel> {
        if {
            &&& required_parse::<UserId>(doc, "id"@) is Some
            &&& optional_parse::<String>(doc, "username"@) is Some
            &&& optional_parse::<String>(doc, "discriminator"@) is Some
            &&& optional_parse::<String>(doc, "avatar"@) is Some
            &&& optional_parse::<bool>(doc, "bot"@) is Some
            &&& optional_parse::<bool>(doc, "mfa_enabled"@) is Some
            &&& optional_parse::<String>(doc, "locale"@) is Some
            &&& optional_parse::<bool>(doc, "verified"@) is Some
            &&& optional_parse::<String>(doc, "email"@) is Some
            &&& optional_parse::<u32>(doc, "flags"@) is Some
            &&& optional_parse::<PremiumType>(doc, "premium_type"@) is Some
        } {
            Some(
                PartialUserModel {
                    id: required_parse::<UserId>(doc, "id"@).unwrap(),
                    username: optional_parse::<String>(doc, "username"@).unwrap(),
                    discriminator: optional_parse::<String>(doc, "discriminator"@).unwrap(),
                    avatar: optional_parse::<String>(doc, "avatar"@).unwrap(),
                    bot: optional_parse::<bool>(doc, "bot"@).unwrap(),
                    mfa_enabled: optional_parse::<bool>(doc, "mfa_enabled"@).unwrap(),
                    locale: optional_parse::<String>(doc, "locale"@).unwrap(),
                    verified: optional_parse::<bool>(doc, "verified"@).unwrap(),
                    email: optional_parse::<String>(doc, "email"@).unwrap(),
                    flags: optional_parse::<u32>(doc, "flags"@).unwrap(),
                    premium_type: optional_parse::<PremiumType>(doc, "premium_type"@).unwrap(),
                },
            )
        } else {
            None
        }
    }

    open spec fn gaps(doc: Doc, at: Seq<char>, found: Seq<Seq<char>>) -> Seq<Seq<char>> {
        let found = required_gaps::<UserId>(doc, "id"@, at, found);
        let found = optional_gaps::<String>(doc, "username"@, at, found);
        let found = optional_gaps::<String>(doc, "discriminator"@, at, found);
        let found = optional_gaps::<String>(doc, "avatar"@, at, found);
        let found = optional_gaps::<bool>(doc, "bot"@, at, found);
        let found = optional_gaps::<bool>(doc, "mfa_enabled"@, at, found);
        let found = optional_gaps::<String>(doc, "locale"@, at, found);
        let found = optional_gaps::<bool>(doc, "verified"@, at, found);
        let found = optional_gaps::<String>(doc, "email"@, at, found);
        let found = optional_gaps::<u32>(doc, "flags"@, at, found);
        let found = optional_gaps::<PremiumType>(doc, "premium_type"@, at, found);
        found
    }

    open spec fn needs(doc: Doc, key: Seq<char>) -> bool {
        key == "id"@
    }

    proof fn gaps_law(doc: Doc, at: Seq<char>, found: Seq<Seq<char>>) {
        let start = found;
        settles_start(start);
        required_step::<UserId>(doc, "id"@, at, true, start, found);
        let fits = required_parse::<UserId>(doc, "id"@) is Some;
        let found = required_gaps::<UserId>(doc, "id"@, at, found);
        optional_step::<String>(doc, "username"@, at, fits, start, found);
        let fits = fits && optional_parse::<String>(doc, "username"@) is Some;
        let found = optional_gaps::<String>(doc, "username"@, at, found);
        optional_step::<String>(doc, "discriminator"@, at, fits, start, found);
        let fits = fits && optional_parse::<String>(doc, "discriminator"@) is Some;
        let found = optional_gaps::<String>(doc, "discriminator"@, at, found);
        optional_step::<String>(doc, "avatar"@, at, fits, start, found);
        let fits = fits && optional_parse::<String>(doc, "avatar"@) is Some;
        let found = optional_gaps::<String>(doc, "avatar"@, at, found);
        optional_step::<bool>(doc, "bot"@, at, fits, start, found);
        let fits = fits && optional_parse::<bool>(doc, "bot"@) is Some;
        let found = optional_gaps::<bool>(doc, "bot"@, at, found);
        optional_step::<bool>(doc, "mfa_enabled"@, at, fits, start, found);
        let fits = fits && optional_parse::<bool>(doc, "mfa_enabled"@) is Some;
        let found = optional_gaps::<bool>(doc, "mfa_enabled"@, at, found);
        optional_step::<String>(doc, "locale"@, at, fits, start, found);
        let fits = fits && optional_parse::<String>(doc, "locale"@) is Some;
        let found = optional_gaps::<String>(doc, "locale"@, at, found);
        optional_step::<bool>(doc, "verified"@, at, fits, start, found);
        let fits = fits && optional_parse::<bool>(doc, "verified"@) is Some;
        let found = optional_gaps::<bool>(doc, "verified"@, at, found);
        optional_step::<String>(doc, "email"@, at, fits, start, found);
        let fits = fits && optional_parse::<String>(doc, "email"@) is Some;
        let found = optional_gaps::<String>(doc, "email"@, at, found);
        optional_step::<u32>(doc, "flags"@, at, fits, start, found);
        let fits = fits && optional_parse::<u32>(doc, "flags"@) is Some;
        let found = optional_gaps::<u32>(doc, "flags"@, at, found);
        optional_step::<PremiumType>(doc, "premium_type"@, at, fits, start, found);
    }

    proof fn absent_is_noted(doc: Doc, at: Seq<char>, found: Seq<Seq<char>>, key: Seq<char>) {
        let path = field_path(at, key);
        required_keeps::<UserId>(doc, "id"@, at, found, path);
        let found = required_gaps::<UserId>(doc, "id"@, at, found);
        optional_keeps::<String>(doc, "username"@, at, found, path);
        let found = optional_gaps::<String>(doc, "username"@, at, found);
        optional_keeps::<String>(doc, "discriminator"@, at, found, path);
        let found = optional_gaps::<String>(doc, "discriminator"@, at, found);
        optional_keeps::<String>(doc, "avatar"@, at, found, path);
        let found = optional_gaps::<String>(doc, "avatar"@, at, found);
        optional_keeps::<bool>(doc, "bot"@, at, found, path);
        let found = optional_gaps::<bool>(doc, "bot"@, at, found);
        optional_keeps::<bool>(doc, "mfa_enabled"@, at, found, path);
        let found = optional_gaps::<bool>(doc, "mfa_enabled"@, at, found);
        optional_keeps::<String>(doc, "locale"@, at, found, path);
        let found = optional_gaps::<String>(doc, "locale"@, at, found);
        optional_keeps::<bool>(doc, "verified"@, at, found, path);
        let found = optional_gaps::<bool>(doc, "verified"@, at, found);
        optional_keeps::<String>(doc, "email"@, at, found, path);
        let found = optional_gaps::<String>(doc, "email"@, at, found);
        optional_keeps::<u32>(doc, "flags"@, at, found, path);
        let found = optional_gaps::<u32>(doc, "flags"@, at, found);
        optional_keeps::<PremiumType>(doc, "premium_type"@, at, found, path);
    }

    fn decode(raw: &Value, at: &str, gaps: &mut Vec<String>) -> (r: Option<Self>) {
        let id = required::<UserId>(raw, "id", at, gaps);
        let username = optional::<String>(raw, "username", at, gaps);
        let discriminator = optional::<String>(raw, "discriminator", at, gaps);
        let avatar = optional::<String>(raw, "avatar", at, gaps);
        let bot = optional::<bool>(raw, "bot", at, gaps);
        let mfa_enabled = optional::<bool>(raw, "mfa_enabled", at, gaps);
        let locale = optional::<String>(raw, "locale", at, gaps);
        let verified = optional::<bool>(raw, "verified", at, gaps);
        let email = optional::<String>(raw, "email", at, gaps);
        let flags = optional::<u32>(raw, "flags", at, gaps);
        let premium_type = optional::<PremiumType>(raw, "premium_type", at, gaps);
        if id.is_some()
            && username.is_some()
            && discriminator.is_some()
            && avatar.is_some()
            && bot.is_some()
            && mfa_enabled.is_some()
            && locale.is_some()
            && verified.is_some()
            && email.is_some()
            && flags.is_some()
            && premium_type.is_some() {
            Some(
                PartialUser {
                    id: id.unwrap(),
                    username: username.unwrap(),
                    discriminator: discriminator.unwrap(),
                    avatar: avatar.unwrap(),
                    bot: bot.unwrap(),
                    mfa_enabled: mfa_enabled.unwrap(),
                    locale: locale.unwrap(),
                    verified: verified.unwrap(),
                    email: email.unwrap(),
                    flags: flags.unwrap(),
                    premium_type: premium_type.unwrap(),
                },
            )
        } else {
            None
        }
    }
}

/// A user's status on each kind of client they are active on.
#[derive(Clone, Debug, PartialEq, Eq)]
pub struct ClientStatus {
    /// The user's status set for an active desktop (Windows, Linux, Mac) application session.
    pub desktop: Option<ClientSessionStatus>,
    /// The user's status set for an active mobile (iOS, Android) application session.
    pub mobile: Option<ClientSessionStatus>,
    /// The user's status set for an active web (browser, bot account) application session.
    pub web: Option<ClientSessionStatus>,
}

/// The model of a [`ClientStatus`]: the same fields, each by its model.
pub ghost struct ClientStatusModel {
    pub desktop: Option<ClientSessionStatus>,
    pub mobile: Option<ClientSessionStatus>,
    pub web: Option<ClientSessionStatus>,
}

impl DeepView for ClientStatus {
    type V = ClientStatusModel;

    open spec fn deep_view(&self) -> ClientStatusModel {
        ClientStatusModel {
            desktop: self.desktop.deep_view(),
            mobile: self.mobile.deep_view(),
            web: self.web.deep_view(),
        }
    }
}

impl Decode for ClientStatus {
    open spec fn parse(doc: Doc) -> Option<ClientStatusModel> {
        if {
            &&& optional_parse::<ClientSessionStatus>(doc, "desktop"@) is Some
            &&& optional_parse::<ClientSessionStatus>(doc, "mobile"@) is Some
            &&& optional_parse::<ClientSessionStatus>(doc, "web"@) is Some
        } {
            Some(
                ClientStatusModel {
                    desktop: optional_parse::<ClientSessionStatus>(doc, "desktop"@).unwrap(),
                    mobile: optional_parse::<ClientSessionStatus>(doc, "mobile"@).unwrap(),
                    web: optional_parse::<ClientSessionStatus>(doc, "web"@).unwrap(),
                },
            )
        } else {
            None
        }
    }

    open spec fn gaps(doc: Doc, at: Seq<char>, found: Seq<Seq<char>>) -> Seq<Seq<char>> {
        let found = optional_gaps::<ClientSessionStatus>(doc, "desktop"@, at, found);
        let found = optional_gaps::<ClientSessionStatus>(doc, "mobile"@, at, found);
        let found = optional_gaps::<ClientSessionStatus>(doc, "web"@, at, found);
        found
    }

    open spec fn needs(doc: Doc, key: Seq<char>) -> bool {
        false
    }

    proof fn gaps_law(doc: Doc, at: Seq<char>, found: Seq<Seq<char>>) {
        let start = found;
        settles_start(start);
        optional_step::<ClientSessionStatus>(doc, "desktop"@, at, true, start, found);
        let fits = optional_parse::<ClientSessionStatus>(doc, "desktop"@) is Some;
        let found = optional_gaps::<ClientSessionStatus>(doc, "desktop"@, at, found);
        optional_step::<ClientSessionStatus>(doc, "mobile"@, at, fits, start, found);
        let fits = fits && optional_parse::<ClientSessionStatus>(doc, "mobile"@) is Some;
        let found = optional_gaps::<ClientSessionStatus>(doc, "mobile"@, at, found);
        optional_step::<ClientSessionStatus>(doc, "web"@, at, fits, start, found);
    }

    proof fn absent_is_noted(doc: Doc, at: Seq<char>, found: Seq<Seq<char>>, key: Seq<char>) {
    }

    fn decode(raw: &Value, at: &str, gaps: &mut Vec<String>) -> (r: Option<Self>) {
        let desktop = optional::<ClientSessionStatus>(raw, "desktop", at, gaps);
        let mobile = optional::<ClientSessionStatus>(raw, "mobile", at, gaps);
        let web = optional::<ClientSessionStatus>(raw, "web", at, gaps);
        if desktop.is_some()
            && mobile.is_some()
            && web.is_some() {
            Some(
                ClientStatus {
                    desktop: desktop.unwrap(),
                    mobile: mobile.unwrap(),
                    web: web.unwrap(),
                },
            )
        } else {
            None
        }
    }
}

/// The status of one client session.
#[derive(Clone, Copy, Debug, PartialEq, Eq)]
pub enum ClientSessionStatus {
    /// Online.
    Online,
    /// AFK.
    Idle,
    /// Do Not Disturb.
    Dnd,
}

impl ClientSessionStatus {
    /// The variant that the wire name `name` stands for, if it stands for one.
    /// Names are matched exactly.
    pub open spec fn of_name(name: Seq<char>) -> Option<ClientSessionStatus> {
        if name == "online"@ {
            Some(ClientSessionStatus::Online)
        } else if name == "idle"@ {
            Some(ClientSessionStatus::Idle)
        } else if name == "dnd"@ {
            Some(ClientSessionStatus::Dnd)
        } else {
            None
        }
    }

    /// The wire name of this variant.
    pub open spec fn spec_name(self) -> Seq<char> {
        match self {
            ClientSessionStatus::Online => "online"@,
            ClientSessionStatus::Idle => "idle"@,
            ClientSessionStatus::Dnd => "dnd"@,
        }
    }

    /// Finds the variant that the wire name `name` stands for.
    pub fn from_name(name: &str) -> (r: Option<ClientSessionStatus>)
        ensures
            r == Self::of_name(name@),
    {
        if same_text(name, "online") {
            Some(ClientSessionStatus::Online)
        } else if same_text(name, "idle") {
            Some(ClientSessionStatus::Idle)
        } else if same_text(name, "dnd") {
            Some(ClientSessionStatus::Dnd)
        } else {
            None
        }
    }

    /// The wire name of this variant.
    pub fn name(self) -> (r: &'static str)
        ensures
            r@ == self.spec_name(),
    {
        match self {
            ClientSessionStatus::Online => "online",
            ClientSessionStatus::Idle => "idle",
            ClientSessionStatus::Dnd => "dnd",
        }
    }
}

impl DeepView for ClientSessionStatus {
    type V = ClientSessionStatus;

    open spec fn deep_view(&self) -> ClientSessionStatus {
        *self
    }
}

impl Decode for ClientSessionStatus {
    open spec fn parse(doc: Doc) -> Option<ClientSessionStatus> {
        match doc {
            Doc::Text(name) => Self::of_name(name),
            _ => None,
        }
    }

    open spec fn gaps(doc: Doc, at: Seq<char>, found: Seq<Seq<char>>) -> Seq<Seq<char>> {
        note(Self::parse(doc) is Some, at, found)
    }

    open spec fn needs(doc: Doc, key: Seq<char>) -> bool {
        false
    }

    proof fn gaps_law(doc: Doc, at: Seq<char>, found: Seq<Seq<char>>) {
        note_settles(Self::parse(doc) is Some, at, found);
    }

    proof fn absent_is_noted(doc: Doc, at: Seq<char>, found: Seq<Seq<char>>, key: Seq<char>) {
    }

    fn decode(value: &Value, at: &str, gaps: &mut Vec<String>) -> (r: Option<Self>) {
        let found = match value.as_str() {
            Some(name) => Self::from_name(name),
            None => None,
        };
        if found.is_none() {
            mark(gaps, at.to_owned());
        }
        found
    }
}

} // verus!
