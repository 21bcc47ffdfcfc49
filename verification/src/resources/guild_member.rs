use crate::decode::{
    optional, optional_gaps, optional_keeps, optional_parse, optional_step, required, required_gaps,
    required_keeps, required_parse, required_step, settles_start, Decode,
};
use crate::document::Doc;
use crate::path::field_path;
use crate::resources::role::RoleId;
use crate::resources::user::{User, UserModel};
use crate::time::Timestamp;
use serde_json::Value;
use vstd::prelude::*;

verus! {

/// A member of a guild.
#[derive(Clone, Debug, PartialEq, Eq)]
pub struct GuildMember {
    /// The user this guild member represents.
    pub user: User,
    /// This user's guild nickname (if one is set).
    pub nick: Option<String>,
    /// Roles this user possesses in this guild.
    pub roles: Vec<RoleId>,
    /// When the user joined the guild.
    pub joined_at: Timestamp,
    /// When the user used their Nitro boost on this server.
    pub premium_since: Option<Timestamp>,
    /// Whether the user is deafened in voice channels.
    pub deaf: bool,
    /// Whether the user is muted in voice channels.
    pub mute: bool,
}

/// The model of a [`GuildMember`]: the same fields, each by its model.
pub ghost struct GuildMemberModel {
    pub user: UserModel,
    pub nick: Option<Seq<char>>,
    pub roles: Seq<Seq<char>>,
    pub joined_at: Timestamp,
    pub premium_since: Option<Timestamp>,
    pub deaf: bool,
    pub mute: bool,
}

impl DeepView for GuildMember {
    type V = GuildMemberModel;

    open spec fn deep_view(&self) -> GuildMemberModel {
        GuildMemberModel {
            user: self.user.deep_view(),
            nick: self.nick.deep_view(),
            roles: self.roles.deep_view(),
            joined_at: self.joined_at.deep_view(),
            premium_since: self.premium_since.deep_view(),
            deaf: self.deaf.deep_view(),
            mute: self.mute.deep_view(),
        }
    }
}

impl Decode for GuildMember {
    open spec fn parse(doc: Doc) -> Option<GuildMemberModel> {
        if {
            &&& required_parse::<User>(doc, "user"@) is Some
            &&& optional_parse::<String>(doc, "nick"@) is Some
            &&& required_parse::<Vec<RoleId>>(doc, "roles"@) is Some
            &&& required_parse::<Timestamp>(doc, "joined_at"@) is Some
            &&& optional_parse::<Timestamp>(doc, "premium_since"@) is Some
            &&& required_parse::<bool>(doc, "deaf"@) is Some
            &&& required_parse::<bool>(doc, "mute"@) is Some
        } {
            Some(
                GuildMemberModel {
                    user: required_parse::<User>(doc, "user"@).unwrap(),
                    nick: optional_parse::<String>(doc, "nick"@).unwrap(),
                    roles: required_parse::<Vec<RoleId>>(doc, "roles"@).unwrap(),
                    joined_at: required_parse::<Timestamp>(doc, "joined_at"@).unwrap(),
                    premium_since: optional_parse::<Timestamp>(doc, "premium_since"@).unwrap(),
                    deaf: required_parse::<bool>(doc, "deaf"@).unwrap(),
                    mute: required_parse::<bool>(doc, "mute"@).unwrap(),
                },
            )
        } else {
            None
        }
    }

    open spec fn gaps(doc: Doc, at: Seq<char>, found: Seq<Seq<char>>) -> Seq<Seq<char>> {
        let found = required_gaps::<User>(doc, "user"@, at, found);
        let found = optional_gaps::<String>(doc, "nick"@, at, found);
        let found = required_gaps::<Vec<RoleId>>(doc, "roles"@, at, found);
        let found = required_gaps::<Timestamp>(doc, "joined_at"@, at, found);
        let found = optional_gaps::<Timestamp>(doc, "premium_since"@, at, found);
        let found = required_gaps::<bool>(doc, "deaf"@, at, found);
        let found = required_gaps::<bool>(doc, "mute"@, at, found);
        found
    }

    open spec fn needs(doc: Doc, key: Seq<char>) -> bool {
        ||| key == "user"@
        ||| key == "roles"@
        ||| key == "joined_at"@
        ||| key == "deaf"@
        ||| key == "mute"@
    }

    proof fn gaps_law(doc: Doc, at: Seq<char>, found: Seq<Seq<char>>) {
        let start = found;
        settles_start(start);
        required_step::<User>(doc, "user"@, at, true, start, found);
        let fits = required_parse::<User>(doc, "user"@) is Some;
        let found = required_gaps::<User>(doc, "user"@, at, found);
        optional_step::<String>(doc, "nick"@, at, fits, start, found);
        let fits = fits && optional_parse::<String>(doc, "nick"@) is Some;
        let found = optional_gaps::<String>(doc, "nick"@, at, found);
        required_step::<Vec<RoleId>>(doc, "roles"@, at, fits, start, found);
        let fits = fits && required_parse::<Vec<RoleId>>(doc, "roles"@) is Some;
        let found = required_gaps::<Vec<RoleId>>(doc, "roles"@, at, found);
        required_step::<Timestamp>(doc, "joined_at"@, at, fits, start, found);
        let fits = fits && required_parse::<Timestamp>(doc, "joined_at"@) is Some;
        let found = required_gaps::<Timestamp>(doc, "joined_at"@, at, found);
        optional_step::<Timestamp>(doc, "premium_since"@, at, fits, start, found);
        let fits = fits && optional_parse::<Timestamp>(doc, "premium_since"@) is Some;
        let found = optional_gaps::<Timestamp>(doc, "premium_since"@, at, found);
        required_step::<bool>(doc, "deaf"@, at, fits, start, found);
        let fits = fits && required_parse::<bool>(doc, "deaf"@) is Some;
        let found = required_gaps::<bool>(doc, "deaf"@, at, found);
        required_step::<bool>(doc, "mute"@, at, fits, start, found);
    }

    proof fn absent_is_noted(doc: Doc, at: Seq<char>, found: Seq<Seq<char>>, key: Seq<char>) {
        let path = field_path(at, key);
        required_keeps::<User>(doc, "user"@, at, found, path);
        let found = required_gaps::<User>(doc, "user"@, at, found);
        optional_keeps::<String>(doc, "nick"@, at, found, path);
        let found = optional_gaps::<String>(doc, "nick"@, at, found);
        required_keeps::<Vec<RoleId>>(doc, "roles"@, at, found, path);
        let found = required_gaps::<Vec<RoleId>>(doc, "roles"@, at, found);
        required_keeps::<Timestamp>(doc, "joined_at"@, at, found, path);
        let found = required_gaps::<Timestamp>(doc, "joined_at"@, at, found);
        optional_keeps::<Timestamp>(doc, "premium_since"@, at, found, path);
        let found = optional_gaps::<Timestamp>(doc, "premium_since"@, at, found);
        required_keeps::<bool>(doc, "deaf"@, at, found, path);
        let found = required_gaps::<bool>(doc, "deaf"@, at, found);
        required_keeps::<bool>(doc, "mute"@, at, found, path);
    }

    fn decode(raw: &Value, at: &str, gaps: &mut Vec<String>) -> (r: Option<Self>) {
        let user = required::<User>(raw, "user", at, gaps);
        let nick = optional::<String>(raw, "nick", at, gaps);
        let roles = required::<Vec<RoleId>>(raw, "roles", at, gaps);
        let joined_at = required::<Timestamp>(raw, "joined_at", at, gaps);
        let premium_since = optional::<Timestamp>(raw, "premium_since", at, gaps);
        let deaf = required::<bool>(raw, "deaf", at, gaps);
        let mute = required::<bool>(raw, "mute", at, gaps);
        if user.is_some()
            && nick.is_some()
            && roles.is_some()
            && joined_at.is_some()
            && premium_since.is_some()
            && deaf.is_some()
            && mute.is_some() {
            Some(
                GuildMember {
                    user: user.unwrap(),
                    nick: nick.unwrap(),
                    roles: roles.unwrap(),
                    joined_at: joined_at.unwrap(),
                    premium_since: premium_since.unwrap(),
                    deaf: deaf.unwrap(),
                    mute: mute.unwrap(),
                },
            )
        } else {
            None
        }
    }
}

} // verus!
