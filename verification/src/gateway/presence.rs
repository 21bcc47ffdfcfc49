use crate::decode::{
    optional, optional_gaps, optional_keeps, optional_parse, optional_step, required, required_gaps,
    required_keeps, required_parse, required_step, settles_start, Decode,
};
use crate::document::Doc;
use crate::gateway::dispatch::guild_create::{
    ClientStatus, ClientStatusModel, PartialUser, PartialUserModel,
};
use crate::gateway::status_update::{Activity, ActivityModel, Status};
use crate::path::field_path;
use crate::resources::guild::GuildId;
use crate::resources::role::RoleId;
use serde_json::Value;
use vstd::prelude::*;

verus! {

/// A user's presence is their current state on a guild.
#[derive(Clone, Debug, PartialEq, Eq)]
pub struct Presence {
    /// The id of the guild.
    pub guild_id: GuildId,
    /// The user whose presence is being updated.
    pub user: PartialUser,
    /// Roles the user is in.
    pub roles: Vec<RoleId>,
    /// The user's current activity.
    pub game: Option<Activity>,
    /// The status of the user.
    pub status: Status,
    /// User's current activities.
    pub activities: Vec<Activity>,
    /// User's platform-dependant status.
    pub client_status: ClientStatus,
}

/// The model of a [`Presence`]: the same fields, each by its model.
pub ghost struct PresenceModel {
    pub guild_id: Seq<char>,
    pub user: PartialUserModel,
    pub roles: Seq<Seq<char>>,
    pub game: Option<ActivityModel>,
    pub status: Status,
    pub activities: Seq<ActivityModel>,
    pub client_status: ClientStatusModel,
}

impl DeepView for Presence {
    type V = PresenceModel;

    open spec fn deep_view(&self) -> PresenceModel {
        PresenceModel {
            guild_id: self.guild_id.deep_view(),
            user: self.user.deep_view(),
            roles: self.roles.deep_view(),
            game: self.game.deep_view(),
            status: self.status.deep_view(),
            activities: self.activities.deep_view(),
            client_status: self.client_status.deep_view(),
        }
    }
}

impl Decode for Presence {
    open spec fn parse(doc: Doc) -> Option<PresenceModel> {
        if {
            &&& required_parse::<GuildId>(doc, "guild_id"@) is Some
            &&& required_parse::<PartialUser>(doc, "user"@) is Some
            &&& required_parse::<Vec<RoleId>>(doc, "roles"@) is Some
            &&& optional_parse::<Activity>(doc, "game"@) is Some
            &&& required_parse::<Status>(doc, "status"@) is Some
            &&& required_parse::<Vec<Activity>>(doc, "activities"@) is Some
            &&& required_parse::<ClientStatus>(doc, "client_status"@) is Some
        } {
            Some(
                PresenceModel {
                    guild_id: required_parse::<GuildId>(doc, "guild_id"@).unwrap(),
                    user: required_parse::<PartialUser>(doc, "user"@).unwrap(),
                    roles: required_parse::<Vec<RoleId>>(doc, "roles"@).unwrap(),
                    game: optional_parse::<Activity>(doc, "game"@).unwrap(),
                    status: required_parse::<Status>(doc, "status"@).unwrap(),
                    activities: required_parse::<Vec<Activity>>(doc, "activities"@).unwrap(),
                    client_status: required_parse::<ClientStatus>(doc, "client_status"@).unwrap(),
                },
            )
        } else {
            None
        }
    }

    open spec fn gaps(doc: Doc, at: Seq<char>, found: Seq<Seq<char>>) -> Seq<Seq<char>> {
        let found = required_gaps::<GuildId>(doc, "guild_id"@, at, found);
        let found = required_gaps::<PartialUser>(doc, "user"@, at, found);
        let found = required_gaps::<Vec<RoleId>>(doc, "roles"@, at, found);
        let found = optional_gaps::<Activity>(doc, "game"@, at, found);
        let found = required_gaps::<Status>(doc, "status"@, at, found);
        let found = required_gaps::<Vec<Activity>>(doc, "activities"@, at, found);
        let found = required_gaps::<ClientStatus>(doc, "client_status"@, at, found);
        found
    }

    open spec fn needs(doc: Doc, key: Seq<char>) -> bool {
        ||| key == "guild_id"@
        ||| key == "user"@
        ||| key == "roles"@
        ||| key == "status"@
        ||| key == "activities"@
        ||| key == "client_status"@
    }

    proof fn gaps_law(doc: Doc, at: Seq<char>, found: Seq<Seq<char>>) {
        let start = found;
        settles_start(start);
        required_step::<GuildId>(doc, "guild_id"@, at, true, start, found);
        let fits = required_parse::<GuildId>(doc, "guild_id"@) is Some;
        let found = required_gaps::<GuildId>(doc, "guild_id"@, at, found);
        required_step::<PartialUser>(doc, "user"@, at, fits, start, found);
        let fits = fits && required_parse::<PartialUser>(doc, "user"@) is Some;
        let found = required_gaps::<PartialUser>(doc, "user"@, at, found);
        required_step::<Vec<RoleId>>(doc, "roles"@, at, fits, start, found);
        let fits = fits && required_parse::<Vec<RoleId>>(doc, "roles"@) is Some;
        let found = required_gaps::<Vec<RoleId>>(doc, "roles"@, at, found);
        optional_step::<Activity>(doc, "game"@, at, fits, start, found);
        let fits = fits && optional_parse::<Activity>(doc, "game"@) is Some;
        let found = optional_gaps::<Activity>(doc, "game"@, at, found);
        required_step::<Status>(doc, "status"@, at, fits, start, found);
        let fits = fits && required_parse::<Status>(doc, "status"@) is Some;
        let found = required_gaps::<Status>(doc, "status"@, at, found);
        required_step::<Vec<Activity>>(doc, "activities"@, at, fits, start, found);
        let fits = fits && required_parse::<Vec<Activity>>(doc, "activities"@) is Some;
        let found = required_gaps::<Vec<Activity>>(doc, "activities"@, at, found);
        required_step::<ClientStatus>(doc, "client_status"@, at, fits, start, found);
    }

    proof fn absent_is_noted(doc: Doc, at: Seq<char>, found: Seq<Seq<char>>, key: Seq<char>) {
        let path = field_path(at, key);
        required_keeps::<GuildId>(doc, "guild_id"@, at, found, path);
        let found = required_gaps::<GuildId>(doc, "guild_id"@, at, found);
        required_keeps::<PartialUser>(doc, "user"@, at, found, path);
        let found = required_gaps::<PartialUser>(doc, "user"@, at, found);
        required_keeps::<Vec<RoleId>>(doc, "roles"@, at, found, path);
        let found = required_gaps::<Vec<RoleId>>(doc, "roles"@, at, found);
        optional_keeps::<Activity>(doc, "game"@, at, found, path);
        let found = optional_gaps::<Activity>(doc, "game"@, at, found);
        required_keeps::<Status>(doc, "status"@, at, found, path);
        let found = required_gaps::<Status>(doc, "status"@, at, found);
        required_keeps::<Vec<Activity>>(doc, "activities"@, at, found, path);
        let found = required_gaps::<Vec<Activity>>(doc, "activities"@, at, found);
        required_keeps::<ClientStatus>(doc, "client_status"@, at, found, path);
    }

    fn decode(raw: &Value, at: &str, gaps: &mut Vec<String>) -> (r: Option<Self>) {
        let guild_id = required::<GuildId>(raw, "guild_id", at, gaps);
        let user = required::<PartialUser>(raw, "user", at, gaps);
        let roles = required::<Vec<RoleId>>(raw, "roles", at, gaps);
        let game = optional::<Activity>(raw, "game", at, gaps);
        let status = required::<Status>(raw, "status", at, gaps);
        let activities = required::<Vec<Activity>>(raw, "activities", at, gaps);
        let client_status = required::<ClientStatus>(raw, "client_status", at, gaps);
        if guild_id.is_some()
            && user.is_some()
            && roles.is_some()
            && game.is_some()
            && status.is_some()
            && activities.is_some()
            && client_status.is_some() {
            Some(
                Presence {
                    guild_id: guild_id.unwrap(),
                    user: user.unwrap(),
                    roles: roles.unwrap(),
                    game: game.unwrap(),
                    status: status.unwrap(),
                    activities: activities.unwrap(),
                    client_status: client_status.unwrap(),
                },
            )
        } else {
            None
        }
    }
}

} // verus!
