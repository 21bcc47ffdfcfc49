use crate::document::{record_value, Doc};
use crate::encode::Encode;
use crate::error::{DecodeError, DecodeErrorModel};
use serde_json::Value;
use vstd::prelude::*;

verus! {

/// Used to request all members for a guild or list of guilds.
///
/// When initially connecting, the gateway will only send offline members if a guild has less than
/// the
/// `large_threshold` members. If a client wishes to receive additional members, they need to
/// explicitly
/// request them via this operation. The server will send Guild Member Chunk events in response
/// with up to 1000 members per chunk until all members that match the request have been sent.
///
/// Either the `query` or the `user_ids` field needs to be `Some`.
/// If you wish to get all members, just make the `query` `Some(String::new())`.
#[derive(Clone, Debug, PartialEq, Eq)]
pub struct RequestGuildMembers {
    /// Id of the guild(s) to get members for.
    pub guild_id: Vec<String>,
    /// String that the username starts with, or an empty string to return all members.
    pub query: Option<String>,
    /// maximum number of members to send matching the `query`; a limit of `0` can be used with an
    /// empty string
    /// to return all members.
    pub limit: u32,
    /// Used to specify if we want the presences of the matched members
    pub presences: bool,
    /// Used to specify which users you wish to fetch.
    pub user_ids: Option<Vec<String>>,
}

impl Encode for RequestGuildMembers {
    open spec fn doc(&self) -> Doc {
        Doc::Record(
            Map::empty()
                .insert("guild_id"@, self.guild_id.doc())
                .insert("query"@, self.query.doc())
                .insert("limit"@, self.limit.doc())
                .insert("presences"@, self.presences.doc())
                .insert("user_ids"@, self.user_ids.doc()),
        )
    }

    fn encode(&self) -> (r: Value) {
        let mut entries = serde_json::Map::new();
        entries.insert("guild_id".to_owned(), self.guild_id.encode());
        entries.insert("query".to_owned(), self.query.encode());
        entries.insert("limit".to_owned(), self.limit.encode());
        entries.insert("presences".to_owned(), self.presences.encode());
        entries.insert("user_ids".to_owned(), self.user_ids.encode());
        record_value(entries)
    }
}

impl Default for RequestGuildMembers {
    fn default() -> (r: Self)
        ensures
            r.guild_id@.len() == 0,
            r.query matches Some(query) && query@ == Seq::<char>::empty(),
            r.limit == 0,
            !r.presences,
            r.user_ids is None,
            r.is_valid(),
    {
        RequestGuildMembers {
            guild_id: Vec::new(),
            query: Some(String::new()),
            limit: 0,
            presences: false,
            user_ids: None,
        }
    }
}

impl RequestGuildMembers {
    /// Whether the gateway accepts this request: it must say which members
    /// it asks for, by a query or by a list of users.
    pub open spec fn is_valid(&self) -> bool {
        self.query is Some || self.user_ids is Some
    }

    /// Why a request that names neither a query nor users is refused.
    pub open spec fn refusal() -> Seq<char> {
        "either `query` or `user_ids` must be set"@
    }

    /// Builds a request from its fields. Fails with `InvalidCommand` exactly
    /// when neither `query` nor `user_ids` is set; to ask for all members,
    /// pass an empty query.
    pub fn new(
        guild_id: Vec<String>,
        query: Option<String>,
        limit: u32,
        presences: bool,
        user_ids: Option<Vec<String>>,
    ) -> (r: Result<RequestGuildMembers, DecodeError>)
        ensures
            match r {
                Ok(request) => {
                    &&& query is Some || user_ids is Some
                    &&& request.is_valid()
                    &&& request.guild_id == guild_id
                    &&& request.query == query
                    &&& request.limit == limit
                    &&& request.presences == presences
                    &&& request.user_ids == user_ids
                },
                Err(error) => {
                    &&& query is None
                    &&& user_ids is None
                    &&& error.deep_view() == (DecodeErrorModel::InvalidCommand {
                        reason: Self::refusal(),
                    })
                },
            },
    {
        if query.is_none() && user_ids.is_none() {
            Err(
                DecodeError::InvalidCommand {
                    reason: "either `query` or `user_ids` must be set".to_owned(),
                },
            )
        } else {
            Ok(RequestGuildMembers { guild_id, query, limit, presences, user_ids })
        }
    }
}

} // verus!
