use crate::document::{docs_of, list_value, record_value, unsigned_value, Doc};
use crate::encode::Encode;
use crate::gateway::status_update::{Status, StatusUpdate};
use serde_json::Value;
use vstd::prelude::*;

verus! {

/// The default number of members from which on a guild counts as large.
pub const DEFAULT_LARGE_THRESHOLD: u16 = 50;

/// The id of the only shard of a connection that is not sharded.
pub const DEFAULT_SHARD_ID: u16 = 0;

/// The number of shards of a connection that is not sharded.
pub const DEFAULT_NUM_SHARDS: u16 = 1;

/// Information used for the client handshake.
#[derive(Clone, Debug, PartialEq, Eq)]
pub struct Identity {
    /// Authentication Token.
    pub token: String,
    /// Connection properties.
    pub properties: ConnectionProperties,
    /// Whether this connection supports compression of packets.
    /// This crate is not able to yet.
    ///
    /// `false` by default.
    pub compress: bool,
    /// Value between 50 and 250, total number of members where the gateway will stop sending
    /// offline members in the guild member list.
    ///
    /// `50` by default.
    pub large_threshold: u16,
    /// Used for [Guild Sharding](https://discordapp.com/developers/docs/topics/gateway#sharding)
    pub shard: Shard,
    /// Initial presence information.
    pub presence: StatusUpdate,
    /// Enables dispatching of guild subscription events (presence and typing events).
    ///
    /// `true` by default.
    pub guild_subscription: bool,
}

impl Encode for Identity {
    open spec fn doc(&self) -> Doc {
        Doc::Record(
            Map::empty()
                .insert("token"@, self.token.doc())
                .insert("properties"@, self.properties.doc())
                .insert("compress"@, self.compress.doc())
                .insert("large_threshold"@, self.large_threshold.doc())
                .insert("shard"@, self.shard.doc())
                .insert("presence"@, self.presence.doc())
                .insert("guild_subscription"@, self.guild_subscription.doc()),
        )
    }

    fn encode(&self) -> (r: Value) {
        let mut entries = serde_json::Map::new();
        entries.insert("token".to_owned(), self.token.encode());
        entries.insert("properties".to_owned(), self.properties.encode());
        entries.insert("compress".to_owned(), self.compress.encode());
        entries.insert("large_threshold".to_owned(), self.large_threshold.encode());
        entries.insert("shard".to_owned(), self.shard.encode());
        entries.insert("presence".to_owned(), self.presence.encode());
        entries.insert("guild_subscription".to_owned(), self.guild_subscription.encode());
        record_value(entries)
    }
}

/// The properties of the connection the server, given when identifying.
///
/// See [the official Discord documentation for more
/// information.](https://discordapp.com/developers/docs/topics/gateway#identify-identify-connection-properties)
#[derive(Clone, Debug, PartialEq, Eq)]
pub struct ConnectionProperties {
    /// The Operating System. e.g. Linux.
    pub os: String,
    /// The Browser used, in this case "Cordis" is used by default.
    pub browser: String,
    /// The Device use, in this case "Cordis" is used by default.
    pub device: String,
}

impl Encode for ConnectionProperties {
    open spec fn doc(&self) -> Doc {
        Doc::Record(
            Map::empty()
                .insert("$os"@, self.os.doc())
                .insert("$browser"@, self.browser.doc())
                .insert("$device"@, self.device.doc()),
        )
    }

    fn encode(&self) -> (r: Value) {
        let mut entries = serde_json::Map::new();
        entries.insert("$os".to_owned(), self.os.encode());
        entries.insert("$browser".to_owned(), self.browser.encode());
        entries.insert("$device".to_owned(), self.device.encode());
        record_value(entries)
    }
}

impl Default for Identity {
    fn default() -> (r: Self)
        ensures
            r.token@ == Seq::<char>::empty(),
            r.properties.os@ == Seq::<char>::empty(),
            r.properties.browser@ == "Cordis"@,
            r.properties.device@ == "Cordis"@,
            !r.compress,
            r.large_threshold == DEFAULT_LARGE_THRESHOLD,
            r.shard == (Shard { shard_id: DEFAULT_SHARD_ID, num_shards: DEFAULT_NUM_SHARDS }),
            r.presence.since is None,
            r.presence.game is None,
            r.presence.status == Status::Online,
            !r.presence.afk,
            r.guild_subscription,
    {
        Identity {
            token: String::new(),
            properties: ConnectionProperties::default(),
            compress: false,
            large_threshold: DEFAULT_LARGE_THRESHOLD,
            shard: Shard::default(),
            presence: StatusUpdate::default(),
            guild_subscription: true,
        }
    }
}

impl Default for ConnectionProperties {
    fn default() -> (r: Self)
        ensures
            r.os@ == Seq::<char>::empty(),
            r.browser@ == "Cordis"@,
            r.device@ == "Cordis"@,
    {
        ConnectionProperties {
            os: String::new(),
            browser: "Cordis".to_owned(),
            device: "Cordis".to_owned(),
        }
    }
}

/// Used for guild sharding.
#[derive(Clone, Copy, Debug, PartialEq, Eq)]
pub struct Shard {
    /// The id of the current shard.
    pub shard_id: u16,
    /// The number of shards.
    pub num_shards: u16,
}

impl Default for Shard {
    fn default() -> (r: Self)
        ensures
            r == (Shard { shard_id: DEFAULT_SHARD_ID, num_shards: DEFAULT_NUM_SHARDS }),
    {
        Shard { shard_id: DEFAULT_SHARD_ID, num_shards: DEFAULT_NUM_SHARDS }
    }
}

/// A shard is written as a list of two numbers: its id, then the number of
/// shards.
impl Encode for Shard {
    open spec fn doc(&self) -> Doc {
        Doc::List(seq![Doc::Unsigned(self.shard_id as u64), Doc::Unsigned(self.num_shards as u64)])
    }

    fn encode(&self) -> (r: Value) {
        let mut items: Vec<Value> = Vec::new();
        items.push(unsigned_value(self.shard_id as u64));
        items.push(unsigned_value(self.num_shards as u64));
        assert(docs_of(items@) =~= seq![
            Doc::Unsigned(self.shard_id as u64),
            Doc::Unsigned(self.num_shards as u64),
        ]);
        list_value(items)
    }
}

} // verus!
