//! The module to provide types that interface with the Websocket Gateway API.

pub mod dispatch;
pub mod hello;
pub mod identity;
pub mod payload;
pub mod presence;
pub mod request_guild_members;
pub mod resume;
pub mod status_update;
pub mod voice_state_update;

pub use hello::Hello;
pub use identity::{ConnectionProperties, Identity, Shard};
pub use payload::{
    decode_envelope, encode_command, encode_envelope, Envelope, ReceivedPayload, SendablePayload,
};
pub use presence::Presence;
pub use request_guild_members::RequestGuildMembers;
pub use resume::Resume;
pub use status_update::{Activity, ActivityType, Status, StatusUpdate};
pub use voice_state_update::VoiceStateUpdate;

use vstd::prelude::*;

verus! {

/// The API version of the gateway this crate will support.
pub const VERSION: u8 = 6;

/// All the different operations that can be *received* by the client from the server.
#[derive(Clone, Copy, Debug, PartialEq, Eq)]
pub enum RecvOpCode {
    /// Dispatches an event.
    Dispatch,
    /// Used for ping checking.
    Heartbeat,
    /// Used to tell clients to reconnect to the gateway.
    Reconnect,
    /// Used to notify the client they have an invalid session id.
    InvalidSession,
    /// Sent immediately after connecting, contains heartbeat and server debug information.
    Hello,
    /// Sent immediately following a client heartbeat that was received.
    ///
    /// If the client doesn't receive this in-between sending `Heartbeat`s,
    /// close the connection with a non-1000 close code, reconnect, and attempt to resume.
    HeartbeatACK,
}

impl RecvOpCode {
    /// The variant that the wire code `code` stands for, if it stands for one.
    pub open spec fn of_code(code: u64) -> Option<RecvOpCode> {
        if code == 0 {
            Some(RecvOpCode::Dispatch)
        } else if code == 1 {
            Some(RecvOpCode::Heartbeat)
        } else if code == 7 {
            Some(RecvOpCode::Reconnect)
        } else if code == 9 {
            Some(RecvOpCode::InvalidSession)
        } else if code == 10 {
            Some(RecvOpCode::Hello)
        } else if code == 11 {
            Some(RecvOpCode::HeartbeatACK)
        } else {
            None
        }
    }

    /// The wire code of this variant.
    pub open spec fn spec_code(self) -> u8 {
        match self {
            RecvOpCode::Dispatch => 0,
            RecvOpCode::Heartbeat => 1,
            RecvOpCode::Reconnect => 7,
            RecvOpCode::InvalidSession => 9,
            RecvOpCode::Hello => 10,
            RecvOpCode::HeartbeatACK => 11,
        }
    }

    /// Finds the variant that the wire code `code` stands for.
    pub fn from_code(code: u64) -> (r: Option<RecvOpCode>)
        ensures
            r == Self::of_code(code),
    {
        if code == 0 {
            Some(RecvOpCode::Dispatch)
        } else if code == 1 {
            Some(RecvOpCode::Heartbeat)
        } else if code == 7 {
            Some(RecvOpCode::Reconnect)
        } else if code == 9 {
            Some(RecvOpCode::InvalidSession)
        } else if code == 10 {
            Some(RecvOpCode::Hello)
        } else if code == 11 {
            Some(RecvOpCode::HeartbeatACK)
        } else {
            None
        }
    }

    /// The wire code of this variant.
    #[verifier::when_used_as_spec(spec_code)]
    pub fn code(self) -> (r: u8)
        ensures
            r == self.spec_code(),
            Self::of_code(r as u64) == Some(self),
    {
        match self {
            RecvOpCode::Dispatch => 0,
            RecvOpCode::Heartbeat => 1,
            RecvOpCode::Reconnect => 7,
            RecvOpCode::InvalidSession => 9,
            RecvOpCode::Hello => 10,
            RecvOpCode::HeartbeatACK => 11,
        }
    }
}

/// All the different operations that can be *sent* by the client to the server.
#[derive(Clone, Copy, Debug, PartialEq, Eq)]
pub enum SendOpCode {
    /// Used for ping checking.
    Heartbeat,
    /// Used for client handshake.
    Identity,
    /// Used to update the client status.
    StatusUpdate,
    /// Used to join/move/leave voice channels.
    VoiceStateUpdate,
    /// Used to resume a closed connection.
    Resume,
    /// Used to request guild members.
    RequestGuildMembers,
}

impl SendOpCode {
    /// The variant that the wire code `code` stands for, if it stands for one.
    pub open spec fn of_code(code: u64) -> Option<SendOpCode> {
        if code == 1 {
            Some(SendOpCode::Heartbeat)
        } else if code == 2 {
            Some(SendOpCode::Identity)
        } else if code == 3 {
            Some(SendOpCode::StatusUpdate)
        } else if code == 4 {
            Some(SendOpCode::VoiceStateUpdate)
        } else if code == 6 {
            Some(SendOpCode::Resume)
        } else if code == 8 {
            Some(SendOpCode::RequestGuildMembers)
        } else {
            None
        }
    }

    /// The wire code of this variant.
    pub open spec fn spec_code(self) -> u8 {
        match self {
            SendOpCode::Heartbeat => 1,
            SendOpCode::Identity => 2,
            SendOpCode::StatusUpdate => 3,
            SendOpCode::VoiceStateUpdate => 4,
            SendOpCode::Resume => 6,
            SendOpCode::RequestGuildMembers => 8,
        }
    }

    /// Finds the variant that the wire code `code` stands for.
    pub fn from_code(code: u64) -> (r: Option<SendOpCode>)
        ensures
            r == Self::of_code(code),
    {
        if code == 1 {
            Some(SendOpCode::Heartbeat)
        } else if code == 2 {
            Some(SendOpCode::Identity)
        } else if code == 3 {
            Some(SendOpCode::StatusUpdate)
        } else if code == 4 {
            Some(SendOpCode::VoiceStateUpdate)
        } else if code == 6 {
            Some(SendOpCode::Resume)
        } else if code == 8 {
            Some(SendOpCode::RequestGuildMembers)
        } else {
            None
        }
    }

    /// The wire code of this variant.
    #[verifier::when_used_as_spec(spec_code)]
    pub fn code(self) -> (r: u8)
        ensures
            r == self.spec_code(),
            Self::of_code(r as u64) == Some(self),
    {
        match self {
            SendOpCode::Heartbeat => 1,
            SendOpCode::Identity => 2,
            SendOpCode::StatusUpdate => 3,
            SendOpCode::VoiceStateUpdate => 4,
            SendOpCode::Resume => 6,
            SendOpCode::RequestGuildMembers => 8,
        }
    }
}

impl RecvOpCode {
    /// The name under which a failure to decode the payload of this
    /// operation is reported.
    pub open spec fn spec_label(self) -> Seq<char> {
        match self {
            RecvOpCode::Dispatch => "DISPATCH"@,
            RecvOpCode::Heartbeat => "HEARTBEAT"@,
            RecvOpCode::Reconnect => "RECONNECT"@,
            RecvOpCode::InvalidSession => "INVALID_SESSION"@,
            RecvOpCode::Hello => "HELLO"@,
            RecvOpCode::HeartbeatACK => "HEARTBEAT_ACK"@,
        }
    }

    /// The name under which a failure to decode the payload of this
    /// operation is reported.
    pub fn label(self) -> (r: &'static str)
        ensures
            r@ == self.spec_label(),
    {
        match self {
            RecvOpCode::Dispatch => "DISPATCH",
            RecvOpCode::Heartbeat => "HEARTBEAT",
            RecvOpCode::Reconnect => "RECONNECT",
            RecvOpCode::InvalidSession => "INVALID_SESSION",
            RecvOpCode::Hello => "HELLO",
            RecvOpCode::HeartbeatACK => "HEARTBEAT_ACK",
        }
    }
}

impl Default for RecvOpCode {
    fn default() -> (r: Self)
        ensures
            r == RecvOpCode::Heartbeat,
    {
        RecvOpCode::Heartbeat
    }
}

impl Default for SendOpCode {
    fn default() -> (r: Self)
        ensures
            r == SendOpCode::Heartbeat,
    {
        SendOpCode::Heartbeat
    }
}

} // verus!
