use crate::decode::{decode_payload, payload_outcome, read_unsigned, Decode};
use crate::document::{doc_of, member, null_value, record_value, Doc};
use crate::encode::Encode;
use crate::error::{outcome_model, DecodeError, DecodeErrorModel};
use crate::gateway::dispatch::{
    event_follows_name, event_of, resolve_known_event, DispatchEvent, DispatchEventCode,
    DispatchEventModel,
};
use crate::gateway::hello::{Hello, HelloModel};
use crate::gateway::identity::Identity;
use crate::gateway::request_guild_members::RequestGuildMembers;
use crate::gateway::resume::Resume;
use crate::gateway::status_update::StatusUpdate;
use crate::gateway::voice_state_update::VoiceStateUpdate;
use crate::gateway::{RecvOpCode, SendOpCode};
use serde_json::Value;
use vstd::prelude::*;

verus! {

/// The wire unit of every gateway message, in either direction, before its
/// payload is given a type.
#[derive(Clone, Debug, PartialEq, Eq)]
pub struct Envelope {
    /// The operation code.
    pub op: u64,
    /// The payload, whose shape the operation decides.
    pub d: Option<Value>,
    /// The sequence number; sent with dispatches.
    pub s: Option<u32>,
    /// The event name; sent with dispatches only.
    pub t: Option<String>,
}

/// The model of an [`Envelope`].
pub ghost struct EnvelopeModel {
    pub op: u64,
    pub d: Option<Doc>,
    pub s: Option<u32>,
    pub t: Option<Seq<char>>,
}

impl DeepView for Envelope {
    type V = EnvelopeModel;

    open spec fn deep_view(&self) -> EnvelopeModel {
        EnvelopeModel {
            op: self.op,
            d: match self.d {
                Some(payload) => Some(doc_of(payload)),
                None => None,
            },
            s: self.s,
            t: self.t.deep_view(),
        }
    }
}

impl EnvelopeModel {
    /// The document that this envelope is written as: an object with the
    /// four members `op`, `d`, `s` and `t`, where null stands for what the
    /// envelope does not hold.
    pub open spec fn doc(self) -> Doc {
        Doc::Record(
            Map::empty().insert("op"@, Doc::Unsigned(self.op)).insert(
                "d"@,
                match self.d {
                    Some(payload) => payload,
                    None => Doc::Null,
                },
            ).insert(
                "s"@,
                match self.s {
                    Some(seq) => Doc::Unsigned(seq as u64),
                    None => Doc::Null,
                },
            ).insert(
                "t"@,
                match self.t {
                    Some(name) => Doc::Text(name),
                    None => Doc::Null,
                },
            ),
        )
    }
}

impl EnvelopeModel {
    /// The rule that envelopes on the wire follow: the event name is there
    /// exactly with a dispatch, and a dispatch has its sequence number.
    /// Decoding an envelope does not demand this of it; resolving it demands
    /// what its operation needs.
    pub open spec fn well_formed(self) -> bool {
        &&& self.t is Some <==> self.op == 0
        &&& self.op == 0 ==> self.s is Some
    }
}

/// What [`decode_envelope`] makes of a document.
///
/// Only the operation code is demanded: it must be present and an integer,
/// and no negative integer is the code of any operation. The payload is
/// whatever stands under `d`, unless that is null. A sequence number or an
/// event name that is absent, null or not of its kind is not held; whether
/// one is needed is for the operation to say.
pub open spec fn envelope_of(doc: Doc) -> Result<EnvelopeModel, DecodeErrorModel> {
    match doc.member("op"@) {
        Some(Doc::Unsigned(op)) => Ok(
            EnvelopeModel {
                op,
                d: doc.given("d"@),
                s: match doc.given("s"@) {
                    Some(inner) => u32::parse(inner),
                    None => None,
                },
                t: match doc.given("t"@) {
                    Some(inner) => String::parse(inner),
                    None => None,
                },
            },
        ),
        Some(inner) => match inner.integer() {
            Some(op) => Err(DecodeErrorModel::UnknownOperationCode { code: op as i128 }),
            None => Err(DecodeErrorModel::MissingDiscriminant),
        },
        None => Err(DecodeErrorModel::MissingDiscriminant),
    }
}

/// Reads the envelope of a raw gateway message. No operation code is taken
/// for granted: without one the result is `MissingDiscriminant`.
pub fn decode_envelope(raw: &Value) -> (r: Result<Envelope, DecodeError>)
    ensures
        outcome_model(r) == envelope_of(doc_of(*raw)),
{
    let op = match member(raw, "op") {
        Some(inner) => match inner.as_u64() {
            Some(op) => op,
            None => match inner.as_i64() {
                Some(op) => { return Err(DecodeError::UnknownOperationCode { code: op as i128 }); },
                None => { return Err(DecodeError::MissingDiscriminant); },
            },
        },
        None => { return Err(DecodeError::MissingDiscriminant); },
    };
    let d = match member(raw, "d") {
        Some(inner) => if inner.is_null() {
            None
        } else {
            Some(inner.clone())
        },
        None => None,
    };
    let s = match member(raw, "s") {
        Some(inner) => match read_unsigned(inner, 0xffff_ffff) {
            Some(seq) => Some(seq as u32),
            None => None,
        },
        None => None,
    };
    let t = match member(raw, "t") {
        Some(inner) => match inner.as_str() {
            Some(name) => Some(name.to_owned()),
            None => None,
        },
        None => None,
    };
    Ok(Envelope { op, d, s, t })
}

/// Writes an envelope as a raw document.
pub fn encode_envelope(envelope: &Envelope) -> (r: Value)
    ensures
        doc_of(r) == envelope.deep_view().doc(),
{
    let mut entries = serde_json::Map::new();
    entries.insert("op".to_owned(), envelope.op.encode());
    entries.insert(
        "d".to_owned(),
        match &envelope.d {
            Some(payload) => payload.clone(),
            None => null_value(),
        },
    );
    entries.insert("s".to_owned(), envelope.s.encode());
    entries.insert("t".to_owned(), envelope.t.encode());
    record_value(entries)
}

/// All the different payloads that can be *received* by the client from the server.
#[derive(Clone, Debug, PartialEq, Eq)]
pub enum ReceivedPayload {
    /// Dispatches an event.
    Dispatch {
        /// Sequence number used for heartbeats and resuming sessions.
        seq: u32,
        /// The event that has been dispatched by the server.
        event: DispatchEvent,
    },
    /// Used for ping checking.
    Heartbeat(Option<u32>),
    /// Used to tell clients to reconnect to the gateway.
    Reconnect,
    /// Indicates the current session is invalid.
    ///
    /// Caused by three things:
    /// * The gateway could not initialise a session after receiving an `Identity` command.
    /// * The gateway could not resume a previous session after receiving a `Resume` command.
    /// * The gateway has invalidated an active session and is requesting client action.
    ///
    /// The inner boolean indicates whether the session may be resumable.
    InvalidSession(bool),
    /// Sent immediately after connecting, contains heartbeat and server debug information.
    Hello(Hello),
    /// Sent immediately following a client heartbeat that was received.
    ///
    /// If the client doesn't receive this in-between sending `Heartbeat`s,
    /// close the connection with a non-1000 close code, reconnect, and attempt to resume.
    HeartbeatACK,
}

/// The model of a [`ReceivedPayload`].
pub ghost enum ReceivedPayloadModel {
    Dispatch { seq: u32, event: DispatchEventModel },
    Heartbeat(Option<u32>),
    Reconnect,
    InvalidSession(bool),
    Hello(HelloModel),
    HeartbeatACK,
}

impl DeepView for ReceivedPayload {
    type V = ReceivedPayloadModel;

    open spec fn deep_view(&self) -> ReceivedPayloadModel {
        match self {
            ReceivedPayload::Dispatch { seq, event } => ReceivedPayloadModel::Dispatch {
                seq: *seq,
                event: event.deep_view(),
            },
            ReceivedPayload::Heartbeat(seq) => ReceivedPayloadModel::Heartbeat(*seq),
            ReceivedPayload::Reconnect => ReceivedPayloadModel::Reconnect,
            ReceivedPayload::InvalidSession(resumable) => ReceivedPayloadModel::InvalidSession(
                *resumable,
            ),
            ReceivedPayload::Hello(hello) => ReceivedPayloadModel::Hello(hello.deep_view()),
            ReceivedPayload::HeartbeatACK => ReceivedPayloadModel::HeartbeatACK,
        }
    }
}

impl ReceivedPayloadModel {
    /// The operation that this payload came with.
    pub open spec fn op(self) -> RecvOpCode {
        match self {
            ReceivedPayloadModel::Dispatch { .. } => RecvOpCode::Dispatch,
            ReceivedPayloadModel::Heartbeat(_) => RecvOpCode::Heartbeat,
            ReceivedPayloadModel::Reconnect => RecvOpCode::Reconnect,
            ReceivedPayloadModel::InvalidSession(_) => RecvOpCode::InvalidSession,
            ReceivedPayloadModel::Hello(_) => RecvOpCode::Hello,
            ReceivedPayloadModel::HeartbeatACK => RecvOpCode::HeartbeatACK,
        }
    }
}

/// What a dispatch envelope comes to. In this order: the event name must be
/// held and known, the payload must be held and decode as the record of
/// that event, and the sequence number must be held.
pub open spec fn dispatch_of(envelope: EnvelopeModel) -> Result<
    ReceivedPayloadModel,
    DecodeErrorModel,
> {
    match envelope.t {
        None => Err(DecodeErrorModel::MissingDiscriminant),
        Some(name) => match DispatchEventCode::of_name(name) {
            None => Err(DecodeErrorModel::UnknownEventName(name)),
            Some(code) => match envelope.d {
                None => Err(DecodeErrorModel::MissingPayload),
                Some(payload) => match event_of(code, payload) {
                    Err(error) => Err(error),
                    Ok(event) => match envelope.s {
                        None => Err(DecodeErrorModel::MissingSequenceNumber),
                        Some(seq) => Ok(ReceivedPayloadModel::Dispatch { seq, event }),
                    },
                },
            },
        },
    }
}

/// What [`ReceivedPayload::from_envelope`] makes of an envelope.
///
/// A code that stands for no received operation is an error, never some
/// default operation. Reconnect and heartbeat-ack carry nothing; heartbeat,
/// invalid-session and hello need a payload of their shape, reported under
/// the path `d` where it is a single value; dispatch is as [`dispatch_of`]
/// says.
pub open spec fn received_of(envelope: EnvelopeModel) -> Result<
    ReceivedPayloadModel,
    DecodeErrorModel,
> {
    match RecvOpCode::of_code(envelope.op) {
        None => Err(DecodeErrorModel::UnknownOperationCode { code: envelope.op as i128 }),
        Some(RecvOpCode::Dispatch) => dispatch_of(envelope),
        Some(RecvOpCode::Reconnect) => Ok(ReceivedPayloadModel::Reconnect),
        Some(RecvOpCode::HeartbeatACK) => Ok(ReceivedPayloadModel::HeartbeatACK),
        Some(RecvOpCode::Heartbeat) => match envelope.d {
            None => Err(DecodeErrorModel::MissingPayload),
            Some(payload) => match payload_outcome::<u32>(
                payload,
                RecvOpCode::Heartbeat.spec_label(),
                "d"@,
            ) {
                Ok(seq) => Ok(ReceivedPayloadModel::Heartbeat(Some(seq))),
                Err(error) => Err(error),
            },
        },
        Some(RecvOpCode::InvalidSession) => match envelope.d {
            None => Err(DecodeErrorModel::MissingPayload),
            Some(payload) => match payload_outcome::<bool>(
                payload,
                RecvOpCode::InvalidSession.spec_label(),
                "d"@,
            ) {
                Ok(resumable) => Ok(ReceivedPayloadModel::InvalidSession(resumable)),
                Err(error) => Err(error),
            },
        },
        Some(RecvOpCode::Hello) => match envelope.d {
            None => Err(DecodeErrorModel::MissingPayload),
            Some(payload) => match payload_outcome::<Hello>(
                payload,
                RecvOpCode::Hello.spec_label(),
                ""@,
            ) {
                Ok(hello) => Ok(ReceivedPayloadModel::Hello(hello)),
                Err(error) => Err(error),
            },
        },
    }
}

/// What [`ReceivedPayload::deserialize`] makes of a document: the envelope
/// is read, then resolved.
pub open spec fn received_outcome(doc: Doc) -> Result<ReceivedPayloadModel, DecodeErrorModel> {
    match envelope_of(doc) {
        Ok(envelope) => received_of(envelope),
        Err(error) => Err(error),
    }
}

/// Resolves a dispatch envelope.
fn dispatch_from(envelope: &Envelope) -> (r: Result<ReceivedPayload, DecodeError>)
    ensures
        outcome_model(r) == dispatch_of(envelope.deep_view()),
{
    let name = match &envelope.t {
        Some(name) => name,
        None => { return Err(DecodeError::MissingDiscriminant); },
    };
    let code = match DispatchEventCode::from_name(name.as_str()) {
        Some(code) => code,
        None => { return Err(DecodeError::UnknownEventName(name.clone())); },
    };
    let payload = match &envelope.d {
        Some(payload) => payload,
        None => { return Err(DecodeError::MissingPayload); },
    };
    let event = match resolve_known_event(code, payload) {
        Ok(event) => event,
        Err(error) => { return Err(error); },
    };
    match envelope.s {
        Some(seq) => Ok(ReceivedPayload::Dispatch { seq, event }),
        None => Err(DecodeError::MissingSequenceNumber),
    }
}

impl ReceivedPayload {
    /// Resolves an envelope that was received into its typed payload.
    pub fn from_envelope(envelope: &Envelope) -> (r: Result<ReceivedPayload, DecodeError>)
        ensures
            outcome_model(r) == received_of(envelope.deep_view()),
    {
        let op = match RecvOpCode::from_code(envelope.op) {
            Some(op) => op,
            None => {
                return Err(DecodeError::UnknownOperationCode { code: envelope.op as i128 });
            },
        };
        match op {
            RecvOpCode::Dispatch => dispatch_from(envelope),
            RecvOpCode::Reconnect => Ok(ReceivedPayload::Reconnect),
            RecvOpCode::HeartbeatACK => Ok(ReceivedPayload::HeartbeatACK),
            RecvOpCode::Heartbeat => match &envelope.d {
                None => Err(DecodeError::MissingPayload),
                Some(payload) => match decode_payload::<u32>(payload, op.label(), "d") {
                    Ok(seq) => Ok(ReceivedPayload::Heartbeat(Some(seq))),
                    Err(error) => Err(error),
                },
            },
            RecvOpCode::InvalidSession => match &envelope.d {
                None => Err(DecodeError::MissingPayload),
                Some(payload) => match decode_payload::<bool>(payload, op.label(), "d") {
                    Ok(resumable) => Ok(ReceivedPayload::InvalidSession(resumable)),
                    Err(error) => Err(error),
                },
            },
            RecvOpCode::Hello => match &envelope.d {
                None => Err(DecodeError::MissingPayload),
                Some(payload) => match decode_payload::<Hello>(payload, op.label(), "") {
                    Ok(hello) => Ok(ReceivedPayload::Hello(hello)),
                    Err(error) => Err(error),
                },
            },
        }
    }

    /// Decodes a raw gateway message that was received.
    pub fn deserialize(raw: &Value) -> (r: Result<ReceivedPayload, DecodeError>)
        ensures
            outcome_model(r) == received_outcome(doc_of(*raw)),
    {
        match decode_envelope(raw) {
            Ok(envelope) => ReceivedPayload::from_envelope(&envelope),
            Err(error) => Err(error),
        }
    }
}

/// All the different payloads that can be *sent* by the client to the server.
#[derive(Clone, Debug, PartialEq, Eq)]
pub enum SendablePayload {
    /// Used for ping checking.
    ///
    /// Contains an ``Option<u32>`` which is the last sequence number, `s`, received by the client.
    Heartbeat(Option<u32>),
    /// Used for client handshake.
    Identity(Identity),
    /// Used to update the client status.
    StatusUpdate(StatusUpdate),
    /// Used to join/move/leave voice channels.
    VoiceStateUpdate(VoiceStateUpdate),
    /// Used to resume a closed connection.
    Resume(Resume),
    /// Used to request guild members.
    RequestGuildMembers(RequestGuildMembers),
}

impl SendablePayload {
    /// The operation under which this command is sent.
    pub open spec fn spec_op(&self) -> SendOpCode {
        match self {
            SendablePayload::Heartbeat(_) => SendOpCode::Heartbeat,
            SendablePayload::Identity(_) => SendOpCode::Identity,
            SendablePayload::StatusUpdate(_) => SendOpCode::StatusUpdate,
            SendablePayload::VoiceStateUpdate(_) => SendOpCode::VoiceStateUpdate,
            SendablePayload::Resume(_) => SendOpCode::Resume,
            SendablePayload::RequestGuildMembers(_) => SendOpCode::RequestGuildMembers,
        }
    }

    /// The document that the fields of this command are written as.
    pub open spec fn payload(&self) -> Doc {
        match self {
            SendablePayload::Heartbeat(seq) => seq.doc(),
            SendablePayload::Identity(identity) => identity.doc(),
            SendablePayload::StatusUpdate(status) => status.doc(),
            SendablePayload::VoiceStateUpdate(state) => state.doc(),
            SendablePayload::Resume(resume) => resume.doc(),
            SendablePayload::RequestGuildMembers(request) => request.doc(),
        }
    }

    /// The envelope that this command is sent in: its operation code, its
    /// fields as the payload, and neither sequence number nor event name.
    pub open spec fn envelope(&self) -> EnvelopeModel {
        EnvelopeModel {
            op: self.spec_op().spec_code() as u64,
            d: Some(self.payload()),
            s: None,
            t: None,
        }
    }

    /// The operation under which this command is sent.
    #[verifier::when_used_as_spec(spec_op)]
    pub fn op(&self) -> (r: SendOpCode)
        ensures
            r == self.spec_op(),
    {
        match self {
            SendablePayload::Heartbeat(_) => SendOpCode::Heartbeat,
            SendablePayload::Identity(_) => SendOpCode::Identity,
            SendablePayload::StatusUpdate(_) => SendOpCode::StatusUpdate,
            SendablePayload::VoiceStateUpdate(_) => SendOpCode::VoiceStateUpdate,
            SendablePayload::Resume(_) => SendOpCode::Resume,
            SendablePayload::RequestGuildMembers(_) => SendOpCode::RequestGuildMembers,
        }
    }

    /// Writes this command as the raw document that is sent.
    pub fn serialize(&self) -> (r: Value)
        ensures
            doc_of(r) == self.envelope().doc(),
    {
        encode_envelope(&encode_command(self))
    }
}

/// Puts a command into its envelope. Nothing is checked here: a command is
/// valid by the way it was built.
pub fn encode_command(command: &SendablePayload) -> (r: Envelope)
    ensures
        r.deep_view() == command.envelope(),
{
    let payload = match command {
        SendablePayload::Heartbeat(seq) => seq.encode(),
        SendablePayload::Identity(identity) => identity.encode(),
        SendablePayload::StatusUpdate(status) => status.encode(),
        SendablePayload::VoiceStateUpdate(state) => state.encode(),
        SendablePayload::Resume(resume) => resume.encode(),
        SendablePayload::RequestGuildMembers(request) => request.encode(),
    };
    Envelope { op: command.op().code() as u64, d: Some(payload), s: None, t: None }
}

/// Every operation that can be received is found again from its code, and
/// no other code stands for one.
pub proof fn operation_codes_round_trip(op: RecvOpCode, code: u64)
    ensures
        RecvOpCode::of_code(op.spec_code() as u64) == Some(op),
        RecvOpCode::of_code(code) matches Some(found) ==> found.spec_code() == code,
        RecvOpCode::of_code(code) is Some <==> code == 0 || code == 1 || code == 7 || code == 9
            || code == 10 || code == 11,
{
}

/// A received payload is of the operation that the code of its envelope
/// stands for, and an envelope whose code stands for none is refused with
/// that code, whatever else it holds.
pub proof fn received_operation_follows_code(envelope: EnvelopeModel)
    ensures
        received_of(envelope) matches Ok(payload) ==> RecvOpCode::of_code(envelope.op) == Some(
            payload.op(),
        ),
        RecvOpCode::of_code(envelope.op) is None ==> received_of(envelope) == Err::<
            ReceivedPayloadModel,
            DecodeErrorModel,
        >(DecodeErrorModel::UnknownOperationCode { code: envelope.op as i128 }),
{
}

/// A document whose operation code is an integer that stands for no
/// received operation is refused with that code, whatever else it holds.
pub proof fn unknown_operation_code_is_refused(doc: Doc, code: int)
    requires
        doc.member("op"@) matches Some(inner) && inner.integer() == Some(code),
        !(code == 0 || code == 1 || code == 7 || code == 9 || code == 10 || code == 11),
    ensures
        received_outcome(doc) == Err::<ReceivedPayloadModel, DecodeErrorModel>(
            DecodeErrorModel::UnknownOperationCode { code: code as i128 },
        ),
{
}

/// An envelope that is written as a document and read back is the envelope
/// that was written, unless its payload is null: a null payload reads back
/// as no payload.
pub proof fn envelope_round_trip(envelope: EnvelopeModel)
    requires
        envelope.d != Some(Doc::Null),
    ensures
        envelope_of(envelope.doc()) == Ok::<EnvelopeModel, DecodeErrorModel>(envelope),
{
    reveal_strlit("op");
    reveal_strlit("d");
    reveal_strlit("s");
    reveal_strlit("t");
    assert("op"@.len() == 2 && "d"@[0] == 'd' && "s"@[0] == 's' && "t"@[0] == 't');
    let doc = envelope.doc();
    assert(doc.member("op"@) == Some(Doc::Unsigned(envelope.op)));
    assert(doc.given("d"@) == envelope.d);
    assert(doc.given("s"@) matches Some(inner) ==> u32::parse(inner) == envelope.s);
    assert(doc.given("s"@) is None ==> envelope.s is None);
    assert(doc.given("t"@) matches Some(inner) ==> String::parse(inner) == envelope.t);
    assert(doc.given("t"@) is None ==> envelope.t is None);
}

/// A command that is written as a document and read back as an envelope
/// comes back under its operation code, with its fields as the payload.
pub proof fn command_round_trip(command: SendablePayload)
    requires
        command != SendablePayload::Heartbeat(None),
    ensures
        envelope_of(command.envelope().doc()) == Ok::<EnvelopeModel, DecodeErrorModel>(
            EnvelopeModel {
                op: command.spec_op().spec_code() as u64,
                d: Some(command.payload()),
                s: None,
                t: None,
            },
        ),
{
    envelope_round_trip(command.envelope());
}

/// A request for guild members goes out under operation code 8, and its
/// payload holds each field under the field's name, with the value it had:
/// a query that is set, even to the empty string, is written as that
/// string.
pub proof fn request_guild_members_round_trip(request: RequestGuildMembers)
    ensures
        envelope_of(SendablePayload::RequestGuildMembers(request).envelope().doc()) == Ok::<
            EnvelopeModel,
            DecodeErrorModel,
        >(EnvelopeModel { op: 8, d: Some(request.doc()), s: None, t: None }),
        request.doc().member("guild_id"@) == Some(request.guild_id.doc()),
        request.doc().member("query"@) == Some(request.query.doc()),
        request.doc().member("limit"@) == Some(Doc::Unsigned(request.limit as u64)),
        request.doc().member("presences"@) == Some(Doc::Bool(request.presences)),
        request.doc().member("user_ids"@) == Some(request.user_ids.doc()),
        request.query matches Some(query) ==> request.query.doc() == Doc::Text(query@),
{
    command_round_trip(SendablePayload::RequestGuildMembers(request));
    reveal_strlit("guild_id");
    reveal_strlit("query");
    reveal_strlit("limit");
    reveal_strlit("presences");
    reveal_strlit("user_ids");
    assert("guild_id"@[0] == 'g' && "user_ids"@[0] == 'u' && "presences"@.len() == 9);
    assert("query"@[0] == 'q' && "limit"@[0] == 'l');
}

/// Decoding is a function of the document: two results of decoding
/// documents that stand for the same tree have the same model.
pub proof fn decoding_twice_agrees(
    first_raw: Value,
    second_raw: Value,
    first: Result<ReceivedPayload, DecodeError>,
    second: Result<ReceivedPayload, DecodeError>,
)
    requires
        doc_of(first_raw) == doc_of(second_raw),
        outcome_model(first) == received_outcome(doc_of(first_raw)),
        outcome_model(second) == received_outcome(doc_of(second_raw)),
    ensures
        outcome_model(first) == outcome_model(second),
{
}

/// The envelope of a command follows the rule of the wire, and an envelope
/// that resolves to a dispatch does too: it holds the name of the event, the
/// sequence number that came out, and a payload.
pub proof fn envelopes_follow_the_wire(command: SendablePayload, envelope: EnvelopeModel)
    ensures
        command.envelope().well_formed(),
        received_of(envelope) matches Ok(ReceivedPayloadModel::Dispatch { seq, event })
            ==> envelope.well_formed() && envelope.s == Some(seq) && envelope.t == Some(
            event.code().spec_name(),
        ) && envelope.d is Some,
{
    if let Some(name) = envelope.t {
        if let Some(code) = DispatchEventCode::of_name(name) {
            if let Some(payload) = envelope.d {
                event_follows_name(code, payload);
            }
        }
    }
}

} // verus!
