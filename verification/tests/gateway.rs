use cordis_core::error::DecodeError;
use cordis_core::gateway::dispatch::{
    resolve_event, DispatchEvent, DispatchEventCode, GuildBan, GuildMemberUpdate,
    MessageDeleteBulk, UnavailableGuild,
};
use cordis_core::gateway::{
    decode_envelope, Envelope, Hello, ReceivedPayload, RecvOpCode, VERSION,
};
use cordis_core::resources::{ChannelId, GuildId, MessageId, RoleId, User, UserId};
use serde_json::Value;

fn parse(text: &str) -> Value {
    serde_json::from_str(text).unwrap()
}

fn mismatch<T>(name: &str, fields: &[&str]) -> Result<T, DecodeError> {
    Err(DecodeError::PayloadShapeMismatch {
        event_name: name.to_string(),
        missing_fields: fields.iter().map(|f| f.to_string()).collect(),
    })
}

#[test]
fn gateway_version_is_six() {
    assert_eq!(VERSION, 6);
}

#[test]
fn every_received_operation_code_resolves_to_its_operation() {
    assert_eq!(RecvOpCode::from_code(0), Some(RecvOpCode::Dispatch));
    assert_eq!(RecvOpCode::from_code(1), Some(RecvOpCode::Heartbeat));
    assert_eq!(RecvOpCode::from_code(7), Some(RecvOpCode::Reconnect));
    assert_eq!(RecvOpCode::from_code(9), Some(RecvOpCode::InvalidSession));
    assert_eq!(RecvOpCode::from_code(10), Some(RecvOpCode::Hello));
    assert_eq!(RecvOpCode::from_code(11), Some(RecvOpCode::HeartbeatACK));
    for op in [
        RecvOpCode::Dispatch,
        RecvOpCode::Heartbeat,
        RecvOpCode::Reconnect,
        RecvOpCode::InvalidSession,
        RecvOpCode::Hello,
        RecvOpCode::HeartbeatACK,
    ] {
        assert_eq!(RecvOpCode::from_code(op.code() as u64), Some(op));
    }
    assert_eq!(RecvOpCode::default(), RecvOpCode::Heartbeat);
}

#[test]
fn codes_outside_the_known_set_are_unknown_operations() {
    for code in [2u64, 3, 4, 5, 6, 8, 12, 255, 256, u64::MAX] {
        assert_eq!(RecvOpCode::from_code(code), None);
        let raw = parse(&format!(r#"{{"op":{},"d":{{}},"s":1,"t":"MESSAGE_DELETE"}}"#, code));
        assert_eq!(
            ReceivedPayload::deserialize(&raw),
            Err(DecodeError::UnknownOperationCode { code: code as i128 })
        );
    }
    for code in [-1i64, -10, i64::MIN] {
        let raw = parse(&format!(r#"{{"op":{},"d":{{}},"s":1,"t":"MESSAGE_DELETE"}}"#, code));
        assert_eq!(
            ReceivedPayload::deserialize(&raw),
            Err(DecodeError::UnknownOperationCode { code: code as i128 })
        );
        assert_eq!(
            decode_envelope(&raw),
            Err(DecodeError::UnknownOperationCode { code: code as i128 })
        );
    }
}

#[test]
fn each_operation_decodes_with_its_payload() {
    assert_eq!(
        ReceivedPayload::deserialize(&parse(r#"{"op":1,"d":42}"#)),
        Ok(ReceivedPayload::Heartbeat(Some(42)))
    );
    assert_eq!(
        ReceivedPayload::deserialize(&parse(r#"{"op":7,"d":null,"s":null,"t":null}"#)),
        Ok(ReceivedPayload::Reconnect)
    );
    assert_eq!(
        ReceivedPayload::deserialize(&parse(r#"{"op":9,"d":true}"#)),
        Ok(ReceivedPayload::InvalidSession(true))
    );
    assert_eq!(
        ReceivedPayload::deserialize(&parse(r#"{"op":9,"d":false}"#)),
        Ok(ReceivedPayload::InvalidSession(false))
    );
    assert_eq!(
        ReceivedPayload::deserialize(&parse(r#"{"op":11}"#)),
        Ok(ReceivedPayload::HeartbeatACK)
    );
}

#[test]
fn envelope_without_operation_code_has_no_discriminant() {
    for text in [
        r#"{"d":{"heartbeat_interval":1}}"#,
        r#"{"op":null}"#,
        r#"{"op":"10"}"#,
        r#"{"op":10.0}"#,
        r#"[10]"#,
        r#"10"#,
    ] {
        assert_eq!(decode_envelope(&parse(text)), Err(DecodeError::MissingDiscriminant));
        assert_eq!(
            ReceivedPayload::deserialize(&parse(text)),
            Err(DecodeError::MissingDiscriminant)
        );
    }
}

#[test]
fn envelope_holds_what_the_document_gives() {
    let raw = parse(r#"{"op":0,"d":{"a":[1,2]},"s":7,"t":"X","extra":true}"#);
    assert_eq!(
        decode_envelope(&raw),
        Ok(Envelope {
            op: 0,
            d: Some(parse(r#"{"a":[1,2]}"#)),
            s: Some(7),
            t: Some("X".to_string()),
        })
    );
    let raw = parse(r#"{"op":8,"d":null,"s":"seven","t":5}"#);
    assert_eq!(decode_envelope(&raw), Ok(Envelope { op: 8, d: None, s: None, t: None }));
    let raw = parse(r#"{"op":18446744073709551615,"s":4294967296}"#);
    assert_eq!(decode_envelope(&raw), Ok(Envelope { op: u64::MAX, d: None, s: None, t: None }));
}

#[test]
fn operations_with_a_payload_demand_it() {
    for op in [1, 9, 10] {
        let raw = parse(&format!(r#"{{"op":{}}}"#, op));
        assert_eq!(ReceivedPayload::deserialize(&raw), Err(DecodeError::MissingPayload));
        let raw = parse(&format!(r#"{{"op":{},"d":null}}"#, op));
        assert_eq!(ReceivedPayload::deserialize(&raw), Err(DecodeError::MissingPayload));
    }
    let raw = parse(r#"{"op":0,"t":"MESSAGE_DELETE","s":5}"#);
    assert_eq!(ReceivedPayload::deserialize(&raw), Err(DecodeError::MissingPayload));
}

#[test]
fn misshapen_scalar_payloads_are_reported_under_d() {
    assert_eq!(
        ReceivedPayload::deserialize(&parse(r#"{"op":1,"d":"42"}"#)),
        mismatch("HEARTBEAT", &["d"])
    );
    assert_eq!(
        ReceivedPayload::deserialize(&parse(r#"{"op":1,"d":4294967296}"#)),
        mismatch("HEARTBEAT", &["d"])
    );
    assert_eq!(
        ReceivedPayload::deserialize(&parse(r#"{"op":9,"d":1}"#)),
        mismatch("INVALID_SESSION", &["d"])
    );
}

#[test]
fn hello_without_its_interval_names_the_field() {
    assert_eq!(
        ReceivedPayload::deserialize(&parse(r#"{"op":10,"d":{}}"#)),
        mismatch("HELLO", &["heartbeat_interval"])
    );
    assert_eq!(
        ReceivedPayload::deserialize(&parse(r#"{"op":10,"d":{"heartbeat_interval":65536}}"#)),
        mismatch("HELLO", &["heartbeat_interval"])
    );
    assert_eq!(
        ReceivedPayload::deserialize(&parse(r#"{"op":10,"d":{"heartbeat_interval":65535}}"#)),
        Ok(ReceivedPayload::Hello(Hello { heartbeat_interval: 65535 }))
    );
}

#[test]
fn dispatch_without_event_name_has_no_discriminant() {
    let raw = parse(r#"{"op":0,"s":1,"d":{}}"#);
    assert_eq!(ReceivedPayload::deserialize(&raw), Err(DecodeError::MissingDiscriminant));
    let raw = parse(r#"{"op":0,"t":null,"s":1,"d":{}}"#);
    assert_eq!(ReceivedPayload::deserialize(&raw), Err(DecodeError::MissingDiscriminant));
}

#[test]
fn dispatch_without_sequence_number_is_refused() {
    let raw = parse(r#"{"op":0,"t":"MESSAGE_DELETE","d":{"id":"1","channel_id":"2"}}"#);
    assert_eq!(ReceivedPayload::deserialize(&raw), Err(DecodeError::MissingSequenceNumber));
    let raw = parse(r#"{"op":0,"t":"MESSAGE_DELETE","s":null,"d":{"id":"1","channel_id":"2"}}"#);
    assert_eq!(ReceivedPayload::deserialize(&raw), Err(DecodeError::MissingSequenceNumber));
}

#[test]
fn dispatch_reports_its_faults_in_order() {
    let raw = parse(r#"{"op":0,"t":"FOO_BAR"}"#);
    assert_eq!(
        ReceivedPayload::deserialize(&raw),
        Err(DecodeError::UnknownEventName("FOO_BAR".to_string()))
    );
    let raw = parse(r#"{"op":0,"t":"MESSAGE_DELETE"}"#);
    assert_eq!(ReceivedPayload::deserialize(&raw), Err(DecodeError::MissingPayload));
    let raw = parse(r#"{"op":0,"t":"MESSAGE_DELETE","d":{"id":"1"}}"#);
    assert_eq!(ReceivedPayload::deserialize(&raw), mismatch("MESSAGE_DELETE", &["channel_id"]));
}

#[test]
fn event_names_are_matched_exactly() {
    for name in ["message_delete", "Message_Delete", "MESSAGE_DELETE ", "MESSAGEDELETE", ""] {
        assert_eq!(DispatchEventCode::from_name(name), None);
        assert_eq!(
            resolve_event(name, &parse(r#"{"id":"1","channel_id":"2"}"#)),
            Err(DecodeError::UnknownEventName(name.to_string()))
        );
    }
    assert_eq!(
        DispatchEventCode::from_name("MESSAGE_DELETE"),
        Some(DispatchEventCode::MessageDelete)
    );
    assert_eq!(DispatchEventCode::GuildMembersChunk.name(), "GUILD_MEMBERS_CHUNK");
    assert_eq!(
        DispatchEventCode::from_name(DispatchEventCode::MessageReactionRemoveAll.name()),
        Some(DispatchEventCode::MessageReactionRemoveAll)
    );
}

#[test]
fn every_absent_field_is_named_at_once() {
    assert_eq!(
        resolve_event("GUILD_MEMBER_UPDATE", &parse(r#"{"nick":"n"}"#)),
        mismatch("GUILD_MEMBER_UPDATE", &["guild_id", "roles", "user"])
    );
    assert_eq!(
        resolve_event("GUILD_MEMBER_UPDATE", &parse("5")),
        mismatch("GUILD_MEMBER_UPDATE", &["guild_id", "roles", "user", "nick"])
    );
}

#[test]
fn faults_inside_nested_values_are_named_by_their_path() {
    let payload = parse(
        r#"{"guild_id":"1","roles":["2",3,"4",null],"nick":"n",
            "user":{"id":"5","discriminator":"0001","bot":"yes"}}"#,
    );
    assert_eq!(
        resolve_event("GUILD_MEMBER_UPDATE", &payload),
        mismatch("GUILD_MEMBER_UPDATE", &["roles[1]", "roles[3]", "user.username", "user.bot"])
    );
}

#[test]
fn positions_in_long_lists_are_written_in_decimal() {
    let mut ids: Vec<String> = (0..120).map(|i| format!("\"{}\"", i)).collect();
    ids[9] = "9".to_string();
    ids[10] = "10".to_string();
    ids[119] = "true".to_string();
    let payload = parse(&format!(r#"{{"ids":[{}],"channel_id":"1"}}"#, ids.join(",")));
    assert_eq!(
        resolve_event("MESSAGE_DELETE_BULK", &payload),
        mismatch("MESSAGE_DELETE_BULK", &["ids[9]", "ids[10]", "ids[119]"])
    );
}

#[test]
fn guild_member_update_decodes_with_all_its_fields() {
    let payload = parse(
        r#"{"guild_id":"1","roles":["2","3"],"nick":"n",
            "user":{"id":"5","username":"u","discriminator":"0001","avatar":null,"flags":64,
                    "premium_type":2}}"#,
    );
    assert_eq!(
        resolve_event("GUILD_MEMBER_UPDATE", &payload),
        Ok(DispatchEvent::GuildMemberUpdate(GuildMemberUpdate {
            guild_id: GuildId("1".to_string()),
            roles: vec![RoleId("2".to_string()), RoleId("3".to_string())],
            user: User {
                id: UserId("5".to_string()),
                username: "u".to_string(),
                discriminator: "0001".to_string(),
                avatar: None,
                bot: None,
                mfa_enabled: None,
                locale: None,
                verified: None,
                email: None,
                flags: Some(64),
                premium_type: Some(cordis_core::resources::PremiumType::Nitro),
            },
            nick: "n".to_string(),
        }))
    );
}

#[test]
fn two_event_names_can_share_a_record() {
    let payload = parse(
        r#"{"guild_id":"1","user":{"id":"5","username":"u","discriminator":"0001"}}"#,
    );
    let ban = GuildBan {
        guild_id: GuildId("1".to_string()),
        user: User {
            id: UserId("5".to_string()),
            username: "u".to_string(),
            discriminator: "0001".to_string(),
            avatar: None,
            bot: None,
            mfa_enabled: None,
            locale: None,
            verified: None,
            email: None,
            flags: None,
            premium_type: None,
        },
    };
    assert_eq!(
        resolve_event("GUILD_BAN_ADD", &payload),
        Ok(DispatchEvent::GuildBanAdd(ban.clone()))
    );
    assert_eq!(resolve_event("GUILD_BAN_REMOVE", &payload), Ok(DispatchEvent::GuildBanRemove(ban)));
}

#[test]
fn guild_delete_and_bulk_delete_decode() {
    assert_eq!(
        resolve_event("GUILD_DELETE", &parse(r#"{"id":"1","unavailable":true}"#)),
        Ok(DispatchEvent::GuildDelete(UnavailableGuild {
            id: GuildId("1".to_string()),
            unavailable: true,
        }))
    );
    assert_eq!(
        resolve_event("MESSAGE_DELETE_BULK", &parse(r#"{"ids":["1","2"],"channel_id":"3"}"#)),
        Ok(DispatchEvent::MessageDeleteBulk(MessageDeleteBulk {
            ids: vec![MessageId("1".to_string()), MessageId("2".to_string())],
            channel_id: ChannelId("3".to_string()),
            guild_id: None,
        }))
    );
}

#[test]
fn channel_events_report_under_the_event_name() {
    assert_eq!(
        resolve_event("CHANNEL_CREATE", &parse(r#"{"id":"1","type":3}"#)),
        mismatch("CHANNEL_CREATE", &["name", "owner_id"])
    );
    assert_eq!(
        resolve_event("CHANNEL_UPDATE", &parse(r#"{"id":"1","type":9}"#)),
        Err(DecodeError::UnknownChannelType { code: 9 })
    );
    assert_eq!(
        resolve_event("CHANNEL_DELETE", &parse(r#"{"id":"1"}"#)),
        Err(DecodeError::MissingDiscriminant)
    );
}

#[test]
fn decoding_the_same_document_twice_gives_equal_values() {
    for text in [
        r#"{"op":10,"d":{"heartbeat_interval":41250}}"#,
        r#"{"op":0,"t":"MESSAGE_DELETE","s":5,"d":{"id":"1","channel_id":"2","guild_id":null}}"#,
        r#"{"op":0,"t":"GUILD_MEMBER_UPDATE","s":5,"d":{"roles":[1]}}"#,
        r#"{"op":3}"#,
        r#"{}"#,
    ] {
        let raw = parse(text);
        let again = parse(text);
        assert_eq!(ReceivedPayload::deserialize(&raw), ReceivedPayload::deserialize(&raw));
        assert_eq!(ReceivedPayload::deserialize(&raw), ReceivedPayload::deserialize(&again));
    }
}

#[test]
fn an_envelope_can_be_resolved_by_itself() {
    let envelope = Envelope {
        op: 10,
        d: Some(parse(r#"{"heartbeat_interval":100}"#)),
        s: None,
        t: None,
    };
    assert_eq!(
        ReceivedPayload::from_envelope(&envelope),
        Ok(ReceivedPayload::Hello(Hello { heartbeat_interval: 100 }))
    );
    let envelope = Envelope { op: 1, d: Some(Value::Null), s: None, t: None };
    assert_eq!(ReceivedPayload::from_envelope(&envelope), mismatch("HEARTBEAT", &["d"]));
}
