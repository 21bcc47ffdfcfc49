use cordis_core::encode::Encode;
use cordis_core::error::DecodeError;
use cordis_core::gateway::{
    decode_envelope, encode_command, encode_envelope, Activity, ActivityType,
    ConnectionProperties, Envelope, Identity, RequestGuildMembers, Resume, SendablePayload, Shard,
    Status, StatusUpdate, VoiceStateUpdate,
};
use serde_json::Value;

fn parse(text: &str) -> Value {
    serde_json::from_str(text).unwrap()
}

#[test]
fn heartbeat_is_sent_under_code_one() {
    assert_eq!(
        SendablePayload::Heartbeat(Some(17)).serialize(),
        parse(r#"{"op":1,"d":17,"s":null,"t":null}"#)
    );
    assert_eq!(
        SendablePayload::Heartbeat(None).serialize(),
        parse(r#"{"op":1,"d":null,"s":null,"t":null}"#)
    );
}

#[test]
fn default_identity_is_sent_under_code_two() {
    let expected = parse(
        r#"{"op":2,"s":null,"t":null,"d":{
            "token":"",
            "properties":{"$os":"","$browser":"Cordis","$device":"Cordis"},
            "compress":false,
            "large_threshold":50,
            "shard":[0,1],
            "presence":{"since":null,"game":null,"status":"online","afk":false},
            "guild_subscription":true}}"#,
    );
    assert_eq!(SendablePayload::Identity(Identity::default()).serialize(), expected);
}

#[test]
fn status_update_is_sent_under_code_three() {
    let status = StatusUpdate {
        since: Some(1_600_000_000_000),
        game: Some(Activity {
            name: "Rocket League".to_string(),
            activity_type: ActivityType::Streaming,
            url: Some("https://example.com".to_string()),
        }),
        status: Status::Dnd,
        afk: true,
    };
    assert_eq!(
        SendablePayload::StatusUpdate(status).serialize(),
        parse(
            r#"{"op":3,"s":null,"t":null,"d":{"since":1600000000000,"status":"dnd","afk":true,
                "game":{"name":"Rocket League","type":1,"url":"https://example.com"}}}"#
        )
    );
}

#[test]
fn voice_state_update_is_sent_under_code_four() {
    let state = VoiceStateUpdate {
        guid_id: "1".to_string(),
        channel_id: None,
        self_mute: true,
        self_deaf: false,
    };
    assert_eq!(
        SendablePayload::VoiceStateUpdate(state).serialize(),
        parse(
            r#"{"op":4,"s":null,"t":null,
                "d":{"guid_id":"1","channel_id":null,"self_mute":true,"self_deaf":false}}"#
        )
    );
}

#[test]
fn resume_is_sent_under_code_six() {
    let resume = Resume { token: "tok".to_string(), session_id: "sess".to_string(), seq: 99 };
    assert_eq!(
        SendablePayload::Resume(resume).serialize(),
        parse(r#"{"op":6,"s":null,"t":null,"d":{"token":"tok","session_id":"sess","seq":99}}"#)
    );
}

#[test]
fn request_guild_members_round_trips_through_the_wire() {
    let request = RequestGuildMembers {
        guild_id: vec!["41".to_string(), "42".to_string()],
        query: Some(String::new()),
        limit: 0,
        presences: true,
        user_ids: None,
    };
    let sent = SendablePayload::RequestGuildMembers(request).serialize();
    let text = serde_json::to_string(&sent).unwrap();
    let envelope = decode_envelope(&parse(&text)).unwrap();
    assert_eq!(envelope.op, 8);
    assert_eq!(envelope.s, None);
    assert_eq!(envelope.t, None);
    let payload = envelope.d.unwrap();
    assert_eq!(payload["guild_id"], parse(r#"["41","42"]"#));
    assert_eq!(payload["query"], Value::String(String::new()));
    assert_eq!(payload["limit"], parse("0"));
    assert_eq!(payload["presences"], Value::Bool(true));
    assert_eq!(payload["user_ids"], Value::Null);
    assert_eq!(payload.as_object().unwrap().len(), 5);
}

#[test]
fn request_by_user_ids_is_written_as_a_list() {
    let request = RequestGuildMembers::new(
        vec!["1".to_string()],
        None,
        10,
        false,
        Some(vec!["7".to_string(), "8".to_string()]),
    )
    .unwrap();
    assert_eq!(
        request.encode(),
        parse(r#"{"guild_id":["1"],"query":null,"limit":10,"presences":false,"user_ids":["7","8"]}"#)
    );
}

#[test]
fn request_without_query_and_users_is_invalid() {
    assert_eq!(
        RequestGuildMembers::new(vec!["1".to_string()], None, 0, false, None),
        Err(DecodeError::InvalidCommand {
            reason: "either `query` or `user_ids` must be set".to_string(),
        })
    );
    let request =
        RequestGuildMembers::new(vec!["1".to_string()], Some("ab".to_string()), 5, true, None);
    assert_eq!(
        request,
        Ok(RequestGuildMembers {
            guild_id: vec!["1".to_string()],
            query: Some("ab".to_string()),
            limit: 5,
            presences: true,
            user_ids: None,
        })
    );
}

#[test]
fn defaults_are_as_documented() {
    assert_eq!(
        RequestGuildMembers::default(),
        RequestGuildMembers {
            guild_id: vec![],
            query: Some(String::new()),
            limit: 0,
            presences: false,
            user_ids: None,
        }
    );
    assert_eq!(Shard::default(), Shard { shard_id: 0, num_shards: 1 });
    assert_eq!(
        ConnectionProperties::default(),
        ConnectionProperties {
            os: String::new(),
            browser: "Cordis".to_string(),
            device: "Cordis".to_string(),
        }
    );
    assert_eq!(Status::default(), Status::Online);
    assert_eq!(
        StatusUpdate::default(),
        StatusUpdate { since: None, game: None, status: Status::Online, afk: false }
    );
    let identity = Identity::default();
    assert_eq!(identity.token, "");
    assert_eq!(identity.large_threshold, 50);
    assert!(!identity.compress);
    assert!(identity.guild_subscription);
    assert_eq!(identity.shard, Shard::default());
    assert_eq!(identity.presence, StatusUpdate::default());
    assert_eq!(identity.properties, ConnectionProperties::default());
}

#[test]
fn a_command_is_put_into_an_envelope_without_sequence_or_name() {
    let command = SendablePayload::Resume(Resume {
        token: "t".to_string(),
        session_id: "s".to_string(),
        seq: 1,
    });
    assert_eq!(
        encode_command(&command),
        Envelope {
            op: 6,
            d: Some(parse(r#"{"token":"t","session_id":"s","seq":1}"#)),
            s: None,
            t: None,
        }
    );
    assert_eq!(command.op().code(), 6);
}

#[test]
fn an_envelope_is_written_with_all_four_members() {
    let envelope = Envelope {
        op: 0,
        d: Some(parse(r#"{"id":"1"}"#)),
        s: Some(3),
        t: Some("MESSAGE_DELETE".to_string()),
    };
    let raw = encode_envelope(&envelope);
    assert_eq!(raw, parse(r#"{"op":0,"d":{"id":"1"},"s":3,"t":"MESSAGE_DELETE"}"#));
    assert_eq!(decode_envelope(&raw), Ok(envelope));
}

#[test]
fn shard_is_written_as_a_pair() {
    assert_eq!(Shard { shard_id: 3, num_shards: 16 }.encode(), parse("[3,16]"));
}

#[test]
fn plain_values_are_written_as_documents_of_their_kind() {
    assert_eq!("abc".to_string().encode(), Value::String("abc".to_string()));
    assert_eq!(true.encode(), Value::Bool(true));
    assert_eq!(65535u16.encode(), parse("65535"));
    assert_eq!(u32::MAX.encode(), parse("4294967295"));
    assert_eq!(u64::MAX.encode(), parse("18446744073709551615"));
    assert_eq!(None::<u32>.encode(), Value::Null);
    assert_eq!(Some(5u32).encode(), parse("5"));
    assert_eq!(vec![1u16, 2, 3].encode(), parse("[1,2,3]"));
    assert_eq!(Vec::<String>::new().encode(), parse("[]"));
    assert_eq!(Status::Invisible.encode(), Value::String("invisible".to_string()));
    assert_eq!(ActivityType::Listening.encode(), parse("2"));
}
