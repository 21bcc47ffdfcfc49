use cordis_core::decode::Decode;
use cordis_core::error::DecodeError;
use cordis_core::resources::channel::dm::DMChannel;
use cordis_core::resources::channel::group_dm::GroupDMChannel;
use cordis_core::resources::channel::guild_category::GuildCategoryChannel;
use cordis_core::resources::channel::guild_news::GuildNewsChannel;
use cordis_core::resources::channel::guild_store::GuildStoreChannel;
use cordis_core::resources::channel::guild_text::GuildTextChannel;
use cordis_core::resources::channel::guild_voice::GuildVoiceChannel;
use cordis_core::resources::channel::resolve_channel;
use cordis_core::resources::{Channel, ChannelId, ChannelType, GuildId, MessageId, UserId};
use cordis_core::time::Timestamp;
use serde_json::Value;

fn parse(text: &str) -> Value {
    serde_json::from_str(text).unwrap()
}

fn mismatch(kind: &str, fields: &[&str]) -> Result<Channel, DecodeError> {
    Err(DecodeError::PayloadShapeMismatch {
        event_name: kind.to_string(),
        missing_fields: fields.iter().map(|f| f.to_string()).collect(),
    })
}

#[test]
fn guild_text_channel_decodes() {
    let raw = parse(
        r#"{"id":"10","type":0,"guild_id":"20","position":3,"name":"general","topic":"chat",
            "nsfw":false,"rate_limit_per_user":5,"last_message_id":"30","bitrate":64000}"#,
    );
    assert_eq!(
        resolve_channel(&raw),
        Ok(Channel::GuildText(GuildTextChannel {
            id: ChannelId("10".to_string()),
            guild_id: GuildId("20".to_string()),
            position: 3,
            name: "general".to_string(),
            topic: "chat".to_string(),
            nsfw: false,
            last_message_id: Some(MessageId("30".to_string())),
            rate_limit_per_user: 5,
            parent_id: None,
            last_pin_timestamp: None,
        }))
    );
}

#[test]
fn dm_channel_needs_only_its_id() {
    let raw = parse(r#"{"id":"10","type":1}"#);
    assert_eq!(
        resolve_channel(&raw),
        Ok(Channel::DM(DMChannel {
            id: ChannelId("10".to_string()),
            last_message_id: None,
            last_pin_timestamp: None,
        }))
    );
}

#[test]
fn dm_channel_keeps_its_last_pin_timestamp() {
    let raw = parse(r#"{"id":"10","type":1,"last_pin_timestamp":"2020-01-01T01:00:00.5+01:00"}"#);
    assert_eq!(
        resolve_channel(&raw),
        Ok(Channel::DM(DMChannel {
            id: ChannelId("10".to_string()),
            last_message_id: None,
            last_pin_timestamp: Some(Timestamp { seconds: 1577836800, nanos: 500_000_000 }),
        }))
    );
}

#[test]
fn guild_voice_channel_decodes() {
    let raw = parse(
        r#"{"id":"10","type":2,"guild_id":"20","position":1,"name":"voice","nsfw":true,
            "bitrate":64000,"user_limit":8,"parent_id":"40"}"#,
    );
    assert_eq!(
        resolve_channel(&raw),
        Ok(Channel::GuildVoice(GuildVoiceChannel {
            id: ChannelId("10".to_string()),
            guild_id: GuildId("20".to_string()),
            position: 1,
            name: "voice".to_string(),
            nsfw: true,
            parent_id: Some(MessageId("40".to_string())),
            bitrate: 64000,
            user_limit: 8,
        }))
    );
}

#[test]
fn group_dm_channel_needs_no_position() {
    let raw = parse(r#"{"id":"10","type":3,"name":"friends","owner_id":"7","icon":null}"#);
    assert_eq!(
        resolve_channel(&raw),
        Ok(Channel::GroupDm(GroupDMChannel {
            id: ChannelId("10".to_string()),
            position: None,
            name: "friends".to_string(),
            icon: None,
            last_message_id: None,
            owner_id: UserId("7".to_string()),
            last_pin_timestamp: None,
        }))
    );
}

#[test]
fn guild_category_channel_decodes() {
    let raw = parse(r#"{"id":"10","type":4,"guild_id":"20","position":0,"name":"cat","nsfw":false}"#);
    assert_eq!(
        resolve_channel(&raw),
        Ok(Channel::GuildCategory(GuildCategoryChannel {
            id: ChannelId("10".to_string()),
            guild_id: GuildId("20".to_string()),
            position: 0,
            name: "cat".to_string(),
            nsfw: false,
            parent_id: None,
        }))
    );
}

#[test]
fn guild_news_channel_decodes() {
    let raw = parse(
        r#"{"id":"10","type":5,"guild_id":"20","position":2,"name":"news","topic":"t","nsfw":false}"#,
    );
    assert_eq!(
        resolve_channel(&raw),
        Ok(Channel::GuildNews(GuildNewsChannel {
            id: ChannelId("10".to_string()),
            guild_id: GuildId("20".to_string()),
            position: 2,
            name: "news".to_string(),
            topic: "t".to_string(),
            nsfw: false,
            last_message_id: None,
            parent_id: None,
            last_pin_timestamp: None,
        }))
    );
}

#[test]
fn guild_store_channel_decodes() {
    let raw = parse(r#"{"id":"10","type":6,"guild_id":"20","position":9,"name":"shop","nsfw":false}"#);
    assert_eq!(
        resolve_channel(&raw),
        Ok(Channel::GuildStore(GuildStoreChannel {
            id: ChannelId("10".to_string()),
            guild_id: GuildId("20".to_string()),
            position: 9,
            name: "shop".to_string(),
            nsfw: false,
            parent_id: None,
        }))
    );
}

#[test]
fn channel_deserialize_is_resolve_channel() {
    let raw = parse(r#"{"id":"10","type":1}"#);
    assert_eq!(Channel::deserialize(&raw), resolve_channel(&raw));
}

#[test]
fn unknown_channel_type_is_refused_with_its_code() {
    assert_eq!(
        resolve_channel(&parse(r#"{"id":"10","type":7}"#)),
        Err(DecodeError::UnknownChannelType { code: 7 })
    );
    assert_eq!(
        resolve_channel(&parse(r#"{"type":300,"name":5}"#)),
        Err(DecodeError::UnknownChannelType { code: 300 })
    );
    assert_eq!(
        resolve_channel(&parse(r#"{"id":"10","type":-1}"#)),
        Err(DecodeError::UnknownChannelType { code: -1 })
    );
    assert_eq!(
        resolve_channel(&parse(r#"{"id":"10","type":18446744073709551615}"#)),
        Err(DecodeError::UnknownChannelType { code: 18446744073709551615 })
    );
    assert_eq!(
        resolve_channel(&parse(r#"{"id":"10","type":-9223372036854775808}"#)),
        Err(DecodeError::UnknownChannelType { code: -9223372036854775808 })
    );
}

#[test]
fn channel_without_type_code_has_no_discriminant() {
    assert_eq!(resolve_channel(&parse(r#"{"id":"10"}"#)), Err(DecodeError::MissingDiscriminant));
    assert_eq!(
        resolve_channel(&parse(r#"{"id":"10","type":"0"}"#)),
        Err(DecodeError::MissingDiscriminant)
    );
    assert_eq!(
        resolve_channel(&parse(r#"{"id":"10","type":1.5}"#)),
        Err(DecodeError::MissingDiscriminant)
    );
    assert_eq!(resolve_channel(&parse("[]")), Err(DecodeError::MissingDiscriminant));
}

#[test]
fn every_field_a_guild_text_channel_lacks_is_named() {
    assert_eq!(
        resolve_channel(&parse(r#"{"id":"10","type":0}"#)),
        mismatch(
            "GUILD_TEXT",
            &["guild_id", "position", "name", "topic", "nsfw", "rate_limit_per_user"]
        )
    );
    assert_eq!(
        resolve_channel(&parse(
            r#"{"id":"10","type":0,"guild_id":"20","position":3,"name":"general","nsfw":false}"#
        )),
        mismatch("GUILD_TEXT", &["topic", "rate_limit_per_user"])
    );
}

#[test]
fn each_kind_of_channel_names_what_it_lacks() {
    assert_eq!(resolve_channel(&parse(r#"{"type":1}"#)), mismatch("DM", &["id"]));
    assert_eq!(
        resolve_channel(&parse(r#"{"id":"1","type":2}"#)),
        mismatch(
            "GUILD_VOICE",
            &["guild_id", "position", "name", "nsfw", "bitrate", "user_limit"]
        )
    );
    assert_eq!(
        resolve_channel(&parse(r#"{"id":"1","type":3}"#)),
        mismatch("GROUP_DM", &["name", "owner_id"])
    );
    assert_eq!(
        resolve_channel(&parse(r#"{"id":"1","type":4}"#)),
        mismatch("GUILD_CATEGORY", &["guild_id", "position", "name", "nsfw"])
    );
    assert_eq!(
        resolve_channel(&parse(r#"{"id":"1","type":5}"#)),
        mismatch("GUILD_NEWS", &["guild_id", "position", "name", "topic", "nsfw"])
    );
    assert_eq!(
        resolve_channel(&parse(r#"{"id":"1","type":6}"#)),
        mismatch("GUILD_STORE", &["guild_id", "position", "name", "nsfw"])
    );
}

#[test]
fn misshapen_fields_are_named_before_absent_ones() {
    let raw = parse(r#"{"id":"1","type":4,"guild_id":"2","name":7,"bitrate":"fast","nsfw":null}"#);
    assert_eq!(
        resolve_channel(&raw),
        mismatch("GUILD_CATEGORY", &["name", "bitrate", "position", "nsfw"])
    );
}

#[test]
fn a_misshapen_timestamp_is_named() {
    let raw = parse(r#"{"id":"1","type":1,"last_pin_timestamp":"yesterday"}"#);
    assert_eq!(resolve_channel(&raw), mismatch("DM", &["last_pin_timestamp"]));
}

#[test]
fn numbers_out_of_range_do_not_fit() {
    let raw = parse(
        r#"{"id":"10","type":0,"guild_id":"20","position":4294967296,"name":"n","topic":"t",
            "nsfw":false,"rate_limit_per_user":65536}"#,
    );
    assert_eq!(resolve_channel(&raw), mismatch("GUILD_TEXT", &["position", "rate_limit_per_user"]));
    let raw = parse(
        r#"{"id":"10","type":0,"guild_id":"20","position":4294967295,"name":"n","topic":"t",
            "nsfw":false,"rate_limit_per_user":65535}"#,
    );
    assert!(matches!(resolve_channel(&raw), Ok(Channel::GuildText(_))));
}

#[test]
fn channel_type_codes_round_trip() {
    let kinds = [
        ChannelType::GuildText,
        ChannelType::Dm,
        ChannelType::GuildVoice,
        ChannelType::GroupDm,
        ChannelType::GuildCategory,
        ChannelType::GuildNews,
        ChannelType::GuildStore,
    ];
    for (code, kind) in kinds.iter().enumerate() {
        assert_eq!(kind.code() as usize, code);
        assert_eq!(ChannelType::from_code(code as u64), Some(*kind));
    }
    assert_eq!(ChannelType::from_code(7), None);
    assert_eq!(ChannelType::GuildNews.label(), "GUILD_NEWS");
    assert_eq!(ChannelType::GroupDm.required_fields(), vec!["name", "owner_id"]);
    assert_eq!(ChannelType::Dm.required_fields(), Vec::<&str>::new());
}

#[test]
fn timestamps_are_read_as_utc_instants() {
    let mut gaps = Vec::new();
    assert_eq!(
        Timestamp::decode(&Value::String("1970-01-01T00:00:01Z".to_string()), "at", &mut gaps),
        Some(Timestamp { seconds: 1, nanos: 0 })
    );
    assert_eq!(
        Timestamp::decode(&Value::String("1969-12-31T23:59:59.25Z".to_string()), "at", &mut gaps),
        Some(Timestamp { seconds: -1, nanos: 250_000_000 })
    );
    assert!(gaps.is_empty());
    assert_eq!(
        Timestamp::decode(&Value::String("not a date".to_string()), "at", &mut gaps),
        None
    );
    assert_eq!(Timestamp::decode(&parse("1577836800"), "then", &mut gaps), None);
    assert_eq!(gaps, vec!["at".to_string(), "then".to_string()]);
}
