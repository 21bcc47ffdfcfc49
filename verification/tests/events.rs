use cordis_core::error::DecodeError;
use cordis_core::gateway::dispatch::{resolve_event, DispatchEvent};
use serde_json::Value;

fn parse(text: &str) -> Value {
    serde_json::from_str(text).unwrap()
}

fn without(payload: &Value, key: &str) -> Value {
    let mut object = payload.as_object().unwrap().clone();
    object.remove(key);
    Value::Object(object)
}

fn assert_each_absent_field_is_named(event_name: &str, payload: &Value, required: &[&str]) {
    for key in required {
        match resolve_event(event_name, &without(payload, key)) {
            Err(DecodeError::PayloadShapeMismatch { event_name: named, missing_fields }) => {
                assert_eq!(named, event_name);
                assert_eq!(missing_fields, vec![key.to_string()]);
            }
            other => panic!("{} without {}: {:?}", event_name, key, other),
        }
    }
}

#[test]
fn channel_create_decodes_from_its_required_fields() {
    let payload = parse(
        r#"{"id":"1","type":1}"#,
    );
    let decoded = resolve_event("CHANNEL_CREATE", &payload);
    assert!(matches!(decoded, Ok(DispatchEvent::ChannelCreate(_))));
    assert_each_absent_field_is_named("CHANNEL_CREATE", &payload, &["id"]);
}

#[test]
fn channel_update_decodes_from_its_required_fields() {
    let payload = parse(
        r#"{"id":"1","type":1}"#,
    );
    let decoded = resolve_event("CHANNEL_UPDATE", &payload);
    assert!(matches!(decoded, Ok(DispatchEvent::ChannelUpdate(_))));
    assert_each_absent_field_is_named("CHANNEL_UPDATE", &payload, &["id"]);
}

#[test]
fn channel_delete_decodes_from_its_required_fields() {
    let payload = parse(
        r#"{"id":"1","type":1}"#,
    );
    let decoded = resolve_event("CHANNEL_DELETE", &payload);
    assert!(matches!(decoded, Ok(DispatchEvent::ChannelDelete(_))));
    assert_each_absent_field_is_named("CHANNEL_DELETE", &payload, &["id"]);
}

#[test]
fn channel_pins_update_decodes_from_its_required_fields() {
    let payload = parse(
        r#"{"channel_id":"1"}"#,
    );
    let decoded = resolve_event("CHANNEL_PINS_UPDATE", &payload);
    assert!(matches!(decoded, Ok(DispatchEvent::ChannelPinsUpdate(_))));
    assert_each_absent_field_is_named("CHANNEL_PINS_UPDATE", &payload, &["channel_id"]);
}

#[test]
fn guild_create_decodes_from_its_required_fields() {
    let payload = parse(
        r#"{"id":"1","name":"x","owner":false,"permissions":1,"region":"x","afk_timeout":1,
            "verification_level":1,"default_message_notifications":0,"explicit_content_filter":0,
            "roles":[],"emojis":[],"features":[],"mfa_level":0,"premium_tier":0,"preferred_locale":"x",
            "joined_at":"2020-01-01T00:00:00Z","large":false,"unavailable":false,"member_count":1,
            "voice_states":[],"members":[],"channels":[],"presences":[]}"#,
    );
    let decoded = resolve_event("GUILD_CREATE", &payload);
    assert!(matches!(decoded, Ok(DispatchEvent::GuildCreate(_))));
    assert_each_absent_field_is_named("GUILD_CREATE", &payload, &[
        "id", "name", "owner", "permissions", "region", "afk_timeout", "verification_level",
        "default_message_notifications", "explicit_content_filter", "roles", "emojis",
        "features", "mfa_level", "premium_tier", "preferred_locale", "joined_at", "large",
        "unavailable", "member_count", "voice_states", "members", "channels", "presences",
    ]);
}

#[test]
fn guild_update_decodes_from_its_required_fields() {
    let payload = parse(
        r#"{"id":"1","name":"x","owner":false,"permissions":1,"region":"x","afk_timeout":1,
            "verification_level":1,"default_message_notifications":0,"explicit_content_filter":0,
            "roles":[],"emojis":[],"features":[],"mfa_level":0,"premium_tier":0,"preferred_locale":"x"}"#,
    );
    let decoded = resolve_event("GUILD_UPDATE", &payload);
    assert!(matches!(decoded, Ok(DispatchEvent::GuildUpdate(_))));
    assert_each_absent_field_is_named("GUILD_UPDATE", &payload, &[
        "id", "name", "owner", "permissions", "region", "afk_timeout", "verification_level",
        "default_message_notifications", "explicit_content_filter", "roles", "emojis",
        "features", "mfa_level", "premium_tier", "preferred_locale",
    ]);
}

#[test]
fn guild_delete_decodes_from_its_required_fields() {
    let payload = parse(
        r#"{"id":"1","unavailable":false}"#,
    );
    let decoded = resolve_event("GUILD_DELETE", &payload);
    assert!(matches!(decoded, Ok(DispatchEvent::GuildDelete(_))));
    assert_each_absent_field_is_named("GUILD_DELETE", &payload, &["id", "unavailable"]);
}

#[test]
fn guild_ban_add_decodes_from_its_required_fields() {
    let payload = parse(
        r#"{"guild_id":"1","user":{"id":"1","username":"x","discriminator":"x"}}"#,
    );
    let decoded = resolve_event("GUILD_BAN_ADD", &payload);
    assert!(matches!(decoded, Ok(DispatchEvent::GuildBanAdd(_))));
    assert_each_absent_field_is_named("GUILD_BAN_ADD", &payload, &["guild_id", "user"]);
}

#[test]
fn guild_ban_remove_decodes_from_its_required_fields() {
    let payload = parse(
        r#"{"guild_id":"1","user":{"id":"1","username":"x","discriminator":"x"}}"#,
    );
    let decoded = resolve_event("GUILD_BAN_REMOVE", &payload);
    assert!(matches!(decoded, Ok(DispatchEvent::GuildBanRemove(_))));
    assert_each_absent_field_is_named("GUILD_BAN_REMOVE", &payload, &["guild_id", "user"]);
}

#[test]
fn guild_emojis_update_decodes_from_its_required_fields() {
    let payload = parse(
        r#"{"guild_id":"1","emojis":[]}"#,
    );
    let decoded = resolve_event("GUILD_EMOJIS_UPDATE", &payload);
    assert!(matches!(decoded, Ok(DispatchEvent::GuildEmojisUpdate(_))));
    assert_each_absent_field_is_named("GUILD_EMOJIS_UPDATE", &payload, &["guild_id", "emojis"]);
}

#[test]
fn guild_integrations_update_decodes_from_its_required_fields() {
    let payload = parse(
        r#"{"guild_id":"1"}"#,
    );
    let decoded = resolve_event("GUILD_INTEGRATIONS_UPDATE", &payload);
    assert!(matches!(decoded, Ok(DispatchEvent::GuildIntegrationsUpdate(_))));
    assert_each_absent_field_is_named("GUILD_INTEGRATIONS_UPDATE", &payload, &["guild_id"]);
}

#[test]
fn guild_member_add_decodes_from_its_required_fields() {
    let payload = parse(
        r#"{"guild_id":"1","user":{"id":"1","username":"x","discriminator":"x"},"roles":[],
            "joined_at":"2020-01-01T00:00:00Z","deaf":false,"mute":false}"#,
    );
    let decoded = resolve_event("GUILD_MEMBER_ADD", &payload);
    assert!(matches!(decoded, Ok(DispatchEvent::GuildMemberAdd(_))));
    assert_each_absent_field_is_named("GUILD_MEMBER_ADD", &payload, &[
        "guild_id", "user", "roles", "joined_at", "deaf", "mute",
    ]);
}

#[test]
fn guild_member_remove_decodes_from_its_required_fields() {
    let payload = parse(
        r#"{"guild_id":"1","user":{"id":"1","username":"x","discriminator":"x"}}"#,
    );
    let decoded = resolve_event("GUILD_MEMBER_REMOVE", &payload);
    assert!(matches!(decoded, Ok(DispatchEvent::GuildMemberRemove(_))));
    assert_each_absent_field_is_named("GUILD_MEMBER_REMOVE", &payload, &["guild_id", "user"]);
}

#[test]
fn guild_member_update_decodes_from_its_required_fields() {
    let payload = parse(
        r#"{"guild_id":"1","roles":[],"user":{"id":"1","username":"x","discriminator":"x"},
            "nick":"x"}"#,
    );
    let decoded = resolve_event("GUILD_MEMBER_UPDATE", &payload);
    assert!(matches!(decoded, Ok(DispatchEvent::GuildMemberUpdate(_))));
    assert_each_absent_field_is_named("GUILD_MEMBER_UPDATE", &payload, &[
        "guild_id", "roles", "user", "nick",
    ]);
}

#[test]
fn guild_members_chunk_decodes_from_its_required_fields() {
    let payload = parse(
        r#"{"guild_id":"1","members":[],"not_found":[],"presences":[]}"#,
    );
    let decoded = resolve_event("GUILD_MEMBERS_CHUNK", &payload);
    assert!(matches!(decoded, Ok(DispatchEvent::GuildMembersChunk(_))));
    assert_each_absent_field_is_named("GUILD_MEMBERS_CHUNK", &payload, &[
        "guild_id", "members", "not_found", "presences",
    ]);
}

#[test]
fn guild_role_add_decodes_from_its_required_fields() {
    let payload = parse(
        r#"{"guild_id":"1","role":{"id":"1","name":"x","color":1,"hoist":false,"position":1,
            "permissions":1,"managed":false,"mentionable":false}}"#,
    );
    let decoded = resolve_event("GUILD_ROLE_ADD", &payload);
    assert!(matches!(decoded, Ok(DispatchEvent::GuildRoleAdd(_))));
    assert_each_absent_field_is_named("GUILD_ROLE_ADD", &payload, &["guild_id", "role"]);
}

#[test]
fn guild_role_update_decodes_from_its_required_fields() {
    let payload = parse(
        r#"{"guild_id":"1","role":{"id":"1","name":"x","color":1,"hoist":false,"position":1,
            "permissions":1,"managed":false,"mentionable":false}}"#,
    );
    let decoded = resolve_event("GUILD_ROLE_UPDATE", &payload);
    assert!(matches!(decoded, Ok(DispatchEvent::GuildRoleUpdate(_))));
    assert_each_absent_field_is_named("GUILD_ROLE_UPDATE", &payload, &["guild_id", "role"]);
}

#[test]
fn guild_role_delete_decodes_from_its_required_fields() {
    let payload = parse(
        r#"{"guild_id":"1","role_id":"1"}"#,
    );
    let decoded = resolve_event("GUILD_ROLE_DELETE", &payload);
    assert!(matches!(decoded, Ok(DispatchEvent::GuildRoleDelete(_))));
    assert_each_absent_field_is_named("GUILD_ROLE_DELETE", &payload, &["guild_id", "role_id"]);
}

#[test]
fn message_create_decodes_from_its_required_fields() {
    let payload = parse(
        r#"{"id":"1","channel_id":"1","author":{"id":"1","username":"x","discriminator":"x"},
            "content":"x","timestamp":"2020-01-01T00:00:00Z","tts":false,"mention_everyone":false,
            "mention_roles":[],"mention_channels":[],"attachments":[],"embeds":[],
            "reactions":[],"pinned":false,"type":0,"member":{"user":{"id":"1","username":"x",
            "discriminator":"x"},"roles":[],"joined_at":"2020-01-01T00:00:00Z","deaf":false,
            "mute":false},"mentions":[]}"#,
    );
    let decoded = resolve_event("MESSAGE_CREATE", &payload);
    assert!(matches!(decoded, Ok(DispatchEvent::MessageCreate(_))));
    assert_each_absent_field_is_named("MESSAGE_CREATE", &payload, &[
        "id", "channel_id", "author", "content", "timestamp", "tts", "mention_everyone",
        "mention_roles", "mention_channels", "attachments", "embeds", "reactions", "pinned",
        "type", "member", "mentions",
    ]);
}

#[test]
fn message_update_decodes_from_its_required_fields() {
    let payload = parse(
        r#"{"id":"1","channel_id":"1","author":{"id":"1","username":"x","discriminator":"x"},
            "content":"x","timestamp":"2020-01-01T00:00:00Z","tts":false,"mention_everyone":false,
            "mention_roles":[],"mention_channels":[],"attachments":[],"embeds":[],
            "reactions":[],"pinned":false,"type":0,"member":{"user":{"id":"1","username":"x",
            "discriminator":"x"},"roles":[],"joined_at":"2020-01-01T00:00:00Z","deaf":false,
            "mute":false},"mentions":[]}"#,
    );
    let decoded = resolve_event("MESSAGE_UPDATE", &payload);
    assert!(matches!(decoded, Ok(DispatchEvent::MessageUpdate(_))));
    assert_each_absent_field_is_named("MESSAGE_UPDATE", &payload, &[
        "id", "channel_id", "author", "content", "timestamp", "tts", "mention_everyone",
        "mention_roles", "mention_channels", "attachments", "embeds", "reactions", "pinned",
        "type", "member", "mentions",
    ]);
}

#[test]
fn message_delete_decodes_from_its_required_fields() {
    let payload = parse(
        r#"{"id":"1","channel_id":"1"}"#,
    );
    let decoded = resolve_event("MESSAGE_DELETE", &payload);
    assert!(matches!(decoded, Ok(DispatchEvent::MessageDelete(_))));
    assert_each_absent_field_is_named("MESSAGE_DELETE", &payload, &["id", "channel_id"]);
}

#[test]
fn message_delete_bulk_decodes_from_its_required_fields() {
    let payload = parse(
        r#"{"ids":[],"channel_id":"1"}"#,
    );
    let decoded = resolve_event("MESSAGE_DELETE_BULK", &payload);
    assert!(matches!(decoded, Ok(DispatchEvent::MessageDeleteBulk(_))));
    assert_each_absent_field_is_named("MESSAGE_DELETE_BULK", &payload, &["ids", "channel_id"]);
}

#[test]
fn message_reaction_add_decodes_from_its_required_fields() {
    let payload = parse(
        r#"{"user_id":"1","channel_id":"1","message_id":"1","emoji":{"id":"1","roles":[]}}"#,
    );
    let decoded = resolve_event("MESSAGE_REACTION_ADD", &payload);
    assert!(matches!(decoded, Ok(DispatchEvent::MessageReactionAdd(_))));
    assert_each_absent_field_is_named("MESSAGE_REACTION_ADD", &payload, &[
        "user_id", "channel_id", "message_id", "emoji",
    ]);
}

#[test]
fn message_reaction_remove_decodes_from_its_required_fields() {
    let payload = parse(
        r#"{"user_id":"1","channel_id":"1","message_id":"1","emoji":{"id":"1","roles":[]}}"#,
    );
    let decoded = resolve_event("MESSAGE_REACTION_REMOVE", &payload);
    assert!(matches!(decoded, Ok(DispatchEvent::MessageReactionRemove(_))));
    assert_each_absent_field_is_named("MESSAGE_REACTION_REMOVE", &payload, &[
        "user_id", "channel_id", "message_id", "emoji",
    ]);
}

#[test]
fn message_reaction_remove_all_decodes_from_its_required_fields() {
    let payload = parse(
        r#"{"channel_id":"1","message_id":"1"}"#,
    );
    let decoded = resolve_event("MESSAGE_REACTION_REMOVE_ALL", &payload);
    assert!(matches!(decoded, Ok(DispatchEvent::MessageReactionRemoveAll(_))));
    assert_each_absent_field_is_named("MESSAGE_REACTION_REMOVE_ALL", &payload, &[
        "channel_id", "message_id",
    ]);
}
