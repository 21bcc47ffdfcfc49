use cordis_core::decode::Decode;
use cordis_core::gateway::dispatch::{
    ClientSessionStatus, ClientStatus, GuildCreate, GuildMemberAdd, PartialUser, UserWithMember,
};
use cordis_core::gateway::{Activity, ActivityType, Presence, Status};
use cordis_core::resources::embed::{EmbedImage, EmbedVideo};
use cordis_core::resources::guild::{
    DefaultMessageNotificationLevel, ExplicitContentFilterLevel, GuildFeatures, MFALevel,
    PremiumTier,
};
use cordis_core::resources::message::{
    ChannelMention, MessageActivity, MessageActivityType, MessageType, Nonce,
};
use cordis_core::resources::{
    Attachment, AttachmentId, Channel, ChannelId, ChannelType, Dimensions, Emoji, EmojiId,
    GuildId, GuildMember, PremiumType, Reaction, Role, RoleId, User, UserId,
};
use cordis_core::time::Timestamp;
use serde_json::Value;

fn parse(text: &str) -> Value {
    serde_json::from_str(text).unwrap()
}

fn decode<T: Decode>(text: &str) -> (Option<T>, Vec<String>) {
    let mut gaps = Vec::new();
    let decoded = T::decode(&parse(text), "", &mut gaps);
    (decoded, gaps)
}

fn paths(names: &[&str]) -> Vec<String> {
    names.iter().map(|n| n.to_string()).collect()
}

fn user(id: &str) -> User {
    User {
        id: UserId(id.to_string()),
        username: "u".to_string(),
        discriminator: "0001".to_string(),
        avatar: None,
        bot: None,
        mfa_enabled: None,
        locale: None,
        verified: None,
        email: None,
        flags: None,
        premium_type: None,
    }
}

const USER: &str = r#"{"id":"5","username":"u","discriminator":"0001"}"#;

#[test]
fn plain_values_decode_from_documents_of_their_kind() {
    assert_eq!(decode::<String>(r#""abc""#), (Some("abc".to_string()), vec![]));
    assert_eq!(decode::<String>("5"), (None, paths(&[""])));
    assert_eq!(decode::<bool>("true"), (Some(true), vec![]));
    assert_eq!(decode::<bool>("0"), (None, paths(&[""])));
    assert_eq!(decode::<u16>("65535"), (Some(65535), vec![]));
    assert_eq!(decode::<u16>("65536"), (None, paths(&[""])));
    assert_eq!(decode::<u32>("4294967295"), (Some(4294967295), vec![]));
    assert_eq!(decode::<u32>("4294967296"), (None, paths(&[""])));
    assert_eq!(decode::<u64>("18446744073709551615"), (Some(u64::MAX), vec![]));
    assert_eq!(decode::<u64>("-1"), (None, paths(&[""])));
    assert_eq!(decode::<u64>("1.0"), (None, paths(&[""])));
    assert_eq!(decode::<Vec<u16>>("[1,2,3]"), (Some(vec![1, 2, 3]), vec![]));
    assert_eq!(decode::<Vec<u16>>("[]"), (Some(vec![]), vec![]));
    assert_eq!(decode::<Vec<u16>>("{}"), (None, paths(&[""])));
    assert_eq!(decode::<Vec<u16>>(r#"[1,"2",3,null]"#), (None, paths(&["[1]", "[3]"])));
    assert_eq!(decode::<RoleId>(r#""7""#), (Some(RoleId("7".to_string())), vec![]));
    assert_eq!(decode::<RoleId>("7"), (None, paths(&[""])));
}

#[test]
fn earlier_notes_are_kept_and_paths_start_at_the_given_place() {
    let mut gaps = vec!["before".to_string()];
    assert_eq!(User::decode(&parse(r#"{"id":"5"}"#), "author", &mut gaps), None);
    assert_eq!(gaps, paths(&["before", "author.username", "author.discriminator"]));
    assert_eq!(Vec::<bool>::decode(&parse("[true,1]"), "flags", &mut gaps), None);
    assert_eq!(
        gaps,
        paths(&["before", "author.username", "author.discriminator", "flags[1]"])
    );
}

#[test]
fn a_required_field_that_is_null_is_named() {
    assert_eq!(
        decode::<User>(r#"{"id":null,"username":"u","discriminator":"0001"}"#),
        (None, paths(&["id"]))
    );
}

#[test]
fn an_optional_field_may_be_absent_or_null() {
    let full = r#"{"id":"5","username":"u","discriminator":"0001","avatar":"a","bot":true,
        "mfa_enabled":false,"locale":"en","verified":true,"email":"e","flags":3,
        "premium_type":1}"#;
    assert_eq!(
        decode::<User>(full),
        (
            Some(User {
                id: UserId("5".to_string()),
                username: "u".to_string(),
                discriminator: "0001".to_string(),
                avatar: Some("a".to_string()),
                bot: Some(true),
                mfa_enabled: Some(false),
                locale: Some("en".to_string()),
                verified: Some(true),
                email: Some("e".to_string()),
                flags: Some(3),
                premium_type: Some(PremiumType::NitroClassic),
            }),
            vec![]
        )
    );
    let nulls = r#"{"id":"5","username":"u","discriminator":"0001","avatar":null,"bot":null,
        "premium_type":null}"#;
    assert_eq!(decode::<User>(nulls), (Some(user("5")), vec![]));
    assert_eq!(decode::<User>(USER), (Some(user("5")), vec![]));
    assert_eq!(
        decode::<User>(r#"{"id":"5","username":"u","discriminator":"0001","premium_type":3}"#),
        (None, paths(&["premium_type"]))
    );
}

#[test]
fn nonce_is_text_or_integer() {
    assert_eq!(decode::<Nonce>(r#"{"Text":"abc"}"#), (Some(Nonce::Text("abc".to_string())), vec![]));
    assert_eq!(decode::<Nonce>(r#"{"Integer":7}"#), (Some(Nonce::Integer(7)), vec![]));
    assert_eq!(
        decode::<Nonce>(r#"{"Integer":7,"Text":"abc"}"#),
        (Some(Nonce::Text("abc".to_string())), vec![])
    );
    assert_eq!(decode::<Nonce>(r#"{"Text":7}"#), (None, paths(&[""])));
    assert_eq!(decode::<Nonce>(r#"{"Integer":4294967296}"#), (None, paths(&[""])));
    assert_eq!(decode::<Nonce>(r#""abc""#), (None, paths(&[""])));
    assert_eq!(decode::<Nonce>("{}"), (None, paths(&[""])));
}

#[test]
fn dimensions_are_read_beside_the_other_fields() {
    let with = r#"{"id":"1","filename":"f","size":10,"url":"u","proxy_url":"p",
        "height":20,"width":30}"#;
    assert_eq!(
        decode::<Attachment>(with),
        (
            Some(Attachment {
                id: AttachmentId("1".to_string()),
                filename: "f".to_string(),
                size: 10,
                url: "u".to_string(),
                proxy_url: "p".to_string(),
                dimensions: Some(Dimensions { height: 20, width: 30 }),
            }),
            vec![]
        )
    );
    let half = r#"{"id":"1","filename":"f","size":10,"url":"u","proxy_url":"p","height":20}"#;
    assert_eq!(decode::<Attachment>(half).0.unwrap().dimensions, None);
    let odd = r#"{"id":"1","filename":"f","size":10,"url":"u","proxy_url":"p",
        "height":"tall","width":30}"#;
    assert_eq!(decode::<Attachment>(odd).0.unwrap().dimensions, None);
    assert_eq!(decode::<Attachment>(odd).1, Vec::<String>::new());
    assert_eq!(
        decode::<EmbedImage>(r#"{"url":"u","height":1,"width":2}"#),
        (
            Some(EmbedImage {
                url: Some("u".to_string()),
                proxy_url: None,
                dimensions: Some(Dimensions { height: 1, width: 2 }),
            }),
            vec![]
        )
    );
    assert_eq!(
        decode::<EmbedVideo>("{}"),
        (Some(EmbedVideo { url: None, dimensions: None }), vec![])
    );
    assert_eq!(decode::<Dimensions>(r#"{"height":1}"#), (None, paths(&["width"])));
}

#[test]
fn enumerations_are_read_from_their_codes() {
    assert_eq!(decode::<PremiumType>("1"), (Some(PremiumType::NitroClassic), vec![]));
    assert_eq!(decode::<PremiumType>("2"), (Some(PremiumType::Nitro), vec![]));
    assert_eq!(decode::<PremiumType>("0"), (None, paths(&[""])));
    assert_eq!(decode::<ActivityType>("2"), (Some(ActivityType::Listening), vec![]));
    assert_eq!(decode::<ActivityType>("3"), (None, paths(&[""])));
    assert_eq!(decode::<MessageType>("12"), (Some(MessageType::ChannelFollowAdd), vec![]));
    assert_eq!(decode::<MessageType>("13"), (None, paths(&[""])));
    assert_eq!(decode::<MessageActivityType>("5"), (Some(MessageActivityType::JoinRequest), vec![]));
    assert_eq!(decode::<MessageActivityType>("4"), (None, paths(&[""])));
    assert_eq!(decode::<MFALevel>("0"), (Some(MFALevel::Off), vec![]));
    assert_eq!(decode::<MFALevel>("1"), (Some(MFALevel::Elevated), vec![]));
    assert_eq!(decode::<PremiumTier>("0"), (Some(PremiumTier::Tier0), vec![]));
    assert_eq!(decode::<PremiumTier>("3"), (Some(PremiumTier::Tier3), vec![]));
    assert_eq!(
        decode::<DefaultMessageNotificationLevel>("1"),
        (Some(DefaultMessageNotificationLevel::OnlyMentions), vec![])
    );
    assert_eq!(
        decode::<ExplicitContentFilterLevel>("2"),
        (Some(ExplicitContentFilterLevel::AllMembers), vec![])
    );
    assert_eq!(decode::<ChannelType>("6"), (Some(ChannelType::GuildStore), vec![]));
    assert_eq!(decode::<ChannelType>(r#""6""#), (None, paths(&[""])));
    assert_eq!(MessageType::GuildMemberJoin.code(), 7);
    assert_eq!(MessageActivityType::from_code(3), Some(MessageActivityType::Listen));
}

#[test]
fn enumerations_are_read_from_their_names() {
    assert_eq!(decode::<Status>(r#""online""#), (Some(Status::Online), vec![]));
    assert_eq!(decode::<Status>(r#""dnd""#), (Some(Status::Dnd), vec![]));
    assert_eq!(decode::<Status>(r#""idle""#), (Some(Status::Idle), vec![]));
    assert_eq!(decode::<Status>(r#""invisible""#), (Some(Status::Invisible), vec![]));
    assert_eq!(decode::<Status>(r#""offline""#), (Some(Status::Offline), vec![]));
    assert_eq!(decode::<Status>(r#""Online""#), (None, paths(&[""])));
    assert_eq!(
        decode::<ClientSessionStatus>(r#""idle""#),
        (Some(ClientSessionStatus::Idle), vec![])
    );
    assert_eq!(decode::<ClientSessionStatus>(r#""offline""#), (None, paths(&[""])));
    assert_eq!(
        decode::<Vec<GuildFeatures>>(r#"["INVITE_SPLASH","VIP_REGIONS","ANIMATED_ICON","BANNER"]"#),
        (
            Some(vec![
                GuildFeatures::InviteSplash,
                GuildFeatures::VipRegions,
                GuildFeatures::AnimatedIcon,
                GuildFeatures::Banner,
            ]),
            vec![]
        )
    );
    assert_eq!(decode::<GuildFeatures>(r#""vanity_url""#), (None, paths(&[""])));
    assert_eq!(GuildFeatures::VanityUrl.name(), "VANITY_URL");
    assert_eq!(Status::from_name("dnd"), Some(Status::Dnd));
}

#[test]
fn a_member_is_read_beside_the_guild_id() {
    let text = r#"{"guild_id":"1","user":{"id":"5","username":"u","discriminator":"0001"},
        "nick":"n","roles":["2"],"joined_at":"2020-01-01T00:00:00Z","deaf":false,"mute":true}"#;
    assert_eq!(
        decode::<GuildMemberAdd>(text),
        (
            Some(GuildMemberAdd {
                guild_id: GuildId("1".to_string()),
                member: GuildMember {
                    user: user("5"),
                    nick: Some("n".to_string()),
                    roles: vec![RoleId("2".to_string())],
                    joined_at: Timestamp { seconds: 1577836800, nanos: 0 },
                    premium_since: None,
                    deaf: false,
                    mute: true,
                },
            }),
            vec![]
        )
    );
    assert_eq!(
        decode::<GuildMemberAdd>(r#"{"user":{"id":"5"},"roles":[],"joined_at":"soon"}"#),
        (
            None,
            paths(&["guild_id", "user.username", "user.discriminator", "joined_at", "deaf", "mute"])
        )
    );
}

#[test]
fn a_user_is_read_beside_its_member() {
    let text = r#"{"id":"5","username":"u","discriminator":"0001",
        "member":{"user":{"id":"6","username":"u","discriminator":"0001"},"roles":[],
                  "joined_at":"2020-01-01T00:00:00Z","deaf":false,"mute":false}}"#;
    let decoded = decode::<UserWithMember>(text).0.unwrap();
    assert_eq!(decoded.user, user("5"));
    assert_eq!(decoded.member.user, user("6"));
    assert_eq!(
        decode::<UserWithMember>(r#"{"member":{"roles":"none"}}"#).1,
        paths(&[
            "member.user",
            "member.roles",
            "member.joined_at",
            "member.deaf",
            "member.mute",
            "id",
            "username",
            "discriminator",
        ])
    );
}

#[test]
fn lists_of_records_name_faults_by_position() {
    let text = r#"{"id":"1","name":null,"roles":[
        {"id":"2","name":"r","color":1,"hoist":false,"position":1,"permissions":0,
         "managed":false,"mentionable":true},
        {"id":"3","name":"r","color":-1,"hoist":false,"position":1,"permissions":0,
         "managed":false}]}"#;
    assert_eq!(decode::<Emoji>(text), (None, paths(&["roles[1].color", "roles[1].mentionable"])));
    let text = r#"{"id":"1","name":"e","roles":[
        {"id":"2","name":"r","color":1,"hoist":false,"position":1,"permissions":0,
         "managed":false,"mentionable":true}],"animated":true}"#;
    assert_eq!(
        decode::<Emoji>(text),
        (
            Some(Emoji {
                id: EmojiId("1".to_string()),
                name: Some("e".to_string()),
                roles: vec![Role {
                    id: RoleId("2".to_string()),
                    name: "r".to_string(),
                    color: 1,
                    hoist: false,
                    position: 1,
                    permissions: 0,
                    managed: false,
                    mentionable: true,
                }],
                user: None,
                require_colons: None,
                managed: None,
                animated: Some(true),
            }),
            vec![]
        )
    );
    let reaction = decode::<Reaction>(r#"{"count":2,"me":true,"emoji":{"id":"1","roles":[]}}"#);
    assert_eq!(reaction.0.unwrap().count, 2);
}

#[test]
fn presences_and_activities_decode() {
    let text = r#"{"guild_id":"1","user":{"id":"5"},"roles":[],"status":"idle","activities":[
        {"name":"a","type":0},{"name":"b","type":1,"url":"https://example.com"}],
        "game":{"name":"a","type":0},"client_status":{"desktop":"online","web":"dnd"}}"#;
    let presence = decode::<Presence>(text).0.unwrap();
    assert_eq!(presence.guild_id, GuildId("1".to_string()));
    assert_eq!(
        presence.user,
        PartialUser {
            id: UserId("5".to_string()),
            username: None,
            discriminator: None,
            avatar: None,
            bot: None,
            mfa_enabled: None,
            locale: None,
            verified: None,
            email: None,
            flags: None,
            premium_type: None,
        }
    );
    assert_eq!(presence.status, Status::Idle);
    assert_eq!(
        presence.activities,
        vec![
            Activity { name: "a".to_string(), activity_type: ActivityType::Game, url: None },
            Activity {
                name: "b".to_string(),
                activity_type: ActivityType::Streaming,
                url: Some("https://example.com".to_string()),
            },
        ]
    );
    assert_eq!(
        presence.client_status,
        ClientStatus {
            desktop: Some(ClientSessionStatus::Online),
            mobile: None,
            web: Some(ClientSessionStatus::Dnd),
        }
    );
    assert_eq!(
        decode::<Presence>(r#"{"guild_id":"1","user":{},"roles":[],"status":"away",
            "activities":[{"name":"a","type":9}],"client_status":{"mobile":"busy"}}"#)
        .1,
        paths(&["user.id", "status", "activities[0].type", "client_status.mobile"])
    );
}

#[test]
fn message_parts_decode() {
    assert_eq!(
        decode::<ChannelMention>(r#"{"id":"1","guild_id":"2","type":5,"name":"news"}"#),
        (
            Some(ChannelMention {
                id: ChannelId("1".to_string()),
                guild_id: GuildId("2".to_string()),
                type_: ChannelType::GuildNews,
                name: "news".to_string(),
            }),
            vec![]
        )
    );
    assert_eq!(
        decode::<MessageActivity>(r#"{"type":1,"party_id":"p"}"#),
        (
            Some(MessageActivity { type_: MessageActivityType::Join, party_id: "p".to_string() }),
            vec![]
        )
    );
    assert_eq!(decode::<MessageActivity>(r#"{"type_":1}"#), (None, paths(&["type", "party_id"])));
}

#[test]
fn channels_inside_a_guild_are_resolved_one_by_one() {
    let guild = r#""id":"1","name":"g","owner":false,"permissions":0,"region":"eu",
        "afk_timeout":60,"verification_level":0,"default_message_notifications":0,
        "explicit_content_filter":0,"roles":[],"emojis":[],"features":["NEWS"],"mfa_level":0,
        "premium_tier":2,"preferred_locale":"en-US""#;
    let rest = r#""joined_at":"2020-01-01T00:00:00Z","large":false,"unavailable":false,
        "member_count":2,"voice_states":[],"members":[],"presences":[]"#;
    let text = format!(
        r#"{{{},{},"channels":[{{"id":"7","type":1}},
            {{"id":"8","type":4,"guild_id":"1","position":0,"name":"c","nsfw":false}}]}}"#,
        guild, rest
    );
    let created = decode::<GuildCreate>(&text).0.unwrap();
    assert_eq!(created.guild.id, GuildId("1".to_string()));
    assert_eq!(created.guild.features, vec![GuildFeatures::News]);
    assert_eq!(created.guild.premium_tier, PremiumTier::Tier2);
    assert_eq!(created.member_count, 2);
    assert_eq!(created.joined_at, Timestamp { seconds: 1577836800, nanos: 0 });
    assert_eq!(created.channels.len(), 2);
    assert!(matches!(created.channels[0], Channel::DM(_)));
    assert!(matches!(created.channels[1], Channel::GuildCategory(_)));
    let text = format!(
        r#"{{{},{},"channels":[{{"id":"7","type":1}},{{"id":"8","type":9}},{{"id":"9"}},
            {{"type":2,"guild_id":"1","name":"v","nsfw":false,"bitrate":1,"user_limit":"x"}}]}}"#,
        guild, rest
    );
    assert_eq!(
        decode::<GuildCreate>(&text),
        (
            None,
            paths(&[
                "channels[1].type",
                "channels[2].type",
                "channels[3].id",
                "channels[3].user_limit",
                "channels[3].position",
            ])
        )
    );
}
