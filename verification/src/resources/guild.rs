use crate::decode::{
    mark, note, note_settles, optional, optional_gaps, optional_keeps, optional_parse,
    optional_step, required, required_gaps, required_keeps, required_parse, required_step,
    settles_start, Decode,
};
use crate::document::Doc;
use crate::path::{field_path, same_text};
use crate::resources::channel::ChannelId;
use crate::resources::emoji::{Emoji, EmojiModel};
use crate::resources::role::{Role, RoleModel};
use serde_json::Value;
use vstd::prelude::*;

verus! {

/// The id of a guild.
#[derive(Clone, Debug, PartialEq, Eq)]
pub struct GuildId(pub String);

impl DeepView for GuildId {
    type V = Seq<char>;

    open spec fn deep_view(&self) -> Seq<char> {
        self.0@
    }
}

impl Decode for GuildId {
    open spec fn parse(doc: Doc) -> Option<Seq<char>> {
        String::parse(doc)
    }

    open spec fn gaps(doc: Doc, at: Seq<char>, found: Seq<Seq<char>>) -> Seq<Seq<char>> {
        String::gaps(doc, at, found)
    }

    open spec fn needs(doc: Doc, key: Seq<char>) -> bool {
        false
    }

    proof fn gaps_law(doc: Doc, at: Seq<char>, found: Seq<Seq<char>>) {
        String::gaps_law(doc, at, found);
    }

    proof fn absent_is_noted(doc: Doc, at: Seq<char>, found: Seq<Seq<char>>, key: Seq<char>) {
    }

    fn decode(value: &Value, at: &str, gaps: &mut Vec<String>) -> (r: Option<Self>) {
        match String::decode(value, at, gaps) {
            Some(token) => Some(GuildId(token)),
            None => None,
        }
    }
}

/// A Discord Guild.
#[derive(Clone, Debug, PartialEq, Eq)]
pub struct Guild {
    /// The id of the guild.
    pub id: GuildId,
    /// The name of the guild.
    ///
    /// (2-1100 characters)
    pub name: String,
    /// Icon hash.
    pub icon: Option<String>,
    /// Splash hash.
    pub splash: Option<String>,
    /// Whether or not the user is the owner of the guild.
    pub owner: bool,
    /// Total permissions for the user in the guild (does not include channel overides).
    pub permissions: u32,
    /// Voice region id for the guild.
    pub region: String,
    /// Id of the AFK channel.
    pub afk_channel_id: Option<ChannelId>,
    /// AFK timeout in seconds.
    pub afk_timeout: u16,
    /// Whether this guild is embeddable (e.g. widget).
    pub embed_enabled: Option<bool>,
    /// The channel id that the widget will generate an invite to.
    pub embed_channel_id: Option<ChannelId>,
    /// Verification level required for the guild.
    pub verification_level: u32,
    /// The default message notification level.
    pub default_message_notifications: DefaultMessageNotificationLevel,
    /// The explicit content filter level.
    pub explicit_content_filter: ExplicitContentFilterLevel,
    /// The roles in the guild.
    pub roles: Vec<Role>,
    /// Custom guild emojis.
    pub emojis: Vec<Emoji>,
    /// Enabled guild features.
    pub features: Vec<GuildFeatures>,
    /// Required MFA level for this guild.
    pub mfa_level: MFALevel,
    /// Application id of the guild creator if it is bot-created.
    pub application_id: Option<String>,
    /// Whether or not the server widget is enabled.
    pub widget_enabled: Option<bool>,
    /// The channel id for the server widget.
    pub widget_channel_id: Option<ChannelId>,
    /// The id of the channel to which system messages are sent.
    pub system_channel_id: Option<ChannelId>,
    /// The maximum amount of presences for the guild.
    ///
    /// The default value is 5000 if `None`.
    pub max_presences: Option<u16>,
    /// The maximum amount of members for the guild.
    pub max_members: Option<u16>,
    /// The vanity url code of the guild.
    pub vanity_url_code: Option<String>,
    /// The description for the guild.
    pub description: Option<String>,
    /// The banner hash.
    pub banner: Option<String>,
    /// Premium tier.
    pub premium_tier: PremiumTier,
    /// The total number of users currently boosting this server.
    pub premium_subscription_count: Option<u16>,
    /// The preferred locale of this guild only set if the guild is `DISCOVERABLE`.
    ///
    /// Defaults to `en-US`.
    pub preferred_locale: String,
}

/// The model of a [`Guild`]: the same fields, each by its model.
pub ghost struct GuildModel {
    pub id: Seq<char>,
    pub name: Seq<char>,
    pub icon: Option<Seq<char>>,
    pub splash: Option<Seq<char>>,
    pub owner: bool,
    pub permissions: u32,
    pub region: Seq<char>,
    pub afk_channel_id: Option<Seq<char>>,
    pub afk_timeout: u16,
    pub embed_enabled: Option<bool>,
    pub embed_channel_id: Option<Seq<char>>,
    pub verification_level: u32,
    pub default_message_notifications: DefaultMessageNotificationLevel,
    pub explicit_content_filter: ExplicitContentFilterLevel,
    pub roles: Seq<RoleModel>,
    pub emojis: Seq<EmojiModel>,
    pub features: Seq<GuildFeatures>,
    pub mfa_level: MFALevel,
    pub application_id: Option<Seq<char>>,
    pub widget_enabled: Option<bool>,
    pub widget_channel_id: Option<Seq<char>>,
    pub system_channel_id: Option<Seq<char>>,
    pub max_presences: Option<u16>,
    pub max_members: Option<u16>,
    pub vanity_url_code: Option<Seq<char>>,
    pub description: Option<Seq<char>>,
    pub banner: Option<Seq<char>>,
    pub premium_tier: PremiumTier,
    pub premium_subscription_count: Option<u16>,
    pub preferred_locale: Seq<char>,
}

impl DeepView for Guild {
    type V = GuildModel;

    open spec fn deep_view(&self) -> GuildModel {
        GuildModel {
            id: self.id.deep_view(),
            name: self.name.deep_view(),
            icon: self.icon.deep_view(),
            splash: self.splash.deep_view(),
            owner: self.owner.deep_view(),
            permissions: self.permissions.deep_view(),
            region: self.region.deep_view(),
            afk_channel_id: self.afk_channel_id.deep_view(),
            afk_timeout: self.afk_timeout.deep_view(),
            embed_enabled: self.embed_enabled.deep_view(),
            embed_channel_id: self.embed_channel_id.deep_view(),
            verification_level: self.verification_level.deep_view(),
            default_message_notifications: self.default_message_notifications.deep_view(),
            explicit_content_filter: self.explicit_content_filter.deep_view(),
            roles: self.roles.deep_view(),
            emojis: self.emojis.deep_view(),
            features: self.features.deep_view(),
            mfa_level: self.mfa_level.deep_view(),
            application_id: self.application_id.deep_view(),
            widget_enabled: self.widget_enabled.deep_view(),
            widget_channel_id: self.widget_channel_id.deep_view(),
            system_channel_id: self.system_channel_id.deep_view(),
            max_presences: self.max_presences.deep_view(),
            max_members: self.max_members.deep_view(),
            vanity_url_code: self.vanity_url_code.deep_view(),
            description: self.description.deep_view(),
            banner: self.banner.deep_view(),
            premium_tier: self.premium_tier.deep_view(),
            premium_subscription_count: self.premium_subscription_count.deep_view(),
            preferred_locale: self.preferred_locale.deep_view(),
        }
    }
}

impl Decode for Guild {
    open spec fn parse(doc: Doc) -> Option<GuildModel> {
        if {
            &&& required_parse::<GuildId>(doc, "id"@) is Some
            &&& required_parse::<String>(doc, "name"@) is Some
            &&& optional_parse::<String>(doc, "icon"@) is Some
            &&& optional_parse::<String>(doc, "splash"@) is Some
            &&& required_parse::<bool>(doc, "owner"@) is Some
            &&& required_parse::<u32>(doc, "permissions"@) is Some
            &&& required_parse::<String>(doc, "region"@) is Some
            &&& optional_parse::<ChannelId>(doc, "afk_channel_id"@) is Some
            &&& required_parse::<u16>(doc, "afk_timeout"@) is Some
            &&& optional_parse::<bool>(doc, "embed_enabled"@) is Some
            &&& optional_parse::<ChannelId>(doc, "embed_channel_id"@) is Some
            &&& required_parse::<u32>(doc, "verification_level"@) is Some
            &&& required_parse::<DefaultMessageNotificationLevel>(
                doc,
                "default_message_notifications"@,
            ) is Some
            &&& required_parse::<ExplicitContentFilterLevel>(
                doc,
                "explicit_content_filter"@,
            ) is Some
            &&& required_parse::<Vec<Role>>(doc, "roles"@) is Some
            &&& required_parse::<Vec<Emoji>>(doc, "emojis"@) is Some
            &&& required_parse::<Vec<GuildFeatures>>(doc, "features"@) is Some
            &&& required_parse::<MFALevel>(doc, "mfa_level"@) is Some
            &&& optional_parse::<String>(doc, "application_id"@) is Some
            &&& optional_parse::<bool>(doc, "widget_enabled"@) is Some
            &&& optional_parse::<ChannelId>(doc, "widget_channel_id"@) is Some
            &&& optional_parse::<ChannelId>(doc, "system_channel_id"@) is Some
            &&& optional_parse::<u16>(doc, "max_presences"@) is Some
            &&& optional_parse::<u16>(doc, "max_members"@) is Some
            &&& optional_parse::<String>(doc, "vanity_url_code"@) is Some
            &&& optional_parse::<String>(doc, "description"@) is Some
            &&& optional_parse::<String>(doc, "banner"@) is Some
            &&& required_parse::<PremiumTier>(doc, "premium_tier"@) is Some
            &&& optional_parse::<u16>(doc, "premium_subscription_count"@) is Some
            &&& required_parse::<String>(doc, "preferred_locale"@) is Some
        } {
            Some(
                GuildModel {
                    id: required_parse::<GuildId>(doc, "id"@).unwrap(),
                    name: required_parse::<String>(doc, "name"@).unwrap(),
                    icon: optional_parse::<String>(doc, "icon"@).unwrap(),
                    splash: optional_parse::<String>(doc, "splash"@).unwrap(),
                    owner: required_parse::<bool>(doc, "owner"@).unwrap(),
                    permissions: required_parse::<u32>(doc, "permissions"@).unwrap(),
                    region: required_parse::<String>(doc, "region"@).unwrap(),
                    afk_channel_id: optional_parse::<ChannelId>(doc, "afk_channel_id"@).unwrap(),
                    afk_timeout: required_parse::<u16>(doc, "afk_timeout"@).unwrap(),
                    embed_enabled: optional_parse::<bool>(doc, "embed_enabled"@).unwrap(),
                    embed_channel_id: optional_parse::<ChannelId>(
                        doc,
                        "embed_channel_id"@,
                    ).unwrap(),
                    verification_level: required_parse::<u32>(doc, "verification_level"@).unwrap(),
                    default_message_notifications: required_parse::<DefaultMessageNotificationLevel>(
                        doc,
                        "default_message_notifications"@,
                    ).unwrap(),
                    explicit_content_filter: required_parse::<ExplicitContentFilterLevel>(
                        doc,
                        "explicit_content_filter"@,
                    ).unwrap(),
                    roles: required_parse::<Vec<Role>>(doc, "roles"@).unwrap(),
                    emojis: required_parse::<Vec<Emoji>>(doc, "emojis"@).unwrap(),
                    features: required_parse::<Vec<GuildFeatures>>(doc, "features"@).unwrap(),
                    mfa_level: required_parse::<MFALevel>(doc, "mfa_level"@).unwrap(),
                    application_id: optional_parse::<String>(doc, "application_id"@).unwrap(),
                    widget_enabled: optional_parse::<bool>(doc, "widget_enabled"@).unwrap(),
                    widget_channel_id: optional_parse::<ChannelId>(
                        doc,
                        "widget_channel_id"@,
                    ).unwrap(),
                    system_channel_id: optional_parse::<ChannelId>(
                        doc,
                        "system_channel_id"@,
                    ).unwrap(),
                    max_presences: optional_parse::<u16>(doc, "max_presences"@).unwrap(),
                    max_members: optional_parse::<u16>(doc, "max_members"@).unwrap(),
                    vanity_url_code: optional_parse::<String>(doc, "vanity_url_code"@).unwrap(),
                    description: optional_parse::<String>(doc, "description"@).unwrap(),
                    banner: optional_parse::<String>(doc, "banner"@).unwrap(),
                    premium_tier: required_parse::<PremiumTier>(doc, "premium_tier"@).unwrap(),
                    premium_subscription_count: optional_parse::<u16>(
                        doc,
                        "premium_subscription_count"@,
                    ).unwrap(),
                    preferred_locale: required_parse::<String>(doc, "preferred_locale"@).unwrap(),
                },
            )
        } else {
            None
        }
    }

    open spec fn gaps(doc: Doc, at: Seq<char>, found: Seq<Seq<char>>) -> Seq<Seq<char>> {
        let found = required_gaps::<GuildId>(doc, "id"@, at, found);
        let found = required_gaps::<String>(doc, "name"@, at, found);
        let found = optional_gaps::<String>(doc, "icon"@, at, found);
        let found = optional_gaps::<String>(doc, "splash"@, at, found);
        let found = required_gaps::<bool>(doc, "owner"@, at, found);
        let found = required_gaps::<u32>(doc, "permissions"@, at, found);
        let found = required_gaps::<String>(doc, "region"@, at, found);
        let found = optional_gaps::<ChannelId>(doc, "afk_channel_id"@, at, found);
        let found = required_gaps::<u16>(doc, "afk_timeout"@, at, found);
        let found = optional_gaps::<bool>(doc, "embed_enabled"@, at, found);
        let found = optional_gaps::<ChannelId>(doc, "embed_channel_id"@, at, found);
        let found = required_gaps::<u32>(doc, "verification_level"@, at, found);
        let found = required_gaps::<DefaultMessageNotificationLevel>(
            doc,
            "default_message_notifications"@,
            at,
            found,
        );
        let found = required_gaps::<ExplicitContentFilterLevel>(
            doc,
            "explicit_content_filter"@,
            at,
            found,
        );
        let found = required_gaps::<Vec<Role>>(doc, "roles"@, at, found);
        let found = required_gaps::<Vec<Emoji>>(doc, "emojis"@, at, found);
        let found = required_gaps::<Vec<GuildFeatures>>(doc, "features"@, at, found);
        let found = required_gaps::<MFALevel>(doc, "mfa_level"@, at, found);
        let found = optional_gaps::<String>(doc, "application_id"@, at, found);
        let found = optional_gaps::<bool>(doc, "widget_enabled"@, at, found);
        let found = optional_gaps::<ChannelId>(doc, "widget_channel_id"@, at, found);
        let found = optional_gaps::<ChannelId>(doc, "system_channel_id"@, at, found);
        let found = optional_gaps::<u16>(doc, "max_presences"@, at, found);
        let found = optional_gaps::<u16>(doc, "max_members"@, at, found);
        let found = optional_gaps::<String>(doc, "vanity_url_code"@, at, found);
        let found = optional_gaps::<String>(doc, "description"@, at, found);
        let found = optional_gaps::<String>(doc, "banner"@, at, found);
        let found = required_gaps::<PremiumTier>(doc, "premium_tier"@, at, found);
        let found = optional_gaps::<u16>(doc, "premium_subscription_count"@, at, found);
        let found = required_gaps::<String>(doc, "preferred_locale"@, at, found);
        found
    }

    open spec fn needs(doc: Doc, key: Seq<char>) -> bool {
        ||| key == "id"@
        ||| key == "name"@
        ||| key == "owner"@
        ||| key == "permissions"@
        ||| key == "region"@
        ||| key == "afk_timeout"@
        ||| key == "verification_level"@
        ||| key == "default_message_notifications"@
        ||| key == "explicit_content_filter"@
        ||| key == "roles"@
        ||| key == "emojis"@
        ||| key == "features"@
        ||| key == "mfa_level"@
        ||| key == "premium_tier"@
        ||| key == "preferred_locale"@
    }

    proof fn gaps_law(doc: Doc, at: Seq<char>, found: Seq<Seq<char>>) {
        let start = found;
        settles_start(start);
        required_step::<GuildId>(doc, "id"@, at, true, start, found);
        let fits = required_parse::<GuildId>(doc, "id"@) is Some;
        let found = required_gaps::<GuildId>(doc, "id"@, at, found);
        required_step::<String>(doc, "name"@, at, fits, start, found);
        let fits = fits && required_parse::<String>(doc, "name"@) is Some;
        let found = required_gaps::<String>(doc, "name"@, at, found);
        optional_step::<String>(doc, "icon"@, at, fits, start, found);
        let fits = fits && optional_parse::<String>(doc, "icon"@) is Some;
        let found = optional_gaps::<String>(doc, "icon"@, at, found);
        optional_step::<String>(doc, "splash"@, at, fits, start, found);
        let fits = fits && optional_parse::<String>(doc, "splash"@) is Some;
        let found = optional_gaps::<String>(doc, "splash"@, at, found);
        required_step::<bool>(doc, "owner"@, at, fits, start, found);
        let fits = fits && required_parse::<bool>(doc, "owner"@) is Some;
        let found = required_gaps::<bool>(doc, "owner"@, at, found);
        required_step::<u32>(doc, "permissions"@, at, fits, start, found);
        let fits = fits && required_parse::<u32>(doc, "permissions"@) is Some;
        let found = required_gaps::<u32>(doc, "permissions"@, at, found);
        required_step::<String>(doc, "region"@, at, fits, start, found);
        let fits = fits && required_parse::<String>(doc, "region"@) is Some;
        let found = required_gaps::<String>(doc, "region"@, at, found);
        optional_step::<ChannelId>(doc, "afk_channel_id"@, at, fits, start, found);
        let fits = fits && optional_parse::<ChannelId>(doc, "afk_channel_id"@) is Some;
        let found = optional_gaps::<ChannelId>(doc, "afk_channel_id"@, at, found);
        required_step::<u16>(doc, "afk_timeout"@, at, fits, start, found);
        let fits = fits && required_parse::<u16>(doc, "afk_timeout"@) is Some;
        let found = required_gaps::<u16>(doc, "afk_timeout"@, at, found);
        optional_step::<bool>(doc, "embed_enabled"@, at, fits, start, found);
        let fits = fits && optional_parse::<bool>(doc, "embed_enabled"@) is Some;
        let found = optional_gaps::<bool>(doc, "embed_enabled"@, at, found);
        optional_step::<ChannelId>(doc, "embed_channel_id"@, at, fits, start, found);
        let fits = fits && optional_parse::<ChannelId>(doc, "embed_channel_id"@) is Some;
        let found = optional_gaps::<ChannelId>(doc, "embed_channel_id"@, at, found);
        required_step::<u32>(doc, "verification_level"@, at, fits, start, found);
        let fits = fits && required_parse::<u32>(doc, "verification_level"@) is Some;
        let found = required_gaps::<u32>(doc, "verification_level"@, at, found);
        required_step::<DefaultMessageNotificationLevel>(
            doc,
            "default_message_notifications"@,
            at,
            fits,
            start,
            found,
        );
        let fits = fits && required_parse::<DefaultMessageNotificationLevel>(
            doc,
            "default_message_notifications"@,
        ) is Some;
        let found = required_gaps::<DefaultMessageNotificationLevel>(
            doc,
            "default_message_notifications"@,
            at,
            found,
        );
        required_step::<ExplicitContentFilterLevel>(
            doc,
            "explicit_content_filter"@,
            at,
            fits,
            start,
            found,
        );
        let fits = fits && required_parse::<ExplicitContentFilterLevel>(
            doc,
            "explicit_content_filter"@,
        ) is Some;
        let found = required_gaps::<ExplicitContentFilterLevel>(
            doc,
            "explicit_content_filter"@,
            at,
            found,
        );
        required_step::<Vec<Role>>(doc, "roles"@, at, fits, start, found);
        let fits = fits && required_parse::<Vec<Role>>(doc, "roles"@) is Some;
        let found = required_gaps::<Vec<Role>>(doc, "roles"@, at, found);
        required_step::<Vec<Emoji>>(doc, "emojis"@, at, fits, start, found);
        let fits = fits && required_parse::<Vec<Emoji>>(doc, "emojis"@) is Some;
        let found = required_gaps::<Vec<Emoji>>(doc, "emojis"@, at, found);
        required_step::<Vec<GuildFeatures>>(doc, "features"@, at, fits, start, found);
        let fits = fits && required_parse::<Vec<GuildFeatures>>(doc, "features"@) is Some;
        let found = required_gaps::<Vec<GuildFeatures>>(doc, "features"@, at, found);
        required_step::<MFALevel>(doc, "mfa_level"@, at, fits, start, found);
        let fits = fits && required_parse::<MFALevel>(doc, "mfa_level"@) is Some;
        let found = required_gaps::<MFALevel>(doc, "mfa_level"@, at, found);
        optional_step::<String>(doc, "application_id"@, at, fits, start, found);
        let fits = fits && optional_parse::<String>(doc, "application_id"@) is Some;
        let found = optional_gaps::<String>(doc, "application_id"@, at, found);
        optional_step::<bool>(doc, "widget_enabled"@, at, fits, start, found);
        let fits = fits && optional_parse::<bool>(doc, "widget_enabled"@) is Some;
        let found = optional_gaps::<bool>(doc, "widget_enabled"@, at, found);
        optional_step::<ChannelId>(doc, "widget_channel_id"@, at, fits, start, found);
        let fits = fits && optional_parse::<ChannelId>(doc, "widget_channel_id"@) is Some;
        let found = optional_gaps::<ChannelId>(doc, "widget_channel_id"@, at, found);
        optional_step::<ChannelId>(doc, "system_channel_id"@, at, fits, start, found);
        let fits = fits && optional_parse::<ChannelId>(doc, "system_channel_id"@) is Some;
        let found = optional_gaps::<ChannelId>(doc, "system_channel_id"@, at, found);
        optional_step::<u16>(doc, "max_presences"@, at, fits, start, found);
        let fits = fits && optional_parse::<u16>(doc, "max_presences"@) is Some;
        let found = optional_gaps::<u16>(doc, "max_presences"@, at, found);
        optional_step::<u16>(doc, "max_members"@, at, fits, start, found);
        let fits = fits && optional_parse::<u16>(doc, "max_members"@) is Some;
        let found = optional_gaps::<u16>(doc, "max_members"@, at, found);
        optional_step::<String>(doc, "vanity_url_code"@, at, fits, start, found);
        let fits = fits && optional_parse::<String>(doc, "vanity_url_code"@) is Some;
        let found = optional_gaps::<String>(doc, "vanity_url_code"@, at, found);
        optional_step::<String>(doc, "description"@, at, fits, start, found);
        let fits = fits && optional_parse::<String>(doc, "description"@) is Some;
        let found = optional_gaps::<String>(doc, "description"@, at, found);
        optional_step::<String>(doc, "banner"@, at, fits, start, found);
        let fits = fits && optional_parse::<String>(doc, "banner"@) is Some;
        let found = optional_gaps::<String>(doc, "banner"@, at, found);
        required_step::<PremiumTier>(doc, "premium_tier"@, at, fits, start, found);
        let fits = fits && required_parse::<PremiumTier>(doc, "premium_tier"@) is Some;
        let found = required_gaps::<PremiumTier>(doc, "premium_tier"@, at, found);
        optional_step::<u16>(doc, "premium_subscription_count"@, at, fits, start, found);
        let fits = fits && optional_parse::<u16>(doc, "premium_subscription_count"@) is Some;
        let found = optional_gaps::<u16>(doc, "premium_subscription_count"@, at, found);
        required_step::<String>(doc, "preferred_locale"@, at, fits, start, found);
    }

    proof fn absent_is_noted(doc: Doc, at: Seq<char>, found: Seq<Seq<char>>, key: Seq<char>) {
        let path = field_path(at, key);
        required_keeps::<GuildId>(doc, "id"@, at, found, path);
        let found = required_gaps::<GuildId>(doc, "id"@, at, found);
        required_keeps::<String>(doc, "name"@, at, found, path);
        let found = required_gaps::<String>(doc, "name"@, at, found);
        optional_keeps::<String>(doc, "icon"@, at, found, path);
        let found = optional_gaps::<String>(doc, "icon"@, at, found);
        optional_keeps::<String>(doc, "splash"@, at, found, path);
        let found = optional_gaps::<String>(doc, "splash"@, at, found);
        required_keeps::<bool>(doc, "owner"@, at, found, path);
        let found = required_gaps::<bool>(doc, "owner"@, at, found);
        required_keeps::<u32>(doc, "permissions"@, at, found, path);
        let found = required_gaps::<u32>(doc, "permissions"@, at, found);
        required_keeps::<String>(doc, "region"@, at, found, path);
        let found = required_gaps::<String>(doc, "region"@, at, found);
        optional_keeps::<ChannelId>(doc, "afk_channel_id"@, at, found, path);
        let found = optional_gaps::<ChannelId>(doc, "afk_channel_id"@, at, found);
        required_keeps::<u16>(doc, "afk_timeout"@, at, found, path);
        let found = required_gaps::<u16>(doc, "afk_timeout"@, at, found);
        optional_keeps::<bool>(doc, "embed_enabled"@, at, found, path);
        let found = optional_gaps::<bool>(doc, "embed_enabled"@, at, found);
        optional_keeps::<ChannelId>(doc, "embed_channel_id"@, at, found, path);
        let found = optional_gaps::<ChannelId>(doc, "embed_channel_id"@, at, found);
        required_keeps::<u32>(doc, "verification_level"@, at, found, path);
        let found = required_gaps::<u32>(doc, "verification_level"@, at, found);
        required_keeps::<DefaultMessageNotificationLevel>(
            doc,
            "default_message_notifications"@,
            at,
            found,
            path,
        );
        let found = required_gaps::<DefaultMessageNotificationLevel>(
            doc,
            "default_message_notifications"@,
            at,
            found,
        );
        required_keeps::<ExplicitContentFilterLevel>(
            doc,
            "explicit_content_filter"@,
            at,
            found,
            path,
        );
        let found = required_gaps::<ExplicitContentFilterLevel>(
            doc,
            "explicit_content_filter"@,
            at,
            found,
        );
        required_keeps::<Vec<Role>>(doc, "roles"@, at, found, path);
        let found = required_gaps::<Vec<Role>>(doc, "roles"@, at, found);
        required_keeps::<Vec<Emoji>>(doc, "emojis"@, at, found, path);
        let found = required_gaps::<Vec<Emoji>>(doc, "emojis"@, at, found);
        required_keeps::<Vec<GuildFeatures>>(doc, "features"@, at, found, path);
        let found = required_gaps::<Vec<GuildFeatures>>(doc, "features"@, at, found);
        required_keeps::<MFALevel>(doc, "mfa_level"@, at, found, path);
        let found = required_gaps::<MFALevel>(doc, "mfa_level"@, at, found);
        optional_keeps::<String>(doc, "application_id"@, at, found, path);
        let found = optional_gaps::<String>(doc, "application_id"@, at, found);
        optional_keeps::<bool>(doc, "widget_enabled"@, at, found, path);
        let found = optional_gaps::<bool>(doc, "widget_enabled"@, at, found);
        optional_keeps::<ChannelId>(doc, "widget_channel_id"@, at, found, path);
        let found = optional_gaps::<ChannelId>(doc, "widget_channel_id"@, at, found);
        optional_keeps::<ChannelId>(doc, "system_channel_id"@, at, found, path);
        let found = optional_gaps::<ChannelId>(doc, "system_channel_id"@, at, found);
        optional_keeps::<u16>(doc, "max_presences"@, at, found, path);
        let found = optional_gaps::<u16>(doc, "max_presences"@, at, found);
        optional_keeps::<u16>(doc, "max_members"@, at, found, path);
        let found = optional_gaps::<u16>(doc, "max_members"@, at, found);
        optional_keeps::<String>(doc, "vanity_url_code"@, at, found, path);
        let found = optional_gaps::<String>(doc, "vanity_url_code"@, at, found);
        optional_keeps::<String>(doc, "description"@, at, found, path);
        let found = optional_gaps::<String>(doc, "description"@, at, found);
        optional_keeps::<String>(doc, "banner"@, at, found, path);
        let found = optional_gaps::<String>(doc, "banner"@, at, found);
        required_keeps::<PremiumTier>(doc, "premium_tier"@, at, found, path);
        let found = required_gaps::<PremiumTier>(doc, "premium_tier"@, at, found);
        optional_keeps::<u16>(doc, "premium_subscription_count"@, at, found, path);
        let found = optional_gaps::<u16>(doc, "premium_subscription_count"@, at, found);
        required_keeps::<String>(doc, "preferred_locale"@, at, found, path);
    }

    fn decode(raw: &Value, at: &str, gaps: &mut Vec<String>) -> (r: Option<Self>) {
        let id = required::<GuildId>(raw, "id", at, gaps);
        let name = required::<String>(raw, "name", at, gaps);
        let icon = optional::<String>(raw, "icon", at, gaps);
        let splash = optional::<String>(raw, "splash", at, gaps);
        let owner = required::<bool>(raw, "owner", at, gaps);
        let permissions = required::<u32>(raw, "permissions", at, gaps);
        let region = required::<String>(raw, "region", at, gaps);
        let afk_channel_id = optional::<ChannelId>(raw, "afk_channel_id", at, gaps);
        let afk_timeout = required::<u16>(raw, "afk_timeout", at, gaps);
        let embed_enabled = optional::<bool>(raw, "embed_enabled", at, gaps);
        let embed_channel_id = optional::<ChannelId>(raw, "embed_channel_id", at, gaps);
        let verification_level = required::<u32>(raw, "verification_level", at, gaps);
        let default_message_notifications = required::<DefaultMessageNotificationLevel>(
            raw,
            "default_message_notifications",
            at,
            gaps,
        );
        let explicit_content_filter = required::<ExplicitContentFilterLevel>(
            raw,
            "explicit_content_filter",
            at,
            gaps,
        );
        let roles = required::<Vec<Role>>(raw, "roles", at, gaps);
        let emojis = required::<Vec<Emoji>>(raw, "emojis", at, gaps);
        let features = required::<Vec<GuildFeatures>>(raw, "features", at, gaps);
        let mfa_level = required::<MFALevel>(raw, "mfa_level", at, gaps);
        let application_id = optional::<String>(raw, "application_id", at, gaps);
        let widget_enabled = optional::<bool>(raw, "widget_enabled", at, gaps);
        let widget_channel_id = optional::<ChannelId>(raw, "widget_channel_id", at, gaps);
        let system_channel_id = optional::<ChannelId>(raw, "system_channel_id", at, gaps);
        let max_presences = optional::<u16>(raw, "max_presences", at, gaps);
        let max_members = optional::<u16>(raw, "max_members", at, gaps);
        let vanity_url_code = optional::<String>(raw, "vanity_url_code", at, gaps);
        let description = optional::<String>(raw, "description", at, gaps);
        let banner = optional::<String>(raw, "banner", at, gaps);
        let premium_tier = required::<PremiumTier>(raw, "premium_tier", at, gaps);
        let premium_subscription_count = optional::<u16>(
            raw,
            "premium_subscription_count",
            at,
            gaps,
        );
        let preferred_locale = required::<String>(raw, "preferred_locale", at, gaps);
        if id.is_some()
            && name.is_some()
            && icon.is_some()
            && splash.is_some()
            && owner.is_some()
            && permissions.is_some()
            && region.is_some()
            && afk_channel_id.is_some()
            && afk_timeout.is_some()
            && embed_enabled.is_some()
            && embed_channel_id.is_some()
            && verification_level.is_some()
            && default_message_notifications.is_some()
            && explicit_content_filter.is_some()
            && roles.is_some()
            && emojis.is_some()
            && features.is_some()
            && mfa_level.is_some()
            && application_id.is_some()
            && widget_enabled.is_some()
            && widget_channel_id.is_some()
            && system_channel_id.is_some()
            && max_presences.is_some()
            && max_members.is_some()
            && vanity_url_code.is_some()
            && description.is_some()
            && banner.is_some()
            && premium_tier.is_some()
            && premium_subscription_count.is_some()
            && preferred_locale.is_some() {
            Some(
                Guild {
                    id: id.unwrap(),
                    name: name.unwrap(),
                    icon: icon.unwrap(),
                    splash: splash.unwrap(),
                    owner: owner.unwrap(),
                    permissions: permissions.unwrap(),
                    region: region.unwrap(),
                    afk_channel_id: afk_channel_id.unwrap(),
                    afk_timeout: afk_timeout.unwrap(),
                    embed_enabled: embed_enabled.unwrap(),
                    embed_channel_id: embed_channel_id.unwrap(),
                    verification_level: verification_level.unwrap(),
                    default_message_notifications: default_message_notifications.unwrap(),
                    explicit_content_filter: explicit_content_filter.unwrap(),
                    roles: roles.unwrap(),
                    emojis: emojis.unwrap(),
                    features: features.unwrap(),
                    mfa_level: mfa_level.unwrap(),
                    application_id: application_id.unwrap(),
                    widget_enabled: widget_enabled.unwrap(),
                    widget_channel_id: widget_channel_id.unwrap(),
                    system_channel_id: system_channel_id.unwrap(),
                    max_presences: max_presences.unwrap(),
                    max_members: max_members.unwrap(),
                    vanity_url_code: vanity_url_code.unwrap(),
                    description: description.unwrap(),
                    banner: banner.unwrap(),
                    premium_tier: premium_tier.unwrap(),
                    premium_subscription_count: premium_subscription_count.unwrap(),
                    preferred_locale: preferred_locale.unwrap(),
                },
            )
        } else {
            None
        }
    }
}

/// Which messages members are notified of by default.
#[derive(Clone, Copy, Debug, PartialEq, Eq)]
pub enum DefaultMessageNotificationLevel {
    /// Every message.
    AllMessages,
    /// Only messages that mention the member.
    OnlyMentions,
}

impl DefaultMessageNotificationLevel {
    /// The variant that the wire code `code` stands for, if it stands for one.
    pub open spec fn of_code(code: u64) -> Option<DefaultMessageNotificationLevel> {
        if code == 0 {
            Some(DefaultMessageNotificationLevel::AllMessages)
        } else if code == 1 {
            Some(DefaultMessageNotificationLevel::OnlyMentions)
        } else {
            None
        }
    }

    /// The wire code of this variant.
    pub open spec fn spec_code(self) -> u8 {
        match self {
            DefaultMessageNotificationLevel::AllMessages => 0,
            DefaultMessageNotificationLevel::OnlyMentions => 1,
        }
    }

    /// Finds the variant that the wire code `code` stands for.
    pub fn from_code(code: u64) -> (r: Option<DefaultMessageNotificationLevel>)
        ensures
            r == Self::of_code(code),
    {
        if code == 0 {
            Some(DefaultMessageNotificationLevel::AllMessages)
        } else if code == 1 {
            Some(DefaultMessageNotificationLevel::OnlyMentions)
        } else {
            None
        }
    }

    /// The wire code of this variant.
    #[verifier::when_used_as_spec(spec_code)]
    pub fn code(self) -> (r: u8)
        ensures
            r == self.spec_code(),
            Self::of_code(r as u64) == Some(self),
    {
        match self {
            DefaultMessageNotificationLevel::AllMessages => 0,
            DefaultMessageNotificationLevel::OnlyMentions => 1,
        }
    }
}

impl DeepView for DefaultMessageNotificationLevel {
    type V = DefaultMessageNotificationLevel;

    open spec fn deep_view(&self) -> DefaultMessageNotificationLevel {
        *self
    }
}

impl Decode for DefaultMessageNotificationLevel {
    open spec fn parse(doc: Doc) -> Option<DefaultMessageNotificationLevel> {
        match doc {
            Doc::Unsigned(code) => Self::of_code(code),
            _ => None,
        }
    }

    open spec fn gaps(doc: Doc, at: Seq<char>, found: Seq<Seq<char>>) -> Seq<Seq<char>> {
        note(Self::parse(doc) is Some, at, found)
    }

    open spec fn needs(doc: Doc, key: Seq<char>) -> bool {
        false
    }

    proof fn gaps_law(doc: Doc, at: Seq<char>, found: Seq<Seq<char>>) {
        note_settles(Self::parse(doc) is Some, at, found);
    }

    proof fn absent_is_noted(doc: Doc, at: Seq<char>, found: Seq<Seq<char>>, key: Seq<char>) {
    }

    fn decode(value: &Value, at: &str, gaps: &mut Vec<String>) -> (r: Option<Self>) {
        let found = match value.as_u64() {
            Some(code) => Self::from_code(code),
            None => None,
        };
        if found.is_none() {
            mark(gaps, at.to_owned());
        }
        found
    }
}

/// An enabled guild feature.
#[derive(Clone, Copy, Debug, PartialEq, Eq)]
pub enum GuildFeatures {
    /// Guild has access to set an invite splash background.
    InviteSplash,
    /// Guild has access to set 384kbps bitrate in voice (previously VIP voice servers).
    VipRegions,
    /// Guild has access to set a vanity URL.
    VanityUrl,
    /// Guild is verified.
    Verified,
    /// Guild is partnered.
    Partnered,
    /// Guild is public.
    Public,
    /// Guild has access to use commerce features (i.e. create store channels).
    Commerce,
    /// Guild has access to create news channels.
    News,
    /// Guild is able to be discovered in the directory.
    Discoverable,
    /// Guild is able to be featured in the directory.
    Featurable,
    /// Guild has access to set an animated guild icon.
    AnimatedIcon,
    /// Guild has access to set a guild build banner image.
    Banner,
}

impl GuildFeatures {
    /// The variant that the wire name `name` stands for, if it stands for one.
    /// Names are matched exactly.
    pub open spec fn of_name(name: Seq<char>) -> Option<GuildFeatures> {
        if name == "INVITE_SPLASH"@ {
            Some(GuildFeatures::InviteSplash)
        } else if name == "VIP_REGIONS"@ {
            Some(GuildFeatures::VipRegions)
        } else if name == "VANITY_URL"@ {
            Some(GuildFeatures::VanityUrl)
        } else if name == "VERIFIED"@ {
            Some(GuildFeatures::Verified)
        } else if name == "PARTNERED"@ {
            Some(GuildFeatures::Partnered)
        } else if name == "PUBLIC"@ {
            Some(GuildFeatures::Public)
        } else if name == "COMMERCE"@ {
            Some(GuildFeatures::Commerce)
        } else if name == "NEWS"@ {
            Some(GuildFeatures::News)
        } else if name == "DISCOVERABLE"@ {
            Some(GuildFeatures::Discoverable)
        } else if name == "FEATURABLE"@ {
            Some(GuildFeatures::Featurable)
        } else if name == "ANIMATED_ICON"@ {
            Some(GuildFeatures::AnimatedIcon)
        } else if name == "BANNER"@ {
            Some(GuildFeatures::Banner)
        } else {
            None
        }
    }

    /// The wire name of this variant.
    pub open spec fn spec_name(self) -> Seq<char> {
        match self {
            GuildFeatures::InviteSplash => "INVITE_SPLASH"@,
            GuildFeatures::VipRegions => "VIP_REGIONS"@,
            GuildFeatures::VanityUrl => "VANITY_URL"@,
            GuildFeatures::Verified => "VERIFIED"@,
            GuildFeatures::Partnered => "PARTNERED"@,
            GuildFeatures::Public => "PUBLIC"@,
            GuildFeatures::Commerce => "COMMERCE"@,
            GuildFeatures::News => "NEWS"@,
            GuildFeatures::Discoverable => "DISCOVERABLE"@,
            GuildFeatures::Featurable => "FEATURABLE"@,
            GuildFeatures::AnimatedIcon => "ANIMATED_ICON"@,
            GuildFeatures::Banner => "BANNER"@,
        }
    }

    /// Finds the variant that the wire name `name` stands for.
    pub fn from_name(name: &str) -> (r: Option<GuildFeatures>)
        ensures
            r == Self::of_name(name@),
    {
        if same_text(name, "INVITE_SPLASH") {
            Some(GuildFeatures::InviteSplash)
        } else if same_text(name, "VIP_REGIONS") {
            Some(GuildFeatures::VipRegions)
        } else if same_text(name, "VANITY_URL") {
            Some(GuildFeatures::VanityUrl)
        } else if same_text(name, "VERIFIED") {
            Some(GuildFeatures::Verified)
        } else if same_text(name, "PARTNERED") {
            Some(GuildFeatures::Partnered)
        } else if same_text(name, "PUBLIC") {
            Some(GuildFeatures::Public)
        } else if same_text(name, "COMMERCE") {
            Some(GuildFeatures::Commerce)
        } else if same_text(name, "NEWS") {
            Some(GuildFeatures::News)
        } else if same_text(name, "DISCOVERABLE") {
            Some(GuildFeatures::Discoverable)
        } else if same_text(name, "FEATURABLE") {
            Some(GuildFeatures::Featurable)
        } else if same_text(name, "ANIMATED_ICON") {
            Some(GuildFeatures::AnimatedIcon)
        } else if same_text(name, "BANNER") {
            Some(GuildFeatures::Banner)
        } else {
            None
        }
    }

    /// The wire name of this variant.
    pub fn name(self) -> (r: &'static str)
        ensures
            r@ == self.spec_name(),
    {
        match self {
            GuildFeatures::InviteSplash => "INVITE_SPLASH",
            GuildFeatures::VipRegions => "VIP_REGIONS",
            GuildFeatures::VanityUrl => "VANITY_URL",
            GuildFeatures::Verified => "VERIFIED",
            GuildFeatures::Partnered => "PARTNERED",
            GuildFeatures::Public => "PUBLIC",
            GuildFeatures::Commerce => "COMMERCE",
            GuildFeatures::News => "NEWS",
            GuildFeatures::Discoverable => "DISCOVERABLE",
            GuildFeatures::Featurable => "FEATURABLE",
            GuildFeatures::AnimatedIcon => "ANIMATED_ICON",
            GuildFeatures::Banner => "BANNER",
        }
    }
}

impl DeepView for GuildFeatures {
    type V = GuildFeatures;

    open spec fn deep_view(&self) -> GuildFeatures {
        *self
    }
}

impl Decode for GuildFeatures {
    open spec fn parse(doc: Doc) -> Option<GuildFeatures> {
        match doc {
            Doc::Text(name) => Self::of_name(name),
            _ => None,
        }
    }

    open spec fn gaps(doc: Doc, at: Seq<char>, found: Seq<Seq<char>>) -> Seq<Seq<char>> {
        note(Self::parse(doc) is Some, at, found)
    }

    open spec fn needs(doc: Doc, key: Seq<char>) -> bool {
        false
    }

    proof fn gaps_law(doc: Doc, at: Seq<char>, found: Seq<Seq<char>>) {
        note_settles(Self::parse(doc) is Some, at, found);
    }

    proof fn absent_is_noted(doc: Doc, at: Seq<char>, found: Seq<Seq<char>>, key: Seq<char>) {
    }

    fn decode(value: &Value, at: &str, gaps: &mut Vec<String>) -> (r: Option<Self>) {
        let found = match value.as_str() {
            Some(name) => Self::from_name(name),
            None => None,
        };
        if found.is_none() {
            mark(gaps, at.to_owned());
        }
        found
    }
}

/// Whose messages are scanned for explicit content.
#[derive(Clone, Copy, Debug, PartialEq, Eq)]
pub enum ExplicitContentFilterLevel {
    /// Nobody's.
    Disabled,
    /// Those of members without a role.
    MembersWithoutRoles,
    /// Everybody's.
    AllMembers,
}

impl ExplicitContentFilterLevel {
    /// The variant that the wire code `code` stands for, if it stands for one.
    pub open spec fn of_code(code: u64) -> Option<ExplicitContentFilterLevel> {
        if code == 0 {
            Some(ExplicitContentFilterLevel::Disabled)
        } else if code == 1 {
            Some(ExplicitContentFilterLevel::MembersWithoutRoles)
        } else if code == 2 {
            Some(ExplicitContentFilterLevel::AllMembers)
        } else {
            None
        }
    }

    /// The wire code of this variant.
    pub open spec fn spec_code(self) -> u8 {
        match self {
            ExplicitContentFilterLevel::Disabled => 0,
            ExplicitContentFilterLevel::MembersWithoutRoles => 1,
            ExplicitContentFilterLevel::AllMembers => 2,
        }
    }

    /// Finds the variant that the wire code `code` stands for.
    pub fn from_code(code: u64) -> (r: Option<ExplicitContentFilterLevel>)
        ensures
            r == Self::of_code(code),
    {
        if code == 0 {
            Some(ExplicitContentFilterLevel::Disabled)
        } else if code == 1 {
            Some(ExplicitContentFilterLevel::MembersWithoutRoles)
        } else if code == 2 {
            Some(ExplicitContentFilterLevel::AllMembers)
        } else {
            None
        }
    }

    /// The wire code of this variant.
    #[verifier::when_used_as_spec(spec_code)]
    pub fn code(self) -> (r: u8)
        ensures
            r == self.spec_code(),
            Self::of_code(r as u64) == Some(self),
    {
        match self {
            ExplicitContentFilterLevel::Disabled => 0,
            ExplicitContentFilterLevel::MembersWithoutRoles => 1,
            ExplicitContentFilterLevel::AllMembers => 2,
        }
    }
}

impl DeepView for ExplicitContentFilterLevel {
    type V = ExplicitContentFilterLevel;

    open spec fn deep_view(&self) -> ExplicitContentFilterLevel {
        *self
    }
}

impl Decode for ExplicitContentFilterLevel {
    open spec fn parse(doc: Doc) -> Option<ExplicitContentFilterLevel> {
        match doc {
            Doc::Unsigned(code) => Self::of_code(code),
            _ => None,
        }
    }

    open spec fn gaps(doc: Doc, at: Seq<char>, found: Seq<Seq<char>>) -> Seq<Seq<char>> {
        note(Self::parse(doc) is Some, at, found)
    }

    open spec fn needs(doc: Doc, key: Seq<char>) -> bool {
        false
    }

    proof fn gaps_law(doc: Doc, at: Seq<char>, found: Seq<Seq<char>>) {
        note_settles(Self::parse(doc) is Some, at, found);
    }

    proof fn absent_is_noted(doc: Doc, at: Seq<char>, found: Seq<Seq<char>>, key: Seq<char>) {
    }

    fn decode(value: &Value, at: &str, gaps: &mut Vec<String>) -> (r: Option<Self>) {
        let found = match value.as_u64() {
            Some(code) => Self::from_code(code),
            None => None,
        };
        if found.is_none() {
            mark(gaps, at.to_owned());
        }
        found
    }
}

/// Whether moderators need two factor authentication.
#[derive(Clone, Copy, Debug, PartialEq, Eq)]
pub enum MFALevel {
    /// Not needed.
    Off,
    /// Needed.
    Elevated,
}

impl MFALevel {
    /// The variant that the wire code `code` stands for, if it stands for one.
    pub open spec fn of_code(code: u64) -> Option<MFALevel> {
        if code == 0 {
            Some(MFALevel::Off)
        } else if code == 1 {
            Some(MFALevel::Elevated)
        } else {
            None
        }
    }

    /// The wire code of this variant.
    pub open spec fn spec_code(self) -> u8 {
        match self {
            MFALevel::Off => 0,
            MFALevel::Elevated => 1,
        }
    }

    /// Finds the variant that the wire code `code` stands for.
    pub fn from_code(code: u64) -> (r: Option<MFALevel>)
        ensures
            r == Self::of_code(code),
    {
        if code == 0 {
            Some(MFALevel::Off)
        } else if code == 1 {
            Some(MFALevel::Elevated)
        } else {
            None
        }
    }

    /// The wire code of this variant.
    #[verifier::when_used_as_spec(spec_code)]
    pub fn code(self) -> (r: u8)
        ensures
            r == self.spec_code(),
            Self::of_code(r as u64) == Some(self),
    {
        match self {
            MFALevel::Off => 0,
            MFALevel::Elevated => 1,
        }
    }
}

impl DeepView for MFALevel {
    type V = MFALevel;

    open spec fn deep_view(&self) -> MFALevel {
        *self
    }
}

impl Decode for MFALevel {
    open spec fn parse(doc: Doc) -> Option<MFALevel> {
        match doc {
            Doc::Unsigned(code) => Self::of_code(code),
            _ => None,
        }
    }

    open spec fn gaps(doc: Doc, at: Seq<char>, found: Seq<Seq<char>>) -> Seq<Seq<char>> {
        note(Self::parse(doc) is Some, at, found)
    }

    open spec fn needs(doc: Doc, key: Seq<char>) -> bool {
        false
    }

    proof fn gaps_law(doc: Doc, at: Seq<char>, found: Seq<Seq<char>>) {
        note_settles(Self::parse(doc) is Some, at, found);
    }

    proof fn absent_is_noted(doc: Doc, at: Seq<char>, found: Seq<Seq<char>>, key: Seq<char>) {
    }

    fn decode(value: &Value, at: &str, gaps: &mut Vec<String>) -> (r: Option<Self>) {
        let found = match value.as_u64() {
            Some(code) => Self::from_code(code),
            None => None,
        };
        if found.is_none() {
            mark(gaps, at.to_owned());
        }
        found
    }
}

/// The boost level of a guild.
#[derive(Clone, Copy, Debug, PartialEq, Eq)]
pub enum PremiumTier {
    /// Not boosted.
    Tier0,
    /// First level.
    Tier1,
    /// Second level.
    Tier2,
    /// Third level.
    Tier3,
}

impl PremiumTier {
    /// The variant that the wire code `code` stands for, if it stands for one.
    pub open spec fn of_code(code: u64) -> Option<PremiumTier> {
        if code == 0 {
            Some(PremiumTier::Tier0)
        } else if code == 1 {
            Some(PremiumTier::Tier1)
        } else if code == 2 {
            Some(PremiumTier::Tier2)
        } else if code == 3 {
            Some(PremiumTier::Tier3)
        } else {
            None
        }
    }

    /// The wire code of this variant.
    pub open spec fn spec_code(self) -> u8 {
        match self {
            PremiumTier::Tier0 => 0,
            PremiumTier::Tier1 => 1,
            PremiumTier::Tier2 => 2,
            PremiumTier::Tier3 => 3,
        }
    }

    /// Finds the variant that the wire code `code` stands for.
    pub fn from_code(code: u64) -> (r: Option<PremiumTier>)
        ensures
            r == Self::of_code(code),
    {
        if code == 0 {
            Some(PremiumTier::Tier0)
        } else if code == 1 {
            Some(PremiumTier::Tier1)
        } else if code == 2 {
            Some(PremiumTier::Tier2)
        } else if code == 3 {
            Some(PremiumTier::Tier3)
        } else {
            None
        }
    }

    /// The wire code of this variant.
    #[verifier::when_used_as_spec(spec_code)]
    pub fn code(self) -> (r: u8)
        ensures
            r == self.spec_code(),
            Self::of_code(r as u64) == Some(self),
    {
        match self {
            PremiumTier::Tier0 => 0,
            PremiumTier::Tier1 => 1,
            PremiumTier::Tier2 => 2,
            PremiumTier::Tier3 => 3,
        }
    }
}

impl DeepView for PremiumTier {
    type V = PremiumTier;

    open spec fn deep_view(&self) -> PremiumTier {
        *self
    }
}

impl Decode for PremiumTier {
    open spec fn parse(doc: Doc) -> Option<PremiumTier> {
        match doc {
            Doc::Unsigned(code) => Self::of_code(code),
            _ => None,
        }
    }

    open spec fn gaps(doc: Doc, at: Seq<char>, found: Seq<Seq<char>>) -> Seq<Seq<char>> {
        note(Self::parse(doc) is Some, at, found)
    }

    open spec fn needs(doc: Doc, key: Seq<char>) -> bool {
        false
    }

    proof fn gaps_law(doc: Doc, at: Seq<char>, found: Seq<Seq<char>>) {
        note_settles(Self::parse(doc) is Some, at, found);
    }

    proof fn absent_is_noted(doc: Doc, at: Seq<char>, found: Seq<Seq<char>>, key: Seq<char>) {
    }

    fn decode(value: &Value, at: &str, gaps: &mut Vec<String>) -> (r: Option<Self>) {
        let found = match value.as_u64() {
            Some(code) => Self::from_code(code),
            None => None,
        };
        if found.is_none() {
            mark(gaps, at.to_owned());
        }
        found
    }
}

} // verus!
