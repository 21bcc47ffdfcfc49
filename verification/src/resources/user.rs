use crate::decode::{
    mark, note, note_settles, optional, optional_gaps, optional_keeps, optional_parse,
    optional_step, required, required_gaps, required_keeps, required_parse, required_step,
    settles_start, Decode,
};
use crate::document::Doc;
use crate::path::field_path;
use serde_json::Value;
use vstd::prelude::*;

verus! {

/// Id snowflake of a User.
#[derive(Clone, Debug, PartialEq, Eq)]
pub struct UserId(pub String);

impl DeepView for UserId {
    type V = Seq<char>;

    open spec fn deep_view(&self) -> Seq<char> {
        self.0@
    }
}

impl Decode for UserId {
    open spec fn parse(doc: Doc) -> Option<Seq<char>> {
        String::parse(doc)
    }

    open spec fn gaps(doc: Doc, at: Seq<char>, found: Seq<Seq<char>>) -> Seq<Seq<char>> {
        String::gaps(doc, at, found)
    }

    open spec fn needs(doc: Doc, key: Seq<char>) -> bool {
        false
    }

    proof fn gaps_law(doc: Doc, at: Seq<char>, found: Seq<Seq<char>>) {
        String::gaps_law(doc, at, found);
    }

    proof fn absent_is_noted(doc: Doc, at: Seq<char>, found: Seq<Seq<char>>, key: Seq<char>) {
    }

    fn decode(value: &Value, at: &str, gaps: &mut Vec<String>) -> (r: Option<Self>) {
        match String::decode(value, at, gaps) {
            Some(token) => Some(UserId(token)),
            None => None,
        }
    }
}

/// A Discord User.
#[derive(Clone, Debug, PartialEq, Eq)]
pub struct User {
    /// The user's id.
    pub id: UserId,
    /// The user's username.
    ///
    /// This is not unique.
    pub username: String,
    /// The user's 4-digit discord tag.
    pub discriminator: String,
    /// The user's avatar hash.
    pub avatar: Option<String>,
    /// Whether the user belongs to an OAuth2 application.
    pub bot: Option<bool>,
    /// Whether the account has two factor authentication enabled on their account.
    pub mfa_enabled: Option<bool>,
    /// The user's chosen language option.
    pub locale: Option<String>,
    /// Whether the email on this account has been verified.
    pub verified: Option<bool>,
    /// The user's email.
    pub email: Option<String>,
    /// The flags on a user's account.
    pub flags: Option<u32>,
    /// The type of nitro subscription on a user's account.
    pub premium_type: Option<PremiumType>,
}

/// The model of a [`User`]: the same fields, each by its model.
pub ghost struct UserModel {
    pub id: Seq<char>,
    pub username: Seq<char>,
    pub discriminator: Seq<char>,
    pub avatar: Option<Seq<char>>,
    pub bot: Option<bool>,
    pub mfa_enabled: Option<bool>,
    pub locale: Option<Seq<char>>,
    pub verified: Option<bool>,
    pub email: Option<Seq<char>>,
    pub flags: Option<u32>,
    pub premium_type: Option<PremiumType>,
}

impl DeepView for User {
    type V = UserModel;

    open spec fn deep_view(&self) -> UserModel {
        UserModel {
            id: self.id.deep_view(),
            username: self.username.deep_view(),
            discriminator: self.discriminator.deep_view(),
            avatar: self.avatar.deep_view(),
            bot: self.bot.deep_view(),
            mfa_enabled: self.mfa_enabled.deep_view(),
            locale: self.locale.deep_view(),
            verified: self.verified.deep_view(),
            email: self.email.deep_view(),
            flags: self.flags.deep_view(),
            premium_type: self.premium_type.deep_view(),
        }
    }
}

impl Decode for User {
    open spec fn parse(doc: Doc) -> Option<UserModel> {
        if {
            &&& required_parse::<UserId>(doc, "id"@) is Some
            &&& required_parse::<String>(doc, "username"@) is Some
            &&& required_parse::<String>(doc, "discriminator"@) is Some
            &&& optional_parse::<String>(doc, "avatar"@) is Some
            &&& optional_parse::<bool>(doc, "bot"@) is Some
            &&& optional_parse::<bool>(doc, "mfa_enabled"@) is Some
            &&& optional_parse::<String>(doc, "locale"@) is Some
            &&& optional_parse::<bool>(doc, "verified"@) is Some
            &&& optional_parse::<String>(doc, "email"@) is Some
            &&& optional_parse::<u32>(doc, "flags"@) is Some
            &&& optional_parse::<PremiumType>(doc, "premium_type"@) is Some
        } {
            Some(
                UserModel {
                    id: required_parse::<UserId>(doc, "id"@).unwrap(),
                    username: required_parse::<String>(doc, "username"@).unwrap(),
                    discriminator: required_parse::<String>(doc, "discriminator"@).unwrap(),
                    avatar: optional_parse::<String>(doc, "avatar"@).unwrap(),
                    bot: optional_parse::<bool>(doc, "bot"@).unwrap(),
                    mfa_enabled: optional_parse::<bool>(doc, "mfa_enabled"@).unwrap(),
                    locale: optional_parse::<String>(doc, "locale"@).unwrap(),
                    verified: optional_parse::<bool>(doc, "verified"@).unwrap(),
                    email: optional_parse::<String>(doc, "email"@).unwrap(),
                    flags: optional_parse::<u32>(doc, "flags"@).unwrap(),
                    premium_type: optional_parse::<PremiumType>(doc, "premium_type"@).unwrap(),
                },
            )
        } else {
            None
        }
    }

    open spec fn gaps(doc: Doc, at: Seq<char>, found: Seq<Seq<char>>) -> Seq<Seq<char>> {
        let found = required_gaps::<UserId>(doc, "id"@, at, found);
        let found = required_gaps::<String>(doc, "username"@, at, found);
        let found = required_gaps::<String>(doc, "discriminator"@, at, found);
        let found = optional_gaps::<String>(doc, "avatar"@, at, found);
        let found = optional_gaps::<bool>(doc, "bot"@, at, found);
        let found = optional_gaps::<bool>(doc, "mfa_enabled"@, at, found);
        let found = optional_gaps::<String>(doc, "locale"@, at, found);
        let found = optional_gaps::<bool>(doc, "verified"@, at, found);
        let found = optional_gaps::<String>(doc, "email"@, at, found);
        let found = optional_gaps::<u32>(doc, "flags"@, at, found);
        let found = optional_gaps::<PremiumType>(doc, "premium_type"@, at, found);
        found
    }

    open spec fn needs(doc: Doc, key: Seq<char>) -> bool {
        ||| key == "id"@
        ||| key == "username"@
        ||| key == "discriminator"@
    }

    proof fn gaps_law(doc: Doc, at: Seq<char>, found: Seq<Seq<char>>) {
        let start = found;
        settles_start(start);
        required_step::<UserId>(doc, "id"@, at, true, start, found);
        let fits = required_parse::<UserId>(doc, "id"@) is Some;
        let found = required_gaps::<UserId>(doc, "id"@, at, found);
        required_step::<String>(doc, "username"@, at, fits, start, found);
        let fits = fits && required_parse::<String>(doc, "username"@) is Some;
        let found = required_gaps::<String>(doc, "username"@, at, found);
        required_step::<String>(doc, "discriminator"@, at, fits, start, found);
        let fits = fits && required_parse::<String>(doc, "discriminator"@) is Some;
        let found = required_gaps::<String>(doc, "discriminator"@, at, found);
        optional_step::<String>(doc, "avatar"@, at, fits, start, found);
        let fits = fits && optional_parse::<String>(doc, "avatar"@) is Some;
        let found = optional_gaps::<String>(doc, "avatar"@, at, found);
        optional_step::<bool>(doc, "bot"@, at, fits, start, found);
        let fits = fits && optional_parse::<bool>(doc, "bot"@) is Some;
        let found = optional_gaps::<bool>(doc, "bot"@, at, found);
        optional_step::<bool>(doc, "mfa_enabled"@, at, fits, start, found);
        let fits = fits && optional_parse::<bool>(doc, "mfa_enabled"@) is Some;
        let found = optional_gaps::<bool>(doc, "mfa_enabled"@, at, found);
        optional_step::<String>(doc, "locale"@, at, fits, start, found);
        let fits = fits && optional_parse::<String>(doc, "locale"@) is Some;
        let found = optional_gaps::<String>(doc, "locale"@, at, found);
        optional_step::<bool>(doc, "verified"@, at, fits, start, found);
        let fits = fits && optional_parse::<bool>(doc, "verified"@) is Some;
        let found = optional_gaps::<bool>(doc, "verified"@, at, found);
        optional_step::<String>(doc, "email"@, at, fits, start, found);
        let fits = fits && optional_parse::<String>(doc, "email"@) is Some;
        let found = optional_gaps::<String>(doc, "email"@, at, found);
        optional_step::<u32>(doc, "flags"@, at, fits, start, found);
        let fits = fits && optional_parse::<u32>(doc, "flags"@) is Some;
        let found = optional_gaps::<u32>(doc, "flags"@, at, found);
        optional_step::<PremiumType>(doc, "premium_type"@, at, fits, start, found);
    }

    proof fn absent_is_noted(doc: Doc, at: Seq<char>, found: Seq<Seq<char>>, key: Seq<char>) {
        let path = field_path(at, key);
        required_keeps::<UserId>(doc, "id"@, at, found, path);
        let found = required_gaps::<UserId>(doc, "id"@, at, found);
        required_keeps::<String>(doc, "username"@, at, found, path);
        let found = required_gaps::<String>(doc, "username"@, at, found);
        required_keeps::<String>(doc, "discriminator"@, at, found, path);
        let found = required_gaps::<String>(doc, "discriminator"@, at, found);
        optional_keeps::<String>(doc, "avatar"@, at, found, path);
        let found = optional_gaps::<String>(doc, "avatar"@, at, found);
        optional_keeps::<bool>(doc, "bot"@, at, found, path);
        let found = optional_gaps::<bool>(doc, "bot"@, at, found);
        optional_keeps::<bool>(doc, "mfa_enabled"@, at, found, path);
        let found = optional_gaps::<bool>(doc, "mfa_enabled"@, at, found);
        optional_keeps::<String>(doc, "locale"@, at, found, path);
        let found = optional_gaps::<String>(doc, "locale"@, at, found);
        optional_keeps::<bool>(doc, "verified"@, at, found, path);
        let found = optional_gaps::<bool>(doc, "verified"@, at, found);
        optional_keeps::<String>(doc, "email"@, at, found, path);
        let found = optional_gaps::<String>(doc, "email"@, at, found);
        optional_keeps::<u32>(doc, "flags"@, at, found, path);
        let found = optional_gaps::<u32>(doc, "flags"@, at, found);
        optional_keeps::<PremiumType>(doc, "premium_type"@, at, found, path);
    }

    fn decode(raw: &Value, at: &str, gaps: &mut Vec<String>) -> (r: Option<Self>) {
        let id = required::<UserId>(raw, "id", at, gaps);
        let username = required::<String>(raw, "username", at, gaps);
        let discriminator = required::<String>(raw, "discriminator", at, gaps);
        let avatar = optional::<String>(raw, "avatar", at, gaps);
        let bot = optional::<bool>(raw, "bot", at, gaps);
        let mfa_enabled = optional::<bool>(raw, "mfa_enabled", at, gaps);
        let locale = optional::<String>(raw, "locale", at, gaps);
        let verified = optional::<bool>(raw, "verified", at, gaps);
        let email = optional::<String>(raw, "email", at, gaps);
        let flags = optional::<u32>(raw, "flags", at, gaps);
        let premium_type = optional::<PremiumType>(raw, "premium_type", at, gaps);
        if id.is_some()
            && username.is_some()
            && discriminator.is_some()
            && avatar.is_some()
            && bot.is_some()
            && mfa_enabled.is_some()
            && locale.is_some()
            && verified.is_some()
            && email.is_some()
            && flags.is_some()
            && premium_type.is_some() {
            Some(
                User {
                    id: id.unwrap(),
                    username: username.unwrap(),
                    discriminator: discriminator.unwrap(),
                    avatar: avatar.unwrap(),
                    bot: bot.unwrap(),
                    mfa_enabled: mfa_enabled.unwrap(),
                    locale: locale.unwrap(),
                    verified: verified.unwrap(),
                    email: email.unwrap(),
                    flags: flags.unwrap(),
                    premium_type: premium_type.unwrap(),
                },
            )
        } else {
            None
        }
    }
}

/// The type of premium account the user holds.
#[derive(Clone, Copy, Debug, PartialEq, Eq)]
pub enum PremiumType {
    /// Classic Nitro.
    NitroClassic,
    /// Normal Nitro.
    Nitro,
}

impl PremiumType {
    /// The variant that the wire code `code` stands for, if it stands for one.
    pub open spec fn of_code(code: u64) -> Option<PremiumType> {
        if code == 1 {
            Some(PremiumType::NitroClassic)
        } else if code == 2 {
            Some(PremiumType::Nitro)
        } else {
            None
        }
    }

    /// The wire code of this variant.
    pub open spec fn spec_code(self) -> u8 {
        match self {
            PremiumType::NitroClassic => 1,
            PremiumType::Nitro => 2,
        }
    }

    /// Finds the variant that the wire code `code` stands for.
    pub fn from_code(code: u64) -> (r: Option<PremiumType>)
        ensures
            r == Self::of_code(code),
    {
        if code == 1 {
            Some(PremiumType::NitroClassic)
        } else if code == 2 {
            Some(PremiumType::Nitro)
        } else {
            None
        }
    }

    /// The wire code of this variant.
    #[verifier::when_used_as_spec(spec_code)]
    pub fn code(self) -> (r: u8)
        ensures
            r == self.spec_code(),
            Self::of_code(r as u64) == Some(self),
    {
        match self {
            PremiumType::NitroClassic => 1,
            PremiumType::Nitro => 2,
        }
    }
}

impl DeepView for PremiumType {
    type V = PremiumType;

    open spec fn deep_view(&self) -> PremiumType {
        *self
    }
}

impl Decode for PremiumType {
    open spec fn parse(doc: Doc) -> Option<PremiumType> {
        match doc {
            Doc::Unsigned(code) => Self::of_code(code),
            _ => None,
        }
    }

    open spec fn gaps(doc: Doc, at: Seq<char>, found: Seq<Seq<char>>) -> Seq<Seq<char>> {
        note(Self::parse(doc) is Some, at, found)
    }

    open spec fn needs(doc: Doc, key: Seq<char>) -> bool {
        false
    }

    proof fn gaps_law(doc: Doc, at: Seq<char>, found: Seq<Seq<char>>) {
        note_settles(Self::parse(doc) is Some, at, found);
    }

    proof fn absent_is_noted(doc: Doc, at: Seq<char>, found: Seq<Seq<char>>, key: Seq<char>) {
    }

    fn decode(value: &Value, at: &str, gaps: &mut Vec<String>) -> (r: Option<Self>) {
        let found = match value.as_u64() {
            Some(code) => Self::from_code(code),
            None => None,
        };
        if found.is_none() {
            mark(gaps, at.to_owned());
        }
        found
    }
}

} // verus!
