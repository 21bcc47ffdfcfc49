use crate::decode::{
    optional, optional_gaps, optional_keeps, optional_parse, optional_step, required, required_gaps,
    required_keeps, required_parse, required_step, settles_start, Decode,
};
use crate::document::Doc;
use crate::path::field_path;
use crate::resources::role::{Role, RoleModel};
use crate::resources::user::{User, UserModel};
use serde_json::Value;
use vstd::prelude::*;

verus! {

/// The id of an emoji.
#[derive(Clone, Debug, PartialEq, Eq)]
pub struct EmojiId(pub String);

impl DeepView for EmojiId {
    type V = Seq<char>;

    open spec fn deep_view(&self) -> Seq<char> {
        self.0@
    }
}

impl Decode for EmojiId {
    open spec fn parse(doc: Doc) -> Option<Seq<char>> {
        String::parse(doc)
    }

    open spec fn gaps(doc: Doc, at: Seq<char>, found: Seq<Seq<char>>) -> Seq<Seq<char>> {
        String::gaps(doc, at, found)
    }

    open spec fn needs(doc: Doc, key: Seq<char>) -> bool {
        false
    }

    proof fn gaps_law(doc: Doc, at: Seq<char>, found: Seq<Seq<char>>) {
        String::gaps_law(doc, at, found);
    }

    proof fn absent_is_noted(doc: Doc, at: Seq<char>, found: Seq<Seq<char>>, key: Seq<char>) {
    }

    fn decode(value: &Value, at: &str, gaps: &mut Vec<String>) -> (r: Option<Self>) {
        match String::decode(value, at, gaps) {
            Some(token) => Some(EmojiId(token)),
            None => None,
        }
    }
}

/// An emoji that was uploaded to a guild.
#[derive(Clone, Debug, PartialEq, Eq)]
pub struct Emoji {
    /// The id of the emoji.
    pub id: EmojiId,
    /// The name of the emoji.
    ///
    /// Can be `None` only in Reactions.
    pub name: Option<String>,
    /// Roles this emoji is whitelisted to.
    pub roles: Vec<Role>,
    /// User that created this role.
    pub user: Option<User>,
    /// Whether this emoji must be wrapped in colons.
    pub require_colons: Option<bool>,
    /// Whether this emoji is managed.
    pub managed: Option<bool>,
    /// Whether this emoji is animated.
    pub animated: Option<bool>,
}

/// The model of a [`Emoji`]: the same fields, each by its model.
pub ghost struct EmojiModel {
    pub id: Seq<char>,
    pub name: Option<Seq<char>>,
    pub roles: Seq<RoleModel>,
    pub user: Option<UserModel>,
    pub require_colons: Option<bool>,
    pub managed: Option<bool>,
    pub animated: Option<bool>,
}

impl DeepView for Emoji {
    type V = EmojiModel;

    open spec fn deep_view(&self) -> EmojiModel {
        EmojiModel {
            id: self.id.deep_view(),
            name: self.name.deep_view(),
            roles: self.roles.deep_view(),
            user: self.user.deep_view(),
            require_colons: self.require_colons.deep_view(),
            managed: self.managed.deep_view(),
            animated: self.animated.deep_view(),
        }
    }
}

impl Decode for Emoji {
    open spec fn parse(doc: Doc) -> Option<EmojiModel> {
        if {
            &&& required_parse::<EmojiId>(doc, "id"@) is Some
            &&& optional_parse::<String>(doc, "name"@) is Some
            &&& required_parse::<Vec<Role>>(doc, "roles"@) is Some
            &&& optional_parse::<User>(doc, "user"@) is Some
            &&& optional_parse::<bool>(doc, "require_colons"@) is Some
            &&& optional_parse::<bool>(doc, "managed"@) is Some
            &&& optional_parse::<bool>(doc, "animated"@) is Some
        } {
            Some(
                EmojiModel {
                    id: required_parse::<EmojiId>(doc, "id"@).unwrap(),
                    name: optional_parse::<String>(doc, "name"@).unwrap(),
                    roles: required_parse::<Vec<Role>>(doc, "roles"@).unwrap(),
                    user: optional_parse::<User>(doc, "user"@).unwrap(),
                    require_colons: optional_parse::<bool>(doc, "require_colons"@).unwrap(),
                    managed: optional_parse::<bool>(doc, "managed"@).unwrap(),
                    animated: optional_parse::<bool>(doc, "animated"@).unwrap(),
                },
            )
        } else {
            None
        }
    }

    open spec fn gaps(doc: Doc, at: Seq<char>, found: Seq<Seq<char>>) -> Seq<Seq<char>> {
        let found = required_gaps::<EmojiId>(doc, "id"@, at, found);
        let found = optional_gaps::<String>(doc, "name"@, at, found);
        let found = required_gaps::<Vec<Role>>(doc, "roles"@, at, found);
        let found = optional_gaps::<User>(doc, "user"@, at, found);
        let found = optional_gaps::<bool>(doc, "require_colons"@, at, found);
        let found = optional_gaps::<bool>(doc, "managed"@, at, found);
        let found = optional_gaps::<bool>(doc, "animated"@, at, found);
        found
    }

    open spec fn needs(doc: Doc, key: Seq<char>) -> bool {
        ||| key == "id"@
        ||| key == "roles"@
    }

    proof fn gaps_law(doc: Doc, at: Seq<char>, found: Seq<Seq<char>>) {
        let start = found;
        settles_start(start);
        required_step::<EmojiId>(doc, "id"@, at, true, start, found);
        let fits = required_parse::<EmojiId>(doc, "id"@) is Some;
        let found = required_gaps::<EmojiId>(doc, "id"@, at, found);
        optional_step::<String>(doc, "name"@, at, fits, start, found);
        let fits = fits && optional_parse::<String>(doc, "name"@) is Some;
        let found = optional_gaps::<String>(doc, "name"@, at, found);
        required_step::<Vec<Role>>(doc, "roles"@, at, fits, start, found);
        let fits = fits && required_parse::<Vec<Role>>(doc, "roles"@) is Some;
        let found = required_gaps::<Vec<Role>>(doc, "roles"@, at, found);
        optional_step::<User>(doc, "user"@, at, fits, start, found);
        let fits = fits && optional_parse::<User>(doc, "user"@) is Some;
        let found = optional_gaps::<User>(doc, "user"@, at, found);
        optional_step::<bool>(doc, "require_colons"@, at, fits, start, found);
        let fits = fits && optional_parse::<bool>(doc, "require_colons"@) is Some;
        let found = optional_gaps::<bool>(doc, "require_colons"@, at, found);
        optional_step::<bool>(doc, "managed"@, at, fits, start, found);
        let fits = fits && optional_parse::<bool>(doc, "managed"@) is Some;
        let found = optional_gaps::<bool>(doc, "managed"@, at, found);
        optional_step::<bool>(doc, "animated"@, at, fits, start, found);
    }

    proof fn absent_is_noted(doc: Doc, at: Seq<char>, found: Seq<Seq<char>>, key: Seq<char>) {
        let path = field_path(at, key);
        required_keeps::<EmojiId>(doc, "id"@, at, found, path);
        let found = required_gaps::<EmojiId>(doc, "id"@, at, found);
        optional_keeps::<String>(doc, "name"@, at, found, path);
        let found = optional_gaps::<String>(doc, "name"@, at, found);
        required_keeps::<Vec<Role>>(doc, "roles"@, at, found, path);
        let found = required_gaps::<Vec<Role>>(doc, "roles"@, at, found);
        optional_keeps::<User>(doc, "user"@, at, found, path);
        let found = optional_gaps::<User>(doc, "user"@, at, found);
        optional_keeps::<bool>(doc, "require_colons"@, at, found, path);
        let found = optional_gaps::<bool>(doc, "require_colons"@, at, found);
        optional_keeps::<bool>(doc, "managed"@, at, found, path);
        let found = optional_gaps::<bool>(doc, "managed"@, at, found);
        optional_keeps::<bool>(doc, "animated"@, at, found, path);
    }

    fn decode(raw: &Value, at: &str, gaps: &mut Vec<String>) -> (r: Option<Self>) {
        let id = required::<EmojiId>(raw, "id", at, gaps);
        let name = optional::<String>(raw, "name", at, gaps);
        let roles = required::<Vec<Role>>(raw, "roles", at, gaps);
        let user = optional::<User>(raw, "user", at, gaps);
        let require_colons = optional::<bool>(raw, "require_colons", at, gaps);
        let managed = optional::<bool>(raw, "managed", at, gaps);
        let animated = optional::<bool>(raw, "animated", at, gaps);
        if id.is_some()
            && name.is_some()
            && roles.is_some()
            && user.is_some()
            && require_colons.is_some()
            && managed.is_some()
            && animated.is_some() {
            Some(
                Emoji {
                    id: id.unwrap(),
                    name: name.unwrap(),
                    roles: roles.unwrap(),
                    user: user.unwrap(),
                    require_colons: require_colons.unwrap(),
                    managed: managed.unwrap(),
                    animated: animated.unwrap(),
                },
            )
        } else {
            None
        }
    }
}

} // verus!
