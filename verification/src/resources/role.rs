use crate::decode::{
    required, required_gaps, required_keeps, required_parse, required_step, settles_start, Decode,
};
use crate::document::Doc;
use crate::path::field_path;
use serde_json::Value;
use vstd::prelude::*;

verus! {

/// The id of a role.
#[derive(Clone, Debug, PartialEq, Eq)]
pub struct RoleId(pub String);

impl DeepView for RoleId {
    type V = Seq<char>;

    open spec fn deep_view(&self) -> Seq<char> {
        self.0@
    }
}

impl Decode for RoleId {
    open spec fn parse(doc: Doc) -> Option<Seq<char>> {
        String::parse(doc)
    }

    open spec fn gaps(doc: Doc, at: Seq<char>, found: Seq<Seq<char>>) -> Seq<Seq<char>> {
        String::gaps(doc, at, found)
    }

    open spec fn needs(doc: Doc, key: Seq<char>) -> bool {
        false
    }

    proof fn gaps_law(doc: Doc, at: Seq<char>, found: Seq<Seq<char>>) {
        String::gaps_law(doc, at, found);
    }

    proof fn absent_is_noted(doc: Doc, at: Seq<char>, found: Seq<Seq<char>>, key: Seq<char>) {
    }

    fn decode(value: &Value, at: &str, gaps: &mut Vec<String>) -> (r: Option<Self>) {
        match String::decode(value, at, gaps) {
            Some(token) => Some(RoleId(token)),
            None => None,
        }
    }
}

/// A role that can be found in a guild.
#[derive(Clone, Debug, PartialEq, Eq)]
pub struct Role {
    /// The id of the role.
    pub id: RoleId,
    /// The name of the role.
    pub name: String,
    /// Integer representation of hexadecimal colour code.
    pub color: u32,
    /// If the role is pinned in the user listing.
    pub hoist: bool,
    /// Position of this role.
    pub position: u32,
    /// Permission bit set.
    pub permissions: u32,
    /// Whether this role is managed by an integration.
    pub managed: bool,
    /// Whether this role is mentionable.
    pub mentionable: bool,
}

/// The model of a [`Role`]: the same fields, each by its model.
pub ghost struct RoleModel {
    pub id: Seq<char>,
    pub name: Seq<char>,
    pub color: u32,
    pub hoist: bool,
    pub position: u32,
    pub permissions: u32,
    pub managed: bool,
    pub mentionable: bool,
}

impl DeepView for Role {
    type V = RoleModel;

    open spec fn deep_view(&self) -> RoleModel {
        RoleModel {
            id: self.id.deep_view(),
            name: self.name.deep_view(),
            color: self.color.deep_view(),
            hoist: self.hoist.deep_view(),
            position: self.position.deep_view(),
            permissions: self.permissions.deep_view(),
            managed: self.managed.deep_view(),
            mentionable: self.mentionable.deep_view(),
        }
    }
}

impl Decode for Role {
    open spec fn parse(doc: Doc) -> Option<RoleModel> {
        if {
            &&& required_parse::<RoleId>(doc, "id"@) is Some
            &&& required_parse::<String>(doc, "name"@) is Some
            &&& required_parse::<u32>(doc, "color"@) is Some
            &&& required_parse::<bool>(doc, "hoist"@) is Some
            &&& required_parse::<u32>(doc, "position"@) is Some
            &&& required_parse::<u32>(doc, "permissions"@) is Some
            &&& required_parse::<bool>(doc, "managed"@) is Some
            &&& required_parse::<bool>(doc, "mentionable"@) is Some
        } {
            Some(
                RoleModel {
                    id: required_parse::<RoleId>(doc, "id"@).unwrap(),
                    name: required_parse::<String>(doc, "name"@).unwrap(),
                    color: required_parse::<u32>(doc, "color"@).unwrap(),
                    hoist: required_parse::<bool>(doc, "hoist"@).unwrap(),
                    position: required_parse::<u32>(doc, "position"@).unwrap(),
                    permissions: required_parse::<u32>(doc, "permissions"@).unwrap(),
                    managed: required_parse::<bool>(doc, "managed"@).unwrap(),
                    mentionable: required_parse::<bool>(doc, "mentionable"@).unwrap(),
                },
            )
        } else {
            None
        }
    }

    open spec fn gaps(doc: Doc, at: Seq<char>, found: Seq<Seq<char>>) -> Seq<Seq<char>> {
        let found = required_gaps::<RoleId>(doc, "id"@, at, found);
        let found = required_gaps::<String>(doc, "name"@, at, found);
        let found = required_gaps::<u32>(doc, "color"@, at, found);
        let found = required_gaps::<bool>(doc, "hoist"@, at, found);
        let found = required_gaps::<u32>(doc, "position"@, at, found);
        let found = required_gaps::<u32>(doc, "permissions"@, at, found);
        let found = required_gaps::<bool>(doc, "managed"@, at, found);
        let found = required_gaps::<bool>(doc, "mentionable"@, at, found);
        found
    }

    open spec fn needs(doc: Doc, key: Seq<char>) -> bool {
        ||| key == "id"@
        ||| key == "name"@
        ||| key == "color"@
        ||| key == "hoist"@
        ||| key == "position"@
        ||| key == "permissions"@
        ||| key == "managed"@
        ||| key == "mentionable"@
    }

    proof fn gaps_law(doc: Doc, at: Seq<char>, found: Seq<Seq<char>>) {
        let start = found;
        settles_start(start);
        required_step::<RoleId>(doc, "id"@, at, true, start, found);
        let fits = required_parse::<RoleId>(doc, "id"@) is Some;
        let found = required_gaps::<RoleId>(doc, "id"@, at, found);
        required_step::<String>(doc, "name"@, at, fits, start, found);
        let fits = fits && required_parse::<String>(doc, "name"@) is Some;
        let found = required_gaps::<String>(doc, "name"@, at, found);
        required_step::<u32>(doc, "color"@, at, fits, start, found);
        let fits = fits && required_parse::<u32>(doc, "color"@) is Some;
        let found = required_gaps::<u32>(doc, "color"@, at, found);
        required_step::<bool>(doc, "hoist"@, at, fits, start, found);
        let fits = fits && required_parse::<bool>(doc, "hoist"@) is Some;
        let found = required_gaps::<bool>(doc, "hoist"@, at, found);
        required_step::<u32>(doc, "position"@, at, fits, start, found);
        let fits = fits && required_parse::<u32>(doc, "position"@) is Some;
        let found = required_gaps::<u32>(doc, "position"@, at, found);
        required_step::<u32>(doc, "permissions"@, at, fits, start, found);
        let fits = fits && required_parse::<u32>(doc, "permissions"@) is Some;
        let found = required_gaps::<u32>(doc, "permissions"@, at, found);
        required_step::<bool>(doc, "managed"@, at, fits, start, found);
        let fits = fits && required_parse::<bool>(doc, "managed"@) is Some;
        let found = required_gaps::<bool>(doc, "managed"@, at, found);
        required_step::<bool>(doc, "mentionable"@, at, fits, start, found);
    }

    proof fn absent_is_noted(doc: Doc, at: Seq<char>, found: Seq<Seq<char>>, key: Seq<char>) {
        let path = field_path(at, key);
        required_keeps::<RoleId>(doc, "id"@, at, found, path);
        let found = required_gaps::<RoleId>(doc, "id"@, at, found);
        required_keeps::<String>(doc, "name"@, at, found, path);
        let found = required_gaps::<String>(doc, "name"@, at, found);
        required_keeps::<u32>(doc, "color"@, at, found, path);
        let found = required_gaps::<u32>(doc, "color"@, at, found);
        required_keeps::<bool>(doc, "hoist"@, at, found, path);
        let found = required_gaps::<bool>(doc, "hoist"@, at, found);
        required_keeps::<u32>(doc, "position"@, at, found, path);
        let found = required_gaps::<u32>(doc, "position"@, at, found);
        required_keeps::<u32>(doc, "permissions"@, at, found, path);
        let found = required_gaps::<u32>(doc, "permissions"@, at, found);
        required_keeps::<bool>(doc, "managed"@, at, found, path);
        let found = required_gaps::<bool>(doc, "managed"@, at, found);
        required_keeps::<bool>(doc, "mentionable"@, at, found, path);
    }

    fn decode(raw: &Value, at: &str, gaps: &mut Vec<String>) -> (r: Option<Self>) {
        let id = required::<RoleId>(raw, "id", at, gaps);
        let name = required::<String>(raw, "name", at, gaps);
        let color = required::<u32>(raw, "color", at, gaps);
        let hoist = required::<bool>(raw, "hoist", at, gaps);
        let position = required::<u32>(raw, "position", at, gaps);
        let permissions = required::<u32>(raw, "permissions", at, gaps);
        let managed = required::<bool>(raw, "managed", at, gaps);
        let mentionable = required::<bool>(raw, "mentionable", at, gaps);
        if id.is_some()
            && name.is_some()
            && color.is_some()
            && hoist.is_some()
            && position.is_some()
            && permissions.is_some()
            && managed.is_some()
            && mentionable.is_some() {
            Some(
                Role {
                    id: id.unwrap(),
                    name: name.unwrap(),
                    color: color.unwrap(),
                    hoist: hoist.unwrap(),
                    position: position.unwrap(),
                    permissions: permissions.unwrap(),
                    managed: managed.unwrap(),
                    mentionable: mentionable.unwrap(),
                },
            )
        } else {
            None
        }
    }
}

} // verus!
