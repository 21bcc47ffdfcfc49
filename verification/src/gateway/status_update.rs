use crate::decode::{
    mark, note, note_settles, optional, optional_gaps, optional_keeps, optional_parse,
    optional_step, required, required_gaps, required_keeps, required_parse, required_step,
    settles_start, Decode,
};
use crate::document::{record_value, text_value, unsigned_value, Doc};
use crate::encode::Encode;
use crate::path::{field_path, same_text};
use serde_json::Value;
use vstd::prelude::*;

verus! {

/// Sent by the client to indicate a presence or status update.
#[derive(Clone, Debug, PartialEq, Eq)]
pub struct StatusUpdate {
    /// Unix time (in milliseconds) of when the client went idle.
    ///
    /// `None` if the client is not idle.
    pub since: Option<u64>,
    /// The user's new activity.
    ///
    /// Or `None`.
    pub game: Option<Activity>,
    /// The user's new status.
    pub status: Status,
    /// Whether or not the client is AFK.
    pub afk: bool,
}

impl Encode for StatusUpdate {
    open spec fn doc(&self) -> Doc {
        Doc::Record(
            Map::empty()
                .insert("since"@, self.since.doc())
                .insert("game"@, self.game.doc())
                .insert("status"@, self.status.doc())
                .insert("afk"@, self.afk.doc()),
        )
    }

    fn encode(&self) -> (r: Value) {
        let mut entries = serde_json::Map::new();
        entries.insert("since".to_owned(), self.since.encode());
        entries.insert("game".to_owned(), self.game.encode());
        entries.insert("status".to_owned(), self.status.encode());
        entries.insert("afk".to_owned(), self.afk.encode());
        record_value(entries)
    }
}

/// The user's activity.
#[derive(Clone, Debug, PartialEq, Eq)]
pub struct Activity {
    /// The activity's name.
    pub name: String,
    /// Activity Type.
    pub activity_type: ActivityType,
    /// Stream URL.
    ///
    /// Is validated when type is 1.
    pub url: Option<String>,
}

/// The model of a [`Activity`]: the same fields, each by its model.
pub ghost struct ActivityModel {
    pub name: Seq<char>,
    pub activity_type: ActivityType,
    pub url: Option<Seq<char>>,
}

impl DeepView for Activity {
    type V = ActivityModel;

    open spec fn deep_view(&self) -> ActivityModel {
        ActivityModel {
            name: self.name.deep_view(),
            activity_type: self.activity_type.deep_view(),
            url: self.url.deep_view(),
        }
    }
}

impl Decode for Activity {
    open spec fn parse(doc: Doc) -> Option<ActivityModel> {
        if {
            &&& required_parse::<String>(doc, "name"@) is Some
            &&& required_parse::<ActivityType>(doc, "type"@) is Some
            &&& optional_parse::<String>(doc, "url"@) is Some
        } {
            Some(
                ActivityModel {
                    name: required_parse::<String>(doc, "name"@).unwrap(),
                    activity_type: required_parse::<ActivityType>(doc, "type"@).unwrap(),
                    url: optional_parse::<String>(doc, "url"@).unwrap(),
                },
            )
        } else {
            None
        }
    }

    open spec fn gaps(doc: Doc, at: Seq<char>, found: Seq<Seq<char>>) -> Seq<Seq<char>> {
        let found = required_gaps::<String>(doc, "name"@, at, found);
        let found = required_gaps::<ActivityType>(doc, "type"@, at, found);
        let found = optional_gaps::<String>(doc, "url"@, at, found);
        found
    }

    open spec fn needs(doc: Doc, key: Seq<char>) -> bool {
        ||| key == "name"@
        ||| key == "type"@
    }

    proof fn gaps_law(doc: Doc, at: Seq<char>, found: Seq<Seq<char>>) {
        let start = found;
        settles_start(start);
        required_step::<String>(doc, "name"@, at, true, start, found);
        let fits = required_parse::<String>(doc, "name"@) is Some;
        let found = required_gaps::<String>(doc, "name"@, at, found);
        required_step::<ActivityType>(doc, "type"@, at, fits, start, found);
        let fits = fits && required_parse::<ActivityType>(doc, "type"@) is Some;
        let found = required_gaps::<ActivityType>(doc, "type"@, at, found);
        optional_step::<String>(doc, "url"@, at, fits, start, found);
    }

    proof fn absent_is_noted(doc: Doc, at: Seq<char>, found: Seq<Seq<char>>, key: Seq<char>) {
        let path = field_path(at, key);
        required_keeps::<String>(doc, "name"@, at, found, path);
        let found = required_gaps::<String>(doc, "name"@, at, found);
        required_keeps::<ActivityType>(doc, "type"@, at, found, path);
        let found = required_gaps::<ActivityType>(doc, "type"@, at, found);
        optional_keeps::<String>(doc, "url"@, at, found, path);
    }

    fn decode(raw: &Value, at: &str, gaps: &mut Vec<String>) -> (r: Option<Self>) {
        let name = required::<String>(raw, "name", at, gaps);
        let activity_type = required::<ActivityType>(raw, "type", at, gaps);
        let url = optional::<String>(raw, "url", at, gaps);
        if name.is_some()
            && activity_type.is_some()
            && url.is_some() {
            Some(
                Activity {
                    name: name.unwrap(),
                    activity_type: activity_type.unwrap(),
                    url: url.unwrap(),
                },
            )
        } else {
            None
        }
    }
}

impl Encode for Activity {
    open spec fn doc(&self) -> Doc {
        Doc::Record(
            Map::empty()
                .insert("name"@, self.name.doc())
                .insert("type"@, self.activity_type.doc())
                .insert("url"@, self.url.doc()),
        )
    }

    fn encode(&self) -> (r: Value) {
        let mut entries = serde_json::Map::new();
        entries.insert("name".to_owned(), self.name.encode());
        entries.insert("type".to_owned(), self.activity_type.encode());
        entries.insert("url".to_owned(), self.url.encode());
        record_value(entries)
    }
}

/// The user's status.
#[derive(Clone, Copy, Debug, PartialEq, Eq)]
pub enum Status {
    /// Online.
    Online,
    /// Do Not Disturb.
    Dnd,
    /// AFK.
    Idle,
    /// Invisible and shown as Offline.
    Invisible,
    /// Offline.
    Offline,
}

impl Status {
    /// The variant that the wire name `name` stands for, if it stands for one.
    /// Names are matched exactly.
    pub open spec fn of_name(name: Seq<char>) -> Option<Status> {
        if name == "online"@ {
            Some(Status::Online)
        } else if name == "dnd"@ {
            Some(Status::Dnd)
        } else if name == "idle"@ {
            Some(Status::Idle)
        } else if name == "invisible"@ {
            Some(Status::Invisible)
        } else if name == "offline"@ {
            Some(Status::Offline)
        } else {
            None
        }
    }

    /// The wire name of this variant.
    pub open spec fn spec_name(self) -> Seq<char> {
        match self {
            Status::Online => "online"@,
            Status::Dnd => "dnd"@,
            Status::Idle => "idle"@,
            Status::Invisible => "invisible"@,
            Status::Offline => "offline"@,
        }
    }

    /// Finds the variant that the wire name `name` stands for.
    pub fn from_name(name: &str) -> (r: Option<Status>)
        ensures
            r == Self::of_name(name@),
    {
        if same_text(name, "online") {
            Some(Status::Online)
        } else if same_text(name, "dnd") {
            Some(Status::Dnd)
        } else if same_text(name, "idle") {
            Some(Status::Idle)
        } else if same_text(name, "invisible") {
            Some(Status::Invisible)
        } else if same_text(name, "offline") {
            Some(Status::Offline)
        } else {
            None
        }
    }

    /// The wire name of this variant.
    pub fn name(self) -> (r: &'static str)
        ensures
            r@ == self.spec_name(),
    {
        match self {
            Status::Online => "online",
            Status::Dnd => "dnd",
            Status::Idle => "idle",
            Status::Invisible => "invisible",
            Status::Offline => "offline",
        }
    }
}

impl DeepView for Status {
    type V = Status;

    open spec fn deep_view(&self) -> Status {
        *self
    }
}

impl Decode for Status {
    open spec fn parse(doc: Doc) -> Option<Status> {
        match doc {
            Doc::Text(name) => Self::of_name(name),
            _ => None,
        }
    }

    open spec fn gaps(doc: Doc, at: Seq<char>, found: Seq<Seq<char>>) -> Seq<Seq<char>> {
        note(Self::parse(doc) is Some, at, found)
    }

    open spec fn needs(doc: Doc, key: Seq<char>) -> bool {
        false
    }

    proof fn gaps_law(doc: Doc, at: Seq<char>, found: Seq<Seq<char>>) {
        note_settles(Self::parse(doc) is Some, at, found);
    }

    proof fn absent_is_noted(doc: Doc, at: Seq<char>, found: Seq<Seq<char>>, key: Seq<char>) {
    }

    fn decode(value: &Value, at: &str, gaps: &mut Vec<String>) -> (r: Option<Self>) {
        let found = match value.as_str() {
            Some(name) => Self::from_name(name),
            None => None,
        };
        if found.is_none() {
            mark(gaps, at.to_owned());
        }
        found
    }
}

impl Encode for Status {
    open spec fn doc(&self) -> Doc {
        Doc::Text(self.spec_name())
    }

    fn encode(&self) -> (r: Value) {
        text_value(self.name().to_owned())
    }
}

/// The type of activity the user is doing.
#[derive(Clone, Copy, Debug, PartialEq, Eq)]
pub enum ActivityType {
    /// Playing {name}.
    ///
    /// e.g. "Playing Rocket League"
    Game,
    /// Streaming {name}.
    ///
    /// e.g. "Streaming Rocker League"
    Streaming,
    /// Listening to {name}.
    ///
    /// e.g. "Listening to Spotify"
    Listening,
}

impl ActivityType {
    /// The variant that the wire code `code` stands for, if it stands for one.
    pub open spec fn of_code(code: u64) -> Option<ActivityType> {
        if code == 0 {
            Some(ActivityType::Game)
        } else if code == 1 {
            Some(ActivityType::Streaming)
        } else if code == 2 {
            Some(ActivityType::Listening)
        } else {
            None
        }
    }

    /// The wire code of this variant.
    pub open spec fn spec_code(self) -> u8 {
        match self {
            ActivityType::Game => 0,
            ActivityType::Streaming => 1,
            ActivityType::Listening => 2,
        }
    }

    /// Finds the variant that the wire code `code` stands for.
    pub fn from_code(code: u64) -> (r: Option<ActivityType>)
        ensures
            r == Self::of_code(code),
    {
        if code == 0 {
            Some(ActivityType::Game)
        } else if code == 1 {
            Some(ActivityType::Streaming)
        } else if code == 2 {
            Some(ActivityType::Listening)
        } else {
            None
        }
    }

    /// The wire code of this variant.
    #[verifier::when_used_as_spec(spec_code)]
    pub fn code(self) -> (r: u8)
        ensures
            r == self.spec_code(),
            Self::of_code(r as u64) == Some(self),
    {
        match self {
            ActivityType::Game => 0,
            ActivityType::Streaming => 1,
            ActivityType::Listening => 2,
        }
    }
}

impl DeepView for ActivityType {
    type V = ActivityType;

    open spec fn deep_view(&self) -> ActivityType {
        *self
    }
}

impl Decode for ActivityType {
    open spec fn parse(doc: Doc) -> Option<ActivityType> {
        match doc {
            Doc::Unsigned(code) => Self::of_code(code),
            _ => None,
        }
    }

    open spec fn gaps(doc: Doc, at: Seq<char>, found: Seq<Seq<char>>) -> Seq<Seq<char>> {
        note(Self::parse(doc) is Some, at, found)
    }

    open spec fn needs(doc: Doc, key: Seq<char>) -> bool {
        false
    }

    proof fn gaps_law(doc: Doc, at: Seq<char>, found: Seq<Seq<char>>) {
        note_settles(Self::parse(doc) is Some, at, found);
    }

    proof fn absent_is_noted(doc: Doc, at: Seq<char>, found: Seq<Seq<char>>, key: Seq<char>) {
    }

    fn decode(value: &Value, at: &str, gaps: &mut Vec<String>) -> (r: Option<Self>) {
        let found = match value.as_u64() {
            Some(code) => Self::from_code(code),
            None => None,
        };
        if found.is_none() {
            mark(gaps, at.to_owned());
        }
        found
    }
}

impl Encode for ActivityType {
    open spec fn doc(&self) -> Doc {
        Doc::Unsigned(self.spec_code() as u64)
    }

    fn encode(&self) -> (r: Value) {
        unsigned_value(self.code() as u64)
    }
}

impl Default for StatusUpdate {
    fn default() -> (r: Self)
        ensures
            r.since is None,
            r.game is None,
            r.status == Status::Online,
            !r.afk,
    {
        StatusUpdate { since: None, game: None, status: Status::default(), afk: false }
    }
}

impl Default for Status {
    fn default() -> (r: Self)
        ensures
            r == Status::Online,
    {
        Status::Online
    }
}

} // verus!
