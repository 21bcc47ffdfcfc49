use crate::decode::{
    required, required_gaps, required_keeps, required_parse, required_step, settles_start, Decode,
};
use crate::document::Doc;
use crate::path::field_path;
use crate::resources::emoji::{Emoji, EmojiModel};
use serde_json::Value;
use vstd::prelude::*;

verus! {

/// A reaction to a message.
#[derive(Clone, Debug, PartialEq, Eq)]
pub struct Reaction {
    /// Times this emoji has been used to react.
    pub count: u16,
    /// Whether the current user has reacted using this emoji.
    pub me: bool,
    /// The emoji used.
    pub emoji: Emoji,
}

/// The model of a [`Reaction`]: the same fields, each by its model.
pub ghost struct ReactionModel {
    pub count: u16,
    pub me: bool,
    pub emoji: EmojiModel,
}

impl DeepView for Reaction {
    type V = ReactionModel;

    open spec fn deep_view(&self) -> ReactionModel {
        ReactionModel {
            count: self.count.deep_view(),
            me: self.me.deep_view(),
            emoji: self.emoji.deep_view(),
        }
    }
}

impl Decode for Reaction {
    open spec fn parse(doc: Doc) -> Option<ReactionModel> {
        if {
            &&& required_parse::<u16>(doc, "count"@) is Some
            &&& required_parse::<bool>(doc, "me"@) is Some
            &&& required_parse::<Emoji>(doc, "emoji"@) is Some
        } {
            Some(
                ReactionModel {
                    count: required_parse::<u16>(doc, "count"@).unwrap(),
                    me: required_parse::<bool>(doc, "me"@).unwrap(),
                    emoji: required_parse::<Emoji>(doc, "emoji"@).unwrap(),
                },
            )
        } else {
            None
        }
    }

    open spec fn gaps(doc: Doc, at: Seq<char>, found: Seq<Seq<char>>) -> Seq<Seq<char>> {
        let found = required_gaps::<u16>(doc, "count"@, at, found);
        let found = required_gaps::<bool>(doc, "me"@, at, found);
        let found = required_gaps::<Emoji>(doc, "emoji"@, at, found);
        found
    }

    open spec fn needs(doc: Doc, key: Seq<char>) -> bool {
        ||| key == "count"@
        ||| key == "me"@
        ||| key == "emoji"@
    }

    proof fn gaps_law(doc: Doc, at: Seq<char>, found: Seq<Seq<char>>) {
        let start = found;
        settles_start(start);
        required_step::<u16>(doc, "count"@, at, true, start, found);
        let fits = required_parse::<u16>(doc, "count"@) is Some;
        let found = required_gaps::<u16>(doc, "count"@, at, found);
        required_step::<bool>(doc, "me"@, at, fits, start, found);
        let fits = fits && required_parse::<bool>(doc, "me"@) is Some;
        let found = required_gaps::<bool>(doc, "me"@, at, found);
        required_step::<Emoji>(doc, "emoji"@, at, fits, start, found);
    }

    proof fn absent_is_noted(doc: Doc, at: Seq<char>, found: Seq<Seq<char>>, key: Seq<char>) {
        let path = field_path(at, key);
        required_keeps::<u16>(doc, "count"@, at, found, path);
        let found = required_gaps::<u16>(doc, "count"@, at, found);
        required_keeps::<bool>(doc, "me"@, at, found, path);
        let found = required_gaps::<bool>(doc, "me"@, at, found);
        required_keeps::<Emoji>(doc, "emoji"@, at, found, path);
    }

    fn decode(raw: &Value, at: &str, gaps: &mut Vec<String>) -> (r: Option<Self>) {
        let count = required::<u16>(raw, "count", at, gaps);
        let me = required::<bool>(raw, "me", at, gaps);
        let emoji = required::<Emoji>(raw, "emoji", at, gaps);
        if count.is_some()
            && me.is_some()
            && emoji.is_some() {
            Some(
                Reaction {
                    count: count.unwrap(),
                    me: me.unwrap(),
                    emoji: emoji.unwrap(),
                },
            )
        } else {
            None
        }
    }
}

} // verus!
