use crate::decode::{
    required, required_gaps, required_keeps, required_parse, required_step, settles_start, Decode,
};
use crate::document::Doc;
use crate::path::field_path;
use serde_json::Value;
use vstd::prelude::*;

verus! {

/// An id of an attachment.
#[derive(Clone, Debug, PartialEq, Eq)]
pub struct AttachmentId(pub String);

impl DeepView for AttachmentId {
    type V = Seq<char>;

    open spec fn deep_view(&self) -> Seq<char> {
        self.0@
    }
}

impl Decode for AttachmentId {
    open spec fn parse(doc: Doc) -> Option<Seq<char>> {
        String::parse(doc)
    }

    open spec fn gaps(doc: Doc, at: Seq<char>, found: Seq<Seq<char>>) -> Seq<Seq<char>> {
        String::gaps(doc, at, found)
    }

    open spec fn needs(doc: Doc, key: Seq<char>) -> bool {
        false
    }

    proof fn gaps_law(doc: Doc, at: Seq<char>, found: Seq<Seq<char>>) {
        String::gaps_law(doc, at, found);
    }

    proof fn absent_is_noted(doc: Doc, at: Seq<char>, found: Seq<Seq<char>>, key: Seq<char>) {
    }

    fn decode(value: &Value, at: &str, gaps: &mut Vec<String>) -> (r: Option<Self>) {
        match String::decode(value, at, gaps) {
            Some(token) => Some(AttachmentId(token)),
            None => None,
        }
    }
}

/// A file attached to a message.
#[derive(Clone, Debug, PartialEq, Eq)]
pub struct Attachment {
    /// Id of the attachment.
    pub id: AttachmentId,
    /// Name of the file.
    pub filename: String,
    /// Size of file in bytes.
    pub size: u64,
    /// Source URL of file.
    pub url: String,
    /// A proxied URL of file.
    pub proxy_url: String,
    /// If the attachment is an image, it will have the following dimensions.
    pub dimensions: Option<Dimensions>,
}

/// The model of a [`Attachment`]: the same fields, each by its model.
pub ghost struct AttachmentModel {
    pub id: Seq<char>,
    pub filename: Seq<char>,
    pub size: u64,
    pub url: Seq<char>,
    pub proxy_url: Seq<char>,
    pub dimensions: Option<DimensionsModel>,
}

impl DeepView for Attachment {
    type V = AttachmentModel;

    open spec fn deep_view(&self) -> AttachmentModel {
        AttachmentModel {
            id: self.id.deep_view(),
            filename: self.filename.deep_view(),
            size: self.size.deep_view(),
            url: self.url.deep_view(),
            proxy_url: self.proxy_url.deep_view(),
            dimensions: self.dimensions.deep_view(),
        }
    }
}

impl Decode for Attachment {
    open spec fn parse(doc: Doc) -> Option<AttachmentModel> {
        if {
            &&& required_parse::<AttachmentId>(doc, "id"@) is Some
            &&& required_parse::<String>(doc, "filename"@) is Some
            &&& required_parse::<u64>(doc, "size"@) is Some
            &&& required_parse::<String>(doc, "url"@) is Some
            &&& required_parse::<String>(doc, "proxy_url"@) is Some
        } {
            Some(
                AttachmentModel {
                    id: required_parse::<AttachmentId>(doc, "id"@).unwrap(),
                    filename: required_parse::<String>(doc, "filename"@).unwrap(),
                    size: required_parse::<u64>(doc, "size"@).unwrap(),
                    url: required_parse::<String>(doc, "url"@).unwrap(),
                    proxy_url: required_parse::<String>(doc, "proxy_url"@).unwrap(),
                    dimensions: Dimensions::parse(doc),
                },
            )
        } else {
            None
        }
    }

    open spec fn gaps(doc: Doc, at: Seq<char>, found: Seq<Seq<char>>) -> Seq<Seq<char>> {
        let found = required_gaps::<AttachmentId>(doc, "id"@, at, found);
        let found = required_gaps::<String>(doc, "filename"@, at, found);
        let found = required_gaps::<u64>(doc, "size"@, at, found);
        let found = required_gaps::<String>(doc, "url"@, at, found);
        let found = required_gaps::<String>(doc, "proxy_url"@, at, found);
        found
    }

    open spec fn needs(doc: Doc, key: Seq<char>) -> bool {
        ||| key == "id"@
        ||| key == "filename"@
        ||| key == "size"@
        ||| key == "url"@
        ||| key == "proxy_url"@
    }

    proof fn gaps_law(doc: Doc, at: Seq<char>, found: Seq<Seq<char>>) {
        let start = found;
        settles_start(start);
        required_step::<AttachmentId>(doc, "id"@, at, true, start, found);
        let fits = required_parse::<AttachmentId>(doc, "id"@) is Some;
        let found = required_gaps::<AttachmentId>(doc, "id"@, at, found);
        required_step::<String>(doc, "filename"@, at, fits, start, found);
        let fits = fits && required_parse::<String>(doc, "filename"@) is Some;
        let found = required_gaps::<String>(doc, "filename"@, at, found);
        required_step::<u64>(doc, "size"@, at, fits, start, found);
        let fits = fits && required_parse::<u64>(doc, "size"@) is Some;
        let found = required_gaps::<u64>(doc, "size"@, at, found);
        required_step::<String>(doc, "url"@, at, fits, start, found);
        let fits = fits && required_parse::<String>(doc, "url"@) is Some;
        let found = required_gaps::<String>(doc, "url"@, at, found);
        required_step::<String>(doc, "proxy_url"@, at, fits, start, found);
    }

    proof fn absent_is_noted(doc: Doc, at: Seq<char>, found: Seq<Seq<char>>, key: Seq<char>) {
        let path = field_path(at, key);
        required_keeps::<AttachmentId>(doc, "id"@, at, found, path);
        let found = required_gaps::<AttachmentId>(doc, "id"@, at, found);
        required_keeps::<String>(doc, "filename"@, at, found, path);
        let found = required_gaps::<String>(doc, "filename"@, at, found);
        required_keeps::<u64>(doc, "size"@, at, found, path);
        let found = required_gaps::<u64>(doc, "size"@, at, found);
        required_keeps::<String>(doc, "url"@, at, found, path);
        let found = required_gaps::<String>(doc, "url"@, at, found);
        required_keeps::<String>(doc, "proxy_url"@, at, found, path);
    }

    fn decode(raw: &Value, at: &str, gaps: &mut Vec<String>) -> (r: Option<Self>) {
        let id = required::<AttachmentId>(raw, "id", at, gaps);
        let filename = required::<String>(raw, "filename", at, gaps);
        let size = required::<u64>(raw, "size", at, gaps);
        let url = required::<String>(raw, "url", at, gaps);
        let proxy_url = required::<String>(raw, "proxy_url", at, gaps);
        let mut unnoted: Vec<String> = Vec::new();
        let dimensions = Dimensions::decode(raw, at, &mut unnoted);
        if id.is_some()
            && filename.is_some()
            && size.is_some()
            && url.is_some()
            && proxy_url.is_some() {
            Some(
                Attachment {
                    id: id.unwrap(),
                    filename: filename.unwrap(),
                    size: size.unwrap(),
                    url: url.unwrap(),
                    proxy_url: proxy_url.unwrap(),
                    dimensions,
                },
            )
        } else {
            None
        }
    }
}

/// The dimensions of an image.
#[derive(Clone, Debug, PartialEq, Eq)]
pub struct Dimensions {
    /// Height of the file (if image).
    pub height: u16,
    /// Width of the file (if image).
    pub width: u16,
}

/// The model of a [`Dimensions`]: the same fields, each by its model.
pub ghost struct DimensionsModel {
    pub height: u16,
    pub width: u16,
}

impl DeepView for Dimensions {
    type V = DimensionsModel;

    open spec fn deep_view(&self) -> DimensionsModel {
        DimensionsModel {
            height: self.height.deep_view(),
            width: self.width.deep_view(),
        }
    }
}

impl Decode for Dimensions {
    open spec fn parse(doc: Doc) -> Option<DimensionsModel> {
        if {
            &&& required_parse::<u16>(doc, "height"@) is Some
            &&& required_parse::<u16>(doc, "width"@) is Some
        } {
            Some(
                DimensionsModel {
                    height: required_parse::<u16>(doc, "height"@).unwrap(),
                    width: required_parse::<u16>(doc, "width"@).unwrap(),
                },
            )
        } else {
            None
        }
    }

    open spec fn gaps(doc: Doc, at: Seq<char>, found: Seq<Seq<char>>) -> Seq<Seq<char>> {
        let found = required_gaps::<u16>(doc, "height"@, at, found);
        let found = required_gaps::<u16>(doc, "width"@, at, found);
        found
    }

    open spec fn needs(doc: Doc, key: Seq<char>) -> bool {
        ||| key == "height"@
        ||| key == "width"@
    }

    proof fn gaps_law(doc: Doc, at: Seq<char>, found: Seq<Seq<char>>) {
        let start = found;
        settles_start(start);
        required_step::<u16>(doc, "height"@, at, true, start, found);
        let fits = required_parse::<u16>(doc, "height"@) is Some;
        let found = required_gaps::<u16>(doc, "height"@, at, found);
        required_step::<u16>(doc, "width"@, at, fits, start, found);
    }

    proof fn absent_is_noted(doc: Doc, at: Seq<char>, found: Seq<Seq<char>>, key: Seq<char>) {
        let path = field_path(at, key);
        required_keeps::<u16>(doc, "height"@, at, found, path);
        let found = required_gaps::<u16>(doc, "height"@, at, found);
        required_keeps::<u16>(doc, "width"@, at, found, path);
    }

    fn decode(raw: &Value, at: &str, gaps: &mut Vec<String>) -> (r: Option<Self>) {
        let height = required::<u16>(raw, "height", at, gaps);
        let width = required::<u16>(raw, "width", at, gaps);
        if height.is_some()
            && width.is_some() {
            Some(
                Dimensions {
                    height: height.unwrap(),
                    width: width.unwrap(),
                },
            )
        } else {
            None
        }
    }
}

} // verus!
