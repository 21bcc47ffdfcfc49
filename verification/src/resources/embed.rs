use crate::decode::{
    optional, optional_gaps, optional_keeps, optional_parse, optional_step, required, required_gaps,
    required_keeps, required_parse, required_step, settles_start, Decode,
};
use crate::document::Doc;
use crate::path::field_path;
use crate::resources::attachment::{Dimensions, DimensionsModel};
use crate::time::Timestamp;
use serde_json::Value;
use vstd::prelude::*;

verus! {

/// An embed of a message.
#[derive(Clone, Debug, PartialEq, Eq)]
pub struct Embed {
    /// Title of the embed.
    pub embed: Option<String>,
    /// Type of embed.
    ///
    /// Always `rich` for webhook embeds.
    pub type_: Option<String>,
    /// Description of the embed.
    pub description: Option<String>,
    /// URL of the embed.
    pub url: Option<String>,
    /// Timestamp of embedded conten.
    pub timestamp: Option<Timestamp>,
    /// Colour code of the embed.
    pub color: u32,
    /// Footer information.
    pub footer: Option<EmbedFooter>,
    /// Image information.
    pub image: Option<EmbedImage>,
    /// Thumbnail information.
    pub thumbnail: Option<EmbedImage>,
    /// Video information.
    pub video: Option<EmbedVideo>,
    /// Provider information.
    pub provider: Option<EmbedProvider>,
    /// Author information.
    pub author: Option<EmbedAuthor>,
    /// Fields information.
    pub fields: Vec<EmbedField>,
}

/// The model of a [`Embed`]: the same fields, each by its model.
pub ghost struct EmbedModel {
    pub embed: Option<Seq<char>>,
    pub type_: Option<Seq<char>>,
    pub description: Option<Seq<char>>,
    pub url: Option<Seq<char>>,
    pub timestamp: Option<Timestamp>,
    pub color: u32,
    pub footer: Option<EmbedFooterModel>,
    pub image: Option<EmbedImageModel>,
    pub thumbnail: Option<EmbedImageModel>,
    pub video: Option<EmbedVideoModel>,
    pub provider: Option<EmbedProviderModel>,
    pub author: Option<EmbedAuthorModel>,
    pub fields: Seq<EmbedFieldModel>,
}

impl DeepView for Embed {
    type V = EmbedModel;

    open spec fn deep_view(&self) -> EmbedModel {
        EmbedModel {
            embed: self.embed.deep_view(),
            type_: self.type_.deep_view(),
            description: self.description.deep_view(),
            url: self.url.deep_view(),
            timestamp: self.timestamp.deep_view(),
            color: self.color.deep_view(),
            footer: self.footer.deep_view(),
            image: self.image.deep_view(),
            thumbnail: self.thumbnail.deep_view(),
            video: self.video.deep_view(),
            provider: self.provider.deep_view(),
            author: self.author.deep_view(),
            fields: self.fields.deep_view(),
        }
    }
}

impl Decode for Embed {
    open spec fn parse(doc: Doc) -> Option<EmbedModel> {
        if {
            &&& optional_parse::<String>(doc, "embed"@) is Some
            &&& optional_parse::<String>(doc, "type"@) is Some
            &&& optional_parse::<String>(doc, "description"@) is Some
            &&& optional_parse::<String>(doc, "url"@) is Some
            &&& optional_parse::<Timestamp>(doc, "timestamp"@) is Some
            &&& required_parse::<u32>(doc, "color"@) is Some
            &&& optional_parse::<EmbedFooter>(doc, "footer"@) is Some
            &&& optional_parse::<EmbedImage>(doc, "image"@) is Some
            &&& optional_parse::<EmbedImage>(doc, "thumbnail"@) is Some
            &&& optional_parse::<EmbedVideo>(doc, "video"@) is Some
            &&& optional_parse::<EmbedProvider>(doc, "provider"@) is Some
            &&& optional_parse::<EmbedAuthor>(doc, "author"@) is Some
            &&& required_parse::<Vec<EmbedField>>(doc, "fields"@) is Some
        } {
            Some(
                EmbedModel {
                    embed: optional_parse::<String>(doc, "embed"@).unwrap(),
                    type_: optional_parse::<String>(doc, "type"@).unwrap(),
                    description: optional_parse::<String>(doc, "description"@).unwrap(),
                    url: optional_parse::<String>(doc, "url"@).unwrap(),
                    timestamp: optional_parse::<Timestamp>(doc, "timestamp"@).unwrap(),
                    color: required_parse::<u32>(doc, "color"@).unwrap(),
                    footer: optional_parse::<EmbedFooter>(doc, "footer"@).unwrap(),
                    image: optional_parse::<EmbedImage>(doc, "image"@).unwrap(),
                    thumbnail: optional_parse::<EmbedImage>(doc, "thumbnail"@).unwrap(),
                    video: optional_parse::<EmbedVideo>(doc, "video"@).unwrap(),
                    provider: optional_parse::<EmbedProvider>(doc, "provider"@).unwrap(),
                    author: optional_parse::<EmbedAuthor>(doc, "author"@).unwrap(),
                    fields: required_parse::<Vec<EmbedField>>(doc, "fields"@).unwrap(),
                },
            )
        } else {
            None
        }
    }

    open spec fn gaps(doc: Doc, at: Seq<char>, found: Seq<Seq<char>>) -> Seq<Seq<char>> {
        let found = optional_gaps::<String>(doc, "embed"@, at, found);
        let found = optional_gaps::<String>(doc, "type"@, at, found);
        let found = optional_gaps::<String>(doc, "description"@, at, found);
        let found = optional_gaps::<String>(doc, "url"@, at, found);
        let found = optional_gaps::<Timestamp>(doc, "timestamp"@, at, found);
        let found = required_gaps::<u32>(doc, "color"@, at, found);
        let found = optional_gaps::<EmbedFooter>(doc, "footer"@, at, found);
        let found = optional_gaps::<EmbedImage>(doc, "image"@, at, found);
        let found = optional_gaps::<EmbedImage>(doc, "thumbnail"@, at, found);
        let found = optional_gaps::<EmbedVideo>(doc, "video"@, at, found);
        let found = optional_gaps::<EmbedProvider>(doc, "provider"@, at, found);
        let found = optional_gaps::<EmbedAuthor>(doc, "author"@, at, found);
        let found = required_gaps::<Vec<EmbedField>>(doc, "fields"@, at, found);
        found
    }

    open spec fn needs(doc: Doc, key: Seq<char>) -> bool {
        ||| key == "color"@
        ||| key == "fields"@
    }

    proof fn gaps_law(doc: Doc, at: Seq<char>, found: Seq<Seq<char>>) {
        let start = found;
        settles_start(start);
        optional_step::<String>(doc, "embed"@, at, true, start, found);
        let fits = optional_parse::<String>(doc, "embed"@) is Some;
        let found = optional_gaps::<String>(doc, "embed"@, at, found);
        optional_step::<String>(doc, "type"@, at, fits, start, found);
        let fits = fits && optional_parse::<String>(doc, "type"@) is Some;
        let found = optional_gaps::<String>(doc, "type"@, at, found);
        optional_step::<String>(doc, "description"@, at, fits, start, found);
        let fits = fits && optional_parse::<String>(doc, "description"@) is Some;
        let found = optional_gaps::<String>(doc, "description"@, at, found);
        optional_step::<String>(doc, "url"@, at, fits, start, found);
        let fits = fits && optional_parse::<String>(doc, "url"@) is Some;
        let found = optional_gaps::<String>(doc, "url"@, at, found);
        optional_step::<Timestamp>(doc, "timestamp"@, at, fits, start, found);
        let fits = fits && optional_parse::<Timestamp>(doc, "timestamp"@) is Some;
        let found = optional_gaps::<Timestamp>(doc, "timestamp"@, at, found);
        required_step::<u32>(doc, "color"@, at, fits, start, found);
        let fits = fits && required_parse::<u32>(doc, "color"@) is Some;
        let found = required_gaps::<u32>(doc, "color"@, at, found);
        optional_step::<EmbedFooter>(doc, "footer"@, at, fits, start, found);
        let fits = fits && optional_parse::<EmbedFooter>(doc, "footer"@) is Some;
        let found = optional_gaps::<EmbedFooter>(doc, "footer"@, at, found);
        optional_step::<EmbedImage>(doc, "image"@, at, fits, start, found);
        let fits = fits && optional_parse::<EmbedImage>(doc, "image"@) is Some;
        let found = optional_gaps::<EmbedImage>(doc, "image"@, at, found);
        optional_step::<EmbedImage>(doc, "thumbnail"@, at, fits, start, found);
        let fits = fits && optional_parse::<EmbedImage>(doc, "thumbnail"@) is Some;
        let found = optional_gaps::<EmbedImage>(doc, "thumbnail"@, at, found);
        optional_step::<EmbedVideo>(doc, "video"@, at, fits, start, found);
        let fits = fits && optional_parse::<EmbedVideo>(doc, "video"@) is Some;
        let found = optional_gaps::<EmbedVideo>(doc, "video"@, at, found);
        optional_step::<EmbedProvider>(doc, "provider"@, at, fits, start, found);
        let fits = fits && optional_parse::<EmbedProvider>(doc, "provider"@) is Some;
        let found = optional_gaps::<EmbedProvider>(doc, "provider"@, at, found);
        optional_step::<EmbedAuthor>(doc, "author"@, at, fits, start, found);
        let fits = fits && optional_parse::<EmbedAuthor>(doc, "author"@) is Some;
        let found = optional_gaps::<EmbedAuthor>(doc, "author"@, at, found);
        required_step::<Vec<EmbedField>>(doc, "fields"@, at, fits, start, found);
    }

    proof fn absent_is_noted(doc: Doc, at: Seq<char>, found: Seq<Seq<char>>, key: Seq<char>) {
        let path = field_path(at, key);
        optional_keeps::<String>(doc, "embed"@, at, found, path);
        let found = optional_gaps::<String>(doc, "embed"@, at, found);
        optional_keeps::<String>(doc, "type"@, at, found, path);
        let found = optional_gaps::<String>(doc, "type"@, at, found);
        optional_keeps::<String>(doc, "description"@, at, found, path);
        let found = optional_gaps::<String>(doc, "description"@, at, found);
        optional_keeps::<String>(doc, "url"@, at, found, path);
        let found = optional_gaps::<String>(doc, "url"@, at, found);
        optional_keeps::<Timestamp>(doc, "timestamp"@, at, found, path);
        let found = optional_gaps::<Timestamp>(doc, "timestamp"@, at, found);
        required_keeps::<u32>(doc, "color"@, at, found, path);
        let found = required_gaps::<u32>(doc, "color"@, at, found);
        optional_keeps::<EmbedFooter>(doc, "footer"@, at, found, path);
        let found = optional_gaps::<EmbedFooter>(doc, "footer"@, at, found);
        optional_keeps::<EmbedImage>(doc, "image"@, at, found, path);
        let found = optional_gaps::<EmbedImage>(doc, "image"@, at, found);
        optional_keeps::<EmbedImage>(doc, "thumbnail"@, at, found, path);
        let found = optional_gaps::<EmbedImage>(doc, "thumbnail"@, at, found);
        optional_keeps::<EmbedVideo>(doc, "video"@, at, found, path);
        let found = optional_gaps::<EmbedVideo>(doc, "video"@, at, found);
        optional_keeps::<EmbedProvider>(doc, "provider"@, at, found, path);
        let found = optional_gaps::<EmbedProvider>(doc, "provider"@, at, found);
        optional_keeps::<EmbedAuthor>(doc, "author"@, at, found, path);
        let found = optional_gaps::<EmbedAuthor>(doc, "author"@, at, found);
        required_keeps::<Vec<EmbedField>>(doc, "fields"@, at, found, path);
    }

    fn decode(raw: &Value, at: &str, gaps: &mut Vec<String>) -> (r: Option<Self>) {
        let embed = optional::<String>(raw, "embed", at, gaps);
        let type_ = optional::<String>(raw, "type", at, gaps);
        let description = optional::<String>(raw, "description", at, gaps);
        let url = optional::<String>(raw, "url", at, gaps);
        let timestamp = optional::<Timestamp>(raw, "timestamp", at, gaps);
        let color = required::<u32>(raw, "color", at, gaps);
        let footer = optional::<EmbedFooter>(raw, "footer", at, gaps);
        let image = optional::<EmbedImage>(raw, "image", at, gaps);
        let thumbnail = optional::<EmbedImage>(raw, "thumbnail", at, gaps);
        let video = optional::<EmbedVideo>(raw, "video", at, gaps);
        let provider = optional::<EmbedProvider>(raw, "provider", at, gaps);
        let author = optional::<EmbedAuthor>(raw, "author", at, gaps);
        let fields = required::<Vec<EmbedField>>(raw, "fields", at, gaps);
        if embed.is_some()
            && type_.is_some()
            && description.is_some()
            && url.is_some()
            && timestamp.is_some()
            && color.is_some()
            && footer.is_some()
            && image.is_some()
            && thumbnail.is_some()
            && video.is_some()
            && provider.is_some()
            && author.is_some()
            && fields.is_some() {
            Some(
                Embed {
                    embed: embed.unwrap(),
                    type_: type_.unwrap(),
                    description: description.unwrap(),
                    url: url.unwrap(),
                    timestamp: timestamp.unwrap(),
                    color: color.unwrap(),
                    footer: footer.unwrap(),
                    image: image.unwrap(),
                    thumbnail: thumbnail.unwrap(),
                    video: video.unwrap(),
                    provider: provider.unwrap(),
                    author: author.unwrap(),
                    fields: fields.unwrap(),
                },
            )
        } else {
            None
        }
    }
}

/// The footer of an embed.
#[derive(Clone, Debug, PartialEq, Eq)]
pub struct EmbedFooter {
    /// Footer text.
    pub text: String,
    /// URL of footer icon (only supports http(s) and attachments).
    pub icon_url: Option<String>,
    /// A proxied URL of the footer icon.
    pub proxy_icon_url: Option<String>,
}

/// The model of a [`EmbedFooter`]: the same fields, each by its model.
pub ghost struct EmbedFooterModel {
    pub text: Seq<char>,
    pub icon_url: Option<Seq<char>>,
    pub proxy_icon_url: Option<Seq<char>>,
}

impl DeepView for EmbedFooter {
    type V = EmbedFooterModel;

    open spec fn deep_view(&self) -> EmbedFooterModel {
        EmbedFooterModel {
            text: self.text.deep_view(),
            icon_url: self.icon_url.deep_view(),
            proxy_icon_url: self.proxy_icon_url.deep_view(),
        }
    }
}

impl Decode for EmbedFooter {
    open spec fn parse(doc: Doc) -> Option<EmbedFooterModel> {
        if {
            &&& required_parse::<String>(doc, "text"@) is Some
            &&& optional_parse::<String>(doc, "icon_url"@) is Some
            &&& optional_parse::<String>(doc, "proxy_icon_url"@) is Some
        } {
            Some(
                EmbedFooterModel {
                    text: required_parse::<String>(doc, "text"@).unwrap(),
                    icon_url: optional_parse::<String>(doc, "icon_url"@).unwrap(),
                    proxy_icon_url: optional_parse::<String>(doc, "proxy_icon_url"@).unwrap(),
                },
            )
        } else {
            None
        }
    }

    open spec fn gaps(doc: Doc, at: Seq<char>, found: Seq<Seq<char>>) -> Seq<Seq<char>> {
        let found = required_gaps::<String>(doc, "text"@, at, found);
        let found = optional_gaps::<String>(doc, "icon_url"@, at, found);
        let found = optional_gaps::<String>(doc, "proxy_icon_url"@, at, found);
        found
    }

    open spec fn needs(doc: Doc, key: Seq<char>) -> bool {
        key == "text"@
    }

    proof fn gaps_law(doc: Doc, at: Seq<char>, found: Seq<Seq<char>>) {
        let start = found;
        settles_start(start);
        required_step::<String>(doc, "text"@, at, true, start, found);
        let fits = required_parse::<String>(doc, "text"@) is Some;
        let found = required_gaps::<String>(doc, "text"@, at, found);
        optional_step::<String>(doc, "icon_url"@, at, fits, start, found);
        let fits = fits && optional_parse::<String>(doc, "icon_url"@) is Some;
        let found = optional_gaps::<String>(doc, "icon_url"@, at, found);
        optional_step::<String>(doc, "proxy_icon_url"@, at, fits, start, found);
    }

    proof fn absent_is_noted(doc: Doc, at: Seq<char>, found: Seq<Seq<char>>, key: Seq<char>) {
        let path = field_path(at, key);
        required_keeps::<String>(doc, "text"@, at, found, path);
        let found = required_gaps::<String>(doc, "text"@, at, found);
        optional_keeps::<String>(doc, "icon_url"@, at, found, path);
        let found = optional_gaps::<String>(doc, "icon_url"@, at, found);
        optional_keeps::<String>(doc, "proxy_icon_url"@, at, found, path);
    }

    fn decode(raw: &Value, at: &str, gaps: &mut Vec<String>) -> (r: Option<Self>) {
        let text = required::<String>(raw, "text", at, gaps);
        let icon_url = optional::<String>(raw, "icon_url", at, gaps);
        let proxy_icon_url = optional::<String>(raw, "proxy_icon_url", at, gaps);
        if text.is_some()
            && icon_url.is_some()
            && proxy_icon_url.is_some() {
            Some(
                EmbedFooter {
                    text: text.unwrap(),
                    icon_url: icon_url.unwrap(),
                    proxy_icon_url: proxy_icon_url.unwrap(),
                },
            )
        } else {
            None
        }
    }
}

/// The image of an embed.
#[derive(Clone, Debug, PartialEq, Eq)]
pub struct EmbedImage {
    /// Source of the image (http(s) or attachment).
    pub url: Option<String>,
    /// Proxy url of the image.
    pub proxy_url: Option<String>,
    /// The dimensions of the image.
    pub dimensions: Option<Dimensions>,
}

/// The model of a [`EmbedImage`]: the same fields, each by its model.
pub ghost struct EmbedImageModel {
    pub url: Option<Seq<char>>,
    pub proxy_url: Option<Seq<char>>,
    pub dimensions: Option<DimensionsModel>,
}

impl DeepView for EmbedImage {
    type V = EmbedImageModel;

    open spec fn deep_view(&self) -> EmbedImageModel {
        EmbedImageModel {
            url: self.url.deep_view(),
            proxy_url: self.proxy_url.deep_view(),
            dimensions: self.dimensions.deep_view(),
        }
    }
}

impl Decode for EmbedImage {
    open spec fn parse(doc: Doc) -> Option<EmbedImageModel> {
        if {
            &&& optional_parse::<String>(doc, "url"@) is Some
            &&& optional_parse::<String>(doc, "proxy_url"@) is Some
        } {
            Some(
                EmbedImageModel {
                    url: optional_parse::<String>(doc, "url"@).unwrap(),
                    proxy_url: optional_parse::<String>(doc, "proxy_url"@).unwrap(),
                    dimensions: Dimensions::parse(doc),
                },
            )
        } else {
            None
        }
    }

    open spec fn gaps(doc: Doc, at: Seq<char>, found: Seq<Seq<char>>) -> Seq<Seq<char>> {
        let found = optional_gaps::<String>(doc, "url"@, at, found);
        let found = optional_gaps::<String>(doc, "proxy_url"@, at, found);
        found
    }

    open spec fn needs(doc: Doc, key: Seq<char>) -> bool {
        false
    }

    proof fn gaps_law(doc: Doc, at: Seq<char>, found: Seq<Seq<char>>) {
        let start = found;
        settles_start(start);
        optional_step::<String>(doc, "url"@, at, true, start, found);
        let fits = optional_parse::<String>(doc, "url"@) is Some;
        let found = optional_gaps::<String>(doc, "url"@, at, found);
        optional_step::<String>(doc, "proxy_url"@, at, fits, start, found);
    }

    proof fn absent_is_noted(doc: Doc, at: Seq<char>, found: Seq<Seq<char>>, key: Seq<char>) {
    }

    fn decode(raw: &Value, at: &str, gaps: &mut Vec<String>) -> (r: Option<Self>) {
        let url = optional::<String>(raw, "url", at, gaps);
        let proxy_url = optional::<String>(raw, "proxy_url", at, gaps);
        let mut unnoted: Vec<String> = Vec::new();
        let dimensions = Dimensions::decode(raw, at, &mut unnoted);
        if url.is_some()
            && proxy_url.is_some() {
            Some(
                EmbedImage {
                    url: url.unwrap(),
                    proxy_url: proxy_url.unwrap(),
                    dimensions,
                },
            )
        } else {
            None
        }
    }
}

/// The video of an embed.
#[derive(Clone, Debug, PartialEq, Eq)]
pub struct EmbedVideo {
    /// The source url of the video.
    pub url: Option<String>,
    /// The dimensions of the url.
    pub dimensions: Option<Dimensions>,
}

/// The model of a [`EmbedVideo`]: the same fields, each by its model.
pub ghost struct EmbedVideoModel {
    pub url: Option<Seq<char>>,
    pub dimensions: Option<DimensionsModel>,
}

impl DeepView for EmbedVideo {
    type V = EmbedVideoModel;

    open spec fn deep_view(&self) -> EmbedVideoModel {
        EmbedVideoModel {
            url: self.url.deep_view(),
            dimensions: self.dimensions.deep_view(),
        }
    }
}

impl Decode for EmbedVideo {
    open spec fn parse(doc: Doc) -> Option<EmbedVideoModel> {
        if {
            &&& optional_parse::<String>(doc, "url"@) is Some
        } {
            Some(
                EmbedVideoModel {
                    url: optional_parse::<String>(doc, "url"@).unwrap(),
                    dimensions: Dimensions::parse(doc),
                },
            )
        } else {
            None
        }
    }

    open spec fn gaps(doc: Doc, at: Seq<char>, found: Seq<Seq<char>>) -> Seq<Seq<char>> {
        let found = optional_gaps::<String>(doc, "url"@, at, found);
        found
    }

    open spec fn needs(doc: Doc, key: Seq<char>) -> bool {
        false
    }

    proof fn gaps_law(doc: Doc, at: Seq<char>, found: Seq<Seq<char>>) {
        let start = found;
        settles_start(start);
        optional_step::<String>(doc, "url"@, at, true, start, found);
    }

    proof fn absent_is_noted(doc: Doc, at: Seq<char>, found: Seq<Seq<char>>, key: Seq<char>) {
    }

    fn decode(raw: &Value, at: &str, gaps: &mut Vec<String>) -> (r: Option<Self>) {
        let url = optional::<String>(raw, "url", at, gaps);
        let mut unnoted: Vec<String> = Vec::new();
        let dimensions = Dimensions::decode(raw, at, &mut unnoted);
        if url.is_some() {
            Some(
                EmbedVideo {
                    url: url.unwrap(),
                    dimensions,
                },
            )
        } else {
            None
        }
    }
}

/// The provider of an embed.
#[derive(Clone, Debug, PartialEq, Eq)]
pub struct EmbedProvider {
    /// Name of provider.
    pub name: Option<String>,
    /// Url of provider.
    pub url: Option<String>,
}

/// The model of a [`EmbedProvider`]: the same fields, each by its model.
pub ghost struct EmbedProviderModel {
    pub name: Option<Seq<char>>,
    pub url: Option<Seq<char>>,
}

impl DeepView for EmbedProvider {
    type V = EmbedProviderModel;

    open spec fn deep_view(&self) -> EmbedProviderModel {
        EmbedProviderModel {
            name: self.name.deep_view(),
            url: self.url.deep_view(),
        }
    }
}

impl Decode for EmbedProvider {
    open spec fn parse(doc: Doc) -> Option<EmbedProviderModel> {
        if {
            &&& optional_parse::<String>(doc, "name"@) is Some
            &&& optional_parse::<String>(doc, "url"@) is Some
        } {
            Some(
                EmbedProviderModel {
                    name: optional_parse::<String>(doc, "name"@).unwrap(),
                    url: optional_parse::<String>(doc, "url"@).unwrap(),
                },
            )
        } else {
            None
        }
    }

    open spec fn gaps(doc: Doc, at: Seq<char>, found: Seq<Seq<char>>) -> Seq<Seq<char>> {
        let found = optional_gaps::<String>(doc, "name"@, at, found);
        let found = optional_gaps::<String>(doc, "url"@, at, found);
        found
    }

    open spec fn needs(doc: Doc, key: Seq<char>) -> bool {
        false
    }

    proof fn gaps_law(doc: Doc, at: Seq<char>, found: Seq<Seq<char>>) {
        let start = found;
        settles_start(start);
        optional_step::<String>(doc, "name"@, at, true, start, found);
        let fits = optional_parse::<String>(doc, "name"@) is Some;
        let found = optional_gaps::<String>(doc, "name"@, at, found);
        optional_step::<String>(doc, "url"@, at, fits, start, found);
    }

    proof fn absent_is_noted(doc: Doc, at: Seq<char>, found: Seq<Seq<char>>, key: Seq<char>) {
    }

    fn decode(raw: &Value, at: &str, gaps: &mut Vec<String>) -> (r: Option<Self>) {
        let name = optional::<String>(raw, "name", at, gaps);
        let url = optional::<String>(raw, "url", at, gaps);
        if name.is_some()
            && url.is_some() {
            Some(
                EmbedProvider {
                    name: name.unwrap(),
                    url: url.unwrap(),
                },
            )
        } else {
            None
        }
    }
}

/// The author of an embed.
#[derive(Clone, Debug, PartialEq, Eq)]
pub struct EmbedAuthor {
    /// The name of the author.
    pub name: Option<String>,
    /// The url of the author.
    pub url: Option<String>,
    /// The url source of the author icon.
    pub icon_url: Option<String>,
    /// The proxy url of the author icon.
    pub proxy_icon_url: Option<String>,
}

/// The model of a [`EmbedAuthor`]: the same fields, each by its model.
pub ghost struct EmbedAuthorModel {
    pub name: Option<Seq<char>>,
    pub url: Option<Seq<char>>,
    pub icon_url: Option<Seq<char>>,
    pub proxy_icon_url: Option<Seq<char>>,
}

impl DeepView for EmbedAuthor {
    type V = EmbedAuthorModel;

    open spec fn deep_view(&self) -> EmbedAuthorModel {
        EmbedAuthorModel {
            name: self.name.deep_view(),
            url: self.url.deep_view(),
            icon_url: self.icon_url.deep_view(),
            proxy_icon_url: self.proxy_icon_url.deep_view(),
        }
    }
}

impl Decode for EmbedAuthor {
    open spec fn parse(doc: Doc) -> Option<EmbedAuthorModel> {
        if {
            &&& optional_parse::<String>(doc, "name"@) is Some
            &&& optional_parse::<String>(doc, "url"@) is Some
            &&& optional_parse::<String>(doc, "icon_url"@) is Some
            &&& optional_parse::<String>(doc, "proxy_icon_url"@) is Some
        } {
            Some(
                EmbedAuthorModel {
                    name: optional_parse::<String>(doc, "name"@).unwrap(),
                    url: optional_parse::<String>(doc, "url"@).unwrap(),
                    icon_url: optional_parse::<String>(doc, "icon_url"@).unwrap(),
                    proxy_icon_url: optional_parse::<String>(doc, "proxy_icon_url"@).unwrap(),
                },
            )
        } else {
            None
        }
    }

    open spec fn gaps(doc: Doc, at: Seq<char>, found: Seq<Seq<char>>) -> Seq<Seq<char>> {
        let found = optional_gaps::<String>(doc, "name"@, at, found);
        let found = optional_gaps::<String>(doc, "url"@, at, found);
        let found = optional_gaps::<String>(doc, "icon_url"@, at, found);
        let found = optional_gaps::<String>(doc, "proxy_icon_url"@, at, found);
        found
    }

    open spec fn needs(doc: Doc, key: Seq<char>) -> bool {
        false
    }

    proof fn gaps_law(doc: Doc, at: Seq<char>, found: Seq<Seq<char>>) {
        let start = found;
        settles_start(start);
        optional_step::<String>(doc, "name"@, at, true, start, found);
        let fits = optional_parse::<String>(doc, "name"@) is Some;
        let found = optional_gaps::<String>(doc, "name"@, at, found);
        optional_step::<String>(doc, "url"@, at, fits, start, found);
        let fits = fits && optional_parse::<String>(doc, "url"@) is Some;
        let found = optional_gaps::<String>(doc, "url"@, at, found);
        optional_step::<String>(doc, "icon_url"@, at, fits, start, found);
        let fits = fits && optional_parse::<String>(doc, "icon_url"@) is Some;
        let found = optional_gaps::<String>(doc, "icon_url"@, at, found);
        optional_step::<String>(doc, "proxy_icon_url"@, at, fits, start, found);
    }

    proof fn absent_is_noted(doc: Doc, at: Seq<char>, found: Seq<Seq<char>>, key: Seq<char>) {
    }

    fn decode(raw: &Value, at: &str, gaps: &mut Vec<String>) -> (r: Option<Self>) {
        let name = optional::<String>(raw, "name", at, gaps);
        let url = optional::<String>(raw, "url", at, gaps);
        let icon_url = optional::<String>(raw, "icon_url", at, gaps);
        let proxy_icon_url = optional::<String>(raw, "proxy_icon_url", at, gaps);
        if name.is_some()
            && url.is_some()
            && icon_url.is_some()
            && proxy_icon_url.is_some() {
            Some(
                EmbedAuthor {
                    name: name.unwrap(),
                    url: url.unwrap(),
                    icon_url: icon_url.unwrap(),
                    proxy_icon_url: proxy_icon_url.unwrap(),
                },
            )
        } else {
            None
        }
    }
}

/// A field of an embed.
#[derive(Clone, Debug, PartialEq, Eq)]
pub struct EmbedField {
    /// Name of the field.
    pub name: String,
    /// Value of the field.
    pub value: String,
    /// Whether or not the field should be inline.
    pub inline: Option<bool>,
}

/// The model of a [`EmbedField`]: the same fields, each by its model.
pub ghost struct EmbedFieldModel {
    pub name: Seq<char>,
    pub value: Seq<char>,
    pub inline: Option<bool>,
}

impl DeepView for EmbedField {
    type V = EmbedFieldModel;

    open spec fn deep_view(&self) -> EmbedFieldModel {
        EmbedFieldModel {
            name: self.name.deep_view(),
            value: self.value.deep_view(),
            inline: self.inline.deep_view(),
        }
    }
}

impl Decode for EmbedField {
    open spec fn parse(doc: Doc) -> Option<EmbedFieldModel> {
        if {
            &&& required_parse::<String>(doc, "name"@) is Some
            &&& required_parse::<String>(doc, "value"@) is Some
            &&& optional_parse::<bool>(doc, "inline"@) is Some
        } {
            Some(
                EmbedFieldModel {
                    name: required_parse::<String>(doc, "name"@).unwrap(),
                    value: required_parse::<String>(doc, "value"@).unwrap(),
                    inline: optional_parse::<bool>(doc, "inline"@).unwrap(),
                },
            )
        } else {
            None
        }
    }

    open spec fn gaps(doc: Doc, at: Seq<char>, found: Seq<Seq<char>>) -> Seq<Seq<char>> {
        let found = required_gaps::<String>(doc, "name"@, at, found);
        let found = required_gaps::<String>(doc, "value"@, at, found);
        let found = optional_gaps::<bool>(doc, "inline"@, at, found);
        found
    }

    open spec fn needs(doc: Doc, key: Seq<char>) -> bool {
        ||| key == "name"@
        ||| key == "value"@
    }

    proof fn gaps_law(doc: Doc, at: Seq<char>, found: Seq<Seq<char>>) {
        let start = found;
        settles_start(start);
        required_step::<String>(doc, "name"@, at, true, start, found);
        let fits = required_parse::<String>(doc, "name"@) is Some;
        let found = required_gaps::<String>(doc, "name"@, at, found);
        required_step::<String>(doc, "value"@, at, fits, start, found);
        let fits = fits && required_parse::<String>(doc, "value"@) is Some;
        let found = required_gaps::<String>(doc, "value"@, at, found);
        optional_step::<bool>(doc, "inline"@, at, fits, start, found);
    }

    proof fn absent_is_noted(doc: Doc, at: Seq<char>, found: Seq<Seq<char>>, key: Seq<char>) {
        let path = field_path(at, key);
        required_keeps::<String>(doc, "name"@, at, found, path);
        let found = required_gaps::<String>(doc, "name"@, at, found);
        required_keeps::<String>(doc, "value"@, at, found, path);
        let found = required_gaps::<String>(doc, "value"@, at, found);
        optional_keeps::<bool>(doc, "inline"@, at, found, path);
    }

    fn decode(raw: &Value, at: &str, gaps: &mut Vec<String>) -> (r: Option<Self>) {
        let name = required::<String>(raw, "name", at, gaps);
        let value = required::<String>(raw, "value", at, gaps);
        let inline = optional::<bool>(raw, "inline", at, gaps);
        if name.is_some()
            && value.is_some()
            && inline.is_some() {
            Some(
                EmbedField {
                    name: name.unwrap(),
                    value: value.unwrap(),
                    inline: inline.unwrap(),
                },
            )
        } else {
            None
        }
    }
}

} // verus!
