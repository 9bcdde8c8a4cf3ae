//! Rendering a feed item into an announcement payload.
//!
//! Two rendering modes exist, chosen once for a deployment and never mixed:
//! a plain announcement whose whole body is the item's link, and a rich card
//! carrying title, description, link, a fixed thumbnail, a fixed accent
//! color and an attribution footer.  Rendering is a pure function of the
//! item; an item without an author is attributed to "Unknown".
//!
//! The mode also fixes which field of an announcement is its fingerprint
//! for deduplication: the link in plain mode, the title in rich mode.

use vstd::prelude::*;
use vstd::string::StringExecFns;

use crate::item::{opt_str_view, FeedItemModel, FeedItem};

verus! {

/// How announcements are rendered, fixed for the lifetime of a deployment.
#[derive(Clone, Copy, Debug, PartialEq, Eq, Structural)]
pub enum RenderMode {
    /// The announcement is the item's link, nothing else.
    Plain,
    /// The announcement is a structured card.
    Rich,
}

/// The accent color of a rich announcement card.
pub const ACCENT_COLOR: u32 = 0x00AEEF;

/// The thumbnail every rich announcement card carries.
pub open spec fn spec_thumbnail() -> Seq<char> {
    "https://www.dlnews.com/favicon.ico"@
}

/// The fixed thumbnail image reference of a rich card.
pub fn thumbnail_source() -> (r: &'static str)
    ensures
        r@ == spec_thumbnail(),
{
    "https://www.dlnews.com/favicon.ico"
}

/// An announcement ready for delivery.
#[derive(Clone, Debug)]
pub enum MessagePayload {
    /// A bare message whose body is the item's link.
    Plain { body: String },
    /// A structured card.
    Rich {
        title: String,
        body: String,
        url: String,
        thumbnail: String,
        color: u32,
        footer: String,
    },
}

/// The mathematical image of a `MessagePayload`.
#[verifier::ext_equal]
pub enum MessagePayloadModel {
    Plain { body: Seq<char> },
    Rich {
        title: Seq<char>,
        body: Seq<char>,
        url: Seq<char>,
        thumbnail: Seq<char>,
        color: u32,
        footer: Seq<char>,
    },
}

impl View for MessagePayload {
    type V = MessagePayloadModel;

    open spec fn view(&self) -> MessagePayloadModel {
        match self {
            MessagePayload::Plain { body } => MessagePayloadModel::Plain { body: body@ },
            MessagePayload::Rich { title, body, url, thumbnail, color, footer } => (
                MessagePayloadModel::Rich {
                    title: title@,
                    body: body@,
                    url: url@,
                    thumbnail: thumbnail@,
                    color: *color,
                    footer: footer@,
                }
            ),
        }
    }
}

/// Whom an announcement is attributed to: the item's author, or "Unknown".
pub open spec fn spec_author(author: Option<Seq<char>>) -> Seq<char> {
    match author {
        Some(a) => a,
        None => "Unknown"@,
    }
}

/// The attribution footer of a rich card.
pub open spec fn spec_footer(author: Option<Seq<char>>) -> Seq<char> {
    "By "@ + spec_author(author)
}

/// Build the attribution footer for an optional author.
pub fn footer_line(author: &Option<String>) -> (r: String)
    ensures
        r@ == spec_footer(opt_str_view(*author)),
{
    let mut line = String::from_str("By ");
    match author {
        Some(a) => line.append(a.as_str()),
        None => line.append("Unknown"),
    }
    line
}

/// What rendering makes of an item in a given mode.
pub open spec fn spec_render(item: FeedItemModel, mode: RenderMode) -> MessagePayloadModel {
    match mode {
        RenderMode::Plain => MessagePayloadModel::Plain { body: item.link },
        RenderMode::Rich => MessagePayloadModel::Rich {
            title: item.title,
            body: item.description,
            url: item.link,
            thumbnail: spec_thumbnail(),
            color: ACCENT_COLOR,
            footer: spec_footer(item.author),
        },
    }
}

/// Render an item into the announcement payload of the given mode.
///
/// Rendering never fails: a missing author falls back to "Unknown".
pub fn render(item: &FeedItem, mode: RenderMode) -> (r: MessagePayload)
    ensures
        r@ == spec_render(item@, mode),
{
    match mode {
        RenderMode::Plain => MessagePayload::Plain { body: item.link.clone() },
        RenderMode::Rich => MessagePayload::Rich {
            title: item.title.clone(),
            body: item.description.clone(),
            url: item.link.clone(),
            thumbnail: String::from_str(thumbnail_source()),
            color: ACCENT_COLOR,
            footer: footer_line(&item.author),
        },
    }
}

/// Fallback attribution: an item without an author renders, in rich mode,
/// with the footer "By Unknown".
pub proof fn lemma_fallback_attribution(item: FeedItemModel)
    requires
        item.author is None,
    ensures
        spec_render(item, RenderMode::Rich) matches MessagePayloadModel::Rich { footer, .. }
            && footer == "By Unknown"@,
{
    reveal_strlit("By ");
    reveal_strlit("Unknown");
    reveal_strlit("By Unknown");
    assert(spec_footer(None) =~= "By Unknown"@);
}

} // verus!
