//! Feed items: the raw shape a feed parser hands back, and the normalized
//! shape the rest of the engine works on.
//!
//! A raw item may lack any of its fields.  Normalization fills the title and
//! description with the empty string and keeps the author optional; the link
//! is the one field an announcement cannot do without, so an item without a
//! link does not normalize.  Only the newest item of a feed is ever
//! considered for announcement.

use vstd::prelude::*;

use crate::errors::ParseError;

verus! {

/// The mathematical image of an optional string.
pub open spec fn opt_str_view(o: Option<String>) -> Option<Seq<char>> {
    match o {
        Some(s) => Some(s@),
        None => None,
    }
}

/// An item as the feed document carries it: every field may be missing.
#[derive(Clone, Debug)]
pub struct RawItem {
    pub title: Option<String>,
    pub description: Option<String>,
    pub link: Option<String>,
    pub author: Option<String>,
}

/// The mathematical image of a `RawItem`.
#[verifier::ext_equal]
pub struct RawItemModel {
    pub title: Option<Seq<char>>,
    pub description: Option<Seq<char>>,
    pub link: Option<Seq<char>>,
    pub author: Option<Seq<char>>,
}

impl View for RawItem {
    type V = RawItemModel;

    open spec fn view(&self) -> RawItemModel {
        RawItemModel {
            title: opt_str_view(self.title),
            description: opt_str_view(self.description),
            link: opt_str_view(self.link),
            author: opt_str_view(self.author),
        }
    }
}

/// The image of a whole parsed feed: its items, newest first.
pub open spec fn raw_models(items: Seq<RawItem>) -> Seq<RawItemModel> {
    items.map_values(|it: RawItem| it@)
}

/// An item ready for rendering: title and description always present
/// (possibly empty), the link always present, the author still optional.
#[derive(Clone, Debug)]
pub struct FeedItem {
    pub title: String,
    pub description: String,
    pub link: String,
    pub author: Option<String>,
}

/// The mathematical image of a `FeedItem`.
#[verifier::ext_equal]
pub struct FeedItemModel {
    pub title: Seq<char>,
    pub description: Seq<char>,
    pub link: Seq<char>,
    pub author: Option<Seq<char>>,
}

impl View for FeedItem {
    type V = FeedItemModel;

    open spec fn view(&self) -> FeedItemModel {
        FeedItemModel {
            title: self.title@,
            description: self.description@,
            link: self.link@,
            author: opt_str_view(self.author),
        }
    }
}

/// What normalization makes of one raw item: `None` exactly when the item
/// has no link.
pub open spec fn spec_normalize(raw: RawItemModel) -> Option<FeedItemModel> {
    match raw.link {
        None => None,
        Some(link) => Some(
            FeedItemModel {
                title: match raw.title {
                    Some(t) => t,
                    None => Seq::<char>::empty(),
                },
                description: match raw.description {
                    Some(d) => d,
                    None => Seq::<char>::empty(),
                },
                link: link,
                author: raw.author,
            },
        ),
    }
}

/// Fill the optional fields of a raw item; fail only on a missing link.
pub fn normalize_item(raw: &RawItem) -> (r: Option<FeedItem>)
    ensures
        match r {
            Some(item) => spec_normalize(raw@) == Some(item@),
            None => spec_normalize(raw@) is None,
        },
{
    match &raw.link {
        None => None,
        Some(link) => Some(
            FeedItem {
                title: match &raw.title {
                    Some(t) => t.clone(),
                    None => String::new(),
                },
                description: match &raw.description {
                    Some(d) => d.clone(),
                    None => String::new(),
                },
                link: link.clone(),
                author: match &raw.author {
                    Some(a) => Some(a.clone()),
                    None => None,
                },
            },
        ),
    }
}

/// Which item of a parsed feed is announced, if any: the item at index zero,
/// normalized.  The feed's native order is newest first, so no other item is
/// ever looked at.
pub open spec fn spec_latest(items: Seq<RawItemModel>) -> Result<FeedItemModel, ParseError> {
    if items.len() == 0 {
        Err(ParseError::EmptyFeed)
    } else {
        match spec_normalize(items[0]) {
            Some(item) => Ok(item),
            None => Err(ParseError::MissingLink),
        }
    }
}

/// Select the newest item of the feed and normalize it.
///
/// Fails with `EmptyFeed` on a feed without items and with `MissingLink`
/// when the newest item has no link; items past index zero are not read.
pub fn latest_item(items: &Vec<RawItem>) -> (r: Result<FeedItem, ParseError>)
    ensures
        match r {
            Ok(item) => spec_latest(raw_models(items@)) == Ok::<FeedItemModel, ParseError>(item@),
            Err(e) => spec_latest(raw_models(items@)) == Err::<FeedItemModel, ParseError>(e),
        },
{
    if items.len() == 0 {
        Err(ParseError::EmptyFeed)
    } else {
        let first = &items[0];
        match normalize_item(first) {
            Some(item) => Ok(item),
            None => Err(ParseError::MissingLink),
        }
    }
}

} // verus!
