//! Reading a feed document.
//!
//! The document arrives as raw bytes (the surrounding program performs the
//! network fetch); the `rss` crate parses them.  Parsing is a pure function
//! of the bytes, so its outcome is named by `rss_items_of`: `None` when the
//! bytes are not a well-formed feed, otherwise the items of the feed in the
//! document's own order, newest first by feed convention.

use vstd::prelude::*;

use crate::errors::ParseError;
use crate::item::{raw_models, RawItem, RawItemModel};

verus! {

/// The error type of the `rss` crate, opaque to this library.
#[verifier::external_type_specification]
#[verifier::external_body]
pub struct ExRssError(rss::Error);

/// What parsing a feed document yields: `None` exactly when the bytes are
/// not a well-formed feed, otherwise its items in document order.
pub uninterp spec fn rss_items_of(bytes: Seq<u8>) -> Option<Seq<RawItemModel>>;

/// Relies on rss::Channel::read_from: parsing a feed document is a function
/// of the bytes alone, it fails exactly on malformed documents, and the
/// channel's items come back in the document's own order.
#[verifier::external_body]
fn read_rss(bytes: &[u8]) -> (r: Result<Vec<RawItem>, rss::Error>)
    ensures
        match r {
            Ok(items) => rss_items_of(bytes@) == Some(raw_models(items@)),
            Err(_) => rss_items_of(bytes@) is None,
        },
{
    let channel = rss::Channel::read_from(bytes)?;
    let mut out: Vec<RawItem> = Vec::new();
    for it in channel.items {
        out.push(RawItem {
            title: it.title,
            description: it.description,
            link: it.link,
            author: it.author,
        });
    }
    Ok(out)
}

/// Parse a fetched feed document into its items, newest first.
///
/// Returns `Malformed` — the only error this step can produce — exactly when
/// the bytes are not a well-formed feed.
pub fn parse_feed(bytes: &[u8]) -> (r: Result<Vec<RawItem>, ParseError>)
    ensures
        match r {
            Ok(items) => rss_items_of(bytes@) == Some(raw_models(items@)),
            Err(e) => e == ParseError::Malformed && rss_items_of(bytes@) is None,
        },
{
    match read_rss(bytes) {
        Ok(items) => Ok(items),
        Err(_) => Err(ParseError::Malformed),
    }
}

} // verus!
