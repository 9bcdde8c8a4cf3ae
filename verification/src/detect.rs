//! Novelty detection: deciding whether the newest feed item has already
//! been announced.
//!
//! The destination channel is the only dedup ledger.  The most recent
//! message of the channel yields a fingerprint — its body in plain mode, the
//! title of its embedded card in rich mode — and the newest item is novel
//! exactly when that fingerprint differs from the item's own key.  A channel
//! whose last message yields no fingerprint (or an empty channel) makes
//! every item novel.

use vstd::prelude::*;

use crate::item::{opt_str_view, FeedItem, FeedItemModel};
use crate::render::RenderMode;

verus! {

/// What the engine reads of the most recent channel message: its plain text
/// body, and the title of its embedded card if it carries one.
#[derive(Clone, Debug)]
pub struct LastMessage {
    pub content: String,
    pub embed_title: Option<String>,
}

/// The mathematical image of a `LastMessage`.
#[verifier::ext_equal]
pub struct LastMessageModel {
    pub content: Seq<char>,
    pub embed_title: Option<Seq<char>>,
}

impl View for LastMessage {
    type V = LastMessageModel;

    open spec fn view(&self) -> LastMessageModel {
        LastMessageModel { content: self.content@, embed_title: opt_str_view(self.embed_title) }
    }
}

/// The comparison key of an item: its link in plain mode, its title in rich
/// mode — the same field a delivered announcement exposes to later lookups.
pub open spec fn spec_key(item: FeedItemModel, mode: RenderMode) -> Seq<char> {
    match mode {
        RenderMode::Plain => item.link,
        RenderMode::Rich => item.title,
    }
}

/// The comparison key of an item in the given mode.
pub fn item_key<'a>(item: &'a FeedItem, mode: RenderMode) -> (r: &'a String)
    ensures
        r@ == spec_key(item@, mode),
{
    match mode {
        RenderMode::Plain => &item.link,
        RenderMode::Rich => &item.title,
    }
}

/// The fingerprint a channel message yields, if any: its body in plain
/// mode; in rich mode the title of its embedded card, which a plain message
/// does not have.
pub open spec fn spec_fingerprint(msg: LastMessageModel, mode: RenderMode) -> Option<Seq<char>> {
    match mode {
        RenderMode::Plain => Some(msg.content),
        RenderMode::Rich => msg.embed_title,
    }
}

/// Extract the fingerprint of the most recent channel message.
pub fn fingerprint_of(msg: &LastMessage, mode: RenderMode) -> (r: Option<String>)
    ensures
        opt_str_view(r) == spec_fingerprint(msg@, mode),
{
    match mode {
        RenderMode::Plain => Some(msg.content.clone()),
        RenderMode::Rich => match &msg.embed_title {
            Some(t) => Some(t.clone()),
            None => None,
        },
    }
}

/// Whether an item is novel against a fingerprint: it is a duplicate exactly
/// when the fingerprint equals the item's key; the absence of a fingerprint
/// makes it novel.
pub open spec fn spec_is_new(
    item: FeedItemModel,
    fingerprint: Option<Seq<char>>,
    mode: RenderMode,
) -> bool {
    fingerprint != Some(spec_key(item, mode))
}

/// Decide whether the newest item is novel relative to the last announcement
/// fingerprint.  Pure and deterministic; no prior fingerprint means novel.
pub fn is_new(item: &FeedItem, fingerprint: &Option<String>, mode: RenderMode) -> (r: bool)
    ensures
        r == spec_is_new(item@, opt_str_view(*fingerprint), mode),
{
    match fingerprint {
        None => true,
        Some(f) => {
            let key = item_key(item, mode);
            !(*f == *key)
        },
    }
}

} // verus!
