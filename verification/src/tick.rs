//! One tick of the polling job: fetch result in, decision out.
//!
//! A tick takes what the network handed back — the feed bytes (or a fetch
//! failure) and the channel's most recent message (or a lookup failure) —
//! and decides what to do: announce the newest item, stay silent because it
//! was already announced, or record why nothing could be decided.  Every
//! failure is confined to its tick; the decision never panics and never
//! loses the job.

use vstd::prelude::*;

use crate::detect::{
    fingerprint_of, is_new, spec_fingerprint, spec_is_new, spec_key, LastMessage,
    LastMessageModel,
};
use crate::errors::{DeliveryError, FetchError, HistoryLookupError, ParseError, TickError};
use crate::feed::{parse_feed, rss_items_of};
use crate::item::{latest_item, raw_models, spec_latest, FeedItemModel, RawItem, RawItemModel};
use crate::render::{render, spec_render, MessagePayload, MessagePayloadModel, RenderMode};

verus! {

/// What a tick decided.
#[derive(Clone, Debug)]
pub enum TickOutcome {
    /// The newest item is novel: deliver this payload, once.
    Announce(MessagePayload),
    /// The newest item was already announced: deliver nothing.
    Duplicate,
    /// The tick could not decide; the job stays armed for the next firing.
    Failed(TickError),
}

/// The mathematical image of a `TickOutcome`.
#[verifier::ext_equal]
pub enum TickOutcomeModel {
    Announce(MessagePayloadModel),
    Duplicate,
    Failed(TickError),
}

impl View for TickOutcome {
    type V = TickOutcomeModel;

    open spec fn view(&self) -> TickOutcomeModel {
        match self {
            TickOutcome::Announce(p) => TickOutcomeModel::Announce(p@),
            TickOutcome::Duplicate => TickOutcomeModel::Duplicate,
            TickOutcome::Failed(e) => TickOutcomeModel::Failed(*e),
        }
    }
}

/// The mathematical image of a history lookup's result: the most recent
/// message if one exists, `Ok(None)` for an empty channel.
pub open spec fn spec_history_model(
    history: Result<Option<LastMessage>, HistoryLookupError>,
) -> Result<Option<LastMessageModel>, HistoryLookupError> {
    match history {
        Ok(Some(m)) => Ok(Some(m@)),
        Ok(None) => Ok(None),
        Err(e) => Err(e),
    }
}

/// The fingerprint the channel offers: none when the channel is empty or its
/// last message yields no comparable key in this mode.
pub open spec fn spec_history_fingerprint(
    prev: Option<LastMessageModel>,
    mode: RenderMode,
) -> Option<Seq<char>> {
    match prev {
        Some(m) => spec_fingerprint(m, mode),
        None => None,
    }
}

/// The decision a tick takes over an already-parsed feed: announce the
/// rendering of the newest item exactly when its key differs from the
/// channel's fingerprint; otherwise stay silent; fail only when the feed
/// offers no announceable newest item or the history cannot be read.
pub open spec fn spec_decide(
    items: Seq<RawItemModel>,
    history: Result<Option<LastMessageModel>, HistoryLookupError>,
    mode: RenderMode,
) -> TickOutcomeModel {
    match spec_latest(items) {
        Err(e) => TickOutcomeModel::Failed(TickError::Parse(e)),
        Ok(item) => match history {
            Err(e) => TickOutcomeModel::Failed(TickError::History(e)),
            Ok(prev) => if spec_is_new(item, spec_history_fingerprint(prev, mode), mode) {
                TickOutcomeModel::Announce(spec_render(item, mode))
            } else {
                TickOutcomeModel::Duplicate
            },
        },
    }
}

/// Decide a tick over an already-parsed feed.
///
/// Only the newest item is considered.  The outcome is `Announce` with the
/// item's rendering exactly when the item's key differs from the channel's
/// fingerprint (an empty channel, or a last message without a comparable
/// key, counts as different); `Duplicate` exactly when the two are equal;
/// and `Failed` exactly on an empty feed, a newest item without a link, or
/// an unreadable history.
pub fn evaluate_tick(
    items: &Vec<RawItem>,
    history: &Result<Option<LastMessage>, HistoryLookupError>,
    mode: RenderMode,
) -> (r: TickOutcome)
    ensures
        r@ == spec_decide(raw_models(items@), spec_history_model(*history), mode),
{
    match latest_item(items) {
        Err(e) => TickOutcome::Failed(TickError::Parse(e)),
        Ok(item) => match history {
            Err(e) => TickOutcome::Failed(TickError::History(*e)),
            Ok(prev) => {
                let fingerprint = match prev {
                    Some(m) => fingerprint_of(m, mode),
                    None => None,
                };
                if is_new(&item, &fingerprint, mode) {
                    TickOutcome::Announce(render(&item, mode))
                } else {
                    TickOutcome::Duplicate
                }
            },
        },
    }
}

/// What a whole tick decides, from the raw results of the two network
/// queries: a fetch failure or a malformed document fails the tick, and a
/// parsed feed is decided by `spec_decide`.
pub open spec fn spec_tick(
    fetch: Result<Seq<u8>, FetchError>,
    history: Result<Option<LastMessageModel>, HistoryLookupError>,
    mode: RenderMode,
) -> TickOutcomeModel {
    match fetch {
        Err(e) => TickOutcomeModel::Failed(TickError::Fetch(e)),
        Ok(bytes) => match rss_items_of(bytes) {
            None => TickOutcomeModel::Failed(TickError::Parse(ParseError::Malformed)),
            Some(items) => spec_decide(items, history, mode),
        },
    }
}

/// The mathematical image of a fetch result.
pub open spec fn spec_fetch_model(
    fetch: Result<Vec<u8>, FetchError>,
) -> Result<Seq<u8>, FetchError> {
    match fetch {
        Ok(bytes) => Ok(bytes@),
        Err(e) => Err(e),
    }
}

/// Run the decision half of one tick: parse the fetched document, select
/// its newest item, and decide against the channel's last announcement.
/// No failure escapes as a panic; each is returned in the outcome.
pub fn run_tick(
    fetch: &Result<Vec<u8>, FetchError>,
    history: &Result<Option<LastMessage>, HistoryLookupError>,
    mode: RenderMode,
) -> (r: TickOutcome)
    ensures
        r@ == spec_tick(spec_fetch_model(*fetch), spec_history_model(*history), mode),
{
    match fetch {
        Err(e) => TickOutcome::Failed(TickError::Fetch(*e)),
        Ok(bytes) => match parse_feed(bytes.as_slice()) {
            Err(e) => TickOutcome::Failed(TickError::Parse(e)),
            Ok(items) => evaluate_tick(&items, history, mode),
        },
    }
}

/// Fold the gateway's answer to a send into the tick's account: a rejected
/// send is surfaced as a delivery failure and never retried within the tick;
/// the next tick retries naturally.
pub fn conclude_send(send: &Result<(), DeliveryError>) -> (r: Option<TickError>)
    ensures
        r == match *send {
            Ok(_) => None::<TickError>,
            Err(e) => Some(TickError::Delivery(e)),
        },
{
    match send {
        Ok(_) => None,
        Err(e) => Some(TickError::Delivery(*e)),
    }
}

/// What the destination channel remembers of a delivered payload: a plain
/// announcement is stored as the message's text body; a rich card is stored
/// with its title as the embedded card's title.
pub open spec fn spec_stored_message(p: MessagePayloadModel) -> LastMessageModel {
    match p {
        MessagePayloadModel::Plain { body } => LastMessageModel {
            content: body,
            embed_title: None,
        },
        MessagePayloadModel::Rich { title, .. } => LastMessageModel {
            content: Seq::<char>::empty(),
            embed_title: Some(title),
        },
    }
}

/// The channel's history after a tick: an announcement puts its payload on
/// top; anything else leaves the history as it was.
pub open spec fn spec_history_after(
    outcome: TickOutcomeModel,
    history: Result<Option<LastMessageModel>, HistoryLookupError>,
) -> Result<Option<LastMessageModel>, HistoryLookupError> {
    match outcome {
        TickOutcomeModel::Announce(p) => Ok(Some(spec_stored_message(p))),
        _ => history,
    }
}

/// Idempotence: a tick that decided — whether it announced or stayed silent
/// — leaves the channel in a state in which a second tick over an unchanged
/// feed announces nothing.
pub proof fn lemma_idempotence(
    items: Seq<RawItemModel>,
    history: Result<Option<LastMessageModel>, HistoryLookupError>,
    mode: RenderMode,
)
    requires
        !(spec_decide(items, history, mode) is Failed),
    ensures
        spec_decide(
            items,
            spec_history_after(spec_decide(items, history, mode), history),
            mode,
        ) == TickOutcomeModel::Duplicate,
{
    let item = spec_latest(items)->Ok_0;
    if spec_decide(items, history, mode) is Announce {
        let p = spec_render(item, mode);
        assert(spec_fingerprint(spec_stored_message(p), mode) == Some(spec_key(item, mode)));
    }
}

/// Novelty: over a readable history whose fingerprint differs from the
/// newest item's key — or that yields no fingerprint at all — the decision
/// is exactly one announcement, rendered deterministically from that item.
pub proof fn lemma_novelty(
    items: Seq<RawItemModel>,
    prev: Option<LastMessageModel>,
    mode: RenderMode,
    item: FeedItemModel,
)
    requires
        spec_latest(items) == Ok::<FeedItemModel, ParseError>(item),
        spec_history_fingerprint(prev, mode) != Some(spec_key(item, mode)),
    ensures
        spec_decide(items, Ok(prev), mode) == TickOutcomeModel::Announce(
            spec_render(item, mode),
        ),
{
}

/// Ordering: the decision reads only the newest item; two feeds that agree
/// on their first item are decided alike, whatever follows it.
pub proof fn lemma_only_newest_considered(
    items1: Seq<RawItemModel>,
    items2: Seq<RawItemModel>,
    history: Result<Option<LastMessageModel>, HistoryLookupError>,
    mode: RenderMode,
)
    requires
        items1.len() > 0,
        items2.len() > 0,
        items1[0] == items2[0],
    ensures
        spec_decide(items1, history, mode) == spec_decide(items2, history, mode),
{
}

} // verus!
