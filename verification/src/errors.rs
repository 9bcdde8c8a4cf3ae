//! The error taxonomy of the polling engine.
//!
//! Every failure a tick can meet falls in one of four kinds: the network
//! fetch failed, the fetched document was not a usable feed, the channel
//! history could not be read, or the gateway rejected the send.  A failed
//! tick never takes the scheduler down: it is reported and the job stays
//! armed for the next firing.

use vstd::prelude::*;

verus! {

/// A network-layer failure while retrieving the feed document.
#[derive(Clone, Copy, Debug, PartialEq, Eq, Structural)]
pub enum FetchError {
    /// The retrieval did not finish in time.
    Timeout,
    /// The host could not be resolved or the connection failed.
    Connection,
    /// The server answered with a non-success status code.
    HttpStatus(u16),
}

/// The fetched document could not be turned into an announceable item.
#[derive(Clone, Copy, Debug, PartialEq, Eq, Structural)]
pub enum ParseError {
    /// The document is not a well-formed feed.
    Malformed,
    /// The feed parsed but holds no items at all.
    EmptyFeed,
    /// The newest item carries no link, so it cannot be announced.
    MissingLink,
}

/// The destination channel's history could not be read.
#[derive(Clone, Copy, Debug, PartialEq, Eq, Structural)]
pub enum HistoryLookupError {
    /// The gateway refused or failed the history query.
    Unreadable,
}

/// The gateway refused to accept the announcement.
#[derive(Clone, Copy, Debug, PartialEq, Eq, Structural)]
pub enum DeliveryError {
    /// The send was rejected; the next tick retries naturally.
    Rejected,
}

/// Everything that can abort a single tick, tagged by the step it came from.
#[derive(Clone, Copy, Debug, PartialEq, Eq, Structural)]
pub enum TickError {
    Fetch(FetchError),
    Parse(ParseError),
    History(HistoryLookupError),
    Delivery(DeliveryError),
}

} // verus!
