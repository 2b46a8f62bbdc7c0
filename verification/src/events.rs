//! Structured observability events.
//!
//! Every state-changing, user-visible transition emits one versioned
//! envelope holding an event kind and its payload. The envelope is a plain
//! value here; rendering it for an external indexer is the host's concern.

use vstd::prelude::*;

verus! {

use crate::SnipeStatus;

/// The versioned envelope around every event this contract emits.
#[derive(Debug)]
pub enum NearEvent {
    SnipeNear(SnipeNearEvent),
}

/// The body of the envelope: a schema version and the event itself.
#[derive(Debug)]
pub struct SnipeNearEvent {
    pub version: String,
    pub event_kind: SnipeNearEventKind,
}

/// The kinds of event, one per user-visible transition.
#[derive(Debug)]
pub enum SnipeNearEventKind {
    Snipe(LogSnipe),
    DeleteSnipe(LogDeleteSnipe),
    BuyToken(LogBuyToken),
}

/// Payload of the event emitted when an escrow record is opened.
#[derive(Debug)]
pub struct LogSnipe {
    pub snipe_id: u64,
    pub account_id: String,
    pub contract_id: String,
    pub token_id: Option<String>,
    pub deposit: u128,
    pub status: SnipeStatus,
    pub memo: Option<String>,
}

/// Payload of the event emitted when an escrow record is deleted.
#[derive(Debug)]
pub struct LogDeleteSnipe {
    pub snipe_id: u64,
    pub account_id: String,
}

/// Payload of the event emitted when a dispatched purchase resolves.
#[derive(Debug)]
pub struct LogBuyToken {
    pub marketplace_contract_id: String,
    pub price: u128,
    pub snipe_id: u64,
    pub token_id: String,
    pub status: SnipeStatus,
    pub account_id: String,
}

impl NearEvent {
    /// The schema version carried by the envelope.
    pub open spec fn spec_version(self) -> Seq<char> {
        match self {
            NearEvent::SnipeNear(e) => e.version@,
        }
    }

    /// The event kind carried by the envelope.
    pub open spec fn spec_kind(self) -> SnipeNearEventKind {
        match self {
            NearEvent::SnipeNear(e) => e.event_kind,
        }
    }

    /// True of a version-1.0.0 envelope around exactly `kind`.
    pub open spec fn is_v1(self, kind: SnipeNearEventKind) -> bool {
        self.spec_version() == "1.0.0"@ && self.spec_kind() == kind
    }

    /// Wraps an event kind in an envelope with the given schema version.
    pub fn new(version: String, event_kind: SnipeNearEventKind) -> (ev: Self)
        ensures
            ev == (NearEvent::SnipeNear(SnipeNearEvent { version, event_kind })),
    {
        NearEvent::SnipeNear(SnipeNearEvent { version, event_kind })
    }

    /// Wraps an event kind in an envelope with schema version 1.0.0.
    pub fn new_v1(event_kind: SnipeNearEventKind) -> (ev: Self)
        ensures
            ev.is_v1(event_kind),
    {
        NearEvent::new("1.0.0".to_owned(), event_kind)
    }

    /// The version-1.0.0 event for an opened escrow record.
    pub fn snipe(data: LogSnipe) -> (ev: Self)
        ensures
            ev.is_v1(SnipeNearEventKind::Snipe(data)),
    {
        NearEvent::new_v1(SnipeNearEventKind::Snipe(data))
    }

    /// The version-1.0.0 event for a deleted escrow record.
    pub fn delete_snipe(data: LogDeleteSnipe) -> (ev: Self)
        ensures
            ev.is_v1(SnipeNearEventKind::DeleteSnipe(data)),
    {
        NearEvent::new_v1(SnipeNearEventKind::DeleteSnipe(data))
    }

    /// The version-1.0.0 event for a resolved purchase.
    pub fn buy_token(data: LogBuyToken) -> (ev: Self)
        ensures
            ev.is_v1(SnipeNearEventKind::BuyToken(data)),
    {
        NearEvent::new_v1(SnipeNearEventKind::BuyToken(data))
    }

    /// Appends this event to an in-memory sink. The host drains the sink
    /// and renders each entry for its indexers.
    pub fn log(self, sink: &mut Vec<NearEvent>)
        ensures
            final(sink)@ == old(sink)@.push(self),
    {
        sink.push(self);
    }

    /// Builds the opened-record event and appends it to the sink.
    pub fn log_snipe(data: LogSnipe, sink: &mut Vec<NearEvent>)
        ensures
            final(sink)@.len() == old(sink)@.len() + 1,
            forall|i: int| 0 <= i < old(sink)@.len() ==> final(sink)@[i] == old(sink)@[i],
            final(sink)@.last().is_v1(SnipeNearEventKind::Snipe(data)),
    {
        NearEvent::snipe(data).log(sink);
    }

    /// Builds the deleted-record event and appends it to the sink.
    pub fn log_delete_snipe(data: LogDeleteSnipe, sink: &mut Vec<NearEvent>)
        ensures
            final(sink)@.len() == old(sink)@.len() + 1,
            forall|i: int| 0 <= i < old(sink)@.len() ==> final(sink)@[i] == old(sink)@[i],
            final(sink)@.last().is_v1(SnipeNearEventKind::DeleteSnipe(data)),
    {
        NearEvent::delete_snipe(data).log(sink);
    }

    /// Builds the resolved-purchase event and appends it to the sink.
    pub fn log_buy_token(data: LogBuyToken, sink: &mut Vec<NearEvent>)
        ensures
            final(sink)@.len() == old(sink)@.len() + 1,
            forall|i: int| 0 <= i < old(sink)@.len() ==> final(sink)@[i] == old(sink)@[i],
            final(sink)@.last().is_v1(SnipeNearEventKind::BuyToken(data)),
    {
        NearEvent::buy_token(data).log(sink);
    }
}

} // verus!
