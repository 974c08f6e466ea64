//! Decision logic of a catalog subscriber session, and the encoding of
//! catalog snapshots.
//!
//! A catalog subscriber is seeded with the registry's current snapshot on
//! connect, then receives every snapshot the registry publishes.  When its
//! bus cursor lags, it recovers by re-reading the registry and sending that
//! snapshot, so it always ends up consistent with the registry.

use vstd::prelude::*;

use crate::session::SessionEvent;
use crate::state::State;
use crate::state::id_views;

verus! {

/// The text that encodes an identifier list as a catalog snapshot — a JSON
/// array of strings.  The exact text is a function of the identifiers alone;
/// it is pinned down by the encoder below and named here, not spelled out.
pub uninterp spec fn catalog_text_of(ids: Seq<Seq<char>>) -> Seq<char>;

/// Relies on serde_json::to_string: encodes the identifier list as a JSON
/// array of strings.  The output depends on the identifiers alone, so it is
/// named by [`catalog_text_of`].  Serializing a vector of strings writes to
/// an in-memory buffer and cannot fail (no fallible Serialize impl, no
/// non-string map key), hence a value is always present.
#[verifier::external_body]
fn encode_catalog(ids: &Vec<String>) -> (r: Option<String>)
    ensures
        r is Some,
        r matches Some(s) ==> s@ == catalog_text_of(id_views(ids@)),
{
    serde_json::to_string(ids).ok()
}

/// The catalog snapshot text for an identifier list.
pub fn catalog_text(ids: &Vec<String>) -> (r: String)
    ensures
        r@ == catalog_text_of(id_views(ids@)),
{
    match encode_catalog(ids) {
        Some(s) => s,
        None => {
            proof {
                assert(false);
            }
            String::new()
        },
    }
}

/// The catalog snapshot text for the registry's current streams: what a
/// catalog subscriber is seeded with on connect, and what it re-sends to
/// recover from a lag.
pub fn registry_snapshot_text(state: &State) -> (r: String)
    ensures
        r@ == catalog_text_of(state.ids()),
{
    let ids = state.get_stream_ids();
    catalog_text(&ids)
}

/// What a catalog subscriber session does in response to one event.
#[derive(Debug, Clone, PartialEq, Eq)]
pub enum CatalogAction<P> {
    /// Nothing to send; keep multiplexing.
    Continue,
    /// Reply with a Pong carrying this payload; close on send failure.
    SendPong(P),
    /// Send this snapshot text as one Text frame; close on send failure.
    SendSnapshot(String),
    /// Send a liveness Ping with an empty payload; close on send failure.
    SendPing,
    /// The cursor lagged: send [`registry_snapshot_text`] of the registry,
    /// restoring consistency with it; close on send failure.
    Resnapshot,
    /// Close the connection and end the session.
    Close,
}

/// Decides the catalog subscriber session's reaction to one event: encode
/// and send each delivered identifier list as a Text frame, recover from a
/// lag by re-snapshotting, answer Ping with Pong, probe on each timer tick,
/// and close when the peer closes, the transport fails or ends, or the
/// catalog publisher is gone.
pub fn catalog_step<P>(e: SessionEvent<P, Vec<String>>) -> (a: CatalogAction<P>)
    ensures
        e matches SessionEvent::Delivered(ids) ==> a matches CatalogAction::SendSnapshot(s) && s@
            == catalog_text_of(id_views(ids@)),
        e matches SessionEvent::Lagged(_) ==> a == CatalogAction::<P>::Resnapshot,
        e matches SessionEvent::FramePing(p) ==> a == CatalogAction::<P>::SendPong(p),
        e == SessionEvent::<P, Vec<String>>::FrameText ==> a == CatalogAction::<P>::Continue,
        e == SessionEvent::<P, Vec<String>>::FrameBinary ==> a == CatalogAction::<P>::Continue,
        e == SessionEvent::<P, Vec<String>>::FramePong ==> a == CatalogAction::<P>::Continue,
        e == SessionEvent::<P, Vec<String>>::FrameClose ==> a == CatalogAction::<P>::Close,
        e == SessionEvent::<P, Vec<String>>::TransportError ==> a == CatalogAction::<P>::Close,
        e == SessionEvent::<P, Vec<String>>::TransportGone ==> a == CatalogAction::<P>::Close,
        e == SessionEvent::<P, Vec<String>>::BusClosed ==> a == CatalogAction::<P>::Close,
        e == SessionEvent::<P, Vec<String>>::Tick ==> a == CatalogAction::<P>::SendPing,
    {
    match e {
        SessionEvent::FrameText => CatalogAction::Continue,
        SessionEvent::FrameBinary => CatalogAction::Continue,
        SessionEvent::FramePing(p) => CatalogAction::SendPong(p),
        SessionEvent::FramePong => CatalogAction::Continue,
        SessionEvent::FrameClose => CatalogAction::Close,
        SessionEvent::TransportError => CatalogAction::Close,
        SessionEvent::TransportGone => CatalogAction::Close,
        SessionEvent::Delivered(ids) => CatalogAction::SendSnapshot(catalog_text(&ids)),
        SessionEvent::Lagged(_) => CatalogAction::Resnapshot,
        SessionEvent::BusClosed => CatalogAction::Close,
        SessionEvent::Tick => CatalogAction::SendPing,
    }
}

/// The identifier list a catalog subscriber holds after reacting to one
/// event: a delivered snapshot replaces its view, and a lag makes it re-read
/// the registry, whose current list is `current`.  Other events leave its
/// view alone.
pub open spec fn catalog_observation<P>(
    e: SessionEvent<P, Vec<String>>,
    current: Seq<Seq<char>>,
) -> Option<Seq<Seq<char>>> {
    match e {
        SessionEvent::Delivered(ids) => Some(id_views(ids@)),
        SessionEvent::Lagged(_) => Some(current),
        _ => None,
    }
}

/// The last identifier list the subscriber observed over a run of events.
pub open spec fn last_observation<P>(
    events: Seq<SessionEvent<P, Vec<String>>>,
    current: Seq<Seq<char>>,
) -> Option<Seq<Seq<char>>>
    decreases events.len(),
{
    if events.len() == 0 {
        None
    } else {
        match catalog_observation(events.last(), current) {
            Some(v) => Some(v),
            None => last_observation(events.drop_last(), current),
        }
    }
}

/// Law (catalog eventual consistency): however many snapshots a catalog
/// subscriber misses, once the mutations stop and it processes what its
/// cursor still holds, the last snapshot it observes is exactly the
/// registry's final identifier list.  The premise mirrors what the bus
/// guarantees a reader that drains its cursor (see [`crate::bus`]): the last
/// snapshot-bearing event `events[k]` is either the final published snapshot
/// or a lag signal — and lag recovery reads the registry itself.
pub proof fn lemma_catalog_eventual_consistency<P>(
    events: Seq<SessionEvent<P, Vec<String>>>,
    k: int,
    published: Seq<Seq<Seq<char>>>,
    current: Seq<Seq<char>>,
)
    requires
        published.len() > 0,
        published.last() == current,
        0 <= k < events.len(),
        catalog_observation(events[k], current) is Some,
        forall|j: int| k < j < events.len() ==> catalog_observation(
            #[trigger] events[j],
            current,
        ) is None,
        events[k] matches SessionEvent::Delivered(ids) ==> id_views(ids@) == published.last(),
    ensures
        last_observation(events, current) == Some(published.last()),
    decreases events.len(),
{
    if k == events.len() - 1 {
        assert(events.last() == events[k]);
    } else {
        assert(catalog_observation(events.last(), current) is None);
        let shorter = events.drop_last();
        assert(shorter[k] == events[k]);
        assert(forall|j: int| k < j < shorter.len() ==> catalog_observation(
            #[trigger] shorter[j],
            current,
        ) is None);
        lemma_catalog_eventual_consistency::<P>(shorter, k, published, current);
    }
}

} // verus!
