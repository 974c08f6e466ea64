//! Decision logic of a stream subscriber session.
//!
//! A session multiplexes four event sources — inbound transport frames, bus
//! deliveries, the liveness timer, and the end of the inbound stream — and
//! reacts to one event at a time.  The reaction is a pure decision; the
//! caller performs the frame sends and closes the connection when told to,
//! closing it as well if a send fails.

use vstd::prelude::*;

verus! {

/// Seconds between liveness probes: every tick of this period the session
/// sends a Ping with an empty payload.
pub const LIVENESS_PROBE_SECS: u64 = 30;

/// One observed event of a subscriber session.  `P` is the payload type of
/// transport frames; `T` is what the session's bus delivers (a media packet
/// for a stream session, an identifier list for a catalog session).
#[derive(Debug, Clone, PartialEq, Eq)]
pub enum SessionEvent<P, T> {
    /// An unexpected Text frame arrived; the caller logs it, no reply.
    FrameText,
    /// An unexpected Binary frame arrived; the caller logs it, no reply.
    FrameBinary,
    /// A Ping frame arrived, with its payload.
    FramePing(P),
    /// A Pong frame arrived; ignored.
    FramePong,
    /// The peer sent Close.
    FrameClose,
    /// Receiving from the transport failed.
    TransportError,
    /// The transport's inbound side ended.
    TransportGone,
    /// The bus delivered its next item.
    Delivered(T),
    /// The bus dropped this many items from this subscriber's view.
    Lagged(u64),
    /// The bus's publisher is gone and every delivered item was read.
    BusClosed,
    /// The periodic liveness timer fired.
    Tick,
}

/// What a stream subscriber session does in response to one event.
#[derive(Debug, Clone, PartialEq, Eq)]
pub enum StreamAction<P> {
    /// Nothing to send; keep multiplexing.
    Continue,
    /// Reply with a Pong carrying this payload; close on send failure.
    SendPong(P),
    /// Forward this packet as one Binary frame; close on send failure.
    SendPacket(P),
    /// Send a liveness Ping with an empty payload; close on send failure.
    SendPing,
    /// Close the connection and end the session.
    Close,
}

/// The stream subscriber's reaction to one event: forward each bus packet as
/// a Binary frame, answer Ping with Pong, probe on each timer tick, skip
/// silently over a lag, and close when the peer closes, the transport fails
/// or ends, or the publisher is gone.
pub open spec fn stream_step_spec<P>(e: SessionEvent<P, P>) -> StreamAction<P> {
    match e {
        SessionEvent::FrameText => StreamAction::Continue,
        SessionEvent::FrameBinary => StreamAction::Continue,
        SessionEvent::FramePing(p) => StreamAction::SendPong(p),
        SessionEvent::FramePong => StreamAction::Continue,
        SessionEvent::FrameClose => StreamAction::Close,
        SessionEvent::TransportError => StreamAction::Close,
        SessionEvent::TransportGone => StreamAction::Close,
        SessionEvent::Delivered(p) => StreamAction::SendPacket(p),
        SessionEvent::Lagged(_) => StreamAction::Continue,
        SessionEvent::BusClosed => StreamAction::Close,
        SessionEvent::Tick => StreamAction::SendPing,
    }
}

/// Decides the stream subscriber session's reaction to one event.
pub fn stream_step<P>(e: SessionEvent<P, P>) -> (a: StreamAction<P>)
    ensures
        a == stream_step_spec(e),
{
    match e {
        SessionEvent::FrameText => StreamAction::Continue,
        SessionEvent::FrameBinary => StreamAction::Continue,
        SessionEvent::FramePing(p) => StreamAction::SendPong(p),
        SessionEvent::FramePong => StreamAction::Continue,
        SessionEvent::FrameClose => StreamAction::Close,
        SessionEvent::TransportError => StreamAction::Close,
        SessionEvent::TransportGone => StreamAction::Close,
        SessionEvent::Delivered(p) => StreamAction::SendPacket(p),
        SessionEvent::Lagged(_) => StreamAction::Continue,
        SessionEvent::BusClosed => StreamAction::Close,
        SessionEvent::Tick => StreamAction::SendPing,
    }
}

/// The actions a session takes for a sequence of events, one per event, in
/// order.
pub open spec fn stream_run<P>(events: Seq<SessionEvent<P, P>>) -> Seq<StreamAction<P>> {
    events.map_values(|e: SessionEvent<P, P>| stream_step_spec(e))
}

/// Law (one Pong per Ping): an inbound Ping, and nothing else, makes the
/// session emit a Pong, and the Pong carries the Ping's payload unchanged.
/// Each event yields exactly one action, so the Pong goes out before any
/// outbound frame a later event causes.
pub proof fn lemma_pong_exactly_for_ping<P>(e: SessionEvent<P, P>)
    ensures
        forall|p: P| e == SessionEvent::<P, P>::FramePing(p) ==> stream_step_spec(e)
            == StreamAction::<P>::SendPong(p),
        stream_step_spec(e) matches StreamAction::SendPong(p) ==> e == SessionEvent::<
            P,
            P,
        >::FramePing(p),
{
}

/// Law (in-order delivery): over any sequence of bus deliveries — none of
/// which closes the session — the session sends exactly one Binary frame per
/// delivered packet, payload for payload, in delivery order.  Together with
/// the bus law that a cursor which keeps up receives the published packets in
/// publish order ([`crate::bus::Bus::drain`]), the frames a subscriber that
/// never lags receives are the payloads the publisher sent, in order.
pub proof fn lemma_in_order_forwarding<P>(packets: Seq<P>)
    ensures
        stream_run(packets.map_values(|p: P| SessionEvent::<P, P>::Delivered(p))) =~= packets
            .map_values(|p: P| StreamAction::<P>::SendPacket(p)),
{
}

/// Law (in-order delivery, end to end): a subscriber whose cursor kept up
/// with the bus — it never fell behind the drop point — sends, when it
/// drains the bus, exactly one Binary frame per packet published after its
/// position, payload for payload, in publish order.
pub proof fn lemma_end_to_end_in_order(bus: crate::bus::Bus, c: crate::bus::BusCursor)
    requires
        bus.wf(),
        bus.valid_cursor(c),
        bus.dropped_count() <= c.position(),
    ensures
        stream_run(
            bus.remaining(c).map_values(|p: Seq<u8>| SessionEvent::<Seq<u8>, Seq<u8>>::Delivered(p)),
        ) =~= bus.sent().subrange(c.position(), bus.total()).map_values(
            (|p: Seq<u8>| StreamAction::<Seq<u8>>::SendPacket(p)),
        ),
{
    crate::bus::lemma_subscriber_isolation(bus, c, c);
    lemma_in_order_forwarding::<Seq<u8>>(bus.remaining(c));
}

} // verus!
