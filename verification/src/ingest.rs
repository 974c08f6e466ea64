//! The ingest lifecycle: one publisher pushing one stream into the hub.
//!
//! The caller accepts inbound publisher handshakes, hands the claimed
//! identifier to [`begin_ingest`], and acts on the decision: reject the
//! handshake, or accept it and forward each received packet to the stream's
//! channel.  On every exit after a successful registration — a failed
//! accept, end of the transport, or a transport error — it hands the session
//! back to [`end_ingest`], which deregisters the stream.  The session value
//! is consumed by `end_ingest`, so verified code cannot deregister one
//! registration twice.

use vstd::prelude::*;

use crate::channel::broadcast_send;
use crate::state::AddStreamError;
use crate::state::RemoveStreamError;
use crate::state::State;

verus! {

/// Why an inbound publisher handshake is rejected.
#[derive(Debug, Clone, Copy, PartialEq, Eq, Structural)]
pub enum IngestReject {
    /// The handshake carried no stream identifier, or one that is already
    /// live.
    Unauthorized,
}

/// A successful registration: the live session of the one publisher of its
/// stream.  It exists exactly while the stream is registered on its behalf.
pub struct IngestSession {
    stream_id: String,
}

impl IngestSession {
    /// The identifier this session registered.
    pub closed spec fn id(self) -> Seq<char> {
        self.stream_id@
    }

    /// The registered identifier, for logging.
    pub fn stream_id(&self) -> (r: &String)
        ensures
            r@ == self.id(),
    {
        &self.stream_id
    }
}

/// Decides a publisher handshake.  A handshake without a stream identifier,
/// or with one that is already live, is rejected as unauthorized and leaves
/// the registry untouched.  Otherwise the stream is registered — with its
/// catalog snapshot published — and the session is returned.
pub fn begin_ingest(state: &mut State, stream_id: Option<String>) -> (r: Result<
    IngestSession,
    IngestReject,
>)
    requires
        old(state).wf(),
    ensures
        final(state).wf(),
        stream_id is None ==> r == Err::<IngestSession, IngestReject>(IngestReject::Unauthorized)
            && *final(state) == *old(state),
        stream_id matches Some(id) ==> {
            &&& old(state).has_stream(id@) ==> r == Err::<IngestSession, IngestReject>(
                IngestReject::Unauthorized,
            ) && *final(state) == *old(state)
            &&& !old(state).has_stream(id@) ==> {
                &&& r matches Ok(s) && s.id() == id@
                &&& final(state).has_stream(id@)
                &&& final(state).ids() =~= old(state).ids().push(id@)
                &&& final(state).id_set() =~= old(state).id_set().insert(id@)
                &&& final(state).catalog_log() =~= old(state).catalog_log().push(
                    final(state).ids(),
                )
            }
        },
{
    match stream_id {
        None => Err(IngestReject::Unauthorized),
        Some(id) => {
            let session_id = id.clone();
            match state.add_stream(id) {
                Err(AddStreamError::StreamIdAlreadyExists) => Err(IngestReject::Unauthorized),
                Ok(()) => {
                    proof {
                        assert(state.ids().last() == session_id@);
                    }
                    Ok(IngestSession { stream_id: session_id })
                },
            }
        },
    }
}

/// Ends a publisher session, whatever ended it — a failed accept, the end of
/// the transport, or a transport error — deregistering its stream and
/// publishing one catalog snapshot.  A live session's stream is always
/// registered, so the deregistration cannot fail; the session is consumed,
/// so it cannot be ended twice.
pub fn end_ingest(state: &mut State, session: IngestSession)
    requires
        old(state).wf(),
        old(state).has_stream(session.id()),
    ensures
        final(state).wf(),
        !final(state).has_stream(session.id()),
        final(state).ids().len() == old(state).ids().len() - 1,
        final(state).id_set() =~= old(state).id_set().remove(session.id()),
        final(state).catalog_log() =~= old(state).catalog_log().push(final(state).ids()),
{
    match state.remove_stream(session.stream_id.as_str()) {
        Ok(()) => {},
        Err(RemoveStreamError::StreamIdNotFound) => {
            proof {
                assert(false);
            }
        },
    }
}

/// Forwards one received media packet to the stream's broadcast channel.
/// The ingest timestamp is not forwarded: subscribers receive the raw
/// payload.  The result says whether any subscriber was there to take the
/// packet; a stream with no subscribers drops packets harmlessly, so callers
/// may ignore it.
pub fn forward_packet(
    sender: &tokio::sync::broadcast::Sender<bytes::Bytes>,
    payload: bytes::Bytes,
) -> bool {
    broadcast_send(sender, payload)
}

/// Law (cleanup): a session that registered and then ended — whatever the
/// cause — leaves the registry's stream set exactly as it found it: the one
/// insertion of [`begin_ingest`] is undone by the one removal of
/// [`end_ingest`], per their contracts.
pub proof fn lemma_ingest_cleanup(before: Set<Seq<char>>, id: Seq<char>)
    requires
        !before.contains(id),
    ensures
        before.insert(id).remove(id) =~= before,
{
}

} // verus!
