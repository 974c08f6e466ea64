//! Trusted boundary to the concurrent broadcast channel (tokio) and the
//! reference-counted packet buffer (bytes).
//!
//! A channel here is shared mutable state: `send` takes `&self` and every
//! handle aliases the same ring, so no contract over a handle's value can
//! track its contents.  These wrappers therefore state nothing about channel
//! state; the per-subscriber semantics the relay relies on — publish order,
//! the lag signal, the capacity bound — are stated and proved on the model in
//! [`crate::bus`], and the tests exercise the real channel against it.

use vstd::prelude::*;

verus! {

#[verifier::external_type_specification]
#[verifier::external_body]
#[verifier::reject_recursive_types(T)]
pub struct ExSender<T>(tokio::sync::broadcast::Sender<T>);

#[verifier::external_type_specification]
#[verifier::external_body]
#[verifier::reject_recursive_types(T)]
pub struct ExReceiver<T>(tokio::sync::broadcast::Receiver<T>);

#[verifier::external_type_specification]
#[verifier::external_body]
pub struct ExBytes(bytes::Bytes);

/// Relies on tokio::sync::broadcast::channel: creates a channel that retains
/// up to `capacity` values, returning its send handle.  The call panics on a
/// capacity of zero or above `usize::MAX / 2`, so those are excluded here.
#[verifier::external_body]
pub(crate) fn broadcast_sender<T: Clone>(capacity: usize) -> tokio::sync::broadcast::Sender<T>
    requires
        1 <= capacity <= usize::MAX / 2,
{
    tokio::sync::broadcast::channel(capacity).0
}

/// Relies on tokio::sync::broadcast::Sender::send: queues the value for every
/// receiver subscribed at the time of the call, dropping the oldest queued
/// value per receiver once its backlog reaches the channel's capacity.  The
/// result says whether at least one receiver existed; callers treat `false`
/// as harmless.
#[verifier::external_body]
pub(crate) fn broadcast_send<T>(sender: &tokio::sync::broadcast::Sender<T>, value: T) -> bool {
    sender.send(value).is_ok()
}

/// Relies on tokio::sync::broadcast::Sender::subscribe: a new receiver whose
/// cursor is at the channel's current tail, so it observes exactly the values
/// sent after this call.
#[verifier::external_body]
pub(crate) fn broadcast_subscribe<T>(
    sender: &tokio::sync::broadcast::Sender<T>,
) -> tokio::sync::broadcast::Receiver<T> {
    sender.subscribe()
}

/// Relies on Clone for tokio::sync::broadcast::Sender: another handle to the
/// same channel.
#[verifier::external_body]
pub(crate) fn clone_broadcast_sender<T>(
    sender: &tokio::sync::broadcast::Sender<T>,
) -> tokio::sync::broadcast::Sender<T> {
    sender.clone()
}

} // verus!
