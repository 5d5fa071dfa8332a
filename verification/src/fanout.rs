//! The fanout channel: a bounded, multi-consumer broadcast queue from tokio.
//! Delivery is best-effort by design — when the queue is full the oldest
//! unconsumed item is dropped, and a subscriber that falls behind observes a
//! lag signal — so nothing is promised of what a subscriber sees; clients
//! reconcile through the store's list queries.

use vstd::prelude::*;

use crate::models::ClipboardData;

verus! {

#[verifier::external_type_specification]
#[verifier::external_body]
#[verifier::reject_recursive_types(T)]
pub struct ExSender<T>(tokio::sync::broadcast::Sender<T>);

#[verifier::external_type_specification]
#[verifier::external_body]
#[verifier::reject_recursive_types(T)]
pub struct ExReceiver<T>(tokio::sync::broadcast::Receiver<T>);

/// Relies on tokio's `broadcast::channel`: a fresh queue of the given
/// capacity. The call panics on a zero capacity or one above half the usize
/// range, so those are excluded here; the receiver half is dropped, later
/// subscribers get their own.
#[verifier::external_body]
pub(crate) fn fanout_channel(capacity: usize) -> tokio::sync::broadcast::Sender<ClipboardData>
    requires
        0 < capacity <= usize::MAX / 2,
{
    tokio::sync::broadcast::channel(capacity).0
}

/// Relies on tokio's `Sender::subscribe`: a new consumer handle that starts
/// receiving from the current queue tail.
#[verifier::external_body]
pub(crate) fn fanout_subscribe(
    tx: &tokio::sync::broadcast::Sender<ClipboardData>,
) -> tokio::sync::broadcast::Receiver<ClipboardData> {
    tx.subscribe()
}

/// Relies on tokio's `Sender::send`: enqueues the entry for every current
/// subscriber and reports whether there was any. The queue drops the oldest
/// unconsumed item when full, so nothing is promised of delivery.
#[verifier::external_body]
pub(crate) fn fanout_send(
    tx: &tokio::sync::broadcast::Sender<ClipboardData>,
    entry: ClipboardData,
) -> bool {
    tx.send(entry).is_ok()
}

} // verus!
