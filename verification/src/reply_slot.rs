//! The single-use reply slot of a request, a `tokio` one-shot channel.
//!
//! Nothing in this file is proved: it declares the two ends of the channel
//! and states what the calls on them are taken to do.

use tokio::sync::oneshot::error::RecvError;
use tokio::sync::oneshot::{Receiver, Sender};
use vstd::prelude::*;

verus! {

/// The writing end of `tokio::sync::oneshot`, opaque to the verifier.
#[verifier::external_type_specification]
#[verifier::external_body]
#[verifier::reject_recursive_types(T)]
pub struct ExSender<T>(Sender<T>);

/// The reading end of `tokio::sync::oneshot`, opaque to the verifier.
#[verifier::external_type_specification]
#[verifier::external_body]
#[verifier::reject_recursive_types(T)]
pub struct ExReceiver<T>(Receiver<T>);

/// What awaiting the reading end gives when the slot was dropped unwritten,
/// opaque to the verifier.
#[verifier::external_type_specification]
#[verifier::external_body]
pub struct ExRecvError(RecvError);

/// `tokio::sync::oneshot::channel`: a fresh slot, as its writing and its
/// reading end. Nothing is claimed of the two values.
#[verifier::external_body]
pub(crate) fn open_slot() -> (ends: (Sender<String>, Receiver<String>)) {
    tokio::sync::oneshot::channel()
}

/// `tokio::sync::oneshot::Sender::send`: writes `text` into the slot. The
/// call never waits. Whether the reader is still there is not known
/// beforehand; when it is gone the text comes back unchanged in `Err`.
#[verifier::external_body]
pub(crate) fn write_slot(slot: Sender<String>, text: String) -> (sent: Result<(), String>)
    ensures
        sent matches Err(back) ==> back@ == text@,
{
    slot.send(text)
}

} // verus!
