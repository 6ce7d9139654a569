//! Reply slots: the one-shot senders on which invocations wait, and the
//! resolution of the oldest one on a channel.

use crate::registry::{oldest, resolved, well_formed, WaiterRegistry};
use vstd::prelude::*;

verus! {

/// `tokio::sync::oneshot::Sender`, the sending half of a one-shot channel.
#[verifier::external_type_specification]
#[verifier::external_body]
#[verifier::reject_recursive_types(T)]
pub struct ExSender<T>(tokio::sync::oneshot::Sender<T>);

/// The slot that one invocation waits on.
pub type ReplySlot = tokio::sync::oneshot::Sender<serde_json::Value>;

/// Calls `Sender::send`, which consumes the slot. Returns whether the
/// receiving half was still there to take the value. The contract claims
/// nothing: the outcome depends on what the receiver has done meanwhile.
#[verifier::external_body]
pub(crate) fn deliver(slot: ReplySlot, value: serde_json::Value) -> (accepted: bool) {
    slot.send(value).is_ok()
}

/// Hands `value` to the oldest slot that waits on `channel` and takes that
/// slot out of the registry. Returns whether there was one; without one the
/// registry stays as it is. A slot whose receiver has gone away still counts
/// as resolved.
pub fn resolve(registry: &mut WaiterRegistry<ReplySlot>, channel: &str, value: serde_json::Value)
    -> (found: bool)
    ensures
        found == (oldest(old(registry)@, channel@) is Some),
        final(registry)@ == resolved(old(registry)@, channel@),
        well_formed(final(registry)@),
{
    match registry.take_oldest(channel) {
        Some(slot) => {
            let _ = deliver(slot, value);
            true
        },
        None => false,
    }
}

} // verus!
