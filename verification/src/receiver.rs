use vstd::prelude::*;

verus! {

/// The interface a program implements to take part in inbound transfers: it
/// is probed for protocol support, and, if it declares it, notified once the
/// funds have been tentatively credited and locked.
pub trait Receiver {
    /// Declare whether this account understands the notification protocol.
    /// Must be free of side effects.
    fn is_receiver(&self) -> bool;

    /// Told that `sender_id` moved `amount_received` here, bringing the
    /// visible balance to `amount_total`. Returns true to accept the transfer
    /// (it will be finalised) and false to decline it (it will be rolled
    /// back).
    fn on_token_received(
        &mut self,
        sender_id: String,
        amount_received: u128,
        amount_total: u128,
        message: Vec<u8>,
    ) -> bool;
}

} // verus!
