use vstd::prelude::*;

use crate::receiver::Receiver;

verus! {

/// A one-way sink that receives token transfers and only accumulates them;
/// useful as the simplest possible receiving program.
pub struct BurnerPool {
    /// The one token this pool accepts transfers of.
    pub token_id: String,
    /// How many tokens the pool has received overall.
    pub total_received: u128,
}

impl BurnerPool {
    /// A fresh pool for the token ledger living at `token_id`.
    pub fn new(token_id: String) -> (p: BurnerPool)
        ensures
            p.token_id@ == token_id@,
            p.total_received == 0,
    {
        BurnerPool { token_id, total_received: 0 }
    }

    /// The probe's answer: this contract understands the notification
    /// protocol.
    pub fn is_receiver() -> (r: bool)
        ensures
            r,
    {
        true
    }

    /// Handle a transfer notification. `None` accepts it; `Some` carries why
    /// it was declined: the notifier is not the pool's token, the pool's
    /// counter would overflow, or the quoted running total disagrees with the
    /// pool's own book-keeping. A declined notification changes nothing.
    pub fn on_token_received(
        &mut self,
        predecessor_account_id: String,
        sender_id: String,
        amount_received: u128,
        amount_total: u128,
        message: Vec<u8>,
    ) -> (r: Option<String>)
        ensures
            final(self).token_id@ == old(self).token_id@,
            if predecessor_account_id@ == old(self).token_id@ && old(self).total_received
                + amount_received <= u128::MAX && old(self).total_received + amount_received
                == amount_total {
                r is None && final(self).total_received == old(self).total_received
                    + amount_received
            } else {
                r is Some && *final(self) == *old(self)
            },
    {
        let _ = sender_id;
        let _ = message;
        if !(predecessor_account_id == self.token_id) {
            return Some(String::from_str("Pool can only receive the named token"));
        }
        if amount_received > u128::MAX - self.total_received {
            return Some(String::from_str("Pool balance overflow"));
        }
        let new_total = self.total_received + amount_received;
        if new_total != amount_total {
            return Some(String::from_str("Mismatch between token ledger and pool balances"));
        }
        self.total_received = new_total;
        None
    }

    /// How many tokens the pool has received overall.
    pub fn get_total_received(self) -> (r: u128)
        ensures
            r == self.total_received,
    {
        self.total_received
    }
}

impl Receiver for BurnerPool {
    /// The pool is always willing to be notified.
    fn is_receiver(&self) -> bool {
        true
    }

    /// Accept a notification of `amount_received` tokens if the count does
    /// not overflow; the pool cannot check the notifier's identity here, so
    /// it accepts from any sender.
    fn on_token_received(
        &mut self,
        sender_id: String,
        amount_received: u128,
        amount_total: u128,
        message: Vec<u8>,
    ) -> bool {
        let _ = sender_id;
        let _ = amount_total;
        let _ = message;
        if amount_received > u128::MAX - self.total_received {
            return false;
        }
        self.total_received = self.total_received + amount_received;
        true
    }
}

} // verus!
