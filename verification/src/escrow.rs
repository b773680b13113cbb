use vstd::prelude::*;

use crate::store::BalanceStore;
use crate::store::unlocked_of;

verus! {

/// A minimal escrow: it receives token transfers, keeps a constant fee of
/// each, and books the remainder under the account that notified it.
pub struct Escrow {
    /// The one token this escrow is for.
    pub token_id: String,
    /// How many tokens the escrow has received overall.
    pub total_received: u128,
    /// How many tokens the escrow has kept as fees.
    pub total_fees: u128,
    /// Escrowed balances by account.
    pub balances: BalanceStore,
}

/// The constant fee the escrow keeps of every transfer it receives.
pub const ESCROW_FEE: u128 = 100;

impl Escrow {
    pub open spec fn wf(self) -> bool {
        self.balances.wf()
    }

    /// A fresh escrow for the token ledger living at `token_id`.
    pub fn new(token_id: String) -> (e: Escrow)
        ensures
            e.wf(),
            e.token_id@ == token_id@,
            e.total_received == 0,
            e.total_fees == 0,
            forall|a: Seq<char>| #[trigger] unlocked_of(e.balances@, a) == 0,
    {
        Escrow {
            token_id,
            total_received: 0,
            total_fees: 0,
            balances: BalanceStore::new(),
        }
    }

    /// The escrowed balance booked under `owner_id`.
    pub fn get_balance(&self, owner_id: &String) -> (r: u128)
        requires
            self.wf(),
        ensures
            r == unlocked_of(self.balances@, owner_id@),
    {
        self.balances.get(owner_id)
    }

    /// Handle a transfer notification. `None` accepts it: the fee is kept and
    /// the remainder booked under the notifying account. `Some` carries why
    /// it was declined — wrong token, a transfer below the fee, or a counter
    /// that would overflow — and then nothing changes.
    pub fn process_token_received(
        &mut self,
        predecessor_account_id: String,
        amount_received: u128,
        amount_total: u128,
        message: Vec<u8>,
    ) -> (r: Option<String>)
        requires
            old(self).wf(),
        ensures
            final(self).wf(),
            final(self).token_id@ == old(self).token_id@,
            if predecessor_account_id@ == old(self).token_id@ && amount_received >= ESCROW_FEE
                && unlocked_of(old(self).balances@, predecessor_account_id@) + (amount_received
                - ESCROW_FEE) <= u128::MAX && old(self).total_received + amount_received
                <= u128::MAX && old(self).total_fees + ESCROW_FEE <= u128::MAX {
                &&& r is None
                &&& final(self).total_received == old(self).total_received + amount_received
                &&& final(self).total_fees == old(self).total_fees + ESCROW_FEE
                &&& forall|a: Seq<char>|
                    #[trigger] unlocked_of(final(self).balances@, a)
                        == if a == predecessor_account_id@ {
                        (unlocked_of(old(self).balances@, a) + (amount_received
                            - ESCROW_FEE)) as u128
                    } else {
                        unlocked_of(old(self).balances@, a)
                    }
            } else {
                r is Some && *final(self) == *old(self)
            },
    {
        let _ = amount_total;
        let _ = message;
        if !(predecessor_account_id == self.token_id) {
            return Some(String::from_str("Unsupported token received"));
        }
        if amount_received < ESCROW_FEE {
            return Some(String::from_str("Transfer does not cover the escrow fee"));
        }
        let escrowed_amount = amount_received - ESCROW_FEE;
        let booked = self.balances.get(&predecessor_account_id);
        if escrowed_amount > u128::MAX - booked {
            return Some(String::from_str("Escrowed balance overflow"));
        }
        if amount_received > u128::MAX - self.total_received {
            return Some(String::from_str("Received counter overflow"));
        }
        if ESCROW_FEE > u128::MAX - self.total_fees {
            return Some(String::from_str("Fee counter overflow"));
        }
        self.balances.set(&predecessor_account_id, booked + escrowed_amount);
        self.total_received = self.total_received + amount_received;
        self.total_fees = self.total_fees + ESCROW_FEE;
        None
    }
}

} // verus!
