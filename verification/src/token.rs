use vstd::prelude::*;

use crate::errors::TokenError;
use crate::ledger::Ledger;
use crate::ledger::TransferPhase;
use crate::ledger::TransferStarted;
use crate::ledger::finalise_transition;
use crate::ledger::lemma_pending_index;
use crate::ledger::pending_index_of;
use crate::ledger::pending_index_of_id;
use crate::ledger::pending_ok;
use crate::ledger::rollback_transition;
use crate::ledger::send_check;
use crate::ledger::send_transition;
use crate::store::BalanceStore;
use crate::store::locked_of;
use crate::store::unlocked_of;

verus! {

/// On-chain information about the token. All fields are optional and start
/// empty; richer data lives off the ledger behind `metadata_link`.
pub struct Metadata {
    pub name: String,
    pub symbol: String,
    pub web_link: String,
    pub metadata_link: String,
}

/// The token: a ledger under the locked-balance transfer protocol, plus its
/// descriptive metadata.
pub struct Token {
    pub ledger: Ledger,
    pub metadata: Metadata,
}

/// What the probe told the coordinator to do next.
#[derive(Debug)]
pub enum ReceiverAction {
    /// The receiver is a plain account; the transfer was finalised on the
    /// spot.
    Finalised,
    /// The receiver understands the protocol: notify it with these values and
    /// route the outcome back through `handle_token_received`.
    Notify(NotifyRequest),
}

/// Everything the receiver's notification carries.
#[derive(Debug)]
pub struct NotifyRequest {
    pub sender_id: String,
    pub receiver_id: String,
    pub amount_received: u128,
    pub amount_total: u128,
    pub payload: Vec<u8>,
}

/// Why a resolution entry point refuses to act: the caller is not the
/// ledger's own execution identity, no pending transfer carries the
/// identifier, or the transfer is not in the phase this entry point resolves.
pub open spec fn resolve_check(
    pre: Ledger,
    current: Seq<char>,
    predecessor: Seq<char>,
    transfer_id: u64,
    phase: TransferPhase,
) -> Option<TokenError> {
    let j = pending_index_of_id(pre.pending@, transfer_id);
    if current != predecessor {
        Some(TokenError::Unauthorized)
    } else if j == -1 {
        Some(TokenError::TransferNotPending)
    } else if pre.pending@[j].phase != phase {
        Some(TokenError::TransferNotPending)
    } else {
        None
    }
}

impl Token {
    pub open spec fn wf(self) -> bool {
        self.ledger.wf()
    }

    /// A fresh token: `owner_id` holds the whole supply, nothing is locked,
    /// nothing is pending, and the metadata starts empty.
    pub fn new(owner_id: String, total_supply: u128) -> (t: Token)
        ensures
            t.wf(),
            t.ledger.total_supply == total_supply,
            unlocked_of(t.ledger.store@, owner_id@) == total_supply,
            forall|b: Seq<char>| b != owner_id@ ==> #[trigger] unlocked_of(t.ledger.store@, b)
                == 0,
            forall|b: Seq<char>| #[trigger] locked_of(t.ledger.store@, b) == 0,
            t.ledger.rollbacks == 0,
            t.ledger.pending@.len() == 0,
            t.ledger.next_id == 0,
            t.metadata.name@.len() == 0,
            t.metadata.symbol@.len() == 0,
            t.metadata.web_link@.len() == 0,
            t.metadata.metadata_link@.len() == 0,
    {
        let mut store = BalanceStore::new();
        store.set(&owner_id, total_supply);
        let ledger = Ledger {
            store,
            total_supply,
            rollbacks: 0,
            pending: Vec::new(),
            next_id: 0,
        };
        let metadata = Metadata {
            name: String::new(),
            symbol: String::new(),
            web_link: String::new(),
            metadata_link: String::new(),
        };
        Token { ledger, metadata }
    }

    /// The fixed total supply.
    pub fn get_total_supply(&self) -> (r: u128)
        ensures
            r == self.ledger.total_supply,
    {
        self.ledger.total_supply
    }

    /// The visible balance of `owner_id` (locked portion included).
    pub fn get_balance(&self, owner_id: String) -> (r: u128)
        requires
            self.wf(),
        ensures
            r == unlocked_of(self.ledger.store@, owner_id@),
    {
        self.ledger.get_balance(&owner_id)
    }

    /// The portion of `owner_id`'s balance locked in pending transfers.
    pub fn get_locked_balance(&self, owner_id: String) -> (r: u128)
        requires
            self.wf(),
        ensures
            r == locked_of(self.ledger.store@, owner_id@),
    {
        self.ledger.get_locked_balance(&owner_id)
    }

    /// How many rollbacks have completed.
    pub fn get_rollback_count(&self) -> (r: u64)
        ensures
            r == self.ledger.rollbacks,
    {
        self.ledger.rollbacks
    }

    /// The token's name.
    pub fn get_name(&self) -> (r: &str)
        ensures
            r@ == self.metadata.name@,
    {
        self.metadata.name.as_str()
    }

    /// Begin a transfer of `owner_id`'s tokens. The caller supplies its own
    /// authenticated identity as `owner_id` and must then drive the
    /// asynchronous probe and notification for the returned identifier.
    pub fn send(
        &mut self,
        owner_id: String,
        new_owner_id: String,
        amount: u128,
        message: Vec<u8>,
    ) -> (r: Result<TransferStarted, TokenError>)
        requires
            old(self).wf(),
            old(self).ledger.next_id < u64::MAX,
        ensures
            final(self).wf(),
            final(self).metadata == old(self).metadata,
            match r {
                Ok(t) => send_check(old(self).ledger, owner_id@, new_owner_id@, amount) is None
                    && send_transition(
                    old(self).ledger,
                    final(self).ledger,
                    owner_id@,
                    new_owner_id@,
                    amount,
                    message@,
                    t,
                ),
                Err(e) => send_check(old(self).ledger, owner_id@, new_owner_id@, amount) == Some(e)
                    && *final(self) == *old(self),
            },
    {
        self.ledger.send(owner_id, new_owner_id, amount, message)
    }

    /// Resolve the probe for `transfer_id`. Callable only by the ledger's own
    /// execution identity: `current_account_id` is who is executing,
    /// `predecessor_account_id` is who invoked this entry point, and they must
    /// agree. A failed probe means the receiver is a plain account and the
    /// transfer is finalised at once; a successful probe moves the record to
    /// the notifying phase and hands back what the notification must carry.
    pub fn handle_receiver(
        &mut self,
        current_account_id: String,
        predecessor_account_id: String,
        transfer_id: u64,
        probe_succeeded: bool,
    ) -> (r: Result<ReceiverAction, TokenError>)
        requires
            old(self).wf(),
        ensures
            final(self).wf(),
            final(self).metadata == old(self).metadata,
            match r {
                Ok(a) => {
                    let j = pending_index_of_id(old(self).ledger.pending@, transfer_id);
                    let rec = old(self).ledger.pending@[j];
                    &&& resolve_check(
                        old(self).ledger,
                        current_account_id@,
                        predecessor_account_id@,
                        transfer_id,
                        TransferPhase::Probing,
                    ) is None
                    &&& if probe_succeeded {
                        &&& a matches ReceiverAction::Notify(req)
                        &&& (a matches ReceiverAction::Notify(req) ==> {
                            &&& req.sender_id@ == rec.sender@
                            &&& req.receiver_id@ == rec.receiver@
                            &&& req.amount_received == rec.amount
                            &&& req.amount_total == rec.total_after
                            &&& req.payload@ == rec.payload@
                        })
                        &&& final(self).ledger.store == old(self).ledger.store
                        &&& final(self).ledger.total_supply == old(self).ledger.total_supply
                        &&& final(self).ledger.rollbacks == old(self).ledger.rollbacks
                        &&& final(self).ledger.next_id == old(self).ledger.next_id
                        &&& final(self).ledger.pending@.len() == old(
                            self,
                        ).ledger.pending@.len()
                        &&& forall|i: int|
                            0 <= i < old(self).ledger.pending@.len() && i != j
                                ==> #[trigger] final(self).ledger.pending@[i] == old(
                                self,
                            ).ledger.pending@[i]
                        &&& final(self).ledger.pending@[j].id == rec.id
                        &&& final(self).ledger.pending@[j].sender@ == rec.sender@
                        &&& final(self).ledger.pending@[j].receiver@ == rec.receiver@
                        &&& final(self).ledger.pending@[j].amount == rec.amount
                        &&& final(self).ledger.pending@[j].total_after == rec.total_after
                        &&& final(self).ledger.pending@[j].payload@ == rec.payload@
                        &&& final(self).ledger.pending@[j].phase == TransferPhase::Notifying
                    } else {
                        &&& a matches ReceiverAction::Finalised
                        &&& finalise_transition(
                            old(self).ledger,
                            final(self).ledger,
                            rec.receiver@,
                            rec.amount,
                        )
                    }
                },
                Err(e) => resolve_check(
                    old(self).ledger,
                    current_account_id@,
                    predecessor_account_id@,
                    transfer_id,
                    TransferPhase::Probing,
                ) == Some(e) && *final(self) == *old(self),
            },
    {
        if !(current_account_id == predecessor_account_id) {
            return Err(TokenError::Unauthorized);
        }
        let found = self.ledger.find_pending_by_id(transfer_id);
        if found.is_none() {
            return Err(TokenError::TransferNotPending);
        }
        let j = found.unwrap();
        if !(self.ledger.pending[j].phase == TransferPhase::Probing) {
            return Err(TokenError::TransferNotPending);
        }
        let ghost pre = *self;
        let receiver_id = self.ledger.pending[j].receiver.clone();
        let amount = self.ledger.pending[j].amount;
        if probe_succeeded {
            let sender_id = self.ledger.pending[j].sender.clone();
            let amount_total = self.ledger.pending[j].total_after;
            let payload = self.ledger.pending[j].payload.clone();
            self.ledger.pending[j].phase = TransferPhase::Notifying;
            proof {
                assert(payload@ =~= pre.ledger.pending@[j as int].payload@);
                let post = *self;
                assert(post.ledger.pending@ =~= pre.ledger.pending@.update(
                    j as int,
                    post.ledger.pending@[j as int],
                ));
                assert forall|i: int|
                    0 <= i < post.ledger.pending@.len() implies pending_ok(
                    post.ledger,
                    #[trigger] post.ledger.pending@[i],
                ) by {
                    assert(pending_ok(pre.ledger, pre.ledger.pending@[i]));
                }
            }
            Ok(
                ReceiverAction::Notify(
                    NotifyRequest {
                        sender_id,
                        receiver_id,
                        amount_received: amount,
                        amount_total,
                        payload,
                    },
                ),
            )
        } else {
            proof {
                let jr = pending_index_of(self.ledger.pending@, receiver_id@);
                lemma_pending_index(self.ledger.pending@, receiver_id@);
                if jr != j as int {
                    assert(self.ledger.pending@[jr].receiver@ == self.ledger.pending@[j as int].receiver@);
                }
                assert(pending_ok(self.ledger, self.ledger.pending@[j as int]));
            }
            let res = self.ledger.finalise(receiver_id, amount);
            match res {
                Ok(()) => Ok(ReceiverAction::Finalised),
                Err(e) => {
                    proof {
                        assert(false);
                    }
                    Err(e)
                },
            }
        }
    }

    /// Resolve the notification for `transfer_id`. Callable only by the
    /// ledger's own execution identity, exactly as `handle_receiver`. A
    /// successful notification finalises the transfer; a failed one rolls it
    /// back.
    pub fn handle_token_received(
        &mut self,
        current_account_id: String,
        predecessor_account_id: String,
        transfer_id: u64,
        notify_succeeded: bool,
    ) -> (r: Result<(), TokenError>)
        requires
            old(self).wf(),
            old(self).ledger.rollbacks < u64::MAX,
        ensures
            final(self).wf(),
            final(self).metadata == old(self).metadata,
            match r {
                Ok(()) => {
                    let j = pending_index_of_id(old(self).ledger.pending@, transfer_id);
                    let rec = old(self).ledger.pending@[j];
                    &&& resolve_check(
                        old(self).ledger,
                        current_account_id@,
                        predecessor_account_id@,
                        transfer_id,
                        TransferPhase::Notifying,
                    ) is None
                    &&& if notify_succeeded {
                        finalise_transition(
                            old(self).ledger,
                            final(self).ledger,
                            rec.receiver@,
                            rec.amount,
                        )
                    } else {
                        rollback_transition(
                            old(self).ledger,
                            final(self).ledger,
                            rec.sender@,
                            rec.receiver@,
                            rec.amount,
                        )
                    }
                },
                Err(e) => resolve_check(
                    old(self).ledger,
                    current_account_id@,
                    predecessor_account_id@,
                    transfer_id,
                    TransferPhase::Notifying,
                ) == Some(e) && *final(self) == *old(self),
            },
    {
        if !(current_account_id == predecessor_account_id) {
            return Err(TokenError::Unauthorized);
        }
        let found = self.ledger.find_pending_by_id(transfer_id);
        if found.is_none() {
            return Err(TokenError::TransferNotPending);
        }
        let j = found.unwrap();
        if !(self.ledger.pending[j].phase == TransferPhase::Notifying) {
            return Err(TokenError::TransferNotPending);
        }
        let receiver_id = self.ledger.pending[j].receiver.clone();
        let amount = self.ledger.pending[j].amount;
        proof {
            let jr = pending_index_of(self.ledger.pending@, receiver_id@);
            lemma_pending_index(self.ledger.pending@, receiver_id@);
            if jr != j as int {
                assert(self.ledger.pending@[jr].receiver@ == self.ledger.pending@[j as int].receiver@);
            }
            assert(pending_ok(self.ledger, self.ledger.pending@[j as int]));
        }
        if notify_succeeded {
            let res = self.ledger.finalise(receiver_id, amount);
            match res {
                Ok(()) => Ok(()),
                Err(e) => {
                    proof {
                        assert(false);
                    }
                    Err(e)
                },
            }
        } else {
            let sender_id = self.ledger.pending[j].sender.clone();
            let res = self.ledger.rollback(sender_id, receiver_id, amount);
            match res {
                Ok(()) => Ok(()),
                Err(e) => {
                    proof {
                        assert(false);
                    }
                    Err(e)
                },
            }
        }
    }
}

} // verus!
