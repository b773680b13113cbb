use vstd::prelude::*;

use crate::account::account_id_is_valid;
use crate::account::account_valid;
use crate::errors::TokenError;
use crate::store::BalanceStore;
use crate::store::lemma_pair_le_sum;
use crate::store::locked_of;
use crate::store::sum_unlocked;
use crate::store::unlocked_of;

verus! {

/// How far an in-flight transfer has come: the receiver is being probed for
/// protocol support, or it has been found capable and is being notified.
#[derive(Clone, Copy, Debug, PartialEq, Eq, Structural)]
pub enum TransferPhase {
    Probing,
    Notifying,
}

/// The ledger's own note of one in-flight transfer, kept from the tentative
/// move of the funds until exactly one of finalise or rollback resolves it.
pub struct TransferRecord {
    pub id: u64,
    pub sender: String,
    pub receiver: String,
    pub amount: u128,
    /// The receiver's visible balance right after the tentative credit; quoted
    /// to the receiver when it is notified.
    pub total_after: u128,
    /// Opaque bytes handed through to the receiver's notification.
    pub payload: Vec<u8>,
    pub phase: TransferPhase,
}

/// What a successful `send` hands back: the correlation token for the later
/// asynchronous outcome, and the receiver's post-credit total.
#[derive(Clone, Copy, Debug, PartialEq, Eq, Structural)]
pub struct TransferStarted {
    pub transfer_id: u64,
    pub amount_total: u128,
}

/// The balances, the fixed total supply, and the in-flight transfer records.
pub struct Ledger {
    pub store: BalanceStore,
    /// Fixed at creation; transfers only redistribute it.
    pub total_supply: u128,
    /// Diagnostic counter, incremented once per completed rollback.
    pub rollbacks: u64,
    pub pending: Vec<TransferRecord>,
    /// The next transfer identifier to hand out; identifiers are never reused.
    pub next_id: u64,
}

/// The index of the pending record whose receiver is `r`, or -1 if there is
/// none. Under `Ledger::wf` receivers are distinct, so the index is the only
/// one.
pub open spec fn pending_index_of(s: Seq<TransferRecord>, r: Seq<char>) -> int
    decreases s.len(),
{
    if s.len() == 0 {
        -1
    } else if s.last().receiver@ == r {
        s.len() - 1
    } else {
        pending_index_of(s.drop_last(), r)
    }
}

pub proof fn lemma_pending_index(s: Seq<TransferRecord>, r: Seq<char>)
    ensures
        -1 <= pending_index_of(s, r) < s.len(),
        pending_index_of(s, r) >= 0 ==> s[pending_index_of(s, r)].receiver@ == r,
        forall|i: int|
            pending_index_of(s, r) < i < s.len() ==> (#[trigger] s[i]).receiver@ != r,
    decreases s.len(),
{
    if s.len() > 0 {
        assert(s.last() == s[s.len() - 1]);
        if s.last().receiver@ != r {
            lemma_pending_index(s.drop_last(), r);
            assert forall|i: int|
                pending_index_of(s, r) < i < s.len() implies (#[trigger] s[i]).receiver@ != r by {
                if i < s.len() - 1 {
                    assert(s.drop_last()[i] == s[i]);
                }
            }
        }
    }
}

/// The index of the pending record with identifier `id`, or -1 if there is
/// none. Under `Ledger::wf` identifiers are distinct, so the index is the
/// only one.
pub open spec fn pending_index_of_id(s: Seq<TransferRecord>, id: u64) -> int
    decreases s.len(),
{
    if s.len() == 0 {
        -1
    } else if s.last().id == id {
        s.len() - 1
    } else {
        pending_index_of_id(s.drop_last(), id)
    }
}

pub proof fn lemma_pending_index_id(s: Seq<TransferRecord>, id: u64)
    ensures
        -1 <= pending_index_of_id(s, id) < s.len(),
        pending_index_of_id(s, id) >= 0 ==> s[pending_index_of_id(s, id)].id == id,
        forall|i: int| pending_index_of_id(s, id) < i < s.len() ==> (#[trigger] s[i]).id != id,
    decreases s.len(),
{
    if s.len() > 0 {
        assert(s.last() == s[s.len() - 1]);
        if s.last().id != id {
            lemma_pending_index_id(s.drop_last(), id);
            assert forall|i: int|
                pending_index_of_id(s, id) < i < s.len() implies (#[trigger] s[i]).id != id by {
                if i < s.len() - 1 {
                    assert(s.drop_last()[i] == s[i]);
                }
            }
        }
    }
}

/// What must hold of each pending record against the ledger around it.
pub open spec fn pending_ok(l: Ledger, p: TransferRecord) -> bool {
    &&& p.amount > 0
    &&& p.sender@ != p.receiver@
    &&& p.amount <= locked_of(l.store@, p.receiver@)
    &&& p.id < l.next_id
}

impl Ledger {
    /// The ledger's invariant. Conservation is the second clause: the visible
    /// balances always sum to the total supply, transfers only redistribute.
    pub open spec fn wf(self) -> bool {
        &&& self.store.wf()
        &&& sum_unlocked(self.store@) == self.total_supply as int
        &&& forall|a: Seq<char>|
            #[trigger] locked_of(self.store@, a) <= unlocked_of(self.store@, a)
        &&& forall|i: int|
            0 <= i < self.pending@.len() ==> pending_ok(self, #[trigger] self.pending@[i])
        &&& forall|i: int, j: int|
            0 <= i < j < self.pending@.len() ==> self.pending@[i].receiver@
                != self.pending@[j].receiver@ && self.pending@[i].id != self.pending@[j].id
    }

    /// The visible balance of `owner_id` (locked portion included).
    pub fn get_balance(&self, owner_id: &String) -> (r: u128)
        requires
            self.wf(),
        ensures
            r == unlocked_of(self.store@, owner_id@),
    {
        self.store.get(owner_id)
    }

    /// The portion of `owner_id`'s balance locked for a pending inbound
    /// transfer.
    pub fn get_locked_balance(&self, owner_id: &String) -> (r: u128)
        requires
            self.wf(),
        ensures
            r == locked_of(self.store@, owner_id@),
    {
        self.store.get_locked(owner_id)
    }

    /// The index of the pending record destined to `receiver`, if any.
    fn find_pending(&self, receiver: &String) -> (r: Option<usize>)
        requires
            self.wf(),
        ensures
            match r {
                Some(i) => i < self.pending@.len() && i as int == pending_index_of(
                    self.pending@,
                    receiver@,
                ) && self.pending@[i as int].receiver@ == receiver@,
                None => pending_index_of(self.pending@, receiver@) == -1,
            },
    {
        proof {
            lemma_pending_index(self.pending@, receiver@);
        }
        let n = self.pending.len();
        let mut i: usize = 0;
        while i < n
            invariant
                self.wf(),
                n == self.pending@.len(),
                i <= n,
                forall|k: int| 0 <= k < i ==> (#[trigger] self.pending@[k]).receiver@ != receiver@,
            decreases n - i,
        {
            if self.pending[i].receiver == *receiver {
                proof {
                    let j = pending_index_of(self.pending@, receiver@);
                    lemma_pending_index(self.pending@, receiver@);
                    assert(j >= 0);
                    assert(j == i as int);
                }
                return Some(i);
            }
            i = i + 1;
        }
        proof {
            let j = pending_index_of(self.pending@, receiver@);
            if j >= 0 {
                assert(self.pending@[j].receiver@ == receiver@);
                assert(false);
            }
        }
        None
    }
    /// The index of the pending record with identifier `transfer_id`, if any.
    pub(crate) fn find_pending_by_id(&self, transfer_id: u64) -> (r: Option<usize>)
        requires
            self.wf(),
        ensures
            match r {
                Some(i) => i < self.pending@.len() && i as int == pending_index_of_id(
                    self.pending@,
                    transfer_id,
                ) && self.pending@[i as int].id == transfer_id,
                None => pending_index_of_id(self.pending@, transfer_id) == -1,
            },
    {
        proof {
            lemma_pending_index_id(self.pending@, transfer_id);
        }
        let n = self.pending.len();
        let mut i: usize = 0;
        while i < n
            invariant
                self.wf(),
                n == self.pending@.len(),
                i <= n,
                forall|k: int| 0 <= k < i ==> (#[trigger] self.pending@[k]).id != transfer_id,
            decreases n - i,
        {
            if self.pending[i].id == transfer_id {
                proof {
                    let j = pending_index_of_id(self.pending@, transfer_id);
                    lemma_pending_index_id(self.pending@, transfer_id);
                    assert(j >= 0);
                    assert(j == i as int);
                }
                return Some(i);
            }
            i = i + 1;
        }
        proof {
            let j = pending_index_of_id(self.pending@, transfer_id);
            if j >= 0 {
                assert(self.pending@[j].id == transfer_id);
                assert(false);
            }
        }
        None
    }
}

/// Why a `send` is refused, or nothing if it must succeed: the checks in the
/// order the ledger makes them.
pub open spec fn send_check(
    pre: Ledger,
    sender: Seq<char>,
    receiver: Seq<char>,
    amount: u128,
) -> Option<TokenError> {
    if !account_valid(receiver) {
        Some(TokenError::InvalidAccount)
    } else if amount == 0 {
        Some(TokenError::NoOpTransfer)
    } else if sender == receiver {
        Some(TokenError::SelfTransfer)
    } else if !account_valid(sender) {
        Some(TokenError::InvalidAccount)
    } else if unlocked_of(pre.store@, sender) < amount + locked_of(pre.store@, sender) {
        Some(TokenError::InsufficientBalance)
    } else if locked_of(pre.store@, receiver) != 0 {
        Some(TokenError::TransferInProgress)
    } else {
        None
    }
}

/// How a successful `send` moves the ledger: the sender's balance drops by
/// `amount`, the receiver's rises by `amount` with the same amount locked, no
/// other account moves, and one new record in the probing phase is appended.
pub open spec fn send_transition(
    pre: Ledger,
    post: Ledger,
    sender: Seq<char>,
    receiver: Seq<char>,
    amount: u128,
    payload: Seq<u8>,
    t: TransferStarted,
) -> bool {
    &&& amount > 0
    &&& sender != receiver
    &&& locked_of(pre.store@, receiver) == 0
    &&& unlocked_of(pre.store@, sender) >= amount + locked_of(pre.store@, sender)
    &&& t.transfer_id == pre.next_id
    &&& t.amount_total == unlocked_of(pre.store@, receiver) + amount
    &&& forall|b: Seq<char>|
        #[trigger] unlocked_of(post.store@, b) == (if b == sender {
            (unlocked_of(pre.store@, sender) - amount) as u128
        } else if b == receiver {
            (unlocked_of(pre.store@, receiver) + amount) as u128
        } else {
            unlocked_of(pre.store@, b)
        })
    &&& forall|b: Seq<char>|
        #[trigger] locked_of(post.store@, b) == (if b == receiver {
            amount
        } else {
            locked_of(pre.store@, b)
        })
    &&& post.pending@.len() == pre.pending@.len() + 1
    &&& forall|i: int| 0 <= i < pre.pending@.len() ==> #[trigger] post.pending@[i]
        == pre.pending@[i]
    &&& post.pending@.last().id == t.transfer_id
    &&& post.pending@.last().sender@ == sender
    &&& post.pending@.last().receiver@ == receiver
    &&& post.pending@.last().amount == amount
    &&& post.pending@.last().total_after == t.amount_total
    &&& post.pending@.last().payload@ == payload
    &&& post.pending@.last().phase == TransferPhase::Probing
    &&& post.total_supply == pre.total_supply
    &&& post.rollbacks == pre.rollbacks
    &&& post.next_id == pre.next_id + 1
}

/// Why a `finalise` is refused, or nothing if it must succeed.
pub open spec fn finalise_check(pre: Ledger, receiver: Seq<char>, amount: u128) -> Option<
    TokenError,
> {
    if pending_index_of(pre.pending@, receiver) == -1 {
        Some(TokenError::TransferNotPending)
    } else if locked_of(pre.store@, receiver) < amount {
        Some(TokenError::FinalizeUnderflow)
    } else {
        None
    }
}

/// How a successful `finalise` moves the ledger: the receiver's lock is
/// released, no visible balance moves, and the record is deleted.
pub open spec fn finalise_transition(
    pre: Ledger,
    post: Ledger,
    receiver: Seq<char>,
    amount: u128,
) -> bool {
    let j = pending_index_of(pre.pending@, receiver);
    &&& 0 <= j < pre.pending@.len()
    &&& amount <= locked_of(pre.store@, receiver)
    &&& forall|b: Seq<char>|
        #[trigger] locked_of(post.store@, b) == (if b == receiver {
            (locked_of(pre.store@, receiver) - amount) as u128
        } else {
            locked_of(pre.store@, b)
        })
    &&& forall|b: Seq<char>| #[trigger] unlocked_of(post.store@, b) == unlocked_of(pre.store@, b)
    &&& post.pending@ == pre.pending@.remove(j)
    &&& post.total_supply == pre.total_supply
    &&& post.rollbacks == pre.rollbacks
    &&& post.next_id == pre.next_id
}

/// Why a `rollback` is refused, or nothing if it must succeed.
pub open spec fn rollback_check(
    pre: Ledger,
    sender: Seq<char>,
    receiver: Seq<char>,
    amount: u128,
) -> Option<TokenError> {
    let j = pending_index_of(pre.pending@, receiver);
    if j == -1 {
        Some(TokenError::TransferNotPending)
    } else if pre.pending@[j].sender@ != sender {
        Some(TokenError::TransferNotPending)
    } else if locked_of(pre.store@, receiver) < amount {
        Some(TokenError::RollbackUnderflow)
    } else {
        None
    }
}

/// How a successful `rollback` moves the ledger: the receiver gives back the
/// tentative credit and its lock, the sender is made whole, the record is
/// deleted, and the rollback counter ticks once.
pub open spec fn rollback_transition(
    pre: Ledger,
    post: Ledger,
    sender: Seq<char>,
    receiver: Seq<char>,
    amount: u128,
) -> bool {
    let j = pending_index_of(pre.pending@, receiver);
    &&& 0 <= j < pre.pending@.len()
    &&& pre.pending@[j].sender@ == sender
    &&& sender != receiver
    &&& amount <= locked_of(pre.store@, receiver)
    &&& locked_of(pre.store@, receiver) <= unlocked_of(pre.store@, receiver)
    &&& forall|b: Seq<char>|
        #[trigger] locked_of(post.store@, b) == (if b == receiver {
            (locked_of(pre.store@, receiver) - amount) as u128
        } else {
            locked_of(pre.store@, b)
        })
    &&& forall|b: Seq<char>|
        #[trigger] unlocked_of(post.store@, b) == (if b == receiver {
            (unlocked_of(pre.store@, receiver) - amount) as u128
        } else if b == sender {
            (unlocked_of(pre.store@, sender) + amount) as u128
        } else {
            unlocked_of(pre.store@, b)
        })
    &&& post.pending@ == pre.pending@.remove(j)
    &&& post.total_supply == pre.total_supply
    &&& post.rollbacks == pre.rollbacks + 1
    &&& post.next_id == pre.next_id
}

impl Ledger {
    /// Tentatively move `amount` from `owner_id` to `new_owner_id`: debit the
    /// sender, credit the receiver with the same amount locked, and record the
    /// in-flight transfer. The caller must then drive the asynchronous probe
    /// and notification and resolve the record exactly once.
    pub fn send(
        &mut self,
        owner_id: String,
        new_owner_id: String,
        amount: u128,
        message: Vec<u8>,
    ) -> (r: Result<TransferStarted, TokenError>)
        requires
            old(self).wf(),
            old(self).next_id < u64::MAX,
        ensures
            final(self).wf(),
            match r {
                Ok(t) => send_check(*old(self), owner_id@, new_owner_id@, amount) is None
                    && send_transition(
                    *old(self),
                    *final(self),
                    owner_id@,
                    new_owner_id@,
                    amount,
                    message@,
                    t,
                ),
                Err(e) => send_check(*old(self), owner_id@, new_owner_id@, amount) == Some(e)
                    && *final(self) == *old(self),
            },
    {
        let ghost pre = *self;
        if !account_id_is_valid(&new_owner_id) {
            return Err(TokenError::InvalidAccount);
        }
        if amount == 0 {
            return Err(TokenError::NoOpTransfer);
        }
        if owner_id == new_owner_id {
            return Err(TokenError::SelfTransfer);
        }
        if !account_id_is_valid(&owner_id) {
            return Err(TokenError::InvalidAccount);
        }
        let source_balance = self.store.get(&owner_id);
        let source_lock = self.store.get_locked(&owner_id);
        if source_balance < amount {
            return Err(TokenError::InsufficientBalance);
        }
        if source_balance - amount < source_lock {
            return Err(TokenError::InsufficientBalance);
        }
        let target_lock = self.store.get_locked(&new_owner_id);
        if target_lock != 0 {
            return Err(TokenError::TransferInProgress);
        }
        let target_balance = self.store.get(&new_owner_id);
        proof {
            lemma_pair_le_sum(self.store@, owner_id@, new_owner_id@);
        }
        let new_target_balance = target_balance + amount;
        self.store.set(&owner_id, source_balance - amount);
        self.store.set(&new_owner_id, new_target_balance);
        self.store.set_locked(&new_owner_id, amount);
        let t = TransferStarted { transfer_id: self.next_id, amount_total: new_target_balance };
        let record = TransferRecord {
            id: self.next_id,
            sender: owner_id,
            receiver: new_owner_id,
            amount: amount,
            total_after: new_target_balance,
            payload: message,
            phase: TransferPhase::Probing,
        };
        let ghost grecord = record;
        self.pending.push(record);
        self.next_id = self.next_id + 1;
        proof {
            let post = *self;
            assert forall|i: int|
                0 <= i < post.pending@.len() implies pending_ok(
                post,
                #[trigger] post.pending@[i],
            ) by {
                if i < pre.pending@.len() {
                    assert(post.pending@[i] == pre.pending@[i]);
                    assert(pending_ok(pre, pre.pending@[i]));
                    assert(pre.pending@[i].receiver@ != grecord.receiver@);
                } else {
                    assert(post.pending@[i] == grecord);
                }
            }
            assert forall|i: int, j: int|
                0 <= i < j < post.pending@.len() implies post.pending@[i].receiver@
                != post.pending@[j].receiver@ && post.pending@[i].id != post.pending@[j].id by {
                if j < pre.pending@.len() {
                    assert(post.pending@[i] == pre.pending@[i]);
                    assert(post.pending@[j] == pre.pending@[j]);
                } else {
                    assert(post.pending@[j] == grecord);
                    assert(post.pending@[i] == pre.pending@[i]);
                    assert(pending_ok(pre, pre.pending@[i]));
                }
            }
        }
        Ok(t)
    }

    /// Release the lock on `new_owner_id`'s tentative credit and delete the
    /// pending record: the credited funds become fully spendable.
    pub fn finalise(&mut self, new_owner_id: String, amount: u128) -> (r: Result<(), TokenError>)
        requires
            old(self).wf(),
        ensures
            final(self).wf(),
            match r {
                Ok(()) => finalise_check(*old(self), new_owner_id@, amount) is None
                    && finalise_transition(*old(self), *final(self), new_owner_id@, amount),
                Err(e) => finalise_check(*old(self), new_owner_id@, amount) == Some(e)
                    && *final(self) == *old(self),
            },
    {
        let ghost pre = *self;
        let found = self.find_pending(&new_owner_id);
        if found.is_none() {
            return Err(TokenError::TransferNotPending);
        }
        let j = found.unwrap();
        let target_lock = self.store.get_locked(&new_owner_id);
        if target_lock < amount {
            return Err(TokenError::FinalizeUnderflow);
        }
        self.store.set_locked(&new_owner_id, target_lock - amount);
        let _ = self.pending.remove(j);
        proof {
            let post = *self;
            assert(post.pending@ =~= pre.pending@.remove(j as int));
            assert forall|i: int|
                0 <= i < post.pending@.len() implies pending_ok(
                post,
                #[trigger] post.pending@[i],
            ) by {
                let k = if i < j as int {
                    i
                } else {
                    i + 1
                };
                assert(post.pending@[i] == pre.pending@[k]);
                assert(pending_ok(pre, pre.pending@[k]));
                assert(pre.pending@[k].receiver@ != new_owner_id@);
            }
            assert forall|i: int, i2: int|
                0 <= i < i2 < post.pending@.len() implies post.pending@[i].receiver@
                != post.pending@[i2].receiver@ && post.pending@[i].id != post.pending@[i2].id by {
                let k = if i < j as int {
                    i
                } else {
                    i + 1
                };
                let k2 = if i2 < j as int {
                    i2
                } else {
                    i2 + 1
                };
                assert(post.pending@[i] == pre.pending@[k]);
                assert(post.pending@[i2] == pre.pending@[k2]);
            }
        }
        Ok(())
    }

    /// Reverse a tentative transfer: take the credit and its lock back from
    /// the receiver, make the sender whole, delete the pending record and
    /// count the rollback.
    pub fn rollback(
        &mut self,
        old_owner_id: String,
        new_owner_id: String,
        amount: u128,
    ) -> (r: Result<(), TokenError>)
        requires
            old(self).wf(),
            old(self).rollbacks < u64::MAX,
        ensures
            final(self).wf(),
            match r {
                Ok(()) => rollback_check(*old(self), old_owner_id@, new_owner_id@, amount) is None
                    && rollback_transition(
                    *old(self),
                    *final(self),
                    old_owner_id@,
                    new_owner_id@,
                    amount,
                ),
                Err(e) => rollback_check(*old(self), old_owner_id@, new_owner_id@, amount) == Some(
                    e,
                ) && *final(self) == *old(self),
            },
    {
        let ghost pre = *self;
        let found = self.find_pending(&new_owner_id);
        if found.is_none() {
            return Err(TokenError::TransferNotPending);
        }
        let j = found.unwrap();
        if !(self.pending[j].sender == old_owner_id) {
            return Err(TokenError::TransferNotPending);
        }
        let target_lock = self.store.get_locked(&new_owner_id);
        if target_lock < amount {
            return Err(TokenError::RollbackUnderflow);
        }
        let target_balance = self.store.get(&new_owner_id);
        let source_balance = self.store.get(&old_owner_id);
        proof {
            assert(pending_ok(pre, pre.pending@[j as int]));
            assert(old_owner_id@ != new_owner_id@);
            assert(locked_of(pre.store@, new_owner_id@) <= unlocked_of(pre.store@, new_owner_id@));
            lemma_pair_le_sum(self.store@, old_owner_id@, new_owner_id@);
        }
        self.store.set_locked(&new_owner_id, target_lock - amount);
        self.store.set(&new_owner_id, target_balance - amount);
        self.store.set(&old_owner_id, source_balance + amount);
        let _ = self.pending.remove(j);
        self.rollbacks = self.rollbacks + 1;
        proof {
            let post = *self;
            assert(post.pending@ =~= pre.pending@.remove(j as int));
            assert forall|i: int|
                0 <= i < post.pending@.len() implies pending_ok(
                post,
                #[trigger] post.pending@[i],
            ) by {
                let k = if i < j as int {
                    i
                } else {
                    i + 1
                };
                assert(post.pending@[i] == pre.pending@[k]);
                assert(pending_ok(pre, pre.pending@[k]));
                assert(pre.pending@[k].receiver@ != new_owner_id@);
                assert(pre.pending@[k].receiver@ != old_owner_id@ || pre.pending@[k].receiver@
                    == old_owner_id@);
            }
            assert forall|i: int, i2: int|
                0 <= i < i2 < post.pending@.len() implies post.pending@[i].receiver@
                != post.pending@[i2].receiver@ && post.pending@[i].id != post.pending@[i2].id by {
                let k = if i < j as int {
                    i
                } else {
                    i + 1
                };
                let k2 = if i2 < j as int {
                    i2
                } else {
                    i2 + 1
                };
                assert(post.pending@[i] == pre.pending@[k]);
                assert(post.pending@[i2] == pre.pending@[k2]);
            }
        }
        Ok(())
    }
}

} // verus!
