use vstd::prelude::*;

use crate::account::account_valid;
use crate::errors::TokenError;
use crate::ledger::Ledger;
use crate::ledger::TransferStarted;
use crate::ledger::finalise_check;
use crate::ledger::finalise_transition;
use crate::ledger::lemma_pending_index;
use crate::ledger::pending_index_of;
use crate::ledger::pending_ok;
use crate::ledger::rollback_check;
use crate::ledger::rollback_transition;
use crate::ledger::send_check;
use crate::ledger::send_transition;
use crate::store::locked_of;
use crate::store::sum_unlocked;
use crate::store::unlocked_of;

verus! {

/// Conservation: the visible balances always sum to the total supply. A
/// transfer only redistributes; begin, finalise and rollback each move the
/// same amount out of one account and into another, so the sum never drifts,
/// pending transfers or not.
pub proof fn lemma_conservation(l: Ledger)
    requires
        l.wf(),
    ensures
        sum_unlocked(l.store@) == l.total_supply as int,
{
}

/// No balance can sink below its lock: at every well-formed state, what is
/// locked for an account is covered by that account's visible balance, so
/// releasing or reversing a lock can never drive a balance below zero.
pub proof fn lemma_locked_within_balance(l: Ledger, a: Seq<char>)
    requires
        l.wf(),
    ensures
        locked_of(l.store@, a) <= unlocked_of(l.store@, a),
{
}

/// Exclusivity: while a transfer to a receiver is pending, a second `send`
/// to that receiver is refused — with `TransferInProgress` when nothing else
/// stands in its way first.
pub proof fn lemma_exclusivity(l: Ledger, j: int, sender: Seq<char>, amount: u128)
    requires
        l.wf(),
        0 <= j < l.pending@.len(),
        amount > 0,
        sender != l.pending@[j].receiver@,
    ensures
        send_check(l, sender, l.pending@[j].receiver@, amount) is Some,
        account_valid(l.pending@[j].receiver@) && account_valid(sender) && unlocked_of(
            l.store@,
            sender,
        ) >= amount + locked_of(l.store@, sender) ==> send_check(
            l,
            sender,
            l.pending@[j].receiver@,
            amount,
        ) == Some(TokenError::TransferInProgress),
{
    assert(pending_ok(l, l.pending@[j]));
}

/// Anti-reentrancy: while a transfer to a receiver is pending, the receiver
/// cannot spend into the locked portion of its balance. A `send` from the
/// receiver for any amount beyond its unlocked-minus-locked margin is
/// refused — with `InsufficientBalance` once both identifiers are valid.
pub proof fn lemma_anti_reentrancy(l: Ledger, j: int, dest: Seq<char>, amount: u128)
    requires
        l.wf(),
        0 <= j < l.pending@.len(),
        amount > 0,
        dest != l.pending@[j].receiver@,
        amount + locked_of(l.store@, l.pending@[j].receiver@) > unlocked_of(
            l.store@,
            l.pending@[j].receiver@,
        ),
    ensures
        send_check(l, l.pending@[j].receiver@, dest, amount) is Some,
        account_valid(dest) && account_valid(l.pending@[j].receiver@) ==> send_check(
            l,
            l.pending@[j].receiver@,
            dest,
            amount,
        ) == Some(TokenError::InsufficientBalance),
{
    assert(pending_ok(l, l.pending@[j]));
}

/// Finalize correctness: beginning a transfer of `amount` from `sender` to
/// `receiver` and then finalising it leaves the sender exactly `amount`
/// poorer, the receiver exactly `amount` richer with nothing locked, every
/// other account untouched, and the rollback counter still.
pub proof fn lemma_finalize_correctness(
    l0: Ledger,
    l1: Ledger,
    l2: Ledger,
    sender: Seq<char>,
    receiver: Seq<char>,
    amount: u128,
    payload: Seq<u8>,
    t: TransferStarted,
)
    requires
        send_transition(l0, l1, sender, receiver, amount, payload, t),
        finalise_transition(l1, l2, receiver, amount),
    ensures
        unlocked_of(l2.store@, sender) == unlocked_of(l0.store@, sender) - amount,
        unlocked_of(l2.store@, receiver) == unlocked_of(l0.store@, receiver) + amount,
        locked_of(l2.store@, receiver) == 0,
        forall|b: Seq<char>| b != sender && b != receiver ==> #[trigger] unlocked_of(l2.store@, b)
            == unlocked_of(l0.store@, b),
        forall|b: Seq<char>| b != receiver ==> #[trigger] locked_of(l2.store@, b) == locked_of(
            l0.store@,
            b,
        ),
        l2.rollbacks == l0.rollbacks,
        l2.total_supply == l0.total_supply,
{
}

/// Rollback correctness: beginning a transfer of `amount` from `sender` to
/// `receiver` and then rolling it back restores both balances exactly,
/// leaves nothing locked at the receiver, touches no other account, and
/// ticks the rollback counter once.
pub proof fn lemma_rollback_correctness(
    l0: Ledger,
    l1: Ledger,
    l2: Ledger,
    sender: Seq<char>,
    receiver: Seq<char>,
    amount: u128,
    payload: Seq<u8>,
    t: TransferStarted,
)
    requires
        send_transition(l0, l1, sender, receiver, amount, payload, t),
        rollback_transition(l1, l2, sender, receiver, amount),
    ensures
        unlocked_of(l2.store@, sender) == unlocked_of(l0.store@, sender),
        unlocked_of(l2.store@, receiver) == unlocked_of(l0.store@, receiver),
        locked_of(l2.store@, receiver) == 0,
        forall|b: Seq<char>| b != sender && b != receiver ==> #[trigger] unlocked_of(l2.store@, b)
            == unlocked_of(l0.store@, b),
        forall|b: Seq<char>| b != receiver ==> #[trigger] locked_of(l2.store@, b) == locked_of(
            l0.store@,
            b,
        ),
        l2.rollbacks == l0.rollbacks + 1,
        l2.total_supply == l0.total_supply,
{
}

/// A finalised transfer is gone: no later finalise or rollback can target it
/// again; both are refused with `TransferNotPending`.
pub proof fn lemma_finalise_is_final(
    l1: Ledger,
    l2: Ledger,
    receiver: Seq<char>,
    amount: u128,
    amount2: u128,
    sender2: Seq<char>,
)
    requires
        l1.wf(),
        finalise_transition(l1, l2, receiver, amount),
    ensures
        finalise_check(l2, receiver, amount2) == Some(TokenError::TransferNotPending),
        rollback_check(l2, sender2, receiver, amount2) == Some(TokenError::TransferNotPending),
{
    lemma_no_pending_after_removal(l1, l2.pending@, receiver);
}

/// A rolled-back transfer is gone just the same.
pub proof fn lemma_rollback_is_final(
    l1: Ledger,
    l2: Ledger,
    sender: Seq<char>,
    receiver: Seq<char>,
    amount: u128,
    amount2: u128,
    sender2: Seq<char>,
)
    requires
        l1.wf(),
        rollback_transition(l1, l2, sender, receiver, amount),
    ensures
        finalise_check(l2, receiver, amount2) == Some(TokenError::TransferNotPending),
        rollback_check(l2, sender2, receiver, amount2) == Some(TokenError::TransferNotPending),
{
    lemma_no_pending_after_removal(l1, l2.pending@, receiver);
}

/// Removing the one record destined to `receiver` leaves no record destined
/// to `receiver`: under `wf` receivers are distinct.
proof fn lemma_no_pending_after_removal(
    l1: Ledger,
    post: Seq<crate::ledger::TransferRecord>,
    receiver: Seq<char>,
)
    requires
        l1.wf(),
        0 <= pending_index_of(l1.pending@, receiver) < l1.pending@.len(),
        post == l1.pending@.remove(pending_index_of(l1.pending@, receiver)),
    ensures
        pending_index_of(post, receiver) == -1,
{
    let j = pending_index_of(l1.pending@, receiver);
    lemma_pending_index(l1.pending@, receiver);
    assert forall|i: int| 0 <= i < post.len() implies (#[trigger] post[i]).receiver@
        != receiver by {
        let k = if i < j {
            i
        } else {
            i + 1
        };
        assert(post[i] == l1.pending@[k]);
        assert(l1.pending@[j].receiver@ == receiver);
        if k < j {
            assert(l1.pending@[k].receiver@ != l1.pending@[j].receiver@);
        } else {
            assert(l1.pending@[j].receiver@ != l1.pending@[k].receiver@);
        }
    }
    lemma_pending_index(post, receiver);
    if pending_index_of(post, receiver) >= 0 {
        assert(post[pending_index_of(post, receiver)].receiver@ == receiver);
        assert(false);
    }
}

} // verus!

