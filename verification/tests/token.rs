use advanced_fungible::errors::TokenError;
use advanced_fungible::token::ReceiverAction;
use advanced_fungible::token::Token;

fn bob() -> String {
    "bob.near".to_string()
}

fn token_account() -> String {
    "token.near".to_string()
}

fn sender() -> String {
    "sender.near".to_string()
}

fn receiver() -> String {
    "receiver.near".to_string()
}

#[test]
fn token_test_new() {
    let total_supply = 1_000_000_000_000_000u128;
    let contract = Token::new(bob(), total_supply);
    assert_eq!(contract.get_total_supply(), total_supply);
    assert_eq!(contract.get_balance(bob()), total_supply);
}

#[test]
fn pool_test_new() {
    let total_supply = 1_000_000_000_000_000u128;
    let _token = Token::new(bob(), total_supply);
}

#[test]
fn scenario_send_then_finalize() {
    let mut t = Token::new(sender(), 1_000_000);
    let started = t.send(sender(), receiver(), 5_000, vec![]).unwrap();
    assert_eq!(t.get_balance(sender()), 995_000);
    assert_eq!(t.get_balance(receiver()), 5_000);
    assert_eq!(t.get_locked_balance(receiver()), 5_000);
    assert_eq!(started.amount_total, 5_000);

    // probe failed: the receiver is a plain account, finalised on the spot
    let action = t
        .handle_receiver(token_account(), token_account(), started.transfer_id, false)
        .unwrap();
    assert!(matches!(action, ReceiverAction::Finalised));
    assert_eq!(t.get_balance(sender()), 995_000);
    assert_eq!(t.get_balance(receiver()), 5_000);
    assert_eq!(t.get_locked_balance(receiver()), 0);
    assert_eq!(t.get_rollback_count(), 0);
}

#[test]
fn scenario_send_then_rollback() {
    let mut t = Token::new(sender(), 1_000_000);
    let started = t.send(sender(), receiver(), 5_000, vec![1, 2, 3]).unwrap();

    // probe succeeded: the receiver must be notified
    let action = t
        .handle_receiver(token_account(), token_account(), started.transfer_id, true)
        .unwrap();
    match action {
        ReceiverAction::Notify(req) => {
            assert_eq!(req.sender_id, sender());
            assert_eq!(req.receiver_id, receiver());
            assert_eq!(req.amount_received, 5_000);
            assert_eq!(req.amount_total, 5_000);
            assert_eq!(req.payload, vec![1, 2, 3]);
        }
        ReceiverAction::Finalised => panic!("expected a notification request"),
    }

    // the notification failed: roll the transfer back
    t.handle_token_received(token_account(), token_account(), started.transfer_id, false)
        .unwrap();
    assert_eq!(t.get_balance(sender()), 1_000_000);
    assert_eq!(t.get_balance(receiver()), 0);
    assert_eq!(t.get_locked_balance(receiver()), 0);
    assert_eq!(t.get_rollback_count(), 1);
}

#[test]
fn scenario_notify_accepted_finalises() {
    let mut t = Token::new(sender(), 1_000_000);
    let started = t.send(sender(), receiver(), 5_000, vec![]).unwrap();
    t.handle_receiver(token_account(), token_account(), started.transfer_id, true)
        .unwrap();
    t.handle_token_received(token_account(), token_account(), started.transfer_id, true)
        .unwrap();
    assert_eq!(t.get_balance(sender()), 995_000);
    assert_eq!(t.get_balance(receiver()), 5_000);
    assert_eq!(t.get_locked_balance(receiver()), 0);
    assert_eq!(t.get_rollback_count(), 0);
}

#[test]
fn send_of_zero_tokens_is_rejected() {
    let mut t = Token::new(sender(), 1_000_000);
    let r = t.send(sender(), receiver(), 0, vec![]);
    assert_eq!(r.unwrap_err(), TokenError::NoOpTransfer);
    assert_eq!(t.get_balance(sender()), 1_000_000);
}

#[test]
fn send_to_self_is_rejected() {
    let mut t = Token::new(sender(), 1_000_000);
    let r = t.send(sender(), sender(), 10, vec![]);
    assert_eq!(r.unwrap_err(), TokenError::SelfTransfer);
}

#[test]
fn send_to_invalid_account_is_rejected() {
    let mut t = Token::new(sender(), 1_000_000);
    // uppercase is not allowed in an account identifier
    let r = t.send(sender(), "RECEIVER".to_string(), 10, vec![]);
    assert_eq!(r.unwrap_err(), TokenError::InvalidAccount);
    // one character is too short
    let r = t.send(sender(), "x".to_string(), 10, vec![]);
    assert_eq!(r.unwrap_err(), TokenError::InvalidAccount);
}

#[test]
fn send_from_invalid_account_is_rejected() {
    let mut t = Token::new(sender(), 1_000_000);
    let r = t.send("BAD SENDER".to_string(), receiver(), 10, vec![]);
    assert_eq!(r.unwrap_err(), TokenError::InvalidAccount);
}

#[test]
fn send_beyond_balance_is_rejected() {
    let mut t = Token::new(sender(), 1_000);
    let r = t.send(sender(), receiver(), 1_001, vec![]);
    assert_eq!(r.unwrap_err(), TokenError::InsufficientBalance);
    let r = t.send("poor.near".to_string(), receiver(), 1, vec![]);
    assert_eq!(r.unwrap_err(), TokenError::InsufficientBalance);
}

#[test]
fn second_send_to_pending_receiver_is_rejected() {
    let mut t = Token::new(sender(), 1_000_000);
    t.send(sender(), receiver(), 5_000, vec![]).unwrap();
    let r = t.send(sender(), receiver(), 1, vec![]);
    assert_eq!(r.unwrap_err(), TokenError::TransferInProgress);
}

#[test]
fn pending_receiver_cannot_spend_locked_portion() {
    let mut t = Token::new(sender(), 1_000_000);
    t.send(sender(), receiver(), 5_000, vec![]).unwrap();
    // the receiver's visible balance is 5_000, but all of it is locked
    assert_eq!(t.get_balance(receiver()), 5_000);
    let r = t.send(receiver(), "third.near".to_string(), 1, vec![]);
    assert_eq!(r.unwrap_err(), TokenError::InsufficientBalance);
}

#[test]
fn receiver_can_spend_after_finalize() {
    let mut t = Token::new(sender(), 1_000_000);
    let started = t.send(sender(), receiver(), 5_000, vec![]).unwrap();
    t.handle_receiver(token_account(), token_account(), started.transfer_id, false)
        .unwrap();
    let r = t.send(receiver(), "third.near".to_string(), 5_000, vec![]);
    assert!(r.is_ok());
    assert_eq!(t.get_balance("third.near".to_string()), 5_000);
}

#[test]
fn resolution_entry_points_are_authenticated() {
    let mut t = Token::new(sender(), 1_000_000);
    let started = t.send(sender(), receiver(), 5_000, vec![]).unwrap();
    let r = t.handle_receiver(token_account(), "mallory.near".to_string(), started.transfer_id, false);
    assert_eq!(r.unwrap_err(), TokenError::Unauthorized);
    let r = t.handle_token_received(token_account(), "mallory.near".to_string(), started.transfer_id, true);
    assert_eq!(r.unwrap_err(), TokenError::Unauthorized);
}

#[test]
fn resolved_transfer_cannot_be_resolved_again() {
    let mut t = Token::new(sender(), 1_000_000);
    let started = t.send(sender(), receiver(), 5_000, vec![]).unwrap();
    t.handle_receiver(token_account(), token_account(), started.transfer_id, true)
        .unwrap();
    t.handle_token_received(token_account(), token_account(), started.transfer_id, true)
        .unwrap();
    let r = t.handle_token_received(token_account(), token_account(), started.transfer_id, true);
    assert_eq!(r.unwrap_err(), TokenError::TransferNotPending);
    let r = t.handle_receiver(token_account(), token_account(), started.transfer_id, false);
    assert_eq!(r.unwrap_err(), TokenError::TransferNotPending);
}

#[test]
fn probe_cannot_be_resolved_twice() {
    let mut t = Token::new(sender(), 1_000_000);
    let started = t.send(sender(), receiver(), 5_000, vec![]).unwrap();
    t.handle_receiver(token_account(), token_account(), started.transfer_id, true)
        .unwrap();
    // the record is now waiting on the notification, not on the probe
    let r = t.handle_receiver(token_account(), token_account(), started.transfer_id, true);
    assert_eq!(r.unwrap_err(), TokenError::TransferNotPending);
    // and the notification cannot be resolved before the probe
    let started2 = t.send(sender(), "other.near".to_string(), 7, vec![]).unwrap();
    let r = t.handle_token_received(token_account(), token_account(), started2.transfer_id, true);
    assert_eq!(r.unwrap_err(), TokenError::TransferNotPending);
}

#[test]
fn finalise_underflow_is_rejected() {
    let mut t = Token::new(sender(), 1_000_000);
    t.send(sender(), receiver(), 5_000, vec![]).unwrap();
    let r = t.ledger.finalise(receiver(), 6_000);
    assert_eq!(r.unwrap_err(), TokenError::FinalizeUnderflow);
    let r = t.ledger.finalise("unknown.near".to_string(), 1);
    assert_eq!(r.unwrap_err(), TokenError::TransferNotPending);
}

#[test]
fn rollback_underflow_is_rejected() {
    let mut t = Token::new(sender(), 1_000_000);
    t.send(sender(), receiver(), 5_000, vec![]).unwrap();
    let r = t.ledger.rollback(sender(), receiver(), 6_000);
    assert_eq!(r.unwrap_err(), TokenError::RollbackUnderflow);
    let r = t.ledger.rollback("wrong.near".to_string(), receiver(), 5_000);
    assert_eq!(r.unwrap_err(), TokenError::TransferNotPending);
    let r = t.ledger.rollback(sender(), "unknown.near".to_string(), 5_000);
    assert_eq!(r.unwrap_err(), TokenError::TransferNotPending);
}

#[test]
fn two_transfers_to_different_receivers_run_side_by_side() {
    let mut t = Token::new(sender(), 1_000_000);
    let a = t.send(sender(), "first.near".to_string(), 100, vec![]).unwrap();
    let b = t.send(sender(), "second.near".to_string(), 200, vec![]).unwrap();
    assert_ne!(a.transfer_id, b.transfer_id);
    assert_eq!(t.get_balance(sender()), 999_700);
    t.handle_receiver(token_account(), token_account(), b.transfer_id, true)
        .unwrap();
    t.handle_token_received(token_account(), token_account(), b.transfer_id, false)
        .unwrap();
    t.handle_receiver(token_account(), token_account(), a.transfer_id, false)
        .unwrap();
    assert_eq!(t.get_balance(sender()), 999_900);
    assert_eq!(t.get_balance("first.near".to_string()), 100);
    assert_eq!(t.get_balance("second.near".to_string()), 0);
    assert_eq!(t.get_rollback_count(), 1);
}

#[test]
fn metadata_starts_empty() {
    let t = Token::new(bob(), 10);
    assert_eq!(t.get_name(), "");
    assert_eq!(t.metadata.symbol, "");
    assert_eq!(t.metadata.web_link, "");
    assert_eq!(t.metadata.metadata_link, "");
}
