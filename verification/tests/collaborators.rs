use advanced_fungible::escrow::Escrow;
use advanced_fungible::pool::BurnerPool;
use advanced_fungible::receiver::Receiver;
use advanced_fungible::store::BalanceStore;

fn token_account() -> String {
    "token.near".to_string()
}

#[test]
fn pool_identifies_as_receiver() {
    assert!(BurnerPool::is_receiver());
}

#[test]
fn pool_accumulates_received_tokens() {
    let mut pool = BurnerPool::new(token_account());
    let r = pool.on_token_received(token_account(), "alice.near".to_string(), 700, 700, vec![]);
    assert!(r.is_none());
    let r = pool.on_token_received(token_account(), "bob.near".to_string(), 300, 1_000, vec![]);
    assert!(r.is_none());
    assert_eq!(pool.get_total_received(), 1_000);
}

#[test]
fn pool_rejects_other_tokens() {
    let mut pool = BurnerPool::new(token_account());
    let r = pool.on_token_received(
        "other-token.near".to_string(),
        "alice.near".to_string(),
        700,
        700,
        vec![],
    );
    assert!(r.is_some());
    assert_eq!(pool.get_total_received(), 0);
}

#[test]
fn pool_rejects_mismatched_running_total() {
    let mut pool = BurnerPool::new(token_account());
    let r = pool.on_token_received(token_account(), "alice.near".to_string(), 700, 9_999, vec![]);
    assert!(r.is_some());
    assert_eq!(pool.get_total_received(), 0);
}

#[test]
fn pool_answers_the_receiver_interface() {
    let mut pool = BurnerPool::new(token_account());
    assert!(Receiver::is_receiver(&pool));
    let accepted = Receiver::on_token_received(&mut pool, token_account(), 42, 42, vec![7]);
    assert!(accepted);
    assert_eq!(pool.total_received, 42);
}

#[test]
fn escrow_keeps_its_fee() {
    let mut escrow = Escrow::new(token_account());
    let r = escrow.process_token_received(token_account(), 1_000, 1_000, vec![]);
    assert!(r.is_none());
    assert_eq!(escrow.total_received, 1_000);
    assert_eq!(escrow.total_fees, 100);
    assert_eq!(escrow.get_balance(&token_account()), 900);
}

#[test]
fn escrow_rejects_other_tokens_and_dust() {
    let mut escrow = Escrow::new(token_account());
    let r = escrow.process_token_received("other.near".to_string(), 1_000, 1_000, vec![]);
    assert!(r.is_some());
    // a transfer below the fee cannot be escrowed
    let r = escrow.process_token_received(token_account(), 99, 99, vec![]);
    assert!(r.is_some());
    assert_eq!(escrow.total_received, 0);
    assert_eq!(escrow.total_fees, 0);
    assert_eq!(escrow.get_balance(&token_account()), 0);
}

#[test]
fn store_reads_zero_for_unknown_accounts() {
    let store = BalanceStore::new();
    assert_eq!(store.get(&"nobody.near".to_string()), 0);
    assert_eq!(store.get_locked(&"nobody.near".to_string()), 0);
}

#[test]
fn store_keeps_unlocked_and_locked_apart() {
    let mut store = BalanceStore::new();
    let alice = "alice.near".to_string();
    let bob = "bob.near".to_string();
    store.set(&alice, 10);
    store.set_locked(&alice, 3);
    store.set(&bob, 7);
    assert_eq!(store.get(&alice), 10);
    assert_eq!(store.get_locked(&alice), 3);
    assert_eq!(store.get(&bob), 7);
    assert_eq!(store.get_locked(&bob), 0);
    store.set(&alice, 4);
    assert_eq!(store.get(&alice), 4);
    assert_eq!(store.get_locked(&alice), 3);
}
