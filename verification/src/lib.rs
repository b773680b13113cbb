//! An account-balance ledger for asynchronous, multi-step value transfers.
//!
//! The core is the locked-balance transfer protocol: a transfer tentatively
//! debits the sender and credits the receiver while locking the credited
//! portion, an external party is then probed and notified, and the outcome
//! of that notification drives exactly one of `finalise` or `rollback`.
//! The lock keeps the credited funds unspendable until the transfer is
//! confirmed, which defeats re-entrancy by the notified receiver.

pub mod account;
pub mod errors;
pub mod store;
pub mod ledger;
pub mod token;
pub mod laws;
pub mod receiver;
pub mod pool;
pub mod escrow;
