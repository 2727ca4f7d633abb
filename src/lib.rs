//! Storage-deposit accounting for the accounts of a staking pool.
//!
//! Each registered account commits value to pay for the state it occupies.
//! The ledger enforces a minimum commitment at registration, refunds
//! deposits made to accounts that are already registered, lets an account
//! withdraw the part of its commitment that its footprint does not need,
//! and lets an account with no reserved stake leave and take its whole
//! commitment back.
//!
//! The host supplies the price of storage and the caller's identity and
//! attached value, and carries out the transfers that each operation
//! returns; a refused operation changes nothing and asks for no transfer.
pub mod amount;
pub mod ledger;
pub mod laws;
