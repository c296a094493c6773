//! A client library for submitting authenticated transactions to a
//! blockchain node and observing their finality.
//!
//! The verified core is the account and transaction-lifecycle subsystem:
//! cryptographic identities with hash-derived addresses (`account`), the
//! canonical, signable transaction envelope and its signing step
//! (`envelope`), the wire encoding with its proved round trip (`codec`),
//! and the submit-then-poll protocol that turns an unconfirmed submission
//! into a committed or timed-out outcome (`rest_client`). Around it sit the
//! payload builders for the managed-coin and vault modules and the faucet
//! funding target. All network traffic happens outside the library: callers
//! fetch each URL the library builds and hand status and body back to the
//! response readers here.
pub mod account;
pub mod codec;
pub mod crypto;
pub mod envelope;
pub mod errors;
pub mod faucet_client;
pub mod hexenc;
pub mod jsonio;
pub mod managed_coin_client;
pub mod payload;
pub mod rest_client;
pub mod text;
pub mod vault_client;
