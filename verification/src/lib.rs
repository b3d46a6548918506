//! A deposit ledger keyed by client identifier, and a claim authorizer that
//! consents only when a fixed Ed25519 signature verifies.
//!
//! * `ledger` holds the ledger itself, `Pallet`: a deposit is recorded only if
//!   the depositor's free balance covers it, and a later deposit for the same
//!   client replaces the earlier one.
//! * `claim` holds the authorizer: parse the key, parse the signature, verify;
//!   any failure is the same refusal.
//! * `dispatch` routes a `Call` to one of the two operations and names the
//!   `Event` to announce.
//! * `dalek` is the boundary to the Ed25519 implementation, the one part of
//!   the library that is believed rather than proved.
//!
//! The caller is taken to be authenticated already, and its free balance is
//! handed in as a number: the ledger asks no one and moves no funds.

pub mod claim;
pub mod dalek;
pub mod dispatch;
pub mod error;
pub mod ledger;

pub use claim::{verify_claim, ClaimState, MESSAGE, PUBLIC_KEY, SIGNATURE};
pub use dispatch::{Call, Event};
pub use error::Error;
pub use ledger::{Balance, Pallet};
