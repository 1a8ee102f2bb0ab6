//! Verifier-gated mint/burn authorization and a hash-based commit-reveal
//! claim protocol for a fungible asset, together with the configuration
//! record that gates both.
//!
//! The external ledger (per-user balances and total supply) is modelled by
//! the types in [`ledger`]; the operations of the protocol layer live in
//! [`initialize`], [`claim`], [`claimtoken`] and [`saveproof`].

pub mod claim;
pub mod claimtoken;
pub mod errors;
pub mod events;
pub mod hashing;
pub mod initialize;
pub mod ledger;
pub mod saveproof;
pub mod state;
pub mod vapeclub;
