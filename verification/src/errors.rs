//! The shared error taxonomy of the protocol layer.
//!
//! The taxonomy is flat: each failure is one named kind, chosen by the first
//! violated precondition. No operation catches and retries an error; every
//! failure aborts the whole operation with no partial state change.

use vstd::prelude::*;

verus! {

/// One error kind per failure mode of the protocol layer.
///
/// Every operation picks the kind of the first precondition it finds
/// violated, in the fixed order: initialization state, authorization,
/// amount validity, balance sufficiency, hash match.
#[derive(Clone, Copy, Debug, PartialEq, Eq, Structural)]
pub enum MistTokenError {
    /// The one-time initialization was attempted a second time.
    AlreadyInitialized,
    /// A mutating operation ran before initialization.
    NotInitialized,
    /// The required signer (verifier, or the asset owner) is missing.
    InvalidAuthority,
    /// A burn asked for more than the user's balance holds.
    InsufficientTokens,
    /// A fee payment did not cover what the operation charges.
    InsufficientFee,
    /// A claim asked for a zero amount.
    InvalidAmount,
    /// The asset has no supply to draw from.
    EmptySupply,
    /// The revealed note does not hash to the stored commitment.
    InvalidNoteHash,
    /// The digest of the submitted bytes could not be computed.
    HashingFailed,
    /// An integer conversion or balance update would overflow.
    NumberCastError,
}

} // verus!
