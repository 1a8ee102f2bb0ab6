//! The one-per-deployment configuration record.

use vstd::prelude::*;
use crate::ledger::Pubkey;

verus! {

/// The display scale the asset is registered with.
pub const DEFAULT_DECIMALS: u8 = 6;

/// The deployment's configuration: who initialized it, whether it is
/// initialized, and which identity may approve claims.
///
/// `initialized` is set exactly once and never reverts to `false`; neither
/// `authority` nor `verifier` changes after initialization (no rotation
/// operation exists).
pub struct Global {
    pub authority: Pubkey,
    pub initialized: bool,
    pub verifier: Pubkey,
    pub token_address: Pubkey,
}

} // verus!
