//! Events the protocol emits for external observers. Nothing consumes them
//! internally; the operations return them to the caller, who forwards them
//! to the host's log.

use vstd::prelude::*;
use crate::ledger::Pubkey;

verus! {

/// Emitted once, by the initialization: the asset's identity, the verifier
/// that will gate claims, and the asset's display metadata.
pub struct InitEvent {
    pub mint: Pubkey,
    pub verifier: Pubkey,
    pub name: String,
    pub symbol: String,
    pub uri: String,
}

/// Emitted by every successful claim: the asset, the affected user, the
/// amount moved, and whether it was minted or burned.
pub struct ClaimEvent {
    pub mint: Pubkey,
    pub user: Pubkey,
    pub amount: u64,
    pub is_burn: bool,
}

} // verus!
