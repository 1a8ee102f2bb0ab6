//! Per-user usage accounts: a counter record created per user and updated
//! by increments, and the reward record drawn from it.
//!
//! Usage timing measurements live with the host, which samples them as
//! floating-point values; the protocol layer keeps only what its rules
//! read: the counters, the reward tally and the validation flag.

use vstd::prelude::*;
use crate::ledger::Pubkey;

verus! {

/// The failure kinds of usage updates.
#[derive(Clone, Copy, Debug, PartialEq, Eq, Structural)]
pub enum ErrorCode {
    /// An integer conversion or counter update would overflow.
    NumberCastError,
}

impl From<core::num::TryFromIntError> for ErrorCode {
    /// Every failed integer conversion surfaces as `NumberCastError`.
    fn from(v: core::num::TryFromIntError) -> (r: Self) {
        ErrorCode::NumberCastError
    }
}

impl vstd::std_specs::convert::FromSpecImpl<core::num::TryFromIntError> for ErrorCode {
    open spec fn obeys_from_spec() -> bool {
        true
    }

    open spec fn from_spec(v: core::num::TryFromIntError) -> ErrorCode {
        ErrorCode::NumberCastError
    }
}

/// One user's usage record: who owns it, how many puffs were counted, the
/// accumulated reward, and whether the record was validated.
pub struct VapeData {
    pub authority: Pubkey,
    pub puff_count: i64,
    pub is_validated: bool,
    pub reward: u64,
    pub bump: u8,
}

/// A claimed reward: who claimed, and how much.
pub struct Reward {
    pub authority: Pubkey,
    pub reward: u64,
}

/// Creates `signer`'s usage record with every counter at zero and the
/// validation flag cleared.
pub fn init_vape_account(signer: &Pubkey) -> (v: VapeData)
    ensures
        v.authority == *signer,
        v.puff_count == 0,
        !v.is_validated,
        v.reward == 0,
        v.bump == 0,
{
    VapeData { authority: *signer, puff_count: 0, is_validated: false, reward: 0, bump: 0 }
}

/// Counts one more puff and accumulates the reward carried by `new_data`.
/// An update that would overflow either counter fails with
/// `NumberCastError` and changes nothing.
pub fn update_data(vape: &mut VapeData, new_data: &VapeData) -> (r: Result<(), ErrorCode>)
    ensures
        old(vape).puff_count < i64::MAX && old(vape).reward + new_data.reward <= u64::MAX ==> r
            is Ok && final(vape).puff_count == old(vape).puff_count + 1 && final(vape).reward == old(
            vape,
        ).reward + new_data.reward,
        old(vape).puff_count == i64::MAX || old(vape).reward + new_data.reward > u64::MAX ==> r
            == Err::<(), ErrorCode>(ErrorCode::NumberCastError) && *final(vape) == *old(vape),
        final(vape).authority == old(vape).authority,
        final(vape).is_validated == old(vape).is_validated,
        final(vape).bump == old(vape).bump,
{
    if vape.puff_count == i64::MAX {
        return Err(ErrorCode::NumberCastError);
    }
    if new_data.reward > u64::MAX - vape.reward {
        return Err(ErrorCode::NumberCastError);
    }
    vape.puff_count = vape.puff_count + 1;
    vape.reward = vape.reward + new_data.reward;
    Ok(())
}

/// Accepts a reward claim. The reward record's creation and funding are the
/// host's account plumbing; the protocol layer imposes no precondition.
pub fn claim_reward() -> (r: Result<(), ErrorCode>)
    ensures
        r is Ok,
{
    Ok(())
}

} // verus!
