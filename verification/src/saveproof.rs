//! Proof submission: the commitment-store variant that takes the secret
//! bytes themselves, digests them, and persists the digest.
//!
//! A proof is at least 128 bytes: three segments of 32, 64 and 32 bytes.
//! The operation hashes the segments in order and stores the digest with
//! the submitting account and the submission time.

use vstd::prelude::*;
use vstd::slice::slice_subrange;
use crate::hashing::{sha256v3_digest, sha256v_of};
use crate::ledger::Pubkey;

verus! {

/// A submitted proof commitment: the digest of the proof's segments, when
/// it was submitted, and for which account.
pub struct ProofData {
    pub proof_hash: [u8; 32],
    pub timestamp: i64,
    pub account_id: Pubkey,
}

/// The failure kinds of proof submission.
#[derive(Clone, Copy, Debug, PartialEq, Eq, Structural)]
pub enum ErrorCode {
    /// The named account does not match the submission.
    InvalidAccount,
    /// The digest of the submitted bytes could not be computed.
    HashingFailed,
}

/// Digests a proof's three segments in order and stores the digest, the
/// submitting account and the submission time in `proof_data`. The caller
/// supplies the submission time: the clock is the host's, not the
/// protocol's.
pub fn submit_proof(
    proof_data: &mut ProofData,
    proof: &Vec<u8>,
    account_id: &Pubkey,
    timestamp: i64,
) -> (r: Result<(), ErrorCode>)
    requires
        proof@.len() >= 128,
    ensures
        r is Ok,
        final(proof_data).proof_hash@ == sha256v_of(
            proof@.subrange(0, 32),
            proof@.subrange(32, 96),
            proof@.subrange(96, 128),
        ),
        final(proof_data).account_id == *account_id,
        final(proof_data).timestamp == timestamp,
{
    let s = proof.as_slice();
    let a = slice_subrange(s, 0, 32);
    let b = slice_subrange(s, 32, 96);
    let c = slice_subrange(s, 96, 128);
    match sha256v3_digest(a, b, c) {
        Some(digest) => {
            proof_data.proof_hash = digest;
            proof_data.account_id = *account_id;
            proof_data.timestamp = timestamp;
            Ok(())
        },
        None => Err(ErrorCode::HashingFailed),
    }
}

} // verus!
