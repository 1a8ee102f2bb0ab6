//! The commitment store and the redemption gateway.
//!
//! A user first submits a 32-byte one-way digest of a secret note; later,
//! presenting the note itself redeems the commitment for a caller-chosen
//! quantity of the asset. The note is a bearer credential: the mint is
//! authorized by the hash match alone. A commitment is redeemable at most
//! once: a successful redemption marks it consumed, and a consumed
//! commitment rejects every further redemption.

use vstd::prelude::*;
use crate::hashing::{hash_note, sha256_of};
use crate::ledger::{account_backed, bytes32_eq, mint_to, Mint, Pubkey, TokenAccount};

verus! {

/// One user's outstanding commitment: the digest of their secret note, and
/// whether the commitment has already been redeemed.
pub struct NoteData {
    pub note_hash: [u8; 32],
    pub bump: u8,
    pub payer: Pubkey,
    pub consumed: bool,
}

/// The failure kinds of redemption.
#[derive(Clone, Copy, Debug, PartialEq, Eq, Structural)]
pub enum CustomError {
    /// The revealed note does not hash to the stored commitment.
    InvalidNoteHash,
    /// The commitment was already redeemed once.
    CommitmentConsumed,
    /// Crediting the quantity would overflow the supply counter.
    NumberCastError,
}

/// What submission does: the outstanding commitment becomes the given
/// digest, owned by `owner`, not yet consumed.
pub open spec fn submit_spec(nd: NoteData, owner: Pubkey, commitment_hash: [u8; 32]) -> NoteData {
    NoteData { note_hash: commitment_hash, bump: nd.bump, payer: owner, consumed: false }
}

/// Stores or overwrites `owner`'s single outstanding commitment with the
/// given 32-byte digest and resets its consumption state. No validation is
/// performed on the digest's origin: the protocol's security rests on the
/// secrecy of the note before redemption.
pub fn submit(data_account: &mut NoteData, owner: &Pubkey, commitment_hash: &[u8; 32])
    ensures
        *final(data_account) == submit_spec(*old(data_account), *owner, *commitment_hash),
{
    data_account.note_hash = *commitment_hash;
    data_account.payer = *owner;
    data_account.consumed = false;
}

/// What redemption does: on a digest match against an unconsumed commitment
/// it credits the quantity and marks the commitment consumed; otherwise it
/// fails with the kind of the first violated check and changes nothing.
pub open spec fn claim_token_spec(
    nd: NoteData,
    m: Mint,
    a: TokenAccount,
    note: Seq<u8>,
    quantity: u64,
) -> Result<(NoteData, Mint, TokenAccount), CustomError> {
    if sha256_of(note) != nd.note_hash@ {
        Err(CustomError::InvalidNoteHash)
    } else if nd.consumed {
        Err(CustomError::CommitmentConsumed)
    } else if m.supply + quantity > u64::MAX {
        Err(CustomError::NumberCastError)
    } else {
        Ok(
            (
                NoteData {
                    note_hash: nd.note_hash,
                    bump: nd.bump,
                    payer: nd.payer,
                    consumed: true,
                },
                Mint { key: m.key, supply: (m.supply + quantity) as u64, decimals: m.decimals },
                TokenAccount { owner: a.owner, mint: a.mint, amount: (a.amount + quantity) as u64 },
            ),
        )
    }
}

/// Redeems the outstanding commitment: hashes the revealed note, compares
/// the digest against the stored one over the full 32 bytes, and on a match
/// against an unconsumed commitment mints `quantity` to the owner's account
/// and marks the commitment consumed. The quantity is caller-supplied: the
/// commitment binds only the note, not any amount.
pub fn claim_token(
    data_account: &mut NoteData,
    mint: &mut Mint,
    user_token_account: &mut TokenAccount,
    note: &Vec<u8>,
    quantity: u64,
) -> (r: Result<(), CustomError>)
    requires
        account_backed(*old(mint), *old(user_token_account)),
    ensures
        account_backed(*final(mint), *final(user_token_account)),
        match claim_token_spec(
            *old(data_account),
            *old(mint),
            *old(user_token_account),
            note@,
            quantity,
        ) {
            Ok(t) => r is Ok
                && *final(data_account) == t.0
                && *final(mint) == t.1
                && *final(user_token_account) == t.2,
            Err(err) => r == Err::<(), CustomError>(err)
                && *final(data_account) == *old(data_account)
                && *final(mint) == *old(mint)
                && *final(user_token_account) == *old(user_token_account),
        },
{
    let note_hash = hash_note(note);
    if !bytes32_eq(&note_hash, &data_account.note_hash) {
        return Err(CustomError::InvalidNoteHash);
    }
    if data_account.consumed {
        return Err(CustomError::CommitmentConsumed);
    }
    match mint_to(mint, user_token_account, quantity) {
        Ok(()) => {
            data_account.consumed = true;
            Ok(())
        },
        Err(_) => Err(CustomError::NumberCastError),
    }
}

/// Law: the commit-reveal round trip. Submitting the digest of a note and
/// then redeeming with that very note succeeds and credits exactly the
/// requested quantity, provided the supply counter does not overflow.
pub proof fn lemma_commit_reveal_round_trip(
    nd0: NoteData,
    owner: Pubkey,
    digest: [u8; 32],
    note: Seq<u8>,
    m: Mint,
    a: TokenAccount,
    quantity: u64,
)
    requires
        digest@ == sha256_of(note),
        account_backed(m, a),
        m.supply + quantity <= u64::MAX,
    ensures
        ({
            let nd = submit_spec(nd0, owner, digest);
            claim_token_spec(nd, m, a, note, quantity) matches Ok(t) && t.2.amount == a.amount
                + quantity && t.1.supply == m.supply + quantity && t.0.consumed
        }),
{
}

/// Law: a note whose digest differs from the stored commitment is rejected
/// with `InvalidNoteHash`. (A distinct note whose digest collides with the
/// commitment is indistinguishable from the committed note by the hash
/// comparison, so the law is stated over the digests.)
pub proof fn lemma_wrong_note_rejected(
    nd: NoteData,
    m: Mint,
    a: TokenAccount,
    note: Seq<u8>,
    quantity: u64,
)
    requires
        sha256_of(note) != nd.note_hash@,
    ensures
        claim_token_spec(nd, m, a, note, quantity) == Err::<
            (NoteData, Mint, TokenAccount),
            CustomError,
        >(CustomError::InvalidNoteHash),
{
}

/// Law: redemption is single-use. After one successful redemption, a second
/// redemption of the resulting commitment fails with `CommitmentConsumed`,
/// whatever note, quantity or ledger state the second attempt brings.
pub proof fn lemma_replay_rejected(
    nd: NoteData,
    m: Mint,
    a: TokenAccount,
    note: Seq<u8>,
    quantity: u64,
    m2: Mint,
    a2: TokenAccount,
    note2: Seq<u8>,
    quantity2: u64,
)
    requires
        claim_token_spec(nd, m, a, note, quantity) is Ok,
    ensures
        ({
            let nd1 = claim_token_spec(nd, m, a, note, quantity)->Ok_0.0;
            claim_token_spec(nd1, m2, a2, note2, quantity2) is Err
        }),
        ({
            let nd1 = claim_token_spec(nd, m, a, note, quantity)->Ok_0.0;
            sha256_of(note2) == nd1.note_hash@ ==> claim_token_spec(nd1, m2, a2, note2, quantity2)
                == Err::<(NoteData, Mint, TokenAccount), CustomError>(
                CustomError::CommitmentConsumed,
            )
        }),
{
}

} // verus!
