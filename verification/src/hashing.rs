//! The one-way digests the commit-reveal protocol rests on.
//!
//! Both digests are SHA-256, computed by outside crates; the library names
//! their results ([`sha256_of`], [`sha256v_of`]) rather than restating the
//! algorithm, and everything downstream is proved over those names.

use vstd::prelude::*;

verus! {

/// The SHA-256 digest of a byte sequence, as the host's hash routine
/// computes it: a function of the bytes alone.
pub uninterp spec fn sha256_of(bytes: Seq<u8>) -> Seq<u8>;

/// The SHA-256 digest of three byte sequences hashed in order, as the
/// proof hasher computes it: a function of the three parts alone.
pub uninterp spec fn sha256v_of(a: Seq<u8>, b: Seq<u8>, c: Seq<u8>) -> Seq<u8>;

/// Relies on anchor_lang::solana_program::hash::hash: the SHA-256 digest of
/// the input bytes, depending on them alone.
#[verifier::external_body]
fn sha256_digest(bytes: &[u8]) -> (r: [u8; 32])
    ensures
        r@ == sha256_of(bytes@),
{
    anchor_lang::solana_program::hash::hash(bytes).to_bytes()
}

/// Relies on light_hasher::Sha256::hashv in its sha2-backed build: the
/// SHA-256 digest of the parts hashed in order, depending on them alone;
/// that build computes it for every input, so the call always succeeds.
#[verifier::external_body]
pub(crate) fn sha256v3_digest(a: &[u8], b: &[u8], c: &[u8]) -> (r: Option<[u8; 32]>)
    ensures
        r is Some,
        r matches Some(d) ==> d@ == sha256v_of(a@, b@, c@),
{
    <light_hasher::Sha256 as light_hasher::Hasher>::hashv(&[a, b, c]).ok()
}

/// The digest that gates redemption: 32 bytes of SHA-256 over the secret
/// note. Equal notes always give equal digests, and the digest length is
/// fixed at 32 whatever the note's length.
pub fn hash_note(note: &Vec<u8>) -> (r: [u8; 32])
    ensures
        r@ == sha256_of(note@),
        r@.len() == 32,
{
    sha256_digest(note.as_slice())
}

/// Law: the digest is a pure function of the note — equal notes always
/// produce equal digests.
pub proof fn lemma_digest_deterministic(n1: Seq<u8>, n2: Seq<u8>)
    requires
        n1 == n2,
    ensures
        sha256_of(n1) == sha256_of(n2),
{
}

} // verus!
