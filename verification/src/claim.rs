//! The claim gateway: verifier-gated issuance and destruction of units.
//!
//! A claim mints to, or burns from, one user's token account. Minting is
//! authorized solely by the verifier's signature; burning additionally needs
//! the acting user's own — only the asset's owner may destroy their own
//! holdings. Preconditions are checked in the fixed order: initialization
//! state, authorization, amount validity, balance sufficiency; the first
//! violated one aborts the claim with its error kind and no state change.

use vstd::prelude::*;
use crate::errors::MistTokenError;
use crate::events::ClaimEvent;
use crate::ledger::{account_backed, burn, mint_to, pubkey_eq, Mint, Pubkey, TokenAccount};
use crate::state::Global;

verus! {

/// The transient claim request: how much, and whether to burn instead of
/// mint.
pub struct ClaimParams {
    pub amount: u64,
    pub is_burn: bool,
}

/// What a claim does: either the new asset record, token account and claim
/// event, or the error kind of the first violated precondition.
pub open spec fn claim_spec(
    g: Global,
    signer: Pubkey,
    user: Pubkey,
    m: Mint,
    a: TokenAccount,
    amount: u64,
    is_burn: bool,
) -> Result<(Mint, TokenAccount, ClaimEvent), MistTokenError> {
    if !g.initialized {
        Err(MistTokenError::NotInitialized)
    } else if signer@ != g.verifier@ {
        Err(MistTokenError::InvalidAuthority)
    } else if is_burn && user@ != a.owner@ {
        Err(MistTokenError::InvalidAuthority)
    } else if amount == 0 {
        Err(MistTokenError::InvalidAmount)
    } else if !is_burn {
        if m.supply + amount > u64::MAX {
            Err(MistTokenError::NumberCastError)
        } else {
            Ok(
                (
                    Mint { key: m.key, supply: (m.supply + amount) as u64, decimals: m.decimals },
                    TokenAccount {
                        owner: a.owner,
                        mint: a.mint,
                        amount: (a.amount + amount) as u64,
                    },
                    ClaimEvent { mint: m.key, user: a.owner, amount: amount, is_burn: false },
                ),
            )
        }
    } else {
        if a.amount < amount {
            Err(MistTokenError::InsufficientTokens)
        } else {
            Ok(
                (
                    Mint { key: m.key, supply: (m.supply - amount) as u64, decimals: m.decimals },
                    TokenAccount {
                        owner: a.owner,
                        mint: a.mint,
                        amount: (a.amount - amount) as u64,
                    },
                    ClaimEvent { mint: m.key, user: a.owner, amount: amount, is_burn: true },
                ),
            )
        }
    }
}

/// Validates a claim request and performs it against the ledger.
///
/// `signer` is the identity that signed as verifier; `user` is the acting
/// user, whose own signature authorizes a burn. On success the returned
/// event reports the asset, the account's owner, the amount, and the
/// mint-or-burn tag; on failure nothing changes.
pub fn claim(
    global: &Global,
    signer: &Pubkey,
    user: &Pubkey,
    mint: &mut Mint,
    user_token_account: &mut TokenAccount,
    params: &ClaimParams,
) -> (r: Result<ClaimEvent, MistTokenError>)
    requires
        account_backed(*old(mint), *old(user_token_account)),
    ensures
        account_backed(*final(mint), *final(user_token_account)),
        match claim_spec(
            *global,
            *signer,
            *user,
            *old(mint),
            *old(user_token_account),
            params.amount,
            params.is_burn,
        ) {
            Ok(t) => r matches Ok(e) && *final(mint) == t.0 && *final(user_token_account) == t.1
                && e == t.2,
            Err(err) => r == Err::<ClaimEvent, MistTokenError>(err) && *final(mint) == *old(mint)
                && *final(user_token_account) == *old(user_token_account),
        },
{
    if !global.initialized {
        return Err(MistTokenError::NotInitialized);
    }
    if !pubkey_eq(signer, &global.verifier) {
        return Err(MistTokenError::InvalidAuthority);
    }
    if params.is_burn && !pubkey_eq(user, &user_token_account.owner) {
        return Err(MistTokenError::InvalidAuthority);
    }
    if params.amount == 0 {
        return Err(MistTokenError::InvalidAmount);
    }
    let event_mint = mint.key;
    let event_user = user_token_account.owner;
    if !params.is_burn {
        match mint_to(mint, user_token_account, params.amount) {
            Ok(()) => Ok(
                ClaimEvent {
                    mint: event_mint,
                    user: event_user,
                    amount: params.amount,
                    is_burn: false,
                },
            ),
            Err(e) => Err(e),
        }
    } else {
        if user_token_account.amount < params.amount {
            return Err(MistTokenError::InsufficientTokens);
        }
        match burn(mint, user_token_account, user, params.amount) {
            Ok(()) => Ok(
                ClaimEvent {
                    mint: event_mint,
                    user: event_user,
                    amount: params.amount,
                    is_burn: true,
                },
            ),
            Err(e) => Err(e),
        }
    }
}

/// Law: only the verifier may claim. For any positive amount, a claim whose
/// signer is not the configured verifier fails with `InvalidAuthority`, so
/// the ledger is left unchanged.
pub proof fn lemma_non_verifier_rejected(
    g: Global,
    signer: Pubkey,
    user: Pubkey,
    m: Mint,
    a: TokenAccount,
    amount: u64,
    is_burn: bool,
)
    requires
        g.initialized,
        signer@ != g.verifier@,
        amount > 0,
    ensures
        claim_spec(g, signer, user, m, a, amount, is_burn) == Err::<
            (Mint, TokenAccount, ClaimEvent),
            MistTokenError,
        >(MistTokenError::InvalidAuthority),
{
}

/// Law: a burn needs the balance to cover it. With balance `b`, a burn of
/// `b + 1` fails with `InsufficientTokens`, while a burn of `b` itself
/// succeeds and leaves the balance at zero.
pub proof fn lemma_burn_requires_balance(
    g: Global,
    signer: Pubkey,
    user: Pubkey,
    m: Mint,
    a: TokenAccount,
)
    requires
        g.initialized,
        signer@ == g.verifier@,
        user@ == a.owner@,
        account_backed(m, a),
        0 < a.amount < u64::MAX,
    ensures
        claim_spec(g, signer, user, m, a, (a.amount + 1) as u64, true) == Err::<
            (Mint, TokenAccount, ClaimEvent),
            MistTokenError,
        >(MistTokenError::InsufficientTokens),
        claim_spec(g, signer, user, m, a, a.amount, true) matches Ok(t) && t.1.amount == 0,
{
}

/// Law: a zero amount is rejected. Both a zero mint and a zero burn fail
/// with `InvalidAmount`, whoever signed, so the ledger is left unchanged.
pub proof fn lemma_zero_amount_rejected(
    g: Global,
    signer: Pubkey,
    user: Pubkey,
    m: Mint,
    a: TokenAccount,
    is_burn: bool,
)
    requires
        g.initialized,
        signer@ == g.verifier@,
        !is_burn || user@ == a.owner@,
    ensures
        claim_spec(g, signer, user, m, a, 0, is_burn) == Err::<
            (Mint, TokenAccount, ClaimEvent),
            MistTokenError,
        >(MistTokenError::InvalidAmount),
{
}

} // verus!
