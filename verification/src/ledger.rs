//! Model of the external ledger: 32-byte identities, the asset record with
//! its total supply, and a per-user token account with its balance.
//!
//! The ledger itself (balance storage, supply accounting) is an external
//! collaborator; the protocol layer drives it only through [`mint_to`] and
//! [`burn`], whose contracts state exactly how balance and supply move.

use vstd::prelude::*;
use crate::errors::MistTokenError;

verus! {

/// A 32-byte identity: a user, an asset, or a derived authority.
#[derive(Clone, Copy)]
pub struct Pubkey {
    pub bytes: [u8; 32],
}

impl View for Pubkey {
    type V = Seq<u8>;

    open spec fn view(&self) -> Seq<u8> {
        self.bytes@
    }
}

/// Compares two 32-byte values for exact, full-width equality.
pub fn bytes32_eq(a: &[u8; 32], b: &[u8; 32]) -> (r: bool)
    ensures
        r <==> a@ == b@,
{
    let mut i: usize = 0;
    while i < 32
        invariant
            i <= 32,
            forall|j: int| 0 <= j < i ==> a@[j] == b@[j],
        decreases 32 - i,
    {
        if a[i] != b[i] {
            return false;
        }
        i = i + 1;
    }
    proof {
        assert(a@ =~= b@);
    }
    true
}

/// Compares two identities for equality.
pub fn pubkey_eq(a: &Pubkey, b: &Pubkey) -> (r: bool)
    ensures
        r <==> a@ == b@,
{
    bytes32_eq(&a.bytes, &b.bytes)
}

/// The asset record the ledger keeps: its identity, total supply and scale.
pub struct Mint {
    pub key: Pubkey,
    pub supply: u64,
    pub decimals: u8,
}

/// A user's holding of one asset.
pub struct TokenAccount {
    pub owner: Pubkey,
    pub mint: Pubkey,
    pub amount: u64,
}

/// The account belongs to the asset and its balance is covered by the
/// asset's total supply.
pub open spec fn account_backed(mint: Mint, account: TokenAccount) -> bool {
    account.mint@ == mint.key@ && account.amount <= mint.supply
}

/// Reads a user's balance.
pub fn balance_of(account: &TokenAccount) -> (r: u64)
    ensures
        r == account.amount,
{
    account.amount
}

/// The ledger's `mint` operation: credits freshly issued units to `to` and
/// grows the total supply by the same amount. Fails only when the supply
/// counter would overflow, and then changes nothing.
pub fn mint_to(mint: &mut Mint, to: &mut TokenAccount, amount: u64) -> (r: Result<(), MistTokenError>)
    requires
        account_backed(*old(mint), *old(to)),
    ensures
        account_backed(*final(mint), *final(to)),
        old(mint).supply + amount <= u64::MAX ==> r is Ok
            && final(mint).supply == old(mint).supply + amount
            && final(to).amount == old(to).amount + amount,
        old(mint).supply + amount > u64::MAX ==> r == Err::<(), MistTokenError>(MistTokenError::NumberCastError)
            && *final(mint) == *old(mint) && *final(to) == *old(to),
        final(mint).key == old(mint).key,
        final(mint).decimals == old(mint).decimals,
        final(to).owner == old(to).owner,
        final(to).mint == old(to).mint,
{
    if amount <= u64::MAX - mint.supply {
        mint.supply = mint.supply + amount;
        to.amount = to.amount + amount;
        Ok(())
    } else {
        Err(MistTokenError::NumberCastError)
    }
}

/// The ledger's `burn` operation: destroys units out of `from` and shrinks
/// the total supply by the same amount. Only the account's owner may burn;
/// a missing owner authorization or a short balance changes nothing.
pub fn burn(mint: &mut Mint, from: &mut TokenAccount, authority: &Pubkey, amount: u64) -> (r: Result<(), MistTokenError>)
    requires
        account_backed(*old(mint), *old(from)),
    ensures
        account_backed(*final(mint), *final(from)),
        authority@ != old(from).owner@ ==> r == Err::<(), MistTokenError>(MistTokenError::InvalidAuthority)
            && *final(mint) == *old(mint) && *final(from) == *old(from),
        authority@ == old(from).owner@ && old(from).amount < amount
            ==> r == Err::<(), MistTokenError>(MistTokenError::InsufficientTokens)
                && *final(mint) == *old(mint) && *final(from) == *old(from),
        authority@ == old(from).owner@ && amount <= old(from).amount ==> r is Ok
            && final(mint).supply == old(mint).supply - amount
            && final(from).amount == old(from).amount - amount,
        final(mint).key == old(mint).key,
        final(mint).decimals == old(mint).decimals,
        final(from).owner == old(from).owner,
        final(from).mint == old(from).mint,
{
    if !pubkey_eq(authority, &from.owner) {
        return Err(MistTokenError::InvalidAuthority);
    }
    if from.amount < amount {
        return Err(MistTokenError::InsufficientTokens);
    }
    mint.supply = mint.supply - amount;
    from.amount = from.amount - amount;
    Ok(())
}

} // verus!
