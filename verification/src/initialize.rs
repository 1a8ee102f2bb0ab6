//! One-time initialization of the deployment's configuration.
//!
//! The first call records the administrator and the verifier and marks the
//! configuration initialized; every later call fails with
//! `AlreadyInitialized` and changes nothing. Asset creation and metadata
//! registration are the external ledger's work; the caller hands in the
//! created asset's identity and the operation reports it in its event.

use vstd::prelude::*;
use crate::errors::MistTokenError;
use crate::events::InitEvent;
use crate::ledger::Pubkey;
use crate::state::Global;

verus! {

/// The caller-supplied initialization request: the verifier to install and
/// the asset's display metadata.
pub struct InitParams {
    pub verifier: Pubkey,
    pub name: String,
    pub symbol: String,
    pub uri: String,
}

/// What initialization does to the configuration: on the first call it
/// records the administrator and the verifier; on any later call it fails
/// with `AlreadyInitialized` and leaves the record as it was.
pub open spec fn initialize_spec(g: Global, authority: Pubkey, verifier: Pubkey) -> Result<
    Global,
    MistTokenError,
> {
    if g.initialized {
        Err(MistTokenError::AlreadyInitialized)
    } else {
        Ok(
            Global {
                authority: authority,
                initialized: true,
                verifier: verifier,
                token_address: g.token_address,
            },
        )
    }
}

/// Initializes the deployment once: installs `authority` as administrator
/// and `params.verifier` as the identity that gates claims, and reports the
/// created asset and its metadata in the returned event.
pub fn initialize(global: &mut Global, authority: &Pubkey, mint_key: &Pubkey, params: InitParams) -> (r:
    Result<InitEvent, MistTokenError>)
    ensures
        r is Ok <==> !old(global).initialized,
        *final(global) == (match initialize_spec(*old(global), *authority, params.verifier) {
            Ok(g) => g,
            Err(_) => *old(global),
        }),
        old(global).initialized ==> r == Err::<InitEvent, MistTokenError>(
            MistTokenError::AlreadyInitialized,
        ),
        r matches Ok(e) ==> e.mint == *mint_key && e.verifier == params.verifier && e.name
            == params.name && e.symbol == params.symbol && e.uri == params.uri,
{
    if global.initialized {
        return Err(MistTokenError::AlreadyInitialized);
    }
    global.authority = *authority;
    global.verifier = params.verifier;
    global.initialized = true;
    Ok(
        InitEvent {
            mint: *mint_key,
            verifier: params.verifier,
            name: params.name,
            symbol: params.symbol,
            uri: params.uri,
        },
    )
}

/// Law: the initialization guard is one-shot. A first initialization of an
/// uninitialized configuration succeeds, and any second initialization of
/// the resulting configuration fails with `AlreadyInitialized` and leaves
/// every field as the first call set it.
pub proof fn lemma_initialize_once(
    g: Global,
    authority1: Pubkey,
    verifier1: Pubkey,
    authority2: Pubkey,
    verifier2: Pubkey,
)
    requires
        !g.initialized,
    ensures
        initialize_spec(g, authority1, verifier1) is Ok,
        ({
            let g1 = initialize_spec(g, authority1, verifier1)->Ok_0;
            initialize_spec(g1, authority2, verifier2) == Err::<Global, MistTokenError>(
                MistTokenError::AlreadyInitialized,
            )
        }),
{
}

} // verus!
