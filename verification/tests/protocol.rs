use misttoken::claim::{claim, ClaimParams};
use misttoken::errors::MistTokenError;
use misttoken::initialize::{initialize, InitParams};
use misttoken::ledger::{balance_of, Mint, Pubkey, TokenAccount};
use misttoken::state::{Global, DEFAULT_DECIMALS};

fn key(b: u8) -> Pubkey {
    Pubkey { bytes: [b; 32] }
}

fn fresh_global() -> Global {
    Global {
        authority: key(0),
        initialized: false,
        verifier: key(0),
        token_address: key(0),
    }
}

fn init_params(verifier: Pubkey) -> InitParams {
    InitParams {
        verifier,
        name: String::from("Mist"),
        symbol: String::from("MIST"),
        uri: String::from("https://example.invalid/mist.json"),
    }
}

fn setup(verifier: Pubkey, owner: Pubkey, balance: u64, supply: u64) -> (Global, Mint, TokenAccount) {
    let global = Global {
        authority: key(1),
        initialized: true,
        verifier,
        token_address: key(9),
    };
    let mint = Mint { key: key(9), supply, decimals: DEFAULT_DECIMALS };
    let account = TokenAccount { owner, mint: key(9), amount: balance };
    (global, mint, account)
}

#[test]
fn initialize_sets_config_and_reports_event() {
    let mut global = fresh_global();
    let authority = key(1);
    let mint_key = key(9);
    let r = initialize(&mut global, &authority, &mint_key, init_params(key(2)));
    let event = r.unwrap_or_else(|_| panic!("first initialization must succeed"));
    assert!(global.initialized);
    assert_eq!(global.authority.bytes, [1; 32]);
    assert_eq!(global.verifier.bytes, [2; 32]);
    assert_eq!(event.mint.bytes, [9; 32]);
    assert_eq!(event.verifier.bytes, [2; 32]);
    assert_eq!(event.name, "Mist");
    assert_eq!(event.symbol, "MIST");
    assert_eq!(event.uri, "https://example.invalid/mist.json");
}

#[test]
fn initialize_twice_fails_and_keeps_first_config() {
    let mut global = fresh_global();
    let r1 = initialize(&mut global, &key(1), &key(9), init_params(key(2)));
    assert!(r1.is_ok());
    let r2 = initialize(&mut global, &key(7), &key(8), init_params(key(6)));
    assert!(matches!(r2, Err(MistTokenError::AlreadyInitialized)));
    assert!(global.initialized);
    assert_eq!(global.authority.bytes, [1; 32]);
    assert_eq!(global.verifier.bytes, [2; 32]);
}

#[test]
fn claim_mint_increases_balance_and_supply() {
    let verifier = key(2);
    let user = key(3);
    let (global, mut mint, mut account) = setup(verifier, user, 10, 100);
    let params = ClaimParams { amount: 25, is_burn: false };
    let r = claim(&global, &verifier, &user, &mut mint, &mut account, &params);
    let event = r.unwrap_or_else(|_| panic!("verifier-signed mint must succeed"));
    assert_eq!(balance_of(&account), 35);
    assert_eq!(mint.supply, 125);
    assert_eq!(event.mint.bytes, [9; 32]);
    assert_eq!(event.user.bytes, [3; 32]);
    assert_eq!(event.amount, 25);
    assert!(!event.is_burn);
}

#[test]
fn claim_before_initialization_fails() {
    let verifier = key(2);
    let user = key(3);
    let (mut global, mut mint, mut account) = setup(verifier, user, 10, 100);
    global.initialized = false;
    let params = ClaimParams { amount: 5, is_burn: false };
    let r = claim(&global, &verifier, &user, &mut mint, &mut account, &params);
    assert!(matches!(r, Err(MistTokenError::NotInitialized)));
    assert_eq!(account.amount, 10);
    assert_eq!(mint.supply, 100);
}

#[test]
fn claim_mint_by_non_verifier_fails_and_balance_unchanged() {
    let verifier = key(2);
    let user = key(3);
    let (global, mut mint, mut account) = setup(verifier, user, 10, 100);
    let impostor = key(4);
    let params = ClaimParams { amount: 25, is_burn: false };
    let r = claim(&global, &impostor, &user, &mut mint, &mut account, &params);
    assert!(matches!(r, Err(MistTokenError::InvalidAuthority)));
    assert_eq!(account.amount, 10);
    assert_eq!(mint.supply, 100);
}

#[test]
fn claim_zero_amount_fails_on_both_paths() {
    let verifier = key(2);
    let user = key(3);
    let (global, mut mint, mut account) = setup(verifier, user, 10, 100);
    let mint_zero = ClaimParams { amount: 0, is_burn: false };
    let r = claim(&global, &verifier, &user, &mut mint, &mut account, &mint_zero);
    assert!(matches!(r, Err(MistTokenError::InvalidAmount)));
    let burn_zero = ClaimParams { amount: 0, is_burn: true };
    let r = claim(&global, &verifier, &user, &mut mint, &mut account, &burn_zero);
    assert!(matches!(r, Err(MistTokenError::InvalidAmount)));
    assert_eq!(account.amount, 10);
    assert_eq!(mint.supply, 100);
}

#[test]
fn claim_burn_above_balance_fails_then_exact_balance_drains() {
    let verifier = key(2);
    let user = key(3);
    let (global, mut mint, mut account) = setup(verifier, user, 40, 100);
    let too_much = ClaimParams { amount: 41, is_burn: true };
    let r = claim(&global, &verifier, &user, &mut mint, &mut account, &too_much);
    assert!(matches!(r, Err(MistTokenError::InsufficientTokens)));
    assert_eq!(account.amount, 40);
    assert_eq!(mint.supply, 100);
    let exact = ClaimParams { amount: 40, is_burn: true };
    let r = claim(&global, &verifier, &user, &mut mint, &mut account, &exact);
    let event = r.unwrap_or_else(|_| panic!("burn of the full balance must succeed"));
    assert_eq!(account.amount, 0);
    assert_eq!(mint.supply, 60);
    assert_eq!(event.amount, 40);
    assert!(event.is_burn);
}

#[test]
fn claim_burn_by_non_owner_fails() {
    let verifier = key(2);
    let owner = key(3);
    let (global, mut mint, mut account) = setup(verifier, owner, 40, 100);
    let stranger = key(5);
    let params = ClaimParams { amount: 10, is_burn: true };
    let r = claim(&global, &verifier, &stranger, &mut mint, &mut account, &params);
    assert!(matches!(r, Err(MistTokenError::InvalidAuthority)));
    assert_eq!(account.amount, 40);
    assert_eq!(mint.supply, 100);
}

#[test]
fn claim_mint_overflowing_supply_fails_with_number_cast_error() {
    let verifier = key(2);
    let user = key(3);
    let (global, mut mint, mut account) = setup(verifier, user, 10, u64::MAX - 4);
    let params = ClaimParams { amount: 5, is_burn: false };
    let r = claim(&global, &verifier, &user, &mut mint, &mut account, &params);
    assert!(matches!(r, Err(MistTokenError::NumberCastError)));
    assert_eq!(account.amount, 10);
    assert_eq!(mint.supply, u64::MAX - 4);
}
