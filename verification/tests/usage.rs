use misttoken::ledger::Pubkey;
use misttoken::vapeclub::{claim_reward, init_vape_account, update_data, ErrorCode, VapeData};

fn key(b: u8) -> Pubkey {
    Pubkey { bytes: [b; 32] }
}

#[test]
fn init_vape_account_zeroes_every_counter() {
    let v = init_vape_account(&key(8));
    assert_eq!(v.authority.bytes, [8; 32]);
    assert_eq!(v.puff_count, 0);
    assert_eq!(v.reward, 0);
    assert!(!v.is_validated);
}

#[test]
fn update_data_counts_a_puff_and_accumulates_reward() {
    let mut v = init_vape_account(&key(8));
    let update = VapeData {
        authority: key(8),
        puff_count: 0,
        is_validated: false,
        reward: 12,
        bump: 0,
    };
    assert!(update_data(&mut v, &update).is_ok());
    assert!(update_data(&mut v, &update).is_ok());
    assert_eq!(v.puff_count, 2);
    assert_eq!(v.reward, 24);
}

#[test]
fn update_data_overflow_fails_with_number_cast_error() {
    let mut v = init_vape_account(&key(8));
    v.reward = u64::MAX - 5;
    let update = VapeData {
        authority: key(8),
        puff_count: 0,
        is_validated: false,
        reward: 6,
        bump: 0,
    };
    let r = update_data(&mut v, &update);
    assert!(matches!(r, Err(ErrorCode::NumberCastError)));
    assert_eq!(v.reward, u64::MAX - 5);
    assert_eq!(v.puff_count, 0);
}

#[test]
fn failed_integer_conversion_maps_to_number_cast_error() {
    let too_big: Result<u64, _> = u64::try_from(-1i64);
    let e = ErrorCode::from(too_big.unwrap_err());
    assert_eq!(e, ErrorCode::NumberCastError);
}

#[test]
fn claim_reward_accepts() {
    assert!(claim_reward().is_ok());
}
