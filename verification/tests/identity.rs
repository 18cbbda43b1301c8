use std::str::FromStr;

use stake_governance::errors::ErrorCode;
use stake_governance::identity::{
    Pubkey, PROGRAM_AUTHORITY_SEED, STAKING_CONTRACT_ID, TOKEN_2022_PROGRAM_ID,
};
use stake_governance::staking::{initialize_staking_pool, initialize_staking_pool_with_authority};

fn key(byte: u8) -> Pubkey {
    Pubkey::new_from_array([byte; 32])
}

#[test]
fn identities_compare_by_their_bytes() {
    let mut bytes = [7u8; 32];
    assert_eq!(Pubkey::new_from_array(bytes), key(7));
    bytes[31] = 8;
    assert_ne!(Pubkey::new_from_array(bytes), key(7));
    bytes[31] = 7;
    bytes[0] = 6;
    assert_ne!(Pubkey::new_from_array(bytes), key(7));
    assert_eq!(key(7).to_bytes(), [7u8; 32]);
}

#[test]
fn the_default_identity_is_all_zero() {
    assert_eq!(Pubkey::default().to_bytes(), [0u8; 32]);
    assert!(Pubkey::default().is_default());
    assert!(!key(1).is_default());
    let mut bytes = [0u8; 32];
    bytes[31] = 1;
    assert!(!Pubkey::new_from_array(bytes).is_default());
}

#[test]
fn the_default_identity_is_the_ledgers_default() {
    assert_eq!(
        Pubkey::default().to_bytes(),
        solana_program::pubkey::Pubkey::default().to_bytes()
    );
}

#[test]
fn the_token_program_is_token_2022() {
    assert_eq!(TOKEN_2022_PROGRAM_ID, anchor_spl::token_2022::ID.to_bytes());
    let parsed =
        solana_program::pubkey::Pubkey::from_str("TokenzQdBNbLqP5VEhdkAS6EPFLC1PHnBqCXEpPxuEb")
            .unwrap();
    assert_eq!(TOKEN_2022_PROGRAM_ID, parsed.to_bytes());
}

#[test]
fn the_staking_contract_has_its_published_address() {
    let parsed =
        solana_program::pubkey::Pubkey::from_str("629dBzrHwL12uJS1nN8VyomiWgRTtVWqdmSUJLcpxjyu")
            .unwrap();
    assert_eq!(STAKING_CONTRACT_ID, parsed.to_bytes());
}

#[test]
fn the_authority_seed_spells_its_name() {
    assert_eq!(&PROGRAM_AUTHORITY_SEED[..], b"program_authorityV1");
}

#[test]
fn the_pool_authority_is_the_derived_program_address() {
    let program = solana_program::pubkey::Pubkey::from_str(
        "758R2jFfces6Ue5B9rLmRrh8NesiU9dCtDa4bUSBpCMt",
    )
    .unwrap();
    let (expected, expected_bump) = solana_program::pubkey::Pubkey::find_program_address(
        &[b"program_authorityV1"],
        &program,
    );
    let program_id = Pubkey::new_from_array(program.to_bytes());
    let token_program = Pubkey::new_from_array(TOKEN_2022_PROGRAM_ID);
    let pool = initialize_staking_pool(&program_id, key(1), key(2), &token_program, key(3), 254, 1_700_000_000)
        .unwrap()
        .unwrap();
    assert_eq!(pool.authority.to_bytes(), expected.to_bytes());
    assert_eq!(pool.authority_bump, expected_bump);
    assert_ne!(pool.authority, program_id);
    assert_eq!(pool.initializer, key(1));
    assert_eq!(pool.mint_address, key(2));
    assert_eq!(pool.escrow_account, key(3));
    assert_eq!(pool.bump, 254);
    assert_eq!(pool.total_staked_amount, 0);
    assert_eq!(pool.created_at, 1_700_000_000);
    assert_eq!(pool.price_last_updated, 1_700_000_000);
    assert!(pool.is_active);
    assert_eq!(pool.token_price_usd_micro, 1000);
}

#[test]
fn different_programs_have_different_authorities() {
    let token_program = Pubkey::new_from_array(TOKEN_2022_PROGRAM_ID);
    let first = initialize_staking_pool(&key(10), key(1), key(2), &token_program, key(3), 0, 0)
        .unwrap()
        .unwrap();
    let second = initialize_staking_pool(&key(11), key(1), key(2), &token_program, key(3), 0, 0)
        .unwrap()
        .unwrap();
    let again = initialize_staking_pool(&key(10), key(9), key(8), &token_program, key(7), 5, 6)
        .unwrap()
        .unwrap();
    assert_ne!(first.authority, second.authority);
    assert_eq!(first.authority, again.authority);
    assert_eq!(first.authority_bump, again.authority_bump);
}

#[test]
fn a_pool_needs_a_mint_of_the_token_program() {
    let wrong = key(4);
    assert_eq!(
        initialize_staking_pool(&key(10), key(1), key(2), &wrong, key(3), 0, 0),
        Err(ErrorCode::InvalidTokenProgram)
    );
    assert_eq!(
        initialize_staking_pool_with_authority(key(5), 255, key(1), key(2), &wrong, key(3), 0, 0),
        Err(ErrorCode::InvalidTokenProgram)
    );
}

#[test]
fn a_pool_under_a_known_authority_starts_empty_and_active() {
    let token_program = Pubkey::new_from_array(TOKEN_2022_PROGRAM_ID);
    let pool =
        initialize_staking_pool_with_authority(key(5), 253, key(1), key(2), &token_program, key(3), 9, 42)
            .unwrap();
    assert_eq!(pool.authority, key(5));
    assert_eq!(pool.authority_bump, 253);
    assert_eq!(pool.initializer, key(1));
    assert_eq!(pool.total_staked_amount, 0);
    assert_eq!(pool.mint_address, key(2));
    assert_eq!(pool.escrow_account, key(3));
    assert_eq!(pool.bump, 9);
    assert_eq!(pool.created_at, 42);
    assert!(pool.is_active);
    assert_eq!(pool.token_price_usd_micro, 1000);
    assert_eq!(pool.price_last_updated, 42);
}
