use single_pool::stake_account::parse_stake_state;
use single_pool::stake_account::ParsedStakeState;
use single_pool::token_state::parse_mint_supply;
use single_pool::token_state::parse_token_account;

use solana_stake_interface::stake_flags::StakeFlags;
use solana_stake_interface::state::Authorized;
use solana_stake_interface::state::Delegation;
use solana_stake_interface::state::Lockup;
use solana_stake_interface::state::Meta;
use solana_stake_interface::state::Stake;
use solana_stake_interface::state::StakeStateV2;
use solana_program_pack::Pack;

fn stake_account_bytes(
    rent: u64,
    staker: [u8; 32],
    withdrawer: [u8; 32],
    voter: [u8; 32],
    stake: u64,
    activation_epoch: u64,
    deactivation_epoch: u64,
) -> Vec<u8> {
    // the stake program's record layout: tag, meta, delegation, flags
    let mut data = vec![0u8; 200];
    data[0..4].copy_from_slice(&2u32.to_le_bytes());
    data[4..12].copy_from_slice(&rent.to_le_bytes());
    data[12..44].copy_from_slice(&staker);
    data[44..76].copy_from_slice(&withdrawer);
    // lockup (76..124) stays zero
    data[124..156].copy_from_slice(&voter);
    data[156..164].copy_from_slice(&stake.to_le_bytes());
    data[164..172].copy_from_slice(&activation_epoch.to_le_bytes());
    data[172..180].copy_from_slice(&deactivation_epoch.to_le_bytes());
    // reserved bytes, credits and flags stay zero
    data
}

#[test]
fn delegated_stake_accounts_parse_field_for_field() {
    let data = stake_account_bytes(
        2_282_880,
        [1; 32],
        [2; 32],
        [3; 32],
        7_000_000_000,
        11,
        u64::MAX,
    );
    match parse_stake_state(&data).unwrap() {
        ParsedStakeState::Stake(meta, info) => {
            assert_eq!(meta.rent_exempt_reserve, 2_282_880);
            assert_eq!(meta.staker.bytes, vec![1u8; 32]);
            assert_eq!(meta.withdrawer.bytes, vec![2u8; 32]);
            assert_eq!(info.voter_pubkey.bytes, vec![3u8; 32]);
            assert_eq!(info.delegation.stake, 7_000_000_000);
            assert_eq!(info.delegation.activation_epoch, 11);
            assert_eq!(info.delegation.deactivation_epoch, u64::MAX);
        }
        other => panic!("parsed as {other:?}"),
    }
}

#[test]
fn stake_account_parses_match_the_stake_interface_layout() {
    // cross-check the offsets against the stake interface's own types
    let meta = Meta {
        rent_exempt_reserve: 42,
        authorized: Authorized {
            staker: solana_pubkey::Pubkey::new_from_array([5; 32]),
            withdrawer: solana_pubkey::Pubkey::new_from_array([6; 32]),
        },
        lockup: Lockup::default(),
    };
    let stake = Stake {
        delegation: Delegation {
            voter_pubkey: solana_pubkey::Pubkey::new_from_array([7; 32]),
            stake: 12_345,
            activation_epoch: 3,
            deactivation_epoch: u64::MAX,
            ..Delegation::default()
        },
        credits_observed: 99,
    };
    let state = StakeStateV2::Stake(meta, stake, StakeFlags::empty());
    let mut data = vec![0u8; 200];
    bincode::serialize_into(&mut data[..], &state).unwrap();

    match parse_stake_state(&data).unwrap() {
        ParsedStakeState::Stake(parsed_meta, parsed_info) => {
            assert_eq!(parsed_meta.rent_exempt_reserve, 42);
            assert_eq!(parsed_meta.staker.bytes, vec![5u8; 32]);
            assert_eq!(parsed_meta.withdrawer.bytes, vec![6u8; 32]);
            assert_eq!(parsed_info.voter_pubkey.bytes, vec![7u8; 32]);
            assert_eq!(parsed_info.delegation.stake, 12_345);
            assert_eq!(parsed_info.delegation.activation_epoch, 3);
            assert_eq!(parsed_info.delegation.deactivation_epoch, u64::MAX);
        }
        other => panic!("parsed as {other:?}"),
    }
}

#[test]
fn undelegated_and_malformed_stake_accounts_parse_accordingly() {
    let mut uninitialized = vec![0u8; 200];
    uninitialized[0..4].copy_from_slice(&0u32.to_le_bytes());
    assert!(matches!(
        parse_stake_state(&uninitialized).unwrap(),
        ParsedStakeState::Uninitialized
    ));

    let mut initialized = vec![0u8; 200];
    initialized[0..4].copy_from_slice(&1u32.to_le_bytes());
    initialized[4..12].copy_from_slice(&777u64.to_le_bytes());
    match parse_stake_state(&initialized).unwrap() {
        ParsedStakeState::Initialized(meta) => assert_eq!(meta.rent_exempt_reserve, 777),
        other => panic!("parsed as {other:?}"),
    }

    let mut rewards_pool = vec![0u8; 200];
    rewards_pool[0..4].copy_from_slice(&3u32.to_le_bytes());
    assert!(matches!(
        parse_stake_state(&rewards_pool).unwrap(),
        ParsedStakeState::RewardsPool
    ));

    // too short for its tag
    let mut short = vec![0u8; 100];
    short[0..4].copy_from_slice(&2u32.to_le_bytes());
    assert!(parse_stake_state(&short).is_none());
    // unknown tag
    let mut unknown = vec![0u8; 200];
    unknown[0..4].copy_from_slice(&4u32.to_le_bytes());
    assert!(parse_stake_state(&unknown).is_none());
    // no tag at all
    assert!(parse_stake_state(&vec![]).is_none());
}

#[test]
fn mint_supplies_parse_as_the_token_program_packs_them() {
    let mint = spl_token_interface::state::Mint {
        mint_authority: None.into(),
        supply: 987_654_321,
        decimals: 9,
        is_initialized: true,
        freeze_authority: None.into(),
    };
    let mut data = vec![0u8; spl_token_interface::state::Mint::LEN];
    Pack::pack(mint, &mut data).unwrap();
    assert_eq!(parse_mint_supply(&data), Some(987_654_321));

    // an uninitialized mint is refused
    let mut uninitialized = data.clone();
    uninitialized[45] = 0;
    assert_eq!(parse_mint_supply(&uninitialized), None);
    // wrong length is refused
    assert_eq!(parse_mint_supply(&vec![0u8; 81]), None);
}

#[test]
fn token_accounts_parse_as_the_token_program_packs_them() {
    let account = spl_token_interface::state::Account {
        mint: solana_pubkey::Pubkey::new_from_array([8; 32]),
        owner: solana_pubkey::Pubkey::new_from_array([9; 32]),
        amount: 31_415_926,
        delegate: None.into(),
        state: spl_token_interface::state::AccountState::Initialized,
        is_native: None.into(),
        delegated_amount: 0,
        close_authority: None.into(),
    };
    let mut data = vec![0u8; spl_token_interface::state::Account::LEN];
    Pack::pack(account, &mut data).unwrap();
    let parsed = parse_token_account(&data).unwrap();
    assert_eq!(parsed.mint.bytes, vec![8u8; 32]);
    assert_eq!(parsed.owner.bytes, vec![9u8; 32]);
    assert_eq!(parsed.amount, 31_415_926);

    // an uninitialized account is refused
    let mut uninitialized = data.clone();
    uninitialized[108] = 0;
    assert!(parse_token_account(&uninitialized).is_none());
    assert!(parse_token_account(&vec![0u8; 164]).is_none());
}
