use single_pool::addr::Address;
use single_pool::cli::check_activation_status;
use single_pool::cli::check_deposit_source;
use single_pool::cli::check_withdraw_tokens;
use single_pool::cli::is_valid_token_name;
use single_pool::cli::is_valid_token_symbol;
use single_pool::cli::is_valid_token_uri;
use single_pool::cli::minimum_pool_balance;
use single_pool::cli::pool_address_from_args;
use single_pool::cli::token_supply_from_account;
use single_pool::cli::vote_address_from_pool_data;
use single_pool::cli::available_stake_from_account;
use single_pool::cli::CliError;
use single_pool::derivation::find_pool_address;
use single_pool::ids;
use single_pool::replenish::DelegationState;
use single_pool::state::SinglePool;
use single_pool::state::SinglePoolAccountType;
use single_pool::validation;
use single_pool::error::SinglePoolError;

fn addr(n: u8) -> Address {
    Address::new(vec![n; 32])
}

#[test]
fn token_metadata_fields_have_length_caps() {
    assert!(is_valid_token_name(&"a".repeat(32)).is_ok());
    assert!(is_valid_token_name(&"a".repeat(33)).is_err());
    assert!(is_valid_token_symbol(&"s".repeat(10)).is_ok());
    assert!(is_valid_token_symbol(&"s".repeat(11)).is_err());
    assert!(is_valid_token_uri(&"u".repeat(200)).is_ok());
    assert!(is_valid_token_uri(&"u".repeat(201)).is_err());
    // the caps count bytes, not characters
    assert!(is_valid_token_symbol("éééééé").is_err());
}

#[test]
fn pool_resolution_prefers_the_explicit_address() {
    let explicit = addr(1);
    let resolved = pool_address_from_args(Some(Address::new(explicit.bytes.clone())), None);
    assert_eq!(resolved.bytes, explicit.bytes);

    let vote = addr(2);
    let derived = pool_address_from_args(None, Some(Address::new(vote.bytes.clone())));
    let expected = find_pool_address(&ids::single_pool_program_id(), &vote);
    assert_eq!(derived.bytes, expected.bytes);
}

#[test]
fn the_minimum_pool_balance_is_floored_at_one_sol() {
    assert_eq!(minimum_pool_balance(0), 1_000_000_000);
    assert_eq!(minimum_pool_balance(1), 1_000_000_000);
    assert_eq!(minimum_pool_balance(5_000_000_000), 5_000_000_000);
}

#[test]
fn deposits_from_foreign_delegations_fail_before_any_arithmetic() {
    // the stake account's delegation derives a different pool than the
    // one the caller named
    let voter = addr(3);
    let wrong_pool = addr(4);
    let authority = addr(5);
    let delegation = DelegationState {
        stake: 1,
        activation_epoch: 0,
        deactivation_epoch: u64::MAX,
    };
    let r = check_deposit_source(
        &Some(wrong_pool),
        &voter,
        &authority,
        &authority,
        &delegation,
        10,
    );
    assert_eq!(r.map(|_| ()), Err(CliError::PoolAddressMismatch));
}

#[test]
fn deposit_source_checks_follow_their_order() {
    let voter = addr(3);
    let authority = addr(5);
    let other = addr(6);
    let live = DelegationState {
        stake: 1,
        activation_epoch: 7,
        deactivation_epoch: u64::MAX,
    };

    // wrong withdraw authority
    let r = check_deposit_source(&None, &voter, &other, &authority, &live, 10);
    assert_eq!(r.map(|_| ()), Err(CliError::WrongWithdrawAuthority));

    // deactivating delegation
    let dying = DelegationState {
        deactivation_epoch: 12,
        ..live
    };
    let r = check_deposit_source(&None, &voter, &authority, &authority, &dying, 10);
    assert_eq!(r.map(|_| ()), Err(CliError::StakeDeactivating));

    // a good source resolves the derived pool and its activation state
    let (pool, active) =
        check_deposit_source(&None, &voter, &authority, &authority, &live, 10).unwrap();
    let expected = find_pool_address(&ids::single_pool_program_id(), &voter);
    assert_eq!(pool.bytes, expected.bytes);
    assert!(active);
    let (_, active) =
        check_deposit_source(&None, &voter, &authority, &authority, &live, 6).unwrap();
    assert!(!active);
}

#[test]
fn activation_states_must_match_exactly() {
    assert!(check_activation_status(true, true).is_ok());
    assert!(check_activation_status(false, false).is_ok());
    assert_eq!(
        check_activation_status(true, false),
        Err(CliError::ActivationMismatch)
    );
}

#[test]
fn overdrawn_withdrawals_fail_with_the_balance_error() {
    let owner = addr(7);
    // more tokens than the account holds: refused, never clamped
    assert_eq!(
        check_withdraw_tokens(Some(101), 100, &owner, &owner),
        Err(CliError::WithdrawExceedsBalance)
    );
    assert_eq!(
        check_withdraw_tokens(Some(0), 100, &owner, &owner),
        Err(CliError::ZeroWithdrawal)
    );
    assert_eq!(
        check_withdraw_tokens(None, 0, &owner, &owner),
        Err(CliError::ZeroWithdrawal)
    );
    assert_eq!(
        check_withdraw_tokens(Some(5), 100, &owner, &addr(8)),
        Err(CliError::WrongTokenAuthority)
    );
    // the ALL keyword burns the whole balance
    assert_eq!(check_withdraw_tokens(None, 100, &owner, &owner), Ok(100));
    assert_eq!(check_withdraw_tokens(Some(40), 100, &owner, &owner), Ok(40));
}

#[test]
fn pool_records_yield_their_vote_address() {
    let vote = addr(9);
    let record = SinglePool {
        account_type: SinglePoolAccountType::Pool,
        vote_account_address: Address::new(vote.bytes.clone()),
    };
    let data = record.serialize();
    let program_id = ids::single_pool_program_id();
    assert_eq!(
        vote_address_from_pool_data(&program_id, &data).unwrap().bytes,
        vote.bytes
    );
    assert_eq!(
        vote_address_from_pool_data(&program_id, &vec![]).map(|_| ()),
        Err(CliError::PoolNotInitialized)
    );
    assert_eq!(
        vote_address_from_pool_data(&addr(1), &data).map(|_| ()),
        Err(CliError::NotOwnedByPoolProgram)
    );
    assert_eq!(
        vote_address_from_pool_data(&program_id, &vec![9u8; 40]).map(|_| ()),
        Err(CliError::MalformedPoolRecord)
    );
}

#[test]
fn displayed_balances_come_from_the_account_bytes() {
    // a delegated stake account shows its stake net of the minimum
    let mut data = vec![0u8; 200];
    data[0..4].copy_from_slice(&2u32.to_le_bytes());
    data[156..164].copy_from_slice(&2_500_000_000u64.to_le_bytes());
    assert_eq!(available_stake_from_account(&data, 1_000_000_000), 1_500_000_000);
    // never negative
    assert_eq!(available_stake_from_account(&data, 3_000_000_000), 0);
    // anything else shows zero
    assert_eq!(available_stake_from_account(&vec![], 0), 0);

    let mut mint = vec![0u8; 82];
    mint[36..44].copy_from_slice(&777u64.to_le_bytes());
    mint[45] = 1;
    assert_eq!(token_supply_from_account(&mint), 777);
    assert_eq!(token_supply_from_account(&vec![]), 0);
}

#[test]
fn vote_account_withdrawers_parse_by_version() {
    let mut current = vec![0u8; 100];
    current[0..4].copy_from_slice(&2u32.to_le_bytes());
    current[36..68].copy_from_slice(&[6u8; 32]);
    let withdrawer = validation::vote_account_withdrawer(&current).unwrap();
    assert_eq!(withdrawer.bytes, vec![6u8; 32]);

    let mut older = vec![0u8; 100];
    older[0..4].copy_from_slice(&1u32.to_le_bytes());
    older[36..68].copy_from_slice(&[7u8; 32]);
    assert_eq!(
        validation::vote_account_withdrawer(&older).unwrap().bytes,
        vec![7u8; 32]
    );

    let mut legacy = vec![0u8; 100];
    legacy[0..4].copy_from_slice(&0u32.to_le_bytes());
    assert_eq!(
        validation::vote_account_withdrawer(&legacy).map(|_| ()),
        Err(SinglePoolError::LegacyVoteAccount)
    );
    assert_eq!(
        validation::vote_account_withdrawer(&vec![0u8; 2]).map(|_| ()),
        Err(SinglePoolError::UnparseableVoteAccount)
    );
    let mut unknown = vec![0u8; 100];
    unknown[0..4].copy_from_slice(&9u32.to_le_bytes());
    assert_eq!(
        validation::vote_account_withdrawer(&unknown).map(|_| ()),
        Err(SinglePoolError::UnparseableVoteAccount)
    );
}
