use single_pool::error::SinglePoolError;
use single_pool::exchange::calculate_deposit_amount;
use single_pool::exchange::calculate_withdraw_amount;
use single_pool::exchange::deposit_stake_contribution;
use single_pool::exchange::deposit_tokens_owed;
use single_pool::exchange::handle_deposit;
use single_pool::exchange::token_owned_stake;
use single_pool::exchange::withdraw_stake_owed;

#[test]
fn bootstrap_deposits_mint_one_to_one() {
    // an empty pool mints 1:1
    assert_eq!(calculate_deposit_amount(0, 0, 1_000), Some(1_000));
    // so does a pool whose minimum balance is not token-owned
    assert_eq!(calculate_deposit_amount(0, 0, 10_000_000_000), Some(10_000_000_000));
    assert_eq!(deposit_tokens_owed(0, 0, 5), Ok(5));
}

#[test]
fn deposits_at_rate_use_floor_division() {
    // 2 tokens per 3 stake: depositing 10 mints floor(10 * 2 / 3) = 6
    assert_eq!(calculate_deposit_amount(3, 2, 10), Some(6));
    assert_eq!(deposit_tokens_owed(3, 2, 10), Ok(6));
    // rewards make a token worth more than a lamport: fewer tokens minted
    assert_eq!(calculate_deposit_amount(200, 100, 100), Some(50));
}

#[test]
fn supply_tracks_stake_across_bootstrap_deposits() {
    // with no rewards and no withdrawals, N deposits totaling S leave
    // supply == S
    let deposits = [1_000u64, 250, 4_749, 1];
    let mut stake = 0u64;
    let mut supply = 0u64;
    for d in deposits {
        let minted = deposit_tokens_owed(stake, supply, d).unwrap();
        assert_eq!(minted, d);
        stake += d;
        supply += minted;
    }
    assert_eq!(supply, deposits.iter().sum::<u64>());
    assert_eq!(supply, stake);
}

#[test]
fn tiny_deposits_into_a_rich_pool_are_refused() {
    // 1 lamport against a pool where a token costs 2 lamports rounds to 0
    assert_eq!(
        deposit_tokens_owed(200, 100, 1),
        Err(SinglePoolError::DepositTooSmall)
    );
    assert_eq!(
        deposit_tokens_owed(1, 1, 0),
        Err(SinglePoolError::DepositTooSmall)
    );
}

#[test]
fn oversized_deposit_computations_surface_the_math_error() {
    // supply vastly above stake: the exact token amount overflows u64
    assert_eq!(calculate_deposit_amount(1, u64::MAX, 2), None);
    assert_eq!(
        deposit_tokens_owed(1, u64::MAX, 2),
        Err(SinglePoolError::UnexpectedMathError)
    );
}

#[test]
fn withdrawals_at_rate_use_floor_division() {
    // 3 stake per 2 tokens: burning 1 yields floor(1 * 3 / 2) = 1
    assert_eq!(calculate_withdraw_amount(3, 2, 1), Some(1));
    assert_eq!(withdraw_stake_owed(3, 2, 1), Ok(1));
    // burning everything yields the whole token-owned stake
    assert_eq!(withdraw_stake_owed(3, 2, 2), Ok(3));
}

#[test]
fn zero_value_withdrawals_are_refused() {
    assert_eq!(
        withdraw_stake_owed(1, 100, 5),
        Err(SinglePoolError::WithdrawalTooSmall)
    );
    assert_eq!(
        withdraw_stake_owed(100, 100, 0),
        Err(SinglePoolError::WithdrawalTooSmall)
    );
}

#[test]
fn overdrawn_withdrawals_are_refused_not_clamped() {
    // burning more tokens than the supply would drain past the pool's
    // token-owned stake
    assert_eq!(
        withdraw_stake_owed(100, 100, 150),
        Err(SinglePoolError::WithdrawalTooLarge)
    );
}

#[test]
fn deposit_then_full_withdrawal_returns_the_deposit() {
    // pool at parity: deposit 777, burn the 777 minted tokens, get 777
    let stake = 10_000u64;
    let supply = 10_000u64;
    let minted = deposit_tokens_owed(stake, supply, 777).unwrap();
    assert_eq!(minted, 777);
    let returned = withdraw_stake_owed(stake + 777, supply + minted, minted).unwrap();
    assert_eq!(returned, 777);
}

#[test]
fn rewards_split_proportionally_between_depositors() {
    // two depositors at 1:3, rewards accrue, withdrawals pay out 1:3
    let a = 1_000_000u64;
    let b = 3_000_000u64;
    let mut stake = 0u64;
    let mut supply = 0u64;
    let a_tokens = deposit_tokens_owed(stake, supply, a).unwrap();
    stake += a;
    supply += a_tokens;
    let b_tokens = deposit_tokens_owed(stake, supply, b).unwrap();
    stake += b;
    supply += b_tokens;
    assert_eq!(b_tokens, 3 * a_tokens);

    // an epoch passes and rewards accrue to the stake, not the supply
    let rewards = 400_000u64;
    stake += rewards;

    let a_out = withdraw_stake_owed(stake, supply, a_tokens).unwrap();
    stake -= a_out;
    supply -= a_tokens;
    let b_out = withdraw_stake_owed(stake, supply, b_tokens).unwrap();
    assert_eq!(a_out, a + rewards / 4);
    assert_eq!(b_out, b + 3 * (rewards / 4));
    assert_eq!(b_out - b, 3 * (a_out - a));
}

#[test]
fn a_depositor_never_profits_from_an_immediate_exit() {
    // floor division favors the pool on both legs
    for (stake, supply, d) in [(3u64, 2u64, 10u64), (7, 13, 5), (1_000_003, 999_999, 123_457)] {
        let minted = calculate_deposit_amount(stake, supply, d).unwrap();
        let returned = calculate_withdraw_amount(stake + d, supply + minted, minted).unwrap();
        assert!(returned <= d, "{stake} {supply} {d}: {returned} > {d}");
    }
}

#[test]
fn activating_deposits_contribute_their_rent_reserve() {
    assert_eq!(deposit_stake_contribution(5_000, 300, true), 5_000);
    assert_eq!(deposit_stake_contribution(5_000, 300, false), 5_300);
}

#[test]
fn whole_deposits_are_decided_in_one_step() {
    // activation states must agree exactly
    assert_eq!(
        handle_deposit(100, 100, 50, 10, true, false),
        Err(SinglePoolError::WrongStakeStake)
    );
    // active deposits contribute the delegation alone
    let outcome = handle_deposit(100, 100, 50, 10, true, true).unwrap();
    assert_eq!(outcome.stake_added, 50);
    assert_eq!(outcome.tokens_minted, 50);
    assert_eq!(outcome.new_pool_stake, 150);
    assert_eq!(outcome.new_token_supply, 150);
    // activating deposits fold the rent reserve into the contribution
    let outcome = handle_deposit(100, 100, 50, 10, false, false).unwrap();
    assert_eq!(outcome.stake_added, 60);
    assert_eq!(outcome.tokens_minted, 60);
    // the engine's refusals pass through
    assert_eq!(
        handle_deposit(200, 100, 1, 0, true, true),
        Err(SinglePoolError::DepositTooSmall)
    );
}

#[test]
fn deposits_never_dilute_existing_holders() {
    for (stake, supply, d) in [(3u64, 2u64, 10u64), (7, 13, 5), (1_000_003, 999_999, 123_457)] {
        let held = supply / 2;
        let before = calculate_withdraw_amount(stake, supply, held).unwrap();
        let minted = calculate_deposit_amount(stake, supply, d).unwrap();
        let after = calculate_withdraw_amount(stake + d, supply + minted, held).unwrap();
        assert!(after >= before, "{stake} {supply} {d}: {after} < {before}");
    }
}

#[test]
fn the_minimum_balance_is_never_token_owned() {
    assert_eq!(token_owned_stake(3_500_000_000, 1_000_000_000), Ok(2_500_000_000));
    assert_eq!(token_owned_stake(1_000_000_000, 1_000_000_000), Ok(0));
    // a delegation under the minimum surfaces the underflow guard
    assert_eq!(
        token_owned_stake(999_999_999, 1_000_000_000),
        Err(SinglePoolError::ArithmeticOverflow)
    );
}
