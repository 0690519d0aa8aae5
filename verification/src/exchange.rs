//! The exchange engine: conversion between stake lamports and pool tokens.
//!
//! All amounts here speak of the token-owned portion of the pool's stake,
//! net of the configured minimum reserve that was funded at initialization
//! and is never represented by tokens.  All divisions are integer floor
//! divisions, which favors the pool and never overpays.

use vstd::prelude::*;

use crate::error::SinglePoolError;

verus! {

/// Tokens owed for contributing `stake_added` lamports of stake to a pool
/// holding `pool_stake` token-owned stake against `token_supply` tokens.
/// When the pool holds no stake or no tokens the rate bootstraps at 1:1.
pub open spec fn spec_tokens_for_deposit(pool_stake: int, token_supply: int, stake_added: int) -> int {
    if pool_stake == 0 || token_supply == 0 {
        stake_added
    } else {
        stake_added * token_supply / pool_stake
    }
}

/// Stake lamports owed for burning `tokens_burned` tokens against a pool
/// holding `pool_stake` token-owned stake and `token_supply` tokens.
pub open spec fn spec_stake_for_tokens(pool_stake: int, token_supply: int, tokens_burned: int) -> int {
    if token_supply == 0 {
        0
    } else {
        tokens_burned * pool_stake / token_supply
    }
}

/// Computes the token amount for a deposit, or `None` when the exact result
/// does not fit in a `u64`.
pub fn calculate_deposit_amount(pool_stake: u64, token_supply: u64, stake_added: u64) -> (r: Option<u64>)
    ensures
        spec_tokens_for_deposit(pool_stake as int, token_supply as int, stake_added as int)
            <= u64::MAX ==> r == Some(
            spec_tokens_for_deposit(pool_stake as int, token_supply as int, stake_added as int) as u64,
        ),
        spec_tokens_for_deposit(pool_stake as int, token_supply as int, stake_added as int)
            > u64::MAX ==> r is None,
{
    if pool_stake == 0 || token_supply == 0 {
        Some(stake_added)
    } else {
        proof {
            vstd::arithmetic::mul::lemma_mul_upper_bound(
                stake_added as int,
                u64::MAX as int,
                token_supply as int,
                u64::MAX as int,
            );
        }
        let numerator: u128 = (stake_added as u128) * (token_supply as u128);
        let quotient: u128 = numerator / (pool_stake as u128);
        if quotient > u64::MAX as u128 {
            None
        } else {
            Some(quotient as u64)
        }
    }
}

/// Computes the stake amount for a withdrawal, or `None` when the exact
/// result does not fit in a `u64`.
pub fn calculate_withdraw_amount(pool_stake: u64, token_supply: u64, tokens_burned: u64) -> (r: Option<u64>)
    ensures
        spec_stake_for_tokens(pool_stake as int, token_supply as int, tokens_burned as int)
            <= u64::MAX ==> r == Some(
            spec_stake_for_tokens(pool_stake as int, token_supply as int, tokens_burned as int) as u64,
        ),
        spec_stake_for_tokens(pool_stake as int, token_supply as int, tokens_burned as int)
            > u64::MAX ==> r is None,
{
    if token_supply == 0 {
        Some(0)
    } else {
        proof {
            vstd::arithmetic::mul::lemma_mul_upper_bound(
                tokens_burned as int,
                u64::MAX as int,
                pool_stake as int,
                u64::MAX as int,
            );
        }
        let numerator: u128 = (tokens_burned as u128) * (pool_stake as u128);
        let quotient: u128 = numerator / (token_supply as u128);
        if quotient > u64::MAX as u128 {
            None
        } else {
            Some(quotient as u64)
        }
    }
}

/// Decides a deposit: the tokens to mint for `stake_added`, or the exact
/// error owed: `DepositTooSmall` when the amount would round to zero, and
/// `UnexpectedMathError` when the exact amount does not fit in a `u64`.
pub fn deposit_tokens_owed(pool_stake: u64, token_supply: u64, stake_added: u64) -> (r: Result<
    u64,
    SinglePoolError,
>)
    ensures
        ({
            let tokens = spec_tokens_for_deposit(
                pool_stake as int,
                token_supply as int,
                stake_added as int,
            );
            &&& tokens > u64::MAX ==> r == Err::<u64, SinglePoolError>(
                SinglePoolError::UnexpectedMathError,
            )
            &&& tokens == 0 ==> r == Err::<u64, SinglePoolError>(SinglePoolError::DepositTooSmall)
            &&& 0 < tokens <= u64::MAX ==> r == Ok::<u64, SinglePoolError>(tokens as u64)
        }),
{
    proof {
        if pool_stake != 0 && token_supply != 0 {
            vstd::arithmetic::div_mod::lemma_div_pos_is_pos(
                stake_added as int * token_supply as int,
                pool_stake as int,
            );
            vstd::arithmetic::mul::lemma_mul_nonnegative(stake_added as int, token_supply as int);
        }
    }
    match calculate_deposit_amount(pool_stake, token_supply, stake_added) {
        None => Err(SinglePoolError::UnexpectedMathError),
        Some(0) => Err(SinglePoolError::DepositTooSmall),
        Some(tokens) => Ok(tokens),
    }
}

/// Decides a withdrawal: the stake to release for burning `tokens_burned`,
/// or the exact error owed: `WithdrawalTooSmall` when the amount would round
/// to zero, `WithdrawalTooLarge` when it would exceed the pool's token-owned
/// stake, and `UnexpectedMathError` when the exact amount does not fit in a
/// `u64`.
pub fn withdraw_stake_owed(pool_stake: u64, token_supply: u64, tokens_burned: u64) -> (r: Result<
    u64,
    SinglePoolError,
>)
    ensures
        ({
            let stake = spec_stake_for_tokens(
                pool_stake as int,
                token_supply as int,
                tokens_burned as int,
            );
            &&& stake > u64::MAX ==> r == Err::<u64, SinglePoolError>(
                SinglePoolError::UnexpectedMathError,
            )
            &&& stake == 0 ==> r == Err::<u64, SinglePoolError>(SinglePoolError::WithdrawalTooSmall)
            &&& pool_stake < stake <= u64::MAX ==> r == Err::<u64, SinglePoolError>(
                SinglePoolError::WithdrawalTooLarge,
            )
            &&& 0 < stake <= pool_stake ==> r == Ok::<u64, SinglePoolError>(stake as u64)
        }),
{
    match calculate_withdraw_amount(pool_stake, token_supply, tokens_burned) {
        None => Err(SinglePoolError::UnexpectedMathError),
        Some(0) => Err(SinglePoolError::WithdrawalTooSmall),
        Some(stake) => {
            if stake > pool_stake {
                Err(SinglePoolError::WithdrawalTooLarge)
            } else {
                Ok(stake)
            }
        },
    }
}

/// The token-owned portion of the pool's stake: the main account's
/// delegation net of the minimum pool balance funded at initialization,
/// which no tokens ever represent.  A delegation that does not cover the
/// minimum surfaces `ArithmeticOverflow` rather than wrapping.
pub fn token_owned_stake(pool_stake: u64, minimum_pool_balance: u64) -> (r: Result<
    u64,
    SinglePoolError,
>)
    ensures
        minimum_pool_balance <= pool_stake ==> r == Ok::<u64, SinglePoolError>(
            (pool_stake - minimum_pool_balance) as u64,
        ),
        minimum_pool_balance > pool_stake ==> r == Err::<u64, SinglePoolError>(
            SinglePoolError::ArithmeticOverflow,
        ),
{
    if minimum_pool_balance > pool_stake {
        Err(SinglePoolError::ArithmeticOverflow)
    } else {
        Ok(pool_stake - minimum_pool_balance)
    }
}

/// The stake a deposited account contributes to the pool: its delegation
/// as it stands, plus its rent-exempt reserve while both accounts are
/// still activating — merging activating accounts folds the reserve into
/// the delegation, while merging active accounts refunds it to the
/// depositor.
pub fn deposit_stake_contribution(stake: u64, rent_exempt_reserve: u64, stake_active: bool) -> (r:
    u64)
    requires
        stake + rent_exempt_reserve <= u64::MAX,
    ensures
        stake_active ==> r == stake,
        !stake_active ==> r == stake + rent_exempt_reserve,
{
    if stake_active {
        stake
    } else {
        stake + rent_exempt_reserve
    }
}

/// What a deposit does to the pool's accounting when it is accepted.
#[derive(Clone, Copy, Debug, PartialEq, Eq, Structural)]
pub struct DepositOutcome {
    /// The stake the deposit contributed, rent-reserve handling
    /// included.
    pub stake_added: u64,
    /// The tokens minted for the depositor.
    pub tokens_minted: u64,
    /// The pool's token-owned stake after the deposit.
    pub new_pool_stake: u64,
    /// The token supply after the deposit.
    pub new_token_supply: u64,
}

/// Decides a whole stake deposit: the activation states of the deposited
/// account and the pool's main account must agree exactly (a mismatch is
/// refused rather than averaged), the contributed stake then follows the
/// activation state, and the engine computes the tokens owed.
pub fn handle_deposit(
    pool_stake: u64,
    token_supply: u64,
    user_stake: u64,
    user_rent_reserve: u64,
    user_stake_active: bool,
    pool_stake_active: bool,
) -> (r: Result<DepositOutcome, SinglePoolError>)
    requires
        user_stake + user_rent_reserve <= u64::MAX,
        pool_stake + user_stake + user_rent_reserve <= u64::MAX,
    ensures
        user_stake_active != pool_stake_active ==> r == Err::<DepositOutcome, SinglePoolError>(
            SinglePoolError::WrongStakeStake,
        ),
        user_stake_active == pool_stake_active ==> ({
            let contributed: int = if user_stake_active {
                user_stake as int
            } else {
                user_stake + user_rent_reserve
            };
            let tokens = spec_tokens_for_deposit(pool_stake as int, token_supply as int, contributed);
            &&& tokens > u64::MAX ==> r == Err::<DepositOutcome, SinglePoolError>(
                SinglePoolError::UnexpectedMathError,
            )
            &&& tokens == 0 ==> r == Err::<DepositOutcome, SinglePoolError>(
                SinglePoolError::DepositTooSmall,
            )
            &&& 0 < tokens <= u64::MAX && token_supply + tokens <= u64::MAX ==> (r matches Ok(o)
                && {
                &&& o.stake_added == contributed
                &&& o.tokens_minted == tokens
                &&& o.new_pool_stake == pool_stake + contributed
                &&& o.new_token_supply == token_supply + tokens
            })
            &&& 0 < tokens <= u64::MAX && token_supply + tokens > u64::MAX ==> r == Err::<
                DepositOutcome,
                SinglePoolError,
            >(SinglePoolError::UnexpectedMathError)
        }),
{
    match crate::validation::check_activation_match(user_stake_active, pool_stake_active) {
        Ok(()) => {},
        Err(e) => {
            return Err(e);
        },
    }
    let stake_added = deposit_stake_contribution(user_stake, user_rent_reserve, user_stake_active);
    let tokens_minted = match deposit_tokens_owed(pool_stake, token_supply, stake_added) {
        Ok(tokens) => tokens,
        Err(e) => {
            return Err(e);
        },
    };
    if token_supply > u64::MAX - tokens_minted {
        return Err(SinglePoolError::UnexpectedMathError);
    }
    Ok(
        DepositOutcome {
            stake_added,
            tokens_minted,
            new_pool_stake: pool_stake + stake_added,
            new_token_supply: token_supply + tokens_minted,
        },
    )
}

/// Law: a deposit made at parity (token supply equal to token-owned stake,
/// including the empty bootstrap pool) mints exactly the deposited amount,
/// so parity is preserved.
pub proof fn lemma_deposit_preserves_parity(pool_stake: int, token_supply: int, stake_added: int)
    requires
        pool_stake == token_supply,
        0 <= pool_stake,
        0 <= stake_added,
    ensures
        spec_tokens_for_deposit(pool_stake, token_supply, stake_added) == stake_added,
{
    if pool_stake != 0 {
        vstd::arithmetic::div_mod::lemma_div_by_multiple(stake_added, pool_stake);
    }
}

/// The total of a sequence of deposit amounts.
pub open spec fn spec_sum(deposits: Seq<u64>) -> int
    decreases deposits.len(),
{
    if deposits.len() == 0 {
        0
    } else {
        spec_sum(deposits.drop_last()) + deposits.last()
    }
}

/// The token supply after a sequence of deposits into a pool that starts
/// with no token-owned stake and no tokens, each deposit minting what the
/// exchange computation owes for it.
pub open spec fn spec_supply_after_deposits(deposits: Seq<u64>) -> int
    decreases deposits.len(),
{
    if deposits.len() == 0 {
        0
    } else {
        let prev_stake = spec_sum(deposits.drop_last());
        let prev_supply = spec_supply_after_deposits(deposits.drop_last());
        prev_supply + spec_tokens_for_deposit(prev_stake, prev_supply, deposits.last() as int)
    }
}

/// Law: with zero withdrawals and no rewards, the token supply after any
/// sequence of deposits equals the total stake deposited, at the bootstrap
/// 1:1 exchange rate.
pub proof fn lemma_bootstrap_supply(deposits: Seq<u64>)
    ensures
        spec_supply_after_deposits(deposits) == spec_sum(deposits),
    decreases deposits.len(),
{
    if deposits.len() > 0 {
        lemma_bootstrap_supply(deposits.drop_last());
        lemma_sum_nonnegative(deposits.drop_last());
        lemma_deposit_preserves_parity(
            spec_sum(deposits.drop_last()),
            spec_supply_after_deposits(deposits.drop_last()),
            deposits.last() as int,
        );
    }
}

/// The total of a sequence of deposit amounts is never negative.
pub proof fn lemma_sum_nonnegative(deposits: Seq<u64>)
    ensures
        0 <= spec_sum(deposits),
    decreases deposits.len(),
{
    if deposits.len() > 0 {
        lemma_sum_nonnegative(deposits.drop_last());
    }
}

/// Law: depositing at parity and then burning the entire resulting token
/// balance returns stake exactly equal to the original deposit.
pub proof fn lemma_deposit_withdraw_round_trip(pool_stake: int, token_supply: int, amount: int)
    requires
        pool_stake == token_supply,
        0 <= pool_stake,
        0 < amount,
    ensures
        ({
            let minted = spec_tokens_for_deposit(pool_stake, token_supply, amount);
            &&& minted == amount
            &&& spec_stake_for_tokens(pool_stake + amount, token_supply + minted, minted) == amount
        }),
{
    lemma_deposit_preserves_parity(pool_stake, token_supply, amount);
    vstd::arithmetic::div_mod::lemma_div_by_multiple(amount, pool_stake + amount);
}

/// Law: a deposit never dilutes the holders already in the pool: any
/// token balance redeems for at least as much stake after the deposit as
/// before it.
pub proof fn lemma_deposit_never_dilutes(pool_stake: int, token_supply: int, amount: int, held: int)
    requires
        0 < pool_stake,
        0 < token_supply,
        0 <= amount,
        0 <= held,
    ensures
        ({
            let minted = spec_tokens_for_deposit(pool_stake, token_supply, amount);
            spec_stake_for_tokens(pool_stake + amount, token_supply + minted, held)
                >= spec_stake_for_tokens(pool_stake, token_supply, held)
        }),
{
    let minted = spec_tokens_for_deposit(pool_stake, token_supply, amount);
    assert(minted == amount * token_supply / pool_stake);
    vstd::arithmetic::mul::lemma_mul_nonnegative(amount, token_supply);
    vstd::arithmetic::div_mod::lemma_div_pos_is_pos(amount * token_supply, pool_stake);
    // floor division leaves minted * pool_stake at or below amount * token_supply
    vstd::arithmetic::div_mod::lemma_fundamental_div_mod(amount * token_supply, pool_stake);
    vstd::arithmetic::div_mod::lemma_mod_division_less_than_divisor(
        amount * token_supply,
        pool_stake,
    );
    assert(minted * pool_stake <= amount * token_supply) by (nonlinear_arith)
        requires
            pool_stake * minted + (amount * token_supply) % pool_stake == amount * token_supply,
            0 <= (amount * token_supply) % pool_stake,
    ;
    // so the stake behind one token does not fall:
    // held * (pool_stake + amount) * token_supply
    //     >= held * pool_stake * (token_supply + minted)
    assert(held * (pool_stake + amount) * (token_supply) >= held * pool_stake * (token_supply
        + minted)) by (nonlinear_arith)
        requires
            minted * pool_stake <= amount * token_supply,
            0 <= held,
            0 <= amount,
            0 <= minted,
            0 < pool_stake,
            0 < token_supply,
    ;
    // and floor division preserves the ordering of the two quotients
    vstd::arithmetic::div_mod::lemma_fundamental_div_mod(held * pool_stake, token_supply);
    vstd::arithmetic::div_mod::lemma_mod_division_less_than_divisor(
        held * pool_stake,
        token_supply,
    );
    let before = held * pool_stake / token_supply;
    assert(before * (token_supply + minted) <= held * (pool_stake + amount)) by (nonlinear_arith)
        requires
            token_supply * before + (held * pool_stake) % token_supply == held * pool_stake,
            0 <= (held * pool_stake) % token_supply,
            held * (pool_stake + amount) * (token_supply) >= held * pool_stake * (token_supply
                + minted),
            0 <= before,
            0 <= minted,
            0 < token_supply,
            (held * pool_stake) % token_supply * (token_supply + minted) >= 0,
    ;
    vstd::arithmetic::div_mod::lemma_div_is_ordered(
        before * (token_supply + minted),
        held * (pool_stake + amount),
        token_supply + minted,
    );
    vstd::arithmetic::div_mod::lemma_div_by_multiple(before, token_supply + minted);
}

/// Law: whatever the pool's state, depositing and then burning the entire
/// resulting token balance never returns more stake than was deposited;
/// floor division favors the pool.
pub proof fn lemma_withdraw_never_exceeds_deposit(pool_stake: int, token_supply: int, amount: int)
    requires
        0 < pool_stake,
        0 < token_supply,
        0 <= amount,
    ensures
        ({
            let minted = spec_tokens_for_deposit(pool_stake, token_supply, amount);
            spec_stake_for_tokens(pool_stake + amount, token_supply + minted, minted) <= amount
        }),
{
    let minted = spec_tokens_for_deposit(pool_stake, token_supply, amount);
    assert(minted == amount * token_supply / pool_stake);
    vstd::arithmetic::mul::lemma_mul_nonnegative(amount, token_supply);
    vstd::arithmetic::div_mod::lemma_div_pos_is_pos(amount * token_supply, pool_stake);
    // floor division leaves minted * pool_stake at or below amount * token_supply
    vstd::arithmetic::div_mod::lemma_fundamental_div_mod(amount * token_supply, pool_stake);
    vstd::arithmetic::div_mod::lemma_mod_division_less_than_divisor(
        amount * token_supply,
        pool_stake,
    );
    assert(minted * pool_stake <= amount * token_supply) by (nonlinear_arith)
        requires
            pool_stake * minted + (amount * token_supply) % pool_stake == amount * token_supply,
            0 <= (amount * token_supply) % pool_stake,
    ;
    // hence minted * (pool_stake + amount) <= amount * (token_supply + minted)
    vstd::arithmetic::mul::lemma_mul_is_distributive_add(minted, pool_stake, amount);
    vstd::arithmetic::mul::lemma_mul_is_distributive_add(amount, token_supply, minted);
    assert(minted * (pool_stake + amount) <= amount * (token_supply + minted)) by (nonlinear_arith)
        requires
            minted * pool_stake <= amount * token_supply,
            0 <= amount,
            0 <= minted,
    ;
    vstd::arithmetic::div_mod::lemma_div_is_ordered(
        minted * (pool_stake + amount),
        amount * (token_supply + minted),
        token_supply + minted,
    );
    vstd::arithmetic::div_mod::lemma_div_by_multiple(amount, token_supply + minted);
}

} // verus!
