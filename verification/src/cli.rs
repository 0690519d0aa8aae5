//! Decision logic of the command-line flows.
//!
//! The command-line front end fetches accounts and submits transactions;
//! every rule it applies to what it fetched — which pool an argument pair
//! names, whether a stake account may be deposited, how many tokens a
//! withdrawal burns, what a pool record yields — lives here, over plain
//! values, with exact contracts.

use vstd::prelude::*;

use vstd::string::StrSliceExecFns;
use vstd::string::StringExecFns;
use vstd::string::StringSliceAdditionalSpecFns;

use crate::addr::Address;
use crate::derivation::spec_pool_address;
use crate::ids;
use crate::replenish::DelegationState;
use crate::stake_account::parse_stake_state;
use crate::stake_account::ParsedStakeState;
use crate::state::SinglePool;
use crate::token_state::parse_mint_supply;

verus! {

/// Lamports in one sol.
pub const LAMPORTS_PER_SOL: u64 = 1000000000;

/// What a command-line check can refuse; the front end renders each
/// variant as its message.
#[derive(Clone, Copy, Debug, PartialEq, Eq, Structural)]
pub enum CliError {
    /// The provided pool address does not match the stake
    /// account-derived address.
    PoolAddressMismatch,
    /// Incorrect withdraw authority for the stake account to deposit.
    WrongWithdrawAuthority,
    /// The stake account to deposit is deactivating or deactivated.
    StakeDeactivating,
    /// Activation status of the stake account and the pool disagree; try
    /// again next epoch.
    ActivationMismatch,
    /// Cannot withdraw zero tokens.
    ZeroWithdrawal,
    /// The withdraw amount exceeds the tokens in the account.
    WithdrawExceedsBalance,
    /// The token account is not owned by the provided token authority.
    WrongTokenAuthority,
    /// The pool has not been initialized.
    PoolNotInitialized,
    /// The account at the pool address is not owned by the pool program.
    NotOwnedByPoolProgram,
    /// The account at the pool address is owned by the pool program but
    /// is not a valid pool record.
    MalformedPoolRecord,
}

/// Accepts a token name of at most 32 bytes.
pub fn is_valid_token_name(s: &str) -> (r: Result<(), String>)
    ensures
        r is Ok <==> s.spec_bytes().len() <= 32,
{
    let bytes = s.as_bytes_vec();
    if bytes.len() > 32 {
        Err(String::from_str("Maximum token name length is 32 characters"))
    } else {
        Ok(())
    }
}

/// Accepts a token symbol of at most 10 bytes.
pub fn is_valid_token_symbol(s: &str) -> (r: Result<(), String>)
    ensures
        r is Ok <==> s.spec_bytes().len() <= 10,
{
    let bytes = s.as_bytes_vec();
    if bytes.len() > 10 {
        Err(String::from_str("Maximum token symbol length is 10 characters"))
    } else {
        Ok(())
    }
}

/// Accepts a token URI of at most 200 bytes.
pub fn is_valid_token_uri(s: &str) -> (r: Result<(), String>)
    ensures
        r is Ok <==> s.spec_bytes().len() <= 200,
{
    let bytes = s.as_bytes_vec();
    if bytes.len() > 200 {
        Err(String::from_str("Maximum token URI length is 200 characters"))
    } else {
        Ok(())
    }
}

/// Resolves the pool a command names: the pool address as given, or the
/// one derived from the vote account.
pub fn pool_address_from_args(maybe_pool: Option<Address>, maybe_vote: Option<Address>) -> (r:
    Address)
    requires
        maybe_pool is Some || maybe_vote is Some,
        maybe_vote matches Some(vote) ==> vote.wf(),
    ensures
        maybe_pool matches Some(pool) ==> r@ == pool@,
        maybe_pool is None ==> r@ == spec_pool_address(
            ids::spec_single_pool_program_id(),
            maybe_vote->Some_0@,
        ),
{
    match maybe_pool {
        Some(pool_address) => pool_address,
        None => {
            let vote_account_address = match maybe_vote {
                Some(vote) => vote,
                None => {
                    proof {
                        assert(false);
                    }
                    Address { bytes: Vec::new() }
                },
            };
            let program_id = ids::single_pool_program_id();
            crate::derivation::find_pool_address(&program_id, &vote_account_address)
        },
    }
}

/// The minimum balance the pool's main stake account is funded with at
/// initialization: the cluster's minimum delegation, floored at one sol.
pub fn minimum_pool_balance(minimum_delegation: u64) -> (r: u64)
    ensures
        r == if minimum_delegation > LAMPORTS_PER_SOL {
            minimum_delegation as int
        } else {
            LAMPORTS_PER_SOL as int
        },
{
    if minimum_delegation > LAMPORTS_PER_SOL {
        minimum_delegation
    } else {
        LAMPORTS_PER_SOL
    }
}

/// The checks a deposit makes on the stake account it would deposit,
/// before any value moves: the delegation must derive the pool the
/// caller named, the caller must hold the withdraw authority, and the
/// delegation must not be deactivating.  Returns the pool address the
/// delegation derives and whether the delegation is already active.
pub fn check_deposit_source(
    provided_pool_address: &Option<Address>,
    voter_pubkey: &Address,
    withdrawer: &Address,
    stake_authority: &Address,
    delegation: &DelegationState,
    current_epoch: u64,
) -> (r: Result<(Address, bool), CliError>)
    requires
        voter_pubkey.wf(),
    ensures
        ({
            let derived = spec_pool_address(ids::spec_single_pool_program_id(), voter_pubkey@);
            if provided_pool_address matches Some(p) && p@ != derived {
                r == Err::<(Address, bool), CliError>(CliError::PoolAddressMismatch)
            } else if withdrawer@ != stake_authority@ {
                r == Err::<(Address, bool), CliError>(CliError::WrongWithdrawAuthority)
            } else if delegation.deactivation_epoch != u64::MAX {
                r == Err::<(Address, bool), CliError>(CliError::StakeDeactivating)
            } else {
                r matches Ok(o) && o.0@ == derived && o.1 == (delegation.activation_epoch
                    <= current_epoch)
            }
        }),
{
    let program_id = ids::single_pool_program_id();
    let derived_pool_address = crate::derivation::find_pool_address(&program_id, voter_pubkey);
    match provided_pool_address {
        Some(provided) => {
            if !provided.equals(&derived_pool_address) {
                return Err(CliError::PoolAddressMismatch);
            }
        },
        None => {},
    }
    if !withdrawer.equals(stake_authority) {
        return Err(CliError::WrongWithdrawAuthority);
    }
    if delegation.deactivation_epoch != u64::MAX {
        return Err(CliError::StakeDeactivating);
    }
    let user_stake_active = delegation.activation_epoch <= current_epoch;
    Ok((derived_pool_address, user_stake_active))
}

/// The check that the deposited stake account's activation state exactly
/// matches the pool's.
pub fn check_activation_status(user_stake_active: bool, pool_stake_active: bool) -> (r: Result<
    (),
    CliError,
>)
    ensures
        r is Ok <==> user_stake_active == pool_stake_active,
        r is Err ==> r == Err::<(), CliError>(CliError::ActivationMismatch),
{
    if user_stake_active == pool_stake_active {
        Ok(())
    } else {
        Err(CliError::ActivationMismatch)
    }
}

/// The checks a withdrawal makes on the token account it would burn
/// from: a `None` request burns the whole balance; zero, more than the
/// balance, and a token account the authority does not own are refused.
/// Returns the token amount to burn.
pub fn check_withdraw_tokens(
    requested_amount: Option<u64>,
    token_account_amount: u64,
    token_account_owner: &Address,
    token_authority: &Address,
) -> (r: Result<u64, CliError>)
    ensures
        ({
            let amount = match requested_amount {
                Some(a) => a,
                None => token_account_amount,
            };
            if amount == 0 {
                r == Err::<u64, CliError>(CliError::ZeroWithdrawal)
            } else if amount > token_account_amount {
                r == Err::<u64, CliError>(CliError::WithdrawExceedsBalance)
            } else if token_account_owner@ != token_authority@ {
                r == Err::<u64, CliError>(CliError::WrongTokenAuthority)
            } else {
                r == Ok::<u64, CliError>(amount)
            }
        }),
{
    let token_amount = match requested_amount {
        Some(a) => a,
        None => token_account_amount,
    };
    if token_amount == 0 {
        return Err(CliError::ZeroWithdrawal);
    }
    if token_amount > token_account_amount {
        return Err(CliError::WithdrawExceedsBalance);
    }
    if !token_account_owner.equals(token_authority) {
        return Err(CliError::WrongTokenAuthority);
    }
    Ok(token_amount)
}

/// Reads the vote account a pool record is mapped to, out of the account
/// found at the pool address: it must exist, belong to the pool program,
/// and parse as a pool record.
pub fn vote_address_from_pool_data(owner: &Address, data: &Vec<u8>) -> (r: Result<
    Address,
    CliError,
>)
    ensures
        ({
            if data@.len() == 0 {
                r == Err::<Address, CliError>(CliError::PoolNotInitialized)
            } else if owner@ != ids::spec_single_pool_program_id() {
                r == Err::<Address, CliError>(CliError::NotOwnedByPoolProgram)
            } else if !(data@.len() >= 33 && (data@[0] == 0 || data@[0] == 1)) {
                r == Err::<Address, CliError>(CliError::MalformedPoolRecord)
            } else {
                r matches Ok(vote) && vote@ == data@.subrange(1, 33) && vote.wf()
            }
        }),
{
    if data.len() == 0 {
        return Err(CliError::PoolNotInitialized);
    }
    let program_id = ids::single_pool_program_id();
    if !owner.equals(&program_id) {
        return Err(CliError::NotOwnedByPoolProgram);
    }
    match SinglePool::deserialize(data) {
        Ok(pool) => Ok(pool.vote_account_address),
        Err(_) => Err(CliError::MalformedPoolRecord),
    }
}

/// The stake a pool has available beyond its minimum balance, as shown
/// by a display command, out of the main stake account's data: zero for
/// an absent, undelegated or malformed account.
pub fn available_stake_from_account(data: &Vec<u8>, minimum_pool_balance: u64) -> (r: u64)
    ensures
        ({
            if crate::stake_account::spec_stake_data_ok(data@) && crate::stake_account::spec_stake_tag(
                data@,
            ) == 2 {
                let stake = vstd::bytes::spec_u64_from_le_bytes(data@.subrange(156, 164));
                r == if stake > minimum_pool_balance {
                    stake - minimum_pool_balance
                } else {
                    0
                }
            } else {
                r == 0
            }
        }),
{
    match parse_stake_state(data) {
        Some(ParsedStakeState::Stake(_meta, info)) => {
            if info.delegation.stake > minimum_pool_balance {
                info.delegation.stake - minimum_pool_balance
            } else {
                0
            }
        },
        _ => 0,
    }
}

/// The token supply a pool has issued, as shown by a display command,
/// out of the mint's data: zero for an absent or malformed mint.
pub fn token_supply_from_account(data: &Vec<u8>) -> (r: u64)
    ensures
        ({
            if crate::token_state::spec_mint_data_ok(data@) {
                r == crate::token_state::spec_mint_supply(data@)
            } else {
                r == 0
            }
        }),
{
    match parse_mint_supply(data) {
        Some(supply) => supply,
        None => 0,
    }
}

} // verus!
