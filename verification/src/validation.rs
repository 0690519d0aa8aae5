//! The account validator.
//!
//! Every instruction's account arguments are checked against their
//! re-derived expected addresses before any mutation.  Failure on any
//! check aborts the whole call with a specific error naming which
//! relationship failed — never a generic failure — so callers and
//! auditors can tell "wrong pool" from "wrong mint".

use vstd::prelude::*;

use crate::addr::Address;
use crate::derivation::find_metadata_account;
use crate::derivation::find_pool_address;
use crate::derivation::find_pool_mint_address;
use crate::derivation::find_pool_mint_authority_address;
use crate::derivation::find_pool_mpl_authority_address;
use crate::derivation::find_pool_onramp_address;
use crate::derivation::find_pool_stake_address;
use crate::derivation::find_pool_stake_authority_address;
use crate::derivation::spec_metadata_address;
use crate::derivation::spec_pool_address;
use crate::derivation::spec_pool_mint_address;
use crate::derivation::spec_pool_mint_authority_address;
use crate::derivation::spec_pool_mpl_authority_address;
use crate::derivation::spec_pool_onramp_address;
use crate::derivation::spec_pool_stake_address;
use crate::derivation::spec_pool_stake_authority_address;
use crate::error::SinglePoolError;

verus! {

/// Checks that the supplied pool account stands at the address derived
/// from the vote account.
pub fn check_pool_address(program_id: &Address, vote_account_address: &Address, provided: &Address) -> (r:
    Result<(), SinglePoolError>)
    requires
        program_id.wf(),
        vote_account_address.wf(),
    ensures
        r is Ok <==> provided@ == spec_pool_address(program_id@, vote_account_address@),
        r is Err ==> r == Err::<(), SinglePoolError>(SinglePoolError::InvalidPoolAccount),
{
    let derived = find_pool_address(program_id, vote_account_address);
    if provided.equals(&derived) {
        Ok(())
    } else {
        Err(SinglePoolError::InvalidPoolAccount)
    }
}

/// Checks that the supplied stake account stands at the pool's derived
/// main stake address.
pub fn check_pool_stake_address(program_id: &Address, pool_address: &Address, provided: &Address) -> (r:
    Result<(), SinglePoolError>)
    requires
        program_id.wf(),
        pool_address.wf(),
    ensures
        r is Ok <==> provided@ == spec_pool_stake_address(program_id@, pool_address@),
        r is Err ==> r == Err::<(), SinglePoolError>(SinglePoolError::InvalidPoolStakeAccount),
{
    let derived = find_pool_stake_address(program_id, pool_address);
    if provided.equals(&derived) {
        Ok(())
    } else {
        Err(SinglePoolError::InvalidPoolStakeAccount)
    }
}

/// Checks that the supplied on-ramp account stands at the pool's derived
/// on-ramp address.
pub fn check_pool_onramp_address(program_id: &Address, pool_address: &Address, provided: &Address) -> (r:
    Result<(), SinglePoolError>)
    requires
        program_id.wf(),
        pool_address.wf(),
    ensures
        r is Ok <==> provided@ == spec_pool_onramp_address(program_id@, pool_address@),
        r is Err ==> r == Err::<(), SinglePoolError>(SinglePoolError::InvalidPoolOnRampAccount),
{
    let derived = find_pool_onramp_address(program_id, pool_address);
    if provided.equals(&derived) {
        Ok(())
    } else {
        Err(SinglePoolError::InvalidPoolOnRampAccount)
    }
}

/// Checks that the supplied mint stands at the pool's derived mint
/// address.
pub fn check_pool_mint_address(program_id: &Address, pool_address: &Address, provided: &Address) -> (r:
    Result<(), SinglePoolError>)
    requires
        program_id.wf(),
        pool_address.wf(),
    ensures
        r is Ok <==> provided@ == spec_pool_mint_address(program_id@, pool_address@),
        r is Err ==> r == Err::<(), SinglePoolError>(SinglePoolError::InvalidPoolMint),
{
    let derived = find_pool_mint_address(program_id, pool_address);
    if provided.equals(&derived) {
        Ok(())
    } else {
        Err(SinglePoolError::InvalidPoolMint)
    }
}

/// Checks that the supplied stake authority is the pool's derived stake
/// authority.
pub fn check_pool_stake_authority_address(
    program_id: &Address,
    pool_address: &Address,
    provided: &Address,
) -> (r: Result<(), SinglePoolError>)
    requires
        program_id.wf(),
        pool_address.wf(),
    ensures
        r is Ok <==> provided@ == spec_pool_stake_authority_address(program_id@, pool_address@),
        r is Err ==> r == Err::<(), SinglePoolError>(SinglePoolError::InvalidPoolStakeAuthority),
{
    let derived = find_pool_stake_authority_address(program_id, pool_address);
    if provided.equals(&derived) {
        Ok(())
    } else {
        Err(SinglePoolError::InvalidPoolStakeAuthority)
    }
}

/// Checks that the supplied mint authority is the pool's derived mint
/// authority.
pub fn check_pool_mint_authority_address(
    program_id: &Address,
    pool_address: &Address,
    provided: &Address,
) -> (r: Result<(), SinglePoolError>)
    requires
        program_id.wf(),
        pool_address.wf(),
    ensures
        r is Ok <==> provided@ == spec_pool_mint_authority_address(program_id@, pool_address@),
        r is Err ==> r == Err::<(), SinglePoolError>(SinglePoolError::InvalidPoolMintAuthority),
{
    let derived = find_pool_mint_authority_address(program_id, pool_address);
    if provided.equals(&derived) {
        Ok(())
    } else {
        Err(SinglePoolError::InvalidPoolMintAuthority)
    }
}

/// Checks that the supplied external-metadata authority is the pool's
/// derived one.
pub fn check_pool_mpl_authority_address(
    program_id: &Address,
    pool_address: &Address,
    provided: &Address,
) -> (r: Result<(), SinglePoolError>)
    requires
        program_id.wf(),
        pool_address.wf(),
    ensures
        r is Ok <==> provided@ == spec_pool_mpl_authority_address(program_id@, pool_address@),
        r is Err ==> r == Err::<(), SinglePoolError>(SinglePoolError::InvalidPoolMplAuthority),
{
    let derived = find_pool_mpl_authority_address(program_id, pool_address);
    if provided.equals(&derived) {
        Ok(())
    } else {
        Err(SinglePoolError::InvalidPoolMplAuthority)
    }
}

/// Checks that the supplied metadata account is the one the external
/// token-metadata program derives for the pool mint.
pub fn check_metadata_address(mint: &Address, provided: &Address) -> (r: Result<
    (),
    SinglePoolError,
>)
    requires
        mint.wf(),
    ensures
        r is Ok <==> provided@ == spec_metadata_address(mint@),
        r is Err ==> r == Err::<(), SinglePoolError>(SinglePoolError::InvalidMetadataAccount),
{
    let derived = find_metadata_account(mint);
    if provided.equals(&derived) {
        Ok(())
    } else {
        Err(SinglePoolError::InvalidMetadataAccount)
    }
}

/// Checks that the pool account is still unallocated when initializing:
/// a pool can be created only once.
pub fn check_pool_uninitialized(pool_data_len: u64) -> (r: Result<(), SinglePoolError>)
    ensures
        r is Ok <==> pool_data_len == 0,
        r is Err ==> r == Err::<(), SinglePoolError>(SinglePoolError::PoolAlreadyInitialized),
{
    if pool_data_len == 0 {
        Ok(())
    } else {
        Err(SinglePoolError::PoolAlreadyInitialized)
    }
}

/// Checks that an account being initialized was pre-funded with exactly
/// its rent-exempt minimum plus the required additional balance.
pub fn check_rent_amount(lamports: u64, rent_exempt_minimum: u64, additional: u64) -> (r: Result<
    (),
    SinglePoolError,
>)
    requires
        rent_exempt_minimum + additional <= u64::MAX,
    ensures
        r is Ok <==> lamports == rent_exempt_minimum + additional,
        r is Err ==> r == Err::<(), SinglePoolError>(SinglePoolError::WrongRentAmount),
{
    if lamports == rent_exempt_minimum + additional {
        Ok(())
    } else {
        Err(SinglePoolError::WrongRentAmount)
    }
}

/// Checks that an account that must sign the call did sign it.
pub fn check_signer(is_signer: bool) -> (r: Result<(), SinglePoolError>)
    ensures
        r is Ok <==> is_signer,
        r is Err ==> r == Err::<(), SinglePoolError>(SinglePoolError::SignatureMissing),
{
    if is_signer {
        Ok(())
    } else {
        Err(SinglePoolError::SignatureMissing)
    }
}

/// Checks that a user-supplied stake account is neither the pool's main
/// stake account nor its on-ramp: deposits from and withdrawals to the
/// pool's own accounts are refused.
pub fn check_stake_account_usage(
    user_stake_account: &Address,
    pool_stake_address: &Address,
    pool_onramp_address: &Address,
) -> (r: Result<(), SinglePoolError>)
    ensures
        r is Ok <==> user_stake_account@ != pool_stake_address@ && user_stake_account@
            != pool_onramp_address@,
        r is Err ==> r == Err::<(), SinglePoolError>(SinglePoolError::InvalidPoolStakeAccountUsage),
{
    if user_stake_account.equals(pool_stake_address) || user_stake_account.equals(
        pool_onramp_address,
    ) {
        Err(SinglePoolError::InvalidPoolStakeAccountUsage)
    } else {
        Ok(())
    }
}

/// Checks that the source stake account's delegation names the pool's
/// vote account, before any arithmetic runs.
pub fn check_deposit_delegation(voter_pubkey: &Address, vote_account_address: &Address) -> (r:
    Result<(), SinglePoolError>)
    ensures
        r is Ok <==> voter_pubkey@ == vote_account_address@,
        r is Err ==> r == Err::<(), SinglePoolError>(SinglePoolError::WrongStakeStake),
{
    if voter_pubkey.equals(vote_account_address) {
        Ok(())
    } else {
        Err(SinglePoolError::WrongStakeStake)
    }
}

/// Checks that the source stake account's activation state exactly
/// matches the pool's for the same epoch: a mismatch would corrupt the
/// accounting, so it is refused rather than averaged.
pub fn check_activation_match(user_stake_active: bool, pool_stake_active: bool) -> (r: Result<
    (),
    SinglePoolError,
>)
    ensures
        r is Ok <==> user_stake_active == pool_stake_active,
        r is Err ==> r == Err::<(), SinglePoolError>(SinglePoolError::WrongStakeStake),
{
    if user_stake_active == pool_stake_active {
        Ok(())
    } else {
        Err(SinglePoolError::WrongStakeStake)
    }
}

/// The wire tag at the head of a vote account's data.
pub open spec fn spec_vote_tag(data: Seq<u8>) -> u32
    recommends
        data.len() >= 4,
{
    vstd::bytes::spec_u32_from_le_bytes(data.subrange(0, 4))
}

/// Extracts the authorized withdrawer recorded in a vote account.  The
/// legacy record layout is refused with `LegacyVoteAccount`; data too
/// short or of unknown shape is refused with `UnparseableVoteAccount`.
pub fn vote_account_withdrawer(data: &Vec<u8>) -> (r: Result<Address, SinglePoolError>)
    ensures
        r is Ok <==> data@.len() >= 68 && (spec_vote_tag(data@) == 1 || spec_vote_tag(data@) == 2),
        r matches Ok(withdrawer) ==> withdrawer@ == data@.subrange(36, 68) && withdrawer.wf(),
        r is Err ==> r == Err::<Address, SinglePoolError>(
            if data@.len() >= 4 && spec_vote_tag(data@) == 0 {
                SinglePoolError::LegacyVoteAccount
            } else {
                SinglePoolError::UnparseableVoteAccount
            },
        ),
{
    if data.len() < 4 {
        return Err(SinglePoolError::UnparseableVoteAccount);
    }
    let tag_vec = crate::addr::bytes_range(data, 0, 4);
    let tag = vstd::bytes::u32_from_le_bytes(tag_vec.as_slice());
    match tag {
        0u32 => Err(SinglePoolError::LegacyVoteAccount),
        1u32 | 2u32 => {
            if data.len() < 68 {
                Err(SinglePoolError::UnparseableVoteAccount)
            } else {
                Ok(Address::new(crate::addr::bytes_range(data, 36, 68)))
            }
        },
        _ => Err(SinglePoolError::UnparseableVoteAccount),
    }
}

/// Checks that the signer claiming to be the validator's authorized
/// withdrawer matches the one the vote account records.
pub fn check_metadata_signer(provided: &Address, recorded: &Address) -> (r: Result<
    (),
    SinglePoolError,
>)
    ensures
        r is Ok <==> provided@ == recorded@,
        r is Err ==> r == Err::<(), SinglePoolError>(SinglePoolError::InvalidMetadataSigner),
{
    if provided.equals(recorded) {
        Ok(())
    } else {
        Err(SinglePoolError::InvalidMetadataSigner)
    }
}

} // verus!
