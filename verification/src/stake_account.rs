//! Reading stake accounts.
//!
//! A stake account's state travels as a tagged record: a four-byte
//! little-endian tag, then the metadata (rent reserve, authorities,
//! lockup), and, for a delegated account, the delegation and its flags.
//! The parser extracts exactly the fields the pool's logic reads and
//! ignores the rest, trailing bytes included, as readers of this record
//! format always have.

use vstd::prelude::*;

use vstd::bytes::spec_u32_from_le_bytes;
use vstd::bytes::spec_u64_from_le_bytes;
use vstd::bytes::u32_from_le_bytes;
use vstd::bytes::u64_from_le_bytes;

use crate::addr::bytes_range;
use crate::addr::Address;
use crate::replenish::DelegationState;

verus! {

/// The metadata every initialized stake account carries.
#[derive(Debug)]
pub struct StakeMeta {
    /// The rent-exempt reserve, excluded from every available-balance
    /// computation.
    pub rent_exempt_reserve: u64,
    /// The authority that signs delegation changes.
    pub staker: Address,
    /// The authority that signs withdrawals.
    pub withdrawer: Address,
}

/// A delegation together with the vote account it names.
#[derive(Debug)]
pub struct StakeInfo {
    /// The vote account the stake is delegated to.
    pub voter_pubkey: Address,
    /// The delegation's amount and epochs.
    pub delegation: DelegationState,
}

/// A stake account's state, as far as the pool's logic reads it.
#[derive(Debug)]
pub enum ParsedStakeState {
    /// The account holds no metadata yet.
    Uninitialized,
    /// The account is initialized but not delegated.
    Initialized(StakeMeta),
    /// The account is delegated.
    Stake(StakeMeta, StakeInfo),
    /// A legacy variant that no current account holds.
    RewardsPool,
}

/// The wire tag at the head of a stake account's data.
pub open spec fn spec_stake_tag(data: Seq<u8>) -> u32
    recommends
        data.len() >= 4,
{
    spec_u32_from_le_bytes(data.subrange(0, 4))
}

/// Whether stake account data parses, given its tag and length: the
/// metadata needs 120 bytes past the tag, and a delegation another 72
/// plus one flag byte.
pub open spec fn spec_stake_data_ok(data: Seq<u8>) -> bool {
    &&& data.len() >= 4
    &&& {
        ||| spec_stake_tag(data) == 0
        ||| spec_stake_tag(data) == 3
        ||| spec_stake_tag(data) == 1 && data.len() >= 124
        ||| spec_stake_tag(data) == 2 && data.len() >= 197
    }
}

/// The metadata fields at their fixed offsets.
pub open spec fn spec_stake_meta_ok(meta: StakeMeta, data: Seq<u8>) -> bool {
    &&& meta.rent_exempt_reserve == spec_u64_from_le_bytes(data.subrange(4, 12))
    &&& meta.staker@ == data.subrange(12, 44)
    &&& meta.withdrawer@ == data.subrange(44, 76)
}

/// The delegation fields at their fixed offsets.
pub open spec fn spec_stake_info_ok(info: StakeInfo, data: Seq<u8>) -> bool {
    &&& info.voter_pubkey@ == data.subrange(124, 156)
    &&& info.delegation.stake == spec_u64_from_le_bytes(data.subrange(156, 164))
    &&& info.delegation.activation_epoch == spec_u64_from_le_bytes(data.subrange(164, 172))
    &&& info.delegation.deactivation_epoch == spec_u64_from_le_bytes(data.subrange(172, 180))
}

/// Parses a stake account's data, extracting the fields the pool's logic
/// reads.  Returns `None` exactly on data too short for its tag or with
/// an unknown tag.
pub fn parse_stake_state(data: &Vec<u8>) -> (r: Option<ParsedStakeState>)
    ensures
        r is Some <==> spec_stake_data_ok(data@),
        r matches Some(parsed) ==> match parsed {
            ParsedStakeState::Uninitialized => spec_stake_tag(data@) == 0,
            ParsedStakeState::Initialized(meta) => spec_stake_tag(data@) == 1 && spec_stake_meta_ok(
                meta,
                data@,
            ),
            ParsedStakeState::Stake(meta, info) => spec_stake_tag(data@) == 2 && spec_stake_meta_ok(
                meta,
                data@,
            ) && spec_stake_info_ok(info, data@),
            ParsedStakeState::RewardsPool => spec_stake_tag(data@) == 3,
        },
{
    if data.len() < 4 {
        return None;
    }
    let tag_vec = bytes_range(data, 0, 4);
    let tag = u32_from_le_bytes(tag_vec.as_slice());
    match tag {
        0u32 => Some(ParsedStakeState::Uninitialized),
        1u32 => {
            if data.len() < 124 {
                None
            } else {
                Some(ParsedStakeState::Initialized(read_meta(data)))
            }
        },
        2u32 => {
            if data.len() < 197 {
                None
            } else {
                Some(ParsedStakeState::Stake(read_meta(data), read_stake_info(data)))
            }
        },
        3u32 => Some(ParsedStakeState::RewardsPool),
        _ => None,
    }
}

/// Reads the metadata fields at their fixed offsets.
fn read_meta(data: &Vec<u8>) -> (r: StakeMeta)
    requires
        data@.len() >= 124,
    ensures
        spec_stake_meta_ok(r, data@),
        r.staker.wf(),
        r.withdrawer.wf(),
{
    let rent_vec = bytes_range(data, 4, 12);
    StakeMeta {
        rent_exempt_reserve: u64_from_le_bytes(rent_vec.as_slice()),
        staker: Address::new(bytes_range(data, 12, 44)),
        withdrawer: Address::new(bytes_range(data, 44, 76)),
    }
}

/// Reads the delegation fields at their fixed offsets.
fn read_stake_info(data: &Vec<u8>) -> (r: StakeInfo)
    requires
        data@.len() >= 197,
    ensures
        spec_stake_info_ok(r, data@),
        r.voter_pubkey.wf(),
{
    let stake_vec = bytes_range(data, 156, 164);
    let activation_vec = bytes_range(data, 164, 172);
    let deactivation_vec = bytes_range(data, 172, 180);
    StakeInfo {
        voter_pubkey: Address::new(bytes_range(data, 124, 156)),
        delegation: DelegationState {
            stake: u64_from_le_bytes(stake_vec.as_slice()),
            activation_epoch: u64_from_le_bytes(activation_vec.as_slice()),
            deactivation_epoch: u64_from_le_bytes(deactivation_vec.as_slice()),
        },
    }
}

} // verus!
