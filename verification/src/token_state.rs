//! Reading token-program accounts.
//!
//! The token program stores mints and token accounts as fixed-layout
//! records; the parsers here extract exactly the fields the pool's logic
//! reads — a mint's supply, and a token account's mint, owner and
//! balance — under the same length and initialization checks the token
//! program itself makes when unpacking.

use vstd::prelude::*;

use vstd::bytes::spec_u64_from_le_bytes;
use vstd::bytes::u64_from_le_bytes;

use crate::addr::bytes_range;
use crate::addr::Address;

verus! {

/// Whether mint data unpacks: the record is exactly 82 bytes and marked
/// initialized at its fixed offset.
pub open spec fn spec_mint_data_ok(data: Seq<u8>) -> bool {
    &&& data.len() == 82
    &&& data[45] == 1
}

/// The supply field of a mint record.
pub open spec fn spec_mint_supply(data: Seq<u8>) -> u64
    recommends
        data.len() == 82,
{
    spec_u64_from_le_bytes(data.subrange(36, 44))
}

/// Parses a mint record's total token supply.  Returns `None` exactly on
/// data that is not an initialized 82-byte mint record.
pub fn parse_mint_supply(data: &Vec<u8>) -> (r: Option<u64>)
    ensures
        r is Some <==> spec_mint_data_ok(data@),
        r matches Some(supply) ==> supply == spec_mint_supply(data@),
{
    if data.len() != 82 {
        return None;
    }
    if data[45] != 1 {
        return None;
    }
    let supply_vec = bytes_range(data, 36, 44);
    Some(u64_from_le_bytes(supply_vec.as_slice()))
}

/// A token account as the pool's logic reads it.
#[derive(Debug)]
pub struct TokenAccountInfo {
    /// The mint the balance is denominated in.
    pub mint: Address,
    /// The wallet that owns the account.
    pub owner: Address,
    /// The balance, in the mint's base units.
    pub amount: u64,
}

/// Whether token account data unpacks: the record is exactly 165 bytes
/// and its state byte is not uninitialized.
pub open spec fn spec_token_account_data_ok(data: Seq<u8>) -> bool {
    &&& data.len() == 165
    &&& data[108] != 0
}

/// The fields of a token account record at their fixed offsets.
pub open spec fn spec_token_account_ok(info: TokenAccountInfo, data: Seq<u8>) -> bool {
    &&& info.mint@ == data.subrange(0, 32)
    &&& info.owner@ == data.subrange(32, 64)
    &&& info.amount == spec_u64_from_le_bytes(data.subrange(64, 72))
}

/// Parses a token account record.  Returns `None` exactly on data that
/// is not an initialized 165-byte token account record.
pub fn parse_token_account(data: &Vec<u8>) -> (r: Option<TokenAccountInfo>)
    ensures
        r is Some <==> spec_token_account_data_ok(data@),
        r matches Some(info) ==> spec_token_account_ok(info, data@) && info.mint.wf()
            && info.owner.wf(),
{
    if data.len() != 165 {
        return None;
    }
    if data[108] == 0 {
        return None;
    }
    let amount_vec = bytes_range(data, 64, 72);
    Some(
        TokenAccountInfo {
            mint: Address::new(bytes_range(data, 0, 32)),
            owner: Address::new(bytes_range(data, 32, 64)),
            amount: u64_from_le_bytes(amount_vec.as_slice()),
        },
    )
}

} // verus!
