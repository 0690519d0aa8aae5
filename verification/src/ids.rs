//! Well-known account addresses.
//!
//! Each address below is fixed by the runtime or by a deployed program and
//! is written out as its 32 raw bytes; the doc comments give the customary
//! base58 spelling.

use vstd::prelude::*;

use crate::addr::Address;

verus! {

/// The bytes of the address of the single-validator stake pool program,
/// `SVSP111111111111111111111111111111111111111`.
pub open spec fn spec_single_pool_program_id() -> Seq<u8> {
    seq![6, 135, 172, 184, 202, 35, 109, 101, 42, 134, 195, 68, 244, 109, 227, 101, 246, 180, 94, 84, 249, 57, 28, 99, 130, 74, 188, 0, 0, 0, 0, 0u8]
}

/// The address of the single-validator stake pool program.
pub fn single_pool_program_id() -> (r: Address)
    ensures
        r@ == spec_single_pool_program_id(),
        r.wf(),
{
    let bytes: Vec<u8> = vec![6, 135, 172, 184, 202, 35, 109, 101, 42, 134, 195, 68, 244, 109, 227, 101, 246, 180, 94, 84, 249, 57, 28, 99, 130, 74, 188, 0, 0, 0, 0, 0u8];
    proof {
        assert(bytes@ =~= spec_single_pool_program_id());
    }
    Address { bytes }
}

/// The bytes of the address of the system program,
/// `11111111111111111111111111111111`.
pub open spec fn spec_system_program_id() -> Seq<u8> {
    seq![0, 0, 0, 0, 0, 0, 0, 0, 0, 0, 0, 0, 0, 0, 0, 0, 0, 0, 0, 0, 0, 0, 0, 0, 0, 0, 0, 0, 0, 0, 0, 0u8]
}

/// The address of the system program.
pub fn system_program_id() -> (r: Address)
    ensures
        r@ == spec_system_program_id(),
        r.wf(),
{
    let bytes: Vec<u8> = vec![0, 0, 0, 0, 0, 0, 0, 0, 0, 0, 0, 0, 0, 0, 0, 0, 0, 0, 0, 0, 0, 0, 0, 0, 0, 0, 0, 0, 0, 0, 0, 0u8];
    proof {
        assert(bytes@ =~= spec_system_program_id());
    }
    Address { bytes }
}

/// The bytes of the address of the stake program,
/// `Stake11111111111111111111111111111111111111`.
pub open spec fn spec_stake_program_id() -> Seq<u8> {
    seq![6, 161, 216, 23, 145, 55, 84, 42, 152, 52, 55, 189, 254, 42, 122, 178, 85, 127, 83, 92, 138, 120, 114, 43, 104, 164, 157, 192, 0, 0, 0, 0u8]
}

/// The address of the stake program.
pub fn stake_program_id() -> (r: Address)
    ensures
        r@ == spec_stake_program_id(),
        r.wf(),
{
    let bytes: Vec<u8> = vec![6, 161, 216, 23, 145, 55, 84, 42, 152, 52, 55, 189, 254, 42, 122, 178, 85, 127, 83, 92, 138, 120, 114, 43, 104, 164, 157, 192, 0, 0, 0, 0u8];
    proof {
        assert(bytes@ =~= spec_stake_program_id());
    }
    Address { bytes }
}

/// The bytes of the address of the token program,
/// `TokenkegQfeZyiNwAJbNbGKPFXCWuBvf9Ss623VQ5DA`.
pub open spec fn spec_token_program_id() -> Seq<u8> {
    seq![6, 221, 246, 225, 215, 101, 161, 147, 217, 203, 225, 70, 206, 235, 121, 172, 28, 180, 133, 237, 95, 91, 55, 145, 58, 140, 245, 133, 126, 255, 0, 169u8]
}

/// The address of the token program.
pub fn token_program_id() -> (r: Address)
    ensures
        r@ == spec_token_program_id(),
        r.wf(),
{
    let bytes: Vec<u8> = vec![6, 221, 246, 225, 215, 101, 161, 147, 217, 203, 225, 70, 206, 235, 121, 172, 28, 180, 133, 237, 95, 91, 55, 145, 58, 140, 245, 133, 126, 255, 0, 169u8];
    proof {
        assert(bytes@ =~= spec_token_program_id());
    }
    Address { bytes }
}

/// The bytes of the address of the vote program,
/// `Vote111111111111111111111111111111111111111`.
pub open spec fn spec_vote_program_id() -> Seq<u8> {
    seq![7, 97, 72, 29, 53, 116, 116, 187, 124, 77, 118, 36, 235, 211, 189, 179, 216, 53, 94, 115, 209, 16, 67, 252, 13, 163, 83, 128, 0, 0, 0, 0u8]
}

/// The address of the vote program.
pub fn vote_program_id() -> (r: Address)
    ensures
        r@ == spec_vote_program_id(),
        r.wf(),
{
    let bytes: Vec<u8> = vec![7, 97, 72, 29, 53, 116, 116, 187, 124, 77, 118, 36, 235, 211, 189, 179, 216, 53, 94, 115, 209, 16, 67, 252, 13, 163, 83, 128, 0, 0, 0, 0u8];
    proof {
        assert(bytes@ =~= spec_vote_program_id());
    }
    Address { bytes }
}

/// The bytes of the address of the external token-metadata program,
/// `metaqbxxUerdq28cj1RbAWkYQm3ybzjb6a8bt518x1s`.
pub open spec fn spec_mpl_token_metadata_program_id() -> Seq<u8> {
    seq![11, 112, 101, 177, 227, 209, 124, 69, 56, 157, 82, 127, 107, 4, 195, 205, 88, 184, 108, 115, 26, 160, 253, 181, 73, 182, 209, 188, 3, 248, 41, 70u8]
}

/// The address of the external token-metadata program.
pub fn mpl_token_metadata_program_id() -> (r: Address)
    ensures
        r@ == spec_mpl_token_metadata_program_id(),
        r.wf(),
{
    let bytes: Vec<u8> = vec![11, 112, 101, 177, 227, 209, 124, 69, 56, 157, 82, 127, 107, 4, 195, 205, 88, 184, 108, 115, 26, 160, 253, 181, 73, 182, 209, 188, 3, 248, 41, 70u8];
    proof {
        assert(bytes@ =~= spec_mpl_token_metadata_program_id());
    }
    Address { bytes }
}

/// The bytes of the address of the associated token account program,
/// `ATokenGPvbdGVxr1b2hvZbsiqW5xWH25efTNsLJA8knL`.
pub open spec fn spec_associated_token_program_id() -> Seq<u8> {
    seq![140, 151, 37, 143, 78, 36, 137, 241, 187, 61, 16, 41, 20, 142, 13, 131, 11, 90, 19, 153, 218, 255, 16, 132, 4, 142, 123, 216, 219, 233, 248, 89u8]
}

/// The address of the associated token account program.
pub fn associated_token_program_id() -> (r: Address)
    ensures
        r@ == spec_associated_token_program_id(),
        r.wf(),
{
    let bytes: Vec<u8> = vec![140, 151, 37, 143, 78, 36, 137, 241, 187, 61, 16, 41, 20, 142, 13, 131, 11, 90, 19, 153, 218, 255, 16, 132, 4, 142, 123, 216, 219, 233, 248, 89u8];
    proof {
        assert(bytes@ =~= spec_associated_token_program_id());
    }
    Address { bytes }
}

/// The bytes of the address of the rent sysvar,
/// `SysvarRent111111111111111111111111111111111`.
pub open spec fn spec_rent_sysvar_id() -> Seq<u8> {
    seq![6, 167, 213, 23, 25, 44, 92, 81, 33, 140, 201, 76, 61, 74, 241, 127, 88, 218, 238, 8, 155, 161, 253, 68, 227, 219, 217, 138, 0, 0, 0, 0u8]
}

/// The address of the rent sysvar.
pub fn rent_sysvar_id() -> (r: Address)
    ensures
        r@ == spec_rent_sysvar_id(),
        r.wf(),
{
    let bytes: Vec<u8> = vec![6, 167, 213, 23, 25, 44, 92, 81, 33, 140, 201, 76, 61, 74, 241, 127, 88, 218, 238, 8, 155, 161, 253, 68, 227, 219, 217, 138, 0, 0, 0, 0u8];
    proof {
        assert(bytes@ =~= spec_rent_sysvar_id());
    }
    Address { bytes }
}

/// The bytes of the address of the clock sysvar,
/// `SysvarC1ock11111111111111111111111111111111`.
pub open spec fn spec_clock_sysvar_id() -> Seq<u8> {
    seq![6, 167, 213, 23, 24, 199, 116, 201, 40, 86, 99, 152, 105, 29, 94, 182, 139, 94, 184, 163, 155, 75, 109, 92, 115, 85, 91, 33, 0, 0, 0, 0u8]
}

/// The address of the clock sysvar.
pub fn clock_sysvar_id() -> (r: Address)
    ensures
        r@ == spec_clock_sysvar_id(),
        r.wf(),
{
    let bytes: Vec<u8> = vec![6, 167, 213, 23, 24, 199, 116, 201, 40, 86, 99, 152, 105, 29, 94, 182, 139, 94, 184, 163, 155, 75, 109, 92, 115, 85, 91, 33, 0, 0, 0, 0u8];
    proof {
        assert(bytes@ =~= spec_clock_sysvar_id());
    }
    Address { bytes }
}

/// The bytes of the address of the stake history sysvar,
/// `SysvarStakeHistory1111111111111111111111111`.
pub open spec fn spec_stake_history_sysvar_id() -> Seq<u8> {
    seq![6, 167, 213, 23, 25, 53, 132, 208, 254, 237, 155, 179, 67, 29, 19, 32, 107, 229, 68, 40, 27, 87, 184, 86, 108, 197, 55, 95, 244, 0, 0, 0u8]
}

/// The address of the stake history sysvar.
pub fn stake_history_sysvar_id() -> (r: Address)
    ensures
        r@ == spec_stake_history_sysvar_id(),
        r.wf(),
{
    let bytes: Vec<u8> = vec![6, 167, 213, 23, 25, 53, 132, 208, 254, 237, 155, 179, 67, 29, 19, 32, 107, 229, 68, 40, 27, 87, 184, 86, 108, 197, 55, 95, 244, 0, 0, 0u8];
    proof {
        assert(bytes@ =~= spec_stake_history_sysvar_id());
    }
    Address { bytes }
}

/// The bytes of the address of the legacy stake config account,
/// `StakeConfig11111111111111111111111111111111`.
pub open spec fn spec_stake_config_id() -> Seq<u8> {
    seq![6, 161, 216, 23, 165, 2, 5, 11, 104, 7, 145, 230, 206, 109, 184, 142, 30, 91, 113, 80, 246, 31, 198, 121, 10, 78, 180, 209, 0, 0, 0, 0u8]
}

/// The address of the legacy stake config account.
pub fn stake_config_id() -> (r: Address)
    ensures
        r@ == spec_stake_config_id(),
        r.wf(),
{
    let bytes: Vec<u8> = vec![6, 161, 216, 23, 165, 2, 5, 11, 104, 7, 145, 230, 206, 109, 184, 142, 30, 91, 113, 80, 246, 31, 198, 121, 10, 78, 180, 209, 0, 0, 0, 0u8];
    proof {
        assert(bytes@ =~= spec_stake_config_id());
    }
    Address { bytes }
}

} // verus!
