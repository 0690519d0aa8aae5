//! Deterministic account derivation.
//!
//! Every account the pool owns is found at an address derived from the
//! validator's vote account: the pool record from the vote account, and
//! the stake account, on-ramp account, token mint and the three authorities
//! from the pool record.  The same derivations validate caller-supplied
//! accounts later: there is no other source of truth for "is this the
//! pool's real stake account".

use vstd::prelude::*;

use vstd::string::StrSliceExecFns;
use vstd::string::StringExecFns;

use crate::addr::Address;
use crate::ids::spec_stake_program_id;
use crate::ids::stake_program_id;

verus! {

/// The address that the runtime's program-derived-address search returns
/// for these seeds under this program id; the outside search is a pure
/// function of exactly these inputs.
pub uninterp spec fn spec_derived_address(seeds: Seq<Seq<u8>>, program_id: Seq<u8>) -> Seq<u8>;

/// The address the runtime assigns to an account created from a base key
/// with a textual seed under an owner program: a digest of exactly those
/// inputs.
pub uninterp spec fn spec_seeded_address(base: Seq<u8>, seed: Seq<char>, owner: Seq<u8>) -> Seq<u8>;

/// The base58 rendering of a 32-byte value.
pub uninterp spec fn spec_base58(bytes: Seq<u8>) -> Seq<char>;

/// The marker bytes, `"ProgramDerivedAddress"`, that no owner program id
/// handed to a seeded-address derivation may end with.
pub open spec fn spec_pda_marker() -> Seq<u8> {
    seq![80u8, 114, 111, 103, 114, 97, 109, 68, 101, 114, 105, 118, 101, 100, 65, 100, 100, 114, 101, 115, 115]
}

/// Relies on `Pubkey::find_program_address` of the solana-pubkey crate: the
/// bump-seed search is deterministic in the seeds and the program id, and
/// the crate documents a failed search as statistically improbable.  The
/// crate refuses 16 or more seeds and any seed over 32 bytes; the
/// preconditions rule those out.
#[verifier::external_body]
pub(crate) fn find_program_address(seeds: &Vec<Vec<u8>>, program_id: &Address) -> (r: Address)
    requires
        seeds@.len() < 16,
        forall|i: int| 0 <= i < seeds@.len() ==> #[trigger] seeds@[i]@.len() <= 32,
        program_id.wf(),
    ensures
        r@ == spec_derived_address(seeds.deep_view(), program_id@),
        r.wf(),
{
    let seed_slices: Vec<&[u8]> = seeds.iter().map(|s| s.as_slice()).collect();
    let pk = solana_pubkey::Pubkey::new_from_array(program_id.bytes.as_slice().try_into().unwrap());
    let (derived, _bump) = solana_pubkey::Pubkey::find_program_address(&seed_slices, &pk);
    Address { bytes: derived.as_ref().to_vec() }
}

/// Relies on `Pubkey::create_with_seed` of the solana-pubkey crate: the
/// result is the SHA-256 digest of base, seed and owner, a function of
/// exactly those inputs.  The crate errors on a seed over 32 bytes and on
/// an owner ending in the derived-address marker; the preconditions rule
/// both out, so the call always succeeds.
#[verifier::external_body]
fn create_with_seed(base: &Address, seed: &str, owner: &Address) -> (r: Address)
    requires
        base.wf(),
        owner.wf(),
        vstd::utf8::is_ascii_chars(seed@),
        seed@.len() <= 32,
        owner@.subrange(11, 32) != spec_pda_marker(),
    ensures
        r@ == spec_seeded_address(base@, seed@, owner@),
        r.wf(),
{
    let b = solana_pubkey::Pubkey::new_from_array(base.bytes.as_slice().try_into().unwrap());
    let o = solana_pubkey::Pubkey::new_from_array(owner.bytes.as_slice().try_into().unwrap());
    let derived = solana_pubkey::Pubkey::create_with_seed(&b, seed, &o).unwrap();
    Address { bytes: derived.as_ref().to_vec() }
}

/// Relies on the `Display` rendering of `Pubkey` in the solana-pubkey
/// crate: base58 of the 32 bytes, a function of them alone.  A 32-byte
/// value always renders to between 32 and 44 characters of the base58
/// alphabet, which is ASCII.
#[verifier::external_body]
fn address_to_base58(a: &Address) -> (r: String)
    requires
        a.wf(),
    ensures
        r@ == spec_base58(a@),
        vstd::utf8::is_ascii_chars(r@),
        32 <= r@.len() <= 44,
{
    let pk = solana_pubkey::Pubkey::new_from_array(a.bytes.as_slice().try_into().unwrap());
    pk.to_string()
}

/// The seed tag bytes `"pool"` for the pool record.
pub open spec fn spec_pool_seed() -> Seq<u8> {
    seq![112u8, 111, 111, 108]
}

/// The seed tag bytes `"stake"` for the main stake account.
pub open spec fn spec_stake_seed() -> Seq<u8> {
    seq![115u8, 116, 97, 107, 101]
}

/// The seed tag bytes `"onramp"` for the on-ramp stake account.
pub open spec fn spec_onramp_seed() -> Seq<u8> {
    seq![111u8, 110, 114, 97, 109, 112]
}

/// The seed tag bytes `"mint"` for the pool token mint.
pub open spec fn spec_mint_seed() -> Seq<u8> {
    seq![109u8, 105, 110, 116]
}

/// The seed tag bytes `"authority"` for the pool stake authority.
pub open spec fn spec_stake_authority_seed() -> Seq<u8> {
    seq![97u8, 117, 116, 104, 111, 114, 105, 116, 121]
}

/// The seed tag bytes `"mint_authority"` for the pool mint authority.
pub open spec fn spec_mint_authority_seed() -> Seq<u8> {
    seq![109u8, 105, 110, 116, 95, 97, 117, 116, 104, 111, 114, 105, 116, 121]
}

/// The seed tag bytes `"mpl_authority"` for the external-metadata
/// authority.
pub open spec fn spec_mpl_authority_seed() -> Seq<u8> {
    seq![109u8, 112, 108, 95, 97, 117, 116, 104, 111, 114, 105, 116, 121]
}

/// The seed tag bytes `"metadata"` of the external token-metadata program's
/// account scheme.
pub open spec fn spec_metadata_seed() -> Seq<u8> {
    seq![109u8, 101, 116, 97, 100, 97, 116, 97]
}

/// The pool record address for a vote account.
pub open spec fn spec_pool_address(program_id: Seq<u8>, vote_account_address: Seq<u8>) -> Seq<u8> {
    spec_derived_address(seq![spec_pool_seed(), vote_account_address], program_id)
}

/// The main stake account address for a pool.
pub open spec fn spec_pool_stake_address(program_id: Seq<u8>, pool_address: Seq<u8>) -> Seq<u8> {
    spec_derived_address(seq![spec_stake_seed(), pool_address], program_id)
}

/// The on-ramp stake account address for a pool.
pub open spec fn spec_pool_onramp_address(program_id: Seq<u8>, pool_address: Seq<u8>) -> Seq<u8> {
    spec_derived_address(seq![spec_onramp_seed(), pool_address], program_id)
}

/// The token mint address for a pool.
pub open spec fn spec_pool_mint_address(program_id: Seq<u8>, pool_address: Seq<u8>) -> Seq<u8> {
    spec_derived_address(seq![spec_mint_seed(), pool_address], program_id)
}

/// The stake authority address for a pool.
pub open spec fn spec_pool_stake_authority_address(program_id: Seq<u8>, pool_address: Seq<u8>) -> Seq<u8> {
    spec_derived_address(seq![spec_stake_authority_seed(), pool_address], program_id)
}

/// The mint authority address for a pool.
pub open spec fn spec_pool_mint_authority_address(program_id: Seq<u8>, pool_address: Seq<u8>) -> Seq<u8> {
    spec_derived_address(seq![spec_mint_authority_seed(), pool_address], program_id)
}

/// The external-metadata authority address for a pool.
pub open spec fn spec_pool_mpl_authority_address(program_id: Seq<u8>, pool_address: Seq<u8>) -> Seq<u8> {
    spec_derived_address(seq![spec_mpl_authority_seed(), pool_address], program_id)
}

/// The metadata account address the external token-metadata program keeps
/// for a mint.
pub open spec fn spec_metadata_address(mint: Seq<u8>) -> Seq<u8> {
    spec_derived_address(
        seq![spec_metadata_seed(), crate::ids::spec_mpl_token_metadata_program_id(), mint],
        crate::ids::spec_mpl_token_metadata_program_id(),
    )
}

/// Derives an address from a seed tag and a 32-byte key.
fn derive_tagged(tag: Vec<u8>, key: &Address, program_id: &Address) -> (r: Address)
    requires
        tag@.len() <= 32,
        key.wf(),
        program_id.wf(),
    ensures
        r@ == spec_derived_address(seq![tag@, key@], program_id@),
        r.wf(),
{
    let mut seeds: Vec<Vec<u8>> = Vec::new();
    let ghost tag_view = tag@;
    seeds.push(tag);
    seeds.push(key.dup().bytes);
    proof {
        assert(seeds.deep_view() =~~= seq![tag_view, key@]);
    }
    find_program_address(&seeds, program_id)
}

/// Finds the pool record address for a vote account.
pub fn find_pool_address(program_id: &Address, vote_account_address: &Address) -> (r: Address)
    requires
        program_id.wf(),
        vote_account_address.wf(),
    ensures
        r@ == spec_pool_address(program_id@, vote_account_address@),
        r.wf(),
{
    let tag: Vec<u8> = vec![112u8, 111, 111, 108];  // "pool"
    proof {
        assert(tag@ =~= spec_pool_seed());
    }
    derive_tagged(tag, vote_account_address, program_id)
}

/// Finds the main stake account address for a pool.
pub fn find_pool_stake_address(program_id: &Address, pool_address: &Address) -> (r: Address)
    requires
        program_id.wf(),
        pool_address.wf(),
    ensures
        r@ == spec_pool_stake_address(program_id@, pool_address@),
        r.wf(),
{
    let tag: Vec<u8> = vec![115u8, 116, 97, 107, 101];  // "stake"
    proof {
        assert(tag@ =~= spec_stake_seed());
    }
    derive_tagged(tag, pool_address, program_id)
}

/// Finds the on-ramp stake account address for a pool.
pub fn find_pool_onramp_address(program_id: &Address, pool_address: &Address) -> (r: Address)
    requires
        program_id.wf(),
        pool_address.wf(),
    ensures
        r@ == spec_pool_onramp_address(program_id@, pool_address@),
        r.wf(),
{
    let tag: Vec<u8> = vec![111u8, 110, 114, 97, 109, 112];  // "onramp"
    proof {
        assert(tag@ =~= spec_onramp_seed());
    }
    derive_tagged(tag, pool_address, program_id)
}

/// Finds the token mint address for a pool.
pub fn find_pool_mint_address(program_id: &Address, pool_address: &Address) -> (r: Address)
    requires
        program_id.wf(),
        pool_address.wf(),
    ensures
        r@ == spec_pool_mint_address(program_id@, pool_address@),
        r.wf(),
{
    let tag: Vec<u8> = vec![109u8, 105, 110, 116];  // "mint"
    proof {
        assert(tag@ =~= spec_mint_seed());
    }
    derive_tagged(tag, pool_address, program_id)
}

/// Finds the stake authority address for a pool.
pub fn find_pool_stake_authority_address(program_id: &Address, pool_address: &Address) -> (r: Address)
    requires
        program_id.wf(),
        pool_address.wf(),
    ensures
        r@ == spec_pool_stake_authority_address(program_id@, pool_address@),
        r.wf(),
{
    let tag: Vec<u8> = vec![97u8, 117, 116, 104, 111, 114, 105, 116, 121];  // "authority"
    proof {
        assert(tag@ =~= spec_stake_authority_seed());
    }
    derive_tagged(tag, pool_address, program_id)
}

/// Finds the mint authority address for a pool.
pub fn find_pool_mint_authority_address(program_id: &Address, pool_address: &Address) -> (r: Address)
    requires
        program_id.wf(),
        pool_address.wf(),
    ensures
        r@ == spec_pool_mint_authority_address(program_id@, pool_address@),
        r.wf(),
{
    let tag: Vec<u8> = vec![109u8, 105, 110, 116, 95, 97, 117, 116, 104, 111, 114, 105, 116, 121];  // "mint_authority"
    proof {
        assert(tag@ =~= spec_mint_authority_seed());
    }
    derive_tagged(tag, pool_address, program_id)
}

/// Finds the external-metadata authority address for a pool.
pub fn find_pool_mpl_authority_address(program_id: &Address, pool_address: &Address) -> (r: Address)
    requires
        program_id.wf(),
        pool_address.wf(),
    ensures
        r@ == spec_pool_mpl_authority_address(program_id@, pool_address@),
        r.wf(),
{
    let tag: Vec<u8> = vec![109u8, 112, 108, 95, 97, 117, 116, 104, 111, 114, 105, 116, 121];  // "mpl_authority"
    proof {
        assert(tag@ =~= spec_mpl_authority_seed());
    }
    derive_tagged(tag, pool_address, program_id)
}

/// Finds the metadata account address the external token-metadata program
/// keeps for a mint.
pub fn find_metadata_account(mint: &Address) -> (r: Address)
    requires
        mint.wf(),
    ensures
        r@ == spec_metadata_address(mint@),
        r.wf(),
{
    let mpl_id = crate::ids::mpl_token_metadata_program_id();
    let tag: Vec<u8> = vec![109u8, 101, 116, 97, 100, 97, 116, 97];  // "metadata"
    proof {
        assert(tag@ =~= spec_metadata_seed());
    }
    let mut seeds: Vec<Vec<u8>> = Vec::new();
    let ghost tag_view = tag@;
    seeds.push(tag);
    seeds.push(mpl_id.dup().bytes);
    seeds.push(mint.dup().bytes);
    proof {
        assert(seeds.deep_view() =~~= seq![
            spec_metadata_seed(),
            crate::ids::spec_mpl_token_metadata_program_id(),
            mint@,
        ]);
    }
    find_program_address(&seeds, &mpl_id)
}

/// The textual seed, `"svsp"` followed by the first 28 base58 characters of
/// the pool address, under which a wallet's default deposit account stands.
pub open spec fn spec_default_deposit_seed(pool_address: Seq<u8>) -> Seq<char> {
    seq!['s', 'v', 's', 'p'] + spec_base58(pool_address).subrange(0, 28)
}

/// The default deposit account address for a wallet and a pool.
pub open spec fn spec_default_deposit_address(pool_address: Seq<u8>, user_wallet: Seq<u8>) -> Seq<u8> {
    spec_seeded_address(
        user_wallet,
        spec_default_deposit_seed(pool_address),
        spec_stake_program_id(),
    )
}

/// Finds the default deposit account address for a wallet and a pool,
/// along with the textual seed it is created under.
pub fn find_default_deposit_account_address_and_seed(
    pool_address: &Address,
    user_wallet: &Address,
) -> (r: (Address, String))
    requires
        pool_address.wf(),
        user_wallet.wf(),
    ensures
        r.0@ == spec_default_deposit_address(pool_address@, user_wallet@),
        r.0.wf(),
        r.1@ == spec_default_deposit_seed(pool_address@),
        r.1@.len() == 32,
        vstd::utf8::is_ascii_chars(r.1@),
{
    let rendered = address_to_base58(pool_address);
    let prefix = rendered.as_str().substring_ascii(0, 28);
    let mut seed = String::from_str("svsp");
    proof {
        reveal_strlit("svsp");
    }
    seed.append(prefix);
    proof {
        assert(seed@ =~= spec_default_deposit_seed(pool_address@));
        assert(vstd::utf8::is_ascii_chars(seed@));
        // the stake program id does not end in the derived-address
        // marker: the two differ already at their first byte
        assert(spec_stake_program_id().subrange(11, 32)[0] == 189);
        assert(spec_pda_marker()[0] == 80);
    }
    let stake_program = stake_program_id();
    let address = create_with_seed(user_wallet, seed.as_str(), &stake_program);
    (address, seed)
}

/// Finds the default deposit account address for a wallet and a pool.
pub fn find_default_deposit_account_address(pool_address: &Address, user_wallet: &Address) -> (r: Address)
    requires
        pool_address.wf(),
        user_wallet.wf(),
    ensures
        r@ == spec_default_deposit_address(pool_address@, user_wallet@),
        r.wf(),
{
    let (address, _seed) = find_default_deposit_account_address_and_seed(pool_address, user_wallet);
    address
}

} // verus!
