//! Instructions addressed to the collaborating programs.
//!
//! The pool composes its flows out of calls to the system, stake, token
//! and associated-token programs.  Each builder here states the exact
//! account list and the exact wire bytes of the instruction it produces,
//! following those programs' documented instruction contracts.

use vstd::prelude::*;

use vstd::bytes::spec_u32_to_le_bytes;
use vstd::bytes::spec_u64_to_le_bytes;
use vstd::bytes::u32_to_le_bytes;
use vstd::bytes::u64_to_le_bytes;
use vstd::string::StrSliceExecFns;
use vstd::utf8::encode_utf8;

use crate::addr::push_bytes;
use crate::addr::Address;
use crate::derivation::spec_derived_address;
use crate::ids;
use crate::instruction::spec_meta;
use crate::instruction::AccountMeta;
use crate::instruction::Instruction;
use crate::instruction::InstructionView;

verus! {

/// Whether an authorization change concerns the staker or the withdrawer
/// authority.
#[derive(Clone, Copy, Debug, PartialEq, Eq, Structural)]
pub enum StakeAuthorizeKind {
    /// The authority that signs delegation changes.
    Staker,
    /// The authority that signs withdrawals.
    Withdrawer,
}

/// The wire tag of an authorization kind.
pub open spec fn spec_stake_authorize_tag(kind: StakeAuthorizeKind) -> u32 {
    match kind {
        StakeAuthorizeKind::Staker => 0,
        StakeAuthorizeKind::Withdrawer => 1,
    }
}

/// The size in bytes of a stake account's state, fixed by the stake
/// program.
pub open spec fn spec_stake_space() -> int {
    200
}

/// The wire bytes of a system-program transfer.
pub open spec fn spec_system_transfer_data(lamports: u64) -> Seq<u8> {
    seq![2u8, 0, 0, 0] + spec_u64_to_le_bytes(lamports)
}

/// The wire bytes of a system-program account creation.
pub open spec fn spec_system_create_account_data(lamports: u64, space: u64, owner: Seq<u8>) -> Seq<u8> {
    seq![0u8, 0, 0, 0] + spec_u64_to_le_bytes(lamports) + spec_u64_to_le_bytes(space) + owner
}

/// The wire bytes of a system-program seeded account creation; the seed
/// travels with an eight-byte length prefix.
pub open spec fn spec_system_create_account_with_seed_data(
    base: Seq<u8>,
    seed: Seq<char>,
    lamports: u64,
    space: u64,
    owner: Seq<u8>,
) -> Seq<u8> {
    seq![3u8, 0, 0, 0] + base + spec_u64_to_le_bytes(encode_utf8(seed).len() as u64) + encode_utf8(
        seed,
    ) + spec_u64_to_le_bytes(lamports) + spec_u64_to_le_bytes(space) + owner
}

/// The wire bytes of a stake-program initialization with both authorities
/// set and no lockup.
pub open spec fn spec_stake_initialize_data(staker: Seq<u8>, withdrawer: Seq<u8>) -> Seq<u8> {
    seq![0u8, 0, 0, 0] + staker + withdrawer + Seq::new(48, |i: int| 0u8)
}

/// The wire bytes of a stake-program authorization change.
pub open spec fn spec_stake_authorize_data(new_authorized: Seq<u8>, kind: StakeAuthorizeKind) -> Seq<u8> {
    seq![1u8, 0, 0, 0] + new_authorized + spec_u32_to_le_bytes(spec_stake_authorize_tag(kind))
}

/// The wire bytes of a stake-program delegation.
pub open spec fn spec_stake_delegate_data() -> Seq<u8> {
    seq![2u8, 0, 0, 0]
}

/// The wire bytes of a stake-program deactivation.
pub open spec fn spec_stake_deactivate_data() -> Seq<u8> {
    seq![5u8, 0, 0, 0]
}

/// The wire bytes of a token-program delegate approval.
pub open spec fn spec_token_approve_data(amount: u64) -> Seq<u8> {
    seq![4u8] + spec_u64_to_le_bytes(amount)
}

/// The associated token account of a wallet for a mint under the standard
/// token program.
pub open spec fn spec_associated_token_address(wallet: Seq<u8>, mint: Seq<u8>) -> Seq<u8> {
    spec_derived_address(
        seq![wallet, ids::spec_token_program_id(), mint],
        ids::spec_associated_token_program_id(),
    )
}

/// The exact instruction of a system-program transfer.
pub open spec fn spec_transfer(from: Seq<u8>, to: Seq<u8>, lamports: u64) -> InstructionView {
    InstructionView {
        program_id: ids::spec_system_program_id(),
        accounts: seq![spec_meta(from, true, true), spec_meta(to, false, true)],
        data: spec_system_transfer_data(lamports),
    }
}

/// Builds a system-program transfer of `lamports` from `from` to `to`.
pub fn transfer(from: &Address, to: &Address, lamports: u64) -> (r: Instruction)
    ensures
        r@ == spec_transfer(from@, to@, lamports),
{
    let mut data: Vec<u8> = Vec::new();
    data.push(2u8);
    data.push(0u8);
    data.push(0u8);
    data.push(0u8);
    let lamports_bytes = u64_to_le_bytes(lamports);
    push_bytes(&mut data, &lamports_bytes);
    proof {
        assert(data@ =~= spec_system_transfer_data(lamports));
    }
    let mut accounts: Vec<AccountMeta> = Vec::new();
    accounts.push(AccountMeta::new(from.dup(), true));
    accounts.push(AccountMeta::new(to.dup(), false));
    let r = Instruction { program_id: ids::system_program_id(), accounts, data };
    proof {
        assert(r@.accounts =~= spec_transfer(from@, to@, lamports).accounts);
    }
    r
}

/// The exact instruction of a system-program account creation.
pub open spec fn spec_create_account(
    from: Seq<u8>,
    to: Seq<u8>,
    lamports: u64,
    space: u64,
    owner: Seq<u8>,
) -> InstructionView {
    InstructionView {
        program_id: ids::spec_system_program_id(),
        accounts: seq![spec_meta(from, true, true), spec_meta(to, true, true)],
        data: spec_system_create_account_data(lamports, space, owner),
    }
}

/// Builds a system-program creation of `to`, funded by `from`, with the
/// given size and owner.
pub fn create_account(from: &Address, to: &Address, lamports: u64, space: u64, owner: &Address) -> (r:
    Instruction)
    ensures
        r@ == spec_create_account(from@, to@, lamports, space, owner@),
{
    let mut data: Vec<u8> = Vec::new();
    data.push(0u8);
    data.push(0u8);
    data.push(0u8);
    data.push(0u8);
    let lamports_bytes = u64_to_le_bytes(lamports);
    push_bytes(&mut data, &lamports_bytes);
    let space_bytes = u64_to_le_bytes(space);
    push_bytes(&mut data, &space_bytes);
    push_bytes(&mut data, &owner.bytes);
    proof {
        assert(data@ =~= spec_system_create_account_data(lamports, space, owner@));
    }
    let mut accounts: Vec<AccountMeta> = Vec::new();
    accounts.push(AccountMeta::new(from.dup(), true));
    accounts.push(AccountMeta::new(to.dup(), true));
    let r = Instruction { program_id: ids::system_program_id(), accounts, data };
    proof {
        assert(r@.accounts =~= spec_create_account(from@, to@, lamports, space, owner@).accounts);
    }
    r
}

/// The exact instruction of a system-program seeded account creation,
/// with a base distinct from the funding account.
pub open spec fn spec_create_account_with_seed(
    from: Seq<u8>,
    to: Seq<u8>,
    base: Seq<u8>,
    seed: Seq<char>,
    lamports: u64,
    space: u64,
    owner: Seq<u8>,
) -> InstructionView {
    InstructionView {
        program_id: ids::spec_system_program_id(),
        accounts: if base == from {
            seq![spec_meta(from, true, true), spec_meta(to, false, true)]
        } else {
            seq![
                spec_meta(from, true, true),
                spec_meta(to, false, true),
                spec_meta(base, true, false),
            ]
        },
        data: spec_system_create_account_with_seed_data(base, seed, lamports, space, owner),
    }
}

/// Builds a system-program creation of the account at
/// `create_with_seed(base, seed, owner)`, funded by `from`.
pub fn create_account_with_seed(
    from: &Address,
    to: &Address,
    base: &Address,
    seed: &str,
    lamports: u64,
    space: u64,
    owner: &Address,
) -> (r: Instruction)
    requires
        encode_utf8(seed@).len() <= u32::MAX,
    ensures
        r@ == spec_create_account_with_seed(from@, to@, base@, seed@, lamports, space, owner@),
{
    let mut data: Vec<u8> = Vec::new();
    data.push(3u8);
    data.push(0u8);
    data.push(0u8);
    data.push(0u8);
    push_bytes(&mut data, &base.bytes);
    let seed_bytes = seed.as_bytes_vec();
    let seed_len_bytes = u64_to_le_bytes(seed_bytes.len() as u64);
    push_bytes(&mut data, &seed_len_bytes);
    push_bytes(&mut data, &seed_bytes);
    let lamports_bytes = u64_to_le_bytes(lamports);
    push_bytes(&mut data, &lamports_bytes);
    let space_bytes = u64_to_le_bytes(space);
    push_bytes(&mut data, &space_bytes);
    push_bytes(&mut data, &owner.bytes);
    proof {
        assert(data@ =~= spec_system_create_account_with_seed_data(
            base@,
            seed@,
            lamports,
            space,
            owner@,
        ));
    }
    let mut accounts: Vec<AccountMeta> = Vec::new();
    accounts.push(AccountMeta::new(from.dup(), true));
    accounts.push(AccountMeta::new(to.dup(), false));
    if !base.equals(from) {
        accounts.push(AccountMeta::new_readonly(base.dup(), true));
    }
    let r = Instruction { program_id: ids::system_program_id(), accounts, data };
    proof {
        assert(r@.accounts =~= spec_create_account_with_seed(
            from@,
            to@,
            base@,
            seed@,
            lamports,
            space,
            owner@,
        ).accounts);
    }
    r
}

/// The exact instruction of a stake-program initialization with staker
/// and withdrawer both set to `authority` and no lockup.
pub open spec fn spec_stake_initialize(stake: Seq<u8>, authority: Seq<u8>) -> InstructionView {
    InstructionView {
        program_id: ids::spec_stake_program_id(),
        accounts: seq![
            spec_meta(stake, false, true),
            spec_meta(ids::spec_rent_sysvar_id(), false, false),
        ],
        data: spec_stake_initialize_data(authority, authority),
    }
}

/// Builds a stake-program initialization of `stake` with both authorities
/// set to `authority` and no lockup.
pub fn stake_initialize(stake: &Address, authority: &Address) -> (r: Instruction)
    ensures
        r@ == spec_stake_initialize(stake@, authority@),
{
    let mut data: Vec<u8> = Vec::new();
    data.push(0u8);
    data.push(0u8);
    data.push(0u8);
    data.push(0u8);
    push_bytes(&mut data, &authority.bytes);
    push_bytes(&mut data, &authority.bytes);
    let mut i: usize = 0;
    while i < 48
        invariant
            i <= 48,
            data@ == seq![0u8, 0, 0, 0] + authority@ + authority@ + Seq::new(i as nat, |j: int| 0u8),
        decreases 48 - i,
    {
        data.push(0u8);
        proof {
            assert(seq![0u8, 0, 0, 0] + authority@ + authority@ + Seq::new(i as nat, |j: int| 0u8)
                + seq![0u8] =~= seq![0u8, 0, 0, 0] + authority@ + authority@ + Seq::new(
                (i + 1) as nat,
                |j: int| 0u8,
            ));
        }
        i += 1;
    }
    proof {
        assert(data@ =~= spec_stake_initialize_data(authority@, authority@));
    }
    let mut accounts: Vec<AccountMeta> = Vec::new();
    accounts.push(AccountMeta::new(stake.dup(), false));
    accounts.push(AccountMeta::new_readonly(ids::rent_sysvar_id(), false));
    let r = Instruction { program_id: ids::stake_program_id(), accounts, data };
    proof {
        assert(r@.accounts =~= spec_stake_initialize(stake@, authority@).accounts);
    }
    r
}

/// The exact instruction of a stake-program authorization change with no
/// lockup custodian.
pub open spec fn spec_stake_authorize(
    stake: Seq<u8>,
    authorized: Seq<u8>,
    new_authorized: Seq<u8>,
    kind: StakeAuthorizeKind,
) -> InstructionView {
    InstructionView {
        program_id: ids::spec_stake_program_id(),
        accounts: seq![
            spec_meta(stake, false, true),
            spec_meta(ids::spec_clock_sysvar_id(), false, false),
            spec_meta(authorized, true, false),
        ],
        data: spec_stake_authorize_data(new_authorized, kind),
    }
}

/// Builds a stake-program change of one of `stake`'s authorities to
/// `new_authorized`, signed by the current `authorized`.
pub fn stake_authorize(
    stake: &Address,
    authorized: &Address,
    new_authorized: &Address,
    kind: StakeAuthorizeKind,
) -> (r: Instruction)
    ensures
        r@ == spec_stake_authorize(stake@, authorized@, new_authorized@, kind),
{
    let mut data: Vec<u8> = Vec::new();
    data.push(1u8);
    data.push(0u8);
    data.push(0u8);
    data.push(0u8);
    push_bytes(&mut data, &new_authorized.bytes);
    let tag: u32 = match kind {
        StakeAuthorizeKind::Staker => 0,
        StakeAuthorizeKind::Withdrawer => 1,
    };
    let tag_bytes = u32_to_le_bytes(tag);
    push_bytes(&mut data, &tag_bytes);
    proof {
        assert(data@ =~= spec_stake_authorize_data(new_authorized@, kind));
    }
    let mut accounts: Vec<AccountMeta> = Vec::new();
    accounts.push(AccountMeta::new(stake.dup(), false));
    accounts.push(AccountMeta::new_readonly(ids::clock_sysvar_id(), false));
    accounts.push(AccountMeta::new_readonly(authorized.dup(), true));
    let r = Instruction { program_id: ids::stake_program_id(), accounts, data };
    proof {
        assert(r@.accounts =~= spec_stake_authorize(stake@, authorized@, new_authorized@, kind)
            .accounts);
    }
    r
}

/// The exact instruction of a stake-program delegation.
pub open spec fn spec_stake_delegate(stake: Seq<u8>, authorized: Seq<u8>, vote: Seq<u8>) -> InstructionView {
    InstructionView {
        program_id: ids::spec_stake_program_id(),
        accounts: seq![
            spec_meta(stake, false, true),
            spec_meta(vote, false, false),
            spec_meta(ids::spec_clock_sysvar_id(), false, false),
            spec_meta(ids::spec_stake_history_sysvar_id(), false, false),
            spec_meta(ids::spec_stake_config_id(), false, false),
            spec_meta(authorized, true, false),
        ],
        data: spec_stake_delegate_data(),
    }
}

/// Builds a stake-program delegation of `stake` to `vote`, signed by its
/// staker authority.
pub fn stake_delegate(stake: &Address, authorized: &Address, vote: &Address) -> (r: Instruction)
    ensures
        r@ == spec_stake_delegate(stake@, authorized@, vote@),
{
    let data: Vec<u8> = vec![2u8, 0, 0, 0];
    proof {
        assert(data@ =~= spec_stake_delegate_data());
    }
    let mut accounts: Vec<AccountMeta> = Vec::new();
    accounts.push(AccountMeta::new(stake.dup(), false));
    accounts.push(AccountMeta::new_readonly(vote.dup(), false));
    accounts.push(AccountMeta::new_readonly(ids::clock_sysvar_id(), false));
    accounts.push(AccountMeta::new_readonly(ids::stake_history_sysvar_id(), false));
    accounts.push(AccountMeta::new_readonly(ids::stake_config_id(), false));
    accounts.push(AccountMeta::new_readonly(authorized.dup(), true));
    let r = Instruction { program_id: ids::stake_program_id(), accounts, data };
    proof {
        assert(r@.accounts =~= spec_stake_delegate(stake@, authorized@, vote@).accounts);
    }
    r
}

/// The exact instruction of a stake-program deactivation.
pub open spec fn spec_stake_deactivate(stake: Seq<u8>, authorized: Seq<u8>) -> InstructionView {
    InstructionView {
        program_id: ids::spec_stake_program_id(),
        accounts: seq![
            spec_meta(stake, false, true),
            spec_meta(ids::spec_clock_sysvar_id(), false, false),
            spec_meta(authorized, true, false),
        ],
        data: spec_stake_deactivate_data(),
    }
}

/// Builds a stake-program deactivation of `stake`, signed by its staker
/// authority.
pub fn stake_deactivate(stake: &Address, authorized: &Address) -> (r: Instruction)
    ensures
        r@ == spec_stake_deactivate(stake@, authorized@),
{
    let data: Vec<u8> = vec![5u8, 0, 0, 0];
    proof {
        assert(data@ =~= spec_stake_deactivate_data());
    }
    let mut accounts: Vec<AccountMeta> = Vec::new();
    accounts.push(AccountMeta::new(stake.dup(), false));
    accounts.push(AccountMeta::new_readonly(ids::clock_sysvar_id(), false));
    accounts.push(AccountMeta::new_readonly(authorized.dup(), true));
    let r = Instruction { program_id: ids::stake_program_id(), accounts, data };
    proof {
        assert(r@.accounts =~= spec_stake_deactivate(stake@, authorized@).accounts);
    }
    r
}

/// The exact instruction of a token-program delegate approval with a
/// single owner and no multisig signers.
pub open spec fn spec_token_approve(
    source: Seq<u8>,
    delegate: Seq<u8>,
    owner: Seq<u8>,
    amount: u64,
) -> InstructionView {
    InstructionView {
        program_id: ids::spec_token_program_id(),
        accounts: seq![
            spec_meta(source, false, true),
            spec_meta(delegate, false, false),
            spec_meta(owner, true, false),
        ],
        data: spec_token_approve_data(amount),
    }
}

/// Builds a token-program approval letting `delegate` move up to
/// `amount` tokens from `source`, signed by its `owner`.
pub fn token_approve(source: &Address, delegate: &Address, owner: &Address, amount: u64) -> (r:
    Instruction)
    ensures
        r@ == spec_token_approve(source@, delegate@, owner@, amount),
{
    let mut data: Vec<u8> = Vec::new();
    data.push(4u8);
    let amount_bytes = u64_to_le_bytes(amount);
    push_bytes(&mut data, &amount_bytes);
    proof {
        assert(data@ =~= spec_token_approve_data(amount));
    }
    let mut accounts: Vec<AccountMeta> = Vec::new();
    accounts.push(AccountMeta::new(source.dup(), false));
    accounts.push(AccountMeta::new_readonly(delegate.dup(), false));
    accounts.push(AccountMeta::new_readonly(owner.dup(), true));
    let r = Instruction { program_id: ids::token_program_id(), accounts, data };
    proof {
        assert(r@.accounts =~= spec_token_approve(source@, delegate@, owner@, amount).accounts);
    }
    r
}

/// Finds the associated token account of a wallet for a mint under the
/// standard token program.
pub fn get_associated_token_address(wallet: &Address, mint: &Address) -> (r: Address)
    requires
        wallet.wf(),
        mint.wf(),
    ensures
        r@ == spec_associated_token_address(wallet@, mint@),
        r.wf(),
{
    let token_program = ids::token_program_id();
    let atoken_program = ids::associated_token_program_id();
    let mut seeds: Vec<Vec<u8>> = Vec::new();
    seeds.push(wallet.dup().bytes);
    seeds.push(token_program.bytes);
    seeds.push(mint.dup().bytes);
    proof {
        assert(seeds.deep_view() =~~= seq![wallet@, ids::spec_token_program_id(), mint@]);
    }
    crate::derivation::find_program_address(&seeds, &atoken_program)
}

/// The exact instruction asking the associated-token program to create a
/// wallet's associated account for a mint.
pub open spec fn spec_create_associated_token_account(
    funding: Seq<u8>,
    wallet: Seq<u8>,
    mint: Seq<u8>,
) -> InstructionView {
    InstructionView {
        program_id: ids::spec_associated_token_program_id(),
        accounts: seq![
            spec_meta(funding, true, true),
            spec_meta(spec_associated_token_address(wallet, mint), false, true),
            spec_meta(wallet, false, false),
            spec_meta(mint, false, false),
            spec_meta(ids::spec_system_program_id(), false, false),
            spec_meta(ids::spec_token_program_id(), false, false),
        ],
        data: seq![0u8],
    }
}

/// Builds the associated-token program's creation of `wallet`'s
/// associated account for `mint`, funded by `funding`.
pub fn create_associated_token_account(funding: &Address, wallet: &Address, mint: &Address) -> (r:
    Instruction)
    requires
        wallet.wf(),
        mint.wf(),
    ensures
        r@ == spec_create_associated_token_account(funding@, wallet@, mint@),
{
    let ata = get_associated_token_address(wallet, mint);
    let data: Vec<u8> = vec![0u8];
    proof {
        assert(data@ =~= seq![0u8]);
    }
    let mut accounts: Vec<AccountMeta> = Vec::new();
    accounts.push(AccountMeta::new(funding.dup(), true));
    accounts.push(AccountMeta::new(ata, false));
    accounts.push(AccountMeta::new_readonly(wallet.dup(), false));
    accounts.push(AccountMeta::new_readonly(mint.dup(), false));
    accounts.push(AccountMeta::new_readonly(ids::system_program_id(), false));
    accounts.push(AccountMeta::new_readonly(ids::token_program_id(), false));
    let r = Instruction { program_id: ids::associated_token_program_id(), accounts, data };
    proof {
        assert(r@.accounts =~= spec_create_associated_token_account(funding@, wallet@, mint@)
            .accounts);
    }
    r
}

} // verus!
