//! Instruction types and builders.
//!
//! An instruction is plain data: the program to call, an ordered,
//! order-significant account list, and a data payload in the program's
//! wire format.  The wire format is a tagged union: a discriminant byte
//! followed by fixed-width or length-prefixed fields.  Major addresses
//! appear in a consistent relative order across every instruction that
//! references them.

use vstd::prelude::*;

use vstd::bytes::lemma_auto_spec_u32_to_from_le_bytes;
use vstd::bytes::lemma_auto_spec_u64_to_from_le_bytes;
use vstd::bytes::spec_u32_from_le_bytes;
use vstd::bytes::spec_u32_to_le_bytes;
use vstd::bytes::spec_u64_to_le_bytes;
use vstd::bytes::u32_from_le_bytes;
use vstd::bytes::u32_to_le_bytes;
use vstd::bytes::u64_from_le_bytes;
use vstd::bytes::u64_to_le_bytes;
use vstd::string::StrSliceExecFns;
use vstd::utf8::encode_utf8;
use vstd::utf8::valid_utf8;

use crate::addr::bytes_range;
use crate::addr::push_bytes;
use crate::addr::Address;
use crate::derivation::spec_metadata_address;
use crate::derivation::spec_pool_address;
use crate::derivation::spec_pool_mint_address;
use crate::derivation::spec_pool_mint_authority_address;
use crate::derivation::spec_pool_mpl_authority_address;
use crate::derivation::spec_pool_onramp_address;
use crate::derivation::spec_pool_stake_address;
use crate::derivation::spec_pool_stake_authority_address;
use crate::derivation::find_metadata_account;
use crate::derivation::find_pool_address;
use crate::derivation::find_pool_mint_address;
use crate::derivation::find_pool_mint_authority_address;
use crate::derivation::find_pool_mpl_authority_address;
use crate::derivation::find_pool_onramp_address;
use crate::derivation::find_pool_stake_address;
use crate::derivation::find_pool_stake_authority_address;
use crate::ids;

verus! {

/// What a caller sees of one entry in an instruction's account list.
pub ghost struct AccountMetaView {
    /// The account's address.
    pub pubkey: Seq<u8>,
    /// Whether the account must sign the call.
    pub is_signer: bool,
    /// Whether the call may mutate the account.
    pub is_writable: bool,
}

/// An account list entry.
pub open spec fn spec_meta(pubkey: Seq<u8>, is_signer: bool, is_writable: bool) -> AccountMetaView {
    AccountMetaView { pubkey, is_signer, is_writable }
}

/// One entry in an instruction's ordered account list.
#[derive(Debug)]
pub struct AccountMeta {
    /// The account's address.
    pub pubkey: Address,
    /// Whether the account must sign the call.
    pub is_signer: bool,
    /// Whether the call may mutate the account.
    pub is_writable: bool,
}

impl View for AccountMeta {
    type V = AccountMetaView;

    open spec fn view(&self) -> AccountMetaView {
        AccountMetaView {
            pubkey: self.pubkey@,
            is_signer: self.is_signer,
            is_writable: self.is_writable,
        }
    }
}

impl AccountMeta {
    /// A writable account list entry.
    pub fn new(pubkey: Address, is_signer: bool) -> (r: AccountMeta)
        ensures
            r@ == spec_meta(pubkey@, is_signer, true),
    {
        AccountMeta { pubkey, is_signer, is_writable: true }
    }

    /// A read-only account list entry.
    pub fn new_readonly(pubkey: Address, is_signer: bool) -> (r: AccountMeta)
        ensures
            r@ == spec_meta(pubkey@, is_signer, false),
    {
        AccountMeta { pubkey, is_signer, is_writable: false }
    }
}

/// What a caller sees of a whole instruction.
pub ghost struct InstructionView {
    /// The program called.
    pub program_id: Seq<u8>,
    /// The ordered account list.
    pub accounts: Seq<AccountMetaView>,
    /// The data payload.
    pub data: Seq<u8>,
}

/// A complete instruction: the program to call, its ordered account list,
/// and its data payload.
#[derive(Debug)]
pub struct Instruction {
    /// The program called.
    pub program_id: Address,
    /// The ordered account list.
    pub accounts: Vec<AccountMeta>,
    /// The data payload.
    pub data: Vec<u8>,
}

impl View for Instruction {
    type V = InstructionView;

    open spec fn view(&self) -> InstructionView {
        InstructionView {
            program_id: self.program_id@,
            accounts: Seq::new(self.accounts@.len(), |i: int| self.accounts@[i]@),
            data: self.data@,
        }
    }
}

/// Instructions supported by the single-validator stake pool program.
#[derive(Debug)]
pub enum SinglePoolInstruction {
    /// Initialize the mint and main stake account for a new pool.
    InitializePool,
    /// Bring the pool stake accounts to their optimal state.
    ReplenishPool,
    /// Deposit stake into the pool in exchange for pool tokens.
    DepositStake,
    /// Redeem tokens issued by this pool for stake at the current ratio.
    WithdrawStake {
        /// User authority for the new stake account.
        user_stake_authority: Address,
        /// Amount of tokens to redeem for stake.
        token_amount: u64,
    },
    /// Create token metadata for the pool token in the external
    /// token-metadata program.
    CreateTokenMetadata,
    /// Update token metadata for the pool token.
    UpdateTokenMetadata {
        /// Token name.
        name: String,
        /// Token symbol.
        symbol: String,
        /// URI of the token's uploaded metadata.
        uri: String,
    },
    /// Create the on-ramp account for an existing pool.
    InitializePoolOnRamp,
}

/// A length-prefixed string segment of the wire format: the byte length
/// as four little-endian bytes, then the bytes.
pub open spec fn spec_string_segment(s: Seq<char>) -> Seq<u8> {
    spec_u32_to_le_bytes(encode_utf8(s).len() as u32) + encode_utf8(s)
}

impl SinglePoolInstruction {
    /// Serializability: every address is 32 bytes and every string fits
    /// its four-byte length prefix.
    pub open spec fn wf(self) -> bool {
        match self {
            SinglePoolInstruction::WithdrawStake { user_stake_authority, .. } => user_stake_authority.wf(),
            SinglePoolInstruction::UpdateTokenMetadata { name, symbol, uri } => {
                &&& encode_utf8(name@).len() <= u32::MAX
                &&& encode_utf8(symbol@).len() <= u32::MAX
                &&& encode_utf8(uri@).len() <= u32::MAX
            },
            _ => true,
        }
    }

    /// The exact wire bytes of this instruction.
    pub open spec fn spec_serialized(self) -> Seq<u8> {
        match self {
            SinglePoolInstruction::InitializePool => seq![0u8],
            SinglePoolInstruction::ReplenishPool => seq![1u8],
            SinglePoolInstruction::DepositStake => seq![2u8],
            SinglePoolInstruction::WithdrawStake { user_stake_authority, token_amount } => seq![3u8]
                + user_stake_authority@ + spec_u64_to_le_bytes(token_amount),
            SinglePoolInstruction::CreateTokenMetadata => seq![4u8],
            SinglePoolInstruction::UpdateTokenMetadata { name, symbol, uri } => seq![5u8]
                + spec_string_segment(name@) + spec_string_segment(symbol@) + spec_string_segment(
                uri@,
            ),
            SinglePoolInstruction::InitializePoolOnRamp => seq![6u8],
        }
    }

    /// Serializes this instruction to its exact wire bytes.
    pub fn serialize(&self) -> (r: Vec<u8>)
        requires
            self.wf(),
        ensures
            r@ == self.spec_serialized(),
    {
        let mut r: Vec<u8> = Vec::new();
        match self {
            SinglePoolInstruction::InitializePool => {
                r.push(0u8);
                proof {
                    assert(r@ =~= self.spec_serialized());
                }
            },
            SinglePoolInstruction::ReplenishPool => {
                r.push(1u8);
                proof {
                    assert(r@ =~= self.spec_serialized());
                }
            },
            SinglePoolInstruction::DepositStake => {
                r.push(2u8);
                proof {
                    assert(r@ =~= self.spec_serialized());
                }
            },
            SinglePoolInstruction::WithdrawStake { user_stake_authority, token_amount } => {
                r.push(3u8);
                push_bytes(&mut r, &user_stake_authority.bytes);
                let amount_bytes = u64_to_le_bytes(*token_amount);
                push_bytes(&mut r, &amount_bytes);
                proof {
                    assert(r@ =~= self.spec_serialized());
                }
            },
            SinglePoolInstruction::CreateTokenMetadata => {
                r.push(4u8);
                proof {
                    assert(r@ =~= self.spec_serialized());
                }
            },
            SinglePoolInstruction::UpdateTokenMetadata { name, symbol, uri } => {
                r.push(5u8);
                push_string_segment(&mut r, name.as_str());
                push_string_segment(&mut r, symbol.as_str());
                push_string_segment(&mut r, uri.as_str());
                proof {
                    assert(r@ =~= self.spec_serialized());
                }
            },
            SinglePoolInstruction::InitializePoolOnRamp => {
                r.push(6u8);
                proof {
                    assert(r@ =~= self.spec_serialized());
                }
            },
        }
        r
    }
}

/// Appends a length-prefixed string segment to `out`.
fn push_string_segment(out: &mut Vec<u8>, s: &str)
    requires
        encode_utf8(s@).len() <= u32::MAX,
    ensures
        final(out)@ == old(out)@ + spec_string_segment(s@),
{
    let bytes = s.as_bytes_vec();
    let len_bytes = u32_to_le_bytes(bytes.len() as u32);
    push_bytes(out, &len_bytes);
    push_bytes(out, &bytes);
    proof {
        assert(final(out)@ =~= old(out)@ + spec_string_segment(s@));
    }
}

/// Relies on `String::from_utf8` of std: it returns the string that views
/// exactly these bytes when they are valid UTF-8, and refuses them
/// otherwise.
#[verifier::external_body]
fn string_from_utf8(bytes: Vec<u8>) -> (r: Option<String>)
    ensures
        r is Some <==> valid_utf8(bytes@),
        r matches Some(s) ==> encode_utf8(s@) == bytes@,
{
    match String::from_utf8(bytes) {
        Ok(s) => Some(s),
        Err(_) => None,
    }
}

/// Whether a length-prefixed string segment of valid UTF-8 starts at
/// `pos`, and where it ends.
pub open spec fn spec_segment_end(data: Seq<u8>, pos: int) -> int {
    if pos + 4 <= data.len() {
        let n = spec_u32_from_le_bytes(data.subrange(pos, pos + 4)) as int;
        if pos + 4 + n <= data.len() {
            pos + 4 + n
        } else {
            -1
        }
    } else {
        -1
    }
}

/// The bytes of the string segment starting at `pos`.
pub open spec fn spec_segment_bytes(data: Seq<u8>, pos: int) -> Seq<u8> {
    data.subrange(pos + 4, spec_segment_end(data, pos))
}

/// Whether the payload of an update-metadata instruction is exactly three
/// valid string segments.
pub open spec fn spec_update_payload_ok(data: Seq<u8>) -> bool {
    let end1 = spec_segment_end(data, 1);
    let end2 = spec_segment_end(data, end1);
    let end3 = spec_segment_end(data, end2);
    &&& end1 >= 0
    &&& end2 >= 0
    &&& end3 == data.len()
    &&& valid_utf8(spec_segment_bytes(data, 1))
    &&& valid_utf8(spec_segment_bytes(data, end1))
    &&& valid_utf8(spec_segment_bytes(data, end2))
}

/// Reads one length-prefixed string segment at `pos`, returning the
/// decoded string and the end position.
fn read_string_segment(data: &Vec<u8>, pos: usize) -> (r: Option<(String, usize)>)
    requires
        pos <= data@.len(),
    ensures
        r is Some <==> spec_segment_end(data@, pos as int) >= 0 && valid_utf8(
            spec_segment_bytes(data@, pos as int),
        ),
        r matches Some(p) ==> {
            &&& p.1 == spec_segment_end(data@, pos as int)
            &&& pos + 4 <= p.1 <= data@.len()
            &&& encode_utf8(p.0@) == spec_segment_bytes(data@, pos as int)
        },
{
    proof {
        lemma_auto_spec_u32_to_from_le_bytes();
    }
    if data.len() - pos < 4 {
        return None;
    }
    let len_vec = bytes_range(data, pos, pos + 4);
    let n = u32_from_le_bytes(len_vec.as_slice()) as usize;
    if data.len() - pos - 4 < n {
        return None;
    }
    let seg = bytes_range(data, pos + 4, pos + 4 + n);
    match string_from_utf8(seg) {
        Some(s) => Some((s, pos + 4 + n)),
        None => None,
    }
}

/// Parses an instruction from its wire bytes; the whole payload must be
/// consumed.  Returns `None` exactly on bytes that no well-formed
/// instruction serializes to.
pub fn parse_instruction(data: &Vec<u8>) -> (r: Option<SinglePoolInstruction>)
    ensures
        r matches Some(i) ==> i.wf() && data@ == i.spec_serialized(),
        r is Some <==> data@.len() >= 1 && {
            ||| (data@[0] == 0 || data@[0] == 1 || data@[0] == 2 || data@[0] == 4 || data@[0] == 6)
                && data@.len() == 1
            ||| data@[0] == 3 && data@.len() == 41
            ||| data@[0] == 5 && spec_update_payload_ok(data@)
        },
{
    proof {
        lemma_auto_spec_u64_to_from_le_bytes();
    }
    if data.len() == 0 {
        return None;
    }
    let tag = data[0];
    match tag {
        0u8 => {
            if data.len() == 1 {
                let i = SinglePoolInstruction::InitializePool;
                proof {
                    assert(data@ =~= i.spec_serialized());
                }
                Some(i)
            } else {
                None
            }
        },
        1u8 => {
            if data.len() == 1 {
                let i = SinglePoolInstruction::ReplenishPool;
                proof {
                    assert(data@ =~= i.spec_serialized());
                }
                Some(i)
            } else {
                None
            }
        },
        2u8 => {
            if data.len() == 1 {
                let i = SinglePoolInstruction::DepositStake;
                proof {
                    assert(data@ =~= i.spec_serialized());
                }
                Some(i)
            } else {
                None
            }
        },
        3u8 => {
            if data.len() == 41 {
                let authority_bytes = bytes_range(data, 1, 33);
                let amount_vec = bytes_range(data, 33, 41);
                let token_amount = u64_from_le_bytes(amount_vec.as_slice());
                let i = SinglePoolInstruction::WithdrawStake {
                    user_stake_authority: Address::new(authority_bytes),
                    token_amount,
                };
                proof {
                    assert(data@ =~= i.spec_serialized());
                }
                Some(i)
            } else {
                None
            }
        },
        4u8 => {
            if data.len() == 1 {
                let i = SinglePoolInstruction::CreateTokenMetadata;
                proof {
                    assert(data@ =~= i.spec_serialized());
                }
                Some(i)
            } else {
                None
            }
        },
        5u8 => {
            let (name, end1) = match read_string_segment(data, 1) {
                Some(p) => p,
                None => {
                    return None;
                },
            };
            let (symbol, end2) = match read_string_segment(data, end1) {
                Some(p) => p,
                None => {
                    return None;
                },
            };
            let (uri, end3) = match read_string_segment(data, end2) {
                Some(p) => p,
                None => {
                    return None;
                },
            };
            if end3 != data.len() {
                return None;
            }
            let i = SinglePoolInstruction::UpdateTokenMetadata { name, symbol, uri };
            proof {
                lemma_auto_spec_u32_to_from_le_bytes();
                let d = data@;
                let e1 = end1 as int;
                let e2 = end2 as int;
                let e3 = end3 as int;
                assert(spec_string_segment(i->UpdateTokenMetadata_name@) =~= d.subrange(1, e1)) by {
                    assert(spec_u32_to_le_bytes(spec_u32_from_le_bytes(d.subrange(1, 5))) == d
                        .subrange(1, 5));
                    assert(spec_string_segment(i->UpdateTokenMetadata_name@) =~= d.subrange(1, 5)
                        + d.subrange(5, e1));
                    assert(d.subrange(1, e1) =~= d.subrange(1, 5) + d.subrange(5, e1));
                }
                assert(spec_string_segment(i->UpdateTokenMetadata_symbol@) =~= d.subrange(e1, e2))
                    by {
                    assert(spec_u32_to_le_bytes(spec_u32_from_le_bytes(d.subrange(e1, e1 + 4)))
                        == d.subrange(e1, e1 + 4));
                    assert(spec_string_segment(i->UpdateTokenMetadata_symbol@) =~= d.subrange(
                        e1,
                        e1 + 4,
                    ) + d.subrange(e1 + 4, e2));
                    assert(d.subrange(e1, e2) =~= d.subrange(e1, e1 + 4) + d.subrange(e1 + 4, e2));
                }
                assert(spec_string_segment(i->UpdateTokenMetadata_uri@) =~= d.subrange(e2, e3)) by {
                    assert(spec_u32_to_le_bytes(spec_u32_from_le_bytes(d.subrange(e2, e2 + 4)))
                        == d.subrange(e2, e2 + 4));
                    assert(spec_string_segment(i->UpdateTokenMetadata_uri@) =~= d.subrange(
                        e2,
                        e2 + 4,
                    ) + d.subrange(e2 + 4, e3));
                    assert(d.subrange(e2, e3) =~= d.subrange(e2, e2 + 4) + d.subrange(e2 + 4, e3));
                }
                assert(data@ =~= seq![5u8] + d.subrange(1, e1) + d.subrange(e1, e2) + d.subrange(
                    e2,
                    e3,
                ));
            }
            Some(i)
        },
        6u8 => {
            if data.len() == 1 {
                let i = SinglePoolInstruction::InitializePoolOnRamp;
                proof {
                    assert(data@ =~= i.spec_serialized());
                }
                Some(i)
            } else {
                None
            }
        },
        _ => None,
    }
}

/// Saturating addition of two lamport amounts.
fn saturating_add(a: u64, b: u64) -> (r: u64)
    ensures
        a + b <= u64::MAX ==> r == a + b,
        a + b > u64::MAX ==> r == u64::MAX,
{
    if a > u64::MAX - b {
        u64::MAX
    } else {
        a + b
    }
}

/// The serialized size of a pool record.
pub open spec fn spec_pool_record_space() -> int {
    33
}

/// The serialized size of a token mint, fixed by the token program.
pub open spec fn spec_mint_space() -> int {
    82
}

/// The exact instruction of an `InitializePool` call.
pub open spec fn spec_initialize_pool(program_id: Seq<u8>, vote_account_address: Seq<u8>) -> InstructionView {
    let pool = spec_pool_address(program_id, vote_account_address);
    InstructionView {
        program_id: program_id,
        accounts: seq![
            spec_meta(vote_account_address, false, false),
            spec_meta(pool, false, true),
            spec_meta(spec_pool_stake_address(program_id, pool), false, true),
            spec_meta(spec_pool_mint_address(program_id, pool), false, true),
            spec_meta(spec_pool_stake_authority_address(program_id, pool), false, false),
            spec_meta(spec_pool_mint_authority_address(program_id, pool), false, false),
            spec_meta(ids::spec_rent_sysvar_id(), false, false),
            spec_meta(ids::spec_clock_sysvar_id(), false, false),
            spec_meta(ids::spec_stake_history_sysvar_id(), false, false),
            spec_meta(ids::spec_stake_config_id(), false, false),
            spec_meta(ids::spec_system_program_id(), false, false),
            spec_meta(ids::spec_token_program_id(), false, false),
            spec_meta(ids::spec_stake_program_id(), false, false),
        ],
        data: seq![0u8],
    }
}

/// Creates an `InitializePool` instruction.
pub fn initialize_pool(program_id: &Address, vote_account_address: &Address) -> (r: Instruction)
    requires
        program_id.wf(),
        vote_account_address.wf(),
    ensures
        r@ == spec_initialize_pool(program_id@, vote_account_address@),
{
    let pool_address = find_pool_address(program_id, vote_account_address);
    let data = SinglePoolInstruction::InitializePool.serialize();
    let mut accounts: Vec<AccountMeta> = Vec::new();
    accounts.push(AccountMeta::new_readonly(vote_account_address.dup(), false));
    accounts.push(AccountMeta::new(pool_address.dup(), false));
    accounts.push(AccountMeta::new(find_pool_stake_address(program_id, &pool_address), false));
    accounts.push(AccountMeta::new(find_pool_mint_address(program_id, &pool_address), false));
    accounts.push(
        AccountMeta::new_readonly(find_pool_stake_authority_address(program_id, &pool_address), false),
    );
    accounts.push(
        AccountMeta::new_readonly(find_pool_mint_authority_address(program_id, &pool_address), false),
    );
    accounts.push(AccountMeta::new_readonly(ids::rent_sysvar_id(), false));
    accounts.push(AccountMeta::new_readonly(ids::clock_sysvar_id(), false));
    accounts.push(AccountMeta::new_readonly(ids::stake_history_sysvar_id(), false));
    accounts.push(AccountMeta::new_readonly(ids::stake_config_id(), false));
    accounts.push(AccountMeta::new_readonly(ids::system_program_id(), false));
    accounts.push(AccountMeta::new_readonly(ids::token_program_id(), false));
    accounts.push(AccountMeta::new_readonly(ids::stake_program_id(), false));
    let r = Instruction { program_id: program_id.dup(), accounts, data };
    proof {
        assert(r@.accounts =~= spec_initialize_pool(program_id@, vote_account_address@).accounts);
    }
    r
}

/// The exact instruction of a `ReplenishPool` call.
pub open spec fn spec_replenish_pool(program_id: Seq<u8>, vote_account_address: Seq<u8>) -> InstructionView {
    let pool = spec_pool_address(program_id, vote_account_address);
    InstructionView {
        program_id: program_id,
        accounts: seq![
            spec_meta(vote_account_address, false, false),
            spec_meta(pool, false, false),
            spec_meta(spec_pool_stake_address(program_id, pool), false, true),
            spec_meta(spec_pool_onramp_address(program_id, pool), false, true),
            spec_meta(spec_pool_stake_authority_address(program_id, pool), false, false),
            spec_meta(ids::spec_clock_sysvar_id(), false, false),
            spec_meta(ids::spec_stake_history_sysvar_id(), false, false),
            spec_meta(ids::spec_stake_config_id(), false, false),
            spec_meta(ids::spec_stake_program_id(), false, false),
        ],
        data: seq![1u8],
    }
}

/// Creates a `ReplenishPool` instruction.
pub fn replenish_pool(program_id: &Address, vote_account_address: &Address) -> (r: Instruction)
    requires
        program_id.wf(),
        vote_account_address.wf(),
    ensures
        r@ == spec_replenish_pool(program_id@, vote_account_address@),
{
    let pool_address = find_pool_address(program_id, vote_account_address);
    let data = SinglePoolInstruction::ReplenishPool.serialize();
    let mut accounts: Vec<AccountMeta> = Vec::new();
    accounts.push(AccountMeta::new_readonly(vote_account_address.dup(), false));
    accounts.push(AccountMeta::new_readonly(pool_address.dup(), false));
    accounts.push(AccountMeta::new(find_pool_stake_address(program_id, &pool_address), false));
    accounts.push(AccountMeta::new(find_pool_onramp_address(program_id, &pool_address), false));
    accounts.push(
        AccountMeta::new_readonly(find_pool_stake_authority_address(program_id, &pool_address), false),
    );
    accounts.push(AccountMeta::new_readonly(ids::clock_sysvar_id(), false));
    accounts.push(AccountMeta::new_readonly(ids::stake_history_sysvar_id(), false));
    accounts.push(AccountMeta::new_readonly(ids::stake_config_id(), false));
    accounts.push(AccountMeta::new_readonly(ids::stake_program_id(), false));
    let r = Instruction { program_id: program_id.dup(), accounts, data };
    proof {
        assert(r@.accounts =~= spec_replenish_pool(program_id@, vote_account_address@).accounts);
    }
    r
}

/// The exact instruction of a `DepositStake` call.
pub open spec fn spec_deposit_stake(
    program_id: Seq<u8>,
    pool: Seq<u8>,
    user_stake_account: Seq<u8>,
    user_token_account: Seq<u8>,
    user_lamport_account: Seq<u8>,
) -> InstructionView {
    InstructionView {
        program_id: program_id,
        accounts: seq![
            spec_meta(pool, false, false),
            spec_meta(spec_pool_stake_address(program_id, pool), false, true),
            spec_meta(spec_pool_mint_address(program_id, pool), false, true),
            spec_meta(spec_pool_stake_authority_address(program_id, pool), false, false),
            spec_meta(spec_pool_mint_authority_address(program_id, pool), false, false),
            spec_meta(user_stake_account, false, true),
            spec_meta(user_token_account, false, true),
            spec_meta(user_lamport_account, false, true),
            spec_meta(ids::spec_clock_sysvar_id(), false, false),
            spec_meta(ids::spec_stake_history_sysvar_id(), false, false),
            spec_meta(ids::spec_token_program_id(), false, false),
            spec_meta(ids::spec_stake_program_id(), false, false),
        ],
        data: seq![2u8],
    }
}

/// Creates a `DepositStake` instruction.
pub fn deposit_stake(
    program_id: &Address,
    pool_address: &Address,
    user_stake_account: &Address,
    user_token_account: &Address,
    user_lamport_account: &Address,
) -> (r: Instruction)
    requires
        program_id.wf(),
        pool_address.wf(),
    ensures
        r@ == spec_deposit_stake(
            program_id@,
            pool_address@,
            user_stake_account@,
            user_token_account@,
            user_lamport_account@,
        ),
{
    let data = SinglePoolInstruction::DepositStake.serialize();
    let mut accounts: Vec<AccountMeta> = Vec::new();
    accounts.push(AccountMeta::new_readonly(pool_address.dup(), false));
    accounts.push(AccountMeta::new(find_pool_stake_address(program_id, pool_address), false));
    accounts.push(AccountMeta::new(find_pool_mint_address(program_id, pool_address), false));
    accounts.push(
        AccountMeta::new_readonly(find_pool_stake_authority_address(program_id, pool_address), false),
    );
    accounts.push(
        AccountMeta::new_readonly(find_pool_mint_authority_address(program_id, pool_address), false),
    );
    accounts.push(AccountMeta::new(user_stake_account.dup(), false));
    accounts.push(AccountMeta::new(user_token_account.dup(), false));
    accounts.push(AccountMeta::new(user_lamport_account.dup(), false));
    accounts.push(AccountMeta::new_readonly(ids::clock_sysvar_id(), false));
    accounts.push(AccountMeta::new_readonly(ids::stake_history_sysvar_id(), false));
    accounts.push(AccountMeta::new_readonly(ids::token_program_id(), false));
    accounts.push(AccountMeta::new_readonly(ids::stake_program_id(), false));
    let r = Instruction { program_id: program_id.dup(), accounts, data };
    proof {
        assert(r@.accounts =~= spec_deposit_stake(
            program_id@,
            pool_address@,
            user_stake_account@,
            user_token_account@,
            user_lamport_account@,
        ).accounts);
    }
    r
}

/// The exact instruction of a `WithdrawStake` call.
pub open spec fn spec_withdraw_stake(
    program_id: Seq<u8>,
    pool: Seq<u8>,
    user_stake_account: Seq<u8>,
    user_stake_authority: Seq<u8>,
    user_token_account: Seq<u8>,
    token_amount: u64,
) -> InstructionView {
    InstructionView {
        program_id: program_id,
        accounts: seq![
            spec_meta(pool, false, false),
            spec_meta(spec_pool_stake_address(program_id, pool), false, true),
            spec_meta(spec_pool_mint_address(program_id, pool), false, true),
            spec_meta(spec_pool_stake_authority_address(program_id, pool), false, false),
            spec_meta(spec_pool_mint_authority_address(program_id, pool), false, false),
            spec_meta(user_stake_account, false, true),
            spec_meta(user_token_account, false, true),
            spec_meta(ids::spec_clock_sysvar_id(), false, false),
            spec_meta(ids::spec_token_program_id(), false, false),
            spec_meta(ids::spec_stake_program_id(), false, false),
        ],
        data: seq![3u8] + user_stake_authority + spec_u64_to_le_bytes(token_amount),
    }
}

/// Creates a `WithdrawStake` instruction.
pub fn withdraw_stake(
    program_id: &Address,
    pool_address: &Address,
    user_stake_account: &Address,
    user_stake_authority: &Address,
    user_token_account: &Address,
    token_amount: u64,
) -> (r: Instruction)
    requires
        program_id.wf(),
        pool_address.wf(),
        user_stake_authority.wf(),
    ensures
        r@ == spec_withdraw_stake(
            program_id@,
            pool_address@,
            user_stake_account@,
            user_stake_authority@,
            user_token_account@,
            token_amount,
        ),
{
    let data = (SinglePoolInstruction::WithdrawStake {
        user_stake_authority: user_stake_authority.dup(),
        token_amount,
    }).serialize();
    let mut accounts: Vec<AccountMeta> = Vec::new();
    accounts.push(AccountMeta::new_readonly(pool_address.dup(), false));
    accounts.push(AccountMeta::new(find_pool_stake_address(program_id, pool_address), false));
    accounts.push(AccountMeta::new(find_pool_mint_address(program_id, pool_address), false));
    accounts.push(
        AccountMeta::new_readonly(find_pool_stake_authority_address(program_id, pool_address), false),
    );
    accounts.push(
        AccountMeta::new_readonly(find_pool_mint_authority_address(program_id, pool_address), false),
    );
    accounts.push(AccountMeta::new(user_stake_account.dup(), false));
    accounts.push(AccountMeta::new(user_token_account.dup(), false));
    accounts.push(AccountMeta::new_readonly(ids::clock_sysvar_id(), false));
    accounts.push(AccountMeta::new_readonly(ids::token_program_id(), false));
    accounts.push(AccountMeta::new_readonly(ids::stake_program_id(), false));
    let r = Instruction { program_id: program_id.dup(), accounts, data };
    proof {
        assert(r@.accounts =~= spec_withdraw_stake(
            program_id@,
            pool_address@,
            user_stake_account@,
            user_stake_authority@,
            user_token_account@,
            token_amount,
        ).accounts);
    }
    r
}

/// The exact instruction of a `CreateTokenMetadata` call.
pub open spec fn spec_create_token_metadata(program_id: Seq<u8>, pool: Seq<u8>, payer: Seq<u8>) -> InstructionView {
    let pool_mint = spec_pool_mint_address(program_id, pool);
    InstructionView {
        program_id: program_id,
        accounts: seq![
            spec_meta(pool, false, false),
            spec_meta(pool_mint, false, false),
            spec_meta(spec_pool_mint_authority_address(program_id, pool), false, false),
            spec_meta(spec_pool_mpl_authority_address(program_id, pool), false, false),
            spec_meta(payer, true, true),
            spec_meta(spec_metadata_address(pool_mint), false, true),
            spec_meta(ids::spec_mpl_token_metadata_program_id(), false, false),
            spec_meta(ids::spec_system_program_id(), false, false),
        ],
        data: seq![4u8],
    }
}

/// Creates a `CreateTokenMetadata` instruction.
pub fn create_token_metadata(program_id: &Address, pool_address: &Address, payer: &Address) -> (r:
    Instruction)
    requires
        program_id.wf(),
        pool_address.wf(),
    ensures
        r@ == spec_create_token_metadata(program_id@, pool_address@, payer@),
{
    let pool_mint = find_pool_mint_address(program_id, pool_address);
    let token_metadata = find_metadata_account(&pool_mint);
    let data = SinglePoolInstruction::CreateTokenMetadata.serialize();
    let mut accounts: Vec<AccountMeta> = Vec::new();
    accounts.push(AccountMeta::new_readonly(pool_address.dup(), false));
    accounts.push(AccountMeta::new_readonly(pool_mint, false));
    accounts.push(
        AccountMeta::new_readonly(find_pool_mint_authority_address(program_id, pool_address), false),
    );
    accounts.push(
        AccountMeta::new_readonly(find_pool_mpl_authority_address(program_id, pool_address), false),
    );
    accounts.push(AccountMeta::new(payer.dup(), true));
    accounts.push(AccountMeta::new(token_metadata, false));
    accounts.push(AccountMeta::new_readonly(ids::mpl_token_metadata_program_id(), false));
    accounts.push(AccountMeta::new_readonly(ids::system_program_id(), false));
    let r = Instruction { program_id: program_id.dup(), accounts, data };
    proof {
        assert(r@.accounts =~= spec_create_token_metadata(program_id@, pool_address@, payer@)
            .accounts);
    }
    r
}

/// The exact instruction of an `UpdateTokenMetadata` call.
pub open spec fn spec_update_token_metadata(
    program_id: Seq<u8>,
    vote_account_address: Seq<u8>,
    authorized_withdrawer: Seq<u8>,
    name: Seq<char>,
    symbol: Seq<char>,
    uri: Seq<char>,
) -> InstructionView {
    let pool = spec_pool_address(program_id, vote_account_address);
    let pool_mint = spec_pool_mint_address(program_id, pool);
    InstructionView {
        program_id: program_id,
        accounts: seq![
            spec_meta(vote_account_address, false, false),
            spec_meta(pool, false, false),
            spec_meta(spec_pool_mpl_authority_address(program_id, pool), false, false),
            spec_meta(authorized_withdrawer, true, false),
            spec_meta(spec_metadata_address(pool_mint), false, true),
            spec_meta(ids::spec_mpl_token_metadata_program_id(), false, false),
        ],
        data: seq![5u8] + spec_string_segment(name) + spec_string_segment(symbol)
            + spec_string_segment(uri),
    }
}

/// Creates an `UpdateTokenMetadata` instruction.
pub fn update_token_metadata(
    program_id: &Address,
    vote_account_address: &Address,
    authorized_withdrawer: &Address,
    name: String,
    symbol: String,
    uri: String,
) -> (r: Instruction)
    requires
        program_id.wf(),
        vote_account_address.wf(),
        encode_utf8(name@).len() <= u32::MAX,
        encode_utf8(symbol@).len() <= u32::MAX,
        encode_utf8(uri@).len() <= u32::MAX,
    ensures
        r@ == spec_update_token_metadata(
            program_id@,
            vote_account_address@,
            authorized_withdrawer@,
            name@,
            symbol@,
            uri@,
        ),
{
    let ghost name_view = name@;
    let ghost symbol_view = symbol@;
    let ghost uri_view = uri@;
    let pool_address = find_pool_address(program_id, vote_account_address);
    let pool_mint = find_pool_mint_address(program_id, &pool_address);
    let token_metadata = find_metadata_account(&pool_mint);
    let data = (SinglePoolInstruction::UpdateTokenMetadata { name, symbol, uri }).serialize();
    let mut accounts: Vec<AccountMeta> = Vec::new();
    accounts.push(AccountMeta::new_readonly(vote_account_address.dup(), false));
    accounts.push(AccountMeta::new_readonly(pool_address.dup(), false));
    accounts.push(
        AccountMeta::new_readonly(find_pool_mpl_authority_address(program_id, &pool_address), false),
    );
    accounts.push(AccountMeta::new_readonly(authorized_withdrawer.dup(), true));
    accounts.push(AccountMeta::new(token_metadata, false));
    accounts.push(AccountMeta::new_readonly(ids::mpl_token_metadata_program_id(), false));
    let r = Instruction { program_id: program_id.dup(), accounts, data };
    proof {
        assert(r@.accounts =~= spec_update_token_metadata(
            program_id@,
            vote_account_address@,
            authorized_withdrawer@,
            name_view,
            symbol_view,
            uri_view,
        ).accounts);
    }
    r
}

/// The exact instruction of an `InitializePoolOnRamp` call.
pub open spec fn spec_initialize_pool_onramp(program_id: Seq<u8>, pool: Seq<u8>) -> InstructionView {
    InstructionView {
        program_id: program_id,
        accounts: seq![
            spec_meta(pool, false, false),
            spec_meta(spec_pool_onramp_address(program_id, pool), false, true),
            spec_meta(spec_pool_stake_authority_address(program_id, pool), false, false),
            spec_meta(ids::spec_rent_sysvar_id(), false, false),
            spec_meta(ids::spec_system_program_id(), false, false),
            spec_meta(ids::spec_stake_program_id(), false, false),
        ],
        data: seq![6u8],
    }
}

/// Creates an `InitializePoolOnRamp` instruction.
pub fn initialize_pool_onramp(program_id: &Address, pool_address: &Address) -> (r: Instruction)
    requires
        program_id.wf(),
        pool_address.wf(),
    ensures
        r@ == spec_initialize_pool_onramp(program_id@, pool_address@),
{
    let data = SinglePoolInstruction::InitializePoolOnRamp.serialize();
    let mut accounts: Vec<AccountMeta> = Vec::new();
    accounts.push(AccountMeta::new_readonly(pool_address.dup(), false));
    accounts.push(AccountMeta::new(find_pool_onramp_address(program_id, pool_address), false));
    accounts.push(
        AccountMeta::new_readonly(find_pool_stake_authority_address(program_id, pool_address), false),
    );
    accounts.push(AccountMeta::new_readonly(ids::rent_sysvar_id(), false));
    accounts.push(AccountMeta::new_readonly(ids::system_program_id(), false));
    accounts.push(AccountMeta::new_readonly(ids::stake_program_id(), false));
    let r = Instruction { program_id: program_id.dup(), accounts, data };
    proof {
        assert(r@.accounts =~= spec_initialize_pool_onramp(program_id@, pool_address@).accounts);
    }
    r
}

/// Creates all necessary instructions to initialize the stake pool: rent
/// funding for the pool record, main stake account (plus the minimum pool
/// balance), on-ramp account and mint, then pool initialization, on-ramp
/// initialization, and default metadata creation.  The caller supplies
/// the rent-exemption amounts for a pool record, a stake account and a
/// mint, as the rent table prices them.
pub fn initialize(
    program_id: &Address,
    vote_account_address: &Address,
    payer: &Address,
    pool_rent: u64,
    stake_rent: u64,
    mint_rent: u64,
    minimum_pool_balance: u64,
) -> (r: Vec<Instruction>)
    requires
        program_id.wf(),
        vote_account_address.wf(),
    ensures
        r@.len() == 7,
        ({
            let pool = spec_pool_address(program_id@, vote_account_address@);
            let stake_rent_plus_minimum: u64 = if stake_rent + minimum_pool_balance <= u64::MAX {
                (stake_rent + minimum_pool_balance) as u64
            } else {
                u64::MAX
            };
            &&& r@[0]@ == crate::collaborator::spec_transfer(payer@, pool, pool_rent)
            &&& r@[1]@ == crate::collaborator::spec_transfer(
                payer@,
                spec_pool_stake_address(program_id@, pool),
                stake_rent_plus_minimum,
            )
            &&& r@[2]@ == crate::collaborator::spec_transfer(
                payer@,
                spec_pool_onramp_address(program_id@, pool),
                stake_rent,
            )
            &&& r@[3]@ == crate::collaborator::spec_transfer(
                payer@,
                spec_pool_mint_address(program_id@, pool),
                mint_rent,
            )
            &&& r@[4]@ == spec_initialize_pool(program_id@, vote_account_address@)
            &&& r@[5]@ == spec_initialize_pool_onramp(program_id@, pool)
            &&& r@[6]@ == spec_create_token_metadata(program_id@, pool, payer@)
        }),
{
    let pool_address = find_pool_address(program_id, vote_account_address);
    let stake_address = find_pool_stake_address(program_id, &pool_address);
    let onramp_address = find_pool_onramp_address(program_id, &pool_address);
    let mint_address = find_pool_mint_address(program_id, &pool_address);
    let stake_rent_plus_minimum = saturating_add(stake_rent, minimum_pool_balance);
    let mut r: Vec<Instruction> = Vec::new();
    r.push(crate::collaborator::transfer(payer, &pool_address, pool_rent));
    r.push(crate::collaborator::transfer(payer, &stake_address, stake_rent_plus_minimum));
    r.push(crate::collaborator::transfer(payer, &onramp_address, stake_rent));
    r.push(crate::collaborator::transfer(payer, &mint_address, mint_rent));
    r.push(initialize_pool(program_id, vote_account_address));
    r.push(initialize_pool_onramp(program_id, &pool_address));
    r.push(create_token_metadata(program_id, &pool_address, payer));
    r
}

/// Creates all necessary instructions to deposit stake: both of the user
/// stake account's authorities are handed to the pool's stake authority,
/// then the deposit itself runs.
pub fn deposit(
    program_id: &Address,
    pool_address: &Address,
    user_stake_account: &Address,
    user_token_account: &Address,
    user_lamport_account: &Address,
    user_withdraw_authority: &Address,
) -> (r: Vec<Instruction>)
    requires
        program_id.wf(),
        pool_address.wf(),
    ensures
        r@.len() == 3,
        ({
            let pool_stake_authority = spec_pool_stake_authority_address(program_id@, pool_address@);
            &&& r@[0]@ == crate::collaborator::spec_stake_authorize(
                user_stake_account@,
                user_withdraw_authority@,
                pool_stake_authority,
                crate::collaborator::StakeAuthorizeKind::Staker,
            )
            &&& r@[1]@ == crate::collaborator::spec_stake_authorize(
                user_stake_account@,
                user_withdraw_authority@,
                pool_stake_authority,
                crate::collaborator::StakeAuthorizeKind::Withdrawer,
            )
            &&& r@[2]@ == spec_deposit_stake(
                program_id@,
                pool_address@,
                user_stake_account@,
                user_token_account@,
                user_lamport_account@,
            )
        }),
{
    let pool_stake_authority = find_pool_stake_authority_address(program_id, pool_address);
    let mut r: Vec<Instruction> = Vec::new();
    r.push(
        crate::collaborator::stake_authorize(
            user_stake_account,
            user_withdraw_authority,
            &pool_stake_authority,
            crate::collaborator::StakeAuthorizeKind::Staker,
        ),
    );
    r.push(
        crate::collaborator::stake_authorize(
            user_stake_account,
            user_withdraw_authority,
            &pool_stake_authority,
            crate::collaborator::StakeAuthorizeKind::Withdrawer,
        ),
    );
    r.push(
        deposit_stake(
            program_id,
            pool_address,
            user_stake_account,
            user_token_account,
            user_lamport_account,
        ),
    );
    r
}

/// Creates all necessary instructions to withdraw stake into a given
/// stake account: the pool's mint authority is approved to burn the
/// tokens, then the withdrawal itself runs.
pub fn withdraw(
    program_id: &Address,
    pool_address: &Address,
    user_stake_account: &Address,
    user_stake_authority: &Address,
    user_token_account: &Address,
    user_token_authority: &Address,
    token_amount: u64,
) -> (r: Vec<Instruction>)
    requires
        program_id.wf(),
        pool_address.wf(),
        user_stake_authority.wf(),
    ensures
        r@.len() == 2,
        r@[0]@ == crate::collaborator::spec_token_approve(
            user_token_account@,
            spec_pool_mint_authority_address(program_id@, pool_address@),
            user_token_authority@,
            token_amount,
        ),
        r@[1]@ == spec_withdraw_stake(
            program_id@,
            pool_address@,
            user_stake_account@,
            user_stake_authority@,
            user_token_account@,
            token_amount,
        ),
{
    let pool_mint_authority = find_pool_mint_authority_address(program_id, pool_address);
    let mut r: Vec<Instruction> = Vec::new();
    r.push(
        crate::collaborator::token_approve(
            user_token_account,
            &pool_mint_authority,
            user_token_authority,
            token_amount,
        ),
    );
    r.push(
        withdraw_stake(
            program_id,
            pool_address,
            user_stake_account,
            user_stake_authority,
            user_token_account,
            token_amount,
        ),
    );
    r
}

/// Creates the instructions to create and delegate a new stake account
/// for a given validator, at the wallet's fixed default deposit address
/// for the pool.  The caller supplies the rent-exemption amount for a
/// stake account; the account is funded with it plus `stake_amount`.
pub fn create_and_delegate_user_stake(
    program_id: &Address,
    vote_account_address: &Address,
    user_wallet: &Address,
    stake_rent: u64,
    stake_amount: u64,
) -> (r: Vec<Instruction>)
    requires
        program_id.wf(),
        vote_account_address.wf(),
        user_wallet.wf(),
    ensures
        r@.len() == 3,
        ({
            let pool = spec_pool_address(program_id@, vote_account_address@);
            let seed = crate::derivation::spec_default_deposit_seed(pool);
            let deposit_address = crate::derivation::spec_default_deposit_address(pool, user_wallet@);
            let lamports: u64 = if stake_rent + stake_amount <= u64::MAX {
                (stake_rent + stake_amount) as u64
            } else {
                u64::MAX
            };
            &&& r@[0]@ == crate::collaborator::spec_create_account_with_seed(
                user_wallet@,
                deposit_address,
                user_wallet@,
                seed,
                lamports,
                200,
                ids::spec_stake_program_id(),
            )
            &&& r@[1]@ == crate::collaborator::spec_stake_initialize(deposit_address, user_wallet@)
            &&& r@[2]@ == crate::collaborator::spec_stake_delegate(
                deposit_address,
                user_wallet@,
                vote_account_address@,
            )
        }),
{
    let pool_address = find_pool_address(program_id, vote_account_address);
    let lamports = saturating_add(stake_rent, stake_amount);
    let (deposit_address, seed) = crate::derivation::find_default_deposit_account_address_and_seed(
        &pool_address,
        user_wallet,
    );
    let stake_program = ids::stake_program_id();
    proof {
        vstd::utf8::is_ascii_chars_encode_utf8(seed@);
    }
    let mut r: Vec<Instruction> = Vec::new();
    r.push(
        crate::collaborator::create_account_with_seed(
            user_wallet,
            &deposit_address,
            user_wallet,
            seed.as_str(),
            lamports,
            200,
            &stake_program,
        ),
    );
    r.push(crate::collaborator::stake_initialize(&deposit_address, user_wallet));
    r.push(
        crate::collaborator::stake_delegate(&deposit_address, user_wallet, vote_account_address),
    );
    r
}

/// Creates an `InitializePoolOnRamp` instruction plus the transfer to
/// fund the on-ramp's rent exemption, for users who need to create an
/// on-ramp for an existing pool.
pub fn create_pool_onramp(
    program_id: &Address,
    pool_address: &Address,
    payer: &Address,
    stake_rent: u64,
) -> (r: Vec<Instruction>)
    requires
        program_id.wf(),
        pool_address.wf(),
    ensures
        r@.len() == 2,
        r@[0]@ == crate::collaborator::spec_transfer(
            payer@,
            spec_pool_onramp_address(program_id@, pool_address@),
            stake_rent,
        ),
        r@[1]@ == spec_initialize_pool_onramp(program_id@, pool_address@),
{
    let onramp_address = find_pool_onramp_address(program_id, pool_address);
    let mut r: Vec<Instruction> = Vec::new();
    r.push(crate::collaborator::transfer(payer, &onramp_address, stake_rent));
    r.push(initialize_pool_onramp(program_id, pool_address));
    r
}

} // verus!
