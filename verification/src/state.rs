//! The pool record: the one account this program owns and writes.
//!
//! It is created once at initialization and never mutated afterward.  Its
//! own address is canonical: re-deriving the pool address from the stored
//! vote account must reproduce the account's own address, which is the
//! sole authenticity check available to every downstream derivation.

use vstd::prelude::*;

use crate::addr::bytes_range;
use crate::addr::Address;
use crate::derivation::spec_pool_address;
use crate::error::SinglePoolError;

verus! {

/// Single-validator stake pool account type.
#[derive(Clone, Copy, Debug, PartialEq, Eq, Structural)]
pub enum SinglePoolAccountType {
    /// Uninitialized account.
    Uninitialized,
    /// Main pool account.
    Pool,
}

impl Default for SinglePoolAccountType {
    fn default() -> (r: Self)
        ensures
            r == SinglePoolAccountType::Uninitialized,
    {
        SinglePoolAccountType::Uninitialized
    }
}

/// Single-validator stake pool account record, used to derive all the
/// pool's addresses.
#[derive(Debug)]
pub struct SinglePool {
    /// Pool account type, reserved for future compatibility.
    pub account_type: SinglePoolAccountType,
    /// The vote account this pool is mapped to.
    pub vote_account_address: Address,
}

/// The wire tag of a pool account type.
pub open spec fn spec_account_type_tag(account_type: SinglePoolAccountType) -> u8 {
    match account_type {
        SinglePoolAccountType::Uninitialized => 0,
        SinglePoolAccountType::Pool => 1,
    }
}

/// The serialized form of a pool record: the account type tag byte
/// followed by the 32 bytes of the vote account address.
pub open spec fn spec_pool_serialized(account_type: SinglePoolAccountType, vote_account_address: Seq<u8>) -> Seq<u8> {
    seq![spec_account_type_tag(account_type)] + vote_account_address
}

impl SinglePool {
    /// A well-formed record holds a 32-byte vote account address.
    pub open spec fn wf(&self) -> bool {
        self.vote_account_address.wf()
    }

    /// Serializes this record into the exact bytes stored in the pool
    /// account.
    pub fn serialize(&self) -> (r: Vec<u8>)
        ensures
            r@ == spec_pool_serialized(self.account_type, self.vote_account_address@),
    {
        let mut r: Vec<u8> = Vec::new();
        let tag: u8 = match self.account_type {
            SinglePoolAccountType::Uninitialized => 0,
            SinglePoolAccountType::Pool => 1,
        };
        r.push(tag);
        crate::addr::push_bytes(&mut r, &self.vote_account_address.bytes);
        proof {
            assert(seq![tag] + self.vote_account_address@ =~= r@);
        }
        r
    }

    /// Parses a pool record from account data, ignoring any trailing
    /// bytes, as readers of this record format always have.
    pub fn deserialize(data: &Vec<u8>) -> (r: Result<SinglePool, SinglePoolError>)
        ensures
            r is Ok <==> data@.len() >= 33 && (data@[0] == 0 || data@[0] == 1),
            r is Err ==> r == Err::<SinglePool, SinglePoolError>(SinglePoolError::InvalidPoolAccount),
            r matches Ok(pool) ==> {
                &&& pool.wf()
                &&& spec_account_type_tag(pool.account_type) == data@[0]
                &&& pool.vote_account_address@ == data@.subrange(1, 33)
            },
    {
        if data.len() < 33 {
            return Err(SinglePoolError::InvalidPoolAccount);
        }
        let account_type: SinglePoolAccountType = match data[0] {
            0u8 => SinglePoolAccountType::Uninitialized,
            1u8 => SinglePoolAccountType::Pool,
            _ => {
                return Err(SinglePoolError::InvalidPoolAccount);
            },
        };
        let vote_bytes = bytes_range(data, 1, 33);
        Ok(SinglePool { account_type, vote_account_address: Address::new(vote_bytes) })
    }

    /// Builds a `SinglePool` from the pool account as the caller supplied
    /// it: its address, owner and data.  Returns the record only when the
    /// account is owned by this program, holds an initialized pool record,
    /// and stands at the very address that the stored vote account
    /// derives, so every valid record satisfies the canonical-address
    /// invariant.
    pub fn from_account_info(
        key: &Address,
        owner: &Address,
        data: &Vec<u8>,
        program_id: &Address,
    ) -> (r: Result<SinglePool, SinglePoolError>)
        requires
            program_id.wf(),
        ensures
            r is Ok <==> {
                &&& owner@ == program_id@
                &&& data@.len() >= 33
                &&& data@[0] == 1
                &&& key@ == spec_pool_address(program_id@, data@.subrange(1, 33))
            },
            r is Err ==> r == Err::<SinglePool, SinglePoolError>(SinglePoolError::InvalidPoolAccount),
            r matches Ok(pool) ==> {
                &&& pool.wf()
                &&& pool.account_type == SinglePoolAccountType::Pool
                &&& pool.vote_account_address@ == data@.subrange(1, 33)
                &&& key@ == spec_pool_address(program_id@, pool.vote_account_address@)
            },
    {
        // pool is allocated and owned by this program
        if data.len() == 0 || !owner.equals(program_id) {
            return Err(SinglePoolError::InvalidPoolAccount);
        }
        let pool = match Self::deserialize(data) {
            Ok(pool) => pool,
            Err(e) => {
                return Err(e);
            },
        };
        // pool is well-typed
        match pool.account_type {
            SinglePoolAccountType::Pool => {},
            _ => {
                return Err(SinglePoolError::InvalidPoolAccount);
            },
        }
        // pool vote account address is properly configured. in practice
        // this is irrefutable because the pool is initialized from the
        // address that derives it, and never modified
        let derived = crate::derivation::find_pool_address(program_id, &pool.vote_account_address);
        if !key.equals(&derived) {
            return Err(SinglePoolError::InvalidPoolAccount);
        }
        Ok(pool)
    }
}

} // verus!
