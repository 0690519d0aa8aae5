//! Error types returned by the pool's verified logic.
//!
//! Every failure condition maps to exactly one named variant, never a
//! generic failure, so callers and auditors can tell "wrong pool" from
//! "wrong mint" and a logic bug from a caller error.

use vstd::prelude::*;

verus! {

/// Errors that may be returned by the single-validator stake pool logic.
#[derive(Clone, Copy, Debug, PartialEq, Eq, Structural)]
pub enum SinglePoolError {
    /// Provided pool account has the wrong address for its vote account, is
    /// uninitialized, or otherwise invalid.
    InvalidPoolAccount,
    /// Provided pool stake account does not match address derived from the
    /// pool account.
    InvalidPoolStakeAccount,
    /// Provided pool mint does not match address derived from the pool
    /// account.
    InvalidPoolMint,
    /// Provided pool stake authority does not match address derived from the
    /// pool account.
    InvalidPoolStakeAuthority,
    /// Provided pool mint authority does not match address derived from the
    /// pool account.
    InvalidPoolMintAuthority,
    /// Provided pool MPL authority does not match address derived from the
    /// pool account.
    InvalidPoolMplAuthority,
    /// Provided metadata account does not match metadata account derived for
    /// pool mint.
    InvalidMetadataAccount,
    /// Authorized withdrawer provided for metadata update does not match the
    /// vote account.
    InvalidMetadataSigner,
    /// Not enough lamports provided for deposit to result in one pool token.
    DepositTooSmall,
    /// Not enough pool tokens provided to withdraw stake worth one lamport.
    WithdrawalTooSmall,
    /// Not enough stake to cover the provided quantity of pool tokens.
    /// (Generally this should not happen absent user error, but may if the
    /// minimum delegation increases beyond 1 sol.)
    WithdrawalTooLarge,
    /// Required signature is missing.
    SignatureMissing,
    /// Stake account is not in the state expected by the program.
    WrongStakeStake,
    /// Unsigned subtraction crossed the zero.
    ArithmeticOverflow,
    /// A calculation failed unexpectedly.
    /// (This error should never be surfaced; it stands in for failure
    /// conditions that should never be reached.)
    UnexpectedMathError,
    /// The `V0_23_5` vote account type is unsupported and should be upgraded
    /// via `convert_to_current()`.
    LegacyVoteAccount,
    /// Failed to parse vote account.
    UnparseableVoteAccount,
    /// Incorrect number of lamports provided for rent-exemption when
    /// initializing.
    WrongRentAmount,
    /// Attempted to deposit from or withdraw to pool stake account.
    InvalidPoolStakeAccountUsage,
    /// Attempted to initialize a pool that is already initialized.
    PoolAlreadyInitialized,
    /// Provided pool on-ramp account does not match address derived from the
    /// pool account.
    InvalidPoolOnRampAccount,
    /// The on-ramp account for this pool does not exist; you must call
    /// `InitializePoolOnRamp` before you can perform this operation.
    OnRampDoesntExist,
}

impl SinglePoolError {
    /// The numeric code under which this error is surfaced to the runtime,
    /// in declaration order.
    pub open spec fn spec_code(self) -> u32 {
        match self {
            SinglePoolError::InvalidPoolAccount => 0,
            SinglePoolError::InvalidPoolStakeAccount => 1,
            SinglePoolError::InvalidPoolMint => 2,
            SinglePoolError::InvalidPoolStakeAuthority => 3,
            SinglePoolError::InvalidPoolMintAuthority => 4,
            SinglePoolError::InvalidPoolMplAuthority => 5,
            SinglePoolError::InvalidMetadataAccount => 6,
            SinglePoolError::InvalidMetadataSigner => 7,
            SinglePoolError::DepositTooSmall => 8,
            SinglePoolError::WithdrawalTooSmall => 9,
            SinglePoolError::WithdrawalTooLarge => 10,
            SinglePoolError::SignatureMissing => 11,
            SinglePoolError::WrongStakeStake => 12,
            SinglePoolError::ArithmeticOverflow => 13,
            SinglePoolError::UnexpectedMathError => 14,
            SinglePoolError::LegacyVoteAccount => 15,
            SinglePoolError::UnparseableVoteAccount => 16,
            SinglePoolError::WrongRentAmount => 17,
            SinglePoolError::InvalidPoolStakeAccountUsage => 18,
            SinglePoolError::PoolAlreadyInitialized => 19,
            SinglePoolError::InvalidPoolOnRampAccount => 20,
            SinglePoolError::OnRampDoesntExist => 21,
        }
    }

    /// The custom error code used when converting to a runtime program error.
    pub fn code(&self) -> (r: u32)
        ensures
            r == self.spec_code(),
    {
        match self {
            SinglePoolError::InvalidPoolAccount => 0,
            SinglePoolError::InvalidPoolStakeAccount => 1,
            SinglePoolError::InvalidPoolMint => 2,
            SinglePoolError::InvalidPoolStakeAuthority => 3,
            SinglePoolError::InvalidPoolMintAuthority => 4,
            SinglePoolError::InvalidPoolMplAuthority => 5,
            SinglePoolError::InvalidMetadataAccount => 6,
            SinglePoolError::InvalidMetadataSigner => 7,
            SinglePoolError::DepositTooSmall => 8,
            SinglePoolError::WithdrawalTooSmall => 9,
            SinglePoolError::WithdrawalTooLarge => 10,
            SinglePoolError::SignatureMissing => 11,
            SinglePoolError::WrongStakeStake => 12,
            SinglePoolError::ArithmeticOverflow => 13,
            SinglePoolError::UnexpectedMathError => 14,
            SinglePoolError::LegacyVoteAccount => 15,
            SinglePoolError::UnparseableVoteAccount => 16,
            SinglePoolError::WrongRentAmount => 17,
            SinglePoolError::InvalidPoolStakeAccountUsage => 18,
            SinglePoolError::PoolAlreadyInitialized => 19,
            SinglePoolError::InvalidPoolOnRampAccount => 20,
            SinglePoolError::OnRampDoesntExist => 21,
        }
    }

    /// A human-readable description of the error.
    pub fn to_str(&self) -> &'static str {
        match self {
            SinglePoolError::InvalidPoolAccount =>
                "Error: Provided pool account has the wrong address for its vote account, is uninitialized, \
                     or is otherwise invalid.",
            SinglePoolError::InvalidPoolStakeAccount =>
                "Error: Provided pool stake account does not match address derived from the pool account.",
            SinglePoolError::InvalidPoolMint =>
                "Error: Provided pool mint does not match address derived from the pool account.",
            SinglePoolError::InvalidPoolStakeAuthority =>
                "Error: Provided pool stake authority does not match address derived from the pool account.",
            SinglePoolError::InvalidPoolMintAuthority =>
                "Error: Provided pool mint authority does not match address derived from the pool account.",
            SinglePoolError::InvalidPoolMplAuthority =>
                "Error: Provided pool MPL authority does not match address derived from the pool account.",
            SinglePoolError::InvalidMetadataAccount =>
                "Error: Provided metadata account does not match metadata account derived for pool mint.",
            SinglePoolError::InvalidMetadataSigner =>
                "Error: Authorized withdrawer provided for metadata update does not match the vote account.",
            SinglePoolError::DepositTooSmall =>
                "Error: Not enough lamports provided for deposit to result in one pool token.",
            SinglePoolError::WithdrawalTooSmall =>
                "Error: Not enough pool tokens provided to withdraw stake worth one lamport.",
            SinglePoolError::WithdrawalTooLarge =>
                "Error: Not enough stake to cover the provided quantity of pool tokens. \
                     (Generally this should not happen absent user error, but may if the minimum delegation increases \
                     beyond 1 sol.)",
            SinglePoolError::SignatureMissing => "Error: Required signature is missing.",
            SinglePoolError::WrongStakeStake => "Error: Stake account is not in the state expected by the program.",
            SinglePoolError::ArithmeticOverflow => "Error: Unsigned subtraction crossed the zero.",
            SinglePoolError::UnexpectedMathError =>
                "Error: A calculation failed unexpectedly. \
                     (This error should never be surfaced; it stands in for failure conditions that should never be reached.)",
            SinglePoolError::UnparseableVoteAccount => "Error: Failed to parse vote account.",
            SinglePoolError::LegacyVoteAccount =>
                "Error: The V0_23_5 vote account type is unsupported and should be upgraded via `convert_to_current()`.",
            SinglePoolError::WrongRentAmount =>
                "Error: Incorrect number of lamports provided for rent-exemption when initializing.",
            SinglePoolError::InvalidPoolStakeAccountUsage =>
                "Error: Attempted to deposit from or withdraw to pool stake account.",
            SinglePoolError::PoolAlreadyInitialized =>
                "Error: Attempted to initialize a pool that is already initialized.",
            SinglePoolError::InvalidPoolOnRampAccount =>
                "Error: Provided pool onramp account does not match address derived from the pool account.",
            SinglePoolError::OnRampDoesntExist =>
                "The onramp account for this pool does not exist; you must call `InitializePoolOnRamp` \
                     before you can perform this operation.",
        }
    }
}

} // verus!
