use single_pool::error::SinglePoolError;

#[test]
fn error_codes_follow_declaration_order() {
    let all = [
        SinglePoolError::InvalidPoolAccount,
        SinglePoolError::InvalidPoolStakeAccount,
        SinglePoolError::InvalidPoolMint,
        SinglePoolError::InvalidPoolStakeAuthority,
        SinglePoolError::InvalidPoolMintAuthority,
        SinglePoolError::InvalidPoolMplAuthority,
        SinglePoolError::InvalidMetadataAccount,
        SinglePoolError::InvalidMetadataSigner,
        SinglePoolError::DepositTooSmall,
        SinglePoolError::WithdrawalTooSmall,
        SinglePoolError::WithdrawalTooLarge,
        SinglePoolError::SignatureMissing,
        SinglePoolError::WrongStakeStake,
        SinglePoolError::ArithmeticOverflow,
        SinglePoolError::UnexpectedMathError,
        SinglePoolError::LegacyVoteAccount,
        SinglePoolError::UnparseableVoteAccount,
        SinglePoolError::WrongRentAmount,
        SinglePoolError::InvalidPoolStakeAccountUsage,
        SinglePoolError::PoolAlreadyInitialized,
        SinglePoolError::InvalidPoolOnRampAccount,
        SinglePoolError::OnRampDoesntExist,
    ];
    for (i, e) in all.iter().enumerate() {
        assert_eq!(e.code(), i as u32);
    }
}

#[test]
fn every_error_describes_itself() {
    assert_eq!(
        SinglePoolError::DepositTooSmall.to_str(),
        "Error: Not enough lamports provided for deposit to result in one pool token."
    );
    assert_eq!(
        SinglePoolError::SignatureMissing.to_str(),
        "Error: Required signature is missing."
    );
    assert!(SinglePoolError::OnRampDoesntExist
        .to_str()
        .contains("InitializePoolOnRamp"));
    assert!(SinglePoolError::WithdrawalTooLarge
        .to_str()
        .contains("Not enough stake"));
}
