use solana_timelock::error::{ErrorKind, TimelockError};

#[test]
fn every_error_has_its_class() {
    assert_eq!(TimelockError::AlreadyExecuted.kind(), ErrorKind::AlreadyExecuted);
    assert_eq!(TimelockError::NotReady.kind(), ErrorKind::Timing);
    assert_eq!(TimelockError::CanOnlyVoidDuringTimelockPeriod.kind(), ErrorKind::Timing);
    assert_eq!(TimelockError::CannotAddTransactions.kind(), ErrorKind::StateMismatch);
    assert_eq!(TimelockError::CannotSealTransactionQueue.kind(), ErrorKind::StateMismatch);
    assert_eq!(TimelockError::CannotStartTimelock.kind(), ErrorKind::StateMismatch);
    assert_eq!(TimelockError::CannotVoidTimelock.kind(), ErrorKind::StateMismatch);
    assert_eq!(TimelockError::CannotExecuteTransactions.kind(), ErrorKind::StateMismatch);
    assert_eq!(TimelockError::AlreadyInitialized.kind(), ErrorKind::StateMismatch);
    assert_eq!(TimelockError::MissingSignature.kind(), ErrorKind::Authorization);
    assert_eq!(TimelockError::WrongAuthority.kind(), ErrorKind::Authorization);
    assert_eq!(TimelockError::WrongTimelock.kind(), ErrorKind::Authorization);
    assert_eq!(TimelockError::WrongSigner.kind(), ErrorKind::Authorization);
    assert_eq!(TimelockError::ReplayFailed { code: 0 }.kind(), ErrorKind::ReplayFailure);
    assert_eq!(TimelockError::ReplayFailed { code: u64::MAX }.kind(), ErrorKind::ReplayFailure);
}

#[test]
fn every_error_has_its_text() {
    assert_eq!(TimelockError::AlreadyExecuted.message(), "The given transaction has already been executed");
    assert_eq!(TimelockError::NotReady.message(), "This transaction is not yet ready to be executed");
    assert_eq!(
        TimelockError::CannotAddTransactions.message(),
        "Can only add instructions when transaction queue status is `Created`"
    );
    assert_eq!(
        TimelockError::CannotSealTransactionQueue.message(),
        "Can only seal the transaction queue when status is `Created`"
    );
    assert_eq!(
        TimelockError::CannotStartTimelock.message(),
        "Can only start the timelock running once the status is `Sealed`"
    );
    assert_eq!(
        TimelockError::CannotVoidTimelock.message(),
        "Can only void the transactions if the status `TimelockStarted`"
    );
    assert_eq!(
        TimelockError::CanOnlyVoidDuringTimelockPeriod.message(),
        "Can only void the transactions during the timelock period"
    );
    assert_eq!(
        TimelockError::CannotExecuteTransactions.message(),
        "Can only execute the transactions if the status is `TimelockStarted`"
    );
    assert_eq!(TimelockError::MissingSignature.message(), "An account that has to sign did not sign");
    assert_eq!(TimelockError::WrongAuthority.message(), "The caller is not the required authority");
    assert_eq!(
        TimelockError::WrongTimelock.message(),
        "The transaction queue does not belong to this timelock"
    );
    assert_eq!(
        TimelockError::WrongSigner.message(),
        "The account is not the signer derived for this timelock"
    );
    assert_eq!(TimelockError::AlreadyInitialized.message(), "The account to be created is already in use");
    assert_eq!(TimelockError::ReplayFailed { code: 1 }.message(), "The replayed instruction failed");
}
