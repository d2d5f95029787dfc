use vstd::prelude::*;

verus! {

/// Why an operation on a timelock or on one of its queues was rejected.
#[derive(Clone, Copy, Debug, PartialEq, Eq, Structural)]
pub enum TimelockError {
    /// The record has been replayed before.
    AlreadyExecuted,
    /// The delay has not passed yet.
    NotReady,
    /// Records can only be appended while the queue is `Created`.
    CannotAddTransactions,
    /// Only a `Created` queue can be sealed.
    CannotSealTransactionQueue,
    /// Only a `Sealed` queue can have its clock started.
    CannotStartTimelock,
    /// Only a queue whose clock runs can be voided.
    CannotVoidTimelock,
    /// The delay has passed: the queue can no longer be voided.
    CanOnlyVoidDuringTimelockPeriod,
    /// Only a queue whose clock runs can be executed.
    CannotExecuteTransactions,
    /// An account that has to sign the request did not.
    MissingSignature,
    /// The caller is not the authority that the operation asks for.
    WrongAuthority,
    /// The queue does not belong to the timelock that was presented.
    WrongTimelock,
    /// The account presented as the delegated signer of the timelock is not
    /// the one derived from the timelock and its offset.
    WrongSigner,
    /// The account to be created holds something already.
    AlreadyInitialized,
    /// The replayed call itself failed, with this code.
    ReplayFailed { code: u64 },
}

/// The classes of failure.
#[derive(Clone, Copy, Debug, PartialEq, Eq, Structural)]
pub enum ErrorKind {
    Authorization,
    StateMismatch,
    Timing,
    ReplayFailure,
    AlreadyExecuted,
}

impl TimelockError {
    /// The class that this error belongs to.
    pub open spec fn spec_kind(self) -> ErrorKind {
        match self {
            TimelockError::AlreadyExecuted => ErrorKind::AlreadyExecuted,
            TimelockError::NotReady => ErrorKind::Timing,
            TimelockError::CannotAddTransactions => ErrorKind::StateMismatch,
            TimelockError::CannotSealTransactionQueue => ErrorKind::StateMismatch,
            TimelockError::CannotStartTimelock => ErrorKind::StateMismatch,
            TimelockError::CannotVoidTimelock => ErrorKind::StateMismatch,
            TimelockError::CanOnlyVoidDuringTimelockPeriod => ErrorKind::Timing,
            TimelockError::CannotExecuteTransactions => ErrorKind::StateMismatch,
            TimelockError::MissingSignature => ErrorKind::Authorization,
            TimelockError::WrongAuthority => ErrorKind::Authorization,
            TimelockError::WrongTimelock => ErrorKind::Authorization,
            TimelockError::WrongSigner => ErrorKind::Authorization,
            TimelockError::AlreadyInitialized => ErrorKind::StateMismatch,
            TimelockError::ReplayFailed { .. } => ErrorKind::ReplayFailure,
        }
    }

    /// The class that this error belongs to.
    pub fn kind(&self) -> (kind: ErrorKind)
        ensures
            kind == self.spec_kind(),
    {
        match self {
            TimelockError::AlreadyExecuted => ErrorKind::AlreadyExecuted,
            TimelockError::NotReady | TimelockError::CanOnlyVoidDuringTimelockPeriod => ErrorKind::Timing,
            TimelockError::MissingSignature
            | TimelockError::WrongAuthority
            | TimelockError::WrongTimelock
            | TimelockError::WrongSigner => ErrorKind::Authorization,
            TimelockError::ReplayFailed { .. } => ErrorKind::ReplayFailure,
            _ => ErrorKind::StateMismatch,
        }
    }

    /// The text shown for this error.
    pub open spec fn spec_message(self) -> Seq<char> {
        match self {
            TimelockError::AlreadyExecuted => "The given transaction has already been executed"@,
            TimelockError::NotReady => "This transaction is not yet ready to be executed"@,
            TimelockError::CannotAddTransactions => "Can only add instructions when transaction queue status is `Created`"@,
            TimelockError::CannotSealTransactionQueue => "Can only seal the transaction queue when status is `Created`"@,
            TimelockError::CannotStartTimelock => "Can only start the timelock running once the status is `Sealed`"@,
            TimelockError::CannotVoidTimelock => "Can only void the transactions if the status `TimelockStarted`"@,
            TimelockError::CanOnlyVoidDuringTimelockPeriod => "Can only void the transactions during the timelock period"@,
            TimelockError::CannotExecuteTransactions => "Can only execute the transactions if the status is `TimelockStarted`"@,
            TimelockError::MissingSignature => "An account that has to sign did not sign"@,
            TimelockError::WrongAuthority => "The caller is not the required authority"@,
            TimelockError::WrongTimelock => "The transaction queue does not belong to this timelock"@,
            TimelockError::WrongSigner => "The account is not the signer derived for this timelock"@,
            TimelockError::AlreadyInitialized => "The account to be created is already in use"@,
            TimelockError::ReplayFailed { .. } => "The replayed instruction failed"@,
        }
    }

    /// The text shown for this error.
    pub fn message(&self) -> (text: &'static str)
        ensures
            text@ == self.spec_message(),
    {
        match self {
            TimelockError::AlreadyExecuted => "The given transaction has already been executed",
            TimelockError::NotReady => "This transaction is not yet ready to be executed",
            TimelockError::CannotAddTransactions => "Can only add instructions when transaction queue status is `Created`",
            TimelockError::CannotSealTransactionQueue => "Can only seal the transaction queue when status is `Created`",
            TimelockError::CannotStartTimelock => "Can only start the timelock running once the status is `Sealed`",
            TimelockError::CannotVoidTimelock => "Can only void the transactions if the status `TimelockStarted`",
            TimelockError::CanOnlyVoidDuringTimelockPeriod => "Can only void the transactions during the timelock period",
            TimelockError::CannotExecuteTransactions => "Can only execute the transactions if the status is `TimelockStarted`",
            TimelockError::MissingSignature => "An account that has to sign did not sign",
            TimelockError::WrongAuthority => "The caller is not the required authority",
            TimelockError::WrongTimelock => "The transaction queue does not belong to this timelock",
            TimelockError::WrongSigner => "The account is not the signer derived for this timelock",
            TimelockError::AlreadyInitialized => "The account to be created is already in use",
            TimelockError::ReplayFailed { .. } => "The replayed instruction failed",
        }
    }
}

} // verus!
