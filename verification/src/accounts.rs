use vstd::prelude::*;
use crate::error::TimelockError;
use crate::pubkey::Pubkey;
use crate::signer::{check_signer, signer_matches, DelegatedSigner};
use crate::state::{Timelock, TransactionQueue};

verus! {

/// An account as a caller presents it: its identity, and whether the request
/// carries the signature of that identity.
#[derive(Clone, Copy, Debug, PartialEq, Eq)]
pub struct Presented {
    pub key: Pubkey,
    pub is_signer: bool,
}

impl Presented {
    /// Whether the caller has proved control of `identity`: the account is
    /// `identity`, and it signed.
    pub open spec fn proves(self, identity: Pubkey) -> bool {
        self.is_signer && self.key == identity
    }

    /// Whether the caller has proved control of `identity`.
    pub fn check_proves(&self, identity: &Pubkey) -> (proved: bool)
        ensures
            proved == self.proves(*identity),
    {
        self.is_signer && self.key == *identity
    }
}

/// What a caller is answered, admitted or not: `Ok` when admitted, and
/// otherwise the error `refusal`, which says what was missing.
pub open spec fn admitted(
    r: Result<(), TimelockError>,
    admits: bool,
    refusal: TimelockError,
) -> bool {
    r == if admits {
        Ok::<(), TimelockError>(())
    } else {
        Err::<(), TimelockError>(refusal)
    }
}

/// What a caller who must present a delegated signer is answered, admitted or
/// not: the signer when admitted, and otherwise the error `refusal`.
pub open spec fn admitted_as(
    signer: Option<DelegatedSigner>,
    admits: bool,
    refusal: TimelockError,
) -> Result<DelegatedSigner, TimelockError> {
    if admits && signer is Some {
        Ok(signer->Some_0)
    } else {
        Err(refusal)
    }
}

/// The accounts of `create_timelock`.
#[derive(Clone, Copy, Debug, PartialEq, Eq)]
pub struct CreateTimelock {
    /// The account presented as the delegated signer of the new timelock.
    pub timelock_signer: Pubkey,
    /// The account that is to hold the timelock; it must sign.
    pub timelock_key: Presented,
    /// What that account holds: nothing before the timelock is created.
    pub timelock: Option<Timelock>,
}

/// The accounts of `set_delay_in_slots` and `set_authority`.
#[derive(Clone, Copy, Debug, PartialEq, Eq)]
pub struct Auth {
    /// The account presented as the delegated signer of the timelock; it must
    /// sign, which only a replayed instruction of the timelock itself can
    /// bring about.
    pub timelock_signer: Presented,
    /// The account that holds the timelock.
    pub timelock_key: Pubkey,
    pub timelock: Timelock,
}

/// The accounts of `create_transaction_queue`.
#[derive(Clone, Debug, PartialEq, Eq)]
pub struct CreateTransactionQueue {
    /// Who will fill and seal the queue; must sign.
    pub transaction_queue_authority: Presented,
    /// The account that holds the timelock that the queue will belong to.
    pub timelock_key: Pubkey,
    /// The account that is to hold the queue; it must sign.
    pub transaction_queue_key: Presented,
    /// What that account holds: nothing before the queue is created.
    pub transaction_queue: Option<TransactionQueue>,
}

/// The accounts of `add_transaction` and `seal_transaction_queue`.
#[derive(Clone, Debug, PartialEq, Eq)]
pub struct UpdateTransactionQueue {
    /// The account presented as the authority of the queue; must sign.
    pub transaction_queue_authority: Presented,
    pub transaction_queue: TransactionQueue,
}

/// The accounts of `start_timelock` and `void_timelock`.
#[derive(Clone, Debug, PartialEq, Eq)]
pub struct StartOrVoidTimelock {
    /// The account presented as the authority of the timelock; must sign.
    pub authority: Presented,
    /// The account that holds the timelock.
    pub timelock_key: Pubkey,
    pub timelock: Timelock,
    pub transaction_queue: TransactionQueue,
}

/// The accounts of `execute_transaction_queue`. Nobody has to sign.
#[derive(Clone, Debug, PartialEq, Eq)]
pub struct ExecuteTransactionQueue {
    /// The account presented as the delegated signer of the timelock.
    pub timelock_signer: Pubkey,
    /// The account that holds the timelock.
    pub timelock_key: Pubkey,
    pub timelock: Timelock,
    pub transaction_queue: TransactionQueue,
}

impl CreateTimelock {
    /// Whether these accounts may create the timelock, where `found` is the
    /// signer found for the new timelock: the new account signed, and the
    /// account presented as its delegated signer is the one that was found.
    pub open spec fn admits(self, found: Option<DelegatedSigner>) -> bool {
        self.timelock_key.is_signer && signer_matches(found, self.timelock_signer)
    }

    /// What a caller who is not admitted is answered: that the signer is not
    /// the one found; or else, that the new account did not sign.
    pub open spec fn refusal(self, found: Option<DelegatedSigner>) -> TimelockError {
        if !signer_matches(found, self.timelock_signer) {
            TimelockError::WrongSigner
        } else {
            TimelockError::MissingSignature
        }
    }

    /// Admits the caller or not, given the signer `found` for the new
    /// timelock; a caller who is admitted is handed that signer.
    pub fn authorize(
        &self,
        found: &Option<DelegatedSigner>,
    ) -> (r: Result<DelegatedSigner, TimelockError>)
        ensures
            r == admitted_as(*found, self.admits(*found), self.refusal(*found)),
            r is Ok <==> self.admits(*found),
    {
        match found {
            Some(signer) if signer.address == self.timelock_signer => {
                if self.timelock_key.is_signer {
                    Ok(*signer)
                } else {
                    Err(TimelockError::MissingSignature)
                }
            },
            _ => Err(TimelockError::WrongSigner),
        }
    }
}

impl Auth {
    /// Whether these accounts may change the timelock, where `derived` is the
    /// signer derived from the timelock and its stored offset: the account
    /// presented is that signer, and it signed.
    pub open spec fn admits(self, derived: Option<DelegatedSigner>) -> bool {
        self.timelock_signer.is_signer && signer_matches(derived, self.timelock_signer.key)
    }

    /// What a caller who is not admitted is answered: that the account
    /// presented did not sign; or else, that it is not the signer derived.
    pub open spec fn refusal(self, derived: Option<DelegatedSigner>) -> TimelockError {
        if !self.timelock_signer.is_signer {
            TimelockError::MissingSignature
        } else {
            TimelockError::WrongSigner
        }
    }

    /// Admits the caller or not, given the signer `derived` from the timelock
    /// and its stored offset.
    pub fn authorize(&self, derived: &Option<DelegatedSigner>) -> (r: Result<(), TimelockError>)
        ensures
            admitted(r, self.admits(*derived), self.refusal(*derived)),
            r is Ok <==> self.admits(*derived),
    {
        if !self.timelock_signer.is_signer {
            Err(TimelockError::MissingSignature)
        } else if !check_signer(derived, &self.timelock_signer.key) {
            Err(TimelockError::WrongSigner)
        } else {
            Ok(())
        }
    }
}

impl CreateTransactionQueue {
    /// Whether these accounts may create the queue: its authority and the new
    /// account both signed.
    pub open spec fn admits(self) -> bool {
        self.transaction_queue_authority.is_signer && self.transaction_queue_key.is_signer
    }

    /// What a caller who is not admitted is answered: that a signature is
    /// missing.
    pub open spec fn refusal(self) -> TimelockError {
        TimelockError::MissingSignature
    }

    /// Admits the caller or not.
    pub fn authorize(&self) -> (r: Result<(), TimelockError>)
        ensures
            admitted(r, self.admits(), self.refusal()),
            r is Ok <==> self.admits(),
    {
        if self.transaction_queue_authority.is_signer && self.transaction_queue_key.is_signer {
            Ok(())
        } else {
            Err(TimelockError::MissingSignature)
        }
    }
}

impl UpdateTransactionQueue {
    /// Whether the caller has proved to be the authority of the queue.
    pub open spec fn admits(self) -> bool {
        self.transaction_queue_authority.proves(self.transaction_queue.transaction_queue_authority)
    }

    /// What a caller who is not admitted is answered: that the account
    /// presented did not sign; or else, that it is not the authority of the
    /// queue.
    pub open spec fn refusal(self) -> TimelockError {
        if !self.transaction_queue_authority.is_signer {
            TimelockError::MissingSignature
        } else {
            TimelockError::WrongAuthority
        }
    }

    /// Admits the caller or not.
    pub fn authorize(&self) -> (r: Result<(), TimelockError>)
        ensures
            admitted(r, self.admits(), self.refusal()),
            r is Ok <==> self.admits(),
    {
        if !self.transaction_queue_authority.is_signer {
            Err(TimelockError::MissingSignature)
        } else if self.transaction_queue_authority.key != self.transaction_queue.transaction_queue_authority {
            Err(TimelockError::WrongAuthority)
        } else {
            Ok(())
        }
    }
}

impl StartOrVoidTimelock {
    /// Whether the caller has proved to be the authority of the timelock that
    /// the queue belongs to: the caller is the authority of the timelock
    /// presented and signed, and the queue was created under that timelock.
    pub open spec fn admits(self) -> bool {
        self.authority.proves(self.timelock.authority) && self.transaction_queue.timelock == self.timelock_key
    }

    /// What a caller who is not admitted is answered: that the account
    /// presented did not sign; or else, that it is not the authority of the
    /// timelock; or else, that the queue belongs to another timelock.
    pub open spec fn refusal(self) -> TimelockError {
        if !self.authority.is_signer {
            TimelockError::MissingSignature
        } else if self.authority.key != self.timelock.authority {
            TimelockError::WrongAuthority
        } else {
            TimelockError::WrongTimelock
        }
    }

    /// Admits the caller or not.
    pub fn authorize(&self) -> (r: Result<(), TimelockError>)
        ensures
            admitted(r, self.admits(), self.refusal()),
            r is Ok <==> self.admits(),
    {
        if !self.authority.is_signer {
            Err(TimelockError::MissingSignature)
        } else if self.authority.key != self.timelock.authority {
            Err(TimelockError::WrongAuthority)
        } else if self.transaction_queue.timelock != self.timelock_key {
            Err(TimelockError::WrongTimelock)
        } else {
            Ok(())
        }
    }
}

impl ExecuteTransactionQueue {
    /// Whether these accounts may execute the queue, where `derived` is the
    /// signer derived from the timelock and its stored offset: the account
    /// presented as the delegated signer is that signer, and the queue belongs
    /// to the timelock.
    pub open spec fn admits(self, derived: Option<DelegatedSigner>) -> bool {
        signer_matches(derived, self.timelock_signer) && self.transaction_queue.timelock == self.timelock_key
    }

    /// What a caller who is not admitted is answered: that the account
    /// presented is not the signer derived; or else, that the queue belongs to
    /// another timelock.
    pub open spec fn refusal(self, derived: Option<DelegatedSigner>) -> TimelockError {
        if !signer_matches(derived, self.timelock_signer) {
            TimelockError::WrongSigner
        } else {
            TimelockError::WrongTimelock
        }
    }

    /// Admits the caller or not, given the signer `derived` from the timelock
    /// and its stored offset; a caller who is admitted is handed that signer.
    pub fn authorize(
        &self,
        derived: &Option<DelegatedSigner>,
    ) -> (r: Result<DelegatedSigner, TimelockError>)
        ensures
            r == admitted_as(*derived, self.admits(*derived), self.refusal(*derived)),
            r is Ok <==> self.admits(*derived),
    {
        match derived {
            Some(signer) if signer.address == self.timelock_signer => {
                if self.transaction_queue.timelock == self.timelock_key {
                    Ok(*signer)
                } else {
                    Err(TimelockError::WrongTimelock)
                }
            },
            _ => Err(TimelockError::WrongSigner),
        }
    }
}

} // verus!
