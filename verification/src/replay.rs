use vstd::prelude::*;
use anchor_lang::prelude::{AccountInfo, ProgramError};
use crate::error::TimelockError;
use crate::instruction::Instruction;
use crate::signer::DelegatedSigner;
use crate::state::{Transaction, TransactionView};

verus! {

/// An account as the runtime hands it to a program. Nothing is read from it
/// here: the accounts are handed on to the call that is replayed.
#[verifier::external_type_specification]
#[verifier::external_body]
pub struct ExAccountInfo<'info>(AccountInfo<'info>);

/// The error of a call into another program.
#[verifier::external_type_specification]
#[verifier::external_body]
pub struct ExProgramError(ProgramError);

/// Calls `invoke_signed` of `anchor_lang::solana_program::program` with the
/// call `ix`, the accounts `account_infos`, and the seeds of `signer` (its
/// timelock and its offset) as the one set of signer seeds. Trusted: nothing is
/// claimed of the result, which the called program decides.
#[verifier::external_body]
fn invoke_signed(
    ix: &Instruction,
    account_infos: &[AccountInfo<'_>],
    signer: &DelegatedSigner,
) -> (outcome: Result<(), ProgramError>) {
    let key = |k: &crate::pubkey::Pubkey| anchor_lang::prelude::Pubkey::new_from_array(k.bytes);
    let call = anchor_lang::solana_program::instruction::Instruction {
        program_id: key(&ix.program_id),
        accounts: ix.accounts.iter().map(|m| anchor_lang::prelude::AccountMeta {
            pubkey: key(&m.pubkey),
            is_signer: m.is_signer,
            is_writable: m.is_writable,
        }).collect(),
        data: ix.data.clone(),
    };
    anchor_lang::solana_program::program::invoke_signed(&call, account_infos, &[&[&signer.timelock.bytes, &[signer.bump]]])
}

/// Calls `u64::from` on the error of a call into another program, which gives
/// the number that the runtime knows the error by. Trusted: nothing is claimed
/// of the number.
#[verifier::external_body]
fn program_error_code(error: ProgramError) -> (code: u64) {
    u64::from(error)
}

impl TransactionView {
    /// What replaying this record comes to, where the call itself gives
    /// `outcome`: a record that was replayed before is refused, a call that
    /// succeeds marks the record, a call that fails leaves it to be tried again.
    pub open spec fn replayed(
        self,
        outcome: Result<(), u64>,
    ) -> Result<TransactionView, TimelockError> {
        if self.did_execute {
            Err(TimelockError::AlreadyExecuted)
        } else {
            match outcome {
                Ok(()) => Ok(self.executed()),
                Err(code) => Err(TimelockError::ReplayFailed { code }),
            }
        }
    }
}

impl Transaction {
    /// The call that replaying this record makes in the name of `signer`: the
    /// staged target, account inputs and data, with the signature of `signer`
    /// asserted on every account input that names it.
    pub fn replay_call(&self, signer: &crate::pubkey::Pubkey) -> (ix: Instruction)
        ensures
            ix@ == self@.call().signed_by(*signer),
    {
        let mut ix = Instruction::from(self);
        ix.sign_as(signer);
        ix
    }

    /// Takes note of what the replayed call gave. The record is marked only
    /// when the call succeeded and the record had not been replayed before; in
    /// every other case the record stays as it was.
    pub fn record_outcome(&mut self, outcome: Result<(), u64>) -> (r: Result<(), TimelockError>)
        ensures
            (match old(self)@.replayed(outcome) {
                Ok(after) => r is Ok && final(self)@ == after,
                Err(e) => r == Err::<(), TimelockError>(e) && final(self)@ == old(self)@,
            }),
    {
        if self.did_execute {
            return Err(TimelockError::AlreadyExecuted);
        }
        match outcome {
            Ok(()) => {
                self.did_execute = true;
                Ok(())
            },
            Err(code) => Err(TimelockError::ReplayFailed { code }),
        }
    }

    /// Makes the call that this record stages, in the name of `signer` and
    /// against the accounts that the caller supplies, and says what it gave:
    /// `Ok`, or the code of its error. The called program decides which; the
    /// record itself is not touched.
    pub(crate) fn invoke(
        &self,
        signer: &DelegatedSigner,
        account_infos: &[AccountInfo<'_>],
    ) -> (outcome: Result<(), u64>) {
        let ix = self.replay_call(&signer.address);
        match invoke_signed(&ix, account_infos, signer) {
            Ok(()) => Ok(()),
            Err(error) => Err(program_error_code(error)),
        }
    }

    /// Replays this record in the name of `signer`, against the accounts that
    /// the caller supplies. A record that was replayed before is refused and no
    /// call is made. Otherwise the call is made; whatever it gives, the record
    /// is marked if and only if the call succeeded.
    pub fn replay(
        &mut self,
        signer: &DelegatedSigner,
        account_infos: &[AccountInfo<'_>],
    ) -> (r: Result<(), TimelockError>)
        ensures
            old(self).did_execute ==> r == Err::<(), TimelockError>(TimelockError::AlreadyExecuted)
                && final(self)@ == old(self)@,
            (!old(self).did_execute ==> {
                ||| r is Ok && final(self)@ == old(self)@.executed()
                ||| r is Err && r->Err_0 is ReplayFailed && final(self)@ == old(self)@
            }),
    {
        if self.did_execute {
            return Err(TimelockError::AlreadyExecuted);
        }
        let outcome = self.invoke(signer, account_infos);
        self.record_outcome(outcome)
    }
}

} // verus!
