use vstd::prelude::*;
use vstd::std_specs::convert::FromSpecImpl;
use crate::pubkey::Pubkey;
use crate::state::{Transaction, TransactionAccount, TransactionView};

verus! {

/// One account input of a call: who, whether it signs, whether it is written to.
#[derive(Clone, Copy, Debug, PartialEq, Eq)]
pub struct AccountMeta {
    pub pubkey: Pubkey,
    pub is_signer: bool,
    pub is_writable: bool,
}

/// A call that is ready to be made: target program, account inputs and data.
#[derive(Clone, Debug, PartialEq, Eq)]
pub struct Instruction {
    pub program_id: Pubkey,
    pub accounts: Vec<AccountMeta>,
    pub data: Vec<u8>,
}

/// What a call holds.
pub struct InstructionView {
    pub program_id: Pubkey,
    pub accounts: Seq<AccountMeta>,
    pub data: Seq<u8>,
}

impl View for Instruction {
    type V = InstructionView;

    open spec fn view(&self) -> InstructionView {
        InstructionView { program_id: self.program_id, accounts: self.accounts@, data: self.data@ }
    }
}

/// The account input of a call that a staged account input stands for.
pub open spec fn meta_of(account: TransactionAccount) -> AccountMeta {
    AccountMeta { pubkey: account.pubkey, is_signer: account.is_signer, is_writable: account.is_writable }
}

/// The staged account input that keeps an account input of a call.
pub open spec fn account_of(meta: AccountMeta) -> TransactionAccount {
    TransactionAccount { pubkey: meta.pubkey, is_signer: meta.is_signer, is_writable: meta.is_writable }
}

/// The account input as `signer` asserts it: where it names `signer`, it signs.
pub open spec fn signed_meta(meta: AccountMeta, signer: Pubkey) -> AccountMeta {
    if meta.pubkey == signer {
        AccountMeta { is_signer: true, ..meta }
    } else {
        meta
    }
}

impl AccountMeta {
    /// An account input that the call may write to.
    pub fn new(pubkey: Pubkey, is_signer: bool) -> (meta: AccountMeta)
        ensures
            meta == (AccountMeta { pubkey, is_signer, is_writable: true }),
    {
        AccountMeta { pubkey, is_signer, is_writable: true }
    }

    /// An account input that the call only reads.
    pub fn new_readonly(pubkey: Pubkey, is_signer: bool) -> (meta: AccountMeta)
        ensures
            meta == (AccountMeta { pubkey, is_signer, is_writable: false }),
    {
        AccountMeta { pubkey, is_signer, is_writable: false }
    }
}

impl<'a> From<&'a TransactionAccount> for AccountMeta {
    fn from(account: &'a TransactionAccount) -> (meta: AccountMeta) {
        match account.is_writable {
            false => AccountMeta::new_readonly(account.pubkey, account.is_signer),
            true => AccountMeta::new(account.pubkey, account.is_signer),
        }
    }
}

impl<'a> FromSpecImpl<&'a TransactionAccount> for AccountMeta {
    open spec fn obeys_from_spec() -> bool {
        true
    }

    open spec fn from_spec(account: &'a TransactionAccount) -> AccountMeta {
        meta_of(*account)
    }
}

impl<'a> From<&'a AccountMeta> for TransactionAccount {
    fn from(account_meta: &'a AccountMeta) -> (account: TransactionAccount) {
        TransactionAccount {
            pubkey: account_meta.pubkey,
            is_signer: account_meta.is_signer,
            is_writable: account_meta.is_writable,
        }
    }
}

impl<'a> FromSpecImpl<&'a AccountMeta> for TransactionAccount {
    open spec fn obeys_from_spec() -> bool {
        true
    }

    open spec fn from_spec(account_meta: &'a AccountMeta) -> TransactionAccount {
        account_of(*account_meta)
    }
}

impl TransactionView {
    /// The call that this record stages.
    pub open spec fn call(self) -> InstructionView {
        InstructionView {
            program_id: self.program_id,
            accounts: self.accounts.map_values(|account: TransactionAccount| meta_of(account)),
            data: self.data,
        }
    }
}

impl InstructionView {
    /// The call with the signature of `signer` asserted: every account input
    /// that names `signer` signs, whatever was staged; nothing else changes.
    pub open spec fn signed_by(self, signer: Pubkey) -> InstructionView {
        InstructionView {
            accounts: self.accounts.map_values(|meta: AccountMeta| signed_meta(meta, signer)),
            ..self
        }
    }
}

impl<'a> From<&'a Transaction> for Instruction {
    fn from(tx: &'a Transaction) -> (ix: Instruction)
        ensures
            ix@ == tx@.call(),
    {
        let mut accounts: Vec<AccountMeta> = Vec::new();
        let mut i: usize = 0;
        while i < tx.accounts.len()
            invariant
                i <= tx.accounts.len(),
                accounts@.len() == i,
                forall|j: int| 0 <= j < i ==> accounts@[j] == meta_of(tx.accounts@[j]),
            decreases tx.accounts.len() - i,
        {
            accounts.push(AccountMeta::from(&tx.accounts[i]));
            i += 1;
        }
        let data = tx.data.clone();
        assert(data@ =~= tx.data@);
        assert(accounts@ =~= tx@.call().accounts);
        Instruction { program_id: tx.program_id, accounts, data }
    }
}

/// Two calls that hold the same are not thereby one value, so no call can be
/// named as the result: `from` states what its result holds instead.
impl<'a> FromSpecImpl<&'a Transaction> for Instruction {
    open spec fn obeys_from_spec() -> bool {
        false
    }

    open spec fn from_spec(tx: &'a Transaction) -> Instruction {
        arbitrary()
    }
}

impl Instruction {
    /// Asserts the signature of `signer` on this call: every account input that
    /// names `signer` is made to sign. This is how a delegated signer, which has
    /// no key to sign with, authorises a replayed call.
    pub fn sign_as(&mut self, signer: &Pubkey)
        ensures
            final(self)@ == old(self)@.signed_by(*signer),
    {
        let mut i: usize = 0;
        while i < self.accounts.len()
            invariant
                i <= self.accounts.len(),
                self.accounts@.len() == old(self).accounts@.len(),
                self.program_id == old(self).program_id,
                self.data == old(self).data,
                forall|j: int| 0 <= j < i ==> self.accounts@[j] == signed_meta(old(self).accounts@[j], *signer),
                forall|j: int| i <= j < self.accounts@.len() ==> self.accounts@[j] == old(self).accounts@[j],
            decreases self.accounts.len() - i,
        {
            if self.accounts[i].pubkey == *signer {
                let meta = self.accounts[i];
                self.accounts[i] = AccountMeta { is_signer: true, ..meta };
            }
            i += 1;
        }
        assert(self.accounts@ =~= old(self)@.signed_by(*signer).accounts);
    }
}

} // verus!
