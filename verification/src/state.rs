use vstd::prelude::*;
use crate::error::TimelockError;
use crate::pubkey::Pubkey;

verus! {

/// The configuration of one timelock.
#[derive(Clone, Copy, Debug, PartialEq, Eq)]
pub struct Timelock {
    /// Who may start and void queues.
    pub authority: Pubkey,
    /// The offset from which the delegated signer of this timelock is derived.
    pub signer_bump: u8,
    /// How many slots must pass between the start of a queue and its execution.
    pub delay_in_slots: u64,
}

/// Where a queue stands in its life.
#[derive(Clone, Copy, Debug, PartialEq, Eq, Structural)]
pub enum TransactionQueueStatus {
    Created,
    Sealed,
    TimelockStarted,
    Void,
    Executed,
}

/// One account input of a staged instruction.
#[derive(Clone, Copy, Debug, PartialEq, Eq)]
pub struct TransactionAccount {
    pub pubkey: Pubkey,
    pub is_signer: bool,
    pub is_writable: bool,
}

/// A staged instruction.
#[derive(Clone, Debug, PartialEq, Eq)]
pub struct Transaction {
    /// The program that the instruction is replayed against.
    pub program_id: Pubkey,
    /// The account inputs of the call, in order.
    pub accounts: Vec<TransactionAccount>,
    /// The instruction data.
    pub data: Vec<u8>,
    /// Whether the instruction has been replayed with success.
    pub did_execute: bool,
}

/// A batch of staged instructions, executed in the order of insertion.
#[derive(Clone, Debug, PartialEq, Eq)]
pub struct TransactionQueue {
    pub status: TransactionQueueStatus,
    pub transactions: Vec<Transaction>,
    /// The timelock that this queue belongs to.
    pub timelock: Pubkey,
    /// The slot at which the clock was started; meaningless before that.
    pub enqueued_slot: u64,
    /// Who may append to the queue and seal it.
    pub transaction_queue_authority: Pubkey,
}

/// What a staged instruction holds.
pub struct TransactionView {
    pub program_id: Pubkey,
    pub accounts: Seq<TransactionAccount>,
    pub data: Seq<u8>,
    pub did_execute: bool,
}

/// What a queue holds.
pub struct QueueView {
    pub status: TransactionQueueStatus,
    pub transactions: Seq<TransactionView>,
    pub timelock: Pubkey,
    pub enqueued_slot: u64,
    pub transaction_queue_authority: Pubkey,
}

impl View for Transaction {
    type V = TransactionView;

    open spec fn view(&self) -> TransactionView {
        TransactionView {
            program_id: self.program_id,
            accounts: self.accounts@,
            data: self.data@,
            did_execute: self.did_execute,
        }
    }
}

impl View for TransactionQueue {
    type V = QueueView;

    open spec fn view(&self) -> QueueView {
        QueueView {
            status: self.status,
            transactions: Seq::new(self.transactions@.len(), |i: int| self.transactions@[i]@),
            timelock: self.timelock,
            enqueued_slot: self.enqueued_slot,
            transaction_queue_authority: self.transaction_queue_authority,
        }
    }
}

/// Whether `delay` slots have passed at slot `now` since slot `start`.
///
/// The difference is taken over the integers: a clock that reads earlier than
/// `start` has not let the delay pass, whatever the delay is.
pub open spec fn delay_elapsed(now: u64, start: u64, delay: u64) -> bool {
    now - start >= delay
}

/// Whether `delay` slots have passed at slot `now` since slot `start`.
pub fn has_delay_elapsed(now: u64, start: u64, delay: u64) -> (elapsed: bool)
    ensures
        elapsed == delay_elapsed(now, start, delay),
{
    now >= start && now - start >= delay
}

impl TransactionView {
    /// The record as it is first staged.
    pub open spec fn staged(
        program_id: Pubkey,
        accounts: Seq<TransactionAccount>,
        data: Seq<u8>,
    ) -> TransactionView {
        TransactionView { program_id, accounts, data, did_execute: false }
    }

    /// The same record, marked as replayed.
    pub open spec fn executed(self) -> TransactionView {
        TransactionView { did_execute: true, ..self }
    }

    /// Whether `other` stages the same call: target, accounts and data.
    pub open spec fn same_call(self, other: TransactionView) -> bool {
        &&& self.program_id == other.program_id
        &&& self.accounts == other.accounts
        &&& self.data == other.data
    }
}

} // verus!
