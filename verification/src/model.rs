use vstd::prelude::*;
use crate::error::TimelockError;
use crate::pubkey::Pubkey;
use crate::state::{delay_elapsed, QueueView, TransactionAccount, TransactionQueueStatus, TransactionView};

verus! {

/// Whether the life of a queue allows it to go from `from` to `to` in one step.
///
/// ```text
/// Created -> Sealed -> TimelockStarted -> Void
///                      TimelockStarted -> Executed
/// ```
pub open spec fn may_follow(from: TransactionQueueStatus, to: TransactionQueueStatus) -> bool {
    ||| from == TransactionQueueStatus::Created && to == TransactionQueueStatus::Sealed
    ||| from == TransactionQueueStatus::Sealed && to == TransactionQueueStatus::TimelockStarted
    ||| from == TransactionQueueStatus::TimelockStarted && to == TransactionQueueStatus::Void
    ||| from == TransactionQueueStatus::TimelockStarted && to == TransactionQueueStatus::Executed
}

/// Whether a queue in the status `from` can come to be in the status `to`, by
/// any number of steps along the graph.
pub open spec fn can_reach(from: TransactionQueueStatus, to: TransactionQueueStatus) -> bool {
    match from {
        TransactionQueueStatus::Created => true,
        TransactionQueueStatus::Sealed => to != TransactionQueueStatus::Created,
        TransactionQueueStatus::TimelockStarted => to != TransactionQueueStatus::Created
            && to != TransactionQueueStatus::Sealed,
        TransactionQueueStatus::Void => to == TransactionQueueStatus::Void,
        TransactionQueueStatus::Executed => to == TransactionQueueStatus::Executed,
    }
}

/// Whether a queue in this status can never change again.
pub open spec fn is_terminal(status: TransactionQueueStatus) -> bool {
    status == TransactionQueueStatus::Void || status == TransactionQueueStatus::Executed
}

/// An operation on a queue, with everything that decides its effect.
pub enum QueueOp {
    /// Append a record that stages a call of `program_id` with these account
    /// inputs and these data.
    Add { program_id: Pubkey, accounts: Seq<TransactionAccount>, data: Seq<u8> },
    /// Close the queue to further records.
    Seal,
    /// Start the clock at slot `now`.
    Start { now: u64 },
    /// Give the queue up at slot `now`, under a timelock with this `delay`.
    Void { delay: u64, now: u64 },
    /// Replay the next record at slot `now`, under a timelock with this
    /// `delay`; `outcome` is what replaying that record gives.
    Execute { delay: u64, now: u64, outcome: Result<(), u64> },
}

impl QueueView {
    /// A queue as it is created: no record, clock not started.
    pub open spec fn created(timelock: Pubkey, transaction_queue_authority: Pubkey) -> QueueView {
        QueueView {
            status: TransactionQueueStatus::Created,
            transactions: Seq::empty(),
            timelock,
            enqueued_slot: 0,
            transaction_queue_authority,
        }
    }

    /// Whether every record has been replayed.
    pub open spec fn all_executed(self) -> bool {
        forall|i: int| 0 <= i < self.transactions.len() ==> (#[trigger] self.transactions[i]).did_execute
    }

    /// Whether record `i` is the first one, in the order of insertion, that has
    /// not been replayed.
    pub open spec fn is_first_pending(self, i: int) -> bool {
        &&& 0 <= i < self.transactions.len()
        &&& !self.transactions[i].did_execute
        &&& forall|j: int| 0 <= j < i ==> (#[trigger] self.transactions[j]).did_execute
    }

    /// The index of the first record that has not been replayed, if there is one.
    pub open spec fn first_pending(self) -> Option<int> {
        if exists|i: int| self.is_first_pending(i) {
            Some(choose|i: int| self.is_first_pending(i))
        } else {
            None
        }
    }

    /// The queue after record `i` has been replayed: the record is marked, and
    /// the queue is `Executed` once no record is left.
    pub open spec fn mark_executed(self, i: int) -> QueueView {
        let transactions = self.transactions.update(i, self.transactions[i].executed());
        let marked = QueueView { transactions, ..self };
        QueueView {
            status: if marked.all_executed() {
                TransactionQueueStatus::Executed
            } else {
                self.status
            },
            ..marked
        }
    }

    /// Appending a record: only while the queue is `Created`. The record goes
    /// to the end and has not been replayed.
    pub open spec fn add_transaction(
        self,
        program_id: Pubkey,
        accounts: Seq<TransactionAccount>,
        data: Seq<u8>,
    ) -> Result<QueueView, TimelockError> {
        if self.status != TransactionQueueStatus::Created {
            Err(TimelockError::CannotAddTransactions)
        } else {
            Ok(
                QueueView {
                    transactions: self.transactions.push(TransactionView::staged(program_id, accounts, data)),
                    ..self
                },
            )
        }
    }

    /// Sealing: only while the queue is `Created`.
    pub open spec fn seal(self) -> Result<QueueView, TimelockError> {
        if self.status != TransactionQueueStatus::Created {
            Err(TimelockError::CannotSealTransactionQueue)
        } else {
            Ok(QueueView { status: TransactionQueueStatus::Sealed, ..self })
        }
    }

    /// Starting the clock: only on a `Sealed` queue; the slot is kept.
    pub open spec fn start(self, now: u64) -> Result<QueueView, TimelockError> {
        if self.status != TransactionQueueStatus::Sealed {
            Err(TimelockError::CannotStartTimelock)
        } else {
            Ok(QueueView { status: TransactionQueueStatus::TimelockStarted, enqueued_slot: now, ..self })
        }
    }

    /// Voiding: only while the clock runs and the delay has not passed.
    pub open spec fn void(self, delay: u64, now: u64) -> Result<QueueView, TimelockError> {
        if self.status != TransactionQueueStatus::TimelockStarted {
            Err(TimelockError::CannotVoidTimelock)
        } else if delay_elapsed(now, self.enqueued_slot, delay) {
            Err(TimelockError::CanOnlyVoidDuringTimelockPeriod)
        } else {
            Ok(QueueView { status: TransactionQueueStatus::Void, ..self })
        }
    }

    /// Whether the queue may be executed at slot `now`: only while the clock
    /// runs and once the delay has passed.
    pub open spec fn execution_allowed(self, delay: u64, now: u64) -> Result<(), TimelockError> {
        if self.status != TransactionQueueStatus::TimelockStarted {
            Err(TimelockError::CannotExecuteTransactions)
        } else if !delay_elapsed(now, self.enqueued_slot, delay) {
            Err(TimelockError::NotReady)
        } else {
            Ok(())
        }
    }

    /// What the queue becomes once replaying its first pending record has given
    /// `outcome`. A failed replay changes nothing; with no record pending there
    /// is nothing to replay and nothing changes.
    pub open spec fn settle(self, outcome: Result<(), u64>) -> Result<QueueView, TimelockError> {
        match self.first_pending() {
            None => Ok(self),
            Some(i) => match outcome {
                Ok(()) => Ok(self.mark_executed(i)),
                Err(code) => Err(TimelockError::ReplayFailed { code }),
            },
        }
    }

    /// Executing the next record, where replaying it gives `outcome`.
    pub open spec fn execute(
        self,
        delay: u64,
        now: u64,
        outcome: Result<(), u64>,
    ) -> Result<QueueView, TimelockError> {
        match self.execution_allowed(delay, now) {
            Err(e) => Err(e),
            Ok(()) => self.settle(outcome),
        }
    }

    /// The effect of one operation.
    pub open spec fn step(self, op: QueueOp) -> Result<QueueView, TimelockError> {
        match op {
            QueueOp::Add { program_id, accounts, data } => self.add_transaction(program_id, accounts, data),
            QueueOp::Seal => self.seal(),
            QueueOp::Start { now } => self.start(now),
            QueueOp::Void { delay, now } => self.void(delay, now),
            QueueOp::Execute { delay, now, outcome } => self.execute(delay, now, outcome),
        }
    }

    /// The queue after the operations `ops`, attempted in this order: an
    /// operation that is accepted takes effect, one that is rejected leaves the
    /// queue as it was.
    pub open spec fn run(self, ops: Seq<QueueOp>) -> QueueView
        decreases ops.len(),
    {
        if ops.len() == 0 {
            self
        } else {
            let before = self.run(ops.drop_last());
            match before.step(ops.last()) {
                Ok(after) => after,
                Err(_) => before,
            }
        }
    }

    /// What holds of every queue that the operations can produce from a
    /// created one: records are replayed in the order of insertion, none before
    /// the clock is started, and the queue is `Executed` exactly when it holds
    /// records and all of them have been replayed.
    pub open spec fn well_formed(self) -> bool {
        &&& forall|i: int, j: int|
            0 <= i <= j < self.transactions.len() && (#[trigger] self.transactions[j]).did_execute
                ==> (#[trigger] self.transactions[i]).did_execute
        &&& (self.status == TransactionQueueStatus::Created || self.status == TransactionQueueStatus::Sealed)
            ==> forall|i: int| 0 <= i < self.transactions.len() ==> !(#[trigger] self.transactions[i]).did_execute
        &&& self.status == TransactionQueueStatus::Executed ==> self.all_executed() && self.transactions.len() > 0
        &&& self.status == TransactionQueueStatus::TimelockStarted && self.transactions.len() > 0
            ==> !self.all_executed()
    }

    /// `first_pending` names the first pending record, and is `None` exactly
    /// when every record has been replayed.
    pub proof fn lemma_first_pending(self)
        ensures
            (match self.first_pending() {
                Some(i) => self.is_first_pending(i),
                None => self.all_executed(),
            }),
    {
        if !(exists|i: int| self.is_first_pending(i)) {
            assert forall|i: int| 0 <= i < self.transactions.len() implies (#[trigger] self.transactions[i]).did_execute by {
                self.lemma_executed_below(i + 1);
            }
        }
    }

    /// With no first pending record, every record below `n` has been replayed.
    proof fn lemma_executed_below(self, n: int)
        requires
            !(exists|i: int| self.is_first_pending(i)),
            0 <= n <= self.transactions.len(),
        ensures
            forall|j: int| 0 <= j < n ==> (#[trigger] self.transactions[j]).did_execute,
        decreases n,
    {
        if n > 0 {
            self.lemma_executed_below(n - 1);
            if !self.transactions[n - 1].did_execute {
                assert(self.is_first_pending(n - 1));
            }
        }
    }

    /// There is at most one first pending record.
    pub proof fn lemma_first_pending_unique(self, i: int)
        requires
            self.is_first_pending(i),
        ensures
            self.first_pending() == Some(i),
    {
        let k = choose|k: int| self.is_first_pending(k);
        assert(self.is_first_pending(k));
        if k < i {
            assert(self.transactions[k].did_execute);
        } else if i < k {
            assert(self.transactions[i].did_execute);
        }
    }
}

} // verus!
