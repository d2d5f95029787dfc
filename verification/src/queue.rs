use vstd::prelude::*;
use anchor_lang::prelude::AccountInfo;
use crate::error::TimelockError;
use crate::laws::{lemma_created_is_well_formed, lemma_marking_closes_when_all_marked, lemma_well_formed_is_kept};
use crate::model::QueueOp;
use crate::pubkey::Pubkey;
use crate::signer::DelegatedSigner;
use crate::state::{has_delay_elapsed, QueueView, Transaction, TransactionAccount, TransactionQueue, TransactionQueueStatus};

verus! {

/// Whether an operation that answered `r` and took the queue from `before` to
/// `after` did what `expected` says: on success the queue is the expected one,
/// on rejection the error is the expected one and the queue is untouched.
pub open spec fn carried_out(
    expected: Result<QueueView, TimelockError>,
    r: Result<(), TimelockError>,
    before: QueueView,
    after: QueueView,
) -> bool {
    match expected {
        Ok(queue) => r is Ok && after == queue,
        Err(e) => r == Err::<(), TimelockError>(e) && after == before,
    }
}

/// Whether `r` and `after` are what executing the queue `before` at slot `now`
/// can give, under a timelock with the delay `delay`.
///
/// Where execution is not allowed the queue is untouched and the error says
/// why. Where it is allowed the replayed call decides: either it succeeded, and
/// the queue is as `settle(Ok(()))` says, or there was a record to replay, the
/// call failed, and the queue is untouched.
pub open spec fn execution_done(
    before: QueueView,
    delay: u64,
    now: u64,
    r: Result<(), TimelockError>,
    after: QueueView,
) -> bool {
    match before.execution_allowed(delay, now) {
        Err(e) => r == Err::<(), TimelockError>(e) && after == before,
        Ok(()) => {
            ||| carried_out(before.settle(Ok(())), r, before, after)
            ||| before.first_pending() is Some && r is Err && r->Err_0 is ReplayFailed && after == before
        },
    }
}

impl TransactionQueue {
    /// A queue of the timelock `timelock` with no record in it, which
    /// `transaction_queue_authority` may fill and seal.
    pub fn new(timelock: Pubkey, transaction_queue_authority: Pubkey) -> (queue: TransactionQueue)
        ensures
            queue@ == QueueView::created(timelock, transaction_queue_authority),
            queue@.well_formed(),
    {
        let queue = TransactionQueue {
            status: TransactionQueueStatus::Created,
            transactions: Vec::new(),
            timelock,
            enqueued_slot: 0,
            transaction_queue_authority,
        };
        assert(queue@.transactions =~= Seq::empty());
        proof {
            lemma_created_is_well_formed(timelock, transaction_queue_authority);
        }
        queue
    }

    /// Appends a record that stages the given call. Rejected, with the queue
    /// untouched, unless the queue is `Created`.
    pub fn add(
        &mut self,
        program_id: Pubkey,
        accounts: Vec<TransactionAccount>,
        data: Vec<u8>,
    ) -> (r: Result<(), TimelockError>)
        ensures
            carried_out(
                old(self)@.add_transaction(program_id, accounts@, data@),
                r,
                old(self)@,
                final(self)@,
            ),
            old(self)@.well_formed() ==> final(self)@.well_formed(),
    {
        proof {
            if self@.well_formed() {
                lemma_well_formed_is_kept(self@, QueueOp::Add { program_id, accounts: accounts@, data: data@ });
            }
        }
        if self.status != TransactionQueueStatus::Created {
            return Err(TimelockError::CannotAddTransactions);
        }
        let this_transaction = Transaction { program_id, accounts, data, did_execute: false };
        self.transactions.push(this_transaction);
        assert(self@.transactions =~= old(self)@.transactions.push(this_transaction@));
        Ok(())
    }

    /// Closes the queue to further records. Rejected, with the queue untouched,
    /// unless the queue is `Created`.
    pub fn seal(&mut self) -> (r: Result<(), TimelockError>)
        ensures
            carried_out(old(self)@.seal(), r, old(self)@, final(self)@),
            old(self)@.well_formed() ==> final(self)@.well_formed(),
    {
        proof {
            if self@.well_formed() {
                lemma_well_formed_is_kept(self@, QueueOp::Seal);
            }
        }
        if self.status != TransactionQueueStatus::Created {
            return Err(TimelockError::CannotSealTransactionQueue);
        }
        self.status = TransactionQueueStatus::Sealed;
        Ok(())
    }

    /// Starts the clock at slot `now`. Rejected, with the queue untouched,
    /// unless the queue is `Sealed`.
    pub fn start(&mut self, now: u64) -> (r: Result<(), TimelockError>)
        ensures
            carried_out(old(self)@.start(now), r, old(self)@, final(self)@),
            old(self)@.well_formed() ==> final(self)@.well_formed(),
    {
        proof {
            if self@.well_formed() {
                lemma_well_formed_is_kept(self@, QueueOp::Start { now });
            }
        }
        if self.status != TransactionQueueStatus::Sealed {
            return Err(TimelockError::CannotStartTimelock);
        }
        self.status = TransactionQueueStatus::TimelockStarted;
        self.enqueued_slot = now;
        Ok(())
    }

    /// Gives the queue up at slot `now`, under a timelock with the delay
    /// `delay`. Succeeds exactly when the clock runs and the delay has not yet
    /// passed; otherwise the queue is untouched.
    pub fn void(&mut self, delay: u64, now: u64) -> (r: Result<(), TimelockError>)
        ensures
            carried_out(old(self)@.void(delay, now), r, old(self)@, final(self)@),
            r is Ok <==> old(self).status == TransactionQueueStatus::TimelockStarted
                && now - old(self).enqueued_slot < delay,
            old(self)@.well_formed() ==> final(self)@.well_formed(),
    {
        if self.status != TransactionQueueStatus::TimelockStarted {
            return Err(TimelockError::CannotVoidTimelock);
        }
        if has_delay_elapsed(now, self.enqueued_slot, delay) {
            return Err(TimelockError::CanOnlyVoidDuringTimelockPeriod);
        }
        self.status = TransactionQueueStatus::Void;
        Ok(())
    }

    /// Whether the queue may be executed at slot `now`, under a timelock with
    /// the delay `delay`: exactly when the clock runs and the delay has passed.
    pub fn check_execution(&self, delay: u64, now: u64) -> (r: Result<(), TimelockError>)
        ensures
            r == self@.execution_allowed(delay, now),
            r is Ok <==> self.status == TransactionQueueStatus::TimelockStarted
                && now - self.enqueued_slot >= delay,
    {
        if self.status != TransactionQueueStatus::TimelockStarted {
            return Err(TimelockError::CannotExecuteTransactions);
        }
        if !has_delay_elapsed(now, self.enqueued_slot, delay) {
            return Err(TimelockError::NotReady);
        }
        Ok(())
    }

    /// The index of the first record, in the order of insertion, that has not
    /// been replayed; `None` when there is none.
    pub fn next_pending(&self) -> (next: Option<usize>)
        ensures
            (match next {
                Some(i) => self@.is_first_pending(i as int),
                None => self@.all_executed(),
            }),
            (self@.first_pending() == match next {
                Some(i) => Some(i as int),
                None => None,
            }),
    {
        let mut i: usize = 0;
        while i < self.transactions.len()
            invariant
                i <= self.transactions.len(),
                forall|j: int| 0 <= j < i ==> (#[trigger] self@.transactions[j]).did_execute,
            decreases self.transactions.len() - i,
        {
            if !self.transactions[i].did_execute {
                proof {
                    self@.lemma_first_pending_unique(i as int);
                }
                return Some(i);
            }
            i += 1;
        }
        proof {
            self@.lemma_first_pending();
        }
        None
    }

    /// Marks the queue `Executed` if no record is left to replay.
    fn close_if_done(&mut self)
        ensures
            final(self)@ == (QueueView {
                status: if old(self)@.all_executed() {
                    TransactionQueueStatus::Executed
                } else {
                    old(self)@.status
                },
                ..old(self)@
            }),
    {
        let ghost before = self@;
        if self.next_pending().is_none() {
            self.status = TransactionQueueStatus::Executed;
        } else {
            proof {
                let i = self@.first_pending()->Some_0;
                assert(!self@.transactions[i].did_execute);
            }
        }
        assert(self@.transactions =~= before.transactions);
    }

    /// Marks the first pending record as `outcome` says, and the queue
    /// `Executed` once every record is marked.
    fn settle(&mut self, outcome: Result<(), u64>) -> (r: Result<(), TimelockError>)
        ensures
            carried_out(old(self)@.settle(outcome), r, old(self)@, final(self)@),
    {
        match self.next_pending() {
            None => Ok(()),
            Some(i) => {
                let ghost before = self@;
                match self.transactions[i].record_outcome(outcome) {
                    Err(e) => {
                        assert(self@.transactions =~= before.transactions);
                        Err(e)
                    },
                    Ok(()) => {
                        assert(self@.transactions =~= before.transactions.update(
                            i as int,
                            before.transactions[i as int].executed(),
                        ));
                        self.close_if_done();
                        Ok(())
                    },
                }
            },
        }
    }

    /// Carries out one step of execution at slot `now`, under a timelock with
    /// the delay `delay`, where replaying the first pending record gives
    /// `outcome`.
    ///
    /// Rejected, with the queue untouched, unless the clock runs and the delay
    /// has passed. Then, on a success of the call, the first pending record is
    /// marked, and the queue is `Executed` once every record is; a failure of
    /// the call is handed on and nothing changes. With no record pending
    /// nothing is there to replay: the step succeeds and changes nothing,
    /// whatever `outcome` is.
    pub fn execute_with_outcome(
        &mut self,
        delay: u64,
        now: u64,
        outcome: Result<(), u64>,
    ) -> (r: Result<(), TimelockError>)
        ensures
            carried_out(old(self)@.execute(delay, now, outcome), r, old(self)@, final(self)@),
            old(self)@.well_formed() ==> final(self)@.well_formed(),
    {
        proof {
            if self@.well_formed() {
                lemma_well_formed_is_kept(self@, QueueOp::Execute { delay, now, outcome });
            }
        }
        match self.check_execution(delay, now) {
            Err(e) => Err(e),
            Ok(()) => self.settle(outcome),
        }
    }

    /// Executes the next record at slot `now`, under a timelock with the delay
    /// `delay`: the first record that has not been replayed is replayed in the
    /// name of `signer` against the accounts that the caller supplies, and what
    /// that call gives is handed to `execute_with_outcome`.
    ///
    /// Rejected, with the queue untouched and no call made, unless the clock
    /// runs and the delay has passed. With no record pending no call is made
    /// either, and the step succeeds. With a record pending the call is made,
    /// and the called program decides: unless the result is the failure of that
    /// call, the step succeeds, the first pending record is marked, and the
    /// queue is `Executed` exactly when every record is marked.
    pub fn execute(
        &mut self,
        delay: u64,
        now: u64,
        signer: &DelegatedSigner,
        account_infos: &[AccountInfo<'_>],
    ) -> (r: Result<(), TimelockError>)
        ensures
            execution_done(old(self)@, delay, now, r, final(self)@),
            r is Ok ==> old(self).status == TransactionQueueStatus::TimelockStarted
                && now - old(self).enqueued_slot >= delay,
            old(self).status == TransactionQueueStatus::TimelockStarted && now - old(self).enqueued_slot >= delay
                ==> r is Ok || (r is Err && r->Err_0 is ReplayFailed && old(self)@.first_pending() is Some),
            r is Ok && old(self)@.first_pending() is None ==> final(self)@ == old(self)@,
            (r is Ok && old(self)@.first_pending() is Some ==> {
                let i = old(self)@.first_pending()->Some_0;
                &&& final(self)@ == old(self)@.mark_executed(i)
                &&& final(self)@.transactions[i] == old(self)@.transactions[i].executed()
                &&& final(self).status == TransactionQueueStatus::Executed <==> final(self)@.all_executed()
            }),
            r is Err ==> final(self)@ == old(self)@,
            old(self)@.well_formed() ==> final(self)@.well_formed(),
    {
        match self.check_execution(delay, now) {
            Err(e) => {
                return Err(e);
            },
            Ok(()) => {},
        }
        let outcome = match self.next_pending() {
            None => Ok(()),
            Some(i) => self.transactions[i].invoke(signer, account_infos),
        };
        proof {
            lemma_marking_closes_when_all_marked(self@);
        }
        self.execute_with_outcome(delay, now, outcome)
    }
}

} // verus!
