use vstd::prelude::*;
use crate::accounts::{
    Auth, CreateTimelock, CreateTransactionQueue, ExecuteTransactionQueue, StartOrVoidTimelock,
    UpdateTransactionQueue,
};
use crate::error::{ErrorKind, TimelockError};
use crate::instruction::{account_of, AccountMeta};
use crate::model::{can_reach, is_terminal, may_follow, QueueOp};
use crate::pubkey::Pubkey;
use crate::queue::{carried_out, execution_done};
use crate::signer::DelegatedSigner;
use crate::state::{QueueView, TransactionAccount, TransactionQueueStatus, TransactionView};

verus! {

/// The one status in which an operation is accepted.
pub open spec fn accepted_in(op: QueueOp) -> TransactionQueueStatus {
    match op {
        QueueOp::Add { .. } => TransactionQueueStatus::Created,
        QueueOp::Seal => TransactionQueueStatus::Created,
        QueueOp::Start { .. } => TransactionQueueStatus::Sealed,
        QueueOp::Void { .. } => TransactionQueueStatus::TimelockStarted,
        QueueOp::Execute { .. } => TransactionQueueStatus::TimelockStarted,
    }
}

/// The status of a queue only moves along the graph of its life. An operation
/// is rejected in every status but the one it is accepted in; where it is
/// accepted, the status stays or follows one edge of the graph, and which one is
/// fixed by the operation: sealing leads to `Sealed`, starting to
/// `TimelockStarted`, voiding to `Void`, executing to `Executed` or nowhere,
/// appending nowhere.
pub proof fn lemma_status_follows_graph(queue: QueueView, op: QueueOp)
    ensures
        queue.status != accepted_in(op) ==> queue.step(op) is Err,
        (queue.step(op) matches Ok(after) ==> {
            &&& after.status == queue.status || may_follow(queue.status, after.status)
            &&& match op {
                QueueOp::Add { .. } => after.status == TransactionQueueStatus::Created,
                QueueOp::Seal => after.status == TransactionQueueStatus::Sealed,
                QueueOp::Start { .. } => after.status == TransactionQueueStatus::TimelockStarted,
                QueueOp::Void { .. } => after.status == TransactionQueueStatus::Void,
                QueueOp::Execute { .. } => after.status == TransactionQueueStatus::TimelockStarted
                    || after.status == TransactionQueueStatus::Executed,
            }
        }),
{
}

/// A queue that is `Void` or `Executed` rejects every operation: it can never
/// change again.
pub proof fn lemma_terminal_is_final(queue: QueueView, op: QueueOp)
    requires
        is_terminal(queue.status),
    ensures
        queue.step(op) is Err,
{
}

/// Voiding is accepted exactly while the clock runs and the delay has not
/// passed; executing is allowed exactly while the clock runs and the
/// delay has passed. So at no slot can a queue be both voided and executed.
pub proof fn lemma_void_and_execute_windows(queue: QueueView, delay: u64, now: u64)
    ensures
        queue.void(delay, now) is Ok <==> queue.status == TransactionQueueStatus::TimelockStarted
            && now - queue.enqueued_slot < delay,
        queue.execution_allowed(delay, now) is Ok <==> queue.status == TransactionQueueStatus::TimelockStarted
            && now - queue.enqueued_slot >= delay,
        !(queue.void(delay, now) is Ok && queue.execution_allowed(delay, now) is Ok),
        now < queue.enqueued_slot ==> queue.execution_allowed(delay, now) is Err,
{
}

/// Where it is allowed, executing succeeds exactly when no record is pending or the
/// replayed call succeeded; a failed call is handed on with its code.
pub proof fn lemma_execute_succeeds_iff(
    queue: QueueView,
    delay: u64,
    now: u64,
    outcome: Result<(), u64>,
)
    ensures
        (queue.execute(delay, now, outcome) is Ok <==> {
            &&& queue.status == TransactionQueueStatus::TimelockStarted
            &&& now - queue.enqueued_slot >= delay
            &&& (queue.first_pending() is None || outcome is Ok)
        }),
        queue.execution_allowed(delay, now) is Ok && queue.first_pending() is Some ==> (outcome matches Err(code)
            ==> queue.execute(delay, now, outcome) == Err::<QueueView, TimelockError>(
            TimelockError::ReplayFailed { code },
        )),
{
}

/// Whatever the replayed call gives, an execution that does not end in the
/// failure of that call succeeds exactly while the clock runs and once the
/// delay has passed. On success the first pending record, if there is one, is
/// marked, no other record changes, and the queue is `Executed` exactly when
/// every record is marked; with no record pending, and on every rejection,
/// the queue is untouched.
pub proof fn lemma_execution_succeeds_unless_call_fails(
    before: QueueView,
    delay: u64,
    now: u64,
    r: Result<(), TimelockError>,
    after: QueueView,
)
    requires
        execution_done(before, delay, now, r, after),
    ensures
        !(r is Err && r->Err_0 is ReplayFailed) ==> (r is Ok <==> before.status
            == TransactionQueueStatus::TimelockStarted && now - before.enqueued_slot >= delay),
        r is Err && r->Err_0 is ReplayFailed ==> before.status == TransactionQueueStatus::TimelockStarted && now
            - before.enqueued_slot >= delay && before.first_pending() is Some,
        r is Ok && before.first_pending() is None ==> after == before,
        (r is Ok && before.first_pending() is Some ==> {
            let i = before.first_pending()->Some_0;
            &&& after == before.mark_executed(i)
            &&& after.transactions == before.transactions.update(i, before.transactions[i].executed())
            &&& after.status == TransactionQueueStatus::Executed <==> after.all_executed()
        }),
        r is Err ==> after == before,
{
    if before.status == TransactionQueueStatus::TimelockStarted {
        lemma_marking_closes_when_all_marked(before);
    }
}

/// What executing a queue gives is what the model of execution gives for some
/// outcome of the replayed call, and nothing else.
pub proof fn lemma_execution_follows_model(
    before: QueueView,
    delay: u64,
    now: u64,
    r: Result<(), TimelockError>,
    after: QueueView,
)
    ensures
        execution_done(before, delay, now, r, after) <==> exists|outcome: Result<(), u64>|
            carried_out(#[trigger] before.execute(delay, now, outcome), r, before, after),
{
    if execution_done(before, delay, now, r, after) {
        if before.execution_allowed(delay, now) is Ok && !carried_out(before.settle(Ok(())), r, before, after) {
            let code = r->Err_0->code;
            assert(carried_out(before.execute(delay, now, Err(code)), r, before, after));
        } else {
            assert(carried_out(before.execute(delay, now, Ok(())), r, before, after));
        }
    }
    if exists|outcome: Result<(), u64>| carried_out(#[trigger] before.execute(delay, now, outcome), r, before, after) {
        let outcome = choose|outcome: Result<(), u64>|
            carried_out(#[trigger] before.execute(delay, now, outcome), r, before, after);
        assert(carried_out(before.execute(delay, now, outcome), r, before, after));
    }
}

/// Every queue that the operations make of a created one is well formed: a
/// new queue is, and each accepted operation keeps it so.
pub proof fn lemma_well_formed_is_kept(queue: QueueView, op: QueueOp)
    requires
        queue.well_formed(),
    ensures
        queue.step(op) matches Ok(after) ==> after.well_formed(),
{
    if queue.step(op) is Ok {
        let after = queue.step(op)->Ok_0;
        match op {
            QueueOp::Add { program_id, accounts, data } => {
                assert forall|i: int| 0 <= i < after.transactions.len() implies !(#[trigger] after.transactions[i]).did_execute by {
                    if i < queue.transactions.len() {
                        assert(after.transactions[i] == queue.transactions[i]);
                    }
                }
            },
            QueueOp::Seal => {},
            QueueOp::Start { now } => {
                if after.transactions.len() > 0 {
                    assert(!after.transactions[0].did_execute);
                }
            },
            QueueOp::Void { delay, now } => {},
            QueueOp::Execute { delay, now, outcome } => {
                queue.lemma_first_pending();
                match queue.first_pending() {
                    None => {},
                    Some(i) => {
                        lemma_mark_keeps_well_formed(queue, i);
                    },
                }
            },
        }
    }
}

/// A new queue is well formed.
pub proof fn lemma_created_is_well_formed(timelock: Pubkey, transaction_queue_authority: Pubkey)
    ensures
        QueueView::created(timelock, transaction_queue_authority).well_formed(),
{
}

proof fn lemma_mark_keeps_well_formed(queue: QueueView, i: int)
    requires
        queue.well_formed(),
        queue.status == TransactionQueueStatus::TimelockStarted,
        queue.is_first_pending(i),
    ensures
        queue.mark_executed(i).well_formed(),
{
    let after = queue.mark_executed(i);
    assert forall|j: int| 0 <= j < after.transactions.len() implies (#[trigger] after.transactions[j]).did_execute == (j
        <= i) by {
        if j < i {
            assert(queue.transactions[j].did_execute);
        } else if j > i {
            if queue.transactions[j].did_execute {
                assert(queue.transactions[i].did_execute);
            }
        }
    }
    let marked = QueueView { transactions: after.transactions, ..queue };
    if marked.all_executed() {
        assert(after.all_executed());
    } else {
        assert(!after.all_executed());
    }
}

/// Records are only ever appended, and only while the queue is `Created`; what
/// a record stages (target, account inputs, data) never changes; and a record
/// that has been replayed stays so. Only executing marks a record, and it marks
/// at most the first pending one.
pub proof fn lemma_records_are_kept(queue: QueueView, op: QueueOp)
    ensures
        (queue.step(op) matches Ok(after) ==> {
            &&& queue.transactions.len() <= after.transactions.len()
            &&& after.transactions.len() > queue.transactions.len() ==> op is Add
                && after.transactions.len() == queue.transactions.len() + 1
            &&& forall|i: int|
                0 <= i < queue.transactions.len() ==> {
                    &&& (#[trigger] after.transactions[i]).same_call(queue.transactions[i])
                    &&& queue.transactions[i].did_execute ==> after.transactions[i].did_execute
                    &&& after.transactions[i].did_execute != queue.transactions[i].did_execute ==> op is Execute
                        && queue.is_first_pending(i)
                }
            &&& after.timelock == queue.timelock
            &&& after.transaction_queue_authority == queue.transaction_queue_authority
        }),
{
    if queue.step(op) is Ok {
        if op is Execute {
            queue.lemma_first_pending();
        }
    }
}

/// Marking the first pending record of a queue whose clock runs marks that
/// record and no other, and leaves the queue `Executed` exactly when every
/// record is marked.
pub proof fn lemma_marking_closes_when_all_marked(queue: QueueView)
    requires
        queue.status == TransactionQueueStatus::TimelockStarted,
    ensures
        (queue.first_pending() matches Some(i) ==> {
            let after = queue.mark_executed(i);
            &&& queue.is_first_pending(i)
            &&& after.transactions == queue.transactions.update(i, queue.transactions[i].executed())
            &&& after.transactions[i] == queue.transactions[i].executed()
            &&& after.status == TransactionQueueStatus::Executed <==> after.all_executed()
            &&& after.status == TransactionQueueStatus::Executed || after.status
                == TransactionQueueStatus::TimelockStarted
        }),
{
    queue.lemma_first_pending();
    if queue.first_pending() is Some {
        let i = queue.first_pending()->Some_0;
        let after = queue.mark_executed(i);
        let marked = QueueView { transactions: after.transactions, ..queue };
        if marked.all_executed() {
            assert(after.all_executed());
        } else {
            assert(!after.all_executed());
        }
    }
}

/// Once the last pending record has been replayed the queue is `Executed`, and
/// every further attempt to execute it is rejected for its status.
pub proof fn lemma_last_replay_closes_queue(
    queue: QueueView,
    delay: u64,
    now: u64,
    later: u64,
    outcome: Result<(), u64>,
)
    requires
        queue.well_formed(),
        queue.first_pending() == Some(queue.transactions.len() - 1),
        queue.execute(delay, now, Ok(())) is Ok,
    ensures
        ({
            let after = queue.execute(delay, now, Ok(()))->Ok_0;
            &&& after.status == TransactionQueueStatus::Executed
            &&& after.all_executed()
            &&& after.execute(delay, later, outcome) == Err::<QueueView, TimelockError>(
                TimelockError::CannotExecuteTransactions,
            )
        }),
{
    queue.lemma_first_pending();
    let i = queue.transactions.len() - 1;
    let after = queue.mark_executed(i);
    assert forall|j: int| 0 <= j < after.transactions.len() implies (#[trigger] after.transactions[j]).did_execute by {
        if j < i {
            assert(queue.transactions[j].did_execute);
        }
    }
    let marked = QueueView { transactions: after.transactions, ..queue };
    assert(marked.all_executed());
}

/// A successful step of execution marks exactly one more record: in a well
/// formed queue the first pending record is the one whose index is the number
/// of records replayed so far, and the queue is `Executed` afterwards exactly
/// when that record was the last.
pub proof fn lemma_execute_marks_next(queue: QueueView, delay: u64, now: u64)
    requires
        queue.well_formed(),
        queue.execute(delay, now, Ok(())) is Ok,
        queue.first_pending() is Some,
    ensures
        ({
            let i = queue.first_pending()->Some_0;
            let after = queue.execute(delay, now, Ok(()))->Ok_0;
            &&& forall|j: int| 0 <= j < queue.transactions.len() ==> (#[trigger] queue.transactions[j]).did_execute == (j < i)
            &&& forall|j: int| 0 <= j < after.transactions.len() ==> (#[trigger] after.transactions[j]).did_execute == (j <= i)
            &&& after.status == TransactionQueueStatus::Executed <==> i == queue.transactions.len() - 1
        }),
{
    queue.lemma_first_pending();
    let i = queue.first_pending()->Some_0;
    let after = queue.mark_executed(i);
    assert forall|j: int| 0 <= j < queue.transactions.len() implies (#[trigger] queue.transactions[j]).did_execute == (j
        < i) by {
        if j > i && queue.transactions[j].did_execute {
            assert(queue.transactions[i].did_execute);
        }
    }
    assert forall|j: int| 0 <= j < after.transactions.len() implies (#[trigger] after.transactions[j]).did_execute == (j
        <= i) by {
        if j != i {
            assert(after.transactions[j] == queue.transactions[j]);
        }
    }
    let marked = QueueView { transactions: after.transactions, ..queue };
    if i == queue.transactions.len() - 1 {
        assert(marked.all_executed());
    } else {
        assert(!marked.transactions[i + 1].did_execute);
    }
}

/// A record that has been replayed is never replayed again: whatever the call
/// would give, the attempt is refused as `AlreadyExecuted`. And a record that
/// is replayed with success is marked.
pub proof fn lemma_replayed_record_is_refused(record: TransactionView, outcome: Result<(), u64>)
    ensures
        record.did_execute ==> record.replayed(outcome) == Err::<TransactionView, TimelockError>(
            TimelockError::AlreadyExecuted,
        ),
        (record.replayed(outcome) matches Ok(after) ==> {
            &&& after.did_execute
            &&& after.same_call(record)
            &&& after.replayed(outcome) == Err::<TransactionView, TimelockError>(TimelockError::AlreadyExecuted)
        }),
{
}

/// The call that is replayed is the call that was staged. For a record
/// appended with a target, account inputs and data, at whatever later time and
/// after whatever operations on its queue: the call has that target and those
/// data, its account inputs give back the staged ones one for one, and in the
/// name of `signer` it differs from that only in that the inputs naming
/// `signer` sign.
pub proof fn lemma_replay_reconstructs_call(
    program_id: Pubkey,
    accounts: Seq<TransactionAccount>,
    data: Seq<u8>,
    record: TransactionView,
    signer: Pubkey,
)
    requires
        record.same_call(TransactionView::staged(program_id, accounts, data)),
    ensures
        record.call().program_id == program_id,
        record.call().data == data,
        record.call().accounts.map_values(|meta: AccountMeta| account_of(meta)) == accounts,
        record.call().signed_by(signer).program_id == program_id,
        record.call().signed_by(signer).data == data,
        record.call().signed_by(signer).accounts.len() == accounts.len(),
        forall|i: int|
            0 <= i < accounts.len() ==> (#[trigger] record.call().signed_by(signer).accounts[i]) == (AccountMeta {
                pubkey: accounts[i].pubkey,
                is_signer: accounts[i].is_signer || accounts[i].pubkey == signer,
                is_writable: accounts[i].is_writable,
            }),
{
    assert(record.call().accounts.map_values(|meta: AccountMeta| account_of(meta)) =~= accounts);
}

/// The record that appending puts at the end of a queue stages the call that
/// was handed in, and has not been replayed.
pub proof fn lemma_appended_record(
    queue: QueueView,
    program_id: Pubkey,
    accounts: Seq<TransactionAccount>,
    data: Seq<u8>,
)
    ensures
        (queue.add_transaction(program_id, accounts, data) matches Ok(after) ==> {
            &&& after.transactions.last() == TransactionView::staged(program_id, accounts, data)
            &&& after.transactions.drop_last() == queue.transactions
            &&& after.status == queue.status
        }),
{
    if queue.add_transaction(program_id, accounts, data) is Ok {
        let after = queue.add_transaction(program_id, accounts, data)->Ok_0;
        assert(after.transactions.drop_last() =~= queue.transactions);
    }
}

/// `can_reach` is what the graph allows in any number of steps: every status
/// reaches itself, one edge is one step, and steps add up.
pub proof fn lemma_can_reach_is_the_closure_of_the_graph(
    a: TransactionQueueStatus,
    b: TransactionQueueStatus,
    c: TransactionQueueStatus,
)
    ensures
        can_reach(a, a),
        may_follow(a, b) ==> can_reach(a, b),
        can_reach(a, b) && can_reach(b, c) ==> can_reach(a, c),
        can_reach(a, b) && a != b ==> exists|via: TransactionQueueStatus| may_follow(a, via) && can_reach(via, b),
{
    if can_reach(a, b) && a != b {
        match a {
            TransactionQueueStatus::Created => {
                assert(may_follow(a, TransactionQueueStatus::Sealed) && can_reach(TransactionQueueStatus::Sealed, b));
            },
            TransactionQueueStatus::Sealed => {
                assert(may_follow(a, TransactionQueueStatus::TimelockStarted) && can_reach(
                    TransactionQueueStatus::TimelockStarted,
                    b,
                ));
            },
            _ => {
                assert(may_follow(a, b) && can_reach(b, b));
            },
        }
    }
}

/// Whatever operations are attempted on a queue, in whatever order and with
/// whatever arguments, the status that it ends in is one that the graph lets it
/// reach from the status that it began in.
pub proof fn lemma_run_follows_graph(queue: QueueView, ops: Seq<QueueOp>)
    ensures
        can_reach(queue.status, queue.run(ops).status),
    decreases ops.len(),
{
    if ops.len() > 0 {
        let before = queue.run(ops.drop_last());
        lemma_run_follows_graph(queue, ops.drop_last());
        lemma_status_follows_graph(before, ops.last());
    }
}

/// Whatever operations are attempted on a queue that is `Void` or `Executed`,
/// the queue stays as it is.
pub proof fn lemma_run_from_terminal(queue: QueueView, ops: Seq<QueueOp>)
    requires
        is_terminal(queue.status),
    ensures
        queue.run(ops) == queue,
    decreases ops.len(),
{
    if ops.len() > 0 {
        lemma_run_from_terminal(queue, ops.drop_last());
        lemma_terminal_is_final(queue, ops.last());
    }
}

/// Whatever operations are attempted on a well formed queue, it stays well
/// formed.
pub proof fn lemma_run_keeps_well_formed(queue: QueueView, ops: Seq<QueueOp>)
    requires
        queue.well_formed(),
    ensures
        queue.run(ops).well_formed(),
    decreases ops.len(),
{
    if ops.len() > 0 {
        lemma_run_keeps_well_formed(queue, ops.drop_last());
        lemma_well_formed_is_kept(queue.run(ops.drop_last()), ops.last());
    }
}

/// Whatever operations are attempted on a queue, every record that it held
/// is still there, in its place, staging the call that it staged; a record
/// that had been replayed is still marked so; and the queue still belongs to
/// the same timelock and has the same authority. Once the queue has left
/// `Created`, no record is added either.
pub proof fn lemma_run_keeps_records(queue: QueueView, ops: Seq<QueueOp>)
    ensures
        queue.transactions.len() <= queue.run(ops).transactions.len(),
        queue.status != TransactionQueueStatus::Created ==> queue.run(ops).transactions.len()
            == queue.transactions.len(),
        (forall|i: int|
            0 <= i < queue.transactions.len() ==> {
                &&& (#[trigger] queue.run(ops).transactions[i]).same_call(queue.transactions[i])
                &&& queue.transactions[i].did_execute ==> queue.run(ops).transactions[i].did_execute
            }),
        queue.run(ops).timelock == queue.timelock,
        queue.run(ops).transaction_queue_authority == queue.transaction_queue_authority,
    decreases ops.len(),
{
    if ops.len() > 0 {
        let before = queue.run(ops.drop_last());
        lemma_run_keeps_records(queue, ops.drop_last());
        lemma_run_follows_graph(queue, ops.drop_last());
        lemma_records_are_kept(before, ops.last());
        lemma_status_follows_graph(before, ops.last());
        let after = queue.run(ops);
        assert forall|i: int| 0 <= i < queue.transactions.len() implies {
            &&& (#[trigger] after.transactions[i]).same_call(queue.transactions[i])
            &&& queue.transactions[i].did_execute ==> after.transactions[i].did_execute
        } by {
            assert(before.transactions[i].same_call(queue.transactions[i]));
        }
    }
}

/// Whether the operation `op`, attempted on the queue `before`, replays
/// record `i` with success.
pub open spec fn replays(before: QueueView, op: QueueOp, i: int) -> bool {
    &&& op matches QueueOp::Execute { outcome, .. }
    &&& outcome is Ok
    &&& before.step(op) is Ok
    &&& before.first_pending() == Some(i)
}

/// How many of the operations `ops`, attempted in this order on `queue`,
/// replay record `i` with success.
pub open spec fn times_replayed(queue: QueueView, ops: Seq<QueueOp>, i: int) -> nat
    decreases ops.len(),
{
    if ops.len() == 0 {
        0
    } else {
        let earlier = times_replayed(queue, ops.drop_last(), i);
        if replays(queue.run(ops.drop_last()), ops.last(), i) {
            earlier + 1
        } else {
            earlier
        }
    }
}

/// Whatever operations are attempted on a queue, each of its records is
/// replayed with success at most once: not at all if it had been replayed
/// before, and otherwise once exactly if it is marked in the end.
pub proof fn lemma_each_record_replayed_at_most_once(queue: QueueView, ops: Seq<QueueOp>, i: int)
    requires
        0 <= i < queue.transactions.len(),
    ensures
        times_replayed(queue, ops, i) <= 1,
        queue.transactions[i].did_execute ==> times_replayed(queue, ops, i) == 0,
        !queue.transactions[i].did_execute ==> (times_replayed(queue, ops, i) == 1
            <==> queue.run(ops).transactions[i].did_execute),
    decreases ops.len(),
{
    lemma_run_keeps_records(queue, ops);
    if ops.len() > 0 {
        let before = queue.run(ops.drop_last());
        let op = ops.last();
        lemma_each_record_replayed_at_most_once(queue, ops.drop_last(), i);
        lemma_run_keeps_records(queue, ops.drop_last());
        lemma_records_are_kept(before, op);
        before.lemma_first_pending();
        if replays(before, op, i) {
            assert(!before.transactions[i].did_execute);
            assert(queue.run(ops) == before.mark_executed(i));
            assert(queue.run(ops).transactions[i].did_execute);
        } else if before.step(op) is Ok {
            let after = before.step(op)->Ok_0;
            assert(after == queue.run(ops));
            if after.transactions[i].did_execute != before.transactions[i].did_execute {
                assert(op is Execute && before.is_first_pending(i));
                before.lemma_first_pending_unique(i);
            }
        }
    }
}

/// Whoever is not admitted to an operation is answered with an error of
/// authorization, whatever the accounts presented and whatever signer was
/// derived or found.
pub proof fn lemma_refusal_is_of_authorization(
    create_timelock: CreateTimelock,
    auth: Auth,
    create_transaction_queue: CreateTransactionQueue,
    update_transaction_queue: UpdateTransactionQueue,
    start_or_void_timelock: StartOrVoidTimelock,
    execute_transaction_queue: ExecuteTransactionQueue,
    signer: Option<DelegatedSigner>,
)
    ensures
        create_timelock.refusal(signer).spec_kind() == ErrorKind::Authorization,
        auth.refusal(signer).spec_kind() == ErrorKind::Authorization,
        create_transaction_queue.refusal().spec_kind() == ErrorKind::Authorization,
        update_transaction_queue.refusal().spec_kind() == ErrorKind::Authorization,
        start_or_void_timelock.refusal().spec_kind() == ErrorKind::Authorization,
        execute_transaction_queue.refusal(signer).spec_kind() == ErrorKind::Authorization,
{
}

/// Starting and voiding are for the authority of the queue's own timelock
/// alone: a caller who has not signed, who is not the authority of the
/// timelock presented, or who presents another timelock than the one that the
/// queue was created under, is not admitted.
pub proof fn lemma_start_and_void_ask_for_the_own_timelock(ctx: StartOrVoidTimelock)
    ensures
        ctx.admits() <==> ctx.authority.is_signer && ctx.authority.key == ctx.timelock.authority
            && ctx.transaction_queue.timelock == ctx.timelock_key,
        !ctx.authority.is_signer ==> ctx.refusal() == TimelockError::MissingSignature,
        ctx.authority.is_signer && ctx.authority.key != ctx.timelock.authority ==> ctx.refusal()
            == TimelockError::WrongAuthority,
        ctx.authority.proves(ctx.timelock.authority) && ctx.transaction_queue.timelock != ctx.timelock_key
            ==> ctx.refusal() == TimelockError::WrongTimelock,
{
}

} // verus!
