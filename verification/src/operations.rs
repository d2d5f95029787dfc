use vstd::prelude::*;
use anchor_lang::prelude::AccountInfo;
use crate::accounts::{Auth, CreateTimelock, CreateTransactionQueue, ExecuteTransactionQueue, StartOrVoidTimelock, UpdateTransactionQueue};
use crate::error::TimelockError;
use crate::pubkey::Pubkey;
use crate::queue::{carried_out, execution_done};
use crate::signer::{signer_matches, DelegatedSigner};
use crate::state::{QueueView, Timelock, TransactionAccount, TransactionQueue, TransactionQueueStatus};

verus! {

/// Creates a timelock with the given authority and delay in the account that
/// the caller presents, and keeps the offset of its delegated signer.
///
/// The account that is to hold the timelock must have signed, and the account
/// presented as the delegated signer must be the one that `program_id` finds
/// for the new timelock; the account must hold nothing yet. On rejection
/// nothing changes. The offset that is kept derives the signer that was
/// presented, so that this signer is admitted by the timelock from then on.
pub fn create_timelock(
    program_id: &Pubkey,
    ctx: &mut CreateTimelock,
    authority: Pubkey,
    delay_in_slots: u64,
) -> (r: Result<(), TimelockError>)
    ensures
        ({
            let found = DelegatedSigner::found(*program_id, old(ctx).timelock_key.key);
            if !old(ctx).admits(found) {
                r == Err::<(), TimelockError>(old(ctx).refusal(found)) && *final(ctx) == *old(ctx)
            } else if old(ctx).timelock is Some {
                r == Err::<(), TimelockError>(TimelockError::AlreadyInitialized) && *final(ctx) == *old(ctx)
            } else {
                &&& r is Ok
                &&& *final(ctx) == (CreateTimelock {
                    timelock: Some(Timelock { authority, signer_bump: found->Some_0.bump, delay_in_slots }),
                    ..*old(ctx)
                })
                &&& signer_matches(
                    DelegatedSigner::derived(*program_id, old(ctx).timelock_key.key, found->Some_0.bump),
                    old(ctx).timelock_signer,
                )
            }
        }),
{
    let found = DelegatedSigner::find(program_id, &ctx.timelock_key.key);
    match ctx.authorize(&found) {
        Err(e) => Err(e),
        Ok(signer) => {
            if ctx.timelock.is_some() {
                return Err(TimelockError::AlreadyInitialized);
            }
            ctx.timelock = Some(Timelock { authority, signer_bump: signer.bump, delay_in_slots });
            Ok(())
        },
    }
}

/// Sets the delay of a timelock. Only the delegated signer of the timelock is
/// admitted, so the change must itself have gone through a queue of this
/// timelock. Nothing but the delay changes; on rejection nothing changes.
pub fn set_delay_in_slots(
    program_id: &Pubkey,
    ctx: &mut Auth,
    delay_in_slots: u64,
) -> (r: Result<(), TimelockError>)
    ensures
        ({
            let derived = DelegatedSigner::derived(*program_id, old(ctx).timelock_key, old(ctx).timelock.signer_bump);
            if old(ctx).admits(derived) {
                r is Ok && *final(ctx) == (Auth {
                    timelock: Timelock { delay_in_slots, ..old(ctx).timelock },
                    ..*old(ctx)
                })
            } else {
                r == Err::<(), TimelockError>(old(ctx).refusal(derived)) && *final(ctx) == *old(ctx)
            }
        }),
{
    let derived = DelegatedSigner::derive(program_id, &ctx.timelock_key, ctx.timelock.signer_bump);
    match ctx.authorize(&derived) {
        Err(e) => Err(e),
        Ok(()) => {
            ctx.timelock.delay_in_slots = delay_in_slots;
            Ok(())
        },
    }
}

/// Sets the authority of a timelock. Only the delegated signer of the timelock
/// is admitted, so the change must itself have gone through a queue of this
/// timelock. Nothing but the authority changes; on rejection nothing changes.
pub fn set_authority(
    program_id: &Pubkey,
    ctx: &mut Auth,
    authority: Pubkey,
) -> (r: Result<(), TimelockError>)
    ensures
        ({
            let derived = DelegatedSigner::derived(*program_id, old(ctx).timelock_key, old(ctx).timelock.signer_bump);
            if old(ctx).admits(derived) {
                r is Ok && *final(ctx) == (Auth {
                    timelock: Timelock { authority, ..old(ctx).timelock },
                    ..*old(ctx)
                })
            } else {
                r == Err::<(), TimelockError>(old(ctx).refusal(derived)) && *final(ctx) == *old(ctx)
            }
        }),
{
    let derived = DelegatedSigner::derive(program_id, &ctx.timelock_key, ctx.timelock.signer_bump);
    match ctx.authorize(&derived) {
        Err(e) => Err(e),
        Ok(()) => {
            ctx.timelock.authority = authority;
            Ok(())
        },
    }
}

/// Creates an empty queue of the timelock presented, in the account that the
/// caller presents, with the caller as its authority.
///
/// The authority and the account that is to hold the queue must have signed,
/// and the account must hold nothing yet. On rejection nothing changes.
pub fn create_transaction_queue(ctx: &mut CreateTransactionQueue) -> (r: Result<(), TimelockError>)
    ensures
        final(ctx).transaction_queue_authority == old(ctx).transaction_queue_authority,
        final(ctx).timelock_key == old(ctx).timelock_key,
        final(ctx).transaction_queue_key == old(ctx).transaction_queue_key,
        (if !old(ctx).admits() {
            r == Err::<(), TimelockError>(old(ctx).refusal())
                && final(ctx).transaction_queue == old(ctx).transaction_queue
        } else if old(ctx).transaction_queue is Some {
            r == Err::<(), TimelockError>(TimelockError::AlreadyInitialized)
                && final(ctx).transaction_queue == old(ctx).transaction_queue
        } else {
            &&& r is Ok
            &&& final(ctx).transaction_queue is Some
            &&& final(ctx).transaction_queue->Some_0@ == QueueView::created(
                old(ctx).timelock_key,
                old(ctx).transaction_queue_authority.key,
            )
        }),
{
    match ctx.authorize() {
        Err(e) => {
            return Err(e);
        },
        Ok(()) => {},
    }
    if ctx.transaction_queue.is_some() {
        return Err(TimelockError::AlreadyInitialized);
    }
    ctx.transaction_queue = Some(TransactionQueue::new(ctx.timelock_key, ctx.transaction_queue_authority.key));
    Ok(())
}

/// Appends a record that stages a call of `program_id` with the given account
/// inputs and data. Only the authority of the queue is admitted, and only
/// while the queue is `Created`; on rejection nothing changes.
pub fn add_transaction(
    ctx: &mut UpdateTransactionQueue,
    program_id: Pubkey,
    accounts: Vec<TransactionAccount>,
    data: Vec<u8>,
) -> (r: Result<(), TimelockError>)
    ensures
        final(ctx).transaction_queue_authority == old(ctx).transaction_queue_authority,
        (if old(ctx).admits() {
            carried_out(
                old(ctx).transaction_queue@.add_transaction(program_id, accounts@, data@),
                r,
                old(ctx).transaction_queue@,
                final(ctx).transaction_queue@,
            )
        } else {
            r == Err::<(), TimelockError>(old(ctx).refusal())
                && final(ctx).transaction_queue@ == old(ctx).transaction_queue@
        }),
        r is Ok <==> old(ctx).admits() && old(ctx).transaction_queue.status == TransactionQueueStatus::Created,
{
    match ctx.authorize() {
        Err(e) => Err(e),
        Ok(()) => ctx.transaction_queue.add(program_id, accounts, data),
    }
}

/// Closes the queue to further records. Only the authority of the queue is
/// admitted, and only while the queue is `Created`; on rejection nothing
/// changes.
pub fn seal_transaction_queue(ctx: &mut UpdateTransactionQueue) -> (r: Result<(), TimelockError>)
    ensures
        final(ctx).transaction_queue_authority == old(ctx).transaction_queue_authority,
        (if old(ctx).admits() {
            carried_out(old(ctx).transaction_queue@.seal(), r, old(ctx).transaction_queue@, final(ctx).transaction_queue@)
        } else {
            r == Err::<(), TimelockError>(old(ctx).refusal())
                && final(ctx).transaction_queue@ == old(ctx).transaction_queue@
        }),
        r is Ok <==> old(ctx).admits() && old(ctx).transaction_queue.status == TransactionQueueStatus::Created,
{
    match ctx.authorize() {
        Err(e) => Err(e),
        Ok(()) => ctx.transaction_queue.seal(),
    }
}

/// Starts the clock of a sealed queue at slot `now`. Only the authority of the
/// timelock that the queue belongs to is admitted; on rejection nothing
/// changes.
pub fn start_timelock(ctx: &mut StartOrVoidTimelock, now: u64) -> (r: Result<(), TimelockError>)
    ensures
        final(ctx).authority == old(ctx).authority,
        final(ctx).timelock_key == old(ctx).timelock_key,
        final(ctx).timelock == old(ctx).timelock,
        (if old(ctx).admits() {
            carried_out(old(ctx).transaction_queue@.start(now), r, old(ctx).transaction_queue@, final(ctx).transaction_queue@)
        } else {
            r == Err::<(), TimelockError>(old(ctx).refusal())
                && final(ctx).transaction_queue@ == old(ctx).transaction_queue@
        }),
        r is Ok <==> old(ctx).admits() && old(ctx).transaction_queue.status == TransactionQueueStatus::Sealed,
{
    match ctx.authorize() {
        Err(e) => Err(e),
        Ok(()) => ctx.transaction_queue.start(now),
    }
}

/// Voids a queue at slot `now`, so that it will never be executed. Only the
/// authority of the timelock that the queue belongs to is admitted, only while
/// the clock of the queue runs, and only before the delay of that timelock has
/// passed; on rejection nothing changes.
pub fn void_timelock(ctx: &mut StartOrVoidTimelock, now: u64) -> (r: Result<(), TimelockError>)
    ensures
        final(ctx).authority == old(ctx).authority,
        final(ctx).timelock_key == old(ctx).timelock_key,
        final(ctx).timelock == old(ctx).timelock,
        (if old(ctx).admits() {
            carried_out(
                old(ctx).transaction_queue@.void(old(ctx).timelock.delay_in_slots, now),
                r,
                old(ctx).transaction_queue@,
                final(ctx).transaction_queue@,
            )
        } else {
            r == Err::<(), TimelockError>(old(ctx).refusal())
                && final(ctx).transaction_queue@ == old(ctx).transaction_queue@
        }),
        (r is Ok <==> {
            &&& old(ctx).admits()
            &&& old(ctx).transaction_queue.status == TransactionQueueStatus::TimelockStarted
            &&& now - old(ctx).transaction_queue.enqueued_slot < old(ctx).timelock.delay_in_slots
        }),
{
    match ctx.authorize() {
        Err(e) => Err(e),
        Ok(()) => ctx.transaction_queue.void(ctx.timelock.delay_in_slots, now),
    }
}

/// Executes the next record of a queue at slot `now`: the first record that
/// has not been replayed is replayed in the name of the delegated signer of
/// the timelock, against `remaining_accounts`. Anybody may call this once the
/// delay has passed; each call replays at most one record.
///
/// The account presented as the delegated signer must be the one derived from
/// the timelock and its stored offset, and the queue must belong to the
/// timelock. For a caller who is admitted, the call succeeds only while the
/// clock of the queue runs and once the delay has passed; and then it does
/// succeed unless the replayed call itself fails. On success the first pending
/// record, if there is one, is marked, and the queue is `Executed` exactly when
/// every record is marked. On rejection nothing changes.
pub fn execute_transaction_queue(
    program_id: &Pubkey,
    ctx: &mut ExecuteTransactionQueue,
    remaining_accounts: &[AccountInfo<'_>],
    now: u64,
) -> (r: Result<(), TimelockError>)
    ensures
        final(ctx).timelock_signer == old(ctx).timelock_signer,
        final(ctx).timelock_key == old(ctx).timelock_key,
        final(ctx).timelock == old(ctx).timelock,
        ({
            let derived = DelegatedSigner::derived(*program_id, old(ctx).timelock_key, old(ctx).timelock.signer_bump);
            if old(ctx).admits(derived) {
                execution_done(
                    old(ctx).transaction_queue@,
                    old(ctx).timelock.delay_in_slots,
                    now,
                    r,
                    final(ctx).transaction_queue@,
                )
            } else {
                r == Err::<(), TimelockError>(old(ctx).refusal(derived))
                    && final(ctx).transaction_queue@ == old(ctx).transaction_queue@
            }
        }),
        ({
            let derived = DelegatedSigner::derived(*program_id, old(ctx).timelock_key, old(ctx).timelock.signer_bump);
            let before = old(ctx).transaction_queue@;
            let after = final(ctx).transaction_queue@;
            let ready = old(ctx).admits(derived) && before.status == TransactionQueueStatus::TimelockStarted
                && now - before.enqueued_slot >= old(ctx).timelock.delay_in_slots;
            &&& r is Ok ==> ready
            &&& ready ==> r is Ok || (r is Err && r->Err_0 is ReplayFailed && before.first_pending() is Some)
            &&& r is Ok && before.first_pending() is None ==> after == before
            &&& r is Ok && before.first_pending() is Some ==> {
                let i = before.first_pending()->Some_0;
                &&& after == before.mark_executed(i)
                &&& after.transactions[i] == before.transactions[i].executed()
                &&& after.status == TransactionQueueStatus::Executed <==> after.all_executed()
            }
            &&& r is Err ==> after == before
        }),
{
    let derived = DelegatedSigner::derive(program_id, &ctx.timelock_key, ctx.timelock.signer_bump);
    match ctx.authorize(&derived) {
        Err(e) => Err(e),
        Ok(signer) => ctx.transaction_queue.execute(ctx.timelock.delay_in_slots, now, &signer, remaining_accounts),
    }
}

} // verus!
