use solana_timelock::accounts::{
    Auth, CreateTimelock, CreateTransactionQueue, ExecuteTransactionQueue, Presented, StartOrVoidTimelock,
    UpdateTransactionQueue,
};
use solana_timelock::error::TimelockError;
use solana_timelock::pubkey::Pubkey;
use solana_timelock::signer::DelegatedSigner;
use solana_timelock::state::{has_delay_elapsed, Timelock, TransactionQueue};

fn key(byte: u8) -> Pubkey {
    Pubkey { bytes: [byte; 32] }
}

fn timelock() -> Timelock {
    Timelock { authority: key(11), signer_bump: 250, delay_in_slots: 100 }
}

fn signer() -> DelegatedSigner {
    DelegatedSigner { timelock: key(10), bump: 250, address: key(40) }
}

#[test]
fn an_identity_is_proved_by_its_own_signature_only() {
    assert!(Presented { key: key(1), is_signer: true }.check_proves(&key(1)));
    assert!(!Presented { key: key(1), is_signer: false }.check_proves(&key(1)));
    assert!(!Presented { key: key(2), is_signer: true }.check_proves(&key(1)));
    assert!(!Presented { key: key(2), is_signer: false }.check_proves(&key(1)));
}

#[test]
fn creating_a_timelock_admits_the_found_signer_with_a_signed_account() {
    let ctx = CreateTimelock {
        timelock_signer: key(40),
        timelock_key: Presented { key: key(10), is_signer: true },
        timelock: None,
    };
    assert_eq!(ctx.authorize(&Some(signer())), Ok(signer()));
    assert_eq!(ctx.authorize(&None), Err(TimelockError::WrongSigner));
    assert_eq!(
        ctx.authorize(&Some(DelegatedSigner { address: key(41), ..signer() })),
        Err(TimelockError::WrongSigner)
    );
    let unsigned = CreateTimelock { timelock_key: Presented { key: key(10), is_signer: false }, ..ctx };
    assert_eq!(unsigned.authorize(&Some(signer())), Err(TimelockError::MissingSignature));
}

#[test]
fn changing_a_timelock_admits_the_derived_signer_with_its_signature() {
    let ctx = Auth {
        timelock_signer: Presented { key: key(40), is_signer: true },
        timelock_key: key(10),
        timelock: timelock(),
    };
    assert_eq!(ctx.authorize(&Some(signer())), Ok(()));
    assert_eq!(ctx.authorize(&None), Err(TimelockError::WrongSigner));
    assert_eq!(
        ctx.authorize(&Some(DelegatedSigner { address: key(41), ..signer() })),
        Err(TimelockError::WrongSigner)
    );
    let unsigned = Auth { timelock_signer: Presented { key: key(40), is_signer: false }, ..ctx };
    assert_eq!(unsigned.authorize(&Some(signer())), Err(TimelockError::MissingSignature));
    // the authority of the timelock is not its delegated signer
    let authority = Auth { timelock_signer: Presented { key: key(11), is_signer: true }, ..ctx };
    assert_eq!(authority.authorize(&Some(signer())), Err(TimelockError::WrongSigner));
}

#[test]
fn creating_a_queue_admits_two_signatures() {
    let ctx = |authority: bool, queue: bool| CreateTransactionQueue {
        transaction_queue_authority: Presented { key: key(12), is_signer: authority },
        timelock_key: key(10),
        transaction_queue_key: Presented { key: key(13), is_signer: queue },
        transaction_queue: None,
    };
    assert_eq!(ctx(true, true).authorize(), Ok(()));
    assert_eq!(ctx(true, false).authorize(), Err(TimelockError::MissingSignature));
    assert_eq!(ctx(false, true).authorize(), Err(TimelockError::MissingSignature));
    assert_eq!(ctx(false, false).authorize(), Err(TimelockError::MissingSignature));
}

#[test]
fn filling_a_queue_admits_its_authority() {
    let ctx = |presented: Presented| UpdateTransactionQueue {
        transaction_queue_authority: presented,
        transaction_queue: TransactionQueue::new(key(10), key(12)),
    };
    assert_eq!(ctx(Presented { key: key(12), is_signer: true }).authorize(), Ok(()));
    assert_eq!(ctx(Presented { key: key(12), is_signer: false }).authorize(), Err(TimelockError::MissingSignature));
    assert_eq!(ctx(Presented { key: key(11), is_signer: true }).authorize(), Err(TimelockError::WrongAuthority));
}

#[test]
fn starting_and_voiding_admit_the_authority_of_the_timelock_of_the_queue() {
    let ctx = |presented: Presented, timelock_key: Pubkey| StartOrVoidTimelock {
        authority: presented,
        timelock_key,
        timelock: timelock(),
        transaction_queue: TransactionQueue::new(key(10), key(12)),
    };
    assert_eq!(ctx(Presented { key: key(11), is_signer: true }, key(10)).authorize(), Ok(()));
    assert_eq!(
        ctx(Presented { key: key(11), is_signer: false }, key(10)).authorize(),
        Err(TimelockError::MissingSignature)
    );
    assert_eq!(
        ctx(Presented { key: key(12), is_signer: true }, key(10)).authorize(),
        Err(TimelockError::WrongAuthority)
    );
    // the authority of another timelock than the one that the queue belongs to
    assert_eq!(
        ctx(Presented { key: key(11), is_signer: true }, key(9)).authorize(),
        Err(TimelockError::WrongTimelock)
    );
    // where more than one thing is missing, the first to be asked for is named
    assert_eq!(
        ctx(Presented { key: key(12), is_signer: false }, key(9)).authorize(),
        Err(TimelockError::MissingSignature)
    );
    assert_eq!(
        ctx(Presented { key: key(12), is_signer: true }, key(9)).authorize(),
        Err(TimelockError::WrongAuthority)
    );
}

#[test]
fn executing_admits_the_derived_signer_and_the_queue_of_the_timelock() {
    let ctx = ExecuteTransactionQueue {
        timelock_signer: key(40),
        timelock_key: key(10),
        timelock: timelock(),
        transaction_queue: TransactionQueue::new(key(10), key(12)),
    };
    assert_eq!(ctx.authorize(&Some(signer())), Ok(signer()));
    assert_eq!(ctx.authorize(&None), Err(TimelockError::WrongSigner));
    assert_eq!(
        ctx.authorize(&Some(DelegatedSigner { address: key(41), ..signer() })),
        Err(TimelockError::WrongSigner)
    );
    let other_queue = ExecuteTransactionQueue { transaction_queue: TransactionQueue::new(key(9), key(12)), ..ctx };
    assert_eq!(other_queue.authorize(&Some(signer())), Err(TimelockError::WrongTimelock));
}

#[test]
fn the_delay_has_passed_from_the_slot_that_is_delay_slots_after_the_start() {
    assert!(!has_delay_elapsed(1050, 1000, 100));
    assert!(!has_delay_elapsed(1099, 1000, 100));
    assert!(has_delay_elapsed(1100, 1000, 100));
    assert!(has_delay_elapsed(1101, 1000, 100));
    assert!(has_delay_elapsed(1000, 1000, 0));
    assert!(!has_delay_elapsed(999, 1000, 0));
    assert!(!has_delay_elapsed(0, 1, 0));
    assert!(has_delay_elapsed(u64::MAX, 0, u64::MAX));
    assert!(!has_delay_elapsed(u64::MAX, 1, u64::MAX));
    assert!(!has_delay_elapsed(0, u64::MAX, 1));
}
