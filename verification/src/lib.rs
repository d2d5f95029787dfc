//! A timelock: instructions are staged in a queue, the queue is sealed, a clock
//! is started, and only once the configured number of slots has passed can the
//! staged instructions be replayed, one at a time and each at most once. While
//! the delay runs, and only then, the authority of the timelock can void the
//! queue.
//!
//! - `state`: the timelock, the queue and its records, and what they hold.
//! - `model`: the life of a queue as a function from queue and operation to
//!   queue or error.
//! - `queue`: the operations on a queue, each proved to do what the model says.
//! - `instruction`, `replay`: the call that a record stages, and replaying it
//!   in the name of the delegated signer.
//! - `signer`: the delegated signer of a timelock and how it is derived.
//! - `accounts`, `operations`: the accounts that a caller presents, who is
//!   admitted, and the operations as callers see them.
//! - `laws`: what holds of every queue and every operation.

pub mod accounts;
pub mod error;
pub mod instruction;
pub mod laws;
pub mod model;
pub mod operations;
pub mod pubkey;
pub mod queue;
pub mod replay;
pub mod signer;
pub mod state;
