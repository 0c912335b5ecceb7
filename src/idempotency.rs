use vstd::prelude::*;

pub mod key;
pub mod ledger;
pub mod persistence;
pub mod response;

pub use key::{IdempotencyKey, KeyError};
pub use ledger::{Ledger, LedgerEntry};
pub use persistence::{
    ExecuteError, KeyHeader, NextAction, execute_idempotent, get_idempotency_key,
    get_saved_response, next_action_after_insert, replay_saved, save_response, try_processing,
};
pub use response::{CapturedResponse, HeaderPair, SavedResponse, capture, replay};

verus! {

} // verus!
