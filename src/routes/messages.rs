use vstd::prelude::*;

use crate::errors::{ContactSubmissionError, MessagePatchError};
use super::blog::{contains_text, duplicate_marker, occurs_in};

verus! {

/// The result of marking one message read or unread, from the number of rows changed.
pub fn message_patch_outcome(rows_affected: u64) -> (r: Result<(), MessagePatchError>)
    ensures
        rows_affected == 1 ==> r == Ok::<(), MessagePatchError>(()),
        rows_affected == 0 ==> r == Err::<(), MessagePatchError>(MessagePatchError::MessageNotFound),
        rows_affected > 1 ==> r == Err::<(), MessagePatchError>(MessagePatchError::UnexpectedError),
{
    if rows_affected == 1 {
        Ok(())
    } else if rows_affected == 0 {
        Err(MessagePatchError::MessageNotFound)
    } else {
        Err(MessagePatchError::UnexpectedError)
    }
}

/// Classifies a failed insert of a contact message from the store's error text: a
/// reported duplicate is `DuplicateMessage`, anything else is unexpected.
pub fn classify_message_insert_error(store_error: &str) -> (r: ContactSubmissionError)
    ensures
        r == if occurs_in(duplicate_marker(), store_error@) {
            ContactSubmissionError::DuplicateMessage
        } else {
            ContactSubmissionError::UnexpectedError
        },
{
    if contains_text(store_error, "Duplicate message detected") {
        ContactSubmissionError::DuplicateMessage
    } else {
        ContactSubmissionError::UnexpectedError
    }
}

/// Whether the store let this sender send one more message; a missing answer counts
/// as a refusal.
pub fn rate_limit_outcome(allowed: Option<bool>) -> (r: Result<(), ContactSubmissionError>)
    ensures
        allowed == Some(true) ==> r == Ok::<(), ContactSubmissionError>(()),
        allowed != Some(true) ==> r == Err::<(), ContactSubmissionError>(ContactSubmissionError::RateLimitExceeded),
{
    match allowed {
        Some(true) => Ok(()),
        _ => Err(ContactSubmissionError::RateLimitExceeded),
    }
}

/// The page size of the message listing when the query names none.
pub fn default_page_size() -> (r: i64)
    ensures
        r == 20,
{
    20
}

/// A request for one page of the message listing; pages count from 0.
#[derive(Debug, Clone, Copy)]
pub struct MessageQuery {
    pub page: i64,
    pub page_size: i64,
}

/// The page served: never before the first (0).
pub open spec fn message_page(q: MessageQuery) -> int {
    if q.page < 0 {
        0
    } else {
        q.page as int
    }
}

/// The page size served: between 1 and 20.
pub open spec fn message_page_size(q: MessageQuery) -> int {
    if q.page_size < 1 {
        1
    } else if q.page_size > 20 {
        20
    } else {
        q.page_size as int
    }
}

impl MessageQuery {
    /// The page, page size and number of rows to skip that this query is served with;
    /// the offset must fit in an `i64`.
    pub fn window(&self) -> (r: (i64, i64, i64))
        requires
            message_page(*self) * message_page_size(*self) <= i64::MAX,
        ensures
            r.0 == message_page(*self),
            r.1 == message_page_size(*self),
            r.2 == message_page(*self) * message_page_size(*self),
    {
        let page: i64 = if self.page < 0 {
            0
        } else {
            self.page
        };
        let page_size: i64 = if self.page_size < 1 {
            1
        } else if self.page_size > 20 {
            20
        } else {
            self.page_size
        };
        proof {
            assert(0 <= page * page_size) by (nonlinear_arith)
                requires
                    page >= 0,
                    page_size >= 1,
            ;
        }
        (page, page_size, page * page_size)
    }
}

} // verus!
