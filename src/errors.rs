use vstd::prelude::*;
use vstd::string::StringExecFns;

verus! {

/// Failures of the idempotency layer.
#[derive(Debug, Clone, Copy, PartialEq, Eq, Structural)]
pub enum IdempotencyError {
    /// No usable `Idempotency-Key` header on the request.
    MissingIdempotencyKey,
    /// The header was there but its value is no valid key.
    InvalidKeyFormat,
    /// A stored response could not be decoded.
    CorruptedRecord,
    /// The store failed, or the key is taken by a request that has not finished.
    UnexpectedError,
}

impl IdempotencyError {
    /// The HTTP status this error is answered with.
    pub fn status_code(&self) -> (r: u16)
        ensures
            r == match self {
                IdempotencyError::MissingIdempotencyKey | IdempotencyError::InvalidKeyFormat => 400u16,
                _ => 500u16,
            },
    {
        match self {
            IdempotencyError::MissingIdempotencyKey | IdempotencyError::InvalidKeyFormat => 400,
            IdempotencyError::CorruptedRecord | IdempotencyError::UnexpectedError => 500,
        }
    }
}

/// Failures of login and session checks.
#[derive(Debug, Clone, Copy, PartialEq, Eq, Structural)]
pub enum AuthError {
    RateLimitExceeded,
    InvalidCredentials,
    UnexpectedError,
}

impl AuthError {
    pub fn status_code(&self) -> (r: u16)
        ensures
            r == match self {
                AuthError::RateLimitExceeded => 429u16,
                AuthError::InvalidCredentials => 401u16,
                AuthError::UnexpectedError => 500u16,
            },
    {
        match self {
            AuthError::RateLimitExceeded => 429,
            AuthError::InvalidCredentials => 401,
            AuthError::UnexpectedError => 500,
        }
    }
}

/// Failures of the blog routes.
#[derive(Debug)]
pub enum BlogError {
    QueryFailed,
    PostNotFound,
    BadRequest,
    InvalidContent(String),
    DuplicatePost,
    SlugConflict,
    ValidationError(String),
    UnexpectedError,
}

impl BlogError {
    pub fn status_code(&self) -> (r: u16)
        ensures
            r == match self {
                BlogError::InvalidContent(_) | BlogError::BadRequest | BlogError::ValidationError(_) => 400u16,
                BlogError::PostNotFound => 404u16,
                BlogError::DuplicatePost | BlogError::SlugConflict => 409u16,
                BlogError::QueryFailed | BlogError::UnexpectedError => 500u16,
            },
    {
        match self {
            BlogError::InvalidContent(_) | BlogError::BadRequest | BlogError::ValidationError(_) => 400,
            BlogError::PostNotFound => 404,
            BlogError::DuplicatePost | BlogError::SlugConflict => 409,
            BlogError::QueryFailed | BlogError::UnexpectedError => 500,
        }
    }
}

/// The body of an error answer: a message for the client, or nothing.
#[derive(Debug)]
pub struct ErrorMessage {
    pub message: Option<String>,
}

impl ErrorMessage {
    pub fn new(message: Option<String>) -> (r: ErrorMessage)
        ensures
            r.message == message,
    {
        ErrorMessage { message }
    }
}

/// Failures of the contact form.
#[derive(Debug, Clone, Copy, PartialEq, Eq, Structural)]
pub enum ContactSubmissionError {
    InvalidEmail,
    MessageLength,
    NameLength,
    RateLimitExceeded,
    DuplicateMessage,
    UnexpectedError,
}

/// The text shown to the client for a contact form error, if any.
pub open spec fn contact_error_text(e: ContactSubmissionError) -> Option<Seq<char>> {
    match e {
        ContactSubmissionError::InvalidEmail => Some("Invalid email"@),
        ContactSubmissionError::MessageLength => Some("Message must be between 10 and 5000 characters"@),
        ContactSubmissionError::NameLength => Some("Name must be between 2 and 100 characters."@),
        _ => None,
    }
}

impl ContactSubmissionError {
    pub fn status_code(&self) -> (r: u16)
        ensures
            r == match self {
                ContactSubmissionError::InvalidEmail | ContactSubmissionError::MessageLength
                | ContactSubmissionError::NameLength => 400u16,
                ContactSubmissionError::RateLimitExceeded => 429u16,
                ContactSubmissionError::DuplicateMessage => 409u16,
                ContactSubmissionError::UnexpectedError => 500u16,
            },
    {
        match self {
            ContactSubmissionError::InvalidEmail | ContactSubmissionError::MessageLength
            | ContactSubmissionError::NameLength => 400,
            ContactSubmissionError::RateLimitExceeded => 429,
            ContactSubmissionError::DuplicateMessage => 409,
            ContactSubmissionError::UnexpectedError => 500,
        }
    }

    /// The error body sent with this error: a message for the three input errors,
    /// none for the others.
    pub fn to_message_error(&self) -> (r: Option<ErrorMessage>)
        ensures
            match contact_error_text(*self) {
                Some(t) => r is Some && r->Some_0.message is Some && r->Some_0.message->Some_0@ == t,
                None => r is None,
            },
    {
        match self {
            ContactSubmissionError::InvalidEmail => Some(ErrorMessage::new(Some(String::from_str("Invalid email")))),
            ContactSubmissionError::MessageLength => Some(
                ErrorMessage::new(Some(String::from_str("Message must be between 10 and 5000 characters"))),
            ),
            ContactSubmissionError::NameLength => Some(
                ErrorMessage::new(Some(String::from_str("Name must be between 2 and 100 characters."))),
            ),
            _ => None,
        }
    }
}

/// Failures of the metrics routes.
#[derive(Debug, Clone, Copy, PartialEq, Eq, Structural)]
pub enum MetricsError {
    UnexpectedError,
}

impl MetricsError {
    pub fn status_code(&self) -> (r: u16)
        ensures
            r == 500,
    {
        500
    }
}

/// Failures of a new blog post.
#[derive(Debug, Clone, Copy, PartialEq, Eq, Structural)]
pub enum BlogPostError {
    UnexpectedError,
    DuplicatePost,
}

impl BlogPostError {
    pub fn status_code(&self) -> (r: u16)
        ensures
            r == match self {
                BlogPostError::UnexpectedError => 500u16,
                BlogPostError::DuplicatePost => 409u16,
            },
    {
        match self {
            BlogPostError::UnexpectedError => 500,
            BlogPostError::DuplicatePost => 409,
        }
    }
}

/// Failures of deleting a blog post.
#[derive(Debug, Clone, Copy, PartialEq, Eq, Structural)]
pub enum BlogDeleteError {
    UnexpectedError,
    PostNotFound,
}

impl BlogDeleteError {
    pub fn status_code(&self) -> (r: u16)
        ensures
            r == match self {
                BlogDeleteError::UnexpectedError => 500u16,
                BlogDeleteError::PostNotFound => 404u16,
            },
    {
        match self {
            BlogDeleteError::UnexpectedError => 500,
            BlogDeleteError::PostNotFound => 404,
        }
    }
}

/// Failures of marking a message read or unread.
#[derive(Debug, Clone, Copy, PartialEq, Eq, Structural)]
pub enum MessagePatchError {
    MessageNotFound,
    UnexpectedError,
}

impl MessagePatchError {
    pub fn status_code(&self) -> (r: u16)
        ensures
            r == match self {
                MessagePatchError::MessageNotFound => 404u16,
                MessagePatchError::UnexpectedError => 500u16,
            },
    {
        match self {
            MessagePatchError::MessageNotFound => 404,
            MessagePatchError::UnexpectedError => 500,
        }
    }
}

} // verus!
