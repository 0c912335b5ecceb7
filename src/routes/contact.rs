use vstd::prelude::*;
use vstd::string::StringExecFns;

use crate::errors::ContactSubmissionError;

verus! {

/// A character with the Unicode White_Space property.
pub open spec fn is_white_space(c: char) -> bool {
    ('\u{9}' <= c <= '\u{d}') || c == ' ' || c == '\u{85}' || c == '\u{a0}' || c == '\u{1680}'
        || ('\u{2000}' <= c <= '\u{200a}') || c == '\u{2028}' || c == '\u{2029}' || c == '\u{202f}'
        || c == '\u{205f}' || c == '\u{3000}'
}

/// `s` without its leading white space.
pub open spec fn trim_start(s: Seq<char>) -> Seq<char>
    decreases s.len(),
{
    if s.len() > 0 && is_white_space(s[0]) {
        trim_start(s.subrange(1, s.len() as int))
    } else {
        s
    }
}

/// `s` without its trailing white space.
pub open spec fn trim_end(s: Seq<char>) -> Seq<char>
    decreases s.len(),
{
    if s.len() > 0 && is_white_space(s.last()) {
        trim_end(s.drop_last())
    } else {
        s
    }
}

/// `s` without leading and trailing white space.
pub open spec fn trimmed(s: Seq<char>) -> Seq<char> {
    trim_end(trim_start(s))
}

/// Relies on `str::trim`: the text without leading and trailing characters that have
/// the Unicode White_Space property.
#[verifier::external_body]
fn trim(s: &str) -> (r: &str)
    ensures
        r@ == trimmed(s@),
{
    s.trim()
}

/// The address that `email_address` reads out of a string, if it accepts it.
pub uninterp spec fn parsed_email(s: Seq<char>) -> Option<Seq<char>>;

/// The text of an optional string.
pub open spec fn opt_text(s: Option<String>) -> Option<Seq<char>> {
    match s {
        Some(t) => Some(t@),
        None => None,
    }
}

/// Relies on `email_address::EmailAddress::from_str` to accept or refuse an address,
/// and on `EmailAddress::email` for the address it read; both depend on the text alone.
#[verifier::external_body]
fn parse_email(s: &str) -> (r: Option<String>)
    ensures
        opt_text(r) == parsed_email(s@),
{
    <email_address::EmailAddress as std::str::FromStr>::from_str(s).ok().map(|a| a.email())
}

/// The length of a text in UTF-8 bytes, as `str::len` reports it.
pub open spec fn byte_len(s: Seq<char>) -> usize {
    vstd::utf8::encode_utf8(s).len() as usize
}

/// A sender name is accepted with 2 to 100 bytes once trimmed.
pub open spec fn name_fits(trimmed_name: Seq<char>) -> bool {
    2 <= byte_len(trimmed_name) <= 100
}

/// A message is accepted with 10 to 5000 bytes once trimmed.
pub open spec fn message_fits(trimmed_message: Seq<char>) -> bool {
    10 <= byte_len(trimmed_message) <= 5000
}

/// A contact form as submitted.
#[derive(Debug)]
pub struct MessageForm {
    pub email: String,
    pub sender_name: String,
    pub message_text: String,
}

/// A contact form that passed every check, in the form that is stored.
#[derive(Debug)]
pub struct ValidatedMessage {
    pub email: String,
    pub sender_name: String,
    pub message_text: String,
}

/// Checks a sender name that has already been trimmed.
pub fn check_name_length(trimmed_name: &str) -> (r: Result<String, ContactSubmissionError>)
    ensures
        name_fits(trimmed_name@) ==> r is Ok && r->Ok_0@ == trimmed_name@,
        !name_fits(trimmed_name@) ==> r == Err::<String, ContactSubmissionError>(ContactSubmissionError::NameLength),
{
    let n = trimmed_name.len();
    if n < 2 || n > 100 {
        Err(ContactSubmissionError::NameLength)
    } else {
        Ok(String::from_str(trimmed_name))
    }
}

/// Checks a message text that has already been trimmed.
pub fn check_message_length(trimmed_message: &str) -> (r: Result<String, ContactSubmissionError>)
    ensures
        message_fits(trimmed_message@) ==> r is Ok && r->Ok_0@ == trimmed_message@,
        !message_fits(trimmed_message@) ==> r == Err::<String, ContactSubmissionError>(ContactSubmissionError::MessageLength),
{
    let n = trimmed_message.len();
    if n < 10 || n > 5000 {
        Err(ContactSubmissionError::MessageLength)
    } else {
        Ok(String::from_str(trimmed_message))
    }
}

/// The outcome of checking a form, from the parsed address and the trimmed texts:
/// the address is checked first, then the name, then the message.
pub open spec fn form_outcome(
    email: Option<Seq<char>>,
    name: Seq<char>,
    message: Seq<char>,
) -> Result<(Seq<char>, Seq<char>, Seq<char>), ContactSubmissionError> {
    match email {
        None => Err(ContactSubmissionError::InvalidEmail),
        Some(e) => if !name_fits(name) {
            Err(ContactSubmissionError::NameLength)
        } else if !message_fits(message) {
            Err(ContactSubmissionError::MessageLength)
        } else {
            Ok((e, name, message))
        },
    }
}

/// A validation result with its texts.
pub open spec fn validated_view(r: Result<ValidatedMessage, ContactSubmissionError>) -> Result<
    (Seq<char>, Seq<char>, Seq<char>),
    ContactSubmissionError,
> {
    match r {
        Ok(v) => Ok((v.email@, v.sender_name@, v.message_text@)),
        Err(e) => Err(e),
    }
}

/// Puts a form together from the address that was parsed (`None` when it was
/// refused) and the trimmed name and message.
pub fn validate_parts(
    email: Option<String>,
    trimmed_name: &str,
    trimmed_message: &str,
) -> (r: Result<ValidatedMessage, ContactSubmissionError>)
    ensures
        validated_view(r) == form_outcome(opt_text(email), trimmed_name@, trimmed_message@),
{
    let email = match email {
        Some(e) => e,
        None => return Err(ContactSubmissionError::InvalidEmail),
    };
    let sender_name = match check_name_length(trimmed_name) {
        Ok(n) => n,
        Err(e) => return Err(e),
    };
    let message_text = match check_message_length(trimmed_message) {
        Ok(m) => m,
        Err(e) => return Err(e),
    };
    Ok(ValidatedMessage { email, sender_name, message_text })
}

impl MessageForm {
    /// Checks the whole form: a valid address, then the name, then the message.
    pub fn validate(&self) -> (r: Result<ValidatedMessage, ContactSubmissionError>)
        ensures
            validated_view(r) == form_outcome(
                parsed_email(self.email@),
                trimmed(self.sender_name@),
                trimmed(self.message_text@),
            ),
    {
        let email = parse_email(self.email.as_str());
        validate_parts(email, trim(self.sender_name.as_str()), trim(self.message_text.as_str()))
    }

    /// The trimmed sender name, if it has 2 to 100 bytes.
    pub fn validate_name(&self) -> (r: Result<String, ContactSubmissionError>)
        ensures
            name_fits(trimmed(self.sender_name@)) ==> r is Ok && r->Ok_0@ == trimmed(self.sender_name@),
            !name_fits(trimmed(self.sender_name@)) ==> r == Err::<String, ContactSubmissionError>(
                ContactSubmissionError::NameLength,
            ),
    {
        check_name_length(trim(self.sender_name.as_str()))
    }

    /// The trimmed message, if it has 10 to 5000 bytes.
    pub fn validate_message(&self) -> (r: Result<String, ContactSubmissionError>)
        ensures
            message_fits(trimmed(self.message_text@)) ==> r is Ok && r->Ok_0@ == trimmed(self.message_text@),
            !message_fits(trimmed(self.message_text@)) ==> r == Err::<String, ContactSubmissionError>(
                ContactSubmissionError::MessageLength,
            ),
    {
        check_message_length(trim(self.message_text.as_str()))
    }
}

} // verus!
