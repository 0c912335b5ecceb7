use vstd::prelude::*;

verus! {

/// Keys of this many characters or more are refused.
pub const MAX_KEY_LENGTH: usize = 50;

/// A key is usable when it is non-empty and shorter than `MAX_KEY_LENGTH` characters.
pub open spec fn is_valid_key(s: Seq<char>) -> bool {
    0 < s.len() < MAX_KEY_LENGTH
}

/// Why a raw string could not become an idempotency key.
#[derive(Debug, Clone, Copy, PartialEq, Eq, Structural)]
pub enum KeyError {
    Empty,
    TooLong,
}

/// The error that `validate` gives for `s`, if any.
pub open spec fn key_error_of(s: Seq<char>) -> Option<KeyError> {
    if s.len() == 0 {
        Some(KeyError::Empty)
    } else if s.len() >= MAX_KEY_LENGTH {
        Some(KeyError::TooLong)
    } else {
        None
    }
}

/// A client-supplied token that partitions the ledger; immutable once built.
#[derive(Debug)]
pub struct IdempotencyKey {
    value: String,
}

impl View for IdempotencyKey {
    type V = Seq<char>;

    closed spec fn view(&self) -> Seq<char> {
        self.value@
    }
}

impl IdempotencyKey {
    /// The key is non-empty and short enough.
    pub open spec fn wf(&self) -> bool {
        is_valid_key(self@)
    }

    /// Checks `s` and wraps it: `Empty` for the empty string, `TooLong` from
    /// `MAX_KEY_LENGTH` characters on.
    pub fn validate(s: String) -> (r: Result<IdempotencyKey, KeyError>)
        ensures
            match key_error_of(s@) {
                Some(e) => r == Err::<IdempotencyKey, KeyError>(e),
                None => r is Ok && r->Ok_0@ == s@,
            },
            r is Ok ==> r->Ok_0.wf(),
    {
        <IdempotencyKey as TryFrom<String>>::try_from(s)
    }

    /// The key's text, borrowed.
    pub fn as_ref(&self) -> (r: &str)
        ensures
            r@ == self@,
    {
        self.value.as_str()
    }

    /// The key's text as the owned string it is kept in.
    pub fn as_string(&self) -> (r: &String)
        ensures
            r@ == self@,
    {
        &self.value
    }

    /// Gives the key's text back, consuming the key.
    pub fn into_string(self) -> (r: String)
        ensures
            r@ == self@,
    {
        self.value
    }
}

impl TryFrom<String> for IdempotencyKey {
    type Error = KeyError;

    fn try_from(s: String) -> (r: Result<IdempotencyKey, KeyError>) {
        let n = s.as_str().unicode_len();
        if n == 0 {
            Err(KeyError::Empty)
        } else if n >= MAX_KEY_LENGTH {
            Err(KeyError::TooLong)
        } else {
            Ok(IdempotencyKey { value: s })
        }
    }
}

/// What `IdempotencyKey::try_from` gives for `v`: the error of `key_error_of`, or a key
/// holding `v`'s text.
pub proof fn lemma_try_from(v: String)
    ensures
        match key_error_of(v@) {
            Some(e) => <IdempotencyKey as vstd::std_specs::convert::TryFromSpec<String>>::try_from_spec(v)
                == Err::<IdempotencyKey, KeyError>(e),
            None => <IdempotencyKey as vstd::std_specs::convert::TryFromSpec<String>>::try_from_spec(v) is Ok
                && <IdempotencyKey as vstd::std_specs::convert::TryFromSpec<String>>::try_from_spec(v)->Ok_0@ == v@
                && <IdempotencyKey as vstd::std_specs::convert::TryFromSpec<String>>::try_from_spec(v)->Ok_0.wf(),
        },
{
}

impl vstd::std_specs::convert::TryFromSpecImpl<String> for IdempotencyKey {
    open spec fn obeys_try_from_spec() -> bool {
        true
    }

    closed spec fn try_from_spec(v: String) -> Result<IdempotencyKey, KeyError> {
        match key_error_of(v@) {
            Some(e) => Err(e),
            None => Ok(IdempotencyKey { value: v }),
        }
    }
}

impl From<IdempotencyKey> for String {
    fn from(k: IdempotencyKey) -> (r: String) {
        k.value
    }
}

impl vstd::std_specs::convert::FromSpecImpl<IdempotencyKey> for String {
    open spec fn obeys_from_spec() -> bool {
        true
    }

    closed spec fn from_spec(v: IdempotencyKey) -> String {
        v.value
    }
}

} // verus!
