use vstd::prelude::*;

verus! {

/// What went wrong in a resolver.
#[derive(Clone, Debug, PartialEq, Eq)]
pub enum FenceError {
    /// The request carries no caller identity.
    MissingUser,
    /// A new username is shorter than 2 or longer than 64 characters.
    UsernameLength,
    /// A new username holds a character other than an ASCII letter or
    /// digit, `-` or `_`.
    UsernameInvalidChars,
    /// Another profile already has the new username.
    UsernameExists,
    /// The update could not be merged into the profile or signed; holds the cause.
    UpdateApplyFailed(String),
    /// The profile store failed; holds its error as it was reported.
    Store(String),
}

/// A field-level error as the caller sees it: a short code or message, and
/// where there is one, a detail that carries the cause.
pub struct FieldFailure {
    pub message: String,
    pub internal_error: Option<String>,
}

/// The text shown beside a rejected username.
pub const USERNAME_RULES: &'static str = "Lenght of username must be between 2 and 64. And only contain letters from a-z, digits from 0-9, underscore or hyphen.";

/// Builds a field error with code `msg` whose detail reads `"<msg>: <cause>"`.
pub fn field_error(msg: &str, cause: &str) -> (r: FieldFailure)
    ensures
        r.message@ == msg@,
        r.internal_error matches Some(d) && d@ == msg@ + ": "@ + cause@,
{
    let mut detail = String::new();
    detail.append(msg);
    detail.append(": ");
    detail.append(cause);
    let mut message = String::new();
    message.append(msg);
    assert(detail@ == Seq::<char>::empty() + msg@ + ": "@ + cause@);
    assert(message@ == Seq::<char>::empty() + msg@);
    FieldFailure { message, internal_error: Some(detail) }
}

impl FenceError {
    /// The code under which the error is reported, or for a store error its
    /// own message.
    pub open spec fn code(&self) -> Seq<char> {
        match self {
            FenceError::MissingUser => "no username in query or scope"@,
            FenceError::UsernameLength => "username_length"@,
            FenceError::UsernameInvalidChars => "username_invalid_chars"@,
            FenceError::UsernameExists => "username_exists"@,
            FenceError::UpdateApplyFailed(_) => "unable update/sign profle"@,
            FenceError::Store(m) => m@,
        }
    }

    /// The cause written into the detail, where the error has one.
    pub open spec fn cause(&self) -> Option<Seq<char>> {
        match self {
            FenceError::MissingUser => Some("?!"@),
            FenceError::UsernameLength => Some(USERNAME_RULES@),
            FenceError::UsernameInvalidChars => Some(USERNAME_RULES@),
            FenceError::UsernameExists => Some("This username already exitst!"@),
            FenceError::UpdateApplyFailed(c) => Some(c@),
            FenceError::Store(_) => None,
        }
    }

    /// The field error that reports `self`: a store error passes through with
    /// its message alone, every other one gets its code and a detail.
    pub fn to_field_error(&self) -> (r: FieldFailure)
        ensures
            r.message@ == self.code(),
            match self.cause() {
                Some(c) => r.internal_error matches Some(d) && d@ == self.code() + ": "@ + c,
                None => r.internal_error is None,
            },
    {
        match self {
            FenceError::MissingUser => field_error("no username in query or scope", "?!"),
            FenceError::UsernameLength => field_error("username_length", USERNAME_RULES),
            FenceError::UsernameInvalidChars => field_error(
                "username_invalid_chars",
                USERNAME_RULES,
            ),
            FenceError::UsernameExists => field_error(
                "username_exists",
                "This username already exitst!",
            ),
            FenceError::UpdateApplyFailed(c) => field_error(
                "unable update/sign profle",
                c.as_str(),
            ),
            FenceError::Store(m) => FieldFailure { message: m.clone(), internal_error: None },
        }
    }
}

} // verus!
