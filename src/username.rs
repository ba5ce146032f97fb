use vstd::prelude::*;
use crate::display::str_equal;
use crate::error::FenceError;

verus! {

/// A character allowed in a username: an ASCII letter or digit, `-` or `_`.
pub open spec fn username_char_ok(c: char) -> bool {
    ('a' <= c && c <= 'z') || ('A' <= c && c <= 'Z') || ('0' <= c && c <= '9') || c == '-'
        || c == '_'
}

/// A username of 2 to 64 characters.
pub open spec fn username_length_ok(s: Seq<char>) -> bool {
    2 <= s.len() <= 64
}

/// A username made of allowed characters only.
pub open spec fn username_chars_ok(s: Seq<char>) -> bool {
    forall|i: int| 0 <= i < s.len() ==> username_char_ok(#[trigger] s[i])
}

/// The verdict on a new username: the length is checked first, then the characters.
pub open spec fn username_verdict(s: Seq<char>) -> Result<(), FenceError> {
    if !username_length_ok(s) {
        Err(FenceError::UsernameLength)
    } else if !username_chars_ok(s) {
        Err(FenceError::UsernameInvalidChars)
    } else {
        Ok(())
    }
}

/// Whether an update asks for a primary username other than the current one.
pub open spec fn username_changes(requested: Option<String>, current: Option<String>) -> bool {
    match requested {
        Some(u) => !(current matches Some(c) && c@ == u@),
        None => false,
    }
}

fn char_ok(c: char) -> (r: bool)
    ensures
        r == username_char_ok(c),
{
    ('a' <= c && c <= 'z') || ('A' <= c && c <= 'Z') || ('0' <= c && c <= '9') || c == '-'
        || c == '_'
}

/// Checks a new username against the length and character rules.
pub fn check_username(candidate: &str) -> (r: Result<(), FenceError>)
    ensures
        r == username_verdict(candidate@),
{
    let n = candidate.unicode_len();
    if n < 2 || n > 64 {
        return Err(FenceError::UsernameLength);
    }
    let mut i: usize = 0;
    while i < n
        invariant
            n == candidate@.len(),
            2 <= n <= 64,
            i <= n,
            forall|j: int| 0 <= j < i ==> username_char_ok(#[trigger] candidate@[j]),
        decreases n - i,
    {
        let c = candidate.get_char(i);
        if !char_ok(c) {
            assert(!username_char_ok(candidate@[i as int]));
            return Err(FenceError::UsernameInvalidChars);
        }
        i = i + 1;
    }
    Ok(())
}

/// Whether `requested` names a primary username that differs from `current`.
pub fn username_differs(requested: &Option<String>, current: &Option<String>) -> (r: bool)
    ensures
        r == username_changes(*requested, *current),
{
    match requested {
        Some(u) => match current {
            Some(c) => !str_equal(c.as_str(), u.as_str()),
            None => true,
        },
        None => false,
    }
}

/// Usernames of 1 or 65 characters are refused for their length; usernames of
/// 2 or 64 allowed characters pass; a character outside `[A-Za-z0-9_-]` in a
/// username of allowed length is refused.
pub proof fn lemma_username_rules(s: Seq<char>)
    ensures
        s.len() == 1 || s.len() == 65 ==> username_verdict(s) == Err::<(), FenceError>(
            FenceError::UsernameLength,
        ),
        (s.len() == 2 || s.len() == 64) && username_chars_ok(s) ==> username_verdict(s) is Ok,
        username_length_ok(s) && (exists|i: int| 0 <= i < s.len() && !username_char_ok(s[i]))
            ==> username_verdict(s) == Err::<(), FenceError>(FenceError::UsernameInvalidChars),
{
}

} // verus!
