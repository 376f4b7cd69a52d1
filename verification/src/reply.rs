use vstd::prelude::*;

use crate::error::{error_of_code, is_known_code, RegexError, FIRST_KNOWN_CODE, LAST_KNOWN_CODE, NO_ERROR};

verus! {

/// What the engine hands back from its combined entry point: a diagnostic
/// code, and whether the subject matched. The flag means something only
/// beside the code of success.
#[derive(Debug, Clone, Copy, PartialEq, Eq, Structural)]
pub struct MatchResult {
    pub error_code: i32,
    pub is_match: bool,
}

/// What a diagnostic code amounts to when a pattern is checked: the error it
/// names, or nothing where it names none.
pub open spec fn reported_error(code: i32) -> Option<RegexError> {
    if is_known_code(code) {
        Some(error_of_code(code))
    } else {
        None
    }
}

/// What a reply of the combined entry point amounts to: the flag beside the
/// code of success, the code's error beside any other code.
pub open spec fn match_outcome(reply: MatchResult) -> Result<bool, RegexError> {
    if reply.error_code == NO_ERROR {
        Ok(reply.is_match)
    } else {
        Err(error_of_code(reply.error_code))
    }
}

/// Reads a diagnostic code as `check_error` reports it.
pub fn error_for_code(code: i32) -> (error: Option<RegexError>)
    ensures
        error == reported_error(code),
{
    if FIRST_KNOWN_CODE <= code && code <= LAST_KNOWN_CODE {
        Some(RegexError::from(code))
    } else {
        None
    }
}

impl MatchResult {
    /// Reads the reply code first: the flag counts only beside the code of
    /// success.
    pub fn outcome(&self) -> (result: Result<bool, RegexError>)
        ensures
            result == match_outcome(*self),
    {
        if self.error_code == NO_ERROR {
            Ok(self.is_match)
        } else {
            Err(RegexError::from(self.error_code))
        }
    }
}

} // verus!
