use vstd::prelude::*;
use vstd::string::*;

pub mod decimal;
pub mod error;
pub mod reply;
pub mod text;

pub use crate::error::RegexError;
pub use crate::reply::MatchResult;
pub use crate::text::ForeignText;

use crate::error::{error_of_code, is_known_code, NO_ERROR};
use crate::reply::{error_for_code, match_outcome, reported_error};
use crate::text::has_terminator;

verus! {

/// The validity of a pattern, given the engine's verdict on it. A pattern
/// that cannot cross is invalid whatever the verdict.
pub open spec fn validity(pattern: Seq<u8>, verdict: bool) -> bool {
    !has_terminator(pattern) && verdict
}

/// The error of a pattern, given the engine's code for it. A pattern that
/// cannot cross has the local error whatever the code.
pub open spec fn checked_error(pattern: Seq<u8>, code: i32) -> Option<RegexError> {
    if has_terminator(pattern) {
        Some(RegexError::StringTerminatingCharactersInTheMiddle)
    } else {
        reported_error(code)
    }
}

/// The result of matching, given the engine's reply. Where either text
/// cannot cross, the local error comes whatever the reply.
pub open spec fn match_verdict(pattern: Seq<u8>, text: Seq<u8>, reply: MatchResult) -> Result<
    bool,
    RegexError,
> {
    if has_terminator(pattern) || has_terminator(text) {
        Err(RegexError::StringTerminatingCharactersInTheMiddle)
    } else {
        match_outcome(reply)
    }
}

/// Whether `answer` is one that `engine` gave when asked about `pattern` in
/// its crossing form.
pub open spec fn answered<F: FnOnce(&ForeignText) -> R, R>(
    engine: F,
    pattern: Seq<u8>,
    answer: R,
) -> bool {
    exists|p: &ForeignText| p@ == pattern && #[trigger] engine.ensures((p,), answer)
}

/// Whether `answer` is one that `engine` gave when asked about `pattern` and
/// `text` in their crossing forms.
pub open spec fn answered_both<F: FnOnce(&ForeignText, &ForeignText) -> R, R>(
    engine: F,
    pattern: Seq<u8>,
    text: Seq<u8>,
    answer: R,
) -> bool {
    exists|p: &ForeignText, t: &ForeignText|
        p@ == pattern && t@ == text && #[trigger] engine.ensures((p, t), answer)
}

/// Tells whether the engine accepts `pattern`.
///
/// `validate` is the engine's entry point. It is handed the pattern in its
/// crossing form, which lives until the call has returned, and its verdict
/// is returned as it came. A pattern that holds a terminator is invalid, and
/// the result is then `validity` of any verdict.
pub fn is_valid<F: FnOnce(&ForeignText) -> bool>(pattern: &str, validate: F) -> (valid: bool)
    requires
        forall|p: &ForeignText| p@ == pattern.spec_bytes() ==> validate.requires((p,)),
    ensures
        has_terminator(pattern.spec_bytes()) ==> !valid,
        exists|verdict: bool|
            valid == #[trigger] validity(pattern.spec_bytes(), verdict) && (has_terminator(
                pattern.spec_bytes(),
            ) || answered(validate, pattern.spec_bytes(), verdict)),
{
    match ForeignText::new(pattern) {
        Some(copy) => {
            let verdict = validate(&copy);
            assert(validate.ensures((&copy,), verdict));
            assert(verdict == validity(pattern.spec_bytes(), verdict));
            verdict
        },
        None => {
            assert(false == validity(pattern.spec_bytes(), false));
            false
        },
    }
}

/// Tells why the engine refuses `pattern`, if it does.
///
/// `error_code` is the engine's entry point. It is handed the pattern in its
/// crossing form, and its code is read as `error_for_code` reads it. A
/// pattern that holds a terminator has the local error.
pub fn check_error<F: FnOnce(&ForeignText) -> i32>(pattern: &str, error_code: F) -> (error: Option<
    RegexError,
>)
    requires
        forall|p: &ForeignText| p@ == pattern.spec_bytes() ==> error_code.requires((p,)),
    ensures
        has_terminator(pattern.spec_bytes()) ==> error == Some(
            RegexError::StringTerminatingCharactersInTheMiddle,
        ),
        exists|code: i32|
            error == #[trigger] checked_error(pattern.spec_bytes(), code) && (has_terminator(
                pattern.spec_bytes(),
            ) || answered(error_code, pattern.spec_bytes(), code)),
{
    match ForeignText::new(pattern) {
        Some(copy) => {
            let code = error_code(&copy);
            assert(error_code.ensures((&copy,), code));
            let error = error_for_code(code);
            assert(error == checked_error(pattern.spec_bytes(), code));
            error
        },
        None => {
            let error = Some(RegexError::StringTerminatingCharactersInTheMiddle);
            assert(error == checked_error(pattern.spec_bytes(), NO_ERROR));
            error
        },
    }
}

/// Matches `text` against `pattern` in one call into the engine.
///
/// `is_match` is the engine's combined entry point. It is handed both texts
/// in their crossing forms, and its reply is read as `MatchResult::outcome`
/// reads it. Where either text holds a terminator the local error comes.
pub fn matches<F: FnOnce(&ForeignText, &ForeignText) -> MatchResult>(
    pattern: &str,
    text: &str,
    is_match: F,
) -> (result: Result<bool, RegexError>)
    requires
        forall|p: &ForeignText, t: &ForeignText|
            p@ == pattern.spec_bytes() && t@ == text.spec_bytes() ==> is_match.requires((p, t)),
    ensures
        has_terminator(pattern.spec_bytes()) || has_terminator(text.spec_bytes()) ==> result
            == Err::<bool, RegexError>(RegexError::StringTerminatingCharactersInTheMiddle),
        exists|reply: MatchResult|
            result == #[trigger] match_verdict(pattern.spec_bytes(), text.spec_bytes(), reply) && (
            has_terminator(pattern.spec_bytes()) || has_terminator(text.spec_bytes())
                || answered_both(is_match, pattern.spec_bytes(), text.spec_bytes(), reply)),
{
    match (ForeignText::new(pattern), ForeignText::new(text)) {
        (Some(pattern_copy), Some(text_copy)) => {
            let reply = is_match(&pattern_copy, &text_copy);
            assert(is_match.ensures((&pattern_copy, &text_copy), reply));
            let result = reply.outcome();
            assert(result == match_verdict(pattern.spec_bytes(), text.spec_bytes(), reply));
            result
        },
        _ => {
            let result = Err(RegexError::StringTerminatingCharactersInTheMiddle);
            let ghost unread = MatchResult { error_code: NO_ERROR, is_match: false };
            assert(result == match_verdict(pattern.spec_bytes(), text.spec_bytes(), unread));
            result
        },
    }
}

/// A pattern that can cross and that the engine accepts, with a true verdict
/// and a code that names no failure, is valid and has no error.
pub proof fn lemma_accepted_pattern(pattern: Seq<u8>, verdict: bool, code: i32)
    requires
        !has_terminator(pattern),
        verdict,
        !is_known_code(code),
    ensures
        validity(pattern, verdict),
        checked_error(pattern, code) is None,
{
}

/// Checking and matching agree on every failure that the engine knows: where
/// both texts can cross and the engine answers with a known code, checking
/// reports that code's error and matching fails with the same, whatever the
/// flag beside the code. For the code of a missing closing parenthesis that
/// error is `ErrorMissingParen`.
pub proof fn lemma_check_and_match_agree(
    pattern: Seq<u8>,
    text: Seq<u8>,
    code: i32,
    flag: bool,
)
    requires
        !has_terminator(pattern),
        !has_terminator(text),
        is_known_code(code),
    ensures
        checked_error(pattern, code) == Some(error_of_code(code)),
        match_verdict(pattern, text, (MatchResult { error_code: code, is_match: flag })) == Err::<
            bool,
            RegexError,
        >(error_of_code(code)),
        code == 6 ==> error_of_code(code) == RegexError::ErrorMissingParen,
{
}

/// A pattern that holds a terminator is invalid, silently, and has the local
/// error when checked, whatever the engine would have said of it. Matching
/// fails with the same error where either text holds a terminator.
pub proof fn lemma_terminator_refused(
    pattern: Seq<u8>,
    text: Seq<u8>,
    verdict: bool,
    code: i32,
    reply: MatchResult,
)
    requires
        has_terminator(pattern),
    ensures
        !validity(pattern, verdict),
        checked_error(pattern, code) == Some(RegexError::StringTerminatingCharactersInTheMiddle),
        match_verdict(pattern, text, reply) == Err::<bool, RegexError>(
            RegexError::StringTerminatingCharactersInTheMiddle,
        ),
        match_verdict(text, pattern, reply) == Err::<bool, RegexError>(
            RegexError::StringTerminatingCharactersInTheMiddle,
        ),
{
}

/// Beside a code other than that of success the flag is never read: two
/// replies with the same such code have the same outcome.
pub proof fn lemma_flag_unread_on_failure(first: MatchResult, second: MatchResult)
    requires
        first.error_code == second.error_code,
        first.error_code != NO_ERROR,
    ensures
        match_outcome(first) == match_outcome(second),
        match_outcome(first) is Err,
{
}

/// Nothing but the texts and the engine's answer decides a result: the same
/// texts with the same answer give the same result, call after call.
pub proof fn lemma_same_inputs_same_results(
    pattern: Seq<u8>,
    text: Seq<u8>,
    verdict: bool,
    code: i32,
    reply: MatchResult,
    pattern_again: Seq<u8>,
    text_again: Seq<u8>,
    verdict_again: bool,
    code_again: i32,
    reply_again: MatchResult,
)
    requires
        pattern == pattern_again,
        text == text_again,
        verdict == verdict_again,
        code == code_again,
        reply == reply_again,
    ensures
        validity(pattern, verdict) == validity(pattern_again, verdict_again),
        checked_error(pattern, code) == checked_error(pattern_again, code_again),
        match_verdict(pattern, text, reply) == match_verdict(pattern_again, text_again, reply_again),
{
}

} // verus!
