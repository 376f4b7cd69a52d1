use vstd::prelude::*;
use vstd::string::*;

use crate::decimal::{decimal, lemma_decimal_injective, push_decimal};

verus! {

/// Everything that can go wrong at the boundary.
///
/// The first fifteen variants mirror the engine's own diagnostic codes, in
/// the engine's order. The last two are local: one for text that cannot cross
/// the boundary at all, one for a code that the engine sent and that this
/// taxonomy does not know.
#[derive(Debug, Clone, Copy, PartialEq, Eq, Structural)]
pub enum RegexError {
    ErrorInternal,
    ErrorBadEscape,
    ErrorBadCharClass,
    ErrorBadCharRange,
    ErrorMissingBracket,
    ErrorMissingParen,
    ErrorUnexpectedParen,
    ErrorTrailingBackslash,
    ErrorRepeatArgument,
    ErrorRepeatSize,
    ErrorRepeatOp,
    ErrorBadPerlOp,
    ErrorBadUTF8,
    ErrorBadNamedCapture,
    ErrorPatternTooLarge,
    /// The text holds a terminator byte, so it has no terminated form.
    StringTerminatingCharactersInTheMiddle,
    /// A code outside the known range, kept as it came.
    ParseErrorCode(i32),
}

/// The code with which the engine reports success.
pub const NO_ERROR: i32 = 0;

/// The smallest code that names a failure.
pub const FIRST_KNOWN_CODE: i32 = 1;

/// The largest code that names a failure.
pub const LAST_KNOWN_CODE: i32 = 15;

/// Whether `code` is one of the engine's documented failure codes.
pub open spec fn is_known_code(code: i32) -> bool {
    FIRST_KNOWN_CODE <= code <= LAST_KNOWN_CODE
}

/// The error that a numeric code stands for. Total: a code that names no
/// documented failure is kept inside the catch-all variant.
pub open spec fn error_of_code(code: i32) -> RegexError {
    if code == 1 {
        RegexError::ErrorInternal
    } else if code == 2 {
        RegexError::ErrorBadEscape
    } else if code == 3 {
        RegexError::ErrorBadCharClass
    } else if code == 4 {
        RegexError::ErrorBadCharRange
    } else if code == 5 {
        RegexError::ErrorMissingBracket
    } else if code == 6 {
        RegexError::ErrorMissingParen
    } else if code == 7 {
        RegexError::ErrorUnexpectedParen
    } else if code == 8 {
        RegexError::ErrorTrailingBackslash
    } else if code == 9 {
        RegexError::ErrorRepeatArgument
    } else if code == 10 {
        RegexError::ErrorRepeatSize
    } else if code == 11 {
        RegexError::ErrorRepeatOp
    } else if code == 12 {
        RegexError::ErrorBadPerlOp
    } else if code == 13 {
        RegexError::ErrorBadUTF8
    } else if code == 14 {
        RegexError::ErrorBadNamedCapture
    } else if code == 15 {
        RegexError::ErrorPatternTooLarge
    } else {
        RegexError::ParseErrorCode(code)
    }
}

impl From<i32> for RegexError {
    fn from(value: i32) -> (error: RegexError) {
        match value {
            1 => RegexError::ErrorInternal,
            2 => RegexError::ErrorBadEscape,
            3 => RegexError::ErrorBadCharClass,
            4 => RegexError::ErrorBadCharRange,
            5 => RegexError::ErrorMissingBracket,
            6 => RegexError::ErrorMissingParen,
            7 => RegexError::ErrorUnexpectedParen,
            8 => RegexError::ErrorTrailingBackslash,
            9 => RegexError::ErrorRepeatArgument,
            10 => RegexError::ErrorRepeatSize,
            11 => RegexError::ErrorRepeatOp,
            12 => RegexError::ErrorBadPerlOp,
            13 => RegexError::ErrorBadUTF8,
            14 => RegexError::ErrorBadNamedCapture,
            15 => RegexError::ErrorPatternTooLarge,
            _ => RegexError::ParseErrorCode(value),
        }
    }
}

impl vstd::std_specs::convert::FromSpecImpl<i32> for RegexError {
    open spec fn obeys_from_spec() -> bool {
        true
    }

    open spec fn from_spec(value: i32) -> RegexError {
        error_of_code(value)
    }
}

impl RegexError {
    /// Whether this error is one of the engine's fifteen documented failures.
    pub open spec fn is_engine_error(&self) -> bool {
        !(self is StringTerminatingCharactersInTheMiddle) && !(self is ParseErrorCode)
    }

    /// The explanatory text of each error, fixed per variant. The catch-all
    /// ends in the decimal form of the code it carries.
    pub open spec fn message_text(&self) -> Seq<char> {
        match *self {
            RegexError::ErrorInternal => "engine's internal error"@,
            RegexError::ErrorBadEscape => "bad escape sequence"@,
            RegexError::ErrorBadCharClass => "bad character class"@,
            RegexError::ErrorBadCharRange => "bad character class range"@,
            RegexError::ErrorMissingBracket => "missing closing ]"@,
            RegexError::ErrorMissingParen => "missing closing )"@,
            RegexError::ErrorUnexpectedParen => "unexpected closing )"@,
            RegexError::ErrorTrailingBackslash => "trailing \\ at end of regexp"@,
            RegexError::ErrorRepeatArgument => "repeat argument missing, e.g. \"*\""@,
            RegexError::ErrorRepeatSize => "bad repetition argument"@,
            RegexError::ErrorRepeatOp => "bad repetition operator"@,
            RegexError::ErrorBadPerlOp => "bad perl operator"@,
            RegexError::ErrorBadUTF8 => "invalid UTF-8 in regexp"@,
            RegexError::ErrorBadNamedCapture => "bad named capture group"@,
            RegexError::ErrorPatternTooLarge => "pattern too large"@,
            RegexError::StringTerminatingCharactersInTheMiddle => "pattern had string terminating characters '/0' in the string"@,
            RegexError::ParseErrorCode(code) => "error code is outside of range of known error codes: "@
                + decimal(code as int),
        }
    }

    /// The error's message, ready for display.
    pub fn message(&self) -> (text: String)
        ensures
            text@ == self.message_text(),
    {
        match *self {
            RegexError::ErrorInternal => String::from_str("engine's internal error"),
            RegexError::ErrorBadEscape => String::from_str("bad escape sequence"),
            RegexError::ErrorBadCharClass => String::from_str("bad character class"),
            RegexError::ErrorBadCharRange => String::from_str("bad character class range"),
            RegexError::ErrorMissingBracket => String::from_str("missing closing ]"),
            RegexError::ErrorMissingParen => String::from_str("missing closing )"),
            RegexError::ErrorUnexpectedParen => String::from_str("unexpected closing )"),
            RegexError::ErrorTrailingBackslash => String::from_str("trailing \\ at end of regexp"),
            RegexError::ErrorRepeatArgument => String::from_str(
                "repeat argument missing, e.g. \"*\"",
            ),
            RegexError::ErrorRepeatSize => String::from_str("bad repetition argument"),
            RegexError::ErrorRepeatOp => String::from_str("bad repetition operator"),
            RegexError::ErrorBadPerlOp => String::from_str("bad perl operator"),
            RegexError::ErrorBadUTF8 => String::from_str("invalid UTF-8 in regexp"),
            RegexError::ErrorBadNamedCapture => String::from_str("bad named capture group"),
            RegexError::ErrorPatternTooLarge => String::from_str("pattern too large"),
            RegexError::StringTerminatingCharactersInTheMiddle => String::from_str(
                "pattern had string terminating characters '/0' in the string",
            ),
            RegexError::ParseErrorCode(code) => {
                let mut text = String::from_str(
                    "error code is outside of range of known error codes: ",
                );
                push_decimal(&mut text, code);
                text
            },
        }
    }
}

/// The mapping from codes to errors is total and loses nothing: a known code
/// gives one of the engine's own errors, any other code gives the catch-all
/// with that very code inside, no code gives the local error of a text that
/// cannot cross, and different codes give different errors.
pub proof fn lemma_code_mapping(code: i32, other: i32)
    ensures
        is_known_code(code) <==> error_of_code(code).is_engine_error(),
        !is_known_code(code) <==> error_of_code(code) == RegexError::ParseErrorCode(code),
        error_of_code(code) != RegexError::StringTerminatingCharactersInTheMiddle,
        error_of_code(code) == error_of_code(other) ==> code == other,
{
}

/// The message of the catch-all tells the code: two codes outside the known
/// range with the same message are the same code.
pub proof fn lemma_unknown_code_message(code: i32, other: i32)
    requires
        !is_known_code(code),
        !is_known_code(other),
        error_of_code(code).message_text() == error_of_code(other).message_text(),
    ensures
        code == other,
{
    let lead = "error code is outside of range of known error codes: "@;
    let first = lead + decimal(code as int);
    let second = lead + decimal(other as int);
    assert(first == second);
    assert(decimal(code as int) =~= first.subrange(lead.len() as int, first.len() as int));
    assert(decimal(other as int) =~= second.subrange(lead.len() as int, second.len() as int));
    lemma_decimal_injective(code as int, other as int);
}

} // verus!
