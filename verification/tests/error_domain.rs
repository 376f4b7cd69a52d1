//! The mapping from codes to errors, the messages, and the crossing form.

use regex_bridge::decimal::push_decimal;
use regex_bridge::error::{FIRST_KNOWN_CODE, LAST_KNOWN_CODE, NO_ERROR};
use regex_bridge::reply::error_for_code;
use regex_bridge::text::{holds_terminator, TERMINATOR};
use regex_bridge::{ForeignText, MatchResult, RegexError};

const KNOWN: [(i32, RegexError, &str); 15] = [
    (1, RegexError::ErrorInternal, "engine's internal error"),
    (2, RegexError::ErrorBadEscape, "bad escape sequence"),
    (3, RegexError::ErrorBadCharClass, "bad character class"),
    (4, RegexError::ErrorBadCharRange, "bad character class range"),
    (5, RegexError::ErrorMissingBracket, "missing closing ]"),
    (6, RegexError::ErrorMissingParen, "missing closing )"),
    (7, RegexError::ErrorUnexpectedParen, "unexpected closing )"),
    (8, RegexError::ErrorTrailingBackslash, "trailing \\ at end of regexp"),
    (9, RegexError::ErrorRepeatArgument, "repeat argument missing, e.g. \"*\""),
    (10, RegexError::ErrorRepeatSize, "bad repetition argument"),
    (11, RegexError::ErrorRepeatOp, "bad repetition operator"),
    (12, RegexError::ErrorBadPerlOp, "bad perl operator"),
    (13, RegexError::ErrorBadUTF8, "invalid UTF-8 in regexp"),
    (14, RegexError::ErrorBadNamedCapture, "bad named capture group"),
    (15, RegexError::ErrorPatternTooLarge, "pattern too large"),
];

#[test]
fn known_codes_map_to_their_variants() {
    for (code, error, _) in KNOWN {
        assert_eq!(RegexError::from(code), error);
        assert_eq!(error_for_code(code), Some(error));
    }
}

#[test]
fn known_codes_have_their_messages() {
    for (code, error, message) in KNOWN {
        assert_eq!(error.message(), message);
        assert_eq!(RegexError::from(code).message(), message);
    }
}

#[test]
fn known_range_is_one_to_fifteen() {
    assert_eq!(NO_ERROR, 0);
    assert_eq!(FIRST_KNOWN_CODE, 1);
    assert_eq!(LAST_KNOWN_CODE, 15);
}

#[test]
fn codes_outside_the_range_are_kept_as_they_came() {
    for code in [0, 16, 17, 100, -1, -15, i32::MIN, i32::MAX] {
        assert_eq!(RegexError::from(code), RegexError::ParseErrorCode(code));
        assert_eq!(error_for_code(code), None);
    }
}

#[test]
fn different_codes_give_different_errors() {
    for first in -3..20 {
        for second in -3..20 {
            assert_eq!(RegexError::from(first) == RegexError::from(second), first == second);
        }
    }
}

#[test]
fn no_code_gives_the_local_error() {
    for code in -100..100 {
        assert_ne!(RegexError::from(code), RegexError::StringTerminatingCharactersInTheMiddle);
    }
}

#[test]
fn local_error_has_its_message() {
    assert_eq!(
        RegexError::StringTerminatingCharactersInTheMiddle.message(),
        "pattern had string terminating characters '/0' in the string"
    );
}

#[test]
fn catch_all_message_ends_in_the_code() {
    let lead = "error code is outside of range of known error codes: ";
    assert_eq!(RegexError::ParseErrorCode(0).message(), format!("{lead}0"));
    assert_eq!(RegexError::ParseErrorCode(16).message(), format!("{lead}16"));
    assert_eq!(RegexError::ParseErrorCode(100).message(), format!("{lead}100"));
    assert_eq!(RegexError::ParseErrorCode(-1).message(), format!("{lead}-1"));
    assert_eq!(RegexError::ParseErrorCode(1009).message(), format!("{lead}1009"));
    assert_eq!(RegexError::ParseErrorCode(i32::MAX).message(), format!("{lead}2147483647"));
    assert_eq!(RegexError::ParseErrorCode(i32::MIN).message(), format!("{lead}-2147483648"));
}

#[test]
fn catch_all_message_agrees_with_std_formatting() {
    for code in [0, 7, 9, 10, 11, 99, 101, 12345, -7, -10, -990, 1_000_000_000, -1_000_000_000] {
        assert_eq!(
            RegexError::ParseErrorCode(code).message(),
            format!("error code is outside of range of known error codes: {code}")
        );
    }
}

#[test]
fn push_decimal_appends_to_what_is_there() {
    let mut text = String::from("n=");
    push_decimal(&mut text, 205);
    assert_eq!(text, "n=205");
    push_decimal(&mut text, -30);
    assert_eq!(text, "n=205-30");
    push_decimal(&mut text, 0);
    assert_eq!(text, "n=205-300");
}

#[test]
fn outcome_reads_the_code_first() {
    assert_eq!(MatchResult { error_code: 0, is_match: true }.outcome(), Ok(true));
    assert_eq!(MatchResult { error_code: 0, is_match: false }.outcome(), Ok(false));
    assert_eq!(
        MatchResult { error_code: 6, is_match: true }.outcome(),
        Err(RegexError::ErrorMissingParen)
    );
    assert_eq!(
        MatchResult { error_code: 6, is_match: false }.outcome(),
        Err(RegexError::ErrorMissingParen)
    );
    assert_eq!(
        MatchResult { error_code: 99, is_match: true }.outcome(),
        Err(RegexError::ParseErrorCode(99))
    );
    assert_eq!(
        MatchResult { error_code: -1, is_match: false }.outcome(),
        Err(RegexError::ParseErrorCode(-1))
    );
}

#[test]
fn terminator_is_found_wherever_it_stands() {
    assert_eq!(TERMINATOR, 0);
    assert!(!holds_terminator(b""));
    assert!(!holds_terminator(b"abc"));
    assert!(!holds_terminator(&[1, 255, 48]));
    assert!(holds_terminator(&[0]));
    assert!(holds_terminator(b"\0abc"));
    assert!(holds_terminator(b"ab\0c"));
    assert!(holds_terminator(b"abc\0"));
}

#[test]
fn crossing_form_is_the_text_and_one_terminator() {
    assert_eq!(ForeignText::new("").unwrap().as_bytes_with_nul(), &[0]);
    assert_eq!(ForeignText::new("abc").unwrap().as_bytes_with_nul(), b"abc\0");
    assert_eq!(
        ForeignText::new("h\u{e9}llo").unwrap().as_bytes_with_nul(),
        &[b'h', 0xc3, 0xa9, b'l', b'l', b'o', 0]
    );
}

#[test]
fn text_with_terminator_has_no_crossing_form() {
    assert!(ForeignText::new("\0").is_none());
    assert!(ForeignText::new("a\0b").is_none());
    assert!(ForeignText::new("abc\0").is_none());
    assert!(ForeignText::new("\0abc").is_none());
}
