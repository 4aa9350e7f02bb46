use minrx::codes::{REG_ESPACE, REG_NOMATCH, REG_SUCCESS, REG_UNKNOWN};
use minrx::{BuildError, MatchError};

fn msg() -> String {
    "problem".to_string()
}

#[test]
fn build_success_is_ok() {
    assert_eq!(BuildError::from_raw(REG_SUCCESS as i32, msg()), Ok(()));
    assert!(!BuildError::is_error_code(0));
}

#[test]
fn build_codes_map_to_their_errors() {
    let expected = [
        BuildError::BadPattern(msg()),
        BuildError::BadBracket(msg()),
        BuildError::BadRepetition(msg()),
        BuildError::UnbalancedBrace(msg()),
        BuildError::UnbalancedBracket(msg()),
        BuildError::InvalidCollate(msg()),
        BuildError::InvalidClass(msg()),
        BuildError::InvalidEscape(msg()),
        BuildError::UnbalancedParen(msg()),
        BuildError::InvalidEndpoint(msg()),
        BuildError::AllocError(msg()),
        BuildError::InvalidDigitEscape(msg()),
    ];
    for (i, e) in expected.into_iter().enumerate() {
        let code = i as i32 + 1;
        assert!(BuildError::is_error_code(code));
        assert_eq!(BuildError::from_raw(code, msg()), Err(e));
    }
}

#[test]
fn build_other_codes_are_unknown() {
    for code in [REG_NOMATCH as i32, REG_UNKNOWN as i32, 15, 99, -1] {
        assert_eq!(BuildError::from_raw(code, msg()), Err(BuildError::Unknown(msg())));
    }
}

#[test]
fn build_error_keeps_its_message() {
    let e = BuildError::from_raw(9, "Unmatched ( or \\(".to_string()).unwrap_err();
    assert!(matches!(e, BuildError::UnbalancedParen(_)));
    assert_eq!(e.message(), "Unmatched ( or \\(");
    assert_eq!(e.to_string(), "Regex parse error: Unmatched ( or \\(");
}

#[test]
fn build_error_frees_expression_unless_out_of_memory() {
    assert!(BuildError::BadPattern(msg()).frees_expression());
    assert!(BuildError::Unknown(msg()).frees_expression());
    assert!(!BuildError::AllocError(msg()).frees_expression());
}

#[test]
fn match_codes_map_to_results() {
    assert_eq!(MatchError::from_raw(REG_SUCCESS as i32, msg()), Ok(true));
    assert_eq!(MatchError::from_raw(REG_NOMATCH as i32, msg()), Ok(false));
    assert_eq!(MatchError::from_raw(REG_ESPACE as i32, msg()), Err(MatchError::AllocError(msg())));
    for code in [1, 9, 12, REG_UNKNOWN as i32, 42, -3] {
        assert_eq!(MatchError::from_raw(code, msg()), Err(MatchError::Unknown(msg())));
    }
}

#[test]
fn match_error_codes_need_a_message() {
    assert!(!MatchError::is_error_code(REG_SUCCESS as i32));
    assert!(!MatchError::is_error_code(REG_NOMATCH as i32));
    assert!(MatchError::is_error_code(REG_ESPACE as i32));
    assert!(MatchError::is_error_code(REG_UNKNOWN as i32));
}

#[test]
fn match_error_display_text() {
    let e = MatchError::Unknown("Unknown error".to_string());
    assert_eq!(e.message(), "Unknown error");
    assert_eq!(e.to_string(), "Regex execution error: Unknown error");
    assert_eq!(
        MatchError::AllocError("Memory exhausted".to_string()).to_string(),
        "Regex execution error: Memory exhausted"
    );
}
