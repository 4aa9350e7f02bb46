use minrx::Match;

#[test]
fn test_match_equality() {
    let a = Match { start: 1, end: 2 };
    let b = Match { start: 1, end: 2 };
    assert_eq!(a, b);
}

#[test]
fn test_match_inequality() {
    let a = Match { start: 1, end: 2 };
    let b = Match { start: 1, end: 3 };
    assert_ne!(a, b);
}

#[test]
fn test_match_ordering() {
    let a = Match { start: 1, end: 2 };
    let b = Match { start: 1, end: 3 };
    assert!(a < b);
}
