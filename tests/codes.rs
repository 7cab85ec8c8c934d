use terminal_remote::code::{
    code_alphabet, generate_browser_id, generate_session_code, is_valid_code, normalize_code,
};

#[test]
fn test_code_length() {
    let code = generate_session_code();
    assert_eq!(code.len(), 6);
}

#[test]
fn test_code_alphabet() {
    let alphabet = code_alphabet();
    let code = generate_session_code();
    for c in code.chars() {
        assert!(alphabet.contains(&c), "Invalid char: {}", c);
    }
}

#[test]
fn test_no_confusing_chars() {
    // Generate many codes and verify none contain confusing chars
    for _ in 0..100 {
        let code = generate_session_code();
        assert!(!code.contains('0'));
        assert!(!code.contains('O'));
        assert!(!code.contains('1'));
        assert!(!code.contains('I'));
        assert!(!code.contains('L'));
    }
}

fn matches_code_pattern(s: &str) -> bool {
    s.len() == 6
        && s.chars().all(|c| {
            ('A'..='H').contains(&c)
                || ('J'..='K').contains(&c)
                || ('M'..='N').contains(&c)
                || ('P'..='Z').contains(&c)
                || ('2'..='9').contains(&c)
        })
}

#[test]
fn alphabet_is_exactly_the_documented_one() {
    let a: String = code_alphabet().into_iter().collect();
    assert_eq!(a, "ABCDEFGHJKMNPQRSTUVWXYZ23456789");
}

#[test]
fn minted_codes_match_pattern_and_validate() {
    for _ in 0..200 {
        let code = generate_session_code();
        assert!(matches_code_pattern(&code), "bad code {}", code);
        assert!(is_valid_code(&code));
    }
}

#[test]
fn validity_edges() {
    assert!(is_valid_code("ABC234"));
    assert!(!is_valid_code("ABC23"));
    assert!(!is_valid_code("ABC2345"));
    assert!(!is_valid_code("ABC230"));
    assert!(!is_valid_code("abc234"));
    assert!(!is_valid_code("ABCDEL"));
    assert!(!is_valid_code(""));
}

#[test]
fn normalize_upper_cases_ascii_only() {
    assert_eq!(normalize_code("xk7pq2"), "XK7PQ2");
    assert_eq!(normalize_code("AbC-9z"), "ABC-9Z");
    assert_eq!(normalize_code(""), "");
    assert_eq!(normalize_code("é"), "é");
}

#[test]
fn browser_ids_are_eight_safe_chars() {
    for _ in 0..50 {
        let id = generate_browser_id();
        assert_eq!(id.chars().count(), 8);
        assert!(id.chars().all(|c| c == '_' || c == '-' || c.is_ascii_alphanumeric()));
    }
}
