use groq_lexer::TokenTests;

#[test]
fn digit_tests() {
    assert!(TokenTests::is_digit(&'0'));
    assert!(TokenTests::is_digit(&'9'));
    assert!(!TokenTests::is_digit(&'a'));
    assert!(!TokenTests::is_digit(&'/'));
}

#[test]
fn letter_tests() {
    assert!('a'.is_letter());
    assert!('z'.is_letter());
    assert!('A'.is_letter());
    assert!('Z'.is_letter());
    assert!(!'0'.is_letter());
    assert!(!'_'.is_letter());
}

#[test]
fn identifier_tests() {
    assert!('a'.is_identifier());
    assert!('0'.is_identifier());
    assert!('_'.is_identifier());
    assert!(!'$'.is_identifier());
    assert!(!'-'.is_identifier());
}

#[test]
fn leading_identifier_tests() {
    assert!('a'.is_leading_identifier());
    assert!('_'.is_leading_identifier());
    assert!('$'.is_leading_identifier());
    assert!(!'0'.is_leading_identifier());
    assert!(!'.'.is_leading_identifier());
}

#[test]
fn operator_tests() {
    for c in ['<', '>', '|', '=', '&', '!', '*', '?', '-'] {
        assert!(c.is_operator());
    }
    for c in ['^', '/', '.', '{', '}', 'a', ' '] {
        assert!(!c.is_operator());
    }
}

#[test]
fn whitespace_matches_the_standard_classification() {
    for c in [' ', '\t', '\n', '\r', '\u{b}', '\u{c}', '\u{a0}', '\u{2028}', '\u{3000}'] {
        assert!(c.is_whitespace());
        assert!(groq_lexer::chars::is_space(c));
    }
    for c in ['a', '.', '^', '\u{200b}', '\0'] {
        assert!(!c.is_whitespace());
        assert!(!groq_lexer::chars::is_space(c));
    }
}
