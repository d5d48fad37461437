//! Character classification used by the scanner.

use vstd::prelude::*;

verus! {

/// An ASCII decimal digit.
pub open spec fn digit(c: char) -> bool {
    '0' <= c && c <= '9'
}

/// An ASCII letter.
pub open spec fn letter(c: char) -> bool {
    ('a' <= c && c <= 'z') || ('A' <= c && c <= 'Z')
}

/// A character that may continue an identifier.
pub open spec fn ident_char(c: char) -> bool {
    letter(c) || digit(c) || c == '_'
}

/// A character that may begin an identifier.
pub open spec fn ident_start(c: char) -> bool {
    letter(c) || c == '_' || c == '$'
}

/// A character that begins an operator.
pub open spec fn operator_char(c: char) -> bool {
    c == '<' || c == '>' || c == '|' || c == '=' || c == '&' || c == '!' || c == '*' || c == '?'
        || c == '-'
}

/// A whitespace character: one with the Unicode `White_Space` property.
pub open spec fn space(c: char) -> bool {
    c == ' ' || c == '\t' || c == '\n' || c == '\u{b}' || c == '\u{c}' || c == '\r'
        || c == '\u{85}' || c == '\u{a0}' || c == '\u{1680}' || ('\u{2000}' <= c && c
        <= '\u{200a}') || c == '\u{2028}' || c == '\u{2029}' || c == '\u{202f}' || c == '\u{205f}'
        || c == '\u{3000}'
}

/// Whitespace test: decides `space`.
pub fn is_space(c: char) -> (r: bool)
    ensures
        r == space(c),
{
    c == ' ' || c == '\t' || c == '\n' || c == '\u{b}' || c == '\u{c}' || c == '\r' || c == '\u{85}'
        || c == '\u{a0}' || c == '\u{1680}' || ('\u{2000}' <= c && c <= '\u{200a}') || c
        == '\u{2028}' || c == '\u{2029}' || c == '\u{202f}' || c == '\u{205f}' || c == '\u{3000}'
}

/// Single-character tests that drive the scanner's dispatch.
pub trait TokenTests {
    /// What `is_digit` decides.
    spec fn digit_spec(&self) -> bool;

    /// What `is_letter` decides.
    spec fn letter_spec(&self) -> bool;

    /// What `is_identifier` decides.
    spec fn identifier_spec(&self) -> bool;

    /// What `is_leading_identifier` decides.
    spec fn leading_identifier_spec(&self) -> bool;

    /// What `is_operator` decides.
    spec fn operator_spec(&self) -> bool;

    /// True on an ASCII decimal digit.
    fn is_digit(&self) -> (r: bool)
        ensures
            r == self.digit_spec(),
    ;

    /// True on an ASCII letter.
    fn is_letter(&self) -> (r: bool)
        ensures
            r == self.letter_spec(),
    ;

    /// True on a character that may continue an identifier.
    fn is_identifier(&self) -> (r: bool)
        ensures
            r == self.identifier_spec(),
    ;

    /// True on a character that may begin an identifier.
    fn is_leading_identifier(&self) -> (r: bool)
        ensures
            r == self.leading_identifier_spec(),
    ;

    /// True on a character that begins an operator.
    fn is_operator(&self) -> (r: bool)
        ensures
            r == self.operator_spec(),
    ;
}

impl TokenTests for char {
    open spec fn digit_spec(&self) -> bool {
        digit(*self)
    }

    open spec fn letter_spec(&self) -> bool {
        letter(*self)
    }

    open spec fn identifier_spec(&self) -> bool {
        ident_char(*self)
    }

    open spec fn leading_identifier_spec(&self) -> bool {
        ident_start(*self)
    }

    open spec fn operator_spec(&self) -> bool {
        operator_char(*self)
    }

    fn is_digit(&self) -> (r: bool) {
        '0' <= *self && *self <= '9'
    }

    fn is_letter(&self) -> (r: bool) {
        ('a' <= *self && *self <= 'z') || ('A' <= *self && *self <= 'Z')
    }

    fn is_identifier(&self) -> (r: bool) {
        (('a' <= *self && *self <= 'z') || ('A' <= *self && *self <= 'Z')) || ('0' <= *self
            && *self <= '9') || *self == '_'
    }

    fn is_leading_identifier(&self) -> (r: bool) {
        (('a' <= *self && *self <= 'z') || ('A' <= *self && *self <= 'Z')) || *self == '_'
            || *self == '$'
    }

    fn is_operator(&self) -> (r: bool) {
        *self == '<' || *self == '>' || *self == '|' || *self == '=' || *self == '&' || *self
            == '!' || *self == '*' || *self == '?' || *self == '-'
    }
}

} // verus!
