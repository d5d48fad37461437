//! Tokens and their mathematical form.

use vstd::prelude::*;

verus! {

/// One classified lexical unit.
///
/// Every token except `EndOfInput` stands for a non-empty contiguous span of
/// the source text. The payload-carrying variants hold that span verbatim;
/// for the zero-payload variants the span is the token's fixed spelling.
#[derive(Clone, Debug, PartialEq)]
pub enum Token {
    /// The input is exhausted; returned again on every further call.
    EndOfInput,
    /// Input matching no lexical rule, carrying the offending text.
    Illegal(String),
    /// A maximal run of whitespace characters, carried verbatim.
    Whitespace(String),
    /// A line comment from its leading `//` up to, and excluding, the newline.
    Comment(String),
    /// A non-keyword identifier.
    Identifier(String),
    /// The reserved word `true`.
    True,
    /// The reserved word `false`.
    False,
    /// The reserved word `match`.
    Match,
    /// The reserved word `in`.
    In,
    /// The reserved word `asc`.
    Asc,
    /// The reserved word `desc`.
    Desc,
    /// `{`
    LeftBrace,
    /// `}`
    RightBrace,
    /// `*`
    Asterisk,
    /// `==`
    Equals,
    /// `!=`
    NotEquals,
    /// `->`
    Arrow,
    /// `=>`
    Rocket,
    /// `!`
    Not,
    /// `|`
    Pipe,
    /// `?`
    QuestionMark,
    /// `.`
    Dot,
    /// `..`
    DotDot,
    /// `...`
    DotDotDot,
    /// `||`
    Or,
    /// `&&`
    And,
    /// `<`
    LessThan,
    /// `<=`
    LessOrEqual,
    /// `>`
    GreaterThan,
    /// `>=`
    GreaterOrEqual,
    /// `-`
    Minus,
}

/// The mathematical form of a token: payloads are character sequences.
pub enum SpecToken {
    /// The input is exhausted.
    EndOfInput,
    /// Input matching no lexical rule.
    Illegal(Seq<char>),
    /// A maximal whitespace run.
    Whitespace(Seq<char>),
    /// A line comment, `//` included, newline excluded.
    Comment(Seq<char>),
    /// A non-keyword identifier.
    Identifier(Seq<char>),
    /// `true`
    True,
    /// `false`
    False,
    /// `match`
    Match,
    /// `in`
    In,
    /// `asc`
    Asc,
    /// `desc`
    Desc,
    /// `{`
    LeftBrace,
    /// `}`
    RightBrace,
    /// `*`
    Asterisk,
    /// `==`
    Equals,
    /// `!=`
    NotEquals,
    /// `->`
    Arrow,
    /// `=>`
    Rocket,
    /// `!`
    Not,
    /// `|`
    Pipe,
    /// `?`
    QuestionMark,
    /// `.`
    Dot,
    /// `..`
    DotDot,
    /// `...`
    DotDotDot,
    /// `||`
    Or,
    /// `&&`
    And,
    /// `<`
    LessThan,
    /// `<=`
    LessOrEqual,
    /// `>`
    GreaterThan,
    /// `>=`
    GreaterOrEqual,
    /// `-`
    Minus,
}

impl View for Token {
    type V = SpecToken;

    open spec fn view(&self) -> SpecToken {
        match self {
            Token::EndOfInput => SpecToken::EndOfInput,
            Token::Illegal(s) => SpecToken::Illegal(s@),
            Token::Whitespace(s) => SpecToken::Whitespace(s@),
            Token::Comment(s) => SpecToken::Comment(s@),
            Token::Identifier(s) => SpecToken::Identifier(s@),
            Token::True => SpecToken::True,
            Token::False => SpecToken::False,
            Token::Match => SpecToken::Match,
            Token::In => SpecToken::In,
            Token::Asc => SpecToken::Asc,
            Token::Desc => SpecToken::Desc,
            Token::LeftBrace => SpecToken::LeftBrace,
            Token::RightBrace => SpecToken::RightBrace,
            Token::Asterisk => SpecToken::Asterisk,
            Token::Equals => SpecToken::Equals,
            Token::NotEquals => SpecToken::NotEquals,
            Token::Arrow => SpecToken::Arrow,
            Token::Rocket => SpecToken::Rocket,
            Token::Not => SpecToken::Not,
            Token::Pipe => SpecToken::Pipe,
            Token::QuestionMark => SpecToken::QuestionMark,
            Token::Dot => SpecToken::Dot,
            Token::DotDot => SpecToken::DotDot,
            Token::DotDotDot => SpecToken::DotDotDot,
            Token::Or => SpecToken::Or,
            Token::And => SpecToken::And,
            Token::LessThan => SpecToken::LessThan,
            Token::LessOrEqual => SpecToken::LessOrEqual,
            Token::GreaterThan => SpecToken::GreaterThan,
            Token::GreaterOrEqual => SpecToken::GreaterOrEqual,
            Token::Minus => SpecToken::Minus,
        }
    }
}

/// The exact source span a token stands for.
pub open spec fn token_text(t: SpecToken) -> Seq<char> {
    match t {
        SpecToken::EndOfInput => Seq::empty(),
        SpecToken::Illegal(s) => s,
        SpecToken::Whitespace(s) => s,
        SpecToken::Comment(s) => s,
        SpecToken::Identifier(s) => s,
        SpecToken::True => seq!['t', 'r', 'u', 'e'],
        SpecToken::False => seq!['f', 'a', 'l', 's', 'e'],
        SpecToken::Match => seq!['m', 'a', 't', 'c', 'h'],
        SpecToken::In => seq!['i', 'n'],
        SpecToken::Asc => seq!['a', 's', 'c'],
        SpecToken::Desc => seq!['d', 'e', 's', 'c'],
        SpecToken::LeftBrace => seq!['{'],
        SpecToken::RightBrace => seq!['}'],
        SpecToken::Asterisk => seq!['*'],
        SpecToken::Equals => seq!['=', '='],
        SpecToken::NotEquals => seq!['!', '='],
        SpecToken::Arrow => seq!['-', '>'],
        SpecToken::Rocket => seq!['=', '>'],
        SpecToken::Not => seq!['!'],
        SpecToken::Pipe => seq!['|'],
        SpecToken::QuestionMark => seq!['?'],
        SpecToken::Dot => seq!['.'],
        SpecToken::DotDot => seq!['.', '.'],
        SpecToken::DotDotDot => seq!['.', '.', '.'],
        SpecToken::Or => seq!['|', '|'],
        SpecToken::And => seq!['&', '&'],
        SpecToken::LessThan => seq!['<'],
        SpecToken::LessOrEqual => seq!['<', '='],
        SpecToken::GreaterThan => seq!['>'],
        SpecToken::GreaterOrEqual => seq!['>', '='],
        SpecToken::Minus => seq!['-'],
    }
}

} // verus!
