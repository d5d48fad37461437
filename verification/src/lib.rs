//! Lexical scanner for a small query/pattern language.
//!
//! The scanner turns a source text into a forward-only stream of classified
//! tokens. Trivia (whitespace and comments) are emitted as tokens too, so the
//! token stream is lossless: concatenating the span of every token in order
//! reproduces the input exactly. Unrecognized input never aborts scanning; it
//! is returned as an `Illegal` token carrying the offending text.

pub mod chars;
pub mod laws;
pub mod model;
pub mod scanner;
pub mod token;

pub use chars::TokenTests;
pub use scanner::Scanner;
pub use token::Token;
