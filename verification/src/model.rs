//! The mathematical tokenizer the scanner is proved against.
//!
//! `spec_scan` gives the token that begins at a position of the input, and
//! `spec_scan_len` the number of characters it spans. Dispatch is
//! priority-ordered and first match wins: a whitespace run, an identifier or
//! keyword, an operator with two-character lookahead, a line comment, a run of
//! dots, then single-character punctuation; anything else is a one-character
//! `Illegal` token. At the end of the input the result is `EndOfInput` and
//! nothing is consumed.

use vstd::prelude::*;

use crate::chars::{ident_char, ident_start, operator_char, space};
use crate::token::SpecToken;

verus! {

/// End of the maximal whitespace run beginning at `i`.
pub open spec fn space_run_end(inp: Seq<char>, i: int) -> int
    decreases inp.len() - i when 0 <= i <= inp.len()
{
    if i < inp.len() && space(inp[i]) {
        space_run_end(inp, i + 1)
    } else {
        i
    }
}

/// End of the maximal identifier-continuation run beginning at `i`.
pub open spec fn ident_run_end(inp: Seq<char>, i: int) -> int
    decreases inp.len() - i when 0 <= i <= inp.len()
{
    if i < inp.len() && ident_char(inp[i]) {
        ident_run_end(inp, i + 1)
    } else {
        i
    }
}

/// End of the maximal run of `.` characters beginning at `i`.
pub open spec fn dot_run_end(inp: Seq<char>, i: int) -> int
    decreases inp.len() - i when 0 <= i <= inp.len()
{
    if i < inp.len() && inp[i] == '.' {
        dot_run_end(inp, i + 1)
    } else {
        i
    }
}

/// End of the maximal newline-free run beginning at `i`.
pub open spec fn comment_run_end(inp: Seq<char>, i: int) -> int
    decreases inp.len() - i when 0 <= i <= inp.len()
{
    if i < inp.len() && inp[i] != '\n' {
        comment_run_end(inp, i + 1)
    } else {
        i
    }
}

/// The keyword table: exactly six reserved words are promoted to their
/// dedicated variants; every other name is a plain identifier.
pub open spec fn keyword_token(name: Seq<char>) -> SpecToken {
    if name == seq!['m', 'a', 't', 'c', 'h'] {
        SpecToken::Match
    } else if name == seq!['i', 'n'] {
        SpecToken::In
    } else if name == seq!['a', 's', 'c'] {
        SpecToken::Asc
    } else if name == seq!['d', 'e', 's', 'c'] {
        SpecToken::Desc
    } else if name == seq!['t', 'r', 'u', 'e'] {
        SpecToken::True
    } else if name == seq!['f', 'a', 'l', 's', 'e'] {
        SpecToken::False
    } else {
        SpecToken::Identifier(name)
    }
}

/// The two-character operator table. `text` is the two-character span; any
/// pairing outside the table is illegal and carries both characters.
pub open spec fn pair_token(c1: char, c2: char, text: Seq<char>) -> SpecToken {
    if c1 == '=' && c2 == '=' {
        SpecToken::Equals
    } else if c1 == '|' && c2 == '|' {
        SpecToken::Or
    } else if c1 == '&' && c2 == '&' {
        SpecToken::And
    } else if c1 == '<' && c2 == '=' {
        SpecToken::LessOrEqual
    } else if c1 == '>' && c2 == '=' {
        SpecToken::GreaterOrEqual
    } else if c1 == '=' && c2 == '>' {
        SpecToken::Rocket
    } else if c1 == '!' && c2 == '=' {
        SpecToken::NotEquals
    } else if c1 == '-' && c2 == '>' {
        SpecToken::Arrow
    } else {
        SpecToken::Illegal(text)
    }
}

/// The single-character operator fallback. `text` is the one-character span;
/// an operator-leading character with no single-character reading (a bare `=`
/// or `&`) is illegal.
pub open spec fn single_token(c: char, text: Seq<char>) -> SpecToken {
    if c == '>' {
        SpecToken::GreaterThan
    } else if c == '<' {
        SpecToken::LessThan
    } else if c == '!' {
        SpecToken::Not
    } else if c == '*' {
        SpecToken::Asterisk
    } else if c == '|' {
        SpecToken::Pipe
    } else if c == '?' {
        SpecToken::QuestionMark
    } else if c == '-' {
        SpecToken::Minus
    } else {
        SpecToken::Illegal(text)
    }
}

/// A maximal dot run classified by its length: one, two or three dots are
/// tokens of their own; a longer run is illegal and carried whole.
pub open spec fn dots_token(run: Seq<char>) -> SpecToken {
    if run.len() == 1 {
        SpecToken::Dot
    } else if run.len() == 2 {
        SpecToken::DotDot
    } else if run.len() == 3 {
        SpecToken::DotDotDot
    } else {
        SpecToken::Illegal(run)
    }
}

/// The token beginning at position `i` of `inp`.
pub open spec fn spec_scan(inp: Seq<char>, i: int) -> SpecToken {
    if i >= inp.len() {
        SpecToken::EndOfInput
    } else if space(inp[i]) {
        SpecToken::Whitespace(inp.subrange(i, space_run_end(inp, i)))
    } else if ident_start(inp[i]) {
        keyword_token(inp.subrange(i, ident_run_end(inp, i + 1)))
    } else if operator_char(inp[i]) {
        if i + 1 < inp.len() && operator_char(inp[i + 1]) {
            pair_token(inp[i], inp[i + 1], inp.subrange(i, i + 2))
        } else {
            single_token(inp[i], inp.subrange(i, i + 1))
        }
    } else if inp[i] == '/' {
        if i + 1 < inp.len() && inp[i + 1] == '/' {
            SpecToken::Comment(inp.subrange(i, comment_run_end(inp, i + 2)))
        } else {
            SpecToken::Illegal(inp.subrange(i, i + 1))
        }
    } else if inp[i] == '.' {
        dots_token(inp.subrange(i, dot_run_end(inp, i)))
    } else if inp[i] == '{' {
        SpecToken::LeftBrace
    } else if inp[i] == '}' {
        SpecToken::RightBrace
    } else {
        SpecToken::Illegal(inp.subrange(i, i + 1))
    }
}

/// How many characters the token beginning at position `i` spans.
pub open spec fn spec_scan_len(inp: Seq<char>, i: int) -> int {
    if i >= inp.len() {
        0
    } else if space(inp[i]) {
        space_run_end(inp, i) - i
    } else if ident_start(inp[i]) {
        ident_run_end(inp, i + 1) - i
    } else if operator_char(inp[i]) {
        if i + 1 < inp.len() && operator_char(inp[i + 1]) {
            2
        } else {
            1
        }
    } else if inp[i] == '/' {
        if i + 1 < inp.len() && inp[i + 1] == '/' {
            comment_run_end(inp, i + 2) - i
        } else {
            1
        }
    } else if inp[i] == '.' {
        dot_run_end(inp, i) - i
    } else {
        1
    }
}

/// The maximal whitespace run lies within the input, every character in it is
/// whitespace, and the character after it (if any) is not.
pub proof fn lemma_space_run(inp: Seq<char>, i: int)
    requires
        0 <= i <= inp.len(),
    ensures
        i <= space_run_end(inp, i) <= inp.len(),
        forall|k: int| i <= k < space_run_end(inp, i) ==> space(#[trigger] inp[k]),
        space_run_end(inp, i) < inp.len() ==> !space(inp[space_run_end(inp, i)]),
    decreases inp.len() - i,
{
    if i < inp.len() && space(inp[i]) {
        lemma_space_run(inp, i + 1);
    }
}

/// The maximal identifier run lies within the input, every character in it
/// continues an identifier, and the character after it (if any) does not.
pub proof fn lemma_ident_run(inp: Seq<char>, i: int)
    requires
        0 <= i <= inp.len(),
    ensures
        i <= ident_run_end(inp, i) <= inp.len(),
        forall|k: int| i <= k < ident_run_end(inp, i) ==> ident_char(#[trigger] inp[k]),
        ident_run_end(inp, i) < inp.len() ==> !ident_char(inp[ident_run_end(inp, i)]),
    decreases inp.len() - i,
{
    if i < inp.len() && ident_char(inp[i]) {
        lemma_ident_run(inp, i + 1);
    }
}

/// The maximal dot run lies within the input, every character in it is `.`,
/// and the character after it (if any) is not.
pub proof fn lemma_dot_run(inp: Seq<char>, i: int)
    requires
        0 <= i <= inp.len(),
    ensures
        i <= dot_run_end(inp, i) <= inp.len(),
        forall|k: int| i <= k < dot_run_end(inp, i) ==> #[trigger] inp[k] == '.',
        dot_run_end(inp, i) < inp.len() ==> inp[dot_run_end(inp, i)] != '.',
    decreases inp.len() - i,
{
    if i < inp.len() && inp[i] == '.' {
        lemma_dot_run(inp, i + 1);
    }
}

/// Totality: before the end of the input every scan consumes at least one
/// character, and never more than remain; at the end of the input the scan
/// consumes nothing and yields `EndOfInput`, so repeated scanning always
/// reaches the end and stays there.
pub proof fn lemma_scan_progress(inp: Seq<char>, i: int)
    requires
        0 <= i <= inp.len(),
    ensures
        i < inp.len() ==> 1 <= spec_scan_len(inp, i) <= inp.len() - i,
        i == inp.len() ==> spec_scan_len(inp, i) == 0 && spec_scan(inp, i)
            == SpecToken::EndOfInput,
{
    if i < inp.len() {
        if space(inp[i]) {
            lemma_space_run(inp, i + 1);
        } else if ident_start(inp[i]) {
            lemma_ident_run(inp, i + 1);
        } else if operator_char(inp[i]) {
        } else if inp[i] == '/' {
            if i + 1 < inp.len() && inp[i + 1] == '/' {
                lemma_comment_run(inp, i + 2);
            }
        } else if inp[i] == '.' {
            lemma_dot_run(inp, i + 1);
        }
    }
}

/// The maximal newline-free run lies within the input, holds no newline, and
/// the character after it (if any) is a newline.
pub proof fn lemma_comment_run(inp: Seq<char>, i: int)
    requires
        0 <= i <= inp.len(),
    ensures
        i <= comment_run_end(inp, i) <= inp.len(),
        forall|k: int| i <= k < comment_run_end(inp, i) ==> #[trigger] inp[k] != '\n',
        comment_run_end(inp, i) < inp.len() ==> inp[comment_run_end(inp, i)] == '\n',
    decreases inp.len() - i,
{
    if i < inp.len() && inp[i] != '\n' {
        lemma_comment_run(inp, i + 1);
    }
}

} // verus!
