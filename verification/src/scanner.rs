//! The scanner: a character cursor with lookahead-driven classification.

use vstd::prelude::*;
use vstd::string::{StrSliceExecFns, StringExecFns};

use crate::chars::{ident_start, is_space, operator_char, space, TokenTests};
use crate::model::{
    comment_run_end, dot_run_end, dots_token, ident_run_end, keyword_token, lemma_dot_run,
    lemma_scan_progress, lemma_space_run, pair_token, single_token, space_run_end, spec_scan,
    spec_scan_len,
};
use crate::token::{SpecToken, Token};

verus! {

/// A forward-only scanner over a source text.
///
/// The scanner owns the cursor exclusively: each call to [`Scanner::next`]
/// consumes exactly one lexical unit (or one trivia run) and returns its
/// classification. The count of characters consumed so far is available
/// through [`Scanner::pos`] and never decreases.
pub struct Scanner {
    input: String,
    cursor: usize,
}

impl Scanner {
    /// The full source text.
    pub closed spec fn text(&self) -> Seq<char> {
        self.input@
    }

    /// Count of characters consumed so far.
    pub closed spec fn at(&self) -> int {
        self.cursor as int
    }

    /// The cursor always lies within the input.
    pub open spec fn wf(&self) -> bool {
        0 <= self.at() <= self.text().len()
    }

    /// Constructs a scanner over `source`; nothing is consumed yet.
    pub fn new(source: &str) -> (s: Scanner)
        ensures
            s.wf(),
            s.text() == source@,
            s.at() == 0,
    {
        Scanner { input: String::from_str(source), cursor: 0 }
    }

    /// Returns the count of characters consumed so far.
    pub fn pos(&self) -> (p: u64)
        ensures
            p == self.at(),
    {
        self.cursor as u64
    }

    /// The next character, without consuming it.
    fn peek(&self) -> (r: Option<char>)
        requires
            self.wf(),
        ensures
            r == (if self.at() < self.text().len() {
                Some(self.text()[self.at()])
            } else {
                None::<char>
            }),
    {
        if self.cursor < self.input.as_str().unicode_len() {
            Some(self.input.as_str().get_char(self.cursor))
        } else {
            None
        }
    }

    /// Consumes and returns the next character, if any remains.
    fn read(&mut self) -> (r: Option<char>)
        requires
            old(self).wf(),
        ensures
            final(self).wf(),
            final(self).text() == old(self).text(),
            old(self).at() < old(self).text().len() ==> r == Some(
                old(self).text()[old(self).at()],
            ) && final(self).at() == old(self).at() + 1,
            old(self).at() == old(self).text().len() ==> r == None::<char> && final(self).at()
                == old(self).at(),
    {
        if self.cursor < self.input.as_str().unicode_len() {
            let c = self.input.as_str().get_char(self.cursor);
            self.cursor = self.cursor + 1;
            Some(c)
        } else {
            None
        }
    }

    /// Consumes the next character, if any remains.
    fn skip(&mut self)
        requires
            old(self).wf(),
        ensures
            final(self).wf(),
            final(self).text() == old(self).text(),
            old(self).at() < old(self).text().len() ==> final(self).at() == old(self).at() + 1,
            old(self).at() == old(self).text().len() ==> final(self).at() == old(self).at(),
    {
        let _ = self.read();
    }

    /// Copies the span of characters `from..to` out of the input.
    fn span(&self, from: usize, to: usize) -> (s: String)
        requires
            from <= to,
            to <= self.text().len(),
        ensures
            s@ == self.text().subrange(from as int, to as int),
    {
        String::from_str(self.input.as_str().substring_char(from, to))
    }

    /// Consumes the maximal whitespace run at the cursor, if one begins
    /// there, and returns it verbatim; otherwise consumes nothing.
    fn scan_whitespace(&mut self) -> (r: Option<String>)
        requires
            old(self).wf(),
        ensures
            final(self).wf(),
            final(self).text() == old(self).text(),
            if old(self).at() < old(self).text().len() && space(
                old(self).text()[old(self).at()],
            ) {
                &&& final(self).at() == space_run_end(old(self).text(), old(self).at())
                &&& r matches Some(s) && s@ == old(self).text().subrange(
                    old(self).at(),
                    final(self).at(),
                )
            } else {
                &&& final(self).at() == old(self).at()
                &&& r is None
            },
    {
        let start = self.cursor;
        loop
            invariant
                self.wf(),
                self.text() == old(self).text(),
                start as int <= self.at(),
                space_run_end(self.text(), start as int) == space_run_end(self.text(), self.at()),
            ensures
                self.wf(),
                self.text() == old(self).text(),
                start as int <= self.at(),
                self.at() == space_run_end(self.text(), start as int),
            decreases self.text().len() - self.at(),
        {
            match self.peek() {
                Some(c) => {
                    if is_space(c) {
                        self.skip();
                    } else {
                        break ;
                    }
                },
                None => {
                    break ;
                },
            }
        }
        proof {
            if old(self).at() < old(self).text().len() && space(
                old(self).text()[old(self).at()],
            ) {
                lemma_space_run(old(self).text(), old(self).at() + 1);
            }
        }
        if self.cursor > start {
            Some(self.span(start, self.cursor))
        } else {
            None
        }
    }

    /// Consumes an identifier beginning at the cursor: the leading character,
    /// then the maximal run of identifier-continuation characters. The
    /// collected name is looked up in the keyword table.
    fn scan_identifier(&mut self) -> (t: Token)
        requires
            old(self).wf(),
            old(self).at() < old(self).text().len(),
            ident_start(old(self).text()[old(self).at()]),
        ensures
            final(self).wf(),
            final(self).text() == old(self).text(),
            final(self).at() == ident_run_end(old(self).text(), old(self).at() + 1),
            old(self).at() < final(self).at(),
            t@ == keyword_token(old(self).text().subrange(old(self).at(), final(self).at())),
    {
        let start = self.cursor;
        self.skip();
        loop
            invariant
                self.wf(),
                self.text() == old(self).text(),
                start as int + 1 <= self.at(),
                ident_run_end(self.text(), start as int + 1) == ident_run_end(
                    self.text(),
                    self.at(),
                ),
            ensures
                self.wf(),
                self.text() == old(self).text(),
                start as int + 1 <= self.at(),
                self.at() == ident_run_end(self.text(), start as int + 1),
            decreases self.text().len() - self.at(),
        {
            match self.peek() {
                Some(c) => {
                    if c.is_identifier() {
                        self.skip();
                    } else {
                        break ;
                    }
                },
                None => {
                    break ;
                },
            }
        }
        let name = self.span(start, self.cursor);
        proof {
            reveal_strlit("match");
            reveal_strlit("in");
            reveal_strlit("asc");
            reveal_strlit("desc");
            reveal_strlit("true");
            reveal_strlit("false");
            assert("match"@ =~= seq!['m', 'a', 't', 'c', 'h']);
            assert("in"@ =~= seq!['i', 'n']);
            assert("asc"@ =~= seq!['a', 's', 'c']);
            assert("desc"@ =~= seq!['d', 'e', 's', 'c']);
            assert("true"@ =~= seq!['t', 'r', 'u', 'e']);
            assert("false"@ =~= seq!['f', 'a', 'l', 's', 'e']);
        }
        if name == String::from_str("match") {
            Token::Match
        } else if name == String::from_str("in") {
            Token::In
        } else if name == String::from_str("asc") {
            Token::Asc
        } else if name == String::from_str("desc") {
            Token::Desc
        } else if name == String::from_str("true") {
            Token::True
        } else if name == String::from_str("false") {
            Token::False
        } else {
            Token::Identifier(name)
        }
    }

    /// Consumes an operator beginning at the cursor. If a second
    /// operator-leading character follows, both are consumed and resolved
    /// through the pair table (longest match first); otherwise the single
    /// character resolves through the single-character fallback.
    fn scan_operator(&mut self) -> (t: Token)
        requires
            old(self).wf(),
            old(self).at() < old(self).text().len(),
            operator_char(old(self).text()[old(self).at()]),
        ensures
            final(self).wf(),
            final(self).text() == old(self).text(),
            ({
                let inp = old(self).text();
                let i = old(self).at();
                if i + 1 < inp.len() && operator_char(inp[i + 1]) {
                    final(self).at() == i + 2 && t@ == pair_token(
                        inp[i],
                        inp[i + 1],
                        inp.subrange(i, i + 2),
                    )
                } else {
                    final(self).at() == i + 1 && t@ == single_token(inp[i], inp.subrange(i, i + 1))
                }
            }),
    {
        let start = self.cursor;
        let c1 = self.read().unwrap();
        match self.peek() {
            Some(c2) => {
                if c2.is_operator() {
                    self.skip();
                    let t = if c1 == '=' && c2 == '=' {
                        Token::Equals
                    } else if c1 == '|' && c2 == '|' {
                        Token::Or
                    } else if c1 == '&' && c2 == '&' {
                        Token::And
                    } else if c1 == '<' && c2 == '=' {
                        Token::LessOrEqual
                    } else if c1 == '>' && c2 == '=' {
                        Token::GreaterOrEqual
                    } else if c1 == '=' && c2 == '>' {
                        Token::Rocket
                    } else if c1 == '!' && c2 == '=' {
                        Token::NotEquals
                    } else if c1 == '-' && c2 == '>' {
                        Token::Arrow
                    } else {
                        Token::Illegal(self.span(start, self.cursor))
                    };
                    return t;
                }
            },
            None => {},
        }
        if c1 == '>' {
            Token::GreaterThan
        } else if c1 == '<' {
            Token::LessThan
        } else if c1 == '!' {
            Token::Not
        } else if c1 == '*' {
            Token::Asterisk
        } else if c1 == '|' {
            Token::Pipe
        } else if c1 == '?' {
            Token::QuestionMark
        } else if c1 == '-' {
            Token::Minus
        } else {
            Token::Illegal(self.span(start, self.cursor))
        }
    }

    /// Consumes a comment beginning at the cursor. Two slashes start a
    /// comment running up to, and excluding, the next newline; the newline is
    /// left for the following call. A lone slash is illegal.
    fn scan_comment(&mut self) -> (t: Token)
        requires
            old(self).wf(),
            old(self).at() < old(self).text().len(),
            old(self).text()[old(self).at()] == '/',
        ensures
            final(self).wf(),
            final(self).text() == old(self).text(),
            ({
                let inp = old(self).text();
                let i = old(self).at();
                if i + 1 < inp.len() && inp[i + 1] == '/' {
                    final(self).at() == comment_run_end(inp, i + 2) && t@
                        == SpecToken::Comment(inp.subrange(i, final(self).at()))
                } else {
                    final(self).at() == i + 1 && t@ == SpecToken::Illegal(
                        inp.subrange(i, i + 1),
                    )
                }
            }),
    {
        let start = self.cursor;
        self.skip();
        let second_is_slash = match self.peek() {
            Some(c) => c == '/',
            None => false,
        };
        if !second_is_slash {
            return Token::Illegal(self.span(start, self.cursor));
        }
        self.skip();
        loop
            invariant
                self.wf(),
                self.text() == old(self).text(),
                start as int + 2 <= self.at(),
                comment_run_end(self.text(), start as int + 2) == comment_run_end(
                    self.text(),
                    self.at(),
                ),
            ensures
                self.wf(),
                self.text() == old(self).text(),
                start as int + 2 <= self.at(),
                self.at() == comment_run_end(self.text(), start as int + 2),
            decreases self.text().len() - self.at(),
        {
            match self.peek() {
                Some(c) => {
                    if c != '\n' {
                        self.skip();
                    } else {
                        break ;
                    }
                },
                None => {
                    break ;
                },
            }
        }
        Token::Comment(self.span(start, self.cursor))
    }

    /// Consumes the maximal run of dots at the cursor and classifies it by
    /// its length; a run of four or more is illegal and carried whole.
    fn scan_dots(&mut self) -> (t: Token)
        requires
            old(self).wf(),
            old(self).at() < old(self).text().len(),
            old(self).text()[old(self).at()] == '.',
        ensures
            final(self).wf(),
            final(self).text() == old(self).text(),
            final(self).at() == dot_run_end(old(self).text(), old(self).at()),
            old(self).at() < final(self).at(),
            t@ == dots_token(old(self).text().subrange(old(self).at(), final(self).at())),
    {
        let start = self.cursor;
        loop
            invariant
                self.wf(),
                self.text() == old(self).text(),
                start as int <= self.at(),
                dot_run_end(self.text(), start as int) == dot_run_end(self.text(), self.at()),
            ensures
                self.wf(),
                self.text() == old(self).text(),
                start as int <= self.at(),
                self.at() == dot_run_end(self.text(), start as int),
            decreases self.text().len() - self.at(),
        {
            match self.peek() {
                Some(c) => {
                    if c == '.' {
                        self.skip();
                    } else {
                        break ;
                    }
                },
                None => {
                    break ;
                },
            }
        }
        let n = self.cursor - start;
        proof {
            lemma_dot_run(old(self).text(), old(self).at() + 1);
        }
        if n == 1 {
            Token::Dot
        } else if n == 2 {
            Token::DotDot
        } else if n == 3 {
            Token::DotDotDot
        } else {
            Token::Illegal(self.span(start, self.cursor))
        }
    }

    /// Advances past exactly one lexical unit (or one trivia run) and returns
    /// its classification. Once the input is exhausted every further call
    /// returns `EndOfInput` and consumes nothing.
    pub fn next(&mut self) -> (t: Token)
        requires
            old(self).wf(),
        ensures
            final(self).wf(),
            final(self).text() == old(self).text(),
            t@ == spec_scan(old(self).text(), old(self).at()),
            final(self).at() == old(self).at() + spec_scan_len(old(self).text(), old(self).at()),
            old(self).at() <= final(self).at(),
    {
        proof {
            lemma_scan_progress(old(self).text(), old(self).at());
        }
        if let Some(s) = self.scan_whitespace() {
            return Token::Whitespace(s);
        }
        match self.peek() {
            Some(c) => {
                if c.is_leading_identifier() {
                    self.scan_identifier()
                } else if c.is_operator() {
                    self.scan_operator()
                } else if c == '/' {
                    self.scan_comment()
                } else if c == '.' {
                    self.scan_dots()
                } else if c == '{' {
                    self.skip();
                    Token::LeftBrace
                } else if c == '}' {
                    self.skip();
                    Token::RightBrace
                } else {
                    let start = self.cursor;
                    self.skip();
                    Token::Illegal(self.span(start, self.cursor))
                }
            },
            None => Token::EndOfInput,
        }
    }
}

} // verus!
