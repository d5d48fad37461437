//! Properties of the tokenizer, stated and proved over the mathematical
//! model that [`crate::scanner::Scanner::next`] is specified against.

use vstd::prelude::*;

use crate::chars::{ident_start, operator_char, space};
use crate::model::{
    dot_run_end, keyword_token, lemma_dot_run, lemma_scan_progress, spec_scan, spec_scan_len,
};
use crate::token::{token_text, SpecToken};

verus! {

/// Losslessness, one step: the text of the token scanned at `i` is exactly
/// the span of the input it consumed.
pub proof fn lemma_scan_text(inp: Seq<char>, i: int)
    requires
        0 <= i <= inp.len(),
    ensures
        token_text(spec_scan(inp, i)) == inp.subrange(i, i + spec_scan_len(inp, i)),
{
    lemma_scan_progress(inp, i);
    if i == inp.len() {
        assert(token_text(spec_scan(inp, i)) =~= inp.subrange(i, i));
    } else if space(inp[i]) {
    } else if ident_start(inp[i]) {
    } else if operator_char(inp[i]) {
        if i + 1 < inp.len() && operator_char(inp[i + 1]) {
            let sub = inp.subrange(i, i + 2);
            assert(sub.len() == 2 && sub[0] == inp[i] && sub[1] == inp[i + 1]);
            assert(token_text(spec_scan(inp, i)) =~= sub);
        } else {
            let sub = inp.subrange(i, i + 1);
            assert(sub.len() == 1 && sub[0] == inp[i]);
            assert(token_text(spec_scan(inp, i)) =~= sub);
        }
    } else if inp[i] == '/' {
    } else if inp[i] == '.' {
        lemma_dot_run(inp, i);
        let sub = inp.subrange(i, dot_run_end(inp, i));
        assert(forall|k: int| 0 <= k < sub.len() ==> #[trigger] sub[k] == inp[i + k]);
        assert(token_text(spec_scan(inp, i)) =~= sub);
    } else {
        let sub = inp.subrange(i, i + 1);
        assert(sub.len() == 1 && sub[0] == inp[i]);
        assert(token_text(spec_scan(inp, i)) =~= sub);
    }
}

/// Position advance: a scan moves the position counter forward by exactly
/// the character length of the token's span, trivia included, and never
/// moves it backwards.
pub proof fn lemma_position_advance(inp: Seq<char>, i: int)
    requires
        0 <= i <= inp.len(),
    ensures
        spec_scan_len(inp, i) == token_text(spec_scan(inp, i)).len(),
        spec_scan_len(inp, i) >= 0,
{
    lemma_scan_progress(inp, i);
    lemma_scan_text(inp, i);
}

/// The whole token stream of an input, scanned from position `i` on.
pub open spec fn spec_tokens(inp: Seq<char>, i: int) -> Seq<SpecToken>
    decreases inp.len() - i when 0 <= i <= inp.len() via spec_tokens_decreases
{
    if i == inp.len() {
        seq![]
    } else {
        seq![spec_scan(inp, i)] + spec_tokens(inp, i + spec_scan_len(inp, i))
    }
}

#[via_fn]
proof fn spec_tokens_decreases(inp: Seq<char>, i: int) {
    lemma_scan_progress(inp, i);
}

/// Concatenation of the texts of a token stream.
pub open spec fn tokens_text(ts: Seq<SpecToken>) -> Seq<char>
    decreases ts.len(),
{
    if ts.len() == 0 {
        seq![]
    } else {
        token_text(ts[0]) + tokens_text(ts.drop_first())
    }
}

proof fn lemma_tokens_text_from(inp: Seq<char>, i: int)
    requires
        0 <= i <= inp.len(),
    ensures
        tokens_text(spec_tokens(inp, i)) == inp.subrange(i, inp.len() as int),
    decreases inp.len() - i,
{
    if i == inp.len() {
        assert(tokens_text(spec_tokens(inp, i)) =~= inp.subrange(i, inp.len() as int));
    } else {
        lemma_scan_progress(inp, i);
        lemma_scan_text(inp, i);
        let j = i + spec_scan_len(inp, i);
        lemma_tokens_text_from(inp, j);
        let ts = spec_tokens(inp, i);
        assert(ts[0] == spec_scan(inp, i));
        assert(ts.drop_first() =~= spec_tokens(inp, j));
        assert(inp.subrange(i, j) + inp.subrange(j, inp.len() as int) =~= inp.subrange(
            i,
            inp.len() as int,
        ));
    }
}

/// Losslessness: concatenating the text of every token of the stream, trivia
/// included, reproduces the input exactly.
pub proof fn lemma_tokenize_lossless(inp: Seq<char>)
    ensures
        tokens_text(spec_tokens(inp, 0)) == inp,
{
    lemma_tokens_text_from(inp, 0);
    assert(inp.subrange(0, inp.len() as int) =~= inp);
}

/// Keyword exactness: exactly the six reserved words are promoted to their
/// dedicated variants; any other name scans to an identifier carrying its
/// own text.
pub proof fn lemma_keyword_exactness(name: Seq<char>)
    ensures
        keyword_token(seq!['m', 'a', 't', 'c', 'h']) == SpecToken::Match,
        keyword_token(seq!['i', 'n']) == SpecToken::In,
        keyword_token(seq!['a', 's', 'c']) == SpecToken::Asc,
        keyword_token(seq!['d', 'e', 's', 'c']) == SpecToken::Desc,
        keyword_token(seq!['t', 'r', 'u', 'e']) == SpecToken::True,
        keyword_token(seq!['f', 'a', 'l', 's', 'e']) == SpecToken::False,
        name != seq!['m', 'a', 't', 'c', 'h'] && name != seq!['i', 'n'] && name != seq!['a', 's',
            'c'] && name != seq!['d', 'e', 's', 'c'] && name != seq!['t', 'r', 'u', 'e'] && name
            != seq!['f', 'a', 'l', 's', 'e'] ==> keyword_token(name) == SpecToken::Identifier(
            name,
        ),
{
}

} // verus!
