//! The token source of the parser: trivia is skipped, and whether a line
//! break was skipped is kept beside the token.

use vstd::prelude::*;
use crate::tokenizer::{Hint, TokenRange, Tokenizer};
use crate::tokenizer::slice::SliceTokenizer;
use crate::tokenizer::tokens::{Token, TokenModel};
use crate::tokenizer::lex::{lex, lex_slash, line_comment_end, block_comment_close};
use crate::tokenizer::scan::{ws_end, cut_ok, advance, lemma_scan_to, line_end_at};

verus! {

/// A token with whether a line break came before it.
#[derive(Debug, Clone, PartialEq, Eq)]
pub struct LookaheadResult {
    pub line: bool,
    pub token: Token,
}

/// Tokens that carry no meaning for the grammar.
pub open spec fn is_trivia(m: TokenModel) -> bool {
    m is Whitespace || m is LineTerminator || m is Comment
}

/// A line comment, a block comment and a line terminator each take at least
/// one byte.
pub proof fn lemma_trivia_progress(b: Seq<u8>, hint: Hint)
    ensures
        lex(b, hint) matches Some((m, n)) ==> (is_trivia(m) ==> n >= 1 && !(m is Whitespace)),
{
    if b.len() > 1 && b[0] == 0x2F && b[1] == 0x2F {
        lemma_scan_to(b.len() as int, 2, |k: int| line_end_at(b, k));
    }
    if b.len() > 1 && b[0] == 0x2F && b[1] == 0x2A {
        lemma_scan_to(b.len() as int, 2, |k: int| b[k] == 0x2F && k >= 3 && b[k - 1] == 0x2A);
    }
}


/// The tokenizer gives the end of input only where no byte is left.
pub proof fn lemma_lex_eof(b: Seq<u8>, hint: Hint)
    ensures
        lex(b, hint) matches Some((m, _)) ==> (m is EOF ==> b.len() == 0),
{
}

/// The grammar could not go on: an unexpected token, or input the tokenizer
/// cannot read.
#[derive(Debug, Clone, Copy, PartialEq, Eq, Structural)]
pub struct ParseError {}

/// What one step of the tokenizer at offset `off`, line `line` and column
/// `col` gives: the token, where it starts after the whitespace, and the
/// offset, line and column after it.
pub open spec fn step_at(src: Seq<u8>, off: int, line: int, col: int, hint: Hint) -> Option<
    (TokenModel, int, int, int, int),
> {
    let s = ws_end(src, off);
    if !cut_ok(src, s) {
        None
    } else {
        match lex(src.subrange(s, src.len() as int), hint) {
            None => None,
            Some((m, n)) => {
                let (l, c) = advance(src.subrange(s, s + n), 0, line, col + (s - off), false);
                Some((m, s, s + n, l, c))
            },
        }
    }
}

/// The first token from `off` on that is not trivia, with whether a line
/// break came before it (a line terminator, or a comment that spans lines),
/// and the offset, line and column after it; `None` where the tokenizer
/// cannot read, or reads a token of no bytes other than the end of input.
#[verifier::opaque]
pub open spec fn read_from(src: Seq<u8>, off: int, line: int, col: int, hint: Hint, seen: bool) -> Option<
    (bool, TokenModel, int, int, int),
>
    decreases src.len() - off,
{
    if off < 0 || off > src.len() {
        None
    } else {
        match step_at(src, off, line, col, hint) {
            None => None,
            Some((m, s, o, l, c)) => if is_trivia(m) {
                if off < o <= src.len() {
                    read_from(
                        src,
                        o,
                        l,
                        c,
                        hint,
                        seen || m is LineTerminator || (m is Comment && l != line),
                    )
                } else {
                    None
                }
            } else if o < s || (o == s && !(m is EOF)) || o > src.len() {
                None
            } else {
                Some((seen, m, o, l, c))
            },
        }
    }
}

/// The first token from `off` on that is not trivia, with whether a line
/// break came before it (a line terminator, or a comment that spans lines),
/// where it starts, and the offset, line and column after it; `None` where
/// the tokenizer cannot read. A token of no bytes is given as it is.
#[verifier::opaque]
pub open spec fn next_meaningful(src: Seq<u8>, off: int, line: int, col: int, hint: Hint, seen: bool) -> Option<
    (bool, TokenModel, int, int, int, int),
>
    decreases src.len() - off,
{
    if off < 0 || off > src.len() {
        None
    } else {
        match step_at(src, off, line, col, hint) {
            None => None,
            Some((m, s, o, l, c)) => if is_trivia(m) {
                if off < o <= src.len() {
                    next_meaningful(
                        src,
                        o,
                        l,
                        c,
                        hint,
                        seen || m is LineTerminator || (m is Comment && l != line),
                    )
                } else {
                    None
                }
            } else if o < s || o > src.len() {
                None
            } else {
                Some((seen, m, s, o, l, c))
            },
        }
    }
}

/// What the parser reads ahead is the next meaningful token, but for one of
/// no bytes other than the end of input, which the parser does not take.
pub proof fn lemma_read_from_meaningful(src: Seq<u8>, off: int, line: int, col: int, hint: Hint, seen: bool)
    ensures
        read_from(src, off, line, col, hint, seen) == match next_meaningful(src, off, line, col, hint, seen) {
            None => None,
            Some((ln, m, s, o, l, c)) => if o == s && !(m is EOF) {
                None
            } else {
                Some((ln, m, o, l, c))
            },
        },
    decreases src.len() - off,
{
    reveal(read_from);
    reveal(next_meaningful);
    if 0 <= off <= src.len() {
        if let Some((m, s, o, l, c)) = step_at(src, off, line, col, hint) {
            if is_trivia(m) && off < o <= src.len() {
                lemma_read_from_meaningful(
                    src,
                    o,
                    l,
                    c,
                    hint,
                    seen || m is LineTerminator || (m is Comment && l != line),
                );
            }
        }
    }
}

/// Reads the next token that is not trivia, and where it starts; the hint
/// stops expecting an expression once it is read.
pub(crate) fn read_token_at(tok: &mut SliceTokenizer, hint: &mut Hint) -> (r: Result<(LookaheadResult, usize), ParseError>)
    requires
        old(tok).wf(),
    ensures
        final(tok).wf(),
        final(tok).source() == old(tok).source(),
        r is Err ==> *final(hint) == *old(hint),
        match next_meaningful(
            old(tok).source(),
            old(tok).pos().offset as int,
            old(tok).pos().line as int,
            old(tok).pos().column as int,
            *old(hint),
            false,
        ) {
            None => r is Err,
            Some((line, m, s, o, l, c)) => {
                &&& r is Ok
                &&& r->Ok_0.0.line == line
                &&& r->Ok_0.0.token@ == m
                &&& r->Ok_0.1 == s
                &&& final(tok).pos().offset == o
                &&& final(tok).pos().line == l
                &&& final(tok).pos().column == c
                &&& *final(hint) == old(hint).set_expression(false)
            },
        },
{
    let ghost src = tok.source();
    let ghost start = tok.pos();
    proof {
        reveal(next_meaningful);
    }
    let mut line = false;
    loop
        invariant
            tok.wf(),
            tok.source() == src,
            src == old(tok).source(),
            start == old(tok).pos(),
            *hint == *old(hint),
            next_meaningful(src, tok.pos().offset as int, tok.pos().line as int, tok.pos().column as int, *hint, line)
                == next_meaningful(src, start.offset as int, start.line as int, start.column as int, *hint, false),
        decreases src.len() - tok.pos().offset,
    {
        proof {
            reveal(next_meaningful);
        }
        if !tok.can_read_next(hint) {
            return Err(ParseError {});
        }
        let ghost before = tok.pos();
        let mut token = Token::eof();
        let mut range = TokenRange::default();
        proof {
            tok.lemma_wf();
            let b = src;
            lemma_scan_to(
                b.len() as int,
                before.offset as int,
                |k: int| !(crate::tokenizer::scan::is_ws_byte(b[k]) || crate::tokenizer::scan::zwnbsp_at(b, k) || crate::tokenizer::scan::nbsp_at(b, k)),
            );
            lemma_trivia_progress(src.subrange(tok.next_start(), src.len() as int), *hint);
        }
        tok.next_token(hint, &mut token, &mut range);
        proof {
            tok.lemma_wf();
        }
        match token {
            Token::Whitespace(_) => {},
            Token::LineTerminator(_) => {
                line = true;
            },
            Token::Comment(_) => {
                if range.start.line != range.end.line {
                    line = true;
                }
            },
            _ => {
                if range.end.offset < range.start.offset {
                    return Err(ParseError {});
                }
                *hint = hint.expression(false);
                return Ok((LookaheadResult { line, token }, range.start.offset));
            },
        }
    }
}

/// Reads the next token that is not trivia, with whether a line break came
/// before it; the hint stops expecting an expression once it is read.
pub fn read_token(tok: &mut SliceTokenizer, hint: &mut Hint) -> (r: Result<LookaheadResult, ParseError>)
    requires
        old(tok).wf(),
    ensures
        final(tok).wf(),
        final(tok).source() == old(tok).source(),
        r is Err ==> *final(hint) == *old(hint),
        match next_meaningful(
            old(tok).source(),
            old(tok).pos().offset as int,
            old(tok).pos().line as int,
            old(tok).pos().column as int,
            *old(hint),
            false,
        ) {
            None => r is Err,
            Some((line, m, _, o, l, c)) => {
                &&& r is Ok
                &&& r->Ok_0.line == line
                &&& r->Ok_0.token@ == m
                &&& final(tok).pos().offset == o
                &&& final(tok).pos().line == l
                &&& final(tok).pos().column == c
                &&& *final(hint) == old(hint).set_expression(false)
            },
        },
{
    let (t, _) = read_token_at(tok, hint)?;
    Ok(t)
}

} // verus!
