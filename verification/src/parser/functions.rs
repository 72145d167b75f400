//! Functions: declarations, expressions, parameters and bodies.

use vstd::prelude::*;
use crate::tokenizer::tokens::{PunctuatorToken, Token, TokenModel};
use crate::parser::{Parser, Flag, bytes_eq, kept, remaining, lemma_parser_remaining, filled, starts_with_word, starts_with_punc, second_read, last_taken};
use crate::parser::tokens::ParseError;
use crate::parser::{at_end, lemma_at_end};
use crate::parser::grammar::{next_model, is_word, nothing_taken, lemma_second_read_ahead, lemma_filled_ahead};

verus! {


broadcast use lemma_parser_remaining, lemma_at_end;

impl<'code> Parser<'code> {
    /// Whether the token after the next one is `function` with no line
    /// break before it: then the next one may be `async`.
    fn async_function_ahead(&mut self) -> (r: Result<bool, ParseError>)
        requires
            old(self).wf(),
        ensures
            final(self).wf(),
            r is Ok ==> kept(old(self).state(), final(self).state()),
            r is Ok ==> nothing_taken(old(self).state(), final(self).state()),
            r is Ok ==> filled(final(self).state()) == Some(final(self).state()),
            at_end(old(self).state()) ==> r == Ok::<bool, ParseError>(false) && at_end(final(self).state())
                && final(self).state().taken == old(self).state().taken,
    {
        proof {
            lemma_filled_ahead(old(self).state());
            if let Some(t) = filled(old(self).state()) {
                lemma_second_read_ahead(t);
            }
        }
        match self.ident_lookahead()? {
            Some(ahead) => match ahead.token {
                Token::IdentifierName(n) => Ok(!ahead.line && bytes_eq(n.name.as_str().as_bytes(), "function".as_bytes())),
                _ => Ok(false),
            },
            None => Ok(false),
        }
    }

    /// `function name(params) { body }`, `function* name ...` or `async
    /// function name ...`; the name may be left out where `Default` is set.
    pub fn parse_function_declaration(&mut self) -> (r: Result<bool, ParseError>)
        requires
            old(self).wf(),
        ensures
            final(self).wf(),
            r is Ok ==> kept(old(self).state(), final(self).state()),
            r == Ok::<bool, ParseError>(true) ==> remaining(final(self).state()) < remaining(old(self).state()),
            at_end(old(self).state()) ==> r == Ok::<bool, ParseError>(false) && at_end(final(self).state())
                && final(self).state().taken == old(self).state().taken,
        decreases remaining(old(self).state()), 0nat,
    {
        proof {
            lemma_at_end(old(self).state());
        }
        let is_async = self.async_function_ahead()?;
        let generator = if is_async {
            if self.keyword("async")?.is_none() {
                return Ok(false);
            }
            if self.keyword("function")?.is_none() {
                return Err(ParseError {});
            }
            false
        } else {
            if self.keyword("function")?.is_none() {
                return Ok(false);
            }
            self.punc(PunctuatorToken::Star)?.is_some()
        };
        if self.flags.allow_default {
            self.binding_identifier()?;
        } else if self.binding_identifier()?.is_none() {
            return Err(ParseError {});
        }
        if !self.parse_function_rest(is_async, generator)? {
            return Err(ParseError {});
        }
        Ok(true)
    }

    /// `function (params) { body }`, with an optional name, `function*` or
    /// `async function`.
    pub fn parse_function_expression(&mut self) -> (r: Result<bool, ParseError>)
        requires
            old(self).wf(),
        ensures
            final(self).wf(),
            r is Ok ==> kept(old(self).state(), final(self).state()),
            r == Ok::<bool, ParseError>(true) ==> remaining(final(self).state()) < remaining(old(self).state()),
            r == Ok::<bool, ParseError>(false) ==> nothing_taken(old(self).state(), final(self).state()),
            at_end(old(self).state()) ==> r == Ok::<bool, ParseError>(false) && at_end(final(self).state())
                && final(self).state().taken == old(self).state().taken,
        decreases remaining(old(self).state()), 0nat,
    {
        proof {
            lemma_at_end(old(self).state());
        }
        let is_async = self.async_function_ahead()?;
        let generator = if is_async {
            if self.keyword("async")?.is_none() {
                return Ok(false);
            }
            if self.keyword("function")?.is_none() {
                return Err(ParseError {});
            }
            false
        } else {
            if self.keyword("function")?.is_none() {
                return Ok(false);
            }
            self.punc(PunctuatorToken::Star)?.is_some()
        };
        self.binding_identifier()?;
        if !self.parse_function_rest(is_async, generator)? {
            return Err(ParseError {});
        }
        Ok(true)
    }

    /// The parameters and the body of a function. In an async function
    /// `yield` is no keyword and the body may `await`; elsewhere `await` is
    /// no keyword, and a generator may `yield`. `Ok(false)` where no
    /// parameter list starts.
    pub fn parse_function_rest(&mut self, is_async: bool, generator: bool) -> (r: Result<bool, ParseError>)
        requires
            old(self).wf(),
        ensures
            final(self).wf(),
            r is Ok ==> kept(old(self).state(), final(self).state()),
            r == Ok::<bool, ParseError>(true) ==> remaining(final(self).state()) < remaining(old(self).state()),
        decreases remaining(old(self).state()), 1nat,
    {
        if is_async {
            self.without(Flag::Yield);
            if !self.parse_function_params()? {
                self.pop_flags();
                proof {
                    assert(self.state().stack =~= old(self).state().stack);
                }
                return Ok(false);
            }
            self.with(Flag::Await);
        } else {
            self.without(Flag::Await);
            self.push_flags(Flag::Yield, generator);
            if !self.parse_function_params()? {
                self.pop_flags();
                self.pop_flags();
                proof {
                    assert(self.state().stack =~= old(self).state().stack);
                }
                return Ok(false);
            }
        }
        if !self.parse_function_body()? {
            return Err(ParseError {});
        }
        self.pop_flags();
        self.pop_flags();
        proof {
            assert(self.state().stack =~= old(self).state().stack);
        }
        Ok(true)
    }

    /// `(a, b = 1, {c}, ...rest)`: patterns or names with optional
    /// initializers, and an optional rest element last.
    pub fn parse_function_params(&mut self) -> (r: Result<bool, ParseError>)
        requires
            old(self).wf(),
        ensures
            final(self).wf(),
            r is Ok ==> kept(old(self).state(), final(self).state()),
            r == Ok::<bool, ParseError>(true) ==> remaining(final(self).state()) < remaining(old(self).state()),
            r == Ok::<bool, ParseError>(false) <==> (filled(old(self).state()) is Some && !starts_with_punc(old(self).state(), PunctuatorToken::ParenOpen)),
            r == Ok::<bool, ParseError>(false) ==> filled(old(self).state()) == Some(final(self).state()),
            r == Ok::<bool, ParseError>(true) ==> last_taken(final(self).state(), TokenModel::Punctuator(PunctuatorToken::ParenClose)),
        decreases remaining(old(self).state()), 0nat,
    {
        if self.punc(PunctuatorToken::ParenOpen)?.is_none() {
            return Ok(false);
        }
        loop
            invariant
                starts_with_punc(old(self).state(), PunctuatorToken::ParenOpen),
                self.wf(),
                kept(old(self).state(), self.state()),
                remaining(self.state()) < remaining(old(self).state()),
            decreases remaining(self.state()),
        {
            if self.parse_binding_rest_element()? {
                break;
            }
            if !self.parse_binding_pattern()? {
                if self.binding_identifier()?.is_none() {
                    break;
                }
            }
            self.parse_initializer()?;
            if self.punc(PunctuatorToken::Comma)?.is_none() {
                break;
            }
        }
        if self.punc(PunctuatorToken::ParenClose)?.is_none() {
            return Err(ParseError {});
        }
        Ok(true)
    }

    /// The body of a function: a block.
    pub fn parse_function_body(&mut self) -> (r: Result<bool, ParseError>)
        requires
            old(self).wf(),
        ensures
            final(self).wf(),
            r is Ok ==> kept(old(self).state(), final(self).state()),
            r == Ok::<bool, ParseError>(true) ==> remaining(final(self).state()) < remaining(old(self).state()),
        decreases remaining(old(self).state()), 11nat,
    {
        self.parse_block_statement()
    }
}

} // verus!
