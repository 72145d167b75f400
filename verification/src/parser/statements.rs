//! The statements that take more than a keyword and a fixed shape:
//! `with`, labels, `switch` and `for`.

use vstd::prelude::*;
use vstd::string::StringSliceAdditionalSpecFns;
use crate::tokenizer::tokens::{PunctuatorToken, Token, TokenModel};
use crate::parser::{Parser, Flag, bytes_eq, kept, remaining, lemma_parser_remaining, filled, starts_with_word, starts_with_punc, last_taken};
use crate::parser::tokens::ParseError;
use crate::parser::{at_end, lemma_at_end};

verus! {


broadcast use lemma_parser_remaining, lemma_at_end;

impl<'code> Parser<'code> {
    /// `with (object) statement`
    pub fn parse_with_statement(&mut self) -> (r: Result<bool, ParseError>)
        requires
            old(self).wf(),
        ensures
            final(self).wf(),
            r is Ok ==> kept(old(self).state(), final(self).state()),
            r == Ok::<bool, ParseError>(true) ==> remaining(final(self).state()) < remaining(old(self).state()),
            r == Ok::<bool, ParseError>(false) <==> (filled(old(self).state()) is Some && !starts_with_word(old(self).state(), "with".spec_bytes())),
            r == Ok::<bool, ParseError>(false) ==> filled(old(self).state()) == Some(final(self).state()),
            at_end(old(self).state()) ==> r == Ok::<bool, ParseError>(false) && at_end(final(self).state())
                && final(self).state().taken == old(self).state().taken,
        decreases remaining(old(self).state()), 10nat,
    {
        proof {
            lemma_at_end(old(self).state());
        }
        if self.keyword("with")?.is_none() {
            return Ok(false);
        }
        if self.punc(PunctuatorToken::ParenOpen)?.is_none() {
            return Err(ParseError {});
        }
        self.expect_expression();
        self.with(Flag::In);
        if !self.parse_expression()? {
            return Err(ParseError {});
        }
        self.pop_flags();
        proof {
            assert(self.state().stack =~= old(self).state().stack);
        }
        if self.punc(PunctuatorToken::ParenClose)?.is_none() {
            return Err(ParseError {});
        }
        if !self.parse_statement()? {
            return Err(ParseError {});
        }
        Ok(true)
    }

    /// `label: statement`, where a colon follows the next token.
    pub fn parse_labelled_statement(&mut self) -> (r: Result<bool, ParseError>)
        requires
            old(self).wf(),
        ensures
            final(self).wf(),
            r is Ok ==> kept(old(self).state(), final(self).state()),
            r == Ok::<bool, ParseError>(true) ==> remaining(final(self).state()) < remaining(old(self).state()),
            at_end(old(self).state()) ==> r == Ok::<bool, ParseError>(false) && at_end(final(self).state())
                && final(self).state().taken == old(self).state().taken,
        decreases remaining(old(self).state()), 10nat,
    {
        proof {
            lemma_at_end(old(self).state());
        }
        let is_label = match self.ident_lookahead()? {
            Some(ahead) => match ahead.token {
                Token::Punctuator(PunctuatorToken::Colon) => true,
                _ => false,
            },
            None => false,
        };
        if !is_label {
            return Ok(false);
        }
        if self.identifier()?.is_none() {
            return Err(ParseError {});
        }
        if self.punc(PunctuatorToken::Colon)?.is_none() {
            return Err(ParseError {});
        }
        if !self.parse_statement()? {
            return Err(ParseError {});
        }
        Ok(true)
    }

    /// `switch (value) { case x: ... default: ... }` with at most one default clause.
    pub fn parse_switch_statement(&mut self) -> (r: Result<bool, ParseError>)
        requires
            old(self).wf(),
        ensures
            final(self).wf(),
            r is Ok ==> kept(old(self).state(), final(self).state()),
            r == Ok::<bool, ParseError>(true) ==> remaining(final(self).state()) < remaining(old(self).state()),
            r == Ok::<bool, ParseError>(false) <==> (filled(old(self).state()) is Some && !starts_with_word(old(self).state(), "switch".spec_bytes())),
            r == Ok::<bool, ParseError>(false) ==> filled(old(self).state()) == Some(final(self).state()),
            r == Ok::<bool, ParseError>(true) ==> last_taken(final(self).state(), TokenModel::Punctuator(PunctuatorToken::CurlyClose)),
            at_end(old(self).state()) ==> r == Ok::<bool, ParseError>(false) && at_end(final(self).state())
                && final(self).state().taken == old(self).state().taken,
        decreases remaining(old(self).state()), 9nat,
    {
        proof {
            lemma_at_end(old(self).state());
        }
        if self.keyword("switch")?.is_none() {
            return Ok(false);
        }
        if self.punc(PunctuatorToken::ParenOpen)?.is_none() {
            return Err(ParseError {});
        }
        self.expect_expression();
        self.with(Flag::In);
        if !self.parse_expression()? {
            return Err(ParseError {});
        }
        self.pop_flags();
        proof {
            assert(self.state().stack =~= old(self).state().stack);
        }
        if self.punc(PunctuatorToken::ParenClose)?.is_none() {
            return Err(ParseError {});
        }
        self.without(Flag::Template);
        if self.punc(PunctuatorToken::CurlyOpen)?.is_none() {
            return Err(ParseError {});
        }
        let mut has_default = false;
        loop
            invariant
                !at_end(old(self).state()),
                starts_with_word(old(self).state(), "switch".spec_bytes()),
                self.wf(),
                self.state().src == old(self).state().src,
                self.state().flags == old(self).state().flags.with_flag(Flag::Template, false),
                self.state().stack == old(self).state().stack.push(old(self).state().flags),
                remaining(self.state()) < remaining(old(self).state()),
            decreases remaining(self.state()),
        {
            if self.parse_default_clause()? {
                if has_default {
                    return Err(ParseError {});
                }
                has_default = true;
            } else if !self.parse_case_clause()? {
                break;
            }
        }
        if self.punc(PunctuatorToken::CurlyClose)?.is_none() {
            return Err(ParseError {});
        }
        self.pop_flags();
        proof {
            assert(self.state().stack =~= old(self).state().stack);
        }
        Ok(true)
    }

    /// `default:` and the statements that follow.
    fn parse_default_clause(&mut self) -> (r: Result<bool, ParseError>)
        requires
            old(self).wf(),
        ensures
            final(self).wf(),
            r is Ok ==> kept(old(self).state(), final(self).state()),
            r == Ok::<bool, ParseError>(true) ==> remaining(final(self).state()) < remaining(old(self).state()),
            r == Ok::<bool, ParseError>(false) <==> (filled(old(self).state()) is Some && !starts_with_word(old(self).state(), "default".spec_bytes())),
            r == Ok::<bool, ParseError>(false) ==> filled(old(self).state()) == Some(final(self).state()),
        decreases remaining(old(self).state()), 0nat,
    {
        if self.keyword("default")?.is_none() {
            return Ok(false);
        }
        if self.punc(PunctuatorToken::Colon)?.is_none() {
            return Err(ParseError {});
        }
        loop
            invariant
                starts_with_word(old(self).state(), "default".spec_bytes()),
                self.wf(),
                kept(old(self).state(), self.state()),
                remaining(self.state()) < remaining(old(self).state()),
            decreases remaining(self.state()),
        {
            if !self.parse_statement_list_item()? {
                break;
            }
        }
        Ok(true)
    }

    /// `case value:` and the statements that follow.
    fn parse_case_clause(&mut self) -> (r: Result<bool, ParseError>)
        requires
            old(self).wf(),
        ensures
            final(self).wf(),
            r is Ok ==> kept(old(self).state(), final(self).state()),
            r == Ok::<bool, ParseError>(true) ==> remaining(final(self).state()) < remaining(old(self).state()),
            r == Ok::<bool, ParseError>(false) <==> (filled(old(self).state()) is Some && !starts_with_word(old(self).state(), "case".spec_bytes())),
            r == Ok::<bool, ParseError>(false) ==> filled(old(self).state()) == Some(final(self).state()),
        decreases remaining(old(self).state()), 0nat,
    {
        if self.keyword("case")?.is_none() {
            return Ok(false);
        }
        self.expect_expression();
        self.with(Flag::In);
        if !self.parse_expression()? {
            return Err(ParseError {});
        }
        self.pop_flags();
        proof {
            assert(self.state().stack =~= old(self).state().stack);
        }
        if self.punc(PunctuatorToken::Colon)?.is_none() {
            return Err(ParseError {});
        }
        loop
            invariant
                starts_with_word(old(self).state(), "case".spec_bytes()),
                self.wf(),
                kept(old(self).state(), self.state()),
                remaining(self.state()) < remaining(old(self).state()),
            decreases remaining(self.state()),
        {
            if !self.parse_statement_list_item()? {
                break;
            }
        }
        Ok(true)
    }

    /// The declarators of a `for` head after `var`, `let` or `const`: a
    /// pattern or a name, each with an initializer read where `in` is not
    /// allowed; more follow only where the first is a name or has an
    /// initializer. The result says whether a pattern came first, whether
    /// the first has an initializer, and whether more than one came.
    fn parse_for_declarators(&mut self, lexical: bool) -> (r: Result<(bool, bool, bool), ParseError>)
        requires
            old(self).wf(),
        ensures
            final(self).wf(),
            r is Ok ==> kept(old(self).state(), final(self).state()),
        decreases remaining(old(self).state()), 9nat,
    {
        let mut pattern = false;
        let mut initialized = false;
        if self.parse_binding_pattern()? {
            pattern = true;
        } else if self.binding_identifier()?.is_none() {
            return Err(ParseError {});
        }
        self.without(Flag::In);
        if self.parse_initializer()? {
            initialized = true;
        }
        self.pop_flags();
        proof {
            assert(self.state().stack =~= old(self).state().stack);
        }
        let mut multiple = false;
        if !pattern || initialized {
            loop
                invariant
                    self.wf(),
                    kept(old(self).state(), self.state()),
                    remaining(self.state()) < remaining(old(self).state()),
                decreases remaining(self.state()),
            {
                if self.punc(PunctuatorToken::Comma)?.is_none() {
                    break;
                }
                multiple = true;
                self.without(Flag::In);
                if !self.parse_declarator(lexical)? {
                    return Err(ParseError {});
                }
                self.pop_flags();
                proof {
                    assert(self.state().stack =~= old(self).state().stack);
                }
            }
        }
        Ok((pattern, initialized, multiple))
    }

    /// `for (head)`: `init; test; update`, or a declaration or an expression
    /// followed by `in` or `of` and a value. Only the head is read: the
    /// statement of the loop is the next item.
    #[verifier::rlimit(100)]
    #[verifier::spinoff_prover]
    pub fn parse_for_statement(&mut self) -> (r: Result<bool, ParseError>)
        requires
            old(self).wf(),
        ensures
            final(self).wf(),
            r is Ok ==> kept(old(self).state(), final(self).state()),
            r == Ok::<bool, ParseError>(true) ==> remaining(final(self).state()) < remaining(old(self).state()),
            r == Ok::<bool, ParseError>(false) <==> (filled(old(self).state()) is Some && !starts_with_word(old(self).state(), "for".spec_bytes())),
            r == Ok::<bool, ParseError>(false) ==> filled(old(self).state()) == Some(final(self).state()),
            r == Ok::<bool, ParseError>(true) ==> last_taken(final(self).state(), TokenModel::Punctuator(PunctuatorToken::ParenClose)),
            at_end(old(self).state()) ==> r == Ok::<bool, ParseError>(false) && at_end(final(self).state())
                && final(self).state().taken == old(self).state().taken,
        decreases remaining(old(self).state()), 9nat,
    {
        proof {
            lemma_at_end(old(self).state());
        }
        if self.keyword("for")?.is_none() {
            return Ok(false);
        }
        if self.punc(PunctuatorToken::ParenOpen)?.is_none() {
            return Err(ParseError {});
        }
        self.expect_expression();
        let (maybe_for, maybe_x) = if self.keyword("var")?.is_some() {
            let (pattern, initialized, multiple) = self.parse_for_declarators(false)?;
            (!pattern || initialized, !multiple && !initialized)
        } else if self.keyword("const")?.is_some() {
            let (_pattern, initialized, multiple) = self.parse_for_declarators(true)?;
            (initialized, !multiple && !initialized)
        } else {
            let maybe_decl = match self.ident_lookahead()? {
                Some(ahead) => match ahead.token {
                    Token::IdentifierName(n) => !(bytes_eq(n.name.as_str().as_bytes(), "in".as_bytes()) || bytes_eq(
                        n.name.as_str().as_bytes(),
                        "of".as_bytes(),
                    )),
                    Token::Punctuator(PunctuatorToken::SquareOpen) => true,
                    Token::Punctuator(PunctuatorToken::CurlyOpen) => true,
                    _ => false,
                },
                None => false,
            };
            if maybe_decl && self.keyword("let")?.is_some() {
                let (pattern, initialized, multiple) = self.parse_for_declarators(true)?;
                (!pattern || initialized, !multiple && !initialized)
            } else {
                self.without(Flag::In);
                self.parse_expression()?;
                self.pop_flags();
                proof {
                    assert(self.state().stack =~= old(self).state().stack);
                }
                (true, true)
            }
        };
        let mut found = false;
        if maybe_for && self.punc(PunctuatorToken::Semicolon)?.is_some() {
            self.expect_expression();
            self.parse_expression()?;
            if self.punc(PunctuatorToken::Semicolon)?.is_none() {
                return Err(ParseError {});
            }
            self.expect_expression();
            self.parse_expression()?;
            found = true;
        }
        if !found {
            if !maybe_x {
                return Err(ParseError {});
            }
            if self.keyword("in")?.is_none() && self.keyword("of")?.is_none() {
                return Err(ParseError {});
            }
            self.expect_expression();
            self.with(Flag::In);
            if !self.parse_assignment_expression()? {
                return Err(ParseError {});
            }
            self.pop_flags();
            proof {
                assert(self.state().stack =~= old(self).state().stack);
            }
        }
        if self.punc(PunctuatorToken::ParenClose)?.is_none() {
            return Err(ParseError {});
        }
        Ok(true)
    }
}

} // verus!
