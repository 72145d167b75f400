//! Binding patterns and property names.

use vstd::prelude::*;
use crate::tokenizer::tokens::PunctuatorToken;
use crate::parser::{Parser, Flag, kept, remaining, lemma_parser_remaining, filled, starts_with_word, starts_with_punc};
use crate::parser::tokens::ParseError;

verus! {

broadcast use lemma_parser_remaining;

impl<'code> Parser<'code> {
    /// An object or an array binding pattern.
    pub fn parse_binding_pattern(&mut self) -> (r: Result<bool, ParseError>)
        requires
            old(self).wf(),
        ensures
            final(self).wf(),
            r is Ok ==> kept(old(self).state(), final(self).state()),
            r == Ok::<bool, ParseError>(true) ==> remaining(final(self).state()) < remaining(old(self).state()),
        decreases remaining(old(self).state()), 1nat,
    {
        if self.parse_object_binding_pattern()? {
            return Ok(true);
        }
        self.parse_array_binding_pattern()
    }

    /// `{ property, ... }`, read with templates not expected.
    pub fn parse_object_binding_pattern(&mut self) -> (r: Result<bool, ParseError>)
        requires
            old(self).wf(),
        ensures
            final(self).wf(),
            r is Ok ==> kept(old(self).state(), final(self).state()),
            r == Ok::<bool, ParseError>(true) ==> remaining(final(self).state()) < remaining(old(self).state()),
        decreases remaining(old(self).state()), 0nat,
    {
        self.without(Flag::Template);
        if self.punc(PunctuatorToken::CurlyOpen)?.is_none() {
            self.pop_flags();
            proof {
                assert(self.state().stack =~= old(self).state().stack);
            }
            return Ok(false);
        }
        loop
            invariant
                self.wf(),
                self.state().src == old(self).state().src,
                self.state().flags == old(self).state().flags.with_flag(Flag::Template, false),
                self.state().stack == old(self).state().stack.push(old(self).state().flags),
                remaining(self.state()) < remaining(old(self).state()),
            decreases remaining(self.state()),
        {
            if !self.parse_binding_property()? {
                break;
            }
            if self.punc(PunctuatorToken::Comma)?.is_none() {
                break;
            }
        }
        if self.punc(PunctuatorToken::CurlyClose)?.is_none() {
            return Err(ParseError {});
        }
        self.pop_flags();
        proof {
            assert(self.state().stack =~= old(self).state().stack);
        }
        Ok(true)
    }

    /// `name`, `name = value` or `name: element` in an object pattern.
    fn parse_binding_property(&mut self) -> (r: Result<bool, ParseError>)
        requires
            old(self).wf(),
        ensures
            final(self).wf(),
            r is Ok ==> kept(old(self).state(), final(self).state()),
            r == Ok::<bool, ParseError>(true) ==> remaining(final(self).state()) < remaining(old(self).state()),
        decreases remaining(old(self).state()), 2nat,
    {
        if !self.parse_property_name()? {
            return Ok(false);
        }
        if self.punc(PunctuatorToken::Colon)?.is_some() {
            if !self.parse_binding_element()? {
                return Err(ParseError {});
            }
        } else {
            self.with(Flag::In);
            self.parse_initializer()?;
            self.pop_flags();
            proof {
                assert(self.state().stack =~= old(self).state().stack);
            }
        }
        Ok(true)
    }

    /// A property name: a name, a string, a number, or `[expression]`.
    pub fn parse_property_name(&mut self) -> (r: Result<bool, ParseError>)
        requires
            old(self).wf(),
        ensures
            final(self).wf(),
            r is Ok ==> kept(old(self).state(), final(self).state()),
            r == Ok::<bool, ParseError>(true) ==> remaining(final(self).state()) < remaining(old(self).state()),
        decreases remaining(old(self).state()), 1nat,
    {
        if self.parse_literal_property_name()? {
            return Ok(true);
        }
        self.parse_computed_property_name()
    }

    /// A name, a string or a number naming a property.
    fn parse_literal_property_name(&mut self) -> (r: Result<bool, ParseError>)
        requires
            old(self).wf(),
        ensures
            final(self).wf(),
            r is Ok ==> kept(old(self).state(), final(self).state()),
            r == Ok::<bool, ParseError>(true) ==> remaining(final(self).state()) < remaining(old(self).state()),
        decreases remaining(old(self).state()), 0nat,
    {
        if self.identifier()?.is_some() {
            return Ok(true);
        }
        if self.string()?.is_some() {
            return Ok(true);
        }
        Ok(self.numeric()?.is_some())
    }

    /// `[expression]`; the expression may be left out.
    fn parse_computed_property_name(&mut self) -> (r: Result<bool, ParseError>)
        requires
            old(self).wf(),
        ensures
            final(self).wf(),
            r is Ok ==> kept(old(self).state(), final(self).state()),
            r == Ok::<bool, ParseError>(true) ==> remaining(final(self).state()) < remaining(old(self).state()),
            r == Ok::<bool, ParseError>(false) <==> (filled(old(self).state()) is Some && !starts_with_punc(old(self).state(), PunctuatorToken::SquareOpen)),
            r == Ok::<bool, ParseError>(false) ==> filled(old(self).state()) == Some(final(self).state()),
        decreases remaining(old(self).state()), 0nat,
    {
        if self.punc(PunctuatorToken::SquareOpen)?.is_none() {
            return Ok(false);
        }
        self.expect_expression();
        self.with(Flag::In);
        self.parse_assignment_expression()?;
        self.pop_flags();
        proof {
            assert(self.state().stack =~= old(self).state().stack);
        }
        if self.punc(PunctuatorToken::SquareClose)?.is_none() {
            return Err(ParseError {});
        }
        Ok(true)
    }

    /// `[element, , ...rest]`: elements may be left out between commas.
    pub fn parse_array_binding_pattern(&mut self) -> (r: Result<bool, ParseError>)
        requires
            old(self).wf(),
        ensures
            final(self).wf(),
            r is Ok ==> kept(old(self).state(), final(self).state()),
            r == Ok::<bool, ParseError>(true) ==> remaining(final(self).state()) < remaining(old(self).state()),
            r == Ok::<bool, ParseError>(false) <==> (filled(old(self).state()) is Some && !starts_with_punc(old(self).state(), PunctuatorToken::SquareOpen)),
            r == Ok::<bool, ParseError>(false) ==> filled(old(self).state()) == Some(final(self).state()),
        decreases remaining(old(self).state()), 0nat,
    {
        if self.punc(PunctuatorToken::SquareOpen)?.is_none() {
            return Ok(false);
        }
        loop
            invariant
                starts_with_punc(old(self).state(), PunctuatorToken::SquareOpen),
                self.wf(),
                kept(old(self).state(), self.state()),
                remaining(self.state()) < remaining(old(self).state()),
            decreases remaining(self.state()),
        {
            if self.parse_binding_rest_element()? {
                break;
            }
            self.parse_binding_element()?;
            if self.punc(PunctuatorToken::Comma)?.is_none() {
                break;
            }
        }
        if self.punc(PunctuatorToken::SquareClose)?.is_none() {
            return Err(ParseError {});
        }
        Ok(true)
    }

    /// `...` with a pattern or a name.
    pub fn parse_binding_rest_element(&mut self) -> (r: Result<bool, ParseError>)
        requires
            old(self).wf(),
        ensures
            final(self).wf(),
            r is Ok ==> kept(old(self).state(), final(self).state()),
            r == Ok::<bool, ParseError>(true) ==> remaining(final(self).state()) < remaining(old(self).state()),
            r == Ok::<bool, ParseError>(false) <==> (filled(old(self).state()) is Some && !starts_with_punc(old(self).state(), PunctuatorToken::Ellipsis)),
            r == Ok::<bool, ParseError>(false) ==> filled(old(self).state()) == Some(final(self).state()),
        decreases remaining(old(self).state()), 0nat,
    {
        if self.punc(PunctuatorToken::Ellipsis)?.is_none() {
            return Ok(false);
        }
        if !self.parse_binding_pattern()? {
            if self.binding_identifier()?.is_none() {
                return Err(ParseError {});
            }
        }
        Ok(true)
    }

    /// A pattern or a name, with an optional initializer.
    fn parse_binding_element(&mut self) -> (r: Result<bool, ParseError>)
        requires
            old(self).wf(),
        ensures
            final(self).wf(),
            r is Ok ==> kept(old(self).state(), final(self).state()),
            r == Ok::<bool, ParseError>(true) ==> remaining(final(self).state()) < remaining(old(self).state()),
        decreases remaining(old(self).state()), 2nat,
    {
        if !self.parse_binding_pattern()? {
            if self.binding_identifier()?.is_none() {
                return Ok(false);
            }
        }
        self.with(Flag::In);
        self.parse_initializer()?;
        self.pop_flags();
        proof {
            assert(self.state().stack =~= old(self).state().stack);
        }
        Ok(true)
    }
}

} // verus!
