//! Classes, and the methods of classes and object literals.

use vstd::prelude::*;
use vstd::string::StringSliceAdditionalSpecFns;
use crate::tokenizer::tokens::{PunctuatorToken, TokenModel};
use crate::parser::{Parser, Flag, kept, remaining, lemma_parser_remaining, filled, starts_with_word, starts_with_punc, second_read, last_taken};
use crate::parser::tokens::ParseError;
use crate::parser::{at_end, lemma_at_end};
use crate::parser::grammar::{next_model, is_word, nothing_taken, lemma_second_read_ahead};

verus! {


/// What comes before the name of a method: a getter, a setter or neither.
#[derive(Debug, Clone, Copy, PartialEq, Eq, Structural)]
pub enum MethodKind {
    Getter,
    Setter,
    Plain,
}

/// The start of a method: its kind, and whether it is a generator or async.
#[derive(Debug, Clone, Copy, PartialEq, Eq, Structural)]
pub struct MethodHead {
    pub kind: MethodKind,
    pub generator: bool,
    pub is_async: bool,
}

broadcast use lemma_parser_remaining, lemma_at_end;

impl<'code> Parser<'code> {
    /// `class name extends base { items }`; the name may be left out where
    /// `Default` is set, and the heritage may be left out.
    pub fn parse_class_declaration(&mut self) -> (r: Result<bool, ParseError>)
        requires
            old(self).wf(),
        ensures
            final(self).wf(),
            r is Ok ==> kept(old(self).state(), final(self).state()),
            r == Ok::<bool, ParseError>(true) ==> remaining(final(self).state()) < remaining(old(self).state()),
            r == Ok::<bool, ParseError>(false) <==> (filled(old(self).state()) is Some && !starts_with_word(old(self).state(), "class".spec_bytes())),
            r == Ok::<bool, ParseError>(false) ==> filled(old(self).state()) == Some(final(self).state()),
            r == Ok::<bool, ParseError>(true) ==> last_taken(final(self).state(), TokenModel::Punctuator(PunctuatorToken::CurlyClose)),
            at_end(old(self).state()) ==> r == Ok::<bool, ParseError>(false) && at_end(final(self).state())
                && final(self).state().taken == old(self).state().taken,
        decreases remaining(old(self).state()), 0nat,
    {
        proof {
            lemma_at_end(old(self).state());
        }
        if self.keyword("class")?.is_none() {
            return Ok(false);
        }
        if self.flags.allow_default {
            self.binding_identifier()?;
        } else if self.binding_identifier()?.is_none() {
            return Err(ParseError {});
        }
        self.parse_class_heritage()?;
        self.parse_class_body()?;
        Ok(true)
    }

    /// The keyword `class` where an expression starts.
    pub fn parse_class_expression(&mut self) -> (r: Result<bool, ParseError>)
        requires
            old(self).wf(),
        ensures
            final(self).wf(),
            r is Ok ==> kept(old(self).state(), final(self).state()),
            r == Ok::<bool, ParseError>(true) ==> remaining(final(self).state()) < remaining(old(self).state()),
            r == Ok::<bool, ParseError>(false) ==> filled(old(self).state()) == Some(final(self).state()) && (next_model(old(self).state()) matches Some(m) && !(is_word(m, "class".spec_bytes()))),
            (next_model(old(self).state()) matches Some(m) && is_word(m, "class".spec_bytes())) ==> r == Ok::<bool, ParseError>(true),
            at_end(old(self).state()) ==> r == Ok::<bool, ParseError>(false) && at_end(final(self).state())
                && final(self).state().taken == old(self).state().taken,
        decreases remaining(old(self).state()), 0nat,
    {
        proof {
            lemma_at_end(old(self).state());
        }
        proof {
            reveal(filled);
        }
        Ok(self.keyword("class")?.is_some())
    }

    /// `extends` and a left-hand-side expression.
    fn parse_class_heritage(&mut self) -> (r: Result<bool, ParseError>)
        requires
            old(self).wf(),
        ensures
            final(self).wf(),
            r is Ok ==> kept(old(self).state(), final(self).state()),
            r == Ok::<bool, ParseError>(true) ==> remaining(final(self).state()) < remaining(old(self).state()),
            r == Ok::<bool, ParseError>(false) <==> (filled(old(self).state()) is Some && !starts_with_word(old(self).state(), "extends".spec_bytes())),
            r == Ok::<bool, ParseError>(false) ==> filled(old(self).state()) == Some(final(self).state()),
        decreases remaining(old(self).state()), 0nat,
    {
        if self.keyword("extends")?.is_none() {
            return Ok(false);
        }
        self.expect_expression();
        if !self.parse_left_hand_expression(true)? {
            return Err(ParseError {});
        }
        Ok(true)
    }

    /// `{ items }`, which must be there.
    fn parse_class_body(&mut self) -> (r: Result<(), ParseError>)
        requires
            old(self).wf(),
        ensures
            final(self).wf(),
            r is Ok ==> kept(old(self).state(), final(self).state()),
            r is Ok ==> remaining(final(self).state()) < remaining(old(self).state()),
            r is Ok ==> last_taken(final(self).state(), TokenModel::Punctuator(PunctuatorToken::CurlyClose)),
        decreases remaining(old(self).state()), 0nat,
    {
        if self.punc(PunctuatorToken::CurlyOpen)?.is_none() {
            return Err(ParseError {});
        }
        loop
            invariant
                self.wf(),
                kept(old(self).state(), self.state()),
                remaining(self.state()) < remaining(old(self).state()),
            decreases remaining(self.state()),
        {
            if !self.parse_class_item()? {
                break;
            }
        }
        if self.punc(PunctuatorToken::CurlyClose)?.is_none() {
            return Err(ParseError {});
        }
        Ok(())
    }

    /// `;`, or a method: its head, then its parameters and body.
    fn parse_class_item(&mut self) -> (r: Result<bool, ParseError>)
        requires
            old(self).wf(),
        ensures
            final(self).wf(),
            r is Ok ==> kept(old(self).state(), final(self).state()),
            r == Ok::<bool, ParseError>(true) ==> remaining(final(self).state()) < remaining(old(self).state()),
        decreases remaining(old(self).state()), 3nat,
    {
        if self.punc(PunctuatorToken::Semicolon)?.is_some() {
            return Ok(true);
        }
        let head = match self.parse_method_head(true)? {
            Some(h) => h,
            None => {
                return Ok(false);
            },
        };
        if !self.parse_method_tail(head)? {
            return Err(ParseError {});
        }
        Ok(true)
    }

    /// The head of a method: `static` where allowed, `get` or `set`, else
    /// `async` or `*`, then the property name. `get`, `set` and `static`
    /// with no name after them are the name themselves; `async` may go
    /// without one; `*` may not.
    #[verifier::rlimit(60)]
    pub fn parse_method_head(&mut self, allow_static: bool) -> (r: Result<Option<MethodHead>, ParseError>)
        requires
            old(self).wf(),
        ensures
            final(self).wf(),
            r is Ok ==> kept(old(self).state(), final(self).state()),
            r matches Ok(Some(_)) ==> remaining(final(self).state()) < remaining(old(self).state()),
        decreases remaining(old(self).state()), 2nat,
    {
        let mut stat = allow_static && self.keyword("static")?.is_some();
        let mut kind = if self.keyword("get")?.is_some() {
            MethodKind::Getter
        } else if self.keyword("set")?.is_some() {
            MethodKind::Setter
        } else {
            MethodKind::Plain
        };
        let is_async = kind == MethodKind::Plain && self.keyword("async")?.is_some();
        let star = !is_async && self.punc(PunctuatorToken::Star)?.is_some();
        if is_async {
            if self.no_line_terminator()? {
                self.parse_property_name()?;
            }
        } else if !self.parse_property_name()? {
            if star {
                return Err(ParseError {});
            } else if kind != MethodKind::Plain {
                kind = MethodKind::Plain;
            } else if stat {
                stat = false;
            } else {
                return Ok(None);
            }
        }
        Ok(Some(MethodHead { kind, generator: star, is_async }))
    }

    /// The rest of a method after its head: `()` and a body for a getter,
    /// one parameter and a body for a setter, else parameters and a body
    /// as a function of the same kind has them. `Ok(false)` where no
    /// parameter list starts.
    pub fn parse_method_tail(&mut self, head: MethodHead) -> (r: Result<bool, ParseError>)
        requires
            old(self).wf(),
        ensures
            final(self).wf(),
            r is Ok ==> kept(old(self).state(), final(self).state()),
            r == Ok::<bool, ParseError>(true) ==> remaining(final(self).state()) < remaining(old(self).state()),
        decreases remaining(old(self).state()), 2nat,
    {
        match head.kind {
            MethodKind::Getter => {
                if self.punc(PunctuatorToken::ParenOpen)?.is_none() {
                    return Ok(false);
                }
                if self.punc(PunctuatorToken::ParenClose)?.is_none() {
                    return Err(ParseError {});
                }
                if !self.parse_function_body()? {
                    return Err(ParseError {});
                }
                Ok(true)
            },
            MethodKind::Setter => {
                if self.punc(PunctuatorToken::ParenOpen)?.is_none() {
                    return Ok(false);
                }
                if !self.parse_binding_pattern()? {
                    if self.binding_identifier()?.is_none() {
                        return Err(ParseError {});
                    }
                }
                if self.punc(PunctuatorToken::ParenClose)?.is_none() {
                    return Err(ParseError {});
                }
                if !self.parse_function_body()? {
                    return Err(ParseError {});
                }
                Ok(true)
            },
            MethodKind::Plain => self.parse_function_rest(head.is_async, head.generator),
        }
    }
}

} // verus!
