//! The tokenizer: hints, positions, and the tokenizer traits.
pub mod scan;
pub mod tokens;
pub mod lex;
pub mod slice;

use vstd::prelude::*;
use crate::tokenizer::tokens::Token;

verus! {

/// What the parser expects next: a regular expression where a slash may start
/// one, a template continuation where a closing curly may start one.
#[derive(Debug, Clone, Copy, PartialEq, Eq, Structural)]
pub struct Hint {
    expression: bool,
    template: bool,
    strict: bool,
}

impl Hint {
    pub closed spec fn is_expression(self) -> bool {
        self.expression
    }

    pub closed spec fn is_template(self) -> bool {
        self.template
    }

    pub closed spec fn is_strict(self) -> bool {
        self.strict
    }

    /// This hint, expecting an expression or not.
    pub closed spec fn set_expression(self, expression: bool) -> Hint {
        Hint { expression, ..self }
    }

    /// This hint, expecting a template continuation or not.
    pub closed spec fn set_template(self, template: bool) -> Hint {
        Hint { template, ..self }
    }

    pub proof fn lemma_set(self, e: bool, t: bool)
        ensures
            self.set_expression(e).is_expression() == e,
            self.set_expression(e).is_template() == self.is_template(),
            self.set_expression(e).is_strict() == self.is_strict(),
            self.set_template(t).is_template() == t,
            self.set_template(t).is_expression() == self.is_expression(),
            self.set_template(t).is_strict() == self.is_strict(),
    {
    }

    /// Two hints that agree on all three flags are the same hint.
    pub proof fn lemma_same(self, other: Hint)
        requires
            self.is_expression() == other.is_expression(),
            self.is_template() == other.is_template(),
            self.is_strict() == other.is_strict(),
        ensures
            self == other,
    {
    }

    pub fn expression(self, expression: bool) -> (h: Hint)
        ensures
            h == self.set_expression(expression),
            h.is_expression() == expression,
            h.is_template() == self.is_template(),
            h.is_strict() == self.is_strict(),
    {
        let mut h = self;
        h.expression = expression;
        h
    }

    pub fn template(self, template: bool) -> (h: Hint)
        ensures
            h == self.set_template(template),
            h.is_expression() == self.is_expression(),
            h.is_template() == template,
            h.is_strict() == self.is_strict(),
    {
        let mut h = self;
        h.template = template;
        h
    }

    pub fn strict(self, strict: bool) -> (h: Hint)
        ensures
            h.is_expression() == self.is_expression(),
            h.is_template() == self.is_template(),
            h.is_strict() == strict,
    {
        let mut h = self;
        h.strict = strict;
        h
    }

    /// Reads the expression flag.
    pub fn get_expression(&self) -> (r: bool)
        ensures
            r == self.is_expression(),
    {
        self.expression
    }

    /// Reads the template flag.
    pub fn get_template(&self) -> (r: bool)
        ensures
            r == self.is_template(),
    {
        self.template
    }
}

impl Default for Hint {
    fn default() -> (h: Hint)
        ensures
            !h.is_expression(),
            !h.is_template(),
            !h.is_strict(),
    {
        Hint { expression: false, template: false, strict: false }
    }
}

#[derive(Debug, Clone, Copy, PartialEq, Eq, Structural)]
pub struct Position {
    /// An offset in the byte stream.
    pub offset: usize,
    /// The number of line breaks before the position, counting \r\n once:
    /// the first line is line 0, as a default position has it.
    pub line: usize,
    /// A 0-indexed column number in code points.
    pub column: usize,
}

impl Default for Position {
    fn default() -> (p: Position)
        ensures
            p.offset == 0 && p.line == 0 && p.column == 0,
    {
        Position { offset: 0, line: 0, column: 0 }
    }
}

#[derive(Debug, Clone, Copy, PartialEq, Eq, Structural)]
pub struct TokenRange {
    pub start: Position,
    pub end: Position,
}

impl Default for TokenRange {
    fn default() -> (r: TokenRange)
        ensures
            r.start.offset == 0 && r.start.line == 0 && r.start.column == 0,
            r.end.offset == 0 && r.end.line == 0 && r.end.column == 0,
    {
        TokenRange { start: Position::default(), end: Position::default() }
    }
}

/// A source of tokens.
pub trait Tokenizer: Sized {
    /// The next call of `next_token` with this hint would succeed.
    spec fn can_read(&self, hint: Hint) -> bool;

    fn next_token(&mut self, hint: &Hint, token: &mut Token, range: &mut TokenRange)
        requires
            old(self).can_read(*hint),
    ;
}

/// A value that a tokenizer can be made from.
pub trait IntoTokenizer {
    type Item: Tokenizer;

    fn into_tokenizer(self) -> Self::Item;
}

} // verus!
