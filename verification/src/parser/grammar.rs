//! The grammar: each production reports whether it was found at the next
//! token (`Ok(false)` where it does not start there, having taken nothing),
//! and fails where it started but does not go on as it must.

use vstd::prelude::*;
use vstd::string::StringSliceAdditionalSpecFns;
use crate::tokenizer::tokens::{PunctuatorToken, TemplateFormat, Token, TokenModel};
use crate::parser::{Parser, Flag, bytes_eq, is_binding_identifier, kept, remaining, lemma_parser_remaining, filled, popped, ParserState, second_read, is_head_template, binding_name, GrammarFlags, starts_with_word, starts_with_punc, last_taken, statement_ended, at_end, lemma_at_end};
use crate::parser::tokens::ParseError;

verus! {

broadcast use lemma_parser_remaining, lemma_at_end;

/// The next token, read where none is read ahead; `None` where it cannot be read.
pub open spec fn next_model(s: ParserState) -> Option<TokenModel> {
    match filled(s) {
        Some(t) => Some(t.ahead[0].1),
        None => None,
    }
}

/// No token was taken from `a` to reach `b`: `b` is `a` with the next token
/// read ahead, and where that is a name alone, perhaps the token after it.
pub open spec fn nothing_taken(a: ParserState, b: ParserState) -> bool {
    filled(a) matches Some(t) && (b == t || (t.ahead.len() == 1 && second_read(t) == Some(b)))
}

pub open spec fn is_word(m: TokenModel, w: Seq<u8>) -> bool {
    m == TokenModel::IdentifierName(w)
}

pub open spec fn is_punc(m: TokenModel, p: PunctuatorToken) -> bool {
    m == TokenModel::Punctuator(p)
}

/// The tokens that are a literal: `this`, `null`, `true`, `false`, and
/// numeric, string and regular expression literals.
#[verifier::opaque]
pub open spec fn starts_literal(m: TokenModel) -> bool {
    ||| is_word(m, "this".spec_bytes())
    ||| is_word(m, "null".spec_bytes())
    ||| is_word(m, "true".spec_bytes())
    ||| is_word(m, "false".spec_bytes())
    ||| m is NumericLiteral
    ||| m is StringLiteral
    ||| m is RegularExpressionLiteral
}

/// The tokens that begin a primary expression under `flags`: a literal,
/// `class`, the start of a template, a name that may name a binding, `(`,
/// `[` and `{`. (`function` begins one too, but for `function function`,
/// which is read as the head of an async function and then refused.)
#[verifier::opaque]
pub open spec fn starts_primary(m: TokenModel, flags: GrammarFlags) -> bool {
    ||| starts_literal(m)
    ||| is_word(m, "class".spec_bytes())
    ||| is_head_template(m)
    ||| (m matches TokenModel::IdentifierName(n) && binding_name(flags, n))
    ||| is_punc(m, PunctuatorToken::ParenOpen)
    ||| is_punc(m, PunctuatorToken::SquareOpen)
    ||| is_punc(m, PunctuatorToken::CurlyOpen)
}

/// The tokens that begin a left-hand-side expression: `new`, `super`, or
/// the start of a primary expression.
#[verifier::opaque]
pub open spec fn starts_left_hand(m: TokenModel, flags: GrammarFlags) -> bool {
    is_word(m, "new".spec_bytes()) || starts_primary(m, flags) || is_word(m, "super".spec_bytes())
}

/// The tokens that begin an update expression: `++`, `--`, or the start of a
/// left-hand-side expression.
#[verifier::opaque]
pub open spec fn starts_update(m: TokenModel, flags: GrammarFlags) -> bool {
    is_punc(m, PunctuatorToken::PlusPlus) || is_punc(m, PunctuatorToken::MinusMinus) || starts_left_hand(m, flags)
}

/// The tokens that begin a unary expression, and so a binary and a
/// conditional one: a prefix operator (`+`, `-`, `!`, `~`, `typeof`, `void`,
/// `delete`, `await`) or the start of an update expression.
#[verifier::opaque]
pub open spec fn starts_unary(m: TokenModel, flags: GrammarFlags) -> bool {
    ||| is_punc(m, PunctuatorToken::Plus)
    ||| is_punc(m, PunctuatorToken::Minus)
    ||| is_punc(m, PunctuatorToken::Exclam)
    ||| is_punc(m, PunctuatorToken::Tilde)
    ||| is_word(m, "typeof".spec_bytes())
    ||| is_word(m, "void".spec_bytes())
    ||| is_word(m, "delete".spec_bytes())
    ||| is_word(m, "await".spec_bytes())
    ||| starts_update(m, flags)
}

/// The tokens that begin an assignment expression, and so an expression:
/// `yield` or the start of a conditional expression.
#[verifier::opaque]
pub open spec fn starts_assignment(m: TokenModel, flags: GrammarFlags) -> bool {
    is_word(m, "yield".spec_bytes()) || starts_unary(m, flags)
}

/// What follows a name read ahead alone keeps that name first.
pub proof fn lemma_second_read_ahead(t: ParserState)
    requires
        t.ahead.len() > 0,
    ensures
        second_read(t) matches Some(u) ==> {
            &&& (u == t || u.ahead.len() == t.ahead.len() + 1)
            &&& u.ahead.len() > 0
            &&& u.ahead[0] == t.ahead[0]
            &&& u.flags == t.flags
            &&& u.stack == t.stack
            &&& u.src == t.src
            &&& filled(u) == Some(u)
        },
{
    reveal(filled);
}

/// Taking nothing, then nothing again, takes nothing.
pub proof fn lemma_taken_chain(a: ParserState, b: ParserState, c: ParserState)
    requires
        nothing_taken(a, b),
        nothing_taken(b, c),
    ensures
        nothing_taken(a, c),
{
    reveal(filled);
    let t = filled(a)->Some_0;
    lemma_second_read_ahead(t);
}

/// Where nothing was taken, the next token is read ahead, and it is the
/// one that was next before; the source and the flags are as they were.
pub proof fn lemma_taken_facts(a: ParserState, b: ParserState)
    requires
        nothing_taken(a, b),
    ensures
        filled(b) == Some(b),
        b.ahead.len() > 0,
        next_model(b) == next_model(a),
        b.flags == a.flags,
        b.src == a.src,
        b.stack == a.stack,
{
    reveal(filled);
    let t = filled(a)->Some_0;
    lemma_second_read_ahead(t);
}

/// The tokens that join two operands of a binary expression: `||`, `&&`,
/// `|`, `^`, `&`, `==`, `!=`, `===`, `!==`, `<`, `>`, `<=`, `>=`, `<<`,
/// `>>`, `>>>`, `+`, `-`, `*`, `/`, `%`, `**` and `instanceof`; and `in`
/// where `allow_in` holds.
pub open spec fn is_binary_operator(m: TokenModel, allow_in: bool) -> bool {
    ||| m matches TokenModel::Punctuator(p) && (p == PunctuatorToken::BarBar || p == PunctuatorToken::AmpAmp
        || p == PunctuatorToken::Bar || p == PunctuatorToken::Caret || p == PunctuatorToken::Amp
        || p == PunctuatorToken::EqEq || p == PunctuatorToken::ExclamEq || p == PunctuatorToken::EqEqEq
        || p == PunctuatorToken::ExclamEqEq || p == PunctuatorToken::LAngle || p == PunctuatorToken::RAngle
        || p == PunctuatorToken::LAngleEq || p == PunctuatorToken::RAngleEq || p == PunctuatorToken::LAngleAngle
        || p == PunctuatorToken::RAngleAngle || p == PunctuatorToken::RAngleAngleAngle || p == PunctuatorToken::Plus
        || p == PunctuatorToken::Minus || p == PunctuatorToken::Star || p == PunctuatorToken::Slash
        || p == PunctuatorToken::Percent || p == PunctuatorToken::StarStar)
    ||| m == TokenModel::IdentifierName("instanceof".spec_bytes())
    ||| allow_in && m == TokenModel::IdentifierName("in".spec_bytes())
}

/// Every binary operator of JavaScript joins two unary expressions: the
/// punctuators `||`, `&&`, `|`, `^`, `&`, `==`, `!=`, `===`, `!==`, `<`, `>`,
/// `<=`, `>=`, `<<`, `>>`, `>>>`, `+`, `-`, `*`, `/`, `%` and `**`, and the
/// word `instanceof`, always; the word `in` just where it is allowed. Tokens
/// that end or separate expressions (`;`, `,`, `)`, `]`, `}`, `:`, `?`, `=`)
/// and the other words join nothing. Since a binary expression stops only
/// before a token that is no binary operator (see `parse_binary_expression`),
/// `a || b` is read whole.
pub proof fn law_binary_operators(allow_in: bool)
    ensures
        forall|p: PunctuatorToken|
            (p == PunctuatorToken::BarBar || p == PunctuatorToken::AmpAmp || p == PunctuatorToken::Bar
                || p == PunctuatorToken::Caret || p == PunctuatorToken::Amp || p == PunctuatorToken::EqEq
                || p == PunctuatorToken::ExclamEq || p == PunctuatorToken::EqEqEq || p == PunctuatorToken::ExclamEqEq
                || p == PunctuatorToken::LAngle || p == PunctuatorToken::RAngle || p == PunctuatorToken::LAngleEq
                || p == PunctuatorToken::RAngleEq || p == PunctuatorToken::LAngleAngle
                || p == PunctuatorToken::RAngleAngle || p == PunctuatorToken::RAngleAngleAngle
                || p == PunctuatorToken::Plus || p == PunctuatorToken::Minus || p == PunctuatorToken::Star
                || p == PunctuatorToken::Slash || p == PunctuatorToken::Percent || p == PunctuatorToken::StarStar)
                ==> #[trigger] is_binary_operator(TokenModel::Punctuator(p), allow_in),
        is_binary_operator(TokenModel::IdentifierName("instanceof".spec_bytes()), allow_in),
        is_binary_operator(TokenModel::IdentifierName("in".spec_bytes()), allow_in) == allow_in,
        !is_binary_operator(TokenModel::Punctuator(PunctuatorToken::Semicolon), allow_in),
        !is_binary_operator(TokenModel::Punctuator(PunctuatorToken::Comma), allow_in),
        !is_binary_operator(TokenModel::Punctuator(PunctuatorToken::ParenClose), allow_in),
        !is_binary_operator(TokenModel::Punctuator(PunctuatorToken::SquareClose), allow_in),
        !is_binary_operator(TokenModel::Punctuator(PunctuatorToken::CurlyClose), allow_in),
        !is_binary_operator(TokenModel::Punctuator(PunctuatorToken::Colon), allow_in),
        !is_binary_operator(TokenModel::Punctuator(PunctuatorToken::Question), allow_in),
        !is_binary_operator(TokenModel::Punctuator(PunctuatorToken::Eq), allow_in),
        !is_binary_operator(TokenModel::EOF, allow_in),
{
    reveal_strlit("in");
    reveal_strlit("instanceof");
    assert("in".spec_bytes() != "instanceof".spec_bytes()) by {
        vstd::string::is_ascii_spec_bytes("in");
        vstd::string::is_ascii_spec_bytes("instanceof");
        assert(vstd::string::is_ascii("in"));
        assert(vstd::string::is_ascii("instanceof"));
    }
}

/// The assignment operators of JavaScript are exactly `=`, `*=`, `/=`,
/// `%=`, `+=`, `-=`, `<<=`, `>>=`, `>>>=`, `&=`, `^=`, `|=` and `**=`: each
/// of them, after a conditional expression, is taken with the value that
/// follows it (see `assignment_operator` and `assignment_rest`); comparisons
/// and arrows are none.
pub proof fn law_assignment_operators()
    ensures
        forall|p: PunctuatorToken|
            #[trigger] is_assignment_operator(TokenModel::Punctuator(p)) <==> (p == PunctuatorToken::Eq
                || p == PunctuatorToken::StarEq || p == PunctuatorToken::SlashEq || p == PunctuatorToken::PercentEq
                || p == PunctuatorToken::PlusEq || p == PunctuatorToken::MinusEq || p == PunctuatorToken::LAngleAngleEq
                || p == PunctuatorToken::RAngleAngleEq || p == PunctuatorToken::RAngleAngleAngleEq
                || p == PunctuatorToken::AmpEq || p == PunctuatorToken::CaretEq || p == PunctuatorToken::BarEq
                || p == PunctuatorToken::StarStarEq),
        forall|n: Seq<u8>| !#[trigger] is_assignment_operator(TokenModel::IdentifierName(n)),
{
}

/// What begins an expression: the prefix operators `+`, `-`, `!`, `~`,
/// `typeof`, `void`, `delete` and `await`, and `++` and `--`, begin a unary
/// expression; `this`, `null`, `true`, `false`, numeric, string and regular
/// expression literals, `(`, `[`, `{`, `class`, `new` and `super` begin one
/// too, as does `yield` an assignment expression. A closing bracket, `;`, `,`,
/// `:`, `=` and the end of input begin none.
pub proof fn law_expression_starts(flags: GrammarFlags)
    ensures
        starts_unary(TokenModel::Punctuator(PunctuatorToken::Plus), flags),
        starts_unary(TokenModel::Punctuator(PunctuatorToken::Minus), flags),
        starts_unary(TokenModel::Punctuator(PunctuatorToken::Exclam), flags),
        starts_unary(TokenModel::Punctuator(PunctuatorToken::Tilde), flags),
        starts_unary(TokenModel::IdentifierName("typeof".spec_bytes()), flags),
        starts_unary(TokenModel::IdentifierName("void".spec_bytes()), flags),
        starts_unary(TokenModel::IdentifierName("delete".spec_bytes()), flags),
        starts_unary(TokenModel::IdentifierName("await".spec_bytes()), flags),
        starts_unary(TokenModel::Punctuator(PunctuatorToken::PlusPlus), flags),
        starts_unary(TokenModel::Punctuator(PunctuatorToken::MinusMinus), flags),
        starts_unary(TokenModel::IdentifierName("this".spec_bytes()), flags),
        starts_unary(TokenModel::IdentifierName("null".spec_bytes()), flags),
        starts_unary(TokenModel::IdentifierName("true".spec_bytes()), flags),
        starts_unary(TokenModel::IdentifierName("false".spec_bytes()), flags),
        forall|r: Seq<u8>| #[trigger] starts_unary(TokenModel::NumericLiteral(r), flags),
        forall|v: Seq<u8>| #[trigger] starts_unary(TokenModel::StringLiteral(v), flags),
        forall|v: Seq<u8>, g: Seq<u8>| #[trigger] starts_unary(TokenModel::RegularExpressionLiteral(v, g), flags),
        starts_unary(TokenModel::Punctuator(PunctuatorToken::ParenOpen), flags),
        starts_unary(TokenModel::Punctuator(PunctuatorToken::SquareOpen), flags),
        starts_unary(TokenModel::Punctuator(PunctuatorToken::CurlyOpen), flags),
        starts_unary(TokenModel::IdentifierName("class".spec_bytes()), flags),
        starts_unary(TokenModel::IdentifierName("new".spec_bytes()), flags),
        starts_unary(TokenModel::IdentifierName("super".spec_bytes()), flags),
        starts_assignment(TokenModel::IdentifierName("yield".spec_bytes()), flags),
        !starts_assignment(TokenModel::Punctuator(PunctuatorToken::ParenClose), flags),
        !starts_assignment(TokenModel::Punctuator(PunctuatorToken::SquareClose), flags),
        !starts_assignment(TokenModel::Punctuator(PunctuatorToken::CurlyClose), flags),
        !starts_assignment(TokenModel::Punctuator(PunctuatorToken::Semicolon), flags),
        !starts_assignment(TokenModel::Punctuator(PunctuatorToken::Comma), flags),
        !starts_assignment(TokenModel::Punctuator(PunctuatorToken::Colon), flags),
        !starts_assignment(TokenModel::Punctuator(PunctuatorToken::Eq), flags),
        !starts_assignment(TokenModel::EOF, flags),
{
    reveal(starts_assignment);
    reveal(starts_unary);
    reveal(starts_update);
    reveal(starts_left_hand);
    reveal(starts_primary);
    reveal(starts_literal);
}

/// The assignment operators: `=`, `+=`, `-=`, `*=`, `/=`, `%=`, `**=`, `<<=`,
/// `>>=`, `>>>=`, `&=`, `|=` and `^=`.
pub open spec fn is_assignment_operator(m: TokenModel) -> bool {
    m matches TokenModel::Punctuator(p) && (p == PunctuatorToken::Eq || p == PunctuatorToken::PlusEq
        || p == PunctuatorToken::MinusEq || p == PunctuatorToken::StarEq || p == PunctuatorToken::SlashEq
        || p == PunctuatorToken::PercentEq || p == PunctuatorToken::StarStarEq
        || p == PunctuatorToken::LAngleAngleEq || p == PunctuatorToken::RAngleAngleEq
        || p == PunctuatorToken::RAngleAngleAngleEq || p == PunctuatorToken::AmpEq
        || p == PunctuatorToken::BarEq || p == PunctuatorToken::CaretEq)
}

/// What may follow a conditional expression that ends at `mid`, in an
/// assignment expression that ends at `end`: `=>` or an assignment operator,
/// then what follows it, which takes input; or nothing, where the next token
/// is neither.
pub open spec fn assignment_rest(mid: ParserState, end: ParserState) -> bool {
    match filled(mid) {
        None => false,
        Some(t) => if t.ahead[0].1 == TokenModel::Punctuator(PunctuatorToken::Arrow)
            || is_assignment_operator(t.ahead[0].1) {
            remaining(end) < remaining(popped(t))
        } else {
            end == t
        },
    }
}

/// A state read ahead stays as it is when the next token is asked for again.
pub proof fn lemma_filled_ahead(s: ParserState)
    ensures
        filled(s) matches Some(t) ==> t.ahead.len() > 0 && filled(t) == Some(t) && t.taken == s.taken
            && t.flags == s.flags && t.src == s.src && t.stack == s.stack,
{
    reveal(filled);
}

impl<'code> Parser<'code> {

    /// A script: statements to the end of input. A script that parses was
    /// read to the end of its source.
    pub fn parse_script(&mut self) -> (r: Result<(), ParseError>)
        requires
            old(self).wf(),
        ensures
            final(self).wf(),
            r is Ok ==> final(self).state().off == final(self).state().src.len(),
            at_end(old(self).state()) ==> r is Ok,
    {
        loop
            invariant
                self.wf(),
                at_end(old(self).state()) ==> at_end(self.state()),
            decreases remaining(self.state()),
        {
            if !self.parse_script_item()? {
                break;
            }
        }
        match self.eof()? {
            Some(_) => Ok(()),
            None => Err(ParseError {}),
        }
    }

    /// A module: items to the end of input. A module that parses was read to
    /// the end of its source.
    pub fn parse_module(&mut self) -> (r: Result<(), ParseError>)
        requires
            old(self).wf(),
        ensures
            final(self).wf(),
            r is Ok ==> final(self).state().off == final(self).state().src.len(),
            at_end(old(self).state()) ==> r is Ok,
    {
        loop
            invariant
                self.wf(),
                at_end(old(self).state()) ==> at_end(self.state()),
            decreases remaining(self.state()),
        {
            if !self.parse_module_item()? {
                break;
            }
        }
        match self.eof()? {
            Some(_) => Ok(()),
            None => Err(ParseError {}),
        }
    }

    /// An item of a module: what a script holds, an import or an export.
    fn parse_module_item(&mut self) -> (r: Result<bool, ParseError>)
        requires
            old(self).wf(),
        ensures
            final(self).wf(),
            r is Ok ==> kept(old(self).state(), final(self).state()),
            r == Ok::<bool, ParseError>(true) ==> remaining(final(self).state()) < remaining(old(self).state()),
            at_end(old(self).state()) ==> r == Ok::<bool, ParseError>(false) && at_end(final(self).state())
                && final(self).state().taken == old(self).state().taken,
        decreases remaining(old(self).state()), 14nat,
    {
        proof {
            lemma_at_end(old(self).state());
        }
        self.expect_expression();
        if self.parse_script_item()? {
            return Ok(true);
        }
        if self.parse_import_declaration()? {
            return Ok(true);
        }
        self.parse_export_declaration()
    }

    /// An item of a script: a declaration or a statement.
    fn parse_script_item(&mut self) -> (r: Result<bool, ParseError>)
        requires
            old(self).wf(),
        ensures
            final(self).wf(),
            r is Ok ==> kept(old(self).state(), final(self).state()),
            r == Ok::<bool, ParseError>(true) ==> remaining(final(self).state()) < remaining(old(self).state()),
            at_end(old(self).state()) ==> r == Ok::<bool, ParseError>(false) && at_end(final(self).state())
                && final(self).state().taken == old(self).state().taken,
        decreases remaining(old(self).state()), 13nat,
    {
        proof {
            lemma_at_end(old(self).state());
        }
        self.expect_expression();
        self.parse_statement_list_item()
    }

    /// A declaration or a statement.
    pub fn parse_statement_list_item(&mut self) -> (r: Result<bool, ParseError>)
        requires
            old(self).wf(),
        ensures
            final(self).wf(),
            r is Ok ==> kept(old(self).state(), final(self).state()),
            r == Ok::<bool, ParseError>(true) ==> remaining(final(self).state()) < remaining(old(self).state()),
            at_end(old(self).state()) ==> r == Ok::<bool, ParseError>(false) && at_end(final(self).state())
                && final(self).state().taken == old(self).state().taken,
        decreases remaining(old(self).state()), 12nat,
    {
        proof {
            lemma_at_end(old(self).state());
        }
        if self.parse_declaration()? {
            return Ok(true);
        }
        self.parse_statement()
    }

    /// A function or class declaration, or `let` or `const` with its
    /// declarators; each `const` declarator has an initializer.
    pub fn parse_declaration(&mut self) -> (r: Result<bool, ParseError>)
        requires
            old(self).wf(),
        ensures
            final(self).wf(),
            r is Ok ==> kept(old(self).state(), final(self).state()),
            r == Ok::<bool, ParseError>(true) ==> remaining(final(self).state()) < remaining(old(self).state()),
            at_end(old(self).state()) ==> r == Ok::<bool, ParseError>(false) && at_end(final(self).state())
                && final(self).state().taken == old(self).state().taken,
        decreases remaining(old(self).state()), 10nat,
    {
        proof {
            lemma_at_end(old(self).state());
        }
        if self.parse_function_declaration()? {
            return Ok(true);
        }
        if self.parse_class_declaration()? {
            return Ok(true);
        }
        let required = if self.keyword("let")?.is_some() {
            false
        } else if self.keyword("const")?.is_some() {
            true
        } else {
            return Ok(false);
        };
        if !self.parse_declarators(required)? {
            return Err(ParseError {});
        }
        if !self.semicolon()? {
            return Err(ParseError {});
        }
        Ok(true)
    }

    /// Declarators separated by commas.
    fn parse_declarators(&mut self, initializer_required: bool) -> (r: Result<bool, ParseError>)
        requires
            old(self).wf(),
        ensures
            final(self).wf(),
            r is Ok ==> kept(old(self).state(), final(self).state()),
            r == Ok::<bool, ParseError>(true) ==> remaining(final(self).state()) < remaining(old(self).state()),
        decreases remaining(old(self).state()), 9nat,
    {
        if !self.parse_declarator(initializer_required)? {
            return Ok(false);
        }
        loop
            invariant
                self.wf(),
                kept(old(self).state(), self.state()),
                remaining(self.state()) < remaining(old(self).state()),
            decreases remaining(self.state()),
        {
            if self.punc(PunctuatorToken::Comma)?.is_none() {
                break;
            }
            if !self.parse_declarator(initializer_required)? {
                return Err(ParseError {});
            }
        }
        Ok(true)
    }

    /// A binding pattern with its initializer, or a binding name with an
    /// initializer that may be left out unless `initializer_required`.
    pub fn parse_declarator(&mut self, initializer_required: bool) -> (r: Result<bool, ParseError>)
        requires
            old(self).wf(),
        ensures
            final(self).wf(),
            r is Ok ==> kept(old(self).state(), final(self).state()),
            r == Ok::<bool, ParseError>(true) ==> remaining(final(self).state()) < remaining(old(self).state()),
        decreases remaining(old(self).state()), 8nat,
    {
        if self.parse_binding_pattern()? {
            if !self.parse_initializer()? {
                return Err(ParseError {});
            }
            return Ok(true);
        }
        if self.binding_identifier()?.is_none() {
            return Ok(false);
        }
        if !self.parse_initializer()? && initializer_required {
            return Err(ParseError {});
        }
        Ok(true)
    }

    /// `= expression`
    pub fn parse_initializer(&mut self) -> (r: Result<bool, ParseError>)
        requires
            old(self).wf(),
        ensures
            final(self).wf(),
            r is Ok ==> kept(old(self).state(), final(self).state()),
            r == Ok::<bool, ParseError>(true) ==> remaining(final(self).state()) < remaining(old(self).state()),
            r == Ok::<bool, ParseError>(false) <==> (filled(old(self).state()) is Some && !starts_with_punc(old(self).state(), PunctuatorToken::Eq)),
            r == Ok::<bool, ParseError>(false) ==> filled(old(self).state()) == Some(final(self).state()),
        decreases remaining(old(self).state()), 7nat,
    {
        if self.punc(PunctuatorToken::Eq)?.is_none() {
            return Ok(false);
        }
        self.expect_expression();
        if !self.parse_assignment_expression()? {
            return Err(ParseError {});
        }
        Ok(true)
    }

    /// A statement.
    #[verifier::rlimit(60)]
    pub fn parse_statement(&mut self) -> (r: Result<bool, ParseError>)
        requires
            old(self).wf(),
        ensures
            final(self).wf(),
            r is Ok ==> kept(old(self).state(), final(self).state()),
            r == Ok::<bool, ParseError>(true) ==> remaining(final(self).state()) < remaining(old(self).state()),
            at_end(old(self).state()) ==> r == Ok::<bool, ParseError>(false) && at_end(final(self).state())
                && final(self).state().taken == old(self).state().taken,
        decreases remaining(old(self).state()), 11nat,
    {
        proof {
            lemma_at_end(old(self).state());
        }
        self.expect_expression();
        if self.parse_block_statement()? {
            return Ok(true);
        }
        if self.parse_variable_statement()? {
            return Ok(true);
        }
        if self.parse_empty_statement()? {
            return Ok(true);
        }
        if self.parse_if_statement()? {
            return Ok(true);
        }
        if self.parse_breakable_statement()? {
            return Ok(true);
        }
        if self.parse_continue_statement()? {
            return Ok(true);
        }
        if self.parse_break_statement()? {
            return Ok(true);
        }
        if self.parse_return_statement()? {
            return Ok(true);
        }
        if self.parse_with_statement()? {
            return Ok(true);
        }
        if self.parse_labelled_statement()? {
            return Ok(true);
        }
        if self.parse_throw_statement()? {
            return Ok(true);
        }
        if self.parse_try_statement()? {
            return Ok(true);
        }
        if self.parse_debugger_statement()? {
            return Ok(true);
        }
        self.parse_expression_statement()
    }

    /// `{ statements }`
    pub fn parse_block_statement(&mut self) -> (r: Result<bool, ParseError>)
        requires
            old(self).wf(),
        ensures
            final(self).wf(),
            r is Ok ==> kept(old(self).state(), final(self).state()),
            r == Ok::<bool, ParseError>(true) ==> remaining(final(self).state()) < remaining(old(self).state()),
            r == Ok::<bool, ParseError>(true) ==> last_taken(final(self).state(), TokenModel::Punctuator(PunctuatorToken::CurlyClose)),
            old(self).state().ahead.len() > 0 ==> (r == Ok::<bool, ParseError>(false) <==> !is_punc(old(self).state().ahead[0].1, PunctuatorToken::CurlyOpen)),
            old(self).state().ahead.len() > 0 && r == Ok::<bool, ParseError>(false) ==> final(self).state() == old(self).state(),
            at_end(old(self).state()) ==> r == Ok::<bool, ParseError>(false) && at_end(final(self).state())
                && final(self).state().taken == old(self).state().taken,
        decreases remaining(old(self).state()), 10nat,
    {
        proof {
            lemma_at_end(old(self).state());
        }
        proof {
            old(self).lemma_wf_template();
        }
        self.without(Flag::Template);
        assert(at_end(old(self).state()) ==> at_end(self.state()));
        proof {
            lemma_filled_ahead(self.state());
            reveal(filled);
        }
        if self.punc(PunctuatorToken::CurlyOpen)?.is_none() {
            self.pop_flags();
            proof {
                assert(self.state().stack =~= old(self).state().stack);
                let h = old(self).state().hint;
                h.lemma_set(false, false);
                h.set_template(false).lemma_set(false, old(self).state().flags.expect_template);
                h.set_template(false).set_template(old(self).state().flags.expect_template).lemma_same(h);
            }
            assert(at_end(old(self).state()) ==> at_end(self.state()));
            return Ok(false);
        }
        loop
            invariant
                !at_end(old(self).state()),
                old(self).state().ahead.len() > 0 ==> is_punc(old(self).state().ahead[0].1, PunctuatorToken::CurlyOpen),
                self.wf(),
                self.state().src == old(self).state().src,
                self.state().flags == old(self).state().flags.with_flag(Flag::Template, false),
                self.state().stack == old(self).state().stack.push(old(self).state().flags),
                remaining(self.state()) < remaining(old(self).state()),
            decreases remaining(self.state()),
        {
            if !self.parse_statement_list_item()? {
                break;
            }
        }
        if self.punc(PunctuatorToken::CurlyClose)?.is_none() {
            return Err(ParseError {});
        }
        self.pop_flags();
        proof {
            assert(self.state().stack =~= old(self).state().stack);
        }
        Ok(true)
    }

    /// `var` with its declarators.
    pub fn parse_variable_statement(&mut self) -> (r: Result<bool, ParseError>)
        requires
            old(self).wf(),
        ensures
            final(self).wf(),
            r is Ok ==> kept(old(self).state(), final(self).state()),
            r == Ok::<bool, ParseError>(true) ==> remaining(final(self).state()) < remaining(old(self).state()),
            r == Ok::<bool, ParseError>(false) <==> (filled(old(self).state()) is Some && !starts_with_word(old(self).state(), "var".spec_bytes())),
            r == Ok::<bool, ParseError>(false) ==> filled(old(self).state()) == Some(final(self).state()),
            r == Ok::<bool, ParseError>(true) ==> statement_ended(final(self).state()),
            at_end(old(self).state()) ==> r == Ok::<bool, ParseError>(false) && at_end(final(self).state())
                && final(self).state().taken == old(self).state().taken,
        decreases remaining(old(self).state()), 10nat,
    {
        proof {
            lemma_at_end(old(self).state());
        }
        if self.keyword("var")?.is_none() {
            return Ok(false);
        }
        self.with(Flag::In);
        if !self.parse_declarators(false)? {
            return Err(ParseError {});
        }
        self.pop_flags();
        proof {
            assert(self.state().stack =~= old(self).state().stack);
        }
        if !self.semicolon()? {
            return Err(ParseError {});
        }
        Ok(true)
    }

    /// `;`
    pub fn parse_empty_statement(&mut self) -> (r: Result<bool, ParseError>)
        requires
            old(self).wf(),
        ensures
            final(self).wf(),
            r is Ok ==> kept(old(self).state(), final(self).state()),
            r == Ok::<bool, ParseError>(true) ==> remaining(final(self).state()) < remaining(old(self).state()),
            match filled(old(self).state()) {
                None => r is Err,
                Some(t) => if is_punc(t.ahead[0].1, PunctuatorToken::Semicolon) {
                    r == Ok::<bool, ParseError>(true) && final(self).state() == popped(t)
                } else {
                    r == Ok::<bool, ParseError>(false) && final(self).state() == t
                },
            },
            r == Ok::<bool, ParseError>(true) ==> last_taken(final(self).state(), TokenModel::Punctuator(PunctuatorToken::Semicolon)),
            at_end(old(self).state()) ==> r == Ok::<bool, ParseError>(false) && at_end(final(self).state())
                && final(self).state().taken == old(self).state().taken,
        decreases remaining(old(self).state()), 10nat,
    {
        proof {
            lemma_at_end(old(self).state());
        }
        Ok(self.punc(PunctuatorToken::Semicolon)?.is_some())
    }

    /// `if (test) statement`, with an optional `else statement`.
    pub fn parse_if_statement(&mut self) -> (r: Result<bool, ParseError>)
        requires
            old(self).wf(),
        ensures
            final(self).wf(),
            r is Ok ==> kept(old(self).state(), final(self).state()),
            r == Ok::<bool, ParseError>(true) ==> remaining(final(self).state()) < remaining(old(self).state()),
            r == Ok::<bool, ParseError>(false) <==> (filled(old(self).state()) is Some && !starts_with_word(old(self).state(), "if".spec_bytes())),
            r == Ok::<bool, ParseError>(false) ==> filled(old(self).state()) == Some(final(self).state()),
            at_end(old(self).state()) ==> r == Ok::<bool, ParseError>(false) && at_end(final(self).state())
                && final(self).state().taken == old(self).state().taken,
        decreases remaining(old(self).state()), 10nat,
    {
        proof {
            lemma_at_end(old(self).state());
        }
        if self.keyword("if")?.is_none() {
            return Ok(false);
        }
        self.parse_paren_expression()?;
        if !self.parse_statement()? {
            return Err(ParseError {});
        }
        if self.keyword("else")?.is_some() {
            if !self.parse_statement()? {
                return Err(ParseError {});
            }
        }
        Ok(true)
    }

    /// `( expression )`, which must be there.
    fn parse_paren_expression(&mut self) -> (r: Result<(), ParseError>)
        requires
            old(self).wf(),
        ensures
            final(self).wf(),
            r is Ok ==> kept(old(self).state(), final(self).state()),
            r is Ok ==> remaining(final(self).state()) < remaining(old(self).state()),
        decreases remaining(old(self).state()), 9nat,
    {
        if self.punc(PunctuatorToken::ParenOpen)?.is_none() {
            return Err(ParseError {});
        }
        self.with(Flag::In);
        self.expect_expression();
        if !self.parse_expression()? {
            return Err(ParseError {});
        }
        self.pop_flags();
        proof {
            assert(self.state().stack =~= old(self).state().stack);
        }
        if self.punc(PunctuatorToken::ParenClose)?.is_none() {
            return Err(ParseError {});
        }
        Ok(())
    }

    /// A loop or a `switch`.
    pub fn parse_breakable_statement(&mut self) -> (r: Result<bool, ParseError>)
        requires
            old(self).wf(),
        ensures
            final(self).wf(),
            r is Ok ==> kept(old(self).state(), final(self).state()),
            r == Ok::<bool, ParseError>(true) ==> remaining(final(self).state()) < remaining(old(self).state()),
            at_end(old(self).state()) ==> r == Ok::<bool, ParseError>(false) && at_end(final(self).state())
                && final(self).state().taken == old(self).state().taken,
        decreases remaining(old(self).state()), 10nat,
    {
        proof {
            lemma_at_end(old(self).state());
        }
        if self.keyword("while")?.is_some() {
            self.parse_paren_expression()?;
            if !self.parse_statement()? {
                return Err(ParseError {});
            }
            return Ok(true);
        }
        if self.keyword("do")?.is_some() {
            if !self.parse_statement()? {
                return Err(ParseError {});
            }
            if self.keyword("while")?.is_none() {
                return Err(ParseError {});
            }
            self.parse_paren_expression()?;
            if !self.semicolon_dowhile()? {
                return Err(ParseError {});
            }
            return Ok(true);
        }
        if self.parse_for_statement()? {
            return Ok(true);
        }
        self.parse_switch_statement()
    }

    /// `continue;` or `continue label;`
    pub fn parse_continue_statement(&mut self) -> (r: Result<bool, ParseError>)
        requires
            old(self).wf(),
        ensures
            final(self).wf(),
            r is Ok ==> kept(old(self).state(), final(self).state()),
            r == Ok::<bool, ParseError>(true) ==> remaining(final(self).state()) < remaining(old(self).state()),
            r == Ok::<bool, ParseError>(false) <==> (filled(old(self).state()) is Some && !starts_with_word(old(self).state(), "continue".spec_bytes())),
            r == Ok::<bool, ParseError>(false) ==> filled(old(self).state()) == Some(final(self).state()),
            r == Ok::<bool, ParseError>(true) ==> statement_ended(final(self).state()),
            at_end(old(self).state()) ==> r == Ok::<bool, ParseError>(false) && at_end(final(self).state())
                && final(self).state().taken == old(self).state().taken,
        decreases remaining(old(self).state()), 10nat,
    {
        proof {
            lemma_at_end(old(self).state());
        }
        if self.keyword("continue")?.is_none() {
            return Ok(false);
        }
        if self.no_line_terminator()? {
            self.binding_identifier()?;
        }
        if !self.semicolon()? {
            return Err(ParseError {});
        }
        Ok(true)
    }

    /// `break;` or `break label;`
    pub fn parse_break_statement(&mut self) -> (r: Result<bool, ParseError>)
        requires
            old(self).wf(),
        ensures
            final(self).wf(),
            r is Ok ==> kept(old(self).state(), final(self).state()),
            r == Ok::<bool, ParseError>(true) ==> remaining(final(self).state()) < remaining(old(self).state()),
            r == Ok::<bool, ParseError>(false) <==> (filled(old(self).state()) is Some && !starts_with_word(old(self).state(), "break".spec_bytes())),
            r == Ok::<bool, ParseError>(false) ==> filled(old(self).state()) == Some(final(self).state()),
            r == Ok::<bool, ParseError>(true) ==> statement_ended(final(self).state()),
            at_end(old(self).state()) ==> r == Ok::<bool, ParseError>(false) && at_end(final(self).state())
                && final(self).state().taken == old(self).state().taken,
        decreases remaining(old(self).state()), 10nat,
    {
        proof {
            lemma_at_end(old(self).state());
        }
        if self.keyword("break")?.is_none() {
            return Ok(false);
        }
        if self.no_line_terminator()? {
            self.binding_identifier()?;
        }
        if !self.semicolon()? {
            return Err(ParseError {});
        }
        Ok(true)
    }

    /// `return;` or `return value;`
    pub fn parse_return_statement(&mut self) -> (r: Result<bool, ParseError>)
        requires
            old(self).wf(),
        ensures
            final(self).wf(),
            r is Ok ==> kept(old(self).state(), final(self).state()),
            r == Ok::<bool, ParseError>(true) ==> remaining(final(self).state()) < remaining(old(self).state()),
            r == Ok::<bool, ParseError>(false) <==> (filled(old(self).state()) is Some && !starts_with_word(old(self).state(), "return".spec_bytes())),
            r == Ok::<bool, ParseError>(false) ==> filled(old(self).state()) == Some(final(self).state()),
            r == Ok::<bool, ParseError>(true) ==> statement_ended(final(self).state()),
            at_end(old(self).state()) ==> r == Ok::<bool, ParseError>(false) && at_end(final(self).state())
                && final(self).state().taken == old(self).state().taken,
        decreases remaining(old(self).state()), 10nat,
    {
        proof {
            lemma_at_end(old(self).state());
        }
        if self.keyword("return")?.is_none() {
            return Ok(false);
        }
        if self.no_line_terminator()? {
            self.expect_expression();
            self.with(Flag::In);
            self.parse_expression()?;
            self.pop_flags();
            proof {
                assert(self.state().stack =~= old(self).state().stack);
            }
        }
        if !self.semicolon()? {
            return Err(ParseError {});
        }
        Ok(true)
    }

    /// `throw value`; where a line break follows `throw`, the value is left out.
    pub fn parse_throw_statement(&mut self) -> (r: Result<bool, ParseError>)
        requires
            old(self).wf(),
        ensures
            final(self).wf(),
            r is Ok ==> kept(old(self).state(), final(self).state()),
            r == Ok::<bool, ParseError>(true) ==> remaining(final(self).state()) < remaining(old(self).state()),
            r == Ok::<bool, ParseError>(false) <==> (filled(old(self).state()) is Some && !starts_with_word(old(self).state(), "throw".spec_bytes())),
            r == Ok::<bool, ParseError>(false) ==> filled(old(self).state()) == Some(final(self).state()),
            at_end(old(self).state()) ==> r == Ok::<bool, ParseError>(false) && at_end(final(self).state())
                && final(self).state().taken == old(self).state().taken,
        decreases remaining(old(self).state()), 10nat,
    {
        proof {
            lemma_at_end(old(self).state());
        }
        if self.keyword("throw")?.is_none() {
            return Ok(false);
        }
        if self.no_line_terminator()? {
            self.expect_expression();
            self.with(Flag::In);
            if !self.parse_expression()? {
                return Err(ParseError {});
            }
            self.pop_flags();
            proof {
                assert(self.state().stack =~= old(self).state().stack);
            }
        }
        Ok(true)
    }

    /// `try {}` with an optional `catch (e) {}` and an optional `finally {}`.
    #[verifier::rlimit(60)]
    pub fn parse_try_statement(&mut self) -> (r: Result<bool, ParseError>)
        requires
            old(self).wf(),
        ensures
            final(self).wf(),
            r is Ok ==> kept(old(self).state(), final(self).state()),
            r == Ok::<bool, ParseError>(true) ==> remaining(final(self).state()) < remaining(old(self).state()),
            r == Ok::<bool, ParseError>(false) <==> (filled(old(self).state()) is Some && !starts_with_word(old(self).state(), "try".spec_bytes())),
            r == Ok::<bool, ParseError>(false) ==> filled(old(self).state()) == Some(final(self).state()),
            r == Ok::<bool, ParseError>(true) ==> last_taken(final(self).state(), TokenModel::Punctuator(PunctuatorToken::CurlyClose)),
            at_end(old(self).state()) ==> r == Ok::<bool, ParseError>(false) && at_end(final(self).state())
                && final(self).state().taken == old(self).state().taken,
        decreases remaining(old(self).state()), 10nat,
    {
        proof {
            lemma_at_end(old(self).state());
        }
        if self.keyword("try")?.is_none() {
            return Ok(false);
        }
        if !self.parse_block_statement()? {
            return Err(ParseError {});
        }
        proof {
            lemma_filled_ahead(self.state());
        }
        if self.keyword("catch")?.is_some() {
            if self.punc(PunctuatorToken::ParenOpen)?.is_none() {
                return Err(ParseError {});
            }
            if !self.parse_binding_pattern()? {
                if self.binding_identifier()?.is_none() {
                    return Err(ParseError {});
                }
            }
            if self.punc(PunctuatorToken::ParenClose)?.is_none() {
                return Err(ParseError {});
            }
            if !self.parse_block_statement()? {
                return Err(ParseError {});
            }
        }
        proof {
            lemma_filled_ahead(self.state());
        }
        if self.keyword("finally")?.is_some() {
            if !self.parse_block_statement()? {
                return Err(ParseError {});
            }
        }
        Ok(true)
    }

    /// `debugger;`
    pub fn parse_debugger_statement(&mut self) -> (r: Result<bool, ParseError>)
        requires
            old(self).wf(),
        ensures
            final(self).wf(),
            r is Ok ==> kept(old(self).state(), final(self).state()),
            r == Ok::<bool, ParseError>(true) ==> remaining(final(self).state()) < remaining(old(self).state()),
            r == Ok::<bool, ParseError>(false) <==> (filled(old(self).state()) is Some && !starts_with_word(old(self).state(), "debugger".spec_bytes())),
            r == Ok::<bool, ParseError>(false) ==> filled(old(self).state()) == Some(final(self).state()),
            r == Ok::<bool, ParseError>(true) ==> statement_ended(final(self).state()),
            at_end(old(self).state()) ==> r == Ok::<bool, ParseError>(false) && at_end(final(self).state())
                && final(self).state().taken == old(self).state().taken,
        decreases remaining(old(self).state()), 10nat,
    {
        proof {
            lemma_at_end(old(self).state());
        }
        if self.keyword("debugger")?.is_none() {
            return Ok(false);
        }
        if !self.semicolon()? {
            return Err(ParseError {});
        }
        Ok(true)
    }

    /// `expression;`
    pub fn parse_expression_statement(&mut self) -> (r: Result<bool, ParseError>)
        requires
            old(self).wf(),
        ensures
            final(self).wf(),
            r is Ok ==> kept(old(self).state(), final(self).state()),
            r == Ok::<bool, ParseError>(true) ==> remaining(final(self).state()) < remaining(old(self).state()),
            r == Ok::<bool, ParseError>(true) ==> statement_ended(final(self).state()),
            at_end(old(self).state()) ==> r == Ok::<bool, ParseError>(false) && at_end(final(self).state())
                && final(self).state().taken == old(self).state().taken,
        decreases remaining(old(self).state()), 10nat,
    {
        proof {
            lemma_at_end(old(self).state());
        }
        self.with(Flag::In);
        if !self.parse_expression()? {
            self.pop_flags();
            proof {
                assert(self.state().stack =~= old(self).state().stack);
            }
            return Ok(false);
        }
        self.pop_flags();
        proof {
            assert(self.state().stack =~= old(self).state().stack);
        }
        if !self.semicolon()? {
            return Err(ParseError {});
        }
        Ok(true)
    }

    /// Assignment expressions separated by commas.
    pub fn parse_expression(&mut self) -> (r: Result<bool, ParseError>)
        requires
            old(self).wf(),
        ensures
            final(self).wf(),
            r is Ok ==> kept(old(self).state(), final(self).state()),
            r == Ok::<bool, ParseError>(true) ==> remaining(final(self).state()) < remaining(old(self).state()),
            r == Ok::<bool, ParseError>(false) ==> nothing_taken(old(self).state(), final(self).state())
                && (next_model(old(self).state()) matches Some(m) && !starts_assignment(m, old(self).state().flags)),
            (next_model(old(self).state()) matches Some(m) && starts_assignment(m, old(self).state().flags)) ==> r != Ok::<bool, ParseError>(false),
            at_end(old(self).state()) ==> r == Ok::<bool, ParseError>(false) && at_end(final(self).state())
                && final(self).state().taken == old(self).state().taken,
        decreases remaining(old(self).state()), 8nat,
    {
        proof {
            lemma_at_end(old(self).state());
        }
        if !self.parse_assignment_expression()? {
            return Ok(false);
        }
        self.expect_expression();
        loop
            invariant
                !at_end(old(self).state()),
                self.wf(),
                kept(old(self).state(), self.state()),
                remaining(self.state()) < remaining(old(self).state()),
            decreases remaining(self.state()),
        {
            if self.punc(PunctuatorToken::Comma)?.is_none() {
                break;
            }
            self.expect_expression();
            if !self.parse_assignment_expression()? {
                return Err(ParseError {});
            }
        }
        Ok(true)
    }

    /// Takes an assignment operator where one is next.
    #[verifier::rlimit(60)]
    fn assignment_operator(&mut self) -> (r: Result<bool, ParseError>)
        requires
            old(self).wf(),
        ensures
            final(self).wf(),
            r is Ok ==> kept(old(self).state(), final(self).state()),
            r == Ok::<bool, ParseError>(true) ==> remaining(final(self).state()) < remaining(old(self).state()),
            match filled(old(self).state()) {
                None => r is Err,
                Some(t) => if is_assignment_operator(t.ahead[0].1) {
                    r == Ok::<bool, ParseError>(true) && final(self).state() == popped(t)
                } else {
                    r == Ok::<bool, ParseError>(false) && final(self).state() == t
                },
            },
    {
        proof {
            lemma_filled_ahead(old(self).state());
        }
        if self.punc(PunctuatorToken::Eq)?.is_some() {
            return Ok(true);
        }
        if self.punc(PunctuatorToken::PlusEq)?.is_some() {
            return Ok(true);
        }
        if self.punc(PunctuatorToken::MinusEq)?.is_some() {
            return Ok(true);
        }
        if self.punc(PunctuatorToken::StarEq)?.is_some() {
            return Ok(true);
        }
        if self.punc(PunctuatorToken::SlashEq)?.is_some() {
            return Ok(true);
        }
        if self.punc(PunctuatorToken::PercentEq)?.is_some() {
            return Ok(true);
        }
        if self.punc(PunctuatorToken::StarStarEq)?.is_some() {
            return Ok(true);
        }
        if self.punc(PunctuatorToken::LAngleAngleEq)?.is_some() {
            return Ok(true);
        }
        if self.punc(PunctuatorToken::RAngleAngleEq)?.is_some() {
            return Ok(true);
        }
        if self.punc(PunctuatorToken::RAngleAngleAngleEq)?.is_some() {
            return Ok(true);
        }
        if self.punc(PunctuatorToken::AmpEq)?.is_some() {
            return Ok(true);
        }
        if self.punc(PunctuatorToken::BarEq)?.is_some() {
            return Ok(true);
        }
        if self.punc(PunctuatorToken::CaretEq)?.is_some() {
            return Ok(true);
        }
        Ok(false)
    }

    /// Takes a binary operator where one is next; `in` only where it is allowed.
    #[verifier::rlimit(60)]
    fn binary_operator(&mut self) -> (r: Result<bool, ParseError>)
        requires
            old(self).wf(),
        ensures
            final(self).wf(),
            r is Ok ==> kept(old(self).state(), final(self).state()),
            r == Ok::<bool, ParseError>(true) ==> remaining(final(self).state()) < remaining(old(self).state()),
            match filled(old(self).state()) {
                None => r is Err,
                Some(t) => if is_binary_operator(t.ahead[0].1, old(self).state().flags.allow_in) {
                    r == Ok::<bool, ParseError>(true) && final(self).state() == popped(t)
                } else {
                    r == Ok::<bool, ParseError>(false) && final(self).state() == t
                },
            },
    {
        proof {
            lemma_filled_ahead(old(self).state());
        }
        if self.punc(PunctuatorToken::BarBar)?.is_some() {
            return Ok(true);
        }
        if self.punc(PunctuatorToken::AmpAmp)?.is_some() {
            return Ok(true);
        }
        if self.punc(PunctuatorToken::Bar)?.is_some() {
            return Ok(true);
        }
        if self.punc(PunctuatorToken::Caret)?.is_some() {
            return Ok(true);
        }
        if self.punc(PunctuatorToken::Amp)?.is_some() {
            return Ok(true);
        }
        if self.punc(PunctuatorToken::EqEq)?.is_some() {
            return Ok(true);
        }
        if self.punc(PunctuatorToken::ExclamEq)?.is_some() {
            return Ok(true);
        }
        if self.punc(PunctuatorToken::EqEqEq)?.is_some() {
            return Ok(true);
        }
        if self.punc(PunctuatorToken::ExclamEqEq)?.is_some() {
            return Ok(true);
        }
        if self.punc(PunctuatorToken::LAngle)?.is_some() {
            return Ok(true);
        }
        if self.punc(PunctuatorToken::RAngle)?.is_some() {
            return Ok(true);
        }
        if self.punc(PunctuatorToken::LAngleEq)?.is_some() {
            return Ok(true);
        }
        if self.punc(PunctuatorToken::RAngleEq)?.is_some() {
            return Ok(true);
        }
        if self.punc(PunctuatorToken::LAngleAngle)?.is_some() {
            return Ok(true);
        }
        if self.punc(PunctuatorToken::RAngleAngle)?.is_some() {
            return Ok(true);
        }
        if self.punc(PunctuatorToken::RAngleAngleAngle)?.is_some() {
            return Ok(true);
        }
        if self.punc(PunctuatorToken::Plus)?.is_some() {
            return Ok(true);
        }
        if self.punc(PunctuatorToken::Minus)?.is_some() {
            return Ok(true);
        }
        if self.punc(PunctuatorToken::Star)?.is_some() {
            return Ok(true);
        }
        if self.punc(PunctuatorToken::Slash)?.is_some() {
            return Ok(true);
        }
        if self.punc(PunctuatorToken::Percent)?.is_some() {
            return Ok(true);
        }
        if self.punc(PunctuatorToken::StarStar)?.is_some() {
            return Ok(true);
        }
        if self.keyword("instanceof")?.is_some() {
            return Ok(true);
        }
        if self.flags.allow_in && self.keyword("in")?.is_some() {
            return Ok(true);
        }
        Ok(false)
    }

    /// A `yield` expression; `async name => body`; or a conditional
    /// expression, then an arrow and its body, or an assignment operator and
    /// a value.
    #[verifier::rlimit(60)]
    pub fn parse_assignment_expression(&mut self) -> (r: Result<bool, ParseError>)
        requires
            old(self).wf(),
        ensures
            final(self).wf(),
            r is Ok ==> kept(old(self).state(), final(self).state()),
            r == Ok::<bool, ParseError>(true) ==> remaining(final(self).state()) < remaining(old(self).state()),
            r == Ok::<bool, ParseError>(false) ==> nothing_taken(old(self).state(), final(self).state())
                && (next_model(old(self).state()) matches Some(m) && !starts_assignment(m, old(self).state().flags)),
            (next_model(old(self).state()) matches Some(m) && starts_assignment(m, old(self).state().flags)) ==> r != Ok::<bool, ParseError>(false),
            at_end(old(self).state()) ==> r == Ok::<bool, ParseError>(false) && at_end(final(self).state())
                && final(self).state().taken == old(self).state().taken,
        decreases remaining(old(self).state()), 7nat,
    {
        proof {
            lemma_at_end(old(self).state());
        }
        proof {
            lemma_filled_ahead(old(self).state());
            reveal(starts_assignment);
        }
        if self.parse_yield_expression()? {
            return Ok(true);
        }
        let ghost t = self.state();
        proof {
            lemma_second_read_ahead(t);
        }
        let flags = self.flags;
        let maybe_async_arrow = match self.ident_lookahead()? {
            Some(ahead) => match ahead.token {
                Token::IdentifierName(n) => !ahead.line && is_binding_identifier(&flags, n.name.as_str()),
                _ => false,
            },
            None => false,
        };
        if maybe_async_arrow && self.keyword("async")?.is_some() {
            if !self.no_line_terminator()? {
                return Err(ParseError {});
            }
            if self.binding_identifier()?.is_none() {
                return Err(ParseError {});
            }
            if !self.no_line_terminator()? {
                return Err(ParseError {});
            }
            if self.punc(PunctuatorToken::Arrow)?.is_none() {
                return Err(ParseError {});
            }
            if !self.parse_arrow_body()? {
                return Err(ParseError {});
            }
            return Ok(true);
        }
        let ghost u = self.state();
        assert(nothing_taken(old(self).state(), u));
        proof {
            lemma_taken_facts(old(self).state(), u);
        }
        if !self.parse_conditional_expression()? {
            proof {
                lemma_taken_chain(old(self).state(), u, self.state());
            }
            return Ok(false);
        }
        self.parse_assignment_rest()?;
        Ok(true)
    }

    /// What follows the conditional expression of an assignment expression:
    /// `=>` and the arrow's body, or an assignment operator and a value; or
    /// nothing, where the next token is neither. After `=>` or an operator,
    /// what must follow is missing where this fails.
    pub fn parse_assignment_rest(&mut self) -> (r: Result<(), ParseError>)
        requires
            old(self).wf(),
        ensures
            final(self).wf(),
            r is Ok ==> kept(old(self).state(), final(self).state()),
            r is Ok ==> assignment_rest(old(self).state(), final(self).state()),
        decreases remaining(old(self).state()), 12nat,
    {
        proof {
            lemma_filled_ahead(old(self).state());
        }
        if self.punc(PunctuatorToken::Arrow)?.is_some() {
            if !self.parse_arrow_body()? {
                return Err(ParseError {});
            }
        } else if self.assignment_operator()? {
            self.expect_expression();
            if !self.parse_assignment_expression()? {
                return Err(ParseError {});
            }
        }
        Ok(())
    }

    /// The body of an arrow function: a block or an assignment expression.
    fn parse_arrow_body(&mut self) -> (r: Result<bool, ParseError>)
        requires
            old(self).wf(),
        ensures
            final(self).wf(),
            r is Ok ==> kept(old(self).state(), final(self).state()),
            r == Ok::<bool, ParseError>(true) ==> remaining(final(self).state()) < remaining(old(self).state()),
        decreases remaining(old(self).state()), 11nat,
    {
        self.expect_expression();
        if self.parse_block_statement()? {
            return Ok(true);
        }
        self.parse_assignment_expression()
    }

    /// `yield`, with `*` and a value where no line break follows it.
    fn parse_yield_expression(&mut self) -> (r: Result<bool, ParseError>)
        requires
            old(self).wf(),
        ensures
            final(self).wf(),
            r is Ok ==> kept(old(self).state(), final(self).state()),
            r == Ok::<bool, ParseError>(true) ==> remaining(final(self).state()) < remaining(old(self).state()),
            r == Ok::<bool, ParseError>(false) <==> (filled(old(self).state()) is Some && !starts_with_word(old(self).state(), "yield".spec_bytes())),
            r == Ok::<bool, ParseError>(true) ==> starts_with_word(old(self).state(), "yield".spec_bytes()),
            r == Ok::<bool, ParseError>(false) ==> filled(old(self).state()) == Some(final(self).state()),
            at_end(old(self).state()) ==> r == Ok::<bool, ParseError>(false) && at_end(final(self).state())
                && final(self).state().taken == old(self).state().taken,
        decreases remaining(old(self).state()), 0nat,
    {
        proof {
            lemma_at_end(old(self).state());
        }
        if self.keyword("yield")?.is_none() {
            return Ok(false);
        }
        if self.no_line_terminator()? {
            self.expect_expression();
            self.punc(PunctuatorToken::Star)?;
            self.expect_expression();
            self.parse_expression()?;
        }
        Ok(true)
    }

    /// A binary expression with an optional `? then : else`.
    pub fn parse_conditional_expression(&mut self) -> (r: Result<bool, ParseError>)
        requires
            old(self).wf(),
        ensures
            final(self).wf(),
            r is Ok ==> kept(old(self).state(), final(self).state()),
            r == Ok::<bool, ParseError>(true) ==> remaining(final(self).state()) < remaining(old(self).state()),
            r == Ok::<bool, ParseError>(false) ==> nothing_taken(old(self).state(), final(self).state())
                && (next_model(old(self).state()) matches Some(m) && !starts_unary(m, old(self).state().flags)),
            (next_model(old(self).state()) matches Some(m) && starts_unary(m, old(self).state().flags)) ==> r != Ok::<bool, ParseError>(false),
            at_end(old(self).state()) ==> r == Ok::<bool, ParseError>(false) && at_end(final(self).state())
                && final(self).state().taken == old(self).state().taken,
        decreases remaining(old(self).state()), 6nat,
    {
        proof {
            lemma_at_end(old(self).state());
        }
        if !self.parse_binary_expression()? {
            return Ok(false);
        }
        if self.punc(PunctuatorToken::Question)?.is_some() {
            self.with(Flag::In);
            self.expect_expression();
            if !self.parse_assignment_expression()? {
                return Err(ParseError {});
            }
            self.pop_flags();
            proof {
                assert(self.state().stack =~= old(self).state().stack);
            }
            if self.punc(PunctuatorToken::Colon)?.is_none() {
                return Err(ParseError {});
            }
            self.expect_expression();
            if !self.parse_assignment_expression()? {
                return Err(ParseError {});
            }
        }
        Ok(true)
    }

    /// Unary expressions joined by binary operators.
    pub fn parse_binary_expression(&mut self) -> (r: Result<bool, ParseError>)
        requires
            old(self).wf(),
        ensures
            final(self).wf(),
            r is Ok ==> kept(old(self).state(), final(self).state()),
            r == Ok::<bool, ParseError>(true) ==> remaining(final(self).state()) < remaining(old(self).state()),
            r == Ok::<bool, ParseError>(false) ==> nothing_taken(old(self).state(), final(self).state())
                && (next_model(old(self).state()) matches Some(m) && !starts_unary(m, old(self).state().flags)),
            (next_model(old(self).state()) matches Some(m) && starts_unary(m, old(self).state().flags)) ==> r != Ok::<bool, ParseError>(false),
            at_end(old(self).state()) ==> r == Ok::<bool, ParseError>(false) && at_end(final(self).state())
                && final(self).state().taken == old(self).state().taken,
            r == Ok::<bool, ParseError>(true) ==> filled(final(self).state()) == Some(final(self).state())
                && !is_binary_operator(final(self).state().ahead[0].1, old(self).state().flags.allow_in),
        decreases remaining(old(self).state()), 5nat,
    {
        proof {
            lemma_at_end(old(self).state());
        }
        if !self.parse_unary_expression()? {
            return Ok(false);
        }
        loop
            invariant
                !at_end(old(self).state()),
                self.wf(),
                kept(old(self).state(), self.state()),
                remaining(self.state()) < remaining(old(self).state()),
            ensures
                filled(self.state()) == Some(self.state()),
                !is_binary_operator(self.state().ahead[0].1, old(self).state().flags.allow_in),
            decreases remaining(self.state()),
        {
            let ghost before = self.state();
            proof {
                lemma_filled_ahead(before);
            }
            if !self.binary_operator()? {
                break;
            }
            self.expect_expression();
            if !self.parse_unary_expression()? {
                return Err(ParseError {});
            }
        }
        Ok(true)
    }

    /// An update expression after any number of prefix operators; `await`
    /// only where it is allowed, and nowhere else.
    #[verifier::rlimit(60)]
    pub fn parse_unary_expression(&mut self) -> (r: Result<bool, ParseError>)
        requires
            old(self).wf(),
        ensures
            final(self).wf(),
            r is Ok ==> kept(old(self).state(), final(self).state()),
            r == Ok::<bool, ParseError>(true) ==> remaining(final(self).state()) < remaining(old(self).state()),
            r == Ok::<bool, ParseError>(false) ==> nothing_taken(old(self).state(), final(self).state())
                && (next_model(old(self).state()) matches Some(m) && !starts_unary(m, old(self).state().flags)),
            (next_model(old(self).state()) matches Some(m) && starts_unary(m, old(self).state().flags)) ==> r != Ok::<bool, ParseError>(false),
            at_end(old(self).state()) ==> r == Ok::<bool, ParseError>(false) && at_end(final(self).state())
                && final(self).state().taken == old(self).state().taken,
        decreases remaining(old(self).state()), 4nat,
    {
        proof {
            lemma_at_end(old(self).state());
        }
        proof {
            lemma_filled_ahead(old(self).state());
            reveal(starts_unary);
        }
        let mut prefix = false;
        if !prefix && self.punc(PunctuatorToken::Plus)?.is_some() {
            prefix = true;
        }
        if !prefix && self.punc(PunctuatorToken::Minus)?.is_some() {
            prefix = true;
        }
        if !prefix && self.punc(PunctuatorToken::Exclam)?.is_some() {
            prefix = true;
        }
        if !prefix && self.punc(PunctuatorToken::Tilde)?.is_some() {
            prefix = true;
        }
        if !prefix && self.keyword("typeof")?.is_some() {
            prefix = true;
        }
        if !prefix && self.keyword("void")?.is_some() {
            prefix = true;
        }
        if !prefix && self.keyword("delete")?.is_some() {
            prefix = true;
        }
        if !prefix && self.keyword("await")?.is_some() {
            if !self.flags.allow_await {
                return Err(ParseError {});
            }
            prefix = true;
        }
        if prefix {
            self.expect_expression();
            if !self.parse_unary_expression()? {
                return Err(ParseError {});
            }
            return Ok(true);
        }
        let ghost t = self.state();
        let r = self.parse_update_expression();
        proof {
            if r == Ok::<bool, ParseError>(false) {
                lemma_taken_chain(old(self).state(), t, self.state());
            }
        }
        r
    }

    /// `++` or `--` and an update expression, or a left-hand-side expression
    /// with `++` or `--` after it where no line break comes before.
    pub fn parse_update_expression(&mut self) -> (r: Result<bool, ParseError>)
        requires
            old(self).wf(),
        ensures
            final(self).wf(),
            r is Ok ==> kept(old(self).state(), final(self).state()),
            r == Ok::<bool, ParseError>(true) ==> remaining(final(self).state()) < remaining(old(self).state()),
            r == Ok::<bool, ParseError>(false) ==> nothing_taken(old(self).state(), final(self).state())
                && (next_model(old(self).state()) matches Some(m) && !starts_update(m, old(self).state().flags)),
            (next_model(old(self).state()) matches Some(m) && starts_update(m, old(self).state().flags)) ==> r != Ok::<bool, ParseError>(false),
            at_end(old(self).state()) ==> r == Ok::<bool, ParseError>(false) && at_end(final(self).state())
                && final(self).state().taken == old(self).state().taken,
        decreases remaining(old(self).state()), 3nat,
    {
        proof {
            lemma_at_end(old(self).state());
        }
        proof {
            lemma_filled_ahead(old(self).state());
            reveal(starts_update);
        }
        if self.punc(PunctuatorToken::PlusPlus)?.is_some() || self.punc(PunctuatorToken::MinusMinus)?.is_some() {
            self.expect_expression();
            if !self.parse_update_expression()? {
                return Err(ParseError {});
            }
            return Ok(true);
        }
        let ghost t = self.state();
        if !self.parse_left_hand_expression(true)? {
            proof {
                lemma_taken_chain(old(self).state(), t, self.state());
            }
            return Ok(false);
        }
        if self.no_line_terminator()? {
            if self.punc(PunctuatorToken::PlusPlus)?.is_none() {
                self.punc(PunctuatorToken::MinusMinus)?;
            }
        }
        Ok(true)
    }

    /// `new` and a left-hand-side expression with no call, or a primary
    /// expression or `super`; then member accesses, tagged templates, and
    /// calls where `allow_call`.
    #[verifier::rlimit(60)]
    pub fn parse_left_hand_expression(&mut self, allow_call: bool) -> (r: Result<bool, ParseError>)
        requires
            old(self).wf(),
        ensures
            final(self).wf(),
            r is Ok ==> kept(old(self).state(), final(self).state()),
            r == Ok::<bool, ParseError>(true) ==> remaining(final(self).state()) < remaining(old(self).state()),
            r == Ok::<bool, ParseError>(false) ==> nothing_taken(old(self).state(), final(self).state())
                && (next_model(old(self).state()) matches Some(m) && !starts_left_hand(m, old(self).state().flags)),
            (next_model(old(self).state()) matches Some(m) && starts_left_hand(m, old(self).state().flags)) ==> r != Ok::<bool, ParseError>(false),
            at_end(old(self).state()) ==> r == Ok::<bool, ParseError>(false) && at_end(final(self).state())
                && final(self).state().taken == old(self).state().taken,
        decreases remaining(old(self).state()), 2nat,
    {
        proof {
            lemma_at_end(old(self).state());
        }
        proof {
            lemma_filled_ahead(old(self).state());
            reveal(starts_left_hand);
        }
        if self.keyword("new")?.is_some() {
            if !self.parse_left_hand_expression(false)? {
                return Err(ParseError {});
            }
        } else {
            let ghost t = self.state();
            if !self.parse_primary_expression()? {
                proof {
                    lemma_taken_chain(old(self).state(), t, self.state());
                    lemma_taken_facts(t, self.state());
                }
                if self.keyword("super")?.is_none() {
                    return Ok(false);
                }
            }
        }
        loop
            invariant
                !at_end(old(self).state()),
                self.wf(),
                kept(old(self).state(), self.state()),
                remaining(self.state()) < remaining(old(self).state()),
            decreases remaining(self.state()),
        {
            if self.punc(PunctuatorToken::Period)?.is_some() {
                self.with(Flag::In);
                if self.identifier()?.is_none() {
                    return Err(ParseError {});
                }
                self.pop_flags();
                proof {
                    assert(self.state().stack =~= old(self).state().stack);
                }
            } else if self.punc(PunctuatorToken::SquareOpen)?.is_some() {
                self.with(Flag::In);
                if !self.parse_expression()? {
                    return Err(ParseError {});
                }
                self.pop_flags();
                proof {
                    assert(self.state().stack =~= old(self).state().stack);
                }
                if self.punc(PunctuatorToken::SquareClose)?.is_none() {
                    return Err(ParseError {});
                }
            } else if allow_call && self.parse_arguments()? {
            } else if !self.parse_template_literal_expression()? {
                break;
            }
        }
        Ok(true)
    }

    /// The arguments of a call in parentheses.
    fn parse_arguments(&mut self) -> (r: Result<bool, ParseError>)
        requires
            old(self).wf(),
        ensures
            final(self).wf(),
            r is Ok ==> kept(old(self).state(), final(self).state()),
            r == Ok::<bool, ParseError>(true) ==> remaining(final(self).state()) < remaining(old(self).state()),
            r == Ok::<bool, ParseError>(false) <==> (filled(old(self).state()) is Some && !starts_with_punc(old(self).state(), PunctuatorToken::ParenOpen)),
            r == Ok::<bool, ParseError>(false) ==> filled(old(self).state()) == Some(final(self).state()),
        decreases remaining(old(self).state()), 1nat,
    {
        if self.punc(PunctuatorToken::ParenOpen)?.is_none() {
            return Ok(false);
        }
        self.with(Flag::In);
        self.expect_expression();
        if self.parse_assignment_expression()? {
            loop
                invariant
                    starts_with_punc(old(self).state(), PunctuatorToken::ParenOpen),
                    self.wf(),
                    self.state().src == old(self).state().src,
                    self.state().flags == old(self).state().flags.with_flag(Flag::In, true),
                    self.state().stack == old(self).state().stack.push(old(self).state().flags),
                    remaining(self.state()) < remaining(old(self).state()),
                decreases remaining(self.state()),
            {
                if self.punc(PunctuatorToken::Comma)?.is_none() {
                    break;
                }
                self.expect_expression();
                if !self.parse_assignment_expression()? {
                    return Err(ParseError {});
                }
            }
        }
        self.pop_flags();
        proof {
            assert(self.state().stack =~= old(self).state().stack);
        }
        if self.punc(PunctuatorToken::ParenClose)?.is_none() {
            return Err(ParseError {});
        }
        Ok(true)
    }

    /// `this`, a literal, a function or class expression, a template, a name
    /// (not one followed by `function`), a parenthesized expression, or an
    /// array or object literal.
    #[verifier::rlimit(60)]
    pub fn parse_primary_expression(&mut self) -> (r: Result<bool, ParseError>)
        requires
            old(self).wf(),
        ensures
            final(self).wf(),
            r is Ok ==> kept(old(self).state(), final(self).state()),
            r == Ok::<bool, ParseError>(true) ==> remaining(final(self).state()) < remaining(old(self).state()),
            r == Ok::<bool, ParseError>(false) ==> nothing_taken(old(self).state(), final(self).state())
                && (next_model(old(self).state()) matches Some(m) && !starts_primary(m, old(self).state().flags)),
            (next_model(old(self).state()) matches Some(m) && starts_primary(m, old(self).state().flags))
                ==> r != Ok::<bool, ParseError>(false),
            at_end(old(self).state()) ==> r == Ok::<bool, ParseError>(false) && at_end(final(self).state())
                && final(self).state().taken == old(self).state().taken,
        decreases remaining(old(self).state()), 1nat,
    {
        proof {
            lemma_at_end(old(self).state());
        }
        proof {
            reveal(starts_primary);
        }
        proof {
            lemma_filled_ahead(old(self).state());
        }
        if self.parse_literal()? {
            return Ok(true);
        }
        let ghost t = self.state();
        proof {
            lemma_second_read_ahead(t);
        }
        if self.parse_function_expression()? {
            return Ok(true);
        }
        let ghost s2 = self.state();
        assert(s2 == t || (t.ahead.len() == 1 && second_read(t) == Some(s2)));
        assert(filled(s2) == Some(s2) && s2.ahead[0] == t.ahead[0] && s2.flags == t.flags);
        if self.parse_class_expression()? {
            return Ok(true);
        }
        if self.parse_template_literal_expression()? {
            return Ok(true);
        }
        assert(self.state() == s2);
        let before_function = match self.ident_lookahead()? {
            Some(ahead) => match ahead.token {
                Token::IdentifierName(n) => bytes_eq(n.name.as_str().as_bytes(), "function".as_bytes()),
                _ => false,
            },
            None => false,
        };
        let ghost s4 = self.state();
        proof {
            lemma_second_read_ahead(s2);
        }
        assert(s4 == t || (t.ahead.len() == 1 && second_read(t) == Some(s4)));
        assert(filled(s4) == Some(s4) && s4.ahead[0] == t.ahead[0] && s4.flags == t.flags && s4.ahead.len() > 0);
        if self.binding_identifier()?.is_some() {
            if before_function {
                return Err(ParseError {});
            }
            return Ok(true);
        }
        if self.parse_cover_parenthesized_expression()? {
            return Ok(true);
        }
        if self.parse_array_literal()? {
            return Ok(true);
        }
        assert(self.state() == s4);
        self.parse_object_literal()
    }

    /// `this`, `null`, `true`, `false`, or a numeric, string or regular expression literal.
    fn parse_literal(&mut self) -> (r: Result<bool, ParseError>)
        requires
            old(self).wf(),
        ensures
            final(self).wf(),
            r is Ok ==> kept(old(self).state(), final(self).state()),
            r == Ok::<bool, ParseError>(true) ==> remaining(final(self).state()) < remaining(old(self).state()),
            r == Ok::<bool, ParseError>(false) ==> filled(old(self).state()) == Some(final(self).state()) && (next_model(old(self).state()) matches Some(m) && !(starts_literal(m))),
            (next_model(old(self).state()) matches Some(m) && starts_literal(m)) ==> r == Ok::<bool, ParseError>(true),
            at_end(old(self).state()) ==> r == Ok::<bool, ParseError>(false) && at_end(final(self).state())
                && final(self).state().taken == old(self).state().taken,
        decreases remaining(old(self).state()), 0nat,
    {
        proof {
            lemma_at_end(old(self).state());
        }
        proof {
            reveal(starts_literal);
        }
        proof {
            lemma_filled_ahead(old(self).state());
        }
        if self.keyword("this")?.is_some() {
            return Ok(true);
        }
        if self.keyword("null")?.is_some() {
            return Ok(true);
        }
        if self.keyword("true")?.is_some() {
            return Ok(true);
        }
        if self.keyword("false")?.is_some() {
            return Ok(true);
        }
        if self.numeric()?.is_some() {
            return Ok(true);
        }
        if self.string()?.is_some() {
            return Ok(true);
        }
        Ok(self.regex()?.is_some())
    }

    /// `( expressions )`, where a rest element `...name` or `...pattern` may
    /// come last, or alone: the parameters of an arrow function look so.
    fn parse_cover_parenthesized_expression(&mut self) -> (r: Result<bool, ParseError>)
        requires
            old(self).wf(),
        ensures
            final(self).wf(),
            r is Ok ==> kept(old(self).state(), final(self).state()),
            r == Ok::<bool, ParseError>(true) ==> remaining(final(self).state()) < remaining(old(self).state()),
            r == Ok::<bool, ParseError>(false) <==> (filled(old(self).state()) is Some && !starts_with_punc(old(self).state(), PunctuatorToken::ParenOpen)),
            r == Ok::<bool, ParseError>(false) ==> filled(old(self).state()) == Some(final(self).state()),
            at_end(old(self).state()) ==> r == Ok::<bool, ParseError>(false) && at_end(final(self).state())
                && final(self).state().taken == old(self).state().taken,
        decreases remaining(old(self).state()), 0nat,
    {
        proof {
            lemma_at_end(old(self).state());
        }
        if self.punc(PunctuatorToken::ParenOpen)?.is_none() {
            return Ok(false);
        }
        self.expect_expression();
        if self.parse_assignment_expression()? {
            loop
                invariant
                    !at_end(old(self).state()),
                    starts_with_punc(old(self).state(), PunctuatorToken::ParenOpen),
                    self.wf(),
                    kept(old(self).state(), self.state()),
                    remaining(self.state()) < remaining(old(self).state()),
                decreases remaining(self.state()),
            {
                if self.punc(PunctuatorToken::Comma)?.is_none() {
                    break;
                }
                self.expect_expression();
                if self.punc(PunctuatorToken::Ellipsis)?.is_some() {
                    if !self.parse_binding_pattern()? {
                        if self.binding_identifier()?.is_none() {
                            return Err(ParseError {});
                        }
                    }
                } else if !self.parse_assignment_expression()? {
                    return Err(ParseError {});
                }
            }
        } else if self.punc(PunctuatorToken::Ellipsis)?.is_some() {
            if !self.parse_binding_pattern()? {
                if self.binding_identifier()?.is_none() {
                    return Err(ParseError {});
                }
            }
        }
        if self.punc(PunctuatorToken::ParenClose)?.is_none() {
            return Err(ParseError {});
        }
        Ok(true)
    }

    /// A template: one with no substitutions, or a head, then expressions
    /// each followed by a middle or the tail, read with templates expected.
    fn parse_template_literal_expression(&mut self) -> (r: Result<bool, ParseError>)
        requires
            old(self).wf(),
        ensures
            final(self).wf(),
            r is Ok ==> kept(old(self).state(), final(self).state()),
            r == Ok::<bool, ParseError>(true) ==> remaining(final(self).state()) < remaining(old(self).state()),
            r == Ok::<bool, ParseError>(false) ==> filled(old(self).state()) == Some(final(self).state()) && (next_model(old(self).state()) matches Some(m) && !is_head_template(m)),
            (next_model(old(self).state()) matches Some(m) && is_head_template(m)) ==> r != Ok::<bool, ParseError>(false),
            at_end(old(self).state()) ==> r == Ok::<bool, ParseError>(false) && at_end(final(self).state())
                && final(self).state().taken == old(self).state().taken,
        decreases remaining(old(self).state()), 0nat,
    {
        proof {
            lemma_at_end(old(self).state());
        }
        proof {
            lemma_filled_ahead(old(self).state());
        }
        let first = match self.template()? {
            Some(t) => t,
            None => {
                return Ok(false);
            },
        };
        if first.format == TemplateFormat::Head {
            self.with(Flag::Template);
            loop
                invariant
                    !at_end(old(self).state()),
                    self.wf(),
                    self.state().src == old(self).state().src,
                    self.state().flags == old(self).state().flags.with_flag(Flag::Template, true),
                    self.state().stack == old(self).state().stack.push(old(self).state().flags),
                    remaining(self.state()) < remaining(old(self).state()),
                decreases remaining(self.state()),
            {
                if !self.parse_expression()? {
                    return Err(ParseError {});
                }
                let next = match self.template_tail()? {
                    Some(t) => t,
                    None => {
                        return Err(ParseError {});
                    },
                };
                if next.format == TemplateFormat::Tail {
                    break;
                }
            }
            self.pop_flags();
            proof {
                assert(self.state().stack =~= old(self).state().stack);
            }
        }
        Ok(true)
    }

    /// An array literal: items, each a value or `...value`, separated by
    /// commas; items may be left out.
    fn parse_array_literal(&mut self) -> (r: Result<bool, ParseError>)
        requires
            old(self).wf(),
        ensures
            final(self).wf(),
            r is Ok ==> kept(old(self).state(), final(self).state()),
            r == Ok::<bool, ParseError>(true) ==> remaining(final(self).state()) < remaining(old(self).state()),
            r == Ok::<bool, ParseError>(false) <==> (filled(old(self).state()) is Some && !starts_with_punc(old(self).state(), PunctuatorToken::SquareOpen)),
            r == Ok::<bool, ParseError>(false) ==> filled(old(self).state()) == Some(final(self).state()),
            at_end(old(self).state()) ==> r == Ok::<bool, ParseError>(false) && at_end(final(self).state())
                && final(self).state().taken == old(self).state().taken,
        decreases remaining(old(self).state()), 0nat,
    {
        proof {
            lemma_at_end(old(self).state());
        }
        if self.punc(PunctuatorToken::SquareOpen)?.is_none() {
            return Ok(false);
        }
        loop
            invariant
                !at_end(old(self).state()),
                starts_with_punc(old(self).state(), PunctuatorToken::SquareOpen),
                self.wf(),
                kept(old(self).state(), self.state()),
                remaining(self.state()) < remaining(old(self).state()),
            decreases remaining(self.state()),
        {
            if self.punc(PunctuatorToken::Ellipsis)?.is_some() {
                if !self.parse_assignment_expression()? {
                    return Err(ParseError {});
                }
            } else {
                self.parse_assignment_expression()?;
            }
            if self.punc(PunctuatorToken::Comma)?.is_none() {
                break;
            }
        }
        if self.punc(PunctuatorToken::SquareClose)?.is_none() {
            return Err(ParseError {});
        }
        Ok(true)
    }

    /// An object literal: properties separated by commas, read with templates
    /// not expected; properties may be left out.
    fn parse_object_literal(&mut self) -> (r: Result<bool, ParseError>)
        requires
            old(self).wf(),
        ensures
            final(self).wf(),
            r is Ok ==> kept(old(self).state(), final(self).state()),
            r == Ok::<bool, ParseError>(true) ==> remaining(final(self).state()) < remaining(old(self).state()),
            old(self).state().ahead.len() > 0 ==> (r == Ok::<bool, ParseError>(false) <==> !is_punc(old(self).state().ahead[0].1, PunctuatorToken::CurlyOpen)),
            old(self).state().ahead.len() > 0 && r == Ok::<bool, ParseError>(false) ==> final(self).state() == old(self).state(),
            at_end(old(self).state()) ==> r == Ok::<bool, ParseError>(false) && at_end(final(self).state())
                && final(self).state().taken == old(self).state().taken,
        decreases remaining(old(self).state()), 0nat,
    {
        proof {
            lemma_at_end(old(self).state());
        }
        proof {
            old(self).lemma_wf_template();
        }
        self.without(Flag::Template);
        assert(at_end(old(self).state()) ==> at_end(self.state()));
        proof {
            lemma_filled_ahead(self.state());
            reveal(filled);
        }
        if self.punc(PunctuatorToken::CurlyOpen)?.is_none() {
            self.pop_flags();
            proof {
                assert(self.state().stack =~= old(self).state().stack);
                let h = old(self).state().hint;
                h.lemma_set(false, false);
                h.set_template(false).lemma_set(false, old(self).state().flags.expect_template);
                h.set_template(false).set_template(old(self).state().flags.expect_template).lemma_same(h);
            }
            assert(at_end(old(self).state()) ==> at_end(self.state()));
            return Ok(false);
        }
        loop
            invariant
                !at_end(old(self).state()),
                old(self).state().ahead.len() > 0 ==> is_punc(old(self).state().ahead[0].1, PunctuatorToken::CurlyOpen),
                self.wf(),
                self.state().src == old(self).state().src,
                self.state().flags == old(self).state().flags.with_flag(Flag::Template, false),
                self.state().stack == old(self).state().stack.push(old(self).state().flags),
                remaining(self.state()) < remaining(old(self).state()),
            decreases remaining(self.state()),
        {
            self.parse_object_property()?;
            if self.punc(PunctuatorToken::Comma)?.is_none() {
                break;
            }
        }
        if self.punc(PunctuatorToken::CurlyClose)?.is_none() {
            return Err(ParseError {});
        }
        self.pop_flags();
        proof {
            assert(self.state().stack =~= old(self).state().stack);
        }
        Ok(true)
    }

    /// `...value`; a method head, then `: value` or, where they follow, the
    /// parameters and body of a method.
    fn parse_object_property(&mut self) -> (r: Result<bool, ParseError>)
        requires
            old(self).wf(),
        ensures
            final(self).wf(),
            r is Ok ==> kept(old(self).state(), final(self).state()),
            r == Ok::<bool, ParseError>(true) ==> remaining(final(self).state()) < remaining(old(self).state()),
        decreases remaining(old(self).state()), 3nat,
    {
        if self.punc(PunctuatorToken::Ellipsis)?.is_some() {
            self.expect_expression();
            if !self.parse_assignment_expression()? {
                return Err(ParseError {});
            }
            return Ok(true);
        }
        let head = match self.parse_method_head(true)? {
            Some(h) => h,
            None => {
                return Ok(false);
            },
        };
        if self.punc(PunctuatorToken::Colon)?.is_some() {
            self.expect_expression();
            if !self.parse_assignment_expression()? {
                return Err(ParseError {});
            }
        } else {
            self.parse_method_tail(head)?;
        }
        Ok(true)
    }
}

} // verus!
