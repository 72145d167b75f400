//! A recursive-descent recognizer of JavaScript over the token stream, with
//! a two-token lookahead and a stack of grammar flags.

pub mod tokens;
pub mod grammar;
pub mod module;
pub mod bindings;
pub mod statements;
pub mod functions;
pub mod classes;

use vstd::prelude::*;
use vstd::string::StringSliceAdditionalSpecFns;
use crate::tokenizer::{Hint, IntoTokenizer, Position};
use crate::tokenizer::slice::SliceTokenizer;
use crate::tokenizer::tokens::{
    Token, TokenModel, PunctuatorToken, IdentifierNameToken, NumericLiteralToken, StringLiteralToken,
    RegularExpressionLiteralToken, TemplateToken, TemplateFormat, EOFToken, text,
};
use crate::parser::tokens::{LookaheadResult, ParseError, read_from, read_token_at, step_at, is_trivia, lemma_lex_eof, lemma_read_from_meaningful};
use crate::tokenizer::scan::{lemma_scan_to, is_ws_byte, zwnbsp_at, nbsp_at, ws_end, cut_ok};

verus! {

/// A grammar parameter that a production sets or clears for what it holds.
#[derive(Debug, Clone, Copy, PartialEq, Eq, Structural)]
pub enum Flag {
    In,
    Yield,
    Await,
    Return,
    Default,
    Module,
    Strict,
    Noop,
    Template,
}

/// The grammar parameters in force.
#[derive(Debug, Clone, Copy, PartialEq, Eq, Structural)]
pub struct GrammarFlags {
    pub allow_in: bool,
    pub allow_yield: bool,
    pub allow_await: bool,
    pub allow_return: bool,
    pub allow_default: bool,
    pub is_module: bool,
    pub is_strict: bool,
    pub expect_template: bool,
}

impl Default for GrammarFlags {
    fn default() -> (f: GrammarFlags)
        ensures
            f == GrammarFlags::none(),
    {
        GrammarFlags {
            allow_in: false,
            allow_yield: false,
            allow_await: false,
            allow_return: false,
            allow_default: false,
            is_module: false,
            is_strict: false,
            expect_template: false,
        }
    }
}

impl GrammarFlags {
    pub open spec fn none() -> GrammarFlags {
        GrammarFlags {
            allow_in: false,
            allow_yield: false,
            allow_await: false,
            allow_return: false,
            allow_default: false,
            is_module: false,
            is_strict: false,
            expect_template: false,
        }
    }

    /// These flags with `flag` set to `val`.
    pub open spec fn with_flag(self, flag: Flag, val: bool) -> GrammarFlags {
        match flag {
            Flag::In => GrammarFlags { allow_in: val, ..self },
            Flag::Yield => GrammarFlags { allow_yield: val, ..self },
            Flag::Await => GrammarFlags { allow_await: val, ..self },
            Flag::Return => GrammarFlags { allow_return: val, ..self },
            Flag::Default => GrammarFlags { allow_default: val, ..self },
            Flag::Module => GrammarFlags { is_module: val, ..self },
            Flag::Strict => GrammarFlags { is_strict: val, ..self },
            Flag::Template => GrammarFlags { expect_template: val, ..self },
            Flag::Noop => self,
        }
    }
}

pub(crate) fn bytes_eq(a: &[u8], b: &[u8]) -> (r: bool)
    ensures
        r == (a@ == b@),
{
    if a.len() != b.len() {
        return false;
    }
    let mut i: usize = 0;
    while i < a.len()
        invariant
            a@.len() == b@.len(),
            i <= a@.len(),
            forall|k: int| 0 <= k < i ==> a@[k] == b@[k],
        decreases a@.len() - i,
    {
        if a[i] != b[i] {
            return false;
        }
        i = i + 1;
    }
    proof {
        assert(a@ =~= b@);
    }
    true
}

/// Whether `name` (its UTF-8 bytes) may name a binding under `flags`.
pub open spec fn binding_name(flags: GrammarFlags, name: Seq<u8>) -> bool {
    if name == "yield".spec_bytes() && !flags.allow_yield {
        false
    } else if name == "await".spec_bytes() && !flags.allow_await {
        false
    } else if name == "break".spec_bytes() || name == "case".spec_bytes() || name == "catch".spec_bytes() || name == "class".spec_bytes() || name == "const".spec_bytes() || name == "continue".spec_bytes() || name == "debugger".spec_bytes() || name == "default".spec_bytes() || name == "delete".spec_bytes() || name == "do".spec_bytes() || name == "else".spec_bytes() || name == "export".spec_bytes() || name == "extends".spec_bytes() || name == "finally".spec_bytes() || name == "for".spec_bytes() || name == "function".spec_bytes() || name == "if".spec_bytes() || name == "import".spec_bytes() || name == "in".spec_bytes() || name == "instanceof".spec_bytes() || name == "new".spec_bytes() || name == "return".spec_bytes() || name == "super".spec_bytes() || name == "switch".spec_bytes() || name == "this".spec_bytes() || name == "throw".spec_bytes() || name == "try".spec_bytes() || name == "typeof".spec_bytes() || name == "var".spec_bytes() || name == "void".spec_bytes() || name == "while".spec_bytes() || name == "with".spec_bytes() || name == "yield".spec_bytes() {
        false
    } else if (name == "let".spec_bytes() || name == "static".spec_bytes()) && flags.is_strict {
        false
    } else if name == "enum".spec_bytes() {
        false
    } else if (name == "implements".spec_bytes() || name == "package".spec_bytes() || name == "protected".spec_bytes() || name == "interface".spec_bytes() || name == "private".spec_bytes() || name == "public".spec_bytes()) && flags.is_strict {
        false
    } else if name == "null".spec_bytes() || name == "true".spec_bytes() || name == "false".spec_bytes() {
        false
    } else {
        true
    }
}

/// Whether `name` may name a binding under `flags`.
pub fn is_binding_identifier(flags: &GrammarFlags, name: &str) -> (r: bool)
    ensures
        r == binding_name(*flags, name.spec_bytes()),
{
    let b = name.as_bytes();
    if bytes_eq(b, "yield".as_bytes()) && !flags.allow_yield {
        false
    } else if bytes_eq(b, "await".as_bytes()) && !flags.allow_await {
        false
    } else if bytes_eq(b, "break".as_bytes()) || bytes_eq(b, "case".as_bytes()) || bytes_eq(b, "catch".as_bytes()) || bytes_eq(b, "class".as_bytes()) || bytes_eq(b, "const".as_bytes()) || bytes_eq(b, "continue".as_bytes()) || bytes_eq(b, "debugger".as_bytes()) || bytes_eq(b, "default".as_bytes()) || bytes_eq(b, "delete".as_bytes()) || bytes_eq(b, "do".as_bytes()) || bytes_eq(b, "else".as_bytes()) || bytes_eq(b, "export".as_bytes()) || bytes_eq(b, "extends".as_bytes()) || bytes_eq(b, "finally".as_bytes()) || bytes_eq(b, "for".as_bytes()) || bytes_eq(b, "function".as_bytes()) || bytes_eq(b, "if".as_bytes()) || bytes_eq(b, "import".as_bytes()) || bytes_eq(b, "in".as_bytes()) || bytes_eq(b, "instanceof".as_bytes()) || bytes_eq(b, "new".as_bytes()) || bytes_eq(b, "return".as_bytes()) || bytes_eq(b, "super".as_bytes()) || bytes_eq(b, "switch".as_bytes()) || bytes_eq(b, "this".as_bytes()) || bytes_eq(b, "throw".as_bytes()) || bytes_eq(b, "try".as_bytes()) || bytes_eq(b, "typeof".as_bytes()) || bytes_eq(b, "var".as_bytes()) || bytes_eq(b, "void".as_bytes()) || bytes_eq(b, "while".as_bytes()) || bytes_eq(b, "with".as_bytes()) || bytes_eq(b, "yield".as_bytes()) {
        false
    } else if (bytes_eq(b, "let".as_bytes()) || bytes_eq(b, "static".as_bytes())) && flags.is_strict {
        false
    } else if bytes_eq(b, "enum".as_bytes()) {
        false
    } else if (bytes_eq(b, "implements".as_bytes()) || bytes_eq(b, "package".as_bytes()) || bytes_eq(b, "protected".as_bytes()) || bytes_eq(b, "interface".as_bytes()) || bytes_eq(b, "private".as_bytes()) || bytes_eq(b, "public".as_bytes())) && flags.is_strict {
        false
    } else if bytes_eq(b, "null".as_bytes()) || bytes_eq(b, "true".as_bytes()) || bytes_eq(b, "false".as_bytes()) {
        false
    } else {
        true
    }
}

/// What a parser holds: the source and where its tokenizer stands, the hint
/// for the next token, the grammar flags and the saved ones, and the tokens
/// read ahead, each with whether a line break came before it.
pub struct ParserState {
    pub src: Seq<u8>,
    pub off: int,
    pub line: int,
    pub col: int,
    pub hint: Hint,
    pub flags: GrammarFlags,
    pub stack: Seq<GrammarFlags>,
    pub ahead: Seq<(bool, TokenModel)>,
    /// The tokens taken so far, in order.
    pub taken: Seq<TokenModel>,
}

/// How far the input is from used up: two for each byte the tokenizer has
/// not read, one for each read-ahead token other than the end of input.
pub open spec fn remaining(s: ParserState) -> int {
    2 * (s.src.len() - s.off) + non_eof_count(s.ahead)
}

pub open spec fn non_eof_count(ahead: Seq<(bool, TokenModel)>) -> int
    decreases ahead.len(),
{
    if ahead.len() == 0 {
        0
    } else {
        (if ahead[0].1 is EOF { 0int } else { 1int }) + non_eof_count(ahead.drop_first())
    }
}

/// The state with at least one token read ahead: the next token is read
/// where none is; `None` where it cannot be read.
#[verifier::opaque]
pub open spec fn filled(s: ParserState) -> Option<ParserState> {
    if s.ahead.len() > 0 {
        Some(s)
    } else {
        match read_from(s.src, s.off, s.line, s.col, s.hint, false) {
            None => None,
            Some((ln, m, o, l, c)) => Some(
                ParserState {
                    off: o,
                    line: l,
                    col: c,
                    hint: s.hint.set_expression(false),
                    ahead: seq![(ln, m)],
                    ..s
                },
            ),
        }
    }
}

/// Whether the next token, read where none is read ahead, is the name `word`.
pub open spec fn starts_with_word(s: ParserState, word: Seq<u8>) -> bool {
    filled(s) matches Some(t) && t.ahead[0].1 == TokenModel::IdentifierName(word)
}

/// Whether the next token, read where none is read ahead, is `p`.
pub open spec fn starts_with_punc(s: ParserState, p: PunctuatorToken) -> bool {
    filled(s) matches Some(t) && t.ahead[0].1 == TokenModel::Punctuator(p)
}

/// Nothing is left but the end of input: it is read ahead, or nothing is
/// read ahead and only whitespace is left of the source.
pub open spec fn at_end(s: ParserState) -> bool {
    if s.ahead.len() > 0 {
        s.ahead.len() == 1 && s.ahead[0].1 is EOF
    } else {
        0 <= s.off <= s.src.len() && ws_end(s.src, s.off) == s.src.len()
    }
}

/// At the end, the next token is the end of input, whatever the hint.
pub broadcast proof fn lemma_at_end(s: ParserState)
    ensures
        #[trigger] at_end(s) ==> {
            &&& filled(s) matches Some(t)
            &&& t.ahead.len() == 1
            &&& t.ahead[0].1 is EOF
            &&& t.taken == s.taken
            &&& t.flags == s.flags
            &&& t.src == s.src
            &&& t.stack == s.stack
            &&& at_end(t)
            &&& filled(t) == Some(t)
        },
{
    reveal(filled);
    reveal(read_from);
    if at_end(s) && s.ahead.len() == 0 {
        let b = s.src.subrange(s.src.len() as int, s.src.len() as int);
        assert(b.len() == 0);
    }
}

/// Whether `m` is the last token taken.
pub open spec fn last_taken(s: ParserState, m: TokenModel) -> bool {
    s.taken.len() > 0 && s.taken.last() == m
}

/// How a statement ends: with `;` taken, or where a semicolon may be
/// inserted: before a line break, a `}` or the end of input, which stay.
pub open spec fn statement_ended(s: ParserState) -> bool {
    ||| last_taken(s, TokenModel::Punctuator(PunctuatorToken::Semicolon))
    ||| s.ahead.len() > 0 && (s.ahead[0].0 || s.ahead[0].1 == TokenModel::Punctuator(PunctuatorToken::CurlyClose)
        || s.ahead[0].1 is EOF)
}

/// The state with the first token read ahead taken, and counted as taken.
pub open spec fn popped(s: ParserState) -> ParserState {
    ParserState { ahead: s.ahead.drop_first(), taken: s.taken.push(s.ahead[0].1), ..s }
}

/// What a production that succeeds keeps: the source, the flags and the
/// saved flags; and it adds nothing to what is left of the input.
pub open spec fn kept(a: ParserState, b: ParserState) -> bool {
    &&& b.src == a.src
    &&& b.flags == a.flags
    &&& b.stack == a.stack
    &&& remaining(b) <= remaining(a)
}

/// Two states that differ at most in where the tokenizer stands.
pub open spec fn same_but_position(a: ParserState, b: ParserState) -> bool {
    &&& a.src == b.src
    &&& a.hint == b.hint
    &&& a.flags == b.flags
    &&& a.stack == b.stack
    &&& a.ahead == b.ahead
}

/// What a match of the next token against `matches` does: `None` where the
/// token cannot be read; else whether it matched, and the state after.
pub open spec fn take_if(s: ParserState, matches: spec_fn(TokenModel) -> bool) -> Option<(bool, ParserState)> {
    match filled(s) {
        None => None,
        Some(t) => if matches(t.ahead[0].1) {
            Some((true, popped(t)))
        } else {
            Some((false, t))
        },
    }
}

pub open spec fn is_head_template(m: TokenModel) -> bool {
    m matches TokenModel::Template(f, _, _) && (f == TemplateFormat::NoSubstitution || f == TemplateFormat::Head)
}

pub open spec fn is_tail_template(m: TokenModel) -> bool {
    m matches TokenModel::Template(f, _, _) && (f == TemplateFormat::Middle || f == TemplateFormat::Tail)
}

/// Reads JavaScript.
pub struct Parser<'code> {
    tok: SliceTokenizer<'code>,
    hint: Hint,
    flags: GrammarFlags,
    flags_stack: Vec<GrammarFlags>,
    tokens: Vec<LookaheadResult>,
    taken: Ghost<Seq<TokenModel>>,
}

impl<'code> Parser<'code> {
    pub closed spec fn state(&self) -> ParserState {
        ParserState {
            src: self.tok.source(),
            off: self.tok.pos().offset as int,
            line: self.tok.pos().line as int,
            col: self.tok.pos().column as int,
            hint: self.hint,
            flags: self.flags,
            stack: self.flags_stack@,
            ahead: self.tokens@.map_values(|t: LookaheadResult| (t.line, t.token@)),
            taken: self.taken@,
        }
    }

    pub closed spec fn wf(&self) -> bool {
        &&& self.tok.wf()
        &&& self.tokens@.len() <= 2
        &&& self.eof_at_end()
        &&& self.hint.is_template() == self.flags.expect_template
    }

    /// In a well-formed parser the hint expects a template continuation
    /// exactly where the grammar flags do.
    pub proof fn lemma_wf_template(&self)
        requires
            self.wf(),
        ensures
            self.state().hint.is_template() == self.state().flags.expect_template,
    {
    }

    /// An end of input read ahead leaves the tokenizer at the end of the source.
    #[verifier::opaque]
    pub closed spec fn eof_at_end(&self) -> bool {
        forall|i: int|
            0 <= i < self.tokens@.len() && (#[trigger] self.tokens@[i]).token@ is EOF
                ==> self.tok.pos().offset == self.tok.source().len()
    }

    /// Where the end of input is read ahead, the tokenizer stands at the end
    /// of the source.
    pub proof fn lemma_eof_at_end(&self, i: int)
        requires
            self.wf(),
            0 <= i < self.state().ahead.len(),
            self.state().ahead[i].1 is EOF,
        ensures
            self.state().off == self.state().src.len(),
    {
        reveal(Parser::eof_at_end);
        assert(self.state().ahead[i] == (self.tokens@[i].line, self.tokens@[i].token@));
    }

    /// The tokenizer of a well-formed parser stands within the source.
    pub proof fn lemma_wf(&self)
        requires
            self.wf(),
        ensures
            0 <= self.state().off <= self.state().src.len(),
    {
        self.tok.lemma_wf();
    }

    /// A parser at the start of what `tok` reads, with no flags set.
    pub fn new(tok: SliceTokenizer<'code>) -> (p: Parser<'code>)
        requires
            tok.wf(),
        ensures
            p.wf(),
            p.state().src == tok.source(),
            p.state().off == tok.pos().offset,
            p.state().line == tok.pos().line,
            p.state().col == tok.pos().column,
            !p.state().hint.is_expression(),
            !p.state().hint.is_template(),
            !p.state().hint.is_strict(),
            p.state().flags == GrammarFlags::none(),
            p.state().stack.len() == 0,
            p.state().ahead.len() == 0,
            p.state().taken.len() == 0,
    {
        let p = Parser {
            tok,
            hint: Hint::default(),
            flags: GrammarFlags::default(),
            flags_stack: Vec::new(),
            tokens: Vec::new(),
            taken: Ghost(Seq::empty()),
        };
        proof {
            assert(p.tokens@.map_values(|t: LookaheadResult| (t.line, t.token@)) =~= Seq::<(bool, TokenModel)>::empty());
            reveal(Parser::eof_at_end);
        }
        p
    }

    /// The next token is read as the start of an expression.
    pub fn expect_expression(&mut self)
        requires
            old(self).wf(),
        ensures
            final(self).wf(),
            final(self).state() == (ParserState { hint: old(self).state().hint.set_expression(true), ..old(self).state() }),
    {
        proof {
            reveal(Parser::eof_at_end);
        }
        self.hint = self.hint.expression(true);
    }

    fn push_flags(&mut self, flag: Flag, val: bool)
        requires
            old(self).wf(),
        ensures
            final(self).wf(),
            final(self).state() == push_state(old(self).state(), flag, val),
    {
        proof {
            reveal(Parser::eof_at_end);
        }
        self.flags_stack.push(self.flags);
        match flag {
            Flag::In => {
                self.flags.allow_in = val;
            },
            Flag::Yield => {
                self.flags.allow_yield = val;
            },
            Flag::Await => {
                self.flags.allow_await = val;
            },
            Flag::Return => {
                self.flags.allow_return = val;
            },
            Flag::Default => {
                self.flags.allow_default = val;
            },
            Flag::Module => {
                self.flags.is_module = val;
            },
            Flag::Strict => {
                self.flags.is_strict = val;
            },
            Flag::Template => {
                self.flags.expect_template = val;
                self.hint = self.hint.template(val);
            },
            Flag::Noop => {},
        }
    }

    /// Sets `flag` until `pop_flags`.
    pub fn with(&mut self, flag: Flag)
        requires
            old(self).wf(),
        ensures
            final(self).wf(),
            final(self).state() == push_state(old(self).state(), flag, true),
    {
        self.push_flags(flag, true);
    }

    /// Clears `flag` until `pop_flags`.
    pub fn without(&mut self, flag: Flag)
        requires
            old(self).wf(),
        ensures
            final(self).wf(),
            final(self).state() == push_state(old(self).state(), flag, false),
    {
        self.push_flags(flag, false);
    }

    /// Brings back the flags saved by the last `with` or `without`.
    pub fn pop_flags(&mut self)
        requires
            old(self).wf(),
            old(self).state().stack.len() > 0,
        ensures
            final(self).wf(),
            final(self).state() == pop_state(old(self).state()),
    {
        proof {
            reveal(Parser::eof_at_end);
        }
        let f = self.flags_stack.pop().unwrap();
        self.flags = f;
        self.hint = self.hint.template(f.expect_template);
    }

    /// Reads a token ahead where none is.
    fn fill(&mut self) -> (r: Result<(), ParseError>)
        requires
            old(self).wf(),
        ensures
            final(self).wf(),
            match filled(old(self).state()) {
                None => r is Err && same_but_position(final(self).state(), old(self).state()),
                Some(s) => r is Ok && final(self).state() == s && final(self).state().ahead.len() > 0,
            },
    {
        proof {
            reveal(filled);
        }
        if self.tokens.len() > 0 {
            return Ok(());
        }
        let ghost s = self.state();
        proof {
            lemma_read_from_eof(s.src, s.off, s.line, s.col, s.hint, false);
            lemma_read_from_meaningful(s.src, s.off, s.line, s.col, s.hint, false);
            reveal(Parser::eof_at_end);
        }
        let hint = self.hint;
        proof {
            hint.lemma_set(false, false);
        }
        let (t, start) = read_token_at(&mut self.tok, &mut self.hint)?;
        if start == self.tok.position().offset && !matches!(t.token, Token::EOF(_)) {
            self.hint = hint;
            return Err(ParseError {});
        }
        self.tokens.push(t);
        proof {
            assert(self.tokens@.map_values(|t: LookaheadResult| (t.line, t.token@)) =~= seq![(t.line, t.token@)]);
        }
        Ok(())
    }

    /// Takes the first token read ahead.
    pub fn pop(&mut self) -> (t: Token)
        requires
            old(self).wf(),
            old(self).state().ahead.len() > 0,
        ensures
            final(self).wf(),
            t@ == old(self).state().ahead[0].1,
            final(self).state() == popped(old(self).state()),
    {
        proof {
            reveal(Parser::eof_at_end);
        }
        let ghost first = self.tokens@[0].token@;
        let r = self.tokens.remove(0);
        self.taken = Ghost(self.taken@.push(first));
        proof {
            assert(self.tokens@.map_values(|t: LookaheadResult| (t.line, t.token@)) =~= old(self).state().ahead.drop_first());
        }
        r.token
    }

    /// The token after the next one, where the next one is a name (or where
    /// two tokens are read ahead already); `None` where the next token is no
    /// name. The tokens stay read ahead.
    #[verifier::rlimit(100)]
    #[verifier::spinoff_prover]
    pub fn ident_lookahead(&mut self) -> (r: Result<Option<LookaheadResult>, ParseError>)
        requires
            old(self).wf(),
        ensures
            final(self).wf(),
            r is Ok ==> kept(old(self).state(), final(self).state()),
            at_end(old(self).state()) ==> (r matches Ok(None) && at_end(final(self).state())
                && final(self).state().taken == old(self).state().taken),
            match filled(old(self).state()) {
                None => r is Err,
                Some(t) => if t.ahead.len() >= 2 {
                    r matches Ok(Some(x)) && (x.line, x.token@) == t.ahead[1] && final(self).state() == t
                } else {
                    match second_read(t) {
                        None => r is Err,
                        Some(u) => {
                            &&& final(self).state() == u
                            &&& (r matches Ok(Some(x)) <==> u.ahead.len() == 2)
                            &&& r matches Ok(Some(x)) ==> (x.line, x.token@) == u.ahead[1]
                            &&& r is Ok
                        },
                    }
                },
            },
    {
        proof {
            lemma_at_end(old(self).state());
            self.lemma_wf();
            lemma_filled_remaining(old(self).state());
            reveal(filled);
        }
        self.fill()?;
        let ghost t = self.state();
        assert(t.ahead =~= self.tokens@.map_values(|t: LookaheadResult| (t.line, t.token@)));
        if self.tokens.len() >= 2 {
            assert(t.ahead[1] == (self.tokens@[1].line, self.tokens@[1].token@));
            return Ok(Some(LookaheadResult { line: self.tokens[1].line, token: self.tokens[1].token.duplicate() }));
        }
        proof {
            self.lemma_wf();
            lemma_second_read_remaining(t);
        }
        assert(t.ahead[0] == (self.tokens@[0].line, self.tokens@[0].token@));
        let expect = match &self.tokens[0].token {
            Token::IdentifierName(n) => !is_binding_identifier(&self.flags, n.name.as_str()),
            _ => {
                assert(second_read(t) == Some(t));
                return Ok(None);
            },
        };
        let ghost h = self.hint.set_expression(expect);
        let mut hint = self.hint.expression(expect);
        assert(hint == h);
        proof {
            lemma_read_from_eof(t.src, t.off, t.line, t.col, h, false);
            lemma_read_from_meaningful(t.src, t.off, t.line, t.col, h, false);
            reveal(Parser::eof_at_end);
        }
        let (x, start) = read_token_at(&mut self.tok, &mut hint)?;
        if start == self.tok.position().offset && !matches!(x.token, Token::EOF(_)) {
            return Err(ParseError {});
        }
        let copy = LookaheadResult { line: x.line, token: x.token.duplicate() };
        self.tokens.push(copy);
        proof {
            assert(self.tokens@.map_values(|t: LookaheadResult| (t.line, t.token@)) =~= t.ahead.push((x.line, x.token@)));
        }
        Ok(Some(x))
    }

    /// Whether no line break comes before the next token.
    pub fn no_line_terminator(&mut self) -> (r: Result<bool, ParseError>)
        requires
            old(self).wf(),
        ensures
            final(self).wf(),
            r is Ok ==> kept(old(self).state(), final(self).state()),
            match filled(old(self).state()) {
                None => r is Err && same_but_position(final(self).state(), old(self).state()),
                Some(s) => r == Ok::<bool, ParseError>(!s.ahead[0].0) && final(self).state() == s,
            },
    {
        proof {
            self.lemma_wf();
            lemma_filled_remaining(old(self).state());
            reveal(filled);
        }
        self.fill()?;
        Ok(!self.tokens[0].line)
    }

    /// Whether `name` may name a binding under the flags in force.
    pub fn is_binding_identifier(&self, name: &str) -> (r: bool)
        ensures
            r == binding_name(self.state().flags, name.spec_bytes()),
    {
        is_binding_identifier(&self.flags, name)
    }

    /// Takes the next token where it is the punctuator `punc`.
    pub fn punc(&mut self, punc: PunctuatorToken) -> (r: Result<Option<PunctuatorToken>, ParseError>)
        requires
            old(self).wf(),
        ensures
            r matches Ok(Some(_)) ==> remaining(final(self).state()) < remaining(old(self).state()),
            final(self).wf(),
            r is Ok ==> kept(old(self).state(), final(self).state()),
            match filled(old(self).state()) {
                None => r is Err && same_but_position(final(self).state(), old(self).state()),
                Some(t) => if (t.ahead[0].1 == TokenModel::Punctuator(punc)) {
                    &&& r matches Ok(Some(x)) && x == punc
                    &&& final(self).state() == popped(t)
                    &&& remaining(final(self).state()) < remaining(old(self).state())
                } else {
                    &&& r == Ok::<Option<PunctuatorToken>, ParseError>(None)
                    &&& final(self).state() == t
                },
            },
    {
        proof {
            self.lemma_wf();
            lemma_filled_remaining(old(self).state());
            reveal(filled);
        }
        self.fill()?;
        let same = match &self.tokens[0].token {
            Token::Punctuator(p) => *p == punc,
            _ => false,
        };
        if same {
            proof {
                lemma_popped_remaining(self.state());
            }
            match self.pop() {
                Token::Punctuator(p) => Ok(Some(p)),
                _ => Err(ParseError {}),
            }
        } else {
            Ok(None)
        }
    }

    /// Takes the next token where it is a numeric literal.
    pub fn numeric(&mut self) -> (r: Result<Option<NumericLiteralToken>, ParseError>)
        requires
            old(self).wf(),
        ensures
            r matches Ok(Some(_)) ==> remaining(final(self).state()) < remaining(old(self).state()),
            final(self).wf(),
            r is Ok ==> kept(old(self).state(), final(self).state()),
            match filled(old(self).state()) {
                None => r is Err && same_but_position(final(self).state(), old(self).state()),
                Some(t) => if (t.ahead[0].1 is NumericLiteral) {
                    &&& r matches Ok(Some(x)) && Token::NumericLiteral(x)@ == t.ahead[0].1
                    &&& final(self).state() == popped(t)
                    &&& remaining(final(self).state()) < remaining(old(self).state())
                } else {
                    &&& r == Ok::<Option<NumericLiteralToken>, ParseError>(None)
                    &&& final(self).state() == t
                },
            },
    {
        proof {
            self.lemma_wf();
            lemma_filled_remaining(old(self).state());
            reveal(filled);
        }
        self.fill()?;
        let same = match &self.tokens[0].token {
            Token::NumericLiteral(_) => true,
            _ => false,
        };
        if same {
            proof {
                lemma_popped_remaining(self.state());
            }
            match self.pop() {
                Token::NumericLiteral(n) => Ok(Some(n)),
                _ => Err(ParseError {}),
            }
        } else {
            Ok(None)
        }
    }

    /// Takes the next token where it is a string literal.
    pub fn string(&mut self) -> (r: Result<Option<StringLiteralToken>, ParseError>)
        requires
            old(self).wf(),
        ensures
            r matches Ok(Some(_)) ==> remaining(final(self).state()) < remaining(old(self).state()),
            final(self).wf(),
            r is Ok ==> kept(old(self).state(), final(self).state()),
            match filled(old(self).state()) {
                None => r is Err && same_but_position(final(self).state(), old(self).state()),
                Some(t) => if (t.ahead[0].1 is StringLiteral) {
                    &&& r matches Ok(Some(x)) && Token::StringLiteral(x)@ == t.ahead[0].1
                    &&& final(self).state() == popped(t)
                    &&& remaining(final(self).state()) < remaining(old(self).state())
                } else {
                    &&& r == Ok::<Option<StringLiteralToken>, ParseError>(None)
                    &&& final(self).state() == t
                },
            },
    {
        proof {
            self.lemma_wf();
            lemma_filled_remaining(old(self).state());
            reveal(filled);
        }
        self.fill()?;
        let same = match &self.tokens[0].token {
            Token::StringLiteral(_) => true,
            _ => false,
        };
        if same {
            proof {
                lemma_popped_remaining(self.state());
            }
            match self.pop() {
                Token::StringLiteral(n) => Ok(Some(n)),
                _ => Err(ParseError {}),
            }
        } else {
            Ok(None)
        }
    }

    /// Takes the next token where it is a regular expression literal.
    pub fn regex(&mut self) -> (r: Result<Option<RegularExpressionLiteralToken>, ParseError>)
        requires
            old(self).wf(),
        ensures
            r matches Ok(Some(_)) ==> remaining(final(self).state()) < remaining(old(self).state()),
            final(self).wf(),
            r is Ok ==> kept(old(self).state(), final(self).state()),
            match filled(old(self).state()) {
                None => r is Err && same_but_position(final(self).state(), old(self).state()),
                Some(t) => if (t.ahead[0].1 is RegularExpressionLiteral) {
                    &&& r matches Ok(Some(x)) && Token::RegularExpressionLiteral(x)@ == t.ahead[0].1
                    &&& final(self).state() == popped(t)
                    &&& remaining(final(self).state()) < remaining(old(self).state())
                } else {
                    &&& r == Ok::<Option<RegularExpressionLiteralToken>, ParseError>(None)
                    &&& final(self).state() == t
                },
            },
    {
        proof {
            self.lemma_wf();
            lemma_filled_remaining(old(self).state());
            reveal(filled);
        }
        self.fill()?;
        let same = match &self.tokens[0].token {
            Token::RegularExpressionLiteral(_) => true,
            _ => false,
        };
        if same {
            proof {
                lemma_popped_remaining(self.state());
            }
            match self.pop() {
                Token::RegularExpressionLiteral(n) => Ok(Some(n)),
                _ => Err(ParseError {}),
            }
        } else {
            Ok(None)
        }
    }

    /// Takes the next token where it begins a template.
    pub fn template(&mut self) -> (r: Result<Option<TemplateToken>, ParseError>)
        requires
            old(self).wf(),
        ensures
            r matches Ok(Some(_)) ==> remaining(final(self).state()) < remaining(old(self).state()),
            final(self).wf(),
            r is Ok ==> kept(old(self).state(), final(self).state()),
            match filled(old(self).state()) {
                None => r is Err && same_but_position(final(self).state(), old(self).state()),
                Some(t) => if (is_head_template(t.ahead[0].1)) {
                    &&& r matches Ok(Some(x)) && Token::Template(x)@ == t.ahead[0].1
                    &&& final(self).state() == popped(t)
                    &&& remaining(final(self).state()) < remaining(old(self).state())
                } else {
                    &&& r == Ok::<Option<TemplateToken>, ParseError>(None)
                    &&& final(self).state() == t
                },
            },
    {
        proof {
            self.lemma_wf();
            lemma_filled_remaining(old(self).state());
            reveal(filled);
        }
        self.fill()?;
        let same = match &self.tokens[0].token {
            Token::Template(t) => matches!(t.format, TemplateFormat::NoSubstitution) || matches!(t.format, TemplateFormat::Head),
            _ => false,
        };
        if same {
            proof {
                lemma_popped_remaining(self.state());
            }
            match self.pop() {
                Token::Template(n) => Ok(Some(n)),
                _ => Err(ParseError {}),
            }
        } else {
            Ok(None)
        }
    }

    /// Takes the next token where it goes on with a template.
    pub fn template_tail(&mut self) -> (r: Result<Option<TemplateToken>, ParseError>)
        requires
            old(self).wf(),
        ensures
            r matches Ok(Some(_)) ==> remaining(final(self).state()) < remaining(old(self).state()),
            final(self).wf(),
            r is Ok ==> kept(old(self).state(), final(self).state()),
            match filled(old(self).state()) {
                None => r is Err && same_but_position(final(self).state(), old(self).state()),
                Some(t) => if (is_tail_template(t.ahead[0].1)) {
                    &&& r matches Ok(Some(x)) && Token::Template(x)@ == t.ahead[0].1
                    &&& final(self).state() == popped(t)
                    &&& remaining(final(self).state()) < remaining(old(self).state())
                } else {
                    &&& r == Ok::<Option<TemplateToken>, ParseError>(None)
                    &&& final(self).state() == t
                },
            },
    {
        proof {
            self.lemma_wf();
            lemma_filled_remaining(old(self).state());
            reveal(filled);
        }
        self.fill()?;
        let same = match &self.tokens[0].token {
            Token::Template(t) => matches!(t.format, TemplateFormat::Middle) || matches!(t.format, TemplateFormat::Tail),
            _ => false,
        };
        if same {
            proof {
                lemma_popped_remaining(self.state());
            }
            match self.pop() {
                Token::Template(n) => Ok(Some(n)),
                _ => Err(ParseError {}),
            }
        } else {
            Ok(None)
        }
    }

    /// Takes the next token where it is an identifier name, reserved or not.
    pub fn identifier(&mut self) -> (r: Result<Option<IdentifierNameToken>, ParseError>)
        requires
            old(self).wf(),
        ensures
            r matches Ok(Some(_)) ==> remaining(final(self).state()) < remaining(old(self).state()),
            final(self).wf(),
            r is Ok ==> kept(old(self).state(), final(self).state()),
            match filled(old(self).state()) {
                None => r is Err && same_but_position(final(self).state(), old(self).state()),
                Some(t) => if (t.ahead[0].1 is IdentifierName) {
                    &&& r matches Ok(Some(x)) && Token::IdentifierName(x)@ == t.ahead[0].1
                    &&& final(self).state() == popped(t)
                    &&& remaining(final(self).state()) < remaining(old(self).state())
                } else {
                    &&& r == Ok::<Option<IdentifierNameToken>, ParseError>(None)
                    &&& final(self).state() == t
                },
            },
    {
        proof {
            self.lemma_wf();
            lemma_filled_remaining(old(self).state());
            reveal(filled);
        }
        self.fill()?;
        let same = match &self.tokens[0].token {
            Token::IdentifierName(_) => true,
            _ => false,
        };
        if same {
            proof {
                lemma_popped_remaining(self.state());
            }
            match self.pop() {
                Token::IdentifierName(n) => Ok(Some(n)),
                _ => Err(ParseError {}),
            }
        } else {
            Ok(None)
        }
    }

    /// Takes the next token where it is the word `keyword`.
    pub fn keyword(&mut self, keyword: &str) -> (r: Result<Option<IdentifierNameToken>, ParseError>)
        requires
            old(self).wf(),
        ensures
            r matches Ok(Some(_)) ==> remaining(final(self).state()) < remaining(old(self).state()),
            final(self).wf(),
            r is Ok ==> kept(old(self).state(), final(self).state()),
            match filled(old(self).state()) {
                None => r is Err && same_but_position(final(self).state(), old(self).state()),
                Some(t) => if (t.ahead[0].1 == TokenModel::IdentifierName(keyword.spec_bytes())) {
                    &&& r matches Ok(Some(x)) && Token::IdentifierName(x)@ == t.ahead[0].1
                    &&& final(self).state() == popped(t)
                    &&& remaining(final(self).state()) < remaining(old(self).state())
                } else {
                    &&& r == Ok::<Option<IdentifierNameToken>, ParseError>(None)
                    &&& final(self).state() == t
                },
            },
    {
        proof {
            self.lemma_wf();
            lemma_filled_remaining(old(self).state());
            reveal(filled);
        }
        self.fill()?;
        let same = match &self.tokens[0].token {
            Token::IdentifierName(i) => bytes_eq(i.name.as_str().as_bytes(), keyword.as_bytes()),
            _ => false,
        };
        if same {
            proof {
                lemma_popped_remaining(self.state());
            }
            match self.pop() {
                Token::IdentifierName(n) => Ok(Some(n)),
                _ => Err(ParseError {}),
            }
        } else {
            Ok(None)
        }
    }

    /// Takes the next token where it may name a binding.
    #[verifier::rlimit(40)]
    pub fn binding_identifier(&mut self) -> (r: Result<Option<IdentifierNameToken>, ParseError>)
        requires
            old(self).wf(),
        ensures
            r matches Ok(Some(_)) ==> remaining(final(self).state()) < remaining(old(self).state()),
            final(self).wf(),
            r is Ok ==> kept(old(self).state(), final(self).state()),
            match filled(old(self).state()) {
                None => r is Err && same_but_position(final(self).state(), old(self).state()),
                Some(t) => if ((t.ahead[0].1 matches TokenModel::IdentifierName(n) && binding_name(old(self).state().flags, n))) {
                    &&& r matches Ok(Some(x)) && Token::IdentifierName(x)@ == t.ahead[0].1
                    &&& final(self).state() == popped(t)
                    &&& remaining(final(self).state()) < remaining(old(self).state())
                } else {
                    &&& r == Ok::<Option<IdentifierNameToken>, ParseError>(None)
                    &&& final(self).state() == t
                },
            },
    {
        proof {
            self.lemma_wf();
            lemma_filled_remaining(old(self).state());
            reveal(filled);
        }
        self.fill()?;
        let same = match &self.tokens[0].token {
            Token::IdentifierName(i) => is_binding_identifier(&self.flags, i.name.as_str()),
            _ => false,
        };
        if same {
            proof {
                lemma_popped_remaining(self.state());
            }
            match self.pop() {
                Token::IdentifierName(n) => Ok(Some(n)),
                _ => Err(ParseError {}),
            }
        } else {
            Ok(None)
        }
    }

    /// Takes the next token where it is the end of input.
    pub fn eof(&mut self) -> (r: Result<Option<EOFToken>, ParseError>)
        requires
            old(self).wf(),
        ensures
            final(self).wf(),
            r matches Ok(Some(_)) ==> final(self).state().off == final(self).state().src.len(),
            r is Ok ==> kept(old(self).state(), final(self).state()),
            match filled(old(self).state()) {
                None => r is Err && same_but_position(final(self).state(), old(self).state()),
                Some(t) => if (t.ahead[0].1 is EOF) {
                    &&& r matches Ok(Some(x)) && Token::EOF(x)@ == t.ahead[0].1
                    &&& final(self).state() == popped(t)
                } else {
                    &&& r == Ok::<Option<EOFToken>, ParseError>(None)
                    &&& final(self).state() == t
                },
            },
    {
        proof {
            self.lemma_wf();
            lemma_filled_remaining(old(self).state());
            reveal(filled);
        }
        self.fill()?;
        let same = match &self.tokens[0].token {
            Token::EOF(_) => true,
            _ => false,
        };
        if same {
            proof {
                lemma_popped_remaining(self.state());
                self.lemma_eof_at_end(0);
            }
            match self.pop() {
                Token::EOF(n) => Ok(Some(n)),
                _ => Err(ParseError {}),
            }
        } else {
            Ok(None)
        }
    }

    /// Ends a statement: takes a `;`, or inserts one before a `}`, at the end
    /// of input, or after a line break (or, after `do`-`while`, anywhere);
    /// `false` where none can be inserted.
    fn semicolon_inner(&mut self, was_do_while: bool) -> (r: Result<bool, ParseError>)
        requires
            old(self).wf(),
        ensures
            final(self).wf(),
            r is Ok ==> kept(old(self).state(), final(self).state()),
            r == Ok::<bool, ParseError>(true) && !was_do_while ==> statement_ended(final(self).state()),
            match filled(old(self).state()) {
                None => r is Err && same_but_position(final(self).state(), old(self).state()),
                Some(t) => {
                    let front = t.ahead[0];
                    if front.1 == TokenModel::Punctuator(PunctuatorToken::Semicolon) {
                        r == Ok::<bool, ParseError>(true) && final(self).state() == popped(t)
                    } else if front.1 == TokenModel::Punctuator(PunctuatorToken::CurlyClose) || front.1 is EOF
                        || was_do_while || front.0 {
                        r == Ok::<bool, ParseError>(true) && final(self).state() == (ParserState {
                            hint: t.hint.set_expression(true),
                            ..t
                        })
                    } else {
                        r == Ok::<bool, ParseError>(false) && final(self).state() == t
                    }
                },
            },
    {
        proof {
            self.lemma_wf();
            lemma_filled_remaining(old(self).state());
            reveal(filled);
        }
        self.fill()?;
        let line = self.tokens[0].line;
        let exists = match &self.tokens[0].token {
            Token::Punctuator(PunctuatorToken::Semicolon) => true,
            Token::Punctuator(PunctuatorToken::CurlyClose) => false,
            Token::EOF(_) => false,
            _ => {
                if was_do_while || line {
                    false
                } else {
                    return Ok(false);
                }
            },
        };
        if exists {
            proof {
                lemma_popped_remaining(self.state());
            }
            let _ = self.pop();
        } else {
            self.expect_expression();
        }
        Ok(true)
    }

    /// Ends a statement (see `semicolon_inner`).
    pub fn semicolon(&mut self) -> (r: Result<bool, ParseError>)
        requires
            old(self).wf(),
        ensures
            final(self).wf(),
            r is Ok ==> kept(old(self).state(), final(self).state()),
            r == Ok::<bool, ParseError>(true) ==> statement_ended(final(self).state()),
            match filled(old(self).state()) {
                None => r is Err && same_but_position(final(self).state(), old(self).state()),
                Some(t) => {
                    let front = t.ahead[0];
                    if front.1 == TokenModel::Punctuator(PunctuatorToken::Semicolon) {
                        r == Ok::<bool, ParseError>(true) && final(self).state() == popped(t)
                    } else if front.1 == TokenModel::Punctuator(PunctuatorToken::CurlyClose) || front.1 is EOF
                        || front.0 {
                        r == Ok::<bool, ParseError>(true) && final(self).state() == (ParserState {
                            hint: t.hint.set_expression(true),
                            ..t
                        })
                    } else {
                        r == Ok::<bool, ParseError>(false) && final(self).state() == t
                    }
                },
            },
    {
        self.semicolon_inner(false)
    }

    /// Ends a `do`-`while` statement, where a semicolon may always be inserted.
    pub fn semicolon_dowhile(&mut self) -> (r: Result<bool, ParseError>)
        requires
            old(self).wf(),
        ensures
            final(self).wf(),
            r is Ok ==> kept(old(self).state(), final(self).state()),
            match filled(old(self).state()) {
                None => r is Err && same_but_position(final(self).state(), old(self).state()),
                Some(t) => r == Ok::<bool, ParseError>(true),
            },
    {
        self.semicolon_inner(true)
    }
}

/// The state after `with` or `without`: the flags saved, `flag` set to `val`.
pub open spec fn push_state(s: ParserState, flag: Flag, val: bool) -> ParserState {
    ParserState {
        stack: s.stack.push(s.flags),
        flags: s.flags.with_flag(flag, val),
        hint: if flag == Flag::Template {
            s.hint.set_template(val)
        } else {
            s.hint
        },
        ..s
    }
}

/// The state after `pop_flags`: the saved flags back in force.
pub open spec fn pop_state(s: ParserState) -> ParserState {
    ParserState {
        stack: s.stack.drop_last(),
        flags: s.stack.last(),
        hint: s.hint.set_template(s.stack.last().expect_template),
        ..s
    }
}


/// The state after reading the token that follows a name read ahead alone:
/// it is read with the hint expecting an expression unless the name may name
/// a binding; the hint in force is not changed. `None` where it cannot be read.
pub open spec fn second_read(t: ParserState) -> Option<ParserState> {
    match t.ahead[0].1 {
        TokenModel::IdentifierName(n) => {
            let h = t.hint.set_expression(!binding_name(t.flags, n));
            match read_from(t.src, t.off, t.line, t.col, h, false) {
                None => None,
                Some((ln, m, o, l, c)) => Some(
                    ParserState { off: o, line: l, col: c, ahead: t.ahead.push((ln, m)), ..t },
                ),
            }
        },
        _ => Some(t),
    }
}

/// Counting a token put behind a single token read ahead.
pub proof fn lemma_count_push(a: Seq<(bool, TokenModel)>, x: (bool, TokenModel))
    requires
        a.len() == 1,
    ensures
        non_eof_count(a.push(x)) == non_eof_count(a) + if x.1 is EOF { 0int } else { 1int },
{
    let last: Seq<(bool, TokenModel)> = seq![x];
    let none = Seq::<(bool, TokenModel)>::empty();
    assert(a.push(x).drop_first() =~= last);
    assert(last.drop_first() =~= none);
    assert(a.drop_first() =~= none);
    assert(non_eof_count(none) == 0);
    assert(non_eof_count(last) == (if x.1 is EOF { 0int } else { 1int }) + non_eof_count(none));
    assert(non_eof_count(a) == (if a[0].1 is EOF { 0int } else { 1int }) + non_eof_count(none));
    assert(a.push(x)[0] == a[0]);
}

/// Reading a second token ahead never adds to what is left of the input.
#[verifier::spinoff_prover]
pub proof fn lemma_second_read_remaining(t: ParserState)
    requires
        0 <= t.off <= t.src.len(),
        t.ahead.len() == 1,
    ensures
        second_read(t) matches Some(u) ==> remaining(u) <= remaining(t) && 0 <= u.off <= u.src.len(),
{
    if let TokenModel::IdentifierName(n) = t.ahead[0].1 {
        let h = t.hint.set_expression(!binding_name(t.flags, n));
        lemma_read_from_progress(t.src, t.off, t.line, t.col, h, false);
        if let Some((ln, m, o, l, c)) = read_from(t.src, t.off, t.line, t.col, h, false) {
            lemma_count_push(t.ahead, (ln, m));
        }
    }
}

/// Setting a flag with `with` or `without` and then bringing back the saved
/// flags with `pop_flags` gives back the state it started from, where the
/// hint expects a template continuation exactly when the flags do.
pub proof fn lemma_push_pop_restores(s: ParserState, flag: Flag, val: bool)
    requires
        s.hint.is_template() == s.flags.expect_template,
    ensures
        pop_state(push_state(s, flag, val)) == s,
{
    let t = push_state(s, flag, val);
    let u = pop_state(t);
    assert(t.stack.drop_last() =~= s.stack);
    s.hint.lemma_set(false, val);
    t.hint.lemma_set(false, s.flags.expect_template);
    u.hint.lemma_same(s.hint);
}

/// A token read takes no bytes back, and a token other than the end of
/// input takes at least one.
pub proof fn lemma_read_from_progress(src: Seq<u8>, off: int, line: int, col: int, hint: Hint, seen: bool)
    ensures
        read_from(src, off, line, col, hint, seen) matches Some((_, m, o, _, _)) ==> {
            &&& off <= o <= src.len()
            &&& !(m is EOF) ==> off < o
        },
    decreases src.len() - off,
{
    reveal(read_from);
    if 0 <= off <= src.len() {
        lemma_scan_to(
            src.len() as int,
            off,
            |k: int| !(is_ws_byte(src[k]) || zwnbsp_at(src, k) || nbsp_at(src, k)),
        );
        match step_at(src, off, line, col, hint) {
            None => {},
            Some((m, s, o, l, c)) => {
                assert(s == crate::tokenizer::scan::ws_end(src, off));
                assert(off <= s);
                if is_trivia(m) && off < o <= src.len() {
                    lemma_read_from_progress(
                        src,
                        o,
                        l,
                        c,
                        hint,
                        seen || m is LineTerminator || (m is Comment && l != line),
                    );
                }
            },
        }
    }
}

/// The end of input is read only at the end of the source.
pub proof fn lemma_read_from_eof(src: Seq<u8>, off: int, line: int, col: int, hint: Hint, seen: bool)
    ensures
        read_from(src, off, line, col, hint, seen) matches Some((_, m, o, _, _)) ==> (m is EOF ==> o == src.len()),
    decreases src.len() - off,
{
    reveal(read_from);
    if 0 <= off <= src.len() {
        match step_at(src, off, line, col, hint) {
            None => {},
            Some((m, s, o, l, c)) => {
                let st = ws_end(src, off);
                if cut_ok(src, st) {
                    lemma_lex_eof(src.subrange(st, src.len() as int), hint);
                }
                if is_trivia(m) && off < o <= src.len() {
                    lemma_read_from_eof(
                        src,
                        o,
                        l,
                        c,
                        hint,
                        seen || m is LineTerminator || (m is Comment && l != line),
                    );
                }
            },
        }
    }
}

pub proof fn lemma_count_nonneg(ahead: Seq<(bool, TokenModel)>)
    ensures
        non_eof_count(ahead) >= 0,
    decreases ahead.len(),
{
    if ahead.len() > 0 {
        lemma_count_nonneg(ahead.drop_first());
    }
}

/// What is left of the input of a well-placed state is not negative.
pub proof fn lemma_remaining_nonneg(s: ParserState)
    requires
        s.off <= s.src.len(),
    ensures
        remaining(s) >= 0,
{
    lemma_count_nonneg(s.ahead);
}

/// What is left of the input of a well-formed parser is not negative.
pub broadcast proof fn lemma_parser_remaining<'a>(p: Parser<'a>)
    requires
        p.wf(),
    ensures
        #[trigger] remaining(p.state()) >= 0,
{
    p.lemma_wf();
    lemma_remaining_nonneg(p.state());
}

/// Reading ahead never adds to what is left of the input.
pub proof fn lemma_filled_remaining(s: ParserState)
    requires
        0 <= s.off <= s.src.len(),
    ensures
        filled(s) matches Some(t) ==> remaining(t) <= remaining(s) && 0 <= t.off <= t.src.len(),
{
    reveal(filled);
    lemma_read_from_progress(s.src, s.off, s.line, s.col, s.hint, false);
    if s.ahead.len() == 0 {
        if let Some(t) = filled(s) {
            assert(t.ahead.drop_first() =~= Seq::<(bool, TokenModel)>::empty());
            assert(non_eof_count(Seq::<(bool, TokenModel)>::empty()) == 0);
            assert(non_eof_count(t.ahead) == (if t.ahead[0].1 is EOF { 0int } else { 1int }));
            assert(non_eof_count(s.ahead) == 0);
        }
    }
}

/// Taking a token takes one from what is left, unless it is the end of input.
pub proof fn lemma_popped_remaining(s: ParserState)
    requires
        s.ahead.len() > 0,
    ensures
        remaining(popped(s)) == remaining(s) - if s.ahead[0].1 is EOF { 0int } else { 1int },
{
}


/// A value that is made by parsing what a tokenizer reads.
pub trait FromTokenizer: Sized {
    fn from_tokenizer(t: SliceTokenizer) -> Result<Self, ParseError>
        requires
            t.wf(),
    ;
}

/// The witness that a module parsed.
#[derive(Debug, Clone, Copy, PartialEq, Eq, Structural)]
pub struct Test {}

impl FromTokenizer for Test {
    /// Parses a module; where only whitespace is left, it parses.
    fn from_tokenizer(t: SliceTokenizer) -> (r: Result<Test, ParseError>)
        ensures
            ws_end(t.source(), t.pos().offset as int) == t.source().len() ==> r is Ok,
    {
        let mut p = Parser::new(t);
        proof {
            p.lemma_wf();
        }
        p.parse_module()?;
        Ok(Test {})
    }
}

impl FromTokenizer for () {
    /// Parses a module; where only whitespace is left, it parses.
    fn from_tokenizer(t: SliceTokenizer) -> (r: Result<(), ParseError>)
        ensures
            ws_end(t.source(), t.pos().offset as int) == t.source().len() ==> r is Ok,
    {
        let mut p = Parser::new(t);
        proof {
            p.lemma_wf();
        }
        p.parse_module()
    }
}

/// Parses `code` as a module into `P`: the result is what `P::from_tokenizer`
/// gives on a tokenizer at the start of `code`.
pub fn parse_root<P: FromTokenizer>(code: &str) -> (r: Result<P, ParseError>)
    ensures
        exists|t: SliceTokenizer|
            t.wf() && t.source() == code.spec_bytes() && t.pos() == (Position { offset: 0, line: 0, column: 0 })
                && call_ensures(P::from_tokenizer, (t,), r),
{
    let t = code.into_tokenizer();
    P::from_tokenizer(t)
}

} // verus!
