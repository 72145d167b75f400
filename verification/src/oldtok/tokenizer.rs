//! The earlier tokenizer: it reads one token from a window of the next four
//! characters, and classifies it without keeping its text.

use vstd::prelude::*;
use crate::oldtok::peek4::{CharReader, char_at, window, advanced};
use crate::tokenstate::{unicode_id_start, unicode_id_continue, codepoint_id_start, codepoint_id_continue};

verus! {

/// Where the token reader stands after `read_tokens` stops.
#[derive(Debug, Clone, Copy, PartialEq, Eq, Structural)]
pub enum ReadTokensResult {
    InputEmpty,
    OutputFull,
    End,
}

/// The kind of a numeric literal.
#[derive(Debug, Clone, Copy, PartialEq, Eq, Structural)]
pub enum NumberType {
    Hex,
    Octal,
    Binary,
    Float,
}

/// A token, by kind.
#[derive(Debug, Clone, Copy, PartialEq, Eq, Structural)]
pub enum Token {
    LParen,
    RParen,
    LCurly,
    RCurly,
    LSquare,
    RSquare,
    Semicolon,
    Comma,
    Tilde,
    Quest,
    Colon,
    Ellipsis,
    Period,
    LAngleAngleEq,
    LAngleAngle,
    LessEq,
    LAngle,
    RAngleAngleAngleEq,
    RAngleAngleAngle,
    RAngleAngleEq,
    RAngleAngle,
    GreaterEq,
    RAngle,
    NEqEq,
    NEq,
    Exclam,
    EqEqEq,
    EqEq,
    Eq,
    PlusPlus,
    PlusEq,
    Plus,
    MinusMinus,
    MinusEq,
    Minus,
    ModEq,
    Mod,
    StarStarEq,
    StarEq,
    StarStar,
    Star,
    AmpAmp,
    AmpEq,
    Amp,
    BarBar,
    BarEq,
    Bar,
    CaretEq,
    Caret,
    DivEq,
    Div,
    Whitespace,
    LineTerminator,
    Comment,
    StringLiteral,
    IdentifierName,
    NumericLiteral(NumberType),
    Unknown,
}

pub open spec fn is_digit(c: char) -> bool {
    '0' <= c && c <= '9'
}

pub open spec fn is_line_terminator(c: char) -> bool {
    c == '\u{A}' || c == '\u{D}' || c == '\u{2028}' || c == '\u{2029}'
}

pub open spec fn is_whitespace(c: char) -> bool {
    c == '\u{9}' || c == '\u{B}' || c == '\u{C}' || c == '\u{20}' || c == '\u{A0}' || c == '\u{FEFF}'
        || c == '\u{1680}' || ('\u{2000}' <= c && c <= '\u{200A}') || c == '\u{202F}' || c
        == '\u{205F}' || c == '\u{3000}'
}

/// The characters that a run of one kind goes on with.
#[derive(Debug, Clone, Copy, PartialEq, Eq, Structural)]
pub enum CharClass {
    Hex,
    Octal,
    Binary,
    Digit,
    IdContinue,
}

pub open spec fn in_class(c: char, class: CharClass) -> bool {
    match class {
        CharClass::Hex => is_digit(c) || ('a' <= c && c <= 'f') || ('A' <= c && c <= 'F'),
        CharClass::Octal => '0' <= c && c <= '7',
        CharClass::Binary => c == '0' || c == '1',
        CharClass::Digit => is_digit(c),
        CharClass::IdContinue => unicode_id_continue(c),
    }
}

/// Where a run ends that is read by stepping on while the character after
/// the current one is of `class`: one past the last character of the run.
pub open spec fn run_end(chars: Seq<char>, q: nat, class: CharClass) -> nat
    decreases chars.len() - q,
{
    match char_at(chars, q + 1int) {
        Some(n) => if in_class(n, class) && q < chars.len() {
            run_end(chars, q + 1, class)
        } else {
            advanced(chars, q)
        },
        None => advanced(chars, q),
    }
}

/// A line comment from `q`: it ends after a line terminator; the end of the
/// input ends it as an unknown token.
pub open spec fn line_comment(chars: Seq<char>, q: nat) -> (Token, nat)
    decreases chars.len() - q,
{
    match char_at(chars, q as int) {
        None => (Token::Unknown, q),
        Some(x) => if is_line_terminator(x) {
            (Token::Comment, q + 1)
        } else {
            line_comment(chars, q + 1)
        },
    }
}

/// A block comment from `q`: it ends after `*/`; the end of the input ends
/// it as an unknown token.
pub open spec fn block_comment(chars: Seq<char>, q: nat) -> (Token, nat)
    decreases chars.len() - q,
{
    match char_at(chars, q as int) {
        None => (Token::Unknown, q),
        Some(x) => if x == '*' && char_at(chars, q + 1int) == Some('/') {
            (Token::Comment, advanced(chars, (q + 1) as nat))
        } else {
            block_comment(chars, q + 1)
        },
    }
}

/// A string from `q`, after its opening `quote`: it ends after the same
/// quote; the end of the input ends it as an unknown token.
pub open spec fn string(chars: Seq<char>, quote: char, q: nat) -> (Token, nat)
    decreases chars.len() - q,
{
    match char_at(chars, q as int) {
        None => (Token::Unknown, q),
        Some(x) => if x == quote {
            (Token::StringLiteral, q + 1)
        } else {
            string(chars, quote, q + 1)
        },
    }
}

/// The end of an identifier whose first character was read and `next`
/// follows it.
pub open spec fn identifier(chars: Seq<char>, next: Option<char>, q: nat) -> nat {
    match next {
        Some(n) => if unicode_id_continue(n) {
            run_end(chars, q, CharClass::IdContinue)
        } else {
            q
        },
        None => q,
    }
}

/// The end of the run of decimal digits from `p`.
pub open spec fn digits_from(chars: Seq<char>, p: nat) -> nat
    decreases chars.len() - p,
{
    if p < chars.len() && is_digit(chars[p as int]) {
        digits_from(chars, p + 1)
    } else {
        p
    }
}

/// The end of an exponent part `[eE][+-]?[0-9]+` at `p`; `p` itself where
/// none stands there.
pub open spec fn exponent_end(chars: Seq<char>, p: nat) -> nat {
    match char_at(chars, p as int) {
        Some(e) => if e == 'e' || e == 'E' {
            let d: nat = match char_at(chars, p + 1int) {
                Some(s) => if s == '+' || s == '-' { p + 2 } else { p + 1 },
                None => p + 1,
            };
            match char_at(chars, d as int) {
                Some(x) => if is_digit(x) { digits_from(chars, d) } else { p },
                None => p,
            }
        } else {
            p
        },
        None => p,
    }
}

/// The end of the part `(\.[0-9]*)? ([eE][+-]?[0-9]+)?` of a decimal
/// literal at `p`.
pub open spec fn decimal_tail(chars: Seq<char>, p: nat) -> nat {
    if char_at(chars, p as int) == Some('.') {
        exponent_end(chars, digits_from(chars, p + 1))
    } else {
        exponent_end(chars, p)
    }
}

/// A number whose first character `c` was read and `next` follows it, at
/// `q`: `0x`, `0o` and `0b` with their digits; decimal literals
/// `0 (\.[0-9]*)? ([eE][+-]?[0-9]+)?`, `[0-9]+ (\.[0-9]*)? ([eE][+-]?[0-9]+)?`
/// and `\.[0-9]+ ([eE][+-]?[0-9]+)?`; `.` with no digit after it is unknown.
pub open spec fn number(chars: Seq<char>, c: char, next: Option<char>, q: nat) -> (Token, nat) {
    if c == '0' {
        match next {
            None => (Token::NumericLiteral(NumberType::Float), q),
            Some(n) => if n == 'x' || n == 'X' {
                (Token::NumericLiteral(NumberType::Hex), run_end(chars, q, CharClass::Hex))
            } else if n == 'o' || n == 'O' {
                (Token::NumericLiteral(NumberType::Octal), run_end(chars, q, CharClass::Octal))
            } else if n == 'b' || n == 'B' {
                (Token::NumericLiteral(NumberType::Binary), run_end(chars, q, CharClass::Binary))
            } else {
                (Token::NumericLiteral(NumberType::Float), decimal_tail(chars, q))
            },
        }
    } else if is_digit(c) {
        (Token::NumericLiteral(NumberType::Float), decimal_tail(chars, digits_from(chars, q)))
    } else {
        match next {
            Some(n) => if is_digit(n) {
                (Token::NumericLiteral(NumberType::Float), exponent_end(chars, digits_from(chars, q)))
            } else {
                (Token::Unknown, q)
            },
            None => (Token::Unknown, q),
        }
    }
}

/// The token read at `p` where a character stands there, and the position
/// after it.
pub open spec fn token_at(chars: Seq<char>, p: nat, expression: bool, template: bool) -> (Token, nat) {
    let (a, b, c, d) = window(chars, p as int);
    let p1 = advanced(chars, p);
    let p2 = advanced(chars, p1);
    let p3 = advanced(chars, p2);
    let p4 = advanced(chars, p3);
    if a == Some('(') {
        (Token::LParen, p1)
    } else if a == Some(')') {
        (Token::RParen, p1)
    } else if a == Some('{') {
        (Token::LCurly, p1)
    } else if a == Some('[') {
        (Token::LSquare, p1)
    } else if a == Some(']') {
        (Token::RSquare, p1)
    } else if a == Some(';') {
        (Token::Semicolon, p1)
    } else if a == Some(',') {
        (Token::Comma, p1)
    } else if a == Some('~') {
        (Token::Tilde, p1)
    } else if a == Some('?') {
        (Token::Quest, p1)
    } else if a == Some(':') {
        (Token::Colon, p1)
    } else if a == Some('.') && b == Some('.') && c == Some('.') {
        (Token::Ellipsis, p3)
    } else if a == Some('.') && b is Some && !is_digit(b->0) {
        (Token::Period, p1)
    } else if a == Some('<') && b == Some('<') && c == Some('=') {
        (Token::LAngleAngleEq, p3)
    } else if a == Some('<') && b == Some('<') {
        (Token::LAngleAngle, p2)
    } else if a == Some('<') && b == Some('=') {
        (Token::LessEq, p2)
    } else if a == Some('<') {
        (Token::LAngle, p1)
    } else if a == Some('>') && b == Some('>') && c == Some('>') && d == Some('=') {
        (Token::RAngleAngleAngleEq, p4)
    } else if a == Some('>') && b == Some('>') && c == Some('>') {
        (Token::RAngleAngleAngle, p3)
    } else if a == Some('>') && b == Some('>') && c == Some('=') {
        (Token::RAngleAngleEq, p3)
    } else if a == Some('>') && b == Some('>') {
        (Token::RAngleAngle, p2)
    } else if a == Some('>') && b == Some('=') {
        (Token::GreaterEq, p2)
    } else if a == Some('>') {
        (Token::RAngle, p1)
    } else if a == Some('!') && b == Some('=') && c == Some('=') {
        (Token::NEqEq, p3)
    } else if a == Some('!') && b == Some('=') {
        (Token::NEq, p2)
    } else if a == Some('!') {
        (Token::Exclam, p1)
    } else if a == Some('=') && b == Some('=') && c == Some('=') {
        (Token::EqEqEq, p3)
    } else if a == Some('=') && b == Some('=') {
        (Token::EqEq, p2)
    } else if a == Some('=') {
        (Token::Eq, p1)
    } else if a == Some('+') && b == Some('+') {
        (Token::PlusPlus, p2)
    } else if a == Some('+') && b == Some('=') {
        (Token::PlusEq, p2)
    } else if a == Some('+') {
        (Token::Plus, p1)
    } else if a == Some('-') && b == Some('-') {
        (Token::MinusMinus, p2)
    } else if a == Some('-') && b == Some('=') {
        (Token::MinusEq, p2)
    } else if a == Some('-') {
        (Token::Minus, p1)
    } else if a == Some('%') && b == Some('=') {
        (Token::ModEq, p2)
    } else if a == Some('%') {
        (Token::Mod, p1)
    } else if a == Some('*') && b == Some('*') && c == Some('=') {
        (Token::StarStarEq, p3)
    } else if a == Some('*') && b == Some('=') {
        (Token::StarEq, p2)
    } else if a == Some('*') && b == Some('*') {
        (Token::StarStar, p2)
    } else if a == Some('*') {
        (Token::Star, p1)
    } else if a == Some('&') && b == Some('&') {
        (Token::AmpAmp, p2)
    } else if a == Some('&') && b == Some('=') {
        (Token::AmpEq, p2)
    } else if a == Some('&') {
        (Token::Amp, p1)
    } else if a == Some('|') && b == Some('|') {
        (Token::BarBar, p2)
    } else if a == Some('|') && b == Some('=') {
        (Token::BarEq, p2)
    } else if a == Some('|') {
        (Token::Bar, p1)
    } else if a == Some('^') && b == Some('=') {
        (Token::CaretEq, p2)
    } else if a == Some('^') {
        (Token::Caret, p1)
    } else if a == Some('/') && b == Some('/') {
        line_comment(chars, p2)
    } else if a == Some('/') && b == Some('*') {
        block_comment(chars, p2)
    } else if a == Some('/') && b == Some('=') && !expression {
        (Token::DivEq, p2)
    } else if a == Some('/') {
        (if expression { Token::Unknown } else { Token::Div }, p1)
    } else if a == Some('`') {
        (Token::Unknown, p1)
    } else if a == Some('}') {
        (if template { Token::Unknown } else { Token::RCurly }, p1)
    } else {
        let x = a->0;
        if is_digit(x) || x == '.' {
            number(chars, x, b, p1)
        } else if x == '"' || x == '\'' {
            string(chars, x, p1)
        } else if x == '$' || x == '_' || x == '\\' {
            (Token::IdentifierName, identifier(chars, b, p1))
        } else if is_whitespace(x) {
            (Token::Whitespace, p1)
        } else if is_line_terminator(x) {
            (Token::LineTerminator, p1)
        } else if unicode_id_start(x) {
            (Token::IdentifierName, identifier(chars, b, p1))
        } else {
            (Token::Unknown, p1)
        }
    }}

/// What `Tokenizer::next` reads at `p`: a token and the position after it,
/// or nothing at the end of the input.
pub open spec fn next_token(chars: Seq<char>, p: nat, expression: bool, template: bool) -> (Option<Token>, nat) {
    if p < chars.len() {
        let (t, q) = token_at(chars, p, expression, template);
        (Some(t), q)
    } else {
        (None, p)
    }
}

fn is(o: &Option<char>, c: char) -> (r: bool)
    ensures
        r == (*o == Some(c)),
{
    match o {
        Some(x) => *x == c,
        None => false,
    }
}

fn is_non_digit(o: &Option<char>) -> (r: bool)
    ensures
        r == (*o is Some && !is_digit(o->0)),
{
    match o {
        Some(x) => *x < '0' || *x > '9',
        None => false,
    }
}

fn is_digit_char(c: char) -> (r: bool)
    ensures
        r == is_digit(c),
{
    '0' <= c && c <= '9'
}

fn is_line_terminator_char(c: char) -> (r: bool)
    ensures
        r == is_line_terminator(c),
{
    c == '\u{A}' || c == '\u{D}' || c == '\u{2028}' || c == '\u{2029}'
}

fn is_whitespace_char(c: char) -> (r: bool)
    ensures
        r == is_whitespace(c),
{
    c == '\u{9}' || c == '\u{B}' || c == '\u{C}' || c == '\u{20}' || c == '\u{A0}' || c == '\u{FEFF}'
        || c == '\u{1680}' || ('\u{2000}' <= c && c <= '\u{200A}') || c == '\u{202F}' || c
        == '\u{205F}' || c == '\u{3000}'
}

fn char_in_class(c: char, class: CharClass) -> (r: bool)
    ensures
        r == in_class(c, class),
{
    match class {
        CharClass::Hex => ('0' <= c && c <= '9') || ('a' <= c && c <= 'f') || ('A' <= c && c <= 'F'),
        CharClass::Octal => '0' <= c && c <= '7',
        CharClass::Binary => c == '0' || c == '1',
        CharClass::Digit => '0' <= c && c <= '9',
        CharClass::IdContinue => codepoint_id_continue(c),
    }
}

/// Reads tokens from characters.
pub struct Tokenizer {
    chars: CharReader,
    pub strict: bool,
    annexb: bool,
    expression: bool,
    template: bool,
}

impl Tokenizer {
    pub closed spec fn chars(&self) -> Seq<char> {
        self.chars.chars()
    }

    pub closed spec fn pos(&self) -> nat {
        self.chars.pos()
    }

    pub closed spec fn wf(&self) -> bool {
        self.chars.wf()
    }

    /// A well-formed tokenizer stands within its characters.
    pub proof fn lemma_wf(&self)
        requires
            self.wf(),
        ensures
            self.pos() <= self.chars().len(),
    {
        self.chars.lemma_wf();
    }

    pub closed spec fn is_strict(&self) -> bool {
        self.strict
    }

    pub closed spec fn reads_expression(&self) -> bool {
        self.expression
    }

    pub closed spec fn reads_template(&self) -> bool {
        self.template
    }

    pub fn new(chars: Vec<char>) -> (t: Tokenizer)
        ensures
            t.wf(),
            t.chars() == chars@,
            t.pos() == 0,
            !t.is_strict(),
            !t.reads_expression(),
            !t.reads_template(),
    {
        Tokenizer { chars: CharReader::new(chars), strict: false, annexb: false, expression: false, template: false }
    }

    /// Runs `f` once, in strict mode, on this tokenizer as it stands, and
    /// restores the mode that held before; `f`'s result is returned.
    pub fn with_strict<R, F: FnOnce(&mut Tokenizer) -> R>(&mut self, f: F) -> (r: R)
        requires
            forall|t: &mut Tokenizer|
                (*t).is_strict() && (*t).chars() == old(self).chars() && (*t).pos() == old(self).pos()
                    && (*t).reads_expression() == old(self).reads_expression() && (*t).reads_template()
                    == old(self).reads_template() && (*t).wf() == old(self).wf() ==> f.requires((t,)),
        ensures
            final(self).is_strict() == old(self).is_strict(),
            exists|t: &mut Tokenizer|
                (*t).is_strict() && (*t).chars() == old(self).chars() && (*t).pos() == old(self).pos()
                    && (*t).reads_expression() == old(self).reads_expression()
                    && (*t).reads_template() == old(self).reads_template()
                    && call_ensures(f, (t,), r)
                    && final(self).chars() == final(t).chars() && final(self).pos() == final(t).pos()
                    && final(self).reads_expression() == final(t).reads_expression()
                    && final(self).reads_template() == final(t).reads_template()
                    && final(self).wf() == final(t).wf(),
    {
        let value = self.strict;
        self.strict = true;
        assert(self.is_strict() && self.chars() == old(self).chars() && self.pos() == old(self).pos()
            && self.reads_expression() == old(self).reads_expression() && self.reads_template()
            == old(self).reads_template() && self.wf() == old(self).wf());
        let result = f(self);
        self.strict = value;
        result
    }

    fn run(&mut self, class: CharClass)
        requires
            old(self).wf(),
        ensures
            final(self).wf(),
            final(self).chars() == old(self).chars(),
            final(self).reads_expression() == old(self).reads_expression(),
            final(self).reads_template() == old(self).reads_template(),
            final(self).is_strict() == old(self).is_strict(),
            final(self).pos() == run_end(old(self).chars(), old(self).pos(), class),
    {
        loop
            invariant
                self.wf(),
                self.chars() == old(self).chars(),
                self.reads_expression() == old(self).reads_expression(),
                self.reads_template() == old(self).reads_template(),
                self.is_strict() == old(self).is_strict(),
                run_end(self.chars(), self.pos(), class) == run_end(old(self).chars(), old(self).pos(), class),
            decreases self.chars().len() - self.pos(),
        {
            let ghost q = self.pos();
            let (_, next, _, _) = self.chars.entry();
            match next {
                Some(n) => {
                    if !char_in_class(n, class) {
                        return;
                    }
                },
                None => {
                    return;
                },
            }
        }
    }

    fn identifier(&mut self, next: Option<char>)
        requires
            old(self).wf(),
        ensures
            final(self).wf(),
            final(self).chars() == old(self).chars(),
            final(self).reads_expression() == old(self).reads_expression(),
            final(self).reads_template() == old(self).reads_template(),
            final(self).is_strict() == old(self).is_strict(),
            final(self).pos() == identifier(old(self).chars(), next, old(self).pos()),
    {
        if let Some(n) = next {
            if codepoint_id_continue(n) {
                self.run(CharClass::IdContinue);
            }
        }
    }

    /// Takes the run of decimal digits that stands next.
    fn digits(&mut self)
        requires
            old(self).wf(),
        ensures
            final(self).wf(),
            final(self).chars() == old(self).chars(),
            final(self).reads_expression() == old(self).reads_expression(),
            final(self).reads_template() == old(self).reads_template(),
            final(self).is_strict() == old(self).is_strict(),
            final(self).pos() == digits_from(old(self).chars(), old(self).pos()),
    {
        loop
            invariant
                self.wf(),
                self.chars() == old(self).chars(),
                self.reads_expression() == old(self).reads_expression(),
                self.reads_template() == old(self).reads_template(),
                self.is_strict() == old(self).is_strict(),
                digits_from(self.chars(), self.pos()) == digits_from(old(self).chars(), old(self).pos()),
            decreases self.chars().len() - self.pos(),
        {
            proof {
                self.lemma_wf();
            }
            let (a, _, _, _) = self.chars.peek();
            match a {
                Some(x) => {
                    if !is_digit_char(x) {
                        return;
                    }
                    self.chars.next();
                },
                None => {
                    return;
                },
            }
        }
    }

    /// Takes an exponent part where one stands next.
    fn exponent(&mut self)
        requires
            old(self).wf(),
        ensures
            final(self).wf(),
            final(self).chars() == old(self).chars(),
            final(self).reads_expression() == old(self).reads_expression(),
            final(self).reads_template() == old(self).reads_template(),
            final(self).is_strict() == old(self).is_strict(),
            final(self).pos() == exponent_end(old(self).chars(), old(self).pos()),
    {
        proof {
            self.lemma_wf();
        }
        let (a, b, c, _) = self.chars.peek();
        let is_e = match a {
            Some(e) => e == 'e' || e == 'E',
            None => false,
        };
        if !is_e {
            return;
        }
        let signed = match b {
            Some(x) => x == '+' || x == '-',
            None => false,
        };
        let digit = if signed { c } else { b };
        let starts = match digit {
            Some(x) => is_digit_char(x),
            None => false,
        };
        if !starts {
            return;
        }
        self.chars.next();
        if signed {
            self.chars.next();
        }
        self.digits();
    }

    /// Takes `(\.[0-9]*)?` and an exponent part, where they stand next.
    fn decimal_tail(&mut self)
        requires
            old(self).wf(),
        ensures
            final(self).wf(),
            final(self).chars() == old(self).chars(),
            final(self).reads_expression() == old(self).reads_expression(),
            final(self).reads_template() == old(self).reads_template(),
            final(self).is_strict() == old(self).is_strict(),
            final(self).pos() == decimal_tail(old(self).chars(), old(self).pos()),
    {
        proof {
            self.lemma_wf();
        }
        let (a, _, _, _) = self.chars.peek();
        if a == Some('.') {
            self.chars.next();
            self.digits();
        }
        self.exponent();
    }

    fn number(&mut self, c: char, next: Option<char>) -> (t: Token)
        requires
            old(self).wf(),
        ensures
            final(self).wf(),
            final(self).chars() == old(self).chars(),
            final(self).reads_expression() == old(self).reads_expression(),
            final(self).reads_template() == old(self).reads_template(),
            final(self).is_strict() == old(self).is_strict(),
            (t, final(self).pos()) == number(old(self).chars(), c, next, old(self).pos()),
    {
        if c == '0' {
            match next {
                None => Token::NumericLiteral(NumberType::Float),
                Some(n) => {
                    if n == 'x' || n == 'X' {
                        self.run(CharClass::Hex);
                        Token::NumericLiteral(NumberType::Hex)
                    } else if n == 'o' || n == 'O' {
                        self.run(CharClass::Octal);
                        Token::NumericLiteral(NumberType::Octal)
                    } else if n == 'b' || n == 'B' {
                        self.run(CharClass::Binary);
                        Token::NumericLiteral(NumberType::Binary)
                    } else {
                        self.decimal_tail();
                        Token::NumericLiteral(NumberType::Float)
                    }
                },
            }
        } else if is_digit_char(c) {
            self.digits();
            self.decimal_tail();
            Token::NumericLiteral(NumberType::Float)
        } else {
            match next {
                Some(n) => {
                    if is_digit_char(n) {
                        self.digits();
                        self.exponent();
                        Token::NumericLiteral(NumberType::Float)
                    } else {
                        Token::Unknown
                    }
                },
                None => Token::Unknown,
            }
        }
    }

    fn string(&mut self, quote: char) -> (t: Token)
        requires
            old(self).wf(),
        ensures
            final(self).wf(),
            final(self).chars() == old(self).chars(),
            final(self).reads_expression() == old(self).reads_expression(),
            final(self).reads_template() == old(self).reads_template(),
            final(self).is_strict() == old(self).is_strict(),
            (t, final(self).pos()) == string(old(self).chars(), quote, old(self).pos()),
    {
        loop
            invariant
                self.wf(),
                self.chars() == old(self).chars(),
                self.reads_expression() == old(self).reads_expression(),
                self.reads_template() == old(self).reads_template(),
                self.is_strict() == old(self).is_strict(),
                string(self.chars(), quote, self.pos()) == string(old(self).chars(), quote, old(self).pos()),
            decreases self.chars().len() - self.pos(),
        {
            let (next, _, _, _) = self.chars.entry();
            match next {
                Some(x) => {
                    if x == quote {
                        return Token::StringLiteral;
                    }
                },
                None => {
                    return Token::Unknown;
                },
            }
        }
    }

    fn line_comment(&mut self) -> (t: Token)
        requires
            old(self).wf(),
        ensures
            final(self).wf(),
            final(self).chars() == old(self).chars(),
            final(self).reads_expression() == old(self).reads_expression(),
            final(self).reads_template() == old(self).reads_template(),
            final(self).is_strict() == old(self).is_strict(),
            (t, final(self).pos()) == line_comment(old(self).chars(), old(self).pos()),
    {
        loop
            invariant
                self.wf(),
                self.chars() == old(self).chars(),
                self.reads_expression() == old(self).reads_expression(),
                self.reads_template() == old(self).reads_template(),
                self.is_strict() == old(self).is_strict(),
                line_comment(self.chars(), self.pos()) == line_comment(old(self).chars(), old(self).pos()),
            decreases self.chars().len() - self.pos(),
        {
            match self.chars.next() {
                Some(x) => {
                    if is_line_terminator_char(x) {
                        return Token::Comment;
                    }
                },
                None => {
                    return Token::Unknown;
                },
            }
        }
    }

    fn block_comment(&mut self) -> (t: Token)
        requires
            old(self).wf(),
        ensures
            final(self).wf(),
            final(self).chars() == old(self).chars(),
            final(self).reads_expression() == old(self).reads_expression(),
            final(self).reads_template() == old(self).reads_template(),
            final(self).is_strict() == old(self).is_strict(),
            (t, final(self).pos()) == block_comment(old(self).chars(), old(self).pos()),
    {
        loop
            invariant
                self.wf(),
                self.chars() == old(self).chars(),
                self.reads_expression() == old(self).reads_expression(),
                self.reads_template() == old(self).reads_template(),
                self.is_strict() == old(self).is_strict(),
                block_comment(self.chars(), self.pos()) == block_comment(old(self).chars(), old(self).pos()),
            decreases self.chars().len() - self.pos(),
        {
            let (x, next, _, _) = self.chars.entry();
            match x {
                Some(x) => {
                    if x == '*' && is(&next, '/') {
                        self.chars.next();
                        return Token::Comment;
                    }
                },
                None => {
                    return Token::Unknown;
                },
            }
        }
    }

    /// Reads the next token; `None` at the end of the input.
    #[verifier::rlimit(60)]
    pub fn next(&mut self) -> (r: Option<Token>)
        requires
            old(self).wf(),
        ensures
            final(self).wf(),
            final(self).chars() == old(self).chars(),
            final(self).is_strict() == old(self).is_strict(),
            final(self).reads_expression() == old(self).reads_expression(),
            final(self).reads_template() == old(self).reads_template(),
            final(self).is_strict() == old(self).is_strict(),
            (r, final(self).pos()) == next_token(
                old(self).chars(),
                old(self).pos(),
                old(self).reads_expression(),
                old(self).reads_template(),
            ),
    {
        let (a, b, c, d) = self.chars.entry();
        let x = match a {
            Some(x) => x,
            None => {
                return None;
            },
        };
        let t =
        if is(&a, '(') {
            Token::LParen
        } else if is(&a, ')') {
            Token::RParen
        } else if is(&a, '{') {
            Token::LCurly
        } else if is(&a, '[') {
            Token::LSquare
        } else if is(&a, ']') {
            Token::RSquare
        } else if is(&a, ';') {
            Token::Semicolon
        } else if is(&a, ',') {
            Token::Comma
        } else if is(&a, '~') {
            Token::Tilde
        } else if is(&a, '?') {
            Token::Quest
        } else if is(&a, ':') {
            Token::Colon
        } else if is(&a, '.') && is(&b, '.') && is(&c, '.') {
            self.chars.next();
            self.chars.next();
            Token::Ellipsis
        } else if is(&a, '.') && is_non_digit(&b) {
            Token::Period
        } else if is(&a, '<') && is(&b, '<') && is(&c, '=') {
            self.chars.next();
            self.chars.next();
            Token::LAngleAngleEq
        } else if is(&a, '<') && is(&b, '<') {
            self.chars.next();
            Token::LAngleAngle
        } else if is(&a, '<') && is(&b, '=') {
            self.chars.next();
            Token::LessEq
        } else if is(&a, '<') {
            Token::LAngle
        } else if is(&a, '>') && is(&b, '>') && is(&c, '>') && is(&d, '=') {
            self.chars.next();
            self.chars.next();
            self.chars.next();
            Token::RAngleAngleAngleEq
        } else if is(&a, '>') && is(&b, '>') && is(&c, '>') {
            self.chars.next();
            self.chars.next();
            Token::RAngleAngleAngle
        } else if is(&a, '>') && is(&b, '>') && is(&c, '=') {
            self.chars.next();
            self.chars.next();
            Token::RAngleAngleEq
        } else if is(&a, '>') && is(&b, '>') {
            self.chars.next();
            Token::RAngleAngle
        } else if is(&a, '>') && is(&b, '=') {
            self.chars.next();
            Token::GreaterEq
        } else if is(&a, '>') {
            Token::RAngle
        } else if is(&a, '!') && is(&b, '=') && is(&c, '=') {
            self.chars.next();
            self.chars.next();
            Token::NEqEq
        } else if is(&a, '!') && is(&b, '=') {
            self.chars.next();
            Token::NEq
        } else if is(&a, '!') {
            Token::Exclam
        } else if is(&a, '=') && is(&b, '=') && is(&c, '=') {
            self.chars.next();
            self.chars.next();
            Token::EqEqEq
        } else if is(&a, '=') && is(&b, '=') {
            self.chars.next();
            Token::EqEq
        } else if is(&a, '=') {
            Token::Eq
        } else if is(&a, '+') && is(&b, '+') {
            self.chars.next();
            Token::PlusPlus
        } else if is(&a, '+') && is(&b, '=') {
            self.chars.next();
            Token::PlusEq
        } else if is(&a, '+') {
            Token::Plus
        } else if is(&a, '-') && is(&b, '-') {
            self.chars.next();
            Token::MinusMinus
        } else if is(&a, '-') && is(&b, '=') {
            self.chars.next();
            Token::MinusEq
        } else if is(&a, '-') {
            Token::Minus
        } else if is(&a, '%') && is(&b, '=') {
            self.chars.next();
            Token::ModEq
        } else if is(&a, '%') {
            Token::Mod
        } else if is(&a, '*') && is(&b, '*') && is(&c, '=') {
            self.chars.next();
            self.chars.next();
            Token::StarStarEq
        } else if is(&a, '*') && is(&b, '=') {
            self.chars.next();
            Token::StarEq
        } else if is(&a, '*') && is(&b, '*') {
            self.chars.next();
            Token::StarStar
        } else if is(&a, '*') {
            Token::Star
        } else if is(&a, '&') && is(&b, '&') {
            self.chars.next();
            Token::AmpAmp
        } else if is(&a, '&') && is(&b, '=') {
            self.chars.next();
            Token::AmpEq
        } else if is(&a, '&') {
            Token::Amp
        } else if is(&a, '|') && is(&b, '|') {
            self.chars.next();
            Token::BarBar
        } else if is(&a, '|') && is(&b, '=') {
            self.chars.next();
            Token::BarEq
        } else if is(&a, '|') {
            Token::Bar
        } else if is(&a, '^') && is(&b, '=') {
            self.chars.next();
            Token::CaretEq
        } else if is(&a, '^') {
            Token::Caret
        } else if is(&a, '/') && is(&b, '/') {
            self.chars.next();
            self.line_comment()
        } else if is(&a, '/') && is(&b, '*') {
            self.chars.next();
            self.block_comment()
        } else if is(&a, '/') && is(&b, '=') && !self.expression {
            self.chars.next();
            Token::DivEq
        } else if is(&a, '/') {
            if self.expression {
                Token::Unknown
            } else {
                Token::Div
            }
        } else if is(&a, '`') {
            Token::Unknown
        } else if is(&a, '}') {
            if self.template {
                Token::Unknown
            } else {
                Token::RCurly
            }
        } else {
            if is_digit_char(x) || x == '.' {
                self.number(x, b)
            } else if x == '"' || x == '\'' {
                self.string(x)
            } else if x == '$' || x == '_' || x == '\\' {
                self.identifier(b);
                Token::IdentifierName
            } else if is_whitespace_char(x) {
                Token::Whitespace
            } else if is_line_terminator_char(x) {
                Token::LineTerminator
            } else if codepoint_id_start(x) {
                self.identifier(b);
                Token::IdentifierName
            } else {
                Token::Unknown
            }
        };
        Some(t)
    }
}


proof fn lemma_run_end_bounds(chars: Seq<char>, q: nat, class: CharClass)
    requires
        q <= chars.len(),
    ensures
        q <= run_end(chars, q, class) <= chars.len(),
        q < chars.len() ==> q < run_end(chars, q, class),
    decreases chars.len() - q,
{
    if q < chars.len() && char_at(chars, q + 1int) is Some {
        lemma_run_end_bounds(chars, q + 1, class);
    }
}

proof fn lemma_digits_bounds(chars: Seq<char>, p: nat)
    ensures
        p <= digits_from(chars, p),
        p <= chars.len() ==> digits_from(chars, p) <= chars.len(),
    decreases chars.len() - p,
{
    if p < chars.len() && is_digit(chars[p as int]) {
        lemma_digits_bounds(chars, p + 1);
    }
}

proof fn lemma_decimal_bounds(chars: Seq<char>, p: nat)
    requires
        p <= chars.len(),
    ensures
        p <= exponent_end(chars, p) <= chars.len(),
        p <= decimal_tail(chars, p) <= chars.len(),
{
    lemma_digits_bounds(chars, p + 1);
    lemma_digits_bounds(chars, p + 2);
    if char_at(chars, p as int) == Some('.') {
        lemma_digits_bounds(chars, p + 1);
        let d = digits_from(chars, p + 1);
        lemma_digits_bounds(chars, d + 1);
        lemma_digits_bounds(chars, d + 2);
    }
}

proof fn lemma_scans_bounds(chars: Seq<char>, q: nat, quote: char)
    requires
        q <= chars.len(),
    ensures
        q <= line_comment(chars, q).1 <= chars.len(),
        q <= block_comment(chars, q).1 <= chars.len(),
        q <= string(chars, quote, q).1 <= chars.len(),
    decreases chars.len() - q,
{
    if q < chars.len() {
        lemma_scans_bounds(chars, q + 1, quote);
    }
}

/// Each token read takes at least one character and stays within the input;
/// at the end of the input nothing is read and nothing moves.
pub proof fn lemma_next_token_advances(chars: Seq<char>, p: nat, expression: bool, template: bool)
    requires
        p <= chars.len(),
    ensures
        p < chars.len() ==> {
            &&& next_token(chars, p, expression, template).0 is Some
            &&& p < next_token(chars, p, expression, template).1 <= chars.len()
        },
        p == chars.len() ==> next_token(chars, p, expression, template) == (None::<Token>, p),
{
    if p < chars.len() {
        let p1 = advanced(chars, p);
        let p2 = advanced(chars, p1);
        lemma_scans_bounds(chars, p1, chars[p as int]);
        lemma_scans_bounds(chars, p2, chars[p as int]);
        lemma_run_end_bounds(chars, p1, CharClass::Hex);
        lemma_run_end_bounds(chars, p1, CharClass::Octal);
        lemma_run_end_bounds(chars, p1, CharClass::Binary);
        lemma_run_end_bounds(chars, p1, CharClass::Digit);
        lemma_run_end_bounds(chars, p1, CharClass::IdContinue);
        lemma_digits_bounds(chars, p1);
        lemma_decimal_bounds(chars, p1);
        lemma_decimal_bounds(chars, digits_from(chars, p1));
    }
}


/// How a punctuator is spelled; other tokens have no fixed spelling.
pub open spec fn spelling(t: Token) -> Seq<char> {
    match t {
        Token::LParen => seq!['('],
        Token::RParen => seq![')'],
        Token::LCurly => seq!['{'],
        Token::LSquare => seq!['['],
        Token::RSquare => seq![']'],
        Token::Semicolon => seq![';'],
        Token::Comma => seq![','],
        Token::Tilde => seq!['~'],
        Token::Quest => seq!['?'],
        Token::Colon => seq![':'],
        Token::Ellipsis => seq!['.', '.', '.'],
        Token::LAngleAngleEq => seq!['<', '<', '='],
        Token::LAngleAngle => seq!['<', '<'],
        Token::LessEq => seq!['<', '='],
        Token::LAngle => seq!['<'],
        Token::RAngleAngleAngleEq => seq!['>', '>', '>', '='],
        Token::RAngleAngleAngle => seq!['>', '>', '>'],
        Token::RAngleAngleEq => seq!['>', '>', '='],
        Token::RAngleAngle => seq!['>', '>'],
        Token::GreaterEq => seq!['>', '='],
        Token::RAngle => seq!['>'],
        Token::NEqEq => seq!['!', '=', '='],
        Token::NEq => seq!['!', '='],
        Token::Exclam => seq!['!'],
        Token::EqEqEq => seq!['=', '=', '='],
        Token::EqEq => seq!['=', '='],
        Token::Eq => seq!['='],
        Token::PlusPlus => seq!['+', '+'],
        Token::PlusEq => seq!['+', '='],
        Token::Plus => seq!['+'],
        Token::MinusMinus => seq!['-', '-'],
        Token::MinusEq => seq!['-', '='],
        Token::Minus => seq!['-'],
        Token::ModEq => seq!['%', '='],
        Token::Mod => seq!['%'],
        Token::StarStarEq => seq!['*', '*', '='],
        Token::StarEq => seq!['*', '='],
        Token::StarStar => seq!['*', '*'],
        Token::Star => seq!['*'],
        Token::AmpAmp => seq!['&', '&'],
        Token::AmpEq => seq!['&', '='],
        Token::Amp => seq!['&'],
        Token::BarBar => seq!['|', '|'],
        Token::BarEq => seq!['|', '='],
        Token::Bar => seq!['|'],
        Token::CaretEq => seq!['^', '='],
        Token::Caret => seq!['^'],
        Token::Period => seq!['.'],
        Token::DivEq => seq!['/', '='],
        Token::Div => seq!['/'],
        Token::RCurly => seq!['}'],
        _ => Seq::empty(),
    }
}

/// Whether the characters from `p` begin with the spelling of `t`.
pub open spec fn spelled_at(chars: Seq<char>, p: nat, t: Token) -> bool {
    let s = spelling(t);
    let (a, b, c, d) = window(chars, p as int);
    &&& 1 <= s.len() <= 4
    &&& a == Some(s[0])
    &&& s.len() >= 2 ==> b == Some(s[1])
    &&& s.len() >= 3 ==> c == Some(s[2])
    &&& s.len() >= 4 ==> d == Some(s[3])
}

/// The tokenizer reads punctuators by the longest match: where the
/// characters at `p` spell a punctuator and no longer punctuator is spelled
/// there, that punctuator is read and takes as many characters as its
/// spelling. (`.`, `/`, `/=` and `}` are left out: what they begin depends
/// on what follows them and on the tokenizer's mode.) So `>=` is one token.
pub proof fn law_longest_punctuator(chars: Seq<char>, p: nat, t: Token, expression: bool, template: bool)
    requires
        t == Token::LParen || t == Token::RParen || t == Token::LCurly || t == Token::LSquare || t == Token::RSquare || t == Token::Semicolon || t == Token::Comma || t == Token::Tilde || t == Token::Quest || t == Token::Colon || t == Token::Ellipsis || t == Token::LAngleAngleEq || t == Token::LAngleAngle || t == Token::LessEq || t == Token::LAngle || t == Token::RAngleAngleAngleEq || t == Token::RAngleAngleAngle || t == Token::RAngleAngleEq || t == Token::RAngleAngle || t == Token::GreaterEq || t == Token::RAngle || t == Token::NEqEq || t == Token::NEq || t == Token::Exclam || t == Token::EqEqEq || t == Token::EqEq || t == Token::Eq || t == Token::PlusPlus || t == Token::PlusEq || t == Token::Plus || t == Token::MinusMinus || t == Token::MinusEq || t == Token::Minus || t == Token::ModEq || t == Token::Mod || t == Token::StarStarEq || t == Token::StarEq || t == Token::StarStar || t == Token::Star || t == Token::AmpAmp || t == Token::AmpEq || t == Token::Amp || t == Token::BarBar || t == Token::BarEq || t == Token::Bar || t == Token::CaretEq || t == Token::Caret,
        spelled_at(chars, p, t),
        forall|u: Token| #[trigger] spelled_at(chars, p, u) ==> spelling(u).len() <= spelling(t).len(),
    ensures
        next_token(chars, p, expression, template) == (Some(t), p + spelling(t).len()),
{
    match t {
        Token::LParen => {
        },
        Token::RParen => {
        },
        Token::LCurly => {
        },
        Token::LSquare => {
        },
        Token::RSquare => {
        },
        Token::Semicolon => {
        },
        Token::Comma => {
        },
        Token::Tilde => {
        },
        Token::Quest => {
        },
        Token::Colon => {
        },
        Token::Ellipsis => {
        },
        Token::LAngleAngleEq => {
        },
        Token::LAngleAngle => {
            assert(spelled_at(chars, p, Token::LAngleAngleEq) ==> spelling(Token::LAngleAngleEq).len() <= spelling(t).len());
        },
        Token::LessEq => {
        },
        Token::LAngle => {
            assert(spelled_at(chars, p, Token::LAngleAngleEq) ==> spelling(Token::LAngleAngleEq).len() <= spelling(t).len());
            assert(spelled_at(chars, p, Token::LAngleAngle) ==> spelling(Token::LAngleAngle).len() <= spelling(t).len());
            assert(spelled_at(chars, p, Token::LessEq) ==> spelling(Token::LessEq).len() <= spelling(t).len());
        },
        Token::RAngleAngleAngleEq => {
        },
        Token::RAngleAngleAngle => {
            assert(spelled_at(chars, p, Token::RAngleAngleAngleEq) ==> spelling(Token::RAngleAngleAngleEq).len() <= spelling(t).len());
        },
        Token::RAngleAngleEq => {
        },
        Token::RAngleAngle => {
            assert(spelled_at(chars, p, Token::RAngleAngleAngleEq) ==> spelling(Token::RAngleAngleAngleEq).len() <= spelling(t).len());
            assert(spelled_at(chars, p, Token::RAngleAngleAngle) ==> spelling(Token::RAngleAngleAngle).len() <= spelling(t).len());
            assert(spelled_at(chars, p, Token::RAngleAngleEq) ==> spelling(Token::RAngleAngleEq).len() <= spelling(t).len());
        },
        Token::GreaterEq => {
        },
        Token::RAngle => {
            assert(spelled_at(chars, p, Token::RAngleAngleAngleEq) ==> spelling(Token::RAngleAngleAngleEq).len() <= spelling(t).len());
            assert(spelled_at(chars, p, Token::RAngleAngleAngle) ==> spelling(Token::RAngleAngleAngle).len() <= spelling(t).len());
            assert(spelled_at(chars, p, Token::RAngleAngleEq) ==> spelling(Token::RAngleAngleEq).len() <= spelling(t).len());
            assert(spelled_at(chars, p, Token::RAngleAngle) ==> spelling(Token::RAngleAngle).len() <= spelling(t).len());
            assert(spelled_at(chars, p, Token::GreaterEq) ==> spelling(Token::GreaterEq).len() <= spelling(t).len());
        },
        Token::NEqEq => {
        },
        Token::NEq => {
            assert(spelled_at(chars, p, Token::NEqEq) ==> spelling(Token::NEqEq).len() <= spelling(t).len());
        },
        Token::Exclam => {
            assert(spelled_at(chars, p, Token::NEqEq) ==> spelling(Token::NEqEq).len() <= spelling(t).len());
            assert(spelled_at(chars, p, Token::NEq) ==> spelling(Token::NEq).len() <= spelling(t).len());
        },
        Token::EqEqEq => {
        },
        Token::EqEq => {
            assert(spelled_at(chars, p, Token::EqEqEq) ==> spelling(Token::EqEqEq).len() <= spelling(t).len());
        },
        Token::Eq => {
            assert(spelled_at(chars, p, Token::EqEqEq) ==> spelling(Token::EqEqEq).len() <= spelling(t).len());
            assert(spelled_at(chars, p, Token::EqEq) ==> spelling(Token::EqEq).len() <= spelling(t).len());
        },
        Token::PlusPlus => {
        },
        Token::PlusEq => {
        },
        Token::Plus => {
            assert(spelled_at(chars, p, Token::PlusPlus) ==> spelling(Token::PlusPlus).len() <= spelling(t).len());
            assert(spelled_at(chars, p, Token::PlusEq) ==> spelling(Token::PlusEq).len() <= spelling(t).len());
        },
        Token::MinusMinus => {
        },
        Token::MinusEq => {
        },
        Token::Minus => {
            assert(spelled_at(chars, p, Token::MinusMinus) ==> spelling(Token::MinusMinus).len() <= spelling(t).len());
            assert(spelled_at(chars, p, Token::MinusEq) ==> spelling(Token::MinusEq).len() <= spelling(t).len());
        },
        Token::ModEq => {
        },
        Token::Mod => {
            assert(spelled_at(chars, p, Token::ModEq) ==> spelling(Token::ModEq).len() <= spelling(t).len());
        },
        Token::StarStarEq => {
        },
        Token::StarEq => {
        },
        Token::StarStar => {
            assert(spelled_at(chars, p, Token::StarStarEq) ==> spelling(Token::StarStarEq).len() <= spelling(t).len());
        },
        Token::Star => {
            assert(spelled_at(chars, p, Token::StarStarEq) ==> spelling(Token::StarStarEq).len() <= spelling(t).len());
            assert(spelled_at(chars, p, Token::StarEq) ==> spelling(Token::StarEq).len() <= spelling(t).len());
            assert(spelled_at(chars, p, Token::StarStar) ==> spelling(Token::StarStar).len() <= spelling(t).len());
        },
        Token::AmpAmp => {
        },
        Token::AmpEq => {
        },
        Token::Amp => {
            assert(spelled_at(chars, p, Token::AmpAmp) ==> spelling(Token::AmpAmp).len() <= spelling(t).len());
            assert(spelled_at(chars, p, Token::AmpEq) ==> spelling(Token::AmpEq).len() <= spelling(t).len());
        },
        Token::BarBar => {
        },
        Token::BarEq => {
        },
        Token::Bar => {
            assert(spelled_at(chars, p, Token::BarBar) ==> spelling(Token::BarBar).len() <= spelling(t).len());
            assert(spelled_at(chars, p, Token::BarEq) ==> spelling(Token::BarEq).len() <= spelling(t).len());
        },
        Token::CaretEq => {
        },
        Token::Caret => {
            assert(spelled_at(chars, p, Token::CaretEq) ==> spelling(Token::CaretEq).len() <= spelling(t).len());
        },
        _ => {},
    }
}

} // verus!
