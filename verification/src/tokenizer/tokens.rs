//! The tokens produced by the tokenizer, and their mathematical models.
use vstd::prelude::*;
use vstd::utf8::encode_utf8;

verus! {

/// The UTF-8 bytes of a string; this is how the contracts speak of token text.
pub open spec fn text(s: &String) -> Seq<u8> {
    encode_utf8(s@)
}

#[derive(Debug, Clone, Copy, PartialEq, Eq, Structural)]
pub enum PunctuatorToken {
    CurlyOpen,
    CurlyClose,
    ParenOpen,
    ParenClose,
    SquareOpen,
    SquareClose,
    Semicolon,
    Comma,
    Tilde,
    Question,
    Colon,
    Period,
    Ellipsis,
    LAngle,
    LAngleEq,
    LAngleAngle,
    LAngleAngleEq,
    LAngleExclamDashDash,
    RAngle,
    RAngleEq,
    RAngleAngle,
    RAngleAngleEq,
    RAngleAngleAngle,
    RAngleAngleAngleEq,
    Exclam,
    ExclamEq,
    ExclamEqEq,
    Eq,
    Arrow,
    EqEq,
    EqEqEq,
    Plus,
    PlusEq,
    PlusPlus,
    Minus,
    MinusEq,
    MinusMinus,
    MinusMinusAngle,
    Percent,
    PercentEq,
    Star,
    StarEq,
    StarStar,
    StarStarEq,
    Slash,
    SlashEq,
    Amp,
    AmpAmp,
    AmpEq,
    Bar,
    BarBar,
    BarEq,
    Caret,
    CaretEq,
}

#[derive(Debug, Clone, Copy, PartialEq, Eq, Structural)]
pub enum CommentFormat {
    Line,
    Block,
    HTMLOpen,
    HTMLClose,
}

#[derive(Debug, Clone, PartialEq, Eq)]
pub struct CommentToken {
    pub format: CommentFormat,
    pub value: String,
}

#[derive(Debug, Clone, PartialEq, Eq)]
pub struct WhitespaceToken {}

#[derive(Debug, Clone, PartialEq, Eq)]
pub struct LineTerminatorToken {}

#[derive(Debug, Clone, PartialEq, Eq)]
pub struct RegularExpressionLiteralToken {
    pub pattern: String,
    pub flags: String,
}

#[derive(Debug, Clone, PartialEq, Eq)]
pub struct IdentifierNameToken {
    pub name: String,
}

/// A numeric literal, held as its source text; its floating-point value is
/// not computed.
#[derive(Debug, Clone, PartialEq, Eq)]
pub struct NumericLiteralToken {
    pub raw: String,
}

#[derive(Debug, Clone, PartialEq, Eq)]
pub struct StringLiteralToken {
    pub value: String,
}

#[derive(Debug, Clone, Copy, PartialEq, Eq, Structural)]
pub enum TemplateFormat {
    // `foo`
    NoSubstitution,
    // `foo${
    Head,
    // }foo${
    Middle,
    // }foo`
    Tail,
}

#[derive(Debug, Clone, PartialEq, Eq)]
pub struct TemplateToken {
    pub format: TemplateFormat,
    pub cooked: String,
    pub raw: String,
}

#[derive(Debug, Clone, PartialEq, Eq)]
pub struct EOFToken {}

#[derive(Clone, Debug, PartialEq, Eq)]
pub enum Token {
    Punctuator(PunctuatorToken),
    Comment(CommentToken),
    Whitespace(WhitespaceToken),
    LineTerminator(LineTerminatorToken),
    RegularExpressionLiteral(RegularExpressionLiteralToken),
    IdentifierName(IdentifierNameToken),
    NumericLiteral(NumericLiteralToken),
    StringLiteral(StringLiteralToken),
    Template(TemplateToken),
    EOF(EOFToken),
}

/// The mathematical model of a token: its kind and the UTF-8 bytes of its text.
pub enum TokenModel {
    Punctuator(PunctuatorToken),
    Comment(CommentFormat, Seq<u8>),
    Whitespace,
    LineTerminator,
    RegularExpressionLiteral(Seq<u8>, Seq<u8>),
    IdentifierName(Seq<u8>),
    NumericLiteral(Seq<u8>),
    StringLiteral(Seq<u8>),
    /// format, cooked, raw
    Template(TemplateFormat, Seq<u8>, Seq<u8>),
    EOF,
}

impl View for Token {
    type V = TokenModel;

    open spec fn view(&self) -> TokenModel {
        match self {
            Token::Punctuator(p) => TokenModel::Punctuator(*p),
            Token::Comment(c) => TokenModel::Comment(c.format, text(&c.value)),
            Token::Whitespace(_) => TokenModel::Whitespace,
            Token::LineTerminator(_) => TokenModel::LineTerminator,
            Token::RegularExpressionLiteral(r) => TokenModel::RegularExpressionLiteral(
                text(&r.pattern),
                text(&r.flags),
            ),
            Token::IdentifierName(i) => TokenModel::IdentifierName(text(&i.name)),
            Token::NumericLiteral(n) => TokenModel::NumericLiteral(text(&n.raw)),
            Token::StringLiteral(s) => TokenModel::StringLiteral(text(&s.value)),
            Token::Template(t) => TokenModel::Template(t.format, text(&t.cooked), text(&t.raw)),
            Token::EOF(_) => TokenModel::EOF,
        }
    }
}

impl Token {
    /// The end-of-input token, which is also the default token.
    pub fn eof() -> (t: Token)
        ensures
            t@ == TokenModel::EOF,
    {
        Token::EOF(EOFToken {})
    }

    /// A copy of the token.
    pub fn duplicate(&self) -> (t: Token)
        ensures
            t@ == self@,
    {
        match self {
            Token::Punctuator(p) => Token::Punctuator(*p),
            Token::Comment(c) => Token::Comment(CommentToken { format: c.format, value: c.value.clone() }),
            Token::Whitespace(_) => Token::Whitespace(WhitespaceToken {}),
            Token::LineTerminator(_) => Token::LineTerminator(LineTerminatorToken {}),
            Token::RegularExpressionLiteral(r) => Token::RegularExpressionLiteral(
                RegularExpressionLiteralToken { pattern: r.pattern.clone(), flags: r.flags.clone() },
            ),
            Token::IdentifierName(i) => Token::IdentifierName(IdentifierNameToken { name: i.name.clone() }),
            Token::NumericLiteral(n) => Token::NumericLiteral(NumericLiteralToken { raw: n.raw.clone() }),
            Token::StringLiteral(v) => Token::StringLiteral(StringLiteralToken { value: v.value.clone() }),
            Token::Template(t) => Token::Template(
                TemplateToken { format: t.format, cooked: t.cooked.clone(), raw: t.raw.clone() },
            ),
            Token::EOF(_) => Token::EOF(EOFToken {}),
        }
    }
}

} // verus!
