//! A character-at-a-time lexical state machine: each state names the token
//! being read so far, and one step consumes (or looks at) a single character.

use vstd::prelude::*;

verus! {

/// What the Unicode tables say of `c`: whether it has the `ID_Start` property.
pub uninterp spec fn unicode_id_start(c: char) -> bool;

/// What the Unicode tables say of `c`: whether it has the `ID_Continue` property.
pub uninterp spec fn unicode_id_continue(c: char) -> bool;

pub open spec fn is_ascii_letter(c: char) -> bool {
    ('a' <= c && c <= 'z') || ('A' <= c && c <= 'Z')
}

pub open spec fn is_ascii_digit(c: char) -> bool {
    '0' <= c && c <= '9'
}

/// `ucd::Codepoint::is_id_start`, a binary search in the crate's `ID_Start`
/// table. Trusted to return the named table value; below U+0080 that table
/// holds exactly the ASCII letters. Nothing else of the table is stated.
#[verifier::external_body]
pub(crate) fn codepoint_id_start(c: char) -> (r: bool)
    ensures
        r == unicode_id_start(c),
        c < '\u{80}' ==> (r <==> is_ascii_letter(c)),
{
    ucd::Codepoint::is_id_start(c)
}

/// `ucd::Codepoint::is_id_continue`, a binary search in the crate's
/// `ID_Continue` table. Trusted to return the named table value; below U+0080
/// that table holds exactly the ASCII letters, the digits and `_`.
#[verifier::external_body]
pub(crate) fn codepoint_id_continue(c: char) -> (r: bool)
    ensures
        r == unicode_id_continue(c),
        c < '\u{80}' ==> (r <==> (is_ascii_letter(c) || is_ascii_digit(c) || c == '_')),
{
    ucd::Codepoint::is_id_continue(c)
}

/// A character that may begin an identifier, given whether it is `ID_Start`.
pub open spec fn ident_start_char(c: char, id_start: bool) -> bool {
    id_start || c == '$' || c == '_' || c == '\\'
}

/// A character that may go on an identifier, given whether it is `ID_Continue`.
pub open spec fn ident_continue_char(c: char, id_continue: bool) -> bool {
    id_continue || c == '$' || c == '_' || c == '\\' || c == '\u{200C}' || c == '\u{200D}'
}

pub fn is_ident_start(c: char) -> (r: bool)
    ensures
        r == ident_start_char(c, unicode_id_start(c)),
{
    codepoint_id_start(c) || c == '$' || c == '_' || c == '\\'
}

pub fn is_ident_continue(c: char) -> (r: bool)
    ensures
        r == ident_continue_char(c, unicode_id_continue(c)),
{
    codepoint_id_continue(c) || c == '$' || c == '_' || c == '\\' || c == '\u{200C}'
        || c == '\u{200D}'
}

/// Where an escape sequence returns to once it is read.
#[derive(Clone, Copy, PartialEq, Eq, Debug, Structural)]
pub enum EscapeReturnState {
    IdentifierPart,
    SingleString,
    DoubleString,
    TemplateChar,
}

impl EscapeReturnState {
    /// The state that reads on after the escape sequence.
    pub open spec fn resumed(self) -> TState {
        match self {
            EscapeReturnState::IdentifierPart => TState::Ident,
            EscapeReturnState::SingleString => TState::SChars,
            EscapeReturnState::DoubleString => TState::DChars,
            EscapeReturnState::TemplateChar => TState::TemplateChars,
        }
    }

    pub fn resume(self) -> (r: TState)
        ensures
            r == self.resumed(),
    {
        match self {
            EscapeReturnState::IdentifierPart => TState::Ident,
            EscapeReturnState::SingleString => TState::SChars,
            EscapeReturnState::DoubleString => TState::DChars,
            EscapeReturnState::TemplateChar => TState::TemplateChars,
        }
    }
}

#[derive(Clone, Copy, PartialEq, Eq, Debug, Structural)]
pub enum TState {
    Start,
    Unknown,
    MiscLineText,
    LParen,
    RParen,
    LCurly,
    RCurly,
    LSquare,
    RSquare,
    Semicolon,
    Comma,
    Tilde,
    Quest,
    Colon,
    Whitespace,
    LineTerminator,
    LAngle,
    LAngleEq,
    LAngleAngle,
    LAngleAngleEq,
    RAngle,
    RAngleEq,
    RAngleAngle,
    RAngleAngleEq,
    RAngleAngleAngle,
    RAngleAngleAngleEq,
    Exclam,
    ExclamEq,
    ExclamEqEq,
    Eq,
    EqEq,
    EqEqEq,
    Plus,
    PlusEq,
    PlusPlus,
    Minus,
    MinusEq,
    MinusMinus,
    Mod,
    ModEq,
    Star,
    StarEq,
    StarStar,
    StarStarEq,
    Amp,
    AmpEq,
    AmpAmp,
    Bar,
    BarEq,
    BarBar,
    Caret,
    CaretEq,
    OperatorSlash,
    ExpressionSlash,
    SlashEq,
    Period,
    Dot,
    MultiLineComment,
    MultiLineCommentStar,
    MultiLineCommentStarSlash,
    SingleLineComment,
    Ident,
    Zero,
    Hex,
    Octal,
    Binary,
    Integer,
    Decimal,
    Exponent,
    ExponentSign,
    ExponentDigit,
    LegacyOctal,
    DChars,
    DCharEnd,
    SChars,
    SCharEnd,
    RegexChars,
    RegexClassChars,
    RegexClassEscapedChars,
    RegexEscapedChars,
    RegexFlags,
    TemplateChars,
    TemplateDollarChar,
    TemplateCharLineTerminator,
    TemplateCharEnd,
    EscapeSequenceOrContinuation(EscapeReturnState),
    EscapeSequenceLegacyOctal1(EscapeReturnState),
    EscapeSequenceLegacyOctal2(EscapeReturnState),
    EscapeSequenceMaybeContinuationSequence(EscapeReturnState),
    EscapeSequence(EscapeReturnState),
    EscapeSequenceUnicode(EscapeReturnState),
    EscapeSequenceUnicodeHex(EscapeReturnState),
    EscapeSequenceUnicodeHex1(EscapeReturnState),
    EscapeSequenceUnicodeHex2(EscapeReturnState),
    EscapeSequenceUnicodeHex3(EscapeReturnState),
    EscapeSequenceUnicodeHex4(EscapeReturnState),
    EscapeSequenceHex1(EscapeReturnState),
    EscapeSequenceHex2(EscapeReturnState),
    EscapeSequenceDone(EscapeReturnState),
}

impl Default for TState {
    fn default() -> (r: TState)
        ensures
            r == TState::Start,
    {
        TState::Start
    }
}

/// What the reader knows of its context: whether a `/` here is an operator,
/// whether a `}` closes a template substitution, whether the legacy forms of
/// Annex B are read, and whether the rest of the line is taken as plain text.
#[derive(Clone, Copy, PartialEq, Eq, Debug, Structural)]
pub struct TokenFlags {
    pub operator: bool,
    pub template: bool,
    pub annexb: bool,
    pub read_line: bool,
}

impl TokenFlags {
    pub fn new(annexb: bool) -> (r: TokenFlags)
        ensures
            r == (TokenFlags { operator: false, template: false, annexb, read_line: false }),
    {
        TokenFlags { operator: false, template: false, annexb, read_line: false }
    }
}

impl Default for TokenFlags {
    fn default() -> (r: TokenFlags)
        ensures
            r == (TokenFlags { operator: false, template: false, annexb: false, read_line: false }),
    {
        TokenFlags::new(false)
    }
}

/// The state after `s` reads `c`, given whether `c` may begin and may go on
/// an identifier.
pub open spec fn transition(
    s: TState,
    c: char,
    flags: TokenFlags,
    ident_start: bool,
    ident_continue: bool,
) -> TState {
    match s {
        TState::Start => {
            if c == '\u{A}' || c == '\u{D}' || c == '\u{2028}' || c == '\u{2029}' {
                TState::LineTerminator
            } else if flags.read_line {
                TState::MiscLineText
            } else if c == '\u{9}' || c == '\u{B}' || c == '\u{C}' || c == '\u{20}' || c == '\u{A0}' || c == '\u{FEFF}' {
                TState::Whitespace
            } else if c == '\u{1680}' || ('\u{2000}' <= c && c <= '\u{200A}') || c == '\u{202F}' || c == '\u{205F}' || c == '\u{3000}' {
                TState::Whitespace
            } else if c == '(' {
                TState::LParen
            } else if (c == ')') {
                TState::RParen
            } else if c == '{' {
                TState::LCurly
            } else if c == '}' && flags.template {
                TState::TemplateChars
            } else if c == '}' {
                TState::RCurly
            } else if c == '[' {
                TState::LSquare
            } else if c == ']' {
                TState::RSquare
            } else if c == ';' {
                TState::Semicolon
            } else if c == ',' {
                TState::Comma
            } else if c == '~' {
                TState::Tilde
            } else if c == '?' {
                TState::Quest
            } else if c == ':' {
                TState::Colon
            } else if c == '<' {
                TState::LAngle
            } else if c == '>' {
                TState::RAngle
            } else if c == '!' {
                TState::Exclam
            } else if c == '=' {
                TState::Eq
            } else if c == '+' {
                TState::Plus
            } else if c == '-' {
                TState::Minus
            } else if c == '%' {
                TState::Mod
            } else if c == '*' {
                TState::Star
            } else if c == '&' {
                TState::Amp
            } else if c == '|' {
                TState::Bar
            } else if c == '^' {
                TState::Caret
            } else if c == '/' && flags.operator {
                TState::OperatorSlash
            } else if c == '/' {
                TState::ExpressionSlash
            } else if c == '`' {
                TState::TemplateChars
            } else if c == '.' {
                TState::Period
            } else if c == '0' {
                TState::Zero
            } else if '1' <= c && c <= '9' {
                TState::Integer
            } else if c == '"' {
                TState::DChars
            } else if c == '\'' {
                TState::SChars
            } else if c == '\\' {
                TState::EscapeSequence(EscapeReturnState::IdentifierPart)
            } else if ident_start {
                TState::Ident
            } else {
                TState::MiscLineText
            }
        },
        TState::Unknown => TState::Start,
        TState::MiscLineText => {
            if c == '\u{A}' || c == '\u{D}' || c == '\u{2028}' || c == '\u{2029}' {
                TState::Start
            } else {
                TState::MiscLineText
            }
        },
        TState::LParen => TState::Start,
        TState::RParen => TState::Start,
        TState::LCurly => TState::Start,
        TState::RCurly => TState::Start,
        TState::LSquare => TState::Start,
        TState::RSquare => TState::Start,
        TState::Semicolon => TState::Start,
        TState::Comma => TState::Start,
        TState::Tilde => TState::Start,
        TState::Quest => TState::Start,
        TState::Colon => TState::Start,
        TState::Whitespace => TState::Start,
        TState::LineTerminator => TState::Start,
        TState::LAngle => {
            if c == '<' {
                TState::LAngleAngle
            } else if c == '=' {
                TState::LAngleEq
            } else {
                TState::Start
            }
        },
        TState::LAngleEq => TState::Start,
        TState::LAngleAngle => {
            if c == '=' {
                TState::LAngleAngleEq
            } else {
                TState::Start
            }
        },
        TState::LAngleAngleEq => TState::Start,
        TState::RAngle => {
            if c == '>' {
                TState::RAngleAngle
            } else if c == '=' {
                TState::RAngleEq
            } else {
                TState::Start
            }
        },
        TState::RAngleEq => TState::Start,
        TState::RAngleAngle => {
            if c == '>' {
                TState::RAngleAngleAngle
            } else if c == '=' {
                TState::RAngleAngleEq
            } else {
                TState::Start
            }
        },
        TState::RAngleAngleEq => TState::Start,
        TState::RAngleAngleAngle => {
            if c == '=' {
                TState::RAngleAngleEq
            } else {
                TState::Start
            }
        },
        TState::RAngleAngleAngleEq => TState::Start,
        TState::Exclam => {
            if c == '=' {
                TState::ExclamEq
            } else {
                TState::Start
            }
        },
        TState::ExclamEq => {
            if c == '=' {
                TState::ExclamEqEq
            } else {
                TState::Start
            }
        },
        TState::ExclamEqEq => TState::Start,
        TState::Eq => {
            if c == '=' {
                TState::EqEq
            } else {
                TState::Start
            }
        },
        TState::EqEq => {
            if c == '=' {
                TState::EqEqEq
            } else {
                TState::Start
            }
        },
        TState::EqEqEq => TState::Start,
        TState::Plus => {
            if c == '+' {
                TState::PlusPlus
            } else if c == '=' {
                TState::PlusEq
            } else {
                TState::Start
            }
        },
        TState::PlusEq => TState::Start,
        TState::PlusPlus => TState::Start,
        TState::Minus => {
            if c == '-' {
                TState::MinusMinus
            } else if c == '=' {
                TState::MinusEq
            } else {
                TState::Start
            }
        },
        TState::MinusEq => TState::Start,
        TState::MinusMinus => TState::Start,
        TState::Mod => {
            if c == '=' {
                TState::ModEq
            } else {
                TState::Start
            }
        },
        TState::ModEq => TState::Start,
        TState::Star => {
            if c == '*' {
                TState::StarStar
            } else if c == '=' {
                TState::StarEq
            } else {
                TState::Start
            }
        },
        TState::StarEq => TState::Start,
        TState::StarStar => {
            if c == '=' {
                TState::StarEq
            } else {
                TState::Start
            }
        },
        TState::StarStarEq => TState::Start,
        TState::Amp => {
            if c == '=' {
                TState::AmpEq
            } else if c == '&' {
                TState::AmpAmp
            } else {
                TState::Start
            }
        },
        TState::AmpEq => TState::Start,
        TState::AmpAmp => TState::Start,
        TState::Bar => {
            if c == '=' {
                TState::BarEq
            } else if c == '|' {
                TState::BarBar
            } else {
                TState::Start
            }
        },
        TState::BarEq => TState::Start,
        TState::BarBar => TState::Start,
        TState::Caret => {
            if c == '=' {
                TState::CaretEq
            } else {
                TState::Start
            }
        },
        TState::CaretEq => TState::Start,
        TState::OperatorSlash => {
            if c == '/' {
                TState::SingleLineComment
            } else if c == '*' {
                TState::MultiLineComment
            } else if c == '=' {
                TState::SlashEq
            } else {
                TState::Start
            }
        },
        TState::ExpressionSlash => {
            if c == '/' {
                TState::SingleLineComment
            } else if c == '*' {
                TState::MultiLineComment
            } else if c == '[' {
                TState::RegexClassChars
            } else if c == '\\' {
                TState::RegexEscapedChars
            } else if c == '\u{A}' || c == '\u{D}' || c == '\u{2028}' || c == '\u{2029}' {
                TState::Unknown
            } else {
                TState::RegexChars
            }
        },
        TState::SlashEq => TState::Start,
        TState::Period => {
            if '0' <= c && c <= '9' {
                TState::Integer
            } else {
                TState::Dot
            }
        },
        TState::Dot => TState::Start,
        TState::MultiLineComment => {
            if c == '*' {
                TState::MultiLineCommentStar
            } else {
                TState::MultiLineComment
            }
        },
        TState::MultiLineCommentStar => {
            if c == '*' {
                TState::MultiLineCommentStar
            } else if c == '/' {
                TState::MultiLineCommentStarSlash
            } else {
                TState::MultiLineComment
            }
        },
        TState::MultiLineCommentStarSlash => TState::Start,
        TState::SingleLineComment => {
            if c == '\u{A}' || c == '\u{D}' || c == '\u{2028}' || c == '\u{2029}' {
                TState::Start
            } else {
                TState::SingleLineComment
            }
        },
        TState::Ident => {
            if c == '\\' {
                TState::EscapeSequence(EscapeReturnState::IdentifierPart)
            } else if ident_continue {
                TState::Ident
            } else {
                TState::Start
            }
        },
        TState::Zero => {
            if c == '.' {
                TState::Decimal
            } else if c == 'x' || c == 'X' {
                TState::Hex
            } else if c == 'o' || c == 'O' {
                TState::Octal
            } else if c == 'b' || c == 'B' {
                TState::Binary
            } else if c == 'e' || c == 'E' {
                TState::ExponentSign
            } else if ('0' <= c && c <= '7') && flags.annexb {
                TState::LegacyOctal
            } else if (c == '8' || c == '9') && flags.annexb {
                TState::Integer
            } else {
                TState::Start
            }
        },
        TState::Hex => {
            if ('0' <= c && c <= '9') || ('a' <= c && c <= 'f') || ('A' <= c && c <= 'F') {
                TState::Hex
            } else {
                TState::Start
            }
        },
        TState::Octal => {
            if '0' <= c && c <= '7' {
                TState::Octal
            } else {
                TState::Start
            }
        },
        TState::Binary => {
            if c == '0' || c == '1' {
                TState::Binary
            } else {
                TState::Start
            }
        },
        TState::Integer => {
            if '0' <= c && c <= '9' {
                TState::Integer
            } else if c == '.' {
                TState::Decimal
            } else if c == 'e' || c == 'E' {
                TState::ExponentSign
            } else {
                TState::Start
            }
        },
        TState::Decimal => {
            if '0' <= c && c <= '9' {
                TState::Decimal
            } else if c == 'e' || c == 'E' {
                TState::ExponentSign
            } else {
                TState::Start
            }
        },
        TState::Exponent => {
            if '0' <= c && c <= '9' {
                TState::ExponentDigit
            } else {
                TState::Unknown
            }
        },
        TState::ExponentSign => {
            if c == '+' || c == '-' {
                TState::Exponent
            } else if '0' <= c && c <= '9' {
                TState::ExponentDigit
            } else {
                TState::Unknown
            }
        },
        TState::ExponentDigit => {
            if '0' <= c && c <= '9' {
                TState::ExponentDigit
            } else {
                TState::Start
            }
        },
        TState::LegacyOctal => {
            if '0' <= c && c <= '7' {
                TState::LegacyOctal
            } else if c == '8' || c == '9' {
                TState::Integer
            } else {
                TState::Start
            }
        },
        TState::DChars => {
            if c == '"' {
                TState::DCharEnd
            } else if c == '\\' {
                TState::EscapeSequenceOrContinuation(EscapeReturnState::DoubleString)
            } else {
                TState::DChars
            }
        },
        TState::DCharEnd => TState::Start,
        TState::SChars => {
            if c == '\'' {
                TState::SCharEnd
            } else if c == '\\' {
                TState::EscapeSequenceOrContinuation(EscapeReturnState::SingleString)
            } else {
                TState::SChars
            }
        },
        TState::SCharEnd => TState::Start,
        TState::RegexChars => {
            if c == '/' {
                TState::RegexFlags
            } else if c == '[' {
                TState::RegexClassChars
            } else if c == '\\' {
                TState::RegexEscapedChars
            } else if c == '\u{A}' || c == '\u{D}' || c == '\u{2028}' || c == '\u{2029}' {
                TState::Unknown
            } else {
                TState::RegexChars
            }
        },
        TState::RegexClassChars => {
            if c == '/' {
                TState::RegexFlags
            } else if c == ']' {
                TState::RegexChars
            } else if c == '\\' {
                TState::RegexClassEscapedChars
            } else if c == '\u{A}' || c == '\u{D}' || c == '\u{2028}' || c == '\u{2029}' {
                TState::Unknown
            } else {
                TState::RegexClassChars
            }
        },
        TState::RegexClassEscapedChars => {
            if c == '\u{A}' || c == '\u{D}' || c == '\u{2028}' || c == '\u{2029}' {
                TState::Unknown
            } else {
                TState::RegexClassChars
            }
        },
        TState::RegexEscapedChars => {
            if c == '\u{A}' || c == '\u{D}' || c == '\u{2028}' || c == '\u{2029}' {
                TState::Unknown
            } else {
                TState::RegexChars
            }
        },
        TState::RegexFlags => {
            if ident_continue {
                TState::RegexFlags
            } else {
                TState::Start
            }
        },
        TState::TemplateChars => {
            if c == '`' {
                TState::TemplateCharEnd
            } else if c == '$' {
                TState::TemplateDollarChar
            } else if c == '\\' {
                TState::EscapeSequenceOrContinuation(EscapeReturnState::TemplateChar)
            } else if c == '\r' {
                TState::TemplateCharLineTerminator
            } else {
                TState::TemplateChars
            }
        },
        TState::TemplateDollarChar => {
            if c == '`' {
                TState::TemplateCharEnd
            } else if c == '{' {
                TState::TemplateCharEnd
            } else if c == '$' {
                TState::TemplateDollarChar
            } else if c == '\\' {
                TState::EscapeSequenceOrContinuation(EscapeReturnState::TemplateChar)
            } else if c == '\r' {
                TState::TemplateCharLineTerminator
            } else {
                TState::TemplateChars
            }
        },
        TState::TemplateCharLineTerminator => {
            if c == '\n' {
                TState::TemplateChars
            } else if c == '$' {
                TState::TemplateDollarChar
            } else if c == '\\' {
                TState::EscapeSequenceOrContinuation(EscapeReturnState::TemplateChar)
            } else if c == '\r' {
                TState::TemplateCharLineTerminator
            } else {
                TState::TemplateChars
            }
        },
        TState::TemplateCharEnd => TState::Start,
        TState::EscapeSequenceOrContinuation(next) => {
            if c == '\n' || c == '\u{2028}' || c == '\u{2029}' {
                TState::EscapeSequenceDone(next)
            } else if c == '\r' {
                TState::EscapeSequenceMaybeContinuationSequence(next)
            } else if c == 'u' {
                TState::EscapeSequenceUnicode(next)
            } else if c == 'x' {
                TState::EscapeSequenceHex1(next)
            } else if c == '\'' || c == '"' || c == '\\' || c == 'b' || c == 'f' || c == 'n' || c == 'r' || c == 't' || c == 'v' {
                TState::EscapeSequenceDone(next)
            } else if '1' <= c && c <= '9' {
                TState::Unknown
            } else {
                TState::EscapeSequenceDone(next)
            }
        },
        TState::EscapeSequenceLegacyOctal1(next) => {
            if '0' <= c && c <= '7' {
                TState::EscapeSequenceLegacyOctal2(next)
            } else {
                TState::Start
            }
        },
        TState::EscapeSequenceLegacyOctal2(next) => {
            if '0' <= c && c <= '7' {
                TState::EscapeSequenceDone(next)
            } else {
                TState::Start
            }
        },
        TState::EscapeSequenceMaybeContinuationSequence(next) => {
            if c == '\n' {
                TState::EscapeSequenceDone(next)
            } else {
                next.resumed()
            }
        },
        TState::EscapeSequence(next) => {
            if c == 'u' {
                TState::EscapeSequenceUnicode(next)
            } else if c == 'x' {
                TState::EscapeSequenceHex1(next)
            } else if c == '\'' || c == '"' || c == '\\' || c == 'b' || c == 'f' || c == 'n' || c == 'r' || c == 't' || c == 'v' {
                TState::EscapeSequenceDone(next)
            } else if ('0' <= c && c <= '3') && flags.annexb {
                TState::EscapeSequenceLegacyOctal1(next)
            } else if ('4' <= c && c <= '7') && flags.annexb {
                TState::EscapeSequenceLegacyOctal2(next)
            } else if '1' <= c && c <= '9' {
                TState::Unknown
            } else if c == '\r' || c == '\n' || c == '\u{2028}' || c == '\u{2029}' {
                TState::Unknown
            } else {
                TState::EscapeSequenceDone(next)
            }
        },
        TState::EscapeSequenceUnicode(next) => {
            if c == '{' {
                TState::EscapeSequenceUnicodeHex(next)
            } else {
                TState::EscapeSequenceUnicodeHex1(next)
            }
        },
        TState::EscapeSequenceUnicodeHex(next) => {
            if ('0' <= c && c <= '9') || ('a' <= c && c <= 'f') || ('A' <= c && c <= 'F') {
                TState::EscapeSequenceUnicodeHex(next)
            } else if c == '}' {
                TState::EscapeSequenceDone(next)
            } else {
                TState::Unknown
            }
        },
        TState::EscapeSequenceUnicodeHex1(next) => {
            if ('0' <= c && c <= '9') || ('a' <= c && c <= 'f') || ('A' <= c && c <= 'F') {
                TState::EscapeSequenceUnicodeHex2(next)
            } else {
                TState::Unknown
            }
        },
        TState::EscapeSequenceUnicodeHex2(next) => {
            if ('0' <= c && c <= '9') || ('a' <= c && c <= 'f') || ('A' <= c && c <= 'F') {
                TState::EscapeSequenceUnicodeHex3(next)
            } else {
                TState::Unknown
            }
        },
        TState::EscapeSequenceUnicodeHex3(next) => {
            if ('0' <= c && c <= '9') || ('a' <= c && c <= 'f') || ('A' <= c && c <= 'F') {
                TState::EscapeSequenceUnicodeHex4(next)
            } else {
                TState::Unknown
            }
        },
        TState::EscapeSequenceUnicodeHex4(next) => {
            if ('0' <= c && c <= '9') || ('a' <= c && c <= 'f') || ('A' <= c && c <= 'F') {
                TState::EscapeSequenceDone(next)
            } else {
                TState::Unknown
            }
        },
        TState::EscapeSequenceHex1(next) => {
            if ('0' <= c && c <= '9') || ('a' <= c && c <= 'f') || ('A' <= c && c <= 'F') {
                TState::EscapeSequenceHex2(next)
            } else {
                TState::Unknown
            }
        },
        TState::EscapeSequenceHex2(next) => {
            if ('0' <= c && c <= '9') || ('a' <= c && c <= 'f') || ('A' <= c && c <= 'F') {
                TState::EscapeSequenceDone(next)
            } else {
                TState::Unknown
            }
        },
        TState::EscapeSequenceDone(next) => next.resumed(),
    }}

impl TState {
    pub fn new() -> (r: TState)
        ensures
            r == TState::Start,
    {
        TState::Start
    }

    /// The state after `self` reads `c`, with the identifier classes of `c`
    /// taken from the Unicode tables.
    pub open spec fn next_state(self, c: char, flags: TokenFlags) -> TState {
        transition(
            self,
            c,
            flags,
            ident_start_char(c, unicode_id_start(c)),
            ident_continue_char(c, unicode_id_continue(c)),
        )
    }

    /// One step of the machine, with the identifier classes of `c` given.
    #[verifier::rlimit(40)]
    pub fn advance(&self, c: char, flags: TokenFlags, ident_start: bool, ident_continue: bool) -> (r: TState)
        ensures
            r == transition(*self, c, flags, ident_start, ident_continue),
    {
        match *self {
            TState::Start => {
                if c == '\u{A}' || c == '\u{D}' || c == '\u{2028}' || c == '\u{2029}' {
                    TState::LineTerminator
                } else if flags.read_line {
                    TState::MiscLineText
                } else if c == '\u{9}' || c == '\u{B}' || c == '\u{C}' || c == '\u{20}' || c == '\u{A0}' || c == '\u{FEFF}' {
                    TState::Whitespace
                } else if c == '\u{1680}' || ('\u{2000}' <= c && c <= '\u{200A}') || c == '\u{202F}' || c == '\u{205F}' || c == '\u{3000}' {
                    TState::Whitespace
                } else if c == '(' {
                    TState::LParen
                } else if (c == ')') {
                    TState::RParen
                } else if c == '{' {
                    TState::LCurly
                } else if c == '}' && flags.template {
                    TState::TemplateChars
                } else if c == '}' {
                    TState::RCurly
                } else if c == '[' {
                    TState::LSquare
                } else if c == ']' {
                    TState::RSquare
                } else if c == ';' {
                    TState::Semicolon
                } else if c == ',' {
                    TState::Comma
                } else if c == '~' {
                    TState::Tilde
                } else if c == '?' {
                    TState::Quest
                } else if c == ':' {
                    TState::Colon
                } else if c == '<' {
                    TState::LAngle
                } else if c == '>' {
                    TState::RAngle
                } else if c == '!' {
                    TState::Exclam
                } else if c == '=' {
                    TState::Eq
                } else if c == '+' {
                    TState::Plus
                } else if c == '-' {
                    TState::Minus
                } else if c == '%' {
                    TState::Mod
                } else if c == '*' {
                    TState::Star
                } else if c == '&' {
                    TState::Amp
                } else if c == '|' {
                    TState::Bar
                } else if c == '^' {
                    TState::Caret
                } else if c == '/' && flags.operator {
                    TState::OperatorSlash
                } else if c == '/' {
                    TState::ExpressionSlash
                } else if c == '`' {
                    TState::TemplateChars
                } else if c == '.' {
                    TState::Period
                } else if c == '0' {
                    TState::Zero
                } else if '1' <= c && c <= '9' {
                    TState::Integer
                } else if c == '"' {
                    TState::DChars
                } else if c == '\'' {
                    TState::SChars
                } else if c == '\\' {
                    TState::EscapeSequence(EscapeReturnState::IdentifierPart)
                } else if ident_start {
                    TState::Ident
                } else {
                    TState::MiscLineText
                }
            },
            TState::Unknown => TState::Start,
            TState::MiscLineText => {
                if c == '\u{A}' || c == '\u{D}' || c == '\u{2028}' || c == '\u{2029}' {
                    TState::Start
                } else {
                    TState::MiscLineText
                }
            },
            TState::LParen => TState::Start,
            TState::RParen => TState::Start,
            TState::LCurly => TState::Start,
            TState::RCurly => TState::Start,
            TState::LSquare => TState::Start,
            TState::RSquare => TState::Start,
            TState::Semicolon => TState::Start,
            TState::Comma => TState::Start,
            TState::Tilde => TState::Start,
            TState::Quest => TState::Start,
            TState::Colon => TState::Start,
            TState::Whitespace => TState::Start,
            TState::LineTerminator => TState::Start,
            TState::LAngle => {
                if c == '<' {
                    TState::LAngleAngle
                } else if c == '=' {
                    TState::LAngleEq
                } else {
                    TState::Start
                }
            },
            TState::LAngleEq => TState::Start,
            TState::LAngleAngle => {
                if c == '=' {
                    TState::LAngleAngleEq
                } else {
                    TState::Start
                }
            },
            TState::LAngleAngleEq => TState::Start,
            TState::RAngle => {
                if c == '>' {
                    TState::RAngleAngle
                } else if c == '=' {
                    TState::RAngleEq
                } else {
                    TState::Start
                }
            },
            TState::RAngleEq => TState::Start,
            TState::RAngleAngle => {
                if c == '>' {
                    TState::RAngleAngleAngle
                } else if c == '=' {
                    TState::RAngleAngleEq
                } else {
                    TState::Start
                }
            },
            TState::RAngleAngleEq => TState::Start,
            TState::RAngleAngleAngle => {
                if c == '=' {
                    TState::RAngleAngleEq
                } else {
                    TState::Start
                }
            },
            TState::RAngleAngleAngleEq => TState::Start,
            TState::Exclam => {
                if c == '=' {
                    TState::ExclamEq
                } else {
                    TState::Start
                }
            },
            TState::ExclamEq => {
                if c == '=' {
                    TState::ExclamEqEq
                } else {
                    TState::Start
                }
            },
            TState::ExclamEqEq => TState::Start,
            TState::Eq => {
                if c == '=' {
                    TState::EqEq
                } else {
                    TState::Start
                }
            },
            TState::EqEq => {
                if c == '=' {
                    TState::EqEqEq
                } else {
                    TState::Start
                }
            },
            TState::EqEqEq => TState::Start,
            TState::Plus => {
                if c == '+' {
                    TState::PlusPlus
                } else if c == '=' {
                    TState::PlusEq
                } else {
                    TState::Start
                }
            },
            TState::PlusEq => TState::Start,
            TState::PlusPlus => TState::Start,
            TState::Minus => {
                if c == '-' {
                    TState::MinusMinus
                } else if c == '=' {
                    TState::MinusEq
                } else {
                    TState::Start
                }
            },
            TState::MinusEq => TState::Start,
            TState::MinusMinus => TState::Start,
            TState::Mod => {
                if c == '=' {
                    TState::ModEq
                } else {
                    TState::Start
                }
            },
            TState::ModEq => TState::Start,
            TState::Star => {
                if c == '*' {
                    TState::StarStar
                } else if c == '=' {
                    TState::StarEq
                } else {
                    TState::Start
                }
            },
            TState::StarEq => TState::Start,
            TState::StarStar => {
                if c == '=' {
                    TState::StarEq
                } else {
                    TState::Start
                }
            },
            TState::StarStarEq => TState::Start,
            TState::Amp => {
                if c == '=' {
                    TState::AmpEq
                } else if c == '&' {
                    TState::AmpAmp
                } else {
                    TState::Start
                }
            },
            TState::AmpEq => TState::Start,
            TState::AmpAmp => TState::Start,
            TState::Bar => {
                if c == '=' {
                    TState::BarEq
                } else if c == '|' {
                    TState::BarBar
                } else {
                    TState::Start
                }
            },
            TState::BarEq => TState::Start,
            TState::BarBar => TState::Start,
            TState::Caret => {
                if c == '=' {
                    TState::CaretEq
                } else {
                    TState::Start
                }
            },
            TState::CaretEq => TState::Start,
            TState::OperatorSlash => {
                if c == '/' {
                    TState::SingleLineComment
                } else if c == '*' {
                    TState::MultiLineComment
                } else if c == '=' {
                    TState::SlashEq
                } else {
                    TState::Start
                }
            },
            TState::ExpressionSlash => {
                if c == '/' {
                    TState::SingleLineComment
                } else if c == '*' {
                    TState::MultiLineComment
                } else if c == '[' {
                    TState::RegexClassChars
                } else if c == '\\' {
                    TState::RegexEscapedChars
                } else if c == '\u{A}' || c == '\u{D}' || c == '\u{2028}' || c == '\u{2029}' {
                    TState::Unknown
                } else {
                    TState::RegexChars
                }
            },
            TState::SlashEq => TState::Start,
            TState::Period => {
                if '0' <= c && c <= '9' {
                    TState::Integer
                } else {
                    TState::Dot
                }
            },
            TState::Dot => TState::Start,
            TState::MultiLineComment => {
                if c == '*' {
                    TState::MultiLineCommentStar
                } else {
                    TState::MultiLineComment
                }
            },
            TState::MultiLineCommentStar => {
                if c == '*' {
                    TState::MultiLineCommentStar
                } else if c == '/' {
                    TState::MultiLineCommentStarSlash
                } else {
                    TState::MultiLineComment
                }
            },
            TState::MultiLineCommentStarSlash => TState::Start,
            TState::SingleLineComment => {
                if c == '\u{A}' || c == '\u{D}' || c == '\u{2028}' || c == '\u{2029}' {
                    TState::Start
                } else {
                    TState::SingleLineComment
                }
            },
            TState::Ident => {
                if c == '\\' {
                    TState::EscapeSequence(EscapeReturnState::IdentifierPart)
                } else if ident_continue {
                    TState::Ident
                } else {
                    TState::Start
                }
            },
            TState::Zero => {
                if c == '.' {
                    TState::Decimal
                } else if c == 'x' || c == 'X' {
                    TState::Hex
                } else if c == 'o' || c == 'O' {
                    TState::Octal
                } else if c == 'b' || c == 'B' {
                    TState::Binary
                } else if c == 'e' || c == 'E' {
                    TState::ExponentSign
                } else if ('0' <= c && c <= '7') && flags.annexb {
                    TState::LegacyOctal
                } else if (c == '8' || c == '9') && flags.annexb {
                    TState::Integer
                } else {
                    TState::Start
                }
            },
            TState::Hex => {
                if ('0' <= c && c <= '9') || ('a' <= c && c <= 'f') || ('A' <= c && c <= 'F') {
                    TState::Hex
                } else {
                    TState::Start
                }
            },
            TState::Octal => {
                if '0' <= c && c <= '7' {
                    TState::Octal
                } else {
                    TState::Start
                }
            },
            TState::Binary => {
                if c == '0' || c == '1' {
                    TState::Binary
                } else {
                    TState::Start
                }
            },
            TState::Integer => {
                if '0' <= c && c <= '9' {
                    TState::Integer
                } else if c == '.' {
                    TState::Decimal
                } else if c == 'e' || c == 'E' {
                    TState::ExponentSign
                } else {
                    TState::Start
                }
            },
            TState::Decimal => {
                if '0' <= c && c <= '9' {
                    TState::Decimal
                } else if c == 'e' || c == 'E' {
                    TState::ExponentSign
                } else {
                    TState::Start
                }
            },
            TState::Exponent => {
                if '0' <= c && c <= '9' {
                    TState::ExponentDigit
                } else {
                    TState::Unknown
                }
            },
            TState::ExponentSign => {
                if c == '+' || c == '-' {
                    TState::Exponent
                } else if '0' <= c && c <= '9' {
                    TState::ExponentDigit
                } else {
                    TState::Unknown
                }
            },
            TState::ExponentDigit => {
                if '0' <= c && c <= '9' {
                    TState::ExponentDigit
                } else {
                    TState::Start
                }
            },
            TState::LegacyOctal => {
                if '0' <= c && c <= '7' {
                    TState::LegacyOctal
                } else if c == '8' || c == '9' {
                    TState::Integer
                } else {
                    TState::Start
                }
            },
            TState::DChars => {
                if c == '"' {
                    TState::DCharEnd
                } else if c == '\\' {
                    TState::EscapeSequenceOrContinuation(EscapeReturnState::DoubleString)
                } else {
                    TState::DChars
                }
            },
            TState::DCharEnd => TState::Start,
            TState::SChars => {
                if c == '\'' {
                    TState::SCharEnd
                } else if c == '\\' {
                    TState::EscapeSequenceOrContinuation(EscapeReturnState::SingleString)
                } else {
                    TState::SChars
                }
            },
            TState::SCharEnd => TState::Start,
            TState::RegexChars => {
                if c == '/' {
                    TState::RegexFlags
                } else if c == '[' {
                    TState::RegexClassChars
                } else if c == '\\' {
                    TState::RegexEscapedChars
                } else if c == '\u{A}' || c == '\u{D}' || c == '\u{2028}' || c == '\u{2029}' {
                    TState::Unknown
                } else {
                    TState::RegexChars
                }
            },
            TState::RegexClassChars => {
                if c == '/' {
                    TState::RegexFlags
                } else if c == ']' {
                    TState::RegexChars
                } else if c == '\\' {
                    TState::RegexClassEscapedChars
                } else if c == '\u{A}' || c == '\u{D}' || c == '\u{2028}' || c == '\u{2029}' {
                    TState::Unknown
                } else {
                    TState::RegexClassChars
                }
            },
            TState::RegexClassEscapedChars => {
                if c == '\u{A}' || c == '\u{D}' || c == '\u{2028}' || c == '\u{2029}' {
                    TState::Unknown
                } else {
                    TState::RegexClassChars
                }
            },
            TState::RegexEscapedChars => {
                if c == '\u{A}' || c == '\u{D}' || c == '\u{2028}' || c == '\u{2029}' {
                    TState::Unknown
                } else {
                    TState::RegexChars
                }
            },
            TState::RegexFlags => {
                if ident_continue {
                    TState::RegexFlags
                } else {
                    TState::Start
                }
            },
            TState::TemplateChars => {
                if c == '`' {
                    TState::TemplateCharEnd
                } else if c == '$' {
                    TState::TemplateDollarChar
                } else if c == '\\' {
                    TState::EscapeSequenceOrContinuation(EscapeReturnState::TemplateChar)
                } else if c == '\r' {
                    TState::TemplateCharLineTerminator
                } else {
                    TState::TemplateChars
                }
            },
            TState::TemplateDollarChar => {
                if c == '`' {
                    TState::TemplateCharEnd
                } else if c == '{' {
                    TState::TemplateCharEnd
                } else if c == '$' {
                    TState::TemplateDollarChar
                } else if c == '\\' {
                    TState::EscapeSequenceOrContinuation(EscapeReturnState::TemplateChar)
                } else if c == '\r' {
                    TState::TemplateCharLineTerminator
                } else {
                    TState::TemplateChars
                }
            },
            TState::TemplateCharLineTerminator => {
                if c == '\n' {
                    TState::TemplateChars
                } else if c == '$' {
                    TState::TemplateDollarChar
                } else if c == '\\' {
                    TState::EscapeSequenceOrContinuation(EscapeReturnState::TemplateChar)
                } else if c == '\r' {
                    TState::TemplateCharLineTerminator
                } else {
                    TState::TemplateChars
                }
            },
            TState::TemplateCharEnd => TState::Start,
            TState::EscapeSequenceOrContinuation(next) => {
                if c == '\n' || c == '\u{2028}' || c == '\u{2029}' {
                    TState::EscapeSequenceDone(next)
                } else if c == '\r' {
                    TState::EscapeSequenceMaybeContinuationSequence(next)
                } else if c == 'u' {
                    TState::EscapeSequenceUnicode(next)
                } else if c == 'x' {
                    TState::EscapeSequenceHex1(next)
                } else if c == '\'' || c == '"' || c == '\\' || c == 'b' || c == 'f' || c == 'n' || c == 'r' || c == 't' || c == 'v' {
                    TState::EscapeSequenceDone(next)
                } else if '1' <= c && c <= '9' {
                    TState::Unknown
                } else {
                    TState::EscapeSequenceDone(next)
                }
            },
            TState::EscapeSequenceLegacyOctal1(next) => {
                if '0' <= c && c <= '7' {
                    TState::EscapeSequenceLegacyOctal2(next)
                } else {
                    TState::Start
                }
            },
            TState::EscapeSequenceLegacyOctal2(next) => {
                if '0' <= c && c <= '7' {
                    TState::EscapeSequenceDone(next)
                } else {
                    TState::Start
                }
            },
            TState::EscapeSequenceMaybeContinuationSequence(next) => {
                if c == '\n' {
                    TState::EscapeSequenceDone(next)
                } else {
                    next.resume()
                }
            },
            TState::EscapeSequence(next) => {
                if c == 'u' {
                    TState::EscapeSequenceUnicode(next)
                } else if c == 'x' {
                    TState::EscapeSequenceHex1(next)
                } else if c == '\'' || c == '"' || c == '\\' || c == 'b' || c == 'f' || c == 'n' || c == 'r' || c == 't' || c == 'v' {
                    TState::EscapeSequenceDone(next)
                } else if ('0' <= c && c <= '3') && flags.annexb {
                    TState::EscapeSequenceLegacyOctal1(next)
                } else if ('4' <= c && c <= '7') && flags.annexb {
                    TState::EscapeSequenceLegacyOctal2(next)
                } else if '1' <= c && c <= '9' {
                    TState::Unknown
                } else if c == '\r' || c == '\n' || c == '\u{2028}' || c == '\u{2029}' {
                    TState::Unknown
                } else {
                    TState::EscapeSequenceDone(next)
                }
            },
            TState::EscapeSequenceUnicode(next) => {
                if c == '{' {
                    TState::EscapeSequenceUnicodeHex(next)
                } else {
                    TState::EscapeSequenceUnicodeHex1(next)
                }
            },
            TState::EscapeSequenceUnicodeHex(next) => {
                if ('0' <= c && c <= '9') || ('a' <= c && c <= 'f') || ('A' <= c && c <= 'F') {
                    TState::EscapeSequenceUnicodeHex(next)
                } else if c == '}' {
                    TState::EscapeSequenceDone(next)
                } else {
                    TState::Unknown
                }
            },
            TState::EscapeSequenceUnicodeHex1(next) => {
                if ('0' <= c && c <= '9') || ('a' <= c && c <= 'f') || ('A' <= c && c <= 'F') {
                    TState::EscapeSequenceUnicodeHex2(next)
                } else {
                    TState::Unknown
                }
            },
            TState::EscapeSequenceUnicodeHex2(next) => {
                if ('0' <= c && c <= '9') || ('a' <= c && c <= 'f') || ('A' <= c && c <= 'F') {
                    TState::EscapeSequenceUnicodeHex3(next)
                } else {
                    TState::Unknown
                }
            },
            TState::EscapeSequenceUnicodeHex3(next) => {
                if ('0' <= c && c <= '9') || ('a' <= c && c <= 'f') || ('A' <= c && c <= 'F') {
                    TState::EscapeSequenceUnicodeHex4(next)
                } else {
                    TState::Unknown
                }
            },
            TState::EscapeSequenceUnicodeHex4(next) => {
                if ('0' <= c && c <= '9') || ('a' <= c && c <= 'f') || ('A' <= c && c <= 'F') {
                    TState::EscapeSequenceDone(next)
                } else {
                    TState::Unknown
                }
            },
            TState::EscapeSequenceHex1(next) => {
                if ('0' <= c && c <= '9') || ('a' <= c && c <= 'f') || ('A' <= c && c <= 'F') {
                    TState::EscapeSequenceHex2(next)
                } else {
                    TState::Unknown
                }
            },
            TState::EscapeSequenceHex2(next) => {
                if ('0' <= c && c <= '9') || ('a' <= c && c <= 'f') || ('A' <= c && c <= 'F') {
                    TState::EscapeSequenceDone(next)
                } else {
                    TState::Unknown
                }
            },
            TState::EscapeSequenceDone(next) => next.resume(),
        }    }

    pub fn step(&self, c: char, flags: TokenFlags) -> (r: TState)
        ensures
            r == self.next_state(c, flags),
    {
        let start = is_ident_start(c);
        let cont = is_ident_continue(c);
        self.advance(c, flags, start, cont)
    }
}

/// Nothing is read from the start state back into it: the first character of
/// a token always begins one, and never an unknown one.
pub proof fn lemma_start_moves(c: char, flags: TokenFlags, ident_start: bool, ident_continue: bool)
    ensures
        transition(TState::Start, c, flags, ident_start, ident_continue) != TState::Start,
        transition(TState::Start, c, flags, ident_start, ident_continue) != TState::Unknown,
{
}

/// An unknown state is handed back to the start state, whatever comes next.
pub proof fn lemma_unknown_restarts(c: char, flags: TokenFlags, ident_start: bool, ident_continue: bool)
    ensures
        transition(TState::Unknown, c, flags, ident_start, ident_continue) == TState::Start,
{
}

/// A finished escape sequence returns to the state it was read from.
pub proof fn lemma_escape_returns(
    next: EscapeReturnState,
    c: char,
    flags: TokenFlags,
    ident_start: bool,
    ident_continue: bool,
)
    ensures
        transition(TState::EscapeSequenceDone(next), c, flags, ident_start, ident_continue)
            == next.resumed(),
{
}

/// What one call of `TokenStream::next` comes to.
pub enum StreamStep {
    /// A state is handed out; reading goes on at the index in the state.
    Yield(TState, nat, TState),
    /// The input is used up at a token boundary.
    Finished,
    /// The input ended inside a token that the end cannot close: the state
    /// then, and the state that a last step took it to.
    UnexpectedEnd(TState, TState),
}

/// One call of `TokenStream::next` on `chars` from `index` in `state`: steps
/// are taken until one lands on the start state, and the state before it is
/// handed out; an unknown state is handed out at once. At the end of the
/// input a placeholder `_` is read to close the token that is open.
pub open spec fn stream_step(chars: Seq<char>, index: nat, state: TState, flags: TokenFlags) -> StreamStep
    decreases chars.len() - index,
{
    if index < chars.len() {
        let next = state.next_state(chars[index as int], flags);
        if next is Start {
            StreamStep::Yield(state, index, TState::Start)
        } else if next is Unknown {
            StreamStep::Yield(TState::Unknown, index + 1, TState::Unknown)
        } else {
            stream_step(chars, index + 1, next, flags)
        }
    } else if state is Start {
        StreamStep::Finished
    } else {
        let next = state.next_state('_', flags);
        if next is Start {
            StreamStep::Yield(state, index, TState::Start)
        } else {
            StreamStep::UnexpectedEnd(state, next)
        }
    }
}

/// How much is left to read: two for each character, one for an open token.
pub open spec fn remaining(chars: Seq<char>, index: nat, state: TState) -> int {
    2 * (chars.len() - index) + if state is Start { 0int } else { 1int }
}

/// Each state handed out brings the stream nearer its end, so that reading
/// a stream to its end terminates.
pub proof fn lemma_stream_progress(chars: Seq<char>, index: nat, state: TState, flags: TokenFlags)
    requires
        index <= chars.len(),
    ensures
        stream_step(chars, index, state, flags) matches StreamStep::Yield(_, i, s) ==> {
            &&& i <= chars.len()
            &&& 0 <= remaining(chars, i, s) < remaining(chars, index, state)
        },
    decreases chars.len() - index,
{
    if index < chars.len() {
        let c = chars[index as int];
        if state is Start {
            lemma_start_moves(
                c,
                flags,
                ident_start_char(c, unicode_id_start(c)),
                ident_continue_char(c, unicode_id_continue(c)),
            );
        }
        let next = state.next_state(c, flags);
        if !(next is Start) && !(next is Unknown) {
            lemma_stream_progress(chars, index + 1, next, flags);
        }
    }
}

/// The stream is finished only where it stands at the end of the input in
/// the start state.
pub proof fn lemma_stream_finished(chars: Seq<char>, index: nat, state: TState, flags: TokenFlags)
    requires
        index <= chars.len(),
    ensures
        stream_step(chars, index, state, flags) is Finished ==> index == chars.len() && state is Start,
    decreases chars.len() - index,
{
    if index < chars.len() {
        let next = state.next_state(chars[index as int], flags);
        if !(next is Start) && !(next is Unknown) {
            lemma_stream_finished(chars, index + 1, next, flags);
        }
    }
}

/// All the states that `TokenStream::next` hands out from `index` in `state`
/// until the input is used up, or the two states of an unexpected end.
pub open spec fn stream_all(chars: Seq<char>, index: nat, state: TState, flags: TokenFlags) -> Result<
    Seq<TState>,
    (TState, TState),
>
    decreases remaining(chars, index, state),
    when index <= chars.len()
{
    match stream_step(chars, index, state, flags) {
        StreamStep::Yield(t, i, s) => {
            proof {
                lemma_stream_progress(chars, index, state, flags);
            }
            match stream_all(chars, i, s, flags) {
                Ok(rest) => Ok(seq![t] + rest),
                Err(e) => Err(e),
            }
        },
        StreamStep::Finished => Ok(Seq::empty()),
        StreamStep::UnexpectedEnd(a, b) => Err((a, b)),
    }
}

/// The input ended inside a token that the end of input cannot close.
#[derive(Clone, Copy, PartialEq, Eq, Debug, Structural)]
pub struct UnexpectedEnd {
    pub from: TState,
    pub to: TState,
}

/// Reads the lexical states of a text one token at a time.
pub struct TokenStream {
    chars: Vec<char>,
    index: usize,
    state: TState,
    flags: TokenFlags,
}

impl TokenStream {
    pub closed spec fn chars(&self) -> Seq<char> {
        self.chars@
    }

    pub closed spec fn index(&self) -> nat {
        self.index as nat
    }

    pub closed spec fn state(&self) -> TState {
        self.state
    }

    pub closed spec fn flags(&self) -> TokenFlags {
        self.flags
    }

    pub closed spec fn wf(&self) -> bool {
        self.index <= self.chars@.len()
    }

    /// A stream over `chars` in the start state, reading the forms of Annex B.
    pub fn new(chars: Vec<char>) -> (s: TokenStream)
        ensures
            s.wf(),
            s.chars() == chars@,
            s.index() == 0,
            s.state() == TState::Start,
            s.flags() == (TokenFlags { operator: false, template: false, annexb: true, read_line: false }),
    {
        TokenStream { chars, index: 0, state: TState::new(), flags: TokenFlags::new(true) }
    }

    /// The next state handed out, `None` at the end, or the error where the
    /// input ends inside a token.
    pub fn try_next(&mut self) -> (r: Result<Option<TState>, UnexpectedEnd>)
        requires
            old(self).wf(),
        ensures
            final(self).wf(),
            final(self).chars() == old(self).chars(),
            final(self).flags() == old(self).flags(),
            match stream_step(old(self).chars(), old(self).index(), old(self).state(), old(self).flags()) {
                StreamStep::Yield(t, i, s) => {
                    &&& r == Ok::<Option<TState>, UnexpectedEnd>(Some(t))
                    &&& final(self).index() == i
                    &&& final(self).state() == s
                },
                StreamStep::Finished => {
                    &&& r == Ok::<Option<TState>, UnexpectedEnd>(None)
                    &&& final(self).index() == old(self).index()
                    &&& final(self).state() == old(self).state()
                },
                StreamStep::UnexpectedEnd(a, b) => {
                    &&& r == Err::<Option<TState>, UnexpectedEnd>(UnexpectedEnd { from: a, to: b })
                    &&& final(self).index() == old(self).chars().len()
                    &&& final(self).state() == b
                },
            },
    {
        loop
            invariant
                old(self).wf(),
                self.wf(),
                self.chars() == old(self).chars(),
                self.flags() == old(self).flags(),
                stream_step(self.chars(), self.index(), self.state(), self.flags())
                    == stream_step(old(self).chars(), old(self).index(), old(self).state(), old(self).flags()),
            decreases self.chars@.len() - self.index,
        {
            let state = self.state;
            if self.index < self.chars.len() {
                let c = self.chars[self.index];
                self.state = state.step(c, self.flags);
                if matches!(self.state, TState::Start) {
                    return Ok(Some(state));
                }
                self.index = self.index + 1;
                if matches!(self.state, TState::Unknown) {
                    return Ok(Some(TState::Unknown));
                }
            } else {
                if matches!(state, TState::Start) {
                    proof {
                        lemma_stream_finished(old(self).chars(), old(self).index(), old(self).state(), self.flags());
                    }
                    return Ok(None);
                }
                self.state = state.step('_', self.flags);
                if matches!(self.state, TState::Start) {
                    return Ok(Some(state));
                }
                return Err(UnexpectedEnd { from: state, to: self.state });
            }
        }
    }
    /// The next state handed out, or `None` at the end of the input.
    pub fn next(&mut self) -> (r: Option<TState>)
        requires
            old(self).wf(),
            !(stream_step(old(self).chars(), old(self).index(), old(self).state(), old(self).flags()) is UnexpectedEnd),
        ensures
            final(self).wf(),
            final(self).chars() == old(self).chars(),
            final(self).flags() == old(self).flags(),
            match stream_step(old(self).chars(), old(self).index(), old(self).state(), old(self).flags()) {
                StreamStep::Yield(t, i, s) => {
                    &&& r == Some(t)
                    &&& final(self).index() == i
                    &&& final(self).state() == s
                },
                _ => {
                    &&& r == None::<TState>
                    &&& final(self).index() == old(self).index()
                    &&& final(self).state() == old(self).state()
                },
            },
    {
        match self.try_next() {
            Ok(r) => r,
            Err(_) => None,
        }
    }

    /// Every state handed out from here to the end of the input, or the error
    /// where the input ends inside a token.
    pub fn states(&mut self) -> (r: Result<Vec<TState>, UnexpectedEnd>)
        requires
            old(self).wf(),
        ensures
            match stream_all(old(self).chars(), old(self).index(), old(self).state(), old(self).flags()) {
                Ok(all) => r is Ok && r->Ok_0@ == all,
                Err((a, b)) => r == Err::<Vec<TState>, UnexpectedEnd>(UnexpectedEnd { from: a, to: b }),
            },
    {
        let mut out: Vec<TState> = Vec::new();
        loop
            invariant
                self.wf(),
                match stream_all(self.chars(), self.index(), self.state(), self.flags()) {
                    Ok(rest) => stream_all(old(self).chars(), old(self).index(), old(self).state(), old(self).flags())
                        == Ok::<Seq<TState>, (TState, TState)>(out@ + rest),
                    Err(e) => stream_all(old(self).chars(), old(self).index(), old(self).state(), old(self).flags())
                        == Err::<Seq<TState>, (TState, TState)>(e),
                },
            decreases remaining(self.chars(), self.index(), self.state()),
        {
            proof {
                lemma_stream_progress(self.chars(), self.index(), self.state(), self.flags());
            }
            match self.try_next() {
                Ok(Some(t)) => {
                    proof {
                        let rest = stream_all(self.chars(), self.index(), self.state(), self.flags());
                        if let Ok(tail) = rest {
                            assert(out@.push(t) + tail =~= out@ + (seq![t] + tail));
                        }
                    }
                    out.push(t);
                },
                Ok(None) => {
                    assert(out@ + Seq::<TState>::empty() =~= out@);
                    return Ok(out);
                },
                Err(e) => {
                    return Err(e);
                },
            }
        }
    }
}


/// From the start of a token, reading the characters of a punctuator leads
/// to the state of that punctuator, one character at a time, whatever the
/// identifier classes reported for them: `>` then `=` is `>=`, `|` then `|`
/// is `||`, and so on for each punctuator but `/`, `.` and `}` (whose
/// meaning depends on the flags and on what follows) and the two that the
/// machine does not reach, `>>>=` and `**=`.
pub proof fn law_punctuator_states(flags: TokenFlags, is: bool, ic: bool)
    requires
        !flags.read_line,
    ensures
        transition(TState::Start, '(', flags, is, ic) == TState::LParen,
        transition(TState::Start, ')', flags, is, ic) == TState::RParen,
        transition(TState::Start, '{', flags, is, ic) == TState::LCurly,
        transition(TState::Start, '[', flags, is, ic) == TState::LSquare,
        transition(TState::Start, ']', flags, is, ic) == TState::RSquare,
        transition(TState::Start, ';', flags, is, ic) == TState::Semicolon,
        transition(TState::Start, ',', flags, is, ic) == TState::Comma,
        transition(TState::Start, '~', flags, is, ic) == TState::Tilde,
        transition(TState::Start, '?', flags, is, ic) == TState::Quest,
        transition(TState::Start, ':', flags, is, ic) == TState::Colon,
        transition(TState::Start, '<', flags, is, ic) == TState::LAngle,
        transition(transition(TState::Start, '<', flags, is, ic), '=', flags, is, ic) == TState::LAngleEq,
        transition(transition(TState::Start, '<', flags, is, ic), '<', flags, is, ic) == TState::LAngleAngle,
        transition(transition(transition(TState::Start, '<', flags, is, ic), '<', flags, is, ic), '=', flags, is, ic) == TState::LAngleAngleEq,
        transition(TState::Start, '>', flags, is, ic) == TState::RAngle,
        transition(transition(TState::Start, '>', flags, is, ic), '=', flags, is, ic) == TState::RAngleEq,
        transition(transition(TState::Start, '>', flags, is, ic), '>', flags, is, ic) == TState::RAngleAngle,
        transition(transition(transition(TState::Start, '>', flags, is, ic), '>', flags, is, ic), '=', flags, is, ic) == TState::RAngleAngleEq,
        transition(transition(transition(TState::Start, '>', flags, is, ic), '>', flags, is, ic), '>', flags, is, ic) == TState::RAngleAngleAngle,
        transition(TState::Start, '!', flags, is, ic) == TState::Exclam,
        transition(transition(TState::Start, '!', flags, is, ic), '=', flags, is, ic) == TState::ExclamEq,
        transition(transition(transition(TState::Start, '!', flags, is, ic), '=', flags, is, ic), '=', flags, is, ic) == TState::ExclamEqEq,
        transition(TState::Start, '=', flags, is, ic) == TState::Eq,
        transition(transition(TState::Start, '=', flags, is, ic), '=', flags, is, ic) == TState::EqEq,
        transition(transition(transition(TState::Start, '=', flags, is, ic), '=', flags, is, ic), '=', flags, is, ic) == TState::EqEqEq,
        transition(TState::Start, '+', flags, is, ic) == TState::Plus,
        transition(transition(TState::Start, '+', flags, is, ic), '=', flags, is, ic) == TState::PlusEq,
        transition(transition(TState::Start, '+', flags, is, ic), '+', flags, is, ic) == TState::PlusPlus,
        transition(TState::Start, '-', flags, is, ic) == TState::Minus,
        transition(transition(TState::Start, '-', flags, is, ic), '=', flags, is, ic) == TState::MinusEq,
        transition(transition(TState::Start, '-', flags, is, ic), '-', flags, is, ic) == TState::MinusMinus,
        transition(TState::Start, '%', flags, is, ic) == TState::Mod,
        transition(transition(TState::Start, '%', flags, is, ic), '=', flags, is, ic) == TState::ModEq,
        transition(TState::Start, '*', flags, is, ic) == TState::Star,
        transition(transition(TState::Start, '*', flags, is, ic), '=', flags, is, ic) == TState::StarEq,
        transition(transition(TState::Start, '*', flags, is, ic), '*', flags, is, ic) == TState::StarStar,
        transition(TState::Start, '&', flags, is, ic) == TState::Amp,
        transition(transition(TState::Start, '&', flags, is, ic), '=', flags, is, ic) == TState::AmpEq,
        transition(transition(TState::Start, '&', flags, is, ic), '&', flags, is, ic) == TState::AmpAmp,
        transition(TState::Start, '|', flags, is, ic) == TState::Bar,
        transition(transition(TState::Start, '|', flags, is, ic), '=', flags, is, ic) == TState::BarEq,
        transition(transition(TState::Start, '|', flags, is, ic), '|', flags, is, ic) == TState::BarBar,
        transition(TState::Start, '^', flags, is, ic) == TState::Caret,
        transition(transition(TState::Start, '^', flags, is, ic), '=', flags, is, ic) == TState::CaretEq,
{
}

} // verus!
