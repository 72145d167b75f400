//! What one token read from the start of a byte sequence is: the token's model
//! and its size in bytes, or `None` where the tokenizer gives up on the input.
use vstd::prelude::*;
use crate::tokenizer::Hint;
use crate::tokenizer::scan::{scan_to, lemma_scan_to, is_digit, is_hex_digit, is_octal_digit, is_binary_digit,
    is_ident_byte, is_lower_ascii, line_sep_at, line_end_at, nbsp_at, zwnbsp_at, dec_value};
use crate::tokenizer::tokens::{TokenModel, PunctuatorToken, CommentFormat, TemplateFormat};

verus! {

pub open spec fn punc(p: PunctuatorToken, n: int) -> Option<(TokenModel, int)> {
    Some((TokenModel::Punctuator(p), n))
}

/// The end of the identifier bytes starting at `i`.
pub open spec fn ident_end(b: Seq<u8>, i: int) -> int {
    scan_to(b.len() as int, i, |k: int| !is_ident_byte(b[k]))
}

pub open spec fn digits_end(b: Seq<u8>, i: int) -> int {
    scan_to(b.len() as int, i, |k: int| !is_digit(b[k]))
}

pub open spec fn hex_end(b: Seq<u8>, i: int) -> int {
    scan_to(b.len() as int, i, |k: int| !is_hex_digit(b[k]))
}

pub open spec fn octal_end(b: Seq<u8>, i: int) -> int {
    scan_to(b.len() as int, i, |k: int| !is_octal_digit(b[k]))
}

pub open spec fn binary_end(b: Seq<u8>, i: int) -> int {
    scan_to(b.len() as int, i, |k: int| !is_binary_digit(b[k]))
}

pub open spec fn flags_end(b: Seq<u8>, i: int) -> int {
    scan_to(b.len() as int, i, |k: int| !is_lower_ascii(b[k]))
}

/// The end of a line comment's text: the first line terminator from `i` on.
pub open spec fn line_comment_end(b: Seq<u8>, i: int) -> int {
    scan_to(b.len() as int, i, |k: int| line_end_at(b, k))
}

/// The index of the `/` that closes a block comment opened at 0.
pub open spec fn block_comment_close(b: Seq<u8>) -> int {
    scan_to(b.len() as int, 2, |k: int| b[k] == 0x2F && k >= 3 && b[k - 1] == 0x2A)
}

/// The index that ends a template part opened at 0: a backtick, or the `{` of `${`.
pub open spec fn template_close(b: Seq<u8>) -> int {
    scan_to(
        b.len() as int,
        1,
        |k: int| b[k] == 0x60 || (b[k] == 0x7B && k >= 2 && b[k - 1] == 0x24),
    )
}

/// The index of the `/` that ends a regular expression body, given whether the
/// previous byte escapes this one and whether a character class is open; -1
/// when there is none.
pub open spec fn regex_end(b: Seq<u8>, i: int, esc: bool, class: bool) -> int
    decreases b.len() - i,
{
    if i >= b.len() {
        -1
    } else if esc {
        regex_end(b, i + 1, false, class)
    } else if b[i] == 0x5C {
        regex_end(b, i + 1, true, class)
    } else if b[i] == 0x2F && !class {
        i
    } else if b[i] == 0x5B && !class {
        regex_end(b, i + 1, false, true)
    } else if b[i] == 0x5D && class {
        regex_end(b, i + 1, false, false)
    } else {
        regex_end(b, i + 1, false, class)
    }
}

/// The escapes that end with the byte after the backslash.
pub open spec fn is_simple_escape(c: u8) -> bool {
    c == 0x27 || c == 0x22 || c == 0x5C || c == 0x62 || c == 0x66 || c == 0x6E || c == 0x72
        || c == 0x74 || c == 0x76 || c == 0x30
}

/// How scanning a string literal ends.
pub enum StrScan {
    /// At the closing quote with this index.
    Closed(int),
    /// The input ends first.
    Unterminated,
    /// The tokenizer gives up (a bad escape or a line break).
    Fails,
}

/// The escape state while scanning a string literal.
pub struct EscState {
    /// Bytes since the backslash, counting from 1; 0 outside an escape.
    pub esc: int,
    pub hex: bool,
    pub uni: bool,
    pub long: bool,
    /// A line continuation with CR was seen; LF no longer fails.
    pub ignore_nl: bool,
}

/// The escape state after the byte `c` at `i`, where it does not end the scan.
pub open spec fn esc_step(b: Seq<u8>, i: int, s: EscState) -> EscState {
    let c = b[i];
    let hex1 = if s.esc == 1 && c == 0x78 { true } else { s.hex };
    let uni1 = if s.esc == 1 && c == 0x75 { true } else { s.uni };
    let esc2 = if hex1 && s.esc == 3 { 0 } else { s.esc };
    let hex2 = if hex1 && s.esc == 3 { false } else { hex1 };
    let long2 = if uni1 && esc2 == 2 && c == 0x7B { true } else { s.long };
    let esc3 = if uni1 && !long2 && esc2 == 5 { 0 } else { esc2 };
    let uni3 = if uni1 && !long2 && esc2 == 5 { false } else { uni1 };
    let esc4 = if uni1 && long2 && c == 0x7D { 0 } else { esc3 };
    let uni4 = if uni1 && long2 && c == 0x7D { false } else { uni3 };
    let long4 = if uni1 && long2 && c == 0x7D { false } else { long2 };
    EscState { esc: esc4, hex: hex2, uni: uni4, long: long4, ignore_nl: s.ignore_nl }
}

/// Scans a string literal quoted with `t` from `i` on.
pub open spec fn str_scan(b: Seq<u8>, t: u8, i: int, s: EscState) -> StrScan
    decreases b.len() - i,
{
    if i >= b.len() || i < 0 {
        StrScan::Unterminated
    } else {
        let c = b[i];
        if s.esc == 1 && c == 0x0D {
            str_scan(b, t, i + 1, EscState { esc: 0, ignore_nl: true, ..s })
        } else if s.esc == 1 && (c == 0x0A || (c == 0xE2 && line_sep_at(b, i))
            || is_simple_escape(c)) {
            str_scan(b, t, i + 1, EscState { esc: 0, ..s })
        } else if s.esc == 1 && c != 0x78 && c != 0x75 {
            StrScan::Fails
        } else {
            let n = esc_step(b, i, s);
            if n.esc != 0 {
                str_scan(b, t, i + 1, EscState { esc: n.esc + 1, ..n })
            } else if c == 0x5C {
                str_scan(b, t, i + 1, EscState { esc: 1, ..n })
            } else if c == t && (c == 0x22 || c == 0x27) {
                StrScan::Closed(i)
            } else if c == 0x0A && n.ignore_nl {
                str_scan(b, t, i + 1, n)
            } else if c == 0x0D || c == 0x0A || (c == 0xE2 && line_sep_at(b, i)) {
                StrScan::Fails
            } else {
                str_scan(b, t, i + 1, n)
            }
        }
    }
}

pub open spec fn esc_start() -> EscState {
    EscState { esc: 0, hex: false, uni: false, long: false, ignore_nl: false }
}

/// The value and length that an exponent part at the start of `e` has; `None`
/// where its value does not fit in an `i32`.
pub open spec fn spec_parse_exponent(e: Seq<u8>) -> Option<(int, int)> {
    if e.len() >= 2 && (e[0] == 0x65 || e[0] == 0x45) {
        let off: int = if e[1] == 0x2B || e[1] == 0x2D { 2 } else { 1 };
        let sign: int = if e[1] == 0x2D { -1 } else { 1 };
        let end = digits_end(e, off);
        let v = dec_value(e, off, end);
        if v > i32::MAX {
            None
        } else {
            Some((sign * v, end))
        }
    } else {
        Some((0, 0))
    }
}

/// A numeric literal `b[0..off]` followed by an optional exponent part.
pub open spec fn with_exponent(b: Seq<u8>, off: int) -> Option<(TokenModel, int)> {
    match spec_parse_exponent(b.subrange(off, b.len() as int)) {
        Some((_, num)) => Some((TokenModel::NumericLiteral(b.subrange(0, off + num)), off + num)),
        None => None,
    }
}

/// `.` followed by a digit.
pub open spec fn lex_fractional(b: Seq<u8>) -> Option<(TokenModel, int)> {
    with_exponent(b, digits_end(b, 1))
}

/// A literal that starts with a non-zero digit.
pub open spec fn lex_num(b: Seq<u8>) -> Option<(TokenModel, int)> {
    let off = digits_end(b, 0);
    let off1 = if off < b.len() && b[off] == 0x2E { digits_end(b, off + 1) } else { off };
    with_exponent(b, off1)
}

pub open spec fn numeric(b: Seq<u8>, end: int) -> Option<(TokenModel, int)> {
    Some((TokenModel::NumericLiteral(b.subrange(0, end)), end))
}

/// A literal that starts with `0`.
pub open spec fn lex_zero_num(b: Seq<u8>) -> Option<(TokenModel, int)> {
    let c: u8 = if 2 < b.len() { b[1] } else { 0 };
    if c == 0x78 || c == 0x58 {
        if b[2] < 0x30 || b[2] >= 0x80 { None } else { numeric(b, hex_end(b, 3)) }
    } else if c == 0x6F || c == 0x4F {
        let e = octal_end(b, 3);
        if b[2] < 0x30 || b[2] >= 0x80 || (e < b.len() && (b[e] == 0x38 || b[e] == 0x39)) {
            None
        } else {
            numeric(b, e)
        }
    } else if c == 0x62 || c == 0x42 {
        let e = binary_end(b, 3);
        if b[2] < 0x30 || b[2] >= 0x80 || (e < b.len() && 0x32 <= b[e] <= 0x39) {
            None
        } else {
            numeric(b, e)
        }
    } else if c == 0x2E {
        with_exponent(b, digits_end(b, 2))
    } else {
        numeric(b, 1)
    }
}

/// A token that starts with `/`: a comment, a regular expression, or a punctuator.
pub open spec fn lex_slash(b: Seq<u8>, hint: Hint) -> Option<(TokenModel, int)> {
    if b.len() > 1 && b[1] == 0x2F {
        let e = line_comment_end(b, 2);
        Some((TokenModel::Comment(CommentFormat::Line, b.subrange(2, e)), e))
    } else if b.len() > 1 && b[1] == 0x2A {
        let e = block_comment_close(b);
        if e < b.len() {
            Some((TokenModel::Comment(CommentFormat::Block, b.subrange(2, e - 1)), e + 1))
        } else {
            None
        }
    } else if hint.is_expression() {
        let e = regex_end(b, 1, false, false);
        if e <= 1 {
            None
        } else {
            let f = flags_end(b, e + 1);
            Some(
                (
                    TokenModel::RegularExpressionLiteral(b.subrange(1, e), b.subrange(e + 1, f)),
                    f,
                ),
            )
        }
    } else if b.len() > 1 && b[1] == 0x3D {
        punc(PunctuatorToken::SlashEq, 2)
    } else {
        punc(PunctuatorToken::Slash, 1)
    }
}

/// A template part that starts at 0 and ends at the `template_close` index.
pub open spec fn template_part(b: Seq<u8>, curly: TemplateFormat, tick: TemplateFormat) -> Option<
    (TokenModel, int),
> {
    let e = template_close(b);
    if e >= b.len() {
        None
    } else if b[e] == 0x60 {
        Some((TokenModel::Template(tick, b.subrange(1, e), b.subrange(1, e)), e + 1))
    } else {
        Some((TokenModel::Template(curly, b.subrange(1, e - 1), b.subrange(1, e - 1)), e + 1))
    }
}

pub open spec fn lex_curly_close(b: Seq<u8>, hint: Hint) -> Option<(TokenModel, int)> {
    if hint.is_template() {
        template_part(b, TemplateFormat::Middle, TemplateFormat::Tail)
    } else {
        punc(PunctuatorToken::CurlyClose, 1)
    }
}

pub open spec fn lex_str(b: Seq<u8>) -> Option<(TokenModel, int)> {
    match str_scan(b, b[0], 1, esc_start()) {
        StrScan::Closed(i) => Some((TokenModel::StringLiteral(b.subrange(1, i)), i + 1)),
        StrScan::Unterminated => Some((TokenModel::StringLiteral(Seq::empty()), 0)),
        StrScan::Fails => None,
    }
}

pub open spec fn lex_ident(b: Seq<u8>) -> Option<(TokenModel, int)> {
    let e = ident_end(b, 0);
    Some((TokenModel::IdentifierName(b.subrange(0, e)), e))
}

/// Two-byte lookahead helpers.
pub open spec fn at(b: Seq<u8>, i: int, c: u8) -> bool {
    i < b.len() && b[i] == c
}

/// The token at the start of `b` under `hint`, with its size in bytes; `None`
/// where the tokenizer gives up: at whitespace, which callers skip first, and
/// at unterminated comments, templates and regular expressions, bad escapes,
/// line breaks inside string literals, and malformed numeric literals.
pub open spec fn lex(b: Seq<u8>, hint: Hint) -> Option<(TokenModel, int)> {
    if b.len() == 0 {
        Some((TokenModel::EOF, 0))
    } else {
        let c = b[0];
        if c == 0x7B { punc(PunctuatorToken::CurlyOpen, 1) }
        else if c == 0x28 { punc(PunctuatorToken::ParenOpen, 1) }
        else if c == 0x29 { punc(PunctuatorToken::ParenClose, 1) }
        else if c == 0x5B { punc(PunctuatorToken::SquareOpen, 1) }
        else if c == 0x5D { punc(PunctuatorToken::SquareClose, 1) }
        else if c == 0x3B { punc(PunctuatorToken::Semicolon, 1) }
        else if c == 0x2C { punc(PunctuatorToken::Comma, 1) }
        else if c == 0x3F { punc(PunctuatorToken::Question, 1) }
        else if c == 0x3A { punc(PunctuatorToken::Colon, 1) }
        else if c == 0x7E { punc(PunctuatorToken::Tilde, 1) }
        else if c == 0x2E {
            if at(b, 1, 0x2E) && at(b, 2, 0x2E) { punc(PunctuatorToken::Ellipsis, 3) }
            else if b.len() > 1 && is_digit(b[1]) { lex_fractional(b) }
            else { punc(PunctuatorToken::Period, 1) }
        } else if c == 0x3C {
            if at(b, 1, 0x3C) {
                if at(b, 2, 0x3D) { punc(PunctuatorToken::LAngleAngleEq, 3) }
                else { punc(PunctuatorToken::LAngleAngle, 2) }
            } else if at(b, 1, 0x3D) { punc(PunctuatorToken::LAngleEq, 2) }
            else { punc(PunctuatorToken::LAngle, 1) }
        } else if c == 0x3E {
            if at(b, 1, 0x3E) {
                if at(b, 2, 0x3E) {
                    if at(b, 3, 0x3D) { punc(PunctuatorToken::RAngleAngleAngleEq, 4) }
                    else { punc(PunctuatorToken::RAngleAngleAngle, 3) }
                } else if at(b, 2, 0x3D) { punc(PunctuatorToken::RAngleAngleEq, 3) }
                else { punc(PunctuatorToken::RAngleAngle, 2) }
            } else if at(b, 1, 0x3D) { punc(PunctuatorToken::RAngleEq, 2) }
            else { punc(PunctuatorToken::RAngle, 1) }
        } else if c == 0x3D {
            if at(b, 1, 0x3D) {
                if at(b, 2, 0x3D) { punc(PunctuatorToken::EqEqEq, 3) }
                else { punc(PunctuatorToken::EqEq, 2) }
            } else if at(b, 1, 0x3E) { punc(PunctuatorToken::Arrow, 2) }
            else { punc(PunctuatorToken::Eq, 1) }
        } else if c == 0x21 {
            if at(b, 1, 0x3D) {
                if at(b, 2, 0x3D) { punc(PunctuatorToken::ExclamEqEq, 3) }
                else { punc(PunctuatorToken::ExclamEq, 2) }
            } else { punc(PunctuatorToken::Exclam, 1) }
        } else if c == 0x2B {
            if at(b, 1, 0x2B) { punc(PunctuatorToken::PlusPlus, 2) }
            else if at(b, 1, 0x3D) { punc(PunctuatorToken::PlusEq, 2) }
            else { punc(PunctuatorToken::Plus, 1) }
        } else if c == 0x2D {
            if at(b, 1, 0x2D) {
                if at(b, 2, 0x3E) { punc(PunctuatorToken::MinusMinusAngle, 3) }
                else { punc(PunctuatorToken::MinusMinus, 2) }
            } else if at(b, 1, 0x3D) { punc(PunctuatorToken::MinusEq, 2) }
            else { punc(PunctuatorToken::Minus, 1) }
        } else if c == 0x26 {
            if at(b, 1, 0x26) { punc(PunctuatorToken::AmpAmp, 2) }
            else if at(b, 1, 0x3D) { punc(PunctuatorToken::AmpEq, 2) }
            else { punc(PunctuatorToken::Amp, 1) }
        } else if c == 0x7C {
            if at(b, 1, 0x7C) { punc(PunctuatorToken::BarBar, 2) }
            else if at(b, 1, 0x3D) { punc(PunctuatorToken::BarEq, 2) }
            else { punc(PunctuatorToken::Bar, 1) }
        } else if c == 0x5E {
            if at(b, 1, 0x3D) { punc(PunctuatorToken::CaretEq, 2) }
            else { punc(PunctuatorToken::Caret, 1) }
        } else if c == 0x25 {
            if at(b, 1, 0x3D) { punc(PunctuatorToken::PercentEq, 2) }
            else { punc(PunctuatorToken::Percent, 1) }
        } else if c == 0x2A {
            if at(b, 1, 0x2A) {
                if at(b, 2, 0x3D) { punc(PunctuatorToken::StarStarEq, 3) }
                else { punc(PunctuatorToken::StarStar, 2) }
            } else if at(b, 1, 0x3D) { punc(PunctuatorToken::StarEq, 2) }
            else { punc(PunctuatorToken::Star, 1) }
        } else if c == 0x2F { lex_slash(b, hint) }
        else if c == 0x7D { lex_curly_close(b, hint) }
        else if c == 0x27 || c == 0x22 { lex_str(b) }
        else if c == 0x30 { lex_zero_num(b) }
        else if 0x31 <= c <= 0x39 { lex_num(b) }
        else if c == 0x60 { template_part(b, TemplateFormat::Head, TemplateFormat::NoSubstitution) }
        else if c == 0x09 || c == 0x0B || c == 0x0C || c == 0x20 { None }
        else if zwnbsp_at(b, 0) || nbsp_at(b, 0) { None }
        else if c == 0x0A || c == 0x0D { Some((TokenModel::LineTerminator, 1)) }
        else if line_sep_at(b, 0) { Some((TokenModel::LineTerminator, 3)) }
        else { lex_ident(b) }
    }
}


proof fn lemma_digits_end(b: Seq<u8>, i: int)
    requires
        0 <= i <= b.len(),
    ensures
        i <= digits_end(b, i) <= b.len(),
        i < b.len() && is_digit(b[i]) ==> digits_end(b, i) > i,
{
    lemma_scan_to(b.len() as int, i, |k: int| !is_digit(b[k]));
}

/// A numeric literal whose digits end at `off` takes at least `off` bytes.
proof fn lemma_with_exponent(b: Seq<u8>, off: int)
    requires
        0 <= off <= b.len(),
    ensures
        with_exponent(b, off) matches Some((_, n)) ==> n >= off,
{
    let e = b.subrange(off, b.len() as int);
    if e.len() >= 2 && (e[0] == 0x65 || e[0] == 0x45) {
        let o: int = if e[1] == 0x2B || e[1] == 0x2D { 2 } else { 1 };
        lemma_digits_end(e, o);
    }
}

/// A string literal scanned from `i` closes at `i` or later.
proof fn lemma_str_scan_closes_after(b: Seq<u8>, t: u8, i: int, s: EscState)
    ensures
        str_scan(b, t, i, s) matches StrScan::Closed(j) ==> j >= i,
    decreases b.len() - i,
{
    if 0 <= i < b.len() {
        let n = esc_step(b, i, s);
        lemma_str_scan_closes_after(b, t, i + 1, EscState { esc: 0, ignore_nl: true, ..s });
        lemma_str_scan_closes_after(b, t, i + 1, EscState { esc: 0, ..s });
        lemma_str_scan_closes_after(b, t, i + 1, EscState { esc: n.esc + 1, ..n });
        lemma_str_scan_closes_after(b, t, i + 1, EscState { esc: 1, ..n });
        lemma_str_scan_closes_after(b, t, i + 1, n);
    }
}

proof fn lemma_slash_takes_input(b: Seq<u8>, hint: Hint)
    requires
        b.len() > 0,
    ensures
        lex_slash(b, hint) matches Some((_, n)) ==> n > 0,
{
    if b.len() >= 2 {
        lemma_scan_to(b.len() as int, 2, |k: int| line_end_at(b, k));
        lemma_scan_to(b.len() as int, 2, |k: int| b[k] == 0x2F && k >= 3 && b[k - 1] == 0x2A);
    }
    let e = regex_end(b, 1, false, false);
    if e > 1 && e + 1 <= b.len() {
        lemma_scan_to(b.len() as int, e + 1, |k: int| !is_lower_ascii(b[k]));
    }
}

proof fn lemma_template_takes_input(b: Seq<u8>, curly: TemplateFormat, tick: TemplateFormat)
    requires
        b.len() > 0,
    ensures
        template_part(b, curly, tick) matches Some((_, n)) ==> n > 0,
{
    lemma_scan_to(
        b.len() as int,
        1,
        |k: int| b[k] == 0x60 || (b[k] == 0x7B && k >= 2 && b[k - 1] == 0x24),
    );
}

proof fn lemma_zero_takes_input(b: Seq<u8>)
    requires
        b.len() > 0,
    ensures
        lex_zero_num(b) matches Some((_, n)) ==> n > 0,
{
    if b.len() > 2 {
        lemma_scan_to(b.len() as int, 3, |k: int| !is_hex_digit(b[k]));
        lemma_scan_to(b.len() as int, 3, |k: int| !is_octal_digit(b[k]));
        lemma_scan_to(b.len() as int, 3, |k: int| !is_binary_digit(b[k]));
        lemma_digits_end(b, 2);
        lemma_with_exponent(b, digits_end(b, 2));
    }
}

proof fn lemma_num_takes_input(b: Seq<u8>)
    requires
        b.len() > 0,
        is_digit(b[0]),
    ensures
        lex_num(b) matches Some((_, n)) ==> n > 0,
{
    lemma_digits_end(b, 0);
    let off = digits_end(b, 0);
    if off < b.len() && b[off] == 0x2E {
        lemma_digits_end(b, off + 1);
        lemma_with_exponent(b, digits_end(b, off + 1));
    } else {
        lemma_with_exponent(b, off);
    }
}

proof fn lemma_fraction_takes_input(b: Seq<u8>)
    requires
        b.len() > 1,
    ensures
        lex_fractional(b) matches Some((_, n)) ==> n > 0,
{
    lemma_digits_end(b, 1);
    lemma_with_exponent(b, digits_end(b, 1));
}

proof fn lemma_ident_takes_input(b: Seq<u8>)
    requires
        b.len() > 0,
    ensures
        lex_ident(b) matches Some((m, n)) ==> n > 0 || (m == TokenModel::IdentifierName(Seq::empty())
            && !is_ident_byte(b[0])),
{
    lemma_scan_to(b.len() as int, 0, |k: int| !is_ident_byte(b[k]));
    if is_ident_byte(b[0]) {
        lemma_scan_to(b.len() as int, 1, |k: int| !is_ident_byte(b[k]));
    } else {
        assert(b.subrange(0, 0) =~= Seq::<u8>::empty());
    }
}

/// Every token read from input that is not empty takes at least one byte,
/// but for two: a name at a byte that cannot start one (such as the first
/// byte of a letter outside ASCII), which comes out empty, and a string
/// literal that the input ends inside.
pub proof fn lemma_token_takes_input(b: Seq<u8>, hint: Hint)
    requires
        b.len() > 0,
    ensures
        lex(b, hint) matches Some((m, n)) ==> n > 0
            || (m == TokenModel::IdentifierName(Seq::empty()) && !is_ident_byte(b[0]))
            || (m == TokenModel::StringLiteral(Seq::empty()) && (b[0] == 0x27 || b[0] == 0x22)
                && str_scan(b, b[0], 1, esc_start()) is Unterminated),
{
    let c = b[0];
    lemma_slash_takes_input(b, hint);
    lemma_template_takes_input(b, TemplateFormat::Middle, TemplateFormat::Tail);
    lemma_template_takes_input(b, TemplateFormat::Head, TemplateFormat::NoSubstitution);
    lemma_zero_takes_input(b);
    if is_digit(c) {
        lemma_num_takes_input(b);
    }
    if b.len() > 1 {
        lemma_fraction_takes_input(b);
    }
    lemma_ident_takes_input(b);
    lemma_str_scan_closes_after(b, c, 1, esc_start());
}

/// Inside a string literal, a backslash followed by one of JavaScript's
/// single escape characters (`'`, `"`, `\`, `b`, `f`, `n`, `r`, `t`, `v`) or
/// by `0` escapes just that character: the scan goes on after it with no
/// escape open, whichever quote the literal uses. So `\'` inside `'...'`
/// neither closes the literal nor stops the tokenizer.
pub proof fn law_single_escapes(b: Seq<u8>, t: u8, i: int, s: EscState)
    requires
        0 <= i < b.len(),
        s.esc == 1,
        b[i] == 0x27 || b[i] == 0x22 || b[i] == 0x5C || b[i] == 0x62 || b[i] == 0x66 || b[i] == 0x6E
            || b[i] == 0x72 || b[i] == 0x74 || b[i] == 0x76 || b[i] == 0x30,
    ensures
        str_scan(b, t, i, s) == str_scan(b, t, i + 1, EscState { esc: 0, ..s }),
{
}

/// Outside an escape, the quote that opened a string literal closes it, at
/// that quote.
pub proof fn law_string_closes_at_its_quote(b: Seq<u8>, t: u8, i: int, s: EscState)
    requires
        0 <= i < b.len(),
        t == 0x27 || t == 0x22,
        b[i] == t,
        s.esc == 0,
        !s.hex,
        !s.uni,
    ensures
        str_scan(b, t, i, s) == StrScan::Closed(i),
{
}


/// How each punctuator is spelled, in bytes.
pub open spec fn punc_spelling(p: PunctuatorToken) -> Seq<u8> {
    match p {
        PunctuatorToken::CurlyOpen => seq![0x7Bu8],
        PunctuatorToken::ParenOpen => seq![0x28u8],
        PunctuatorToken::ParenClose => seq![0x29u8],
        PunctuatorToken::SquareOpen => seq![0x5Bu8],
        PunctuatorToken::SquareClose => seq![0x5Du8],
        PunctuatorToken::Semicolon => seq![0x3Bu8],
        PunctuatorToken::Comma => seq![0x2Cu8],
        PunctuatorToken::Question => seq![0x3Fu8],
        PunctuatorToken::Colon => seq![0x3Au8],
        PunctuatorToken::Tilde => seq![0x7Eu8],
        PunctuatorToken::Ellipsis => seq![0x2Eu8, 0x2Eu8, 0x2Eu8],
        PunctuatorToken::LAngleAngleEq => seq![0x3Cu8, 0x3Cu8, 0x3Du8],
        PunctuatorToken::LAngleAngle => seq![0x3Cu8, 0x3Cu8],
        PunctuatorToken::LAngleEq => seq![0x3Cu8, 0x3Du8],
        PunctuatorToken::LAngle => seq![0x3Cu8],
        PunctuatorToken::RAngleAngleAngleEq => seq![0x3Eu8, 0x3Eu8, 0x3Eu8, 0x3Du8],
        PunctuatorToken::RAngleAngleAngle => seq![0x3Eu8, 0x3Eu8, 0x3Eu8],
        PunctuatorToken::RAngleAngleEq => seq![0x3Eu8, 0x3Eu8, 0x3Du8],
        PunctuatorToken::RAngleAngle => seq![0x3Eu8, 0x3Eu8],
        PunctuatorToken::RAngleEq => seq![0x3Eu8, 0x3Du8],
        PunctuatorToken::RAngle => seq![0x3Eu8],
        PunctuatorToken::EqEqEq => seq![0x3Du8, 0x3Du8, 0x3Du8],
        PunctuatorToken::EqEq => seq![0x3Du8, 0x3Du8],
        PunctuatorToken::Arrow => seq![0x3Du8, 0x3Eu8],
        PunctuatorToken::Eq => seq![0x3Du8],
        PunctuatorToken::ExclamEqEq => seq![0x21u8, 0x3Du8, 0x3Du8],
        PunctuatorToken::ExclamEq => seq![0x21u8, 0x3Du8],
        PunctuatorToken::Exclam => seq![0x21u8],
        PunctuatorToken::PlusPlus => seq![0x2Bu8, 0x2Bu8],
        PunctuatorToken::PlusEq => seq![0x2Bu8, 0x3Du8],
        PunctuatorToken::Plus => seq![0x2Bu8],
        PunctuatorToken::MinusMinusAngle => seq![0x2Du8, 0x2Du8, 0x3Eu8],
        PunctuatorToken::MinusMinus => seq![0x2Du8, 0x2Du8],
        PunctuatorToken::MinusEq => seq![0x2Du8, 0x3Du8],
        PunctuatorToken::Minus => seq![0x2Du8],
        PunctuatorToken::AmpAmp => seq![0x26u8, 0x26u8],
        PunctuatorToken::AmpEq => seq![0x26u8, 0x3Du8],
        PunctuatorToken::Amp => seq![0x26u8],
        PunctuatorToken::BarBar => seq![0x7Cu8, 0x7Cu8],
        PunctuatorToken::BarEq => seq![0x7Cu8, 0x3Du8],
        PunctuatorToken::Bar => seq![0x7Cu8],
        PunctuatorToken::CaretEq => seq![0x5Eu8, 0x3Du8],
        PunctuatorToken::Caret => seq![0x5Eu8],
        PunctuatorToken::PercentEq => seq![0x25u8, 0x3Du8],
        PunctuatorToken::Percent => seq![0x25u8],
        PunctuatorToken::StarStarEq => seq![0x2Au8, 0x2Au8, 0x3Du8],
        PunctuatorToken::StarStar => seq![0x2Au8, 0x2Au8],
        PunctuatorToken::StarEq => seq![0x2Au8, 0x3Du8],
        PunctuatorToken::Star => seq![0x2Au8],
        PunctuatorToken::Period => seq![0x2Eu8],
        PunctuatorToken::SlashEq => seq![0x2Fu8, 0x3Du8],
        PunctuatorToken::Slash => seq![0x2Fu8],
        PunctuatorToken::CurlyClose => seq![0x7Du8],
        _ => Seq::empty(),
    }
}

/// Whether `b` begins with the spelling of `p`.
pub open spec fn punc_spelled(b: Seq<u8>, p: PunctuatorToken) -> bool {
    let s = punc_spelling(p);
    &&& 1 <= s.len() <= 4
    &&& s.len() <= b.len()
    &&& b[0] == s[0]
    &&& s.len() >= 2 ==> b[1] == s[1]
    &&& s.len() >= 3 ==> b[2] == s[2]
    &&& s.len() >= 4 ==> b[3] == s[3]
}

/// Punctuators are read by the longest match: where `b` begins with the
/// spelling of a punctuator and with no longer one, that punctuator is the
/// token, and it takes as many bytes as its spelling, under any hint. (`.`,
/// `/`, `/=` and `}` are left out: what they begin depends on what follows
/// them and on the hint.) So `||`, `>=` and `>>>=` are single tokens.
pub proof fn law_longest_punctuator(b: Seq<u8>, p: PunctuatorToken, hint: Hint)
    requires
        p == PunctuatorToken::CurlyOpen || p == PunctuatorToken::ParenOpen || p == PunctuatorToken::ParenClose || p == PunctuatorToken::SquareOpen || p == PunctuatorToken::SquareClose || p == PunctuatorToken::Semicolon || p == PunctuatorToken::Comma || p == PunctuatorToken::Question || p == PunctuatorToken::Colon || p == PunctuatorToken::Tilde || p == PunctuatorToken::Ellipsis || p == PunctuatorToken::LAngleAngleEq || p == PunctuatorToken::LAngleAngle || p == PunctuatorToken::LAngleEq || p == PunctuatorToken::LAngle || p == PunctuatorToken::RAngleAngleAngleEq || p == PunctuatorToken::RAngleAngleAngle || p == PunctuatorToken::RAngleAngleEq || p == PunctuatorToken::RAngleAngle || p == PunctuatorToken::RAngleEq || p == PunctuatorToken::RAngle || p == PunctuatorToken::EqEqEq || p == PunctuatorToken::EqEq || p == PunctuatorToken::Arrow || p == PunctuatorToken::Eq || p == PunctuatorToken::ExclamEqEq || p == PunctuatorToken::ExclamEq || p == PunctuatorToken::Exclam || p == PunctuatorToken::PlusPlus || p == PunctuatorToken::PlusEq || p == PunctuatorToken::Plus || p == PunctuatorToken::MinusMinusAngle || p == PunctuatorToken::MinusMinus || p == PunctuatorToken::MinusEq || p == PunctuatorToken::Minus || p == PunctuatorToken::AmpAmp || p == PunctuatorToken::AmpEq || p == PunctuatorToken::Amp || p == PunctuatorToken::BarBar || p == PunctuatorToken::BarEq || p == PunctuatorToken::Bar || p == PunctuatorToken::CaretEq || p == PunctuatorToken::Caret || p == PunctuatorToken::PercentEq || p == PunctuatorToken::Percent || p == PunctuatorToken::StarStarEq || p == PunctuatorToken::StarStar || p == PunctuatorToken::StarEq || p == PunctuatorToken::Star,
        punc_spelled(b, p),
        forall|q: PunctuatorToken| #[trigger] punc_spelled(b, q) ==> punc_spelling(q).len() <= punc_spelling(p).len(),
    ensures
        lex(b, hint) == Some((TokenModel::Punctuator(p), punc_spelling(p).len() as int)),
{
    match p {
        PunctuatorToken::CurlyOpen => {
        },
        PunctuatorToken::ParenOpen => {
        },
        PunctuatorToken::ParenClose => {
        },
        PunctuatorToken::SquareOpen => {
        },
        PunctuatorToken::SquareClose => {
        },
        PunctuatorToken::Semicolon => {
        },
        PunctuatorToken::Comma => {
        },
        PunctuatorToken::Question => {
        },
        PunctuatorToken::Colon => {
        },
        PunctuatorToken::Tilde => {
        },
        PunctuatorToken::Ellipsis => {
        },
        PunctuatorToken::LAngleAngleEq => {
        },
        PunctuatorToken::LAngleAngle => {
            assert(punc_spelled(b, PunctuatorToken::LAngleAngleEq) ==> punc_spelling(PunctuatorToken::LAngleAngleEq).len() <= punc_spelling(p).len());
        },
        PunctuatorToken::LAngleEq => {
        },
        PunctuatorToken::LAngle => {
            assert(punc_spelled(b, PunctuatorToken::LAngleAngleEq) ==> punc_spelling(PunctuatorToken::LAngleAngleEq).len() <= punc_spelling(p).len());
            assert(punc_spelled(b, PunctuatorToken::LAngleAngle) ==> punc_spelling(PunctuatorToken::LAngleAngle).len() <= punc_spelling(p).len());
            assert(punc_spelled(b, PunctuatorToken::LAngleEq) ==> punc_spelling(PunctuatorToken::LAngleEq).len() <= punc_spelling(p).len());
        },
        PunctuatorToken::RAngleAngleAngleEq => {
        },
        PunctuatorToken::RAngleAngleAngle => {
            assert(punc_spelled(b, PunctuatorToken::RAngleAngleAngleEq) ==> punc_spelling(PunctuatorToken::RAngleAngleAngleEq).len() <= punc_spelling(p).len());
        },
        PunctuatorToken::RAngleAngleEq => {
        },
        PunctuatorToken::RAngleAngle => {
            assert(punc_spelled(b, PunctuatorToken::RAngleAngleAngleEq) ==> punc_spelling(PunctuatorToken::RAngleAngleAngleEq).len() <= punc_spelling(p).len());
            assert(punc_spelled(b, PunctuatorToken::RAngleAngleAngle) ==> punc_spelling(PunctuatorToken::RAngleAngleAngle).len() <= punc_spelling(p).len());
            assert(punc_spelled(b, PunctuatorToken::RAngleAngleEq) ==> punc_spelling(PunctuatorToken::RAngleAngleEq).len() <= punc_spelling(p).len());
        },
        PunctuatorToken::RAngleEq => {
        },
        PunctuatorToken::RAngle => {
            assert(punc_spelled(b, PunctuatorToken::RAngleAngleAngleEq) ==> punc_spelling(PunctuatorToken::RAngleAngleAngleEq).len() <= punc_spelling(p).len());
            assert(punc_spelled(b, PunctuatorToken::RAngleAngleAngle) ==> punc_spelling(PunctuatorToken::RAngleAngleAngle).len() <= punc_spelling(p).len());
            assert(punc_spelled(b, PunctuatorToken::RAngleAngleEq) ==> punc_spelling(PunctuatorToken::RAngleAngleEq).len() <= punc_spelling(p).len());
            assert(punc_spelled(b, PunctuatorToken::RAngleAngle) ==> punc_spelling(PunctuatorToken::RAngleAngle).len() <= punc_spelling(p).len());
            assert(punc_spelled(b, PunctuatorToken::RAngleEq) ==> punc_spelling(PunctuatorToken::RAngleEq).len() <= punc_spelling(p).len());
        },
        PunctuatorToken::EqEqEq => {
        },
        PunctuatorToken::EqEq => {
            assert(punc_spelled(b, PunctuatorToken::EqEqEq) ==> punc_spelling(PunctuatorToken::EqEqEq).len() <= punc_spelling(p).len());
        },
        PunctuatorToken::Arrow => {
        },
        PunctuatorToken::Eq => {
            assert(punc_spelled(b, PunctuatorToken::EqEqEq) ==> punc_spelling(PunctuatorToken::EqEqEq).len() <= punc_spelling(p).len());
            assert(punc_spelled(b, PunctuatorToken::EqEq) ==> punc_spelling(PunctuatorToken::EqEq).len() <= punc_spelling(p).len());
            assert(punc_spelled(b, PunctuatorToken::Arrow) ==> punc_spelling(PunctuatorToken::Arrow).len() <= punc_spelling(p).len());
        },
        PunctuatorToken::ExclamEqEq => {
        },
        PunctuatorToken::ExclamEq => {
            assert(punc_spelled(b, PunctuatorToken::ExclamEqEq) ==> punc_spelling(PunctuatorToken::ExclamEqEq).len() <= punc_spelling(p).len());
        },
        PunctuatorToken::Exclam => {
            assert(punc_spelled(b, PunctuatorToken::ExclamEqEq) ==> punc_spelling(PunctuatorToken::ExclamEqEq).len() <= punc_spelling(p).len());
            assert(punc_spelled(b, PunctuatorToken::ExclamEq) ==> punc_spelling(PunctuatorToken::ExclamEq).len() <= punc_spelling(p).len());
        },
        PunctuatorToken::PlusPlus => {
        },
        PunctuatorToken::PlusEq => {
        },
        PunctuatorToken::Plus => {
            assert(punc_spelled(b, PunctuatorToken::PlusPlus) ==> punc_spelling(PunctuatorToken::PlusPlus).len() <= punc_spelling(p).len());
            assert(punc_spelled(b, PunctuatorToken::PlusEq) ==> punc_spelling(PunctuatorToken::PlusEq).len() <= punc_spelling(p).len());
        },
        PunctuatorToken::MinusMinusAngle => {
        },
        PunctuatorToken::MinusMinus => {
            assert(punc_spelled(b, PunctuatorToken::MinusMinusAngle) ==> punc_spelling(PunctuatorToken::MinusMinusAngle).len() <= punc_spelling(p).len());
        },
        PunctuatorToken::MinusEq => {
        },
        PunctuatorToken::Minus => {
            assert(punc_spelled(b, PunctuatorToken::MinusMinusAngle) ==> punc_spelling(PunctuatorToken::MinusMinusAngle).len() <= punc_spelling(p).len());
            assert(punc_spelled(b, PunctuatorToken::MinusMinus) ==> punc_spelling(PunctuatorToken::MinusMinus).len() <= punc_spelling(p).len());
            assert(punc_spelled(b, PunctuatorToken::MinusEq) ==> punc_spelling(PunctuatorToken::MinusEq).len() <= punc_spelling(p).len());
        },
        PunctuatorToken::AmpAmp => {
        },
        PunctuatorToken::AmpEq => {
        },
        PunctuatorToken::Amp => {
            assert(punc_spelled(b, PunctuatorToken::AmpAmp) ==> punc_spelling(PunctuatorToken::AmpAmp).len() <= punc_spelling(p).len());
            assert(punc_spelled(b, PunctuatorToken::AmpEq) ==> punc_spelling(PunctuatorToken::AmpEq).len() <= punc_spelling(p).len());
        },
        PunctuatorToken::BarBar => {
        },
        PunctuatorToken::BarEq => {
        },
        PunctuatorToken::Bar => {
            assert(punc_spelled(b, PunctuatorToken::BarBar) ==> punc_spelling(PunctuatorToken::BarBar).len() <= punc_spelling(p).len());
            assert(punc_spelled(b, PunctuatorToken::BarEq) ==> punc_spelling(PunctuatorToken::BarEq).len() <= punc_spelling(p).len());
        },
        PunctuatorToken::CaretEq => {
        },
        PunctuatorToken::Caret => {
            assert(punc_spelled(b, PunctuatorToken::CaretEq) ==> punc_spelling(PunctuatorToken::CaretEq).len() <= punc_spelling(p).len());
        },
        PunctuatorToken::PercentEq => {
        },
        PunctuatorToken::Percent => {
            assert(punc_spelled(b, PunctuatorToken::PercentEq) ==> punc_spelling(PunctuatorToken::PercentEq).len() <= punc_spelling(p).len());
        },
        PunctuatorToken::StarStarEq => {
        },
        PunctuatorToken::StarStar => {
            assert(punc_spelled(b, PunctuatorToken::StarStarEq) ==> punc_spelling(PunctuatorToken::StarStarEq).len() <= punc_spelling(p).len());
        },
        PunctuatorToken::StarEq => {
        },
        PunctuatorToken::Star => {
            assert(punc_spelled(b, PunctuatorToken::StarStarEq) ==> punc_spelling(PunctuatorToken::StarStarEq).len() <= punc_spelling(p).len());
            assert(punc_spelled(b, PunctuatorToken::StarStar) ==> punc_spelling(PunctuatorToken::StarStar).len() <= punc_spelling(p).len());
            assert(punc_spelled(b, PunctuatorToken::StarEq) ==> punc_spelling(PunctuatorToken::StarEq).len() <= punc_spelling(p).len());
        },
        _ => {},
    }
}


/// A name is read whole: at an ASCII letter, `$` or `_`, the token is the
/// name made of the longest run of ASCII letters, digits, `$` and `_` from
/// there, and it takes exactly those bytes.
pub proof fn law_name_is_longest_run(b: Seq<u8>, hint: Hint)
    requires
        b.len() > 0,
        (0x61 <= b[0] <= 0x7a) || (0x41 <= b[0] <= 0x5a) || b[0] == 0x24 || b[0] == 0x5f,
    ensures
        lex(b, hint) matches Some((m, n)) && {
            &&& 1 <= n <= b.len()
            &&& m == TokenModel::IdentifierName(b.subrange(0, n))
            &&& forall|k: int| 0 <= k < n ==> {
                let c = #[trigger] b[k];
                (0x61 <= c <= 0x7a) || (0x41 <= c <= 0x5a) || (0x30 <= c <= 0x39) || c == 0x24 || c == 0x5f
            }
            &&& n < b.len() ==> {
                let c = b[n];
                !((0x61 <= c <= 0x7a) || (0x41 <= c <= 0x5a) || (0x30 <= c <= 0x39) || c == 0x24 || c == 0x5f)
            }
        },
{
    lemma_scan_to(b.len() as int, 0, |k: int| !is_ident_byte(b[k]));
    let e = ident_end(b, 0);
    assert(lex(b, hint) == lex_ident(b));
    assert(e >= 1) by {
        assert(is_ident_byte(b[0]));
    }
    let p = |k: int| !is_ident_byte(b[k]);
    assert forall|k: int| 0 <= k < e implies is_ident_byte(#[trigger] b[k]) by {
        assert(!p(k));
    }
}

/// A decimal integer is read whole: at a digit from `1` to `9` that no `.`,
/// `e` or `E` follows the digits of, the token is the numeric literal made of
/// the longest run of digits from there.
pub proof fn law_integer_is_longest_run(b: Seq<u8>, hint: Hint, n: int)
    requires
        1 <= n <= b.len(),
        0x31 <= b[0] <= 0x39,
        forall|k: int| 0 <= k < n ==> 0x30 <= #[trigger] b[k] <= 0x39,
        n < b.len() ==> !(0x30 <= b[n] <= 0x39) && b[n] != 0x2E && b[n] != 0x65 && b[n] != 0x45,
    ensures
        lex(b, hint) == Some((TokenModel::NumericLiteral(b.subrange(0, n)), n)),
{
    lemma_scan_to(b.len() as int, 0, |k: int| !is_digit(b[k]));
    let e = digits_end(b, 0);
    if e < n {
        assert(0x30 <= b[e] <= 0x39);
        assert(!is_digit(b[e]));
    }
    if e > n {
        let p = |k: int| !is_digit(b[k]);
        assert(!p(n));
    }
    assert(e == n);
    assert(b.subrange(n, b.len() as int).len() < 2 || !(b[n] == 0x65 || b[n] == 0x45));
}

} // verus!
