//! The tokenizer over a string slice.
use vstd::prelude::*;
use vstd::utf8::*;
use vstd::string::*;
use crate::tokenizer::{Hint, Position, TokenRange, Tokenizer, IntoTokenizer};
use crate::tokenizer::scan::{cut_ok, lemma_cut_is_boundary, scan_to, lemma_scan_to, is_digit,
    is_hex_digit, is_octal_digit, is_binary_digit, is_ident_byte, is_lower_ascii, line_sep_at,
    line_end_at, nbsp_at, zwnbsp_at, dec_value, lemma_dec_value_mono, is_ws_byte, ws_end, advance,
    lemma_advance_bounds, lemma_line_sep_boundary};
use crate::tokenizer::lex::{lex, punc, ident_end, digits_end, hex_end, octal_end, binary_end,
    flags_end, line_comment_end, block_comment_close, template_close, regex_end, StrScan,
    EscState, esc_step, str_scan, esc_start, is_simple_escape, spec_parse_exponent,
    with_exponent, lex_fractional, lex_num, numeric, lex_zero_num, lex_slash, template_part,
    lex_curly_close, lex_str, lex_ident, at};
use crate::tokenizer::tokens::{text, Token, TokenModel, PunctuatorToken, CommentFormat,
    CommentToken, RegularExpressionLiteralToken, IdentifierNameToken, NumericLiteralToken,
    StringLiteralToken, TemplateFormat, TemplateToken, EOFToken, LineTerminatorToken};

verus! {

broadcast use {vstd::utf8::encode_utf8_valid_utf8, vstd::slice::group_slice_axioms};

/// Copies `code[start..end]`, which must be cut at character boundaries.
fn substring(code: &str, start: usize, end: usize) -> (r: String)
    requires
        start <= end <= code.spec_bytes().len(),
        cut_ok(code.spec_bytes(), start as int),
        cut_ok(code.spec_bytes(), end as int),
    ensures
        text(&r) == code.spec_bytes().subrange(start as int, end as int),
{
    let ghost b = code.spec_bytes();
    proof {
        assert(valid_utf8(encode_utf8(code@)));
        lemma_cut_is_boundary(b, start as int);
        valid_utf8_split(b, start as int);
        let rest = b.subrange(start as int, b.len() as int);
        assert(cut_ok(rest, end - start));
        lemma_cut_is_boundary(rest, end - start);
    }
    let (_, rest) = code.split_at(start);
    let (mid, _) = rest.split_at(end - start);
    proof {
        assert(mid.spec_bytes() =~= b.subrange(start as int, end as int));
    }
    mid.to_owned()
}

/// The result of an exec tokenizing step matches the model.
pub open spec fn lexed(r: Option<(Token, usize)>, s: Option<(TokenModel, int)>) -> bool {
    match r {
        Some((t, n)) => s == Some((t@, n as int)),
        None => s is None,
    }
}

fn ident_byte(c: u8) -> (r: bool)
    ensures
        r == is_ident_byte(c),
{
    (0x61 <= c && c <= 0x7a) || (0x41 <= c && c <= 0x5a) || (0x30 <= c && c <= 0x39) || c == 0x24
        || c == 0x5f
}

fn tok_ident(code: &str) -> (r: (Token, usize))
    ensures
        cut_ok(code.spec_bytes(), r.1 as int),
        lex_ident(code.spec_bytes()) == Some((r.0@, r.1 as int)),
{
    let bytes = code.as_bytes();
    let ghost b = code.spec_bytes();
    let mut end: usize = 0;
    while end < bytes.len() && ident_byte(bytes[end])
        invariant
            bytes@ == b,
            end <= b.len(),
            ident_end(b, end as int) == ident_end(b, 0),
            forall|k: int| 0 <= k < end ==> is_ident_byte(#[trigger] b[k]),
        decreases b.len() - end,
    {
        end += 1;
    }
    assert(cut_ok(b, end as int)) by {
        if 0 < end < b.len() {
            assert(is_ident_byte(b[end - 1]));
        }
    }
    let name = substring(code, 0, end);
    (Token::IdentifierName(IdentifierNameToken { name }), end)
}


/// A line terminator (CR, LF, LS or PS) starts at `i`.
fn line_end(bytes: &[u8], i: usize) -> (r: bool)
    requires
        i < bytes@.len(),
    ensures
        r == line_end_at(bytes@, i as int),
{
    bytes[i] == 0x0D || bytes[i] == 0x0A || line_sep(bytes, i)
}

/// LS or PS starts at `i`.
fn line_sep(bytes: &[u8], i: usize) -> (r: bool)
    requires
        i < bytes@.len(),
    ensures
        r == line_sep_at(bytes@, i as int),
{
    bytes[i] == 0xE2 && bytes.len() - i >= 3 && bytes[i + 1] == 0x80 && (bytes[i + 2] == 0xA8
        || bytes[i + 2] == 0xA9)
}

fn lower_ascii(c: u8) -> (r: bool)
    ensures
        r == is_lower_ascii(c),
{
    0x61 <= c && c <= 0x7a
}

fn tok_slash(code: &str, hint: &Hint) -> (r: Option<(Token, usize)>)
    requires
        code.spec_bytes().len() > 0,
        code.spec_bytes()[0] == 0x2F,
    ensures
        r matches Some((_, n)) ==> cut_ok(code.spec_bytes(), n as int),
        lexed(r, lex_slash(code.spec_bytes(), *hint)),
{
    let bytes = code.as_bytes();
    let ghost b = code.spec_bytes();
    let len = bytes.len();
    if len > 1 && bytes[1] == 0x2F {
        let mut end: usize = 2;
        while end < len && !line_end(bytes, end)
            invariant
                bytes@ == b,
                len == b.len(),
                2 <= end <= len,
                line_comment_end(b, end as int) == line_comment_end(b, 2),
            decreases len - end,
        {
            end += 1;
        }
        let value = substring(code, 2, end);
        return Some((Token::Comment(CommentToken { format: CommentFormat::Line, value }), end));
    } else if len > 1 && bytes[1] == 0x2A {
        let mut i: usize = 2;
        while i < len && !(bytes[i] == 0x2F && i >= 3 && bytes[i - 1] == 0x2A)
            invariant
                bytes@ == b,
                len == b.len(),
                2 <= i <= len,
                block_comment_close(b) == scan_to(
                    b.len() as int,
                    i as int,
                    |k: int| b[k] == 0x2F && k >= 3 && b[k - 1] == 0x2A,
                ),
            decreases len - i,
        {
            i += 1;
        }
        if i < len {
            let value = substring(code, 2, i - 1);
            return Some(
                (Token::Comment(CommentToken { format: CommentFormat::Block, value }), i + 1),
            );
        }
        return None;
    } else if hint.get_expression() {
        let mut i: usize = 1;
        let mut esc = false;
        let mut class = false;
        while i < len && (esc || bytes[i] != 0x2F || class)
            invariant
                bytes@ == b,
                len == b.len(),
                1 <= i <= len,
                regex_end(b, i as int, esc, class) == regex_end(b, 1, false, false),
            decreases len - i,
        {
            if esc {
                esc = false;
            } else if bytes[i] == 0x5C {
                esc = true;
            } else if bytes[i] == 0x5B && !class {
                class = true;
            } else if bytes[i] == 0x5D && class {
                class = false;
            }
            i += 1;
        }
        if i >= len || i <= 1 {
            return None;
        }
        let mut f: usize = i + 1;
        while f < len && lower_ascii(bytes[f])
            invariant
                bytes@ == b,
                len == b.len(),
                i + 1 <= f <= len,
                flags_end(b, f as int) == flags_end(b, i + 1),
                f == i + 1 || is_lower_ascii(b[f - 1]),
            decreases len - f,
        {
            f += 1;
        }
        let pattern = substring(code, 1, i);
        let flags = substring(code, i + 1, f);
        return Some(
            (Token::RegularExpressionLiteral(RegularExpressionLiteralToken { pattern, flags }), f),
        );
    } else if len > 1 && bytes[1] == 0x3D {
        return Some((Token::Punctuator(PunctuatorToken::SlashEq), 2));
    } else {
        return Some((Token::Punctuator(PunctuatorToken::Slash), 1));
    }
}

/// A template part opened by the ASCII byte at 0 (a backtick or `}`).
fn tok_template(code: &str, curly: TemplateFormat, tick: TemplateFormat) -> (r: Option<
    (Token, usize),
>)
    requires
        code.spec_bytes().len() > 0,
        code.spec_bytes()[0] < 0x80,
    ensures
        r matches Some((_, n)) ==> cut_ok(code.spec_bytes(), n as int),
        lexed(r, template_part(code.spec_bytes(), curly, tick)),
{
    let bytes = code.as_bytes();
    let ghost b = code.spec_bytes();
    let len = bytes.len();
    let mut i: usize = 1;
    while i < len && !(bytes[i] == 0x60 || (bytes[i] == 0x7B && i >= 2 && bytes[i - 1] == 0x24))
        invariant
            bytes@ == b,
            len == b.len(),
            1 <= i <= len,
            template_close(b) == scan_to(
                b.len() as int,
                i as int,
                |k: int| b[k] == 0x60 || (b[k] == 0x7B && k >= 2 && b[k - 1] == 0x24),
            ),
        decreases len - i,
    {
        i += 1;
    }
    if i >= len {
        return None;
    }
    if bytes[i] == 0x60 {
        let cooked = substring(code, 1, i);
        let raw = substring(code, 1, i);
        Some((Token::Template(TemplateToken { format: tick, cooked, raw }), i + 1))
    } else {
        let cooked = substring(code, 1, i - 1);
        let raw = substring(code, 1, i - 1);
        Some((Token::Template(TemplateToken { format: curly, cooked, raw }), i + 1))
    }
}

fn simple_escape(c: u8) -> (r: bool)
    ensures
        r == is_simple_escape(c),
{
    c == 0x27 || c == 0x22 || c == 0x5C || c == 0x62 || c == 0x66 || c == 0x6E || c == 0x72
        || c == 0x74 || c == 0x76 || c == 0x30
}

fn tok_str(code: &str) -> (r: Option<(Token, usize)>)
    requires
        code.spec_bytes().len() > 0,
        code.spec_bytes()[0] == 0x22 || code.spec_bytes()[0] == 0x27,
    ensures
        r matches Some((_, n)) ==> cut_ok(code.spec_bytes(), n as int),
        lexed(r, lex_str(code.spec_bytes())),
{
    let bytes = code.as_bytes();
    let ghost b = code.spec_bytes();
    let len = bytes.len();
    let t = bytes[0];
    let mut i: usize = 1;
    let mut esc: usize = 0;
    let mut hex = false;
    let mut uni = false;
    let mut long = false;
    let mut inl = false;
    while i < len
        invariant
            bytes@ == b,
            b == code.spec_bytes(),
            len == b.len(),
            t == b[0],
            1 <= i <= len,
            esc <= i,
            str_scan(
                b,
                t,
                i as int,
                EscState { esc: esc as int, hex, uni, long, ignore_nl: inl },
            ) == str_scan(b, t, 1, esc_start()),
        decreases len - i,
    {
        let c = bytes[i];
        if esc == 1 && c == 0x0D {
            inl = true;
            esc = 0;
            i += 1;
            continue;
        }
        if esc == 1 && (c == 0x0A || line_sep(bytes, i) || simple_escape(c)) {
            esc = 0;
            i += 1;
            continue;
        }
        if esc == 1 && c != 0x78 && c != 0x75 {
            return None;
        }
        let ghost before = EscState { esc: esc as int, hex, uni, long, ignore_nl: inl };
        if esc == 1 && c == 0x78 {
            hex = true;
        }
        if esc == 1 && c == 0x75 {
            uni = true;
        }
        if hex && esc == 3 {
            esc = 0;
            hex = false;
        }
        let uni_entry = uni;
        if uni_entry {
            if esc == 2 && c == 0x7B {
                long = true;
            }
            if !long && esc == 5 {
                esc = 0;
                uni = false;
            }
            if long && c == 0x7D {
                esc = 0;
                uni = false;
                long = false;
            }
        }
        assert(esc_step(b, i as int, before) == EscState {
            esc: esc as int,
            hex,
            uni,
            long,
            ignore_nl: inl,
        });
        if esc != 0 {
            esc += 1;
            i += 1;
            continue;
        }
        if c == 0x5C {
            esc = 1;
        } else if c == t && (c == 0x22 || c == 0x27) {
            let value = substring(code, 1, i);
            return Some((Token::StringLiteral(StringLiteralToken { value }), i + 1));
        } else if c == 0x0A && inl {
        } else if c == 0x0D || c == 0x0A || line_sep(bytes, i) {
            return None;
        }
        i += 1;
    }
    let value = String::new();
    proof {
        assert(encode_utf8(value@) =~= Seq::<u8>::empty());
    }
    Some((Token::StringLiteral(StringLiteralToken { value }), 0))
}


fn digit(c: u8) -> (r: bool)
    ensures
        r == is_digit(c),
{
    0x30 <= c && c <= 0x39
}

/// The exponent part at the start of `e`, or `None` where its value overflows.
fn exponent(e: &[u8]) -> (r: Option<(i32, usize)>)
    ensures
        match r {
            Some((v, n)) => spec_parse_exponent(e@) == Some((v as int, n as int)) && n <= e@.len()
                && (n == 0 || e@[n - 1] < 0x80),
            None => spec_parse_exponent(e@) is None,
        },
{
    if e.len() >= 2 && (e[0] == 0x65 || e[0] == 0x45) {
        let off: usize = if e[1] == 0x2B || e[1] == 0x2D {
            2
        } else {
            1
        };
        let sign: i64 = if e[1] == 0x2D {
            -1
        } else {
            1
        };
        let mut value: i64 = 0;
        let mut i = off;
        while i < e.len() && digit(e[i])
            invariant
                off <= i <= e@.len(),
                off == (if e@[1] == 0x2B || e@[1] == 0x2D { 2int } else { 1int }),
                e@.len() >= 2,
                e@[0] == 0x65 || e@[0] == 0x45,
                digits_end(e@, i as int) == digits_end(e@, off as int),
                value == dec_value(e@, off as int, i as int),
                0 <= value <= i32::MAX,
                forall|k: int| off <= k < i ==> is_digit(#[trigger] e@[k]),
            decreases e@.len() - i,
        {
            let d = (e[i] - 0x30) as i64;
            let nv = value * 10 + d;
            if nv > i32::MAX as i64 {
                proof {
                    assert(nv == dec_value(e@, off as int, (i + 1) as int));
                    let p = |k: int| !is_digit(e@[k]);
                    lemma_scan_to(e@.len() as int, (i + 1) as int, p);
                    let end = digits_end(e@, off as int);
                    assert(end == scan_to(e@.len() as int, (i + 1) as int, p));
                    assert forall|k: int| off <= k < end implies is_digit(#[trigger] e@[k]) by {
                        if k > i {
                            assert(!p(k));
                        }
                    }
                    lemma_dec_value_mono(e@, off as int, (i + 1) as int, end);
                }
                return None;
            }
            value = nv;
            i += 1;
        }
        Some(((sign * value) as i32, i))
    } else {
        Some((0, 0))
    }
}

/// Reads an exponent part (`e`, an optional sign, and digits) at the start of
/// `bytes`: its value and length, or `(0, 0)` where there is none.
pub fn parse_exponent(bytes: &[u8]) -> (r: (i32, usize))
    requires
        spec_parse_exponent(bytes@) is Some,
    ensures
        spec_parse_exponent(bytes@) == Some((r.0 as int, r.1 as int)),
{
    match exponent(bytes) {
        Some(r) => r,
        None => (0, 0),
    }
}

/// A numeric literal `code[0..off]`, where `off` is cut right after an ASCII
/// byte, followed by an optional exponent part.
fn tok_with_exponent(code: &str, off: usize) -> (r: Option<(Token, usize)>)
    requires
        0 < off <= code.spec_bytes().len(),
        code.spec_bytes()[off - 1] < 0x80,
    ensures
        r matches Some((_, n)) ==> cut_ok(code.spec_bytes(), n as int),
        lexed(r, with_exponent(code.spec_bytes(), off as int)),
{
    let bytes = code.as_bytes();
    let ghost b = code.spec_bytes();
    let rest = vstd::slice::slice_subrange(bytes, off, bytes.len());
    match exponent(rest) {
        None => None,
        Some((_, num)) => {
            let end = off + num;
            proof {
                if num > 0 {
                    assert(b[end - 1] == rest@[num - 1]);
                }
            }
            let raw = substring(code, 0, end);
            Some((Token::NumericLiteral(NumericLiteralToken { raw }), end))
        },
    }
}

/// The end of the decimal digits from `i` on.
fn digits_from(bytes: &[u8], i: usize) -> (r: usize)
    requires
        i <= bytes@.len(),
    ensures
        r == digits_end(bytes@, i as int),
        i <= r <= bytes@.len(),
        r == bytes@.len() || !is_digit(bytes@[r as int]),
        forall|k: int| i <= k < r ==> is_digit(#[trigger] bytes@[k]),
{
    let mut j = i;
    while j < bytes.len() && digit(bytes[j])
        invariant
            i <= j <= bytes@.len(),
            digits_end(bytes@, j as int) == digits_end(bytes@, i as int),
            forall|k: int| i <= k < j ==> is_digit(#[trigger] bytes@[k]),
        decreases bytes@.len() - j,
    {
        j += 1;
    }
    j
}

fn tok_fractional(code: &str) -> (r: Option<(Token, usize)>)
    requires
        code.spec_bytes().len() > 1,
        code.spec_bytes()[0] == 0x2E,
        is_digit(code.spec_bytes()[1]),
    ensures
        r matches Some((_, n)) ==> cut_ok(code.spec_bytes(), n as int),
        lexed(r, lex_fractional(code.spec_bytes())),
{
    let off = digits_from(code.as_bytes(), 1);
    tok_with_exponent(code, off)
}

fn tok_num(code: &str) -> (r: Option<(Token, usize)>)
    requires
        code.spec_bytes().len() > 0,
        0x31 <= code.spec_bytes()[0] <= 0x39,
    ensures
        r matches Some((_, n)) ==> cut_ok(code.spec_bytes(), n as int),
        lexed(r, lex_num(code.spec_bytes())),
{
    let bytes = code.as_bytes();
    let off = digits_from(bytes, 0);
    let off1 = if off < bytes.len() && bytes[off] == 0x2E {
        digits_from(bytes, off + 1)
    } else {
        off
    };
    tok_with_exponent(code, off1)
}

fn tok_zero_num(code: &str) -> (r: Option<(Token, usize)>)
    requires
        code.spec_bytes().len() > 0,
        code.spec_bytes()[0] == 0x30,
    ensures
        r matches Some((_, n)) ==> cut_ok(code.spec_bytes(), n as int),
        lexed(r, lex_zero_num(code.spec_bytes())),
{
    let bytes = code.as_bytes();
    let ghost b = code.spec_bytes();
    let len = bytes.len();
    let c: u8 = if 2 < len {
        bytes[1]
    } else {
        0
    };
    if c == 0x78 || c == 0x58 {
        if bytes[2] < 0x30 || bytes[2] >= 0x80 {
            return None;
        }
        let mut i: usize = 3;
        while i < len && (digit(bytes[i]) || (0x61 <= bytes[i] && bytes[i] <= 0x66) || (0x41
            <= bytes[i] && bytes[i] <= 0x46))
            invariant
                bytes@ == b,
                b == code.spec_bytes(),
                len == b.len(),
                3 <= i <= len,
                b[2] < 0x80,
                hex_end(b, i as int) == hex_end(b, 3),
                i == 3 || is_hex_digit(b[i - 1]),
            decreases len - i,
        {
            i += 1;
        }
        let raw = substring(code, 0, i);
        Some((Token::NumericLiteral(NumericLiteralToken { raw }), i))
    } else if c == 0x6F || c == 0x4F {
        if bytes[2] < 0x30 || bytes[2] >= 0x80 {
            return None;
        }
        let mut i: usize = 3;
        while i < len && 0x30 <= bytes[i] && bytes[i] <= 0x37
            invariant
                bytes@ == b,
                b == code.spec_bytes(),
                len == b.len(),
                3 <= i <= len,
                b[2] < 0x80,
                octal_end(b, i as int) == octal_end(b, 3),
                i == 3 || is_octal_digit(b[i - 1]),
            decreases len - i,
        {
            i += 1;
        }
        if i < len && (bytes[i] == 0x38 || bytes[i] == 0x39) {
            return None;
        }
        let raw = substring(code, 0, i);
        Some((Token::NumericLiteral(NumericLiteralToken { raw }), i))
    } else if c == 0x62 || c == 0x42 {
        if bytes[2] < 0x30 || bytes[2] >= 0x80 {
            return None;
        }
        let mut i: usize = 3;
        while i < len && (bytes[i] == 0x30 || bytes[i] == 0x31)
            invariant
                bytes@ == b,
                b == code.spec_bytes(),
                len == b.len(),
                3 <= i <= len,
                b[2] < 0x80,
                binary_end(b, i as int) == binary_end(b, 3),
                i == 3 || is_binary_digit(b[i - 1]),
            decreases len - i,
        {
            i += 1;
        }
        if i < len && 0x32 <= bytes[i] && bytes[i] <= 0x39 {
            return None;
        }
        let raw = substring(code, 0, i);
        Some((Token::NumericLiteral(NumericLiteralToken { raw }), i))
    } else if c == 0x2E {
        let off = digits_from(bytes, 2);
        tok_with_exponent(code, off)
    } else {
        let raw = substring(code, 0, 1);
        Some((Token::NumericLiteral(NumericLiteralToken { raw }), 1))
    }
}


fn ok_punc(p: PunctuatorToken, n: usize) -> (r: Option<(Token, usize)>)
    ensures
        lexed(r, punc(p, n as int)),
{
    Some((Token::Punctuator(p), n))
}

/// Whether `bytes[i]` is `c`, looking past the end safely.
fn byte_is(bytes: &[u8], i: usize, c: u8) -> (r: bool)
    ensures
        r == at(bytes@, i as int, c),
{
    i < bytes.len() && bytes[i] == c
}

/// Reads the token at the start of `code`, or `None` where the tokenizer gives
/// up on it (see `lex`).
pub fn try_read_next(code: &str, hint: &Hint) -> (r: Option<(Token, usize)>)
    ensures
        r matches Some((_, n)) ==> cut_ok(code.spec_bytes(), n as int),
        lexed(r, lex(code.spec_bytes(), *hint)),
{
    let bytes = code.as_bytes();
    let ghost b = code.spec_bytes();
    let len = bytes.len();
    if len == 0 {
        return Some((Token::eof(), 0));
    }
    let c = bytes[0];
    if c == 0x7B { ok_punc(PunctuatorToken::CurlyOpen, 1) }
    else if c == 0x28 { ok_punc(PunctuatorToken::ParenOpen, 1) }
    else if c == 0x29 { ok_punc(PunctuatorToken::ParenClose, 1) }
    else if c == 0x5B { ok_punc(PunctuatorToken::SquareOpen, 1) }
    else if c == 0x5D { ok_punc(PunctuatorToken::SquareClose, 1) }
    else if c == 0x3B { ok_punc(PunctuatorToken::Semicolon, 1) }
    else if c == 0x2C { ok_punc(PunctuatorToken::Comma, 1) }
    else if c == 0x3F { ok_punc(PunctuatorToken::Question, 1) }
    else if c == 0x3A { ok_punc(PunctuatorToken::Colon, 1) }
    else if c == 0x7E { ok_punc(PunctuatorToken::Tilde, 1) }
    else if c == 0x2E {
        if byte_is(bytes, 1, 0x2E) && byte_is(bytes, 2, 0x2E) {
            ok_punc(PunctuatorToken::Ellipsis, 3)
        } else if len > 1 && digit(bytes[1]) {
            tok_fractional(code)
        } else {
            ok_punc(PunctuatorToken::Period, 1)
        }
    } else if c == 0x3C {
        if byte_is(bytes, 1, 0x3C) {
            if byte_is(bytes, 2, 0x3D) { ok_punc(PunctuatorToken::LAngleAngleEq, 3) }
            else { ok_punc(PunctuatorToken::LAngleAngle, 2) }
        } else if byte_is(bytes, 1, 0x3D) { ok_punc(PunctuatorToken::LAngleEq, 2) }
        else { ok_punc(PunctuatorToken::LAngle, 1) }
    } else if c == 0x3E {
        if byte_is(bytes, 1, 0x3E) {
            if byte_is(bytes, 2, 0x3E) {
                if byte_is(bytes, 3, 0x3D) { ok_punc(PunctuatorToken::RAngleAngleAngleEq, 4) }
                else { ok_punc(PunctuatorToken::RAngleAngleAngle, 3) }
            } else if byte_is(bytes, 2, 0x3D) { ok_punc(PunctuatorToken::RAngleAngleEq, 3) }
            else { ok_punc(PunctuatorToken::RAngleAngle, 2) }
        } else if byte_is(bytes, 1, 0x3D) { ok_punc(PunctuatorToken::RAngleEq, 2) }
        else { ok_punc(PunctuatorToken::RAngle, 1) }
    } else if c == 0x3D {
        if byte_is(bytes, 1, 0x3D) {
            if byte_is(bytes, 2, 0x3D) { ok_punc(PunctuatorToken::EqEqEq, 3) }
            else { ok_punc(PunctuatorToken::EqEq, 2) }
        } else if byte_is(bytes, 1, 0x3E) { ok_punc(PunctuatorToken::Arrow, 2) }
        else { ok_punc(PunctuatorToken::Eq, 1) }
    } else if c == 0x21 {
        if byte_is(bytes, 1, 0x3D) {
            if byte_is(bytes, 2, 0x3D) { ok_punc(PunctuatorToken::ExclamEqEq, 3) }
            else { ok_punc(PunctuatorToken::ExclamEq, 2) }
        } else { ok_punc(PunctuatorToken::Exclam, 1) }
    } else if c == 0x2B {
        if byte_is(bytes, 1, 0x2B) { ok_punc(PunctuatorToken::PlusPlus, 2) }
        else if byte_is(bytes, 1, 0x3D) { ok_punc(PunctuatorToken::PlusEq, 2) }
        else { ok_punc(PunctuatorToken::Plus, 1) }
    } else if c == 0x2D {
        if byte_is(bytes, 1, 0x2D) {
            if byte_is(bytes, 2, 0x3E) { ok_punc(PunctuatorToken::MinusMinusAngle, 3) }
            else { ok_punc(PunctuatorToken::MinusMinus, 2) }
        } else if byte_is(bytes, 1, 0x3D) { ok_punc(PunctuatorToken::MinusEq, 2) }
        else { ok_punc(PunctuatorToken::Minus, 1) }
    } else if c == 0x26 {
        if byte_is(bytes, 1, 0x26) { ok_punc(PunctuatorToken::AmpAmp, 2) }
        else if byte_is(bytes, 1, 0x3D) { ok_punc(PunctuatorToken::AmpEq, 2) }
        else { ok_punc(PunctuatorToken::Amp, 1) }
    } else if c == 0x7C {
        if byte_is(bytes, 1, 0x7C) { ok_punc(PunctuatorToken::BarBar, 2) }
        else if byte_is(bytes, 1, 0x3D) { ok_punc(PunctuatorToken::BarEq, 2) }
        else { ok_punc(PunctuatorToken::Bar, 1) }
    } else if c == 0x5E {
        if byte_is(bytes, 1, 0x3D) { ok_punc(PunctuatorToken::CaretEq, 2) }
        else { ok_punc(PunctuatorToken::Caret, 1) }
    } else if c == 0x25 {
        if byte_is(bytes, 1, 0x3D) { ok_punc(PunctuatorToken::PercentEq, 2) }
        else { ok_punc(PunctuatorToken::Percent, 1) }
    } else if c == 0x2A {
        if byte_is(bytes, 1, 0x2A) {
            if byte_is(bytes, 2, 0x3D) { ok_punc(PunctuatorToken::StarStarEq, 3) }
            else { ok_punc(PunctuatorToken::StarStar, 2) }
        } else if byte_is(bytes, 1, 0x3D) { ok_punc(PunctuatorToken::StarEq, 2) }
        else { ok_punc(PunctuatorToken::Star, 1) }
    } else if c == 0x2F {
        tok_slash(code, hint)
    } else if c == 0x7D {
        if hint.get_template() {
            tok_template(code, TemplateFormat::Middle, TemplateFormat::Tail)
        } else {
            ok_punc(PunctuatorToken::CurlyClose, 1)
        }
    } else if c == 0x27 || c == 0x22 {
        tok_str(code)
    } else if c == 0x30 {
        tok_zero_num(code)
    } else if 0x31 <= c && c <= 0x39 {
        tok_num(code)
    } else if c == 0x60 {
        tok_template(code, TemplateFormat::Head, TemplateFormat::NoSubstitution)
    } else if c == 0x09 || c == 0x0B || c == 0x0C || c == 0x20 {
        None
    } else if (c == 0xEF && len >= 3 && bytes[1] == 0xBB && bytes[2] == 0xBF) || (c == 0xC2 && len
        >= 2 && bytes[1] == 0xA0) {
        None
    } else if c == 0x0A || c == 0x0D {
        Some((Token::LineTerminator(LineTerminatorToken {}), 1))
    } else if line_sep(bytes, 0) {
        proof {
            lemma_line_sep_boundary(b);
        }
        Some((Token::LineTerminator(LineTerminatorToken {}), 3))
    } else {
        let (t, n) = tok_ident(code);
        Some((t, n))
    }
}

/// Reads the token at the start of `code` into `token` and returns its size in
/// bytes.
pub fn read_next(code: &str, hint: &Hint, token: &mut Token) -> (size: usize)
    requires
        lex(code.spec_bytes(), *hint) is Some,
    ensures
        lex(code.spec_bytes(), *hint) == Some((final(token)@, size as int)),
        cut_ok(code.spec_bytes(), size as int),
{
    match try_read_next(code, hint) {
        Some((t, n)) => {
            *token = t;
            n
        },
        None => 0,
    }
}


/// Skips the whitespace at `pos`, moving it to the first byte that is not.
fn eat_whitespace(code: &str, pos: &mut Position)
    requires
        cut_ok(code.spec_bytes(), old(pos).offset as int),
        old(pos).column + (code.spec_bytes().len() - old(pos).offset) <= usize::MAX,
    ensures
        final(pos).offset == ws_end(code.spec_bytes(), old(pos).offset as int),
        final(pos).column == old(pos).column + (final(pos).offset - old(pos).offset),
        final(pos).line == old(pos).line,
{
    let bytes = code.as_bytes();
    let ghost b = code.spec_bytes();
    let len = bytes.len();
    let mut index = pos.offset;
    while index < len && (bytes[index] == 0x09 || bytes[index] == 0x0B || bytes[index] == 0x0C
        || bytes[index] == 0x20 || (bytes[index] == 0xEF && len - index >= 3 && bytes[index + 1]
        == 0xBB && bytes[index + 2] == 0xBF) || (bytes[index] == 0xC2 && len - index >= 2
        && bytes[index + 1] == 0xA0))
        invariant
            bytes@ == b,
            len == b.len(),
            old(pos).offset <= index <= len,
            ws_end(b, index as int) == ws_end(b, old(pos).offset as int),
        decreases len - index,
    {
        index += 1;
    }
    pos.column = pos.column + (index - pos.offset);
    pos.offset = index;
}

/// Moves `pos` past the `size` bytes at the start of `code`, counting lines and
/// columns.
fn increment_position(code: &str, size: usize, pos: &mut Position)
    requires
        size <= code.spec_bytes().len(),
        old(pos).offset + size <= usize::MAX,
        old(pos).line + size <= usize::MAX,
        old(pos).column + size <= usize::MAX,
    ensures
        final(pos).offset == old(pos).offset + size,
        (final(pos).line as int, final(pos).column as int) == advance(
            code.spec_bytes().subrange(0, size as int),
            0,
            old(pos).line as int,
            old(pos).column as int,
            false,
        ),
{
    let bytes = code.as_bytes();
    let ghost b = code.spec_bytes().subrange(0, size as int);
    let ghost l0 = pos.line as int;
    let ghost c0 = pos.column as int;
    pos.offset = pos.offset + size;
    let mut line = pos.line;
    let mut column = pos.column;
    let mut saw_cr = false;
    let mut i: usize = 0;
    proof {
        lemma_advance_bounds(b, 0, l0, c0, false);
    }
    while i < size
        invariant
            size <= bytes@.len(),
            b == bytes@.subrange(0, size as int),
            0 <= i <= size,
            l0 + size <= usize::MAX,
            c0 + size <= usize::MAX,
            l0 <= line <= l0 + i,
            column <= c0 + i,
            advance(b, i as int, line as int, column as int, saw_cr) == advance(b, 0, l0, c0, false),
        decreases size - i,
    {
        let c = bytes[i];
        if c == 0x0D {
            line += 1;
            column = 0;
            saw_cr = true;
            i += 1;
        } else if c == 0x0A {
            if !saw_cr {
                line += 1;
                column = 0;
            }
            saw_cr = false;
            i += 1;
        } else if c == 0xE2 && size - i >= 3 && bytes[i + 1] == 0x80 && (bytes[i + 2] == 0xA8
            || bytes[i + 2] == 0xA9) {
            line += 1;
            column = 0;
            saw_cr = false;
            i += 3;
        } else if 0x80 <= c && c <= 0xBF {
            i += 1;
        } else {
            column += 1;
            saw_cr = false;
            i += 1;
        }
    }
    pos.line = line;
    pos.column = column;
}


/// A tokenizer over a string slice: the source and the position of the next
/// token.
#[derive(Debug)]
pub struct SliceTokenizer<'code> {
    code: &'code str,
    position: Position,
}

impl<'code> SliceTokenizer<'code> {
    /// The UTF-8 bytes of the source.
    pub closed spec fn source(&self) -> Seq<u8> {
        self.code.spec_bytes()
    }

    /// Where the next token is looked for.
    pub closed spec fn pos(&self) -> Position {
        self.position
    }

    /// The position lies in the source at a character boundary, and its line
    /// and column are no larger than its offset.
    pub closed spec fn wf(&self) -> bool {
        &&& cut_ok(self.code.spec_bytes(), self.position.offset as int)
        &&& self.position.line <= self.position.offset
        &&& self.position.column <= self.position.offset
    }

    /// Where the next token starts, after the whitespace.
    pub open spec fn next_start(&self) -> int {
        ws_end(self.source(), self.pos().offset as int)
    }

    /// The next token can be read under `hint`: the whitespace ends at a
    /// character boundary, and a token starts there.
    pub open spec fn ready(&self, hint: Hint) -> bool {
        &&& self.wf()
        &&& cut_ok(self.source(), self.next_start())
        &&& lex(self.source().subrange(self.next_start(), self.source().len() as int), hint) is Some
    }

    /// A well-formed position lies within the source, at a character boundary.
    pub proof fn lemma_wf(&self)
        requires
            self.wf(),
        ensures
            self.pos().offset <= self.source().len(),
            cut_ok(self.source(), self.pos().offset as int),
    {
    }

    /// The position of the next token's search.
    pub fn position(&self) -> (p: Position)
        ensures
            p == self.pos(),
    {
        self.position
    }

    /// Whether the next token can be read under `hint` (see `ready`).
    pub fn can_read_next(&self, hint: &Hint) -> (r: bool)
        requires
            self.wf(),
        ensures
            r == self.ready(*hint),
    {
        let bytes = self.code.as_bytes();
        let n = bytes.len();
        let mut p = self.position;
        eat_whitespace(self.code, &mut p);
        let w = p.offset;
        proof {
            let b = self.source();
            lemma_scan_to(
                b.len() as int,
                self.position.offset as int,
                |k: int| !(is_ws_byte(b[k]) || zwnbsp_at(b, k) || nbsp_at(b, k)),
            );
        }
        if !(w == 0 || w == bytes.len() || bytes[w] < 0x80 || bytes[w] >= 0xC0 || bytes[w - 1]
            < 0x80) {
            return false;
        }
        proof {
            lemma_cut_is_boundary(self.source(), w as int);
        }
        let (_, s) = self.code.split_at(w);
        proof {
            assert(s.spec_bytes() =~= self.source().subrange(w as int, self.source().len() as int));
        }
        try_read_next(s, hint).is_some()
    }
}

impl<'code> Tokenizer for SliceTokenizer<'code> {
    open spec fn can_read(&self, hint: Hint) -> bool {
        self.ready(hint)
    }

    /// Skips whitespace, reads the next token into `token`, and records where
    /// it starts and ends in `range`.
    fn next_token(&mut self, hint: &Hint, token: &mut Token, range: &mut TokenRange)
        ensures
            final(self).wf(),
            final(self).source() == old(self).source(),
            lex(
                old(self).source().subrange(old(self).next_start(), old(self).source().len() as int),
                *hint,
            ) == Some((final(token)@, final(self).pos().offset - old(self).next_start())),
            final(range).start.offset == old(self).next_start(),
            final(range).start.line == old(self).pos().line,
            final(range).start.column == old(self).pos().column + (old(self).next_start() - old(
                self,
            ).pos().offset),
            final(range).end == final(self).pos(),
            (final(self).pos().line as int, final(self).pos().column as int) == advance(
                old(self).source().subrange(old(self).next_start(), final(self).pos().offset as int),
                0,
                final(range).start.line as int,
                final(range).start.column as int,
                false,
            ),
    {
        let ghost b = self.code.spec_bytes();
        let bytes = self.code.as_bytes();
        let n = bytes.len();
        proof {
            lemma_scan_to(
                b.len() as int,
                self.position.offset as int,
                |k: int| !(is_ws_byte(b[k]) || zwnbsp_at(b, k) || nbsp_at(b, k)),
            );
        }
        eat_whitespace(self.code, &mut self.position);
        proof {
            lemma_cut_is_boundary(b, self.position.offset as int);
        }
        let (_, s) = self.code.split_at(self.position.offset);
        let ghost w = self.position.offset as int;
        proof {
            assert(s.spec_bytes() =~= b.subrange(w, b.len() as int));
        }
        let size = read_next(s, hint, token);
        let start = self.position;
        increment_position(s, size, &mut self.position);
        proof {
            let sb = s.spec_bytes();
            lemma_advance_bounds(sb.subrange(0, size as int), 0, start.line as int, start.column as int, false);
            assert(sb.subrange(0, size as int) =~= b.subrange(w, w + size));
            if size > 0 && w + size < b.len() {
                assert(b[w + size] == sb[size as int]);
                assert(b[w + size - 1] == sb[size - 1]);
            }
        }
        *range = TokenRange { start, end: self.position };
    }
}

impl<'code> IntoTokenizer for &'code str {
    type Item = SliceTokenizer<'code>;

    fn into_tokenizer(self) -> (t: SliceTokenizer<'code>)
        ensures
            t.wf(),
            t.source() == self.spec_bytes(),
            t.pos() == (Position { offset: 0, line: 0, column: 0 }),
    {
        SliceTokenizer { code: self, position: Position::default() }
    }
}

} // verus!
