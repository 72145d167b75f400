//! Byte-level definitions that the tokenizer's contracts are stated over.
use vstd::prelude::*;
use vstd::utf8::*;

verus! {

/// The first index `k` in `[i, n)` with `p(k)`, or `n` when there is none.
pub open spec fn scan_to(n: int, i: int, p: spec_fn(int) -> bool) -> int
    decreases n - i,
{
    if i >= n {
        n
    } else if p(i) {
        i
    } else {
        scan_to(n, i + 1, p)
    }
}

pub proof fn lemma_scan_to(n: int, i: int, p: spec_fn(int) -> bool)
    requires
        i <= n,
    ensures
        i <= scan_to(n, i, p) <= n,
        scan_to(n, i, p) < n ==> p(scan_to(n, i, p)),
        forall|k: int| i <= k < scan_to(n, i, p) ==> !#[trigger] p(k),
    decreases n - i,
{
    if i < n && !p(i) {
        lemma_scan_to(n, i + 1, p);
    }
}

pub open spec fn is_digit(c: u8) -> bool {
    0x30 <= c <= 0x39
}

pub open spec fn is_hex_digit(c: u8) -> bool {
    is_digit(c) || (0x61 <= c <= 0x66) || (0x41 <= c <= 0x46)
}

pub open spec fn is_octal_digit(c: u8) -> bool {
    0x30 <= c <= 0x37
}

pub open spec fn is_binary_digit(c: u8) -> bool {
    c == 0x30 || c == 0x31
}

pub open spec fn is_lower_ascii(c: u8) -> bool {
    0x61 <= c <= 0x7a
}

/// The bytes that the tokenizer accepts inside an identifier name.
pub open spec fn is_ident_byte(c: u8) -> bool {
    (0x61 <= c <= 0x7a) || (0x41 <= c <= 0x5a) || is_digit(c) || c == 0x24 || c == 0x5f
}

/// U+2028 LINE SEPARATOR or U+2029 PARAGRAPH SEPARATOR starts at `i`.
pub open spec fn line_sep_at(b: Seq<u8>, i: int) -> bool {
    0 <= i && i + 3 <= b.len() && b[i] == 0xE2 && b[i + 1] == 0x80 && (b[i + 2] == 0xA8 || b[i
        + 2] == 0xA9)
}

/// A line terminator (CR, LF, LS or PS) starts at `i`.
pub open spec fn line_end_at(b: Seq<u8>, i: int) -> bool {
    0 <= i < b.len() && (b[i] == 0x0D || b[i] == 0x0A || line_sep_at(b, i))
}

/// U+00A0 NO-BREAK SPACE starts at `i`.
pub open spec fn nbsp_at(b: Seq<u8>, i: int) -> bool {
    0 <= i && i + 2 <= b.len() && b[i] == 0xC2 && b[i + 1] == 0xA0
}

/// U+FEFF ZERO WIDTH NO-BREAK SPACE starts at `i`.
pub open spec fn zwnbsp_at(b: Seq<u8>, i: int) -> bool {
    0 <= i && i + 3 <= b.len() && b[i] == 0xEF && b[i + 1] == 0xBB && b[i + 2] == 0xBF
}

/// The end of the run of bytes satisfying `p` that starts at `i`.
pub open spec fn run_end(b: Seq<u8>, i: int, p: spec_fn(u8) -> bool) -> int {
    scan_to(b.len() as int, i, |k: int| !p(b[k]))
}

/// The value of the decimal digits `b[from..to]`.
pub open spec fn dec_value(b: Seq<u8>, from: int, to: int) -> int
    decreases to - from,
{
    if to <= from {
        0
    } else {
        dec_value(b, from, to - 1) * 10 + (b[to - 1] - 0x30)
    }
}

pub proof fn lemma_dec_value_mono(b: Seq<u8>, from: int, k: int, to: int)
    requires
        from <= k <= to <= b.len(),
        forall|j: int| from <= j < to ==> is_digit(#[trigger] b[j]),
    ensures
        0 <= dec_value(b, from, k) <= dec_value(b, from, to),
    decreases to - from,
{
    if k < to {
        lemma_dec_value_mono(b, from, k, to - 1);
        lemma_dec_value_nonneg(b, from, to - 1);
    } else {
        lemma_dec_value_nonneg(b, from, k);
    }
}

pub proof fn lemma_dec_value_nonneg(b: Seq<u8>, from: int, to: int)
    requires
        from <= to <= b.len(),
        forall|j: int| from <= j < to ==> is_digit(#[trigger] b[j]),
    ensures
        0 <= dec_value(b, from, to),
    decreases to - from,
{
    if from < to {
        lemma_dec_value_nonneg(b, from, to - 1);
    }
}

/// A cut at `i` falls on a character boundary of UTF-8 bytes: at either end,
/// at a byte that is not a continuation byte, or right after an ASCII byte.
pub open spec fn cut_ok(b: Seq<u8>, i: int) -> bool {
    0 <= i <= b.len() && (i == 0 || i == b.len() || b[i] < 0x80 || b[i] >= 0xC0 || b[i - 1]
        < 0x80)
}

/// In UTF-8, the byte after an ASCII byte starts a character.
pub proof fn lemma_after_ascii(b: Seq<u8>, i: int)
    requires
        valid_utf8(b),
        0 < i < b.len(),
        b[i - 1] < 0x80,
    ensures
        !is_continuation_byte(b[i]),
    decreases b.len(),
{
    let l = length_of_first_scalar(b);
    let p = pop_first_scalar(b);
    assert(valid_first_scalar(b) && valid_utf8(p));
    assert(p.len() == b.len() - l);
    if i - 1 < l {
        if l == 1 {
            assert(p.len() > 0);
            assert(valid_first_scalar(p));
            assert(p[0] == b[1]);
        }
    } else {
        assert(p[i - l] == b[i]);
        assert(p[i - l - 1] == b[i - 1]);
        lemma_after_ascii(p, i - l);
    }
}

pub proof fn lemma_cut_is_boundary(b: Seq<u8>, i: int)
    requires
        valid_utf8(b),
        cut_ok(b, i),
    ensures
        is_char_boundary(b, i),
{
    if i == 0 {
    } else if i == b.len() {
        is_char_boundary_start_end_of_seq(b);
    } else {
        if !(b[i] < 0x80 || b[i] >= 0xC0) {
            lemma_after_ascii(b, i);
        }
        is_char_boundary_iff_not_is_continuation_byte(b, i);
    }
}

/// The whitespace bytes that the tokenizer skips between tokens.
pub open spec fn is_ws_byte(c: u8) -> bool {
    c == 0x09 || c == 0x0B || c == 0x0C || c == 0x20
}

/// Where skipping whitespace from `i` stops. A multi-byte space (NBSP or
/// ZWNBSP) advances the scan by its first byte only, after which the scan stops
/// at the byte that follows.
pub open spec fn ws_end(b: Seq<u8>, i: int) -> int {
    scan_to(b.len() as int, i, |k: int| !(is_ws_byte(b[k]) || zwnbsp_at(b, k) || nbsp_at(b, k)))
}

/// The line and column reached after the bytes `b[i..]`, from `line` and
/// `column`, where `saw_cr` tells whether the previous character was CR. A
/// character counts at its first byte (continuation bytes are skipped); CR,
/// LF, LS and PS start a new line, and LF right after CR belongs to the CR.
pub open spec fn advance(b: Seq<u8>, i: int, line: int, column: int, saw_cr: bool) -> (int, int)
    decreases b.len() - i,
{
    if i >= b.len() || i < 0 {
        (line, column)
    } else if b[i] == 0x0D {
        advance(b, i + 1, line + 1, 0, true)
    } else if b[i] == 0x0A {
        if !saw_cr {
            advance(b, i + 1, line + 1, 0, false)
        } else {
            advance(b, i + 1, line, column, false)
        }
    } else if line_sep_at(b, i) {
        advance(b, i + 3, line + 1, 0, false)
    } else if is_continuation_byte(b[i]) {
        advance(b, i + 1, line, column, saw_cr)
    } else {
        advance(b, i + 1, line, column + 1, false)
    }
}

pub proof fn lemma_advance_bounds(b: Seq<u8>, i: int, line: int, column: int, saw_cr: bool)
    requires
        0 <= i <= b.len(),
        line >= 0,
        column >= 0,
    ensures
        line <= advance(b, i, line, column, saw_cr).0 <= line + (b.len() - i),
        0 <= advance(b, i, line, column, saw_cr).1 <= column + (b.len() - i),
    decreases b.len() - i,
{
    if i < b.len() {
        if b[i] == 0x0D {
            lemma_advance_bounds(b, i + 1, line + 1, 0, true);
        } else if b[i] == 0x0A {
            if !saw_cr {
                lemma_advance_bounds(b, i + 1, line + 1, 0, false);
            } else {
                lemma_advance_bounds(b, i + 1, line, column, false);
            }
        } else if line_sep_at(b, i) {
            lemma_advance_bounds(b, i + 3, line + 1, 0, false);
        } else if is_continuation_byte(b[i]) {
            lemma_advance_bounds(b, i + 1, line, column, saw_cr);
        } else {
            lemma_advance_bounds(b, i + 1, line, column + 1, false);
        }
    }
}

/// A line separator is one whole character: the cut after it is a boundary.
pub proof fn lemma_line_sep_boundary(b: Seq<u8>)
    requires
        valid_utf8(b),
        line_sep_at(b, 0),
    ensures
        cut_ok(b, 3),
{
    let p = pop_first_scalar(b);
    assert(valid_first_scalar(b) && valid_utf8(p));
    assert(length_of_first_scalar(b) == 3);
    if b.len() > 3 {
        assert(p.len() > 0);
        assert(valid_first_scalar(p));
        assert(p[0] == b[3]);
    }
}

} // verus!
