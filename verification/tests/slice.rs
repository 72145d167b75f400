use jsparse::tokenizer::slice::{read_next, try_read_next, SliceTokenizer};
use jsparse::tokenizer::tokens::{IdentifierNameToken, NumericLiteralToken, PunctuatorToken, StringLiteralToken, Token};
use jsparse::tokenizer::{Hint, IntoTokenizer, TokenRange, Tokenizer};

fn ident(s: &str) -> Token {
    Token::IdentifierName(IdentifierNameToken { name: s.to_string() })
}

#[test]
fn reads_single_tokens() {
    let hint = Hint::default();
    assert_eq!(try_read_next("this;", &hint), Some((ident("this"), 4)));
    assert_eq!(try_read_next(";", &hint), Some((Token::Punctuator(PunctuatorToken::Semicolon), 1)));
    assert_eq!(try_read_next(">>>=1", &hint), Some((Token::Punctuator(PunctuatorToken::RAngleAngleAngleEq), 4)));
    assert_eq!(
        try_read_next("0x1f ", &hint),
        Some((Token::NumericLiteral(NumericLiteralToken { raw: "0x1f".to_string() }), 4))
    );
    assert_eq!(
        try_read_next("'a\\nb'", &hint),
        Some((Token::StringLiteral(StringLiteralToken { value: "a\\nb".to_string() }), 6))
    );
}

#[test]
fn read_next_fills_the_token() {
    let mut t = Token::eof();
    let n = read_next("foo bar", &Hint::default(), &mut t);
    assert_eq!(n, 3);
    assert_eq!(t, ident("foo"));
}

#[test]
fn slice_tokenizer_walks_the_source() {
    let mut tok: SliceTokenizer = "this ;".into_tokenizer();
    let hint = Hint::default();
    let mut t = Token::eof();
    let mut r = TokenRange::default();
    assert!(tok.can_read_next(&hint));
    tok.next_token(&hint, &mut t, &mut r);
    assert_eq!(t, ident("this"));
    assert!(tok.can_read_next(&hint));
    tok.next_token(&hint, &mut t, &mut r);
    assert_eq!(t, Token::Punctuator(PunctuatorToken::Semicolon));
    assert_eq!(r.start.offset, 5);
    assert_eq!(r.end.offset, 6);
}

#[test]
fn tokens_take_input_but_for_two_cases() {
    let hint = Hint::default();
    assert_eq!(try_read_next("a", &hint), Some((ident("a"), 1)));
    assert_eq!(try_read_next("''", &hint).map(|(_, n)| n), Some(2));
    assert_eq!(try_read_next("\u{e9}", &hint), Some((ident(""), 0)));
    assert_eq!(try_read_next("'abc", &hint).map(|(_, n)| n), Some(0));
}
