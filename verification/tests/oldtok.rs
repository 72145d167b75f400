use jsparse::oldtok::peek4::CharReader;
use jsparse::oldtok::tokenizer::{NumberType, Token, Tokenizer};

fn tokens(src: &str) -> Vec<Token> {
    let mut t = Tokenizer::new(src.chars().collect());
    let mut out = Vec::new();
    while let Some(tok) = t.next() {
        out.push(tok);
    }
    out
}

#[test]
fn char_reader_shows_four() {
    let mut r = CharReader::new("abcde".chars().collect());
    assert_eq!(r.entry(), (Some('a'), Some('b'), Some('c'), Some('d')));
    assert_eq!(r.entry(), (Some('b'), Some('c'), Some('d'), Some('e')));
    assert_eq!(r.next(), Some('c'));
    assert_eq!(r.entry(), (Some('d'), Some('e'), None, None));
    assert_eq!(r.next(), Some('e'));
    assert_eq!(r.next(), None);
    assert_eq!(r.entry(), (None, None, None, None));
}

#[test]
fn oldtok_reads_punctuators_and_names() {
    assert_eq!(tokens("(a)"), vec![Token::LParen, Token::IdentifierName, Token::RParen]);
    assert_eq!(tokens(">>>= "), vec![Token::RAngleAngleAngleEq, Token::Whitespace]);
    assert_eq!(tokens("a<=b"), vec![Token::IdentifierName, Token::LessEq, Token::IdentifierName]);
    assert_eq!(tokens("..."), vec![Token::Ellipsis]);
}

#[test]
fn oldtok_reads_numbers() {
    assert_eq!(tokens("0x1F;"), vec![Token::NumericLiteral(NumberType::Hex), Token::Semicolon]);
    assert_eq!(tokens("0o17"), vec![Token::NumericLiteral(NumberType::Octal)]);
    assert_eq!(tokens("0b10"), vec![Token::NumericLiteral(NumberType::Binary)]);
    assert_eq!(tokens("0"), vec![Token::NumericLiteral(NumberType::Float)]);
    assert_eq!(tokens("12"), vec![Token::NumericLiteral(NumberType::Float)]);
    assert_eq!(tokens("145;"), vec![Token::NumericLiteral(NumberType::Float), Token::Semicolon]);
    assert_eq!(tokens("7;"), vec![Token::NumericLiteral(NumberType::Float), Token::Semicolon]);
    assert_eq!(tokens("0.25"), vec![Token::NumericLiteral(NumberType::Float)]);
}

#[test]
fn oldtok_reads_updates_as_two_characters() {
    assert_eq!(tokens("++a"), vec![Token::PlusPlus, Token::IdentifierName]);
    assert_eq!(tokens("--a"), vec![Token::MinusMinus, Token::IdentifierName]);
    assert_eq!(tokens("a++;"), vec![Token::IdentifierName, Token::PlusPlus, Token::Semicolon]);
}

#[test]
fn oldtok_reads_strings_and_comments() {
    assert_eq!(tokens("'str';"), vec![Token::StringLiteral, Token::Semicolon]);
    assert_eq!(tokens("// hi\n;"), vec![Token::Comment, Token::Semicolon]);
    assert_eq!(tokens("/* a */;"), vec![Token::Comment, Token::Semicolon]);
    assert_eq!(tokens("'open"), vec![Token::Unknown]);
}

#[test]
fn oldtok_with_strict_restores() {
    let mut t = Tokenizer::new("x".chars().collect());
    assert!(!t.strict);
    let inside = t.with_strict(|t: &mut Tokenizer| t.strict);
    assert!(inside);
    assert!(!t.strict);
}

#[test]
fn oldtok_reads_fractions_and_exponents() {
    let f = Token::NumericLiteral(NumberType::Float);
    assert_eq!(tokens("1.5"), vec![f]);
    assert_eq!(tokens("12.;"), vec![f, Token::Semicolon]);
    assert_eq!(tokens("1e5"), vec![f]);
    assert_eq!(tokens("2.5e-3;"), vec![f, Token::Semicolon]);
    assert_eq!(tokens("0e+7"), vec![f]);
    assert_eq!(tokens(".5E2"), vec![f]);
    assert_eq!(tokens("3e"), vec![f, Token::IdentifierName]);
    assert_eq!(tokens("3e+"), vec![f, Token::IdentifierName, Token::Plus]);
}
