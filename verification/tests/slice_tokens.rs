use jsparse::tokenizer::slice::read_next;
use jsparse::tokenizer::tokens::{
    CommentFormat, CommentToken, IdentifierNameToken, LineTerminatorToken, NumericLiteralToken,
    PunctuatorToken, RegularExpressionLiteralToken, StringLiteralToken, TemplateFormat,
    TemplateToken, Token,
};
use jsparse::tokenizer::Hint;

fn read_token(s: &str, h: &Hint) -> (Token, usize) {
    let mut t = Token::eof();
    let bs = read_next(s, h, &mut t);
    (t, bs)
}

fn comment(format: CommentFormat, value: &str) -> Token {
    Token::Comment(CommentToken { format, value: value.to_string() })
}

#[test]
fn it_parses_line_comments() {
    for code in [
        "// this is some",
        "// this is some\rmore",
        "// this is some\nmore",
        "// this is some\u{2028}more",
        "// this is some\u{2029}more",
    ] {
        assert_eq!(
            read_token(code, &Hint::default()),
            (comment(CommentFormat::Line, " this is some"), 15),
        );
    }
}

#[test]
fn it_parses_block_comments() {
    assert_eq!(
        read_token("/* this *is some */", &Hint::default()),
        (comment(CommentFormat::Block, " this *is some "), 19),
    );
    assert_eq!(
        read_token("/* this *\nis some */", &Hint::default()),
        (comment(CommentFormat::Block, " this *\nis some "), 20),
    );
    assert_eq!(
        read_token("/* this *\r\nis some */", &Hint::default()),
        (comment(CommentFormat::Block, " this *\r\nis some "), 21),
    );
    assert_eq!(
        read_token("/* this *\u{2028}is some */", &Hint::default()),
        (comment(CommentFormat::Block, " this *\u{2028}is some "), 22),
    );
    assert_eq!(
        read_token("/* this *\u{2029}is some */", &Hint::default()),
        (comment(CommentFormat::Block, " this *\u{2029}is some "), 22),
    );
}

#[test]
fn it_parses_line_terminators() {
    fn assert_line_terminator(code: &str) {
        let s: String = vec![code, " "].into_iter().collect();
        assert_eq!(
            read_token(&s, &Hint::default()),
            (Token::LineTerminator(LineTerminatorToken {}), code.len()),
        );
    }

    assert_line_terminator("\u{000A}");
    assert_line_terminator("\u{000D}");
    assert_line_terminator("\u{2028}");
    assert_line_terminator("\u{2029}");
}

#[test]
fn it_parses_strings() {
    fn assert_string(code: &str, value: &str) {
        let s: String = vec![code, " "].into_iter().collect();
        assert_eq!(
            read_token(&s, &Hint::default()),
            (Token::StringLiteral(StringLiteralToken { value: value.to_string() }), code.len()),
        );
    }

    assert_string("'a real string'", "a real string");
    assert_string("'a real\"string'", "a real\"string");
    assert_string("\"a real string\"", "a real string");
    assert_string("\"a real'string\"", "a real'string");
}

#[test]
fn it_parses_templates() {
    fn assert_template(code: &str, value: &str, raw_value: &str, format: TemplateFormat) {
        let s: String = vec![code, " "].into_iter().collect();
        assert_eq!(
            read_token(&s, &Hint::default().template(true)),
            (
                Token::Template(TemplateToken {
                    format,
                    cooked: value.to_string(),
                    raw: raw_value.to_string(),
                }),
                code.len(),
            ),
        );
    }

    assert_template("`foo`", "foo", "foo", TemplateFormat::NoSubstitution);
    assert_template("`foo${", "foo", "foo", TemplateFormat::Head);
    assert_template("}foo${", "foo", "foo", TemplateFormat::Middle);
    assert_template("}foo`", "foo", "foo", TemplateFormat::Tail);
}

#[test]
fn it_parses_numbers() {
    fn assert_number(code: &str) {
        let s: String = vec![code, " "].into_iter().collect();
        assert_eq!(
            read_token(&s, &Hint::default()),
            (Token::NumericLiteral(NumericLiteralToken { raw: code.to_string() }), code.len()),
        );
    }

    for code in [
        "0x4", "0x40", "0o4", "0o40", "0b0101", "0b1100000", "1", "145", "14.5", "14.5e2",
        "14.5e-2", "14.5e+2", "14e2", "14e-2", "14e+2", ".14", ".14e2", ".14e-2", ".14e+2",
    ] {
        assert_number(code);
    }
}

#[test]
fn it_parses_regexes() {
    fn assert_regex(code: &str, pattern: &str, flags: &str) {
        let s: String = vec![code, " "].into_iter().collect();
        assert_eq!(
            read_token(&s, &Hint::default().expression(true)),
            (
                Token::RegularExpressionLiteral(RegularExpressionLiteralToken {
                    pattern: pattern.to_string(),
                    flags: flags.to_string(),
                }),
                code.len(),
            ),
        );
    }

    assert_regex("/omg/", "omg", "");
    assert_regex("/omg/g", "omg", "g");
    assert_regex("/omg/u", "omg", "u");
    assert_regex("/om[/]g/", "om[/]g", "");
    assert_regex("/om[/]g/u", "om[/]g", "u");
}

#[test]
fn it_parses_identifiers() {
    let s: String = vec!["omg", " "].into_iter().collect();
    assert_eq!(
        read_token(&s, &Hint::default()),
        (Token::IdentifierName(IdentifierNameToken { name: "omg".to_string() }), 3),
    );
}

#[test]
fn it_parses_punctuators() {
    fn assert_punc(code: &str, punc: PunctuatorToken) {
        let s: String = vec![code, " "].into_iter().collect();
        assert_eq!(read_token(&s, &Hint::default()), (Token::Punctuator(punc), code.len()));
    }

    let cases = [
        ("{", PunctuatorToken::CurlyOpen), ("}", PunctuatorToken::CurlyClose), ("(", PunctuatorToken::ParenOpen), (")", PunctuatorToken::ParenClose),
        ("[", PunctuatorToken::SquareOpen), ("]", PunctuatorToken::SquareClose), (".", PunctuatorToken::Period), ("...", PunctuatorToken::Ellipsis),
        (";", PunctuatorToken::Semicolon), (",", PunctuatorToken::Comma), ("?", PunctuatorToken::Question), (":", PunctuatorToken::Colon), ("~", PunctuatorToken::Tilde),
        ("<", PunctuatorToken::LAngle), ("<=", PunctuatorToken::LAngleEq), ("<<", PunctuatorToken::LAngleAngle), ("<<=", PunctuatorToken::LAngleAngleEq),
        (">", PunctuatorToken::RAngle), (">=", PunctuatorToken::RAngleEq), (">>", PunctuatorToken::RAngleAngle), (">>=", PunctuatorToken::RAngleAngleEq),
        (">>>", PunctuatorToken::RAngleAngleAngle), (">>>=", PunctuatorToken::RAngleAngleAngleEq), ("=", PunctuatorToken::Eq), ("=>", PunctuatorToken::Arrow),
        ("==", PunctuatorToken::EqEq), ("===", PunctuatorToken::EqEqEq), ("!", PunctuatorToken::Exclam), ("!=", PunctuatorToken::ExclamEq), ("!==", PunctuatorToken::ExclamEqEq),
        ("+", PunctuatorToken::Plus), ("+=", PunctuatorToken::PlusEq), ("++", PunctuatorToken::PlusPlus), ("-", PunctuatorToken::Minus), ("-=", PunctuatorToken::MinusEq),
        ("--", PunctuatorToken::MinusMinus), ("/", PunctuatorToken::Slash), ("/=", PunctuatorToken::SlashEq), ("%", PunctuatorToken::Percent), ("%=", PunctuatorToken::PercentEq),
        ("*", PunctuatorToken::Star), ("*=", PunctuatorToken::StarEq), ("**", PunctuatorToken::StarStar), ("**=", PunctuatorToken::StarStarEq), ("&", PunctuatorToken::Amp),
        ("&=", PunctuatorToken::AmpEq), ("&&", PunctuatorToken::AmpAmp), ("|", PunctuatorToken::Bar), ("|=", PunctuatorToken::BarEq), ("||", PunctuatorToken::BarBar),
        ("^", PunctuatorToken::Caret), ("^=", PunctuatorToken::CaretEq),
    ];
    for (code, punc) in cases {
        assert_punc(code, punc);
    }
}
