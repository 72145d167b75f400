use jsparse::parser::tokens::ParseError;
use jsparse::parser::{is_binding_identifier, parse_root, FromTokenizer, GrammarFlags, Parser, Test};
use jsparse::parser::tokens::read_token;
use jsparse::tokenizer::tokens::{IdentifierNameToken, PunctuatorToken, StringLiteralToken, Token};
use jsparse::tokenizer::{Hint, IntoTokenizer};

fn module(code: &str) -> Result<(), ParseError> {
    let mut p = Parser::new(code.into_tokenizer());
    p.parse_module()
}

fn script(code: &str) -> Result<(), ParseError> {
    let mut p = Parser::new(code.into_tokenizer());
    p.parse_script()
}

#[test]
fn it_parses() {
    Test::from_tokenizer("this;".into_tokenizer()).unwrap();
}

#[test]
fn it_parses_imports() {
    module(
        "
                import \"foo\";
                import foo from \"foo\";
                import * as ns from \"foo\";
                import { named, named as other } from \"foo\";
                import { named, named as other, } from \"foo\";
                import foo, * as ns from \"foo\";
                import foo, { named, named as other } from \"foo\";
                import foo, { named, named as other, } from \"foo\";
            ",
    )
    .unwrap();
}

#[test]
fn it_parses_exports() {
    module(
        "
                export * from \"foo\";
                export { foo, foo as other } from \"foo\";
                export { foo, foo as other, } from \"foo\";
                export { foo, foo as other };
                export { foo, foo as other, };
                export default this;
            ",
    )
    .unwrap();
}

#[test]
fn parse_root_reads_statements() {
    assert_eq!(parse_root::<()>("var a = 1, b;"), Ok(()));
    assert_eq!(parse_root::<()>("if (a) b; else { c(1, 2); }"), Ok(()));
    assert_eq!(parse_root::<()>("a\nb"), Ok(()));
    assert_eq!(parse_root::<()>("let x = [1, , 2], y = { a: 1, 'b': c };"), Ok(()));
    assert_eq!(parse_root::<()>("try { throw a; } catch (e) { } finally { debugger; }"), Ok(()));
    assert_eq!(parse_root::<()>("do a++; while (b < 3)"), Ok(()));
    assert_eq!(parse_root::<Test>("x = y ? 1 : 2;"), Ok(Test {}));
}

#[test]
fn parse_root_refuses_broken_input() {
    assert_eq!(parse_root::<()>("var ;"), Err(ParseError {}));
    assert_eq!(parse_root::<()>("a b"), Err(ParseError {}));
    assert_eq!(parse_root::<()>("if (a b;"), Err(ParseError {}));
    assert_eq!(parse_root::<()>("{"), Err(ParseError {}));
    assert_eq!(parse_root::<Test>("import from;"), Err(ParseError {}));
}

#[test]
fn scripts_do_not_read_imports() {
    assert_eq!(script("a; b;"), Ok(()));
    assert!(script("import \"foo\";").is_err());
    assert_eq!(module("import \"foo\";"), Ok(()));
}

#[test]
fn parses_functions_and_classes() {
    assert_eq!(module("function f(a, b = 1, {c}, [d], ...e) { return a; }"), Ok(()));
    assert_eq!(module("async function g() { }"), Ok(()));
    assert_eq!(module("function* h() { yield 1; }"), Ok(()));
    assert_eq!(
        module("class A extends B { constructor(x) { super(x); } get y() { return 1; } set y(v) {} static z() {} *gen() {} async w() {} ; }"),
        Ok(())
    );
    assert_eq!(module("export default function () {}"), Ok(()));
    assert_eq!(module("export default class {}"), Ok(()));
    assert_eq!(module("class {}"), Err(ParseError {}));
    assert_eq!(module("function () {}"), Err(ParseError {}));
}

#[test]
fn parses_expressions() {
    assert_eq!(module("f = (a, b) => a + b;"), Ok(()));
    assert_eq!(module("g = async x => { x; };"), Ok(()));
    assert_eq!(module("h = x => x;"), Ok(()));
    assert_eq!(module("t = `a${b}c${d}e`;"), Ok(()));
    assert_eq!(module("x = new Foo(1).bar[0];"), Ok(()));
    assert_eq!(module("o = { a, b: 1, c() {}, get d() { return 1; }, ...e, [f]: 2 };"), Ok(()));
    assert_eq!(module("a = [1, , ...b];"), Ok(()));
    assert_eq!(module("x = await y;"), Err(ParseError {}));
    assert_eq!(module("x = ++-y;"), Err(ParseError {}));
}

#[test]
fn parses_statements() {
    assert_eq!(module("for (var i = 0; i < 3; i++) ;"), Ok(()));
    assert_eq!(module("for (x in y) ;"), Ok(()));
    assert_eq!(module("for (let [a, b] of c) ;"), Ok(()));
    assert_eq!(module("for (const k of m) ;"), Ok(()));
    assert_eq!(module("for (;;) ;"), Ok(()));
    assert_eq!(module("switch (a) { case 1: b; break; default: c; }"), Ok(()));
    assert_eq!(module("outer: while (a) { continue outer; }"), Ok(()));
    assert_eq!(module("with (a) b;"), Ok(()));
    assert_eq!(module("const {a, b: [c]} = d;"), Ok(()));
    assert_eq!(module("try { } catch ({ message }) { }"), Ok(()));
    assert_eq!(module("switch (a) { case 1 }"), Err(ParseError {}));
    assert_eq!(module("const a;"), Err(ParseError {}));
    assert_eq!(module("for (const k; ; ) ;"), Err(ParseError {}));
}

#[test]
fn binding_names_follow_the_flags() {
    for strict in [false, true] {
        for allow_await in [false, true] {
            let mut f = GrammarFlags::default();
            f.is_strict = strict;
            f.allow_await = allow_await;
            assert_eq!(is_binding_identifier(&f, "let"), !strict);
            assert_eq!(is_binding_identifier(&f, "await"), allow_await);
            assert!(is_binding_identifier(&f, "foo"));
            for w in ["this", "class", "in", "null", "true", "enum"] {
                assert!(!is_binding_identifier(&f, w));
            }
        }
    }
}

#[test]
fn assignment_rest_reads_operator_and_value() {
    let mut p = Parser::new("+= b".into_tokenizer());
    assert_eq!(p.parse_assignment_rest(), Ok(()));
    assert!(p.eof().unwrap().is_some());
    let mut p = Parser::new("= ;".into_tokenizer());
    assert_eq!(p.parse_assignment_rest(), Err(ParseError {}));
    let mut p = Parser::new("x => x".into_tokenizer());
    assert!(p.identifier().unwrap().is_some());
    assert_eq!(p.parse_assignment_rest(), Ok(()));
    assert!(p.eof().unwrap().is_some());
    let mut p = Parser::new("; b".into_tokenizer());
    assert_eq!(p.parse_assignment_rest(), Ok(()));
    assert!(p.eof().unwrap().is_none());
}

#[test]
fn assignment_expressions_parse_whole() {
    let mut p = Parser::new("a = b = c".into_tokenizer());
    assert_eq!(p.parse_assignment_expression(), Ok(true));
    assert!(p.eof().unwrap().is_some());
    let mut p = Parser::new("a *= ".into_tokenizer());
    assert_eq!(p.parse_assignment_expression(), Err(ParseError {}));
}

#[test]
fn token_reader_gives_tokens_of_no_bytes() {
    let mut hint = Hint::default();
    let mut tok = "  #".into_tokenizer();
    let t = read_token(&mut tok, &mut hint).unwrap();
    assert_eq!(t.token, Token::IdentifierName(IdentifierNameToken { name: String::new() }));
    assert!(!t.line);
    let mut hint = Hint::default();
    let mut tok = "\n'abc".into_tokenizer();
    let t = read_token(&mut tok, &mut hint).unwrap();
    assert_eq!(t.token, Token::StringLiteral(StringLiteralToken { value: String::new() }));
    assert!(t.line);
    assert!(module("#").is_err());
}

#[test]
fn sources_with_no_tokens_parse() {
    assert_eq!(module(""), Ok(()));
    assert_eq!(module("  \n\t"), Ok(()));
    assert_eq!(module("// note\n/* more */"), Ok(()));
    assert_eq!(script(" /* only a comment */ "), Ok(()));
    assert!(Test::from_tokenizer("   ".into_tokenizer()).is_ok());
    assert!(<() as FromTokenizer>::from_tokenizer("".into_tokenizer()).is_ok());
}

#[test]
fn expressions_report_where_they_start() {
    let mut p = Parser::new(") x".into_tokenizer());
    assert_eq!(p.parse_assignment_expression(), Ok(false));
    assert!(p.punc(PunctuatorToken::ParenClose).unwrap().is_some());
    let mut p = Parser::new("x".into_tokenizer());
    assert_eq!(p.parse_primary_expression(), Ok(true));
    let mut p = Parser::new("; x".into_tokenizer());
    assert_eq!(p.parse_empty_statement(), Ok(true));
    assert_eq!(p.parse_empty_statement(), Ok(false));
}

#[test]
fn for_heads_read_through_the_closing_paren() {
    let mut p = Parser::new("for (;;) x;".into_tokenizer());
    assert_eq!(p.parse_for_statement(), Ok(true));
    assert!(p.identifier().unwrap().is_some());
    let mut p = Parser::new("for (a in b) x;".into_tokenizer());
    assert_eq!(p.parse_for_statement(), Ok(true));
    assert!(p.identifier().unwrap().is_some());
}
