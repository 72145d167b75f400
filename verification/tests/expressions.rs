use jsparse::ast::alias::Expression;
use jsparse::ast::display::NodeDisplay;
use jsparse::ast::expression::{
    CallArguments, CallExpression, ComputedPropertyAccess, EmptyNewExpression, IdentifierPropertyAccess,
    MemberExpression, NewTargetExpression, NormalNewExpression, PropertyAccess, TemplateLiteral,
    TemplatePart, ThisExpression,
};
use jsparse::ast::general::{BindingIdentifier, PropertyIdentifier};
use jsparse::ast::literal;
use jsparse::ast::operators::SequenceExpression;

fn name(s: &str) -> Expression {
    Expression::Binding(BindingIdentifier::new(s))
}

fn this() -> Expression {
    Expression::This(ThisExpression::default())
}

fn truth() -> Expression {
    Expression::Boolean(literal::Boolean::from(true))
}

fn seq(a: Expression, b: Expression) -> Expression {
    Expression::Sequence(SequenceExpression { left: Box::new(a), right: Box::new(b), position: None })
}

#[test]
fn it_prints_args() {
    assert_eq!(CallArguments::from(vec![this(), name("arg"), truth()]).to_string(), "(this,arg,true)");
}

#[test]
fn it_prints_args_with_precedence() {
    assert_eq!(
        CallArguments::from(vec![name("arg1"), seq(this(), truth()), name("arg3")]).to_string(),
        "(arg1,(this,true),arg3)"
    );
}

#[test]
fn it_prints_args_with_spread_and_precedence() {
    let args = CallArguments { args: vec![name("arg")], spread: Some(Box::new(seq(this(), truth()))), position: None };
    assert_eq!(args.to_string(), "(arg,...(this,true))");
}

#[test]
fn call_arguments_default_is_empty() {
    let args = CallArguments::default();
    assert!(args.is_empty());
    assert_eq!(args.to_string(), "()");
    assert!(!CallArguments::from(vec![this()]).is_empty());
}

#[test]
fn member_and_call_expressions_print() {
    let m = MemberExpression {
        object: Box::new(name("a")),
        property: PropertyAccess::Identifier(IdentifierPropertyAccess { id: PropertyIdentifier::new("b"), position: None }),
        position: None,
    };
    assert_eq!(m.to_string(), "a.b");
    let c = MemberExpression {
        object: Box::new(name("let")),
        property: PropertyAccess::Computed(ComputedPropertyAccess { expression: Box::new(name("x")), position: None }),
        position: None,
    };
    assert_eq!(c.to_string(), "let[x]");
    let call = CallExpression { callee: Box::new(Expression::Member(m)), arguments: CallArguments::from(vec![name("b")]), position: None };
    assert_eq!(call.to_string(), "a.b(b)");
}

#[test]
fn new_expressions_print() {
    let n = NormalNewExpression { callee: Box::new(name("A")), arguments: CallArguments::default(), position: None };
    assert_eq!(n.to_string(), "new A()");
    let e = EmptyNewExpression { callee: Box::new(name("A")), position: None };
    assert_eq!(e.to_string(), "new A");
    assert_eq!(NewTargetExpression { position: None }.to_string(), "new.target");
}

#[test]
fn templates_print_parts_around_substitutions() {
    let part = |s: &str| TemplatePart { value: s.to_string(), raw_value: None, position: None };
    let t = TemplateLiteral { parts: vec![(part("a"), name("x"))], last_part: part("b"), position: None };
    assert_eq!(t.to_string(), "`a}x${b`");
    let empty = TemplateLiteral { parts: vec![], last_part: part("only"), position: None };
    assert_eq!(empty.to_string(), "`only`");
}
