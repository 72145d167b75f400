use jsparse::ast::alias::Expression;
use jsparse::ast::display::NodeDisplay;
use jsparse::ast::general::BindingIdentifier;
use jsparse::ast::general::ReferenceIdentifier;
use jsparse::ast::patterns::LeftHandSimpleAssign;
use jsparse::ast::operators::{
    AddAssignExpression, AssignmentUpdateExpression, PostIncrementExpression, PowerAssignExpression,
    PreDecrementExpression, SubtractAssignExpression, UpdateExpression,
    AddExpression, AndExpression, BinaryExpression, BindExpression, ConditionalExpression,
    DelegateYieldExpression, DeleteExpression, InExpression, InstanceofExpression,
    MultiplyExpression, NegativeExpression, OrExpression, SequenceExpression, TypeofExpression,
    UnaryExpression,
};

fn name(s: &str) -> Box<Expression> {
    Box::new(Expression::Binding(BindingIdentifier::new(s)))
}

fn bin(b: BinaryExpression) -> Box<Expression> {
    Box::new(Expression::Binary(b))
}

fn add(l: Box<Expression>, r: Box<Expression>) -> BinaryExpression {
    BinaryExpression::Add(AddExpression { left: l, right: r, position: None })
}

fn mul(l: Box<Expression>, r: Box<Expression>) -> BinaryExpression {
    BinaryExpression::Multiply(MultiplyExpression { left: l, right: r, position: None })
}

#[test]
fn binary_operators_wrap_weaker_right_operands() {
    assert_eq!(add(name("a"), name("b")).to_string(), "a+b");
    assert_eq!(add(name("a"), bin(add(name("b"), name("c")))).to_string(), "a+(b+c)");
    assert_eq!(mul(name("a"), bin(add(name("b"), name("c")))).to_string(), "a*(b+c)");
    assert_eq!(add(name("a"), bin(mul(name("b"), name("c")))).to_string(), "a+b*c");
    let or = OrExpression {
        left: name("a"),
        right: bin(BinaryExpression::And(AndExpression { left: name("b"), right: name("c"), position: None })),
        position: None,
    };
    assert_eq!(or.to_string(), "a||b&&c");
    let and = AndExpression {
        left: name("a"),
        right: bin(BinaryExpression::Or(OrExpression { left: name("b"), right: name("c"), position: None })),
        position: None,
    };
    assert_eq!(and.to_string(), "a&&(b||c)");
}

#[test]
fn keyword_operators_are_spaced() {
    assert_eq!(InExpression { left: name("a"), right: name("b"), position: None }.to_string(), "a in b");
    assert_eq!(
        InstanceofExpression { left: name("a"), right: name("b"), position: None }.to_string(),
        "a instanceof b"
    );
    assert_eq!(BindExpression { left: name("a"), right: name("b"), position: None }.to_string(), "a::b");
}

#[test]
fn unary_operators_print_before_their_value() {
    let t = TypeofExpression { value: name("x"), position: None };
    assert_eq!(t.to_string(), "typeof x");
    let d = DeleteExpression { value: Box::new(Expression::Unary(UnaryExpression::Typeof(t))), position: None };
    assert_eq!(d.to_string(), "delete typeof x");
    assert_eq!(NegativeExpression { value: name("x"), position: None }.to_string(), "!x");
    assert_eq!(DelegateYieldExpression { value: name("x"), position: None }.to_string(), "yield*x");
}

#[test]
fn conditional_and_sequence() {
    let c = ConditionalExpression { test: name("a"), consequent: name("b"), alternate: name("c"), position: None };
    assert_eq!(c.to_string(), "a?b:c");
    let c2 = ConditionalExpression {
        test: name("a"),
        consequent: Box::new(Expression::Sequence(SequenceExpression { left: name("b"), right: name("c"), position: None })),
        alternate: name("d"),
        position: None,
    };
    assert_eq!(c2.to_string(), "a?(b,c):d");
    let s = SequenceExpression {
        left: name("a"),
        right: Box::new(Expression::Sequence(SequenceExpression { left: name("b"), right: name("c"), position: None })),
        position: None,
    };
    assert_eq!(s.to_string(), "a,(b,c)");
}

fn target(s: &str) -> LeftHandSimpleAssign {
    LeftHandSimpleAssign::Identifier(ReferenceIdentifier::new(s))
}

#[test]
fn updates_print_around_their_target() {
    assert_eq!(PostIncrementExpression { value: target("a"), position: None }.to_string(), "a++");
    assert_eq!(PreDecrementExpression { value: target("a"), position: None }.to_string(), "--a");
    let u = Expression::Update(UpdateExpression::PostIncrement(PostIncrementExpression { value: target("i"), position: None }));
    let add = AddExpression { left: Box::new(u), right: name("j"), position: None };
    assert_eq!(add.to_string(), "i+++j");
}

#[test]
fn compound_assignments_print_operator_then_eq() {
    let a = AddAssignExpression { left: Box::new(target("a")), right: name("b"), position: None };
    assert_eq!(a.to_string(), "a+=b");
    let s = SubtractAssignExpression { left: Box::new(target("a")), right: name("b"), position: None };
    assert_eq!(s.to_string(), "a-=b");
    let p = PowerAssignExpression { left: Box::new(target("a")), right: name("b"), position: None };
    assert_eq!(p.to_string(), "a**=b");
    let inner = SequenceExpression { left: name("b"), right: name("c"), position: None };
    let w = AssignmentUpdateExpression::Add(AddAssignExpression {
        left: Box::new(target("a")),
        right: Box::new(Expression::Sequence(inner)),
        position: None,
    });
    assert_eq!(w.to_string(), "a+=(b,c)");
}
