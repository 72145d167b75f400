use jsparse::ast::declaration::{ConstDeclaration, ConstDeclarator, DeclaratorList, LetDeclaration, LetDeclarator};
use jsparse::ast::{CommentIterator, CommentNode, Separators};
use jsparse::ast::alias::{Expression, Statement, StatementItem};
use jsparse::ast::display::{
    Keyword, LookaheadRestriction, LookaheadSequence, NodeDisplay, NodeFormatter, Precedence,
    Punctuator,
};
use jsparse::ast::expression::ThisExpression;
use jsparse::ast::functions::{FunctionParam, FunctionParams, FunctionRestParam};
use jsparse::ast::general::{BindingIdentifier, PropertyIdentifier, PropertyName};
use jsparse::ast::literal;
use jsparse::ast::patterns::{
    BindingPattern, ObjectBindingPattern, ObjectBindingPatternIdentifierProperty,
    ObjectBindingPatternPatternProperty, ObjectBindingPatternProperty,
};
use jsparse::ast::statement::{
    BlockStatement, EmptyStatement, ExpressionStatement, IfElseStatement, IfStatement, WhileStatement,
};

fn name(s: &str) -> Expression {
    Expression::Binding(BindingIdentifier::new(s))
}

fn empty() -> Box<Statement> {
    Box::new(Statement::Empty(EmptyStatement::default()))
}

#[test]
fn formatter_spaces_words_only() {
    let mut f = NodeFormatter::new();
    f.keyword(Keyword::Return);
    f.keyword(Keyword::This);
    f.punctuator(Punctuator::Semicolon);
    f.keyword(Keyword::Typeof);
    let _ = f.identifier("x", None);
    assert_eq!(f.output, "return this;typeof x");
}

#[test]
fn formatter_locks_restore() {
    let mut f = NodeFormatter::new();
    let outer = f.require_precedence(Precedence::Unary);
    let lock = f.precedence(Precedence::Additive);
    f.keyword(Keyword::This);
    f.release(lock);
    f.release(outer);
    assert_eq!(f.output, "(this)");
    let lock = f.precedence(Precedence::Additive);
    f.release(lock);
    assert_eq!(f.output, "(this)");
}

#[test]
fn formatter_lookahead_wraps_forbidden_starts() {
    let mut f = NodeFormatter::new();
    let r = f.restrict_lookahead(LookaheadRestriction::ExpressionStatement);
    let p = f.lookahead_wrap_parens(LookaheadSequence::Curly);
    f.punctuator(Punctuator::CurlyL);
    f.punctuator(Punctuator::CurlyR);
    f.release(p);
    f.release(r);
    assert_eq!(f.output, "({})");
    let p = f.lookahead_wrap_parens(LookaheadSequence::Curly);
    f.release(p);
    assert_eq!(f.output, "({})");
}

#[test]
fn it_prints_wrapped_if() {
    let inner = IfStatement { test: name("myVar2"), consequent: empty(), position: None };
    let outer = IfElseStatement {
        test: name("myVar"),
        consequent: Box::new(Statement::If(inner)),
        alternate: empty(),
        position: None,
    };
    assert_eq!(outer.to_string(), "if(myVar){if(myVar2);}else;");
}

#[test]
fn it_prints_wrapped_if_deep() {
    let inner = IfStatement { test: name("myVar3"), consequent: empty(), position: None };
    let body = WhileStatement {
        test: Box::new(name("myVar2")),
        body: Box::new(Statement::If(inner)),
        position: None,
    };
    let outer = IfElseStatement {
        test: name("myVar"),
        consequent: Box::new(Statement::While(body)),
        alternate: empty(),
        position: None,
    };
    assert_eq!(outer.to_string(), "if(myVar)while(myVar2){if(myVar3);}else;");
}

#[test]
fn statement_it_prints_with_items() {
    let block = BlockStatement {
        body: vec![StatementItem::Expression(ExpressionStatement {
            expression: name("someWord"),
            position: None,
        })],
        position: None,
    };
    assert_eq!(block.to_string(), "{someWord;}");
    let this = ExpressionStatement { expression: Expression::This(ThisExpression::default()), position: None };
    assert_eq!(this.to_string(), "this;");
}

#[test]
fn params_print_with_commas() {
    let params = FunctionParams {
        params: vec![
            FunctionParam { id: BindingPattern::Identifier(BindingIdentifier::new("arg")), init: None, position: None },
            FunctionParam {
                id: BindingPattern::Identifier(BindingIdentifier::new("arg2")),
                init: Some(Box::new(Expression::Boolean(literal::Boolean::from(true)))),
                position: None,
            },
        ],
        rest: Some(FunctionRestParam { id: BindingPattern::Identifier(BindingIdentifier::new("arg3")), position: None }),
        position: None,
    };
    assert_eq!(params.to_string(), "(arg,arg2=true,...arg3)");
    assert_eq!(FunctionParams::default().to_string(), "()");
}

#[test]
fn object_binding_prints_properties() {
    let pattern = ObjectBindingPattern {
        properties: vec![
            ObjectBindingPatternProperty::Identifier(ObjectBindingPatternIdentifierProperty {
                id: BindingIdentifier::new("foo"),
                init: None,
                position: None,
            }),
            ObjectBindingPatternProperty::Identifier(ObjectBindingPatternIdentifierProperty {
                id: BindingIdentifier::new("foo2"),
                init: Some(Box::new(Expression::Boolean(literal::Boolean::from(true)))),
                position: None,
            }),
            ObjectBindingPatternProperty::Pattern(ObjectBindingPatternPatternProperty {
                name: PropertyName::Identifier(PropertyIdentifier::new("foo3")),
                pattern: Box::new(BindingPattern::Identifier(BindingIdentifier::new("foo4"))),
                init: Some(Box::new(Expression::Boolean(literal::Boolean::from(false)))),
                position: None,
            }),
        ],
        last_property: None,
        position: None,
    };
    assert_eq!(pattern.to_string(), "{foo,foo2=true,foo3:foo4=false}");
}

#[test]
fn declarator_lists_print_with_commas() {
    let one = DeclaratorList::Last(BindingIdentifier::new("a"));
    assert_eq!(one.to_string(), "a");
    let two = DeclaratorList::List(
        BindingIdentifier::new("a"),
        Box::new(DeclaratorList::List(BindingIdentifier::new("b"), Box::new(DeclaratorList::Last(BindingIdentifier::new("c"))))),
    );
    assert_eq!(two.to_string(), "a,b,c");
}

#[test]
fn comment_iterator_skips_whitespace() {
    let v = vec![Separators::Whitespace, Separators::Comment(CommentNode), Separators::Whitespace, Separators::Comment(CommentNode)];
    let mut it = CommentIterator::new(&v);
    assert_eq!(it.next(), Some(&CommentNode));
    assert_eq!(it.next(), Some(&CommentNode));
    assert_eq!(it.next(), None);
    assert_eq!(it.next(), None);
    let empty: Vec<Separators> = vec![Separators::Whitespace];
    assert_eq!(CommentIterator::new(&empty).next(), None);
}

#[test]
fn let_and_const_declarations_print() {
    let a = LetDeclarator {
        id: BindingPattern::Identifier(BindingIdentifier::new("a")),
        init: Some(Box::new(Expression::Boolean(literal::Boolean::from(true)))),
        position: None,
    };
    let b = LetDeclarator { id: BindingPattern::Identifier(BindingIdentifier::new("b")), init: None, position: None };
    let l = LetDeclaration { declarators: DeclaratorList::List(a, Box::new(DeclaratorList::Last(b))), position: None };
    assert_eq!(l.to_string(), "let a=true,b;");
    let c = ConstDeclarator {
        id: BindingPattern::Identifier(BindingIdentifier::new("c")),
        init: Box::new(name("d")),
        position: None,
    };
    let k = ConstDeclaration { declarators: DeclaratorList::Last(c), position: None };
    assert_eq!(k.to_string(), "const c=d;");
}
