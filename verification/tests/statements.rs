use jsparse::ast::alias::{Expression, Statement, StatementItem};
use jsparse::ast::declaration::{
    ConstDeclaration, ConstDeclarator, DeclaratorList, ForConstPattern, ForInInit, ForInVarPattern, ForInit,
    ForLetPattern, ForOfInit, ForVarPattern, LetDeclaration, LetDeclarator, VariableDeclarator,
    VariableStatement,
};
use jsparse::ast::general::ReferenceIdentifier;
use jsparse::ast::patterns::LeftHandComplexAssign;
use jsparse::ast::classes::{ClassBody, ClassDeclaration};
use jsparse::ast::display::NodeDisplay;
use jsparse::ast::functions::{FunctionBody, FunctionDeclaration, FunctionKind, FunctionParams};
use jsparse::ast::modules::{
    ExportClassDeclaration, ExportConstDeclaration, ExportFunctionDeclaration, ExportLetDeclaration,
    ExportVarStatement,
};
use jsparse::ast::expression::{ComputedPropertyAccess, MemberExpression, PropertyAccess};
use jsparse::ast::general::BindingIdentifier;
use jsparse::ast::literal;
use jsparse::ast::operators::{BinaryExpression, InExpression};
use jsparse::ast::patterns::BindingPattern;
use jsparse::ast::statement::{
    BlockStatement, CatchClause, CatchParam, EmptyStatement, ExpressionStatement, ForAwaitStatement,
    ForInStatement, ForOfStatement, ForStatement,
    IfElseStatement, IfStatement, SwitchCase, SwitchStatement, TryCatchStatement,
};

fn name(s: &str) -> Expression {
    Expression::Binding(BindingIdentifier::new(s))
}

fn empty() -> Box<Statement> {
    Box::new(Statement::Empty(EmptyStatement::default()))
}

fn var(id: &str, init: Option<Expression>) -> VariableStatement {
    VariableStatement {
        declarations: DeclaratorList::Last(VariableDeclarator {
            id: BindingPattern::Identifier(BindingIdentifier::new(id)),
            init: init.map(Box::new),
            position: None,
        }),
        position: None,
    }
}

fn boolean_item(b: bool) -> StatementItem {
    StatementItem::Expression(ExpressionStatement {
        expression: Expression::Boolean(literal::Boolean::from(b)),
        position: None,
    })
}

#[test]
fn statement_it_prints() {
    assert_eq!(var("myVar", None).to_string(), "var myVar;");
    let e = ExpressionStatement { expression: name("foo"), position: None };
    assert_eq!(e.to_string(), "foo;");
    let i = IfStatement { test: name("myVar"), consequent: empty(), position: None };
    assert_eq!(i.to_string(), "if(myVar);");
}

#[test]
fn it_prints_with_init() {
    assert_eq!(var("myVar", Some(name("initialVal"))).to_string(), "var myVar=initialVal;");
}

#[test]
fn var_statement_prints_each_declarator() {
    let v = VariableStatement {
        declarations: DeclaratorList::List(
            VariableDeclarator { id: BindingPattern::Identifier(BindingIdentifier::new("a")), init: None, position: None },
            Box::new(DeclaratorList::Last(VariableDeclarator {
                id: BindingPattern::Identifier(BindingIdentifier::new("b")),
                init: Some(Box::new(name("c"))),
                position: None,
            })),
        ),
        position: None,
    };
    assert_eq!(v.to_string(), "var a,b=c;");
}

#[test]
fn it_prints_else() {
    let s = IfElseStatement { test: name("myVar"), consequent: empty(), alternate: empty(), position: None };
    assert_eq!(s.to_string(), "if(myVar);else;");
}

#[test]
fn it_prints_with_letsquare_parens() {
    let m = MemberExpression {
        object: Box::new(name("let")),
        property: PropertyAccess::Computed(ComputedPropertyAccess {
            expression: Box::new(Expression::Boolean(literal::Boolean::from(false))),
            position: None,
        }),
        position: None,
    };
    let s = ExpressionStatement { expression: Expression::Member(m), position: None };
    assert_eq!(s.to_string(), "(let[false]);");
}

#[test]
fn it_prints_test() {
    let s = ForStatement { init: None, test: Some(Box::new(name("myVar"))), update: None, body: empty(), position: None };
    assert_eq!(s.to_string(), "for(;myVar;);");
}

#[test]
fn for_statement_prints_every_part() {
    let body = BlockStatement { body: vec![boolean_item(true), boolean_item(false)], position: None };
    let s = ForStatement {
        init: Some(ForInit::Expression(name("init"))),
        test: Some(Box::new(name("test"))),
        update: Some(Box::new(name("update"))),
        body: Box::new(Statement::Block(body)),
        position: None,
    };
    assert_eq!(s.to_string(), "for(init;test;update){true;false;}");
}

#[test]
fn for_init_parenthesizes_in() {
    let cond = BinaryExpression::In(InExpression { left: Box::new(name("a")), right: Box::new(name("b")), position: None });
    let s = ForStatement {
        init: Some(ForInit::Expression(Expression::Binary(cond))),
        test: None,
        update: None,
        body: empty(),
        position: None,
    };
    assert_eq!(s.to_string(), "for((a in b);;);");
}

#[test]
fn for_init_prints_declarations() {
    let l = LetDeclaration {
        declarators: DeclaratorList::Last(LetDeclarator {
            id: BindingPattern::Identifier(BindingIdentifier::new("i")),
            init: None,
            position: None,
        }),
        position: None,
    };
    let s = ForStatement { init: Some(ForInit::Let(l)), test: None, update: None, body: empty(), position: None };
    assert_eq!(s.to_string(), "for(let i;;;);");
    let c = ConstDeclaration {
        declarators: DeclaratorList::Last(ConstDeclarator {
            id: BindingPattern::Identifier(BindingIdentifier::new("k")),
            init: Box::new(name("v")),
            position: None,
        }),
        position: None,
    };
    let s = ForStatement { init: Some(ForInit::Const(c)), test: None, update: None, body: empty(), position: None };
    assert_eq!(s.to_string(), "for(const k=v;;;);");
}

#[test]
fn statement_it_prints_empty() {
    let s = SwitchStatement { discriminant: Box::new(name("myVar")), cases: vec![], position: None };
    assert_eq!(s.to_string(), "switch(myVar){}");
}

#[test]
fn switch_statement_prints_cases_and_default() {
    let s = SwitchStatement {
        discriminant: Box::new(name("myVar")),
        cases: vec![
            SwitchCase { test: Some(Box::new(name("six"))), consequent: vec![boolean_item(false)], position: None },
            SwitchCase { test: None, consequent: vec![boolean_item(true)], position: None },
            SwitchCase { test: Some(Box::new(name("one"))), consequent: vec![boolean_item(true)], position: None },
        ],
        position: None,
    };
    assert_eq!(s.to_string(), "switch(myVar){case six:false;default:true;case one:true;}");
}

#[test]
fn it_prints_with_binding() {
    let s = TryCatchStatement {
        body: BlockStatement { body: vec![boolean_item(false)], position: None },
        catch: CatchClause {
            param: Some(CatchParam {
                argument: BindingPattern::Identifier(BindingIdentifier::new("err")),
                position: None,
            }),
            body: BlockStatement { body: vec![boolean_item(true)], position: None },
            position: None,
        },
        position: None,
    };
    assert_eq!(s.to_string(), "try{false;}catch(err){true;}");
}

#[test]
fn block_holds_declarations_and_loops() {
    let l = LetDeclaration {
        declarators: DeclaratorList::Last(LetDeclarator {
            id: BindingPattern::Identifier(BindingIdentifier::new("x")),
            init: None,
            position: None,
        }),
        position: None,
    };
    let block = BlockStatement {
        body: vec![
            StatementItem::Variable(var("a", None)),
            StatementItem::Let(l),
            StatementItem::For(ForStatement::default()),
        ],
        position: None,
    };
    assert_eq!(block.to_string(), "{var a;let x;for(;;);}");
}

#[test]
fn export_declarations_print_after_export() {
    let v = ExportVarStatement { exported: var("foo", None), position: None };
    assert_eq!(v.to_string(), "export var foo;");
    let l = ExportLetDeclaration {
        exported: LetDeclaration {
            declarators: DeclaratorList::Last(LetDeclarator {
                id: BindingPattern::Identifier(BindingIdentifier::new("foo")),
                init: None,
                position: None,
            }),
            position: None,
        },
        position: None,
    };
    assert_eq!(l.to_string(), "export let foo;");
    let c = ExportConstDeclaration {
        exported: ConstDeclaration {
            declarators: DeclaratorList::Last(ConstDeclarator {
                id: BindingPattern::Identifier(BindingIdentifier::new("foo")),
                init: Box::new(name("bar")),
                position: None,
            }),
            position: None,
        },
        position: None,
    };
    assert_eq!(c.to_string(), "export const foo=bar;");
    let func = ExportFunctionDeclaration {
        exported: FunctionDeclaration {
            kind: FunctionKind::default(),
            id: BindingIdentifier::new("foo"),
            params: FunctionParams::default(),
            body: FunctionBody::default(),
            position: None,
        },
        position: None,
    };
    assert_eq!(func.to_string(), "export function foo(){}");
    let class = ExportClassDeclaration {
        exported: ClassDeclaration {
            id: BindingIdentifier::new("Foo"),
            extends: None,
            body: ClassBody::default(),
            position: None,
        },
        position: None,
    };
    assert_eq!(class.to_string(), "export class Foo{}");
}

fn pattern(s: &str) -> BindingPattern {
    BindingPattern::Identifier(BindingIdentifier::new(s))
}

#[test]
fn for_in_statements_print() {
    let s = ForInStatement {
        left: ForInInit::Var(ForInVarPattern { pattern: pattern("k"), init: None, position: None }),
        right: Box::new(name("obj")),
        body: empty(),
        position: None,
    };
    assert_eq!(s.to_string(), "for(var k in obj);");
    let s = ForInStatement {
        left: ForInInit::Var(ForInVarPattern { pattern: pattern("k"), init: Some(Box::new(name("d"))), position: None }),
        right: Box::new(name("obj")),
        body: empty(),
        position: None,
    };
    assert_eq!(s.to_string(), "for(var k=d in obj);");
    let s = ForInStatement {
        left: ForInInit::Complex(LeftHandComplexAssign::Identifier(ReferenceIdentifier::new("k"))),
        right: Box::new(name("obj")),
        body: empty(),
        position: None,
    };
    assert_eq!(s.to_string(), "for(k in obj);");
}

#[test]
fn for_of_statements_print() {
    let s = ForOfStatement {
        left: ForOfInit::Let(ForLetPattern { pattern: pattern("x"), position: None }),
        right: Box::new(name("list")),
        body: empty(),
        position: None,
    };
    assert_eq!(s.to_string(), "for(let x of list);");
    let s = ForOfStatement {
        left: ForOfInit::Var(ForVarPattern { pattern: pattern("x"), position: None }),
        right: Box::new(name("list")),
        body: empty(),
        position: None,
    };
    assert_eq!(s.to_string(), "for(var x of list);");
    let s = ForAwaitStatement {
        left: ForOfInit::Const(ForConstPattern { pattern: pattern("x"), position: None }),
        right: Box::new(name("list")),
        body: empty(),
        position: None,
    };
    assert_eq!(s.to_string(), "for await(const x of list);");
}
