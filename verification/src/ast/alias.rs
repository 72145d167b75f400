//! The node kinds that stand for one of several nodes.

use vstd::prelude::*;
use crate::ast::general::BindingIdentifier;
use crate::ast::expression;
use crate::ast::expression::ThisExpression;
use crate::ast::literal;
use crate::ast::jsx;
use crate::ast::operators;
use crate::ast::statement;
use crate::ast::declaration;
use crate::ast::modules;
use crate::ast::classes;
use crate::ast::functions;
use crate::ast::display::{NodeDisplay, NodeFormatter, NodeDisplayResult, FormatterView};

verus! {

/// An expression.
#[derive(Debug)]
pub enum Expression {
    Binding(BindingIdentifier),
    This(ThisExpression),
    Null(literal::Null),
    Boolean(literal::Boolean),
    String(literal::String),
    Regex(literal::RegExp),
    JSX(jsx::Element),
    Unary(operators::UnaryExpression),
    Binary(operators::BinaryExpression),
    Conditional(operators::ConditionalExpression),
    Sequence(operators::SequenceExpression),
    Update(operators::UpdateExpression),
    AssignUpdate(operators::AssignmentUpdateExpression),
    Template(expression::TemplateLiteral),
    Member(expression::MemberExpression),
    SuperMember(expression::SuperMemberExpression),
    Call(expression::CallExpression),
    New(expression::NewExpression),
    ImportCall(expression::ImportCallExpression),
    SuperCall(expression::SuperCallExpression),
}

impl NodeDisplay for Expression {
    open spec fn printed(&self, f: FormatterView) -> FormatterView {
        jsx::expression_printed(*self, f)
    }

    fn fmt(&self, f: &mut NodeFormatter) -> (r: NodeDisplayResult) {
        jsx::print_expression(self, f);
        Ok(())
    }
}

/// A statement.
#[derive(Debug)]
pub enum Statement {
    Block(statement::BlockStatement),
    Variable(declaration::VariableStatement),
    For(statement::ForStatement),
    ForIn(statement::ForInStatement),
    ForOf(statement::ForOfStatement),
    ForAwait(statement::ForAwaitStatement),
    Switch(statement::SwitchStatement),
    Empty(statement::EmptyStatement),
    Expression(statement::ExpressionStatement),
    If(statement::IfStatement),
    IfElse(statement::IfElseStatement),
    While(statement::WhileStatement),
    DoWhile(statement::DoWhileStatement),
    With(statement::WithStatement),
    Labelled(statement::LabelledStatement),
    Continue(statement::ContinueStatement),
    Break(statement::BreakStatement),
    Return(statement::ReturnStatement),
    Throw(statement::ThrowStatement),
    TryCatch(statement::TryCatchStatement),
    TryCatchFinally(statement::TryCatchFinallyStatement),
    TryFinally(statement::TryFinallyStatement),
    Debugger(statement::DebuggerStatement),
}

/// A statement or a declaration, as it stands in a block or a function body.
#[derive(Debug)]
pub enum StatementItem {
    Block(statement::BlockStatement),
    Variable(declaration::VariableStatement),
    For(statement::ForStatement),
    ForIn(statement::ForInStatement),
    ForOf(statement::ForOfStatement),
    ForAwait(statement::ForAwaitStatement),
    Switch(statement::SwitchStatement),
    Empty(statement::EmptyStatement),
    Expression(statement::ExpressionStatement),
    If(statement::IfStatement),
    IfElse(statement::IfElseStatement),
    While(statement::WhileStatement),
    DoWhile(statement::DoWhileStatement),
    With(statement::WithStatement),
    Labelled(statement::LabelledStatement),
    Continue(statement::ContinueStatement),
    Break(statement::BreakStatement),
    Return(statement::ReturnStatement),
    Throw(statement::ThrowStatement),
    TryCatch(statement::TryCatchStatement),
    TryCatchFinally(statement::TryCatchFinallyStatement),
    TryFinally(statement::TryFinallyStatement),
    Debugger(statement::DebuggerStatement),
    Let(declaration::LetDeclaration),
    Const(declaration::ConstDeclaration),
}

impl NodeDisplay for Statement {
    open spec fn printed(&self, f: FormatterView) -> FormatterView {
        statement::statement_printed(*self, f)
    }

    fn fmt(&self, f: &mut NodeFormatter) -> (r: NodeDisplayResult) {
        statement::print_statement(self, f);
        Ok(())
    }
}

impl NodeDisplay for StatementItem {
    open spec fn printed(&self, f: FormatterView) -> FormatterView {
        statement::item_printed(*self, f)
    }

    fn fmt(&self, f: &mut NodeFormatter) -> (r: NodeDisplayResult) {
        statement::print_item(self, f);
        Ok(())
    }
}

/// An item of a module: a statement, a declaration, an import or an export.
#[derive(Debug)]
pub enum ModuleStatementItem {
    Block(statement::BlockStatement),
    Variable(declaration::VariableStatement),
    Empty(statement::EmptyStatement),
    Expression(statement::ExpressionStatement),
    If(statement::IfStatement),
    IfElse(statement::IfElseStatement),
    For(statement::ForStatement),
    ForIn(statement::ForInStatement),
    ForOf(statement::ForOfStatement),
    ForAwait(statement::ForAwaitStatement),
    While(statement::WhileStatement),
    DoWhile(statement::DoWhileStatement),
    Switch(statement::SwitchStatement),
    Continue(statement::ContinueStatement),
    Break(statement::BreakStatement),
    Return(statement::ReturnStatement),
    With(statement::WithStatement),
    Labelled(statement::LabelledStatement),
    Throw(statement::ThrowStatement),
    TryCatch(statement::TryCatchStatement),
    TryCatchFinally(statement::TryCatchFinallyStatement),
    TryFinally(statement::TryFinallyStatement),
    Debugger(statement::DebuggerStatement),
    Function(functions::FunctionDeclaration),
    Class(classes::ClassDeclaration),
    Let(declaration::LetDeclaration),
    Const(declaration::ConstDeclaration),
    ExportDefaultClass(classes::ExportDefaultClassDeclaration),
    ExportDefaultFunction(functions::ExportDefaultFunctionDeclaration),
    ExportDefaultExpression(modules::ExportDefaultExpression),
    ExportClass(modules::ExportClassDeclaration),
    ExportFunction(modules::ExportFunctionDeclaration),
    ExportVariable(modules::ExportVarStatement),
    ExportLet(modules::ExportLetDeclaration),
    ExportConst(modules::ExportConstDeclaration),
    ExportLocalBindings(modules::ExportLocalBindings),
    ExportSourceSpecifiers(modules::ExportSourceSpecifiers),
    ExportAll(modules::ExportAllSpecifiers),
    ExportNamed(modules::ExportNamedSpecifier),
    ExportNamedAndNamespace(modules::ExportNamedAndNamespace),
    ExportNamespace(modules::ExportNamespace),
    ExportNamedAndSpecifiers(modules::ExportNamedAndSpecifiers),
    ImportNamed(modules::ImportNamedDeclaration),
    ImportNamedAndNamespace(modules::ImportNamedAndNamespaceDeclaration),
    ImportNamespace(modules::ImportNamespaceDeclaration),
    ImportNamedAndSpecifiers(modules::ImportNamedAndSpecifiersDeclaration),
    ImportSpecifiers(modules::ImportSpecifiersDeclaration),
}

impl NodeDisplay for ModuleStatementItem {
    open spec fn printed(&self, f: FormatterView) -> FormatterView {
        match self {
            ModuleStatementItem::Block(n) => n.printed(f),
            ModuleStatementItem::Variable(n) => n.printed(f),
            ModuleStatementItem::Empty(n) => n.printed(f),
            ModuleStatementItem::Expression(n) => n.printed(f),
            ModuleStatementItem::If(n) => n.printed(f),
            ModuleStatementItem::IfElse(n) => n.printed(f),
            ModuleStatementItem::For(n) => n.printed(f),
            ModuleStatementItem::ForIn(n) => n.printed(f),
            ModuleStatementItem::ForOf(n) => n.printed(f),
            ModuleStatementItem::ForAwait(n) => n.printed(f),
            ModuleStatementItem::While(n) => n.printed(f),
            ModuleStatementItem::DoWhile(n) => n.printed(f),
            ModuleStatementItem::Switch(n) => n.printed(f),
            ModuleStatementItem::Continue(n) => n.printed(f),
            ModuleStatementItem::Break(n) => n.printed(f),
            ModuleStatementItem::Return(n) => n.printed(f),
            ModuleStatementItem::With(n) => n.printed(f),
            ModuleStatementItem::Labelled(n) => n.printed(f),
            ModuleStatementItem::Throw(n) => n.printed(f),
            ModuleStatementItem::TryCatch(n) => n.printed(f),
            ModuleStatementItem::TryCatchFinally(n) => n.printed(f),
            ModuleStatementItem::TryFinally(n) => n.printed(f),
            ModuleStatementItem::Debugger(n) => n.printed(f),
            ModuleStatementItem::Function(n) => n.printed(f),
            ModuleStatementItem::Class(n) => n.printed(f),
            ModuleStatementItem::Let(n) => n.printed(f),
            ModuleStatementItem::Const(n) => n.printed(f),
            ModuleStatementItem::ExportDefaultClass(n) => n.printed(f),
            ModuleStatementItem::ExportDefaultFunction(n) => n.printed(f),
            ModuleStatementItem::ExportDefaultExpression(n) => n.printed(f),
            ModuleStatementItem::ExportClass(n) => n.printed(f),
            ModuleStatementItem::ExportFunction(n) => n.printed(f),
            ModuleStatementItem::ExportVariable(n) => n.printed(f),
            ModuleStatementItem::ExportLet(n) => n.printed(f),
            ModuleStatementItem::ExportConst(n) => n.printed(f),
            ModuleStatementItem::ExportLocalBindings(n) => n.printed(f),
            ModuleStatementItem::ExportSourceSpecifiers(n) => n.printed(f),
            ModuleStatementItem::ExportAll(n) => n.printed(f),
            ModuleStatementItem::ExportNamed(n) => n.printed(f),
            ModuleStatementItem::ExportNamedAndNamespace(n) => n.printed(f),
            ModuleStatementItem::ExportNamespace(n) => n.printed(f),
            ModuleStatementItem::ExportNamedAndSpecifiers(n) => n.printed(f),
            ModuleStatementItem::ImportNamed(n) => n.printed(f),
            ModuleStatementItem::ImportNamedAndNamespace(n) => n.printed(f),
            ModuleStatementItem::ImportNamespace(n) => n.printed(f),
            ModuleStatementItem::ImportNamedAndSpecifiers(n) => n.printed(f),
            ModuleStatementItem::ImportSpecifiers(n) => n.printed(f),
        }
    }

    fn fmt(&self, f: &mut NodeFormatter) -> (r: NodeDisplayResult) {
        match self {
            ModuleStatementItem::Block(n) => f.node(n),
            ModuleStatementItem::Variable(n) => f.node(n),
            ModuleStatementItem::Empty(n) => f.node(n),
            ModuleStatementItem::Expression(n) => f.node(n),
            ModuleStatementItem::If(n) => f.node(n),
            ModuleStatementItem::IfElse(n) => f.node(n),
            ModuleStatementItem::For(n) => f.node(n),
            ModuleStatementItem::ForIn(n) => f.node(n),
            ModuleStatementItem::ForOf(n) => f.node(n),
            ModuleStatementItem::ForAwait(n) => f.node(n),
            ModuleStatementItem::While(n) => f.node(n),
            ModuleStatementItem::DoWhile(n) => f.node(n),
            ModuleStatementItem::Switch(n) => f.node(n),
            ModuleStatementItem::Continue(n) => f.node(n),
            ModuleStatementItem::Break(n) => f.node(n),
            ModuleStatementItem::Return(n) => f.node(n),
            ModuleStatementItem::With(n) => f.node(n),
            ModuleStatementItem::Labelled(n) => f.node(n),
            ModuleStatementItem::Throw(n) => f.node(n),
            ModuleStatementItem::TryCatch(n) => f.node(n),
            ModuleStatementItem::TryCatchFinally(n) => f.node(n),
            ModuleStatementItem::TryFinally(n) => f.node(n),
            ModuleStatementItem::Debugger(n) => f.node(n),
            ModuleStatementItem::Function(n) => f.node(n),
            ModuleStatementItem::Class(n) => f.node(n),
            ModuleStatementItem::Let(n) => f.node(n),
            ModuleStatementItem::Const(n) => f.node(n),
            ModuleStatementItem::ExportDefaultClass(n) => f.node(n),
            ModuleStatementItem::ExportDefaultFunction(n) => f.node(n),
            ModuleStatementItem::ExportDefaultExpression(n) => f.node(n),
            ModuleStatementItem::ExportClass(n) => f.node(n),
            ModuleStatementItem::ExportFunction(n) => f.node(n),
            ModuleStatementItem::ExportVariable(n) => f.node(n),
            ModuleStatementItem::ExportLet(n) => f.node(n),
            ModuleStatementItem::ExportConst(n) => f.node(n),
            ModuleStatementItem::ExportLocalBindings(n) => f.node(n),
            ModuleStatementItem::ExportSourceSpecifiers(n) => f.node(n),
            ModuleStatementItem::ExportAll(n) => f.node(n),
            ModuleStatementItem::ExportNamed(n) => f.node(n),
            ModuleStatementItem::ExportNamedAndNamespace(n) => f.node(n),
            ModuleStatementItem::ExportNamespace(n) => f.node(n),
            ModuleStatementItem::ExportNamedAndSpecifiers(n) => f.node(n),
            ModuleStatementItem::ImportNamed(n) => f.node(n),
            ModuleStatementItem::ImportNamedAndNamespace(n) => f.node(n),
            ModuleStatementItem::ImportNamespace(n) => f.node(n),
            ModuleStatementItem::ImportNamedAndSpecifiers(n) => f.node(n),
            ModuleStatementItem::ImportSpecifiers(n) => f.node(n),
        }
    }
}

} // verus!
