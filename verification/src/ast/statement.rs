//! Statements. Blocks, function bodies and class bodies hold statements and
//! statements hold them back, so the printers of all of these stand together
//! here as functions that call each other.

use vstd::prelude::*;
use crate::ast::NodePosition;
use crate::ast::alias::{Expression, Statement, StatementItem};
use crate::ast::patterns::BindingPattern;
use crate::ast::declaration::{ForInit, ForInInit, ForOfInit};
use crate::ast::display::{
    NodeDisplay, NodeFormatter, NodeDisplayResult, FormatterView, Keyword, Punctuator, Precedence,
    LockRelease, LookaheadRestriction, printed_all, raw_text, raw_str,
};

verus! {

/// An identifier used as a label.
#[derive(Debug)]
pub struct LabelIdentifier {
    pub value: String,
    pub raw: Option<String>,
    pub position: Option<Box<NodePosition>>,
}

impl LabelIdentifier {
    pub fn new(s: &str) -> (n: LabelIdentifier)
        ensures
            n.value@ == s@,
            n.raw is None,
            n.position is None,
    {
        LabelIdentifier { value: s.to_owned(), raw: None, position: None }
    }
}

impl NodeDisplay for LabelIdentifier {
    open spec fn printed(&self, f: FormatterView) -> FormatterView {
        f.with_word(raw_text(self.value@, self.raw))
    }

    fn fmt(&self, f: &mut NodeFormatter) -> (r: NodeDisplayResult) {
        f.identifier(self.value.as_str(), raw_str(&self.raw))
    }
}

/// `{ ... }`
#[derive(Debug)]
pub struct BlockStatement {
    pub body: Vec<StatementItem>,
    pub position: Option<Box<NodePosition>>,
}

/// `;`
#[derive(Debug)]
pub struct EmptyStatement {
    pub position: Option<Box<NodePosition>>,
}

/// `expression;`
#[derive(Debug)]
pub struct ExpressionStatement {
    pub expression: Expression,
    pub position: Option<Box<NodePosition>>,
}

/// `if (test) consequent` with no `else`.
#[derive(Debug)]
pub struct IfStatement {
    pub test: Expression,
    pub consequent: Box<Statement>,
    pub position: Option<Box<NodePosition>>,
}

/// `if (test) consequent else alternate`
#[derive(Debug)]
pub struct IfElseStatement {
    pub test: Expression,
    pub consequent: Box<Statement>,
    pub alternate: Box<Statement>,
    pub position: Option<Box<NodePosition>>,
}

/// `while (test) body`
#[derive(Debug)]
pub struct WhileStatement {
    pub test: Box<Expression>,
    pub body: Box<Statement>,
    pub position: Option<Box<NodePosition>>,
}

/// `do body while (test);`
#[derive(Debug)]
pub struct DoWhileStatement {
    pub body: Box<Statement>,
    pub test: Box<Expression>,
    pub position: Option<Box<NodePosition>>,
}

/// `with (object) body`
#[derive(Debug)]
pub struct WithStatement {
    pub object: Box<Expression>,
    pub body: Box<Statement>,
    pub position: Option<Box<NodePosition>>,
}

/// `label: body`
#[derive(Debug)]
pub struct LabelledStatement {
    pub label: LabelIdentifier,
    pub body: Box<Statement>,
    pub position: Option<Box<NodePosition>>,
}

/// `throw argument`
#[derive(Debug)]
pub struct ThrowStatement {
    pub argument: Box<Expression>,
    pub position: Option<Box<NodePosition>>,
}

/// `try {} catch (e) {}`
#[derive(Debug)]
pub struct TryCatchStatement {
    pub body: BlockStatement,
    pub catch: CatchClause,
    pub position: Option<Box<NodePosition>>,
}

/// `try {} catch (e) {} finally {}`
#[derive(Debug)]
pub struct TryCatchFinallyStatement {
    pub body: BlockStatement,
    pub catch: CatchClause,
    pub finalizer: BlockStatement,
    pub position: Option<Box<NodePosition>>,
}

/// `try {} finally {}`
#[derive(Debug)]
pub struct TryFinallyStatement {
    pub body: BlockStatement,
    pub finalizer: BlockStatement,
    pub position: Option<Box<NodePosition>>,
}

/// `catch (param) {}`; the parameter may be left out.
#[derive(Debug)]
pub struct CatchClause {
    pub param: Option<CatchParam>,
    pub body: BlockStatement,
    pub position: Option<Box<NodePosition>>,
}

/// `(pattern)` after `catch`.
#[derive(Debug)]
pub struct CatchParam {
    pub argument: BindingPattern,
    pub position: Option<Box<NodePosition>>,
}

/// `continue;` or `continue label;`
#[derive(Debug)]
pub struct ContinueStatement {
    pub label: Option<LabelValue>,
    pub position: Option<Box<NodePosition>>,
}

/// `break;` or `break label;`
#[derive(Debug)]
pub struct BreakStatement {
    pub label: Option<LabelValue>,
    pub position: Option<Box<NodePosition>>,
}

/// The label after `break` or `continue`.
#[derive(Debug)]
pub struct LabelValue {
    pub label: LabelIdentifier,
    pub position: Option<Box<NodePosition>>,
}

/// `return;` or `return value;`
#[derive(Debug)]
pub struct ReturnStatement {
    pub value: Option<ReturnValue>,
    pub position: Option<Box<NodePosition>>,
}

/// The value after `return`.
#[derive(Debug)]
pub struct ReturnValue {
    pub expression: Box<Expression>,
    pub position: Option<Box<NodePosition>>,
}

/// `for (init; test; update) body`; each part of the head may be left out.
#[derive(Debug)]
pub struct ForStatement {
    pub init: Option<ForInit>,
    pub test: Option<Box<Expression>>,
    pub update: Option<Box<Expression>>,
    pub body: Box<Statement>,
    pub position: Option<Box<NodePosition>>,
}

/// `for (left in right) body`
#[derive(Debug)]
pub struct ForInStatement {
    pub left: ForInInit,
    pub right: Box<Expression>,
    pub body: Box<Statement>,
    pub position: Option<Box<NodePosition>>,
}

/// `for (left of right) body`
#[derive(Debug)]
pub struct ForOfStatement {
    pub left: ForOfInit,
    pub right: Box<Expression>,
    pub body: Box<Statement>,
    pub position: Option<Box<NodePosition>>,
}

/// `for await (left of right) body`
#[derive(Debug)]
pub struct ForAwaitStatement {
    pub left: ForOfInit,
    pub right: Box<Expression>,
    pub body: Box<Statement>,
    pub position: Option<Box<NodePosition>>,
}

/// `switch (discriminant) { cases }`
#[derive(Debug)]
pub struct SwitchStatement {
    pub discriminant: Box<Expression>,
    pub cases: Vec<SwitchCase>,
    pub position: Option<Box<NodePosition>>,
}

/// `case test: consequent`, or `default: consequent` where there is no test.
#[derive(Debug)]
pub struct SwitchCase {
    pub test: Option<Box<Expression>>,
    pub consequent: Vec<StatementItem>,
    pub position: Option<Box<NodePosition>>,
}

/// `debugger;`
#[derive(Debug)]
pub struct DebuggerStatement {
    pub position: Option<Box<NodePosition>>,
}

impl NodeDisplay for EmptyStatement {
    open spec fn printed(&self, f: FormatterView) -> FormatterView {
        let f = f.with_punctuator(Punctuator::Semicolon);
        f
    }

    fn fmt(&self, f: &mut NodeFormatter) -> (r: NodeDisplayResult) {
        f.punctuator(Punctuator::Semicolon);
        Ok(())
    }
}

impl NodeDisplay for ExpressionStatement {
    open spec fn printed(&self, f: FormatterView) -> FormatterView {
        let lock1 = LockRelease::Lookahead(f.lookahead_restriction);
        let f = FormatterView { lookahead_restriction: Some(LookaheadRestriction::ExpressionStatement), ..f };
        let lock2 = LockRelease::Precedence(f.prec);
        let f = FormatterView { prec: Precedence::Normal, ..f };
        let f = self.expression.printed(f);
        let f = f.released(lock2);
        let f = f.released(lock1);
        let f = f.with_punctuator(Punctuator::Semicolon);
        f
    }

    fn fmt(&self, f: &mut NodeFormatter) -> (r: NodeDisplayResult) {
        let lock1 = f.restrict_lookahead(LookaheadRestriction::ExpressionStatement);
        let lock2 = f.require_precedence(Precedence::Normal);
        let _ = f.node(&self.expression);
        f.release(lock2);
        f.release(lock1);
        f.punctuator(Punctuator::Semicolon);
        Ok(())
    }
}

impl NodeDisplay for ThrowStatement {
    open spec fn printed(&self, f: FormatterView) -> FormatterView {
        let f = f.with_keyword(Keyword::Throw);
        let lock1 = LockRelease::Precedence(f.prec);
        let f = FormatterView { prec: Precedence::Normal, ..f };
        let f = self.argument.printed(f);
        let f = f.released(lock1);
        f
    }

    fn fmt(&self, f: &mut NodeFormatter) -> (r: NodeDisplayResult) {
        f.keyword(Keyword::Throw);
        let lock1 = f.require_precedence(Precedence::Normal);
        let _ = f.node(&self.argument);
        f.release(lock1);
        Ok(())
    }
}

impl NodeDisplay for CatchParam {
    open spec fn printed(&self, f: FormatterView) -> FormatterView {
        let (f, lock1) = f.parens_opened(true);
        let f = self.argument.printed(f);
        let f = f.released(lock1);
        f
    }

    fn fmt(&self, f: &mut NodeFormatter) -> (r: NodeDisplayResult) {
        let lock1 = f.wrap_parens();
        let _ = f.node(&self.argument);
        f.release(lock1);
        Ok(())
    }
}

impl NodeDisplay for ContinueStatement {
    open spec fn printed(&self, f: FormatterView) -> FormatterView {
        let f = f.with_keyword(Keyword::Continue);
        let f = self.label.printed(f);
        let f = f.with_punctuator(Punctuator::Semicolon);
        f
    }

    fn fmt(&self, f: &mut NodeFormatter) -> (r: NodeDisplayResult) {
        f.keyword(Keyword::Continue);
        let _ = f.node(&self.label);
        f.punctuator(Punctuator::Semicolon);
        Ok(())
    }
}

impl NodeDisplay for BreakStatement {
    open spec fn printed(&self, f: FormatterView) -> FormatterView {
        let f = f.with_keyword(Keyword::Break);
        let f = self.label.printed(f);
        let f = f.with_punctuator(Punctuator::Semicolon);
        f
    }

    fn fmt(&self, f: &mut NodeFormatter) -> (r: NodeDisplayResult) {
        f.keyword(Keyword::Break);
        let _ = f.node(&self.label);
        f.punctuator(Punctuator::Semicolon);
        Ok(())
    }
}

impl NodeDisplay for LabelValue {
    open spec fn printed(&self, f: FormatterView) -> FormatterView {
        let f = self.label.printed(f);
        f
    }

    fn fmt(&self, f: &mut NodeFormatter) -> (r: NodeDisplayResult) {
        let _ = f.node(&self.label);
        Ok(())
    }
}

impl NodeDisplay for ReturnStatement {
    open spec fn printed(&self, f: FormatterView) -> FormatterView {
        let f = f.with_keyword(Keyword::Return);
        let f = self.value.printed(f);
        let f = f.with_punctuator(Punctuator::Semicolon);
        f
    }

    fn fmt(&self, f: &mut NodeFormatter) -> (r: NodeDisplayResult) {
        f.keyword(Keyword::Return);
        let _ = f.node(&self.value);
        f.punctuator(Punctuator::Semicolon);
        Ok(())
    }
}

impl NodeDisplay for ReturnValue {
    open spec fn printed(&self, f: FormatterView) -> FormatterView {
        let lock1 = LockRelease::Precedence(f.prec);
        let f = FormatterView { prec: Precedence::Normal, ..f };
        let f = self.expression.printed(f);
        let f = f.released(lock1);
        f
    }

    fn fmt(&self, f: &mut NodeFormatter) -> (r: NodeDisplayResult) {
        let lock1 = f.require_precedence(Precedence::Normal);
        let _ = f.node(&self.expression);
        f.release(lock1);
        Ok(())
    }
}

impl NodeDisplay for DebuggerStatement {
    open spec fn printed(&self, f: FormatterView) -> FormatterView {
        let f = f.with_keyword(Keyword::Debugger);
        let f = f.with_punctuator(Punctuator::Semicolon);
        f
    }

    fn fmt(&self, f: &mut NodeFormatter) -> (r: NodeDisplayResult) {
        f.keyword(Keyword::Debugger);
        f.punctuator(Punctuator::Semicolon);
        Ok(())
    }
}

pub open spec fn items_printed(items: Seq<StatementItem>, f: FormatterView) -> FormatterView
    decreases items,
{
    if items.len() == 0 {
        f
    } else {
        item_printed(items.last(), items_printed(items.drop_last(), f))
    }
}

/// One step of printing a list of statements.
proof fn lemma_items_step(items: Seq<StatementItem>, f: FormatterView)
    requires
        items.len() > 0,
    ensures
        items_printed(items, f) == item_printed(items.last(), items_printed(items.drop_last(), f)),
{
    reveal(item_printed);
}

fn print_items(items: &Vec<StatementItem>, f: &mut NodeFormatter)
    ensures
        final(f)@ == items_printed(items@, old(f)@),
    decreases items,
{
    let ghost start = f@;
    let mut i: usize = 0;
    while i < items.len()
        invariant
            i <= items@.len(),
            f@ == items_printed(items@.take(i as int), start),
        decreases items@.len() - i,
    {
            print_item(&items[i], f);
            proof {
                lemma_items_step(items@.take(i + 1), start);
                assert(items@.take(i + 1).drop_last() =~= items@.take(i as int));
                assert(items@.take(i + 1).last() == items@[i as int]);
            }
            i = i + 1;
    }
    proof {
        assert(items@.take(items@.len() as int) =~= items@);
    }
}

#[verifier::opaque]
pub open spec fn item_printed(s: StatementItem, f: FormatterView) -> FormatterView
    decreases s,
{
    match s {
        StatementItem::Block(x) => block_printed(x, f),
        StatementItem::Variable(x) => x.printed(f),
        StatementItem::Empty(x) => x.printed(f),
        StatementItem::Expression(x) => x.printed(f),
        StatementItem::If(x) => if_printed(x, f),
        StatementItem::IfElse(x) => if_else_printed(x, f),
        StatementItem::For(x) => for_printed(x, f),
        StatementItem::ForIn(x) => for_in_printed(x, f),
        StatementItem::ForOf(x) => for_of_printed(x, f),
        StatementItem::ForAwait(x) => for_await_printed(x, f),
        StatementItem::Switch(x) => switch_printed(x, f),
        StatementItem::While(x) => while_printed(x, f),
        StatementItem::DoWhile(x) => do_while_printed(x, f),
        StatementItem::With(x) => with_printed(x, f),
        StatementItem::Labelled(x) => labelled_printed(x, f),
        StatementItem::Continue(x) => x.printed(f),
        StatementItem::Break(x) => x.printed(f),
        StatementItem::Return(x) => x.printed(f),
        StatementItem::Throw(x) => x.printed(f),
        StatementItem::TryCatch(x) => try_catch_printed(x, f),
        StatementItem::TryCatchFinally(x) => try_catch_finally_printed(x, f),
        StatementItem::TryFinally(x) => try_finally_printed(x, f),
        StatementItem::Debugger(x) => x.printed(f),
        StatementItem::Let(x) => x.printed(f),
        StatementItem::Const(x) => x.printed(f),
    }
}

pub fn print_item(s: &StatementItem, f: &mut NodeFormatter)
    ensures
        final(f)@ == item_printed(*s, old(f)@),
    decreases s,
{
    proof {
        reveal(item_printed);
    }
    match s {
        StatementItem::Block(x) => {
            print_block(x, f);
        },
        StatementItem::Variable(x) => {
            let _ = f.node(x);
        },
        StatementItem::Empty(x) => {
            let _ = f.node(x);
        },
        StatementItem::Expression(x) => {
            let _ = f.node(x);
        },
        StatementItem::If(x) => {
            print_if(x, f);
        },
        StatementItem::IfElse(x) => {
            print_if_else(x, f);
        },
        StatementItem::For(x) => {
            print_for(x, f);
        },
        StatementItem::ForIn(x) => {
            print_for_in(x, f);
        },
        StatementItem::ForOf(x) => {
            print_for_of(x, f);
        },
        StatementItem::ForAwait(x) => {
            print_for_await(x, f);
        },
        StatementItem::Switch(x) => {
            print_switch(x, f);
        },
        StatementItem::While(x) => {
            print_while(x, f);
        },
        StatementItem::DoWhile(x) => {
            print_do_while(x, f);
        },
        StatementItem::With(x) => {
            print_with(x, f);
        },
        StatementItem::Labelled(x) => {
            print_labelled(x, f);
        },
        StatementItem::Continue(x) => {
            let _ = f.node(x);
        },
        StatementItem::Break(x) => {
            let _ = f.node(x);
        },
        StatementItem::Return(x) => {
            let _ = f.node(x);
        },
        StatementItem::Throw(x) => {
            let _ = f.node(x);
        },
        StatementItem::TryCatch(x) => {
            print_try_catch(x, f);
        },
        StatementItem::TryCatchFinally(x) => {
            print_try_catch_finally(x, f);
        },
        StatementItem::TryFinally(x) => {
            print_try_finally(x, f);
        },
        StatementItem::Debugger(x) => {
            let _ = f.node(x);
        },
        StatementItem::Let(x) => {
            let _ = f.node(x);
        },
        StatementItem::Const(x) => {
            let _ = f.node(x);
        },
    }
}

pub open spec fn statement_printed(s: Statement, f: FormatterView) -> FormatterView
    decreases s,
{
    match s {
        Statement::Block(x) => block_printed(x, f),
        Statement::Variable(x) => x.printed(f),
        Statement::Empty(x) => x.printed(f),
        Statement::Expression(x) => x.printed(f),
        Statement::If(x) => if_printed(x, f),
        Statement::IfElse(x) => if_else_printed(x, f),
        Statement::For(x) => for_printed(x, f),
        Statement::ForIn(x) => for_in_printed(x, f),
        Statement::ForOf(x) => for_of_printed(x, f),
        Statement::ForAwait(x) => for_await_printed(x, f),
        Statement::Switch(x) => switch_printed(x, f),
        Statement::While(x) => while_printed(x, f),
        Statement::DoWhile(x) => do_while_printed(x, f),
        Statement::With(x) => with_printed(x, f),
        Statement::Labelled(x) => labelled_printed(x, f),
        Statement::Continue(x) => x.printed(f),
        Statement::Break(x) => x.printed(f),
        Statement::Return(x) => x.printed(f),
        Statement::Throw(x) => x.printed(f),
        Statement::TryCatch(x) => try_catch_printed(x, f),
        Statement::TryCatchFinally(x) => try_catch_finally_printed(x, f),
        Statement::TryFinally(x) => try_finally_printed(x, f),
        Statement::Debugger(x) => x.printed(f),
    }
}

pub fn print_statement(s: &Statement, f: &mut NodeFormatter)
    ensures
        final(f)@ == statement_printed(*s, old(f)@),
    decreases s,
{
    match s {
        Statement::Block(x) => {
            print_block(x, f);
        },
        Statement::Variable(x) => {
            let _ = f.node(x);
        },
        Statement::Empty(x) => {
            let _ = f.node(x);
        },
        Statement::Expression(x) => {
            let _ = f.node(x);
        },
        Statement::If(x) => {
            print_if(x, f);
        },
        Statement::IfElse(x) => {
            print_if_else(x, f);
        },
        Statement::For(x) => {
            print_for(x, f);
        },
        Statement::ForIn(x) => {
            print_for_in(x, f);
        },
        Statement::ForOf(x) => {
            print_for_of(x, f);
        },
        Statement::ForAwait(x) => {
            print_for_await(x, f);
        },
        Statement::Switch(x) => {
            print_switch(x, f);
        },
        Statement::While(x) => {
            print_while(x, f);
        },
        Statement::DoWhile(x) => {
            print_do_while(x, f);
        },
        Statement::With(x) => {
            print_with(x, f);
        },
        Statement::Labelled(x) => {
            print_labelled(x, f);
        },
        Statement::Continue(x) => {
            let _ = f.node(x);
        },
        Statement::Break(x) => {
            let _ = f.node(x);
        },
        Statement::Return(x) => {
            let _ = f.node(x);
        },
        Statement::Throw(x) => {
            let _ = f.node(x);
        },
        Statement::TryCatch(x) => {
            print_try_catch(x, f);
        },
        Statement::TryCatchFinally(x) => {
            print_try_catch_finally(x, f);
        },
        Statement::TryFinally(x) => {
            print_try_finally(x, f);
        },
        Statement::Debugger(x) => {
            let _ = f.node(x);
        },
    }
}

pub open spec fn block_printed(s: BlockStatement, f: FormatterView) -> FormatterView
    decreases s,
{
    let (f, lock1) = f.curly_opened();
    let f = items_printed(s.body@, f);
    let f = f.released(lock1);
    f
}

pub fn print_block(s: &BlockStatement, f: &mut NodeFormatter)
    ensures
        final(f)@ == block_printed(*s, old(f)@),
    decreases s,
{
    let lock1 = f.wrap_curly();
    print_items(&s.body, f);
    f.release(lock1);
}

pub open spec fn if_printed(s: IfStatement, f: FormatterView) -> FormatterView
    decreases s,
{
    let (f, lock1) = if f.wrap_standalone_if { f.curly_opened() } else { (f, LockRelease::Nothing) };
    let f = f.with_keyword(Keyword::If);
    let (f, lock2) = f.parens_opened(true);
    let f = s.test.printed(f);
    let f = f.released(lock2);
    let f = statement_printed(*s.consequent, f);
    let f = f.released(lock1);
    f
}

pub fn print_if(s: &IfStatement, f: &mut NodeFormatter)
    ensures
        final(f)@ == if_printed(*s, old(f)@),
    decreases s,
{
    let lock1 = f.wrap_orphan_if();
    f.keyword(Keyword::If);
    let lock2 = f.wrap_parens();
    let _ = f.node(&s.test);
    f.release(lock2);
    print_statement(&s.consequent, f);
    f.release(lock1);
}

pub open spec fn if_else_printed(s: IfElseStatement, f: FormatterView) -> FormatterView
    decreases s,
{
    let f = f.with_keyword(Keyword::If);
    let (f, lock1) = f.parens_opened(true);
    let f = s.test.printed(f);
    let f = f.released(lock1);
    let lock2 = LockRelease::OrphanIf(f.wrap_standalone_if);
    let f = FormatterView { wrap_standalone_if: true, ..f };
    let f = statement_printed(*s.consequent, f);
    let f = f.released(lock2);
    let f = f.with_keyword(Keyword::Else);
    let f = statement_printed(*s.alternate, f);
    f
}

pub fn print_if_else(s: &IfElseStatement, f: &mut NodeFormatter)
    ensures
        final(f)@ == if_else_printed(*s, old(f)@),
    decreases s,
{
    f.keyword(Keyword::If);
    let lock1 = f.wrap_parens();
    let _ = f.node(&s.test);
    f.release(lock1);
    let lock2 = f.disallow_orphan_if();
    print_statement(&s.consequent, f);
    f.release(lock2);
    f.keyword(Keyword::Else);
    print_statement(&s.alternate, f);
}

pub open spec fn for_printed(s: ForStatement, f: FormatterView) -> FormatterView
    decreases s,
{
    let f = f.with_keyword(Keyword::For);
    let (f, lock1) = f.parens_opened(true);
    let f = s.init.printed(f);
    let f = f.with_punctuator(Punctuator::Semicolon);
    let f = s.test.printed(f);
    let f = f.with_punctuator(Punctuator::Semicolon);
    let f = s.update.printed(f);
    let f = f.released(lock1);
    let f = statement_printed(*s.body, f);
    f
}

pub fn print_for(s: &ForStatement, f: &mut NodeFormatter)
    ensures
        final(f)@ == for_printed(*s, old(f)@),
    decreases s,
{
    f.keyword(Keyword::For);
    let lock1 = f.wrap_parens();
    let _ = f.node(&s.init);
    f.punctuator(Punctuator::Semicolon);
    let _ = f.node(&s.test);
    f.punctuator(Punctuator::Semicolon);
    let _ = f.node(&s.update);
    f.release(lock1);
    print_statement(&s.body, f);
}

pub open spec fn for_in_printed(s: ForInStatement, f: FormatterView) -> FormatterView
    decreases s,
{
    let f = f.with_keyword(Keyword::For);
    let (f, lock1) = f.parens_opened(true);
    let lock2 = LockRelease::Lookahead(f.lookahead_restriction);
    let f = FormatterView { lookahead_restriction: Some(LookaheadRestriction::ForInit), ..f };
    let f = s.left.printed(f);
    let f = f.released(lock2);
    let f = f.with_keyword(Keyword::In);
    let f = s.right.printed(f);
    let f = f.released(lock1);
    let f = statement_printed(*s.body, f);
    f
}

pub fn print_for_in(s: &ForInStatement, f: &mut NodeFormatter)
    ensures
        final(f)@ == for_in_printed(*s, old(f)@),
    decreases s,
{
    f.keyword(Keyword::For);
    let lock1 = f.wrap_parens();
    let lock2 = f.restrict_lookahead(LookaheadRestriction::ForInit);
    let _ = f.node(&s.left);
    f.release(lock2);
    f.keyword(Keyword::In);
    let _ = f.node(&s.right);
    f.release(lock1);
    print_statement(&s.body, f);
}

pub open spec fn for_of_printed(s: ForOfStatement, f: FormatterView) -> FormatterView
    decreases s,
{
    let f = f.with_keyword(Keyword::For);
    let (f, lock1) = f.parens_opened(true);
    let lock2 = LockRelease::Lookahead(f.lookahead_restriction);
    let f = FormatterView { lookahead_restriction: Some(LookaheadRestriction::ForOfInit), ..f };
    let f = s.left.printed(f);
    let f = f.released(lock2);
    let f = f.with_keyword(Keyword::Of);
    let f = s.right.printed(f);
    let f = f.released(lock1);
    let f = statement_printed(*s.body, f);
    f
}

pub fn print_for_of(s: &ForOfStatement, f: &mut NodeFormatter)
    ensures
        final(f)@ == for_of_printed(*s, old(f)@),
    decreases s,
{
    f.keyword(Keyword::For);
    let lock1 = f.wrap_parens();
    let lock2 = f.restrict_lookahead(LookaheadRestriction::ForOfInit);
    let _ = f.node(&s.left);
    f.release(lock2);
    f.keyword(Keyword::Of);
    let _ = f.node(&s.right);
    f.release(lock1);
    print_statement(&s.body, f);
}

pub open spec fn for_await_printed(s: ForAwaitStatement, f: FormatterView) -> FormatterView
    decreases s,
{
    let f = f.with_keyword(Keyword::For);
    let f = f.with_keyword(Keyword::Await);
    let (f, lock1) = f.parens_opened(true);
    let lock2 = LockRelease::Lookahead(f.lookahead_restriction);
    let f = FormatterView { lookahead_restriction: Some(LookaheadRestriction::ForOfInit), ..f };
    let f = s.left.printed(f);
    let f = f.released(lock2);
    let f = f.with_keyword(Keyword::Of);
    let f = s.right.printed(f);
    let f = f.released(lock1);
    let f = statement_printed(*s.body, f);
    f
}

pub fn print_for_await(s: &ForAwaitStatement, f: &mut NodeFormatter)
    ensures
        final(f)@ == for_await_printed(*s, old(f)@),
    decreases s,
{
    f.keyword(Keyword::For);
    f.keyword(Keyword::Await);
    let lock1 = f.wrap_parens();
    let lock2 = f.restrict_lookahead(LookaheadRestriction::ForOfInit);
    let _ = f.node(&s.left);
    f.release(lock2);
    f.keyword(Keyword::Of);
    let _ = f.node(&s.right);
    f.release(lock1);
    print_statement(&s.body, f);
}

pub open spec fn switch_printed(s: SwitchStatement, f: FormatterView) -> FormatterView
    decreases s,
{
    let f = f.with_keyword(Keyword::Switch);
    let (f, lock1) = f.parens_opened(true);
    let f = s.discriminant.printed(f);
    let f = f.released(lock1);
    let (f, lock2) = f.curly_opened();
    let f = cases_printed(s.cases@, f);
    let f = f.released(lock2);
    f
}

pub fn print_switch(s: &SwitchStatement, f: &mut NodeFormatter)
    ensures
        final(f)@ == switch_printed(*s, old(f)@),
    decreases s,
{
    f.keyword(Keyword::Switch);
    let lock1 = f.wrap_parens();
    let _ = f.node(&s.discriminant);
    f.release(lock1);
    let lock2 = f.wrap_curly();
    print_cases(&s.cases, f);
    f.release(lock2);
}

pub open spec fn cases_printed(cases: Seq<SwitchCase>, f: FormatterView) -> FormatterView
    decreases cases,
{
    if cases.len() == 0 {
        f
    } else {
        case_printed(cases.last(), cases_printed(cases.drop_last(), f))
    }
}

/// One step of printing a list of cases.
proof fn lemma_cases_step(cases: Seq<SwitchCase>, f: FormatterView)
    requires
        cases.len() > 0,
    ensures
        cases_printed(cases, f) == case_printed(cases.last(), cases_printed(cases.drop_last(), f)),
{
    reveal(case_printed);
}

fn print_cases(cases: &Vec<SwitchCase>, f: &mut NodeFormatter)
    ensures
        final(f)@ == cases_printed(cases@, old(f)@),
    decreases cases,
{
    let ghost start = f@;
    let mut i: usize = 0;
    while i < cases.len()
        invariant
            i <= cases@.len(),
            f@ == cases_printed(cases@.take(i as int), start),
        decreases cases@.len() - i,
    {
        print_case(&cases[i], f);
        proof {
            lemma_cases_step(cases@.take(i + 1), start);
            assert(cases@.take(i + 1).drop_last() =~= cases@.take(i as int));
            assert(cases@.take(i + 1).last() == cases@[i as int]);
        }
        i = i + 1;
    }
    proof {
        assert(cases@.take(cases@.len() as int) =~= cases@);
    }
}

#[verifier::opaque]
pub open spec fn case_printed(c: SwitchCase, f: FormatterView) -> FormatterView
    decreases c,
{
    let f = match c.test {
        Some(test) => {
            let f = f.with_keyword(Keyword::Case);
            let lock1 = LockRelease::Precedence(f.prec);
            test.printed(FormatterView { prec: Precedence::Normal, ..f }).released(lock1)
        },
        None => f.with_keyword(Keyword::Default),
    };
    let f = f.with_punctuator(Punctuator::Colon);
    let f = items_printed(c.consequent@, f);
    f
}

pub fn print_case(c: &SwitchCase, f: &mut NodeFormatter)
    ensures
        final(f)@ == case_printed(*c, old(f)@),
    decreases c,
{
    proof {
        reveal(case_printed);
    }
    match &c.test {
        Some(test) => {
            f.keyword(Keyword::Case);
            let lock1 = f.require_precedence(Precedence::Normal);
            let _ = f.node(test);
            f.release(lock1);
        },
        None => {
            f.keyword(Keyword::Default);
        },
    }
    f.punctuator(Punctuator::Colon);
    print_items(&c.consequent, f);
}

pub open spec fn while_printed(s: WhileStatement, f: FormatterView) -> FormatterView
    decreases s,
{
    let f = f.with_keyword(Keyword::While);
    let (f, lock1) = f.parens_opened(true);
    let f = s.test.printed(f);
    let f = f.released(lock1);
    let f = statement_printed(*s.body, f);
    f
}

pub fn print_while(s: &WhileStatement, f: &mut NodeFormatter)
    ensures
        final(f)@ == while_printed(*s, old(f)@),
    decreases s,
{
    f.keyword(Keyword::While);
    let lock1 = f.wrap_parens();
    let _ = f.node(&s.test);
    f.release(lock1);
    print_statement(&s.body, f);
}

pub open spec fn do_while_printed(s: DoWhileStatement, f: FormatterView) -> FormatterView
    decreases s,
{
    let f = f.with_keyword(Keyword::Do);
    let f = statement_printed(*s.body, f);
    let f = f.with_keyword(Keyword::While);
    let (f, lock1) = f.parens_opened(true);
    let f = s.test.printed(f);
    let f = f.released(lock1);
    let f = f.with_punctuator(Punctuator::Semicolon);
    f
}

pub fn print_do_while(s: &DoWhileStatement, f: &mut NodeFormatter)
    ensures
        final(f)@ == do_while_printed(*s, old(f)@),
    decreases s,
{
    f.keyword(Keyword::Do);
    print_statement(&s.body, f);
    f.keyword(Keyword::While);
    let lock1 = f.wrap_parens();
    let _ = f.node(&s.test);
    f.release(lock1);
    f.punctuator(Punctuator::Semicolon);
}

pub open spec fn with_printed(s: WithStatement, f: FormatterView) -> FormatterView
    decreases s,
{
    let f = f.with_keyword(Keyword::With);
    let (f, lock1) = f.parens_opened(true);
    let f = s.object.printed(f);
    let f = f.released(lock1);
    let f = statement_printed(*s.body, f);
    f
}

pub fn print_with(s: &WithStatement, f: &mut NodeFormatter)
    ensures
        final(f)@ == with_printed(*s, old(f)@),
    decreases s,
{
    f.keyword(Keyword::With);
    let lock1 = f.wrap_parens();
    let _ = f.node(&s.object);
    f.release(lock1);
    print_statement(&s.body, f);
}

pub open spec fn labelled_printed(s: LabelledStatement, f: FormatterView) -> FormatterView
    decreases s,
{
    let f = s.label.printed(f);
    let f = f.with_punctuator(Punctuator::Colon);
    let f = statement_printed(*s.body, f);
    f
}

pub fn print_labelled(s: &LabelledStatement, f: &mut NodeFormatter)
    ensures
        final(f)@ == labelled_printed(*s, old(f)@),
    decreases s,
{
    let _ = f.node(&s.label);
    f.punctuator(Punctuator::Colon);
    print_statement(&s.body, f);
}

pub open spec fn try_catch_printed(s: TryCatchStatement, f: FormatterView) -> FormatterView
    decreases s,
{
    let f = f.with_keyword(Keyword::Try);
    let f = block_printed(s.body, f);
    let f = catch_printed(s.catch, f);
    f
}

pub fn print_try_catch(s: &TryCatchStatement, f: &mut NodeFormatter)
    ensures
        final(f)@ == try_catch_printed(*s, old(f)@),
    decreases s,
{
    f.keyword(Keyword::Try);
    print_block(&s.body, f);
    print_catch(&s.catch, f);
}

pub open spec fn try_catch_finally_printed(s: TryCatchFinallyStatement, f: FormatterView) -> FormatterView
    decreases s,
{
    let f = f.with_keyword(Keyword::Try);
    let f = block_printed(s.body, f);
    let f = catch_printed(s.catch, f);
    let f = f.with_keyword(Keyword::Finally);
    let f = block_printed(s.finalizer, f);
    f
}

pub fn print_try_catch_finally(s: &TryCatchFinallyStatement, f: &mut NodeFormatter)
    ensures
        final(f)@ == try_catch_finally_printed(*s, old(f)@),
    decreases s,
{
    f.keyword(Keyword::Try);
    print_block(&s.body, f);
    print_catch(&s.catch, f);
    f.keyword(Keyword::Finally);
    print_block(&s.finalizer, f);
}

pub open spec fn try_finally_printed(s: TryFinallyStatement, f: FormatterView) -> FormatterView
    decreases s,
{
    let f = f.with_keyword(Keyword::Try);
    let f = block_printed(s.body, f);
    let f = f.with_keyword(Keyword::Finally);
    let f = block_printed(s.finalizer, f);
    f
}

pub fn print_try_finally(s: &TryFinallyStatement, f: &mut NodeFormatter)
    ensures
        final(f)@ == try_finally_printed(*s, old(f)@),
    decreases s,
{
    f.keyword(Keyword::Try);
    print_block(&s.body, f);
    f.keyword(Keyword::Finally);
    print_block(&s.finalizer, f);
}

pub open spec fn catch_printed(s: CatchClause, f: FormatterView) -> FormatterView
    decreases s,
{
    let f = f.with_keyword(Keyword::Catch);
    let f = s.param.printed(f);
    let f = block_printed(s.body, f);
    f
}

pub fn print_catch(s: &CatchClause, f: &mut NodeFormatter)
    ensures
        final(f)@ == catch_printed(*s, old(f)@),
    decreases s,
{
    f.keyword(Keyword::Catch);
    let _ = f.node(&s.param);
    print_block(&s.body, f);
}

impl NodeDisplay for BlockStatement {
    open spec fn printed(&self, f: FormatterView) -> FormatterView {
        block_printed(*self, f)
    }

    fn fmt(&self, f: &mut NodeFormatter) -> (r: NodeDisplayResult) {
        print_block(self, f);
        Ok(())
    }
}

impl NodeDisplay for IfStatement {
    open spec fn printed(&self, f: FormatterView) -> FormatterView {
        if_printed(*self, f)
    }

    fn fmt(&self, f: &mut NodeFormatter) -> (r: NodeDisplayResult) {
        print_if(self, f);
        Ok(())
    }
}

impl NodeDisplay for IfElseStatement {
    open spec fn printed(&self, f: FormatterView) -> FormatterView {
        if_else_printed(*self, f)
    }

    fn fmt(&self, f: &mut NodeFormatter) -> (r: NodeDisplayResult) {
        print_if_else(self, f);
        Ok(())
    }
}

impl NodeDisplay for WhileStatement {
    open spec fn printed(&self, f: FormatterView) -> FormatterView {
        while_printed(*self, f)
    }

    fn fmt(&self, f: &mut NodeFormatter) -> (r: NodeDisplayResult) {
        print_while(self, f);
        Ok(())
    }
}

impl NodeDisplay for DoWhileStatement {
    open spec fn printed(&self, f: FormatterView) -> FormatterView {
        do_while_printed(*self, f)
    }

    fn fmt(&self, f: &mut NodeFormatter) -> (r: NodeDisplayResult) {
        print_do_while(self, f);
        Ok(())
    }
}

impl NodeDisplay for WithStatement {
    open spec fn printed(&self, f: FormatterView) -> FormatterView {
        with_printed(*self, f)
    }

    fn fmt(&self, f: &mut NodeFormatter) -> (r: NodeDisplayResult) {
        print_with(self, f);
        Ok(())
    }
}

impl NodeDisplay for LabelledStatement {
    open spec fn printed(&self, f: FormatterView) -> FormatterView {
        labelled_printed(*self, f)
    }

    fn fmt(&self, f: &mut NodeFormatter) -> (r: NodeDisplayResult) {
        print_labelled(self, f);
        Ok(())
    }
}

impl NodeDisplay for TryCatchStatement {
    open spec fn printed(&self, f: FormatterView) -> FormatterView {
        try_catch_printed(*self, f)
    }

    fn fmt(&self, f: &mut NodeFormatter) -> (r: NodeDisplayResult) {
        print_try_catch(self, f);
        Ok(())
    }
}

impl NodeDisplay for TryCatchFinallyStatement {
    open spec fn printed(&self, f: FormatterView) -> FormatterView {
        try_catch_finally_printed(*self, f)
    }

    fn fmt(&self, f: &mut NodeFormatter) -> (r: NodeDisplayResult) {
        print_try_catch_finally(self, f);
        Ok(())
    }
}

impl NodeDisplay for TryFinallyStatement {
    open spec fn printed(&self, f: FormatterView) -> FormatterView {
        try_finally_printed(*self, f)
    }

    fn fmt(&self, f: &mut NodeFormatter) -> (r: NodeDisplayResult) {
        print_try_finally(self, f);
        Ok(())
    }
}

impl NodeDisplay for CatchClause {
    open spec fn printed(&self, f: FormatterView) -> FormatterView {
        catch_printed(*self, f)
    }

    fn fmt(&self, f: &mut NodeFormatter) -> (r: NodeDisplayResult) {
        print_catch(self, f);
        Ok(())
    }
}

impl NodeDisplay for ForStatement {
    open spec fn printed(&self, f: FormatterView) -> FormatterView {
        for_printed(*self, f)
    }

    fn fmt(&self, f: &mut NodeFormatter) -> (r: NodeDisplayResult) {
        print_for(self, f);
        Ok(())
    }
}

impl NodeDisplay for ForInStatement {
    open spec fn printed(&self, f: FormatterView) -> FormatterView {
        for_in_printed(*self, f)
    }

    fn fmt(&self, f: &mut NodeFormatter) -> (r: NodeDisplayResult) {
        print_for_in(self, f);
        Ok(())
    }
}

impl NodeDisplay for ForOfStatement {
    open spec fn printed(&self, f: FormatterView) -> FormatterView {
        for_of_printed(*self, f)
    }

    fn fmt(&self, f: &mut NodeFormatter) -> (r: NodeDisplayResult) {
        print_for_of(self, f);
        Ok(())
    }
}

impl NodeDisplay for ForAwaitStatement {
    open spec fn printed(&self, f: FormatterView) -> FormatterView {
        for_await_printed(*self, f)
    }

    fn fmt(&self, f: &mut NodeFormatter) -> (r: NodeDisplayResult) {
        print_for_await(self, f);
        Ok(())
    }
}

impl NodeDisplay for SwitchStatement {
    open spec fn printed(&self, f: FormatterView) -> FormatterView {
        switch_printed(*self, f)
    }

    fn fmt(&self, f: &mut NodeFormatter) -> (r: NodeDisplayResult) {
        print_switch(self, f);
        Ok(())
    }
}

impl NodeDisplay for SwitchCase {
    open spec fn printed(&self, f: FormatterView) -> FormatterView {
        case_printed(*self, f)
    }

    fn fmt(&self, f: &mut NodeFormatter) -> (r: NodeDisplayResult) {
        print_case(self, f);
        Ok(())
    }
}

impl Default for ForStatement {
    /// `for(;;);`
    fn default() -> (s: ForStatement)
        ensures
            s.init is None,
            s.test is None,
            s.update is None,
            *s.body == Statement::Empty(EmptyStatement { position: None }),
            s.position is None,
    {
        ForStatement {
            init: None,
            test: None,
            update: None,
            body: Box::new(Statement::Empty(EmptyStatement { position: None })),
            position: None,
        }
    }
}

impl Default for BlockStatement {
    fn default() -> (s: BlockStatement)
        ensures
            s.body@.len() == 0,
            s.position is None,
    {
        BlockStatement { body: Vec::new(), position: None }
    }
}

impl Default for EmptyStatement {
    fn default() -> (s: EmptyStatement)
        ensures
            s.position is None,
    {
        EmptyStatement { position: None }
    }
}

impl Default for DebuggerStatement {
    fn default() -> (s: DebuggerStatement)
        ensures
            s.position is None,
    {
        DebuggerStatement { position: None }
    }
}

impl Default for ContinueStatement {
    fn default() -> (s: ContinueStatement)
        ensures
            s.label is None,
            s.position is None,
    {
        ContinueStatement { label: None, position: None }
    }
}

impl Default for BreakStatement {
    fn default() -> (s: BreakStatement)
        ensures
            s.label is None,
            s.position is None,
    {
        BreakStatement { label: None, position: None }
    }
}

impl Default for ReturnStatement {
    fn default() -> (s: ReturnStatement)
        ensures
            s.value is None,
            s.position is None,
    {
        ReturnStatement { value: None, position: None }
    }
}

impl Default for CatchClause {
    fn default() -> (s: CatchClause)
        ensures
            s.param is None,
            s.body.body@.len() == 0,
            s.body.position is None,
            s.position is None,
    {
        CatchClause { param: None, body: BlockStatement::default(), position: None }
    }
}

impl Default for TryCatchStatement {
    fn default() -> (s: TryCatchStatement)
        ensures
            s.body.body@.len() == 0,
            s.body.position is None,
            s.catch.param is None,
            s.catch.body.body@.len() == 0,
            s.catch.body.position is None,
            s.catch.position is None,
            s.position is None,
    {
        TryCatchStatement { body: BlockStatement::default(), catch: CatchClause::default(), position: None }
    }
}

impl Default for TryCatchFinallyStatement {
    fn default() -> (s: TryCatchFinallyStatement)
        ensures
            s.body.body@.len() == 0,
            s.body.position is None,
            s.catch.param is None,
            s.catch.body.body@.len() == 0,
            s.catch.body.position is None,
            s.catch.position is None,
            s.finalizer.body@.len() == 0,
            s.finalizer.position is None,
            s.position is None,
    {
        TryCatchFinallyStatement { body: BlockStatement::default(), catch: CatchClause::default(), finalizer: BlockStatement::default(), position: None }
    }
}

impl Default for TryFinallyStatement {
    fn default() -> (s: TryFinallyStatement)
        ensures
            s.body.body@.len() == 0,
            s.body.position is None,
            s.finalizer.body@.len() == 0,
            s.finalizer.position is None,
            s.position is None,
    {
        TryFinallyStatement { body: BlockStatement::default(), finalizer: BlockStatement::default(), position: None }
    }
}


/// Printing an empty statement ends with `;`, whatever it holds.
pub proof fn law_empty_statement_ends_with_semicolon(e: EmptyStatement, f: FormatterView)
    ensures
        ({
            let out = e.printed(f).output;
            out.len() >= 1 && out[out.len() - 1] == ';'
        }),
{
    reveal_strlit(";");
}

/// Printing an expression statement ends with `;`, whatever it holds.
pub proof fn law_expression_statement_ends_with_semicolon(e: ExpressionStatement, f: FormatterView)
    ensures
        ({
            let out = e.printed(f).output;
            out.len() >= 1 && out[out.len() - 1] == ';'
        }),
{
    reveal_strlit(";");
}

/// Printing `continue` ends with `;`, whatever it holds.
pub proof fn law_continue_statement_ends_with_semicolon(e: ContinueStatement, f: FormatterView)
    ensures
        ({
            let out = e.printed(f).output;
            out.len() >= 1 && out[out.len() - 1] == ';'
        }),
{
    reveal_strlit(";");
}

/// Printing `break` ends with `;`, whatever it holds.
pub proof fn law_break_statement_ends_with_semicolon(e: BreakStatement, f: FormatterView)
    ensures
        ({
            let out = e.printed(f).output;
            out.len() >= 1 && out[out.len() - 1] == ';'
        }),
{
    reveal_strlit(";");
}

/// Printing `return` ends with `;`, whatever it holds.
pub proof fn law_return_statement_ends_with_semicolon(e: ReturnStatement, f: FormatterView)
    ensures
        ({
            let out = e.printed(f).output;
            out.len() >= 1 && out[out.len() - 1] == ';'
        }),
{
    reveal_strlit(";");
}

/// Printing `debugger` ends with `;`, whatever it holds.
pub proof fn law_debugger_statement_ends_with_semicolon(e: DebuggerStatement, f: FormatterView)
    ensures
        ({
            let out = e.printed(f).output;
            out.len() >= 1 && out[out.len() - 1] == ';'
        }),
{
    reveal_strlit(";");
}







} // verus!
