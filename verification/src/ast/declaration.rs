//! `var`, `let` and `const` declarations and their lists of declarators.

use vstd::prelude::*;
use crate::ast::NodePosition;
use crate::ast::alias::Expression;
use crate::ast::patterns::{BindingPattern, LeftHandComplexAssign};
use crate::ast::display::{
    NodeDisplay, NodeFormatter, NodeDisplayResult, FormatterView, Keyword, LockRelease, Precedence,
    Punctuator, LookaheadRestriction,
};

verus! {

/// One or more declarators, printed with commas between them.
#[derive(Debug)]
pub enum DeclaratorList<T: NodeDisplay> {
    Last(T),
    List(T, Box<DeclaratorList<T>>),
}

/// The formatter after the declarators of `l` are printed from `f`: each
/// declarator, with a comma after each but the last.
pub open spec fn list_printed<T: NodeDisplay>(l: &DeclaratorList<T>, f: FormatterView) -> FormatterView
    decreases l,
{
    match l {
        DeclaratorList::Last(n) => n.printed(f),
        DeclaratorList::List(n, rest) => list_printed(&**rest, n.printed(f).with_punctuator(Punctuator::Comma)),
    }
}

/// Prints the declarators of `l`.
pub fn fmt_list<T: NodeDisplay>(l: &DeclaratorList<T>, f: &mut NodeFormatter) -> (r: NodeDisplayResult)
    ensures
        r is Ok,
        final(f)@ == list_printed(l, old(f)@),
    decreases l,
{
    match l {
        DeclaratorList::Last(n) => f.node(n),
        DeclaratorList::List(n, rest) => {
            let _ = f.node(n);
            f.punctuator(Punctuator::Comma);
            fmt_list(&**rest, f)
        },
    }
}

impl<T: NodeDisplay> NodeDisplay for DeclaratorList<T> {
    open spec fn printed(&self, f: FormatterView) -> FormatterView {
        list_printed(self, f)
    }

    fn fmt(&self, f: &mut NodeFormatter) -> (r: NodeDisplayResult) {
        fmt_list(self, f)
    }
}

/// `var`, its declarators and `;`.
#[derive(Debug)]
pub struct VariableStatement {
    pub declarations: DeclaratorList<VariableDeclarator>,
    pub position: Option<Box<NodePosition>>,
}

impl NodeDisplay for VariableStatement {
    open spec fn printed(&self, f: FormatterView) -> FormatterView {
        self.declarations.printed(f.with_keyword(Keyword::Var)).with_punctuator(Punctuator::Semicolon)
    }

    fn fmt(&self, f: &mut NodeFormatter) -> (r: NodeDisplayResult) {
        f.keyword(Keyword::Var);
        let _ = f.node(&self.declarations);
        f.punctuator(Punctuator::Semicolon);
        Ok(())
    }
}

/// A pattern with an optional initializer, in a `var` statement.
#[derive(Debug)]
pub struct VariableDeclarator {
    pub id: BindingPattern,
    pub init: Option<Box<Expression>>,
    pub position: Option<Box<NodePosition>>,
}

impl NodeDisplay for VariableDeclarator {
    open spec fn printed(&self, f: FormatterView) -> FormatterView {
        let f = self.id.printed(f);
        match self.init {
            Some(init) => {
                let f = f.with_punctuator(Punctuator::Eq);
                let lock = LockRelease::Precedence(f.prec);
                init.printed(FormatterView { prec: Precedence::Assignment, ..f }).released(lock)
            },
            None => f,
        }
    }

    fn fmt(&self, f: &mut NodeFormatter) -> (r: NodeDisplayResult) {
        let _ = f.node(&self.id);
        match &self.init {
            Some(init) => {
                f.punctuator(Punctuator::Eq);
                let lock = f.require_precedence(Precedence::Assignment);
                let _ = f.node(init);
                f.release(lock);
            },
            None => {},
        }
        Ok(())
    }
}

/// `let`, its declarators and `;`.
#[derive(Debug)]
pub struct LetDeclaration {
    pub declarators: DeclaratorList<LetDeclarator>,
    pub position: Option<Box<NodePosition>>,
}

impl NodeDisplay for LetDeclaration {
    open spec fn printed(&self, f: FormatterView) -> FormatterView {
        self.declarators.printed(f.with_keyword(Keyword::Let)).with_punctuator(Punctuator::Semicolon)
    }

    fn fmt(&self, f: &mut NodeFormatter) -> (r: NodeDisplayResult) {
        f.keyword(Keyword::Let);
        let _ = f.node(&self.declarators);
        f.punctuator(Punctuator::Semicolon);
        Ok(())
    }
}

/// A pattern with an optional initializer, in a `let` declaration.
#[derive(Debug)]
pub struct LetDeclarator {
    pub id: BindingPattern,
    pub init: Option<Box<Expression>>,
    pub position: Option<Box<NodePosition>>,
}

impl NodeDisplay for LetDeclarator {
    open spec fn printed(&self, f: FormatterView) -> FormatterView {
        let f = self.id.printed(f);
        match self.init {
            Some(init) => {
                let f = f.with_punctuator(Punctuator::Eq);
                let lock = LockRelease::Precedence(f.prec);
                init.printed(FormatterView { prec: Precedence::Assignment, ..f }).released(lock)
            },
            None => f,
        }
    }

    fn fmt(&self, f: &mut NodeFormatter) -> (r: NodeDisplayResult) {
        let _ = f.node(&self.id);
        match &self.init {
            Some(init) => {
                f.punctuator(Punctuator::Eq);
                let lock = f.require_precedence(Precedence::Assignment);
                let _ = f.node(init);
                f.release(lock);
            },
            None => {},
        }
        Ok(())
    }
}

/// `const`, its declarators and `;`.
#[derive(Debug)]
pub struct ConstDeclaration {
    pub declarators: DeclaratorList<ConstDeclarator>,
    pub position: Option<Box<NodePosition>>,
}

impl NodeDisplay for ConstDeclaration {
    open spec fn printed(&self, f: FormatterView) -> FormatterView {
        self.declarators.printed(f.with_keyword(Keyword::Const)).with_punctuator(Punctuator::Semicolon)
    }

    fn fmt(&self, f: &mut NodeFormatter) -> (r: NodeDisplayResult) {
        f.keyword(Keyword::Const);
        let _ = f.node(&self.declarators);
        f.punctuator(Punctuator::Semicolon);
        Ok(())
    }
}

/// A pattern with its initializer, in a `const` declaration.
#[derive(Debug)]
pub struct ConstDeclarator {
    pub id: BindingPattern,
    pub init: Box<Expression>,
    pub position: Option<Box<NodePosition>>,
}

impl NodeDisplay for ConstDeclarator {
    open spec fn printed(&self, f: FormatterView) -> FormatterView {
        let f = self.id.printed(f).with_punctuator(Punctuator::Eq);
        let lock = LockRelease::Precedence(f.prec);
        self.init.printed(FormatterView { prec: Precedence::Assignment, ..f }).released(lock)
    }

    fn fmt(&self, f: &mut NodeFormatter) -> (r: NodeDisplayResult) {
        let _ = f.node(&self.id);
        f.punctuator(Punctuator::Eq);
        let lock = f.require_precedence(Precedence::Assignment);
        let _ = f.node(&self.init);
        f.release(lock);
        Ok(())
    }
}

/// What stands before the first `;` in the head of a `for` statement.
#[derive(Debug)]
pub enum ForInit {
    Var(VariableStatement),
    Let(LetDeclaration),
    Const(ConstDeclaration),
    Expression(Expression),
}

impl NodeDisplay for ForInit {
    /// The initializer, printed where it may not begin with `let [` and
    /// where the `in` operator is parenthesized.
    open spec fn printed(&self, f: FormatterView) -> FormatterView {
        let lock1 = LockRelease::Lookahead(f.lookahead_restriction);
        let f = FormatterView { lookahead_restriction: Some(LookaheadRestriction::ForInit), ..f };
        let lock2 = LockRelease::InOperator(f.in_operator);
        let f = FormatterView { in_operator: false, ..f };
        let f = match self {
            ForInit::Var(n) => n.printed(f),
            ForInit::Let(n) => n.printed(f),
            ForInit::Const(n) => n.printed(f),
            ForInit::Expression(n) => n.printed(f),
        };
        f.released(lock2).released(lock1)
    }

    fn fmt(&self, f: &mut NodeFormatter) -> (r: NodeDisplayResult) {
        let lock1 = f.restrict_lookahead(LookaheadRestriction::ForInit);
        let lock2 = f.disallow_in();
        match self {
            ForInit::Var(n) => {
                let _ = f.node(n);
            },
            ForInit::Let(n) => {
                let _ = f.node(n);
            },
            ForInit::Const(n) => {
                let _ = f.node(n);
            },
            ForInit::Expression(n) => {
                let _ = f.node(n);
            },
        }
        f.release(lock2);
        f.release(lock1);
        Ok(())
    }
}

/// `var pattern`, with an optional initializer, before `in`.
#[derive(Debug)]
pub struct ForInVarPattern {
    pub pattern: BindingPattern,
    pub init: Option<Box<Expression>>,
    pub position: Option<Box<NodePosition>>,
}

impl NodeDisplay for ForInVarPattern {
    open spec fn printed(&self, f: FormatterView) -> FormatterView {
        let f = self.pattern.printed(f.with_keyword(Keyword::Var));
        match self.init {
            Some(init) => {
                let f = f.with_punctuator(Punctuator::Eq);
                let lock = LockRelease::Precedence(f.prec);
                init.printed(FormatterView { prec: Precedence::Assignment, ..f }).released(lock)
            },
            None => f,
        }
    }

    fn fmt(&self, f: &mut NodeFormatter) -> (r: NodeDisplayResult) {
        f.keyword(Keyword::Var);
        let _ = f.node(&self.pattern);
        match &self.init {
            Some(init) => {
                f.punctuator(Punctuator::Eq);
                let lock = f.require_precedence(Precedence::Assignment);
                let _ = f.node(init);
                f.release(lock);
            },
            None => {},
        }
        Ok(())
    }
}

/// `var pattern` before `of`.
#[derive(Debug)]
pub struct ForVarPattern {
    pub pattern: BindingPattern,
    pub position: Option<Box<NodePosition>>,
}

impl NodeDisplay for ForVarPattern {
    open spec fn printed(&self, f: FormatterView) -> FormatterView {
        self.pattern.printed(f.with_keyword(Keyword::Var))
    }

    fn fmt(&self, f: &mut NodeFormatter) -> (r: NodeDisplayResult) {
        f.keyword(Keyword::Var);
        f.node(&self.pattern)
    }
}

/// `let pattern` before `in` or `of`.
#[derive(Debug)]
pub struct ForLetPattern {
    pub pattern: BindingPattern,
    pub position: Option<Box<NodePosition>>,
}

impl NodeDisplay for ForLetPattern {
    open spec fn printed(&self, f: FormatterView) -> FormatterView {
        self.pattern.printed(f.with_keyword(Keyword::Let))
    }

    fn fmt(&self, f: &mut NodeFormatter) -> (r: NodeDisplayResult) {
        f.keyword(Keyword::Let);
        f.node(&self.pattern)
    }
}

/// `const pattern` before `in` or `of`.
#[derive(Debug)]
pub struct ForConstPattern {
    pub pattern: BindingPattern,
    pub position: Option<Box<NodePosition>>,
}

impl NodeDisplay for ForConstPattern {
    open spec fn printed(&self, f: FormatterView) -> FormatterView {
        self.pattern.printed(f.with_keyword(Keyword::Const))
    }

    fn fmt(&self, f: &mut NodeFormatter) -> (r: NodeDisplayResult) {
        f.keyword(Keyword::Const);
        f.node(&self.pattern)
    }
}

/// What stands before `in` in the head of a `for` statement.
#[derive(Debug)]
pub enum ForInInit {
    Var(ForInVarPattern),
    Let(ForLetPattern),
    Const(ForConstPattern),
    Complex(LeftHandComplexAssign),
}

impl NodeDisplay for ForInInit {
    open spec fn printed(&self, f: FormatterView) -> FormatterView {
        match self {
            ForInInit::Var(n) => n.printed(f),
            ForInInit::Let(n) => n.printed(f),
            ForInInit::Const(n) => n.printed(f),
            ForInInit::Complex(n) => n.printed(f),
        }
    }

    fn fmt(&self, f: &mut NodeFormatter) -> (r: NodeDisplayResult) {
        match self {
            ForInInit::Var(n) => f.node(n),
            ForInInit::Let(n) => f.node(n),
            ForInInit::Const(n) => f.node(n),
            ForInInit::Complex(n) => f.node(n),
        }
    }
}

/// What stands before `of` in the head of a `for` statement.
#[derive(Debug)]
pub enum ForOfInit {
    Var(ForVarPattern),
    Let(ForLetPattern),
    Const(ForConstPattern),
    Complex(LeftHandComplexAssign),
}

impl NodeDisplay for ForOfInit {
    open spec fn printed(&self, f: FormatterView) -> FormatterView {
        match self {
            ForOfInit::Var(n) => n.printed(f),
            ForOfInit::Let(n) => n.printed(f),
            ForOfInit::Const(n) => n.printed(f),
            ForOfInit::Complex(n) => n.printed(f),
        }
    }

    fn fmt(&self, f: &mut NodeFormatter) -> (r: NodeDisplayResult) {
        match self {
            ForOfInit::Var(n) => f.node(n),
            ForOfInit::Let(n) => f.node(n),
            ForOfInit::Const(n) => f.node(n),
            ForOfInit::Complex(n) => f.node(n),
        }
    }
}





} // verus!
