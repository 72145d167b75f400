//! The roots of a syntax tree: a script and a module.

use vstd::prelude::*;
use crate::ast::NodePosition;
use crate::ast::alias::{ModuleStatementItem, StatementItem};
use crate::ast::functions::Directive;
use crate::ast::display::{NodeDisplay, NodeFormatter, NodeDisplayResult, FormatterView, LockRelease, printed_all};

verus! {

/// A whole script or a whole module.
#[derive(Debug)]
pub enum Ast {
    Script(Script),
    Module(Module),
}

impl NodeDisplay for Ast {
    open spec fn printed(&self, f: FormatterView) -> FormatterView {
        match self {
            Ast::Script(n) => n.printed(f),
            Ast::Module(n) => n.printed(f),
        }
    }

    fn fmt(&self, f: &mut NodeFormatter) -> (r: NodeDisplayResult) {
        match self {
            Ast::Script(n) => f.node(n),
            Ast::Module(n) => f.node(n),
        }
    }
}

/// A script: its directives, then its statements, with `in` allowed.
#[derive(Debug)]
pub struct Script {
    pub directives: Vec<Directive>,
    pub body: Vec<StatementItem>,
    pub position: Option<Box<NodePosition>>,
}

impl NodeDisplay for Script {
    open spec fn printed(&self, f: FormatterView) -> FormatterView {
        let lock1 = LockRelease::InOperator(f.in_operator);
        let f = FormatterView { in_operator: true, ..f };
        let f = printed_all(self.directives@, f);
        let f = printed_all(self.body@, f);
        f.released(lock1)
    }

    fn fmt(&self, f: &mut NodeFormatter) -> (r: NodeDisplayResult) {
        let lock1 = f.allow_in();
        let _ = f.node_list(self.directives.as_slice());
        let _ = f.node_list(self.body.as_slice());
        f.release(lock1);
        Ok(())
    }
}

impl Default for Script {
    fn default() -> (s: Script)
        ensures
            s.directives@.len() == 0,
            s.body@.len() == 0,
            s.position is None,
    {
        Script { directives: Vec::new(), body: Vec::new(), position: None }
    }
}

/// A module: its directives, then its items, with `in` allowed.
#[derive(Debug)]
pub struct Module {
    pub directives: Vec<Directive>,
    pub body: Vec<ModuleStatementItem>,
    pub position: Option<Box<NodePosition>>,
}

impl NodeDisplay for Module {
    open spec fn printed(&self, f: FormatterView) -> FormatterView {
        let lock1 = LockRelease::InOperator(f.in_operator);
        let f = FormatterView { in_operator: true, ..f };
        let f = printed_all(self.directives@, f);
        let f = printed_all(self.body@, f);
        f.released(lock1)
    }

    fn fmt(&self, f: &mut NodeFormatter) -> (r: NodeDisplayResult) {
        let lock1 = f.allow_in();
        let _ = f.node_list(self.directives.as_slice());
        let _ = f.node_list(self.body.as_slice());
        f.release(lock1);
        Ok(())
    }
}

impl Default for Module {
    fn default() -> (m: Module)
        ensures
            m.directives@.len() == 0,
            m.body@.len() == 0,
            m.position is None,
    {
        Module { directives: Vec::new(), body: Vec::new(), position: None }
    }
}

} // verus!
