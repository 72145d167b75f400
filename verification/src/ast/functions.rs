//! Functions: directives, parameters, bodies and declarations.

use vstd::prelude::*;
use crate::ast::NodePosition;
use crate::ast::alias::{Expression, StatementItem};
use crate::ast::general::BindingIdentifier;
use crate::ast::patterns::BindingPattern;
use crate::ast::display::{
    NodeDisplay, NodeFormatter, NodeDisplayResult, FormatterView, Keyword, Punctuator, Precedence,
    LockRelease, printed_all,
};

verus! {

/// A directive such as `'use strict';`.
#[derive(Debug)]
pub struct Directive {
    pub value: DirectiveLiteral,
    pub position: Option<Box<NodePosition>>,
}

impl NodeDisplay for Directive {
    open spec fn printed(&self, f: FormatterView) -> FormatterView {
        let f = self.value.printed(f);
        let f = f.with_punctuator(Punctuator::Semicolon);
        f
    }

    fn fmt(&self, f: &mut NodeFormatter) -> (r: NodeDisplayResult) {
        let _ = f.node(&self.value);
        f.punctuator(Punctuator::Semicolon);
        Ok(())
    }
}

impl Directive {
    pub fn from(v: &str) -> (d: Directive)
        ensures
            d.value.value@ == v@,
            d.value.position is None,
            d.position is None,
    {
        Directive { value: DirectiveLiteral::from(v), position: None }
    }
}

/// The string of a directive, printed exactly as it was written.
#[derive(Debug)]
pub struct DirectiveLiteral {
    pub value: String,
    pub position: Option<Box<NodePosition>>,
}

impl DirectiveLiteral {
    pub fn from(v: &str) -> (d: DirectiveLiteral)
        ensures
            d.value@ == v@,
            d.position is None,
    {
        DirectiveLiteral { value: v.to_owned(), position: None }
    }
}

impl NodeDisplay for DirectiveLiteral {
    open spec fn printed(&self, f: FormatterView) -> FormatterView {
        f.with_string(self.value@)
    }

    fn fmt(&self, f: &mut NodeFormatter) -> (r: NodeDisplayResult) {
        f.string(self.value.as_str(), Some(self.value.as_str()))
    }
}

#[derive(Debug, Clone, Copy, PartialEq, Eq, Structural)]
pub enum FunctionKind {
    Normal,
    Generator,
    Async,
    AsyncGenerator,
}

impl Default for FunctionKind {
    fn default() -> (k: FunctionKind)
        ensures
            k == FunctionKind::Normal,
    {
        FunctionKind::Normal
    }
}

impl NodeDisplay for FunctionKind {
    open spec fn printed(&self, f: FormatterView) -> FormatterView {
        match self {
            FunctionKind::Normal => f.with_keyword(Keyword::Function),
            FunctionKind::Generator => f.with_keyword(Keyword::Function).with_punctuator(Punctuator::Star),
            FunctionKind::Async => f.with_keyword(Keyword::Async).with_keyword(Keyword::Function),
            FunctionKind::AsyncGenerator => f.with_keyword(Keyword::Async).with_keyword(Keyword::Function).with_punctuator(
                Punctuator::Star,
            ),
        }
    }

    fn fmt(&self, f: &mut NodeFormatter) -> (r: NodeDisplayResult) {
        match self {
            FunctionKind::Normal => {
                f.keyword(Keyword::Function);
            },
            FunctionKind::Generator => {
                f.keyword(Keyword::Function);
                f.punctuator(Punctuator::Star);
            },
            FunctionKind::Async => {
                f.keyword(Keyword::Async);
                f.keyword(Keyword::Function);
            },
            FunctionKind::AsyncGenerator => {
                f.keyword(Keyword::Async);
                f.keyword(Keyword::Function);
                f.punctuator(Punctuator::Star);
            },
        }
        Ok(())
    }
}

/// `(a, b = 1, ...rest)`
#[derive(Debug)]
pub struct FunctionParams {
    pub params: Vec<FunctionParam>,
    pub rest: Option<FunctionRestParam>,
    pub position: Option<Box<NodePosition>>,
}

impl NodeDisplay for FunctionParams {
    open spec fn printed(&self, f: FormatterView) -> FormatterView {
        let (f, lock1) = f.parens_opened(true);
        let f = f.with_comma_list(self.params@);
        let f = match self.rest {
            Some(x) => {
                let f = if self.params@.len() > 0 {
                    let f = f.with_punctuator(Punctuator::Comma);
                    f
                } else {
                    f
                };
                let f = x.printed(f);
                f
            },
            None => f,
        };
        let f = f.released(lock1);
        f
    }

    fn fmt(&self, f: &mut NodeFormatter) -> (r: NodeDisplayResult) {
        let lock1 = f.wrap_parens();
        let _ = f.comma_list(self.params.as_slice());
        match &self.rest {
            Some(x) => {
                if self.params.len() > 0 {
                    f.punctuator(Punctuator::Comma);
                }
                let _ = f.node(x);
            },
            None => {},
        }
        f.release(lock1);
        Ok(())
    }
}

/// `pattern` or `pattern = init`
#[derive(Debug)]
pub struct FunctionParam {
    pub id: BindingPattern,
    pub init: Option<Box<Expression>>,
    pub position: Option<Box<NodePosition>>,
}

impl NodeDisplay for FunctionParam {
    open spec fn printed(&self, f: FormatterView) -> FormatterView {
        let f = self.id.printed(f);
        let f = match self.init {
            Some(x) => {
                let f = f.with_punctuator(Punctuator::Eq);
                let f = x.printed(f);
                f
            },
            None => f,
        };
        f
    }

    fn fmt(&self, f: &mut NodeFormatter) -> (r: NodeDisplayResult) {
        let _ = f.node(&self.id);
        match &self.init {
            Some(x) => {
                f.punctuator(Punctuator::Eq);
                let _ = f.node(x);
            },
            None => {},
        }
        Ok(())
    }
}

/// `...pattern`
#[derive(Debug)]
pub struct FunctionRestParam {
    pub id: BindingPattern,
    pub position: Option<Box<NodePosition>>,
}

impl NodeDisplay for FunctionRestParam {
    open spec fn printed(&self, f: FormatterView) -> FormatterView {
        let f = f.with_punctuator(Punctuator::Ellipsis);
        let f = self.id.printed(f);
        f
    }

    fn fmt(&self, f: &mut NodeFormatter) -> (r: NodeDisplayResult) {
        f.punctuator(Punctuator::Ellipsis);
        let _ = f.node(&self.id);
        Ok(())
    }
}

/// `{ directives statements }`
#[derive(Debug)]
pub struct FunctionBody {
    pub directives: Vec<Directive>,
    pub body: Vec<StatementItem>,
    pub position: Option<Box<NodePosition>>,
}

impl NodeDisplay for FunctionBody {
    open spec fn printed(&self, f: FormatterView) -> FormatterView {
        let (f, lock1) = f.curly_opened();
        let f = printed_all(self.directives@, f);
        let f = printed_all(self.body@, f);
        let f = f.released(lock1);
        f
    }

    fn fmt(&self, f: &mut NodeFormatter) -> (r: NodeDisplayResult) {
        let lock1 = f.wrap_curly();
        let _ = f.node_list(self.directives.as_slice());
        let _ = f.node_list(self.body.as_slice());
        f.release(lock1);
        Ok(())
    }
}

/// `function name() {}`
#[derive(Debug)]
pub struct FunctionDeclaration {
    pub kind: FunctionKind,
    pub id: BindingIdentifier,
    pub params: FunctionParams,
    pub body: FunctionBody,
    pub position: Option<Box<NodePosition>>,
}

impl NodeDisplay for FunctionDeclaration {
    open spec fn printed(&self, f: FormatterView) -> FormatterView {
        let f = self.kind.printed(f);
        let f = self.id.printed(f);
        let f = self.params.printed(f);
        let f = self.body.printed(f);
        f
    }

    fn fmt(&self, f: &mut NodeFormatter) -> (r: NodeDisplayResult) {
        let _ = f.node(&self.kind);
        let _ = f.node(&self.id);
        let _ = f.node(&self.params);
        let _ = f.node(&self.body);
        Ok(())
    }
}

/// `export default function name() {}`; the name may be left out.
#[derive(Debug)]
pub struct ExportDefaultFunctionDeclaration {
    pub kind: FunctionKind,
    pub id: Option<BindingIdentifier>,
    pub params: FunctionParams,
    pub body: FunctionBody,
    pub position: Option<Box<NodePosition>>,
}

impl NodeDisplay for ExportDefaultFunctionDeclaration {
    open spec fn printed(&self, f: FormatterView) -> FormatterView {
        let f = f.with_keyword(Keyword::Export);
        let f = f.with_keyword(Keyword::Default);
        let f = self.kind.printed(f);
        let f = self.id.printed(f);
        let f = self.params.printed(f);
        let f = self.body.printed(f);
        f
    }

    fn fmt(&self, f: &mut NodeFormatter) -> (r: NodeDisplayResult) {
        f.keyword(Keyword::Export);
        f.keyword(Keyword::Default);
        let _ = f.node(&self.kind);
        let _ = f.node(&self.id);
        let _ = f.node(&self.params);
        let _ = f.node(&self.body);
        Ok(())
    }
}

impl Default for FunctionParams {
    fn default() -> (p: FunctionParams)
        ensures
            p.params@.len() == 0,
            p.rest is None,
            p.position is None,
    {
        FunctionParams { params: Vec::new(), rest: None, position: None }
    }
}

impl Default for FunctionBody {
    fn default() -> (b: FunctionBody)
        ensures
            b.directives@.len() == 0,
            b.body@.len() == 0,
            b.position is None,
    {
        FunctionBody { directives: Vec::new(), body: Vec::new(), position: None }
    }
}

impl Default for ExportDefaultFunctionDeclaration {
    fn default() -> (d: ExportDefaultFunctionDeclaration)
        ensures
            d.kind == FunctionKind::Normal,
            d.id is None,
            d.params.params@.len() == 0,
            d.params.rest is None,
            d.params.position is None,
            d.body.directives@.len() == 0,
            d.body.body@.len() == 0,
            d.body.position is None,
            d.position is None,
    {
        ExportDefaultFunctionDeclaration {
            kind: FunctionKind::default(),
            id: None,
            params: FunctionParams::default(),
            body: FunctionBody::default(),
            position: None,
        }
    }
}

} // verus!
