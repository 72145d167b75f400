//! Classes.

use vstd::prelude::*;
use crate::ast::NodePosition;
use crate::ast::alias::Expression;
use crate::ast::general::{BindingIdentifier, PropertyIdentifier, PropertyName};
use crate::ast::functions::{FunctionParams, FunctionBody};
use crate::ast::display::{
    NodeDisplay, NodeFormatter, NodeDisplayResult, FormatterView, Keyword, Punctuator, Precedence,
    LockRelease, printed_all,
};

verus! {

/// `export default class name extends base {}`; the name may be left out.
#[derive(Debug)]
pub struct ExportDefaultClassDeclaration {
    pub id: Option<BindingIdentifier>,
    pub extends: Option<Box<Expression>>,
    pub body: ClassBody,
    pub position: Option<Box<NodePosition>>,
}

impl NodeDisplay for ExportDefaultClassDeclaration {
    open spec fn printed(&self, f: FormatterView) -> FormatterView {
        let f = f.with_keyword(Keyword::Export);
        let f = f.with_keyword(Keyword::Default);
        let f = f.with_keyword(Keyword::Class);
        let f = self.id.printed(f);
        let f = match self.extends {
            Some(x) => {
                let f = f.with_keyword(Keyword::Extends);
                let lock1 = LockRelease::Precedence(f.prec);
                let f = FormatterView { prec: Precedence::LeftHand, ..f };
                let f = x.printed(f);
                let f = f.released(lock1);
                f
            },
            None => f,
        };
        let f = self.body.printed(f);
        f
    }

    fn fmt(&self, f: &mut NodeFormatter) -> (r: NodeDisplayResult) {
        f.keyword(Keyword::Export);
        f.keyword(Keyword::Default);
        f.keyword(Keyword::Class);
        let _ = f.node(&self.id);
        match &self.extends {
            Some(x) => {
                f.keyword(Keyword::Extends);
                let lock1 = f.require_precedence(Precedence::LeftHand);
                let _ = f.node(x);
                f.release(lock1);
            },
            None => {},
        }
        let _ = f.node(&self.body);
        Ok(())
    }
}

/// `class name extends base {}`
#[derive(Debug)]
pub struct ClassDeclaration {
    pub id: BindingIdentifier,
    pub extends: Option<Box<Expression>>,
    pub body: ClassBody,
    pub position: Option<Box<NodePosition>>,
}

impl NodeDisplay for ClassDeclaration {
    open spec fn printed(&self, f: FormatterView) -> FormatterView {
        let f = f.with_keyword(Keyword::Class);
        let f = self.id.printed(f);
        let f = match self.extends {
            Some(x) => {
                let f = f.with_keyword(Keyword::Extends);
                let lock1 = LockRelease::Precedence(f.prec);
                let f = FormatterView { prec: Precedence::LeftHand, ..f };
                let f = x.printed(f);
                let f = f.released(lock1);
                f
            },
            None => f,
        };
        let f = self.body.printed(f);
        f
    }

    fn fmt(&self, f: &mut NodeFormatter) -> (r: NodeDisplayResult) {
        f.keyword(Keyword::Class);
        let _ = f.node(&self.id);
        match &self.extends {
            Some(x) => {
                f.keyword(Keyword::Extends);
                let lock1 = f.require_precedence(Precedence::LeftHand);
                let _ = f.node(x);
                f.release(lock1);
            },
            None => {},
        }
        let _ = f.node(&self.body);
        Ok(())
    }
}

/// `{ items }` of a class.
#[derive(Debug)]
pub struct ClassBody {
    pub items: Vec<ClassItem>,
    pub position: Option<Box<NodePosition>>,
}

impl NodeDisplay for ClassBody {
    open spec fn printed(&self, f: FormatterView) -> FormatterView {
        let (f, lock1) = f.curly_opened();
        let f = printed_all(self.items@, f);
        let f = f.released(lock1);
        f
    }

    fn fmt(&self, f: &mut NodeFormatter) -> (r: NodeDisplayResult) {
        let lock1 = f.wrap_curly();
        let _ = f.node_list(self.items.as_slice());
        f.release(lock1);
        Ok(())
    }
}

/// `;` in a class body.
#[derive(Debug)]
pub struct ClassEmpty {
    pub position: Option<Box<NodePosition>>,
}

impl NodeDisplay for ClassEmpty {
    open spec fn printed(&self, f: FormatterView) -> FormatterView {
        let f = f.with_punctuator(Punctuator::Semicolon);
        f
    }

    fn fmt(&self, f: &mut NodeFormatter) -> (r: NodeDisplayResult) {
        f.punctuator(Punctuator::Semicolon);
        Ok(())
    }
}

/// An item of a class body.
#[derive(Debug)]
pub enum ClassItem {
    Method(ClassMethod),
    Field(ClassField),
    Empty(ClassEmpty),
}

impl NodeDisplay for ClassItem {
    open spec fn printed(&self, f: FormatterView) -> FormatterView {
        match self {
            ClassItem::Method(n) => n.printed(f),
            ClassItem::Field(n) => n.printed(f),
            ClassItem::Empty(n) => n.printed(f),
        }
    }

    fn fmt(&self, f: &mut NodeFormatter) -> (r: NodeDisplayResult) {
        match self {
            ClassItem::Method(n) => f.node(n),
            ClassItem::Field(n) => f.node(n),
            ClassItem::Empty(n) => f.node(n),
        }
    }
}
/// The name of a class field or method.
#[derive(Debug)]
pub enum ClassFieldId {
    Public(PropertyName),
    Private(PropertyIdentifier),
}

impl NodeDisplay for ClassFieldId {
    open spec fn printed(&self, f: FormatterView) -> FormatterView {
        match self {
            ClassFieldId::Public(n) => n.printed(f),
            ClassFieldId::Private(n) => n.printed(f),
        }
    }

    fn fmt(&self, f: &mut NodeFormatter) -> (r: NodeDisplayResult) {
        match self {
            ClassFieldId::Public(n) => f.node(n),
            ClassFieldId::Private(n) => f.node(n),
        }
    }
}

#[derive(Debug, Clone, Copy, PartialEq, Eq, Structural)]
pub enum FieldPosition {
    Instance,
    Static,
}

impl Default for FieldPosition {
    fn default() -> (p: FieldPosition)
        ensures
            p == FieldPosition::Instance,
    {
        FieldPosition::Instance
    }
}

impl NodeDisplay for FieldPosition {
    open spec fn printed(&self, f: FormatterView) -> FormatterView {
        match self {
            FieldPosition::Instance => f,
            FieldPosition::Static => f.with_keyword(Keyword::Static),
        }
    }

    fn fmt(&self, f: &mut NodeFormatter) -> (r: NodeDisplayResult) {
        if let FieldPosition::Static = self {
            f.keyword(Keyword::Static);
        }
        Ok(())
    }
}

#[derive(Debug, Clone, Copy, PartialEq, Eq, Structural)]
pub enum MethodKind {
    Normal,
    Generator,
    Async,
    AsyncGenerator,
    Get,
    Setter,
}

impl Default for MethodKind {
    fn default() -> (k: MethodKind)
        ensures
            k == MethodKind::Normal,
    {
        MethodKind::Normal
    }
}

impl NodeDisplay for MethodKind {
    open spec fn printed(&self, f: FormatterView) -> FormatterView {
        match self {
            MethodKind::Normal => f,
            MethodKind::Generator => f.with_punctuator(Punctuator::Star),
            MethodKind::Async => f.with_keyword(Keyword::Async),
            MethodKind::AsyncGenerator => f.with_keyword(Keyword::Async).with_punctuator(Punctuator::Star),
            MethodKind::Get => f.with_keyword(Keyword::Get),
            MethodKind::Setter => f.with_keyword(Keyword::SetKeyword),
        }
    }

    fn fmt(&self, f: &mut NodeFormatter) -> (r: NodeDisplayResult) {
        match self {
            MethodKind::Normal => {},
            MethodKind::Generator => {
                f.punctuator(Punctuator::Star);
            },
            MethodKind::Async => {
                f.keyword(Keyword::Async);
            },
            MethodKind::AsyncGenerator => {
                f.keyword(Keyword::Async);
                f.punctuator(Punctuator::Star);
            },
            MethodKind::Get => {
                f.keyword(Keyword::Get);
            },
            MethodKind::Setter => {
                f.keyword(Keyword::SetKeyword);
            },
        }
        Ok(())
    }
}

/// `static name = value;` in a class body.
#[derive(Debug)]
pub struct ClassField {
    pub pos: FieldPosition,
    pub id: ClassFieldId,
    pub value: Option<Expression>,
    pub position: Option<Box<NodePosition>>,
}

impl NodeDisplay for ClassField {
    open spec fn printed(&self, f: FormatterView) -> FormatterView {
        let f = self.pos.printed(f);
        let f = self.id.printed(f);
        let f = match self.value {
            Some(x) => {
                let f = f.with_punctuator(Punctuator::Eq);
                let lock1 = LockRelease::Precedence(f.prec);
                let f = FormatterView { prec: Precedence::Assignment, ..f };
                let f = x.printed(f);
                let f = f.released(lock1);
                f
            },
            None => f,
        };
        let f = f.with_punctuator(Punctuator::Semicolon);
        f
    }

    fn fmt(&self, f: &mut NodeFormatter) -> (r: NodeDisplayResult) {
        let _ = f.node(&self.pos);
        let _ = f.node(&self.id);
        match &self.value {
            Some(x) => {
                f.punctuator(Punctuator::Eq);
                let lock1 = f.require_precedence(Precedence::Assignment);
                let _ = f.node(x);
                f.release(lock1);
            },
            None => {},
        }
        f.punctuator(Punctuator::Semicolon);
        Ok(())
    }
}

/// `static async name() {}` in a class body.
#[derive(Debug)]
pub struct ClassMethod {
    pub pos: FieldPosition,
    pub kind: MethodKind,
    pub id: ClassFieldId,
    pub params: FunctionParams,
    pub body: FunctionBody,
    pub position: Option<Box<NodePosition>>,
}

impl NodeDisplay for ClassMethod {
    open spec fn printed(&self, f: FormatterView) -> FormatterView {
        let f = self.pos.printed(f);
        let f = self.kind.printed(f);
        let f = self.id.printed(f);
        let f = self.params.printed(f);
        let f = self.body.printed(f);
        f
    }

    fn fmt(&self, f: &mut NodeFormatter) -> (r: NodeDisplayResult) {
        let _ = f.node(&self.pos);
        let _ = f.node(&self.kind);
        let _ = f.node(&self.id);
        let _ = f.node(&self.params);
        let _ = f.node(&self.body);
        Ok(())
    }
}

impl Default for ClassBody {
    fn default() -> (b: ClassBody)
        ensures
            b.items@.len() == 0,
            b.position is None,
    {
        ClassBody { items: Vec::new(), position: None }
    }
}

impl Default for ExportDefaultClassDeclaration {
    fn default() -> (d: ExportDefaultClassDeclaration)
        ensures
            d.id is None,
            d.extends is None,
            d.body.items@.len() == 0,
            d.body.position is None,
            d.position is None,
    {
        ExportDefaultClassDeclaration { id: None, extends: None, body: ClassBody::default(), position: None }
    }
}

} // verus!
