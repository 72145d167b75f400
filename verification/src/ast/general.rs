//! Identifiers.

use vstd::prelude::*;
use crate::ast::NodePosition;
use crate::ast::alias;
use crate::ast::literal;
use crate::ast::display::{
    NodeDisplay, NodeFormatter, NodeDisplayResult, FormatterView, LockRelease, Precedence, raw_text,
    raw_str,
};

verus! {

/// An identifier used as a binding name.
#[derive(Debug)]
pub struct BindingIdentifier {
    pub value: String,
    pub raw: Option<String>,
    pub position: Option<Box<NodePosition>>,
}

impl BindingIdentifier {
    pub fn new(s: &str) -> (n: BindingIdentifier)
        ensures
            n.value@ == s@,
            n.raw is None,
            n.position is None,
    {
        BindingIdentifier { value: s.to_owned(), raw: None, position: None }
    }
}

impl NodeDisplay for BindingIdentifier {
    open spec fn printed(&self, f: FormatterView) -> FormatterView {
        f.with_word(raw_text(self.value@, self.raw))
    }

    fn fmt(&self, f: &mut NodeFormatter) -> (r: NodeDisplayResult) {
        f.identifier(self.value.as_str(), raw_str(&self.raw))
    }
}

/// An identifier used as a reference to a binding.
#[derive(Debug)]
pub struct ReferenceIdentifier {
    pub value: String,
    pub raw: Option<String>,
    pub position: Option<Box<NodePosition>>,
}

impl ReferenceIdentifier {
    pub fn new(s: &str) -> (n: ReferenceIdentifier)
        ensures
            n.value@ == s@,
            n.raw is None,
            n.position is None,
    {
        ReferenceIdentifier { value: s.to_owned(), raw: None, position: None }
    }
}

impl NodeDisplay for ReferenceIdentifier {
    open spec fn printed(&self, f: FormatterView) -> FormatterView {
        f.with_word(raw_text(self.value@, self.raw))
    }

    fn fmt(&self, f: &mut NodeFormatter) -> (r: NodeDisplayResult) {
        f.identifier(self.value.as_str(), raw_str(&self.raw))
    }
}

/// An identifier used as a property name.
#[derive(Debug)]
pub struct PropertyIdentifier {
    pub value: String,
    pub raw: Option<String>,
    pub position: Option<Box<NodePosition>>,
}

impl PropertyIdentifier {
    pub fn new(s: &str) -> (n: PropertyIdentifier)
        ensures
            n.value@ == s@,
            n.raw is None,
            n.position is None,
    {
        PropertyIdentifier { value: s.to_owned(), raw: None, position: None }
    }
}

impl NodeDisplay for PropertyIdentifier {
    open spec fn printed(&self, f: FormatterView) -> FormatterView {
        f.with_word(raw_text(self.value@, self.raw))
    }

    fn fmt(&self, f: &mut NodeFormatter) -> (r: NodeDisplayResult) {
        f.identifier(self.value.as_str(), raw_str(&self.raw))
    }
}

/// The name of a property.
#[derive(Debug)]
pub enum PropertyName {
    Identifier(PropertyIdentifier),
    String(literal::String),
    Computed(ComputedPropertyName),
}

impl NodeDisplay for PropertyName {
    open spec fn printed(&self, f: FormatterView) -> FormatterView {
        match self {
            PropertyName::Identifier(n) => n.printed(f),
            PropertyName::String(n) => n.printed(f),
            PropertyName::Computed(n) => n.printed(f),
        }
    }

    fn fmt(&self, f: &mut NodeFormatter) -> (r: NodeDisplayResult) {
        match self {
            PropertyName::Identifier(n) => f.node(n),
            PropertyName::String(n) => f.node(n),
            PropertyName::Computed(n) => f.node(n),
        }
    }
}

/// `[expression]` as a property name.
#[derive(Debug)]
pub struct ComputedPropertyName {
    pub expression: Box<alias::Expression>,
    pub position: Option<Box<NodePosition>>,
}

impl NodeDisplay for ComputedPropertyName {
    open spec fn printed(&self, f: FormatterView) -> FormatterView {
        let (f, lock1) = f.square_opened();
        let lock2 = LockRelease::Precedence(f.prec);
        let f = FormatterView { prec: Precedence::Assignment, ..f };
        let f = self.expression.printed(f);
        let f = f.released(lock2);
        let f = f.released(lock1);
        f
    }

    fn fmt(&self, f: &mut NodeFormatter) -> (r: NodeDisplayResult) {
        let lock1 = f.wrap_square();
        let lock2 = f.require_precedence(Precedence::Assignment);
        let _ = f.node(&self.expression);
        f.release(lock2);
        f.release(lock1);
        Ok(())
    }
}

} // verus!
