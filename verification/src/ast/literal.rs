//! Literals.

use vstd::prelude::*;
use crate::ast::NodePosition;
use crate::ast::display::{
    NodeDisplay, NodeFormatter, NodeDisplayResult, FormatterView, Keyword, raw_text, raw_str,
};

verus! {

/// `null`
#[derive(Debug)]
pub struct Null {
    pub position: Option<Box<NodePosition>>,
}

impl Default for Null {
    fn default() -> (n: Null)
        ensures
            n.position is None,
    {
        Null { position: None }
    }
}

impl NodeDisplay for Null {
    open spec fn printed(&self, f: FormatterView) -> FormatterView {
        f.with_keyword(Keyword::Null)
    }

    fn fmt(&self, f: &mut NodeFormatter) -> (r: NodeDisplayResult) {
        f.keyword(Keyword::Null);
        Ok(())
    }
}

/// `true` or `false`
#[derive(Debug)]
pub struct Boolean {
    pub value: bool,
    pub position: Option<Box<NodePosition>>,
}

impl Boolean {
    pub fn from(value: bool) -> (b: Boolean)
        ensures
            b.value == value,
            b.position is None,
    {
        Boolean { value, position: None }
    }
}

impl NodeDisplay for Boolean {
    open spec fn printed(&self, f: FormatterView) -> FormatterView {
        f.with_keyword(if self.value { Keyword::True } else { Keyword::False })
    }

    fn fmt(&self, f: &mut NodeFormatter) -> (r: NodeDisplayResult) {
        if self.value {
            f.keyword(Keyword::True);
        } else {
            f.keyword(Keyword::False);
        }
        Ok(())
    }
}

/// A string literal, printed in single quotes.
#[derive(Debug)]
pub struct String {
    pub raw: Option<std::string::String>,
    pub value: std::string::String,
    pub position: Option<Box<NodePosition>>,
}

impl String {
    pub fn from(value: &str) -> (s: String)
        ensures
            s.value@ == value@,
            s.raw is None,
            s.position is None,
    {
        String { raw: None, value: value.to_owned(), position: None }
    }
}

impl NodeDisplay for String {
    open spec fn printed(&self, f: FormatterView) -> FormatterView {
        f.with_string(raw_text(self.value@, self.raw))
    }

    fn fmt(&self, f: &mut NodeFormatter) -> (r: NodeDisplayResult) {
        f.string(self.value.as_str(), raw_str(&self.raw))
    }
}

/// A regular expression literal: `/pattern/flags`.
#[derive(Debug)]
pub struct RegExp {
    pub value: std::string::String,
    pub flags: Vec<char>,
    pub position: Option<Box<NodePosition>>,
}

impl NodeDisplay for RegExp {
    open spec fn printed(&self, f: FormatterView) -> FormatterView {
        f.with_regexp(self.value@, self.flags@)
    }

    fn fmt(&self, f: &mut NodeFormatter) -> (r: NodeDisplayResult) {
        f.regexp(self.value.as_str(), self.flags.as_slice())
    }
}

} // verus!
