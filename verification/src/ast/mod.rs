//! Syntax trees and their printing.
pub mod display;
pub mod general;
pub mod literal;
pub mod alias;
pub mod expression;
pub mod jsx;
pub mod modules;
pub mod patterns;
pub mod statement;
pub mod functions;
pub mod classes;
pub mod declaration;
pub mod misc;
pub mod operators;
pub mod root;

use vstd::prelude::*;

verus! {

/// Where a node stands in the source: byte offsets and (line, column) pairs.
#[derive(Debug, Clone)]
pub struct NodePosition {
    pub start: usize,
    pub end: usize,
    pub range: PositionRange,
}

#[derive(Debug, Clone, Copy)]
pub struct PositionRange {
    pub start: (usize, usize),
    pub end: (usize, usize),
}

/// A comment between tokens.
#[derive(Debug, Clone, Copy, PartialEq, Eq, Structural)]
pub struct CommentNode;

/// What stands between two tokens.
#[derive(Debug, Clone, Copy, PartialEq, Eq, Structural)]
pub enum Separators {
    Comment(CommentNode),
    Whitespace,
}

/// The separators before a token, and where the token stands.
#[derive(Debug)]
pub struct KeywordData {
    prefix: Vec<Separators>,
    position: Option<Box<PositionRange>>,
}

impl KeywordData {
    pub closed spec fn separators(&self) -> Seq<Separators> {
        self.prefix@
    }

    pub closed spec fn has_position(&self) -> bool {
        self.position is Some
    }
}

impl Default for KeywordData {
    fn default() -> (d: KeywordData)
        ensures
            d.separators().len() == 0,
            !d.has_position(),
    {
        KeywordData { prefix: Vec::new(), position: None }
    }
}

/// Where a token stands, and the separators after it.
#[derive(Debug)]
pub struct KeywordSuffixData {
    position: Option<Box<PositionRange>>,
    suffix: Vec<Separators>,
}

impl KeywordSuffixData {
    pub closed spec fn separators(&self) -> Seq<Separators> {
        self.suffix@
    }

    pub closed spec fn has_position(&self) -> bool {
        self.position is Some
    }
}

impl Default for KeywordSuffixData {
    fn default() -> (d: KeywordSuffixData)
        ensures
            d.separators().len() == 0,
            !d.has_position(),
    {
        KeywordSuffixData { position: None, suffix: Vec::new() }
    }
}

/// Where a wrapping token stands, and the separators after it.
#[derive(Debug)]
pub struct KeywordWrappedData {
    position: Option<Box<PositionRange>>,
    suffix: Vec<Separators>,
}

impl KeywordWrappedData {
    pub closed spec fn separators(&self) -> Seq<Separators> {
        self.suffix@
    }

    pub closed spec fn has_position(&self) -> bool {
        self.position is Some
    }
}

impl Default for KeywordWrappedData {
    fn default() -> (d: KeywordWrappedData)
        ensures
            d.separators().len() == 0,
            !d.has_position(),
    {
        KeywordWrappedData { position: None, suffix: Vec::new() }
    }
}

/// What has comments before it.
pub trait LeadingComments {
    fn leading_comments(&self) -> CommentIterator<'_>;
}

/// What holds a list of separators.
pub trait SeparatorList {
}

/// The index of the first comment in `s` at or after `i`.
pub open spec fn next_comment(s: Seq<Separators>, i: int) -> Option<int>
    decreases s.len() - i,
{
    if i < 0 || i >= s.len() {
        None
    } else if s[i] is Comment {
        Some(i)
    } else {
        next_comment(s, i + 1)
    }
}

/// The comments among some separators, one after the other.
pub struct CommentIterator<'a> {
    items: &'a Vec<Separators>,
    index: usize,
}

impl<'a> CommentIterator<'a> {
    /// The separators walked over.
    pub closed spec fn items(&self) -> Seq<Separators> {
        self.items@
    }

    /// Where the walk stands.
    pub closed spec fn index(&self) -> int {
        self.index as int
    }

    /// A walk over the comments of `v` from its start.
    pub fn new(v: &'a Vec<Separators>) -> (it: CommentIterator<'a>)
        ensures
            it.items() == v@,
            it.index() == 0,
    {
        CommentIterator { items: v, index: 0 }
    }

    /// The next comment, where one is left; the walk goes on after it.
    pub fn next(&mut self) -> (r: Option<&'a CommentNode>)
        requires
            old(self).index() <= old(self).items().len(),
        ensures
            final(self).items() == old(self).items(),
            final(self).index() <= final(self).items().len(),
            match next_comment(old(self).items(), old(self).index()) {
                None => r is None && final(self).index() == old(self).items().len(),
                Some(k) => r is Some && final(self).index() == k + 1,
            },
    {
        let items: &'a Vec<Separators> = self.items;
        while self.index < items.len()
            invariant
                self.items@ == items@,
                self.items@ == old(self).items(),
                old(self).index() <= self.index <= items.len(),
                next_comment(items@, old(self).index() as int) == next_comment(items@, self.index as int),
            decreases items.len() - self.index,
        {
            let i = self.index;
            self.index = i + 1;
            match &items[i] {
                Separators::Comment(c) => {
                    return Some(c);
                },
                Separators::Whitespace => {},
            }
        }
        None
    }
}

} // verus!
