//! Questions a printer asks of a node.

use vstd::prelude::*;
use crate::ast::NodePosition;

verus! {

/// What can be told where it stands in the source.
pub trait WithPosition<T: Into<Option<Box<NodePosition>>>> {
    fn set_position(&mut self, pos: T);
}

/// What may end with an `if` that has no `else`.
pub trait HasOrphanIf {
    fn orphan_if(&self) -> bool {
        false
    }
}

/// What may hold an `in` operator outside any brackets.
pub trait HasInOperator {
    fn has_in_operator(&self) -> bool {
        false
    }
}

/// A token at the start of a node that changes how a statement reads.
#[derive(Debug, Clone, Copy, PartialEq, Eq, Structural)]
pub enum SpecialToken {
    Plain,
    Declaration,
    Object,
}

/// What can tell which special token it starts with.
pub trait FirstSpecialToken {
    fn first_special_token(&self) -> SpecialToken {
        SpecialToken::Plain
    }
}

} // verus!
