//! What the panel answers to the host that draws it.

use vstd::prelude::*;

verus! {

/// What a component did with an input event.
#[derive(Debug, Clone, Copy, PartialEq, Eq, Structural)]
pub enum EventResult {
    /// The event was not for this component.
    Ignored,
    /// The event was used up.
    Consumed,
}

/// A place in the text: a row and a column.
#[derive(Debug, Clone, Copy, PartialEq, Eq, Structural)]
pub struct Position {
    pub row: usize,
    pub col: usize,
}

/// How the text cursor is drawn.
#[derive(Debug, Clone, Copy, PartialEq, Eq, Structural)]
pub enum CursorKind {
    Block,
    Bar,
    Underline,
    Hidden,
}

} // verus!
