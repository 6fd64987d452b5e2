//! Tokens: the names that a producer gives to its operations.

use vstd::prelude::*;
use crate::decimal::{signed_decimal, signed_decimal_string};

verus! {

/// Names one operation of one producer: a number or a string, as the producer
/// chose. Two tokens are the same when both are numbers or both are strings
/// and they hold the same value.
#[derive(Debug)]
pub enum ProgressToken {
    Number(i32),
    String(String),
}

/// What a `ProgressToken` stands for.
pub enum TokenView {
    Number(i32),
    String(Seq<char>),
}

impl TokenView {
    /// The token as it is displayed: a number in decimal, a string as it is.
    pub open spec fn text(self) -> Seq<char> {
        match self {
            TokenView::Number(n) => signed_decimal(n as int),
            TokenView::String(s) => s,
        }
    }
}

impl View for ProgressToken {
    type V = TokenView;

    open spec fn view(&self) -> TokenView {
        match self {
            ProgressToken::Number(n) => TokenView::Number(*n),
            ProgressToken::String(s) => TokenView::String(s@),
        }
    }
}

impl Clone for ProgressToken {
    fn clone(&self) -> (copy: Self)
        ensures
            copy@ == self@,
    {
        match self {
            ProgressToken::Number(n) => ProgressToken::Number(*n),
            ProgressToken::String(s) => ProgressToken::String(s.clone()),
        }
    }
}

impl PartialEq for ProgressToken {
    fn eq(&self, other: &Self) -> (same: bool) {
        match (self, other) {
            (ProgressToken::Number(a), ProgressToken::Number(b)) => *a == *b,
            (ProgressToken::String(a), ProgressToken::String(b)) => *a == *b,
            _ => false,
        }
    }
}

impl vstd::std_specs::cmp::PartialEqSpecImpl for ProgressToken {
    open spec fn obeys_eq_spec() -> bool {
        true
    }

    open spec fn eq_spec(&self, other: &Self) -> bool {
        self@ == other@
    }
}

impl Eq for ProgressToken {}

impl ProgressToken {
    /// The token as it is displayed.
    pub fn text(&self) -> (text: String)
        ensures
            text@ == self@.text(),
    {
        match self {
            ProgressToken::Number(n) => signed_decimal_string(*n),
            ProgressToken::String(s) => s.clone(),
        }
    }
}

} // verus!
