//! Explicit positional parameters.

use vstd::prelude::*;
use std::sync::Arc;
use crate::expression::{
    BoxedExpression, ExpressionView, Literal, RawExpr, RcExpression, ToExpression,
    UntypedExpression,
};

verus! {

/// A positional parameter that the caller numbers. It is written as the
/// marker of its position and binds nothing: the caller supplies the value
/// when the statement runs. The positions from one to the largest that a
/// placeholder of a statement names are the caller's; the literals of the
/// statement are bound to the positions after them, so that no marker of a
/// literal is ever the marker of a placeholder.
#[derive(Clone, Copy, Debug, PartialEq, Eq)]
pub struct Placeholder {
    pub idx: usize,
}

impl Placeholder {
    /// The placeholder of position `idx`.
    pub fn new(idx: usize) -> (placeholder: Placeholder)
        ensures
            placeholder.idx == idx,
    {
        Placeholder { idx }
    }
}

impl UntypedExpression for Placeholder {
    open spec fn expression_view(&self) -> ExpressionView {
        ExpressionView::Placeholder(self.idx as nat)
    }

    fn upcast_expression(&self) -> (e: RcExpression) {
        Arc::new(BoxedExpression::Placeholder(self.idx))
    }
}

impl<T: Literal> ToExpression<T> for Placeholder {

}

impl ToExpression<RawExpr> for Placeholder {

}

} // verus!
