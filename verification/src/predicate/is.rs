//! Equality.

use vstd::prelude::*;
use std::sync::Arc;
use crate::expression::{RawExpr, ToExpression, UntypedExpression};
use crate::field::NamedField;
use crate::predicate::{BoxedPredicate, Predicate, PredicateView, RcPredicate};

verus! {

/// A shared predicate, under the name that equality tests give it.
pub type RcQuery = RcPredicate;

/// An equality test of two operands.
#[derive(Debug)]
pub struct IsQuery<F, T> {
    pub field: F,
    pub value: T,
}

impl<F: UntypedExpression, T: UntypedExpression> Predicate for IsQuery<F, T> {
    open spec fn predicate_view(&self) -> PredicateView {
        PredicateView::Is {
            field: self.field.expression_view(),
            value: self.value.expression_view(),
        }
    }

    fn upcast(&self) -> (p: RcPredicate) {
        Arc::new(
            BoxedPredicate::Is {
                field: self.field.upcast_expression(),
                value: self.value.upcast_expression(),
            },
        )
    }
}

/// Equality of an expression `F` with an expression `T` of a type that can
/// stand for the type of `F`.
pub trait ToIsQuery<F, T: UntypedExpression>: UntypedExpression {
    /// `self = val`
    fn is(&self, val: T) -> (p: RcQuery)
        ensures
            p@ == (PredicateView::Is {
                field: self.expression_view(),
                value: val.expression_view(),
            }),
    ;
}

impl<V, T: ToExpression<V>> ToIsQuery<NamedField<V>, T> for NamedField<V> {
    fn is(&self, val: T) -> (p: RcQuery) {
        IsQuery { field: self.clone(), value: val }.upcast()
    }
}

impl<T: ToExpression<RawExpr>> ToIsQuery<RawExpr, T> for RawExpr {
    fn is(&self, val: T) -> (p: RcQuery) {
        IsQuery { field: self.clone(), value: val }.upcast()
    }
}

} // verus!
