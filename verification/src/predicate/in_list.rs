//! Membership tests.

use vstd::prelude::*;
use std::sync::Arc;
use crate::expression::{RawExpr, ToListExpression, UntypedExpression, UntypedListExpression};
use crate::field::NamedField;
use crate::predicate::{BoxedPredicate, Predicate, PredicateView, RcPredicate};

verus! {

/// A test of an operand for membership of a list: that it is in the list
/// where `negated` is clear, that it is not where `negated` is set.
#[derive(Debug)]
pub struct InPredicate<F, T> {
    pub field: F,
    pub values: T,
    pub negated: bool,
}

impl<F: UntypedExpression, T: UntypedListExpression> Predicate for InPredicate<F, T> {
    open spec fn predicate_view(&self) -> PredicateView {
        PredicateView::In {
            field: self.field.expression_view(),
            values: self.values.list_view(),
            negated: self.negated,
        }
    }

    fn upcast(&self) -> (p: RcPredicate) {
        Arc::new(
            BoxedPredicate::In {
                field: self.field.upcast_expression(),
                values: self.values.upcast_list(),
                negated: self.negated,
            },
        )
    }
}

/// Membership of an expression `F` in a list `T` of items of a type that
/// can stand for the type of `F`.
pub trait ToInPredicate<F, T: UntypedListExpression>: UntypedExpression {
    /// `self IN (values)`
    fn in_list(&self, values: T) -> (p: RcPredicate)
        ensures
            p@ == (PredicateView::In {
                field: self.expression_view(),
                values: values.list_view(),
                negated: false,
            }),
    ;

    /// `self NOT IN (values)`
    fn not_in_list(&self, values: T) -> (p: RcPredicate)
        ensures
            p@ == (PredicateView::In {
                field: self.expression_view(),
                values: values.list_view(),
                negated: true,
            }),
    ;
}

impl<V, T: ToListExpression<V>> ToInPredicate<NamedField<V>, T> for NamedField<V> {
    fn in_list(&self, values: T) -> (p: RcPredicate) {
        InPredicate { field: self.clone(), values, negated: false }.upcast()
    }

    fn not_in_list(&self, values: T) -> (p: RcPredicate) {
        InPredicate { field: self.clone(), values, negated: true }.upcast()
    }
}

impl<T: ToListExpression<RawExpr>> ToInPredicate<RawExpr, T> for RawExpr {
    fn in_list(&self, values: T) -> (p: RcPredicate) {
        InPredicate { field: self.clone(), values, negated: false }.upcast()
    }

    fn not_in_list(&self, values: T) -> (p: RcPredicate) {
        InPredicate { field: self.clone(), values, negated: true }.upcast()
    }
}

} // verus!
