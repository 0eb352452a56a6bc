//! Null tests.

use vstd::prelude::*;
use std::sync::Arc;
use crate::expression::{RawExpr, UntypedExpression};
use crate::field::NamedField;
use crate::predicate::{BoxedPredicate, Predicate, PredicateView, RcPredicate};

verus! {

/// A test of an operand for `NULL`: that it is null where `null` is set,
/// that it is not where `null` is clear.
#[derive(Debug)]
pub struct IsNullPredicate<F> {
    pub field: F,
    pub null: bool,
}

impl<F: UntypedExpression> Predicate for IsNullPredicate<F> {
    open spec fn predicate_view(&self) -> PredicateView {
        PredicateView::IsNull { field: self.field.expression_view(), null: self.null }
    }

    fn upcast(&self) -> (p: RcPredicate) {
        Arc::new(BoxedPredicate::IsNull { field: self.field.upcast_expression(), null: self.null })
    }
}

/// Null tests, of the expressions whose value may be absent.
pub trait ToIsNullPredicate: UntypedExpression {
    /// `self IS NULL`
    fn is_null(&self) -> (p: RcPredicate)
        ensures
            p@ == (PredicateView::IsNull { field: self.expression_view(), null: true }),
    ;

    /// `self IS NOT NULL`
    fn not_null(&self) -> (p: RcPredicate)
        ensures
            p@ == (PredicateView::IsNull { field: self.expression_view(), null: false }),
    ;
}

impl<T> ToIsNullPredicate for NamedField<Option<T>> {
    fn is_null(&self) -> (p: RcPredicate) {
        IsNullPredicate { field: self.clone(), null: true }.upcast()
    }

    fn not_null(&self) -> (p: RcPredicate) {
        IsNullPredicate { field: self.clone(), null: false }.upcast()
    }
}

impl ToIsNullPredicate for RawExpr {
    fn is_null(&self) -> (p: RcPredicate) {
        IsNullPredicate { field: self.clone(), null: true }.upcast()
    }

    fn not_null(&self) -> (p: RcPredicate) {
        IsNullPredicate { field: self.clone(), null: false }.upcast()
    }
}

} // verus!
