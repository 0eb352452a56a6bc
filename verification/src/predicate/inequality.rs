//! Ordering comparisons.

use vstd::prelude::*;
use std::sync::Arc;
use time::Timespec;
use crate::expression::{RawExpr, ToExpression, UntypedExpression};
use crate::field::NamedField;
use crate::predicate::{BoxedPredicate, Predicate, PredicateView, RcPredicate};
use crate::value::{Float32, Float64};

verus! {

/// The four ordering comparisons.
#[derive(Clone, Copy, Debug, PartialEq, Eq)]
pub enum Inequality {
    LessThan,
    LessThanEqual,
    GreaterThan,
    GreaterThanEqual,
}

impl Inequality {
    /// The operator as it is written, with a space on either side.
    pub open spec fn sql_text(self) -> Seq<char> {
        match self {
            Inequality::LessThan => " < "@,
            Inequality::LessThanEqual => " <= "@,
            Inequality::GreaterThan => " > "@,
            Inequality::GreaterThanEqual => " >= "@,
        }
    }

    /// The operator as it is written, with a space on either side.
    pub fn as_sql(&self) -> (text: &'static str)
        ensures
            text@ == self.sql_text(),
    {
        match self {
            Inequality::LessThan => " < ",
            Inequality::LessThanEqual => " <= ",
            Inequality::GreaterThan => " > ",
            Inequality::GreaterThanEqual => " >= ",
        }
    }
}

/// The types whose values are ordered: the numbers and points in time,
/// and each of them where a value may be absent.
pub trait Ordered {

}

impl Ordered for i8 {

}

impl Ordered for i16 {

}

impl Ordered for i32 {

}

impl Ordered for i64 {

}

impl Ordered for Float32 {

}

impl Ordered for Float64 {

}

impl Ordered for Timespec {

}

impl<T: Ordered> Ordered for Option<T> {

}

/// An ordering comparison of two operands.
#[derive(Debug)]
pub struct InequalityPredicate<F, T> {
    pub field: F,
    pub value: T,
    pub inequality: Inequality,
}

impl<F: UntypedExpression, T: UntypedExpression> Predicate for InequalityPredicate<F, T> {
    open spec fn predicate_view(&self) -> PredicateView {
        PredicateView::Inequality {
            field: self.field.expression_view(),
            value: self.value.expression_view(),
            inequality: self.inequality,
        }
    }

    fn upcast(&self) -> (p: RcPredicate) {
        Arc::new(
            BoxedPredicate::Inequality {
                field: self.field.upcast_expression(),
                value: self.value.upcast_expression(),
                inequality: self.inequality,
            },
        )
    }
}

/// The comparison of this expression with `val` under `inequality`.
pub open spec fn inequality_view<F: UntypedExpression, T: UntypedExpression>(
    field: &F,
    val: T,
    inequality: Inequality,
) -> PredicateView {
    PredicateView::Inequality {
        field: field.expression_view(),
        value: val.expression_view(),
        inequality,
    }
}

/// Ordering comparisons of an expression `F` with an expression `T` of a
/// type that can stand for the type of `F`.
pub trait ToInequalityPredicate<F, T: UntypedExpression>: UntypedExpression + Sized {
    /// `self < val`
    fn lt(&self, val: T) -> (p: RcPredicate)
        ensures
            p@ == inequality_view(self, val, Inequality::LessThan),
    ;

    /// `self <= val`
    fn lte(&self, val: T) -> (p: RcPredicate)
        ensures
            p@ == inequality_view(self, val, Inequality::LessThanEqual),
    ;

    /// `self > val`
    fn gt(&self, val: T) -> (p: RcPredicate)
        ensures
            p@ == inequality_view(self, val, Inequality::GreaterThan),
    ;

    /// `self >= val`
    fn gte(&self, val: T) -> (p: RcPredicate)
        ensures
            p@ == inequality_view(self, val, Inequality::GreaterThanEqual),
    ;
}

impl<V: Ordered, T: ToExpression<V>> ToInequalityPredicate<NamedField<V>, T> for NamedField<V> {
    fn lt(&self, val: T) -> (p: RcPredicate) {
        InequalityPredicate { field: self.clone(), value: val, inequality: Inequality::LessThan }
            .upcast()
    }

    fn lte(&self, val: T) -> (p: RcPredicate) {
        InequalityPredicate {
            field: self.clone(),
            value: val,
            inequality: Inequality::LessThanEqual,
        }.upcast()
    }

    fn gt(&self, val: T) -> (p: RcPredicate) {
        InequalityPredicate { field: self.clone(), value: val, inequality: Inequality::GreaterThan }
            .upcast()
    }

    fn gte(&self, val: T) -> (p: RcPredicate) {
        InequalityPredicate {
            field: self.clone(),
            value: val,
            inequality: Inequality::GreaterThanEqual,
        }.upcast()
    }
}

impl<T: ToExpression<RawExpr>> ToInequalityPredicate<RawExpr, T> for RawExpr {
    fn lt(&self, val: T) -> (p: RcPredicate) {
        InequalityPredicate { field: self.clone(), value: val, inequality: Inequality::LessThan }
            .upcast()
    }

    fn lte(&self, val: T) -> (p: RcPredicate) {
        InequalityPredicate {
            field: self.clone(),
            value: val,
            inequality: Inequality::LessThanEqual,
        }.upcast()
    }

    fn gt(&self, val: T) -> (p: RcPredicate) {
        InequalityPredicate { field: self.clone(), value: val, inequality: Inequality::GreaterThan }
            .upcast()
    }

    fn gte(&self, val: T) -> (p: RcPredicate) {
        InequalityPredicate {
            field: self.clone(),
            value: val,
            inequality: Inequality::GreaterThanEqual,
        }.upcast()
    }
}

} // verus!
