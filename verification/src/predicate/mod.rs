//! Predicates: boolean-valued trees over expressions.

pub mod in_list;
pub mod inequality;
pub mod is;
pub mod is_null;

use vstd::prelude::*;
use std::sync::Arc;
use crate::expression::{ExpressionView, ListExpressionView, RcExpression, RcListExpression};
use crate::predicate::inequality::Inequality;
use crate::share::share;
use crate::sql::{bracketed, text_piece, Piece, SqlContext, ToSql};

verus! {

/// A predicate whose operand types have been forgotten.
#[derive(Debug)]
pub enum BoxedPredicate {
    Is { field: RcExpression, value: RcExpression },
    Inequality { field: RcExpression, value: RcExpression, inequality: Inequality },
    IsNull { field: RcExpression, null: bool },
    In { field: RcExpression, values: RcListExpression, negated: bool },
    And { left: RcPredicate, right: RcPredicate },
    Or { left: RcPredicate, right: RcPredicate },
}

/// A shared predicate. Composing predicates shares the operands and never
/// copies or changes them.
pub type RcPredicate = Arc<BoxedPredicate>;

/// The mathematical content of a predicate.
pub enum PredicateView {
    Is { field: ExpressionView, value: ExpressionView },
    Inequality { field: ExpressionView, value: ExpressionView, inequality: Inequality },
    IsNull { field: ExpressionView, null: bool },
    In { field: ExpressionView, values: ListExpressionView, negated: bool },
    And { left: Box<PredicateView>, right: Box<PredicateView> },
    Or { left: Box<PredicateView>, right: Box<PredicateView> },
}

impl BoxedPredicate {
    /// The mathematical content of the predicate.
    pub open spec fn model(self) -> PredicateView
        decreases self,
    {
        match self {
            BoxedPredicate::Is { field, value } => PredicateView::Is {
                field: (*field).model(),
                value: (*value).model(),
            },
            BoxedPredicate::Inequality { field, value, inequality } => PredicateView::Inequality {
                field: (*field).model(),
                value: (*value).model(),
                inequality,
            },
            BoxedPredicate::IsNull { field, null } => PredicateView::IsNull {
                field: (*field).model(),
                null,
            },
            BoxedPredicate::In { field, values, negated } => PredicateView::In {
                field: (*field).model(),
                values: (*values).model(),
                negated,
            },
            BoxedPredicate::And { left, right } => PredicateView::And {
                left: Box::new((*left).model()),
                right: Box::new((*right).model()),
            },
            BoxedPredicate::Or { left, right } => PredicateView::Or {
                left: Box::new((*left).model()),
                right: Box::new((*right).model()),
            },
        }
    }

    /// Whether the predicate is a disjunction.
    pub fn is_or(&self) -> (b: bool)
        ensures
            b == (self@ is Or),
    {
        match self {
            BoxedPredicate::Or { .. } => true,
            _ => false,
        }
    }

    /// Writes the predicate as an operand of `AND`.
    pub fn operand_to_sql(&self, ctx: &mut SqlContext)
        ensures
            final(ctx).mode() == old(ctx).mode(),
            final(ctx).pieces() == old(ctx).pieces() + self@.and_operand(),
        decreases *self, 1nat,
    {
        if self.is_or() {
            ctx.push_text("(");
            self.to_sql(ctx);
            ctx.push_text(")");
        } else {
            self.to_sql(ctx);
        }
    }

    /// Writes the predicate.
    pub fn to_sql(&self, ctx: &mut SqlContext)
        ensures
            final(ctx).mode() == old(ctx).mode(),
            final(ctx).pieces() == old(ctx).pieces() + self@.pieces(),
        decreases *self, 0nat,
    {
        match self {
            BoxedPredicate::Is { field, value } => {
                field.to_sql(ctx);
                ctx.push_text(" = ");
                value.to_sql(ctx);
            },
            BoxedPredicate::Inequality { field, value, inequality } => {
                field.to_sql(ctx);
                ctx.push_text(inequality.as_sql());
                value.to_sql(ctx);
            },
            BoxedPredicate::IsNull { field, null } => {
                field.to_sql(ctx);
                if *null {
                    ctx.push_text(" IS NULL");
                } else {
                    ctx.push_text(" IS NOT NULL");
                }
            },
            BoxedPredicate::In { field, values, negated } => {
                field.to_sql(ctx);
                if *negated {
                    ctx.push_text(" NOT IN (");
                } else {
                    ctx.push_text(" IN (");
                }
                values.to_sql(ctx);
                ctx.push_text(")");
            },
            BoxedPredicate::And { left, right } => {
                left.operand_to_sql(ctx);
                ctx.push_text(" AND ");
                right.operand_to_sql(ctx);
            },
            BoxedPredicate::Or { left, right } => {
                left.to_sql(ctx);
                ctx.push_text(" OR ");
                right.to_sql(ctx);
            },
        }
    }
}

impl View for BoxedPredicate {
    type V = PredicateView;

    open spec fn view(&self) -> PredicateView {
        self.model()
    }
}

impl PredicateView {
    /// The pieces of the predicate. A comparison is its left side, the
    /// operator and its right side; a null test the operand and `IS NULL`
    /// or `IS NOT NULL`; a membership test the operand, `IN` or `NOT IN`
    /// and the list between round brackets. A disjunction is its two sides
    /// with `OR` between them. A conjunction is its two sides with `AND`
    /// between them, where a side that is a disjunction stands between
    /// round brackets and any other side stands bare.
    pub open spec fn pieces(self) -> Seq<Piece>
        decreases self,
    {
        match self {
            PredicateView::Is { field, value } => field.pieces() + text_piece(" = "@)
                + value.pieces(),
            PredicateView::Inequality { field, value, inequality } => field.pieces() + text_piece(
                inequality.sql_text(),
            ) + value.pieces(),
            PredicateView::IsNull { field, null } => field.pieces() + text_piece(
                if null {
                    " IS NULL"@
                } else {
                    " IS NOT NULL"@
                },
            ),
            PredicateView::In { field, values, negated } => field.pieces() + text_piece(
                if negated {
                    " NOT IN ("@
                } else {
                    " IN ("@
                },
            ) + values.pieces() + text_piece(")"@),
            PredicateView::And { left, right } => (if *left is Or {
                bracketed(left.pieces())
            } else {
                left.pieces()
            }) + text_piece(" AND "@) + (if *right is Or {
                bracketed(right.pieces())
            } else {
                right.pieces()
            }),
            PredicateView::Or { left, right } => left.pieces() + text_piece(" OR "@)
                + right.pieces(),
        }
    }

    /// The pieces of the predicate as an operand of `AND`: between round
    /// brackets where it is a disjunction, bare otherwise.
    pub open spec fn and_operand(self) -> Seq<Piece> {
        if self is Or {
            bracketed(self.pieces())
        } else {
            self.pieces()
        }
    }
}

/// What every predicate offers, whatever the types of its operands.
pub trait Predicate {
    /// The mathematical content of the predicate.
    spec fn predicate_view(&self) -> PredicateView;

    /// The predicate as a shared value with its operand types forgotten.
    fn upcast(&self) -> (p: RcPredicate)
        ensures
            p@ == self.predicate_view(),
    ;
}

impl Predicate for RcPredicate {
    open spec fn predicate_view(&self) -> PredicateView {
        self@
    }

    fn upcast(&self) -> (p: RcPredicate) {
        share(self)
    }
}

/// Conjunction of predicates.
pub trait ToAndPredicate: Predicate {
    /// The conjunction of this predicate and `predicate`, in this order. The
    /// new node shares its two operands.
    fn and(&self, predicate: RcPredicate) -> (p: RcPredicate)
        ensures
            p@ == (PredicateView::And {
                left: Box::new(self.predicate_view()),
                right: Box::new(predicate@),
            }),
    ;
}

/// Disjunction of predicates.
pub trait ToOrPredicate: Predicate {
    /// The disjunction of this predicate and `predicate`, in this order. The
    /// new node shares its two operands.
    fn or(&self, predicate: RcPredicate) -> (p: RcPredicate)
        ensures
            p@ == (PredicateView::Or {
                left: Box::new(self.predicate_view()),
                right: Box::new(predicate@),
            }),
    ;
}

impl ToAndPredicate for RcPredicate {
    fn and(&self, predicate: RcPredicate) -> (p: RcPredicate) {
        Arc::new(BoxedPredicate::And { left: share(self), right: predicate })
    }
}

impl ToOrPredicate for RcPredicate {
    fn or(&self, predicate: RcPredicate) -> (p: RcPredicate) {
        Arc::new(BoxedPredicate::Or { left: share(self), right: predicate })
    }
}

impl ToSql for BoxedPredicate {
    open spec fn sql_pieces(&self) -> Seq<Piece> {
        self@.pieces()
    }

    fn to_sql(&self, ctx: &mut SqlContext) {
        self.to_sql(ctx)
    }
}

} // verus!
