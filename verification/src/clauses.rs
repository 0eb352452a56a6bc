//! The clauses that the statements that change rows share: `ONLY`, the
//! guard that keeps a statement from changing every row by accident, and
//! `RETURNING`.

use vstd::prelude::*;
use crate::expression::{Expression, RcExpression};
use crate::predicate::{PredicateView, RcPredicate};
use crate::select_query::{
    expressions_view, predicate_view, where_pieces, where_to_sql, Select, SelectView,
};
use crate::sql::{text_piece, Piece, SqlContext};

verus! {

/// The view of an optional choice of what a statement returns.
pub open spec fn returning_view(returning: Option<Select>) -> Option<SelectView> {
    match returning {
        Some(select) => Some(select@),
        None => None,
    }
}

/// The `RETURNING` clause: ` RETURNING ` and what is returned, or nothing
/// where the statement returns nothing.
pub open spec fn returning_pieces(returning: Option<SelectView>) -> Seq<Piece> {
    match returning {
        Some(select) => text_piece(" RETURNING "@) + select.pieces(),
        None => Seq::empty(),
    }
}

/// The clause that says which rows a statement changes. With a predicate it
/// is the `WHERE` clause of the predicate. Without one, it is nothing where
/// the statement was told to change every row, and otherwise a condition
/// that no row meets: a statement changes every row only where it was told
/// to.
pub open spec fn guard_pieces(where_: Option<PredicateView>, all: bool) -> Seq<Piece> {
    if where_.is_none() && !all {
        text_piece(" WHERE true = false"@)
    } else {
        where_pieces(where_)
    }
}

/// `ONLY ` where it is asked for.
pub open spec fn only_pieces(only: bool) -> Seq<Piece> {
    if only {
        text_piece("ONLY "@)
    } else {
        Seq::empty()
    }
}

/// Writes `ONLY ` where it is asked for.
pub fn only_to_sql(only: bool, ctx: &mut SqlContext)
    ensures
        final(ctx).mode() == old(ctx).mode(),
        final(ctx).pieces() == old(ctx).pieces() + only_pieces(only),
{
    if only {
        ctx.push_text("ONLY ");
    }
}

/// Writes the `RETURNING` clause, if there is one.
pub fn returning_to_sql(returning: &Option<Select>, ctx: &mut SqlContext)
    ensures
        final(ctx).mode() == old(ctx).mode(),
        final(ctx).pieces() == old(ctx).pieces() + returning_pieces(returning_view(*returning)),
{
    match returning {
        Some(select) => {
            ctx.push_text(" RETURNING ");
            select.to_sql(ctx);
        },
        None => {},
    }
}

/// Writes the clause that says which rows a statement changes.
pub fn guard_to_sql(where_: &Option<RcPredicate>, all: bool, ctx: &mut SqlContext)
    ensures
        final(ctx).mode() == old(ctx).mode(),
        final(ctx).pieces() == old(ctx).pieces() + guard_pieces(predicate_view(*where_), all),
{
    if where_.is_none() && !all {
        ctx.push_text(" WHERE true = false");
    } else {
        where_to_sql(where_, ctx);
    }
}

/// A copy of an optional choice of what a statement returns.
pub fn clone_returning(returning: &Option<Select>) -> (r: Option<Select>)
    ensures
        returning_view(r) == returning_view(*returning),
{
    match returning {
        Some(select) => Some(select.clone()),
        None => None,
    }
}

/// The choice to return one expression.
pub fn returning_one<R, E: Expression<R>>(field: &E) -> (select: Select)
    ensures
        select@ == SelectView::Only(seq![field.expression_view()]),
{
    let mut items: Vec<RcExpression> = Vec::new();
    items.push(field.upcast_expression());
    let select = Select::Only(items);
    assert(select@->Only_0 =~= seq![field.expression_view()]);
    select
}

/// The choice to return two expressions.
pub fn returning_two<R1, R2, E1: Expression<R1>, E2: Expression<R2>>(field1: &E1, field2: &E2)
    -> (select: Select)
    ensures
        select@ == SelectView::Only(seq![field1.expression_view(), field2.expression_view()]),
{
    let mut items: Vec<RcExpression> = Vec::new();
    items.push(field1.upcast_expression());
    items.push(field2.upcast_expression());
    let select = Select::Only(items);
    assert(select@->Only_0 =~= seq![field1.expression_view(), field2.expression_view()]);
    select
}

/// The choice to return the expressions `fields`, in this order.
pub fn returning_list(fields: &[RcExpression]) -> (select: Select)
    ensures
        select@ == SelectView::Only(expressions_view(fields@)),
{
    let mut items: Vec<RcExpression> = Vec::new();
    let mut i: usize = 0;
    while i < fields.len()
        invariant
            0 <= i <= fields.len(),
            items@ == fields@.take(i as int),
        decreases fields.len() - i,
    {
        items.push(crate::share::share(&fields[i]));
        i = i + 1;
    }
    let select = Select::Only(items);
    assert(select@->Only_0 =~= expressions_view(fields@));
    select
}

} // verus!
