//! Ordering: the columns by which a select sorts its rows.

use vstd::prelude::*;
use crate::field::{Field, FieldView, RcField};
use crate::share::share;
use crate::sql::{text_piece, Piece, SqlContext, ToSql};

verus! {

/// The direction of an ordering.
#[derive(Clone, Copy, Debug, PartialEq, Eq)]
pub enum Order {
    Asc,
    Desc,
}

impl Order {
    /// The keyword of the direction, with a space before it.
    pub open spec fn sql_text(self) -> Seq<char> {
        match self {
            Order::Asc => " ASC"@,
            Order::Desc => " DESC"@,
        }
    }
}

/// One entry of an `ORDER BY` clause: a column and a direction.
#[derive(Debug)]
pub struct OrderBy {
    by: RcField,
    order: Order,
}

/// The mathematical content of an ordering.
pub struct OrderByView {
    pub by: FieldView,
    pub order: Order,
}

impl OrderByView {
    /// The pieces of the ordering: the column and the direction.
    pub open spec fn pieces(self) -> Seq<Piece> {
        self.by.pieces() + text_piece(self.order.sql_text())
    }
}

impl View for OrderBy {
    type V = OrderByView;

    closed spec fn view(&self) -> OrderByView {
        OrderByView { by: self.by@, order: self.order }
    }
}

impl Clone for OrderBy {
    fn clone(&self) -> (r: Self)
        ensures
            r == *self,
    {
        OrderBy { by: share(&self.by), order: self.order }
    }
}

impl OrderBy {
    /// Ascending by `field`.
    pub fn by_field<F: Field>(field: &F) -> (order_by: OrderBy)
        ensures
            order_by@ == (OrderByView { by: field.field_view(), order: Order::Asc }),
    {
        OrderBy { by: field.upcast_field(), order: Order::Asc }
    }

    /// Descending by `field`.
    pub fn reverse_by<F: Field>(field: &F) -> (order_by: OrderBy)
        ensures
            order_by@ == (OrderByView { by: field.field_view(), order: Order::Desc }),
    {
        OrderBy { by: field.upcast_field(), order: Order::Desc }
    }

    /// Writes the ordering.
    pub fn to_sql(&self, ctx: &mut SqlContext)
        ensures
            final(ctx).mode() == old(ctx).mode(),
            final(ctx).pieces() == old(ctx).pieces() + self@.pieces(),
    {
        self.by.to_sql(ctx);
        match self.order {
            Order::Asc => {
                ctx.push_text(" ASC");
            },
            Order::Desc => {
                ctx.push_text(" DESC");
            },
        }
    }
}

impl ToSql for OrderBy {
    open spec fn sql_pieces(&self) -> Seq<Piece> {
        self@.pieces()
    }

    fn to_sql(&self, ctx: &mut SqlContext) {
        self.to_sql(ctx)
    }
}

} // verus!
