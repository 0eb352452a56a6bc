//! The update statement and its builder.

use vstd::prelude::*;
use std::marker::PhantomData;
use crate::clauses::{
    clone_returning, guard_pieces, guard_to_sql, only_pieces, only_to_sql, returning_list,
    returning_one, returning_pieces, returning_to_sql, returning_two, returning_view,
};
use crate::expression::{Expression, ExpressionView, RcExpression, ToExpression};
use crate::field::{Field, FieldView, NamedField, RcField};
use crate::from::{RcTable, Table, TableDef, TableView};
use crate::predicate::{PredicateView, RcPredicate};
use crate::select_query::{
    add_and, add_or, clone_predicate, expressions_view, predicate_view, LimitMany, NoResult,
    Queryable, Select, SelectView,
};
use crate::share::share;
use crate::sql::{joined, text_piece, Piece, QueryToSql, SqlContext, ToSql};

verus! {

/// One assignment of an update: a column and the expression that gives its
/// new value. The default of a column is no expression: an update cannot
/// assign it.
#[derive(Debug)]
pub struct FieldUpdate {
    field: RcField,
    value: RcExpression,
}

/// The mathematical content of an assignment.
pub struct FieldUpdateView {
    pub field: FieldView,
    pub value: ExpressionView,
}

impl FieldUpdateView {
    /// The pieces of the assignment: the name of the column, without its
    /// qualifier, ` = ` and the expression.
    pub open spec fn pieces(self) -> Seq<Piece> {
        self.field.column_pieces() + text_piece(" = "@) + self.value.pieces()
    }
}

impl View for FieldUpdate {
    type V = FieldUpdateView;

    closed spec fn view(&self) -> FieldUpdateView {
        FieldUpdateView { field: self.field@, value: self.value@ }
    }
}

impl Clone for FieldUpdate {
    fn clone(&self) -> (r: Self)
        ensures
            r == *self,
    {
        FieldUpdate { field: share(&self.field), value: share(&self.value) }
    }
}

impl FieldUpdate {
    /// Writes the assignment.
    pub fn to_sql(&self, ctx: &mut SqlContext)
        ensures
            final(ctx).mode() == old(ctx).mode(),
            final(ctx).pieces() == old(ctx).pieces() + self@.pieces(),
    {
        self.field.column_to_sql(ctx);
        ctx.push_text(" = ");
        self.value.to_sql(ctx);
    }
}

/// The columns that an update can assign to.
pub trait ToFieldUpdate<T>: Field {
    /// The assignment of `val` to this column.
    fn set<E: ToExpression<T>>(&self, val: &E) -> (update: FieldUpdate)
        ensures
            update@ == (FieldUpdateView {
                field: self.field_view(),
                value: val.expression_view(),
            }),
    ;
}

impl<T> ToFieldUpdate<T> for NamedField<T> {
    fn set<E: ToExpression<T>>(&self, val: &E) -> (update: FieldUpdate) {
        FieldUpdate { field: self.upcast_field(), value: val.upcast_expression() }
    }
}

/// An update statement under construction. `T` is the type of the rows it
/// returns, `L` its state ([`NoResult`], or [`LimitMany`] once it returns
/// rows) and `M` a tag that the caller is free to use; none of them is
/// stored.
#[derive(Debug)]
pub struct UpdateQuery<T, L, M> {
    pub only: bool,
    pub table: RcTable,
    pub updates: Vec<FieldUpdate>,
    pub where_: Option<RcPredicate>,
    pub all: bool,
    pub returning: Option<Select>,
    pub marker: PhantomData<(T, L, M)>,
}

/// The mathematical content of an update statement.
pub struct UpdateView {
    /// Whether the tables that inherit from the target are left out.
    pub only: bool,
    pub table: TableView,
    /// The assignments, in the order in which they were added.
    pub updates: Seq<FieldUpdateView>,
    pub where_: Option<PredicateView>,
    /// Whether the statement was told to update every row.
    pub all: bool,
    pub returning: Option<SelectView>,
}

/// The views of a sequence of assignments, in order.
pub open spec fn updates_view(items: Seq<FieldUpdate>) -> Seq<FieldUpdateView> {
    Seq::new(items.len(), |i: int| items[i]@)
}

/// The pieces of each of a sequence of assignments, in order.
pub open spec fn update_parts(items: Seq<FieldUpdateView>) -> Seq<Seq<Piece>> {
    Seq::new(items.len(), |i: int| items[i].pieces())
}

impl UpdateView {
    /// The pieces of the statement, without a terminator: `UPDATE`, `ONLY`
    /// where it is asked for, the table, `SET` and the assignments with a
    /// comma between each two, then the clause that says which rows are
    /// updated, and the `RETURNING` clause.
    pub open spec fn pieces(self) -> Seq<Piece> {
        text_piece("UPDATE "@) + only_pieces(self.only) + self.table.pieces() + text_piece(
            " SET "@,
        ) + joined(update_parts(self.updates), ", "@) + guard_pieces(self.where_, self.all)
            + returning_pieces(self.returning)
    }
}

impl<T, L, M> View for UpdateQuery<T, L, M> {
    type V = UpdateView;

    open spec fn view(&self) -> UpdateView {
        UpdateView {
            only: self.only,
            table: self.table@,
            updates: updates_view(self.updates@),
            where_: predicate_view(self.where_),
            all: self.all,
            returning: returning_view(self.returning),
        }
    }
}

/// A copy of a list of assignments.
pub fn clone_updates(items: &Vec<FieldUpdate>) -> (r: Vec<FieldUpdate>)
    ensures
        r@ == items@,
{
    let mut r: Vec<FieldUpdate> = Vec::new();
    let mut i: usize = 0;
    while i < items.len()
        invariant
            0 <= i <= items.len(),
            r@ == items@.take(i as int),
        decreases items.len() - i,
    {
        r.push(items[i].clone());
        i = i + 1;
    }
    r
}

/// Writes assignments with a comma between each two.
pub fn updates_to_sql(items: &Vec<FieldUpdate>, ctx: &mut SqlContext)
    ensures
        final(ctx).mode() == old(ctx).mode(),
        final(ctx).pieces() == old(ctx).pieces() + joined(
            update_parts(updates_view(items@)),
            ", "@,
        ),
{
    let ghost parts = update_parts(updates_view(items@));
    let mut i: usize = 0;
    while i < items.len()
        invariant
            0 <= i <= items.len(),
            ctx.mode() == old(ctx).mode(),
            parts == update_parts(updates_view(items@)),
            ctx.pieces() == old(ctx).pieces() + joined(parts.take(i as int), ", "@),
        decreases items.len() - i,
    {
        if i > 0 {
            ctx.push_text(", ");
        }
        items[i].to_sql(ctx);
        proof {
            let before = parts.take(i + 1);
            assert(before.drop_last() =~= parts.take(i as int));
        }
        i = i + 1;
    }
    assert(parts.take(items.len() as int) =~= parts);
}

impl<T, L, M> Clone for UpdateQuery<T, L, M> {
    fn clone(&self) -> (r: Self)
        ensures
            r@ == self@,
    {
        UpdateQuery {
            only: self.only,
            table: share(&self.table),
            updates: clone_updates(&self.updates),
            where_: clone_predicate(&self.where_),
            all: self.all,
            returning: clone_returning(&self.returning),
            marker: PhantomData,
        }
    }
}

impl<T, L, M> UpdateQuery<T, L, M> {
    /// An update of `table` that assigns nothing, has no predicate, was not
    /// told to update every row, and returns nothing.
    pub fn new<S: Table>(table: &S) -> (query: UpdateQuery<T, L, M>)
        ensures
            query@ == (UpdateView {
                only: false,
                table: table.table_view(),
                updates: Seq::empty(),
                where_: None,
                all: false,
                returning: None,
            }),
    {
        let query = UpdateQuery {
            only: false,
            table: table.upcast_table(),
            updates: Vec::new(),
            where_: None,
            all: false,
            returning: None,
            marker: PhantomData,
        };
        assert(query@.updates =~= Seq::empty());
        query
    }

    /// The statement restricted to the table itself, without the tables
    /// that inherit from it.
    pub fn only(self) -> (query: UpdateQuery<T, L, M>)
        ensures
            query@ == (UpdateView { only: true, ..self@ }),
    {
        let mut query = self;
        query.only = true;
        query
    }

    /// The statement with one more assignment, after those it has.
    pub fn field(self, update: FieldUpdate) -> (query: UpdateQuery<T, L, M>)
        ensures
            query@ == (UpdateView { updates: self@.updates.push(update@), ..self@ }),
    {
        let mut query = self;
        let ghost before = query.updates@;
        query.updates.push(update);
        assert(updates_view(query.updates@) =~= updates_view(before).push(update@));
        query
    }

    /// The statement told to update every row: it loses its predicate and
    /// is rendered without any condition.
    pub fn all(self) -> (query: UpdateQuery<T, L, M>)
        ensures
            query@ == (UpdateView { where_: None, all: true, ..self@ }),
    {
        let mut query = self;
        query.where_ = None;
        query.all = true;
        query
    }

    /// This statement with `returning` for what it returns, in another
    /// state.
    fn with_returning<T2, L2>(self, returning: Option<Select>) -> (query: UpdateQuery<T2, L2, M>)
        ensures
            query@ == (UpdateView { returning: returning_view(returning), ..self@ }),
    {
        UpdateQuery {
            only: self.only,
            table: self.table,
            updates: self.updates,
            where_: self.where_,
            all: self.all,
            returning,
            marker: PhantomData,
        }
    }

    /// The statement returning one expression of each updated row.
    pub fn returning_1<R, E: Expression<R>>(self, field: &E) -> (query: UpdateQuery<
        R,
        LimitMany,
        M,
    >)
        ensures
            query@ == (UpdateView {
                returning: Some(SelectView::Only(seq![field.expression_view()])),
                ..self@
            }),
    {
        self.with_returning(Some(returning_one::<R, E>(field)))
    }

    /// The statement returning two expressions of each updated row.
    pub fn returning_2<R1, R2, E1: Expression<R1>, E2: Expression<R2>>(
        self,
        field1: &E1,
        field2: &E2,
    ) -> (query: UpdateQuery<(R1, R2), LimitMany, M>)
        ensures
            query@ == (UpdateView {
                returning: Some(
                    SelectView::Only(seq![field1.expression_view(), field2.expression_view()]),
                ),
                ..self@
            }),
    {
        self.with_returning(Some(returning_two::<R1, R2, E1, E2>(field1, field2)))
    }

    /// The statement returning the expressions `fields` of each updated
    /// row.
    pub fn returning(self, fields: &[RcExpression]) -> (query: UpdateQuery<(), LimitMany, M>)
        ensures
            query@ == (UpdateView {
                returning: Some(SelectView::Only(expressions_view(fields@))),
                ..self@
            }),
    {
        self.with_returning(Some(returning_list(fields)))
    }

    /// The statement returning every column of each updated row.
    pub fn returning_all(self) -> (query: UpdateQuery<(), LimitMany, M>)
        ensures
            query@ == (UpdateView { returning: Some(SelectView::All), ..self@ }),
    {
        self.with_returning(Some(Select::All))
    }

    /// The statement returning nothing.
    pub fn no_returning(self) -> (query: UpdateQuery<(), NoResult, M>)
        ensures
            query@ == (UpdateView { returning: None, ..self@ }),
    {
        self.with_returning(None)
    }
}

impl<T, L, M> Queryable for UpdateQuery<T, L, M> {
    open spec fn where_view(&self) -> Option<PredicateView> {
        self@.where_
    }

    open spec fn with_where(&self, where_: Option<PredicateView>, other: &Self) -> bool {
        other@ == (UpdateView { where_, ..self@ })
    }

    fn get_where(&self) -> (where_: &Option<RcPredicate>) {
        &self.where_
    }

    fn set_where(&mut self, predicate: RcPredicate) {
        self.where_ = Some(predicate);
    }

    fn unset_where(&mut self) {
        self.where_ = None;
    }

    fn or(&self, predicate: RcPredicate) -> (query: Self) {
        let mut query = self.clone();
        query.where_ = Some(add_or(&self.where_, predicate));
        query
    }

    fn where_(&self, predicate: RcPredicate) -> (query: Self) {
        let mut query = self.clone();
        query.where_ = Some(add_and(&self.where_, predicate));
        query
    }

    fn and(&self, predicate: RcPredicate) -> (query: Self) {
        self.where_(predicate)
    }
}

impl<T, L, M> ToSql for UpdateQuery<T, L, M> {
    open spec fn sql_pieces(&self) -> Seq<Piece> {
        self@.pieces()
    }

    fn to_sql(&self, ctx: &mut SqlContext) {
        let ghost base = ctx.pieces();
        ctx.push_text("UPDATE ");
        only_to_sql(self.only, ctx);
        self.table.to_sql(ctx);
        let ghost target = text_piece("UPDATE "@) + only_pieces(self@.only) + self@.table.pieces();
        assert(ctx.pieces() =~= base + target);
        ctx.push_text(" SET ");
        updates_to_sql(&self.updates, ctx);
        let ghost assigned = target + text_piece(" SET "@) + joined(
            update_parts(self@.updates),
            ", "@,
        );
        assert(ctx.pieces() =~= base + assigned);
        guard_to_sql(&self.where_, self.all, ctx);
        let ghost guarded = assigned + guard_pieces(self@.where_, self@.all);
        assert(ctx.pieces() =~= base + guarded);
        returning_to_sql(&self.returning, ctx);
        assert(ctx.pieces() =~= base + (guarded + returning_pieces(self@.returning)));
    }
}

impl<T, L, M> QueryToSql for UpdateQuery<T, L, M> {

}

/// The tables whose rows can be updated.
pub trait Updatable<M>: Table + Sized {
    /// An update of this table. As it stands it assigns nothing and updates
    /// nothing: it is given assignments, and a predicate or the order to
    /// update every row.
    fn update(&self) -> (query: UpdateQuery<(), NoResult, M>)
        ensures
            query@ == (UpdateView {
                only: false,
                table: self.table_view(),
                updates: Seq::empty(),
                where_: None,
                all: false,
                returning: None,
            }),
    {
        UpdateQuery::new(self)
    }
}

impl Updatable<()> for TableDef {

}

} // verus!
