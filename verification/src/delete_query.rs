//! The delete statement and its builder.

use vstd::prelude::*;
use std::marker::PhantomData;
use crate::expression::{Expression, RcExpression};
use crate::from::{From, FromView, RcFrom, RcTable, Table, TableDef, TableView};
use crate::predicate::{PredicateView, RcPredicate};
use crate::clauses::{
    clone_returning, guard_pieces, guard_to_sql, only_pieces, only_to_sql, returning_list,
    returning_one, returning_pieces, returning_to_sql, returning_two, returning_view,
};
use crate::select_query::{
    add_and, add_or, clone_predicate, expressions_view, predicate_view, LimitMany, NoResult,
    Queryable, Select, SelectView,
};
use crate::share::share;
use crate::sql::{joined, text_piece, Piece, QueryToSql, SqlContext, ToSql};

verus! {

/// A delete statement under construction. `T` is the type of the rows it
/// returns, `L` its state ([`NoResult`], or [`LimitMany`] once it returns
/// rows) and `M` a tag that the caller is free to use; none of them is
/// stored.
#[derive(Debug)]
pub struct DeleteQuery<T, L, M> {
    pub only: bool,
    pub table: RcTable,
    pub using: Option<Vec<RcFrom>>,
    pub where_: Option<RcPredicate>,
    pub all: bool,
    pub returning: Option<Select>,
    pub marker: PhantomData<(T, L, M)>,
}

/// The mathematical content of a delete statement.
pub struct DeleteView {
    /// Whether the tables that inherit from the target are left out.
    pub only: bool,
    pub table: TableView,
    /// The other relations that the predicate may refer to.
    pub using: Option<Seq<FromView>>,
    pub where_: Option<PredicateView>,
    /// Whether the statement was told to delete every row.
    pub all: bool,
    pub returning: Option<SelectView>,
}

/// The views of a sequence of shared sources, in order.
pub open spec fn sources_view(items: Seq<RcFrom>) -> Seq<FromView> {
    Seq::new(items.len(), |i: int| items[i]@)
}

/// The view of an optional list of shared sources.
pub open spec fn using_view(using: Option<Vec<RcFrom>>) -> Option<Seq<FromView>> {
    match using {
        Some(items) => Some(sources_view(items@)),
        None => None,
    }
}

/// The pieces of each of a sequence of sources, in order.
pub open spec fn source_parts(items: Seq<FromView>) -> Seq<Seq<Piece>> {
    Seq::new(items.len(), |i: int| items[i].pieces())
}

/// The `USING` clause: ` USING ` and the relations with a comma between
/// each two, or nothing where the statement names none.
pub open spec fn using_pieces(using: Option<Seq<FromView>>) -> Seq<Piece> {
    match using {
        Some(items) => text_piece(" USING "@) + joined(source_parts(items), ", "@),
        None => Seq::empty(),
    }
}

impl DeleteView {
    /// The pieces of the statement, without a terminator: `DELETE FROM`,
    /// `ONLY` where it is asked for, the table, then the `USING` clause, the
    /// clause that says which rows are deleted, and the `RETURNING` clause.
    pub open spec fn pieces(self) -> Seq<Piece> {
        text_piece("DELETE FROM "@) + only_pieces(self.only) + self.table.pieces() + using_pieces(
            self.using,
        ) + guard_pieces(self.where_, self.all) + returning_pieces(self.returning)
    }

    /// The statement after one more relation has been named for the
    /// predicate to refer to.
    pub open spec fn with_using(self, from: FromView) -> DeleteView {
        DeleteView {
            using: Some(
                match self.using {
                    Some(items) => items.push(from),
                    None => seq![from],
                },
            ),
            ..self
        }
    }
}

impl<T, L, M> View for DeleteQuery<T, L, M> {
    type V = DeleteView;

    open spec fn view(&self) -> DeleteView {
        DeleteView {
            only: self.only,
            table: self.table@,
            using: using_view(self.using),
            where_: predicate_view(self.where_),
            all: self.all,
            returning: returning_view(self.returning),
        }
    }
}

/// A copy of a list of shared sources, which shares every one of them.
pub fn clone_sources(items: &Vec<RcFrom>) -> (r: Vec<RcFrom>)
    ensures
        r@ == items@,
{
    let mut r: Vec<RcFrom> = Vec::new();
    let mut i: usize = 0;
    while i < items.len()
        invariant
            0 <= i <= items.len(),
            r@ == items@.take(i as int),
        decreases items.len() - i,
    {
        r.push(share(&items[i]));
        i = i + 1;
    }
    r
}

/// Writes the `USING` clause, if there is one.
pub fn using_to_sql(using: &Option<Vec<RcFrom>>, ctx: &mut SqlContext)
    ensures
        final(ctx).mode() == old(ctx).mode(),
        final(ctx).pieces() == old(ctx).pieces() + using_pieces(using_view(*using)),
{
    match using {
        Some(items) => {
            ctx.push_text(" USING ");
            let ghost head = ctx.pieces();
            let ghost parts = source_parts(sources_view(items@));
            let mut i: usize = 0;
            while i < items.len()
                invariant
                    0 <= i <= items.len(),
                    ctx.mode() == old(ctx).mode(),
                    parts == source_parts(sources_view(items@)),
                    ctx.pieces() == head + joined(parts.take(i as int), ", "@),
                decreases items.len() - i,
            {
                if i > 0 {
                    ctx.push_text(", ");
                }
                items[i].to_sql(ctx);
                proof {
                    let before = parts.take(i + 1);
                    assert(before.drop_last() =~= parts.take(i as int));
                }
                i = i + 1;
            }
            assert(parts.take(items.len() as int) =~= parts);
        },
        None => {
        },
    }
}

impl<T, L, M> Clone for DeleteQuery<T, L, M> {
    fn clone(&self) -> (r: Self)
        ensures
            r@ == self@,
    {
        DeleteQuery {
            only: self.only,
            table: share(&self.table),
            using: match &self.using {
                Some(items) => Some(clone_sources(items)),
                None => None,
            },
            where_: clone_predicate(&self.where_),
            all: self.all,
            returning: clone_returning(&self.returning),
            marker: PhantomData,
        }
    }
}

impl<T, L, M> DeleteQuery<T, L, M> {
    /// A delete from `table` that names no other relation, has no
    /// predicate, was not told to delete every row, and returns nothing.
    pub fn new<S: Table>(table: &S) -> (query: DeleteQuery<T, L, M>)
        ensures
            query@ == (DeleteView {
                only: false,
                table: table.table_view(),
                using: None,
                where_: None,
                all: false,
                returning: None,
            }),
    {
        DeleteQuery {
            only: false,
            table: table.upcast_table(),
            using: None,
            where_: None,
            all: false,
            returning: None,
            marker: PhantomData,
        }
    }

    /// The statement restricted to the table itself, without the tables
    /// that inherit from it.
    pub fn only(self) -> (query: DeleteQuery<T, L, M>)
        ensures
            query@ == (DeleteView { only: true, ..self@ }),
    {
        let mut query = self;
        query.only = true;
        query
    }

    /// The statement with one more relation that its predicate may refer
    /// to, after those it has.
    pub fn using<F: From>(self, using: &F) -> (query: DeleteQuery<T, L, M>)
        ensures
            query@ == self@.with_using(using.from_view()),
    {
        let DeleteQuery { only, table, using: current, where_, all, returning, marker } = self;
        let source = using.upcast_from();
        let mut items: Vec<RcFrom> = match current {
            Some(items) => items,
            None => Vec::new(),
        };
        let ghost before = items@;
        items.push(source);
        let query = DeleteQuery { only, table, using: Some(items), where_, all, returning, marker };
        proof {
            assert(sources_view(items@) =~= sources_view(before).push(source@));
            assert(sources_view(Seq::<RcFrom>::empty()) =~= Seq::<FromView>::empty());
        }
        query
    }

    /// The statement told to delete every row: it loses its predicate and
    /// is rendered without any condition.
    pub fn all(self) -> (query: DeleteQuery<T, L, M>)
        ensures
            query@ == (DeleteView { where_: None, all: true, ..self@ }),
    {
        let mut query = self;
        query.where_ = None;
        query.all = true;
        query
    }

    /// This statement with `returning` for what it returns, in another
    /// state.
    fn with_returning<T2, L2>(self, returning: Option<Select>) -> (query: DeleteQuery<T2, L2, M>)
        ensures
            query@ == (DeleteView { returning: returning_view(returning), ..self@ }),
    {
        DeleteQuery {
            only: self.only,
            table: self.table,
            using: self.using,
            where_: self.where_,
            all: self.all,
            returning,
            marker: PhantomData,
        }
    }

    /// The statement returning one expression of each deleted row.
    pub fn returning_1<R, E: Expression<R>>(self, field: &E) -> (query: DeleteQuery<
        R,
        LimitMany,
        M,
    >)
        ensures
            query@ == (DeleteView {
                returning: Some(SelectView::Only(seq![field.expression_view()])),
                ..self@
            }),
    {
        self.with_returning(Some(returning_one::<R, E>(field)))
    }

    /// The statement returning two expressions of each deleted row.
    pub fn returning_2<R1, R2, E1: Expression<R1>, E2: Expression<R2>>(
        self,
        field1: &E1,
        field2: &E2,
    ) -> (query: DeleteQuery<(R1, R2), LimitMany, M>)
        ensures
            query@ == (DeleteView {
                returning: Some(
                    SelectView::Only(seq![field1.expression_view(), field2.expression_view()]),
                ),
                ..self@
            }),
    {
        self.with_returning(Some(returning_two::<R1, R2, E1, E2>(field1, field2)))
    }

    /// The statement returning the expressions `fields` of each deleted
    /// row.
    pub fn returning(self, fields: &[RcExpression]) -> (query: DeleteQuery<(), LimitMany, M>)
        ensures
            query@ == (DeleteView {
                returning: Some(SelectView::Only(expressions_view(fields@))),
                ..self@
            }),
    {
        self.with_returning(Some(returning_list(fields)))
    }

    /// The statement returning every column of each deleted row.
    pub fn returning_all(self) -> (query: DeleteQuery<(), LimitMany, M>)
        ensures
            query@ == (DeleteView { returning: Some(SelectView::All), ..self@ }),
    {
        self.with_returning(Some(Select::All))
    }

    /// The statement returning nothing.
    pub fn no_returning(self) -> (query: DeleteQuery<(), NoResult, M>)
        ensures
            query@ == (DeleteView { returning: None, ..self@ }),
    {
        self.with_returning(None)
    }
}

impl<T, L, M> Queryable for DeleteQuery<T, L, M> {
    open spec fn where_view(&self) -> Option<PredicateView> {
        self@.where_
    }

    open spec fn with_where(&self, where_: Option<PredicateView>, other: &Self) -> bool {
        other@ == (DeleteView { where_, ..self@ })
    }

    fn get_where(&self) -> (where_: &Option<RcPredicate>) {
        &self.where_
    }

    fn set_where(&mut self, predicate: RcPredicate) {
        self.where_ = Some(predicate);
    }

    fn unset_where(&mut self) {
        self.where_ = None;
    }

    fn or(&self, predicate: RcPredicate) -> (query: Self) {
        let mut query = self.clone();
        query.where_ = Some(add_or(&self.where_, predicate));
        query
    }

    fn where_(&self, predicate: RcPredicate) -> (query: Self) {
        let mut query = self.clone();
        query.where_ = Some(add_and(&self.where_, predicate));
        query
    }

    fn and(&self, predicate: RcPredicate) -> (query: Self) {
        self.where_(predicate)
    }
}

impl<T, L, M> ToSql for DeleteQuery<T, L, M> {
    open spec fn sql_pieces(&self) -> Seq<Piece> {
        self@.pieces()
    }

    fn to_sql(&self, ctx: &mut SqlContext) {
        let ghost base = ctx.pieces();
        ctx.push_text("DELETE FROM ");
        only_to_sql(self.only, ctx);
        self.table.to_sql(ctx);
        let ghost target = text_piece("DELETE FROM "@) + only_pieces(self@.only)
            + self@.table.pieces();
        assert(ctx.pieces() =~= base + target);
        using_to_sql(&self.using, ctx);
        let ghost related = target + using_pieces(self@.using);
        assert(ctx.pieces() =~= base + related);
        guard_to_sql(&self.where_, self.all, ctx);
        let ghost guarded = related + guard_pieces(self@.where_, self@.all);
        assert(ctx.pieces() =~= base + guarded);
        returning_to_sql(&self.returning, ctx);
        assert(ctx.pieces() =~= base + (guarded + returning_pieces(self@.returning)));
    }
}

impl<T, L, M> QueryToSql for DeleteQuery<T, L, M> {

}

/// The tables that rows can be deleted from.
pub trait Deletable<M>: Table + Sized {
    /// A delete from this table. As it stands it deletes nothing: it is
    /// given a predicate, or told to delete every row.
    fn delete(&self) -> (query: DeleteQuery<(), NoResult, M>)
        ensures
            query@ == (DeleteView {
                only: false,
                table: self.table_view(),
                using: None,
                where_: None,
                all: false,
                returning: None,
            }),
    {
        DeleteQuery::new(self)
    }
}

impl Deletable<()> for TableDef {

}

} // verus!
