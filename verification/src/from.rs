//! Relations: tables, and what a statement can read from.

use vstd::prelude::*;
use std::sync::Arc;
use crate::expression::{ExpressionView, RcExpression, UntypedExpression};
use crate::field::{clone_option, option_view, NamedField, RcField};
use crate::select_query::{
    LimitMany, RcSelectQuery, ResultArity, Select, SelectQuery, SelectStatementView, SelectView,
};
use crate::sql::{bracketed, Piece, SqlContext, ToSql};

verus! {

/// A table: its name and, optionally, the alias under which a statement
/// refers to it.
#[derive(Debug)]
pub struct TableDef {
    name: String,
    alias: Option<String>,
}

/// The mathematical content of a table.
pub struct TableView {
    pub name: Seq<char>,
    pub alias: Option<Seq<char>>,
}

impl TableView {
    /// The table where a statement names a relation: the name, followed by
    /// ` AS ` and the alias where the table has one.
    pub open spec fn pieces(self) -> Seq<Piece> {
        match self.alias {
            Some(alias) => seq![Piece::Text(self.name), Piece::Text(" AS "@), Piece::Text(alias)],
            None => seq![Piece::Text(self.name)],
        }
    }
}

impl View for TableDef {
    type V = TableView;

    closed spec fn view(&self) -> TableView {
        TableView { name: self.name@, alias: option_view(self.alias) }
    }
}

impl Clone for TableDef {
    fn clone(&self) -> (r: Self)
        ensures
            r == *self,
    {
        TableDef { name: self.name.clone(), alias: clone_option(&self.alias) }
    }
}

/// A shared table.
pub type RcTable = Arc<TableDef>;

impl TableDef {
    /// A table without an alias.
    pub fn new(name: &str) -> (table: TableDef)
        ensures
            table@ == (TableView { name: name@, alias: None }),
    {
        TableDef { name: String::from_str(name), alias: None }
    }

    /// The same table under the alias `alias`.
    pub fn alias(&self, alias: &str) -> (table: TableDef)
        ensures
            table@ == (TableView { alias: Some(alias@), ..self@ }),
    {
        TableDef { name: self.name.clone(), alias: Some(String::from_str(alias)) }
    }

    /// Writes the table where a statement names a relation.
    pub fn to_sql(&self, ctx: &mut SqlContext)
        ensures
            final(ctx).mode() == old(ctx).mode(),
            final(ctx).pieces() == old(ctx).pieces() + self@.pieces(),
    {
        ctx.push_text(self.name.as_str());
        match &self.alias {
            Some(alias) => {
                ctx.push_text(" AS ");
                ctx.push_text(alias.as_str());
            },
            None => {},
        }
    }
}

/// What every table offers.
pub trait Table {
    /// The mathematical content of the table.
    spec fn table_view(&self) -> TableView;

    /// The table as a shared value.
    fn upcast_table(&self) -> (table: RcTable)
        ensures
            table@ == self.table_view(),
    ;

    /// The name of the table.
    fn get_table_name(&self) -> (name: &String)
        ensures
            name@ == self.table_view().name,
    ;

    /// The alias of the table, if it has one.
    fn get_table_alias(&self) -> (alias: &Option<String>)
        ensures
            option_view(*alias) == self.table_view().alias,
    ;
}

impl Table for TableDef {
    open spec fn table_view(&self) -> TableView {
        self@
    }

    fn upcast_table(&self) -> (table: RcTable) {
        Arc::new(self.clone())
    }

    fn get_table_name(&self) -> (name: &String) {
        &self.name
    }

    fn get_table_alias(&self) -> (alias: &Option<String>) {
        &self.alias
    }
}


/// What a statement reads from, with the type of its rows forgotten: a
/// table, or a select under an alias.
#[derive(Debug)]
pub enum BoxedFrom {
    Table(TableDef),
    Select { select: RcSelectQuery, alias: String },
}

/// A shared source of rows.
pub type RcFrom = Arc<BoxedFrom>;

/// The mathematical content of a source of rows.
pub enum FromView {
    Table(TableView),
    Select { select: Box<SelectStatementView>, alias: Seq<char> },
}

impl BoxedFrom {
    /// The mathematical content of the source.
    pub open spec fn model(self) -> FromView
        decreases self,
    {
        match self {
            BoxedFrom::Table(table) => FromView::Table(table@),
            BoxedFrom::Select { select, alias } => FromView::Select {
                select: Box::new((*select).model()),
                alias: alias@,
            },
        }
    }

    /// Writes the source.
    pub fn to_sql(&self, ctx: &mut SqlContext)
        ensures
            final(ctx).mode() == old(ctx).mode(),
            final(ctx).pieces() == old(ctx).pieces() + self@.pieces(),
        decreases *self, 0nat,
    {
        match self {
            BoxedFrom::Table(table) => {
                table.to_sql(ctx);
            },
            BoxedFrom::Select { select, alias } => {
                ctx.push_text("(");
                select.to_sql(ctx);
                ctx.push_text(")");
                ctx.push_text(" AS ");
                ctx.push_text(alias.as_str());
            },
        }
    }
}

impl View for BoxedFrom {
    type V = FromView;

    open spec fn view(&self) -> FromView {
        self.model()
    }
}

impl FromView {
    /// The pieces of the source: a table as a table is written, a select
    /// between round brackets, followed by ` AS ` and its alias.
    pub open spec fn pieces(self) -> Seq<Piece>
        decreases self,
    {
        match self {
            FromView::Table(table) => table.pieces(),
            FromView::Select { select, alias } => bracketed(select.pieces()) + seq![
                Piece::Text(" AS "@),
                Piece::Text(alias),
            ],
        }
    }
}

/// The select of `select` from `from`, with nothing else.
pub open spec fn selection(select: SelectView, from: FromView) -> SelectStatementView {
    SelectStatementView {
        select,
        from,
        where_: None,
        limit: None,
        offset: None,
        order_by: Seq::empty(),
        joins: Seq::empty(),
    }
}

/// Each of a sequence of columns as an expression, in order.
pub open spec fn columns(fields: Seq<RcField>) -> Seq<ExpressionView> {
    Seq::new(fields.len(), |i: int| ExpressionView::Column(fields[i]@))
}

/// What a statement can read from.
pub trait From {
    /// The mathematical content of the source.
    spec fn from_view(&self) -> FromView;

    /// The source as a shared value with the type of its rows forgotten.
    fn upcast_from(&self) -> (from: RcFrom)
        ensures
            from@ == self.from_view(),
    ;

    /// The select of one column from this source.
    fn select_1<T>(&self, field: &NamedField<T>) -> (query: SelectQuery<T, LimitMany, ()>)
        ensures
            query@ == selection(
                SelectView::Only(seq![ExpressionView::Column(field@)]),
                self.from_view(),
            ),
    {
        let mut items: Vec<RcExpression> = Vec::new();
        items.push(field.upcast_expression());
        let select = Select::Only(items);
        assert(select@->Only_0 =~= seq![ExpressionView::Column(field@)]);
        SelectQuery::new(select, self.upcast_from())
    }

    /// The select of two columns from this source.
    fn select_2<T1, T2>(&self, field1: &NamedField<T1>, field2: &NamedField<T2>) -> (query:
        SelectQuery<(T1, T2), LimitMany, ()>)
        ensures
            query@ == selection(
                SelectView::Only(
                    seq![ExpressionView::Column(field1@), ExpressionView::Column(field2@)],
                ),
                self.from_view(),
            ),
    {
        let mut items: Vec<RcExpression> = Vec::new();
        items.push(field1.upcast_expression());
        items.push(field2.upcast_expression());
        let select = Select::Only(items);
        assert(select@->Only_0 =~= seq![
            ExpressionView::Column(field1@),
            ExpressionView::Column(field2@),
        ]);
        SelectQuery::new(select, self.upcast_from())
    }

    /// The select of the columns `fields`, in this order, from this source.
    fn select(&self, fields: &[RcField]) -> (query: SelectQuery<(), LimitMany, ()>)
        ensures
            query@ == selection(SelectView::Only(columns(fields@)), self.from_view()),
    {
        let mut items: Vec<RcExpression> = Vec::new();
        let mut i: usize = 0;
        while i < fields.len()
            invariant
                0 <= i <= fields.len(),
                items@.len() == i,
                forall|j: int| 0 <= j < i ==> (#[trigger] items@[j])@ == ExpressionView::Column(
                    fields@[j]@,
                ),
            decreases fields.len() - i,
        {
            items.push(fields[i].upcast_expression());
            i = i + 1;
        }
        let select = Select::Only(items);
        assert(select@->Only_0 =~= columns(fields@));
        SelectQuery::new(select, self.upcast_from())
    }

    /// The select of every column from this source.
    fn select_all(&self) -> (query: SelectQuery<(), LimitMany, ()>)
        ensures
            query@ == selection(SelectView::All, self.from_view()),
    {
        SelectQuery::new(Select::All, self.upcast_from())
    }
}

impl From for TableDef {
    open spec fn from_view(&self) -> FromView {
        FromView::Table(self@)
    }

    fn upcast_from(&self) -> (from: RcFrom) {
        Arc::new(BoxedFrom::Table(self.clone()))
    }
}

impl From for RcTable {
    open spec fn from_view(&self) -> FromView {
        FromView::Table(self@)
    }

    fn upcast_from(&self) -> (from: RcFrom) {
        Arc::new(BoxedFrom::Table((**self).clone()))
    }
}

/// A select under an alias: a relation that another statement can read
/// from.
#[derive(Debug)]
pub struct FromSelect<T, L: ResultArity, M> {
    pub select: SelectQuery<T, L, M>,
    pub alias: String,
}

impl<T, L: ResultArity, M> Clone for FromSelect<T, L, M> {
    fn clone(&self) -> (r: Self)
        ensures
            r.select@ == self.select@,
            r.alias@ == self.alias@,
    {
        FromSelect { select: self.select.clone(), alias: self.alias.clone() }
    }
}

impl<T, L: ResultArity, M> From for FromSelect<T, L, M> {
    open spec fn from_view(&self) -> FromView {
        FromView::Select { select: Box::new(self.select@), alias: self.alias@ }
    }

    fn upcast_from(&self) -> (from: RcFrom) {
        Arc::new(
            BoxedFrom::Select {
                select: Arc::new(self.select.to_statement()),
                alias: self.alias.clone(),
            },
        )
    }
}

impl ToSql for TableDef {
    open spec fn sql_pieces(&self) -> Seq<Piece> {
        self@.pieces()
    }

    fn to_sql(&self, ctx: &mut SqlContext) {
        self.to_sql(ctx)
    }
}

impl ToSql for BoxedFrom {
    open spec fn sql_pieces(&self) -> Seq<Piece> {
        self@.pieces()
    }

    fn to_sql(&self, ctx: &mut SqlContext) {
        self.to_sql(ctx)
    }
}

} // verus!
