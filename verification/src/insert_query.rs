//! The insert statement and its builder.

use vstd::prelude::*;
use std::marker::PhantomData;
use crate::expression::{ExprValue, ExprValueView, Expression, RcExpression};
use crate::field::{Field, FieldView, NamedField, RcField};
use crate::from::{RcTable, Table, TableDef, TableView};
use crate::clauses::{
    clone_returning, returning_list, returning_one, returning_pieces, returning_to_sql,
    returning_two, returning_view,
};
use crate::select_query::{
    expressions_view, LimitMany, NoResult, Select, SelectQuery, SelectStatementView, SelectView,
};
use crate::share::share;
use crate::sql::{
    bracketed, joined, lemma_joined_one, lemma_joined_push, lemma_joined_two, text_piece, Piece,
    QueryToSql, SqlContext, ToSql,
};
use crate::text::{decimal, push_decimal};

verus! {

/// Why a builder refused a value: the statement would not have had a valid
/// shape.
#[derive(Clone, Copy, Debug, PartialEq, Eq)]
pub enum ShapeError {
    /// A row of `cells` cells was pushed to an insert into `columns`
    /// columns.
    RowArity { columns: usize, cells: usize },
}

impl ShapeError {
    /// The error in words.
    pub open spec fn message(self) -> Seq<char> {
        match self {
            ShapeError::RowArity { columns, cells } => "invalid query shape: a row of "@ + decimal(
                cells as nat,
            ) + " cells for "@ + decimal(columns as nat) + " columns"@,
        }
    }

    /// The error in words.
    pub fn describe(&self) -> (text: String)
        ensures
            text@ == self.message(),
    {
        match self {
            ShapeError::RowArity { columns, cells } => {
                let mut text = String::from_str("invalid query shape: a row of ");
                push_decimal(&mut text, *cells as u128);
                text.append(" cells for ");
                push_decimal(&mut text, *columns as u128);
                text.append(" columns");
                text
            },
        }
    }
}

/// The pieces of each of a sequence of cells, in order.
pub open spec fn cell_parts(cells: Seq<ExprValueView>) -> Seq<Seq<Piece>> {
    Seq::new(cells.len(), |i: int| cells[i].pieces())
}

/// The pieces of a row: its cells with a comma between each two, between
/// round brackets.
pub open spec fn row_pieces(cells: Seq<ExprValueView>) -> Seq<Piece> {
    bracketed(joined(cell_parts(cells), ", "@))
}

/// The pieces of each of a sequence of rows, in order.
pub open spec fn row_parts(rows: Seq<Seq<ExprValueView>>) -> Seq<Seq<Piece>> {
    Seq::new(rows.len(), |i: int| row_pieces(rows[i]))
}

/// A row of cells to insert.
pub trait InsertRow {
    /// The cells of the row, in the order of the columns.
    spec fn row_view(&self) -> Seq<ExprValueView>;

    /// The number of cells of the row.
    fn arity(&self) -> (n: usize)
        ensures
            n == self.row_view().len(),
    ;

    /// Writes the cells of the row with a comma between each two.
    fn row_to_sql(&self, ctx: &mut SqlContext)
        ensures
            final(ctx).mode() == old(ctx).mode(),
            final(ctx).pieces() == old(ctx).pieces() + joined(cell_parts(self.row_view()), ", "@),
    ;
}

impl InsertRow for () {
    open spec fn row_view(&self) -> Seq<ExprValueView> {
        Seq::empty()
    }

    fn arity(&self) -> (n: usize) {
        0
    }

    fn row_to_sql(&self, ctx: &mut SqlContext) {
    }
}

impl<T0> InsertRow for (ExprValue<T0>,) {
    open spec fn row_view(&self) -> Seq<ExprValueView> {
        seq![self.0@]
    }

    fn arity(&self) -> (n: usize) {
        1
    }

    fn row_to_sql(&self, ctx: &mut SqlContext) {
        self.0.to_sql(ctx);
        proof {
            lemma_joined_one(self.0@.pieces(), ", "@);
        }
    }
}

impl<T0, T1> InsertRow for (ExprValue<T0>, ExprValue<T1>) {
    open spec fn row_view(&self) -> Seq<ExprValueView> {
        seq![self.0@, self.1@]
    }

    fn arity(&self) -> (n: usize) {
        2
    }

    fn row_to_sql(&self, ctx: &mut SqlContext) {
        self.0.to_sql(ctx);
        ctx.push_text(", ");
        self.1.to_sql(ctx);
        proof {
            assert(cell_parts(self.row_view()) =~= seq![self.0@.pieces(), self.1@.pieces()]);
            lemma_joined_two(self.0@.pieces(), self.1@.pieces(), ", "@);
        }
    }
}

impl<T0, T1, T2> InsertRow for (ExprValue<T0>, ExprValue<T1>, ExprValue<T2>) {
    open spec fn row_view(&self) -> Seq<ExprValueView> {
        seq![self.0@, self.1@, self.2@]
    }

    fn arity(&self) -> (n: usize) {
        3
    }

    fn row_to_sql(&self, ctx: &mut SqlContext) {
        self.0.to_sql(ctx);
        ctx.push_text(", ");
        self.1.to_sql(ctx);
        ctx.push_text(", ");
        self.2.to_sql(ctx);
        proof {
            let two = seq![self.0@.pieces(), self.1@.pieces()];
            assert(cell_parts(self.row_view()) =~= two.push(self.2@.pieces()));
            lemma_joined_two(self.0@.pieces(), self.1@.pieces(), ", "@);
            lemma_joined_push(two, self.2@.pieces(), ", "@);
        }
    }
}

/// The views of a sequence of cells, in order.
pub open spec fn cells_view(cells: Seq<ExprValue<()>>) -> Seq<ExprValueView> {
    Seq::new(cells.len(), |i: int| cells[i]@)
}

/// A row whose cells carry no type.
impl InsertRow for Vec<ExprValue<()>> {
    open spec fn row_view(&self) -> Seq<ExprValueView> {
        cells_view(self@)
    }

    fn arity(&self) -> (n: usize) {
        self.len()
    }

    fn row_to_sql(&self, ctx: &mut SqlContext) {
        let ghost parts = cell_parts(cells_view(self@));
        let mut i: usize = 0;
        while i < self.len()
            invariant
                0 <= i <= self.len(),
                ctx.mode() == old(ctx).mode(),
                parts == cell_parts(cells_view(self@)),
                ctx.pieces() == old(ctx).pieces() + joined(parts.take(i as int), ", "@),
            decreases self.len() - i,
        {
            if i > 0 {
                ctx.push_text(", ");
            }
            self[i].to_sql(ctx);
            proof {
                let before = parts.take(i + 1);
                assert(before.drop_last() =~= parts.take(i as int));
            }
            i = i + 1;
        }
        assert(parts.take(self.len() as int) =~= parts);
    }
}

/// What an insert statement inserts. It is exactly one of these at a time:
/// giving a statement one of them takes the others away.
#[derive(Debug)]
pub enum Insert<T, V, M> {
    /// One row of the defaults of every column.
    DefaultValues,
    /// Rows whose shape was checked when they were pushed.
    Values(Vec<V>),
    /// Rows that nothing has checked.
    UntypedValues(Vec<Vec<ExprValue<()>>>),
    /// The rows of a select.
    FromSelect(SelectQuery<T, LimitMany, M>),
}

/// The mathematical content of what an insert statement inserts.
pub enum InsertView {
    DefaultValues,
    Values(Seq<Seq<ExprValueView>>),
    UntypedValues(Seq<Seq<ExprValueView>>),
    FromSelect(SelectStatementView),
}

/// The cells of each of a sequence of rows, in order.
pub open spec fn rows_view<V: InsertRow>(rows: Seq<V>) -> Seq<Seq<ExprValueView>> {
    Seq::new(rows.len(), |i: int| rows[i].row_view())
}

impl InsertView {
    /// The pieces of what is inserted: ` DEFAULT VALUES`; or ` VALUES ` and
    /// the rows with a comma between each two; or a space and the select.
    pub open spec fn pieces(self) -> Seq<Piece> {
        match self {
            InsertView::DefaultValues => text_piece(" DEFAULT VALUES"@),
            InsertView::Values(rows) => text_piece(" VALUES "@) + joined(row_parts(rows), ", "@),
            InsertView::UntypedValues(rows) => text_piece(" VALUES "@) + joined(
                row_parts(rows),
                ", "@,
            ),
            InsertView::FromSelect(select) => text_piece(" "@) + select.pieces(),
        }
    }
}

impl<T, V: InsertRow, M> View for Insert<T, V, M> {
    type V = InsertView;

    open spec fn view(&self) -> InsertView {
        match *self {
            Insert::DefaultValues => InsertView::DefaultValues,
            Insert::Values(rows) => InsertView::Values(rows_view(rows@)),
            Insert::UntypedValues(rows) => InsertView::UntypedValues(rows_view(rows@)),
            Insert::FromSelect(select) => InsertView::FromSelect(select@),
        }
    }
}

/// Writes rows, each between round brackets, with a comma between each two.
pub fn rows_to_sql<R: InsertRow>(rows: &Vec<R>, ctx: &mut SqlContext)
    ensures
        final(ctx).mode() == old(ctx).mode(),
        final(ctx).pieces() == old(ctx).pieces() + joined(row_parts(rows_view(rows@)), ", "@),
{
    let ghost parts = row_parts(rows_view(rows@));
    let mut i: usize = 0;
    while i < rows.len()
        invariant
            0 <= i <= rows.len(),
            ctx.mode() == old(ctx).mode(),
            parts == row_parts(rows_view(rows@)),
            ctx.pieces() == old(ctx).pieces() + joined(parts.take(i as int), ", "@),
        decreases rows.len() - i,
    {
        if i > 0 {
            ctx.push_text(", ");
        }
        ctx.push_text("(");
        rows[i].row_to_sql(ctx);
        ctx.push_text(")");
        proof {
            let before = parts.take(i + 1);
            assert(before.drop_last() =~= parts.take(i as int));
        }
        i = i + 1;
    }
    assert(parts.take(rows.len() as int) =~= parts);
}

impl<T, V: InsertRow, M> Insert<T, V, M> {
    /// Writes what is inserted.
    pub fn to_sql(&self, ctx: &mut SqlContext)
        ensures
            final(ctx).mode() == old(ctx).mode(),
            final(ctx).pieces() == old(ctx).pieces() + self@.pieces(),
    {
        match self {
            Insert::DefaultValues => {
                ctx.push_text(" DEFAULT VALUES");
            },
            Insert::Values(rows) => {
                ctx.push_text(" VALUES ");
                rows_to_sql(rows, ctx);
            },
            Insert::UntypedValues(rows) => {
                ctx.push_text(" VALUES ");
                rows_to_sql(rows, ctx);
            },
            Insert::FromSelect(select) => {
                ctx.push_text(" ");
                select.to_sql(ctx);
            },
        }
    }
}

/// The views of a sequence of shared columns, in order.
pub open spec fn fields_view(fields: Seq<RcField>) -> Seq<FieldView> {
    Seq::new(fields.len(), |i: int| fields[i]@)
}

/// The view of an optional list of shared columns.
pub open spec fn cols_view(cols: Option<Vec<RcField>>) -> Option<Seq<FieldView>> {
    match cols {
        Some(fields) => Some(fields_view(fields@)),
        None => None,
    }
}

/// The pieces of each of a sequence of columns as entries of a column list,
/// in order.
pub open spec fn column_parts(fields: Seq<FieldView>) -> Seq<Seq<Piece>> {
    Seq::new(fields.len(), |i: int| fields[i].column_pieces())
}

/// The column list of an insert: a space and, between round brackets, the
/// names of the columns with a comma between each two; or nothing where the
/// statement names no columns.
pub open spec fn cols_pieces(cols: Option<Seq<FieldView>>) -> Seq<Piece> {
    match cols {
        Some(fields) => text_piece(" ("@) + joined(column_parts(fields), ", "@) + text_piece(")"@),
        None => Seq::empty(),
    }
}

/// Writes the column list of an insert, if there is one.
pub fn cols_to_sql(cols: &Option<Vec<RcField>>, ctx: &mut SqlContext)
    ensures
        final(ctx).mode() == old(ctx).mode(),
        final(ctx).pieces() == old(ctx).pieces() + cols_pieces(cols_view(*cols)),
{
    match cols {
        Some(fields) => {
            ctx.push_text(" (");
            let ghost head = ctx.pieces();
            let ghost parts = column_parts(fields_view(fields@));
            let mut i: usize = 0;
            while i < fields.len()
                invariant
                    0 <= i <= fields.len(),
                    ctx.mode() == old(ctx).mode(),
                    parts == column_parts(fields_view(fields@)),
                    ctx.pieces() == head + joined(parts.take(i as int), ", "@),
                decreases fields.len() - i,
            {
                if i > 0 {
                    ctx.push_text(", ");
                }
                fields[i].column_to_sql(ctx);
                proof {
                    let before = parts.take(i + 1);
                    assert(before.drop_last() =~= parts.take(i as int));
                }
                i = i + 1;
            }
            assert(parts.take(fields.len() as int) =~= parts);
            ctx.push_text(")");
        },
        None => {
        },
    }
}

/// A copy of a list of shared columns, which shares every one of them.
pub fn clone_fields(fields: &[RcField]) -> (r: Vec<RcField>)
    ensures
        r@ == fields@,
{
    let mut r: Vec<RcField> = Vec::new();
    let mut i: usize = 0;
    while i < fields.len()
        invariant
            0 <= i <= fields.len(),
            r@ == fields@.take(i as int),
        decreases fields.len() - i,
    {
        r.push(share(&fields[i]));
        i = i + 1;
    }
    r
}

/// An insert statement under construction. `T` is the type of the columns,
/// `V` the type of a row, `M` a tag that the caller is free to use, `RT`
/// the type of the rows that the statement returns and `RL` its state
/// ([`NoResult`], or [`LimitMany`] once it returns rows).
///
/// Every row that `push` has accepted has one cell for each column that the
/// statement names.
#[derive(Debug)]
pub struct InsertQuery<T, V: InsertRow, M, RT, RL> {
    into: RcTable,
    cols: Option<Vec<RcField>>,
    values: Insert<T, V, M>,
    returning: Option<Select>,
    marker: PhantomData<(RT, RL)>,
}

/// The mathematical content of an insert statement.
pub struct InsertQueryView {
    pub into: TableView,
    pub cols: Option<Seq<FieldView>>,
    pub values: InsertView,
    pub returning: Option<SelectView>,
}

impl InsertQueryView {
    /// Whether every checked row has one cell for each named column.
    pub open spec fn rows_fit(self) -> bool {
        match (self.cols, self.values) {
            (Some(cols), InsertView::Values(rows)) => forall|i: int|
                0 <= i < rows.len() ==> (#[trigger] rows[i]).len() == cols.len(),
            _ => true,
        }
    }

    /// Whether a row of `cells` cells has the shape that the statement asks
    /// for: one cell for each column, where the statement names columns.
    pub open spec fn admits(self, cells: nat) -> bool {
        match self.cols {
            Some(cols) => cols.len() == cells,
            None => true,
        }
    }

    /// The statement after a checked row has been pushed: the row follows
    /// the checked rows that the statement had, or is the only one where it
    /// had something else.
    pub open spec fn with_row(self, row: Seq<ExprValueView>) -> InsertQueryView {
        InsertQueryView {
            values: InsertView::Values(
                match self.values {
                    InsertView::Values(rows) => rows.push(row),
                    _ => seq![row],
                },
            ),
            ..self
        }
    }

    /// The statement after an unchecked row has been pushed: the row follows
    /// the unchecked rows that the statement had, or is the only one where
    /// it had something else.
    pub open spec fn with_untyped_row(self, row: Seq<ExprValueView>) -> InsertQueryView {
        InsertQueryView {
            values: InsertView::UntypedValues(
                match self.values {
                    InsertView::UntypedValues(rows) => rows.push(row),
                    _ => seq![row],
                },
            ),
            ..self
        }
    }

    /// The pieces of the statement, without a terminator: `INSERT INTO`,
    /// the table, the column list, what is inserted, and the `RETURNING`
    /// clause.
    pub open spec fn pieces(self) -> Seq<Piece> {
        text_piece("INSERT INTO "@) + self.into.pieces() + cols_pieces(self.cols)
            + self.values.pieces() + returning_pieces(self.returning)
    }
}

/// The cell of each of a sequence of expressions, in order.
pub open spec fn expression_cells(values: Seq<RcExpression>) -> Seq<ExprValueView> {
    Seq::new(values.len(), |i: int| ExprValueView::ExpressionValue { expression: values[i]@ })
}

impl<T, V: InsertRow, M, RT, RL> View for InsertQuery<T, V, M, RT, RL> {
    type V = InsertQueryView;

    closed spec fn view(&self) -> InsertQueryView {
        InsertQueryView {
            into: self.into@,
            cols: cols_view(self.cols),
            values: self.values@,
            returning: returning_view(self.returning),
        }
    }
}

impl<T, V: InsertRow, M, RT, RL> InsertQuery<T, V, M, RT, RL> {
    #[verifier::type_invariant]
    spec fn rows_fit_columns(self) -> bool {
        self@.rows_fit()
    }

    /// An insert into `into` of one row of defaults, which names no columns
    /// and returns nothing.
    pub fn new<S: Table>(into: &S) -> (query: InsertQuery<T, V, M, RT, RL>)
        ensures
            query@ == (InsertQueryView {
                into: into.table_view(),
                cols: None,
                values: InsertView::DefaultValues,
                returning: None,
            }),
    {
        InsertQuery {
            into: into.upcast_table(),
            cols: None,
            values: Insert::DefaultValues,
            returning: None,
            marker: PhantomData,
        }
    }

    /// An insert into the columns `cols` of `into` of one row of defaults,
    /// which returns nothing.
    pub fn new_with_cols<S: Table>(into: &S, cols: Vec<RcField>) -> (query: InsertQuery<
        T,
        V,
        M,
        RT,
        RL,
    >)
        ensures
            query@ == (InsertQueryView {
                into: into.table_view(),
                cols: Some(fields_view(cols@)),
                values: InsertView::DefaultValues,
                returning: None,
            }),
    {
        InsertQuery {
            into: into.upcast_table(),
            cols: Some(cols),
            values: Insert::DefaultValues,
            returning: None,
            marker: PhantomData,
        }
    }

    /// The table that the statement inserts into.
    pub fn get_into(&self) -> (into: &RcTable)
        ensures
            into@ == self@.into,
    {
        &self.into
    }

    /// The columns that the statement names, if it names any. Every row
    /// that `push` has accepted has one cell for each of them.
    pub fn get_cols(&self) -> (cols: &Option<Vec<RcField>>)
        ensures
            cols_view(*cols) == self@.cols,
            self@.rows_fit(),
    {
        proof {
            use_type_invariant(self);
        }
        &self.cols
    }

    /// What the statement inserts. Every row that `push` has accepted has
    /// one cell for each column that the statement names.
    pub fn get_values(&self) -> (values: &Insert<T, V, M>)
        ensures
            values@ == self@.values,
            self@.rows_fit(),
    {
        proof {
            use_type_invariant(self);
        }
        &self.values
    }

    /// What the statement returns, if it returns anything.
    pub fn get_returning(&self) -> (returning: &Option<Select>)
        ensures
            returning_view(*returning) == self@.returning,
    {
        &self.returning
    }

    /// Pushes a row. The row is accepted where it has one cell for each
    /// column that the statement names, or where the statement names none;
    /// it then follows the rows pushed before it, or takes the place of
    /// whatever else the statement inserted. Any other row is refused, and
    /// the statement stays as it was.
    pub fn push(&mut self, value: V) -> (result: Result<(), ShapeError>)
        ensures
            match result {
                Ok(_) => {
                    &&& old(self)@.admits(value.row_view().len())
                    &&& final(self)@ == old(self)@.with_row(value.row_view())
                },
                Err(e) => {
                    &&& !old(self)@.admits(value.row_view().len())
                    &&& final(self)@ == old(self)@
                    &&& old(self)@.cols.is_some()
                    &&& e == (ShapeError::RowArity {
                        columns: old(self)@.cols.unwrap().len() as usize,
                        cells: value.row_view().len() as usize,
                    })
                },
            },
            final(self)@.rows_fit(),
    {
        proof {
            use_type_invariant(&*self);
        }
        let cells = value.arity();
        match &self.cols {
            Some(cols) => {
                if cols.len() != cells {
                    return Err(ShapeError::RowArity { columns: cols.len(), cells });
                }
            },
            None => {},
        }
        let mut current: Insert<T, V, M> = Insert::DefaultValues;
        std::mem::swap(&mut self.values, &mut current);
        let mut rows: Vec<V> = match current {
            Insert::Values(rows) => rows,
            _ => Vec::new(),
        };
        let ghost before = rows@;
        rows.push(value);
        proof {
            assert(rows_view(rows@) =~= rows_view(before).push(value.row_view()));
            assert(rows_view(Seq::<V>::empty()) =~= Seq::<Seq<ExprValueView>>::empty());
        }
        self.values = Insert::Values(rows);
        Ok(())
    }

    /// Pushes a row of expressions that carry no type. Nothing is checked:
    /// neither the number of the cells nor their types. The row follows the
    /// unchecked rows pushed before it, or takes the place of whatever else
    /// the statement inserted.
    pub fn push_untyped(&mut self, values: &[RcExpression])
        ensures
            final(self)@ == old(self)@.with_untyped_row(expression_cells(values@)),
    {
        proof {
            use_type_invariant(&*self);
        }
        let mut row: Vec<ExprValue<()>> = Vec::new();
        let mut i: usize = 0;
        while i < values.len()
            invariant
                0 <= i <= values.len(),
                cells_view(row@) == expression_cells(values@.take(i as int)),
            decreases values.len() - i,
        {
            let ghost before = row@;
            let cell: ExprValue<()> = ExprValue::ExpressionValue {
                expression: share(&values[i]),
                kind: PhantomData,
            };
            row.push(cell);
            assert(expression_cells(values@.take(i + 1)) =~= expression_cells(
                values@.take(i as int),
            ).push(cell@));
            i = i + 1;
        }
        assert(values@.take(values.len() as int) =~= values@);
        let mut current: Insert<T, V, M> = Insert::DefaultValues;
        std::mem::swap(&mut self.values, &mut current);
        let mut rows: Vec<Vec<ExprValue<()>>> = match current {
            Insert::UntypedValues(rows) => rows,
            _ => Vec::new(),
        };
        let ghost before = rows@;
        rows.push(row);
        proof {
            assert(rows_view(rows@) =~= rows_view(before).push(row.row_view()));
            assert(rows_view(Seq::<Vec<ExprValue<()>>>::empty()) =~= Seq::<
                Seq<ExprValueView>,
            >::empty());
        }
        self.values = Insert::UntypedValues(rows);
    }

    /// The statement inserting the rows of `select` in place of whatever
    /// else it inserted.
    pub fn from_select(&self, select: SelectQuery<T, LimitMany, M>) -> (query: InsertQuery<
        T,
        V,
        M,
        RT,
        RL,
    >)
        ensures
            query@ == (InsertQueryView { values: InsertView::FromSelect(select@), ..self@ }),
    {
        InsertQuery {
            into: share(&self.into),
            cols: match &self.cols {
                Some(fields) => Some(clone_fields(fields.as_slice())),
                None => None,
            },
            values: Insert::FromSelect(select),
            returning: clone_returning(&self.returning),
            marker: PhantomData,
        }
    }

    /// This statement with `returning` for what it returns, in another
    /// state.
    fn with_returning<RT2, RL2>(self, returning: Option<Select>) -> (query: InsertQuery<
        T,
        V,
        M,
        RT2,
        RL2,
    >)
        ensures
            query@ == (InsertQueryView { returning: returning_view(returning), ..self@ }),
    {
        proof {
            use_type_invariant(&self);
        }
        InsertQuery {
            into: self.into,
            cols: self.cols,
            values: self.values,
            returning,
            marker: PhantomData,
        }
    }

    /// The statement returning one expression of each inserted row.
    pub fn returning_1<T1, E: Expression<T1>>(self, field: &E) -> (query: InsertQuery<
        T,
        V,
        M,
        T1,
        LimitMany,
    >)
        ensures
            query@ == (InsertQueryView {
                returning: Some(SelectView::Only(seq![field.expression_view()])),
                ..self@
            }),
    {
        self.with_returning(Some(returning_one::<T1, E>(field)))
    }

    /// The statement returning two expressions of each inserted row.
    pub fn returning_2<T1, T2, E1: Expression<T1>, E2: Expression<T2>>(
        self,
        field1: &E1,
        field2: &E2,
    ) -> (query: InsertQuery<T, V, M, (T1, T2), LimitMany>)
        ensures
            query@ == (InsertQueryView {
                returning: Some(
                    SelectView::Only(seq![field1.expression_view(), field2.expression_view()]),
                ),
                ..self@
            }),
    {
        self.with_returning(Some(returning_two::<T1, T2, E1, E2>(field1, field2)))
    }

    /// The statement returning the expressions `fields` of each inserted
    /// row.
    pub fn returning(self, fields: &[RcExpression]) -> (query: InsertQuery<
        T,
        V,
        M,
        (),
        LimitMany,
    >)
        ensures
            query@ == (InsertQueryView {
                returning: Some(SelectView::Only(expressions_view(fields@))),
                ..self@
            }),
    {
        self.with_returning(Some(returning_list(fields)))
    }

    /// The statement returning every column of each inserted row.
    pub fn returning_all(self) -> (query: InsertQuery<T, V, M, (), LimitMany>)
        ensures
            query@ == (InsertQueryView { returning: Some(SelectView::All), ..self@ }),
    {
        self.with_returning(Some(Select::All))
    }

    /// The statement returning nothing.
    pub fn no_returning(self) -> (query: InsertQuery<T, V, M, (), NoResult>)
        ensures
            query@ == (InsertQueryView { returning: None, ..self@ }),
    {
        self.with_returning(None)
    }
}

impl<T, V: InsertRow, M, RT, RL> ToSql for InsertQuery<T, V, M, RT, RL> {
    open spec fn sql_pieces(&self) -> Seq<Piece> {
        self@.pieces()
    }

    fn to_sql(&self, ctx: &mut SqlContext) {
        let ghost base = ctx.pieces();
        ctx.push_text("INSERT INTO ");
        self.into.to_sql(ctx);
        let ghost target = text_piece("INSERT INTO "@) + self@.into.pieces();
        assert(ctx.pieces() =~= base + target);
        cols_to_sql(&self.cols, ctx);
        let ghost listed = target + cols_pieces(self@.cols);
        assert(ctx.pieces() =~= base + listed);
        self.values.to_sql(ctx);
        let ghost filled = listed + self@.values.pieces();
        assert(ctx.pieces() =~= base + filled);
        returning_to_sql(&self.returning, ctx);
        assert(ctx.pieces() =~= base + (filled + returning_pieces(self@.returning)));
    }
}

impl<T, V: InsertRow, M, RT, RL> QueryToSql for InsertQuery<T, V, M, RT, RL> {

}

/// The tables that rows can be inserted into.
pub trait Insertable<M>: Table + Sized {
    /// An insert into this table that names no columns.
    fn insert_all(&self) -> (query: InsertQuery<(), (), M, (), NoResult>)
        ensures
            query@ == (InsertQueryView {
                into: self.table_view(),
                cols: None,
                values: InsertView::DefaultValues,
                returning: None,
            }),
    {
        InsertQuery::new(self)
    }

    /// An insert into the columns `fields` of this table, in this order.
    fn insert_fields(&self, fields: &[RcField]) -> (query: InsertQuery<(), (), M, (), NoResult>)
        ensures
            query@ == (InsertQueryView {
                into: self.table_view(),
                cols: Some(fields_view(fields@)),
                values: InsertView::DefaultValues,
                returning: None,
            }),
    {
        InsertQuery::new_with_cols(self, clone_fields(fields))
    }

    /// An insert into one column of this table, whose rows are one cell of
    /// the type of the column.
    fn insert_1<T0>(&self, field0: &NamedField<T0>) -> (query: InsertQuery<
        T0,
        (ExprValue<T0>,),
        M,
        (),
        NoResult,
    >)
        ensures
            query@ == (InsertQueryView {
                into: self.table_view(),
                cols: Some(seq![field0@]),
                values: InsertView::DefaultValues,
                returning: None,
            }),
    {
        let mut cols: Vec<RcField> = Vec::new();
        cols.push(field0.upcast_field());
        assert(fields_view(cols@) =~= seq![field0@]);
        InsertQuery::new_with_cols(self, cols)
    }

    /// An insert into two columns of this table, whose rows are two cells
    /// of the types of the columns.
    fn insert_2<T0, T1>(&self, field0: &NamedField<T0>, field1: &NamedField<T1>) -> (query:
        InsertQuery<(T0, T1), (ExprValue<T0>, ExprValue<T1>), M, (), NoResult>)
        ensures
            query@ == (InsertQueryView {
                into: self.table_view(),
                cols: Some(seq![field0@, field1@]),
                values: InsertView::DefaultValues,
                returning: None,
            }),
    {
        let mut cols: Vec<RcField> = Vec::new();
        cols.push(field0.upcast_field());
        cols.push(field1.upcast_field());
        assert(fields_view(cols@) =~= seq![field0@, field1@]);
        InsertQuery::new_with_cols(self, cols)
    }
}

impl Insertable<()> for TableDef {

}

} // verus!
