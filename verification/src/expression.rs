//! Expressions: what can stand where SQL expects a value or a list of
//! values.

use vstd::prelude::*;
use std::marker::PhantomData;
use std::sync::Arc;
use rustc_serialize::json::Json;
use time::Timespec;
use crate::field::{BoxedField, FieldView, NamedField};
use crate::select_query::{RcSelectQuery, SelectStatementView};
use crate::share::share;
use crate::sql::{bracketed, joined, text_piece, Piece, SqlContext, ToSql};
use crate::value::{values_view, Float32, Float64, Value, ValueView};

verus! {

/// A scalar expression whose type has been forgotten.
#[derive(Debug)]
pub enum BoxedExpression {
    /// A value held in memory. It is always bound, never written into the
    /// text.
    Literal(Value),
    /// A column.
    Column(BoxedField),
    /// SQL text that is written as it stands. Nothing checks it: whoever
    /// builds it answers for what it holds.
    Raw(String),
    /// An explicit positional parameter. It is written as its marker and
    /// binds no value.
    Placeholder(usize),
    /// A sub-select that yields one row.
    Select(RcSelectQuery),
}

/// A shared scalar expression whose type has been forgotten.
pub type RcExpression = Arc<BoxedExpression>;

/// The mathematical content of a scalar expression.
pub enum ExpressionView {
    Literal(ValueView),
    Column(FieldView),
    Raw(Seq<char>),
    Placeholder(nat),
    Select(Box<SelectStatementView>),
}

impl BoxedExpression {
    /// The mathematical content of the expression.
    pub open spec fn model(self) -> ExpressionView
        decreases self,
    {
        match self {
            BoxedExpression::Literal(v) => ExpressionView::Literal(v@),
            BoxedExpression::Column(f) => ExpressionView::Column(f@),
            BoxedExpression::Raw(s) => ExpressionView::Raw(s@),
            BoxedExpression::Placeholder(idx) => ExpressionView::Placeholder(idx as nat),
            BoxedExpression::Select(q) => ExpressionView::Select(Box::new((*q).model())),
        }
    }

    /// Writes the expression.
    pub fn to_sql(&self, ctx: &mut SqlContext)
        ensures
            final(ctx).mode() == old(ctx).mode(),
            final(ctx).pieces() == old(ctx).pieces() + self@.pieces(),
        decreases *self, 0nat,
    {
        match self {
            BoxedExpression::Literal(v) => {
                ctx.push_param(v.clone());
            },
            BoxedExpression::Column(f) => {
                f.to_sql(ctx);
            },
            BoxedExpression::Raw(s) => {
                ctx.push_text(s.as_str());
            },
            BoxedExpression::Placeholder(idx) => {
                ctx.push_placeholder(*idx);
            },
            BoxedExpression::Select(q) => {
                ctx.push_text("(");
                q.to_sql(ctx);
                ctx.push_text(")");
            },
        }
    }
}

impl View for BoxedExpression {
    type V = ExpressionView;

    open spec fn view(&self) -> ExpressionView {
        self.model()
    }
}

impl ExpressionView {
    /// The pieces of the expression: a literal is one bound value, a column
    /// its name, raw text itself, a placeholder the position that it names,
    /// and a sub-select the statement between round brackets.
    pub open spec fn pieces(self) -> Seq<Piece>
        decreases self,
    {
        match self {
            ExpressionView::Literal(v) => seq![Piece::Param(v)],
            ExpressionView::Column(f) => f.pieces(),
            ExpressionView::Raw(s) => text_piece(s),
            ExpressionView::Placeholder(idx) => seq![Piece::Placeholder(idx)],
            ExpressionView::Select(q) => bracketed(q.pieces()),
        }
    }
}

/// A list expression whose type has been forgotten: what can stand on the
/// right of `IN`.
#[derive(Debug)]
pub enum BoxedListExpression {
    /// Values held in memory, each of them bound.
    Values(Vec<Value>),
    /// A sub-select that may yield many rows.
    Select(RcSelectQuery),
}

/// A shared list expression whose type has been forgotten.
pub type RcListExpression = Arc<BoxedListExpression>;

/// The mathematical content of a list expression.
pub enum ListExpressionView {
    Values(Seq<ValueView>),
    Select(Box<SelectStatementView>),
}

/// One bound value for each value of the list.
pub open spec fn value_parts(values: Seq<ValueView>) -> Seq<Seq<Piece>> {
    Seq::new(values.len(), |i: int| seq![Piece::Param(values[i])])
}

impl BoxedListExpression {
    /// The mathematical content of the list.
    pub open spec fn model(self) -> ListExpressionView
        decreases self,
    {
        match self {
            BoxedListExpression::Values(values) => ListExpressionView::Values(values_view(values@)),
            BoxedListExpression::Select(q) => ListExpressionView::Select(Box::new((*q).model())),
        }
    }

    /// Writes the list, without brackets around it.
    pub fn to_sql(&self, ctx: &mut SqlContext)
        ensures
            final(ctx).mode() == old(ctx).mode(),
            final(ctx).pieces() == old(ctx).pieces() + self@.pieces(),
        decreases *self, 0nat,
    {
        match self {
            BoxedListExpression::Values(values) => {
                let ghost parts = value_parts(values_view(values@));
                let mut i: usize = 0;
                while i < values.len()
                    invariant
                        0 <= i <= values.len(),
                        ctx.mode() == old(ctx).mode(),
                        parts == value_parts(values_view(values@)),
                        ctx.pieces() == old(ctx).pieces() + joined(parts.take(i as int), ", "@),
                    decreases values.len() - i,
                {
                    if i > 0 {
                        ctx.push_text(", ");
                    }
                    ctx.push_param(values[i].clone());
                    proof {
                        let head = parts.take(i + 1);
                        assert(head.drop_last() =~= parts.take(i as int));
                    }
                    i = i + 1;
                }
                assert(parts.take(values.len() as int) =~= parts);
            },
            BoxedListExpression::Select(q) => {
                q.to_sql(ctx);
            },
        }
    }
}

impl View for BoxedListExpression {
    type V = ListExpressionView;

    open spec fn view(&self) -> ListExpressionView {
        self.model()
    }
}

impl ListExpressionView {
    /// The pieces of the list, without brackets around it: the values with
    /// a comma between each two, or the sub-select.
    pub open spec fn pieces(self) -> Seq<Piece>
        decreases self,
    {
        match self {
            ListExpressionView::Values(values) => joined(value_parts(values), ", "@),
            ListExpressionView::Select(q) => q.pieces(),
        }
    }
}

/// A value held in memory that can stand as a literal.
pub trait Literal {
    /// The content of the literal.
    spec fn value_view(&self) -> ValueView;

    /// The literal as a bound value.
    fn to_value(&self) -> (v: Value)
        ensures
            v@ == self.value_view(),
    ;
}

impl Literal for bool {
    open spec fn value_view(&self) -> ValueView {
        ValueView::Bool(*self)
    }

    fn to_value(&self) -> (v: Value) {
        Value::Bool(*self)
    }
}

impl Literal for i8 {
    open spec fn value_view(&self) -> ValueView {
        ValueView::I8(*self)
    }

    fn to_value(&self) -> (v: Value) {
        Value::I8(*self)
    }
}

impl Literal for i16 {
    open spec fn value_view(&self) -> ValueView {
        ValueView::I16(*self)
    }

    fn to_value(&self) -> (v: Value) {
        Value::I16(*self)
    }
}

impl Literal for i32 {
    open spec fn value_view(&self) -> ValueView {
        ValueView::I32(*self)
    }

    fn to_value(&self) -> (v: Value) {
        Value::I32(*self)
    }
}

impl Literal for i64 {
    open spec fn value_view(&self) -> ValueView {
        ValueView::I64(*self)
    }

    fn to_value(&self) -> (v: Value) {
        Value::I64(*self)
    }
}

impl Literal for Float32 {
    open spec fn value_view(&self) -> ValueView {
        ValueView::F32(*self)
    }

    fn to_value(&self) -> (v: Value) {
        Value::F32(*self)
    }
}

impl Literal for Float64 {
    open spec fn value_view(&self) -> ValueView {
        ValueView::F64(*self)
    }

    fn to_value(&self) -> (v: Value) {
        Value::F64(*self)
    }
}

impl Literal for String {
    open spec fn value_view(&self) -> ValueView {
        ValueView::Str(self@)
    }

    fn to_value(&self) -> (v: Value) {
        Value::Str(self.clone())
    }
}

impl Literal for Vec<u8> {
    open spec fn value_view(&self) -> ValueView {
        ValueView::Bytes(self@)
    }

    fn to_value(&self) -> (v: Value) {
        Value::Bytes(self.clone())
    }
}

impl Literal for Json {
    open spec fn value_view(&self) -> ValueView {
        ValueView::Json(*self)
    }

    fn to_value(&self) -> (v: Value) {
        Value::Json(self.clone())
    }
}

impl Literal for Timespec {
    open spec fn value_view(&self) -> ValueView {
        ValueView::Timespec(*self)
    }

    fn to_value(&self) -> (v: Value) {
        Value::Timespec(*self)
    }
}

/// The literal `NULL`, for the places where a value may be absent.
#[derive(Clone, Copy, Debug, PartialEq, Eq)]
pub struct Null;

impl Literal for Null {
    open spec fn value_view(&self) -> ValueView {
        ValueView::Null
    }

    fn to_value(&self) -> (v: Value) {
        Value::Null
    }
}

/// An absent value is the literal `NULL`.
impl<T: Literal> Literal for Option<T> {
    open spec fn value_view(&self) -> ValueView {
        match *self {
            Some(v) => v.value_view(),
            None => ValueView::Null,
        }
    }

    fn to_value(&self) -> (v: Value) {
        match self {
            Some(v) => v.to_value(),
            None => Value::Null,
        }
    }
}

/// The types of numbers, which can be compared with one another.
pub trait Numeric: Literal {

}

impl Numeric for i8 {

}

impl Numeric for i16 {

}

impl Numeric for i32 {

}

impl Numeric for i64 {

}

impl Numeric for Float32 {

}

impl Numeric for Float64 {

}

/// What can stand where SQL expects a value, whatever its type.
pub trait UntypedExpression {
    /// The mathematical content of the expression.
    spec fn expression_view(&self) -> ExpressionView;

    /// The expression as a shared value with its type forgotten.
    fn upcast_expression(&self) -> (e: RcExpression)
        ensures
            e@ == self.expression_view(),
    ;
}

/// An expression of type `T`.
pub trait Expression<T>: UntypedExpression {

}

/// An expression that can stand where one of type `T` is expected.
pub trait ToExpression<T>: UntypedExpression {

}

/// What can stand on the right of `IN`, whatever the type of its items.
pub trait UntypedListExpression {
    /// The mathematical content of the list.
    spec fn list_view(&self) -> ListExpressionView;

    /// The list as a shared value with its type forgotten.
    fn upcast_list(&self) -> (e: RcListExpression)
        ensures
            e@ == self.list_view(),
    ;
}

/// A list of items of type `T`.
pub trait ListExpression<T>: UntypedListExpression {

}

/// A list that can stand where one of items of type `T` is expected.
pub trait ToListExpression<T>: UntypedListExpression {

}

impl<T: Literal> UntypedExpression for T {
    open spec fn expression_view(&self) -> ExpressionView {
        ExpressionView::Literal(self.value_view())
    }

    fn upcast_expression(&self) -> (e: RcExpression) {
        Arc::new(BoxedExpression::Literal(self.to_value()))
    }
}

impl<T: Literal> Expression<T> for T {

}

/// The content of each literal of a sequence, in order.
pub open spec fn literals_view<T: Literal>(items: Seq<T>) -> Seq<ValueView> {
    Seq::new(items.len(), |i: int| items[i].value_view())
}

impl<T: Literal> UntypedListExpression for Vec<T> {
    open spec fn list_view(&self) -> ListExpressionView {
        ListExpressionView::Values(literals_view(self@))
    }

    fn upcast_list(&self) -> (e: RcListExpression) {
        let mut values: Vec<Value> = Vec::new();
        let mut i: usize = 0;
        while i < self.len()
            invariant
                0 <= i <= self.len(),
                values_view(values@) == literals_view(self@.take(i as int)),
            decreases self.len() - i,
        {
            let value = self[i].to_value();
            values.push(value);
            assert(literals_view(self@.take(i + 1)) =~= literals_view(self@.take(i as int)).push(
                self@[i as int].value_view(),
            ));
            i = i + 1;
        }
        assert(self@.take(self.len() as int) =~= self@);
        Arc::new(BoxedListExpression::Values(values))
    }
}

impl<T: Literal> ListExpression<T> for Vec<T> {

}

impl<T: Literal> ToListExpression<T> for Vec<T> {

}

/// SQL text that is written into the statement as it stands. Nothing checks
/// it and nothing quotes it: whoever builds one answers for what it holds.
#[derive(Debug)]
pub struct RawExpr {
    pub content: String,
}

impl RawExpr {
    /// Raw text that holds `content`.
    pub fn new(content: String) -> (raw: RawExpr)
        ensures
            raw.content == content,
    {
        RawExpr { content }
    }
}

impl Clone for RawExpr {
    fn clone(&self) -> (r: Self)
        ensures
            r == *self,
    {
        RawExpr { content: self.content.clone() }
    }
}

impl UntypedExpression for RawExpr {
    open spec fn expression_view(&self) -> ExpressionView {
        ExpressionView::Raw(self.content@)
    }

    fn upcast_expression(&self) -> (e: RcExpression) {
        Arc::new(BoxedExpression::Raw(self.content.clone()))
    }
}

impl Expression<RawExpr> for RawExpr {

}

impl<T> UntypedExpression for NamedField<T> {
    open spec fn expression_view(&self) -> ExpressionView {
        ExpressionView::Column(self@)
    }

    fn upcast_expression(&self) -> (e: RcExpression) {
        let field: BoxedField = NamedField {
            name: self.name.clone(),
            table_name: self.table_name.clone(),
            qual: crate::field::clone_option(&self.qual),
            kind: PhantomData,
        };
        let e = Arc::new(BoxedExpression::Column(field));
        assert(self.expression_view() == ExpressionView::Column(self@));
        e
    }
}

impl<T> Expression<T> for NamedField<T> {

}

// Raw text stands for an expression of any type, and anything can be
// compared with raw text.
impl<T> ToExpression<T> for RawExpr {

}

impl<T: Literal> ToExpression<RawExpr> for T {

}

impl<T: Literal> ToListExpression<RawExpr> for Vec<T> {

}

impl<T> ToExpression<RawExpr> for NamedField<T> {

}

// Anything can stand where no type is asked for.
impl<T: Literal> ToExpression<()> for T {

}

impl<T> ToExpression<()> for NamedField<T> {

}

// The numeric types stand for one another.
impl<A: Numeric, B: Numeric> ToExpression<A> for B {

}

impl<A: Numeric, B: Numeric> ToExpression<A> for Option<B> {

}

impl<A: Numeric, B: Numeric> ToExpression<A> for NamedField<B> {

}

// What stands for a number stands for a number that may be absent, and so
// does a column of numbers that may be absent.
impl<A: Numeric, B: Numeric> ToExpression<Option<A>> for B {

}

impl<A: Numeric, B: Numeric> ToExpression<Option<A>> for Option<B> {

}

impl<A: Numeric, B: Numeric> ToExpression<Option<A>> for NamedField<B> {

}

impl<A: Numeric, B: Numeric> ToExpression<Option<A>> for NamedField<Option<B>> {

}

impl<A: Numeric, B: Numeric> ToExpression<A> for NamedField<Option<B>> {

}

// Every other type stands for itself only: as a value, as a value that may
// be absent, and as a column.
impl ToExpression<bool> for bool {

}

impl ToExpression<bool> for Option<bool> {

}

impl ToExpression<bool> for NamedField<bool> {

}

impl ToExpression<String> for String {

}

impl ToExpression<String> for Option<String> {

}

impl ToExpression<String> for NamedField<String> {

}

impl ToExpression<Vec<u8>> for Vec<u8> {

}

impl ToExpression<Vec<u8>> for Option<Vec<u8>> {

}

impl ToExpression<Vec<u8>> for NamedField<Vec<u8>> {

}

impl ToExpression<Json> for Json {

}

impl ToExpression<Json> for Option<Json> {

}

impl ToExpression<Json> for NamedField<Json> {

}

impl ToExpression<Timespec> for Timespec {

}

impl ToExpression<Timespec> for Option<Timespec> {

}

impl ToExpression<Timespec> for NamedField<Timespec> {

}

// `NULL` stands for any value that may be absent.
impl<T> ToExpression<Option<T>> for Null {

}

// A value that may be absent is stood for by the same values, by values
// that may be absent, and by columns of either.
impl ToExpression<Option<bool>> for bool {

}

impl ToExpression<Option<bool>> for Option<bool> {

}

impl ToExpression<Option<bool>> for NamedField<bool> {

}

impl ToExpression<Option<bool>> for NamedField<Option<bool>> {

}

impl ToExpression<bool> for NamedField<Option<bool>> {

}

impl ToExpression<Option<String>> for String {

}

impl ToExpression<Option<String>> for Option<String> {

}

impl ToExpression<Option<String>> for NamedField<String> {

}

impl ToExpression<Option<String>> for NamedField<Option<String>> {

}

impl ToExpression<String> for NamedField<Option<String>> {

}

impl ToExpression<Option<Vec<u8>>> for Vec<u8> {

}

impl ToExpression<Option<Vec<u8>>> for Option<Vec<u8>> {

}

impl ToExpression<Option<Vec<u8>>> for NamedField<Vec<u8>> {

}

impl ToExpression<Option<Vec<u8>>> for NamedField<Option<Vec<u8>>> {

}

impl ToExpression<Vec<u8>> for NamedField<Option<Vec<u8>>> {

}

impl ToExpression<Option<Json>> for Json {

}

impl ToExpression<Option<Json>> for Option<Json> {

}

impl ToExpression<Option<Json>> for NamedField<Json> {

}

impl ToExpression<Option<Json>> for NamedField<Option<Json>> {

}

impl ToExpression<Json> for NamedField<Option<Json>> {

}

impl ToExpression<Option<Timespec>> for Timespec {

}

impl ToExpression<Option<Timespec>> for Option<Timespec> {

}

impl ToExpression<Option<Timespec>> for NamedField<Timespec> {

}

impl ToExpression<Option<Timespec>> for NamedField<Option<Timespec>> {

}

impl ToExpression<Timespec> for NamedField<Option<Timespec>> {

}

/// One cell of a row to insert: an expression of type `T`, or the default
/// of the column.
#[derive(Debug)]
pub enum ExprValue<T> {
    ExpressionValue { expression: RcExpression, kind: PhantomData<T> },
    DefaultValue,
}

/// The mathematical content of a cell.
pub enum ExprValueView {
    ExpressionValue { expression: ExpressionView },
    DefaultValue,
}

impl ExprValueView {
    /// The pieces of the cell: the expression, or the keyword `DEFAULT`.
    pub open spec fn pieces(self) -> Seq<Piece> {
        match self {
            ExprValueView::ExpressionValue { expression } => expression.pieces(),
            ExprValueView::DefaultValue => text_piece("DEFAULT"@),
        }
    }
}

impl<T> View for ExprValue<T> {
    type V = ExprValueView;

    open spec fn view(&self) -> ExprValueView {
        match *self {
            ExprValue::ExpressionValue { expression, kind } => ExprValueView::ExpressionValue {
                expression: expression@,
            },
            ExprValue::DefaultValue => ExprValueView::DefaultValue,
        }
    }
}

impl<T> Clone for ExprValue<T> {
    fn clone(&self) -> (r: Self)
        ensures
            r == *self,
    {
        match self {
            ExprValue::ExpressionValue { expression, kind } => ExprValue::ExpressionValue {
                expression: share(expression),
                kind: PhantomData,
            },
            ExprValue::DefaultValue => ExprValue::DefaultValue,
        }
    }
}

impl<T> ExprValue<T> {
    /// The cell of an expression.
    pub fn new<E: Expression<T>>(exp: &E) -> (cell: ExprValue<T>)
        ensures
            cell@ == (ExprValueView::ExpressionValue { expression: exp.expression_view() }),
    {
        ExprValue::ExpressionValue { expression: exp.upcast_expression(), kind: PhantomData }
    }

    /// Writes the cell.
    pub fn to_sql(&self, ctx: &mut SqlContext)
        ensures
            final(ctx).mode() == old(ctx).mode(),
            final(ctx).pieces() == old(ctx).pieces() + self@.pieces(),
    {
        match self {
            ExprValue::ExpressionValue { expression, kind } => {
                expression.to_sql(ctx);
            },
            ExprValue::DefaultValue => {
                ctx.push_text("DEFAULT");
            },
        }
    }
}

/// What can be made a cell of type `T`.
pub trait ToExprValue<T> {
    /// The mathematical content of the cell.
    spec fn cell_view(&self) -> ExprValueView;

    /// The value as a cell.
    fn to_expr_val(&self) -> (cell: ExprValue<T>)
        ensures
            cell@ == self.cell_view(),
    ;
}

impl<T, E: Expression<T>> ToExprValue<T> for E {
    open spec fn cell_view(&self) -> ExprValueView {
        ExprValueView::ExpressionValue { expression: self.expression_view() }
    }

    fn to_expr_val(&self) -> (cell: ExprValue<T>) {
        ExprValue::new(self)
    }
}

impl ToSql for BoxedExpression {
    open spec fn sql_pieces(&self) -> Seq<Piece> {
        self@.pieces()
    }

    fn to_sql(&self, ctx: &mut SqlContext) {
        self.to_sql(ctx)
    }
}

impl ToSql for BoxedListExpression {
    open spec fn sql_pieces(&self) -> Seq<Piece> {
        self@.pieces()
    }

    fn to_sql(&self, ctx: &mut SqlContext) {
        self.to_sql(ctx)
    }
}

impl<T> ToSql for ExprValue<T> {
    open spec fn sql_pieces(&self) -> Seq<Piece> {
        self@.pieces()
    }

    fn to_sql(&self, ctx: &mut SqlContext) {
        self.to_sql(ctx)
    }
}

} // verus!
