//! A typed builder of SQL statements. Tables, columns, expressions and
//! predicates are composed into `SELECT`, `INSERT`, `UPDATE` and `DELETE`
//! statements, and a statement is rendered as text with positional markers
//! and the list of the values bound to them. Nothing here runs a statement.

pub mod clauses;
pub mod delete_query;
pub mod expression;
pub mod field;
pub mod from;
pub mod insert_query;
pub mod join;
pub mod laws;
pub mod order_by;
pub mod placeholder;
pub mod predicate;
pub mod select_query;
pub mod share;
pub mod sql;
pub mod text;
pub mod update_query;
pub mod value;

pub use crate::delete_query::{Deletable, DeleteQuery};
pub use crate::expression::{
    BoxedExpression, BoxedListExpression, ExprValue, Expression, ListExpression, Literal,
    Null, Numeric, RawExpr, RcExpression, RcListExpression, ToExprValue, ToExpression,
    ToListExpression, UntypedExpression, UntypedListExpression,
};
pub use crate::field::{
    BoolField, BoxedField, ByteListField, F32Field, F64Field, Field, I16Field, I32Field,
    I64Field, I8Field, JsonField, NamedField, OptionalBoolField, OptionalByteListField,
    OptionalF32Field, OptionalF64Field, OptionalI16Field, OptionalI32Field, OptionalI64Field,
    OptionalI8Field, OptionalJsonField, OptionalStringField, OptionalTimespecField,
    OptionalUuidField, RcField, StringField, TimespecField, UuidField,
};
pub use crate::from::{BoxedFrom, From, FromSelect, RcFrom, RcTable, Table, TableDef};
pub use crate::insert_query::{Insert, InsertQuery, InsertRow, Insertable, ShapeError};
pub use crate::join::{Join, JoinType};
pub use crate::order_by::{Order, OrderBy};
pub use crate::placeholder::Placeholder;
pub use crate::predicate::in_list::{InPredicate, ToInPredicate};
pub use crate::predicate::inequality::{
    Inequality, InequalityPredicate, Ordered, ToInequalityPredicate,
};
pub use crate::predicate::is::{IsQuery, RcQuery, ToIsQuery};
pub use crate::predicate::is_null::{IsNullPredicate, ToIsNullPredicate};
pub use crate::predicate::{BoxedPredicate, Predicate, RcPredicate, ToAndPredicate, ToOrPredicate};
pub use crate::select_query::{
    Limit, LimitMany, LimitOne, LimitTwo, Limited, NoResult, Orderable, Queryable, RcSelectQuery,
    ResultArity, Select,
    SelectQuery, SelectStatement, ToSelectQuery,
};
pub use crate::sql::{QueryToSql, Sql, SqlContext, ToSql};
pub use crate::update_query::{FieldUpdate, ToFieldUpdate, Updatable, UpdateQuery};
pub use crate::value::{Float32, Float64, Value};
