//! Columns: a name, the table that owns it, and the qualifier under which
//! the column is written in SQL text.

use vstd::prelude::*;
use std::marker::PhantomData;
use std::sync::Arc;
use rustc_serialize::json::Json;
use time::Timespec;
use uuid::Uuid;
use crate::from::Table;
use crate::sql::{text_piece, Piece, SqlContext, ToSql};
use crate::value::{Float32, Float64};

verus! {

/// A column of type `T`. The type is a tag: it decides which expressions the
/// column can be compared with, and is not stored.
#[derive(Debug)]
pub struct NamedField<T> {
    pub name: String,
    pub table_name: String,
    pub qual: Option<String>,
    pub kind: PhantomData<T>,
}

/// The mathematical content of a column.
pub struct FieldView {
    pub name: Seq<char>,
    pub table_name: Seq<char>,
    pub qual: Option<Seq<char>>,
}

impl FieldView {
    /// The pieces of the column where an expression stands: the qualifier,
    /// a dot and the name where the column is qualified, the bare name where
    /// it is not. Identifiers are written as they are given, without quotes.
    pub open spec fn pieces(self) -> Seq<Piece> {
        match self.qual {
            Some(qual) => seq![Piece::Text(qual), Piece::Text("."@), Piece::Text(self.name)],
            None => seq![Piece::Text(self.name)],
        }
    }

    /// The pieces of the column in a column list, where it stands without
    /// its qualifier.
    pub open spec fn column_pieces(self) -> Seq<Piece> {
        text_piece(self.name)
    }
}

/// The view of an optional string.
pub open spec fn option_view(s: Option<String>) -> Option<Seq<char>> {
    match s {
        Some(s) => Some(s@),
        None => None,
    }
}

/// A copy of an optional string.
pub fn clone_option(s: &Option<String>) -> (r: Option<String>)
    ensures
        r == *s,
{
    match s {
        Some(s) => Some(s.clone()),
        None => None,
    }
}

impl<T> View for NamedField<T> {
    type V = FieldView;

    open spec fn view(&self) -> FieldView {
        FieldView { name: self.name@, table_name: self.table_name@, qual: option_view(self.qual) }
    }
}

impl<T> Clone for NamedField<T> {
    fn clone(&self) -> (r: Self)
        ensures
            r == *self,
    {
        NamedField {
            name: self.name.clone(),
            table_name: self.table_name.clone(),
            qual: clone_option(&self.qual),
            kind: PhantomData,
        }
    }
}

/// A column whose type has been forgotten.
pub type BoxedField = NamedField<()>;

/// A shared column whose type has been forgotten.
pub type RcField = Arc<BoxedField>;

impl<T> NamedField<T> {
    /// An unqualified column.
    pub fn new(name: &str, table_name: &str) -> (field: NamedField<T>)
        ensures
            field@ == (FieldView { name: name@, table_name: table_name@, qual: None }),
    {
        NamedField {
            name: String::from_str(name),
            table_name: String::from_str(table_name),
            qual: None,
            kind: PhantomData,
        }
    }

    /// A column with an explicit qualifier.
    pub fn new_qual(name: &str, table_name: &str, qual: &str) -> (field: NamedField<T>)
        ensures
            field@ == (FieldView { name: name@, table_name: table_name@, qual: Some(qual@) }),
    {
        NamedField {
            name: String::from_str(name),
            table_name: String::from_str(table_name),
            qual: Some(String::from_str(qual)),
            kind: PhantomData,
        }
    }

    /// A column of `table`, qualified by the alias of the table where it has
    /// one.
    pub fn field_of<S: Table>(name: &str, table: &S) -> (field: NamedField<T>)
        ensures
            field@ == (FieldView {
                name: name@,
                table_name: table.table_view().name,
                qual: table.table_view().alias,
            }),
    {
        NamedField {
            name: String::from_str(name),
            table_name: table.get_table_name().clone(),
            qual: clone_option(table.get_table_alias()),
            kind: PhantomData,
        }
    }

    /// The same column, qualified by the name of its own table.
    pub fn qual(&self) -> (field: NamedField<T>)
        ensures
            field@ == (FieldView { qual: Some(self@.table_name), ..self@ }),
    {
        NamedField {
            name: self.name.clone(),
            table_name: self.table_name.clone(),
            qual: Some(self.table_name.clone()),
            kind: PhantomData,
        }
    }

    /// The same column under the qualifier `qual`.
    pub fn qual_with(&self, qual: &str) -> (field: NamedField<T>)
        ensures
            field@ == (FieldView { qual: Some(qual@), ..self@ }),
    {
        NamedField {
            name: self.name.clone(),
            table_name: self.table_name.clone(),
            qual: Some(String::from_str(qual)),
            kind: PhantomData,
        }
    }

    /// The same column, qualified as a column of `table` is: by the alias of
    /// the table, or not at all where the table has none.
    pub fn qual_for<S: Table>(&self, table: &S) -> (field: NamedField<T>)
        ensures
            field@ == (FieldView { qual: table.table_view().alias, ..self@ }),
    {
        NamedField {
            name: self.name.clone(),
            table_name: self.table_name.clone(),
            qual: clone_option(table.get_table_alias()),
            kind: PhantomData,
        }
    }

    /// Writes the column where an expression stands.
    pub fn to_sql(&self, ctx: &mut SqlContext)
        ensures
            final(ctx).mode() == old(ctx).mode(),
            final(ctx).pieces() == old(ctx).pieces() + self@.pieces(),
    {
        match &self.qual {
            Some(qual) => {
                ctx.push_text(qual.as_str());
                ctx.push_text(".");
                ctx.push_text(self.name.as_str());
            },
            None => {
                ctx.push_text(self.name.as_str());
            },
        }
    }

    /// Writes the column as an entry of a column list.
    pub fn column_to_sql(&self, ctx: &mut SqlContext)
        ensures
            final(ctx).mode() == old(ctx).mode(),
            final(ctx).pieces() == old(ctx).pieces() + self@.column_pieces(),
    {
        ctx.push_text(self.name.as_str());
    }
}

/// What every column offers, whatever its type.
pub trait Field {
    /// The mathematical content of the column.
    spec fn field_view(&self) -> FieldView;

    /// The name of the column.
    fn name(&self) -> (name: &str)
        ensures
            name@ == self.field_view().name,
    ;

    /// The name of the table that owns the column.
    fn table_name(&self) -> (table_name: &str)
        ensures
            table_name@ == self.field_view().table_name,
    ;

    /// The qualifier of the column, if it has one.
    fn qual(&self) -> (qual: Option<&String>)
        ensures
            match qual {
                Some(q) => self.field_view().qual == Some(q@),
                None => self.field_view().qual.is_none(),
            },
    ;

    /// The column with its type forgotten.
    fn upcast_field(&self) -> (field: RcField)
        ensures
            field@ == self.field_view(),
    ;
}

impl<T> Field for NamedField<T> {
    open spec fn field_view(&self) -> FieldView {
        self@
    }

    fn name(&self) -> (name: &str) {
        self.name.as_str()
    }

    fn table_name(&self) -> (table_name: &str) {
        self.table_name.as_str()
    }

    fn qual(&self) -> (qual: Option<&String>) {
        self.qual.as_ref()
    }

    fn upcast_field(&self) -> (field: RcField) {
        let untyped: BoxedField = NamedField {
            name: self.name.clone(),
            table_name: self.table_name.clone(),
            qual: clone_option(&self.qual),
            kind: PhantomData,
        };
        assert(self.field_view() == self@);
        Arc::new(untyped)
    }
}

/// The columns of each type, and of each type where a value may be absent.
pub type BoolField = NamedField<bool>;

pub type I8Field = NamedField<i8>;

pub type I16Field = NamedField<i16>;

pub type I32Field = NamedField<i32>;

pub type I64Field = NamedField<i64>;

pub type F32Field = NamedField<Float32>;

pub type F64Field = NamedField<Float64>;

pub type StringField = NamedField<String>;

pub type ByteListField = NamedField<Vec<u8>>;

pub type JsonField = NamedField<Json>;

pub type TimespecField = NamedField<Timespec>;

pub type UuidField = NamedField<Uuid>;

pub type OptionalBoolField = NamedField<Option<bool>>;

pub type OptionalI8Field = NamedField<Option<i8>>;

pub type OptionalI16Field = NamedField<Option<i16>>;

pub type OptionalI32Field = NamedField<Option<i32>>;

pub type OptionalI64Field = NamedField<Option<i64>>;

pub type OptionalF32Field = NamedField<Option<Float32>>;

pub type OptionalF64Field = NamedField<Option<Float64>>;

pub type OptionalStringField = NamedField<Option<String>>;

pub type OptionalByteListField = NamedField<Option<Vec<u8>>>;

pub type OptionalJsonField = NamedField<Option<Json>>;

pub type OptionalTimespecField = NamedField<Option<Timespec>>;

pub type OptionalUuidField = NamedField<Option<Uuid>>;

impl<T> ToSql for NamedField<T> {
    open spec fn sql_pieces(&self) -> Seq<Piece> {
        self@.pieces()
    }

    fn to_sql(&self, ctx: &mut SqlContext) {
        self.to_sql(ctx)
    }
}

} // verus!
