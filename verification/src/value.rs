//! Literal values: what a statement binds to its positional parameters.

use vstd::prelude::*;
use rustc_serialize::json::Json;
use time::Timespec;
use crate::text::{push_quoted, push_signed_decimal, quoted, signed_decimal};

verus! {

/// `time::Timespec`, a point in time as seconds and nanoseconds. The library
/// carries such a value from a literal to the parameter list and never looks
/// inside it.
#[verifier::external_type_specification]
#[verifier::external_body]
pub struct ExTimespec(time::Timespec);

/// `rustc_serialize::json::Json`, a JSON document. The library carries such a
/// value from a literal to the parameter list and never looks inside it.
#[verifier::external_type_specification]
#[verifier::external_body]
pub struct ExJson(rustc_serialize::json::Json);

/// `Clone::clone` of `rustc_serialize::json::Json`, which that crate derives:
/// the copy is the same document as the one copied.
pub assume_specification[ <rustc_serialize::json::Json as Clone>::clone ](j: &Json) -> (r: Json)
    ensures
        r == *j,
;

/// A single-precision floating-point literal, held as the bit pattern of its
/// IEEE 754 encoding.
#[derive(Clone, Copy, Debug, PartialEq, Eq)]
pub struct Float32 {
    pub bits: u32,
}

/// A double-precision floating-point literal, held as the bit pattern of its
/// IEEE 754 encoding.
#[derive(Clone, Copy, Debug, PartialEq, Eq)]
pub struct Float64 {
    pub bits: u64,
}

/// A bound value: the content of one literal of a statement.
#[derive(Debug, PartialEq)]
pub enum Value {
    Null,
    Bool(bool),
    I8(i8),
    I16(i16),
    I32(i32),
    I64(i64),
    F32(Float32),
    F64(Float64),
    Str(String),
    Bytes(Vec<u8>),
    Timespec(Timespec),
    Json(Json),
}

/// The mathematical content of a [`Value`].
pub enum ValueView {
    Null,
    Bool(bool),
    I8(i8),
    I16(i16),
    I32(i32),
    I64(i64),
    F32(Float32),
    F64(Float64),
    Str(Seq<char>),
    Bytes(Seq<u8>),
    Timespec(Timespec),
    Json(Json),
}

impl View for Value {
    type V = ValueView;

    open spec fn view(&self) -> ValueView {
        match *self {
            Value::Null => ValueView::Null,
            Value::Bool(b) => ValueView::Bool(b),
            Value::I8(v) => ValueView::I8(v),
            Value::I16(v) => ValueView::I16(v),
            Value::I32(v) => ValueView::I32(v),
            Value::I64(v) => ValueView::I64(v),
            Value::F32(v) => ValueView::F32(v),
            Value::F64(v) => ValueView::F64(v),
            Value::Str(s) => ValueView::Str(s@),
            Value::Bytes(b) => ValueView::Bytes(b@),
            Value::Timespec(t) => ValueView::Timespec(t),
            Value::Json(j) => ValueView::Json(j),
        }
    }
}

impl Clone for Value {
    fn clone(&self) -> (r: Value)
        ensures
            r@ == self@,
    {
        match self {
            Value::Null => Value::Null,
            Value::Bool(b) => Value::Bool(*b),
            Value::I8(v) => Value::I8(*v),
            Value::I16(v) => Value::I16(*v),
            Value::I32(v) => Value::I32(*v),
            Value::I64(v) => Value::I64(*v),
            Value::F32(v) => Value::F32(*v),
            Value::F64(v) => Value::F64(*v),
            Value::Str(s) => Value::Str(s.clone()),
            Value::Bytes(b) => Value::Bytes(b.clone()),
            Value::Timespec(t) => Value::Timespec(*t),
            Value::Json(j) => Value::Json(j.clone()),
        }
    }
}

/// The views of a sequence of values, in order.
pub open spec fn values_view(values: Seq<Value>) -> Seq<ValueView> {
    values.map_values(|v: Value| v@)
}

impl ValueView {
    /// The spelling of the value in SQL text, for the kinds that have one of
    /// their own: `NULL`, the booleans, the integers and strings. The other
    /// kinds are only ever bound.
    pub open spec fn sql_text(self) -> Option<Seq<char>> {
        match self {
            ValueView::Null => Some("NULL"@),
            ValueView::Bool(b) => Some(
                if b {
                    "true"@
                } else {
                    "false"@
                },
            ),
            ValueView::I8(v) => Some(signed_decimal(v as int)),
            ValueView::I16(v) => Some(signed_decimal(v as int)),
            ValueView::I32(v) => Some(signed_decimal(v as int)),
            ValueView::I64(v) => Some(signed_decimal(v as int)),
            ValueView::Str(s) => Some(quoted(s)),
            _ => None,
        }
    }
}

impl Value {
    /// Appends the SQL spelling of the value to `out` and returns `true`, or
    /// leaves `out` as it is and returns `false` where the value has none.
    pub fn push_sql_text(&self, out: &mut String) -> (written: bool)
        ensures
            written == self@.sql_text().is_some(),
            final(out)@ == old(out)@ + (match self@.sql_text() {
                Some(text) => text,
                None => Seq::empty(),
            }),
    {
        match self {
            Value::Null => {
                out.append("NULL");
                true
            },
            Value::Bool(b) => {
                if *b {
                    out.append("true");
                } else {
                    out.append("false");
                }
                true
            },
            Value::I8(v) => {
                push_signed_decimal(out, *v as i64);
                true
            },
            Value::I16(v) => {
                push_signed_decimal(out, *v as i64);
                true
            },
            Value::I32(v) => {
                push_signed_decimal(out, *v as i64);
                true
            },
            Value::I64(v) => {
                push_signed_decimal(out, *v);
                true
            },
            Value::Str(s) => {
                push_quoted(out, s.as_str());
                true
            },
            _ => {
                false
            },
        }
    }
}

} // verus!
