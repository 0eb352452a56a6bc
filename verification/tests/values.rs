use deuterium::text::{push_decimal, push_marker, push_quoted, push_signed_decimal};
use deuterium::{
    ByteListField, F32Field, F64Field, Float32, Float64, From, JsonField, NamedField,
    OptionalStringField, QueryToSql, Queryable, Sql, SqlContext, StringField, TableDef,
    TimespecField, ToInequalityPredicate, ToIsQuery, ToSql, UntypedExpression,
    UntypedListExpression, Value,
};
use rustc_serialize::json::Json;
use time::Timespec;

fn written(write: impl Fn(&mut String)) -> String {
    let mut out = String::from("x");
    write(&mut out);
    out
}

#[test]
fn decimal_numerals() {
    assert_eq!(written(|out| push_decimal(out, 0)), "x0");
    assert_eq!(written(|out| push_decimal(out, 9)), "x9");
    assert_eq!(written(|out| push_decimal(out, 10)), "x10");
    assert_eq!(written(|out| push_decimal(out, 1234567890)), "x1234567890");
    assert_eq!(written(|out| push_decimal(out, u64::MAX as u128)), "x18446744073709551615");
    assert_eq!(
        written(|out| push_decimal(out, u128::MAX)),
        "x340282366920938463463374607431768211455"
    );
}

#[test]
fn signed_decimal_numerals() {
    assert_eq!(written(|out| push_signed_decimal(out, 0)), "x0");
    assert_eq!(written(|out| push_signed_decimal(out, -1)), "x-1");
    assert_eq!(written(|out| push_signed_decimal(out, 42)), "x42");
    assert_eq!(written(|out| push_signed_decimal(out, i64::MAX)), "x9223372036854775807");
    assert_eq!(written(|out| push_signed_decimal(out, i64::MIN)), "x-9223372036854775808");
}

#[test]
fn markers() {
    assert_eq!(written(|out| push_marker(out, 1)), "x$1");
    assert_eq!(written(|out| push_marker(out, 120)), "x$120");
}

#[test]
fn quoted_strings() {
    assert_eq!(written(|out| push_quoted(out, "")), "x''");
    assert_eq!(written(|out| push_quoted(out, "Anakin Skywalker")), "x'Anakin Skywalker'");
    assert_eq!(written(|out| push_quoted(out, "O'Brien")), "x'O''Brien'");
    assert_eq!(written(|out| push_quoted(out, "'")), "x''''");
    assert_eq!(written(|out| push_quoted(out, "''a")), "x'''''a'");
    assert_eq!(written(|out| push_quoted(out, "Grüße, 世界")), "x'Grüße, 世界'");
}

#[test]
fn values_that_have_a_spelling() {
    let spelled = |value: Value| {
        let mut out = String::new();
        let written = value.push_sql_text(&mut out);
        (written, out)
    };
    assert_eq!(spelled(Value::Null), (true, "NULL".to_string()));
    assert_eq!(spelled(Value::Bool(true)), (true, "true".to_string()));
    assert_eq!(spelled(Value::Bool(false)), (true, "false".to_string()));
    assert_eq!(spelled(Value::I8(-128)), (true, "-128".to_string()));
    assert_eq!(spelled(Value::I16(-32768)), (true, "-32768".to_string()));
    assert_eq!(spelled(Value::I32(2147483647)), (true, "2147483647".to_string()));
    assert_eq!(spelled(Value::I64(-5)), (true, "-5".to_string()));
    assert_eq!(spelled(Value::Str("it's".to_string())), (true, "'it''s'".to_string()));
}

#[test]
fn values_that_are_only_bound() {
    let spelled = |value: Value| {
        let mut out = String::from("kept");
        let written = value.push_sql_text(&mut out);
        (written, out)
    };
    assert_eq!(spelled(Value::F32(Float32 { bits: 1 })), (false, "kept".to_string()));
    assert_eq!(spelled(Value::F64(Float64 { bits: 1 })), (false, "kept".to_string()));
    assert_eq!(spelled(Value::Bytes(vec![1, 2])), (false, "kept".to_string()));
    assert_eq!(
        spelled(Value::Timespec(Timespec::new(1, 2))),
        (false, "kept".to_string())
    );
    assert_eq!(spelled(Value::Json(Json::Null)), (false, "kept".to_string()));
}

#[test]
fn a_copy_of_a_value_is_the_value() {
    let values = vec![
        Value::Null,
        Value::Bool(true),
        Value::I8(1),
        Value::I16(2),
        Value::I32(3),
        Value::I64(4),
        Value::F32(Float32 { bits: 5 }),
        Value::F64(Float64 { bits: 6 }),
        Value::Str("seven".to_string()),
        Value::Bytes(vec![8]),
        Value::Timespec(Timespec::new(9, 10)),
        Value::Json(Json::Array(vec![Json::U64(11), Json::String("twelve".to_string())])),
    ];
    for value in values.iter() {
        assert_eq!(&value.clone(), value);
    }
}

#[test]
fn every_literal_is_bound_in_order() {
    let jedi = TableDef::new("jedi");
    let name: StringField = NamedField::new("name", "jedi");
    let weight: F64Field = NamedField::new("weight", "jedi");
    let height: F32Field = NamedField::new("height", "jedi");
    let key: ByteListField = NamedField::new("key", "jedi");
    let born: TimespecField = NamedField::new("born", "jedi");
    let doc: JsonField = NamedField::new("doc", "jedi");
    let master: OptionalStringField = NamedField::new("master", "jedi");
    let json = Json::Array(vec![Json::Boolean(true), Json::I64(-3)]);
    let query = jedi
        .select_all()
        .where_(name.is("O'Brien".to_string()))
        .where_(weight.lt(Float64 { bits: 77.5f64.to_bits() }))
        .where_(height.gte(Float32 { bits: 1.5f32.to_bits() }))
        .where_(key.is(vec![0u8, 255]))
        .where_(born.gt(Timespec::new(5, 6)))
        .where_(doc.is(json.clone()))
        .where_(master.is(None::<String>))
        .where_(master.is(Some("Yoda".to_string())));
    let sql = query.to_final_sql();
    assert_eq!(
        sql.text,
        "SELECT * FROM jedi WHERE name = $1 AND weight < $2 AND height >= $3 AND key = $4 \
         AND born > $5 AND doc = $6 AND master = $7 AND master = $8;"
    );
    assert_eq!(
        sql.params,
        vec![
            Value::Str("O'Brien".to_string()),
            Value::F64(Float64 { bits: 77.5f64.to_bits() }),
            Value::F32(Float32 { bits: 1.5f32.to_bits() }),
            Value::Bytes(vec![0, 255]),
            Value::Timespec(Timespec { sec: 5, nsec: 6 }),
            Value::Json(json),
            Value::Null,
            Value::Str("Yoda".to_string()),
        ]
    );
    assert_eq!(
        query.to_inline_sql(),
        "SELECT * FROM jedi WHERE name = 'O''Brien' AND weight < $2 AND height >= $3 \
         AND key = $4 AND born > $5 AND doc = $6 AND master = NULL AND master = 'Yoda';"
    );
}

#[test]
fn rendering_twice_gives_the_same() {
    let jedi = TableDef::new("jedi");
    let name: StringField = NamedField::new("name", "jedi");
    let query = jedi.select_1(&name).where_(name.is("Yoda".to_string())).first();
    let first = query.to_final_sql();
    let second = query.to_final_sql();
    assert_eq!(first, second);
    assert_eq!(first.text, "SELECT name FROM jedi WHERE name = $1 LIMIT 1;");
    assert_eq!(query.to_inline_sql(), query.to_inline_sql());
    let further = query.offset(2);
    assert_eq!(query.to_final_sql(), first);
    assert_eq!(further.to_final_sql().text, "SELECT name FROM jedi WHERE name = $1 LIMIT 1 OFFSET 2;");
}

#[test]
fn a_fragment_has_no_terminator() {
    let jedi = TableDef::new("jedi");
    let name: StringField = NamedField::new("name", "jedi");
    assert_eq!(jedi.select_all().to_sql_fragment().text, "SELECT * FROM jedi");
    assert_eq!(jedi.select_all().to_final_sql().text, "SELECT * FROM jedi;");
    assert_eq!(name.qual().to_sql_fragment().text, "jedi.name");
    assert_eq!(jedi.alias("j").to_sql_fragment().text, "jedi AS j");
    assert_eq!(jedi.upcast_from().to_sql_fragment().text, "jedi");
    let literal = "x".to_string().upcast_expression().to_sql_fragment();
    assert_eq!(
        literal,
        Sql { text: "$1".to_string(), params: vec![Value::Str("x".to_string())], placeholders: 0 }
    );
    let list = vec![Some(1i8), None].upcast_list().to_sql_fragment();
    assert_eq!(
        list,
        Sql {
            text: "$1, $2".to_string(),
            params: vec![Value::I8(1), Value::Null],
            placeholders: 0
        }
    );
}

#[test]
fn a_context_numbers_literals_after_its_offset() {
    let mut ctx = SqlContext::new();
    ctx.push_text("a ");
    ctx.push_param(Value::I32(5));
    ctx.push_text(" b ");
    ctx.push_placeholder(9);
    ctx.push_text(" ");
    ctx.push_param(Value::Str("s".to_string()));
    ctx.push_text(" ");
    ctx.push_number(12);
    assert_eq!(ctx.largest(), 9);
    let sql = ctx.finish();
    assert_eq!(sql.text, "a $1 b $9 $2 12");
    assert_eq!(sql.params, vec![Value::I32(5), Value::Str("s".to_string())]);
    assert_eq!(sql.placeholders, 9);

    let mut ctx = SqlContext::starting_after(9, false);
    ctx.push_param(Value::I32(5));
    ctx.push_text(" ");
    ctx.push_placeholder(9);
    ctx.push_text(" ");
    ctx.push_param(Value::I32(6));
    let sql = ctx.finish();
    assert_eq!(sql.text, "$10 $9 $11");
    assert_eq!(sql.params, vec![Value::I32(5), Value::I32(6)]);

    let mut ctx = SqlContext::new_inline();
    ctx.push_param(Value::Bytes(vec![1]));
    ctx.push_text(" ");
    ctx.push_param(Value::I32(5));
    ctx.push_text(" ");
    ctx.push_param(Value::Bytes(vec![2]));
    let sql = ctx.finish();
    assert_eq!(sql.text, "$1 5 $3");
    assert_eq!(
        sql.params,
        vec![Value::Bytes(vec![1]), Value::I32(5), Value::Bytes(vec![2])]
    );
}
