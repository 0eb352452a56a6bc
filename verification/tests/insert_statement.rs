use deuterium::{
    BoolField, ExprValue, From, Insert, InsertQuery, Insertable, NamedField, NoResult, Placeholder,
    QueryToSql, Queryable, ShapeError, StringField, Table, TableDef, ToExprValue, ToIsQuery,
    UntypedExpression, Value, Field,
};

fn jedi() -> TableDef {
    TableDef::new("jedi")
}

fn name() -> StringField {
    NamedField::new("name", "jedi")
}

fn side() -> BoolField {
    NamedField::new("side", "jedi")
}

#[test]
fn insert_of_defaults() {
    assert_eq!(jedi().insert_all().to_inline_sql(), "INSERT INTO jedi DEFAULT VALUES;");
    let query = jedi().insert_fields(&[name().upcast_field(), side().upcast_field()]);
    assert_eq!(query.to_inline_sql(), "INSERT INTO jedi (name, side) DEFAULT VALUES;");
    let qualified = jedi().insert_fields(&[name().qual().upcast_field()]);
    assert_eq!(qualified.to_inline_sql(), "INSERT INTO jedi (name) DEFAULT VALUES;");
}

#[test]
fn insert_new_and_getters() {
    let query: InsertQuery<(), (), (), (), NoResult> = InsertQuery::new(&jedi());
    assert_eq!(query.get_into().get_table_name(), "jedi");
    assert!(query.get_cols().is_none());
    assert!(query.get_returning().is_none());
    assert!(matches!(query.get_values(), Insert::DefaultValues));
    let query: InsertQuery<(), (), (), (), NoResult> =
        InsertQuery::new_with_cols(&jedi(), vec![name().upcast_field()]);
    assert_eq!(query.get_cols().as_ref().map(|cols| cols.len()), Some(1));
    assert_eq!(query.to_inline_sql(), "INSERT INTO jedi (name) DEFAULT VALUES;");
}

#[test]
fn rows_of_the_right_shape_are_accepted() {
    let mut query = jedi().insert_2(&name(), &side());
    let row = (ExprValue::new(&"Luke".to_string()), ExprValue::new(&true));
    assert_eq!(query.push(row), Ok(()));
    let row = ("Vader".to_string().to_expr_val(), ExprValue::DefaultValue);
    assert_eq!(query.push(row), Ok(()));
    let sql = query.to_final_sql();
    assert_eq!(sql.text, "INSERT INTO jedi (name, side) VALUES ($1, $2), ($3, DEFAULT);");
    assert_eq!(
        sql.params,
        vec![
            Value::Str("Luke".to_string()),
            Value::Bool(true),
            Value::Str("Vader".to_string())
        ]
    );
    assert_eq!(
        query.to_inline_sql(),
        "INSERT INTO jedi (name, side) VALUES ('Luke', true), ('Vader', DEFAULT);"
    );
    match query.get_values() {
        Insert::Values(rows) => assert_eq!(rows.len(), 2),
        _ => panic!("the rows were pushed"),
    }
}

#[test]
fn a_row_of_one_cell() {
    let mut query = jedi().insert_1(&name());
    assert_eq!(query.push((ExprValue::new(&"Luke".to_string()),)), Ok(()));
    assert_eq!(query.to_inline_sql(), "INSERT INTO jedi (name) VALUES ('Luke');");
}

#[test]
fn rows_of_another_shape_are_refused() {
    let mut query = jedi().insert_fields(&[name().upcast_field(), side().upcast_field()]);
    assert_eq!(query.push(()), Err(ShapeError::RowArity { columns: 2, cells: 0 }));
    assert_eq!(query.to_inline_sql(), "INSERT INTO jedi (name, side) DEFAULT VALUES;");
    assert!(matches!(query.get_values(), Insert::DefaultValues));

    let mut rows: InsertQuery<(), Vec<ExprValue<()>>, (), (), NoResult> =
        InsertQuery::new_with_cols(&jedi(), vec![name().upcast_field(), side().upcast_field()]);
    let cell = || ExprValue::ExpressionValue {
        expression: 1i32.upcast_expression(),
        kind: std::marker::PhantomData,
    };
    assert_eq!(rows.push(vec![cell(), cell()]), Ok(()));
    assert_eq!(
        rows.push(vec![cell()]),
        Err(ShapeError::RowArity { columns: 2, cells: 1 })
    );
    assert_eq!(
        rows.push(vec![cell(), cell(), cell()]),
        Err(ShapeError::RowArity { columns: 2, cells: 3 })
    );
    assert_eq!(rows.push(vec![cell(), ExprValue::DefaultValue]), Ok(()));
    assert_eq!(
        rows.to_inline_sql(),
        "INSERT INTO jedi (name, side) VALUES (1, 1), (1, DEFAULT);"
    );
}

#[test]
fn the_shape_error_in_words() {
    let error = ShapeError::RowArity { columns: 2, cells: 10 };
    assert_eq!(error.describe(), "invalid query shape: a row of 10 cells for 2 columns");
}

#[test]
fn without_columns_any_row_is_accepted() {
    let mut query: InsertQuery<(), Vec<ExprValue<()>>, (), (), NoResult> = InsertQuery::new(&jedi());
    let cell = ExprValue::ExpressionValue {
        expression: 1i32.upcast_expression(),
        kind: std::marker::PhantomData,
    };
    assert_eq!(query.push(vec![cell]), Ok(()));
    assert_eq!(query.push(vec![]), Ok(()));
    assert_eq!(query.to_inline_sql(), "INSERT INTO jedi VALUES (1), ();");
}

#[test]
fn untyped_rows_are_not_checked() {
    let mut query = jedi().insert_fields(&[name().upcast_field(), side().upcast_field()]);
    query.push_untyped(&["Luke".to_string().upcast_expression()]);
    query.push_untyped(&[
        "Leia".to_string().upcast_expression(),
        Placeholder::new(9).upcast_expression(),
        name().upcast_expression(),
    ]);
    let sql = query.to_final_sql();
    assert_eq!(sql.text, "INSERT INTO jedi (name, side) VALUES ($10), ($11, $9, name);");
    assert_eq!(sql.placeholders, 9);
    assert_eq!(
        sql.params,
        vec![Value::Str("Luke".to_string()), Value::Str("Leia".to_string())]
    );
    match query.get_values() {
        Insert::UntypedValues(rows) => assert_eq!(rows.len(), 2),
        _ => panic!("the rows were pushed"),
    }
}

#[test]
fn one_source_of_rows_takes_the_place_of_another() {
    let mut query: InsertQuery<(), Vec<ExprValue<()>>, (), (), NoResult> = InsertQuery::new(&jedi());
    let cell = || ExprValue::ExpressionValue {
        expression: 1i32.upcast_expression(),
        kind: std::marker::PhantomData,
    };
    query.push_untyped(&[2i32.upcast_expression()]);
    assert_eq!(query.to_inline_sql(), "INSERT INTO jedi VALUES (2);");
    assert_eq!(query.push(vec![cell()]), Ok(()));
    assert_eq!(query.to_inline_sql(), "INSERT INTO jedi VALUES (1);");
    query.push_untyped(&[3i32.upcast_expression()]);
    assert_eq!(query.to_inline_sql(), "INSERT INTO jedi VALUES (3);");
    let sith = TableDef::new("sith");
    let from_select = query.from_select(sith.select_all());
    assert_eq!(from_select.to_inline_sql(), "INSERT INTO jedi SELECT * FROM sith;");
    assert_eq!(query.to_inline_sql(), "INSERT INTO jedi VALUES (3);");
    let mut back = from_select;
    assert_eq!(back.push(vec![cell()]), Ok(()));
    assert_eq!(back.to_inline_sql(), "INSERT INTO jedi VALUES (1);");
}

#[test]
fn insert_from_a_select_with_parameters() {
    let sith = TableDef::new("sith");
    let sith_name: StringField = NamedField::new("name", "sith");
    let sith_side: BoolField = NamedField::new("side", "sith");
    let select = sith.select_2(&sith_name, &sith_side).where_(sith_name.is("Maul".to_string()));
    let query = jedi().insert_2(&name(), &side()).from_select(select);
    let sql = query.returning_1(&name()).to_final_sql();
    assert_eq!(
        sql.text,
        "INSERT INTO jedi (name, side) SELECT name, side FROM sith WHERE name = $1 \
         RETURNING name;"
    );
    assert_eq!(sql.params, vec![Value::Str("Maul".to_string())]);
}

#[test]
fn insert_of_one_column_from_a_select() {
    let sith = TableDef::new("sith");
    let sith_name: StringField = NamedField::new("name", "sith");
    let query = jedi().insert_1(&name()).from_select(sith.select_1(&sith_name));
    assert_eq!(query.to_inline_sql(), "INSERT INTO jedi (name) SELECT name FROM sith;");
}

#[test]
fn insert_returning() {
    let base = || jedi().insert_all();
    assert_eq!(
        base().returning_1(&name()).to_inline_sql(),
        "INSERT INTO jedi DEFAULT VALUES RETURNING name;"
    );
    assert_eq!(
        base().returning_2(&name(), &side()).to_inline_sql(),
        "INSERT INTO jedi DEFAULT VALUES RETURNING name, side;"
    );
    assert_eq!(
        base()
            .returning(&[side().upcast_expression(), name().qual().upcast_expression()])
            .to_inline_sql(),
        "INSERT INTO jedi DEFAULT VALUES RETURNING side, jedi.name;"
    );
    assert_eq!(
        base().returning_all().to_inline_sql(),
        "INSERT INTO jedi DEFAULT VALUES RETURNING *;"
    );
    assert_eq!(
        base().returning_all().no_returning().to_inline_sql(),
        "INSERT INTO jedi DEFAULT VALUES;"
    );
    assert_eq!(
        base().returning_all().returning_1(&name()).to_inline_sql(),
        "INSERT INTO jedi DEFAULT VALUES RETURNING name;"
    );
    let returning = base().returning_all();
    assert!(returning.get_returning().is_some());
}
