use deuterium::{
    BoolField, Deletable, From, I32Field, NamedField, OptionalI32Field, OptionalStringField,
    Orderable, Placeholder, QueryToSql, Queryable, RawExpr, RcPredicate, StringField, TableDef,
    ToAndPredicate, ToInPredicate, ToInequalityPredicate, ToIsNullPredicate, ToIsQuery,
    ToOrPredicate, ToSql, Value,
};

fn name() -> StringField {
    NamedField::new("name", "jedi")
}

fn is_name(value: &str) -> RcPredicate {
    name().is(value.to_string())
}

fn text(value: &str) -> Value {
    Value::Str(value.to_string())
}

#[test]
fn or_under_and_is_bracketed_on_the_right() {
    let p = is_name("a").and(is_name("b").or(is_name("c")));
    let sql = p.to_sql_fragment();
    assert_eq!(sql.text, "name = $1 AND (name = $2 OR name = $3)");
    assert_eq!(sql.params, vec![text("a"), text("b"), text("c")]);
}

#[test]
fn or_under_and_is_bracketed_on_the_left() {
    let p = is_name("a").or(is_name("b")).and(is_name("c"));
    let sql = p.to_sql_fragment();
    assert_eq!(sql.text, "(name = $1 OR name = $2) AND name = $3");
    assert_eq!(sql.params, vec![text("a"), text("b"), text("c")]);
}

#[test]
fn and_under_and_runs_on() {
    let left = is_name("a").and(is_name("b")).and(is_name("c"));
    assert_eq!(left.to_sql_fragment().text, "name = $1 AND name = $2 AND name = $3");
    let right = is_name("a").and(is_name("b").and(is_name("c")));
    assert_eq!(right.to_sql_fragment().text, "name = $1 AND name = $2 AND name = $3");
}

#[test]
fn or_under_or_runs_on() {
    let p = is_name("a").or(is_name("b")).or(is_name("c"));
    assert_eq!(p.to_sql_fragment().text, "name = $1 OR name = $2 OR name = $3");
}

#[test]
fn and_under_or_stands_bare() {
    let p = is_name("a").or(is_name("b").and(is_name("c")));
    assert_eq!(p.to_sql_fragment().text, "name = $1 OR name = $2 AND name = $3");
}

#[test]
fn both_sides_of_and_are_bracketed_where_both_are_or() {
    let p = is_name("a").or(is_name("b")).and(is_name("c").or(is_name("d")));
    assert_eq!(
        p.to_sql_fragment().text,
        "(name = $1 OR name = $2) AND (name = $3 OR name = $4)"
    );
}

#[test]
fn composing_leaves_the_operands_as_they_were() {
    let a = is_name("a");
    let b = is_name("b");
    let both = a.and(b.clone());
    assert_eq!(a.to_sql_fragment().text, "name = $1");
    assert_eq!(b.to_sql_fragment().text, "name = $1");
    assert_eq!(both.to_sql_fragment().text, "name = $1 AND name = $2");
}

#[test]
fn where_twice_accumulates() {
    let jedi = TableDef::new("jedi");
    let query = jedi.select_all().where_(is_name("a")).where_(is_name("a"));
    let sql = query.to_final_sql();
    assert_eq!(sql.text, "SELECT * FROM jedi WHERE name = $1 AND name = $2;");
    assert_eq!(sql.params, vec![text("a"), text("a")]);
    assert_eq!(
        query.to_inline_sql(),
        "SELECT * FROM jedi WHERE name = 'a' AND name = 'a';"
    );
}

#[test]
fn where_twice_brackets_a_disjunction() {
    let jedi = TableDef::new("jedi");
    let p = is_name("a").or(is_name("b"));
    let query = jedi.delete().where_(p.clone()).where_(p);
    assert_eq!(
        query.to_inline_sql(),
        "DELETE FROM jedi WHERE (name = 'a' OR name = 'b') AND (name = 'a' OR name = 'b');"
    );
}

#[test]
fn and_is_where() {
    let jedi = TableDef::new("jedi");
    let by_where = jedi.select_all().where_(is_name("a")).where_(is_name("b"));
    let by_and = jedi.select_all().where_(is_name("a")).and(is_name("b"));
    assert_eq!(by_where.to_final_sql(), by_and.to_final_sql());
}

#[test]
fn or_on_a_statement() {
    let jedi = TableDef::new("jedi");
    let first = jedi.select_all().or(is_name("a"));
    assert_eq!(first.to_inline_sql(), "SELECT * FROM jedi WHERE name = 'a';");
    let second = first.or(is_name("b"));
    assert_eq!(
        second.to_inline_sql(),
        "SELECT * FROM jedi WHERE name = 'a' OR name = 'b';"
    );
    let third = second.where_(is_name("c"));
    assert_eq!(
        third.to_inline_sql(),
        "SELECT * FROM jedi WHERE (name = 'a' OR name = 'b') AND name = 'c';"
    );
}

#[test]
fn where_gives_a_new_statement() {
    let jedi = TableDef::new("jedi");
    let base = jedi.select_all();
    let one = base.where_(is_name("a"));
    let other = base.where_(is_name("b"));
    assert_eq!(base.to_inline_sql(), "SELECT * FROM jedi;");
    assert_eq!(one.to_inline_sql(), "SELECT * FROM jedi WHERE name = 'a';");
    assert_eq!(other.to_inline_sql(), "SELECT * FROM jedi WHERE name = 'b';");
}

#[test]
fn set_and_unset_where() {
    let jedi = TableDef::new("jedi");
    let mut query = jedi.select_all();
    assert!(query.get_where().is_none());
    query.set_where(is_name("a"));
    assert!(query.get_where().is_some());
    assert_eq!(query.to_inline_sql(), "SELECT * FROM jedi WHERE name = 'a';");
    query.set_where(is_name("b"));
    assert_eq!(query.to_inline_sql(), "SELECT * FROM jedi WHERE name = 'b';");
    query.unset_where();
    assert_eq!(query.to_inline_sql(), "SELECT * FROM jedi;");
}

#[test]
fn inequalities() {
    let age: I32Field = NamedField::new("age", "jedi");
    assert_eq!(age.lt(5i32).to_sql_fragment().text, "age < $1");
    assert_eq!(age.lte(5i32).to_sql_fragment().text, "age <= $1");
    assert_eq!(age.gt(5i32).to_sql_fragment().text, "age > $1");
    assert_eq!(age.gte(5i32).to_sql_fragment().text, "age >= $1");
    assert_eq!(age.gte(5i32).to_sql_fragment().params, vec![Value::I32(5)]);
}

#[test]
fn numbers_of_different_widths_compare() {
    let age: I32Field = NamedField::new("age", "jedi");
    let rank: NamedField<i64> = NamedField::new("rank", "jedi");
    let sql = age.lt(7i64).to_sql_fragment();
    assert_eq!(sql.params, vec![Value::I64(7)]);
    assert_eq!(age.lt(rank.clone()).to_sql_fragment().text, "age < rank");
    assert_eq!(age.is(rank).to_sql_fragment().text, "age = rank");
    assert_eq!(age.is(Some(3i8)).to_sql_fragment().params, vec![Value::I8(3)]);
    assert_eq!(age.is(None::<i16>).to_sql_fragment().params, vec![Value::Null]);
}

#[test]
fn null_tests() {
    let master: OptionalStringField = NamedField::new("master", "jedi");
    assert_eq!(master.is_null().to_sql_fragment().text, "master IS NULL");
    assert_eq!(master.not_null().to_sql_fragment().text, "master IS NOT NULL");
    assert_eq!(master.is_null().to_sql_fragment().params, vec![]);
    let raw = RawExpr::new("lower(name)".to_string());
    assert_eq!(raw.is_null().to_sql_fragment().text, "lower(name) IS NULL");
    assert_eq!(raw.not_null().to_sql_fragment().text, "lower(name) IS NOT NULL");
}

#[test]
fn membership_of_a_list() {
    let age: I32Field = NamedField::new("age", "jedi");
    let sql = age.in_list(vec![1i32, 2, 3]).to_sql_fragment();
    assert_eq!(sql.text, "age IN ($1, $2, $3)");
    assert_eq!(sql.params, vec![Value::I32(1), Value::I32(2), Value::I32(3)]);
    let sql = age.not_in_list(vec![4i32]).to_sql_fragment();
    assert_eq!(sql.text, "age NOT IN ($1)");
    assert_eq!(sql.params, vec![Value::I32(4)]);
    let sql = age.in_list(Vec::<i32>::new()).to_sql_fragment();
    assert_eq!(sql.text, "age IN ()");
    assert_eq!(sql.params, vec![]);
}

#[test]
fn membership_of_a_select() {
    let jedi = TableDef::new("jedi");
    let sith = TableDef::new("sith");
    let age: I32Field = NamedField::new("age", "jedi");
    let sith_age: I32Field = NamedField::new("age", "sith");
    let inner = sith.select_1(&sith_age).where_(sith_age.gt(900i32));
    let query = jedi.select_all().where_(age.is(5i32)).where_(age.in_list(inner));
    let sql = query.to_final_sql();
    assert_eq!(
        sql.text,
        "SELECT * FROM jedi WHERE age = $1 AND age IN (SELECT age FROM sith WHERE age > $2);"
    );
    assert_eq!(sql.params, vec![Value::I32(5), Value::I32(900)]);
}

#[test]
fn a_select_of_one_row_is_a_value() {
    let jedi = TableDef::new("jedi");
    let sith = TableDef::new("sith");
    let age: I32Field = NamedField::new("age", "jedi");
    let sith_age: I32Field = NamedField::new("age", "sith");
    let oldest = sith.select_1(&sith_age).reverse_by(&sith_age).first();
    let query = jedi.select_all().where_(age.lt(oldest));
    assert_eq!(
        query.to_inline_sql(),
        "SELECT * FROM jedi WHERE age < (SELECT age FROM sith ORDER BY age DESC LIMIT 1);"
    );
}

#[test]
fn placeholders_are_written_and_bind_nothing() {
    let age: I32Field = NamedField::new("age", "jedi");
    let sql = age.is(Placeholder::new(7)).to_sql_fragment();
    assert_eq!(sql.text, "age = $7");
    assert_eq!(sql.params, vec![]);
    assert_eq!(sql.placeholders, 7);
    assert_eq!(Placeholder::new(3).idx, 3);
}

#[test]
fn literals_are_numbered_after_the_placeholders() {
    let age: I32Field = NamedField::new("age", "jedi");
    let p = age.is(1i32).and(age.is(Placeholder::new(1))).and(age.is(2i32));
    let sql = p.to_sql_fragment();
    assert_eq!(sql.text, "age = $2 AND age = $1 AND age = $3");
    assert_eq!(sql.params, vec![Value::I32(1), Value::I32(2)]);
    assert_eq!(sql.placeholders, 1);

    let side: BoolField = NamedField::new("side", "jedi");
    let jedi = TableDef::new("jedi");
    let query = jedi
        .delete()
        .where_(name().is(Placeholder::new(1)))
        .where_(side.is(true));
    let sql = query.to_final_sql();
    assert_eq!(sql.text, "DELETE FROM jedi WHERE name = $1 AND side = $2;");
    assert_eq!(sql.params, vec![Value::Bool(true)]);
    assert_eq!(sql.placeholders, 1);
    assert_eq!(
        query.to_inline_sql(),
        "DELETE FROM jedi WHERE name = $1 AND side = true;"
    );

    let p = age
        .is(Placeholder::new(2))
        .and(age.is(10i32))
        .and(age.is(Placeholder::new(5)))
        .and(age.is(Placeholder::new(2)))
        .and(age.is(20i32));
    let sql = p.to_sql_fragment();
    assert_eq!(sql.text, "age = $2 AND age = $6 AND age = $5 AND age = $2 AND age = $7");
    assert_eq!(sql.params, vec![Value::I32(10), Value::I32(20)]);
    assert_eq!(sql.placeholders, 5);

    let without = age.is(1i32).and(age.is(2i32)).to_sql_fragment();
    assert_eq!(without.text, "age = $1 AND age = $2");
    assert_eq!(without.placeholders, 0);

    let largest = age.is(Placeholder::new(usize::MAX)).and(age.is(1i32)).to_sql_fragment();
    assert_eq!(
        largest.text,
        format!("age = ${} AND age = ${}", usize::MAX, usize::MAX as u128 + 1)
    );
}

#[test]
fn raw_text_is_written_as_it_stands() {
    let raw = RawExpr::new("lower(name)".to_string());
    assert_eq!(raw.content, "lower(name)");
    let sql = raw.is("anakin".to_string()).to_sql_fragment();
    assert_eq!(sql.text, "lower(name) = $1");
    assert_eq!(sql.params, vec![text("anakin")]);
    let sql = name().is(RawExpr::new("upper('x')".to_string())).to_sql_fragment();
    assert_eq!(sql.text, "name = upper('x')");
    assert_eq!(sql.params, vec![]);
    let sql = raw.lt(RawExpr::new("now()".to_string())).to_sql_fragment();
    assert_eq!(sql.text, "lower(name) < now()");
    let sql = raw.in_list(vec![1i32]);
    assert_eq!(sql.to_sql_fragment().text, "lower(name) IN ($1)");
}

#[test]
fn booleans_and_nullable_columns() {
    let side: BoolField = NamedField::new("side", "jedi");
    let sql = side.is(true).to_sql_fragment();
    assert_eq!(sql.text, "side = $1");
    assert_eq!(sql.params, vec![Value::Bool(true)]);
    let rank: OptionalI32Field = NamedField::new("rank", "jedi");
    let sql = rank.gt(3i32).to_sql_fragment();
    assert_eq!(sql.text, "rank > $1");
    assert_eq!(sql.params, vec![Value::I32(3)]);
    let sql = rank.is(None::<i32>).to_sql_fragment();
    assert_eq!(sql.params, vec![Value::Null]);
}

#[test]
fn typed_nodes_are_forgotten_into_predicates() {
    let age: I32Field = NamedField::new("age", "jedi");
    let is = deuterium::IsQuery { field: name(), value: "x".to_string() };
    assert_eq!(deuterium::Predicate::upcast(&is).to_sql_fragment().text, "name = $1");
    let less = deuterium::InequalityPredicate {
        field: age.clone(),
        value: 3i32,
        inequality: deuterium::Inequality::LessThanEqual,
    };
    assert_eq!(deuterium::Predicate::upcast(&less).to_sql_fragment().text, "age <= $1");
    let null = deuterium::IsNullPredicate { field: name(), null: false };
    assert_eq!(deuterium::Predicate::upcast(&null).to_sql_fragment().text, "name IS NOT NULL");
    let member = deuterium::InPredicate { field: age, values: vec![1i32, 2], negated: true };
    assert_eq!(
        deuterium::Predicate::upcast(&member).to_sql_fragment().text,
        "age NOT IN ($1, $2)"
    );
    let shared = is_name("a");
    assert_eq!(
        deuterium::Predicate::upcast(&shared).to_sql_fragment(),
        shared.to_sql_fragment()
    );
    assert!(is_name("a").or(is_name("b")).is_or());
    assert!(!is_name("a").and(is_name("b")).is_or());
}

#[test]
fn operators_as_text() {
    assert_eq!(deuterium::Inequality::LessThan.as_sql(), " < ");
    assert_eq!(deuterium::Inequality::LessThanEqual.as_sql(), " <= ");
    assert_eq!(deuterium::Inequality::GreaterThan.as_sql(), " > ");
    assert_eq!(deuterium::Inequality::GreaterThanEqual.as_sql(), " >= ");
}

#[test]
fn null_is_a_literal() {
    let master: OptionalStringField = NamedField::new("master", "jedi");
    let sql = master.is(deuterium::Null).to_sql_fragment();
    assert_eq!(sql.text, "master = $1");
    assert_eq!(sql.params, vec![Value::Null]);
    let jedi = TableDef::new("jedi");
    let query = jedi.select_all().where_(master.is(deuterium::Null));
    assert_eq!(query.to_inline_sql(), "SELECT * FROM jedi WHERE master = NULL;");
}
