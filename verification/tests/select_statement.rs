use deuterium::{
    From, I32Field, LimitMany, LimitOne, Limited, NamedField, Orderable, QueryToSql, Queryable,
    RcPredicate, Select, SelectQuery, StringField, Table, TableDef, ToIsQuery, ToSelectQuery, ToSql,
    UntypedExpression, UuidField, Value, Field,
};

fn jedi() -> TableDef {
    TableDef::new("jedi")
}

fn sith() -> TableDef {
    TableDef::new("sith")
}

fn name() -> StringField {
    NamedField::new("name", "jedi")
}

fn age() -> I32Field {
    NamedField::new("age", "jedi")
}

fn same_name() -> RcPredicate {
    let left: StringField = NamedField::new("name", "jedi");
    let right: StringField = NamedField::new("name", "sith");
    left.qual().is(right.qual())
}

#[test]
fn select_of_a_list_of_columns() {
    let query = jedi().select(&[name().upcast_field(), age().upcast_field()]);
    assert_eq!(query.to_inline_sql(), "SELECT name, age FROM jedi;");
    let none = jedi().select(&[]);
    assert_eq!(none.to_inline_sql(), "SELECT  FROM jedi;");
}

#[test]
fn select_new_has_nothing_but_what_it_is_given() {
    let query: SelectQuery<(), LimitMany, ()> =
        SelectQuery::new(Select::Only(vec![name().upcast_expression()]), jedi().upcast_from());
    assert_eq!(query.to_inline_sql(), "SELECT name FROM jedi;");
    assert!(query.where_.is_none());
    assert!(query.limit.get().is_none());
    assert!(query.offset.is_none());
    assert!(query.order_by.is_empty());
    assert!(query.joins.is_empty());
    let statement = query.to_statement();
    assert!(statement.limit.is_none());
    assert_eq!(statement.to_sql_fragment().text, "SELECT name FROM jedi");
}

#[test]
fn qualified_columns() {
    let j = jedi().alias("j");
    let qualified: StringField = NamedField::field_of("name", &j);
    assert_eq!(j.select_1(&qualified).to_inline_sql(), "SELECT j.name FROM jedi AS j;");
    assert_eq!(jedi().select_1(&name().qual()).to_inline_sql(), "SELECT jedi.name FROM jedi;");
    assert_eq!(
        jedi().select_1(&name().qual_with("x")).to_inline_sql(),
        "SELECT x.name FROM jedi;"
    );
    assert_eq!(
        j.select_1(&name().qual_for(&j)).to_inline_sql(),
        "SELECT j.name FROM jedi AS j;"
    );
    assert_eq!(
        jedi().select_1(&qualified.qual_for(&jedi())).to_inline_sql(),
        "SELECT name FROM jedi;"
    );
}

#[test]
fn field_constructors() {
    let plain: StringField = NamedField::new("name", "jedi");
    assert_eq!(plain.name, "name");
    assert_eq!(plain.table_name, "jedi");
    assert_eq!(plain.qual, None);
    let qualified: StringField = NamedField::new_qual("name", "jedi", "j");
    assert_eq!(qualified.qual, Some("j".to_string()));
    assert_eq!(qualified.table_name, "jedi");
    let of_table: StringField = NamedField::field_of("name", &jedi());
    assert_eq!(of_table.qual, None);
    assert_eq!(of_table.table_name, "jedi");
    let of_alias: StringField = NamedField::field_of("name", &jedi().alias("j"));
    assert_eq!(of_alias.qual, Some("j".to_string()));
    assert_eq!(of_alias.table_name, "jedi");
    let own = plain.qual();
    assert_eq!(own.qual, Some("jedi".to_string()));
    assert_eq!(plain.qual, None);
    assert_eq!(Field::name(&own), "name");
    assert_eq!(Field::table_name(&own), "jedi");
    assert_eq!(Field::qual(&own), Some(&"jedi".to_string()));
    assert_eq!(Field::qual(&plain), None);
    let untyped = own.upcast_field();
    assert_eq!(untyped.name, "name");
    assert_eq!(untyped.qual, Some("jedi".to_string()));
}

#[test]
fn a_column_of_any_type_is_selected() {
    let id: UuidField = NamedField::new("id", "jedi");
    assert_eq!(jedi().select_1(&id).to_inline_sql(), "SELECT id FROM jedi;");
}

#[test]
fn limit_and_offset() {
    let query = jedi().select_all().limit(10).many().offset(20);
    assert_eq!(query.to_inline_sql(), "SELECT * FROM jedi LIMIT 10 OFFSET 20;");
    let query = jedi().select_all().offset(20).limit(10);
    assert_eq!(query.to_inline_sql(), "SELECT * FROM jedi LIMIT 10 OFFSET 20;");
    let query = jedi().select_all().offset(0);
    assert_eq!(query.to_inline_sql(), "SELECT * FROM jedi OFFSET 0;");
    let query: SelectQuery<(), LimitOne, ()> = jedi().select_all().first();
    assert_eq!(query.to_inline_sql(), "SELECT * FROM jedi LIMIT 1;");
    let query = jedi().select_all().limit(3).many().limit(4);
    assert_eq!(query.to_inline_sql(), "SELECT * FROM jedi LIMIT 4;");
    let query = jedi().select_all().limit(usize::MAX);
    assert_eq!(
        query.to_inline_sql(),
        format!("SELECT * FROM jedi LIMIT {};", usize::MAX)
    );
}

#[test]
fn ordering() {
    let base = jedi().select_all();
    assert_eq!(base.order_by(&name()).to_inline_sql(), "SELECT * FROM jedi ORDER BY name ASC;");
    assert_eq!(
        base.reverse_by(&name()).to_inline_sql(),
        "SELECT * FROM jedi ORDER BY name DESC;"
    );
    let a: StringField = NamedField::new("a", "jedi");
    let b: StringField = NamedField::new("b", "jedi");
    let c: StringField = NamedField::new("c", "jedi");
    assert_eq!(
        base.order_by_fields(&[a.clone(), b.clone()]).to_inline_sql(),
        "SELECT * FROM jedi ORDER BY a ASC, b ASC;"
    );
    assert_eq!(
        base.reverse_by_fields(&[a.clone(), b.clone()]).to_inline_sql(),
        "SELECT * FROM jedi ORDER BY a DESC, b DESC;"
    );
    let ordered = base.order_by(&a);
    assert_eq!(
        ordered.order_append(&b).to_inline_sql(),
        "SELECT * FROM jedi ORDER BY a ASC, b ASC;"
    );
    assert_eq!(
        ordered.order_prepend(&b).to_inline_sql(),
        "SELECT * FROM jedi ORDER BY b ASC, a ASC;"
    );
    assert_eq!(
        ordered.order_reverse_append(&b).to_inline_sql(),
        "SELECT * FROM jedi ORDER BY a ASC, b DESC;"
    );
    assert_eq!(
        ordered.order_reverse_prepend(&b).to_inline_sql(),
        "SELECT * FROM jedi ORDER BY b DESC, a ASC;"
    );
    assert_eq!(
        ordered.order_append(&b).order_by(&c).to_inline_sql(),
        "SELECT * FROM jedi ORDER BY c ASC;"
    );
    assert_eq!(
        base.order_by_fields::<StringField>(&[]).to_inline_sql(),
        "SELECT * FROM jedi;"
    );
    assert_eq!(ordered.to_inline_sql(), "SELECT * FROM jedi ORDER BY a ASC;");
}

#[test]
fn orderings_changed_in_place() {
    let a: StringField = NamedField::new("a", "jedi");
    let b: StringField = NamedField::new("b", "jedi");
    let mut query = jedi().select_all().order_by(&a);
    query.get_order_by_mut().push(deuterium::OrderBy::reverse_by(&b));
    assert_eq!(query.to_inline_sql(), "SELECT * FROM jedi ORDER BY a ASC, b DESC;");
    query.set_order_by(vec![deuterium::OrderBy::by_field(&b)]);
    assert_eq!(query.to_inline_sql(), "SELECT * FROM jedi ORDER BY b ASC;");
    query.get_order_by_mut().clear();
    assert_eq!(query.to_inline_sql(), "SELECT * FROM jedi;");
}

#[test]
fn only_a_limit_of_one_gives_the_one_row_state() {
    let base = jedi().select_1(&age());
    for limit in [0usize, 2, 3, 10, usize::MAX] {
        let limited = base.limit(limit);
        assert!(matches!(limited, Limited::Many(_)));
        assert!(limited.one().is_none());
    }
    let limited = base.limit(1);
    assert!(matches!(limited, Limited::One(_)));
    let one: SelectQuery<i32, LimitOne, ()> = base.limit(1).one().unwrap();
    assert_eq!(one.limit.get(), Some(1));
    assert_eq!(one.to_inline_sql(), "SELECT age FROM jedi LIMIT 1;");
    assert_eq!(one.to_inline_sql(), base.first().to_inline_sql());
    let as_value = jedi().select_all().where_(age().is(one));
    assert_eq!(
        as_value.to_inline_sql(),
        "SELECT * FROM jedi WHERE age = (SELECT age FROM jedi LIMIT 1);"
    );
    let many: SelectQuery<i32, LimitMany, ()> = base.limit(1).many();
    assert_eq!(many.to_inline_sql(), "SELECT age FROM jedi LIMIT 1;");
    let kept = base.first().offset(3).where_(age().is(4i32)).order_by(&age());
    assert_eq!(kept.limit.get(), Some(1));
    assert_eq!(kept.to_statement().limit, Some(1));
    let five = base.limit(5);
    assert_eq!(five.to_final_sql().text, "SELECT age FROM jedi LIMIT 5;");
    assert_eq!(five.many().limit.get(), Some(5));
}

#[test]
fn joins_with_a_condition() {
    let base = jedi().select_all();
    let s = sith();
    assert_eq!(
        base.inner_join(&s, same_name()).to_inline_sql(),
        "SELECT * FROM jedi INNER JOIN sith ON jedi.name = sith.name;"
    );
    assert_eq!(
        base.full_outer_join(&s, same_name()).to_inline_sql(),
        "SELECT * FROM jedi FULL OUTER JOIN sith ON jedi.name = sith.name;"
    );
    assert_eq!(
        base.right_outer_join(&s, same_name()).to_inline_sql(),
        "SELECT * FROM jedi RIGHT OUTER JOIN sith ON jedi.name = sith.name;"
    );
    assert_eq!(
        base.left_outer_join(&s, same_name()).to_inline_sql(),
        "SELECT * FROM jedi LEFT OUTER JOIN sith ON jedi.name = sith.name;"
    );
    assert_eq!(
        base.full_join(&s, same_name()).to_inline_sql(),
        "SELECT * FROM jedi FULL JOIN sith ON jedi.name = sith.name;"
    );
    assert_eq!(
        base.left_join(&s, same_name()).to_inline_sql(),
        "SELECT * FROM jedi LEFT JOIN sith ON jedi.name = sith.name;"
    );
    assert_eq!(
        base.right_join(&s, same_name()).to_inline_sql(),
        "SELECT * FROM jedi RIGHT JOIN sith ON jedi.name = sith.name;"
    );
}

#[test]
fn joins_without_a_condition() {
    let base = jedi().select_all();
    let s = sith();
    assert_eq!(
        base.natural_join(&s).to_inline_sql(),
        "SELECT * FROM jedi NATURAL JOIN sith;"
    );
    assert_eq!(
        base.natural_left_join(&s).to_inline_sql(),
        "SELECT * FROM jedi NATURAL LEFT JOIN sith;"
    );
    assert_eq!(
        base.natural_right_join(&s).to_inline_sql(),
        "SELECT * FROM jedi NATURAL RIGHT JOIN sith;"
    );
    assert_eq!(
        base.natural_full_join(&s).to_inline_sql(),
        "SELECT * FROM jedi NATURAL FULL JOIN sith;"
    );
    assert_eq!(base.cross_join(&s).to_inline_sql(), "SELECT * FROM jedi CROSS JOIN sith;");
}

#[test]
fn clauses_stand_in_order() {
    let s = sith().alias("s");
    let query = jedi()
        .select_2(&name(), &age())
        .offset(5)
        .order_by(&age())
        .where_(age().is(30i32))
        .left_join(&s, same_name())
        .cross_join(&sith())
        .limit(2);
    let sql = query.to_final_sql();
    assert_eq!(
        sql.text,
        "SELECT name, age FROM jedi LEFT JOIN sith AS s ON jedi.name = sith.name \
         CROSS JOIN sith WHERE age = $1 ORDER BY age ASC LIMIT 2 OFFSET 5;"
    );
    assert_eq!(sql.params, vec![Value::I32(30)]);
}

#[test]
fn a_select_under_an_alias_is_a_relation() {
    let inner = jedi().select_1(&name()).where_(age().is(30i32)).alias("old".to_string());
    assert_eq!(inner.alias, "old");
    let old_name: StringField = NamedField::new_qual("name", "jedi", "old");
    let query = inner.select_1(&old_name).where_(old_name.is("Yoda".to_string()));
    let sql = query.to_final_sql();
    assert_eq!(
        sql.text,
        "SELECT old.name FROM (SELECT name FROM jedi WHERE age = $1) AS old \
         WHERE old.name = $2;"
    );
    assert_eq!(sql.params, vec![Value::I32(30), Value::Str("Yoda".to_string())]);
    let joined = sith().select_all().inner_join(&inner, same_name());
    assert_eq!(
        joined.to_inline_sql(),
        "SELECT * FROM sith INNER JOIN (SELECT name FROM jedi WHERE age = 30) AS old \
         ON jedi.name = sith.name;"
    );
}

#[test]
fn a_shared_table_is_a_relation() {
    let shared = jedi().alias("j").upcast_table();
    assert_eq!(shared.get_table_name(), "jedi");
    assert_eq!(shared.get_table_alias(), &Some("j".to_string()));
    assert_eq!(jedi().get_table_alias(), &None);
    assert_eq!(shared.select_all().to_inline_sql(), "SELECT * FROM jedi AS j;");
}

#[test]
fn a_select_is_forgotten_into_a_statement() {
    let query = jedi().select_1(&name()).first();
    let text = query.to_sql_fragment().text;
    let statement = query.upcast();
    assert_eq!(statement.to_sql_fragment().text, text);
    assert_eq!(text, "SELECT name FROM jedi LIMIT 1");
}

#[test]
fn a_join_has_a_condition_where_its_kind_takes_one() {
    let inner = deuterium::Join::inner_join(sith().upcast_from(), same_name());
    assert_eq!(inner.join_type(), deuterium::JoinType::InnerJoin);
    assert!(inner.on().is_some());
    assert_eq!(inner.from().to_sql_fragment().text, "sith");
    let cross = deuterium::Join::cross_join(sith().upcast_from());
    assert_eq!(cross.join_type(), deuterium::JoinType::CrossJoin);
    assert!(cross.on().is_none());
    assert_eq!(cross.clone().to_sql_fragment().text, " CROSS JOIN sith");
    assert_eq!(deuterium::JoinType::NaturalFullJoin.as_sql(), " NATURAL FULL JOIN ");
}
