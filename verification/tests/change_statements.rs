use deuterium::{
    BoolField, Deletable, DeleteQuery, From, I32Field, NamedField, NoResult, QueryToSql,
    Queryable, StringField, TableDef, ToFieldUpdate, ToInequalityPredicate, ToIsQuery,
    UntypedExpression, Updatable, UpdateQuery, Value,
};

fn jedi() -> TableDef {
    TableDef::new("jedi")
}

fn name() -> StringField {
    NamedField::new("name", "jedi")
}

fn side() -> BoolField {
    NamedField::new("side", "jedi")
}

fn age() -> I32Field {
    NamedField::new("age", "jedi")
}

#[test]
fn delete_new_is_guarded() {
    let query: DeleteQuery<(), NoResult, ()> = DeleteQuery::new(&jedi());
    assert!(!query.only);
    assert!(!query.all);
    assert!(query.using.is_none());
    assert!(query.where_.is_none());
    assert!(query.returning.is_none());
    let sql = query.to_final_sql();
    assert_eq!(sql.text, "DELETE FROM jedi WHERE true = false;");
    assert_eq!(sql.params, vec![]);
}

#[test]
fn delete_all_drops_the_predicate() {
    let query = jedi().delete().where_(name().is("Yoda".to_string())).all();
    assert_eq!(query.to_inline_sql(), "DELETE FROM jedi;");
    assert!(query.where_.is_none());
    assert!(query.all);
    let again = query.where_(name().is("Yoda".to_string()));
    assert_eq!(again.to_inline_sql(), "DELETE FROM jedi WHERE name = 'Yoda';");
}

#[test]
fn delete_of_an_aliased_table() {
    let query = jedi().alias("j").delete().all();
    assert_eq!(query.to_inline_sql(), "DELETE FROM jedi AS j;");
}

#[test]
fn delete_using_several_relations() {
    let sith = TableDef::new("sith");
    let droids = TableDef::new("droids").alias("d");
    let inner = sith.select_all().where_(age().gt(5i32)).alias("s".to_string());
    let query = jedi().delete().using(&sith).using(&droids).using(&inner).all();
    let sql = query.to_final_sql();
    assert_eq!(
        sql.text,
        "DELETE FROM jedi USING sith, droids AS d, (SELECT * FROM sith WHERE age > $1) AS s;"
    );
    assert_eq!(sql.params, vec![Value::I32(5)]);
    assert_eq!(query.using.as_ref().map(|using| using.len()), Some(3));
}

#[test]
fn delete_numbers_its_parameters_across_clauses() {
    let sith = TableDef::new("sith");
    let inner = sith.select_all().where_(age().gt(5i32)).alias("s".to_string());
    let query = jedi()
        .delete()
        .using(&inner)
        .where_(name().is("Yoda".to_string()))
        .returning_1(&name());
    let sql = query.to_final_sql();
    assert_eq!(
        sql.text,
        "DELETE FROM jedi USING (SELECT * FROM sith WHERE age > $1) AS s \
         WHERE name = $2 RETURNING name;"
    );
    assert_eq!(sql.params, vec![Value::I32(5), Value::Str("Yoda".to_string())]);
}

#[test]
fn delete_returning() {
    let base = || jedi().delete().all();
    assert_eq!(
        base().returning_1(&name()).to_inline_sql(),
        "DELETE FROM jedi RETURNING name;"
    );
    assert_eq!(
        base().returning_2(&name(), &side()).to_inline_sql(),
        "DELETE FROM jedi RETURNING name, side;"
    );
    assert_eq!(
        base().returning(&[side().upcast_expression()]).to_inline_sql(),
        "DELETE FROM jedi RETURNING side;"
    );
    assert_eq!(base().returning_all().to_inline_sql(), "DELETE FROM jedi RETURNING *;");
    assert_eq!(base().returning_all().no_returning().to_inline_sql(), "DELETE FROM jedi;");
    assert_eq!(
        base().returning_all().returning_1(&name()).to_inline_sql(),
        "DELETE FROM jedi RETURNING name;"
    );
    let kept = base().only().returning_all();
    assert!(kept.only);
    assert!(kept.all);
}

#[test]
fn delete_set_and_unset_where() {
    let mut query = jedi().delete();
    query.set_where(name().is("a".to_string()));
    assert!(query.get_where().is_some());
    assert_eq!(query.to_inline_sql(), "DELETE FROM jedi WHERE name = 'a';");
    query.unset_where();
    assert_eq!(query.to_inline_sql(), "DELETE FROM jedi WHERE true = false;");
    let either = jedi().delete().or(name().is("a".to_string())).or(name().is("b".to_string()));
    assert_eq!(
        either.to_inline_sql(),
        "DELETE FROM jedi WHERE name = 'a' OR name = 'b';"
    );
    let both = jedi().delete().and(name().is("a".to_string())).and(name().is("b".to_string()));
    assert_eq!(
        both.to_inline_sql(),
        "DELETE FROM jedi WHERE name = 'a' AND name = 'b';"
    );
}

#[test]
fn update_is_guarded() {
    let query: UpdateQuery<(), NoResult, ()> = UpdateQuery::new(&jedi());
    let query = query.field(side().set(&true));
    let sql = query.to_final_sql();
    assert_eq!(sql.text, "UPDATE jedi SET side = $1 WHERE true = false;");
    assert_eq!(sql.params, vec![Value::Bool(true)]);
}

#[test]
fn update_all_rows() {
    let query = jedi().update().field(side().set(&false)).all();
    assert_eq!(query.to_inline_sql(), "UPDATE jedi SET side = false;");
    let query = jedi()
        .update()
        .field(side().set(&false))
        .where_(name().is("x".to_string()))
        .all();
    assert_eq!(query.to_inline_sql(), "UPDATE jedi SET side = false;");
}

#[test]
fn update_with_everything() {
    let query = jedi()
        .update()
        .only()
        .field(name().qual().set(&"Vader".to_string()))
        .field(side().set(&false))
        .field(age().set(&age()))
        .where_(name().is("Anakin".to_string()))
        .returning_2(&name(), &side());
    let sql = query.to_final_sql();
    assert_eq!(
        sql.text,
        "UPDATE ONLY jedi SET name = $1, side = $2, age = age WHERE name = $3 \
         RETURNING name, side;"
    );
    assert_eq!(
        sql.params,
        vec![
            Value::Str("Vader".to_string()),
            Value::Bool(false),
            Value::Str("Anakin".to_string())
        ]
    );
    assert_eq!(
        query.to_inline_sql(),
        "UPDATE ONLY jedi SET name = 'Vader', side = false, age = age \
         WHERE name = 'Anakin' RETURNING name, side;"
    );
}

#[test]
fn update_returning_and_where() {
    let base = || jedi().update().field(side().set(&true)).all();
    assert_eq!(
        base().returning_1(&name()).to_inline_sql(),
        "UPDATE jedi SET side = true RETURNING name;"
    );
    assert_eq!(
        base().returning(&[name().upcast_expression()]).to_inline_sql(),
        "UPDATE jedi SET side = true RETURNING name;"
    );
    assert_eq!(
        base().returning_all().to_inline_sql(),
        "UPDATE jedi SET side = true RETURNING *;"
    );
    assert_eq!(
        base().returning_all().no_returning().to_inline_sql(),
        "UPDATE jedi SET side = true;"
    );
    let mut query = base();
    query.set_where(name().is("a".to_string()));
    assert_eq!(query.to_inline_sql(), "UPDATE jedi SET side = true WHERE name = 'a';");
    let either = query.or(name().is("b".to_string()));
    assert_eq!(
        either.to_inline_sql(),
        "UPDATE jedi SET side = true WHERE name = 'a' OR name = 'b';"
    );
    let both = either.and(name().is("c".to_string()));
    assert_eq!(
        both.to_inline_sql(),
        "UPDATE jedi SET side = true WHERE (name = 'a' OR name = 'b') AND name = 'c';"
    );
    query.unset_where();
    assert!(query.get_where().is_none());
    assert_eq!(query.to_inline_sql(), "UPDATE jedi SET side = true;");
}
