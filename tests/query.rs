use rizz::{
    and, count, eq, first_row, or, star, ColumnKind, ColumnSpec, Error, Query, RowData, Table,
    TableSchema, Value,
};

fn accounts() -> TableSchema {
    let mut id = ColumnSpec::new("id", ColumnKind::Integer);
    id.primary_key = true;
    TableSchema::new("accounts", vec![id])
}

fn two_columns() -> TableSchema {
    TableSchema::new(
        "t",
        vec![
            ColumnSpec::new("a", ColumnKind::Integer),
            ColumnSpec::new("b", ColumnKind::Text),
        ],
    )
}

#[test]
fn where_clauses_work() {
    let accounts = accounts();
    let id = accounts.integer_column(0);
    let query = Query::new().select(&star()).from(&accounts).where_(or(
        and(eq(&id, "1".into()), eq(&id, "1".to_owned().into())),
        eq(&id, 1i64.into()),
    ));

    let sql = query.sql();
    let params = query.params();

    assert_eq!(
        sql,
        r#"select * from "accounts" where (("accounts"."id" = ? and "accounts"."id" = ?) or "accounts"."id" = ?)"#
    );
    assert_eq!(
        params,
        vec![
            Value::Text("1".into()),
            Value::Text("1".into()),
            Value::Integer(1)
        ]
    );
}

#[test]
fn select_where_equals_renders_one_placeholder() {
    let accounts = accounts();
    let id = accounts.integer_column(0);
    let q = Query::new().select(&star()).from(&accounts).where_(eq(&id, "1".into()));
    assert_eq!(q.sql(), r#"select * from "accounts" where "accounts"."id" = ?"#);
    assert_eq!(q.params(), vec![Value::Text("1".into())]);

    let q = Query::new().select(&star()).from(&accounts).where_(eq(&id, 1i64.into()));
    assert_eq!(q.sql(), r#"select * from "accounts" where "accounts"."id" = ?"#);
    assert_eq!(q.params(), vec![Value::Integer(1)]);
}

#[test]
fn select_from_where_on_table_t() {
    let t = two_columns();
    let a = t.integer_column(0);
    let q = Query::new().select("*").from(&t).where_(eq(&a, "1".into()));
    assert_eq!(q.sql(), r#"select * from "t" where "t"."a" = ?"#);
    assert_eq!(q.params(), vec![Value::Text("1".into())]);
}

#[test]
fn insert_values_keeps_column_order() {
    let t = two_columns();
    let row = RowData::new(
        vec!["a".to_string(), "b".to_string()],
        vec![Value::Integer(1), Value::Text("x".into())],
    )
    .unwrap();
    let q = Query::new().insert(&t).values(&row);
    assert_eq!(q.sql(), r#"insert into "t" ("a","b") values (?,?)"#);
    assert_eq!(q.params(), vec![Value::Integer(1), Value::Text("x".into())]);
}

#[test]
fn insert_returning_appends_clause() {
    let t = accounts();
    let row = RowData::new(vec!["id".to_string()], vec![Value::Integer(1)]).unwrap();
    let q = Query::new().insert(&t).values(&row).returning(&star());
    assert_eq!(q.sql(), r#"insert into "accounts" ("id") values (?) returning *"#);
}

#[test]
fn update_set_where_orders_params() {
    let t = two_columns();
    let a = t.integer_column(0);
    let row = RowData::new(
        vec!["a".to_string(), "b".to_string()],
        vec![Value::Integer(2), Value::Text("y".into())],
    )
    .unwrap();
    let q = Query::new().update(&t).set(&row).where_(eq(&a, 1i64.into()));
    assert_eq!(q.sql(), r#"update "t" set "a" = ?, "b" = ? where "t"."a" = ?"#);
    assert_eq!(
        q.params(),
        vec![Value::Integer(2), Value::Text("y".into()), Value::Integer(1)]
    );
}

#[test]
fn set_replaces_earlier_params() {
    let t = two_columns();
    let a = t.integer_column(0);
    let row = RowData::new(vec!["a".to_string()], vec![Value::Integer(7)]).unwrap();
    let q = Query::new().update(&t).where_(eq(&a, 1i64.into())).set(&row);
    assert_eq!(q.sql(), r#"update "t" set "a" = ? where "t"."a" = ?"#);
    assert_eq!(q.params(), vec![Value::Integer(7)]);
}

#[test]
fn delete_where_renders() {
    let t = accounts();
    let id = t.integer_column(0);
    let q = Query::new().delete(&t).where_(eq(&id, 2i64.into()));
    assert_eq!(q.sql(), r#"delete from "accounts" where "accounts"."id" = ?"#);
    assert_eq!(q.params(), vec![Value::Integer(2)]);
}

#[test]
fn first_where_wins_but_all_add_params() {
    let t = accounts();
    let id = t.integer_column(0);
    let q = Query::new()
        .select(&star())
        .from(&t)
        .where_(eq(&id, 1i64.into()))
        .where_(eq(&id, 2i64.into()));
    assert_eq!(q.sql(), r#"select * from "accounts" where "accounts"."id" = ?"#);
    assert_eq!(q.params(), vec![Value::Integer(1), Value::Integer(2)]);
}

#[test]
fn clause_order_does_not_depend_on_call_order() {
    let t = accounts();
    let id = t.integer_column(0);
    let a = Query::new().select(&star()).from(&t).where_(eq(&id, 3i64.into()));
    let b = Query::new().where_(eq(&id, 3i64.into())).from(&t).select(&star());
    let c = Query::new().from(&t).where_(eq(&id, 3i64.into())).select(&star());
    assert_eq!(a.sql(), b.sql());
    assert_eq!(a.sql(), c.sql());
    assert_eq!(a.params(), b.params());
    let d = Query::new().limit(5).select(&star()).from(&t);
    assert_eq!(d.sql(), r#"select * from "accounts" limit 5"#);
}

#[test]
fn limit_renders_decimal() {
    assert_eq!(Query::new().limit(0).sql(), "limit 0");
    assert_eq!(Query::new().limit(10).sql(), "limit 10");
    assert_eq!(
        Query::new().limit(u64::MAX).sql(),
        "limit 18446744073709551615"
    );
}

#[test]
fn empty_query_renders_empty() {
    assert_eq!(Query::new().sql(), "");
    assert!(Query::new().params().is_empty());
}

#[test]
fn count_select_list() {
    let t = accounts();
    let id = t.integer_column(0);
    let q = Query::new().select(&count(&id)).from(&t);
    assert_eq!(
        q.sql(),
        r#"select count("accounts"."id") as count from "accounts""#
    );
    assert_eq!(star(), "*");
}

#[test]
fn into_parts_gives_sql_and_params() {
    let t = accounts();
    let id = t.integer_column(0);
    let (sql, params) = Query::new().select("*").from(&t).where_(eq(&id, 9i64.into())).into_parts();
    assert_eq!(sql, r#"select * from "accounts" where "accounts"."id" = ?"#);
    assert_eq!(params, vec![Value::Integer(9)]);
}

#[test]
fn returning_zero_rows_is_insert_error() {
    let r = first_row(Vec::<i64>::new(), "insert into \"t\"");
    match r {
        Err(Error::InsertError(m)) => assert_eq!(m, "failed to insert insert into \"t\""),
        _ => panic!("expected an insert error"),
    }
    let r = first_row(vec![5i64, 6], "x");
    assert!(matches!(r, Ok(5)));
}

#[test]
fn table_fragments() {
    let t = two_columns();
    assert_eq!(t.table_name(), r#""t""#);
    assert_eq!(t.column_names(), r#""a","b""#);
    assert_eq!(t.insert_sql(), r#"insert into "t""#);
    assert_eq!(t.update_sql(), r#"update "t""#);
    assert_eq!(t.delete_sql(), r#"delete from "t""#);
}
