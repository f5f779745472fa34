use rizz::{ColumnKind, ColumnSpec, TableSchema, ToColumn};

fn t() -> TableSchema {
    let mut a = ColumnSpec::new("a", ColumnKind::Integer);
    a.primary_key = true;
    let mut b = ColumnSpec::new("b", ColumnKind::Text);
    b.unique = true;
    b.not_null = true;
    b.default_value = Some("'none'".to_string());
    b.references = Some("other(id)".to_string());
    TableSchema::new("t", vec![a, b, ColumnSpec::new("c", ColumnKind::Real)])
}

#[test]
fn column_definitions() {
    let s = t();
    assert_eq!(s.columns[0].definition(), "a integer primary key");
    assert_eq!(
        s.columns[1].definition(),
        "b text unique not null default ('none') references other(id)"
    );
    assert_eq!(s.columns[2].definition(), "c real");
    assert_eq!(ColumnSpec::new("d", ColumnKind::Blob).definition(), "d blob");
}

#[test]
fn create_table_joins_definitions() {
    assert_eq!(
        t().create_table_sql(),
        r#"create table if not exists "t" (a integer primary key,b text unique not null default ('none') references other(id),c real);"#
    );
    let empty = TableSchema::new("e", vec![]);
    assert_eq!(empty.create_table_sql(), r#"create table if not exists "e" ();"#);
}

#[test]
fn create_and_drop_index_share_name() {
    let s = t();
    let create = s.create_index_sql(true, vec!["t.a", "t.b"]);
    let drop = s.drop_index_sql(vec!["t.a", "t.b"]);
    assert_eq!(create, "create unique index t_a_b on t (a,b);");
    assert_eq!(drop, "drop index t_a_b;");
    let a = s.qualified_column(0);
    let c = s.qualified_column(2);
    assert_eq!(a, r#""t"."a""#);
    assert_eq!(
        s.create_index_sql(false, vec![a.as_str(), c.as_str()]),
        "create index t_a_c on t (a,c);"
    );
    assert_eq!(s.drop_index_sql(vec![a.as_str(), c.as_str()]), "drop index t_a_c;");
}

#[test]
fn add_column_finds_definition() {
    let s = t();
    assert_eq!(
        s.add_column_sql(r#""t"."b""#),
        Some(
            r#"alter table "t" add column b text unique not null default ('none') references other(id);"#
                .to_string()
        )
    );
    assert_eq!(
        s.add_column_sql("t.c"),
        Some(r#"alter table "t" add column c real;"#.to_string())
    );
}

#[test]
fn add_column_absent_is_none() {
    let s = t();
    assert_eq!(s.add_column_sql("t.zz"), None);
    assert_eq!(s.add_column_sql(r#""t"."A""#), None);
}

#[test]
fn column_handles_are_qualified() {
    let s = t();
    assert_eq!(s.integer_column(0).to_column(), r#""t"."a""#);
    assert_eq!(s.text_column(1).to_column(), r#""t"."b""#);
    assert_eq!(s.real_column(2).to_column(), r#""t"."c""#);
    let b = TableSchema::new("u", vec![ColumnSpec::new("data", ColumnKind::Blob)]);
    assert_eq!(b.blob_column(0).to_column(), r#""u"."data""#);
}
