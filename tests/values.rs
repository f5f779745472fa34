use rizz::{and, eq, or, ColumnKind, ColumnSpec, RowData, Row, TableSchema, Value};

fn t() -> TableSchema {
    TableSchema::new(
        "t",
        vec![
            ColumnSpec::new("a", ColumnKind::Integer),
            ColumnSpec::new("b", ColumnKind::Text),
        ],
    )
}

#[test]
fn scalars_round_trip_through_values() {
    let v: Value = 42i64.into();
    assert_eq!(v.as_integer(), Some(42));
    let v: Value = i64::MIN.into();
    assert_eq!(v.as_integer(), Some(i64::MIN));
    let v: Value = "héllo".into();
    assert_eq!(v.as_text(), Some("héllo".to_string()));
    let v: Value = String::from("x").into();
    assert_eq!(v.as_text(), Some("x".to_string()));
    let v: Value = vec![0u8, 255, 7].into();
    assert_eq!(v.as_blob(), Some(vec![0u8, 255, 7]));
    let x: f64 = -1.5e300;
    let v = Value::real_from_bits(x.to_bits());
    assert_eq!(f64::from_bits(v.as_real_bits().unwrap()), x);
    assert_eq!(Value::text("q"), Value::Text("q".into()));
    assert_eq!(v.as_integer(), None);
    assert_eq!(Value::Integer(1).as_text(), None);
}

#[test]
fn value_equality_and_copies() {
    assert_eq!(Value::Blob(vec![1, 2]), Value::Blob(vec![1, 2]));
    assert_ne!(Value::Blob(vec![1, 2]), Value::Blob(vec![1, 3]));
    assert_ne!(Value::Integer(1), Value::Real(1));
    assert_ne!(Value::Lit("a".into()), Value::Text("a".into()));
    let v = Value::Blob(vec![9, 8]);
    assert_eq!(v.duplicate(), v);
    assert!(!Value::Lit("x".into()).is_bindable());
    assert!(Value::Real(0).is_bindable());
}

#[test]
fn equals_has_one_placeholder_and_one_value() {
    let s = t();
    let a = s.integer_column(0);
    let w = eq(&a, "1".into());
    assert_eq!(w.clause(), r#""t"."a" = ?"#);
    assert_eq!(w.clause().matches('?').count(), 1);
    assert_eq!(w.values(), vec![Value::Text("1".into())]);
}

#[test]
fn and_or_wrap_and_concatenate() {
    let s = t();
    let a = s.integer_column(0);
    let b = s.text_column(1);
    let w = and(eq(&a, 1i64.into()), eq(&b, "x".into()));
    assert_eq!(w.clause(), r#"("t"."a" = ? and "t"."b" = ?)"#);
    assert_eq!(w.values(), vec![Value::Integer(1), Value::Text("x".into())]);
    let w = or(w, and(eq(&a, 2i64.into()), or(eq(&b, "y".into()), eq(&a, 3i64.into()))));
    assert_eq!(
        w.clause(),
        r#"(("t"."a" = ? and "t"."b" = ?) or ("t"."a" = ? and ("t"."b" = ? or "t"."a" = ?)))"#
    );
    assert_eq!(
        w.values(),
        vec![
            Value::Integer(1),
            Value::Text("x".into()),
            Value::Integer(2),
            Value::Text("y".into()),
            Value::Integer(3)
        ]
    );
    assert_eq!(w.clause().matches('?').count(), w.values().len());
    let (clause, values) = w.into_parts();
    assert_eq!(clause.matches('?').count(), values.len());
}

#[test]
fn row_fragments_align() {
    let row = RowData::new(
        vec!["a".to_string(), "b".to_string(), "c".to_string()],
        vec![Value::Integer(1), Value::Text("x".into()), Value::Blob(vec![1])],
    )
    .unwrap();
    assert_eq!(row.insert_sql(), r#"("a","b","c") values (?,?,?)"#);
    assert_eq!(row.set_sql(), r#""a" = ?, "b" = ?, "c" = ?"#);
    assert_eq!(
        row.values(),
        vec![Value::Integer(1), Value::Text("x".into()), Value::Blob(vec![1])]
    );
}

#[test]
fn row_rejects_mismatch_and_literals() {
    assert!(RowData::new(vec!["a".to_string()], vec![]).is_none());
    assert!(RowData::new(vec!["a".to_string()], vec![Value::Lit("x".into())]).is_none());
    let empty = RowData::new(vec![], vec![]).unwrap();
    assert_eq!(empty.insert_sql(), "() values ()");
    assert_eq!(empty.set_sql(), "");
}
