use tygres::{render, Row, Source, SqlError, SqlType, SqlValue};

#[test]
fn absent_optional_field_takes_no_column() {
    let t = Source::new("t");
    let a = t.column("a", SqlType::Int);
    let b = t.column("b", SqlType::Text);
    let r = render(t.select().selecting(a.select().and(b.select_if(false)))).unwrap();
    assert_eq!(r.sql, "SELECT t.a FROM t");
    let row = Row { values: vec![SqlValue::Int(5)] };
    let got = r.getter.get(&row).unwrap();
    assert_eq!(got, vec![Some(SqlValue::Int(5)), None]);
}

#[test]
fn present_optional_field_takes_its_column() {
    let t = Source::new("t");
    let a = t.column("a", SqlType::Int);
    let b = t.column("b", SqlType::Text);
    let r = render(t.select().selecting(a.select_if(true).and(b.select()))).unwrap();
    let row = Row { values: vec![SqlValue::Int(5), SqlValue::Text("z".to_string())] };
    assert_eq!(
        r.getter.get(&row).unwrap(),
        vec![Some(SqlValue::Int(5)), Some(SqlValue::Text("z".to_string()))]
    );
}

#[test]
fn row_of_wrong_shape_is_refused() {
    let t = Source::new("t");
    let a = t.column("a", SqlType::Int);
    let r = render(t.select().selecting(a.select())).unwrap();
    let too_long = Row { values: vec![SqlValue::Int(5), SqlValue::Int(6)] };
    assert_eq!(r.getter.get(&too_long), Err(SqlError::RowMismatch));
    let wrong_type = Row { values: vec![SqlValue::Text("5".to_string())] };
    assert_eq!(r.getter.get(&wrong_type), Err(SqlError::RowMismatch));
    let empty = Row { values: vec![] };
    assert_eq!(r.getter.get(&empty), Err(SqlError::RowMismatch));
    let null = Row { values: vec![SqlValue::Null] };
    assert_eq!(r.getter.get(&null).unwrap(), vec![Some(SqlValue::Null)]);
}
