use tygres::{render, ColWrap, Source, SqlError, SqlType, SqlValue, ValueBuilder};

fn table() -> (Source, ColWrap, ColWrap) {
    let t = Source::new("t");
    let a = t.column("a", SqlType::Int);
    let b = t.column("b", SqlType::Text);
    (t, a, b)
}

#[test]
fn default_values_one_row() {
    let (t, _, _) = table();
    let r = render(t.insert()).unwrap();
    assert_eq!(r.sql, "INSERT INTO t DEFAULT VALUES");
    assert_eq!(r.count, 0);
    assert_eq!(r.setter.push_values(&ValueBuilder::new()).unwrap(), vec![]);
    let (t, _, _) = table();
    assert_eq!(render(t.insert().repeating(1)).unwrap().sql, "INSERT INTO t DEFAULT VALUES");
}

#[test]
fn default_values_other_repeat_counts_fail() {
    let (t, _, _) = table();
    assert_eq!(render(t.insert().repeating(0)).unwrap_err(), SqlError::DefaultValuesRepeat);
    let (t, _, _) = table();
    assert_eq!(render(t.insert().repeating(2)).unwrap_err(), SqlError::DefaultValuesRepeat);
}

#[test]
fn multi_row_insert_three_tuples() {
    let (t, a, b) = table();
    let r = render(t.insert().setting(a.set().and(b.set())).repeating(3)).unwrap();
    assert_eq!(r.sql, "INSERT INTO t (a, b) VALUES ($1, $2), ($3, $4), ($5, $6)");
    assert_eq!(r.count, 6);
    let row = |n: i32| vec![SqlValue::Int(n), SqlValue::Text(n.to_string())];
    let vals = r
        .setter
        .push_values(&ValueBuilder::new().set(vec![row(1), row(2), row(3)]))
        .unwrap();
    assert_eq!(vals.len(), 6);
    assert_eq!(vals[4], SqlValue::Int(3));
    assert_eq!(
        r.setter.push_values(&ValueBuilder::new().set(vec![row(1), row(2)])),
        Err(SqlError::ArgumentMismatch)
    );
    assert_eq!(
        r.setter.push_values(&ValueBuilder::new().set(vec![row(1), row(2), row(3), row(4)])),
        Err(SqlError::ArgumentMismatch)
    );
}

#[test]
fn zero_repeat_fails() {
    let (t, a, _) = table();
    assert_eq!(render(t.insert().setting(a.set()).repeating(0)).unwrap_err(), SqlError::ZeroRepeat);
}

#[test]
fn empty_write_set_fails() {
    let (t, a, _) = table();
    assert_eq!(render(t.insert().setting(a.if_some(None))).unwrap_err(), SqlError::EmptyColumns);
    let (t, _, _) = table();
    assert_eq!(render(t.update()).unwrap_err(), SqlError::EmptyColumns);
}

#[test]
fn insert_with_fixed_values_conflict_and_returning() {
    let (t, a, b) = table();
    let set = a.clone().taking(SqlValue::Int(7)).and(b.if_some(None)).and(Source::new("t").column("c", SqlType::Bool).set());
    let r = render(
        t.insert().setting(set).conflicting("DO NOTHING").returning(a.select()),
    )
    .unwrap();
    assert_eq!(r.sql, "INSERT INTO t (a, c) VALUES ($1, $2) ON CONFLICT DO NOTHING RETURNING t.a");
    let vals = r
        .setter
        .push_values(&ValueBuilder::new().set(vec![vec![SqlValue::Bool(true)]]))
        .unwrap();
    assert_eq!(vals, vec![SqlValue::Int(7), SqlValue::Bool(true)]);
    assert_eq!(r.getter.fields.len(), 1);
}

#[test]
fn fixed_value_of_wrong_type_fails() {
    let (t, a, _) = table();
    let set = a.taking(SqlValue::Text("x".to_string()));
    assert_eq!(render(t.insert().setting(set)).unwrap_err(), SqlError::InvalidFragment);
}

#[test]
fn update_set_where_returning() {
    let (t, a, b) = table();
    let q = t
        .update()
        .setting(a.clone().set().and(b.clone().if_some(Some(SqlValue::Text("y".to_string())))))
        .filter(a.equality())
        .returning(b.select());
    let r = render(q).unwrap();
    assert_eq!(r.sql, "UPDATE t SET (a, b) = ROW ($1, $2) WHERE a = $3 RETURNING t.b");
    let args = ValueBuilder::new()
        .set(vec![vec![SqlValue::Int(1)]])
        .filter(vec![SqlValue::Int(2)]);
    assert_eq!(
        r.setter.push_values(&args).unwrap(),
        vec![SqlValue::Int(1), SqlValue::Text("y".to_string()), SqlValue::Int(2)]
    );
}

#[test]
fn delete_where_is_null() {
    let (t, a, _) = table();
    let r = render(t.delete().filter(a.is_null())).unwrap();
    assert_eq!(r.sql, "DELETE FROM t WHERE a IS NULL");
    assert_eq!(r.count, 0);
    let (t, a, _) = table();
    assert_eq!(render(t.delete().returning(a.select())).unwrap().sql, "DELETE FROM t RETURNING t.a");
}

#[test]
fn rendered_insert_keeps_row_shape_and_repeat_count() {
    let (t, a, b) = table();
    let r = render(t.insert().setting(a.set().and(b.set())).repeating(4)).unwrap();
    assert_eq!(r.setter.reps, 4);
    assert_eq!(r.setter.values.len(), 2);
    assert!(r.setter.where_clause.is_empty());
}
