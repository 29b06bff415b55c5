use tygres::{
    render, IntoSql, ColWrap, Limiting, Offsetting, Rendered, Source, SqlError, SqlType, SqlValue,
    ValueBuilder,
};

fn table() -> (Source, ColWrap, ColWrap, ColWrap) {
    let t = Source::new("t");
    let a = t.column("a", SqlType::Int);
    let b = t.column("b", SqlType::Text);
    let c = t.column("c", SqlType::BigInt);
    (t, a, b, c)
}

fn sql_of(r: Result<Rendered, SqlError>) -> String {
    r.unwrap().sql
}

#[test]
fn plain_select_has_no_trailing_text() {
    let (t, a, b, _) = table();
    let r = render(t.select().selecting(a.select().and(b.select()))).unwrap();
    assert_eq!(r.sql, "SELECT t.a, t.b FROM t");
    assert_eq!(r.count, 0);
}

#[test]
fn select_with_every_modifier() {
    let (t, a, b, _) = table();
    let q = t
        .select()
        .selecting(a.clone().select())
        .filter(a.equality())
        .ordering(b.asc())
        .limiting(Limiting::Placeholder)
        .offsetting(Offsetting::Fixed(10))
        .suffixing(" FOR UPDATE");
    let r = render(q).unwrap();
    assert_eq!(r.sql, "SELECT t.a FROM t WHERE a = $1 ORDER BY b ASC LIMIT $2 OFFSET 10 FOR UPDATE");
    assert_eq!(r.count, 2);
}

#[test]
fn fixed_limit_and_placeholder_offset() {
    let (t, a, b, c) = table();
    let q = t
        .select()
        .selecting(a.select())
        .ordering(b.desc().then(c.asc()))
        .limiting(Limiting::Fixed(1234567))
        .offsetting(Offsetting::Placeholder);
    let r = render(q).unwrap();
    assert_eq!(r.sql, "SELECT t.a FROM t ORDER BY b DESC, c ASC LIMIT 1234567 OFFSET $1");
    let vals = r.setter.push_values(&ValueBuilder::new().offset(5)).unwrap();
    assert_eq!(vals, vec![SqlValue::BigInt(5)]);
    assert_eq!(
        r.setter.push_values(&ValueBuilder::new()),
        Err(SqlError::ArgumentMismatch)
    );
    assert_eq!(
        r.setter.push_values(&ValueBuilder::new().offset(5).limit(3)),
        Err(SqlError::ArgumentMismatch)
    );
}

#[test]
fn optional_selection_leaves_no_stray_comma() {
    let (t, a, b, c) = table();
    let sel = a.select_if(false).and(b.select()).and(c.select_if(false));
    assert_eq!(sql_of(render(t.select().selecting(sel))), "SELECT t.b FROM t");
    let (t, a, b, c) = table();
    let sel = a.select_if(true).and(b.select_if(false)).and(c.select_if(true));
    assert_eq!(sql_of(render(t.select().selecting(sel))), "SELECT t.a, t.c FROM t");
}

#[test]
fn select_without_selection_is_refused() {
    let (t, _, _, _) = table();
    assert_eq!(render(t.select()).unwrap_err(), SqlError::MissingSelection);
}

#[test]
fn column_of_another_table_is_refused() {
    let (t, a, _, _) = table();
    let u = Source::new("u");
    let x = u.column("x", SqlType::Int);
    let q = t.select().selecting(a.select()).filter(x.equality());
    assert_eq!(render(q).unwrap_err(), SqlError::InvalidFragment);
    let (t, _, _, _) = table();
    let u = Source::new("u");
    let x = u.column("x", SqlType::Int);
    assert_eq!(render(t.select().selecting(x.select())).unwrap_err(), SqlError::InvalidFragment);
}

#[test]
fn and_or_nesting_numbers_continuously() {
    let (t, a, b, c) = table();
    let cl = a.clone().equality().and(b.equality()).or(c.equality());
    let r = render(t.select().selecting(a.select()).filter(cl)).unwrap();
    assert_eq!(r.sql, "SELECT t.a FROM t WHERE ((a = $1) AND (b = $2)) OR (c = $3)");
    assert_eq!(r.count, 3);
    let args = ValueBuilder::new().filter(vec![
        SqlValue::Int(1),
        SqlValue::Text("x".to_string()),
        SqlValue::BigInt(3),
    ]);
    let vals = r.setter.push_values(&args).unwrap();
    assert_eq!(
        vals,
        vec![SqlValue::Int(1), SqlValue::Text("x".to_string()), SqlValue::BigInt(3)]
    );
}

#[test]
fn filter_placeholders_follow_parameter_shape() {
    let (t, a, b, c) = table();
    let cl = a.clone().is_null().not().and(b.equality().or(c.clone().equality())).and(c.equality());
    let r = render(t.select().selecting(a.select()).filter(cl)).unwrap();
    assert_eq!(
        r.sql,
        "SELECT t.a FROM t WHERE ((NOT (a IS NULL)) AND ((b = $1) OR (c = $2))) AND (c = $3)"
    );
    let wrong_type = ValueBuilder::new().filter(vec![
        SqlValue::Int(1),
        SqlValue::BigInt(2),
        SqlValue::BigInt(3),
    ]);
    assert_eq!(r.setter.push_values(&wrong_type), Err(SqlError::ArgumentMismatch));
    let too_few = ValueBuilder::new().filter(vec![SqlValue::Text("x".to_string())]);
    assert_eq!(r.setter.push_values(&too_few), Err(SqlError::ArgumentMismatch));
    let with_null = ValueBuilder::new().filter(vec![
        SqlValue::Null,
        SqlValue::BigInt(2),
        SqlValue::BigInt(3),
    ]);
    assert_eq!(r.setter.push_values(&with_null).unwrap().len(), 3);
}

#[test]
fn placeholders_past_nine() {
    let (t, a, _, _) = table();
    let mut cl = a.clone().equality();
    for _ in 0..10 {
        cl = cl.and(a.clone().equality());
    }
    let r = render(t.select().selecting(a.select()).filter(cl)).unwrap();
    assert_eq!(r.count, 11);
    assert!(r.sql.ends_with("(a = $10)) AND (a = $11)"));
}

#[test]
fn sub_query_continues_outer_numbering() {
    let (t, a, b, _) = table();
    let u = Source::new("u");
    let ub = u.column("b", SqlType::Text);
    let uc = u.column("c", SqlType::Int);
    let sub = u.select().selecting(ub.select()).filter(uc.equality());
    let q = t.select().selecting(a.clone().select()).filter(a.equality().and(b.in_query(sub)));
    let r = render(q).unwrap();
    assert_eq!(
        r.sql,
        "SELECT t.a FROM t WHERE (a = $1) AND (b IN ( SELECT u.b FROM u WHERE c = $2 ))"
    );
    assert_eq!(r.count, 2);
}

#[test]
fn sub_query_must_select_one_column_of_the_tested_type() {
    let (t, a, b, _) = table();
    let u = Source::new("u");
    let uc = u.column("c", SqlType::Int);
    let sub = u.select().selecting(uc.select());
    let q = t.select().selecting(a.select()).filter(b.in_query(sub));
    assert_eq!(render(q).unwrap_err(), SqlError::InvalidFragment);
}

#[test]
fn cursor_declaration_and_fetch() {
    let (t, a, b, _) = table();
    let q = t.select().selecting(a.select().and(b.select_if(false))).filter(Source::new("t").column("a", SqlType::Int).equality());
    let (cursor, fetcher) = q.into_cursor("cur").unwrap();
    assert_eq!(cursor.prepared, "DECLARE cur CURSOR FOR SELECT t.a FROM t WHERE a = $1");
    let r = render(cursor).unwrap();
    assert_eq!(r.sql, "DECLARE cur CURSOR FOR SELECT t.a FROM t WHERE a = $1");
    assert_eq!(r.count, 1);
    assert_eq!(r.getter.fields.len(), 0);
    let batch = render(fetcher.fetch(50)).unwrap();
    assert_eq!(batch.sql, "FETCH 50 FROM cur");
    assert_eq!(batch.count, 0);
    assert_eq!(batch.getter.fields.len(), 2);
}

#[test]
fn cursor_is_refused_below_the_top() {
    let (t, a, _, _) = table();
    let (cursor, _) = t.select().selecting(a.select()).into_cursor("cur").unwrap();
    assert_eq!(cursor.check(2), Err(SqlError::NestedCursor));
    assert_eq!(cursor.check(1), Ok(()));
}

#[test]
fn cursor_over_invalid_select_is_refused() {
    let (t, _, _, _) = table();
    assert_eq!(t.select().into_cursor("cur").unwrap_err(), SqlError::MissingSelection);
}

#[test]
fn filter_with_values_given_at_build_time() {
    let (t, a, b, _) = table();
    let cl = a.clone().equality().and(b.equality()).taking(vec![
        SqlValue::Int(4),
        SqlValue::Text("w".to_string()),
    ]);
    let q = t.select().selecting(a.select()).filter(cl).limiting(Limiting::Placeholder);
    let r = render(q).unwrap();
    assert_eq!(r.sql, "SELECT t.a FROM t WHERE (a = $1) AND (b = $2) LIMIT $3");
    assert_eq!(r.count, 3);
    let vals = r.setter.push_values(&ValueBuilder::new().limit(9)).unwrap();
    assert_eq!(
        vals,
        vec![SqlValue::Int(4), SqlValue::Text("w".to_string()), SqlValue::BigInt(9)]
    );
}

#[test]
fn filter_with_values_of_wrong_shape_is_refused() {
    let (t, a, _, _) = table();
    let cl = a.clone().equality().taking(vec![SqlValue::Text("w".to_string())]);
    assert_eq!(render(t.select().selecting(a.select()).filter(cl)).unwrap_err(), SqlError::InvalidFragment);
    let (t, a, _, _) = table();
    let cl = a.clone().equality().taking(vec![]);
    assert_eq!(render(t.select().selecting(a.select()).filter(cl)).unwrap_err(), SqlError::InvalidFragment);
}

#[test]
fn sub_query_limit_is_bound_in_filter_order() {
    let (t, a, b, _) = table();
    let u = Source::new("u");
    let ub = u.column("b", SqlType::Text);
    let sub = u.select().selecting(ub.select()).limiting(Limiting::Placeholder);
    let cl = b.in_query(sub).and(a.clone().equality());
    let r = render(t.select().selecting(a.select()).filter(cl)).unwrap();
    assert_eq!(
        r.sql,
        "SELECT t.a FROM t WHERE (b IN ( SELECT u.b FROM u LIMIT $1 )) AND (a = $2)"
    );
    let args = ValueBuilder::new().filter(vec![SqlValue::BigInt(2), SqlValue::Int(8)]);
    assert_eq!(
        r.setter.push_values(&args).unwrap(),
        vec![SqlValue::BigInt(2), SqlValue::Int(8)]
    );
    let swapped = ValueBuilder::new().filter(vec![SqlValue::Int(8), SqlValue::BigInt(2)]);
    assert_eq!(r.setter.push_values(&swapped), Err(SqlError::ArgumentMismatch));
}

#[test]
fn result_columns_skip_absent_fields() {
    let (t, a, b, c) = table();
    let r = render(t.select().selecting(a.select().and(b.select_if(false)).and(c.select()))).unwrap();
    assert_eq!(r.getter.columns(), vec![SqlType::Int, SqlType::BigInt]);
}

#[test]
fn sub_query_renders_once() {
    let (t, a, b, _) = table();
    let u = Source::new("u");
    let ub = u.column("b", SqlType::Text);
    let uc = u.column("c", SqlType::Int);
    let cl = b.in_query(u.select().selecting(ub.select()).filter(uc.equality()));
    let mut buf = String::new();
    let (bound, next) = cl.push_clause(&mut buf, 1).unwrap();
    assert_eq!(buf, "b IN ( SELECT u.b FROM u WHERE c = $1 )");
    assert_eq!(next, 2);
    let mut slots = Vec::new();
    assert!(bound.push_slots(&mut slots));
    assert_eq!(slots.len(), 1);
    let q = t.select().selecting(a.select()).filter(bound);
    assert_eq!(render(q).unwrap_err(), SqlError::RenderedSubQuery);
}

#[test]
fn shape_of_unrendered_sub_query_is_refused() {
    let (t, a, b, _) = table();
    let u = Source::new("u");
    let ub = u.column("b", SqlType::Text);
    let cl = b.clone().in_query(u.select().selecting(ub.select()));
    let mut slots = Vec::new();
    assert!(!cl.push_slots(&mut slots));
    assert!(slots.is_empty());
    let q = t.select().selecting(a.select()).filter(cl);
    assert_eq!(q.into_types().unwrap_err(), SqlError::UnrenderedSubQuery);
}

#[test]
fn rendered_shape_keeps_its_parts() {
    let (t, a, b, _) = table();
    let q = t
        .select()
        .selecting(a.clone().select())
        .filter(a.equality().and(b.equality()))
        .limiting(Limiting::Placeholder);
    let r = render(q).unwrap();
    assert_eq!(r.setter.where_clause.len(), 2);
    assert!(r.setter.limit);
    assert!(!r.setter.offset);
    assert_eq!(r.setter.reps, 0);
}

#[test]
fn bound_sub_query_is_not_rendered_again() {
    let (_, _, b, _) = table();
    let u = Source::new("u");
    let ub = u.column("b", SqlType::Text);
    let cl = b.in_query(u.select().selecting(ub.select()));
    let mut buf = String::new();
    let (bound, _) = cl.push_clause(&mut buf, 1).unwrap();
    let mut again = String::new();
    assert_eq!(bound.push_clause(&mut again, 1).unwrap_err(), SqlError::RenderedSubQuery);
    assert!(again.is_empty());
}

#[test]
fn placeholder_limit_beyond_bigint_is_refused() {
    let (t, a, _, _) = table();
    let r = render(t.select().selecting(a.select()).limiting(Limiting::Placeholder)).unwrap();
    assert_eq!(
        r.setter.push_values(&ValueBuilder::new().limit(u64::MAX)),
        Err(SqlError::ArgumentMismatch)
    );
    assert_eq!(
        r.setter.push_values(&ValueBuilder::new().limit(i64::MAX as u64)).unwrap(),
        vec![SqlValue::BigInt(i64::MAX)]
    );
}
