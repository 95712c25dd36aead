use query_server::results::{column_names, is_rectangular, read_rows, row_to_strings, QueryMessage};
use query_server::statements::{staging_statement, rows_statement};
use query_server::timestamp::Timestamp;

fn s(t: &str) -> String {
    t.to_string()
}

#[test]
fn null_cell_renders_as_empty_string() {
    let r = row_to_strings(&vec![Some(s("a")), None, Some(s("NULL"))]);
    assert_eq!(r, vec![s("a"), s(""), s("NULL")]);
    assert_ne!(r[1], "null");
}

#[test]
fn empty_row_renders_empty() {
    assert_eq!(row_to_strings(&vec![]), Vec::<String>::new());
}

#[test]
fn read_rows_keeps_data_rows_in_order() {
    let msgs = vec![
        QueryMessage::RowDescription(vec![s("x")]),
        QueryMessage::Row(vec![Some(s("1"))]),
        QueryMessage::CommandComplete(0),
        QueryMessage::Row(vec![None]),
        QueryMessage::CommandComplete(2),
    ];
    assert_eq!(read_rows(&msgs), vec![vec![s("1")], vec![s("")]]);
    assert_eq!(read_rows(&vec![]), Vec::<Vec<String>>::new());
}

#[test]
fn permuted_rows_give_same_multiset() {
    let a = vec![
        QueryMessage::Row(vec![Some(s("1")), None]),
        QueryMessage::Row(vec![Some(s("2")), Some(s("b"))]),
        QueryMessage::Row(vec![Some(s("1")), None]),
        QueryMessage::CommandComplete(3),
    ];
    let b = vec![
        QueryMessage::RowDescription(vec![s("k"), s("v")]),
        QueryMessage::Row(vec![Some(s("2")), Some(s("b"))]),
        QueryMessage::Row(vec![Some(s("1")), None]),
        QueryMessage::Row(vec![Some(s("1")), None]),
    ];
    let mut ra = read_rows(&a);
    let mut rb = read_rows(&b);
    ra.sort();
    rb.sort();
    assert_eq!(ra, rb);
}

#[test]
fn column_names_in_catalog_order() {
    let msgs = vec![
        QueryMessage::RowDescription(vec![s("attname")]),
        QueryMessage::Row(vec![Some(s("id"))]),
        QueryMessage::Row(vec![Some(s("name"))]),
        QueryMessage::CommandComplete(2),
    ];
    assert_eq!(column_names(&msgs), Some(vec![s("id"), s("name")]));
    assert_eq!(column_names(&vec![]), Some(vec![]));
}

#[test]
fn column_names_reject_missing_name() {
    assert_eq!(column_names(&vec![QueryMessage::Row(vec![None])]), None);
    assert_eq!(column_names(&vec![QueryMessage::Row(vec![])]), None);
}

#[test]
fn rectangular_check() {
    let rows = vec![vec![s("a"), s("b")], vec![s(""), s("")]];
    assert!(is_rectangular(2, &rows));
    assert!(!is_rectangular(1, &rows));
    assert!(is_rectangular(5, &vec![]));
}

#[test]
fn staging_statement_appends_query_verbatim() {
    assert_eq!(
        staging_statement("INSERT INTO t VALUES (1) RETURNING id"),
        "CREATE TEMPORARY TABLE staged_result ON COMMIT DROP AS INSERT INTO t VALUES (1) RETURNING id"
    );
    assert_eq!(rows_statement(), "SELECT * FROM staged_result");
}

#[test]
fn timestamp_renders_rfc3339() {
    let t = Timestamp { secs: 1704067200, nanos: 0 };
    assert_eq!(t.to_rfc3339(), Some(s("2024-01-01T00:00:00+00:00")));
    let u = Timestamp { secs: 0, nanos: 500_000_000 };
    assert_eq!(u.to_rfc3339(), Some(s("1970-01-01T00:00:00.500+00:00")));
    let before = Timestamp { secs: -1, nanos: 0 };
    assert_eq!(before.to_rfc3339(), Some(s("1969-12-31T23:59:59+00:00")));
}

#[test]
fn timestamp_out_of_range_has_no_rendering() {
    assert_eq!(Timestamp { secs: i64::MIN, nanos: 0 }.to_rfc3339(), None);
    assert_eq!(Timestamp { secs: 0, nanos: 2_000_000_000 }.to_rfc3339(), None);
}
