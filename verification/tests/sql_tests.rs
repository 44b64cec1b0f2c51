use greptime_bench::loader::data_loader::{gen_create_table_stmt, gen_insert_stmt};

#[test]
fn test_create_table_stmt_with_tag_and_ts() {
    let stmt = gen_create_table_stmt("measurement", &["tag", "ts", "value"]);
    assert_eq!(
        stmt,
        "CREATE TABLE measurement (tag STRING, ts TIMESTAMP DEFAULT CURRENT_TIMESTAMP() \
         TIME INDEX, value STRING, PRIMARY KEY (tag));"
    );
}

#[test]
fn test_create_table_stmt_without_tag() {
    // Without a tag column the primary-key slot stays, empty, after the
    // final separator.
    let stmt = gen_create_table_stmt("t", &["a", "b"]);
    assert_eq!(stmt, "CREATE TABLE t (a STRING, b STRING, );");
}

#[test]
fn test_insert_stmt_single_row() {
    let data = vec![vec!["1".to_string(), "x".to_string()]];
    let stmt = gen_insert_stmt("m", &["a", "b"], &data);
    assert_eq!(stmt, "INSERT INTO m(a,b) VALUES ('1','x');");
}

#[test]
fn test_insert_stmt_escapes_quotes_and_joins_rows() {
    let data = vec![
        vec!["it's".to_string(), "1".to_string()],
        vec!["plain".to_string(), "2".to_string()],
    ];
    let stmt = gen_insert_stmt("m", &["v", "n"], &data);
    assert_eq!(
        stmt,
        "INSERT INTO m(v,n) VALUES ('it''s','1'), ('plain','2');"
    );
}
