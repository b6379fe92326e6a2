use tablify::{bind, Sheet};

fn sheet(rows: &[&[&str]]) -> Sheet {
    rows.iter().map(|r| r.iter().map(|c| c.to_string()).collect()).collect()
}

fn row(cells: &[&str]) -> Vec<String> {
    cells.iter().map(|c| c.to_string()).collect()
}

#[test]
fn header_mode_splits_after_the_first_row() {
    let s = sheet(&[&["name", "age"], &["taro", "20"], &["hanako", "31"]]);
    let ctx = bind(s.clone(), true);
    assert_eq!(ctx.headers, Some(row(&["name", "age"])));
    assert_eq!(ctx.rows, sheet(&[&["taro", "20"], &["hanako", "31"]]));
    assert_eq!(ctx.rows.len(), s.len() - 1);
    assert_eq!(ctx.headers.unwrap(), s[0]);
    assert_eq!(ctx.rows[..], s[1..]);
}

#[test]
fn header_mode_on_a_single_row_leaves_no_body() {
    let ctx = bind(sheet(&[&["only", "headers"]]), true);
    assert_eq!(ctx.headers, Some(row(&["only", "headers"])));
    assert!(ctx.rows.is_empty());
}

#[test]
fn without_header_mode_the_sheet_is_bound_whole() {
    let s = sheet(&[&["name", "age"], &["taro", "20"]]);
    let ctx = bind(s.clone(), false);
    assert_eq!(ctx.headers, None);
    assert_eq!(ctx.rows, s);
}

#[test]
fn empty_sheet_in_header_mode_binds_empty_headers_and_rows() {
    let ctx = bind(Sheet::new(), true);
    assert_eq!(ctx.headers, Some(Vec::new()));
    assert!(ctx.rows.is_empty());
}

#[test]
fn empty_sheet_without_header_mode_binds_empty_rows() {
    let ctx = bind(Sheet::new(), false);
    assert_eq!(ctx.headers, None);
    assert!(ctx.rows.is_empty());
}

#[test]
fn ragged_rows_pass_through() {
    let s = sheet(&[&["a"], &["b", "c", "d"], &[], &["e", "f"]]);
    let with = bind(s.clone(), true);
    assert_eq!(with.headers, Some(row(&["a"])));
    assert_eq!(with.rows, sheet(&[&["b", "c", "d"], &[], &["e", "f"]]));
    let without = bind(s.clone(), false);
    assert_eq!(without.rows, s);
}

#[test]
fn an_empty_first_row_is_still_the_header_row() {
    let ctx = bind(sheet(&[&[], &["x"]]), true);
    assert_eq!(ctx.headers, Some(Vec::new()));
    assert_eq!(ctx.rows, sheet(&[&["x"]]));
}
