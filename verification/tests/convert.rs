use std::io::{Cursor, Write};
use tablify::{join_outputs, render_table, tablify, Sheet, TablifyError, Workbook};

fn sheet(rows: &[&[&str]]) -> Sheet {
    rows.iter().map(|r| r.iter().map(|c| c.to_string()).collect()).collect()
}

fn container(parts: &[(&str, String)]) -> Vec<u8> {
    let mut zip = zip::ZipWriter::new(Cursor::new(Vec::new()));
    let stored = zip::write::FileOptions::default().compression_method(zip::CompressionMethod::Stored);
    for (name, body) in parts {
        zip.start_file(*name, stored).unwrap();
        zip.write_all(body.as_bytes()).unwrap();
    }
    zip.finish().unwrap().into_inner()
}

fn workbook_part(names: &[&str]) -> String {
    let mut xml = String::from("<?xml version=\"1.0\" encoding=\"UTF-8\"?><workbook xmlns=\"http://schemas.openxmlformats.org/spreadsheetml/2006/main\" xmlns:r=\"http://schemas.openxmlformats.org/officeDocument/2006/relationships\"><sheets>");
    for (i, name) in names.iter().enumerate() {
        xml.push_str(&format!("<sheet name=\"{}\" sheetId=\"{}\" r:id=\"rId{}\"/>", name, i + 1, i + 1));
    }
    xml.push_str("</sheets></workbook>");
    xml
}

fn relationships_part(count: usize) -> String {
    let mut xml = String::from("<?xml version=\"1.0\" encoding=\"UTF-8\"?><Relationships xmlns=\"http://schemas.openxmlformats.org/package/2006/relationships\">");
    for i in 0..count {
        xml.push_str(&format!("<Relationship Id=\"rId{}\" Type=\"http://schemas.openxmlformats.org/officeDocument/2006/relationships/worksheet\" Target=\"worksheets/sheet{}.xml\"/>", i + 1, i + 1));
    }
    xml.push_str("</Relationships>");
    xml
}

fn worksheet_part(cells: &str) -> String {
    format!("<?xml version=\"1.0\" encoding=\"UTF-8\"?><worksheet xmlns=\"http://schemas.openxmlformats.org/spreadsheetml/2006/main\"><sheetData>{}</sheetData></worksheet>", cells)
}

fn text_cell(at: &str, text: &str) -> String {
    format!("<c r=\"{}\" t=\"inlineStr\"><is><t>{}</t></is></c>", at, text)
}

fn text_rows(rows: &[&[&str]]) -> String {
    let mut xml = String::new();
    for (r, row) in rows.iter().enumerate() {
        xml.push_str(&format!("<row r=\"{}\">", r + 1));
        for (c, cell) in row.iter().enumerate() {
            let column = (b'A' + c as u8) as char;
            xml.push_str(&text_cell(&format!("{}{}", column, r + 1), cell));
        }
        xml.push_str("</row>");
    }
    xml
}

fn xlsx(sheets: &[(&str, String)]) -> Vec<u8> {
    let names: Vec<&str> = sheets.iter().map(|s| s.0).collect();
    let mut parts: Vec<(String, String)> = vec![
        ("xl/workbook.xml".to_string(), workbook_part(&names)),
        ("xl/_rels/workbook.xml.rels".to_string(), relationships_part(sheets.len())),
    ];
    for (i, s) in sheets.iter().enumerate() {
        parts.push((format!("xl/worksheets/sheet{}.xml", i + 1), worksheet_part(&s.1)));
    }
    let borrowed: Vec<(&str, String)> = parts.iter().map(|p| (p.0.as_str(), p.1.clone())).collect();
    container(&borrowed)
}

fn strings(parts: &[&str]) -> Vec<String> {
    parts.iter().map(|p| p.to_string()).collect()
}

#[test]
fn two_sheets_that_render_a_and_b_join_to_a_newline_b() {
    let wb: Workbook = vec![sheet(&[&["A"]]), sheet(&[&["B"]])];
    assert_eq!(render_table("{{ rows.0.0 }}", wb, false, false).unwrap(), "A\nB");
}

#[test]
fn a_two_sheet_spreadsheet_converts_to_a_newline_b() {
    let bytes = xlsx(&[("one", text_rows(&[&["A"]])), ("two", text_rows(&[&["B"]]))]);
    assert_eq!(tablify("{{ rows.0.0 }}", &bytes, "book.xlsx", false, true).unwrap(), "A\nB");
}

#[test]
fn join_outputs_puts_one_newline_between_neighbours() {
    assert_eq!(join_outputs(&strings(&[])), "");
    assert_eq!(join_outputs(&strings(&["A"])), "A");
    assert_eq!(join_outputs(&strings(&["A", "B"])), "A\nB");
    assert_eq!(join_outputs(&strings(&["A", "B", "C"])), "A\nB\nC");
}

#[test]
fn join_outputs_keeps_empty_parts_and_inner_newlines() {
    assert_eq!(join_outputs(&strings(&[""])), "");
    assert_eq!(join_outputs(&strings(&["", ""])), "\n");
    assert_eq!(join_outputs(&strings(&["", "x", ""])), "\nx\n");
    assert_eq!(join_outputs(&strings(&["a\n", "\nb"])), "a\n\n\nb");
}

#[test]
fn join_outputs_adds_one_character_per_gap() {
    let parts = strings(&["ab", "", "cde", "f"]);
    let total: usize = parts.iter().map(|p| p.chars().count()).sum();
    assert_eq!(join_outputs(&parts).chars().count(), total + parts.len() - 1);
}

#[test]
fn a_workbook_without_sheets_renders_to_nothing() {
    assert_eq!(render_table("{{ rows }}", Workbook::new(), true, true).unwrap(), "");
    assert_eq!(tablify("{{ rows }}", &xlsx(&[]), "none.xlsx", false, true).unwrap(), "");
}

#[test]
fn a_workbook_without_sheets_still_needs_a_template_that_compiles() {
    let out = render_table("{{ rows", Workbook::new(), false, false);
    assert!(matches!(out, Err(TablifyError::TemplateSyntax(_))));
}

#[test]
fn one_sheet_that_fails_to_render_fails_the_whole_conversion() {
    let wb: Workbook = vec![sheet(&[&["a", "b"]]), sheet(&[&["c"]]), sheet(&[&["d", "e"]])];
    let out = render_table("{{ rows.0.1 }}", wb, false, false);
    assert!(matches!(out, Err(TablifyError::TemplateRuntime(_))));
}

#[test]
fn header_mode_applies_to_every_sheet() {
    let wb: Workbook = vec![sheet(&[&["h1"], &["a"], &["b"]]), sheet(&[&["h2"]]), Sheet::new()];
    let out = render_table("{{ headers | join(sep=\"+\") }}:{{ rows | length }}", wb, true, false).unwrap();
    assert_eq!(out, "h1:2\nh2:0\n:0");
}

#[test]
fn the_escaping_flag_reaches_every_sheet() {
    let wb: Workbook = vec![sheet(&[&["<a>"]]), sheet(&[&["b&c"]])];
    assert_eq!(render_table("{{ rows.0.0 }}", wb.clone(), false, true).unwrap(), "&lt;a&gt;\nb&amp;c");
    assert_eq!(render_table("{{ rows.0.0 }}", wb, false, false).unwrap(), "<a>\nb&c");
}

#[test]
fn escaping_toggle_end_to_end() {
    let bytes = b"<b>,a&b\n".to_vec();
    let template = "{{ rows.0.0 }} {{ rows.0.1 }}";
    assert_eq!(tablify(template, &bytes, "in.csv", false, true).unwrap(), "&lt;b&gt; a&amp;b");
    assert_eq!(tablify(template, &bytes, "in.csv", false, false).unwrap(), "<b> a&b");
}

#[test]
fn delimited_text_and_spreadsheet_with_the_same_cells_convert_alike() {
    let template = "{% for row in rows %}{{ row | join(sep=\"/\") }};{% endfor %}";
    let csv = b"a,b\nc,d\n".to_vec();
    let book = xlsx(&[("S", text_rows(&[&["a", "b"], &["c", "d"]]))]);
    let from_csv = tablify(template, &csv, "t.csv", false, false).unwrap();
    let from_xlsx = tablify(template, &book, "t.xlsx", false, false).unwrap();
    assert_eq!(from_csv, "a/b;c/d;");
    assert_eq!(from_xlsx, from_csv);
}

#[test]
fn the_name_decides_the_format_not_the_bytes() {
    let csv = b"a,b\n".to_vec();
    assert!(matches!(tablify("{{ rows }}", &csv, "t.xlsx", false, true), Err(TablifyError::Parse(_))));
    let book = xlsx(&[("S", text_rows(&[&["a"]]))]);
    assert!(!matches!(tablify("x", &book, "t.csv", false, true), Err(TablifyError::Format(_))));
}

#[test]
fn a_load_failure_comes_before_a_template_failure() {
    let out = tablify("{{ rows", &b"a,b\nc\n".to_vec(), "t.csv", false, true);
    assert!(matches!(out, Err(TablifyError::Parse(_))));
    let out = tablify("{{ rows", &b"a,b\nc,d\n".to_vec(), "t.csv", false, true);
    assert!(matches!(out, Err(TablifyError::TemplateSyntax(_))));
}

#[test]
fn a_render_failure_leaves_no_output() {
    let bytes = xlsx(&[("wide", text_rows(&[&["a", "b"]])), ("narrow", text_rows(&[&["c"]]))]);
    let out = tablify("{{ rows.0.1 }}", &bytes, "t.xlsx", false, true);
    assert!(matches!(out, Err(TablifyError::TemplateRuntime(_))));
}

#[test]
fn header_mode_end_to_end() {
    let bytes = b"name,age\ntaro,20\nhanako,31\n".to_vec();
    let template = "<tr>{% for h in headers %}<th>{{ h }}</th>{% endfor %}</tr>{% for row in rows %}<tr>{% for cell in row %}<td>{{ cell }}</td>{% endfor %}</tr>{% endfor %}";
    let out = tablify(template, &bytes, "people.csv", true, true).unwrap();
    assert_eq!(
        out,
        "<tr><th>name</th><th>age</th></tr><tr><td>taro</td><td>20</td></tr><tr><td>hanako</td><td>31</td></tr>"
    );
}

#[test]
fn empty_delimited_text_in_header_mode_converts() {
    let out = tablify("{{ headers | length }}-{{ rows | length }}", &Vec::new(), "e.csv", true, true).unwrap();
    assert_eq!(out, "0-0");
}

#[test]
fn every_error_variant_gives_its_cause_back() {
    assert_eq!(TablifyError::Format("f".to_string()).message(), "f");
    assert_eq!(TablifyError::Decode("d".to_string()).message(), "d");
    assert_eq!(TablifyError::Parse("p".to_string()).message(), "p");
    assert_eq!(TablifyError::TemplateSyntax("s".to_string()).message(), "s");
    assert_eq!(TablifyError::TemplateRuntime("r".to_string()).message(), "r");
}

#[test]
fn the_conversion_is_the_rendering_of_the_loaded_sheets() {
    let template = "{% for row in rows %}{{ row.0 }}{% endfor %}";
    let bytes = b"a,b\nc,d\n".to_vec();
    let loaded = tablify::load_csv(&bytes).unwrap();
    for (has_headers, autoescape) in [(false, false), (false, true), (true, false), (true, true)] {
        let converted = tablify(template, &bytes, "x.csv", has_headers, autoescape).unwrap();
        let rendered = render_table(template, vec![loaded.clone()], has_headers, autoescape).unwrap();
        assert_eq!(converted, rendered);
    }
    assert_eq!(tablify(template, &bytes, "x.csv", false, false).unwrap(), "ac");
    assert_eq!(tablify(template, &bytes, "x.csv", true, false).unwrap(), "c");
}

#[test]
fn the_failure_of_a_later_sheet_is_the_cause_and_nothing_else_comes_back() {
    let wb: Workbook = vec![sheet(&[&["a"]]), Sheet::new(), sheet(&[&["c"]])];
    let alone = render_table("{{ rows.0.0 }}", vec![Sheet::new()], false, false).unwrap_err();
    let err = render_table("{{ rows.0.0 }}", wb, false, false).unwrap_err();
    assert!(matches!(err, TablifyError::TemplateRuntime(_)));
    assert_eq!(err.message(), alone.message());
}

#[test]
fn empty_delimited_text_in_header_mode_renders_no_rows() {
    let out = tablify("{{ rows | length }}", &Vec::new(), "e.csv", true, false).unwrap();
    assert_eq!(out, "0");
}
