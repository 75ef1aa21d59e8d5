//! Header lines and key-value rows.

use navop_workbench::headers::{kv_text, parse_headers};
use navop_workbench::http::{FieldType, KeyValue};

fn pairs(rows: &[KeyValue]) -> Vec<(&str, &str)> {
    rows.iter().map(|row| (row.key.as_str(), row.value.as_str())).collect()
}

#[test]
fn headers_are_read_line_by_line() {
    let rows = parse_headers("  Accept : */*  \r\n\r\n\t\nX-Time: 10:30:00\nEmpty:\n").unwrap();
    assert_eq!(pairs(&rows), [("Accept", "*/*"), ("X-Time", "10:30:00"), ("Empty", "")]);
    for row in &rows {
        assert!(row.enabled);
        assert_eq!(row.field_type, FieldType::Text);
        assert_eq!(row.file_path, None);
    }
}

#[test]
fn a_text_without_headers_has_no_rows() {
    assert!(parse_headers("").unwrap().is_empty());
    assert!(parse_headers(" \r\n \n").unwrap().is_empty());
}

#[test]
fn a_key_may_be_empty() {
    let rows = parse_headers(": value\n:").unwrap();
    assert_eq!(pairs(&rows), [("", "value"), ("", "")]);
}

#[test]
fn the_first_line_without_a_colon_is_reported() {
    assert_eq!(parse_headers("A: 1\n  no colon \r\nalso none").unwrap_err(), "no colon");
    assert_eq!(parse_headers("x").unwrap_err(), "x");
}

#[test]
fn rows_without_a_key_are_not_written() {
    let rows = [
        KeyValue::new(" A ", " 1 "),
        KeyValue::new("  ", "lost"),
        KeyValue { enabled: false, ..KeyValue::new("B", "") },
    ];
    assert_eq!(kv_text(&rows), "A: 1\nB: ");
    assert_eq!(kv_text(&[]), "");
    assert_eq!(kv_text(&[KeyValue::new("", "lost")]), "");
}

#[test]
fn what_was_written_reads_back() {
    let rows = [
        KeyValue::new("Accept", "text/html; q=0.8"),
        KeyValue::new("\t", "lost"),
        KeyValue { enabled: false, ..KeyValue::new(" X-Url", "https://a.b:8080/ ") },
    ];
    let read = parse_headers(&kv_text(&rows)).unwrap();
    assert_eq!(pairs(&read), [("Accept", "text/html; q=0.8"), ("X-Url", "https://a.b:8080/")]);
    assert!(read.iter().all(|row| row.enabled));
}
