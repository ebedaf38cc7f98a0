use apollo_core::jsonl::{jsonl_records, JsonlRecord};

fn texts(input: &str) -> Vec<(usize, String)> {
    let bytes = input.as_bytes();
    jsonl_records(bytes)
        .into_iter()
        .map(|record| (record.line_number, String::from_utf8(bytes[record.start..record.end].to_vec()).unwrap()))
        .collect()
}

#[test]
fn records_skip_blank_lines_and_keep_line_numbers() {
    assert_eq!(
        texts("{\"a\":1}\n\n   \t\n{\"b\":2}\n"),
        vec![(1, "{\"a\":1}".to_string()), (4, "{\"b\":2}".to_string())]
    );
}

#[test]
fn records_drop_carriage_return_before_newline_only() {
    assert_eq!(texts("x\r\ny\r"), vec![(1, "x".to_string()), (2, "y\r".to_string())]);
    assert_eq!(jsonl_records(b"ab\r\n"), vec![JsonlRecord { line_number: 1, start: 0, end: 2 }]);
}

#[test]
fn unicode_white_space_lines_are_blank() {
    assert_eq!(texts("\u{a0}\u{3000}\u{2009}\n\u{85}\n{}\n"), vec![(3, "{}".to_string())]);
    assert_eq!(texts("\u{2009}x"), vec![(1, "\u{2009}x".to_string())]);
}

#[test]
fn empty_and_blank_files_have_no_records() {
    assert!(jsonl_records(b"").is_empty());
    assert!(jsonl_records(b"\n\n \r\n").is_empty());
}

#[test]
fn final_line_without_newline_is_a_record() {
    assert_eq!(texts("{}\n[1]"), vec![(1, "{}".to_string()), (2, "[1]".to_string())]);
}

#[test]
fn invalid_utf8_lines_are_records() {
    assert_eq!(jsonl_records(b"\xff\n"), vec![JsonlRecord { line_number: 1, start: 0, end: 1 }]);
}
