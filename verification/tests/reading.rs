use deidentify::record::Record;
use deidentify::tokenizer::{
    parse_csv_record, parse_csv_table, FieldStatus, RowBuilder, SCRATCH_LEN,
};

fn row(fields: &[&str]) -> Record {
    let mut record = Record::new();
    for field in fields {
        record.push_field(field);
    }
    record
}

#[test]
fn reads_the_fields_of_a_line() {
    assert_eq!(parse_csv_record("a,b,c\n"), Some(row(&["a", "b", "c"])));
    assert_eq!(parse_csv_record("Jane,Q,Doe,30301\r\n"), Some(row(&["Jane", "Q", "Doe", "30301"])));
}

#[test]
fn reads_a_last_field_without_a_line_end() {
    assert_eq!(parse_csv_record("a,b,c"), Some(row(&["a", "b", "c"])));
    assert_eq!(parse_csv_record("a"), Some(row(&["a"])));
    assert_eq!(parse_csv_record("a,"), Some(row(&["a", ""])));
    assert_eq!(parse_csv_record(","), Some(row(&["", ""])));
}

#[test]
fn reads_empty_fields() {
    assert_eq!(parse_csv_record("a,,c\n"), Some(row(&["a", "", "c"])));
    assert_eq!(parse_csv_record(",,\n"), Some(row(&["", "", ""])));
    assert_eq!(parse_csv_record("\"\"\n"), Some(row(&[""])));
}

#[test]
fn text_without_a_row_gives_a_row_without_fields() {
    assert_eq!(parse_csv_record(""), Some(Record::new()));
    assert_eq!(parse_csv_record("\n"), Some(Record::new()));
    assert_eq!(parse_csv_record("\r\n\r\n"), Some(Record::new()));
}

#[test]
fn quoted_field_may_hold_the_delimiter_and_line_ends() {
    assert_eq!(parse_csv_record("\"Doe, Jane\",Q\n"), Some(row(&["Doe, Jane", "Q"])));
    assert_eq!(parse_csv_record("a,\"x\ny\",b\n"), Some(row(&["a", "x\ny", "b"])));
    assert_eq!(parse_csv_record("\"a,b\""), Some(row(&["a,b"])));
}

#[test]
fn doubled_quote_is_one_quote() {
    assert_eq!(parse_csv_record("\"say \"\"hi\"\"\",x\n"), Some(row(&["say \"hi\"", "x"])));
    assert_eq!(parse_csv_record("\"\"\"\"\n"), Some(row(&["\""])));
}

#[test]
fn unterminated_quoted_field_is_still_a_field() {
    assert_eq!(parse_csv_record("a,\"bc"), Some(row(&["a", "bc"])));
    assert_eq!(parse_csv_record("\"a,b\n"), Some(row(&["a,b\n"])));
}

#[test]
fn only_the_first_row_is_read() {
    assert_eq!(parse_csv_record("a,b\nc,d\n"), Some(row(&["a", "b"])));
    assert_eq!(parse_csv_record("\n\na,b\r\nc,d"), Some(row(&["a", "b"])));
}

#[test]
fn field_longer_than_the_buffer_arrives_whole() {
    for len in [SCRATCH_LEN - 1, SCRATCH_LEN, SCRATCH_LEN + 1, 2 * SCRATCH_LEN, 5000] {
        let long = "x".repeat(len);
        let line = format!("a,{},b\n", long);
        assert_eq!(parse_csv_record(&line), Some(row(&["a", &long, "b"])));
        let unterminated = format!("{},{}", long, long);
        assert_eq!(parse_csv_record(&unterminated), Some(row(&[&long, &long])));
        let quoted = format!("\"{},\"\"{}\"\n", long, long);
        let expected = format!("{},\"{}", long, long);
        assert_eq!(parse_csv_record(&quoted), Some(row(&[&expected])));
    }
}

#[test]
fn character_across_the_end_of_the_buffer_is_kept() {
    for shift in 0..4 {
        let mut long = "y".repeat(SCRATCH_LEN - 3 + shift);
        long.push_str("\u{20ac}\u{1f600}\u{00e9}");
        long.push_str(&"z".repeat(SCRATCH_LEN));
        let line = format!("{},end\n", long);
        assert_eq!(parse_csv_record(&line), Some(row(&[&long, "end"])));
    }
}

#[test]
fn text_outside_ascii_is_read() {
    assert_eq!(
        parse_csv_record("Zo\u{00eb},\u{6771}\u{4eac},\u{1f600}\n"),
        Some(row(&["Zo\u{00eb}", "\u{6771}\u{4eac}", "\u{1f600}"]))
    );
}

#[test]
fn bytes_that_are_no_text_make_the_row_fail() {
    assert_eq!(parse_csv_table(b"a,\xff,c\n"), vec![None]);
    assert_eq!(parse_csv_table(b"\xc3"), vec![None]);
    assert_eq!(parse_csv_table(b"ok,\xe2\x82\n"), vec![None]);
    assert_eq!(parse_csv_table(b"\xed\xa0\x80,x\n"), vec![None]);
    assert_eq!(parse_csv_table(b"a,\xc3\xa9,c\n"), vec![Some(row(&["a", "\u{00e9}", "c"]))]);
}

#[test]
fn a_row_that_fails_leaves_the_other_rows_alone() {
    assert_eq!(
        parse_csv_table(b"a,b\n\xff,c\nd,e\n"),
        vec![Some(row(&["a", "b"])), None, Some(row(&["d", "e"]))]
    );
    assert_eq!(parse_csv_table(b"a\n\xff"), vec![Some(row(&["a"])), None]);
    assert_eq!(parse_csv_table(b"\xff,\xfe\nb"), vec![None, Some(row(&["b"]))]);
}

#[test]
fn table_has_one_row_for_each_line() {
    assert_eq!(
        parse_csv_table(b"a,b\nc,d\n"),
        vec![Some(row(&["a", "b"])), Some(row(&["c", "d"]))]
    );
    assert_eq!(
        parse_csv_table(b"a,b\r\nc\r\nd,e,f"),
        vec![Some(row(&["a", "b"])), Some(row(&["c"])), Some(row(&["d", "e", "f"]))]
    );
    assert_eq!(parse_csv_table(b"a\rb\nc"), vec![
        Some(row(&["a"])),
        Some(row(&["b"])),
        Some(row(&["c"]))
    ]);
}

#[test]
fn table_of_a_text_without_rows_is_empty() {
    assert_eq!(parse_csv_table(b""), Vec::new());
    assert_eq!(parse_csv_table(b"\n"), Vec::new());
    assert_eq!(parse_csv_table(b"\r\n\n\r"), Vec::new());
}

#[test]
fn table_skips_empty_lines() {
    assert_eq!(
        parse_csv_table(b"\n\na,b\n\n\nc\n\n"),
        vec![Some(row(&["a", "b"])), Some(row(&["c"]))]
    );
}

#[test]
fn table_keeps_rows_of_different_lengths() {
    assert_eq!(
        parse_csv_table(b"a\n,\nb,c,d\n\"\"\n"),
        vec![
            Some(row(&["a"])),
            Some(row(&["", ""])),
            Some(row(&["b", "c", "d"])),
            Some(row(&[""]))
        ]
    );
}

#[test]
fn table_row_may_span_lines_inside_quotes() {
    assert_eq!(
        parse_csv_table(b"a,\"x\ny\"\nb\n"),
        vec![Some(row(&["a", "x\ny"])), Some(row(&["b"]))]
    );
}

#[test]
fn table_with_long_fields_in_several_rows() {
    let long = "x".repeat(3 * SCRATCH_LEN + 17);
    let text = format!("{},a\nb,{}\n{}", long, long, long);
    assert_eq!(
        parse_csv_table(text.as_bytes()),
        vec![Some(row(&[&long, "a"])), Some(row(&["b", &long])), Some(row(&[&long]))]
    );
}

#[test]
fn byte_order_mark_at_the_start_is_no_field_text() {
    assert_eq!(parse_csv_table(b"\xef\xbb\xbfa,b\n"), vec![Some(row(&["a", "b"]))]);
    assert_eq!(parse_csv_table(b"\xef\xbb\xbf"), Vec::new());
    assert_eq!(parse_csv_record("\u{feff}a,b"), Some(row(&["a", "b"])));
    assert_eq!(
        parse_csv_table(b"a\n\xef\xbb\xbfb\n"),
        vec![Some(row(&["a"])), Some(row(&["\u{feff}b"]))]
    );
}

#[test]
fn record_is_the_first_row_of_the_table() {
    for text in ["", "\n", "a,b", "a,b\n", "a\nb\nc", "\"q,\"\"r\"\"\",s\r\nt", "\u{00e9},\u{20ac}"] {
        let mut rows = parse_csv_table(text.as_bytes());
        let first = if rows.is_empty() { Some(Record::new()) } else { rows.remove(0) };
        assert_eq!(parse_csv_record(text), first);
    }
}

#[test]
fn patient_line_is_read_into_sixteen_fields() {
    let line = "Jane,Q,Doe,jane@x.com,30301,555-1234,1001,2,130,70,20,85,28.1,0.45,91,1\n";
    let record = parse_csv_record(line).unwrap();
    assert_eq!(record.len(), 16);
    assert_eq!(record.get(0), Some("Jane"));
    assert_eq!(record.get(12), Some("28.1"));
    assert_eq!(record.get(15), Some("1"));
}

#[test]
fn builder_without_input_gives_a_row_without_fields() {
    let builder = RowBuilder::new();
    assert!(!builder.is_complete());
    assert_eq!(builder.finish(), Some(Record::new()));
}

#[test]
fn builder_joins_the_parts_of_a_field() {
    let mut builder = RowBuilder::new();
    builder.accept(FieldStatus::OutputFull, b"ab");
    builder.accept(FieldStatus::InputEmpty, b"cd");
    builder.accept(FieldStatus::OutputFull, b"");
    assert!(!builder.is_complete());
    builder.accept(FieldStatus::Field { record_end: false }, b"ef");
    builder.accept(FieldStatus::Field { record_end: true }, b"g");
    assert!(builder.is_complete());
    assert_eq!(builder.finish(), Some(row(&["abcdef", "g"])));
}

#[test]
fn builder_decodes_a_field_as_a_whole() {
    let mut builder = RowBuilder::new();
    builder.accept(FieldStatus::OutputFull, b"\xe2\x82");
    builder.accept(FieldStatus::Field { record_end: true }, b"\xac");
    assert_eq!(builder.finish(), Some(row(&["\u{20ac}"])));
}

#[test]
fn builder_flushes_a_pending_field_at_the_end() {
    let mut builder = RowBuilder::new();
    builder.accept(FieldStatus::Field { record_end: false }, b"a");
    builder.accept(FieldStatus::InputEmpty, b"bc");
    assert_eq!(builder.finish(), Some(row(&["a", "bc"])));

    let mut builder = RowBuilder::new();
    builder.accept(FieldStatus::InputEmpty, b"tail");
    builder.accept(FieldStatus::End, b"");
    assert!(builder.is_complete());
    assert_eq!(builder.finish(), Some(row(&["tail"])));
}

#[test]
fn builder_end_without_pending_bytes_adds_no_field() {
    let mut builder = RowBuilder::new();
    builder.accept(FieldStatus::Field { record_end: false }, b"a");
    builder.accept(FieldStatus::End, b"");
    assert!(builder.is_complete());
    assert_eq!(builder.finish(), Some(row(&["a"])));
}

#[test]
fn builder_takes_nothing_after_the_row_has_ended() {
    let mut builder = RowBuilder::new();
    builder.accept(FieldStatus::Field { record_end: true }, b"a");
    builder.accept(FieldStatus::Field { record_end: false }, b"b");
    builder.accept(FieldStatus::InputEmpty, b"c");
    builder.accept(FieldStatus::Field { record_end: true }, b"\xff");
    builder.accept(FieldStatus::End, b"d");
    assert!(builder.is_complete());
    assert_eq!(builder.finish(), Some(row(&["a"])));
}

#[test]
fn builder_fails_the_row_on_bytes_that_are_no_text() {
    let mut builder = RowBuilder::new();
    builder.accept(FieldStatus::Field { record_end: false }, b"a");
    builder.accept(FieldStatus::Field { record_end: false }, b"\xff");
    builder.accept(FieldStatus::Field { record_end: true }, b"c");
    assert!(builder.is_complete());
    assert_eq!(builder.finish(), None);

    let mut builder = RowBuilder::new();
    builder.accept(FieldStatus::InputEmpty, b"\xc3");
    assert_eq!(builder.finish(), None);
}

#[test]
fn builder_field_may_be_empty() {
    let mut builder = RowBuilder::new();
    builder.accept(FieldStatus::Field { record_end: false }, b"");
    builder.accept(FieldStatus::Field { record_end: true }, b"");
    assert_eq!(builder.finish(), Some(row(&["", ""])));
}

#[test]
fn delimiter_is_the_comma() {
    assert_eq!(deidentify::tokenizer::DELIMITER, b',');
    assert_eq!(parse_csv_record("a;b\tc|d,e"), Some(row(&["a;b\tc|d", "e"])));
}
