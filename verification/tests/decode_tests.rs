use rg_bridge::decode::decode_line;
use rg_bridge::schema::{parse_record, RawRecord};
use rg_bridge::text::TextOrBytes;

const END_LINE: &str = r#"{"type":"end","data":{"path":{"text":"src/main.rs"},"binary_offset":null,"stats":{"elapsed":{"secs":0,"nanos":36296,"human":"0.000036s"},"searches":1,"searches_with_match":1,"bytes_searched":367,"bytes_printed":1151,"matched_lines":2,"matches":2}}}"#;

#[test]
fn match_line_decodes_to_display_match() {
    let line = r#"{"type":"match","data":{"path":{"text":"src/main.rs"},"lines":{"text":"fn main() {\n"},"line_number":3,"absolute_offset":28,"submatches":[{"match":{"text":"main"},"start":3,"end":7}]}}"#;
    let m = decode_line(line).expect("a match record decodes");
    assert_eq!(m.path, "src/main.rs");
    assert_eq!(m.line_number, 3);
    assert_eq!(m.line_text, "fn main() {");
}

#[test]
fn trailing_line_ending_is_stripped() {
    let line = r#"{"type":"match","data":{"path":{"text":"a"},"lines":{"text":"x\r\n"},"line_number":1,"absolute_offset":0,"submatches":[]}}"#;
    let m = decode_line(line).unwrap();
    assert_eq!(m.line_text, "x");
    let line2 = r#"{"type":"match","data":{"path":{"text":"a"},"lines":{"text":"x \t\n"},"line_number":1,"absolute_offset":0,"submatches":[]}}"#;
    assert_eq!(decode_line(line2).unwrap().line_text, "x");
}

#[test]
fn missing_line_number_defaults_to_zero() {
    let line = r#"{"type":"match","data":{"path":{"text":"a"},"lines":{"text":"x"},"absolute_offset":0,"submatches":[]}}"#;
    assert_eq!(decode_line(line).unwrap().line_number, 0);
    let null_line = r#"{"type":"match","data":{"path":{"text":"a"},"lines":{"text":"x"},"line_number":null,"absolute_offset":0,"submatches":[]}}"#;
    assert_eq!(decode_line(null_line).unwrap().line_number, 0);
}

#[test]
fn bytes_fields_are_converted_lossily() {
    let line = r#"{"type":"match","data":{"path":{"bytes":[104,105]},"lines":{"bytes":[255,104]},"line_number":2,"absolute_offset":0,"submatches":[]}}"#;
    let m = decode_line(line).unwrap();
    assert_eq!(m.path, "hi");
    assert_eq!(m.line_text, "\u{fffd}h");
}

#[test]
fn string_escapes_are_decoded() {
    let line = r#"{"type":"match","data":{"path":{"text":"a\/b"},"lines":{"text":"say \"hi\"\tA 😀"},"line_number":1,"absolute_offset":0,"submatches":[]}}"#;
    let m = decode_line(line).unwrap();
    assert_eq!(m.path, "a/b");
    assert_eq!(m.line_text, "say \"hi\"\tA \u{1f600}");
}

#[test]
fn key_order_does_not_matter() {
    let line = r#"{"data":{"submatches":[],"absolute_offset":5,"lines":{"text":"y"},"line_number":9,"path":{"text":"p"}},"type":"match"}"#;
    let m = decode_line(line).unwrap();
    assert_eq!(m.path, "p");
    assert_eq!(m.line_number, 9);
    assert_eq!(m.line_text, "y");
}

#[test]
fn non_match_records_yield_no_event() {
    let begin = r#"{"type":"begin","data":{"path":{"text":"src/main.rs"}}}"#;
    assert!(decode_line(begin).is_none());
    assert!(decode_line(END_LINE).is_none());
    let context = r#"{"type":"context","data":{"path":{"text":"a"},"lines":{"text":"x"},"line_number":4,"absolute_offset":9,"submatches":[]}}"#;
    assert!(decode_line(context).is_none());
    let summary = r#"{"data":{"elapsed_total":{"human":"0.099726s","nanos":99726344,"secs":0},"stats":{"elapsed":{"secs":0,"nanos":36296,"human":"0.000036s"},"searches":1,"searches_with_match":1,"bytes_searched":367,"bytes_printed":1151,"matched_lines":2,"matches":2}},"type":"summary"}"#;
    assert!(decode_line(summary).is_none());
}

#[test]
fn non_match_records_still_parse_fully() {
    match parse_record(&END_LINE.as_bytes().to_vec()) {
        Some(RawRecord::End(e)) => {
            assert_eq!(e.binary_offset, None);
            assert_eq!(e.stats.matches, 2);
            assert_eq!(e.stats.bytes_searched, 367);
            assert_eq!(e.stats.elapsed.nanos, 36296);
            assert_eq!(e.stats.elapsed.human, "0.000036s");
            match e.path.unwrap().text_or_bytes {
                TextOrBytes::Text(t) => assert_eq!(t, "src/main.rs"),
                TextOrBytes::Bytes(_) => panic!("path came back as bytes"),
            }
        },
        _ => panic!("end record did not parse"),
    }
    let begin = r#"{"type":"begin","data":{"path":null}}"#;
    match parse_record(&begin.as_bytes().to_vec()) {
        Some(RawRecord::Begin(b)) => assert!(b.path.is_none()),
        _ => panic!("begin record did not parse"),
    }
}

#[test]
fn malformed_lines_yield_no_event() {
    assert!(decode_line("").is_none());
    assert!(decode_line("not json").is_none());
    assert!(decode_line(r#"{"type":"match"}"#).is_none());
    assert!(decode_line(r#"{"type":"mystery","data":{}}"#).is_none());
    assert!(decode_line(r#"{"type":"match","data":{"path":{"text":"a"}}}"#).is_none());
    // truncated
    assert!(decode_line(r#"{"type":"match","data":{"path":{"text":"a"},"lines":"#).is_none());
    // duplicate field
    assert!(decode_line(
        r#"{"type":"match","data":{"path":{"text":"a"},"path":{"text":"b"},"lines":{"text":"x"},"absolute_offset":0,"submatches":[]}}"#,
    )
    .is_none());
    // trailing comma
    assert!(decode_line(r#"{"type":"begin","data":{"path":null,}}"#).is_none());
    // number out of range for u64
    assert!(decode_line(
        r#"{"type":"match","data":{"path":{"text":"a"},"lines":{"text":"x"},"line_number":99999999999999999999999,"absolute_offset":0,"submatches":[]}}"#,
    )
    .is_none());
    // trailing garbage after the record
    assert!(decode_line(r#"{"type":"begin","data":{"path":null}} extra"#).is_none());
    // lone surrogate escape
    assert!(decode_line(
        r#"{"type":"match","data":{"path":{"text":"a"},"lines":{"text":"\ud83d"},"line_number":1,"absolute_offset":0,"submatches":[]}}"#,
    )
    .is_none());
}

#[test]
fn whitespace_between_tokens_is_tolerated() {
    let line = r#" { "type" : "match" , "data" : { "path" : { "text" : "a" } , "lines" : { "text" : "x" } , "line_number" : 5 , "absolute_offset" : 0 , "submatches" : [ ] } } "#;
    let m = decode_line(line).expect("spaced record decodes");
    assert_eq!(m.line_number, 5);
}

#[test]
fn unknown_fields_are_skipped_but_nesting_is_bounded() {
    let shallow = format!(
        r#"{{"type":"match","data":{{"path":{{"text":"a"}},"lines":{{"text":"x"}},"line_number":1,"absolute_offset":0,"submatches":[],"extra":{}{}}}}}"#,
        "[".repeat(50),
        "]".repeat(50)
    );
    assert!(decode_line(&shallow).is_some());
    let deep = format!(
        r#"{{"type":"match","data":{{"path":{{"text":"a"}},"lines":{{"text":"x"}},"line_number":1,"absolute_offset":0,"submatches":[],"extra":{}{}}}}}"#,
        "[".repeat(400),
        "]".repeat(400)
    );
    assert!(decode_line(&deep).is_none());
}

#[test]
fn decoding_twice_gives_equal_values() {
    let line = r#"{"type":"match","data":{"path":{"text":"src/lib.rs"},"lines":{"text":"let x = 1;\n"},"line_number":12,"absolute_offset":100,"submatches":[{"match":{"text":"x"},"start":4,"end":5}]}}"#;
    let a = decode_line(line).unwrap();
    let b = decode_line(line).unwrap();
    assert_eq!(a, b);
}

#[test]
fn to_string_lossy_converts_both_forms() {
    let t = TextOrBytes::Text(String::from("abc"));
    assert_eq!(t.to_string_lossy(), "abc");
    let b = TextOrBytes::Bytes(vec![97, 98, 0xff]);
    assert_eq!(b.to_string_lossy(), "ab\u{fffd}");
}
