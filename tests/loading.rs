use cluster_info::json::FieldValue;
use cluster_info::record::{get_cluster_info, load_from_text, record_from_fields, ClusterMap, LoadError};
use cluster_info::report::report;
use cluster_info::text::decimal_text;

fn parse_message(r: Result<ClusterMap, LoadError>) -> String {
    match r {
        Err(LoadError::Parse { message }) => message,
        other => panic!("expected a parse failure, got {:?}", other),
    }
}

#[test]
fn loads_two_field_object() {
    let r = load_from_text(r#"{"name": "alpha", "group": 3}"#);
    let c = r.expect("record");
    assert_eq!(c.name, "alpha");
    assert_eq!(c.group, 3);
}

#[test]
fn report_of_alpha_shows_both_fields() {
    let r = load_from_text(r#"{"name": "alpha", "group": 3}"#);
    let t = report(&r);
    assert_eq!(t, r#"ClusterMap { name: "alpha", group: 3 }"#);
    assert!(t.contains("\"alpha\""));
    assert!(t.contains('3'));
}

#[test]
fn round_trip_keeps_name_and_group() {
    let r = load_from_text(r#"{"group": -2147483648, "name": "east zone"}"#);
    let t = report(&r);
    assert!(t.contains("east zone"));
    assert!(t.contains("-2147483648"));
    let c = r.expect("record");
    assert_eq!(c.name, "east zone");
    assert_eq!(c.group, i32::MIN);
}

#[test]
fn extra_fields_are_ignored() {
    let c = load_from_text(r#"{"name": "beta", "group": 7, "zone": [1, 2]}"#).expect("record");
    assert_eq!(c.name, "beta");
    assert_eq!(c.group, 7);
}

#[test]
fn missing_file_reports_read_context() {
    let r = get_cluster_info(Err("No such file or directory (os error 2)".to_string()));
    let t = report(&r);
    assert!(t.contains("failed to read config file"));
    assert_eq!(
        t,
        "failed to read config file\n\nCaused by:\n    No such file or directory (os error 2)"
    );
    match r {
        Err(e) => {
            assert_eq!(e.message(), "failed to read config file");
            assert_eq!(e.cause(), Some("No such file or directory (os error 2)".to_string()));
        }
        Ok(_) => panic!("expected a read failure"),
    }
}

#[test]
fn invalid_json_reports_parser_error() {
    let r = get_cluster_info(Ok("{not valid}".to_string()));
    let t = report(&r);
    assert!(!t.contains("failed to read config file"));
    assert!(t.contains("line 1"));
    match &r {
        Err(e) => assert_eq!(e.cause(), None),
        Ok(_) => panic!("expected a parse failure"),
    }
    let m = parse_message(r);
    assert_eq!(m, t);
}

#[test]
fn missing_group_is_parse_failure() {
    let m = parse_message(load_from_text(r#"{"name": "alpha"}"#));
    assert_eq!(m, "missing field `group`");
}

#[test]
fn missing_name_is_parse_failure() {
    let m = parse_message(load_from_text(r#"{"group": 1}"#));
    assert_eq!(m, "missing field `name`");
}

#[test]
fn string_group_is_parse_failure() {
    let m = parse_message(load_from_text(r#"{"name": "alpha", "group": "x"}"#));
    assert_eq!(m, "invalid type: string, expected i32");
}

#[test]
fn fractional_group_is_parse_failure() {
    let m = parse_message(load_from_text(r#"{"name": "alpha", "group": 1.5}"#));
    assert_eq!(m, "invalid type: number, expected i32");
}

#[test]
fn group_out_of_range_is_parse_failure() {
    let m = parse_message(load_from_text(r#"{"name": "alpha", "group": 3000000000}"#));
    assert_eq!(m, "invalid value: integer `3000000000`, expected i32");
}

#[test]
fn non_string_name_is_parse_failure() {
    let m = parse_message(load_from_text(r#"{"name": 5, "group": 1}"#));
    assert_eq!(m, "invalid type: integer, expected a string");
}

#[test]
fn non_object_document_is_parse_failure() {
    let m = parse_message(load_from_text("[1, 2]"));
    assert!(!m.is_empty());
    assert!(!m.contains("failed to read config file"));
}

#[test]
fn same_input_gives_same_report() {
    let text = r#"{"name": "alpha", "group": 3}"#;
    let first = report(&get_cluster_info(Ok(text.to_string())));
    let second = report(&get_cluster_info(Ok(text.to_string())));
    assert_eq!(first, second);
    let bad = "{not valid}";
    assert_eq!(
        report(&get_cluster_info(Ok(bad.to_string()))),
        report(&get_cluster_info(Ok(bad.to_string())))
    );
}

#[test]
fn name_is_escaped_in_report() {
    let c = ClusterMap { name: "a\"b".to_string(), group: -12 };
    assert_eq!(c.render(), r#"ClusterMap { name: "a\"b", group: -12 }"#);
}

#[test]
fn fields_map_to_record() {
    let ok = record_from_fields(Some(FieldValue::Str("x".to_string())), Some(FieldValue::Number(Some(-4))));
    let c = ok.expect("record");
    assert_eq!(c.name, "x");
    assert_eq!(c.group, -4);
    let e = parse_message(record_from_fields(Some(FieldValue::Null), Some(FieldValue::Number(Some(1)))));
    assert_eq!(e, "invalid type: null, expected a string");
    let e = parse_message(record_from_fields(Some(FieldValue::Str("x".to_string())), Some(FieldValue::Bool(true))));
    assert_eq!(e, "invalid type: boolean, expected i32");
    let e = parse_message(record_from_fields(Some(FieldValue::Array), None));
    assert_eq!(e, "invalid type: sequence, expected a string");
    let e = parse_message(record_from_fields(Some(FieldValue::Str("x".to_string())), Some(FieldValue::Object)));
    assert_eq!(e, "invalid type: map, expected i32");
    let e = parse_message(record_from_fields(None, None));
    assert_eq!(e, "missing field `name`");
}

#[test]
fn decimal_rendering() {
    assert_eq!(decimal_text(0), "0");
    assert_eq!(decimal_text(1234), "1234");
    assert_eq!(decimal_text(-5), "-5");
    assert_eq!(decimal_text(i64::MIN), "-9223372036854775808");
    assert_eq!(decimal_text(i64::MAX), "9223372036854775807");
}
