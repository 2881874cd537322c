use patchwaste_core::baseline::{Baseline, BaselineError};

#[test]
fn baseline_from_report_json_defaults_to_zero() {
    let bytes = br#"{"metrics":{}}"#;
    let baseline = Baseline::from_report_json(bytes).unwrap();
    assert_eq!(baseline.baseline_new_bytes, 0);
}

#[test]
fn baseline_reads_the_counter_of_a_report() {
    let bytes = br#"{"report_version":"1.0.0","metrics":{"new_bytes":1000,"waste_ratio":0.5},"extra":[1,2]}"#;
    assert_eq!(Baseline::from_report_json(bytes).unwrap().baseline_new_bytes, 1000);
    let bytes = br#"{"metrics":{"new_bytes":18446744073709551615}}"#;
    assert_eq!(Baseline::from_report_json(bytes).unwrap().baseline_new_bytes, u64::MAX);
}

#[test]
fn baseline_is_zero_where_the_counter_is_no_unsigned_number() {
    for text in [
        r#"{}"#,
        r#"[]"#,
        r#"7"#,
        r#"null"#,
        r#"{"metrics":7}"#,
        r#"{"metrics":{"new_bytes":-5}}"#,
        r#"{"metrics":{"new_bytes":1.5}}"#,
        r#"{"metrics":{"new_bytes":"12"}}"#,
        r#"{"metrics":{"new_bytes":null}}"#,
        r#"{"new_bytes":12}"#,
    ] {
        let baseline = Baseline::from_report_json(text.as_bytes()).unwrap();
        assert_eq!(baseline.baseline_new_bytes, 0, "{text}");
    }
}

#[test]
fn baseline_that_is_no_json_is_an_error() {
    for text in ["", "{", "not json", r#"{"metrics":{"new_bytes":1}} trailing"#, "\u{feff}{}"] {
        let r = Baseline::from_report_json(text.as_bytes());
        assert!(matches!(r, Err(BaselineError::MalformedBaseline { .. })), "{text}");
    }
    assert!(Baseline::from_report_json(&[0xff, 0xfe]).is_err());
    let e = Baseline::from_report_json(b"{").unwrap_err();
    assert!(e.message().starts_with("parse json: "));
    assert!(e.message().len() > "parse json: ".len());
}

#[test]
fn baseline_from_counter_defaults_to_zero() {
    assert_eq!(Baseline::from_counter(None), Baseline { baseline_new_bytes: 0 });
    assert_eq!(Baseline::from_counter(Some(9)), Baseline { baseline_new_bytes: 9 });
}
