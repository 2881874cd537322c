use patchwaste_core::parser::steampipe_log::{
    apply_matches, counter_from_captures, offender_from_captures, pretty_update_from_captures,
    CounterKey, LineShapes, ParseError,
};
use patchwaste_core::parser::{parse_steampipe_log, ParseMode, ParsedSteamPipeLog, SteamPipeCounters};
use patchwaste_core::types::FileOffender;

fn groups(texts: &[Option<&str>]) -> Option<Vec<Option<String>>> {
    Some(texts.iter().map(|t| t.map(|s| s.to_string())).collect())
}

#[test]
fn merge_prefers_latest_non_none() {
    let mut a = SteamPipeCounters {
        predicted_update_bytes: Some(10),
        changed_content_bytes: None,
    };
    let b = SteamPipeCounters {
        predicted_update_bytes: Some(20),
        changed_content_bytes: Some(30),
    };

    a.merge(b);

    assert_eq!(a.predicted_update_bytes, Some(20));
    assert_eq!(a.changed_content_bytes, Some(30));
}

#[test]
fn merge_keeps_present_fields_when_incoming_is_absent() {
    let mut a = SteamPipeCounters {
        predicted_update_bytes: Some(10),
        changed_content_bytes: Some(7),
    };
    a.merge(SteamPipeCounters {
        predicted_update_bytes: None,
        changed_content_bytes: Some(8),
    });
    assert_eq!(a.predicted_update_bytes, Some(10));
    assert_eq!(a.changed_content_bytes, Some(8));
    a.merge(SteamPipeCounters::default());
    assert_eq!(a.predicted_update_bytes, Some(10));
    assert_eq!(a.changed_content_bytes, Some(8));
}

#[test]
fn parse_pretty_update_and_offender() {
    let input = b"predicted update size: 1,234 bytes\nTOP_OFFENDER = foo.pak: 2_048\n";
    let parsed = parse_steampipe_log(&input[..], ParseMode::BestEffort).unwrap();

    assert_eq!(parsed.counters.predicted_update_bytes, Some(1234));
    assert_eq!(parsed.offenders[0].path, "foo.pak");
    assert_eq!(parsed.offenders[0].bytes, 2048);
}

#[test]
fn structured_counters_are_read_in_any_case() {
    let input = b"predicted_update_bytes = 12_345_678\nChanged_Content_Bytes=2000000\n";
    let parsed = parse_steampipe_log(&input[..], ParseMode::Strict).unwrap();
    assert_eq!(parsed.counters.predicted_update_bytes, Some(12_345_678));
    assert_eq!(parsed.counters.changed_content_bytes, Some(2_000_000));
    assert!(parsed.offenders.is_empty());
}

#[test]
fn structured_counter_is_not_overwritten_by_prose() {
    let input = b"PREDICTED_UPDATE_BYTES=10\npredicted update size: 99 bytes\n";
    let parsed = parse_steampipe_log(&input[..], ParseMode::BestEffort).unwrap();
    assert_eq!(parsed.counters.predicted_update_bytes, Some(10));
}

#[test]
fn prose_is_overwritten_by_a_later_structured_counter() {
    let input = b"predicted update size: 99 bytes\nPREDICTED_UPDATE_BYTES=10\n";
    let parsed = parse_steampipe_log(&input[..], ParseMode::BestEffort).unwrap();
    assert_eq!(parsed.counters.predicted_update_bytes, Some(10));
}

#[test]
fn later_structured_counter_wins() {
    let input = b"PREDICTED_UPDATE_BYTES=10\nPREDICTED_UPDATE_BYTES=11\n";
    let parsed = parse_steampipe_log(&input[..], ParseMode::BestEffort).unwrap();
    assert_eq!(parsed.counters.predicted_update_bytes, Some(11));
}

#[test]
fn number_too_large_for_64_bits_counts_as_zero() {
    let input = b"PREDICTED_UPDATE_BYTES=99999999999999999999999\nTOP_OFFENDER=a:99999999999999999999999\n";
    let parsed = parse_steampipe_log(&input[..], ParseMode::Strict).unwrap();
    assert_eq!(parsed.counters.predicted_update_bytes, Some(0));
    assert_eq!(parsed.offenders[0].bytes, 0);
}

#[test]
fn prose_number_too_large_is_passed_over() {
    let input = b"predicted update size: 99,999,999,999,999,999,999,999 bytes\n";
    let parsed = parse_steampipe_log(&input[..], ParseMode::BestEffort).unwrap();
    assert_eq!(parsed.counters.predicted_update_bytes, None);
}

#[test]
fn largest_64_bit_number_is_read() {
    let input = b"CHANGED_CONTENT_BYTES=18446744073709551615\n";
    let parsed = parse_steampipe_log(&input[..], ParseMode::BestEffort).unwrap();
    assert_eq!(parsed.counters.changed_content_bytes, Some(u64::MAX));
    let input = b"CHANGED_CONTENT_BYTES=18446744073709551616\n";
    let parsed = parse_steampipe_log(&input[..], ParseMode::BestEffort).unwrap();
    assert_eq!(parsed.counters.changed_content_bytes, Some(0));
}

#[test]
fn every_offender_line_adds_an_offender() {
    let input = b"TOP_OFFENDER = a.pak : 5\r\nnoise\nTOP_OFFENDER=a.pak:5\ntop_offender =  dir/b c.pak  :  1_000  ";
    let parsed = parse_steampipe_log(&input[..], ParseMode::BestEffort).unwrap();
    assert_eq!(
        parsed.offenders,
        vec![
            FileOffender { path: "a.pak".to_string(), bytes: 5 },
            FileOffender { path: "a.pak".to_string(), bytes: 5 },
            FileOffender { path: "dir/b c.pak".to_string(), bytes: 1000 },
        ]
    );
}

#[test]
fn strict_mode_fails_without_the_predicted_counter() {
    let input = b"CHANGED_CONTENT_BYTES=5\nnothing else\n";
    assert_eq!(
        parse_steampipe_log(&input[..], ParseMode::Strict),
        Err(ParseError::MissingRequiredCounter)
    );
    let lenient = parse_steampipe_log(&input[..], ParseMode::BestEffort).unwrap();
    assert_eq!(lenient.counters.predicted_update_bytes, None);
    assert_eq!(lenient.counters.changed_content_bytes, Some(5));
    assert_eq!(
        ParseError::MissingRequiredCounter.message(),
        "missing required counter PREDICTED_UPDATE_BYTES"
    );
}

#[test]
fn empty_input_yields_nothing() {
    let parsed = parse_steampipe_log(&[], ParseMode::BestEffort).unwrap();
    assert_eq!(parsed.counters, SteamPipeCounters::default());
    assert!(parsed.offenders.is_empty());
    assert_eq!(
        parse_steampipe_log(&[], ParseMode::Strict),
        Err(ParseError::MissingRequiredCounter)
    );
}

#[test]
fn parser_never_fails_on_bytes_that_are_no_text() {
    let mut data: Vec<u8> = Vec::new();
    for round in 0..8u32 {
        for b in 0..=255u8 {
            data.push(b.wrapping_mul(31).wrapping_add(round as u8));
        }
    }
    assert!(parse_steampipe_log(&data, ParseMode::BestEffort).is_ok());
    assert!(parse_steampipe_log(&[0xff, 0xfe, 0x00, 0x0a, 0xc3], ParseMode::BestEffort).is_ok());
    assert!(parse_steampipe_log(b"PREDICTED_UPDATE_BYTES=", ParseMode::BestEffort).is_ok());
}

#[test]
fn a_line_that_is_no_text_is_passed_over_and_the_rest_is_read() {
    let input = b"\xff\xfePREDICTED_UPDATE_BYTES=1\nPREDICTED_UPDATE_BYTES=2\n\xc3\n";
    let parsed = parse_steampipe_log(&input[..], ParseMode::Strict).unwrap();
    assert_eq!(parsed.counters.predicted_update_bytes, Some(2));
}

#[test]
fn counter_from_captures_reads_key_and_value() {
    let found = groups(&[Some("x=1"), Some("predicted_update_bytes"), Some("1_0")]);
    assert_eq!(counter_from_captures(&found), Some((CounterKey::PredictedUpdateBytes, 10)));
    let found = groups(&[Some("x=1"), Some("CHANGED_CONTENT_BYTES"), Some("7")]);
    assert_eq!(counter_from_captures(&found), Some((CounterKey::ChangedContentBytes, 7)));
    let found = groups(&[Some("x=1"), Some("OTHER"), Some("7")]);
    assert_eq!(counter_from_captures(&found), None);
    let found = groups(&[Some("x=1"), Some("CHANGED_CONTENT_BYTES"), Some("x")]);
    assert_eq!(counter_from_captures(&found), Some((CounterKey::ChangedContentBytes, 0)));
    let found = groups(&[Some("x=1"), None, Some("7")]);
    assert_eq!(counter_from_captures(&found), None);
    assert_eq!(counter_from_captures(&groups(&[Some("x")])), None);
    assert_eq!(counter_from_captures(&None), None);
}

#[test]
fn pretty_update_from_captures_strips_commas() {
    assert_eq!(pretty_update_from_captures(&groups(&[Some("w"), Some("1,234,567")])), Some(1_234_567));
    assert_eq!(pretty_update_from_captures(&groups(&[Some("w"), Some("1_234")])), None);
    assert_eq!(pretty_update_from_captures(&groups(&[Some("w"), Some(",")])), None);
    assert_eq!(pretty_update_from_captures(&None), None);
}

#[test]
fn offender_from_captures_trims_the_path() {
    let found = groups(&[Some("w"), Some(" \t a b.pak\u{a0}\n"), Some("2_048")]);
    assert_eq!(
        offender_from_captures(&found),
        Some(FileOffender { path: "a b.pak".to_string(), bytes: 2048 })
    );
    let found = groups(&[Some("w"), Some("   "), Some("")]);
    assert_eq!(
        offender_from_captures(&found),
        Some(FileOffender { path: String::new(), bytes: 0 })
    );
    assert_eq!(offender_from_captures(&groups(&[Some("w"), Some("p")])), None);
}

#[test]
fn apply_matches_follows_the_order_of_the_rules() {
    let mut log = ParsedSteamPipeLog { counters: SteamPipeCounters::default(), offenders: vec![] };
    apply_matches(&mut log, None, Some(5), None);
    assert_eq!(log.counters.predicted_update_bytes, Some(5));
    apply_matches(&mut log, None, Some(6), None);
    assert_eq!(log.counters.predicted_update_bytes, Some(5));
    apply_matches(
        &mut log,
        Some((CounterKey::ChangedContentBytes, 3)),
        None,
        Some(FileOffender { path: "p".to_string(), bytes: 1 }),
    );
    assert_eq!(log.counters.changed_content_bytes, Some(3));
    assert_eq!(log.offenders.len(), 1);
    let mut fresh = ParsedSteamPipeLog { counters: SteamPipeCounters::default(), offenders: vec![] };
    apply_matches(&mut fresh, Some((CounterKey::PredictedUpdateBytes, 9)), Some(6), None);
    assert_eq!(fresh.counters.predicted_update_bytes, Some(9));
}

#[test]
fn compiled_shapes_serve_many_logs() {
    let shapes = LineShapes::compile().unwrap();
    let first = shapes.extract(b"PREDICTED_UPDATE_BYTES=1\n", ParseMode::Strict).unwrap();
    assert_eq!(first.counters.predicted_update_bytes, Some(1));
    let second = shapes.extract(b"TOP_OFFENDER=a:2\n", ParseMode::BestEffort).unwrap();
    assert_eq!(second.counters, SteamPipeCounters::default());
    assert_eq!(second.offenders.len(), 1);
    assert_eq!(
        shapes.extract(b"TOP_OFFENDER=a:2\n", ParseMode::Strict),
        Err(ParseError::MissingRequiredCounter)
    );
    assert!(shapes.extract(&[0xff, 0x0a, 0x80], ParseMode::BestEffort).is_ok());
}
