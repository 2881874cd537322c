use patchwaste_core::text::{commas, parse_grouped_number, precedes, reads_as_upper, trim};

#[test]
fn commas_formats_numbers() {
    assert_eq!(commas(0), "0");
    assert_eq!(commas(1000), "1,000");
    assert_eq!(commas(1234567), "1,234,567");
}

#[test]
fn commas_keeps_zeros_inside_groups() {
    assert_eq!(commas(999), "999");
    assert_eq!(commas(1_000_000), "1,000,000");
    assert_eq!(commas(10_020_003), "10,020,003");
    assert_eq!(commas(u64::MAX), "18,446,744,073,709,551,615");
}

#[test]
fn grouped_numbers_are_read() {
    assert_eq!(parse_grouped_number("2_048", '_'), Some(2048));
    assert_eq!(parse_grouped_number("1,234", ','), Some(1234));
    assert_eq!(parse_grouped_number("007", '_'), Some(7));
    assert_eq!(parse_grouped_number("", '_'), None);
    assert_eq!(parse_grouped_number("___", '_'), None);
    assert_eq!(parse_grouped_number("12a", '_'), None);
    assert_eq!(parse_grouped_number("+12", '_'), None);
    assert_eq!(parse_grouped_number("1,2", '_'), None);
    assert_eq!(parse_grouped_number("18446744073709551615", '_'), Some(u64::MAX));
    assert_eq!(parse_grouped_number("18446744073709551616", '_'), None);
    assert_eq!(parse_grouped_number("\u{662}", '_'), None);
}

#[test]
fn trim_removes_unicode_white_space_at_both_ends() {
    assert_eq!(trim("  a b \t\r\n"), "a b");
    assert_eq!(trim("\u{2003}x\u{3000}"), "x");
    assert_eq!(trim("\u{200b}x"), "\u{200b}x");
    assert_eq!(trim(" \n "), "");
    assert_eq!(trim(""), "");
    assert_eq!(trim("é"), "é");
}

#[test]
fn upper_case_reading_touches_ascii_letters_only() {
    assert!(reads_as_upper("top_Offender", "TOP_OFFENDER"));
    assert!(reads_as_upper("LOG", "LOG"));
    assert!(!reads_as_upper("log", "log"));
    assert!(!reads_as_upper("lo", "LOG"));
    assert!(!reads_as_upper("byte\u{17f}", "BYTES"));
}

#[test]
fn text_order_is_the_order_of_str() {
    let samples = ["", "a", "ab", "b", "B", "é", "z", "a\u{10000}", "a\u{ffff}", "10", "9"];
    for a in samples {
        for b in samples {
            assert_eq!(precedes(a, b), a < b, "{a:?} {b:?}");
        }
    }
}
