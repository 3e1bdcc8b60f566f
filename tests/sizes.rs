use byte_provider::{
    annotate, normalize, parse_literal, same_text, scale, magnitude, ByteProvider, InfoSegment,
    Magnitude, SizeMatch, Tooltip,
};

fn size_match(
    start: usize,
    end: usize,
    literal: Option<&str>,
    prefix: Option<&str>,
    binary: bool,
    unit: Option<&str>,
) -> SizeMatch {
    SizeMatch {
        start,
        end,
        numeric_literal: literal.map(|s| s.to_string()),
        prefix_token: prefix.map(|s| s.to_string()),
        binary_indicator: binary,
        unit_token: unit.map(|s| s.to_string()),
    }
}

fn bytes_segment(start: usize, end: usize, bytes: u64, bits: bool, si: bool) -> InfoSegment {
    InfoSegment { start, end, info: Tooltip::Bytes { bytes, bits, si } }
}

#[test]
fn span_is_copied_and_ordered() {
    let m = size_match(3, 11, Some("10"), Some("k"), false, Some("byte"));
    let a = normalize(&m).unwrap();
    assert_eq!(a.start, 3);
    assert_eq!(a.end, 11);
    assert!(a.start <= a.end);
}

#[test]
fn decimal_kilo_word() {
    let m = size_match(0, 9, Some("10"), Some("kilo"), false, Some("byte"));
    assert_eq!(normalize(&m), Some(bytes_segment(0, 9, 10_000, false, true)));
}

#[test]
fn decimal_kilo_letter() {
    let m = size_match(0, 7, Some("10"), Some("k"), false, Some("byte"));
    assert_eq!(normalize(&m), Some(bytes_segment(0, 7, 10_000, false, true)));
}

#[test]
fn binary_kilo_word() {
    let m = size_match(0, 9, Some("10"), Some("kilo"), true, Some("byte"));
    assert_eq!(normalize(&m), Some(bytes_segment(0, 9, 10_240, false, false)));
}

#[test]
fn binary_kilo_letter() {
    let m = size_match(0, 8, Some("10"), Some("k"), true, Some("byte"));
    assert_eq!(normalize(&m), Some(bytes_segment(0, 8, 10_240, false, false)));
}

#[test]
fn thousands_separator_mega() {
    let m = size_match(0, 14, Some("1,500"), Some("mega"), false, Some("byte"));
    assert_eq!(normalize(&m), Some(bytes_segment(0, 14, 1_500_000_000, false, true)));
}

#[test]
fn bits_are_divided_by_eight() {
    let m = size_match(0, 6, Some("64"), None, false, Some("bit"));
    assert_eq!(normalize(&m), Some(bytes_segment(0, 6, 8, true, true)));
}

#[test]
fn bits_round_down() {
    let m = size_match(0, 5, Some("13"), None, false, Some("bit"));
    assert_eq!(normalize(&m), Some(bytes_segment(0, 5, 1, true, true)));
}

#[test]
fn no_prefix_passthrough() {
    let m = size_match(0, 6, Some("5"), None, false, Some("byte"));
    assert_eq!(normalize(&m), Some(bytes_segment(0, 6, 5, false, true)));
}

#[test]
fn missing_literal_is_skipped() {
    let m = size_match(0, 4, None, Some("k"), false, Some("byte"));
    assert_eq!(normalize(&m), None);
}

#[test]
fn missing_unit_is_skipped() {
    let m = size_match(0, 4, Some("10"), Some("k"), false, None);
    assert_eq!(normalize(&m), None);
}

#[test]
fn no_matches_no_annotations() {
    let p = ByteProvider;
    assert_eq!(p.parse_message(&Vec::new()), Vec::<InfoSegment>::new());
}

#[test]
fn normalizing_twice_is_identical() {
    let m = size_match(2, 12, Some("1,024"), Some("Giga"), true, Some("BIT"));
    let first = normalize(&m);
    let second = normalize(&m);
    assert_eq!(first, second);
    assert_eq!(first, Some(bytes_segment(2, 12, 1_099_511_627_776 / 8, true, false)));
}

#[test]
fn order_is_preserved() {
    let p = ByteProvider;
    let ms = vec![
        size_match(0, 5, Some("1"), Some("k"), false, Some("b")),
        size_match(6, 10, Some("x"), None, false, Some("byte")),
        size_match(12, 20, Some("2"), Some("m"), true, Some("byte")),
        size_match(21, 25, Some("16"), None, false, Some("bit")),
    ];
    let out = p.parse_message(&ms);
    assert_eq!(
        out,
        vec![
            bytes_segment(0, 5, 1_000, false, true),
            bytes_segment(12, 20, 2_097_152, false, false),
            bytes_segment(21, 25, 2, true, true),
        ]
    );
    for w in out.windows(2) {
        assert!(w[0].end <= w[1].start);
    }
}

#[test]
fn prefix_and_unit_ignore_case() {
    let m = size_match(0, 8, Some("3"), Some("KILO"), false, Some("Bit"));
    assert_eq!(normalize(&m), Some(bytes_segment(0, 8, 375, true, true)));
}

#[test]
fn unknown_prefix_scales_by_one() {
    let m = size_match(0, 8, Some("7"), Some("x"), true, Some("byte"));
    assert_eq!(normalize(&m), Some(bytes_segment(0, 8, 7, false, false)));
}

#[test]
fn unit_spelling_is_not_checked() {
    let m = size_match(0, 8, Some("7"), None, false, Some("bits"));
    assert_eq!(normalize(&m), Some(bytes_segment(0, 8, 7, false, true)));
}

#[test]
fn every_decimal_prefix() {
    let cases = [
        ("giga", 1_000_000_000u64),
        ("g", 1_000_000_000),
        ("tera", 1_000_000_000_000),
        ("t", 1_000_000_000_000),
        ("peta", 1_000_000_000_000_000),
        ("p", 1_000_000_000_000_000),
        ("mega", 1_000_000),
        ("m", 1_000_000),
    ];
    for (prefix, k) in cases {
        let m = size_match(0, 1, Some("2"), Some(prefix), false, Some("byte"));
        assert_eq!(normalize(&m), Some(bytes_segment(0, 1, 2 * k, false, true)));
    }
}

#[test]
fn every_binary_prefix() {
    let cases = [
        ("mebi", 1u64),
        ("mega", 1_048_576),
        ("giga", 1_073_741_824),
        ("tera", 1_099_511_627_776),
        ("peta", 1_125_899_906_842_624),
    ];
    for (prefix, k) in cases {
        let m = size_match(0, 1, Some("3"), Some(prefix), true, Some("byte"));
        assert_eq!(normalize(&m), Some(bytes_segment(0, 1, 3 * k, false, false)));
    }
}

#[test]
fn literal_that_is_not_a_number_is_skipped() {
    for lit in ["", "abc", "1.5", "-3", "+", "1 000"] {
        let m = size_match(0, 1, Some(lit), None, false, Some("byte"));
        assert_eq!(normalize(&m), None, "literal {:?}", lit);
    }
}

#[test]
fn literal_parsing() {
    assert_eq!(parse_literal("1,500"), Some(1500));
    assert_eq!(parse_literal("+42"), Some(42));
    assert_eq!(parse_literal("007"), Some(7));
    assert_eq!(parse_literal(",,9,"), Some(9));
    assert_eq!(parse_literal("18,446,744,073,709,551,615"), Some(u64::MAX));
    assert_eq!(parse_literal("18446744073709551616"), None);
    assert_eq!(parse_literal(","), None);
}

#[test]
fn size_beyond_u64_is_skipped() {
    let m = size_match(0, 1, Some("20000"), Some("peta"), false, Some("byte"));
    assert_eq!(normalize(&m), None);
    let m = size_match(0, 1, Some("16383"), Some("peta"), true, Some("byte"));
    assert_eq!(normalize(&m), Some(bytes_segment(0, 1, 16383 * 1_125_899_906_842_624, false, false)));
    let m = size_match(0, 1, Some("16384"), Some("peta"), true, Some("byte"));
    assert_eq!(normalize(&m), None);
}

#[test]
fn scaling_by_magnitude() {
    assert_eq!(scale(5, Magnitude::One, false), Some(5));
    assert_eq!(scale(5, Magnitude::Kilo, true), Some(5_000));
    assert_eq!(scale(5, Magnitude::Kilo, false), Some(5_120));
    assert_eq!(scale(u64::MAX, Magnitude::Kilo, true), None);
    assert_eq!(scale(u64::MAX, Magnitude::One, true), Some(u64::MAX));
}

#[test]
fn prefix_classes() {
    assert_eq!(magnitude("k"), Magnitude::Kilo);
    assert_eq!(magnitude("mega"), Magnitude::Mega);
    assert_eq!(magnitude("g"), Magnitude::Giga);
    assert_eq!(magnitude("tera"), Magnitude::Tera);
    assert_eq!(magnitude("p"), Magnitude::Peta);
    assert_eq!(magnitude(""), Magnitude::One);
    assert_eq!(magnitude("K"), Magnitude::One);
    assert_eq!(magnitude("kil"), Magnitude::One);
}

#[test]
fn text_comparison() {
    assert!(same_text("bit", "bit"));
    assert!(!same_text("bit", "bits"));
    assert!(!same_text("bit", "bat"));
    assert!(same_text("", ""));
}

#[test]
fn annotate_lowered_parts() {
    assert_eq!(annotate(1, 4, 10, "kilo", true, "byte"), Some(bytes_segment(1, 4, 10_000, false, true)));
    assert_eq!(annotate(1, 4, 64, "", false, "bit"), Some(bytes_segment(1, 4, 8, true, false)));
    assert_eq!(annotate(1, 4, u64::MAX, "k", false, "byte"), None);
}

#[test]
fn provider_name() {
    assert_eq!(ByteProvider.name(), "Bytes");
}
