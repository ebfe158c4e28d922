use egui_mpv_glow::double::Double;
use egui_mpv_glow::text::{decimal_text, join_texts, signed_decimal_text, split_lines};

#[test]
fn numbers_are_written_in_decimal() {
    for n in [0, 9, 10, 99, 100, 1234567890, u64::MAX] {
        assert_eq!(decimal_text(n), n.to_string());
    }
    for i in [0, -1, 7, -10, i64::MAX, i64::MIN] {
        assert_eq!(signed_decimal_text(i), i.to_string());
    }
    assert_eq!(signed_decimal_text(-120), "-120");
}

#[test]
fn decimal_text_reads_back() {
    for n in [0, 5, 10, 907, u64::MAX] {
        assert_eq!(decimal_text(n).parse::<u64>(), Ok(n));
    }
}

#[test]
fn texts_are_joined() {
    let parts = vec!["a".to_string(), "".to_string(), "b c".to_string()];
    assert_eq!(join_texts(&parts, " "), "a  b c");
    assert_eq!(join_texts(&parts, ", "), parts.join(", "));
    assert_eq!(join_texts(&vec!["x".to_string()], " "), "x");
    assert_eq!(join_texts(&vec![], " "), "");
}

#[test]
fn texts_are_split_at_newlines() {
    for text in ["", "\n", "a", "a\n", "\na", "a\n\nb", "\u{e9}\u{1f600}\nb\r\n"] {
        assert_eq!(split_lines(text), text.split('\n').collect::<Vec<_>>());
    }
}

#[test]
fn doubles_compare_by_their_bits() {
    for v in [
        0.0,
        -0.0,
        0.5,
        1.0,
        1.0000000000000002,
        -3.0,
        1920.0,
        f64::MIN_POSITIVE,
        f64::MAX,
        f64::INFINITY,
        f64::NEG_INFINITY,
        f64::NAN,
        -f64::NAN,
    ] {
        let d = Double { bits: v.to_bits() };
        assert_eq!(d.is_positive(), v > 0.0);
        assert_eq!(f64::from_bits(d.at_least_one().bits), v.max(1.0));
    }
    assert_eq!(Double::zero().bits, 0.0f64.to_bits());
}
