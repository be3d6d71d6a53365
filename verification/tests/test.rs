use synterm::calculate_whitespace;

#[test]
pub fn test_cw() {
    assert_eq!(
        calculate_whitespace("\x01\x1b[1;33m\x02>>> \x01\x1b[m\x02"),
        4
    )
}

#[test]
fn width_of_empty_string_is_zero() {
    assert_eq!(calculate_whitespace(""), 0);
}

#[test]
fn width_counts_every_byte_outside_spans() {
    assert_eq!(calculate_whitespace(">>> "), 4);
    assert_eq!(calculate_whitespace("ab\x01hidden\x02cd"), 4);
    assert_eq!(calculate_whitespace("\x01\x02"), 0);
}

#[test]
fn width_unterminated_span_consumes_to_end() {
    assert_eq!(calculate_whitespace("ok\x01never closed"), 2);
    assert_eq!(calculate_whitespace("\x01"), 0);
}

#[test]
fn width_marker_end_alone_is_visible() {
    assert_eq!(calculate_whitespace("a\x02b"), 3);
}
