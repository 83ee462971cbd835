use point_cloud::text::{bounds_text, record_line};

#[test]
fn record_line_is_tab_separated_and_newline_closed() {
    assert_eq!(record_line("1.5", "-2", "1"), "1.5\t-2\t1\n");
    assert_eq!(
        record_line(&format!("{}", 0.030518799534758747f64), &format!("{}", -6.0f64), "ring"),
        "0.030518799534758747\t-6\tring\n"
    );
}

#[test]
fn record_line_keeps_empty_fields() {
    assert_eq!(record_line("", "", ""), "\t\t\n");
    assert_eq!(record_line("0", "0", ""), "0\t0\t\n");
}

#[test]
fn record_line_keeps_characters_beyond_ascii() {
    assert_eq!(record_line("1", "2", "größe"), "1\t2\tgröße\n");
}

#[test]
fn bounds_text_renders_both_axes() {
    assert_eq!(bounds_text("-6", "6", "-6", "6"), "(x: -6..6), y: (-6..6)");
    assert_eq!(bounds_text("0.5", "1.5", "-2", "-1"), "(x: 0.5..1.5), y: (-2..-1)");
}
