use fedora::text::is_header_value;

#[test]
fn header_value_accepts_visible_text() {
    assert!(is_header_value(""));
    assert!(is_header_value("a=1; b=2"));
    assert!(is_header_value("tab\tinside"));
    assert!(is_header_value("caf\u{e9}"));
}

#[test]
fn header_value_rejects_control_characters() {
    assert!(!is_header_value("line\nbreak"));
    assert!(!is_header_value("a\r"));
    assert!(!is_header_value("\u{0}"));
    assert!(!is_header_value("del\u{7f}"));
    assert!(!is_header_value("\u{1f}"));
}

#[test]
fn header_value_boundaries() {
    assert!(is_header_value(" "));
    assert!(is_header_value("~"));
    assert!(is_header_value("\u{80}"));
}
