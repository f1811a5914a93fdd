use fedora::timestamp::{from_text, now, to_text};

#[test]
fn timestamp_text_of_the_epoch() {
    assert_eq!(to_text(0), Some("1970-01-01T00:00:00Z".to_string()));
}

#[test]
fn timestamp_text_of_a_date() {
    assert_eq!(to_text(1_700_000_000), Some("2023-11-14T22:13:20Z".to_string()));
    assert_eq!(to_text(-1), Some("1969-12-31T23:59:59Z".to_string()));
}

#[test]
fn timestamp_text_out_of_range() {
    assert_eq!(to_text(i64::MAX), None);
    assert_eq!(to_text(i64::MIN), None);
}

#[test]
fn timestamp_from_text() {
    assert_eq!(from_text("2023-11-14T22:13:20Z"), Some(1_700_000_000));
    assert_eq!(from_text("2023-11-14T23:13:20+01:00"), Some(1_700_000_000));
    assert_eq!(from_text("2023-11-14T22:13:20.750Z"), Some(1_700_000_000));
    assert_eq!(from_text("1970-01-01T00:00:00Z"), Some(0));
}

#[test]
fn timestamp_from_text_rejects() {
    assert_eq!(from_text("yesterday"), None);
    assert_eq!(from_text(""), None);
    assert_eq!(from_text("2023-11-14"), None);
}

#[test]
fn timestamp_round_trip() {
    for secs in [0i64, 1, 86_399, 86_400, 1_700_000_000, 253_402_300_799, 253_402_300_800] {
        let text = to_text(secs).unwrap();
        assert_eq!(from_text(&text), Some(secs));
    }
}

#[test]
fn timestamp_now_is_after_2020() {
    assert!(now() > 1_577_836_800);
}
