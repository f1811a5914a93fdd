use fedora::Accumulator;

fn pair(name: &str, value: &str) -> (String, String) {
    (name.to_string(), value.to_string())
}

#[test]
fn accumulator_starts_empty() {
    let acc = Accumulator::new();
    assert!(!acc.contains("a"));
    assert_eq!(acc.get("a"), None);
    assert!(acc.into_pairs().is_empty());
}

#[test]
fn accumulator_insert_replaces() {
    let mut acc = Accumulator::new();
    acc.insert("a".to_string(), "1".to_string());
    acc.insert("b".to_string(), "2".to_string());
    acc.insert("a".to_string(), "3".to_string());
    assert_eq!(acc.get("a"), Some("3".to_string()));
    assert_eq!(acc.get("b"), Some("2".to_string()));
    assert_eq!(acc.into_pairs(), vec![pair("a", "3"), pair("b", "2")]);
}

#[test]
fn accumulator_insert_if_absent_keeps_what_is_there() {
    let mut acc = Accumulator::new();
    acc.insert("openid.mode".to_string(), "from_redirect".to_string());
    acc.insert_if_absent("openid.mode".to_string(), "checkid_setup".to_string());
    acc.insert_if_absent("other".to_string(), "x".to_string());
    assert_eq!(acc.get("openid.mode"), Some("from_redirect".to_string()));
    assert_eq!(acc.get("other"), Some("x".to_string()));
}

#[test]
fn accumulator_absorb_later_pair_wins() {
    let mut acc = Accumulator::new();
    acc.absorb(&vec![pair("a", "1"), pair("b", "2")]);
    acc.absorb(&vec![pair("c", "3"), pair("a", "4"), pair("c", "5")]);
    assert_eq!(acc.get("a"), Some("4".to_string()));
    assert_eq!(acc.get("b"), Some("2".to_string()));
    assert_eq!(acc.get("c"), Some("5".to_string()));
    assert_eq!(acc.into_pairs().len(), 3);
}
