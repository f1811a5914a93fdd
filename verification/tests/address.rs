use fedora::Address;

fn pair(name: &str, value: &str) -> (String, String) {
    (name.to_string(), value.to_string())
}

#[test]
fn address_keeps_a_plain_url() {
    let address = Address::parse("https://bodhi.fedoraproject.org/login?method=openid").unwrap();
    assert_eq!(address.as_str(), "https://bodhi.fedoraproject.org/login?method=openid");
    assert_eq!(address.query_pairs(), &vec![pair("method", "openid")]);
}

#[test]
fn address_is_written_as_the_url_crate_writes_it() {
    let address = Address::parse("HTTP://Example.COM").unwrap();
    assert_eq!(address.as_str(), "http://example.com/");
    assert!(address.query_pairs().is_empty());
}

#[test]
fn address_query_pairs_are_decoded_in_order() {
    let address = Address::parse("https://site/login?b=x%20y+z&a=1&b=2&empty").unwrap();
    assert_eq!(
        address.query_pairs(),
        &vec![pair("b", "x y z"), pair("a", "1"), pair("b", "2"), pair("empty", "")]
    );
}

#[test]
fn address_fragment_is_no_query() {
    let address = Address::parse("https://site/login?a=1#b=2").unwrap();
    assert_eq!(address.query_pairs(), &vec![pair("a", "1")]);
}

#[test]
fn address_rejects_what_is_no_url() {
    assert!(Address::parse("not a url").is_err());
    assert!(Address::parse("").is_err());
    assert!(Address::parse("/relative/path").is_err());
}
