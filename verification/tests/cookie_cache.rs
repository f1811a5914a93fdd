use fedora::cookie_record::convert_cookie;
use fedora::CacheFile;
use fedora::{Address, CookieAttributes, CookieCache, CookieCacheError, Json, SimpleCookie};

const SITE: &str = "https://site.example/login";

fn set_by(header: &str, name: &str, value: &str, expires: Option<i64>) -> SimpleCookie {
    SimpleCookie {
        name: name.to_string(),
        value: value.to_string(),
        expires,
        header: header.to_string(),
        origin: SITE.to_string(),
    }
}

fn cookie(name: &str, value: &str, expires: Option<i64>) -> SimpleCookie {
    set_by(&format!("{}={}", name, value), name, value, expires)
}

fn site(path: &str) -> Address {
    Address::parse(&format!("https://site.example{}", path)).unwrap()
}

fn cache(login_url: &str, cookies: Vec<SimpleCookie>) -> CookieCache {
    CookieCache { login_url: login_url.to_string(), cookies }
}

#[test]
fn cookie_attributes_parse_max_age() {
    let parsed = CookieAttributes::parse("sid=abc; Max-Age=3600; Path=/; HttpOnly").unwrap();
    assert_eq!(
        parsed,
        CookieAttributes {
            name: "sid".to_string(),
            value: "abc".to_string(),
            max_age: Some(3600),
            expires: None,
        }
    );
}

#[test]
fn cookie_attributes_parse_expires() {
    let parsed = CookieAttributes::parse("a=b; Expires=Wed, 21 Oct 2015 07:28:00 GMT").unwrap();
    assert_eq!(parsed.name, "a");
    assert_eq!(parsed.value, "b");
    assert_eq!(parsed.max_age, None);
    assert_eq!(parsed.expires, Some(1_445_412_480));
}

#[test]
fn cookie_attributes_parse_session_cookie() {
    let parsed = CookieAttributes::parse(" name = value ").unwrap();
    assert_eq!(parsed.name, "name");
    assert_eq!(parsed.value, "value");
    assert_eq!(parsed.max_age, None);
    assert_eq!(parsed.expires, None);
}

#[test]
fn cookie_attributes_negative_max_age_is_zero() {
    let parsed = CookieAttributes::parse("a=b; Max-Age=-5").unwrap();
    assert_eq!(parsed.max_age, Some(0));
}

#[test]
fn cookie_attributes_parse_rejects() {
    assert_eq!(CookieAttributes::parse("novalue"), None);
    assert_eq!(CookieAttributes::parse("=x"), None);
    assert_eq!(CookieAttributes::parse(""), None);
}

#[test]
fn convert_cookie_max_age_counts_from_now() {
    let parsed = CookieAttributes::parse("sid=abc; Max-Age=3600").unwrap();
    assert!(parsed.is_convertible(1_000));
    assert_eq!(
        convert_cookie(parsed, "sid=abc; Max-Age=3600", SITE, 1_000),
        set_by("sid=abc; Max-Age=3600", "sid", "abc", Some(4_600))
    );
}

#[test]
fn convert_cookie_max_age_goes_before_expires() {
    let parsed = CookieAttributes {
        name: "a".to_string(),
        value: "b".to_string(),
        max_age: Some(10),
        expires: Some(999_999),
    };
    assert_eq!(convert_cookie(parsed, "a=b", SITE, 5), cookie("a", "b", Some(15)));
}

#[test]
fn convert_cookie_expires() {
    let parsed = CookieAttributes {
        name: "a".to_string(),
        value: "b".to_string(),
        max_age: None,
        expires: Some(1_445_412_480),
    };
    assert_eq!(convert_cookie(parsed, "a=b", SITE, 5), cookie("a", "b", Some(1_445_412_480)));
}

#[test]
fn convert_cookie_session() {
    let parsed = CookieAttributes {
        name: "a".to_string(),
        value: "b".to_string(),
        max_age: None,
        expires: None,
    };
    let converted = convert_cookie(parsed, "a=b; Path=/x", "https://other.example/", 5);
    assert_eq!(converted.name, "a");
    assert_eq!(converted.value, "b");
    assert_eq!(converted.expires, None);
    assert_eq!(converted.header, "a=b; Path=/x");
    assert_eq!(converted.origin, "https://other.example/");
}

#[test]
fn cookie_attributes_not_convertible() {
    let overflow = CookieAttributes {
        name: "a".to_string(),
        value: "b".to_string(),
        max_age: Some(i64::MAX),
        expires: None,
    };
    assert!(!overflow.is_convertible(1));
    assert!(overflow.is_convertible(0));
    let before_epoch = CookieAttributes {
        name: "a".to_string(),
        value: "b".to_string(),
        max_age: None,
        expires: Some(-1),
    };
    assert!(!before_epoch.is_convertible(0));
}

#[test]
fn cache_new_is_empty() {
    let cache = CookieCache::new("https://site/login".to_string());
    assert_eq!(cache.login_url, "https://site/login");
    assert!(cache.cookies.is_empty());
    assert!(cache.is_empty());
    assert_eq!(cache.cookie_headers(&site("/")), None);
    assert_eq!(cache.all_cookie_headers(), None);
    assert!(!cache.is_expired_at(0));
}

#[test]
fn cache_store_inserts_and_replaces() {
    let mut cache = CookieCache::new("u".to_string());
    cache.store(cookie("a", "1", None));
    cache.store(cookie("b", "2", Some(10)));
    cache.store(cookie("a", "3", Some(20)));
    assert_eq!(cache.cookies, vec![cookie("a", "3", Some(20)), cookie("b", "2", Some(10))]);
}

#[test]
fn cache_store_replaces_the_first_of_two() {
    let mut cache = cache("u", vec![cookie("a", "1", None), cookie("a", "2", None)]);
    cache.store(cookie("a", "3", None));
    assert_eq!(cache.cookies, vec![cookie("a", "3", None), cookie("a", "2", None)]);
}

#[test]
fn cache_ingest_headers() {
    let mut cache = CookieCache::new("u".to_string());
    let headers = vec![
        "sid=abc; Max-Age=60".to_string(),
        "broken".to_string(),
        "lang=en".to_string(),
        "sid=def; Max-Age=120".to_string(),
        "late=x; Expires=Wed, 21 Oct 2015 07:28:00 GMT".to_string(),
    ];
    cache.ingest_cookies_at(&headers, SITE, 1_000);
    assert_eq!(
        cache.cookies,
        vec![
            set_by("sid=def; Max-Age=120", "sid", "def", Some(1_120)),
            cookie("lang", "en", None),
            set_by(
                "late=x; Expires=Wed, 21 Oct 2015 07:28:00 GMT",
                "late",
                "x",
                Some(1_445_412_480)
            ),
        ]
    );
    assert_eq!(cache.login_url, "u");
}

#[test]
fn cache_ingest_skips_what_cannot_be_held() {
    let mut cache = CookieCache::new("u".to_string());
    cache.ingest_header("a=b; Max-Age=9223372036854775807", SITE, 1);
    assert!(cache.cookies.is_empty());
    cache.ingest_header("a=b; Expires=Wed, 21 Oct 1925 07:28:00 GMT", SITE, 1);
    assert!(cache.cookies.is_empty());
    cache.ingest_header("a=b; Max-Age=9223372036854775807", SITE, 0);
    assert_eq!(
        cache.cookies,
        vec![set_by("a=b; Max-Age=9223372036854775807", "a", "b", Some(i64::MAX))]
    );
}

#[test]
fn cache_ingest_with_the_clock() {
    let mut cache = CookieCache::new("u".to_string());
    cache.ingest_cookies(&vec!["sid=abc; Max-Age=3600".to_string(), "lang=en".to_string()], SITE);
    assert_eq!(cache.cookies.len(), 2);
    assert_eq!(cache.cookies[1], cookie("lang", "en", None));
    assert!(cache.cookies[0].expires.unwrap() > 1_577_836_800);
    assert!(!cache.is_expired());
}

#[test]
fn cache_freshness() {
    let past = cache("u", vec![cookie("s", "1", None), cookie("a", "1", Some(999))]);
    assert!(past.is_expired_at(1_000));
    assert!(!past.is_fresh_at(1_000));
    let future = cache("u", vec![cookie("s", "1", None), cookie("a", "1", Some(1_001))]);
    assert!(!future.is_expired_at(1_000));
    assert!(future.is_fresh_at(1_000));
    let session_only = cache("u", vec![cookie("s", "1", None), cookie("t", "2", None)]);
    assert!(!session_only.is_expired_at(i64::MAX));
    assert!(session_only.is_fresh_at(i64::MIN));
}

#[test]
fn cache_expiry_at_the_current_time_has_expired() {
    let cache = cache("u", vec![cookie("a", "1", Some(1_000))]);
    assert!(cache.is_expired_at(1_000));
    assert!(!cache.is_expired_at(999));
}

#[test]
fn cache_is_expired_reads_the_clock() {
    let old = cache("u", vec![cookie("a", "1", Some(0))]);
    assert!(old.is_expired());
    let lasting = cache("u", vec![cookie("a", "1", Some(i64::MAX))]);
    assert!(!lasting.is_expired());
    let session_only = cache("u", vec![cookie("a", "1", None)]);
    assert!(!session_only.is_expired());
}

#[test]
fn cache_all_cookie_headers() {
    let one = cache("u", vec![cookie("a", "1", None)]);
    assert_eq!(one.all_cookie_headers(), Some("a=1".to_string()));
    let three = cache(
        "u",
        vec![cookie("a", "1", None), cookie("b", "", Some(5)), cookie("c", "x=y", None)],
    );
    assert_eq!(three.all_cookie_headers(), Some("a=1; b=; c=x=y".to_string()));
}

#[test]
fn cookie_goes_to_the_host_that_set_it() {
    let plain = cookie("a", "1", None);
    assert!(plain.is_sent_to(&site("/login")));
    assert!(plain.is_sent_to(&site("/")));
    assert!(plain.is_sent_to(&site("/other")));
    assert!(!plain.is_sent_to(&Address::parse("https://sub.site.example/").unwrap()));
    assert!(!plain.is_sent_to(&Address::parse("https://other.example/").unwrap()));
}

#[test]
fn cookie_goes_to_the_directory_that_set_it() {
    let mut deep = cookie("a", "1", None);
    deep.origin = "https://site.example/app/login".to_string();
    assert!(deep.is_sent_to(&site("/app")));
    assert!(deep.is_sent_to(&site("/app/other")));
    assert!(!deep.is_sent_to(&site("/")));
    assert!(!deep.is_sent_to(&site("/other")));
}

#[test]
fn cookie_scope_follows_its_attributes() {
    let wide = set_by("a=1; Domain=site.example; Path=/", "a", "1", None);
    assert!(wide.is_sent_to(&site("/other")));
    assert!(wide.is_sent_to(&Address::parse("https://sub.site.example/x").unwrap()));
    assert!(!wide.is_sent_to(&Address::parse("https://other.example/").unwrap()));
    let narrow = set_by("a=1; Path=/api", "a", "1", None);
    assert!(narrow.is_sent_to(&site("/api")));
    assert!(narrow.is_sent_to(&site("/api/v1")));
    assert!(!narrow.is_sent_to(&site("/apiv1")));
    assert!(!narrow.is_sent_to(&site("/")));
    let secure = set_by("a=1; Secure; Path=/", "a", "1", None);
    assert!(secure.is_sent_to(&site("/")));
    assert!(!secure.is_sent_to(&Address::parse("http://site.example/").unwrap()));
}

#[test]
fn cookie_without_a_scope_goes_nowhere() {
    let foreign = set_by("a=1; Domain=other.example", "a", "1", None);
    assert!(!foreign.is_sent_to(&site("/")));
    assert!(!foreign.is_sent_to(&Address::parse("https://other.example/").unwrap()));
    let unreadable = set_by("no cookie", "a", "1", None);
    assert!(!unreadable.is_sent_to(&site("/")));
    let mut nowhere = cookie("a", "1", None);
    nowhere.origin = "no url".to_string();
    assert!(!nowhere.is_sent_to(&site("/")));
}

#[test]
fn cache_cookie_headers_for_a_destination() {
    let cache = cache(
        "u",
        vec![
            set_by("a=1; Path=/", "a", "1", None),
            set_by("b=2; Path=/api", "b", "2", Some(5)),
            set_by("c=3; Domain=other.example", "c", "3", None),
            set_by("d=x=y; Path=/", "d", "x=y", None),
        ],
    );
    assert_eq!(cache.cookie_headers(&site("/")), Some("a=1; d=x=y".to_string()));
    assert_eq!(cache.cookie_headers(&site("/api/v1")), Some("a=1; b=2; d=x=y".to_string()));
    assert_eq!(cache.cookie_headers(&Address::parse("https://other.example/").unwrap()), None);
    assert_eq!(cache.all_cookie_headers(), Some("a=1; b=2; c=3; d=x=y".to_string()));
}

#[test]
fn cache_round_trip() {
    let now = fedora::timestamp::now();
    let saved = cache(
        "https://bodhi.fedoraproject.org/login",
        vec![cookie("a", "1", Some(now + 3600)), cookie("b", "2", None)],
    );
    let text = saved.write_cached().unwrap();
    let loaded = CookieCache::from_json_text(&text).unwrap();
    assert_eq!(loaded, saved);
    assert_eq!(loaded.cookies[0], cookie("a", "1", Some(now + 3600)));
    assert_eq!(loaded.cookies[1], cookie("b", "2", None));
    assert!(loaded.is_fresh_at(now));
}

#[test]
fn cache_round_trip_of_an_empty_cache() {
    let saved = CookieCache::new("https://site/login".to_string());
    let loaded = CookieCache::from_json_text(&saved.write_cached().unwrap()).unwrap();
    assert_eq!(loaded, saved);
}

#[test]
fn cache_to_json() {
    let saved = cache("u", vec![cookie("a", "1", Some(0)), cookie("b", "2", None)]);
    let text = |s: &str| Json::Text(s.to_string());
    assert_eq!(
        saved.to_json(),
        Some(Json::Object(vec![
            ("login_url".to_string(), text("u")),
            (
                "cookies".to_string(),
                Json::List(vec![
                    Json::Object(vec![
                        ("name".to_string(), text("a")),
                        ("value".to_string(), text("1")),
                        ("expires".to_string(), text("1970-01-01T00:00:00Z")),
                        ("header".to_string(), text("a=1")),
                        ("origin".to_string(), text(SITE)),
                    ]),
                    Json::Object(vec![
                        ("name".to_string(), text("b")),
                        ("value".to_string(), text("2")),
                        ("expires".to_string(), Json::Null),
                        ("header".to_string(), text("b=2")),
                        ("origin".to_string(), text(SITE)),
                    ]),
                ]),
            ),
        ]))
    );
}

#[test]
fn cache_without_a_text_for_an_expiry_is_not_written() {
    let saved = cache("u", vec![cookie("a", "1", Some(i64::MAX))]);
    assert_eq!(saved.to_json(), None);
    assert!(matches!(
        saved.write_cached(),
        Err(CookieCacheError::SerializationError { error: None })
    ));
}

#[test]
fn cache_from_json_text() {
    let scope = "\"header\": \"x\", \"origin\": \"https://site.example/login\"";
    let text = format!(
        "{{\"login_url\": \"https://site/login\", \"cookies\": [\
        {{\"name\": \"a\", \"value\": \"1\", \"expires\": \"2023-11-14T22:13:20Z\", {scope}}},\
        {{\"name\": \"b\", \"value\": \"2\", \"expires\": null, {scope}}},\
        {{\"name\": \"c\", \"value\": \"3\", \"domain\": \"ignored\", {scope}}}]}}"
    );
    let loaded = CookieCache::from_json_text(&text).unwrap();
    assert_eq!(
        loaded,
        cache(
            "https://site/login",
            vec![
                set_by("x", "a", "1", Some(1_700_000_000)),
                set_by("x", "b", "2", None),
                set_by("x", "c", "3", None),
            ],
        )
    );
}

#[test]
fn cache_from_json_text_keeps_expired_cookies() {
    let text = "{\"login_url\": \"u\", \"cookies\": [{\"name\": \"a\", \"value\": \"1\", \
        \"expires\": \"1970-01-01T00:00:10Z\", \"header\": \"a=1\", \
        \"origin\": \"https://site.example/login\"}]}";
    let loaded = CookieCache::from_json_text(text).unwrap();
    assert_eq!(loaded.cookies, vec![cookie("a", "1", Some(10))]);
    assert!(loaded.is_expired_at(10));
}

#[test]
fn cache_from_json_text_rejects() {
    let corrupt = [
        "not json",
        "[]",
        "{}",
        "{\"login_url\": \"u\"}",
        "{\"cookies\": []}",
        "{\"login_url\": 1, \"cookies\": []}",
        "{\"login_url\": \"u\", \"cookies\": {}}",
        "{\"login_url\": \"u\", \"cookies\": [1]}",
        "{\"login_url\": \"u\", \"cookies\": [{\"name\": \"a\"}]}",
        "{\"login_url\": \"u\", \"cookies\": [{\"name\": \"a\", \"value\": 2}]}",
        "{\"login_url\": \"u\", \"cookies\": [{\"name\": \"a\", \"value\": \"1\"}]}",
        "{\"login_url\": \"u\", \"cookies\": [{\"name\": \"a\", \"value\": \"1\", \"header\": \"a=1\"}]}",
        "{\"login_url\": \"u\", \"cookies\": [{\"name\": \"a\", \"value\": \"1\", \"origin\": \"o\"}]}",
        "{\"login_url\": \"u\", \"cookies\": [{\"name\": \"a\", \"value\": \"1\", \"header\": \"a=1\", \"origin\": \"o\", \"expires\": 5}]}",
        "{\"login_url\": \"u\", \"cookies\": [{\"name\": \"a\", \"value\": \"1\", \"header\": \"a=1\", \"origin\": \"o\", \"expires\": \"soon\"}]}",
    ];
    for text in corrupt {
        assert!(
            matches!(
                CookieCache::from_json_text(text),
                Err(CookieCacheError::SerializationError { .. })
            ),
            "{}",
            text
        );
    }
    assert!(matches!(
        CookieCache::from_json_text("not json"),
        Err(CookieCacheError::SerializationError { error: Some(_) })
    ));
    assert!(matches!(
        CookieCache::from_json_text("{}"),
        Err(CookieCacheError::SerializationError { error: None })
    ));
}

#[test]
fn cache_from_cached() {
    assert!(matches!(
        CookieCache::from_cached(CacheFile::Missing),
        Err(CookieCacheError::DoesNotExist)
    ));
    assert!(matches!(
        CookieCache::from_cached(CacheFile::Unreadable),
        Err(CookieCacheError::FileSystemError)
    ));
    assert!(matches!(
        CookieCache::from_cached(CacheFile::Contents("corrupt".to_string())),
        Err(CookieCacheError::SerializationError { .. })
    ));
    let loaded = CookieCache::from_cached(CacheFile::Contents(
        "{\"login_url\": \"u\", \"cookies\": []}".to_string(),
    ))
    .unwrap();
    assert_eq!(loaded, CookieCache::new("u".to_string()));
}

#[test]
fn cache_ingest_of_what_was_read() {
    let mut cache = CookieCache::new("u".to_string());
    cache.ingest(None, "broken", SITE, 0);
    assert!(cache.is_empty());
    let read = CookieAttributes {
        name: "a".to_string(),
        value: "1".to_string(),
        max_age: Some(60),
        expires: None,
    };
    cache.ingest(Some(read), "a=1; Max-Age=60", SITE, 1_000);
    assert_eq!(cache.cookies, vec![set_by("a=1; Max-Age=60", "a", "1", Some(1_060))]);
    let late = CookieAttributes {
        name: "b".to_string(),
        value: "2".to_string(),
        max_age: Some(i64::MAX),
        expires: None,
    };
    cache.ingest(Some(late), "b=2", SITE, 1_000);
    assert_eq!(cache.cookies.len(), 1);
    let replaced = CookieAttributes {
        name: "a".to_string(),
        value: "3".to_string(),
        max_age: None,
        expires: None,
    };
    cache.ingest(Some(replaced), "a=3", SITE, 2_000);
    assert_eq!(cache.cookies, vec![cookie("a", "3", None)]);
}

#[test]
fn cache_scope_flags() {
    let cache = cache(
        "u",
        vec![
            set_by("a=1; Path=/", "a", "1", None),
            set_by("b=2; Path=/api", "b", "2", None),
            set_by("c=3; Domain=other.example", "c", "3", None),
        ],
    );
    assert_eq!(cache.in_scope_of(&site("/")), vec![true, false, false]);
    assert_eq!(cache.in_scope_of(&site("/api")), vec![true, true, false]);
    assert!(CookieCache::new("u".to_string()).in_scope_of(&site("/")).is_empty());
}

#[test]
fn cache_cookie_header_of_a_selection() {
    let cache =
        cache("u", vec![cookie("a", "1", None), cookie("b", "2", None), cookie("c", "3", None)]);
    assert_eq!(cache.cookie_header_of(&vec![true, true, true]), Some("a=1; b=2; c=3".to_string()));
    assert_eq!(cache.cookie_header_of(&vec![true, false, true]), Some("a=1; c=3".to_string()));
    assert_eq!(cache.cookie_header_of(&vec![false, true, false]), Some("b=2".to_string()));
    assert_eq!(cache.cookie_header_of(&vec![false, false, false]), None);
    assert_eq!(cache.cookie_header_of(&vec![]), None);
    assert_eq!(cache.cookie_header_of(&vec![false, true]), Some("b=2".to_string()));
    assert_eq!(cache.cookie_header_of(&vec![true, false, false, true]), Some("a=1".to_string()));
}
