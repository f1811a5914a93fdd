use fedora::json::JsonError;
use fedora::Json;

fn text(s: &str) -> Json {
    Json::Text(s.to_string())
}

#[test]
fn json_parse_scalars() {
    assert_eq!(Json::parse("null").unwrap(), Json::Null);
    assert_eq!(Json::parse("true").unwrap(), Json::Bool(true));
    assert_eq!(Json::parse("false").unwrap(), Json::Bool(false));
    assert_eq!(Json::parse("\"a\\nb\"").unwrap(), text("a\nb"));
    assert_eq!(Json::parse("12").unwrap(), Json::Number("12".to_string()));
    assert_eq!(Json::parse("-3").unwrap(), Json::Number("-3".to_string()));
    assert_eq!(Json::parse("1.5").unwrap(), Json::Number("1.5".to_string()));
}

#[test]
fn json_parse_nested() {
    let doc = Json::parse("{\"a\": [1, {\"b\": null}], \"c\": \"d\"}").unwrap();
    assert_eq!(
        doc,
        Json::Object(vec![
            (
                "a".to_string(),
                Json::List(vec![
                    Json::Number("1".to_string()),
                    Json::Object(vec![("b".to_string(), Json::Null)]),
                ]),
            ),
            ("c".to_string(), text("d")),
        ])
    );
}

#[test]
fn json_parse_rejects() {
    assert!(Json::parse("not json").is_err());
    assert!(Json::parse("").is_err());
    assert!(Json::parse("{\"a\": }").is_err());
    assert!(Json::parse("{} trailing").is_err());
}

#[test]
fn json_member_finds_the_first() {
    let doc = Json::Object(vec![
        ("a".to_string(), text("1")),
        ("b".to_string(), text("2")),
        ("a".to_string(), text("3")),
    ]);
    assert_eq!(doc.member("a"), Some(&text("1")));
    assert_eq!(doc.member("b"), Some(&text("2")));
    assert_eq!(doc.member("c"), None);
    assert_eq!(text("a").member("a"), None);
    assert_eq!(Json::List(vec![text("a")]).member("a"), None);
}

#[test]
fn json_take_member_finds_the_first() {
    let doc = Json::Object(vec![
        ("a".to_string(), text("1")),
        ("b".to_string(), text("2")),
        ("a".to_string(), text("3")),
    ]);
    assert_eq!(doc.take_member("a"), Some(text("1")));
    assert_eq!(Json::Null.take_member("a"), None);
    assert_eq!(Json::Object(vec![]).take_member("a"), None);
}

#[test]
fn json_as_text_and_as_bool() {
    assert_eq!(text("x").as_text(), Some(&"x".to_string()));
    assert_eq!(Json::Null.as_text(), None);
    assert_eq!(Json::Bool(true).as_bool(), Some(true));
    assert_eq!(Json::Bool(false).as_bool(), Some(false));
    assert_eq!(text("true").as_bool(), None);
}

#[test]
fn json_render_round_trip() {
    let doc = Json::Object(vec![
        ("flag".to_string(), Json::Bool(true)),
        ("list".to_string(), Json::List(vec![Json::Null, Json::Number("7".to_string())])),
        ("text".to_string(), text("quote \" and \\ backslash")),
    ]);
    let rendered = doc.render().unwrap();
    assert!(rendered.contains('\n'));
    assert_eq!(Json::parse(&rendered).unwrap(), doc);
}

#[test]
fn json_render_scalar() {
    assert_eq!(Json::Null.render().unwrap(), "null");
    assert_eq!(text("a").render().unwrap(), "\"a\"");
    assert_eq!(Json::Number("10".to_string()).render().unwrap(), "10");
    assert_eq!(Json::Bool(true).render().unwrap(), "true");
    assert_eq!(Json::Number("-2.5".to_string()).render().unwrap(), "-2.5");
    assert_eq!(Json::List(vec![]).render().unwrap(), "[]");
    assert_eq!(Json::Object(vec![]).render().unwrap(), "{}");
}

#[test]
fn json_render_is_indented() {
    let doc = Json::Object(vec![("a".to_string(), Json::List(vec![Json::Bool(false)]))]);
    assert_eq!(doc.render().unwrap(), "{\n  \"a\": [\n    false\n  ]\n}");
}

#[test]
fn json_render_needs_digits() {
    assert_eq!(Json::Number("no number".to_string()).render(), None);
    assert_eq!(Json::Number("[1]".to_string()).render(), None);
    let doc = Json::List(vec![Json::Null, Json::Number("".to_string())]);
    assert_eq!(doc.render(), None);
    let doc = Json::Object(vec![("a".to_string(), Json::Number("x".to_string()))]);
    assert_eq!(doc.render(), None);
}

#[test]
fn json_render_keeps_the_later_of_two_members() {
    let doc = Json::Object(vec![
        ("a".to_string(), Json::Bool(true)),
        ("a".to_string(), Json::Bool(false)),
    ]);
    let read = Json::parse(&doc.render().unwrap()).unwrap();
    assert_eq!(read, Json::Object(vec![("a".to_string(), Json::Bool(false))]));
}

#[test]
fn json_parse_errors() {
    assert!(matches!(Json::parse("not json"), Err(JsonError::Syntax { .. })));
    assert!(matches!(Json::parse("[1, 2"), Err(JsonError::Syntax { .. })));
}

#[test]
fn json_parse_nested_deeply() {
    let depth = 100;
    let text = format!("{}1{}", "[".repeat(depth), "]".repeat(depth));
    let mut doc = Json::parse(&text).unwrap();
    for _ in 0..depth {
        doc = match doc {
            Json::List(mut items) => {
                assert_eq!(items.len(), 1);
                items.pop().unwrap()
            },
            other => panic!("no list: {:?}", other),
        };
    }
    assert_eq!(doc, Json::Number("1".to_string()));
    let depth = 300;
    let text = format!("{}1{}", "[".repeat(depth), "]".repeat(depth));
    assert!(Json::parse(&text).is_err());
}

#[test]
fn json_text_field() {
    let doc = Json::parse("{\"a\": \"x\", \"b\": 1}").unwrap();
    assert_eq!(fedora::json::text_field(&doc, "a"), Some("x".to_string()));
    assert_eq!(fedora::json::text_field(&doc, "b"), None);
    assert_eq!(fedora::json::text_field(&doc, "c"), None);
}
