use zeroclaw::codec::Members;
use zeroclaw::json::Json;

#[test]
fn documents_are_parsed_by_kind() {
    let document = Json::parse(r#"[null, true, 7, -7, 0.5, 1e3, "x", [], {"a": 1}]"#).unwrap();
    assert_eq!(
        document,
        Json::Array(vec![
            Json::Null,
            Json::Bool(true),
            Json::Unsigned(7),
            Json::Negative(-7),
            Json::Float("0.5".into()),
            Json::Float("1000.0".into()),
            Json::String("x".into()),
            Json::Array(vec![]),
            Json::Object(vec![("a".into(), Json::Unsigned(1))]),
        ])
    );
}

#[test]
fn largest_integers_are_kept() {
    let document = Json::parse("[18446744073709551615, -9223372036854775808]").unwrap();
    assert_eq!(
        document,
        Json::Array(vec![Json::Unsigned(u64::MAX), Json::Negative(i64::MIN)])
    );
    assert_eq!(document.render(), "[18446744073709551615,-9223372036854775808]");
}

#[test]
fn text_that_is_no_document_is_an_error() {
    assert_eq!(
        Json::parse("nope").unwrap_err(),
        "expected ident at line 1 column 2"
    );
    assert!(Json::parse("").is_err());
    assert!(Json::parse("{} {}").is_err());
}

#[test]
fn documents_are_read_back_from_their_texts() {
    for text in [
        "null",
        "[1,-1,\"a\\n\\\"\u{1f600}\\u0000\",[[]],{}]",
        r#"{"a":{"b":[true,false]},"c":""}"#,
    ] {
        let document = Json::parse(text).unwrap();
        let again = Json::parse(&document.render()).unwrap();
        assert_eq!(document, again);
        assert_eq!(document.copy(), document);
        assert_eq!(document.clone(), document);
    }
}

#[test]
fn documents_are_read_to_the_stated_depth() {
    let deep = |n: usize| "[".repeat(n) + &"]".repeat(n);
    let document = Json::parse(&deep(127)).unwrap();
    assert_eq!(document.render(), deep(127));
    assert!(Json::parse(&deep(128)).is_err());
}

#[test]
fn later_members_count() {
    let document = Json::Object(vec![
        ("a".into(), Json::Unsigned(1)),
        ("a".into(), Json::Unsigned(2)),
    ]);
    assert_eq!(document.get("a"), Some(&Json::Unsigned(2)));
    assert_eq!(document.render(), r#"{"a":2}"#);
    let parsed = Json::parse(r#"{"a":1,"a":2}"#).unwrap();
    assert_eq!(parsed.get("a"), Some(&Json::Unsigned(2)));
}

#[test]
fn members_are_found_by_name_and_kind() {
    let document = Json::parse(r#"{"s":"x","n":3,"z":null}"#).unwrap();
    assert_eq!(document.get_str("s"), Some("x"));
    assert_eq!(document.get_str("n"), None);
    assert_eq!(document.get("n"), Some(&Json::Unsigned(3)));
    assert_eq!(document.get("z"), Some(&Json::Null));
    assert!(document.get("missing").is_none());
    assert!(Json::string("s").get("s").is_none());
    assert!(Json::Null.as_array().is_none());
}

#[test]
fn objects_are_put_together_member_by_member() {
    let mut members = Members::new();
    members.put_str("b", "x");
    members.put("a", Json::array(vec![Json::Null]));
    members.put_str("b", "z");
    assert_eq!(
        members.into_object().render(),
        r#"{"a":[null],"b":"z"}"#
    );
}

#[test]
fn floats_keep_their_value() {
    assert_eq!(Json::Float("0.7".into()).render(), "0.7");
    assert_eq!(Json::Float("1".into()).render(), "1.0");
    assert_eq!(Json::Float("none".into()).render(), "null");
}
