use bakatui::json::{Json, JsonNumber};

fn obj(members: Vec<(&str, Json)>) -> Json {
    Json::Object(members.into_iter().map(|(k, v)| (k.to_string(), v)).collect())
}

#[test]
fn members_of_an_object() {
    let v = obj(vec![
        ("a", Json::Str("x".to_string())),
        ("n", Json::Number(JsonNumber::PosInt(5))),
        ("neg", Json::Number(JsonNumber::NegInt(-5))),
        ("f", Json::Number(JsonNumber::Fractional)),
        ("list", Json::Array(vec![Json::Bool(true)])),
    ]);
    assert!(v.member("a").is_some());
    assert!(v.member("zz").is_none());
    assert_eq!(v.member_str("a").map(|s| s.as_str()), Some("x"));
    assert_eq!(v.member_str("n"), None);
    assert_eq!(v.member_u64("n"), Some(5));
    assert_eq!(v.member_u64("neg"), None);
    assert_eq!(v.member_u64("f"), None);
    assert_eq!(v.member_array("list").map(|a| a.len()), Some(1));
    assert!(v.member_array("a").is_none());
}

#[test]
fn members_of_other_values_are_null() {
    assert!(Json::Null.member("a").is_none());
    assert!(Json::Array(vec![]).member_str("a").is_none());
    assert_eq!(Json::Str("a".to_string()).member_u64("a"), None);
}
