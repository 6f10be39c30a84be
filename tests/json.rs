use tg_bot::json::Json;

#[test]
fn lookup_finds_first_member() {
    let j = Json::Object(vec![
        ("a".to_string(), Json::Int(1)),
        ("b".to_string(), Json::Bool(true)),
        ("a".to_string(), Json::Int(2)),
    ]);
    assert!(matches!(j.get("a"), Some(Json::Int(1))));
    assert!(matches!(j.get("b"), Some(Json::Bool(true))));
    assert!(j.get("c").is_none());
    assert!(Json::Null.get("a").is_none());
    assert_eq!(j.opt_int_member("a"), Some(Some(1)));
    assert_eq!(j.opt_int_member("b"), None);
    assert_eq!(j.opt_bool_member("c"), Some(None));
}
