use populatrs::json::{json_shown, json_text, json_u64};

#[test]
fn values_are_found_at_pointers() {
    let body = "{\"a\":{\"b\":\"text\",\"n\":42,\"neg\":-1,\"list\":[\"x\",{\"k\":null}]},\"s\":\"top\"}";
    assert_eq!(json_text(body, "/s"), Some(Some("top".to_string())));
    assert_eq!(json_text(body, "/a/b"), Some(Some("text".to_string())));
    assert_eq!(json_text(body, "/a/list/0"), Some(Some("x".to_string())));
    assert_eq!(json_text(body, "/a/n"), Some(None));
    assert_eq!(json_text(body, "/missing"), Some(None));
    assert_eq!(json_text(body, "s"), Some(None));
    assert_eq!(json_text("not json", "/s"), None);
    assert_eq!(json_u64(body, "/a/n"), Some(Some(42)));
    assert_eq!(json_u64(body, "/a/neg"), Some(None));
    assert_eq!(json_u64(body, "/a/b"), Some(None));
    assert_eq!(json_u64("", "/a"), None);
    assert_eq!(json_shown(body, "/a/n").as_deref(), Some("42"));
    assert_eq!(json_shown(body, "/a/b").as_deref(), Some("\"text\""));
    assert_eq!(json_shown(body, "/a/list/1").as_deref(), Some("{\"k\":null}"));
    assert_eq!(json_shown(body, "/nowhere").as_deref(), Some("null"));
    assert_eq!(json_shown("{", "/a"), None);
}
