use space_checker::parse_query;

fn parsed(body: &str) -> Option<u64> {
    match parse_query(body.as_bytes()) {
        Ok(q) => Some(q.requested),
        Err(_) => None,
    }
}

#[test]
fn parse_plain_body() {
    assert_eq!(parsed("{\"requested\":42}"), Some(42));
}

#[test]
fn parse_body_with_spaces() {
    assert_eq!(parsed("{ \"requested\": 1 }"), Some(1));
}

#[test]
fn parse_body_with_all_whitespace_kinds() {
    assert_eq!(parsed(" \t\r\n{ \"requested\" \t: \n 123 \r} \n"), Some(123));
}

#[test]
fn parse_zero() {
    assert_eq!(parsed("{\"requested\":0}"), Some(0));
}

#[test]
fn parse_largest_value() {
    assert_eq!(parsed("{\"requested\":18446744073709551615}"), Some(u64::MAX));
}

#[test]
fn parse_value_too_large() {
    assert_eq!(parsed("{\"requested\":18446744073709551616}"), None);
    assert_eq!(parsed("{\"requested\":99999999999999999999999999}"), None);
}

#[test]
fn parse_rejects_leading_zero() {
    assert_eq!(parsed("{\"requested\":01}"), None);
    assert_eq!(parsed("{\"requested\":007}"), None);
}

#[test]
fn parse_rejects_non_integer_values() {
    assert_eq!(parsed("{\"requested\":1.5}"), None);
    assert_eq!(parsed("{\"requested\":-1}"), None);
    assert_eq!(parsed("{\"requested\":\"1\"}"), None);
    assert_eq!(parsed("{\"requested\":true}"), None);
    assert_eq!(parsed("{\"requested\":null}"), None);
}

#[test]
fn parse_rejects_missing_or_wrong_field() {
    assert_eq!(parsed(""), None);
    assert_eq!(parsed("{}"), None);
    assert_eq!(parsed("{\"wanted\":1}"), None);
    assert_eq!(parsed("{\"Requested\":1}"), None);
    assert_eq!(parsed("{requested:1}"), None);
}

#[test]
fn parse_rejects_non_json() {
    assert_eq!(parsed("not json"), None);
    assert_eq!(parsed("[1]"), None);
    assert_eq!(parsed("42"), None);
}

#[test]
fn parse_rejects_trailing_or_leading_garbage() {
    assert_eq!(parsed("{\"requested\":1}x"), None);
    assert_eq!(parsed("x{\"requested\":1}"), None);
    assert_eq!(parsed("{\"requested\":1}{\"requested\":2}"), None);
}

#[test]
fn parse_rejects_unclosed_object() {
    assert_eq!(parsed("{\"requested\":1"), None);
    assert_eq!(parsed("\"requested\":1}"), None);
}

#[test]
fn parse_rejects_extra_fields() {
    assert_eq!(parsed("{\"requested\":1,\"other\":2}"), None);
}

#[test]
fn parse_rejects_space_inside_number() {
    assert_eq!(parsed("{\"requested\":1 2}"), None);
}
