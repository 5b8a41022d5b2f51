use wrldbldr_domain::common::{none_if_empty, some_if_not_empty, StringExt};

#[test]
fn test_none_if_empty_with_content() {
    assert_eq!(none_if_empty("hello"), Some("hello"));
    assert_eq!(none_if_empty("a"), Some("a"));
    assert_eq!(none_if_empty("hello world"), Some("hello world"));
}

#[test]
fn test_none_if_empty_empty_string() {
    assert_eq!(none_if_empty(""), None);
}

#[test]
fn test_none_if_empty_whitespace_is_not_empty() {
    assert_eq!(none_if_empty(" "), Some(" "));
    assert_eq!(none_if_empty("\t"), Some("\t"));
    assert_eq!(none_if_empty("\n"), Some("\n"));
    assert_eq!(none_if_empty("   "), Some("   "));
}

#[test]
fn test_some_if_not_empty_with_content() {
    assert_eq!(
        some_if_not_empty("hello".to_string()),
        Some("hello".to_string())
    );
}

#[test]
fn test_some_if_not_empty_empty_string() {
    assert_eq!(some_if_not_empty(String::new()), None);
    assert_eq!(some_if_not_empty("".to_string()), None);
}

#[test]
fn test_string_ext_into_option() {
    assert_eq!("hello".to_string().into_option(), Some("hello".to_string()));
    assert_eq!(String::new().into_option(), None);
}

#[test]
fn test_string_ext_whitespace() {
    assert_eq!(" ".to_string().into_option(), Some(" ".to_string()));
}
