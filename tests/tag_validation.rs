use mail_test_account::{check_tag, create_file_name, tag_is_valid, valid_tag_bch, Error};

#[test]
fn min_tag_len_1() {
    assert_eq!(tag_is_valid(""), false);
    assert_eq!(tag_is_valid("a"), true);
}

#[test]
fn rejects_slash_and_backslash() {
    assert_eq!(tag_is_valid("/"), false);
    assert_eq!(tag_is_valid("\\"), false);
    assert_eq!(tag_is_valid("a/"), false);
    assert_eq!(tag_is_valid("a\\"), false);
    assert_eq!(tag_is_valid("a/a"), false);
    assert_eq!(tag_is_valid("a\\a"), false);
}

#[test]
fn rejects_space() {
    assert_eq!(tag_is_valid("a b"), false);
    assert_eq!(tag_is_valid("a\tb"), false);
    assert_eq!(tag_is_valid("a\rb"), false);
    assert_eq!(tag_is_valid("a\nb"), false);
    assert_eq!(tag_is_valid("a b"), false);
}

#[test]
fn allow_hyphon_and_underline() {
    assert_eq!(tag_is_valid("-"), true);
    assert_eq!(tag_is_valid("-a"), true);
    assert_eq!(tag_is_valid("a-"), true);
    assert_eq!(tag_is_valid("a-b"), true);
    assert_eq!(tag_is_valid("_"), true);
    assert_eq!(tag_is_valid("_a"), true);
    assert_eq!(tag_is_valid("a_"), true);
    assert_eq!(tag_is_valid("a_b"), true);
}

#[test]
fn accepts_letters_and_digits() {
    assert!(tag_is_valid("test_account"));
    assert!(tag_is_valid("ABCxyz0189"));
    assert!(tag_is_valid("Z9-_z0"));
}

#[test]
fn rejects_other_ascii_and_non_ascii() {
    assert!(!tag_is_valid("a.b"));
    assert!(!tag_is_valid(".."));
    assert!(!tag_is_valid("a@b"));
    assert!(!tag_is_valid("a:b"));
    assert!(!tag_is_valid("ä"));
    assert!(!tag_is_valid("a\u{0}b"));
    assert!(!tag_is_valid("[]"));
    assert!(!tag_is_valid("`"));
}

#[test]
fn tag_byte_boundaries() {
    for b in 0u8..=255 {
        let expected = b.is_ascii_alphanumeric() || b == b'_' || b == b'-';
        assert_eq!(valid_tag_bch(b), expected, "byte {}", b);
    }
}

#[test]
fn check_tag_reports_invalid_tag() {
    assert_eq!(check_tag("ok-tag"), Ok(()));
    assert_eq!(check_tag("a/b"), Err(Error::InvalidTag("a/b".to_string())));
    assert_eq!(check_tag(""), Err(Error::InvalidTag(String::new())));
}

#[test]
fn file_name_appends_json_extension() {
    assert_eq!(create_file_name("test_account"), Ok("test_account.json".to_string()));
    assert_eq!(create_file_name("a"), Ok("a.json".to_string()));
    assert_eq!(create_file_name("../x"), Err(Error::InvalidTag("../x".to_string())));
}

#[test]
fn invalid_tag_message_names_the_tag() {
    let err = check_tag("a b").unwrap_err();
    assert_eq!(err.message(), "invalid tag, tag must match [a-Z0-9_-]+ but got: \"a b\"");
    let err = check_tag("a\"b\\c\n").unwrap_err();
    assert_eq!(
        err.message(),
        r#"invalid tag, tag must match [a-Z0-9_-]+ but got: "a\"b\\c\n""#
    );
}
