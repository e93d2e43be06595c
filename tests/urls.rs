use instagres::error::InstagresError;
use instagres::referrer::{is_blank, is_white_space};
use instagres::{base_url_with_id, create_url, create_url_with_id, get_base_url};

const PREFIX: &str = "https://neon.new/api/v1/database/";

fn request_id_of(url: &str) -> &str {
    let rest = url.strip_prefix(PREFIX).expect("url starts with the database prefix");
    let end = rest.find('?').expect("url has a query");
    &rest[..end]
}

#[test]
fn test_get_base_url() {
    let result = get_base_url("tester123");
    assert!(result.is_ok());
    assert!(result.unwrap().contains("referrer=tester123"));
}

#[test]
fn test_empty_referrer() {
    let result = get_base_url("");
    assert!(result.is_err());
    assert_eq!(result.unwrap_err().message(), "referrer is required and cannot be empty");
}

#[test]
fn whitespace_referrer_is_refused() {
    for referrer in [" ", "\t", "  \n\r ", "\u{3000}", "\u{a0}\u{2028}"] {
        assert_eq!(get_base_url(referrer), Err(InstagresError::InvalidArgument));
        assert_eq!(create_url(referrer), Err(InstagresError::InvalidArgument));
        assert_eq!(base_url_with_id(referrer, "id"), Err(InstagresError::InvalidArgument));
        assert_eq!(create_url_with_id(referrer, "id"), Err(InstagresError::InvalidArgument));
    }
}

#[test]
fn referrer_with_inner_space_is_accepted() {
    let url = get_base_url(" a b ").unwrap();
    assert!(url.ends_with("?referrer= a b "));
}

#[test]
fn base_url_with_id_is_exact() {
    assert_eq!(
        base_url_with_id("tester123", "abc").unwrap(),
        "https://neon.new/api/v1/database/abc?referrer=tester123"
    );
}

#[test]
fn create_url_with_id_is_exact() {
    assert_eq!(
        create_url_with_id("tester123", "abc").unwrap(),
        "https://neon.new/api/v1/database/abc?referrer=tester123/create"
    );
}

#[test]
fn referrer_is_not_escaped() {
    assert_eq!(
        base_url_with_id("a&b=c d", "abc").unwrap(),
        "https://neon.new/api/v1/database/abc?referrer=a&b=c d"
    );
}

#[test]
fn create_target_ends_in_create_and_raw_does_not() {
    let create = create_url("tester123").unwrap();
    let raw = get_base_url("tester123").unwrap();
    assert!(create.ends_with("/create"));
    assert!(!raw.ends_with("/create"));
    assert!(create.contains("referrer=tester123"));
    assert!(raw.contains("referrer=tester123"));
}

#[test]
fn two_urls_for_one_referrer_differ() {
    let first = get_base_url("tester123").unwrap();
    let second = get_base_url("tester123").unwrap();
    assert_ne!(first, second);
    assert!(first.contains("referrer=tester123"));
    assert!(second.contains("referrer=tester123"));
}

#[test]
fn minted_identifier_is_hyphenated_version_seven() {
    let url = get_base_url("tester123").unwrap();
    let id: Vec<char> = request_id_of(&url).chars().collect();
    assert_eq!(id.len(), 36);
    for (i, c) in id.iter().enumerate() {
        if i == 8 || i == 13 || i == 18 || i == 23 {
            assert_eq!(*c, '-');
        } else {
            assert!(c.is_ascii_hexdigit() && !c.is_ascii_uppercase());
        }
    }
    assert_eq!(id[14], '7');
    assert!(matches!(id[19], '8' | '9' | 'a' | 'b'));
}

#[test]
fn minted_identifiers_are_ordered() {
    let first = get_base_url("r").unwrap();
    let second = create_url("r").unwrap();
    assert!(request_id_of(&first) < request_id_of(&second));
}

#[test]
fn white_space_matches_std() {
    for u in 0u32..=0x10FFFF {
        if let Some(c) = char::from_u32(u) {
            assert_eq!(is_white_space(c), c.is_whitespace(), "U+{:04X}", u);
        }
    }
}

#[test]
fn blank_matches_trim() {
    for s in ["", " ", "x", " x ", "\u{85}", "\u{200b}", "\t\u{205f}\u{3000}"] {
        assert_eq!(is_blank(s), s.trim().is_empty(), "{:?}", s);
    }
}

#[test]
fn error_messages() {
    assert_eq!(
        InstagresError::InvalidArgument.message(),
        "referrer is required and cannot be empty"
    );
    assert_eq!(InstagresError::Transport("connection refused".to_string()).message(), "connection refused");
    assert_eq!(InstagresError::Deserialization("expected value".to_string()).message(), "expected value");
}
