use idempotency::idempotency_key::{IdempotencyKey, ValidationError};
use idempotency::newsletter::FormData;

#[test]
fn empty_key_rejected() {
    let r = IdempotencyKey::try_from(String::new());
    assert!(matches!(r, Err(ValidationError::EmptyKey)));
}

#[test]
fn fifty_chars_rejected() {
    let r = IdempotencyKey::try_from("a".repeat(50));
    assert!(matches!(r, Err(ValidationError::TooLong)));
}

#[test]
fn over_fifty_chars_rejected() {
    let r = IdempotencyKey::try_from("a".repeat(120));
    assert!(matches!(r, Err(ValidationError::TooLong)));
}

#[test]
fn forty_nine_chars_accepted() {
    let raw = "a".repeat(49);
    let key = IdempotencyKey::try_from(raw.clone()).unwrap();
    assert_eq!(key.into(), raw);
}

#[test]
fn one_char_accepted() {
    let key = IdempotencyKey::try_from("x".to_string()).unwrap();
    assert_eq!(key.as_str(), "x");
}

#[test]
fn token_preserved_exactly() {
    let key = IdempotencyKey::try_from("retry-123".to_string()).unwrap();
    assert_eq!(key.as_str(), "retry-123");
    assert_eq!(key.into(), "retry-123".to_string());
}

#[test]
fn length_counts_characters_not_bytes() {
    // 49 two-byte characters: 98 bytes, but only 49 characters, so accepted.
    let raw = "\u{e9}".repeat(49);
    assert!(raw.len() > 50);
    let key = IdempotencyKey::try_from(raw.clone()).unwrap();
    assert_eq!(key.into(), raw);
    // 50 of them are one character too many.
    let r = IdempotencyKey::try_from("\u{e9}".repeat(50));
    assert!(matches!(r, Err(ValidationError::TooLong)));
}

#[test]
fn key_eq_compares_tokens() {
    let a = IdempotencyKey::try_from("same".to_string()).unwrap();
    let b = IdempotencyKey::try_from("same".to_string()).unwrap();
    let c = IdempotencyKey::try_from("other".to_string()).unwrap();
    assert!(a.key_eq(&b));
    assert!(!a.key_eq(&c));
}

#[test]
fn form_with_valid_key_splits() {
    let form = FormData {
        title: "Issue 1".to_string(),
        text_content: "plain".to_string(),
        html_content: "<p>html</p>".to_string(),
        idempotency_key: "retry-123".to_string(),
    };
    let (issue, key) = form.into_parts().unwrap();
    assert_eq!(issue.title, "Issue 1");
    assert_eq!(issue.text_content, "plain");
    assert_eq!(issue.html_content, "<p>html</p>");
    assert_eq!(key.as_str(), "retry-123");
}

#[test]
fn form_with_empty_key_rejected() {
    let form = FormData {
        title: "Issue 1".to_string(),
        text_content: "plain".to_string(),
        html_content: "<p>html</p>".to_string(),
        idempotency_key: String::new(),
    };
    assert!(matches!(form.into_parts(), Err(ValidationError::EmptyKey)));
}

#[test]
fn form_with_long_key_rejected() {
    let form = FormData {
        title: "Issue 1".to_string(),
        text_content: "plain".to_string(),
        html_content: "<p>html</p>".to_string(),
        idempotency_key: "k".repeat(50),
    };
    assert!(matches!(form.into_parts(), Err(ValidationError::TooLong)));
}
