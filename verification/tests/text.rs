use fpush::text::{starts_with, text_eq};

#[test]
fn starts_with_finds_a_prefix() {
    assert!(starts_with("application/json; charset=utf-8", "application/json"));
    assert!(starts_with("application/json", "application/json"));
    assert!(starts_with("anything", ""));
    assert!(starts_with("", ""));
}

#[test]
fn starts_with_rejects_what_is_no_prefix() {
    assert!(!starts_with("application/jso", "application/json"));
    assert!(!starts_with("text/plain", "application/json"));
    assert!(!starts_with("", "a"));
    assert!(!starts_with(" application/json", "application/json"));
    assert!(!starts_with("Application/json", "application/json"));
}

#[test]
fn starts_with_counts_characters() {
    assert!(starts_with("日本語テキスト", "日本"));
    assert!(!starts_with("日本語テキスト", "本"));
}

#[test]
fn text_eq_compares_characters() {
    assert!(text_eq("", ""));
    assert!(text_eq("acrobits", "acrobits"));
    assert!(!text_eq("acrobits", "acrobit"));
    assert!(!text_eq("acrobits", "Acrobits"));
    assert!(!text_eq("a", ""));
    assert!(text_eq("é€𝄞", "é€𝄞"));
    assert!(!text_eq("é", "e"));
}
