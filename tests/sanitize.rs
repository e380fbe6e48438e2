use webrust::validation::sanitize_for_logging;

#[test]
fn detail_with_newline_and_long_input_is_stripped_and_capped() {
    let mut input = String::from("login\nfailed ");
    input.push_str(&"x".repeat(500));
    let out = sanitize_for_logging(&input);
    assert!(!out.contains('\n'));
    assert_eq!(out.len(), 256);
    assert!(out.starts_with("loginfailed x"));
}

#[test]
fn tab_and_space_are_kept_other_controls_removed() {
    assert_eq!(sanitize_for_logging("a\tb c\r\u{7f}\u{85}d"), "a\tb cd");
}

#[test]
fn surrounding_white_space_is_trimmed() {
    assert_eq!(sanitize_for_logging("  hello  "), "hello");
    assert_eq!(sanitize_for_logging(""), "");
}

#[test]
fn truncation_never_splits_a_character() {
    let input = "é".repeat(200);
    let out = sanitize_for_logging(&input);
    assert_eq!(out.len(), 256);
    assert_eq!(out.chars().count(), 128);
}
