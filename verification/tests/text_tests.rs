use codecell::text::{contains_sub, str_eq, str_lex_le, to_lowercase_str};

#[test]
fn string_equality_is_by_characters() {
    assert!(str_eq("", ""));
    assert!(str_eq("abc", "abc"));
    assert!(!str_eq("abc", "abd"));
    assert!(!str_eq("abc", "ab"));
    assert!(str_eq("über", "über"));
}

#[test]
fn substring_search_finds_runs() {
    assert!(contains_sub("ubuntu jammy", "ubuntu"));
    assert!(contains_sub("a fedora box", "fedora"));
    assert!(contains_sub("anything", ""));
    assert!(!contains_sub("debian", "fedora"));
    assert!(!contains_sub("ub", "ubuntu"));
    assert!(contains_sub("xxabyxaby", "aby"));
}

#[test]
fn lexicographic_order_by_code_point() {
    assert!(str_lex_le("", "a"));
    assert!(str_lex_le("a", "a"));
    assert!(str_lex_le("a", "b"));
    assert!(!str_lex_le("b", "a"));
    assert!(str_lex_le("ab", "abc"));
    assert!(!str_lex_le("abc", "ab"));
    // Uppercase letters come before lowercase ones.
    assert!(str_lex_le("Z", "a"));
}

#[test]
fn lowercase_folds_names() {
    assert_eq!(to_lowercase_str("CONSOLAS"), "consolas");
    assert_eq!(to_lowercase_str(""), "");
    assert_eq!(to_lowercase_str("Fira Code"), "fira code");
}
