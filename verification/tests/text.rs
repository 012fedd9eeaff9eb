use dualpane::text::{join, parent_dir, render_template, str_eq, str_lex_le, str_starts_with};

#[test]
fn join_adds_separator() {
    assert_eq!(join("/tmp/a", "file.txt"), "/tmp/a/file.txt");
}

#[test]
fn join_keeps_existing_separator() {
    assert_eq!(join("/tmp/a/", "file.txt"), "/tmp/a/file.txt");
}

#[test]
fn join_from_root() {
    assert_eq!(join("/", "etc"), "/etc");
}

#[test]
fn parent_of_nested_path() {
    assert_eq!(parent_dir("/a/b"), Some("/a".to_string()));
}

#[test]
fn parent_of_top_level_path_is_root() {
    assert_eq!(parent_dir("/a"), Some("/".to_string()));
}

#[test]
fn root_has_no_parent() {
    assert_eq!(parent_dir("/"), None);
}

#[test]
fn bare_name_has_no_parent() {
    assert_eq!(parent_dir("name"), None);
}

#[test]
fn template_substitutes_every_placeholder() {
    assert_eq!(render_template("%p --flag %p", "/x y"), "/x y --flag /x y");
}

#[test]
fn template_without_placeholder_is_kept() {
    assert_eq!(render_template("-n", "/x"), "-n");
}

#[test]
fn template_lone_percent_is_kept() {
    assert_eq!(render_template("100% %q %", "/x"), "100% %q %");
}

#[test]
fn lexicographic_order_on_slices() {
    assert!(str_lex_le("abc", "abd"));
    assert!(!str_lex_le("abd", "abc"));
    assert!(str_lex_le("ab", "abc"));
    assert!(str_lex_le("abc", "abc"));
    assert!(!str_lex_le("b", "aaaa"));
}

#[test]
fn prefix_test_on_slices() {
    assert!(str_starts_with("file.txt", "fi"));
    assert!(str_starts_with("file.txt", ""));
    assert!(!str_starts_with("file.txt", "file.txt.bak"));
    assert!(!str_starts_with("file.txt", "g"));
}

#[test]
fn slice_equality() {
    assert!(str_eq("same", "same"));
    assert!(!str_eq("same", "sama"));
    assert!(!str_eq("same", "sam"));
}
