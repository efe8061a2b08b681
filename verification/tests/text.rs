use linkrusk::text::{chars_of, has_prefix, has_suffix, join, same_text, strip_prefix, strip_suffix};

#[test]
fn chars_of_keeps_every_character() {
    assert_eq!(chars_of(""), Vec::<char>::new());
    assert_eq!(chars_of("a/b"), vec!['a', '/', 'b']);
    assert_eq!(chars_of("é✓"), vec!['é', '✓']);
}

#[test]
fn same_text_compares_character_for_character() {
    assert!(same_text("", ""));
    assert!(same_text("xY9", "xY9"));
    assert!(!same_text("xY9", "xy9"));
    assert!(!same_text("xY9", "xY"));
    assert!(!same_text("xY", "xY9"));
}

#[test]
fn has_prefix_and_suffix() {
    assert!(has_prefix("https://a", "https://"));
    assert!(has_prefix("https://a", ""));
    assert!(!has_prefix("http", "http://"));
    assert!(!has_prefix("ftp://a", "http://"));
    assert!(has_suffix("a/b/", "/"));
    assert!(!has_suffix("a/b", "/"));
    assert!(!has_suffix("", "/"));
    assert!(has_suffix("/", "/"));
}

#[test]
fn strip_prefix_removes_one_prefix() {
    assert_eq!(strip_prefix("l.example.com/xY9", "l.example.com/"), "xY9");
    assert_eq!(strip_prefix("ababc", "ab"), "abc");
    assert_eq!(strip_prefix("xY9", "l.example.com/"), "xY9");
    assert_eq!(strip_prefix("", "a"), "");
    assert_eq!(strip_prefix("é/ü", "é/"), "ü");
}

#[test]
fn strip_suffix_removes_one_suffix() {
    assert_eq!(strip_suffix("https://a/", "/"), "https://a");
    assert_eq!(strip_suffix("https://a//", "/"), "https://a/");
    assert_eq!(strip_suffix("https://a", "/"), "https://a");
    assert_eq!(strip_suffix("", "/"), "");
    assert_eq!(strip_suffix("ü/é", "/é"), "ü");
}

#[test]
fn join_puts_the_second_behind_the_first() {
    assert_eq!(join("/link/", "xY9"), "/link/xY9");
    assert_eq!(join("", ""), "");
}
