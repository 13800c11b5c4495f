use firmium::forms::{connect_target, server_display, trim_end_char, trim_start_str, trimmed_nonempty};

#[test]
fn names_are_trimmed_and_blank_ones_refused() {
    assert_eq!(trimmed_nonempty("  Road trip \n"), Some("Road trip".to_string()));
    assert_eq!(trimmed_nonempty(" \t\n"), None);
    assert_eq!(trimmed_nonempty(""), None);
    assert_eq!(trimmed_nonempty("\u{3000}jazz\u{a0}"), Some("jazz".to_string()));
}

#[test]
fn login_form_needs_server_and_user() {
    assert_eq!(
        connect_target("  https://music.example.com// ", " alice "),
        Some(("https://music.example.com".to_string(), "alice".to_string()))
    );
    assert_eq!(connect_target(" /// ", "alice"), None);
    assert_eq!(connect_target("https://x", "   "), None);
    assert_eq!(connect_target("", ""), None);
}

#[test]
fn server_addresses_are_shown_without_scheme() {
    assert_eq!(server_display("https://music.example.com/"), "music.example.com");
    assert_eq!(server_display("http://10.0.0.2:4533//"), "10.0.0.2:4533");
    assert_eq!(server_display("https://https://x/"), "x");
    assert_eq!(server_display("ftp://x"), "ftp://x");
    assert_eq!(server_display(""), "");
}

#[test]
fn pattern_trimming_matches_std() {
    for s in ["", "/", "a//", "//a", "abc", "ab/c/"] {
        assert_eq!(trim_end_char(s, '/'), s.trim_end_matches('/'));
    }
    for s in ["", "ab", "abab", "ababa", "ba", "a"] {
        assert_eq!(trim_start_str(s, "ab"), s.trim_start_matches("ab"));
    }
}
