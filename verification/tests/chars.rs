use codex::chars::{
    chars_of, is_blank, normalize_pasted, same_text, split_lines, uppercase_starts_with,
};

#[test]
fn lines_end_at_line_feeds() {
    let text = "a\r\nb\n\nc\r";
    assert_eq!(split_lines(text), vec!["a", "b", "", "c\r"]);
    assert_eq!(split_lines(text), text.lines().collect::<Vec<_>>());
}

#[test]
fn last_line_needs_no_ending() {
    for text in [
        "", "\n", "\r\n", "a", "a\n", "a\r", "\ra", "a\n\n", "\r\r\n", "a\rb\nc", "ä\n✓\r\n",
    ] {
        assert_eq!(split_lines(text), text.lines().collect::<Vec<_>>());
    }
}

#[test]
fn blank_text_is_white_space_only() {
    assert!(is_blank(""));
    assert!(is_blank(" \t\r\n\u{3000}"));
    assert!(!is_blank(" x "));
    assert!(!is_blank("\u{200B}"));
}

#[test]
fn white_space_is_what_unicode_says() {
    for code in 0..=0x10FFFF_u32 {
        if let Some(c) = char::from_u32(code) {
            assert_eq!(is_blank(&c.to_string()), c.is_whitespace());
        }
    }
}

#[test]
fn carriage_returns_become_line_feeds() {
    assert_eq!(normalize_pasted("a\rb\r\nc"), "a\nb\n\nc");
    assert_eq!(normalize_pasted("a\rb\r\nc"), "a\rb\r\nc".replace("\r", "\n"));
    assert_eq!(normalize_pasted(&normalize_pasted("x\ry")), "x\ny");
    assert_eq!(normalize_pasted(""), "");
}

#[test]
fn prefixes_ignore_ascii_case() {
    assert!(uppercase_starts_with("codex_home", "CODEX_"));
    assert!(uppercase_starts_with("CoDeX_", "CODEX_"));
    assert!(!uppercase_starts_with("codex", "CODEX_"));
    assert!(!uppercase_starts_with("MYCODEX_", "CODEX_"));
    assert!(!uppercase_starts_with("ćodex_", "CODEX_"));
    for key in ["", "codex_", "cOdex_x", "CODEX-", "path", "z{|}~", "@[`{"] {
        assert_eq!(
            uppercase_starts_with(key, "CODEX_"),
            key.to_ascii_uppercase().starts_with("CODEX_")
        );
        assert!(uppercase_starts_with(key, &key.to_ascii_uppercase()));
    }
}

#[test]
fn texts_are_compared_by_their_characters() {
    assert!(same_text("user", "user"));
    assert!(!same_text("user", "User"));
    assert!(!same_text("user", "use"));
    assert_eq!(chars_of("aé✓"), vec!['a', 'é', '✓']);
}
