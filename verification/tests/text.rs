use kiro_account_manager::text::{chars_of, contains_chars, starts_with, string_of, trim_chars};

#[test]
fn trimming_matches_str_trim() {
    for s in ["", "  ", " a b ", "\u{3000}x\u{2028}", "\t\r\nq\u{85}", "a", "\u{200b}x"] {
        let t = trim_chars(&chars_of(s));
        assert_eq!(string_of(&t), s.trim());
    }
}

#[test]
fn substring_search() {
    let s = chars_of("xxelectron.exe");
    assert!(contains_chars(&s, &chars_of("electron.exe")));
    assert!(contains_chars(&s, &chars_of("")));
    assert!(!contains_chars(&s, &chars_of("electron.exes")));
    assert!(starts_with("kiro://", "kiro"));
    assert!(!starts_with("ki", "kiro"));
}
