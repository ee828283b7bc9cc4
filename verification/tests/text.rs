use voice_typing::context::{frontmost_app_name_from_output, get_tone_for_app, is_blacklisted};
use voice_typing::text::{
    chars_of, contains_chars, find_char, is_whitespace, join_strings, string_from_chars, trim_chars,
};

#[test]
fn whitespace_agrees_with_std_on_every_char() {
    for u in 0u32..=0x10FFFF {
        if let Some(c) = char::from_u32(u) {
            assert_eq!(is_whitespace(c), c.is_whitespace(), "U+{u:04X}");
        }
    }
}

#[test]
fn trim_agrees_with_std() {
    for s in ["  hi  ", "\u{3000}全角\u{85}", "\t\n", "", "a b", "\u{200B}x"] {
        let t = trim_chars(&chars_of(s));
        assert_eq!(string_from_chars(&t), s.trim());
    }
}

#[test]
fn lossy_decoding_then_trim() {
    let out = frontmost_app_name_from_output(true, b" Safari\xff\n");
    assert_eq!(out, "Safari\u{FFFD}");
    assert_eq!(frontmost_app_name_from_output(false, b"Safari"), "");
}

#[test]
fn matching_lowercases_both_sides() {
    assert_eq!(get_tone_for_app("GMAIL"), "formal, professional");
    assert!(is_blacklisted("ÄPFEL", &["äpfel".to_string()]));
    assert!(is_blacklisted("äpfel", &["ÄPFEL".to_string()]));
}

#[test]
fn search_and_join() {
    let s = chars_of("data: x\nrest");
    assert_eq!(find_char(&s, '\n'), 7);
    assert_eq!(find_char(&s, '#'), s.len());
    assert!(contains_chars(&s, &chars_of("x\nr")));
    assert!(!contains_chars(&s, &chars_of("xr")));
    assert!(contains_chars(&s, &[]));
    let v = vec!["Tauri".to_string(), "Rust".to_string()];
    assert_eq!(join_strings(&v, "、"), "Tauri、Rust");
    assert_eq!(join_strings(&[], "、"), "");
}
