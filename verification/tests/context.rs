use voice_typing::context::{
    clipboard_selection, frontmost_app_name_from_output, get_tone_for_app, is_blacklisted,
    selected_text_from_script, selection_after_accessibility, SelectionStep, DEFAULT_BLACKLIST,
};

#[test]
fn test_tone_email_apps() {
    assert_eq!(get_tone_for_app("Mail"), "formal, professional");
    assert_eq!(get_tone_for_app("Microsoft Outlook"), "formal, professional");
    assert_eq!(get_tone_for_app("Gmail"), "formal, professional");
}

#[test]
fn test_tone_chat_apps() {
    assert_eq!(get_tone_for_app("Slack"), "casual, conversational");
    assert_eq!(get_tone_for_app("Discord"), "casual, conversational");
    assert_eq!(get_tone_for_app("WeChat"), "casual, conversational");
    assert_eq!(get_tone_for_app("Telegram"), "casual, conversational");
    assert_eq!(get_tone_for_app("Messages"), "casual, conversational");
}

#[test]
fn test_tone_code_editors() {
    assert_eq!(get_tone_for_app("Code"), "technical, minimal editing");
    assert_eq!(get_tone_for_app("Xcode"), "technical, minimal editing");
    assert_eq!(get_tone_for_app("Terminal"), "technical, minimal editing");
    assert_eq!(get_tone_for_app("iTerm2"), "technical, minimal editing");
}

#[test]
fn test_tone_default() {
    assert_eq!(get_tone_for_app("Safari"), "natural, clear");
    assert_eq!(get_tone_for_app(""), "natural, clear");
    assert_eq!(get_tone_for_app("Notion"), "natural, clear");
}

#[test]
fn test_is_blacklisted_default_list() {
    assert!(is_blacklisted("Terminal", &[]));
    assert!(is_blacklisted("iTerm2", &[]));
    assert!(is_blacklisted("Alacritty", &[]));
    assert!(is_blacklisted("Warp", &[]));
    assert!(is_blacklisted("Sublime Text", &[]));
    assert!(is_blacklisted("Zed", &[]));
}

#[test]
fn test_is_blacklisted_case_insensitive() {
    assert!(is_blacklisted("terminal", &[]));
    assert!(is_blacklisted("ITERM2", &[]));
}

#[test]
fn test_is_blacklisted_not_in_list() {
    assert!(!is_blacklisted("Safari", &[]));
    assert!(!is_blacklisted("Slack", &[]));
    assert!(!is_blacklisted("", &[]));
}

#[test]
fn test_is_blacklisted_custom_list() {
    let custom = vec!["MyCustomApp".to_string(), "InternalTool".to_string()];
    assert!(is_blacklisted("MyCustomApp", &custom));
    assert!(is_blacklisted("internaltool", &custom));
    assert!(!is_blacklisted("Safari", &custom));
}

#[test]
fn test_is_blacklisted_empty_custom_entries_ignored() {
    let custom = vec!["".to_string()];
    assert!(!is_blacklisted("Safari", &custom));
}

#[test]
fn blacklist_matches_substrings_of_longer_names() {
    // "kitty" occurs inside the name; every built-in entry matches itself.
    assert!(is_blacklisted("My kitty terminal", &[]));
    for entry in DEFAULT_BLACKLIST.iter() {
        assert!(is_blacklisted(entry, &[]));
        assert!(is_blacklisted(&entry.to_uppercase(), &[]));
    }
}

#[test]
fn blacklist_grows_with_custom_entries() {
    let small = vec!["Notes".to_string()];
    let large = vec!["Figma".to_string(), "Notes".to_string()];
    assert!(is_blacklisted("Apple Notes", &small));
    assert!(is_blacklisted("Apple Notes", &large));
    assert!(!is_blacklisted("Figma", &small));
    assert!(is_blacklisted("Figma", &large));
    let with_empty = vec!["".to_string(), "Figma".to_string()];
    assert_eq!(is_blacklisted("Safari", &with_empty), is_blacklisted("Safari", &["Figma".to_string()]));
}

#[test]
fn tone_ignores_letter_case() {
    assert_eq!(get_tone_for_app("SLACK"), get_tone_for_app("slack"));
    assert_eq!(get_tone_for_app("mAiL"), "formal, professional");
    // The email group is checked first.
    assert_eq!(get_tone_for_app("Mail for Slack"), "formal, professional");
}

#[test]
fn frontmost_name_is_trimmed_output_or_empty() {
    assert_eq!(frontmost_app_name_from_output(true, b"  Safari\n"), "Safari");
    assert_eq!(frontmost_app_name_from_output(false, b"Safari\n"), "");
    assert_eq!(frontmost_app_name_from_output(true, b"\n"), "");
}

#[test]
fn script_selection_needs_success_and_text() {
    assert_eq!(selected_text_from_script(true, b" hello \n"), Some("hello".to_string()));
    assert_eq!(selected_text_from_script(true, b"   \n"), None);
    assert_eq!(selected_text_from_script(false, b"hello"), None);
}

#[test]
fn accessibility_answer_decides_fallback() {
    assert!(matches!(selection_after_accessibility(Some("x".to_string())), SelectionStep::Found(ref t) if t == "x"));
    assert!(matches!(selection_after_accessibility(Some(String::new())), SelectionStep::TryClipboard));
    assert!(matches!(selection_after_accessibility(None), SelectionStep::TryClipboard));
}

#[test]
fn clipboard_selection_requires_a_change() {
    let o = |s: &str| Some(s.to_string());
    assert_eq!(clipboard_selection(o("old"), o("new")), o("new"));
    assert_eq!(clipboard_selection(o("same"), o("same")), None);
    assert_eq!(clipboard_selection(None, o("new")), o("new"));
    assert_eq!(clipboard_selection(o("old"), o("")), None);
    assert_eq!(clipboard_selection(o("old"), None), None);
}

#[test]
fn blacklist_ignores_order_and_holds_in_longer_names() {
    let c = vec!["Foo".to_string(), "".to_string(), "bar".to_string()];
    let r: Vec<String> = c.iter().rev().cloned().collect();
    for app in ["Safari", "BAR tool", "my foo", "Terminal", ""] {
        assert_eq!(is_blacklisted(app, &c), is_blacklisted(app, &r));
        let mut e = c.clone();
        e.push(String::new());
        assert_eq!(is_blacklisted(app, &e), is_blacklisted(app, &c));
        if is_blacklisted(app, &c) {
            assert!(is_blacklisted(&format!("pre {app} post"), &c));
        }
    }
}
