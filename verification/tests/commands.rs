use voice_typing::asr::AsrError;
use voice_typing::commands::{
    api_key_for_test, api_key_test_outcome, api_key_test_wav, audio_device_infos, bool_setting,
    feedback_body, feedback_label, feedback_outcome, feedback_text, feedback_token,
    github_token_to_store, hotkey_after_registration, hotkey_registration_error, optional_string_setting, plan_hotkey_change,
    retention_days_setting, string_list_setting, string_setting, system_preferences_url, update_info,
    FloatingStateData, HotkeyPlan, StoreValue, DEFAULT_HOTKEY,
};

#[test]
fn settings_defaults() {
    assert!(bool_setting(&None, true));
    assert!(!bool_setting(&Some(StoreValue::Bool(false)), true));
    assert!(bool_setting(&Some(StoreValue::Str("false".into())), true));
    assert_eq!(string_setting(&None, "English"), "English");
    assert_eq!(string_setting(&Some(StoreValue::Str("Deutsch".into())), "English"), "Deutsch");
    assert_eq!(string_setting(&Some(StoreValue::Int(3)), DEFAULT_HOTKEY), "CmdOrCtrl+Shift+Space");
    assert_eq!(optional_string_setting(&Some(StoreValue::Null)), None);
    assert_eq!(optional_string_setting(&Some(StoreValue::Str("Mic".into()))), Some("Mic".to_string()));
    assert_eq!(string_list_setting(&None), Vec::<String>::new());
    assert_eq!(
        string_list_setting(&Some(StoreValue::Strings(vec!["a".into(), "b".into()]))),
        vec!["a".to_string(), "b".to_string()]
    );
    assert_eq!(retention_days_setting(&None), -1);
    assert_eq!(retention_days_setting(&Some(StoreValue::Int(30))), 30);
    assert_eq!(retention_days_setting(&Some(StoreValue::Int(4294967297))), 1);
    assert_eq!(retention_days_setting(&Some(StoreValue::Other)), -1);
}

#[test]
fn settings_read_back_as_stored() {
    for b in [true, false] {
        assert_eq!(bool_setting(&Some(StoreValue::Bool(b)), !b), b);
    }
    assert_eq!(string_setting(&Some(StoreValue::Str("Alt+K".into())), DEFAULT_HOTKEY), "Alt+K");
    assert_eq!(optional_string_setting(&Some(StoreValue::Str("".into()))), Some(String::new()));
    for days in [-1, -7, 0, 30, i32::MAX, i32::MIN] {
        assert_eq!(retention_days_setting(&Some(StoreValue::Int(days as i64))), days);
    }
}

#[test]
fn hotkey_changes() {
    assert!(matches!(plan_hotkey_change("A", "   "), HotkeyPlan::Reject(ref m) if m == "Hotkey cannot be empty"));
    assert!(matches!(plan_hotkey_change("Alt+K", "  Alt+K "), HotkeyPlan::Unchanged));
    match plan_hotkey_change("Alt+K", " Ctrl+J ") {
        HotkeyPlan::Replace { old, new } => {
            assert_eq!(old, "Alt+K");
            assert_eq!(new, "Ctrl+J");
        }
        _ => panic!("expected a replacement"),
    }
    assert_eq!(
        hotkey_registration_error("Bad", "parse"),
        "Invalid hotkey 'Bad' — could not register it: parse"
    );
}

#[test]
fn api_key_test() {
    assert_eq!(api_key_for_test("  ").unwrap_err(), "API key cannot be empty");
    assert_eq!(api_key_for_test(" sk-1 ").unwrap(), "sk-1");
    let wav = api_key_test_wav();
    assert_eq!(wav.len(), 44 + 8000 * 2);
    assert!(wav[44..].iter().all(|&b| b == 0));
    assert_eq!(api_key_test_outcome(Ok("hi".into())).unwrap(), "ok");
    assert_eq!(api_key_test_outcome(Err(AsrError::EmptyResult)).unwrap(), "ok");
    assert_eq!(
        api_key_test_outcome(Err(AsrError::ApiError("HTTP 401 Unauthorized: x".into()))).unwrap_err(),
        "Authentication failed — check your API key (HTTP 401 Unauthorized: x)"
    );
    assert_eq!(api_key_test_outcome(Err(AsrError::ApiError("HTTP 500: x".into()))).unwrap(), "ok");
    assert_eq!(
        api_key_test_outcome(Err(AsrError::ApiError("HTTP 403 Forbidden: y".into()))).unwrap_err(),
        "Authentication failed — check your API key (HTTP 403 Forbidden: y)"
    );
    assert_eq!(
        api_key_test_outcome(Err(AsrError::NetworkError("dns".into()))).unwrap_err(),
        "Network error — check your internet connection (dns)"
    );
    assert_eq!(api_key_test_outcome(Err(AsrError::ParseError("p".into()))).unwrap(), "ok");
    assert_eq!(api_key_test_outcome(Err(AsrError::EmptyAudio)).unwrap(), "ok");
}

#[test]
fn feedback() {
    assert_eq!(feedback_text("  ", "d").unwrap_err(), "Title cannot be empty");
    assert_eq!(feedback_text(" T ", " d ").unwrap(), ("T".to_string(), "d".to_string()));
    assert_eq!(feedback_token(Some("bot".into()), None), Some("bot".to_string()));
    assert_eq!(
        feedback_token(Some(String::new()), Some(StoreValue::Str(" user ".into()))),
        Some(" user ".to_string())
    );
    assert_eq!(feedback_token(None, Some(StoreValue::Str("   ".into()))), None);
    assert_eq!(feedback_label("bug"), "bug");
    assert_eq!(feedback_label("feature"), "enhancement");
    assert_eq!(feedback_body("bug", "crash"), "**Type:** bug\n\ncrash");
    assert_eq!(feedback_outcome(true, 201, "201 Created", "", Some("u".into())).unwrap(), "u");
    assert_eq!(feedback_outcome(true, 201, "201 Created", "", None).unwrap(), "");
    assert_eq!(
        feedback_outcome(false, 403, "403 Forbidden", "b", None).unwrap_err(),
        "GitHub authentication failed (403 Forbidden). Check your token has 'repo' or 'public_repo' scope."
    );
    assert_eq!(
        feedback_outcome(false, 500, "500 Internal Server Error", "b", None).unwrap_err(),
        "GitHub API error 500 Internal Server Error: b"
    );
    assert_eq!(github_token_to_store(" tok \n"), "tok");
}

#[test]
fn misc_commands() {
    assert!(system_preferences_url("microphone").unwrap().ends_with("Privacy_Microphone"));
    assert!(system_preferences_url("accessibility").unwrap().ends_with("Privacy_Accessibility"));
    assert_eq!(system_preferences_url("camera").unwrap_err(), "Unknown pane: camera");
    let infos = audio_device_infos(&Some("B".into()), &["A".to_string(), "B".to_string()]);
    assert_eq!(infos.len(), 2);
    assert!(!infos[0].is_default && infos[1].is_default);
    assert_eq!(infos[1].name, "B");
    let u = update_info("1.2.0".into(), None);
    assert_eq!((u.version.as_str(), u.body.as_str()), ("1.2.0", ""));
    let mut f = FloatingStateData::idle();
    assert_eq!(f.status, "idle");
    f.set("result".into(), "hi".into());
    assert_eq!((f.status.as_str(), f.text.as_str()), ("result", "hi"));
}

#[test]
fn hotkey_registration_outcomes() {
    let ok = hotkey_after_registration("Alt+K".into(), "Ctrl+J".into(), Ok(()));
    assert_eq!(ok.current, "Ctrl+J");
    assert!(!ok.restore_old);
    assert_eq!(ok.store, Some("Ctrl+J".to_string()));
    assert_eq!(ok.result, Ok(()));
    let bad = hotkey_after_registration("Alt+K".into(), "Bad".into(), Err("parse".into()));
    assert_eq!(bad.current, "Alt+K");
    assert!(bad.restore_old);
    assert_eq!(bad.store, None);
    assert_eq!(bad.result, Err("Invalid hotkey 'Bad' — could not register it: parse".to_string()));
}
