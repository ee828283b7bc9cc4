use voice_typing::tray::{mic_menu_items, tray_click_action, tray_menu_action, TrayAction, WindowAction};

#[test]
fn mic_menu_lists_default_then_devices() {
    let names = vec!["Built-in".to_string(), "USB".to_string()];
    let items = mic_menu_items(&None, &names);
    let pairs: Vec<(String, String)> = items.into_iter().map(|e| (e.id, e.label)).collect();
    assert_eq!(
        pairs,
        vec![
            ("mic:__default__".to_string(), "✓ System Default".to_string()),
            ("mic:Built-in".to_string(), "  Built-in".to_string()),
            ("mic:USB".to_string(), "  USB".to_string()),
        ]
    );
    let items = mic_menu_items(&Some("USB".to_string()), &names);
    assert_eq!(items[0].label, "  System Default");
    assert_eq!(items[2].label, "✓ USB");
}

#[test]
fn menu_clicks() {
    assert!(matches!(tray_menu_action("settings"), TrayAction::ShowSettings));
    assert!(matches!(tray_menu_action("quit"), TrayAction::Quit));
    assert!(matches!(tray_menu_action("version"), TrayAction::Ignore));
    assert!(matches!(tray_menu_action("mic:__default__"), TrayAction::SelectDevice(None)));
    assert!(matches!(tray_menu_action("mic:USB"), TrayAction::SelectDevice(Some(ref d)) if d == "USB"));
    for item in mic_menu_items(&None, &["Built-in".to_string()]) {
        assert!(matches!(tray_menu_action(&item.id), TrayAction::SelectDevice(_)));
    }
}

#[test]
fn icon_click_toggles_window() {
    assert_eq!(tray_click_action(true), WindowAction::Hide);
    assert_eq!(tray_click_action(false), WindowAction::ShowAndFocus);
}
