//! The system tray: the microphone submenu's items and what a click on a
//! menu item or on the icon asks for. Building the menu and acting on the
//! answer are left to the caller.

use vstd::prelude::*;
use crate::context::opt_view;
use crate::text::{chars_of, has_prefix, starts_with_chars, string_from_chars, suffix_from};

verus! {

/// One item of the microphone submenu: its id and its label.
#[derive(Debug)]
pub struct MenuEntry {
    pub id: String,
    pub label: String,
}

/// The id of the "system default" item.
pub const DEFAULT_DEVICE_ID: &'static str = "mic:__default__";

/// The menu id of a microphone choice: `mic:__default__` for the system
/// default, `mic:<name>` for a named device.
pub open spec fn device_item_id(choice: Option<Seq<char>>) -> Seq<char> {
    match choice {
        None => DEFAULT_DEVICE_ID@,
        Some(d) => "mic:"@ + d,
    }
}

/// The check-mark prefix of an item: "✓ " for the current choice, two
/// spaces otherwise.
pub open spec fn check_prefix(checked: bool) -> Seq<char> {
    if checked { "✓ "@ } else { "  "@ }
}

/// The microphone submenu: first the system default (checked when no device
/// is chosen), then one item per device name in order (checked when it is
/// the chosen device).
pub fn mic_menu_items(selected: &Option<String>, names: &[String]) -> (r: Vec<MenuEntry>)
    ensures
        r@.len() == names@.len() + 1,
        r@[0].id@ == device_item_id(None),
        r@[0].label@ == check_prefix(selected is None) + "System Default"@,
        forall|i: int|
            0 <= i < names@.len() ==> (#[trigger] r@[i + 1]).id@ == device_item_id(Some(names@[i]@))
                && r@[i + 1].label@ == check_prefix(opt_view(*selected) == Some(names@[i]@))
                + names@[i]@,
{
    let mut out: Vec<MenuEntry> = Vec::new();
    let default_label = match selected {
        None => String::from_str("✓ System Default"),
        Some(_) => String::from_str("  System Default"),
    };
    proof {
        reveal_strlit("✓ System Default");
        reveal_strlit("  System Default");
        reveal_strlit("✓ ");
        reveal_strlit("  ");
        reveal_strlit("System Default");
        assert("✓ System Default"@ =~= "✓ "@ + "System Default"@);
        assert("  System Default"@ =~= "  "@ + "System Default"@);
    }
    out.push(MenuEntry { id: String::from_str(DEFAULT_DEVICE_ID), label: default_label });
    let mut i: usize = 0;
    while i < names.len()
        invariant
            i <= names@.len(),
            out@.len() == i + 1,
            out@[0].id@ == device_item_id(None),
            out@[0].label@ == check_prefix(selected is None) + "System Default"@,
            forall|k: int|
                0 <= k < i ==> (#[trigger] out@[k + 1]).id@ == device_item_id(Some(names@[k]@))
                    && out@[k + 1].label@ == check_prefix(opt_view(*selected) == Some(names@[k]@))
                    + names@[k]@,
        decreases names@.len() - i,
    {
        let name = names[i].as_str();
        let checked = match selected {
            Some(s) => *s == names[i],
            None => false,
        };
        let prefix = if checked { "✓ " } else { "  " };
        let id = String::from_str("mic:").concat(name);
        let label = String::from_str(prefix).concat(name);
        out.push(MenuEntry { id, label });
        i = i + 1;
    }
    out
}

/// What a click on a tray menu item asks for.
#[derive(Debug)]
pub enum TrayAction {
    /// Show and focus the settings window.
    ShowSettings,
    /// Quit the application.
    Quit,
    /// Use this microphone (`None`: the system default) and persist it.
    SelectDevice(Option<String>),
    /// Not an item the app acts on.
    Ignore,
}

/// The meaning of a tray menu click, as a mathematical value.
pub enum TrayChoice {
    ShowSettings,
    Quit,
    SelectDevice(Option<Seq<char>>),
    Ignore,
}

/// The meaning of a click on the item with this id: "settings", "quit", a
/// `mic:` item (whose rest names the device, `__default__` meaning the
/// system default), or nothing.
pub open spec fn tray_choice(id: Seq<char>) -> TrayChoice {
    if id == "settings"@ {
        TrayChoice::ShowSettings
    } else if id == "quit"@ {
        TrayChoice::Quit
    } else if has_prefix(id, "mic:"@) {
        let rest = id.subrange(4, id.len() as int);
        if rest == "__default__"@ {
            TrayChoice::SelectDevice(None)
        } else {
            TrayChoice::SelectDevice(Some(rest))
        }
    } else {
        TrayChoice::Ignore
    }
}

/// The mathematical value of a tray action.
pub open spec fn action_view(a: TrayAction) -> TrayChoice {
    match a {
        TrayAction::ShowSettings => TrayChoice::ShowSettings,
        TrayAction::Quit => TrayChoice::Quit,
        TrayAction::SelectDevice(d) => TrayChoice::SelectDevice(opt_view(d)),
        TrayAction::Ignore => TrayChoice::Ignore,
    }
}

/// Decide what a click on the tray menu item with this id asks for.
pub fn tray_menu_action(id: &str) -> (r: TrayAction)
    ensures
        action_view(r) == tray_choice(id@),
{
    proof {
        reveal_strlit("mic:");
    }
    let s = String::from_str(id);
    if s == String::from_str("settings") {
        return TrayAction::ShowSettings;
    }
    if s == String::from_str("quit") {
        return TrayAction::Quit;
    }
    let c = chars_of(id);
    let mic = chars_of("mic:");
    if starts_with_chars(c.as_slice(), mic.as_slice()) {
        let rest = suffix_from(c.as_slice(), 4);
        let name = string_from_chars(rest.as_slice());
        if name == String::from_str("__default__") {
            TrayAction::SelectDevice(None)
        } else {
            TrayAction::SelectDevice(Some(name))
        }
    } else {
        TrayAction::Ignore
    }
}

/// Clicking a microphone item selects that item's choice: the default item
/// selects the system default, a device's item selects the device (for any
/// device name other than the reserved `__default__`).
pub proof fn lemma_menu_item_selects_its_device(choice: Option<Seq<char>>)
    requires
        choice != Some("__default__"@),
    ensures
        tray_choice(device_item_id(choice)) == TrayChoice::SelectDevice(choice),
{
    reveal_strlit("mic:");
    reveal_strlit("mic:__default__");
    reveal_strlit("settings");
    reveal_strlit("quit");
    reveal_strlit("__default__");
    let id = device_item_id(choice);
    match choice {
        None => {
            assert(id.subrange(0, 4) =~= "mic:"@);
            assert(id.subrange(4, id.len() as int) =~= "__default__"@);
            assert(id != "settings"@);
            assert(id != "quit"@);
        },
        Some(d) => {
            assert(id.subrange(0, 4) =~= "mic:"@);
            assert(id.subrange(4, id.len() as int) =~= d);
            assert(id[0] == 'm');
            assert("settings"@[0] == 's');
            assert("quit"@[0] == 'q');
        },
    }
}

/// What a click on the tray icon does to the main window.
#[derive(Clone, Copy, Debug, PartialEq, Eq, Structural)]
pub enum WindowAction {
    Hide,
    ShowAndFocus,
}

/// A click on the tray icon hides a visible main window and shows and
/// focuses a hidden one.
pub fn tray_click_action(window_visible: bool) -> (r: WindowAction)
    ensures
        r == (if window_visible { WindowAction::Hide } else { WindowAction::ShowAndFocus }),
{
    if window_visible {
        WindowAction::Hide
    } else {
        WindowAction::ShowAndFocus
    }
}

} // verus!
