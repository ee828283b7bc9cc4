use voice_typing::sound::{play_error, play_start, play_stop, system_sound_path, SystemSound};

#[test]
fn play_functions_do_not_panic_when_disabled() {
    play_start(false);
    play_stop(false);
    play_error(false);
}

#[test]
fn play_functions_do_not_panic_when_enabled() {
    play_start(true);
    play_stop(true);
    play_error(true);
}

#[test]
fn each_event_has_its_sound() {
    assert_eq!(play_start(true), Some(SystemSound::Tink));
    assert_eq!(play_stop(true), Some(SystemSound::Glass));
    assert_eq!(play_error(true), Some(SystemSound::Basso));
    assert_eq!(play_start(false), None);
    assert_eq!(play_stop(false), None);
    assert_eq!(play_error(false), None);
}

#[test]
fn sound_files_live_in_system_library() {
    assert_eq!(system_sound_path(SystemSound::Tink), "/System/Library/Sounds/Tink.aiff");
    assert_eq!(system_sound_path(SystemSound::Glass), "/System/Library/Sounds/Glass.aiff");
    assert_eq!(system_sound_path(SystemSound::Basso), "/System/Library/Sounds/Basso.aiff");
}
