//! Interaction sounds: which system sound each event plays, and where the
//! sound file lies. Playing it is left to the caller.

use vstd::prelude::*;

verus! {

/// The macOS system sounds that the app plays.
#[derive(Clone, Copy, Debug, PartialEq, Eq, Structural)]
pub enum SystemSound {
    /// Recording started.
    Tink,
    /// Recording stopped / processing complete.
    Glass,
    /// Something failed.
    Basso,
}

/// The file name stem of a system sound.
pub open spec fn sound_name(s: SystemSound) -> Seq<char> {
    match s {
        SystemSound::Tink => "Tink"@,
        SystemSound::Glass => "Glass"@,
        SystemSound::Basso => "Basso"@,
    }
}

impl SystemSound {
    /// The file name stem of the sound (e.g. "Tink").
    pub fn name(&self) -> (r: &'static str)
        ensures
            r@ == sound_name(*self),
    {
        match self {
            SystemSound::Tink => "Tink",
            SystemSound::Glass => "Glass",
            SystemSound::Basso => "Basso",
        }
    }
}

/// The sound to play, if sounds are enabled.
pub open spec fn if_enabled(enabled: bool, s: SystemSound) -> Option<SystemSound> {
    if enabled { Some(s) } else { None }
}

/// The "recording started" sound, or nothing when sounds are disabled.
pub fn play_start(enabled: bool) -> (r: Option<SystemSound>)
    ensures
        r == if_enabled(enabled, SystemSound::Tink),
{
    if !enabled {
        return None;
    }
    Some(SystemSound::Tink)
}

/// The "recording stopped / processing complete" sound, or nothing when
/// sounds are disabled.
pub fn play_stop(enabled: bool) -> (r: Option<SystemSound>)
    ensures
        r == if_enabled(enabled, SystemSound::Glass),
{
    if !enabled {
        return None;
    }
    Some(SystemSound::Glass)
}

/// The "error" sound, or nothing when sounds are disabled.
pub fn play_error(enabled: bool) -> (r: Option<SystemSound>)
    ensures
        r == if_enabled(enabled, SystemSound::Basso),
{
    if !enabled {
        return None;
    }
    Some(SystemSound::Basso)
}

/// The path of a system sound file: `/System/Library/Sounds/<name>.aiff`.
pub open spec fn sound_path(s: SystemSound) -> Seq<char> {
    "/System/Library/Sounds/"@ + sound_name(s) + ".aiff"@
}

/// The path of the sound file that `afplay` is given for a system sound.
pub fn system_sound_path(s: SystemSound) -> (r: String)
    ensures
        r@ == sound_path(s),
{
    let mut p = String::from_str("/System/Library/Sounds/");
    p.append(s.name());
    p.append(".aiff");
    p
}

/// A disabled sound setting silences every event.
pub proof fn lemma_disabled_is_silent(s: SystemSound)
    ensures
        if_enabled(false, s) is None,
{
}

} // verus!
