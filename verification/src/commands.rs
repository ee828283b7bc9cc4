//! The decisions behind the frontend's commands and the persisted settings:
//! defaults of stored values, hotkey changes, the API-key test, feedback
//! submission, device lists and system-preference panes. Reading and writing
//! the store, the network and the OS are left to the caller.

use vstd::prelude::*;
use crate::asr::AsrError;
use crate::audio::wav::{encode_wav, wav_mono16};
use crate::text::{chars_of, contains, contains_chars, string_from_chars, trim, trim_chars};
use crate::context::opt_view;

verus! {

/// A value read from the persistent settings store, as far as the settings
/// logic looks at it.
#[derive(Debug)]
pub enum StoreValue {
    /// JSON `null`.
    Null,
    /// A boolean.
    Bool(bool),
    /// A number that is an integer within `i64`.
    Int(i64),
    /// A string.
    Str(String),
    /// An array whose elements are all strings.
    Strings(Vec<String>),
    /// Anything else (other numbers, mixed arrays, objects).
    Other,
}

/// A stored boolean, or the default when it is missing or not a boolean.
pub open spec fn bool_setting_spec(v: Option<StoreValue>, default: bool) -> bool {
    match v {
        Some(StoreValue::Bool(b)) => b,
        _ => default,
    }
}

/// A stored boolean, or the default when it is missing or not a boolean
/// (sound and dock visibility default to on, onboarding and polishing to
/// off).
pub fn bool_setting(v: &Option<StoreValue>, default: bool) -> (r: bool)
    ensures
        r == bool_setting_spec(*v, default),
{
    match v {
        Some(StoreValue::Bool(b)) => *b,
        _ => default,
    }
}

/// A stored string, or the default when it is missing or not a string.
pub open spec fn string_setting_spec(v: Option<StoreValue>, default: Seq<char>) -> Seq<char> {
    match v {
        Some(StoreValue::Str(s)) => s@,
        _ => default,
    }
}

/// A stored string, or the default when it is missing or not a string (the
/// translation target defaults to "English", the hotkey to
/// `DEFAULT_HOTKEY`).
pub fn string_setting(v: &Option<StoreValue>, default: &str) -> (r: String)
    ensures
        r@ == string_setting_spec(*v, default@),
{
    match v {
        Some(StoreValue::Str(s)) => s.clone(),
        _ => String::from_str(default),
    }
}

/// A stored string, or `None` when it is missing, `null` or not a string.
pub open spec fn optional_string_spec(v: Option<StoreValue>) -> Option<Seq<char>> {
    match v {
        Some(StoreValue::Str(s)) => Some(s@),
        _ => None,
    }
}

/// A stored string, or `None` when it is missing, `null` or not a string
/// (the selected microphone: `None` is the system default).
pub fn optional_string_setting(v: &Option<StoreValue>) -> (r: Option<String>)
    ensures
        opt_view(r) == optional_string_spec(*v),
{
    match v {
        Some(StoreValue::Str(s)) => Some(s.clone()),
        _ => None,
    }
}

/// A stored list of strings, or the empty list when it is missing or not a
/// list of strings.
pub open spec fn string_list_spec(v: Option<StoreValue>) -> Seq<Seq<char>> {
    match v {
        Some(StoreValue::Strings(l)) => l@.map_values(|s: String| s@),
        _ => Seq::empty(),
    }
}

/// A stored list of strings (personal dictionary, app blacklist), or the
/// empty list when it is missing or not a list of strings.
pub fn string_list_setting(v: &Option<StoreValue>) -> (r: Vec<String>)
    ensures
        r@.map_values(|s: String| s@) == string_list_spec(*v),
{
    match v {
        Some(StoreValue::Strings(l)) => {
            let mut out: Vec<String> = Vec::new();
            let mut i: usize = 0;
            while i < l.len()
                invariant
                    i <= l@.len(),
                    out@.map_values(|s: String| s@) == l@.subrange(0, i as int).map_values(
                        |s: String| s@,
                    ),
                decreases l@.len() - i,
            {
                let ghost before = out@;
                out.push(l[i].clone());
                assert(out@.map_values(|s: String| s@) =~= before.map_values(|s: String| s@).push(
                    l@[i as int]@,
                ));
                assert(l@.subrange(0, i + 1).map_values(|s: String| s@) =~= l@.subrange(
                    0,
                    i as int,
                ).map_values(|s: String| s@).push(l@[i as int]@));
                i = i + 1;
            }
            assert(l@.subrange(0, l@.len() as int) =~= l@);
            out
        },
        _ => Vec::new(),
    }
}

/// The stored history retention in days: the stored integer truncated to
/// `i32`, or -1 ("forever") when it is missing or not an integer.
pub open spec fn retention_days_spec(v: Option<StoreValue>) -> i32 {
    match v {
        Some(StoreValue::Int(x)) => x as i32,
        _ => -1i32,
    }
}

/// The stored history retention in days, -1 meaning forever.
pub fn retention_days_setting(v: &Option<StoreValue>) -> (r: i32)
    ensures
        r == retention_days_spec(*v),
{
    match v {
        Some(StoreValue::Int(x)) => *x as i32,
        _ => -1,
    }
}

/// A setting read back after it was stored gives what was stored: a
/// boolean, a string, an optional string, a list of strings, and a retention
/// period that was saved as an `i32`.
pub proof fn lemma_settings_read_back(
    b: bool,
    default_b: bool,
    s: String,
    default_s: Seq<char>,
    l: Vec<String>,
    days: i32,
)
    ensures
        bool_setting_spec(Some(StoreValue::Bool(b)), default_b) == b,
        string_setting_spec(Some(StoreValue::Str(s)), default_s) == s@,
        optional_string_spec(Some(StoreValue::Str(s))) == Some(s@),
        string_list_spec(Some(StoreValue::Strings(l))) == l@.map_values(|x: String| x@),
        retention_days_spec(Some(StoreValue::Int(days as i64))) == days,
{
    let wide = days as i64;
    assert(wide as i32 == days) by (bit_vector)
        requires
            wide == days as i64,
    ;
}

/// Default push-to-talk hotkey used when no custom value has been saved.
pub const DEFAULT_HOTKEY: &'static str = "CmdOrCtrl+Shift+Space";

/// What a request to change the push-to-talk hotkey comes to.
#[derive(Debug)]
pub enum HotkeyPlan {
    /// Refused, with this message (the trimmed hotkey is empty).
    Reject(String),
    /// The trimmed hotkey is the current one: nothing to do.
    Unchanged,
    /// Unregister `old`, register `new`, and on success make `new` current
    /// and persist it.
    Replace { old: String, new: String },
}

/// Decide what a request to change the hotkey from `current` to `requested`
/// does: the request is trimmed; an empty one is refused with "Hotkey cannot
/// be empty"; the current one changes nothing; any other replaces it.
pub fn plan_hotkey_change(current: &str, requested: &str) -> (r: HotkeyPlan)
    ensures
        trim(requested@).len() == 0 ==> (r matches HotkeyPlan::Reject(m) && m@
            == "Hotkey cannot be empty"@),
        trim(requested@).len() > 0 && trim(requested@) == current@ ==> r matches HotkeyPlan::Unchanged,
        trim(requested@).len() > 0 && trim(requested@) != current@ ==> (r matches HotkeyPlan::Replace {
            old,
            new,
        } && old@ == current@ && new@ == trim(requested@)),
{
    let req = chars_of(requested);
    let t = trim_chars(req.as_slice());
    if t.len() == 0 {
        return HotkeyPlan::Reject(String::from_str("Hotkey cannot be empty"));
    }
    let hotkey = string_from_chars(t.as_slice());
    let cur = String::from_str(current);
    if cur == hotkey {
        HotkeyPlan::Unchanged
    } else {
        HotkeyPlan::Replace { old: cur, new: hotkey }
    }
}

/// The message when the new hotkey could not be registered.
pub fn hotkey_registration_error(hotkey: &str, error: &str) -> (r: String)
    ensures
        r@ == "Invalid hotkey '"@ + hotkey@ + "' — could not register it: "@ + error@,
{
    String::from_str("Invalid hotkey '").concat(hotkey).concat("' — could not register it: ").concat(
        error,
    )
}

/// What follows the attempt to register the new hotkey of a replacement.
#[derive(Debug)]
pub struct HotkeyOutcome {
    /// The hotkey that is current afterwards.
    pub current: String,
    /// Register the old hotkey again, so that the app keeps a working one.
    pub restore_old: bool,
    /// The hotkey to persist, if any.
    pub store: Option<String>,
    /// The command's answer (before the store is written).
    pub result: Result<(), String>,
}

/// Decide what follows the registration of `new` (replacing `old`): on
/// success `new` becomes current and is persisted; on failure the old hotkey
/// is registered again and stays current, nothing is persisted, and the
/// command fails with the registration error.
pub fn hotkey_after_registration(old: String, new: String, registered: Result<(), String>) -> (r:
    HotkeyOutcome)
    ensures
        registered is Ok ==> r.current == new && !r.restore_old && r.store == Some(new)
            && r.result is Ok,
        registered matches Err(e) ==> r.current == old && r.restore_old && r.store is None && (
        r.result matches Err(m) && m@ == "Invalid hotkey '"@ + new@ + "' — could not register it: "@
            + e@),
{
    match registered {
        Ok(()) => {
            let stored = new.clone();
            HotkeyOutcome { current: new, restore_old: false, store: Some(stored), result: Ok(()) }
        },
        Err(e) => {
            let m = hotkey_registration_error(new.as_str(), e.as_str());
            HotkeyOutcome { current: old, restore_old: true, store: None, result: Err(m) }
        },
    }
}

/// A successful hotkey change is read back: the hotkey it persists (the
/// trimmed request), read from the store, is the trimmed request, whatever
/// the default.
pub proof fn lemma_hotkey_change_read_back(current: Seq<char>, requested: Seq<char>, new: String)
    requires
        trim(requested).len() > 0,
        trim(requested) != current,
        new@ == trim(requested),
    ensures
        string_setting_spec(Some(StoreValue::Str(new)), DEFAULT_HOTKEY@) == trim(requested),
{
}

/// The key that the API-key test uses: the trimmed key, or "API key cannot
/// be empty" when nothing is left.
pub fn api_key_for_test(api_key: &str) -> (r: Result<String, String>)
    ensures
        trim(api_key@).len() == 0 ==> (r matches Err(m) && m@ == "API key cannot be empty"@),
        trim(api_key@).len() > 0 ==> (r matches Ok(k) && k@ == trim(api_key@)),
{
    let c = chars_of(api_key);
    let t = trim_chars(c.as_slice());
    if t.len() == 0 {
        Err(String::from_str("API key cannot be empty"))
    } else {
        Ok(string_from_chars(t.as_slice()))
    }
}

/// The recording the API-key test sends: half a second (8000 samples) of
/// silence at 16 kHz, as a WAV file.
pub fn api_key_test_wav() -> (r: Vec<u8>)
    ensures
        r@ == wav_mono16(16000, Seq::new(8000, |i: int| 0i16)),
{
    let samples: Vec<i16> = vec![0i16; 8000];
    assert(samples@ =~= Seq::new(8000, |i: int| 0i16));
    match encode_wav(samples.as_slice(), 16000) {
        Ok(b) => b,
        Err(_) => {
            proof {
                assert(false);
            }
            Vec::new()
        },
    }
}

/// An API error that is an authentication failure: its message mentions
/// HTTP 401 or 403.
pub open spec fn is_auth_failure(m: Seq<char>) -> bool {
    contains(m, "401"@) || contains(m, "403"@)
}

/// The recognition outcomes that make the API-key test fail: a network
/// error, or an API error that is an authentication failure.
pub open spec fn key_test_fails(result: Result<String, AsrError>) -> bool {
    match result {
        Err(AsrError::NetworkError(_)) => true,
        Err(AsrError::ApiError(m)) => is_auth_failure(m@),
        _ => false,
    }
}

/// The outcome of the API-key test from the recognition result of the
/// silent recording. Only a network error, or an API error that is an HTTP
/// 401/403 authentication failure, is reported as an error; any other
/// outcome (text, an empty result for the silence, other API errors, an
/// answer that did not parse) means the service accepted the key: "ok".
pub fn api_key_test_outcome(result: Result<String, AsrError>) -> (r: Result<String, String>)
    ensures
        result matches Err(AsrError::ApiError(m)) ==> (is_auth_failure(m@) ==> (r matches Err(e)
            && e@ == "Authentication failed — check your API key ("@ + m@ + ")"@)),
        result matches Err(AsrError::NetworkError(m)) ==> (r matches Err(e) && e@
            == "Network error — check your internet connection ("@ + m@ + ")"@),
        !key_test_fails(result) ==> (r matches Ok(s) && s@ == "ok"@),
{
    match result {
        Err(AsrError::ApiError(m)) => {
            let mc = chars_of(m.as_str());
            let c401 = chars_of("401");
            let c403 = chars_of("403");
            if contains_chars(mc.as_slice(), c401.as_slice()) || contains_chars(
                mc.as_slice(),
                c403.as_slice(),
            ) {
                Err(
                    String::from_str("Authentication failed — check your API key (").concat(
                        m.as_str(),
                    ).concat(")"),
                )
            } else {
                Ok(String::from_str("ok"))
            }
        },
        Err(AsrError::NetworkError(m)) => Err(
            String::from_str("Network error — check your internet connection (").concat(
                m.as_str(),
            ).concat(")"),
        ),
        _ => Ok(String::from_str("ok")),
    }
}

/// The title and description of a feedback report, trimmed; an empty title
/// is refused with "Title cannot be empty".
pub fn feedback_text(title: &str, description: &str) -> (r: Result<(String, String), String>)
    ensures
        trim(title@).len() == 0 ==> (r matches Err(m) && m@ == "Title cannot be empty"@),
        trim(title@).len() > 0 ==> (r matches Ok((t, d)) && t@ == trim(title@) && d@ == trim(
            description@,
        )),
{
    let tc = chars_of(title);
    let t = trim_chars(tc.as_slice());
    let dc = chars_of(description);
    let d = trim_chars(dc.as_slice());
    if t.len() == 0 {
        return Err(String::from_str("Title cannot be empty"));
    }
    Ok((string_from_chars(t.as_slice()), string_from_chars(d.as_slice())))
}

/// The token used to file feedback: the one built into the app when it is
/// non-empty, otherwise the stored one when it is a string that is not blank.
pub open spec fn feedback_token_spec(built_in: Option<Seq<char>>, stored: Option<StoreValue>) -> Option<
    Seq<char>,
> {
    match built_in {
        Some(t) if t.len() > 0 => Some(t),
        _ => match stored {
            Some(StoreValue::Str(s)) if trim(s@).len() > 0 => Some(s@),
            _ => None,
        },
    }
}

/// Choose the token used to file feedback.
pub fn feedback_token(built_in: Option<String>, stored: Option<StoreValue>) -> (r: Option<String>)
    ensures
        opt_view(r) == feedback_token_spec(opt_view(built_in), stored),
{
    match built_in {
        Some(t) => {
            if !t.as_str().is_empty() {
                return Some(t);
            }
        },
        None => {},
    }
    match stored {
        Some(StoreValue::Str(s)) => {
            let c = chars_of(s.as_str());
            let t = trim_chars(c.as_slice());
            if t.len() > 0 {
                Some(s)
            } else {
                None
            }
        },
        _ => None,
    }
}

/// The message when no token is available to file feedback.
pub const FEEDBACK_UNAVAILABLE: &'static str = "Feedback submission is not available. Please contact the developer.";

/// The issue label for a feedback kind: "bug" for bug reports, "enhancement"
/// for anything else.
pub fn feedback_label(feedback_type: &str) -> (r: &'static str)
    ensures
        r@ == (if feedback_type@ == "bug"@ { "bug"@ } else { "enhancement"@ }),
{
    let kind = String::from_str(feedback_type);
    let bug = String::from_str("bug");
    if kind == bug {
        "bug"
    } else {
        "enhancement"
    }
}

/// The issue body: the feedback kind, a blank line, the description.
pub fn feedback_body(feedback_type: &str, description: &str) -> (r: String)
    ensures
        r@ == "**Type:** "@ + feedback_type@ + "\n\n"@ + description@,
{
    String::from_str("**Type:** ").concat(feedback_type).concat("\n\n").concat(description)
}

/// The outcome of the issue request: on success the issue's URL (empty when
/// the reply has none); on 401 or 403 an authentication message; otherwise
/// the status and body of the error.
pub fn feedback_outcome(
    status_success: bool,
    status_code: u16,
    status: &str,
    body: &str,
    html_url: Option<String>,
) -> (r: Result<String, String>)
    ensures
        status_success ==> (r matches Ok(u) && u@ == match opt_view(html_url) {
            Some(x) => x,
            None => Seq::<char>::empty(),
        }),
        !status_success && (status_code == 401 || status_code == 403) ==> (r matches Err(m) && m@
            == "GitHub authentication failed ("@ + status@
            + "). Check your token has 'repo' or 'public_repo' scope."@),
        !status_success && !(status_code == 401 || status_code == 403) ==> (r matches Err(m) && m@
            == "GitHub API error "@ + status@ + ": "@ + body@),
{
    if status_success {
        match html_url {
            Some(u) => Ok(u),
            None => Ok(String::new()),
        }
    } else if status_code == 401 || status_code == 403 {
        Err(
            String::from_str("GitHub authentication failed (").concat(status).concat(
                "). Check your token has 'repo' or 'public_repo' scope.",
            ),
        )
    } else {
        Err(String::from_str("GitHub API error ").concat(status).concat(": ").concat(body))
    }
}

/// The GitHub token as it is stored: trimmed.
pub fn github_token_to_store(token: &str) -> (r: String)
    ensures
        r@ == trim(token@),
{
    let c = chars_of(token);
    let t = trim_chars(c.as_slice());
    string_from_chars(t.as_slice())
}

/// The System Settings URL of a privacy pane: "microphone" and
/// "accessibility" are known, any other pane is refused with "Unknown pane:
/// <pane>".
pub fn system_preferences_url(pane: &str) -> (r: Result<&'static str, String>)
    ensures
        pane@ == "microphone"@ ==> (r matches Ok(u) && u@
            == "x-apple.systempreferences:com.apple.preference.security?Privacy_Microphone"@),
        pane@ == "accessibility"@ ==> (r matches Ok(u) && u@
            == "x-apple.systempreferences:com.apple.preference.security?Privacy_Accessibility"@),
        pane@ != "microphone"@ && pane@ != "accessibility"@ ==> (r matches Err(m) && m@
            == "Unknown pane: "@ + pane@),
{
    proof {
        reveal_strlit("microphone");
        reveal_strlit("accessibility");
        assert("microphone"@.len() == 10);
        assert("accessibility"@.len() == 13);
        assert("microphone"@ != "accessibility"@);
    }
    let p = String::from_str(pane);
    let mic = String::from_str("microphone");
    let acc = String::from_str("accessibility");
    if p == mic {
        Ok("x-apple.systempreferences:com.apple.preference.security?Privacy_Microphone")
    } else if p == acc {
        Ok("x-apple.systempreferences:com.apple.preference.security?Privacy_Accessibility")
    } else {
        Err(String::from_str("Unknown pane: ").concat(pane))
    }
}

/// Information about an available audio input device.
#[derive(Debug)]
pub struct AudioDeviceInfo {
    /// Device name as reported by the OS.
    pub name: String,
    /// Whether this is the current system default input device.
    pub is_default: bool,
}

/// The device list for the frontend: every input device name, in order,
/// marked as default when it equals the default device's name.
pub fn audio_device_infos(default_name: &Option<String>, names: &[String]) -> (r: Vec<AudioDeviceInfo>)
    ensures
        r@.len() == names@.len(),
        forall|i: int|
            0 <= i < names@.len() ==> (#[trigger] r@[i]).name@ == names@[i]@ && r@[i].is_default
                == (opt_view(*default_name) == Some(names@[i]@)),
{
    let mut out: Vec<AudioDeviceInfo> = Vec::new();
    let mut i: usize = 0;
    while i < names.len()
        invariant
            i <= names@.len(),
            out@.len() == i,
            forall|k: int|
                0 <= k < i ==> (#[trigger] out@[k]).name@ == names@[k]@ && out@[k].is_default == (
                opt_view(*default_name) == Some(names@[k]@)),
        decreases names@.len() - i,
    {
        let name = names[i].clone();
        let is_default = match default_name {
            Some(d) => *d == name,
            None => false,
        };
        out.push(AudioDeviceInfo { name, is_default });
        i = i + 1;
    }
    out
}

/// Permission status for microphone and accessibility.
#[derive(Debug)]
pub struct PermissionStatus {
    /// Whether microphone access is granted.
    pub microphone: bool,
    /// Whether accessibility access is granted.
    pub accessibility: bool,
}

/// Information about an available update returned to the frontend.
#[derive(Debug)]
pub struct UpdateInfo {
    /// Version string of the available update (e.g. "1.2.0").
    pub version: String,
    /// Release notes from the update manifest.
    pub body: String,
}

/// The update information for a found update: its version, and its notes or
/// the empty string when it has none.
pub fn update_info(version: String, notes: Option<String>) -> (r: UpdateInfo)
    ensures
        r.version == version,
        r.body@ == match opt_view(notes) {
            Some(n) => n,
            None => Seq::<char>::empty(),
        },
{
    let body = match notes {
        Some(n) => n,
        None => String::new(),
    };
    UpdateInfo { version, body }
}

/// The standard library's mutex, carried in the application's shared state.
#[verifier::external_type_specification]
#[verifier::external_body]
#[verifier::reject_recursive_types(T)]
pub struct ExMutex<T: ?Sized>(std::sync::Mutex<T>);

/// The currently active push-to-talk hotkey; the mutex serialises hotkey
/// changes, so that the old hotkey is swapped for the new one atomically.
pub struct CurrentHotkey(pub std::sync::Mutex<String>);

/// The floating bar's state, shared between the hotkey handlers and the
/// frontend's commands.
pub struct FloatingState(pub std::sync::Mutex<FloatingStateData>);

/// The selected text captured when the speak-to-edit hotkey is pressed,
/// cleared after each edit run.
pub struct EditContext(pub std::sync::Mutex<Option<String>>);

/// Inner data for the floating bar state.
#[derive(Clone, Debug)]
pub struct FloatingStateData {
    /// Current status: "idle", "recording", "processing", or "result".
    pub status: String,
    /// Injected text, populated when status == "result".
    pub text: String,
}

impl FloatingStateData {
    /// The floating bar at rest: idle, no text.
    pub fn idle() -> (r: Self)
        ensures
            r.status@ == "idle"@,
            r.text@.len() == 0,
    {
        FloatingStateData { status: String::from_str("idle"), text: String::new() }
    }

    /// Replace the floating bar's status and text.
    pub fn set(&mut self, status: String, text: String)
        ensures
            final(self).status == status,
            final(self).text == text,
    {
        self.status = status;
        self.text = text;
    }
}

} // verus!
