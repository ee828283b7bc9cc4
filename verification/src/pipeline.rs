//! The pipeline that coordinates recording, recognition, polishing and
//! injection: the application status, the configured clients, the cached
//! last transcription, and the decision taken after each stage of a run.
//! The stages' outside work (audio, network, keyboard) is left to the caller,
//! which reports each stage's result back.

use vstd::prelude::*;
use vstd::std_specs::cmp::PartialEqSpecImpl;
use crate::asr::{AsrClient, AsrError, asr_error_message};
use crate::llm::{LlmClient, LlmError};
use crate::audio::recorder::{AudioError, audio_error_message};
use crate::injector::{InjectionError, injection_error_message};
use crate::sound::{SystemSound, play_error, play_stop, if_enabled};
use crate::context::{blacklisted, get_tone_for_app, is_blacklisted, tone_for_lower};
use crate::text::{lowercase, string_views};

verus! {

/// Application state.
#[derive(Clone, Debug)]
pub enum AppStatus {
    Idle,
    Recording,
    Processing,
    Error(String),
}

/// Two statuses are equal: same variant, and for errors the same message.
pub open spec fn same_status(a: AppStatus, b: AppStatus) -> bool {
    match (a, b) {
        (AppStatus::Idle, AppStatus::Idle) => true,
        (AppStatus::Recording, AppStatus::Recording) => true,
        (AppStatus::Processing, AppStatus::Processing) => true,
        (AppStatus::Error(x), AppStatus::Error(y)) => x@ == y@,
        _ => false,
    }
}

impl PartialEq for AppStatus {
    fn eq(&self, other: &Self) -> (r: bool) {
        match (self, other) {
            (AppStatus::Idle, AppStatus::Idle) => true,
            (AppStatus::Recording, AppStatus::Recording) => true,
            (AppStatus::Processing, AppStatus::Processing) => true,
            (AppStatus::Error(x), AppStatus::Error(y)) => *x == *y,
            _ => false,
        }
    }
}

impl PartialEqSpecImpl for AppStatus {
    open spec fn obeys_eq_spec() -> bool {
        true
    }

    open spec fn eq_spec(&self, other: &AppStatus) -> bool {
        same_status(*self, *other)
    }
}

impl Eq for AppStatus {}

/// The label the frontend shows for a status: "idle", "recording",
/// "processing", or "error:" followed by the message.
pub open spec fn status_label_spec(s: AppStatus) -> Seq<char> {
    match s {
        AppStatus::Idle => "idle"@,
        AppStatus::Recording => "recording"@,
        AppStatus::Processing => "processing"@,
        AppStatus::Error(m) => "error:"@ + m@,
    }
}

/// The label the frontend shows for a status.
pub fn status_label(s: &AppStatus) -> (r: String)
    ensures
        r@ == status_label_spec(*s),
{
    match s {
        AppStatus::Idle => String::from_str("idle"),
        AppStatus::Recording => String::from_str("recording"),
        AppStatus::Processing => String::from_str("processing"),
        AppStatus::Error(m) => String::from_str("error:").concat(m.as_str()),
    }
}

/// A copy of a status.
fn copy_status(s: &AppStatus) -> (r: AppStatus)
    ensures
        r == *s,
{
    match s {
        AppStatus::Idle => AppStatus::Idle,
        AppStatus::Recording => AppStatus::Recording,
        AppStatus::Processing => AppStatus::Processing,
        AppStatus::Error(m) => AppStatus::Error(m.clone()),
    }
}

/// A copy of an optional string.
fn copy_opt(o: &Option<String>) -> (r: Option<String>)
    ensures
        r == *o,
{
    match o {
        Some(s) => Some(s.clone()),
        None => None,
    }
}

/// Central pipeline state: status, clients, cached last transcription,
/// selected microphone and translation target.
pub struct Pipeline {
    asr_client: Option<AsrClient>,
    llm_client: Option<LlmClient>,
    status: AppStatus,
    last_raw: Option<String>,
    last_text: Option<String>,
    selected_device: Option<String>,
    translation_target: String,
}

impl Pipeline {
    /// The current status.
    pub closed spec fn status_spec(&self) -> AppStatus {
        self.status
    }

    /// The recognition client, once configured.
    pub closed spec fn asr_spec(&self) -> Option<AsrClient> {
        self.asr_client
    }

    /// The LLM client, once configured.
    pub closed spec fn llm_spec(&self) -> Option<LlmClient> {
        self.llm_client
    }

    /// The raw recognised text of the last completed run.
    pub closed spec fn last_raw_spec(&self) -> Option<String> {
        self.last_raw
    }

    /// The injected text of the last completed run.
    pub closed spec fn last_text_spec(&self) -> Option<String> {
        self.last_text
    }

    /// The chosen microphone (`None`: system default).
    pub closed spec fn device_spec(&self) -> Option<String> {
        self.selected_device
    }

    /// The translation target language.
    pub closed spec fn target_spec(&self) -> Seq<char> {
        self.translation_target@
    }

    /// A pipeline that is idle, unconfigured, with no cached transcription,
    /// the system default microphone, and English as translation target.
    pub fn new() -> (r: Self)
        ensures
            r.status_spec() == AppStatus::Idle,
            r.asr_spec() is None,
            r.llm_spec() is None,
            r.last_raw_spec() is None,
            r.last_text_spec() is None,
            r.device_spec() is None,
            r.target_spec() == "English"@,
    {
        Pipeline {
            asr_client: None,
            llm_client: None,
            status: AppStatus::Idle,
            last_raw: None,
            last_text: None,
            selected_device: None,
            translation_target: String::from_str("English"),
        }
    }

    /// Configure both clients with the API key; polishing as given.
    pub fn configure(&mut self, api_key: String, llm_enabled: bool)
        ensures
            final(self).asr_spec() matches Some(a) && a.key() == api_key@,
            final(self).llm_spec() matches Some(l) && l.key() == api_key@ && l.polishing()
                == llm_enabled,
            final(self).status_spec() == old(self).status_spec(),
            final(self).last_raw_spec() == old(self).last_raw_spec(),
            final(self).last_text_spec() == old(self).last_text_spec(),
            final(self).device_spec() == old(self).device_spec(),
            final(self).target_spec() == old(self).target_spec(),
    {
        self.asr_client = Some(AsrClient::new(api_key.clone()));
        let mut llm = LlmClient::new(api_key);
        llm.set_enabled(llm_enabled);
        self.llm_client = Some(llm);
    }

    /// The current status.
    pub fn status(&self) -> (r: AppStatus)
        ensures
            r == self.status_spec(),
    {
        copy_status(&self.status)
    }

    /// Set the status.
    pub fn set_status(&mut self, status: AppStatus)
        ensures
            final(self).status_spec() == status,
            final(self).asr_spec() == old(self).asr_spec(),
            final(self).llm_spec() == old(self).llm_spec(),
            final(self).last_raw_spec() == old(self).last_raw_spec(),
            final(self).last_text_spec() == old(self).last_text_spec(),
            final(self).device_spec() == old(self).device_spec(),
            final(self).target_spec() == old(self).target_spec(),
    {
        self.status = status;
    }

    /// The recognition client, if configured.
    pub fn asr_client(&self) -> (r: Option<&AsrClient>)
        ensures
            r == match self.asr_spec() { Some(a) => Some(&a), None => None::<&AsrClient> },
    {
        match &self.asr_client {
            Some(a) => Some(a),
            None => None,
        }
    }

    /// The LLM client, if configured.
    pub fn llm_client(&self) -> (r: Option<&LlmClient>)
        ensures
            r == match self.llm_spec() { Some(l) => Some(&l), None => None::<&LlmClient> },
    {
        match &self.llm_client {
            Some(l) => Some(l),
            None => None,
        }
    }

    /// Mark the pipeline as recording (the caller has started the audio
    /// buffer).
    pub fn start_recording(&mut self)
        ensures
            final(self).status_spec() == AppStatus::Recording,
            final(self).asr_spec() == old(self).asr_spec(),
            final(self).llm_spec() == old(self).llm_spec(),
            final(self).last_raw_spec() == old(self).last_raw_spec(),
            final(self).last_text_spec() == old(self).last_text_spec(),
            final(self).device_spec() == old(self).device_spec(),
            final(self).target_spec() == old(self).target_spec(),
    {
        self.status = AppStatus::Recording;
    }

    /// Cache the raw and the injected text of a completed run.
    pub fn set_last_transcription(&mut self, raw: String, text: String)
        ensures
            final(self).last_raw_spec() == Some(raw),
            final(self).last_text_spec() == Some(text),
            final(self).status_spec() == old(self).status_spec(),
            final(self).asr_spec() == old(self).asr_spec(),
            final(self).llm_spec() == old(self).llm_spec(),
            final(self).device_spec() == old(self).device_spec(),
            final(self).target_spec() == old(self).target_spec(),
    {
        self.last_raw = Some(raw);
        self.last_text = Some(text);
    }

    /// The injected text of the last completed run.
    pub fn last_transcription(&self) -> (r: Option<String>)
        ensures
            r == self.last_text_spec(),
    {
        copy_opt(&self.last_text)
    }

    /// The raw recognised text of the last completed run.
    pub fn last_raw_transcription(&self) -> (r: Option<String>)
        ensures
            r == self.last_raw_spec(),
    {
        copy_opt(&self.last_raw)
    }

    /// Choose the microphone (`None`: system default).
    pub fn set_selected_device(&mut self, device: Option<String>)
        ensures
            final(self).device_spec() == device,
            final(self).status_spec() == old(self).status_spec(),
            final(self).asr_spec() == old(self).asr_spec(),
            final(self).llm_spec() == old(self).llm_spec(),
            final(self).last_raw_spec() == old(self).last_raw_spec(),
            final(self).last_text_spec() == old(self).last_text_spec(),
            final(self).target_spec() == old(self).target_spec(),
    {
        self.selected_device = device;
    }

    /// The chosen microphone (`None`: system default).
    pub fn selected_device(&self) -> (r: Option<String>)
        ensures
            r == self.device_spec(),
    {
        copy_opt(&self.selected_device)
    }

    /// Set the translation target language.
    pub fn set_translation_target(&mut self, language: String)
        ensures
            final(self).target_spec() == language@,
            final(self).status_spec() == old(self).status_spec(),
            final(self).asr_spec() == old(self).asr_spec(),
            final(self).llm_spec() == old(self).llm_spec(),
            final(self).last_raw_spec() == old(self).last_raw_spec(),
            final(self).last_text_spec() == old(self).last_text_spec(),
            final(self).device_spec() == old(self).device_spec(),
    {
        self.translation_target = language;
    }

    /// The translation target language.
    pub fn translation_target(&self) -> (r: String)
        ensures
            r@ == self.target_spec(),
    {
        self.translation_target.clone()
    }
}

/// Which entry point runs the pipeline.
#[derive(Clone, Copy, Debug, PartialEq, Eq, Structural)]
pub enum Flow {
    /// The frontend's `stop_and_process` command: failures are reported back
    /// as messages, no sounds.
    Command,
    /// Release of the push-to-talk hotkey: failures play the error sound and
    /// return the pipeline to idle.
    Dictation,
    /// Release of the translation hotkey: as dictation, but the recognised
    /// text is translated instead of polished.
    Translation,
}

/// The LLM stage of a run.
#[derive(Clone, Copy, Debug, PartialEq, Eq, Structural)]
pub enum LlmStage {
    /// Polish the recognised text (with the personal dictionary and tone).
    Polish,
    /// Translate the recognised text into the target language.
    Translate,
}

/// The LLM stage each flow runs: the translation hotkey translates, the
/// command and the push-to-talk hotkey polish.
pub fn llm_stage(flow: Flow) -> (r: LlmStage)
    ensures
        r == (if flow == Flow::Translation { LlmStage::Translate } else { LlmStage::Polish }),
{
    match flow {
        Flow::Translation => LlmStage::Translate,
        _ => LlmStage::Polish,
    }
}

/// Whether the run looks at the focused application (for the tone and the
/// clipboard fallback): only the command does.
pub fn uses_app_context(flow: Flow) -> (r: bool)
    ensures
        r == (flow == Flow::Command),
{
    flow == Flow::Command
}

/// The tone of the polishing prompt and whether to inject through the
/// clipboard: for the command, the focused application's tone and whether it
/// is blacklisted; for the hotkeys, no tone and direct typing.
pub fn injection_context(flow: Flow, app_name: &str, blacklist: &[String]) -> (r: (&'static str, bool))
    ensures
        flow == Flow::Command ==> r.0@ == tone_for_lower(lowercase(app_name@)) && r.1 == blacklisted(
            app_name@,
            string_views(blacklist@),
        ),
        flow != Flow::Command ==> r.0@.len() == 0 && !r.1,
{
    if flow == Flow::Command {
        (get_tone_for_app(app_name), is_blacklisted(app_name, blacklist))
    } else {
        proof {
            reveal_strlit("");
        }
        ("", false)
    }
}

/// A stage of a run failed: the message to report, and the sound to play.
#[derive(Debug)]
pub struct RunFailure {
    pub message: String,
    pub sound: Option<SystemSound>,
}

/// The sound a failure plays: none for the command, the error sound (if
/// sounds are enabled) for the hotkeys.
pub open spec fn failure_sound(flow: Flow, sound_on: bool) -> Option<SystemSound> {
    if flow == Flow::Command { None } else { if_enabled(sound_on, SystemSound::Basso) }
}

/// The status a failure leaves: the hotkeys return to idle, the command
/// leaves the status as it was.
pub open spec fn status_after_failure(flow: Flow, before: AppStatus) -> AppStatus {
    if flow == Flow::Command { before } else { AppStatus::Idle }
}

/// Whatever stage fails, a hotkey run returns the pipeline to idle and plays
/// the error sound when sounds are on; a failed command run plays nothing and
/// leaves the status to the frontend.
pub proof fn lemma_failed_runs(flow: Flow, before: AppStatus, sound_on: bool)
    ensures
        flow != Flow::Command ==> status_after_failure(flow, before) == AppStatus::Idle,
        flow != Flow::Command ==> failure_sound(flow, sound_on) == if_enabled(sound_on, SystemSound::Basso),
        flow == Flow::Command ==> status_after_failure(flow, before) == before,
        flow == Flow::Command ==> failure_sound(flow, sound_on) is None,
{
}

/// A failure with a message and the flow's failure sound.
fn failure(flow: Flow, message: String, sound_on: bool) -> (r: RunFailure)
    ensures
        r.message == message,
        r.sound == failure_sound(flow, sound_on),
{
    let sound = match flow {
        Flow::Command => None,
        _ => play_error(sound_on),
    };
    RunFailure { message, sound }
}

/// The injection stage failed: creating the input simulator, or injecting.
#[derive(Debug)]
pub enum InjectFailure {
    Init(InjectionError),
    Inject(InjectionError),
}

/// A completed run: the injected text and the sound to play. The caller
/// saves it to the history.
#[derive(Debug)]
pub struct RunSuccess {
    pub text: String,
    pub sound: Option<SystemSound>,
}

/// The text kept after the LLM stage: the LLM's reply when it answered, the
/// raw recognised text when it failed or is not configured.
pub open spec fn refined_text(raw: Seq<char>, result: Option<Result<String, LlmError>>) -> Seq<char> {
    match result {
        Some(Ok(t)) => t@,
        _ => raw,
    }
}

/// Choose the text after the LLM stage (polish or translation).
pub fn refine_outcome(raw: String, result: Option<Result<String, LlmError>>) -> (r: String)
    ensures
        r@ == refined_text(raw@, result),
{
    match result {
        Some(Ok(t)) => t,
        _ => raw,
    }
}

/// The pipeline's fields other than its status are unchanged.
pub open spec fn same_except_status(a: Pipeline, b: Pipeline) -> bool {
    &&& a.asr_spec() == b.asr_spec()
    &&& a.llm_spec() == b.llm_spec()
    &&& a.last_raw_spec() == b.last_raw_spec()
    &&& a.last_text_spec() == b.last_text_spec()
    &&& a.device_spec() == b.device_spec()
    &&& a.target_spec() == b.target_spec()
}

impl Pipeline {
    /// Start processing a recording: without an audio thread it fails with
    /// "Audio not initialized" and nothing changes; otherwise the status
    /// becomes `Processing` (the caller stops the buffer and encodes the WAV).
    pub fn begin_processing(&mut self, flow: Flow, audio_ready: bool, sound_on: bool) -> (r: Result<
        (),
        RunFailure,
    >)
        ensures
            same_except_status(*final(self), *old(self)),
            !audio_ready ==> (r matches Err(f) && f.message@ == "Audio not initialized"@
                && f.sound == failure_sound(flow, sound_on)),
            !audio_ready ==> final(self).status_spec() == old(self).status_spec(),
            audio_ready ==> r is Ok,
            audio_ready ==> final(self).status_spec() == AppStatus::Processing,
    {
        if !audio_ready {
            return Err(failure(flow, String::from_str("Audio not initialized"), sound_on));
        }
        self.status = AppStatus::Processing;
        Ok(())
    }

    /// After the WAV conversion: a failure returns to idle (in every flow)
    /// and reports "WAV encoding failed: <error>".
    pub fn after_wav(&mut self, flow: Flow, wav: Result<(), AudioError>, sound_on: bool) -> (r: Result<
        (),
        RunFailure,
    >)
        ensures
            same_except_status(*final(self), *old(self)),
            wav is Ok ==> r is Ok,
            wav is Ok ==> final(self).status_spec() == old(self).status_spec(),
            wav is Err ==> (r matches Err(f)
                && f.message@ == "WAV encoding failed: "@ + audio_error_message(wav->Err_0)
                && f.sound == failure_sound(flow, sound_on)),
            wav is Err ==> final(self).status_spec() == AppStatus::Idle,
    {
        match wav {
            Ok(()) => Ok(()),
            Err(e) => {
                self.status = AppStatus::Idle;
                let m = String::from_str("WAV encoding failed: ").concat(e.message().as_str());
                Err(failure(flow, m, sound_on))
            },
        }
    }

    /// After recognition (`None`: no recognition client configured): the
    /// recognised text, or a failure ("ASR not configured. Please set your
    /// API key." / "ASR failed: <error>") that returns the hotkey flows to
    /// idle.
    pub fn after_recognition(
        &mut self,
        flow: Flow,
        result: Option<Result<String, AsrError>>,
        sound_on: bool,
    ) -> (r: Result<String, RunFailure>)
        ensures
            same_except_status(*final(self), *old(self)),
            result matches Some(Ok(t)) ==> (r == Ok::<String, RunFailure>(t)
                && final(self).status_spec() == old(self).status_spec()),
            result is None ==> (r matches Err(f)
                && f.message@ == "ASR not configured. Please set your API key."@
                && f.sound == failure_sound(flow, sound_on)),
            result matches Some(Err(e)) ==> (r matches Err(f)
                && f.message@ == "ASR failed: "@ + asr_error_message(e)
                && f.sound == failure_sound(flow, sound_on)),
            !(result matches Some(Ok(_))) ==> final(self).status_spec()
                == status_after_failure(flow, old(self).status_spec()),
    {
        match result {
            Some(Ok(t)) => Ok(t),
            None => {
                if flow != Flow::Command {
                    self.status = AppStatus::Idle;
                }
                Err(
                    failure(
                        flow,
                        String::from_str("ASR not configured. Please set your API key."),
                        sound_on,
                    ),
                )
            },
            Some(Err(e)) => {
                if flow != Flow::Command {
                    self.status = AppStatus::Idle;
                }
                let m = String::from_str("ASR failed: ").concat(e.message().as_str());
                Err(failure(flow, m, sound_on))
            },
        }
    }

    /// After injection: on success the raw and injected texts are cached,
    /// the status returns to idle, and the hotkeys play the stop sound (the
    /// caller then saves the run to the history); on failure the command
    /// reports "Failed to init text injector: <error>" or "Failed to inject
    /// text: <error>" and leaves the status, the hotkeys play the error sound
    /// and return to idle.
    pub fn after_injection(
        &mut self,
        flow: Flow,
        raw: String,
        text: String,
        result: Result<(), InjectFailure>,
        sound_on: bool,
    ) -> (r: Result<RunSuccess, RunFailure>)
        ensures
            final(self).asr_spec() == old(self).asr_spec(),
            final(self).llm_spec() == old(self).llm_spec(),
            final(self).device_spec() == old(self).device_spec(),
            final(self).target_spec() == old(self).target_spec(),
            result is Ok ==> (r matches Ok(s) && s.text == text
                && s.sound == (if flow == Flow::Command { None } else { play_stop_spec(sound_on) })),
            result is Ok && !sound_on ==> (r matches Ok(s) && s.sound is None),
            result is Ok && sound_on && flow != Flow::Command ==> (r matches Ok(s) && s.sound == Some(
                SystemSound::Glass,
            )),
            result is Ok ==> final(self).status_spec() == AppStatus::Idle,
            result is Ok ==> final(self).last_raw_spec() == Some(raw),
            result is Ok ==> final(self).last_text_spec() == Some(text),
            result is Err ==> final(self).last_raw_spec() == old(self).last_raw_spec(),
            result is Err ==> final(self).last_text_spec() == old(self).last_text_spec(),
            result is Err ==> final(self).status_spec() == status_after_failure(flow, old(self).status_spec()),
            result matches Err(InjectFailure::Init(e)) ==> (r matches Err(f)
                && f.message@ == "Failed to init text injector: "@ + injection_error_message(e)
                && f.sound == failure_sound(flow, sound_on)),
            result matches Err(InjectFailure::Inject(e)) ==> (r matches Err(f)
                && f.message@ == "Failed to inject text: "@ + injection_error_message(e)
                && f.sound == failure_sound(flow, sound_on)),
    {
        match result {
            Ok(()) => {
                let sound = match flow {
                    Flow::Command => None,
                    _ => play_stop(sound_on),
                };
                let kept = text.clone();
                self.last_raw = Some(raw);
                self.last_text = Some(text);
                self.status = AppStatus::Idle;
                Ok(RunSuccess { text: kept, sound })
            },
            Err(InjectFailure::Init(e)) => {
                if flow != Flow::Command {
                    self.status = AppStatus::Idle;
                }
                let m = String::from_str("Failed to init text injector: ").concat(
                    e.message().as_str(),
                );
                Err(failure(flow, m, sound_on))
            },
            Err(InjectFailure::Inject(e)) => {
                if flow != Flow::Command {
                    self.status = AppStatus::Idle;
                }
                let m = String::from_str("Failed to inject text: ").concat(e.message().as_str());
                Err(failure(flow, m, sound_on))
            },
        }
    }
}

/// The stop sound, if sounds are enabled.
pub open spec fn play_stop_spec(sound_on: bool) -> Option<SystemSound> {
    if_enabled(sound_on, SystemSound::Glass)
}

/// With sounds disabled a run is silent, whatever the flow and whatever
/// happens: no stop sound on success, no error sound on failure, no sound on
/// pressing a hotkey. With sounds enabled the hotkeys' success plays the
/// stop sound (Glass) and their failures the error sound (Basso).
pub proof fn lemma_sounds_off_is_silent(flow: Flow, started: bool)
    ensures
        play_stop_spec(false) is None,
        failure_sound(flow, false) is None,
        if_enabled(false, if started { SystemSound::Tink } else { SystemSound::Basso }) is None,
        play_stop_spec(true) == Some(SystemSound::Glass),
        flow != Flow::Command ==> failure_sound(flow, true) == Some(SystemSound::Basso),
{
}

/// The sound after pressing a recording hotkey: the start sound when
/// recording started, the error sound when it could not.
pub fn recording_started_sound(started: bool, sound_on: bool) -> (r: Option<SystemSound>)
    ensures
        r == if_enabled(sound_on, if started { SystemSound::Tink } else { SystemSound::Basso }),
{
    if started {
        crate::sound::play_start(sound_on)
    } else {
        play_error(sound_on)
    }
}

impl Pipeline {
    /// Restore the persisted configuration at start-up: the translation
    /// target always; the clients only when a non-empty API key was stored
    /// (with the stored polishing flag); the chosen microphone in any case.
    pub fn restore(
        &mut self,
        api_key: Option<String>,
        llm_enabled: bool,
        selected_device: Option<String>,
        translation_target: String,
    )
        ensures
            final(self).target_spec() == translation_target@,
            final(self).device_spec() == selected_device,
            final(self).status_spec() == old(self).status_spec(),
            final(self).last_raw_spec() == old(self).last_raw_spec(),
            final(self).last_text_spec() == old(self).last_text_spec(),
            (api_key matches Some(k) && k@.len() > 0) ==> (final(self).asr_spec() matches Some(a)
                && a.key() == api_key->Some_0@),
            (api_key matches Some(k) && k@.len() > 0) ==> (final(self).llm_spec() matches Some(l)
                && l.key() == api_key->Some_0@ && l.polishing() == llm_enabled),
            !(api_key matches Some(k) && k@.len() > 0) ==> final(self).asr_spec() == old(
                self,
            ).asr_spec() && final(self).llm_spec() == old(self).llm_spec(),
    {
        self.set_translation_target(translation_target);
        match api_key {
            Some(key) => {
                if !key.as_str().is_empty() {
                    self.configure(key, llm_enabled);
                }
            },
            None => {},
        }
        self.set_selected_device(selected_device);
    }
}

} // verus!
