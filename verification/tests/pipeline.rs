use voice_typing::asr::AsrError;
use voice_typing::audio::recorder::AudioError;
use voice_typing::injector::{inject_route, inject_smart_route, InjectRoute, InjectionError};
use voice_typing::llm::LlmError;
use voice_typing::pipeline::{
    injection_context, llm_stage, recording_started_sound, refine_outcome, status_label,
    uses_app_context, AppStatus, Flow, InjectFailure, LlmStage, Pipeline,
};
use voice_typing::sound::SystemSound;

#[test]
fn test_pipeline_creation() {
    let pipeline = Pipeline::new();
    assert_eq!(pipeline.status(), AppStatus::Idle);
}

#[test]
fn test_pipeline_configure() {
    let mut pipeline = Pipeline::new();
    pipeline.configure("test-key".to_string(), true);
    assert!(pipeline.asr_client().is_some());
    assert!(pipeline.llm_client().is_some());
    assert_eq!(pipeline.asr_client().unwrap().api_key(), "test-key");
    assert!(pipeline.llm_client().unwrap().is_enabled());
}

#[test]
fn test_status_transitions() {
    let mut pipeline = Pipeline::new();
    assert_eq!(pipeline.status(), AppStatus::Idle);
    pipeline.set_status(AppStatus::Recording);
    assert_eq!(pipeline.status(), AppStatus::Recording);
    pipeline.set_status(AppStatus::Processing);
    assert_eq!(pipeline.status(), AppStatus::Processing);
}

#[test]
fn status_labels() {
    assert_eq!(status_label(&AppStatus::Idle), "idle");
    assert_eq!(status_label(&AppStatus::Recording), "recording");
    assert_eq!(status_label(&AppStatus::Processing), "processing");
    assert_eq!(status_label(&AppStatus::Error("boom".into())), "error:boom");
    assert_ne!(AppStatus::Error("a".into()), AppStatus::Error("b".into()));
}

#[test]
fn cached_settings_round_trip() {
    let mut p = Pipeline::new();
    assert_eq!(p.translation_target(), "English");
    p.set_translation_target("日本語".to_string());
    assert_eq!(p.translation_target(), "日本語");
    assert_eq!(p.selected_device(), None);
    p.set_selected_device(Some("USB Mic".to_string()));
    assert_eq!(p.selected_device(), Some("USB Mic".to_string()));
    assert_eq!(p.last_transcription(), None);
    p.set_last_transcription("raw".into(), "text".into());
    assert_eq!(p.last_raw_transcription(), Some("raw".to_string()));
    assert_eq!(p.last_transcription(), Some("text".to_string()));
}

#[test]
fn command_run_succeeds() {
    let mut p = Pipeline::new();
    p.configure("k".into(), true);
    p.start_recording();
    assert_eq!(p.status(), AppStatus::Recording);
    assert!(p.begin_processing(Flow::Command, true, true).is_ok());
    assert_eq!(p.status(), AppStatus::Processing);
    assert!(p.after_wav(Flow::Command, Ok(()), true).is_ok());
    let raw = p.after_recognition(Flow::Command, Some(Ok("嗯你好".into())), true).ok().unwrap();
    let text = refine_outcome(raw.clone(), Some(Ok("你好。".into())));
    let done = p.after_injection(Flow::Command, raw, text, Ok(()), true).ok().unwrap();
    assert_eq!(done.text, "你好。");
    assert_eq!(done.sound, None);
    assert_eq!(p.status(), AppStatus::Idle);
    assert_eq!(p.last_raw_transcription(), Some("嗯你好".to_string()));
    assert_eq!(p.last_transcription(), Some("你好。".to_string()));
}

#[test]
fn command_failures_report_messages() {
    let mut p = Pipeline::new();
    let f = p.begin_processing(Flow::Command, false, true).err().unwrap();
    assert_eq!(f.message, "Audio not initialized");
    assert_eq!(f.sound, None);
    assert_eq!(p.status(), AppStatus::Idle);
    p.begin_processing(Flow::Command, true, true).unwrap();
    let f = p.after_recognition(Flow::Command, None, true).err().unwrap();
    assert_eq!(f.message, "ASR not configured. Please set your API key.");
    // The command leaves the status as it was.
    assert_eq!(p.status(), AppStatus::Processing);
    let f = p
        .after_recognition(Flow::Command, Some(Err(AsrError::NetworkError("timeout".into()))), true)
        .err()
        .unwrap();
    assert_eq!(f.message, "ASR failed: Network error: timeout");
    let f = p.after_wav(Flow::Command, Err(AudioError::NoData), true).err().unwrap();
    assert_eq!(f.message, "WAV encoding failed: No audio data recorded");
    assert_eq!(p.status(), AppStatus::Idle);
    p.begin_processing(Flow::Command, true, true).unwrap();
    let f = p
        .after_injection(
            Flow::Command,
            "r".into(),
            "t".into(),
            Err(InjectFailure::Init(InjectionError::InitError("no access".into()))),
            true,
        )
        .err()
        .unwrap();
    assert_eq!(f.message, "Failed to init text injector: Failed to initialize input simulator: no access");
    let f = p
        .after_injection(
            Flow::Command,
            "r".into(),
            "t".into(),
            Err(InjectFailure::Inject(InjectionError::InputError("x".into()))),
            true,
        )
        .err()
        .unwrap();
    assert_eq!(f.message, "Failed to inject text: Failed to inject text: x");
    assert_eq!(p.last_transcription(), None);
}

#[test]
fn hotkey_failures_return_to_idle_with_error_sound() {
    let mut p = Pipeline::new();
    let f = p.begin_processing(Flow::Dictation, false, true).err().unwrap();
    assert_eq!(f.sound, Some(SystemSound::Basso));
    p.begin_processing(Flow::Dictation, true, true).unwrap();
    let f = p.after_recognition(Flow::Dictation, None, false).err().unwrap();
    assert_eq!(f.sound, None);
    assert_eq!(p.status(), AppStatus::Idle);
    p.begin_processing(Flow::Translation, true, true).unwrap();
    let f = p
        .after_injection(
            Flow::Translation,
            "r".into(),
            "t".into(),
            Err(InjectFailure::Inject(InjectionError::InputError("x".into()))),
            true,
        )
        .err()
        .unwrap();
    assert_eq!(f.sound, Some(SystemSound::Basso));
    assert_eq!(p.status(), AppStatus::Idle);
    p.begin_processing(Flow::Dictation, true, true).unwrap();
    let ok = p.after_injection(Flow::Dictation, "r".into(), "t".into(), Ok(()), true).ok().unwrap();
    assert_eq!(ok.sound, Some(SystemSound::Glass));
    assert_eq!(p.status(), AppStatus::Idle);
}

#[test]
fn refine_falls_back_to_raw() {
    assert_eq!(refine_outcome("raw".into(), None), "raw");
    assert_eq!(refine_outcome("raw".into(), Some(Err(LlmError::ApiError("x".into())))), "raw");
    assert_eq!(refine_outcome("raw".into(), Some(Ok("done".into()))), "done");
}

#[test]
fn press_sounds() {
    assert_eq!(recording_started_sound(true, true), Some(SystemSound::Tink));
    assert_eq!(recording_started_sound(false, true), Some(SystemSound::Basso));
    assert_eq!(recording_started_sound(true, false), None);
}

#[test]
fn test_inject_empty_string() {
    assert_eq!(inject_route(""), InjectRoute::Nothing);
    assert_eq!(inject_route("a"), InjectRoute::Keys);
}

#[test]
fn test_inject_smart_empty() {
    assert_eq!(inject_smart_route("", false), InjectRoute::Nothing);
    assert_eq!(inject_smart_route("", true), InjectRoute::Nothing);
    assert_eq!(inject_smart_route("a", true), InjectRoute::Clipboard);
    assert_eq!(inject_smart_route("a", false), InjectRoute::Keys);
}

#[test]
fn injection_error_messages() {
    assert_eq!(InjectionError::ClipboardError("c".into()).message(), "Clipboard error: c");
}

#[test]
fn stages_per_flow() {
    assert_eq!(llm_stage(Flow::Translation), LlmStage::Translate);
    assert_eq!(llm_stage(Flow::Dictation), LlmStage::Polish);
    assert_eq!(llm_stage(Flow::Command), LlmStage::Polish);
    assert!(uses_app_context(Flow::Command));
    assert!(!uses_app_context(Flow::Dictation));
    let bl = vec!["Notes".to_string()];
    assert_eq!(injection_context(Flow::Command, "Mail", &bl), ("formal, professional", false));
    assert_eq!(injection_context(Flow::Command, "iTerm2", &bl), ("technical, minimal editing", true));
    assert_eq!(injection_context(Flow::Command, "notes", &bl), ("natural, clear", true));
    assert_eq!(injection_context(Flow::Dictation, "iTerm2", &bl), ("", false));
    assert_eq!(injection_context(Flow::Translation, "Mail", &bl), ("", false));
}
