use s2tui::audio::capture::{AudioCapture, DeviceQuery, InputConfig, SampleFormat, StreamOutcome};
use s2tui::audio::vad::VoiceActivityDetector;
use s2tui::commands::{
    check_permissions, get_available_models, model_filename, model_id, model_missing_message,
    set_language, set_model, start_listen, stop_listen, ListenMode, Recording,
};
use s2tui::events::{PermissionRequiredEvent, StateChangeEvent, TranscriptEvent};
use s2tui::state::{AppStatus, Language, Permissions, Settings};

fn capturing() -> AudioCapture {
    let mut capture = AudioCapture::new();
    let query = DeviceQuery::Ready(InputConfig { sample_rate: 16000, channels: 1, format: SampleFormat::I16 });
    let plan = capture.plan_stream(query).unwrap();
    capture.stream_opened(plan, StreamOutcome::Playing).unwrap();
    capture
}

#[test]
fn listening_needs_the_microphone() {
    let denied = Permissions { microphone: false };
    for mode in [ListenMode::Toggle, ListenMode::PushToTalk, ListenMode::VoiceActivated] {
        assert_eq!(start_listen(mode, &denied), Err("Microphone permission required".to_string()));
        assert_eq!(start_listen(mode, &Permissions { microphone: true }), Ok(()));
    }
    assert!(start_listen(ListenMode::Toggle, &Permissions::default()).is_err());
}

#[test]
fn a_recording_under_half_a_second_is_too_short() {
    let mut capture = capturing();
    let mut vad = VoiceActivityDetector::new();
    capture.on_input_i16(&vec![9000i16; 7999]);
    assert!(vad.process(&[9000; 100]).is_speech);
    let recording = stop_listen(&mut capture, &mut vad);
    assert_eq!(recording.rejection().as_deref(), Some("Recording too short"));
    assert!(matches!(recording, Recording::TooShort { samples: 7999 }));
    assert!(!capture.is_capturing());
    assert_eq!(capture.buffered_samples(), 0);
    assert!(!vad.in_speech());
}

#[test]
fn a_recording_of_half_a_second_is_captured() {
    let mut capture = capturing();
    let mut vad = VoiceActivityDetector::new();
    let samples: Vec<i16> = (0..8000).map(|i| (i % 100) as i16).collect();
    capture.on_input_i16(&samples);
    vad.process(&samples);
    let recording = stop_listen(&mut capture, &mut vad);
    assert_eq!(recording.rejection(), None);
    match recording {
        Recording::Captured { samples: captured } => assert_eq!(captured, samples),
        other => panic!("unexpected recording: {:?}", other),
    }
    assert!(!capture.is_capturing());
    assert!(!vad.in_speech());
}

#[test]
fn stopping_without_a_recording_is_too_short() {
    let mut capture = AudioCapture::new();
    let mut vad = VoiceActivityDetector::new();
    assert!(matches!(stop_listen(&mut capture, &mut vad), Recording::TooShort { samples: 0 }));
}

#[test]
fn model_file_names() {
    assert_eq!(model_filename("large-v3-turbo"), "ggml-large-v3-turbo.bin");
    assert_eq!(model_filename(""), "ggml-.bin");
    assert_eq!(
        model_missing_message("ggml-small.bin", "/opt/models/ggml-small.bin"),
        "Model not found: ggml-small.bin. Expected at: /opt/models/ggml-small.bin"
    );
}

#[test]
fn model_identifiers() {
    assert_eq!(model_id("ggml-small.bin").as_deref(), Some("small"));
    assert_eq!(model_id("ggml-large-v3-turbo.bin").as_deref(), Some("large-v3-turbo"));
    assert_eq!(model_id("ggml-.bin").as_deref(), Some(""));
    assert_eq!(model_id("ggml-mod\u{e8}le.bin").as_deref(), Some("mod\u{e8}le"));
    assert_eq!(model_id("ggml-a.bin.bin").as_deref(), Some("a.bin"));
    assert_eq!(model_id("ggml-small.BIN"), None);
    assert_eq!(model_id("GGML-small.bin"), None);
    assert_eq!(model_id("small.bin"), None);
    assert_eq!(model_id("ggml-small"), None);
    assert_eq!(model_id("xggml-small.bin"), None);
    assert_eq!(model_id("ggml.bin"), None);
    assert_eq!(model_id(".bin"), None);
    assert_eq!(model_id(""), None);
    assert_eq!(model_id(&model_filename("tiny.en")).as_deref(), Some("tiny.en"));
}

#[test]
fn available_models_are_the_model_files_sorted() {
    let files: Vec<String> = ["ggml-small.bin", "README.md", "ggml-base.bin", "ggml-tiny.en.bin", "ggml-base.bin", "base.bin", "ggml-Large.bin", "ggml-b.bin"]
        .iter()
        .map(|name| name.to_string())
        .collect();
    assert_eq!(get_available_models(&files), vec!["Large", "b", "base", "base", "small", "tiny.en"]);
    assert_eq!(get_available_models(&vec![]), Vec::<String>::new());
    assert_eq!(get_available_models(&vec!["notes.txt".to_string()]), Vec::<String>::new());
    let accented: Vec<String> = vec!["ggml-\u{e9}.bin".to_string(), "ggml-z.bin".to_string(), "ggml-a.bin".to_string()];
    assert_eq!(get_available_models(&accented), vec!["a", "z", "\u{e9}"]);
}

#[test]
fn language_codes() {
    assert_eq!(set_language("en"), Language::En);
    assert_eq!(set_language("fr"), Language::Fr);
    assert_eq!(set_language("es"), Language::Es);
    assert_eq!(set_language("de"), Language::De);
    assert_eq!(set_language("it"), Language::It);
    assert_eq!(set_language("pt"), Language::Pt);
    assert_eq!(set_language("nl"), Language::Nl);
    assert_eq!(set_language("ja"), Language::Ja);
    assert_eq!(set_language("zh"), Language::Zh);
    assert_eq!(set_language("ko"), Language::Ko);
    assert_eq!(set_language("ar"), Language::Ar);
    assert_eq!(set_language("hi"), Language::Hi);
    assert_eq!(set_language("pl"), Language::Pl);
    assert_eq!(set_language("auto"), Language::Auto);
    assert_eq!(set_language("EN"), Language::Auto);
    assert_eq!(set_language(""), Language::Auto);
    assert_eq!(set_language("en "), Language::Auto);
}

#[test]
fn defaults_of_the_shell_state() {
    let settings = Settings::default();
    assert_eq!(settings.language, Language::Auto);
    assert_eq!(settings.model, "large-v3-turbo");
    assert_eq!(settings.quantization, "q5_0");
    assert_eq!(settings.shortcut, "CommandOrControl+Shift+Space");
    assert_eq!(Language::default(), Language::Auto);
    assert!(!Permissions::default().microphone);
    assert!(check_permissions(true).microphone);
    assert!(!check_permissions(false).microphone);
}

#[test]
fn setting_a_model_changes_nothing_else() {
    let mut settings = Settings::default();
    set_model(&mut settings, "small".to_string());
    assert_eq!(settings.model, "small");
    assert_eq!(settings.language, Language::Auto);
    assert_eq!(settings.quantization, "q5_0");
    assert_eq!(settings.shortcut, "CommandOrControl+Shift+Space");
}

#[test]
fn status_and_event_names() {
    assert_eq!(AppStatus::Idle.name(), "idle");
    assert_eq!(AppStatus::Listening.name(), "listening");
    assert_eq!(AppStatus::Processing.name(), "processing");
    assert_eq!(AppStatus::Error.name(), "error");
    assert_eq!(PermissionRequiredEvent::Microphone.name(), "microphone");
    assert_eq!(PermissionRequiredEvent::Accessibility.name(), "accessibility");
    let event = TranscriptEvent { text: "hello".to_string() };
    assert_eq!(event.text, "hello");
    assert!(matches!(StateChangeEvent::Listening, StateChangeEvent::Listening));
}
