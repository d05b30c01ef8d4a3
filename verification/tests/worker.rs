use s2tui::whisper::gpu::GpuBackend;
use s2tui::whisper::worker::{
    finish_transcribe, join_segments, optimal_thread_count, InferenceOutcome, LoadPhase, LoadStep,
    ModelFile, WhisperConfig, WhisperEngine, WhisperError,
};

fn model(path: &str) -> ModelFile {
    ModelFile { path: path.to_string(), exists: true, is_unicode: true }
}

fn engine() -> WhisperEngine<u32> {
    WhisperEngine::new(WhisperConfig::default())
}

fn loaded_engine(context: u32) -> WhisperEngine<u32> {
    let mut engine = engine();
    assert!(matches!(engine.load_model(model("first.bin")), LoadStep::DetectBackend));
    assert!(matches!(engine.backend_detected(GpuBackend::Cpu), LoadStep::InitCpu));
    assert!(engine.cpu_initialized(Ok(context)).is_ok());
    engine
}

#[test]
fn test_config_default() {
    let config = WhisperConfig::default();
    assert!(config.language.is_none());
    assert!(!config.translate);
    // n_threads is now dynamic (75% of CPUs), just ensure it's at least 1
    assert!(config.n_threads >= 1);
}

#[test]
fn test_engine_not_loaded() {
    let engine = engine();
    assert!(!engine.is_loaded());

    let result = engine.transcribe(&[0i16; 1000]);
    assert!(matches!(result, Err(WhisperError::NotLoaded)));
}

#[test]
fn thread_count_is_three_quarters_rounded_up() {
    assert_eq!(optimal_thread_count(0), 1);
    assert_eq!(optimal_thread_count(1), 1);
    assert_eq!(optimal_thread_count(2), 2);
    assert_eq!(optimal_thread_count(3), 3);
    assert_eq!(optimal_thread_count(4), 3);
    assert_eq!(optimal_thread_count(8), 6);
    assert_eq!(optimal_thread_count(10), 8);
    assert_eq!(optimal_thread_count(16), 12);
    assert_eq!(optimal_thread_count(usize::MAX), i32::MAX);
    assert_eq!(WhisperConfig::for_cpus(16).n_threads, 12);
    assert_eq!(WhisperConfig::default().n_threads, 3);
    assert_eq!(WhisperConfig::default().model_path, "");
}

#[test]
fn error_messages() {
    assert_eq!(WhisperError::NotLoaded.message(), "Model not loaded");
    assert_eq!(WhisperError::LoadError("x".to_string()).message(), "Failed to load model: x");
    assert_eq!(WhisperError::ModelNotFound("/m.bin".to_string()).message(), "Model not found: /m.bin");
    assert_eq!(WhisperError::TranscriptionError("y".to_string()).message(), "Transcription failed: y");
    assert_eq!(WhisperError::InvalidAudio.message(), "Invalid audio data");
}

#[test]
fn transcribe_without_samples_is_invalid_audio() {
    let engine = loaded_engine(7);
    assert!(matches!(engine.transcribe(&[]), Err(WhisperError::InvalidAudio)));
    // Whether or not a model is loaded.
    assert!(matches!(self::engine().transcribe(&[]), Err(WhisperError::InvalidAudio)));
    assert!(matches!(self::engine().transcribe(&[0]), Err(WhisperError::NotLoaded)));
}

#[test]
fn transcribe_hands_out_the_settings() {
    let mut engine = loaded_engine(7);
    let job = engine.transcribe(&[1, 2, 3]).unwrap();
    assert_eq!(job.language, None);
    assert!(!job.translate);
    assert_eq!(job.n_threads, 3);
    engine.set_language(Some("fr".to_string()));
    assert_eq!(engine.transcribe(&[1]).unwrap().language.as_deref(), Some("fr"));
    engine.set_language(None);
    assert_eq!(engine.transcribe(&[1]).unwrap().language, None);
    assert_eq!(engine.context(), Some(&7));
}

#[test]
fn missing_model_fails_and_keeps_the_loaded_context() {
    let mut engine = loaded_engine(7);
    let missing = ModelFile { path: "/models/none.bin".to_string(), exists: false, is_unicode: true };
    match engine.load_model_with_options(missing, false) {
        LoadStep::Done(Err(WhisperError::ModelNotFound(path))) => assert_eq!(path, "/models/none.bin"),
        other => panic!("unexpected step: {:?}", other),
    }
    assert!(engine.is_loaded());
    assert_eq!(engine.context(), Some(&7));
    assert!(matches!(engine.load_phase(), LoadPhase::Idle));
    // And on an engine without a model nothing gets loaded.
    let mut empty = self::engine();
    let missing = ModelFile { path: "gone".to_string(), exists: false, is_unicode: true };
    assert!(matches!(empty.load_model(missing), LoadStep::Done(Err(WhisperError::ModelNotFound(_)))));
    assert!(!empty.is_loaded());
}

#[test]
fn forced_cpu_never_tries_the_gpu() {
    let mut engine = engine();
    assert!(matches!(engine.load_model_with_options(model("m.bin"), true), LoadStep::DetectBackend));
    assert!(matches!(engine.backend_detected(GpuBackend::Cuda), LoadStep::InitCpu));
    let result = engine.cpu_initialized(Ok(1)).unwrap();
    assert!(result.success);
    assert!(!result.using_gpu);
    assert!(!result.fallback_used);
    assert_eq!(result.backend, "CPU");
    assert!(engine.is_loaded());
    assert!(!engine.is_using_gpu());
    assert!(!engine.was_fallback_used());
    assert_eq!(engine.get_backend_name(GpuBackend::Cuda), "CPU");
}

#[test]
fn gpu_failure_falls_back_to_the_cpu() {
    let mut engine = engine();
    assert!(matches!(engine.load_model(model("m.bin")), LoadStep::DetectBackend));
    assert!(matches!(engine.backend_detected(GpuBackend::Vulkan), LoadStep::InitGpu));
    assert!(matches!(engine.load_phase(), LoadPhase::AwaitingGpu));
    assert!(matches!(engine.gpu_initialized(Err("no device".to_string())), LoadStep::InitCpu));
    assert!(!engine.is_loaded());
    let result = engine.cpu_initialized(Ok(2)).unwrap();
    assert!(result.success);
    assert!(!result.using_gpu);
    assert!(result.fallback_used);
    assert_eq!(result.backend, "CPU");
    assert!(engine.was_fallback_used());
    assert!(!engine.is_using_gpu());
    assert_eq!(engine.context(), Some(&2));
}

#[test]
fn gpu_success_ends_the_load() {
    let mut engine = engine();
    engine.load_model(model("m.bin"));
    assert!(matches!(engine.backend_detected(GpuBackend::Metal), LoadStep::InitGpu));
    match engine.gpu_initialized(Ok(3)) {
        LoadStep::Done(Ok(result)) => {
            assert!(result.success);
            assert!(result.using_gpu);
            assert!(!result.fallback_used);
            assert_eq!(result.backend, "Metal");
        }
        other => panic!("unexpected step: {:?}", other),
    }
    assert!(engine.is_using_gpu());
    assert!(!engine.was_fallback_used());
    assert_eq!(engine.get_backend_name(GpuBackend::Metal), "Metal");
    assert_eq!(engine.get_backend_name(GpuBackend::Vulkan), "Vulkan");
    assert!(matches!(engine.load_phase(), LoadPhase::Idle));
}

#[test]
fn without_a_gpu_the_cpu_is_loaded_without_fallback() {
    let mut engine = engine();
    engine.load_model(model("m.bin"));
    assert!(matches!(engine.backend_detected(GpuBackend::Cpu), LoadStep::InitCpu));
    let result = engine.cpu_initialized(Ok(4)).unwrap();
    assert!(!result.using_gpu);
    assert!(!result.fallback_used);
}

#[test]
fn failure_on_both_paths_is_a_load_error_and_keeps_the_old_context() {
    let mut engine = loaded_engine(7);
    engine.load_model(model("second.bin"));
    assert!(matches!(engine.backend_detected(GpuBackend::Cuda), LoadStep::InitGpu));
    assert!(matches!(engine.gpu_initialized(Err("gpu".to_string())), LoadStep::InitCpu));
    match engine.cpu_initialized(Err("bad magic".to_string())) {
        Err(WhisperError::LoadError(detail)) => assert_eq!(detail, "CPU loading failed: bad magic"),
        other => panic!("unexpected result: {:?}", other),
    }
    assert_eq!(engine.context(), Some(&7));
    assert!(!engine.is_using_gpu());
    assert!(!engine.was_fallback_used());
}

#[test]
fn a_fallback_is_not_remembered_by_the_next_load() {
    let mut engine = engine();
    engine.load_model(model("m.bin"));
    engine.backend_detected(GpuBackend::Vulkan);
    engine.gpu_initialized(Err("busy".to_string()));
    assert!(engine.cpu_initialized(Ok(1)).is_ok());
    assert!(engine.was_fallback_used());
    engine.load_model(model("m.bin"));
    assert!(matches!(engine.backend_detected(GpuBackend::Vulkan), LoadStep::InitGpu));
    assert!(matches!(engine.gpu_initialized(Ok(2)), LoadStep::Done(Ok(_))));
    assert!(engine.is_using_gpu());
    assert!(!engine.was_fallback_used());
    assert_eq!(engine.context(), Some(&2));
}

#[test]
fn a_path_the_loader_cannot_take_is_a_load_error() {
    let mut engine = engine();
    let odd = ModelFile { path: "m\u{fffd}.bin".to_string(), exists: true, is_unicode: false };
    assert!(matches!(engine.load_model(odd), LoadStep::DetectBackend));
    match engine.backend_detected(GpuBackend::Cuda) {
        LoadStep::Done(Err(WhisperError::LoadError(detail))) => assert_eq!(detail, "Invalid model path"),
        other => panic!("unexpected step: {:?}", other),
    }
    assert!(!engine.is_loaded());
    assert!(matches!(engine.load_phase(), LoadPhase::Idle));
}

#[test]
fn segments_are_joined_with_single_spaces_and_trimmed() {
    let segments = vec![Some(" Hello".to_string()), Some("world.".to_string()), Some(" Bye ".to_string())];
    assert_eq!(join_segments(&segments), "Hello world.  Bye");
    assert_eq!(join_segments(&vec![]), "");
    assert_eq!(join_segments(&vec![Some("".to_string())]), "");
    assert_eq!(join_segments(&vec![Some(" \t\n".to_string()), Some("\u{3000}".to_string())]), "");
    assert_eq!(join_segments(&vec![Some("one".to_string())]), "one");
    // A segment whose text could not be read is left out.
    assert_eq!(join_segments(&vec![Some("a".to_string()), None, Some("b".to_string())]), "a b");
    assert_eq!(join_segments(&vec![None, None]), "");
    assert_eq!(join_segments(&vec![Some("\u{a0}caf\u{e9} \u{2003}".to_string())]), "caf\u{e9}");
}

#[test]
fn inference_failures_become_transcription_errors() {
    match finish_transcribe(InferenceOutcome::StateFailed("oom".to_string())) {
        Err(WhisperError::TranscriptionError(detail)) => assert_eq!(detail, "Failed to create state: oom"),
        other => panic!("unexpected result: {:?}", other),
    }
    match finish_transcribe(InferenceOutcome::RunFailed("nan".to_string())) {
        Err(WhisperError::TranscriptionError(detail)) => assert_eq!(detail, "Transcription failed: nan"),
        other => panic!("unexpected result: {:?}", other),
    }
    match finish_transcribe(InferenceOutcome::SegmentsFailed("eof".to_string())) {
        Err(WhisperError::TranscriptionError(detail)) => assert_eq!(detail, "Failed to get segments: eof"),
        other => panic!("unexpected result: {:?}", other),
    }
    let done = finish_transcribe(InferenceOutcome::Segments(vec![Some(" so".to_string()), Some("it goes".to_string())]));
    assert_eq!(done.unwrap(), "so it goes");
}
