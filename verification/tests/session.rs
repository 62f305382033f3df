use speech_core::errors::SttError;
use speech_core::modes::{resolve, select_backend, BackendKind, EffectiveMode, SttMode};
use speech_core::recording::{clip_file_name, u64_to_decimal, AudioClip, RecordingSession};
use speech_core::speech::{
    finish_transcription, local_transcription, missing_file_error, BackendOutcome,
    SpeechToTextService, TranscriptionResult,
};

fn service() -> SpeechToTextService {
    SpeechToTextService::new(
        Some(String::from("openai-key")),
        Some(String::from("gemini-key")),
    )
    .expect("both credentials present")
}

#[test]
fn session_alternates_strictly() {
    let mut s = RecordingSession::new();
    assert!(!s.is_recording());
    assert!(s.start().is_ok());
    assert!(s.is_recording());
    let again = s.start();
    assert!(matches!(again, Err(SttError::StateError(_))));
    assert!(s.is_recording());
    let clip = s.stop(vec![1, 2, 3], 7).expect("stop while recording");
    assert!(!s.is_recording());
    assert_eq!(clip.data, vec![1, 2, 3]);
    let idle_stop = s.stop(vec![], 8);
    assert!(matches!(idle_stop, Err(SttError::StateError(_))));
    assert!(s.start().is_ok());
}

#[test]
fn double_start_fails_and_stays_recording() {
    let mut s = service();
    assert!(s.start_recording().is_ok());
    let second = s.start_recording();
    match second {
        Err(SttError::StateError(m)) => assert_eq!(m, "Already recording"),
        other => panic!("expected a state error, got {:?}", other),
    }
    let clip = s.stop_recording_at(vec![9], 1);
    assert!(clip.is_ok(), "state must still be Recording after the failed start");
}

#[test]
fn stop_while_idle_produces_no_clip() {
    let mut s = RecordingSession::new();
    let r = s.stop(vec![1], 5);
    match r {
        Err(SttError::StateError(m)) => assert_eq!(m, "Not recording"),
        Ok(_) => panic!("stop while Idle must never produce a clip"),
        Err(e) => panic!("wrong error kind: {}", e.message()),
    }
}

#[test]
fn resolve_ignores_probe_for_explicit_modes() {
    for online in [false, true] {
        assert_eq!(resolve(SttMode::Online, online), EffectiveMode::Online);
        assert_eq!(resolve(SttMode::Offline, online), EffectiveMode::Offline);
    }
    assert_eq!(resolve(SttMode::Auto, true), EffectiveMode::Online);
    assert_eq!(resolve(SttMode::Auto, false), EffectiveMode::Offline);
}

#[test]
fn backend_selection() {
    assert_eq!(select_backend(EffectiveMode::Online, false), BackendKind::Streaming);
    assert_eq!(select_backend(EffectiveMode::Online, true), BackendKind::Streaming);
    assert_eq!(select_backend(EffectiveMode::Offline, true), BackendKind::RestFallback);
    assert_eq!(select_backend(EffectiveMode::Offline, false), BackendKind::LocalEngine);
}

#[test]
fn decimal_rendering() {
    assert_eq!(u64_to_decimal(0), "0");
    assert_eq!(u64_to_decimal(7), "7");
    assert_eq!(u64_to_decimal(10), "10");
    assert_eq!(u64_to_decimal(1234567890), "1234567890");
    assert_eq!(u64_to_decimal(u64::MAX), "18446744073709551615");
}

#[test]
fn clip_names_derive_from_timestamp() {
    assert_eq!(clip_file_name(42), "recording_42.wav");
    assert_eq!(clip_file_name(0), "recording_0.wav");
    assert_ne!(clip_file_name(41), clip_file_name(42));
}

#[test]
fn stop_names_clip_after_timestamp() {
    let mut s = service();
    s.start_recording().unwrap();
    let clip = s.stop_recording_at(vec![4, 5], 42).unwrap();
    assert_eq!(clip.file_name, "recording_42.wav");
    assert_eq!(clip.timestamp_secs, 42);
    assert_eq!(clip.data, vec![4, 5]);
}

#[test]
fn stop_with_clock_names_clip_like_a_recording() {
    let mut s = service();
    s.start_recording().unwrap();
    let clip = s.stop_recording(vec![1]).unwrap();
    assert!(clip.file_name.starts_with("recording_"));
    assert!(clip.file_name.ends_with(".wav"));
}

#[test]
fn missing_credentials_are_configuration_errors() {
    let none = SpeechToTextService::new(None, Some(String::from("g")));
    match none {
        Err(SttError::ConfigurationError(m)) => {
            assert_eq!(m, "OPENAI_API_KEY not found in environment variables")
        }
        _ => panic!("expected a configuration error"),
    }
    let no_gemini = SpeechToTextService::new(Some(String::from("o")), None);
    match no_gemini {
        Err(SttError::ConfigurationError(m)) => {
            assert_eq!(m, "GEMINI_API_KEY not found in environment variables")
        }
        _ => panic!("expected a configuration error"),
    }
    assert!(SpeechToTextService::new(Some(String::from("o")), Some(String::from("g"))).is_ok());
}

#[test]
fn mode_setter_takes_effect_on_next_resolution() {
    let mut s = service();
    assert_eq!(s.get_mode(), SttMode::Auto);
    s.set_mode(SttMode::Offline);
    assert_eq!(s.get_mode(), SttMode::Offline);
    assert_eq!(s.resolve_mode(true), EffectiveMode::Offline);
    s.set_mode(SttMode::Online);
    assert_eq!(s.resolve_mode(false), EffectiveMode::Online);
}

#[test]
fn scenario_automatic_offline_returns_local_result_unchanged() {
    let s = service();
    // configured Automatic, both probes report offline
    assert_eq!(s.get_mode(), SttMode::Auto);
    assert_eq!(s.choose_backend(false, false), BackendKind::LocalEngine);
    let local = TranscriptionResult::new(String::from("ok"), String::from("en"));
    let out = finish_transcription(BackendOutcome::Local(local)).unwrap();
    assert_eq!(out.text, "ok");
    assert_eq!(out.language, "en");
}

#[test]
fn offline_mode_delegates_to_rest_when_reachable() {
    let mut s = service();
    s.set_mode(SttMode::Offline);
    assert_eq!(s.choose_backend(true, true), BackendKind::RestFallback);
    let out = finish_transcription(BackendOutcome::Rested(
        200,
        String::from("{\"text\":\"from the network\"}"),
    ))
    .unwrap();
    assert_eq!(out.text, "from the network");
    assert_eq!(out.language, "en");
}

#[test]
fn local_path_placeholder() {
    let r = local_transcription();
    assert_eq!(
        r.text,
        "[Offline transcription placeholder - would use Candle with Whisper model]"
    );
    assert_eq!(r.language, "en");
}

#[test]
fn missing_file_error_names_the_path() {
    let e = missing_file_error(&String::from("/tmp/x.wav"));
    match e {
        SttError::IoError(m) => assert_eq!(m, "Audio file not found: /tmp/x.wav"),
        _ => panic!("expected an io error"),
    }
}

#[test]
fn clip_assembly_keeps_parts() {
    let c = AudioClip::new(vec![1, 2], String::from("saved.wav"), 5);
    assert_eq!(c.data, vec![1, 2]);
    assert_eq!(c.file_name, "saved.wav");
    assert_eq!(c.timestamp_secs, 5);
}

#[test]
fn error_message_accessor() {
    let e = SttError::TimeoutError(String::from("late"));
    assert_eq!(e.message(), "late");
}
