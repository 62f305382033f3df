use speech_core::errors::SttError;
use speech_core::recording::AudioClip;
use speech_core::rest::{build_rest_request, interpret_rest_response};
use speech_core::speech::SpeechToTextService;
use speech_core::stream::{
    build_stream_plan, config_message, run_stream, streaming_url, turn_message, StreamEvent,
};
use speech_core::wire::parse_server_message;

fn text_event(body: &str) -> StreamEvent {
    StreamEvent::Text(String::from(body))
}

#[test]
fn parser_reads_text_field() {
    let m = parse_server_message("{\"text\":\"abc\"}");
    assert_eq!(m.text.as_deref(), Some("abc"));
    assert_eq!(m.error, None);
}

#[test]
fn parser_reads_error_field() {
    let m = parse_server_message("{\"error\":\"bad\"}");
    assert_eq!(m.text, None);
    assert_eq!(m.error.as_deref(), Some("bad"));
}

#[test]
fn parser_accepts_whitespace_and_extra_string_fields() {
    let m = parse_server_message("  { \"other\" : \"x\" ,\n\t\"text\" : \"hi\" }  ");
    assert_eq!(m.text.as_deref(), Some("hi"));
    assert_eq!(m.error, None);
}

#[test]
fn parser_decodes_escapes() {
    let m = parse_server_message("{\"text\":\"a\\\"b\\\\c\\n\\t\\r\\/\\b\\f\"}");
    assert_eq!(
        m.text.as_deref(),
        Some("a\"b\\c\n\t\r/\u{0008}\u{000C}")
    );
}

#[test]
fn parser_takes_first_of_duplicate_keys() {
    let m = parse_server_message("{\"text\":\"a\",\"text\":\"b\"}");
    assert_eq!(m.text.as_deref(), Some("a"));
}

#[test]
fn parser_ignores_bodies_outside_the_wire_shape() {
    for body in [
        "123",
        "plainly not json",
        "{\"text\":123}",
        "{\"text\":\"a\"",
        "{\"text\":\"a\"} trailing",
        "[\"text\"]",
        "{\"text\"}",
        "{\"text\":\"a\\u0041\"}",
        "",
    ] {
        let m = parse_server_message(body);
        assert_eq!(m.text, None, "body {:?} must not parse", body);
        assert_eq!(m.error, None, "body {:?} must not parse", body);
    }
    let empty = parse_server_message("{}");
    assert_eq!(empty.text, None);
    assert_eq!(empty.error, None);
}

#[test]
fn scenario_two_fragments_then_close() {
    let events = vec![
        text_event("{\"text\":\"hel\"}"),
        text_event("{\"text\":\"lo\"}"),
        StreamEvent::Close,
    ];
    let r = run_stream(&events, false).unwrap();
    assert_eq!(r.text, "hello");
    assert_eq!(r.language, "en");
}

#[test]
fn error_field_aborts_and_discards_fragments() {
    let events = vec![
        text_event("{\"text\":\"partial\"}"),
        text_event("{\"error\":\"boom\"}"),
        StreamEvent::Close,
    ];
    match run_stream(&events, false) {
        Err(SttError::ProtocolError(m)) => assert_eq!(m, "Gemini Live API error: boom"),
        _ => panic!("an error field must abort with a protocol error"),
    }
}

#[test]
fn deadline_without_terminal_message_times_out_despite_fragments() {
    let events = vec![text_event("{\"text\":\"partial\"}")];
    match run_stream(&events, true) {
        Err(SttError::TimeoutError(_)) => {}
        _ => panic!("the deadline must yield a timeout, not a hang or a partial success"),
    }
}

#[test]
fn close_with_nothing_accumulated_is_a_protocol_error() {
    let events = vec![StreamEvent::Close];
    match run_stream(&events, false) {
        Err(SttError::ProtocolError(m)) => assert_eq!(m, "no transcription produced"),
        _ => panic!("an empty accumulation must never be an empty success"),
    }
}

#[test]
fn transport_failure_is_a_connection_error() {
    let events = vec![
        text_event("{\"text\":\"x\"}"),
        StreamEvent::Transport(String::from("connection reset")),
    ];
    match run_stream(&events, false) {
        Err(SttError::ConnectionError(m)) => {
            assert_eq!(m, "WebSocket error: connection reset")
        }
        _ => panic!("a transport failure must surface as a connection error"),
    }
}

#[test]
fn other_frames_and_unrecognized_bodies_are_skipped() {
    let events = vec![
        StreamEvent::Other,
        text_event("not json at all"),
        text_event("{\"text\":\"x\"}"),
        StreamEvent::Close,
    ];
    let r = run_stream(&events, false).unwrap();
    assert_eq!(r.text, "x");
}

#[test]
fn stream_end_without_close_behaves_like_a_close() {
    let events = vec![text_event("{\"text\":\"x\"}")];
    let r = run_stream(&events, false).unwrap();
    assert_eq!(r.text, "x");
}

#[test]
fn events_after_a_close_are_ignored() {
    let events = vec![
        text_event("{\"text\":\"x\"}"),
        StreamEvent::Close,
        text_event("{\"error\":\"late\"}"),
    ];
    let r = run_stream(&events, false).unwrap();
    assert_eq!(r.text, "x");
}

#[test]
fn scenario_rest_rejection_carries_the_body() {
    let r = interpret_rest_response(500, &String::from("rate limited"));
    match r {
        Err(SttError::ConnectionError(m)) => {
            assert_eq!(m, "Whisper API error: rate limited");
            assert!(m.contains("rate limited"));
        }
        _ => panic!("a non-2xx status must be a connection error"),
    }
}

#[test]
fn rest_success_returns_the_text() {
    let r = interpret_rest_response(200, &String::from("{\"text\":\"hi there\"}")).unwrap();
    assert_eq!(r.text, "hi there");
    assert_eq!(r.language, "en");
}

#[test]
fn rest_malformed_success_is_a_protocol_error() {
    for body in ["not json", "{\"nothing\":\"here\"}", "{\"text\":7}"] {
        match interpret_rest_response(204, &String::from(body)) {
            Err(SttError::ProtocolError(_)) => {}
            _ => panic!("a malformed success body must be a protocol error"),
        }
    }
}

#[test]
fn rest_request_carries_fixed_parameters() {
    let clip = AudioClip::new(vec![1, 2, 3], String::from("recording_9.wav"), 9);
    let req = build_rest_request(&String::from("sk-test"), clip);
    assert_eq!(req.url, "https://api.openai.com/v1/audio/transcriptions");
    assert_eq!(req.api_key, "sk-test");
    assert_eq!(req.file_name, "recording_9.wav");
    assert_eq!(req.mime_type, "audio/wav");
    assert_eq!(req.model, "whisper-1");
    assert_eq!(req.language, "en");
    assert_eq!(req.file_bytes, vec![1, 2, 3]);
}

#[test]
fn config_message_is_the_fixed_handshake() {
    let c = config_message();
    assert_eq!(
        c,
        "{\"config\":{\"response_modalities\":[\"TEXT\"],\"system_instruction\":{\"parts\":[{\"text\":\"You are a speech-to-text transcription service. Transcribe the audio accurately.\"}]}}}"
    );
}

#[test]
fn turn_message_encodes_the_audio() {
    let msg = turn_message(&vec![b'a', b'b', b'c']);
    // standard base64 of "abc"; the encoder must not hand its input back
    assert!(msg.contains("\"data\":\"YWJj\""));
    assert!(!msg.contains("\"data\":\"abc\""));
    assert!(msg.starts_with(
        "{\"clientContent\":{\"turns\":[{\"role\":\"user\",\"parts\":[{\"inline_data\":{\"mime_type\":\"audio/wav\",\"data\":\""
    ));
    assert!(msg.ends_with("\"}}]}],\"turnComplete\":true}}"));
}

#[test]
fn turn_message_pads_the_encoding() {
    let msg = turn_message(&vec![b'a']);
    assert!(msg.contains("\"data\":\"YQ==\""));
}

#[test]
fn streaming_url_appends_the_credential() {
    let url = streaming_url(&String::from("KEY"));
    assert_eq!(
        url,
        "wss://generativelanguage.googleapis.com/v1beta/models/gemini-2.0-flash-live-001:streamGenerateContent?key=KEY"
    );
}

#[test]
fn stream_plan_bundles_the_session() {
    let clip = AudioClip::new(vec![b'a', b'b', b'c'], String::from("recording_1.wav"), 1);
    let plan = build_stream_plan(&String::from("K"), &clip);
    assert!(plan.url.ends_with("?key=K"));
    assert_eq!(plan.config_message, config_message());
    assert!(plan.turn_message.contains("YWJj"));
    assert_eq!(plan.deadline_secs, 10);
}

#[test]
fn service_builds_plans_under_its_credentials() {
    let s = SpeechToTextService::new(Some(String::from("oai")), Some(String::from("gem")))
        .unwrap();
    let clip = AudioClip::new(vec![0u8; 3], String::from("recording_2.wav"), 2);
    let plan = s.stream_plan_for(&clip);
    assert!(plan.url.ends_with("?key=gem"));
    let clip2 = AudioClip::new(vec![7], String::from("recording_3.wav"), 3);
    let req = s.rest_request_for(clip2);
    assert_eq!(req.api_key, "oai");
}
