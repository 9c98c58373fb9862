use voice_relay::client::{
    error_message, on_client_message, on_submission_result, pong_message, ready_message,
    ClientAction, ClientMessage,
};
use voice_relay::config::{Settings, REALTIME_URL};
use voice_relay::error::RelayError;
use voice_relay::messages::{
    build_audio_append, handshake, AudioAppend, Commit, OpenAIEvent, ResponseCreate,
    SessionUpdate,
};
use voice_relay::upstream::{Step, UpstreamMessage, UpstreamSession};

const SESSION_UPDATE: &str = "{\"type\":\"session.update\",\"session\":{\"modalities\":[\"text\",\"audio\"],\"instructions\":\"You are a helpful AI assistant. Have a natural conversation with the user in English.\",\"voice\":\"alloy\",\"inputAudioFormat\":\"pcm16\",\"outputAudioFormat\":\"pcm16\",\"inputAudioTranscription\":{\"model\":\"whisper-1\"}}}";

fn text(s: &str) -> UpstreamMessage {
    UpstreamMessage::Text(s.to_string())
}

fn step_ok(session: &mut UpstreamSession, msg: UpstreamMessage) -> Step {
    match session.on_message(msg) {
        Ok(step) => step,
        Err(e) => panic!("unexpected error {:?}", e),
    }
}

#[test]
fn handshake_is_sent_in_order() {
    let events = handshake(&vec![1, 2, 3]);
    assert_eq!(events.len(), 4);
    assert_eq!(events[0], SESSION_UPDATE);
    assert_eq!(events[1], "{\"type\":\"input_audio_buffer.append\",\"audio\":\"AQID\"}");
    assert_eq!(events[2], "{\"type\":\"input_audio_buffer.commit\"}");
    assert_eq!(
        events[3],
        "{\"type\":\"response.create\",\"response\":{\"modalities\":[\"text\",\"audio\"]}}"
    );
}

#[test]
fn handshake_holds_for_other_audio() {
    let events = handshake(&vec![0xff, 0x00]);
    assert_eq!(events[0], SESSION_UPDATE);
    assert_eq!(events[1], "{\"type\":\"input_audio_buffer.append\",\"audio\":\"/wA=\"}");
    assert_eq!(events[2], "{\"type\":\"input_audio_buffer.commit\"}");
}

#[test]
fn audio_append_of_empty_audio() {
    assert_eq!(
        build_audio_append(&vec![]),
        "{\"type\":\"input_audio_buffer.append\",\"audio\":\"\"}"
    );
}

#[test]
fn audio_append_with_sequence_number() {
    let mut event = AudioAppend::new("AQID".to_string());
    assert_eq!(event.event_type, "input_audio_buffer.append");
    assert_eq!(event.sequence_id, None);
    event.sequence_id = Some(-12);
    assert_eq!(
        event.to_json(),
        "{\"type\":\"input_audio_buffer.append\",\"audio\":\"AQID\",\"sequence_id\":-12}"
    );
}

#[test]
fn fixed_events_serialise() {
    assert_eq!(SessionUpdate::new().to_json(), SESSION_UPDATE);
    assert_eq!(Commit::default().to_json(), "{\"type\":\"input_audio_buffer.commit\"}");
    assert_eq!(
        ResponseCreate::default().to_json(),
        "{\"type\":\"response.create\",\"response\":{\"modalities\":[\"text\",\"audio\"]}}"
    );
}

#[test]
fn turn_detection_is_written_when_present() {
    let mut update = SessionUpdate::new();
    update.session.turn_detection = Some("{\"type\":\"server_vad\"}".to_string());
    let json = update.to_json();
    assert!(json.ends_with(",\"turnDetection\":{\"type\":\"server_vad\"}}}"));
}

#[test]
fn parse_reads_type_and_delta() {
    let e = OpenAIEvent::parse("{\"type\":\"response.audio_transcript.delta\",\"delta\":\"Hel\"}")
        .unwrap();
    assert_eq!(e.event_type, "response.audio_transcript.delta");
    assert_eq!(e.delta, Some("Hel".to_string()));
    let e = OpenAIEvent::parse("{\"type\":\"session.created\",\"session\":{}}").unwrap();
    assert_eq!(e.event_type, "session.created");
    assert_eq!(e.delta, None);
}

#[test]
fn parse_rejects_malformed_events() {
    for raw in ["not json", "{\"delta\":\"x\"}", "{\"type\":5}", "[1,2]", ""] {
        match OpenAIEvent::parse(raw) {
            Err(RelayError::MalformedEvent(_)) => {}
            other => panic!("{:?} gave {:?}", raw, other),
        }
    }
}

#[test]
fn scenario_two_deltas_then_done() {
    let d1 = "{\"type\":\"response.audio_transcript.delta\",\"delta\":\"Hel\"}";
    let d2 = "{\"type\":\"response.audio_transcript.delta\",\"delta\":\"lo\"}";
    let done = "{\"type\":\"response.done\"}";
    let mut session = UpstreamSession::new();
    let mut seen: Vec<String> = Vec::new();
    for raw in [d1, d2] {
        let step = step_ok(&mut session, text(raw));
        assert!(!step.finished);
        seen.extend(step.to_client);
    }
    let step = step_ok(&mut session, text(done));
    assert!(step.finished);
    seen.extend(step.to_client);
    assert_eq!(
        seen,
        vec![
            d1.to_string(),
            d2.to_string(),
            done.to_string(),
            "{\"type\":\"response_complete\",\"transcript\":\"Hello\"}".to_string(),
        ]
    );
    assert_eq!(session.transcript(), "Hello");
}

#[test]
fn done_without_deltas_has_empty_transcript() {
    let mut session = UpstreamSession::new();
    let step = step_ok(&mut session, text("{\"type\":\"response.done\",\"response\":{}}"));
    assert!(step.finished);
    assert_eq!(
        step.to_client[1],
        "{\"type\":\"response_complete\",\"transcript\":\"\"}"
    );
}

#[test]
fn unknown_events_are_forwarded_and_gather_nothing() {
    let mut session = UpstreamSession::new();
    let raw = "{\"type\":\"response.text.delta\",\"delta\":\"ignored\"}";
    let step = step_ok(&mut session, text(raw));
    assert_eq!(step.to_client, vec![raw.to_string()]);
    assert!(!step.finished);
    let raw = "{\"type\":\"response.audio_transcript.delta\"}";
    let step = step_ok(&mut session, text(raw));
    assert_eq!(step.to_client, vec![raw.to_string()]);
    assert_eq!(session.transcript(), "");
}

#[test]
fn transcript_is_escaped_in_completion() {
    let mut session = UpstreamSession::new();
    step_ok(
        &mut session,
        text("{\"type\":\"response.audio_transcript.delta\",\"delta\":\"say \\\"hi\\\"\\n\"}"),
    );
    let step = step_ok(&mut session, text("{\"type\":\"response.done\"}"));
    assert_eq!(
        step.to_client[1],
        "{\"type\":\"response_complete\",\"transcript\":\"say \\\"hi\\\"\\n\"}"
    );
}

#[test]
fn malformed_upstream_text_is_an_error_and_not_forwarded() {
    let mut session = UpstreamSession::new();
    match session.on_message(text("{oops")) {
        Err(RelayError::MalformedEvent(_)) => {}
        other => panic!("{:?}", other),
    }
}

#[test]
fn close_and_other_frames() {
    let mut session = UpstreamSession::new();
    let step = step_ok(&mut session, UpstreamMessage::Other);
    assert!(step.to_client.is_empty());
    assert!(!step.finished);
    let step = step_ok(&mut session, UpstreamMessage::Close);
    assert!(step.to_client.is_empty());
    assert!(step.finished);
}

#[test]
fn transport_error_is_reported() {
    let mut session = UpstreamSession::new();
    match session.on_message(UpstreamMessage::TransportError("reset".to_string())) {
        Err(RelayError::UpstreamTransportError(d)) => assert_eq!(d, "reset"),
        other => panic!("{:?}", other),
    }
}

#[test]
fn client_is_greeted_ready() {
    assert_eq!(ready_message(), "{\"type\":\"ready\"}");
}

#[test]
fn empty_audio_is_refused() {
    match on_client_message(ClientMessage::Binary(vec![])) {
        ClientAction::Reply(t) => {
            assert_eq!(t, "{\"type\":\"error\",\"message\":\"Audio data is empty\"}")
        }
        other => panic!("{:?}", other),
    }
}

#[test]
fn audio_is_submitted() {
    match on_client_message(ClientMessage::Binary(vec![1, 2, 3])) {
        ClientAction::Submit(a) => assert_eq!(a, vec![1, 2, 3]),
        other => panic!("{:?}", other),
    }
}

#[test]
fn ping_is_answered_with_pong() {
    match on_client_message(ClientMessage::Text("{\"type\":\"ping\"}".to_string())) {
        ClientAction::Reply(t) => assert_eq!(t, pong_message()),
        other => panic!("{:?}", other),
    }
    assert_eq!(pong_message(), "{\"type\":\"pong\"}");
}

#[test]
fn other_client_texts_are_ignored() {
    for t in ["hello", "{\"type\":\"pong\"}", "{\"kind\":\"ping\"}"] {
        assert!(matches!(
            on_client_message(ClientMessage::Text(t.to_string())),
            ClientAction::Ignore
        ));
    }
    assert!(matches!(on_client_message(ClientMessage::Other), ClientAction::Ignore));
}

#[test]
fn close_or_error_stops() {
    assert!(matches!(on_client_message(ClientMessage::Close), ClientAction::Stop));
    assert!(matches!(
        on_client_message(ClientMessage::TransportError),
        ClientAction::Stop
    ));
}

#[test]
fn connect_failure_is_reported_to_client() {
    let err = RelayError::ConnectError("Connection refused (os error 111)".to_string());
    assert_eq!(
        on_submission_result(Err(err)),
        Some("{\"type\":\"error\",\"message\":\"Connection refused (os error 111)\"}".to_string())
    );
    assert_eq!(on_submission_result(Ok(())), None);
}

#[test]
fn error_message_escapes() {
    assert_eq!(
        error_message("bad \"x\""),
        "{\"type\":\"error\",\"message\":\"bad \\\"x\\\"\"}"
    );
}

#[test]
fn settings_need_a_key() {
    let s = Settings::from_value(Some("sk-test".to_string())).unwrap();
    assert_eq!(s.authorization(), "Bearer sk-test");
    assert!(matches!(Settings::from_value(None), Err(RelayError::ConfigMissing)));
    assert!(REALTIME_URL.starts_with("wss://"));
}

#[test]
fn every_error_has_a_description() {
    assert_eq!(RelayError::SendError("s".to_string()).description(), "s");
    assert_eq!(RelayError::ClientForwardError("c".to_string()).description(), "c");
    assert!(!RelayError::ConfigMissing.description().is_empty());
}
