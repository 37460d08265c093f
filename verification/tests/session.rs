use camera_voice::downlink::{on_model_event, on_relay, DownlinkAction, ModelEvent};
use camera_voice::frame_gate::{FrameGate, FrameReject};
use camera_voice::handshake::{Handshake, Outcome, Stage};
use camera_voice::look::{on_prompt_sent, on_response_asked, LookAction, LookState};
use camera_voice::messages::ServerMessage;
use camera_voice::moment::{Moment, NANOS_PER_MILLI};
use camera_voice::status::{status, VoiceWsQuery};
use camera_voice::uplink::{
    decode, follow_up, on_client_event, on_delivery, read_message, ClientEvent, Delivery,
    SocketFrame, UplinkAction,
};

fn at(millis: u128) -> Moment {
    Moment { nanos: millis * NANOS_PER_MILLI }
}

fn text(json: &str) -> ClientEvent {
    decode(SocketFrame::Text(json.to_string()))
}

fn encoded(bytes: &[u8]) -> String {
    match decode(SocketFrame::Binary(bytes.to_vec())) {
        ClientEvent::Audio { base64 } => base64,
        _ => panic!("not audio"),
    }
}

fn query(session_id: Option<&str>) -> VoiceWsQuery {
    VoiceWsQuery { session_id: session_id.map(|s| s.to_string()) }
}

#[test]
fn status_announces_the_channel() {
    let s = status(true, false);
    assert!(s.enabled && !s.camera);
    assert_eq!(s.ws_path, "/ws/voice");
    assert_eq!((s.input_rate_hz, s.output_rate_hz), (16_000, 24_000));
    let s = status(false, true);
    assert!(!s.enabled && s.camera);
}

#[test]
fn audio_is_sent_as_padded_base64() {
    assert_eq!(encoded(b""), "");
    assert_eq!(encoded(b"f"), "Zg==");
    assert_eq!(encoded(b"fo"), "Zm8=");
    assert_eq!(encoded(b"foo"), "Zm9v");
    assert_eq!(encoded(b"foobar"), "Zm9vYmFy");
    assert_eq!(encoded(&[0xff, 0xef, 0xbe, 0xfb]), "/++++w==");
}

#[test]
fn client_messages_are_read_by_their_type() {
    assert!(matches!(text("{\"type\":\"text\",\"content\":\"hi \\u00e9\"}"), ClientEvent::Text { content } if content == "hi \u{e9}"));
    assert!(matches!(text("{\"type\":\"text\"}"), ClientEvent::Nothing));
    assert!(matches!(text("{\"type\":\"text\",\"content\":3}"), ClientEvent::Nothing));
    assert!(matches!(text("{\"type\":\"commit_audio\"}"), ClientEvent::CommitAudio));
    assert!(matches!(text("{\"type\":\"create_response\"}"), ClientEvent::CreateResponse));
    assert!(matches!(text("{\"type\":\"interrupt\"}"), ClientEvent::Interrupt));
    assert!(matches!(
        text("{\"type\":\"frame\",\"mime\":\"image/jpeg\",\"data\":\"abc\"}"),
        ClientEvent::Frame { mime, data } if mime == "image/jpeg" && data == "abc"
    ));
    assert!(matches!(
        text("{\"type\":\"frame\",\"mime\":7}"),
        ClientEvent::Frame { mime, data } if mime.is_empty() && data.is_empty()
    ));
    assert!(matches!(text("{\"type\":\"dance\"}"), ClientEvent::Nothing));
    assert!(matches!(text("{\"type\":[\"text\"]}"), ClientEvent::Nothing));
    assert!(matches!(text("[\"type\",\"interrupt\"]"), ClientEvent::Nothing));
    assert!(matches!(text("interrupt"), ClientEvent::Nothing));
    assert!(matches!(decode(SocketFrame::Close), ClientEvent::Closed));
    assert!(matches!(decode(SocketFrame::Other), ClientEvent::Nothing));
}

#[test]
fn parsed_values_are_read_like_their_text() {
    let mut object = serde_json::Map::new();
    object.insert("type".to_string(), serde_json::Value::from("interrupt"));
    assert!(matches!(read_message(&serde_json::Value::Object(object)), ClientEvent::Interrupt));
    assert!(matches!(read_message(&serde_json::Value::Null), ClientEvent::Nothing));
}

#[test]
fn frames_go_out_or_are_answered() {
    let mut gate = FrameGate::new(true);
    let mut look = LookState::new(true);
    let frame = |mime: &str, data: &str| ClientEvent::Frame {
        mime: mime.to_string(),
        data: data.to_string(),
    };
    assert!(matches!(
        on_client_event(&mut gate, &mut look, frame("image/png", "abc"), at(0)),
        UplinkAction::SendFrame { mime, data } if mime == "image/png" && data == "abc"
    ));
    assert!(matches!(
        on_client_event(&mut gate, &mut look, frame("image/png", "abc"), at(399)),
        UplinkAction::Nothing
    ));
    assert!(matches!(
        on_client_event(&mut gate, &mut look, frame("image/gif", "abc"), at(399)),
        UplinkAction::Tell { message: ServerMessage::FrameRejected { reason: FrameReject::Mime } }
    ));
    assert!(matches!(
        on_client_event(&mut gate, &mut look, frame("image/png", ""), at(399)),
        UplinkAction::Tell { message: ServerMessage::FrameRejected { reason: FrameReject::Empty } }
    ));
    assert_eq!((gate.accepted, gate.rejected), (1, 3));

    let mut gate = FrameGate::new(false);
    assert!(matches!(
        on_client_event(&mut gate, &mut look, frame("image/png", "abc"), at(0)),
        UplinkAction::Tell { message: ServerMessage::FrameRejected { reason: FrameReject::CameraOff } }
    ));
}

#[test]
fn other_events_become_their_actions() {
    let mut gate = FrameGate::new(true);
    let mut look = LookState::new(true);
    let audio = ClientEvent::Audio { base64: "Zm9v".to_string() };
    assert!(matches!(
        on_client_event(&mut gate, &mut look, audio, at(5)),
        UplinkAction::SendAudio { base64 } if base64 == "Zm9v"
    ));
    assert_eq!(look.last_audio, Some(at(5)));
    let hello = ClientEvent::Text { content: "hello".to_string() };
    assert!(matches!(
        on_client_event(&mut gate, &mut look, hello, at(6)),
        UplinkAction::SendText { content } if content == "hello"
    ));
    assert!(matches!(on_client_event(&mut gate, &mut look, ClientEvent::CommitAudio, at(6)), UplinkAction::CommitAudio));
    assert!(matches!(on_client_event(&mut gate, &mut look, ClientEvent::CreateResponse, at(6)), UplinkAction::CreateResponse));
    assert!(matches!(on_client_event(&mut gate, &mut look, ClientEvent::Interrupt, at(6)), UplinkAction::Interrupt));
    assert!(matches!(on_client_event(&mut gate, &mut look, ClientEvent::Nothing, at(6)), UplinkAction::Nothing));
    assert!(!look.closed);
    assert!(matches!(on_client_event(&mut gate, &mut look, ClientEvent::Closed, at(6)), UplinkAction::Stop));
    assert!(look.closed);
    assert_eq!((gate.accepted, gate.rejected), (0, 0));
}

#[test]
fn deliveries_are_noted() {
    let mut look = LookState::new(true);
    assert!(on_delivery(&mut look, Delivery::Frame, true));
    assert!(on_delivery(&mut look, Delivery::Audio, true));
    assert!(on_delivery(&mut look, Delivery::Other, false));
    assert_eq!((look.frames_pending, look.closed), (1, false));
    assert!(!on_delivery(&mut look, Delivery::Frame, false));
    assert_eq!((look.frames_pending, look.closed), (1, true));
    let mut look = LookState::new(true);
    assert!(!on_delivery(&mut look, Delivery::Audio, false));
    assert!(look.closed);
    let mut look = LookState::new(true);
    look.frames_pending = u32::MAX;
    look.frame_sent();
    assert_eq!(look.frames_pending, 0);
}

#[test]
fn looks_follow_frames_and_silence() {
    let mut look = LookState::new(true);
    assert_eq!(look.tick(at(0)), LookAction::Wait);
    look.frame_sent();
    look.frame_sent();
    assert_eq!(look.tick(at(2000)), LookAction::Look);
    assert_eq!(look.tick(at(4000)), LookAction::Wait);

    look.frame_sent();
    look.audio_heard(at(5000));
    assert_eq!(look.tick(at(6499)), LookAction::Wait);
    assert_eq!(look.tick(at(6500)), LookAction::Look);

    look.frame_sent();
    look.set_responding(true);
    assert_eq!(look.tick(at(9000)), LookAction::Wait);
    look.set_responding(false);
    assert_eq!(look.tick(at(9000)), LookAction::Look);

    look.frame_sent();
    look.close();
    assert_eq!(look.tick(at(12000)), LookAction::Stop);
    assert_eq!(LookState::new(false).tick(at(0)), LookAction::Stop);
}

#[test]
fn model_events_are_relayed() {
    let mut look = LookState::new(true);
    let mut told = |event: ModelEvent| match on_model_event(&mut look, event) {
        DownlinkAction::Tell { message } => (message.to_text(), look.responding),
        DownlinkAction::SendAudio { bytes } => (format!("{:?}", bytes), look.responding),
        other => panic!("nothing to tell: {:?}", other),
    };
    assert_eq!(told(ModelEvent::SpeechStarted), ("{\"type\":\"speech_started\"}".to_string(), false));
    assert_eq!(told(ModelEvent::SpeechStopped), ("{\"type\":\"speech_stopped\"}".to_string(), false));
    assert_eq!(told(ModelEvent::AudioDelta { bytes: vec![1, 2] }), ("[1, 2]".to_string(), true));
    assert_eq!(
        told(ModelEvent::TranscriptDelta { delta: "a\n".to_string() }),
        ("{\"content\":\"a\\n\",\"type\":\"transcript\"}".to_string(), true)
    );
    assert_eq!(told(ModelEvent::ResponseDone), ("{\"type\":\"response_done\"}".to_string(), false));
    assert_eq!(
        told(ModelEvent::TextDelta { delta: "\"q\"".to_string() }),
        ("{\"content\":\"\\\"q\\\"\",\"type\":\"text_delta\"}".to_string(), true)
    );
    assert_eq!(
        told(ModelEvent::FunctionCallDone {
            name: "ui_gesture".to_string(),
            arguments: "{\"gesture\": \"wave\"}".to_string(),
        }),
        ("{\"arguments\":\"{\\\"gesture\\\": \\\"wave\\\"}\",\"name\":\"ui_gesture\",\"type\":\"tool_call\"}".to_string(), true)
    );
    assert_eq!(
        told(ModelEvent::Error { message: "quota".to_string() }),
        ("{\"message\":\"quota\",\"type\":\"error\"}".to_string(), false)
    );
    assert!(matches!(on_model_event(&mut look, ModelEvent::Other), DownlinkAction::Nothing));
    assert!(!look.closed);
    assert!(matches!(on_model_event(&mut look, ModelEvent::Ended), DownlinkAction::Stop));
    assert!(look.closed);
}

#[test]
fn messages_parse_back() {
    let message = ServerMessage::Connected {
        session_id: "s-1\u{1}\u{2028}\\".to_string(),
        runner_session_id: None,
        camera: true,
    };
    let value: serde_json::Value = serde_json::from_str(&message.to_text()).unwrap();
    assert_eq!(value, message.to_value());
    assert_eq!(value["type"], "connected");
    assert_eq!(value["session_id"], "s-1\u{1}\u{2028}\\");
    assert_eq!(value["runner_session_id"], serde_json::Value::Null);
    assert_eq!(value["camera"], true);
    let rejected = ServerMessage::FrameRejected { reason: FrameReject::TooLarge };
    assert_eq!(rejected.to_text(), "{\"reason\":\"too_large\",\"type\":\"frame_rejected\"}");
}

#[test]
fn voice_that_is_off_refuses() {
    let handshake = Handshake::new(false, true, query(Some("s-1")));
    assert_eq!(
        handshake.message().unwrap().to_text(),
        "{\"message\":\"Voice unavailable — set GOOGLE_API_KEY\",\"type\":\"error\"}"
    );
    let handshake = handshake.advance(Outcome::Done);
    assert!(matches!(handshake.stage, Stage::Refused { .. }));
}

#[test]
fn failures_refuse_with_their_error() {
    let failed = || Outcome::Failed { error: "no key".to_string() };
    let built = Handshake::new(true, true, query(None)).advance(failed());
    assert_eq!(
        built.message().unwrap().to_text(),
        "{\"message\":\"Init failed: no key\",\"type\":\"error\"}"
    );
    let connected = Handshake::new(true, true, query(None)).advance(Outcome::Done).advance(failed());
    assert_eq!(
        connected.message().unwrap().to_text(),
        "{\"message\":\"Connect failed: no key\",\"type\":\"error\"}"
    );
}

#[test]
fn known_session_is_greeted_by_its_id() {
    let handshake = Handshake::new(true, true, query(Some("ui-7")))
        .advance(Outcome::Done)
        .advance(Outcome::Done);
    assert!(matches!(&handshake.stage, Stage::FindSession { id } if id == "ui-7"));
    assert!(handshake.message().is_none());
    let handshake = handshake
        .advance(Outcome::Found { known: true })
        .advance(Outcome::Named { id: Some("run-1".to_string()) });
    assert_eq!(
        handshake.message().unwrap().to_text(),
        "{\"camera\":true,\"runner_session_id\":\"run-1\",\"session_id\":\"ui-7\",\"type\":\"connected\"}"
    );
}

#[test]
fn unknown_session_is_replaced_by_a_new_one() {
    let handshake = Handshake::new(true, false, query(Some("gone")))
        .advance(Outcome::Done)
        .advance(Outcome::Done)
        .advance(Outcome::Found { known: false });
    assert!(matches!(handshake.stage, Stage::CreateSession));
    let handshake = handshake
        .advance(Outcome::Created { session_id: "ui-8".to_string() })
        .advance(Outcome::Named { id: None });
    assert_eq!(
        handshake.message().unwrap().to_text(),
        "{\"camera\":false,\"runner_session_id\":null,\"session_id\":\"ui-8\",\"type\":\"connected\"}"
    );
    let fresh = Handshake::new(true, false, query(None)).advance(Outcome::Done).advance(Outcome::Done);
    assert!(matches!(fresh.stage, Stage::CreateSession));
    // An outcome of another step changes nothing.
    let fresh = fresh.advance(Outcome::Found { known: true });
    assert!(matches!(fresh.stage, Stage::CreateSession));
}

#[test]
fn every_message_has_a_type_of_its_own() {
    let none = String::new;
    let messages = [
        ServerMessage::Error { message: none() },
        ServerMessage::Connected { session_id: none(), runner_session_id: None, camera: false },
        ServerMessage::TextDelta { content: none() },
        ServerMessage::Transcript { content: none() },
        ServerMessage::SpeechStarted,
        ServerMessage::SpeechStopped,
        ServerMessage::ResponseDone,
        ServerMessage::ToolCall { name: none(), arguments: none() },
        ServerMessage::FrameRejected { reason: FrameReject::Empty },
    ];
    let types = messages.map(|message| message.to_value()["type"].clone());
    for i in 0..types.len() {
        assert!(types[i].is_string());
        for j in 0..i {
            assert_ne!(types[i], types[j]);
        }
    }
}

#[test]
fn camera_that_is_off_sends_no_frame_and_no_look() {
    let mut gate = FrameGate::new(false);
    let mut look = LookState::new(false);
    for n in 0..4 {
        let event = text("{\"type\":\"frame\",\"mime\":\"image/png\",\"data\":\"abc\"}");
        let action = on_client_event(&mut gate, &mut look, event, at(n * 1000));
        assert!(!matches!(action, UplinkAction::SendFrame { .. }));
        assert_eq!(look.tick(at(n * 1000)), LookAction::Stop);
    }
    assert_eq!((gate.accepted, gate.rejected), (0, 4));
}

#[test]
fn a_response_lasts_from_audio_to_done() {
    let mut look = LookState::new(true);
    look.frame_sent();
    let _ = on_model_event(&mut look, ModelEvent::Other);
    assert!(!look.responding);
    let _ = on_model_event(&mut look, ModelEvent::AudioDelta { bytes: vec![0] });
    for event in [ModelEvent::SpeechStarted, ModelEvent::SpeechStopped, ModelEvent::Other] {
        let _ = on_model_event(&mut look, event);
        assert_eq!(look.tick(at(0)), LookAction::Wait);
    }
    let _ = on_model_event(&mut look, ModelEvent::ResponseDone);
    assert_eq!(look.tick(at(0)), LookAction::Look);
}

#[test]
fn failed_sends_end_what_depends_on_them() {
    let mut look = LookState::new(true);
    look.frame_sent();
    assert!(on_relay(&mut look, true));
    assert_eq!((look.frames_pending, look.closed), (1, false));
    assert!(!on_relay(&mut look, false));
    assert_eq!((look.frames_pending, look.closed), (1, true));
    assert_eq!(on_prompt_sent(true), LookAction::Respond);
    assert_eq!(on_prompt_sent(false), LookAction::Stop);
    assert_eq!(on_response_asked(true), LookAction::Wait);
    assert_eq!(on_response_asked(false), LookAction::Wait);
}

#[test]
fn a_text_is_followed_by_a_response_even_if_it_was_lost() {
    for sent in [true, false] {
        let mut gate = FrameGate::new(true);
        let mut look = LookState::new(true);
        let event = text("{\"type\":\"text\",\"content\":\"hello\"}");
        let action = on_client_event(&mut gate, &mut look, event, at(0));
        assert_eq!(action.delivery(), Delivery::Text);
        assert!(on_delivery(&mut look, Delivery::Text, sent));
        let next = follow_up(Delivery::Text, sent);
        assert!(matches!(next, UplinkAction::CreateResponse));
        assert_eq!(next.delivery(), Delivery::Other);
        assert!(on_delivery(&mut look, Delivery::Other, sent));
        assert!(matches!(follow_up(Delivery::Other, sent), UplinkAction::Nothing));
        assert!(!look.closed);
    }
    assert!(matches!(follow_up(Delivery::Audio, true), UplinkAction::Nothing));
    assert!(matches!(follow_up(Delivery::Frame, true), UplinkAction::Nothing));
}

#[test]
fn actions_say_what_they_send() {
    let none = String::new;
    assert_eq!(UplinkAction::SendAudio { base64: none() }.delivery(), Delivery::Audio);
    assert_eq!(UplinkAction::SendFrame { mime: none(), data: none() }.delivery(), Delivery::Frame);
    assert_eq!(UplinkAction::CommitAudio.delivery(), Delivery::Other);
    assert_eq!(UplinkAction::Interrupt.delivery(), Delivery::Other);
}
