use camera_voice::frame_gate::{FrameGate, FrameReject, MAX_FRAME_BASE64_BYTES, MIN_FRAME_INTERVAL};
use camera_voice::gesture::Gesture;
use camera_voice::moment::{Moment, NANOS_PER_MILLI};
use camera_voice::prompt::{instruction, tool_parameters, LOOK_PROMPT, NO_GESTURE, TOOL_NAME};

fn after(start: Moment, millis: u64) -> Moment {
    Moment { nanos: start.nanos + millis as u128 * NANOS_PER_MILLI }
}

#[test]
fn gestures_round_trip_and_reject_unknown() {
    for g in Gesture::ALL {
        assert_eq!(Gesture::parse(g.as_str()), Some(g));
        assert_eq!(Gesture::parse(&g.as_str().to_uppercase()), Some(g));
    }
    assert_eq!(Gesture::parse("thumbs_up"), None);
    assert_eq!(Gesture::parse(""), None);
}

#[test]
fn instruction_and_schema_name_every_gesture() {
    let text = instruction();
    let schema = tool_parameters();
    let allowed = schema["properties"]["gesture"]["enum"].as_array().unwrap();
    for g in Gesture::ALL {
        assert!(text.contains(g.as_str()), "{}", g.as_str());
        assert!(text.contains(g.cue()));
        assert!(allowed.iter().any(|v| v == g.as_str()));
    }
    assert!(text.contains("never mention people"), "privacy rule stays in the prompt");
    assert!(text.contains(LOOK_PROMPT) && text.contains("mirrored"), "look tick and mirroring are explained");
    assert!(allowed.iter().any(|v| v == NO_GESTURE), "the model can answer a look with none");
    assert_eq!(Gesture::parse(NO_GESTURE), None, "none is not a gesture");
    assert_eq!(schema["required"][0], "gesture");
    assert_eq!(TOOL_NAME, "ui_gesture");
}

#[test]
fn frame_gate_enforces_flag_mime_size_and_rate() {
    let t0 = Moment { nanos: 7_000_000_123 };
    let mut off = FrameGate::new(false);
    assert_eq!(off.check("image/jpeg", "abc", t0), Err(FrameReject::CameraOff));

    let mut gate = FrameGate::new(true);
    assert_eq!(gate.check("text/plain", "abc", t0), Err(FrameReject::Mime));
    assert_eq!(gate.check("image/jpeg", "data:image/jpeg;base64,abc", t0), Err(FrameReject::Mime));
    assert_eq!(gate.check("image/jpeg", "", t0), Err(FrameReject::Empty));
    let big = "A".repeat(MAX_FRAME_BASE64_BYTES + 1);
    assert_eq!(gate.check("image/jpeg", &big, t0), Err(FrameReject::TooLarge));
    assert_eq!(gate.check("image/jpeg", "abc", t0), Ok(()));
    assert_eq!(gate.check("image/webp", "abc", after(t0, 100)), Err(FrameReject::TooFast));
    assert_eq!(gate.check("image/webp", "abc", after(t0, MIN_FRAME_INTERVAL)), Ok(()));
    assert_eq!((gate.accepted, gate.rejected), (2, 5));
}

#[test]
fn reports_are_read_with_white_space_and_any_case() {
    assert_eq!(Gesture::parse("  Open_Palm\n"), Some(Gesture::OpenPalm));
    assert_eq!(Gesture::parse("\u{2003}PINCH\u{a0}\t"), Some(Gesture::Pinch));
    assert_eq!(Gesture::parse("\u{85}wave\u{3000}"), Some(Gesture::Wave));
    assert_eq!(Gesture::parse("swipe left"), None);
    assert_eq!(Gesture::parse("\u{200b}wave"), None);
    assert_eq!(Gesture::parse("w\u{c5}ve"), None);
}

#[test]
fn instruction_is_exactly_this() {
    let head = "\n\nCamera: when the user turns the camera on you also receive still frames, about two per second, \
         mirrored like a selfie — a hand the user moves to their left moves left in the frame. Use them only \
         to recognise the deliberate hand gestures below and whether the user is present. While the camera \
         is on you periodically get the message \"[look]\": compare the most recent frames and call \
         ui_gesture with the gesture you see, or with \"none\" if there is none — never answer \"[look]\" \
         with words. A gesture can also happen while the user is speaking; report it the same way. Do not \
         describe what you see unless asked, and never mention people, objects, screens or text in the \
         frame. Call ui_gesture once per gesture and do not repeat it for the same movement; after the \
         call stay quiet unless the user speaks:";
    let lines = [
        "\n- a hand sweeping from right to left → ui_gesture {\"gesture\": \"swipe_left\"}: moves the view toward the Home world.",
        "\n- a hand sweeping from left to right → ui_gesture {\"gesture\": \"swipe_right\"}: moves the view toward the Work world.",
        "\n- an open palm held still toward the camera for about a second → ui_gesture {\"gesture\": \"open_palm\"}: pauses the agents.",
        "\n- a wave → ui_gesture {\"gesture\": \"wave\"}: asks for today's briefing.",
        "\n- a pinch — thumb and index finger brought together, like picking something up → ui_gesture {\"gesture\": \"pinch\"}: closes the card in front (or the camera window when no card is open).",
    ];
    let tail = "\nIf a gesture is unclear or accidental, do nothing.";
    assert_eq!(instruction(), format!("{}{}{}", head, lines.concat(), tail));
}

#[test]
fn tool_schema_is_exactly_this() {
    let expected = "{\"properties\":{\"gesture\":{\"description\":\"The gesture you recognised in the camera frames, or none\",\"enum\":[\"swipe_left\",\"swipe_right\",\"open_palm\",\"wave\",\"pinch\",\"none\"],\"type\":\"string\"}},\"required\":[\"gesture\"],\"type\":\"object\"}";
    assert_eq!(tool_parameters().to_string(), expected);
}

#[test]
fn gesture_effects_are_what_the_client_does() {
    assert_eq!(Gesture::SwipeRight.effect(), "moves the view toward the Work world");
    assert_eq!(Gesture::OpenPalm.effect(), "pauses the agents");
    assert_eq!(Gesture::Wave.effect(), "asks for today's briefing");
}

#[test]
fn rejections_have_names() {
    assert_eq!(FrameReject::CameraOff.as_str(), "camera_off");
    assert_eq!(FrameReject::Mime.as_str(), "unsupported_mime");
    assert_eq!(FrameReject::Empty.as_str(), "empty");
    assert_eq!(FrameReject::TooLarge.as_str(), "too_large");
    assert_eq!(FrameReject::TooFast.as_str(), "too_fast");
}

#[test]
fn payload_cap_counts_bytes() {
    let t0 = Moment { nanos: 0 };
    let mut gate = FrameGate::new(true);
    let fits = "A".repeat(MAX_FRAME_BASE64_BYTES);
    assert_eq!(gate.check("image/png", &fits, t0), Ok(()));
    let mut gate = FrameGate::new(true);
    let wide = "\u{e9}".repeat(MAX_FRAME_BASE64_BYTES / 2 + 1);
    assert_eq!(gate.check("image/png", &wide, t0), Err(FrameReject::TooLarge));
}

#[test]
fn interval_is_exact_to_the_nanosecond() {
    let t0 = Moment { nanos: 50 };
    let mut gate = FrameGate::new(true);
    assert_eq!(gate.check("image/png", "abc", t0), Ok(()));
    let early = Moment { nanos: t0.nanos + 399_999_999 };
    assert_eq!(gate.check("image/png", "abc", early), Err(FrameReject::TooFast));
    assert_eq!(gate.check("image/png", "abc", after(t0, 400)), Ok(()));
    // A clock that went back counts as no time passed.
    assert_eq!(gate.check("image/png", "abc", t0), Err(FrameReject::TooFast));
}

#[test]
fn rejected_frames_do_not_put_off_the_next() {
    let t0 = Moment { nanos: 0 };
    let mut gate = FrameGate::new(true);
    assert_eq!(gate.check("image/png", "abc", t0), Ok(()));
    for n in 1..8 {
        assert_eq!(gate.check("image/png", "abc", after(t0, n * 50)), Err(FrameReject::TooFast));
    }
    assert_eq!(gate.check("image/png", "abc", after(t0, 400)), Ok(()));
    assert_eq!((gate.accepted, gate.rejected), (2, 7));
}

#[test]
fn no_more_than_five_frames_in_two_seconds() {
    let mut gate = FrameGate::new(true);
    for n in 0..2000 {
        let _ = gate.check("image/jpeg", "abc", Moment { nanos: n * NANOS_PER_MILLI });
    }
    assert_eq!((gate.accepted, gate.rejected), (5, 1995));
}

#[test]
fn gate_reports_the_first_reason() {
    let t0 = Moment { nanos: 0 };
    let mut off = FrameGate::new(false);
    assert_eq!(off.check("text/plain", "", t0), Err(FrameReject::CameraOff));
    let mut on = FrameGate::new(true);
    assert_eq!(on.check("text/plain", "", t0), Err(FrameReject::Mime));
    assert_eq!(on.check("IMAGE/PNG", "abc", t0), Err(FrameReject::Mime));
    assert_eq!(on.check("image/png", "Data:abc", t0), Ok(()));
}
