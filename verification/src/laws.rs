//! What the operations of the library are for, said of their inputs and results: of characters,
//! nanoseconds and members, for every input and over every course of a session.

use vstd::prelude::*;
use vstd::utf8::encode_utf8;

use crate::audio::base64_text;
use crate::downlink::{
    look_after_model, on_model_event, on_relay, relayed, DownlinkAction, ModelEvent,
};
use crate::frame_gate::{
    Attempt, FrameGate, FrameReject, GateState, MAX_FRAME_BASE64_BYTES, MIN_FRAME_INTERVAL,
};
use crate::gesture::{lemma_letters_of_names, normalized, Gesture};
use crate::handshake::{
    greeting_names_a_ui_session, is_done_twice, is_ui_session, request_and_camera_stay, Handshake,
    HandshakeState, Outcome, OutcomeState, Stage, StageState,
};
use crate::json::{json_parse, json_tree, JsonTree};
use crate::look::{on_prompt_sent, on_response_asked, LookAction, LookEvent, LookState};
use crate::messages::ServerMessage;
use crate::moment::{Moment, NANOS_PER_MILLI};
use crate::prompt::{LOOK_INTERVAL, LOOK_PROMPT, NO_GESTURE, SPEECH_GRACE, TOOL_NAME};
use crate::status::{status, VoiceStatus, VoiceWsQuery};
use crate::text::{ascii_lower, ascii_lowered, is_white_space, trimmed};
use crate::uplink::{
    decode, decoded, follow_up, follow_up_step, gate_after, look_after, look_after_delivery,
    on_client_event, on_delivery, read_message, reads_on, request, uplink_step, ClientEvent,
    ClientInput, Delivery, SocketFrame, UplinkAction, UplinkStep,
};

verus! {

// Clock readings.

/// Fewer than `millis` milliseconds have passed exactly where the later reading is less than that
/// many million nanoseconds ahead, also where the clock went back.
pub proof fn within_compares_nanoseconds(now: Moment, earlier: Moment, millis: u64)
    ensures
        now.is_within(earlier, millis) <==> millis > 0 && now.nanos < earlier.nanos + millis
            * 1_000_000,
{
}

/// The limits of the channel: a frame every 400 ms, a look every 2 s, 1.5 s of grace after speech,
/// payloads of up to 256 KiB; and the words by which server and model understand each other.
pub proof fn the_limits_and_words_of_the_channel()
    ensures
        MIN_FRAME_INTERVAL == 400,
        LOOK_INTERVAL == 2000,
        SPEECH_GRACE == 1500,
        MAX_FRAME_BASE64_BYTES == 262144,
        NANOS_PER_MILLI == 1_000_000,
        TOOL_NAME@ == "ui_gesture"@,
        NO_GESTURE@ == "none"@,
        LOOK_PROMPT@ == "[look]"@,
{
}

// The frame gate.

/// Whether the first five characters are `d`, `a`, `t`, `a` and `:`.
pub open spec fn begins_like_a_data_url(data: Seq<char>) -> bool {
    &&& data.len() >= 5
    &&& data[0] == 'd'
    &&& data[1] == 'a'
    &&& data[2] == 't'
    &&& data[3] == 'a'
    &&& data[4] == ':'
}

/// Each answer to a frame and the frames that get it. Off means off for every frame; an image of the
/// three types in bare base64, not empty, of at most 262144 bytes and 400 ms after the last one that
/// went through goes through; every other frame is told the first thing that is wrong with it.
pub proof fn a_frame_is_judged_by_type_form_size_and_time(gate: GateState, frame: Attempt)
    ensures
        ({
            let answer = gate.verdict(frame);
            let image = frame.mime == "image/jpeg"@ || frame.mime == "image/webp"@ || frame.mime
                == "image/png"@;
            let bare = !begins_like_a_data_url(frame.data);
            let bytes = encode_utf8(frame.data).len();
            let soon = gate.last is Some && frame.now.nanos < gate.last->0.nanos + 400_000_000;
            &&& answer == Err::<(), FrameReject>(FrameReject::CameraOff) <==> !gate.enabled
            &&& answer == Err::<(), FrameReject>(FrameReject::Mime) <==> gate.enabled && !(image
                && bare)
            &&& answer == Err::<(), FrameReject>(FrameReject::Empty) <==> gate.enabled && image
                && frame.data.len() == 0
            &&& answer == Err::<(), FrameReject>(FrameReject::TooLarge) <==> gate.enabled && image
                && bare && frame.data.len() > 0 && bytes > 262144
            &&& answer == Err::<(), FrameReject>(FrameReject::TooFast) <==> gate.enabled && image
                && bare && frame.data.len() > 0 && bytes <= 262144 && soon
            &&& answer is Ok <==> gate.enabled && image && bare && frame.data.len() > 0 && bytes
                <= 262144 && !soon
        }),
{
    reveal_strlit("data:");
    lemma_data_url(frame.data);
    lemma_mimes(frame.mime);
}

proof fn lemma_data_url(data: Seq<char>)
    ensures
        crate::frame_gate::is_data_url(data) <==> begins_like_a_data_url(data),
{
    reveal_strlit("data:");
    if begins_like_a_data_url(data) {
        assert("data:"@ =~= data.subrange(0, 5));
    }
    if crate::frame_gate::is_data_url(data) {
        assert("data:"@ == data.subrange(0, "data:"@.len() as int));
        assert(data.subrange(0, 5)[0] == 'd');
        assert(data.subrange(0, 5)[1] == 'a');
        assert(data.subrange(0, 5)[2] == 't');
        assert(data.subrange(0, 5)[3] == 'a');
        assert(data.subrange(0, 5)[4] == ':');
    }
}

proof fn lemma_mimes(mime: Seq<char>)
    ensures
        crate::frame_gate::is_allowed_mime(mime) <==> mime == "image/jpeg"@ || mime
            == "image/webp"@ || mime == "image/png"@,
{
    assert(crate::frame_gate::ALLOWED_MIMES@[0]@ == "image/jpeg"@);
    assert(crate::frame_gate::ALLOWED_MIMES@[1]@ == "image/webp"@);
    assert(crate::frame_gate::ALLOWED_MIMES@[2]@ == "image/png"@);
}

/// With the camera on, the first frame goes through whenever it is an image of at most 262144 bytes
/// whose text begins with anything but a `d`.
pub proof fn the_first_image_goes_through(gate: GateState, frame: Attempt)
    requires
        gate.enabled,
        gate.last is None,
        frame.mime == "image/jpeg"@ || frame.mime == "image/webp"@ || frame.mime == "image/png"@,
        frame.data.len() > 0,
        frame.data[0] != 'd',
        encode_utf8(frame.data).len() <= 262144,
    ensures
        gate.verdict(frame) is Ok,
        gate.after(frame).last == Some(frame.now),
{
    a_frame_is_judged_by_type_form_size_and_time(gate, frame);
}

/// Of a payload only its length in bytes and whether it begins like a data URL count: frames that
/// agree in those, in their type and in their moment get the same answer.
pub proof fn payloads_are_not_looked_into(gate: GateState, one: Attempt, other: Attempt)
    requires
        one.mime == other.mime,
        one.now == other.now,
        one.data.len() > 0,
        other.data.len() > 0,
        begins_like_a_data_url(one.data) <==> begins_like_a_data_url(other.data),
        encode_utf8(one.data).len() == encode_utf8(other.data).len(),
    ensures
        gate.verdict(one) == gate.verdict(other),
{
    a_frame_is_judged_by_type_form_size_and_time(gate, one);
    a_frame_is_judged_by_type_form_size_and_time(gate, other);
}

/// The three image types are treated alike.
pub proof fn image_types_are_treated_alike(
    gate: GateState,
    data: Seq<char>,
    now: Moment,
    one: Seq<char>,
    other: Seq<char>,
)
    requires
        one == "image/jpeg"@ || one == "image/webp"@ || one == "image/png"@,
        other == "image/jpeg"@ || other == "image/webp"@ || other == "image/png"@,
    ensures
        gate.verdict(Attempt { mime: one, data, now }) == gate.verdict(
            Attempt { mime: other, data, now },
        ),
{
    lemma_mimes(one);
    lemma_mimes(other);
}

/// After a frame that went through at some moment, nothing goes through for 400 ms, and a proper
/// image does from then on.
pub proof fn one_frame_holds_the_next_back_for_its_interval(
    gate: GateState,
    first: Attempt,
    second: Attempt,
)
    requires
        gate.verdict(first) is Ok,
    ensures
        second.now.nanos < first.now.nanos + 400_000_000 ==> gate.after(first).verdict(
            second,
        ) is Err,
        first.now.nanos + 400_000_000 <= second.now.nanos && second.mime == first.mime
            && second.data == first.data ==> gate.after(first).verdict(second) is Ok,
{
    a_frame_is_judged_by_type_form_size_and_time(gate, first);
    a_frame_is_judged_by_type_form_size_and_time(gate.after(first), second);
}

/// An answer changes one count by one. The moment of the last frame changes only where the frame
/// goes through, and the camera never.
pub proof fn an_answer_is_counted_and_timed(gate: GateState, frame: Attempt)
    ensures
        gate.after(frame).enabled == gate.enabled,
        gate.after(frame).accepted + gate.after(frame).rejected == gate.accepted + gate.rejected
            + 1,
        gate.verdict(frame) is Ok ==> gate.after(frame).accepted == gate.accepted + 1 && gate.after(
            frame,
        ).last == Some(frame.now),
        gate.verdict(frame) is Err ==> gate.after(frame).rejected == gate.rejected + 1
            && gate.after(frame).last == gate.last,
{
}

/// What is said of a gate is said of its fields.
pub proof fn a_gate_is_its_fields(gate: FrameGate)
    ensures
        gate@.enabled == gate.enabled,
        gate@.last == gate.last,
        gate@.accepted == gate.accepted,
        gate@.rejected == gate.rejected,
{
}

// The look tick.

/// A tick ends the ticks where there is no camera or no session any more. It asks for a look exactly
/// where there are frames since the last look, the model is silent and the last audio, if there was
/// any, is 1500 ms old. A look uses the frames up, and nothing else changes.
pub proof fn a_tick_looks_at_new_frames_in_silence(look: LookState, now: Moment)
    ensures
        ({
            let heard = look.last_audio is Some && now.nanos < look.last_audio->0.nanos
                + 1_500_000_000;
            &&& look.decision(now) == LookAction::Stop <==> !look.camera || look.closed
            &&& look.decision(now) == LookAction::Look <==> look.camera && !look.closed
                && look.frames_pending > 0 && !look.responding && !heard
            &&& look.decision(now) != LookAction::Respond
            &&& look.after_tick(now).frames_pending == (if look.decision(now) == LookAction::Look {
                0
            } else {
                look.frames_pending
            })
            &&& look.after_tick(now).camera == look.camera
            &&& look.after_tick(now).last_audio == look.last_audio
            &&& look.after_tick(now).responding == look.responding
            &&& look.after_tick(now).closed == look.closed
        }),
{
}

/// Each thing that happens changes what it is about and nothing else. A frame adds one to the frames
/// that are pending, which start over at 0 after `u32::MAX`.
pub proof fn each_event_changes_its_own_part(look: LookState, now: Moment, responding: bool)
    ensures
        look.after_audio(now).last_audio == Some(now),
        look.after_audio(now).camera == look.camera,
        look.after_audio(now).frames_pending == look.frames_pending,
        look.after_audio(now).responding == look.responding,
        look.after_audio(now).closed == look.closed,
        look.after_frame().frames_pending == (look.frames_pending + 1) % 0x1_0000_0000,
        look.after_frame().camera == look.camera,
        look.after_frame().last_audio == look.last_audio,
        look.after_frame().responding == look.responding,
        look.after_frame().closed == look.closed,
        look.after_response(responding).responding == responding,
        look.after_response(responding).camera == look.camera,
        look.after_response(responding).frames_pending == look.frames_pending,
        look.after_response(responding).last_audio == look.last_audio,
        look.after_response(responding).closed == look.closed,
        look.after_close().closed,
        look.after_close().camera == look.camera,
        look.after_close().frames_pending == look.frames_pending,
        look.after_close().last_audio == look.last_audio,
        look.after_close().responding == look.responding,
{
}

proof fn lemma_course_in_two_parts(
    look: LookState,
    before: Seq<LookEvent>,
    after: Seq<LookEvent>,
)
    ensures
        look.after_all(before + after) == look.after_all(before).after_all(after),
    decreases before.len(),
{
    if before.len() == 0 {
        assert(before + after =~= after);
    } else {
        assert((before + after).first() == before.first());
        assert((before + after).drop_first() =~= before.drop_first() + after);
        lemma_course_in_two_parts(look.after(before.first()), before.drop_first(), after);
    }
}

proof fn lemma_audio_stays(look: LookState, events: Seq<LookEvent>)
    requires
        forall|i: int| 0 <= i < events.len() ==> #[trigger] events[i] !is Audio,
    ensures
        look.after_all(events).last_audio == look.last_audio,
    decreases events.len(),
{
    if events.len() > 0 {
        assert(events.first() == events[0]);
        assert forall|i: int| 0 <= i < events.drop_first().len() implies #[trigger]
            events.drop_first()[i] !is Audio by {
            assert(events.drop_first()[i] == events[i + 1]);
        }
        lemma_audio_stays(look.after(events.first()), events.drop_first());
    }
}

/// Whatever came before, the last audio that counts is the latest one, and for 1500 ms after it no
/// tick asks the model to look.
pub proof fn the_latest_audio_keeps_looks_away(
    look: LookState,
    before: Seq<LookEvent>,
    heard: Moment,
    after: Seq<LookEvent>,
    now: Moment,
)
    requires
        forall|i: int| 0 <= i < after.len() ==> #[trigger] after[i] !is Audio,
    ensures
        ({
            let then = look.after_all(before + seq![LookEvent::Audio(heard)] + after);
            &&& then.last_audio == Some(heard)
            &&& now.nanos < heard.nanos + 1_500_000_000 ==> then.decision(now) != LookAction::Look
        }),
{
    let audio = seq![LookEvent::Audio(heard)];
    lemma_course_in_two_parts(look, before + audio, after);
    lemma_course_in_two_parts(look, before, audio);
    let at = look.after_all(before);
    assert(audio.drop_first() =~= seq![]);
    assert(at.after_all(audio) == at.after_audio(heard)) by {
        reveal_with_fuel(LookState::after_all, 2);
    }
    lemma_audio_stays(at.after_all(audio), after);
}

/// Over any course of a session the model counts as responding exactly where the latest word on it
/// said so.
pub proof fn the_latest_word_on_responding_counts(
    look: LookState,
    before: Seq<LookEvent>,
    responding: bool,
    after: Seq<LookEvent>,
)
    requires
        forall|i: int| 0 <= i < after.len() ==> #[trigger] after[i] !is Responding,
    ensures
        look.after_all(before + seq![LookEvent::Responding(responding)] + after).responding
            == responding,
{
    let word = seq![LookEvent::Responding(responding)];
    lemma_course_in_two_parts(look, before + word, after);
    lemma_course_in_two_parts(look, before, word);
    let at = look.after_all(before);
    assert(word.drop_first() =~= seq![]);
    assert(at.after_all(word) == at.after_response(responding)) by {
        reveal_with_fuel(LookState::after_all, 2);
    }
    lemma_responding_stays(at.after_all(word), after);
}

proof fn lemma_responding_stays(look: LookState, events: Seq<LookEvent>)
    requires
        forall|i: int| 0 <= i < events.len() ==> #[trigger] events[i] !is Responding,
    ensures
        look.after_all(events).responding == look.responding,
    decreases events.len(),
{
    if events.len() > 0 {
        assert(events.first() == events[0]);
        assert forall|i: int| 0 <= i < events.drop_first().len() implies #[trigger]
            events.drop_first()[i] !is Responding by {
            assert(events.drop_first()[i] == events[i + 1]);
        }
        lemma_responding_stays(look.after(events.first()), events.drop_first());
    }
}

// Opening a session.

/// A handshake begins with the runner where there is voice, and is refused where there is none.
pub proof fn a_handshake_begins_with_voice(
    enabled: bool,
    camera: bool,
    requested: Option<Seq<char>>,
)
    ensures
        ({
            let start = HandshakeState::start(enabled, camera, requested);
            &&& start.requested == requested
            &&& start.camera == camera
            &&& enabled <==> start.stage is BuildRunner
            &&& !enabled <==> start.stage == StageState::Refused(
                "Voice unavailable — set GOOGLE_API_KEY"@,
            )
        }),
{
}

/// Where each step leads. A failure of the runner refuses the session with the error after what
/// failed. A session that was asked for and is there is the one that is named beside the runner; one
/// that was not asked for or is not there is created. Nothing else moves the handshake.
pub proof fn every_step_leads_on(at: HandshakeState, outcome: OutcomeState)
    ensures
        ({
            let next = at.after(outcome);
            &&& next.requested == at.requested
            &&& next.camera == at.camera
            &&& next.stage != at.stage ==> {
                ||| at.stage is BuildRunner && (outcome is Done || outcome is Failed)
                ||| at.stage is Connect && (outcome is Done || outcome is Failed)
                ||| at.stage is FindSession && outcome is Found
                ||| at.stage is CreateSession && outcome is Created
                ||| at.stage is NameRunner && outcome is Named
            }
            &&& at.stage is BuildRunner && outcome is Done ==> next.stage is Connect
            &&& at.stage is BuildRunner && outcome is Failed ==> next.stage == StageState::Refused(
                "Init failed: "@ + outcome->Failed_0,
            )
            &&& at.stage is Connect && outcome is Failed ==> next.stage == StageState::Refused(
                "Connect failed: "@ + outcome->Failed_0,
            )
            &&& at.stage is Connect && outcome is Done && at.requested is Some ==> next.stage
                == StageState::FindSession(at.requested->0)
            &&& at.stage is Connect && outcome is Done && at.requested is None ==> next.stage
                is CreateSession
            &&& at.stage is FindSession && outcome == OutcomeState::Found(true) ==> next.stage
                == StageState::NameRunner(at.stage->FindSession_0)
            &&& at.stage is FindSession && outcome == OutcomeState::Found(false) ==> next.stage
                is CreateSession
            &&& at.stage is CreateSession && outcome is Created ==> next.stage
                == StageState::NameRunner(outcome->Created_0)
            &&& at.stage is NameRunner && outcome is Named ==> next.stage is Open
                && next.stage->session_id == at.stage->NameRunner_0
                && next.stage->runner_session_id == outcome->Named_0
        }),
{
}

/// What is said of a handshake is said of its parts: no stage and no outcome is taken for another,
/// and no text in them for another text.
pub proof fn a_handshake_is_its_parts(handshake: Handshake, outcome: Outcome)
    ensures
        handshake@.camera == handshake.camera,
        handshake.requested is None <==> handshake@.requested is None,
        handshake.requested matches Some(id) ==> handshake@.requested == Some(id@),
        handshake.stage is BuildRunner <==> handshake@.stage is BuildRunner,
        handshake.stage is Connect <==> handshake@.stage is Connect,
        handshake.stage matches Stage::FindSession { id } ==> handshake@.stage
            == StageState::FindSession(id@),
        handshake.stage is CreateSession <==> handshake@.stage is CreateSession,
        handshake.stage matches Stage::NameRunner { session_id } ==> handshake@.stage
            == StageState::NameRunner(session_id@),
        handshake.stage is Open <==> handshake@.stage is Open,
        handshake.stage matches Stage::Open { session_id, runner_session_id } ==> {
            &&& handshake@.stage->session_id == session_id@
            &&& runner_session_id is None <==> handshake@.stage->runner_session_id is None
            &&& runner_session_id matches Some(id) ==> handshake@.stage->runner_session_id == Some(
                id@,
            )
        },
        handshake.stage matches Stage::Refused { message } ==> handshake@.stage
            == StageState::Refused(message@),
        outcome is Done <==> outcome@ is Done,
        outcome matches Outcome::Failed { error } ==> outcome@ == OutcomeState::Failed(error@),
        outcome matches Outcome::Found { known } ==> outcome@ == OutcomeState::Found(known),
        outcome matches Outcome::Created { session_id } ==> outcome@ == OutcomeState::Created(
            session_id@,
        ),
        outcome matches Outcome::Named { id: Some(id) } ==> outcome@ == OutcomeState::Named(
            Some(id@),
        ),
        outcome matches Outcome::Named { id: None } ==> outcome@ == OutcomeState::Named(None),
{
}

/// Whatever is sent when a session is open is a greeting with the id of its UI session, the id of
/// the runner, if there is one, and the camera as it is. A refusal is an error with its reason.
/// Before that nothing is sent.
pub proof fn the_answer_is_greeting_or_refusal(handshake: Handshake)
    ensures
        handshake.answer() is None <==> handshake.stage !is Open && handshake.stage !is Refused,
        handshake.stage is Open ==> {
            &&& handshake.answer() is Some
            &&& handshake.answer()->0 is Connected
            &&& handshake.answer()->0->session_id == handshake.stage->Open_session_id
            &&& handshake.answer()->0->runner_session_id == handshake.stage->runner_session_id
            &&& handshake.answer()->0->camera == handshake.camera
        },
        handshake.stage is Refused ==> {
            &&& handshake.answer() is Some
            &&& handshake.answer()->0 is Error
            &&& handshake.answer()->0->Error_message == handshake.stage->message
        },
{
}

/// However a handshake went, the client is greeted with the id of a UI session, the one it asked for
/// and that was found or one that was created, never with that of the runner in its place; and with
/// whether there is a camera.
pub proof fn the_greeting_carries_the_ui_session(
    handshake: Handshake,
    camera: bool,
    requested: Option<Seq<char>>,
    outcomes: Seq<OutcomeState>,
)
    requires
        handshake@ == HandshakeState::start(true, camera, requested).after_all(outcomes),
    ensures
        handshake.answer() matches Some(
            ServerMessage::Connected { session_id, runner_session_id, camera: told },
        ) ==> {
            &&& is_ui_session(session_id@, requested, outcomes)
            &&& is_done_twice(outcomes)
            &&& runner_session_id matches Some(id) ==> outcomes.contains(
                OutcomeState::Named(Some(id@)),
            )
            &&& told == camera
        },
{
    greeting_names_a_ui_session(camera, requested, outcomes);
    request_and_camera_stay(HandshakeState::start(true, camera, requested), outcomes);
    a_handshake_is_its_parts(handshake, Outcome::Done);
}

/// A client that asks for a UI session that is there is greeted with that one, with and without a
/// camera and whether or not the runner has an id of its own.
pub proof fn a_known_session_is_greeted_by_its_id(
    handshake: Handshake,
    camera: bool,
    id: Seq<char>,
    runner: Option<Seq<char>>,
)
    requires
        handshake@ == HandshakeState::start(true, camera, Some(id)).after(OutcomeState::Done).after(
            OutcomeState::Done,
        ).after(OutcomeState::Found(true)).after(OutcomeState::Named(runner)),
    ensures
        handshake.answer() is Some,
        handshake.answer()->0 is Connected,
        handshake.answer()->0->session_id@ == id,
        handshake.answer()->0->camera == camera,
        handshake.answer()->0->runner_session_id is Some <==> runner is Some,
        runner is Some ==> handshake.answer()->0->runner_session_id->0@ == runner->0,
{
    a_handshake_is_its_parts(handshake, Outcome::Done);
}

/// A client whose UI session was created is greeted with the one that was created.
pub proof fn a_created_session_is_greeted_by_its_id(
    handshake: Handshake,
    at: HandshakeState,
    created: Seq<char>,
    runner: Option<Seq<char>>,
)
    requires
        at.stage is CreateSession,
        handshake@ == at.after(OutcomeState::Created(created)).after(OutcomeState::Named(runner)),
    ensures
        handshake.answer() is Some,
        handshake.answer()->0 is Connected,
        handshake.answer()->0->session_id@ == created,
        handshake.answer()->0->camera == at.camera,
        handshake.answer()->0->runner_session_id is Some <==> runner is Some,
        runner is Some ==> handshake.answer()->0->runner_session_id->0@ == runner->0,
{
    a_handshake_is_its_parts(handshake, Outcome::Done);
}

// From the client to the model.

/// Whether an object has the string `chars` as its member `key`.
pub open spec fn has_text(
    members: Map<Seq<char>, JsonTree>,
    key: Seq<char>,
    chars: Seq<char>,
) -> bool {
    members.contains_key(key) && members[key] == JsonTree::Text(chars)
}

/// A message that is no object, or has no string as its `type`, asks for nothing.
pub proof fn a_message_without_a_type_asks_for_nothing(tree: JsonTree)
    requires
        tree matches JsonTree::Object(members) ==> forall|kind: Seq<char>|
            !#[trigger] has_text(members, "type"@, kind),
    ensures
        request(tree) is Nothing,
{
    if let JsonTree::Object(members) = tree {
        if members.contains_key("type"@) {
            if let JsonTree::Text(kind) = members["type"@] {
                assert(has_text(members, "type"@, kind));
            }
        }
    }
}

proof fn lemma_types_differ()
    ensures
        "text"@ != "commit_audio"@,
        "text"@ != "create_response"@,
        "text"@ != "interrupt"@,
        "text"@ != "frame"@,
        "commit_audio"@ != "create_response"@,
        "commit_audio"@ != "interrupt"@,
        "commit_audio"@ != "frame"@,
        "create_response"@ != "interrupt"@,
        "create_response"@ != "frame"@,
        "interrupt"@ != "frame"@,
{
    reveal_strlit("text");
    reveal_strlit("commit_audio");
    reveal_strlit("create_response");
    reveal_strlit("interrupt");
    reveal_strlit("frame");
    assert("text"@.len() == 4);
    assert("commit_audio"@.len() == 12);
    assert("create_response"@.len() == 15);
    assert("interrupt"@.len() == 9);
    assert("frame"@.len() == 5);
}

/// A message asks for what its `type` says and for nothing else: a text for the string that is its
/// `content`, a frame for the strings that are its `mime` and its `data`, each of them empty where
/// there is no such string. No message is taken for audio or for leaving.
pub proof fn a_message_asks_for_what_its_type_says(
    members: Map<Seq<char>, JsonTree>,
    content: Seq<char>,
    mime: Seq<char>,
    data: Seq<char>,
)
    ensures
        ({
            let asked = request(JsonTree::Object(members));
            &&& asked == ClientInput::Text(content) <==> has_text(members, "type"@, "text"@)
                && has_text(members, "content"@, content)
            &&& asked is CommitAudio <==> has_text(members, "type"@, "commit_audio"@)
            &&& asked is CreateResponse <==> has_text(members, "type"@, "create_response"@)
            &&& asked is Interrupt <==> has_text(members, "type"@, "interrupt"@)
            &&& asked is Frame <==> has_text(members, "type"@, "frame"@)
            &&& asked is Frame && has_text(members, "mime"@, mime) ==> asked->mime == mime
            &&& asked is Frame && has_text(members, "data"@, data) ==> asked->data == data
            &&& asked is Frame && !(members.contains_key("mime"@) && members["mime"@] is Text)
                ==> asked->mime.len() == 0
            &&& asked is Frame && !(members.contains_key("data"@) && members["data"@] is Text)
                ==> asked->data.len() == 0
            &&& asked !is Audio
            &&& asked !is Closed
        }),
{
    lemma_types_differ();
}

/// Binary frames are audio, byte for byte, whatever they hold. A text frame asks for what its JSON
/// asks for, and for nothing where it is no JSON. Closing is leaving.
pub proof fn a_socket_frame_is_read_by_its_form(bytes: Vec<u8>, text: String)
    ensures
        decoded(SocketFrame::Binary(bytes)) == ClientInput::Audio(base64_text(bytes@)),
        json_parse(text@) matches Some(tree) ==> decoded(SocketFrame::Text(text)) == request(tree),
        json_parse(text@) is None ==> decoded(SocketFrame::Text(text)) is Nothing,
        decoded(SocketFrame::Close) is Closed,
        decoded(SocketFrame::Other) is Nothing,
{
}

/// What is said of what a client wants is said of its strings.
pub proof fn a_client_event_is_its_strings(event: ClientEvent)
    ensures
        event matches ClientEvent::Audio { base64 } ==> event@ == ClientInput::Audio(base64@),
        event matches ClientEvent::Text { content } ==> event@ == ClientInput::Text(content@),
        event is CommitAudio <==> event@ is CommitAudio,
        event is CreateResponse <==> event@ is CreateResponse,
        event is Interrupt <==> event@ is Interrupt,
        event matches ClientEvent::Frame { mime, data } ==> event@ is Frame && event@->mime == mime@
            && event@->data == data@,
        event is Nothing <==> event@ is Nothing,
        event is Closed <==> event@ is Closed,
{
}

/// What is said of an action is said of its strings and of its message.
pub proof fn an_uplink_action_is_its_strings(action: UplinkAction)
    ensures
        action matches UplinkAction::SendAudio { base64 } ==> action@ == UplinkStep::SendAudio(
            base64@,
        ),
        action matches UplinkAction::SendText { content } ==> action@ == UplinkStep::SendText(
            content@,
        ),
        action is CommitAudio <==> action@ is CommitAudio,
        action is CreateResponse <==> action@ is CreateResponse,
        action is Interrupt <==> action@ is Interrupt,
        action matches UplinkAction::SendFrame { mime, data } ==> action@ is SendFrame
            && action@->mime == mime@ && action@->data == data@,
        action matches UplinkAction::Tell { message } ==> action@ == UplinkStep::Tell(message),
        action is Nothing <==> action@ is Nothing,
        action is Stop <==> action@ is Stop,
{
}

/// With the camera on or off, and whatever went before, audio is sent to the model as it is, and so
/// is a text; a commit, a request for a response and an interruption are passed on; a client that
/// leaves is read no further.
pub proof fn what_is_no_frame_passes_the_frame_gate_by(
    gate: GateState,
    base64: Seq<char>,
    content: Seq<char>,
    now: Moment,
)
    ensures
        uplink_step(gate, ClientInput::Audio(base64), now) == UplinkStep::SendAudio(base64),
        uplink_step(gate, ClientInput::Text(content), now) == UplinkStep::SendText(content),
        uplink_step(gate, ClientInput::CommitAudio, now) is CommitAudio,
        uplink_step(gate, ClientInput::CreateResponse, now) is CreateResponse,
        uplink_step(gate, ClientInput::Interrupt, now) is Interrupt,
        uplink_step(gate, ClientInput::Nothing, now) is Nothing,
        uplink_step(gate, ClientInput::Closed, now) is Stop,
        gate_after(gate, ClientInput::Audio(base64), now) == gate,
        gate_after(gate, ClientInput::Text(content), now) == gate,
        gate_after(gate, ClientInput::CommitAudio, now) == gate,
        gate_after(gate, ClientInput::CreateResponse, now) == gate,
        gate_after(gate, ClientInput::Interrupt, now) == gate,
        gate_after(gate, ClientInput::Nothing, now) == gate,
        gate_after(gate, ClientInput::Closed, now) == gate,
{
}

/// A frame goes to the model with its type and payload exactly where the frame gate accepts it. Of
/// the others the client is told the reason, and nothing where it was only that they came too fast.
/// The frame gate takes note of it either way.
pub proof fn a_frame_goes_out_or_is_answered(
    gate: GateState,
    mime: Seq<char>,
    data: Seq<char>,
    now: Moment,
)
    ensures
        ({
            let frame = Attempt { mime, data, now };
            let step = uplink_step(gate, ClientInput::Frame { mime, data }, now);
            &&& step is SendFrame <==> gate.verdict(frame) is Ok
            &&& step is SendFrame ==> step->mime == mime && step->data == data
            &&& step is Nothing <==> gate.verdict(frame) == Err::<(), FrameReject>(
                FrameReject::TooFast,
            )
            &&& step is SendFrame || step is Nothing || step is Tell
            &&& step is Tell ==> step->Tell_0 is FrameRejected && gate.verdict(frame) == Err::<
                (),
                FrameReject,
            >(step->Tell_0->reason)
            &&& gate_after(gate, ClientInput::Frame { mime, data }, now) == gate.after(frame)
        }),
{
}

/// Audio sets the moment of the last audio, leaving ends the session, and what else a client wants
/// leaves the look tick as it was.
pub proof fn the_look_tick_notes_audio_and_leaving(look: LookState, input: ClientInput, now: Moment)
    ensures
        ({
            let then = look_after(look, input, now);
            &&& then.last_audio == (if input is Audio {
                Some(now)
            } else {
                look.last_audio
            })
            &&& then.closed == (look.closed || input is Closed)
            &&& then.camera == look.camera
            &&& then.frames_pending == look.frames_pending
            &&& then.responding == look.responding
        }),
{
}

/// Only audio and frames have to reach the model. Where one of them does not, the session is over;
/// a frame that does is one more that is pending; and nothing else changes.
pub proof fn deliveries_count_frames_and_end_on_loss(
    look: LookState,
    step: UplinkStep,
    sent: bool,
)
    ensures
        ({
            let lost = !sent && (step is SendAudio || step is SendFrame);
            let then = look_after_delivery(look, step.delivery(), sent);
            &&& reads_on(step.delivery(), sent) <==> !lost
            &&& then.closed == (look.closed || lost)
            &&& then.frames_pending == (if step is SendFrame && sent {
                (look.frames_pending + 1) % 0x1_0000_0000
            } else {
                look.frames_pending as int
            })
            &&& then.camera == look.camera
            &&& then.last_audio == look.last_audio
            &&& then.responding == look.responding
        }),
{
}

/// A text is followed by a request for a response, sent or lost, and nothing else is followed by
/// anything.
pub proof fn only_a_text_is_followed_up(step: UplinkStep, sent: bool)
    ensures
        step is SendText ==> follow_up_step(step.delivery(), sent) is CreateResponse,
        step !is SendText ==> follow_up_step(step.delivery(), sent) is Nothing,
{
}

// From the model to the client.

/// Every event of the model but those of no concern reaches the client, and with what it carries:
/// audio byte for byte; texts, transcripts and errors with their words; a function call, of whatever
/// tool, with its name and its arguments.
pub proof fn every_event_reaches_the_client_unchanged(event: ModelEvent)
    ensures
        relayed(event) is Nothing <==> event is Other,
        relayed(event) is Stop <==> event is Ended,
        relayed(event) is SendAudio <==> event is AudioDelta,
        event is AudioDelta ==> relayed(event)->bytes == event->bytes,
        event is TextDelta ==> relayed(event)->message is TextDelta
            && relayed(event)->message->TextDelta_content == event->TextDelta_delta,
        event is TranscriptDelta ==> relayed(event)->message is Transcript
            && relayed(event)->message->Transcript_content == event->TranscriptDelta_delta,
        event is SpeechStarted ==> relayed(event)->message is SpeechStarted,
        event is SpeechStopped ==> relayed(event)->message is SpeechStopped,
        event is ResponseDone ==> relayed(event)->message is ResponseDone,
        event is FunctionCallDone ==> relayed(event)->message is ToolCall
            && relayed(event)->message->name == event->name && relayed(event)->message->arguments
            == event->arguments,
        event is Error ==> relayed(event)->message is Error
            && relayed(event)->message->Error_message == event->message,
{
}

/// Two function calls are relayed as the same message only where they are the same call.
pub proof fn different_calls_are_told_apart(one: ModelEvent, other: ModelEvent)
    requires
        one is FunctionCallDone,
        other is FunctionCallDone,
        relayed(one) == relayed(other),
    ensures
        one == other,
{
}

/// Audio and text begin a response, its end and an error end it, the end of the events ends the
/// session, and nothing else changes the look tick.
pub proof fn the_look_tick_notes_responses(look: LookState, event: ModelEvent)
    ensures
        ({
            let then = look_after_model(look, event);
            &&& then.responding == (if event is AudioDelta || event is TextDelta {
                true
            } else if event is ResponseDone || event is Error {
                false
            } else {
                look.responding
            })
            &&& then.closed == (look.closed || event is Ended)
            &&& then.camera == look.camera
            &&& then.frames_pending == look.frames_pending
            &&& then.last_audio == look.last_audio
        }),
{
}

// Messages.

/// What each message is sent as: its type, what it carries, and no other member.
pub proof fn a_message_is_sent_with_what_it_carries(
    message: ServerMessage,
    a: String,
    b: String,
    camera: bool,
    reason: FrameReject,
)
    ensures
        message.tree() == JsonTree::Object(message.members()),
        message == (ServerMessage::Error { message: a }) ==> message.members() =~= map![
            "type"@ => JsonTree::Text("error"@),
            "message"@ => JsonTree::Text(a@),
        ],
        message == (ServerMessage::Connected {
            session_id: a,
            runner_session_id: Some(b),
            camera,
        }) ==> message.members() =~= map![
            "type"@ => JsonTree::Text("connected"@),
            "session_id"@ => JsonTree::Text(a@),
            "runner_session_id"@ => JsonTree::Text(b@),
            "camera"@ => JsonTree::Bool(camera),
        ],
        message == (ServerMessage::Connected {
            session_id: a,
            runner_session_id: None,
            camera,
        }) ==> message.members() =~= map![
            "type"@ => JsonTree::Text("connected"@),
            "session_id"@ => JsonTree::Text(a@),
            "runner_session_id"@ => JsonTree::Null,
            "camera"@ => JsonTree::Bool(camera),
        ],
        message == (ServerMessage::TextDelta { content: a }) ==> message.members() =~= map![
            "type"@ => JsonTree::Text("text_delta"@),
            "content"@ => JsonTree::Text(a@),
        ],
        message == (ServerMessage::Transcript { content: a }) ==> message.members() =~= map![
            "type"@ => JsonTree::Text("transcript"@),
            "content"@ => JsonTree::Text(a@),
        ],
        message is SpeechStarted ==> message.members() =~= map![
            "type"@ => JsonTree::Text("speech_started"@),
        ],
        message is SpeechStopped ==> message.members() =~= map![
            "type"@ => JsonTree::Text("speech_stopped"@),
        ],
        message is ResponseDone ==> message.members() =~= map![
            "type"@ => JsonTree::Text("response_done"@),
        ],
        message == (ServerMessage::ToolCall { name: a, arguments: b }) ==> message.members()
            =~= map![
            "type"@ => JsonTree::Text("tool_call"@),
            "name"@ => JsonTree::Text(a@),
            "arguments"@ => JsonTree::Text(b@),
        ],
        message == (ServerMessage::FrameRejected { reason }) ==> message.members() =~= map![
            "type"@ => JsonTree::Text("frame_rejected"@),
            "reason"@ => JsonTree::Text(reason.name()),
        ],
{
}

/// A message says all that it carries: from the object that is sent, the words of the message can be
/// read off.
pub proof fn messages_lose_nothing(one: ServerMessage, other: ServerMessage)
    requires
        one.tree() == other.tree(),
    ensures
        one.kind() == other.kind(),
        one is Error && other is Error ==> one->Error_message@ == other->Error_message@,
        one is Connected && other is Connected ==> one->session_id@ == other->session_id@
            && one->camera == other->camera,
        one is TextDelta && other is TextDelta ==> one->TextDelta_content@
            == other->TextDelta_content@,
        one is Transcript && other is Transcript ==> one->Transcript_content@
            == other->Transcript_content@,
        one is ToolCall && other is ToolCall ==> one->name@ == other->name@ && one->arguments@
            == other->arguments@,
        one is FrameRejected && other is FrameRejected ==> one->reason.name()
            == other->reason.name(),
{
    crate::messages::every_message_carries_its_type(one);
    crate::messages::every_message_carries_its_type(other);
    reveal_strlit("session_id");
    reveal_strlit("runner_session_id");
    reveal_strlit("camera");
    reveal_strlit("name");
    reveal_strlit("arguments");
    assert("session_id"@.len() == 10);
    assert("runner_session_id"@.len() == 17);
    assert("camera"@.len() == 6);
    assert("name"@.len() == 4);
    assert("arguments"@.len() == 9);
    let a = one.members();
    let b = other.members();
    assert(a["message"@] == b["message"@]);
    assert(a["session_id"@] == b["session_id"@]);
    assert(a["camera"@] == b["camera"@]);
    assert(a["content"@] == b["content"@]);
    assert(a["name"@] == b["name"@]);
    assert(a["arguments"@] == b["arguments"@]);
    assert(a["reason"@] == b["reason"@]);
}

/// The names of the reasons.
pub proof fn a_rejection_is_named_by_its_reason()
    ensures
        FrameReject::CameraOff.name() == "camera_off"@,
        FrameReject::Mime.name() == "unsupported_mime"@,
        FrameReject::Empty.name() == "empty"@,
        FrameReject::TooLarge.name() == "too_large"@,
        FrameReject::TooFast.name() == "too_fast"@,
{
}

// Reports of gestures.

/// Whether two letters are the same, or the first is the capital of the second.
pub open spec fn is_letter_or_capital(written: char, letter: char) -> bool {
    written == letter || 'A' <= written <= 'Z' && written as u32 + 32 == letter as u32
}

/// Whether `s` is `name` in any letter case, with any white space around it.
pub open spec fn is_spelling_of(s: Seq<char>, name: Seq<char>) -> bool {
    exists|left: Seq<char>, word: Seq<char>, right: Seq<char>|
        {
            &&& s == #[trigger] (left + word + right)
            &&& forall|i: int| 0 <= i < left.len() ==> is_white_space(#[trigger] left[i])
            &&& forall|i: int| 0 <= i < right.len() ==> is_white_space(#[trigger] right[i])
            &&& word.len() == name.len()
            &&& forall|i: int|
                0 <= i < word.len() ==> is_letter_or_capital(#[trigger] word[i], name[i])
        }
}

proof fn lemma_trimmed_off(s: Seq<char>) -> (ends: (Seq<char>, Seq<char>))
    ensures
        s == ends.0 + trimmed(s) + ends.1,
        forall|i: int| 0 <= i < ends.0.len() ==> is_white_space(#[trigger] ends.0[i]),
        forall|i: int| 0 <= i < ends.1.len() ==> is_white_space(#[trigger] ends.1[i]),
    decreases s.len(),
{
    if s.len() == 0 {
        assert(s =~= seq![] + s + seq![]);
        (seq![], seq![])
    } else if is_white_space(s.first()) {
        let (left, right) = lemma_trimmed_off(s.drop_first());
        let more = seq![s.first()] + left;
        assert(s =~= seq![s.first()] + s.drop_first());
        assert(s =~= more + trimmed(s) + right);
        (more, right)
    } else if is_white_space(s.last()) {
        let (left, right) = lemma_trimmed_off(s.drop_last());
        let more = right.push(s.last());
        assert(s =~= s.drop_last().push(s.last()));
        assert(s =~= left + trimmed(s) + more);
        (left, more)
    } else {
        assert(s =~= seq![] + s + seq![]);
        (seq![], seq![])
    }
}

/// A report is read as a gesture exactly where it spells its name, in any letter case and with any
/// white space around it. Nothing else is read as it.
pub proof fn exactly_the_spellings_are_read(g: Gesture, s: Seq<char>)
    ensures
        g.name() == normalized(s) <==> is_spelling_of(s, g.name()),
{
    let name = g.name();
    lemma_letters_of_names();
    assert(forall|i: int| 0 <= i < name.len() ==> !('A' <= #[trigger] name[i] <= 'Z'));
    if is_spelling_of(s, name) {
        let (left, word, right) = choose|left: Seq<char>, word: Seq<char>, right: Seq<char>|
            {
                &&& s == #[trigger] (left + word + right)
                &&& forall|i: int| 0 <= i < left.len() ==> is_white_space(#[trigger] left[i])
                &&& forall|i: int| 0 <= i < right.len() ==> is_white_space(#[trigger] right[i])
                &&& word.len() == name.len()
                &&& forall|i: int|
                    0 <= i < word.len() ==> is_letter_or_capital(#[trigger] word[i], name[i])
            };
        assert forall|i: int| 0 <= i < word.len() implies ascii_lower(#[trigger] word[i])
            == name[i] by {
            assert(is_letter_or_capital(word[i], name[i]));
        }
        assert(ascii_lowered(word) =~= name);
        crate::gesture::every_spelling_is_read(g, left, word, right);
    }
    if name == normalized(s) {
        let (left, right) = lemma_trimmed_off(s);
        let word = trimmed(s);
        assert(word.len() == ascii_lowered(word).len());
        assert forall|i: int| 0 <= i < word.len() implies is_letter_or_capital(
            #[trigger] word[i],
            name[i],
        ) by {
            assert(ascii_lowered(word)[i] == ascii_lower(word[i]));
        }
        assert(s == left + word + right);
    }
}

// The operations themselves.

/// The voice channel is announced with what the server has, each on its own.
pub proof fn a_status_announces_voice_and_camera(enabled: bool, camera: bool, told: VoiceStatus)
    requires
        call_ensures(status, (enabled, camera), told),
    ensures
        told.enabled == enabled,
        told.camera == camera,
        told.ws_path@ == "/ws/voice"@,
        told.input_rate_hz == 16_000,
        told.output_rate_hz == 24_000,
{
}

/// A session begins with nothing seen, heard or counted.
pub proof fn a_session_begins_afresh(on: bool, gate: FrameGate, look: LookState)
    requires
        call_ensures(FrameGate::new, (on,), gate),
        call_ensures(LookState::new, (on,), look),
    ensures
        gate.enabled == on,
        gate.last is None,
        gate.accepted == 0,
        gate.rejected == 0,
        look.camera == on,
        look.frames_pending == 0,
        look.last_audio is None,
        !look.responding,
        !look.closed,
{
}

/// After a prompt that was sent a response is asked for, after one that was lost the ticks end, and
/// after the response the next tick is awaited.
pub proof fn a_look_goes_on_to_its_response(sent: bool, next: LookAction, later: LookAction)
    requires
        call_ensures(on_prompt_sent, (sent,), next),
        call_ensures(on_response_asked, (sent,), later),
    ensures
        next == LookAction::Respond <==> sent,
        next == LookAction::Stop <==> !sent,
        later == LookAction::Wait,
{
}

/// Parsing gives the gesture that a report spells, and none where it spells none.
pub proof fn parsing_gives_the_gesture_that_is_spelled(s: &str, parsed: Option<Gesture>, g: Gesture)
    requires
        call_ensures(Gesture::parse, (s,), parsed),
    ensures
        parsed == Some(g) <==> is_spelling_of(s@, g.name()),
{
    exactly_the_spellings_are_read(g, s@);
}

/// Checking a frame lets it through exactly where the camera is on, it is one of the three image
/// types, bare base64 of 1 to 262144 bytes, and 400 ms have passed since the last that went through.
/// The frame is counted once, and only one that goes through sets the moment of the last.
pub proof fn checking_judges_counts_and_times(
    gate: &mut FrameGate,
    mime: &str,
    data: &str,
    now: Moment,
    answer: Result<(), FrameReject>,
)
    requires
        call_ensures(FrameGate::check, (gate, mime, data, now), answer),
    ensures
        answer is Ok <==> {
            &&& old(gate).enabled
            &&& mime@ == "image/jpeg"@ || mime@ == "image/webp"@ || mime@ == "image/png"@
            &&& !begins_like_a_data_url(data@)
            &&& data@.len() > 0
            &&& encode_utf8(data@).len() <= 262144
            &&& old(gate).last is None || old(gate).last->0.nanos + 400_000_000 <= now.nanos
        },
        answer == Err::<(), FrameReject>(FrameReject::CameraOff) <==> !old(gate).enabled,
        answer == Err::<(), FrameReject>(FrameReject::Mime) ==> begins_like_a_data_url(data@)
            || mime@ != "image/jpeg"@ && mime@ != "image/webp"@ && mime@ != "image/png"@,
        answer == Err::<(), FrameReject>(FrameReject::Empty) ==> data@.len() == 0,
        answer == Err::<(), FrameReject>(FrameReject::TooLarge) ==> encode_utf8(data@).len()
            > 262144,
        answer == Err::<(), FrameReject>(FrameReject::TooFast) ==> old(gate).last is Some
            && now.nanos < old(gate).last->0.nanos + 400_000_000,
        final(gate).enabled == old(gate).enabled,
        final(gate).last == (if answer is Ok {
            Some(now)
        } else {
            old(gate).last
        }),
        final(gate).accepted == old(gate).accepted + (if answer is Ok {
            1int
        } else {
            0
        }),
        final(gate).rejected == old(gate).rejected + (if answer is Ok {
            0int
        } else {
            1
        }),
{
    a_frame_is_judged_by_type_form_size_and_time(
        old(gate)@,
        Attempt { mime: mime@, data: data@, now },
    );
}

/// What happens around the look tick is noted as it happens: audio at its moment, a frame as one
/// more, a response as begun or ended, the end of the session.
pub proof fn noting_changes_what_it_notes(
    heard: &mut LookState,
    framed: &mut LookState,
    responding: &mut LookState,
    closed: &mut LookState,
    now: Moment,
    begun: bool,
)
    requires
        call_ensures(LookState::audio_heard, (heard, now), ()),
        call_ensures(LookState::frame_sent, (framed,), ()),
        call_ensures(LookState::set_responding, (responding, begun), ()),
        call_ensures(LookState::close, (closed,), ()),
    ensures
        *final(heard) == (LookState { last_audio: Some(now), ..*old(heard) }),
        final(framed).frames_pending == (old(framed).frames_pending + 1) % 0x1_0000_0000,
        *final(framed) == (LookState {
            frames_pending: final(framed).frames_pending,
            ..*old(framed)
        }),
        *final(responding) == (LookState { responding: begun, ..*old(responding) }),
        *final(closed) == (LookState { closed: true, ..*old(closed) }),
{
}

/// A tick right after audio, within 1500 ms of it, never asks for a look, whatever was noted before.
pub proof fn a_tick_after_audio_does_not_look(
    before: &mut LookState,
    after: &mut LookState,
    heard: Moment,
    now: Moment,
    action: LookAction,
)
    requires
        call_ensures(LookState::audio_heard, (before, heard), ()),
        *old(after) == *final(before),
        call_ensures(LookState::tick, (after, now), action),
        now.nanos < heard.nanos + 1_500_000_000,
    ensures
        action != LookAction::Look,
        *final(after) == *old(after),
{
}

/// Ticking looks exactly where there are new frames, a camera, a session, and silence on both sides.
pub proof fn ticking_looks_at_new_frames_in_silence(
    look: &mut LookState,
    now: Moment,
    action: LookAction,
)
    requires
        call_ensures(LookState::tick, (look, now), action),
    ensures
        action == LookAction::Look <==> {
            &&& old(look).camera
            &&& !old(look).closed
            &&& old(look).frames_pending > 0
            &&& !old(look).responding
            &&& old(look).last_audio is None || old(look).last_audio->0.nanos + 1_500_000_000
                <= now.nanos
        },
        action == LookAction::Stop <==> !old(look).camera || old(look).closed,
        action == LookAction::Look ==> *final(look) == (LookState {
            frames_pending: 0,
            ..*old(look)
        }),
        action != LookAction::Look ==> *final(look) == *old(look),
{
}

/// A client event is acted on with what it holds. Audio, texts and requests never depend on the
/// camera; a frame is sent as it came or not at all.
pub proof fn acting_on_a_client_event(
    gate: &mut FrameGate,
    look: &mut LookState,
    event: ClientEvent,
    now: Moment,
    action: UplinkAction,
)
    requires
        call_ensures(on_client_event, (gate, look, event, now), action),
    ensures
        event is Audio ==> action is SendAudio && action->base64@ == event->base64@
            && final(look).last_audio == Some(now),
        event is Text ==> action is SendText && action->content@ == event->content@,
        event is CommitAudio ==> action is CommitAudio,
        event is CreateResponse ==> action is CreateResponse,
        event is Interrupt ==> action is Interrupt,
        event is Nothing ==> action is Nothing,
        event is Closed ==> action is Stop && final(look).closed,
        event !is Closed ==> final(look).closed == old(look).closed,
        event !is Audio ==> final(look).last_audio == old(look).last_audio,
        event !is Frame ==> final(gate)@ == old(gate)@,
        event is Frame ==> {
            &&& action is SendFrame <==> final(gate).accepted == old(gate).accepted + 1
            &&& action is SendFrame ==> action->mime@ == event->mime@ && action->data@
                == event->data@
            &&& action is SendFrame ==> old(gate).enabled && final(gate).last == Some(now)
            &&& !old(gate).enabled ==> action is Tell && action->message == (
            ServerMessage::FrameRejected { reason: FrameReject::CameraOff })
            &&& action is SendFrame || action is Tell || action is Nothing
        },
{
    an_uplink_action_is_its_strings(action);
    a_client_event_is_its_strings(event);
    if event is Frame {
        a_frame_goes_out_or_is_answered(old(gate)@, event->mime@, event->data@, now);
        an_answer_is_counted_and_timed(
            old(gate)@,
            Attempt { mime: event->mime@, data: event->data@, now },
        );
        a_frame_is_judged_by_type_form_size_and_time(
            old(gate)@,
            Attempt { mime: event->mime@, data: event->data@, now },
        );
    }
}

/// A text is followed by a request for a response, sent or lost; nothing else is followed up. What
/// an action sends follows from what it is.
pub proof fn following_up_an_action(
    action: UplinkAction,
    delivery: Delivery,
    sent: bool,
    next: UplinkAction,
)
    requires
        call_ensures(UplinkAction::delivery, (&action,), delivery),
        call_ensures(follow_up, (delivery, sent), next),
    ensures
        action is SendText ==> next is CreateResponse,
        action !is SendText ==> next is Nothing,
{
    an_uplink_action_is_its_strings(next);
}

/// Losing audio or a frame ends the session; losing anything else does not. A frame that is sent is
/// one more that is pending.
pub proof fn taking_note_of_a_delivery(
    look: &mut LookState,
    action: UplinkAction,
    delivery: Delivery,
    sent: bool,
    read_on: bool,
)
    requires
        call_ensures(UplinkAction::delivery, (&action,), delivery),
        call_ensures(on_delivery, (look, delivery, sent), read_on),
    ensures
        read_on <==> sent || action !is SendAudio && action !is SendFrame,
        final(look).closed == (old(look).closed || !read_on),
        final(look).frames_pending == (if action is SendFrame && sent {
            (old(look).frames_pending + 1) % 0x1_0000_0000
        } else {
            old(look).frames_pending as int
        }),
        final(look).last_audio == old(look).last_audio,
        final(look).responding == old(look).responding,
        final(look).camera == old(look).camera,
{
}

/// What the model does reaches the client with what it carries, whichever tool it calls and whatever
/// it says.
pub proof fn relaying_a_model_event(
    look: &mut LookState,
    event: ModelEvent,
    action: DownlinkAction,
)
    requires
        call_ensures(on_model_event, (look, event), action),
    ensures
        action is Nothing <==> event is Other,
        action is Stop <==> event is Ended,
        event matches ModelEvent::AudioDelta { bytes } ==> action is SendAudio && action->bytes
            == bytes,
        event matches ModelEvent::TextDelta { delta } ==> action is Tell && action->message == (
        ServerMessage::TextDelta { content: delta }),
        event matches ModelEvent::TranscriptDelta { delta } ==> action is Tell && action->message
            == (ServerMessage::Transcript { content: delta }),
        event is SpeechStarted ==> action is Tell && action->message is SpeechStarted,
        event is SpeechStopped ==> action is Tell && action->message is SpeechStopped,
        event is ResponseDone ==> action is Tell && action->message is ResponseDone,
        event matches ModelEvent::FunctionCallDone { name, arguments } ==> action is Tell
            && action->message == (ServerMessage::ToolCall { name, arguments }),
        event matches ModelEvent::Error { message } ==> action is Tell && action->message == (
        ServerMessage::Error { message }),
        event is AudioDelta || event is TextDelta ==> final(look).responding,
        event is ResponseDone || event is Error ==> !final(look).responding,
        event !is AudioDelta && event !is TextDelta && event !is ResponseDone && event !is Error
            ==> final(look).responding == old(look).responding,
        final(look).closed == (old(look).closed || event is Ended),
        final(look).frames_pending == old(look).frames_pending,
        final(look).last_audio == old(look).last_audio,
        final(look).camera == old(look).camera,
{
}

/// A client that cannot be reached ends the session, and one that can changes nothing.
pub proof fn taking_note_of_a_relay(look: &mut LookState, sent: bool, go_on: bool)
    requires
        call_ensures(on_relay, (look, sent), go_on),
    ensures
        go_on == sent,
        *final(look) == (LookState { closed: old(look).closed || !sent, ..*old(look) }),
{
}

/// The message of a handshake is a greeting with the ids of its stage, the reason of its refusal, or
/// nothing.
pub proof fn a_handshake_tells_its_stage(handshake: Handshake, told: Option<ServerMessage>)
    requires
        call_ensures(Handshake::message, (&handshake,), told),
    ensures
        handshake.stage matches Stage::Open { session_id, runner_session_id } ==> told == Some(
            ServerMessage::Connected { session_id, runner_session_id, camera: handshake.camera },
        ),
        handshake.stage matches Stage::Refused { message } ==> told == Some(
            ServerMessage::Error { message },
        ),
        handshake.stage !is Open && handshake.stage !is Refused ==> told is None,
{
}

/// A new handshake holds what the client asked for and waits for the runner, or is refused without
/// voice.
pub proof fn a_new_handshake_holds_the_query(
    enabled: bool,
    camera: bool,
    query: VoiceWsQuery,
    handshake: Handshake,
)
    requires
        call_ensures(Handshake::new, (enabled, camera, query), handshake),
    ensures
        handshake.camera == camera,
        handshake.requested is Some <==> query.session_id is Some,
        query.session_id is Some ==> handshake.requested->0@ == query.session_id->0@,
        handshake.stage is BuildRunner <==> enabled,
        handshake.stage is Refused <==> !enabled,
{
    a_handshake_is_its_parts(handshake, Outcome::Done);
}

/// A step that turned out one way or the other moves a handshake on with the ids and errors that
/// came with it.
pub proof fn a_step_moves_a_handshake_on(before: Handshake, outcome: Outcome, after: Handshake)
    requires
        call_ensures(Handshake::advance, (before, outcome), after),
    ensures
        after.camera == before.camera,
        before.stage is BuildRunner && outcome is Done ==> after.stage is Connect,
        before.stage is BuildRunner && outcome is Failed ==> after.stage is Refused
            && after.stage->message@ == "Init failed: "@ + outcome->error@,
        before.stage is Connect && outcome is Failed ==> after.stage is Refused
            && after.stage->message@ == "Connect failed: "@ + outcome->error@,
        before.stage is Connect && outcome is Done && before.requested is Some ==> after.stage
            is FindSession && after.stage->FindSession_id@ == before.requested->0@,
        before.stage is Connect && outcome is Done && before.requested is None ==> after.stage
            is CreateSession,
        before.stage is FindSession && outcome is Found && outcome->known ==> after.stage
            is NameRunner && after.stage->NameRunner_session_id@ == before.stage->FindSession_id@,
        before.stage is FindSession && outcome is Found && !outcome->known ==> after.stage
            is CreateSession,
        before.stage is CreateSession && outcome is Created ==> after.stage is NameRunner
            && after.stage->NameRunner_session_id@ == outcome->session_id@,
        before.stage is NameRunner && outcome is Named ==> after.stage is Open
            && after.stage->Open_session_id@ == before.stage->NameRunner_session_id@,
        before.stage is NameRunner && outcome is Named && outcome->Named_id is Some ==> after.stage
            is Open && after.stage->runner_session_id is Some
            && after.stage->runner_session_id->0@ == outcome->Named_id->0@,
        before.stage is NameRunner && outcome is Named && outcome->Named_id is None ==> after.stage
            is Open && after.stage->runner_session_id is None,
{
    a_handshake_is_its_parts(before, outcome);
    a_handshake_is_its_parts(after, outcome);
    every_step_leads_on(before@, outcome@);
}

/// A frame of the websocket is read as audio, as what its JSON asks for, or as leaving.
pub proof fn decoding_a_socket_frame(frame: SocketFrame, event: ClientEvent)
    requires
        call_ensures(decode, (frame,), event),
    ensures
        frame matches SocketFrame::Binary(bytes) ==> event is Audio && event->base64@ == base64_text(
            bytes@,
        ),
        frame matches SocketFrame::Text(text) ==> {
            &&& json_parse(text@) is None ==> event is Nothing
            &&& json_parse(text@) matches Some(tree) ==> event@ == request(tree)
        },
        frame is Close ==> event is Closed,
        frame is Other ==> event is Nothing,
{
    a_client_event_is_its_strings(event);
}

/// A parsed message is read by its members.
pub proof fn reading_a_parsed_message(
    message: &serde_json::Value,
    members: Map<Seq<char>, JsonTree>,
    event: ClientEvent,
    content: Seq<char>,
    mime: Seq<char>,
    data: Seq<char>,
)
    requires
        call_ensures(read_message, (message,), event),
        json_tree(*message) == JsonTree::Object(members),
    ensures
        has_text(members, "type"@, "text"@) && has_text(members, "content"@, content) ==> event
            is Text && event->content@ == content,
        event is CommitAudio <==> has_text(members, "type"@, "commit_audio"@),
        event is CreateResponse <==> has_text(members, "type"@, "create_response"@),
        event is Interrupt <==> has_text(members, "type"@, "interrupt"@),
        event is Frame <==> has_text(members, "type"@, "frame"@),
        event is Frame && has_text(members, "mime"@, mime) ==> event->mime@ == mime,
        event is Frame && has_text(members, "data"@, data) ==> event->data@ == data,
        event !is Audio,
        event !is Closed,
{
    a_client_event_is_its_strings(event);
    a_message_asks_for_what_its_type_says(members, content, mime, data);
}

/// A message is written as its object, and the object read from the text is the one written.
pub proof fn a_message_is_written_as_its_object(
    message: ServerMessage,
    value: serde_json::Value,
    text: String,
)
    requires
        call_ensures(ServerMessage::to_value, (&message,), value),
        call_ensures(ServerMessage::to_text, (&message,), text),
    ensures
        json_tree(value) == JsonTree::Object(message.members()),
        json_parse(text@) == Some(json_tree(value)),
{
}

} // verus!
