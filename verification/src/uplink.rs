//! From the client to the model: what comes in on the websocket and what is done about it.

use vstd::prelude::*;

use crate::audio::{base64_encode, base64_length, base64_text};
use crate::frame_gate::{Attempt, FrameGate, FrameReject, GateState};
use crate::json::{json_as_str, json_from_str, json_get, json_parse, json_tree, JsonTree};
use crate::look::LookState;
use crate::messages::ServerMessage;
use crate::moment::Moment;
use crate::text::same_text;

verus! {

/// What came in on the websocket.
pub enum SocketFrame {
    /// Microphone audio.
    Binary(Vec<u8>),
    /// A JSON message.
    Text(String),
    /// The client closed the socket, or it broke off.
    Close,
    /// A control frame.
    Other,
}

/// What the client wants.
pub enum ClientEvent {
    Audio { base64: String },
    Text { content: String },
    CommitAudio,
    CreateResponse,
    Interrupt,
    Frame { mime: String, data: String },
    /// Nothing that the server knows of.
    Nothing,
    /// To leave.
    Closed,
}

/// `ClientEvent`, over characters.
pub enum ClientInput {
    Audio(Seq<char>),
    Text(Seq<char>),
    CommitAudio,
    CreateResponse,
    Interrupt,
    Frame { mime: Seq<char>, data: Seq<char> },
    Nothing,
    Closed,
}

impl View for ClientEvent {
    type V = ClientInput;

    open spec fn view(&self) -> ClientInput {
        match self {
            ClientEvent::Audio { base64 } => ClientInput::Audio(base64@),
            ClientEvent::Text { content } => ClientInput::Text(content@),
            ClientEvent::CommitAudio => ClientInput::CommitAudio,
            ClientEvent::CreateResponse => ClientInput::CreateResponse,
            ClientEvent::Interrupt => ClientInput::Interrupt,
            ClientEvent::Frame { mime, data } => ClientInput::Frame { mime: mime@, data: data@ },
            ClientEvent::Nothing => ClientInput::Nothing,
            ClientEvent::Closed => ClientInput::Closed,
        }
    }
}

/// The characters of the member `key`, or none where it is missing or no string.
pub open spec fn text_or_empty(tree: JsonTree, key: Seq<char>) -> Seq<char> {
    match tree.text_member(key) {
        Some(chars) => chars,
        None => seq![],
    }
}

/// What a JSON message asks for, by its `type`.
pub open spec fn request(tree: JsonTree) -> ClientInput {
    match tree.text_member("type"@) {
        Some(kind) => if kind == "text"@ {
            match tree.text_member("content"@) {
                Some(content) => ClientInput::Text(content),
                None => ClientInput::Nothing,
            }
        } else if kind == "commit_audio"@ {
            ClientInput::CommitAudio
        } else if kind == "create_response"@ {
            ClientInput::CreateResponse
        } else if kind == "interrupt"@ {
            ClientInput::Interrupt
        } else if kind == "frame"@ {
            ClientInput::Frame {
                mime: text_or_empty(tree, "mime"@),
                data: text_or_empty(tree, "data"@),
            }
        } else {
            ClientInput::Nothing
        },
        None => ClientInput::Nothing,
    }
}

/// What the client wants with a frame of the websocket.
pub open spec fn decoded(frame: SocketFrame) -> ClientInput {
    match frame {
        SocketFrame::Binary(bytes) => ClientInput::Audio(base64_text(bytes@)),
        SocketFrame::Text(text) => match json_parse(text@) {
            Some(tree) => request(tree),
            None => ClientInput::Nothing,
        },
        SocketFrame::Close => ClientInput::Closed,
        SocketFrame::Other => ClientInput::Nothing,
    }
}

fn member_text<'a>(value: &'a serde_json::Value, key: &str) -> (r: Option<&'a str>)
    ensures
        (match r {
            Some(chars) => json_tree(*value).text_member(key@) == Some(chars@),
            None => json_tree(*value).text_member(key@) is None,
        }),
{
    match json_get(value, key) {
        Some(member) => json_as_str(member),
        None => None,
    }
}

fn member_text_or_empty(value: &serde_json::Value, key: &str) -> (r: String)
    ensures
        r@ == text_or_empty(json_tree(*value), key@),
{
    match member_text(value, key) {
        Some(chars) => chars.to_string(),
        None => String::new(),
    }
}

/// What a JSON message asks for.
pub fn read_message(message: &serde_json::Value) -> (r: ClientEvent)
    ensures
        r@ == request(json_tree(*message)),
{
    match member_text(message, "type") {
        Some(kind) => if same_text(kind, "text") {
            match member_text(message, "content") {
                Some(content) => ClientEvent::Text { content: content.to_string() },
                None => ClientEvent::Nothing,
            }
        } else if same_text(kind, "commit_audio") {
            ClientEvent::CommitAudio
        } else if same_text(kind, "create_response") {
            ClientEvent::CreateResponse
        } else if same_text(kind, "interrupt") {
            ClientEvent::Interrupt
        } else if same_text(kind, "frame") {
            ClientEvent::Frame {
                mime: member_text_or_empty(message, "mime"),
                data: member_text_or_empty(message, "data"),
            }
        } else {
            ClientEvent::Nothing
        },
        None => ClientEvent::Nothing,
    }
}

/// What the client wants with a frame of the websocket: binary frames are audio, text frames are
/// JSON messages, and a text that is no JSON asks for nothing.
pub fn decode(frame: SocketFrame) -> (r: ClientEvent)
    requires
        frame matches SocketFrame::Binary(bytes) ==> base64_length(bytes@.len()) <= isize::MAX,
    ensures
        r@ == decoded(frame),
{
    match frame {
        SocketFrame::Binary(bytes) => ClientEvent::Audio { base64: base64_encode(bytes.as_slice()) },
        SocketFrame::Text(text) => match json_from_str(text.as_str()) {
            Ok(message) => read_message(&message),
            Err(_) => ClientEvent::Nothing,
        },
        SocketFrame::Close => ClientEvent::Closed,
        SocketFrame::Other => ClientEvent::Nothing,
    }
}

/// What is to be done for the client.
pub enum UplinkAction {
    /// Send the model audio.
    SendAudio { base64: String },
    /// Send the model a text. `follow_up` says what comes next.
    SendText { content: String },
    CommitAudio,
    CreateResponse,
    Interrupt,
    /// Send the model a camera frame, and forget it.
    SendFrame { mime: String, data: String },
    /// Send the client a message.
    Tell { message: ServerMessage },
    Nothing,
    /// Read no further.
    Stop,
}

/// `UplinkAction`, over characters.
pub enum UplinkStep {
    SendAudio(Seq<char>),
    SendText(Seq<char>),
    CommitAudio,
    CreateResponse,
    Interrupt,
    SendFrame { mime: Seq<char>, data: Seq<char> },
    Tell(ServerMessage),
    Nothing,
    Stop,
}

impl View for UplinkAction {
    type V = UplinkStep;

    open spec fn view(&self) -> UplinkStep {
        match self {
            UplinkAction::SendAudio { base64 } => UplinkStep::SendAudio(base64@),
            UplinkAction::SendText { content } => UplinkStep::SendText(content@),
            UplinkAction::CommitAudio => UplinkStep::CommitAudio,
            UplinkAction::CreateResponse => UplinkStep::CreateResponse,
            UplinkAction::Interrupt => UplinkStep::Interrupt,
            UplinkAction::SendFrame { mime, data } => UplinkStep::SendFrame {
                mime: mime@,
                data: data@,
            },
            UplinkAction::Tell { message } => UplinkStep::Tell(*message),
            UplinkAction::Nothing => UplinkStep::Nothing,
            UplinkAction::Stop => UplinkStep::Stop,
        }
    }
}

/// What follows from the verdict on a frame: one that is let through goes to the model, one that
/// comes too fast is dropped, and of any other the client is told the reason.
pub open spec fn frame_step(
    verdict: Result<(), FrameReject>,
    mime: Seq<char>,
    data: Seq<char>,
) -> UplinkStep {
    match verdict {
        Ok(_) => UplinkStep::SendFrame { mime, data },
        Err(FrameReject::TooFast) => UplinkStep::Nothing,
        Err(reason) => UplinkStep::Tell(ServerMessage::FrameRejected { reason }),
    }
}

/// What is to be done for what the client wants.
pub open spec fn uplink_step(gate: GateState, input: ClientInput, now: Moment) -> UplinkStep {
    match input {
        ClientInput::Audio(base64) => UplinkStep::SendAudio(base64),
        ClientInput::Text(content) => UplinkStep::SendText(content),
        ClientInput::CommitAudio => UplinkStep::CommitAudio,
        ClientInput::CreateResponse => UplinkStep::CreateResponse,
        ClientInput::Interrupt => UplinkStep::Interrupt,
        ClientInput::Frame { mime, data } => frame_step(
            gate.verdict(Attempt { mime, data, now }),
            mime,
            data,
        ),
        ClientInput::Nothing => UplinkStep::Nothing,
        ClientInput::Closed => UplinkStep::Stop,
    }
}

/// What the frame gate knows afterwards: it is asked about frames only.
pub open spec fn gate_after(gate: GateState, input: ClientInput, now: Moment) -> GateState {
    match input {
        ClientInput::Frame { mime, data } => gate.after(Attempt { mime, data, now }),
        _ => gate,
    }
}

/// What the look tick goes by afterwards: audio is noted, and leaving ends the session.
pub open spec fn look_after(look: LookState, input: ClientInput, now: Moment) -> LookState {
    match input {
        ClientInput::Audio(_) => look.after_audio(now),
        ClientInput::Closed => look.after_close(),
        _ => look,
    }
}

/// Decides what is done for what the client wants at `now`.
pub fn on_client_event(
    gate: &mut FrameGate,
    look: &mut LookState,
    event: ClientEvent,
    now: Moment,
) -> (r: UplinkAction)
    requires
        gate_after(old(gate)@, event@, now).accepted <= u64::MAX,
        gate_after(old(gate)@, event@, now).rejected <= u64::MAX,
    ensures
        r@ == uplink_step(old(gate)@, event@, now),
        final(gate)@ == gate_after(old(gate)@, event@, now),
        *final(look) == look_after(*old(look), event@, now),
{
    match event {
        ClientEvent::Audio { base64 } => {
            look.audio_heard(now);
            UplinkAction::SendAudio { base64 }
        },
        ClientEvent::Text { content } => UplinkAction::SendText { content },
        ClientEvent::CommitAudio => UplinkAction::CommitAudio,
        ClientEvent::CreateResponse => UplinkAction::CreateResponse,
        ClientEvent::Interrupt => UplinkAction::Interrupt,
        ClientEvent::Frame { mime, data } => match gate.check(mime.as_str(), data.as_str(), now) {
            Ok(()) => UplinkAction::SendFrame { mime, data },
            Err(FrameReject::TooFast) => UplinkAction::Nothing,
            Err(reason) => UplinkAction::Tell { message: ServerMessage::FrameRejected { reason } },
        },
        ClientEvent::Nothing => UplinkAction::Nothing,
        ClientEvent::Closed => {
            look.close();
            UplinkAction::Stop
        },
    }
}

/// What was to be sent, as far as it matters whether it could be.
#[derive(Clone, Copy, Debug, PartialEq, Eq, Structural)]
pub enum Delivery {
    Audio,
    Text,
    Frame,
    Other,
}

impl UplinkStep {
    /// What an action sends.
    pub open spec fn delivery(self) -> Delivery {
        match self {
            UplinkStep::SendAudio(_) => Delivery::Audio,
            UplinkStep::SendText(_) => Delivery::Text,
            UplinkStep::SendFrame { .. } => Delivery::Frame,
            _ => Delivery::Other,
        }
    }
}

impl UplinkAction {
    /// What the action sends.
    pub fn delivery(&self) -> (r: Delivery)
        ensures
            r == self@.delivery(),
    {
        match self {
            UplinkAction::SendAudio { .. } => Delivery::Audio,
            UplinkAction::SendText { .. } => Delivery::Text,
            UplinkAction::SendFrame { .. } => Delivery::Frame,
            _ => Delivery::Other,
        }
    }
}

/// Whether the client is read on: only audio and frames must go out.
pub open spec fn reads_on(delivery: Delivery, sent: bool) -> bool {
    sent || delivery == Delivery::Text || delivery == Delivery::Other
}

/// What the look tick goes by once something was sent, or was not: a frame that went out is
/// pending, and a session that cannot send audio or frames is over.
pub open spec fn look_after_delivery(look: LookState, delivery: Delivery, sent: bool) -> LookState {
    if !reads_on(delivery, sent) {
        look.after_close()
    } else if delivery == Delivery::Frame {
        look.after_frame()
    } else {
        look
    }
}

/// Takes note of whether something could be sent. The result says whether to read on: it is no where
/// audio or a frame could not be sent.
pub fn on_delivery(look: &mut LookState, delivery: Delivery, sent: bool) -> (r: bool)
    ensures
        r == reads_on(delivery, sent),
        *final(look) == look_after_delivery(*old(look), delivery, sent),
{
    match delivery {
        Delivery::Text | Delivery::Other => true,
        Delivery::Audio => {
            if !sent {
                look.close();
            }
            sent
        },
        Delivery::Frame => {
            if sent {
                look.frame_sent();
            } else {
                look.close();
            }
            sent
        },
    }
}

/// What is to be done next, once something was sent or could not be: a text is followed by a request
/// for a response either way, and nothing else is followed by anything.
pub open spec fn follow_up_step(delivery: Delivery, sent: bool) -> UplinkStep {
    if delivery == Delivery::Text {
        UplinkStep::CreateResponse
    } else {
        UplinkStep::Nothing
    }
}

/// Decides what is to be done next, once something was `sent` or could not be.
pub fn follow_up(delivery: Delivery, sent: bool) -> (r: UplinkAction)
    ensures
        r@ == follow_up_step(delivery, sent),
{
    match delivery {
        Delivery::Text => UplinkAction::CreateResponse,
        _ => UplinkAction::Nothing,
    }
}

/// Every text of the client is sent and then followed by a request for a response, even where the
/// text could not be sent. Whether either could be sent changes nothing: the client is read on and
/// the look tick goes by what it went by.
pub proof fn a_response_is_asked_for_after_every_text(
    gate: GateState,
    look: LookState,
    content: Seq<char>,
    now: Moment,
    sent: bool,
    asked: bool,
)
    ensures
        uplink_step(gate, ClientInput::Text(content), now) == UplinkStep::SendText(content),
        follow_up_step(UplinkStep::SendText(content).delivery(), sent)
            == UplinkStep::CreateResponse,
        follow_up_step(UplinkStep::CreateResponse.delivery(), asked) == UplinkStep::Nothing,
        reads_on(UplinkStep::SendText(content).delivery(), sent),
        reads_on(UplinkStep::CreateResponse.delivery(), asked),
        look_after_delivery(look, UplinkStep::SendText(content).delivery(), sent) == look,
        look_after_delivery(look, UplinkStep::CreateResponse.delivery(), asked) == look,
{
}

/// A session ends over a failure exactly where audio or a frame could not be sent. Every other
/// failure changes nothing.
pub proof fn only_lost_audio_and_frames_end_a_session(look: LookState, step: UplinkStep)
    ensures
        reads_on(step.delivery(), false) <==> step !is SendAudio && step !is SendFrame,
        look_after_delivery(look, step.delivery(), false) == (if step is SendAudio
            || step is SendFrame {
            look.after_close()
        } else {
            look
        }),
{
}

/// A message of the form `{"type": "frame", "mime": .., "data": ..}` is read as that frame.
pub proof fn a_frame_message_is_read_as_its_frame(tree: JsonTree, mime: Seq<char>, data: Seq<char>)
    requires
        tree.text_member("type"@) == Some("frame"@),
        tree.text_member("mime"@) == Some(mime),
        tree.text_member("data"@) == Some(data),
    ensures
        request(tree) == (ClientInput::Frame { mime, data }),
{
    reveal_strlit("text");
    reveal_strlit("commit_audio");
    reveal_strlit("create_response");
    reveal_strlit("interrupt");
    reveal_strlit("frame");
    assert("frame"@.len() == 5);
}

/// A frame reaches the model exactly where the frame gate lets it through, and then as it came.
pub proof fn frames_are_forwarded_unchanged(
    gate: GateState,
    mime: Seq<char>,
    data: Seq<char>,
    now: Moment,
)
    ensures
        ({
            let step = uplink_step(gate, ClientInput::Frame { mime, data }, now);
            &&& step is SendFrame <==> gate.verdict(Attempt { mime, data, now }) is Ok
            &&& step is SendFrame ==> step == (UplinkStep::SendFrame { mime, data })
        }),
{
}

/// A client whose frame is turned away is told the reason, unless the frame merely came too fast.
pub proof fn rejections_are_answered_unless_too_fast(
    gate: GateState,
    mime: Seq<char>,
    data: Seq<char>,
    now: Moment,
)
    ensures
        gate.verdict(Attempt { mime, data, now }) matches Err(reason) ==> uplink_step(
            gate,
            ClientInput::Frame { mime, data },
            now,
        ) == (if reason == FrameReject::TooFast {
            UplinkStep::Nothing
        } else {
            UplinkStep::Tell(ServerMessage::FrameRejected { reason })
        }),
{
}

/// The answer to a frame that is turned away says nothing of it but the reason.
pub proof fn rejections_reveal_only_the_reason(
    gate: GateState,
    mime: Seq<char>,
    data: Seq<char>,
    other_mime: Seq<char>,
    other_data: Seq<char>,
    now: Moment,
)
    requires
        gate.verdict(Attempt { mime, data, now }) is Err,
        gate.verdict(Attempt { mime, data, now }) == gate.verdict(
            Attempt { mime: other_mime, data: other_data, now },
        ),
    ensures
        uplink_step(gate, ClientInput::Frame { mime, data }, now) == uplink_step(
            gate,
            ClientInput::Frame { mime: other_mime, data: other_data },
            now,
        ),
{
}

/// Nothing of a frame outlives its turn: it leaves the look tick as it was, and the frame gate as any
/// other frame at that moment would that is let through, or turned away, like it.
pub proof fn nothing_of_a_frame_outlives_its_turn(
    gate: GateState,
    look: LookState,
    one: Attempt,
    other: Attempt,
)
    requires
        one.now == other.now,
        gate.verdict(one) is Ok <==> gate.verdict(other) is Ok,
    ensures
        gate_after(gate, ClientInput::Frame { mime: one.mime, data: one.data }, one.now)
            == gate_after(gate, ClientInput::Frame { mime: other.mime, data: other.data }, one.now),
        look_after(look, ClientInput::Frame { mime: one.mime, data: one.data }, one.now) == look,
{
}

/// Where the camera is off, no frame is sent to the model, whatever the client wants, and the camera
/// stays off.
pub proof fn camera_off_sends_no_frame(gate: GateState, input: ClientInput, now: Moment)
    requires
        !gate.enabled,
    ensures
        uplink_step(gate, input, now) !is SendFrame,
        !gate_after(gate, input, now).enabled,
{
}

} // verus!
