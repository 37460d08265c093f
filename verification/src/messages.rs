//! The text messages that a client of the voice websocket receives.

use vstd::prelude::*;

use crate::frame_gate::FrameReject;
use crate::json::{
    json_bool, json_insert, json_no_members, json_null, json_object, json_parse, json_string,
    json_text, json_to_string, json_tree, JsonTree,
};

verus! {

/// A text message for the client.
#[derive(Debug)]
pub enum ServerMessage {
    Error { message: String },
    Connected { session_id: String, runner_session_id: Option<String>, camera: bool },
    TextDelta { content: String },
    Transcript { content: String },
    SpeechStarted,
    SpeechStopped,
    ResponseDone,
    ToolCall { name: String, arguments: String },
    FrameRejected { reason: FrameReject },
}

/// A string, or null where there is none.
pub open spec fn optional_text(text: Option<String>) -> JsonTree {
    match text {
        Some(chars) => JsonTree::Text(chars@),
        None => JsonTree::Null,
    }
}

impl ServerMessage {
    /// The `type` by which the client tells the messages apart.
    pub open spec fn kind(self) -> Seq<char> {
        match self {
            ServerMessage::Error { .. } => "error"@,
            ServerMessage::Connected { .. } => "connected"@,
            ServerMessage::TextDelta { .. } => "text_delta"@,
            ServerMessage::Transcript { .. } => "transcript"@,
            ServerMessage::SpeechStarted => "speech_started"@,
            ServerMessage::SpeechStopped => "speech_stopped"@,
            ServerMessage::ResponseDone => "response_done"@,
            ServerMessage::ToolCall { .. } => "tool_call"@,
            ServerMessage::FrameRejected { .. } => "frame_rejected"@,
        }
    }

    /// The members of the JSON object that the message is sent as.
    pub open spec fn members(self) -> Map<Seq<char>, JsonTree> {
        let base = map!["type"@ => JsonTree::Text(self.kind())];
        match self {
            ServerMessage::Error { message } => base.insert(
                "message"@,
                JsonTree::Text(message@),
            ),
            ServerMessage::Connected { session_id, runner_session_id, camera } => base.insert(
                "session_id"@,
                JsonTree::Text(session_id@),
            ).insert("runner_session_id"@, optional_text(runner_session_id)).insert(
                "camera"@,
                JsonTree::Bool(camera),
            ),
            ServerMessage::TextDelta { content } => base.insert(
                "content"@,
                JsonTree::Text(content@),
            ),
            ServerMessage::Transcript { content } => base.insert(
                "content"@,
                JsonTree::Text(content@),
            ),
            ServerMessage::ToolCall { name, arguments } => base.insert(
                "name"@,
                JsonTree::Text(name@),
            ).insert("arguments"@, JsonTree::Text(arguments@)),
            ServerMessage::FrameRejected { reason } => base.insert(
                "reason"@,
                JsonTree::Text(reason.name()),
            ),
            _ => base,
        }
    }

    /// The JSON object that the message is sent as.
    pub open spec fn tree(self) -> JsonTree {
        JsonTree::Object(self.members())
    }

    fn kind_str(&self) -> (r: &'static str)
        ensures
            r@ == self.kind(),
    {
        match self {
            ServerMessage::Error { .. } => "error",
            ServerMessage::Connected { .. } => "connected",
            ServerMessage::TextDelta { .. } => "text_delta",
            ServerMessage::Transcript { .. } => "transcript",
            ServerMessage::SpeechStarted => "speech_started",
            ServerMessage::SpeechStopped => "speech_stopped",
            ServerMessage::ResponseDone => "response_done",
            ServerMessage::ToolCall { .. } => "tool_call",
            ServerMessage::FrameRejected { .. } => "frame_rejected",
        }
    }

    /// The JSON object that the message is sent as.
    pub fn to_value(&self) -> (r: serde_json::Value)
        ensures
            json_tree(r) == self.tree(),
    {
        let mut object = json_no_members();
        json_insert(&mut object, "type", json_string(self.kind_str()));
        match self {
            ServerMessage::Error { message } => {
                json_insert(&mut object, "message", json_string(message.as_str()));
            },
            ServerMessage::Connected { session_id, runner_session_id, camera } => {
                json_insert(&mut object, "session_id", json_string(session_id.as_str()));
                let runner = match runner_session_id {
                    Some(id) => json_string(id.as_str()),
                    None => json_null(),
                };
                json_insert(&mut object, "runner_session_id", runner);
                json_insert(&mut object, "camera", json_bool(*camera));
            },
            ServerMessage::TextDelta { content } => {
                json_insert(&mut object, "content", json_string(content.as_str()));
            },
            ServerMessage::Transcript { content } => {
                json_insert(&mut object, "content", json_string(content.as_str()));
            },
            ServerMessage::ToolCall { name, arguments } => {
                json_insert(&mut object, "name", json_string(name.as_str()));
                json_insert(&mut object, "arguments", json_string(arguments.as_str()));
            },
            ServerMessage::FrameRejected { reason } => {
                json_insert(&mut object, "reason", json_string(reason.as_str()));
            },
            _ => {},
        }
        json_object(object)
    }

    /// The text of the message. Parsing it gives back the object that was written.
    pub fn to_text(&self) -> (r: String)
        ensures
            r@ == json_text(self.tree()),
            json_parse(r@) == Some(self.tree()),
    {
        proof {
            lemma_messages_are_flat(*self);
        }
        json_to_string(&self.to_value())
    }
}

/// The keys of a message are shorter than the reserved ones, and its members are plain.
proof fn lemma_messages_are_flat(message: ServerMessage)
    ensures
        message.tree().is_flat(),
{
    reveal_strlit("$serde_json::private::RawValue");
    reveal_strlit("$serde_json::private::Number");
    reveal_strlit("type");
    reveal_strlit("message");
    reveal_strlit("session_id");
    reveal_strlit("runner_session_id");
    reveal_strlit("camera");
    reveal_strlit("content");
    reveal_strlit("name");
    reveal_strlit("arguments");
    reveal_strlit("reason");
    assert forall|key: Seq<char>| #[trigger] message.members().contains_key(key) implies key.len()
        <= 17 && message.members()[key].is_plain() by {}
}

/// Every message carries its kind as the member `type`.
pub proof fn every_message_carries_its_type(message: ServerMessage)
    ensures
        message.tree().text_member("type"@) == Some(message.kind()),
{
    reveal_strlit("type");
    reveal_strlit("message");
    reveal_strlit("session_id");
    reveal_strlit("runner_session_id");
    reveal_strlit("camera");
    reveal_strlit("content");
    reveal_strlit("name");
    reveal_strlit("arguments");
    reveal_strlit("reason");
    assert("type"@[0] != "name"@[0]);
    assert("type"@.len() == 4);
}

/// The kind tells the messages apart.
pub proof fn kinds_tell_messages_apart(a: ServerMessage, b: ServerMessage)
    requires
        a.kind() == b.kind(),
    ensures
        a is Error <==> b is Error,
        a is Connected <==> b is Connected,
        a is TextDelta <==> b is TextDelta,
        a is Transcript <==> b is Transcript,
        a is SpeechStarted <==> b is SpeechStarted,
        a is SpeechStopped <==> b is SpeechStopped,
        a is ResponseDone <==> b is ResponseDone,
        a is ToolCall <==> b is ToolCall,
        a is FrameRejected <==> b is FrameRejected,
{
    reveal_strlit("error");
    reveal_strlit("connected");
    reveal_strlit("text_delta");
    reveal_strlit("transcript");
    reveal_strlit("speech_started");
    reveal_strlit("speech_stopped");
    reveal_strlit("response_done");
    reveal_strlit("tool_call");
    reveal_strlit("frame_rejected");
    assert("error"@.len() == 5);
    assert("connected"@.len() == 9 && "connected"@[0] == 'c');
    assert("tool_call"@.len() == 9 && "tool_call"@[0] == 't');
    assert("text_delta"@.len() == 10 && "text_delta"@[1] == 'e');
    assert("transcript"@.len() == 10 && "transcript"@[1] == 'r');
    assert("response_done"@.len() == 13);
    assert("speech_started"@.len() == 14 && "speech_started"@[9] == 'a');
    assert("speech_stopped"@.len() == 14 && "speech_stopped"@[9] == 'o');
    assert("frame_rejected"@.len() == 14 && "frame_rejected"@[9] == 'e');
}

} // verus!
