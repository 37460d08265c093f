//! From the model to the client: what the model does and what the client hears of it.

use vstd::prelude::*;

use crate::look::LookState;
use crate::messages::ServerMessage;

verus! {

/// What the realtime model does.
#[derive(Debug)]
pub enum ModelEvent {
    AudioDelta { bytes: Vec<u8> },
    TextDelta { delta: String },
    TranscriptDelta { delta: String },
    SpeechStarted,
    SpeechStopped,
    ResponseDone,
    FunctionCallDone { name: String, arguments: String },
    Error { message: String },
    /// Something that is of no concern to the client.
    Other,
    /// The stream of events broke off or came to its end.
    Ended,
}

/// What the client is sent.
#[derive(Debug)]
pub enum DownlinkAction {
    /// A binary frame of audio.
    SendAudio { bytes: Vec<u8> },
    /// A text message.
    Tell { message: ServerMessage },
    Nothing,
    /// Take no further events.
    Stop,
}

/// What the client is sent for what the model does.
pub open spec fn relayed(event: ModelEvent) -> DownlinkAction {
    match event {
        ModelEvent::AudioDelta { bytes } => DownlinkAction::SendAudio { bytes },
        ModelEvent::TextDelta { delta } => DownlinkAction::Tell {
            message: ServerMessage::TextDelta { content: delta },
        },
        ModelEvent::TranscriptDelta { delta } => DownlinkAction::Tell {
            message: ServerMessage::Transcript { content: delta },
        },
        ModelEvent::SpeechStarted => DownlinkAction::Tell { message: ServerMessage::SpeechStarted },
        ModelEvent::SpeechStopped => DownlinkAction::Tell { message: ServerMessage::SpeechStopped },
        ModelEvent::ResponseDone => DownlinkAction::Tell { message: ServerMessage::ResponseDone },
        ModelEvent::FunctionCallDone { name, arguments } => DownlinkAction::Tell {
            message: ServerMessage::ToolCall { name, arguments },
        },
        ModelEvent::Error { message } => DownlinkAction::Tell {
            message: ServerMessage::Error { message },
        },
        ModelEvent::Other => DownlinkAction::Nothing,
        ModelEvent::Ended => DownlinkAction::Stop,
    }
}

/// What the look tick goes by afterwards: the model responds from its first audio or text until it
/// is done or fails, and a session without events is over.
pub open spec fn look_after_model(look: LookState, event: ModelEvent) -> LookState {
    match event {
        ModelEvent::AudioDelta { .. } | ModelEvent::TextDelta { .. } => look.after_response(true),
        ModelEvent::ResponseDone | ModelEvent::Error { .. } => look.after_response(false),
        ModelEvent::Ended => look.after_close(),
        _ => look,
    }
}

/// Decides what the client is sent for what the model does.
pub fn on_model_event(look: &mut LookState, event: ModelEvent) -> (r: DownlinkAction)
    ensures
        r == relayed(event),
        *final(look) == look_after_model(*old(look), event),
{
    match event {
        ModelEvent::AudioDelta { bytes } => {
            look.set_responding(true);
            DownlinkAction::SendAudio { bytes }
        },
        ModelEvent::TextDelta { delta } => {
            look.set_responding(true);
            DownlinkAction::Tell { message: ServerMessage::TextDelta { content: delta } }
        },
        ModelEvent::TranscriptDelta { delta } => DownlinkAction::Tell {
            message: ServerMessage::Transcript { content: delta },
        },
        ModelEvent::SpeechStarted => DownlinkAction::Tell { message: ServerMessage::SpeechStarted },
        ModelEvent::SpeechStopped => DownlinkAction::Tell { message: ServerMessage::SpeechStopped },
        ModelEvent::ResponseDone => {
            look.set_responding(false);
            DownlinkAction::Tell { message: ServerMessage::ResponseDone }
        },
        ModelEvent::FunctionCallDone { name, arguments } => DownlinkAction::Tell {
            message: ServerMessage::ToolCall { name, arguments },
        },
        ModelEvent::Error { message } => {
            look.set_responding(false);
            DownlinkAction::Tell { message: ServerMessage::Error { message } }
        },
        ModelEvent::Other => DownlinkAction::Nothing,
        ModelEvent::Ended => {
            look.close();
            DownlinkAction::Stop
        },
    }
}

/// Takes note of whether what the client is sent could be handed on. The result says whether to take
/// further events: where nothing reaches the client any more, the session is over.
pub fn on_relay(look: &mut LookState, sent: bool) -> (r: bool)
    ensures
        r == sent,
        *final(look) == (if sent {
            *old(look)
        } else {
            old(look).after_close()
        }),
{
    if !sent {
        look.close();
    }
    sent
}

/// What the look tick goes by after all of `events`, one after the other.
pub open spec fn look_after_models(look: LookState, events: Seq<ModelEvent>) -> LookState
    decreases events.len(),
{
    if events.len() == 0 {
        look
    } else {
        look_after_model(look_after_models(look, events.drop_last()), events.last())
    }
}

/// A model that responds goes on responding until it is done or fails.
pub proof fn a_response_lasts_until_it_is_done(look: LookState, events: Seq<ModelEvent>)
    requires
        look.responding,
        forall|i: int|
            0 <= i < events.len() ==> #[trigger] events[i] !is ResponseDone && events[i] !is Error,
    ensures
        look_after_models(look, events).responding,
    decreases events.len(),
{
    if events.len() > 0 {
        a_response_lasts_until_it_is_done(look, events.drop_last());
        assert(events.last() == events[events.len() - 1]);
    }
}

/// A model that does not respond begins to only with audio or text.
pub proof fn a_response_begins_with_audio_or_text(look: LookState, events: Seq<ModelEvent>)
    requires
        !look.responding,
        forall|i: int|
            0 <= i < events.len() ==> #[trigger] events[i] !is AudioDelta && events[i] !is TextDelta,
    ensures
        !look_after_models(look, events).responding,
    decreases events.len(),
{
    if events.len() > 0 {
        a_response_begins_with_audio_or_text(look, events.drop_last());
        assert(events.last() == events[events.len() - 1]);
    }
}

} // verus!
