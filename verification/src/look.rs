//! The look tick: when the model is asked to check the latest frames.
//!
//! The model evaluates its input only when a turn ends. While frames arrive and nobody is
//! speaking, a tick every `LOOK_INTERVAL` sends it `LOOK_PROMPT`.

use vstd::prelude::*;

use crate::moment::Moment;
use crate::prompt::SPEECH_GRACE;

verus! {

/// What the look tick goes by, over one session.
#[derive(Clone, Copy, Debug)]
pub struct LookState {
    /// Whether the session has a camera channel.
    pub camera: bool,
    /// Frames that the model was sent since it was last asked to look.
    pub frames_pending: u32,
    /// When microphone audio last arrived.
    pub last_audio: Option<Moment>,
    /// Whether the model is in the middle of a response.
    pub responding: bool,
    /// Whether the session is over.
    pub closed: bool,
}

/// What a tick asks for.
#[derive(Clone, Copy, Debug, PartialEq, Eq, Structural)]
pub enum LookAction {
    /// End the ticks.
    Stop,
    /// Do nothing until the next tick.
    Wait,
    /// Send `LOOK_PROMPT`. `on_prompt_sent` says what comes next.
    Look,
    /// Ask the model for a response. `on_response_asked` says what comes next.
    Respond,
}

impl LookState {
    /// Whether the user spoke so shortly before `now` that their own turn will cover the frames.
    pub open spec fn is_talking(self, now: Moment) -> bool {
        self.last_audio matches Some(heard) && now.is_within(heard, SPEECH_GRACE)
    }

    /// What a tick at `now` asks for.
    pub open spec fn decision(self, now: Moment) -> LookAction {
        if !self.camera || self.closed {
            LookAction::Stop
        } else if self.frames_pending == 0 || self.responding || self.is_talking(now) {
            LookAction::Wait
        } else {
            LookAction::Look
        }
    }

    pub open spec fn after_tick(self, now: Moment) -> LookState {
        if self.decision(now) == LookAction::Look {
            LookState { frames_pending: 0, ..self }
        } else {
            self
        }
    }

    pub open spec fn after_frame(self) -> LookState {
        let frames_pending = if self.frames_pending == u32::MAX {
            0
        } else {
            (self.frames_pending + 1) as u32
        };
        LookState { frames_pending, ..self }
    }

    pub open spec fn after_audio(self, now: Moment) -> LookState {
        LookState { last_audio: Some(now), ..self }
    }

    pub open spec fn after_response(self, responding: bool) -> LookState {
        LookState { responding, ..self }
    }

    pub open spec fn after_close(self) -> LookState {
        LookState { closed: true, ..self }
    }

    /// A session that has just begun.
    pub fn new(camera: bool) -> (r: Self)
        ensures
            r == (LookState {
                camera,
                frames_pending: 0,
                last_audio: None,
                responding: false,
                closed: false,
            }),
    {
        LookState { camera, frames_pending: 0, last_audio: None, responding: false, closed: false }
    }

    /// A tick at `now`. Where it asks for a look, the frames so far no longer count as pending.
    pub fn tick(&mut self, now: Moment) -> (r: LookAction)
        ensures
            r == old(self).decision(now),
            *final(self) == old(self).after_tick(now),
    {
        if !self.camera || self.closed {
            return LookAction::Stop;
        }
        if self.frames_pending == 0 || self.responding {
            return LookAction::Wait;
        }
        if let Some(heard) = self.last_audio {
            if now.within(heard, SPEECH_GRACE) {
                return LookAction::Wait;
            }
        }
        self.frames_pending = 0;
        LookAction::Look
    }

    /// The model was sent a frame. The count wraps around.
    pub fn frame_sent(&mut self)
        ensures
            *final(self) == old(self).after_frame(),
    {
        self.frames_pending = self.frames_pending.wrapping_add(1);
    }

    /// Microphone audio arrived at `now`.
    pub fn audio_heard(&mut self, now: Moment)
        ensures
            *final(self) == old(self).after_audio(now),
    {
        self.last_audio = Some(now);
    }

    /// The model began a response, or ended one.
    pub fn set_responding(&mut self, responding: bool)
        ensures
            *final(self) == old(self).after_response(responding),
    {
        self.responding = responding;
    }

    /// The session is over.
    pub fn close(&mut self)
        ensures
            *final(self) == old(self).after_close(),
    {
        self.closed = true;
    }
}

/// What follows once `LOOK_PROMPT` was sent to the model, or could not be: a response is asked for, or
/// the ticks end.
pub fn on_prompt_sent(sent: bool) -> (r: LookAction)
    ensures
        r == (if sent {
            LookAction::Respond
        } else {
            LookAction::Stop
        }),
{
    if sent {
        LookAction::Respond
    } else {
        LookAction::Stop
    }
}

/// What follows once a response was `asked` for, or could not be: the next tick is awaited.
pub fn on_response_asked(asked: bool) -> (r: LookAction)
    ensures
        r == LookAction::Wait,
{
    LookAction::Wait
}

/// Something that the look tick takes note of.
pub enum LookEvent {
    Tick(Moment),
    Frame,
    Audio(Moment),
    Responding(bool),
    Close,
}

impl LookState {
    pub open spec fn after(self, event: LookEvent) -> LookState {
        match event {
            LookEvent::Tick(now) => self.after_tick(now),
            LookEvent::Frame => self.after_frame(),
            LookEvent::Audio(now) => self.after_audio(now),
            LookEvent::Responding(responding) => self.after_response(responding),
            LookEvent::Close => self.after_close(),
        }
    }

    pub open spec fn after_all(self, events: Seq<LookEvent>) -> LookState
        decreases events.len(),
    {
        if events.len() == 0 {
            self
        } else {
            self.after(events.first()).after_all(events.drop_first())
        }
    }

    /// How many of `events` made the model look.
    pub open spec fn looks(self, events: Seq<LookEvent>) -> int
        decreases events.len(),
    {
        if events.len() == 0 {
            0
        } else {
            let here: int = match events.first() {
                LookEvent::Tick(now) => if self.decision(now) == LookAction::Look {
                    1
                } else {
                    0
                },
                _ => 0,
            };
            here + self.after(events.first()).looks(events.drop_first())
        }
    }
}

/// How many of `events` are frames.
pub open spec fn frames_in(events: Seq<LookEvent>) -> int
    decreases events.len(),
{
    if events.len() == 0 {
        0
    } else if events.first() is Frame {
        1 + frames_in(events.drop_first())
    } else {
        frames_in(events.drop_first())
    }
}

/// The model is never asked to look twice at the same frames: over any course of a session there
/// are no more looks than frames, and one more only where frames were pending at its beginning.
pub proof fn no_look_without_a_new_frame(look: LookState, events: Seq<LookEvent>)
    ensures
        look.looks(events) <= frames_in(events) + (if look.frames_pending > 0 {
            1int
        } else {
            0
        }),
    decreases events.len(),
{
    if events.len() > 0 {
        no_look_without_a_new_frame(look.after(events.first()), events.drop_first());
    }
}

/// Once a session is over it stays over, and the model is not asked to look again.
pub proof fn no_look_after_close(look: LookState, events: Seq<LookEvent>)
    requires
        look.closed,
    ensures
        look.looks(events) == 0,
        look.after_all(events).closed,
    decreases events.len(),
{
    if events.len() > 0 {
        no_look_after_close(look.after(events.first()), events.drop_first());
    }
}

/// A session without a camera channel never asks the model to look.
pub proof fn no_look_without_a_camera(look: LookState, events: Seq<LookEvent>)
    requires
        !look.camera,
    ensures
        look.looks(events) == 0,
        !look.after_all(events).camera,
    decreases events.len(),
{
    if events.len() > 0 {
        no_look_without_a_camera(look.after(events.first()), events.drop_first());
    }
}

/// The model is not asked to look while it responds, nor within `SPEECH_GRACE` of the user's voice.
pub proof fn no_look_during_a_turn(look: LookState, now: Moment)
    requires
        look.responding || look.is_talking(now),
    ensures
        look.decision(now) != LookAction::Look,
        look.after_tick(now) == look,
{
}

/// While frames flow and nobody speaks, the model is asked to look.
pub proof fn frames_are_looked_at_in_silence(look: LookState, now: Moment)
    requires
        look.camera,
        !look.closed,
        !look.responding,
        look.frames_pending < u32::MAX,
        !look.is_talking(now),
    ensures
        look.after_frame().decision(now) == LookAction::Look,
{
}

} // verus!
