//! Admission control for camera frames.

use vstd::prelude::*;
use vstd::utf8::encode_utf8;

use crate::moment::{Moment, NANOS_PER_MILLI};
use crate::text::{same_text, starts_with};

verus! {

pub const ALLOWED_MIMES: [&'static str; 3] = ["image/jpeg", "image/webp", "image/png"];

/// Cap on the base64 payload: a 320-px JPEG at 60 % quality is about 15 to 40 KB.
pub const MAX_FRAME_BASE64_BYTES: usize = 256 * 1024;

/// Milliseconds between two frames that reach the model: at most 2.5 frames per second.
pub const MIN_FRAME_INTERVAL: u64 = 400;

/// Why a frame was turned away.
#[derive(Clone, Copy, Debug, PartialEq, Eq, Structural)]
pub enum FrameReject {
    CameraOff,
    Mime,
    Empty,
    TooLarge,
    TooFast,
}

impl FrameReject {
    /// The name under which the client is told the reason.
    pub open spec fn name(self) -> Seq<char> {
        match self {
            FrameReject::CameraOff => "camera_off"@,
            FrameReject::Mime => "unsupported_mime"@,
            FrameReject::Empty => "empty"@,
            FrameReject::TooLarge => "too_large"@,
            FrameReject::TooFast => "too_fast"@,
        }
    }

    pub fn as_str(&self) -> (r: &'static str)
        ensures
            r@ == self.name(),
    {
        match self {
            FrameReject::CameraOff => "camera_off",
            FrameReject::Mime => "unsupported_mime",
            FrameReject::Empty => "empty",
            FrameReject::TooLarge => "too_large",
            FrameReject::TooFast => "too_fast",
        }
    }
}

/// One of `ALLOWED_MIMES`.
pub open spec fn is_allowed_mime(mime: Seq<char>) -> bool {
    exists|i: int| 0 <= i < ALLOWED_MIMES@.len() && #[trigger] ALLOWED_MIMES@[i]@ == mime
}

/// A payload that is a data URL and not bare base64.
pub open spec fn is_data_url(data: Seq<char>) -> bool {
    "data:"@.is_prefix_of(data)
}

/// What a gate knows: whether the camera is on, when it last let a frame through, and how many
/// frames it let through and turned away.
pub struct GateState {
    pub enabled: bool,
    pub last: Option<Moment>,
    pub accepted: int,
    pub rejected: int,
}

/// A frame that asks to be let through.
pub struct Attempt {
    pub mime: Seq<char>,
    pub data: Seq<char>,
    pub now: Moment,
}

impl GateState {
    /// The answer to a frame: the first reason that applies, in this order, or `Ok`.
    pub open spec fn verdict(self, frame: Attempt) -> Result<(), FrameReject> {
        if !self.enabled {
            Err(FrameReject::CameraOff)
        } else if !is_allowed_mime(frame.mime) || is_data_url(frame.data) {
            Err(FrameReject::Mime)
        } else if frame.data.len() == 0 {
            Err(FrameReject::Empty)
        } else if encode_utf8(frame.data).len() > MAX_FRAME_BASE64_BYTES {
            Err(FrameReject::TooLarge)
        } else if self.last is Some && frame.now.is_within(self.last->0, MIN_FRAME_INTERVAL) {
            Err(FrameReject::TooFast)
        } else {
            Ok(())
        }
    }

    /// What the frame gate knows once it has answered a frame.
    pub open spec fn after(self, frame: Attempt) -> GateState {
        match self.verdict(frame) {
            Ok(_) => GateState { last: Some(frame.now), accepted: self.accepted + 1, ..self },
            Err(_) => GateState { rejected: self.rejected + 1, ..self },
        }
    }

    /// What the frame gate knows once it has answered `frames`, one after the other.
    pub open spec fn after_all(self, frames: Seq<Attempt>) -> GateState
        decreases frames.len(),
    {
        if frames.len() == 0 {
            self
        } else {
            self.after(frames.first()).after_all(frames.drop_first())
        }
    }

    /// When the frames were let through, of `frames` answered one after the other.
    pub open spec fn admissions(self, frames: Seq<Attempt>) -> Seq<Moment>
        decreases frames.len(),
    {
        if frames.len() == 0 {
            seq![]
        } else {
            let rest = self.after(frames.first()).admissions(frames.drop_first());
            if self.verdict(frames.first()) is Ok {
                seq![frames.first().now] + rest
            } else {
                rest
            }
        }
    }
}

/// Admission control for the frames of one connection. The counts hold nothing of what the frames
/// show and are for logs only.
#[derive(Debug)]
pub struct FrameGate {
    pub enabled: bool,
    pub last: Option<Moment>,
    pub accepted: u64,
    pub rejected: u64,
}

impl View for FrameGate {
    type V = GateState;

    open spec fn view(&self) -> GateState {
        GateState {
            enabled: self.enabled,
            last: self.last,
            accepted: self.accepted as int,
            rejected: self.rejected as int,
        }
    }
}

impl FrameGate {
    pub fn new(enabled: bool) -> (r: Self)
        ensures
            r@ == (GateState { enabled, last: None, accepted: 0, rejected: 0 }),
    {
        Self { enabled, last: None, accepted: 0, rejected: 0 }
    }

    /// Answers a frame that arrives at `now`, and counts the answer.
    pub fn check(&mut self, mime: &str, data: &str, now: Moment) -> (r: Result<(), FrameReject>)
        requires
            old(self)@.after(Attempt { mime: mime@, data: data@, now }).accepted <= u64::MAX,
            old(self)@.after(Attempt { mime: mime@, data: data@, now }).rejected <= u64::MAX,
        ensures
            r == old(self)@.verdict(Attempt { mime: mime@, data: data@, now }),
            final(self)@ == old(self)@.after(Attempt { mime: mime@, data: data@, now }),
    {
        let verdict = self.verdict(mime, data, now);
        match verdict {
            Ok(()) => {
                self.last = Some(now);
                self.accepted = self.accepted + 1;
            },
            Err(_) => {
                self.rejected = self.rejected + 1;
            },
        }
        verdict
    }

    fn verdict(&self, mime: &str, data: &str, now: Moment) -> (r: Result<(), FrameReject>)
        ensures
            r == self@.verdict(Attempt { mime: mime@, data: data@, now }),
    {
        if !self.enabled {
            return Err(FrameReject::CameraOff);
        }
        if !mime_is_allowed(mime) || starts_with(data, "data:") {
            return Err(FrameReject::Mime);
        }
        if data.is_empty() {
            return Err(FrameReject::Empty);
        }
        if data.as_bytes().len() > MAX_FRAME_BASE64_BYTES {
            return Err(FrameReject::TooLarge);
        }
        if let Some(last) = self.last {
            if now.within(last, MIN_FRAME_INTERVAL) {
                return Err(FrameReject::TooFast);
            }
        }
        Ok(())
    }
}

fn mime_is_allowed(mime: &str) -> (r: bool)
    ensures
        r == is_allowed_mime(mime@),
{
    let mut i: usize = 0;
    while i < ALLOWED_MIMES.len()
        invariant
            i <= ALLOWED_MIMES@.len(),
            forall|j: int| 0 <= j < i ==> #[trigger] ALLOWED_MIMES@[j]@ != mime@,
        decreases ALLOWED_MIMES@.len() - i,
    {
        if same_text(ALLOWED_MIMES[i], mime) {
            return true;
        }
        i = i + 1;
    }
    false
}

/// Every frame is counted once: as accepted where it was let through, as rejected otherwise. The
/// camera stays on or off.
pub proof fn every_frame_is_counted_once(gate: GateState, frames: Seq<Attempt>)
    ensures
        gate.after_all(frames).accepted == gate.accepted + gate.admissions(frames).len(),
        gate.after_all(frames).rejected == gate.rejected + frames.len() - gate.admissions(
            frames,
        ).len(),
        gate.after_all(frames).enabled == gate.enabled,
    decreases frames.len(),
{
    if frames.len() > 0 {
        every_frame_is_counted_once(gate.after(frames.first()), frames.drop_first());
    }
}

/// A gate whose camera is off lets nothing through.
pub proof fn camera_off_admits_nothing(gate: GateState, frames: Seq<Attempt>)
    requires
        !gate.enabled,
    ensures
        gate.admissions(frames).len() == 0,
    decreases frames.len(),
{
    if frames.len() > 0 {
        camera_off_admits_nothing(gate.after(frames.first()), frames.drop_first());
    }
}

/// Every frame that is let through comes at least an interval after the one before it.
proof fn lemma_admissions_after_last(gate: GateState, frames: Seq<Attempt>, i: int)
    requires
        gate.last is Some,
        0 <= i < gate.admissions(frames).len(),
    ensures
        gate.last->0.nanos + (i + 1) * (MIN_FRAME_INTERVAL * NANOS_PER_MILLI)
            <= gate.admissions(frames)[i].nanos,
    decreases frames.len(),
{
    let step: int = MIN_FRAME_INTERVAL * NANOS_PER_MILLI;
    assert((i + 1) * step == i * step + step) by (nonlinear_arith);
    let rest = frames.drop_first();
    let next = gate.after(frames.first());
    if gate.verdict(frames.first()) is Ok {
        assert(gate.admissions(frames) == seq![frames.first().now] + next.admissions(rest));
        if i > 0 {
            lemma_admissions_after_last(next, rest, i - 1);
        }
    } else {
        lemma_admissions_after_last(next, rest, i);
    }
}

/// However frames arrive, those that are let through are spaced: from one to the `n`-th after it at
/// least `n` times `MIN_FRAME_INTERVAL` pass, so no more than 2.5 frames per second reach the
/// model.
pub proof fn admissions_are_spaced(gate: GateState, frames: Seq<Attempt>, i: int, j: int)
    requires
        0 <= i < j < gate.admissions(frames).len(),
    ensures
        gate.admissions(frames)[i].nanos + (j - i) * (MIN_FRAME_INTERVAL * NANOS_PER_MILLI)
            <= gate.admissions(frames)[j].nanos,
    decreases frames.len(),
{
    let rest = frames.drop_first();
    let next = gate.after(frames.first());
    if gate.verdict(frames.first()) is Ok {
        assert(gate.admissions(frames) == seq![frames.first().now] + next.admissions(rest));
        if i > 0 {
            admissions_are_spaced(next, rest, i - 1, j - 1);
        } else {
            lemma_admissions_after_last(next, rest, j - 1);
        }
    } else {
        admissions_are_spaced(next, rest, i, j);
    }
}

/// What is let through does not depend on the counts, and a difference in the rejections stays.
proof fn lemma_counts_do_not_matter(one: GateState, other: GateState, frames: Seq<Attempt>)
    requires
        one == (GateState { rejected: one.rejected, ..other }),
    ensures
        one.admissions(frames) == other.admissions(frames),
        one.after_all(frames) == (GateState {
            rejected: other.after_all(frames).rejected + one.rejected - other.rejected,
            ..other.after_all(frames)
        }),
    decreases frames.len(),
{
    if frames.len() > 0 {
        lemma_counts_do_not_matter(
            one.after(frames.first()),
            other.after(frames.first()),
            frames.drop_first(),
        );
    }
}

/// A frame that is turned away does not put off the ones that follow: they are let through as if
/// it had never come, and in the end it shows in the count of rejections alone.
pub proof fn rejections_put_nothing_off(gate: GateState, turned_away: Attempt, later: Seq<Attempt>)
    requires
        gate.verdict(turned_away) is Err,
    ensures
        gate.after(turned_away).last == gate.last,
        gate.after(turned_away).admissions(later) == gate.admissions(later),
        gate.after(turned_away).after_all(later) == (GateState {
            rejected: gate.after_all(later).rejected + 1,
            ..gate.after_all(later)
        }),
{
    lemma_counts_do_not_matter(gate.after(turned_away), gate, later);
}

/// Nothing of a frame is kept: two frames that arrive at the same moment and are both let through,
/// or both turned away, leave the same state behind.
pub proof fn nothing_of_a_frame_is_kept(gate: GateState, one: Attempt, other: Attempt)
    requires
        one.now == other.now,
        gate.verdict(one) is Ok <==> gate.verdict(other) is Ok,
    ensures
        gate.after(one) == gate.after(other),
{
}

/// A frame that asks for nothing wrong is let through whenever the camera is on and the interval
/// since the last one has passed.
pub proof fn a_proper_frame_gets_through(gate: GateState, frame: Attempt)
    requires
        gate.enabled,
        is_allowed_mime(frame.mime),
        !is_data_url(frame.data),
        0 < frame.data.len(),
        encode_utf8(frame.data).len() <= MAX_FRAME_BASE64_BYTES,
        gate.last matches Some(last) ==> last.nanos + MIN_FRAME_INTERVAL * NANOS_PER_MILLI
            <= frame.now.nanos,
    ensures
        gate.verdict(frame) is Ok,
{
}

} // verus!
