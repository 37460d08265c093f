//! The hand gestures that the model may report.

use vstd::prelude::*;

use crate::text::{
    ascii_lower, ascii_lowered, is_white_space, lemma_trimmed_of_padded, same_text,
    to_ascii_lowercase, trim, trimmed,
};

verus! {

/// Deliberate hand gestures that the model may report. What each one does is decided by the
/// client.
#[derive(Clone, Copy, Debug, PartialEq, Eq, Structural)]
pub enum Gesture {
    SwipeLeft,
    SwipeRight,
    OpenPalm,
    Wave,
    Pinch,
}

/// What a report is reduced to before it is compared with the names: no white space around it,
/// ASCII letters in lower case.
pub open spec fn normalized(s: Seq<char>) -> Seq<char> {
    ascii_lowered(trimmed(s))
}

impl Gesture {
    pub const ALL: [Gesture; 5] = [
        Gesture::SwipeLeft,
        Gesture::SwipeRight,
        Gesture::OpenPalm,
        Gesture::Wave,
        Gesture::Pinch,
    ];

    /// The name under which the gesture is reported.
    pub open spec fn name(self) -> Seq<char> {
        match self {
            Gesture::SwipeLeft => "swipe_left"@,
            Gesture::SwipeRight => "swipe_right"@,
            Gesture::OpenPalm => "open_palm"@,
            Gesture::Wave => "wave"@,
            Gesture::Pinch => "pinch"@,
        }
    }

    pub fn as_str(&self) -> (r: &'static str)
        ensures
            r@ == self.name(),
    {
        match self {
            Gesture::SwipeLeft => "swipe_left",
            Gesture::SwipeRight => "swipe_right",
            Gesture::OpenPalm => "open_palm",
            Gesture::Wave => "wave",
            Gesture::Pinch => "pinch",
        }
    }

    /// How the gesture looks in the frames.
    pub open spec fn cue_text(self) -> Seq<char> {
        match self {
            Gesture::SwipeLeft => "a hand sweeping from right to left"@,
            Gesture::SwipeRight => "a hand sweeping from left to right"@,
            Gesture::OpenPalm => "an open palm held still toward the camera for about a second"@,
            Gesture::Wave => "a wave"@,
            Gesture::Pinch => "a pinch — thumb and index finger brought together, like picking something up"@,
        }
    }

    /// What the client does with the gesture.
    pub open spec fn effect_text(self) -> Seq<char> {
        match self {
            Gesture::SwipeLeft => "moves the view toward the Home world"@,
            Gesture::SwipeRight => "moves the view toward the Work world"@,
            Gesture::OpenPalm => "pauses the agents"@,
            Gesture::Wave => "asks for today's briefing"@,
            Gesture::Pinch => "closes the card in front (or the camera window when no card is open)"@,
        }
    }

    /// The gesture with the name `s`, in any letter case and with any white space around it.
    pub fn parse(s: &str) -> (r: Option<Gesture>)
        ensures
            forall|g: Gesture| r == Some(g) <==> #[trigger] g.name() == normalized(s@),
    {
        let name = to_ascii_lowercase(trim(s));
        proof {
            lemma_letters_of_names();
        }
        if same_text(name.as_str(), "swipe_left") {
            Some(Gesture::SwipeLeft)
        } else if same_text(name.as_str(), "swipe_right") {
            Some(Gesture::SwipeRight)
        } else if same_text(name.as_str(), "open_palm") {
            Some(Gesture::OpenPalm)
        } else if same_text(name.as_str(), "wave") {
            Some(Gesture::Wave)
        } else if same_text(name.as_str(), "pinch") {
            Some(Gesture::Pinch)
        } else {
            None
        }
    }

    /// How the gesture looks in the frames.
    pub fn cue(&self) -> (r: &'static str)
        ensures
            r@ == self.cue_text(),
    {
        match self {
            Gesture::SwipeLeft => "a hand sweeping from right to left",
            Gesture::SwipeRight => "a hand sweeping from left to right",
            Gesture::OpenPalm => "an open palm held still toward the camera for about a second",
            Gesture::Wave => "a wave",
            Gesture::Pinch => "a pinch — thumb and index finger brought together, like picking something up",
        }
    }

    /// What the client does with the gesture.
    pub fn effect(&self) -> (r: &'static str)
        ensures
            r@ == self.effect_text(),
    {
        match self {
            Gesture::SwipeLeft => "moves the view toward the Home world",
            Gesture::SwipeRight => "moves the view toward the Work world",
            Gesture::OpenPalm => "pauses the agents",
            Gesture::Wave => "asks for today's briefing",
            Gesture::Pinch => "closes the card in front (or the camera window when no card is open)",
        }
    }
}

/// The names, letter by letter.
pub(crate) proof fn lemma_letters_of_names()
    ensures
        Gesture::SwipeLeft.name() == seq!['s', 'w', 'i', 'p', 'e', '_', 'l', 'e', 'f', 't'],
        Gesture::SwipeRight.name() == seq!['s', 'w', 'i', 'p', 'e', '_', 'r', 'i', 'g', 'h', 't'],
        Gesture::OpenPalm.name() == seq!['o', 'p', 'e', 'n', '_', 'p', 'a', 'l', 'm'],
        Gesture::Wave.name() == seq!['w', 'a', 'v', 'e'],
        Gesture::Pinch.name() == seq!['p', 'i', 'n', 'c', 'h'],
{
    reveal_strlit("swipe_left");
    reveal_strlit("swipe_right");
    reveal_strlit("open_palm");
    reveal_strlit("wave");
    reveal_strlit("pinch");
}

/// No two gestures share a name.
pub proof fn names_are_distinct(a: Gesture, b: Gesture)
    requires
        a.name() == b.name(),
    ensures
        a == b,
{
    lemma_letters_of_names();
}

/// A report is read as its gesture in any letter case and with any white space around it.
pub proof fn every_spelling_is_read(
    g: Gesture,
    left: Seq<char>,
    spelling: Seq<char>,
    right: Seq<char>,
)
    requires
        ascii_lowered(spelling) == g.name(),
        forall|i: int| 0 <= i < left.len() ==> is_white_space(#[trigger] left[i]),
        forall|i: int| 0 <= i < right.len() ==> is_white_space(#[trigger] right[i]),
    ensures
        normalized(left + spelling + right) == g.name(),
{
    lemma_letters_of_names();
    assert(spelling.len() == g.name().len() && g.name().len() > 0);
    assert(ascii_lowered(spelling).first() == ascii_lower(spelling.first()));
    assert(ascii_lowered(spelling).last() == ascii_lower(spelling.last()));
    lemma_trimmed_of_padded(left, spelling, right);
}

/// A gesture is read back from its name.
pub proof fn names_read_back(g: Gesture)
    ensures
        normalized(g.name()) == g.name(),
{
    lemma_letters_of_names();
    assert(ascii_lowered(g.name()) =~= g.name());
    assert(seq![] + g.name() + seq![] =~= g.name());
    every_spelling_is_read(g, seq![], g.name(), seq![]);
}

} // verus!
