//! What the model is told about the camera: the instruction text and the tool that it calls.

use vstd::prelude::*;

use crate::gesture::{lemma_letters_of_names, normalized, Gesture};
use crate::json::{
    json_array, json_insert, json_no_members, json_object, json_string, json_tree, JsonTree,
};
use crate::text::{lemma_occurs_in_longer, occurs_in, trimmed};

verus! {

/// The tool that the model calls once per recognised gesture, or with `NO_GESTURE` after a look
/// tick.
pub const TOOL_NAME: &'static str = "ui_gesture";

/// What the model reports when a look tick shows no gesture. It names no `Gesture`; clients ignore
/// it.
pub const NO_GESTURE: &'static str = "none";

/// The model only evaluates its input when a turn ends. While frames are flowing and nobody is
/// speaking, it is sent this text every `LOOK_INTERVAL` so that it checks the latest frames.
pub const LOOK_PROMPT: &'static str = "[look]";

/// Milliseconds from one look tick to the next.
pub const LOOK_INTERVAL: u64 = 2000;

/// Milliseconds after microphone audio in which there is no look tick: the turn of the user will
/// cover the frames.
pub const SPEECH_GRACE: u64 = 1500;

/// The instruction on the frames: what they are and what they are for.
pub const FRAMES_RULE: &'static str = "\n\nCamera: when the user turns the camera on you also \
     receive still frames, about two per second, mirrored like a selfie — a hand the user moves to \
     their left moves left in the frame. Use them only to recognise the deliberate hand gestures \
     below and whether the user is present. ";

/// The instruction on when to look for gestures.
pub const LOOK_RULE: &'static str = "While the camera is on you periodically get the message \
     \"[look]\": compare the most recent frames and call ui_gesture with the gesture you see, or \
     with \"none\" if there is none — never answer \"[look]\" with words. A gesture can also happen \
     while the user is speaking; report it the same way. ";

/// The instruction on what the frames show besides gestures.
pub const PRIVACY_RULE: &'static str = "Do not describe what you see unless asked, and never \
     mention people, objects, screens or text in the frame. ";

/// The instruction on how often to report, ahead of the list of gestures.
pub const REPORT_RULE: &'static str = "Call ui_gesture once per gesture and do not repeat it for the \
     same movement; after the call stay quiet unless the user speaks:";

/// The instruction on unclear gestures, after the list.
pub const DOUBT_RULE: &'static str = "\nIf a gesture is unclear or accidental, do nothing.";

/// The line of the instruction about a gesture.
pub open spec fn gesture_line(g: Gesture) -> Seq<char> {
    "\n- "@ + g.cue_text() + " → ui_gesture {\"gesture\": \""@ + g.name() + "\"}: "@
        + g.effect_text() + "."@
}

/// The lines about `gestures`, in their order.
pub open spec fn gesture_lines(gestures: Seq<Gesture>) -> Seq<char>
    decreases gestures.len(),
{
    if gestures.len() == 0 {
        seq![]
    } else {
        gesture_lines(gestures.drop_last()) + gesture_line(gestures.last())
    }
}

/// What the instruction says ahead of the list of gestures.
pub open spec fn instruction_head() -> Seq<char> {
    FRAMES_RULE@ + LOOK_RULE@ + PRIVACY_RULE@ + REPORT_RULE@
}

/// What the model is told when the camera channel is on.
pub open spec fn instruction_text() -> Seq<char> {
    instruction_head() + gesture_lines(Gesture::ALL@) + DOUBT_RULE@
}

/// Appended to the instruction of the model when the camera channel is on.
pub fn instruction() -> (r: String)
    ensures
        r@ == instruction_text(),
{
    let mut s = FRAMES_RULE.to_string();
    s.append(LOOK_RULE);
    s.append(PRIVACY_RULE);
    s.append(REPORT_RULE);
    let mut i: usize = 0;
    while i < Gesture::ALL.len()
        invariant
            i <= Gesture::ALL@.len(),
            s@ == instruction_head() + gesture_lines(Gesture::ALL@.take(i as int)),
        decreases Gesture::ALL@.len() - i,
    {
        let g = Gesture::ALL[i];
        s.append("\n- ");
        s.append(g.cue());
        s.append(" → ui_gesture {\"gesture\": \"");
        s.append(g.as_str());
        s.append("\"}: ");
        s.append(g.effect());
        s.append(".");
        assert(Gesture::ALL@.take(i + 1).drop_last() == Gesture::ALL@.take(i as int));
        i = i + 1;
    }
    assert(Gesture::ALL@.take(i as int) == Gesture::ALL@);
    s.append(DOUBT_RULE);
    s
}

/// The values that the tool takes for its gesture.
pub open spec fn gesture_values() -> Seq<JsonTree> {
    Gesture::ALL@.map_values(|g: Gesture| JsonTree::Text(g.name())).push(
        JsonTree::Text(NO_GESTURE@),
    )
}

/// The JSON schema of the parameters of the tool.
pub open spec fn tool_schema() -> JsonTree {
    JsonTree::Object(
        map![
            "type"@ => JsonTree::Text("object"@),
            "properties"@ => JsonTree::Object(map![
                "gesture"@ => JsonTree::Object(map![
                    "type"@ => JsonTree::Text("string"@),
                    "enum"@ => JsonTree::Array(gesture_values()),
                    "description"@ => JsonTree::Text(
                        "The gesture you recognised in the camera frames, or none"@),
                ]),
            ]),
            "required"@ => JsonTree::Array(seq![JsonTree::Text("gesture"@)]),
        ],
    )
}

/// JSON schema for the `ui_gesture` tool.
pub fn tool_parameters() -> (r: serde_json::Value)
    ensures
        json_tree(r) == tool_schema(),
{
    let mut values: Vec<serde_json::Value> = Vec::new();
    let mut i: usize = 0;
    while i < Gesture::ALL.len()
        invariant
            i <= Gesture::ALL@.len(),
            values@.len() == i,
            forall|j: int| 0 <= j < i ==> json_tree(#[trigger] values@[j]) == JsonTree::Text(
                Gesture::ALL@[j].name(),
            ),
        decreases Gesture::ALL@.len() - i,
    {
        values.push(json_string(Gesture::ALL[i].as_str()));
        i = i + 1;
    }
    values.push(json_string(NO_GESTURE));
    assert(values@.map_values(|v: serde_json::Value| json_tree(v)) =~= gesture_values());

    let mut gesture = json_no_members();
    json_insert(&mut gesture, "type", json_string("string"));
    json_insert(&mut gesture, "enum", json_array(values));
    json_insert(
        &mut gesture,
        "description",
        json_string("The gesture you recognised in the camera frames, or none"),
    );

    let mut properties = json_no_members();
    json_insert(&mut properties, "gesture", json_object(gesture));

    let mut required: Vec<serde_json::Value> = Vec::new();
    required.push(json_string("gesture"));
    assert(required@.map_values(|v: serde_json::Value| json_tree(v)) =~= seq![
        JsonTree::Text("gesture"@),
    ]);

    let mut schema = json_no_members();
    json_insert(&mut schema, "type", json_string("object"));
    json_insert(&mut schema, "properties", json_object(properties));
    json_insert(&mut schema, "required", json_array(required));
    json_object(schema)
}

/// `Gesture::ALL` leaves out no gesture.
pub proof fn all_holds_every_gesture(g: Gesture)
    ensures
        Gesture::ALL@.contains(g),
{
    let i: int = match g {
        Gesture::SwipeLeft => 0,
        Gesture::SwipeRight => 1,
        Gesture::OpenPalm => 2,
        Gesture::Wave => 3,
        Gesture::Pinch => 4,
    };
    assert(Gesture::ALL@[i] == g);
}

proof fn lemma_lines_hold_each(gestures: Seq<Gesture>, i: int)
    requires
        0 <= i < gestures.len(),
    ensures
        occurs_in(gesture_line(gestures[i]), gesture_lines(gestures)),
    decreases gestures.len(),
{
    let earlier = gesture_lines(gestures.drop_last());
    let line = gesture_line(gestures.last());
    if i == gestures.len() - 1 {
        assert(gesture_lines(gestures) =~= earlier + line + seq![]);
    } else {
        lemma_lines_hold_each(gestures.drop_last(), i);
        lemma_occurs_in_longer(gesture_line(gestures[i]), earlier, seq![], line);
        assert(gesture_lines(gestures) =~= seq![] + earlier + line);
    }
}

/// The instruction has a line for every gesture, and in it its cue, its name and its effect.
pub proof fn instruction_names_every_gesture(g: Gesture)
    ensures
        occurs_in(gesture_line(g), instruction_text()),
        occurs_in(g.cue_text(), instruction_text()),
        occurs_in(g.name(), instruction_text()),
        occurs_in(g.effect_text(), instruction_text()),
{
    all_holds_every_gesture(g);
    let i = choose|i: int| 0 <= i < Gesture::ALL@.len() && Gesture::ALL@[i] == g;
    lemma_lines_hold_each(Gesture::ALL@, i);
    let lines = gesture_lines(Gesture::ALL@);
    lemma_occurs_in_longer(gesture_line(g), lines, instruction_head(), DOUBT_RULE@);

    let (before, after) = choose|before: Seq<char>, after: Seq<char>| instruction_text()
        == #[trigger] (before + gesture_line(g) + after);
    let opening = "\n- "@;
    let call = " → ui_gesture {\"gesture\": \""@;
    let colon = "\"}: "@;
    let line = gesture_line(g);
    assert(line =~= opening + g.cue_text() + (call + g.name() + colon + g.effect_text() + "."@));
    assert(line =~= (opening + g.cue_text() + call) + g.name() + (colon + g.effect_text() + "."@));
    assert(line =~= (opening + g.cue_text() + call + g.name() + colon) + g.effect_text() + "."@);
    lemma_occurs_in_longer(g.cue_text(), line, before, after);
    lemma_occurs_in_longer(g.name(), line, before, after);
    lemma_occurs_in_longer(g.effect_text(), line, before, after);
}

/// The instruction holds each of its rules, the one on privacy among them.
pub proof fn instruction_holds_its_rules()
    ensures
        occurs_in(FRAMES_RULE@, instruction_text()),
        occurs_in(LOOK_RULE@, instruction_text()),
        occurs_in(PRIVACY_RULE@, instruction_text()),
        occurs_in(REPORT_RULE@, instruction_text()),
        occurs_in(DOUBT_RULE@, instruction_text()),
{
    let text = instruction_text();
    let rest = gesture_lines(Gesture::ALL@) + DOUBT_RULE@;
    assert(text =~= seq![] + FRAMES_RULE@ + (LOOK_RULE@ + PRIVACY_RULE@ + REPORT_RULE@ + rest));
    assert(text =~= FRAMES_RULE@ + LOOK_RULE@ + (PRIVACY_RULE@ + REPORT_RULE@ + rest));
    assert(text =~= (FRAMES_RULE@ + LOOK_RULE@) + PRIVACY_RULE@ + (REPORT_RULE@ + rest));
    assert(text =~= (FRAMES_RULE@ + LOOK_RULE@ + PRIVACY_RULE@) + REPORT_RULE@ + rest);
    assert(text =~= (instruction_head() + gesture_lines(Gesture::ALL@)) + DOUBT_RULE@ + seq![]);
}

/// Where the schema of the tool lists the values for the gesture.
pub open spec fn offered_values(schema: JsonTree) -> Option<JsonTree> {
    match schema.member("properties"@) {
        Some(properties) => match properties.member("gesture"@) {
            Some(gesture) => gesture.member("enum"@),
            None => None,
        },
        None => None,
    }
}

/// The tool takes the name of every gesture and `NO_GESTURE`, and nothing else.
pub proof fn schema_offers_every_gesture(value: Seq<char>)
    ensures
        offered_values(tool_schema()) == Some(JsonTree::Array(gesture_values())),
        gesture_values().contains(JsonTree::Text(value)) <==> value == NO_GESTURE@ || exists|
            g: Gesture,
        | #[trigger] g.name() == value,
{
    reveal_strlit("properties");
    reveal_strlit("required");
    reveal_strlit("enum");
    reveal_strlit("description");
    assert("properties"@.len() != "required"@.len());
    assert("enum"@.len() != "description"@.len());
    let values = gesture_values();
    let n = Gesture::ALL@.len() as int;
    if values.contains(JsonTree::Text(value)) {
        let i = choose|i: int| 0 <= i < values.len() && values[i] == JsonTree::Text(value);
        if i < n {
            assert(Gesture::ALL@[i].name() == value);
        }
    }
    if value == NO_GESTURE@ {
        assert(values[n] == JsonTree::Text(value));
    }
    if exists|g: Gesture| #[trigger] g.name() == value {
        let g = choose|g: Gesture| #[trigger] g.name() == value;
        all_holds_every_gesture(g);
        let i = choose|i: int| 0 <= i < n && Gesture::ALL@[i] == g;
        assert(values[i] == JsonTree::Text(value));
    }
}

/// The model has to name a gesture when it calls the tool.
pub proof fn schema_requires_the_gesture()
    ensures
        tool_schema().member("required"@) == Some(
            JsonTree::Array(seq![JsonTree::Text("gesture"@)]),
        ),
{
}

/// `NO_GESTURE` is read as no gesture.
pub proof fn no_gesture_names_no_gesture(g: Gesture)
    ensures
        g.name() != normalized(NO_GESTURE@),
{
    reveal_strlit("none");
    lemma_letters_of_names();
    let none = NO_GESTURE@;
    assert(trimmed(none) == none);
    assert(normalized(none)[0] == 'n');
    assert(normalized(none).len() == 4);
}

} // verus!
