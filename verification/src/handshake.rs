//! How a voice session is opened: the steps up to the greeting, or to the refusal.

use vstd::prelude::*;

use crate::messages::ServerMessage;
use crate::status::VoiceWsQuery;

verus! {

/// The step that is due.
#[derive(Debug)]
pub enum Stage {
    /// Build the runner of the realtime model.
    BuildRunner,
    /// Connect the runner.
    Connect,
    /// Look for the UI session that the client asked for.
    FindSession { id: String },
    /// Create a UI session.
    CreateSession,
    /// Ask the runner for the id of its own session.
    NameRunner { session_id: String },
    /// Greet the client: the session is open.
    Open { session_id: String, runner_session_id: Option<String> },
    /// Tell the client that there will be no session.
    Refused { message: String },
}

/// How a step turned out.
#[derive(Debug)]
pub enum Outcome {
    /// The runner was built, or connected.
    Done,
    /// The runner could not be built, or not connected.
    Failed { error: String },
    /// Whether there is a UI session with the id that was looked for.
    Found { known: bool },
    /// A UI session was created.
    Created { session_id: String },
    /// The id of the session of the runner, if it has one.
    Named { id: Option<String> },
}

/// `Stage`, over characters.
pub enum StageState {
    BuildRunner,
    Connect,
    FindSession(Seq<char>),
    CreateSession,
    NameRunner(Seq<char>),
    Open { session_id: Seq<char>, runner_session_id: Option<Seq<char>> },
    Refused(Seq<char>),
}

/// `Outcome`, over characters.
pub enum OutcomeState {
    Done,
    Failed(Seq<char>),
    Found(bool),
    Created(Seq<char>),
    Named(Option<Seq<char>>),
}

/// The characters of an optional string.
pub open spec fn chars_of(text: Option<String>) -> Option<Seq<char>> {
    match text {
        Some(chars) => Some(chars@),
        None => None,
    }
}

impl View for Stage {
    type V = StageState;

    open spec fn view(&self) -> StageState {
        match self {
            Stage::BuildRunner => StageState::BuildRunner,
            Stage::Connect => StageState::Connect,
            Stage::FindSession { id } => StageState::FindSession(id@),
            Stage::CreateSession => StageState::CreateSession,
            Stage::NameRunner { session_id } => StageState::NameRunner(session_id@),
            Stage::Open { session_id, runner_session_id } => StageState::Open {
                session_id: session_id@,
                runner_session_id: chars_of(*runner_session_id),
            },
            Stage::Refused { message } => StageState::Refused(message@),
        }
    }
}

impl View for Outcome {
    type V = OutcomeState;

    open spec fn view(&self) -> OutcomeState {
        match self {
            Outcome::Done => OutcomeState::Done,
            Outcome::Failed { error } => OutcomeState::Failed(error@),
            Outcome::Found { known } => OutcomeState::Found(*known),
            Outcome::Created { session_id } => OutcomeState::Created(session_id@),
            Outcome::Named { id } => OutcomeState::Named(chars_of(*id)),
        }
    }
}

/// What is known while a session is being opened.
pub struct HandshakeState {
    pub requested: Option<Seq<char>>,
    pub camera: bool,
    pub stage: StageState,
}

impl HandshakeState {
    /// Where a session begins. Without voice it is refused before anything is built.
    pub open spec fn start(enabled: bool, camera: bool, requested: Option<Seq<char>>) -> Self {
        HandshakeState {
            requested,
            camera,
            stage: if enabled {
                StageState::BuildRunner
            } else {
                StageState::Refused("Voice unavailable — set GOOGLE_API_KEY"@)
            },
        }
    }

    /// The step after the one that turned out so. An outcome of another step changes nothing.
    pub open spec fn next_stage(self, outcome: OutcomeState) -> StageState {
        match (self.stage, outcome) {
            (StageState::BuildRunner, OutcomeState::Done) => StageState::Connect,
            (StageState::BuildRunner, OutcomeState::Failed(error)) => StageState::Refused(
                "Init failed: "@ + error,
            ),
            (StageState::Connect, OutcomeState::Done) => match self.requested {
                Some(id) => StageState::FindSession(id),
                None => StageState::CreateSession,
            },
            (StageState::Connect, OutcomeState::Failed(error)) => StageState::Refused(
                "Connect failed: "@ + error,
            ),
            (StageState::FindSession(id), OutcomeState::Found(known)) => if known {
                StageState::NameRunner(id)
            } else {
                StageState::CreateSession
            },
            (
                StageState::CreateSession,
                OutcomeState::Created(session_id),
            ) => StageState::NameRunner(session_id),
            (
                StageState::NameRunner(session_id),
                OutcomeState::Named(runner_session_id),
            ) => StageState::Open { session_id, runner_session_id },
            _ => self.stage,
        }
    }

    pub open spec fn after(self, outcome: OutcomeState) -> Self {
        HandshakeState { stage: self.next_stage(outcome), ..self }
    }

    pub open spec fn after_all(self, outcomes: Seq<OutcomeState>) -> Self
        decreases outcomes.len(),
    {
        if outcomes.len() == 0 {
            self
        } else {
            self.after_all(outcomes.drop_last()).after(outcomes.last())
        }
    }

    /// Neither step that ends the handshake is due.
    pub open spec fn is_pending(self) -> bool {
        self.stage !is Open && self.stage !is Refused
    }
}

/// A session that is being opened.
#[derive(Debug)]
pub struct Handshake {
    /// The UI session that the client asked for.
    pub requested: Option<String>,
    pub camera: bool,
    /// The step that is due.
    pub stage: Stage,
}

impl View for Handshake {
    type V = HandshakeState;

    open spec fn view(&self) -> HandshakeState {
        HandshakeState {
            requested: chars_of(self.requested),
            camera: self.camera,
            stage: self.stage@,
        }
    }
}

impl Handshake {
    pub fn new(enabled: bool, camera: bool, query: VoiceWsQuery) -> (r: Self)
        ensures
            r@ == HandshakeState::start(enabled, camera, chars_of(query.session_id)),
    {
        let stage = if enabled {
            Stage::BuildRunner
        } else {
            Stage::Refused { message: "Voice unavailable — set GOOGLE_API_KEY".to_string() }
        };
        Handshake { requested: query.session_id, camera, stage }
    }

    /// Moves on from the step that was due, given how it turned out.
    pub fn advance(self, outcome: Outcome) -> (r: Self)
        ensures
            r@ == self@.after(outcome@),
    {
        let Handshake { requested, camera, stage } = self;
        let next = match (stage, outcome) {
            (Stage::BuildRunner, Outcome::Done) => Stage::Connect,
            (Stage::BuildRunner, Outcome::Failed { error }) => {
                let mut message = "Init failed: ".to_string();
                message.append(error.as_str());
                Stage::Refused { message }
            },
            (Stage::Connect, Outcome::Done) => match &requested {
                Some(id) => Stage::FindSession { id: id.clone() },
                None => Stage::CreateSession,
            },
            (Stage::Connect, Outcome::Failed { error }) => {
                let mut message = "Connect failed: ".to_string();
                message.append(error.as_str());
                Stage::Refused { message }
            },
            (Stage::FindSession { id }, Outcome::Found { known }) => if known {
                Stage::NameRunner { session_id: id }
            } else {
                Stage::CreateSession
            },
            (Stage::CreateSession, Outcome::Created { session_id }) => Stage::NameRunner {
                session_id,
            },
            (Stage::NameRunner { session_id }, Outcome::Named { id }) => Stage::Open {
                session_id,
                runner_session_id: id,
            },
            (stage, _) => stage,
        };
        Handshake { requested, camera, stage: next }
    }

    /// What the client is told at this stage, if anything.
    pub open spec fn answer(self) -> Option<ServerMessage> {
        match self.stage {
            Stage::Open { session_id, runner_session_id } => Some(
                ServerMessage::Connected { session_id, runner_session_id, camera: self.camera },
            ),
            Stage::Refused { message } => Some(ServerMessage::Error { message }),
            _ => None,
        }
    }

    /// What the client is told: the greeting of an open session, the reason of a refusal, nothing
    /// before that.
    pub fn message(&self) -> (r: Option<ServerMessage>)
        ensures
            r == self.answer(),
    {
        match &self.stage {
            Stage::Open { session_id, runner_session_id } => {
                let runner = match runner_session_id {
                    Some(id) => Some(id.clone()),
                    None => None,
                };
                Some(
                    ServerMessage::Connected {
                        session_id: session_id.clone(),
                        runner_session_id: runner,
                        camera: self.camera,
                    },
                )
            },
            Stage::Refused { message } => Some(ServerMessage::Error { message: message.clone() }),
            _ => None,
        }
    }
}

/// However its steps turn out, a handshake keeps what the client asked for and whether there is a
/// camera.
pub proof fn request_and_camera_stay(start: HandshakeState, outcomes: Seq<OutcomeState>)
    ensures
        start.after_all(outcomes).requested == start.requested,
        start.after_all(outcomes).camera == start.camera,
    decreases outcomes.len(),
{
    if outcomes.len() > 0 {
        request_and_camera_stay(start, outcomes.drop_last());
    }
}

/// A handshake that is over stays as it is.
pub proof fn the_end_is_final(over: HandshakeState, outcomes: Seq<OutcomeState>)
    requires
        !over.is_pending(),
    ensures
        over.after_all(outcomes) == over,
    decreases outcomes.len(),
{
    if outcomes.len() > 0 {
        the_end_is_final(over, outcomes.drop_last());
    }
}

/// Without voice every session is refused, before a runner is built and however the caller goes on.
pub proof fn without_voice_every_session_is_refused(
    camera: bool,
    requested: Option<Seq<char>>,
    outcomes: Seq<OutcomeState>,
)
    ensures
        HandshakeState::start(false, camera, requested).after_all(outcomes).stage
            == StageState::Refused("Voice unavailable — set GOOGLE_API_KEY"@),
{
    the_end_is_final(HandshakeState::start(false, camera, requested), outcomes);
}

/// Whether `id` is the id of a UI session: the one that the client asked for and that was found, or
/// one that was created.
pub open spec fn is_ui_session(
    id: Seq<char>,
    requested: Option<Seq<char>>,
    outcomes: Seq<OutcomeState>,
) -> bool {
    ||| requested == Some(id) && outcomes.contains(OutcomeState::Found(true))
    ||| outcomes.contains(OutcomeState::Created(id))
}

/// Whether two of `outcomes` say that a step was done.
pub open spec fn is_done_twice(outcomes: Seq<OutcomeState>) -> bool {
    exists|i: int, j: int|
        0 <= i < j < outcomes.len() && #[trigger] outcomes[i] == OutcomeState::Done
            && #[trigger] outcomes[j] == OutcomeState::Done
}

proof fn lemma_steps_taken(
    camera: bool,
    requested: Option<Seq<char>>,
    outcomes: Seq<OutcomeState>,
)
    ensures
        (match HandshakeState::start(true, camera, requested).after_all(outcomes).stage {
            StageState::BuildRunner => true,
            StageState::Connect => outcomes.contains(OutcomeState::Done),
            StageState::FindSession(id) => is_done_twice(outcomes) && requested == Some(id),
            StageState::CreateSession => is_done_twice(outcomes),
            StageState::NameRunner(id) => is_done_twice(outcomes) && is_ui_session(
                id,
                requested,
                outcomes,
            ),
            StageState::Open { session_id, runner_session_id } => {
                &&& is_done_twice(outcomes)
                &&& is_ui_session(session_id, requested, outcomes)
                &&& outcomes.contains(OutcomeState::Named(runner_session_id))
            },
            StageState::Refused(_) => true,
        }),
    decreases outcomes.len(),
{
    if outcomes.len() > 0 {
        let earlier = outcomes.drop_last();
        let n = outcomes.len() - 1;
        lemma_steps_taken(camera, requested, earlier);
        request_and_camera_stay(HandshakeState::start(true, camera, requested), earlier);
        assert(outcomes[n] == outcomes.last());
        assert forall|outcome: OutcomeState| #[trigger]
            earlier.contains(outcome) implies outcomes.contains(outcome) by {
            let i = choose|i: int| 0 <= i < earlier.len() && earlier[i] == outcome;
            assert(outcomes[i] == outcome);
        }
        if is_done_twice(earlier) {
            let (i, j) = choose|i: int, j: int|
                0 <= i < j < earlier.len() && #[trigger] earlier[i] == OutcomeState::Done
                    && #[trigger] earlier[j] == OutcomeState::Done;
            assert(outcomes[i] == OutcomeState::Done && outcomes[j] == OutcomeState::Done);
        }
        if earlier.contains(OutcomeState::Done) {
            let i = choose|i: int| 0 <= i < earlier.len() && earlier[i] == OutcomeState::Done;
            assert(outcomes[i] == OutcomeState::Done);
        }
    }
}

/// The id that the client is greeted with is that of a UI session: the one it asked for, if that
/// one was found, or one that was created for it. The id of the session of the runner comes beside
/// it and never in its place. And there is no greeting unless the runner was both built and
/// connected.
pub proof fn greeting_names_a_ui_session(
    camera: bool,
    requested: Option<Seq<char>>,
    outcomes: Seq<OutcomeState>,
)
    ensures
        HandshakeState::start(true, camera, requested).after_all(
            outcomes,
        ).stage matches StageState::Open { session_id, runner_session_id } ==> {
            &&& is_done_twice(outcomes)
            &&& is_ui_session(session_id, requested, outcomes)
            &&& outcomes.contains(OutcomeState::Named(runner_session_id))
        },
{
    lemma_steps_taken(camera, requested, outcomes);
}

/// A client that asks for a UI session that is there gets that one.
pub proof fn a_known_session_is_kept(camera: bool, id: Seq<char>, runner: Option<Seq<char>>)
    ensures
        HandshakeState::start(true, camera, Some(id)).after(OutcomeState::Done).after(
            OutcomeState::Done,
        ).after(OutcomeState::Found(true)).after(OutcomeState::Named(runner)).stage == (
        StageState::Open { session_id: id, runner_session_id: runner }),
{
}

/// A client that asks for no UI session, or for one that is not there, gets one that is created.
pub proof fn an_unknown_session_is_created(
    camera: bool,
    requested: Option<Seq<char>>,
    created: Seq<char>,
    runner: Option<Seq<char>>,
)
    ensures
        ({
            let connected = HandshakeState::start(true, camera, requested).after(
                OutcomeState::Done,
            ).after(OutcomeState::Done);
            let asked = if requested is Some {
                connected.after(OutcomeState::Found(false))
            } else {
                connected
            };
            asked.after(OutcomeState::Created(created)).after(OutcomeState::Named(runner)).stage
                == (StageState::Open { session_id: created, runner_session_id: runner })
        }),
{
}

} // verus!
