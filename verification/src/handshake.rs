//! From a fresh connection to an open session.
//!
//! The client introduces itself with `initialize`, and then loads the session that
//! is to be resumed, or opens a new one. A session that cannot be loaded is no
//! failure: a new one is opened in its place.

use vstd::prelude::*;
use crate::action::{actions_view, Action, ActionView};
use crate::json::{member_in, opt_text, owned, str_in, unless_empty, Json, JsonView};
use crate::json::{member_of, non_empty, str_of};
use crate::normalize::or_empty;
use crate::proto::{AgentEvent, AgentEventView, DoneStatus, HarnessError, HarnessErrorView};
use crate::requests::{
    initialize_object, initialize_params, load_session_object, load_session_params,
    new_session_object, new_session_params,
};

verus! {

/// Which reply the handshake waits for.
#[derive(Clone, Copy, Debug, PartialEq, Eq, Structural)]
pub enum HandshakeStage {
    Initializing,
    Loading,
    Creating,
    Closed,
}

/// A handshake in progress.
pub struct Handshake {
    stage: HandshakeStage,
    resume: Option<String>,
    cwd: String,
    current_model: Option<String>,
}

/// The mathematical value of a [`Handshake`].
pub struct HandshakeView {
    pub stage: HandshakeStage,
    pub resume: Option<Seq<char>>,
    pub cwd: Seq<char>,
    pub current_model: Option<Seq<char>>,
}

impl View for Handshake {
    type V = HandshakeView;

    closed spec fn view(&self) -> HandshakeView {
        HandshakeView {
            stage: self.stage,
            resume: opt_text(self.resume),
            cwd: self.cwd@,
            current_model: opt_text(self.current_model),
        }
    }
}

/// An open session.
#[derive(Debug, PartialEq, Eq)]
pub struct OpenSession {
    pub session_id: String,
    pub cwd: String,
    pub current_model: Option<String>,
}

/// The mathematical value of an [`OpenSession`].
pub struct OpenSessionView {
    pub session_id: Seq<char>,
    pub cwd: Seq<char>,
    pub current_model: Option<Seq<char>>,
}

impl View for OpenSession {
    type V = OpenSessionView;

    open spec fn view(&self) -> OpenSessionView {
        OpenSessionView {
            session_id: self.session_id@,
            cwd: self.cwd@,
            current_model: opt_text(self.current_model),
        }
    }
}

/// Where a reply leads.
#[derive(Debug, PartialEq, Eq)]
pub enum HandshakeOutcome {
    /// Do this, and wait for the next reply.
    Continue(Vec<Action>),
    Opened(OpenSession),
    Failed(HarnessError),
}

/// The mathematical value of a [`HandshakeOutcome`].
pub enum HandshakeOutcomeView {
    Continue(Seq<ActionView>),
    Opened(OpenSessionView),
    Failed(HarnessErrorView),
}

impl View for HandshakeOutcome {
    type V = HandshakeOutcomeView;

    open spec fn view(&self) -> HandshakeOutcomeView {
        match self {
            HandshakeOutcome::Continue(actions) => HandshakeOutcomeView::Continue(
                actions_view(actions@),
            ),
            HandshakeOutcome::Opened(session) => HandshakeOutcomeView::Opened(session@),
            HandshakeOutcome::Failed(error) => HandshakeOutcomeView::Failed(error@),
        }
    }
}

/// The value of a reply.
pub open spec fn reply_view(reply: Result<Json, HarnessError>) -> Result<
    JsonView,
    HarnessErrorView,
> {
    match reply {
        Ok(result) => Ok(result@),
        Err(error) => Err(error@),
    }
}

/// The request that opens a new session.
pub open spec fn create_request(cwd: Seq<char>) -> ActionView {
    ActionView::Request { method: "session/new"@, params: new_session_object(cwd) }
}

/// The request that loads a session.
pub open spec fn load_request(session_id: Seq<char>, cwd: Seq<char>) -> ActionView {
    ActionView::Request { method: "session/load"@, params: load_session_object(session_id, cwd) }
}

/// The model that the agent says it runs, in its reply to `initialize`.
pub open spec fn initialized_model(result: JsonView) -> Option<Seq<char>> {
    non_empty(
        str_of(
            member_of(member_of(result.get("_meta"@), "modelState"@), "currentModelId"@),
        ),
    )
}

/// The handshake ends with the session called `session_id`; a session must have
/// an id.
pub open spec fn opened(h: HandshakeView, session_id: Seq<char>) -> HandshakeOutcomeView {
    if session_id.len() == 0 {
        HandshakeOutcomeView::Failed(
            HarnessErrorView::Protocol("session/new: missing sessionId"@),
        )
    } else {
        HandshakeOutcomeView::Opened(
            OpenSessionView { session_id, cwd: h.cwd, current_model: h.current_model },
        )
    }
}

/// The handshake at its start.
pub open spec fn initial_handshake(
    resume: Option<Seq<char>>,
    cwd: Seq<char>,
) -> HandshakeView {
    HandshakeView { stage: HandshakeStage::Initializing, resume, cwd, current_model: None }
}

/// What a reply does to a handshake, and where it leads.
pub open spec fn handshake_step(
    h: HandshakeView,
    reply: Result<JsonView, HarnessErrorView>,
) -> (HandshakeView, HandshakeOutcomeView) {
    let closed = HandshakeView { stage: HandshakeStage::Closed, ..h };
    match h.stage {
        HandshakeStage::Initializing => match reply {
            Ok(result) => {
                let greeted = HandshakeView { current_model: initialized_model(result), ..h };
                let thanks = ActionView::Notify {
                    method: "notifications/initialized"@,
                    params: None,
                };
                match h.resume {
                    Some(session_id) => (
                        HandshakeView { stage: HandshakeStage::Loading, ..greeted },
                        HandshakeOutcomeView::Continue(
                            seq![thanks, load_request(session_id, h.cwd)],
                        ),
                    ),
                    None => (
                        HandshakeView { stage: HandshakeStage::Creating, ..greeted },
                        HandshakeOutcomeView::Continue(seq![thanks, create_request(h.cwd)]),
                    ),
                }
            },
            Err(error) => (closed, HandshakeOutcomeView::Failed(error)),
        },
        HandshakeStage::Loading => match reply {
            Ok(result) => (
                closed,
                opened(
                    h,
                    match result.str_at("sessionId"@) {
                        Some(session_id) => session_id,
                        None => or_empty(h.resume),
                    },
                ),
            ),
            Err(_) => (
                HandshakeView { stage: HandshakeStage::Creating, ..h },
                HandshakeOutcomeView::Continue(seq![create_request(h.cwd)]),
            ),
        },
        HandshakeStage::Creating => match reply {
            Ok(result) => (closed, opened(h, or_empty(result.str_at("sessionId"@)))),
            Err(error) => (closed, HandshakeOutcomeView::Failed(error)),
        },
        HandshakeStage::Closed => (h, HandshakeOutcomeView::Continue(Seq::empty())),
    }
}

impl Handshake {
    /// Starts a handshake: the first action introduces this client.
    pub fn begin(resume: Option<String>, cwd: String, version: &str) -> (started: (
        Handshake,
        Vec<Action>,
    ))
        ensures
            started.0@ == initial_handshake(opt_text(resume), cwd@),
            actions_view(started.1@) == seq![
                ActionView::Request {
                    method: "initialize"@,
                    params: initialize_object(version@),
                },
            ],
    {
        let mut actions: Vec<Action> = Vec::new();
        actions.push(
            Action::Request { method: "initialize".to_owned(), params: initialize_params(version) },
        );
        assert(actions_view(actions@) =~= seq![
            ActionView::Request { method: "initialize"@, params: initialize_object(version@) },
        ]);
        (
            Handshake { stage: HandshakeStage::Initializing, resume, cwd, current_model: None },
            actions,
        )
    }

    /// Which reply the handshake waits for.
    pub fn stage(&self) -> (stage: HandshakeStage)
        ensures
            stage == self@.stage,
    {
        self.stage
    }

    fn create(&self) -> (action: Action)
        ensures
            action@ == create_request(self@.cwd),
    {
        Action::Request {
            method: "session/new".to_owned(),
            params: new_session_params(self.cwd.as_str()),
        }
    }

    fn open(&self, session_id: &str) -> (outcome: HandshakeOutcome)
        ensures
            outcome@ == opened(self@, session_id@),
    {
        if session_id.is_empty() {
            return HandshakeOutcome::Failed(
                HarnessError::Protocol("session/new: missing sessionId".to_owned()),
            );
        }
        let current_model = match &self.current_model {
            Some(model) => Some(model.clone()),
            None => None,
        };
        HandshakeOutcome::Opened(
            OpenSession { session_id: session_id.to_owned(), cwd: self.cwd.clone(), current_model },
        )
    }

    /// Takes the reply to the last request.
    pub fn on_reply(&mut self, reply: Result<Json, HarnessError>) -> (outcome: HandshakeOutcome)
        ensures
            (final(self)@, outcome@) == handshake_step(old(self)@, reply_view(reply)),
    {
        match self.stage {
            HandshakeStage::Initializing => match reply {
                Ok(result) => {
                    self.current_model = owned(
                        unless_empty(
                            str_in(
                                member_in(
                                    member_in(result.get("_meta"), "modelState"),
                                    "currentModelId",
                                ),
                            ),
                        ),
                    );
                    let mut actions: Vec<Action> = Vec::new();
                    actions.push(
                        Action::Notify {
                            method: "notifications/initialized".to_owned(),
                            params: None,
                        },
                    );
                    let next = match &self.resume {
                        Some(session_id) => Some(
                            Action::Request {
                                method: "session/load".to_owned(),
                                params: load_session_params(session_id.as_str(), self.cwd.as_str()),
                            },
                        ),
                        None => None,
                    };
                    match next {
                        Some(load) => {
                            actions.push(load);
                            self.stage = HandshakeStage::Loading;
                        },
                        None => {
                            actions.push(self.create());
                            self.stage = HandshakeStage::Creating;
                        },
                    }
                    proof {
                        let expected = handshake_step(old(self)@, reply_view(reply)).1;
                        assert(actions_view(actions@) =~= expected->Continue_0);
                    }
                    HandshakeOutcome::Continue(actions)
                },
                Err(error) => {
                    self.stage = HandshakeStage::Closed;
                    HandshakeOutcome::Failed(error)
                },
            },
            HandshakeStage::Loading => match reply {
                Ok(result) => {
                    let outcome = match result.str_at("sessionId") {
                        Some(session_id) => self.open(session_id),
                        None => match &self.resume {
                            Some(session_id) => self.open(session_id.as_str()),
                            None => self.open(""),
                        },
                    };
                    proof {
                        reveal_strlit("");
                        assert(""@ =~= Seq::empty());
                    }
                    self.stage = HandshakeStage::Closed;
                    outcome
                },
                Err(_) => {
                    let mut actions: Vec<Action> = Vec::new();
                    actions.push(self.create());
                    self.stage = HandshakeStage::Creating;
                    assert(actions_view(actions@) =~= seq![create_request(old(self)@.cwd)]);
                    HandshakeOutcome::Continue(actions)
                },
            },
            HandshakeStage::Creating => match reply {
                Ok(result) => {
                    let outcome = match result.str_at("sessionId") {
                        Some(session_id) => self.open(session_id),
                        None => self.open(""),
                    };
                    proof {
                        reveal_strlit("");
                        assert(""@ =~= Seq::empty());
                    }
                    self.stage = HandshakeStage::Closed;
                    outcome
                },
                Err(error) => {
                    self.stage = HandshakeStage::Closed;
                    HandshakeOutcome::Failed(error)
                },
            },
            HandshakeStage::Closed => {
                let actions: Vec<Action> = Vec::new();
                assert(actions_view(actions@) =~= Seq::empty());
                HandshakeOutcome::Continue(actions)
            },
        }
    }
}

/// The directory that a session works in: the one asked for, or else the current
/// one, or else `.`.
pub open spec fn working_dir(
    requested: Seq<char>,
    current_dir: Option<Seq<char>>,
) -> Seq<char> {
    if requested.len() > 0 {
        requested
    } else {
        match current_dir {
            Some(dir) => dir,
            None => "."@,
        }
    }
}

/// The directory that a session works in.
pub fn session_cwd(requested: &str, current_dir: Option<String>) -> (cwd: String)
    ensures
        cwd@ == working_dir(requested@, opt_text(current_dir)),
{
    if requested.is_empty() {
        match current_dir {
            Some(dir) => dir,
            None => ".".to_owned(),
        }
    } else {
        requested.to_owned()
    }
}

/// The end of a run that has no session: one event, and no more.
pub open spec fn setup_end(status: DoneStatus, error: Option<Seq<char>>) -> Seq<ActionView> {
    seq![
        ActionView::Emit {
            event: AgentEventView::Done { status, result: None, error, session_id: None },
        },
        ActionView::Shutdown,
    ]
}

fn end_setup(status: DoneStatus, error: Option<String>) -> (actions: Vec<Action>)
    ensures
        actions_view(actions@) == setup_end(status, opt_text(error)),
{
    let event = AgentEvent::Done { status, result: None, error, session_id: None };
    let mut actions: Vec<Action> = Vec::new();
    actions.push(Action::Emit { event });
    actions.push(Action::Shutdown);
    assert(actions_view(actions@) =~= setup_end(status, opt_text(error)));
    actions
}

/// The end of a run whose handshake failed, for the given reason.
pub fn setup_failed(message: String) -> (actions: Vec<Action>)
    ensures
        actions_view(actions@) == setup_end(DoneStatus::Errored, Some(message@)),
{
    end_setup(DoneStatus::Errored, Some(message))
}

/// The end of a run that was interrupted during its handshake.
pub fn setup_interrupted() -> (actions: Vec<Action>)
    ensures
        actions_view(actions@) == setup_end(DoneStatus::Interrupted, None),
{
    end_setup(DoneStatus::Interrupted, None)
}

// ---------------------------------------------------------------------------
// Laws
// ---------------------------------------------------------------------------

/// How many replies a handshake can still take.
pub open spec fn replies_left(h: HandshakeView) -> nat {
    match h.stage {
        HandshakeStage::Initializing => 3,
        HandshakeStage::Loading => 2,
        HandshakeStage::Creating => 1,
        HandshakeStage::Closed => 0,
    }
}

/// Every reply brings the handshake closer to its end; it goes on exactly as long
/// as it does not close, and then with one request as the last action.
pub proof fn law_handshake_makes_progress(
    h: HandshakeView,
    reply: Result<JsonView, HarnessErrorView>,
)
    requires
        h.stage != HandshakeStage::Closed,
    ensures
        replies_left(handshake_step(h, reply).0) < replies_left(h),
        handshake_step(h, reply).1 is Continue <==> handshake_step(h, reply).0.stage
            != HandshakeStage::Closed,
        handshake_step(h, reply).1 matches HandshakeOutcomeView::Continue(actions)
            ==> actions.len() > 0 && actions.last() is Request,
{
}

/// A handshake after some replies, with the outcome of the last.
pub open spec fn handshake_run(
    h: HandshakeView,
    replies: Seq<Result<JsonView, HarnessErrorView>>,
) -> (HandshakeView, HandshakeOutcomeView)
    decreases replies.len(),
{
    if replies.len() == 0 {
        (h, HandshakeOutcomeView::Continue(Seq::empty()))
    } else {
        handshake_step(handshake_run(h, replies.drop_last()).0, replies.last())
    }
}

proof fn lemma_handshake_counts_down(
    h: HandshakeView,
    replies: Seq<Result<JsonView, HarnessErrorView>>,
)
    ensures
        replies_left(handshake_run(h, replies).0) + replies.len() <= replies_left(h)
            || handshake_run(h, replies).0.stage == HandshakeStage::Closed,
    decreases replies.len(),
{
    if replies.len() > 0 {
        lemma_handshake_counts_down(h, replies.drop_last());
        let mid = handshake_run(h, replies.drop_last()).0;
        if mid.stage != HandshakeStage::Closed {
            law_handshake_makes_progress(mid, replies.last());
        }
    }
}

/// A handshake is over after three replies at most.
pub proof fn law_handshake_ends(
    h: HandshakeView,
    replies: Seq<Result<JsonView, HarnessErrorView>>,
)
    requires
        replies.len() >= 3,
    ensures
        handshake_run(h, replies).0.stage == HandshakeStage::Closed,
{
    lemma_handshake_counts_down(h, replies);
}

/// A session that opens has an id, works in the directory that the handshake was
/// started with, and runs the model that the agent named.
pub proof fn law_open_session_is_valid(
    h: HandshakeView,
    reply: Result<JsonView, HarnessErrorView>,
    session: OpenSessionView,
)
    requires
        handshake_step(h, reply).1 == HandshakeOutcomeView::Opened(session),
    ensures
        session.session_id.len() > 0,
        session.cwd == h.cwd,
        session.current_model == h.current_model,
        reply is Ok,
{
}

/// Without a session to resume, `session/load` is never asked for.
pub proof fn law_nothing_is_loaded_without_resume(
    cwd: Seq<char>,
    replies: Seq<Result<JsonView, HarnessErrorView>>,
)
    ensures
        handshake_run(initial_handshake(None, cwd), replies).0.stage != HandshakeStage::Loading,
        handshake_run(initial_handshake(None, cwd), replies).0.resume is None,
    decreases replies.len(),
{
    if replies.len() > 0 {
        law_nothing_is_loaded_without_resume(cwd, replies.drop_last());
    }
}

/// A session that cannot be loaded is no failure: a new one is asked for in its
/// place, and from there all goes as it would have gone without a session to resume.
pub proof fn law_failed_load_starts_fresh(
    session_id: Seq<char>,
    cwd: Seq<char>,
    greeting: JsonView,
    refusal: HarnessErrorView,
    reply: Result<JsonView, HarnessErrorView>,
)
    ensures
        ({
            let resuming = initial_handshake(Some(session_id), cwd);
            let fresh = initial_handshake(None, cwd);
            let (refused, outcome) = handshake_run(resuming, seq![Ok(greeting), Err(refusal)]);
            &&& outcome == HandshakeOutcomeView::Continue(seq![create_request(cwd)])
            &&& handshake_step(refused, reply).1 == handshake_run(
                fresh,
                seq![Ok(greeting), reply],
            ).1
        }),
{
    let resuming = initial_handshake(Some(session_id), cwd);
    let fresh = initial_handshake(None, cwd);
    let greeted: Seq<Result<JsonView, HarnessErrorView>> = seq![Ok(greeting)];
    let refused: Seq<Result<JsonView, HarnessErrorView>> = seq![Ok(greeting), Err(refusal)];
    let answered: Seq<Result<JsonView, HarnessErrorView>> = seq![Ok(greeting), reply];
    assert(refused.drop_last() =~= greeted);
    assert(answered.drop_last() =~= greeted);
    assert(greeted.drop_last() =~= Seq::empty());
    reveal_with_fuel(handshake_run, 3);
}

/// A session that was loaded keeps its id, unless the reply names another.
pub proof fn law_loaded_session_keeps_its_id(
    session_id: Seq<char>,
    cwd: Seq<char>,
    greeting: JsonView,
    loaded: JsonView,
)
    requires
        session_id.len() > 0,
        loaded.str_at("sessionId"@) is None,
    ensures
        handshake_run(
            initial_handshake(Some(session_id), cwd),
            seq![Ok(greeting), Ok(loaded)],
        ).1 == HandshakeOutcomeView::Opened(
            OpenSessionView { session_id, cwd, current_model: initialized_model(greeting) },
        ),
{
    let greeted: Seq<Result<JsonView, HarnessErrorView>> = seq![Ok(greeting)];
    let replies: Seq<Result<JsonView, HarnessErrorView>> = seq![Ok(greeting), Ok(loaded)];
    assert(replies.drop_last() =~= greeted);
    assert(greeted.drop_last() =~= Seq::empty());
    reveal_with_fuel(handshake_run, 3);
}

} // verus!
