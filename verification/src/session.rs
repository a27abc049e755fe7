//! A session from its first prompt to its end.
//!
//! The session is a state machine. The host feeds it what happens (the agent's
//! notifications and replies, steering messages, an interrupt) and performs the
//! actions that come out, in order. Steering is turn-boundary only: a message that
//! arrives while a prompt is active waits until that prompt is done.
//!
//! Every turn is announced to the consumer before its prompt goes to the agent. The
//! prompt comes out only once the consumer has taken the announcement.

use std::collections::VecDeque;
use vstd::prelude::*;
use vstd::string::StringExecFns;
use crate::action::{
    actions_view, emits, lemma_actions_concat, shutdowns, undelivered, Action, ActionView,
    METHOD_NOT_FOUND,
};
use crate::handshake::{OpenSession, OpenSessionView};
use crate::json::{opt_text, Json, JsonView};
use crate::message_id::{is_message_id, new_message_id, rotate_to};
use crate::normalize::{
    map_session_update, payload, session_events, stop_error, stop_reason_error,
    update_payload, usage_event, usage_from_prompt_result, SeenTools,
};
use crate::proto::{
    events_view, texts_view, AgentEvent, AgentEventView, DoneStatus, HarnessId, RunRequest,
};
use crate::requests::{cancel_object, cancel_params, prompt_object, prompt_params};
use crate::text::str_eq;

verus! {

/// How far a session has come.
#[derive(Clone, Copy, Debug, PartialEq, Eq, Structural)]
pub enum Stage {
    /// Prompts are answered, or awaited.
    Running,
    /// The agent is gone; how it went down is still to be reported.
    Inspecting,
    /// Nothing happens any more.
    Ended,
}

/// What can happen to a session.
#[allow(inconsistent_fields)]
#[derive(Debug, PartialEq, Eq)]
pub enum SessionEvent {
    /// The consumer took the announcement of a turn.
    Announced,
    /// The agent sent a notification.
    Notification { method: String, params: Json },
    /// The agent sent a request.
    ServerRequest { id: Json, method: String },
    /// The agent closed the connection.
    Eof,
    /// The active prompt was answered.
    PromptDone { result: Json },
    /// The active prompt was answered with an error.
    PromptRejected { error: String },
    /// The task that waited for the answer went down.
    PromptLost { error: String },
    /// The user steers.
    Steer { text: String },
    /// There will be no more steering.
    SteeringClosed,
    /// The user interrupts.
    Interrupt,
    /// How the child went down.
    ChildInspected { message: String },
    /// Nobody listens to the events any more.
    ConsumerGone,
}

/// The mathematical value of a [`SessionEvent`].
#[allow(inconsistent_fields)]
pub enum SessionEventView {
    Announced,
    Notification { method: Seq<char>, params: JsonView },
    ServerRequest { id: JsonView, method: Seq<char> },
    Eof,
    PromptDone { result: JsonView },
    PromptRejected { error: Seq<char> },
    PromptLost { error: Seq<char> },
    Steer { text: Seq<char> },
    SteeringClosed,
    Interrupt,
    ChildInspected { message: Seq<char> },
    ConsumerGone,
}

impl View for SessionEvent {
    type V = SessionEventView;

    open spec fn view(&self) -> SessionEventView {
        match self {
            SessionEvent::Announced => SessionEventView::Announced,
            SessionEvent::Notification { method, params } => SessionEventView::Notification {
                method: method@,
                params: params@,
            },
            SessionEvent::ServerRequest { id, method } => SessionEventView::ServerRequest {
                id: id@,
                method: method@,
            },
            SessionEvent::Eof => SessionEventView::Eof,
            SessionEvent::PromptDone { result } => SessionEventView::PromptDone {
                result: result@,
            },
            SessionEvent::PromptRejected { error } => SessionEventView::PromptRejected {
                error: error@,
            },
            SessionEvent::PromptLost { error } => SessionEventView::PromptLost { error: error@ },
            SessionEvent::Steer { text } => SessionEventView::Steer { text: text@ },
            SessionEvent::SteeringClosed => SessionEventView::SteeringClosed,
            SessionEvent::Interrupt => SessionEventView::Interrupt,
            SessionEvent::ChildInspected { message } => SessionEventView::ChildInspected {
                message: message@,
            },
            SessionEvent::ConsumerGone => SessionEventView::ConsumerGone,
        }
    }
}

/// A turn that was announced: what its prompt will hold.
pub struct Opening {
    text: String,
    include_session_rule: bool,
}

/// The mathematical value of an [`Opening`].
pub struct OpeningView {
    pub text: Seq<char>,
    pub include_session_rule: bool,
}

impl View for Opening {
    type V = OpeningView;

    closed spec fn view(&self) -> OpeningView {
        OpeningView { text: self.text@, include_session_rule: self.include_session_rule }
    }
}

/// The value of an optional opening.
pub open spec fn opt_opening(opening: Option<Opening>) -> Option<OpeningView> {
    match opening {
        Some(turn) => Some(turn@),
        None => None,
    }
}

/// A session.
pub struct Session {
    stage: Stage,
    session_id: String,
    message_id: String,
    opening: Option<Opening>,
    seen_tools: SeenTools,
    queued_steers: VecDeque<String>,
    steering_open: bool,
    interrupted: bool,
    prompt_active: bool,
    done_current: bool,
}

/// The mathematical value of a [`Session`].
pub struct SessionView {
    pub stage: Stage,
    pub session_id: Seq<char>,
    /// The id of the assistant message in progress.
    pub message_id: Seq<char>,
    /// The turn that was announced, as long as the consumer has not taken the
    /// announcement.
    pub opening: Option<OpeningView>,
    /// The tool calls that were reported in this turn.
    pub seen_tools: Set<Seq<char>>,
    /// Steering messages that wait for the active prompt.
    pub queued_steers: Seq<Seq<char>>,
    pub steering_open: bool,
    pub interrupted: bool,
    pub prompt_active: bool,
    /// Whether the end of the current turn was reported.
    pub done_current: bool,
}

impl View for Session {
    type V = SessionView;

    closed spec fn view(&self) -> SessionView {
        SessionView {
            stage: self.stage,
            session_id: self.session_id@,
            message_id: self.message_id@,
            opening: opt_opening(self.opening),
            seen_tools: self.seen_tools@,
            queued_steers: texts_view(self.queued_steers@),
            steering_open: self.steering_open,
            interrupted: self.interrupted,
            prompt_active: self.prompt_active,
            done_current: self.done_current,
        }
    }
}

// ---------------------------------------------------------------------------
// The rules
// ---------------------------------------------------------------------------

/// Whether the session runs, and waits for no announcement to be taken.
pub open spec fn listens(s: SessionView) -> bool {
    s.stage == Stage::Running && s.opening is None
}

/// Whether the session takes an event in its present state.
pub open spec fn accepts(s: SessionView, event: SessionEventView) -> bool {
    match event {
        SessionEventView::Announced => s.stage == Stage::Running && s.opening is Some,
        SessionEventView::PromptDone { .. }
        | SessionEventView::PromptRejected { .. }
        | SessionEventView::PromptLost { .. } => listens(s) && s.prompt_active,
        SessionEventView::Steer { .. } | SessionEventView::SteeringClosed => listens(s)
            && s.steering_open && !s.interrupted,
        SessionEventView::Interrupt => listens(s) && !s.interrupted,
        SessionEventView::ChildInspected { .. } => s.stage == Stage::Inspecting,
        SessionEventView::ConsumerGone => s.stage != Stage::Ended,
        _ => listens(s),
    }
}

/// The ids of the tool calls among some events.
pub open spec fn called_ids(events: Seq<AgentEventView>) -> Set<Seq<char>> {
    Set::new(
        |id: Seq<char>|
            exists|i: int|
                0 <= i < events.len() && (#[trigger] events[i] matches AgentEventView::ToolCall {
                    id: called,
                    ..
                } && called == id),
    )
}

/// The end of a turn, as it is reported.
pub open spec fn done(
    s: SessionView,
    status: DoneStatus,
    error: Option<Seq<char>>,
) -> ActionView {
    ActionView::Emit {
        event: AgentEventView::Done { status, result: None, error, session_id: Some(s.session_id) },
    }
}

/// The session closes. An interrupted one reports so, unless it did already
/// (`reported`); one whose turn was left open has the child inspected first.
pub open spec fn closed(s: SessionView, reported: bool) -> (SessionView, Seq<ActionView>) {
    let ended = SessionView { stage: Stage::Ended, ..s };
    if s.interrupted && !reported {
        (ended, seq![done(s, DoneStatus::Interrupted, None), ActionView::Shutdown])
    } else if !s.interrupted && !s.done_current {
        (SessionView { stage: Stage::Inspecting, ..s }, seq![ActionView::InspectChild])
    } else {
        (ended, seq![ActionView::Shutdown])
    }
}

/// The request for a prompt.
pub open spec fn prompt_request(
    session_id: Seq<char>,
    text: Seq<char>,
    include_session_rule: bool,
) -> ActionView {
    ActionView::Request {
        method: "session/prompt"@,
        params: prompt_object(session_id, text, include_session_rule),
    }
}

/// A steering message announces the next turn, under a new message id. Nothing else
/// changes before the announcement is taken.
pub open spec fn steered(s: SessionView, text: Seq<char>, next_id: Seq<char>) -> (
    SessionView,
    Seq<ActionView>,
) {
    (
        SessionView {
            message_id: next_id,
            opening: Some(OpeningView { text, include_session_rule: false }),
            ..s
        },
        seq![
            ActionView::Emit {
                event: AgentEventView::Steered {
                    assistant_message_id: Some(s.message_id),
                    next_assistant_message_id: Some(next_id),
                },
            },
        ],
    )
}

/// A turn that was announced starts: its prompt is sent, and no tool call was
/// reported in it yet.
pub open spec fn prompted(s: SessionView, turn: OpeningView) -> (SessionView, Seq<ActionView>) {
    (
        SessionView {
            opening: None,
            seen_tools: Set::empty(),
            prompt_active: true,
            done_current: false,
            ..s
        },
        seq![prompt_request(s.session_id, turn.text, turn.include_session_rule)],
    )
}

/// How a turn ended, by the result of its prompt.
pub open spec fn turn_status(s: SessionView, result: JsonView) -> DoneStatus {
    if s.interrupted {
        DoneStatus::Interrupted
    } else if stop_error(result) is Some {
        DoneStatus::Errored
    } else {
        DoneStatus::Completed
    }
}

/// What is reported of a prompt's result: the usage where it is known, then the
/// end of the assistant message, then the end of the turn.
pub open spec fn turn_report(s: SessionView, result: JsonView) -> Seq<ActionView> {
    (match usage_event(result) {
        Some(event) => seq![ActionView::Emit { event }],
        None => Seq::empty(),
    }) + seq![
        ActionView::Emit {
            event: AgentEventView::AssistantMessageCompleted {
                assistant_message_id: s.message_id,
            },
        },
        done(s, turn_status(s, result), stop_error(result)),
    ]
}

/// The state after some actions, with those that led there.
pub open spec fn after(
    actions: Seq<ActionView>,
    next: (SessionView, Seq<ActionView>),
) -> (SessionView, Seq<ActionView>) {
    (next.0, actions + next.1)
}

/// What follows the report of a turn's end: an interrupted session ends; a steer
/// that waits announces the next turn; without one the session waits, as long as
/// there can be another.
pub open spec fn between_turns(s: SessionView, steering_id: Seq<char>) -> (
    SessionView,
    Seq<ActionView>,
) {
    if s.interrupted {
        closed(s, true)
    } else if s.queued_steers.len() > 0 {
        steered(
            SessionView { queued_steers: s.queued_steers.drop_first(), ..s },
            s.queued_steers[0],
            steering_id,
        )
    } else if !s.steering_open {
        closed(s, false)
    } else {
        (s, Seq::empty())
    }
}

/// What an event does to a session, and the actions that it calls for. Up to two
/// message ids are drawn: `closing_id` for what follows a finished assistant
/// message, `steering_id` for a steered turn.
pub open spec fn session_step(
    s: SessionView,
    event: SessionEventView,
    closing_id: Seq<char>,
    steering_id: Seq<char>,
) -> (SessionView, Seq<ActionView>) {
    if !accepts(s, event) {
        (s, Seq::empty())
    } else {
        match event {
            SessionEventView::Announced => prompted(s, s.opening->0),
            SessionEventView::Notification { method, params } => if method == "session/update"@ {
                let events = session_events(payload(params), s.seen_tools);
                (
                    SessionView { seen_tools: s.seen_tools.union(called_ids(events)), ..s },
                    emits(events),
                )
            } else {
                (s, Seq::empty())
            },
            SessionEventView::ServerRequest { id, method } => (
                s,
                seq![
                    ActionView::Reject {
                        id,
                        code: METHOD_NOT_FOUND,
                        message: "unsupported method: "@ + method,
                    },
                ],
            ),
            SessionEventView::Eof => closed(s, false),
            SessionEventView::PromptDone { result } => after(
                turn_report(s, result),
                between_turns(
                    SessionView {
                        message_id: closing_id,
                        prompt_active: false,
                        done_current: true,
                        ..s
                    },
                    steering_id,
                ),
            ),
            SessionEventView::PromptRejected { error } => {
                let idle = SessionView { prompt_active: false, ..s };
                if s.interrupted {
                    after(seq![done(s, DoneStatus::Interrupted, None)], closed(idle, true))
                } else {
                    after(seq![done(s, DoneStatus::Errored, Some(error))], closed(idle, false))
                }
            },
            SessionEventView::PromptLost { error } => after(
                seq![done(s, DoneStatus::Errored, Some("prompt task failed: "@ + error))],
                closed(SessionView { prompt_active: false, ..s }, false),
            ),
            SessionEventView::Steer { text } => if s.prompt_active {
                (SessionView { queued_steers: s.queued_steers.push(text), ..s }, Seq::empty())
            } else {
                steered(s, text, steering_id)
            },
            SessionEventView::SteeringClosed => {
                let shut = SessionView { steering_open: false, ..s };
                if !s.prompt_active && s.queued_steers.len() == 0 {
                    closed(shut, false)
                } else {
                    (shut, Seq::empty())
                }
            },
            SessionEventView::Interrupt => {
                let interrupted = SessionView { interrupted: true, ..s };
                let cancel = ActionView::Notify {
                    method: "session/cancel"@,
                    params: Some(cancel_object(s.session_id)),
                };
                if s.prompt_active {
                    (interrupted, seq![cancel, ActionView::Escalate])
                } else {
                    after(seq![cancel], closed(interrupted, false))
                }
            },
            SessionEventView::ChildInspected { message } => (
                SessionView { stage: Stage::Ended, ..s },
                seq![done(s, DoneStatus::Errored, Some(message)), ActionView::Shutdown],
            ),
            SessionEventView::ConsumerGone => (
                SessionView { stage: Stage::Ended, ..s },
                seq![ActionView::Shutdown],
            ),
        }
    }
}

/// What follows when the consumer refuses an event, with `rest` still to be performed
/// after it: the session ends, and the child is shut down.
pub open spec fn refused(s: SessionView, rest: Seq<ActionView>) -> (SessionView, Seq<ActionView>) {
    after(
        shutdowns(rest),
        session_step(s, SessionEventView::ConsumerGone, Seq::empty(), Seq::empty()),
    )
}

/// Whether an event can draw new message ids.
pub open spec fn draws_ids(event: SessionEventView) -> bool {
    event is PromptDone || event is Steer
}

/// The session at its start: its first turn is announced, and will carry the session
/// rule.
pub open spec fn first_turn(
    session_id: Seq<char>,
    message_id: Seq<char>,
    prompt: Seq<char>,
) -> SessionView {
    SessionView {
        stage: Stage::Running,
        session_id,
        message_id,
        opening: Some(OpeningView { text: prompt, include_session_rule: true }),
        seen_tools: Set::empty(),
        queued_steers: Seq::empty(),
        steering_open: true,
        interrupted: false,
        prompt_active: false,
        done_current: false,
    }
}

/// The model that a run is reported to use: the one asked for, or else the one
/// that the agent said it runs.
pub open spec fn reported_model(
    requested: Option<Seq<char>>,
    current: Option<Seq<char>>,
) -> Seq<char> {
    match requested {
        Some(model) => model,
        None => crate::normalize::or_empty(current),
    }
}

/// The action that opens a run: the session is announced, and with it its first turn.
pub open spec fn opening_actions(
    request: RunRequest,
    open: OpenSessionView,
    message_id: Seq<char>,
) -> Seq<ActionView> {
    seq![
        ActionView::Emit {
            event: AgentEventView::SessionStarted {
                harness: HarnessId::GrokBuild,
                model: reported_model(opt_text(request.model), open.current_model),
                tools: Seq::empty(),
                cwd: open.cwd,
                session_id: open.session_id,
                assistant_message_id: message_id,
            },
        },
    ]
}

/// The id of a tool call; nothing for any other event.
pub open spec fn called_id(event: AgentEventView) -> Set<Seq<char>> {
    match event {
        AgentEventView::ToolCall { id, .. } => set![id],
        _ => Set::empty(),
    }
}

proof fn lemma_called_ids_push(events: Seq<AgentEventView>, event: AgentEventView)
    ensures
        called_ids(events.push(event)) == called_ids(events).union(called_id(event)),
{
    let more = events.push(event);
    assert forall|id: Seq<char>| #[trigger]
        called_ids(more).contains(id) == called_ids(events).union(called_id(event)).contains(id) by {
        if called_ids(more).contains(id) {
            let i = choose|i: int|
                0 <= i < more.len() && (#[trigger] more[i] matches AgentEventView::ToolCall {
                    id: called,
                    ..
                } && called == id);
            if i < events.len() {
                assert(events[i] == more[i]);
            }
        }
        if called_ids(events).contains(id) {
            let i = choose|i: int|
                0 <= i < events.len() && (#[trigger] events[i] matches AgentEventView::ToolCall {
                    id: called,
                    ..
                } && called == id);
            assert(more[i] == events[i]);
        }
        if called_id(event).contains(id) {
            assert(more[events.len() as int] == event);
        }
    }
    assert(called_ids(more) =~= called_ids(events).union(called_id(event)));
}

// ---------------------------------------------------------------------------
// The machine
// ---------------------------------------------------------------------------

impl Session {
    /// Starts the session under the given message id.
    pub fn start_with_id(request: &RunRequest, open: OpenSession, message_id: String) -> (started: (
        Session,
        Vec<Action>,
    ))
        ensures
            started.0@ == first_turn(open.session_id@, message_id@, request.prompt@),
            actions_view(started.1@) == opening_actions(*request, open@, message_id@),
    {
        let model = match &request.model {
            Some(model) => model.clone(),
            None => match open.current_model {
                Some(model) => model,
                None => String::new(),
            },
        };
        let tools: Vec<String> = Vec::new();
        let mut actions: Vec<Action> = Vec::new();
        let event = AgentEvent::SessionStarted {
            harness: HarnessId::GrokBuild,
            model,
            tools,
            cwd: open.cwd,
            session_id: open.session_id.clone(),
            assistant_message_id: message_id.clone(),
        };
        actions.push(Action::Emit { event });
        let opening = Opening { text: request.prompt.clone(), include_session_rule: true };
        let session = Session {
            stage: Stage::Running,
            session_id: open.session_id,
            message_id,
            opening: Some(opening),
            seen_tools: SeenTools::new(),
            queued_steers: VecDeque::new(),
            steering_open: true,
            interrupted: false,
            prompt_active: false,
            done_current: false,
        };
        proof {
            assert(texts_view(tools@) =~= Seq::empty());
            assert(texts_view(session.queued_steers@) =~= Seq::empty());
            assert(actions_view(actions@) =~= opening_actions(*request, open@, message_id@));
        }
        (session, actions)
    }

    /// Starts the session under a fresh message id.
    pub fn start(request: &RunRequest, open: OpenSession) -> (started: (Session, Vec<Action>))
        ensures
            is_message_id(started.0@.message_id),
            started.0@ == first_turn(
                open.session_id@,
                started.0@.message_id,
                request.prompt@,
            ),
            actions_view(started.1@) == opening_actions(
                *request,
                open@,
                started.0@.message_id,
            ),
    {
        Self::start_with_id(request, open, new_message_id())
    }

    fn done(&self, status: DoneStatus, error: Option<String>) -> (action: Action)
        ensures
            action@ == done(self@, status, opt_text(error)),
    {
        Action::Emit {
            event: AgentEvent::Done {
                status,
                result: None,
                error,
                session_id: Some(self.session_id.clone()),
            },
        }
    }

    fn close(&mut self, reported: bool) -> (actions: Vec<Action>)
        ensures
            (final(self)@, actions_view(actions@)) == closed(old(self)@, reported),
    {
        let mut actions: Vec<Action> = Vec::new();
        if self.interrupted && !reported {
            actions.push(self.done(DoneStatus::Interrupted, None));
            actions.push(Action::Shutdown);
            self.stage = Stage::Ended;
        } else if !self.interrupted && !self.done_current {
            actions.push(Action::InspectChild);
            self.stage = Stage::Inspecting;
        } else {
            actions.push(Action::Shutdown);
            self.stage = Stage::Ended;
        }
        assert(actions_view(actions@) =~= closed(old(self)@, reported).1);
        actions
    }

    fn steer(&mut self, text: String, next_id: String) -> (actions: Vec<Action>)
        ensures
            (final(self)@, actions_view(actions@)) == steered(old(self)@, text@, next_id@),
    {
        let (prev, next) = rotate_to(&mut self.message_id, next_id);
        self.opening = Some(Opening { text, include_session_rule: false });
        let mut actions: Vec<Action> = Vec::new();
        let event = AgentEvent::Steered {
            assistant_message_id: Some(prev),
            next_assistant_message_id: Some(next),
        };
        actions.push(Action::Emit { event });
        assert(actions_view(actions@) =~= steered(old(self)@, text@, next_id@).1);
        actions
    }

    fn prompt(&mut self) -> (actions: Vec<Action>)
        requires
            old(self)@.opening is Some,
        ensures
            (final(self)@, actions_view(actions@)) == prompted(old(self)@, old(self)@.opening->0),
    {
        let mut actions: Vec<Action> = Vec::new();
        let mut opening: Option<Opening> = None;
        std::mem::swap(&mut self.opening, &mut opening);
        if let Some(turn) = opening {
            let params = prompt_params(
                self.session_id.as_str(),
                turn.text.as_str(),
                turn.include_session_rule,
            );
            actions.push(Action::Request { method: "session/prompt".to_owned(), params });
        }
        self.seen_tools.clear();
        self.prompt_active = true;
        self.done_current = false;
        assert(actions_view(actions@) =~= prompted(old(self)@, old(self)@.opening->0).1);
        actions
    }

    fn notified(&mut self, params: &Json) -> (actions: Vec<Action>)
        ensures
            ({
                let events = session_events(payload(params@), old(self)@.seen_tools);
                &&& final(self)@ == (SessionView {
                    seen_tools: old(self)@.seen_tools.union(called_ids(events)),
                    ..old(self)@
                })
                &&& actions_view(actions@) == emits(events)
            }),
    {
        let mut events = map_session_update(update_payload(params), &self.seen_tools);
        let ghost mapped = events@;
        let ghost all = events_view(mapped);
        let ghost mut k: int = 0;
        let mut actions: Vec<Action> = Vec::new();
        proof {
            assert(mapped.skip(0) =~= mapped);
            assert(self@.seen_tools =~= old(self)@.seen_tools.union(called_ids(all.take(0))));
            assert(actions_view(actions@) =~= emits(all.take(0)));
        }
        while events.len() > 0
            invariant
                0 <= k <= mapped.len(),
                events@ == mapped.skip(k),
                all == events_view(mapped),
                self@ == (SessionView {
                    seen_tools: old(self)@.seen_tools.union(called_ids(all.take(k))),
                    ..old(self)@
                }),
                actions_view(actions@) == emits(all.take(k)),
            decreases events.len(),
        {
            let ghost performed = actions@;
            let event = events.remove(0);
            if let AgentEvent::ToolCall { id, .. } = &event {
                self.seen_tools.insert(id.clone());
            }
            proof {
                assert(event == mapped[k]);
                assert(all[k] == event@);
                assert(all.take(k + 1) =~= all.take(k).push(event@));
                lemma_called_ids_push(all.take(k), event@);
                assert(self@.seen_tools =~= old(self)@.seen_tools.union(
                    called_ids(all.take(k + 1)),
                ));
            }
            actions.push(Action::Emit { event });
            proof {
                assert(actions_view(actions@) =~= actions_view(performed).push(
                    ActionView::Emit { event: event@ },
                ));
                assert(emits(all.take(k + 1)) =~= emits(all.take(k)).push(
                    ActionView::Emit { event: event@ },
                ));
                assert(events@ =~= mapped.skip(k + 1));
                k = k + 1;
            }
        }
        assert(all.take(k) =~= all);
        actions
    }

    fn prompt_done(&mut self, result: &Json, closing_id: String, steering_id: String) -> (actions:
        Vec<Action>)
        ensures
            (final(self)@, actions_view(actions@)) == after(
                turn_report(old(self)@, result@),
                between_turns(
                    SessionView {
                        message_id: closing_id@,
                        prompt_active: false,
                        done_current: true,
                        ..old(self)@
                    },
                    steering_id@,
                ),
            ),
    {
        let mut actions: Vec<Action> = Vec::new();
        match usage_from_prompt_result(result) {
            Some(event) => {
                actions.push(Action::Emit { event });
            },
            None => {},
        }
        let error = stop_reason_error(result);
        let status = if self.interrupted {
            DoneStatus::Interrupted
        } else if error.is_some() {
            DoneStatus::Errored
        } else {
            DoneStatus::Completed
        };
        // Close the assistant message before the turn.
        let (prev, _next) = rotate_to(&mut self.message_id, closing_id);
        let event = AgentEvent::AssistantMessageCompleted { assistant_message_id: prev };
        actions.push(Action::Emit { event });
        actions.push(self.done(status, error));
        self.prompt_active = false;
        self.done_current = true;
        let ghost reported = actions@;
        assert(actions_view(reported) =~= turn_report(old(self)@, result@));
        let mut rest = self.between(steering_id);
        proof {
            lemma_actions_concat(reported, rest@);
        }
        actions.append(&mut rest);
        actions
    }

    fn between(&mut self, steering_id: String) -> (actions: Vec<Action>)
        ensures
            (final(self)@, actions_view(actions@)) == between_turns(old(self)@, steering_id@),
    {
        if self.interrupted {
            return self.close(true);
        }
        let ghost queued = self.queued_steers@;
        match self.queued_steers.pop_front() {
            Some(text) => {
                assert(texts_view(self.queued_steers@) =~= texts_view(queued).drop_first());
                self.steer(text, steering_id)
            },
            None => if self.steering_open {
                let actions: Vec<Action> = Vec::new();
                assert(actions_view(actions@) =~= Seq::empty());
                actions
            } else {
                self.close(false)
            },
        }
    }

    /// Ends the turn with an event, and then the session.
    fn end_with(&mut self, last: Action, reported: bool) -> (actions: Vec<Action>)
        ensures
            (final(self)@, actions_view(actions@)) == after(
                seq![last@],
                closed(SessionView { prompt_active: false, ..old(self)@ }, reported),
            ),
    {
        self.prompt_active = false;
        let mut actions: Vec<Action> = Vec::new();
        actions.push(last);
        let ghost first = actions@;
        assert(actions_view(first) =~= seq![last@]);
        let mut rest = self.close(reported);
        proof {
            lemma_actions_concat(first, rest@);
        }
        actions.append(&mut rest);
        actions
    }

    fn interrupt(&mut self) -> (actions: Vec<Action>)
        requires
            accepts(old(self)@, SessionEventView::Interrupt),
        ensures
            (final(self)@, actions_view(actions@)) == session_step(
                old(self)@,
                SessionEventView::Interrupt,
                Seq::empty(),
                Seq::empty(),
            ),
    {
        self.interrupted = true;
        let mut actions: Vec<Action> = Vec::new();
        actions.push(
            Action::Notify {
                method: "session/cancel".to_owned(),
                params: Some(cancel_params(self.session_id.as_str())),
            },
        );
        let ghost cancel = actions@;
        if self.prompt_active {
            actions.push(Action::Escalate);
            assert(actions_view(actions@) =~= session_step(
                old(self)@,
                SessionEventView::Interrupt,
                Seq::empty(),
                Seq::empty(),
            ).1);
            actions
        } else {
            let mut rest = self.close(false);
            proof {
                lemma_actions_concat(cancel, rest@);
                assert(actions_view(cancel) =~= seq![cancel[0]@]);
            }
            actions.append(&mut rest);
            actions
        }
    }

    /// Whether the session takes an event in its present state.
    pub fn accepts(&self, event: &SessionEvent) -> (taken: bool)
        ensures
            taken == accepts(self@, event@),
    {
        match event {
            SessionEvent::Announced => self.announces(),
            SessionEvent::PromptDone { .. }
            | SessionEvent::PromptRejected { .. }
            | SessionEvent::PromptLost { .. } => self.listens() && self.prompt_active,
            SessionEvent::Steer { .. } | SessionEvent::SteeringClosed => self.listens()
                && self.steering_open && !self.interrupted,
            SessionEvent::Interrupt => self.listens() && !self.interrupted,
            SessionEvent::ChildInspected { .. } => self.stage == Stage::Inspecting,
            SessionEvent::ConsumerGone => self.stage != Stage::Ended,
            _ => self.listens(),
        }
    }

    fn listens(&self) -> (listening: bool)
        ensures
            listening == listens(self@),
    {
        self.stage == Stage::Running && self.opening.is_none()
    }

    /// Whether a turn was announced, and the announcement is still to be taken.
    pub fn announces(&self) -> (announcing: bool)
        ensures
            announcing == accepts(self@, SessionEventView::Announced),
    {
        self.stage == Stage::Running && self.opening.is_some()
    }

    /// How far the session has come.
    pub fn stage(&self) -> (stage: Stage)
        ensures
            stage == self@.stage,
    {
        self.stage
    }

    /// Whether an answer to a prompt is awaited.
    pub fn awaits_prompt(&self) -> (awaited: bool)
        ensures
            awaited == (listens(self@) && self@.prompt_active),
    {
        self.listens() && self.prompt_active
    }

    /// Whether steering is listened to.
    pub fn awaits_steering(&self) -> (awaited: bool)
        ensures
            awaited == accepts(self@, SessionEventView::SteeringClosed),
    {
        self.listens() && self.steering_open && !self.interrupted
    }

    /// Whether an interrupt is listened to.
    pub fn awaits_interrupt(&self) -> (awaited: bool)
        ensures
            awaited == accepts(self@, SessionEventView::Interrupt),
    {
        self.listens() && !self.interrupted
    }

    /// Takes an event, with the message ids that it may need. An event that the
    /// session does not take in its present state does nothing.
    pub fn on_event(
        &mut self,
        event: SessionEvent,
        closing_id: String,
        steering_id: String,
    ) -> (actions: Vec<Action>)
        ensures
            (final(self)@, actions_view(actions@)) == session_step(
                old(self)@,
                event@,
                closing_id@,
                steering_id@,
            ),
    {
        let mut actions: Vec<Action> = Vec::new();
        assert(actions_view(actions@) =~= Seq::empty());
        if !self.accepts(&event) {
            return actions;
        }
        let ghost expected = session_step(old(self)@, event@, closing_id@, steering_id@);
        match event {
            SessionEvent::Announced => self.prompt(),
            SessionEvent::Notification { method, params } => {
                if str_eq(method.as_str(), "session/update") {
                    return self.notified(&params);
                }
                // Other notifications are tolerated.
                actions
            },
            SessionEvent::ServerRequest { id, method } => {
                // The agent owns its tools; rejecting what it asks of the host keeps
                // it from waiting.
                let message = "unsupported method: ".to_owned().concat(method.as_str());
                actions.push(Action::Reject { id, code: METHOD_NOT_FOUND, message });
                assert(actions_view(actions@) =~= expected.1);
                actions
            },
            SessionEvent::Eof => self.close(false),
            SessionEvent::PromptDone { result } => self.prompt_done(
                &result,
                closing_id,
                steering_id,
            ),
            SessionEvent::PromptRejected { error } => {
                if self.interrupted {
                    let last = self.done(DoneStatus::Interrupted, None);
                    self.end_with(last, true)
                } else {
                    let last = self.done(DoneStatus::Errored, Some(error));
                    self.end_with(last, false)
                }
            },
            SessionEvent::PromptLost { error } => {
                let message = "prompt task failed: ".to_owned().concat(error.as_str());
                let last = self.done(DoneStatus::Errored, Some(message));
                self.end_with(last, false)
            },
            SessionEvent::Steer { text } => {
                if self.prompt_active {
                    let ghost queued = self.queued_steers@;
                    self.queued_steers.push_back(text);
                    assert(texts_view(self.queued_steers@) =~= texts_view(queued).push(text@));
                    actions
                } else {
                    self.steer(text, steering_id)
                }
            },
            SessionEvent::SteeringClosed => {
                self.steering_open = false;
                if !self.prompt_active && self.queued_steers.len() == 0 {
                    self.close(false)
                } else {
                    actions
                }
            },
            SessionEvent::Interrupt => self.interrupt(),
            SessionEvent::ChildInspected { message } => {
                actions.push(self.done(DoneStatus::Errored, Some(message)));
                actions.push(Action::Shutdown);
                self.stage = Stage::Ended;
                assert(actions_view(actions@) =~= expected.1);
                actions
            },
            SessionEvent::ConsumerGone => {
                actions.push(Action::Shutdown);
                self.stage = Stage::Ended;
                assert(actions_view(actions@) =~= expected.1);
                actions
            },
        }
    }

    /// The consumer refused an event; `rest` are the actions that were to follow it.
    /// What comes out is performed in their place.
    pub fn on_refusal(&mut self, rest: &Vec<Action>) -> (actions: Vec<Action>)
        ensures
            (final(self)@, actions_view(actions@)) == refused(old(self)@, actions_view(rest@)),
    {
        let mut actions = undelivered(rest);
        let ghost kept = actions@;
        proof {
            reveal_strlit("");
            assert(""@ =~= Seq::empty());
        }
        let mut last = self.on_event(
            SessionEvent::ConsumerGone,
            "".to_owned(),
            "".to_owned(),
        );
        proof {
            lemma_actions_concat(kept, last@);
        }
        actions.append(&mut last);
        actions
    }

    /// Takes an event, drawing fresh message ids where it may need them.
    pub fn advance(&mut self, event: SessionEvent) -> (actions: Vec<Action>)
        ensures
            exists|closing_id: Seq<char>, steering_id: Seq<char>|
                {
                    &&& draws_ids(event@) ==> is_message_id(closing_id) && is_message_id(
                        steering_id,
                    )
                    &&& (final(self)@, actions_view(actions@)) == #[trigger] session_step(
                        old(self)@,
                        event@,
                        closing_id,
                        steering_id,
                    )
                },
    {
        let draws = match &event {
            SessionEvent::PromptDone { .. } | SessionEvent::Steer { .. } => true,
            _ => false,
        };
        if draws {
            self.on_event(event, new_message_id(), new_message_id())
        } else {
            self.on_event(event, String::new(), String::new())
        }
    }
}

} // verus!
