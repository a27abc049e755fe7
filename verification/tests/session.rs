//! Whole runs, from the handshake to the end of the session, with the agent played
//! by the tests.

use grok_harness::action::{Action, METHOD_NOT_FOUND};
use grok_harness::child::spawn_error;
use grok_harness::discovery::Discovery;
use grok_harness::handshake::{
    session_cwd, setup_failed, setup_interrupted, Handshake, HandshakeOutcome, HandshakeStage,
    OpenSession,
};
use grok_harness::harness::GrokBuildHarness;
use grok_harness::json::{Json, JsonNumber, JsonObject};
use grok_harness::message_id::rotate;
use grok_harness::proto::{
    AgentEvent, DoneStatus, HarnessError, HarnessId, ReasoningLevel, RunRequest, SandboxLevel,
    SteeringMode, ToolCall,
};
use grok_harness::requests::{
    cancel_params, initialize_params, load_session_params, new_session_params, prompt_params,
    ASK_USER_QUESTION_SESSION_RULE,
};
use grok_harness::session::{Session, SessionEvent, Stage};

fn text(s: &str) -> Json {
    Json::text(s)
}

fn number(n: u64) -> Json {
    Json::Number(JsonNumber::PosInt(n))
}

fn obj(members: Vec<(&str, Json)>) -> Json {
    let mut object = JsonObject::new();
    for (name, value) in members {
        object.insert(name.to_owned(), value);
    }
    Json::object(object)
}

fn request(prompt: &str) -> RunRequest {
    RunRequest {
        prompt: prompt.into(),
        model: Some("grok-4.5".into()),
        reasoning: Some(ReasoningLevel::Low),
        cwd: String::new(),
        sandbox: SandboxLevel::WorkspaceWrite,
        resume: None,
    }
}

/// The agent's reply to `initialize`.
fn greeting() -> Json {
    obj(vec![(
        "_meta",
        obj(vec![(
            "modelState",
            obj(vec![
                ("currentModelId", text("grok-4.5")),
                (
                    "availableModels",
                    Json::array(vec![obj(vec![
                        ("modelId", text("grok-4.5")),
                        ("name", text("Grok 4.5")),
                    ])]),
                ),
            ]),
        )]),
    )])
}

fn session_named(id: &str) -> Json {
    obj(vec![("sessionId", text(id))])
}

fn refusal() -> HarnessError {
    HarnessError::Protocol("no such session".into())
}

fn open_session() -> OpenSession {
    OpenSession {
        session_id: "sess-1".into(),
        cwd: "/tmp".into(),
        current_model: None,
    }
}

/// A session whose first prompt was sent, under known message ids.
fn started(prompt: &str) -> Session {
    let mut session = Session::start_with_id(&request(prompt), open_session(), "m0".into()).0;
    session.advance(SessionEvent::Announced);
    session
}

fn update(members: Vec<(&str, Json)>) -> SessionEvent {
    SessionEvent::Notification {
        method: "session/update".into(),
        params: obj(vec![("update", obj(members))]),
    }
}

fn message(words: &str) -> SessionEvent {
    update(vec![
        ("sessionUpdate", text("agent_message_chunk")),
        ("content", obj(vec![("text", text(words))])),
    ])
}

fn done_well() -> SessionEvent {
    SessionEvent::PromptDone {
        result: obj(vec![("stopReason", text("end_turn"))]),
    }
}

fn steer(words: &str) -> SessionEvent {
    SessionEvent::Steer {
        text: words.into(),
    }
}

fn done(status: DoneStatus, error: Option<&str>) -> Action {
    Action::Emit {
        event: AgentEvent::Done {
            status,
            result: None,
            error: error.map(str::to_owned),
            session_id: Some("sess-1".into()),
        },
    }
}

fn completed(id: &str) -> Action {
    Action::Emit {
        event: AgentEvent::AssistantMessageCompleted {
            assistant_message_id: id.into(),
        },
    }
}

fn steered(from: &str, to: &str) -> Action {
    Action::Emit {
        event: AgentEvent::Steered {
            assistant_message_id: Some(from.into()),
            next_assistant_message_id: Some(to.into()),
        },
    }
}

fn prompt(words: &str) -> Action {
    Action::Request {
        method: "session/prompt".into(),
        params: prompt_params("sess-1", words, false),
    }
}

fn cancel() -> Action {
    Action::Notify {
        method: "session/cancel".into(),
        params: Some(cancel_params("sess-1")),
    }
}

/// The events among some actions.
fn emitted(actions: Vec<Action>) -> Vec<AgentEvent> {
    let mut events = Vec::new();
    for action in actions {
        if let Action::Emit { event } = action {
            events.push(event);
        }
    }
    events
}

/// Plays a run: the replies of the handshake, then the events of the session.
fn play(
    request: RunRequest,
    replies: Vec<Result<Json, HarnessError>>,
    script: Vec<SessionEvent>,
) -> Vec<AgentEvent> {
    let cwd = session_cwd(&request.cwd, Some("/here".into()));
    let (mut handshake, _) = Handshake::begin(request.resume.clone(), cwd, "0.1.0");
    let mut open = None;
    for reply in replies {
        match handshake.on_reply(reply) {
            HandshakeOutcome::Continue(_) => {}
            HandshakeOutcome::Opened(session) => open = Some(session),
            HandshakeOutcome::Failed(error) => panic!("{error:?}"),
        }
    }
    let (mut session, opening) = Session::start(&request, open.expect("open session"));
    let mut events = emitted(opening);
    session.advance(SessionEvent::Announced);
    for event in script {
        events.extend(emitted(session.advance(event)));
        if session.announces() {
            session.advance(SessionEvent::Announced);
        }
    }
    assert_eq!(session.stage(), Stage::Ended);
    events
}

fn starts(events: &[AgentEvent]) -> Vec<(&str, &str, &str)> {
    events
        .iter()
        .filter_map(|e| match e {
            AgentEvent::SessionStarted {
                model,
                cwd,
                session_id,
                ..
            } => Some((model.as_str(), cwd.as_str(), session_id.as_str())),
            _ => None,
        })
        .collect()
}

#[test]
fn happy_path_maps_deltas_tools_usage_and_done() {
    let mut req = request("scenario:happy");
    req.cwd = "/tmp".into();
    let tool = |name: &str| obj(vec![("x.ai/tool", obj(vec![("name", text(name))]))]);
    let events = play(
        req,
        vec![Ok(greeting()), Ok(session_named("sess-1"))],
        vec![
            SessionEvent::SteeringClosed,
            update(vec![
                ("sessionUpdate", text("agent_thought_chunk")),
                ("content", obj(vec![("text", text("thinking"))])),
            ]),
            message("Hello"),
            update(vec![
                ("sessionUpdate", text("tool_call")),
                ("toolCallId", text("call-1")),
                ("rawInput", obj(vec![("target_directory", text("/tmp"))])),
                ("_meta", tool("list_dir")),
            ]),
            update(vec![
                ("sessionUpdate", text("tool_call_update")),
                ("toolCallId", text("call-1")),
                ("title", text("List `/tmp`")),
            ]),
            update(vec![
                ("sessionUpdate", text("tool_call_update")),
                ("toolCallId", text("call-1")),
                ("status", text("completed")),
            ]),
            update(vec![
                ("sessionUpdate", text("tool_call")),
                ("toolCallId", text("call-2")),
                ("rawInput", obj(vec![("command", text("false"))])),
                ("_meta", tool("run_terminal_command")),
            ]),
            update(vec![
                ("sessionUpdate", text("tool_call_update")),
                ("toolCallId", text("call-2")),
                ("status", text("failed")),
            ]),
            SessionEvent::PromptDone {
                result: obj(vec![
                    ("stopReason", text("end_turn")),
                    (
                        "_meta",
                        obj(vec![(
                            "usage",
                            obj(vec![
                                ("inputTokens", number(42)),
                                ("outputTokens", number(7)),
                            ]),
                        )]),
                    ),
                ]),
            },
        ],
    );

    assert_eq!(starts(&events), vec![("grok-4.5", "/tmp", "sess-1")]);
    assert!(matches!(
        &events[0],
        AgentEvent::SessionStarted {
            harness: HarnessId::GrokBuild,
            ..
        }
    ));
    assert!(events.contains(&AgentEvent::ReasoningDelta {
        text: "thinking".into()
    }));
    assert!(events.contains(&AgentEvent::TextDelta {
        text: "Hello".into()
    }));

    // list_dir opens once despite the enrichment.
    assert_eq!(
        events
            .iter()
            .filter(|e| matches!(e, AgentEvent::ToolCall { id, .. } if id == "call-1"))
            .count(),
        1,
        "tool enrichment must not re-emit ToolCall: {events:?}"
    );
    assert!(events.contains(&AgentEvent::ToolCall {
        id: "call-1".into(),
        call: ToolCall::Glob {
            pattern: "/tmp".into()
        },
    }));
    assert!(events.contains(&AgentEvent::ToolResult {
        id: "call-1".into(),
        is_error: false
    }));
    assert!(events.contains(&AgentEvent::ToolCall {
        id: "call-2".into(),
        call: ToolCall::Exec {
            command: "false".into()
        },
    }));
    assert!(events.contains(&AgentEvent::ToolResult {
        id: "call-2".into(),
        is_error: true
    }));
    assert!(events.contains(&AgentEvent::Usage {
        input_tokens: 42,
        output_tokens: 7
    }));
    assert!(events.iter().any(|e| matches!(
        e,
        AgentEvent::Done {
            status: DoneStatus::Completed,
            session_id: Some(s),
            ..
        } if s == "sess-1"
    )));
}

#[test]
fn turn_boundary_steer_starts_follow_up_prompt() {
    let events = play(
        request("scenario:steer"),
        vec![Ok(greeting()), Ok(session_named("sess-1"))],
        vec![
            message("first"),
            done_well(),
            steer("redirect please"),
            SessionEvent::SteeringClosed,
            message("steered"),
            done_well(),
        ],
    );
    assert!(
        events
            .iter()
            .any(|e| matches!(e, AgentEvent::Steered { .. })),
        "expected Steered: {events:?}"
    );
    assert!(events.contains(&AgentEvent::TextDelta {
        text: "first".into()
    }));
    assert!(events.contains(&AgentEvent::TextDelta {
        text: "steered".into()
    }));
    assert_eq!(
        events
            .iter()
            .filter(|e| matches!(
                e,
                AgentEvent::Done {
                    status: DoneStatus::Completed,
                    ..
                }
            ))
            .count(),
        2,
        "two completed turns: {events:?}"
    );
}

#[test]
fn interrupt_sends_cancel_and_finishes_interrupted() {
    let mut session = started("scenario:interrupt");
    assert_eq!(
        emitted(session.advance(message("partial"))),
        vec![AgentEvent::TextDelta {
            text: "partial".into()
        }]
    );
    assert_eq!(
        session.advance(SessionEvent::Interrupt),
        vec![cancel(), Action::Escalate]
    );
    assert!(!session.awaits_interrupt());
    assert!(!session.awaits_steering());
    let rest = emitted(session.advance(done_well()));
    assert!(
        rest.iter().any(|e| matches!(
            e,
            AgentEvent::Done {
                status: DoneStatus::Interrupted,
                ..
            }
        )),
        "expected Interrupted: {rest:?}"
    );
    assert_eq!(session.stage(), Stage::Ended);
}

#[test]
fn resume_falls_back_to_session_new_on_load_failure() {
    let mut req = request("scenario:happy");
    req.resume = Some("resume-fail".into());
    let events = play(
        req,
        vec![
            Ok(greeting()),
            Err(refusal()),
            Ok(session_named("sess-fresh")),
        ],
        vec![SessionEvent::SteeringClosed, done_well()],
    );
    assert!(events.iter().any(|e| matches!(
        e,
        AgentEvent::SessionStarted {
            session_id,
            ..
        } if session_id == "sess-fresh"
    )));
}

#[test]
fn resume_load_success_uses_loaded_session() {
    let mut req = request("scenario:resume-ok");
    req.resume = Some("sess-keep".into());
    let events = play(
        req,
        vec![Ok(greeting()), Ok(session_named("sess-resumed"))],
        vec![
            SessionEvent::SteeringClosed,
            message("resumed"),
            done_well(),
        ],
    );
    assert!(events.iter().any(|e| matches!(
        e,
        AgentEvent::SessionStarted {
            session_id,
            ..
        } if session_id == "sess-resumed"
    )));
    assert!(events.contains(&AgentEvent::TextDelta {
        text: "resumed".into()
    }));
}

#[test]
fn models_discovers_from_initialize_model_state() {
    let models = GrokBuildHarness::new()
        .models(Discovery::Initialized(greeting()))
        .expect("models");
    assert_eq!(models.len(), 1);
    assert_eq!(models[0].id, "grok-4.5");
    assert_eq!(models[0].label, "Grok 4.5");
    assert!(models[0].reasoning_levels.contains(&ReasoningLevel::Low));
    assert!(models[0].reasoning_levels.contains(&ReasoningLevel::High));
}

#[test]
fn run_uses_initialized_current_model_when_unspecified() {
    let mut req = request("scenario:happy");
    req.model = None;
    let events = play(
        req,
        vec![Ok(greeting()), Ok(session_named("sess-1"))],
        vec![SessionEvent::SteeringClosed, done_well()],
    );
    assert!(
        events.iter().any(|event| matches!(
            event,
            AgentEvent::SessionStarted { model, .. } if model == "grok-4.5"
        )),
        "initialized model should populate SessionStarted: {events:?}"
    );
}

#[test]
fn missing_binary_is_not_installed() {
    let missing = GrokBuildHarness::new().with_executable("/nonexistent/grok-nowhere");
    let err = missing
        .models(Discovery::Failed(spawn_error(
            true,
            "/nonexistent/grok-nowhere".into(),
            "no such file".into(),
        )))
        .expect_err("not installed");
    assert!(matches!(err, HarnessError::NotInstalled(_)), "{err:?}");
    assert_eq!(missing.id(), HarnessId::GrokBuild);
    assert_eq!(missing.display_name(), "Grok Build");
    assert_eq!(missing.steering_mode(), SteeringMode::TurnBoundary);
}

// ---------------------------------------------------------------------------
// The handshake
// ---------------------------------------------------------------------------

#[test]
fn handshake_asks_in_order() {
    let (mut handshake, first) = Handshake::begin(Some("old".into()), "/w".into(), "1.2.3");
    assert_eq!(
        first,
        vec![Action::Request {
            method: "initialize".into(),
            params: initialize_params("1.2.3"),
        }]
    );
    assert_eq!(handshake.stage(), HandshakeStage::Initializing);
    assert_eq!(
        handshake.on_reply(Ok(greeting())),
        HandshakeOutcome::Continue(vec![
            Action::Notify {
                method: "notifications/initialized".into(),
                params: None,
            },
            Action::Request {
                method: "session/load".into(),
                params: load_session_params("old", "/w"),
            },
        ])
    );
    assert_eq!(handshake.stage(), HandshakeStage::Loading);
    assert_eq!(
        handshake.on_reply(Err(refusal())),
        HandshakeOutcome::Continue(vec![Action::Request {
            method: "session/new".into(),
            params: new_session_params("/w"),
        }])
    );
    assert_eq!(
        handshake.on_reply(Ok(session_named("new"))),
        HandshakeOutcome::Opened(OpenSession {
            session_id: "new".into(),
            cwd: "/w".into(),
            current_model: Some("grok-4.5".into()),
        })
    );
    assert_eq!(handshake.stage(), HandshakeStage::Closed);
    assert_eq!(
        handshake.on_reply(Ok(Json::Null)),
        HandshakeOutcome::Continue(vec![])
    );
}

#[test]
fn nothing_is_loaded_without_resume() {
    let (mut handshake, _) = Handshake::begin(None, "/w".into(), "1");
    assert_eq!(
        handshake.on_reply(Ok(Json::Null)),
        HandshakeOutcome::Continue(vec![
            Action::Notify {
                method: "notifications/initialized".into(),
                params: None,
            },
            Action::Request {
                method: "session/new".into(),
                params: new_session_params("/w"),
            },
        ])
    );
    assert_eq!(handshake.stage(), HandshakeStage::Creating);
}

#[test]
fn loaded_session_keeps_its_id() {
    let (mut handshake, _) = Handshake::begin(Some("old".into()), "/w".into(), "1");
    handshake.on_reply(Ok(Json::Null));
    assert_eq!(
        handshake.on_reply(Ok(obj(vec![]))),
        HandshakeOutcome::Opened(OpenSession {
            session_id: "old".into(),
            cwd: "/w".into(),
            current_model: None,
        })
    );
}

#[test]
fn handshake_failures() {
    let (mut handshake, _) = Handshake::begin(None, "/w".into(), "1");
    assert_eq!(
        handshake.on_reply(Err(HarnessError::Io("gone".into()))),
        HandshakeOutcome::Failed(HarnessError::Io("gone".into()))
    );

    let (mut handshake, _) = Handshake::begin(None, "/w".into(), "1");
    handshake.on_reply(Ok(greeting()));
    assert_eq!(
        handshake.on_reply(Err(refusal())),
        HandshakeOutcome::Failed(refusal())
    );

    let (mut handshake, _) = Handshake::begin(None, "/w".into(), "1");
    handshake.on_reply(Ok(greeting()));
    assert_eq!(
        handshake.on_reply(Ok(session_named(""))),
        HandshakeOutcome::Failed(HarnessError::Protocol(
            "session/new: missing sessionId".into()
        ))
    );
}

#[test]
fn failed_setup_is_reported_without_a_session() {
    let end = |status: DoneStatus, error: Option<&str>| {
        vec![
            Action::Emit {
                event: AgentEvent::Done {
                    status,
                    result: None,
                    error: error.map(str::to_owned),
                    session_id: None,
                },
            },
            Action::Shutdown,
        ]
    };
    assert_eq!(
        setup_failed("broken".into()),
        end(DoneStatus::Errored, Some("broken"))
    );
    assert_eq!(setup_interrupted(), end(DoneStatus::Interrupted, None));
}

#[test]
fn working_directory_falls_back() {
    assert_eq!(session_cwd("/asked", Some("/here".into())), "/asked");
    assert_eq!(session_cwd("", Some("/here".into())), "/here");
    assert_eq!(session_cwd("", None), ".");
}

// ---------------------------------------------------------------------------
// The session
// ---------------------------------------------------------------------------

#[test]
fn first_prompt_carries_the_session_rule() {
    let (mut session, actions) =
        Session::start_with_id(&request("do it"), open_session(), "m0".into());
    assert_eq!(
        actions,
        vec![Action::Emit {
            event: AgentEvent::SessionStarted {
                harness: HarnessId::GrokBuild,
                model: "grok-4.5".into(),
                tools: vec![],
                cwd: "/tmp".into(),
                session_id: "sess-1".into(),
                assistant_message_id: "m0".into(),
            },
        }]
    );
    assert!(session.announces());
    assert!(!session.awaits_prompt());
    let block = |words: &str| obj(vec![("type", text("text")), ("text", text(words))]);
    assert_eq!(
        session.advance(SessionEvent::Announced),
        vec![Action::Request {
            method: "session/prompt".into(),
            params: obj(vec![
                ("sessionId", text("sess-1")),
                (
                    "prompt",
                    Json::array(vec![
                        block(ASK_USER_QUESTION_SESSION_RULE),
                        block("do it"),
                    ]),
                ),
            ]),
        }]
    );
    assert!(!session.announces());
    assert!(session.awaits_prompt());
}

#[test]
fn steers_wait_and_are_delivered_in_order() {
    let mut session = started("go");
    assert_eq!(session.advance(steer("one")), vec![]);
    assert_eq!(session.advance(steer("two")), vec![]);
    assert_eq!(session.advance(SessionEvent::SteeringClosed), vec![]);
    assert_eq!(
        session.on_event(done_well(), "m1".into(), "m2".into()),
        vec![
            completed("m0"),
            done(DoneStatus::Completed, None),
            steered("m1", "m2"),
        ]
    );
    assert_eq!(session.advance(SessionEvent::Announced), vec![prompt("one")]);
    assert_eq!(
        session.on_event(done_well(), "m3".into(), "m4".into()),
        vec![
            completed("m2"),
            done(DoneStatus::Completed, None),
            steered("m3", "m4"),
        ]
    );
    assert_eq!(session.advance(SessionEvent::Announced), vec![prompt("two")]);
    assert_eq!(
        session.on_event(done_well(), "m5".into(), "m6".into()),
        vec![
            completed("m4"),
            done(DoneStatus::Completed, None),
            Action::Shutdown,
        ]
    );
    assert_eq!(session.stage(), Stage::Ended);
}

#[test]
fn refused_announcements_let_no_prompt_out() {
    // That of the session.
    let (mut session, _) = Session::start_with_id(&request("go"), open_session(), "m0".into());
    assert_eq!(session.on_refusal(&vec![]), vec![Action::Shutdown]);
    assert_eq!(session.stage(), Stage::Ended);
    assert_eq!(session.advance(SessionEvent::Announced), vec![]);
    // That of a steered turn.
    let mut session = started("go");
    session.advance(done_well());
    assert_eq!(
        session.on_event(steer("more"), "x".into(), "m9".into()).len(),
        1
    );
    assert_eq!(session.on_refusal(&vec![]), vec![Action::Shutdown]);
    assert_eq!(session.advance(SessionEvent::Announced), vec![]);
}

#[test]
fn refused_events_leave_only_the_shutdown() {
    // The session goes on, but for the refusal.
    let mut session = started("go");
    session.advance(steer("more"));
    let mut rest = session.advance(done_well());
    rest.remove(0);
    assert_eq!(rest.len(), 2);
    assert_eq!(session.on_refusal(&rest), vec![Action::Shutdown]);
    // The session has ended anyway.
    let mut session = started("go");
    session.advance(SessionEvent::SteeringClosed);
    let mut rest = session.advance(done_well());
    rest.remove(0);
    assert_eq!(rest.last(), Some(&Action::Shutdown));
    assert_eq!(session.on_refusal(&rest), vec![Action::Shutdown]);
    // The child was to be inspected.
    let mut session = started("go");
    let mut rest = session.advance(SessionEvent::PromptRejected {
        error: "quota".into(),
    });
    rest.remove(0);
    assert_eq!(rest, vec![Action::InspectChild]);
    assert_eq!(session.on_refusal(&rest), vec![Action::Shutdown]);
    assert_eq!(session.stage(), Stage::Ended);
}

#[test]
fn nothing_else_is_taken_during_an_announcement() {
    let (mut session, _) = Session::start_with_id(&request("go"), open_session(), "m0".into());
    assert_eq!(session.advance(message("early")), vec![]);
    assert_eq!(session.advance(steer("early")), vec![]);
    assert_eq!(session.advance(SessionEvent::Interrupt), vec![]);
    assert!(!session.awaits_steering());
    assert!(!session.awaits_interrupt());
    assert!(session.announces());
}

#[test]
fn session_lives_while_steering_is_open() {
    let mut session = started("go");
    session.advance(done_well());
    assert_eq!(session.stage(), Stage::Running);
    assert!(!session.awaits_prompt());
    assert!(session.awaits_steering());
    assert_eq!(
        session.on_event(steer("more"), "x".into(), "m9".into()).len(),
        1
    );
    session.advance(SessionEvent::Announced);
    assert!(session.awaits_prompt());
    session.advance(done_well());
    assert_eq!(
        session.advance(SessionEvent::SteeringClosed),
        vec![Action::Shutdown]
    );
    assert_eq!(session.stage(), Stage::Ended);
}

#[test]
fn usage_comes_before_done() {
    let mut session = started("go");
    let result = obj(vec![(
        "_meta",
        obj(vec![("inputTokens", number(5)), ("outputTokens", number(6))]),
    )]);
    assert_eq!(
        session.on_event(SessionEvent::PromptDone { result }, "m1".into(), "m2".into()),
        vec![
            Action::Emit {
                event: AgentEvent::Usage {
                    input_tokens: 5,
                    output_tokens: 6
                }
            },
            completed("m0"),
            done(DoneStatus::Completed, None),
        ]
    );
}

#[test]
fn tool_calls_open_again_in_a_steered_turn() {
    let call = || {
        update(vec![
            ("sessionUpdate", text("tool_call")),
            ("toolCallId", text("c")),
            ("title", text("grep")),
        ])
    };
    let mut session = started("go");
    assert_eq!(session.advance(call()).len(), 1);
    assert_eq!(session.advance(call()).len(), 0);
    session.advance(done_well());
    session.advance(steer("again"));
    session.advance(SessionEvent::Announced);
    assert_eq!(session.advance(call()).len(), 1);
}

#[test]
fn stop_reasons_can_fail_a_turn() {
    let mut session = started("go");
    let result = obj(vec![("stopReason", text("refusal"))]);
    assert_eq!(
        session.on_event(SessionEvent::PromptDone { result }, "m1".into(), "m2".into()),
        vec![
            completed("m0"),
            done(DoneStatus::Errored, Some("Grok refused the request")),
        ]
    );
    assert_eq!(session.stage(), Stage::Running);
}

#[test]
fn agent_requests_are_rejected() {
    let mut session = started("go");
    assert_eq!(
        session.advance(SessionEvent::ServerRequest {
            id: number(7),
            method: "fs/read".into(),
        }),
        vec![Action::Reject {
            id: number(7),
            code: METHOD_NOT_FOUND,
            message: "unsupported method: fs/read".into(),
        }]
    );
    assert_eq!(METHOD_NOT_FOUND, -32601);
    let other = SessionEvent::Notification {
        method: "_x.ai/other".into(),
        params: Json::Null,
    };
    assert_eq!(session.advance(other), vec![]);
}

#[test]
fn lost_agent_is_inspected() {
    let mut session = started("go");
    assert_eq!(
        session.advance(SessionEvent::Eof),
        vec![Action::InspectChild]
    );
    assert_eq!(session.stage(), Stage::Inspecting);
    assert_eq!(session.advance(steer("late")), vec![]);
    assert_eq!(
        session.advance(SessionEvent::ChildInspected {
            message: "exited with 1".into()
        }),
        vec![
            done(DoneStatus::Errored, Some("exited with 1")),
            Action::Shutdown,
        ]
    );
    assert_eq!(session.stage(), Stage::Ended);
}

#[test]
fn lost_agent_between_turns_is_no_error() {
    let mut session = started("go");
    session.advance(done_well());
    assert_eq!(session.advance(SessionEvent::Eof), vec![Action::Shutdown]);
}

#[test]
fn rejected_and_lost_prompts_end_the_session() {
    let mut session = started("go");
    assert_eq!(
        session.advance(SessionEvent::PromptRejected {
            error: "quota".into()
        }),
        vec![
            done(DoneStatus::Errored, Some("quota")),
            Action::InspectChild,
        ]
    );
    let mut session = started("go");
    assert_eq!(
        session.advance(SessionEvent::PromptLost {
            error: "panicked".into()
        }),
        vec![
            done(DoneStatus::Errored, Some("prompt task failed: panicked")),
            Action::InspectChild,
        ]
    );
}

#[test]
fn interrupted_sessions_end_interrupted() {
    // The prompt is rejected.
    let mut session = started("go");
    session.advance(SessionEvent::Interrupt);
    assert_eq!(
        session.advance(SessionEvent::PromptRejected {
            error: "cancelled".into()
        }),
        vec![done(DoneStatus::Interrupted, None), Action::Shutdown]
    );
    // The agent goes away.
    let mut session = started("go");
    session.advance(SessionEvent::Interrupt);
    assert_eq!(
        session.advance(SessionEvent::Eof),
        vec![done(DoneStatus::Interrupted, None), Action::Shutdown]
    );
    // Nothing is in flight.
    let mut session = started("go");
    session.advance(done_well());
    assert_eq!(
        session.advance(SessionEvent::Interrupt),
        vec![
            cancel(),
            done(DoneStatus::Interrupted, None),
            Action::Shutdown,
        ]
    );
    // A steer that waits is not delivered.
    let mut session = started("go");
    session.advance(steer("late"));
    session.advance(SessionEvent::Interrupt);
    assert_eq!(
        session.on_event(done_well(), "m1".into(), "m2".into()),
        vec![
            completed("m0"),
            done(DoneStatus::Interrupted, None),
            Action::Shutdown,
        ]
    );
}

#[test]
fn gone_consumer_ends_silently() {
    let mut session = started("go");
    assert_eq!(
        session.advance(SessionEvent::ConsumerGone),
        vec![Action::Shutdown]
    );
    assert_eq!(session.stage(), Stage::Ended);
    assert_eq!(session.advance(SessionEvent::ConsumerGone), vec![]);
    assert_eq!(session.advance(done_well()), vec![]);
    assert!(!session.accepts(&SessionEvent::Eof));
}

#[test]
fn message_ids_are_fresh_random_uuids() {
    let mut id = "before".to_owned();
    let (prev, next) = rotate(&mut id);
    assert_eq!(prev, "before");
    assert_eq!(next, id);
    assert_eq!(id.len(), 36);
    for (i, c) in id.chars().enumerate() {
        match i {
            8 | 13 | 18 | 23 => assert_eq!(c, '-'),
            14 => assert_eq!(c, '4'),
            19 => assert!("89ab".contains(c)),
            _ => assert!(c.is_ascii_digit() || ('a'..='f').contains(&c)),
        }
    }
    let (again, other) = rotate(&mut id);
    assert_eq!(again, next);
    assert_eq!(other, id);
    assert_ne!(next, other);
}
