//! The harness, its settings, the search for the CLI and the child.

use std::path::PathBuf;
use std::time::Duration;

use grok_harness::child::{
    check_pipes, shutdown_child, spawn_error, ShutdownAction, ShutdownEvent, Signal,
};
use grok_harness::action::Action;
use grok_harness::discovery::{
    discovery_grace, discovery_request, discovery_timeout, Discovery, DiscoveryEvent,
    DiscoveryStep, ModelDiscovery,
};
use grok_harness::executable::{
    first_present, resolve_grok_executable, ExecutablePlan, SearchPlaces, SearchRoot,
    NOT_INSTALLED,
};
use grok_harness::harness::GrokBuildHarness;
use grok_harness::json::{Json, JsonObject};
use grok_harness::proto::{HarnessError, ReasoningLevel, RunRequest, SandboxLevel};
use grok_harness::requests::initialize_params;

fn obj(members: Vec<(&str, Json)>) -> Json {
    let mut object = JsonObject::new();
    for (name, value) in members {
        object.insert(name.to_owned(), value);
    }
    Json::object(object)
}

fn request() -> RunRequest {
    RunRequest {
        prompt: "go".into(),
        model: Some("grok-4.5".into()),
        reasoning: Some(ReasoningLevel::Max),
        cwd: "/work".into(),
        sandbox: SandboxLevel::WorkspaceWrite,
        resume: None,
    }
}

fn places() -> SearchPlaces {
    SearchPlaces {
        override_len: None,
        path_dir_lens: vec![4, 0, 9],
        home: true,
        manager_bins: 2,
        windows: false,
    }
}

/// The roots and tails of a search.
fn searched(places: &SearchPlaces) -> Vec<(SearchRoot, String)> {
    match resolve_grok_executable(places) {
        ExecutablePlan::Search(candidates) => candidates
            .into_iter()
            .map(|c| (c.root, c.tail.join("/")))
            .collect(),
        _ => panic!("expected a search"),
    }
}

#[test]
fn default_graces() {
    let harness = GrokBuildHarness::new();
    assert_eq!(harness.interrupt_grace(), Duration::from_secs(2));
    assert_eq!(harness.kill_grace(), Duration::from_secs(3));
    let harness = GrokBuildHarness::default();
    assert_eq!(
        harness.escalation(),
        vec![
            (Duration::from_secs(2), Signal::Term),
            (Duration::from_secs(3), Signal::Kill),
        ]
    );
    assert_eq!(discovery_timeout(), Duration::from_millis(15_000));
    assert_eq!(discovery_grace(), Duration::from_millis(2_000));
}

#[test]
fn graces_can_be_tuned() {
    let harness = GrokBuildHarness::new()
        .with_executable("/bin/grok")
        .with_graces(Duration::from_millis(50), Duration::from_millis(70));
    assert_eq!(
        harness.escalation(),
        vec![
            (Duration::from_millis(50), Signal::Term),
            (Duration::from_millis(70), Signal::Kill),
        ]
    );
    assert!(harness.supports_steering());
    assert_eq!(
        harness.reasoning_levels(),
        vec![
            ReasoningLevel::Low,
            ReasoningLevel::Medium,
            ReasoningLevel::High
        ]
    );
}

#[test]
fn fixed_executable_counts_before_any_search() {
    let harness = GrokBuildHarness::new().with_executable("/bin/fixed");
    let mut searched = places();
    searched.override_len = Some(3);
    match harness.resolve_executable(&searched) {
        ExecutablePlan::Fixed(path) => assert_eq!(path, &PathBuf::from("/bin/fixed")),
        _ => panic!("expected the fixed binary"),
    }
    match GrokBuildHarness::new().resolve_executable(&searched) {
        ExecutablePlan::Override => {}
        _ => panic!("expected the override"),
    }
}

#[test]
fn empty_override_does_not_count() {
    let mut empty = places();
    empty.override_len = Some(0);
    assert_eq!(searched(&empty), searched(&places()));
}

#[test]
fn search_order() {
    assert_eq!(
        searched(&places()),
        vec![
            (SearchRoot::PathDir(0), "grok".to_owned()),
            (SearchRoot::PathDir(2), "grok".to_owned()),
            (SearchRoot::Home, ".grok/bin/grok".to_owned()),
            (SearchRoot::Home, "bin/grok".to_owned()),
            (SearchRoot::Home, ".local/bin/grok".to_owned()),
            (SearchRoot::Absolute, "/opt/homebrew/bin/grok".to_owned()),
            (SearchRoot::Absolute, "/usr/local/bin/grok".to_owned()),
            (SearchRoot::ManagerBin(0), "grok".to_owned()),
            (SearchRoot::ManagerBin(1), "grok".to_owned()),
        ]
    );
    let bare = SearchPlaces {
        override_len: None,
        path_dir_lens: vec![1],
        home: false,
        manager_bins: 1,
        windows: true,
    };
    assert_eq!(
        searched(&bare),
        vec![
            (SearchRoot::PathDir(0), "grok.exe".to_owned()),
            (SearchRoot::Absolute, "/opt/homebrew/bin/grok".to_owned()),
            (SearchRoot::Absolute, "/usr/local/bin/grok".to_owned()),
            (SearchRoot::ManagerBin(0), "grok.exe".to_owned()),
        ]
    );
}

#[test]
fn first_candidate_that_is_there_is_taken() {
    assert_eq!(first_present(&vec![false, true, true]), Ok(1));
    assert_eq!(
        first_present(&vec![false, false]),
        Err(HarnessError::NotInstalled(NOT_INSTALLED.to_owned()))
    );
    assert!(NOT_INSTALLED.starts_with("grok (searched PATH, ~/.grok/bin,"));
    assert!(NOT_INSTALLED.ends_with("set GROK_EXECUTABLE to override)"));
}

#[test]
fn run_command() {
    let invocation = GrokBuildHarness::new().agent_command(&request(), false);
    assert_eq!(
        invocation.args,
        vec![
            "agent",
            "--always-approve",
            "--no-leader",
            "--model",
            "grok-4.5",
            "--reasoning-effort",
            "high",
            "stdio",
        ]
    );
    assert_eq!(
        invocation.env,
        vec![
            ("GROK_SANDBOX".to_owned(), "workspace".to_owned()),
            (
                "GROK_ASK_USER_QUESTION_TIMEOUT_ENABLED".to_owned(),
                "true".to_owned()
            ),
            (
                "GROK_ASK_USER_QUESTION_TIMEOUT_SECS".to_owned(),
                "30".to_owned()
            ),
        ]
    );
    assert_eq!(invocation.cwd.as_deref(), Some("/work"));
}

#[test]
fn discovery_command_ignores_model_effort_and_sandbox() {
    let invocation = GrokBuildHarness::new().agent_command(&request(), true);
    assert_eq!(
        invocation.args,
        vec!["agent", "--always-approve", "--no-leader", "stdio"]
    );
    assert_eq!(invocation.env.len(), 2);
}

#[test]
fn empty_settings_are_left_out() {
    let mut bare = request();
    bare.model = Some(String::new());
    bare.reasoning = None;
    bare.cwd = String::new();
    let invocation = GrokBuildHarness::new().agent_command(&bare, false);
    assert_eq!(
        invocation.args,
        vec!["agent", "--always-approve", "--no-leader", "stdio"]
    );
    assert_eq!(invocation.cwd, None);
    assert_eq!(invocation.env.len(), 3);
}

#[test]
fn children_that_do_not_start() {
    assert_eq!(
        spawn_error(true, "/x/grok".into(), "gone".into()),
        HarnessError::NotInstalled("/x/grok".into())
    );
    assert_eq!(
        spawn_error(false, "/x/grok".into(), "denied".into()),
        HarnessError::Io("denied".into())
    );
    assert_eq!(check_pipes(true, true), Ok(()));
    assert_eq!(
        check_pipes(false, false),
        Err(HarnessError::Protocol("grok child has no stdin".into()))
    );
    assert_eq!(
        check_pipes(true, false),
        Err(HarnessError::Protocol("grok child has no stdout".into()))
    );
}

#[test]
fn shutdown_terminates_and_then_kills() {
    let probed = |exited: bool, has_pid: bool| {
        shutdown_child(ShutdownEvent::Probed { exited, has_pid })
    };
    assert_eq!(probed(true, true), ShutdownAction::Leave);
    assert_eq!(probed(true, false), ShutdownAction::Leave);
    assert_eq!(probed(false, true), ShutdownAction::Terminate);
    assert_eq!(probed(false, false), ShutdownAction::Kill);
    assert_eq!(
        shutdown_child(ShutdownEvent::Terminated { exited: true }),
        ShutdownAction::Leave
    );
    assert_eq!(
        shutdown_child(ShutdownEvent::Terminated { exited: false }),
        ShutdownAction::Kill
    );
}

#[test]
fn discovery_failures_are_surfaced() {
    let harness = GrokBuildHarness::new();
    let protocol = |words: &str| Err(HarnessError::Protocol(words.to_owned()));
    assert_eq!(
        harness.models(Discovery::TimedOut),
        protocol("model discovery timed out waiting for initialize")
    );
    assert_eq!(
        harness.models(Discovery::Failed(HarnessError::Io("pipe".into()))),
        Err(HarnessError::Io("pipe".into()))
    );
    let missing = "initialize: missing _meta.modelState";
    assert_eq!(
        harness.models(Discovery::Initialized(Json::Null)),
        protocol(missing)
    );
    let null_state = obj(vec![("_meta", obj(vec![("modelState", Json::Null)]))]);
    assert_eq!(
        harness.models(Discovery::Initialized(null_state)),
        protocol(missing)
    );
    let empty_state = obj(vec![("_meta", obj(vec![("modelState", obj(vec![]))]))]);
    assert_eq!(
        harness.models(Discovery::Initialized(empty_state)),
        protocol("initialize: modelState has no models")
    );
}

#[test]
fn discovery_asks_once_and_shuts_down_before_the_result() {
    let harness = GrokBuildHarness::new();
    let state = obj(vec![("currentModelId", Json::text("grok-4.5"))]);
    let reply = obj(vec![("_meta", obj(vec![("modelState", state)]))]);
    let (mut discovery, first) = ModelDiscovery::begin("1.2.3");
    assert_eq!(
        first,
        vec![Action::Request {
            method: "initialize".into(),
            params: initialize_params("1.2.3"),
        }]
    );
    // There is no result before the end of the handshake.
    assert_eq!(
        discovery.on_event(&harness, DiscoveryEvent::ChildGone),
        DiscoveryStep::Continue(vec![])
    );
    assert_eq!(
        discovery.on_event(
            &harness,
            DiscoveryEvent::Ended(Discovery::Initialized(reply))
        ),
        DiscoveryStep::Continue(vec![
            Action::Notify {
                method: "notifications/initialized".into(),
                params: None,
            },
            Action::Shutdown,
        ])
    );
    match discovery.on_event(&harness, DiscoveryEvent::ChildGone) {
        DiscoveryStep::Finished(Ok(models)) => {
            assert_eq!(models.len(), 1);
            assert_eq!(models[0].id, "grok-4.5");
        }
        other => panic!("{other:?}"),
    }
    assert_eq!(
        discovery.on_event(&harness, DiscoveryEvent::ChildGone),
        DiscoveryStep::Continue(vec![])
    );
}

#[test]
fn failed_discovery_sends_no_notification() {
    let harness = GrokBuildHarness::new();
    let (mut discovery, _) = ModelDiscovery::begin("1");
    assert_eq!(
        discovery.on_event(&harness, DiscoveryEvent::Ended(Discovery::TimedOut)),
        DiscoveryStep::Continue(vec![Action::Shutdown])
    );
    assert_eq!(
        discovery.on_event(&harness, DiscoveryEvent::ChildGone),
        DiscoveryStep::Finished(Err(HarnessError::Protocol(
            "model discovery timed out waiting for initialize".into()
        )))
    );
    let (mut discovery, _) = ModelDiscovery::begin("1");
    let gone = HarnessError::Io("gone".into());
    assert_eq!(
        discovery.on_event(&harness, DiscoveryEvent::Ended(Discovery::Failed(gone))),
        DiscoveryStep::Continue(vec![Action::Shutdown])
    );
}

#[test]
fn discovery_child_is_started_nowhere_in_particular() {
    let request = discovery_request();
    assert_eq!(request.sandbox, SandboxLevel::ReadOnly);
    assert_eq!(request.model, None);
    let invocation = GrokBuildHarness::new().agent_command(&request, true);
    assert_eq!(invocation.cwd, None);
}

#[test]
fn setters_commute() {
    let (cancel, kill) = (Duration::from_millis(5), Duration::from_millis(6));
    let one = GrokBuildHarness::new()
        .with_executable("/bin/fixed")
        .with_graces(cancel, kill);
    let other = GrokBuildHarness::new()
        .with_graces(cancel, kill)
        .with_executable("/bin/fixed");
    for harness in [one, other] {
        assert_eq!(harness.interrupt_grace(), cancel);
        assert_eq!(harness.kill_grace(), kill);
        match harness.resolve_executable(&places()) {
            ExecutablePlan::Fixed(path) => assert_eq!(path, &PathBuf::from("/bin/fixed")),
            _ => panic!("expected the fixed binary"),
        }
    }
}
