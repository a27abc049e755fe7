//! Live discovery of the agent's models, over a short-lived handshake.
//!
//! A child is started for it alone, asked to `initialize`, and shut down again; only
//! then is the result handed out. No session is opened.

use std::time::Duration;
use vstd::prelude::*;
use crate::action::{actions_view, Action, ActionView};
use crate::catalog::{
    catalog_models, current_model, law_current_model_can_be_selected, models_from_model_state,
};
use crate::child::agent_cwd;
use crate::harness::{duration_of_secs, GrokBuildHarness};
use crate::json::{member_in, member_of, Json, JsonView};
use crate::proto::{
    models_view, HarnessError, HarnessErrorView, Model, ModelView, RunRequest, SandboxLevel,
};
use crate::requests::{initialize_object, initialize_params};

verus! {

/// How the short-lived handshake for the models went.
pub enum Discovery {
    /// `initialize` was answered.
    Initialized(Json),
    /// `initialize` was answered with an error, or not delivered.
    Failed(HarnessError),
    /// There was no answer in time.
    TimedOut,
}

/// The models that the reply to `initialize` lists. A reply without a model state,
/// or with an empty one, is an error: no stale catalog stands in for it.
pub open spec fn discovered_models(result: JsonView) -> Result<
    Seq<ModelView>,
    HarnessErrorView,
> {
    match member_of(result.get("_meta"@), "modelState"@) {
        Some(state) => if state.is_null() {
            Err(HarnessErrorView::Protocol("initialize: missing _meta.modelState"@))
        } else if catalog_models(state).len() == 0 {
            Err(HarnessErrorView::Protocol("initialize: modelState has no models"@))
        } else {
            Ok(catalog_models(state))
        },
        None => Err(HarnessErrorView::Protocol("initialize: missing _meta.modelState"@)),
    }
}

/// What a discovery comes to.
pub open spec fn discovery_result(discovery: Discovery) -> Result<
    Seq<ModelView>,
    HarnessErrorView,
> {
    match discovery {
        Discovery::Initialized(result) => discovered_models(result@),
        Discovery::Failed(error) => Err(error@),
        Discovery::TimedOut => Err(
            HarnessErrorView::Protocol("model discovery timed out waiting for initialize"@),
        ),
    }
}

/// The value of a list of models, or of the error in its place.
pub open spec fn models_result(models: Result<Vec<Model>, HarnessError>) -> Result<
    Seq<ModelView>,
    HarnessErrorView,
> {
    match models {
        Ok(rows) => Ok(models_view(rows@)),
        Err(error) => Err(error@),
    }
}

impl GrokBuildHarness {
    /// The models that a discovery found.
    pub fn models(&self, discovery: Discovery) -> (models: Result<Vec<Model>, HarnessError>)
        ensures
            models_result(models) == discovery_result(discovery),
    {
        let result = match discovery {
            Discovery::Initialized(result) => result,
            Discovery::Failed(error) => {
                return Err(error);
            },
            Discovery::TimedOut => {
                return Err(
                    HarnessError::Protocol(
                        "model discovery timed out waiting for initialize".to_owned(),
                    ),
                );
            },
        };
        match member_in(result.get("_meta"), "modelState") {
            Some(state) => {
                if !state.is_null() {
                    let (_current, rows) = models_from_model_state(state);
                    if rows.len() == 0 {
                        return Err(
                            HarnessError::Protocol("initialize: modelState has no models".to_owned()),
                        );
                    }
                    return Ok(rows);
                }
            },
            None => {},
        }
        Err(HarnessError::Protocol("initialize: missing _meta.modelState".to_owned()))
    }
}

/// What a child that is only asked for its models is started for: nothing in
/// particular, nowhere in particular.
pub fn discovery_request() -> (request: RunRequest)
    ensures
        request.prompt@ == Seq::<char>::empty(),
        request.model is None,
        request.reasoning is None,
        request.cwd@ == Seq::<char>::empty(),
        request.sandbox == SandboxLevel::ReadOnly,
        request.resume is None,
        agent_cwd(request) is None,
{
    RunRequest {
        prompt: String::new(),
        model: None,
        reasoning: None,
        cwd: String::new(),
        sandbox: SandboxLevel::ReadOnly,
        resume: None,
    }
}

// ---------------------------------------------------------------------------
// The machine
// ---------------------------------------------------------------------------

/// What can happen to a discovery.
pub enum DiscoveryEvent {
    /// The short-lived handshake came to its end.
    Ended(Discovery),
    /// The child was shut down.
    ChildGone,
}

/// Where an event leads.
#[derive(Debug, PartialEq, Eq)]
pub enum DiscoveryStep {
    /// Do this, and report what happens.
    Continue(Vec<Action>),
    Finished(Result<Vec<Model>, HarnessError>),
}

/// The mathematical value of a [`DiscoveryStep`].
pub enum DiscoveryStepView {
    Continue(Seq<ActionView>),
    Finished(Result<Seq<ModelView>, HarnessErrorView>),
}

impl View for DiscoveryStep {
    type V = DiscoveryStepView;

    open spec fn view(&self) -> DiscoveryStepView {
        match self {
            DiscoveryStep::Continue(actions) => DiscoveryStepView::Continue(
                actions_view(actions@),
            ),
            DiscoveryStep::Finished(models) => DiscoveryStepView::Finished(models_result(*models)),
        }
    }
}

enum DiscoveryStage {
    Initializing,
    Closing(Result<Vec<Model>, HarnessError>),
    Closed,
}

/// A discovery in progress.
pub struct ModelDiscovery {
    stage: DiscoveryStage,
}

/// The mathematical value of a [`ModelDiscovery`].
pub enum ModelDiscoveryView {
    /// The reply to `initialize` is awaited.
    Initializing,
    /// The child is being shut down; this will be the result.
    Closing(Result<Seq<ModelView>, HarnessErrorView>),
    /// The result was handed out.
    Closed,
}

impl View for ModelDiscovery {
    type V = ModelDiscoveryView;

    closed spec fn view(&self) -> ModelDiscoveryView {
        match self.stage {
            DiscoveryStage::Initializing => ModelDiscoveryView::Initializing,
            DiscoveryStage::Closing(models) => ModelDiscoveryView::Closing(models_result(models)),
            DiscoveryStage::Closed => ModelDiscoveryView::Closed,
        }
    }
}

/// What ends the short-lived handshake: the agent is told that it is initialized, if
/// it is, and in any case the child is shut down.
pub open spec fn closing_actions(discovery: Discovery) -> Seq<ActionView> {
    match discovery {
        Discovery::Initialized(_) => seq![
            ActionView::Notify { method: "notifications/initialized"@, params: None },
            ActionView::Shutdown,
        ],
        _ => seq![ActionView::Shutdown],
    }
}

/// What an event does to a discovery, and where it leads.
pub open spec fn discovery_step(d: ModelDiscoveryView, event: DiscoveryEvent) -> (
    ModelDiscoveryView,
    DiscoveryStepView,
) {
    match (d, event) {
        (ModelDiscoveryView::Initializing, DiscoveryEvent::Ended(discovery)) => (
            ModelDiscoveryView::Closing(discovery_result(discovery)),
            DiscoveryStepView::Continue(closing_actions(discovery)),
        ),
        (ModelDiscoveryView::Closing(models), DiscoveryEvent::ChildGone) => (
            ModelDiscoveryView::Closed,
            DiscoveryStepView::Finished(models),
        ),
        _ => (d, DiscoveryStepView::Continue(Seq::empty())),
    }
}

impl ModelDiscovery {
    /// Starts a discovery: the one request introduces this client.
    pub fn begin(version: &str) -> (started: (ModelDiscovery, Vec<Action>))
        ensures
            started.0@ is Initializing,
            actions_view(started.1@) == seq![
                ActionView::Request {
                    method: "initialize"@,
                    params: initialize_object(version@),
                },
            ],
    {
        let mut actions: Vec<Action> = Vec::new();
        actions.push(
            Action::Request { method: "initialize".to_owned(), params: initialize_params(version) },
        );
        assert(actions_view(actions@) =~= seq![
            ActionView::Request { method: "initialize"@, params: initialize_object(version@) },
        ]);
        (ModelDiscovery { stage: DiscoveryStage::Initializing }, actions)
    }

    /// Takes an event. One that does not fit the present state does nothing.
    pub fn on_event(&mut self, harness: &GrokBuildHarness, event: DiscoveryEvent) -> (step:
        DiscoveryStep)
        ensures
            (final(self)@, step@) == discovery_step(old(self)@, event),
    {
        let mut actions: Vec<Action> = Vec::new();
        assert(actions_view(actions@) =~= Seq::empty());
        let mut stage = DiscoveryStage::Closed;
        std::mem::swap(&mut self.stage, &mut stage);
        match (stage, event) {
            (DiscoveryStage::Initializing, DiscoveryEvent::Ended(discovery)) => {
                if matches!(discovery, Discovery::Initialized(_)) {
                    actions.push(
                        Action::Notify {
                            method: "notifications/initialized".to_owned(),
                            params: None,
                        },
                    );
                }
                actions.push(Action::Shutdown);
                assert(actions_view(actions@) =~= closing_actions(discovery));
                self.stage = DiscoveryStage::Closing(harness.models(discovery));
                DiscoveryStep::Continue(actions)
            },
            (DiscoveryStage::Closing(models), DiscoveryEvent::ChildGone) => DiscoveryStep::Finished(
                models,
            ),
            (stage, _) => {
                self.stage = stage;
                DiscoveryStep::Continue(actions)
            },
        }
    }
}

/// How long discovery waits for `initialize`.
pub fn discovery_timeout() -> (timeout: Duration)
    ensures
        timeout == duration_of_secs(15),
{
    Duration::from_secs(15)
}

/// The grace of a child that was only asked for its models.
pub fn discovery_grace() -> (grace: Duration)
    ensures
        grace == duration_of_secs(2),
{
    Duration::from_secs(2)
}

/// A discovery that succeeds has found at least one model.
pub proof fn law_discovered_catalog_is_not_empty(discovery: Discovery)
    ensures
        discovery_result(discovery) matches Ok(models) ==> models.len() > 0,
{
}

/// A discovery whose reply names a current model succeeds, with the whole catalog.
pub proof fn law_named_model_is_discovered(result: JsonView, state: JsonView)
    requires
        member_of(result.get("_meta"@), "modelState"@) == Some(state),
        current_model(state) is Some,
    ensures
        discovered_models(result) == Ok::<Seq<ModelView>, HarnessErrorView>(catalog_models(state)),
{
    law_current_model_can_be_selected(state);
}

/// A discovery in full: the agent is asked to `initialize` and nothing else, is told
/// that it is initialized exactly if it replied, and its child is shut down, whatever
/// happened; the result is what the reply amounts to.
pub proof fn law_discovery_asks_once_and_shuts_down(discovery: Discovery)
    ensures
        ({
            let (closing, first) = discovery_step(
                ModelDiscoveryView::Initializing,
                DiscoveryEvent::Ended(discovery),
            );
            let (closed, second) = discovery_step(closing, DiscoveryEvent::ChildGone);
            &&& first == DiscoveryStepView::Continue(closing_actions(discovery))
            &&& second == DiscoveryStepView::Finished(discovery_result(discovery))
            &&& closed is Closed
            &&& closing_actions(discovery).last() == ActionView::Shutdown
            &&& forall|i: int|
                0 <= i < closing_actions(discovery).len() ==> !(#[trigger] closing_actions(
                    discovery,
                )[i] is Request)
            &&& (exists|i: int|
                0 <= i < closing_actions(discovery).len() && #[trigger] closing_actions(
                    discovery,
                )[i] is Notify) <==> discovery is Initialized
        }),
{
    if discovery is Initialized {
        assert(closing_actions(discovery)[0] is Notify);
    }
}

/// A result is only handed out when the child is gone, after a shutdown was asked for.
pub proof fn law_result_comes_after_shutdown(d: ModelDiscoveryView, event: DiscoveryEvent)
    ensures
        discovery_step(d, event).1 is Finished ==> d is Closing && event is ChildGone,
        discovery_step(d, event).0 is Closing && !(d is Closing) ==> (discovery_step(
            d,
            event,
        ).1 matches DiscoveryStepView::Continue(actions) && actions.last()
            == ActionView::Shutdown),
{
}

} // verus!
