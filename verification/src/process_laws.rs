//! How the agent's process is found, started, asked for its models and brought down,
//! said of the words and places themselves.

use std::time::Duration;
use vstd::prelude::*;
use crate::action::ActionView;
use crate::catalog::catalog_models;
use crate::child::{
    agent_args, agent_cwd, agent_env, check_pipes, shutdown_action, spawn_error, Invocation,
    ShutdownAction, ShutdownEvent, Signal,
};
use crate::discovery::{
    closing_actions, discovered_models, discovery_grace, discovery_result, discovery_step,
    discovery_timeout, Discovery, DiscoveryEvent, DiscoveryStepView, ModelDiscoveryView,
};
use crate::executable::{
    first_present, search_candidates, search_plan, CandidateView, ExecutablePlanView, SearchPlaces,
    SearchRoot, NOT_INSTALLED,
};
use crate::harness::{duration_of_secs, GrokBuildHarness};
use crate::json::JsonView;
use crate::proto::{
    texts_view, HarnessError, HarnessErrorView, HarnessId, ModelView, ReasoningLevel, RunRequest,
    SteeringMode,
};
use crate::value_laws::{holds, lacks};

verus! {

// ---------------------------------------------------------------------------
// The command line
// ---------------------------------------------------------------------------

/// How many arguments a run has between the fixed ones: two for a model that is named,
/// two for an effort that is asked for.
pub open spec fn names_model(request: RunRequest) -> bool {
    request.model matches Some(model) && model@.len() > 0
}

/// Every child is started as an agent that approves by itself, has no leader, and
/// speaks over its pipes; one that is only asked for its models has no other argument.
pub proof fn law_child_is_started_as_an_agent(request: RunRequest, for_discovery: bool)
    ensures
        ({
            let args = agent_args(request, for_discovery);
            &&& args.len() >= 4
            &&& args[0] == "agent"@
            &&& args[1] == "--always-approve"@
            &&& args[2] == "--no-leader"@
            &&& args.last() == "stdio"@
            &&& for_discovery ==> args.len() == 4
        }),
{
}

/// The child of a run is told the model that was asked for, unless that is empty, and
/// then the effort, where one was asked for: `low`, `medium` or `high`.
pub proof fn law_run_is_told_model_and_effort(request: RunRequest)
    ensures
        ({
            let args = agent_args(request, false);
            let named = if names_model(request) { 2int } else { 0int };
            let asked = if request.reasoning is Some { 2int } else { 0int };
            &&& args.len() == 4 + named + asked
            &&& named == 2 ==> args[3] == "--model"@ && args[4] == request.model->0@
            &&& asked == 2 ==> args[3 + named] == "--reasoning-effort"@
            &&& request.reasoning matches Some(level) ==> {
                &&& level is Minimal || level is Low ==> args[4 + named] == "low"@
                &&& level is Medium ==> args[4 + named] == "medium"@
                &&& level is High || level is XHigh || level is Max || level is Ultra || level
                    is Ultracode || level is Ultrathink ==> args[4 + named] == "high"@
            }
        }),
{
}

/// The environment of a child: the sandbox of the run, and the bound on questions in
/// any case; a child that is only asked for its models has no sandbox set.
pub proof fn law_child_environment(request: RunRequest, for_discovery: bool)
    ensures
        ({
            let env = agent_env(request, for_discovery);
            let at = if for_discovery { 0int } else { 1int };
            &&& env.len() == at + 2
            &&& env[at] == ("GROK_ASK_USER_QUESTION_TIMEOUT_ENABLED"@, "true"@)
            &&& env[at + 1] == ("GROK_ASK_USER_QUESTION_TIMEOUT_SECS"@, "30"@)
            &&& !for_discovery ==> {
                &&& env[0].0 == "GROK_SANDBOX"@
                &&& request.sandbox is ReadOnly ==> env[0].1 == "read-only"@
                &&& request.sandbox is WorkspaceWrite ==> env[0].1 == "workspace"@
                &&& request.sandbox is DangerFullAccess ==> env[0].1 == "off"@
            }
        }),
{
}

/// A child works in the directory that was asked for, unless that is empty.
pub proof fn law_child_works_where_it_is_asked_to(request: RunRequest)
    ensures
        request.cwd@.len() > 0 ==> agent_cwd(request) == Some(request.cwd@),
        request.cwd@.len() == 0 ==> agent_cwd(request) is None,
{
}

/// What `agent_command` returns starts and ends as every child does.
pub proof fn law_command_is_that_of_the_child(
    harness: GrokBuildHarness,
    request: RunRequest,
    for_discovery: bool,
    invocation: Invocation,
)
    requires
        call_ensures(
            GrokBuildHarness::agent_command,
            (&harness, &request, for_discovery),
            invocation,
        ),
    ensures
        invocation.args@.len() >= 4,
        invocation.args@[0]@ == "agent"@,
        invocation.args@.last()@ == "stdio"@,
        for_discovery ==> invocation.args@.len() == 4,
        request.cwd@.len() == 0 ==> invocation.cwd is None,
        request.cwd@.len() > 0 ==> (invocation.cwd matches Some(dir) && dir@ == request.cwd@),
{
    law_child_is_started_as_an_agent(request, for_discovery);
    let args = texts_view(invocation.args@);
    assert(args[0] == invocation.args@[0]@);
    assert(args.last() == invocation.args@.last()@);
}

/// A child that could not be found is not installed, under the name of its program; any
/// other failure to start is told in its own words.
pub proof fn law_missing_program_is_not_installed(
    not_found: bool,
    executable: String,
    message: String,
    error: HarnessError,
)
    requires
        call_ensures(spawn_error, (not_found, executable, message), error),
    ensures
        not_found ==> (error matches HarnessError::NotInstalled(what) && what@ == executable@),
        !not_found ==> (error matches HarnessError::Io(what) && what@ == message@),
{
}

/// A child must have both pipes; the first that is missing is named.
pub proof fn law_missing_pipe_is_named(
    stdin: bool,
    stdout: bool,
    checked: Result<(), HarnessError>,
)
    requires
        call_ensures(check_pipes, (stdin, stdout), checked),
    ensures
        checked is Ok <==> stdin && stdout,
        !stdin ==> (checked matches Err(HarnessError::Protocol(what)) && what@
            == "grok child has no stdin"@),
        stdin && !stdout ==> (checked matches Err(HarnessError::Protocol(what)) && what@
            == "grok child has no stdout"@),
{
}

// ---------------------------------------------------------------------------
// The end of a child
// ---------------------------------------------------------------------------

/// A child that has exited is left alone. One that has not is asked to terminate, if it
/// can be asked, and killed if it cannot, or if that did not help within its grace.
pub proof fn law_child_is_asked_before_it_is_killed(has_pid: bool)
    ensures
        shutdown_action(ShutdownEvent::Probed { exited: true, has_pid }) == ShutdownAction::Leave,
        shutdown_action(ShutdownEvent::Probed { exited: false, has_pid: true })
            == ShutdownAction::Terminate,
        shutdown_action(ShutdownEvent::Probed { exited: false, has_pid: false })
            == ShutdownAction::Kill,
        shutdown_action(ShutdownEvent::Terminated { exited: true }) == ShutdownAction::Leave,
        shutdown_action(ShutdownEvent::Terminated { exited: false }) == ShutdownAction::Kill,
{
}

/// A cancelled prompt escalates: after the first grace a request to terminate, after the
/// second the kill.
pub proof fn law_escalation_terminates_then_kills(
    harness: GrokBuildHarness,
    steps: Vec<(Duration, Signal)>,
)
    requires
        call_ensures(GrokBuildHarness::escalation, (&harness,), steps),
    ensures
        steps@.len() == 2,
        steps@[0] == (harness.grace_after_cancel(), Signal::Term),
        steps@[1] == (harness.grace_after_term(), Signal::Kill),
{
}

// ---------------------------------------------------------------------------
// The search
// ---------------------------------------------------------------------------

/// Whether a candidate lies below `root`, along these names.
pub open spec fn lies(c: CandidateView, root: SearchRoot, tail: Seq<Seq<char>>) -> bool {
    c.root == root && c.tail == tail
}

/// How many directories of `PATH` are not empty.
pub open spec fn filled(lens: Seq<usize>) -> nat
    decreases lens.len(),
{
    if lens.len() == 0 {
        0
    } else {
        filled(lens.drop_last()) + if lens.last() > 0 { 1nat } else { 0nat }
    }
}

proof fn lemma_filled(lens: Seq<usize>, name: Seq<char>)
    ensures
        crate::executable::path_candidates(lens, name).len() == filled(lens),
    decreases lens.len(),
{
    if lens.len() > 0 {
        lemma_filled(lens.drop_last(), name);
    }
}

/// After the directories of `PATH` come, in this order, three places below the home
/// directory, where that is known, then two common places, then the directories of the
/// node version managers, one after the other.
pub proof fn law_search_goes_on_after_path(places: SearchPlaces, i: int)
    ensures
        ({
            let all = search_candidates(places);
            let name = if places.windows { "grok.exe"@ } else { "grok"@ };
            let at = filled(places.path_dir_lens@) as int;
            let common = at + if places.home { 3int } else { 0int };
            &&& all.len() == common + 2 + places.manager_bins
            &&& places.home ==> {
                &&& lies(all[at], SearchRoot::Home, seq![".grok"@, "bin"@, "grok"@])
                &&& lies(all[at + 1], SearchRoot::Home, seq!["bin"@, "grok"@])
                &&& lies(all[at + 2], SearchRoot::Home, seq![".local"@, "bin"@, "grok"@])
            }
            &&& lies(all[common], SearchRoot::Absolute, seq!["/opt/homebrew/bin/grok"@])
            &&& lies(all[common + 1], SearchRoot::Absolute, seq!["/usr/local/bin/grok"@])
            &&& 0 <= i < places.manager_bins ==> lies(
                all[common + 2 + i],
                SearchRoot::ManagerBin(i as usize),
                seq![name],
            )
        }),
{
    lemma_filled(places.path_dir_lens@, crate::executable::program(places.windows));
}

proof fn lemma_path_entry(lens: Seq<usize>, name: Seq<char>, i: int)
    requires
        0 <= i < lens.len() <= usize::MAX,
        lens[i] > 0,
    ensures
        ({
            let found = crate::executable::path_candidates(lens, name);
            let at = filled(lens.take(i)) as int;
            0 <= at < found.len() && lies(found[at], SearchRoot::PathDir(i as usize), seq![name])
        }),
    decreases lens.len(),
{
    let before = lens.drop_last();
    lemma_filled(before, name);
    if i < lens.len() - 1 {
        lemma_path_entry(before, name, i);
        assert(before.take(i) =~= lens.take(i));
    } else {
        assert(lens.take(i) =~= before);
    }
}

/// Each directory of `PATH` that is not empty is searched for the program, after those
/// that come before it in `PATH`, and before anything else.
pub proof fn law_every_path_directory_is_searched(places: SearchPlaces, i: int)
    requires
        0 <= i < places.path_dir_lens@.len(),
        places.path_dir_lens@[i] > 0,
    ensures
        ({
            let at = filled(places.path_dir_lens@.take(i)) as int;
            let name = if places.windows { "grok.exe"@ } else { "grok"@ };
            &&& 0 <= at < search_candidates(places).len()
            &&& lies(search_candidates(places)[at], SearchRoot::PathDir(i as usize), seq![name])
        }),
{
    assert(places.path_dir_lens.len() == places.path_dir_lens@.len());
    lemma_path_entry(
        places.path_dir_lens@,
        crate::executable::program(places.windows),
        i,
    );
}

/// A program that the environment names counts before any search, unless the name is
/// empty.
pub proof fn law_named_program_counts_first(places: SearchPlaces)
    ensures
        places.override_len matches Some(len) && len > 0 ==> search_plan(places)
            == ExecutablePlanView::Override,
        !(places.override_len matches Some(len) && len > 0) ==> search_plan(places)
            == ExecutablePlanView::Search(search_candidates(places)),
{
}

/// The first candidate that is there is taken; where none is, the program is not
/// installed.
pub proof fn law_first_candidate_is_taken(
    present: Vec<bool>,
    found: Result<usize, HarnessError>,
    i: int,
)
    requires
        call_ensures(first_present, (&present,), found),
    ensures
        0 <= i < present@.len() && present@[i] && (forall|j: int| 0 <= j < i ==> !present@[j])
            ==> (found matches Ok(at) && at == i),
        (forall|j: int| 0 <= j < present@.len() ==> !present@[j]) ==> (found matches Err(
            HarnessError::NotInstalled(what),
        ) && what@ == NOT_INSTALLED@),
{
    if 0 <= i < present@.len() && present@[i] && (forall|j: int| 0 <= j < i ==> !present@[j]) {
        match found {
            Ok(at) => {
                if at < i {
                    assert(!present@[at as int]);
                }
                if i < at {
                    assert(!present@[i]);
                }
            },
            Err(_) => {
                assert(!present@[i]);
            },
        }
    }
}

/// What is said of a program that was not found: where it was searched for, and how to
/// name it.
pub proof fn law_missing_program_is_told_where_it_was_searched()
    ensures
        NOT_INSTALLED@
            == "grok (searched PATH, ~/.grok/bin, ~/bin, ~/.local/bin, /opt/homebrew/bin, /usr/local/bin, and fnm/nvm/volta/pnpm/bun install dirs; set GROK_EXECUTABLE to override)"@,
{
}

// ---------------------------------------------------------------------------
// Discovery
// ---------------------------------------------------------------------------

/// A reply with a model state gives the models of that state, as long as there are any;
/// one with an empty state, with a null state or with none is an error that says so.
pub proof fn law_reply_gives_the_models_of_its_state(
    reply: JsonView,
    meta: JsonView,
    state: JsonView,
)
    ensures
        holds(reply, "_meta"@, meta) && holds(meta, "modelState"@, state) && !(state is Null) ==> {
            &&& catalog_models(state).len() > 0 ==> discovered_models(reply) == Ok::<
                Seq<ModelView>,
                HarnessErrorView,
            >(catalog_models(state))
            &&& catalog_models(state).len() == 0 ==> discovered_models(reply) == Err::<
                Seq<ModelView>,
                HarnessErrorView,
            >(HarnessErrorView::Protocol("initialize: modelState has no models"@))
        },
        lacks(reply, "_meta"@) || holds(reply, "_meta"@, meta) && (lacks(meta, "modelState"@)
            || holds(meta, "modelState"@, JsonView::Null)) ==> discovered_models(reply) == Err::<
            Seq<ModelView>,
            HarnessErrorView,
        >(HarnessErrorView::Protocol("initialize: missing _meta.modelState"@)),
{
}

/// A discovery comes to what its reply gives; a failure is passed on, and a missing reply
/// is told as such.
pub proof fn law_discovery_passes_failures_on(discovery: Discovery)
    ensures
        discovery matches Discovery::Initialized(reply) ==> discovery_result(discovery)
            == discovered_models(reply@),
        discovery matches Discovery::Failed(error) ==> discovery_result(discovery) == Err::<
            Seq<ModelView>,
            HarnessErrorView,
        >(error@),
        discovery is TimedOut ==> discovery_result(discovery) == Err::<
            Seq<ModelView>,
            HarnessErrorView,
        >(HarnessErrorView::Protocol("model discovery timed out waiting for initialize"@)),
{
}

/// After the reply the agent is told that it is initialized, and the child is shut down;
/// without a reply the child is only shut down.
pub proof fn law_discovery_closes_the_child(discovery: Discovery)
    ensures
        discovery is Initialized ==> closing_actions(discovery) == seq![
            ActionView::Notify { method: "notifications/initialized"@, params: None },
            ActionView::Shutdown,
        ],
        !(discovery is Initialized) ==> closing_actions(discovery) == seq![ActionView::Shutdown],
{
}

/// A discovery moves by the event that it waits for and by no other: first the end of
/// the handshake, then the end of the child, then nothing.
pub proof fn law_discovery_moves_in_order(d: ModelDiscoveryView, event: DiscoveryEvent)
    ensures
        d is Initializing ==> (event matches DiscoveryEvent::Ended(outcome) ==> discovery_step(
            d,
            event,
        ) == (
            ModelDiscoveryView::Closing(discovery_result(outcome)),
            DiscoveryStepView::Continue(closing_actions(outcome)),
        )),
        d matches ModelDiscoveryView::Closing(models) ==> (event is ChildGone ==> discovery_step(
            d,
            event,
        ) == (ModelDiscoveryView::Closed, DiscoveryStepView::Finished(models))),
        d is Initializing && event is ChildGone || d is Closing && event is Ended || d is Closed
            ==> {
            &&& discovery_step(d, event).0 == d
            &&& discovery_step(d, event).1 == DiscoveryStepView::Continue(
                Seq::<ActionView>::empty(),
            )
        },
{
}

/// Discovery waits for its reply, and for the child to exit, as long as it says.
pub proof fn law_discovery_waits_so_long(timeout: Duration, grace: Duration)
    requires
        call_ensures(discovery_timeout, (), timeout),
        call_ensures(discovery_grace, (), grace),
    ensures
        timeout == duration_of_secs(15),
        grace == duration_of_secs(2),
{
}

// ---------------------------------------------------------------------------
// The harness
// ---------------------------------------------------------------------------

/// A new harness searches for its program, and gives two seconds after a cancel and three
/// after a request to terminate.
pub proof fn law_new_harness_has_the_default_graces(harness: GrokBuildHarness)
    requires
        call_ensures(GrokBuildHarness::new, (), harness),
    ensures
        harness.executable_path() is None,
        harness.grace_after_cancel() == duration_of_secs(2),
        harness.grace_after_term() == duration_of_secs(3),
{
}

/// What the harness says of itself.
pub proof fn law_harness_says_what_it_is(
    harness: GrokBuildHarness,
    id: HarnessId,
    name: &'static str,
    steers: bool,
    mode: SteeringMode,
    levels: Vec<ReasoningLevel>,
)
    requires
        call_ensures(GrokBuildHarness::id, (&harness,), id),
        call_ensures(GrokBuildHarness::display_name, (&harness,), name),
        call_ensures(GrokBuildHarness::supports_steering, (&harness,), steers),
        call_ensures(GrokBuildHarness::steering_mode, (&harness,), mode),
        call_ensures(GrokBuildHarness::reasoning_levels, (&harness,), levels),
    ensures
        id == HarnessId::GrokBuild,
        name@ == "Grok Build"@,
        steers,
        mode == SteeringMode::TurnBoundary,
        levels@ == seq![ReasoningLevel::Low, ReasoningLevel::Medium, ReasoningLevel::High],
{
}

} // verus!
