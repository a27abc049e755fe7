//! The agent's process: how it is started, and how it is brought down.

use std::time::Duration;
use vstd::prelude::*;
use crate::catalog::{effort, sandbox_env, sandbox_word, to_effort};
use crate::harness::GrokBuildHarness;
use crate::json::opt_text;
use crate::proto::{texts_view, HarnessError, HarnessErrorView, RunRequest};

verus! {

/// How a child is started.
#[derive(Debug, PartialEq, Eq)]
pub struct Invocation {
    pub args: Vec<String>,
    pub env: Vec<(String, String)>,
    pub cwd: Option<String>,
}

/// The characters of a sequence of pairs.
pub open spec fn pairs_view(pairs: Seq<(String, String)>) -> Seq<(Seq<char>, Seq<char>)> {
    pairs.map_values(|pair: (String, String)| (pair.0@, pair.1@))
}

/// The arguments that choose the model.
pub open spec fn model_args(request: RunRequest) -> Seq<Seq<char>> {
    match request.model {
        Some(model) => if model@.len() > 0 {
            seq!["--model"@, model@]
        } else {
            Seq::empty()
        },
        None => Seq::empty(),
    }
}

/// The arguments that choose the effort.
pub open spec fn effort_args(request: RunRequest) -> Seq<Seq<char>> {
    match request.reasoning {
        Some(level) => seq!["--reasoning-effort"@, effort(level)],
        None => Seq::empty(),
    }
}

/// The arguments of the child. A child that is only asked for its models gets
/// neither model nor effort.
pub open spec fn agent_args(request: RunRequest, for_discovery: bool) -> Seq<Seq<char>> {
    let fixed = seq!["agent"@, "--always-approve"@, "--no-leader"@];
    if for_discovery {
        fixed.push("stdio"@)
    } else {
        (fixed + model_args(request) + effort_args(request)).push("stdio"@)
    }
}

/// What is added to the child's environment.
pub open spec fn agent_env(request: RunRequest, for_discovery: bool) -> Seq<
    (Seq<char>, Seq<char>),
> {
    (if for_discovery {
        Seq::empty()
    } else {
        seq![("GROK_SANDBOX"@, sandbox_word(request.sandbox))]
    }) + seq![
        ("GROK_ASK_USER_QUESTION_TIMEOUT_ENABLED"@, "true"@),
        ("GROK_ASK_USER_QUESTION_TIMEOUT_SECS"@, "30"@),
    ]
}

/// The directory that the child is started in, where one is asked for.
pub open spec fn agent_cwd(request: RunRequest) -> Option<Seq<char>> {
    if request.cwd@.len() > 0 {
        Some(request.cwd@)
    } else {
        None
    }
}

/// The error of a child that could not be started.
pub fn spawn_error(not_found: bool, executable: String, message: String) -> (error: HarnessError)
    ensures
        error@ == if not_found {
            HarnessErrorView::NotInstalled(executable@)
        } else {
            HarnessErrorView::Io(message@)
        },
{
    if not_found {
        HarnessError::NotInstalled(executable)
    } else {
        HarnessError::Io(message)
    }
}

/// A child must have both pipes.
pub fn check_pipes(stdin: bool, stdout: bool) -> (checked: Result<(), HarnessError>)
    ensures
        match checked {
            Ok(_) => stdin && stdout,
            Err(error) => error@ == HarnessErrorView::Protocol(
                if !stdin {
                    "grok child has no stdin"@
                } else {
                    "grok child has no stdout"@
                },
            ) && !(stdin && stdout),
        },
{
    if !stdin {
        Err(HarnessError::Protocol("grok child has no stdin".to_owned()))
    } else if !stdout {
        Err(HarnessError::Protocol("grok child has no stdout".to_owned()))
    } else {
        Ok(())
    }
}

/// A signal to the child.
#[derive(Clone, Copy, Debug, PartialEq, Eq, Structural)]
pub enum Signal {
    Term,
    Kill,
}

/// What is known of a child that is being shut down.
#[derive(Clone, Copy, Debug, PartialEq, Eq, Structural)]
pub enum ShutdownEvent {
    /// It was looked at.
    Probed { exited: bool, has_pid: bool },
    /// It was asked to terminate, and given its grace.
    Terminated { exited: bool },
}

/// What to do with a child that is being shut down.
#[derive(Clone, Copy, Debug, PartialEq, Eq, Structural)]
pub enum ShutdownAction {
    /// Nothing: it is gone.
    Leave,
    /// Ask it to terminate, and wait for its grace at most.
    Terminate,
    /// Kill it, and wait for it.
    Kill,
}

/// What to do with a child that is being shut down: leave it if it is gone; ask it
/// to terminate if it can be asked; kill it if that did not help.
pub open spec fn shutdown_action(event: ShutdownEvent) -> ShutdownAction {
    match event {
        ShutdownEvent::Probed { exited: true, .. } => ShutdownAction::Leave,
        ShutdownEvent::Probed { exited: false, has_pid: true } => ShutdownAction::Terminate,
        ShutdownEvent::Terminated { exited: true } => ShutdownAction::Leave,
        _ => ShutdownAction::Kill,
    }
}

/// What to do with a child that is being shut down.
pub fn shutdown_child(event: ShutdownEvent) -> (action: ShutdownAction)
    ensures
        action == shutdown_action(event),
{
    match event {
        ShutdownEvent::Probed { exited, has_pid } => if exited {
            ShutdownAction::Leave
        } else if has_pid {
            ShutdownAction::Terminate
        } else {
            ShutdownAction::Kill
        },
        ShutdownEvent::Terminated { exited } => if exited {
            ShutdownAction::Leave
        } else {
            ShutdownAction::Kill
        },
    }
}

impl GrokBuildHarness {
    /// How the child is started for `grok agent ... stdio`.
    pub fn agent_command(&self, request: &RunRequest, for_discovery: bool) -> (invocation:
        Invocation)
        ensures
            texts_view(invocation.args@) == agent_args(*request, for_discovery),
            pairs_view(invocation.env@) == agent_env(*request, for_discovery),
            opt_text(invocation.cwd) == agent_cwd(*request),
    {
        let mut args: Vec<String> = Vec::new();
        args.push("agent".to_owned());
        args.push("--always-approve".to_owned());
        args.push("--no-leader".to_owned());
        assert(texts_view(args@) =~= seq!["agent"@, "--always-approve"@, "--no-leader"@]);
        let ghost fixed = args@;
        if !for_discovery {
            match &request.model {
                Some(model) => if !model.as_str().is_empty() {
                    args.push("--model".to_owned());
                    args.push(model.clone());
                },
                None => {},
            }
            assert(texts_view(args@) =~= texts_view(fixed) + model_args(*request));
            let ghost with_model = args@;
            match to_effort(request.reasoning) {
                Some(effort) => {
                    args.push("--reasoning-effort".to_owned());
                    args.push(effort.to_owned());
                },
                None => {},
            }
            assert(texts_view(args@) =~= texts_view(with_model) + effort_args(*request));
        }
        args.push("stdio".to_owned());
        assert(texts_view(args@) =~= agent_args(*request, for_discovery));
        let mut env: Vec<(String, String)> = Vec::new();
        if !for_discovery {
            env.push(("GROK_SANDBOX".to_owned(), sandbox_env(request.sandbox).to_owned()));
        }
        // Bound an accidental question to the user: no answer would come.
        env.push(("GROK_ASK_USER_QUESTION_TIMEOUT_ENABLED".to_owned(), "true".to_owned()));
        env.push(("GROK_ASK_USER_QUESTION_TIMEOUT_SECS".to_owned(), "30".to_owned()));
        assert(pairs_view(env@) =~= agent_env(*request, for_discovery));
        let cwd = if request.cwd.as_str().is_empty() {
            None
        } else {
            Some(request.cwd.clone())
        };
        Invocation { args, env, cwd }
    }

    /// The signals that follow a cancelled prompt, each after its grace.
    pub fn escalation(&self) -> (steps: Vec<(Duration, Signal)>)
        ensures
            steps@ == seq![
                (self.grace_after_cancel(), Signal::Term),
                (self.grace_after_term(), Signal::Kill),
            ],
    {
        let steps = vec![(self.interrupt_grace(), Signal::Term), (self.kill_grace(), Signal::Kill)];
        assert(steps@ =~= seq![
            (self.grace_after_cancel(), Signal::Term),
            (self.grace_after_term(), Signal::Kill),
        ]);
        steps
    }
}

/// A child that is shut down is left alone only once it has exited; in any other
/// case it is killed in the end, after one request to terminate at most.
pub proof fn law_shutdown_leaves_no_child(exited: bool, has_pid: bool, exited_in_grace: bool)
    ensures
        ({
            let first = shutdown_action(ShutdownEvent::Probed { exited, has_pid });
            let second = shutdown_action(ShutdownEvent::Terminated { exited: exited_in_grace });
            let last = if first == ShutdownAction::Terminate { second } else { first };
            &&& last != ShutdownAction::Terminate
            &&& last == ShutdownAction::Leave <==> exited || has_pid && exited_in_grace
        }),
{
}

/// What a child that is only asked for its models is started with does not depend
/// on the model, effort or sandbox of a request.
pub proof fn law_discovery_ignores_the_request(one: RunRequest, other: RunRequest)
    ensures
        agent_args(one, true) == agent_args(other, true),
        agent_env(one, true) == agent_env(other, true),
{
}

/// Every child is told to bound the time that a question to the user may take.
pub proof fn law_questions_are_bounded(request: RunRequest, for_discovery: bool)
    ensures
        agent_env(request, for_discovery).contains(
            ("GROK_ASK_USER_QUESTION_TIMEOUT_ENABLED"@, "true"@),
        ),
        agent_env(request, for_discovery).contains(
            ("GROK_ASK_USER_QUESTION_TIMEOUT_SECS"@, "30"@),
        ),
{
    let env = agent_env(request, for_discovery);
    assert(env[env.len() - 2] == ("GROK_ASK_USER_QUESTION_TIMEOUT_ENABLED"@, "true"@));
    assert(env[env.len() - 1] == ("GROK_ASK_USER_QUESTION_TIMEOUT_SECS"@, "30"@));
}

} // verus!
