//! What the host does for a session: the outside work that the session's rules
//! ask for, in order.

use vstd::prelude::*;
use crate::json::{Json, JsonView};
use crate::proto::{opt_value, AgentEvent, AgentEventView};

verus! {

/// The code of the error that answers a request of the agent: no method of the
/// host is known to it.
pub const METHOD_NOT_FOUND: i64 = -32601;

/// One piece of outside work.
#[allow(inconsistent_fields)]
#[derive(Debug, PartialEq, Eq)]
pub enum Action {
    /// Hand an event to the consumer. Where the consumer refuses it, the actions that
    /// follow are not performed, all but a shutdown (see [`undelivered`]).
    Emit { event: AgentEvent },
    /// Send a request to the agent; its reply comes back as an event.
    Request { method: String, params: Json },
    /// Send a notification to the agent.
    Notify { method: String, params: Option<Json> },
    /// Answer a request of the agent with an error.
    Reject { id: Json, code: i64, message: String },
    /// Start to escalate from a cancelled prompt to signals.
    Escalate,
    /// Look at how the child went down, and report it.
    InspectChild,
    /// Drop a prompt that is in flight, and shut the child down.
    Shutdown,
}

/// The mathematical value of an [`Action`].
#[allow(inconsistent_fields)]
pub enum ActionView {
    Emit { event: AgentEventView },
    Request { method: Seq<char>, params: JsonView },
    Notify { method: Seq<char>, params: Option<JsonView> },
    Reject { id: JsonView, code: i64, message: Seq<char> },
    Escalate,
    InspectChild,
    Shutdown,
}

impl View for Action {
    type V = ActionView;

    open spec fn view(&self) -> ActionView {
        match self {
            Action::Emit { event } => ActionView::Emit { event: event@ },
            Action::Request { method, params } => ActionView::Request {
                method: method@,
                params: params@,
            },
            Action::Notify { method, params } => ActionView::Notify {
                method: method@,
                params: opt_value(*params),
            },
            Action::Reject { id, code, message } => ActionView::Reject {
                id: id@,
                code: *code,
                message: message@,
            },
            Action::Escalate => ActionView::Escalate,
            Action::InspectChild => ActionView::InspectChild,
            Action::Shutdown => ActionView::Shutdown,
        }
    }
}

/// The values of a sequence of actions.
pub open spec fn actions_view(actions: Seq<Action>) -> Seq<ActionView> {
    actions.map_values(|action: Action| action@)
}

/// The actions that hand a sequence of events to the consumer.
pub open spec fn emits(events: Seq<AgentEventView>) -> Seq<ActionView> {
    events.map_values(|event: AgentEventView| ActionView::Emit { event })
}

pub proof fn lemma_actions_concat(left: Seq<Action>, right: Seq<Action>)
    ensures
        actions_view(left + right) == actions_view(left) + actions_view(right),
{
    assert(actions_view(left + right) =~= actions_view(left) + actions_view(right));
}

/// The shutdowns among some actions.
pub open spec fn shutdowns(actions: Seq<ActionView>) -> Seq<ActionView>
    decreases actions.len(),
{
    if actions.len() == 0 {
        Seq::empty()
    } else {
        let before = shutdowns(actions.drop_last());
        if actions.last() == ActionView::Shutdown {
            before.push(ActionView::Shutdown)
        } else {
            before
        }
    }
}

/// What is left of the actions that follow an event which the consumer refused: a
/// shutdown, and nothing else.
pub fn undelivered(rest: &Vec<Action>) -> (kept: Vec<Action>)
    ensures
        actions_view(kept@) == shutdowns(actions_view(rest@)),
{
    let ghost all = actions_view(rest@);
    let mut kept: Vec<Action> = Vec::new();
    let mut i: usize = 0;
    assert(actions_view(kept@) =~= shutdowns(all.take(0)));
    while i < rest.len()
        invariant
            i <= rest.len(),
            all == actions_view(rest@),
            actions_view(kept@) == shutdowns(all.take(i as int)),
        decreases rest.len() - i,
    {
        let ghost before = kept@;
        proof {
            assert(all.take(i + 1).drop_last() =~= all.take(i as int));
            assert(all.take(i + 1).last() == rest@[i as int]@);
        }
        if matches!(rest[i], Action::Shutdown) {
            kept.push(Action::Shutdown);
            assert(actions_view(kept@) =~= actions_view(before).push(ActionView::Shutdown));
        }
        i += 1;
    }
    assert(all.take(i as int) =~= all);
    kept
}

} // verus!
