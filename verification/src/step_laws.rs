//! What each event does to a session, said of the session's own parts and of the parts
//! of the actions that come out.

use vstd::prelude::*;
use crate::action::{emits, ActionView};
use crate::handshake::{setup_end, OpenSessionView};
use crate::json::JsonView;
use crate::normalize::{session_events, stop_error, usage_event};
use crate::proto::{AgentEventView, DoneStatus, HarnessId, RunRequest};
use crate::session::{
    accepts, first_turn, opening_actions, refused, session_step, OpeningView,
    SessionEventView, SessionView, Stage,
};
use crate::tool_laws::{
    carries, law_chunk_reports_its_text, law_notification_carries_its_update,
    law_only_limit_and_refusal_are_errors, stops_for,
};
use crate::value_laws::{holds, holds_text, lacks};
use crate::wire_laws::{law_cancel_names_the_session, law_prompt_says_what_the_user_said, says};

verus! {

/// Whether a session runs and waits for no announcement.
pub open spec fn is_attentive(s: SessionView) -> bool {
    s.stage == Stage::Running && s.opening is None
}

/// Whether an action reports the end of a turn of session `id`, with this status and
/// this error.
pub open spec fn reports_end(
    action: ActionView,
    id: Seq<char>,
    status: DoneStatus,
    error: Option<Seq<char>>,
) -> bool {
    action == (ActionView::Emit {
        event: AgentEventView::Done { status, result: None, error, session_id: Some(id) },
    })
}

/// Whether an action is the prompt of session `id` that says exactly `text`, after the
/// session rule or without it.
pub open spec fn asks(action: ActionView, id: Seq<char>, text: Seq<char>, rule: bool) -> bool {
    action matches ActionView::Request { method, params } && {
        &&& method == "session/prompt"@
        &&& holds_text(params, "sessionId"@, id)
        &&& params->Object_0.contains_key("prompt"@)
        &&& params->Object_0["prompt"@] matches JsonView::Array(blocks) && {
            &&& blocks.len() == if rule { 2int } else { 1int }
            &&& says(blocks.last(), text)
        }
    }
}

// ---------------------------------------------------------------------------
// Which events count
// ---------------------------------------------------------------------------

/// An event is taken exactly where it fits the state: what the agent sends, while the
/// session is attentive; the answer to a prompt, while one is active as well; steering,
/// while it is open and nobody interrupted; an interrupt, once; a report on the child,
/// while one is awaited; the consumer's leave, until the end.
pub proof fn law_events_count_where_they_fit(s: SessionView, event: SessionEventView)
    ensures
        event is Announced ==> (accepts(s, event) <==> s.stage == Stage::Running && s.opening
            is Some),
        event is Notification || event is ServerRequest || event is Eof ==> (accepts(s, event)
            <==> is_attentive(s)),
        event is PromptDone || event is PromptRejected || event is PromptLost ==> (accepts(
            s,
            event,
        ) <==> is_attentive(s) && s.prompt_active),
        event is Steer || event is SteeringClosed ==> (accepts(s, event) <==> is_attentive(s)
            && s.steering_open && !s.interrupted),
        event is Interrupt ==> (accepts(s, event) <==> is_attentive(s) && !s.interrupted),
        event is ChildInspected ==> (accepts(s, event) <==> s.stage == Stage::Inspecting),
        event is ConsumerGone ==> (accepts(s, event) <==> s.stage != Stage::Ended),
{
}

/// An event that does not fit changes nothing and calls for nothing.
pub proof fn law_other_events_do_nothing(
    s: SessionView,
    event: SessionEventView,
    closing_id: Seq<char>,
    steering_id: Seq<char>,
)
    requires
        !accepts(s, event),
    ensures
        session_step(s, event, closing_id, steering_id).0 == s,
        session_step(s, event, closing_id, steering_id).1.len() == 0,
{
}

// ---------------------------------------------------------------------------
// What the agent sends
// ---------------------------------------------------------------------------

/// Whether the parameters of a notification carry this update.
pub open spec fn brings(params: JsonView, update: JsonView) -> bool {
    holds(params, "update"@, update) || lacks(params, "update"@) && update == params
}

/// While a session is attentive, every update is passed on, whatever else waits: each
/// event that it makes is emitted, in order, and nothing else. Only the calls that were
/// seen change: exactly those that the update reports are added.
pub proof fn law_every_update_is_passed_on(
    s: SessionView,
    params: JsonView,
    update: JsonView,
    closing_id: Seq<char>,
    steering_id: Seq<char>,
    i: int,
    id: Seq<char>,
)
    requires
        is_attentive(s),
        brings(params, update),
    ensures
        ({
            let events = session_events(update, s.seen_tools);
            let (next, actions) = session_step(
                s,
                SessionEventView::Notification { method: "session/update"@, params },
                closing_id,
                steering_id,
            );
            &&& actions.len() == events.len()
            &&& 0 <= i < events.len() ==> actions[i] == (ActionView::Emit { event: events[i] })
            &&& next == SessionView { seen_tools: next.seen_tools, ..s }
            &&& next.seen_tools.contains(id) <==> s.seen_tools.contains(id) || exists|k: int|
                0 <= k < events.len() && (#[trigger] events[k] matches AgentEventView::ToolCall {
                    id: called,
                    ..
                } && called == id)
        }),
{
    law_notification_carries_its_update(params, update);
}

/// What an update calls for depends on the update and the calls that were seen, and on
/// nothing else in the session.
pub proof fn law_updates_depend_on_seen_calls_only(
    s: SessionView,
    other: SessionView,
    params: JsonView,
    closing_id: Seq<char>,
    steering_id: Seq<char>,
)
    requires
        is_attentive(s),
        is_attentive(other),
        s.seen_tools == other.seen_tools,
    ensures
        ({
            let event = SessionEventView::Notification { method: "session/update"@, params };
            &&& session_step(s, event, closing_id, steering_id).1 == session_step(
                other,
                event,
                closing_id,
                steering_id,
            ).1
            &&& session_step(s, event, closing_id, steering_id).0.seen_tools == session_step(
                other,
                event,
                closing_id,
                steering_id,
            ).0.seen_tools
        }),
{
}

/// The text of a message streams to the consumer at once, and so does a thought, in
/// every attentive state, with or without steers that wait.
pub proof fn law_text_streams_at_once(
    s: SessionView,
    params: JsonView,
    update: JsonView,
    text: Seq<char>,
    closing_id: Seq<char>,
    steering_id: Seq<char>,
)
    requires
        is_attentive(s),
        brings(params, update),
        carries(update, text),
        text.len() > 0,
    ensures
        ({
            let (next, actions) = session_step(
                s,
                SessionEventView::Notification { method: "session/update"@, params },
                closing_id,
                steering_id,
            );
            &&& holds_text(update, "sessionUpdate"@, "agent_message_chunk"@) ==> actions == seq![
                ActionView::Emit { event: AgentEventView::TextDelta { text } },
            ]
            &&& holds_text(update, "sessionUpdate"@, "agent_thought_chunk"@) ==> actions == seq![
                ActionView::Emit { event: AgentEventView::ReasoningDelta { text } },
            ]
        }),
{
    law_notification_carries_its_update(params, update);
    law_chunk_reports_its_text(update, text, s.seen_tools);
    let events = session_events(update, s.seen_tools);
    let actions = session_step(
        s,
        SessionEventView::Notification { method: "session/update"@, params },
        closing_id,
        steering_id,
    ).1;
    assert(actions == emits(events));
    if holds_text(update, "sessionUpdate"@, "agent_message_chunk"@) {
        assert(actions =~= seq![ActionView::Emit { event: AgentEventView::TextDelta { text } }]);
    }
    if holds_text(update, "sessionUpdate"@, "agent_thought_chunk"@) {
        assert(actions =~= seq![
            ActionView::Emit { event: AgentEventView::ReasoningDelta { text } },
        ]);
    }
}

/// Notifications by any other method are tolerated: they do nothing.
pub proof fn law_other_notifications_are_tolerated(
    s: SessionView,
    method: Seq<char>,
    params: JsonView,
    closing_id: Seq<char>,
    steering_id: Seq<char>,
)
    requires
        method != "session/update"@,
    ensures
        ({
            let (next, actions) = session_step(
                s,
                SessionEventView::Notification { method, params },
                closing_id,
                steering_id,
            );
            next == s && actions.len() == 0
        }),
{
}

/// A request of the agent is answered under its id, with the code for an unknown method
/// and with the method's name, and does nothing else.
pub proof fn law_agent_request_is_answered(
    s: SessionView,
    id: JsonView,
    method: Seq<char>,
    closing_id: Seq<char>,
    steering_id: Seq<char>,
)
    requires
        is_attentive(s),
    ensures
        ({
            let (next, actions) = session_step(
                s,
                SessionEventView::ServerRequest { id, method },
                closing_id,
                steering_id,
            );
            &&& next == s
            &&& actions.len() == 1
            &&& actions[0] == (ActionView::Reject {
                id,
                code: -32601i64,
                message: "unsupported method: "@ + method,
            })
        }),
{
}

/// When the agent goes away, an interrupted session ends so; one whose turn is open has
/// the child inspected; one between turns just ends.
pub proof fn law_lost_agent_ends_the_session(
    s: SessionView,
    closing_id: Seq<char>,
    steering_id: Seq<char>,
)
    requires
        is_attentive(s),
    ensures
        ({
            let (next, actions) = session_step(s, SessionEventView::Eof, closing_id, steering_id);
            &&& next == SessionView { stage: next.stage, ..s }
            &&& s.interrupted ==> {
                &&& next.stage == Stage::Ended
                &&& actions.len() == 2
                &&& reports_end(actions[0], s.session_id, DoneStatus::Interrupted, None)
                &&& actions[1] == ActionView::Shutdown
            }
            &&& !s.interrupted && !s.done_current ==> {
                &&& next.stage == Stage::Inspecting
                &&& actions == seq![ActionView::InspectChild]
            }
            &&& !s.interrupted && s.done_current ==> {
                &&& next.stage == Stage::Ended
                &&& actions == seq![ActionView::Shutdown]
            }
        }),
{
}

/// How a child went down is reported as an error, and then the session ends.
pub proof fn law_inspection_is_reported(
    s: SessionView,
    message: Seq<char>,
    closing_id: Seq<char>,
    steering_id: Seq<char>,
)
    requires
        s.stage == Stage::Inspecting,
    ensures
        ({
            let (next, actions) = session_step(
                s,
                SessionEventView::ChildInspected { message },
                closing_id,
                steering_id,
            );
            &&& next == SessionView { stage: Stage::Ended, ..s }
            &&& actions.len() == 2
            &&& reports_end(actions[0], s.session_id, DoneStatus::Errored, Some(message))
            &&& actions[1] == ActionView::Shutdown
        }),
{
}

/// When nobody listens any more, the child is shut down, and the rest stays.
pub proof fn law_leave_of_the_consumer_shuts_down(
    s: SessionView,
    closing_id: Seq<char>,
    steering_id: Seq<char>,
)
    requires
        s.stage != Stage::Ended,
    ensures
        session_step(s, SessionEventView::ConsumerGone, closing_id, steering_id) == (
            SessionView { stage: Stage::Ended, ..s },
            seq![ActionView::Shutdown],
        ),
        refused(s, Seq::empty()).0 == (SessionView { stage: Stage::Ended, ..s }),
        refused(s, Seq::empty()).1 == seq![ActionView::Shutdown],
{
    assert(refused(s, Seq::empty()).1 =~= seq![ActionView::Shutdown]);
}

// ---------------------------------------------------------------------------
// Answers to a prompt
// ---------------------------------------------------------------------------

/// What an answered prompt is reported as, by position: the usage first, where it is
/// known; then the end of the message in progress, under its id; then the end of the
/// turn. The turn was interrupted if the user interrupted. Otherwise it failed exactly
/// if there is an error to report, and completed exactly if there is none.
pub proof fn law_answered_prompt_is_reported(
    s: SessionView,
    result: JsonView,
    closing_id: Seq<char>,
    steering_id: Seq<char>,
)
    requires
        is_attentive(s),
        s.prompt_active,
    ensures
        ({
            let actions = session_step(
                s,
                SessionEventView::PromptDone { result },
                closing_id,
                steering_id,
            ).1;
            let at = if usage_event(result) is Some { 1int } else { 0int };
            let error = stop_error(result);
            &&& actions.len() >= at + 2
            &&& usage_event(result) matches Some(usage) ==> actions[0] == (ActionView::Emit {
                event: usage,
            })
            &&& actions[at] == (ActionView::Emit {
                event: AgentEventView::AssistantMessageCompleted {
                    assistant_message_id: s.message_id,
                },
            })
            &&& s.interrupted ==> reports_end(
                actions[at + 1],
                s.session_id,
                DoneStatus::Interrupted,
                error,
            )
            &&& !s.interrupted && error is Some ==> reports_end(
                actions[at + 1],
                s.session_id,
                DoneStatus::Errored,
                error,
            )
            &&& !s.interrupted && error is None ==> reports_end(
                actions[at + 1],
                s.session_id,
                DoneStatus::Completed,
                None,
            )
        }),
{
}

/// A turn that hit the token limit, or that the agent refused, is reported as failed,
/// with words that say why; one that stopped for any other reason, or gave none, as
/// completed.
pub proof fn law_cut_off_turn_is_reported_as_failed(
    s: SessionView,
    result: JsonView,
    reason: Seq<char>,
    closing_id: Seq<char>,
    steering_id: Seq<char>,
)
    requires
        is_attentive(s),
        s.prompt_active,
        !s.interrupted,
    ensures
        ({
            let actions = session_step(
                s,
                SessionEventView::PromptDone { result },
                closing_id,
                steering_id,
            ).1;
            let at = if usage_event(result) is Some { 2int } else { 1int };
            &&& stops_for(result, "max_tokens"@) || stops_for(result, "max-tokens"@)
                ==> reports_end(
                actions[at],
                s.session_id,
                DoneStatus::Errored,
                Some("Grok stopped: max tokens"@),
            )
            &&& stops_for(result, "refusal"@) ==> reports_end(
                actions[at],
                s.session_id,
                DoneStatus::Errored,
                Some("Grok refused the request"@),
            )
            &&& stops_for(result, reason) && reason != "max_tokens"@ && reason != "max-tokens"@
                && reason != "refusal"@ ==> reports_end(
                actions[at],
                s.session_id,
                DoneStatus::Completed,
                None,
            )
            &&& (forall|any: Seq<char>| !stops_for(result, any)) ==> reports_end(
                actions[at],
                s.session_id,
                DoneStatus::Completed,
                None,
            )
        }),
{
    law_only_limit_and_refusal_are_errors(result, reason);
    law_answered_prompt_is_reported(s, result, closing_id, steering_id);
}

/// What follows the report of an answered prompt. An interrupted session ends. A steer
/// that waits is announced, the one that came first, under a new message id. With no
/// more steering the session ends; else it waits.
pub proof fn law_turn_is_followed_by_the_next(
    s: SessionView,
    result: JsonView,
    closing_id: Seq<char>,
    steering_id: Seq<char>,
)
    requires
        is_attentive(s),
        s.prompt_active,
    ensures
        ({
            let (next, actions) = session_step(
                s,
                SessionEventView::PromptDone { result },
                closing_id,
                steering_id,
            );
            let at = if usage_event(result) is Some { 3int } else { 2int };
            let idle = SessionView {
                message_id: closing_id,
                prompt_active: false,
                done_current: true,
                ..s
            };
            &&& s.interrupted || s.queued_steers.len() == 0 && !s.steering_open ==> {
                &&& next == SessionView { stage: Stage::Ended, ..idle }
                &&& actions.len() == at + 1
                &&& actions[at] == ActionView::Shutdown
            }
            &&& !s.interrupted && s.queued_steers.len() > 0 ==> {
                &&& next == SessionView {
                    message_id: steering_id,
                    queued_steers: s.queued_steers.subrange(1, s.queued_steers.len() as int),
                    opening: Some(
                        OpeningView { text: s.queued_steers[0], include_session_rule: false },
                    ),
                    ..idle
                }
                &&& actions.len() == at + 1
                &&& actions[at] == (ActionView::Emit {
                    event: AgentEventView::Steered {
                        assistant_message_id: Some(closing_id),
                        next_assistant_message_id: Some(steering_id),
                    },
                })
            }
            &&& !s.interrupted && s.queued_steers.len() == 0 && s.steering_open ==> {
                &&& next == idle
                &&& actions.len() == at
            }
        }),
{
    if s.queued_steers.len() > 0 {
        assert(s.queued_steers.drop_first() =~= s.queued_steers.subrange(
            1,
            s.queued_steers.len() as int,
        ));
    }
}

/// A rejected prompt ends the session: as interrupted where the user interrupted, else
/// as failed with the agent's words, and then the child is inspected, as long as the
/// turn is open.
pub proof fn law_rejected_prompt_ends_the_session(
    s: SessionView,
    error: Seq<char>,
    closing_id: Seq<char>,
    steering_id: Seq<char>,
)
    requires
        is_attentive(s),
        s.prompt_active,
        !s.done_current,
    ensures
        ({
            let (next, actions) = session_step(
                s,
                SessionEventView::PromptRejected { error },
                closing_id,
                steering_id,
            );
            &&& next == SessionView { stage: next.stage, prompt_active: false, ..s }
            &&& actions.len() == 2
            &&& s.interrupted ==> {
                &&& next.stage == Stage::Ended
                &&& reports_end(actions[0], s.session_id, DoneStatus::Interrupted, None)
                &&& actions[1] == ActionView::Shutdown
            }
            &&& !s.interrupted ==> {
                &&& next.stage == Stage::Inspecting
                &&& reports_end(actions[0], s.session_id, DoneStatus::Errored, Some(error))
                &&& actions[1] == ActionView::InspectChild
            }
        }),
{
}

/// A prompt whose task went down is reported as failed, with words that say so; then an
/// interrupted session ends as interrupted, and any other has the child inspected.
pub proof fn law_lost_prompt_ends_the_session(
    s: SessionView,
    error: Seq<char>,
    closing_id: Seq<char>,
    steering_id: Seq<char>,
)
    requires
        is_attentive(s),
        s.prompt_active,
        !s.done_current,
    ensures
        ({
            let (next, actions) = session_step(
                s,
                SessionEventView::PromptLost { error },
                closing_id,
                steering_id,
            );
            &&& next == SessionView { stage: next.stage, prompt_active: false, ..s }
            &&& reports_end(
                actions[0],
                s.session_id,
                DoneStatus::Errored,
                Some("prompt task failed: "@ + error),
            )
            &&& s.interrupted ==> {
                &&& next.stage == Stage::Ended
                &&& actions.len() == 3
                &&& reports_end(actions[1], s.session_id, DoneStatus::Interrupted, None)
                &&& actions[2] == ActionView::Shutdown
            }
            &&& !s.interrupted ==> {
                &&& next.stage == Stage::Inspecting
                &&& actions.len() == 2
                &&& actions[1] == ActionView::InspectChild
            }
        }),
{
}

// ---------------------------------------------------------------------------
// The user
// ---------------------------------------------------------------------------

/// A steer waits behind those that wait already, while a prompt is active; between
/// turns it is announced at once, under a new message id.
pub proof fn law_steer_waits_or_is_announced(
    s: SessionView,
    text: Seq<char>,
    closing_id: Seq<char>,
    steering_id: Seq<char>,
)
    requires
        is_attentive(s),
        s.steering_open,
        !s.interrupted,
    ensures
        ({
            let (next, actions) = session_step(
                s,
                SessionEventView::Steer { text },
                closing_id,
                steering_id,
            );
            &&& s.prompt_active ==> {
                &&& next == SessionView { queued_steers: next.queued_steers, ..s }
                &&& next.queued_steers == s.queued_steers + seq![text]
                &&& actions.len() == 0
            }
            &&& !s.prompt_active ==> {
                &&& next == SessionView {
                    message_id: steering_id,
                    opening: Some(OpeningView { text, include_session_rule: false }),
                    ..s
                }
                &&& actions == seq![
                    ActionView::Emit {
                        event: AgentEventView::Steered {
                            assistant_message_id: Some(s.message_id),
                            next_assistant_message_id: Some(steering_id),
                        },
                    },
                ]
            }
        }),
{
    assert(s.queued_steers.push(text) =~= s.queued_steers + seq![text]);
}

/// Once a turn is announced and the announcement taken, its prompt goes out: one
/// request, to the session, that says exactly the text of the turn. The turn is then
/// open, and no call was seen in it.
pub proof fn law_announced_turn_is_prompted(
    s: SessionView,
    turn: OpeningView,
    closing_id: Seq<char>,
    steering_id: Seq<char>,
)
    requires
        s.stage == Stage::Running,
        s.opening == Some(turn),
    ensures
        ({
            let (next, actions) = session_step(
                s,
                SessionEventView::Announced,
                closing_id,
                steering_id,
            );
            &&& actions.len() == 1
            &&& asks(actions[0], s.session_id, turn.text, turn.include_session_rule)
            &&& next == SessionView {
                opening: None,
                seen_tools: Set::empty(),
                prompt_active: true,
                done_current: false,
                ..s
            }
        }),
{
    law_prompt_says_what_the_user_said(s.session_id, turn.text, turn.include_session_rule);
    let params = session_step(s, SessionEventView::Announced, closing_id, steering_id).1[0]->Request_params;
    assert(params->Object_0.dom().contains("prompt"@));
}

/// A steer between turns reaches the agent word for word, once it is announced.
pub proof fn law_steer_reaches_the_agent(
    s: SessionView,
    text: Seq<char>,
    closing_id: Seq<char>,
    steering_id: Seq<char>,
)
    requires
        is_attentive(s),
        s.steering_open,
        !s.interrupted,
        !s.prompt_active,
    ensures
        ({
            let announced = session_step(
                s,
                SessionEventView::Steer { text },
                closing_id,
                steering_id,
            ).0;
            let sent = session_step(
                announced,
                SessionEventView::Announced,
                closing_id,
                steering_id,
            ).1;
            sent.len() == 1 && asks(sent[0], s.session_id, text, false)
        }),
{
    let announced = session_step(s, SessionEventView::Steer { text }, closing_id, steering_id).0;
    law_announced_turn_is_prompted(
        announced,
        OpeningView { text, include_session_rule: false },
        closing_id,
        steering_id,
    );
}

/// The first steer that waited reaches the agent word for word after the turn that it
/// waited for.
pub proof fn law_waiting_steer_reaches_the_agent(
    s: SessionView,
    result: JsonView,
    closing_id: Seq<char>,
    steering_id: Seq<char>,
)
    requires
        is_attentive(s),
        s.prompt_active,
        !s.interrupted,
        s.queued_steers.len() > 0,
    ensures
        ({
            let announced = session_step(
                s,
                SessionEventView::PromptDone { result },
                closing_id,
                steering_id,
            ).0;
            let sent = session_step(
                announced,
                SessionEventView::Announced,
                closing_id,
                steering_id,
            ).1;
            sent.len() == 1 && asks(sent[0], s.session_id, s.queued_steers[0], false)
        }),
{
    let announced = session_step(
        s,
        SessionEventView::PromptDone { result },
        closing_id,
        steering_id,
    ).0;
    law_turn_is_followed_by_the_next(s, result, closing_id, steering_id);
    law_announced_turn_is_prompted(
        announced,
        OpeningView { text: s.queued_steers[0], include_session_rule: false },
        closing_id,
        steering_id,
    );
}

/// When there will be no more steering, a session between turns ends; during a turn it
/// goes on, with what waits.
pub proof fn law_closed_mailbox_ends_an_idle_session(
    s: SessionView,
    closing_id: Seq<char>,
    steering_id: Seq<char>,
)
    requires
        is_attentive(s),
        s.steering_open,
        !s.interrupted,
    ensures
        ({
            let (next, actions) = session_step(
                s,
                SessionEventView::SteeringClosed,
                closing_id,
                steering_id,
            );
            &&& next == SessionView { stage: next.stage, steering_open: false, ..s }
            &&& s.prompt_active || s.queued_steers.len() > 0 ==> next.stage == Stage::Running
                && actions.len() == 0
            &&& !s.prompt_active && s.queued_steers.len() == 0 && s.done_current ==> next.stage
                == Stage::Ended && actions == seq![ActionView::Shutdown]
        }),
{
}

/// An interrupt tells the agent to cancel this session. While a prompt is active, the
/// escalation starts and the session waits; between turns the end is reported, and the
/// session ends.
pub proof fn law_interrupt_cancels_this_session(
    s: SessionView,
    closing_id: Seq<char>,
    steering_id: Seq<char>,
)
    requires
        is_attentive(s),
        !s.interrupted,
    ensures
        ({
            let (next, actions) = session_step(
                s,
                SessionEventView::Interrupt,
                closing_id,
                steering_id,
            );
            &&& next == SessionView { stage: next.stage, interrupted: true, ..s }
            &&& actions[0] matches ActionView::Notify { method, params: Some(params) } && method
                == "session/cancel"@ && holds_text(params, "sessionId"@, s.session_id)
            &&& s.prompt_active ==> {
                &&& next.stage == Stage::Running
                &&& actions.len() == 2
                &&& actions[1] == ActionView::Escalate
            }
            &&& !s.prompt_active ==> {
                &&& next.stage == Stage::Ended
                &&& actions.len() == 3
                &&& reports_end(actions[1], s.session_id, DoneStatus::Interrupted, None)
                &&& actions[2] == ActionView::Shutdown
            }
        }),
{
    law_cancel_names_the_session(s.session_id);
}

// ---------------------------------------------------------------------------
// Start and failed setup
// ---------------------------------------------------------------------------

/// A session starts with one announcement: the harness, the session, its directory and
/// the first message id; the model that was asked for, else the one that the agent
/// named, else none. Its first turn will say the user's prompt, after the session rule.
pub proof fn law_session_is_announced(
    request: RunRequest,
    open: OpenSessionView,
    message_id: Seq<char>,
    closing_id: Seq<char>,
    steering_id: Seq<char>,
)
    ensures
        ({
            let actions = opening_actions(request, open, message_id);
            let first = first_turn(open.session_id, message_id, request.prompt@);
            let sent = session_step(first, SessionEventView::Announced, closing_id, steering_id).1;
            &&& actions.len() == 1
            &&& actions[0] matches ActionView::Emit { event } && (
            event matches AgentEventView::SessionStarted {
                harness,
                model,
                tools,
                cwd,
                session_id,
                assistant_message_id,
            } && {
                &&& harness == HarnessId::GrokBuild
                &&& request.model matches Some(asked) ==> model == asked@
                &&& request.model is None ==> (open.current_model matches Some(named) ==> model
                    == named)
                &&& request.model is None && open.current_model is None ==> model.len() == 0
                &&& tools.len() == 0
                &&& cwd == open.cwd
                &&& session_id == open.session_id
                &&& assistant_message_id == message_id
            })
            &&& first.stage == Stage::Running
            &&& first.session_id == open.session_id
            &&& first.message_id == message_id
            &&& first.queued_steers.len() == 0 && first.seen_tools.is_empty()
            &&& first.steering_open && !first.interrupted && !first.prompt_active
                && !first.done_current
            &&& sent.len() == 1
            &&& asks(sent[0], open.session_id, request.prompt@, true)
        }),
{
    let first = first_turn(open.session_id, message_id, request.prompt@);
    law_announced_turn_is_prompted(
        first,
        OpeningView { text: request.prompt@, include_session_rule: true },
        closing_id,
        steering_id,
    );
}

/// A run without a session ends with one report that names none, and a shutdown.
pub proof fn law_failed_setup_is_reported(status: DoneStatus, error: Option<Seq<char>>)
    ensures
        setup_end(status, error).len() == 2,
        setup_end(status, error)[0] == (ActionView::Emit {
            event: AgentEventView::Done { status, result: None, error, session_id: None },
        }),
        setup_end(status, error)[1] == ActionView::Shutdown,
{
}

} // verus!
