//! What holds of the turns of every session: how they are reported, and how a
//! session ends.

use vstd::prelude::*;
use crate::action::ActionView;
use crate::json::JsonView;
use crate::normalize::{law_tool_call_opens_unseen_only, payload, session_events, usage_event};
use crate::proto::{AgentEventView, DoneStatus};
use crate::session::{
    accepts, called_ids, first_turn, prompt_request, session_step, SessionEventView, SessionView,
    Stage,
};
use crate::session_laws::{
    accepted_steers, as_prompts, is_call, is_steered, law_one_prompt_at_a_time,
    law_run_keeps_valid, law_session_rule_comes_once, pending, requests, run, same_turn_from,
    session_inv, step, Input,
};

verus! {

/// Whether an action reports the end of a turn.
pub open spec fn is_done(action: ActionView) -> bool {
    action matches ActionView::Emit { event } && event is Done
}

/// Whether an action reports the end of a turn with this status.
pub open spec fn is_done_as(action: ActionView, status: DoneStatus) -> bool {
    action matches ActionView::Emit { event } && (event matches AgentEventView::Done {
        status: ended,
        ..
    } && ended == status)
}

/// Whether someone listened to the end.
pub open spec fn listened(inputs: Seq<Input>) -> bool {
    forall|i: int| 0 <= i < inputs.len() ==> !(#[trigger] inputs[i].event is ConsumerGone)
}

// ---------------------------------------------------------------------------
// Interrupts
// ---------------------------------------------------------------------------

/// An interrupt cancels the session at the agent; where a prompt is active, the
/// escalation against the child starts, and the session waits for the prompt.
pub proof fn law_interrupt_cancels(s: SessionView)
    requires
        accepts(s, SessionEventView::Interrupt),
    ensures
        ({
            let (next, actions) = session_step(
                s,
                SessionEventView::Interrupt,
                Seq::empty(),
                Seq::empty(),
            );
            &&& next.interrupted
            &&& actions[0] == ActionView::Notify {
                method: "session/cancel"@,
                params: Some(crate::requests::cancel_object(s.session_id)),
            }
            &&& s.prompt_active ==> actions[1] == ActionView::Escalate && next.stage
                == Stage::Running
            &&& !s.prompt_active ==> next.stage == Stage::Ended
        }),
{
}

/// An interrupted session stays so, starts no turn, and takes no more steering.
pub proof fn law_interrupt_is_final(s: SessionView, input: Input)
    requires
        session_inv(s),
        s.interrupted,
    ensures
        step(s, input).0.interrupted,
        step(s, input).0.queued_steers == s.queued_steers,
        forall|i: int|
            0 <= i < step(s, input).1.len() ==> !(#[trigger] step(s, input).1[i] is Request)
                && !is_steered(step(s, input).1[i]),
{
    let actions = step(s, input).1;
    if accepts(s, input.event) && input.event is Notification {
        assert forall|i: int| 0 <= i < actions.len() implies !(#[trigger] actions[i] is Request)
            && !is_steered(actions[i]) by {
            lemma_updates_only(s, input, i);
        }
    }
}

/// What a notification calls for: nothing but deltas and tool events.
proof fn lemma_updates_only(s: SessionView, input: Input, i: int)
    requires
        input.event is Notification,
        0 <= i < step(s, input).1.len(),
    ensures
        step(s, input).1[i] matches ActionView::Emit { event } && (event is TextDelta
            || event is ReasoningDelta || event is ToolCall || event is ToolResult),
{
}

/// A session that was interrupted ends with the report of it: the last event is
/// the end of the turn as interrupted, and then the child is shut down.
pub proof fn law_interrupted_session_ends_interrupted(s: SessionView, inputs: Seq<Input>)
    requires
        session_inv(s),
        s.stage == Stage::Running,
        listened(inputs),
        run(s, inputs).0.stage == Stage::Ended,
        run(s, inputs).0.interrupted,
    ensures
        ({
            let actions = run(s, inputs).1;
            &&& actions.len() >= 2
            &&& actions.last() == ActionView::Shutdown
            &&& is_done_as(actions[actions.len() - 2], DoneStatus::Interrupted)
        }),
    decreases inputs.len(),
{
    let (mid, before) = run(s, inputs.drop_last());
    let (next, new) = step(mid, inputs.last());
    law_run_keeps_valid(s, inputs.drop_last());
    assert forall|i: int| 0 <= i < inputs.drop_last().len() implies !(
    #[trigger] inputs.drop_last()[i].event is ConsumerGone) by {
        assert(inputs.drop_last()[i] == inputs[i]);
    }
    if mid.stage == Stage::Ended {
        law_interrupted_session_ends_interrupted(s, inputs.drop_last());
        assert(before + new =~= before);
    } else {
        assert(!(inputs[inputs.len() - 1].event is ConsumerGone));
        assert(new.len() >= 2);
        assert((before + new).last() == new.last());
        assert((before + new)[(before + new).len() - 2] == new[new.len() - 2]);
    }
}

// ---------------------------------------------------------------------------
// Reports
// ---------------------------------------------------------------------------

/// The usage of a prompt is reported before its turn is reported done, and between
/// the two the assistant message that was in progress is completed.
pub proof fn law_usage_precedes_done(
    s: SessionView,
    result: JsonView,
    closing_id: Seq<char>,
    steering_id: Seq<char>,
    usage: AgentEventView,
)
    requires
        accepts(s, SessionEventView::PromptDone { result }),
        usage_event(result) == Some(usage),
    ensures
        ({
            let actions = session_step(
                s,
                SessionEventView::PromptDone { result },
                closing_id,
                steering_id,
            ).1;
            &&& actions[0] == (ActionView::Emit { event: usage })
            &&& actions[1] == (ActionView::Emit {
                event: AgentEventView::AssistantMessageCompleted {
                    assistant_message_id: s.message_id,
                },
            })
            &&& is_done(actions[2])
        }),
{
}

/// Whether the turn in progress was reported done.
pub open spec fn turn_reported(actions: Seq<ActionView>) -> bool {
    exists|i: int| 0 <= i < actions.len() && is_done(#[trigger] actions[i]) && same_turn_from(actions, i)
}

/// Whether a session that runs is between two turns.
pub open spec fn between(s: SessionView) -> bool {
    s.opening is None && !s.prompt_active
}

/// How a step changes whether the turn is reported: it is reported where the step
/// says so, and open again where the step starts a turn.
proof fn lemma_step_reports(s: SessionView, input: Input)
    requires
        session_inv(s),
    ensures
        ({
            let (next, new) = step(s, input);
            &&& next.stage == Stage::Running && between(next) ==> turn_reported(new) || (s.stage
                == Stage::Running && between(s) && same_turn_from(new, -1))
            &&& next.stage == Stage::Running && !between(next) ==> !turn_reported(new) && (s.stage
                == Stage::Running && !between(s) || !same_turn_from(new, -1))
            &&& next.stage == Stage::Ended && s.stage != Stage::Ended && !(
            input.event is ConsumerGone) ==> turn_reported(new) || (s.stage == Stage::Running
                && between(s) && same_turn_from(new, -1))
        }),
{
    let (next, new) = step(s, input);
    if accepts(s, input.event) {
        match input.event {
            SessionEventView::Notification { .. } => {
                assert forall|i: int| 0 <= i < new.len() implies !is_done(#[trigger] new[i])
                    && !is_steered(new[i]) by {
                    lemma_updates_only(s, input, i);
                }
            },
            SessionEventView::PromptDone { result } => {
                if s.interrupted {
                    assert(is_done(new[new.len() - 2]));
                } else if s.queued_steers.len() > 0 {
                    assert(is_steered(new[new.len() - 1]));
                    assert(!is_done(new[new.len() - 1]));
                } else if !s.steering_open {
                    assert(is_done(new[new.len() - 2]));
                } else {
                    assert(is_done(new[new.len() - 1]));
                }
            },
            SessionEventView::PromptRejected { .. } => {
                assert(is_done(new[0]));
            },
            SessionEventView::PromptLost { .. } => {
                assert(is_done(new[0]));
            },
            SessionEventView::ChildInspected { .. } => {
                assert(is_done(new[0]));
            },
            SessionEventView::Steer { .. } => {
                if !s.prompt_active {
                    assert(is_steered(new[0]));
                }
            },
            SessionEventView::Interrupt => {
                if !s.prompt_active {
                    assert(is_done(new[1]));
                }
            },
            SessionEventView::Eof => {
                if s.interrupted {
                    assert(is_done(new[0]));
                }
            },
            _ => {},
        }
    }
}

proof fn lemma_reports_concat(before: Seq<ActionView>, new: Seq<ActionView>)
    ensures
        turn_reported(before + new) <==> turn_reported(new) || (turn_reported(before)
            && same_turn_from(new, -1)),
{
    let all = before + new;
    if turn_reported(new) {
        let i = choose|i: int|
            0 <= i < new.len() && is_done(#[trigger] new[i]) && same_turn_from(new, i);
        assert(all[before.len() + i] == new[i]);
        assert forall|k: int| before.len() + i < k < all.len() implies !is_steered(
            #[trigger] all[k],
        ) by {
            assert(all[k] == new[k - before.len()]);
        }
    }
    if turn_reported(before) && same_turn_from(new, -1) {
        let i = choose|i: int|
            0 <= i < before.len() && is_done(#[trigger] before[i]) && same_turn_from(before, i);
        assert(all[i] == before[i]);
        assert forall|k: int| i < k < all.len() implies !is_steered(#[trigger] all[k]) by {
            if k < before.len() {
                assert(all[k] == before[k]);
            } else {
                assert(all[k] == new[k - before.len()]);
            }
        }
    }
    if turn_reported(all) {
        let i = choose|i: int|
            0 <= i < all.len() && is_done(#[trigger] all[i]) && same_turn_from(all, i);
        if i < before.len() {
            assert(before[i] == all[i]);
            assert forall|k: int| i < k < before.len() implies !is_steered(#[trigger] before[k]) by {
                assert(all[k] == before[k]);
            }
            assert forall|k: int| -1 < k < new.len() implies !is_steered(#[trigger] new[k]) by {
                assert(all[before.len() + k] == new[k]);
            }
        } else {
            assert(new[i - before.len()] == all[i]);
            assert forall|k: int| i - before.len() < k < new.len() implies !is_steered(
                #[trigger] new[k],
            ) by {
                assert(all[before.len() + k] == new[k]);
            }
        }
    }
}

/// While a session runs, its turn is reported done exactly when it is between two
/// turns; and when it has ended, and someone listened, the last turn was reported.
pub proof fn law_every_turn_is_reported(
    session_id: Seq<char>,
    message_id: Seq<char>,
    prompt: Seq<char>,
    inputs: Seq<Input>,
)
    ensures
        ({
            let (last, actions) = run(first_turn(session_id, message_id, prompt), inputs);
            &&& last.stage == Stage::Running ==> turn_reported(actions) == between(last)
            &&& last.stage == Stage::Ended && listened(inputs) ==> turn_reported(actions)
        }),
    decreases inputs.len(),
{
    let first = first_turn(session_id, message_id, prompt);
    if inputs.len() > 0 {
        let (mid, before) = run(first, inputs.drop_last());
        let (next, new) = step(mid, inputs.last());
        law_every_turn_is_reported(session_id, message_id, prompt, inputs.drop_last());
        law_run_keeps_valid(first, inputs.drop_last());
        law_run_keeps_valid(first, inputs);
        lemma_step_reports(mid, inputs.last());
        lemma_reports_concat(before, new);
        if listened(inputs) {
            assert forall|i: int| 0 <= i < inputs.drop_last().len() implies !(
            #[trigger] inputs.drop_last()[i].event is ConsumerGone) by {
                assert(inputs.drop_last()[i] == inputs[i]);
            }
            assert(!(inputs[inputs.len() - 1].event is ConsumerGone));
        }
        if mid.stage == Stage::Ended {
            assert(before + new =~= before);
        }
    }
}

/// A turn is reported complete at most once, and never after another report of its
/// end: between an earlier report and one of completion, a steered turn starts.
pub proof fn law_completion_is_reported_once(
    session_id: Seq<char>,
    message_id: Seq<char>,
    prompt: Seq<char>,
    inputs: Seq<Input>,
    i: int,
    j: int,
)
    requires
        0 <= i < j < run(first_turn(session_id, message_id, prompt), inputs).1.len(),
        is_done(run(first_turn(session_id, message_id, prompt), inputs).1[i]),
        is_done_as(run(first_turn(session_id, message_id, prompt), inputs).1[j], DoneStatus::Completed),
    ensures
        exists|k: int|
            i < k < j && is_steered(
                #[trigger] run(first_turn(session_id, message_id, prompt), inputs).1[k],
            ),
    decreases inputs.len(),
{
    let first = first_turn(session_id, message_id, prompt);
    let (mid, before) = run(first, inputs.drop_last());
    let (next, new) = step(mid, inputs.last());
    let all = before + new;
    assert(all == run(first, inputs).1);
    if j < before.len() {
        assert(before[i] == all[i] && before[j] == all[j]);
        law_completion_is_reported_once(session_id, message_id, prompt, inputs.drop_last(), i, j);
        let k = choose|k: int| i < k < j && is_steered(#[trigger] before[k]);
        assert(all[k] == before[k]);
    } else {
        let at = j - before.len();
        assert(new[at] == all[j]);
        law_run_keeps_valid(first, inputs.drop_last());
        law_every_turn_is_reported(session_id, message_id, prompt, inputs.drop_last());
        if inputs.last().event is Notification {
            lemma_updates_only(mid, inputs.last(), at);
        }
        assert(accepts(mid, inputs.last().event) && inputs.last().event is PromptDone);
        assert(forall|h: int| 0 <= h < at ==> !is_done(#[trigger] new[h]) && !is_steered(new[h]));
        assert(i < before.len()) by {
            if i >= before.len() {
                assert(all[i] == new[i - before.len()]);
            }
        }
        assert(before[i] == all[i]);
        assert(!same_turn_from(before, i));
        let k = choose|k: int| i < k < before.len() && is_steered(#[trigger] before[k]);
        assert(all[k] == before[k]);
    }
}

/// A step asks for the shutdown when it ends the session, as the last thing, and not
/// otherwise.
#[verifier::rlimit(30)]
proof fn lemma_step_shutdown(s: SessionView, input: Input)
    ensures
        s.stage == Stage::Ended ==> step(s, input).0.stage == Stage::Ended && step(
            s,
            input,
        ).1.len() == 0,
        s.stage != Stage::Ended ==> (step(s, input).0.stage == Stage::Ended <==> step(
            s,
            input,
        ).1.len() > 0 && step(s, input).1.last() == ActionView::Shutdown),
        forall|i: int|
            0 <= i < step(s, input).1.len() - 1 ==> #[trigger] step(s, input).1[i]
                != ActionView::Shutdown,
{
    let (next, new) = step(s, input);
    if input.event is Notification {
        assert forall|i: int| 0 <= i < new.len() implies #[trigger] new[i]
            != ActionView::Shutdown by {
            lemma_updates_only(s, input, i);
        }
        if new.len() > 0 {
            lemma_updates_only(s, input, new.len() - 1);
        }
    }
}

/// The child is shut down when the session ends, and not before; nothing follows.
pub proof fn law_shutdown_comes_last(s: SessionView, inputs: Seq<Input>)
    requires
        s.stage != Stage::Ended,
    ensures
        ({
            let (last, actions) = run(s, inputs);
            &&& last.stage == Stage::Ended <==> actions.len() > 0 && actions.last()
                == ActionView::Shutdown
            &&& forall|i: int|
                0 <= i < actions.len() - 1 ==> #[trigger] actions[i] != ActionView::Shutdown
        }),
    decreases inputs.len(),
{
    if inputs.len() > 0 {
        let (mid, before) = run(s, inputs.drop_last());
        let (next, new) = step(mid, inputs.last());
        law_shutdown_comes_last(s, inputs.drop_last());
        lemma_step_shutdown(mid, inputs.last());
        assert forall|i: int| 0 <= i < (before + new).len() - 1 implies #[trigger] (before + new)[i]
            != ActionView::Shutdown by {
            if i < before.len() {
                assert((before + new)[i] == before[i]);
            } else {
                assert((before + new)[i] == new[i - before.len()]);
            }
        }
        if new.len() == 0 {
            assert(before + new =~= before);
        } else {
            assert((before + new).last() == new.last());
        }
    }
}

/// When nobody listens any more, the session ends at once, without a report.
pub proof fn law_consumer_gone_ends_silently(s: SessionView, input: Input)
    requires
        s.stage != Stage::Ended,
        input.event is ConsumerGone,
    ensures
        step(s, input).0.stage == Stage::Ended,
        step(s, input).1 == seq![ActionView::Shutdown],
{
}

/// Every report of a turn's end names the session, and carries no result.
pub proof fn law_done_names_the_session(s: SessionView, inputs: Seq<Input>, i: int)
    requires
        session_inv(s),
        0 <= i < run(s, inputs).1.len(),
        is_done(run(s, inputs).1[i]),
    ensures
        run(s, inputs).1[i] matches ActionView::Emit { event } && (event matches AgentEventView::Done {
            session_id,
            result,
            ..
        } && session_id == Some(s.session_id) && result is None),
    decreases inputs.len(),
{
    let (mid, before) = run(s, inputs.drop_last());
    let (next, new) = step(mid, inputs.last());
    law_run_keeps_valid(s, inputs.drop_last());
    if i < before.len() {
        assert((before + new)[i] == before[i]);
        law_done_names_the_session(s, inputs.drop_last(), i);
    } else {
        assert((before + new)[i] == new[i - before.len()]);
        if inputs.last().event is Notification {
            lemma_updates_only(mid, inputs.last(), i - before.len());
        }
    }
}

// ---------------------------------------------------------------------------
// Message ids
// ---------------------------------------------------------------------------

/// The id under which the assistant message in progress was announced: by the last
/// steered turn, or else at the start of the session.
pub open spec fn announced_id(first: Seq<char>, actions: Seq<ActionView>) -> Seq<char>
    decreases actions.len(),
{
    if actions.len() == 0 {
        first
    } else {
        match actions.last() {
            ActionView::Emit {
                event: AgentEventView::Steered { next_assistant_message_id: Some(id), .. },
            } => id,
            _ => announced_id(first, actions.drop_last()),
        }
    }
}

proof fn lemma_announced_same_turn(first: Seq<char>, before: Seq<ActionView>, new: Seq<ActionView>)
    requires
        same_turn_from(new, -1),
    ensures
        announced_id(first, before + new) == announced_id(first, before),
    decreases new.len(),
{
    if new.len() == 0 {
        assert(before + new =~= before);
    } else {
        assert(!is_steered(new[new.len() - 1]));
        assert((before + new).last() == new.last());
        assert((before + new).drop_last() =~= before + new.drop_last());
        assert(same_turn_from(new.drop_last(), -1)) by {
            assert forall|k: int| -1 < k < new.drop_last().len() implies !is_steered(
                #[trigger] new.drop_last()[k],
            ) by {
                assert(new.drop_last()[k] == new[k]);
            }
        }
        lemma_announced_same_turn(first, before, new.drop_last());
    }
}

proof fn lemma_announced(
    session_id: Seq<char>,
    message_id: Seq<char>,
    prompt: Seq<char>,
    inputs: Seq<Input>,
)
    ensures
        ({
            let (last, actions) = run(first_turn(session_id, message_id, prompt), inputs);
            last.stage == Stage::Running && !between(last) ==> last.message_id == announced_id(
                message_id,
                actions,
            )
        }),
    decreases inputs.len(),
{
    let first = first_turn(session_id, message_id, prompt);
    if inputs.len() > 0 {
        let (mid, before) = run(first, inputs.drop_last());
        let (next, new) = step(mid, inputs.last());
        let event = inputs.last().event;
        law_run_keeps_valid(first, inputs.drop_last());
        lemma_announced(session_id, message_id, prompt, inputs.drop_last());
        if next.stage == Stage::Running && !between(next) {
            if accepts(mid, event) && (event is PromptDone || event is Steer
                && !mid.prompt_active) {
                assert((before + new).last() == new.last());
            } else {
                assert forall|k: int| -1 < k < new.len() implies !is_steered(#[trigger] new[k]) by {
                    if event is Notification {
                        lemma_updates_only(mid, inputs.last(), k);
                    }
                }
                lemma_announced_same_turn(message_id, before, new);
            }
        }
    }
}

/// An assistant message is completed under the id that it was announced with, when
/// the session started or when its steered turn did.
pub proof fn law_message_is_completed_as_announced(
    session_id: Seq<char>,
    message_id: Seq<char>,
    prompt: Seq<char>,
    inputs: Seq<Input>,
    i: int,
    completed: Seq<char>,
)
    requires
        0 <= i < run(first_turn(session_id, message_id, prompt), inputs).1.len(),
        run(first_turn(session_id, message_id, prompt), inputs).1[i] == (ActionView::Emit {
            event: AgentEventView::AssistantMessageCompleted { assistant_message_id: completed },
        }),
    ensures
        completed == announced_id(
            message_id,
            run(first_turn(session_id, message_id, prompt), inputs).1.take(i),
        ),
    decreases inputs.len(),
{
    let first = first_turn(session_id, message_id, prompt);
    let (mid, before) = run(first, inputs.drop_last());
    let (next, new) = step(mid, inputs.last());
    let all = before + new;
    if i < before.len() {
        assert(all[i] == before[i]);
        assert(all.take(i) =~= before.take(i));
        law_message_is_completed_as_announced(
            session_id,
            message_id,
            prompt,
            inputs.drop_last(),
            i,
            completed,
        );
    } else {
        let at = i - before.len();
        assert(all[i] == new[at]);
        law_run_keeps_valid(first, inputs.drop_last());
        lemma_announced(session_id, message_id, prompt, inputs.drop_last());
        if inputs.last().event is Notification {
            lemma_updates_only(mid, inputs.last(), at);
        }
        assert(all.take(i) =~= before + new.take(at));
        assert forall|k: int| -1 < k < new.take(at).len() implies !is_steered(
            #[trigger] new.take(at)[k],
        ) by {
            assert(new.take(at)[k] == new[k]);
        }
        lemma_announced_same_turn(message_id, before, new.take(at));
    }
}

// ---------------------------------------------------------------------------
// Tool results
// ---------------------------------------------------------------------------

/// Whether an action reports the result of the tool call with this id.
pub open spec fn is_result(action: ActionView, id: Seq<char>) -> bool {
    action matches ActionView::Emit { event } && (event matches AgentEventView::ToolResult {
        id: ended,
        ..
    } && ended == id)
}

/// Whether the tool call with this id was reported in the turn in progress.
pub open spec fn called_in_turn(actions: Seq<ActionView>, id: Seq<char>) -> bool {
    exists|i: int|
        0 <= i < actions.len() && #[trigger] is_call(actions[i], id) && same_turn_from(actions, i)
}

proof fn lemma_called_stays(before: Seq<ActionView>, new: Seq<ActionView>, id: Seq<char>)
    requires
        called_in_turn(before, id),
        same_turn_from(new, -1),
    ensures
        called_in_turn(before + new, id),
{
    let all = before + new;
    let i = choose|i: int|
        0 <= i < before.len() && #[trigger] is_call(before[i], id) && same_turn_from(before, i);
    assert(is_call(all[i], id));
    assert forall|k: int| i < k < all.len() implies !is_steered(#[trigger] all[k]) by {
        if k < before.len() {
            assert(all[k] == before[k]);
        } else {
            assert(all[k] == new[k - before.len()]);
        }
    }
}

/// What a notification calls for, by its position: a tool call can only come first,
/// and makes its id seen; a tool result speaks of a call that was seen before, or of
/// the one that comes first.
proof fn lemma_update_tools(s: SessionView, input: Input)
    requires
        accepts(s, input.event),
        input.event is Notification,
    ensures
        forall|id: Seq<char>| #[trigger]
            step(s, input).0.seen_tools.contains(id) ==> s.seen_tools.contains(id) || (step(
                s,
                input,
            ).1.len() > 0 && is_call(step(s, input).1[0], id)),
        forall|i: int, id: Seq<char>|
            0 <= i < step(s, input).1.len() && #[trigger] is_result(step(s, input).1[i], id)
                ==> s.seen_tools.contains(id) || (i > 0 && is_call(step(s, input).1[0], id)),
        same_turn_from(step(s, input).1, -1),
{
    let (next, actions) = step(s, input);
    let params = input.event->Notification_params;
    if input.event->Notification_method == "session/update"@ {
        let events = session_events(payload(params), s.seen_tools);
        assert forall|id: Seq<char>| #[trigger] next.seen_tools.contains(id) implies
            s.seen_tools.contains(id) || (actions.len() > 0 && is_call(actions[0], id)) by {
            if !s.seen_tools.contains(id) {
                assert(called_ids(events).contains(id));
                let k = choose|k: int|
                    0 <= k < events.len() && (#[trigger] events[k] matches AgentEventView::ToolCall {
                        id: called,
                        ..
                    } && called == id);
                law_tool_call_opens_unseen_only(payload(params), s.seen_tools, k);
            }
        }
    }
    assert forall|k: int| -1 < k < actions.len() implies !is_steered(#[trigger] actions[k]) by {
        lemma_updates_only(s, input, k);
    }
}

proof fn lemma_seen_are_called(
    session_id: Seq<char>,
    message_id: Seq<char>,
    prompt: Seq<char>,
    inputs: Seq<Input>,
)
    ensures
        ({
            let (last, actions) = run(first_turn(session_id, message_id, prompt), inputs);
            last.opening is None ==> forall|id: Seq<char>| #[trigger]
                last.seen_tools.contains(id) ==> called_in_turn(actions, id)
        }),
    decreases inputs.len(),
{
    let first = first_turn(session_id, message_id, prompt);
    if inputs.len() > 0 {
        let (mid, before) = run(first, inputs.drop_last());
        let (next, new) = step(mid, inputs.last());
        let all = before + new;
        let event = inputs.last().event;
        lemma_seen_are_called(session_id, message_id, prompt, inputs.drop_last());
        if next.opening is None {
            assert forall|id: Seq<char>| #[trigger] next.seen_tools.contains(id) implies
                called_in_turn(all, id) by {
                if accepts(mid, event) && event is Notification {
                    lemma_update_tools(mid, inputs.last());
                    if mid.seen_tools.contains(id) {
                        lemma_called_stays(before, new, id);
                    } else {
                        let at = before.len() as int;
                        assert(all[at] == new[0]);
                        assert(is_call(all[at], id));
                        assert forall|k: int| at < k < all.len() implies !is_steered(
                            #[trigger] all[k],
                        ) by {
                            assert(all[k] == new[k - before.len()]);
                        }
                    }
                } else {
                    assert(!(accepts(mid, event) && event is Announced));
                    assert(mid.opening is None && mid.seen_tools.contains(id));
                    assert(same_turn_from(new, -1));
                    lemma_called_stays(before, new, id);
                }
            }
        }
    }
}

/// Every tool result follows the call that it ends, in the same turn: before it that
/// call was reported, and no steered turn started in between.
pub proof fn law_tool_result_follows_its_call(
    session_id: Seq<char>,
    message_id: Seq<char>,
    prompt: Seq<char>,
    inputs: Seq<Input>,
    j: int,
    id: Seq<char>,
)
    requires
        0 <= j < run(first_turn(session_id, message_id, prompt), inputs).1.len(),
        is_result(run(first_turn(session_id, message_id, prompt), inputs).1[j], id),
    ensures
        called_in_turn(run(first_turn(session_id, message_id, prompt), inputs).1.take(j), id),
    decreases inputs.len(),
{
    let first = first_turn(session_id, message_id, prompt);
    let (mid, before) = run(first, inputs.drop_last());
    let (next, new) = step(mid, inputs.last());
    let all = before + new;
    let event = inputs.last().event;
    if j < before.len() {
        assert(all[j] == before[j]);
        assert(all.take(j) =~= before.take(j));
        law_tool_result_follows_its_call(
            session_id,
            message_id,
            prompt,
            inputs.drop_last(),
            j,
            id,
        );
    } else {
        let at = j - before.len();
        assert(all[j] == new[at]);
        assert(is_result(new[at], id));
        assert(accepts(mid, event) && event is Notification);
        lemma_update_tools(mid, inputs.last());
        lemma_seen_are_called(session_id, message_id, prompt, inputs.drop_last());
        assert(all.take(j) =~= before + new.take(at));
        assert forall|k: int| -1 < k < new.take(at).len() implies !is_steered(
            #[trigger] new.take(at)[k],
        ) by {
            assert(new.take(at)[k] == new[k]);
        }
        if mid.seen_tools.contains(id) {
            lemma_called_stays(before, new.take(at), id);
        } else {
            let up_to = all.take(j);
            let first_new = before.len() as int;
            assert(up_to[first_new] == new[0]);
            assert(is_call(up_to[first_new], id));
            assert forall|k: int| first_new < k < up_to.len() implies !is_steered(
                #[trigger] up_to[k],
            ) by {
                assert(up_to[k] == new[k - before.len()]);
            }
        }
    }
}

// ---------------------------------------------------------------------------
// Turns in a row
// ---------------------------------------------------------------------------

/// A steered turn is announced only after the end of the turn before was reported.
pub proof fn law_turn_starts_after_done(
    session_id: Seq<char>,
    message_id: Seq<char>,
    prompt: Seq<char>,
    inputs: Seq<Input>,
    j: int,
)
    requires
        0 <= j < run(first_turn(session_id, message_id, prompt), inputs).1.len(),
        is_steered(run(first_turn(session_id, message_id, prompt), inputs).1[j]),
    ensures
        turn_reported(run(first_turn(session_id, message_id, prompt), inputs).1.take(j)),
    decreases inputs.len(),
{
    let first = first_turn(session_id, message_id, prompt);
    let (mid, before) = run(first, inputs.drop_last());
    let (next, new) = step(mid, inputs.last());
    let all = before + new;
    let event = inputs.last().event;
    if j < before.len() {
        assert(all[j] == before[j]);
        assert(all.take(j) =~= before.take(j));
        law_turn_starts_after_done(session_id, message_id, prompt, inputs.drop_last(), j);
    } else {
        let at = j - before.len();
        assert(all[j] == new[at]);
        law_run_keeps_valid(first, inputs.drop_last());
        law_every_turn_is_reported(session_id, message_id, prompt, inputs.drop_last());
        if event is Notification {
            lemma_updates_only(mid, inputs.last(), at);
        }
        assert(all.take(j) =~= before + new.take(at));
        lemma_reports_concat(before, new.take(at));
        if event is PromptDone {
            let report = new.take(at);
            assert(is_done(report[at - 1]));
            assert(same_turn_from(report, at - 1));
            assert(turn_reported(report));
        } else {
            assert(event is Steer && at == 0);
            assert(same_turn_from(new.take(at), -1));
        }
    }
}

proof fn lemma_opening_was_announced(
    session_id: Seq<char>,
    message_id: Seq<char>,
    prompt: Seq<char>,
    inputs: Seq<Input>,
)
    ensures
        ({
            let (last, actions) = run(first_turn(session_id, message_id, prompt), inputs);
            last.stage == Stage::Running && last.opening is Some ==> actions.len() == 0
                || is_steered(actions[actions.len() - 1])
        }),
    decreases inputs.len(),
{
    if inputs.len() > 0 {
        let (mid, before) = run(first_turn(session_id, message_id, prompt), inputs.drop_last());
        let (next, new) = step(mid, inputs.last());
        lemma_opening_was_announced(session_id, message_id, prompt, inputs.drop_last());
        if next.stage == Stage::Running && next.opening is Some {
            if new.len() == 0 {
                assert(before + new =~= before);
            } else {
                assert((before + new)[(before + new).len() - 1] == new[new.len() - 1]);
            }
        }
    }
}

/// Each prompt after the first comes right after the announcement of its turn, and
/// nothing comes before the first.
pub proof fn law_prompt_follows_its_announcement(
    session_id: Seq<char>,
    message_id: Seq<char>,
    prompt: Seq<char>,
    inputs: Seq<Input>,
    j: int,
)
    requires
        0 <= j < run(first_turn(session_id, message_id, prompt), inputs).1.len(),
        run(first_turn(session_id, message_id, prompt), inputs).1[j] is Request,
    ensures
        j > 0 ==> is_steered(run(first_turn(session_id, message_id, prompt), inputs).1[j - 1]),
        j == 0 ==> run(first_turn(session_id, message_id, prompt), inputs).1[0] == prompt_request(
            session_id,
            prompt,
            true,
        ),
    decreases inputs.len(),
{
    let first = first_turn(session_id, message_id, prompt);
    let (mid, before) = run(first, inputs.drop_last());
    let (next, new) = step(mid, inputs.last());
    let all = before + new;
    if j < before.len() {
        assert(all[j] == before[j]);
        law_prompt_follows_its_announcement(
            session_id,
            message_id,
            prompt,
            inputs.drop_last(),
            j,
        );
        if j > 0 {
            assert(all[j - 1] == before[j - 1]);
        }
    } else {
        assert(all[j] == new[j - before.len()]);
        law_run_keeps_valid(first, inputs.drop_last());
        law_one_prompt_at_a_time(mid, inputs.last(), j - before.len());
        lemma_opening_was_announced(session_id, message_id, prompt, inputs.drop_last());
        if j > 0 {
            assert(all[j - 1] == before[j - 1]);
        } else {
            lemma_silent_start(session_id, message_id, prompt, inputs.drop_last());
        }
    }
}

proof fn lemma_silent_start(
    session_id: Seq<char>,
    message_id: Seq<char>,
    prompt: Seq<char>,
    inputs: Seq<Input>,
)
    ensures
        ({
            let first = first_turn(session_id, message_id, prompt);
            run(first, inputs).1.len() == 0 ==> run(first, inputs).0 == first
        }),
    decreases inputs.len(),
{
    if inputs.len() > 0 {
        lemma_silent_start(session_id, message_id, prompt, inputs.drop_last());
    }
}

/// Whether nothing cuts a run short: no interrupt, no failure, and a consumer and an
/// agent that stay.
pub open spec fn undisturbed(inputs: Seq<Input>) -> bool {
    forall|i: int|
        0 <= i < inputs.len() ==> {
            let event = (#[trigger] inputs[i]).event;
            ||| event is Announced
            ||| event is Notification
            ||| event is ServerRequest
            ||| event is PromptDone
            ||| event is Steer
            ||| event is SteeringClosed
        }
}

/// A run that nothing cuts short ends only once there is no more steering and every
/// steer was sent: its prompts are then the first one and those of all steers that
/// came in, in order.
pub proof fn law_undisturbed_session_ends_when_all_is_sent(
    session_id: Seq<char>,
    message_id: Seq<char>,
    prompt: Seq<char>,
    inputs: Seq<Input>,
)
    requires
        undisturbed(inputs),
        run(first_turn(session_id, message_id, prompt), inputs).0.stage != Stage::Running,
    ensures
        ({
            let first = first_turn(session_id, message_id, prompt);
            let (last, actions) = run(first, inputs);
            &&& last.stage == Stage::Ended
            &&& !last.steering_open
            &&& last.queued_steers.len() == 0
            &&& requests(actions) == seq![prompt_request(session_id, prompt, true)] + as_prompts(
                session_id,
                accepted_steers(first, inputs),
            )
        }),
{
    let first = first_turn(session_id, message_id, prompt);
    let (last, actions) = run(first, inputs);
    lemma_undisturbed_end(session_id, message_id, prompt, inputs);
    law_session_rule_comes_once(session_id, message_id, prompt, inputs);
    assert(pending(last) =~= Seq::empty());
    assert(requests(actions) + pending(last) =~= requests(actions));
}

proof fn lemma_undisturbed_end(
    session_id: Seq<char>,
    message_id: Seq<char>,
    prompt: Seq<char>,
    inputs: Seq<Input>,
)
    requires
        undisturbed(inputs),
    ensures
        ({
            let last = run(first_turn(session_id, message_id, prompt), inputs).0;
            &&& !last.interrupted
            &&& last.stage != Stage::Running ==> last.stage == Stage::Ended && !last.steering_open
                && last.queued_steers.len() == 0 && last.opening is None
        }),
    decreases inputs.len(),
{
    let first = first_turn(session_id, message_id, prompt);
    if inputs.len() > 0 {
        assert forall|i: int| 0 <= i < inputs.drop_last().len() implies ({
            let event = (#[trigger] inputs.drop_last()[i]).event;
            ||| event is Announced
            ||| event is Notification
            ||| event is ServerRequest
            ||| event is PromptDone
            ||| event is Steer
            ||| event is SteeringClosed
        }) by {
            assert(inputs.drop_last()[i] == inputs[i]);
        }
        lemma_undisturbed_end(session_id, message_id, prompt, inputs.drop_last());
        law_run_keeps_valid(first, inputs.drop_last());
        assert(inputs[inputs.len() - 1] == inputs.last());
    }
}

} // verus!
