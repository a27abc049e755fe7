//! What holds of every session, whatever happens to it.

use vstd::prelude::*;
use crate::action::{shutdowns, ActionView};
use crate::json::JsonView;
use crate::normalize::{payload, session_events};
use crate::proto::AgentEventView;
use crate::session::{
    accepts, after, called_ids, first_turn, listens, prompt_request, refused, session_step, steered,
    turn_report, SessionEventView, SessionView, Stage,
};

verus! {

/// An event with the message ids that it may draw.
pub struct Input {
    pub event: SessionEventView,
    pub closing_id: Seq<char>,
    pub steering_id: Seq<char>,
}

/// One step on one input.
pub open spec fn step(s: SessionView, input: Input) -> (SessionView, Seq<ActionView>) {
    session_step(s, input.event, input.closing_id, input.steering_id)
}

/// A session after a sequence of inputs, with all actions that came out.
pub open spec fn run(s: SessionView, inputs: Seq<Input>) -> (SessionView, Seq<ActionView>)
    decreases inputs.len(),
{
    if inputs.len() == 0 {
        (s, Seq::empty())
    } else {
        let before = run(s, inputs.drop_last());
        after(before.1, step(before.0, inputs.last()))
    }
}

/// What holds of a session at all times: while it runs, either a turn is announced
/// and no prompt is active, or a prompt is active and its turn open, or the turn is
/// reported done, nothing waits, and there can be more steering.
pub open spec fn session_inv(s: SessionView) -> bool {
    &&& s.stage == Stage::Running && s.opening is Some ==> !s.prompt_active && !s.interrupted
    &&& s.stage == Stage::Running && s.opening is None ==> {
        &&& s.prompt_active == !s.done_current
        &&& !s.prompt_active ==> s.queued_steers.len() == 0 && s.steering_open && !s.interrupted
    }
    &&& s.stage == Stage::Inspecting ==> !s.interrupted && !s.done_current && s.opening is None
}

/// A session starts in a valid state.
pub proof fn law_start_is_valid(
    session_id: Seq<char>,
    message_id: Seq<char>,
    prompt: Seq<char>,
)
    ensures
        session_inv(first_turn(session_id, message_id, prompt)),
{
}

/// Every event leads from a valid state to a valid state, and keeps the session's
/// id.
pub proof fn law_step_keeps_valid(s: SessionView, input: Input)
    requires
        session_inv(s),
    ensures
        session_inv(step(s, input).0),
        step(s, input).0.session_id == s.session_id,
{
}

/// Every run of events leads from a valid state to a valid state, and keeps the
/// session's id.
pub proof fn law_run_keeps_valid(s: SessionView, inputs: Seq<Input>)
    requires
        session_inv(s),
    ensures
        session_inv(run(s, inputs).0),
        run(s, inputs).0.session_id == s.session_id,
    decreases inputs.len(),
{
    if inputs.len() > 0 {
        law_run_keeps_valid(s, inputs.drop_last());
        law_step_keeps_valid(run(s, inputs.drop_last()).0, inputs.last());
    }
}

/// Once a session has ended, nothing that happens changes it or calls for action.
pub proof fn law_end_is_final(s: SessionView, inputs: Seq<Input>)
    requires
        s.stage == Stage::Ended,
    ensures
        run(s, inputs) == (s, Seq::<ActionView>::empty()),
    decreases inputs.len(),
{
    if inputs.len() > 0 {
        law_end_is_final(s, inputs.drop_last());
        assert(step(s, inputs.last()).1 =~= Seq::empty());
        assert(run(s, inputs).1 =~= Seq::empty());
    }
}

/// A request of the agent is answered with an error, and changes nothing.
pub proof fn law_agent_requests_are_rejected(s: SessionView, id: JsonView, method: Seq<char>)
    requires
        listens(s),
    ensures
        ({
            let (next, actions) = session_step(
                s,
                SessionEventView::ServerRequest { id, method },
                Seq::empty(),
                Seq::empty(),
            );
            &&& next == s
            &&& actions.len() == 1
            &&& actions[0] matches ActionView::Reject { id: answered, code, .. } && answered == id
                && code == -32601
        }),
{
}

// ---------------------------------------------------------------------------
// Tool calls
// ---------------------------------------------------------------------------

/// Whether an action starts a steered turn.
pub open spec fn is_steered(action: ActionView) -> bool {
    action matches ActionView::Emit { event } && event is Steered
}

/// Whether an action reports the tool call with this id.
pub open spec fn is_call(action: ActionView, id: Seq<char>) -> bool {
    action matches ActionView::Emit { event } && (event matches AgentEventView::ToolCall {
        id: called,
        ..
    } && called == id)
}

/// Whether no steered turn starts after the action at `i`.
pub open spec fn same_turn_from(actions: Seq<ActionView>, i: int) -> bool {
    forall|k: int| i < k < actions.len() ==> !is_steered(#[trigger] actions[k])
}

proof fn lemma_step_calls(s: SessionView, input: Input)
    ensures
        forall|i: int, id: Seq<char>|
            0 <= i < step(s, input).1.len() && #[trigger] is_call(step(s, input).1[i], id) ==> {
                &&& !s.seen_tools.contains(id)
                &&& step(s, input).0.seen_tools.contains(id)
                &&& step(s, input).0.opening is None
                &&& i == 0
            },
        same_turn_from(step(s, input).1, -1) && s.opening is None ==> {
            &&& s.seen_tools.subset_of(step(s, input).0.seen_tools)
            &&& step(s, input).0.opening is None
        },
{
    let (next, actions) = step(s, input);
    if accepts(s, input.event) && input.event is Notification {
        let events = session_events(payload(input.event->Notification_params), s.seen_tools);
        assert forall|i: int, id: Seq<char>|
            0 <= i < actions.len() && #[trigger] is_call(actions[i], id) implies {
            &&& !s.seen_tools.contains(id)
            &&& next.seen_tools.contains(id)
            &&& next.opening is None
            &&& i == 0
        } by {
            crate::normalize::law_tool_call_opens_unseen_only(
                payload(input.event->Notification_params),
                s.seen_tools,
                i,
            );
            assert(events[i] matches AgentEventView::ToolCall { id: called, .. } && called == id);
            assert(called_ids(events).contains(id));
        }
    } else {
        assert forall|i: int, id: Seq<char>|
            0 <= i < actions.len() implies !#[trigger] is_call(actions[i], id) by {}
        if same_turn_from(actions, -1) && s.opening is None {
            assert(next.seen_tools =~= s.seen_tools && next.opening is None) by {
                if input.event is PromptDone && accepts(s, input.event) && !s.interrupted
                    && s.queued_steers.len() > 0 {
                    assert(is_steered(actions[actions.len() - 1]));
                }
                if input.event is Steer && accepts(s, input.event) && !s.prompt_active {
                    assert(is_steered(actions[0]));
                }
            }
        }
    }
}

proof fn lemma_calls_are_seen(s: SessionView, inputs: Seq<Input>)
    ensures
        forall|i: int, id: Seq<char>|
            0 <= i < run(s, inputs).1.len() && #[trigger] is_call(run(s, inputs).1[i], id)
                && same_turn_from(run(s, inputs).1, i) ==> {
                &&& run(s, inputs).0.seen_tools.contains(id)
                &&& run(s, inputs).0.opening is None
            },
    decreases inputs.len(),
{
    if inputs.len() > 0 {
        let (mid, before) = run(s, inputs.drop_last());
        let (next, new) = step(mid, inputs.last());
        let actions = before + new;
        lemma_calls_are_seen(s, inputs.drop_last());
        lemma_step_calls(mid, inputs.last());
        assert forall|i: int, id: Seq<char>|
            0 <= i < actions.len() && #[trigger] is_call(actions[i], id) && same_turn_from(
                actions,
                i,
            ) implies next.seen_tools.contains(id) && next.opening is None by {
            if i < before.len() {
                assert(before[i] == actions[i]);
                assert(same_turn_from(before, i)) by {
                    assert forall|k: int| i < k < before.len() implies !is_steered(
                        #[trigger] before[k],
                    ) by {
                        assert(before[k] == actions[k]);
                    }
                }
                assert(same_turn_from(new, -1)) by {
                    assert forall|k: int| -1 < k < new.len() implies !is_steered(
                        #[trigger] new[k],
                    ) by {
                        assert(new[k] == actions[before.len() + k]);
                    }
                }
            } else {
                assert(is_call(new[i - before.len()], id));
            }
        }
    }
}

/// A tool call is reported once per turn: between two reports of the same call, a
/// steered turn starts.
pub proof fn law_tool_call_opens_once_per_turn(
    s: SessionView,
    inputs: Seq<Input>,
    i: int,
    j: int,
    id: Seq<char>,
)
    requires
        0 <= i < j < run(s, inputs).1.len(),
        is_call(run(s, inputs).1[i], id),
        is_call(run(s, inputs).1[j], id),
    ensures
        exists|k: int| i < k < j && is_steered(#[trigger] run(s, inputs).1[k]),
    decreases inputs.len(),
{
    let (mid, before) = run(s, inputs.drop_last());
    let (next, new) = step(mid, inputs.last());
    let actions = before + new;
    lemma_step_calls(mid, inputs.last());
    if j < before.len() {
        law_tool_call_opens_once_per_turn(s, inputs.drop_last(), i, j, id);
        let k = choose|k: int| i < k < j && is_steered(#[trigger] before[k]);
        assert(actions[k] == before[k]);
    } else {
        assert(is_call(new[j - before.len()], id));
        if i >= before.len() {
            assert(is_call(new[i - before.len()], id));
        } else {
            assert(before[i] == actions[i]);
            lemma_calls_are_seen(s, inputs.drop_last());
            assert(is_call(before[i], id));
            assert(!same_turn_from(before, i));
            let k = choose|k: int| i < k < before.len() && is_steered(#[trigger] before[k]);
            assert(actions[k] == before[k]);
        }
    }
}

// ---------------------------------------------------------------------------
// Steering
// ---------------------------------------------------------------------------

/// The requests among some actions, in order.
pub open spec fn requests(actions: Seq<ActionView>) -> Seq<ActionView> {
    actions.filter(|action: ActionView| action is Request)
}

/// The prompts that deliver some steering messages, in order.
pub open spec fn as_prompts(session_id: Seq<char>, texts: Seq<Seq<char>>) -> Seq<ActionView> {
    texts.map_values(|text: Seq<char>| prompt_request(session_id, text, false))
}

/// The steering message that a step takes in, if any.
pub open spec fn accepted_steer(s: SessionView, event: SessionEventView) -> Seq<Seq<char>> {
    match event {
        SessionEventView::Steer { text } => if accepts(s, event) {
            seq![text]
        } else {
            Seq::empty()
        },
        _ => Seq::empty(),
    }
}

/// The steering messages that a run takes in, in order.
pub open spec fn accepted_steers(s: SessionView, inputs: Seq<Input>) -> Seq<Seq<char>>
    decreases inputs.len(),
{
    if inputs.len() == 0 {
        Seq::empty()
    } else {
        accepted_steers(s, inputs.drop_last()) + accepted_steer(
            run(s, inputs.drop_last()).0,
            inputs.last().event,
        )
    }
}

proof fn lemma_no_requests(actions: Seq<ActionView>)
    requires
        forall|i: int| 0 <= i < actions.len() ==> !(#[trigger] actions[i] is Request),
    ensures
        requests(actions) == Seq::<ActionView>::empty(),
    decreases actions.len(),
{
    reveal(Seq::filter);
    if actions.len() > 0 {
        lemma_no_requests(actions.drop_last());
    }
    assert(requests(actions) =~= Seq::empty());
}

proof fn lemma_requests_concat(left: Seq<ActionView>, right: Seq<ActionView>)
    ensures
        requests(left + right) == requests(left) + requests(right),
{
    Seq::filter_distributes_over_add(left, right, |action: ActionView| action is Request);
}

/// The prompts that are still to be sent: that of the turn that was announced, and
/// those of the steering messages that wait.
pub open spec fn pending(s: SessionView) -> Seq<ActionView> {
    (match s.opening {
        Some(turn) => seq![
            prompt_request(s.session_id, turn.text, turn.include_session_rule),
        ],
        None => Seq::empty(),
    }) + as_prompts(s.session_id, s.queued_steers)
}

proof fn lemma_single_request(action: ActionView)
    requires
        action is Request,
    ensures
        requests(seq![action]) == seq![action],
{
    reveal(Seq::filter);
    assert(seq![action].drop_last() =~= Seq::empty());
    lemma_no_requests(seq![action].drop_last());
    assert(requests(seq![action]) =~= seq![action]);
}

proof fn lemma_step_requests(s: SessionView, input: Input)
    requires
        session_inv(s),
    ensures
        requests(step(s, input).1) + pending(step(s, input).0) == pending(s) + as_prompts(
            s.session_id,
            accepted_steer(s, input.event),
        ),
{
    let (next, actions) = step(s, input);
    let taken = as_prompts(s.session_id, accepted_steer(s, input.event));
    if accepts(s, input.event) && input.event is Announced {
        lemma_single_request(actions[0]);
        assert(actions =~= seq![actions[0]]);
    } else {
        assert forall|i: int| 0 <= i < actions.len() implies !(#[trigger] actions[i] is Request) by {}
        lemma_no_requests(actions);
        if accepts(s, input.event) && input.event is PromptDone && !s.interrupted
            && s.queued_steers.len() > 0 {
            assert(s.queued_steers =~= seq![s.queued_steers[0]] + s.queued_steers.drop_first());
        }
    }
    assert(requests(actions) + pending(next) =~= pending(s) + taken);
}

/// No prompt is lost, repeated or reordered: the prompts that were sent, followed by
/// those that are still to be sent, are those that were to be sent at first, followed
/// by those of the steering messages that came in. None of the latter carries the
/// session rule.
pub proof fn law_steers_are_delivered_in_order(s: SessionView, inputs: Seq<Input>)
    requires
        session_inv(s),
    ensures
        requests(run(s, inputs).1) + pending(run(s, inputs).0) == pending(s) + as_prompts(
            s.session_id,
            accepted_steers(s, inputs),
        ),
    decreases inputs.len(),
{
    let id = s.session_id;
    if inputs.len() == 0 {
        lemma_no_requests(Seq::empty());
        assert(requests(run(s, inputs).1) + pending(s) =~= pending(s) + as_prompts(
            id,
            accepted_steers(s, inputs),
        ));
    } else {
        let (mid, before) = run(s, inputs.drop_last());
        let (next, new) = step(mid, inputs.last());
        let old_steers = accepted_steers(s, inputs.drop_last());
        let new_steer = accepted_steer(mid, inputs.last().event);
        law_steers_are_delivered_in_order(s, inputs.drop_last());
        law_run_keeps_valid(s, inputs.drop_last());
        lemma_step_requests(mid, inputs.last());
        lemma_requests_concat(before, new);
        assert(as_prompts(id, old_steers) + as_prompts(id, new_steer) =~= as_prompts(
            id,
            old_steers + new_steer,
        ));
        assert(requests(before + new) + pending(next) =~= requests(before) + (requests(new)
            + pending(next)));
        assert(requests(before) + (pending(mid) + as_prompts(id, new_steer)) =~= (requests(before)
            + pending(mid)) + as_prompts(id, new_steer));
        assert((pending(s) + as_prompts(id, old_steers)) + as_prompts(id, new_steer) =~= pending(s)
            + (as_prompts(id, old_steers) + as_prompts(id, new_steer)));
    }
}

/// The session rule comes once per run: the first prompt carries it, and those of the
/// steering messages, which follow in the order in which these came in, do not.
pub proof fn law_session_rule_comes_once(
    session_id: Seq<char>,
    message_id: Seq<char>,
    prompt: Seq<char>,
    inputs: Seq<Input>,
)
    ensures
        ({
            let first = first_turn(session_id, message_id, prompt);
            let (last, actions) = run(first, inputs);
            requests(actions) + pending(last) == seq![prompt_request(session_id, prompt, true)]
                + as_prompts(session_id, accepted_steers(first, inputs))
        }),
{
    let first = first_turn(session_id, message_id, prompt);
    law_start_is_valid(session_id, message_id, prompt);
    law_steers_are_delivered_in_order(first, inputs);
    assert(pending(first) =~= seq![prompt_request(session_id, prompt, true)]);
}

/// A prompt is only sent when none is in flight, alone, and once the announcement of
/// its turn was taken; it is then active.
pub proof fn law_one_prompt_at_a_time(s: SessionView, input: Input, i: int)
    requires
        session_inv(s),
        0 <= i < step(s, input).1.len(),
        step(s, input).1[i] is Request,
    ensures
        step(s, input).1.len() == 1,
        input.event is Announced,
        !s.prompt_active,
        step(s, input).0.prompt_active,
{
}

/// A steer that arrives while a prompt is active only waits.
pub proof fn law_steer_waits_for_the_turn(s: SessionView, text: Seq<char>, steering_id: Seq<char>)
    requires
        accepts(s, SessionEventView::Steer { text }),
        s.prompt_active,
    ensures
        session_step(s, SessionEventView::Steer { text }, Seq::empty(), steering_id) == (
            SessionView { queued_steers: s.queued_steers.push(text), ..s },
            Seq::<ActionView>::empty(),
        ),
{
}

/// When a turn is done and a steer waits, the steer that came first is announced at
/// once, unless the session was interrupted; its prompt follows as soon as the
/// announcement is taken.
pub proof fn law_waiting_steer_starts_the_next_turn(
    s: SessionView,
    result: JsonView,
    closing_id: Seq<char>,
    steering_id: Seq<char>,
)
    requires
        accepts(s, SessionEventView::PromptDone { result }),
        !s.interrupted,
        s.queued_steers.len() > 0,
    ensures
        ({
            let (next, actions) = session_step(
                s,
                SessionEventView::PromptDone { result },
                closing_id,
                steering_id,
            );
            let (started, sent) = session_step(
                next,
                SessionEventView::Announced,
                Seq::empty(),
                Seq::empty(),
            );
            &&& actions.last() == (ActionView::Emit {
                event: AgentEventView::Steered {
                    assistant_message_id: Some(closing_id),
                    next_assistant_message_id: Some(steering_id),
                },
            })
            &&& next.queued_steers == s.queued_steers.drop_first()
            &&& sent == seq![prompt_request(s.session_id, s.queued_steers[0], false)]
            &&& started.stage == Stage::Running
            &&& started.prompt_active
            &&& started.message_id == steering_id
        }),
{
}

/// How a steered turn starts. The announcement changes the message id and nothing
/// that the turn is about. Where the consumer takes it, exactly the prompt is sent,
/// the turn is open, and no tool call was reported in it. Where the consumer refuses
/// it, no prompt is sent: the session ends, and the rest stays as it was.
pub proof fn law_refused_turn_is_not_started(s: SessionView, text: Seq<char>, next_id: Seq<char>)
    requires
        listens(s),
    ensures
        ({
            let (next, announced) = steered(s, text, next_id);
            let (taken, sent) = session_step(
                next,
                SessionEventView::Announced,
                Seq::empty(),
                Seq::empty(),
            );
            let (ended, last) = refused(next, Seq::empty());
            &&& announced == seq![
                ActionView::Emit {
                    event: AgentEventView::Steered {
                        assistant_message_id: Some(s.message_id),
                        next_assistant_message_id: Some(next_id),
                    },
                },
            ]
            &&& next.message_id == next_id
            &&& sent == seq![prompt_request(s.session_id, text, false)]
            &&& taken.prompt_active && !taken.done_current && taken.seen_tools == Set::<
                Seq<char>,
            >::empty()
            &&& last == seq![ActionView::Shutdown]
            &&& ended.stage == Stage::Ended
            &&& ended.prompt_active == s.prompt_active
            &&& ended.done_current == s.done_current
            &&& ended.seen_tools == s.seen_tools
        }),
{
    assert(refused(steered(s, text, next_id).0, Seq::empty()).1 =~= seq![ActionView::Shutdown]);
}

/// Where the consumer refuses the announcement of the session itself, no prompt is
/// sent at all.
pub proof fn law_refused_session_sends_no_prompt(
    session_id: Seq<char>,
    message_id: Seq<char>,
    prompt: Seq<char>,
)
    ensures
        refused(first_turn(session_id, message_id, prompt), Seq::empty()).0.stage == Stage::Ended,
        refused(first_turn(session_id, message_id, prompt), Seq::empty()).1 == seq![
            ActionView::Shutdown,
        ],
{
    assert(refused(first_turn(session_id, message_id, prompt), Seq::empty()).1 =~= seq![
        ActionView::Shutdown,
    ]);
}

/// Whichever event of a step the consumer refuses, all that is done after it is to shut
/// the child down; the session has then ended.
pub proof fn law_refusal_only_shuts_down(s: SessionView, input: Input, i: int)
    requires
        0 <= i < step(s, input).1.len(),
        step(s, input).1[i] is Emit,
    ensures
        ({
            let (next, actions) = step(s, input);
            let (ended, last) = refused(next, actions.skip(i + 1));
            &&& last == seq![ActionView::Shutdown]
            &&& ended.stage == Stage::Ended
        }),
{
    let (next, actions) = step(s, input);
    let rest = actions.skip(i + 1);
    let follow = session_step(next, SessionEventView::ConsumerGone, Seq::empty(), Seq::empty()).1;
    if next.stage == Stage::Ended {
        assert(actions.last() == ActionView::Shutdown);
        assert(forall|k: int| 0 <= k < actions.len() - 1 ==> #[trigger] actions[k]
            != ActionView::Shutdown);
        assert(rest.last() == ActionView::Shutdown);
        lemma_no_shutdowns(rest.drop_last());
        assert(shutdowns(rest) =~= seq![ActionView::Shutdown]);
        assert(shutdowns(rest) + follow =~= seq![ActionView::Shutdown]);
    } else {
        assert(forall|k: int| 0 <= k < actions.len() ==> #[trigger] actions[k]
            != ActionView::Shutdown);
        lemma_no_shutdowns(rest);
        assert(shutdowns(rest) + follow =~= seq![ActionView::Shutdown]);
    }
}

proof fn lemma_no_shutdowns(actions: Seq<ActionView>)
    requires
        forall|k: int| 0 <= k < actions.len() ==> #[trigger] actions[k] != ActionView::Shutdown,
    ensures
        shutdowns(actions) == Seq::<ActionView>::empty(),
    decreases actions.len(),
{
    if actions.len() > 0 {
        assert(actions[actions.len() - 1] != ActionView::Shutdown);
        lemma_no_shutdowns(actions.drop_last());
    }
}

/// The session stays alive as long as there can be more steering: neither an
/// update, nor a request of the agent, nor the end of a turn, nor a steer ends it.
pub proof fn law_session_lives_while_steering_is_open(s: SessionView, input: Input)
    requires
        s.stage == Stage::Running,
        s.steering_open,
        !s.interrupted,
        input.event is Notification || input.event is ServerRequest || input.event is PromptDone
            || input.event is Steer,
    ensures
        step(s, input).0.stage == Stage::Running,
        step(s, input).0.steering_open,
{
}

/// Once there is no more steering, the session ends with the turn that delivers the
/// last steer that waits.
pub proof fn law_session_ends_with_the_last_turn(
    s: SessionView,
    result: JsonView,
    closing_id: Seq<char>,
    steering_id: Seq<char>,
)
    requires
        accepts(s, SessionEventView::PromptDone { result }),
        !s.steering_open,
        s.queued_steers.len() == 0,
    ensures
        ({
            let (next, actions) = session_step(
                s,
                SessionEventView::PromptDone { result },
                closing_id,
                steering_id,
            );
            &&& next.stage == Stage::Ended
            &&& actions == turn_report(s, result).push(ActionView::Shutdown)
        }),
{
    assert(session_step(s, SessionEventView::PromptDone { result }, closing_id, steering_id).1
        =~= turn_report(s, result).push(ActionView::Shutdown));
}

} // verus!
