//! What the mathematical values of this crate's types show: each part of a value in its
//! own place.

use vstd::prelude::*;
use crate::action::{actions_view, shutdowns, Action, ActionView};
use crate::handshake::{HandshakeOutcome, HandshakeOutcomeView, OpenSession};
use crate::json::{opt_text, Json, JsonView};
use crate::message_id::is_message_id;
use crate::proto::{
    events_view, models_view, opt_value, texts_view, todos_view, AgentEvent, AgentEventView,
    HarnessError, HarnessErrorView, Model, TodoItem, ToolCall, ToolCallView,
};
use crate::session::{draws_ids, SessionEvent, SessionEventView};

verus! {

/// Whether what is shown of an optional string is what is held.
pub open spec fn shows(shown: Option<Seq<char>>, held: Option<String>) -> bool {
    match held {
        Some(text) => shown == Some(text@),
        None => shown is None,
    }
}

/// Whether what is shown of an optional value is what is held.
pub open spec fn shows_value(shown: Option<JsonView>, held: Option<Json>) -> bool {
    match held {
        Some(value) => shown == Some(value@),
        None => shown is None,
    }
}

/// Optional strings and values show what they hold.
pub proof fn law_optional_parts_show_what_they_hold(text: Option<String>, value: Option<Json>)
    ensures
        shows(opt_text(text), text),
        shows_value(opt_value(value), value),
{
}

/// Sequences show each item in its place, and no other.
pub proof fn law_sequences_show_each_item_in_its_place(
    texts: Seq<String>,
    todos: Seq<TodoItem>,
    models: Seq<Model>,
    events: Seq<AgentEvent>,
    actions: Seq<Action>,
    i: int,
)
    ensures
        texts_view(texts).len() == texts.len(),
        0 <= i < texts.len() ==> texts_view(texts)[i] == texts[i]@,
        todos_view(todos).len() == todos.len(),
        0 <= i < todos.len() ==> todos_view(todos)[i].text == todos[i].text@ && todos_view(
            todos,
        )[i].done == todos[i].done,
        models_view(models).len() == models.len(),
        0 <= i < models.len() ==> {
            &&& models_view(models)[i].id == models[i].id@
            &&& models_view(models)[i].label == models[i].label@
            &&& shows(models_view(models)[i].description, models[i].description)
            &&& models_view(models)[i].reasoning_levels == models[i].reasoning_levels@
        },
        events_view(events).len() == events.len(),
        0 <= i < events.len() ==> events_view(events)[i] == events[i]@,
        actions_view(actions).len() == actions.len(),
        0 <= i < actions.len() ==> actions_view(actions)[i] == actions[i]@,
{
}

/// An error shows its kind and its words.
pub proof fn law_error_shows_kind_and_words(error: HarnessError)
    ensures
        error matches HarnessError::NotInstalled(what) ==> error@
            == HarnessErrorView::NotInstalled(what@),
        error matches HarnessError::Protocol(what) ==> error@ == HarnessErrorView::Protocol(what@),
        error matches HarnessError::Io(what) ==> error@ == HarnessErrorView::Io(what@),
{
}

/// A tool call shows its kind, and each of its parts under its own name.
pub proof fn law_call_shows_its_parts(call: ToolCall)
    ensures
        call matches ToolCall::Exec { command } ==> call@ == (ToolCallView::Exec {
            command: command@,
        }),
        call matches ToolCall::ReadFile { path } ==> call@ == (ToolCallView::ReadFile {
            path: path@,
        }),
        call matches ToolCall::EditFile { path, old_string, new_string } ==> (
        call@ matches ToolCallView::EditFile { path: p, old_string: o, new_string: n } && p
            == path@ && shows(o, old_string) && shows(n, new_string)),
        call matches ToolCall::Search { pattern, path } ==> (call@ matches ToolCallView::Search {
            pattern: p,
            path: q,
        } && p == pattern@ && shows(q, path)),
        call matches ToolCall::Glob { pattern } ==> call@ == (ToolCallView::Glob {
            pattern: pattern@,
        }),
        call matches ToolCall::WebSearch { query } ==> call@ == (ToolCallView::WebSearch {
            query: query@,
        }),
        call matches ToolCall::WebFetch { url, prompt } ==> (
        call@ matches ToolCallView::WebFetch { url: u, prompt: p } && u == url@ && shows(
            p,
            prompt,
        )),
        call matches ToolCall::Todo { items } ==> (call@ matches ToolCallView::Todo { items: shown }
            && shown.len() == items@.len() && forall|i: int|
            0 <= i < items@.len() ==> (#[trigger] shown[i]).text == items@[i].text@
                && shown[i].done == items@[i].done),
        call matches ToolCall::Mcp { server, tool, input } ==> (call@ matches ToolCallView::Mcp {
            server: s,
            tool: t,
            input: v,
        } && s == server@ && t == tool@ && shows_value(v, input)),
        call matches ToolCall::Unknown { name, input } ==> (
        call@ matches ToolCallView::Unknown { name: n, input: v } && n == name@ && shows_value(
            v,
            input,
        )),
{
}

/// An event shows its kind, and each of its parts under its own name.
pub proof fn law_event_shows_its_parts(event: AgentEvent)
    ensures
        event matches AgentEvent::SessionStarted {
            harness,
            model,
            tools,
            cwd,
            session_id,
            assistant_message_id,
        } ==> (event@ matches AgentEventView::SessionStarted {
            harness: h,
            model: m,
            tools: t,
            cwd: c,
            session_id: s,
            assistant_message_id: a,
        } && h == harness && m == model@ && t.len() == tools@.len() && c == cwd@ && s
            == session_id@ && a == assistant_message_id@),
        event matches AgentEvent::TextDelta { text } ==> event@ == (AgentEventView::TextDelta {
            text: text@,
        }),
        event matches AgentEvent::ReasoningDelta { text } ==> event@ == (
        AgentEventView::ReasoningDelta { text: text@ }),
        event matches AgentEvent::ToolCall { id, call } ==> event@ == (AgentEventView::ToolCall {
            id: id@,
            call: call@,
        }),
        event matches AgentEvent::ToolResult { id, is_error } ==> event@ == (
        AgentEventView::ToolResult { id: id@, is_error }),
        event matches AgentEvent::Usage { input_tokens, output_tokens } ==> event@ == (
        AgentEventView::Usage { input_tokens, output_tokens }),
        event matches AgentEvent::AssistantMessageCompleted { assistant_message_id } ==> event@
            == (AgentEventView::AssistantMessageCompleted {
            assistant_message_id: assistant_message_id@,
        }),
        event matches AgentEvent::Steered { assistant_message_id, next_assistant_message_id } ==> (
        event@ matches AgentEventView::Steered {
            assistant_message_id: a,
            next_assistant_message_id: n,
        } && shows(a, assistant_message_id) && shows(n, next_assistant_message_id)),
        event matches AgentEvent::Done { status, result, error, session_id } ==> (
        event@ matches AgentEventView::Done { status: t, result: r, error: e, session_id: s } && t
            == status && shows(r, result) && shows(e, error) && shows(s, session_id)),
{
}

/// An action shows its kind, and each of its parts under its own name.
pub proof fn law_action_shows_its_parts(action: Action)
    ensures
        action matches Action::Emit { event } ==> action@ == (ActionView::Emit { event: event@ }),
        action matches Action::Request { method, params } ==> action@ == (ActionView::Request {
            method: method@,
            params: params@,
        }),
        action matches Action::Notify { method, params } ==> (action@ matches ActionView::Notify {
            method: m,
            params: p,
        } && m == method@ && shows_value(p, params)),
        action matches Action::Reject { id, code, message } ==> action@ == (ActionView::Reject {
            id: id@,
            code,
            message: message@,
        }),
        action is Escalate <==> action@ is Escalate,
        action is InspectChild <==> action@ is InspectChild,
        action is Shutdown <==> action@ is Shutdown,
{
}

/// An event of a session shows its kind, and each of its parts under its own name.
pub proof fn law_session_event_shows_its_parts(event: SessionEvent)
    ensures
        event is Announced <==> event@ is Announced,
        event matches SessionEvent::Notification { method, params } ==> event@ == (
        SessionEventView::Notification { method: method@, params: params@ }),
        event matches SessionEvent::ServerRequest { id, method } ==> event@ == (
        SessionEventView::ServerRequest { id: id@, method: method@ }),
        event is Eof <==> event@ is Eof,
        event matches SessionEvent::PromptDone { result } ==> event@ == (
        SessionEventView::PromptDone { result: result@ }),
        event matches SessionEvent::PromptRejected { error } ==> event@ == (
        SessionEventView::PromptRejected { error: error@ }),
        event matches SessionEvent::PromptLost { error } ==> event@ == (
        SessionEventView::PromptLost { error: error@ }),
        event matches SessionEvent::Steer { text } ==> event@ == (SessionEventView::Steer {
            text: text@,
        }),
        event is SteeringClosed <==> event@ is SteeringClosed,
        event is Interrupt <==> event@ is Interrupt,
        event matches SessionEvent::ChildInspected { message } ==> event@ == (
        SessionEventView::ChildInspected { message: message@ }),
        event is ConsumerGone <==> event@ is ConsumerGone,
{
}

/// An open session and the outcome of a handshake show their parts.
pub proof fn law_outcome_shows_its_parts(open: OpenSession, outcome: HandshakeOutcome)
    ensures
        open@.session_id == open.session_id@,
        open@.cwd == open.cwd@,
        shows(open@.current_model, open.current_model),
        outcome matches HandshakeOutcome::Continue(actions) ==> (
        outcome@ matches HandshakeOutcomeView::Continue(shown) && shown.len() == actions@.len()),
        outcome matches HandshakeOutcome::Opened(session) ==> outcome@
            == HandshakeOutcomeView::Opened(session@),
        outcome matches HandshakeOutcome::Failed(error) ==> outcome@
            == HandshakeOutcomeView::Failed(error@),
{
}

// ---------------------------------------------------------------------------
// Ids and shutdowns
// ---------------------------------------------------------------------------

/// A message id has 36 characters: hexadecimal digits in lower case, but for hyphens
/// after the first 8, and then after 4, 4 and 4 more; its version is 4.
pub proof fn law_message_id_is_a_random_uuid(id: Seq<char>, i: int)
    requires
        is_message_id(id),
    ensures
        id.len() == 36,
        id[8] == '-' && id[13] == '-' && id[18] == '-' && id[23] == '-',
        0 <= i < 36 && i != 8 && i != 13 && i != 18 && i != 23 ==> 48 <= id[i] as u32 <= 57 || 97
            <= id[i] as u32 <= 102,
        id[14] == '4',
        id[19] == '8' || id[19] == '9' || id[19] == 'a' || id[19] == 'b',
{
    assert(id[8] == '-');
    assert(id[13] == '-');
    assert(id[18] == '-');
    assert(id[23] == '-');
    if 0 <= i < 36 {
        let c = id[i];
        assert(c == id[i]);
    }
}

/// New ids are drawn for every event after which a message can begin: the answer to a
/// prompt, and a steer.
pub proof fn law_new_messages_have_new_ids(event: SessionEventView)
    ensures
        event is PromptDone || event is Steer ==> draws_ids(event),
{
}

/// What is left after a refusal are shutdowns, and there is one exactly if there was one.
pub proof fn law_only_shutdowns_are_left(actions: Seq<ActionView>)
    ensures
        forall|i: int|
            0 <= i < shutdowns(actions).len() ==> #[trigger] shutdowns(actions)[i]
                == ActionView::Shutdown,
        shutdowns(actions).len() > 0 <==> exists|i: int|
            0 <= i < actions.len() && #[trigger] actions[i] == ActionView::Shutdown,
        shutdowns(actions).len() <= actions.len(),
    decreases actions.len(),
{
    if actions.len() > 0 {
        let before = actions.drop_last();
        law_only_shutdowns_are_left(before);
        if shutdowns(before).len() > 0 {
            let i = choose|i: int|
                0 <= i < before.len() && #[trigger] before[i] == ActionView::Shutdown;
            assert(actions[i] == ActionView::Shutdown);
        }
        if exists|i: int|
            0 <= i < actions.len() && #[trigger] actions[i] == ActionView::Shutdown {
            let i = choose|i: int|
                0 <= i < actions.len() && #[trigger] actions[i] == ActionView::Shutdown;
            if i < before.len() {
                assert(before[i] == ActionView::Shutdown);
            }
        }
        if actions.last() == ActionView::Shutdown {
            assert(actions[actions.len() - 1] == ActionView::Shutdown);
        }
    }
}

} // verus!
