//! What goes to the agent, said of the parts of each message.

use vstd::prelude::*;
use crate::action::ActionView;
use crate::handshake::{
    handshake_step, initial_handshake, working_dir, HandshakeOutcomeView, HandshakeStage,
    HandshakeView, OpenSessionView,
};
use crate::json::{JsonNumber, JsonView};
use crate::proto::HarnessErrorView;
use crate::requests::{
    cancel_object, initialize_object, load_session_object, new_session_object, prompt_blocks,
    prompt_object, ASK_USER_QUESTION_SESSION_RULE,
};
use crate::value_laws::{holds, holds_text, lacks, lacks_text};

verus! {

// ---------------------------------------------------------------------------
// Parameters
// ---------------------------------------------------------------------------

/// Whether `v` is an object with members under exactly these names.
pub open spec fn has_exactly(v: JsonView, names: Set<Seq<char>>) -> bool {
    v matches JsonView::Object(members) && members.dom() == names
}

proof fn lemma_member_names()
    ensures
        "sessionId"@ != "prompt"@,
        "sessionId"@ != "cwd"@,
        "sessionId"@ != "mcpServers"@,
        "cwd"@ != "mcpServers"@,
        "type"@ != "text"@,
        "name"@ != "title"@,
        "name"@ != "version"@,
        "title"@ != "version"@,
        "protocolVersion"@ != "clientCapabilities"@,
        "protocolVersion"@ != "clientInfo"@,
        "clientCapabilities"@ != "clientInfo"@,
{
    reveal_strlit("sessionId");
    reveal_strlit("prompt");
    reveal_strlit("cwd");
    reveal_strlit("mcpServers");
    reveal_strlit("type");
    reveal_strlit("text");
    reveal_strlit("name");
    reveal_strlit("title");
    reveal_strlit("version");
    reveal_strlit("protocolVersion");
    reveal_strlit("clientCapabilities");
    reveal_strlit("clientInfo");
    assert("type"@[1] != "text"@[1]);
    assert("sessionId"@.len() == 9 && "prompt"@.len() == 6 && "cwd"@.len() == 3
        && "mcpServers"@.len() == 10);
    assert("name"@.len() == 4 && "title"@.len() == 5 && "version"@.len() == 7);
    assert("protocolVersion"@.len() == 15 && "clientCapabilities"@.len() == 18
        && "clientInfo"@.len() == 10);
}

/// Whether a content block is a text block with exactly this text.
pub open spec fn says(block: JsonView, text: Seq<char>) -> bool {
    &&& has_exactly(block, set!["type"@, "text"@])
    &&& holds_text(block, "type"@, "text"@)
    &&& holds_text(block, "text"@, text)
}

/// The parameters of a prompt name the session, and the last block says exactly what
/// the user said. With the session rule there is one block more, before it, and it
/// says the rule; without it there is none.
pub proof fn law_prompt_says_what_the_user_said(
    session_id: Seq<char>,
    text: Seq<char>,
    rule: bool,
)
    ensures
        ({
            let params = prompt_object(session_id, text, rule);
            &&& has_exactly(params, set!["sessionId"@, "prompt"@])
            &&& holds_text(params, "sessionId"@, session_id)
            &&& params->Object_0["prompt"@] matches JsonView::Array(blocks) && {
                &&& blocks.len() == if rule { 2int } else { 1int }
                &&& says(blocks.last(), text)
                &&& rule ==> says(blocks[0], ASK_USER_QUESTION_SESSION_RULE@)
            }
        }),
{
    lemma_member_names();
    let params = prompt_object(session_id, text, rule);
    assert(params->Object_0.dom() =~= set!["sessionId"@, "prompt"@]);
    let blocks = params->Object_0["prompt"@]->Array_0;
    assert(blocks.last()->Object_0.dom() =~= set!["type"@, "text"@]);
    assert(blocks[0]->Object_0.dom() =~= set!["type"@, "text"@]);
}

/// The blocks of a prompt alone: the last one says what the user said.
pub proof fn law_blocks_say_what_the_user_said(text: Seq<char>, rule: bool)
    ensures
        prompt_blocks(text, rule) matches JsonView::Array(blocks) && {
            &&& blocks.len() == if rule { 2int } else { 1int }
            &&& says(blocks.last(), text)
            &&& rule ==> says(blocks[0], ASK_USER_QUESTION_SESSION_RULE@)
        },
{
    lemma_member_names();
    let blocks = prompt_blocks(text, rule)->Array_0;
    assert(blocks.last()->Object_0.dom() =~= set!["type"@, "text"@]);
    assert(blocks[0]->Object_0.dom() =~= set!["type"@, "text"@]);
}

/// Prompts differ whenever the sessions, the texts or the use of the rule do.
pub proof fn law_prompts_tell_texts_apart(
    session_id: Seq<char>,
    text: Seq<char>,
    rule: bool,
    other_session: Seq<char>,
    other_text: Seq<char>,
    other_rule: bool,
)
    requires
        prompt_object(session_id, text, rule) == prompt_object(
            other_session,
            other_text,
            other_rule,
        ),
    ensures
        session_id == other_session,
        text == other_text,
        rule == other_rule,
{
    law_prompt_says_what_the_user_said(session_id, text, rule);
    law_prompt_says_what_the_user_said(other_session, other_text, other_rule);
}

/// The parameters of `session/load`: the session to load, the directory, no servers.
pub proof fn law_load_names_session_and_directory(session_id: Seq<char>, cwd: Seq<char>)
    ensures
        ({
            let params = load_session_object(session_id, cwd);
            &&& has_exactly(params, set!["sessionId"@, "cwd"@, "mcpServers"@])
            &&& holds_text(params, "sessionId"@, session_id)
            &&& holds_text(params, "cwd"@, cwd)
            &&& holds(params, "mcpServers"@, JsonView::Array(Seq::empty()))
        }),
{
    lemma_member_names();
    assert(load_session_object(session_id, cwd)->Object_0.dom() =~= set![
        "sessionId"@,
        "cwd"@,
        "mcpServers"@,
    ]);
}

/// The parameters of `session/new`: the directory, no servers, no session.
pub proof fn law_new_names_the_directory(cwd: Seq<char>)
    ensures
        ({
            let params = new_session_object(cwd);
            &&& has_exactly(params, set!["cwd"@, "mcpServers"@])
            &&& holds_text(params, "cwd"@, cwd)
            &&& holds(params, "mcpServers"@, JsonView::Array(Seq::empty()))
        }),
{
    lemma_member_names();
    assert(new_session_object(cwd)->Object_0.dom() =~= set!["cwd"@, "mcpServers"@]);
}

/// The parameters of `session/cancel`: the session.
pub proof fn law_cancel_names_the_session(session_id: Seq<char>)
    ensures
        has_exactly(cancel_object(session_id), set!["sessionId"@]),
        holds_text(cancel_object(session_id), "sessionId"@, session_id),
{
    assert(cancel_object(session_id)->Object_0.dom() =~= set!["sessionId"@]);
}

/// The parameters of `initialize`: version 1 of the protocol, no capabilities, and who
/// the client is, with its version.
pub proof fn law_initialize_introduces_the_client(version: Seq<char>)
    ensures
        ({
            let params = initialize_object(version);
            &&& has_exactly(
                params,
                set!["protocolVersion"@, "clientCapabilities"@, "clientInfo"@],
            )
            &&& holds(params, "protocolVersion"@, JsonView::Number(JsonNumber::PosInt(1)))
            &&& holds(params, "clientCapabilities"@, JsonView::Object(Map::empty()))
            &&& has_exactly(params->Object_0["clientInfo"@], set!["name"@, "title"@, "version"@])
            &&& holds_text(params->Object_0["clientInfo"@], "name"@, "comet-native"@)
            &&& holds_text(params->Object_0["clientInfo"@], "title"@, "Comet"@)
            &&& holds_text(params->Object_0["clientInfo"@], "version"@, version)
        }),
{
    lemma_member_names();
    let params = initialize_object(version);
    assert(params->Object_0.dom() =~= set![
        "protocolVersion"@,
        "clientCapabilities"@,
        "clientInfo"@,
    ]);
    assert(params->Object_0["clientInfo"@]->Object_0.dom() =~= set![
        "name"@,
        "title"@,
        "version"@,
    ]);
}

// ---------------------------------------------------------------------------
// The handshake
// ---------------------------------------------------------------------------

/// Whether an action is the request that loads this session in this directory.
pub open spec fn loads(action: ActionView, session_id: Seq<char>, cwd: Seq<char>) -> bool {
    action matches ActionView::Request { method, params } && {
        &&& method == "session/load"@
        &&& holds_text(params, "sessionId"@, session_id)
        &&& holds_text(params, "cwd"@, cwd)
        &&& holds(params, "mcpServers"@, JsonView::Array(Seq::empty()))
    }
}

/// Whether an action is the request that opens a new session in this directory.
pub open spec fn creates(action: ActionView, cwd: Seq<char>) -> bool {
    action matches ActionView::Request { method, params } && {
        &&& method == "session/new"@
        &&& holds_text(params, "cwd"@, cwd)
        &&& holds(params, "mcpServers"@, JsonView::Array(Seq::empty()))
        &&& lacks(params, "sessionId"@)
    }
}

/// A greeting is answered: the agent is told that it is initialized, and then the
/// session to resume is loaded; without one, a new session is asked for. Session and
/// directory are those that the handshake began with.
pub proof fn law_greeting_leads_to_load_or_new(
    resume: Option<Seq<char>>,
    cwd: Seq<char>,
    greeting: JsonView,
)
    ensures
        ({
            let (next, outcome) = handshake_step(initial_handshake(resume, cwd), Ok(greeting));
            &&& outcome matches HandshakeOutcomeView::Continue(actions) && {
                &&& actions.len() == 2
                &&& actions[0] == (ActionView::Notify {
                    method: "notifications/initialized"@,
                    params: None,
                })
                &&& resume matches Some(session_id) ==> loads(actions[1], session_id, cwd)
                &&& resume is None ==> creates(actions[1], cwd)
            }
            &&& next.resume == resume && next.cwd == cwd
            &&& next.stage == if resume is Some {
                HandshakeStage::Loading
            } else {
                HandshakeStage::Creating
            }
        }),
{
    lemma_member_names();
}

/// The model that a greeting names under `_meta.modelState.currentModelId` is kept; a
/// greeting that names none, or an empty one, leaves it open.
pub proof fn law_greeting_names_the_model(
    h: HandshakeView,
    greeting: JsonView,
    meta: JsonView,
    state: JsonView,
)
    requires
        h.stage == HandshakeStage::Initializing,
        holds(greeting, "_meta"@, meta),
        holds(meta, "modelState"@, state),
    ensures
        forall|model: Seq<char>|
            #![trigger holds_text(state, "currentModelId"@, model)]
            holds_text(state, "currentModelId"@, model) ==> handshake_step(
                h,
                Ok(greeting),
            ).0.current_model == if model.len() > 0 {
                Some(model)
            } else {
                None
            },
        lacks_text(state, "currentModelId"@) ==> handshake_step(h, Ok(greeting)).0.current_model
            is None,
{
}

/// A greeting without a model state leaves the model open.
pub proof fn law_greeting_without_state_names_no_model(
    h: HandshakeView,
    greeting: JsonView,
)
    requires
        h.stage == HandshakeStage::Initializing,
        lacks(greeting, "_meta"@) || lacks(greeting->Object_0["_meta"@], "modelState"@),
    ensures
        handshake_step(h, Ok(greeting)).0.current_model is None,
{
}

/// A session opens under the id that the reply names, in the directory and with the
/// model of the handshake. A loaded session for which the reply names none keeps the id
/// that was asked for. Without an id the handshake fails.
pub proof fn law_reply_opens_the_session_it_names(
    h: HandshakeView,
    reply: JsonView,
    session_id: Seq<char>,
)
    requires
        h.stage == HandshakeStage::Loading || h.stage == HandshakeStage::Creating,
        holds_text(reply, "sessionId"@, session_id) || (lacks_text(reply, "sessionId"@) && (
        h.stage == HandshakeStage::Loading && h.resume == Some(session_id) || h.stage
            == HandshakeStage::Creating && session_id.len() == 0)),
    ensures
        handshake_step(h, Ok(reply)).0.stage == HandshakeStage::Closed,
        session_id.len() > 0 ==> handshake_step(h, Ok(reply)).1 == HandshakeOutcomeView::Opened(
            OpenSessionView { session_id, cwd: h.cwd, current_model: h.current_model },
        ),
        session_id.len() == 0 ==> handshake_step(h, Ok(reply)).1 == HandshakeOutcomeView::Failed(
            HarnessErrorView::Protocol("session/new: missing sessionId"@),
        ),
{
}

/// A refusal is final, but for that of a load: it leads to a new session in the same
/// directory.
pub proof fn law_only_a_load_may_fail(h: HandshakeView, refusal: HarnessErrorView)
    ensures
        h.stage == HandshakeStage::Initializing || h.stage == HandshakeStage::Creating ==> {
            &&& handshake_step(h, Err(refusal)).1 == HandshakeOutcomeView::Failed(refusal)
            &&& handshake_step(h, Err(refusal)).0.stage == HandshakeStage::Closed
        },
        h.stage == HandshakeStage::Loading ==> {
            &&& handshake_step(h, Err(refusal)).0 == HandshakeView {
                stage: HandshakeStage::Creating,
                ..h
            }
            &&& handshake_step(h, Err(refusal)).1 matches HandshakeOutcomeView::Continue(actions)
                && actions.len() == 1 && creates(actions[0], h.cwd)
        },
{
    lemma_member_names();
}

/// The directory that was asked for counts, where it is not empty; else the current
/// one; else `.`.
pub proof fn law_requested_directory_counts_first(
    requested: Seq<char>,
    current_dir: Option<Seq<char>>,
)
    ensures
        requested.len() > 0 ==> working_dir(requested, current_dir) == requested,
        requested.len() == 0 ==> (current_dir matches Some(dir) ==> working_dir(
            requested,
            current_dir,
        ) == dir),
        requested.len() == 0 && current_dir is None ==> working_dir(requested, current_dir)
            == "."@,
{
}

} // verus!
