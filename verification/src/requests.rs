//! The parameters of the requests and notifications that go to the agent.

use vstd::prelude::*;
use crate::json::{items_view, Json, JsonObject, JsonView};

verus! {

/// Asks the agent, at the start of a run, not to put questions to the user: there
/// is no bridge over which the answer could reach it.
pub const ASK_USER_QUESTION_SESSION_RULE: &'static str =
    "Do not use the ask_user_question tool in this session: no answer can reach you. When something is unclear, make a reasonable assumption, state it, and continue.";

/// A text block.
pub open spec fn text_block(text: Seq<char>) -> JsonView {
    JsonView::Object(map!["type"@ => JsonView::String("text"@), "text"@ => JsonView::String(text)])
}

/// The content blocks of a user prompt.
pub open spec fn prompt_blocks(text: Seq<char>, include_session_rule: bool) -> JsonView {
    JsonView::Array(
        if include_session_rule {
            seq![text_block(ASK_USER_QUESTION_SESSION_RULE@), text_block(text)]
        } else {
            seq![text_block(text)]
        },
    )
}

fn make_text_block(text: &str) -> (block: Json)
    ensures
        block@ == text_block(text@),
{
    let mut members = JsonObject::new();
    members.insert("type".to_owned(), Json::text("text"));
    members.insert("text".to_owned(), Json::text(text));
    Json::object(members)
}

/// The content blocks of a user prompt. The first prompt of a run carries the
/// session rule as a leading text block.
pub fn prompt_content(text: &str, include_session_rule: bool) -> (blocks: Json)
    ensures
        blocks@ == prompt_blocks(text@, include_session_rule),
{
    let mut blocks: Vec<Json> = Vec::new();
    if include_session_rule {
        blocks.push(make_text_block(ASK_USER_QUESTION_SESSION_RULE));
    }
    blocks.push(make_text_block(text));
    assert(items_view(blocks@) =~= prompt_blocks(text@, include_session_rule)->Array_0);
    Json::array(blocks)
}

/// The parameters of `initialize`.
pub open spec fn initialize_object(version: Seq<char>) -> JsonView {
    JsonView::Object(
        map![
            "protocolVersion"@ => JsonView::Number(crate::json::JsonNumber::PosInt(1)),
            "clientCapabilities"@ => JsonView::Object(Map::empty()),
            "clientInfo"@ => JsonView::Object(map![
                "name"@ => JsonView::String("comet-native"@),
                "title"@ => JsonView::String("Comet"@),
                "version"@ => JsonView::String(version),
            ]),
        ],
    )
}

/// The parameters of `initialize`, from the version of this client.
pub fn initialize_params(version: &str) -> (params: Json)
    ensures
        params@ == initialize_object(version@),
{
    let mut info = JsonObject::new();
    info.insert("name".to_owned(), Json::text("comet-native"));
    info.insert("title".to_owned(), Json::text("Comet"));
    info.insert("version".to_owned(), Json::text(version));
    let mut members = JsonObject::new();
    members.insert("protocolVersion".to_owned(), Json::Number(crate::json::JsonNumber::PosInt(1)));
    members.insert("clientCapabilities".to_owned(), Json::object(JsonObject::new()));
    members.insert("clientInfo".to_owned(), Json::object(info));
    Json::object(members)
}

/// The parameters of `session/new`.
pub open spec fn new_session_object(cwd: Seq<char>) -> JsonView {
    JsonView::Object(
        map!["cwd"@ => JsonView::String(cwd), "mcpServers"@ => JsonView::Array(Seq::empty())],
    )
}

fn no_servers() -> (servers: Json)
    ensures
        servers@ == JsonView::Array(Seq::<JsonView>::empty()),
{
    let servers: Vec<Json> = Vec::new();
    assert(items_view(servers@) =~= Seq::empty());
    Json::array(servers)
}

/// The parameters of `session/new`.
pub fn new_session_params(cwd: &str) -> (params: Json)
    ensures
        params@ == new_session_object(cwd@),
{
    let mut members = JsonObject::new();
    members.insert("cwd".to_owned(), Json::text(cwd));
    members.insert("mcpServers".to_owned(), no_servers());
    Json::object(members)
}

/// The parameters of `session/load`.
pub open spec fn load_session_object(session_id: Seq<char>, cwd: Seq<char>) -> JsonView {
    JsonView::Object(
        map![
            "sessionId"@ => JsonView::String(session_id),
            "cwd"@ => JsonView::String(cwd),
            "mcpServers"@ => JsonView::Array(Seq::empty()),
        ],
    )
}

/// The parameters of `session/load`.
pub fn load_session_params(session_id: &str, cwd: &str) -> (params: Json)
    ensures
        params@ == load_session_object(session_id@, cwd@),
{
    let mut members = JsonObject::new();
    members.insert("sessionId".to_owned(), Json::text(session_id));
    members.insert("cwd".to_owned(), Json::text(cwd));
    members.insert("mcpServers".to_owned(), no_servers());
    Json::object(members)
}

/// The parameters of `session/prompt`.
pub open spec fn prompt_object(
    session_id: Seq<char>,
    text: Seq<char>,
    include_session_rule: bool,
) -> JsonView {
    JsonView::Object(
        map![
            "sessionId"@ => JsonView::String(session_id),
            "prompt"@ => prompt_blocks(text, include_session_rule),
        ],
    )
}

/// The parameters of `session/prompt`.
pub fn prompt_params(session_id: &str, text: &str, include_session_rule: bool) -> (params: Json)
    ensures
        params@ == prompt_object(session_id@, text@, include_session_rule),
{
    let mut members = JsonObject::new();
    members.insert("sessionId".to_owned(), Json::text(session_id));
    members.insert("prompt".to_owned(), prompt_content(text, include_session_rule));
    Json::object(members)
}

/// The parameters of `session/cancel`.
pub open spec fn cancel_object(session_id: Seq<char>) -> JsonView {
    JsonView::Object(map!["sessionId"@ => JsonView::String(session_id)])
}

/// The parameters of `session/cancel`.
pub fn cancel_params(session_id: &str) -> (params: Json)
    ensures
        params@ == cancel_object(session_id@),
{
    let mut members = JsonObject::new();
    members.insert("sessionId".to_owned(), Json::text(session_id));
    Json::object(members)
}

/// A prompt with the session rule differs from one without it by one leading block.
pub proof fn law_session_rule_leads(text: Seq<char>)
    ensures
        prompt_blocks(text, true)->Array_0 == seq![text_block(ASK_USER_QUESTION_SESSION_RULE@)]
            + prompt_blocks(text, false)->Array_0,
{
    assert(prompt_blocks(text, true)->Array_0 =~= seq![
        text_block(ASK_USER_QUESTION_SESSION_RULE@),
    ] + prompt_blocks(text, false)->Array_0);
}

} // verus!
