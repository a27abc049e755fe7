//! Mapping of the agent's `session/update` notifications and prompt results to
//! [`AgentEvent`]s.
//!
//! Tolerant by construction: tool names come from `_meta["x.ai/tool"].name`
//! when present (with `title` and `kind` as fallbacks), and unknown tools map to
//! [`ToolCall::Unknown`]. A tool call is reported once, however many updates
//! enrich it later; its result is reported on a terminal status only.

use vstd::hash_set::StringHashSet;
use vstd::prelude::*;
use crate::json::{
    bool_in, member_in, owned, str_in, u64_in, unless_empty, Json, JsonView,
};
use crate::json::{
    bool_of, items_of, member_of, non_empty, opt_chars, opt_json, opt_text, str_of,
    u64_of,
};
use crate::proto::{
    events_view, opt_value, todos_view, AgentEvent, AgentEventView, TodoItem, TodoItemView, ToolCall,
    ToolCallView,
};
use crate::text::{ascii_lowercase, str_eq};

verus! {

/// The ids of the tool calls that were reported in the current turn.
pub struct SeenTools {
    ids: StringHashSet,
}

impl View for SeenTools {
    type V = Set<Seq<char>>;

    closed spec fn view(&self) -> Set<Seq<char>> {
        self.ids@
    }
}

impl SeenTools {
    /// No tool call was reported yet.
    pub fn new() -> (seen: SeenTools)
        ensures
            seen@ == Set::<Seq<char>>::empty(),
    {
        SeenTools { ids: StringHashSet::new() }
    }

    pub fn contains(&self, id: &str) -> (found: bool)
        ensures
            found == self@.contains(id@),
    {
        self.ids.contains(id)
    }

    pub fn insert(&mut self, id: String)
        ensures
            final(self)@ == old(self)@.insert(id@),
    {
        self.ids.insert(id);
    }

    pub fn clear(&mut self)
        ensures
            final(self)@ == Set::<Seq<char>>::empty(),
    {
        self.ids.clear();
    }
}

// ---------------------------------------------------------------------------
// Fields
// ---------------------------------------------------------------------------

/// The characters of each key.
pub open spec fn keys_view(keys: Seq<&str>) -> Seq<Seq<char>> {
    keys.map_values(|key: &str| key@)
}

/// The value of the first of `keys` under which `v` holds a string.
pub open spec fn first_string(v: JsonView, keys: Seq<Seq<char>>) -> Option<Seq<char>>
    decreases keys.len(),
{
    if keys.len() == 0 {
        None
    } else if v.str_at(keys[0]) is Some {
        v.str_at(keys[0])
    } else {
        first_string(v, keys.drop_first())
    }
}

/// The value of the first of `keys` under which `v` holds a string, unless that
/// string is empty.
pub open spec fn field(v: JsonView, keys: Seq<Seq<char>>) -> Option<Seq<char>> {
    non_empty(first_string(v, keys))
}

/// Like [`field`], with a default.
pub open spec fn field_or(v: JsonView, keys: Seq<Seq<char>>, default: Seq<char>) -> Seq<char> {
    match field(v, keys) {
        Some(text) => text,
        None => default,
    }
}

fn find_field<'a>(v: &'a Json, keys: &[&str]) -> (found: Option<&'a str>)
    ensures
        opt_chars(found) == field(v@, keys_view(keys@)),
{
    let ghost names = keys_view(keys@);
    let mut i: usize = 0;
    assert(names.skip(0) =~= names);
    while i < keys.len()
        invariant
            i <= keys.len(),
            names == keys_view(keys@),
            first_string(v@, names) == first_string(v@, names.skip(i as int)),
        decreases keys.len() - i,
    {
        proof {
            assert(names.skip(i as int)[0] == keys@[i as int]@);
            assert(names.skip(i as int).drop_first() =~= names.skip(i + 1));
        }
        let value = v.str_at(keys[i]);
        if value.is_some() {
            return unless_empty(value);
        }
        i += 1;
    }
    None
}

/// The first string among the members called `keys`, or `default` where there is
/// none or it is empty.
pub fn str_field(v: &Json, keys: &[&str], default: &str) -> (text: String)
    ensures
        text@ == field_or(v@, keys_view(keys@), default@),
{
    match find_field(v, keys) {
        Some(text) => text.to_owned(),
        None => default.to_owned(),
    }
}

/// The first string among the members called `keys`, unless it is empty.
pub fn opt_str_field(v: &Json, keys: &[&str]) -> (text: Option<String>)
    ensures
        opt_text(text) == field(v@, keys_view(keys@)),
{
    owned(find_field(v, keys))
}

// ---------------------------------------------------------------------------
// Tool calls
// ---------------------------------------------------------------------------

/// The agent's own description of the tool, `_meta["x.ai/tool"]`.
pub open spec fn meta_tool(update: JsonView) -> Option<JsonView> {
    match member_of(update.get("_meta"@), "x.ai/tool"@) {
        Some(tool) => if tool.is_object() {
            Some(tool)
        } else {
            None
        },
        None => None,
    }
}

/// What a tool is called: the agent's own name for it, else the update's title,
/// else its kind.
pub open spec fn tool_name(update: JsonView) -> Seq<char> {
    match str_of(member_of(meta_tool(update), "name"@)) {
        Some(name) => name,
        None => match update.str_at("title"@) {
            Some(title) => title,
            None => match update.str_at("kind"@) {
                Some(kind) => kind,
                None => "unknown"@,
            },
        },
    }
}

/// A value, unless it is null.
pub open spec fn non_null(v: Option<JsonView>) -> Option<JsonView> {
    match v {
        Some(value) => if value.is_null() {
            None
        } else {
            Some(value)
        },
        None => None,
    }
}

/// What a tool is called with: the canonical input of the agent's own
/// description, else the raw one.
pub open spec fn tool_input(update: JsonView) -> Option<JsonView> {
    match non_null(member_of(meta_tool(update), "input"@)) {
        Some(input) => Some(input),
        None => non_null(update.get_either("rawInput"@, "raw_input"@)),
    }
}

/// Whether a to-do entry counts as done.
pub open spec fn is_done(entry: JsonView) -> bool {
    match bool_of(entry.get_either("done"@, "completed"@)) {
        Some(done) => done,
        None => match entry.str_at("status"@) {
            Some(status) => {
                ||| status == "done"@
                ||| status == "completed"@
                ||| status == "complete"@
                ||| status == "finished"@
            },
            None => false,
        },
    }
}

/// One entry of a to-do list.
pub open spec fn todo_item(entry: JsonView) -> TodoItemView {
    TodoItemView {
        text: field_or(entry, seq!["text"@, "content"@, "title"@, "subject"@], Seq::empty()),
        done: is_done(entry),
    }
}

/// The entries of a to-do list, in order.
pub open spec fn todo_list(input: JsonView) -> Seq<TodoItemView> {
    items_of(input.get_either("todos"@, "items"@)).map_values(|entry: JsonView| todo_item(entry))
}

/// A tool that has no kind of its own.
pub open spec fn unknown_tool(name: Seq<char>, input: JsonView) -> ToolCallView {
    ToolCallView::Unknown { name, input: non_null(Some(input)) }
}

/// A tool of an MCP server, where server and tool are both named.
pub open spec fn used_tool(input: JsonView) -> ToolCallView {
    let server = field(input, seq!["server"@, "server_name"@, "mcp_server"@, "serverName"@]);
    let tool = field(input, seq!["tool"@, "tool_name"@, "name"@, "toolName"@]);
    if server is Some && tool is Some {
        ToolCallView::Mcp { server: server->0, tool: tool->0, input: Some(input) }
    } else {
        unknown_tool("use_tool"@, input)
    }
}

/// What a tool of the given name does with the given input.
pub open spec fn named_tool(name: Seq<char>, input: JsonView) -> ToolCallView {
    if name == "run_terminal_command"@ {
        let whole = match input.as_str() {
            Some(text) => text,
            None => Seq::empty(),
        };
        ToolCallView::Exec {
            command: field_or(input, seq!["command"@, "cmd"@, "shell_command"@], whole),
        }
    } else if name == "read_file"@ {
        ToolCallView::ReadFile {
            path: field_or(
                input,
                seq!["path"@, "target_file"@, "file"@, "filename"@],
                Seq::empty(),
            ),
        }
    } else if name == "search_replace"@ {
        ToolCallView::EditFile {
            path: field_or(
                input,
                seq!["path"@, "file_path"@, "file"@, "target_file"@],
                Seq::empty(),
            ),
            old_string: field(input, seq!["old_string"@, "oldString"@, "old"@]),
            new_string: field(input, seq!["new_string"@, "newString"@, "new"@]),
        }
    } else if name == "grep"@ {
        ToolCallView::Search {
            pattern: field_or(input, seq!["pattern"@, "query"@, "regex"@], Seq::empty()),
            path: field(input, seq!["path"@, "directory"@, "target_directory"@]),
        }
    } else if name == "list_dir"@ {
        ToolCallView::Glob {
            pattern: field_or(
                input,
                seq!["directory"@, "target_directory"@, "path"@, "pattern"@],
                Seq::empty(),
            ),
        }
    } else if name == "web_search"@ {
        ToolCallView::WebSearch {
            query: field_or(input, seq!["query"@, "q"@, "search"@], Seq::empty()),
        }
    } else if name == "web_fetch"@ {
        ToolCallView::WebFetch {
            url: field_or(input, seq!["url"@, "uri"@, "href"@], Seq::empty()),
            prompt: field(input, seq!["prompt"@, "instructions"@, "query"@]),
        }
    } else if name == "todo_write"@ {
        ToolCallView::Todo { items: todo_list(input) }
    } else if name == "use_tool"@ {
        used_tool(input)
    } else {
        unknown_tool(name, input)
    }
}

/// The value of an optional input, null where there is none.
pub open spec fn or_null(input: Option<JsonView>) -> JsonView {
    match input {
        Some(value) => value,
        None => JsonView::Null,
    }
}

/// The tool call that a `tool_call` or `tool_call_update` describes.
pub open spec fn tool_call(update: JsonView) -> ToolCallView {
    named_tool(tool_name(update), or_null(tool_input(update)))
}

/// Decode a tool invocation from a `tool_call` or `tool_call_update`.
pub fn map_tool_call(update: &Json) -> (call: ToolCall)
    ensures
        call@ == tool_call(update@),
{
    let (name, input) = tool_name_and_input(update);
    map_named_tool(name.as_str(), input.as_ref())
}

fn present<'a>(v: Option<&'a Json>) -> (kept: Option<&'a Json>)
    ensures
        opt_json(kept) == non_null(opt_json(v)),
{
    match v {
        Some(value) => if value.is_null() {
            None
        } else {
            Some(value)
        },
        None => None,
    }
}

/// The name and the input of the tool that an update speaks of.
pub fn tool_name_and_input(update: &Json) -> (tool: (String, Option<Json>))
    ensures
        tool.0@ == tool_name(update@),
        opt_value(tool.1) == tool_input(update@),
{
    let described = match member_in(update.get("_meta"), "x.ai/tool") {
        Some(tool) => if tool.is_object() {
            Some(tool)
        } else {
            None
        },
        None => None,
    };
    assert(opt_json(described) == meta_tool(update@));
    let name = match str_in(member_in(described, "name")) {
        Some(name) => name,
        None => match update.str_at("title") {
            Some(title) => title,
            None => match update.str_at("kind") {
                Some(kind) => kind,
                None => "unknown",
            },
        },
    };
    let input = match present(member_in(described, "input")) {
        Some(input) => Some(input.clone()),
        None => match present(update.get_either("rawInput", "raw_input")) {
            Some(input) => Some(input.clone()),
            None => None,
        },
    };
    (name.to_owned(), input)
}

fn unknown(name: &str, input: &Json) -> (call: ToolCall)
    ensures
        call@ == unknown_tool(name@, input@),
{
    let input = if input.is_null() {
        None
    } else {
        Some(input.clone())
    };
    ToolCall::Unknown { name: name.to_owned(), input }
}

/// The call of the tool called `name`.
pub fn map_named_tool(name: &str, input: Option<&Json>) -> (call: ToolCall)
    ensures
        call@ == named_tool(name@, or_null(opt_json(input))),
{
    let null = Json::Null;
    let input = match input {
        Some(value) => value,
        None => &null,
    };
    proof {
        lemma_empty_literal();
    }
    if str_eq(name, "run_terminal_command") {
        let keys = ["command", "cmd", "shell_command"];
        proof {
            assert(keys_view(keys@) =~= seq!["command"@, "cmd"@, "shell_command"@]);
        }
        let whole = match input.as_str() {
            Some(text) => text,
            None => "",
        };
        ToolCall::Exec { command: str_field(input, keys.as_slice(), whole) }
    } else if str_eq(name, "read_file") {
        let path_keys = ["path", "target_file", "file", "filename"];
        proof {
            assert(keys_view(path_keys@) =~= seq!["path"@, "target_file"@, "file"@, "filename"@]);
        }
        ToolCall::ReadFile {
            path: str_field(input, path_keys.as_slice(), ""),
        }
    } else if str_eq(name, "search_replace") {
        let path_keys = ["path", "file_path", "file", "target_file"];
        let old_string_keys = ["old_string", "oldString", "old"];
        let new_string_keys = ["new_string", "newString", "new"];
        proof {
            assert(keys_view(path_keys@) =~= seq!["path"@, "file_path"@, "file"@, "target_file"@]);
            assert(keys_view(old_string_keys@) =~= seq!["old_string"@, "oldString"@, "old"@]);
            assert(keys_view(new_string_keys@) =~= seq!["new_string"@, "newString"@, "new"@]);
        }
        ToolCall::EditFile {
            path: str_field(input, path_keys.as_slice(), ""),
            old_string: opt_str_field(input, old_string_keys.as_slice()),
            new_string: opt_str_field(input, new_string_keys.as_slice()),
        }
    } else if str_eq(name, "grep") {
        let pattern_keys = ["pattern", "query", "regex"];
        let path_keys = ["path", "directory", "target_directory"];
        proof {
            assert(keys_view(pattern_keys@) =~= seq!["pattern"@, "query"@, "regex"@]);
            assert(keys_view(path_keys@) =~= seq!["path"@, "directory"@, "target_directory"@]);
        }
        ToolCall::Search {
            pattern: str_field(input, pattern_keys.as_slice(), ""),
            path: opt_str_field(input, path_keys.as_slice()),
        }
    } else if str_eq(name, "list_dir") {
        let pattern_keys = ["directory", "target_directory", "path", "pattern"];
        proof {
            assert(keys_view(pattern_keys@) =~= seq!["directory"@, "target_directory"@, "path"@, "pattern"@]);
        }
        // There is no kind for a directory listing; a glob shows its path.
        ToolCall::Glob {
            pattern: str_field(input, pattern_keys.as_slice(), ""),
        }
    } else if str_eq(name, "web_search") {
        let query_keys = ["query", "q", "search"];
        proof {
            assert(keys_view(query_keys@) =~= seq!["query"@, "q"@, "search"@]);
        }
        ToolCall::WebSearch {
            query: str_field(input, query_keys.as_slice(), ""),
        }
    } else if str_eq(name, "web_fetch") {
        let url_keys = ["url", "uri", "href"];
        let prompt_keys = ["prompt", "instructions", "query"];
        proof {
            assert(keys_view(url_keys@) =~= seq!["url"@, "uri"@, "href"@]);
            assert(keys_view(prompt_keys@) =~= seq!["prompt"@, "instructions"@, "query"@]);
        }
        ToolCall::WebFetch {
            url: str_field(input, url_keys.as_slice(), ""),
            prompt: opt_str_field(input, prompt_keys.as_slice()),
        }
    } else if str_eq(name, "todo_write") {
        let items = todo_items(input);
        ToolCall::Todo { items }
    } else if str_eq(name, "use_tool") {
        map_use_tool(input)
    } else {
        unknown(name, input)
    }
}

/// An MCP call when server and tool can be extracted, else an unknown tool.
pub fn map_use_tool(input: &Json) -> (call: ToolCall)
    ensures
        call@ == used_tool(input@),
{
    let server_keys = ["server", "server_name", "mcp_server", "serverName"];
    let tool_keys = ["tool", "tool_name", "name", "toolName"];
    proof {
        assert(keys_view(server_keys@) =~= seq![
            "server"@,
            "server_name"@,
            "mcp_server"@,
            "serverName"@,
        ]);
        assert(keys_view(tool_keys@) =~= seq!["tool"@, "tool_name"@, "name"@, "toolName"@]);
    }
    let server = opt_str_field(input, server_keys.as_slice());
    let tool = opt_str_field(input, tool_keys.as_slice());
    match (server, tool) {
        (Some(server), Some(tool)) => ToolCall::Mcp { server, tool, input: Some(input.clone()) },
        _ => unknown("use_tool", input),
    }
}

/// The entries of a to-do list, from a `todos` or an `items` array.
pub fn todo_items(input: &Json) -> (items: Vec<TodoItem>)
    ensures
        todos_view(items@) == todo_list(input@),
{
    let mut items: Vec<TodoItem> = Vec::new();
    let entries = match input.get_either("todos", "items") {
        Some(value) => value.as_array(),
        None => None,
    };
    let entries = match entries {
        Some(entries) => entries,
        None => {
            assert(todos_view(items@) =~= todo_list(input@));
            return items;
        },
    };
    let text_keys = ["text", "content", "title", "subject"];
    proof {
        lemma_empty_literal();
        assert(keys_view(text_keys@) =~= seq!["text"@, "content"@, "title"@, "subject"@]);
    }
    let mut i: usize = 0;
    while i < entries.len()
        invariant
            i <= entries.len(),
            items@.len() == i,
            ""@ == Seq::<char>::empty(),
            keys_view(text_keys@) == seq!["text"@, "content"@, "title"@, "subject"@],
            forall|j: int| 0 <= j < i ==> (#[trigger] items@[j])@ == todo_item(entries@[j]@),
        decreases entries.len() - i,
    {
        let entry = &entries[i];
        items.push(
            TodoItem { text: str_field(entry, text_keys.as_slice(), ""), done: todo_done(entry) },
        );
        i += 1;
    }
    assert(todos_view(items@) =~= todo_list(input@));
    items
}

/// Whether a to-do entry counts as done.
pub fn todo_done(entry: &Json) -> (done: bool)
    ensures
        done == is_done(entry@),
{
    match bool_in(entry.get_either("done", "completed")) {
        Some(done) => done,
        None => match entry.str_at("status") {
            Some(status) => str_eq(status, "done") || str_eq(status, "completed") || str_eq(
                status,
                "complete",
            ) || str_eq(status, "finished"),
            None => false,
        },
    }
}

// ---------------------------------------------------------------------------
// Session updates
// ---------------------------------------------------------------------------

/// The text of a content block, or of a bare string.
pub open spec fn text_of(content: JsonView) -> Option<Seq<char>> {
    match content {
        JsonView::String(text) => non_empty(Some(text)),
        JsonView::Object(_) => non_empty(content.str_at("text"@)),
        _ => None,
    }
}

/// Extract the text from a content block (`{"type":"text","text":...}`) or a
/// bare string.
pub fn content_text(content: &Json) -> (text: Option<String>)
    ensures
        opt_text(text) == text_of(content@),
{
    match content {
        Json::String(_) => owned(unless_empty(content.as_str())),
        Json::Object(_) => owned(unless_empty(content.str_at("text"))),
        _ => None,
    }
}

/// The update that a `session/update` notification carries: its `update`
/// member, or else the parameters themselves.
pub open spec fn payload(params: JsonView) -> JsonView {
    match params.get("update"@) {
        Some(update) => update,
        None => params,
    }
}

/// `params.update` from a `session/update` notification.
pub fn update_payload(params: &Json) -> (update: &Json)
    ensures
        update@ == payload(params@),
{
    match params.get("update") {
        Some(update) => update,
        None => params,
    }
}

/// The characters of an optional string, none where there is no string.
pub open spec fn or_empty(text: Option<Seq<char>>) -> Seq<char> {
    match text {
        Some(chars) => chars,
        None => Seq::empty(),
    }
}

fn text_or_empty<'a>(text: Option<&'a str>) -> (chars: &'a str)
    ensures
        chars@ == or_empty(opt_chars(text)),
{
    proof {
        lemma_empty_literal();
    }
    match text {
        Some(chars) => chars,
        None => "",
    }
}

/// What kind of update this is.
pub open spec fn update_kind(update: JsonView) -> Seq<char> {
    or_empty(update.str_at("sessionUpdate"@))
}

/// What kind of update this is; empty where it does not say.
pub fn session_update_kind(update: &Json) -> (kind: &str)
    ensures
        kind@ == update_kind(update@),
{
    text_or_empty(update.str_at("sessionUpdate"))
}

/// The id of the tool call that an update speaks of.
pub open spec fn tool_id(update: JsonView) -> Seq<char> {
    or_empty(str_of(update.get_either("toolCallId"@, "tool_call_id"@)))
}

/// The status that an update reports, in lower case.
pub open spec fn tool_status(update: JsonView) -> Seq<char> {
    ascii_lowercase(or_empty(update.str_at("status"@)))
}

/// Whether a tool call with this status ended well.
pub open spec fn succeeded(status: Seq<char>) -> bool {
    ||| status == "completed"@
    ||| status == "success"@
    ||| status == "ok"@
}

/// Whether a tool call with this status ended badly.
pub open spec fn failed(status: Seq<char>) -> bool {
    ||| status == "failed"@
    ||| status == "error"@
    ||| status == "cancelled"@
    ||| status == "canceled"@
}

/// The event that opens a tool call, unless it was opened before.
pub open spec fn opening(update: JsonView, seen: Set<Seq<char>>) -> Seq<AgentEventView> {
    if seen.contains(tool_id(update)) {
        Seq::empty()
    } else {
        seq![AgentEventView::ToolCall { id: tool_id(update), call: tool_call(update) }]
    }
}

/// The event that closes a tool call, where the update reports a terminal status.
pub open spec fn closing(update: JsonView) -> Seq<AgentEventView> {
    if succeeded(tool_status(update)) {
        seq![AgentEventView::ToolResult { id: tool_id(update), is_error: false }]
    } else if failed(tool_status(update)) {
        seq![AgentEventView::ToolResult { id: tool_id(update), is_error: true }]
    } else {
        Seq::empty()
    }
}

/// What an update of a tool call reports; nothing where it names no call.
pub open spec fn tool_events(update: JsonView, seen: Set<Seq<char>>) -> Seq<AgentEventView> {
    if tool_id(update).len() == 0 {
        Seq::empty()
    } else {
        opening(update, seen) + closing(update)
    }
}

/// Whether an update speaks of a tool call.
pub open spec fn is_tool_update(update: JsonView) -> bool {
    update_kind(update) == "tool_call"@ || update_kind(update) == "tool_call_update"@
}

/// The text that an update's content carries.
pub open spec fn update_text(update: JsonView) -> Option<Seq<char>> {
    text_of(or_null(update.get("content"@)))
}

/// What a session update reports.
pub open spec fn session_events(update: JsonView, seen: Set<Seq<char>>) -> Seq<AgentEventView> {
    if update_kind(update) == "agent_message_chunk"@ {
        match update_text(update) {
            Some(text) => seq![AgentEventView::TextDelta { text }],
            None => Seq::empty(),
        }
    } else if update_kind(update) == "agent_thought_chunk"@ {
        match update_text(update) {
            Some(text) => seq![AgentEventView::ReasoningDelta { text }],
            None => Seq::empty(),
        }
    } else if is_tool_update(update) {
        tool_events(update, seen)
    } else {
        Seq::empty()
    }
}

fn chunk_text(update: &Json) -> (text: Option<String>)
    ensures
        opt_text(text) == update_text(update@),
{
    match update.get("content") {
        Some(content) => content_text(content),
        None => None,
    }
}

/// Map one session update into zero or more events.
///
/// `seen_tools` holds the ids of the tool calls that were opened already; the
/// caller adds the id of each tool call that comes out.
pub fn map_session_update(update: &Json, seen_tools: &SeenTools) -> (events: Vec<AgentEvent>)
    ensures
        events_view(events@) == session_events(update@, seen_tools@),
{
    let kind = session_update_kind(update);
    let mut events: Vec<AgentEvent> = Vec::new();
    if str_eq(kind, "agent_message_chunk") {
        match chunk_text(update) {
            Some(text) => {
                events.push(AgentEvent::TextDelta { text });
            },
            None => {},
        }
    } else if str_eq(kind, "agent_thought_chunk") {
        match chunk_text(update) {
            Some(text) => {
                events.push(AgentEvent::ReasoningDelta { text });
            },
            None => {},
        }
    } else if str_eq(kind, "tool_call") || str_eq(kind, "tool_call_update") {
        return map_tool_update(update, seen_tools);
    }
    assert(events_view(events@) =~= session_events(update@, seen_tools@));
    events
}

/// Map one update of a tool call.
pub fn map_tool_update(update: &Json, seen_tools: &SeenTools) -> (events: Vec<AgentEvent>)
    ensures
        events_view(events@) == tool_events(update@, seen_tools@),
{
    let id = text_or_empty(str_in(update.get_either("toolCallId", "tool_call_id")));
    let mut events: Vec<AgentEvent> = Vec::new();
    if id.is_empty() {
        assert(events_view(events@) =~= Seq::empty());
        return events;
    }
    let status = text_or_empty(update.str_at("status")).to_ascii_lowercase();
    let status = status.as_str();
    // Open the lifecycle once: on the initial call, or on the first update that
    // arrives before it.
    if !seen_tools.contains(id) {
        events.push(AgentEvent::ToolCall { id: id.to_owned(), call: map_tool_call(update) });
    }
    assert(events_view(events@) =~= opening(update@, seen_tools@));
    let ghost opened = events@;
    if str_eq(status, "completed") || str_eq(status, "success") || str_eq(status, "ok") {
        events.push(AgentEvent::ToolResult { id: id.to_owned(), is_error: false });
    } else if str_eq(status, "failed") || str_eq(status, "error") || str_eq(status, "cancelled")
        || str_eq(status, "canceled") {
        events.push(AgentEvent::ToolResult { id: id.to_owned(), is_error: true });
    }
    assert(events_view(events@) =~= events_view(opened) + closing(update@));
    events
}

// ---------------------------------------------------------------------------
// Prompt results
// ---------------------------------------------------------------------------

/// Where a prompt result keeps its token counts: `_meta.usage`, or else `_meta`.
pub open spec fn usage_object(result: JsonView) -> Option<JsonView> {
    match member_of(result.get("_meta"@), "usage"@) {
        Some(usage) => if usage.is_object() {
            Some(usage)
        } else {
            result.get("_meta"@)
        },
        None => result.get("_meta"@),
    }
}

/// A token count: under either name in `usage`, or else under the first name
/// directly in `_meta`.
pub open spec fn token_count(
    result: JsonView,
    usage: JsonView,
    name: Seq<char>,
    other: Seq<char>,
) -> Option<u64> {
    match u64_of(usage.get_either(name, other)) {
        Some(count) => Some(count),
        None => u64_of(member_of(result.get("_meta"@), name)),
    }
}

/// The usage event of a prompt result; none where no input count is given.
pub open spec fn usage_event(result: JsonView) -> Option<AgentEventView> {
    match usage_object(result) {
        Some(usage) => match token_count(result, usage, "inputTokens"@, "input_tokens"@) {
            Some(input_tokens) => Some(
                AgentEventView::Usage {
                    input_tokens,
                    output_tokens: match token_count(
                        result,
                        usage,
                        "outputTokens"@,
                        "output_tokens"@,
                    ) {
                        Some(count) => count,
                        None => 0,
                    },
                },
            ),
            None => None,
        },
        None => None,
    }
}

/// The value of an optional event.
pub open spec fn opt_event(event: Option<AgentEvent>) -> Option<AgentEventView> {
    match event {
        Some(value) => Some(value@),
        None => None,
    }
}

fn count_tokens(result: &Json, usage: &Json, name: &str, other: &str) -> (count: Option<u64>)
    ensures
        count == token_count(result@, usage@, name@, other@),
{
    match u64_in(usage.get_either(name, other)) {
        Some(count) => Some(count),
        None => u64_in(member_in(result.get("_meta"), name)),
    }
}

/// Usage from a prompt result's `_meta.usage` (or the token counts of `_meta` as
/// a fallback).
pub fn usage_from_prompt_result(result: &Json) -> (event: Option<AgentEvent>)
    ensures
        opt_event(event) == usage_event(result@),
{
    let meta = result.get("_meta");
    let usage = match member_in(meta, "usage") {
        Some(usage) => if usage.is_object() {
            Some(usage)
        } else {
            meta
        },
        None => meta,
    };
    let usage = match usage {
        Some(usage) => usage,
        None => {
            return None;
        },
    };
    let input_tokens = match count_tokens(result, usage, "inputTokens", "input_tokens") {
        Some(count) => count,
        None => {
            return None;
        },
    };
    let output_tokens = match count_tokens(result, usage, "outputTokens", "output_tokens") {
        Some(count) => count,
        None => 0,
    };
    Some(AgentEvent::Usage { input_tokens, output_tokens })
}

/// Why the agent says that it stopped.
pub open spec fn stop_reason(result: JsonView) -> Seq<char> {
    match str_of(result.get_either("stopReason"@, "stop_reason"@)) {
        Some(reason) => reason,
        None => "end_turn"@,
    }
}

/// The error that a stop reason amounts to. Reasons that are not known are no
/// errors: the turn still ended.
pub open spec fn stop_error(result: JsonView) -> Option<Seq<char>> {
    let reason = stop_reason(result);
    if reason == "max_tokens"@ || reason == "max-tokens"@ {
        Some("Grok stopped: max tokens"@)
    } else if reason == "refusal"@ {
        Some("Grok refused the request"@)
    } else {
        None
    }
}

/// Whether a prompt's stop reason should surface as an error.
pub fn stop_reason_error(result: &Json) -> (error: Option<String>)
    ensures
        opt_text(error) == stop_error(result@),
{
    let reason = match str_in(result.get_either("stopReason", "stop_reason")) {
        Some(reason) => reason,
        None => "end_turn",
    };
    if str_eq(reason, "max_tokens") || str_eq(reason, "max-tokens") {
        Some("Grok stopped: max tokens".to_owned())
    } else if str_eq(reason, "refusal") {
        Some("Grok refused the request".to_owned())
    } else {
        None
    }
}

// ---------------------------------------------------------------------------
// Laws
// ---------------------------------------------------------------------------

/// A tool call comes first among the events of an update, under the update's id,
/// and only if that call was not reported before.
pub proof fn law_tool_call_opens_unseen_only(update: JsonView, seen: Set<Seq<char>>, i: int)
    requires
        0 <= i < session_events(update, seen).len(),
        session_events(update, seen)[i] is ToolCall,
    ensures
        i == 0,
        session_events(update, seen)[i] == (AgentEventView::ToolCall {
            id: tool_id(update),
            call: tool_call(update),
        }),
        !seen.contains(tool_id(update)),
{
}

/// An update that only enriches a tool call which was reported before, without
/// ending it, reports nothing.
pub proof fn law_enrichment_is_silent(update: JsonView, seen: Set<Seq<char>>)
    requires
        is_tool_update(update),
        seen.contains(tool_id(update)),
        !succeeded(tool_status(update)),
        !failed(tool_status(update)),
    ensures
        session_events(update, seen).len() == 0,
{
    lemma_tool_updates_are_no_chunks(update);
}

/// The result of a tool call is reported exactly on a terminal status.
pub proof fn law_result_on_terminal_status(update: JsonView, seen: Set<Seq<char>>)
    requires
        is_tool_update(update),
        tool_id(update).len() > 0,
    ensures
        (exists|i: int|
            0 <= i < session_events(update, seen).len() && (#[trigger] session_events(
                update,
                seen,
            )[i] is ToolResult)) <==> succeeded(tool_status(update)) || failed(
            tool_status(update),
        ),
{
    lemma_tool_updates_are_no_chunks(update);
    let events = session_events(update, seen);
    if succeeded(tool_status(update)) || failed(tool_status(update)) {
        assert(events[events.len() - 1] is ToolResult);
    }
}

/// No event of an update carries an empty text or an empty id.
pub proof fn law_events_are_not_empty(update: JsonView, seen: Set<Seq<char>>, i: int)
    requires
        0 <= i < session_events(update, seen).len(),
    ensures
        match session_events(update, seen)[i] {
            AgentEventView::TextDelta { text } => text.len() > 0,
            AgentEventView::ReasoningDelta { text } => text.len() > 0,
            AgentEventView::ToolCall { id, .. } => id.len() > 0,
            AgentEventView::ToolResult { id, .. } => id.len() > 0,
            _ => false,
        },
{
}

/// Updates of any other kind report nothing.
pub proof fn law_other_updates_are_ignored(update: JsonView, seen: Set<Seq<char>>)
    requires
        update_kind(update) != "agent_message_chunk"@,
        update_kind(update) != "agent_thought_chunk"@,
        !is_tool_update(update),
    ensures
        session_events(update, seen).len() == 0,
{
}

/// The status of a tool call is read in any case: two updates that differ in the
/// ASCII case of their status alone report the same end.
pub proof fn law_status_ignores_case(update: JsonView, other: JsonView)
    requires
        tool_id(update) == tool_id(other),
        ascii_lowercase(or_empty(update.str_at("status"@))) == ascii_lowercase(
            or_empty(other.str_at("status"@)),
        ),
    ensures
        closing(update) == closing(other),
{
}

/// The agent's own description of a tool counts before the update's title and kind,
/// and its input before the raw one.
pub proof fn law_own_description_counts_first(
    update: JsonView,
    tool: JsonView,
    name: Seq<char>,
    input: JsonView,
)
    requires
        meta_tool(update) == Some(tool),
        tool.str_at("name"@) == Some(name),
        tool.get("input"@) == Some(input),
        !input.is_null(),
    ensures
        tool_call(update) == named_tool(name, input),
{
}

proof fn lemma_tool_updates_are_no_chunks(update: JsonView)
    requires
        is_tool_update(update),
    ensures
        update_kind(update) != "agent_message_chunk"@,
        update_kind(update) != "agent_thought_chunk"@,
{
    reveal_strlit("tool_call");
    reveal_strlit("tool_call_update");
    reveal_strlit("agent_message_chunk");
    reveal_strlit("agent_thought_chunk");
    assert("tool_call"@.len() == 9);
    assert("tool_call_update"@.len() == 16);
    assert("agent_message_chunk"@.len() == 19);
}

proof fn lemma_empty_literal()
    ensures
        ""@ == Seq::<char>::empty(),
{
    reveal_strlit("");
    assert(""@ =~= Seq::empty());
}

} // verus!
