//! What tool calls, updates and prompt results mean, said of the members that they
//! hold.

use vstd::prelude::*;
use crate::json::{JsonNumber, JsonView};
use crate::normalize::{
    field, field_or, first_string, is_done, named_tool, or_null, payload, session_events,
    stop_error, text_of, tool_call, tool_input, tool_name, update_kind, usage_event,
};
use crate::proto::{AgentEventView, ToolCallView};
use crate::text::ascii_lowercase;
use crate::value_laws::{first_text, holds, holds_text, lacks, lacks_text, no_text};

verus! {

// ---------------------------------------------------------------------------
// Fields
// ---------------------------------------------------------------------------

/// Whether `value` is what `v` holds under some names: the string under the first of
/// them that holds one, unless it is empty; nothing where none holds one.
pub open spec fn under(v: JsonView, names: Seq<Seq<char>>, value: Option<Seq<char>>) -> bool {
    match value {
        Some(text) => text.len() > 0 && first_text(v, names, text),
        None => no_text(v, names) || first_text(v, names, Seq::empty()),
    }
}

/// Like [`under`], with `default` where nothing is held.
pub open spec fn under_or(
    v: JsonView,
    names: Seq<Seq<char>>,
    default: Seq<char>,
    value: Seq<char>,
) -> bool {
    under(v, names, Some(value)) || (under(v, names, None) && value == default)
}

proof fn lemma_first_string(v: JsonView, names: Seq<Seq<char>>, text: Seq<char>)
    ensures
        first_text(v, names, text) ==> first_string(v, names) == Some(text),
        no_text(v, names) ==> first_string(v, names) is None,
    decreases names.len(),
{
    if names.len() > 0 {
        let rest = names.drop_first();
        lemma_first_string(v, rest, text);
        if first_text(v, names, text) {
            let j = choose|j: int|
                {
                    &&& 0 <= j < names.len()
                    &&& holds_text(v, #[trigger] names[j], text)
                    &&& forall|k: int| 0 <= k < j ==> lacks_text(v, #[trigger] names[k])
                };
            if j > 0 {
                assert(lacks_text(v, names[0]));
                assert(rest[j - 1] == names[j]);
                assert forall|k: int| 0 <= k < j - 1 implies lacks_text(v, #[trigger] rest[k]) by {
                    assert(rest[k] == names[k + 1]);
                }
                assert(first_text(v, rest, text));
            }
        }
        if no_text(v, names) {
            assert(lacks_text(v, names[0]));
            assert forall|k: int| 0 <= k < rest.len() implies lacks_text(v, #[trigger] rest[k]) by {
                assert(rest[k] == names[k + 1]);
            }
        }
    }
}

proof fn lemma_field(v: JsonView, names: Seq<Seq<char>>)
    ensures
        forall|value: Option<Seq<char>>| #[trigger]
            under(v, names, value) ==> field(v, names) == value,
{
    assert forall|value: Option<Seq<char>>| #[trigger] under(v, names, value) implies field(
        v,
        names,
    ) == value by {
        match value {
            Some(text) => {
                lemma_first_string(v, names, text);
            },
            None => {
                lemma_first_string(v, names, Seq::empty());
            },
        }
    }
}

/// Whatever a value holds, there is a field to be read under any names, and only one.
pub proof fn law_field_is_under_its_names(v: JsonView, names: Seq<Seq<char>>)
    ensures
        under(v, names, field(v, names)),
        forall|value: Option<Seq<char>>| #[trigger]
            under(v, names, value) ==> value == field(v, names),
{
    lemma_field(v, names);
    lemma_some_field(v, names);
    if first_string(v, names) is Some && first_string(v, names)->0.len() == 0 {
        assert(first_string(v, names)->0 =~= Seq::empty());
    }
}

proof fn lemma_some_field(v: JsonView, names: Seq<Seq<char>>)
    ensures
        match first_string(v, names) {
            Some(text) => first_text(v, names, text),
            None => no_text(v, names),
        },
    decreases names.len(),
{
    if names.len() > 0 {
        let rest = names.drop_first();
        lemma_some_field(v, rest);
        if v.str_at(names[0]) is Some {
            assert(holds_text(v, names[0], first_string(v, names)->0));
        } else {
            assert(lacks_text(v, names[0]));
            match first_string(v, rest) {
                Some(text) => {
                    let j = choose|j: int|
                        {
                            &&& 0 <= j < rest.len()
                            &&& holds_text(v, #[trigger] rest[j], text)
                            &&& forall|k: int| 0 <= k < j ==> lacks_text(v, #[trigger] rest[k])
                        };
                    assert(names[j + 1] == rest[j]);
                    assert forall|k: int| 0 <= k < j + 1 implies lacks_text(
                        v,
                        #[trigger] names[k],
                    ) by {
                        if k > 0 {
                            assert(rest[k - 1] == names[k]);
                        }
                    }
                },
                None => {
                    assert forall|k: int| 0 <= k < names.len() implies lacks_text(
                        v,
                        #[trigger] names[k],
                    ) by {
                        if k > 0 {
                            assert(rest[k - 1] == names[k]);
                        }
                    }
                },
            }
        }
    }
}

/// A field with a default is the field, or the default where there is none.
pub proof fn law_default_stands_in(
    v: JsonView,
    names: Seq<Seq<char>>,
    default: Seq<char>,
    value: Seq<char>,
)
    ensures
        under_or(v, names, default, value) ==> field_or(v, names, default) == value,
{
    lemma_field(v, names);
}

// ---------------------------------------------------------------------------
// Tools
// ---------------------------------------------------------------------------

proof fn lemma_tool_names()
    ensures
        "run_terminal_command"@.len() == 20,
        "read_file"@.len() == 9,
        "search_replace"@.len() == 14,
        "grep"@.len() == 4,
        "list_dir"@.len() == 8,
        "web_search"@.len() == 10,
        "web_fetch"@.len() == 9,
        "todo_write"@.len() == 10,
        "use_tool"@.len() == 8,
        "read_file"@ != "web_fetch"@,
        "list_dir"@ != "use_tool"@,
        "web_search"@ != "todo_write"@,
{
    reveal_strlit("run_terminal_command");
    reveal_strlit("read_file");
    reveal_strlit("search_replace");
    reveal_strlit("grep");
    reveal_strlit("list_dir");
    reveal_strlit("web_search");
    reveal_strlit("web_fetch");
    reveal_strlit("todo_write");
    reveal_strlit("use_tool");
    assert("read_file"@[0] != "web_fetch"@[0]);
    assert("list_dir"@[0] != "use_tool"@[0]);
    assert("web_search"@[0] != "todo_write"@[0]);
}

/// A terminal command shows what is held under `command`, `cmd` or `shell_command`, or
/// else the input itself, where that is a string.
pub proof fn law_terminal_command_shows_its_command(input: JsonView, command: Seq<char>)
    requires
        under(input, seq!["command"@, "cmd"@, "shell_command"@], Some(command)) || under(
            input,
            seq!["command"@, "cmd"@, "shell_command"@],
            None,
        ) && (input == JsonView::String(command) || !(input is String) && command.len() == 0),
    ensures
        named_tool("run_terminal_command"@, input) == (ToolCallView::Exec { command }),
{
    lemma_field(input, seq!["command"@, "cmd"@, "shell_command"@]);
    assert(command.len() == 0 ==> command =~= Seq::empty());
}

/// A read shows its path, or an empty one.
pub proof fn law_read_shows_its_path(input: JsonView, path: Seq<char>)
    requires
        under_or(
            input,
            seq!["path"@, "target_file"@, "file"@, "filename"@],
            Seq::empty(),
            path,
        ),
    ensures
        named_tool("read_file"@, input) == (ToolCallView::ReadFile { path }),
{
    lemma_tool_names();
    lemma_field(input, seq!["path"@, "target_file"@, "file"@, "filename"@]);
}

/// An edit shows its path, and the strings before and after where they are given.
pub proof fn law_edit_shows_path_and_strings(
    input: JsonView,
    path: Seq<char>,
    old_string: Option<Seq<char>>,
    new_string: Option<Seq<char>>,
)
    requires
        under_or(
            input,
            seq!["path"@, "file_path"@, "file"@, "target_file"@],
            Seq::empty(),
            path,
        ),
        under(input, seq!["old_string"@, "oldString"@, "old"@], old_string),
        under(input, seq!["new_string"@, "newString"@, "new"@], new_string),
    ensures
        named_tool("search_replace"@, input) == (ToolCallView::EditFile {
            path,
            old_string,
            new_string,
        }),
{
    lemma_tool_names();
    lemma_field(input, seq!["path"@, "file_path"@, "file"@, "target_file"@]);
    lemma_field(input, seq!["old_string"@, "oldString"@, "old"@]);
    lemma_field(input, seq!["new_string"@, "newString"@, "new"@]);
}

/// A search shows its pattern, and where it looks, where that is given.
pub proof fn law_search_shows_pattern_and_path(
    input: JsonView,
    pattern: Seq<char>,
    path: Option<Seq<char>>,
)
    requires
        under_or(input, seq!["pattern"@, "query"@, "regex"@], Seq::empty(), pattern),
        under(input, seq!["path"@, "directory"@, "target_directory"@], path),
    ensures
        named_tool("grep"@, input) == (ToolCallView::Search { pattern, path }),
{
    lemma_tool_names();
    lemma_field(input, seq!["pattern"@, "query"@, "regex"@]);
    lemma_field(input, seq!["path"@, "directory"@, "target_directory"@]);
}

/// A directory listing shows as a glob of the directory.
pub proof fn law_listing_shows_its_directory(input: JsonView, pattern: Seq<char>)
    requires
        under_or(
            input,
            seq!["directory"@, "target_directory"@, "path"@, "pattern"@],
            Seq::empty(),
            pattern,
        ),
    ensures
        named_tool("list_dir"@, input) == (ToolCallView::Glob { pattern }),
{
    lemma_tool_names();
    lemma_field(input, seq!["directory"@, "target_directory"@, "path"@, "pattern"@]);
}

/// A web search shows its query.
pub proof fn law_web_search_shows_its_query(input: JsonView, query: Seq<char>)
    requires
        under_or(input, seq!["query"@, "q"@, "search"@], Seq::empty(), query),
    ensures
        named_tool("web_search"@, input) == (ToolCallView::WebSearch { query }),
{
    lemma_tool_names();
    lemma_field(input, seq!["query"@, "q"@, "search"@]);
}

/// A web fetch shows its address, and its prompt where that is given.
pub proof fn law_web_fetch_shows_address_and_prompt(
    input: JsonView,
    url: Seq<char>,
    prompt: Option<Seq<char>>,
)
    requires
        under_or(input, seq!["url"@, "uri"@, "href"@], Seq::empty(), url),
        under(input, seq!["prompt"@, "instructions"@, "query"@], prompt),
    ensures
        named_tool("web_fetch"@, input) == (ToolCallView::WebFetch { url, prompt }),
{
    lemma_tool_names();
    lemma_field(input, seq!["url"@, "uri"@, "href"@]);
    lemma_field(input, seq!["prompt"@, "instructions"@, "query"@]);
}

/// Whether a to-do entry counts as done, by what it holds: a truth value under `done`
/// decides, or, where there is no `done` at all, one under `completed`; else the status
/// does.
pub open spec fn counts_as_done(entry: JsonView, done: bool) -> bool {
    ||| holds(entry, "done"@, JsonView::Bool(done))
    ||| lacks(entry, "done"@) && holds(entry, "completed"@, JsonView::Bool(done))
    ||| {
        &&& !holds(entry, "done"@, JsonView::Bool(true))
        &&& !holds(entry, "done"@, JsonView::Bool(false))
        &&& lacks(entry, "done"@) ==> !holds(entry, "completed"@, JsonView::Bool(true)) && !holds(
            entry,
            "completed"@,
            JsonView::Bool(false),
        )
        &&& done == (holds_text(entry, "status"@, "done"@) || holds_text(
            entry,
            "status"@,
            "completed"@,
        ) || holds_text(entry, "status"@, "complete"@) || holds_text(
            entry,
            "status"@,
            "finished"@,
        ))
    }
}

/// An entry is done exactly where it counts as done.
pub proof fn law_entry_is_done_as_it_counts(entry: JsonView, done: bool)
    requires
        counts_as_done(entry, done),
    ensures
        is_done(entry) == done,
{
}

/// Every entry counts as done, or as not done.
pub proof fn law_entry_counts_either_way(entry: JsonView)
    ensures
        counts_as_done(entry, is_done(entry)),
        !counts_as_done(entry, !is_done(entry)),
{
}

/// A to-do list shows each entry of the array under `todos`, or, where there is no
/// `todos` at all, under `items`: in its place, with its text, and whether it is done.
pub proof fn law_todo_list_shows_every_entry(input: JsonView, entries: Seq<JsonView>, i: int)
    requires
        holds(input, "todos"@, JsonView::Array(entries)) || lacks(input, "todos"@) && holds(
            input,
            "items"@,
            JsonView::Array(entries),
        ),
        0 <= i < entries.len(),
    ensures
        named_tool("todo_write"@, input) matches ToolCallView::Todo { items } && {
            &&& items.len() == entries.len()
            &&& under_or(
                entries[i],
                seq!["text"@, "content"@, "title"@, "subject"@],
                Seq::empty(),
                items[i].text,
            )
            &&& counts_as_done(entries[i], items[i].done)
        },
{
    lemma_tool_names();
    let names = seq!["text"@, "content"@, "title"@, "subject"@];
    law_field_is_under_its_names(entries[i], names);
    law_entry_counts_either_way(entries[i]);
}

/// A to-do list without an array is empty, and one with an empty array too.
pub proof fn law_todo_list_without_entries_is_empty(input: JsonView)
    requires
        forall|entries: Seq<JsonView>|
            entries.len() > 0 ==> !#[trigger] holds(input, "todos"@, JsonView::Array(entries)),
        lacks(input, "todos"@) ==> forall|entries: Seq<JsonView>|
            entries.len() > 0 ==> !#[trigger] holds(input, "items"@, JsonView::Array(entries)),
    ensures
        named_tool("todo_write"@, input) matches ToolCallView::Todo { items } && items.len() == 0,
{
    lemma_tool_names();
    if input is Object && input->Object_0.contains_key("todos"@) {
        let list = input->Object_0["todos"@];
        if list is Array {
            assert(holds(input, "todos"@, JsonView::Array(list->Array_0)));
        }
    } else if input is Object && input->Object_0.contains_key("items"@) {
        let list = input->Object_0["items"@];
        if list is Array {
            assert(holds(input, "items"@, JsonView::Array(list->Array_0)));
        }
    }
}

/// A tool of a server shows both, with its whole input; where one of the two is not
/// named, the tool is unknown.
pub proof fn law_used_tool_shows_server_and_tool(
    input: JsonView,
    server: Option<Seq<char>>,
    tool: Option<Seq<char>>,
)
    requires
        under(input, seq!["server"@, "server_name"@, "mcp_server"@, "serverName"@], server),
        under(input, seq!["tool"@, "tool_name"@, "name"@, "toolName"@], tool),
    ensures
        server is Some && tool is Some ==> named_tool("use_tool"@, input) == (ToolCallView::Mcp {
            server: server->0,
            tool: tool->0,
            input: Some(input),
        }),
        server is None || tool is None ==> named_tool("use_tool"@, input) == (
        ToolCallView::Unknown {
            name: "use_tool"@,
            input: if input is Null {
                None
            } else {
                Some(input)
            },
        }),
{
    lemma_tool_names();
    lemma_field(input, seq!["server"@, "server_name"@, "mcp_server"@, "serverName"@]);
    lemma_field(input, seq!["tool"@, "tool_name"@, "name"@, "toolName"@]);
}

/// A tool of any other name is unknown, and shows its name and its input.
pub proof fn law_other_tools_are_unknown(name: Seq<char>, input: JsonView)
    requires
        name != "run_terminal_command"@,
        name != "read_file"@,
        name != "search_replace"@,
        name != "grep"@,
        name != "list_dir"@,
        name != "web_search"@,
        name != "web_fetch"@,
        name != "todo_write"@,
        name != "use_tool"@,
    ensures
        named_tool(name, input) == (ToolCallView::Unknown {
            name,
            input: if input is Null {
                None
            } else {
                Some(input)
            },
        }),
{
}

/// The agent's own description of a tool, where the update has one.
pub open spec fn describes(update: JsonView, tool: JsonView) -> bool {
    exists|meta: JsonView| #[trigger]
        holds(update, "_meta"@, meta) && holds(meta, "x.ai/tool"@, tool) && tool is Object
}

/// Whether the update has no description of a tool.
pub open spec fn describes_nothing(update: JsonView) -> bool {
    forall|tool: JsonView| !describes(update, tool)
}

/// Whether an update names its tool so: by its description, else by its title, else by
/// its kind, else `unknown`.
pub open spec fn names_tool(update: JsonView, name: Seq<char>) -> bool {
    ||| exists|tool: JsonView| #[trigger]
        describes(update, tool) && holds_text(tool, "name"@, name)
    ||| {
        &&& forall|tool: JsonView| #[trigger] describes(update, tool) ==> lacks_text(tool, "name"@)
        &&& {
            ||| holds_text(update, "title"@, name)
            ||| lacks_text(update, "title"@) && holds_text(update, "kind"@, name)
            ||| lacks_text(update, "title"@) && lacks_text(update, "kind"@) && name == "unknown"@
        }
    }
}

/// Whether `input` is what the tool of an update is called with: the input of its
/// description, else `rawInput`, else, where there is no `rawInput` at all, `raw_input`;
/// null does not count, and stands for none.
pub open spec fn gives_input(update: JsonView, input: JsonView) -> bool {
    ||| !(input is Null) && exists|tool: JsonView| #[trigger]
        describes(update, tool) && holds(tool, "input"@, input)
    ||| {
        &&& forall|tool: JsonView| #[trigger]
            describes(update, tool) ==> lacks(tool, "input"@) || holds(
                tool,
                "input"@,
                JsonView::Null,
            )
        &&& {
            ||| holds(update, "rawInput"@, input)
            ||| lacks(update, "rawInput"@) && holds(update, "raw_input"@, input)
            ||| lacks(update, "rawInput"@) && lacks(update, "raw_input"@) && input is Null
        }
    }
}

/// A tool call is that of the tool which the update names, with the input that the
/// update gives.
pub proof fn law_update_calls_the_tool_it_names(
    update: JsonView,
    name: Seq<char>,
    input: JsonView,
)
    requires
        names_tool(update, name),
        gives_input(update, input),
    ensures
        tool_call(update) == named_tool(name, input),
{
    if update is Object && update->Object_0.contains_key("_meta"@) {
        let meta = update->Object_0["_meta"@];
        assert(holds(update, "_meta"@, meta));
        if meta is Object && meta->Object_0.contains_key("x.ai/tool"@) {
            let tool = meta->Object_0["x.ai/tool"@];
            if tool is Object {
                assert(describes(update, tool));
            }
        }
    }
}

/// Every update names one tool, and gives one input for it.
pub proof fn law_every_update_names_a_tool(update: JsonView)
    ensures
        names_tool(update, tool_name(update)),
        forall|name: Seq<char>| #[trigger] names_tool(update, name) ==> name == tool_name(update),
        gives_input(update, or_null(tool_input(update))),
        forall|input: JsonView| #[trigger]
            gives_input(update, input) ==> input == or_null(tool_input(update)),
        tool_input(update) matches Some(input) ==> !(input is Null),
{
    if update is Object && update->Object_0.contains_key("_meta"@) {
        let meta = update->Object_0["_meta"@];
        assert(holds(update, "_meta"@, meta));
        if meta is Object && meta->Object_0.contains_key("x.ai/tool"@) {
            let tool = meta->Object_0["x.ai/tool"@];
            if tool is Object {
                assert(describes(update, tool));
            }
        }
    }
}

// ---------------------------------------------------------------------------
// Updates
// ---------------------------------------------------------------------------

/// Whether the content of an update carries this text: as a bare string, or as the
/// text of a block.
pub open spec fn carries(update: JsonView, text: Seq<char>) -> bool {
    ||| holds_text(update, "content"@, text)
    ||| exists|block: JsonView| #[trigger]
        holds(update, "content"@, block) && holds_text(block, "text"@, text)
}

proof fn lemma_kinds()
    ensures
        "agent_message_chunk"@ != "agent_thought_chunk"@,
        "agent_message_chunk"@.len() == 19,
        "agent_thought_chunk"@.len() == 19,
        "tool_call"@.len() == 9,
        "tool_call_update"@.len() == 16,
{
    reveal_strlit("agent_message_chunk");
    reveal_strlit("agent_thought_chunk");
    reveal_strlit("tool_call");
    reveal_strlit("tool_call_update");
    assert("agent_message_chunk"@[6] != "agent_thought_chunk"@[6]);
}

/// A message chunk with a text reports exactly that text, and a thought chunk exactly
/// that thought, whatever tool calls were seen.
pub proof fn law_chunk_reports_its_text(update: JsonView, text: Seq<char>, seen: Set<Seq<char>>)
    requires
        carries(update, text),
        text.len() > 0,
    ensures
        holds_text(update, "sessionUpdate"@, "agent_message_chunk"@) ==> session_events(
            update,
            seen,
        ) == seq![AgentEventView::TextDelta { text }],
        holds_text(update, "sessionUpdate"@, "agent_thought_chunk"@) ==> session_events(
            update,
            seen,
        ) == seq![AgentEventView::ReasoningDelta { text }],
{
    lemma_kinds();
    let members = update->Object_0;
    assert(members.contains_key("content"@));
    if !holds_text(update, "content"@, text) {
        let block = choose|block: JsonView| #[trigger]
            holds(update, "content"@, block) && holds_text(block, "text"@, text);
        assert(members["content"@] == block);
    }
}

/// A chunk without a text reports nothing.
pub proof fn law_chunk_without_text_is_silent(update: JsonView, seen: Set<Seq<char>>)
    requires
        holds_text(update, "sessionUpdate"@, "agent_message_chunk"@) || holds_text(
            update,
            "sessionUpdate"@,
            "agent_thought_chunk"@,
        ),
        forall|text: Seq<char>| #[trigger] carries(update, text) ==> text.len() == 0,
    ensures
        session_events(update, seen).len() == 0,
{
    lemma_kinds();
    let members = update->Object_0;
    if members.contains_key("content"@) {
        let content = members["content"@];
        match content {
            JsonView::String(text) => {
                assert(carries(update, text));
            },
            JsonView::Object(block) => {
                if block.contains_key("text"@) && block["text"@] is String {
                    assert(holds(update, "content"@, content));
                    assert(carries(update, block["text"@]->String_0));
                }
            },
            _ => {},
        }
    }
}

/// Whether an update speaks of the tool call with this id.
pub open spec fn speaks_of(update: JsonView, id: Seq<char>) -> bool {
    &&& holds_text(update, "sessionUpdate"@, "tool_call"@) || holds_text(
        update,
        "sessionUpdate"@,
        "tool_call_update"@,
    )
    &&& holds_text(update, "toolCallId"@, id) || lacks(update, "toolCallId"@) && holds_text(
        update,
        "tool_call_id"@,
        id,
    )
    &&& id.len() > 0
}

/// Whether an update reports this status, read without regard to case.
pub open spec fn reports_status(update: JsonView, status: Seq<char>) -> bool {
    exists|written: Seq<char>| #[trigger]
        holds_text(update, "status"@, written) && ascii_lowercase(written) == status
}

proof fn lemma_statuses()
    ensures
        "completed"@.len() == 9,
        "success"@.len() == 7,
        "ok"@.len() == 2,
        "failed"@.len() == 6,
        "error"@.len() == 5,
        "cancelled"@.len() == 9,
        "canceled"@.len() == 8,
        "completed"@ != "cancelled"@,
{
    reveal_strlit("completed");
    reveal_strlit("success");
    reveal_strlit("ok");
    reveal_strlit("failed");
    reveal_strlit("error");
    reveal_strlit("cancelled");
    reveal_strlit("canceled");
    assert("completed"@[1] != "cancelled"@[1]);
}

/// What an update of a tool call reports. The call comes first, if it was not seen
/// before, with what the update makes of it. Then comes its result: a good one on
/// `completed`, `success` or `ok`, a bad one on `failed`, `error`, `cancelled` or
/// `canceled`, and none on anything else.
pub proof fn law_tool_update_opens_and_ends_its_call(
    update: JsonView,
    id: Seq<char>,
    seen: Set<Seq<char>>,
)
    requires
        speaks_of(update, id),
    ensures
        ({
            let events = session_events(update, seen);
            let opened = if seen.contains(id) { 0int } else { 1int };
            let good = reports_status(update, "completed"@) || reports_status(
                update,
                "success"@,
            ) || reports_status(update, "ok"@);
            let bad = reports_status(update, "failed"@) || reports_status(update, "error"@)
                || reports_status(update, "cancelled"@) || reports_status(update, "canceled"@);
            &&& events.len() == opened + if good || bad { 1int } else { 0int }
            &&& opened == 1 ==> events[0] == (AgentEventView::ToolCall {
                id,
                call: tool_call(update),
            })
            &&& good || bad ==> events[opened] == (AgentEventView::ToolResult {
                id,
                is_error: bad,
            })
        }),
{
    lemma_kinds();
    lemma_statuses();
    let members = update->Object_0;
    if members.contains_key("status"@) && members["status"@] is String {
        let written = members["status"@]->String_0;
        assert(holds_text(update, "status"@, written));
    } else {
        assert(ascii_lowercase(Seq::empty()) =~= Seq::empty());
        assert(forall|written: Seq<char>| !holds_text(update, "status"@, written));
    }
}

/// An update that names no call, or is of no kind that is known, reports nothing.
pub proof fn law_nameless_updates_are_silent(update: JsonView, seen: Set<Seq<char>>)
    requires
        !holds_text(update, "sessionUpdate"@, "agent_message_chunk"@),
        !holds_text(update, "sessionUpdate"@, "agent_thought_chunk"@),
        forall|id: Seq<char>| !speaks_of(update, id),
    ensures
        session_events(update, seen).len() == 0,
{
    lemma_kinds();
    reveal_strlit("");
    if update is Object {
        let members = update->Object_0;
        if members.contains_key("toolCallId"@) {
            let held = members["toolCallId"@];
            if held is String {
                assert(!speaks_of(update, held->String_0));
            }
        } else if members.contains_key("tool_call_id"@) {
            let held = members["tool_call_id"@];
            if held is String {
                assert(!speaks_of(update, held->String_0));
            }
        }
    }
}

/// What a notification carries: its `update`, or the parameters themselves where there
/// is none.
pub proof fn law_notification_carries_its_update(params: JsonView, update: JsonView)
    ensures
        holds(params, "update"@, update) ==> payload(params) == update,
        lacks(params, "update"@) ==> payload(params) == params,
{
}

/// The kind of an update is the string that it holds; there is none where it holds
/// none.
pub proof fn law_update_says_its_kind(update: JsonView, kind: Seq<char>)
    ensures
        holds_text(update, "sessionUpdate"@, kind) ==> update_kind(update) == kind,
        lacks_text(update, "sessionUpdate"@) ==> update_kind(update).len() == 0,
{
}

/// A content block or a bare string has the text that it holds, unless it is empty.
pub proof fn law_content_has_the_text_it_holds(content: JsonView, text: Seq<char>)
    ensures
        text_of(content) == Some(text) <==> text.len() > 0 && (content == JsonView::String(text)
            || holds_text(content, "text"@, text)),
{
}

// ---------------------------------------------------------------------------
// Prompt results
// ---------------------------------------------------------------------------

/// Whether `v` holds this count under `key`.
pub open spec fn holds_count(v: JsonView, key: Seq<char>, count: u64) -> bool {
    holds(v, key, JsonView::Number(JsonNumber::PosInt(count)))
}

/// Whether `v` holds no count under `key`.
pub open spec fn lacks_count(v: JsonView, key: Seq<char>) -> bool {
    forall|count: u64| !holds_count(v, key, count)
}

/// Whether `usage` is where the token counts of a prompt result with this `_meta` are
/// looked for first: its `usage`, where that is an object, or else itself.
pub open spec fn counted_in(meta: JsonView, usage: JsonView) -> bool {
    ||| holds(meta, "usage"@, usage) && usage is Object
    ||| usage == meta && forall|other: JsonView| #[trigger]
        holds(meta, "usage"@, other) ==> !(other is Object)
}

/// Whether a count stands under either name in `usage`, the second counting only where
/// the first is missing altogether.
pub open spec fn counts(usage: JsonView, name: Seq<char>, other: Seq<char>, count: u64) -> bool {
    ||| holds_count(usage, name, count)
    ||| lacks(usage, name) && holds_count(usage, other, count)
}

/// Whether this is the count of a prompt result: the one in `usage`, or else the one
/// directly in `_meta`.
pub open spec fn counts_in_all(
    meta: JsonView,
    usage: JsonView,
    name: Seq<char>,
    other: Seq<char>,
    count: u64,
) -> bool {
    ||| counts(usage, name, other, count)
    ||| (forall|n: u64| !counts(usage, name, other, n)) && holds_count(meta, name, count)
}

/// Usage is reported exactly where an input count is given, with that count, and with
/// the output count, or zero where none is given.
pub proof fn law_usage_reports_the_counts(
    result: JsonView,
    meta: JsonView,
    usage: JsonView,
    input_tokens: u64,
    output_tokens: u64,
)
    requires
        holds(result, "_meta"@, meta),
        counted_in(meta, usage),
        counts_in_all(meta, usage, "inputTokens"@, "input_tokens"@, input_tokens),
        counts_in_all(meta, usage, "outputTokens"@, "output_tokens"@, output_tokens) || (
        output_tokens == 0 && forall|n: u64|
            !counts_in_all(meta, usage, "outputTokens"@, "output_tokens"@, n)),
    ensures
        usage_event(result) == Some(AgentEventView::Usage { input_tokens, output_tokens }),
{
    lemma_counted_in(result, meta, usage);
    lemma_count(result, meta, usage, "inputTokens"@, "input_tokens"@);
    lemma_count(result, meta, usage, "outputTokens"@, "output_tokens"@);
}

proof fn lemma_counted_in(result: JsonView, meta: JsonView, usage: JsonView)
    requires
        holds(result, "_meta"@, meta),
        counted_in(meta, usage),
    ensures
        crate::normalize::usage_object(result) == Some(usage),
{
    if meta is Object && meta->Object_0.contains_key("usage"@) {
        let other = meta->Object_0["usage"@];
        assert(holds(meta, "usage"@, other));
        if other is Object {
            assert(holds(meta, "usage"@, usage));
        }
    }
}

proof fn lemma_count(
    result: JsonView,
    meta: JsonView,
    usage: JsonView,
    name: Seq<char>,
    other: Seq<char>,
)
    requires
        holds(result, "_meta"@, meta),
    ensures
        forall|n: u64| #[trigger]
            counts_in_all(meta, usage, name, other, n) ==> crate::normalize::token_count(
                result,
                usage,
                name,
                other,
            ) == Some(n),
        (forall|n: u64| !counts_in_all(meta, usage, name, other, n))
            ==> crate::normalize::token_count(result, usage, name, other) is None,
{
    let found = crate::normalize::token_count(result, usage, name, other);
    assert forall|n: u64| #[trigger] counts_in_all(meta, usage, name, other, n) implies found
        == Some(n) by {
        if !counts(usage, name, other, n) {
            let inner = usage.get_either(name, other);
            if inner is Some && inner->0.as_u64() is Some {
                assert(counts(usage, name, other, inner->0.as_u64()->0));
            }
        }
    }
    if found is Some {
        let n = found->0;
        let inner = usage.get_either(name, other);
        if inner is Some && inner->0.as_u64() is Some {
            assert(counts(usage, name, other, n));
        } else {
            assert(forall|k: u64| !counts(usage, name, other, k));
            assert(holds_count(meta, name, n));
        }
        assert(counts_in_all(meta, usage, name, other, n));
    }
}

/// No usage is reported where no input count is given.
pub proof fn law_no_usage_without_an_input_count(
    result: JsonView,
    meta: JsonView,
    usage: JsonView,
)
    ensures
        lacks(result, "_meta"@) ==> usage_event(result) is None,
        holds(result, "_meta"@, meta) && counted_in(meta, usage) && (forall|n: u64|
            !counts_in_all(meta, usage, "inputTokens"@, "input_tokens"@, n))
            ==> usage_event(result) is None,
{
    if holds(result, "_meta"@, meta) && counted_in(meta, usage) {
        lemma_counted_in(result, meta, usage);
        lemma_count(result, meta, usage, "inputTokens"@, "input_tokens"@);
    }
}

/// Whether a prompt result gives this reason for its end.
pub open spec fn stops_for(result: JsonView, reason: Seq<char>) -> bool {
    ||| holds_text(result, "stopReason"@, reason)
    ||| lacks(result, "stopReason"@) && holds_text(result, "stop_reason"@, reason)
}

/// A prompt that stopped at its token limit, or was refused, ended with an error that
/// says so; for any other reason, or none, it ended without.
pub proof fn law_only_limit_and_refusal_are_errors(result: JsonView, reason: Seq<char>)
    ensures
        stops_for(result, "max_tokens"@) || stops_for(result, "max-tokens"@) ==> stop_error(
            result,
        ) == Some("Grok stopped: max tokens"@),
        stops_for(result, "refusal"@) ==> stop_error(result) == Some(
            "Grok refused the request"@,
        ),
        stops_for(result, reason) && reason != "max_tokens"@ && reason != "max-tokens"@ && reason
            != "refusal"@ ==> stop_error(result) is None,
        (forall|any: Seq<char>| !stops_for(result, any)) ==> stop_error(result) is None,
{
    reveal_strlit("max_tokens");
    reveal_strlit("max-tokens");
    reveal_strlit("refusal");
    reveal_strlit("end_turn");
    assert("end_turn"@.len() == 8 && "max_tokens"@.len() == 10 && "max-tokens"@.len() == 10
        && "refusal"@.len() == 7);
    let given = result.get_either("stopReason"@, "stop_reason"@);
    if given is Some && given->0 is String {
        assert(stops_for(result, given->0->String_0));
    }
}

} // verus!
