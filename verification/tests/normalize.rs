//! Session updates, tool calls and prompt results.

use grok_harness::json::{Json, JsonNumber, JsonObject};
use grok_harness::normalize::{
    content_text, map_session_update, map_tool_call, session_update_kind, stop_reason_error,
    todo_done, update_payload, usage_from_prompt_result, SeenTools,
};
use grok_harness::proto::{AgentEvent, TodoItem, ToolCall};

fn text(s: &str) -> Json {
    Json::text(s)
}

fn number(n: u64) -> Json {
    Json::Number(JsonNumber::PosInt(n))
}

fn obj(members: Vec<(&str, Json)>) -> Json {
    let mut object = JsonObject::new();
    for (name, value) in members {
        object.insert(name.to_owned(), value);
    }
    Json::object(object)
}

/// `{"x.ai/tool": {"name": name}}`.
fn meta(name: &str) -> Json {
    obj(vec![("x.ai/tool", obj(vec![("name", text(name))]))])
}

/// A call of the tool called `name` with a raw input.
fn call(name: &str, input: Json) -> ToolCall {
    map_tool_call(&obj(vec![("_meta", meta(name)), ("rawInput", input)]))
}

#[test]
fn message_and_thought_chunks() {
    let chunk = map_session_update(
        &obj(vec![
            ("sessionUpdate", text("agent_message_chunk")),
            (
                "content",
                obj(vec![("type", text("text")), ("text", text("Hello"))]),
            ),
        ]),
        &SeenTools::new(),
    );
    assert_eq!(
        chunk,
        vec![AgentEvent::TextDelta {
            text: "Hello".into()
        }]
    );

    let thought = map_session_update(
        &obj(vec![
            ("sessionUpdate", text("agent_thought_chunk")),
            (
                "content",
                obj(vec![("type", text("text")), ("text", text("thinking"))]),
            ),
        ]),
        &SeenTools::new(),
    );
    assert_eq!(
        thought,
        vec![AgentEvent::ReasoningDelta {
            text: "thinking".into()
        }]
    );
}

#[test]
fn tool_call_opens_once_and_closes_on_completed() {
    let mut seen = SeenTools::new();
    let open = map_session_update(
        &obj(vec![
            ("sessionUpdate", text("tool_call")),
            ("toolCallId", text("call-1")),
            ("title", text("list_dir")),
            ("rawInput", obj(vec![("target_directory", text("/tmp"))])),
            (
                "_meta",
                obj(vec![(
                    "x.ai/tool",
                    obj(vec![("name", text("list_dir")), ("kind", text("list"))]),
                )]),
            ),
        ]),
        &seen,
    );
    assert_eq!(
        open,
        vec![AgentEvent::ToolCall {
            id: "call-1".into(),
            call: ToolCall::Glob {
                pattern: "/tmp".into()
            },
        }]
    );
    seen.insert("call-1".into());

    // Enrichment must not report the call again.
    let enrich = map_session_update(
        &obj(vec![
            ("sessionUpdate", text("tool_call_update")),
            ("toolCallId", text("call-1")),
            ("title", text("List `/tmp`")),
            ("rawInput", obj(vec![("target_directory", text("/tmp"))])),
            (
                "_meta",
                obj(vec![(
                    "x.ai/tool",
                    obj(vec![
                        ("name", text("list_dir")),
                        ("input", obj(vec![("directory", text("/tmp"))])),
                    ]),
                )]),
            ),
        ]),
        &seen,
    );
    assert!(enrich.is_empty(), "{enrich:?}");

    let done = map_session_update(
        &obj(vec![
            ("sessionUpdate", text("tool_call_update")),
            ("toolCallId", text("call-1")),
            ("status", text("completed")),
            ("rawOutput", obj(vec![("ok", Json::Bool(true))])),
        ]),
        &seen,
    );
    assert_eq!(
        done,
        vec![AgentEvent::ToolResult {
            id: "call-1".into(),
            is_error: false
        }]
    );
}

#[test]
fn typed_tool_mapping() {
    assert_eq!(
        map_tool_call(&obj(vec![
            (
                "_meta",
                obj(vec![(
                    "x.ai/tool",
                    obj(vec![
                        ("name", text("run_terminal_command")),
                        ("input", obj(vec![("command", text("ls -la"))])),
                    ]),
                )]),
            ),
            ("rawInput", obj(vec![("command", text("ignored"))])),
        ])),
        ToolCall::Exec {
            command: "ls -la".into()
        }
    );
    assert_eq!(
        map_tool_call(&obj(vec![
            ("title", text("read_file")),
            ("rawInput", obj(vec![("target_file", text("src/main.rs"))])),
        ])),
        ToolCall::ReadFile {
            path: "src/main.rs".into()
        }
    );
    assert_eq!(
        call(
            "search_replace",
            obj(vec![
                ("path", text("a.rs")),
                ("old_string", text("old")),
                ("new_string", text("new")),
            ])
        ),
        ToolCall::EditFile {
            path: "a.rs".into(),
            old_string: Some("old".into()),
            new_string: Some("new".into()),
        }
    );
    assert_eq!(
        call(
            "grep",
            obj(vec![("pattern", text("foo")), ("path", text("src"))])
        ),
        ToolCall::Search {
            pattern: "foo".into(),
            path: Some("src".into())
        }
    );
    assert_eq!(
        call("web_search", obj(vec![("query", text("rust"))])),
        ToolCall::WebSearch {
            query: "rust".into()
        }
    );
    assert_eq!(
        call("web_fetch", obj(vec![("url", text("https://example.com"))])),
        ToolCall::WebFetch {
            url: "https://example.com".into(),
            prompt: None
        }
    );
    assert_eq!(
        call(
            "todo_write",
            obj(vec![(
                "todos",
                Json::array(vec![
                    obj(vec![("text", text("a")), ("done", Json::Bool(true))]),
                    obj(vec![("text", text("b")), ("completed", Json::Bool(false))]),
                ])
            )])
        ),
        ToolCall::Todo {
            items: vec![
                TodoItem {
                    text: "a".into(),
                    done: true
                },
                TodoItem {
                    text: "b".into(),
                    done: false
                },
            ]
        }
    );
    assert_eq!(
        call(
            "use_tool",
            obj(vec![
                ("server", text("linear")),
                ("tool", text("search")),
                ("q", text("bug")),
            ])
        ),
        ToolCall::Mcp {
            server: "linear".into(),
            tool: "search".into(),
            input: Some(obj(vec![
                ("server", text("linear")),
                ("tool", text("search")),
                ("q", text("bug")),
            ])),
        }
    );
    assert_eq!(
        call("spawn_subagent", obj(vec![("prompt", text("go"))])),
        ToolCall::Unknown {
            name: "spawn_subagent".into(),
            input: Some(obj(vec![("prompt", text("go"))])),
        }
    );
}

#[test]
fn usage_from_prompt_meta() {
    let result = obj(vec![
        ("stopReason", text("end_turn")),
        (
            "_meta",
            obj(vec![
                ("inputTokens", number(100)),
                ("outputTokens", number(20)),
                (
                    "usage",
                    obj(vec![
                        ("inputTokens", number(17719)),
                        ("outputTokens", number(25)),
                        ("totalTokens", number(17744)),
                    ]),
                ),
            ]),
        ),
    ]);
    assert_eq!(
        usage_from_prompt_result(&result),
        Some(AgentEvent::Usage {
            input_tokens: 17719,
            output_tokens: 25
        })
    );
    assert_eq!(stop_reason_error(&result), None);
}

#[test]
fn failed_tool_status() {
    let mut seen = SeenTools::new();
    seen.insert("c1".into());
    let ev = map_session_update(
        &obj(vec![
            ("sessionUpdate", text("tool_call_update")),
            ("toolCallId", text("c1")),
            ("status", text("failed")),
        ]),
        &seen,
    );
    assert_eq!(
        ev,
        vec![AgentEvent::ToolResult {
            id: "c1".into(),
            is_error: true
        }]
    );
}

#[test]
fn status_is_read_in_any_case() {
    let mut seen = SeenTools::new();
    seen.insert("c1".into());
    let statuses = vec![
        ("COMPLETED", Some(false)),
        ("Success", Some(false)),
        ("oK", Some(false)),
        ("FAILED", Some(true)),
        ("Error", Some(true)),
        ("Cancelled", Some(true)),
        ("canceled", Some(true)),
        ("pending", None),
        ("IN_PROGRESS", None),
    ];
    for (status, expected) in statuses {
        let events = map_session_update(
            &obj(vec![
                ("sessionUpdate", text("tool_call_update")),
                ("tool_call_id", text("c1")),
                ("status", text(status)),
            ]),
            &seen,
        );
        match expected {
            Some(is_error) => assert_eq!(
                events,
                vec![AgentEvent::ToolResult {
                    id: "c1".into(),
                    is_error
                }]
            ),
            None => assert!(events.is_empty(), "{status}: {events:?}"),
        }
    }
}

#[test]
fn first_update_can_open_and_close() {
    let events = map_session_update(
        &obj(vec![
            ("sessionUpdate", text("tool_call_update")),
            ("toolCallId", text("late")),
            ("kind", text("grep")),
            ("raw_input", obj(vec![("regex", text("x+"))])),
            ("status", text("ok")),
        ]),
        &SeenTools::new(),
    );
    assert_eq!(
        events,
        vec![
            AgentEvent::ToolCall {
                id: "late".into(),
                call: ToolCall::Search {
                    pattern: "x+".into(),
                    path: None
                },
            },
            AgentEvent::ToolResult {
                id: "late".into(),
                is_error: false
            },
        ]
    );
}

#[test]
fn updates_without_an_id_or_of_other_kinds_are_ignored() {
    let seen = SeenTools::new();
    let nameless = obj(vec![
        ("sessionUpdate", text("tool_call")),
        ("toolCallId", text("")),
    ]);
    assert!(map_session_update(&nameless, &seen).is_empty());
    for kind in ["user_message_chunk", "plan", "available_commands_update", ""] {
        let update = obj(vec![
            ("sessionUpdate", text(kind)),
            ("toolCallId", text("c")),
            ("content", text("hi")),
        ]);
        assert!(map_session_update(&update, &seen).is_empty());
    }
    assert!(map_session_update(&Json::Null, &seen).is_empty());
}

#[test]
fn content_is_a_block_or_a_bare_string() {
    assert_eq!(content_text(&text("bare")), Some("bare".to_owned()));
    assert_eq!(
        content_text(&obj(vec![("text", text("block"))])),
        Some("block".to_owned())
    );
    assert_eq!(content_text(&text("")), None);
    assert_eq!(content_text(&obj(vec![("text", text(""))])), None);
    assert_eq!(content_text(&obj(vec![("text", number(1))])), None);
    assert_eq!(content_text(&Json::array(vec![text("a")])), None);
    assert_eq!(content_text(&Json::Bool(true)), None);
}

#[test]
fn payload_is_the_update_member_or_the_whole() {
    let inner = obj(vec![("sessionUpdate", text("plan"))]);
    let wrapped = obj(vec![
        ("update", inner.clone()),
        ("sessionUpdate", text("x")),
    ]);
    assert_eq!(update_payload(&wrapped), &inner);
    assert_eq!(update_payload(&inner), &inner);
    assert_eq!(session_update_kind(&inner), "plan");
    assert_eq!(session_update_kind(&Json::Null), "");
}

#[test]
fn tool_names_fall_back_to_title_kind_and_unknown() {
    let titled = map_tool_call(&obj(vec![("title", text("mystery")), ("kind", text("grep"))]));
    assert_eq!(
        titled,
        ToolCall::Unknown {
            name: "mystery".into(),
            input: None
        }
    );
    assert_eq!(
        map_tool_call(&obj(vec![("kind", text("web_search"))])),
        ToolCall::WebSearch { query: "".into() }
    );
    assert_eq!(
        map_tool_call(&obj(vec![])),
        ToolCall::Unknown {
            name: "unknown".into(),
            input: None
        }
    );
    // A description that is no object does not count.
    let odd = obj(vec![
        ("_meta", obj(vec![("x.ai/tool", text("grep"))])),
        ("title", text("list_dir")),
    ]);
    assert_eq!(
        map_tool_call(&odd),
        ToolCall::Glob { pattern: "".into() }
    );
}

#[test]
fn null_inputs_do_not_count() {
    let update = obj(vec![
        (
            "_meta",
            obj(vec![(
                "x.ai/tool",
                obj(vec![("name", text("read_file")), ("input", Json::Null)]),
            )]),
        ),
        ("rawInput", obj(vec![("filename", text("b.rs"))])),
    ]);
    assert_eq!(
        map_tool_call(&update),
        ToolCall::ReadFile {
            path: "b.rs".into()
        }
    );
    // A null `rawInput` hides the `raw_input`.
    let hidden = obj(vec![
        ("title", text("read_file")),
        ("rawInput", Json::Null),
        ("raw_input", obj(vec![("path", text("c.rs"))])),
    ]);
    assert_eq!(map_tool_call(&hidden), ToolCall::ReadFile { path: "".into() });
}

#[test]
fn a_command_may_be_the_whole_input() {
    assert_eq!(
        call("run_terminal_command", text("make")),
        ToolCall::Exec {
            command: "make".into()
        }
    );
    assert_eq!(
        call("run_terminal_command", obj(vec![("cmd", text("ls"))])),
        ToolCall::Exec {
            command: "ls".into()
        }
    );
    // The first string counts, even where it is empty.
    assert_eq!(
        call(
            "run_terminal_command",
            obj(vec![("command", text("")), ("cmd", text("ls"))])
        ),
        ToolCall::Exec { command: "".into() }
    );
}

#[test]
fn use_tool_without_a_server_is_unknown() {
    let input = obj(vec![("tool", text("search"))]);
    assert_eq!(
        call("use_tool", input.clone()),
        ToolCall::Unknown {
            name: "use_tool".into(),
            input: Some(input)
        }
    );
}

#[test]
fn todo_entries_are_done_by_flag_or_by_status() {
    assert!(todo_done(&obj(vec![("done", Json::Bool(true))])));
    assert!(!todo_done(&obj(vec![
        ("done", Json::Bool(false)),
        ("status", text("done")),
    ])));
    for status in ["done", "completed", "complete", "finished"] {
        assert!(todo_done(&obj(vec![("status", text(status))])));
    }
    assert!(!todo_done(&obj(vec![("status", text("Done"))])));
    assert!(!todo_done(&obj(vec![])));
    assert_eq!(
        call(
            "todo_write",
            obj(vec![(
                "items",
                Json::array(vec![obj(vec![("subject", text("s"))]), Json::Null])
            )])
        ),
        ToolCall::Todo {
            items: vec![
                TodoItem {
                    text: "s".into(),
                    done: false
                },
                TodoItem {
                    text: "".into(),
                    done: false
                },
            ]
        }
    );
}

#[test]
fn usage_falls_back_to_the_meta_counts() {
    let flat = obj(vec![(
        "_meta",
        obj(vec![
            ("input_tokens", number(3)),
            ("output_tokens", number(4)),
        ]),
    )]);
    assert_eq!(
        usage_from_prompt_result(&flat),
        Some(AgentEvent::Usage {
            input_tokens: 3,
            output_tokens: 4
        })
    );
    let partial = obj(vec![(
        "_meta",
        obj(vec![
            ("inputTokens", number(9)),
            ("usage", obj(vec![("other", number(1))])),
        ]),
    )]);
    assert_eq!(
        usage_from_prompt_result(&partial),
        Some(AgentEvent::Usage {
            input_tokens: 9,
            output_tokens: 0
        })
    );
    // Usage that is no object does not count; negative counts are no counts.
    let negative = obj(vec![(
        "_meta",
        obj(vec![
            ("usage", text("much")),
            ("inputTokens", Json::Number(JsonNumber::NegInt(-1))),
        ]),
    )]);
    assert_eq!(usage_from_prompt_result(&negative), None);
    assert_eq!(usage_from_prompt_result(&Json::Null), None);
}

#[test]
fn stop_reasons_that_are_errors() {
    let reason = |word: &str| stop_reason_error(&obj(vec![("stopReason", text(word))]));
    assert_eq!(
        reason("max_tokens").as_deref(),
        Some("Grok stopped: max tokens")
    );
    assert_eq!(
        reason("max-tokens").as_deref(),
        Some("Grok stopped: max tokens")
    );
    assert_eq!(
        reason("refusal").as_deref(),
        Some("Grok refused the request")
    );
    for word in ["end_turn", "end-turn", "stop", "cancelled", "something new"] {
        assert_eq!(reason(word), None);
    }
    assert_eq!(stop_reason_error(&Json::Null), None);
    let snake = obj(vec![("stop_reason", text("refusal"))]);
    assert_eq!(
        stop_reason_error(&snake).as_deref(),
        Some("Grok refused the request")
    );
}

#[test]
fn seen_tools_are_forgotten_on_clear() {
    let mut seen = SeenTools::new();
    seen.insert("a".into());
    seen.insert("a".into());
    assert!(seen.contains("a"));
    assert!(!seen.contains("b"));
    seen.clear();
    assert!(!seen.contains("a"));
}

#[test]
fn objects_hold_each_name_once() {
    let mut object = JsonObject::new();
    object.insert("a".into(), number(1));
    object.insert("b".into(), number(2));
    object.insert("a".into(), number(3));
    assert_eq!(object.len(), 2);
    assert_eq!(object.get("a"), Some(&number(3)));
    assert_eq!(object.member(0), ("a", &number(3)));
    assert_eq!(object.member(1), ("b", &number(2)));
    let value = Json::object(object);
    assert_eq!(value.clone(), value);
}

#[test]
fn objects_are_equal_in_any_order() {
    let one = obj(vec![("a", number(1)), ("b", Json::array(vec![text("x")]))]);
    let other = obj(vec![("b", Json::array(vec![text("x")])), ("a", number(1))]);
    assert_eq!(one, other);
    assert_eq!(
        call("use_tool", obj(vec![("server", text("s")), ("tool", text("t"))])),
        call("use_tool", obj(vec![("tool", text("t")), ("server", text("s"))]))
    );
    assert_ne!(one, obj(vec![("a", number(1))]));
    assert_ne!(
        one,
        obj(vec![("a", number(2)), ("b", Json::array(vec![text("x")]))])
    );
    assert_ne!(
        one,
        obj(vec![("a", number(1)), ("c", Json::array(vec![text("x")]))])
    );
    assert_ne!(
        Json::array(vec![number(1), number(2)]),
        Json::array(vec![number(2), number(1)])
    );
    assert_ne!(Json::Null, Json::Bool(false));
}

#[test]
fn numbers_are_equal_by_what_they_amount_to() {
    let double = |x: f64| Json::Number(JsonNumber::Float(x.to_bits()));
    assert_eq!(double(0.0), double(-0.0));
    assert_eq!(double(1.5), double(1.5));
    assert_ne!(double(1.5), double(-1.5));
    assert_ne!(number(1), double(1.0));
    assert_ne!(number(1), number(2));
    assert_eq!(JsonNumber::NegInt(-1), JsonNumber::NegInt(-1));
}
