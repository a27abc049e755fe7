//! The vocabulary that the harness shares with its host: run requests, agent
//! events, tool calls, models and errors.

use vstd::prelude::*;
use crate::json::{opt_text, Json, JsonView};

verus! {

/// How hard a model is asked to think, from least to most.
#[derive(Clone, Copy, Debug, PartialEq, Eq, Structural)]
pub enum ReasoningLevel {
    Minimal,
    Low,
    Medium,
    High,
    XHigh,
    Max,
    Ultra,
    Ultracode,
    Ultrathink,
}

/// What the agent's tools may touch.
#[derive(Clone, Copy, Debug, PartialEq, Eq, Structural)]
pub enum SandboxLevel {
    ReadOnly,
    WorkspaceWrite,
    DangerFullAccess,
}

/// Which harness produced a session.
#[derive(Clone, Copy, Debug, PartialEq, Eq, Structural)]
pub enum HarnessId {
    GrokBuild,
}

/// When a steering message reaches the agent.
#[derive(Clone, Copy, Debug, PartialEq, Eq, Structural)]
pub enum SteeringMode {
    TurnBoundary,
}

/// How a turn ended.
#[derive(Clone, Copy, Debug, PartialEq, Eq, Structural)]
pub enum DoneStatus {
    Completed,
    Errored,
    Interrupted,
}

/// What the host asks of a run.
#[derive(Debug, PartialEq, Eq)]
pub struct RunRequest {
    pub prompt: String,
    pub model: Option<String>,
    pub reasoning: Option<ReasoningLevel>,
    pub cwd: String,
    pub sandbox: SandboxLevel,
    pub resume: Option<String>,
}

/// Why the harness could not do what it was asked.
#[derive(Debug, PartialEq, Eq)]
pub enum HarnessError {
    NotInstalled(String),
    Protocol(String),
    Io(String),
}

/// The mathematical value of a [`HarnessError`].
pub enum HarnessErrorView {
    NotInstalled(Seq<char>),
    Protocol(Seq<char>),
    Io(Seq<char>),
}

impl View for HarnessError {
    type V = HarnessErrorView;

    open spec fn view(&self) -> HarnessErrorView {
        match self {
            HarnessError::NotInstalled(what) => HarnessErrorView::NotInstalled(what@),
            HarnessError::Protocol(what) => HarnessErrorView::Protocol(what@),
            HarnessError::Io(what) => HarnessErrorView::Io(what@),
        }
    }
}

/// One row of the model picker.
#[derive(Debug, PartialEq, Eq)]
pub struct Model {
    pub id: String,
    pub label: String,
    pub description: Option<String>,
    pub reasoning_levels: Vec<ReasoningLevel>,
}

/// The mathematical value of a [`Model`].
pub struct ModelView {
    pub id: Seq<char>,
    pub label: Seq<char>,
    pub description: Option<Seq<char>>,
    pub reasoning_levels: Seq<ReasoningLevel>,
}

impl View for Model {
    type V = ModelView;

    open spec fn view(&self) -> ModelView {
        ModelView {
            id: self.id@,
            label: self.label@,
            description: opt_text(self.description),
            reasoning_levels: self.reasoning_levels@,
        }
    }
}

/// The values of a sequence of models.
pub open spec fn models_view(models: Seq<Model>) -> Seq<ModelView> {
    models.map_values(|model: Model| model@)
}

/// One line of a to-do list.
#[derive(Debug, PartialEq, Eq)]
pub struct TodoItem {
    pub text: String,
    pub done: bool,
}

/// The mathematical value of a [`TodoItem`].
pub struct TodoItemView {
    pub text: Seq<char>,
    pub done: bool,
}

impl View for TodoItem {
    type V = TodoItemView;

    open spec fn view(&self) -> TodoItemView {
        TodoItemView { text: self.text@, done: self.done }
    }
}

/// The values of a sequence of to-do entries.
pub open spec fn todos_view(items: Seq<TodoItem>) -> Seq<TodoItemView> {
    items.map_values(|item: TodoItem| item@)
}

/// What the agent does with a tool.
#[allow(inconsistent_fields)]
#[derive(Debug, PartialEq, Eq)]
pub enum ToolCall {
    Exec { command: String },
    ReadFile { path: String },
    EditFile { path: String, old_string: Option<String>, new_string: Option<String> },
    Search { pattern: String, path: Option<String> },
    Glob { pattern: String },
    WebSearch { query: String },
    WebFetch { url: String, prompt: Option<String> },
    Todo { items: Vec<TodoItem> },
    Mcp { server: String, tool: String, input: Option<Json> },
    Unknown { name: String, input: Option<Json> },
}

/// The mathematical value of a [`ToolCall`].
#[allow(inconsistent_fields)]
pub enum ToolCallView {
    Exec { command: Seq<char> },
    ReadFile { path: Seq<char> },
    EditFile { path: Seq<char>, old_string: Option<Seq<char>>, new_string: Option<Seq<char>> },
    Search { pattern: Seq<char>, path: Option<Seq<char>> },
    Glob { pattern: Seq<char> },
    WebSearch { query: Seq<char> },
    WebFetch { url: Seq<char>, prompt: Option<Seq<char>> },
    Todo { items: Seq<TodoItemView> },
    Mcp { server: Seq<char>, tool: Seq<char>, input: Option<JsonView> },
    Unknown { name: Seq<char>, input: Option<JsonView> },
}

/// The value of an optional [`Json`].
pub open spec fn opt_value(v: Option<Json>) -> Option<JsonView> {
    match v {
        Some(value) => Some(value@),
        None => None,
    }
}

impl View for ToolCall {
    type V = ToolCallView;

    open spec fn view(&self) -> ToolCallView {
        match self {
            ToolCall::Exec { command } => ToolCallView::Exec { command: command@ },
            ToolCall::ReadFile { path } => ToolCallView::ReadFile { path: path@ },
            ToolCall::EditFile { path, old_string, new_string } => ToolCallView::EditFile {
                path: path@,
                old_string: opt_text(*old_string),
                new_string: opt_text(*new_string),
            },
            ToolCall::Search { pattern, path } => ToolCallView::Search {
                pattern: pattern@,
                path: opt_text(*path),
            },
            ToolCall::Glob { pattern } => ToolCallView::Glob { pattern: pattern@ },
            ToolCall::WebSearch { query } => ToolCallView::WebSearch { query: query@ },
            ToolCall::WebFetch { url, prompt } => ToolCallView::WebFetch {
                url: url@,
                prompt: opt_text(*prompt),
            },
            ToolCall::Todo { items } => ToolCallView::Todo {
                items: todos_view(items@),
            },
            ToolCall::Mcp { server, tool, input } => ToolCallView::Mcp {
                server: server@,
                tool: tool@,
                input: opt_value(*input),
            },
            ToolCall::Unknown { name, input } => ToolCallView::Unknown {
                name: name@,
                input: opt_value(*input),
            },
        }
    }
}

/// What the harness reports of a run.
#[allow(inconsistent_fields)]
#[derive(Debug, PartialEq, Eq)]
pub enum AgentEvent {
    SessionStarted {
        harness: HarnessId,
        model: String,
        tools: Vec<String>,
        cwd: String,
        session_id: String,
        assistant_message_id: String,
    },
    TextDelta { text: String },
    ReasoningDelta { text: String },
    ToolCall { id: String, call: ToolCall },
    ToolResult { id: String, is_error: bool },
    Usage { input_tokens: u64, output_tokens: u64 },
    AssistantMessageCompleted { assistant_message_id: String },
    Steered {
        assistant_message_id: Option<String>,
        next_assistant_message_id: Option<String>,
    },
    Done {
        status: DoneStatus,
        result: Option<String>,
        error: Option<String>,
        session_id: Option<String>,
    },
}

/// The characters of a sequence of strings.
pub open spec fn texts_view(texts: Seq<String>) -> Seq<Seq<char>> {
    texts.map_values(|text: String| text@)
}

/// The mathematical value of an [`AgentEvent`].
#[allow(inconsistent_fields)]
pub enum AgentEventView {
    SessionStarted {
        harness: HarnessId,
        model: Seq<char>,
        tools: Seq<Seq<char>>,
        cwd: Seq<char>,
        session_id: Seq<char>,
        assistant_message_id: Seq<char>,
    },
    TextDelta { text: Seq<char> },
    ReasoningDelta { text: Seq<char> },
    ToolCall { id: Seq<char>, call: ToolCallView },
    ToolResult { id: Seq<char>, is_error: bool },
    Usage { input_tokens: u64, output_tokens: u64 },
    AssistantMessageCompleted { assistant_message_id: Seq<char> },
    Steered {
        assistant_message_id: Option<Seq<char>>,
        next_assistant_message_id: Option<Seq<char>>,
    },
    Done {
        status: DoneStatus,
        result: Option<Seq<char>>,
        error: Option<Seq<char>>,
        session_id: Option<Seq<char>>,
    },
}

impl View for AgentEvent {
    type V = AgentEventView;

    open spec fn view(&self) -> AgentEventView {
        match self {
            AgentEvent::SessionStarted {
                harness,
                model,
                tools,
                cwd,
                session_id,
                assistant_message_id,
            } => AgentEventView::SessionStarted {
                harness: *harness,
                model: model@,
                tools: texts_view(tools@),
                cwd: cwd@,
                session_id: session_id@,
                assistant_message_id: assistant_message_id@,
            },
            AgentEvent::TextDelta { text } => AgentEventView::TextDelta { text: text@ },
            AgentEvent::ReasoningDelta { text } => AgentEventView::ReasoningDelta { text: text@ },
            AgentEvent::ToolCall { id, call } => AgentEventView::ToolCall { id: id@, call: call@ },
            AgentEvent::ToolResult { id, is_error } => AgentEventView::ToolResult {
                id: id@,
                is_error: *is_error,
            },
            AgentEvent::Usage { input_tokens, output_tokens } => AgentEventView::Usage {
                input_tokens: *input_tokens,
                output_tokens: *output_tokens,
            },
            AgentEvent::AssistantMessageCompleted { assistant_message_id } =>
                AgentEventView::AssistantMessageCompleted {
                    assistant_message_id: assistant_message_id@,
                },
            AgentEvent::Steered { assistant_message_id, next_assistant_message_id } =>
                AgentEventView::Steered {
                    assistant_message_id: opt_text(*assistant_message_id),
                    next_assistant_message_id: opt_text(*next_assistant_message_id),
                },
            AgentEvent::Done { status, result, error, session_id } => AgentEventView::Done {
                status: *status,
                result: opt_text(*result),
                error: opt_text(*error),
                session_id: opt_text(*session_id),
            },
        }
    }
}

/// The values of a sequence of events.
pub open spec fn events_view(events: Seq<AgentEvent>) -> Seq<AgentEventView> {
    events.map_values(|event: AgentEvent| event@)
}

} // verus!
