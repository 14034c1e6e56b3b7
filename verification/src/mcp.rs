//! The stdio JSON-RPC 2.0 protocol that exposes Cotrex to agents as MCP tools: reading a request
//! line, choosing the reply to a method, routing a `tools/call` to the tool and its checked
//! arguments, and writing each reply as compact JSON text (keys in sorted order, as
//! `serde_json::Value` prints them).
use vstd::prelude::*;

use crate::agent::prompt::opt_view;
use crate::commands::model::{parse_u64, parse_u64_spec};
use crate::json::{get_spec, get_str_spec, parse, serde_json_from_str, string_view, text_as_str, text_str, JsonModel, JsonValue};
use crate::text::{join_chars, join_with, push_chars, seqs, slice, str_eq, chars_of, int_seq, dec_seq, push_decimal, push_int, push_str, string_of, trim, trim_seq};

verus! {

/// The MCP protocol revision this server speaks.
pub const PROTOCOL_VERSION: &'static str = "2024-11-05";

/// The JSON-RPC error code for an unknown method.
pub const METHOD_NOT_FOUND: i64 = -32601;

/// A lower-case hexadecimal digit (`n < 16`).
pub open spec fn hex_digit(n: nat) -> char {
    seq!['0', '1', '2', '3', '4', '5', '6', '7', '8', '9', 'a', 'b', 'c', 'd', 'e', 'f'][n as int]
}

/// How one character is written inside a JSON string: `"` and `\` escaped with a backslash,
/// backspace, form feed, line feed, carriage return and tab as `\b \f \n \r \t`, the other
/// characters below U+0020 as `\u00` and two lower-case hex digits, every other character as
/// it is.
pub open spec fn json_escape(c: char) -> Seq<char> {
    if c == '"' {
        seq!['\\', '"']
    } else if c == '\\' {
        seq!['\\', '\\']
    } else if c == '\u{8}' {
        seq!['\\', 'b']
    } else if c == '\u{c}' {
        seq!['\\', 'f']
    } else if c == '\n' {
        seq!['\\', 'n']
    } else if c == '\r' {
        seq!['\\', 'r']
    } else if c == '\t' {
        seq!['\\', 't']
    } else if (c as nat) < 32 {
        seq!['\\', 'u', '0', '0', hex_digit((c as nat) / 16), hex_digit((c as nat) % 16)]
    } else {
        seq![c]
    }
}

/// The characters of a string, each written as inside a JSON string.
pub open spec fn json_escaped(s: Seq<char>) -> Seq<char>
    decreases s.len(),
{
    if s.len() == 0 {
        seq![]
    } else {
        json_escaped(s.drop_last()) + json_escape(s.last())
    }
}

/// The JSON string literal of a string, as `serde_json::to_string` writes it.
pub open spec fn json_quote_spec(s: Seq<char>) -> Seq<char> {
    seq!['"'] + json_escaped(s) + seq!['"']
}

/// Writes `s` as a JSON string literal with `serde_json::to_string`, which quotes it and escapes
/// it as `json_escape` says (its escape table in `ser.rs`). Serializing a `str` into memory
/// cannot fail, so the empty fallback is never taken.
#[verifier::external_body]
fn json_quote(s: &str) -> (r: String)
    ensures
        r@ == json_quote_spec(s@),
{
    serde_json::to_string(s).unwrap_or_default()
}

/// A request frame: its id (as JSON text, absent for a notification), its method and its
/// params (as JSON text).
pub struct McpRequest {
    pub id: Option<String>,
    pub method: String,
    pub params: String,
}

/// The JSON text of member `key` of the value that `t` denotes.
pub open spec fn member_text(t: Seq<char>, key: Seq<char>) -> Option<Seq<char>> {
    match serde_json_from_str(t) {
        Ok(m) => get_spec(m, key),
        Err(_) => None,
    }
}

/// The request that a line holds: `None` for a blank line or one that is not JSON; a missing
/// method reads as empty and missing params as `{}`.
pub open spec fn request_spec(line: Seq<char>) -> Option<(Option<Seq<char>>, Seq<char>, Seq<char>)> {
    let t = trim_seq(line);
    if t.len() == 0 {
        None
    } else {
        match serde_json_from_str(t) {
            Ok(m) => Some(
                (
                    get_spec(m, "id"@),
                    match get_str_spec(m, "method"@) {
                        Some(s) => s,
                        None => seq![],
                    },
                    match get_spec(m, "params"@) {
                        Some(p) => p,
                        None => "{}"@,
                    },
                ),
            ),
            Err(_) => None,
        }
    }
}

/// Reads one line of the input channel as a request.
pub fn read_request(line: &str) -> (r: Option<McpRequest>)
    ensures
        match r {
            Some(q) => request_spec(line@) == Some((opt_view(q.id), q.method@, q.params@)),
            None => request_spec(line@) is None,
        },
{
    proof {
        reveal_strlit("{}");
    }
    let tv = trim(&chars_of(line));
    if tv.len() == 0 {
        return None;
    }
    let t = string_of(&tv);
    match parse(t.as_str()) {
        Ok(v) => {
            let id = v.get("id");
            let method = match v.get_str("method") {
                Some(s) => s,
                None => String::new(),
            };
            let params = match v.get("params") {
                Some(p) => p,
                None => "{}".to_string(),
            };
            Some(McpRequest { id, method, params })
        },
        Err(_) => None,
    }
}

/// The `tools/list` result: every tool with its description and input schema.
pub const TOOLS_LIST: &'static str = "{\"tools\":[\
    {\"description\":\"Run a command via RTK.\",\"inputSchema\":{\"properties\":{\"command\":{\"description\":\"Command line, e.g. \\\"cargo test\\\"\",\"type\":\"string\"},\"llm\":{\"description\":\"Compress output into an LLM insight\",\"type\":\"boolean\"}},\"required\":[\"command\"],\"type\":\"object\"},\"name\":\"run\"},\
    {\"description\":\"Set agent platform id.\",\"inputSchema\":{\"properties\":{\"agent\":{\"description\":\"graphify platform id, e.g. codex, cursor, gemini, opencode\",\"type\":\"string\"}},\"required\":[\"agent\"],\"type\":\"object\"},\"name\":\"set_agent\"},\
    {\"description\":\"List available roles.\",\"inputSchema\":{\"properties\":{},\"type\":\"object\"},\"name\":\"list_roles\"},\
    {\"description\":\"Delegate task to a role.\",\"inputSchema\":{\"properties\":{\"role\":{\"description\":\"Role name (default: assistant). Options: planner, router, orchestrator, coder, assistant\",\"type\":\"string\"},\"task\":{\"description\":\"The task to delegate, e.g. \\\"analyze the project structure\\\"\",\"type\":\"string\"}},\"required\":[\"task\"],\"type\":\"object\"},\"name\":\"delegate\"},\
    {\"description\":\"Plan a task.\",\"inputSchema\":{\"properties\":{\"task\":{\"description\":\"The task to plan, e.g. \\\"build a music player app\\\"\",\"type\":\"string\"}},\"required\":[\"task\"],\"type\":\"object\"},\"name\":\"plan\"},\
    {\"description\":\"Show token usage.\",\"inputSchema\":{\"properties\":{},\"type\":\"object\"},\"name\":\"usage\"},\
    {\"description\":\"Query knowledge graph.\",\"inputSchema\":{\"properties\":{\"budget\":{\"description\":\"Token budget for output (default: 2000)\",\"type\":\"integer\"},\"dfs\":{\"description\":\"Use DFS mode instead of BFS (default: false)\",\"type\":\"boolean\"},\"question\":{\"description\":\"The question to search for in the graph\",\"type\":\"string\"}},\"required\":[\"question\"],\"type\":\"object\"},\"name\":\"graphify\"},\
    {\"description\":\"Path between two nodes.\",\"inputSchema\":{\"properties\":{\"node_a\":{\"description\":\"Source concept name\",\"type\":\"string\"},\"node_b\":{\"description\":\"Target concept name\",\"type\":\"string\"}},\"required\":[\"node_a\",\"node_b\"],\"type\":\"object\"},\"name\":\"graphify_path\"},\
    {\"description\":\"Explain a graph node.\",\"inputSchema\":{\"properties\":{\"node_name\":{\"description\":\"Node name to explain\",\"type\":\"string\"}},\"required\":[\"node_name\"],\"type\":\"object\"},\"name\":\"graphify_explain\"},\
    {\"description\":\"Add URL to graph corpus.\",\"inputSchema\":{\"properties\":{\"author\":{\"description\":\"Author tag\",\"type\":\"string\"},\"contributor\":{\"description\":\"Contributor tag\",\"type\":\"string\"},\"url\":{\"description\":\"URL to fetch\",\"type\":\"string\"}},\"required\":[\"url\"],\"type\":\"object\"},\"name\":\"graphify_add\"},\
    {\"description\":\"Save Q&A to graph.\",\"inputSchema\":{\"properties\":{\"answer\":{\"description\":\"The answer text to save\",\"type\":\"string\"},\"nodes\":{\"description\":\"Node labels cited in the answer\",\"items\":{\"type\":\"string\"},\"type\":\"array\"},\"question\":{\"description\":\"The question text to save (not to ask - this is for storing a completed Q&A pair)\",\"type\":\"string\"},\"result_type\":{\"description\":\"Type: query, path_query, or explain\",\"type\":\"string\"}},\"required\":[\"question\",\"answer\"],\"type\":\"object\"},\"name\":\"graphify_save_result\"},\
    {\"description\":\"Export graph (svg/graphml/neo4j).\",\"inputSchema\":{\"properties\":{\"format\":{\"description\":\"Export format: svg, graphml, or neo4j\",\"type\":\"string\"}},\"required\":[\"format\"],\"type\":\"object\"},\"name\":\"graphify_export\"},\
    {\"description\":\"Summarize build output with AI.\",\"inputSchema\":{\"properties\":{\"command\":{\"description\":\"The build command that was run\",\"type\":\"string\"},\"exit_code\":{\"description\":\"Process exit code\",\"type\":\"integer\"},\"prompt\":{\"description\":\"Optional custom prompt for the AI\",\"type\":\"string\"},\"stderr\":{\"description\":\"Standard error from the build\",\"type\":\"string\"},\"stdout\":{\"description\":\"Standard output from the build\",\"type\":\"string\"}},\"required\":[\"command\",\"exit_code\",\"stderr\"],\"type\":\"object\"},\"name\":\"cotrex_build_summary\"},\
    {\"description\":\"Explain Rust code with AI.\",\"inputSchema\":{\"properties\":{\"question\":{\"description\":\"What to explain about the code (default: explain what it does)\",\"type\":\"string\"},\"source\":{\"description\":\"The Rust source code to explain\",\"type\":\"string\"}},\"required\":[\"source\"],\"type\":\"object\"},\"name\":\"cotrex_explain_rust\"},\
    {\"description\":\"Get workspace git context.\",\"inputSchema\":{\"properties\":{},\"type\":\"object\"},\"name\":\"workspace_context\"}]}";

/// `"true"` or `"false"`.
pub open spec fn bool_text(b: bool) -> Seq<char> {
    if b {
        "true"@
    } else {
        "false"@
    }
}

/// The `initialize` result for a server of the given version.
pub open spec fn initialize_spec(version: Seq<char>) -> Seq<char> {
    "{\"capabilities\":{\"tools\":{}},\"protocolVersion\":\"2024-11-05\",\"serverInfo\":{\"name\":\"cotrex\",\"version\":"@
        + json_quote_spec(version) + "}}"@
}

/// What a method asks of the server.
pub enum Dispatch {
    /// Reply with this result text.
    Reply(String),
    /// A notification: no reply.
    Notification,
    /// Run the tool that the params name, and reply with its result.
    CallTool,
    /// Reply with this error code and message.
    Failure(i64, String),
}

/// The reply to `method`, by the method name alone.
pub open spec fn dispatch_spec(method: Seq<char>, version: Seq<char>) -> (Option<Seq<char>>, bool, bool, Option<(i64, Seq<char>)>) {
    if method == "initialize"@ {
        (Some(initialize_spec(version)), false, false, None)
    } else if method == "notifications/initialized"@ {
        (None, true, false, None)
    } else if method == "ping"@ {
        (Some("{}"@), false, false, None)
    } else if method == "tools/list"@ {
        (Some(TOOLS_LIST@), false, false, None)
    } else if method == "tools/call"@ {
        (None, false, true, None)
    } else {
        (None, false, false, Some((METHOD_NOT_FOUND, "method not found: "@ + method)))
    }
}

impl Dispatch {
    /// The reply as (result, notification, tool call, error).
    pub open spec fn spec_parts(self) -> (Option<Seq<char>>, bool, bool, Option<(i64, Seq<char>)>) {
        match self {
            Dispatch::Reply(t) => (Some(t@), false, false, None),
            Dispatch::Notification => (None, true, false, None),
            Dispatch::CallTool => (None, false, true, None),
            Dispatch::Failure(c, m) => (None, false, false, Some((c, m@))),
        }
    }
}

/// Chooses the reply to a method; `version` is the server's own version.
pub fn dispatch(method: &str, version: &str) -> (r: Dispatch)
    ensures
        r.spec_parts() == dispatch_spec(method@, version@),
{
    if str_eq(method, "initialize") {
        let mut t = "{\"capabilities\":{\"tools\":{}},\"protocolVersion\":\"2024-11-05\",\"serverInfo\":{\"name\":\"cotrex\",\"version\":".to_string();
        push_str(&mut t, json_quote(version).as_str());
        push_str(&mut t, "}}");
        Dispatch::Reply(t)
    } else if str_eq(method, "notifications/initialized") {
        Dispatch::Notification
    } else if str_eq(method, "ping") {
        Dispatch::Reply("{}".to_string())
    } else if str_eq(method, "tools/list") {
        Dispatch::Reply(TOOLS_LIST.to_string())
    } else if str_eq(method, "tools/call") {
        Dispatch::CallTool
    } else {
        let mut m = "method not found: ".to_string();
        push_str(&mut m, method);
        Dispatch::Failure(METHOD_NOT_FOUND, m)
    }
}

/// The frame that answers a request with id `id`: its result, or its error.
pub open spec fn reply_spec(id: Seq<char>, outcome: Result<Seq<char>, (i64, Seq<char>)>) -> Seq<char> {
    match outcome {
        Ok(result) => "{\"id\":"@ + id + ",\"jsonrpc\":\"2.0\",\"result\":"@ + result + "}"@,
        Err((code, message)) => "{\"error\":{\"code\":"@ + int_seq(code as int) + ",\"message\":"@
            + json_quote_spec(message) + "},\"id\":"@ + id + ",\"jsonrpc\":\"2.0\"}"@,
    }
}

/// The frame to send for a request's outcome; a request without an id gets none.
pub fn reply(id: &Option<String>, outcome: &Result<String, (i64, String)>) -> (r: Option<String>)
    ensures
        match id {
            Some(i) => r matches Some(f) && f@ == reply_spec(
                i@,
                match outcome {
                    Ok(t) => Ok(t@),
                    Err((c, m)) => Err((*c, m@)),
                },
            ),
            None => r is None,
        },
{
    match id {
        None => None,
        Some(i) => {
            let mut f = String::new();
            match outcome {
                Ok(result) => {
                    push_str(&mut f, "{\"id\":");
                    push_str(&mut f, i.as_str());
                    push_str(&mut f, ",\"jsonrpc\":\"2.0\",\"result\":");
                    push_str(&mut f, result.as_str());
                    push_str(&mut f, "}");
                },
                Err((code, message)) => {
                    push_str(&mut f, "{\"error\":{\"code\":");
                    push_int(&mut f, *code);
                    push_str(&mut f, ",\"message\":");
                    push_str(&mut f, json_quote(message.as_str()).as_str());
                    push_str(&mut f, "},\"id\":");
                    push_str(&mut f, i.as_str());
                    push_str(&mut f, ",\"jsonrpc\":\"2.0\"}");
                },
            }
            Some(f)
        },
    }
}

// ---------------------------------------------------------------------------
// Tool calls
// ---------------------------------------------------------------------------

/// The JSON text of argument `key` of a `tools/call`.
pub open spec fn arg_text(params: Seq<char>, key: Seq<char>) -> Option<Seq<char>> {
    match member_text(params, "arguments"@) {
        Some(a) => member_text(a, key),
        None => None,
    }
}

/// The value of argument `key`.
pub open spec fn arg_model(params: Seq<char>, key: Seq<char>) -> Option<JsonModel> {
    match arg_text(params, key) {
        Some(t) => match serde_json_from_str(t) {
            Ok(m) => Some(m),
            Err(_) => None,
        },
        None => None,
    }
}

/// Argument `key` when it is a string, else `d`.
pub open spec fn arg_or(params: Seq<char>, key: Seq<char>, d: Seq<char>) -> Seq<char> {
    match arg_model(params, key) {
        Some(JsonModel::Str(s)) => s,
        _ => d,
    }
}

/// Argument `key` when it is a string, trimmed; empty when absent.
pub open spec fn arg_trim(params: Seq<char>, key: Seq<char>) -> Seq<char> {
    trim_seq(arg_or(params, key, seq![]))
}

/// Argument `key` when it is a boolean, else `false`.
pub open spec fn arg_bool(params: Seq<char>, key: Seq<char>) -> bool {
    match arg_model(params, key) {
        Some(JsonModel::Bool(b)) => b,
        _ => false,
    }
}

/// Argument `key` when it is a number written as a `u64`.
pub open spec fn arg_u64(params: Seq<char>, key: Seq<char>) -> Option<u64> {
    match arg_model(params, key) {
        Some(JsonModel::Number(t)) => parse_u64_spec(t),
        _ => None,
    }
}

/// The `i64` that a number's text denotes, if it denotes one.
pub open spec fn number_i64(t: Seq<char>) -> Option<i64> {
    if t.len() > 0 && t[0] == '-' {
        match parse_u64_spec(t.drop_first()) {
            Some(n) => if n <= 9223372036854775808u64 {
                Some((0 - n) as i64)
            } else {
                None
            },
            None => None,
        }
    } else {
        match parse_u64_spec(t) {
            Some(n) => if n <= i64::MAX {
                Some(n as i64)
            } else {
                None
            },
            None => None,
        }
    }
}

/// Argument `key` when it is a number written as an `i64`.
pub open spec fn arg_i64(params: Seq<char>, key: Seq<char>) -> Option<i64> {
    match arg_model(params, key) {
        Some(JsonModel::Number(t)) => number_i64(t),
        _ => None,
    }
}

/// The strings among the elements of an array, in order.
pub open spec fn strings_among(items: Seq<Seq<char>>) -> Seq<Seq<char>>
    decreases items.len(),
{
    if items.len() == 0 {
        seq![]
    } else {
        let rest = strings_among(items.drop_last());
        match text_as_str(items.last()) {
            Some(s) => rest.push(s),
            None => rest,
        }
    }
}

/// The string elements of argument `key` when it is an array, else none.
pub open spec fn arg_strings(params: Seq<char>, key: Seq<char>) -> Seq<Seq<char>> {
    match arg_model(params, key) {
        Some(JsonModel::Array(items)) => strings_among(items),
        _ => seq![],
    }
}

/// The tool that a `tools/call` names; empty when it names none.
pub open spec fn tool_name(params: Seq<char>) -> Seq<char> {
    match member_text(params, "name"@) {
        Some(t) => match text_as_str(t) {
            Some(s) => s,
            None => seq![],
        },
        None => seq![],
    }
}

/// A format the knowledge graph exports to.
#[derive(Clone, Copy, PartialEq, Eq, Structural, Debug)]
pub enum ExportFormat {
    Svg,
    Graphml,
    Neo4j,
}

/// A `tools/call` with its arguments checked: the work to do, or the error to answer with.
pub enum ToolCall {
    Run { command: String },
    SetAgent { agent: String },
    ListRoles,
    Delegate { task: String },
    Plan { task: String },
    Usage,
    GraphQuery { question: String, dfs: bool, budget: u32 },
    GraphPath { node_a: String, node_b: String },
    GraphExplain { node_name: String },
    GraphAdd { url: String, author: String, contributor: String },
    GraphSave { question: String, answer: String, result_type: String, nodes: Vec<String> },
    GraphExport { format: ExportFormat },
    BuildSummary { command: String, exit_code: i32, stdout: String, stderr: String, prompt: String },
    ExplainRust { source: String, question: String, prompt: String },
    WorkspaceContext,
    /// Answer with this tool error.
    Refused(String),
}

/// The mathematical form of a [`ToolCall`].
pub enum ToolCallView {
    Run { command: Seq<char> },
    SetAgent { agent: Seq<char> },
    ListRoles,
    Delegate { task: Seq<char> },
    Plan { task: Seq<char> },
    Usage,
    GraphQuery { question: Seq<char>, dfs: bool, budget: u32 },
    GraphPath { node_a: Seq<char>, node_b: Seq<char> },
    GraphExplain { node_name: Seq<char> },
    GraphAdd { url: Seq<char>, author: Seq<char>, contributor: Seq<char> },
    GraphSave { question: Seq<char>, answer: Seq<char>, result_type: Seq<char>, nodes: Seq<Seq<char>> },
    GraphExport { format: ExportFormat },
    BuildSummary { command: Seq<char>, exit_code: i32, stdout: Seq<char>, stderr: Seq<char>, prompt: Seq<char> },
    ExplainRust { source: Seq<char>, question: Seq<char>, prompt: Seq<char> },
    WorkspaceContext,
    Refused(Seq<char>),
}

pub open spec fn str_views(v: Seq<String>) -> Seq<Seq<char>> {
    v.map_values(|s: String| s@)
}

impl View for ToolCall {
    type V = ToolCallView;

    open spec fn view(&self) -> ToolCallView {
        match self {
            ToolCall::Run { command } => ToolCallView::Run { command: command@ },
            ToolCall::SetAgent { agent } => ToolCallView::SetAgent { agent: agent@ },
            ToolCall::ListRoles => ToolCallView::ListRoles,
            ToolCall::Delegate { task } => ToolCallView::Delegate { task: task@ },
            ToolCall::Plan { task } => ToolCallView::Plan { task: task@ },
            ToolCall::Usage => ToolCallView::Usage,
            ToolCall::GraphQuery { question, dfs, budget } => ToolCallView::GraphQuery {
                question: question@,
                dfs: *dfs,
                budget: *budget,
            },
            ToolCall::GraphPath { node_a, node_b } => ToolCallView::GraphPath {
                node_a: node_a@,
                node_b: node_b@,
            },
            ToolCall::GraphExplain { node_name } => ToolCallView::GraphExplain {
                node_name: node_name@,
            },
            ToolCall::GraphAdd { url, author, contributor } => ToolCallView::GraphAdd {
                url: url@,
                author: author@,
                contributor: contributor@,
            },
            ToolCall::GraphSave { question, answer, result_type, nodes } => ToolCallView::GraphSave {
                question: question@,
                answer: answer@,
                result_type: result_type@,
                nodes: str_views(nodes@),
            },
            ToolCall::GraphExport { format } => ToolCallView::GraphExport { format: *format },
            ToolCall::BuildSummary { command, exit_code, stdout, stderr, prompt } => ToolCallView::BuildSummary {
                command: command@,
                exit_code: *exit_code,
                stdout: stdout@,
                stderr: stderr@,
                prompt: prompt@,
            },
            ToolCall::ExplainRust { source, question, prompt } => ToolCallView::ExplainRust {
                source: source@,
                question: question@,
                prompt: prompt@,
            },
            ToolCall::WorkspaceContext => ToolCallView::WorkspaceContext,
            ToolCall::Refused(m) => ToolCallView::Refused(m@),
        }
    }
}

/// A required string argument, trimmed: the call it makes, or the error for its absence.
pub open spec fn required(params: Seq<char>, key: Seq<char>, make: spec_fn(Seq<char>) -> ToolCallView) -> ToolCallView {
    let v = arg_trim(params, key);
    if v.len() == 0 {
        ToolCallView::Refused("missing required argument '"@ + key + "'"@)
    } else {
        make(v)
    }
}

/// The knowledge-graph calls.
pub open spec fn graph_route(name: Seq<char>, params: Seq<char>) -> ToolCallView {
    if name == "graphify"@ {
        let q = arg_trim(params, "question"@);
        if q.len() == 0 {
            ToolCallView::Refused("missing required argument 'question'"@)
        } else {
            ToolCallView::GraphQuery {
                question: q,
                dfs: arg_bool(params, "dfs"@),
                budget: match arg_u64(params, "budget"@) {
                    Some(n) => n as u32,
                    None => 2000,
                },
            }
        }
    } else if name == "graphify_path"@ {
        let a = arg_trim(params, "node_a"@);
        let b = arg_trim(params, "node_b"@);
        if a.len() == 0 || b.len() == 0 {
            ToolCallView::Refused("missing required arguments 'node_a' and 'node_b'"@)
        } else {
            ToolCallView::GraphPath { node_a: a, node_b: b }
        }
    } else if name == "graphify_explain"@ {
        required(params, "node_name"@, |v: Seq<char>| ToolCallView::GraphExplain { node_name: v })
    } else if name == "graphify_add"@ {
        required(
            params,
            "url"@,
            |v: Seq<char>|
                ToolCallView::GraphAdd {
                    url: v,
                    author: arg_trim(params, "author"@),
                    contributor: arg_trim(params, "contributor"@),
                },
        )
    } else if name == "graphify_save_result"@ {
        let q = arg_trim(params, "question"@);
        let a = arg_trim(params, "answer"@);
        if q.len() == 0 || a.len() == 0 {
            ToolCallView::Refused("missing required arguments 'question' and 'answer'"@)
        } else {
            ToolCallView::GraphSave {
                question: q,
                answer: a,
                result_type: trim_seq(arg_or(params, "result_type"@, "query"@)),
                nodes: arg_strings(params, "nodes"@),
            }
        }
    } else {
        let f = arg_trim(params, "format"@);
        if f == "svg"@ {
            ToolCallView::GraphExport { format: ExportFormat::Svg }
        } else if f == "graphml"@ {
            ToolCallView::GraphExport { format: ExportFormat::Graphml }
        } else if f == "neo4j"@ {
            ToolCallView::GraphExport { format: ExportFormat::Neo4j }
        } else {
            ToolCallView::Refused(
                "unknown export format: "@ + f + ". Supported: svg, graphml, neo4j"@,
            )
        }
    }
}

/// The calls that need the inference runtime.
pub open spec fn runtime_route(name: Seq<char>, params: Seq<char>, has_runtime: bool) -> ToolCallView {
    if !has_runtime {
        ToolCallView::Refused("Orchestrator not initialized."@)
    } else if name == "cotrex_build_summary"@ {
        ToolCallView::BuildSummary {
            command: arg_or(params, "command"@, seq![]),
            exit_code: match arg_i64(params, "exit_code"@) {
                Some(n) => #[verifier::truncate] (n as i32),
                None => 0,
            },
            stdout: arg_or(params, "stdout"@, seq![]),
            stderr: arg_or(params, "stderr"@, seq![]),
            prompt: arg_or(params, "prompt"@, "Summarize this build output concisely."@),
        }
    } else if name == "cotrex_explain_rust"@ {
        let source = arg_or(params, "source"@, seq![]);
        let question = arg_or(params, "question"@, "Explain what this code does"@);
        ToolCallView::ExplainRust {
            source,
            question,
            prompt: "Explain this Rust code:\n"@ + source + "\n\nQuestion: "@ + question,
        }
    } else {
        ToolCallView::WorkspaceContext
    }
}

/// Which tool a `tools/call` reaches and with which arguments; `has_runtime` says whether an
/// inference runtime is attached.
pub open spec fn route_spec(params: Seq<char>, has_runtime: bool) -> ToolCallView {
    let name = tool_name(params);
    if name == "run"@ {
        required(params, "command"@, |v: Seq<char>| ToolCallView::Run { command: v })
    } else if name == "set_agent"@ {
        required(params, "agent"@, |v: Seq<char>| ToolCallView::SetAgent { agent: v })
    } else if name == "list_roles"@ {
        ToolCallView::ListRoles
    } else if name == "delegate"@ {
        required(params, "task"@, |v: Seq<char>| ToolCallView::Delegate { task: v })
    } else if name == "plan"@ {
        required(params, "task"@, |v: Seq<char>| ToolCallView::Plan { task: v })
    } else if name == "usage"@ {
        ToolCallView::Usage
    } else if name == "graphify"@ || name == "graphify_path"@ || name == "graphify_explain"@
        || name == "graphify_add"@ || name == "graphify_save_result"@ || name
        == "graphify_export"@ {
        graph_route(name, params)
    } else if name == "cotrex_build_summary"@ || name == "cotrex_explain_rust"@ || name
        == "workspace_context"@ {
        runtime_route(name, params, has_runtime)
    } else {
        ToolCallView::Refused("unknown tool: "@ + name)
    }
}

/// No tool is reached without its required arguments: each routed call carries them non-empty,
/// and the inference tools are reached only when a runtime is attached.
pub proof fn law_routed_calls_are_complete(params: Seq<char>, has_runtime: bool)
    ensures
        match route_spec(params, has_runtime) {
            ToolCallView::Run { command } => command.len() > 0,
            ToolCallView::SetAgent { agent } => agent.len() > 0,
            ToolCallView::Delegate { task } => task.len() > 0,
            ToolCallView::Plan { task } => task.len() > 0,
            ToolCallView::GraphQuery { question, .. } => question.len() > 0,
            ToolCallView::GraphPath { node_a, node_b } => node_a.len() > 0 && node_b.len() > 0,
            ToolCallView::GraphExplain { node_name } => node_name.len() > 0,
            ToolCallView::GraphAdd { url, .. } => url.len() > 0,
            ToolCallView::GraphSave { question, answer, .. } => question.len() > 0 && answer.len()
                > 0,
            ToolCallView::BuildSummary { .. } => has_runtime,
            ToolCallView::ExplainRust { .. } => has_runtime,
            ToolCallView::WorkspaceContext => has_runtime,
            _ => true,
        },
{
}

/// The name a graph export format goes by.
pub open spec fn format_name(f: ExportFormat) -> Seq<char> {
    match f {
        ExportFormat::Svg => "svg"@,
        ExportFormat::Graphml => "graphml"@,
        ExportFormat::Neo4j => "neo4j"@,
    }
}

/// `graphify_export` exports to the format its trimmed `format` argument names, and to no
/// other: each of `svg`, `graphml` and `neo4j` reaches the export of that name, and an export is
/// reached only through its own name.
pub proof fn law_export_format_by_name(params: Seq<char>, has_runtime: bool, f: ExportFormat)
    requires
        tool_name(params) == "graphify_export"@,
    ensures
        arg_trim(params, "format"@) == format_name(f) ==> route_spec(params, has_runtime) == (
        ToolCallView::GraphExport { format: f }),
        route_spec(params, has_runtime) == (ToolCallView::GraphExport { format: f }) ==> arg_trim(
            params,
            "format"@,
        ) == format_name(f),
{
    reveal_strlit("svg");
    reveal_strlit("graphml");
    reveal_strlit("neo4j");
    reveal_strlit("graphify_export");
    reveal_strlit("run");
    reveal_strlit("set_agent");
    reveal_strlit("list_roles");
    reveal_strlit("delegate");
    reveal_strlit("plan");
    reveal_strlit("usage");
    reveal_strlit("graphify");
    reveal_strlit("graphify_path");
    reveal_strlit("graphify_explain");
    reveal_strlit("graphify_add");
    reveal_strlit("graphify_save_result");
    reveal_strlit("cotrex_build_summary");
    reveal_strlit("cotrex_explain_rust");
    reveal_strlit("workspace_context");
    let n = tool_name(params);
    assert(n.len() == 15);
    assert(n != "run"@ && n != "set_agent"@ && n != "list_roles"@ && n != "delegate"@ && n
        != "plan"@ && n != "usage"@);
    assert(n != "graphify"@ && n != "graphify_path"@ && n != "graphify_explain"@ && n
        != "graphify_add"@ && n != "graphify_save_result"@);
    assert(format_name(f) == "svg"@ || format_name(f) == "graphml"@ || format_name(f)
        == "neo4j"@);
    assert("svg"@.len() == 3 && "graphml"@.len() == 7 && "neo4j"@.len() == 5);
}

/// The JSON text of member `key` of the value that `t` denotes.
fn member_of(t: &str, key: &str) -> (r: Option<String>)
    ensures
        opt_view(r) == member_text(t@, key@),
{
    match parse(t) {
        Ok(v) => v.get(key),
        Err(_) => None,
    }
}

/// The value of argument `key` of a `tools/call`.
fn argument(params: &str, key: &str) -> (r: Option<JsonValue>)
    ensures
        match r {
            Some(v) => arg_model(params@, key@) == Some(v@),
            None => arg_model(params@, key@) is None,
        },
{
    match member_of(params, "arguments") {
        Some(a) => match member_of(a.as_str(), key) {
            Some(t) => match parse(t.as_str()) {
                Ok(v) => Some(v),
                Err(_) => None,
            },
            None => None,
        },
        None => None,
    }
}

fn arg_or_exec(params: &str, key: &str, d: &str) -> (r: String)
    ensures
        r@ == arg_or(params@, key@, d@),
{
    match argument(params, key) {
        Some(JsonValue::Str(s)) => s,
        _ => d.to_string(),
    }
}

fn arg_trim_exec(params: &str, key: &str) -> (r: String)
    ensures
        r@ == arg_trim(params@, key@),
{
    proof {
        reveal_strlit("");
    }
    let v = arg_or_exec(params, key, "");
    string_of(&trim(&chars_of(v.as_str())))
}

/// A required string argument, trimmed, or the error for its absence.
fn required_arg(params: &str, key: &str) -> (r: Result<String, String>)
    ensures
        match r {
            Ok(v) => v@ == arg_trim(params@, key@) && v@.len() > 0,
            Err(m) => arg_trim(params@, key@).len() == 0 && m@ == "missing required argument '"@
                + key@ + "'"@,
        },
{
    let v = arg_trim_exec(params, key);
    let c = chars_of(v.as_str());
    if c.len() == 0 {
        let mut m = "missing required argument '".to_string();
        push_str(&mut m, key);
        push_str(&mut m, "'");
        Err(m)
    } else {
        Ok(v)
    }
}

fn arg_bool_exec(params: &str, key: &str) -> (r: bool)
    ensures
        r == arg_bool(params@, key@),
{
    match argument(params, key) {
        Some(JsonValue::Bool(b)) => b,
        _ => false,
    }
}

fn arg_u64_exec(params: &str, key: &str) -> (r: Option<u64>)
    ensures
        r == arg_u64(params@, key@),
{
    match argument(params, key) {
        Some(JsonValue::Number(t)) => parse_u64(t.as_str()),
        _ => None,
    }
}

/// The `i64` that a number's text denotes.
pub fn parse_i64(t: &str) -> (r: Option<i64>)
    ensures
        r == number_i64(t@),
{
    let c = chars_of(t);
    if c.len() > 0 && c[0] == '-' {
        let rest = string_of(&slice(&c, 1, c.len()));
        assert(rest@ =~= t@.drop_first());
        match parse_u64(rest.as_str()) {
            Some(n) => if n <= 9223372036854775808u64 {
                if n == 9223372036854775808u64 {
                    Some(i64::MIN)
                } else {
                    let k = n as i64;
                    Some(-k)
                }
            } else {
                None
            },
            None => None,
        }
    } else {
        match parse_u64(t) {
            Some(n) => if n <= 9223372036854775807u64 {
                Some(n as i64)
            } else {
                None
            },
            None => None,
        }
    }
}

fn arg_i64_exec(params: &str, key: &str) -> (r: Option<i64>)
    ensures
        r == arg_i64(params@, key@),
{
    match argument(params, key) {
        Some(JsonValue::Number(t)) => parse_i64(t.as_str()),
        _ => None,
    }
}

fn strings_among_exec(items: &Vec<String>) -> (r: Vec<String>)
    ensures
        str_views(r@) == strings_among(str_views(items@)),
{
    let ghost all = str_views(items@);
    let mut r: Vec<String> = Vec::new();
    let mut i: usize = 0;
    assert(all.take(0) =~= seq![]);
    assert(str_views(r@) =~= seq![]);
    while i < items.len()
        invariant
            i <= items.len(),
            all == str_views(items@),
            str_views(r@) == strings_among(all.take(i as int)),
        decreases items.len() - i,
    {
        assert(all.take(i + 1).drop_last() =~= all.take(i as int));
        assert(all.take(i + 1).last() == items@[i as int]@);
        match text_str(&items[i]) {
            Some(s) => {
                r.push(s);
                assert(str_views(r@) =~= strings_among(all.take(i as int)).push(s@));
            },
            None => {},
        }
        i = i + 1;
    }
    assert(all.take(items.len() as int) =~= all);
    r
}

fn arg_strings_exec(params: &str, key: &str) -> (r: Vec<String>)
    ensures
        str_views(r@) == arg_strings(params@, key@),
{
    match argument(params, key) {
        Some(JsonValue::Array(items)) => {
            let r = strings_among_exec(&items);
            assert(str_views(items@) =~= items@.map_values(|s: String| string_view(s)));
            r
        },
        _ => {
            let r: Vec<String> = Vec::new();
            assert(str_views(r@) =~= seq![]);
            r
        },
    }
}

fn graph_call(name: &str, params: &str) -> (r: ToolCall)
    requires
        name@ == "graphify"@ || name@ == "graphify_path"@ || name@ == "graphify_explain"@ || name@
            == "graphify_add"@ || name@ == "graphify_save_result"@ || name@ == "graphify_export"@,
    ensures
        r@ == graph_route(name@, params@),
{
    if str_eq(name, "graphify") {
        let q = arg_trim_exec(params, "question");
        if chars_of(q.as_str()).len() == 0 {
            return ToolCall::Refused("missing required argument 'question'".to_string());
        }
        let dfs = arg_bool_exec(params, "dfs");
        let budget: u32 = match arg_u64_exec(params, "budget") {
            Some(n) => n as u32,
            None => 2000,
        };
        ToolCall::GraphQuery { question: q, dfs, budget }
    } else if str_eq(name, "graphify_path") {
        let a = arg_trim_exec(params, "node_a");
        let b = arg_trim_exec(params, "node_b");
        if chars_of(a.as_str()).len() == 0 || chars_of(b.as_str()).len() == 0 {
            return ToolCall::Refused("missing required arguments 'node_a' and 'node_b'".to_string());
        }
        ToolCall::GraphPath { node_a: a, node_b: b }
    } else if str_eq(name, "graphify_explain") {
        match required_arg(params, "node_name") {
            Ok(v) => ToolCall::GraphExplain { node_name: v },
            Err(m) => ToolCall::Refused(m),
        }
    } else if str_eq(name, "graphify_add") {
        match required_arg(params, "url") {
            Ok(v) => ToolCall::GraphAdd {
                url: v,
                author: arg_trim_exec(params, "author"),
                contributor: arg_trim_exec(params, "contributor"),
            },
            Err(m) => ToolCall::Refused(m),
        }
    } else if str_eq(name, "graphify_save_result") {
        let q = arg_trim_exec(params, "question");
        let a = arg_trim_exec(params, "answer");
        if chars_of(q.as_str()).len() == 0 || chars_of(a.as_str()).len() == 0 {
            return ToolCall::Refused(
                "missing required arguments 'question' and 'answer'".to_string(),
            );
        }
        let rt = arg_or_exec(params, "result_type", "query");
        let result_type = string_of(&trim(&chars_of(rt.as_str())));
        let nodes = arg_strings_exec(params, "nodes");
        ToolCall::GraphSave { question: q, answer: a, result_type, nodes }
    } else {
        let f = arg_trim_exec(params, "format");
        if str_eq(f.as_str(), "svg") {
            ToolCall::GraphExport { format: ExportFormat::Svg }
        } else if str_eq(f.as_str(), "graphml") {
            ToolCall::GraphExport { format: ExportFormat::Graphml }
        } else if str_eq(f.as_str(), "neo4j") {
            ToolCall::GraphExport { format: ExportFormat::Neo4j }
        } else {
            let mut m = "unknown export format: ".to_string();
            push_str(&mut m, f.as_str());
            push_str(&mut m, ". Supported: svg, graphml, neo4j");
            ToolCall::Refused(m)
        }
    }
}

fn runtime_call(name: &str, params: &str, has_runtime: bool) -> (r: ToolCall)
    requires
        name@ == "cotrex_build_summary"@ || name@ == "cotrex_explain_rust"@ || name@
            == "workspace_context"@,
    ensures
        r@ == runtime_route(name@, params@, has_runtime),
{
    proof {
        reveal_strlit("");
        assert(""@ =~= Seq::<char>::empty());
    }
    if !has_runtime {
        ToolCall::Refused("Orchestrator not initialized.".to_string())
    } else if str_eq(name, "cotrex_build_summary") {
        let exit_code: i32 = match arg_i64_exec(params, "exit_code") {
            Some(n) => #[verifier::truncate] (n as i32),
            None => 0,
        };
        ToolCall::BuildSummary {
            command: arg_or_exec(params, "command", ""),
            exit_code,
            stdout: arg_or_exec(params, "stdout", ""),
            stderr: arg_or_exec(params, "stderr", ""),
            prompt: arg_or_exec(params, "prompt", "Summarize this build output concisely."),
        }
    } else if str_eq(name, "cotrex_explain_rust") {
        let source = arg_or_exec(params, "source", "");
        let question = arg_or_exec(params, "question", "Explain what this code does");
        let mut prompt = "Explain this Rust code:\n".to_string();
        push_str(&mut prompt, source.as_str());
        push_str(&mut prompt, "\n\nQuestion: ");
        push_str(&mut prompt, question.as_str());
        ToolCall::ExplainRust { source, question, prompt }
    } else {
        ToolCall::WorkspaceContext
    }
}

/// Routes a `tools/call` (its params as JSON text) to its tool, with the arguments checked as
/// each tool checks them; `has_runtime` says whether an inference runtime is attached.
pub fn route_tool(params: &str, has_runtime: bool) -> (r: ToolCall)
    ensures
        r@ == route_spec(params@, has_runtime),
{
    let name = match member_of(params, "name") {
        Some(t) => match text_str(&t) {
            Some(s) => s,
            None => String::new(),
        },
        None => String::new(),
    };
    let n = name.as_str();
    if str_eq(n, "run") {
        match required_arg(params, "command") {
            Ok(v) => ToolCall::Run { command: v },
            Err(m) => ToolCall::Refused(m),
        }
    } else if str_eq(n, "set_agent") {
        match required_arg(params, "agent") {
            Ok(v) => ToolCall::SetAgent { agent: v },
            Err(m) => ToolCall::Refused(m),
        }
    } else if str_eq(n, "list_roles") {
        ToolCall::ListRoles
    } else if str_eq(n, "delegate") {
        match required_arg(params, "task") {
            Ok(v) => ToolCall::Delegate { task: v },
            Err(m) => ToolCall::Refused(m),
        }
    } else if str_eq(n, "plan") {
        match required_arg(params, "task") {
            Ok(v) => ToolCall::Plan { task: v },
            Err(m) => ToolCall::Refused(m),
        }
    } else if str_eq(n, "usage") {
        ToolCall::Usage
    } else if str_eq(n, "graphify") || str_eq(n, "graphify_path") || str_eq(n, "graphify_explain")
        || str_eq(n, "graphify_add") || str_eq(n, "graphify_save_result") || str_eq(
        n,
        "graphify_export",
    ) {
        graph_call(n, params)
    } else if str_eq(n, "cotrex_build_summary") || str_eq(n, "cotrex_explain_rust") || str_eq(
        n,
        "workspace_context",
    ) {
        runtime_call(n, params, has_runtime)
    } else {
        let mut m = "unknown tool: ".to_string();
        push_str(&mut m, n);
        ToolCall::Refused(m)
    }
}

// ---------------------------------------------------------------------------
// Tool results
// ---------------------------------------------------------------------------

/// One text item of a tool result's content.
pub open spec fn item_spec(t: Seq<char>) -> Seq<char> {
    "{\"text\":"@ + json_quote_spec(t) + ",\"type\":\"text\"}"@
}

/// The content array of a tool result: one text item per text, in order.
pub open spec fn content_spec(ts: Seq<Seq<char>>) -> Seq<char> {
    "["@ + join_with(ts.map_values(|t: Seq<char>| item_spec(t)), ","@) + "]"@
}

/// A tool result: its text items, and whether it reports an error.
pub open spec fn tool_result_spec(ts: Seq<Seq<char>>, is_error: bool) -> Seq<char> {
    "{\"content\":"@ + content_spec(ts) + ",\"isError\":"@ + bool_text(is_error) + "}"@
}

fn content_exec(texts: &Vec<String>) -> (r: String)
    ensures
        r@ == content_spec(str_views(texts@)),
{
    let ghost ts = str_views(texts@);
    let ghost items = ts.map_values(|t: Seq<char>| item_spec(t));
    let mut parts: Vec<Vec<char>> = Vec::new();
    let mut i: usize = 0;
    while i < texts.len()
        invariant
            i <= texts.len(),
            ts == str_views(texts@),
            items == ts.map_values(|t: Seq<char>| item_spec(t)),
            seqs(parts@) =~= items.take(i as int),
        decreases texts.len() - i,
    {
        let mut item = "{\"text\":".to_string();
        push_str(&mut item, json_quote(texts[i].as_str()).as_str());
        push_str(&mut item, ",\"type\":\"text\"}");
        let ghost before = parts@;
        parts.push(chars_of(item.as_str()));
        assert(seqs(parts@) =~= seqs(before).push(item@));
        assert(items.take(i + 1) =~= items.take(i as int).push(items[i as int]));
        i = i + 1;
    }
    assert(items.take(texts.len() as int) =~= items);
    let mut r = "[".to_string();
    push_chars(&mut r, &join_chars(&parts, ","));
    push_str(&mut r, "]");
    r
}

/// A tool result with the given text items.
pub fn tool_result(texts: &Vec<String>, is_error: bool) -> (r: String)
    ensures
        r@ == tool_result_spec(str_views(texts@), is_error),
{
    let mut r = "{\"content\":".to_string();
    push_str(&mut r, content_exec(texts).as_str());
    push_str(&mut r, ",\"isError\":");
    push_str(&mut r, if is_error { "true" } else { "false" });
    push_str(&mut r, "}");
    r
}

/// A tool result of one text.
pub fn tool_text(text: &str, is_error: bool) -> (r: String)
    ensures
        r@ == tool_result_spec(seq![text@], is_error),
{
    let v = vec![text.to_string()];
    assert(str_views(v@) =~= seq![text@]);
    tool_result(&v, is_error)
}

/// The tool result that reports an error: its text is `error: ` and the message.
pub fn tool_error(msg: &str) -> (r: String)
    ensures
        r@ == tool_result_spec(seq!["error: "@ + msg@], true),
{
    let mut t = "error: ".to_string();
    push_str(&mut t, msg);
    tool_text(t.as_str(), true)
}

/// The tool result for a tool's output: the text, or the error.
pub fn tool_outcome(outcome: &Result<String, String>) -> (r: String)
    ensures
        r@ == match outcome {
            Ok(t) => tool_result_spec(seq![t@], false),
            Err(e) => tool_result_spec(seq!["error: "@ + e@], true),
        },
{
    match outcome {
        Ok(t) => tool_text(t.as_str(), false),
        Err(e) => tool_error(e.as_str()),
    }
}

/// The result of `set_agent`, once the choice was saved or failed to save.
pub fn set_agent_result(agent: &str, saved: &Result<(), String>) -> (r: String)
    ensures
        r@ == match saved {
            Ok(_) => tool_result_spec(
                seq![
                    "Agent set to '"@ + agent@
                        + "'. Installing the graphify skill for it in the background."@,
                ],
                false,
            ),
            Err(e) => tool_result_spec(seq!["error: "@ + ("could not save config: "@ + e@)], true),
        },
{
    match saved {
        Ok(_) => {
            let mut t = "Agent set to '".to_string();
            push_str(&mut t, agent);
            push_str(&mut t, "'. Installing the graphify skill for it in the background.");
            tool_text(t.as_str(), false)
        },
        Err(e) => {
            let mut m = "could not save config: ".to_string();
            push_str(&mut m, e.as_str());
            tool_error(m.as_str())
        },
    }
}

/// The roles there are, as pretty JSON: the one local assistant.
pub const ROLES: &'static str = "[\n  {\n    \"description\": \"Single local execution assistant\",\n    \"model\": \"local\",\n    \"name\": \"assistant\"\n  }\n]";

/// The result of `list_roles`.
pub fn roles_result() -> (r: String)
    ensures
        r@ == tool_result_spec(seq![ROLES@], false),
{
    tool_text(ROLES, false)
}

/// The result of `usage`: the summary, then the same figures as JSON on a line of their own.
pub fn usage_result(summary: &str, figures: &str) -> (r: String)
    ensures
        r@ == tool_result_spec(seq![summary@, "\n"@ + figures@], false),
{
    let mut second = "\n".to_string();
    push_str(&mut second, figures);
    let v = vec![summary.to_string(), second];
    assert(str_views(v@) =~= seq![summary@, "\n"@ + figures@]);
    tool_result(&v, false)
}

/// The note added to a `run` result when graph updates are on and no agent is known.
pub const AGENT_HINT: &'static str = "note: cotrex couldn't detect your agent, so the graphify code-map skill isn't installed. Call the set_agent tool with your platform id (e.g. codex, cursor, gemini) to enable it.";

/// The result of `run`: the command's output and the usage footer (and the agent note when
/// `hint`), an error when the exit code is not 0, and the usage figures, with a token counted
/// as four bytes.
pub open spec fn run_result_spec(
    command: Seq<char>,
    output: Seq<char>,
    footer: Seq<char>,
    code: i32,
    hint: bool,
    in_bytes: nat,
    out_bytes: nat,
) -> Seq<char> {
    let texts = if hint {
        seq![output, footer, AGENT_HINT@]
    } else {
        seq![output, footer]
    };
    "{\"content\":"@ + content_spec(texts) + ",\"isError\":"@ + bool_text(code != 0)
        + ",\"usage\":{\"command\":"@ + json_quote_spec(command) + ",\"exit_code\":"@ + int_seq(
        code as int,
    ) + ",\"input_bytes\":"@ + dec_seq(in_bytes) + ",\"output_bytes\":"@ + dec_seq(out_bytes)
        + ",\"status\":"@ + (if code == 0 {
        "\"ok\""@
    } else {
        "\"failed\""@
    }) + ",\"tokens_in\":"@ + dec_seq(in_bytes / 4) + ",\"tokens_out\":"@ + dec_seq(
        out_bytes / 4,
    ) + "}}"@
}

/// The result of `run` for a command that exited with `code`; `graph_auto` is the setting for
/// automatic graph updates and `agent_known` whether the agent is known.
pub fn run_result(
    command: &str,
    output: &str,
    footer: &str,
    code: i32,
    graph_auto: bool,
    agent_known: bool,
) -> (r: String)
    ensures
        r@ == run_result_spec(
            command@,
            output@,
            footer@,
            code,
            graph_auto && !agent_known,
            command.len() as nat,
            output.len() as nat,
        ),
{
    let hint = graph_auto && !agent_known;
    let mut texts = vec![output.to_string(), footer.to_string()];
    if hint {
        texts.push(AGENT_HINT.to_string());
    }
    assert(str_views(texts@) =~= (if hint {
        seq![output@, footer@, AGENT_HINT@]
    } else {
        seq![output@, footer@]
    }));
    let in_bytes = command.len();
    let out_bytes = output.len();
    let mut r = "{\"content\":".to_string();
    push_str(&mut r, content_exec(&texts).as_str());
    push_str(&mut r, ",\"isError\":");
    push_str(&mut r, if code != 0 { "true" } else { "false" });
    push_str(&mut r, ",\"usage\":{\"command\":");
    push_str(&mut r, json_quote(command).as_str());
    push_str(&mut r, ",\"exit_code\":");
    push_int(&mut r, code as i64);
    push_str(&mut r, ",\"input_bytes\":");
    push_decimal(&mut r, in_bytes as u64);
    push_str(&mut r, ",\"output_bytes\":");
    push_decimal(&mut r, out_bytes as u64);
    push_str(&mut r, ",\"status\":");
    push_str(&mut r, if code == 0 { "\"ok\"" } else { "\"failed\"" });
    push_str(&mut r, ",\"tokens_in\":");
    push_decimal(&mut r, (in_bytes / 4) as u64);
    push_str(&mut r, ",\"tokens_out\":");
    push_decimal(&mut r, (out_bytes / 4) as u64);
    push_str(&mut r, "}}");
    r
}

} // verus!
