//! Prompts for the agent: what a quoted argument asks for, the system prompt, how a model's reply
//! is read, and the text that the agent loop feeds back to the model.
//!
//! A single quoted argument is a *prompt*, not a command. Free text is a **task**: the model
//! turns it into shell commands or tool calls, the caller runs them, and their output is fed back
//! until the model answers. `category: text` (or a JSON object of several) instead asks for a
//! structured answer under that category's header.
use vstd::prelude::*;

use std::collections::VecDeque;

use crate::agent::tool::{
    builtin_tools, builtins, cap_spec, cap_with, resolve, resolve_spec, tool_description,
    tool_name, Tool,
};
use crate::json::{
    first_value, get_spec, get_str_spec, member_view, parse, serde_json_first_value,
    serde_json_from_str, JsonModel, JsonValue,
};
use crate::text::{
    chars_of, contains_any, contains_any_exec, contains_seq, find_from, find_seq, index_of, index_of_exec, int_seq,
    join_chars, join_with, lemma_find_seq, lemma_index_of, lower, lower_seq, matches_at, push_char,
    push_chars, push_int, push_str, seqs, slice, starts_with_any, starts_with_any_exec, starts_with_seq, str_eq,
    string_of, trim, trim_seq, views, lines_seq, split, split_seq,
};

verus! {

/// Who reads the output.
#[derive(Debug, Clone, Copy, PartialEq, Eq)]
pub enum Mode {
    /// A human: spinner, narration and rendered answers.
    User,
    /// Another model or agent: output only.
    Model,
}

/// The header bound to the `plan-stack` category.
pub const PLAN_STACK_HEADER: &'static str = "You recommend the single best application tech stack for a developer's task. Inspect the working directory first if it helps you decide. Answer with the stack name and one concise sentence of reasoning — nothing more.";

/// The header bound to the `theme` category.
pub const THEME_HEADER: &'static str = "You are a senior UI designer. Given a short style description, answer with a color palette (hex colors), a font, a few key effects, and one concise sentence of rationale.";

/// The system prompt used by every path of the agent.
pub const COTREX_SYSTEM_PROMPT: &'static str = "You are Cotrex, a local developer execution engine.\n\nYou operate inside the user's current working directory.\n\nYour job:\n- understand the request\n- inspect the local environment when information is required\n- execute requested developer actions\n- return useful, concise results\n- avoid guessing about files, code, configuration, or project state\n\nDo not create subagents or plans. Do not pretend to be multiple agents.\n\nEvery response MUST be exactly one valid JSON object.\nNever output markdown or explanations outside JSON.\n\nUse {\"answer\":\"text\"} for direct answers.\nUse {\"run\":\"command\",\"say\":\"short reason\"} for shell commands.\nUse {\"tool\":\"name\",\"args\":{},\"say\":\"short reason\"} ONLY for these built-in file tools: read, write, edit, glob, grep.\nNever invent tool names — if the action is not a file operation, use {\"run\":\"command\"} instead.\nPrefer tools for file operations and shell commands for everything else.";

/// The most commands the model may run before it must answer.
pub const MAX_STEPS: usize = 6;

/// The header bound to a category, if it is known.
pub open spec fn header_spec(category: Seq<char>) -> Option<Seq<char>> {
    if category == "plan-stack"@ {
        Some(PLAN_STACK_HEADER@)
    } else if category == "theme"@ {
        Some(THEME_HEADER@)
    } else {
        None
    }
}

/// The header (system prompt) bound to a category, if it is known.
pub fn header(category: &str) -> (r: Option<&'static str>)
    ensures
        match r {
            Some(h) => header_spec(category@) == Some(h@),
            None => header_spec(category@) is None,
        },
{
    if str_eq(category, "plan-stack") {
        Some(PLAN_STACK_HEADER)
    } else if str_eq(category, "theme") {
        Some(THEME_HEADER)
    } else {
        None
    }
}

/// The agent persona for a category: the default system prompt for an empty category, the
/// category's header for a known one, an error for any other.
pub fn category_header(category: &str) -> (r: Result<&'static str, String>)
    ensures
        category@.len() == 0 ==> (r matches Ok(h) && h@ == COTREX_SYSTEM_PROMPT@),
        category@.len() > 0 ==> match header_spec(category@) {
            Some(h) => (r matches Ok(x) && x@ == h),
            None => (r matches Err(e) && e@ == "unknown category '"@ + category@ + "'"@),
        },
{
    let c = chars_of(category);
    if c.len() == 0 {
        Ok(COTREX_SYSTEM_PROMPT)
    } else {
        match header(category) {
            Some(h) => Ok(h),
            None => {
                let mut m = String::new();
                push_str(&mut m, "unknown category '");
                push_str(&mut m, category);
                push_str(&mut m, "'");
                Err(m)
            },
        }
    }
}

/// The decision system prompt.
pub fn decision_system() -> (r: &'static str)
    ensures
        r@ == COTREX_SYSTEM_PROMPT@,
{
    COTREX_SYSTEM_PROMPT
}

/// The shell note for the platform the commands run on.
pub open spec fn short_shell_note(windows: bool) -> Seq<char> {
    if windows {
        "Any command runs in Windows PowerShell — use PowerShell cmdlets and syntax."@
    } else {
        "Any command runs in a POSIX bash shell — use POSIX tools."@
    }
}

/// The system prompt followed by a blank line and a shell note.
pub open spec fn system_prompt_spec(shell: Seq<char>) -> Seq<char> {
    COTREX_SYSTEM_PROMPT@ + "\n\n"@ + shell
}

/// The system prompt with a target-shell note after it.
pub fn build_system_prompt(shell: &str) -> (r: String)
    ensures
        r@ == system_prompt_spec(shell@),
{
    let mut s = String::new();
    push_str(&mut s, COTREX_SYSTEM_PROMPT);
    push_str(&mut s, "\n\n");
    push_str(&mut s, shell);
    s
}

/// The decision system prompt with the note for the shell that commands run in (`windows` says
/// whether that is Windows PowerShell). The model id does not change it.
pub fn decision_system_with_model(model_id: &str, windows: bool) -> (r: String)
    ensures
        r@ == system_prompt_spec(short_shell_note(windows)),
{
    if windows {
        build_system_prompt("Any command runs in Windows PowerShell — use PowerShell cmdlets and syntax.")
    } else {
        build_system_prompt("Any command runs in a POSIX bash shell — use POSIX tools.")
    }
}

/// The old role hook: no role is defined, every name gives `None`.
pub fn role(name: &str) -> (r: Option<(&'static str, &'static str, &'static str, usize)>)
    ensures
        r is None,
{
    None
}

// ---------------------------------------------------------------------------
// Classifying an argument
// ---------------------------------------------------------------------------

pub open spec fn structure_words() -> Seq<Seq<char>> {
    seq!["structure"@, "tree"@, "layout"@]
}

pub open spec fn directory_nouns() -> Seq<Seq<char>> {
    seq!["project"@, "directory"@, "repo"@, "codebase"@, "files"@]
}

pub open spec fn display_verbs() -> Seq<Seq<char>> {
    seq!["show"@, "list"@, "display"@, "print"@, "view"@]
}

/// A request for the project's structure: a structure word together with either a directory noun
/// or a leading display verb, compared in ASCII lower case.
pub open spec fn structure_request_spec(s: Seq<char>) -> bool {
    let l = lower_seq(s);
    contains_any(l, structure_words()) && (contains_any(l, directory_nouns()) || starts_with_any(
        l,
        display_verbs(),
    ))
}

/// Whether a prompt asks for the project's structure ("show project structure", "list tree").
pub fn is_structure_request(s: &str) -> (r: bool)
    ensures
        r == structure_request_spec(s@),
{
    let l = lower(&chars_of(s));
    let words: [&str; 3] = ["structure", "tree", "layout"];
    let nouns: [&str; 5] = ["project", "directory", "repo", "codebase", "files"];
    let verbs: [&str; 5] = ["show", "list", "display", "print", "view"];
    assert(views(words@) =~= structure_words());
    assert(views(nouns@) =~= directory_nouns());
    assert(views(verbs@) =~= display_verbs());
    let has_structure_word = contains_any_exec(&l, words.as_slice());
    let has_directory_noun = contains_any_exec(&l, nouns.as_slice());
    if has_structure_word && has_directory_noun {
        return true;
    }
    if has_structure_word {
        if starts_with_any_exec(&l, verbs.as_slice()) {
            return true;
        }
    }
    false
}

/// How a single bare argument should be handled.
#[derive(Debug, PartialEq)]
pub enum Dispatch {
    /// A JSON object of `category -> text`; the raw text goes to `parse_json`.
    Json(String),
    /// `category: text` with a known category.
    Category(String, String),
    /// A free-text task for the agent.
    Prompt(String),
    /// A project-structure request, answered with a tree without asking the model.
    Structure,
}

pub enum DispatchView {
    Json(Seq<char>),
    Category(Seq<char>, Seq<char>),
    Prompt(Seq<char>),
    Structure,
}

impl View for Dispatch {
    type V = DispatchView;

    open spec fn view(&self) -> DispatchView {
        match self {
            Dispatch::Json(s) => DispatchView::Json(s@),
            Dispatch::Category(c, t) => DispatchView::Category(c@, t@),
            Dispatch::Prompt(s) => DispatchView::Prompt(s@),
            Dispatch::Structure => DispatchView::Structure,
        }
    }
}

/// How an argument is classified: after trimming, a leading `{` is JSON; a `category: text`
/// whose trimmed category is known is a category request; a structure request is answered with a
/// tree; anything else is a task.
pub open spec fn classify_spec(arg: Seq<char>) -> DispatchView {
    let s = trim_seq(arg);
    if s.len() > 0 && s[0] == '{' {
        DispatchView::Json(s)
    } else if index_of(s, ':') matches Some(i) && header_spec(
        trim_seq(s.subrange(0, index_of(s, ':')->0)),
    ) is Some {
        let i = index_of(s, ':')->0;
        DispatchView::Category(
            trim_seq(s.subrange(0, i)),
            trim_seq(s.subrange(i + 1, s.len() as int)),
        )
    } else if structure_request_spec(s) {
        DispatchView::Structure
    } else {
        DispatchView::Prompt(s)
    }
}

/// Classify one argument.
pub fn classify(arg: &str) -> (r: Dispatch)
    ensures
        r@ == classify_spec(arg@),
{
    let s = trim(&chars_of(arg));
    if s.len() > 0 && s[0] == '{' {
        return Dispatch::Json(string_of(&s));
    }
    proof {
        lemma_index_of(s@, ':');
    }
    match index_of_exec(&s, ':') {
        Some(i) => {
            let cat = trim(&slice(&s, 0, i));
            let cat_text = string_of(&cat);
            if header(cat_text.as_str()).is_some() {
                let rest = trim(&slice(&s, i + 1, s.len()));
                return Dispatch::Category(cat_text, string_of(&rest));
            }
        },
        None => {},
    }
    let text = string_of(&s);
    if is_structure_request(text.as_str()) {
        Dispatch::Structure
    } else {
        Dispatch::Prompt(text)
    }
}

// ---------------------------------------------------------------------------
// The multi-category JSON form
// ---------------------------------------------------------------------------

/// The members of the object that a JSON prompt names: the `task` member when that is an object,
/// otherwise the prompt itself when it is an object.
pub open spec fn prompt_members(v: JsonModel) -> Option<Seq<(Seq<char>, Seq<char>)>> {
    match get_spec(v, "task"@) {
        Some(t) => match serde_json_from_str(t) {
            Ok(JsonModel::Object(m)) => Some(m),
            _ => match v {
                JsonModel::Object(m) => Some(m),
                _ => None,
            },
        },
        None => match v {
            JsonModel::Object(m) => Some(m),
            _ => None,
        },
    }
}

/// The `(category, text)` pairs among members `i..`: those whose value is a string.
pub open spec fn string_pairs(m: Seq<(Seq<char>, Seq<char>)>, i: int) -> Seq<(Seq<char>, Seq<char>)>
    decreases m.len() - i,
{
    if i < 0 || i >= m.len() {
        seq![]
    } else {
        match serde_json_from_str(m[i].1) {
            Ok(JsonModel::Str(s)) => seq![(m[i].0, s)] + string_pairs(m, i + 1),
            _ => string_pairs(m, i + 1),
        }
    }
}

/// What `parse_json` gives for a prompt text.
pub open spec fn parse_json_spec(s: Seq<char>) -> Result<Seq<(Seq<char>, Seq<char>)>, Seq<char>> {
    match serde_json_from_str(s) {
        Err(e) => Err("invalid JSON prompt: "@ + e),
        Ok(v) => match prompt_members(v) {
            None => Err("JSON prompt must be an object"@),
            Some(m) => if string_pairs(m, 0).len() == 0 {
                Err("JSON prompt has no category:text pairs"@)
            } else {
                Ok(string_pairs(m, 0))
            },
        },
    }
}

pub open spec fn pair_view(p: (String, String)) -> (Seq<char>, Seq<char>) {
    (p.0@, p.1@)
}

/// Parse the JSON multi-category form into `(category, text)` pairs: a flat object
/// `{"plan-stack":"…","theme":"…"}` or a `{"task": { … }}` wrapper; members whose value is not a
/// string are left out, and at least one pair must remain.
pub fn parse_json(s: &str) -> (r: Result<Vec<(String, String)>, String>)
    ensures
        match r {
            Ok(v) => parse_json_spec(s@) == Ok::<Seq<(Seq<char>, Seq<char>)>, Seq<char>>(
                v@.map_values(|p: (String, String)| pair_view(p)),
            ),
            Err(e) => parse_json_spec(s@) == Err::<Seq<(Seq<char>, Seq<char>)>, Seq<char>>(e@),
        },
{
    let v = match parse(s) {
        Ok(v) => v,
        Err(e) => {
            let mut m = String::new();
            push_str(&mut m, "invalid JSON prompt: ");
            push_str(&mut m, e.as_str());
            return Err(m);
        },
    };
    let from_task: Option<Vec<(String, String)>> = match v.get("task") {
        Some(t) => match parse(t.as_str()) {
            Ok(JsonValue::Object(m)) => Some(m),
            _ => None,
        },
        None => None,
    };
    let members = match from_task {
        Some(m) => m,
        None => match v {
            JsonValue::Object(m) => m,
            _ => {
                let mut e = String::new();
                push_str(&mut e, "JSON prompt must be an object");
                return Err(e);
            },
        },
    };
    let ghost mv = members@.map_values(|p: (String, String)| member_view(p));
    assert(prompt_members(v@) == Some(mv));
    let mut pairs: Vec<(String, String)> = Vec::new();
    let mut i: usize = 0;
    assert(pairs@.map_values(|p: (String, String)| pair_view(p)) + string_pairs(mv, 0) =~= string_pairs(mv, 0));
    while i < members.len()
        invariant
            i <= members.len(),
            mv == members@.map_values(|p: (String, String)| member_view(p)),
            pairs@.map_values(|p: (String, String)| pair_view(p)) + string_pairs(mv, i as int)
                == string_pairs(mv, 0),
        decreases members.len() - i,
    {
        let ghost before = pairs@.map_values(|p: (String, String)| pair_view(p));
        match parse(members[i].1.as_str()) {
            Ok(JsonValue::Str(text)) => {
                let key = members[i].0.clone();
                let ghost tv = text@;
                pairs.push((key, text));
                assert(pairs@.map_values(|p: (String, String)| pair_view(p)) =~= before.push(
                    (mv[i as int].0, tv),
                ));
                assert(pairs@.map_values(|p: (String, String)| pair_view(p)) + string_pairs(
                    mv,
                    i + 1,
                ) =~= before + string_pairs(mv, i as int));
            },
            _ => {},
        }
        i = i + 1;
    }
    if pairs.len() == 0 {
        let mut e = String::new();
        push_str(&mut e, "JSON prompt has no category:text pairs");
        return Err(e);
    }
    assert(pairs@.map_values(|p: (String, String)| pair_view(p)) =~= string_pairs(mv, 0));
    Ok(pairs)
}


// ---------------------------------------------------------------------------
// Reading the model's decision
// ---------------------------------------------------------------------------

/// `s` padded with spaces on the right to `w` characters (as `{:<w}` formats it).
pub open spec fn pad_right(s: Seq<char>, w: nat) -> Seq<char> {
    if s.len() < w {
        s + Seq::new((w - s.len()) as nat, |i: int| ' ')
    } else {
        s
    }
}

/// One line of the tool list: two spaces, the name padded to eight, a space, the description.
pub open spec fn tool_line(t: Tool) -> Seq<char> {
    "  "@ + pad_right(tool_name(t), 8) + " "@ + tool_description(t)
}

/// The tool list shown to a model that named an unknown tool.
pub open spec fn tool_list_spec() -> Seq<char> {
    join_with(builtin_tools().map_values(|t: Tool| tool_line(t)), "\n"@)
}

fn push_padded(s: &mut String, t: &str, w: usize)
    ensures
        final(s)@ == old(s)@ + pad_right(t@, w as nat),
{
    let c = chars_of(t);
    push_str(s, t);
    if c.len() < w {
        let ghost base = s@;
        let mut k: usize = c.len();
        while k < w
            invariant
                c.len() <= k <= w,
                c@ == t@,
                s@ == base + Seq::new((k - c.len()) as nat, |i: int| ' '),
            decreases w - k,
        {
            push_char(s, ' ');
            k = k + 1;
            assert(s@ =~= base + Seq::new((k - c.len()) as nat, |i: int| ' '));
        }
        assert(s@ =~= old(s)@ + pad_right(t@, w as nat));
    }
}

/// The available tools with their descriptions, one per line.
pub fn tool_list_with_descriptions() -> (r: String)
    ensures
        r@ == tool_list_spec(),
{
    let tools = builtins();
    let ghost lines_spec = builtin_tools().map_values(|t: Tool| tool_line(t));
    let mut parts: Vec<Vec<char>> = Vec::new();
    let mut i: usize = 0;
    while i < tools.len()
        invariant
            i <= tools.len(),
            tools@ == builtin_tools(),
            lines_spec == builtin_tools().map_values(|t: Tool| tool_line(t)),
            seqs(parts@) =~= lines_spec.take(i as int),
        decreases tools.len() - i,
    {
        let t = tools[i];
        let mut line = String::new();
        push_str(&mut line, "  ");
        push_padded(&mut line, t.name(), 8);
        push_str(&mut line, " ");
        push_str(&mut line, t.description());
        let lc = chars_of(line.as_str());
        let ghost before = seqs(parts@);
        parts.push(lc);
        assert(seqs(parts@) =~= before.push(tool_line(t)));
        i = i + 1;
    }
    assert(lines_spec.take(tools.len() as int) =~= lines_spec);
    string_of(&join_chars(&parts, "\n"))
}

/// What the model decided.
#[derive(Debug)]
pub enum Decision {
    /// Run a command to gather information; `say` is the model's one-line narration.
    Run { say: Option<String>, cmd: String },
    /// Call a built-in tool with these arguments (`args_text` is their compact JSON text).
    Tool { tool: Tool, args: JsonValue, args_text: String, say: Option<String> },
    /// The final answer.
    Answer(String),
    /// The model named an unknown tool: this message goes back so it can retry.
    Retry(String),
}

pub enum DecisionView {
    Run { say: Option<Seq<char>>, cmd: Seq<char> },
    Tool { tool: Tool, args: JsonModel, args_text: Seq<char>, say: Option<Seq<char>> },
    Answer(Seq<char>),
    Retry(Seq<char>),
}

pub open spec fn opt_view(o: Option<String>) -> Option<Seq<char>> {
    match o {
        Some(s) => Some(s@),
        None => None,
    }
}

impl View for Decision {
    type V = DecisionView;

    open spec fn view(&self) -> DecisionView {
        match self {
            Decision::Run { say, cmd } => DecisionView::Run { say: opt_view(*say), cmd: cmd@ },
            Decision::Tool { tool, args, args_text, say } => DecisionView::Tool {
                tool: *tool,
                args: args@,
                args_text: args_text@,
                say: opt_view(*say),
            },
            Decision::Answer(a) => DecisionView::Answer(a@),
            Decision::Retry(m) => DecisionView::Retry(m@),
        }
    }
}

/// The trimmed `say` of a decision object, unless it is missing or blank.
pub open spec fn say_spec(v: JsonModel) -> Option<Seq<char>> {
    match get_str_spec(v, "say"@) {
        Some(s) => if trim_seq(s).len() > 0 {
            Some(trim_seq(s))
        } else {
            None
        },
        None => None,
    }
}

/// The arguments of a tool call, with their text; an empty object when there are none.
pub open spec fn args_spec(v: JsonModel) -> (JsonModel, Seq<char>) {
    match get_spec(v, "args"@) {
        Some(t) => match serde_json_from_str(t) {
            Ok(m) => (m, t),
            Err(_) => (JsonModel::Object(seq![]), "{}"@),
        },
        None => (JsonModel::Object(seq![]), "{}"@),
    }
}

/// The decision that a JSON object states, if it states one: a `tool` call (resolved, or a retry
/// message for an unknown name), a non-blank `run` command, or an `answer`.
pub open spec fn decision_of(v: JsonModel) -> Option<DecisionView> {
    match get_str_spec(v, "tool"@) {
        Some(name) => match resolve_spec(name) {
            Some(t) => Some(DecisionView::Tool {
                tool: t,
                args: args_spec(v).0,
                args_text: args_spec(v).1,
                say: say_spec(v),
            }),
            None => Some(DecisionView::Retry(
                "Unknown tool \""@ + name + "\"\n\nAvailable tools:\n"@ + tool_list_spec(),
            )),
        },
        None => {
            if get_str_spec(v, "run"@) matches Some(c) && trim_seq(c).len() > 0 {
                Some(DecisionView::Run { say: say_spec(v), cmd: trim_seq(get_str_spec(v, "run"@)->0) })
            } else {
                match get_str_spec(v, "answer"@) {
                    Some(a) => Some(DecisionView::Answer(trim_seq(a))),
                    None => None,
                }
            }
        },
    }
}

/// How a reply is read: the first JSON value from the first `{` on, when it states a decision;
/// otherwise the whole trimmed reply is the answer.
pub open spec fn parse_decision_spec(content: Seq<char>) -> DecisionView {
    let fallback = DecisionView::Answer(trim_seq(content));
    match index_of(content, '{') {
        Some(a) => match serde_json_first_value(content.subrange(a, content.len() as int)) {
            Some(t) => match serde_json_from_str(t) {
                Ok(v) => match decision_of(v) {
                    Some(d) => d,
                    None => fallback,
                },
                Err(_) => fallback,
            },
            None => fallback,
        },
        None => fallback,
    }
}

fn say_exec(v: &JsonValue) -> (r: Option<String>)
    ensures
        opt_view(r) == say_spec(v@),
{
    match v.get_str("say") {
        Some(s) => {
            let t = trim(&chars_of(s.as_str()));
            if t.len() > 0 {
                Some(string_of(&t))
            } else {
                None
            }
        },
        None => None,
    }
}

fn empty_args() -> (r: (JsonValue, String))
    ensures
        r.0@ == JsonModel::Object(seq![]),
        r.1@ == "{}"@,
{
    let fields: Vec<(String, String)> = Vec::new();
    let v = JsonValue::Object(fields);
    assert(v@ == JsonModel::Object(fields@.map_values(|p: (String, String)| member_view(p))));
    assert(fields@.map_values(|p: (String, String)| member_view(p)) =~= seq![]);
    let mut t = String::new();
    push_str(&mut t, "{}");
    (v, t)
}

fn args_exec(v: &JsonValue) -> (r: (JsonValue, String))
    ensures
        (r.0@, r.1@) == args_spec(v@),
{
    match v.get("args") {
        Some(t) => match parse(t.as_str()) {
            Ok(m) => (m, t),
            Err(_) => empty_args(),
        },
        None => empty_args(),
    }
}

fn decision_of_exec(v: &JsonValue) -> (r: Option<Decision>)
    ensures
        match r {
            Some(d) => decision_of(v@) == Some(d@),
            None => decision_of(v@) is None,
        },
{
    match v.get_str("tool") {
        Some(name) => {
            match resolve(name.as_str()) {
                Some(t) => {
                    let (args, args_text) = args_exec(v);
                    Some(Decision::Tool { tool: t, args, args_text, say: say_exec(v) })
                },
                None => {
                    let mut m = String::new();
                    push_str(&mut m, "Unknown tool \"");
                    push_str(&mut m, name.as_str());
                    push_str(&mut m, "\"\n\nAvailable tools:\n");
                    let list = tool_list_with_descriptions();
                    push_str(&mut m, list.as_str());
                    Some(Decision::Retry(m))
                },
            }
        },
        None => {
            match v.get_str("run") {
                Some(c) => {
                    let t = trim(&chars_of(c.as_str()));
                    if t.len() > 0 {
                        return Some(Decision::Run { say: say_exec(v), cmd: string_of(&t) });
                    }
                },
                None => {},
            }
            match v.get_str("answer") {
                Some(a) => Some(Decision::Answer(string_of(&trim(&chars_of(a.as_str()))))),
                None => None,
            }
        },
    }
}

/// Read the model's reply: `{"run":…}` gathers with a command, `{"tool":…}` calls a built-in tool
/// (an unknown name asks the model to retry), `{"answer":…}` is the final text. Only the first
/// JSON value from the first `{` counts; a reply with none is taken as a plain answer.
pub fn parse_decision(content: &str) -> (r: Decision)
    ensures
        r@ == parse_decision_spec(content@),
{
    let c = chars_of(content);
    let fallback = string_of(&trim(&c));
    match index_of_exec(&c, '{') {
        Some(a) => {
            proof {
                lemma_index_of(c@, '{');
            }
            let rest = string_of(&slice(&c, a, c.len()));
            match first_value(rest.as_str()) {
                Some(t) => match parse(t.as_str()) {
                    Ok(v) => match decision_of_exec(&v) {
                        Some(d) => d,
                        None => Decision::Answer(fallback),
                    },
                    Err(_) => Decision::Answer(fallback),
                },
                None => Decision::Answer(fallback),
            }
        },
        None => Decision::Answer(fallback),
    }
}

// ---------------------------------------------------------------------------
// The transcript fed back to the model
// ---------------------------------------------------------------------------

/// `s` cut to `max` characters with an ellipsis when it is longer.
pub open spec fn truncate_spec(s: Seq<char>, max: nat) -> Seq<char> {
    if s.len() <= max {
        s
    } else {
        s.take(max as int) + "…"@
    }
}

/// `s` cut to `max` characters, the last of them an ellipsis, when it is longer.
pub open spec fn clip_spec(s: Seq<char>, max: nat) -> Seq<char> {
    if s.len() <= max {
        s
    } else {
        s.take(if max > 0 { max - 1 } else { 0 }) + "…"@
    }
}

/// Cut `s` to `max` characters, adding an ellipsis when anything was cut.
pub fn truncate_str(s: &str, max: usize) -> (r: String)
    ensures
        r@ == truncate_spec(s@, max as nat),
{
    let c = chars_of(s);
    if c.len() <= max {
        string_of(&c)
    } else {
        let mut r = string_of(&slice(&c, 0, max));
        push_str(&mut r, "…");
        assert(c@.subrange(0, max as int) =~= c@.take(max as int));
        r
    }
}

/// Cut long error output to `max` characters before it goes back to the model.
pub fn trunc(s: &str, max: usize) -> (r: String)
    ensures
        r@ == truncate_spec(s@, max as nat),
{
    truncate_str(s, max)
}

/// Clip a line to `max` characters, the ellipsis included, so that it cannot wrap.
pub fn clip(s: &str, max: usize) -> (r: String)
    ensures
        r@ == clip_spec(s@, max as nat),
{
    let c = chars_of(s);
    if c.len() <= max {
        string_of(&c)
    } else {
        let keep: usize = if max > 0 { max - 1 } else { 0 };
        let mut r = string_of(&slice(&c, 0, keep));
        push_str(&mut r, "…");
        assert(c@.subrange(0, keep as int) =~= c@.take(keep as int));
        r
    }
}

/// Keep the first `max` lines of a command's output so that a flood cannot bury the context.
pub fn cap_lines(s: &str, max: usize) -> (r: String)
    ensures
        r@ == cap_spec(s@, max as nat, " more lines truncated — narrow the command)\n"@),
{
    cap_with(s, max, " more lines truncated — narrow the command)\n")
}

/// One event of the agent's transcript.
pub enum TranscriptEvent {
    Assistant(String),
    ToolCall { name: &'static str, args: JsonValue, args_text: String },
    ToolResult { name: &'static str, output: String, error: bool },
    Shell { cmd: String, exit_code: i32, output: String },
}

/// The string member `key` of the arguments, or `default`.
pub open spec fn arg_or(args: JsonModel, key: Seq<char>, default: Seq<char>) -> Seq<char> {
    match get_str_spec(args, key) {
        Some(s) => s,
        None => default,
    }
}

/// How a tool call's arguments are shown in the transcript.
pub open spec fn tool_args_spec(name: Seq<char>, args: JsonModel, args_text: Seq<char>) -> Seq<char> {
    let q = "\""@;
    if name == "read"@ {
        q + arg_or(args, "path"@, "?"@) + q
    } else if name == "write"@ {
        q + arg_or(args, "path"@, "?"@) + "\", \""@ + truncate_spec(arg_or(args, "content"@, ""@), 40)
            + q
    } else if name == "edit"@ {
        q + arg_or(args, "path"@, "?"@) + "\", \""@ + truncate_spec(arg_or(args, "old"@, ""@), 30) + q
    } else if name == "glob"@ {
        q + arg_or(args, "pattern"@, "?"@) + q
    } else if name == "grep"@ {
        q + arg_or(args, "pattern"@, "?"@) + "\", \""@ + arg_or(args, "path"@, "."@) + q
    } else {
        args_text
    }
}

fn arg_or_exec(args: &JsonValue, key: &str, default: &str) -> (r: String)
    ensures
        r@ == arg_or(args@, key@, default@),
{
    match args.get_str(key) {
        Some(s) => s,
        None => string_of(&chars_of(default)),
    }
}

/// Format a tool call's arguments for the transcript.
pub fn format_tool_args(name: &str, args: &JsonValue, args_text: &str) -> (r: String)
    ensures
        r@ == tool_args_spec(name@, args@, args_text@),
{
    proof {
        reveal_strlit("read");
        reveal_strlit("write");
        assert("read"@[0] != "write"@[0]);
    }
    let mut r = String::new();
    if str_eq(name, "read") || str_eq(name, "write") {
        let path = arg_or_exec(args, "path", "?");
        push_str(&mut r, "\"");
        push_str(&mut r, path.as_str());
        if str_eq(name, "write") {
            let content = arg_or_exec(args, "content", "");
            push_str(&mut r, "\", \"");
            push_str(&mut r, truncate_str(content.as_str(), 40).as_str());
        }
        push_str(&mut r, "\"");
    } else if str_eq(name, "edit") {
        let path = arg_or_exec(args, "path", "?");
        let old = arg_or_exec(args, "old", "");
        push_str(&mut r, "\"");
        push_str(&mut r, path.as_str());
        push_str(&mut r, "\", \"");
        push_str(&mut r, truncate_str(old.as_str(), 30).as_str());
        push_str(&mut r, "\"");
    } else if str_eq(name, "glob") {
        let pattern = arg_or_exec(args, "pattern", "?");
        push_str(&mut r, "\"");
        push_str(&mut r, pattern.as_str());
        push_str(&mut r, "\"");
    } else if str_eq(name, "grep") {
        let pattern = arg_or_exec(args, "pattern", "?");
        let path = arg_or_exec(args, "path", ".");
        push_str(&mut r, "\"");
        push_str(&mut r, pattern.as_str());
        push_str(&mut r, "\", \"");
        push_str(&mut r, path.as_str());
        push_str(&mut r, "\"");
    } else {
        push_str(&mut r, args_text);
    }
    r
}

/// How a tool call reads in the transcript.
pub open spec fn call_text(name: Seq<char>, args: JsonModel, args_text: Seq<char>) -> Seq<char> {
    "> "@ + name + "("@ + tool_args_spec(name, args, args_text) + ")\n"@
}

/// How a tool's result (or error) reads in the transcript.
pub open spec fn result_text(output: Seq<char>, error: bool) -> Seq<char> {
    if error {
        "[error] "@ + output + "\n"@
    } else {
        output + "\n"@
    }
}

/// How a shell command and its output read in the transcript.
pub open spec fn shell_text(cmd: Seq<char>, exit_code: int, output: Seq<char>) -> Seq<char> {
    "$ "@ + cmd + "\n(exit "@ + int_seq(exit_code) + ")\n"@ + output + "\n"@
}

/// How one event reads in the transcript.
pub open spec fn render_spec(e: TranscriptEvent) -> Seq<char> {
    match e {
        TranscriptEvent::Assistant(t) => "Assistant: "@ + t@ + "\n"@,
        TranscriptEvent::ToolCall { name, args, args_text } => call_text(name@, args@, args_text@),
        TranscriptEvent::ToolResult { name, output, error } => result_text(output@, error),
        TranscriptEvent::Shell { cmd, exit_code, output } => shell_text(cmd@, exit_code as int, output@),
    }
}

impl TranscriptEvent {
    /// Render this event for the prompt.
    pub fn render(&self) -> (r: String)
        ensures
            r@ == render_spec(*self),
    {
        let mut r = String::new();
        match self {
            TranscriptEvent::Assistant(t) => {
                push_str(&mut r, "Assistant: ");
                push_str(&mut r, t.as_str());
                push_str(&mut r, "\n");
            },
            TranscriptEvent::ToolCall { name, args, args_text } => {
                push_str(&mut r, "> ");
                push_str(&mut r, name);
                push_str(&mut r, "(");
                push_str(&mut r, format_tool_args(name, args, args_text.as_str()).as_str());
                push_str(&mut r, ")\n");
            },
            TranscriptEvent::ToolResult { name, output, error } => {
                if *error {
                    push_str(&mut r, "[error] ");
                }
                push_str(&mut r, output.as_str());
                push_str(&mut r, "\n");
            },
            TranscriptEvent::Shell { cmd, exit_code, output } => {
                push_str(&mut r, "$ ");
                push_str(&mut r, cmd.as_str());
                push_str(&mut r, "\n(exit ");
                push_int(&mut r, *exit_code as i64);
                push_str(&mut r, ")\n");
                push_str(&mut r, output.as_str());
                push_str(&mut r, "\n");
            },
        }
        r
    }
}

/// The transcript: each event rendered, in order.
pub open spec fn transcript_spec(events: Seq<TranscriptEvent>) -> Seq<char>
    decreases events.len(),
{
    if events.len() == 0 {
        seq![]
    } else {
        transcript_spec(events.drop_last()) + render_spec(events.last())
    }
}

/// Render transcript events for the prompt.
pub fn render_transcript(events: &Vec<TranscriptEvent>) -> (r: String)
    ensures
        r@ == transcript_spec(events@),
{
    let mut r = String::new();
    let mut i: usize = 0;
    assert(events@.take(0) =~= seq![]);
    while i < events.len()
        invariant
            i <= events.len(),
            r@ == transcript_spec(events@.take(i as int)),
        decreases events.len() - i,
    {
        let piece = events[i].render();
        push_str(&mut r, piece.as_str());
        assert(events@.take(i + 1).drop_last() =~= events@.take(i as int));
        i = i + 1;
    }
    assert(events@.take(events.len() as int) =~= events@);
    r
}

// ---------------------------------------------------------------------------
// Confirmation and risk
// ---------------------------------------------------------------------------

/// An affirmative reply: `y` or `yes`, ignoring case and surrounding white space.
pub open spec fn yes_spec(s: Seq<char>) -> bool {
    lower_seq(trim_seq(s)) == "y"@ || lower_seq(trim_seq(s)) == "yes"@
}

/// Whether a confirmation reply is affirmative.
pub fn is_yes(s: &str) -> (r: bool)
    ensures
        r == yes_spec(s@),
{
    let l = string_of(&lower(&trim(&chars_of(s))));
    str_eq(l.as_str(), "y") || str_eq(l.as_str(), "yes")
}

/// Commands that start with one of these change or remove things.
pub open spec fn risky_leaders() -> Seq<Seq<char>> {
    seq![
        "rm "@, "rmdir "@, "mv "@, "dd "@, "sudo "@, "su "@, "chmod "@, "chown "@, "kill "@,
        "pkill "@, "shutdown"@, "reboot"@, "mkfs"@, "del "@, "format "@,
    ]
}

/// Commands that contain one of these write files, change the repository or the system, or
/// fetch code to run.
pub open spec fn risky_markers() -> Seq<Seq<char>> {
    seq![
        ">"@, " rm "@, "-delete"@, "git push"@, "git commit"@, "git reset"@, "git clean"@,
        "git checkout"@, "git rebase"@, "git merge"@, "npm install"@, "yarn add"@, "pip install"@,
        "cargo install"@, "apt "@, "brew install"@, "curl "@, "wget "@, "| sh"@, "| bash"@,
        "|sh"@, "|bash"@, "remove-item"@, "set-content"@, "out-file"@, "move-item"@,
    ]
}

/// A command is risky, and needs confirmation, when its ASCII-lower-cased text starts with a
/// risky leader or contains a risky marker; read-only inspection is not.
pub open spec fn risky_spec(cmd: Seq<char>) -> bool {
    let l = lower_seq(trim_seq(cmd));
    starts_with_any(l, risky_leaders()) || contains_any(l, risky_markers())
}

/// Whether a command needs confirmation before it runs.
pub fn is_risky(cmd: &str) -> (r: bool)
    ensures
        r == risky_spec(cmd@),
{
    let l = lower(&trim(&chars_of(cmd)));
    let leaders: [&str; 15] = [
        "rm ",
        "rmdir ",
        "mv ",
        "dd ",
        "sudo ",
        "su ",
        "chmod ",
        "chown ",
        "kill ",
        "pkill ",
        "shutdown",
        "reboot",
        "mkfs",
        "del ",
        "format ",
    ];
    let markers: [&str; 26] = [
        ">",
        " rm ",
        "-delete",
        "git push",
        "git commit",
        "git reset",
        "git clean",
        "git checkout",
        "git rebase",
        "git merge",
        "npm install",
        "yarn add",
        "pip install",
        "cargo install",
        "apt ",
        "brew install",
        "curl ",
        "wget ",
        "| sh",
        "| bash",
        "|sh",
        "|bash",
        "remove-item",
        "set-content",
        "out-file",
        "move-item",
    ];
    assert(views(leaders@) =~= risky_leaders());
    assert(views(markers@) =~= risky_markers());
    starts_with_any_exec(&l, leaders.as_slice()) || contains_any_exec(&l, markers.as_slice())
}

// ---------------------------------------------------------------------------
// Streaming the answer
// ---------------------------------------------------------------------------

/// The key that opens an answer value.
pub open spec fn answer_key() -> Seq<char> {
    "\"answer\":\""@
}

/// The character that an escape sequence `\c` stands for.
pub open spec fn unescape(c: char) -> char {
    if c == 'n' {
        '\n'
    } else if c == 't' {
        '\t'
    } else if c == 'r' {
        '\r'
    } else {
        c
    }
}

/// The text of a JSON string value read so far: up to the closing quote, escapes decoded, an
/// escape cut off at the end dropped.
pub open spec fn walk_value(v: Seq<char>) -> Seq<char>
    decreases v.len(),
{
    if v.len() == 0 {
        seq![]
    } else if v[0] == '"' {
        seq![]
    } else if v[0] == '\\' {
        if v.len() >= 2 {
            seq![unescape(v[1])] + walk_value(v.subrange(2, v.len() as int))
        } else {
            seq![]
        }
    } else {
        seq![v[0]] + walk_value(v.drop_first())
    }
}

/// The answer text in a partial JSON reply, from the first `"answer":"` on.
pub open spec fn answer_value_spec(buf: Seq<char>) -> Option<Seq<char>> {
    match find_seq(buf, answer_key()) {
        Some(i) => Some(walk_value(buf.subrange(i + answer_key().len(), buf.len() as int))),
        None => None,
    }
}

/// Extract the value of the `"answer"` key from a partial JSON reply, as far as it has arrived.
pub fn extract_answer_value(buf: &str) -> (r: Option<String>)
    ensures
        opt_view(r) == answer_value_spec(buf@),
{
    let c = chars_of(buf);
    let key = chars_of("\"answer\":\"");
    proof {
        lemma_find_seq(c@, key@);
    }
    let start = match crate::text::find(&c, &key) {
        Some(i) => {
            assert(matches_at(c@, key@, i as int));
            assert(i + key@.len() <= c@.len());
            assert(key@.len() == key.len());
            assert(c@.len() == c.len());
            assert(i + key.len() <= c.len());
            i + key.len()
        },
        None => return None,
    };
    let ghost v = c@.subrange(start as int, c.len() as int);
    let mut out: Vec<char> = Vec::new();
    let mut j: usize = start;
    assert(c@.subrange(start as int, c.len() as int) =~= v);
    while j < c.len()
        invariant
            start <= j <= c.len(),
            v == c@.subrange(start as int, c.len() as int),
            out@ + walk_value(c@.subrange(j as int, c.len() as int)) == walk_value(v),
        ensures
            out@ == walk_value(v),
        decreases c.len() - j,
    {
        let ghost rest = c@.subrange(j as int, c.len() as int);
        let ch = c[j];
        if ch == '"' {
            assert(walk_value(rest) =~= seq![]);
            assert(out@ =~= walk_value(v));
            break;
        } else if ch == '\\' {
            if j + 1 < c.len() {
                let e = c[j + 1];
                let u = if e == 'n' {
                    '\n'
                } else if e == 't' {
                    '\t'
                } else if e == 'r' {
                    '\r'
                } else {
                    e
                };
                let ghost before = out@;
                out.push(u);
                assert(rest.subrange(2, rest.len() as int) =~= c@.subrange(j + 2, c.len() as int));
                assert(out@ + walk_value(c@.subrange(j + 2, c.len() as int)) =~= before + walk_value(rest));
                j = j + 2;
            } else {
                assert(walk_value(rest) =~= seq![]);
                assert(out@ =~= walk_value(v));
                break;
            }
        } else {
            let ghost before = out@;
            out.push(ch);
            assert(rest.drop_first() =~= c@.subrange(j + 1, c.len() as int));
            assert(out@ + walk_value(c@.subrange(j + 1, c.len() as int)) =~= before + walk_value(rest));
            j = j + 1;
        }
    }
    Some(string_of(&out))
}


proof fn lemma_walk_prefix(v1: Seq<char>, v2: Seq<char>)
    requires
        starts_with_seq(v2, v1),
    ensures
        starts_with_seq(walk_value(v2), walk_value(v1)),
    decreases v1.len(),
{
    if v1.len() == 0 {
        assert(walk_value(v2).subrange(0, 0) =~= walk_value(v1));
    } else {
        assert(v1[0] == v2.subrange(0, v1.len() as int)[0]);
        if v1[0] == '"' {
            assert(walk_value(v2).subrange(0, 0) =~= walk_value(v1));
        } else if v1[0] == '\\' {
            if v1.len() >= 2 {
                assert(v1[1] == v2.subrange(0, v1.len() as int)[1]);
                let a = v1.subrange(2, v1.len() as int);
                let b = v2.subrange(2, v2.len() as int);
                assert(b.subrange(0, a.len() as int) =~= a);
                lemma_walk_prefix(a, b);
                let w1 = walk_value(v1);
                let w2 = walk_value(v2);
                assert(w2.subrange(0, w1.len() as int) =~= w1);
            } else {
                assert(walk_value(v2).subrange(0, 0) =~= walk_value(v1));
            }
        } else {
            let a = v1.drop_first();
            let b = v2.drop_first();
            assert(b.subrange(0, a.len() as int) =~= a);
            lemma_walk_prefix(a, b);
            let w1 = walk_value(v1);
            let w2 = walk_value(v2);
            assert(w2.subrange(0, w1.len() as int) =~= w1);
        }
    }
}

proof fn lemma_find_in_prefix(b1: Seq<char>, b2: Seq<char>, k: Seq<char>)
    requires
        starts_with_seq(b2, b1),
        find_seq(b1, k) is Some,
    ensures
        find_seq(b2, k) == find_seq(b1, k),
{
    lemma_find_seq(b1, k);
    lemma_find_seq(b2, k);
    let i = find_seq(b1, k)->0;
    assert(b2.subrange(i, i + k.len()) =~= b1.subrange(i, i + k.len()));
    assert(matches_at(b2, k, i));
    assert(contains_seq(b2, k));
    let j = find_seq(b2, k)->0;
    if j < i {
        assert(b1.subrange(j, j + k.len()) =~= b2.subrange(j, j + k.len()));
        assert(matches_at(b1, k, j));
    }
}

/// As a reply streams in, the answer text shown so far is never taken back: once a buffer holds
/// an answer value, every longer buffer that extends it holds one that extends it too.
pub proof fn law_answer_stream_grows(b1: Seq<char>, b2: Seq<char>)
    requires
        starts_with_seq(b2, b1),
        answer_value_spec(b1) is Some,
    ensures
        answer_value_spec(b2) is Some,
        starts_with_seq(answer_value_spec(b2)->0, answer_value_spec(b1)->0),
{
    lemma_find_in_prefix(b1, b2, answer_key());
    lemma_find_seq(b1, answer_key());
    let i = find_seq(b1, answer_key())->0;
    let s = i + answer_key().len();
    let v1 = b1.subrange(s, b1.len() as int);
    let v2 = b2.subrange(s, b2.len() as int);
    assert(v2.subrange(0, v1.len() as int) =~= v1);
    lemma_walk_prefix(v1, v2);
}


/// Text that `serde_json` writes with only the escapes the stream reader decodes: no control
/// character but line feed, tab and carriage return.
pub open spec fn stream_plain(v: Seq<char>) -> bool {
    forall|i: int| 0 <= i < v.len() ==> (#[trigger] v[i] as nat) >= 32 || v[i] == '\n' || v[i]
        == '\t' || v[i] == '\r'
}

proof fn lemma_escaped_front(v: Seq<char>)
    requires
        v.len() > 0,
    ensures
        crate::mcp::json_escaped(v) == crate::mcp::json_escape(v[0]) + crate::mcp::json_escaped(
            v.drop_first(),
        ),
    decreases v.len(),
{
    if v.len() == 1 {
        assert(v.drop_last() =~= Seq::<char>::empty());
        assert(v.drop_first() =~= Seq::<char>::empty());
        assert(crate::mcp::json_escaped(v.drop_first()) =~= Seq::<char>::empty());
        assert(crate::mcp::json_escaped(v) =~= crate::mcp::json_escape(v[0]));
    } else {
        lemma_escaped_front(v.drop_last());
        assert(v.drop_last().drop_first() =~= v.drop_first().drop_last());
        assert(v.drop_last()[0] == v[0]);
        assert(v.drop_first().last() == v.last());
        assert(crate::mcp::json_escaped(v) =~= crate::mcp::json_escape(v[0])
            + crate::mcp::json_escaped(v.drop_first()));
    }
}

proof fn lemma_walk_escaped(v: Seq<char>, t: Seq<char>)
    requires
        stream_plain(v),
        t.len() > 0,
        t[0] == '"',
    ensures
        walk_value(crate::mcp::json_escaped(v) + t) == v,
    decreases v.len(),
{
    if v.len() == 0 {
        assert(crate::mcp::json_escaped(v) + t =~= t);
    } else {
        lemma_escaped_front(v);
        let c = v[0];
        let rest = v.drop_first();
        assert(stream_plain(rest)) by {
            assert forall|i: int| 0 <= i < rest.len() implies (#[trigger] rest[i] as nat) >= 32
                || rest[i] == '\n' || rest[i] == '\t' || rest[i] == '\r' by {
                assert(rest[i] == v[i + 1]);
            }
        }
        lemma_walk_escaped(rest, t);
        let tail = crate::mcp::json_escaped(rest) + t;
        let s = crate::mcp::json_escape(c) + tail;
        assert(crate::mcp::json_escaped(v) + t =~= s);
        assert((c as nat) >= 32 || c == '\n' || c == '\t' || c == '\r');
        if c == '"' || c == '\\' || c == '\n' || c == '\t' || c == '\r' {
            assert(s.len() >= 2 && s[0] == '\\');
            assert(s.subrange(2, s.len() as int) =~= tail);
            assert(unescape(s[1]) == c);
            assert(walk_value(s) == seq![c] + walk_value(tail));
        } else {
            assert(crate::mcp::json_escape(c) == seq![c]);
            assert(s[0] == c);
            assert(s.drop_first() =~= tail);
            assert(walk_value(s) == seq![c] + walk_value(tail));
        }
        assert(seq![c] + rest =~= v);
    }
}

/// On a complete reply, the streamed answer is the answer itself: for every answer text that
/// `serde_json` writes with no other escapes than the reader decodes, reading the reply
/// `{"answer":...}` that it writes gives that text back, its `\"`, `\\`, `\n`, `\t` and `\r`
/// decoded.
pub proof fn law_answer_round_trip(v: Seq<char>)
    requires
        stream_plain(v),
    ensures
        answer_value_spec("{\"answer\":"@ + crate::mcp::json_quote_spec(v) + "}"@) == Some(v),
{
    reveal_strlit("{\"answer\":");
    reveal_strlit("}");
    reveal_strlit("\"answer\":\"");
    let k = answer_key();
    let buf = "{\"answer\":"@ + crate::mcp::json_quote_spec(v) + "}"@;
    let body = crate::mcp::json_escaped(v) + seq!['"', '}'];
    assert(buf =~= seq!['{'] + k + body);
    assert(k.len() == 10);
    assert(!matches_at(buf, k, 0)) by {
        assert(buf[0] == '{');
        assert(k[0] == '"');
        if matches_at(buf, k, 0) {
            assert(buf.subrange(0, 10)[0] == k[0]);
        }
    }
    assert(buf.subrange(1, 11) =~= k);
    assert(matches_at(buf, k, 1));
    assert(find_from(buf, k, 0) == Some(1int)) by {
        assert(find_from(buf, k, 1) == Some(1int));
    }
    assert(buf.subrange(11, buf.len() as int) =~= body);
    lemma_walk_escaped(v, seq!['"', '}']);
}

/// A fresh `String` with the characters of `s`.
pub fn copy_str(s: &str) -> (r: String)
    ensures
        r@ == s@,
{
    let mut r = String::new();
    push_str(&mut r, s);
    r
}


// ---------------------------------------------------------------------------
// Project trees
// ---------------------------------------------------------------------------

/// `n` copies of the tree's vertical bar column.
pub open spec fn bars(n: nat) -> Seq<char>
    decreases n,
{
    if n == 0 {
        seq![]
    } else {
        bars((n - 1) as nat) + "│   "@
    }
}

proof fn lemma_split_nonempty(s: Seq<char>, sep: Seq<char>)
    ensures
        split_seq(s, sep).len() >= 1,
    decreases s.len(),
{
    if sep.len() > 0 {
        if let Some(i) = find_seq(s, sep) {
            if 0 <= i && i + sep.len() <= s.len() {
                lemma_split_nonempty(s.subrange(i + sep.len(), s.len() as int), sep);
            }
        }
    }
}

/// One file added to the tree: a root-level file as a branch; a nested file under a branch for
/// its innermost directory, written when the directory changes.
pub open spec fn tree_step(st: (Seq<char>, Seq<char>), file: Seq<char>) -> (Seq<char>, Seq<char>) {
    let parts = split_seq(file, "/"@);
    let depth = parts.len() - 1;
    let name = parts.last();
    if depth <= 0 {
        (st.0 + "├── "@ + name + "\n"@, st.1)
    } else {
        let dir = join_with(parts.take(depth), "/"@);
        let out = if dir != st.1 {
            st.0 + bars((depth - 1) as nat) + "├── "@ + parts[depth - 1] + "/\n"@
        } else {
            st.0
        };
        (out + bars((depth - 1) as nat) + "├── "@ + name + "\n"@, dir)
    }
}

pub open spec fn tree_fold(files: Seq<Seq<char>>, st: (Seq<char>, Seq<char>)) -> (Seq<char>, Seq<char>)
    decreases files.len(),
{
    if files.len() == 0 {
        st
    } else {
        tree_fold(files.drop_first(), tree_step(st, files[0]))
    }
}

/// The tree drawn from a list of file paths.
pub open spec fn tree_spec(files: Seq<Seq<char>>) -> Seq<char> {
    tree_fold(files, (".\n"@, seq![])).0
}

fn push_bars(s: &mut Vec<char>, n: usize)
    ensures
        final(s)@ == old(s)@ + bars(n as nat),
    decreases n,
{
    if n > 0 {
        push_bars(s, n - 1);
        let b = chars_of("│   ");
        let ghost before = s@;
        let mut k: usize = 0;
        while k < b.len()
            invariant
                k <= b.len(),
                s@ == before + b@.subrange(0, k as int),
            decreases b.len() - k,
        {
            s.push(b[k]);
            k = k + 1;
            assert(s@ =~= before + b@.subrange(0, k as int));
        }
        assert(b@.subrange(0, b.len() as int) =~= b@);
    }
}

fn append(s: &mut Vec<char>, t: &Vec<char>)
    ensures
        final(s)@ == old(s)@ + t@,
{
    let ghost before = s@;
    let mut k: usize = 0;
    while k < t.len()
        invariant
            k <= t.len(),
            s@ == before + t@.subrange(0, k as int),
        decreases t.len() - k,
    {
        s.push(t[k]);
        k = k + 1;
        assert(s@ =~= before + t@.subrange(0, k as int));
    }
    assert(t@.subrange(0, t.len() as int) =~= t@);
}

fn append_str(s: &mut Vec<char>, t: &str)
    ensures
        final(s)@ == old(s)@ + t@,
{
    append(s, &chars_of(t));
}

/// Draw a tree from a list of file paths (as `git ls-files` lists them).
pub fn build_tree_from_files(files: &Vec<String>) -> (r: String)
    ensures
        r@ == tree_spec(strings_of(files@)),
{
    let ghost fs = strings_of(files@);
    let mut out: Vec<char> = Vec::new();
    append_str(&mut out, ".\n");
    let mut prev: Vec<char> = Vec::new();
    let mut i: usize = 0;
    assert(fs.subrange(0, fs.len() as int) =~= fs);
    while i < files.len()
        invariant
            i <= files.len(),
            fs == strings_of(files@),
            tree_spec(fs) == tree_fold(fs.subrange(i as int, fs.len() as int), (out@, prev@)).0,
        decreases files.len() - i,
    {
        let ghost rest = fs.subrange(i as int, fs.len() as int);
        assert(rest.drop_first() =~= fs.subrange(i + 1, fs.len() as int));
        let file = chars_of(files[i].as_str());
        proof {
            reveal_strlit("/");
            lemma_split_nonempty(file@, "/"@);
        }
        let parts = split(&file, "/");
        let depth = parts.len() - 1;
        let ghost ps = seqs(parts@);
        assert(ps.last() == parts@[depth as int]@);
        if depth == 0 {
            append_str(&mut out, "├── ");
            append(&mut out, &parts[depth]);
            append_str(&mut out, "\n");
        } else {
            let mut prefix: Vec<Vec<char>> = Vec::new();
            let mut k: usize = 0;
            while k < depth
                invariant
                    k <= depth < parts.len(),
                    ps == seqs(parts@),
                    seqs(prefix@) =~= ps.take(k as int),
                decreases depth - k,
            {
                let piece = slice(&parts[k], 0, parts[k].len());
                let ghost b = seqs(prefix@);
                assert(parts@[k as int]@.subrange(0, parts@[k as int]@.len() as int) =~= parts@[k as int]@);
                prefix.push(piece);
                assert(seqs(prefix@) =~= b.push(ps[k as int]));
                k = k + 1;
            }
            let dir = join_chars(&prefix, "/");
            if !crate::text::chars_eq(&dir, &prev) {
                push_bars(&mut out, depth - 1);
                append_str(&mut out, "├── ");
                append(&mut out, &parts[depth - 1]);
                append_str(&mut out, "/\n");
                prev = dir;
            }
            push_bars(&mut out, depth - 1);
            append_str(&mut out, "├── ");
            append(&mut out, &parts[depth]);
            append_str(&mut out, "\n");
        }
        i = i + 1;
    }
    string_of(&out)
}

pub open spec fn strings_of(v: Seq<String>) -> Seq<Seq<char>> {
    v.map_values(|s: String| s@)
}

/// The non-empty lines among `ls`.
pub open spec fn nonempty_lines(ls: Seq<Seq<char>>) -> Seq<Seq<char>>
    decreases ls.len(),
{
    if ls.len() == 0 {
        seq![]
    } else if ls.last().len() > 0 {
        nonempty_lines(ls.drop_last()).push(ls.last())
    } else {
        nonempty_lines(ls.drop_last())
    }
}

/// The files that `git ls-files` lists: its non-empty output lines.
pub open spec fn listed_files(out: Seq<char>) -> Seq<Seq<char>> {
    nonempty_lines(lines_seq(out))
}

/// The file list from `git ls-files` output.
pub fn tracked_files(out: &str) -> (r: Vec<String>)
    ensures
        strings_of(r@) == listed_files(out@),
{
    let c = chars_of(out);
    let ls = crate::text::lines(&c);
    let ghost lv = seqs(ls@);
    assert(lv =~= lines_seq(out@));
    let mut r: Vec<String> = Vec::new();
    let mut i: usize = 0;
    assert(nonempty_lines(lv.take(0)) =~= seq![]);
    assert(strings_of(r@) =~= seq![]);
    while i < ls.len()
        invariant
            i <= ls.len(),
            lv == seqs(ls@),
            strings_of(r@) == nonempty_lines(lv.take(i as int)),
        decreases ls.len() - i,
    {
        let ghost before = strings_of(r@);
        assert(lv.take(i + 1).drop_last() =~= lv.take(i as int));
        assert(lv.take(i + 1).last() == lv[i as int]);
        if ls[i].len() > 0 {
            r.push(string_of(&ls[i]));
            assert(strings_of(r@) =~= before.push(lv[i as int]));
        }
        i = i + 1;
    }
    assert(lv.take(ls.len() as int) =~= lv);
    r
}

/// Names left out of the fallback tree.
pub open spec fn skip_dirs() -> Seq<Seq<char>> {
    seq!["vendor"@, "target"@, "node_modules"@, ".git"@, "dist"@, "build"@, ".gitmodules"@]
}

pub open spec fn shown_entry(name: Seq<char>) -> bool {
    !(name.len() > 0 && name[0] == '.') && !skip_dirs().contains(name)
}

/// The shown names among directory entries that are (or are not) directories, in order.
pub open spec fn entry_names(es: Seq<(Seq<char>, bool)>, dirs: bool) -> Seq<Seq<char>>
    decreases es.len(),
{
    if es.len() == 0 {
        seq![]
    } else {
        let rest = entry_names(es.drop_last(), dirs);
        let e = es.last();
        if shown_entry(e.0) && e.1 == dirs {
            rest.push(e.0)
        } else {
            rest
        }
    }
}

pub open spec fn connector(last: bool) -> Seq<char> {
    if last {
        "└── "@
    } else {
        "├── "@
    }
}

/// The fallback tree of the working directory: its directories, then its files, each sorted,
/// one level deep, the last line closed with `└──`.
pub open spec fn fallback_spec(dirs: Seq<Seq<char>>, files: Seq<Seq<char>>) -> Seq<char> {
    ".\n"@ + listing_lines(dirs, dirs.len() as int, files.len() == 0, "/\n"@).flatten()
        + listing_lines(files, files.len() as int, true, "\n"@).flatten()
}

pub open spec fn entry_view(e: (String, bool)) -> (Seq<char>, bool) {
    (e.0@, e.1)
}

/// The lines listing `names`, each after its connector and before `tail`; the last closes the
/// list when `last_open` says nothing follows.
pub open spec fn listing_lines(names: Seq<Seq<char>>, n: int, last_open: bool, tail: Seq<char>) -> Seq<
    Seq<char>,
> {
    Seq::new(n as nat, |i: int| connector(i == names.len() - 1 && last_open) + names[i] + tail)
}

fn push_flat_lines(out: &mut Vec<char>, names: &Vec<String>, last_open: bool, tail: &str)
    ensures
        final(out)@ == old(out)@ + listing_lines(strings_of(names@), names@.len() as int, last_open, tail@).flatten(),
{
    let ghost ns = strings_of(names@);
    let ghost start = out@;
    let mut i: usize = 0;
    assert(listing_lines(ns, 0, last_open, tail@).flatten() =~= seq![]) by {
        assert(listing_lines(ns, 0, last_open, tail@) =~= seq![]);
    }
    while i < names.len()
        invariant
            i <= names.len(),
            ns == strings_of(names@),
            out@ == start + listing_lines(ns, i as int, last_open, tail@).flatten(),
        decreases names.len() - i,
    {
        let last = i == names.len() - 1 && last_open;
        if last {
            append_str(out, "└── ");
        } else {
            append_str(out, "├── ");
        }
        append_str(out, names[i].as_str());
        append_str(out, tail);
        proof {
            let line = connector(last) + ns[i as int] + tail@;
            assert(listing_lines(ns, i + 1, last_open, tail@) =~= listing_lines(ns, i as int, last_open, tail@).push(line));
            listing_lines(ns, i as int, last_open, tail@).lemma_flatten_push(line);
        }
        assert(out@ =~= start + listing_lines(ns, i + 1, last_open, tail@).flatten());
        i = i + 1;
    }
}

/// The fallback tree from the working directory's entries (name, whether a directory).
pub fn fallback_tree(entries: &Vec<(String, bool)>) -> (r: String)
    ensures
        r@ == fallback_spec(
            entry_names(entries@.map_values(|e: (String, bool)| entry_view(e)), true).sort_by(crate::order::lex_order()),
            entry_names(entries@.map_values(|e: (String, bool)| entry_view(e)), false).sort_by(crate::order::lex_order()),
        ),
{
    let ghost es = entries@.map_values(|e: (String, bool)| entry_view(e));
    let mut dirs: Vec<String> = Vec::new();
    let mut files: Vec<String> = Vec::new();
    let skip: [&str; 7] = ["vendor", "target", "node_modules", ".git", "dist", "build", ".gitmodules"];
    assert(views(skip@) =~= skip_dirs());
    let mut i: usize = 0;
    assert(es.take(0) =~= seq![]);
    while i < entries.len()
        invariant
            i <= entries.len(),
            es == entries@.map_values(|e: (String, bool)| entry_view(e)),
            views(skip@) == skip_dirs(),
            strings_of(dirs@) == entry_names(es.take(i as int), true),
            strings_of(files@) == entry_names(es.take(i as int), false),
        decreases entries.len() - i,
    {
        let name = &entries[i].0;
        let c = chars_of(name.as_str());
        let mut skipped = c.len() > 0 && c[0] == '.';
        let mut k: usize = 0;
        while k < 7
            invariant
                k <= 7,
                views(skip@) == skip_dirs(),
                skipped == ((c@.len() > 0 && c@[0] == '.') || exists|j: int| 0 <= j < k && skip_dirs()[j] == name@),
            decreases 7 - k,
        {
            if str_eq(skip[k], name.as_str()) {
                skipped = true;
            }
            k = k + 1;
        }
        assert(skip_dirs().contains(name@) == exists|j: int| 0 <= j < 7 && skip_dirs()[j] == name@);
        let ghost bd = strings_of(dirs@);
        let ghost bf = strings_of(files@);
        assert(es.take(i + 1).drop_last() =~= es.take(i as int));
        assert(es.take(i + 1).last() == (name@, entries@[i as int].1));
        if !skipped {
            if entries[i].1 {
                dirs.push(copy_str(name.as_str()));
                assert(strings_of(dirs@) =~= bd.push(name@));
            } else {
                files.push(copy_str(name.as_str()));
                assert(strings_of(files@) =~= bf.push(name@));
            }
        }
        i = i + 1;
    }
    assert(es.take(entries.len() as int) =~= es);
    let dirs = crate::order::sort_strings(dirs);
    let files = crate::order::sort_strings(files);
    let mut out: Vec<char> = Vec::new();
    append_str(&mut out, ".\n");
    push_flat_lines(&mut out, &dirs, files.len() == 0, "/\n");
    push_flat_lines(&mut out, &files, true, "\n");
    string_of(&out)
}

/// The project tree: drawn from the file_list files when there are any, otherwise the fallback
/// tree of the working directory's entries.
pub fn project_tree(files: &Vec<String>, entries: &Vec<(String, bool)>) -> (r: String)
    ensures
        files@.len() > 0 ==> r@ == tree_spec(strings_of(files@)),
        files@.len() == 0 ==> r@ == fallback_spec(
            entry_names(entries@.map_values(|e: (String, bool)| entry_view(e)), true).sort_by(crate::order::lex_order()),
            entry_names(entries@.map_values(|e: (String, bool)| entry_view(e)), false).sort_by(crate::order::lex_order()),
        ),
{
    if files.len() > 0 {
        build_tree_from_files(files)
    } else {
        fallback_tree(entries)
    }
}


// ---------------------------------------------------------------------------
// Project questions
// ---------------------------------------------------------------------------

pub open spec fn project_phrases() -> Seq<Seq<char>> {
    seq![
        "what is this project"@, "what does this project"@, "describe this project"@,
        "what is this code"@, "what does this code"@, "explain this repository"@,
        "describe this repository"@,
    ]
}

/// A question about the project itself, recognised in the lower-cased task.
pub open spec fn project_query_spec(task: Seq<char>) -> bool {
    contains_any(crate::text::unicode_lower(task), project_phrases())
}

/// Whether a task asks what the project is (such a task gets the project's context).
pub fn is_project_query(task: &str) -> (r: bool)
    ensures
        r == project_query_spec(task@),
{
    let lower = chars_of(crate::text::to_lowercase(task).as_str());
    let phrases: [&str; 7] = [
        "what is this project",
        "what does this project",
        "describe this project",
        "what is this code",
        "what does this code",
        "explain this repository",
        "describe this repository",
    ];
    assert(views(phrases@) =~= project_phrases());
    contains_any_exec(&lower, phrases.as_slice())
}

/// What the working directory shows about the project: its README, manifests, the directories
/// under `src`, its `.gitignore`, and the output of listing its file_list files (empty when that
/// failed).
pub struct ProjectFacts {
    pub readme: Option<String>,
    pub cargo_toml: Option<String>,
    pub package_json: Option<String>,
    pub src_dirs: Vec<String>,
    pub gitignore: Option<String>,
    pub file_list: String,
}

/// The first `n` lines of a text joined by newlines.
pub open spec fn preview(text: Seq<char>, n: nat) -> Seq<char> {
    join_with(
        lines_seq(text).take(if lines_seq(text).len() < n { lines_seq(text).len() as int } else { n as int }),
        "\n"@,
    )
}

/// A titled preview of a file, when it was read.
pub open spec fn file_block(title: Seq<char>, text: Option<Seq<char>>, n: nat) -> Seq<char> {
    match text {
        Some(t) => title + ":\n"@ + preview(t, n) + "\n\n"@,
        None => seq![],
    }
}

/// The project context gathered for a project question.
pub open spec fn context_info(
    readme: Option<Seq<char>>,
    cargo_toml: Option<Seq<char>>,
    package_json: Option<Seq<char>>,
    src_dirs: Seq<Seq<char>>,
    gitignore: Option<Seq<char>>,
    file_list: Seq<char>,
) -> Seq<char> {
    let dirs = src_dirs.sort_by(crate::order::lex_order());
    file_block("README.md"@, readme, 40) + (if cargo_toml is Some {
        file_block("Cargo.toml"@, cargo_toml, 30)
    } else {
        file_block("package.json"@, package_json, 30)
    }) + (if dirs.len() > 0 {
        "src/: "@ + join_with(dirs, ", "@) + "\n\n"@
    } else {
        seq![]
    }) + file_block(".gitignore"@, gitignore, 20) + (if file_list.len() > 0 {
        "Project files:\n"@ + preview(file_list, 50) + "\n"@
    } else {
        seq![]
    })
}

/// The task as it goes to the model: a project question with its project context appended (when
/// there is any), any other task unchanged.
pub open spec fn prepared_task_spec(task: Seq<char>, info: Seq<char>) -> Seq<char> {
    if !project_query_spec(task) || info.len() == 0 {
        task
    } else {
        task + "\n\n--- Project Context ---\n"@ + info
            + "\n--- End Context ---\n\nSummarize what this project is and how it is organized."@
    }
}

fn push_preview(out: &mut String, text: &str, n: usize)
    ensures
        final(out)@ == old(out)@ + preview(text@, n as nat),
{
    let c = chars_of(text);
    let ls = crate::text::lines(&c);
    let ghost lv = seqs(ls@);
    assert(lv =~= lines_seq(text@));
    let m: usize = if ls.len() < n { ls.len() } else { n };
    let mut first: Vec<Vec<char>> = Vec::new();
    let mut k: usize = 0;
    while k < m
        invariant
            k <= m <= ls.len(),
            lv == seqs(ls@),
            seqs(first@) =~= lv.take(k as int),
        decreases m - k,
    {
        let piece = slice(&ls[k], 0, ls[k].len());
        let ghost b = seqs(first@);
        assert(ls@[k as int]@.subrange(0, ls@[k as int]@.len() as int) =~= ls@[k as int]@);
        first.push(piece);
        assert(seqs(first@) =~= b.push(lv[k as int]));
        k = k + 1;
    }
    let joined = join_chars(&first, "\n");
    push_chars(out, &joined);
}

fn push_file_block(out: &mut String, title: &str, text: &Option<String>, n: usize)
    ensures
        final(out)@ == old(out)@ + file_block(title@, opt_view(*text), n as nat),
{
    match text {
        Some(t) => {
            push_str(out, title);
            push_str(out, ":\n");
            push_preview(out, t.as_str(), n);
            push_str(out, "\n\n");
        },
        None => {},
    }
}

/// The context assembled from the project facts.
#[verifier::spinoff_prover]
#[verifier::rlimit(40)]
pub fn project_context(facts: &ProjectFacts) -> (r: String)
    ensures
        r@ == context_info(
            opt_view(facts.readme),
            opt_view(facts.cargo_toml),
            opt_view(facts.package_json),
            strings_of(facts.src_dirs@),
            opt_view(facts.gitignore),
            facts.file_list@,
        ),
{
    let mut info = String::new();
    push_file_block(&mut info, "README.md", &facts.readme, 40);
    if facts.cargo_toml.is_some() {
        push_file_block(&mut info, "Cargo.toml", &facts.cargo_toml, 30);
    } else {
        push_file_block(&mut info, "package.json", &facts.package_json, 30);
    }
    let mut copies: Vec<String> = Vec::new();
    let mut i: usize = 0;
    while i < facts.src_dirs.len()
        invariant
            i <= facts.src_dirs.len(),
            strings_of(copies@) =~= strings_of(facts.src_dirs@).take(i as int),
        decreases facts.src_dirs.len() - i,
    {
        let ghost b = strings_of(copies@);
        copies.push(copy_str(facts.src_dirs[i].as_str()));
        assert(strings_of(copies@) =~= b.push(facts.src_dirs@[i as int]@));
        i = i + 1;
    }
    assert(strings_of(facts.src_dirs@).take(facts.src_dirs.len() as int) =~= strings_of(facts.src_dirs@));
    let dirs = crate::order::sort_strings(copies);
    if dirs.len() > 0 {
        let mut parts: Vec<Vec<char>> = Vec::new();
        let mut k: usize = 0;
        while k < dirs.len()
            invariant
                k <= dirs.len(),
                seqs(parts@) =~= strings_of(dirs@).take(k as int),
            decreases dirs.len() - k,
        {
            let ghost b = seqs(parts@);
            parts.push(chars_of(dirs[k].as_str()));
            assert(seqs(parts@) =~= b.push(dirs@[k as int]@));
            k = k + 1;
        }
        assert(strings_of(dirs@).take(dirs.len() as int) =~= strings_of(dirs@));
        push_str(&mut info, "src/: ");
        push_chars(&mut info, &join_chars(&parts, ", "));
        push_str(&mut info, "\n\n");
    }
    push_file_block(&mut info, ".gitignore", &facts.gitignore, 20);
    if !facts.file_list.as_str().is_empty() {
        push_str(&mut info, "Project files:\n");
        push_preview(&mut info, facts.file_list.as_str(), 50);
        push_str(&mut info, "\n");
    }
    assert(info@ =~= context_info(
        opt_view(facts.readme),
        opt_view(facts.cargo_toml),
        opt_view(facts.package_json),
        strings_of(facts.src_dirs@),
        opt_view(facts.gitignore),
        facts.file_list@,
    ));
    info
}

/// Prepare a task for the model: a question about the project gets the project's context, read
/// by the caller into `facts`.
pub fn prepare_task(task: &str, facts: &ProjectFacts) -> (r: String)
    ensures
        r@ == prepared_task_spec(
            task@,
            context_info(
                opt_view(facts.readme),
                opt_view(facts.cargo_toml),
                opt_view(facts.package_json),
                strings_of(facts.src_dirs@),
                opt_view(facts.gitignore),
                facts.file_list@,
            ),
        ),
{
    if !is_project_query(task) {
        return copy_str(task);
    }
    let info = project_context(facts);
    if info.as_str().is_empty() {
        return copy_str(task);
    }
    let mut r = String::new();
    push_str(&mut r, task);
    push_str(&mut r, "\n\n--- Project Context ---\n");
    push_str(&mut r, info.as_str());
    push_str(&mut r, "\n--- End Context ---\n\nSummarize what this project is and how it is organized.");
    r
}

// ---------------------------------------------------------------------------
// Terminal output
// ---------------------------------------------------------------------------

/// What `markdown_to_ansi::render` gives for a text with syntax highlighting and code
/// backgrounds on, at the given width.
pub uninterp spec fn ansi_markdown(text: Seq<char>, width: Option<usize>) -> Seq<char>;

/// `markdown_to_ansi::render` with syntax highlighting and code backgrounds on; the contract ties
/// the result to the name `ansi_markdown`.
#[verifier::external_body]
fn render_markdown(text: &str, width: Option<usize>) -> (r: String)
    ensures
        r@ == ansi_markdown(text@, width),
{
    let opts = markdown_to_ansi::Options { syntax_highlight: true, width, code_bg: true };
    markdown_to_ansi::render(text, &opts)
}

/// How an answer is printed: rendered from markdown for a human, as it is for a model.
pub fn answer_output(text: &str, mode: Mode, width: Option<usize>) -> (r: String)
    ensures
        mode == Mode::User ==> r@ == ansi_markdown(text@, width),
        mode == Mode::Model ==> r@ == text@,
{
    match mode {
        Mode::User => render_markdown(text, width),
        Mode::Model => copy_str(text),
    }
}

/// The terminal width: the `COLUMNS` value when it is positive, otherwise 80.
pub fn term_width(columns: Option<usize>) -> (r: usize)
    ensures
        r == match columns {
            Some(w) => if w > 0 { w } else { 80 },
            None => 80,
        },
{
    match columns {
        Some(w) => if w > 0 { w } else { 80 },
        None => 80,
    }
}

/// Lines of a running command's output kept on screen.
pub const TAIL_ROWS: usize = 5;

/// The markdown of the live output box: the tail's lines, each clipped to `w`, in a bash block.
pub open spec fn block_markdown(tail: Seq<Seq<char>>, w: nat) -> Seq<char> {
    "```bash\n"@ + Seq::new(tail.len(), |i: int| clip_spec(tail[i], w) + "\n"@).flatten() + "```"@
}

/// Drop trailing newlines.
pub open spec fn trim_newlines_end(s: Seq<char>) -> Seq<char>
    decreases s.len(),
{
    if s.len() > 0 && s.last() == '\n' {
        trim_newlines_end(s.drop_last())
    } else {
        s
    }
}

/// The width left for a line of the output box in a terminal of `term` columns.
pub open spec fn box_width(term: nat) -> nat {
    if term >= 5 { (term - 5) as nat } else { 0 }
}

/// Render the live output box for the last lines of a running command.
pub fn render_block(tail: &VecDeque<String>, term: usize) -> (r: String)
    ensures
        r@ == trim_newlines_end(
            ansi_markdown(
                block_markdown(strings_of(tail@), box_width(term as nat)),
                Some((box_width(term as nat) + 1) as usize),
            ),
        ),
{
    let w: usize = if term >= 5 { term - 5 } else { 0 };
    let ghost ts = strings_of(tail@);
    let mut md = String::new();
    push_str(&mut md, "```bash\n");
    let ghost start = md@;
    let mut i: usize = 0;
    assert(Seq::new(0, |k: int| clip_spec(ts[k], w as nat) + "\n"@).flatten() =~= seq![]) by {
        assert(Seq::new(0, |k: int| clip_spec(ts[k], w as nat) + "\n"@) =~= seq![]);
    }
    while i < tail.len()
        invariant
            i <= tail.len(),
            ts == strings_of(tail@),
            md@ == start + Seq::new(i as nat, |k: int| clip_spec(ts[k], w as nat) + "\n"@).flatten(),
        decreases tail.len() - i,
    {
        let c = clip(tail[i].as_str(), w);
        push_str(&mut md, c.as_str());
        push_str(&mut md, "\n");
        proof {
            let line = clip_spec(ts[i as int], w as nat) + "\n"@;
            assert(Seq::new((i + 1) as nat, |k: int| clip_spec(ts[k], w as nat) + "\n"@)
                =~= Seq::new(i as nat, |k: int| clip_spec(ts[k], w as nat) + "\n"@).push(line));
            Seq::new(i as nat, |k: int| clip_spec(ts[k], w as nat) + "\n"@).lemma_flatten_push(line);
        }
        assert(md@ =~= start + Seq::new((i + 1) as nat, |k: int| clip_spec(ts[k], w as nat) + "\n"@).flatten());
        i = i + 1;
    }
    push_str(&mut md, "```");
    assert(md@ =~= block_markdown(ts, w as nat));
    let rendered = chars_of(render_markdown(md.as_str(), Some(w + 1)).as_str());
    let mut end = rendered.len();
    assert(rendered@.subrange(0, end as int) =~= rendered@);
    while end > 0 && rendered[end - 1] == '\n'
        invariant
            end <= rendered.len(),
            trim_newlines_end(rendered@) == trim_newlines_end(rendered@.subrange(0, end as int)),
        decreases end,
    {
        assert(rendered@.subrange(0, end as int).drop_last() =~= rendered@.subrange(0, end - 1));
        end = end - 1;
    }
    string_of(&slice(&rendered, 0, end))
}

/// The last lines of a running command's output, oldest first.
pub struct TailView {
    pub tail: VecDeque<String>,
}

/// `lines` with one more line, keeping the last `TAIL_ROWS`.
pub open spec fn tail_push(lines: Seq<Seq<char>>, line: Seq<char>) -> Seq<Seq<char>> {
    if lines.len() >= 5 {
        lines.subrange(lines.len() - 4, lines.len() as int).push(line)
    } else {
        lines.push(line)
    }
}

impl TailView {
    pub fn new() -> (r: TailView)
        ensures
            r.tail@.len() == 0,
    {
        TailView { tail: VecDeque::new() }
    }

    /// Add a line, dropping the oldest ones so that at most `TAIL_ROWS` are kept.
    pub fn push_line(&mut self, line: String)
        ensures
            strings_of(final(self).tail@) == tail_push(strings_of(old(self).tail@), line@),
            final(self).tail@.len() <= 5,
    {
        let ghost before = strings_of(self.tail@);
        while self.tail.len() >= TAIL_ROWS
            invariant
                before.len() >= 5 ==> strings_of(self.tail@) == before.subrange(
                    before.len() - self.tail@.len(),
                    before.len() as int,
                ),
                before.len() >= 5 ==> self.tail@.len() >= 4,
                self.tail@.len() <= before.len(),
                before.len() < 5 ==> strings_of(self.tail@) == before,
            decreases self.tail@.len(),
        {
            let ghost prev = strings_of(self.tail@);
            let _ = self.tail.pop_front();
            assert(strings_of(self.tail@) =~= prev.subrange(1, prev.len() as int));
            assert(before.len() >= 5 ==> strings_of(self.tail@) =~= before.subrange(
                before.len() - self.tail@.len(),
                before.len() as int,
            ));
        }
        let ghost mid = strings_of(self.tail@);
        let ghost lv = line@;
        self.tail.push_back(line);
        assert(strings_of(self.tail@) =~= mid.push(lv));
    }
}

/// Repaint the live box on its first line, then at most every 70 ms.
pub fn should_redraw(shown: bool, since_last_ms: u64) -> (r: bool)
    ensures
        r == (!shown || since_last_ms >= 70),
{
    !shown || since_last_ms >= 70
}

/// How many rows a painted text takes: its newlines.
pub open spec fn newline_count(s: Seq<char>) -> nat
    decreases s.len(),
{
    if s.len() == 0 {
        0
    } else {
        newline_count(s.drop_last()) + if s.last() == '\n' { 1nat } else { 0nat }
    }
}

/// The number of newlines in `s`.
pub fn count_newlines(s: &str) -> (r: usize)
    ensures
        r == newline_count(s@),
{
    let c = chars_of(s);
    let mut n: usize = 0;
    let mut i: usize = 0;
    assert(c@.take(0) =~= seq![]);
    while i < c.len()
        invariant
            i <= c.len(),
            n == newline_count(c@.take(i as int)),
            n <= i,
        decreases c.len() - i,
    {
        assert(c@.take(i + 1).drop_last() =~= c@.take(i as int));
        if c[i] == '\n' {
            n = n + 1;
        }
        i = i + 1;
    }
    assert(c@.take(c.len() as int) =~= c@);
    n
}

/// Splits a stream of output into lines: a newline ends a line, a carriage return is dropped.
pub struct LineSplitter {
    pub pending: String,
}

/// The completed lines and the text left pending after feeding `chunk` with `pending` waiting.
pub open spec fn split_feed(pending: Seq<char>, chunk: Seq<char>) -> (Seq<Seq<char>>, Seq<char>)
    decreases chunk.len(),
{
    if chunk.len() == 0 {
        (seq![], pending)
    } else {
        let c = chunk.last();
        let before = split_feed(pending, chunk.drop_last());
        if c == '\n' {
            (before.0.push(before.1), seq![])
        } else if c == '\r' {
            before
        } else {
            (before.0, before.1.push(c))
        }
    }
}

impl LineSplitter {
    pub fn new() -> (r: LineSplitter)
        ensures
            r.pending@.len() == 0,
    {
        LineSplitter { pending: String::new() }
    }

    /// Feed a chunk of output; get the lines it completed.
    pub fn feed(&mut self, chunk: &str) -> (r: Vec<String>)
        ensures
            (strings_of(r@), final(self).pending@) == split_feed(old(self).pending@, chunk@),
    {
        let c = chars_of(chunk);
        let mut done: Vec<String> = Vec::new();
        let mut i: usize = 0;
        assert(c@.take(0) =~= seq![]);
        assert(strings_of(done@) =~= seq![]);
        while i < c.len()
            invariant
                i <= c.len(),
                (strings_of(done@), self.pending@) == split_feed(old(self).pending@, c@.take(i as int)),
            decreases c.len() - i,
        {
            assert(c@.take(i + 1).drop_last() =~= c@.take(i as int));
            assert(c@.take(i + 1).last() == c@[i as int]);
            let ch = c[i];
            if ch == '\n' {
                let ghost pv = self.pending@;
                let line = copy_str(self.pending.as_str());
                let ghost b = strings_of(done@);
                done.push(line);
                assert(strings_of(done@) =~= b.push(pv));
                self.pending = String::new();
            } else if ch == '\r' {
            } else {
                push_char(&mut self.pending, ch);
            }
            i = i + 1;
        }
        assert(c@.take(c.len() as int) =~= c@);
        done
    }
}

/// The phrases shown beside the spinner while the model thinks.
pub open spec fn spinner_phrases() -> Seq<Seq<char>> {
    seq![
        "cooking"@, "brewing"@, "pondering"@, "crunching"@, "consulting the oracle"@,
        "sparking neurons"@, "weaving words"@,
    ]
}

/// The spinner's phrase, picked by the clock's nanoseconds.
pub fn spinner_label(nanos: u128) -> (r: &'static str)
    ensures
        r@ == spinner_phrases()[(nanos % 7) as int],
{
    let phrases: [&str; 7] = [
        "cooking",
        "brewing",
        "pondering",
        "crunching",
        "consulting the oracle",
        "sparking neurons",
        "weaving words",
    ];
    assert(views(phrases@) =~= spinner_phrases());
    let i = (nanos % 7) as usize;
    assert(phrases@[i as int]@ == views(phrases@)[i as int]);
    phrases[i]
}

} // verus!
