//! The built-in tools that the agent loop may call, their argument schemas, and the checks and
//! text shaping that surround a call. Running a tool touches the file system and is done by the
//! caller; everything decided around it is here.
use vstd::prelude::*;

use crate::json::{
    get_spec, get_str_spec, key_index, key_index_from, member_view, parse, serde_json_from_str,
    text_as_str, text_str, JsonModel, JsonValue,
};
use crate::text::{
    chars_of, contains_seq, contains_str, dec_seq, matches_at, index_of, index_of_exec, join_chars, join_lines,
    join_with, lemma_index_of, lines, lines_seq, push_char, push_chars, push_decimal, push_str, seqs,
    slice, split, split_seq, starts_with, starts_with_seq, str_eq, string_of, trim, trim_seq,
};

verus! {

/// A built-in tool.
#[derive(Debug, Clone, Copy, PartialEq, Eq)]
pub enum Tool {
    Read,
    Write,
    Edit,
    Glob,
    Grep,
    GraphifyReport,
}

pub open spec fn tool_name(t: Tool) -> Seq<char> {
    match t {
        Tool::Read => "read"@,
        Tool::Write => "write"@,
        Tool::Edit => "edit"@,
        Tool::Glob => "glob"@,
        Tool::Grep => "grep"@,
        Tool::GraphifyReport => "graphify_report"@,
    }
}

pub open spec fn tool_description(t: Tool) -> Seq<char> {
    match t {
        Tool::Read => "Read a file's contents"@,
        Tool::Write => "Write content to a file"@,
        Tool::Edit => "Edit a file by replacing an exact string match"@,
        Tool::Glob => "Find files matching a glob pattern"@,
        Tool::Grep => "Search file contents with a regex pattern"@,
        Tool::GraphifyReport => "Read the codebase knowledge graph overview (GRAPH_REPORT.md)"@,
    }
}

pub open spec fn tool_parameters(t: Tool) -> Seq<char> {
    match t {
        Tool::Read => "{\"type\":\"object\",\"properties\":{\"path\":{\"type\":\"string\",\"description\":\"File path relative to workdir\"}},\"required\":[\"path\"]}"@,
        Tool::Write => "{\"type\":\"object\",\"properties\":{\"path\":{\"type\":\"string\",\"description\":\"File path relative to workdir\"},\"content\":{\"type\":\"string\",\"description\":\"Content to write\"}},\"required\":[\"path\",\"content\"]}"@,
        Tool::Edit => "{\"type\":\"object\",\"properties\":{\"path\":{\"type\":\"string\",\"description\":\"File path relative to workdir\"},\"old\":{\"type\":\"string\",\"description\":\"Exact string to find (must match uniquely)\"},\"new\":{\"type\":\"string\",\"description\":\"Replacement string\"}},\"required\":[\"path\",\"old\",\"new\"]}"@,
        Tool::Glob => "{\"type\":\"object\",\"properties\":{\"pattern\":{\"type\":\"string\",\"description\":\"Glob pattern relative to workdir\"}},\"required\":[\"pattern\"]}"@,
        Tool::Grep => "{\"type\":\"object\",\"properties\":{\"pattern\":{\"type\":\"string\",\"description\":\"Regex pattern to search for\"},\"path\":{\"type\":\"string\",\"description\":\"Directory or file to search in (relative to workdir, default: .)\"}},\"required\":[\"pattern\"]}"@,
        Tool::GraphifyReport => "{\"type\":\"object\",\"properties\":{},\"required\":[]}"@,
    }
}

impl Tool {
    /// The name the model calls the tool by.
    pub fn name(self) -> (r: &'static str)
        ensures
            r@ == tool_name(self),
    {
        match self {
            Tool::Read => "read",
            Tool::Write => "write",
            Tool::Edit => "edit",
            Tool::Glob => "glob",
            Tool::Grep => "grep",
            Tool::GraphifyReport => "graphify_report",
        }
    }

    /// A one-line description shown to the model.
    pub fn description(self) -> (r: &'static str)
        ensures
            r@ == tool_description(self),
    {
        match self {
            Tool::Read => "Read a file's contents",
            Tool::Write => "Write content to a file",
            Tool::Edit => "Edit a file by replacing an exact string match",
            Tool::Glob => "Find files matching a glob pattern",
            Tool::Grep => "Search file contents with a regex pattern",
            Tool::GraphifyReport => "Read the codebase knowledge graph overview (GRAPH_REPORT.md)",
        }
    }

    /// The JSON Schema of the tool's arguments, as text.
    pub fn parameters(self) -> (r: &'static str)
        ensures
            r@ == tool_parameters(self),
    {
        match self {
            Tool::Read => "{\"type\":\"object\",\"properties\":{\"path\":{\"type\":\"string\",\"description\":\"File path relative to workdir\"}},\"required\":[\"path\"]}",
            Tool::Write => "{\"type\":\"object\",\"properties\":{\"path\":{\"type\":\"string\",\"description\":\"File path relative to workdir\"},\"content\":{\"type\":\"string\",\"description\":\"Content to write\"}},\"required\":[\"path\",\"content\"]}",
            Tool::Edit => "{\"type\":\"object\",\"properties\":{\"path\":{\"type\":\"string\",\"description\":\"File path relative to workdir\"},\"old\":{\"type\":\"string\",\"description\":\"Exact string to find (must match uniquely)\"},\"new\":{\"type\":\"string\",\"description\":\"Replacement string\"}},\"required\":[\"path\",\"old\",\"new\"]}",
            Tool::Glob => "{\"type\":\"object\",\"properties\":{\"pattern\":{\"type\":\"string\",\"description\":\"Glob pattern relative to workdir\"}},\"required\":[\"pattern\"]}",
            Tool::Grep => "{\"type\":\"object\",\"properties\":{\"pattern\":{\"type\":\"string\",\"description\":\"Regex pattern to search for\"},\"path\":{\"type\":\"string\",\"description\":\"Directory or file to search in (relative to workdir, default: .)\"}},\"required\":[\"pattern\"]}",
            Tool::GraphifyReport => "{\"type\":\"object\",\"properties\":{},\"required\":[]}",
        }
    }
}

/// The registry of built-in tools, in the order they are offered.
pub open spec fn builtin_tools() -> Seq<Tool> {
    seq![Tool::Read, Tool::Write, Tool::Edit, Tool::Glob, Tool::Grep, Tool::GraphifyReport]
}

/// The registry of built-in tools.
pub fn builtins() -> (r: Vec<Tool>)
    ensures
        r@ == builtin_tools(),
{
    let r = vec![Tool::Read, Tool::Write, Tool::Edit, Tool::Glob, Tool::Grep, Tool::GraphifyReport];
    assert(r@ =~= builtin_tools());
    r
}

/// The built-in tool called `name`, if there is one.
pub open spec fn resolve_spec(name: Seq<char>) -> Option<Tool> {
    if name == "read"@ {
        Some(Tool::Read)
    } else if name == "write"@ {
        Some(Tool::Write)
    } else if name == "edit"@ {
        Some(Tool::Edit)
    } else if name == "glob"@ {
        Some(Tool::Glob)
    } else if name == "grep"@ {
        Some(Tool::Grep)
    } else if name == "graphify_report"@ {
        Some(Tool::GraphifyReport)
    } else {
        None
    }
}

/// Resolve a tool name against the registry. Only the names of built-in tools resolve.
pub fn resolve(name: &str) -> (r: Option<Tool>)
    ensures
        r == resolve_spec(name@),
        r matches Some(t) ==> tool_name(t) == name@,
{
    if str_eq(name, "read") {
        Some(Tool::Read)
    } else if str_eq(name, "write") {
        Some(Tool::Write)
    } else if str_eq(name, "edit") {
        Some(Tool::Edit)
    } else if str_eq(name, "glob") {
        Some(Tool::Glob)
    } else if str_eq(name, "grep") {
        Some(Tool::Grep)
    } else if str_eq(name, "graphify_report") {
        Some(Tool::GraphifyReport)
    } else {
        None
    }
}

/// Every built-in tool is found again by its own name, and nothing but a built-in tool's name
/// resolves.
pub proof fn law_resolve_round_trip(t: Tool, name: Seq<char>)
    ensures
        resolve_spec(tool_name(t)) == Some(t),
        resolve_spec(name) matches Some(u) ==> tool_name(u) == name && builtin_tools().contains(u),
{
    reveal_strlit("read");
    reveal_strlit("write");
    reveal_strlit("edit");
    reveal_strlit("glob");
    reveal_strlit("grep");
    reveal_strlit("graphify_report");
    let (r, w, e, gl, gr, gi) = ("read"@, "write"@, "edit"@, "glob"@, "grep"@, "graphify_report"@);
    assert(r[0] != w[0] && e[0] != r[0] && e[0] != w[0]);
    assert(gl[0] != r[0] && gl[0] != w[0] && gl[0] != e[0]);
    assert(gr[0] != r[0] && gr[0] != w[0] && gr[0] != e[0] && gr[2] != gl[2]);
    assert(gi.len() != r.len() && gi.len() != w.len() && gi.len() != e.len());
    assert(gi.len() != gl.len() && gi.len() != gr.len());
    if let Some(u) = resolve_spec(name) {
        let k: int = match u {
            Tool::Read => 0,
            Tool::Write => 1,
            Tool::Edit => 2,
            Tool::Glob => 3,
            Tool::Grep => 4,
            Tool::GraphifyReport => 5,
        };
        assert(builtin_tools()[k] == u);
    }
}

// ---------------------------------------------------------------------------
// Argument validation
// ---------------------------------------------------------------------------

/// The JSON Schema type name of the value that a compact JSON text denotes, read from its first
/// character (JSON's grammar fixes a value's type by it).
pub open spec fn text_kind(t: Seq<char>) -> Seq<char> {
    if t.len() == 0 {
        "number"@
    } else if t[0] == 'n' {
        "null"@
    } else if t[0] == 't' || t[0] == 'f' {
        "boolean"@
    } else if t[0] == '"' {
        "string"@
    } else if t[0] == '[' {
        "array"@
    } else if t[0] == '{' {
        "object"@
    } else {
        "number"@
    }
}

/// The element texts of the schema's `required` array (none when it has no such array).
pub open spec fn required_items(schema: JsonModel) -> Seq<Seq<char>> {
    match get_spec(schema, "required"@) {
        Some(t) => match serde_json_from_str(t) {
            Ok(JsonModel::Array(items)) => items,
            _ => seq![],
        },
        None => seq![],
    }
}

/// The members of the schema's `properties` object (none when it has no such object).
pub open spec fn property_members(schema: JsonModel) -> Seq<(Seq<char>, Seq<char>)> {
    match get_spec(schema, "properties"@) {
        Some(t) => match serde_json_from_str(t) {
            Ok(JsonModel::Object(members)) => members,
            _ => seq![],
        },
        None => seq![],
    }
}

/// The first required field name (from item `i` on) that `args` lacks.
pub open spec fn first_missing(
    items: Seq<Seq<char>>,
    args: Seq<(Seq<char>, Seq<char>)>,
    i: int,
) -> Option<Seq<char>>
    decreases items.len() - i,
{
    if i < 0 || i >= items.len() {
        None
    } else {
        match text_as_str(items[i]) {
            Some(field) => if key_index_from(args, field, 0) is None {
                Some(field)
            } else {
                first_missing(items, args, i + 1)
            },
            None => first_missing(items, args, i + 1),
        }
    }
}

/// The type that a property's schema text declares, if any.
pub open spec fn declared_type(def: Seq<char>) -> Option<Seq<char>> {
    match serde_json_from_str(def) {
        Ok(d) => get_str_spec(d, "type"@),
        Err(_) => None,
    }
}

/// The first property (from member `i` on) that `args` has with another type than declared:
/// the field, the declared type and the actual type.
pub open spec fn first_mismatch(
    props: Seq<(Seq<char>, Seq<char>)>,
    args: Seq<(Seq<char>, Seq<char>)>,
    i: int,
) -> Option<(Seq<char>, Seq<char>, Seq<char>)>
    decreases props.len() - i,
{
    if i < 0 || i >= props.len() {
        None
    } else {
        let field = props[i].0;
        match key_index_from(args, field, 0) {
            Some(j) => match declared_type(props[i].1) {
                Some(expected) => if text_kind(args[j].1) != expected {
                    Some((field, expected, text_kind(args[j].1)))
                } else {
                    first_mismatch(props, args, i + 1)
                },
                None => first_mismatch(props, args, i + 1),
            },
            None => first_mismatch(props, args, i + 1),
        }
    }
}

/// What `validate_args` answers for a tool and an argument value.
pub open spec fn validate_spec(t: Tool, args: JsonModel) -> Result<(), Seq<char>> {
    let name = tool_name(t);
    match serde_json_from_str(tool_parameters(t)) {
        Err(e) => Err("invalid schema for "@ + name + ": "@ + e),
        Ok(schema) => match args {
            JsonModel::Object(f) => match first_missing(required_items(schema), f, 0) {
                Some(field) => Err(name + ": missing required field '"@ + field + "'"@),
                None => match first_mismatch(property_members(schema), f, 0) {
                    Some((field, expected, actual)) => Err(
                        name + ": field '"@ + field + "' must be "@ + expected + ", got "@ + actual,
                    ),
                    None => Ok(()),
                },
            },
            _ => Err(name + ": arguments must be a JSON object"@),
        },
    }
}

/// The schema type name of a compact JSON text.
pub fn text_kind_exec(t: &String) -> (r: &'static str)
    ensures
        r@ == text_kind(t@),
{
    let c = chars_of(t.as_str());
    if c.len() == 0 {
        "number"
    } else if c[0] == 'n' {
        "null"
    } else if c[0] == 't' || c[0] == 'f' {
        "boolean"
    } else if c[0] == '"' {
        "string"
    } else if c[0] == '[' {
        "array"
    } else if c[0] == '{' {
        "object"
    } else {
        "number"
    }
}

fn element_texts(schema: &JsonValue, key: &str) -> (r: Vec<String>)
    ensures
        r@.map_values(|s: String| s@) == (match get_spec(schema@, key@) {
            Some(t) => match serde_json_from_str(t) {
                Ok(JsonModel::Array(items)) => items,
                _ => seq![],
            },
            None => seq![],
        }),
{
    match schema.get(key) {
        Some(t) => match parse(t.as_str()) {
            Ok(JsonValue::Array(items)) => items,
            _ => Vec::new(),
        },
        None => Vec::new(),
    }
}

fn member_texts(schema: &JsonValue, key: &str) -> (r: Vec<(String, String)>)
    ensures
        r@.map_values(|p: (String, String)| member_view(p)) == (match get_spec(schema@, key@) {
            Some(t) => match serde_json_from_str(t) {
                Ok(JsonModel::Object(members)) => members,
                _ => seq![],
            },
            None => seq![],
        }),
{
    match schema.get(key) {
        Some(t) => match parse(t.as_str()) {
            Ok(JsonValue::Object(members)) => members,
            _ => Vec::new(),
        },
        None => Vec::new(),
    }
}

fn declared_type_exec(def: &String) -> (r: Option<String>)
    ensures
        match r {
            Some(s) => declared_type(def@) == Some(s@),
            None => declared_type(def@) is None,
        },
{
    match parse(def.as_str()) {
        Ok(d) => d.get_str("type"),
        Err(_) => None,
    }
}

fn push_text(s: &mut String, t: &String)
    ensures
        final(s)@ == old(s)@ + t@,
{
    push_str(s, t.as_str());
}

/// Check tool arguments against the tool's JSON Schema: the arguments must be an object, every
/// required field must be present, and every declared property that is present must have its
/// declared type.
pub fn validate_args(tool: Tool, args: &JsonValue) -> (r: Result<(), String>)
    ensures
        match r {
            Ok(()) => validate_spec(tool, args@) == Ok::<(), Seq<char>>(()),
            Err(e) => validate_spec(tool, args@) == Err::<(), Seq<char>>(e@),
        },
{
    let name = tool.name();
    let schema = match parse(tool.parameters()) {
        Ok(s) => s,
        Err(e) => {
            let mut m = String::new();
            push_str(&mut m, "invalid schema for ");
            push_str(&mut m, name);
            push_str(&mut m, ": ");
            push_text(&mut m, &e);
            return Err(m);
        },
    };
    let fields = match args {
        JsonValue::Object(f) => f,
        _ => {
            let mut m = String::new();
            push_str(&mut m, name);
            push_str(&mut m, ": arguments must be a JSON object");
            return Err(m);
        },
    };
    let ghost f = fields@.map_values(|p: (String, String)| member_view(p));
    let required = element_texts(&schema, "required");
    let ghost items = required@.map_values(|s: String| s@);
    assert(items == required_items(schema@));
    let mut i: usize = 0;
    while i < required.len()
        invariant
            i <= required.len(),
            items == required@.map_values(|s: String| s@),
            f == fields@.map_values(|p: (String, String)| member_view(p)),
            first_missing(items, f, 0) == first_missing(items, f, i as int),
            args@ == JsonModel::Object(f),
            serde_json_from_str(tool_parameters(tool)) == Ok::<JsonModel, Seq<char>>(schema@),
            name@ == tool_name(tool),
            items == required_items(schema@),
        decreases required.len() - i,
    {
        match text_str(&required[i]) {
            Some(field) => {
                if key_index(fields, field.as_str()).is_none() {
                    let mut m = String::new();
                    push_str(&mut m, name);
                    push_str(&mut m, ": missing required field '");
                    push_text(&mut m, &field);
                    push_str(&mut m, "'");
                    assert(m@ =~= name@ + ": missing required field '"@ + field@ + "'"@);
                    assert(items[i as int] == required@[i as int]@);
                    assert(first_missing(items, f, i as int) == Some(field@));
                    assert(args@ == JsonModel::Object(f));
                    return Err(m);
                }
            },
            None => {},
        }
        i = i + 1;
    }
    let props = member_texts(&schema, "properties");
    let ghost pm = props@.map_values(|p: (String, String)| member_view(p));
    assert(pm == property_members(schema@));
    let mut j: usize = 0;
    while j < props.len()
        invariant
            j <= props.len(),
            pm == props@.map_values(|p: (String, String)| member_view(p)),
            f == fields@.map_values(|p: (String, String)| member_view(p)),
            first_missing(items, f, 0) is None,
            first_mismatch(pm, f, 0) == first_mismatch(pm, f, j as int),
            args@ == JsonModel::Object(f),
            serde_json_from_str(tool_parameters(tool)) == Ok::<JsonModel, Seq<char>>(schema@),
            name@ == tool_name(tool),
            items == required_items(schema@),
            pm == property_members(schema@),
        decreases props.len() - j,
    {
        let field = &props[j].0;
        match key_index(fields, field.as_str()) {
            Some(k) => {
                match declared_type_exec(&props[j].1) {
                    Some(expected) => {
                        let actual = text_kind_exec(&fields[k].1);
                        if !str_eq(actual, expected.as_str()) {
                            let mut m = String::new();
                            push_str(&mut m, name);
                            push_str(&mut m, ": field '");
                            push_text(&mut m, field);
                            push_str(&mut m, "' must be ");
                            push_text(&mut m, &expected);
                            push_str(&mut m, ", got ");
                            push_str(&mut m, actual);
                            assert(m@ =~= name@ + ": field '"@ + field@ + "' must be "@ + expected@
                                + ", got "@ + actual@);
                            assert(pm[j as int] == member_view(props@[j as int]));
                            assert(f[k as int] == member_view(fields@[k as int]));
                            assert(first_mismatch(pm, f, j as int) == Some((field@, expected@, actual@)));
                            assert(args@ == JsonModel::Object(f));
                            return Err(m);
                        }
                    },
                    None => {},
                }
            },
            None => {},
        }
        j = j + 1;
    }
    Ok(())
}

// ---------------------------------------------------------------------------
// Output limiting
// ---------------------------------------------------------------------------

/// Output limiting policy: keep at most `max_lines` lines.
pub struct OutputLimiter {
    pub max_lines: usize,
}

/// What `OutputLimiter::truncate` gives: the first `max` lines, each ending in a newline, and a
/// note with the number of lines dropped when there were more.
pub open spec fn limit_spec(output: Seq<char>, max: nat) -> Seq<char> {
    cap_spec(output, max, " more lines truncated)\n"@)
}

/// The first `max` lines of `output`, each ending in a newline, and, when there were more, a
/// line `… (N` followed by `tail`, where `N` is the number of lines dropped.
pub open spec fn cap_spec(output: Seq<char>, max: nat, tail: Seq<char>) -> Seq<char> {
    let ls = lines_seq(output);
    if ls.len() <= max {
        join_lines(ls)
    } else {
        join_lines(ls.take(max as int)) + "… ("@ + dec_seq((ls.len() - max) as nat) + tail
    }
}

proof fn lemma_join_lines_push(ls: Seq<Seq<char>>, l: Seq<char>)
    ensures
        join_lines(ls.push(l)) == join_lines(ls) + l + seq!['\n'],
    decreases ls.len(),
{
    if ls.len() == 0 {
        reveal_with_fuel(join_lines, 2);
        assert(ls.push(l).drop_first() =~= seq![]);
        assert(join_lines(ls.push(l)) =~= l + seq!['\n']);
    } else {
        assert(ls.push(l).drop_first() =~= ls.drop_first().push(l));
        lemma_join_lines_push(ls.drop_first(), l);
        assert(join_lines(ls.push(l)) =~= join_lines(ls) + l + seq!['\n']);
    }
}

/// Appends `ls[0..n]`, each line followed by a newline.
pub fn push_lines(s: &mut String, ls: &Vec<Vec<char>>, n: usize)
    requires
        n <= ls.len(),
    ensures
        final(s)@ == old(s)@ + join_lines(ls@.map_values(|v: Vec<char>| v@).take(n as int)),
{
    let ghost lv = ls@.map_values(|v: Vec<char>| v@);
    let mut i: usize = 0;
    assert(lv.take(0) =~= seq![]);
    while i < n
        invariant
            i <= n <= ls.len(),
            lv == ls@.map_values(|v: Vec<char>| v@),
            s@ == old(s)@ + join_lines(lv.take(i as int)),
        decreases n - i,
    {
        push_chars(s, &ls[i]);
        push_char(s, '\n');
        proof {
            lemma_join_lines_push(lv.take(i as int), lv[i as int]);
            assert(lv.take(i as int).push(lv[i as int]) =~= lv.take(i + 1));
        }
        i = i + 1;
    }
}

impl OutputLimiter {
    /// Keep the first `max_lines` lines of `output`; when it has more, end with a line that says
    /// how many were dropped.
    pub fn truncate(&self, output: &str) -> (r: String)
        ensures
            r@ == limit_spec(output@, self.max_lines as nat),
    {
        cap_with(output, self.max_lines, " more lines truncated)\n")
    }
}

/// The first `max` lines of `output` and, when there were more, a note of how many were dropped
/// ending in `tail`.
pub fn cap_with(output: &str, max: usize, tail: &str) -> (r: String)
    ensures
        r@ == cap_spec(output@, max as nat, tail@),
{
    let c = chars_of(output);
    let ls = lines(&c);
    let ghost lv = ls@.map_values(|v: Vec<char>| v@);
    assert(lv =~= lines_seq(output@));
    let mut out = String::new();
    if ls.len() <= max {
        push_lines(&mut out, &ls, ls.len());
        assert(lv.take(ls.len() as int) =~= lv);
    } else {
        push_lines(&mut out, &ls, max);
        push_str(&mut out, "… (");
        push_decimal(&mut out, (ls.len() - max) as u64);
        push_str(&mut out, tail);
    }
    out
}


// ---------------------------------------------------------------------------
// Knowledge-graph report shortening
// ---------------------------------------------------------------------------

/// `s` without its leading `'#'` characters.
pub open spec fn strip_hashes(s: Seq<char>) -> Seq<char>
    decreases s.len(),
{
    if s.len() > 0 && s[0] == '#' {
        strip_hashes(s.drop_first())
    } else {
        s
    }
}

/// Where the reader of a report stands: the lines kept so far, whether it is inside a skipped
/// section, whether it is inside a community's detail, and how many communities it has seen.
pub struct ReportState {
    pub kept: Seq<Seq<char>>,
    pub skipping: bool,
    pub detail: bool,
    pub communities: nat,
}

/// The kept form of a community's `Cohesion:` or `Nodes ` line: a parenthesised node list of more
/// than five entries is cut to five and a count of the rest. `None` where the line's first `')'`
/// comes before its first `'('`, a line whose node list cannot be cut out.
pub open spec fn node_line(line: Seq<char>) -> Option<Seq<char>> {
    match index_of(line, '(') {
        Some(open) => match index_of(line, ')') {
            Some(close) => if close < open + 1 {
                None
            } else {
                let nodes = split_seq(line.subrange(open + 1, close), ", "@);
                if nodes.len() > 5 {
                    Some(line.subrange(0, open + 1) + join_with(nodes.take(5), ", "@) + " (+"@
                        + dec_seq((nodes.len() - 5) as nat) + " more)"@)
                } else {
                    Some(line)
                }
            },
            None => Some(line),
        },
        None => Some(line),
    }
}

/// One line read: section headers reset the state; the `Community Hubs` section and every
/// community after the fifteenth are skipped; inside a community only its cohesion and node lines
/// are kept, shortened; everything else is kept as it is.
pub open spec fn report_step(st: ReportState, line: Seq<char>) -> Option<ReportState> {
    if starts_with_seq(line, "## "@) || starts_with_seq(line, "### "@) {
        let header = trim_seq(strip_hashes(line));
        if starts_with_seq(header, "Community Hubs"@) {
            Some(ReportState { kept: st.kept, skipping: true, detail: false, communities: st.communities })
        } else if starts_with_seq(line, "### "@) && starts_with_seq(header, "Community "@) {
            let c = st.communities + 1;
            if c > 15 {
                Some(ReportState { kept: st.kept, skipping: true, detail: true, communities: c })
            } else {
                Some(ReportState { kept: st.kept.push(line), skipping: false, detail: true, communities: c })
            }
        } else {
            Some(ReportState { kept: st.kept.push(line), skipping: false, detail: false, communities: st.communities })
        }
    } else if st.skipping {
        Some(st)
    } else if st.detail {
        if contains_seq(line, "Cohesion:"@) || starts_with_seq(line, "Nodes "@) {
            match node_line(line) {
                Some(l) => Some(ReportState { kept: st.kept.push(l), skipping: st.skipping, detail: st.detail, communities: st.communities }),
                None => None,
            }
        } else {
            Some(st)
        }
    } else {
        Some(ReportState { kept: st.kept.push(line), skipping: st.skipping, detail: st.detail, communities: st.communities })
    }
}

/// The state after reading `lines` from `st`; `None` if a line cannot be read.
pub open spec fn report_run(lines: Seq<Seq<char>>, st: ReportState) -> Option<ReportState>
    decreases lines.len(),
{
    if lines.len() == 0 {
        Some(st)
    } else {
        match report_step(st, lines[0]) {
            Some(next) => report_run(lines.drop_first(), next),
            None => None,
        }
    }
}

pub open spec fn report_start() -> ReportState {
    ReportState { kept: seq![], skipping: false, detail: false, communities: 0 }
}

/// The shortened report: the kept lines joined by newlines, cut to `max` lines and a closing note
/// when that many or more were kept. `None` for a report with a node line that cannot be read.
pub open spec fn report_spec(content: Seq<char>, max: nat) -> Option<Seq<char>> {
    match report_run(lines_seq(content), report_start()) {
        Some(st) => Some(join_with(
            if st.kept.len() >= max {
                st.kept.take(max as int).push("… (report truncated)"@)
            } else {
                st.kept
            },
            "\n"@,
        )),
        None => None,
    }
}

fn strip_hashes_exec(s: &Vec<char>) -> (r: Vec<char>)
    ensures
        r@ == strip_hashes(s@),
{
    let mut a: usize = 0;
    assert(s@.subrange(0, s.len() as int) =~= s@);
    while a < s.len() && s[a] == '#'
        invariant
            a <= s.len(),
            strip_hashes(s@) == strip_hashes(s@.subrange(a as int, s.len() as int)),
        decreases s.len() - a,
    {
        assert(s@.subrange(a as int, s.len() as int).drop_first() =~= s@.subrange(a + 1, s.len() as int));
        a = a + 1;
    }
    slice(s, a, s.len())
}

fn node_line_exec(line: &Vec<char>) -> (r: Option<Vec<char>>)
    ensures
        match r {
            Some(l) => node_line(line@) == Some(l@),
            None => node_line(line@) is None,
        },
{
    proof {
        lemma_index_of(line@, '(');
        lemma_index_of(line@, ')');
    }
    let open = match index_of_exec(line, '(') {
        Some(o) => o,
        None => return Some(slice(line, 0, line.len())),
    };
    let close = match index_of_exec(line, ')') {
        Some(c) => c,
        None => return Some(slice(line, 0, line.len())),
    };
    if close <= open {
        return None;
    }
    let inner = slice(line, open + 1, close);
    proof {
        reveal_strlit(", ");
    }
    let nodes = split(&inner, ", ");
    if nodes.len() > 5 {
        let mut first: Vec<Vec<char>> = Vec::new();
        let mut k: usize = 0;
        while k < 5
            invariant
                k <= 5 < nodes.len(),
                seqs(first@) =~= seqs(nodes@).take(k as int),
            decreases 5 - k,
        {
            let piece = slice(&nodes[k], 0, nodes[k].len());
            let ghost prev = first@;
            assert(nodes@[k as int]@.subrange(0, nodes@[k as int]@.len() as int) =~= nodes@[k as int]@);
            first.push(piece);
            assert(seqs(first@) =~= seqs(prev).push(piece@));
            k = k + 1;
            assert(seqs(first@) =~= seqs(nodes@).take(k as int));
        }
        let mut out = slice(line, 0, open + 1);
        let joined = join_chars(&first, ", ");
        let mut tail = String::new();
        push_str(&mut tail, " (+");
        push_decimal(&mut tail, (nodes.len() - 5) as u64);
        push_str(&mut tail, " more)");
        let tv = chars_of(tail.as_str());
        let ghost o0 = out@;
        let mut k: usize = 0;
        while k < joined.len()
            invariant
                k <= joined.len(),
                out@ == o0 + joined@.subrange(0, k as int),
            decreases joined.len() - k,
        {
            out.push(joined[k]);
            k = k + 1;
            assert(out@ =~= o0 + joined@.subrange(0, k as int));
        }
        assert(joined@.subrange(0, joined.len() as int) =~= joined@);
        let ghost o1 = out@;
        let mut k: usize = 0;
        while k < tv.len()
            invariant
                k <= tv.len(),
                out@ == o1 + tv@.subrange(0, k as int),
            decreases tv.len() - k,
        {
            out.push(tv[k]);
            k = k + 1;
            assert(out@ =~= o1 + tv@.subrange(0, k as int));
        }
        assert(tv@.subrange(0, tv.len() as int) =~= tv@);
        assert(out@ =~= line@.subrange(0, open + 1) + join_with(split_seq(line@.subrange(open + 1, close as int), ", "@).take(5), ", "@) + " (+"@ + dec_seq((nodes.len() - 5) as nat) + " more)"@);
        Some(out)
    } else {
        Some(slice(line, 0, line.len()))
    }
}

/// The kept lines of a report, or `None` for a report with a node line that cannot be read.
fn report_lines(content: &str) -> (r: Option<Vec<Vec<char>>>)
    ensures
        match r {
            Some(kept) => report_run(lines_seq(content@), report_start()) matches Some(st)
                && seqs(kept@) == st.kept,
            None => report_run(lines_seq(content@), report_start()) is None,
        },
{
    let c = chars_of(content);
    let ls = lines(&c);
    let ghost all = seqs(ls@);
    assert(all =~= lines_seq(content@));
    let mut kept: Vec<Vec<char>> = Vec::new();
    let mut skipping = false;
    let mut detail = false;
    let mut communities: usize = 0;
    let mut i: usize = 0;
    assert(all.subrange(0, all.len() as int) =~= all);
    assert(seqs(kept@) =~= seq![]);
    while i < ls.len()
        invariant
            i <= ls.len(),
            all == seqs(ls@),
            all == lines_seq(content@),
            communities <= i,
            report_run(all, report_start()) == report_run(
                all.subrange(i as int, all.len() as int),
                ReportState { kept: seqs(kept@), skipping, detail, communities: communities as nat },
            ),
        decreases ls.len() - i,
    {
        let ghost st = ReportState { kept: seqs(kept@), skipping, detail, communities: communities as nat };
        let ghost rest = all.subrange(i as int, all.len() as int);
        assert(rest[0] == ls@[i as int]@);
        assert(rest.drop_first() =~= all.subrange(i + 1, all.len() as int));
        let line = &ls[i];
        let ghost before = kept@;
        if starts_with(line, "## ") || starts_with(line, "### ") {
            let header = trim(&strip_hashes_exec(line));
            if starts_with(&header, "Community Hubs") {
                skipping = true;
                detail = false;
            } else if starts_with(line, "### ") && starts_with(&header, "Community ") {
                communities = communities + 1;
                detail = true;
                if communities > 15 {
                    skipping = true;
                } else {
                    skipping = false;
                    kept.push(slice(line, 0, line.len()));
                    assert(line@.subrange(0, line@.len() as int) =~= line@);
                    assert(seqs(kept@) =~= seqs(before).push(line@));
                }
            } else {
                skipping = false;
                detail = false;
                kept.push(slice(line, 0, line.len()));
                assert(line@.subrange(0, line@.len() as int) =~= line@);
                assert(seqs(kept@) =~= seqs(before).push(line@));
            }
        } else if skipping {
        } else if detail {
            if contains_str(line, "Cohesion:") || starts_with(line, "Nodes ") {
                match node_line_exec(line) {
                    Some(l) => {
                        let ghost lv = l@;
                        kept.push(l);
                        assert(seqs(kept@) =~= seqs(before).push(lv));
                    },
                    None => {
                        assert(report_step(st, line@) is None);
                        assert(rest.len() > 0);
                        assert(report_run(rest, st) is None);
                        return None;
                    },
                }
            }
        } else {
            kept.push(slice(line, 0, line.len()));
            assert(line@.subrange(0, line@.len() as int) =~= line@);
            assert(seqs(kept@) =~= seqs(before).push(line@));
        }
        i = i + 1;
    }
    Some(kept)
}

/// Whether `truncate_report` can read `content`: no community node line has its first `')'`
/// before its first `'('`.
pub fn report_readable(content: &str) -> (r: bool)
    ensures
        r == (report_run(lines_seq(content@), report_start()) is Some),
{
    report_lines(content).is_some()
}

/// Shorten a knowledge-graph report to its key sections: drop the `Community Hubs` section, keep
/// at most fifteen communities with their cohesion and first five nodes, and cut the result to
/// `max_lines` lines with a closing note.
pub fn truncate_report(content: &str, max_lines: usize) -> (r: String)
    requires
        report_run(lines_seq(content@), report_start()) is Some,
    ensures
        report_spec(content@, max_lines as nat) == Some(r@),
{
    let mut kept = match report_lines(content) {
        Some(k) => k,
        None => {
            return String::new();
        },
    };
    let ghost kv = seqs(kept@);
    if kept.len() >= max_lines {
        kept.truncate(max_lines);
        let note = chars_of("… (report truncated)");
        kept.push(note);
        assert(seqs(kept@) =~= kv.take(max_lines as int).push("… (report truncated)"@));
    }
    let joined = join_chars(&kept, "\n");
    string_of(&joined)
}


// ---------------------------------------------------------------------------
// Paths and content search
// ---------------------------------------------------------------------------

/// `workdir.join(relative)` for POSIX paths: an absolute `relative` replaces the directory;
/// otherwise it is appended, with a `'/'` between them unless the directory is empty or already
/// ends in one.
pub open spec fn join_path(workdir: Seq<char>, relative: Seq<char>) -> Seq<char> {
    if relative.len() > 0 && relative[0] == '/' {
        relative
    } else if workdir.len() == 0 || workdir.last() == '/' {
        workdir + relative
    } else {
        workdir + seq!['/'] + relative
    }
}

/// Where a tool works: the directory its path arguments are resolved against.
pub struct ToolContext {
    pub workdir: String,
}

/// Resolve a tool's path argument against the working directory.
pub fn resolve_path(workdir: &str, relative: &str) -> (r: String)
    ensures
        r@ == join_path(workdir@, relative@),
{
    let rc = chars_of(relative);
    let wc = chars_of(workdir);
    let mut out = String::new();
    if rc.len() > 0 && rc[0] == '/' {
        push_str(&mut out, relative);
    } else if wc.len() == 0 || wc[wc.len() - 1] == '/' {
        push_str(&mut out, workdir);
        push_str(&mut out, relative);
    } else {
        push_str(&mut out, workdir);
        push_char(&mut out, '/');
        push_str(&mut out, relative);
    }
    out
}

#[verifier::external_type_specification]
#[verifier::external_body]
pub struct ExRegex(regex::Regex);

/// Whether `regex::Regex::new` refuses a pattern, and with what message.
pub uninterp spec fn regex_compile_error(pattern: Seq<char>) -> Option<Seq<char>>;

/// Whether the regex compiled from `pattern` matches somewhere in `haystack`.
pub uninterp spec fn regex_is_match(pattern: Seq<char>, haystack: Seq<char>) -> bool;

/// A compiled search pattern, with the text it was compiled from.
pub struct Pattern {
    re: regex::Regex,
    source: String,
}

impl Pattern {
    pub closed spec fn source_text(&self) -> Seq<char> {
        self.source@
    }
}

/// Compiles `pattern` with `regex::Regex::new`; the contract ties the outcome to the name
/// `regex_compile_error` and records the source text in the pattern.
#[verifier::external_body]
fn regex_new(pattern: &str) -> (r: Result<Pattern, String>)
    ensures
        match r {
            Ok(p) => regex_compile_error(pattern@) is None && p.source_text() == pattern@,
            Err(e) => regex_compile_error(pattern@) == Some(e@),
        },
{
    match regex::Regex::new(pattern) {
        Ok(re) => Ok(Pattern { re, source: pattern.to_string() }),
        Err(e) => Err(e.to_string()),
    }
}

/// `regex::Regex::is_match`; the contract ties the answer to the name `regex_is_match` of the
/// pattern's source text.
#[verifier::external_body]
fn regex_matches(p: &Pattern, haystack: &str) -> (r: bool)
    ensures
        r == regex_is_match(p.source_text(), haystack@),
{
    p.re.is_match(haystack)
}

/// Compile the grep tool's pattern; a refused pattern gives `"invalid regex: "` and the reason.
pub fn compile_pattern(pattern: &str) -> (r: Result<Pattern, String>)
    ensures
        match r {
            Ok(p) => regex_compile_error(pattern@) is None && p.source_text() == pattern@,
            Err(e) => regex_compile_error(pattern@) matches Some(m) && e@ == "invalid regex: "@ + m,
        },
{
    match regex_new(pattern) {
        Ok(p) => Ok(p),
        Err(e) => {
            let mut m = String::new();
            push_str(&mut m, "invalid regex: ");
            push_str(&mut m, e.as_str());
            Err(m)
        },
    }
}

/// The grep hits among lines `i..` of a file: `path:number:line` for each matching line,
/// numbered from one.
pub open spec fn grep_hits(path: Seq<char>, ls: Seq<Seq<char>>, pattern: Seq<char>, i: int) -> Seq<
    Seq<char>,
>
    decreases ls.len() - i,
{
    if i < 0 || i >= ls.len() {
        seq![]
    } else if regex_is_match(pattern, ls[i]) {
        seq![path + ":"@ + dec_seq((i + 1) as nat) + ":"@ + ls[i]] + grep_hits(path, ls, pattern, i + 1)
    } else {
        grep_hits(path, ls, pattern, i + 1)
    }
}

/// The views of a vector of strings.
pub open spec fn strings(v: Seq<String>) -> Seq<Seq<char>> {
    v.map_values(|s: String| s@)
}

/// Append to `results` a `path:number:line` entry for each line of `content` that the pattern
/// matches.
pub fn search_file_content(path: &str, content: &str, pattern: &Pattern, results: &mut Vec<String>)
    ensures
        strings(final(results)@) == strings(old(results)@) + grep_hits(
            path@,
            lines_seq(content@),
            pattern.source_text(),
            0,
        ),
{
    let c = chars_of(content);
    let ls = lines(&c);
    let ghost lv = seqs(ls@);
    assert(lv =~= lines_seq(content@));
    let ghost start = strings(results@);
    let mut i: usize = 0;
    assert(strings(results@) + grep_hits(path@, lv, pattern.source_text(), 0) =~= start + grep_hits(
        path@,
        lv,
        pattern.source_text(),
        0,
    ));
    while i < ls.len()
        invariant
            i <= ls.len(),
            lv == seqs(ls@),
            lv == lines_seq(content@),
            strings(results@) + grep_hits(path@, lv, pattern.source_text(), i as int) == start
                + grep_hits(path@, lv, pattern.source_text(), 0),
        decreases ls.len() - i,
    {
        let line = string_of(&ls[i]);
        if regex_matches(pattern, line.as_str()) {
            let mut hit = String::new();
            push_str(&mut hit, path);
            push_char(&mut hit, ':');
            push_decimal(&mut hit, (i + 1) as u64);
            push_char(&mut hit, ':');
            push_str(&mut hit, line.as_str());
            let ghost before = strings(results@);
            let ghost hv = hit@;
            results.push(hit);
            assert(strings(results@) =~= before.push(hv));
            proof {
                reveal_strlit(":");
            }
            assert(hv =~= path@ + ":"@ + dec_seq((i + 1) as nat) + ":"@ + lv[i as int]);
            assert(strings(results@) + grep_hits(path@, lv, pattern.source_text(), i + 1) =~= before
                + grep_hits(path@, lv, pattern.source_text(), i as int));
        }
        i = i + 1;
    }
}


// ---------------------------------------------------------------------------
// What the tools report
// ---------------------------------------------------------------------------

/// A tool's string argument `key`, or the error that it is missing.
pub fn required_arg(args: &JsonValue, key: &str) -> (r: Result<String, String>)
    ensures
        match r {
            Ok(v) => get_str_spec(args@, key@) == Some(v@),
            Err(e) => get_str_spec(args@, key@) is None && e@ == "missing '"@ + key@ + "'"@,
        },
{
    match args.get_str(key) {
        Some(v) => Ok(v),
        None => {
            let mut m = String::new();
            push_str(&mut m, "missing '");
            push_str(&mut m, key);
            push_str(&mut m, "'");
            Err(m)
        },
    }
}

/// How many non-overlapping occurrences of `n` there are in `h` from index `i` on, scanning left
/// to right (`str::matches(..).count()` for a non-empty pattern).
pub open spec fn count_from(h: Seq<char>, n: Seq<char>, i: int) -> nat
    decreases h.len() - i,
{
    if n.len() == 0 || i < 0 || i > h.len() {
        0
    } else {
        match crate::text::find_from(h, n, i) {
            Some(j) => if j >= i && j + n.len() <= h.len() {
                1 + count_from(h, n, j + n.len())
            } else {
                0
            },
            None => 0,
        }
    }
}

/// Occurrences of `n` in `h` as `str::matches(n).count()` counts them: an empty pattern matches
/// at each of the `h.len() + 1` positions.
pub open spec fn count_spec(h: Seq<char>, n: Seq<char>) -> nat {
    if n.len() == 0 {
        h.len() + 1
    } else {
        count_from(h, n, 0)
    }
}

/// The result of the edit tool on a file's content: the content with its one occurrence of `old`
/// replaced by `new`; an error when `old` occurs nowhere or more than once.
pub open spec fn edit_spec(content: Seq<char>, old: Seq<char>, new: Seq<char>, path: Seq<char>) -> Result<
    Seq<char>,
    Seq<char>,
> {
    let count = count_spec(content, old);
    if count == 0 {
        Err("'"@ + old + "' not found in "@ + path)
    } else if count > 1 {
        Err("'"@ + old + "' matches "@ + dec_seq(count) + " times in "@ + path + " — provide more context"@)
    } else {
        let j = crate::text::find_seq(content, old)->0;
        Ok(content.subrange(0, j) + new + content.subrange(j + old.len(), content.len() as int))
    }
}

fn count_matches(h: &Vec<char>, n: &Vec<char>) -> (r: u64)
    requires
        n.len() > 0,
    ensures
        r == count_from(h@, n@, 0),
{
    let mut count: u64 = 0;
    let mut i: usize = 0;
    while i <= h.len()
        invariant
            n.len() > 0,
            i <= h.len() + 1,
            count <= i,
            i <= h.len() ==> count + count_from(h@, n@, i as int) == count_from(h@, n@, 0),
            i > h.len() ==> count == count_from(h@, n@, 0),
        decreases h.len() + 1 - i,
    {
        proof {
            crate::text::lemma_find_from(h@, n@, i as int);
        }
        match find_from_exec(h, n, i) {
            Some(j) => {
                count = count + 1;
                i = j + n.len();
            },
            None => {
                return count;
            },
        }
    }
    count
}

/// First index `>= i` at which `n` occurs in `h`.
pub fn find_from_exec(h: &Vec<char>, n: &Vec<char>, i: usize) -> (r: Option<usize>)
    requires
        i <= h.len(),
    ensures
        r matches Some(j) ==> crate::text::find_from(h@, n@, i as int) == Some(j as int) && i <= j && j + n.len() <= h.len(),
        r is None ==> crate::text::find_from(h@, n@, i as int) is None,
{
    proof {
        crate::text::lemma_find_from(h@, n@, i as int);
    }
    if n.len() > h.len() {
        return None;
    }
    let last = h.len() - n.len();
    let mut k: usize = i;
    while k <= last
        invariant
            last == h.len() - n.len(),
            n.len() <= h.len(),
            i <= k <= last + 1 || k == i,
            i <= k,
            crate::text::find_from(h@, n@, i as int) == crate::text::find_from(h@, n@, k as int),
        decreases last + 1 - k,
    {
        if crate::text::matches_at_exec(h, n, k) {
            return Some(k);
        }
        if k == last {
            assert(crate::text::find_from(h@, n@, k as int + 1) is None);
            return None;
        }
        k = k + 1;
    }
    None
}

/// Apply the edit tool to a file's content.
pub fn edit_content(content: &str, old: &str, new: &str, path: &str) -> (r: Result<String, String>)
    ensures
        match r {
            Ok(t) => edit_spec(content@, old@, new@, path@) == Ok::<Seq<char>, Seq<char>>(t@),
            Err(e) => edit_spec(content@, old@, new@, path@) == Err::<Seq<char>, Seq<char>>(e@),
        },
{
    let h = chars_of(content);
    let n = chars_of(old);
    let count: u128 = if n.len() == 0 {
        (h.len() as u128) + 1
    } else {
        count_matches(&h, &n) as u128
    };
    if count == 0 {
        let mut m = String::new();
        push_str(&mut m, "'");
        push_str(&mut m, old);
        push_str(&mut m, "' not found in ");
        push_str(&mut m, path);
        return Err(m);
    }
    if count > 1 {
        let mut m = String::new();
        push_str(&mut m, "'");
        push_str(&mut m, old);
        push_str(&mut m, "' matches ");
        crate::text::push_decimal_wide(&mut m, count);
        push_str(&mut m, " times in ");
        push_str(&mut m, path);
        push_str(&mut m, " — provide more context");
        return Err(m);
    }
    proof {
        crate::text::lemma_find_seq(h@, n@);
        if n@.len() == 0 {
            assert(h@.subrange(0, 0) =~= n@);
            assert(matches_at(h@, n@, 0));
        }
    }
    let j = match crate::text::find(&h, &n) {
        Some(j) => j,
        None => {
            return Err(String::new());
        },
    };
    assert(matches_at(h@, n@, j as int));
    assert(j + n@.len() <= h@.len());
    assert(j + n.len() <= h.len());
    let mut out = string_of(&slice(&h, 0, j));
    push_str(&mut out, new);
    push_chars(&mut out, &slice(&h, j + n.len(), h.len()));
    Ok(out)
}

/// What the write tool reports: the bytes written (UTF-8) and the path.
pub fn write_report(content: &str, path: &str) -> (r: String)
    ensures
        r@ == "wrote "@ + dec_seq((vstd::utf8::encode_utf8(content@).len() as usize) as nat) + " bytes to "@ + path@,
{
    let mut m = String::new();
    push_str(&mut m, "wrote ");
    push_decimal(&mut m, content.len() as u64);
    push_str(&mut m, " bytes to ");
    push_str(&mut m, path);
    m
}

/// What the glob and grep tools report: their results sorted, one per line, or `none` when
/// there are none.
pub fn listing(results: Vec<String>, none: &str) -> (r: String)
    ensures
        results@.len() == 0 ==> r@ == none@,
        results@.len() > 0 ==> r@ == join_with(strings(results@).sort_by(crate::order::lex_order()), "\n"@),
{
    if results.len() == 0 {
        return crate::agent::prompt::copy_str(none);
    }
    let sorted = crate::order::sort_strings(results);
    let mut parts: Vec<Vec<char>> = Vec::new();
    let mut k: usize = 0;
    while k < sorted.len()
        invariant
            k <= sorted.len(),
            seqs(parts@) =~= strings(sorted@).take(k as int),
        decreases sorted.len() - k,
    {
        let ghost b = seqs(parts@);
        parts.push(chars_of(sorted[k].as_str()));
        assert(seqs(parts@) =~= b.push(sorted@[k as int]@));
        k = k + 1;
    }
    assert(strings(sorted@).take(sorted.len() as int) =~= strings(sorted@));
    string_of(&join_chars(&parts, "\n"))
}

/// What the knowledge-graph tool reports when only the graph file exists.
pub fn graph_only_report(len: usize) -> (r: String)
    ensures
        r@ == "graphify-out/graph.json exists ("@ + dec_seq(len as nat)
            + " bytes). Run 'graphify update .' to regenerate GRAPH_REPORT.md."@,
{
    let mut m = String::new();
    push_str(&mut m, "graphify-out/graph.json exists (");
    push_decimal(&mut m, len as u64);
    push_str(&mut m, " bytes). Run 'graphify update .' to regenerate GRAPH_REPORT.md.");
    m
}

} // verus!
