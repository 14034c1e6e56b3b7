//! Model qualification: whether a local model can drive the agent reliably. This is an
//! acceptance gate, not a benchmark: three tests, two single-step tool calls and one multi-step
//! run, each passed or failed with a reason and a transcript.
use vstd::prelude::*;
use vstd::utf8::encode_utf8;
use vstd::std_specs::hash::DefaultHasherAdditionalSpecFns;
use std::collections::hash_map::DefaultHasher;
use std::hash::Hasher;

use crate::agent::prompt::{
    decision_system, opt_view, parse_decision, parse_decision_spec, pair_view, system_prompt_spec,
    short_shell_note, decision_system_with_model, Decision, DecisionView, COTREX_SYSTEM_PROMPT,
};
use crate::agent::tool::{
    builtin_tools, builtins, limit_spec, resolve_spec, tool_name, tool_parameters, join_path,
    resolve_path, OutputLimiter, Tool,
};
use crate::json::{get_str_spec, JsonModel, JsonValue};
use crate::text::{
    contains_any, contains_seq, contains_str, dec_seq, join_with, push_decimal, push_str, str_eq,
    to_lowercase, unicode_lower, views, contains_any_exec, chars_of, int_seq,
};

verus! {

/// Whether a capability passed.
#[derive(Debug, Clone, Copy, PartialEq, Eq)]
pub enum CapabilityStatus {
    Passed,
    Failed,
    Unknown,
}

pub open spec fn status_name(s: CapabilityStatus) -> Seq<char> {
    match s {
        CapabilityStatus::Passed => "passed"@,
        CapabilityStatus::Failed => "failed"@,
        CapabilityStatus::Unknown => "unknown"@,
    }
}

impl CapabilityStatus {
    /// `"passed"`, `"failed"` or `"unknown"`.
    pub fn as_str(self) -> (r: &'static str)
        ensures
            r@ == status_name(self),
    {
        match self {
            CapabilityStatus::Passed => "passed",
            CapabilityStatus::Failed => "failed",
            CapabilityStatus::Unknown => "unknown",
        }
    }
}

/// One line of a qualification transcript.
#[derive(Debug, Clone)]
pub struct TranscriptEntry {
    pub role: String,
    pub content: String,
}

/// The outcome of one qualification test.
#[derive(Debug, Clone)]
pub struct TestResult {
    pub name: String,
    pub passed: bool,
    pub reason: Option<String>,
    pub transcript: Vec<TranscriptEntry>,
}

/// The qualification of a model: each capability's status (one entry per capability, in the
/// order first tested) and each test's outcome.
#[derive(Debug, Clone)]
pub struct QualificationResult {
    pub model_id: String,
    pub timestamp: String,
    pub runtime_version: String,
    pub prompt_hash: String,
    pub capabilities: Vec<(String, CapabilityStatus)>,
    pub tests: Vec<TestResult>,
}

/// The version of the runtime that a qualification is made with.
pub const RUNTIME_VERSION: &'static str = "3.0.0";

/// The qualification tests.
#[derive(Debug, Clone, Copy, PartialEq, Eq)]
pub enum QualTest {
    /// The model must call `read` on `README.md`.
    ReadTool,
    /// The model must call `glob` with a `*.rs` pattern.
    GlobTool,
    /// The model must reach an answer within four steps without repeating itself.
    MultiStep,
}

pub open spec fn test_name(t: QualTest) -> Seq<char> {
    match t {
        QualTest::ReadTool => "tool_calling.read"@,
        QualTest::GlobTool => "tool_calling.glob"@,
        QualTest::MultiStep => "multi_step"@,
    }
}

pub open spec fn test_capability(t: QualTest) -> Seq<char> {
    match t {
        QualTest::ReadTool => "tool_calling"@,
        QualTest::GlobTool => "tool_calling"@,
        QualTest::MultiStep => "multi_step"@,
    }
}

pub open spec fn test_prompt(t: QualTest) -> Seq<char> {
    match t {
        QualTest::ReadTool => "Read README.md"@,
        QualTest::GlobTool => "Find all Rust source files in this project."@,
        QualTest::MultiStep => "Explain what this project is. Use tools if needed."@,
    }
}

/// The qualification tests, in the order they run.
pub open spec fn qualification_tests_spec() -> Seq<QualTest> {
    seq![QualTest::ReadTool, QualTest::GlobTool, QualTest::MultiStep]
}

impl QualTest {
    pub fn name(self) -> (r: &'static str)
        ensures
            r@ == test_name(self),
    {
        match self {
            QualTest::ReadTool => "tool_calling.read",
            QualTest::GlobTool => "tool_calling.glob",
            QualTest::MultiStep => "multi_step",
        }
    }

    pub fn capability(self) -> (r: &'static str)
        ensures
            r@ == test_capability(self),
    {
        match self {
            QualTest::ReadTool => "tool_calling",
            QualTest::GlobTool => "tool_calling",
            QualTest::MultiStep => "multi_step",
        }
    }

    pub fn prompt(self) -> (r: &'static str)
        ensures
            r@ == test_prompt(self),
    {
        match self {
            QualTest::ReadTool => "Read README.md",
            QualTest::GlobTool => "Find all Rust source files in this project.",
            QualTest::MultiStep => "Explain what this project is. Use tools if needed.",
        }
    }
}

/// The qualification tests.
pub fn qualification_tests() -> (r: Vec<QualTest>)
    ensures
        r@ == qualification_tests_spec(),
{
    let r = vec![QualTest::ReadTool, QualTest::GlobTool, QualTest::MultiStep];
    assert(r@ =~= qualification_tests_spec());
    r
}

// ---------------------------------------------------------------------------
// Validating a decision
// ---------------------------------------------------------------------------

/// The verdict on a tool test's decision: the expected tool, with the string argument `key`
/// passing `accept`; `describe` words a rejected argument.
pub open spec fn tool_verdict(
    d: DecisionView,
    expected: Seq<char>,
    key: Seq<char>,
    argument_ok: bool,
    rejection: Seq<char>,
) -> Result<(), Seq<char>> {
    match d {
        DecisionView::Tool { tool, args, args_text, say } => if tool_name(tool) != expected {
            Err("expected tool '"@ + expected + "', got '"@ + tool_name(tool) + "'"@)
        } else {
            match get_str_spec(args, key) {
                None => Err("missing '"@ + key + "' argument"@),
                Some(v) => if argument_ok {
                    Ok(())
                } else {
                    Err(rejection)
                },
            }
        },
        DecisionView::Run { say, cmd } => Err("expected tool call, got shell command: "@ + cmd),
        DecisionView::Answer(a) => Err("expected tool call, got answer: "@ + a),
        DecisionView::Retry(m) => Err(m),
    }
}

/// The greetings that a model answering instead of working gives away.
pub open spec fn greeting_markers() -> Seq<Seq<char>> {
    seq!["current working directory"@, "hi!"@, "hello"@]
}

/// What a test's validator says of the model's first decision.
pub open spec fn validate_spec(t: QualTest, d: DecisionView) -> Result<(), Seq<char>> {
    match t {
        QualTest::ReadTool => {
            let path = match d {
                DecisionView::Tool { tool, args, args_text, say } => get_str_spec(args, "path"@),
                _ => None,
            };
            tool_verdict(
                d,
                "read"@,
                "path"@,
                path == Some("README.md"@),
                "expected path 'README.md', got '"@ + path->0 + "'"@,
            )
        },
        QualTest::GlobTool => {
            let pattern = match d {
                DecisionView::Tool { tool, args, args_text, say } => get_str_spec(args, "pattern"@),
                _ => None,
            };
            tool_verdict(
                d,
                "glob"@,
                "pattern"@,
                contains_seq(pattern->0, "*.rs"@),
                "expected pattern containing '*.rs', got '"@ + pattern->0 + "'"@,
            )
        },
        QualTest::MultiStep => match d {
            DecisionView::Answer(a) => if contains_any(unicode_lower(a), greeting_markers()) {
                Err("model returned greeting instead of using tools: "@ + a)
            } else {
                Ok(())
            },
            _ => Ok(()),
        },
    }
}

/// The read test passes a read call only when its path is exactly `README.md`; any other
/// string path fails it with the path named, and a call to another tool fails it whatever its
/// arguments.
pub proof fn law_read_test_path(
    tool: Tool,
    args: JsonModel,
    args_text: Seq<char>,
    say: Option<Seq<char>>,
    p: Seq<char>,
)
    requires
        get_str_spec(args, "path"@) == Some(p),
    ensures
        tool == Tool::Read ==> (validate_spec(
            QualTest::ReadTool,
            DecisionView::Tool { tool, args, args_text, say },
        ) is Ok <==> p == "README.md"@),
        tool == Tool::Read && p != "README.md"@ ==> validate_spec(
            QualTest::ReadTool,
            DecisionView::Tool { tool, args, args_text, say },
        ) == Err::<(), Seq<char>>("expected path 'README.md', got '"@ + p + "'"@),
        tool != Tool::Read ==> validate_spec(
            QualTest::ReadTool,
            DecisionView::Tool { tool, args, args_text, say },
        ) is Err,
{
    reveal_strlit("read");
    reveal_strlit("write");
    reveal_strlit("edit");
    reveal_strlit("glob");
    reveal_strlit("grep");
    reveal_strlit("graphify_report");
    assert(tool != Tool::Read ==> tool_name(tool)[0] != "read"@[0] || tool_name(tool).len()
        != "read"@.len());
}

/// Check the model's first decision against what a test expects.
pub fn validate(t: QualTest, d: &Decision) -> (r: Result<(), String>)
    ensures
        match r {
            Ok(()) => validate_spec(t, d@) == Ok::<(), Seq<char>>(()),
            Err(e) => validate_spec(t, d@) == Err::<(), Seq<char>>(e@),
        },
{
    match t {
        QualTest::MultiStep => {
            match d {
                Decision::Answer(a) => {
                    let lower = chars_of(to_lowercase(a.as_str()).as_str());
                    let markers: [&str; 3] = ["current working directory", "hi!", "hello"];
                    assert(views(markers@) =~= greeting_markers());
                    if contains_any_exec(&lower, markers.as_slice()) {
                        let mut m = String::new();
                        push_str(&mut m, "model returned greeting instead of using tools: ");
                        push_str(&mut m, a.as_str());
                        Err(m)
                    } else {
                        Ok(())
                    }
                },
                _ => Ok(()),
            }
        },
        _ => {
            let (expected, key): (&str, &str) = match t {
                QualTest::ReadTool => ("read", "path"),
                _ => ("glob", "pattern"),
            };
            match d {
                Decision::Tool { tool, args, args_text, say } => {
                    if !str_eq(tool.name(), expected) {
                        let mut m = String::new();
                        push_str(&mut m, "expected tool '");
                        push_str(&mut m, expected);
                        push_str(&mut m, "', got '");
                        push_str(&mut m, tool.name());
                        push_str(&mut m, "'");
                        return Err(m);
                    }
                    match args.get_str(key) {
                        None => {
                            let mut m = String::new();
                            push_str(&mut m, "missing '");
                            push_str(&mut m, key);
                            push_str(&mut m, "' argument");
                            Err(m)
                        },
                        Some(v) => {
                            let ok = match t {
                                QualTest::ReadTool => str_eq(v.as_str(), "README.md"),
                                _ => contains_str(&chars_of(v.as_str()), "*.rs"),
                            };
                            if ok {
                                Ok(())
                            } else {
                                let mut m = String::new();
                                match t {
                                    QualTest::ReadTool => push_str(&mut m, "expected path 'README.md', got '"),
                                    _ => push_str(&mut m, "expected pattern containing '*.rs', got '"),
                                }
                                push_str(&mut m, v.as_str());
                                push_str(&mut m, "'");
                                Err(m)
                            }
                        },
                    }
                },
                Decision::Run { say, cmd } => {
                    let mut m = String::new();
                    push_str(&mut m, "expected tool call, got shell command: ");
                    push_str(&mut m, cmd.as_str());
                    Err(m)
                },
                Decision::Answer(a) => {
                    let mut m = String::new();
                    push_str(&mut m, "expected tool call, got answer: ");
                    push_str(&mut m, a.as_str());
                    Err(m)
                },
                Decision::Retry(msg) => {
                    let mut m = String::new();
                    push_str(&mut m, msg.as_str());
                    Err(m)
                },
            }
        },
    }
}


// ---------------------------------------------------------------------------
// The prompt hash
// ---------------------------------------------------------------------------

/// The texts that the prompt hash covers, in order: the decision system prompt, each built-in
/// tool's name and schema, and each qualification prompt.
pub open spec fn prompt_hash_items() -> Seq<Seq<char>> {
    seq![COTREX_SYSTEM_PROMPT@]
        + seq![tool_name(Tool::Read), tool_parameters(Tool::Read)]
        + seq![tool_name(Tool::Write), tool_parameters(Tool::Write)]
        + seq![tool_name(Tool::Edit), tool_parameters(Tool::Edit)]
        + seq![tool_name(Tool::Glob), tool_parameters(Tool::Glob)]
        + seq![tool_name(Tool::Grep), tool_parameters(Tool::Grep)]
        + seq![tool_name(Tool::GraphifyReport), tool_parameters(Tool::GraphifyReport)]
        + seq![
        test_prompt(QualTest::ReadTool),
        test_prompt(QualTest::GlobTool),
        test_prompt(QualTest::MultiStep),
    ]
}

/// The writes that hashing these strings makes: each string's UTF-8 bytes, then a `0xff` byte
/// (as `str`'s `Hash` writes them).
pub open spec fn str_writes(items: Seq<Seq<char>>) -> Seq<Seq<u8>>
    decreases items.len(),
{
    if items.len() == 0 {
        seq![]
    } else {
        str_writes(items.drop_last()) + seq![encode_utf8(items.last()), seq![0xffu8]]
    }
}

/// The lower-case hexadecimal digit `d` (`0 <= d < 16`).
pub open spec fn hex_digit(d: nat) -> char {
    seq!['0', '1', '2', '3', '4', '5', '6', '7', '8', '9', 'a', 'b', 'c', 'd', 'e', 'f'][d as int]
}

/// The last `n` hexadecimal digits of `h`, zero-padded (`{:0nx}` for a value below `16^n`).
pub open spec fn hex_digits(h: nat, n: nat) -> Seq<char>
    decreases n,
{
    if n == 0 {
        seq![]
    } else {
        hex_digits(h / 16, (n - 1) as nat).push(hex_digit(h % 16))
    }
}

fn hex_digit_exec(d: u64) -> (c: char)
    requires
        d < 16,
    ensures
        c == hex_digit(d as nat),
{
    let digits: [char; 16] = [
        '0', '1', '2', '3', '4', '5', '6', '7', '8', '9', 'a', 'b', 'c', 'd', 'e', 'f',
    ];
    assert(digits@ =~= seq!['0', '1', '2', '3', '4', '5', '6', '7', '8', '9', 'a', 'b', 'c', 'd', 'e', 'f']);
    digits[d as usize]
}

fn push_hex(s: &mut String, h: u64, n: u64)
    ensures
        final(s)@ == old(s)@ + hex_digits(h as nat, n as nat),
    decreases n,
{
    if n > 0 {
        push_hex(s, h / 16, n - 1);
        crate::text::push_char(s, hex_digit_exec(h % 16));
    }
}

/// `format!("{:016x}", h)`.
pub fn hex16(h: u64) -> (r: String)
    ensures
        r@ == hex_digits(h as nat, 16),
{
    let mut r = String::new();
    push_hex(&mut r, h, 16);
    r
}

proof fn lemma_str_writes_push(items: Seq<Seq<char>>, x: Seq<char>)
    ensures
        str_writes(items.push(x)) == str_writes(items) + seq![encode_utf8(x), seq![0xffu8]],
{
    assert(items.push(x).drop_last() =~= items);
}

fn hash_str(h: &mut DefaultHasher, s: &str)
    ensures
        final(h)@ == old(h)@ + seq![encode_utf8(s@), seq![0xffu8]],
{
    h.write(s.as_bytes());
    let end: [u8; 1] = [0xffu8];
    h.write(end.as_slice());
    assert(end@ =~= seq![0xffu8]);
    assert(final(h)@ =~= old(h)@ + seq![encode_utf8(s@), seq![0xffu8]]);
}

/// A hash of the system prompt, the tool schemas and the qualification prompts, as sixteen hex
/// digits: a qualification is only valid for the prompts it was made with.
pub fn compute_prompt_hash() -> (r: String)
    ensures
        r@ == hex_digits(DefaultHasher::spec_finish(str_writes(prompt_hash_items())) as nat, 16),
{
    let mut h = DefaultHasher::new();
    let ghost items: Seq<Seq<char>> = seq![];
    hash_str(&mut h, decision_system());
    proof {
        lemma_str_writes_push(items, COTREX_SYSTEM_PROMPT@);
        assert(str_writes(items) =~= seq![]);
        items = items.push(COTREX_SYSTEM_PROMPT@);
        assert(str_writes(items) =~= h@);
    }
    let tools = builtins();
    let mut i: usize = 0;
    while i < tools.len()
        invariant
            i <= tools.len(),
            tools@ == builtin_tools(),
            h@ == str_writes(items),
            items == seq![COTREX_SYSTEM_PROMPT@] + builtin_tools().take(i as int).map_values(
                |t: Tool| seq![tool_name(t), tool_parameters(t)],
            ).flatten(),
        decreases tools.len() - i,
    {
        let t = tools[i];
        hash_str(&mut h, t.name());
        hash_str(&mut h, t.parameters());
        proof {
            let prev = items;
            lemma_str_writes_push(prev, tool_name(t));
            lemma_str_writes_push(prev.push(tool_name(t)), tool_parameters(t));
            items = items.push(tool_name(t)).push(tool_parameters(t));
            assert(h@ =~= str_writes(items));
            let pre = builtin_tools().take(i as int).map_values(|t: Tool| seq![tool_name(t), tool_parameters(t)]);
            let post = builtin_tools().take(i + 1).map_values(|t: Tool| seq![tool_name(t), tool_parameters(t)]);
            assert(post =~= pre.push(seq![tool_name(t), tool_parameters(t)]));
            pre.lemma_flatten_push(seq![tool_name(t), tool_parameters(t)]);
            assert(items =~= seq![COTREX_SYSTEM_PROMPT@] + post.flatten());
        }
        i = i + 1;
    }
    let tests = qualification_tests();
    let mut j: usize = 0;
    let ghost tool_items = items;
    while j < tests.len()
        invariant
            j <= tests.len(),
            tests@ == qualification_tests_spec(),
            h@ == str_writes(items),
            items == tool_items + qualification_tests_spec().take(j as int).map_values(
                |t: QualTest| test_prompt(t),
            ),
        decreases tests.len() - j,
    {
        let t = tests[j];
        hash_str(&mut h, t.prompt());
        proof {
            let prev = items;
            lemma_str_writes_push(prev, test_prompt(t));
            items = items.push(test_prompt(t));
            assert(qualification_tests_spec().take(j + 1).map_values(|t: QualTest| test_prompt(t))
                =~= qualification_tests_spec().take(j as int).map_values(|t: QualTest| test_prompt(t)).push(test_prompt(t)));
        }
        j = j + 1;
    }
    proof {
        let m = builtin_tools().map_values(|t: Tool| seq![tool_name(t), tool_parameters(t)]);
        assert(builtin_tools().take(6) =~= builtin_tools());
        reveal_with_fuel(Seq::flatten, 7);
        assert(m.flatten() =~= seq![tool_name(Tool::Read), tool_parameters(Tool::Read)]
            + seq![tool_name(Tool::Write), tool_parameters(Tool::Write)]
            + seq![tool_name(Tool::Edit), tool_parameters(Tool::Edit)]
            + seq![tool_name(Tool::Glob), tool_parameters(Tool::Glob)]
            + seq![tool_name(Tool::Grep), tool_parameters(Tool::Grep)]
            + seq![tool_name(Tool::GraphifyReport), tool_parameters(Tool::GraphifyReport)]);
        assert(qualification_tests_spec().take(3) =~= qualification_tests_spec());
        assert(items =~= prompt_hash_items());
    }
    hex16(h.finish())
}


// ---------------------------------------------------------------------------
// Where qualifications are kept
// ---------------------------------------------------------------------------

/// The home directory of cotrex: `COTREX_HOME` when set, otherwise `.cotrex` under `HOME`, under
/// `USERPROFILE`, or under the current directory.
pub open spec fn cotrex_home_spec(
    cotrex_home: Option<Seq<char>>,
    home: Option<Seq<char>>,
    userprofile: Option<Seq<char>>,
) -> Seq<char> {
    match cotrex_home {
        Some(h) => h,
        None => join_path(
            match home {
                Some(h) => h,
                None => match userprofile {
                    Some(u) => u,
                    None => "."@,
                },
            },
            ".cotrex"@,
        ),
    }
}

/// The directory that holds the qualification files.
pub fn qual_dir(cotrex_home: Option<&str>, home: Option<&str>, userprofile: Option<&str>) -> (r:
    String)
    ensures
        r@ == join_path(
            cotrex_home_spec(opt_str(cotrex_home), opt_str(home), opt_str(userprofile)),
            "qualifications"@,
        ),
{
    let base = match cotrex_home {
        Some(h) => crate::agent::prompt::copy_str(h),
        None => {
            let root: &str = match home {
                Some(h) => h,
                None => match userprofile {
                    Some(u) => u,
                    None => ".",
                },
            };
            resolve_path(root, ".cotrex")
        },
    };
    resolve_path(base.as_str(), "qualifications")
}

pub open spec fn opt_str(o: Option<&str>) -> Option<Seq<char>> {
    match o {
        Some(s) => Some(s@),
        None => None,
    }
}

/// The qualification file of a model: `<model_id>.json` in the qualification directory.
pub fn qual_path(dir: &str, model_id: &str) -> (r: String)
    ensures
        r@ == join_path(dir@, model_id@ + ".json"@),
{
    let mut name = String::new();
    push_str(&mut name, model_id);
    push_str(&mut name, ".json");
    resolve_path(dir, name.as_str())
}

/// A timestamp as seconds since the Unix epoch, in decimal.
pub fn timestamp_text(secs: u64) -> (r: String)
    ensures
        r@ == dec_seq(secs as nat),
{
    let mut r = String::new();
    push_decimal(&mut r, secs);
    r
}

// ---------------------------------------------------------------------------
// Single-step tests
// ---------------------------------------------------------------------------

pub open spec fn entry_view(e: TranscriptEntry) -> (Seq<char>, Seq<char>) {
    (e.role@, e.content@)
}

pub open spec fn entries(v: Seq<TranscriptEntry>) -> Seq<(Seq<char>, Seq<char>)> {
    v.map_values(|e: TranscriptEntry| entry_view(e))
}

/// The mathematical form of a test result.
pub struct ResultView {
    pub name: Seq<char>,
    pub passed: bool,
    pub reason: Option<Seq<char>>,
    pub transcript: Seq<(Seq<char>, Seq<char>)>,
}

impl View for TestResult {
    type V = ResultView;

    open spec fn view(&self) -> ResultView {
        ResultView {
            name: self.name@,
            passed: self.passed,
            reason: opt_view(self.reason),
            transcript: entries(self.transcript@),
        }
    }
}

/// The result of a single-step test from the model's reply (or the error of asking it).
pub open spec fn single_result_spec(t: QualTest, reply: Result<Seq<char>, Seq<char>>) -> ResultView {
    let asked = seq![("user"@, test_prompt(t))];
    match reply {
        Err(e) => ResultView {
            name: test_name(t),
            passed: false,
            reason: Some("model inference failed: "@ + e),
            transcript: asked,
        },
        Ok(raw) => {
            let transcript = asked.push(("assistant"@, raw));
            match validate_spec(t, parse_decision_spec(raw)) {
                Ok(_) => ResultView { name: test_name(t), passed: true, reason: None, transcript },
                Err(reason) => ResultView {
                    name: test_name(t),
                    passed: false,
                    reason: Some(reason),
                    transcript,
                },
            }
        },
    }
}

fn entry(role: &str, content: &str) -> (r: TranscriptEntry)
    ensures
        r.role@ == role@,
        r.content@ == content@,
{
    TranscriptEntry {
        role: crate::agent::prompt::copy_str(role),
        content: crate::agent::prompt::copy_str(content),
    }
}

/// Judge a single-step test by the model's reply.
pub fn single_test_result(t: QualTest, reply: Result<String, String>) -> (r: TestResult)
    ensures
        r@ == single_result_spec(t, crate::agent::session::result_view(reply)),
{
    let mut transcript: Vec<TranscriptEntry> = Vec::new();
    transcript.push(entry("user", t.prompt()));
    let ghost asked = entries(transcript@);
    assert(asked =~= seq![("user"@, test_prompt(t))]);
    match reply {
        Err(e) => {
            let mut reason = String::new();
            push_str(&mut reason, "model inference failed: ");
            push_str(&mut reason, e.as_str());
            TestResult {
                name: crate::agent::prompt::copy_str(t.name()),
                passed: false,
                reason: Some(reason),
                transcript,
            }
        },
        Ok(raw) => {
            transcript.push(entry("assistant", raw.as_str()));
            assert(entries(transcript@) =~= asked.push(("assistant"@, raw@)));
            let d = parse_decision(raw.as_str());
            match validate(t, &d) {
                Ok(()) => TestResult {
                    name: crate::agent::prompt::copy_str(t.name()),
                    passed: true,
                    reason: None,
                    transcript,
                },
                Err(reason) => TestResult {
                    name: crate::agent::prompt::copy_str(t.name()),
                    passed: false,
                    reason: Some(reason),
                    transcript,
                },
            }
        },
    }
}


// ---------------------------------------------------------------------------
// The multi-step test
// ---------------------------------------------------------------------------

/// Steps the multi-step test allows before it must have an answer.
pub const MULTI_STEP_LIMIT: usize = 4;

#[derive(Debug, Clone, Copy)]
pub enum MultiPhase {
    Deciding,
    ToolRunning,
    ShellRunning,
    Done,
}

/// The mathematical state of the multi-step test.
#[verifier::ext_equal]
pub struct MultiModel {
    pub prompt: Seq<char>,
    pub system: Seq<char>,
    pub transcript: Seq<(Seq<char>, Seq<char>)>,
    pub seen: Seq<Seq<char>>,
    pub step: nat,
    pub phase: MultiPhase,
    pub infers: nat,
    /// Signatures of the tool calls and commands run so far.
    pub executed: Seq<Seq<char>>,
}

/// What the qualification asks the caller to do next.
#[verifier::ext_equal]
pub enum QualActionView {
    Infer { system: Seq<char>, user: Seq<char> },
    RunTool { tool: Tool, args: JsonModel },
    RunShell { cmd: Seq<char> },
    Finished { result: ResultView },
}

pub enum QualEventView {
    Reply(Result<Seq<char>, Seq<char>>),
    ToolDone(Result<Seq<char>, Seq<char>>),
    ShellDone(Result<Seq<char>, Seq<char>>),
}

/// The transcript lines shown to the model: tool calls and results as `role: content`.
pub open spec fn shown_steps(t: Seq<(Seq<char>, Seq<char>)>) -> Seq<Seq<char>>
    decreases t.len(),
{
    if t.len() == 0 {
        seq![]
    } else {
        let rest = shown_steps(t.drop_last());
        let e = t.last();
        if e.0 == "tool_call"@ || e.0 == "tool_result"@ {
            rest.push(e.0 + ": "@ + e.1)
        } else {
            rest
        }
    }
}

/// The request of a step: the prompt at first, then the prompt with the steps taken.
pub open spec fn multi_user(m: MultiModel) -> Seq<char> {
    if m.step == 0 {
        m.prompt
    } else {
        "Request: "@ + m.prompt + "\n\nSteps taken so far:\n"@ + join_with(shown_steps(m.transcript), "\n"@)
            + "\nGather more if needed, else answer."@
    }
}

pub open spec fn multi_done(m: MultiModel, passed: bool, reason: Option<Seq<char>>) -> (MultiModel, QualActionView) {
    (
        MultiModel { phase: MultiPhase::Done, ..m },
        QualActionView::Finished {
            result: ResultView { name: "multi_step"@, passed, reason, transcript: m.transcript },
        },
    )
}

pub open spec fn multi_begin(m: MultiModel) -> (MultiModel, QualActionView) {
    if m.step < 4 {
        (
            MultiModel { phase: MultiPhase::Deciding, infers: m.infers + 1, ..m },
            QualActionView::Infer { system: m.system, user: multi_user(m) },
        )
    } else {
        multi_done(m, false, Some("model did not produce a final answer within 4 steps"@))
    }
}

pub open spec fn multi_next(m: MultiModel, entry: (Seq<char>, Seq<char>)) -> (MultiModel, QualActionView) {
    multi_begin(MultiModel { step: m.step + 1, transcript: m.transcript.push(entry), ..m })
}

/// One transition of the multi-step test.
pub open spec fn multi_transition(m: MultiModel, ev: QualEventView) -> (MultiModel, QualActionView) {
    match (m.phase, ev) {
        (MultiPhase::Deciding, QualEventView::Reply(Err(e))) => multi_done(
            m,
            false,
            Some("model inference failed at step "@ + dec_seq(m.step) + ": "@ + e),
        ),
        (MultiPhase::Deciding, QualEventView::Reply(Ok(raw))) => {
            let m1 = MultiModel { transcript: m.transcript.push(("assistant"@, raw)), ..m };
            match parse_decision_spec(raw) {
                DecisionView::Answer(_) => multi_done(m1, true, None),
                DecisionView::Tool { tool, args, args_text, say } => {
                    let sig = tool_name(tool) + ":"@ + args_text;
                    if m.seen.contains(sig) {
                        multi_done(m1, false, Some("model repeated the same tool call (loop detected)"@))
                    } else {
                        (
                            MultiModel {
                                seen: m.seen.push(sig),
                                executed: m.executed.push(sig),
                                transcript: m1.transcript.push(
                                    ("tool_call"@, tool_name(tool) + "("@ + args_text + ")"@),
                                ),
                                phase: MultiPhase::ToolRunning,
                                ..m1
                            },
                            QualActionView::RunTool { tool, args },
                        )
                    }
                },
                DecisionView::Run { say, cmd } => {
                    let sig = "run:"@ + cmd;
                    if m.seen.contains(sig) {
                        multi_done(m1, false, Some("model repeated the same command (loop detected)"@))
                    } else {
                        (
                            MultiModel {
                                seen: m.seen.push(sig),
                                executed: m.executed.push(sig),
                                transcript: m1.transcript.push(("tool_call"@, "run: "@ + cmd)),
                                phase: MultiPhase::ShellRunning,
                                ..m1
                            },
                            QualActionView::RunShell { cmd },
                        )
                    }
                },
                DecisionView::Retry(msg) => multi_next(m1, ("tool_result"@, "[error] "@ + msg)),
            }
        },
        (MultiPhase::ToolRunning, QualEventView::ToolDone(Ok(out))) => multi_next(
            m,
            ("tool_result"@, limit_spec(out, 100)),
        ),
        (MultiPhase::ToolRunning, QualEventView::ToolDone(Err(e))) => multi_next(
            m,
            ("tool_result"@, "[error] "@ + e),
        ),
        (MultiPhase::ShellRunning, QualEventView::ShellDone(Ok(out))) => multi_next(
            m,
            ("tool_result"@, limit_spec(out, 100)),
        ),
        (MultiPhase::ShellRunning, QualEventView::ShellDone(Err(e))) => multi_next(
            m,
            ("tool_result"@, "[error] "@ + e),
        ),
        _ => (m, QualActionView::Finished {
            result: ResultView { name: seq![], passed: false, reason: None, transcript: seq![] },
        }),
    }
}

pub open spec fn multi_accepts(m: MultiModel, ev: QualEventView) -> bool {
    match m.phase {
        MultiPhase::Deciding => ev is Reply,
        MultiPhase::ToolRunning => ev is ToolDone,
        MultiPhase::ShellRunning => ev is ShellDone,
        MultiPhase::Done => false,
    }
}

pub open spec fn multi_start(prompt: Seq<char>, system: Seq<char>) -> (MultiModel, QualActionView) {
    multi_begin(
        MultiModel {
            prompt,
            system,
            transcript: seq![("user"@, prompt)],
            seen: seq![],
            step: 0,
            phase: MultiPhase::Deciding,
            infers: 0,
            executed: seq![],
        },
    )
}

/// The invariant of the multi-step test.
pub open spec fn multi_wf(m: MultiModel) -> bool {
    &&& m.step <= 4
    &&& m.infers <= 4
    &&& !(m.phase is Done) ==> m.step < 4 && m.infers == m.step + 1
    &&& m.executed.no_duplicates()
    &&& forall|i: int| 0 <= i < m.executed.len() ==> m.seen.contains(#[trigger] m.executed[i])
}

proof fn lemma_push_fresh(executed: Seq<Seq<char>>, seen: Seq<Seq<char>>, sig: Seq<char>)
    requires
        executed.no_duplicates(),
        forall|i: int| 0 <= i < executed.len() ==> seen.contains(#[trigger] executed[i]),
        !seen.contains(sig),
    ensures
        executed.push(sig).no_duplicates(),
        forall|i: int|
            0 <= i < executed.push(sig).len() ==> seen.push(sig).contains(#[trigger] executed.push(sig)[i]),
        !executed.contains(sig),
{
    let e2 = executed.push(sig);
    if executed.contains(sig) {
        let k = choose|k: int| 0 <= k < executed.len() && executed[k] == sig;
        assert(seen.contains(executed[k]));
    }
    assert forall|i: int, j: int| 0 <= i < e2.len() && 0 <= j < e2.len() && i != j implies e2[i] != e2[j] by {
        if i < executed.len() && j < executed.len() {
        } else if i == executed.len() {
            assert(e2[j] == executed[j]);
            assert(seen.contains(executed[j]));
        } else {
            assert(e2[i] == executed[i]);
            assert(seen.contains(executed[i]));
        }
    }
    assert forall|i: int| 0 <= i < e2.len() implies seen.push(sig).contains(#[trigger] e2[i]) by {
        if i == executed.len() {
            assert(seen.push(sig)[seen.len() as int] == sig);
        } else {
            let k = choose|k: int| 0 <= k < seen.len() && seen[k] == executed[i];
            assert(seen.push(sig)[k] == executed[i]);
        }
    }
}

/// The multi-step test keeps its invariant: the model is asked at most four times; a tool call or
/// command is run only if it has not been run before (a repeat ends the test as failed); once
/// finished, the test takes no more events.
pub proof fn law_multi_transition(m: MultiModel, ev: QualEventView)
    requires
        multi_wf(m),
        multi_accepts(m, ev),
    ensures
        multi_wf(multi_transition(m, ev).0),
        multi_transition(m, ev).0.infers <= 4,
        multi_transition(m, ev).1 matches QualActionView::RunTool { tool, args } ==> !m.executed.contains(
            multi_transition(m, ev).0.executed.last(),
        ) && multi_transition(m, ev).0.executed == m.executed.push(multi_transition(m, ev).0.executed.last()),
        multi_transition(m, ev).1 matches QualActionView::RunShell { cmd } ==> !m.executed.contains(
            "run:"@ + cmd,
        ) && multi_transition(m, ev).0.executed == m.executed.push("run:"@ + cmd),
        !(multi_transition(m, ev).1 is RunTool || multi_transition(m, ev).1 is RunShell)
            ==> multi_transition(m, ev).0.executed == m.executed,
        multi_transition(m, ev).0.phase is Done ==> forall|e: QualEventView|
            !multi_accepts(multi_transition(m, ev).0, e),
{
    if let (MultiPhase::Deciding, QualEventView::Reply(Ok(raw))) = (m.phase, ev) {
        match parse_decision_spec(raw) {
            DecisionView::Tool { tool, args, args_text, say } => {
                let sig = tool_name(tool) + ":"@ + args_text;
                if !m.seen.contains(sig) {
                    lemma_push_fresh(m.executed, m.seen, sig);
                }
            },
            DecisionView::Run { say, cmd } => {
                let sig = "run:"@ + cmd;
                if !m.seen.contains(sig) {
                    lemma_push_fresh(m.executed, m.seen, sig);
                }
            },
            _ => {},
        }
    }
}

/// Every multi-step test starts in a state that keeps its invariant.
pub proof fn law_multi_start(prompt: Seq<char>, system: Seq<char>)
    ensures
        multi_wf(multi_start(prompt, system).0),
{
}


/// What a qualification asks the caller to do next.
pub enum QualAction {
    /// Ask the model; answer with `QualEvent::Reply`.
    Infer { system: String, user: String },
    /// Run the tool; answer with `QualEvent::ToolDone`.
    RunTool { tool: Tool, args: JsonValue },
    /// Run the command with `sh -c`; answer with `QualEvent::ShellDone` and its stdout followed by
    /// its stderr.
    RunShell { cmd: String },
    /// The test is over.
    Finished { result: TestResult },
}

/// What happened since the last action.
pub enum QualEvent {
    Reply(Result<String, String>),
    ToolDone(Result<String, String>),
    ShellDone(Result<String, String>),
}

impl View for QualAction {
    type V = QualActionView;

    open spec fn view(&self) -> QualActionView {
        match self {
            QualAction::Infer { system, user } => QualActionView::Infer { system: system@, user: user@ },
            QualAction::RunTool { tool, args } => QualActionView::RunTool { tool: *tool, args: args@ },
            QualAction::RunShell { cmd } => QualActionView::RunShell { cmd: cmd@ },
            QualAction::Finished { result } => QualActionView::Finished { result: result@ },
        }
    }
}

impl View for QualEvent {
    type V = QualEventView;

    open spec fn view(&self) -> QualEventView {
        match self {
            QualEvent::Reply(r) => QualEventView::Reply(crate::agent::session::result_view(*r)),
            QualEvent::ToolDone(r) => QualEventView::ToolDone(crate::agent::session::result_view(*r)),
            QualEvent::ShellDone(r) => QualEventView::ShellDone(crate::agent::session::result_view(*r)),
        }
    }
}

/// The multi-step qualification test.
pub struct MultiStepTest {
    prompt: String,
    system: String,
    transcript: Vec<TranscriptEntry>,
    seen: Vec<String>,
    step: usize,
    phase: MultiPhase,
    infers: Ghost<nat>,
    executed: Ghost<Seq<Seq<char>>>,
}

impl View for MultiStepTest {
    type V = MultiModel;

    closed spec fn view(&self) -> MultiModel {
        MultiModel {
            prompt: self.prompt@,
            system: self.system@,
            transcript: entries(self.transcript@),
            seen: crate::agent::tool::strings(self.seen@),
            step: self.step as nat,
            phase: self.phase,
            infers: self.infers@,
            executed: self.executed@,
        }
    }
}

fn push_joined_steps(u: &mut String, t: &Vec<TranscriptEntry>)
    ensures
        final(u)@ == old(u)@ + join_with(shown_steps(entries(t@)), "\n"@),
{
    let ghost start = u@;
    let mut first = true;
    let mut i: usize = 0;
    assert(entries(t@).take(0) =~= seq![]);
    while i < t.len()
        invariant
            i <= t.len(),
            u@ == start + join_with(shown_steps(entries(t@).take(i as int)), "\n"@),
            first == (shown_steps(entries(t@).take(i as int)).len() == 0),
        decreases t.len() - i,
    {
        let e = &t[i];
        let ghost prev = entries(t@).take(i as int);
        let ghost cur = entries(t@).take(i + 1);
        assert(cur.drop_last() =~= prev);
        assert(cur.last() == entry_view(t@[i as int]));
        if str_eq(e.role.as_str(), "tool_call") || str_eq(e.role.as_str(), "tool_result") {
            let ghost piece = e.role@ + ": "@ + e.content@;
            if !first {
                push_str(u, "\n");
            }
            push_str(u, e.role.as_str());
            push_str(u, ": ");
            push_str(u, e.content.as_str());
            proof {
                let ps = shown_steps(prev);
                assert(shown_steps(cur) == ps.push(piece));
                if ps.len() == 0 {
                    assert(ps.push(piece) =~= seq![piece]);
                } else {
                    assert(ps.push(piece).drop_last() =~= ps);
                }
            }
            assert(u@ =~= start + join_with(shown_steps(cur), "\n"@));
            first = false;
        } else {
            assert(shown_steps(cur) == shown_steps(prev));
        }
        i = i + 1;
    }
    assert(entries(t@).take(t.len() as int) =~= entries(t@));
}

impl MultiStepTest {
    fn done(&mut self, passed: bool, reason: Option<String>) -> (r: QualAction)
        ensures
            (final(self)@, r@) == multi_done(old(self)@, passed, opt_view(reason)),
    {
        self.phase = MultiPhase::Done;
        let mut copy: Vec<TranscriptEntry> = Vec::new();
        let mut i: usize = 0;
        while i < self.transcript.len()
            invariant
                i <= self.transcript.len(),
                entries(copy@) =~= entries(self.transcript@).take(i as int),
            decreases self.transcript.len() - i,
        {
            let e = entry(self.transcript[i].role.as_str(), self.transcript[i].content.as_str());
            let ghost before = entries(copy@);
            copy.push(e);
            assert(entries(copy@) =~= before.push(entry_view(self.transcript@[i as int])));
            i = i + 1;
        }
        assert(entries(self.transcript@).take(self.transcript.len() as int) =~= entries(self.transcript@));
        QualAction::Finished {
            result: TestResult { name: crate::agent::prompt::copy_str("multi_step"), passed, reason, transcript: copy },
        }
    }

    fn begin(&mut self) -> (r: QualAction)
        ensures
            (final(self)@, r@) == multi_begin(old(self)@),
    {
        if self.step < MULTI_STEP_LIMIT {
            let user = if self.step == 0 {
                crate::agent::prompt::copy_str(self.prompt.as_str())
            } else {
                let mut u = String::new();
                push_str(&mut u, "Request: ");
                push_str(&mut u, self.prompt.as_str());
                push_str(&mut u, "\n\nSteps taken so far:\n");
                push_joined_steps(&mut u, &self.transcript);
                push_str(&mut u, "\nGather more if needed, else answer.");
                u
            };
            assert(user@ =~= multi_user(self@));
            self.phase = MultiPhase::Deciding;
            self.infers = Ghost(self.infers@ + 1);
            QualAction::Infer { system: crate::agent::prompt::copy_str(self.system.as_str()), user }
        } else {
            let mut m = String::new();
            push_str(&mut m, "model did not produce a final answer within 4 steps");
            self.done(false, Some(m))
        }
    }

    fn next(&mut self, role: &str, content: String) -> (r: QualAction)
        requires
            old(self).step < 4,
        ensures
            (final(self)@, r@) == multi_next(old(self)@, (role@, content@)),
    {
        let ghost before = entries(self.transcript@);
        self.transcript.push(TranscriptEntry { role: crate::agent::prompt::copy_str(role), content });
        assert(entries(self.transcript@) =~= before.push((role@, content@)));
        self.step = self.step + 1;
        self.begin()
    }

    /// Start the multi-step test with the system prompt.
    pub fn start(system: &str) -> (r: (MultiStepTest, QualAction))
        ensures
            (r.0@, r.1@) == multi_start(test_prompt(QualTest::MultiStep), system@),
            multi_wf(r.0@),
    {
        let prompt = QualTest::MultiStep.prompt();
        let mut transcript: Vec<TranscriptEntry> = Vec::new();
        transcript.push(entry("user", prompt));
        let mut t = MultiStepTest {
            prompt: crate::agent::prompt::copy_str(prompt),
            system: crate::agent::prompt::copy_str(system),
            transcript,
            seen: Vec::new(),
            step: 0,
            phase: MultiPhase::Deciding,
            infers: Ghost(0),
            executed: Ghost(Seq::empty()),
        };
        assert(entries(t.transcript@) =~= seq![("user"@, test_prompt(QualTest::MultiStep))]);
        assert(crate::agent::tool::strings(t.seen@) =~= seq![]);
        let a = t.begin();
        proof {
            law_multi_start(test_prompt(QualTest::MultiStep), system@);
        }
        (t, a)
    }

    /// Whether the test, in its current phase, takes this event.
    pub fn accepts(&self, ev: &QualEvent) -> (r: bool)
        ensures
            r == multi_accepts(self@, ev@),
    {
        match self.phase {
            MultiPhase::Deciding => matches!(ev, QualEvent::Reply(_)),
            MultiPhase::ToolRunning => matches!(ev, QualEvent::ToolDone(_)),
            MultiPhase::ShellRunning => matches!(ev, QualEvent::ShellDone(_)),
            MultiPhase::Done => false,
        }
    }

    /// Hand the test what happened; get the next thing to do.
    pub fn advance(&mut self, ev: QualEvent) -> (r: QualAction)
        requires
            multi_wf(old(self)@),
            multi_accepts(old(self)@, ev@),
        ensures
            (final(self)@, r@) == multi_transition(old(self)@, ev@),
            multi_wf(final(self)@),
    {
        proof {
            law_multi_transition(self@, ev@);
        }
        let limiter = OutputLimiter { max_lines: 100 };
        match (self.phase, ev) {
            (MultiPhase::Deciding, QualEvent::Reply(Err(e))) => {
                let mut m = String::new();
                push_str(&mut m, "model inference failed at step ");
                push_decimal(&mut m, self.step as u64);
                push_str(&mut m, ": ");
                push_str(&mut m, e.as_str());
                self.done(false, Some(m))
            },
            (MultiPhase::Deciding, QualEvent::Reply(Ok(raw))) => {
                let ghost m0 = self@;
                let ghost before = entries(self.transcript@);
                self.transcript.push(entry("assistant", raw.as_str()));
                assert(entries(self.transcript@) =~= before.push(("assistant"@, raw@)));
                match parse_decision(raw.as_str()) {
                    Decision::Answer(_) => self.done(true, None),
                    Decision::Tool { tool, args, args_text, say } => {
                        let mut sig = String::new();
                        push_str(&mut sig, tool.name());
                        push_str(&mut sig, ":");
                        push_str(&mut sig, args_text.as_str());
                        if crate::agent::session::contains_text_pub(&self.seen, sig.as_str()) {
                            let mut m = String::new();
                            push_str(&mut m, "model repeated the same tool call (loop detected)");
                            return self.done(false, Some(m));
                        }
                        let ghost sv = sig@;
                        let ghost seen0 = crate::agent::tool::strings(self.seen@);
                        self.seen.push(sig);
                        assert(crate::agent::tool::strings(self.seen@) =~= seen0.push(sv));
                        self.executed = Ghost(self.executed@.push(sv));
                        let mut call = String::new();
                        push_str(&mut call, tool.name());
                        push_str(&mut call, "(");
                        push_str(&mut call, args_text.as_str());
                        push_str(&mut call, ")");
                        let ghost t1 = entries(self.transcript@);
                        self.transcript.push(TranscriptEntry { role: crate::agent::prompt::copy_str("tool_call"), content: call });
                        assert(entries(self.transcript@) =~= t1.push(("tool_call"@, tool_name(tool) + "("@ + args_text@ + ")"@)));
                        self.phase = MultiPhase::ToolRunning;
                        QualAction::RunTool { tool, args }
                    },
                    Decision::Run { say, cmd } => {
                        let mut sig = String::new();
                        push_str(&mut sig, "run:");
                        push_str(&mut sig, cmd.as_str());
                        if crate::agent::session::contains_text_pub(&self.seen, sig.as_str()) {
                            let mut m = String::new();
                            push_str(&mut m, "model repeated the same command (loop detected)");
                            return self.done(false, Some(m));
                        }
                        let ghost sv = sig@;
                        let ghost seen0 = crate::agent::tool::strings(self.seen@);
                        self.seen.push(sig);
                        assert(crate::agent::tool::strings(self.seen@) =~= seen0.push(sv));
                        self.executed = Ghost(self.executed@.push(sv));
                        let mut call = String::new();
                        push_str(&mut call, "run: ");
                        push_str(&mut call, cmd.as_str());
                        let ghost t1 = entries(self.transcript@);
                        self.transcript.push(TranscriptEntry { role: crate::agent::prompt::copy_str("tool_call"), content: call });
                        assert(entries(self.transcript@) =~= t1.push(("tool_call"@, "run: "@ + cmd@)));
                        self.phase = MultiPhase::ShellRunning;
                        QualAction::RunShell { cmd }
                    },
                    Decision::Retry(msg) => {
                        let mut c = String::new();
                        push_str(&mut c, "[error] ");
                        push_str(&mut c, msg.as_str());
                        self.next("tool_result", c)
                    },
                }
            },
            (MultiPhase::ToolRunning, QualEvent::ToolDone(Ok(out))) => {
                let kept = limiter.truncate(out.as_str());
                self.next("tool_result", kept)
            },
            (MultiPhase::ToolRunning, QualEvent::ToolDone(Err(e))) => {
                let mut c = String::new();
                push_str(&mut c, "[error] ");
                push_str(&mut c, e.as_str());
                self.next("tool_result", c)
            },
            (MultiPhase::ShellRunning, QualEvent::ShellDone(Ok(out))) => {
                let kept = limiter.truncate(out.as_str());
                self.next("tool_result", kept)
            },
            (MultiPhase::ShellRunning, QualEvent::ShellDone(Err(e))) => {
                let mut c = String::new();
                push_str(&mut c, "[error] ");
                push_str(&mut c, e.as_str());
                self.next("tool_result", c)
            },
            _ => QualAction::Finished {
                result: TestResult { name: String::new(), passed: false, reason: None, transcript: Vec::new() },
            },
        }
    }
}


// ---------------------------------------------------------------------------
// A whole qualification run
// ---------------------------------------------------------------------------

/// Index of the entry for capability `cap`.
pub open spec fn cap_index(caps: Seq<(Seq<char>, CapabilityStatus)>, cap: Seq<char>, i: int) -> Option<int>
    decreases caps.len() - i,
{
    if i < 0 || i >= caps.len() {
        None
    } else if caps[i].0 == cap {
        Some(i)
    } else {
        cap_index(caps, cap, i + 1)
    }
}

pub open spec fn status_of(passed: bool) -> CapabilityStatus {
    if passed {
        CapabilityStatus::Passed
    } else {
        CapabilityStatus::Failed
    }
}

/// A single test's outcome folded into its capability: a capability passes until one of its tests
/// fails.
pub open spec fn cap_update(caps: Seq<(Seq<char>, CapabilityStatus)>, cap: Seq<char>, passed: bool) -> Seq<
    (Seq<char>, CapabilityStatus),
> {
    match cap_index(caps, cap, 0) {
        Some(i) => if passed {
            caps
        } else {
            caps.update(i, (cap, CapabilityStatus::Failed))
        },
        None => caps.push((cap, status_of(passed))),
    }
}

/// A capability's status set outright.
pub open spec fn cap_set(caps: Seq<(Seq<char>, CapabilityStatus)>, cap: Seq<char>, status: CapabilityStatus) -> Seq<
    (Seq<char>, CapabilityStatus),
> {
    match cap_index(caps, cap, 0) {
        Some(i) => caps.update(i, (cap, status)),
        None => caps.push((cap, status)),
    }
}

/// Tool calling passes exactly when both tool tests pass; the multi-step capability is the
/// multi-step test's outcome; no capability is listed twice.
pub proof fn law_capabilities(read: bool, glob: bool, multi: bool)
    ensures
        cap_set(
            cap_update(cap_update(seq![], "tool_calling"@, read), "tool_calling"@, glob),
            "multi_step"@,
            status_of(multi),
        ) == seq![("tool_calling"@, status_of(read && glob)), ("multi_step"@, status_of(multi))],
{
    reveal_strlit("tool_calling");
    reveal_strlit("multi_step");
    let c1 = cap_update(seq![], "tool_calling"@, read);
    assert(c1 =~= seq![("tool_calling"@, status_of(read))]);
    assert(cap_index(c1, "tool_calling"@, 0) == Some(0int));
    let c2 = cap_update(c1, "tool_calling"@, glob);
    assert(c2 =~= seq![("tool_calling"@, status_of(read && glob))]);
    assert("tool_calling"@[0] != "multi_step"@[0]);
    assert(cap_index(c2, "multi_step"@, 1) is None);
    assert(cap_index(c2, "multi_step"@, 0) is None);
    let c3 = cap_set(c2, "multi_step"@, status_of(multi));
    assert(c3 =~= seq![("tool_calling"@, status_of(read && glob)), ("multi_step"@, status_of(multi))]);
}

#[derive(Debug, Clone, Copy)]
pub enum RunPhase {
    ReadTest,
    GlobTest,
    Multi,
    Done,
}

/// The mathematical form of a qualification result.
#[verifier::ext_equal]
pub struct QualificationView {
    pub model_id: Seq<char>,
    pub timestamp: Seq<char>,
    pub runtime_version: Seq<char>,
    pub prompt_hash: Seq<char>,
    pub capabilities: Seq<(Seq<char>, CapabilityStatus)>,
    pub tests: Seq<ResultView>,
}

/// The mathematical state of a qualification run.
#[verifier::ext_equal]
pub struct RunModel {
    pub model_id: Seq<char>,
    pub system: Seq<char>,
    pub timestamp: Seq<char>,
    pub prompt_hash: Seq<char>,
    pub tests: Seq<ResultView>,
    pub caps: Seq<(Seq<char>, CapabilityStatus)>,
    pub phase: RunPhase,
    pub multi: Option<MultiModel>,
}

#[verifier::ext_equal]
pub enum RunActionView {
    Infer { system: Seq<char>, user: Seq<char> },
    RunTool { tool: Tool, args: JsonModel },
    RunShell { cmd: Seq<char> },
    Finished { result: QualificationView },
}

pub open spec fn run_result(m: RunModel) -> QualificationView {
    QualificationView {
        model_id: m.model_id,
        timestamp: m.timestamp,
        runtime_version: RUNTIME_VERSION@,
        prompt_hash: m.prompt_hash,
        capabilities: m.caps,
        tests: m.tests,
    }
}

pub open spec fn run_start(
    model_id: Seq<char>,
    windows: bool,
    timestamp: Seq<char>,
    prompt_hash: Seq<char>,
) -> (RunModel, RunActionView) {
    let system = system_prompt_spec(short_shell_note(windows));
    (
        RunModel {
            model_id,
            system,
            timestamp,
            prompt_hash,
            tests: seq![],
            caps: seq![],
            phase: RunPhase::ReadTest,
            multi: None,
        },
        RunActionView::Infer { system, user: test_prompt(QualTest::ReadTool) },
    )
}

pub open spec fn forward(a: QualActionView) -> RunActionView {
    match a {
        QualActionView::Infer { system, user } => RunActionView::Infer { system, user },
        QualActionView::RunTool { tool, args } => RunActionView::RunTool { tool, args },
        QualActionView::RunShell { cmd } => RunActionView::RunShell { cmd },
        QualActionView::Finished { result } => RunActionView::Finished {
            result: QualificationView {
                model_id: seq![],
                timestamp: seq![],
                runtime_version: seq![],
                prompt_hash: seq![],
                capabilities: seq![],
                tests: seq![],
            },
        },
    }
}

pub open spec fn run_accepts(m: RunModel, ev: QualEventView) -> bool {
    match m.phase {
        RunPhase::ReadTest => ev is Reply,
        RunPhase::GlobTest => ev is Reply,
        RunPhase::Multi => m.multi matches Some(mm) && multi_accepts(mm, ev),
        RunPhase::Done => false,
    }
}

pub open spec fn run_wf(m: RunModel) -> bool {
    m.phase is Multi ==> (m.multi matches Some(mm) && multi_wf(mm))
}

/// One transition of a qualification run: the two tool tests in turn, then the multi-step test;
/// each outcome is recorded and folded into its capability.
pub open spec fn run_transition(m: RunModel, ev: QualEventView) -> (RunModel, RunActionView) {
    match (m.phase, ev) {
        (RunPhase::ReadTest, QualEventView::Reply(r)) => {
            let res = single_result_spec(QualTest::ReadTool, r);
            (
                RunModel {
                    tests: m.tests.push(res),
                    caps: cap_update(m.caps, "tool_calling"@, res.passed),
                    phase: RunPhase::GlobTest,
                    ..m
                },
                RunActionView::Infer { system: m.system, user: test_prompt(QualTest::GlobTool) },
            )
        },
        (RunPhase::GlobTest, QualEventView::Reply(r)) => {
            let res = single_result_spec(QualTest::GlobTool, r);
            let (mm, a) = multi_start(test_prompt(QualTest::MultiStep), m.system);
            (
                RunModel {
                    tests: m.tests.push(res),
                    caps: cap_update(m.caps, "tool_calling"@, res.passed),
                    phase: RunPhase::Multi,
                    multi: Some(mm),
                    ..m
                },
                forward(a),
            )
        },
        (RunPhase::Multi, _) => {
            let (mm, a) = multi_transition(m.multi->0, ev);
            match a {
                QualActionView::Finished { result } => {
                    let done = RunModel {
                        tests: m.tests.push(result),
                        caps: cap_set(m.caps, "multi_step"@, status_of(result.passed)),
                        phase: RunPhase::Done,
                        multi: Some(mm),
                        ..m
                    };
                    (done, RunActionView::Finished { result: run_result(done) })
                },
                _ => (RunModel { multi: Some(mm), ..m }, forward(a)),
            }
        },
        _ => (m, forward(QualActionView::Finished {
            result: ResultView { name: seq![], passed: false, reason: None, transcript: seq![] },
        })),
    }
}

/// What a qualification run asks the caller to do next.
pub enum RunAction {
    Infer { system: String, user: String },
    RunTool { tool: Tool, args: JsonValue },
    RunShell { cmd: String },
    Finished { result: QualificationResult },
}

impl View for QualificationResult {
    type V = QualificationView;

    open spec fn view(&self) -> QualificationView {
        QualificationView {
            model_id: self.model_id@,
            timestamp: self.timestamp@,
            runtime_version: self.runtime_version@,
            prompt_hash: self.prompt_hash@,
            capabilities: self.capabilities@.map_values(|p: (String, CapabilityStatus)| (p.0@, p.1)),
            tests: self.tests@.map_values(|t: TestResult| t@),
        }
    }
}

impl View for RunAction {
    type V = RunActionView;

    open spec fn view(&self) -> RunActionView {
        match self {
            RunAction::Infer { system, user } => RunActionView::Infer { system: system@, user: user@ },
            RunAction::RunTool { tool, args } => RunActionView::RunTool { tool: *tool, args: args@ },
            RunAction::RunShell { cmd } => RunActionView::RunShell { cmd: cmd@ },
            RunAction::Finished { result } => RunActionView::Finished { result: result@ },
        }
    }
}

/// A qualification run of a model.
pub struct QualificationRun {
    model_id: String,
    system: String,
    timestamp: String,
    prompt_hash: String,
    tests: Vec<TestResult>,
    caps: Vec<(String, CapabilityStatus)>,
    phase: RunPhase,
    multi: Option<MultiStepTest>,
}

pub open spec fn caps_view(c: Seq<(String, CapabilityStatus)>) -> Seq<(Seq<char>, CapabilityStatus)> {
    c.map_values(|p: (String, CapabilityStatus)| (p.0@, p.1))
}

impl View for QualificationRun {
    type V = RunModel;

    closed spec fn view(&self) -> RunModel {
        RunModel {
            model_id: self.model_id@,
            system: self.system@,
            timestamp: self.timestamp@,
            prompt_hash: self.prompt_hash@,
            tests: self.tests@.map_values(|t: TestResult| t@),
            caps: caps_view(self.caps@),
            phase: self.phase,
            multi: match self.multi {
                Some(t) => Some(t@),
                None => None,
            },
        }
    }
}

proof fn lemma_cap_index(caps: Seq<(Seq<char>, CapabilityStatus)>, cap: Seq<char>, i: int)
    requires
        0 <= i,
    ensures
        match cap_index(caps, cap, i) {
            Some(j) => i <= j < caps.len() && caps[j].0 == cap,
            None => forall|k: int| i <= k < caps.len() ==> #[trigger] caps[k].0 != cap,
        },
    decreases caps.len() - i,
{
    if i < caps.len() && caps[i].0 != cap {
        lemma_cap_index(caps, cap, i + 1);
    }
}

fn cap_index_exec(caps: &Vec<(String, CapabilityStatus)>, cap: &str) -> (r: Option<usize>)
    ensures
        r matches Some(i) ==> i < caps.len() && cap_index(caps_view(caps@), cap@, 0) == Some(i as int),
        r is None ==> cap_index(caps_view(caps@), cap@, 0) is None,
{
    let ghost cv = caps_view(caps@);
    let mut i: usize = 0;
    while i < caps.len()
        invariant
            i <= caps.len(),
            cv == caps_view(caps@),
            cap_index(cv, cap@, 0) == cap_index(cv, cap@, i as int),
        decreases caps.len() - i,
    {
        if str_eq(caps[i].0.as_str(), cap) {
            assert(cv[i as int].0 == cap@);
            return Some(i);
        }
        assert(cv[i as int].0 != cap@);
        i = i + 1;
    }
    None
}

fn cap_update_exec(caps: &mut Vec<(String, CapabilityStatus)>, cap: &str, passed: bool)
    ensures
        caps_view(final(caps)@) == cap_update(caps_view(old(caps)@), cap@, passed),
{
    let ghost before = caps_view(caps@);
    match cap_index_exec(caps, cap) {
        Some(i) => {
            if !passed {
                caps.set(i, (crate::agent::prompt::copy_str(cap), CapabilityStatus::Failed));
                assert(caps_view(caps@) =~= before.update(i as int, (cap@, CapabilityStatus::Failed)));
            }
        },
        None => {
            let st = if passed { CapabilityStatus::Passed } else { CapabilityStatus::Failed };
            caps.push((crate::agent::prompt::copy_str(cap), st));
            assert(caps_view(caps@) =~= before.push((cap@, status_of(passed))));
        },
    }
}

fn cap_set_exec(caps: &mut Vec<(String, CapabilityStatus)>, cap: &str, status: CapabilityStatus)
    ensures
        caps_view(final(caps)@) == cap_set(caps_view(old(caps)@), cap@, status),
{
    let ghost before = caps_view(caps@);
    match cap_index_exec(caps, cap) {
        Some(i) => {
            caps.set(i, (crate::agent::prompt::copy_str(cap), status));
            assert(caps_view(caps@) =~= before.update(i as int, (cap@, status)));
        },
        None => {
            caps.push((crate::agent::prompt::copy_str(cap), status));
            assert(caps_view(caps@) =~= before.push((cap@, status)));
        },
    }
}

fn forward_exec(a: QualAction) -> (r: RunAction)
    requires
        !(a@ is Finished),
    ensures
        r@ == forward(a@),
{
    match a {
        QualAction::Infer { system, user } => RunAction::Infer { system, user },
        QualAction::RunTool { tool, args } => RunAction::RunTool { tool, args },
        QualAction::RunShell { cmd } => RunAction::RunShell { cmd },
        QualAction::Finished { result } => RunAction::RunShell { cmd: String::new() },
    }
}

/// Start qualifying a model: the time of the run (seconds since the epoch) and whether the
/// model's commands run in Windows PowerShell are given; the prompt hash is computed.
pub fn run_qualification(model_id: &str, windows: bool, timestamp_secs: u64) -> (r: (QualificationRun, RunAction))
    ensures
        (r.0@, r.1@) == run_start(
            model_id@,
            windows,
            dec_seq(timestamp_secs as nat),
            hex_digits(DefaultHasher::spec_finish(str_writes(prompt_hash_items())) as nat, 16),
        ),
        run_wf(r.0@),
{
    let system = decision_system_with_model(model_id, windows);
    let run = QualificationRun {
        model_id: crate::agent::prompt::copy_str(model_id),
        system,
        timestamp: timestamp_text(timestamp_secs),
        prompt_hash: compute_prompt_hash(),
        tests: Vec::new(),
        caps: Vec::new(),
        phase: RunPhase::ReadTest,
        multi: None,
    };
    assert(run.tests@.map_values(|t: TestResult| t@) =~= seq![]);
    assert(caps_view(run.caps@) =~= seq![]);
    let a = RunAction::Infer {
        system: crate::agent::prompt::copy_str(run.system.as_str()),
        user: crate::agent::prompt::copy_str(QualTest::ReadTool.prompt()),
    };
    (run, a)
}

impl QualificationRun {
    /// Whether the run, in its current phase, takes this event.
    pub fn accepts(&self, ev: &QualEvent) -> (r: bool)
        ensures
            r == run_accepts(self@, ev@),
    {
        match self.phase {
            RunPhase::ReadTest => matches!(ev, QualEvent::Reply(_)),
            RunPhase::GlobTest => matches!(ev, QualEvent::Reply(_)),
            RunPhase::Multi => match &self.multi {
                Some(t) => t.accepts(ev),
                None => false,
            },
            RunPhase::Done => false,
        }
    }

    fn result_copy(&self) -> (r: QualificationResult)
        ensures
            r@ == run_result(self@),
    {
        let mut caps: Vec<(String, CapabilityStatus)> = Vec::new();
        let mut i: usize = 0;
        while i < self.caps.len()
            invariant
                i <= self.caps.len(),
                caps_view(caps@) =~= caps_view(self.caps@).take(i as int),
            decreases self.caps.len() - i,
        {
            let ghost before = caps_view(caps@);
            caps.push((crate::agent::prompt::copy_str(self.caps[i].0.as_str()), self.caps[i].1));
            assert(caps_view(caps@) =~= before.push(caps_view(self.caps@)[i as int]));
            i = i + 1;
        }
        assert(caps_view(self.caps@).take(self.caps.len() as int) =~= caps_view(self.caps@));
        let mut tests: Vec<TestResult> = Vec::new();
        let mut j: usize = 0;
        while j < self.tests.len()
            invariant
                j <= self.tests.len(),
                tests@.map_values(|t: TestResult| t@) =~= self.tests@.map_values(|t: TestResult| t@).take(j as int),
            decreases self.tests.len() - j,
        {
            let t = &self.tests[j];
            let mut tr: Vec<TranscriptEntry> = Vec::new();
            let mut k: usize = 0;
            while k < t.transcript.len()
                invariant
                    k <= t.transcript.len(),
                    entries(tr@) =~= entries(t.transcript@).take(k as int),
                decreases t.transcript.len() - k,
            {
                let ghost b = entries(tr@);
                tr.push(entry(t.transcript[k].role.as_str(), t.transcript[k].content.as_str()));
                assert(entries(tr@) =~= b.push(entry_view(t.transcript@[k as int])));
                k = k + 1;
            }
            assert(entries(t.transcript@).take(t.transcript.len() as int) =~= entries(t.transcript@));
            let reason = match &t.reason {
                Some(r) => Some(crate::agent::prompt::copy_str(r.as_str())),
                None => None,
            };
            let copy = TestResult {
                name: crate::agent::prompt::copy_str(t.name.as_str()),
                passed: t.passed,
                reason,
                transcript: tr,
            };
            assert(copy@ =~= t@);
            let ghost before = tests@.map_values(|t: TestResult| t@);
            tests.push(copy);
            assert(tests@.map_values(|t: TestResult| t@) =~= before.push(self.tests@[j as int]@));
            j = j + 1;
        }
        assert(self.tests@.map_values(|t: TestResult| t@).take(self.tests.len() as int)
            =~= self.tests@.map_values(|t: TestResult| t@));
        QualificationResult {
            model_id: crate::agent::prompt::copy_str(self.model_id.as_str()),
            timestamp: crate::agent::prompt::copy_str(self.timestamp.as_str()),
            runtime_version: crate::agent::prompt::copy_str(RUNTIME_VERSION),
            prompt_hash: crate::agent::prompt::copy_str(self.prompt_hash.as_str()),
            capabilities: caps,
            tests,
        }
    }

    /// Hand the run what happened; get the next thing to do.
    pub fn advance(&mut self, ev: QualEvent) -> (r: RunAction)
        requires
            run_wf(old(self)@),
            run_accepts(old(self)@, ev@),
        ensures
            (final(self)@, r@) == run_transition(old(self)@, ev@),
            run_wf(final(self)@),
    {
        match (self.phase, ev) {
            (RunPhase::ReadTest, QualEvent::Reply(reply)) => {
                let res = single_test_result(QualTest::ReadTool, reply);
                let passed = res.passed;
                let ghost tb = self.tests@.map_values(|t: TestResult| t@);
                let ghost rv = res@;
                self.tests.push(res);
                assert(self.tests@.map_values(|t: TestResult| t@) =~= tb.push(rv));
                cap_update_exec(&mut self.caps, "tool_calling", passed);
                self.phase = RunPhase::GlobTest;
                RunAction::Infer {
                    system: crate::agent::prompt::copy_str(self.system.as_str()),
                    user: crate::agent::prompt::copy_str(QualTest::GlobTool.prompt()),
                }
            },
            (RunPhase::GlobTest, QualEvent::Reply(reply)) => {
                let res = single_test_result(QualTest::GlobTool, reply);
                let passed = res.passed;
                let ghost tb = self.tests@.map_values(|t: TestResult| t@);
                let ghost rv = res@;
                self.tests.push(res);
                assert(self.tests@.map_values(|t: TestResult| t@) =~= tb.push(rv));
                cap_update_exec(&mut self.caps, "tool_calling", passed);
                let (t, a) = MultiStepTest::start(self.system.as_str());
                self.multi = Some(t);
                self.phase = RunPhase::Multi;
                forward_exec(a)
            },
            (RunPhase::Multi, ev) => {
                let mut t = match self.multi.take() {
                    Some(t) => t,
                    None => return RunAction::RunShell { cmd: String::new() },
                };
                let a = t.advance(ev);
                match a {
                    QualAction::Finished { result } => {
                        let st = if result.passed { CapabilityStatus::Passed } else { CapabilityStatus::Failed };
                        let ghost tb = self.tests@.map_values(|t: TestResult| t@);
                        let ghost rv = result@;
                        self.tests.push(result);
                        assert(self.tests@.map_values(|t: TestResult| t@) =~= tb.push(rv));
                        cap_set_exec(&mut self.caps, "multi_step", st);
                        self.multi = Some(t);
                        self.phase = RunPhase::Done;
                        RunAction::Finished { result: self.result_copy() }
                    },
                    _ => {
                        self.multi = Some(t);
                        forward_exec(a)
                    },
                }
            },
            _ => RunAction::RunShell { cmd: String::new() },
        }
    }
}

} // verus!
