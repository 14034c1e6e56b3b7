//! Stack planner: a deterministic keyword planner, plus the checks applied to a model's plan.
use vstd::prelude::*;

use crate::text::{
    chars_of, contains_any, contains_any_exec, index_of, index_of_exec, last_index_of,
    last_index_of_exec, lemma_index_of, lemma_last_index_of, lower, lower_seq, slice, string_of, trim,
    trim_seq, views,
};

verus! {

/// A recommended tech stack for a task.
pub struct StackPlan {
    pub task: String,
    pub stack: String,
    pub reason: String,
}

pub open spec fn web_keywords() -> Seq<Seq<char>> {
    seq![
        "website"@, "site"@, "web app"@, "webapp"@, "dashboard"@, "landing"@, "portfolio"@,
        "e-commerce"@, "ecommerce"@, "weather app"@,
    ]
}

pub open spec fn desktop_keywords() -> Seq<Seq<char>> {
    seq!["desktop"@, "music player"@, "player"@, "native app"@, "tray"@]
}

pub open spec fn mobile_keywords() -> Seq<Seq<char>> {
    seq!["mobile"@, "ios"@, "android"@, "cross-platform app"@]
}

pub open spec fn systems_keywords() -> Seq<Seq<char>> {
    seq!["cli"@, "tool"@, "daemon"@, "parser"@, "fast"@, "systems"@]
}

pub open spec fn scripting_keywords() -> Seq<Seq<char>> {
    seq!["script"@, "data"@, "ml"@, "scrape"@, "api"@, "automation"@]
}

/// The (stack, reason) the keyword rules give a task: the first rule, in a fixed order, one of
/// whose keywords occurs in the ASCII-lower-cased task; Python when none does.
pub open spec fn heuristic_choice(task: Seq<char>) -> (Seq<char>, Seq<char>) {
    let t = lower_seq(task);
    if contains_any(t, web_keywords()) {
        ("next.js"@, "web UI with SSR; largest ecosystem and fastest to ship"@)
    } else if contains_any(t, desktop_keywords()) {
        ("tauri"@, "cross-platform desktop with Rust core + web UI; small binaries"@)
    } else if contains_any(t, mobile_keywords()) {
        ("flutter"@, "single codebase for iOS + Android with native performance"@)
    } else if contains_any(t, systems_keywords()) {
        ("rust"@, "deterministic CLI/systems work; single static binary"@)
    } else if contains_any(t, scripting_keywords()) {
        ("python"@, "quickest path for scripting/data/automation; rich libraries"@)
    } else {
        ("python"@, "no strong signal in the task; Python is the lowest-friction default"@)
    }
}

fn plan_of(task: &str, stack: &str, reason: &str) -> (p: StackPlan)
    ensures
        p.task@ == task@,
        p.stack@ == stack@,
        p.reason@ == reason@,
{
    StackPlan {
        task: string_of(&chars_of(task)),
        stack: string_of(&chars_of(stack)),
        reason: string_of(&chars_of(reason)),
    }
}

/// Pick a stack by keyword; the task is kept verbatim.
pub fn heuristic_plan(task: &str) -> (p: StackPlan)
    ensures
        p.task@ == task@,
        (p.stack@, p.reason@) == heuristic_choice(task@),
{
    let t = lower(&chars_of(task));
    let web: [&str; 10] = [
        "website",
        "site",
        "web app",
        "webapp",
        "dashboard",
        "landing",
        "portfolio",
        "e-commerce",
        "ecommerce",
        "weather app",
    ];
    let desktop: [&str; 5] = ["desktop", "music player", "player", "native app", "tray"];
    let mobile: [&str; 4] = ["mobile", "ios", "android", "cross-platform app"];
    let systems: [&str; 6] = ["cli", "tool", "daemon", "parser", "fast", "systems"];
    let scripting: [&str; 6] = ["script", "data", "ml", "scrape", "api", "automation"];
    assert(views(web@) =~= web_keywords());
    assert(views(desktop@) =~= desktop_keywords());
    assert(views(mobile@) =~= mobile_keywords());
    assert(views(systems@) =~= systems_keywords());
    assert(views(scripting@) =~= scripting_keywords());
    if contains_any_exec(&t, web.as_slice()) {
        plan_of(task, "next.js", "web UI with SSR; largest ecosystem and fastest to ship")
    } else if contains_any_exec(&t, desktop.as_slice()) {
        plan_of(task, "tauri", "cross-platform desktop with Rust core + web UI; small binaries")
    } else if contains_any_exec(&t, mobile.as_slice()) {
        plan_of(task, "flutter", "single codebase for iOS + Android with native performance")
    } else if contains_any_exec(&t, systems.as_slice()) {
        plan_of(task, "rust", "deterministic CLI/systems work; single static binary")
    } else if contains_any_exec(&t, scripting.as_slice()) {
        plan_of(task, "python", "quickest path for scripting/data/automation; rich libraries")
    } else {
        plan_of(
            task,
            "python",
            "no strong signal in the task; Python is the lowest-friction default",
        )
    }
}


/// The system prompt of a planning call: a stack name and one reason, no code.
pub const SYSTEM: &'static str = "You name the single best application tech stack for a developer's task. Output ONLY minified JSON with exactly two keys: stack (short lowercase stack name) and reason (one concise sentence). Do NOT output code, commands, file contents, install steps, markdown, or any other field. Just the stack and why.";

/// Whether a model's reply can be cut to its JSON span: when it has both a `{` and a `}`, the
/// last `}` must not come before the first `{`.
pub open spec fn span_readable(content: Seq<char>) -> bool {
    match (index_of(content, '{'), last_index_of(content, '}')) {
        (Some(a), Some(b)) => a <= b,
        _ => true,
    }
}

/// The JSON span of a model's reply: from its first `{` to its last `}`.
pub open spec fn plan_span_spec(content: Seq<char>) -> Result<Seq<char>, Seq<char>> {
    match (index_of(content, '{'), last_index_of(content, '}')) {
        (Some(a), Some(b)) => Ok(content.subrange(a, b + 1)),
        _ => Err("no JSON object in llm output"@),
    }
}

/// Whether the reply's span can be cut: its last `}` does not precede its first `{`.
pub fn plan_span_readable(content: &str) -> (r: bool)
    ensures
        r == span_readable(content@),
{
    let c = chars_of(content);
    match (index_of_exec(&c, '{'), last_index_of_exec(&c, '}')) {
        (Some(a), Some(b)) => a <= b,
        _ => true,
    }
}

/// Cut a model's reply to its JSON span (which the caller then parses into a stack and reason).
pub fn llm_plan_span(content: &str) -> (r: Result<String, String>)
    requires
        span_readable(content@),
    ensures
        match r {
            Ok(t) => plan_span_spec(content@) == Ok::<Seq<char>, Seq<char>>(t@),
            Err(e) => plan_span_spec(content@) == Err::<Seq<char>, Seq<char>>(e@),
        },
{
    let c = chars_of(content);
    proof {
        lemma_index_of(c@, '{');
        lemma_last_index_of(c@, '}');
    }
    match (index_of_exec(&c, '{'), last_index_of_exec(&c, '}')) {
        (Some(a), Some(b)) => Ok(string_of(&slice(&c, a, b + 1))),
        _ => Err(string_of(&chars_of("no JSON object in llm output"))),
    }
}

/// The plan from a model's parsed reply: its stack and reason trimmed; a blank one is an error; a
/// reply that did not parse (`Err` with the parser's message) is a parse error.
pub open spec fn plan_fields_spec(task: Seq<char>, parsed: Result<(Seq<char>, Seq<char>), Seq<char>>) -> Result<
    (Seq<char>, Seq<char>, Seq<char>),
    Seq<char>,
> {
    match parsed {
        Err(e) => Err("JSON parse: "@ + e),
        Ok((stack, reason)) => if trim_seq(stack).len() == 0 {
            Err("response missing stack"@)
        } else if trim_seq(reason).len() == 0 {
            Err("response missing reason"@)
        } else {
            Ok((task, trim_seq(stack), trim_seq(reason)))
        },
    }
}

pub open spec fn plan_view(p: StackPlan) -> (Seq<char>, Seq<char>, Seq<char>) {
    (p.task@, p.stack@, p.reason@)
}

/// Check a model's parsed plan and build the stack plan from it.
pub fn plan_from_fields(task: &str, parsed: Result<(String, String), String>) -> (r: Result<StackPlan, String>)
    ensures
        match r {
            Ok(p) => plan_fields_spec(task@, match parsed {
                Ok((a, b)) => Ok((a@, b@)),
                Err(e) => Err(e@),
            }) == Ok::<(Seq<char>, Seq<char>, Seq<char>), Seq<char>>(plan_view(p)),
            Err(e) => plan_fields_spec(task@, match parsed {
                Ok((a, b)) => Ok((a@, b@)),
                Err(e) => Err(e@),
            }) == Err::<(Seq<char>, Seq<char>, Seq<char>), Seq<char>>(e@),
        },
{
    match parsed {
        Err(e) => {
            let mut m = string_of(&chars_of("JSON parse: "));
            crate::text::push_str(&mut m, e.as_str());
            Err(m)
        },
        Ok((stack, reason)) => {
            let st = trim(&chars_of(stack.as_str()));
            let re = trim(&chars_of(reason.as_str()));
            if st.len() == 0 {
                Err(string_of(&chars_of("response missing stack")))
            } else if re.len() == 0 {
                Err(string_of(&chars_of("response missing reason")))
            } else {
                Ok(StackPlan { task: string_of(&chars_of(task)), stack: string_of(&st), reason: string_of(&re) })
            }
        },
    }
}

/// Plan a task: with no model configured (`None`) by keyword; otherwise from the model's parsed
/// reply, or its error.
pub fn plan(task: &str, reply: Option<Result<(String, String), String>>) -> (r: Result<StackPlan, String>)
    ensures
        reply is None ==> (r matches Ok(p) && p.task@ == task@ && (p.stack@, p.reason@) == heuristic_choice(task@)),
        reply matches Some(parsed) ==> match r {
            Ok(p) => plan_fields_spec(task@, match parsed {
                Ok((a, b)) => Ok((a@, b@)),
                Err(e) => Err(e@),
            }) == Ok::<(Seq<char>, Seq<char>, Seq<char>), Seq<char>>(plan_view(p)),
            Err(e) => plan_fields_spec(task@, match parsed {
                Ok((a, b)) => Ok((a@, b@)),
                Err(e) => Err(e@),
            }) == Err::<(Seq<char>, Seq<char>, Seq<char>), Seq<char>>(e@),
        },
{
    match reply {
        None => Ok(heuristic_plan(task)),
        Some(parsed) => plan_from_fields(task, parsed),
    }
}


/// Each keyword rule gives its own stack, the earlier rules winning: a web task gets Next.js, a
/// desktop one Tauri, a mobile one Flutter, a systems one Rust, and anything else Python.
pub proof fn law_stack_by_keyword(task: Seq<char>)
    ensures
        contains_any(lower_seq(task), web_keywords()) ==> heuristic_choice(task).0 == "next.js"@,
        !contains_any(lower_seq(task), web_keywords()) && contains_any(
            lower_seq(task),
            desktop_keywords(),
        ) ==> heuristic_choice(task).0 == "tauri"@,
        !contains_any(lower_seq(task), web_keywords()) && !contains_any(
            lower_seq(task),
            desktop_keywords(),
        ) && contains_any(lower_seq(task), mobile_keywords()) ==> heuristic_choice(task) == (
            "flutter"@,
            "single codebase for iOS + Android with native performance"@,
        ),
        !contains_any(lower_seq(task), web_keywords()) && !contains_any(
            lower_seq(task),
            desktop_keywords(),
        ) && !contains_any(lower_seq(task), mobile_keywords()) && contains_any(
            lower_seq(task),
            systems_keywords(),
        ) ==> heuristic_choice(task).0 == "rust"@,
        !contains_any(lower_seq(task), web_keywords()) && !contains_any(
            lower_seq(task),
            desktop_keywords(),
        ) && !contains_any(lower_seq(task), mobile_keywords()) && !contains_any(
            lower_seq(task),
            systems_keywords(),
        ) ==> heuristic_choice(task).0 == "python"@,
        heuristic_choice(task).0 == "flutter"@ ==> contains_any(lower_seq(task), mobile_keywords()),
{
    reveal_strlit("next.js");
    reveal_strlit("tauri");
    reveal_strlit("flutter");
    reveal_strlit("rust");
    reveal_strlit("python");
    assert("next.js"@[0] != "flutter"@[0]);
    assert("tauri"@[0] != "flutter"@[0]);
    assert("rust"@[0] != "flutter"@[0]);
    assert("python"@[0] != "flutter"@[0]);
}

} // verus!
