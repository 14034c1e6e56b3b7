//! Category-driven prompts: a single quoted argument is a prompt; `category: text` binds the text
//! to the category's header (a system prompt); several categories at once go through JSON. A
//! lone word is a command.
use vstd::prelude::*;

use crate::agent::prompt::{copy_str, pair_view, parse_json_spec};
use crate::json::{parse, serde_json_from_str, JsonModel, JsonValue};
use crate::text::{
    chars_of, index_of, index_of_exec, is_white, is_white_exec, lemma_index_of, push_str, slice,
    str_eq, string_of, trim, trim_seq,
};

verus! {

/// The header bound to the `plan-stack` category.
pub const PLAN_STACK: &'static str = "You name the single best application tech stack for a developer's task. Output ONLY minified JSON with exactly two keys: stack (short lowercase stack name) and reason (one concise sentence). Do NOT output code, commands, file contents, install steps, markdown, or any other field.";

/// The header bound to the `theme` category.
pub const THEME: &'static str = "You are a senior UI designer. Given a short style description, output ONLY minified JSON with keys: palette (array of hex colors), font (string), effects (array of short phrases), rationale (one concise sentence). No code, no markdown, no other fields.";

/// The header used when a prompt has no category.
pub const DEFAULT_HEADER: &'static str = "You are a concise senior software engineer. Answer the developer's question briefly and practically. No preamble, no markdown headings.";

pub open spec fn header_spec(category: Seq<char>) -> Option<Seq<char>> {
    if category == "plan-stack"@ {
        Some(PLAN_STACK@)
    } else if category == "theme"@ {
        Some(THEME@)
    } else {
        None
    }
}

/// The header (system prompt) bound to a category, if it is known.
pub fn header(category: &str) -> (r: Option<&'static str>)
    ensures
        match r {
            Some(h) => header_spec(category@) == Some(h@),
            None => header_spec(category@) is None,
        },
{
    if str_eq(category, "plan-stack") {
        Some(PLAN_STACK)
    } else if str_eq(category, "theme") {
        Some(THEME)
    } else {
        None
    }
}

/// How a single bare argument should be handled.
#[derive(Debug, PartialEq)]
pub enum Dispatch {
    /// A JSON object of `category -> text`.
    Json(String),
    /// `category: text` with a known category.
    Category(String, String),
    /// Free text with no category.
    Prompt(String),
    /// A single bare word: a command, not a prompt.
    Command(String),
}

pub enum DispatchView {
    Json(Seq<char>),
    Category(Seq<char>, Seq<char>),
    Prompt(Seq<char>),
    Command(Seq<char>),
}

impl View for Dispatch {
    type V = DispatchView;

    open spec fn view(&self) -> DispatchView {
        match self {
            Dispatch::Json(s) => DispatchView::Json(s@),
            Dispatch::Category(c, t) => DispatchView::Category(c@, t@),
            Dispatch::Prompt(s) => DispatchView::Prompt(s@),
            Dispatch::Command(s) => DispatchView::Command(s@),
        }
    }
}

/// The number of words (maximal runs of non-white-space characters) in `s`.
pub open spec fn word_count(s: Seq<char>) -> nat
    decreases s.len(),
{
    if s.len() == 0 {
        0
    } else {
        word_count(s.drop_last()) + if !is_white(s.last()) && (s.len() == 1 || is_white(
            s[s.len() - 2],
        )) {
            1nat
        } else {
            0nat
        }
    }
}

/// How an argument is classified: after trimming, a leading `{` is JSON; a `category: text` with
/// a known trimmed category is a category request; more than one word is a prompt; otherwise a
/// command.
pub open spec fn classify_spec(arg: Seq<char>) -> DispatchView {
    let s = trim_seq(arg);
    if s.len() > 0 && s[0] == '{' {
        DispatchView::Json(s)
    } else if index_of(s, ':') matches Some(i) && header_spec(
        trim_seq(s.subrange(0, index_of(s, ':')->0)),
    ) is Some {
        let i = index_of(s, ':')->0;
        DispatchView::Category(
            trim_seq(s.subrange(0, i)),
            trim_seq(s.subrange(i + 1, s.len() as int)),
        )
    } else if word_count(s) > 1 {
        DispatchView::Prompt(s)
    } else {
        DispatchView::Command(s)
    }
}

fn word_count_exec(s: &Vec<char>) -> (r: usize)
    ensures
        r == word_count(s@),
{
    let mut n: usize = 0;
    let mut i: usize = 0;
    assert(s@.take(0) =~= seq![]);
    while i < s.len()
        invariant
            i <= s.len(),
            n <= i,
            n == word_count(s@.take(i as int)),
        decreases s.len() - i,
    {
        let ghost t = s@.take(i + 1);
        assert(t.drop_last() =~= s@.take(i as int));
        assert(t.last() == s@[i as int]);
        assert(i > 0 ==> t[t.len() - 2] == s@[i - 1]);
        if !is_white_exec(s[i]) && (i == 0 || is_white_exec(s[i - 1])) {
            n = n + 1;
        }
        i = i + 1;
    }
    assert(s@.take(s.len() as int) =~= s@);
    n
}

/// Classify one argument.
pub fn classify(arg: &str) -> (r: Dispatch)
    ensures
        r@ == classify_spec(arg@),
{
    let s = trim(&chars_of(arg));
    if s.len() > 0 && s[0] == '{' {
        return Dispatch::Json(string_of(&s));
    }
    proof {
        lemma_index_of(s@, ':');
    }
    match index_of_exec(&s, ':') {
        Some(i) => {
            let cat = string_of(&trim(&slice(&s, 0, i)));
            if header(cat.as_str()).is_some() {
                let rest = trim(&slice(&s, i + 1, s.len()));
                return Dispatch::Category(cat, string_of(&rest));
            }
        },
        None => {},
    }
    if word_count_exec(&s) > 1 {
        Dispatch::Prompt(string_of(&s))
    } else {
        Dispatch::Command(string_of(&s))
    }
}

/// Parse the JSON multi-category form into `(category, text)` pairs: a flat object or a
/// `{"task": { … }}` wrapper.
pub fn parse_json(s: &str) -> (r: Result<Vec<(String, String)>, String>)
    ensures
        match r {
            Ok(v) => parse_json_spec(s@) == Ok::<Seq<(Seq<char>, Seq<char>)>, Seq<char>>(
                v@.map_values(|p: (String, String)| pair_view(p)),
            ),
            Err(e) => parse_json_spec(s@) == Err::<Seq<(Seq<char>, Seq<char>)>, Seq<char>>(e@),
        },
{
    crate::agent::prompt::parse_json(s)
}

/// The system prompt for a category: the default header for no category, its header for a known
/// one, an error for any other.
pub fn category_system(category: &str) -> (r: Result<&'static str, String>)
    ensures
        category@.len() == 0 ==> (r matches Ok(h) && h@ == DEFAULT_HEADER@),
        category@.len() > 0 ==> match header_spec(category@) {
            Some(h) => (r matches Ok(x) && x@ == h),
            None => (r matches Err(e) && e@ == "unknown category '"@ + category@ + "'"@),
        },
{
    if chars_of(category).len() == 0 {
        Ok(DEFAULT_HEADER)
    } else {
        match header(category) {
            Some(h) => Ok(h),
            None => {
                let mut m = String::new();
                push_str(&mut m, "unknown category '");
                push_str(&mut m, category);
                push_str(&mut m, "'");
                Err(m)
            },
        }
    }
}

/// The key an answer is filed under: its category, or `answer` without one.
pub fn answer_key(category: &str) -> (r: String)
    ensures
        category@.len() == 0 ==> r@ == "answer"@,
        category@.len() > 0 ==> r@ == category@,
{
    if chars_of(category).len() == 0 {
        copy_str("answer")
    } else {
        copy_str(category)
    }
}

/// How a model's answer is embedded: the JSON from its first `{` to its last `}` when that
/// parses, otherwise the trimmed answer as a string.
pub open spec fn as_value_spec(answer: Seq<char>) -> Result<JsonModel, Seq<char>> {
    let a = index_of(answer, '{');
    let b = crate::text::last_index_of(answer, '}');
    if a is Some && b is Some && a->0 < b->0 && serde_json_from_str(answer.subrange(a->0, b->0 + 1)) is Ok {
        Ok(serde_json_from_str(answer.subrange(a->0, b->0 + 1))->Ok_0)
    } else {
        Err(trim_seq(answer))
    }
}

/// Embed a model's answer: parsed JSON when it returned an object, else the trimmed text as a
/// JSON string.
pub fn as_value(answer: &str) -> (r: JsonValue)
    ensures
        match as_value_spec(answer@) {
            Ok(m) => r@ == m,
            Err(t) => r@ == JsonModel::Str(t),
        },
{
    let c = chars_of(answer);
    proof {
        lemma_index_of(c@, '{');
        crate::text::lemma_last_index_of(c@, '}');
    }
    let a = index_of_exec(&c, '{');
    let b = crate::text::last_index_of_exec(&c, '}');
    match (a, b) {
        (Some(a), Some(b)) => {
            if a < b {
                let span = string_of(&slice(&c, a, b + 1));
                match parse(span.as_str()) {
                    Ok(v) => return v,
                    Err(_) => {},
                }
            }
        },
        _ => {},
    }
    JsonValue::Str(string_of(&trim(&c)))
}

} // verus!
