//! Reading an OpenAI-compatible server-sent-event stream, line by line: the model's reasoning is
//! echoed as it arrives, the answer content is collected.
use vstd::prelude::*;

use crate::agent::prompt::{copy_str, opt_view};
use crate::json::{get_spec, get_str_spec, parse, serde_json_from_str, JsonModel, JsonValue};
use crate::text::{chars_of, push_str, slice, starts_with, starts_with_seq, str_eq, string_of, trim, trim_seq};

verus! {

/// What one line of the stream holds.
pub enum SseLine {
    /// Not a data line, or data that is not JSON: nothing to do.
    Skip,
    /// The end of the stream.
    Done,
    /// A delta, with the reasoning and the content it carries, if any.
    Delta { reasoning: Option<String>, content: Option<String> },
}

pub enum SseLineView {
    Skip,
    Done,
    Delta { reasoning: Option<Seq<char>>, content: Option<Seq<char>> },
}

impl View for SseLine {
    type V = SseLineView;

    open spec fn view(&self) -> SseLineView {
        match self {
            SseLine::Skip => SseLineView::Skip,
            SseLine::Done => SseLineView::Done,
            SseLine::Delta { reasoning, content } => SseLineView::Delta {
                reasoning: opt_view(*reasoning),
                content: opt_view(*content),
            },
        }
    }
}

/// The text of `v["choices"][0]["delta"]`, if it is there.
pub open spec fn delta_of(v: JsonModel) -> Option<Seq<char>> {
    match get_spec(v, "choices"@) {
        Some(t) => match serde_json_from_str(t) {
            Ok(JsonModel::Array(items)) => if items.len() > 0 {
                match serde_json_from_str(items[0]) {
                    Ok(e) => get_spec(e, "delta"@),
                    Err(_) => None,
                }
            } else {
                None
            },
            _ => None,
        },
        None => None,
    }
}

/// The string member `key` of the delta, if it is there.
pub open spec fn delta_str(v: JsonModel, key: Seq<char>) -> Option<Seq<char>> {
    match delta_of(v) {
        Some(d) => match serde_json_from_str(d) {
            Ok(dm) => get_str_spec(dm, key),
            Err(_) => None,
        },
        None => None,
    }
}

/// How a line of the stream is read: `data:` lines only, `[DONE]` ends, JSON data carries a
/// delta.
pub open spec fn sse_line_spec(line: Seq<char>) -> SseLineView {
    if !starts_with_seq(line, "data:"@) {
        SseLineView::Skip
    } else {
        let data = trim_seq(line.subrange(5, line.len() as int));
        if data == "[DONE]"@ {
            SseLineView::Done
        } else {
            match serde_json_from_str(data) {
                Ok(v) => SseLineView::Delta {
                    reasoning: delta_str(v, "reasoning_content"@),
                    content: delta_str(v, "content"@),
                },
                Err(_) => SseLineView::Skip,
            }
        }
    }
}

fn delta_exec(v: &JsonValue) -> (r: Option<JsonValue>)
    ensures
        match r {
            Some(d) => delta_of(v@) matches Some(t) && serde_json_from_str(t) == Ok::<JsonModel, Seq<char>>(d@),
            None => delta_of(v@) is None || (delta_of(v@) matches Some(t) && serde_json_from_str(t) is Err),
        },
{
    let choices = match v.get("choices") {
        Some(t) => t,
        None => return None,
    };
    let items = match parse(choices.as_str()) {
        Ok(JsonValue::Array(items)) => items,
        _ => return None,
    };
    if items.len() == 0 {
        return None;
    }
    let first = match parse(items[0].as_str()) {
        Ok(e) => e,
        Err(_) => return None,
    };
    let d = match first.get("delta") {
        Some(d) => d,
        None => return None,
    };
    match parse(d.as_str()) {
        Ok(dm) => Some(dm),
        Err(_) => None,
    }
}

/// Read one line of the stream.
pub fn sse_line(line: &str) -> (r: SseLine)
    ensures
        r@ == sse_line_spec(line@),
{
    let c = chars_of(line);
    if !starts_with(&c, "data:") {
        return SseLine::Skip;
    }
    proof {
        reveal_strlit("data:");
    }
    let data = string_of(&trim(&slice(&c, 5, c.len())));
    if str_eq(data.as_str(), "[DONE]") {
        return SseLine::Done;
    }
    match parse(data.as_str()) {
        Ok(v) => {
            let d = delta_exec(&v);
            let (reasoning, content) = match d {
                Some(dm) => (dm.get_str("reasoning_content"), dm.get_str("content")),
                None => (None, None),
            };
            SseLine::Delta { reasoning, content }
        },
        Err(_) => SseLine::Skip,
    }
}

/// Collects a stream's answer content while echoing its reasoning.
pub struct SseReader {
    pub content: String,
    pub thinking: bool,
    pub label: String,
}

/// The tag printed before a stream's reasoning.
pub open spec fn thinking_tag(label: Seq<char>) -> Seq<char> {
    if label.len() == 0 {
        "thinking: "@
    } else {
        "thinking ["@ + label + "]: "@
    }
}

/// What a line changes: whether the stream ends, what is echoed, the content and the thinking
/// flag after it.
pub open spec fn feed_spec(content: Seq<char>, thinking: bool, label: Seq<char>, line: Seq<char>) -> (
    bool,
    Seq<char>,
    Seq<char>,
    bool,
) {
    match sse_line_spec(line) {
        SseLineView::Skip => (false, seq![], content, thinking),
        SseLineView::Done => (true, seq![], content, thinking),
        SseLineView::Delta { reasoning, content: c } => {
            let (echo, thinking2) = match reasoning {
                Some(r) => if r.len() > 0 {
                    (if thinking { r } else { thinking_tag(label) + r }, true)
                } else {
                    (seq![], thinking)
                },
                None => (seq![], thinking),
            };
            (false, echo, match c {
                Some(t) => content + t,
                None => content,
            }, thinking2)
        },
    }
}

impl SseReader {
    /// A reader for a stream labelled `label` (empty for none).
    pub fn new(label: &str) -> (r: SseReader)
        ensures
            r.content@.len() == 0,
            !r.thinking,
            r.label@ == label@,
    {
        SseReader { content: String::new(), thinking: false, label: copy_str(label) }
    }

    /// Read one line: returns whether the stream ended and the reasoning to echo.
    pub fn feed(&mut self, line: &str) -> (r: (bool, String))
        ensures
            (r.0, r.1@, final(self).content@, final(self).thinking) == feed_spec(
                old(self).content@,
                old(self).thinking,
                old(self).label@,
                line@,
            ),
            final(self).label == old(self).label,
    {
        match sse_line(line) {
            SseLine::Skip => (false, String::new()),
            SseLine::Done => (true, String::new()),
            SseLine::Delta { reasoning, content } => {
                let mut echo = String::new();
                match reasoning {
                    Some(r) => {
                        if !r.as_str().is_empty() {
                            if !self.thinking {
                                if self.label.as_str().is_empty() {
                                    push_str(&mut echo, "thinking: ");
                                } else {
                                    push_str(&mut echo, "thinking [");
                                    push_str(&mut echo, self.label.as_str());
                                    push_str(&mut echo, "]: ");
                                }
                                self.thinking = true;
                            }
                            push_str(&mut echo, r.as_str());
                        }
                    },
                    None => {},
                }
                match content {
                    Some(t) => push_str(&mut self.content, t.as_str()),
                    None => {},
                }
                (false, echo)
            },
        }
    }
}

} // verus!
