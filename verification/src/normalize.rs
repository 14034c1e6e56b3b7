//! Stream normalizer: each line of command output becomes a typed event with a severity.
use vstd::prelude::*;

use crate::text::{ascii_lower, chars_of, contains_seq, contains_str, lower, lower_seq, matches_at};

verus! {

/// How serious a line of output is.
#[derive(Debug, Clone, Copy, PartialEq, Eq)]
pub enum Severity {
    Error,
    Warning,
    Info,
}

/// Which pipe a line came from.
#[derive(Debug, Clone, Copy, PartialEq, Eq)]
pub enum Channel {
    Stdout,
    Stderr,
}

/// The name of a channel as it appears in events.
pub open spec fn channel_name(c: Channel) -> Seq<char> {
    match c {
        Channel::Stdout => "stdout"@,
        Channel::Stderr => "stderr"@,
    }
}

impl Channel {
    /// `"stdout"` or `"stderr"`.
    pub fn as_str(self) -> (r: &'static str)
        ensures
            r@ == channel_name(self),
    {
        match self {
            Channel::Stdout => "stdout",
            Channel::Stderr => "stderr",
        }
    }
}

/// One normalized line of output.
pub struct LineEvent {
    /// `"stdout"` or `"stderr"`.
    pub channel: &'static str,
    pub line: String,
    pub severity: Severity,
}

/// Keyword classification of a line, case-insensitively (ASCII): an error keyword wins over a
/// warning keyword; anything else is informational.
pub open spec fn severity_of(line: Seq<char>) -> Severity {
    let l = lower_seq(line);
    if contains_seq(l, "error"@) || contains_seq(l, "failed"@) || contains_seq(l, "panic"@)
        || contains_seq(l, "fatal"@) {
        Severity::Error
    } else if contains_seq(l, "warning"@) || contains_seq(l, "warn"@) {
        Severity::Warning
    } else {
        Severity::Info
    }
}

/// Classify a line by keyword. Case-insensitive substring match — deliberately blunt.
pub fn classify(line: &str) -> (r: Severity)
    ensures
        r == severity_of(line@),
{
    let l = lower(&chars_of(line));
    if contains_str(&l, "error") || contains_str(&l, "failed") || contains_str(&l, "panic")
        || contains_str(&l, "fatal") {
        Severity::Error
    } else if contains_str(&l, "warning") || contains_str(&l, "warn") {
        Severity::Warning
    } else {
        Severity::Info
    }
}

/// Tag a line with its channel and severity; the line itself is kept verbatim.
pub fn normalize(channel: Channel, line: String) -> (e: LineEvent)
    ensures
        e.channel@ == channel_name(channel),
        e.line@ == line@,
        e.severity == severity_of(line@),
{
    let severity = classify(line.as_str());
    LineEvent { channel: channel.as_str(), line, severity }
}

/// Classification ignores ASCII letter case: a line and its lower-case form have the same
/// severity.
pub proof fn law_severity_ignores_case(line: Seq<char>)
    ensures
        severity_of(lower_seq(line)) == severity_of(line),
{
    assert(lower_seq(lower_seq(line)) =~= lower_seq(line)) by {
        assert forall|i: int| 0 <= i < line.len() implies #[trigger] ascii_lower(ascii_lower(line[i]))
            == ascii_lower(line[i]) by {
            let c = line[i];
            if 'A' <= c && c <= 'Z' {
                assert((c as u8) as u32 == c as u32);
                assert((((c as u8) + 32) as u8) as u32 == (c as u32) + 32);
                assert(ascii_lower(c) as u32 == (c as u32) + 32);
            }
        }
    }
}


/// A line that mentions an error keyword (`error`, `failed`, `panic`, `fatal`, in any ASCII
/// case) is an error; one that mentions none of them but mentions a warning (`warn`) is a
/// warning; a line that mentions neither is informational.
pub proof fn law_severity_keywords(line: Seq<char>)
    ensures
        contains_seq(lower_seq(line), "error"@) ==> severity_of(line) == Severity::Error,
        contains_seq(lower_seq(line), "failed"@) ==> severity_of(line) == Severity::Error,
        contains_seq(lower_seq(line), "panic"@) ==> severity_of(line) == Severity::Error,
        contains_seq(lower_seq(line), "fatal"@) ==> severity_of(line) == Severity::Error,
        severity_of(line) == Severity::Error ==> (contains_seq(lower_seq(line), "error"@)
            || contains_seq(lower_seq(line), "failed"@) || contains_seq(lower_seq(line), "panic"@)
            || contains_seq(lower_seq(line), "fatal"@)),
        severity_of(line) == Severity::Warning ==> contains_seq(lower_seq(line), "warn"@),
        (!contains_seq(lower_seq(line), "error"@) && !contains_seq(lower_seq(line), "failed"@)
            && !contains_seq(lower_seq(line), "panic"@) && !contains_seq(lower_seq(line), "fatal"@)
            && contains_seq(lower_seq(line), "warn"@)) ==> severity_of(line) == Severity::Warning,
{
    let l = lower_seq(line);
    if contains_seq(l, "warning"@) {
        let i = choose|i: int| matches_at(l, "warning"@, i);
        reveal_strlit("warning");
        reveal_strlit("warn");
        assert(l.subrange(i, i + 4) =~= "warn"@);
        assert(matches_at(l, "warn"@, i));
    }
}

} // verus!
