//! What a command run through RTK is given and what it reports: the argument list, the command
//! echo, the result event and the summary line.
use vstd::prelude::*;

use crate::normalize::Severity;
use crate::text::{is_white, is_white_exec, push_int, push_decimal, push_str, string_of, trim, chars_of, dec_seq, int_seq, join_with, trim_seq};

verus! {

/// How a command is run, from the settings.
pub struct Options {
    /// Bypass RTK's filters (`rtk run -c`).
    pub raw: bool,
    /// Pass `--ultra-compact` to RTK, before the subcommand.
    pub ultra_compact: bool,
    /// Write the result event after the output.
    pub footer: bool,
    /// No command echo, result event or summary line.
    pub quiet: bool,
}

pub open spec fn views_of(v: Seq<String>) -> Seq<Seq<char>> {
    v.map_values(|s: String| s@)
}

/// RTK's arguments: `run -c` and the trimmed command line when raw, else the intent's own
/// arguments; `--ultra-compact` goes first when asked for.
pub open spec fn rtk_args_spec(command: Seq<char>, intent_args: Seq<Seq<char>>, raw: bool, ultra: bool) -> Seq<Seq<char>> {
    let base = if raw {
        seq!["run"@, "-c"@, trim_seq(command)]
    } else {
        intent_args
    };
    if ultra {
        seq!["--ultra-compact"@] + base
    } else {
        base
    }
}

/// The arguments RTK is started with for `command`, whose intent gives `intent_args`.
pub fn rtk_args(command: &str, intent_args: Vec<String>, opts: &Options) -> (r: Vec<String>)
    ensures
        views_of(r@) == rtk_args_spec(command@, views_of(intent_args@), opts.raw, opts.ultra_compact),
{
    let base: Vec<String> = if opts.raw {
        let v = vec!["run".to_string(), "-c".to_string(), string_of(&trim(&chars_of(command)))];
        assert(views_of(v@) =~= seq!["run"@, "-c"@, trim_seq(command@)]);
        v
    } else {
        intent_args
    };
    if opts.ultra_compact {
        let mut r = vec!["--ultra-compact".to_string()];
        let mut i: usize = 0;
        while i < base.len()
            invariant
                i <= base.len(),
                views_of(r@) =~= seq!["--ultra-compact"@] + views_of(base@).take(i as int),
            decreases base.len() - i,
        {
            let ghost before = r@;
            r.push(crate::agent::prompt::copy_str(base[i].as_str()));
            assert(views_of(r@) =~= views_of(before).push(base@[i as int]@));
            assert(views_of(base@).take(i + 1) =~= views_of(base@).take(i as int).push(base@[i as int]@));
            i = i + 1;
        }
        assert(views_of(base@).take(base.len() as int) =~= views_of(base@));
        r
    } else {
        base
    }
}

/// The line that shows what runs: `› rtk` and the arguments separated by spaces.
pub fn echo_line(args: &Vec<String>) -> (r: String)
    ensures
        r@ == "› rtk "@ + join_with(views_of(args@), " "@),
{
    let mut parts: Vec<Vec<char>> = Vec::new();
    let mut i: usize = 0;
    while i < args.len()
        invariant
            i <= args.len(),
            crate::text::seqs(parts@) =~= views_of(args@).take(i as int),
        decreases args.len() - i,
    {
        let ghost before = parts@;
        parts.push(chars_of(args[i].as_str()));
        assert(crate::text::seqs(parts@) =~= crate::text::seqs(before).push(args@[i as int]@));
        assert(views_of(args@).take(i + 1) =~= views_of(args@).take(i as int).push(args@[i as int]@));
        i = i + 1;
    }
    assert(views_of(args@).take(args.len() as int) =~= views_of(args@));
    let mut r = "› rtk ".to_string();
    crate::text::push_chars(&mut r, &crate::text::join_chars(&parts, " "));
    r
}

/// `ok` for exit code 0, `failed` otherwise.
pub open spec fn status_text(code: i32) -> Seq<char> {
    if code == 0 {
        "ok"@
    } else {
        "failed"@
    }
}

/// The result event written after a run's output.
pub fn result_event(code: i32) -> (r: String)
    ensures
        r@ == "{\"type\":\"result\",\"status\":\""@ + status_text(code) + "\",\"code\":"@ + int_seq(
            code as int,
        ) + "}"@,
{
    let mut r = "{\"type\":\"result\",\"status\":\"".to_string();
    push_str(&mut r, if code == 0 { "ok" } else { "failed" });
    push_str(&mut r, "\",\"code\":");
    push_int(&mut r, code as i64);
    push_str(&mut r, "}");
    r
}

/// The summary line of a run: its status, exit code and the number of error lines.
pub fn summary_line(code: i32, errors: usize) -> (r: String)
    ensures
        r@ == "‹ "@ + status_text(code) + " (exit "@ + int_seq(code as int) + ", "@ + dec_seq(
            errors as nat,
        ) + " error line(s))"@,
{
    let mut r = "‹ ".to_string();
    push_str(&mut r, if code == 0 { "ok" } else { "failed" });
    push_str(&mut r, " (exit ");
    push_int(&mut r, code as i64);
    push_str(&mut r, ", ");
    push_decimal(&mut r, errors as u64);
    push_str(&mut r, " error line(s))");
    r
}

/// A command line is run only when it holds something besides white space.
pub fn check_command(command: &str) -> (r: Result<(), String>)
    ensures
        trim_seq(command@).len() > 0 ==> r is Ok,
        trim_seq(command@).len() == 0 ==> (r matches Err(e) && e@ == "empty command"@),
{
    if trim(&chars_of(command)).len() == 0 {
        Err("empty command".to_string())
    } else {
        Ok(())
    }
}

/// The words read so far and the word being read, after the characters of `s`.
pub open spec fn words_acc(s: Seq<char>) -> (Seq<Seq<char>>, Seq<char>)
    decreases s.len(),
{
    if s.len() == 0 {
        (seq![], seq![])
    } else {
        let (ws, cur) = words_acc(s.drop_last());
        let c = s.last();
        if is_white(c) {
            if cur.len() > 0 {
                (ws.push(cur), seq![])
            } else {
                (ws, seq![])
            }
        } else {
            (ws, cur.push(c))
        }
    }
}

/// The words of a command line: its maximal runs of characters that are not white space.
pub open spec fn words_spec(s: Seq<char>) -> Seq<Seq<char>> {
    let (ws, cur) = words_acc(s);
    if cur.len() > 0 {
        ws.push(cur)
    } else {
        ws
    }
}

/// The words of a command line, split at white space.
pub fn command_words(command: &str) -> (r: Vec<String>)
    ensures
        views_of(r@) == words_spec(command@),
{
    let c = chars_of(command);
    let mut ws: Vec<String> = Vec::new();
    let mut cur: Vec<char> = Vec::new();
    let mut i: usize = 0;
    while i < c.len()
        invariant
            i <= c.len(),
            c@ == command@,
            (views_of(ws@), cur@) == words_acc(c@.take(i as int)),
        decreases c.len() - i,
    {
        let ch = c[i];
        assert(c@.take(i + 1).drop_last() =~= c@.take(i as int));
        assert(c@.take(i + 1).last() == ch);
        if is_white_exec(ch) {
            if cur.len() > 0 {
                let ghost before = ws@;
                ws.push(string_of(&cur));
                assert(views_of(ws@) =~= views_of(before).push(cur@));
            }
            cur = Vec::new();
            assert(cur@ =~= Seq::<char>::empty());
        } else {
            cur.push(ch);
        }
        i = i + 1;
    }
    assert(c@.take(c.len() as int) =~= c@);
    if cur.len() > 0 {
        let ghost before = ws@;
        ws.push(string_of(&cur));
        assert(views_of(ws@) =~= views_of(before).push(cur@));
    }
    ws
}

/// The count of error lines after one more line of the given severity.
pub fn count_error(count: usize, severity: Severity) -> (r: usize)
    requires
        count < usize::MAX,
    ensures
        r == if severity == Severity::Error { count + 1 } else { count as int },
{
    match severity {
        Severity::Error => count + 1,
        _ => count,
    }
}

} // verus!
