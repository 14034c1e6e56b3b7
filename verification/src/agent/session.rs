//! The agent loop as a state machine: from its state and what just happened (a model reply, a
//! user's answer, a tool's or a command's output) to its next state and the next thing to do.
//!
//! The caller performs each action (asks the model, asks the user, runs the tool or the command)
//! and hands the outcome back. The model gathers information over at most `max_steps` steps and
//! then must answer; a command already run is not run again; a risky command runs only after the
//! user confirms it; a tool runs only with arguments that fit its schema.
use vstd::prelude::*;

use crate::agent::prompt::{
    build_system_prompt, call_text, cap_lines, format_tool_args, is_risky, is_yes, opt_view,
    pair_view, parse_decision, parse_decision_spec, result_text, risky_spec, shell_text,
    system_prompt_spec, trunc, truncate_spec, yes_spec, Decision, DecisionView, Mode,
};
use crate::agent::tool::{
    cap_spec, limit_spec, strings, tool_description, tool_name, validate_args, validate_spec,
    OutputLimiter, Tool,
};
use crate::json::{JsonModel, JsonValue};
use crate::text::{int_seq, push_int, push_str, str_eq};

verus! {

/// Lines of a command's output kept before it reaches the transcript.
pub const OUTPUT_CAP: usize = 500;

/// The shell note that the agent loop puts under the system prompt.
pub open spec fn loop_shell_note(windows: bool) -> Seq<char> {
    if windows {
        "Any command runs in Windows PowerShell — use PowerShell cmdlets and syntax (Get-ChildItem, Select-String, Measure-Object, Select-Object, Where-Object). Do NOT use bash/POSIX tools (no sed, awk, grep, or `find` with -printf)."@
    } else {
        "Any command runs in a POSIX bash shell — use POSIX tools (find, grep, sed, awk, wc, ls, git); never PowerShell or cmd syntax."@
    }
}

/// Tools that change files ask a human for permission before they run.
pub open spec fn needs_permission(t: Tool) -> bool {
    t == Tool::Write || t == Tool::Edit
}

/// What the loop is waiting for.
#[derive(Debug, Clone, Copy)]
pub enum Phase {
    /// The model's reply for the current step.
    Deciding,
    /// The model's forced final reply.
    Forced,
    /// A human's permission to run a tool.
    ToolConfirm,
    /// A tool's output.
    ToolRunning,
    /// A human's confirmation of a risky command.
    CommandConfirm,
    /// A command's exit code and output.
    ShellRunning,
    /// Nothing: the loop has finished.
    Done,
}

/// The mathematical state of the loop.
#[verifier::ext_equal]
pub struct LoopModel {
    pub task: Seq<char>,
    pub system: Seq<char>,
    pub mode: Mode,
    /// Whether the answer is captured for a caller (model mode, no questions to a human).
    pub capture: bool,
    pub max_steps: nat,
    pub step: nat,
    /// The rendered transcript so far.
    pub transcript: Seq<char>,
    /// Commands and tool-call signatures already issued.
    pub seen: Seq<Seq<char>>,
    /// Failed commands with their error summaries.
    pub failed: Seq<(Seq<char>, Seq<char>)>,
    pub phase: Phase,
    /// The tool call waiting for permission or output.
    pub tool: Option<(Tool, JsonModel)>,
    /// The command waiting for confirmation or output.
    pub cmd: Seq<char>,
    /// How many times the model has been asked.
    pub infers: nat,
    /// The commands run so far, in order.
    pub ran: Seq<Seq<char>>,
}

/// The next thing for the caller to do.
#[verifier::ext_equal]
pub enum ActionView {
    Infer { system: Seq<char>, user: Seq<char> },
    AskTool { prompt: Seq<char> },
    RunTool { tool: Tool, args: JsonModel },
    ConfirmCommand { cmd: Seq<char> },
    RunShell { cmd: Seq<char>, echo: bool },
    Answer { text: Seq<char> },
    NoAnswer,
    Aborted,
    Failed { error: Seq<char> },
}

#[verifier::ext_equal]
pub struct StepView {
    pub say: Option<Seq<char>>,
    pub action: ActionView,
}

#[verifier::ext_equal]
pub enum EventView {
    Reply(Result<Seq<char>, Seq<char>>),
    Answered(Option<Seq<char>>),
    ToolDone(Result<Seq<char>, Seq<char>>),
    ShellDone(Result<(i32, Seq<char>), Seq<char>>),
}

/// The note about the last failure, if a command has failed.
pub open spec fn failure_hint(failed: Seq<(Seq<char>, Seq<char>)>) -> Seq<char> {
    if failed.len() == 0 {
        seq![]
    } else {
        "\nThe last command failed: "@ + failed.last().1
            + "\nTry a different approach to avoid the same error."@
    }
}

/// The request for one step: the task alone at first, then the task with the transcript.
pub open spec fn step_user(m: LoopModel) -> Seq<char> {
    if m.transcript.len() == 0 {
        m.task
    } else {
        "Request: "@ + m.task + "\n\nCommands run so far:\n"@ + m.transcript + failure_hint(m.failed)
            + "\nGather more if needed, else answer."@
    }
}

/// The request for the final answer once the steps are spent.
pub open spec fn forced_user(m: LoopModel) -> Seq<char> {
    "Request: "@ + m.task + "\n\nCommands run so far:\n"@ + m.transcript
        + "\nGive your final answer now as {\"answer\":\"...\"}."@
}

pub open spec fn force(m: LoopModel, say: Option<Seq<char>>) -> (LoopModel, StepView) {
    (
        LoopModel { phase: Phase::Forced, infers: m.infers + 1, tool: None, ..m },
        StepView { say, action: ActionView::Infer { system: m.system, user: forced_user(m) } },
    )
}

/// Ask the model for the current step, or for the final answer once the steps are spent.
pub open spec fn begin_step(m: LoopModel, say: Option<Seq<char>>) -> (LoopModel, StepView) {
    if m.step < m.max_steps {
        (
            LoopModel { phase: Phase::Deciding, infers: m.infers + 1, tool: None, ..m },
            StepView { say, action: ActionView::Infer { system: m.system, user: step_user(m) } },
        )
    } else {
        force(m, say)
    }
}

pub open spec fn next_step(m: LoopModel, say: Option<Seq<char>>) -> (LoopModel, StepView) {
    begin_step(LoopModel { step: m.step + 1, ..m }, say)
}

pub open spec fn finish(m: LoopModel, action: ActionView) -> (LoopModel, StepView) {
    (LoopModel { phase: Phase::Done, tool: None, ..m }, StepView { say: None, action })
}

/// The model's narration is shown to a human only.
pub open spec fn narrate(m: LoopModel, say: Option<Seq<char>>) -> Option<Seq<char>> {
    if m.mode == Mode::User && !m.capture {
        say
    } else {
        None
    }
}

pub open spec fn failed_before(failed: Seq<(Seq<char>, Seq<char>)>, cmd: Seq<char>) -> bool {
    exists|i: int| 0 <= i < failed.len() && #[trigger] failed[i].0 == cmd
}

/// The signature of a tool call, by which a repeated call is recognised.
pub open spec fn call_signature(t: Tool, args_text: Seq<char>) -> Seq<char> {
    "tool:"@ + tool_name(t) + ":"@ + args_text
}

/// What the loop does with the model's decision in a step.
pub open spec fn on_decision(m: LoopModel, d: DecisionView) -> (LoopModel, StepView) {
    match d {
        DecisionView::Answer(a) => finish(m, ActionView::Answer { text: a }),
        DecisionView::Retry(msg) => next_step(
            LoopModel { transcript: m.transcript + result_text(msg, true), ..m },
            None,
        ),
        DecisionView::Tool { tool, args, args_text, say } => {
            let say = narrate(m, say);
            let sig = call_signature(tool, args_text);
            if m.seen.contains(sig) {
                force(m, say)
            } else {
                let m1 = LoopModel {
                    seen: m.seen.push(sig),
                    transcript: m.transcript + call_text(tool_name(tool), args, args_text),
                    ..m
                };
                match validate_spec(tool, args) {
                    Err(e) => next_step(
                        LoopModel { transcript: m1.transcript + result_text(e, true), ..m1 },
                        say,
                    ),
                    Ok(_) => if !m.capture && m.mode == Mode::User && needs_permission(tool) {
                        (
                            LoopModel { phase: Phase::ToolConfirm, tool: Some((tool, args)), ..m1 },
                            StepView {
                                say,
                                action: ActionView::AskTool {
                                    prompt: "  "@ + tool_description(tool) + "? (y/n) "@,
                                },
                            },
                        )
                    } else {
                        (
                            LoopModel { phase: Phase::ToolRunning, ..m1 },
                            StepView { say, action: ActionView::RunTool { tool, args } },
                        )
                    },
                }
            }
        },
        DecisionView::Run { say, cmd } => {
            if m.seen.contains(cmd) {
                if failed_before(m.failed, cmd) && m.step + 1 < m.max_steps {
                    next_step(
                        LoopModel {
                            transcript: m.transcript + shell_text(
                                cmd,
                                -1,
                                "already failed — try a different command"@,
                            ),
                            ..m
                        },
                        None,
                    )
                } else {
                    force(m, None)
                }
            } else {
                let say = narrate(m, say);
                let m1 = LoopModel { seen: m.seen.push(cmd), cmd, ..m };
                if !m.capture && risky_spec(cmd) {
                    (
                        LoopModel { phase: Phase::CommandConfirm, ..m1 },
                        StepView { say, action: ActionView::ConfirmCommand { cmd } },
                    )
                } else {
                    (
                        LoopModel { phase: Phase::ShellRunning, ran: m.ran.push(cmd), ..m1 },
                        StepView { say, action: ActionView::RunShell { cmd, echo: !m.capture } },
                    )
                }
            }
        },
    }
}

/// A reply of a human that grants a request.
pub open spec fn granted(line: Option<Seq<char>>) -> bool {
    line matches Some(l) && yes_spec(l)
}

/// The output of a command as it goes into the transcript, and its error summary.
pub open spec fn shell_output(raw: Seq<char>) -> Seq<char> {
    cap_spec(raw, 500, " more lines truncated — narrow the command)\n"@)
}

/// Whether the loop, in its current phase, takes this event.
pub open spec fn accepts(m: LoopModel, ev: EventView) -> bool {
    match m.phase {
        Phase::Deciding => ev is Reply,
        Phase::Forced => ev is Reply,
        Phase::ToolConfirm => ev is Answered,
        Phase::ToolRunning => ev is ToolDone,
        Phase::CommandConfirm => ev is Answered,
        Phase::ShellRunning => ev is ShellDone,
        Phase::Done => false,
    }
}

/// One transition of the loop.
pub open spec fn transition(m: LoopModel, ev: EventView) -> (LoopModel, StepView) {
    match (m.phase, ev) {
        (Phase::Deciding, EventView::Reply(Err(e))) => finish(m, ActionView::Failed { error: e }),
        (Phase::Deciding, EventView::Reply(Ok(t))) => on_decision(m, parse_decision_spec(t)),
        (Phase::Forced, EventView::Reply(Err(e))) => finish(m, ActionView::Failed { error: e }),
        (Phase::Forced, EventView::Reply(Ok(t))) => match parse_decision_spec(t) {
            DecisionView::Answer(a) => finish(m, ActionView::Answer { text: a }),
            _ => finish(m, ActionView::NoAnswer),
        },
        (Phase::ToolConfirm, EventView::Answered(line)) => if granted(line) {
            let pending = m.tool->0;
            (
                LoopModel { phase: Phase::ToolRunning, tool: None, ..m },
                StepView {
                    say: None,
                    action: ActionView::RunTool { tool: pending.0, args: pending.1 },
                },
            )
        } else {
            next_step(
                LoopModel {
                    transcript: m.transcript + result_text("Permission denied by user."@, true),
                    ..m
                },
                None,
            )
        },
        (Phase::ToolRunning, EventView::ToolDone(Ok(out))) => next_step(
            LoopModel { transcript: m.transcript + result_text(limit_spec(out, 500), false), ..m },
            None,
        ),
        (Phase::ToolRunning, EventView::ToolDone(Err(e))) => next_step(
            LoopModel { transcript: m.transcript + result_text(e, true), ..m },
            None,
        ),
        (Phase::CommandConfirm, EventView::Answered(line)) => if granted(line) {
            (
                LoopModel { phase: Phase::ShellRunning, ran: m.ran.push(m.cmd), ..m },
                StepView { say: None, action: ActionView::RunShell { cmd: m.cmd, echo: false } },
            )
        } else {
            finish(m, ActionView::Aborted)
        },
        (Phase::ShellRunning, EventView::ShellDone(Err(e))) => finish(m, ActionView::Failed { error: e }),
        (Phase::ShellRunning, EventView::ShellDone(Ok((code, raw)))) => {
            let out = shell_output(raw);
            let failed = if code != 0 {
                m.failed.push((m.cmd, "exit "@ + int_seq(code as int) + ": "@ + truncate_spec(out, 200)))
            } else {
                m.failed
            };
            next_step(
                LoopModel {
                    failed,
                    transcript: m.transcript + shell_text(
                        m.cmd,
                        code as int,
                        limit_spec(truncate_spec(out, 1500), 500),
                    ),
                    ..m
                },
                None,
            )
        },
        _ => (m, StepView { say: None, action: ActionView::Failed { error: seq![] } }),
    }
}

/// The state and first action of a loop for `task`.
pub open spec fn start(
    task: Seq<char>,
    windows: bool,
    mode: Mode,
    capture: bool,
    max_steps: nat,
) -> (LoopModel, StepView) {
    begin_step(
        LoopModel {
            task,
            system: system_prompt_spec(loop_shell_note(windows)),
            mode: if capture { Mode::Model } else { mode },
            capture,
            max_steps,
            step: 0,
            transcript: seq![],
            seen: seq![],
            failed: seq![],
            phase: Phase::Deciding,
            tool: None,
            cmd: seq![],
            infers: 0,
            ran: seq![],
        },
        None,
    )
}

/// The loop's invariant.
pub open spec fn wf(m: LoopModel) -> bool {
    &&& m.step <= m.max_steps
    &&& m.infers <= m.max_steps + 1
    &&& (m.phase is Deciding || m.phase is ToolConfirm || m.phase is ToolRunning
        || m.phase is CommandConfirm || m.phase is ShellRunning) ==> m.step < m.max_steps
        && m.infers == m.step + 1
    &&& m.phase is ToolConfirm ==> (m.tool matches Some(p) && validate_spec(p.0, p.1) is Ok)
    &&& m.phase is CommandConfirm ==> !m.ran.contains(m.cmd) && m.seen.contains(m.cmd)
    &&& m.ran.no_duplicates()
    &&& forall|i: int| 0 <= i < m.ran.len() ==> m.seen.contains(#[trigger] m.ran[i])
    &&& m.seen.no_duplicates()
    &&& m.seen.len() <= m.max_steps
    &&& (m.phase is Deciding || m.phase is Forced) ==> m.seen.len() <= m.step
    &&& (m.phase is ToolConfirm || m.phase is ToolRunning || m.phase is CommandConfirm
        || m.phase is ShellRunning) ==> m.seen.len() <= m.step + 1
}

proof fn lemma_fresh_push(s: Seq<Seq<char>>, x: Seq<char>)
    requires
        s.no_duplicates(),
        !s.contains(x),
    ensures
        s.push(x).no_duplicates(),
{
    let t = s.push(x);
    assert forall|i: int, j: int| 0 <= i < t.len() && 0 <= j < t.len() && i != j implies t[i]
        != t[j] by {
        if i < s.len() && j < s.len() {
            assert(t[i] == s[i] && t[j] == s[j]);
        } else if i == s.len() {
            assert(t[j] == s[j]);
            assert(s.contains(s[j]));
        } else {
            assert(t[i] == s[i]);
            assert(s.contains(s[i]));
        }
    }
}

// ---------------------------------------------------------------------------
// Laws of the loop
// ---------------------------------------------------------------------------

proof fn lemma_begin_step(m: LoopModel, say: Option<Seq<char>>)
    requires
        m.step <= m.max_steps,
        m.infers == m.step,
        m.seen.no_duplicates(),
        m.seen.len() <= m.step,
        m.ran.no_duplicates(),
        forall|i: int| 0 <= i < m.ran.len() ==> m.seen.contains(#[trigger] m.ran[i]),
    ensures
        wf(begin_step(m, say).0),
        begin_step(m, say).0.ran == m.ran,
        begin_step(m, say).1.action is Infer,
{
}

proof fn lemma_next_step(m: LoopModel, say: Option<Seq<char>>)
    requires
        m.step < m.max_steps,
        m.infers == m.step + 1,
        m.seen.no_duplicates(),
        m.seen.len() <= m.step + 1,
        m.ran.no_duplicates(),
        forall|i: int| 0 <= i < m.ran.len() ==> m.seen.contains(#[trigger] m.ran[i]),
    ensures
        wf(next_step(m, say).0),
        next_step(m, say).0.ran == m.ran,
        next_step(m, say).1.action is Infer,
{
    lemma_begin_step(LoopModel { step: m.step + 1, ..m }, say);
}

proof fn lemma_seen_push(m: LoopModel, c: Seq<char>)
    requires
        forall|i: int| 0 <= i < m.ran.len() ==> m.seen.contains(#[trigger] m.ran[i]),
    ensures
        forall|i: int| 0 <= i < m.ran.len() ==> m.seen.push(c).contains(#[trigger] m.ran[i]),
{
    assert forall|i: int| 0 <= i < m.ran.len() implies m.seen.push(c).contains(#[trigger] m.ran[i]) by {
        let k = choose|k: int| 0 <= k < m.seen.len() && m.seen[k] == m.ran[i];
        assert(m.seen.push(c)[k] == m.ran[i]);
    }
}

/// Every state the loop starts in satisfies its invariant.
pub proof fn law_start_wf(task: Seq<char>, windows: bool, mode: Mode, capture: bool, max_steps: nat)
    ensures
        wf(start(task, windows, mode, capture, max_steps).0),
        start(task, windows, mode, capture, max_steps).1.action is Infer,
{
    let m0 = LoopModel {
        task,
        system: system_prompt_spec(loop_shell_note(windows)),
        mode: if capture { Mode::Model } else { mode },
        capture,
        max_steps,
        step: 0,
        transcript: seq![],
        seen: seq![],
        failed: seq![],
        phase: Phase::Deciding,
        tool: None,
        cmd: seq![],
        infers: 0,
        ran: seq![],
    };
    lemma_begin_step(m0, None);
}

/// Every transition keeps the invariant, and the laws of the loop hold of it:
/// the model is asked at most `max_steps + 1` times; a command runs only if it has not run
/// before, and the record of commands run grows by exactly the command being run; a risky command
/// runs, outside capture, only on the human's affirmative answer to its confirmation; a tool runs
/// only with arguments that its schema accepts; once finished, the loop takes no more events.
/// Over a whole run, the record of the commands and tool calls issued never repeats an entry and
/// never holds more than `max_steps` of them: each transition adds at most one entry, never one it
/// holds already, and a tool runs or a command is confirmed or run only in the transition that
/// adds its entry or in the confirmation that follows.
pub proof fn law_transition(m: LoopModel, ev: EventView)
    requires
        wf(m),
        accepts(m, ev),
    ensures
        wf(transition(m, ev).0),
        transition(m, ev).0.infers <= m.max_steps + 1,
        transition(m, ev).1.action matches ActionView::RunShell { cmd, echo } ==> !m.ran.contains(cmd)
            && transition(m, ev).0.ran == m.ran.push(cmd),
        !(transition(m, ev).1.action is RunShell) ==> transition(m, ev).0.ran == m.ran,
        transition(m, ev).1.action matches ActionView::RunShell { cmd, echo } ==> (!m.capture
            && risky_spec(cmd) ==> (m.phase is CommandConfirm && (ev matches EventView::Answered(line)
            && granted(line)))),
        transition(m, ev).1.action matches ActionView::RunTool { tool, args } ==> validate_spec(
            tool,
            args,
        ) is Ok,
        transition(m, ev).0.phase is Done ==> forall|e: EventView| !accepts(transition(m, ev).0, e),
        transition(m, ev).0.seen.no_duplicates(),
        transition(m, ev).0.seen.len() <= m.max_steps,
        transition(m, ev).0.seen == m.seen || (transition(m, ev).0.seen.len() == m.seen.len() + 1
            && transition(m, ev).0.seen.drop_last() == m.seen && !m.seen.contains(
            transition(m, ev).0.seen.last(),
        )),
        (transition(m, ev).1.action is RunTool || transition(m, ev).1.action is ConfirmCommand
            || transition(m, ev).1.action is RunShell) ==> (transition(m, ev).0.seen.len()
            == m.seen.len() + 1 || m.phase is ToolConfirm || m.phase is CommandConfirm),
{
    let (m2, st) = transition(m, ev);
    match (m.phase, ev) {
        (Phase::Deciding, EventView::Reply(Ok(t))) => {
            let d = parse_decision_spec(t);
            match d {
                DecisionView::Tool { tool, args, args_text, say } => {
                    let sig = call_signature(tool, args_text);
                    if !m.seen.contains(sig) {
                        lemma_seen_push(m, sig);
                        lemma_fresh_push(m.seen, sig);
                        assert(m.seen.push(sig).drop_last() =~= m.seen);
                        let m1 = LoopModel {
                            seen: m.seen.push(sig),
                            transcript: m.transcript + call_text(tool_name(tool), args, args_text),
                            ..m
                        };
                        if validate_spec(tool, args) is Err {
                            lemma_next_step(
                                LoopModel {
                                    transcript: m1.transcript + result_text(
                                        validate_spec(tool, args)->Err_0,
                                        true,
                                    ),
                                    ..m1
                                },
                                narrate(m, say),
                            );
                        }
                    }
                },
                DecisionView::Retry(msg) => {
                    lemma_next_step(
                        LoopModel { transcript: m.transcript + result_text(msg, true), ..m },
                        None,
                    );
                },
                DecisionView::Run { say, cmd } => {
                    if m.seen.contains(cmd) {
                        if failed_before(m.failed, cmd) && m.step + 1 < m.max_steps {
                            lemma_next_step(
                                LoopModel {
                                    transcript: m.transcript + shell_text(
                                        cmd,
                                        -1,
                                        "already failed — try a different command"@,
                                    ),
                                    ..m
                                },
                                None,
                            );
                        }
                    } else {
                        lemma_seen_push(m, cmd);
                        lemma_fresh_push(m.seen, cmd);
                        assert(m.seen.push(cmd).drop_last() =~= m.seen);
                        assert(!m.ran.contains(cmd));
                        let ran2 = m.ran.push(cmd);
                        assert forall|i: int, j: int|
                            0 <= i < ran2.len() && 0 <= j < ran2.len() && i != j implies ran2[i]
                            != ran2[j] by {
                            if i < m.ran.len() && j < m.ran.len() {
                            } else if i == m.ran.len() {
                                assert(ran2[j] == m.ran[j]);
                                assert(m.ran.contains(m.ran[j]));
                            } else {
                                assert(ran2[i] == m.ran[i]);
                                assert(m.ran.contains(m.ran[i]));
                            }
                        }
                        assert forall|i: int| 0 <= i < ran2.len() implies m.seen.push(cmd).contains(
                            #[trigger] ran2[i],
                        ) by {
                            if i == m.ran.len() {
                                assert(m.seen.push(cmd)[m.seen.len() as int] == cmd);
                            } else {
                                assert(ran2[i] == m.ran[i]);
                            }
                        }
                        assert(m.seen.push(cmd)[m.seen.len() as int] == cmd);
                    }
                },
                _ => {},
            }
        },
        (Phase::ToolConfirm, EventView::Answered(line)) => {
            if !granted(line) {
                lemma_next_step(
                    LoopModel {
                        transcript: m.transcript + result_text("Permission denied by user."@, true),
                        ..m
                    },
                    None,
                );
            }
        },
        (Phase::ToolRunning, EventView::ToolDone(Ok(out))) => {
            lemma_next_step(
                LoopModel { transcript: m.transcript + result_text(limit_spec(out, 500), false), ..m },
                None,
            );
        },
        (Phase::ToolRunning, EventView::ToolDone(Err(e))) => {
            lemma_next_step(LoopModel { transcript: m.transcript + result_text(e, true), ..m }, None);
        },
        (Phase::CommandConfirm, EventView::Answered(line)) => {
            if granted(line) {
                let ran2 = m.ran.push(m.cmd);
                assert forall|i: int, j: int|
                    0 <= i < ran2.len() && 0 <= j < ran2.len() && i != j implies ran2[i]
                    != ran2[j] by {
                    if i < m.ran.len() && j < m.ran.len() {
                    } else if i == m.ran.len() {
                        assert(ran2[j] == m.ran[j]);
                        assert(m.ran.contains(m.ran[j]));
                    } else {
                        assert(ran2[i] == m.ran[i]);
                        assert(m.ran.contains(m.ran[i]));
                    }
                }
                assert forall|i: int| 0 <= i < ran2.len() implies m.seen.contains(#[trigger] ran2[i]) by {
                    if i < m.ran.len() {
                        assert(ran2[i] == m.ran[i]);
                    }
                }
            }
        },
        (Phase::ShellRunning, EventView::ShellDone(Ok((code, raw)))) => {
            let out = shell_output(raw);
            let failed = if code != 0 {
                m.failed.push((m.cmd, "exit "@ + int_seq(code as int) + ": "@ + truncate_spec(out, 200)))
            } else {
                m.failed
            };
            lemma_next_step(
                LoopModel {
                    failed,
                    transcript: m.transcript + shell_text(
                        m.cmd,
                        code as int,
                        limit_spec(truncate_spec(out, 1500), 500),
                    ),
                    ..m
                },
                None,
            );
        },
        _ => {},
    }
}


// ---------------------------------------------------------------------------
// The executable loop
// ---------------------------------------------------------------------------

/// The next thing for the caller to do.
pub enum AgentAction {
    /// Ask the model; answer with `AgentEvent::Reply`.
    Infer { system: String, user: String },
    /// Print `prompt`, read a line from the human; answer with `AgentEvent::Answered`.
    AskTool { prompt: String },
    /// Run the tool; answer with `AgentEvent::ToolDone`.
    RunTool { tool: Tool, args: JsonValue },
    /// Show `$ cmd`, ask `Run this command? [y/N]`; answer with `AgentEvent::Answered`.
    ConfirmCommand { cmd: String },
    /// Run the command (showing `$ cmd` first when `echo`); answer with `AgentEvent::ShellDone`.
    RunShell { cmd: String, echo: bool },
    /// Finished with an answer.
    Answer { text: String },
    /// Finished without an answer.
    NoAnswer,
    /// Finished: the human declined a risky command.
    Aborted,
    /// Finished with an error.
    Failed { error: String },
}

/// An action, with the model's narration to show a human before it.
pub struct Step {
    pub say: Option<String>,
    pub action: AgentAction,
}

/// What happened since the last action.
pub enum AgentEvent {
    /// The model's reply, or the error of the call.
    Reply(Result<String, String>),
    /// The human's line, or `None` when there was no input.
    Answered(Option<String>),
    /// The tool's output or error.
    ToolDone(Result<String, String>),
    /// The command's exit code and combined output, or the error of running it.
    ShellDone(Result<(i32, String), String>),
}

impl View for AgentAction {
    type V = ActionView;

    open spec fn view(&self) -> ActionView {
        match self {
            AgentAction::Infer { system, user } => ActionView::Infer { system: system@, user: user@ },
            AgentAction::AskTool { prompt } => ActionView::AskTool { prompt: prompt@ },
            AgentAction::RunTool { tool, args } => ActionView::RunTool { tool: *tool, args: args@ },
            AgentAction::ConfirmCommand { cmd } => ActionView::ConfirmCommand { cmd: cmd@ },
            AgentAction::RunShell { cmd, echo } => ActionView::RunShell { cmd: cmd@, echo: *echo },
            AgentAction::Answer { text } => ActionView::Answer { text: text@ },
            AgentAction::NoAnswer => ActionView::NoAnswer,
            AgentAction::Aborted => ActionView::Aborted,
            AgentAction::Failed { error } => ActionView::Failed { error: error@ },
        }
    }
}

impl View for Step {
    type V = StepView;

    open spec fn view(&self) -> StepView {
        StepView { say: opt_view(self.say), action: self.action@ }
    }
}

pub open spec fn result_view(r: Result<String, String>) -> Result<Seq<char>, Seq<char>> {
    match r {
        Ok(s) => Ok(s@),
        Err(e) => Err(e@),
    }
}

impl View for AgentEvent {
    type V = EventView;

    open spec fn view(&self) -> EventView {
        match self {
            AgentEvent::Reply(r) => EventView::Reply(result_view(*r)),
            AgentEvent::Answered(l) => EventView::Answered(opt_view(*l)),
            AgentEvent::ToolDone(r) => EventView::ToolDone(result_view(*r)),
            AgentEvent::ShellDone(r) => EventView::ShellDone(
                match r {
                    Ok((c, o)) => Ok((*c, o@)),
                    Err(e) => Err(e@),
                },
            ),
        }
    }
}

/// The agent loop.
pub struct AgentLoop {
    task: String,
    system: String,
    mode: Mode,
    capture: bool,
    max_steps: usize,
    step: usize,
    transcript: String,
    seen: Vec<String>,
    failed: Vec<(String, String)>,
    phase: Phase,
    tool: Option<(Tool, JsonValue)>,
    cmd: String,
    infers: Ghost<nat>,
    ran: Ghost<Seq<Seq<char>>>,
}

pub open spec fn tool_view(t: Option<(Tool, JsonValue)>) -> Option<(Tool, JsonModel)> {
    match t {
        Some(p) => Some((p.0, p.1@)),
        None => None,
    }
}

impl View for AgentLoop {
    type V = LoopModel;

    closed spec fn view(&self) -> LoopModel {
        LoopModel {
            task: self.task@,
            system: self.system@,
            mode: self.mode,
            capture: self.capture,
            max_steps: self.max_steps as nat,
            step: self.step as nat,
            transcript: self.transcript@,
            seen: strings(self.seen@),
            failed: self.failed@.map_values(|p: (String, String)| pair_view(p)),
            phase: self.phase,
            tool: tool_view(self.tool),
            cmd: self.cmd@,
            infers: self.infers@,
            ran: self.ran@,
        }
    }
}

fn contains_text(v: &Vec<String>, t: &str) -> (r: bool)
    ensures
        r == strings(v@).contains(t@),
{
    let mut i: usize = 0;
    while i < v.len()
        invariant
            i <= v.len(),
            forall|k: int| 0 <= k < i ==> strings(v@)[k] != t@,
        decreases v.len() - i,
    {
        if str_eq(v[i].as_str(), t) {
            assert(strings(v@)[i as int] == t@);
            return true;
        }
        i = i + 1;
    }
    false
}

/// Whether `t` is among the strings of `v`.
pub fn contains_text_pub(v: &Vec<String>, t: &str) -> (r: bool)
    ensures
        r == strings(v@).contains(t@),
{
    contains_text(v, t)
}

fn failed_before_exec(failed: &Vec<(String, String)>, cmd: &str) -> (r: bool)
    ensures
        r == failed_before(failed@.map_values(|p: (String, String)| pair_view(p)), cmd@),
{
    let ghost f = failed@.map_values(|p: (String, String)| pair_view(p));
    let mut i: usize = 0;
    while i < failed.len()
        invariant
            i <= failed.len(),
            f == failed@.map_values(|p: (String, String)| pair_view(p)),
            forall|k: int| 0 <= k < i ==> f[k].0 != cmd@,
        decreases failed.len() - i,
    {
        if str_eq(failed[i].0.as_str(), cmd) {
            assert(f[i as int].0 == cmd@);
            return true;
        }
        i = i + 1;
    }
    false
}

fn push_result(s: &mut String, output: &str, error: bool)
    ensures
        final(s)@ == old(s)@ + result_text(output@, error),
{
    if error {
        push_str(s, "[error] ");
    }
    push_str(s, output);
    push_str(s, "\n");
    assert(final(s)@ =~= old(s)@ + result_text(output@, error));
}

fn push_shell(s: &mut String, cmd: &str, code: i32, output: &str)
    ensures
        final(s)@ == old(s)@ + shell_text(cmd@, code as int, output@),
{
    push_str(s, "$ ");
    push_str(s, cmd);
    push_str(s, "\n(exit ");
    push_int(s, code as i64);
    push_str(s, ")\n");
    push_str(s, output);
    push_str(s, "\n");
    assert(final(s)@ =~= old(s)@ + shell_text(cmd@, code as int, output@));
}

fn push_call(s: &mut String, t: Tool, args: &JsonValue, args_text: &str)
    ensures
        final(s)@ == old(s)@ + call_text(tool_name(t), args@, args_text@),
{
    push_str(s, "> ");
    push_str(s, t.name());
    push_str(s, "(");
    let f = format_tool_args(t.name(), args, args_text);
    push_str(s, f.as_str());
    push_str(s, ")\n");
    assert(final(s)@ =~= old(s)@ + call_text(tool_name(t), args@, args_text@));
}

fn copy_text(s: &str) -> (r: String)
    ensures
        r@ == s@,
{
    let mut r = String::new();
    push_str(&mut r, s);
    r
}

impl AgentLoop {
    fn step_user(&self) -> (r: String)
        ensures
            r@ == step_user(self@),
    {
        if self.transcript.as_str().is_empty() {
            return copy_text(self.task.as_str());
        }
        let mut u = String::new();
        push_str(&mut u, "Request: ");
        push_str(&mut u, self.task.as_str());
        push_str(&mut u, "\n\nCommands run so far:\n");
        push_str(&mut u, self.transcript.as_str());
        if self.failed.len() > 0 {
            push_str(&mut u, "\nThe last command failed: ");
            push_str(&mut u, self.failed[self.failed.len() - 1].1.as_str());
            push_str(&mut u, "\nTry a different approach to avoid the same error.");
        }
        push_str(&mut u, "\nGather more if needed, else answer.");
        assert(u@ =~= step_user(self@));
        u
    }

    fn forced_user(&self) -> (r: String)
        ensures
            r@ == forced_user(self@),
    {
        let mut u = String::new();
        push_str(&mut u, "Request: ");
        push_str(&mut u, self.task.as_str());
        push_str(&mut u, "\n\nCommands run so far:\n");
        push_str(&mut u, self.transcript.as_str());
        push_str(&mut u, "\nGive your final answer now as {\"answer\":\"...\"}.");
        assert(u@ =~= forced_user(self@));
        u
    }

    fn force(&mut self, say: Option<String>) -> (r: Step)
        ensures
            (final(self)@, r@) == force(old(self)@, opt_view(say)),
    {
        let user = self.forced_user();
        self.phase = Phase::Forced;
        self.tool = None;
        self.infers = Ghost((self.infers@ + 1) as nat);
        Step { say, action: AgentAction::Infer { system: copy_text(self.system.as_str()), user } }
    }

    fn begin_step(&mut self, say: Option<String>) -> (r: Step)
        ensures
            (final(self)@, r@) == begin_step(old(self)@, opt_view(say)),
    {
        if self.step < self.max_steps {
            let user = self.step_user();
            self.phase = Phase::Deciding;
            self.tool = None;
            self.infers = Ghost((self.infers@ + 1) as nat);
            Step { say, action: AgentAction::Infer { system: copy_text(self.system.as_str()), user } }
        } else {
            self.force(say)
        }
    }

    fn next_step(&mut self, say: Option<String>) -> (r: Step)
        requires
            old(self).step < old(self).max_steps,
        ensures
            (final(self)@, r@) == next_step(old(self)@, opt_view(say)),
    {
        self.step = self.step + 1;
        self.begin_step(say)
    }

    fn finish(&mut self, action: AgentAction) -> (r: Step)
        ensures
            (final(self)@, r@) == finish(old(self)@, action@),
    {
        self.phase = Phase::Done;
        self.tool = None;
        Step { say: None, action }
    }

    fn narrate(&self, say: Option<String>) -> (r: Option<String>)
        ensures
            opt_view(r) == narrate(self@, opt_view(say)),
    {
        if matches!(self.mode, Mode::User) && !self.capture {
            say
        } else {
            None
        }
    }
}


impl AgentLoop {
    fn on_decision(&mut self, d: Decision) -> (r: Step)
        requires
            old(self)@.phase is Deciding,
            old(self).step < old(self).max_steps,
        ensures
            (final(self)@, r@) == on_decision(old(self)@, d@),
    {
        match d {
            Decision::Answer(a) => self.finish(AgentAction::Answer { text: a }),
            Decision::Retry(msg) => {
                push_result(&mut self.transcript, msg.as_str(), true);
                self.next_step(None)
            },
            Decision::Tool { tool, args, args_text, say } => {
                let say = self.narrate(say);
                let mut sig = String::new();
                push_str(&mut sig, "tool:");
                push_str(&mut sig, tool.name());
                push_str(&mut sig, ":");
                push_str(&mut sig, args_text.as_str());
                if contains_text(&self.seen, sig.as_str()) {
                    return self.force(say);
                }
                let ghost sv = sig@;
                self.seen.push(sig);
                assert(strings(self.seen@) =~= strings(old(self).seen@).push(sv));
                push_call(&mut self.transcript, tool, &args, args_text.as_str());
                match validate_args(tool, &args) {
                    Err(e) => {
                        push_result(&mut self.transcript, e.as_str(), true);
                        self.next_step(say)
                    },
                    Ok(()) => {
                        let needs = match tool {
                            Tool::Write => true,
                            Tool::Edit => true,
                            _ => false,
                        };
                        if !self.capture && matches!(self.mode, Mode::User) && needs {
                            let mut prompt = String::new();
                            push_str(&mut prompt, "  ");
                            push_str(&mut prompt, tool.description());
                            push_str(&mut prompt, "? (y/n) ");
                            self.phase = Phase::ToolConfirm;
                            self.tool = Some((tool, args));
                            Step { say, action: AgentAction::AskTool { prompt } }
                        } else {
                            self.phase = Phase::ToolRunning;
                            Step { say, action: AgentAction::RunTool { tool, args } }
                        }
                    },
                }
            },
            Decision::Run { say, cmd } => {
                if contains_text(&self.seen, cmd.as_str()) {
                    if failed_before_exec(&self.failed, cmd.as_str()) && self.step + 1
                        < self.max_steps {
                        push_shell(
                            &mut self.transcript,
                            cmd.as_str(),
                            -1,
                            "already failed — try a different command",
                        );
                        return self.next_step(None);
                    }
                    return self.force(None);
                }
                let say = self.narrate(say);
                let ghost cv = cmd@;
                self.seen.push(cmd.clone());
                assert(strings(self.seen@) =~= strings(old(self).seen@).push(cv));
                if !self.capture && is_risky(cmd.as_str()) {
                    self.cmd = cmd.clone();
                    self.phase = Phase::CommandConfirm;
                    Step { say, action: AgentAction::ConfirmCommand { cmd } }
                } else {
                    self.cmd = cmd.clone();
                    self.phase = Phase::ShellRunning;
                    self.ran = Ghost(self.ran@.push(cv));
                    let echo = !self.capture;
                    Step { say, action: AgentAction::RunShell { cmd, echo } }
                }
            },
        }
    }

    /// Whether the loop, in its current phase, takes this event.
    pub fn accepts(&self, ev: &AgentEvent) -> (r: bool)
        ensures
            r == accepts(self@, ev@),
    {
        match self.phase {
            Phase::Deciding => matches!(ev, AgentEvent::Reply(_)),
            Phase::Forced => matches!(ev, AgentEvent::Reply(_)),
            Phase::ToolConfirm => matches!(ev, AgentEvent::Answered(_)),
            Phase::ToolRunning => matches!(ev, AgentEvent::ToolDone(_)),
            Phase::CommandConfirm => matches!(ev, AgentEvent::Answered(_)),
            Phase::ShellRunning => matches!(ev, AgentEvent::ShellDone(_)),
            Phase::Done => false,
        }
    }

    /// Hand the loop what happened; get the next thing to do.
    pub fn advance(&mut self, ev: AgentEvent) -> (r: Step)
        requires
            wf(old(self)@),
            accepts(old(self)@, ev@),
        ensures
            (final(self)@, r@) == transition(old(self)@, ev@),
            wf(final(self)@),
    {
        proof {
            law_transition(self@, ev@);
        }
        match (self.phase, ev) {
            (Phase::Deciding, AgentEvent::Reply(Err(e))) => self.finish(AgentAction::Failed { error: e }),
            (Phase::Deciding, AgentEvent::Reply(Ok(t))) => {
                let d = parse_decision(t.as_str());
                self.on_decision(d)
            },
            (Phase::Forced, AgentEvent::Reply(Err(e))) => self.finish(AgentAction::Failed { error: e }),
            (Phase::Forced, AgentEvent::Reply(Ok(t))) => {
                match parse_decision(t.as_str()) {
                    Decision::Answer(a) => self.finish(AgentAction::Answer { text: a }),
                    _ => self.finish(AgentAction::NoAnswer),
                }
            },
            (Phase::ToolConfirm, AgentEvent::Answered(line)) => {
                let yes = match &line {
                    Some(l) => is_yes(l.as_str()),
                    None => false,
                };
                if yes {
                    let pending = self.tool.take();
                    match pending {
                        Some((tool, args)) => {
                            self.phase = Phase::ToolRunning;
                            Step { say: None, action: AgentAction::RunTool { tool, args } }
                        },
                        None => self.finish(AgentAction::Failed { error: String::new() }),
                    }
                } else {
                    push_result(&mut self.transcript, "Permission denied by user.", true);
                    self.next_step(None)
                }
            },
            (Phase::ToolRunning, AgentEvent::ToolDone(Ok(out))) => {
                let limiter = OutputLimiter { max_lines: 500 };
                let kept = limiter.truncate(out.as_str());
                push_result(&mut self.transcript, kept.as_str(), false);
                self.next_step(None)
            },
            (Phase::ToolRunning, AgentEvent::ToolDone(Err(e))) => {
                push_result(&mut self.transcript, e.as_str(), true);
                self.next_step(None)
            },
            (Phase::CommandConfirm, AgentEvent::Answered(line)) => {
                let yes = match &line {
                    Some(l) => is_yes(l.as_str()),
                    None => false,
                };
                if yes {
                    self.phase = Phase::ShellRunning;
                    self.ran = Ghost(self.ran@.push(self.cmd@));
                    Step {
                        say: None,
                        action: AgentAction::RunShell { cmd: self.cmd.clone(), echo: false },
                    }
                } else {
                    self.finish(AgentAction::Aborted)
                }
            },
            (Phase::ShellRunning, AgentEvent::ShellDone(Err(e))) => self.finish(AgentAction::Failed { error: e }),
            (Phase::ShellRunning, AgentEvent::ShellDone(Ok((code, raw)))) => {
                let out = cap_lines(raw.as_str(), OUTPUT_CAP);
                if code != 0 {
                    let mut summary = String::new();
                    push_str(&mut summary, "exit ");
                    push_int(&mut summary, code as i64);
                    push_str(&mut summary, ": ");
                    push_str(&mut summary, trunc(out.as_str(), 200).as_str());
                    let ghost before = self.failed@.map_values(|p: (String, String)| pair_view(p));
                    let ghost entry = (self.cmd@, summary@);
                    self.failed.push((self.cmd.clone(), summary));
                    assert(self.failed@.map_values(|p: (String, String)| pair_view(p)) =~= before.push(entry));
                }
                let limiter = OutputLimiter { max_lines: 500 };
                let shown = limiter.truncate(trunc(out.as_str(), 1500).as_str());
                let cmd = self.cmd.clone();
                push_shell(&mut self.transcript, cmd.as_str(), code, shown.as_str());
                self.next_step(None)
            },
            _ => Step { say: None, action: AgentAction::Failed { error: String::new() } },
        }
    }
}

/// Start the loop that fulfils a task for `mode`'s reader, on the shell of the platform
/// (`windows` for PowerShell), with at most `max_steps` steps before the final answer.
pub fn fulfill(task: &str, mode: Mode, windows: bool, max_steps: usize) -> (r: (AgentLoop, Step))
    ensures
        (r.0@, r.1@) == start(task@, windows, mode, false, max_steps as nat),
        wf(r.0@),
{
    start_loop(task, mode, windows, false, max_steps)
}

/// Start the loop that fulfils a task for a caller who takes the answer as text: model mode, no
/// questions to a human.
pub fn fulfill_and_capture(task: &str, windows: bool, max_steps: usize) -> (r: (AgentLoop, Step))
    ensures
        (r.0@, r.1@) == start(task@, windows, Mode::Model, true, max_steps as nat),
        wf(r.0@),
{
    start_loop(task, Mode::Model, windows, true, max_steps)
}

fn start_loop(task: &str, mode: Mode, windows: bool, capture: bool, max_steps: usize) -> (r: (
    AgentLoop,
    Step,
))
    ensures
        (r.0@, r.1@) == start(task@, windows, mode, capture, max_steps as nat),
        wf(r.0@),
{
    let system = if windows {
        build_system_prompt(
            "Any command runs in Windows PowerShell — use PowerShell cmdlets and syntax (Get-ChildItem, Select-String, Measure-Object, Select-Object, Where-Object). Do NOT use bash/POSIX tools (no sed, awk, grep, or `find` with -printf).",
        )
    } else {
        build_system_prompt(
            "Any command runs in a POSIX bash shell — use POSIX tools (find, grep, sed, awk, wc, ls, git); never PowerShell or cmd syntax.",
        )
    };
    let mut lp = AgentLoop {
        task: copy_text(task),
        system,
        mode: if capture { Mode::Model } else { mode },
        capture,
        max_steps,
        step: 0,
        transcript: String::new(),
        seen: Vec::new(),
        failed: Vec::new(),
        phase: Phase::Deciding,
        tool: None,
        cmd: String::new(),
        infers: Ghost(0),
        ran: Ghost(Seq::empty()),
    };
    assert(strings(lp.seen@) =~= seq![]);
    assert(lp.failed@.map_values(|p: (String, String)| pair_view(p)) =~= seq![]);
    let first = lp.begin_step(None);
    proof {
        law_start_wf(task@, windows, mode, capture, max_steps as nat);
    }
    (lp, first)
}

} // verus!
