//! One-shot script execution: what to spawn, what to log for each thing that
//! happens to the child process, and what the run amounts to in the end.
//!
//! The caller spawns the process, reads its output and waits for it, for at
//! most [`EXECUTION_TIMEOUT_SECS`]. It hands every event to the executor and
//! forwards the log entries that come back.
//!
//! A run that outlasts the limit is reported as failed. The child is not
//! killed for it: it is left to end by itself.

pub mod js_executor;
pub mod python_executor;
pub mod shell_executor;

use vstd::prelude::*;
use crate::database::models::{Button, LogContent, LogEntry, Severity, opt_text};
use crate::stamp::fresh_id;
use crate::text::{
    decimal, digit_char, push_decimal, push_signed_decimal, same_text, signed_decimal, texts,
};
use crate::executor::js_executor::{JsExecutor, js_missing_message, js_start_message};
use crate::executor::python_executor::{
    PythonExecutor, python_missing_message, python_start_message,
};
use crate::executor::shell_executor::{
    ShellExecutor, shell_flag, shell_program, shell_start_message,
};

verus! {

/// The wall-clock limit of one execution, in seconds.
pub const EXECUTION_TIMEOUT_SECS: u64 = 30;

/// The capacity of the channel that carries log entries away from a running
/// script. A line that finds the channel full is dropped.
pub const LOG_CHANNEL_CAPACITY: usize = 100;

/// The terminal value of one script run.
#[derive(Debug, Clone, PartialEq, Eq)]
pub struct ExecutionResult {
    pub success: bool,
    pub exit_code: Option<i32>,
    pub duration_ms: u64,
    pub error: Option<String>,
}

/// An [`ExecutionResult`] with its texts as sequences.
pub struct ExecutionResultView {
    pub success: bool,
    pub exit_code: Option<i32>,
    pub duration_ms: u64,
    pub error: Option<Seq<char>>,
}

impl View for ExecutionResult {
    type V = ExecutionResultView;

    open spec fn view(&self) -> ExecutionResultView {
        ExecutionResultView {
            success: self.success,
            exit_code: self.exit_code,
            duration_ms: self.duration_ms,
            error: opt_text(self.error),
        }
    }
}

/// Which of the child's two streams a line came from.
#[derive(Debug, Clone, Copy, PartialEq, Eq, Structural)]
pub enum OutputStream {
    Stdout,
    Stderr,
}

impl OutputStream {
    /// Standard output is logged as information, standard error as errors.
    pub open spec fn severity(self) -> Severity {
        match self {
            OutputStream::Stdout => Severity::Info,
            OutputStream::Stderr => Severity::Error,
        }
    }
}

/// How the wait for the child process ended.
#[derive(Debug, Clone, PartialEq, Eq)]
pub enum WaitOutcome {
    /// The process exited, with this code if it has one.
    Exited(Option<i32>),
    /// Waiting on the process failed.
    WaitFailed(String),
    /// The task that waited did not run to its end.
    TaskFailed(String),
    /// The limit passed before the process exited.
    TimedOut,
}

/// A [`WaitOutcome`] with its texts as sequences.
pub enum WaitOutcomeView {
    Exited(Option<i32>),
    WaitFailed(Seq<char>),
    TaskFailed(Seq<char>),
    TimedOut,
}

impl View for WaitOutcome {
    type V = WaitOutcomeView;

    open spec fn view(&self) -> WaitOutcomeView {
        match self {
            WaitOutcome::Exited(code) => WaitOutcomeView::Exited(*code),
            WaitOutcome::WaitFailed(e) => WaitOutcomeView::WaitFailed(e@),
            WaitOutcome::TaskFailed(e) => WaitOutcomeView::TaskFailed(e@),
            WaitOutcome::TimedOut => WaitOutcomeView::TimedOut,
        }
    }
}

/// A program and its arguments.
#[derive(Debug, Clone, PartialEq, Eq)]
pub struct Invocation {
    pub program: String,
    pub args: Vec<String>,
}

impl Invocation {
    /// The program's name.
    pub open spec fn program_text(&self) -> Seq<char> {
        self.program@
    }

    /// The arguments, in order.
    pub open spec fn arg_texts(&self) -> Seq<Seq<char>> {
        texts(self.args@)
    }

    /// `program` with the two arguments `flag` and `operand`.
    pub fn with_flag(program: &str, flag: &str, operand: &str) -> (out: Invocation)
        ensures
            out.program_text() == program@,
            out.arg_texts() == seq![flag@, operand@],
    {
        let mut args: Vec<String> = Vec::new();
        args.push(String::from_str(flag));
        args.push(String::from_str(operand));
        let out = Invocation { program: String::from_str(program), args };
        assert(out.arg_texts() =~= seq![flag@, operand@]);
        out
    }

    /// `program` with the single argument `flag`.
    pub fn with_one(program: &str, flag: &str) -> (out: Invocation)
        ensures
            out.program_text() == program@,
            out.arg_texts() == seq![flag@],
    {
        let mut args: Vec<String> = Vec::new();
        args.push(String::from_str(flag));
        let out = Invocation { program: String::from_str(program), args };
        assert(out.arg_texts() =~= seq![flag@]);
        out
    }
}

/// A duration of `ms` milliseconds in seconds, rounded to two decimals, a tie
/// going up: `1234` is written `1.23`, `5` is written `0.01`.
pub open spec fn seconds_text(ms: nat) -> Seq<char> {
    let hundredths = (ms + 5) / 10;
    decimal(hundredths / 100) + seq![
        '.',
        digit_char((hundredths / 10) % 10),
        digit_char(hundredths % 10),
    ]
}

/// The line that reports a run that exited with code 0.
pub open spec fn success_message(ms: nat) -> Seq<char> {
    "✅ 执行成功 (耗时: "@ + seconds_text(ms) + "秒)"@
}

/// The line that reports a run that exited otherwise; a missing code reads -1.
pub open spec fn failure_message(code: Option<i32>, ms: nat) -> Seq<char> {
    let shown: int = match code {
        Some(c) => c as int,
        None => -1,
    };
    "❌ 执行失败 (退出码: "@ + signed_decimal(shown) + ", 耗时: "@ + seconds_text(ms) + "秒)"@
}

/// The line that reports a process that could not be spawned.
pub open spec fn spawn_failed_message(error: Seq<char>) -> Seq<char> {
    "❌ 执行失败: "@ + error
}

/// The line that reports a failed wait.
pub open spec fn wait_failed_message(error: Seq<char>) -> Seq<char> {
    "❌ 等待进程失败: "@ + error
}

/// The line that reports a waiting task that did not finish.
pub open spec fn task_failed_message(error: Seq<char>) -> Seq<char> {
    "❌ 任务执行失败: "@ + error
}

/// The line that reports a run that outlasted the limit.
pub open spec fn timeout_message() -> Seq<char> {
    "⏱️ 执行超时 (超过 "@ + decimal(EXECUTION_TIMEOUT_SECS as nat) + " 秒)"@
}

/// The process exited with code 0.
pub open spec fn exited_cleanly(code: Option<i32>) -> bool {
    code == Some(0i32)
}

/// The severity of the line that closes a run.
pub open spec fn outcome_severity(outcome: WaitOutcomeView) -> Severity {
    match outcome {
        WaitOutcomeView::Exited(code) => if exited_cleanly(code) {
            Severity::Info
        } else {
            Severity::Error
        },
        _ => Severity::Error,
    }
}

/// The text of the line that closes a run.
pub open spec fn outcome_message(outcome: WaitOutcomeView, ms: nat) -> Seq<char> {
    match outcome {
        WaitOutcomeView::Exited(code) => if exited_cleanly(code) {
            success_message(ms)
        } else {
            failure_message(code, ms)
        },
        WaitOutcomeView::WaitFailed(e) => wait_failed_message(e),
        WaitOutcomeView::TaskFailed(e) => task_failed_message(e),
        WaitOutcomeView::TimedOut => timeout_message(),
    }
}

/// What a run amounts to: success only for exit code 0, the exit code only
/// where the process exited, the elapsed time always, and an error text for
/// everything but an exit.
pub open spec fn outcome_result(outcome: WaitOutcomeView, ms: u64) -> ExecutionResultView {
    match outcome {
        WaitOutcomeView::Exited(code) => ExecutionResultView {
            success: exited_cleanly(code),
            exit_code: code,
            duration_ms: ms,
            error: None,
        },
        _ => ExecutionResultView {
            success: false,
            exit_code: None,
            duration_ms: ms,
            error: Some(outcome_message(outcome, ms as nat)),
        },
    }
}

/// The result of a run and its closing line agree: the run succeeded exactly
/// if the process exited with code 0, which is exactly where the line is
/// logged as information; the result carries the elapsed time always, an
/// exit code only after an exit, and as its error the text of the line.
pub proof fn law_result_agrees_with_closing_line(outcome: WaitOutcomeView, ms: u64)
    ensures
        outcome_result(outcome, ms).success <==> outcome == WaitOutcomeView::Exited(Some(0i32)),
        outcome_result(outcome, ms).success <==> outcome_severity(outcome) == Severity::Info,
        outcome_result(outcome, ms).duration_ms == ms,
        outcome_result(outcome, ms).exit_code is Some ==> outcome is Exited,
        outcome_result(outcome, ms).error is Some <==> !(outcome is Exited),
        outcome_result(outcome, ms).error matches Some(text) ==> text == outcome_message(
            outcome,
            ms as nat,
        ),
{
}

/// Appends `ms` milliseconds, written in seconds with two decimals.
pub fn push_seconds(out: &mut String, ms: u64)
    ensures
        final(out)@ == old(out)@ + seconds_text(ms as nat),
{
    let round_up: u64 = if ms % 10 >= 5 {
        1
    } else {
        0
    };
    let hundredths: u64 = ms / 10 + round_up;
    assert(hundredths == (ms + 5) / 10);
    push_decimal(out, hundredths / 100);
    out.push('.');
    let tenths_digit: u8 = ((hundredths / 10) % 10) as u8;
    let hundredths_digit: u8 = (hundredths % 10) as u8;
    out.push((48u8 + tenths_digit) as char);
    out.push((48u8 + hundredths_digit) as char);
    assert(out@ =~= old(out)@ + seconds_text(ms as nat));
}

/// The text of the line that closes a run.
pub fn outcome_text(outcome: &WaitOutcome, elapsed_ms: u64) -> (out: String)
    ensures
        out@ == outcome_message(outcome@, elapsed_ms as nat),
{
    match outcome {
        WaitOutcome::Exited(code) => {
            let clean = match code {
                Some(c) => *c == 0,
                None => false,
            };
            if clean {
                let mut out = String::from_str("✅ 执行成功 (耗时: ");
                push_seconds(&mut out, elapsed_ms);
                out.append("秒)");
                out
            } else {
                let shown: i32 = match code {
                    Some(c) => *c,
                    None => -1,
                };
                let mut out = String::from_str("❌ 执行失败 (退出码: ");
                push_signed_decimal(&mut out, shown);
                out.append(", 耗时: ");
                push_seconds(&mut out, elapsed_ms);
                out.append("秒)");
                out
            }
        },
        WaitOutcome::WaitFailed(e) => {
            let mut out = String::from_str("❌ 等待进程失败: ");
            out.append(e.as_str());
            out
        },
        WaitOutcome::TaskFailed(e) => {
            let mut out = String::from_str("❌ 任务执行失败: ");
            out.append(e.as_str());
            out
        },
        WaitOutcome::TimedOut => {
            let mut out = String::from_str("⏱️ 执行超时 (超过 ");
            push_decimal(&mut out, EXECUTION_TIMEOUT_SECS);
            out.append(" 秒)");
            out
        },
    }
}

/// The log entry for one line that the child wrote: information from standard
/// output, an error from standard error, the line itself as the message.
pub fn output_line(button_id: &str, stream: OutputStream, line: String) -> (entry: LogEntry)
    ensures
        entry.content() == (LogContent {
            button_id: Some(button_id@),
            monitor_id: None,
            level: stream.severity().label(),
            message: line@,
        }),
{
    let severity = match stream {
        OutputStream::Stdout => Severity::Info,
        OutputStream::Stderr => Severity::Error,
    };
    LogEntry::for_button(button_id, severity, line)
}

/// The log entry and the error for a process that could not be spawned.
pub fn spawn_failure(button_id: &str, error: &str) -> (out: (LogEntry, String))
    ensures
        out.0.content() == (LogContent {
            button_id: Some(button_id@),
            monitor_id: None,
            level: Severity::Error.label(),
            message: spawn_failed_message(error@),
        }),
        out.1@ == spawn_failed_message(error@),
{
    let mut message = String::from_str("❌ 执行失败: ");
    message.append(error);
    let entry = LogEntry::for_button(button_id, Severity::Error, message.clone());
    (entry, message)
}

/// The closing log entry and the result of a run whose wait ended in
/// `outcome` after `elapsed_ms` milliseconds.
pub fn conclude(button_id: &str, outcome: &WaitOutcome, elapsed_ms: u64) -> (out: (
    LogEntry,
    ExecutionResult,
))
    ensures
        out.0.content() == (LogContent {
            button_id: Some(button_id@),
            monitor_id: None,
            level: outcome_severity(outcome@).label(),
            message: outcome_message(outcome@, elapsed_ms as nat),
        }),
        out.1@ == outcome_result(outcome@, elapsed_ms),
{
    let message = outcome_text(outcome, elapsed_ms);
    match outcome {
        WaitOutcome::Exited(code) => {
            let clean = match code {
                Some(c) => *c == 0,
                None => false,
            };
            let severity = if clean {
                Severity::Info
            } else {
                Severity::Error
            };
            let entry = LogEntry::for_button(button_id, severity, message);
            let result = ExecutionResult {
                success: clean,
                exit_code: *code,
                duration_ms: elapsed_ms,
                error: None,
            };
            (entry, result)
        },
        _ => {
            let entry = LogEntry::for_button(button_id, Severity::Error, message.clone());
            let result = ExecutionResult {
                success: false,
                exit_code: None,
                duration_ms: elapsed_ms,
                error: Some(message),
            };
            (entry, result)
        },
    }
}

/// The interpreter family of a script.
#[derive(Debug, Clone, Copy, PartialEq, Eq, Structural)]
pub enum ScriptKind {
    Shell,
    Python,
    JavaScript,
}

/// The family that a button's script type names, if it names one.
pub open spec fn script_kind_of(script_type: Seq<char>) -> Option<ScriptKind> {
    if script_type == "shell"@ {
        Some(ScriptKind::Shell)
    } else if script_type == "python"@ {
        Some(ScriptKind::Python)
    } else if script_type == "javascript"@ {
        Some(ScriptKind::JavaScript)
    } else {
        None
    }
}

impl ScriptKind {
    /// Reads a script type: `shell`, `python` or `javascript`.
    pub fn from_type(script_type: &str) -> (kind: Option<ScriptKind>)
        ensures
            kind == script_kind_of(script_type@),
    {
        if same_text(script_type, "shell") {
            Some(ScriptKind::Shell)
        } else if same_text(script_type, "python") {
            Some(ScriptKind::Python)
        } else if same_text(script_type, "javascript") {
            Some(ScriptKind::JavaScript)
        } else {
            None
        }
    }
}

/// The executor for a button, by the family of its script.
pub enum ScriptExecutor {
    Shell(ShellExecutor),
    Python(PythonExecutor),
    JavaScript(JsExecutor),
}

/// The error for a script type that names no interpreter family.
pub open spec fn unknown_script_type_message(script_type: Seq<char>) -> Seq<char> {
    "Unknown script type: "@ + script_type
}

/// The line that announces a run of the family `kind`.
pub open spec fn start_message(kind: ScriptKind, button_name: Seq<char>) -> Seq<char> {
    match kind {
        ScriptKind::Shell => shell_start_message(button_name),
        ScriptKind::Python => python_start_message(button_name),
        ScriptKind::JavaScript => js_start_message(button_name),
    }
}

/// The interpreter of the family `kind`.
pub open spec fn interpreter(kind: ScriptKind, windows: bool) -> Seq<char> {
    match kind {
        ScriptKind::Shell => shell_program(windows),
        ScriptKind::Python => "python3"@,
        ScriptKind::JavaScript => "node"@,
    }
}

/// The flag after which the interpreter takes a script as one argument.
pub open spec fn inline_flag(kind: ScriptKind, windows: bool) -> Seq<char> {
    match kind {
        ScriptKind::Shell => shell_flag(windows),
        ScriptKind::Python => "-c"@,
        ScriptKind::JavaScript => "-e"@,
    }
}

/// The line that reports that the interpreter of the family `kind` is
/// missing. The shell is not probed, so it has none.
pub open spec fn missing_message(kind: ScriptKind) -> Option<Seq<char>> {
    match kind {
        ScriptKind::Shell => None,
        ScriptKind::Python => Some(python_missing_message()),
        ScriptKind::JavaScript => Some(js_missing_message()),
    }
}

impl ScriptExecutor {
    /// The entry to log before anything is spawned.
    pub fn start_log(&self) -> (entry: LogEntry)
        ensures
            entry.content() == (LogContent {
                button_id: Some(self.button_id()),
                monitor_id: None,
                level: Severity::Info.label(),
                message: start_message(self.kind(), self.button_name()),
            }),
    {
        match self {
            ScriptExecutor::Shell(e) => e.start_log(),
            ScriptExecutor::Python(e) => e.start_log(),
            ScriptExecutor::JavaScript(e) => e.start_log(),
        }
    }

    /// The command that tells whether the interpreter can be run at all,
    /// for the families that are probed: all but the shell.
    pub fn probe(&self) -> (out: Option<Invocation>)
        ensures
            out is Some <==> self.kind() != ScriptKind::Shell,
            out matches Some(probe) ==> probe.program_text() == interpreter(self.kind(), false)
                && probe.arg_texts() == seq!["--version"@],
    {
        match self {
            ScriptExecutor::Shell(_) => None,
            ScriptExecutor::Python(e) => Some(e.probe()),
            ScriptExecutor::JavaScript(e) => Some(e.probe()),
        }
    }

    /// The entry to log and the error to return when the probe could not be
    /// run.
    pub fn runtime_missing(&self) -> (out: Option<(LogEntry, String)>)
        ensures
            match (out, missing_message(self.kind())) {
                (Some((entry, error)), Some(message)) => {
                    &&& entry.content() == (LogContent {
                        button_id: Some(self.button_id()),
                        monitor_id: None,
                        level: Severity::Error.label(),
                        message,
                    })
                    &&& error@ == message
                },
                (None, None) => true,
                _ => false,
            },
    {
        match self {
            ScriptExecutor::Shell(_) => None,
            ScriptExecutor::Python(e) => Some(e.runtime_missing()),
            ScriptExecutor::JavaScript(e) => Some(e.runtime_missing()),
        }
    }

    /// What to spawn: the interpreter, with the whole script as one inline
    /// argument.
    pub fn invocation(&self, windows: bool) -> (out: Invocation)
        ensures
            out.program_text() == interpreter(self.kind(), windows),
            out.arg_texts() == seq![inline_flag(self.kind(), windows), self.script()],
    {
        match self {
            ScriptExecutor::Shell(e) => e.invocation(windows),
            ScriptExecutor::Python(e) => e.invocation(),
            ScriptExecutor::JavaScript(e) => e.invocation(),
        }
    }

    /// The entry to log and the error to return when the interpreter could
    /// not be spawned.
    pub fn spawn_failed(&self, error: &str) -> (out: (LogEntry, String))
        ensures
            out.0.content() == (LogContent {
                button_id: Some(self.button_id()),
                monitor_id: None,
                level: Severity::Error.label(),
                message: spawn_failed_message(error@),
            }),
            out.1@ == spawn_failed_message(error@),
    {
        match self {
            ScriptExecutor::Shell(e) => e.spawn_failed(error),
            ScriptExecutor::Python(e) => e.spawn_failed(error),
            ScriptExecutor::JavaScript(e) => e.spawn_failed(error),
        }
    }

    /// The button that the executor runs for.
    pub fn button(&self) -> (id: &String)
        ensures
            id@ == self.button_id(),
    {
        match self {
            ScriptExecutor::Shell(e) => &e.button_id,
            ScriptExecutor::Python(e) => &e.button_id,
            ScriptExecutor::JavaScript(e) => &e.button_id,
        }
    }

    /// The closing entry and the result, once the wait has ended in `outcome`
    /// after `elapsed_ms` milliseconds.
    pub fn finish(&self, outcome: &WaitOutcome, elapsed_ms: u64) -> (out: (
        LogEntry,
        ExecutionResult,
    ))
        ensures
            out.0.content() == (LogContent {
                button_id: Some(self.button_id()),
                monitor_id: None,
                level: outcome_severity(outcome@).label(),
                message: outcome_message(outcome@, elapsed_ms as nat),
            }),
            out.1@ == outcome_result(outcome@, elapsed_ms),
    {
        match self {
            ScriptExecutor::Shell(e) => e.finish(outcome, elapsed_ms),
            ScriptExecutor::Python(e) => e.finish(outcome, elapsed_ms),
            ScriptExecutor::JavaScript(e) => e.finish(outcome, elapsed_ms),
        }
    }

    /// The family of the executor.
    pub open spec fn kind(&self) -> ScriptKind {
        match self {
            ScriptExecutor::Shell(_) => ScriptKind::Shell,
            ScriptExecutor::Python(_) => ScriptKind::Python,
            ScriptExecutor::JavaScript(_) => ScriptKind::JavaScript,
        }
    }

    /// The button that the executor runs for.
    pub open spec fn button_id(&self) -> Seq<char> {
        match self {
            ScriptExecutor::Shell(e) => e.button_id@,
            ScriptExecutor::Python(e) => e.button_id@,
            ScriptExecutor::JavaScript(e) => e.button_id@,
        }
    }

    /// The name of that button.
    pub open spec fn button_name(&self) -> Seq<char> {
        match self {
            ScriptExecutor::Shell(e) => e.button_name@,
            ScriptExecutor::Python(e) => e.button_name@,
            ScriptExecutor::JavaScript(e) => e.button_name@,
        }
    }

    /// The script text.
    pub open spec fn script(&self) -> Seq<char> {
        match self {
            ScriptExecutor::Shell(e) => e.script@,
            ScriptExecutor::Python(e) => e.script@,
            ScriptExecutor::JavaScript(e) => e.script@,
        }
    }

    /// The identifier of the execution.
    pub open spec fn execution_id_text(&self) -> Seq<char> {
        match self {
            ScriptExecutor::Shell(e) => e.execution_id@,
            ScriptExecutor::Python(e) => e.execution_id@,
            ScriptExecutor::JavaScript(e) => e.execution_id@,
        }
    }

    /// The identifier of the execution.
    pub fn execution_id(&self) -> (id: &String)
        ensures
            id@ == self.execution_id_text(),
    {
        match self {
            ScriptExecutor::Shell(e) => &e.execution_id,
            ScriptExecutor::Python(e) => &e.execution_id,
            ScriptExecutor::JavaScript(e) => &e.execution_id,
        }
    }

    /// The executor that runs `button`'s script, under a fresh execution
    /// identifier; an error for a script type that names no family.
    pub fn for_button(button: &Button) -> (out: Result<ScriptExecutor, String>)
        ensures
            match script_kind_of(button.script_type@) {
                Some(kind) => out matches Ok(executor) && executor.kind() == kind
                    && executor.button_id() == button.id@ && executor.button_name()
                    == button.name@ && executor.script() == button.script_content@,
                None => out matches Err(message) && message@ == unknown_script_type_message(
                    button.script_type@,
                ),
            },
    {
        match ScriptKind::from_type(button.script_type.as_str()) {
            Some(ScriptKind::Shell) => Ok(
                ScriptExecutor::Shell(
                    ShellExecutor::new(
                        fresh_id(),
                        button.id.clone(),
                        button.name.clone(),
                        button.script_content.clone(),
                    ),
                ),
            ),
            Some(ScriptKind::Python) => Ok(
                ScriptExecutor::Python(
                    PythonExecutor::new(
                        fresh_id(),
                        button.id.clone(),
                        button.name.clone(),
                        button.script_content.clone(),
                    ),
                ),
            ),
            Some(ScriptKind::JavaScript) => Ok(
                ScriptExecutor::JavaScript(
                    JsExecutor::new(
                        fresh_id(),
                        button.id.clone(),
                        button.name.clone(),
                        button.script_content.clone(),
                    ),
                ),
            ),
            None => {
                let mut message = String::from_str("Unknown script type: ");
                message.append(button.script_type.as_str());
                Err(message)
            },
        }
    }
}

} // verus!
