//! Running a script with Node.js.

use vstd::prelude::*;
use crate::database::models::{LogContent, LogEntry, Severity};
use crate::executor::{
    ExecutionResult, Invocation, OutputStream, WaitOutcome, conclude, outcome_message,
    outcome_result, outcome_severity, output_line, spawn_failed_message, spawn_failure,
};

verus! {

/// One execution of a JavaScript script on behalf of a button.
pub struct JsExecutor {
    pub execution_id: String,
    pub button_id: String,
    pub button_name: String,
    pub script: String,
}

/// The line that announces the run.
pub open spec fn js_start_message(button_name: Seq<char>) -> Seq<char> {
    "⚡ 开始执行 JavaScript: "@ + button_name
}

/// The line that reports a missing interpreter.
pub open spec fn js_missing_message() -> Seq<char> {
    "❌ Node.js 未安装或不在 PATH 中"@
}

impl JsExecutor {
    pub fn new(execution_id: String, button_id: String, button_name: String, script: String) -> (e:
        Self)
        ensures
            e.execution_id@ == execution_id@,
            e.button_id@ == button_id@,
            e.button_name@ == button_name@,
            e.script@ == script@,
    {
        Self { execution_id, button_id, button_name, script }
    }

    /// The entry to log before anything is spawned.
    pub fn start_log(&self) -> (entry: LogEntry)
        ensures
            entry.content() == (LogContent {
                button_id: Some(self.button_id@),
                monitor_id: None,
                level: Severity::Info.label(),
                message: js_start_message(self.button_name@),
            }),
    {
        let mut message = String::from_str("⚡ 开始执行 JavaScript: ");
        message.append(self.button_name.as_str());
        LogEntry::for_button(self.button_id.as_str(), Severity::Info, message)
    }

    /// The command that tells whether the interpreter can be run at all.
    pub fn probe(&self) -> (out: Invocation)
        ensures
            out.program_text() == "node"@,
            out.arg_texts() == seq!["--version"@],
    {
        Invocation::with_one("node", "--version")
    }

    /// The entry to log and the error to return when the probe could not be
    /// run: the script is then not spawned.
    pub fn runtime_missing(&self) -> (out: (LogEntry, String))
        ensures
            out.0.content() == (LogContent {
                button_id: Some(self.button_id@),
                monitor_id: None,
                level: Severity::Error.label(),
                message: js_missing_message(),
            }),
            out.1@ == js_missing_message(),
    {
        let message = String::from_str("❌ Node.js 未安装或不在 PATH 中");
        let entry = LogEntry::for_button(
            self.button_id.as_str(),
            Severity::Error,
            message.clone(),
        );
        (entry, message)
    }

    /// What to spawn: the interpreter, with the whole script as one inline
    /// argument.
    pub fn invocation(&self) -> (out: Invocation)
        ensures
            out.program_text() == "node"@,
            out.arg_texts() == seq!["-e"@, self.script@],
    {
        Invocation::with_flag("node", "-e", self.script.as_str())
    }

    /// The entry to log and the error to return when the interpreter could
    /// not be spawned.
    pub fn spawn_failed(&self, error: &str) -> (out: (LogEntry, String))
        ensures
            out.0.content() == (LogContent {
                button_id: Some(self.button_id@),
                monitor_id: None,
                level: Severity::Error.label(),
                message: spawn_failed_message(error@),
            }),
            out.1@ == spawn_failed_message(error@),
    {
        spawn_failure(self.button_id.as_str(), error)
    }

    /// The entry to log for one line of the script's output.
    pub fn output_log(&self, stream: OutputStream, line: String) -> (entry: LogEntry)
        ensures
            entry.content() == (LogContent {
                button_id: Some(self.button_id@),
                monitor_id: None,
                level: stream.severity().label(),
                message: line@,
            }),
    {
        output_line(self.button_id.as_str(), stream, line)
    }

    /// The closing entry and the result, once the wait has ended in `outcome`
    /// after `elapsed_ms` milliseconds.
    pub fn finish(&self, outcome: &WaitOutcome, elapsed_ms: u64) -> (out: (
        LogEntry,
        ExecutionResult,
    ))
        ensures
            out.0.content() == (LogContent {
                button_id: Some(self.button_id@),
                monitor_id: None,
                level: outcome_severity(outcome@).label(),
                message: outcome_message(outcome@, elapsed_ms as nat),
            }),
            out.1@ == outcome_result(outcome@, elapsed_ms),
    {
        conclude(self.button_id.as_str(), outcome, elapsed_ms)
    }
}

} // verus!
