//! Buttons, monitors and log entries, as the store holds them.

use vstd::prelude::*;
use crate::stamp::{fresh_id, unix_now};

verus! {

/// The text of an optional field, if it is there.
pub open spec fn opt_text(field: Option<String>) -> Option<Seq<char>> {
    match field {
        Some(s) => Some(s@),
        None => None,
    }
}

/// A copy of an optional text.
pub fn clone_opt_text(field: &Option<String>) -> (out: Option<String>)
    ensures
        opt_text(out) == opt_text(*field),
{
    match field {
        Some(s) => Some(s.clone()),
        None => None,
    }
}

/// A script that the user can run.
#[derive(Debug, Clone, PartialEq, Eq)]
pub struct Button {
    pub id: String,
    pub name: String,
    pub icon: Option<String>,
    pub script_type: String,
    pub script_content: String,
    pub folder_id: Option<String>,
    pub position: i32,
    pub created_at: i64,
    pub updated_at: i64,
}

/// A container for buttons and monitors.
#[derive(Debug, Clone, PartialEq, Eq)]
pub struct Folder {
    pub id: String,
    pub name: String,
    pub icon: Option<String>,
    pub position: i32,
    pub created_at: i64,
}

/// A configured periodic health check.
#[derive(Debug, Clone, PartialEq, Eq)]
pub struct Monitor {
    pub id: String,
    pub name: String,
    pub icon: Option<String>,
    pub monitor_type: String,
    pub target: String,
    pub check_interval: i32,
    pub expected_result: Option<String>,
    pub alert_on_failure: bool,
    pub is_active: bool,
    pub last_check_time: Option<i64>,
    pub last_status: Option<String>,
    pub folder_id: Option<String>,
    pub position: i32,
    pub created_at: i64,
}

/// One line of output or one event, as it is stored and published.
#[derive(Debug, Clone, PartialEq, Eq)]
pub struct LogEntry {
    pub id: String,
    pub button_id: Option<String>,
    pub monitor_id: Option<String>,
    pub level: String,
    pub message: String,
    pub timestamp: i64,
}

/// An item of any kind.
#[derive(Debug, Clone, PartialEq, Eq)]
pub enum UnifiedItem {
    Monitor(Monitor),
    Folder(Folder),
    Button(Button),
}

impl UnifiedItem {
    /// The position of the item in its container.
    pub open spec fn spec_position(&self) -> i32 {
        match self {
            UnifiedItem::Monitor(m) => m.position,
            UnifiedItem::Folder(f) => f.position,
            UnifiedItem::Button(b) => b.position,
        }
    }

    /// The position of the item in its container.
    pub fn position(&self) -> (position: i32)
        ensures
            position == self.spec_position(),
    {
        match self {
            UnifiedItem::Monitor(m) => m.position,
            UnifiedItem::Folder(f) => f.position,
            UnifiedItem::Button(b) => b.position,
        }
    }
}

/// What a log entry says, apart from its identifier and its time.
pub struct LogContent {
    pub button_id: Option<Seq<char>>,
    pub monitor_id: Option<Seq<char>>,
    pub level: Seq<char>,
    pub message: Seq<char>,
}

/// The severity of a log entry as the store spells it.
#[derive(Debug, Clone, Copy, PartialEq, Eq, Structural)]
pub enum Severity {
    Info,
    Error,
}

impl Severity {
    /// `"info"` or `"error"`.
    pub open spec fn label(self) -> Seq<char> {
        match self {
            Severity::Info => "info"@,
            Severity::Error => "error"@,
        }
    }

    /// The spelling of the severity.
    pub fn as_text(self) -> (out: String)
        ensures
            out@ == self.label(),
    {
        match self {
            Severity::Info => String::from_str("info"),
            Severity::Error => String::from_str("error"),
        }
    }
}

impl LogEntry {
    /// The entry without its identifier and its time.
    pub open spec fn content(&self) -> LogContent {
        LogContent {
            button_id: opt_text(self.button_id),
            monitor_id: opt_text(self.monitor_id),
            level: self.level@,
            message: self.message@,
        }
    }

    /// An entry about the button `button_id`, with a fresh identifier and the
    /// current time.
    pub fn for_button(button_id: &str, severity: Severity, message: String) -> (entry: LogEntry)
        ensures
            entry.content() == (LogContent {
                button_id: Some(button_id@),
                monitor_id: None,
                level: severity.label(),
                message: message@,
            }),
    {
        LogEntry {
            id: fresh_id(),
            button_id: Some(String::from_str(button_id)),
            monitor_id: None,
            level: severity.as_text(),
            message,
            timestamp: unix_now(),
        }
    }

    /// An entry about the monitor `monitor_id`, with a fresh identifier and
    /// the current time.
    pub fn for_monitor(monitor_id: &str, severity: Severity, message: String) -> (entry: LogEntry)
        ensures
            entry.content() == (LogContent {
                button_id: None,
                monitor_id: Some(monitor_id@),
                level: severity.label(),
                message: message@,
            }),
    {
        LogEntry {
            id: fresh_id(),
            button_id: None,
            monitor_id: Some(String::from_str(monitor_id)),
            level: severity.as_text(),
            message,
            timestamp: unix_now(),
        }
    }
}

} // verus!
