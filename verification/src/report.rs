//! What the core reports of a run, for whoever keeps the logs: a level, the
//! states entered, and a message. Where the messages go and how they are
//! laid out is not decided here; each project's reports go under the key
//! that `logger_key` gives it.

use crate::text::chars_of;
use vstd::prelude::*;
use vstd::string::*;

verus! {

/// How much a message matters, from silence to the finest detail.
#[derive(Clone, Copy, Debug, PartialEq, Eq, Structural)]
pub enum LogLevel {
    Off,
    Error,
    Warn,
    Info,
    Debug,
    Trace,
}

/// One message for the log.
#[derive(Debug, PartialEq, Eq)]
pub struct Report {
    pub level: LogLevel,
    pub message: String,
}

/// The model of a `Report`.
pub struct ReportView {
    pub level: LogLevel,
    pub message: Seq<char>,
}

impl View for Report {
    type V = ReportView;

    open spec fn view(&self) -> ReportView {
        ReportView { level: self.level, message: self.message@ }
    }
}

/// The level that a setting of one digit selects: `0` for `Off`, `1` for
/// `Error`, `2` for `Warn`, `4` for `Debug`, `5` for `Trace`. Every other
/// setting selects `Info`.
pub open spec fn level_of_setting(setting: Seq<char>) -> LogLevel {
    if setting.len() != 1 {
        LogLevel::Info
    } else if setting[0] == '0' {
        LogLevel::Off
    } else if setting[0] == '1' {
        LogLevel::Error
    } else if setting[0] == '2' {
        LogLevel::Warn
    } else if setting[0] == '4' {
        LogLevel::Debug
    } else if setting[0] == '5' {
        LogLevel::Trace
    } else {
        LogLevel::Info
    }
}

/// Reads the log level out of its setting.
pub fn level_from_setting(setting: &str) -> (level: LogLevel)
    ensures
        level == level_of_setting(setting@),
{
    let cs = chars_of(setting);
    if cs.len() != 1 {
        LogLevel::Info
    } else if cs[0] == '0' {
        LogLevel::Off
    } else if cs[0] == '1' {
        LogLevel::Error
    } else if cs[0] == '2' {
        LogLevel::Warn
    } else if cs[0] == '4' {
        LogLevel::Debug
    } else if cs[0] == '5' {
        LogLevel::Trace
    } else {
        LogLevel::Info
    }
}

/// The key under which the reports of `project` are kept.
pub open spec fn logger_key_of(project: Seq<char>) -> Seq<char> {
    "ci-cd_worker::"@ + project
}

/// The key under which the reports of `project` are kept.
pub fn logger_key(project: &str) -> (key: String)
    ensures
        key@ == logger_key_of(project@),
{
    let mut key = String::from_str("ci-cd_worker::");
    key.append(project);
    key
}

} // verus!
