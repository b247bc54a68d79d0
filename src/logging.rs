//! Hook outcomes and the log records that report them.
use vstd::prelude::*;

verus! {

/// How a hook run ends: each outcome has an exit status and a message.
#[derive(Clone, Copy, PartialEq, Eq, Debug)]
pub enum ExitCode {
    OK,
    Disabled,
    FailedToOpenRepository,
    RepositoryIsBare,
    NoWorkingDirectory,
    InvalidBranch,
    EmptyBranch,
    UnknownBranch,
    BadBranchName,
    ProtectedBranch,
    FailedToWriteCommitMsg,
}

impl ExitCode {
    /// The process exit status of this outcome.
    pub open spec fn value_spec(&self) -> i32 {
        match self {
            ExitCode::OK => 0,
            ExitCode::Disabled => 0,
            ExitCode::FailedToOpenRepository => 1,
            ExitCode::RepositoryIsBare => 2,
            ExitCode::NoWorkingDirectory => 3,
            ExitCode::InvalidBranch => 4,
            ExitCode::EmptyBranch => 5,
            ExitCode::UnknownBranch => 6,
            ExitCode::BadBranchName => 7,
            ExitCode::ProtectedBranch => 8,
            ExitCode::FailedToWriteCommitMsg => 9,
        }
    }

    /// The human-readable text of this outcome.
    pub open spec fn message_spec(&self) -> Seq<char> {
        match self {
            ExitCode::OK => "Success!"@,
            ExitCode::Disabled => "Disabled! Skipping git hook"@,
            ExitCode::FailedToOpenRepository => "Not a git directory"@,
            ExitCode::RepositoryIsBare => "Repository is empty"@,
            ExitCode::NoWorkingDirectory => "Repository has no working directory"@,
            ExitCode::InvalidBranch => "Invalid branch"@,
            ExitCode::EmptyBranch => "Branch has no commits"@,
            ExitCode::UnknownBranch => "HEAD is not a branch"@,
            ExitCode::BadBranchName => "Branch name is invalid UTF-8"@,
            ExitCode::ProtectedBranch => "HEAD refers to a protected branch"@,
            ExitCode::FailedToWriteCommitMsg => "Failed to write commit message to file"@,
        }
    }

    /// The process exit status of this outcome.
    pub fn value(&self) -> (r: i32)
        ensures
            r == self.value_spec(),
    {
        match self {
            ExitCode::OK => 0,
            ExitCode::Disabled => 0,
            ExitCode::FailedToOpenRepository => 1,
            ExitCode::RepositoryIsBare => 2,
            ExitCode::NoWorkingDirectory => 3,
            ExitCode::InvalidBranch => 4,
            ExitCode::EmptyBranch => 5,
            ExitCode::UnknownBranch => 6,
            ExitCode::BadBranchName => 7,
            ExitCode::ProtectedBranch => 8,
            ExitCode::FailedToWriteCommitMsg => 9,
        }
    }

    /// The human-readable text of this outcome.
    pub fn message(&self) -> (r: &'static str)
        ensures
            r@ == self.message_spec(),
    {
        match self {
            ExitCode::OK => "Success!",
            ExitCode::Disabled => "Disabled! Skipping git hook",
            ExitCode::FailedToOpenRepository => "Not a git directory",
            ExitCode::RepositoryIsBare => "Repository is empty",
            ExitCode::NoWorkingDirectory => "Repository has no working directory",
            ExitCode::InvalidBranch => "Invalid branch",
            ExitCode::EmptyBranch => "Branch has no commits",
            ExitCode::UnknownBranch => "HEAD is not a branch",
            ExitCode::BadBranchName => "Branch name is invalid UTF-8",
            ExitCode::ProtectedBranch => "HEAD refers to a protected branch",
            ExitCode::FailedToWriteCommitMsg => "Failed to write commit message to file",
        }
    }
}

/// Severity of a log record, from the most to the least severe.
#[derive(Clone, Copy, PartialEq, Eq, Debug)]
pub enum Level {
    Error,
    Warn,
    Info,
    Debug,
    Trace,
}

/// One line to log, at a severity.
#[derive(Debug, PartialEq, Eq)]
pub struct LogRecord {
    pub level: Level,
    pub text: String,
}

/// The record that reports `code` at `Error` level.
pub fn error(code: ExitCode) -> (r: LogRecord)
    ensures
        r.level == Level::Error,
        r.text@ == code.message_spec(),
{
    LogRecord { level: Level::Error, text: String::from_str(code.message()) }
}

/// The record that reports `code` at `Warn` level.
pub fn warn(code: ExitCode) -> (r: LogRecord)
    ensures
        r.level == Level::Warn,
        r.text@ == code.message_spec(),
{
    LogRecord { level: Level::Warn, text: String::from_str(code.message()) }
}

/// The record that reports `code` at `Info` level.
pub fn info(code: ExitCode) -> (r: LogRecord)
    ensures
        r.level == Level::Info,
        r.text@ == code.message_spec(),
{
    LogRecord { level: Level::Info, text: String::from_str(code.message()) }
}

/// The record that reports `code` at `Debug` level.
pub fn debug(code: ExitCode) -> (r: LogRecord)
    ensures
        r.level == Level::Debug,
        r.text@ == code.message_spec(),
{
    LogRecord { level: Level::Debug, text: String::from_str(code.message()) }
}

/// The record that reports `code` at `Trace` level.
pub fn trace(code: ExitCode) -> (r: LogRecord)
    ensures
        r.level == Level::Trace,
        r.text@ == code.message_spec(),
{
    LogRecord { level: Level::Trace, text: String::from_str(code.message()) }
}

/// The record that carries `message` at `Error` level.
pub fn error_m(message: &str) -> (r: LogRecord)
    ensures
        r.level == Level::Error,
        r.text@ == message@,
{
    LogRecord { level: Level::Error, text: String::from_str(message) }
}

/// The record that carries `message` at `Warn` level.
pub fn warn_m(message: &str) -> (r: LogRecord)
    ensures
        r.level == Level::Warn,
        r.text@ == message@,
{
    LogRecord { level: Level::Warn, text: String::from_str(message) }
}

/// The record that carries `message` at `Info` level.
pub fn info_m(message: &str) -> (r: LogRecord)
    ensures
        r.level == Level::Info,
        r.text@ == message@,
{
    LogRecord { level: Level::Info, text: String::from_str(message) }
}

/// The record that carries `message` at `Debug` level.
pub fn debug_m(message: &str) -> (r: LogRecord)
    ensures
        r.level == Level::Debug,
        r.text@ == message@,
{
    LogRecord { level: Level::Debug, text: String::from_str(message) }
}

/// The record that carries `message` at `Trace` level.
pub fn trace_m(message: &str) -> (r: LogRecord)
    ensures
        r.level == Level::Trace,
        r.text@ == message@,
{
    LogRecord { level: Level::Trace, text: String::from_str(message) }
}

} // verus!
