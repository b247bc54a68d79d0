//! Hook outcomes as the shared helper code names them.
use vstd::prelude::*;

verus! {

/// How a hook run ends: each outcome has an exit status and a message.
#[derive(Clone, Copy, PartialEq, Eq, Debug)]
pub enum ExitCodes {
    OK,
    Disabled,
    FailedToOpenRepository,
    RepositoryIsBare,
    NoWorkingDirectory,
    InvalidBranch,
    EmptyBranch,
    UnknownBranch,
    BadBranchName,
    ProtectedBranch,
    FailedToWriteCommitMsg,
}

impl ExitCodes {
    /// The process exit status of this outcome.
    pub open spec fn value_spec(&self) -> i32 {
        match self {
            ExitCodes::OK => 0,
            ExitCodes::Disabled => 0,
            ExitCodes::FailedToOpenRepository => 1,
            ExitCodes::RepositoryIsBare => 2,
            ExitCodes::NoWorkingDirectory => 3,
            ExitCodes::InvalidBranch => 4,
            ExitCodes::EmptyBranch => 5,
            ExitCodes::UnknownBranch => 6,
            ExitCodes::BadBranchName => 7,
            ExitCodes::ProtectedBranch => 8,
            ExitCodes::FailedToWriteCommitMsg => 9,
        }
    }

    /// The human-readable text of this outcome.
    pub open spec fn message_spec(&self) -> Seq<char> {
        match self {
            ExitCodes::OK => "Success!"@,
            ExitCodes::Disabled => "Disabled! Skipping git hook"@,
            ExitCodes::FailedToOpenRepository => "Not a git directory"@,
            ExitCodes::RepositoryIsBare => "Repository is empty"@,
            ExitCodes::NoWorkingDirectory => "Repository has no working directory"@,
            ExitCodes::InvalidBranch => "Invalid branch"@,
            ExitCodes::EmptyBranch => "Branch has no commits"@,
            ExitCodes::UnknownBranch => "HEAD is not a branch"@,
            ExitCodes::BadBranchName => "Branch name is invalid UTF-8"@,
            ExitCodes::ProtectedBranch => "HEAD refers to a protected branch"@,
            ExitCodes::FailedToWriteCommitMsg => "Failed to write commit message to file"@,
        }
    }

    /// The process exit status of this outcome.
    pub fn value(&self) -> (r: i32)
        ensures
            r == self.value_spec(),
    {
        match self {
            ExitCodes::OK => 0,
            ExitCodes::Disabled => 0,
            ExitCodes::FailedToOpenRepository => 1,
            ExitCodes::RepositoryIsBare => 2,
            ExitCodes::NoWorkingDirectory => 3,
            ExitCodes::InvalidBranch => 4,
            ExitCodes::EmptyBranch => 5,
            ExitCodes::UnknownBranch => 6,
            ExitCodes::BadBranchName => 7,
            ExitCodes::ProtectedBranch => 8,
            ExitCodes::FailedToWriteCommitMsg => 9,
        }
    }

    /// The human-readable text of this outcome.
    pub fn message(&self) -> (r: &'static str)
        ensures
            r@ == self.message_spec(),
    {
        match self {
            ExitCodes::OK => "Success!",
            ExitCodes::Disabled => "Disabled! Skipping git hook",
            ExitCodes::FailedToOpenRepository => "Not a git directory",
            ExitCodes::RepositoryIsBare => "Repository is empty",
            ExitCodes::NoWorkingDirectory => "Repository has no working directory",
            ExitCodes::InvalidBranch => "Invalid branch",
            ExitCodes::EmptyBranch => "Branch has no commits",
            ExitCodes::UnknownBranch => "HEAD is not a branch",
            ExitCodes::BadBranchName => "Branch name is invalid UTF-8",
            ExitCodes::ProtectedBranch => "HEAD refers to a protected branch",
            ExitCodes::FailedToWriteCommitMsg => "Failed to write commit message to file",
        }
    }
}

} // verus!
