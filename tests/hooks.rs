use git_hooks::hooks::{
    is_protected, prepend_text, resolve_branch_name, split_list, HeadState, SEPARATOR_DEFAULT,
};
use git_hooks::logging::{
    debug, debug_m, error, error_m, info, info_m, trace, trace_m, warn, warn_m, ExitCode, Level,
};
use git_hooks::util::ExitCodes;

#[test]
fn default_set_does_not_hold_main() {
    assert!(!is_protected("main", None));
    assert!(is_protected("master", None));
    assert!(is_protected("develop", None));
    assert!(!is_protected("Master", None));
}

#[test]
fn configured_set_replaces_default() {
    assert!(is_protected("release", Some(vec!["release".to_string()])));
    assert!(!is_protected("master", Some(vec!["release".to_string()])));
    assert!(is_protected("master", Some(Vec::new())));
}

#[test]
fn list_settings_keep_empty_values() {
    assert_eq!(split_list("master,,develop"), vec!["master", "", "develop"]);
    assert_eq!(split_list(""), vec![""]);
    assert_eq!(split_list("a,"), vec!["a", ""]);
    assert_eq!(split_list("release"), vec!["release"]);
}

#[test]
fn head_states_map_to_outcomes() {
    assert_eq!(resolve_branch_name(HeadState::Unborn), Err(ExitCode::EmptyBranch));
    assert_eq!(resolve_branch_name(HeadState::Unreadable), Err(ExitCode::InvalidBranch));
    assert_eq!(resolve_branch_name(HeadState::Branch(None)), Err(ExitCode::BadBranchName));
    assert_eq!(resolve_branch_name(HeadState::NotBranch), Err(ExitCode::UnknownBranch));
    assert_eq!(
        resolve_branch_name(HeadState::Branch(Some("feature/x".to_string()))),
        Ok("feature/x".to_string())
    );
}

#[test]
fn prepended_message() {
    assert_eq!(prepend_text("JIRA-1 | x", "body\n"), "JIRA-1 | x\nbody\n");
    assert_eq!(prepend_text("", ""), "\n");
    assert_eq!(SEPARATOR_DEFAULT, "|");
}

#[test]
fn exit_code_values_and_messages() {
    assert_eq!(ExitCode::OK.value(), 0);
    assert_eq!(ExitCode::Disabled.value(), 0);
    assert_eq!(ExitCode::FailedToOpenRepository.value(), 1);
    assert_eq!(ExitCode::ProtectedBranch.value(), 8);
    assert_eq!(ExitCode::FailedToWriteCommitMsg.value(), 9);
    assert_eq!(ExitCode::OK.message(), "Success!");
    assert_eq!(ExitCode::ProtectedBranch.message(), "HEAD refers to a protected branch");
    assert_eq!(ExitCodes::BadBranchName.value(), 7);
    assert_eq!(ExitCodes::RepositoryIsBare.message(), "Repository is empty");
}

#[test]
fn log_records() {
    let r = error(ExitCode::InvalidBranch);
    assert_eq!(r.level, Level::Error);
    assert_eq!(r.text, "Invalid branch");
    assert_eq!(warn(ExitCode::Disabled).level, Level::Warn);
    assert_eq!(info(ExitCode::OK).level, Level::Info);
    assert_eq!(debug(ExitCode::OK).text, "Success!");
    assert_eq!(trace(ExitCode::OK).level, Level::Trace);
    assert_eq!(error_m("boom").text, "boom");
    assert_eq!(warn_m("w").level, Level::Warn);
    assert_eq!(info_m("i").level, Level::Info);
    assert_eq!(debug_m("d").level, Level::Debug);
    assert_eq!(trace_m("t").text, "t");
}
