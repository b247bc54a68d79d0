use git_hooks::meta::Meta;
use git_hooks::text::{find_char, find_str, same_text, trim_class, CharClass};
use git_hooks::ticket::find_ticket;

fn meta(branch_type: &str, ticket: &str, description: &str) -> Meta {
    Meta {
        branch_type: branch_type.to_string(),
        ticket: ticket.to_string(),
        description: description.to_string(),
    }
}

#[test]
fn empty_branch_renders_nothing() {
    let m = Meta::new(String::new());
    assert_eq!(m, meta("", "", ""));
    assert_eq!(m.to_msg(String::from("|")), "");
}

#[test]
fn keyword_branch_renders_nothing() {
    let m = Meta::new("master".to_string());
    assert_eq!(m, meta("master", "", ""));
    assert_eq!(m.to_msg(String::from("|")), "");
}

#[test]
fn ticket_branch_renders_with_trailing_separator() {
    let m = Meta::new("FOO-911".to_string());
    assert_eq!(m.to_msg(String::from("|")), "FOO-911 | ");
}

#[test]
fn description_branch_renders_with_trailing_separator() {
    let m = Meta::new("some-description".to_string());
    assert_eq!(m.to_msg(String::from("|")), "some-description | ");
    let n = Meta::new("feature/some-description".to_string());
    assert_eq!(n.to_msg(String::from("|")), "some-description | ");
}

#[test]
fn every_separator_punctuation_gives_the_same_result() {
    let expected = meta("feature", "JIRA-302", "x");
    for branch in ["feature/JIRA-302-x", "feature/JIRA-302_x", "feature/JIRA-302!x", "feature/JIRA-302~x"] {
        let m = Meta::new(branch.to_string());
        assert_eq!(m, expected);
        assert_eq!(m.to_msg(String::from("|")), "JIRA-302 | x");
    }
}

#[test]
fn rendering_twice_gives_the_same_text() {
    let m = meta("feature", "JIRA-302", "some-description");
    let a = m.to_msg(String::from("|"));
    let b = m.to_msg(String::from("|"));
    assert_eq!(a, b);
}

#[test]
fn surrounding_whitespace_is_trimmed() {
    assert_eq!(Meta::new("  feature/ABC-12 fix \n".to_string()), meta("feature", "ABC-12", "fix"));
    assert_eq!(Meta::new("\u{3000}hotfix\t".to_string()), meta("hotfix", "", ""));
}

#[test]
fn each_keyword_is_a_type_on_its_own() {
    for k in ["master", "main", "develop", "feature", "release", "hotfix"] {
        assert_eq!(Meta::new(k.to_string()), meta(k, "", ""));
    }
    assert_eq!(Meta::new("bugfix".to_string()), meta("", "", "bugfix"));
}

#[test]
fn any_prefix_before_a_slash_is_a_type() {
    assert_eq!(Meta::new("bugfix/x".to_string()), meta("bugfix", "", "x"));
    assert_eq!(Meta::new("feature/a/b".to_string()), meta("feature", "", "a"));
    assert_eq!(Meta::new("feature/".to_string()), meta("feature", "", ""));
}

#[test]
fn ticket_with_two_letter_groups() {
    assert_eq!(Meta::new("AB-CD-123".to_string()), meta("", "AB-CD-123", ""));
    assert_eq!(Meta::new("feature/JIRA-302".to_string()), meta("feature", "JIRA-302", ""));
}

#[test]
fn description_is_all_text_after_the_ticket() {
    assert_eq!(
        Meta::new("feature/JIRA-302-fix-JIRA-302".to_string()),
        meta("feature", "JIRA-302", "fix-JIRA-302")
    );
    assert_eq!(Meta::new("feature/JIRA-302 - fix!".to_string()), meta("feature", "JIRA-302", " fix"));
}

#[test]
fn from_ticket_uses_the_given_ticket() {
    assert_eq!(
        Meta::from_ticket("feature/X-1--fix--", "X-1"),
        meta("feature", "X-1", "fix")
    );
    assert_eq!(Meta::from_ticket("feature/fix", ""), meta("feature", "", "fix"));
    assert_eq!(Meta::from_ticket("X-1", "X-1"), meta("", "X-1", ""));
}

#[test]
fn find_ticket_takes_the_first_match() {
    assert_eq!(find_ticket("feature/ABC-1-and-DEF-2"), "ABC-1");
    assert_eq!(find_ticket("feature/no-ticket"), "");
    assert_eq!(find_ticket("lower-123"), "");
}

#[test]
fn custom_separator() {
    let m = meta("feature", "JIRA-1", "x");
    assert_eq!(m.to_msg(String::from("::")), "JIRA-1 :: x");
}

#[test]
fn text_helpers() {
    assert_eq!(trim_class(" \t a b \u{a0}", CharClass::Whitespace), "a b");
    assert_eq!(trim_class("!-a.b?", CharClass::AsciiPunctuation), "a.b");
    assert_eq!(trim_class("«a»", CharClass::AsciiPunctuation), "«a»");
    assert_eq!(find_char("ab/c/d", '/'), Some(2));
    assert_eq!(find_char("abc", '/'), None);
    assert_eq!(find_str("xxabab", "ab"), Some(2));
    assert_eq!(find_str("xx", "ab"), None);
    assert!(same_text("a", "a"));
    assert!(!same_text("a", "ab"));
}
