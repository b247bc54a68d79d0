use git_hooks::meta::Meta;

#[test]
fn main_blank() {
    let meta = Meta {
        branch_type: String::new(),
        ticket: String::new(),
        description: String::new(),
    };

    let expected = String::new();
    assert_eq!(expected, meta.to_msg(String::from("|")))
}

#[test]
fn main_just_the_type() {
    let meta = Meta {
        branch_type: String::from("master"),
        ticket: String::new(),
        description: String::new(),
    };

    let expected = String::new();
    assert_eq!(expected, meta.to_msg(String::from("|")))
}

#[test]
fn main_just_the_ticket() {
    let meta = Meta {
        branch_type: String::new(),
        ticket: String::from("FOO-911"),
        description: String::new(),
    };

    let expected = String::from("FOO-911 | ");
    assert_eq!(expected, meta.to_msg(String::from("|")))
}

#[test]
fn main_just_the_description() {
    let meta = Meta {
        branch_type: String::new(),
        ticket: String::new(),
        description: String::from("some-description"),
    };

    let expected = String::from("some-description | ");
    assert_eq!(expected, meta.to_msg(String::from("|")))
}

#[test]
fn main_no_jira_ticket() {
    let meta = Meta {
        branch_type: String::from("feature"),
        ticket: String::new(),
        description: String::from("some-description"),
    };

    let expected = String::from("some-description | ");
    assert_eq!(expected, meta.to_msg(String::from("|")))
}

#[test]
fn main_it_finds_jira_tickets() {
    let meta = Meta {
        branch_type: String::from("feature"),
        ticket: String::from("JIRA-302"),
        description: String::from("some-description"),
    };

    let expected = String::from("JIRA-302 | some-description");
    assert_eq!(expected, meta.to_msg(String::from("|")))
}

#[test]
fn it_gives_a_commit_msg() {
    let meta = Meta {
        branch_type: String::from("feature"),
        ticket: String::from("JIRA-302"),
        description: String::from("some-description"),
    };

    let expected = String::from("JIRA-302 | some-description");
    assert_eq!(expected, meta.to_msg(String::from("|")))
}
