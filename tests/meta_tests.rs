use git_hooks::meta::Meta;

#[test]
fn blank() {
    let expected = Meta {
        branch_type: String::new(),
        ticket: String::new(),
        description: String::new(),
    };

    assert_eq!(expected, Meta::new(String::new()))
}

#[test]
fn just_the_type() {
    let expected = Meta {
        branch_type: String::from("master"),
        ticket: String::new(),
        description: String::new(),
    };

    assert_eq!(expected, Meta::new("master".to_string()))
}

#[test]
fn just_the_ticket() {
    let expected = Meta {
        branch_type: String::new(),
        ticket: String::from("FOO-911"),
        description: String::new(),
    };

    assert_eq!(expected, Meta::new("FOO-911".to_string()))
}

#[test]
fn just_the_description() {
    let expected = Meta {
        branch_type: String::new(),
        ticket: String::new(),
        description: String::from("some-description"),
    };

    assert_eq!(expected, Meta::new("some-description".to_string()))
}

#[test]
fn no_jira_ticket() {
    let expected = Meta {
        branch_type: String::from("feature"),
        ticket: String::new(),
        description: String::from("some-description"),
    };

    assert_eq!(expected, Meta::new("feature/some-description".to_string()))
}

#[test]
fn it_finds_jira_tickets() {
    let expected = Meta {
        branch_type: String::from("feature"),
        ticket: String::from("JIRA-302"),
        description: String::from("some-description"),
    };

    for branch in [
        "feature/JIRA-302-some-description",
        "feature/JIRA-302_some-description",
        "feature/JIRA-302!some-description",
        "feature/JIRA-302~some-description",
    ] {
        let meta = Meta::new(branch.to_string());
        assert_eq!(expected, meta)
    }
}
