use git_branches::branch::{
    branches_from_records, name_is_available, position_of_name, BranchRecord, GitBranch,
    GitRemoteBranch,
};
use git_branches::repo::{name_from_lookup, validate_name_among};

fn record(name: Option<&str>, is_head: bool, upstream: Option<&str>) -> BranchRecord {
    BranchRecord {
        name: name.map(String::from),
        is_head,
        upstream: upstream.map(String::from),
    }
}

#[test]
fn remote_branch_new_keeps_name() {
    let r = GitRemoteBranch::new(String::from("origin/main"));
    assert_eq!(r.name, "origin/main");
}

#[test]
fn branch_new_is_not_head_and_has_no_upstream() {
    let b = GitBranch::new(String::from("topic"));
    assert_eq!(b.name, "topic");
    assert!(!b.is_head);
    assert_eq!(b.upstream, None);
}

#[test]
fn records_keep_readable_entries_in_order() {
    let recs = vec![
        record(Some("main"), true, None),
        record(None, false, None),
        record(Some("topic"), false, Some("origin/topic")),
        record(None, true, Some("origin/x")),
    ];
    let out = branches_from_records(&recs);
    assert_eq!(
        out,
        vec![
            GitBranch { name: String::from("main"), is_head: true, upstream: None },
            GitBranch {
                name: String::from("topic"),
                is_head: false,
                upstream: Some(GitRemoteBranch::new(String::from("origin/topic"))),
            },
        ]
    );
}

#[test]
fn records_all_unreadable_give_empty_listing() {
    assert!(branches_from_records(&vec![]).is_empty());
    assert!(branches_from_records(&vec![record(None, true, None)]).is_empty());
}

#[test]
fn available_name_needs_validity_and_no_clash() {
    let bs = vec![GitBranch::new(String::from("main")), GitBranch::new(String::from("dev"))];
    assert!(!name_is_available(&bs, &String::from("dev"), true));
    assert!(!name_is_available(&bs, &String::from("Dev2"), false));
    assert!(name_is_available(&bs, &String::from("Dev"), true));
    assert!(name_is_available(&vec![], &String::from("x"), true));
}

#[test]
fn position_finds_first_match() {
    let names = vec![None, Some(String::from("a")), Some(String::from("b")), Some(String::from("a"))];
    assert_eq!(position_of_name(&names, &String::from("a")), Some(1));
    assert_eq!(position_of_name(&names, &String::from("b")), Some(2));
    assert_eq!(position_of_name(&names, &String::from("c")), None);
    assert_eq!(position_of_name(&vec![], &String::from("a")), None);
}

#[test]
fn validate_among_refuses_taken_and_malformed_names() {
    let bs = vec![GitBranch::new(String::from("main")), GitBranch::new(String::from("feature-x"))];
    assert!(!validate_name_among(&bs, &String::from("feature-x")));
    assert!(!validate_name_among(&bs, &String::from("")));
    assert!(!validate_name_among(&bs, &String::from("-lead")));
    assert!(!validate_name_among(&bs, &String::from("has space")));
    assert!(!validate_name_among(&bs, &String::from("HEAD")));
    assert!(validate_name_among(&bs, &String::from("feature-y")));
    assert!(validate_name_among(&bs, &String::from("team/feature")));
}

#[test]
fn validate_among_compares_names_case_sensitively() {
    let bs = vec![GitBranch::new(String::from("main"))];
    assert!(validate_name_among(&bs, &String::from("Main")));
    assert!(!validate_name_among(&bs, &String::from("main")));
}

#[test]
fn validate_among_refuses_name_with_nul() {
    assert!(!validate_name_among(&vec![], &String::from("a\0b")));
}

#[test]
fn name_lookup_keeps_only_readable_names() {
    assert_eq!(name_from_lookup(Ok(Some(String::from("topic")))), Some(String::from("topic")));
    assert_eq!(name_from_lookup(Ok(None)), None);
    assert_eq!(name_from_lookup(Err(git2::Error::from_str("unreadable"))), None);
}
