use isstran::args::Args;
use isstran::driver::{Action, Event, Phase, Reconciler};
use isstran::types::{Issue, References, SimpleProject, User};

fn args(yes: bool) -> Args {
    Args {
        source: "https://src.example".to_string(),
        source_token: "srctok".to_string(),
        dest: "https://dst.example".to_string(),
        dest_token: "dsttok".to_string(),
        assignee: "alice".to_string(),
        dest_user: None,
        yes,
    }
}

fn user(id: i64, username: &str, name: &str) -> User {
    User {
        id,
        name: name.to_string(),
        username: username.to_string(),
        state: "active".to_string(),
        avatar_url: String::new(),
        web_url: String::new(),
    }
}

fn project(id: i64) -> SimpleProject {
    SimpleProject {
        id,
        description: None,
        default_branch: None,
        ssh_url_to_repo: None,
        http_url_to_repo: None,
        web_url: None,
        readme_url: None,
        tag_list: None,
        topics: None,
        name: None,
        name_with_namespace: None,
        path: None,
        path_with_namespace: None,
        created_at: None,
        last_activity_at: None,
        forks_count: 0,
        avatar_url: None,
        star_count: 0,
    }
}

fn issue(id: i64, iid: i64, title: &str, short: Option<&str>, assignee: Option<User>) -> Issue {
    Issue {
        id,
        iid,
        title: title.to_string(),
        description: None,
        state: "opened".to_string(),
        created_at: "2024-01-01T00:00:00Z".to_string(),
        updated_at: None,
        closed_at: None,
        closed_by: None,
        labels: None,
        milestone: None,
        assignees: None,
        author: None,
        ttype: None,
        assignee,
        user_notes_count: 0,
        merge_requests_count: 0,
        upvotes: 0,
        downvotes: 0,
        due_date: None,
        confidential: false,
        discussion_locked: None,
        issue_type: None,
        web_url: String::new(),
        time_stats: None,
        task_completion_status: None,
        has_tasks: false,
        _links: None,
        references: short.map(|s| References {
            short: Some(s.to_string()),
            relative: None,
            full: None,
        }),
        moved_to_id: None,
        service_desk_reply_to: None,
    }
}

#[test]
fn scenario_one_match_auto_confirm_mutates_once() {
    let mut rec = Reconciler::start(args(true));
    let a = rec.initial_action();
    assert!(matches!(a, Action::FetchUsers { source: true }));

    let a = rec.step(Event::Users(vec![user(42, "alice", "Alice")]));
    assert!(matches!(a, Action::FetchProjects { source: true }));
    assert_eq!(rec.source_user_id, 42);

    let a = rec.step(Event::Projects(vec![project(7)]));
    match a {
        Action::FetchIssues { source, project_id, assignee_id, page } => {
            assert!(source);
            assert_eq!(project_id, 7);
            assert_eq!(assignee_id, Some(42));
            assert_eq!(page, 1);
        },
        _ => panic!("expected a source issue fetch"),
    }

    let a = rec.step(Event::IssuesPage {
        payload_len: 200,
        issues: vec![issue(1, 5, "Bug", Some("proj#5"), Some(user(42, "alice", "Alice")))],
    });
    match a {
        Action::FetchIssues { source, project_id, page, .. } => {
            assert!(source);
            assert_eq!(project_id, 7);
            assert_eq!(page, 2);
        },
        _ => panic!("expected the next source page fetch"),
    }

    let a = rec.step(Event::IssuesPage { payload_len: 2, issues: Vec::new() });
    assert!(matches!(a, Action::FetchProjects { source: false }));

    let a = rec.step(Event::Projects(vec![project(9)]));
    match a {
        Action::FetchIssues { source, project_id, assignee_id, page } => {
            assert!(!source);
            assert_eq!(project_id, 9);
            assert_eq!(assignee_id, None);
            assert_eq!(page, 1);
        },
        _ => panic!("expected a destination issue fetch"),
    }

    let a = rec.step(Event::IssuesPage {
        payload_len: 200,
        issues: vec![issue(11, 6, "Bug (mirrored)", Some("proj#5"), None)],
    });
    assert!(matches!(a, Action::FetchIssues { source: false, page: 2, .. }));

    let a = rec.step(Event::IssuesPage { payload_len: 0, issues: Vec::new() });
    assert!(matches!(a, Action::FetchUsers { source: false }));

    let a = rec.step(Event::Users(vec![user(99, "alice", "Alice")]));
    match a {
        Action::Update { project_id, issue_iid, assignee_id } => {
            assert_eq!(project_id, 9);
            assert_eq!(issue_iid, 6);
            assert_eq!(assignee_id, 99);
        },
        _ => panic!("expected exactly one mutation order"),
    }
    assert_eq!(rec.pairs.len(), 1);

    let a = rec.step(Event::Updated);
    assert!(matches!(a, Action::Finish));
    assert_eq!(rec.phase, Phase::Done);
    assert_eq!(rec.updates_done, 1);
}

#[test]
fn scenario_no_shared_reference_mutates_nothing() {
    let mut rec = Reconciler::start(args(true));
    rec.initial_action();
    rec.step(Event::Users(vec![user(42, "alice", "Alice")]));
    rec.step(Event::Projects(vec![project(7)]));
    rec.step(Event::IssuesPage {
        payload_len: 100,
        issues: vec![issue(1, 5, "Bug", Some("proj#5"), None)],
    });
    rec.step(Event::IssuesPage { payload_len: 2, issues: Vec::new() });
    rec.step(Event::Projects(vec![project(9)]));
    rec.step(Event::IssuesPage {
        payload_len: 100,
        issues: vec![issue(11, 6, "Unrelated", Some("other#1"), None)],
    });
    rec.step(Event::IssuesPage { payload_len: 0, issues: Vec::new() });
    let a = rec.step(Event::Users(vec![user(99, "alice", "Alice")]));
    assert!(matches!(a, Action::Finish));
    assert_eq!(rec.phase, Phase::Done);
    assert_eq!(rec.pairs.len(), 0);
    assert_eq!(rec.updates_done, 0);
}

#[test]
fn scenario_project_listing_fault_aborts_before_harvest() {
    let mut rec = Reconciler::start(args(true));
    rec.initial_action();
    let a = rec.step(Event::Users(vec![user(42, "alice", "Alice")]));
    assert!(matches!(a, Action::FetchProjects { source: true }));
    let a = rec.step(Event::Fault);
    assert!(matches!(a, Action::Abort));
    assert_eq!(rec.phase, Phase::Failed);
    assert_eq!(rec.source_issues.len(), 0);
    assert_eq!(rec.dest_issues.len(), 0);
    assert_eq!(rec.updates_done, 0);
}

#[test]
fn scenario_already_assigned_issue_updates_cleanly() {
    // The destination issue already carries the destination user; the
    // mutation asks for the state it is already in and the run completes
    // without error.
    let mut rec = Reconciler::start(args(true));
    rec.initial_action();
    rec.step(Event::Users(vec![user(42, "alice", "Alice")]));
    rec.step(Event::Projects(vec![project(7)]));
    rec.step(Event::IssuesPage {
        payload_len: 100,
        issues: vec![issue(1, 5, "Bug", Some("proj#5"), None)],
    });
    rec.step(Event::IssuesPage { payload_len: 2, issues: Vec::new() });
    rec.step(Event::Projects(vec![project(9)]));
    rec.step(Event::IssuesPage {
        payload_len: 100,
        issues: vec![issue(11, 6, "Bug", Some("proj#5"), Some(user(99, "alice", "Alice")))],
    });
    rec.step(Event::IssuesPage { payload_len: 0, issues: Vec::new() });
    let a = rec.step(Event::Users(vec![user(99, "alice", "Alice")]));
    match a {
        Action::Update { project_id, issue_iid, assignee_id } => {
            assert_eq!(project_id, 9);
            assert_eq!(issue_iid, 6);
            assert_eq!(assignee_id, 99);
        },
        _ => panic!("expected a mutation order"),
    }
    let a = rec.step(Event::Updated);
    assert!(matches!(a, Action::Finish));
    assert_eq!(rec.phase, Phase::Done);
    assert_eq!(rec.updates_done, 1);
}

#[test]
fn scenario_declined_pair_is_skipped() {
    let mut rec = Reconciler::start(args(false));
    rec.initial_action();
    rec.step(Event::Users(vec![user(42, "alice", "Alice")]));
    rec.step(Event::Projects(vec![project(7)]));
    rec.step(Event::IssuesPage {
        payload_len: 100,
        issues: vec![
            issue(1, 5, "Bug", Some("proj#5"), None),
            issue(2, 8, "Other", Some("proj#8"), None),
        ],
    });
    rec.step(Event::IssuesPage { payload_len: 2, issues: Vec::new() });
    rec.step(Event::Projects(vec![project(9)]));
    rec.step(Event::IssuesPage {
        payload_len: 100,
        issues: vec![
            issue(11, 6, "Bug'", Some("proj#5"), None),
            issue(12, 7, "Other'", Some("proj#8"), None),
        ],
    });
    rec.step(Event::IssuesPage { payload_len: 0, issues: Vec::new() });
    let a = rec.step(Event::Users(vec![user(99, "alice", "Alice")]));
    assert!(matches!(a, Action::Ask { pair: 0 }));
    let a = rec.step(Event::Confirmed(false));
    assert!(matches!(a, Action::Ask { pair: 1 }));
    let a = rec.step(Event::Confirmed(true));
    match a {
        Action::Update { project_id, issue_iid, assignee_id } => {
            assert_eq!(project_id, 9);
            assert_eq!(issue_iid, 7);
            assert_eq!(assignee_id, 99);
        },
        _ => panic!("expected the second pair's mutation"),
    }
    let a = rec.step(Event::Updated);
    assert!(matches!(a, Action::Finish));
    assert_eq!(rec.updates_done, 1);
}

#[test]
fn scenario_mutation_fault_stops_remaining_pairs() {
    let mut rec = Reconciler::start(args(true));
    rec.initial_action();
    rec.step(Event::Users(vec![user(42, "alice", "Alice")]));
    rec.step(Event::Projects(vec![project(7)]));
    rec.step(Event::IssuesPage {
        payload_len: 100,
        issues: vec![
            issue(1, 5, "Bug", Some("proj#5"), None),
            issue(2, 8, "Other", Some("proj#8"), None),
        ],
    });
    rec.step(Event::IssuesPage { payload_len: 2, issues: Vec::new() });
    rec.step(Event::Projects(vec![project(9)]));
    rec.step(Event::IssuesPage {
        payload_len: 100,
        issues: vec![
            issue(11, 6, "Bug'", Some("proj#5"), None),
            issue(12, 7, "Other'", Some("proj#8"), None),
        ],
    });
    rec.step(Event::IssuesPage { payload_len: 0, issues: Vec::new() });
    let a = rec.step(Event::Users(vec![user(99, "alice", "Alice")]));
    assert!(matches!(a, Action::Update { issue_iid: 6, .. }));
    let a = rec.step(Event::Fault);
    assert!(matches!(a, Action::Abort));
    assert_eq!(rec.phase, Phase::Failed);
    assert_eq!(rec.updates_done, 0);
    assert_eq!(rec.pairs.len(), 2);
}

#[test]
fn scenario_empty_project_listing_skips_harvest() {
    let mut rec = Reconciler::start(args(true));
    rec.initial_action();
    rec.step(Event::Users(vec![user(42, "alice", "Alice")]));
    let a = rec.step(Event::Projects(Vec::new()));
    assert!(matches!(a, Action::FetchProjects { source: false }));
    let a = rec.step(Event::Projects(Vec::new()));
    assert!(matches!(a, Action::FetchUsers { source: false }));
    let a = rec.step(Event::Users(Vec::new()));
    assert!(matches!(a, Action::Finish));
    assert_eq!(rec.dest_user_id, 0);
    assert_eq!(rec.updates_done, 0);
}
