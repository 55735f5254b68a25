use isstran::args::Args;
use isstran::diag::{_debug_slice, sel_bool_str};
use isstran::identity::resolve_identity;
use isstran::routing::{
    gen_header, get_proper_url, i64_to_string, issues_url, projects_url, route, u64_to_string,
    update_url, users_url,
};
use isstran::types::User;

fn args(yes: bool) -> Args {
    Args {
        source: "https://src.example/".to_string(),
        source_token: "srctok".to_string(),
        dest: "https://dst.example".to_string(),
        dest_token: "dsttok".to_string(),
        assignee: "alice".to_string(),
        dest_user: None,
        yes,
    }
}

fn user(id: i64, username: &str, name: &str) -> User {
    User {
        id,
        name: name.to_string(),
        username: username.to_string(),
        state: "active".to_string(),
        avatar_url: String::new(),
        web_url: String::new(),
    }
}

#[test]
fn route_strips_one_trailing_slash() {
    let r = route("https://a.example/".to_string(), "users?username=bob".to_string());
    assert_eq!(r, "https://a.example/api/v4/users?username=bob");
}

#[test]
fn route_without_trailing_slash() {
    let r = route("https://a.example".to_string(), "projects".to_string());
    assert_eq!(r, "https://a.example/api/v4/projects");
}

#[test]
fn route_empty_base() {
    let r = route(String::new(), "x".to_string());
    assert_eq!(r, "/api/v4/x");
}

#[test]
fn u64_formatting() {
    assert_eq!(u64_to_string(0), "0");
    assert_eq!(u64_to_string(7), "7");
    assert_eq!(u64_to_string(1234567890), "1234567890");
    assert_eq!(u64_to_string(u64::MAX), "18446744073709551615");
}

#[test]
fn i64_formatting() {
    assert_eq!(i64_to_string(0), "0");
    assert_eq!(i64_to_string(-1), "-1");
    assert_eq!(i64_to_string(42), "42");
    assert_eq!(i64_to_string(i64::MIN), "-9223372036854775808");
    assert_eq!(i64_to_string(i64::MAX), "9223372036854775807");
}

#[test]
fn users_url_source_side() {
    let u = users_url(&args(false), true);
    assert_eq!(u, "https://src.example/api/v4/users?username=alice");
}

#[test]
fn users_url_dest_side_with_override() {
    let mut a = args(false);
    a.dest_user = Some("bob".to_string());
    let u = users_url(&a, false);
    assert_eq!(u, "https://dst.example/api/v4/users?username=bob");
}

#[test]
fn users_url_dest_side_without_override() {
    let u = users_url(&args(false), false);
    assert_eq!(u, "https://dst.example/api/v4/users?username=alice");
}

#[test]
fn projects_url_both_sides() {
    let a = args(false);
    assert_eq!(
        projects_url(&a, true),
        "https://src.example/api/v4/projects?membership=true&simple=true"
    );
    assert_eq!(
        projects_url(&a, false),
        "https://dst.example/api/v4/projects?membership=true&simple=true"
    );
}

#[test]
fn issues_url_filtered_and_unfiltered() {
    let a = args(false);
    assert_eq!(
        issues_url(&a, true, 7, Some(42), 3),
        "https://src.example/api/v4/projects/7/issues?assignee_id=42&scope=all&simple=true&page=3"
    );
    assert_eq!(
        issues_url(&a, false, 9, None, 1),
        "https://dst.example/api/v4/projects/9/issues?scope=all&simple=true&page=1"
    );
}

#[test]
fn update_url_exact() {
    let a = args(false);
    assert_eq!(
        update_url(&a, 9, 6, 99),
        "https://dst.example/api/v4/projects/9/issues/6?assignee_ids=99"
    );
}

#[test]
fn update_url_is_deterministic() {
    let a = args(false);
    assert_eq!(update_url(&a, 9, 6, 99), update_url(&a, 9, 6, 99));
}

#[test]
fn gen_header_picks_side_token() {
    let a = args(false);
    assert_eq!(gen_header(&a, true), "PRIVATE-TOKEN: srctok");
    assert_eq!(gen_header(&a, false), "PRIVATE-TOKEN: dsttok");
}

#[test]
fn get_proper_url_picks_side() {
    let a = args(false);
    assert_eq!(get_proper_url(&a, true), "https://src.example/");
    assert_eq!(get_proper_url(&a, false), "https://dst.example");
}

#[test]
fn sel_bool_str_names_sides() {
    assert_eq!(sel_bool_str(true), "source");
    assert_eq!(sel_bool_str(false), "destination");
}

#[test]
fn debug_slice_window() {
    let data: Vec<u8> = (0u8..40).collect();
    let w = _debug_slice(&data, 15).expect("window");
    let expect: Vec<u8> = (5u8..25).collect();
    assert_eq!(w, expect);
}

#[test]
fn debug_slice_too_short() {
    let data: Vec<u8> = (0u8..30).collect();
    assert!(_debug_slice(&data, 15).is_none());
}

#[test]
fn resolve_identity_empty_is_zero_sentinel() {
    let none: Vec<User> = Vec::new();
    assert_eq!(resolve_identity(&none), 0);
}

#[test]
fn resolve_identity_first_record_wins() {
    let us = vec![user(42, "alice", "Alice"), user(77, "alice2", "Other Alice")];
    assert_eq!(resolve_identity(&us), 42);
}
