//! Request routing: the fully-qualified URL of every call the engine makes.
//!
//! A base instance URL is joined with a relative resource path by `route`,
//! which strips one trailing slash and inserts the fixed API-version prefix.
//! The builders below produce the exact paths of the four calls the engine
//! issues: the username lookup, the project listing, one page of a
//! project's issues, and the assignee mutation.

use vstd::prelude::*;
use vstd::string::{StrSliceExecFns, StringExecFns};
use crate::args::Args;

verus! {

/// The character of one decimal digit.
pub open spec fn dec_digit(d: nat) -> char
    recommends
        d < 10,
{
    if d == 0 {
        '0'
    } else if d == 1 {
        '1'
    } else if d == 2 {
        '2'
    } else if d == 3 {
        '3'
    } else if d == 4 {
        '4'
    } else if d == 5 {
        '5'
    } else if d == 6 {
        '6'
    } else if d == 7 {
        '7'
    } else if d == 8 {
        '8'
    } else {
        '9'
    }
}

/// The decimal representation of a natural number, most significant digit
/// first, with no leading zeroes.
pub open spec fn dec_rep(n: nat) -> Seq<char>
    decreases n,
{
    if n < 10 {
        seq![dec_digit(n)]
    } else {
        dec_rep(n / 10).push(dec_digit(n % 10))
    }
}

/// The decimal representation of an integer, with a minus sign when
/// negative.
pub open spec fn int_rep(n: int) -> Seq<char> {
    if n < 0 {
        seq!['-'] + dec_rep((-n) as nat)
    } else {
        dec_rep(n as nat)
    }
}

/// One decimal digit as a string.
fn digit_str(d: u64) -> (r: &'static str)
    requires
        d < 10,
    ensures
        r@ == seq![dec_digit(d as nat)],
{
    if d == 0 {
        proof {
            reveal_strlit("0");
            assert("0"@ =~= seq![dec_digit(0)]);
        }
        "0"
    } else if d == 1 {
        proof {
            reveal_strlit("1");
            assert("1"@ =~= seq![dec_digit(1)]);
        }
        "1"
    } else if d == 2 {
        proof {
            reveal_strlit("2");
            assert("2"@ =~= seq![dec_digit(2)]);
        }
        "2"
    } else if d == 3 {
        proof {
            reveal_strlit("3");
            assert("3"@ =~= seq![dec_digit(3)]);
        }
        "3"
    } else if d == 4 {
        proof {
            reveal_strlit("4");
            assert("4"@ =~= seq![dec_digit(4)]);
        }
        "4"
    } else if d == 5 {
        proof {
            reveal_strlit("5");
            assert("5"@ =~= seq![dec_digit(5)]);
        }
        "5"
    } else if d == 6 {
        proof {
            reveal_strlit("6");
            assert("6"@ =~= seq![dec_digit(6)]);
        }
        "6"
    } else if d == 7 {
        proof {
            reveal_strlit("7");
            assert("7"@ =~= seq![dec_digit(7)]);
        }
        "7"
    } else if d == 8 {
        proof {
            reveal_strlit("8");
            assert("8"@ =~= seq![dec_digit(8)]);
        }
        "8"
    } else {
        proof {
            reveal_strlit("9");
            assert("9"@ =~= seq![dec_digit(9)]);
        }
        "9"
    }
}

/// Formats an unsigned number in decimal.
pub fn u64_to_string(n: u64) -> (r: String)
    ensures
        r@ == dec_rep(n as nat),
    decreases n,
{
    if n < 10 {
        digit_str(n).to_owned()
    } else {
        let mut s = u64_to_string(n / 10);
        s.append(digit_str(n % 10));
        proof {
            assert(s@ =~= dec_rep(n as nat));
        }
        s
    }
}

/// Formats a signed number in decimal.
pub fn i64_to_string(n: i64) -> (r: String)
    ensures
        r@ == int_rep(n as int),
{
    if n >= 0 {
        u64_to_string(n as u64)
    } else {
        let mag: u64 = ((-(n + 1)) as u64) + 1;
        proof {
            assert(mag as int == -(n as int));
        }
        let mut s = "-".to_owned();
        s.append(u64_to_string(mag).as_str());
        proof {
            reveal_strlit("-");
            assert(s@ =~= int_rep(n as int));
        }
        s
    }
}

/// A base URL with one trailing slash, if any, removed.
pub open spec fn strip_trailing_slash(url: Seq<char>) -> Seq<char> {
    if url.len() > 0 && url.last() == '/' {
        url.drop_last()
    } else {
        url
    }
}

/// The fully-qualified form of a relative path on an instance: the base URL
/// without its trailing slash, the fixed API-version prefix, the path.
pub open spec fn spec_route(url: Seq<char>, path: Seq<char>) -> Seq<char> {
    strip_trailing_slash(url) + "/api/v4/"@ + path
}

/// Joins a base instance URL and a relative resource path. Strips exactly
/// one trailing slash from the base, then inserts the API-version prefix.
/// The result must not be routed again.
pub fn route(url: String, path: String) -> (r: String)
    ensures
        r@ == spec_route(url@, path@),
{
    let n = url.as_str().unicode_len();
    let mut r = if n > 0 && url.as_str().get_char(n - 1) == '/' {
        let s = url.as_str().substring_char(0, n - 1);
        proof {
            assert(s@ =~= strip_trailing_slash(url@));
        }
        s.to_owned()
    } else {
        url
    };
    r.append("/api/v4/");
    r.append(path.as_str());
    r
}

/// The side's base URL, as given at startup.
pub fn get_proper_url(args: &Args, source: bool) -> (u: String)
    ensures
        u@ == base_url_spec(*args, source),
{
    if source {
        args.source.clone()
    } else {
        args.dest.clone()
    }
}

/// The base URL of the chosen side.
pub open spec fn base_url_spec(args: Args, source: bool) -> Seq<char> {
    if source {
        args.source@
    } else {
        args.dest@
    }
}

/// The credential line sent with every call: the token of the chosen side
/// behind the private-token header name.
pub fn gen_header(args: &Args, source: bool) -> (h: String)
    ensures
        h@ == "PRIVATE-TOKEN: "@ + (if source {
            args.source_token@
        } else {
            args.dest_token@
        }),
{
    let mut h = "PRIVATE-TOKEN: ".to_owned();
    if source {
        h.append(args.source_token.as_str());
    } else {
        h.append(args.dest_token.as_str());
    }
    h
}

/// The username looked up on the chosen side: the destination override when
/// one was given and the destination is asked, else the source username.
pub open spec fn lookup_name_spec(args: Args, source: bool) -> Seq<char> {
    if source {
        args.assignee@
    } else {
        match args.dest_user {
            Some(u) => u@,
            None => args.assignee@,
        }
    }
}

/// The relative path of the username lookup.
pub open spec fn users_path_spec(args: Args, source: bool) -> Seq<char> {
    "users?username="@ + lookup_name_spec(args, source)
}

/// The full URL of the username lookup on the chosen side.
pub fn users_url(args: &Args, source: bool) -> (u: String)
    ensures
        u@ == spec_route(base_url_spec(*args, source), users_path_spec(*args, source)),
{
    let mut p = "users?username=".to_owned();
    if source {
        p.append(args.assignee.as_str());
    } else {
        match &args.dest_user {
            Some(du) => { p.append(du.as_str()) },
            None => { p.append(args.assignee.as_str()) },
        }
    }
    route(get_proper_url(args, source), p)
}

/// The relative path of the project listing: membership projects in their
/// short form, first page only.
pub open spec fn projects_path() -> Seq<char> {
    "projects?membership=true&simple=true"@
}

/// The full URL of the project listing on the chosen side.
pub fn projects_url(args: &Args, source: bool) -> (u: String)
    ensures
        u@ == spec_route(base_url_spec(*args, source), projects_path()),
{
    route(get_proper_url(args, source), "projects?membership=true&simple=true".to_owned())
}

/// The relative path of one page of a project's issues, filtered to an
/// assignee when one is given.
pub open spec fn issues_path_spec(project_id: i64, assignee_id: Option<i64>, page: u64) -> Seq<
    char,
> {
    match assignee_id {
        Some(a) => "projects/"@ + int_rep(project_id as int) + "/issues?assignee_id="@ + int_rep(
            a as int,
        ) + "&scope=all&simple=true&page="@ + dec_rep(page as nat),
        None => "projects/"@ + int_rep(project_id as int) + "/issues?scope=all&simple=true&page="@
            + dec_rep(page as nat),
    }
}

/// The full URL of one page of a project's issues on the chosen side.
pub fn issues_url(
    args: &Args,
    source: bool,
    project_id: i64,
    assignee_id: Option<i64>,
    page: u64,
) -> (u: String)
    ensures
        u@ == spec_route(
            base_url_spec(*args, source),
            issues_path_spec(project_id, assignee_id, page),
        ),
{
    let mut p = "projects/".to_owned();
    p.append(i64_to_string(project_id).as_str());
    match assignee_id {
        Some(a) => {
            p.append("/issues?assignee_id=");
            p.append(i64_to_string(a).as_str());
            p.append("&scope=all&simple=true&page=");
        },
        None => {
            p.append("/issues?scope=all&simple=true&page=");
        },
    }
    p.append(u64_to_string(page).as_str());
    proof {
        assert(p@ =~= issues_path_spec(project_id, assignee_id, page));
    }
    route(get_proper_url(args, source), p)
}

/// The relative path of the assignee mutation on one destination issue,
/// addressed by its project and its project-internal number.
pub open spec fn update_path_spec(project_id: i64, issue_iid: i64, user_id: i64) -> Seq<char> {
    "projects/"@ + int_rep(project_id as int) + "/issues/"@ + int_rep(issue_iid as int)
        + "?assignee_ids="@ + int_rep(user_id as int)
}

/// The full URL of the assignee mutation, always on the destination.
pub fn update_url(args: &Args, project_id: i64, issue_iid: i64, user_id: i64) -> (u: String)
    ensures
        u@ == spec_route(args.dest@, update_path_spec(project_id, issue_iid, user_id)),
{
    let mut p = "projects/".to_owned();
    p.append(i64_to_string(project_id).as_str());
    p.append("/issues/");
    p.append(i64_to_string(issue_iid).as_str());
    p.append("?assignee_ids=");
    p.append(i64_to_string(user_id).as_str());
    proof {
        assert(p@ =~= update_path_spec(project_id, issue_iid, user_id));
    }
    route(get_proper_url(args, false), p)
}

} // verus!
