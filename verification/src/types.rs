//! Record shapes read from the two API instances, and their mathematical
//! models.
//!
//! Each record that the reconciliation logic reads carries a deep view: a
//! ghost record holding exactly the fields the logic depends on (identity
//! numbers, the title, the state, the assignee, and the short reference that
//! correlates issues across instances). Contracts throughout the crate are
//! stated over these views. The remaining fields are descriptive payload
//! carried along for the caller's presentation and never consulted.

use vstd::prelude::*;

verus! {

/// A user record on one instance. Its numeric `id` is instance-local.
#[derive(Debug)]
pub struct User {
    pub id: i64,
    pub name: String,
    pub username: String,
    pub state: String,
    pub avatar_url: String,
    pub web_url: String,
}

/// Model of a user: the numeric identity and the two names the
/// reconciliation reports.
#[verifier::ext_equal]
pub ghost struct UserV {
    pub id: i64,
    pub username: Seq<char>,
    pub display_name: Seq<char>,
}

impl DeepView for User {
    type V = UserV;

    open spec fn deep_view(&self) -> UserV {
        UserV { id: self.id, username: self.username@, display_name: self.name@ }
    }
}

impl Clone for User {
    /// Cloning preserves the model exactly.
    fn clone(&self) -> (r: Self)
        ensures
            r.deep_view() == self.deep_view(),
            r.id == self.id,
    {
        User {
            id: self.id,
            name: self.name.clone(),
            username: self.username.clone(),
            state: self.state.clone(),
            avatar_url: self.avatar_url.clone(),
            web_url: self.web_url.clone(),
        }
    }
}

/// A project record, in the short form the listing endpoint returns.
/// Only the `id` is read by the logic; the rest is descriptive.
#[derive(Debug, Clone)]
pub struct SimpleProject {
    pub id: i64,
    pub description: Option<String>,
    pub default_branch: Option<String>,
    pub ssh_url_to_repo: Option<String>,
    pub http_url_to_repo: Option<String>,
    pub web_url: Option<String>,
    pub readme_url: Option<String>,
    pub tag_list: Option<Vec<String>>,
    pub topics: Option<Vec<String>>,
    pub name: Option<String>,
    pub name_with_namespace: Option<String>,
    pub path: Option<String>,
    pub path_with_namespace: Option<String>,
    pub created_at: Option<String>,
    pub last_activity_at: Option<String>,
    pub forks_count: i64,
    pub avatar_url: Option<String>,
    pub star_count: i64,
}

/// Model of a project: the instance-local id and the names that identify it
/// to a reader.
#[verifier::ext_equal]
pub ghost struct ProjectV {
    pub id: i64,
    pub name: Option<Seq<char>>,
    pub path_with_namespace: Option<Seq<char>>,
}

impl DeepView for SimpleProject {
    type V = ProjectV;

    open spec fn deep_view(&self) -> ProjectV {
        ProjectV {
            id: self.id,
            name: match self.name {
                Some(n) => Some(n@),
                None => None,
            },
            path_with_namespace: match self.path_with_namespace {
                Some(p) => Some(p@),
                None => None,
            },
        }
    }
}

/// A milestone attached to an issue. Descriptive only.
#[derive(Debug, Clone)]
pub struct Milestone {
    pub id: i64,
    pub iid: i64,
    pub due_date: Option<String>,
    pub project_id: Option<i64>,
    pub state: Option<String>,
    pub description: Option<String>,
    pub title: Option<String>,
    pub created_at: Option<String>,
    pub updated_at: Option<String>,
}

/// Time-tracking figures attached to an issue. Descriptive only.
#[derive(Debug, Clone)]
pub struct TimeStats {
    pub time_estimate: i64,
    pub total_time_spent: i64,
    pub human_time_estimate: Option<String>,
    pub human_total_time_spent: Option<String>,
}

/// Task checklist counters attached to an issue. Descriptive only.
#[derive(Debug, Clone)]
pub struct TaskCompletionStatus {
    pub count: i64,
    pub completed_count: i64,
}

/// Hyperlinks attached to an issue. Descriptive only.
#[derive(Debug, Clone)]
pub struct Links {
    pub sself: Option<String>,
    pub notes: Option<String>,
    pub award_emoji: Option<String>,
    pub project: Option<String>,
}

/// The reference identifiers of an issue. `short` is the human-readable
/// string that correlates issues across instances.
#[derive(Debug)]
pub struct References {
    pub short: Option<String>,
    pub relative: Option<String>,
    pub full: Option<String>,
}

/// Model of a reference record.
#[verifier::ext_equal]
pub ghost struct ReferencesV {
    pub short: Option<Seq<char>>,
    pub relative: Option<Seq<char>>,
    pub full: Option<Seq<char>>,
}

impl DeepView for References {
    type V = ReferencesV;

    open spec fn deep_view(&self) -> ReferencesV {
        ReferencesV {
            short: match self.short {
                Some(s) => Some(s@),
                None => None,
            },
            relative: match self.relative {
                Some(s) => Some(s@),
                None => None,
            },
            full: match self.full {
                Some(s) => Some(s@),
                None => None,
            },
        }
    }
}

impl Clone for References {
    /// Cloning preserves the model exactly.
    fn clone(&self) -> (r: Self)
        ensures
            r.deep_view() == self.deep_view(),
    {
        References {
            short: clone_opt_string(&self.short),
            relative: clone_opt_string(&self.relative),
            full: clone_opt_string(&self.full),
        }
    }
}

/// An issue record. The logic reads `id`, `iid` (the project-internal
/// number addressed by the mutation endpoint), `title`, `state`, the
/// optional `assignee` and the optional short reference; everything else is
/// descriptive payload.
#[derive(Debug)]
pub struct Issue {
    pub id: i64,
    pub iid: i64,
    pub title: String,
    pub description: Option<String>,
    pub state: String,
    pub created_at: String,
    pub updated_at: Option<String>,
    pub closed_at: Option<String>,
    pub closed_by: Option<User>,
    pub labels: Option<Vec<String>>,
    pub milestone: Option<Milestone>,
    pub assignees: Option<Vec<User>>,
    pub author: Option<User>,
    pub ttype: Option<String>,
    pub assignee: Option<User>,
    pub user_notes_count: i64,
    pub merge_requests_count: i64,
    pub upvotes: i64,
    pub downvotes: i64,
    pub due_date: Option<String>,
    pub confidential: bool,
    pub discussion_locked: Option<bool>,
    pub issue_type: Option<String>,
    pub web_url: String,
    pub time_stats: Option<TimeStats>,
    pub task_completion_status: Option<TaskCompletionStatus>,
    pub has_tasks: bool,
    pub _links: Option<Links>,
    pub references: Option<References>,
    pub moved_to_id: Option<i64>,
    pub service_desk_reply_to: Option<String>,
}

/// Model of an issue: exactly the fields the reconciliation depends on.
/// `short_ref` is the cross-instance correlation key, taken from the
/// `references` record when both are present.
#[verifier::ext_equal]
pub ghost struct IssueV {
    pub id: i64,
    pub iid: i64,
    pub title: Seq<char>,
    pub state: Seq<char>,
    pub assignee: Option<UserV>,
    pub short_ref: Option<Seq<char>>,
}

impl DeepView for Issue {
    type V = IssueV;

    open spec fn deep_view(&self) -> IssueV {
        IssueV {
            id: self.id,
            iid: self.iid,
            title: self.title@,
            state: self.state@,
            assignee: match self.assignee {
                Some(u) => Some(u.deep_view()),
                None => None,
            },
            short_ref: match self.references {
                Some(r) => r.deep_view().short,
                None => None,
            },
        }
    }
}

impl Clone for Issue {
    /// Cloning preserves the model exactly; the descriptive fields are
    /// copied as well, with nothing claimed of them.
    fn clone(&self) -> (r: Self)
        ensures
            r.deep_view() == self.deep_view(),
    {
        let r = Issue {
            id: self.id,
            iid: self.iid,
            title: self.title.clone(),
            description: self.description.clone(),
            state: self.state.clone(),
            created_at: self.created_at.clone(),
            updated_at: self.updated_at.clone(),
            closed_at: self.closed_at.clone(),
            closed_by: clone_opt_user(&self.closed_by),
            labels: self.labels.clone(),
            milestone: self.milestone.clone(),
            assignees: self.assignees.clone(),
            author: clone_opt_user(&self.author),
            ttype: self.ttype.clone(),
            assignee: clone_opt_user(&self.assignee),
            user_notes_count: self.user_notes_count,
            merge_requests_count: self.merge_requests_count,
            upvotes: self.upvotes,
            downvotes: self.downvotes,
            due_date: self.due_date.clone(),
            confidential: self.confidential,
            discussion_locked: self.discussion_locked,
            issue_type: self.issue_type.clone(),
            web_url: self.web_url.clone(),
            time_stats: self.time_stats.clone(),
            task_completion_status: self.task_completion_status.clone(),
            has_tasks: self.has_tasks,
            _links: self._links.clone(),
            references: clone_opt_references(&self.references),
            moved_to_id: self.moved_to_id,
            service_desk_reply_to: self.service_desk_reply_to.clone(),
        };
        proof {
            assert(r.deep_view() =~= self.deep_view());
        }
        r
    }
}

/// Clones an optional string, keeping the value exactly.
fn clone_opt_string(o: &Option<String>) -> (r: Option<String>)
    ensures
        r == *o,
{
    match o {
        Some(s) => Some(s.clone()),
        None => None,
    }
}

/// Clones an optional user, keeping the model exactly.
fn clone_opt_user(o: &Option<User>) -> (r: Option<User>)
    ensures
        r.deep_view() == o.deep_view(),
        r is Some <==> *o is Some,
{
    match o {
        Some(u) => Some(u.clone()),
        None => None,
    }
}

/// Clones an optional reference record, keeping the model exactly.
fn clone_opt_references(o: &Option<References>) -> (r: Option<References>)
    ensures
        r.deep_view() == o.deep_view(),
        r is Some <==> *o is Some,
{
    match o {
        Some(x) => Some(x.clone()),
        None => None,
    }
}

/// A source issue and a destination issue judged equivalent because their
/// short references are equal, together with the projects owning them.
#[derive(Debug)]
pub struct MatchedPair {
    pub source_project_id: i64,
    pub source_issue: Issue,
    pub dest_project_id: i64,
    pub dest_issue: Issue,
}

/// Model of a matched pair.
#[verifier::ext_equal]
pub ghost struct MatchedPairV {
    pub source_project_id: i64,
    pub source_issue: IssueV,
    pub dest_project_id: i64,
    pub dest_issue: IssueV,
}

impl DeepView for MatchedPair {
    type V = MatchedPairV;

    open spec fn deep_view(&self) -> MatchedPairV {
        MatchedPairV {
            source_project_id: self.source_project_id,
            source_issue: self.source_issue.deep_view(),
            dest_project_id: self.dest_project_id,
            dest_issue: self.dest_issue.deep_view(),
        }
    }
}

} // verus!
