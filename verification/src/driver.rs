//! The reconciliation driver: a state machine that sequences the whole run.
//!
//! The driver owns the run's state and decides; the caller performs. Each
//! call of `step` folds in the outcome of the previous request — a lookup
//! answer, a project listing, one page of issues, a confirmation answer,
//! a completed mutation, or a fault — and returns the next request to
//! perform. Any transport or decode fault aborts the run: mutations
//! already applied stay applied, pairs not yet reached are not attempted.

use vstd::prelude::*;
use crate::args::Args;
use crate::collect::{PageCollector, is_terminal_payload};
use crate::identity::{resolve_identity, resolve_spec};
use crate::matching::{match_issues, match_spec};
use crate::types::{Issue, IssueV, MatchedPair, ProjectV, SimpleProject, User, UserV};

verus! {

/// Where the run stands: which answer it is waiting for.
#[derive(Debug, Clone, Copy, PartialEq, Eq, Structural)]
pub enum Phase {
    /// Waiting for the source-side username lookup.
    ResolveSource,
    /// Waiting for the source-side project listing.
    SourceProjects,
    /// Waiting for one page of a source project's issues.
    HarvestSource,
    /// Waiting for the destination-side project listing.
    DestProjects,
    /// Waiting for one page of a destination project's issues.
    HarvestDest,
    /// Waiting for the destination-side username lookup.
    ResolveDest,
    /// Waiting for the confirmation answer on the pair at hand.
    Deciding,
    /// Waiting for the mutation of the pair at hand to complete.
    Updating,
    /// The run completed.
    Done,
    /// The run aborted on a fault.
    Failed,
}

/// What the caller reports back to the driver.
pub enum Event {
    /// The decoded answer of a username lookup; empty when the payload was
    /// empty or held no record.
    Users(Vec<User>),
    /// The decoded answer of a project listing.
    Projects(Vec<SimpleProject>),
    /// One fetched page of issues: the payload's byte length, and its
    /// decoded records when the payload is not the terminal empty page.
    IssuesPage { payload_len: usize, issues: Vec<Issue> },
    /// The answer to a confirmation question.
    Confirmed(bool),
    /// The mutation completed without a transport error.
    Updated,
    /// A transport or decode failure.
    Fault,
}

/// What the driver asks the caller to perform next.
#[derive(Debug)]
pub enum Action {
    /// Look the configured username up on the given side.
    FetchUsers { source: bool },
    /// List the membership projects of the given side, first page only.
    FetchProjects { source: bool },
    /// Fetch one page of a project's issues on the given side, filtered to
    /// an assignee when one is given.
    FetchIssues { source: bool, project_id: i64, assignee_id: Option<i64>, page: u64 },
    /// Show the pair at this index and ask for confirmation.
    Ask { pair: usize },
    /// Reassign the destination issue, addressed by project and internal
    /// number, to this destination user.
    Update { project_id: i64, issue_iid: i64, assignee_id: i64 },
    /// The run completed; report the summary.
    Finish,
    /// The run aborted; report the failure.
    Abort,
}

/// The driver's state across one reconciliation run.
pub struct Reconciler {
    /// The run's configuration, unchanged throughout.
    pub args: Args,
    /// Where the run stands.
    pub phase: Phase,
    /// The resolved source-side identity; zero while unresolved.
    pub source_user_id: i64,
    /// The resolved destination-side identity; zero while unresolved.
    pub dest_user_id: i64,
    /// The ids of the projects of the side being harvested.
    pub project_ids: Vec<i64>,
    /// The project currently harvested.
    pub project_idx: usize,
    /// The page accumulator of the project currently harvested.
    pub collector: PageCollector,
    /// Source issues harvested so far, each with its project's id.
    pub source_issues: Vec<(i64, Issue)>,
    /// Destination issues harvested so far, each with its project's id.
    pub dest_issues: Vec<(i64, Issue)>,
    /// The matched pairs, in destination order.
    pub pairs: Vec<MatchedPair>,
    /// The pair being confirmed or mutated.
    pub pair_idx: usize,
    /// How many mutations completed.
    pub updates_done: u64,
}

/// The ids of listed projects, in listing order.
pub open spec fn id_list_spec(ps: Seq<ProjectV>) -> Seq<i64> {
    ps.map_values(|p: ProjectV| p.id)
}

/// The issues of one project, each tagged with the project's id.
pub open spec fn tag_spec(pid: i64, issues: Seq<IssueV>) -> Seq<(i64, IssueV)> {
    issues.map_values(|i: IssueV| (pid, i))
}

/// Extracts the ids of the listed projects, in listing order.
pub fn project_id_list(ps: &Vec<SimpleProject>) -> (r: Vec<i64>)
    ensures
        r@ == id_list_spec(ps.deep_view()),
{
    let mut r: Vec<i64> = Vec::new();
    let mut i: usize = 0;
    while i < ps.len()
        invariant
            i <= ps@.len(),
            r@ == id_list_spec(ps.deep_view().take(i as int)),
        decreases ps@.len() - i,
    {
        r.push(ps[i].id);
        i = i + 1;
        proof {
            assert(r@ =~= id_list_spec(ps.deep_view().take(i as int)));
        }
    }
    proof {
        assert(ps.deep_view().take(ps@.len() as int) =~= ps.deep_view());
    }
    r
}

/// Tags each issue of one project with the project's id.
pub fn tag_issues(pid: i64, issues: Vec<Issue>) -> (r: Vec<(i64, Issue)>)
    ensures
        r.deep_view() == tag_spec(pid, issues.deep_view()),
{
    let ghost all = issues.deep_view();
    let mut r: Vec<(i64, Issue)> = Vec::new();
    let mut rest = issues;
    proof {
        assert(r.deep_view() + tag_spec(pid, rest.deep_view()) =~= tag_spec(pid, all));
    }
    while rest.len() > 0
        invariant
            r.deep_view() + tag_spec(pid, rest.deep_view()) == tag_spec(pid, all),
        decreases rest@.len(),
    {
        let x = rest.remove(0);
        r.push((pid, x));
        proof {
            assert(r.deep_view() + tag_spec(pid, rest.deep_view()) =~= tag_spec(pid, all));
        }
    }
    proof {
        assert(r.deep_view() =~= tag_spec(pid, all));
    }
    r
}

/// The configuration and the resolved identities never change after the
/// phase that sets them.
pub open spec fn same_run_config(pre: Reconciler, post: Reconciler) -> bool {
    &&& post.args == pre.args
    &&& post.source_user_id == pre.source_user_id
    &&& post.dest_user_id == pre.dest_user_id
}

/// The harvest state is untouched.
pub open spec fn same_harvest(pre: Reconciler, post: Reconciler) -> bool {
    &&& post.project_ids == pre.project_ids
    &&& post.project_idx == pre.project_idx
    &&& post.collector == pre.collector
    &&& post.source_issues == pre.source_issues
    &&& post.dest_issues == pre.dest_issues
}

/// The pairing state is untouched.
pub open spec fn same_pairs(pre: Reconciler, post: Reconciler) -> bool {
    &&& post.pairs == pre.pairs
    &&& post.pair_idx == pre.pair_idx
    &&& post.updates_done == pre.updates_done
}

/// An event the current phase does not expect aborts the run, changing
/// nothing else.
pub open spec fn refused(pre: Reconciler, post: Reconciler, a: Action) -> bool {
    &&& post.phase is Failed
    &&& a is Abort
    &&& same_run_config(pre, post)
    &&& same_harvest(pre, post)
    &&& same_pairs(pre, post)
}

/// The mutation the pair at hand calls for: reassign the destination issue
/// to the resolved destination user.
pub open spec fn update_action(s: Reconciler) -> Action
    recommends
        s.pair_idx < s.pairs@.len(),
{
    Action::Update {
        project_id: s.pairs@[s.pair_idx as int].dest_project_id,
        issue_iid: s.pairs@[s.pair_idx as int].dest_issue.iid,
        assignee_id: s.dest_user_id,
    }
}

/// Once the pairs are known: ask about the pair at hand, mutate it at once
/// under auto-confirm, or finish when none is left.
pub open spec fn dispatch_post(post: Reconciler, a: Action) -> bool {
    if post.pair_idx < post.pairs@.len() {
        if post.args.yes {
            post.phase is Updating && a == update_action(post)
        } else {
            post.phase is Deciding && a == (Action::Ask { pair: post.pair_idx })
        }
    } else {
        post.phase is Done && a is Finish
    }
}

/// The project a harvesting phase is working through.
pub open spec fn cur_project(s: Reconciler) -> i64
    recommends
        s.project_idx < s.project_ids@.len(),
{
    s.project_ids@[s.project_idx as int]
}

/// The assignee filter of one side's harvest: the resolved source identity
/// on the source side, none on the destination side.
pub open spec fn side_filter(s: Reconciler, source: bool) -> Option<i64> {
    if source {
        Some(s.source_user_id)
    } else {
        None
    }
}

/// One page folded into a harvesting phase. A non-terminal page keeps the
/// driver on the same project and asks for the next page; the terminal
/// page banks the project's tagged issues and moves to the next project,
/// to the destination's listing, or to the destination lookup.
pub open spec fn harvest_post(
    pre: Reconciler,
    post: Reconciler,
    source: bool,
    len: nat,
    page: Seq<IssueV>,
    a: Action,
) -> bool {
    &&& post.project_ids == pre.project_ids
    &&& post.pairs == pre.pairs
    &&& post.pair_idx == pre.pair_idx
    &&& post.updates_done == pre.updates_done
    &&& if !is_terminal_payload(len) {
        &&& post.phase == pre.phase
        &&& post.project_idx == pre.project_idx
        &&& post.source_issues == pre.source_issues
        &&& post.dest_issues == pre.dest_issues
        &&& post.collector.items.deep_view() == pre.collector.items.deep_view() + page
        &&& post.collector.page as int == (if pre.collector.page < u64::MAX {
            pre.collector.page + 1
        } else {
            u64::MAX as int
        })
        &&& a == (Action::FetchIssues {
            source,
            project_id: cur_project(pre),
            assignee_id: side_filter(pre, source),
            page: post.collector.page,
        })
    } else {
        &&& post.collector.items@.len() == 0
        &&& post.collector.page == 1
        &&& post.project_idx == pre.project_idx + 1
        &&& (if source {
            post.source_issues.deep_view() == pre.source_issues.deep_view() + tag_spec(
                cur_project(pre),
                pre.collector.items.deep_view(),
            ) && post.dest_issues == pre.dest_issues
        } else {
            post.dest_issues.deep_view() == pre.dest_issues.deep_view() + tag_spec(
                cur_project(pre),
                pre.collector.items.deep_view(),
            ) && post.source_issues == pre.source_issues
        })
        &&& (if post.project_idx < post.project_ids@.len() {
            post.phase == pre.phase && a == (Action::FetchIssues {
                source,
                project_id: post.project_ids@[post.project_idx as int],
                assignee_id: side_filter(pre, source),
                page: 1,
            })
        } else if source {
            post.phase is DestProjects && a == (Action::FetchProjects { source: false })
        } else {
            post.phase is ResolveDest && a == (Action::FetchUsers { source: false })
        })
    }
}

/// What one step does, for every phase and event.
pub open spec fn step_post(pre: Reconciler, post: Reconciler, ev: Event, a: Action) -> bool {
    match ev {
        Event::Fault => refused(pre, post, a),
        Event::Users(users) => if pre.phase is ResolveSource {
            &&& post.phase is SourceProjects
            &&& post.source_user_id == resolve_spec(users.deep_view())
            &&& post.args == pre.args
            &&& post.dest_user_id == pre.dest_user_id
            &&& same_harvest(pre, post)
            &&& same_pairs(pre, post)
            &&& a == (Action::FetchProjects { source: true })
        } else if pre.phase is ResolveDest {
            &&& post.dest_user_id == resolve_spec(users.deep_view())
            &&& post.pairs.deep_view() == match_spec(
                pre.source_issues.deep_view(),
                pre.dest_issues.deep_view(),
            )
            &&& post.pair_idx == 0
            &&& post.args == pre.args
            &&& post.source_user_id == pre.source_user_id
            &&& same_harvest(pre, post)
            &&& post.updates_done == pre.updates_done
            &&& dispatch_post(post, a)
        } else {
            refused(pre, post, a)
        },
        Event::Projects(ps) => if pre.phase is SourceProjects || pre.phase is DestProjects {
            &&& post.project_ids@ == id_list_spec(ps.deep_view())
            &&& post.project_idx == 0
            &&& post.collector.page == 1
            &&& post.collector.items@.len() == 0
            &&& same_run_config(pre, post)
            &&& same_pairs(pre, post)
            &&& post.source_issues == pre.source_issues
            &&& post.dest_issues == pre.dest_issues
            &&& (if pre.phase is SourceProjects {
                if ps@.len() == 0 {
                    post.phase is DestProjects && a == (Action::FetchProjects { source: false })
                } else {
                    post.phase is HarvestSource && a == (Action::FetchIssues {
                        source: true,
                        project_id: post.project_ids@[0],
                        assignee_id: Some(pre.source_user_id),
                        page: 1,
                    })
                }
            } else {
                if ps@.len() == 0 {
                    post.phase is ResolveDest && a == (Action::FetchUsers { source: false })
                } else {
                    post.phase is HarvestDest && a == (Action::FetchIssues {
                        source: false,
                        project_id: post.project_ids@[0],
                        assignee_id: None,
                        page: 1,
                    })
                }
            })
        } else {
            refused(pre, post, a)
        },
        Event::IssuesPage { payload_len, issues } => if pre.phase is HarvestSource {
            &&& same_run_config(pre, post)
            &&& harvest_post(pre, post, true, payload_len as nat, issues.deep_view(), a)
        } else if pre.phase is HarvestDest {
            &&& same_run_config(pre, post)
            &&& harvest_post(pre, post, false, payload_len as nat, issues.deep_view(), a)
        } else {
            refused(pre, post, a)
        },
        Event::Confirmed(yes) => if pre.phase is Deciding {
            &&& same_run_config(pre, post)
            &&& same_harvest(pre, post)
            &&& post.pairs == pre.pairs
            &&& post.updates_done == pre.updates_done
            &&& (if yes {
                post.pair_idx == pre.pair_idx && post.phase is Updating && a == update_action(pre)
            } else {
                post.pair_idx == pre.pair_idx + 1 && dispatch_post(post, a)
            })
        } else {
            refused(pre, post, a)
        },
        Event::Updated => if pre.phase is Updating {
            &&& same_run_config(pre, post)
            &&& same_harvest(pre, post)
            &&& post.pairs == pre.pairs
            &&& post.updates_done as int == (if pre.updates_done < u64::MAX {
                pre.updates_done + 1
            } else {
                u64::MAX as int
            })
            &&& post.pair_idx == pre.pair_idx + 1
            &&& dispatch_post(post, a)
        } else {
            refused(pre, post, a)
        },
    }
}

impl Reconciler {
    /// The bounds every reachable driver state keeps.
    pub open spec fn wf(self) -> bool {
        &&& self.project_idx <= self.project_ids@.len()
        &&& self.pair_idx <= self.pairs@.len()
        &&& ((self.phase is HarvestSource || self.phase is HarvestDest) ==> self.project_idx
            < self.project_ids@.len())
        &&& ((self.phase is Deciding || self.phase is Updating) ==> self.pair_idx
            < self.pairs@.len())
    }

    /// A run about to resolve the source identity, holding nothing.
    pub fn start(args: Args) -> (r: Reconciler)
        ensures
            r.wf(),
            r.phase is ResolveSource,
            r.args == args,
            r.source_user_id == 0,
            r.dest_user_id == 0,
            r.source_issues@.len() == 0,
            r.dest_issues@.len() == 0,
            r.pairs@.len() == 0,
            r.updates_done == 0,
    {
        Reconciler {
            args,
            phase: Phase::ResolveSource,
            source_user_id: 0,
            dest_user_id: 0,
            project_ids: Vec::new(),
            project_idx: 0,
            collector: PageCollector::new(),
            source_issues: Vec::new(),
            dest_issues: Vec::new(),
            pairs: Vec::new(),
            pair_idx: 0,
            updates_done: 0,
        }
    }

    /// The run's first request: the source-side username lookup.
    pub fn initial_action(&self) -> (a: Action)
        ensures
            a == (Action::FetchUsers { source: true }),
    {
        Action::FetchUsers { source: true }
    }

    /// Ask about the pair at hand, mutate it at once under auto-confirm, or
    /// finish when none is left.
    fn dispatch(&mut self) -> (a: Action)
        requires
            old(self).pair_idx <= old(self).pairs@.len(),
            old(self).project_idx <= old(self).project_ids@.len(),
        ensures
            final(self).wf(),
            dispatch_post(*final(self), a),
            final(self).args == old(self).args,
            final(self).source_user_id == old(self).source_user_id,
            final(self).dest_user_id == old(self).dest_user_id,
            final(self).project_ids == old(self).project_ids,
            final(self).project_idx == old(self).project_idx,
            final(self).collector == old(self).collector,
            final(self).source_issues == old(self).source_issues,
            final(self).dest_issues == old(self).dest_issues,
            final(self).pairs == old(self).pairs,
            final(self).pair_idx == old(self).pair_idx,
            final(self).updates_done == old(self).updates_done,
    {
        if self.pair_idx < self.pairs.len() {
            if self.args.yes {
                self.phase = Phase::Updating;
                Action::Update {
                    project_id: self.pairs[self.pair_idx].dest_project_id,
                    issue_iid: self.pairs[self.pair_idx].dest_issue.iid,
                    assignee_id: self.dest_user_id,
                }
            } else {
                self.phase = Phase::Deciding;
                Action::Ask { pair: self.pair_idx }
            }
        } else {
            self.phase = Phase::Done;
            Action::Finish
        }
    }

    /// Folds one page of issues into the harvesting side.
    fn harvest_step(&mut self, source: bool, payload_len: usize, issues: Vec<Issue>) -> (a: Action)
        requires
            old(self).wf(),
            source ==> old(self).phase is HarvestSource,
            !source ==> old(self).phase is HarvestDest,
        ensures
            final(self).wf(),
            same_run_config(*old(self), *final(self)),
            harvest_post(
                *old(self),
                *final(self),
                source,
                payload_len as nat,
                issues.deep_view(),
                a,
            ),
    {
        let done = self.collector.observe(payload_len, issues);
        if !done {
            Action::FetchIssues {
                source,
                project_id: self.project_ids[self.project_idx],
                assignee_id: if source {
                    Some(self.source_user_id)
                } else {
                    None
                },
                page: self.collector.page,
            }
        } else {
            let pid = self.project_ids[self.project_idx];
            let items = self.collector.take_items();
            let mut tagged = tag_issues(pid, items);
            if source {
                self.source_issues.append(&mut tagged);
                proof {
                    assert(self.source_issues.deep_view() =~= old(self).source_issues.deep_view()
                        + tag_spec(pid, old(self).collector.items.deep_view()));
                }
            } else {
                self.dest_issues.append(&mut tagged);
                proof {
                    assert(self.dest_issues.deep_view() =~= old(self).dest_issues.deep_view()
                        + tag_spec(pid, old(self).collector.items.deep_view()));
                }
            }
            self.collector = PageCollector::new();
            let project_count = self.project_ids.len();
            self.project_idx = self.project_idx + 1;
            if self.project_idx < project_count {
                Action::FetchIssues {
                    source,
                    project_id: self.project_ids[self.project_idx],
                    assignee_id: if source {
                        Some(self.source_user_id)
                    } else {
                        None
                    },
                    page: 1,
                }
            } else if source {
                self.phase = Phase::DestProjects;
                Action::FetchProjects { source: false }
            } else {
                self.phase = Phase::ResolveDest;
                Action::FetchUsers { source: false }
            }
        }
    }

    /// Marks the run failed.
    fn fail(&mut self) -> (a: Action)
        requires
            old(self).wf(),
        ensures
            final(self).wf(),
            refused(*old(self), *final(self), a),
    {
        self.phase = Phase::Failed;
        Action::Abort
    }

    /// Folds one event in and returns the next request. An event the
    /// current phase does not expect aborts the run.
    pub fn step(&mut self, ev: Event) -> (a: Action)
        requires
            old(self).wf(),
        ensures
            final(self).wf(),
            step_post(*old(self), *final(self), ev, a),
    {
        match ev {
            Event::Fault => self.fail(),
            Event::Users(users) => {
                match self.phase {
                    Phase::ResolveSource => {
                        self.source_user_id = resolve_identity(&users);
                        self.phase = Phase::SourceProjects;
                        Action::FetchProjects { source: true }
                    },
                    Phase::ResolveDest => {
                        self.dest_user_id = resolve_identity(&users);
                        let pairs = match_issues(&self.source_issues, &self.dest_issues);
                        self.pairs = pairs;
                        self.pair_idx = 0;
                        self.dispatch()
                    },
                    _ => self.fail(),
                }
            },
            Event::Projects(ps) => {
                match self.phase {
                    Phase::SourceProjects => {
                        self.project_ids = project_id_list(&ps);
                        self.project_idx = 0;
                        self.collector = PageCollector::new();
                        if self.project_ids.len() == 0 {
                            self.phase = Phase::DestProjects;
                            Action::FetchProjects { source: false }
                        } else {
                            self.phase = Phase::HarvestSource;
                            Action::FetchIssues {
                                source: true,
                                project_id: self.project_ids[0],
                                assignee_id: Some(self.source_user_id),
                                page: 1,
                            }
                        }
                    },
                    Phase::DestProjects => {
                        self.project_ids = project_id_list(&ps);
                        self.project_idx = 0;
                        self.collector = PageCollector::new();
                        if self.project_ids.len() == 0 {
                            self.phase = Phase::ResolveDest;
                            Action::FetchUsers { source: false }
                        } else {
                            self.phase = Phase::HarvestDest;
                            Action::FetchIssues {
                                source: false,
                                project_id: self.project_ids[0],
                                assignee_id: None,
                                page: 1,
                            }
                        }
                    },
                    _ => self.fail(),
                }
            },
            Event::IssuesPage { payload_len, issues } => {
                match self.phase {
                    Phase::HarvestSource => self.harvest_step(true, payload_len, issues),
                    Phase::HarvestDest => self.harvest_step(false, payload_len, issues),
                    _ => self.fail(),
                }
            },
            Event::Confirmed(yes) => {
                match self.phase {
                    Phase::Deciding => {
                        if yes {
                            self.phase = Phase::Updating;
                            Action::Update {
                                project_id: self.pairs[self.pair_idx].dest_project_id,
                                issue_iid: self.pairs[self.pair_idx].dest_issue.iid,
                                assignee_id: self.dest_user_id,
                            }
                        } else {
                            // the length call bounds pair_idx so the increment fits
                            let _pair_count: usize = self.pairs.len();
                            self.pair_idx = self.pair_idx + 1;
                            self.dispatch()
                        }
                    },
                    _ => self.fail(),
                }
            },
            Event::Updated => {
                match self.phase {
                    Phase::Updating => {
                        if self.updates_done < u64::MAX {
                            self.updates_done = self.updates_done + 1;
                        }
                        // the length call bounds pair_idx so the increment fits
                        let _pair_count: usize = self.pairs.len();
                        self.pair_idx = self.pair_idx + 1;
                        self.dispatch()
                    },
                    _ => self.fail(),
                }
            },
        }
    }
}

/// Law: while identities are resolved and projects and issues are fetched,
/// the driver never orders a mutation, and the mutation count stays
/// untouched; in particular a fault in any of those phases aborts the run
/// with no mutation ordered.
pub proof fn lemma_no_mutation_before_match(
    pre: Reconciler,
    post: Reconciler,
    ev: Event,
    a: Action,
)
    requires
        step_post(pre, post, ev, a),
        pre.phase is ResolveSource || pre.phase is SourceProjects || pre.phase is HarvestSource
            || pre.phase is DestProjects || pre.phase is HarvestDest,
    ensures
        !(a is Update),
        post.updates_done == pre.updates_done,
{
}

/// The destination state a mutation asks for: the issue as it stands,
/// assigned to the given user.
pub open spec fn assigned_issue(i: IssueV, u: UserV) -> IssueV {
    IssueV {
        id: i.id,
        iid: i.iid,
        title: i.title,
        state: i.state,
        assignee: Some(u),
        short_ref: i.short_ref,
    }
}

/// Law: the mutation is idempotent as a request on the destination's
/// state. Asking twice for the same assignee asks for the same end state
/// as asking once, and an issue already assigned to that user is asked to
/// stay exactly as it is.
pub proof fn lemma_update_idempotent(i: IssueV, u: UserV)
    ensures
        assigned_issue(assigned_issue(i, u), u) == assigned_issue(i, u),
        i.assignee == Some(u) ==> assigned_issue(i, u) == i,
{
    assert(assigned_issue(assigned_issue(i, u), u) =~= assigned_issue(i, u));
    if i.assignee == Some(u) {
        assert(assigned_issue(i, u) =~= i);
    }
}

} // verus!
