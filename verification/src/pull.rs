//! A pull: changes of the upstream repository are merged into the mirror.
use crate::config::{ConfigView, JoshConfig, PostPullOperation};
use crate::error::{Fault, SyncError};
use crate::filter::construct_josh_filter;
use crate::git::{
    add_changes, add_changes_line, commit, commit_line, count_roots, count_roots_line, diff_against, fetch,
    fetch_line, full_ref, full_ref_of, ls_remote, ls_remote_line, merge, merge_line, rev_parse, rev_parse_line,
};
use crate::step::{Answer, Deed, Reply, ReplyView, Step, StepView};
use crate::sync::{
    GitResetOnDrop, GitSync, GuardView, PullFault, PullResult, RustcPullError, SyncView, NO_REBASE_WARN,
};
use crate::text::{
    copy_all, decimal, first_word, has_short_form, join, joined, maybe, parse_complaint, parse_u32, short_form,
    shorten, word, words,
};
use vstd::prelude::*;

verus! {

/// What a pull is waiting for.
#[derive(Debug, Copy, Clone, PartialEq, Eq, Structural)]
pub enum PullPhase {
    /// The commit of the upstream branch.
    Upstream,
    /// That the checkout has no changes.
    Clean,
    /// The Josh proxy.
    Proxy,
    /// The URL of the filtered history.
    Url,
    /// The commit that is checked out before anything is changed.
    OriginalHead,
    /// The fetch of the filtered history.
    Fetch,
    /// The number of root commits before the merge.
    RootsBefore,
    /// The commit that is checked out before the merge.
    PreMerge,
    /// The filtered commit that was fetched.
    Incoming,
    /// The merge.
    Merge,
    /// The commit that is checked out after the merge.
    MergedHead,
    /// Whether the merge changed the tree.
    Diff,
    /// The commit that is checked out before a post-pull operation.
    OperationHead,
    /// The command of a post-pull operation.
    OperationRun,
    /// Whether the operation changed the tree.
    OperationDiff,
    /// The staging of what the operation changed.
    OperationAdd,
    /// The commit of what the operation changed.
    OperationCommit,
    /// The number of root commits after everything.
    RootsAfter,
    /// The record of the commit that was pulled.
    Record,
    /// Nothing: the pull is over.
    Over,
}

/// A pull under way.
pub struct PullRun<'a> {
    sync: &'a GitSync,
    upstream_repo: String,
    allow_noop: bool,
    phase: PullPhase,
    upstream_sha: String,
    josh_url: String,
    guard: Option<GitResetOnDrop>,
    roots_before: u32,
    pre_merge: String,
    current: String,
    message: String,
    operation: usize,
    operation_head: String,
    outcome: Option<Result<PullResult, RustcPullError>>,
}

/// How a pull ended: with a merge commit of this message, or in vain.
pub type PullEnd = Result<Seq<char>, PullFault>;

/// The texts of a `PullRun`.
pub struct PullView {
    /// The mirror.
    pub sync: SyncView,
    /// The repository that is pulled from.
    pub upstream_repo: Seq<char>,
    /// Whether a pull without changes is in order.
    pub allow_noop: bool,
    /// What the pull is waiting for.
    pub phase: PullPhase,
    /// The upstream commit that is pulled.
    pub upstream_sha: Seq<char>,
    /// The URL of the filtered history.
    pub josh_url: Seq<char>,
    /// The guard that puts HEAD back, from the moment when HEAD is known.
    pub guard: Option<GuardView>,
    /// The number of root commits before the merge.
    pub roots_before: u32,
    /// The commit that was checked out before the merge.
    pub pre_merge: Seq<char>,
    /// The commit that was checked out after the merge.
    pub current: Seq<char>,
    /// The message of the merge commit.
    pub message: Seq<char>,
    /// How many post-pull operations are done.
    pub operation: nat,
    /// The commit that was checked out before the post-pull operation.
    pub operation_head: Seq<char>,
    /// How the pull ended.
    pub outcome: Option<PullEnd>,
}

/// The texts of what a pull ended with.
pub open spec fn end_view(end: Result<PullResult, RustcPullError>) -> PullEnd {
    match end {
        Ok(result) => Ok(result.merge_commit_message@),
        Err(error) => Err(error@),
    }
}

impl<'a> View for PullRun<'a> {
    type V = PullView;

    closed spec fn view(&self) -> PullView {
        PullView {
            sync: self.sync@,
            upstream_repo: self.upstream_repo@,
            allow_noop: self.allow_noop,
            phase: self.phase,
            upstream_sha: self.upstream_sha@,
            josh_url: self.josh_url@,
            guard: match self.guard {
                Some(guard) => Some(guard@),
                None => None,
            },
            roots_before: self.roots_before,
            pre_merge: self.pre_merge@,
            current: self.current@,
            message: self.message@,
            operation: self.operation as nat,
            operation_head: self.operation_head@,
            outcome: match self.outcome {
                Some(end) => Some(end_view(end)),
                None => None,
            },
        }
    }
}

/// The message of the merge commit of a pull.
pub open spec fn merge_text(
    config: ConfigView,
    upstream_repo: Seq<char>,
    upstream_sha: Seq<char>,
    incoming_ref: Seq<char>,
) -> Seq<char> {
    "Merge ref '"@ + short_form(upstream_sha) + "' from "@ + upstream_repo
        + "\n\nPull recent changes from https://github.com/"@ + upstream_repo
        + " via Josh.\n\nUpstream ref: "@ + upstream_repo + "@"@ + upstream_sha + "\nFiltered ref: "@ + config.org
        + "/"@ + config.repo + "@"@ + incoming_ref
        + "\n\nThis merge was created using https://github.com/rust-lang/josh-sync.\n"@
}

/// The message of the merge commit of a pull.
pub fn merge_message(
    config: &JoshConfig,
    upstream_repo: &str,
    upstream_sha: &str,
    incoming_ref: &str,
) -> (out: String)
    requires
        has_short_form(upstream_sha@),
    ensures
        out@ == merge_text(config@, upstream_repo@, upstream_sha@, incoming_ref@),
{
    let mut out = "Merge ref '".to_owned();
    out.append(shorten(upstream_sha).as_str());
    out.append("' from ");
    out.append(upstream_repo);
    out.append("\n\nPull recent changes from https://github.com/");
    out.append(upstream_repo);
    out.append(" via Josh.\n\nUpstream ref: ");
    out.append(upstream_repo);
    out.append("@");
    out.append(upstream_sha);
    out.append("\nFiltered ref: ");
    out.append(config.org.as_str());
    out.append("/");
    out.append(config.repo.as_str());
    out.append("@");
    out.append(incoming_ref);
    out.append("\n\nThis merge was created using https://github.com/rust-lang/josh-sync.\n");
    out
}

/// The number of root commits that git printed, or the complaint about what it printed.
pub open spec fn root_count(printed: Seq<char>) -> Result<u32, Fault<Seq<char>>> {
    match decimal(printed) {
        Some(n) if n <= u32::MAX => Ok(n as u32),
        _ => Err(Fault::RootCount(parse_complaint(printed))),
    }
}

/// Reads the number of root commits that git printed.
fn read_root_count(printed: &str) -> (out: Result<u32, SyncError>)
    ensures
        match out {
            Ok(n) => root_count(printed@) == Ok::<u32, Fault<Seq<char>>>(n),
            Err(fault) => root_count(printed@) == Err::<u32, Fault<Seq<char>>>(fault@),
        },
{
    match parse_u32(printed) {
        Ok(n) => Ok(n),
        Err(complaint) => Err(Fault::RootCount(complaint)),
    }
}

/// What the user is told when a merge stops.
pub const MERGE_STOPPED: &'static str = "The merge was unsuccessful (maybe there was a conflict?).\nNOT rolling back the branch state, so you can examine it manually.\nAfter you fix the conflicts, `git add` the changes and run `git merge --continue`.";

/// What the user is told when a post-pull operation changed something.
pub open spec fn changed_text(cmd: Seq<Seq<char>>, message: Seq<char>) -> Seq<char> {
    "`"@ + joined(cmd, " "@) + "` changed something, committing with message `"@ + message + "`"@
}

/// A pull after an answer, and what comes next.
pub type Moved = (PullView, StepView);

impl PullView {
    /// A pull that is about to start, and what comes first: the upstream commit is asked for
    /// where it is not given.
    pub open spec fn start(
        sync: SyncView,
        upstream_repo: Seq<char>,
        upstream_commit: Option<Seq<char>>,
        allow_noop: bool,
    ) -> Moved {
        let none = Seq::<char>::empty();
        let fresh = PullView {
            sync,
            upstream_repo,
            allow_noop,
            phase: PullPhase::Upstream,
            upstream_sha: none,
            josh_url: none,
            guard: None,
            roots_before: 0,
            pre_merge: none,
            current: none,
            message: none,
            operation: 0,
            operation_head: none,
            outcome: None,
        };
        match upstream_commit {
            Some(sha) => fresh.with_upstream(sha),
            None => (
                fresh,
                StepView::run(
                    ls_remote(sync.config.url_of(upstream_repo), full_ref(sync.config.upstream_branch)),
                    sync.verbose,
                ),
            ),
        }
    }

    /// The end.
    pub open spec fn end(self, end: PullEnd) -> Moved {
        (PullView { phase: PullPhase::Over, outcome: Some(end), ..self }, StepView::end())
    }

    /// The end in a failure.
    pub open spec fn fail(self, fault: Fault<Seq<char>>) -> Moved {
        self.end(Err(PullFault::PullFailed(fault)))
    }

    /// A command is run.
    pub open spec fn run(self, phase: PullPhase, line: Seq<Seq<char>>) -> Moved {
        (PullView { phase, ..self }, StepView::run(line, self.sync.verbose))
    }

    /// The commit that is checked out is asked for.
    pub open spec fn ask_head(self, phase: PullPhase) -> Moved {
        (PullView { phase, ..self }, StepView::act(Deed::CurrentHead { verbose: self.sync.verbose }))
    }

    /// The upstream commit is known; the checkout must have no changes.
    pub open spec fn with_upstream(self, sha: Seq<char>) -> Moved {
        (
            PullView { phase: PullPhase::Clean, upstream_sha: sha, ..self },
            StepView::act(Deed::EnsureClean { verbose: self.sync.verbose }),
        )
    }

    /// The remote was asked for the upstream commit.
    pub open spec fn after_upstream(self, reply: ReplyView) -> Moved {
        match reply {
            Answer::Done(printed) => match word(printed) {
                Some(sha) => self.with_upstream(sha),
                None => self.fail(Fault::BranchNotAdvertised),
            },
            Answer::Failed(words) => self.fail(Fault::FetchUpstreamCommit(words)),
        }
    }

    /// The checkout was looked at.
    pub open spec fn after_clean(self, reply: ReplyView) -> Moved {
        match reply {
            Answer::Done(_) => (
                PullView { phase: PullPhase::Proxy, ..self },
                StepView::act(
                    Deed::StartProxy { proxy: self.sync.proxy, remote: self.sync.config.github_url },
                ),
            ),
            Answer::Failed(words) => self.fail(Fault::Step(words)),
        }
    }

    /// The proxy was started.
    pub open spec fn after_proxy(self, reply: ReplyView) -> Moved {
        match reply {
            Answer::Done(_) => (
                PullView { phase: PullPhase::Url, ..self },
                StepView::act(
                    Deed::ProxyUrl {
                        repo: self.upstream_repo,
                        commit: Some(self.upstream_sha),
                        filter: self.sync.config.josh_filter(),
                    },
                ),
            ),
            Answer::Failed(words) => self.fail(Fault::StartProxy(words)),
        }
    }

    /// The proxy was asked for the URL.
    pub open spec fn after_url(self, reply: ReplyView) -> Moved {
        match reply {
            Answer::Done(url) => PullView { josh_url: url, ..self }.ask_head(PullPhase::OriginalHead),
            Answer::Failed(words) => self.fail(Fault::Step(words)),
        }
    }

    /// The head was asked for, which is put back from now on if the pull ends early.
    pub open spec fn after_original_head(self, reply: ReplyView) -> Moved {
        match reply {
            Answer::Done(head) => {
                let guard = GuardView { disarmed: false, reset_to: head, verbose: self.sync.verbose };
                let (next, step) = PullView { guard: Some(guard), ..self }.run(
                    PullPhase::Fetch,
                    fetch(self.josh_url),
                );
                (
                    next,
                    step.out("new upstream base: "@ + self.upstream_sha).out("original local HEAD: "@ + head),
                )
            },
            Answer::Failed(words) => self.fail(Fault::Step(words)),
        }
    }

    /// The filtered history was fetched.
    pub open spec fn after_fetch(self, reply: ReplyView) -> Moved {
        match reply {
            Answer::Done(_) => self.run(PullPhase::RootsBefore, count_roots()),
            Answer::Failed(words) => self.fail(Fault::FetchThroughJosh(words)),
        }
    }

    /// The root commits were counted.
    pub open spec fn after_roots_before(self, reply: ReplyView) -> Moved {
        match reply {
            Answer::Done(printed) => match root_count(printed) {
                Ok(n) => PullView { roots_before: n, ..self }.ask_head(PullPhase::PreMerge),
                Err(fault) => self.fail(fault),
            },
            Answer::Failed(words) => self.fail(Fault::CountRoots(words)),
        }
    }

    /// The head before the merge was asked for.
    pub open spec fn after_pre_merge(self, reply: ReplyView) -> Moved {
        match reply {
            Answer::Done(head) => PullView { pre_merge: head, ..self }.run(
                PullPhase::Incoming,
                rev_parse("FETCH_HEAD"@),
            ),
            Answer::Failed(words) => self.fail(Fault::Step(words)),
        }
    }

    /// The filtered commit was asked for; it is merged.
    pub open spec fn after_incoming(self, reply: ReplyView) -> Moved {
        match reply {
            Answer::Done(incoming) => {
                let message = merge_text(self.sync.config, self.upstream_repo, self.upstream_sha, incoming);
                (
                    PullView { phase: PullPhase::Merge, message, ..self },
                    StepView::act(
                        Deed::Stream { line: merge(message), verbose: self.sync.verbose },
                    ).out("incoming ref: "@ + incoming),
                )
            },
            Answer::Failed(words) => self.fail(Fault::Step(words)),
        }
    }

    /// The merge was tried; where it stopped, the tree is left for the user to look at.
    pub open spec fn after_merge(self, reply: ReplyView) -> Moved {
        match reply {
            Answer::Done(_) => self.ask_head(PullPhase::MergedHead),
            Answer::Failed(words) => {
                let (next, step) = self.disarmed().fail(Fault::Merge(words));
                (next, step.err(MERGE_STOPPED@).err(NO_REBASE_WARN@))
            },
        }
    }

    /// The head after the merge was asked for; without a merge there is nothing to pull.
    pub open spec fn after_merged_head(self, reply: ReplyView) -> Moved {
        match reply {
            Answer::Done(head) => if head == self.pre_merge && !self.allow_noop {
                let (next, step) = self.end(Err(PullFault::NothingToPull));
                (next, step.err("No merge was performed, no changes to pull were found. Rolling back."@))
            } else {
                PullView { current: head, ..self }.run(PullPhase::Diff, diff_against(self.pre_merge))
            },
            Answer::Failed(words) => self.fail(Fault::Step(words)),
        }
    }

    /// The trees were compared; without a difference there is nothing to pull.
    pub open spec fn after_diff(self, reply: ReplyView) -> Moved {
        if reply is Done && !self.allow_noop {
            let (next, step) = self.end(Err(PullFault::NothingToPull));
            (next, step.err("Only empty changes were pulled. Rolling back."@))
        } else {
            let (next, step) = self.next_operation(0);
            let step = step.out("Pull finished! Current HEAD is "@ + self.current).out(NO_REBASE_WARN@);
            if self.sync.config.post_pull.len() > 0 {
                (next, step.out("Running post-pull operation(s)"@))
            } else {
                (next, step)
            }
        }
    }

    /// The post-pull operations before `operation` are done; after the last, the guard is taken
    /// off and the root commits are counted again.
    pub open spec fn next_operation(self, operation: nat) -> Moved {
        let next = PullView { operation, ..self };
        if operation < self.sync.config.post_pull.len() {
            next.ask_head(PullPhase::OperationHead)
        } else {
            next.disarmed().run(PullPhase::RootsAfter, count_roots())
        }
    }

    /// The head before a post-pull operation was asked for.
    pub open spec fn after_operation_head(self, reply: ReplyView) -> Moved {
        match reply {
            Answer::Done(head) => (
                PullView { phase: PullPhase::OperationRun, operation_head: head, ..self },
                StepView::run(self.sync.config.post_pull[self.operation as int].cmd, true),
            ),
            Answer::Failed(words) => self.fail(Fault::Step(words)),
        }
    }

    /// The command of a post-pull operation was run.
    pub open spec fn after_operation_run(self, reply: ReplyView) -> Moved {
        match reply {
            Answer::Done(_) => self.run(PullPhase::OperationDiff, diff_against(self.operation_head)),
            Answer::Failed(words) => self.fail(Fault::Step(words)),
        }
    }

    /// The trees before and after a post-pull operation were compared.
    pub open spec fn after_operation_diff(self, reply: ReplyView) -> Moved {
        match reply {
            Answer::Done(_) => self.next_operation(self.operation + 1),
            Answer::Failed(_) => {
                let operation = self.sync.config.post_pull[self.operation as int];
                let (next, step) = self.run(PullPhase::OperationAdd, add_changes());
                (next, step.out(changed_text(operation.cmd, operation.commit_message)))
            },
        }
    }

    /// The changes of a post-pull operation were staged.
    pub open spec fn after_operation_add(self, reply: ReplyView) -> Moved {
        match reply {
            Answer::Done(_) => self.run(
                PullPhase::OperationCommit,
                commit(self.sync.config.post_pull[self.operation as int].commit_message),
            ),
            Answer::Failed(words) => self.fail(Fault::Step(words)),
        }
    }

    /// The changes of a post-pull operation were committed.
    pub open spec fn after_operation_commit(self, reply: ReplyView) -> Moved {
        match reply {
            Answer::Done(_) => self.next_operation(self.operation + 1),
            Answer::Failed(words) => self.fail(Fault::Step(words)),
        }
    }

    /// The root commits were counted again; there must not be a new one.
    pub open spec fn after_roots_after(self, reply: ReplyView) -> Moved {
        match reply {
            Answer::Done(printed) => match root_count(printed) {
                Ok(n) => if n != self.roots_before {
                    self.fail(Fault::NewRootCommit)
                } else {
                    self.record()
                },
                Err(fault) => self.fail(fault),
            },
            Answer::Failed(words) => self.fail(Fault::CountRoots(words)),
        }
    }

    /// Everything is done but for the record of the commit that was pulled, where one is kept.
    pub open spec fn record(self) -> Moved {
        match self.sync.last_upstream_sha_path {
            Some(path) => (
                PullView { phase: PullPhase::Record, ..self },
                StepView::act(Deed::Record { path, sha: self.upstream_sha }),
            ),
            None => self.end(Ok(self.message)),
        }
    }

    /// The commit that was pulled was recorded.
    pub open spec fn after_record(self, reply: ReplyView) -> Moved {
        match reply {
            Answer::Done(_) => self.end(Ok(self.message)),
            Answer::Failed(words) => self.fail(Fault::WriteRustVersion(words)),
        }
    }

    /// The guard is taken off: HEAD stays where it is.
    pub open spec fn disarmed(self) -> PullView {
        PullView {
            guard: match self.guard {
                Some(guard) => Some(GuardView { disarmed: true, ..guard }),
                None => None,
            },
            ..self
        }
    }

    /// The pull after an answer to what it is waiting for, and what comes next.
    pub open spec fn next(self, reply: ReplyView) -> Moved {
        match self.phase {
            PullPhase::Upstream => self.after_upstream(reply),
            PullPhase::Clean => self.after_clean(reply),
            PullPhase::Proxy => self.after_proxy(reply),
            PullPhase::Url => self.after_url(reply),
            PullPhase::OriginalHead => self.after_original_head(reply),
            PullPhase::Fetch => self.after_fetch(reply),
            PullPhase::RootsBefore => self.after_roots_before(reply),
            PullPhase::PreMerge => self.after_pre_merge(reply),
            PullPhase::Incoming => self.after_incoming(reply),
            PullPhase::Merge => self.after_merge(reply),
            PullPhase::MergedHead => self.after_merged_head(reply),
            PullPhase::Diff => self.after_diff(reply),
            PullPhase::OperationHead => self.after_operation_head(reply),
            PullPhase::OperationRun => self.after_operation_run(reply),
            PullPhase::OperationDiff => self.after_operation_diff(reply),
            PullPhase::OperationAdd => self.after_operation_add(reply),
            PullPhase::OperationCommit => self.after_operation_commit(reply),
            PullPhase::RootsAfter => self.after_roots_after(reply),
            PullPhase::Record => self.after_record(reply),
            PullPhase::Over => (self, StepView::end()),
        }
    }

    /// Whether the pull can go on after an answer: it is not over; the configuration gives the
    /// filter in exactly one way when the filter is made, and the upstream commit has a short
    /// form when the message of the merge is made.
    pub open spec fn takes(self, reply: ReplyView) -> bool {
        &&& self.phase != PullPhase::Over
        &&& self.phase == PullPhase::Proxy && reply is Done ==> self.sync.config.valid()
        &&& self.phase == PullPhase::Incoming && reply is Done ==> has_short_form(self.upstream_sha)
    }

    /// While a post-pull operation is under way, it is one of those that are configured.
    pub open spec fn wf(self) -> bool {
        self.phase == PullPhase::OperationHead || self.phase == PullPhase::OperationRun || self.phase
            == PullPhase::OperationDiff || self.phase == PullPhase::OperationAdd || self.phase
            == PullPhase::OperationCommit ==> self.operation < self.sync.config.post_pull.len()
    }
}

/// `start` followed by `text`.
fn with(start: &str, text: &str) -> (out: String)
    ensures
        out@ == start@ + text@,
{
    let mut out = start.to_owned();
    out.append(text);
    out
}

impl<'a> PullRun<'a> {
    /// The end.
    fn end(&mut self, end: Result<PullResult, RustcPullError>) -> (step: Step)
        ensures
            (final(self)@, step@) == old(self)@.end(end_view(end)),
    {
        self.phase = PullPhase::Over;
        self.outcome = Some(end);
        Step::end()
    }

    /// The end in a failure.
    fn fail(&mut self, fault: SyncError) -> (step: Step)
        ensures
            (final(self)@, step@) == old(self)@.fail(fault@),
    {
        self.end(Err(RustcPullError::from(fault)))
    }

    /// A command is run.
    fn run(&mut self, phase: PullPhase, line: Vec<String>) -> (step: Step)
        ensures
            (final(self)@, step@) == old(self)@.run(phase, words(line@)),
    {
        self.phase = phase;
        Step::run(line, self.sync.verbose())
    }

    /// The commit that is checked out is asked for.
    fn ask_head(&mut self, phase: PullPhase) -> (step: Step)
        ensures
            (final(self)@, step@) == old(self)@.ask_head(phase),
    {
        self.phase = phase;
        Step::act(Deed::CurrentHead { verbose: self.sync.verbose() })
    }

    /// The guard is taken off: HEAD stays where it is.
    fn disarm(&mut self)
        ensures
            final(self)@ == old(self)@.disarmed(),
    {
        if let Some(guard) = &mut self.guard {
            guard.disarm();
        }
    }

    /// The upstream commit is known.
    fn with_upstream(&mut self, sha: String) -> (step: Step)
        ensures
            (final(self)@, step@) == old(self)@.with_upstream(sha@),
    {
        self.phase = PullPhase::Clean;
        self.upstream_sha = sha;
        Step::act(Deed::EnsureClean { verbose: self.sync.verbose() })
    }

    fn after_upstream(&mut self, reply: Reply) -> (step: Step)
        ensures
            (final(self)@, step@) == old(self)@.after_upstream(reply@),
    {
        match reply {
            Answer::Done(printed) => match first_word(printed.as_str()) {
                Some(sha) => self.with_upstream(sha),
                None => self.fail(Fault::BranchNotAdvertised),
            },
            Answer::Failed(words) => self.fail(Fault::FetchUpstreamCommit(words)),
        }
    }

    fn after_clean(&mut self, reply: Reply) -> (step: Step)
        ensures
            (final(self)@, step@) == old(self)@.after_clean(reply@),
    {
        match reply {
            Answer::Done(_) => {
                self.phase = PullPhase::Proxy;
                Step::act(
                    Deed::StartProxy {
                        proxy: self.sync.proxy().duplicate(),
                        remote: self.sync.config().github_url.clone(),
                    },
                )
            },
            Answer::Failed(words) => self.fail(Fault::Step(words)),
        }
    }

    fn after_proxy(&mut self, reply: Reply) -> (step: Step)
        requires
            reply@ is Done ==> old(self)@.sync.config.valid(),
        ensures
            (final(self)@, step@) == old(self)@.after_proxy(reply@),
    {
        match reply {
            Answer::Done(_) => {
                self.phase = PullPhase::Url;
                Step::act(
                    Deed::ProxyUrl {
                        repo: self.upstream_repo.clone(),
                        commit: Some(self.upstream_sha.clone()),
                        filter: construct_josh_filter(self.sync.config()),
                    },
                )
            },
            Answer::Failed(words) => self.fail(Fault::StartProxy(words)),
        }
    }

    fn after_url(&mut self, reply: Reply) -> (step: Step)
        ensures
            (final(self)@, step@) == old(self)@.after_url(reply@),
    {
        match reply {
            Answer::Done(url) => {
                self.josh_url = url;
                self.ask_head(PullPhase::OriginalHead)
            },
            Answer::Failed(words) => self.fail(Fault::Step(words)),
        }
    }

    fn after_original_head(&mut self, reply: Reply) -> (step: Step)
        ensures
            (final(self)@, step@) == old(self)@.after_original_head(reply@),
    {
        match reply {
            Answer::Done(head) => {
                let base = with("new upstream base: ", self.upstream_sha.as_str());
                let original = with("original local HEAD: ", head.as_str());
                self.guard = Some(GitResetOnDrop::new(head, self.sync.verbose()));
                let line = fetch_line(self.josh_url.as_str());
                self.run(PullPhase::Fetch, line).out(base).out(original)
            },
            Answer::Failed(words) => self.fail(Fault::Step(words)),
        }
    }

    fn after_fetch(&mut self, reply: Reply) -> (step: Step)
        ensures
            (final(self)@, step@) == old(self)@.after_fetch(reply@),
    {
        match reply {
            Answer::Done(_) => self.run(PullPhase::RootsBefore, count_roots_line()),
            Answer::Failed(words) => self.fail(Fault::FetchThroughJosh(words)),
        }
    }

    fn after_roots_before(&mut self, reply: Reply) -> (step: Step)
        ensures
            (final(self)@, step@) == old(self)@.after_roots_before(reply@),
    {
        match reply {
            Answer::Done(printed) => match read_root_count(printed.as_str()) {
                Ok(n) => {
                    self.roots_before = n;
                    self.ask_head(PullPhase::PreMerge)
                },
                Err(fault) => self.fail(fault),
            },
            Answer::Failed(words) => self.fail(Fault::CountRoots(words)),
        }
    }

    fn after_pre_merge(&mut self, reply: Reply) -> (step: Step)
        ensures
            (final(self)@, step@) == old(self)@.after_pre_merge(reply@),
    {
        match reply {
            Answer::Done(head) => {
                self.pre_merge = head;
                self.run(PullPhase::Incoming, rev_parse_line("FETCH_HEAD"))
            },
            Answer::Failed(words) => self.fail(Fault::Step(words)),
        }
    }

    fn after_incoming(&mut self, reply: Reply) -> (step: Step)
        requires
            reply@ is Done ==> has_short_form(old(self)@.upstream_sha),
        ensures
            (final(self)@, step@) == old(self)@.after_incoming(reply@),
    {
        match reply {
            Answer::Done(incoming) => {
                self.message = merge_message(
                    self.sync.config(),
                    self.upstream_repo.as_str(),
                    self.upstream_sha.as_str(),
                    incoming.as_str(),
                );
                self.phase = PullPhase::Merge;
                Step::act(
                    Deed::Stream { line: merge_line(self.message.as_str()), verbose: self.sync.verbose() },
                ).out(with("incoming ref: ", incoming.as_str()))
            },
            Answer::Failed(words) => self.fail(Fault::Step(words)),
        }
    }

    fn after_merge(&mut self, reply: Reply) -> (step: Step)
        ensures
            (final(self)@, step@) == old(self)@.after_merge(reply@),
    {
        match reply {
            Answer::Done(_) => self.ask_head(PullPhase::MergedHead),
            Answer::Failed(words) => {
                self.disarm();
                self.fail(Fault::Merge(words)).err(MERGE_STOPPED.to_owned()).err(NO_REBASE_WARN.to_owned())
            },
        }
    }

    fn after_merged_head(&mut self, reply: Reply) -> (step: Step)
        ensures
            (final(self)@, step@) == old(self)@.after_merged_head(reply@),
    {
        match reply {
            Answer::Done(head) => {
                if head == self.pre_merge && !self.allow_noop {
                    self.end(Err(RustcPullError::NothingToPull)).err(
                        "No merge was performed, no changes to pull were found. Rolling back.".to_owned(),
                    )
                } else {
                    self.current = head;
                    self.phase = PullPhase::Diff;
                    self.sync.has_empty_diff(self.pre_merge.as_str())
                }
            },
            Answer::Failed(words) => self.fail(Fault::Step(words)),
        }
    }

    fn after_diff(&mut self, reply: Reply) -> (step: Step)
        ensures
            (final(self)@, step@) == old(self)@.after_diff(reply@),
    {
        let empty = match reply {
            Answer::Done(_) => true,
            Answer::Failed(_) => false,
        };
        if empty && !self.allow_noop {
            return self.end(Err(RustcPullError::NothingToPull)).err(
                "Only empty changes were pulled. Rolling back.".to_owned(),
            );
        }
        let finished = with("Pull finished! Current HEAD is ", self.current.as_str());
        let step = self.next_operation(0).out(finished).out(NO_REBASE_WARN.to_owned());
        if self.sync.config().post_pull.len() > 0 {
            step.out("Running post-pull operation(s)".to_owned())
        } else {
            step
        }
    }

    /// The post-pull operations before `operation` are done.
    fn next_operation(&mut self, operation: usize) -> (step: Step)
        ensures
            (final(self)@, step@) == old(self)@.next_operation(operation as nat),
    {
        self.operation = operation;
        if operation < self.sync.config().post_pull.len() {
            self.ask_head(PullPhase::OperationHead)
        } else {
            self.disarm();
            self.run(PullPhase::RootsAfter, count_roots_line())
        }
    }

    /// The post-pull operation that is under way.
    fn current_operation(&self) -> (operation: &PostPullOperation)
        requires
            self@.operation < self@.sync.config.post_pull.len(),
        ensures
            operation@ == self@.sync.config.post_pull[self@.operation as int],
    {
        &self.sync.config().post_pull[self.operation]
    }

    fn after_operation_head(&mut self, reply: Reply) -> (step: Step)
        requires
            old(self)@.operation < old(self)@.sync.config.post_pull.len(),
        ensures
            (final(self)@, step@) == old(self)@.after_operation_head(reply@),
    {
        match reply {
            Answer::Done(head) => {
                self.phase = PullPhase::OperationRun;
                self.operation_head = head;
                Step::run(copy_all(&self.current_operation().cmd), true)
            },
            Answer::Failed(words) => self.fail(Fault::Step(words)),
        }
    }

    fn after_operation_run(&mut self, reply: Reply) -> (step: Step)
        ensures
            (final(self)@, step@) == old(self)@.after_operation_run(reply@),
    {
        match reply {
            Answer::Done(_) => {
                self.phase = PullPhase::OperationDiff;
                self.sync.has_empty_diff(self.operation_head.as_str())
            },
            Answer::Failed(words) => self.fail(Fault::Step(words)),
        }
    }

    fn after_operation_diff(&mut self, reply: Reply) -> (step: Step)
        requires
            old(self)@.operation < old(self)@.sync.config.post_pull.len(),
        ensures
            (final(self)@, step@) == old(self)@.after_operation_diff(reply@),
    {
        match reply {
            Answer::Done(_) => {
                let next: usize = self.operation_after();
                self.next_operation(next)
            },
            Answer::Failed(_) => {
                let operation = self.current_operation();
                let mut changed = with("`", join(&operation.cmd, " ").as_str());
                changed.append("` changed something, committing with message `");
                changed.append(operation.commit_message.as_str());
                changed.append("`");
                self.run(PullPhase::OperationAdd, add_changes_line()).out(changed)
            },
        }
    }

    /// The number of the next post-pull operation.
    fn operation_after(&self) -> (n: usize)
        requires
            self@.operation < self@.sync.config.post_pull.len(),
        ensures
            n == self@.operation + 1,
    {
        let len: usize = self.sync.config().post_pull.len();
        assert(self.operation < len);
        self.operation + 1
    }

    fn after_operation_add(&mut self, reply: Reply) -> (step: Step)
        requires
            old(self)@.operation < old(self)@.sync.config.post_pull.len(),
        ensures
            (final(self)@, step@) == old(self)@.after_operation_add(reply@),
    {
        match reply {
            Answer::Done(_) => {
                let line = commit_line(self.current_operation().commit_message.as_str());
                self.run(PullPhase::OperationCommit, line)
            },
            Answer::Failed(words) => self.fail(Fault::Step(words)),
        }
    }

    fn after_operation_commit(&mut self, reply: Reply) -> (step: Step)
        requires
            old(self)@.operation < old(self)@.sync.config.post_pull.len(),
        ensures
            (final(self)@, step@) == old(self)@.after_operation_commit(reply@),
    {
        match reply {
            Answer::Done(_) => {
                let next: usize = self.operation_after();
                self.next_operation(next)
            },
            Answer::Failed(words) => self.fail(Fault::Step(words)),
        }
    }

    fn after_roots_after(&mut self, reply: Reply) -> (step: Step)
        ensures
            (final(self)@, step@) == old(self)@.after_roots_after(reply@),
    {
        match reply {
            Answer::Done(printed) => match read_root_count(printed.as_str()) {
                Ok(n) => {
                    if n != self.roots_before {
                        self.fail(Fault::NewRootCommit)
                    } else {
                        self.record()
                    }
                },
                Err(fault) => self.fail(fault),
            },
            Answer::Failed(words) => self.fail(Fault::CountRoots(words)),
        }
    }

    /// Everything is done but for the record of the commit that was pulled, where one is kept.
    fn record(&mut self) -> (step: Step)
        ensures
            (final(self)@, step@) == old(self)@.record(),
    {
        match self.sync.last_upstream_sha_path() {
            Some(path) => {
                self.phase = PullPhase::Record;
                Step::act(Deed::Record { path: path.clone(), sha: self.upstream_sha.clone() })
            },
            None => self.succeed(),
        }
    }

    /// The end of a pull that succeeded.
    fn succeed(&mut self) -> (step: Step)
        ensures
            (final(self)@, step@) == old(self)@.end(Ok(old(self)@.message)),
    {
        let merge_commit_message = self.message.clone();
        self.end(Ok(PullResult { merge_commit_message }))
    }

    fn after_record(&mut self, reply: Reply) -> (step: Step)
        ensures
            (final(self)@, step@) == old(self)@.after_record(reply@),
    {
        match reply {
            Answer::Done(_) => self.succeed(),
            Answer::Failed(words) => self.fail(Fault::WriteRustVersion(words)),
        }
    }

    /// Whether the pull can go on after an answer.
    pub fn takes(&self, reply: &Reply) -> (r: bool)
        ensures
            r == self@.takes(reply@),
    {
        match (self.phase, reply) {
            (PullPhase::Over, _) => false,
            (PullPhase::Proxy, Answer::Done(_)) => self.sync.config().validate().is_ok(),
            (PullPhase::Incoming, Answer::Done(_)) => self.upstream_sha.as_str().is_char_boundary(12),
            _ => true,
        }
    }

    /// Takes the answer to what the pull is waiting for, and says what comes next.
    pub fn step(&mut self, reply: Reply) -> (step: Step)
        requires
            old(self)@.wf(),
            old(self)@.takes(reply@),
        ensures
            (final(self)@, step@) == old(self)@.next(reply@),
            final(self)@.wf(),
    {
        match self.phase {
            PullPhase::Upstream => self.after_upstream(reply),
            PullPhase::Clean => self.after_clean(reply),
            PullPhase::Proxy => self.after_proxy(reply),
            PullPhase::Url => self.after_url(reply),
            PullPhase::OriginalHead => self.after_original_head(reply),
            PullPhase::Fetch => self.after_fetch(reply),
            PullPhase::RootsBefore => self.after_roots_before(reply),
            PullPhase::PreMerge => self.after_pre_merge(reply),
            PullPhase::Incoming => self.after_incoming(reply),
            PullPhase::Merge => self.after_merge(reply),
            PullPhase::MergedHead => self.after_merged_head(reply),
            PullPhase::Diff => self.after_diff(reply),
            PullPhase::OperationHead => self.after_operation_head(reply),
            PullPhase::OperationRun => self.after_operation_run(reply),
            PullPhase::OperationDiff => self.after_operation_diff(reply),
            PullPhase::OperationAdd => self.after_operation_add(reply),
            PullPhase::OperationCommit => self.after_operation_commit(reply),
            PullPhase::RootsAfter => self.after_roots_after(reply),
            PullPhase::Record => self.after_record(reply),
            PullPhase::Over => Step::end(),
        }
    }

    /// How the pull ended; nothing while it is under way.
    pub fn outcome(&self) -> (outcome: &Option<Result<PullResult, RustcPullError>>)
        ensures
            match *outcome {
                Some(end) => self@.outcome == Some(end_view(end)),
                None => self@.outcome is None,
            },
    {
        &self.outcome
    }

    /// The guard that puts HEAD back when it is dropped; there is none before HEAD is known.
    pub fn guard(&self) -> (guard: &Option<GitResetOnDrop>)
        ensures
            match *guard {
                Some(guard) => self@.guard == Some(guard@),
                None => self@.guard is None,
            },
    {
        &self.guard
    }
}

impl GitSync {
    /// Starts a pull of `upstream_commit`, or of the upstream branch where no commit is given,
    /// from `upstream_repo`, and says what comes first.
    pub fn rustc_pull(
        &self,
        upstream_repo: String,
        upstream_commit: Option<String>,
        allow_noop: bool,
    ) -> (out: (PullRun<'_>, Step))
        ensures
            (out.0@, out.1@) == PullView::start(self@, upstream_repo@, maybe(upstream_commit), allow_noop),
            out.0@.wf(),
    {
        let mut run = PullRun {
            sync: self,
            upstream_repo,
            allow_noop,
            phase: PullPhase::Upstream,
            upstream_sha: String::new(),
            josh_url: String::new(),
            guard: None,
            roots_before: 0,
            pre_merge: String::new(),
            current: String::new(),
            message: String::new(),
            operation: 0,
            operation_head: String::new(),
            outcome: None,
        };
        let step = match upstream_commit {
            Some(sha) => run.with_upstream(sha),
            None => {
                let url = self.config().git_url(run.upstream_repo.as_str());
                let name = full_ref_of(self.config().upstream_branch.as_str());
                Step::run(ls_remote_line(url.as_str(), name.as_str()), self.verbose())
            },
        };
        (run, step)
    }
}

/// The message of a merge names the upstream commit, in short and in full, the repository that it
/// comes from, and the filtered commit of the mirror.
pub proof fn law_merge_message(config: ConfigView, repo: Seq<char>, sha: Seq<char>, incoming: Seq<char>)
    ensures
        merge_text(config, repo, sha, incoming) == "Merge ref '"@ + short_form(sha) + "' from "@ + repo
            + "\n\nPull recent changes from https://github.com/"@ + repo + " via Josh.\n\nUpstream ref: "@ + repo
            + "@"@ + sha + "\nFiltered ref: "@ + config.org + "/"@ + config.repo + "@"@ + incoming
            + "\n\nThis merge was created using https://github.com/rust-lang/josh-sync.\n"@,
        MERGE_STOPPED@
            == "The merge was unsuccessful (maybe there was a conflict?).\nNOT rolling back the branch state, so you can examine it manually.\nAfter you fix the conflicts, `git add` the changes and run `git merge --continue`."@,
{
}

/// A count of root commits is taken where it is a number that fits.
pub proof fn law_root_count(printed: Seq<char>)
    ensures
        decimal(printed) matches Some(n) && n <= u32::MAX ==> root_count(printed) == Ok::<u32, Fault<Seq<char>>>(
            decimal(printed)->0 as u32,
        ),
        !(decimal(printed) matches Some(n) && n <= u32::MAX) ==> root_count(printed) == Err::<u32, Fault<Seq<char>>>(
            Fault::RootCount(parse_complaint(printed)),
        ),
{
}

/// The end of a pull is seen as it is.
pub proof fn law_end_of_pull_is_seen(result: PullResult, error: RustcPullError, fault: SyncError)
    ensures
        end_view(Ok(result)) == Ok::<Seq<char>, PullFault>(result.merge_commit_message@),
        end_view(Err(error)) == Err::<Seq<char>, PullFault>(error@),
        RustcPullError::NothingToPull@ == PullFault::NothingToPull,
        RustcPullError::PullFailed(fault)@ == PullFault::PullFailed(fault@),
{
}

} // verus!
