//! A push: changes of the mirror are offered to the upstream repository, as a new branch.
use crate::error::{Fault, SyncError};
use crate::filter::construct_josh_filter;
use crate::git::{
    branch_ref, branch_ref_of, changed_files, changed_files_line, check_branch, check_branch_line, fetch_ref,
    fetch_ref_line, full_ref, full_ref_of, ls_heads, ls_heads_line, merge_base, merge_base_line, push_new,
    push_new_line, rev_parse, rev_parse_line,
};
use crate::step::{Answer, Deed, Reply, ReplyView, Step, StepView};
use crate::sync::{GitSync, PushResult, SyncView, NO_REBASE_WARN};
use crate::text::{maybe, words};
use vstd::prelude::*;

verus! {

/// What a push is waiting for.
#[derive(Debug, Copy, Clone, PartialEq, Eq, Structural)]
pub enum PushPhase {
    /// That the checkout has no changes.
    Clean,
    /// That the name of the branch can name a branch.
    BranchName,
    /// The Josh proxy.
    Proxy,
    /// The URL of the filtered repository that is pushed to.
    Url,
    /// The fetch of the filtered upstream branch.
    Fetch,
    /// The path of `josh-filter`.
    FindFilter,
    /// The installation of `josh-filter`.
    InstallFilter,
    /// The run of `josh-filter`.
    RunFilter,
    /// The filtered local head.
    FilteredHead,
    /// The local head, where it is not filtered.
    CurrentHead,
    /// The commit where the mirror and the upstream branch parted.
    MergeBase,
    /// The files that changed since then.
    Changes,
    /// Whether the branch is there already.
    Existing,
    /// The push itself.
    Push,
    /// The fetch of what was pushed.
    FetchBack,
    /// The commit that came back.
    FetchedHead,
    /// Nothing: the push is over.
    Over,
}

/// A push under way.
pub struct PushRun<'a> {
    sync: &'a GitSync,
    username: String,
    branch: String,
    inside_ci: bool,
    upstream_checkout: Option<String>,
    phase: PushPhase,
    push_repo: String,
    josh_url: String,
    pushed: bool,
    local_head: String,
    outcome: Option<Result<PushResult, SyncError>>,
}

/// How a push ended.
pub type PushEnd = Result<PushResult, Fault<Seq<char>>>;

/// The texts of a `PushRun`.
pub struct PushView {
    /// The mirror.
    pub sync: SyncView,
    /// The user who pushes.
    pub username: Seq<char>,
    /// The branch that is to be created.
    pub branch: Seq<char>,
    /// Whether this is a CI job.
    pub inside_ci: bool,
    /// The checkout in which the upstream repository is asked, where it is another one.
    pub upstream_checkout: Option<Seq<char>>,
    /// What the push is waiting for.
    pub phase: PushPhase,
    /// The repository that is pushed to.
    pub push_repo: Seq<char>,
    /// Its URL, seen through the filter.
    pub josh_url: Seq<char>,
    /// Whether the push itself is done.
    pub pushed: bool,
    /// The local head, filtered where that is configured.
    pub local_head: Seq<char>,
    /// How the push ended.
    pub outcome: Option<PushEnd>,
}

/// The texts of what a push ended with.
pub open spec fn push_end_view(end: Result<PushResult, SyncError>) -> PushEnd {
    match end {
        Ok(result) => Ok(result),
        Err(fault) => Err(fault@),
    }
}

impl<'a> View for PushRun<'a> {
    type V = PushView;

    closed spec fn view(&self) -> PushView {
        PushView {
            sync: self.sync@,
            username: self.username@,
            branch: self.branch@,
            inside_ci: self.inside_ci,
            upstream_checkout: maybe(self.upstream_checkout),
            phase: self.phase,
            push_repo: self.push_repo@,
            josh_url: self.josh_url@,
            pushed: self.pushed,
            local_head: self.local_head@,
            outcome: match self.outcome {
                Some(end) => Some(push_end_view(end)),
                None => None,
            },
        }
    }
}

/// A push after an answer, and what comes next.
pub type Moved = (PushView, StepView);

impl PushView {
    /// A push that is about to start, and what comes first: the checkout must have no changes.
    pub open spec fn start(
        sync: SyncView,
        username: Seq<char>,
        branch: Seq<char>,
        inside_ci: bool,
        upstream_checkout: Option<Seq<char>>,
    ) -> Moved {
        let none = Seq::<char>::empty();
        (
            PushView {
                sync,
                username,
                branch,
                inside_ci,
                upstream_checkout,
                phase: PushPhase::Clean,
                push_repo: none,
                josh_url: none,
                pushed: false,
                local_head: none,
                outcome: None,
            },
            StepView::act(Deed::EnsureClean { verbose: sync.verbose }),
        )
    }

    /// The end.
    pub open spec fn end(self, end: PushEnd) -> Moved {
        (PushView { phase: PushPhase::Over, outcome: Some(end), ..self }, StepView::end())
    }

    /// The end in a failure.
    pub open spec fn fail(self, fault: Fault<Seq<char>>) -> Moved {
        self.end(Err(fault))
    }

    /// A command is run.
    pub open spec fn run(self, phase: PushPhase, line: Seq<Seq<char>>) -> Moved {
        (PushView { phase, ..self }, StepView::run(line, self.sync.verbose))
    }

    /// Something else is done.
    pub open spec fn act(self, phase: PushPhase, action: crate::step::ActionView) -> Moved {
        (PushView { phase, ..self }, StepView::act(action))
    }

    /// A command that asks the upstream repository: it is run in the upstream checkout where there
    /// is one.
    pub open spec fn upstream_command(self, line: Seq<Seq<char>>) -> crate::step::ActionView {
        match self.upstream_checkout {
            Some(dir) => Deed::RunIn { dir, line, verbose: self.sync.verbose },
            None => Deed::Run { line, verbose: self.sync.verbose },
        }
    }

    /// The full name of the upstream branch.
    pub open spec fn base(self) -> Seq<char> {
        full_ref(self.sync.config.upstream_branch)
    }

    /// The checkout was looked at.
    pub open spec fn after_clean(self, reply: ReplyView) -> Moved {
        match reply {
            Answer::Done(_) => self.run(PushPhase::BranchName, check_branch(self.branch)),
            Answer::Failed(words) => self.fail(Fault::Step(words)),
        }
    }

    /// The name of the branch was checked; the repository to push to must be known.
    pub open spec fn after_branch_name(self, reply: ReplyView) -> Moved {
        match reply {
            Answer::Done(_) => match self.sync.config.push_target(self.username) {
                Ok(push_repo) => PushView { push_repo, ..self }.act(
                    PushPhase::Proxy,
                    Deed::StartProxy { proxy: self.sync.proxy, remote: self.sync.config.github_url },
                ),
                Err(fault) => self.fail(fault),
            },
            Answer::Failed(words) => self.fail(Fault::Step(words)),
        }
    }

    /// The proxy was started.
    pub open spec fn after_proxy(self, reply: ReplyView) -> Moved {
        match reply {
            Answer::Done(_) => self.act(
                PushPhase::Url,
                Deed::ProxyUrl {
                    repo: self.push_repo,
                    commit: None,
                    filter: self.sync.config.josh_filter(),
                },
            ),
            Answer::Failed(words) => self.fail(Fault::Step(words)),
        }
    }

    /// The proxy was asked for the URL.
    pub open spec fn after_url(self, reply: ReplyView) -> Moved {
        match reply {
            Answer::Done(url) => PushView { josh_url: url, ..self }.run(
                PushPhase::Fetch,
                fetch_ref(url, self.base()),
            ),
            Answer::Failed(words) => self.fail(Fault::Step(words)),
        }
    }

    /// The filtered upstream branch was fetched.
    pub open spec fn after_fetch(self, reply: ReplyView) -> Moved {
        match reply {
            Answer::Done(_) => self.ask_local_head(),
            Answer::Failed(words) => self.fail(Fault::Step(words)),
        }
    }

    /// The local head is asked for, through the subtree filter where one is configured.
    pub open spec fn ask_local_head(self) -> Moved {
        match self.sync.config.subtree_filter {
            Some(_) => self.act(PushPhase::FindFilter, Deed::Find { program: "josh-filter"@ }),
            None => self.act(
                PushPhase::CurrentHead,
                Deed::CurrentHead { verbose: self.sync.verbose },
            ),
        }
    }

    /// `josh-filter` is there, at `program`, and is run on the local head.
    pub open spec fn run_filter(self, program: Seq<char>) -> Moved {
        self.act(
            PushPhase::RunFilter,
            Deed::RunFilter {
                program,
                line: seq![self.sync.config.subtree_filter->0, "HEAD"@],
                verbose: self.sync.verbose,
            },
        )
    }

    /// `josh-filter` was looked for; where it is not on the path it is installed, but neither in
    /// CI nor beside a proxy that somebody else runs.
    pub open spec fn after_find_filter(self, reply: ReplyView) -> Moved {
        match reply {
            Answer::Done(program) => self.run_filter(program),
            Answer::Failed(_) => if self.sync.proxy is External || self.inside_ci {
                self.fail(Fault::FilterNotProvisioned)
            } else {
                let (next, step) = self.act(
                    PushPhase::InstallFilter,
                    Deed::InstallFilter { verbose: self.sync.verbose },
                );
                (next, step.out("Updating/installing josh-filter binary..."@))
            },
        }
    }

    /// `josh-filter` was installed.
    pub open spec fn after_install_filter(self, reply: ReplyView) -> Moved {
        match reply {
            Answer::Done(program) => self.run_filter(program),
            Answer::Failed(_) => self.fail(Fault::FilterNotInstalled),
        }
    }

    /// `josh-filter` was run.
    pub open spec fn after_run_filter(self, reply: ReplyView) -> Moved {
        match reply {
            Answer::Done(_) => self.run(PushPhase::FilteredHead, rev_parse("FILTERED_HEAD"@)),
            Answer::Failed(words) => self.fail(Fault::Step(words)),
        }
    }

    /// The filtered local head was asked for.
    pub open spec fn after_filtered_head(self, reply: ReplyView) -> Moved {
        match reply {
            Answer::Done(head) => self.with_local_head(head),
            Answer::Failed(words) => self.fail(Fault::FilteredHead(words)),
        }
    }

    /// The local head was asked for.
    pub open spec fn after_current_head(self, reply: ReplyView) -> Moved {
        match reply {
            Answer::Done(head) => self.with_local_head(head),
            Answer::Failed(words) => self.fail(Fault::Step(words)),
        }
    }

    /// The local head is known: before the push it is compared with the upstream branch, after
    /// the push with what came back.
    pub open spec fn with_local_head(self, head: Seq<char>) -> Moved {
        let next = PushView { local_head: head, ..self };
        if self.pushed {
            next.run(PushPhase::FetchedHead, rev_parse("FETCH_HEAD"@))
        } else {
            next.run(PushPhase::MergeBase, merge_base(head))
        }
    }

    /// The commit where the histories parted was asked for.
    pub open spec fn after_merge_base(self, reply: ReplyView) -> Moved {
        match reply {
            Answer::Done(common) => self.run(PushPhase::Changes, changed_files(common, self.local_head)),
            Answer::Failed(words) => self.fail(Fault::Step(words)),
        }
    }

    /// The changed files were listed; without any there is nothing to push.
    pub open spec fn after_changes(self, reply: ReplyView) -> Moved {
        match reply {
            Answer::Done(changes) => if changes.len() == 0 {
                self.end(Ok(PushResult::NothingToPush))
            } else {
                self.act(
                    PushPhase::Existing,
                    self.upstream_command(
                        ls_heads(self.sync.config.url_of(self.push_repo), branch_ref(self.branch)),
                    ),
                )
            },
            Answer::Failed(words) => self.fail(Fault::Step(words)),
        }
    }

    /// The remote was asked for the branch, which must not be there.
    pub open spec fn after_existing(self, reply: ReplyView) -> Moved {
        match reply {
            Answer::Done(existing) => if existing.len() > 0 {
                self.fail(Fault::TargetBranchExists { repo: self.push_repo, branch: self.branch })
            } else {
                self.run(
                    PushPhase::Push,
                    push_new(self.base(), branch_ref(self.branch), self.josh_url),
                )
            },
            Answer::Failed(words) => self.fail(Fault::Step(words)),
        }
    }

    /// The branch was pushed; it is fetched back.
    pub open spec fn after_push(self, reply: ReplyView) -> Moved {
        match reply {
            Answer::Done(_) => PushView { pushed: true, ..self }.run(
                PushPhase::FetchBack,
                fetch_ref(self.josh_url, self.branch),
            ),
            Answer::Failed(words) => self.fail(Fault::Step(words)),
        }
    }

    /// What was pushed was fetched back.
    pub open spec fn after_fetch_back(self, reply: ReplyView) -> Moved {
        match reply {
            Answer::Done(_) => self.ask_local_head(),
            Answer::Failed(words) => self.fail(Fault::Step(words)),
        }
    }

    /// The commit that came back was asked for; it must be the local head.
    pub open spec fn after_fetched_head(self, reply: ReplyView) -> Moved {
        match reply {
            Answer::Done(head) => if head != self.local_head {
                self.fail(Fault::NotRoundTrip { expected: self.local_head, got: head })
            } else {
                let (next, step) = self.end(Ok(PushResult::Pushed));
                (next, step.out(confirmed_text(self.sync.config.repo)).out(NO_REBASE_WARN@))
            },
            Answer::Failed(words) => self.fail(Fault::Step(words)),
        }
    }

    /// The push after an answer to what it is waiting for, and what comes next.
    pub open spec fn next(self, reply: ReplyView) -> Moved {
        match self.phase {
            PushPhase::Clean => self.after_clean(reply),
            PushPhase::BranchName => self.after_branch_name(reply),
            PushPhase::Proxy => self.after_proxy(reply),
            PushPhase::Url => self.after_url(reply),
            PushPhase::Fetch => self.after_fetch(reply),
            PushPhase::FindFilter => self.after_find_filter(reply),
            PushPhase::InstallFilter => self.after_install_filter(reply),
            PushPhase::RunFilter => self.after_run_filter(reply),
            PushPhase::FilteredHead => self.after_filtered_head(reply),
            PushPhase::CurrentHead => self.after_current_head(reply),
            PushPhase::MergeBase => self.after_merge_base(reply),
            PushPhase::Changes => self.after_changes(reply),
            PushPhase::Existing => self.after_existing(reply),
            PushPhase::Push => self.after_push(reply),
            PushPhase::FetchBack => self.after_fetch_back(reply),
            PushPhase::FetchedHead => self.after_fetched_head(reply),
            PushPhase::Over => (self, StepView::end()),
        }
    }

    /// Whether the push can go on after an answer: it is not over, and the configuration gives
    /// the filter in exactly one way when the filter is made.
    pub open spec fn takes(self, reply: ReplyView) -> bool {
        &&& self.phase != PushPhase::Over
        &&& self.phase == PushPhase::Proxy && reply is Done ==> self.sync.config.valid()
    }

    /// While `josh-filter` is dealt with, there is a subtree filter.
    pub open spec fn wf(self) -> bool {
        self.phase == PushPhase::FindFilter || self.phase == PushPhase::InstallFilter
            ==> self.sync.config.subtree_filter is Some
    }
}

/// What the user is told of a push that comes back as it was meant.
pub open spec fn confirmed_text(repo: Seq<char>) -> Seq<char> {
    "Confirmed that the push round-trips back to "@ + repo + " properly. Please create an upstream PR."@
}

impl<'a> PushRun<'a> {
    /// The end.
    fn end(&mut self, end: Result<PushResult, SyncError>) -> (step: Step)
        ensures
            (final(self)@, step@) == old(self)@.end(push_end_view(end)),
    {
        self.phase = PushPhase::Over;
        self.outcome = Some(end);
        Step::end()
    }

    /// The end in a failure.
    fn fail(&mut self, fault: SyncError) -> (step: Step)
        ensures
            (final(self)@, step@) == old(self)@.fail(fault@),
    {
        self.end(Err(fault))
    }

    /// A command is run.
    fn run(&mut self, phase: PushPhase, line: Vec<String>) -> (step: Step)
        ensures
            (final(self)@, step@) == old(self)@.run(phase, words(line@)),
    {
        self.phase = phase;
        Step::run(line, self.sync.verbose())
    }

    /// Something else is done.
    fn act(&mut self, phase: PushPhase, action: crate::step::Action) -> (step: Step)
        ensures
            (final(self)@, step@) == old(self)@.act(phase, action@),
    {
        self.phase = phase;
        Step::act(action)
    }

    /// A command that asks the upstream repository.
    fn upstream_command(&self, line: Vec<String>) -> (action: crate::step::Action)
        ensures
            action@ == self@.upstream_command(words(line@)),
    {
        let verbose = self.sync.verbose();
        match &self.upstream_checkout {
            Some(dir) => Deed::RunIn { dir: dir.clone(), line, verbose },
            None => Deed::Run { line, verbose },
        }
    }

    /// The full name of the upstream branch.
    fn base(&self) -> (out: String)
        ensures
            out@ == self@.base(),
    {
        full_ref_of(self.sync.config().upstream_branch.as_str())
    }

    fn after_clean(&mut self, reply: Reply) -> (step: Step)
        ensures
            (final(self)@, step@) == old(self)@.after_clean(reply@),
    {
        match reply {
            Answer::Done(_) => {
                let line = check_branch_line(self.branch.as_str());
                self.run(PushPhase::BranchName, line)
            },
            Answer::Failed(words) => self.fail(Fault::Step(words)),
        }
    }

    fn after_branch_name(&mut self, reply: Reply) -> (step: Step)
        ensures
            (final(self)@, step@) == old(self)@.after_branch_name(reply@),
    {
        match reply {
            Answer::Done(_) => match self.sync.config().push_repo(self.username.as_str()) {
                Ok(push_repo) => {
                    self.push_repo = push_repo;
                    let proxy = self.sync.proxy().duplicate();
                    let remote = self.sync.config().github_url.clone();
                    self.act(PushPhase::Proxy, Deed::StartProxy { proxy, remote })
                },
                Err(fault) => self.fail(fault),
            },
            Answer::Failed(words) => self.fail(Fault::Step(words)),
        }
    }

    fn after_proxy(&mut self, reply: Reply) -> (step: Step)
        requires
            reply@ is Done ==> old(self)@.sync.config.valid(),
        ensures
            (final(self)@, step@) == old(self)@.after_proxy(reply@),
    {
        match reply {
            Answer::Done(_) => {
                let action = Deed::ProxyUrl {
                    repo: self.push_repo.clone(),
                    commit: None,
                    filter: construct_josh_filter(self.sync.config()),
                };
                self.act(PushPhase::Url, action)
            },
            Answer::Failed(words) => self.fail(Fault::Step(words)),
        }
    }

    fn after_url(&mut self, reply: Reply) -> (step: Step)
        ensures
            (final(self)@, step@) == old(self)@.after_url(reply@),
    {
        match reply {
            Answer::Done(url) => {
                let line = fetch_ref_line(url.as_str(), self.base().as_str());
                self.josh_url = url;
                self.run(PushPhase::Fetch, line)
            },
            Answer::Failed(words) => self.fail(Fault::Step(words)),
        }
    }

    fn after_fetch(&mut self, reply: Reply) -> (step: Step)
        ensures
            (final(self)@, step@) == old(self)@.after_fetch(reply@),
    {
        match reply {
            Answer::Done(_) => self.ask_local_head(),
            Answer::Failed(words) => self.fail(Fault::Step(words)),
        }
    }

    /// The local head is asked for, through the subtree filter where one is configured.
    fn ask_local_head(&mut self) -> (step: Step)
        ensures
            (final(self)@, step@) == old(self)@.ask_local_head(),
    {
        if self.sync.config().subtree_filter.is_some() {
            self.act(PushPhase::FindFilter, Deed::Find { program: "josh-filter".to_owned() })
        } else {
            let verbose = self.sync.verbose();
            self.act(PushPhase::CurrentHead, Deed::CurrentHead { verbose })
        }
    }

    /// `josh-filter` is there, at `program`, and is run on the local head.
    fn run_filter(&mut self, program: String) -> (step: Step)
        requires
            old(self)@.sync.config.subtree_filter is Some,
        ensures
            (final(self)@, step@) == old(self)@.run_filter(program@),
    {
        let filter = self.sync.config().subtree_filter.as_ref().unwrap();
        let line = vec![filter.clone(), "HEAD".to_owned()];
        assert(words(line@) =~= seq![filter@, "HEAD"@]);
        let verbose = self.sync.verbose();
        self.act(PushPhase::RunFilter, Deed::RunFilter { program, line, verbose })
    }

    fn after_find_filter(&mut self, reply: Reply) -> (step: Step)
        requires
            old(self)@.sync.config.subtree_filter is Some,
        ensures
            (final(self)@, step@) == old(self)@.after_find_filter(reply@),
    {
        match reply {
            Answer::Done(program) => self.run_filter(program),
            Answer::Failed(_) => {
                if self.sync.proxy().is_external() || self.inside_ci {
                    self.fail(Fault::FilterNotProvisioned)
                } else {
                    let verbose = self.sync.verbose();
                    self.act(PushPhase::InstallFilter, Deed::InstallFilter { verbose }).out(
                        "Updating/installing josh-filter binary...".to_owned(),
                    )
                }
            },
        }
    }

    fn after_install_filter(&mut self, reply: Reply) -> (step: Step)
        requires
            old(self)@.sync.config.subtree_filter is Some,
        ensures
            (final(self)@, step@) == old(self)@.after_install_filter(reply@),
    {
        match reply {
            Answer::Done(program) => self.run_filter(program),
            Answer::Failed(_) => self.fail(Fault::FilterNotInstalled),
        }
    }

    fn after_run_filter(&mut self, reply: Reply) -> (step: Step)
        ensures
            (final(self)@, step@) == old(self)@.after_run_filter(reply@),
    {
        match reply {
            Answer::Done(_) => self.run(PushPhase::FilteredHead, rev_parse_line("FILTERED_HEAD")),
            Answer::Failed(words) => self.fail(Fault::Step(words)),
        }
    }

    fn after_filtered_head(&mut self, reply: Reply) -> (step: Step)
        ensures
            (final(self)@, step@) == old(self)@.after_filtered_head(reply@),
    {
        match reply {
            Answer::Done(head) => self.with_local_head(head),
            Answer::Failed(words) => self.fail(Fault::FilteredHead(words)),
        }
    }

    fn after_current_head(&mut self, reply: Reply) -> (step: Step)
        ensures
            (final(self)@, step@) == old(self)@.after_current_head(reply@),
    {
        match reply {
            Answer::Done(head) => self.with_local_head(head),
            Answer::Failed(words) => self.fail(Fault::Step(words)),
        }
    }

    /// The local head is known.
    fn with_local_head(&mut self, head: String) -> (step: Step)
        ensures
            (final(self)@, step@) == old(self)@.with_local_head(head@),
    {
        self.local_head = head;
        if self.pushed {
            self.run(PushPhase::FetchedHead, rev_parse_line("FETCH_HEAD"))
        } else {
            let line = merge_base_line(self.local_head.as_str());
            self.run(PushPhase::MergeBase, line)
        }
    }

    fn after_merge_base(&mut self, reply: Reply) -> (step: Step)
        ensures
            (final(self)@, step@) == old(self)@.after_merge_base(reply@),
    {
        match reply {
            Answer::Done(common) => {
                let line = changed_files_line(common.as_str(), self.local_head.as_str());
                self.run(PushPhase::Changes, line)
            },
            Answer::Failed(words) => self.fail(Fault::Step(words)),
        }
    }

    fn after_changes(&mut self, reply: Reply) -> (step: Step)
        ensures
            (final(self)@, step@) == old(self)@.after_changes(reply@),
    {
        match reply {
            Answer::Done(changes) => {
                if changes.as_str().is_empty() {
                    self.end(Ok(PushResult::NothingToPush))
                } else {
                    let url = self.sync.config().git_url(self.push_repo.as_str());
                    let target = branch_ref_of(self.branch.as_str());
                    let action = self.upstream_command(ls_heads_line(url.as_str(), target.as_str()));
                    self.act(PushPhase::Existing, action)
                }
            },
            Answer::Failed(words) => self.fail(Fault::Step(words)),
        }
    }

    fn after_existing(&mut self, reply: Reply) -> (step: Step)
        ensures
            (final(self)@, step@) == old(self)@.after_existing(reply@),
    {
        match reply {
            Answer::Done(existing) => {
                if !existing.as_str().is_empty() {
                    let fault = Fault::TargetBranchExists {
                        repo: self.push_repo.clone(),
                        branch: self.branch.clone(),
                    };
                    self.fail(fault)
                } else {
                    let target = branch_ref_of(self.branch.as_str());
                    let line = push_new_line(self.base().as_str(), target.as_str(), self.josh_url.as_str());
                    self.run(PushPhase::Push, line)
                }
            },
            Answer::Failed(words) => self.fail(Fault::Step(words)),
        }
    }

    fn after_push(&mut self, reply: Reply) -> (step: Step)
        ensures
            (final(self)@, step@) == old(self)@.after_push(reply@),
    {
        match reply {
            Answer::Done(_) => {
                self.pushed = true;
                let line = fetch_ref_line(self.josh_url.as_str(), self.branch.as_str());
                self.run(PushPhase::FetchBack, line)
            },
            Answer::Failed(words) => self.fail(Fault::Step(words)),
        }
    }

    fn after_fetch_back(&mut self, reply: Reply) -> (step: Step)
        ensures
            (final(self)@, step@) == old(self)@.after_fetch_back(reply@),
    {
        match reply {
            Answer::Done(_) => self.ask_local_head(),
            Answer::Failed(words) => self.fail(Fault::Step(words)),
        }
    }

    fn after_fetched_head(&mut self, reply: Reply) -> (step: Step)
        ensures
            (final(self)@, step@) == old(self)@.after_fetched_head(reply@),
    {
        match reply {
            Answer::Done(head) => {
                if head != self.local_head {
                    let expected = self.local_head.clone();
                    self.fail(Fault::NotRoundTrip { expected, got: head })
                } else {
                    let mut text = "Confirmed that the push round-trips back to ".to_owned();
                    text.append(self.sync.config().repo.as_str());
                    text.append(" properly. Please create an upstream PR.");
                    self.end(Ok(PushResult::Pushed)).out(text).out(NO_REBASE_WARN.to_owned())
                }
            },
            Answer::Failed(words) => self.fail(Fault::Step(words)),
        }
    }

    /// Whether the push can go on after an answer.
    pub fn takes(&self, reply: &Reply) -> (r: bool)
        ensures
            r == self@.takes(reply@),
    {
        match (self.phase, reply) {
            (PushPhase::Over, _) => false,
            (PushPhase::Proxy, Answer::Done(_)) => self.sync.config().validate().is_ok(),
            _ => true,
        }
    }

    /// Takes the answer to what the push is waiting for, and says what comes next.
    pub fn step(&mut self, reply: Reply) -> (step: Step)
        requires
            old(self)@.wf(),
            old(self)@.takes(reply@),
        ensures
            (final(self)@, step@) == old(self)@.next(reply@),
            final(self)@.wf(),
    {
        match self.phase {
            PushPhase::Clean => self.after_clean(reply),
            PushPhase::BranchName => self.after_branch_name(reply),
            PushPhase::Proxy => self.after_proxy(reply),
            PushPhase::Url => self.after_url(reply),
            PushPhase::Fetch => self.after_fetch(reply),
            PushPhase::FindFilter => self.after_find_filter(reply),
            PushPhase::InstallFilter => self.after_install_filter(reply),
            PushPhase::RunFilter => self.after_run_filter(reply),
            PushPhase::FilteredHead => self.after_filtered_head(reply),
            PushPhase::CurrentHead => self.after_current_head(reply),
            PushPhase::MergeBase => self.after_merge_base(reply),
            PushPhase::Changes => self.after_changes(reply),
            PushPhase::Existing => self.after_existing(reply),
            PushPhase::Push => self.after_push(reply),
            PushPhase::FetchBack => self.after_fetch_back(reply),
            PushPhase::FetchedHead => self.after_fetched_head(reply),
            PushPhase::Over => Step::end(),
        }
    }

    /// How the push ended; nothing while it is under way.
    pub fn outcome(&self) -> (outcome: &Option<Result<PushResult, SyncError>>)
        ensures
            match *outcome {
                Some(end) => self@.outcome == Some(push_end_view(end)),
                None => self@.outcome is None,
            },
    {
        &self.outcome
    }
}

impl GitSync {
    /// Starts a push of the mirror to the new branch `branch`, for `username`, and says what
    /// comes first. The upstream repository is asked from within `upstream_checkout` where that is
    /// given.
    pub fn rustc_push(
        &self,
        username: &str,
        branch: &str,
        inside_ci: bool,
        upstream_checkout: Option<String>,
    ) -> (out: (PushRun<'_>, Step))
        ensures
            (out.0@, out.1@) == PushView::start(
                self@,
                username@,
                branch@,
                inside_ci,
                maybe(upstream_checkout),
            ),
            out.0@.wf(),
    {
        let run = PushRun {
            sync: self,
            username: username.to_owned(),
            branch: branch.to_owned(),
            inside_ci,
            upstream_checkout,
            phase: PushPhase::Clean,
            push_repo: String::new(),
            josh_url: String::new(),
            pushed: false,
            local_head: String::new(),
            outcome: None,
        };
        (run, Step::act(Deed::EnsureClean { verbose: self.verbose() }))
    }
}

/// The end of a push is seen as it is.
pub proof fn law_end_of_push_is_seen(result: PushResult, fault: SyncError)
    ensures
        push_end_view(Ok(result)) == Ok::<PushResult, Fault<Seq<char>>>(result),
        push_end_view(Err(fault)) == Err::<PushResult, Fault<Seq<char>>>(fault@),
{
}

} // verus!
