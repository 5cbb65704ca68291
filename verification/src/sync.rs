//! The synchronisation itself: what it is about and how it can end.
use crate::config::{ConfigView, JoshConfig};
use crate::error::{Fault, SyncError};
use crate::git::{diff_against, diff_against_line, reset, reset_line};
use crate::josh::{JoshProxy, ProxyView};
use crate::step::{ActionView, Notice, Step, StepView};
use crate::text::maybe;
use crate::SyncContext;
use vstd::prelude::*;

verus! {

/// The upstream repository of a configuration that names none.
pub const DEFAULT_UPSTREAM_REPO: &'static str = "rust-lang/rust";

/// What becomes of merge commits that a filter leaves empty.
#[derive(Debug, Copy, Clone, PartialEq, Eq, Structural)]
pub enum FilterVersion {
    /// Keep empty merge commits.
    Version1,
    /// Skip empty merge commits.
    Version2,
}

impl FilterVersion {
    /// The number of a filter version.
    pub open spec fn as_number(self) -> u32 {
        match self {
            FilterVersion::Version1 => 1,
            FilterVersion::Version2 => 2,
        }
    }

    /// The filter version with a number.
    pub open spec fn of_number(num: u32) -> Option<FilterVersion> {
        if num == 1 {
            Some(FilterVersion::Version1)
        } else if num == 2 {
            Some(FilterVersion::Version2)
        } else {
            None
        }
    }

    /// The version for new mirrors.
    pub fn latest() -> (version: Self)
        ensures
            version == FilterVersion::Version2,
    {
        FilterVersion::Version2
    }

    /// The number by which a configuration file knows this version.
    pub fn number(&self) -> (num: u32)
        ensures
            num == self.as_number(),
    {
        match self {
            FilterVersion::Version1 => 1,
            FilterVersion::Version2 => 2,
        }
    }

    /// The version with the number `num`; other numbers are given back.
    pub fn from_number(num: u32) -> (out: Result<FilterVersion, u32>)
        ensures
            match out {
                Ok(version) => FilterVersion::of_number(num) == Some(version),
                Err(other) => FilterVersion::of_number(num) is None && other == num,
            },
    {
        match num {
            1 => Ok(FilterVersion::Version1),
            2 => Ok(FilterVersion::Version2),
            other => Err(other),
        }
    }
}

/// What a synchronisation must not be followed by.
pub const NO_REBASE_WARN: &'static str = "Do NOT amend/squash/rebase any of the commits produced by this tool; that can badly break future syncs.";

/// Why a pull did not succeed.
#[derive(Debug, PartialEq, Eq)]
pub enum RustcPullError {
    /// No changes are available to be pulled.
    NothingToPull,
    /// A rustc-pull has failed, probably a git operation error has occurred.
    PullFailed(SyncError),
}

/// The texts of a `RustcPullError`.
pub enum PullFault {
    NothingToPull,
    PullFailed(Fault<Seq<char>>),
}

impl View for RustcPullError {
    type V = PullFault;

    open spec fn view(&self) -> PullFault {
        match *self {
            RustcPullError::NothingToPull => PullFault::NothingToPull,
            RustcPullError::PullFailed(fault) => PullFault::PullFailed(fault@),
        }
    }
}

impl From<SyncError> for RustcPullError {
    fn from(error: SyncError) -> (out: Self) {
        RustcPullError::PullFailed(error)
    }
}

impl vstd::std_specs::convert::FromSpecImpl<SyncError> for RustcPullError {
    open spec fn obeys_from_spec() -> bool {
        true
    }

    open spec fn from_spec(error: SyncError) -> Self {
        RustcPullError::PullFailed(error)
    }
}

/// What a pull that succeeded leaves.
#[derive(Debug, PartialEq, Eq)]
pub struct PullResult {
    pub merge_commit_message: String,
}

/// How a push that did not fail ended.
#[derive(Debug, Copy, Clone, PartialEq, Eq, Structural)]
pub enum PushResult {
    Pushed,
    NothingToPush,
}

/// A mirror that is synchronised, and the proxy that it is synchronised through.
pub struct GitSync {
    context: SyncContext,
    proxy: JoshProxy,
    verbose: bool,
}

/// The texts of a `GitSync`.
pub struct SyncView {
    pub config: ConfigView,
    /// The file that holds the last upstream commit that was pulled, where one is kept.
    pub last_upstream_sha_path: Option<Seq<char>>,
    /// What that file held, where it could be read.
    pub last_upstream_sha: Option<Seq<char>>,
    pub proxy: ProxyView,
    pub verbose: bool,
}

impl View for GitSync {
    type V = SyncView;

    closed spec fn view(&self) -> SyncView {
        SyncView {
            config: self.context.config@,
            last_upstream_sha_path: maybe(self.context.last_upstream_sha_path),
            last_upstream_sha: maybe(self.context.last_upstream_sha),
            proxy: self.proxy@,
            verbose: self.verbose,
        }
    }
}

impl GitSync {
    pub fn new(context: SyncContext, proxy: JoshProxy, verbose: bool) -> (sync: Self)
        ensures
            sync@ == (SyncView {
                config: context.config@,
                last_upstream_sha_path: maybe(context.last_upstream_sha_path),
                last_upstream_sha: maybe(context.last_upstream_sha),
                proxy: proxy@,
                verbose,
            }),
    {
        Self { context, proxy, verbose }
    }

    /// The configuration of the mirror.
    pub fn config(&self) -> (config: &JoshConfig)
        ensures
            config@ == self@.config,
    {
        &self.context.config
    }

    /// The file that holds the last upstream commit that was pulled, where one is kept.
    pub fn last_upstream_sha_path(&self) -> (path: &Option<String>)
        ensures
            maybe(*path) == self@.last_upstream_sha_path,
    {
        &self.context.last_upstream_sha_path
    }

    /// What that file held, where it could be read.
    pub fn last_upstream_sha(&self) -> (sha: &Option<String>)
        ensures
            maybe(*sha) == self@.last_upstream_sha,
    {
        &self.context.last_upstream_sha
    }

    /// The proxy that the mirror is synchronised through.
    pub fn proxy(&self) -> (proxy: &JoshProxy)
        ensures
            proxy@ == self@.proxy,
    {
        &self.proxy
    }

    /// Whether the user is shown the commands that are run.
    pub fn verbose(&self) -> (verbose: bool)
        ensures
            verbose == self@.verbose,
    {
        self.verbose
    }

    /// The step that tells whether the tree is as it was at `baseline_sha`: the command of this
    /// step succeeds where there is no difference.
    pub fn has_empty_diff(&self, baseline_sha: &str) -> (step: Step)
        ensures
            step@ == StepView::run(diff_against(baseline_sha@), self@.verbose),
    {
        Step::run(diff_against_line(baseline_sha), self.verbose)
    }
}

/// Restores HEAD to `reset_to` on drop, unless `disarm` is called first.
#[derive(Debug, PartialEq, Eq)]
pub struct GitResetOnDrop {
    disarmed: bool,
    reset_to: String,
    verbose: bool,
}

/// The texts of a `GitResetOnDrop`.
pub struct GuardView {
    pub disarmed: bool,
    pub reset_to: Seq<char>,
    pub verbose: bool,
}

impl View for GitResetOnDrop {
    type V = GuardView;

    closed spec fn view(&self) -> GuardView {
        GuardView { disarmed: self.disarmed, reset_to: self.reset_to@, verbose: self.verbose }
    }
}

impl GuardView {
    /// What is left to be done when the guard is dropped.
    pub open spec fn last_step(self) -> Option<StepView> {
        if self.disarmed {
            None
        } else {
            Some(
                StepView::run(reset(self.reset_to), self.verbose).err(
                    "Reverting HEAD to "@ + self.reset_to,
                ),
            )
        }
    }
}

impl GitResetOnDrop {
    pub fn new(current_sha: String, verbose: bool) -> (guard: Self)
        ensures
            guard@ == (GuardView { disarmed: false, reset_to: current_sha@, verbose }),
    {
        Self { disarmed: false, reset_to: current_sha, verbose }
    }

    pub fn disarm(&mut self)
        ensures
            final(self)@ == (GuardView { disarmed: true, ..old(self)@ }),
    {
        self.disarmed = true;
    }

    /// The commit that HEAD is restored to.
    pub fn reset_to(&self) -> (sha: &str)
        ensures
            sha@ == self@.reset_to,
    {
        self.reset_to.as_str()
    }

    /// What is left to be done when the guard is dropped.
    pub fn on_drop(&self) -> (step: Option<Step>)
        ensures
            match step {
                Some(step) => self@.last_step() == Some(step@),
                None => self@.last_step() is None,
            },
    {
        if !self.disarmed {
            let mut text = "Reverting HEAD to ".to_owned();
            text.append(self.reset_to.as_str());
            Some(Step::run(reset_line(self.reset_to.as_str()), self.verbose).err(text))
        } else {
            None
        }
    }
}

/// The filter versions have the numbers one and two, and there are no others.
pub proof fn law_numbers_of_versions(num: u32)
    ensures
        FilterVersion::Version1.as_number() == 1,
        FilterVersion::Version2.as_number() == 2,
        FilterVersion::of_number(1) == Some(FilterVersion::Version1),
        FilterVersion::of_number(2) == Some(FilterVersion::Version2),
        FilterVersion::of_number(num) is Some <==> num == 1 || num == 2,
{
}

/// A guard that is dropped tells the user and resets HEAD to its commit, unless it was disarmed.
pub proof fn law_guard_resets_head(guard: GuardView)
    ensures
        guard.disarmed ==> guard.last_step() is None,
        !guard.disarmed ==> {
            &&& guard.last_step() matches Some(step)
            &&& step.lines == seq![Notice::Stderr("Reverting HEAD to "@ + guard.reset_to)]
            &&& step.action == Some(
                ActionView::Run {
                    line: seq!["git"@, "reset"@, "--hard"@, guard.reset_to],
                    verbose: guard.verbose,
                },
            )
        },
{
}

/// The user is warned against rewriting what a synchronisation made.
pub proof fn law_warning()
    ensures
        NO_REBASE_WARN@
            == "Do NOT amend/squash/rebase any of the commits produced by this tool; that can badly break future syncs."@,
        DEFAULT_UPSTREAM_REPO@ == "rust-lang/rust"@,
{
}

} // verus!
