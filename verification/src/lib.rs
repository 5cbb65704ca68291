//! Synchronisation of a subtree repository with its upstream through Josh.
use crate::config::{ConfigView, JoshConfig};
use crate::error::{Fault, SyncError};
use crate::text::{law_split_parts, lemma_before, maybe, split_once, trim, trimmed};
use vstd::prelude::*;

pub mod config;
pub mod error;
pub mod filter;
pub mod git;
pub mod josh;
pub mod pull;
pub mod pull_course;
pub mod pull_laws;
pub mod push;
pub mod push_course;
pub mod push_laws;
pub mod report;
pub mod step;
pub mod sync;
pub mod text;

verus! {

/// What a synchronisation works on.
#[derive(Debug, Clone, PartialEq, Eq)]
pub struct SyncContext {
    pub config: JoshConfig,
    /// The file that holds the last upstream commit that was pulled, where one is kept.
    pub last_upstream_sha_path: Option<String>,
    /// What that file held, where it could be read.
    pub last_upstream_sha: Option<String>,
}

impl ConfigView {
    /// The configuration after what a user asks for instead: another mirror, another filter,
    /// another upstream branch. It must be in order before, and after.
    pub open spec fn overridden(
        self,
        mirror: Option<Seq<char>>,
        filter: Option<Seq<char>>,
        branch: Option<Seq<char>>,
    ) -> Result<ConfigView, Fault<Seq<char>>> {
        match (self.problem(), self.with_mirror(mirror)) {
            (Some(fault), _) => Err(fault),
            (None, Err(fault)) => Err(fault),
            (None, Ok(config)) => {
                let config = config.with_filter(filter).with_branch(branch);
                match config.problem() {
                    Some(fault) => Err(fault),
                    None => Ok(config),
                }
            },
        }
    }
}

/// A configuration that is not in order stays refused, whatever the user asks for instead.
pub proof fn law_refused_config_stays_refused(
    config: ConfigView,
    mirror: Option<Seq<char>>,
    filter: Option<Seq<char>>,
    branch: Option<Seq<char>>,
)
    requires
        !config.valid(),
    ensures
        config.problem() is Some,
        config.overridden(mirror, filter, branch) == Err::<ConfigView, Fault<Seq<char>>>(config.problem()->0),
{
}

/// A configuration that is in order is refused only for a mirror that has no slash.
pub proof fn law_only_the_mirror_is_refused(
    config: ConfigView,
    mirror: Option<Seq<char>>,
    filter: Option<Seq<char>>,
    branch: Option<Seq<char>>,
)
    requires
        config.valid(),
    ensures
        config.overridden(mirror, filter, branch) matches Err(fault) ==> {
            fault == Fault::<Seq<char>>::InvalidMirror && mirror is Some && !mirror->0.contains('/')
        },
        mirror is Some && !mirror->0.contains('/') ==> config.overridden(mirror, filter, branch) == Err::<
            ConfigView,
            Fault<Seq<char>>,
        >(Fault::InvalidMirror),
{
    if let Some(name) = mirror {
        lemma_before(name, '/');
        if name.contains('/') {
            let i = choose|i: int| 0 <= i < name.len() && name[i] == '/';
            assert(name[i] == '/');
        }
    }
}

/// Makes the context of a synchronisation out of a configuration as it was read and what the user
/// asks for instead. No file is kept for the last commit.
pub fn load_context(
    config: JoshConfig,
    mirror: &Option<String>,
    filter: &Option<String>,
    upstream_branch: &Option<String>,
) -> (out: Result<SyncContext, SyncError>)
    ensures
        match out {
            Ok(context) => {
                &&& config@.overridden(maybe(*mirror), maybe(*filter), maybe(*upstream_branch)) == Ok::<
                    ConfigView,
                    Fault<Seq<char>>,
                >(context.config@)
                &&& context.config@.valid()
                &&& context.last_upstream_sha_path is None
                &&& context.last_upstream_sha is None
            },
            Err(fault) => config@.overridden(maybe(*mirror), maybe(*filter), maybe(*upstream_branch)) == Err::<
                ConfigView,
                Fault<Seq<char>>,
            >(fault@),
        },
{
    if let Err(fault) = config.validate() {
        return Err(fault);
    }
    let mut config = config;
    if let Some(mirror) = mirror {
        match split_once(mirror.as_str(), '/') {
            Some((org, repo)) => {
                config.org = org;
                config.repo = repo;
            },
            None => return Err(Fault::InvalidMirror),
        }
    }
    if let Some(filter) = filter {
        config.path = None;
        config.filter = Some(filter.clone());
    }
    if let Some(branch) = upstream_branch {
        config.upstream_branch = branch.clone();
    }
    match config.validate() {
        Ok(_) => Ok(SyncContext { config, last_upstream_sha_path: None, last_upstream_sha: None }),
        Err(fault) => Err(fault),
    }
}

/// Makes the context of a synchronisation that keeps the last commit in the file at
/// `rust_version_path`, out of a configuration as it was read and what that file holds, where it
/// could be read.
pub fn load_tracked_context(
    config: JoshConfig,
    rust_version_path: String,
    rust_version: &Option<String>,
) -> (out: Result<SyncContext, SyncError>)
    ensures
        match out {
            Ok(context) => {
                &&& config@.problem() is None
                &&& context.config == config
                &&& maybe(context.last_upstream_sha_path) == Some(rust_version_path@)
                &&& maybe(context.last_upstream_sha) == match maybe(*rust_version) {
                    Some(version) => Some(trimmed(version)),
                    None => None,
                }
            },
            Err(fault) => config@.problem() == Some(fault@),
        },
{
    match config.validate() {
        Ok(_) => {
            let last_upstream_sha = match rust_version {
                Some(version) => Some(trim(version.as_str())),
                None => None,
            };
            Ok(SyncContext { config, last_upstream_sha_path: Some(rust_version_path), last_upstream_sha })
        },
        Err(fault) => Err(fault),
    }
}

/// Where the user's wishes are met, each is met on its own, and nothing else is changed: the mirror
/// that is asked for gives its two parts, the filter takes the place of the path, and the branch is the
/// one that is asked for; what is not asked for stays as it is configured.
pub proof fn law_each_wish_is_met(
    config: ConfigView,
    mirror: Option<Seq<char>>,
    filter: Option<Seq<char>>,
    branch: Option<Seq<char>>,
    out: ConfigView,
)
    requires
        config.overridden(mirror, filter, branch) == Ok::<ConfigView, Fault<Seq<char>>>(out),
    ensures
        out.upstream_branch == (if branch is Some {
            branch->0
        } else {
            config.upstream_branch
        }),
        filter is Some ==> out.path is None && out.filter == filter,
        filter is None ==> out.path == config.path && out.filter == config.filter,
        mirror is Some ==> out.org + seq!['/'] + out.repo == mirror->0 && !out.org.contains('/'),
        mirror is None ==> out.org == config.org && out.repo == config.repo,
        out.upstream_repo == config.upstream_repo,
        out.push_repo == config.push_repo,
        out.proxy_url == config.proxy_url,
        out.github_url == config.github_url,
        out.post_pull == config.post_pull,
        out.subtree_filter == config.subtree_filter,
        out.filter_version == config.filter_version,
{
    if let Some(name) = mirror {
        law_split_parts(name, '/');
    }
}

} // verus!
